//! Request-handling core of a small service that records and lists "run"
//! events grouped by a caller-chosen scope.
//!
//! The crate holds the decisions of the pipeline and none of its I/O: which
//! route a request takes, whether its body is admitted, which category a
//! target names, what is asked of the store, and how every failure becomes
//! one uniform error envelope with a status code. A server around it reads
//! requests, talks to the store and writes responses.
//!
//! A request is served in this order: [`HandlerCtx::init`] makes its
//! context; [`root`] picks the route; [`handle_create`] or [`handle_list`]
//! says what to ask of the store; [`created`] or [`listed`] makes the reply
//! from the store's answer; [`recover`] answers a rejection through
//! [`api_error_handler`]; [`HandlerCtx::request_id_wrapper`] attaches the
//! request identifier.

pub mod api;
pub mod context;
pub mod error;
pub mod laws;
pub mod reply;
pub mod run;
pub mod target;
pub mod text;
pub mod trace;

pub use api::{
    content_length_limit, create, created, handle_create, handle_list, list, listed, recover,
    root, CreatePayload, Insert, Route, Select, BODY_LIMIT,
};
pub use context::{HandlerCtx, WithHeader};
pub use error::{
    api_code_to_http, api_error_handler, data_format_error_handler, database_error_handler,
    storage_failure_handler, ApiError, Rejection, StorageFailure,
};
pub use reply::{Body, ErrorMessage, Reply};
pub use run::{sort_by_id, Run};
pub use target::RunTarget;
pub use trace::env_filter_config;
