use runs_api::context::{HandlerCtx, WithHeader, REQUEST_ID_LENGTH};
use runs_api::reply::{Body, ErrorMessage, Reply};
use std::collections::HashSet;

fn in_alphabet(c: char) -> bool {
    c == '_' || c == '-' || c.is_ascii_digit() || c.is_ascii_lowercase() || c.is_ascii_uppercase()
}

#[test]
fn request_id_has_sixteen_safe_characters() {
    for _ in 0..200 {
        let ctx = HandlerCtx::init();
        let id = ctx.request_id();
        assert_eq!(REQUEST_ID_LENGTH, 16);
        assert_eq!(id.chars().count(), 16);
        assert_eq!(id.len(), 16);
        assert!(id.chars().all(in_alphabet));
    }
}

#[test]
fn request_id_makes_a_header_value() {
    for _ in 0..200 {
        let ctx = HandlerCtx::init();
        let value = warp::http::HeaderValue::from_str(ctx.request_id()).unwrap();
        assert_eq!(value.to_str().unwrap(), ctx.request_id());
    }
}

#[test]
fn request_ids_are_pairwise_distinct() {
    let mut seen = HashSet::new();
    for _ in 0..2000 {
        let ctx = HandlerCtx::init();
        assert!(seen.insert(ctx.request_id().to_string()));
    }
}

#[test]
fn context_keeps_its_identifier() {
    let ctx = HandlerCtx::init();
    let first = ctx.request_id().to_string();
    assert_eq!(ctx.request_id(), first);
    assert_eq!(ctx.request_id_wrapper(()).value, first);
}

#[test]
fn reply_gets_the_request_id_header() {
    let ctx = HandlerCtx::init();
    let reply = Reply { status: 200, body: Body::Runs(vec![]) };
    let wrapped = ctx.request_id_wrapper(reply.clone());
    assert_eq!(
        wrapped,
        WithHeader {
            reply,
            name: "x-request-id".to_string(),
            value: ctx.request_id().to_string(),
        }
    );
    assert!(warp::http::header::HeaderName::from_bytes(wrapped.name.as_bytes()).is_ok());
}

#[test]
fn failure_gets_the_request_id_header_too() {
    let failure = Reply {
        status: 404,
        body: Body::Error(ErrorMessage { code: 404, message: "not found".to_string() }),
    };
    let wrapped = HandlerCtx::init().request_id_wrapper(failure.clone());
    assert_eq!(wrapped.reply, failure);
    assert_eq!(wrapped.name, "x-request-id");
    assert_eq!(wrapped.value.chars().count(), 16);
    assert!(!wrapped.value.is_empty());
}

#[test]
fn wrapper_keeps_the_reply_as_it_is() {
    let ctx = HandlerCtx::init();
    assert_eq!(ctx.request_id_wrapper("handled").reply, "handled");
    assert_eq!(ctx.request_id_wrapper(7).reply, 7);
}

#[test]
fn each_request_has_its_own_identifier() {
    let a = HandlerCtx::init().request_id_wrapper(1);
    let b = HandlerCtx::init().request_id_wrapper(1);
    assert_ne!(a.value, b.value);
}
