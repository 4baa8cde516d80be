//! Routes and handlers.
//!
//! A request passes through here in steps, and the server does the outside
//! work between them: [`root`] picks the route from method and path; the
//! handler of the route says what to ask of the store, or rejects the
//! request; [`created`] or [`listed`] turns the store's answer into a reply;
//! [`recover`] turns whatever was rejected on the way into the reply of the
//! error mapper.

use crate::error::{api_error_handler, ApiError, Failure, Rejection};
use crate::reply::{Body, BodyView, Reply, ReplyView, OK};
use crate::run::{sort_by_id, sorted_by_id, Run};
use crate::target::{parse_target, RunTarget};
use crate::text::{chars_of, spells, starts_with};
use vstd::prelude::*;

verus! {

/// The largest body, in bytes, that a create request may send.
pub const BODY_LIMIT: u64 = 1024;

/// The body of a create request, decoded.
#[derive(Clone, Debug, PartialEq, Eq)]
pub struct CreatePayload {
    /// The name of the category of the run.
    pub target: String,
}

/// The operation that a request asks for.
#[derive(Clone, Debug, PartialEq, Eq)]
pub enum Route {
    /// `GET /runs/{scope}`: list the records of `scope`.
    List { scope: String },
    /// `POST /runs/{scope}`: create a record in `scope`.
    Create { scope: String },
}

/// A route as a mathematical value.
pub enum RouteView {
    List { scope: Seq<char> },
    Create { scope: Seq<char> },
}

impl View for Route {
    type V = RouteView;

    open spec fn view(&self) -> RouteView {
        match *self {
            Route::List { scope } => RouteView::List { scope: scope@ },
            Route::Create { scope } => RouteView::Create { scope: scope@ },
        }
    }
}

/// What the create handler asks of the store: to insert a record of
/// `target` into `scope` and to return it with the identifier and the
/// creation time that the store generated, in one atomic call.
#[derive(Clone, Debug, PartialEq, Eq)]
pub struct Insert {
    pub scope: String,
    pub target: RunTarget,
}

/// An insertion as a mathematical value.
pub struct InsertView {
    pub scope: Seq<char>,
    pub target: RunTarget,
}

impl View for Insert {
    type V = InsertView;

    open spec fn view(&self) -> InsertView {
        InsertView { scope: self.scope@, target: self.target }
    }
}

/// What the list handler asks of the store: to select all records of
/// `scope`.
#[derive(Clone, Debug, PartialEq, Eq)]
pub struct Select {
    pub scope: String,
}

impl View for Select {
    type V = Seq<char>;

    /// The scope to select.
    open spec fn view(&self) -> Seq<char> {
        self.scope@
    }
}

/// The segment that stands for the scope in what follows `/runs/`: all of
/// it, but for one closing slash.
pub open spec fn scope_segment(rest: Seq<char>) -> Seq<char> {
    if rest.len() > 0 && rest.last() == '/' {
        rest.drop_last()
    } else {
        rest
    }
}

/// The scope that a path names: what follows `/runs/`, if that is one
/// non-empty segment, with or without a closing slash. The scope is taken as
/// it stands, with no decoding.
pub open spec fn scope_of(path: Seq<char>) -> Option<Seq<char>> {
    let prefix = "/runs/"@;
    let scope = scope_segment(path.subrange(prefix.len() as int, path.len() as int));
    if prefix.len() <= path.len() && path.subrange(0, prefix.len() as int) == prefix
        && scope.len() > 0 && (forall|i: int| 0 <= i < scope.len() ==> scope[i] != '/') {
        Some(scope)
    } else {
        None
    }
}

/// The list route, where method and path match it.
pub open spec fn list_route(method: Seq<char>, path: Seq<char>) -> Option<RouteView> {
    match scope_of(path) {
        Some(scope) if method == "GET"@ => Some(RouteView::List { scope }),
        _ => None,
    }
}

/// The create route, where method and path match it.
pub open spec fn create_route(method: Seq<char>, path: Seq<char>) -> Option<RouteView> {
    match scope_of(path) {
        Some(scope) if method == "POST"@ => Some(RouteView::Create { scope }),
        _ => None,
    }
}

/// The route of a request: the first of list and create that matches.
pub open spec fn route_of(method: Seq<char>, path: Seq<char>) -> Option<RouteView> {
    match list_route(method, path) {
        Some(route) => Some(route),
        None => create_route(method, path),
    }
}

/// What the create handler decides before the store is asked: the category
/// to insert, or the failure. `payload` is the target of the decoded body,
/// or `None` where the body did not decode. The size is judged first, then
/// the shape, then the target. A body over the cap is never decoded, so for
/// such a body `payload` is of no account.
pub open spec fn create_plan(length: u64, payload: Option<Seq<char>>) -> Result<
    RunTarget,
    Failure,
> {
    if length > BODY_LIMIT {
        Err(Failure::BodyTooLarge)
    } else {
        match payload {
            None => Err(Failure::BodyMalformed),
            Some(target) => match parse_target(target) {
                Some(category) => Ok(category),
                None => Err(Failure::Validation(target)),
            },
        }
    }
}

/// The reply to a create request that made `run`.
pub open spec fn run_reply(run: Run) -> ReplyView {
    ReplyView { status: OK, body: BodyView::Run(run) }
}

/// The reply to a list request for which the store returned `runs`: the
/// records by ascending identifier.
pub open spec fn runs_reply(runs: Seq<Run>) -> ReplyView {
    ReplyView { status: OK, body: BodyView::Runs(sorted_by_id(runs)) }
}

/// The target of a decoded body, as a mathematical value.
pub open spec fn target_of(payload: Option<CreatePayload>) -> Option<Seq<char>> {
    match payload {
        Some(body) => Some(body.target@),
        None => None,
    }
}

/// The scope of `path`, if it names one.
fn scope(path: &str) -> (found: Option<String>)
    ensures
        match found {
            Some(scope) => scope_of(path@) == Some(scope@),
            None => scope_of(path@) is None,
        },
{
    let chars = chars_of(path);
    let prefix = "/runs/";
    let start: usize = prefix.unicode_len();
    if !starts_with(&chars, prefix) {
        return None;
    }
    let mut end: usize = chars.len();
    if end > start && chars[end - 1] == '/' {
        end -= 1;
    }
    let ghost rest = path@.subrange(start as int, path@.len() as int);
    assert(scope_segment(rest) =~= path@.subrange(start as int, end as int));
    if end == start {
        return None;
    }
    let mut i: usize = start;
    while i < end
        invariant
            start <= i <= end <= chars.len(),
            start == "/runs/"@.len(),
            chars@ == path@,
            scope_segment(rest) == path@.subrange(start as int, end as int),
            rest == path@.subrange(start as int, path@.len() as int),
            forall|j: int| start <= j < i ==> chars@[j] != '/',
        decreases end - i,
    {
        if chars[i] == '/' {
            assert(path@.subrange(start as int, end as int)[i - start] == '/');
            return None;
        }
        i += 1;
    }
    Some(path.substring_char(start, end).to_owned())
}

/// Matches `GET /runs/{scope}`.
pub fn list(method: &str, path: &str) -> (route: Option<Route>)
    ensures
        match route {
            Some(route) => list_route(method@, path@) == Some(route@),
            None => list_route(method@, path@) is None,
        },
{
    if !spells(&chars_of(method), "GET") {
        return None;
    }
    match scope(path) {
        Some(scope) => Some(Route::List { scope }),
        None => None,
    }
}

/// Matches `POST /runs/{scope}`.
pub fn create(method: &str, path: &str) -> (route: Option<Route>)
    ensures
        match route {
            Some(route) => create_route(method@, path@) == Some(route@),
            None => create_route(method@, path@) is None,
        },
{
    if !spells(&chars_of(method), "POST") {
        return None;
    }
    match scope(path) {
        Some(scope) => Some(Route::Create { scope }),
        None => None,
    }
}

/// Dispatches a request by method and path: list is tried first, then
/// create, and a request that matches neither is rejected as not found.
pub fn root(method: &str, path: &str) -> (route: Result<Route, Rejection>)
    ensures
        match route {
            Ok(route) => route_of(method@, path@) == Some(route@),
            Err(rejection) => route_of(method@, path@) is None && rejection.failure()
                == Failure::NotFound,
        },
{
    match list(method, path) {
        Some(route) => Ok(route),
        None => match create(method, path) {
            Some(route) => Ok(route),
            None => Err(Rejection::NotFound),
        },
    }
}

/// Admits a body of `length` bytes, or rejects it as too large. It is
/// admitted if and only if `length` is at most [`BODY_LIMIT`].
pub fn content_length_limit(length: u64) -> (admitted: Result<(), Rejection>)
    ensures
        admitted is Ok <==> length <= BODY_LIMIT,
        admitted matches Err(rejection) ==> rejection.failure() == Failure::BodyTooLarge,
{
    if length > BODY_LIMIT {
        Err(Rejection::BodyTooLarge)
    } else {
        Ok(())
    }
}

/// The create handler, up to the store. For a body of `length` bytes that
/// decoded into `payload` (`None`: it did not decode, or was not decoded
/// because it is too large) it returns the insertion to make, or rejects
/// the request: as too large, else as malformed, else for a target that
/// names no category, in this order. The rejection of a target holds it.
pub fn handle_create(scope: String, length: u64, payload: Option<CreatePayload>) -> (planned:
    Result<Insert, Rejection>)
    ensures
        match create_plan(length, target_of(payload)) {
            Ok(target) => planned matches Ok(call) && call@ == (InsertView {
                scope: scope@,
                target,
            }),
            Err(failure) => planned matches Err(rejection) && rejection.failure() == failure,
        },
{
    match content_length_limit(length) {
        Err(rejection) => {
            return Err(rejection);
        },
        Ok(_) => {},
    }
    let body = match payload {
        None => {
            return Err(Rejection::BodyMalformed);
        },
        Some(body) => body,
    };
    match RunTarget::from_str(body.target.as_str()) {
        Ok(target) => Ok(Insert { scope, target }),
        Err(source) => Err(
            Rejection::Domain(ApiError::DataFormatError { source, target: body.target }),
        ),
    }
}

/// The list handler, up to the store: it asks for all records of `scope`.
pub fn handle_list(scope: String) -> (call: Select)
    ensures
        call@ == scope@,
{
    Select { scope }
}

/// The reply to a create request, once the store has answered: the record
/// it returned, with status 200. A failure of the store is rejected as a
/// domain error that holds it.
pub fn created(outcome: Result<Run, sqlx::Error>) -> (reply: Result<Reply, Rejection>)
    ensures
        match outcome {
            Ok(run) => reply matches Ok(sent) && sent@ == run_reply(run),
            Err(error) => reply matches Err(Rejection::Domain(ApiError::DatabaseError(held)))
                && held == error,
        },
{
    match outcome {
        Ok(run) => Ok(Reply { status: OK, body: Body::Run(run) }),
        Err(error) => Err(Rejection::Domain(ApiError::DatabaseError(error))),
    }
}

/// The reply to a list request, once the store has answered: the records
/// it returned, by ascending identifier, with status 200. No records is no
/// error: the reply then holds none. A failure of the store is rejected as
/// a domain error that holds it.
pub fn listed(outcome: Result<Vec<Run>, sqlx::Error>) -> (reply: Result<Reply, Rejection>)
    ensures
        match outcome {
            Ok(runs) => reply matches Ok(sent) && sent@ == runs_reply(runs@),
            Err(error) => reply matches Err(Rejection::Domain(ApiError::DatabaseError(held)))
                && held == error,
        },
{
    match outcome {
        Ok(runs) => Ok(Reply { status: OK, body: Body::Runs(sort_by_id(&runs)) }),
        Err(error) => Err(Rejection::Domain(ApiError::DatabaseError(error))),
    }
}

/// Ends the pipeline: a reply passes through unchanged, and a rejection is
/// answered by the error mapper, once.
pub fn recover(outcome: Result<Reply, Rejection>) -> (reply: Reply)
    ensures
        match outcome {
            Ok(sent) => reply == sent,
            Err(rejection) => reply@ == rejection.failure().reply(),
        },
{
    match outcome {
        Ok(sent) => sent,
        Err(rejection) => api_error_handler(&rejection),
    }
}

} // verus!
