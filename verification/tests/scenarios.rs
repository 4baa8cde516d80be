use runs_api::api::{
    created, handle_create, handle_list, listed, recover, root, CreatePayload, Insert, Route,
    Select,
};
use runs_api::context::HandlerCtx;
use runs_api::error::Rejection;
use runs_api::reply::{Body, ErrorMessage, Reply};
use runs_api::run::Run;
use runs_api::target::RunTarget;
use runs_api::trace::env_filter_config;

/// A store that holds nothing and gives the first record identifier 1.
fn insert(call: Insert) -> Result<Reply, Rejection> {
    created(Ok(Run { id: 1, category: call.target, created_at: 1_700_000_000_000_000 }))
}

fn select(_call: Select) -> Result<Reply, Rejection> {
    listed(Ok(vec![]))
}

fn serve(method: &str, path: &str, body: Option<&str>, decoded: Option<&str>) -> Reply {
    let length = body.map(|b| b.len() as u64).unwrap_or(0);
    let payload = decoded.map(|target| CreatePayload { target: target.to_string() });
    let outcome = match root(method, path) {
        Err(rejection) => Err(rejection),
        Ok(Route::List { scope }) => select(handle_list(scope)),
        Ok(Route::Create { scope }) => match handle_create(scope, length, payload) {
            Err(rejection) => Err(rejection),
            Ok(call) => insert(call),
        },
    };
    recover(outcome)
}

fn envelope(status: u16, code: u32, message: &str) -> Reply {
    Reply { status, body: Body::Error(ErrorMessage { code, message: message.to_string() }) }
}

#[test]
fn post_baal_creates_record_one() {
    let reply = serve("POST", "/runs/abc123", Some("{\"target\":\"baal\"}"), Some("baal"));
    assert_eq!(reply.status, 200);
    match reply.body {
        Body::Run(run) => {
            assert_eq!(run.id, 1);
            assert_eq!(run.category.as_ref(), "baal");
            assert_eq!(run.category, RunTarget::Baal);
            assert_eq!(run.created_at, 1_700_000_000_000_000);
        }
        other => panic!("unexpected body {:?}", other),
    }
}

#[test]
fn post_nope_is_unprocessable() {
    let reply = serve("POST", "/runs/abc123", Some("{\"target\":\"nope\"}"), Some("nope"));
    assert_eq!(reply, envelope(422, 20001, "VariantNotFound: nope"));
}

#[test]
fn get_unknown_scope_is_an_empty_list() {
    let reply = serve("GET", "/runs/unknown-scope", None, None);
    assert_eq!(reply, Reply { status: 200, body: Body::Runs(vec![]) });
}

#[test]
fn post_of_invalid_body_is_unprocessable() {
    let reply = serve("POST", "/runs/abc123", Some("{\"target\":"), None);
    assert_eq!(reply, envelope(422, 422, "failed to process request body"));
}

#[test]
fn post_of_large_body_is_a_bad_request() {
    let body = format!("{{\"target\":\"baal\",\"padding\":\"{}\"}}", "x".repeat(1024));
    let reply = serve("POST", "/runs/abc123", Some(&body), Some("baal"));
    assert_eq!(reply, envelope(400, 400, "request body is too large"));
    let garbage = "?".repeat(1025);
    let reply = serve("POST", "/runs/abc123", Some(&garbage), None);
    assert_eq!(reply, envelope(400, 400, "request body is too large"));
}

#[test]
fn unmatched_request_is_not_found() {
    assert_eq!(serve("GET", "/nothing/here", None, None), envelope(404, 404, "not found"));
    assert_eq!(serve("DELETE", "/runs/abc123", None, None), envelope(404, 404, "not found"));
}

#[test]
fn every_response_carries_a_request_id() {
    let requests = [
        ("GET", "/runs/abc123", None, None),
        ("GET", "/nowhere", None, None),
        ("POST", "/runs/abc123", Some("{}"), None),
        ("POST", "/runs/abc123", Some("x"), Some("baal")),
    ];
    let mut replies = Vec::new();
    for (method, path, body, decoded) in requests {
        let ctx = HandlerCtx::init();
        let reply = serve(method, path, body, decoded);
        replies.push(ctx.request_id_wrapper(reply));
    }
    for wrapped in &replies {
        assert_eq!(wrapped.name, "x-request-id");
        assert_eq!(wrapped.value.len(), 16);
    }
    for (i, a) in replies.iter().enumerate() {
        for b in &replies[i + 1..] {
            assert_ne!(a.value, b.value);
        }
    }
}

#[test]
fn configured_filter_is_used() {
    assert_eq!(env_filter_config(Some("warn".to_string())), "warn");
    assert_eq!(env_filter_config(Some(String::new())), "");
}

#[test]
fn default_filter_is_used_where_none_is_configured() {
    assert_eq!(env_filter_config(None), "tracing=info,warp=debug,runs_api=debug");
}
