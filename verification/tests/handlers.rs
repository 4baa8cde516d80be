use runs_api::api::{
    created, handle_create, handle_list, listed, recover, CreatePayload, Insert, Select,
};
use runs_api::error::{ApiError, Rejection};
use runs_api::reply::{Body, ErrorMessage, Reply};
use runs_api::run::Run;
use runs_api::target::RunTarget;

fn payload(target: &str) -> Option<CreatePayload> {
    Some(CreatePayload { target: target.to_string() })
}

fn run(id: i32, category: RunTarget) -> Run {
    Run { id, category, created_at: 1_600_000_000_000_000 + id as i64 }
}

#[test]
fn recognized_target_is_inserted() {
    let planned = handle_create("abc123".to_string(), 17, payload("baal")).unwrap();
    assert_eq!(planned, Insert { scope: "abc123".to_string(), target: RunTarget::Baal });
}

#[test]
fn every_recognized_target_is_inserted_under_its_own_name() {
    let names = [
        "pit",
        "andariel",
        "cows",
        "countess",
        "arcane_sanctuary",
        "ancient_tunnels",
        "travincal",
        "mephisto",
        "chaos",
        "pindle",
        "shenk",
        "eldritch",
        "worldstone",
        "baal",
    ];
    for name in names {
        let Insert { scope, target } = handle_create("s".to_string(), 32, payload(name)).unwrap();
        assert_eq!(scope, "s");
        assert_eq!(target.as_ref(), name);
        let sent = created(Ok(run(1, target))).unwrap();
        assert_eq!(sent.status, 200);
        match sent.body {
            Body::Run(record) => assert_eq!(record.category.as_ref(), name),
            other => panic!("unexpected body {:?}", other),
        }
    }
}

#[test]
fn unrecognized_target_is_rejected_with_the_value() {
    match handle_create("abc123".to_string(), 17, payload("nope")) {
        Err(Rejection::Domain(ApiError::DataFormatError { source, target })) => {
            assert_eq!(source, strum::ParseError::VariantNotFound);
            assert_eq!(target, "nope");
        }
        other => panic!("unexpected outcome {:?}", other),
    }
}

#[test]
fn undecoded_body_is_malformed() {
    assert!(matches!(
        handle_create("abc123".to_string(), 17, None),
        Err(Rejection::BodyMalformed)
    ));
    assert!(matches!(handle_create("abc123".to_string(), 0, None), Err(Rejection::BodyMalformed)));
}

#[test]
fn size_is_judged_before_shape_and_target() {
    assert!(matches!(
        handle_create("abc123".to_string(), 1025, payload("baal")),
        Err(Rejection::BodyTooLarge)
    ));
    assert!(matches!(
        handle_create("abc123".to_string(), 1025, payload("nope")),
        Err(Rejection::BodyTooLarge)
    ));
    assert!(matches!(
        handle_create("abc123".to_string(), 1025, None),
        Err(Rejection::BodyTooLarge)
    ));
}

#[test]
fn body_of_exactly_the_limit_is_handled() {
    assert!(handle_create("abc123".to_string(), 1024, payload("pit")).is_ok());
    assert!(matches!(
        handle_create("abc123".to_string(), 1024, None),
        Err(Rejection::BodyMalformed)
    ));
}

#[test]
fn list_selects_the_scope() {
    assert_eq!(handle_list("abc123".to_string()), Select { scope: "abc123".to_string() });
}

#[test]
fn created_record_is_sent_with_200() {
    let record = run(1, RunTarget::Baal);
    assert_eq!(created(Ok(record)).unwrap(), Reply { status: 200, body: Body::Run(record) });
}

#[test]
fn failed_insert_is_a_database_error() {
    assert!(matches!(
        created(Err(sqlx::Error::PoolTimedOut)),
        Err(Rejection::Domain(ApiError::DatabaseError(sqlx::Error::PoolTimedOut)))
    ));
}

#[test]
fn no_records_is_an_empty_list_with_200() {
    assert_eq!(listed(Ok(vec![])).unwrap(), Reply { status: 200, body: Body::Runs(vec![]) });
}

#[test]
fn listed_records_ascend_by_id() {
    let stored = vec![run(3, RunTarget::Cows), run(1, RunTarget::Baal), run(2, RunTarget::Pit)];
    let expected = vec![run(1, RunTarget::Baal), run(2, RunTarget::Pit), run(3, RunTarget::Cows)];
    assert_eq!(listed(Ok(stored)).unwrap(), Reply { status: 200, body: Body::Runs(expected) });
}

#[test]
fn failed_select_is_a_database_error() {
    assert!(matches!(
        listed(Err(sqlx::Error::RowNotFound)),
        Err(Rejection::Domain(ApiError::DatabaseError(sqlx::Error::RowNotFound)))
    ));
}

#[test]
fn recover_passes_a_reply_through() {
    let sent = Reply { status: 200, body: Body::Run(run(7, RunTarget::Chaos)) };
    assert_eq!(recover(Ok(sent.clone())), sent);
}

#[test]
fn recover_answers_a_rejection_with_its_envelope() {
    assert_eq!(
        recover(Err(Rejection::NotFound)),
        Reply {
            status: 404,
            body: Body::Error(ErrorMessage { code: 404, message: "not found".to_string() }),
        }
    );
    assert_eq!(
        recover(created(Err(sqlx::Error::WorkerCrashed))),
        Reply {
            status: 500,
            body: Body::Error(ErrorMessage {
                code: 80000,
                message: "internal server error".to_string(),
            }),
        }
    );
}
