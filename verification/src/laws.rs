//! What holds of the pipeline as a whole, stated over the models that the
//! contracts of its functions use.

use crate::api::{
    create_plan, create_route, list_route, route_of, run_reply, runs_reply, scope_of,
    scope_segment, RouteView,
    BODY_LIMIT,
};
use crate::error::{status_of_code, Failure, StorageFailure, DATA_FORMAT_CODE};
use crate::reply::{error_reply, BodyView, ReplyView, OK};
use crate::run::Run;
use crate::target::{lemma_name_round_trip, lemma_parse_round_trip, parse_target, RunTarget};
use vstd::prelude::*;

verus! {

/// The category of the record in a reply, in its string form.
pub open spec fn category_of(reply: ReplyView) -> Option<Seq<char>> {
    match reply.body {
        BodyView::Run(run) => Some(run.category.name()),
        _ => None,
    }
}

/// A path made of `/runs/` and one non-empty segment, with or without a
/// closing slash, is routed to the list handler under `GET` and to the
/// create handler under `POST`, with the segment as the scope.
pub proof fn lemma_routes(scope: Seq<char>)
    requires
        scope.len() > 0,
        forall|i: int| 0 <= i < scope.len() ==> scope[i] != '/',
    ensures
        scope_of("/runs/"@ + scope) == Some(scope),
        scope_of("/runs/"@ + scope + "/"@) == Some(scope),
        route_of("GET"@, "/runs/"@ + scope) == Some(RouteView::List { scope }),
        route_of("POST"@, "/runs/"@ + scope) == Some(RouteView::Create { scope }),
{
    let prefix = "/runs/"@;
    let path = prefix + scope;
    let closed = path + "/"@;
    reveal_strlit("/");
    assert(path.subrange(0, prefix.len() as int) =~= prefix);
    assert(closed.subrange(0, prefix.len() as int) =~= prefix);
    assert(path.subrange(prefix.len() as int, path.len() as int) =~= scope);
    assert(scope.last() != '/');
    assert(scope_segment(scope) == scope);
    let rest = closed.subrange(prefix.len() as int, closed.len() as int);
    assert(rest =~= scope.push('/'));
    assert(rest.drop_last() =~= scope);
    assert(scope_of(path) == Some(scope));
    assert(scope_of(closed) == Some(scope));
    reveal_strlit("GET");
    reveal_strlit("POST");
    assert("GET"@.len() != "POST"@.len());
    assert(list_route("POST"@, path) is None);
}

/// A request whose method is neither `GET` nor `POST`, or whose path names
/// no scope, has no route.
pub proof fn lemma_no_route(method: Seq<char>, path: Seq<char>)
    requires
        scope_of(path) is None || (method != "GET"@ && method != "POST"@),
    ensures
        route_of(method, path) is None,
        list_route(method, path) is None,
        create_route(method, path) is None,
{
}

/// Round trip: a create request whose target is the name of a category,
/// with a body within the cap, inserts that category; and the reply for a
/// record of that category has status 200 and shows the category under the
/// string that was sent.
pub proof fn lemma_create_round_trip(target: RunTarget, length: u64, run: Run)
    requires
        length <= BODY_LIMIT,
        run.category == target,
    ensures
        create_plan(length, Some(target.name())) == Ok::<RunTarget, Failure>(target),
        run_reply(run).status == OK,
        category_of(run_reply(run)) == Some(target.name()),
{
    lemma_name_round_trip(target);
}

/// A create request whose target names no category, with a body within the
/// cap, fails with status 422 and code 20001, and the message ends with
/// the target.
pub proof fn lemma_unrecognized_target(target: Seq<char>, length: u64)
    requires
        length <= BODY_LIMIT,
        forall|t: RunTarget| t.name() != target,
    ensures
        create_plan(length, Some(target)) == Err::<RunTarget, Failure>(
            Failure::Validation(target),
        ),
        Failure::Validation(target).status() == 422,
        Failure::Validation(target).code() == 20001,
        Failure::Validation(target).message().len() >= target.len(),
        Failure::Validation(target).message().subrange(
            Failure::Validation(target).message().len() - target.len(),
            Failure::Validation(target).message().len() as int,
        ) == target,
{
    lemma_parse_round_trip(target);
    let message = Failure::Validation(target).message();
    assert(message.subrange(message.len() - target.len(), message.len() as int) =~= target);
}

/// A create request with a body over the cap fails with status 400 and the
/// message "request body is too large", whatever the body holds.
pub proof fn lemma_body_too_large(length: u64, payload: Option<Seq<char>>)
    requires
        length > BODY_LIMIT,
    ensures
        BODY_LIMIT == 1024,
        create_plan(length, payload) == Err::<RunTarget, Failure>(Failure::BodyTooLarge),
        Failure::BodyTooLarge.reply() == error_reply(400, 400, "request body is too large"@),
{
}

/// A create request with a body within the cap that does not decode fails
/// with status 422 and the message "failed to process request body".
pub proof fn lemma_body_malformed(length: u64)
    requires
        length <= BODY_LIMIT,
    ensures
        create_plan(length, None) == Err::<RunTarget, Failure>(Failure::BodyMalformed),
        Failure::BodyMalformed.reply() == error_reply(
            422,
            422,
            "failed to process request body"@,
        ),
{
}

/// Listing a scope without records is no error: the reply has status 200
/// and holds no record.
pub proof fn lemma_list_empty()
    ensures
        runs_reply(Seq::empty()) == (ReplyView {
            status: 200,
            body: BodyView::Runs(Seq::empty()),
        }),
{
}

/// A failure of the store that is one of the two decode variants is sent
/// with status 422 and code 20001, and shows its description. Any other is
/// sent with status 500 and code 80000, and shows no detail.
pub proof fn lemma_storage_failure(class: StorageFailure)
    ensures
        class matches StorageFailure::Decode(description) ==> class.failure().reply()
            == error_reply(422, 20001, description@),
        class matches StorageFailure::ColumnDecode(description) ==> class.failure().reply()
            == error_reply(422, 20001, description@),
        class is Other ==> class.failure().reply() == error_reply(
            500,
            80000,
            "internal server error"@,
        ),
{
}

/// Every failure has one code, one message and one status. The status of
/// a domain error is projected from its code: a decode or validation
/// failure is sent as 422, a generic storage failure as 500, and that one
/// shows no detail. The status of any other failure is its code.
pub proof fn lemma_failure_status(failure: Failure)
    ensures
        failure.is_domain() ==> failure.status() == status_of_code(failure.code()),
        !failure.is_domain() ==> failure.status() == failure.code(),
        failure is Validation || failure is StorageDecode ==> failure.code() == DATA_FORMAT_CODE
            && failure.status() == 422,
        failure is StorageGeneric ==> failure.status() == 500 && failure.message()
            == "internal server error"@,
        failure is NotFound ==> failure.reply() == error_reply(404, 404, "not found"@),
        failure is Unclassified ==> failure.reply() == error_reply(
            500,
            500,
            "internal server error"@,
        ),
{
}

} // verus!
