//! What holds of the service as a whole, over a store that behaves as a table.

use vstd::prelude::*;
use crate::id::UserId;
use crate::response::{Message, ResponseView, Status};
use crate::service::{first_step, next_step, PendingView, RequestView, StepView};
use crate::store::{ReplyView, StatementView};
use crate::table::Table;
use crate::user::{CreateUserView, UpdateUserView, UserView};

verus! {

impl StepView {
    /// How many statements an operation may still send from this step on.
    pub open spec fn asks_left(self) -> nat {
        match self {
            StepView::Answer(_) => 0,
            StepView::Ask(_, PendingView::UpdateRead(_, _)) => 2,
            StepView::Ask(_, _) => 1,
        }
    }
}

/// Whether a store that holds `before` may give `reply` to `statement` and
/// hold `after` from then on. A reliable store is one that works; another may
/// fail at any time.
pub open spec fn replies(
    before: Table,
    statement: StatementView,
    reliable: bool,
    reply: ReplyView,
    after: Table,
) -> bool {
    if reliable {
        before.answers(statement, reply, after)
    } else {
        before.may_answer(statement, reply, after)
    }
}

/// Whether an operation that stands at `step`, over a store that holds
/// `before`, may end with `response` and leave the store holding `after`.
/// Nothing else touches the store meanwhile.
pub open spec fn runs(
    before: Table,
    step: StepView,
    reliable: bool,
    response: ResponseView,
    after: Table,
) -> bool
    decreases step.asks_left(),
{
    match step {
        StepView::Answer(given) => response == given && after == before,
        StepView::Ask(statement, pending) => exists|reply: ReplyView, between: Table|
            #[trigger] replies(before, statement, reliable, reply, between) && runs(
                between,
                next_step(pending, reply),
                reliable,
                response,
                after,
            ),
    }
}

/// Whether the service may answer `request` with `response`, over a store
/// that holds `before` and may fail, and leave it holding `after`.
pub open spec fn serves(
    before: Table,
    request: RequestView,
    response: ResponseView,
    after: Table,
) -> bool {
    exists|fresh: UserId|
        (request is Create ==> fresh.is_random()) && #[trigger] runs(
            before,
            first_step(request, fresh),
            false,
            response,
            after,
        )
}

/// Whether the service may answer `request` with `response`, over a store
/// that holds `before` and works, and leave it holding `after`.
pub open spec fn serves_reliably(
    before: Table,
    request: RequestView,
    response: ResponseView,
    after: Table,
) -> bool {
    exists|fresh: UserId|
        (request is Create ==> fresh.is_random()) && #[trigger] runs(
            before,
            first_step(request, fresh),
            true,
            response,
            after,
        )
}

/// A user that was created is found: where a create answered with a new
/// user, a get of that user's identifier, over a store that works, answers
/// with the same user, who has the name and the email of the payload and a
/// random identifier.
pub proof fn created_user_is_found(
    before: Table,
    payload: CreateUserView,
    user: UserView,
    between: Table,
    found: ResponseView,
    after: Table,
)
    requires
        serves(
            before,
            RequestView::Create(payload),
            ResponseView::user(Status::Created, user),
            between,
        ),
        serves_reliably(between, RequestView::Get(user.id), found, after),
    ensures
        user.name == payload.name,
        user.email == payload.email,
        user.id.is_random(),
        found == ResponseView::user(Status::Success, user),
        after == between,
{
    reveal_with_fuel(runs, 3);
}

/// What an operation may do from a step on over a store that works, it may
/// do over a store that may fail.
proof fn reliable_run_is_run(before: Table, step: StepView, response: ResponseView, after: Table)
    requires
        runs(before, step, true, response, after),
    ensures
        runs(before, step, false, response, after),
    decreases step.asks_left(),
{
    match step {
        StepView::Answer(_) => {},
        StepView::Ask(statement, pending) => {
            let (reply, between) = choose|reply: ReplyView, between: Table|
                #[trigger] replies(before, statement, true, reply, between) && runs(
                    between,
                    next_step(pending, reply),
                    true,
                    response,
                    after,
                );
            reliable_run_is_run(between, next_step(pending, reply), response, after);
            assert(replies(before, statement, false, reply, between));
        },
    }
}

/// A store that works is one of the stores that may fail: what the service
/// may do over the first, it may do over the second.
pub proof fn reliable_is_served(
    before: Table,
    request: RequestView,
    response: ResponseView,
    after: Table,
)
    requires
        serves_reliably(before, request, response, after),
    ensures
        serves(before, request, response, after),
{
    let fresh = choose|fresh: UserId|
        (request is Create ==> fresh.is_random()) && #[trigger] runs(
            before,
            first_step(request, fresh),
            true,
            response,
            after,
        );
    reliable_run_is_run(before, first_step(request, fresh), response, after);
}

/// A user that was deleted is gone: where a delete did not end in a failure
/// of the store, a get of the same identifier, over a store that works,
/// answers that there is no such user. The delete itself answered with
/// success exactly where the user was there.
pub proof fn deleted_user_is_gone(
    before: Table,
    id: UserId,
    deleted: ResponseView,
    between: Table,
    found: ResponseView,
    after: Table,
)
    requires
        serves(before, RequestView::Delete(id), deleted, between),
        deleted.status != Status::ServerError,
        serves_reliably(between, RequestView::Get(id), found, after),
    ensures
        before.has(id) ==> deleted == ResponseView::text(Status::Success, Message::Deleted),
        !before.has(id) ==> deleted == ResponseView::text(Status::NotFound, Message::NotFound),
        !between.has(id),
        found == ResponseView::text(Status::NotFound, Message::NotFound),
{
    reveal_with_fuel(runs, 3);
}

/// An update is partial: over a store that works, an update of a user who is
/// there answers with the stored user under the payload, and stores just
/// that. A field that the payload leaves out keeps its value, a field that
/// it supplies takes the new one, a payload that supplies nothing leaves the
/// table as it was, and no other row changes.
pub proof fn update_is_partial(
    before: Table,
    id: UserId,
    payload: UpdateUserView,
    response: ResponseView,
    after: Table,
)
    requires
        before.has(id),
        serves_reliably(before, RequestView::Update(id, payload), response, after),
    ensures
        response == ResponseView::user(Status::Success, payload.over(id, before.user(id))),
        after == before.put(payload.over(id, before.user(id))),
        after.find(id) == Some(payload.over(id, before.user(id))),
        payload.name is None ==> after.user(id).name == before.user(id).name,
        payload.email is None ==> after.user(id).email == before.user(id).email,
        payload.name matches Some(name) ==> after.user(id).name == name,
        payload.email matches Some(email) ==> after.user(id).email == email,
        payload.name is None && payload.email is None ==> after == before,
        forall|other: UserId| other != id ==> after.find(other) == before.find(other),
{
    reveal_with_fuel(runs, 3);
    let merged = payload.over(id, before.user(id));
    assert(after == before.put(merged));
    if payload.name is None && payload.email is None {
        assert(after.rows =~= before.rows);
    }
}

/// A user who is not there is not found: over a store that works, a get, an
/// update or a delete of an identifier without a row answers that there is
/// no such user, never that the store failed, and changes nothing.
pub proof fn missing_user_is_not_found(
    before: Table,
    id: UserId,
    request: RequestView,
    response: ResponseView,
    after: Table,
)
    requires
        !before.has(id),
        request == RequestView::Get(id) || request == RequestView::Delete(id) || (
        request matches RequestView::Update(target, _) && target == id),
        serves_reliably(before, request, response, after),
    ensures
        response == ResponseView::text(Status::NotFound, Message::NotFound),
        after == before,
{
    reveal_with_fuel(runs, 3);
}

/// A delete succeeds once: of two deletes of one identifier, one after the
/// other, at most one answers with success, whatever the store does. Where
/// the user was there and the store did not fail, the first answers with
/// success and the second that there is no such user.
pub proof fn delete_succeeds_once(
    before: Table,
    id: UserId,
    first: ResponseView,
    between: Table,
    second: ResponseView,
    after: Table,
)
    requires
        serves(before, RequestView::Delete(id), first, between),
        serves(between, RequestView::Delete(id), second, after),
    ensures
        !(first.status == Status::Success && second.status == Status::Success),
        before.has(id) && first.status != Status::ServerError && second.status
            != Status::ServerError ==> {
            &&& first == ResponseView::text(Status::Success, Message::Deleted)
            &&& second == ResponseView::text(Status::NotFound, Message::NotFound)
            &&& after == before.without(id)
        },
{
    reveal_with_fuel(runs, 3);
}

} // verus!
