//! The five operations of the service, each as a decision.
//!
//! An operation runs in steps. A step either asks the store something and
//! remembers what it is waiting for, or answers the request. The caller
//! begins with [`start`], runs each statement it is asked to run, and hands
//! the store's reply to [`resume`], until it holds a response.
//!
//! Whatever the store answers that is not what the statement calls for counts
//! as a failure of the store.

use vstd::prelude::*;
use crate::id::UserId;
use crate::response::{Body, Message, Response, ResponseView, Status};
use crate::store::{Reply, ReplyView, Statement, StatementView};
use crate::user::{CreateUser, CreateUserView, UpdateUser, UpdateUserView, User, UserView};

verus! {

/// A request that has passed the boundary: its path and its body were read.
#[derive(Clone, Debug, PartialEq, Eq)]
pub enum Request {
    /// `GET /users`
    List,
    /// `GET /users/{id}`
    Get(UserId),
    /// `POST /users`
    Create(CreateUser),
    /// `PUT /users/{id}`
    Update(UserId, UpdateUser),
    /// `DELETE /users/{id}`
    Delete(UserId),
}

/// What a request holds.
pub enum RequestView {
    List,
    Get(UserId),
    Create(CreateUserView),
    Update(UserId, UpdateUserView),
    Delete(UserId),
}

impl View for Request {
    type V = RequestView;

    open spec fn view(&self) -> RequestView {
        match self {
            Request::List => RequestView::List,
            Request::Get(id) => RequestView::Get(*id),
            Request::Create(payload) => RequestView::Create(payload@),
            Request::Update(id, payload) => RequestView::Update(*id, payload@),
            Request::Delete(id) => RequestView::Delete(*id),
        }
    }
}

/// What an operation is waiting for while the store works.
#[derive(Clone, Debug, PartialEq, Eq)]
pub enum Pending {
    /// The rows of a list.
    List,
    /// The row of a get.
    Get,
    /// The insert of this user.
    Create(User),
    /// The stored row that this payload is to be laid over.
    UpdateRead(UserId, UpdateUser),
    /// The write of this user, already merged.
    UpdateWrite(User),
    /// The delete.
    Delete,
}

/// What a pending operation holds.
pub enum PendingView {
    List,
    Get,
    Create(UserView),
    UpdateRead(UserId, UpdateUserView),
    UpdateWrite(UserView),
    Delete,
}

impl View for Pending {
    type V = PendingView;

    open spec fn view(&self) -> PendingView {
        match self {
            Pending::List => PendingView::List,
            Pending::Get => PendingView::Get,
            Pending::Create(user) => PendingView::Create(user@),
            Pending::UpdateRead(id, payload) => PendingView::UpdateRead(*id, payload@),
            Pending::UpdateWrite(user) => PendingView::UpdateWrite(user@),
            Pending::Delete => PendingView::Delete,
        }
    }
}

/// One step of an operation.
#[derive(Clone, Debug, PartialEq, Eq)]
pub enum Step {
    /// Run the statement, and come back with the reply.
    Ask(Statement, Pending),
    /// The operation is over.
    Answer(Response),
}

/// What a step holds.
pub enum StepView {
    Ask(StatementView, PendingView),
    Answer(ResponseView),
}

impl View for Step {
    type V = StepView;

    open spec fn view(&self) -> StepView {
        match self {
            Step::Ask(statement, pending) => StepView::Ask(statement@, pending@),
            Step::Answer(response) => StepView::Answer(response@),
        }
    }
}

/// The response to a list: the rows as they came, or the store's failure.
pub open spec fn list_response(reply: ReplyView) -> ResponseView {
    match reply {
        ReplyView::Rows(users) => ResponseView::users(Status::Success, users),
        _ => ResponseView::text(Status::ServerError, Message::ListFailed),
    }
}

/// The response to a get: the row, its absence, or the store's failure.
pub open spec fn get_response(reply: ReplyView) -> ResponseView {
    match reply {
        ReplyView::Row(Some(user)) => ResponseView::user(Status::Success, user),
        ReplyView::Row(None) => ResponseView::text(Status::NotFound, Message::NotFound),
        _ => ResponseView::text(Status::ServerError, Message::GetFailed),
    }
}

/// The response to a create: the new user once the insert went through,
/// whatever count it reported.
pub open spec fn create_response(user: UserView, reply: ReplyView) -> ResponseView {
    match reply {
        ReplyView::Count(_) => ResponseView::user(Status::Created, user),
        _ => ResponseView::text(Status::ServerError, Message::InsertFailed),
    }
}

/// What an update does once its read came back: it writes the merged user,
/// or answers that there is no such user, or that the store failed.
pub open spec fn update_step(id: UserId, payload: UpdateUserView, reply: ReplyView) -> StepView {
    match reply {
        ReplyView::Row(Some(stored)) => {
            let merged = payload.over(id, stored);
            StepView::Ask(
                StatementView::Update { name: merged.name, email: merged.email, id },
                PendingView::UpdateWrite(merged),
            )
        },
        ReplyView::Row(None) => StepView::Answer(
            ResponseView::text(Status::NotFound, Message::NotFound),
        ),
        _ => StepView::Answer(ResponseView::text(Status::ServerError, Message::UpdateFailed)),
    }
}

/// The response to an update once its write came back: the merged user,
/// whatever count the write reported.
pub open spec fn update_response(user: UserView, reply: ReplyView) -> ResponseView {
    match reply {
        ReplyView::Count(_) => ResponseView::user(Status::Success, user),
        _ => ResponseView::text(Status::ServerError, Message::UpdateFailed),
    }
}

/// The response to a delete: success where a row went, not found where none
/// did, or the store's failure.
pub open spec fn delete_response(reply: ReplyView) -> ResponseView {
    match reply {
        ReplyView::Count(count) => if count > 0 {
            ResponseView::text(Status::Success, Message::Deleted)
        } else {
            ResponseView::text(Status::NotFound, Message::NotFound)
        },
        _ => ResponseView::text(Status::ServerError, Message::DeleteFailed),
    }
}

/// The first step of an operation. `fresh` is the identifier that a create
/// gives its user; the other operations do not look at it.
pub open spec fn first_step(request: RequestView, fresh: UserId) -> StepView {
    match request {
        RequestView::List => StepView::Ask(StatementView::SelectAll, PendingView::List),
        RequestView::Get(id) => StepView::Ask(StatementView::SelectById { id }, PendingView::Get),
        RequestView::Create(payload) => StepView::Ask(
            StatementView::Insert { id: fresh, name: payload.name, email: payload.email },
            PendingView::Create(payload.with_id(fresh)),
        ),
        RequestView::Update(id, payload) => StepView::Ask(
            StatementView::SelectById { id },
            PendingView::UpdateRead(id, payload),
        ),
        RequestView::Delete(id) => StepView::Ask(StatementView::Delete { id }, PendingView::Delete),
    }
}

/// The step that follows a reply of the store.
pub open spec fn next_step(pending: PendingView, reply: ReplyView) -> StepView {
    match pending {
        PendingView::List => StepView::Answer(list_response(reply)),
        PendingView::Get => StepView::Answer(get_response(reply)),
        PendingView::Create(user) => StepView::Answer(create_response(user, reply)),
        PendingView::UpdateRead(id, payload) => update_step(id, payload, reply),
        PendingView::UpdateWrite(user) => StepView::Answer(update_response(user, reply)),
        PendingView::Delete => StepView::Answer(delete_response(reply)),
    }
}

/// A response that carries one of the fixed texts.
fn text_response(status: Status, message: Message) -> (response: Response)
    ensures
        response@ == ResponseView::text(status, message),
{
    Response { status, body: Body::Text(message) }
}

/// Answers `GET /users` from what the store gave for the select of all rows.
pub fn get_users(reply: Reply) -> (response: Response)
    ensures
        response@ == list_response(reply@),
{
    match reply {
        Reply::Rows(users) => Response { status: Status::Success, body: Body::Users(users) },
        _ => text_response(Status::ServerError, Message::ListFailed),
    }
}

/// Answers `GET /users/{id}` from what the store gave for the select by id.
pub fn get_user(reply: Reply) -> (response: Response)
    ensures
        response@ == get_response(reply@),
{
    match reply {
        Reply::Row(Some(user)) => Response { status: Status::Success, body: Body::User(user) },
        Reply::Row(None) => text_response(Status::NotFound, Message::NotFound),
        _ => text_response(Status::ServerError, Message::GetFailed),
    }
}

/// Begins `POST /users` for a payload and the identifier made for it: the
/// insert of the new user.
pub fn insert_user(id: UserId, payload: CreateUser) -> (step: Step)
    ensures
        step@ == first_step(RequestView::Create(payload@), id),
{
    let user = payload.with_id(id);
    Step::Ask(Statement::Insert { id, name: payload.name, email: payload.email }, Pending::Create(user))
}

/// Answers `POST /users` from what the store gave for the insert of `user`.
pub fn create_user(user: User, reply: Reply) -> (response: Response)
    ensures
        response@ == create_response(user@, reply@),
{
    match reply {
        Reply::Count(_) => Response { status: Status::Created, body: Body::User(user) },
        _ => text_response(Status::ServerError, Message::InsertFailed),
    }
}

/// Goes on with `PUT /users/{id}` from what the store gave for the select by
/// id: lays the payload over the stored user and asks for the write.
pub fn update_user(id: UserId, payload: UpdateUser, reply: Reply) -> (step: Step)
    ensures
        step@ == update_step(id, payload@, reply@),
{
    match reply {
        Reply::Row(Some(stored)) => {
            let merged = payload.over(id, stored);
            Step::Ask(
                Statement::Update { name: merged.name.clone(), email: merged.email.clone(), id },
                Pending::UpdateWrite(merged),
            )
        },
        Reply::Row(None) => Step::Answer(text_response(Status::NotFound, Message::NotFound)),
        _ => Step::Answer(text_response(Status::ServerError, Message::UpdateFailed)),
    }
}

/// Answers `PUT /users/{id}` from what the store gave for the write of the
/// merged `user`.
pub fn write_user(user: User, reply: Reply) -> (response: Response)
    ensures
        response@ == update_response(user@, reply@),
{
    match reply {
        Reply::Count(_) => Response { status: Status::Success, body: Body::User(user) },
        _ => text_response(Status::ServerError, Message::UpdateFailed),
    }
}

/// Answers `DELETE /users/{id}` from what the store gave for the delete.
pub fn delete_user(reply: Reply) -> (response: Response)
    ensures
        response@ == delete_response(reply@),
{
    match reply {
        Reply::Count(count) => if count > 0 {
            text_response(Status::Success, Message::Deleted)
        } else {
            text_response(Status::NotFound, Message::NotFound)
        },
        _ => text_response(Status::ServerError, Message::DeleteFailed),
    }
}

/// Begins an operation. A create gets a new random identifier; what the step
/// is for each identifier, `first_step` says.
pub fn start(request: Request) -> (step: Step)
    ensures
        exists|fresh: UserId|
            (request@ is Create ==> fresh.is_random()) && step@ == #[trigger] first_step(
                request@,
                fresh,
            ),
{
    match request {
        Request::List => {
            let step = Step::Ask(Statement::SelectAll, Pending::List);
            assert(step@ == first_step(request@, UserId(0)));
            step
        },
        Request::Get(id) => {
            let step = Step::Ask(Statement::SelectById { id }, Pending::Get);
            assert(step@ == first_step(request@, UserId(0)));
            step
        },
        Request::Create(payload) => {
            let id = UserId::generate();
            let step = insert_user(id, payload);
            assert(step@ == first_step(request@, id));
            step
        },
        Request::Update(id, payload) => {
            let step = Step::Ask(Statement::SelectById { id }, Pending::UpdateRead(id, payload));
            assert(step@ == first_step(request@, UserId(0)));
            step
        },
        Request::Delete(id) => {
            let step = Step::Ask(Statement::Delete { id }, Pending::Delete);
            assert(step@ == first_step(request@, UserId(0)));
            step
        },
    }
}

/// Goes on with an operation once the store has replied.
pub fn resume(pending: Pending, reply: Reply) -> (step: Step)
    ensures
        step@ == next_step(pending@, reply@),
{
    match pending {
        Pending::List => Step::Answer(get_users(reply)),
        Pending::Get => Step::Answer(get_user(reply)),
        Pending::Create(user) => Step::Answer(create_user(user, reply)),
        Pending::UpdateRead(id, payload) => update_user(id, payload, reply),
        Pending::UpdateWrite(user) => Step::Answer(write_user(user, reply)),
        Pending::Delete => Step::Answer(delete_user(reply)),
    }
}

} // verus!
