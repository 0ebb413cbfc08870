//! What the service sends back: a status and a body.

use vstd::prelude::*;
use crate::user::{User, UserView, users_view};

verus! {

/// The status of a response.
#[derive(Clone, Copy, Debug, PartialEq, Eq, Structural)]
pub enum Status {
    Success,
    Created,
    NotFound,
    ServerError,
}

impl Status {
    /// The HTTP status code.
    pub open spec fn spec_code(self) -> u16 {
        match self {
            Status::Success => 200,
            Status::Created => 201,
            Status::NotFound => 404,
            Status::ServerError => 500,
        }
    }

    /// The HTTP status code.
    #[verifier::when_used_as_spec(spec_code)]
    pub fn code(self) -> (code: u16)
        ensures
            code == self.spec_code(),
    {
        match self {
            Status::Success => 200,
            Status::Created => 201,
            Status::NotFound => 404,
            Status::ServerError => 500,
        }
    }
}

/// The fixed texts of the service. None of them tells why the store failed.
#[derive(Clone, Copy, Debug, PartialEq, Eq, Structural)]
pub enum Message {
    ListFailed,
    GetFailed,
    InsertFailed,
    UpdateFailed,
    DeleteFailed,
    NotFound,
    Deleted,
}

impl Message {
    /// The text as it is sent.
    pub open spec fn spec_text(self) -> Seq<char> {
        match self {
            Message::ListFailed => "Failed to fetch users"@,
            Message::GetFailed => "Error fetching user"@,
            Message::InsertFailed => "Failed to insert user"@,
            Message::UpdateFailed => "Failed to update user"@,
            Message::DeleteFailed => "Failed to delete user"@,
            Message::NotFound => "User not found"@,
            Message::Deleted => "User deleted"@,
        }
    }

    /// The text as it is sent.
    pub fn text(self) -> (text: &'static str)
        ensures
            text@ == self.spec_text(),
    {
        match self {
            Message::ListFailed => "Failed to fetch users",
            Message::GetFailed => "Error fetching user",
            Message::InsertFailed => "Failed to insert user",
            Message::UpdateFailed => "Failed to update user",
            Message::DeleteFailed => "Failed to delete user",
            Message::NotFound => "User not found",
            Message::Deleted => "User deleted",
        }
    }
}

/// The body of a response. Users are sent as JSON, a message as plain text.
#[derive(Clone, Debug, PartialEq, Eq)]
pub enum Body {
    /// A JSON array of users, in the order given.
    Users(Vec<User>),
    /// One user as a JSON object.
    User(User),
    /// One of the fixed texts.
    Text(Message),
}

/// What a body holds.
pub enum BodyView {
    Users(Seq<UserView>),
    User(UserView),
    Text(Message),
}

impl View for Body {
    type V = BodyView;

    open spec fn view(&self) -> BodyView {
        match self {
            Body::Users(users) => BodyView::Users(users_view(users@)),
            Body::User(user) => BodyView::User(user@),
            Body::Text(message) => BodyView::Text(*message),
        }
    }
}

/// A response of the service.
#[derive(Clone, Debug, PartialEq, Eq)]
pub struct Response {
    pub status: Status,
    pub body: Body,
}

/// What a response holds.
pub struct ResponseView {
    pub status: Status,
    pub body: BodyView,
}

impl ResponseView {
    /// A response that carries one of the fixed texts.
    pub open spec fn text(status: Status, message: Message) -> ResponseView {
        ResponseView { status, body: BodyView::Text(message) }
    }

    /// A response that carries one user.
    pub open spec fn user(status: Status, user: UserView) -> ResponseView {
        ResponseView { status, body: BodyView::User(user) }
    }

    /// A response that carries a list of users.
    pub open spec fn users(status: Status, users: Seq<UserView>) -> ResponseView {
        ResponseView { status, body: BodyView::Users(users) }
    }
}

impl View for Response {
    type V = ResponseView;

    open spec fn view(&self) -> ResponseView {
        ResponseView { status: self.status, body: self.body@ }
    }
}

} // verus!
