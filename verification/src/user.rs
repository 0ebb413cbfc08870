//! The user, and the two payloads that create and change one.

use vstd::prelude::*;
use crate::id::UserId;

verus! {

/// What a user is: an identifier, a name and an email address, the last two
/// free text.
pub struct UserView {
    pub id: UserId,
    pub name: Seq<char>,
    pub email: Seq<char>,
}

/// A user as the service stores and returns it. All three fields are always
/// present; nothing is asked of the name or the email.
#[derive(Clone, Debug, PartialEq, Eq)]
pub struct User {
    pub id: UserId,
    pub name: String,
    pub email: String,
}

impl View for User {
    type V = UserView;

    open spec fn view(&self) -> UserView {
        UserView { id: self.id, name: self.name@, email: self.email@ }
    }
}

/// The users of a sequence, each by its view.
pub open spec fn users_view(users: Seq<User>) -> Seq<UserView> {
    users.map_values(|user: User| user@)
}

/// What a create payload holds.
pub struct CreateUserView {
    pub name: Seq<char>,
    pub email: Seq<char>,
}

impl CreateUserView {
    /// The user that the payload describes, under the given identifier.
    pub open spec fn with_id(self, id: UserId) -> UserView {
        UserView { id, name: self.name, email: self.email }
    }
}

/// The payload of a create request: both fields are required.
#[derive(Clone, Debug, PartialEq, Eq)]
pub struct CreateUser {
    pub name: String,
    pub email: String,
}

impl View for CreateUser {
    type V = CreateUserView;

    open spec fn view(&self) -> CreateUserView {
        CreateUserView { name: self.name@, email: self.email@ }
    }
}

impl CreateUser {
    /// The user that the payload describes, under the given identifier. The
    /// payload stays as it is.
    pub fn with_id(&self, id: UserId) -> (user: User)
        ensures
            user@ == self@.with_id(id),
    {
        User { id, name: self.name.clone(), email: self.email.clone() }
    }
}

/// What an update payload holds.
pub struct UpdateUserView {
    pub name: Option<Seq<char>>,
    pub email: Option<Seq<char>>,
}

impl UpdateUserView {
    /// The stored user after the payload is laid over it: a field that the
    /// payload supplies replaces the stored one, a field that it leaves out
    /// keeps the stored value. The identifier is the one the request named.
    pub open spec fn over(self, id: UserId, stored: UserView) -> UserView {
        UserView {
            id,
            name: match self.name {
                Some(name) => name,
                None => stored.name,
            },
            email: match self.email {
                Some(email) => email,
                None => stored.email,
            },
        }
    }
}

/// The payload of an update request: each field may be left out.
#[derive(Clone, Debug, PartialEq, Eq)]
pub struct UpdateUser {
    pub name: Option<String>,
    pub email: Option<String>,
}

impl View for UpdateUser {
    type V = UpdateUserView;

    open spec fn view(&self) -> UpdateUserView {
        UpdateUserView {
            name: match self.name {
                Some(name) => Some(name@),
                None => None,
            },
            email: match self.email {
                Some(email) => Some(email@),
                None => None,
            },
        }
    }
}

impl UpdateUser {
    /// Lays the payload over a stored user: the partial update.
    pub fn over(self, id: UserId, stored: User) -> (merged: User)
        ensures
            merged@ == self@.over(id, stored@),
    {
        let name = match self.name {
            Some(name) => name,
            None => stored.name,
        };
        let email = match self.email {
            Some(email) => email,
            None => stored.email,
        };
        User { id, name, email }
    }
}

} // verus!
