//! The users table as a mathematical object, and what it answers.
//!
//! Nothing here runs. It says what the service takes its store to be: a map
//! from identifiers to rows that changes by one statement at a time. The laws
//! of the service are stated against it.

use vstd::prelude::*;
use crate::id::UserId;
use crate::store::{ReplyView, StatementView};
use crate::user::UserView;

verus! {

/// The rows of the table, each under its key.
pub struct Table {
    pub rows: Map<UserId, (Seq<char>, Seq<char>)>,
}

impl Table {
    /// Whether there is a row under the identifier.
    pub open spec fn has(self, id: UserId) -> bool {
        self.rows.dom().contains(id)
    }

    /// The user that the row under the identifier holds.
    pub open spec fn user(self, id: UserId) -> UserView
        recommends
            self.has(id),
    {
        UserView { id, name: self.rows[id].0, email: self.rows[id].1 }
    }

    /// The user under the identifier, if there is one.
    pub open spec fn find(self, id: UserId) -> Option<UserView> {
        if self.has(id) {
            Some(self.user(id))
        } else {
            None
        }
    }

    /// The table with the user's row set, in place of any row under the same
    /// identifier.
    pub open spec fn put(self, user: UserView) -> Table {
        Table { rows: self.rows.insert(user.id, (user.name, user.email)) }
    }

    /// The table without the row under the identifier.
    pub open spec fn without(self, id: UserId) -> Table {
        Table { rows: self.rows.remove(id) }
    }

    /// All the users of the table.
    pub open spec fn users(self) -> Set<UserView> {
        Set::new(|user: UserView| self.find(user.id) == Some(user))
    }

    /// Whether the sequence holds every user of the table once, and nothing
    /// else. The order is open.
    pub open spec fn lists(self, users: Seq<UserView>) -> bool {
        users.no_duplicates() && users.to_set() =~= self.users()
    }

    /// Whether a working store that holds this table may give `reply` to
    /// `statement` and hold `after` from then on.
    ///
    /// A select changes nothing. An insert under a key that is taken fails,
    /// and changes nothing; under a free key it adds the row. An update and a
    /// delete report how many rows they touched, none or one.
    pub open spec fn answers(self, statement: StatementView, reply: ReplyView, after: Table) -> bool {
        match statement {
            StatementView::SelectAll => {
                &&& reply matches ReplyView::Rows(users)
                &&& self.lists(users)
                &&& after == self
            },
            StatementView::SelectById { id } => {
                &&& reply == ReplyView::Row(self.find(id))
                &&& after == self
            },
            StatementView::Insert { id, name, email } => if self.has(id) {
                &&& reply == ReplyView::Failed
                &&& after == self
            } else {
                &&& reply == ReplyView::Count(1)
                &&& after == self.put(UserView { id, name, email })
            },
            StatementView::Update { name, email, id } => if self.has(id) {
                &&& reply == ReplyView::Count(1)
                &&& after == self.put(UserView { id, name, email })
            } else {
                &&& reply == ReplyView::Count(0)
                &&& after == self
            },
            StatementView::Delete { id } => if self.has(id) {
                &&& reply == ReplyView::Count(1)
                &&& after == self.without(id)
            } else {
                &&& reply == ReplyView::Count(0)
                &&& after == self
            },
        }
    }

    /// Whether a store that holds this table may give `reply` to `statement`
    /// and hold `after` from then on, where the store may also fail at any
    /// time. A statement that fails changes nothing.
    pub open spec fn may_answer(self, statement: StatementView, reply: ReplyView, after: Table) -> bool {
        ||| self.answers(statement, reply, after)
        ||| (reply == ReplyView::Failed && after == self)
    }
}

} // verus!
