//! What the service asks of its store, and what the store answers.
//!
//! The store is a relational table `users(id, name, email)` with `id` as its
//! key. The service never touches it: it hands out a [`Statement`], the
//! caller runs it, and hands back a [`Reply`].

use vstd::prelude::*;
use crate::id::UserId;
use crate::user::{User, UserView, users_view};

verus! {

/// A value bound to a placeholder of a statement.
#[derive(Clone, Debug, PartialEq, Eq)]
pub enum Param {
    Id(UserId),
    Text(String),
}

/// What a parameter holds.
pub enum ParamView {
    Id(UserId),
    Text(Seq<char>),
}

impl View for Param {
    type V = ParamView;

    open spec fn view(&self) -> ParamView {
        match self {
            Param::Id(id) => ParamView::Id(*id),
            Param::Text(text) => ParamView::Text(text@),
        }
    }
}

/// The parameters of a sequence, each by its view.
pub open spec fn params_view(params: Seq<Param>) -> Seq<ParamView> {
    params.map_values(|param: Param| param@)
}

/// How a statement is run, and so what kind of reply it gets.
#[derive(Clone, Copy, Debug, PartialEq, Eq, Structural)]
pub enum Shape {
    /// A query for every row that matches.
    Rows,
    /// A query for at most one row.
    Row,
    /// A change, answered with the number of rows it touched.
    Count,
}

/// One of the five statements that the service sends.
#[derive(Clone, Debug, PartialEq, Eq)]
pub enum Statement {
    SelectAll,
    SelectById { id: UserId },
    Insert { id: UserId, name: String, email: String },
    Update { name: String, email: String, id: UserId },
    Delete { id: UserId },
}

/// What a statement holds.
pub enum StatementView {
    SelectAll,
    SelectById { id: UserId },
    Insert { id: UserId, name: Seq<char>, email: Seq<char> },
    Update { name: Seq<char>, email: Seq<char>, id: UserId },
    Delete { id: UserId },
}

impl View for Statement {
    type V = StatementView;

    open spec fn view(&self) -> StatementView {
        match self {
            Statement::SelectAll => StatementView::SelectAll,
            Statement::SelectById { id } => StatementView::SelectById { id: *id },
            Statement::Insert { id, name, email } => StatementView::Insert {
                id: *id,
                name: name@,
                email: email@,
            },
            Statement::Update { name, email, id } => StatementView::Update {
                name: name@,
                email: email@,
                id: *id,
            },
            Statement::Delete { id } => StatementView::Delete { id: *id },
        }
    }
}

impl StatementView {
    /// The text of the statement, with numbered placeholders.
    pub open spec fn sql(self) -> Seq<char> {
        match self {
            StatementView::SelectAll => "SELECT * FROM users"@,
            StatementView::SelectById { .. } => "SELECT * FROM users WHERE id = $1"@,
            StatementView::Insert { .. } => "INSERT INTO users (id, name, email) VALUES ($1, $2, $3)"@,
            StatementView::Update { .. } => "UPDATE users SET name = $1, email = $2 WHERE id = $3"@,
            StatementView::Delete { .. } => "DELETE FROM users WHERE id = $1"@,
        }
    }

    /// The values for the placeholders, the one for `$1` first.
    pub open spec fn params(self) -> Seq<ParamView> {
        match self {
            StatementView::SelectAll => seq![],
            StatementView::SelectById { id } => seq![ParamView::Id(id)],
            StatementView::Insert { id, name, email } => seq![
                ParamView::Id(id),
                ParamView::Text(name),
                ParamView::Text(email),
            ],
            StatementView::Update { name, email, id } => seq![
                ParamView::Text(name),
                ParamView::Text(email),
                ParamView::Id(id),
            ],
            StatementView::Delete { id } => seq![ParamView::Id(id)],
        }
    }

    /// How the statement is run.
    pub open spec fn shape(self) -> Shape {
        match self {
            StatementView::SelectAll => Shape::Rows,
            StatementView::SelectById { .. } => Shape::Row,
            _ => Shape::Count,
        }
    }
}

impl Statement {
    /// The text of the statement, with numbered placeholders.
    pub fn sql(&self) -> (text: &'static str)
        ensures
            text@ == self@.sql(),
    {
        match self {
            Statement::SelectAll => "SELECT * FROM users",
            Statement::SelectById { .. } => "SELECT * FROM users WHERE id = $1",
            Statement::Insert { .. } => "INSERT INTO users (id, name, email) VALUES ($1, $2, $3)",
            Statement::Update { .. } => "UPDATE users SET name = $1, email = $2 WHERE id = $3",
            Statement::Delete { .. } => "DELETE FROM users WHERE id = $1",
        }
    }

    /// The values to bind to the placeholders, the one for `$1` first.
    pub fn params(&self) -> (params: Vec<Param>)
        ensures
            params_view(params@) == self@.params(),
    {
        let mut params: Vec<Param> = Vec::new();
        match self {
            Statement::SelectAll => {},
            Statement::SelectById { id } => {
                params.push(Param::Id(*id));
            },
            Statement::Insert { id, name, email } => {
                params.push(Param::Id(*id));
                params.push(Param::Text(name.clone()));
                params.push(Param::Text(email.clone()));
            },
            Statement::Update { name, email, id } => {
                params.push(Param::Text(name.clone()));
                params.push(Param::Text(email.clone()));
                params.push(Param::Id(*id));
            },
            Statement::Delete { id } => {
                params.push(Param::Id(*id));
            },
        }
        assert(params_view(params@) =~= self@.params());
        params
    }

    /// How the statement is run.
    pub fn shape(&self) -> (shape: Shape)
        ensures
            shape == self@.shape(),
    {
        match self {
            Statement::SelectAll => Shape::Rows,
            Statement::SelectById { .. } => Shape::Row,
            _ => Shape::Count,
        }
    }
}

/// What the store answered to a statement.
#[derive(Clone, Debug, PartialEq, Eq)]
pub enum Reply {
    /// The rows that a query for every row found, in the store's order.
    Rows(Vec<User>),
    /// The row that a query for one row found, if it found one.
    Row(Option<User>),
    /// The number of rows that a change touched.
    Count(u64),
    /// The store failed, for whatever reason.
    Failed,
}

/// What a reply holds.
pub enum ReplyView {
    Rows(Seq<UserView>),
    Row(Option<UserView>),
    Count(u64),
    Failed,
}

impl View for Reply {
    type V = ReplyView;

    open spec fn view(&self) -> ReplyView {
        match self {
            Reply::Rows(users) => ReplyView::Rows(users_view(users@)),
            Reply::Row(Some(user)) => ReplyView::Row(Some(user@)),
            Reply::Row(None) => ReplyView::Row(None),
            Reply::Count(count) => ReplyView::Count(*count),
            Reply::Failed => ReplyView::Failed,
        }
    }
}

} // verus!
