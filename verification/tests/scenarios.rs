use std::collections::BTreeMap;

use users_api::id::UserId;
use users_api::response::{Body, Message, Response, Status};
use users_api::service::{resume, start, Request, Step};
use users_api::store::{Reply, Statement};
use users_api::user::{CreateUser, UpdateUser, User};

/// A table in memory that runs a statement as a relational store would.
fn execute(table: &mut BTreeMap<u128, (String, String)>, statement: Statement) -> Reply {
    match statement {
        Statement::SelectAll => Reply::Rows(
            table
                .iter()
                .map(|(id, row)| User { id: UserId(*id), name: row.0.clone(), email: row.1.clone() })
                .collect(),
        ),
        Statement::SelectById { id } => Reply::Row(
            table.get(&id.0).map(|row| User { id, name: row.0.clone(), email: row.1.clone() }),
        ),
        Statement::Insert { id, name, email } => {
            if table.contains_key(&id.0) {
                Reply::Failed
            } else {
                table.insert(id.0, (name, email));
                Reply::Count(1)
            }
        }
        Statement::Update { name, email, id } => match table.get_mut(&id.0) {
            Some(row) => {
                *row = (name, email);
                Reply::Count(1)
            }
            None => Reply::Count(0),
        },
        Statement::Delete { id } => match table.remove(&id.0) {
            Some(_) => Reply::Count(1),
            None => Reply::Count(0),
        },
    }
}

/// Serves one request over the table, and counts the statements it took.
fn serve(table: &mut BTreeMap<u128, (String, String)>, request: Request) -> (Response, usize) {
    let mut step = start(request);
    let mut asked = 0;
    loop {
        match step {
            Step::Ask(statement, pending) => {
                asked += 1;
                let reply = execute(table, statement);
                step = resume(pending, reply);
            }
            Step::Answer(response) => return (response, asked),
        }
    }
}

/// Serves one request over a store that fails from the given statement on.
fn serve_failing(
    table: &mut BTreeMap<u128, (String, String)>,
    request: Request,
    fail_from: usize,
) -> Response {
    let mut step = start(request);
    let mut asked = 0;
    loop {
        match step {
            Step::Ask(statement, pending) => {
                asked += 1;
                let reply = if asked >= fail_from { Reply::Failed } else { execute(table, statement) };
                step = resume(pending, reply);
            }
            Step::Answer(response) => return response,
        }
    }
}

fn create(table: &mut BTreeMap<u128, (String, String)>, name: &str, email: &str) -> User {
    let payload = CreateUser { name: name.to_string(), email: email.to_string() };
    let (response, asked) = serve(table, Request::Create(payload));
    assert_eq!(asked, 1);
    assert_eq!(response.status, Status::Created);
    match response.body {
        Body::User(user) => user,
        other => panic!("unexpected body: {:?}", other),
    }
}

fn not_found() -> Response {
    Response { status: Status::NotFound, body: Body::Text(Message::NotFound) }
}

fn found(user: &User) -> Response {
    Response { status: Status::Success, body: Body::User(user.clone()) }
}

#[test]
fn created_user_is_found() {
    let mut table = BTreeMap::new();
    let user = create(&mut table, "Ann", "ann@x.com");
    assert_eq!(user.name, "Ann");
    assert_eq!(user.email, "ann@x.com");
    assert_eq!(uuid::Uuid::from_u128(user.id.bits()).get_version_num(), 4);
    let (response, asked) = serve(&mut table, Request::Get(user.id));
    assert_eq!(asked, 1);
    assert_eq!(response, found(&user));
}

#[test]
fn created_users_get_ids_of_their_own() {
    let mut table = BTreeMap::new();
    let first = create(&mut table, "Ann", "ann@x.com");
    let second = create(&mut table, "Ann", "ann@x.com");
    assert_ne!(first.id, second.id);
    assert_eq!(table.len(), 2);
    assert_eq!(serve(&mut table, Request::Get(first.id)).0, found(&first));
    assert_eq!(serve(&mut table, Request::Get(second.id)).0, found(&second));
}

#[test]
fn deleted_user_is_gone() {
    let mut table = BTreeMap::new();
    let user = create(&mut table, "Bob", "bob@y.org");
    let (deleted, asked) = serve(&mut table, Request::Delete(user.id));
    assert_eq!(asked, 1);
    assert_eq!(deleted, Response { status: Status::Success, body: Body::Text(Message::Deleted) });
    assert_eq!(serve(&mut table, Request::Get(user.id)).0, not_found());
    assert!(table.is_empty());
}

#[test]
fn update_with_only_a_name_keeps_the_email() {
    let mut table = BTreeMap::new();
    let user = create(&mut table, "Ann", "ann@x.com");
    let payload = UpdateUser { name: Some("Annie".to_string()), email: None };
    let (response, asked) = serve(&mut table, Request::Update(user.id, payload));
    assert_eq!(asked, 2);
    let expected = User { id: user.id, name: "Annie".to_string(), email: "ann@x.com".to_string() };
    assert_eq!(response, found(&expected));
    assert_eq!(serve(&mut table, Request::Get(user.id)).0, found(&expected));
}

#[test]
fn update_with_only_an_email_keeps_the_name() {
    let mut table = BTreeMap::new();
    let user = create(&mut table, "Ann", "ann@x.com");
    let payload = UpdateUser { name: None, email: Some("ann@z.net".to_string()) };
    let (response, _) = serve(&mut table, Request::Update(user.id, payload));
    let expected = User { id: user.id, name: "Ann".to_string(), email: "ann@z.net".to_string() };
    assert_eq!(response, found(&expected));
    assert_eq!(serve(&mut table, Request::Get(user.id)).0, found(&expected));
}

#[test]
fn update_with_both_changes_both() {
    let mut table = BTreeMap::new();
    let user = create(&mut table, "Ann", "ann@x.com");
    let other = create(&mut table, "Bob", "bob@y.org");
    let payload = UpdateUser { name: Some("Annie".to_string()), email: Some("ann@z.net".to_string()) };
    let (response, _) = serve(&mut table, Request::Update(user.id, payload));
    let expected = User { id: user.id, name: "Annie".to_string(), email: "ann@z.net".to_string() };
    assert_eq!(response, found(&expected));
    assert_eq!(serve(&mut table, Request::Get(user.id)).0, found(&expected));
    assert_eq!(serve(&mut table, Request::Get(other.id)).0, found(&other));
}

#[test]
fn update_with_neither_changes_nothing() {
    let mut table = BTreeMap::new();
    let user = create(&mut table, "Ann", "ann@x.com");
    let before = table.clone();
    let payload = UpdateUser { name: None, email: None };
    let (response, asked) = serve(&mut table, Request::Update(user.id, payload));
    assert_eq!(asked, 2);
    assert_eq!(response, found(&user));
    assert_eq!(table, before);
}

#[test]
fn unknown_user_is_not_found() {
    let mut table = BTreeMap::new();
    let _ = create(&mut table, "Ann", "ann@x.com");
    let before = table.clone();
    let unknown = UserId(0x0000_0000_0000_4000_8000_0000_0000_0001);
    let (response, asked) = serve(&mut table, Request::Get(unknown));
    assert_eq!(asked, 1);
    assert_eq!(response, not_found());
    assert_eq!(response.status.code(), 404);
    let payload = UpdateUser { name: Some("Zed".to_string()), email: None };
    let (response, asked) = serve(&mut table, Request::Update(unknown, payload));
    assert_eq!(asked, 1);
    assert_eq!(response, not_found());
    assert_eq!(serve(&mut table, Request::Delete(unknown)).0, not_found());
    assert_eq!(table, before);
}

#[test]
fn second_delete_finds_nothing() {
    let mut table = BTreeMap::new();
    let user = create(&mut table, "Ann", "ann@x.com");
    let (first, _) = serve(&mut table, Request::Delete(user.id));
    let (second, _) = serve(&mut table, Request::Delete(user.id));
    assert_eq!(first.status.code(), 200);
    assert_eq!(first.body, Body::Text(Message::Deleted));
    assert_eq!(second.status.code(), 404);
    assert_eq!(second, not_found());
}

#[test]
fn ann_becomes_annie() {
    let mut table = BTreeMap::new();
    let payload = CreateUser { name: "Ann".to_string(), email: "ann@x.com".to_string() };
    let (created, _) = serve(&mut table, Request::Create(payload));
    assert_eq!(created.status.code(), 201);
    let ann = match created.body {
        Body::User(user) => user,
        other => panic!("unexpected body: {:?}", other),
    };
    let uuid = uuid::Uuid::from_u128(ann.id.bits());
    assert_eq!(uuid.get_version(), Some(uuid::Version::Random));
    assert_eq!(ann.name, "Ann");
    assert_eq!(ann.email, "ann@x.com");

    let payload = UpdateUser { name: Some("Annie".to_string()), email: None };
    let (updated, _) = serve(&mut table, Request::Update(ann.id, payload));
    assert_eq!(updated.status.code(), 200);
    assert_eq!(
        updated.body,
        Body::User(User { id: ann.id, name: "Annie".to_string(), email: "ann@x.com".to_string() })
    );
}

#[test]
fn list_returns_every_user() {
    let mut table = BTreeMap::new();
    assert_eq!(
        serve(&mut table, Request::List).0,
        Response { status: Status::Success, body: Body::Users(Vec::new()) }
    );
    let ann = create(&mut table, "Ann", "ann@x.com");
    let bob = create(&mut table, "Bob", "bob@y.org");
    let (response, asked) = serve(&mut table, Request::List);
    assert_eq!(asked, 1);
    assert_eq!(response.status, Status::Success);
    match response.body {
        Body::Users(users) => {
            assert_eq!(users.len(), 2);
            assert!(users.contains(&ann));
            assert!(users.contains(&bob));
        }
        other => panic!("unexpected body: {:?}", other),
    }
}

#[test]
fn a_failing_store_gives_a_server_error() {
    let mut table = BTreeMap::new();
    let user = create(&mut table, "Ann", "ann@x.com");
    let before = table.clone();
    let failed = |message: Message| Response { status: Status::ServerError, body: Body::Text(message) };
    assert_eq!(serve_failing(&mut table, Request::List, 1), failed(Message::ListFailed));
    assert_eq!(serve_failing(&mut table, Request::Get(user.id), 1), failed(Message::GetFailed));
    let payload = CreateUser { name: "Bob".to_string(), email: "bob@y.org".to_string() };
    assert_eq!(serve_failing(&mut table, Request::Create(payload), 1), failed(Message::InsertFailed));
    let payload = UpdateUser { name: Some("Annie".to_string()), email: None };
    assert_eq!(
        serve_failing(&mut table, Request::Update(user.id, payload.clone()), 1),
        failed(Message::UpdateFailed)
    );
    assert_eq!(
        serve_failing(&mut table, Request::Update(user.id, payload), 2),
        failed(Message::UpdateFailed)
    );
    assert_eq!(serve_failing(&mut table, Request::Delete(user.id), 1), failed(Message::DeleteFailed));
    assert_eq!(failed(Message::DeleteFailed).status.code(), 500);
    assert_eq!(table, before);
}
