use todo_service::errors::ErrorKind;
use todo_service::request_types::{
    CreateRequest, DeleteRequest, EditRequest, GetRequest, LoginRequest, RegisterRequest,
};
use todo_service::store::{TodoStore, DEFAULT_PAGE_SIZE};

fn register(store: &mut TodoStore, name: &str, pw: &str) -> Result<(), ErrorKind> {
    store.register(RegisterRequest { username: name.to_string(), password: pw.to_string() })
}

fn login(store: &TodoStore, name: &str, pw: &str) -> Result<i32, ErrorKind> {
    store.login(LoginRequest { username: name.to_string(), password: pw.to_string() })
}

fn create_at(store: &mut TodoStore, user_id: i32, title: &str, now: i64) -> i32 {
    store
        .create_at(
            CreateRequest { user_id, title: title.to_string(), body: format!("{} body", title) },
            now,
        )
        .unwrap()
        .id
}

fn get(store: &TodoStore, user_id: i32, offset: Option<i64>, count: Option<i64>) -> Vec<i32> {
    store
        .list(GetRequest { user_id, offset, count })
        .unwrap()
        .iter()
        .map(|t| t.id)
        .collect()
}

#[test]
fn register_same_name_twice_conflicts() {
    let mut store = TodoStore::new();
    assert_eq!(register(&mut store, "bob", "one"), Ok(()));
    assert_eq!(register(&mut store, "bob", "two"), Err(ErrorKind::UserExists));
    assert_eq!(register(&mut store, "carol", "two"), Ok(()));
}

#[test]
fn register_with_hash_stores_given_hash() {
    let mut store = TodoStore::new();
    assert_eq!(store.register_with_hash("dan".to_string(), "not-a-hash".to_string()), Ok(()));
    assert_eq!(
        store.register_with_hash("dan".to_string(), "other".to_string()),
        Err(ErrorKind::UserExists)
    );
    // a stored value that is no bcrypt hash matches no password
    assert_eq!(login(&store, "dan", "not-a-hash"), Err(ErrorKind::Login));
}

#[test]
fn login_failures_look_alike() {
    let mut store = TodoStore::new();
    register(&mut store, "bob", "secret").unwrap();
    let wrong_password = login(&store, "bob", "guess");
    let unknown_user = login(&store, "nobody", "secret");
    assert_eq!(wrong_password, Err(ErrorKind::Login));
    assert_eq!(wrong_password, unknown_user);
    let a = wrong_password.unwrap_err().to_response();
    let b = unknown_user.unwrap_err().to_response();
    assert_eq!((a.code, a.error), (b.code, b.error));
}

#[test]
fn login_returns_each_accounts_own_id() {
    let mut store = TodoStore::new();
    register(&mut store, "a", "pa").unwrap();
    register(&mut store, "b", "pb").unwrap();
    assert_eq!(login(&store, "a", "pa"), Ok(1));
    assert_eq!(login(&store, "b", "pb"), Ok(2));
    assert_eq!(login(&store, "a", "pb"), Err(ErrorKind::Login));
}

#[test]
fn create_for_missing_user_is_no_user() {
    let mut store = TodoStore::new();
    let r = store.create(CreateRequest { user_id: 42, title: "t".to_string(), body: "b".to_string() });
    assert_eq!(r, Err(ErrorKind::NoUser));
    assert_eq!(r.unwrap_err().code(), 5004);
}

#[test]
fn create_stamps_current_time() {
    let mut store = TodoStore::new();
    register(&mut store, "u", "p").unwrap();
    let id = login(&store, "u", "p").unwrap();
    let created = store
        .create(CreateRequest { user_id: id, title: "t".to_string(), body: "b".to_string() })
        .unwrap();
    assert_eq!(created.id, 1);
    // after 2020-01-01 in milliseconds since the epoch
    assert!(created.creation_time > 1_577_836_800_000);
    let todos = store.list(GetRequest { user_id: id, offset: None, count: None }).unwrap();
    assert_eq!(todos[0].creation_time, created.creation_time);
}

#[test]
fn fresh_todo_is_listed_not_done() {
    let mut store = TodoStore::new();
    register(&mut store, "u", "p").unwrap();
    let created = store
        .create_at(CreateRequest { user_id: 1, title: "t".to_string(), body: "b".to_string() }, 77)
        .unwrap();
    assert_eq!(created.creation_time, 77);
    let todos = store.list(GetRequest { user_id: 1, offset: None, count: None }).unwrap();
    assert_eq!(todos.len(), 1);
    assert_eq!(todos[0].id, created.id);
    assert_eq!(todos[0].title, "t");
    assert_eq!(todos[0].body, "b");
    assert!(!todos[0].done);
    assert_eq!(todos[0].creation_time, 77);
}

#[test]
fn edit_done_only_keeps_title_and_body() {
    let mut store = TodoStore::new();
    register(&mut store, "u", "p").unwrap();
    let id = create_at(&mut store, 1, "t", 5);
    let r = store.edit(EditRequest { user_id: 1, todo_id: id, title: None, body: None, done: Some(true) });
    assert_eq!(r, Ok(()));
    let todos = store.list(GetRequest { user_id: 1, offset: None, count: None }).unwrap();
    assert_eq!(todos[0].title, "t");
    assert_eq!(todos[0].body, "t body");
    assert!(todos[0].done);
    assert_eq!(todos[0].creation_time, 5);
}

#[test]
fn edit_replaces_supplied_fields_even_when_empty() {
    let mut store = TodoStore::new();
    register(&mut store, "u", "p").unwrap();
    let id = create_at(&mut store, 1, "t", 5);
    let r = store.edit(EditRequest {
        user_id: 1,
        todo_id: id,
        title: Some(String::new()),
        body: Some("new".to_string()),
        done: None,
    });
    assert_eq!(r, Ok(()));
    let todos = store.list(GetRequest { user_id: 1, offset: None, count: None }).unwrap();
    assert_eq!(todos[0].title, "");
    assert_eq!(todos[0].body, "new");
    assert!(!todos[0].done);
}

#[test]
fn edit_of_other_users_todo_is_rejected_and_changes_nothing() {
    let mut store = TodoStore::new();
    register(&mut store, "owner", "p").unwrap();
    register(&mut store, "intruder", "q").unwrap();
    let id = create_at(&mut store, 1, "mine", 9);
    let r = store.edit(EditRequest {
        user_id: 2,
        todo_id: id,
        title: Some("stolen".to_string()),
        body: None,
        done: Some(true),
    });
    assert_eq!(r, Err(ErrorKind::Edit));
    assert_eq!(r.unwrap_err().code(), 5005);
    let todos = store.list(GetRequest { user_id: 1, offset: None, count: None }).unwrap();
    assert_eq!(todos[0].title, "mine");
    assert!(!todos[0].done);
    let r = store.edit(EditRequest { user_id: 1, todo_id: 99, title: None, body: None, done: None });
    assert_eq!(r, Err(ErrorKind::Edit));
}

#[test]
fn delete_twice_fails_the_second_time() {
    let mut store = TodoStore::new();
    register(&mut store, "u", "p").unwrap();
    let id = create_at(&mut store, 1, "t", 1);
    assert_eq!(store.delete(DeleteRequest { todo_id: id, user_id: 1 }), Ok(()));
    let r = store.delete(DeleteRequest { todo_id: id, user_id: 1 });
    assert_eq!(r, Err(ErrorKind::Delete));
    assert_eq!(r.unwrap_err().code(), 5007);
    assert!(get(&store, 1, None, None).is_empty());
}

#[test]
fn delete_needs_the_owner() {
    let mut store = TodoStore::new();
    register(&mut store, "a", "p").unwrap();
    register(&mut store, "b", "p").unwrap();
    let id = create_at(&mut store, 1, "t", 1);
    assert_eq!(store.delete(DeleteRequest { todo_id: id, user_id: 2 }), Err(ErrorKind::Delete));
    assert_eq!(get(&store, 1, None, None), vec![id]);
}

#[test]
fn list_pages_in_order_of_creation_and_scoped_to_owner() {
    let mut store = TodoStore::new();
    register(&mut store, "a", "p").unwrap();
    register(&mut store, "b", "p").unwrap();
    let a1 = create_at(&mut store, 1, "a1", 1);
    let b1 = create_at(&mut store, 2, "b1", 2);
    let a2 = create_at(&mut store, 1, "a2", 3);
    let a3 = create_at(&mut store, 1, "a3", 4);
    assert_eq!(get(&store, 1, None, None), vec![a1, a2, a3]);
    assert_eq!(get(&store, 2, None, None), vec![b1]);
    assert_eq!(get(&store, 1, Some(1), None), vec![a2, a3]);
    assert_eq!(get(&store, 1, Some(1), Some(1)), vec![a2]);
    assert_eq!(get(&store, 1, None, Some(2)), vec![a1, a2]);
    assert_eq!(get(&store, 1, Some(0), Some(0)), Vec::<i32>::new());
    assert_eq!(get(&store, 3, None, None), Vec::<i32>::new());
}

#[test]
fn list_offset_past_end_is_empty() {
    let mut store = TodoStore::new();
    register(&mut store, "a", "p").unwrap();
    create_at(&mut store, 1, "x", 1);
    create_at(&mut store, 1, "y", 1);
    assert_eq!(get(&store, 1, Some(2), None), Vec::<i32>::new());
    assert_eq!(get(&store, 1, Some(100), Some(5)), Vec::<i32>::new());
}

#[test]
fn list_negative_offset_or_count_is_db_error() {
    let store = TodoStore::new();
    let r = store.list(GetRequest { user_id: 1, offset: Some(-1), count: None });
    assert_eq!(r.unwrap_err(), ErrorKind::Db);
    let r = store.list(GetRequest { user_id: 1, offset: None, count: Some(-3) });
    assert_eq!(r.unwrap_err(), ErrorKind::Db);
}

#[test]
fn list_default_page_size_caps_the_result() {
    let mut store = TodoStore::new();
    register(&mut store, "a", "p").unwrap();
    for i in 0..(DEFAULT_PAGE_SIZE + 5) {
        create_at(&mut store, 1, "t", i);
    }
    assert_eq!(DEFAULT_PAGE_SIZE, 50);
    assert_eq!(get(&store, 1, None, None).len(), 50);
    assert_eq!(get(&store, 1, Some(50), None).len(), 5);
}

#[test]
fn full_session_scenario() {
    let mut store = TodoStore::new();
    assert_eq!(register(&mut store, "alice", "pw1"), Ok(()));
    let dup = register(&mut store, "alice", "pw2");
    assert_eq!(dup, Err(ErrorKind::UserExists));
    assert_eq!(dup.unwrap_err().code(), 5001);
    let n = login(&store, "alice", "pw1").unwrap();
    let created = store
        .create(CreateRequest { user_id: n, title: "t".to_string(), body: "b".to_string() })
        .unwrap();
    let m = created.id;
    let todos = store.list(GetRequest { user_id: n, offset: None, count: None }).unwrap();
    assert_eq!(todos.len(), 1);
    assert_eq!(todos[0].id, m);
    assert_eq!(todos[0].title, "t");
    assert_eq!(todos[0].body, "b");
    assert!(!todos[0].done);
    let r = store.edit(EditRequest { user_id: n, todo_id: m, title: None, body: None, done: Some(true) });
    assert_eq!(r, Ok(()));
    assert_eq!(store.delete(DeleteRequest { user_id: n, todo_id: m }), Ok(()));
    let again = store.delete(DeleteRequest { user_id: n, todo_id: m });
    assert_eq!(again, Err(ErrorKind::Delete));
    assert_eq!(again.unwrap_err().code(), 5007);
}
