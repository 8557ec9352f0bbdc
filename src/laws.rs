use vstd::prelude::*;

use crate::credentials::password_matches;
use crate::errors::ErrorKind;
use crate::store::{owned_todos, page, StoreModel, Todo, TodoRow};

verus! {

/// Registering a free name succeeds, and registering the same name again,
/// with any password, fails with `UserExists`.
pub proof fn register_twice_conflicts(
    m: StoreModel,
    username: String,
    first_hash: String,
    second_hash: String,
)
    requires
        m.wf(),
        !m.username_taken(username@),
        m.next_user_id < i32::MAX,
    ensures
        m.register_spec(username, first_hash).1 == Ok::<(), ErrorKind>(()),
        m.register_spec(username, first_hash).0.register_spec(username, second_hash) == (
            m.register_spec(username, first_hash).0,
            Err::<(), ErrorKind>(ErrorKind::UserExists),
        ),
{
    let m1 = m.register_spec(username, first_hash).0;
    let k = m.users.len() as int;
    assert(m1.users[k].username@ == username@);
}

/// After a successful registration, logging in with the same name and the
/// password whose hash was stored returns the new account's id.
pub proof fn register_then_login(
    m: StoreModel,
    username: String,
    password: Seq<char>,
    password_hash: String,
)
    requires
        m.wf(),
        !m.username_taken(username@),
        m.next_user_id < i32::MAX,
        password_matches(password, password_hash@),
    ensures
        m.register_spec(username, password_hash).0.login_spec(username@, password) == Ok::<
            i32,
            ErrorKind,
        >(m.next_user_id),
{
    let m1 = m.register_spec(username, password_hash).0;
    let k = m.users.len() as int;
    assert(m1.users[k].username@ == username@);
    let c = m1.user_index(username@);
    if c != k {
        assert(m1.users[c] == m.users[c]);
    }
}

/// A login under an unknown name and a login under a known name with a
/// password that does not match its hash give one and the same failure.
pub proof fn login_failures_indistinguishable(
    m: StoreModel,
    unknown_name: Seq<char>,
    any_password: Seq<char>,
    known_name: Seq<char>,
    wrong_password: Seq<char>,
)
    requires
        m.wf(),
        !m.username_taken(unknown_name),
        m.username_taken(known_name),
        !password_matches(wrong_password, m.users[m.user_index(known_name)].password_hash@),
    ensures
        m.login_spec(unknown_name, any_password) == m.login_spec(known_name, wrong_password),
        m.login_spec(unknown_name, any_password) == Err::<i32, ErrorKind>(ErrorKind::Login),
{
}

/// Creating a todo for an account that does not exist fails with `NoUser`
/// and leaves the store as it was.
pub proof fn create_for_missing_user(
    m: StoreModel,
    user_id: i32,
    title: String,
    body: String,
    now: i64,
)
    requires
        !m.has_user(user_id),
    ensures
        m.create_spec(user_id, title, body, now) == (m, Err::<crate::store::Created, ErrorKind>(
            ErrorKind::NoUser,
        )),
{
}

/// Every todo among the owned ones is the todo of some row.
proof fn lemma_owned_from_rows(rows: Seq<TodoRow>, user_id: i32)
    ensures
        forall|i: int|
            0 <= i < owned_todos(rows, user_id).len() ==> exists|j: int|
                0 <= j < rows.len() && rows[j].todo == #[trigger] owned_todos(rows, user_id)[i],
    decreases rows.len(),
{
    if rows.len() > 0 {
        let rest = rows.drop_last();
        lemma_owned_from_rows(rest, user_id);
        assert forall|i: int| 0 <= i < owned_todos(rows, user_id).len() implies exists|j: int|
            0 <= j < rows.len() && rows[j].todo == #[trigger] owned_todos(rows, user_id)[i] by {
            if i < owned_todos(rest, user_id).len() {
                let j = choose|j: int|
                    0 <= j < rest.len() && rest[j].todo == #[trigger] owned_todos(rest, user_id)[i];
                assert(rows[j] == rest[j]);
            } else {
                assert(rows[rows.len() - 1].todo == owned_todos(rows, user_id)[i]);
            }
        }
    }
}

/// A freshly created todo comes last among its owner's todos, not done, and
/// no other todo has its id; so every page of them that reaches its position
/// ends with it and holds it exactly once.
pub proof fn created_todo_is_listed_not_done(
    m: StoreModel,
    user_id: i32,
    title: String,
    body: String,
    now: i64,
    offset: i64,
    count: i64,
)
    requires
        m.wf(),
        m.has_user(user_id),
        m.next_todo_id < i32::MAX,
        0 <= offset <= owned_todos(m.todos, user_id).len(),
        owned_todos(m.todos, user_id).len() < offset + count,
    ensures
        ({
            let (m1, r) = m.create_spec(user_id, title, body, now);
            &&& r is Ok
            &&& m1.list_spec(user_id, Some(offset), Some(count)) is Ok
            &&& m1.list_spec(user_id, Some(offset), Some(count))->Ok_0.last() == Todo {
                id: r->Ok_0.id,
                title,
                body,
                done: false,
                creation_time: now,
            }
            &&& forall|i: int|
                0 <= i < m1.list_spec(user_id, Some(offset), Some(count))->Ok_0.len() - 1
                    ==> (#[trigger] m1.list_spec(user_id, Some(offset), Some(count))->Ok_0[i]).id
                    != r->Ok_0.id
        }),
{
    let (m1, r) = m.create_spec(user_id, title, body, now);
    let t = Todo { id: m.next_todo_id, title, body, done: false, creation_time: now };
    assert(m1.todos.drop_last() =~= m.todos);
    assert(owned_todos(m1.todos, user_id) == owned_todos(m.todos, user_id).push(t));
    let s0 = owned_todos(m.todos, user_id);
    lemma_owned_from_rows(m.todos, user_id);
    let p = m1.list_spec(user_id, Some(offset), Some(count))->Ok_0;
    assert forall|i: int| 0 <= i < p.len() - 1 implies (#[trigger] p[i]).id != m.next_todo_id by {
        assert(p[i] == s0[offset + i]);
        let j = choose|j: int| 0 <= j < m.todos.len() && m.todos[j].todo == #[trigger] s0[offset + i];
        assert(m.todos[j].todo.id < m.next_todo_id);
    }
}

/// An edit that supplies only `done: true` marks the todo done and keeps
/// its title, body, id, owner and creation time.
pub proof fn edit_done_only_keeps_text(m: StoreModel, user_id: i32, todo_id: i32)
    requires
        m.wf(),
        m.owns(user_id, todo_id),
    ensures
        ({
            let (m1, r) = m.edit_spec(user_id, todo_id, None, None, Some(true));
            let k = m.owned_index(user_id, todo_id);
            &&& r == Ok::<(), ErrorKind>(())
            &&& m1.todos.len() == m.todos.len()
            &&& m1.todos[k] == (TodoRow {
                user_id,
                todo: Todo {
                    id: todo_id,
                    title: m.todos[k].todo.title,
                    body: m.todos[k].todo.body,
                    done: true,
                    creation_time: m.todos[k].todo.creation_time,
                },
            })
            &&& forall|i: int| 0 <= i < m.todos.len() && i != k ==> m1.todos[i] == m.todos[i]
        }),
{
}

/// An edit of a todo that `user_id` does not own (absent, or owned by
/// another account) fails with `EditError` and changes nothing.
pub proof fn edit_of_foreign_todo_rejected(
    m: StoreModel,
    user_id: i32,
    todo_id: i32,
    title: Option<String>,
    body: Option<String>,
    done: Option<bool>,
)
    requires
        !m.owns(user_id, todo_id),
    ensures
        m.edit_spec(user_id, todo_id, title, body, done) == (m, Err::<(), ErrorKind>(
            ErrorKind::Edit,
        )),
{
}

/// Deleting an owned todo succeeds once; deleting it again fails with
/// `DeleteError`.
pub proof fn delete_twice_fails(m: StoreModel, user_id: i32, todo_id: i32)
    requires
        m.wf(),
        m.owns(user_id, todo_id),
    ensures
        m.delete_spec(user_id, todo_id).1 == Ok::<(), ErrorKind>(()),
        m.delete_spec(user_id, todo_id).0.delete_spec(user_id, todo_id) == (
            m.delete_spec(user_id, todo_id).0,
            Err::<(), ErrorKind>(ErrorKind::Delete),
        ),
{
    let k = m.owned_index(user_id, todo_id);
    let m1 = m.delete_spec(user_id, todo_id).0;
    assert(m1.todos == m.todos.remove(k));
    if m1.owns(user_id, todo_id) {
        let j = choose|j: int|
            0 <= j < m1.todos.len() && (#[trigger] m1.todos[j]).user_id == user_id
                && m1.todos[j].todo.id == todo_id;
        let j0 = if j < k { j } else { j + 1 };
        assert(m1.todos[j] == m.todos[j0]);
        assert(m.todos[j0].todo.id != m.todos[k].todo.id);
    }
}

/// A listing whose offset is at or past the number of todos the account owns
/// is an empty page, not a failure.
pub proof fn list_past_end_is_empty(
    m: StoreModel,
    user_id: i32,
    offset: i64,
    count: Option<i64>,
)
    requires
        owned_todos(m.todos, user_id).len() <= offset,
        match count {
            Some(c) => 0 <= c,
            None => true,
        },
    ensures
        m.list_spec(user_id, Some(offset), count) == Ok::<Seq<Todo>, ErrorKind>(Seq::empty()),
{
    let s = owned_todos(m.todos, user_id);
    let c: int = match count {
        Some(c) => c as int,
        None => crate::store::DEFAULT_PAGE_SIZE as int,
    };
    assert(page(s, offset as int, c) =~= Seq::<Todo>::empty());
}

} // verus!
