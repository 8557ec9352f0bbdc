use vstd::prelude::*;

use crate::credentials::{hash_password, password_matches, verify_password};
use crate::errors::ErrorKind;
use crate::request_types::{
    CreateRequest, DeleteRequest, EditRequest, GetRequest, LoginRequest, RegisterRequest,
};

verus! {

/// Page size of a listing that names no `count`.
pub const DEFAULT_PAGE_SIZE: i64 = 50;

/// Work factor of the bcrypt hashes that stored passwords are kept as.
pub const PASSWORD_HASH_COST: u32 = 8;

/// A todo as clients see it. `creation_time` is the instant of creation in
/// milliseconds since the Unix epoch.
#[derive(Debug)]
pub struct Todo {
    pub id: i32,
    pub title: String,
    pub body: String,
    pub done: bool,
    pub creation_time: i64,
}

/// What a successful creation reports: the new todo's id and creation time.
#[derive(Clone, Copy, Debug, PartialEq, Eq, Structural)]
pub struct Created {
    pub id: i32,
    pub creation_time: i64,
}

/// A stored account. The password is kept only as a salted one-way hash.
#[derive(Debug)]
pub struct UserRow {
    pub id: i32,
    pub username: String,
    pub password_hash: String,
}

/// A stored todo together with the id of the account that owns it.
#[derive(Debug)]
pub struct TodoRow {
    pub user_id: i32,
    pub todo: Todo,
}

/// The abstract content of a store: its rows, in order of insertion, and the
/// ids that the next account and the next todo will get.
pub struct StoreModel {
    pub users: Seq<UserRow>,
    pub todos: Seq<TodoRow>,
    pub next_user_id: i32,
    pub next_todo_id: i32,
}

/// The todos of `user_id` among `rows`, in the order of the rows.
pub open spec fn owned_todos(rows: Seq<TodoRow>, user_id: i32) -> Seq<Todo>
    decreases rows.len(),
{
    if rows.len() == 0 {
        Seq::empty()
    } else {
        let rest = owned_todos(rows.drop_last(), user_id);
        if rows.last().user_id == user_id {
            rest.push(rows.last().todo)
        } else {
            rest
        }
    }
}

pub open spec fn min_int(a: int, b: int) -> int {
    if a <= b {
        a
    } else {
        b
    }
}

/// The part of `s` that skips `offset` items and holds at most `count`.
pub open spec fn page(s: Seq<Todo>, offset: int, count: int) -> Seq<Todo> {
    s.subrange(min_int(offset, s.len() as int), min_int(offset + count, s.len() as int))
}

/// `row` with each supplied field replaced; absent fields keep their value.
pub open spec fn edited_row(
    row: TodoRow,
    title: Option<String>,
    body: Option<String>,
    done: Option<bool>,
) -> TodoRow {
    TodoRow {
        user_id: row.user_id,
        todo: Todo {
            id: row.todo.id,
            title: match title {
                Some(t) => t,
                None => row.todo.title,
            },
            body: match body {
                Some(b) => b,
                None => row.todo.body,
            },
            done: match done {
                Some(d) => d,
                None => row.todo.done,
            },
            creation_time: row.todo.creation_time,
        },
    }
}

impl StoreModel {
    /// Ids are positive, unique and below the next ones handed out; usernames
    /// are unique; every todo belongs to a stored account.
    pub open spec fn wf(self) -> bool {
        &&& 1 <= self.next_user_id
        &&& 1 <= self.next_todo_id
        &&& forall|i: int|
            0 <= i < self.users.len() ==> 1 <= #[trigger] self.users[i].id < self.next_user_id
        &&& forall|i: int, j: int|
            0 <= i < self.users.len() && 0 <= j < self.users.len() && i != j
                ==> #[trigger] self.users[i].id != #[trigger] self.users[j].id
        &&& forall|i: int, j: int|
            0 <= i < self.users.len() && 0 <= j < self.users.len() && i != j
                ==> #[trigger] self.users[i].username@ != #[trigger] self.users[j].username@
        &&& forall|i: int|
            0 <= i < self.todos.len() ==> 1 <= #[trigger] self.todos[i].todo.id
                < self.next_todo_id
        &&& forall|i: int, j: int|
            0 <= i < self.todos.len() && 0 <= j < self.todos.len() && i != j
                ==> #[trigger] self.todos[i].todo.id != #[trigger] self.todos[j].todo.id
        &&& forall|i: int|
            0 <= i < self.todos.len() ==> self.has_user(#[trigger] self.todos[i].user_id)
    }

    pub open spec fn empty() -> StoreModel {
        StoreModel { users: Seq::empty(), todos: Seq::empty(), next_user_id: 1, next_todo_id: 1 }
    }

    pub open spec fn has_user(self, user_id: i32) -> bool {
        exists|i: int| 0 <= i < self.users.len() && #[trigger] self.users[i].id == user_id
    }

    pub open spec fn username_taken(self, username: Seq<char>) -> bool {
        exists|i: int| 0 <= i < self.users.len() && #[trigger] self.users[i].username@ == username
    }

    /// The position of the account named `username`.
    pub open spec fn user_index(self, username: Seq<char>) -> int {
        choose|i: int| 0 <= i < self.users.len() && #[trigger] self.users[i].username@ == username
    }

    /// Whether todo `todo_id` exists and belongs to `user_id`.
    pub open spec fn owns(self, user_id: i32, todo_id: i32) -> bool {
        exists|i: int|
            0 <= i < self.todos.len() && (#[trigger] self.todos[i]).user_id == user_id
                && self.todos[i].todo.id == todo_id
    }

    /// The position of todo `todo_id` of `user_id`.
    pub open spec fn owned_index(self, user_id: i32, todo_id: i32) -> int {
        choose|i: int|
            0 <= i < self.todos.len() && (#[trigger] self.todos[i]).user_id == user_id
                && self.todos[i].todo.id == todo_id
    }

    /// A registration with an already computed password hash.
    pub open spec fn register_spec(self, username: String, password_hash: String) -> (
        StoreModel,
        Result<(), ErrorKind>,
    ) {
        if self.username_taken(username@) {
            (self, Err(ErrorKind::UserExists))
        } else if self.next_user_id == i32::MAX {
            (self, Err(ErrorKind::Db))
        } else {
            (
                StoreModel {
                    users: self.users.push(
                        UserRow { id: self.next_user_id, username, password_hash },
                    ),
                    todos: self.todos,
                    next_user_id: (self.next_user_id + 1) as i32,
                    next_todo_id: self.next_todo_id,
                },
                Ok(()),
            )
        }
    }

    /// A login: the account's id when the name exists and the password matches
    /// its hash; one and the same failure otherwise.
    pub open spec fn login_spec(self, username: Seq<char>, password: Seq<char>) -> Result<
        i32,
        ErrorKind,
    > {
        if self.username_taken(username) && password_matches(
            password,
            self.users[self.user_index(username)].password_hash@,
        ) {
            Ok(self.users[self.user_index(username)].id)
        } else {
            Err(ErrorKind::Login)
        }
    }

    /// A creation stamped with the instant `now`.
    pub open spec fn create_spec(self, user_id: i32, title: String, body: String, now: i64) -> (
        StoreModel,
        Result<Created, ErrorKind>,
    ) {
        if !self.has_user(user_id) {
            (self, Err(ErrorKind::NoUser))
        } else if self.next_todo_id == i32::MAX {
            (self, Err(ErrorKind::Db))
        } else {
            let todo = Todo {
                id: self.next_todo_id,
                title,
                body,
                done: false,
                creation_time: now,
            };
            (
                StoreModel {
                    users: self.users,
                    todos: self.todos.push(TodoRow { user_id, todo }),
                    next_user_id: self.next_user_id,
                    next_todo_id: (self.next_todo_id + 1) as i32,
                },
                Ok(Created { id: self.next_todo_id, creation_time: now }),
            )
        }
    }

    /// A listing of `user_id`'s todos, in order of creation. A negative
    /// offset or count is refused as a storage failure.
    pub open spec fn list_spec(self, user_id: i32, offset: Option<i64>, count: Option<i64>) -> Result<
        Seq<Todo>,
        ErrorKind,
    > {
        let off: int = match offset {
            Some(o) => o as int,
            None => 0,
        };
        let cnt: int = match count {
            Some(c) => c as int,
            None => DEFAULT_PAGE_SIZE as int,
        };
        if off < 0 || cnt < 0 {
            Err(ErrorKind::Db)
        } else {
            Ok(page(owned_todos(self.todos, user_id), off, cnt))
        }
    }

    /// A partial update of todo `todo_id` of `user_id`.
    pub open spec fn edit_spec(
        self,
        user_id: i32,
        todo_id: i32,
        title: Option<String>,
        body: Option<String>,
        done: Option<bool>,
    ) -> (StoreModel, Result<(), ErrorKind>) {
        if self.owns(user_id, todo_id) {
            let k = self.owned_index(user_id, todo_id);
            (
                StoreModel {
                    users: self.users,
                    todos: self.todos.update(k, edited_row(self.todos[k], title, body, done)),
                    next_user_id: self.next_user_id,
                    next_todo_id: self.next_todo_id,
                },
                Ok(()),
            )
        } else {
            (self, Err(ErrorKind::Edit))
        }
    }

    /// A deletion of todo `todo_id` of `user_id`.
    pub open spec fn delete_spec(self, user_id: i32, todo_id: i32) -> (
        StoreModel,
        Result<(), ErrorKind>,
    ) {
        if self.owns(user_id, todo_id) {
            (
                StoreModel {
                    users: self.users,
                    todos: self.todos.remove(self.owned_index(user_id, todo_id)),
                    next_user_id: self.next_user_id,
                    next_todo_id: self.next_todo_id,
                },
                Ok(()),
            )
        } else {
            (self, Err(ErrorKind::Delete))
        }
    }
}

/// Taking one more row into account extends the owned todos by that row's
/// todo exactly when it belongs to `user_id`.
proof fn lemma_owned_prefix(rows: Seq<TodoRow>, user_id: i32, i: int)
    requires
        0 <= i < rows.len(),
    ensures
        owned_todos(rows.take(i + 1), user_id) == if rows[i].user_id == user_id {
            owned_todos(rows.take(i), user_id).push(rows[i].todo)
        } else {
            owned_todos(rows.take(i), user_id)
        },
{
    assert(rows.take(i + 1).drop_last() =~= rows.take(i));
    assert(rows.take(i + 1).last() == rows[i]);
}

/// How a page changes when its source sequence grows by one item.
proof fn lemma_page_push(s: Seq<Todo>, t: Todo, offset: int, count: int)
    requires
        0 <= offset,
        0 <= count,
    ensures
        page(s.push(t), offset, count) == if offset <= s.len() && page(s, offset, count).len()
            < count {
            page(s, offset, count).push(t)
        } else {
            page(s, offset, count)
        },
{
    let n = s.len() as int;
    if offset <= n && page(s, offset, count).len() < count {
        assert(page(s.push(t), offset, count) =~= page(s, offset, count).push(t));
    } else {
        assert(page(s.push(t), offset, count) =~= page(s, offset, count));
    }
}

/// Relies on `SystemTime::elapsed`, applied to `UNIX_EPOCH`: the time since
/// the epoch by the system clock, or `None` where the clock reads earlier.
/// Any value may come back.
#[verifier::external_body]
fn time_since_epoch() -> (r: Option<core::time::Duration>) {
    std::time::UNIX_EPOCH.elapsed().ok()
}

/// Relies on `Duration::as_millis`: the whole milliseconds of `d`.
#[verifier::external_body]
fn whole_millis(d: &core::time::Duration) -> (r: u128) {
    d.as_millis()
}

/// The current instant in milliseconds since the Unix epoch, when the system
/// clock gives one that fits an `i64`.
fn now_millis() -> (r: Option<i64>) {
    match time_since_epoch() {
        Some(d) => {
            let ms = whole_millis(&d);
            if ms <= i64::MAX as u128 {
                Some(ms as i64)
            } else {
                None
            }
        },
        None => None,
    }
}

/// An in-memory store of accounts and their todos.
pub struct TodoStore {
    users: Vec<UserRow>,
    todos: Vec<TodoRow>,
    next_user_id: i32,
    next_todo_id: i32,
}

impl View for TodoStore {
    type V = StoreModel;

    closed spec fn view(&self) -> StoreModel {
        StoreModel {
            users: self.users@,
            todos: self.todos@,
            next_user_id: self.next_user_id,
            next_todo_id: self.next_todo_id,
        }
    }
}

impl TodoStore {
    pub open spec fn wf(&self) -> bool {
        self@.wf()
    }

    /// A store with no accounts and no todos.
    pub fn new() -> (r: TodoStore)
        ensures
            r@ == StoreModel::empty(),
            r.wf(),
    {
        TodoStore { users: Vec::new(), todos: Vec::new(), next_user_id: 1, next_todo_id: 1 }
    }

    /// The position of the account named `username`, if there is one.
    fn find_user(&self, username: &String) -> (r: Option<usize>)
        requires
            self.wf(),
        ensures
            match r {
                Some(k) => k < self@.users.len() && k == self@.user_index(username@)
                    && self@.username_taken(username@),
                None => !self@.username_taken(username@),
            },
    {
        let mut i: usize = 0;
        while i < self.users.len()
            invariant
                i <= self.users@.len(),
                self.wf(),
                forall|j: int| 0 <= j < i ==> self.users@[j].username@ != username@,
            decreases self.users@.len() - i,
        {
            if self.users[i].username == *username {
                proof {
                    let m = self@;
                    assert(m.users[i as int].username@ == username@);
                    let c = m.user_index(username@);
                    assert(c == i as int);
                }
                return Some(i);
            }
            i = i + 1;
        }
        None
    }

    /// Adds the account `username` whose password is kept as `password_hash`.
    pub fn register_with_hash(&mut self, username: String, password_hash: String) -> (r: Result<
        (),
        ErrorKind,
    >)
        requires
            old(self).wf(),
        ensures
            final(self).wf(),
            (final(self)@, r) == old(self)@.register_spec(username, password_hash),
    {
        if self.find_user(&username).is_some() {
            return Err(ErrorKind::UserExists);
        }
        if self.next_user_id == i32::MAX {
            return Err(ErrorKind::Db);
        }
        let ghost m0 = self@;
        let ghost row = UserRow { id: self.next_user_id, username, password_hash };
        self.users.push(UserRow { id: self.next_user_id, username, password_hash });
        self.next_user_id = self.next_user_id + 1;
        proof {
            assert(self@.users == m0.users.push(row));
            assert(self@.todos == m0.todos);
            assert(m0.wf());
            assert forall|i: int| 0 <= i < self@.users.len() implies 1 <= #[trigger] self@.users[i].id
                < self@.next_user_id by {
                if i < m0.users.len() {
                    assert(self@.users[i] == m0.users[i]);
                }
            }
            assert forall|i: int, j: int|
                0 <= i < self@.users.len() && 0 <= j < self@.users.len() && i != j implies {
                &&& self@.users[i].id != self@.users[j].id
                &&& self@.users[i].username@ != self@.users[j].username@
            } by {
                let n = m0.users.len() as int;
                if i < n {
                    assert(self@.users[i] == m0.users[i]);
                }
                if j < n {
                    assert(self@.users[j] == m0.users[j]);
                }
                if i == n {
                    assert(self@.users[i] == row);
                    assert(m0.users[j].username@ != username@);
                } else if j == n {
                    assert(self@.users[j] == row);
                    assert(m0.users[i].username@ != username@);
                }
            }
            assert(forall|i: int, j: int|
                0 <= i < self@.users.len() && 0 <= j < self@.users.len() && i != j
                    ==> #[trigger] self@.users[i].id != #[trigger] self@.users[j].id);
            assert(forall|i: int, j: int|
                0 <= i < self@.users.len() && 0 <= j < self@.users.len() && i != j
                    ==> #[trigger] self@.users[i].username@ != #[trigger] self@.users[j].username@);
            assert forall|i: int| 0 <= i < self@.todos.len() implies self@.has_user(
                #[trigger] self@.todos[i].user_id,
            ) by {
                assert(m0.has_user(m0.todos[i].user_id));
                let w = choose|k: int|
                    0 <= k < m0.users.len() && #[trigger] m0.users[k].id == m0.todos[i].user_id;
                assert(self@.users[w] == m0.users[w]);
            }
        }
        Ok(())
    }

    /// Registers `username` with a salted one-way hash of `password`. The name
    /// must be free; hashing draws a random salt, which may fail.
    pub fn register(&mut self, req: RegisterRequest) -> (r: Result<(), ErrorKind>)
        requires
            old(self).wf(),
        ensures
            final(self).wf(),
            old(self)@.username_taken(req.username@) ==> r == Err::<(), ErrorKind>(
                ErrorKind::UserExists,
            ) && final(self)@ == old(self)@,
            (r == Err::<(), ErrorKind>(ErrorKind::Db) && final(self)@ == old(self)@) || exists|
                h: String,
            |
                (final(self)@, r) == old(self)@.register_spec(req.username, h),
            r is Ok ==> final(self)@.users.len() == old(self)@.users.len() + 1 && password_matches(
                req.password@,
                final(self)@.users.last().password_hash@,
            ),
    {
        if self.find_user(&req.username).is_some() {
            assert((self@, Err::<(), ErrorKind>(ErrorKind::UserExists)) == old(self)@.register_spec(
                req.username,
                req.password,
            ));
            return Err(ErrorKind::UserExists);
        }
        match hash_password(req.password.as_str(), PASSWORD_HASH_COST) {
            Some(h) => {
                let ghost hh = h;
                let r = self.register_with_hash(req.username, h);
                assert((self@, r) == old(self)@.register_spec(req.username, hh));
                r
            },
            None => Err(ErrorKind::Db),
        }
    }

    /// The id of the account `username` when `password` matches its hash; a
    /// wrong password and an unknown name fail alike.
    pub fn login(&self, req: LoginRequest) -> (r: Result<i32, ErrorKind>)
        requires
            self.wf(),
        ensures
            r == self@.login_spec(req.username@, req.password@),
    {
        match self.find_user(&req.username) {
            Some(k) => {
                if verify_password(req.password.as_str(), self.users[k].password_hash.as_str()) {
                    Ok(self.users[k].id)
                } else {
                    Err(ErrorKind::Login)
                }
            },
            None => Err(ErrorKind::Login),
        }
    }

    /// The position of the account with id `user_id`, if there is one.
    fn find_user_id(&self, user_id: i32) -> (r: Option<usize>)
        requires
            self.wf(),
        ensures
            match r {
                Some(k) => k < self@.users.len() && self@.users[k as int].id == user_id,
                None => !self@.has_user(user_id),
            },
    {
        let mut i: usize = 0;
        while i < self.users.len()
            invariant
                i <= self.users@.len(),
                forall|j: int| 0 <= j < i ==> self.users@[j].id != user_id,
            decreases self.users@.len() - i,
        {
            if self.users[i].id == user_id {
                return Some(i);
            }
            i = i + 1;
        }
        None
    }

    /// Adds a todo for the account `user_id`, created at the instant `now`.
    pub fn create_at(&mut self, req: CreateRequest, now: i64) -> (r: Result<Created, ErrorKind>)
        requires
            old(self).wf(),
        ensures
            final(self).wf(),
            (final(self)@, r) == old(self)@.create_spec(req.user_id, req.title, req.body, now),
    {
        let owner = self.find_user_id(req.user_id);
        if owner.is_none() {
            return Err(ErrorKind::NoUser);
        }
        if self.next_todo_id == i32::MAX {
            return Err(ErrorKind::Db);
        }
        let ghost m0 = self@;
        let id = self.next_todo_id;
        let ghost row = TodoRow {
            user_id: req.user_id,
            todo: Todo { id, title: req.title, body: req.body, done: false, creation_time: now },
        };
        self.todos.push(
            TodoRow {
                user_id: req.user_id,
                todo: Todo { id, title: req.title, body: req.body, done: false, creation_time: now },
            },
        );
        self.next_todo_id = id + 1;
        proof {
            assert(self@.todos == m0.todos.push(row));
            assert(self@.users == m0.users);
            assert(m0.wf());
            assert forall|i: int| 0 <= i < self@.todos.len() implies 1 <= #[trigger] self@.todos[i].todo.id
                < self@.next_todo_id by {
                if i < m0.todos.len() {
                    assert(self@.todos[i] == m0.todos[i]);
                }
            }
            assert forall|i: int, j: int|
                0 <= i < self@.todos.len() && 0 <= j < self@.todos.len() && i != j implies
                self@.todos[i].todo.id != self@.todos[j].todo.id by {
                let n = m0.todos.len() as int;
                if i < n {
                    assert(self@.todos[i] == m0.todos[i]);
                }
                if j < n {
                    assert(self@.todos[j] == m0.todos[j]);
                }
            }
            assert forall|i: int| 0 <= i < self@.todos.len() implies self@.has_user(
                #[trigger] self@.todos[i].user_id,
            ) by {
                if i < m0.todos.len() {
                    assert(self@.todos[i] == m0.todos[i]);
                } else {
                    let k = owner.unwrap() as int;
                    assert(self@.users[k].id == req.user_id);
                }
            }
        }
        Ok(Created { id, creation_time: now })
    }

    /// Adds a todo for the account `user_id`, stamped with the current time.
    pub fn create(&mut self, req: CreateRequest) -> (r: Result<Created, ErrorKind>)
        requires
            old(self).wf(),
        ensures
            final(self).wf(),
            !old(self)@.has_user(req.user_id) ==> r == Err::<Created, ErrorKind>(
                ErrorKind::NoUser,
            ) && final(self)@ == old(self)@,
            (r == Err::<Created, ErrorKind>(ErrorKind::Db) && final(self)@ == old(self)@) || exists|
                now: i64,
            |
                (final(self)@, r) == old(self)@.create_spec(req.user_id, req.title, req.body, now),
    {
        if self.find_user_id(req.user_id).is_none() {
            assert((self@, Err::<Created, ErrorKind>(ErrorKind::NoUser)) == old(self)@.create_spec(
                req.user_id,
                req.title,
                req.body,
                0,
            ));
            return Err(ErrorKind::NoUser);
        }
        match now_millis() {
            Some(now) => {
                let r = self.create_at(req, now);
                assert((self@, r) == old(self)@.create_spec(req.user_id, req.title, req.body, now));
                r
            },
            None => Err(ErrorKind::Db),
        }
    }

    /// The position of todo `todo_id` of `user_id`, if it exists.
    fn find_owned(&self, user_id: i32, todo_id: i32) -> (r: Option<usize>)
        requires
            self.wf(),
        ensures
            match r {
                Some(k) => k < self@.todos.len() && self@.owns(user_id, todo_id) && k
                    == self@.owned_index(user_id, todo_id),
                None => !self@.owns(user_id, todo_id),
            },
    {
        let mut i: usize = 0;
        while i < self.todos.len()
            invariant
                i <= self.todos@.len(),
                self.wf(),
                forall|j: int|
                    0 <= j < i ==> !(self.todos@[j].user_id == user_id && self.todos@[j].todo.id
                        == todo_id),
            decreases self.todos@.len() - i,
        {
            if self.todos[i].user_id == user_id && self.todos[i].todo.id == todo_id {
                proof {
                    let m = self@;
                    assert(m.todos[i as int].user_id == user_id);
                    let c = m.owned_index(user_id, todo_id);
                    if c != i as int {
                        assert(m.todos[c].todo.id != m.todos[i as int].todo.id);
                    }
                }
                return Some(i);
            }
            i = i + 1;
        }
        None
    }

    /// Updates the supplied fields of todo `todo_id` of `user_id`; the others
    /// keep their values. Fails when no such todo is owned by `user_id`.
    pub fn edit(&mut self, req: EditRequest) -> (r: Result<(), ErrorKind>)
        requires
            old(self).wf(),
        ensures
            final(self).wf(),
            (final(self)@, r) == old(self)@.edit_spec(
                req.user_id,
                req.todo_id,
                req.title,
                req.body,
                req.done,
            ),
    {
        let found = self.find_owned(req.user_id, req.todo_id);
        let k = match found {
            Some(k) => k,
            None => {
                return Err(ErrorKind::Edit);
            },
        };
        let ghost m0 = self@;
        let ghost new_row = edited_row(m0.todos[k as int], req.title, req.body, req.done);
        let old_row = &self.todos[k];
        let title = match req.title {
            Some(t) => t,
            None => old_row.todo.title.clone(),
        };
        let body = match req.body {
            Some(b) => b,
            None => old_row.todo.body.clone(),
        };
        let done = match req.done {
            Some(d) => d,
            None => old_row.todo.done,
        };
        let row = TodoRow {
            user_id: old_row.user_id,
            todo: Todo {
                id: old_row.todo.id,
                title,
                body,
                done,
                creation_time: old_row.todo.creation_time,
            },
        };
        assert(row == new_row);
        self.todos.set(k, row);
        proof {
            assert(self@.todos == m0.todos.update(k as int, new_row));
            assert(self@.users == m0.users);
            assert(m0.wf());
            assert forall|i: int| 0 <= i < self@.todos.len() implies 1 <= #[trigger] self@.todos[i].todo.id
                < self@.next_todo_id by {
                assert(self@.todos[i].todo.id == m0.todos[i].todo.id);
            }
            assert forall|i: int, j: int|
                0 <= i < self@.todos.len() && 0 <= j < self@.todos.len() && i != j implies
                self@.todos[i].todo.id != self@.todos[j].todo.id by {
                assert(self@.todos[i].todo.id == m0.todos[i].todo.id);
                assert(self@.todos[j].todo.id == m0.todos[j].todo.id);
            }
            assert forall|i: int| 0 <= i < self@.todos.len() implies self@.has_user(
                #[trigger] self@.todos[i].user_id,
            ) by {
                assert(self@.todos[i].user_id == m0.todos[i].user_id);
            }
        }
        Ok(())
    }

    /// Removes todo `todo_id` of `user_id`. Fails when no such todo is owned by
    /// `user_id`.
    pub fn delete(&mut self, req: DeleteRequest) -> (r: Result<(), ErrorKind>)
        requires
            old(self).wf(),
        ensures
            final(self).wf(),
            (final(self)@, r) == old(self)@.delete_spec(req.user_id, req.todo_id),
    {
        let found = self.find_owned(req.user_id, req.todo_id);
        let k = match found {
            Some(k) => k,
            None => {
                return Err(ErrorKind::Delete);
            },
        };
        let ghost m0 = self@;
        self.todos.remove(k);
        proof {
            assert(self@.todos == m0.todos.remove(k as int));
            assert(self@.users == m0.users);
            assert(m0.wf());
            assert forall|i: int| 0 <= i < self@.todos.len() implies 1 <= #[trigger] self@.todos[i].todo.id
                < self@.next_todo_id by {
                if i < k {
                    assert(self@.todos[i] == m0.todos[i]);
                } else {
                    assert(self@.todos[i] == m0.todos[i + 1]);
                }
            }
            assert forall|i: int, j: int|
                0 <= i < self@.todos.len() && 0 <= j < self@.todos.len() && i != j implies
                self@.todos[i].todo.id != self@.todos[j].todo.id by {
                let i0 = if i < k { i } else { i + 1 };
                let j0 = if j < k { j } else { j + 1 };
                assert(self@.todos[i] == m0.todos[i0]);
                assert(self@.todos[j] == m0.todos[j0]);
            }
            assert forall|i: int| 0 <= i < self@.todos.len() implies self@.has_user(
                #[trigger] self@.todos[i].user_id,
            ) by {
                let i0 = if i < k { i } else { i + 1 };
                assert(self@.todos[i] == m0.todos[i0]);
            }
        }
        Ok(())
    }

    /// The page of `user_id`'s todos, in order of creation, that skips
    /// `offset` of them (none if absent) and holds at most `count` (the
    /// default page size if absent). A negative offset or count is a storage
    /// failure; a page past the end is empty.
    pub fn list(&self, req: GetRequest) -> (r: Result<Vec<Todo>, ErrorKind>)
        requires
            self.wf(),
        ensures
            match r {
                Ok(v) => self@.list_spec(req.user_id, req.offset, req.count) == Ok::<
                    Seq<Todo>,
                    ErrorKind,
                >(v@),
                Err(e) => self@.list_spec(req.user_id, req.offset, req.count) == Err::<
                    Seq<Todo>,
                    ErrorKind,
                >(e),
            },
    {
        let offset: i64 = match req.offset {
            Some(o) => o,
            None => 0,
        };
        let count: i64 = match req.count {
            Some(c) => c,
            None => DEFAULT_PAGE_SIZE,
        };
        if offset < 0 || count < 0 {
            return Err(ErrorKind::Db);
        }
        let user_id = req.user_id;
        let ghost rows = self@.todos;
        let mut out: Vec<Todo> = Vec::new();
        let mut seen: u64 = 0;
        let mut i: usize = 0;
        while i < self.todos.len()
            invariant
                rows == self.todos@,
                i <= rows.len(),
                0 <= offset,
                0 <= count,
                seen as int == owned_todos(rows.take(i as int), user_id).len(),
                seen <= i,
                out@ == page(owned_todos(rows.take(i as int), user_id), offset as int, count as int),
            decreases rows.len() - i,
        {
            let row = &self.todos[i];
            proof {
                lemma_owned_prefix(rows, user_id, i as int);
            }
            if row.user_id == user_id {
                proof {
                    lemma_page_push(
                        owned_todos(rows.take(i as int), user_id),
                        row.todo,
                        offset as int,
                        count as int,
                    );
                }
                if seen >= offset as u64 && (out.len() as u64) < count as u64 {
                    out.push(
                        Todo {
                            id: row.todo.id,
                            title: row.todo.title.clone(),
                            body: row.todo.body.clone(),
                            done: row.todo.done,
                            creation_time: row.todo.creation_time,
                        },
                    );
                }
                seen = seen + 1;
            }
            i = i + 1;
        }
        proof {
            assert(rows.take(rows.len() as int) =~= rows);
        }
        Ok(out)
    }
}

} // verus!
