use vstd::prelude::*;

verus! {

/// Body of a registration: the new account's name and password.
#[derive(Debug)]
pub struct RegisterRequest {
    pub username: String,
    pub password: String,
}

/// Body of a login attempt.
#[derive(Debug)]
pub struct LoginRequest {
    pub username: String,
    pub password: String,
}

/// Body of a todo creation for the account `user_id`.
#[derive(Debug)]
pub struct CreateRequest {
    pub user_id: i32,
    pub title: String,
    pub body: String,
}

/// Body of a listing: the page of `user_id`'s todos that starts after `offset`
/// of them and holds at most `count`.
#[derive(Debug)]
pub struct GetRequest {
    pub user_id: i32,
    pub count: Option<i64>,
    pub offset: Option<i64>,
}

/// Body of a partial update: each field that is `None` keeps its value.
#[derive(Debug)]
pub struct EditRequest {
    pub user_id: i32,
    pub todo_id: i32,
    pub title: Option<String>,
    pub body: Option<String>,
    pub done: Option<bool>,
}

/// Body of a deletion of todo `todo_id` owned by `user_id`.
#[derive(Debug)]
pub struct DeleteRequest {
    pub todo_id: i32,
    pub user_id: i32,
}

} // verus!
