use vstd::prelude::*;

use crate::task_status::TaskStatus;
use crate::user_role::UserRole;

verus! {

/// A stored task. Times are microseconds since the Unix epoch (UTC).
#[derive(Debug, Clone)]
pub struct Task {
    pub id: i32,
    pub name: String,
    pub status: TaskStatus,
    pub user_id: i32,
    pub created_at: i64,
    pub updated_at: i64,
}

/// What a client sends to create a task.
#[derive(Debug)]
pub struct CreateTaskRequest {
    pub name: String,
    pub status: TaskStatus,
    pub user_id: i32,
}

/// What a client sends to change a task; absent fields stay as they are.
#[derive(Debug)]
pub struct UpdateTaskRequest {
    pub name: Option<String>,
    pub status: Option<TaskStatus>,
}

/// A task as handed to the repository for storing.
#[derive(Debug, Clone)]
pub struct NewTask {
    pub name: String,
    pub status: TaskStatus,
    pub user_id: i32,
}

impl NewTask {
    /// The task that a creation request asks for.
    pub fn from_request(req: CreateTaskRequest) -> (task: NewTask)
        ensures
            task.name == req.name,
            task.status == req.status,
            task.user_id == req.user_id,
    {
        NewTask { name: req.name, user_id: req.user_id, status: req.status }
    }
}

/// A stored account. `created_at` is in microseconds since the Unix epoch (UTC).
#[derive(Debug, Clone)]
pub struct User {
    pub id: i32,
    pub name: String,
    pub password_hash: String,
    pub created_at: i64,
    pub role: UserRole,
    pub phone: String,
}

/// What a client sends to log in.
#[derive(Debug)]
pub struct LoginRequest {
    pub phone: String,
    pub password: String,
}

/// What a client sends to register.
#[derive(Debug)]
pub struct RegisterRequest {
    pub name: String,
    pub phone: String,
    pub password: String,
    pub role: UserRole,
}

/// An account as handed to the repository for storing.
#[derive(Debug)]
pub struct NewUser {
    pub name: String,
    pub phone: String,
    pub role: UserRole,
    pub password_hash: String,
}

/// What a signed token says of its bearer: the account, its role, and when it expires
/// (seconds since the Unix epoch).
#[derive(Debug, Clone)]
pub struct Claims {
    pub sub: i32,
    pub role: UserRole,
    pub exp: usize,
}

/// A reply that carries one message.
#[derive(Debug)]
pub struct MessageResponse {
    pub message: String,
}

/// The reply to a successful login.
#[derive(Debug)]
pub struct TokenResponse {
    pub token: String,
    pub token_type: String,
}

impl TokenResponse {
    /// A bearer token reply.
    pub fn bearer(token: String) -> (r: TokenResponse)
        ensures
            r.token == token,
            r.token_type@ == "Bearer"@,
    {
        TokenResponse { token, token_type: String::from_str("Bearer") }
    }
}

} // verus!
