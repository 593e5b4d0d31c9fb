use vstd::prelude::*;

use crate::models::Task;

verus! {

pub const OK: u16 = 200;
pub const CREATED: u16 = 201;
pub const NO_CONTENT: u16 = 204;
pub const BAD_REQUEST: u16 = 400;
pub const UNAUTHORIZED: u16 = 401;
pub const FORBIDDEN: u16 = 403;
pub const NOT_FOUND: u16 = 404;
pub const CONFLICT: u16 = 409;
pub const INTERNAL_SERVER_ERROR: u16 = 500;

/// What an HTTP reply carries.
#[derive(Debug)]
pub enum ReplyBody {
    /// Plain text.
    Text(String),
    /// A JSON object whose one field `message` holds the text.
    ErrorMessage(String),
    /// One task as JSON.
    Task(Task),
    /// A list of tasks as JSON.
    Tasks(Vec<Task>),
}

/// An HTTP reply: its status code and what it carries.
#[derive(Debug)]
pub struct Reply {
    pub status: u16,
    pub body: ReplyBody,
}

impl Reply {
    /// A plain-text reply.
    pub fn text(status: u16, message: String) -> (r: Reply)
        ensures
            r.status == status,
            r.body == ReplyBody::Text(message),
    {
        Reply { status, body: ReplyBody::Text(message) }
    }
}

} // verus!
