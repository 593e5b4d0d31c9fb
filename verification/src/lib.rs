//! Core of a small task-tracking service: statuses and roles, the rules that
//! decide every request, and the replies that go back to clients.
pub mod task_status;
pub mod text;
pub mod user_role;
pub mod models;
pub mod reply;
pub mod errors;
pub mod task_service;
pub mod credentials;
pub mod user_service;
pub mod auth;
pub mod handlers;
