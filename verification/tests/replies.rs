use task_service::auth::{admin_request, bearer_token};
use task_service::errors::{ApiError, DomainError, RepoError, ServiceError};
use task_service::handlers::{
    create_task_handler, delete_task_handler, get_all_tasks_handler, get_task_handler, task_created_reply,
    task_deleted_reply, task_loaded_reply, task_updated_reply, tasks_loaded_reply, update_task_handler,
    TaskHandling,
};
use task_service::models::{Claims, CreateTaskRequest, Task, TokenResponse, UpdateTaskRequest};
use task_service::reply::{Reply, ReplyBody};
use task_service::task_service::{TaskOutcome, TaskQuery, TaskService, TaskStep};
use task_service::task_status::TaskStatus;
use task_service::user_role::UserRole;

fn claims(role: UserRole) -> Claims {
    Claims { sub: 3, role, exp: 0 }
}

fn text(r: &Reply) -> (u16, &str) {
    match &r.body {
        ReplyBody::Text(t) => (r.status, t.as_str()),
        other => panic!("{:?}", other),
    }
}

fn not_found() -> ServiceError {
    ServiceError::NotFound { resource: "task".to_string(), id: 17 }
}

fn repo() -> ServiceError {
    ServiceError::Repo(RepoError { code: None, message: "boom".to_string() })
}

#[test]
fn bearer_tokens() {
    assert_eq!(bearer_token(None), Err(401));
    assert_eq!(bearer_token(Some("Bearer abc.def")), Ok("abc.def"));
    assert_eq!(bearer_token(Some("Bearer ")), Err(401));
    assert_eq!(bearer_token(Some("bearer abc")), Err(401));
    assert_eq!(bearer_token(Some("Basic abc")), Err(401));
    assert_eq!(bearer_token(Some("Bearer  x")), Ok(" x"));
    assert_eq!(bearer_token(Some("Bearerabc")), Err(401));
}

#[test]
fn admin_gate() {
    assert_eq!(admin_request(None), Err(401));
    assert_eq!(admin_request(Some(&claims(UserRole::User))), Err(403));
    assert_eq!(admin_request(Some(&claims(UserRole::Admin))), Ok(()));
}

#[test]
fn api_error_replies() {
    let r = ApiError::from(not_found()).into_response();
    assert_eq!(r.status, 404);
    assert!(matches!(&r.body, ReplyBody::ErrorMessage(m) if m == "task with id 17 not found"));
    let r = ApiError(ServiceError::Forbidden("no".to_string())).into_response();
    assert!(r.status == 403 && matches!(&r.body, ReplyBody::ErrorMessage(m) if m == "no"));
    let r = ApiError(ServiceError::Domain(DomainError::PasswordTooShort)).into_response();
    assert!(r.status == 400 && matches!(&r.body, ReplyBody::ErrorMessage(m) if m == "Password must be at least 8 bytes long"));
    let r = ApiError(ServiceError::Domain(DomainError::EmptyName)).into_response();
    assert!(matches!(&r.body, ReplyBody::ErrorMessage(m) if m == "Task name can't be empy"));
    let r = ApiError(repo()).into_response();
    assert!(r.status == 500 && matches!(&r.body, ReplyBody::ErrorMessage(m) if m == "internal server error"));
}

#[test]
fn service_error_messages() {
    assert_eq!(repo().message(), "database error: boom");
    assert_eq!(ServiceError::Forbidden("x".to_string()).message(), "forbidden: x");
    assert_eq!(ServiceError::NotFound { resource: "user".to_string(), id: -3 }.message(), "user with id -3 not found");
    assert_eq!(ServiceError::Domain(DomainError::ReopenCancelledTask).message(), "Can not reopen cancelled task");
}

#[test]
fn listing_follows_role() {
    let s = TaskService::new();
    assert!(matches!(get_all_tasks_handler(&s, &claims(UserRole::Admin)), TaskStep::Ask(_, TaskQuery::GetAll)));
    assert!(matches!(get_all_tasks_handler(&s, &claims(UserRole::User)), TaskStep::Ask(_, TaskQuery::GetByUser(3))));
    assert!(matches!(get_task_handler(&s, &claims(UserRole::Admin), 8), TaskStep::Ask(_, TaskQuery::FindById(8))));
    assert!(matches!(
        get_task_handler(&s, &claims(UserRole::User), 8),
        TaskStep::Ask(_, TaskQuery::FindByIdAndUser { id: 8, user_id: 3 })
    ));
}

#[test]
fn only_admin_creates_and_deletes() {
    let s = TaskService::new();
    let req = CreateTaskRequest { name: "a".to_string(), status: TaskStatus::Pending, user_id: 1 };
    match create_task_handler(&s, &claims(UserRole::User), req) {
        TaskHandling::Respond(r) => assert_eq!(text(&r), (403, "Only admin can create tasks")),
        other => panic!("{:?}", other),
    }
    let req = CreateTaskRequest { name: "a".to_string(), status: TaskStatus::Pending, user_id: 1 };
    assert!(matches!(create_task_handler(&s, &claims(UserRole::Admin), req), TaskHandling::Run(TaskStep::Ask(_, TaskQuery::Create(_)))));
    match delete_task_handler(&s, &claims(UserRole::User), 2) {
        TaskHandling::Respond(r) => assert_eq!(text(&r), (403, "Only admin can delete tasks")),
        other => panic!("{:?}", other),
    }
    assert!(matches!(delete_task_handler(&s, &claims(UserRole::Admin), 2), TaskHandling::Run(TaskStep::Ask(_, TaskQuery::Delete(2)))));
}

#[test]
fn update_follows_role() {
    let s = TaskService::new();
    let req = UpdateTaskRequest { name: Some("n".to_string()), status: None };
    assert!(matches!(update_task_handler(&s, 4, &claims(UserRole::Admin), req), TaskStep::Ask(_, TaskQuery::FindById(4))));
    let req = UpdateTaskRequest { name: Some("n".to_string()), status: None };
    assert!(matches!(
        update_task_handler(&s, 4, &claims(UserRole::User), req),
        TaskStep::Finish(Err(ServiceError::Domain(DomainError::UserCanUpdateOnlyStatus)))
    ));
}

#[test]
fn task_handler_replies() {
    let t = Task { id: 1, name: "n".to_string(), status: TaskStatus::Done, user_id: 2, created_at: 0, updated_at: 0 };
    let r = tasks_loaded_reply(Ok(TaskOutcome::Tasks(vec![t.clone()])));
    assert!(r.status == 200 && matches!(&r.body, ReplyBody::Tasks(v) if v.len() == 1));
    assert_eq!(text(&tasks_loaded_reply(Err(repo()))), (500, "Failed to load tasks"));
    assert_eq!(text(&task_loaded_reply(17, Err(not_found()))), (404, "No available task with id: 17"));
    assert_eq!(text(&task_loaded_reply(17, Err(repo()))), (500, "Failed to load task"));
    let r = task_created_reply(Ok(TaskOutcome::Task(t)));
    assert!(r.status == 201 && matches!(&r.body, ReplyBody::Task(x) if x.id == 1));
    assert_eq!(
        text(&task_created_reply(Err(ServiceError::Domain(DomainError::EmptyName)))),
        (400, "Task name cannot be empty")
    );
    assert_eq!(text(&task_created_reply(Err(repo()))), (500, "Failed to create task"));
    assert_eq!(text(&task_updated_reply(5, Ok(TaskOutcome::Done))), (200, "Task updated"));
    assert_eq!(
        text(&task_updated_reply(5, Err(ServiceError::Domain(DomainError::ReopenCancelledTask)))),
        (409, "Canceled task cannot be updated")
    );
    assert_eq!(
        text(&task_updated_reply(5, Err(ServiceError::Domain(DomainError::UserCanUpdateOnlyStatus)))),
        (403, "User can update only task status")
    );
    assert_eq!(text(&task_updated_reply(-5, Err(not_found()))), (404, "No available task with id: -5"));
    assert_eq!(text(&task_updated_reply(5, Err(repo()))), (500, "Failed to update task"));
    assert_eq!(text(&task_deleted_reply(5, Ok(TaskOutcome::Done))), (200, "Task deleted"));
    assert_eq!(text(&task_deleted_reply(5, Err(not_found()))), (404, "No task with id: 5"));
    assert_eq!(text(&task_deleted_reply(5, Err(repo()))), (500, "Failed to delete task"));
}

#[test]
fn token_reply_is_bearer() {
    let r = TokenResponse::bearer("t".to_string());
    assert_eq!((r.token.as_str(), r.token_type.as_str()), ("t", "Bearer"));
}
