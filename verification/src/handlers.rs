use vstd::prelude::*;

use crate::errors::{DomainError, ServiceError};
use crate::models::{Claims, CreateTaskRequest, NewTask, UpdateTaskRequest};
use crate::reply::{
    Reply, ReplyBody, BAD_REQUEST, CONFLICT, CREATED, FORBIDDEN, INTERNAL_SERVER_ERROR, NOT_FOUND,
    OK,
};
use crate::task_service::{TaskOutcome, TaskQuery, TaskService, TaskStage, TaskStep};
use crate::text::{append_decimal, decimal, is_blank_text};
use crate::user_role::UserRole;

verus! {

/// How a task route goes on: run an operation of the task service, or reply at once.
#[derive(Debug)]
pub enum TaskHandling {
    Run(TaskStep),
    Respond(Reply),
}

/// Whether `r` has status `status` and carries the plain text `message`.
pub open spec fn is_text_reply(r: Reply, status: u16, message: Seq<char>) -> bool {
    &&& r.status == status
    &&& r.body matches ReplyBody::Text(m) && m@ == message
}

/// What a successful task operation sends back with `status`: the task, or the list of tasks.
pub open spec fn is_outcome_reply(r: Reply, status: u16, outcome: TaskOutcome) -> bool {
    &&& r.status == status
    &&& match outcome {
        TaskOutcome::Task(t) => r.body == ReplyBody::Task(t),
        TaskOutcome::Tasks(ts) => r.body == ReplyBody::Tasks(ts),
        TaskOutcome::Done => r.body matches ReplyBody::Text(m) && m@.len() == 0,
    }
}

/// A successful reply carries exactly what the operation gave back: the same task, or the same
/// tasks in the same order, none dropped or added.
pub proof fn lemma_outcome_reply_carries_outcome(r: Reply, status: u16, outcome: TaskOutcome)
    requires
        is_outcome_reply(r, status, outcome),
    ensures
        r.status == status,
        outcome matches TaskOutcome::Tasks(ts) ==> (r.body matches ReplyBody::Tasks(v) && v@.len()
            == ts@.len() && forall|i: int| 0 <= i < ts@.len() ==> v@[i] == ts@[i]),
        outcome matches TaskOutcome::Task(t) ==> r.body == ReplyBody::Task(t),
{
}

/// `"<prefix><id>"`.
pub open spec fn with_id(prefix: Seq<char>, id: i32) -> Seq<char> {
    prefix + decimal(id as int)
}

fn text_with_id(prefix: &str, id: i32) -> (m: String)
    ensures
        m@ == with_id(prefix@, id),
{
    let mut m = String::from_str(prefix);
    append_decimal(&mut m, id);
    m
}

fn outcome_reply(status: u16, outcome: TaskOutcome) -> (r: Reply)
    ensures
        is_outcome_reply(r, status, outcome),
{
    match outcome {
        TaskOutcome::Task(t) => Reply { status, body: ReplyBody::Task(t) },
        TaskOutcome::Tasks(ts) => Reply { status, body: ReplyBody::Tasks(ts) },
        TaskOutcome::Done => Reply::text(status, String::new()),
    }
}

/// Lists tasks: an admin sees all of them, anyone else only their own.
pub fn get_all_tasks_handler(service: &TaskService, claims: &Claims) -> (step: TaskStep)
    ensures
        step == if claims.role == UserRole::Admin {
            TaskStep::Ask(TaskStage::Listing, TaskQuery::GetAll)
        } else {
            TaskStep::Ask(TaskStage::Listing, TaskQuery::GetByUser(claims.sub))
        },
{
    match claims.role {
        UserRole::Admin => service.get_all_tasks_as_admin(),
        UserRole::User => service.get_all_for_user(claims.sub),
    }
}

/// The reply to a listing: the tasks, or `500` with a fixed text.
pub fn tasks_loaded_reply(result: Result<TaskOutcome, ServiceError>) -> (r: Reply)
    ensures
        match result {
            Ok(outcome) => is_outcome_reply(r, OK, outcome),
            Err(_) => is_text_reply(r, INTERNAL_SERVER_ERROR, "Failed to load tasks"@),
        },
{
    match result {
        Ok(outcome) => outcome_reply(OK, outcome),
        Err(_) => Reply::text(INTERNAL_SERVER_ERROR, String::from_str("Failed to load tasks")),
    }
}

/// Reads task `id`: an admin may read any task, anyone else only their own.
pub fn get_task_handler(service: &TaskService, claims: &Claims, id: i32) -> (step: TaskStep)
    ensures
        step == if claims.role == UserRole::Admin {
            TaskStep::Ask(TaskStage::Fetching { id }, TaskQuery::FindById(id))
        } else {
            TaskStep::Ask(
                TaskStage::Fetching { id },
                TaskQuery::FindByIdAndUser { id, user_id: claims.sub },
            )
        },
{
    match claims.role {
        UserRole::Admin => service.get_task_as_admin(id),
        UserRole::User => service.get_task(id, claims.sub),
    }
}

/// The reply to reading task `id`.
pub fn task_loaded_reply(id: i32, result: Result<TaskOutcome, ServiceError>) -> (r: Reply)
    ensures
        match result {
            Ok(outcome) => is_outcome_reply(r, OK, outcome),
            Err(ServiceError::NotFound { .. }) => is_text_reply(
                r,
                NOT_FOUND,
                with_id("No available task with id: "@, id),
            ),
            Err(_) => is_text_reply(r, INTERNAL_SERVER_ERROR, "Failed to load task"@),
        },
{
    match result {
        Ok(outcome) => outcome_reply(OK, outcome),
        Err(ServiceError::NotFound { .. }) => Reply::text(
            NOT_FOUND,
            text_with_id("No available task with id: ", id),
        ),
        Err(_) => Reply::text(INTERNAL_SERVER_ERROR, String::from_str("Failed to load task")),
    }
}

/// Creates a task; only an admin may.
pub fn create_task_handler(service: &TaskService, claims: &Claims, task: CreateTaskRequest) -> (h:
    TaskHandling)
    ensures
        claims.role != UserRole::Admin ==> (h matches TaskHandling::Respond(r) && is_text_reply(
            r,
            FORBIDDEN,
            "Only admin can create tasks"@,
        )),
        claims.role == UserRole::Admin ==> (h matches TaskHandling::Run(step) && if is_blank_text(
            task.name@,
        ) {
            step == TaskStep::Finish(Err(ServiceError::Domain(DomainError::EmptyName)))
        } else {
            step matches TaskStep::Ask(TaskStage::Creating, TaskQuery::Create(t)) && t.name
                == task.name && t.status == task.status && t.user_id == task.user_id
        }),
{
    match claims.role {
        UserRole::Admin => TaskHandling::Run(service.create_task(NewTask::from_request(task))),
        UserRole::User => TaskHandling::Respond(
            Reply::text(FORBIDDEN, String::from_str("Only admin can create tasks")),
        ),
    }
}

/// The reply to creating a task.
pub fn task_created_reply(result: Result<TaskOutcome, ServiceError>) -> (r: Reply)
    ensures
        match result {
            Ok(outcome) => is_outcome_reply(r, CREATED, outcome),
            Err(ServiceError::Domain(DomainError::EmptyName)) => is_text_reply(
                r,
                BAD_REQUEST,
                "Task name cannot be empty"@,
            ),
            Err(_) => is_text_reply(r, INTERNAL_SERVER_ERROR, "Failed to create task"@),
        },
{
    match result {
        Ok(outcome) => outcome_reply(CREATED, outcome),
        Err(ServiceError::Domain(DomainError::EmptyName)) => Reply::text(
            BAD_REQUEST,
            String::from_str("Task name cannot be empty"),
        ),
        Err(_) => Reply::text(INTERNAL_SERVER_ERROR, String::from_str("Failed to create task")),
    }
}

/// Changes task `id`: an admin may change anything, anyone else only the status of their own.
pub fn update_task_handler(
    service: &TaskService,
    id: i32,
    claims: &Claims,
    req: UpdateTaskRequest,
) -> (step: TaskStep)
    ensures
        claims.role == UserRole::Admin ==> step == TaskStep::Ask(
            TaskStage::Checking { id, write: TaskQuery::UpdateAll { req, id } },
            TaskQuery::FindById(id),
        ),
        claims.role != UserRole::Admin ==> if req.name is Some {
            step == TaskStep::Finish(
                Err(ServiceError::Domain(DomainError::UserCanUpdateOnlyStatus)),
            )
        } else {
            step == TaskStep::Ask(
                TaskStage::Checking {
                    id,
                    write: TaskQuery::UpdateStatusForUser { id, user_id: claims.sub, req },
                },
                TaskQuery::FindByIdAndUser { id, user_id: claims.sub },
            )
        },
{
    match claims.role {
        UserRole::Admin => service.update_all_task(id, req),
        UserRole::User => service.update_status_for_user(id, claims.sub, req),
    }
}

/// The reply to changing task `id`.
pub fn task_updated_reply(id: i32, result: Result<TaskOutcome, ServiceError>) -> (r: Reply)
    ensures
        match result {
            Ok(_) => is_text_reply(r, OK, "Task updated"@),
            Err(ServiceError::Domain(DomainError::ReopenCancelledTask)) => is_text_reply(
                r,
                CONFLICT,
                "Canceled task cannot be updated"@,
            ),
            Err(ServiceError::Domain(DomainError::UserCanUpdateOnlyStatus)) => is_text_reply(
                r,
                FORBIDDEN,
                "User can update only task status"@,
            ),
            Err(ServiceError::NotFound { .. }) => is_text_reply(
                r,
                NOT_FOUND,
                with_id("No available task with id: "@, id),
            ),
            Err(_) => is_text_reply(r, INTERNAL_SERVER_ERROR, "Failed to update task"@),
        },
{
    match result {
        Ok(_) => Reply::text(OK, String::from_str("Task updated")),
        Err(ServiceError::Domain(DomainError::ReopenCancelledTask)) => Reply::text(
            CONFLICT,
            String::from_str("Canceled task cannot be updated"),
        ),
        Err(ServiceError::Domain(DomainError::UserCanUpdateOnlyStatus)) => Reply::text(
            FORBIDDEN,
            String::from_str("User can update only task status"),
        ),
        Err(ServiceError::NotFound { .. }) => Reply::text(
            NOT_FOUND,
            text_with_id("No available task with id: ", id),
        ),
        Err(_) => Reply::text(INTERNAL_SERVER_ERROR, String::from_str("Failed to update task")),
    }
}

/// Removes task `id`; only an admin may.
pub fn delete_task_handler(service: &TaskService, claims: &Claims, id: i32) -> (h: TaskHandling)
    ensures
        claims.role != UserRole::Admin ==> (h matches TaskHandling::Respond(r) && is_text_reply(
            r,
            FORBIDDEN,
            "Only admin can delete tasks"@,
        )),
        claims.role == UserRole::Admin ==> h == TaskHandling::Run(
            TaskStep::Ask(TaskStage::Writing { id }, TaskQuery::Delete(id)),
        ),
{
    match claims.role {
        UserRole::Admin => TaskHandling::Run(service.delete_task_as_admin(id)),
        UserRole::User => TaskHandling::Respond(
            Reply::text(FORBIDDEN, String::from_str("Only admin can delete tasks")),
        ),
    }
}

/// The reply to removing task `id`.
pub fn task_deleted_reply(id: i32, result: Result<TaskOutcome, ServiceError>) -> (r: Reply)
    ensures
        match result {
            Ok(_) => is_text_reply(r, OK, "Task deleted"@),
            Err(ServiceError::NotFound { .. }) => is_text_reply(
                r,
                NOT_FOUND,
                with_id("No task with id: "@, id),
            ),
            Err(_) => is_text_reply(r, INTERNAL_SERVER_ERROR, "Failed to delete task"@),
        },
{
    match result {
        Ok(_) => Reply::text(OK, String::from_str("Task deleted")),
        Err(ServiceError::NotFound { .. }) => Reply::text(
            NOT_FOUND,
            text_with_id("No task with id: ", id),
        ),
        Err(_) => Reply::text(INTERNAL_SERVER_ERROR, String::from_str("Failed to delete task")),
    }
}

} // verus!
