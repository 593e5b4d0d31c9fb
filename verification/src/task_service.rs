use vstd::prelude::*;

use crate::errors::{DomainError, RepoError, ServiceError};
use crate::models::{NewTask, Task, UpdateTaskRequest};
use crate::task_status::TaskStatus;
use crate::text::{is_blank, is_blank_text};

verus! {

/// A request to the task store.
#[derive(Debug)]
pub enum TaskQuery {
    Create(NewTask),
    FindById(i32),
    FindByIdAndUser { id: i32, user_id: i32 },
    GetAll,
    GetByUser(i32),
    UpdateAll { req: UpdateTaskRequest, id: i32 },
    UpdateStatusForUser { id: i32, user_id: i32, req: UpdateTaskRequest },
    Delete(i32),
}

/// What the task store answered.
#[derive(Debug)]
pub enum TaskEvent {
    /// The stored task, after `Create`.
    Created(Result<Task, RepoError>),
    /// The task, if one matched, after `FindById` or `FindByIdAndUser`.
    Found(Result<Option<Task>, RepoError>),
    /// The tasks, after `GetAll` or `GetByUser`.
    Listed(Result<Vec<Task>, RepoError>),
    /// Whether exactly one task was changed, after `UpdateAll`, `UpdateStatusForUser` or `Delete`.
    Changed(Result<bool, RepoError>),
}

/// Where an operation of the task service stands while it waits for the store.
#[derive(Debug)]
pub enum TaskStage {
    /// Waiting for a new task to be stored.
    Creating,
    /// Waiting for task `id` to be read.
    Fetching { id: i32 },
    /// Waiting for a list of tasks.
    Listing,
    /// Waiting for task `id` to be read, so as to check it before `write` is sent.
    Checking { id: i32, write: TaskQuery },
    /// Waiting to learn whether task `id` was changed or removed.
    Writing { id: i32 },
}

/// What a task operation gives back when it succeeds.
#[derive(Debug)]
pub enum TaskOutcome {
    Task(Task),
    Tasks(Vec<Task>),
    Done,
}

/// The next move of a task operation: ask the store, or finish.
#[derive(Debug)]
pub enum TaskStep {
    Ask(TaskStage, TaskQuery),
    Finish(Result<TaskOutcome, ServiceError>),
}

/// Whether `e` says that `resource` number `id` does not exist.
pub open spec fn is_not_found(e: ServiceError, resource: Seq<char>, id: i32) -> bool {
    e matches ServiceError::NotFound { resource: r, id: i } && r@ == resource && i == id
}

/// The step that ends an operation because the store failed.
pub open spec fn task_repo_failure(e: RepoError) -> TaskStep {
    TaskStep::Finish(Err(ServiceError::Repo(e)))
}

/// Whether `event` is an answer to the query that `stage` waits for.
pub open spec fn stage_expects(stage: TaskStage, event: TaskEvent) -> bool {
    match stage {
        TaskStage::Creating => event is Created,
        TaskStage::Fetching { .. } => event is Found,
        TaskStage::Listing => event is Listed,
        TaskStage::Checking { .. } => event is Found,
        TaskStage::Writing { .. } => event is Changed,
    }
}

/// The transition rule of the task service: from `stage`, on `event`, the next move is `step`.
pub open spec fn task_resumes_to(stage: TaskStage, event: TaskEvent, step: TaskStep) -> bool {
    match stage {
        TaskStage::Creating => match event {
            TaskEvent::Created(Ok(task)) => step == TaskStep::Finish(Ok(TaskOutcome::Task(task))),
            TaskEvent::Created(Err(e)) => step == task_repo_failure(e),
            _ => false,
        },
        TaskStage::Fetching { id } => match event {
            TaskEvent::Found(Ok(Some(task))) => step == TaskStep::Finish(
                Ok(TaskOutcome::Task(task)),
            ),
            TaskEvent::Found(Ok(None)) => step matches TaskStep::Finish(Err(err))
                && is_not_found(err, "task"@, id),
            TaskEvent::Found(Err(e)) => step == task_repo_failure(e),
            _ => false,
        },
        TaskStage::Listing => match event {
            TaskEvent::Listed(Ok(tasks)) => step == TaskStep::Finish(
                Ok(TaskOutcome::Tasks(tasks)),
            ),
            TaskEvent::Listed(Err(e)) => step == task_repo_failure(e),
            _ => false,
        },
        TaskStage::Checking { id, write } => match event {
            TaskEvent::Found(Ok(Some(task))) => if task.status == TaskStatus::Cancel {
                step == TaskStep::Finish(Err(ServiceError::Domain(DomainError::ReopenCancelledTask)))
            } else {
                step == TaskStep::Ask(TaskStage::Writing { id }, write)
            },
            TaskEvent::Found(Ok(None)) => step matches TaskStep::Finish(Err(err))
                && is_not_found(err, "task"@, id),
            TaskEvent::Found(Err(e)) => step == task_repo_failure(e),
            _ => false,
        },
        TaskStage::Writing { id } => match event {
            TaskEvent::Changed(Ok(true)) => step == TaskStep::Finish(Ok(TaskOutcome::Done)),
            TaskEvent::Changed(Ok(false)) => step matches TaskStep::Finish(Err(err))
                && is_not_found(err, "task"@, id),
            TaskEvent::Changed(Err(e)) => step == task_repo_failure(e),
            _ => false,
        },
    }
}

/// The first move of `update_all_task(id, req)`: read task `id`, holding back the write of `req`.
pub open spec fn update_all_start(id: i32, req: UpdateTaskRequest) -> TaskStep {
    TaskStep::Ask(
        TaskStage::Checking { id, write: TaskQuery::UpdateAll { req, id } },
        TaskQuery::FindById(id),
    )
}

/// The first move of `update_status_for_user(id, user_id, req)` when `req` renames nothing:
/// read task `id` of user `user_id`, holding back the write of `req`.
pub open spec fn update_status_start(id: i32, user_id: i32, req: UpdateTaskRequest) -> TaskStep {
    TaskStep::Ask(
        TaskStage::Checking { id, write: TaskQuery::UpdateStatusForUser { id, user_id, req } },
        TaskQuery::FindByIdAndUser { id, user_id },
    )
}

/// Every write that a stage holds back for later is one the service may send:
/// a status update on behalf of a user never renames the task.
pub open spec fn task_stage_ok(stage: TaskStage) -> bool {
    stage matches TaskStage::Checking { write, .. } ==> match write {
        TaskQuery::UpdateStatusForUser { req, .. } => req.name is None,
        TaskQuery::UpdateAll { .. } => true,
        _ => false,
    }
}

/// The moves that a running operation may make.
pub open spec fn task_step_ok(step: TaskStep) -> bool {
    step matches TaskStep::Ask(stage, _) ==> task_stage_ok(stage)
}

/// How many more answers from the store an operation may wait for, at most.
pub open spec fn task_stage_rank(stage: TaskStage) -> nat {
    match stage {
        TaskStage::Checking { .. } => 2,
        _ => 1,
    }
}

impl TaskStage {
    /// Decides `stage_expects`.
    pub fn expects(&self, event: &TaskEvent) -> (r: bool)
        ensures
            r == stage_expects(*self, *event),
    {
        match self {
            TaskStage::Creating => matches!(event, TaskEvent::Created(_)),
            TaskStage::Fetching { .. } => matches!(event, TaskEvent::Found(_)),
            TaskStage::Listing => matches!(event, TaskEvent::Listed(_)),
            TaskStage::Checking { .. } => matches!(event, TaskEvent::Found(_)),
            TaskStage::Writing { .. } => matches!(event, TaskEvent::Changed(_)),
        }
    }
}

fn task_not_found(id: i32) -> (e: ServiceError)
    ensures
        is_not_found(e, "task"@, id),
{
    ServiceError::NotFound { resource: String::from_str("task"), id }
}

/// The rules of the task service. Each operation starts with one call, which either
/// answers at once or names a query for the store; the answer to each query is handed
/// to `resume` until the operation finishes.
pub struct TaskService;

impl TaskService {
    pub fn new() -> (s: TaskService) {
        TaskService
    }

    /// Creates a task, unless its name is blank.
    pub fn create_task(&self, new_task: NewTask) -> (step: TaskStep)
        ensures
            task_step_ok(step),
            if is_blank_text(new_task.name@) {
                step == TaskStep::Finish(Err(ServiceError::Domain(DomainError::EmptyName)))
            } else {
                step == TaskStep::Ask(TaskStage::Creating, TaskQuery::Create(new_task))
            },
    {
        if is_blank(new_task.name.as_str()) {
            return TaskStep::Finish(Err(ServiceError::Domain(DomainError::EmptyName)));
        }
        TaskStep::Ask(TaskStage::Creating, TaskQuery::Create(new_task))
    }

    /// Reads task `id`, provided it belongs to user `user_id`.
    pub fn get_task(&self, id: i32, user_id: i32) -> (step: TaskStep)
        ensures
            task_step_ok(step),
            step == TaskStep::Ask(TaskStage::Fetching { id }, TaskQuery::FindByIdAndUser { id, user_id }),
    {
        TaskStep::Ask(TaskStage::Fetching { id }, TaskQuery::FindByIdAndUser { id, user_id })
    }

    /// Reads task `id`, whoever it belongs to.
    pub fn get_task_as_admin(&self, id: i32) -> (step: TaskStep)
        ensures
            task_step_ok(step),
            step == TaskStep::Ask(TaskStage::Fetching { id }, TaskQuery::FindById(id)),
    {
        TaskStep::Ask(TaskStage::Fetching { id }, TaskQuery::FindById(id))
    }

    /// Lists every task.
    pub fn get_all_tasks_as_admin(&self) -> (step: TaskStep)
        ensures
            task_step_ok(step),
            step == TaskStep::Ask(TaskStage::Listing, TaskQuery::GetAll),
    {
        TaskStep::Ask(TaskStage::Listing, TaskQuery::GetAll)
    }

    /// Lists the tasks of user `user_id`.
    pub fn get_all_for_user(&self, user_id: i32) -> (step: TaskStep)
        ensures
            task_step_ok(step),
            step == TaskStep::Ask(TaskStage::Listing, TaskQuery::GetByUser(user_id)),
    {
        TaskStep::Ask(TaskStage::Listing, TaskQuery::GetByUser(user_id))
    }

    /// Changes name and status of task `id`: it is read first, and a cancelled task is left alone.
    pub fn update_all_task(&self, id: i32, req: UpdateTaskRequest) -> (step: TaskStep)
        ensures
            task_step_ok(step),
            step == update_all_start(id, req),
    {
        TaskStep::Ask(
            TaskStage::Checking { id, write: TaskQuery::UpdateAll { req, id } },
            TaskQuery::FindById(id),
        )
    }

    /// Changes the status of task `id` on behalf of its owner `user_id`, who may not rename it;
    /// the task is read first, and a cancelled task is left alone.
    pub fn update_status_for_user(&self, id: i32, user_id: i32, req: UpdateTaskRequest) -> (step:
        TaskStep)
        ensures
            task_step_ok(step),
            if req.name is Some {
                step == TaskStep::Finish(
                    Err(ServiceError::Domain(DomainError::UserCanUpdateOnlyStatus)),
                )
            } else {
                step == update_status_start(id, user_id, req)
            },
    {
        if req.name.is_some() {
            return TaskStep::Finish(
                Err(ServiceError::Domain(DomainError::UserCanUpdateOnlyStatus)),
            );
        }
        TaskStep::Ask(
            TaskStage::Checking { id, write: TaskQuery::UpdateStatusForUser { id, user_id, req } },
            TaskQuery::FindByIdAndUser { id, user_id },
        )
    }

    /// Removes task `id`.
    pub fn delete_task_as_admin(&self, id: i32) -> (step: TaskStep)
        ensures
            task_step_ok(step),
            step == TaskStep::Ask(TaskStage::Writing { id }, TaskQuery::Delete(id)),
    {
        TaskStep::Ask(TaskStage::Writing { id }, TaskQuery::Delete(id))
    }

    /// The next move of an operation waiting at `stage`, once the store has answered `event`.
    pub fn resume(&self, stage: TaskStage, event: TaskEvent) -> (step: TaskStep)
        requires
            stage_expects(stage, event),
        ensures
            task_resumes_to(stage, event, step),
            task_stage_ok(stage) ==> task_step_ok(step),
    {
        match stage {
            TaskStage::Creating => match event {
                TaskEvent::Created(Ok(task)) => TaskStep::Finish(Ok(TaskOutcome::Task(task))),
                TaskEvent::Created(Err(e)) => TaskStep::Finish(Err(ServiceError::Repo(e))),
                _ => vstd::pervasive::unreached(),
            },
            TaskStage::Fetching { id } => match event {
                TaskEvent::Found(Ok(Some(task))) => TaskStep::Finish(Ok(TaskOutcome::Task(task))),
                TaskEvent::Found(Ok(None)) => TaskStep::Finish(Err(task_not_found(id))),
                TaskEvent::Found(Err(e)) => TaskStep::Finish(Err(ServiceError::Repo(e))),
                _ => vstd::pervasive::unreached(),
            },
            TaskStage::Listing => match event {
                TaskEvent::Listed(Ok(tasks)) => TaskStep::Finish(Ok(TaskOutcome::Tasks(tasks))),
                TaskEvent::Listed(Err(e)) => TaskStep::Finish(Err(ServiceError::Repo(e))),
                _ => vstd::pervasive::unreached(),
            },
            TaskStage::Checking { id, write } => match event {
                TaskEvent::Found(Ok(Some(task))) => {
                    if task.status == TaskStatus::Cancel {
                        TaskStep::Finish(
                            Err(ServiceError::Domain(DomainError::ReopenCancelledTask)),
                        )
                    } else {
                        TaskStep::Ask(TaskStage::Writing { id }, write)
                    }
                },
                TaskEvent::Found(Ok(None)) => TaskStep::Finish(Err(task_not_found(id))),
                TaskEvent::Found(Err(e)) => TaskStep::Finish(Err(ServiceError::Repo(e))),
                _ => vstd::pervasive::unreached(),
            },
            TaskStage::Writing { id } => match event {
                TaskEvent::Changed(Ok(changed)) => {
                    if changed {
                        TaskStep::Finish(Ok(TaskOutcome::Done))
                    } else {
                        TaskStep::Finish(Err(task_not_found(id)))
                    }
                },
                TaskEvent::Changed(Err(e)) => TaskStep::Finish(Err(ServiceError::Repo(e))),
                _ => vstd::pervasive::unreached(),
            },
        }
    }
}

/// A task is written only after it was read and found not cancelled: every update the
/// service sends follows a read that returned a task whose status is not `Cancel`.
pub proof fn lemma_cancelled_task_never_updated(stage: TaskStage, event: TaskEvent, step: TaskStep)
    requires
        task_resumes_to(stage, event, step),
        step matches TaskStep::Ask(_, query) && (query is UpdateAll || query is UpdateStatusForUser),
    ensures
        stage is Checking,
        event matches TaskEvent::Found(Ok(Some(task))) && task.status != TaskStatus::Cancel,
{
}

/// A status update sent on behalf of a user never carries a new name.
pub proof fn lemma_user_update_changes_status_only(
    stage: TaskStage,
    event: TaskEvent,
    step: TaskStep,
)
    requires
        task_stage_ok(stage),
        task_resumes_to(stage, event, step),
        step matches TaskStep::Ask(_, TaskQuery::UpdateStatusForUser { .. }),
    ensures
        step matches TaskStep::Ask(_, TaskQuery::UpdateStatusForUser { req, .. }) && req.name is None,
{
}

/// Each answer of the store brings an operation closer to its end: an operation of the
/// task service asks the store at most twice.
pub proof fn lemma_task_operation_progresses(stage: TaskStage, event: TaskEvent, step: TaskStep)
    requires
        task_resumes_to(stage, event, step),
    ensures
        task_stage_rank(stage) <= 2,
        step matches TaskStep::Ask(next, _) ==> task_stage_rank(next) < task_stage_rank(stage),
{
}

/// An admin's update writes exactly the change that was asked for: once `update_all_task(id, req)`
/// has read task `id` and found it not cancelled, the write it sends is `req` for task `id`,
/// and the operation then waits on task `id`.
pub proof fn lemma_update_all_writes_requested_change(
    id: i32,
    req: UpdateTaskRequest,
    task: Task,
    next: TaskStep,
)
    requires
        update_all_start(id, req) matches TaskStep::Ask(stage, _) && task_resumes_to(
            stage,
            TaskEvent::Found(Ok(Some(task))),
            next,
        ),
        task.status != TaskStatus::Cancel,
    ensures
        next matches TaskStep::Ask(TaskStage::Writing { id: w }, TaskQuery::UpdateAll { req: r, id: i })
            && w == id && i == id && r == req,
{
}

/// A user's status update writes exactly the change that was asked for, on the task and user
/// that were read: once the read of task `id` of user `user_id` found it not cancelled, the write
/// is `req` for that task and user.
pub proof fn lemma_update_status_writes_requested_change(
    id: i32,
    user_id: i32,
    req: UpdateTaskRequest,
    task: Task,
    next: TaskStep,
)
    requires
        update_status_start(id, user_id, req) matches TaskStep::Ask(stage, _) && task_resumes_to(
            stage,
            TaskEvent::Found(Ok(Some(task))),
            next,
        ),
        task.status != TaskStatus::Cancel,
    ensures
        next matches TaskStep::Ask(
            TaskStage::Writing { id: w },
            TaskQuery::UpdateStatusForUser { id: i, user_id: u, req: r },
        ) && w == id && i == id && u == user_id && r == req,
{
}

/// A read returns the task the store found: when the store answers a read with a task, the
/// operation ends with that very task, and "not found" comes only when the store found nothing.
pub proof fn lemma_read_returns_found_task(stage: TaskStage, event: TaskEvent, step: TaskStep)
    requires
        stage is Fetching,
        task_resumes_to(stage, event, step),
    ensures
        event matches TaskEvent::Found(Ok(Some(t))) ==> step == TaskStep::Finish(
            Ok(TaskOutcome::Task(t)),
        ),
        step matches TaskStep::Finish(Err(ServiceError::NotFound { .. })) ==> event
            == TaskEvent::Found(Ok::<Option<Task>, RepoError>(None)),
{
}

} // verus!
