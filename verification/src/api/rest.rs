//! The answers of the task endpoints: for each outcome of the repository,
//! the status and the body that the client gets.
//!
//! | Method | Path            | Success                  | Failure                              |
//! |--------|-----------------|--------------------------|--------------------------------------|
//! | GET    | `/v1/tasks/`    | 200, the tasks           | `GetTaskError`: 500                  |
//! | POST   | `/v1/tasks/`    | 201, the new task        | `CreationError`: 500                 |
//! | GET    | `/v1/tasks/{id}`| 200, the task            | `IdNotFound`: 404                    |
//! | PATCH  | `/v1/tasks/{id}`| 200, nothing             | `IdNotFound`: 404, `DbError`: 500    |

use vstd::prelude::*;
use crate::config::AppConfig;
use crate::decimal::{signed_decimal, to_decimal};
use crate::tasks::domain::{is_random_uuid, Task, TaskError, TaskId, TaskView};
use crate::tasks::model::task_views;

verus! {

/// The statuses that the endpoints answer with.
#[derive(Clone, Copy, Debug, PartialEq, Eq, Structural)]
pub enum StatusCode {
    /// 200, "OK".
    Success,
    /// 201.
    Created,
    /// 404.
    NotFound,
    /// 500.
    InternalServerError,
}

impl StatusCode {
    /// The number of the status.
    pub open spec fn code(self) -> u16 {
        match self {
            StatusCode::Success => 200,
            StatusCode::Created => 201,
            StatusCode::NotFound => 404,
            StatusCode::InternalServerError => 500,
        }
    }

    /// The number of the status.
    pub fn as_u16(&self) -> (code: u16)
        ensures
            code == self.code(),
    {
        match self {
            StatusCode::Success => 200,
            StatusCode::Created => 201,
            StatusCode::NotFound => 404,
            StatusCode::InternalServerError => 500,
        }
    }
}

/// The status that a client gets for a task error: 404 for a task that does
/// not exist, 500 for every failure of the store.
pub open spec fn error_status(error: TaskError) -> StatusCode {
    match error {
        TaskError::IdNotFound => StatusCode::NotFound,
        TaskError::CreationError => StatusCode::InternalServerError,
        TaskError::DbError => StatusCode::InternalServerError,
        TaskError::GetTaskError => StatusCode::InternalServerError,
    }
}

/// The message that a client gets for a task error. It names no cause.
pub open spec fn error_message(error: TaskError) -> Seq<char> {
    match error {
        TaskError::IdNotFound => "Task not found"@,
        TaskError::CreationError => "Could not create task"@,
        TaskError::DbError => "System failure. Please try again later"@,
        TaskError::GetTaskError => "Could not get tasks"@,
    }
}

/// The answer to a request that failed: a status, and the message of the
/// body `{ "message": .. }`.
#[derive(Clone, Copy, Debug, PartialEq, Eq)]
pub struct ErrorResponse {
    pub status: StatusCode,
    pub message: &'static str,
}

impl TaskError {
    /// The answer that a client gets for this error.
    pub fn into_response(self) -> (response: ErrorResponse)
        ensures
            response.status == error_status(self),
            response.message@ == error_message(self),
    {
        let (status, message) = match self {
            TaskError::IdNotFound => (StatusCode::NotFound, "Task not found"),
            TaskError::CreationError => (StatusCode::InternalServerError, "Could not create task"),
            TaskError::DbError => (
                StatusCode::InternalServerError,
                "System failure. Please try again later",
            ),
            TaskError::GetTaskError => (StatusCode::InternalServerError, "Could not get tasks"),
        };
        ErrorResponse { status, message }
    }
}

/// Every failure of the store is answered with 500 and every lookup of a
/// task that does not exist with 404; no error is answered otherwise.
pub proof fn lemma_error_statuses(error: TaskError)
    ensures
        error == TaskError::IdNotFound ==> error_status(error).code() == 404,
        error != TaskError::IdNotFound ==> error_status(error).code() == 500,
{
}

/// The address on which the server listens: every interface of the machine,
/// on the port of the settings.
pub fn bind_address(config: &AppConfig) -> (address: String)
    ensures
        address@ == "0.0.0.0:"@ + signed_decimal(config.server_port as int),
{
    String::from_str("0.0.0.0:").concat(to_decimal(config.server_port).as_str())
}

/// The body of a request that creates a task.
#[derive(Debug, PartialEq, Eq)]
pub struct CreateTask {
    pub name: String,
}

/// A task as a client gets it: `{ "id": .., "name": .., "done": .. }`.
#[derive(Debug, PartialEq, Eq)]
pub struct TaskResponse {
    pub name: String,
    pub id: TaskId,
    pub done: bool,
}

impl View for TaskResponse {
    type V = TaskView;

    open spec fn view(&self) -> TaskView {
        TaskView { id: self.id, name: self.name@, done: self.done }
    }
}

/// The values of a sequence of task answers, position by position.
pub open spec fn response_views(responses: Seq<TaskResponse>) -> Seq<TaskView> {
    Seq::new(responses.len(), |i: int| responses[i]@)
}

impl TaskResponse {
    /// The answer that shows `task`: the same id, name and `done`.
    pub fn from_task(task: &Task) -> (response: Self)
        ensures
            response@ == task@,
    {
        Self { done: task.done, name: task.name.clone(), id: task.id }
    }
}

/// The answer to a request for all tasks, from what the repository listed:
/// the tasks in the order of the listing, or the error of the repository.
pub fn get_tasks(listed: Result<Vec<Task>, TaskError>) -> (answer: Result<
    Vec<TaskResponse>,
    TaskError,
>)
    ensures
        match listed {
            Ok(tasks) => answer matches Ok(responses) && response_views(responses@) == task_views(
                tasks@,
            ),
            Err(error) => answer == Err::<Vec<TaskResponse>, TaskError>(error),
        },
{
    let tasks = listed?;
    let mut responses: Vec<TaskResponse> = Vec::new();
    let mut i: usize = 0;
    while i < tasks.len()
        invariant
            i <= tasks.len(),
            responses.len() == i,
            forall|k: int| 0 <= k < i ==> responses[k]@ == tasks[k]@,
        decreases tasks.len() - i,
    {
        responses.push(TaskResponse::from_task(&tasks[i]));
        i += 1;
    }
    assert(response_views(responses@) =~= task_views(tasks@));
    Ok(responses)
}

/// The task that a request to create one asks for: not done, under a fresh
/// random id, with the name of the request.
pub fn new_task(request: CreateTask) -> (task: Task)
    ensures
        task.name == request.name,
        !task.done,
        is_random_uuid(task.id.0),
{
    Task::new(TaskId::new_v4(), request.name)
}

/// The answer to a request that creates a task, from what the repository
/// said of saving `task`: 201 with the task, or the error of the repository.
pub fn create_task(saved: Result<(), TaskError>, task: &Task) -> (answer: Result<
    (StatusCode, TaskResponse),
    TaskError,
>)
    ensures
        match saved {
            Ok(_) => answer matches Ok(created) && created.0 == StatusCode::Created && created.1@
                == task@,
            Err(error) => answer == Err::<(StatusCode, TaskResponse), TaskError>(error),
        },
{
    saved?;
    Ok((StatusCode::Created, TaskResponse::from_task(task)))
}

/// The answer to a request for one task, from what the repository found:
/// the task, or the error of the repository.
pub fn get_task(found: Result<Task, TaskError>) -> (answer: Result<TaskResponse, TaskError>)
    ensures
        match found {
            Ok(task) => answer matches Ok(response) && response@ == task@,
            Err(error) => answer == Err::<TaskResponse, TaskError>(error),
        },
{
    let task = found?;
    Ok(TaskResponse::from_task(&task))
}

/// The answer to a request that marks a task as done, from what the
/// repository said of the update: 200, or the error of the repository.
pub fn patch_task(updated: Result<(), TaskError>) -> (answer: Result<StatusCode, TaskError>)
    ensures
        match updated {
            Ok(_) => answer == Ok::<StatusCode, TaskError>(StatusCode::Success),
            Err(error) => answer == Err::<StatusCode, TaskError>(error),
        },
{
    updated?;
    Ok(StatusCode::Success)
}

} // verus!
