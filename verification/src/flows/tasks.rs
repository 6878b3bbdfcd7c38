//! The task handlers: create, change, delete and fetch.
use vstd::prelude::*;
use crate::api_error::ApiError;
use crate::dtos::task_dto::{CreateTaskPayload, UpdateTaskPayload};
use crate::flows::{
    copy_opt_text, finish_internal, finish_invalid, finish_not_found, finish_ok, finishes_err,
    finishes_invalid, finishes_ok, opt_text, DbFailure, Next, Reply,
};
use crate::validation::outcome;

verus! {

/// The database operations of the task handlers.
#[derive(Debug)]
pub enum TaskOperation {
    /// The project with this id, if there is one.
    FindProject { id: u128 },
    /// Insert a task and return it.
    Insert {
        project_id: u128,
        title: String,
        description: Option<String>,
        task_status: i64,
        task_priority: i64,
        owner_id: u128,
        due_date: Option<String>,
    },
    /// The task with this id, if there is one.
    Find { id: u128 },
    /// Set the given fields of a task (absent ones stay) and return it.
    Update {
        id: u128,
        title: Option<String>,
        description: Option<String>,
        task_status: Option<i64>,
        task_priority: Option<i64>,
        due_date: Option<String>,
        position: Option<i32>,
    },
    /// Delete a task.
    Delete { id: u128 },
}

/// The events of `create_task`.
pub enum CreateTaskEvent<T> {
    Start,
    /// Whether the project named in the payload exists.
    ProjectFound(Result<bool, DbFailure>),
    Inserted(Result<T, DbFailure>),
}

/// `POST /tasks`: a valid payload is inserted as a task of an existing project,
/// owned by the user.
pub fn create_task_step<T>(user_id: u128, payload: &CreateTaskPayload, event: CreateTaskEvent<T>) -> (n: Next<TaskOperation, Reply<T>>)
    ensures
        match event {
            CreateTaskEvent::Start => match outcome(payload.failures()) {
                Err(f) => finishes_invalid(n, f),
                Ok(_) => n matches Next::Run(TaskOperation::FindProject { id }) && id == payload.project_id,
            },
            CreateTaskEvent::ProjectFound(Err(_)) => finishes_err(n, 500, "Failed to fetch project"@),
            CreateTaskEvent::ProjectFound(Ok(false)) => finishes_err(n, 404, "Project not found"@),
            CreateTaskEvent::ProjectFound(Ok(true)) => n matches Next::Run(
                TaskOperation::Insert {
                    project_id,
                    title,
                    description,
                    task_status,
                    task_priority,
                    owner_id,
                    due_date,
                },
            ) && project_id == payload.project_id && title@ == payload.title@
                && opt_text(description) == opt_text(payload.description)
                && task_status == payload.task_status && task_priority == payload.task_priority
                && owner_id == user_id && opt_text(due_date) == opt_text(payload.due_date),
            CreateTaskEvent::Inserted(Err(_)) => finishes_err(n, 500, "Failed to create task"@),
            CreateTaskEvent::Inserted(Ok(t)) => finishes_ok(n, 201, "Task created successfully"@, Some(t)),
        },
{
    match event {
        CreateTaskEvent::Start => match payload.validate() {
            Err(e) => finish_invalid(&e),
            Ok(()) => Next::Run(TaskOperation::FindProject { id: payload.project_id }),
        },
        CreateTaskEvent::ProjectFound(Err(_)) => finish_internal("Failed to fetch project"),
        CreateTaskEvent::ProjectFound(Ok(false)) => finish_not_found("Project not found"),
        CreateTaskEvent::ProjectFound(Ok(true)) => Next::Run(
            TaskOperation::Insert {
                project_id: payload.project_id,
                title: payload.title.clone(),
                description: copy_opt_text(&payload.description),
                task_status: payload.task_status,
                task_priority: payload.task_priority,
                owner_id: user_id,
                due_date: copy_opt_text(&payload.due_date),
            },
        ),
        CreateTaskEvent::Inserted(Err(_)) => finish_internal("Failed to create task"),
        CreateTaskEvent::Inserted(Ok(t)) => finish_ok(201, "Task created successfully", Some(t)),
    }
}

/// The events of `update_task`.
pub enum UpdateTaskEvent<T> {
    Start,
    /// The owner of the task with the id, if there is such a task.
    Found(Result<Option<u128>, DbFailure>),
    Updated(Result<T, DbFailure>),
}

/// `PUT /tasks/{id}`: the given fields of a valid payload are set on a task the
/// user owns; another user's task is answered as not found.
pub fn update_task_step<T>(user_id: u128, id: u128, payload: &UpdateTaskPayload, event: UpdateTaskEvent<T>) -> (n: Next<TaskOperation, Reply<T>>)
    ensures
        match event {
            UpdateTaskEvent::Start => match outcome(payload.failures()) {
                Err(f) => finishes_invalid(n, f),
                Ok(_) => n matches Next::Run(TaskOperation::Find { id: i }) && i == id,
            },
            UpdateTaskEvent::Found(Err(_)) => finishes_err(n, 500, "Failed to fetch task"@),
            UpdateTaskEvent::Found(Ok(None)) => finishes_err(n, 404, "Task not found"@),
            UpdateTaskEvent::Found(Ok(Some(owner))) => if owner != user_id {
                finishes_err(n, 404, "Task not found"@)
            } else {
                n matches Next::Run(
                TaskOperation::Update {
                    id: i,
                    title,
                    description,
                    task_status,
                    task_priority,
                    due_date,
                    position,
                },
            ) && i == id && opt_text(title) == opt_text(payload.title)
                && opt_text(description) == opt_text(payload.description)
                && task_status == payload.task_status && task_priority == payload.task_priority
                && opt_text(due_date) == opt_text(payload.due_date) && position == payload.position
            },
            UpdateTaskEvent::Updated(Err(_)) => finishes_err(n, 500, "Failed to update task"@),
            UpdateTaskEvent::Updated(Ok(t)) => finishes_ok(n, 200, "Task updated successfully"@, Some(t)),
        },
{
    match event {
        UpdateTaskEvent::Start => match payload.validate() {
            Err(e) => finish_invalid(&e),
            Ok(()) => Next::Run(TaskOperation::Find { id }),
        },
        UpdateTaskEvent::Found(Err(_)) => finish_internal("Failed to fetch task"),
        UpdateTaskEvent::Found(Ok(None)) => finish_not_found("Task not found"),
        UpdateTaskEvent::Found(Ok(Some(owner))) if owner != user_id => finish_not_found("Task not found"),
        UpdateTaskEvent::Found(Ok(Some(_))) => Next::Run(
            TaskOperation::Update {
                id,
                title: copy_opt_text(&payload.title),
                description: copy_opt_text(&payload.description),
                task_status: payload.task_status,
                task_priority: payload.task_priority,
                due_date: copy_opt_text(&payload.due_date),
                position: payload.position,
            },
        ),
        UpdateTaskEvent::Updated(Err(_)) => finish_internal("Failed to update task"),
        UpdateTaskEvent::Updated(Ok(t)) => finish_ok(200, "Task updated successfully", Some(t)),
    }
}

/// The message that refuses the deletion of someone else's task.
pub open spec fn forbidden_delete_message() -> Seq<char> {
    "You do not have permission to delete this"@ + " task"@
}

/// The events of `delete_task`.
pub enum DeleteTaskEvent {
    Start,
    /// The owner of the task with the id, if there is such a task.
    Found(Result<Option<u128>, DbFailure>),
    Deleted(Result<(), DbFailure>),
}

/// `DELETE /tasks/{id}`: the task is deleted, by its owner only.
pub fn delete_task_step(user_id: u128, id: u128, event: DeleteTaskEvent) -> (n: Next<TaskOperation, Reply<()>>)
    ensures
        match event {
            DeleteTaskEvent::Start => n matches Next::Run(TaskOperation::Find { id: i }) && i == id,
            DeleteTaskEvent::Found(Err(_)) => finishes_err(n, 500, "Failed to fetch task"@),
            DeleteTaskEvent::Found(Ok(None)) => finishes_err(n, 404, "Task not found"@),
            DeleteTaskEvent::Found(Ok(Some(owner))) => if owner == user_id {
                n matches Next::Run(TaskOperation::Delete { id: i }) && i == id
            } else {
                finishes_err(n, 403, forbidden_delete_message())
            },
            DeleteTaskEvent::Deleted(Err(_)) => finishes_err(n, 500, "Failed to delete task"@),
            DeleteTaskEvent::Deleted(Ok(())) => finishes_ok(n, 200, "Task deleted successfully"@, None),
        },
{
    match event {
        DeleteTaskEvent::Start => Next::Run(TaskOperation::Find { id }),
        DeleteTaskEvent::Found(Err(_)) => finish_internal("Failed to fetch task"),
        DeleteTaskEvent::Found(Ok(None)) => finish_not_found("Task not found"),
        DeleteTaskEvent::Found(Ok(Some(owner))) => {
            if owner != user_id {
                let mut message = String::from_str("You do not have permission to delete this");
                message.append(" task");
                Next::Finish(Err(ApiError::Forbidden(message)))
            } else {
                Next::Run(TaskOperation::Delete { id })
            }
        },
        DeleteTaskEvent::Deleted(Err(_)) => finish_internal("Failed to delete task"),
        DeleteTaskEvent::Deleted(Ok(())) => finish_ok(200, "Task deleted successfully", None),
    }
}

/// The events of `get_task_by_id`.
pub enum GetTaskEvent<T> {
    Start,
    /// The owner of the task with the id and the task, if there is such a task.
    Found(Result<Option<(u128, T)>, DbFailure>),
}

/// `GET /tasks/{id}`: the task with the id, if the user owns it; another user's
/// task is answered as not found.
pub fn get_task_by_id_step<T>(user_id: u128, id: u128, event: GetTaskEvent<T>) -> (n: Next<TaskOperation, Reply<T>>)
    ensures
        match event {
            GetTaskEvent::Start => n matches Next::Run(TaskOperation::Find { id: i }) && i == id,
            GetTaskEvent::Found(Err(_)) => finishes_err(n, 500, "Failed to fetch task"@),
            GetTaskEvent::Found(Ok(None)) => finishes_err(n, 404, "Task not found"@),
            GetTaskEvent::Found(Ok(Some((owner, t)))) => if owner == user_id {
                finishes_ok(n, 200, "Task retrieved successfully"@, Some(t))
            } else {
                finishes_err(n, 404, "Task not found"@)
            },
        },
{
    match event {
        GetTaskEvent::Start => Next::Run(TaskOperation::Find { id }),
        GetTaskEvent::Found(Err(_)) => finish_internal("Failed to fetch task"),
        GetTaskEvent::Found(Ok(None)) => finish_not_found("Task not found"),
        GetTaskEvent::Found(Ok(Some((owner, t)))) => {
            if owner == user_id {
                finish_ok(200, "Task retrieved successfully", Some(t))
            } else {
                finish_not_found("Task not found")
            }
        },
    }
}

} // verus!
