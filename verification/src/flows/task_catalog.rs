//! The handlers that add task priorities and task statuses to a project.
use vstd::prelude::*;
use crate::dtos::task_priority_dto::CreateTaskPriorityPayload;
use crate::dtos::task_status_dto::CreateTaskStatusPayload;
use crate::flows::{
    finish_internal, finish_invalid, finish_not_found, finish_ok, finishes_err, finishes_invalid,
    finishes_ok, DbFailure, Next, Reply,
};
use crate::validation::outcome;

verus! {

/// The database operations of the catalog handlers.
#[derive(Debug)]
pub enum CatalogOperation {
    /// The project with this id, if there is one.
    FindProject { id: u128 },
    /// Insert a task priority of a project and return it.
    InsertPriority { project_id: u128, name: String },
    /// Insert a task status of a project and return it.
    InsertStatus { project_id: u128, name: String },
}

/// The events of the catalog handlers.
pub enum CatalogEvent<R> {
    Start,
    /// Whether the project exists.
    ProjectFound(Result<bool, DbFailure>),
    Inserted(Result<R, DbFailure>),
}

/// `POST /projects/{id}/task-priorities`: a valid name is added as a task priority
/// of an existing project.
pub fn create_task_priority_step<R>(
    project_id: u128,
    payload: &CreateTaskPriorityPayload,
    event: CatalogEvent<R>,
) -> (n: Next<CatalogOperation, Reply<R>>)
    ensures
        match event {
            CatalogEvent::Start => match outcome(payload.failures()) {
                Err(f) => finishes_invalid(n, f),
                Ok(_) => n matches Next::Run(CatalogOperation::FindProject { id }) && id == project_id,
            },
            CatalogEvent::ProjectFound(Err(_)) => finishes_err(n, 500, "Failed to fetch project"@),
            CatalogEvent::ProjectFound(Ok(false)) => finishes_err(n, 404, "Project not found"@),
            CatalogEvent::ProjectFound(Ok(true)) => n matches Next::Run(
                CatalogOperation::InsertPriority { project_id: p, name },
            ) && p == project_id && name@ == payload.name@,
            CatalogEvent::Inserted(Err(_)) => finishes_err(n, 500, "Failed to create task priority"@),
            CatalogEvent::Inserted(Ok(r)) => finishes_ok(n, 201, "Task priority created successfully"@, Some(r)),
        },
{
    match event {
        CatalogEvent::Start => match payload.validate() {
            Err(e) => finish_invalid(&e),
            Ok(()) => Next::Run(CatalogOperation::FindProject { id: project_id }),
        },
        CatalogEvent::ProjectFound(Err(_)) => finish_internal("Failed to fetch project"),
        CatalogEvent::ProjectFound(Ok(false)) => finish_not_found("Project not found"),
        CatalogEvent::ProjectFound(Ok(true)) => Next::Run(
            CatalogOperation::InsertPriority { project_id, name: payload.name.clone() },
        ),
        CatalogEvent::Inserted(Err(_)) => finish_internal("Failed to create task priority"),
        CatalogEvent::Inserted(Ok(r)) => finish_ok(201, "Task priority created successfully", Some(r)),
    }
}

/// `POST /projects/{id}/task-statuses`: a valid name is added as a task status of
/// an existing project.
pub fn create_task_status_step<R>(
    project_id: u128,
    payload: &CreateTaskStatusPayload,
    event: CatalogEvent<R>,
) -> (n: Next<CatalogOperation, Reply<R>>)
    ensures
        match event {
            CatalogEvent::Start => match outcome(payload.failures()) {
                Err(f) => finishes_invalid(n, f),
                Ok(_) => n matches Next::Run(CatalogOperation::FindProject { id }) && id == project_id,
            },
            CatalogEvent::ProjectFound(Err(_)) => finishes_err(n, 500, "Failed to fetch project"@),
            CatalogEvent::ProjectFound(Ok(false)) => finishes_err(n, 404, "Project not found"@),
            CatalogEvent::ProjectFound(Ok(true)) => n matches Next::Run(
                CatalogOperation::InsertStatus { project_id: p, name },
            ) && p == project_id && name@ == payload.name@,
            CatalogEvent::Inserted(Err(_)) => finishes_err(n, 500, "Failed to create task status"@),
            CatalogEvent::Inserted(Ok(r)) => finishes_ok(n, 201, "Task status created successfully"@, Some(r)),
        },
{
    match event {
        CatalogEvent::Start => match payload.validate() {
            Err(e) => finish_invalid(&e),
            Ok(()) => Next::Run(CatalogOperation::FindProject { id: project_id }),
        },
        CatalogEvent::ProjectFound(Err(_)) => finish_internal("Failed to fetch project"),
        CatalogEvent::ProjectFound(Ok(false)) => finish_not_found("Project not found"),
        CatalogEvent::ProjectFound(Ok(true)) => Next::Run(
            CatalogOperation::InsertStatus { project_id, name: payload.name.clone() },
        ),
        CatalogEvent::Inserted(Err(_)) => finish_internal("Failed to create task status"),
        CatalogEvent::Inserted(Ok(r)) => finish_ok(201, "Task status created successfully", Some(r)),
    }
}

} // verus!
