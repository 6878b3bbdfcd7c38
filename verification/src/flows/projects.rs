//! The project handlers: create, fetch, change, delete, and list a project's tasks.
use vstd::prelude::*;
use crate::dtos::project_dto::{CreateProjectPayload, UpdateProjectPayload};
use crate::dtos::task_dto::{PriorityFilter, StatusFilter, TaskQuery};
use crate::flows::{
    copy_opt_text, finish_forbidden, finish_internal, finish_invalid, finish_not_found, finish_ok, finishes_err,
    finishes_invalid, finishes_ok, opt_text, DbFailure, Next, Reply,
};
use crate::models::{TaskPriority, TaskStatus};
use crate::validation::outcome;

verus! {

/// The database operations of the project handlers.
#[derive(Debug)]
pub enum ProjectQuery {
    /// Insert a project and return it.
    Insert { workspace_id: u128, name: String, description: Option<String> },
    /// The project with this id, if there is one (with the owner of its workspace,
    /// where the handler needs it).
    Find { id: u128 },
    /// Set the given fields of a project (absent ones stay) and return it.
    Update { id: u128, name: Option<String>, description: Option<String> },
    /// Delete a project.
    Delete { id: u128 },
    /// A page of a project's tasks with this status and priority, newest first.
    ListTasks {
        project_id: u128,
        status: StatusFilter,
        priority: PriorityFilter,
        limit: i32,
        offset: i32,
    },
}

/// The events of `create_project`.
pub enum CreateProjectEvent<P> {
    Start,
    Inserted(Result<P, DbFailure>),
}

/// `POST /projects`: a valid payload is inserted as a project.
pub fn create_project_step<P>(payload: &CreateProjectPayload, event: CreateProjectEvent<P>) -> (n: Next<ProjectQuery, Reply<P>>)
    ensures
        match event {
            CreateProjectEvent::Start => match outcome(payload.failures()) {
                Err(f) => finishes_invalid(n, f),
                Ok(_) => n matches Next::Run(ProjectQuery::Insert { workspace_id, name, description })
                    && workspace_id == payload.workspace_id && name@ == payload.name@
                    && opt_text(description) == opt_text(payload.description),
            },
            CreateProjectEvent::Inserted(Err(_)) => finishes_err(n, 500, "Failed to create project"@),
            CreateProjectEvent::Inserted(Ok(p)) => finishes_ok(n, 201, "Project created successfully"@, Some(p)),
        },
{
    match event {
        CreateProjectEvent::Start => match payload.validate() {
            Err(e) => finish_invalid(&e),
            Ok(()) => Next::Run(
                ProjectQuery::Insert {
                    workspace_id: payload.workspace_id,
                    name: payload.name.clone(),
                    description: copy_opt_text(&payload.description),
                },
            ),
        },
        CreateProjectEvent::Inserted(Err(_)) => finish_internal("Failed to create project"),
        CreateProjectEvent::Inserted(Ok(p)) => finish_ok(201, "Project created successfully", Some(p)),
    }
}

/// The events of `get_project_by_id`.
pub enum GetProjectEvent<P> {
    Start,
    Found(Result<Option<P>, DbFailure>),
}

/// `GET /projects/{id}`: the project with the id.
pub fn get_project_by_id_step<P>(id: u128, event: GetProjectEvent<P>) -> (n: Next<ProjectQuery, Reply<P>>)
    ensures
        match event {
            GetProjectEvent::Start => n matches Next::Run(ProjectQuery::Find { id: i }) && i == id,
            GetProjectEvent::Found(Err(_)) => finishes_err(n, 500, "Failed to query project"@),
            GetProjectEvent::Found(Ok(None)) => finishes_err(n, 404, "Project not found"@),
            GetProjectEvent::Found(Ok(Some(p))) => finishes_ok(n, 200, "Project fetched successfully"@, Some(p)),
        },
{
    match event {
        GetProjectEvent::Start => Next::Run(ProjectQuery::Find { id }),
        GetProjectEvent::Found(Err(_)) => finish_internal("Failed to query project"),
        GetProjectEvent::Found(Ok(None)) => finish_not_found("Project not found"),
        GetProjectEvent::Found(Ok(Some(p))) => finish_ok(200, "Project fetched successfully", Some(p)),
    }
}

/// The events of `update_project`.
pub enum UpdateProjectEvent<P> {
    Start,
    /// The owner of the workspace of the project with the id, if there is such a project.
    Found(Result<Option<u128>, DbFailure>),
    Updated(Result<P, DbFailure>),
}

/// `PUT /projects/{id}`: the given fields of a valid payload are set on the
/// project, by the owner of its workspace only.
pub fn update_project_step<P>(
    user_id: u128,
    id: u128,
    payload: &UpdateProjectPayload,
    event: UpdateProjectEvent<P>,
) -> (n: Next<ProjectQuery, Reply<P>>)
    ensures
        match event {
            UpdateProjectEvent::Start => match outcome(payload.failures()) {
                Err(f) => finishes_invalid(n, f),
                Ok(_) => n matches Next::Run(ProjectQuery::Find { id: i }) && i == id,
            },
            UpdateProjectEvent::Found(Err(_)) => finishes_err(n, 500, "Failed to query project"@),
            UpdateProjectEvent::Found(Ok(None)) => finishes_err(n, 404, "Project not found"@),
            UpdateProjectEvent::Found(Ok(Some(owner))) => if owner == user_id {
                n matches Next::Run(ProjectQuery::Update { id: i, name, description }) && i == id
                    && opt_text(name) == opt_text(payload.name) && opt_text(description) == opt_text(
                    payload.description,
                )
            } else {
                finishes_err(n, 403, "You do not have permission to update this project"@)
            },
            UpdateProjectEvent::Updated(Err(_)) => finishes_err(n, 500, "Failed to update project"@),
            UpdateProjectEvent::Updated(Ok(p)) => finishes_ok(n, 200, "Project updated successfully"@, Some(p)),
        },
{
    match event {
        UpdateProjectEvent::Start => match payload.validate() {
            Err(e) => finish_invalid(&e),
            Ok(()) => Next::Run(ProjectQuery::Find { id }),
        },
        UpdateProjectEvent::Found(Err(_)) => finish_internal("Failed to query project"),
        UpdateProjectEvent::Found(Ok(None)) => finish_not_found("Project not found"),
        UpdateProjectEvent::Found(Ok(Some(owner))) if owner != user_id => finish_forbidden(
            "You do not have permission to update this project",
        ),
        UpdateProjectEvent::Found(Ok(Some(_))) => Next::Run(
            ProjectQuery::Update {
                id,
                name: copy_opt_text(&payload.name),
                description: copy_opt_text(&payload.description),
            },
        ),
        UpdateProjectEvent::Updated(Err(_)) => finish_internal("Failed to update project"),
        UpdateProjectEvent::Updated(Ok(p)) => finish_ok(200, "Project updated successfully", Some(p)),
    }
}

/// The events of `delete_project`.
pub enum DeleteProjectEvent {
    Start,
    /// The owner of the workspace of the project with the id, if there is such a project.
    Found(Result<Option<u128>, DbFailure>),
    Deleted(Result<(), DbFailure>),
}

/// `DELETE /projects/{id}`: the project is deleted, by the owner of its workspace only.
pub fn delete_project_step(user_id: u128, id: u128, event: DeleteProjectEvent) -> (n: Next<ProjectQuery, Reply<()>>)
    ensures
        match event {
            DeleteProjectEvent::Start => n matches Next::Run(ProjectQuery::Find { id: i }) && i == id,
            DeleteProjectEvent::Found(Err(_)) => finishes_err(n, 500, "Failed to query project"@),
            DeleteProjectEvent::Found(Ok(None)) => finishes_err(n, 404, "Project not found"@),
            DeleteProjectEvent::Found(Ok(Some(owner))) => if owner == user_id {
                n matches Next::Run(ProjectQuery::Delete { id: i }) && i == id
            } else {
                finishes_err(n, 403, "You do not have permission to delete this project"@)
            },
            DeleteProjectEvent::Deleted(Err(_)) => finishes_err(n, 500, "Failed to delete project"@),
            DeleteProjectEvent::Deleted(Ok(())) => finishes_ok(n, 200, "Project deleted successfully"@, None),
        },
{
    match event {
        DeleteProjectEvent::Start => Next::Run(ProjectQuery::Find { id }),
        DeleteProjectEvent::Found(Err(_)) => finish_internal("Failed to query project"),
        DeleteProjectEvent::Found(Ok(None)) => finish_not_found("Project not found"),
        DeleteProjectEvent::Found(Ok(Some(owner))) if owner != user_id => finish_forbidden(
            "You do not have permission to delete this project",
        ),
        DeleteProjectEvent::Found(Ok(Some(_))) => Next::Run(ProjectQuery::Delete { id }),
        DeleteProjectEvent::Deleted(Err(_)) => finish_internal("Failed to delete project"),
        DeleteProjectEvent::Deleted(Ok(())) => finish_ok(200, "Project deleted successfully", None),
    }
}

/// The events of `get_all_tasks_for_project`.
pub enum ProjectTasksEvent<T> {
    Start,
    /// Whether a project with the id exists.
    Found(Result<bool, DbFailure>),
    Listed(Result<Vec<T>, DbFailure>),
}

/// `GET /projects/{id}/tasks?status=..&priority=..&page=..&page_size=..`: a page of
/// the project's tasks with the status and priority asked for (`Todo` and `Medium`
/// where none is given), `page_size` tasks (20 by default) after skipping
/// `(page - 1) * page_size` (page 1 by default). That window must fit in `i32`
/// once the project is found; `TaskQuery::page_window` tells whether it does.
pub fn get_all_tasks_for_project_step<T>(
    project_id: u128,
    query: &TaskQuery,
    event: ProjectTasksEvent<T>,
) -> (n: Next<ProjectQuery, Reply<Vec<T>>>)
    requires
        event matches ProjectTasksEvent::Found(Ok(true)) ==> query.window_fits(),
    ensures
        match event {
            ProjectTasksEvent::Start => n matches Next::Run(ProjectQuery::Find { id }) && id == project_id,
            ProjectTasksEvent::Found(Err(_)) => finishes_err(n, 500, "Failed to query project"@),
            ProjectTasksEvent::Found(Ok(false)) => finishes_err(n, 404, "Project not found"@),
            ProjectTasksEvent::Found(Ok(true)) => n matches Next::Run(
                ProjectQuery::ListTasks { project_id: p, status, priority, limit, offset },
            ) && p == project_id && status == (match query.status {
                Some(s) => StatusFilter::Given(s),
                None => StatusFilter::Default(TaskStatus::Todo),
            }) && priority == (match query.priority {
                Some(s) => PriorityFilter::Given(s),
                None => PriorityFilter::Default(TaskPriority::Medium),
            }) && limit == query.spec_page_size() && offset == query.spec_offset(),
            ProjectTasksEvent::Listed(Err(_)) => finishes_err(n, 500, "Failed to query tasks"@),
            ProjectTasksEvent::Listed(Ok(ts)) => finishes_ok(n, 200, "Tasks fetched successfully"@, Some(ts)),
        },
        event matches ProjectTasksEvent::Found(Ok(true)) ==> (n matches Next::Run(
            ProjectQuery::ListTasks { limit, offset, .. },
        ) && (query.page_size matches Some(s) ==> limit == s) && (query.page_size is None ==> limit
            == 20) && (query.page matches Some(p) ==> offset == (p - 1) * limit) && (query.page is None
            ==> offset == 0)),
{
    match event {
        ProjectTasksEvent::Start => Next::Run(ProjectQuery::Find { id: project_id }),
        ProjectTasksEvent::Found(Err(_)) => finish_internal("Failed to query project"),
        ProjectTasksEvent::Found(Ok(false)) => finish_not_found("Project not found"),
        ProjectTasksEvent::Found(Ok(true)) => {
            let (limit, offset) = match query.page_window() {
                Some(w) => w,
                None => {
                    proof {
                        assert(false);
                    }
                    (0, 0)
                },
            };
            Next::Run(
                ProjectQuery::ListTasks {
                    project_id,
                    status: query.status_filter(),
                    priority: query.priority_filter(),
                    limit,
                    offset,
                },
            )
        },
        ProjectTasksEvent::Listed(Err(_)) => finish_internal("Failed to query tasks"),
        ProjectTasksEvent::Listed(Ok(ts)) => finish_ok(200, "Tasks fetched successfully", Some(ts)),
    }
}

} // verus!
