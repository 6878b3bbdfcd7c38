//! The workspace handlers: create, list, rename, delete, and list a workspace's projects.
use vstd::prelude::*;
use crate::dtos::workspace_dto::{CreateWorkspacePayload, UpdateWorkspacePayload};
use crate::flows::{
    finish_internal, finish_invalid, finish_not_found, finish_ok, finishes_err, finishes_invalid,
    finishes_ok, DbFailure, Next, Reply,
};
use crate::response::ApiResponse;
use crate::validation::outcome;

verus! {

/// The database operations of the workspace handlers.
#[derive(Debug)]
pub enum WorkspaceQuery {
    /// Insert a workspace and return it.
    Insert { name: String, owner_id: u128 },
    /// The workspaces a user owns, newest first.
    ListOwned { owner_id: u128 },
    /// The workspace with this id, if this user owns it.
    FindOwned { id: u128, owner_id: u128 },
    /// Rename the workspace with this id owned by this user, and return it.
    Rename { id: u128, owner_id: u128, name: String },
    /// Delete the workspace with this id owned by this user.
    Delete { id: u128, owner_id: u128 },
    /// The projects of a workspace, newest first.
    ListProjects { workspace_id: u128 },
}

/// The events of `create_workspace`.
pub enum CreateWorkspaceEvent<W> {
    Start,
    Inserted(Result<W, DbFailure>),
}

/// `POST /workspaces`: a valid payload is inserted as a workspace of the user.
pub fn create_workspace_step<W>(
    user_id: u128,
    payload: &CreateWorkspacePayload,
    event: CreateWorkspaceEvent<W>,
) -> (n: Next<WorkspaceQuery, Reply<W>>)
    ensures
        match event {
            CreateWorkspaceEvent::Start => match outcome(payload.failures()) {
                Err(f) => finishes_invalid(n, f),
                Ok(_) => n matches Next::Run(WorkspaceQuery::Insert { name, owner_id })
                    && name@ == payload.name@ && owner_id == user_id,
            },
            CreateWorkspaceEvent::Inserted(Err(_)) => finishes_err(n, 500, "Failed to create workspace"@),
            CreateWorkspaceEvent::Inserted(Ok(w)) => finishes_ok(n, 201, "Workspace created successfully"@, Some(w)),
        },
{
    match event {
        CreateWorkspaceEvent::Start => match payload.validate() {
            Err(e) => finish_invalid(&e),
            Ok(()) => Next::Run(WorkspaceQuery::Insert { name: payload.name.clone(), owner_id: user_id }),
        },
        CreateWorkspaceEvent::Inserted(Err(_)) => finish_internal("Failed to create workspace"),
        CreateWorkspaceEvent::Inserted(Ok(w)) => finish_ok(201, "Workspace created successfully", Some(w)),
    }
}

/// The events of `get_workspaces`.
pub enum GetWorkspacesEvent<W> {
    Start,
    Listed(Result<Vec<W>, DbFailure>),
}

/// `GET /workspaces`: the workspaces the user owns.
pub fn get_workspaces_step<W>(user_id: u128, event: GetWorkspacesEvent<W>) -> (n: Next<WorkspaceQuery, Reply<Vec<W>>>)
    ensures
        match event {
            GetWorkspacesEvent::Start => n matches Next::Run(WorkspaceQuery::ListOwned { owner_id })
                && owner_id == user_id,
            GetWorkspacesEvent::Listed(Err(_)) => finishes_err(n, 500, "Failed to retrieve workspaces"@),
            GetWorkspacesEvent::Listed(Ok(ws)) => finishes_ok(n, 200, "Workspaces retrieved successfully"@, Some(ws)),
        },
{
    match event {
        GetWorkspacesEvent::Start => Next::Run(WorkspaceQuery::ListOwned { owner_id: user_id }),
        GetWorkspacesEvent::Listed(Err(_)) => finish_internal("Failed to retrieve workspaces"),
        GetWorkspacesEvent::Listed(Ok(ws)) => finish_ok(200, "Workspaces retrieved successfully", Some(ws)),
    }
}

/// The events of `update_workspace`.
pub enum UpdateWorkspaceEvent<W> {
    Start,
    /// Whether the user owns a workspace with the id.
    Found(Result<bool, DbFailure>),
    Renamed(Result<W, DbFailure>),
}

/// `PUT /workspaces/{id}`: a valid new name is given to a workspace the user owns.
pub fn update_workspace_step<W>(
    user_id: u128,
    id: u128,
    payload: &UpdateWorkspacePayload,
    event: UpdateWorkspaceEvent<W>,
) -> (n: Next<WorkspaceQuery, Reply<W>>)
    ensures
        match event {
            UpdateWorkspaceEvent::Start => match outcome(payload.failures()) {
                Err(f) => finishes_invalid(n, f),
                Ok(_) => n matches Next::Run(WorkspaceQuery::FindOwned { id: i, owner_id })
                    && i == id && owner_id == user_id,
            },
            UpdateWorkspaceEvent::Found(Err(_)) => finishes_err(n, 500, "Failed to retrieve workspace"@),
            UpdateWorkspaceEvent::Found(Ok(false)) => finishes_err(n, 404, "Workspace not found"@),
            UpdateWorkspaceEvent::Found(Ok(true)) => n matches Next::Run(
                WorkspaceQuery::Rename { id: i, owner_id, name },
            ) && i == id && owner_id == user_id && name@ == payload.name@,
            UpdateWorkspaceEvent::Renamed(Err(_)) => finishes_err(n, 500, "Failed to update workspace"@),
            UpdateWorkspaceEvent::Renamed(Ok(w)) => finishes_ok(n, 200, "Workspace updated successfully"@, Some(w)),
        },
{
    match event {
        UpdateWorkspaceEvent::Start => match payload.validate() {
            Err(e) => finish_invalid(&e),
            Ok(()) => Next::Run(WorkspaceQuery::FindOwned { id, owner_id: user_id }),
        },
        UpdateWorkspaceEvent::Found(Err(_)) => finish_internal("Failed to retrieve workspace"),
        UpdateWorkspaceEvent::Found(Ok(false)) => finish_not_found("Workspace not found"),
        UpdateWorkspaceEvent::Found(Ok(true)) => Next::Run(
            WorkspaceQuery::Rename { id, owner_id: user_id, name: payload.name.clone() },
        ),
        UpdateWorkspaceEvent::Renamed(Err(_)) => finish_internal("Failed to update workspace"),
        UpdateWorkspaceEvent::Renamed(Ok(w)) => finish_ok(200, "Workspace updated successfully", Some(w)),
    }
}

/// The events of `delete_workspace`.
pub enum DeleteWorkspaceEvent {
    Start,
    /// The name of the user's workspace with the id, if there is one.
    Found(Result<Option<String>, DbFailure>),
    /// The name found, and the outcome of the deletion.
    Deleted(String, Result<(), DbFailure>),
}

/// The message that confirms the deletion of a named workspace.
pub open spec fn deleted_message(name: Seq<char>) -> Seq<char> {
    "Workspace named: "@ + name + " deleted successfully"@
}

/// `DELETE /workspaces/{id}`: a workspace the user owns is deleted.
pub fn delete_workspace_step(user_id: u128, id: u128, event: DeleteWorkspaceEvent) -> (n: Next<WorkspaceQuery, Reply<()>>)
    ensures
        match event {
            DeleteWorkspaceEvent::Start => n matches Next::Run(WorkspaceQuery::FindOwned { id: i, owner_id })
                && i == id && owner_id == user_id,
            DeleteWorkspaceEvent::Found(Err(_)) => finishes_err(n, 500, "Failed to retrieve workspace"@),
            DeleteWorkspaceEvent::Found(Ok(None)) => finishes_err(n, 404, "Workspace not found"@),
            DeleteWorkspaceEvent::Found(Ok(Some(_))) => n matches Next::Run(WorkspaceQuery::Delete { id: i, owner_id })
                && i == id && owner_id == user_id,
            DeleteWorkspaceEvent::Deleted(_, Err(_)) => finishes_err(n, 500, "Failed to delete workspace"@),
            DeleteWorkspaceEvent::Deleted(name, Ok(())) => finishes_ok(n, 200, deleted_message(name@), None),
        },
{
    match event {
        DeleteWorkspaceEvent::Start => Next::Run(WorkspaceQuery::FindOwned { id, owner_id: user_id }),
        DeleteWorkspaceEvent::Found(Err(_)) => finish_internal("Failed to retrieve workspace"),
        DeleteWorkspaceEvent::Found(Ok(None)) => finish_not_found("Workspace not found"),
        DeleteWorkspaceEvent::Found(Ok(Some(_))) => Next::Run(WorkspaceQuery::Delete { id, owner_id: user_id }),
        DeleteWorkspaceEvent::Deleted(_, Err(_)) => finish_internal("Failed to delete workspace"),
        DeleteWorkspaceEvent::Deleted(name, Ok(())) => {
            let mut message = String::from_str("Workspace named: ");
            message.append(name.as_str());
            message.append(" deleted successfully");
            Next::Finish(Ok(ApiResponse::new(true, 200, message, None)))
        },
    }
}

/// The events of `get_workspace_projects`.
pub enum WorkspaceProjectsEvent<P> {
    Start,
    /// Whether the user owns a workspace with the id.
    Found(Result<bool, DbFailure>),
    Listed(Result<Vec<P>, DbFailure>),
}

/// `GET /workspaces/{id}/projects`: the projects of a workspace the user owns.
pub fn get_workspace_projects_step<P>(
    user_id: u128,
    workspace_id: u128,
    event: WorkspaceProjectsEvent<P>,
) -> (n: Next<WorkspaceQuery, Reply<Vec<P>>>)
    ensures
        match event {
            WorkspaceProjectsEvent::Start => n matches Next::Run(WorkspaceQuery::FindOwned { id, owner_id })
                && id == workspace_id && owner_id == user_id,
            WorkspaceProjectsEvent::Found(Err(_)) => finishes_err(n, 500, "Failed to retrieve workspace"@),
            WorkspaceProjectsEvent::Found(Ok(false)) => finishes_err(n, 404, "Workspace not found"@),
            WorkspaceProjectsEvent::Found(Ok(true)) => n matches Next::Run(WorkspaceQuery::ListProjects { workspace_id: w })
                && w == workspace_id,
            WorkspaceProjectsEvent::Listed(Err(_)) => finishes_err(n, 500, "Failed to retrieve projects"@),
            WorkspaceProjectsEvent::Listed(Ok(ps)) => finishes_ok(n, 200, "Projects retrieved successfully"@, Some(ps)),
        },
{
    match event {
        WorkspaceProjectsEvent::Start => Next::Run(WorkspaceQuery::FindOwned { id: workspace_id, owner_id: user_id }),
        WorkspaceProjectsEvent::Found(Err(_)) => finish_internal("Failed to retrieve workspace"),
        WorkspaceProjectsEvent::Found(Ok(false)) => finish_not_found("Workspace not found"),
        WorkspaceProjectsEvent::Found(Ok(true)) => Next::Run(WorkspaceQuery::ListProjects { workspace_id }),
        WorkspaceProjectsEvent::Listed(Err(_)) => finish_internal("Failed to retrieve projects"),
        WorkspaceProjectsEvent::Listed(Ok(ps)) => finish_ok(200, "Projects retrieved successfully", Some(ps)),
    }
}

} // verus!
