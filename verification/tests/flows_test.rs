use sprintly::api_error::ApiError;
use sprintly::config::{DevMode, EnvConfig};
use sprintly::dtos::auth_dto::RegisterUserDto;
use sprintly::dtos::project_dto::{CreateProjectPayload, UpdateProjectPayload};
use sprintly::dtos::task_dto::{CreateTaskPayload, PriorityFilter, StatusFilter, TaskQuery, UpdateTaskPayload};
use sprintly::dtos::task_priority_dto::CreateTaskPriorityPayload;
use sprintly::dtos::task_status_dto::CreateTaskStatusPayload;
use sprintly::dtos::workspace_dto::{CreateWorkspacePayload, UpdateWorkspacePayload};
use sprintly::flows::auth::{register_user_step, RegisterEvent, RegisterOperation, RegisterReply, SameSitePolicy};
use sprintly::flows::projects::{
    create_project_step, delete_project_step, get_all_tasks_for_project_step, get_project_by_id_step,
    update_project_step, CreateProjectEvent, DeleteProjectEvent, GetProjectEvent, ProjectQuery,
    ProjectTasksEvent, UpdateProjectEvent,
};
use sprintly::flows::task_catalog::{
    create_task_priority_step, create_task_status_step, CatalogEvent, CatalogOperation,
};
use sprintly::flows::tasks::{
    create_task_step, delete_task_step, get_task_by_id_step, update_task_step, CreateTaskEvent,
    DeleteTaskEvent, GetTaskEvent, TaskOperation, UpdateTaskEvent,
};
use sprintly::flows::workspaces::{
    create_workspace_step, delete_workspace_step, get_workspace_projects_step, get_workspaces_step,
    update_workspace_step, CreateWorkspaceEvent, DeleteWorkspaceEvent, GetWorkspacesEvent,
    UpdateWorkspaceEvent, WorkspaceProjectsEvent, WorkspaceQuery,
};
use sprintly::flows::{DbFailure, Next, Reply};
use sprintly::jwt::{generate_jwt, verify_jwt};
use sprintly::middleware::{
    authenticate_step, test_user_profile, AuthEvent, AuthOperation, CookieLookup, TEST_USER_ID,
};
use sprintly::models::{TaskPriority, TaskStatus};

const USER: u128 = 0x1f29c101_830e_4d99_80a0_48b8b56fa091;

fn ok_body<Q, T>(n: Next<Q, Reply<T>>) -> (bool, u16, String, Option<T>) {
    match n {
        Next::Finish(Ok(r)) => (r.success, r.status_code, r.message, r.data),
        _ => panic!("expected a success answer"),
    }
}

fn err_body<Q, T>(n: Next<Q, Reply<T>>) -> (u16, String) {
    match n {
        Next::Finish(Err(e)) => {
            let b = e.into_response_body();
            (b.status_code, b.message)
        },
        _ => panic!("expected an error answer"),
    }
}

#[test]
fn create_workspace_flow() {
    let good = CreateWorkspacePayload { name: "Test Workspace".to_string() };
    match create_workspace_step::<u8>(USER, &good, CreateWorkspaceEvent::Start) {
        Next::Run(WorkspaceQuery::Insert { name, owner_id }) => {
            assert_eq!(name, "Test Workspace");
            assert_eq!(owner_id, USER);
        },
        _ => panic!("expected an insert"),
    }
    let bad = CreateWorkspacePayload { name: "T".to_string() };
    assert_eq!(
        err_body(create_workspace_step::<u8>(USER, &bad, CreateWorkspaceEvent::Start)),
        (400, "name: Workspace name must be between 2 and 100 characters".to_string())
    );
    assert_eq!(
        ok_body(create_workspace_step(USER, &good, CreateWorkspaceEvent::Inserted(Ok(7u8)))),
        (true, 201, "Workspace created successfully".to_string(), Some(7))
    );
    assert_eq!(
        err_body(create_workspace_step::<u8>(USER, &good, CreateWorkspaceEvent::Inserted(Err(DbFailure)))),
        (500, "Failed to create workspace".to_string())
    );
}

#[test]
fn get_workspaces_flow() {
    assert!(matches!(
        get_workspaces_step::<u8>(USER, GetWorkspacesEvent::Start),
        Next::Run(WorkspaceQuery::ListOwned { owner_id: USER })
    ));
    assert_eq!(
        ok_body(get_workspaces_step(USER, GetWorkspacesEvent::Listed(Ok(vec![1u8, 2])))),
        (true, 200, "Workspaces retrieved successfully".to_string(), Some(vec![1, 2]))
    );
    assert_eq!(
        err_body(get_workspaces_step::<u8>(USER, GetWorkspacesEvent::Listed(Err(DbFailure)))),
        (500, "Failed to retrieve workspaces".to_string())
    );
}

#[test]
fn update_workspace_flow() {
    let p = UpdateWorkspacePayload { name: "Renamed".to_string() };
    assert!(matches!(
        update_workspace_step::<u8>(USER, 3, &p, UpdateWorkspaceEvent::Start),
        Next::Run(WorkspaceQuery::FindOwned { id: 3, owner_id: USER })
    ));
    assert_eq!(
        err_body(update_workspace_step::<u8>(USER, 3, &p, UpdateWorkspaceEvent::Found(Ok(false)))),
        (404, "Workspace not found".to_string())
    );
    match update_workspace_step::<u8>(USER, 3, &p, UpdateWorkspaceEvent::Found(Ok(true))) {
        Next::Run(WorkspaceQuery::Rename { id, owner_id, name }) => {
            assert_eq!((id, owner_id, name.as_str()), (3, USER, "Renamed"));
        },
        _ => panic!("expected a rename"),
    }
    assert_eq!(
        ok_body(update_workspace_step(USER, 3, &p, UpdateWorkspaceEvent::Renamed(Ok(1u8)))),
        (true, 200, "Workspace updated successfully".to_string(), Some(1))
    );
    assert_eq!(
        err_body(update_workspace_step::<u8>(USER, 3, &p, UpdateWorkspaceEvent::Renamed(Err(DbFailure)))),
        (500, "Failed to update workspace".to_string())
    );
}

#[test]
fn delete_workspace_flow() {
    assert_eq!(
        err_body(delete_workspace_step(USER, 4, DeleteWorkspaceEvent::Found(Ok(None)))),
        (404, "Workspace not found".to_string())
    );
    assert!(matches!(
        delete_workspace_step(USER, 4, DeleteWorkspaceEvent::Found(Ok(Some("Home".to_string())))),
        Next::Run(WorkspaceQuery::Delete { id: 4, owner_id: USER })
    ));
    assert_eq!(
        ok_body(delete_workspace_step(USER, 4, DeleteWorkspaceEvent::Deleted("Home".to_string(), Ok(())))),
        (true, 200, "Workspace named: Home deleted successfully".to_string(), None)
    );
    assert_eq!(
        err_body(delete_workspace_step(USER, 4, DeleteWorkspaceEvent::Found(Err(DbFailure)))),
        (500, "Failed to retrieve workspace".to_string())
    );
}

#[test]
fn workspace_projects_flow() {
    assert_eq!(
        err_body(get_workspace_projects_step::<u8>(USER, 5, WorkspaceProjectsEvent::Found(Ok(false)))),
        (404, "Workspace not found".to_string())
    );
    assert!(matches!(
        get_workspace_projects_step::<u8>(USER, 5, WorkspaceProjectsEvent::Found(Ok(true))),
        Next::Run(WorkspaceQuery::ListProjects { workspace_id: 5 })
    ));
    assert_eq!(
        ok_body(get_workspace_projects_step(USER, 5, WorkspaceProjectsEvent::Listed(Ok(Vec::<u8>::new())))),
        (true, 200, "Projects retrieved successfully".to_string(), Some(vec![]))
    );
}

#[test]
fn project_flows() {
    let p = CreateProjectPayload { workspace_id: 8, name: "Alpha".to_string(), description: Some("d".to_string()) };
    match create_project_step::<u8>(&p, CreateProjectEvent::Start) {
        Next::Run(ProjectQuery::Insert { workspace_id, name, description }) => {
            assert_eq!(workspace_id, 8);
            assert_eq!(name, "Alpha");
            assert_eq!(description.as_deref(), Some("d"));
        },
        _ => panic!("expected an insert"),
    }
    assert_eq!(
        ok_body(create_project_step(&p, CreateProjectEvent::Inserted(Ok(2u8)))),
        (true, 201, "Project created successfully".to_string(), Some(2))
    );
    assert_eq!(
        err_body(get_project_by_id_step::<u8>(1, GetProjectEvent::Found(Ok(None)))),
        (404, "Project not found".to_string())
    );
    assert_eq!(
        ok_body(get_project_by_id_step(1, GetProjectEvent::Found(Ok(Some(3u8))))),
        (true, 200, "Project fetched successfully".to_string(), Some(3))
    );
    let u = UpdateProjectPayload { name: None, description: Some("new".to_string()) };
    match update_project_step::<u8>(USER, 1, &u, UpdateProjectEvent::Found(Ok(Some(USER)))) {
        Next::Run(ProjectQuery::Update { id, name, description }) => {
            assert_eq!(id, 1);
            assert_eq!(name, None);
            assert_eq!(description.as_deref(), Some("new"));
        },
        _ => panic!("expected an update"),
    }
    assert_eq!(
        err_body(update_project_step::<u8>(USER, 1, &u, UpdateProjectEvent::Updated(Err(DbFailure)))),
        (500, "Failed to update project".to_string())
    );
    assert_eq!(
        err_body(update_project_step::<u8>(USER, 1, &u, UpdateProjectEvent::Found(Ok(None)))),
        (404, "Project not found".to_string())
    );
    assert_eq!(
        ok_body(delete_project_step(USER, 1, DeleteProjectEvent::Deleted(Ok(())))),
        (true, 200, "Project deleted successfully".to_string(), None)
    );
    assert_eq!(
        err_body(delete_project_step(USER, 1, DeleteProjectEvent::Found(Err(DbFailure)))),
        (500, "Failed to query project".to_string())
    );
    assert!(matches!(
        delete_project_step(USER, 1, DeleteProjectEvent::Found(Ok(Some(USER)))),
        Next::Run(ProjectQuery::Delete { id: 1 })
    ));
}

#[test]
fn only_the_workspace_owner_changes_a_project() {
    let u = UpdateProjectPayload { name: Some("Beta".to_string()), description: None };
    assert_eq!(
        err_body(update_project_step::<u8>(USER, 1, &u, UpdateProjectEvent::Found(Ok(Some(USER + 1))))),
        (403, "You do not have permission to update this project".to_string())
    );
    assert_eq!(
        err_body(delete_project_step(USER, 1, DeleteProjectEvent::Found(Ok(Some(USER + 1))))),
        (403, "You do not have permission to delete this project".to_string())
    );
}

#[test]
fn project_tasks_listing_uses_defaults_and_pages() {
    let q = TaskQuery { status: None, priority: None, page: None, page_size: None };
    assert_eq!(q.page_window(), Some((20, 0)));
    match get_all_tasks_for_project_step::<u8>(6, &q, ProjectTasksEvent::Found(Ok(true))) {
        Next::Run(ProjectQuery::ListTasks { project_id, status, priority, limit, offset }) => {
            assert_eq!(project_id, 6);
            assert_eq!(status, StatusFilter::Default(TaskStatus::Todo));
            assert_eq!(priority, PriorityFilter::Default(TaskPriority::Medium));
            assert_eq!((limit, offset), (20, 0));
        },
        _ => panic!("expected a listing"),
    }
    let q3 = TaskQuery { status: Some(2), priority: Some(1), page: Some(3), page_size: Some(10) };
    match get_all_tasks_for_project_step::<u8>(6, &q3, ProjectTasksEvent::Found(Ok(true))) {
        Next::Run(ProjectQuery::ListTasks { status, priority, limit, offset, .. }) => {
            assert_eq!(status, StatusFilter::Given(2));
            assert_eq!(priority, PriorityFilter::Given(1));
            assert_eq!((limit, offset), (10, 20));
        },
        _ => panic!("expected a listing"),
    }
    let q4 = TaskQuery { status: None, priority: None, page: Some(4), page_size: Some(10) };
    assert_eq!(q4.page_window(), Some((10, 30)));
    let huge = TaskQuery { status: None, priority: None, page: Some(i32::MAX), page_size: Some(i32::MAX) };
    assert_eq!(huge.page_window(), None);
    let min = TaskQuery { status: None, priority: None, page: Some(i32::MIN), page_size: Some(0) };
    assert_eq!(min.page_window(), None);
    assert_eq!(
        err_body(get_all_tasks_for_project_step::<u8>(6, &huge, ProjectTasksEvent::Found(Ok(false)))),
        (404, "Project not found".to_string())
    );
    assert_eq!(
        err_body(get_all_tasks_for_project_step::<u8>(6, &q, ProjectTasksEvent::Listed(Err(DbFailure)))),
        (500, "Failed to query tasks".to_string())
    );
}

#[test]
fn task_flows() {
    let c = CreateTaskPayload {
        project_id: 2,
        title: "Write".to_string(),
        description: None,
        task_status: 1,
        task_priority: 3,
        due_date: Some("2025-01-01".to_string()),
    };
    assert!(matches!(
        create_task_step::<u8>(USER, &c, CreateTaskEvent::Start),
        Next::Run(TaskOperation::FindProject { id: 2 })
    ));
    assert_eq!(
        err_body(create_task_step::<u8>(USER, &c, CreateTaskEvent::ProjectFound(Ok(false)))),
        (404, "Project not found".to_string())
    );
    match create_task_step::<u8>(USER, &c, CreateTaskEvent::ProjectFound(Ok(true))) {
        Next::Run(TaskOperation::Insert { project_id, title, owner_id, task_status, task_priority, due_date, .. }) => {
            assert_eq!((project_id, title.as_str(), owner_id), (2, "Write", USER));
            assert_eq!((task_status, task_priority), (1, 3));
            assert_eq!(due_date.as_deref(), Some("2025-01-01"));
        },
        _ => panic!("expected an insert"),
    }
    assert_eq!(
        ok_body(create_task_step(USER, &c, CreateTaskEvent::Inserted(Ok(4u8)))),
        (true, 201, "Task created successfully".to_string(), Some(4))
    );
    let u = UpdateTaskPayload {
        title: None,
        description: None,
        task_status: Some(2),
        task_priority: None,
        due_date: None,
        position: Some(5),
    };
    match update_task_step::<u8>(USER, 9, &u, UpdateTaskEvent::Found(Ok(Some(USER)))) {
        Next::Run(TaskOperation::Update { id, task_status, position, title, .. }) => {
            assert_eq!((id, task_status, position, title), (9, Some(2), Some(5), None));
        },
        _ => panic!("expected an update"),
    }
    assert_eq!(
        err_body(update_task_step::<u8>(USER, 9, &u, UpdateTaskEvent::Found(Ok(None)))),
        (404, "Task not found".to_string())
    );
    assert_eq!(
        err_body(update_task_step::<u8>(USER, 9, &u, UpdateTaskEvent::Found(Ok(Some(USER + 1))))),
        (404, "Task not found".to_string())
    );
    assert_eq!(
        ok_body(get_task_by_id_step(USER, 9, GetTaskEvent::Found(Ok(Some((USER, 1u8)))))),
        (true, 200, "Task retrieved successfully".to_string(), Some(1))
    );
    assert_eq!(
        err_body(get_task_by_id_step(USER, 9, GetTaskEvent::Found(Ok(Some((USER + 1, 1u8)))))),
        (404, "Task not found".to_string())
    );
    assert_eq!(
        err_body(get_task_by_id_step::<u8>(USER, 9, GetTaskEvent::Found(Err(DbFailure)))),
        (500, "Failed to fetch task".to_string())
    );
}

#[test]
fn only_the_owner_deletes_a_task() {
    assert!(matches!(
        delete_task_step(USER, 9, DeleteTaskEvent::Found(Ok(Some(USER)))),
        Next::Run(TaskOperation::Delete { id: 9 })
    ));
    assert_eq!(
        err_body(delete_task_step(USER, 9, DeleteTaskEvent::Found(Ok(Some(USER + 1))))),
        (403, ["You do not have permission to delete this", "task"].join(" "))
    );
    assert_eq!(
        err_body(delete_task_step(USER, 9, DeleteTaskEvent::Found(Ok(None)))),
        (404, "Task not found".to_string())
    );
    assert_eq!(
        ok_body(delete_task_step(USER, 9, DeleteTaskEvent::Deleted(Ok(())))),
        (true, 200, "Task deleted successfully".to_string(), None)
    );
}

#[test]
fn catalog_flows() {
    let p = CreateTaskPriorityPayload { name: "Urgent".to_string() };
    match create_task_priority_step::<u8>(1, &p, CatalogEvent::ProjectFound(Ok(true))) {
        Next::Run(CatalogOperation::InsertPriority { project_id, name }) => {
            assert_eq!((project_id, name.as_str()), (1, "Urgent"));
        },
        _ => panic!("expected an insert"),
    }
    assert_eq!(
        ok_body(create_task_priority_step(1, &p, CatalogEvent::Inserted(Ok(3u8)))),
        (true, 201, "Task priority created successfully".to_string(), Some(3))
    );
    let s = CreateTaskStatusPayload { name: "Blocked".to_string() };
    assert_eq!(
        err_body(create_task_status_step::<u8>(1, &s, CatalogEvent::Inserted(Err(DbFailure)))),
        (500, "Failed to create task status".to_string())
    );
    assert_eq!(
        err_body(create_task_status_step::<u8>(1, &s, CatalogEvent::ProjectFound(Ok(false)))),
        (404, "Project not found".to_string())
    );
    let bad = CreateTaskStatusPayload { name: "B".to_string() };
    assert_eq!(
        err_body(create_task_status_step::<u8>(1, &bad, CatalogEvent::Start)),
        (400, "name: Name must be between 2 and 50 characters".to_string())
    );
}

fn config(mode: DevMode) -> EnvConfig {
    EnvConfig {
        dev_mode: mode,
        database_url: "postgres://db".to_string(),
        port: 5000,
        jwt_secret: "s3cret".to_string(),
    }
}

fn reg_err<U>(n: Next<RegisterOperation, Result<RegisterReply<U>, ApiError>>) -> (u16, String) {
    match n {
        Next::Finish(Err(e)) => {
            let b = e.into_response_body();
            (b.status_code, b.message)
        },
        _ => panic!("expected an error answer"),
    }
}

#[test]
fn registration_flow() {
    let dto = RegisterUserDto {
        name: "Test User".to_string(),
        email: "test@example.com".to_string(),
        password: "password123".to_string(),
        confirm_password: "password123".to_string(),
    };
    let cfg = config(DevMode::Production);
    match register_user_step::<u8>(&dto, &cfg, RegisterEvent::Start) {
        Next::Run(RegisterOperation::FindUserByEmail { email }) => assert_eq!(email, "test@example.com"),
        _ => panic!("expected a lookup"),
    }
    assert_eq!(
        reg_err(register_user_step::<u8>(&dto, &cfg, RegisterEvent::Looked(Ok(true)))),
        (409, "User is already registered".to_string())
    );
    assert_eq!(
        reg_err(register_user_step::<u8>(&dto, &cfg, RegisterEvent::Looked(Err(DbFailure)))),
        (500, "Failed to check existing user".to_string())
    );
    match register_user_step::<u8>(&dto, &cfg, RegisterEvent::Looked(Ok(false))) {
        Next::Run(RegisterOperation::InsertUser { email, name, password_hash }) => {
            assert_eq!((email.as_str(), name.as_str()), ("test@example.com", "Test User"));
            assert!(password_hash.starts_with("$argon2id$v=19$"));
            assert!(!password_hash.contains("password123"));
        },
        _ => panic!("expected an insert"),
    }
    assert_eq!(
        reg_err(register_user_step::<u8>(&dto, &cfg, RegisterEvent::Inserted(Err(DbFailure)))),
        (500, "Failed to create user".to_string())
    );
    match register_user_step::<u8>(&dto, &cfg, RegisterEvent::Inserted(Ok((USER, 1)))) {
        Next::Finish(Ok(reply)) => {
            let c = reply.cookie;
            assert_eq!((c.name.as_str(), c.path.as_str()), ("token", "/"));
            assert!(c.http_only && c.secure);
            assert_eq!(c.same_site, SameSitePolicy::Lax);
            assert_eq!(verify_jwt(&c.value, "s3cret").unwrap().sub, USER);
            let (status, body) = reply.body.into_response_parts();
            assert_eq!(status, 201);
            assert!(body.success);
            assert_eq!(body.status_code, 201);
            assert_eq!(body.message, "User registered successfully");
            assert_eq!(body.data, Some(1));
        },
        _ => panic!("expected the created user"),
    }
    let dev = config(DevMode::Development);
    match register_user_step::<u8>(&dto, &dev, RegisterEvent::Inserted(Ok((USER, 1)))) {
        Next::Finish(Ok(reply)) => assert!(!reply.cookie.secure),
        _ => panic!("expected the created user"),
    }
    let bad = RegisterUserDto {
        name: "User".to_string(),
        email: "bad".to_string(),
        password: "abc".to_string(),
        confirm_password: "abc".to_string(),
    };
    assert_eq!(
        reg_err(register_user_step::<u8>(&bad, &cfg, RegisterEvent::Start)),
        (
            400,
            "email: Invalid email format, password: Password must be between 6 and 12 characters"
                .to_string()
        )
    );
    let mismatch = RegisterUserDto { confirm_password: "other".to_string(), ..dto };
    assert_eq!(
        reg_err(register_user_step::<u8>(&mismatch, &cfg, RegisterEvent::Start)),
        (400, "confirm_password: Passwords do not match".to_string())
    );
}

#[test]
fn authentication_flow() {
    let cfg = config(DevMode::Production);
    let refused = |e: AuthEvent<u8>| match authenticate_step(&cfg, e) {
        Next::Finish(Err(err)) => {
            let b = err.into_response_body();
            (b.status_code, b.message)
        },
        _ => panic!("expected a refusal"),
    };
    assert_eq!(refused(AuthEvent::Start(CookieLookup::NoCookieJar)), (401, "No auth cookie found".to_string()));
    assert_eq!(refused(AuthEvent::Start(CookieLookup::NoToken)), (401, "No auth token found".to_string()));
    match authenticate_step::<u8>(&cfg, AuthEvent::Start(CookieLookup::Token("abc".to_string()))) {
        Next::Run(AuthOperation::VerifyToken { token, secret }) => {
            assert_eq!((token.as_str(), secret.as_str()), ("abc", "s3cret"));
            assert_eq!(refused(AuthEvent::Verified(verify_jwt(&token, &secret))), (401, "Invalid auth token".to_string()));
        },
        _ => panic!("expected the token to be checked"),
    }
    assert_eq!(refused(AuthEvent::Found(Err(DbFailure))), (500, "Failed to fetch user".to_string()));
    assert_eq!(refused(AuthEvent::Found(Ok(None))), (401, "User not found".to_string()));
    let token = generate_jwt(USER, "s3cret").unwrap();
    assert!(matches!(
        authenticate_step::<u8>(&cfg, AuthEvent::Verified(verify_jwt(&token, "s3cret"))),
        Next::Run(AuthOperation::FindUser { user_id: USER })
    ));
    let other = generate_jwt(USER, "another").unwrap();
    assert_eq!(
        refused(AuthEvent::Verified(verify_jwt(&other, "s3cret"))),
        (401, "Invalid auth token".to_string())
    );
    match authenticate_step(&cfg, AuthEvent::Found(Ok(Some(7u8)))) {
        Next::Finish(Ok(user)) => assert_eq!(user.0, 7),
        _ => panic!("expected the user"),
    }
}

#[test]
fn test_mode_authenticates_as_the_test_user() {
    let cfg = config(DevMode::Test);
    for lookup in [CookieLookup::NoToken, CookieLookup::NoCookieJar, CookieLookup::Token("x".to_string())] {
        match authenticate_step::<u8>(&cfg, AuthEvent::Start(lookup)) {
            Next::Run(AuthOperation::MakeTestUser(p)) => {
                assert_eq!(p.id, TEST_USER_ID);
                assert_eq!(p.id, 0x1f29c101_830e_4d99_80a0_48b8b56fa091);
                assert_eq!(p.email, "test@example.com");
                assert_eq!(p.name, "Test User");
            },
            _ => panic!("expected the test user"),
        }
    }
    match authenticate_step(&cfg, AuthEvent::TestUserMade(3u8)) {
        Next::Finish(Ok(user)) => assert_eq!(user.0, 3),
        _ => panic!("expected the test user"),
    }
    assert_eq!(test_user_profile().email, "test@example.com");
}
