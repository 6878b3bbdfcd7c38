use sprintly::dtos::auth_dto::{LoginUserDto, RegisterUserDto};
use sprintly::dtos::project_dto::{CreateProjectPayload, UpdateProjectPayload};
use sprintly::dtos::task_dto::{CreateTaskPayload, UpdateTaskPayload};
use sprintly::dtos::task_priority_dto::{CreateTaskPriorityPayload, UpdateTaskPriorityPayload};
use sprintly::dtos::task_status_dto::CreateTaskStatusPayload;
use sprintly::dtos::workspace_dto::{CreateWorkspacePayload, UpdateWorkspacePayload};
use sprintly::validation::{format_validation_errors, FieldError, ValidationErrors};

fn register(name: &str, email: &str, password: &str, confirm: &str) -> RegisterUserDto {
    RegisterUserDto {
        name: name.to_string(),
        email: email.to_string(),
        password: password.to_string(),
        confirm_password: confirm.to_string(),
    }
}

fn report(r: Result<(), ValidationErrors>) -> String {
    format_validation_errors(&r.unwrap_err())
}

#[test]
fn valid_registration_passes() {
    assert!(register("Test User", "test@example.com", "password123", "password123").validate().is_ok());
}

#[test]
fn registration_error_report_matches_the_documented_shape() {
    let r = register("User", "not-an-email", "abc", "abc").validate();
    assert_eq!(
        report(r),
        "email: Invalid email format, password: Password must be between 6 and 12 characters"
    );
}

#[test]
fn registration_reports_every_failed_check_in_order() {
    let r = register("", "", "1234567890123", "x").validate();
    let e = r.unwrap_err();
    let codes: Vec<(&str, &str)> = e.errors.iter().map(|f| (f.field.as_str(), f.code.as_str())).collect();
    assert_eq!(
        codes,
        vec![
            ("name", "length"),
            ("email", "length"),
            ("email", "email"),
            ("password", "length"),
            ("confirm_password", "must_match"),
        ]
    );
    assert_eq!(
        format_validation_errors(&e),
        "name: Name cannot be empty, email: Email cannot be empty, email: Invalid email format, \
         password: Password must be between 6 and 12 characters, \
         confirm_password: Passwords do not match"
    );
}

#[test]
fn password_length_bounds() {
    assert!(register("a", "a@b.co", "123456", "123456").validate().is_ok());
    assert!(register("a", "a@b.co", "123456789012", "123456789012").validate().is_ok());
    assert!(register("a", "a@b.co", "12345", "12345").validate().is_err());
    // Lengths count characters, not bytes.
    assert!(register("a", "a@b.co", "ééééé", "ééééé").validate().is_err());
    assert!(register("a", "a@b.co", "éééééé", "éééééé").validate().is_ok());
}

#[test]
fn login_validation() {
    let ok = LoginUserDto { email: "a@b.co".to_string(), password: "secret1".to_string() };
    assert!(ok.validate().is_ok());
    let bad = LoginUserDto { email: "ab.co".to_string(), password: "secret1".to_string() };
    assert_eq!(report(bad.validate()), "email: Invalid email format");
}

#[test]
fn workspace_name_bounds() {
    assert!(CreateWorkspacePayload { name: "ab".to_string() }.validate().is_ok());
    assert_eq!(
        report(CreateWorkspacePayload { name: "a".to_string() }.validate()),
        "name: Workspace name must be between 2 and 100 characters"
    );
    assert!(UpdateWorkspacePayload { name: "x".repeat(100) }.validate().is_ok());
    assert!(UpdateWorkspacePayload { name: "x".repeat(101) }.validate().is_err());
}

#[test]
fn project_payloads() {
    let ok = CreateProjectPayload { workspace_id: 1, name: "Alpha".to_string(), description: None };
    assert!(ok.validate().is_ok());
    let bad = CreateProjectPayload {
        workspace_id: 1,
        name: "A".to_string(),
        description: Some("d".repeat(501)),
    };
    assert_eq!(
        report(bad.validate()),
        "name: Project name must be between 2 and 100 characters, \
         description: Description must be less than 500 characters"
    );
    assert!(UpdateProjectPayload { name: None, description: None }.validate().is_ok());
    assert!(UpdateProjectPayload { name: Some("x".to_string()), description: None }.validate().is_err());
}

#[test]
fn task_payloads() {
    let ok = CreateTaskPayload {
        project_id: 9,
        title: "Write docs".to_string(),
        description: Some("d".repeat(1000)),
        task_status: 1,
        task_priority: 2,
        due_date: None,
    };
    assert!(ok.validate().is_ok());
    let upd = UpdateTaskPayload {
        title: Some("x".to_string()),
        description: Some("d".repeat(1001)),
        task_status: None,
        task_priority: None,
        due_date: None,
        position: Some(3),
    };
    assert_eq!(
        report(upd.validate()),
        "title: Title must be between 2 and 100 characters, \
         description: Description too long (1000 characters max)"
    );
}

#[test]
fn catalog_payloads() {
    assert!(CreateTaskPriorityPayload { name: "High".to_string() }.validate().is_ok());
    assert_eq!(
        report(CreateTaskStatusPayload { name: "x".repeat(51) }.validate()),
        "name: Name must be between 2 and 50 characters"
    );
    assert!(UpdateTaskPriorityPayload { name: None }.validate().is_ok());
}

#[test]
fn report_uses_default_text_without_message() {
    let mut e = ValidationErrors::new();
    e.add(FieldError { field: "age".to_string(), code: "range".to_string(), message: None });
    e.add(FieldError {
        field: "name".to_string(),
        code: "length".to_string(),
        message: Some("too short".to_string()),
    });
    assert_eq!(format_validation_errors(&e), "age: Validation error, name: too short");
    assert_eq!(format_validation_errors(&ValidationErrors::new()), "");
    assert!(ValidationErrors::new().into_result().is_ok());
}
