//! Request payloads, each with the checks its fields must pass.
pub mod auth_dto;
pub mod project_dto;
pub mod task_dto;
pub mod task_priority_dto;
pub mod task_status_dto;
pub mod workspace_dto;
