//! Sprintly: the verified core of a task-management REST API.
//!
//! The library holds the rules of the service: how its configuration is read,
//! how request payloads are validated, how errors and successes are answered,
//! how session tokens are signed, dated and checked, how passwords are hashed, and
//! what each request handler decides after each database round trip. The HTTP
//! server and the database are driven from outside, step by step, through the
//! functions here.
pub mod api_error;
pub mod config;
pub mod constants;
pub mod dtos;
pub mod flows;
pub mod hash;
pub mod health;
pub mod jwt;
pub mod laws;
pub mod middleware;
pub mod models;
pub mod response;
pub mod validation;
