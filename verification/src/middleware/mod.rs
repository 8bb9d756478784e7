pub mod auth;
pub mod rbac;
