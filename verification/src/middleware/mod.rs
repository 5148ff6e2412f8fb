//! Authentication and access control of incoming requests.
pub mod auth;
pub mod jwt;
pub mod rbac;
