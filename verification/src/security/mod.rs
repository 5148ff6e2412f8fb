//! Roles and signing keys.
pub mod jwks_cache;
pub mod roles;
