//! Verified decision logic of the Altaïr API gateway.
pub mod cors;
pub mod error;
pub mod middleware;
pub mod routes;
pub mod security;
pub mod services;
pub mod state;
pub mod text;
pub mod wire;
