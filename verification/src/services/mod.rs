//! Calls to the services behind the gateway.
pub mod retry;
pub mod proxy;
pub mod common;
pub mod users_client;
