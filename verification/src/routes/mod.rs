//! Routes served by the gateway itself.
pub mod webshell;
