//! What stands before the handlers.

pub mod admitted;
pub mod auth;
