//! The handlers, one module for each kind of thing that they handle.

pub mod activity;
pub mod failed;
pub mod label;
pub mod limits;
pub mod note;
pub mod passkey;
pub mod private;
pub mod push;
pub mod session;
pub mod user;
