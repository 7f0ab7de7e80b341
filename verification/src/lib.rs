//! State and command layer of a desktop control panel for the `tuckr`
//! dotfile manager.
//!
//! The panel lets an operator pick an action, pick the groups it applies to,
//! and dispatch it, while a background scan keeps the list of known groups
//! current. This crate holds the decisions of that panel; drawing widgets,
//! touching the file system and running the commands are left to the caller.

pub mod command;
pub mod groups;
pub mod hook;
pub mod page;
pub mod picker;
pub mod scheduler;
pub mod session;
pub mod text;
