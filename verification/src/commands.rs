//! The commands, one module each.
pub mod create;
pub mod delete;
pub mod list;
pub mod locator;
pub mod show;
