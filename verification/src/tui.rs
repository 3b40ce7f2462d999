//! The terminal browser.
pub mod app;
pub mod conduct;
pub mod editor;
pub mod events;
pub mod highlight;
pub mod keys;
pub mod laws;
pub mod layout;
pub mod model;
pub mod view;
