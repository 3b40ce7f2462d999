//! A client for GitHub gists: what the commands and the terminal browser decide, without the
//! input and output around it.
pub mod api;
pub mod cli;
pub mod commands;
pub mod editing;
pub mod error;
pub mod gists;
pub mod output;
pub mod sort;
pub mod text;
pub mod tui;
