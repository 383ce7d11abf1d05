//! Progress extraction for a long-running external build or package tool.
//!
//! The crate turns the output lines of such a tool into a small stream of
//! typed status events and describes the command line the tool is started
//! with. Starting the process and moving its output between threads is left
//! to the caller.

pub mod command;
pub mod event;
pub mod json;
pub mod parser;
pub mod pattern;
pub mod project;
pub mod recognizer;
pub mod status;
pub mod text;
