//! The rules behind the desktop shell of the PII anonymizer.
//!
//! The shell shows a splash window, starts the backend as a child process, waits until
//! the local server answers and then opens the main window on it. This crate holds what
//! the shell decides and computes: where the backend listens, how its configuration is
//! kept, what counts as a reply of our own backend, how long to wait for it, and which
//! step follows which. Whoever drives it performs the steps: files, sockets, processes
//! and windows.

pub mod address;
pub mod args;
pub mod config;
pub mod json;
pub mod launch;
pub mod log;
pub mod paths;
pub mod poll;
pub mod probe;
pub mod text;
