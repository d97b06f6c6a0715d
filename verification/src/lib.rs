//! Rocker: the core of a terminal dashboard for a container daemon.
//!
//! The crate holds the parts of the dashboard that decide something: the
//! demultiplexer for the daemon's log stream, the views with their cursor and
//! cache rules, and the controller that owns the view stack. None of them
//! performs I/O. Whatever has to be asked of the daemon is handed out as a
//! value, and the answer is handed back in; painting works from plain text
//! and style classes that the views compute.

pub mod app;
pub mod docker;
pub mod event;
pub mod text;
pub mod tty;
pub mod ui;
pub mod views;
