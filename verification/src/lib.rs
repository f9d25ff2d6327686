//! Decisions of a shutdown hook that snapshots an application database.
//!
//! When the host asks to exit, the hook holds the exit back, copies the
//! database file to a backup named after the local calendar date, and then
//! lets the process end with status 0 whatever happened on the way.  The
//! crate holds the decisions only: the host performs each action and reports
//! back what came of it.

pub mod calendar;
pub mod paths;
pub mod protocol;
pub mod service;
pub mod shutdown;
