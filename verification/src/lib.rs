//! Verified core of a small process-diagnostic tool.
//!
//! The library renders process-table entries as one-line text summaries and
//! decodes filesystem change-notification records into readable lines.  All
//! operating-system access (reading the process table, opening and reading an
//! inotify channel, printing) happens outside the library, which works on
//! plain values and is verified end to end.

pub mod decimal;
pub mod errors;
pub mod fs_watcher;
pub mod proc_viewer;
pub mod text;
