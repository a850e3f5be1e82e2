//! Snapshots of the host's memory and the watch loop's decisions.

pub mod memory_watcher;
pub mod sys_observer;
