//! Fan-out of one coding task to several worker agents, each in its own
//! worktree, with a registry that keeps one active run per session; and the
//! state of the picker that lists saved sessions.

pub mod display;
pub mod error;
pub mod executor;
pub mod json;
pub mod orchestrator;
pub mod pagination;
pub mod picker;
pub mod picker_events;
pub mod planner;
pub mod registry;
pub mod session_file;
pub mod store;
pub mod text;
pub mod worker;
pub mod worktree;
