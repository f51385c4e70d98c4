//! Checkpoint and restore instrumentation.

pub mod checkpoint;
pub mod graph;
pub mod opt;
pub mod restore;
pub mod site;
pub mod state;
