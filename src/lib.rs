//! Fetches or refreshes a hosted project at a fixed place under a workspace
//! root: the path it goes to, the remote it comes from, the decisions between
//! clone, update and conflict, and what a run reports when it ends.

pub mod path;
pub mod report;
pub mod sync;
