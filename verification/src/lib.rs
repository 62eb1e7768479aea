//! A one-way, live mirror of a directory tree.
//!
//! The library holds the decisions of the mirror: which notifications
//! matter, where a path of the watched tree lands in the target tree, what
//! is to be done for it, and what the mirror remembers afterwards. It never
//! touches the file system: the program around it looks, performs the one
//! operation it is asked for, and reports how that ended.

pub mod coordinator;
pub mod event_handler;
pub mod file_operations;
pub mod file_store;
pub mod fingerprint;
pub mod laws;
pub mod path;
pub mod pattern;
pub mod reader;
pub mod start;
pub mod utils;
