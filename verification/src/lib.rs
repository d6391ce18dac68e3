//! Session state and view-model resolution for an interactive commit-message
//! assistant: a set of pending file diffs, at most one stored reply from the
//! model, a tabbed selection cursor, and the functions that derive what the
//! screen lists and details from them.

pub mod app;
pub mod config;
pub mod diff;
pub mod request;
pub mod resolver;
pub mod response;
pub mod tabs;
pub mod ui;
