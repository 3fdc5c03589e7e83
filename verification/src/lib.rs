//! Verified core of a sync client that drives an rclone daemon.
pub mod text;
pub mod errors;
pub mod json;
pub mod types;
pub mod sync;
pub mod tray;
