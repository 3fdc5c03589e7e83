//! Talking to the rclone daemon: reading its replies and deciding what to do next.
pub mod commands_inner;
pub mod daemon;
pub mod status;
