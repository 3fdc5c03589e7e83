//! The system tray: its menu and the statuses it shows.
pub mod manager;
pub mod status;
