//! The sync status as the tray shows it.
pub use crate::sync::status::create_sync_status;
pub use crate::types::SyncStatus;
