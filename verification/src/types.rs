//! The data tracked for each rclone remote.
//!
//! [`RemoteEntry`] holds all the persisted data of one remote (user config and
//! runtime state); [`SyncStatus`] is the sync state of a remote, also shown in the
//! tray; [`RemoteInfo`] is a remote's name and type as rclone reports them.
use vstd::prelude::*;
use crate::text::{decimal, u64_to_decimal};

verus! {

/// The current sync state of a remote. A remote that has no state yet is
/// up to date.
#[derive(Debug, Clone)]
pub enum SyncStatus {
    UpToDate,
    Syncing,
    Transferred { transferred: u64 },
    AutoResolved { transferred: u64, conflicts: u64 },
    ActionRequired,
    Error { message: String },
}

/// The text that a status displays, in the tray and elsewhere.
pub open spec fn status_text(s: SyncStatus) -> Seq<char> {
    match s {
        SyncStatus::UpToDate => "Up to date."@,
        SyncStatus::Syncing => "Syncing..."@,
        SyncStatus::Transferred { transferred } => "↑↓"@ + decimal(transferred as nat),
        SyncStatus::AutoResolved { transferred, conflicts } =>
            "↑↓"@ + decimal(transferred as nat) + " : "@ + decimal(conflicts as nat)
                + "↯ auto-resolved"@,
        SyncStatus::ActionRequired => "↯ Action required"@,
        SyncStatus::Error { message } => "Error: "@ + message@,
    }
}

impl Default for SyncStatus {
    /// The status a remote has before anything was recorded for it.
    fn default() -> (s: SyncStatus)
        ensures
            s is UpToDate,
    {
        SyncStatus::UpToDate
    }
}

impl SyncStatus {
    /// The text this status displays.
    pub fn to_string(&self) -> (s: String)
        ensures
            s@ == status_text(*self),
    {
        match self {
            SyncStatus::UpToDate => String::from_str("Up to date."),
            SyncStatus::Syncing => String::from_str("Syncing..."),
            SyncStatus::Transferred { transferred } => {
                let mut s = String::from_str("↑↓");
                let n = u64_to_decimal(*transferred);
                s.append(n.as_str());
                s
            },
            SyncStatus::AutoResolved { transferred, conflicts } => {
                let mut s = String::from_str("↑↓");
                let t = u64_to_decimal(*transferred);
                s.append(t.as_str());
                s.append(" : ");
                let c = u64_to_decimal(*conflicts);
                s.append(c.as_str());
                s.append("↯ auto-resolved");
                s
            },
            SyncStatus::ActionRequired => String::from_str("↯ Action required"),
            SyncStatus::Error { message } => {
                let mut s = String::from_str("Error: ");
                s.append(message.as_str());
                s
            },
        }
    }
}

/// All persisted state of a remote: user config and runtime state.
#[derive(Debug, Clone)]
pub struct RemoteEntry {
    // user config
    pub locked: bool,
    pub local_path: String,
    pub remote_path: String,
    pub timer_enabled: bool,
    pub poll_interval: u32,
    pub watch_enabled: bool,
    pub watch_debounce: u32,
    pub conflict_resolve: String,
    pub conflict_loser: String,
    // runtime state
    pub status: SyncStatus,
    pub bisync_initialized: bool,
}

impl Default for RemoteEntry {
    /// The entry of a remote that has no stored config yet.
    fn default() -> (e: RemoteEntry)
        ensures
            !e.locked,
            e.local_path@ == Seq::<char>::empty(),
            e.remote_path@ == Seq::<char>::empty(),
            !e.timer_enabled,
            e.poll_interval == 60,
            !e.watch_enabled,
            e.watch_debounce == 2,
            e.conflict_resolve@ == "none"@,
            e.conflict_loser@ == "num"@,
            e.status is UpToDate,
            !e.bisync_initialized,
    {
        RemoteEntry {
            locked: false,
            local_path: String::new(),
            remote_path: String::new(),
            timer_enabled: false,
            poll_interval: 60,
            watch_enabled: false,
            watch_debounce: 2,
            conflict_resolve: String::from_str("none"),
            conflict_loser: String::from_str("num"),
            status: SyncStatus::UpToDate,
            bisync_initialized: false,
        }
    }
}

/// A remote as rclone reports it: its name and its backend type (such as
/// "drive" or "sftp").
#[derive(Debug, Clone)]
pub struct RemoteInfo {
    pub name: String,
    pub remote_type: String,
}

} // verus!
