# sync_watch

The verified core of sync-watch, a desktop client that drives an rclone
remote-control daemon to keep remotes in sync and shows their state in the
system tray.

- `src/` — the library, verified with Verus:
  - `json` — the JSON values exchanged with the daemon and their accessors;
  - `errors` — the backend's error types and the messages they display;
  - `types` — remote entries, remote info and the sync status with its text;
  - `text` — string helpers (decimal rendering, trimming, prefixes, first
    line, name order);
  - `sync::status` — the sync status derived from the stats of a bisync run;
  - `sync::commands_inner` — reading daemon replies, the bisync parameters,
    the rclone version, and the step-by-step listing of remotes;
  - `sync::daemon` — daemon settings, judging remote-control replies, and the
    step-by-step start of the daemon;
  - `tray::manager` — the statuses shown in the tray, the menu built from
    them and what a click asks for.
- `app/` — the Tauri application around it: commands, the tray icon, the
  daemon process and HTTP calls, the store, and the serde/thiserror copies of
  the library's types.
- `tests/` — tests of the library.
