# erp_tracker

The decision logic of a desktop time tracker for the Leapsofts ERP, written in
Verus and verified against its contracts, with the desktop shell around it.

## Layout

- `src/` — the verified library.
  - `text` — string operations with exact specifications (trimming, searching,
    splitting, replacing, case mapping, decimal numerals).
  - `types` — shifts, breaks, users, the tracker state, queued items; reading a
    user profile from JSON members.
  - `state`, `session`, `sync` — when monitoring runs, signing in and out,
    idle and sleep breaks, heartbeats, and what each upload outcome does to the
    state and to the local queue.
  - `input` — the per-second keyboard/mouse meter and the event-tap masks.
  - `app_usage` — polling the front window into app-usage segments.
  - `screenshots` — starting and stopping the sampler, the steps of a
    ten-minute sampling pass, capture sizes, capture errors.
  - `active_window`, `browser_url`, `url_sanitize` — window names, addresses in
    titles, browser recognition, and reducing addresses to their host.
  - `api` — reading server answers (JSON through `serde_json`), refresh
    cookies, sign-in answers, error messages, API base and reachability target.
  - `clock` — time stamps, client ids and random offsets, through `chrono`,
    `uuid` and `rand`.
  - `queue`, `tray` — the app-usage cap and the menu commands.
- `tests/` — tests of the library on concrete values.
- `app/` — the Tauri shell: HTTP, SQLite, the OS hooks, screen capture and the
  background tasks, calling the library for every decision.

The library verifies with Verus; the tests run with the outside crates linked.
