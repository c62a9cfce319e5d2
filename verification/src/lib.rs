//! The decision logic of a desktop time tracker for an ERP: shift and break
//! state, idle and sleep handling, heartbeats, app-usage segments, activity
//! samples, queue flushing, and the parsing of window titles, browser
//! addresses, cookies and server answers. The functions here are verified
//! with Verus against their contracts, except a few small trusted wrappers
//! (marked `#[verifier::external_body]`) that call `chrono`, `uuid`, `rand`,
//! `url`, `serde_json` and two `std` string functions, whose contracts are
//! taken as given; the desktop shell in `app/` performs the I/O and calls
//! into the library.

pub mod text;
pub mod types;
pub mod clock;
pub mod url_sanitize;
pub mod active_window;
pub mod browser_url;
pub mod input;
pub mod app_usage;
pub mod state;
pub mod api;
pub mod sync;
pub mod session;
pub mod screenshots;
pub mod queue;
pub mod tray;
