use vstd::prelude::*;
use vstd::string::*;

use crate::text::{owned, str_eq};

verus! {

/// Idle timeout used when the user's profile gives none (or gives zero).
pub const DEFAULT_IDLE_TIMEOUT_MINUTES: u32 = 5;

/// What opened a break in a shift.
#[derive(Debug, Clone, Copy, PartialEq, Eq, Structural)]
pub enum BreakSource {
    Manual,
    Idle,
    Sleep,
    Offline,
}

/// One break of a shift; `end_time` is `None` while the break is open.
#[derive(Debug, Clone)]
pub struct ShiftBreak {
    pub start_time: String,
    pub end_time: Option<String>,
    pub source: Option<BreakSource>,
}

/// The server's record of today's shift. The two minute totals are carried as
/// the bit patterns of their `f64` values (`f64::to_bits`); nothing here reads them.
#[derive(Debug, Clone)]
pub struct Shift {
    pub id: String,
    pub user_id: String,
    pub date: String,
    pub check_in_time: Option<String>,
    pub check_out_time: Option<String>,
    pub total_minutes_bits: Option<u64>,
    pub breaks: Vec<ShiftBreak>,
    pub total_break_minutes_bits: Option<u64>,
    pub status: String,
    pub is_active: Option<bool>,
}

/// The signed-in user's profile and monitoring settings.
#[derive(Debug, Clone)]
pub struct TrackerUser {
    pub id: String,
    pub email: String,
    pub first_name: Option<String>,
    pub last_name: Option<String>,
    pub idle_timeout_minutes: Option<u32>,
    pub monitor_screenshots: Option<bool>,
    pub monitor_app_usage: Option<bool>,
}

/// What the app-usage tracker currently watches.
#[derive(Debug, Clone)]
pub struct TrackingSummary {
    pub app: Option<String>,
    pub domain: Option<String>,
    pub pending_segments: u32,
}

/// Everything the tracker overlay shows.
#[derive(Debug, Clone)]
pub struct TrackerState {
    pub is_authenticated: bool,
    pub user: Option<TrackerUser>,
    pub shift: Option<Shift>,
    pub idle_seconds: u64,
    pub idle_timeout_minutes: u32,
    pub is_online: bool,
    pub pending_count: u32,
    pub last_error: Option<String>,
    pub monitoring_active: bool,
    pub monitoring_error: Option<String>,
    pub last_sample_at: Option<String>,
    pub tracking_summary: Option<TrackingSummary>,
}

/// The state of a tracker that nobody has signed in to.
pub open spec fn is_default_state(s: TrackerState) -> bool {
    &&& !s.is_authenticated
    &&& s.user is None
    &&& s.shift is None
    &&& s.idle_seconds == 0
    &&& s.idle_timeout_minutes == DEFAULT_IDLE_TIMEOUT_MINUTES
    &&& s.is_online
    &&& s.pending_count == 0
    &&& s.last_error is None
    &&& !s.monitoring_active
    &&& s.monitoring_error is None
    &&& s.last_sample_at is None
    &&& s.tracking_summary is None
}

impl Default for TrackerState {
    fn default() -> (s: Self)
        ensures
            is_default_state(s),
    {
        TrackerState {
            is_authenticated: false,
            user: None,
            shift: None,
            idle_seconds: 0,
            idle_timeout_minutes: DEFAULT_IDLE_TIMEOUT_MINUTES,
            is_online: true,
            pending_count: 0,
            last_error: None,
            monitoring_active: false,
            monitoring_error: None,
            last_sample_at: None,
            tracking_summary: None,
        }
    }
}

/// A break interval waiting in the local queue to be recorded on the server.
#[derive(Debug, Clone)]
pub struct PendingBreak {
    pub id: String,
    pub start_time: String,
    pub end_time: Option<String>,
    pub source: String,
}

/// A ten-minute activity sample waiting to be uploaded.
#[derive(Debug, Clone)]
pub struct PendingActivitySample {
    pub id: String,
    pub window_start: String,
    pub captured_at: String,
    pub keyboard_pct: i32,
    pub mouse_pct: i32,
    pub combined_pct: i32,
    pub image_path: String,
}

/// A closed span of time spent in one application window.
#[derive(Debug, Clone)]
pub struct AppUsageSegment {
    pub client_id: String,
    pub app: String,
    pub exec_name: String,
    pub title: String,
    pub url: Option<String>,
    pub domain: Option<String>,
    pub started_at: String,
    pub ended_at: String,
    pub duration_sec: u64,
    pub active_sec: u64,
    pub platform: String,
}

/// One member of a JSON object, as far as the profile reader looks at it:
/// absent, `null`, a boolean, a string, a number that fits `u64`, or anything else.
#[derive(Debug, Clone)]
pub enum JsonField {
    Missing,
    Null,
    Bool(bool),
    Str(String),
    UInt(u64),
    Other,
}

/// What a JSON member holds, as a value of the specification.
pub enum FieldView {
    Missing,
    Null,
    Bool(bool),
    Str(Seq<char>),
    UInt(u64),
    Other,
}

/// The value a member stands for.
pub open spec fn field_view(f: JsonField) -> FieldView {
    match f {
        JsonField::Missing => FieldView::Missing,
        JsonField::Null => FieldView::Null,
        JsonField::Bool(b) => FieldView::Bool(b),
        JsonField::Str(s) => FieldView::Str(s@),
        JsonField::UInt(n) => FieldView::UInt(n),
        JsonField::Other => FieldView::Other,
    }
}

/// The string a member's value holds, if it holds one.
pub open spec fn view_str(v: FieldView) -> Option<Seq<char>> {
    match v {
        FieldView::Str(s) => Some(s),
        _ => None,
    }
}

/// `serde_json::Value::as_str` on the member, `None` when it is absent.
pub open spec fn field_str(f: JsonField) -> Option<Seq<char>> {
    match f {
        JsonField::Str(s) => Some(s@),
        _ => None,
    }
}

/// `serde_json::Value::as_u64` on the member, `None` when it is absent.
pub open spec fn field_u64(f: JsonField) -> Option<u64> {
    match f {
        JsonField::UInt(n) => Some(n),
        _ => None,
    }
}

/// `serde_json::Value::as_bool` on the member, `None` when it is absent.
pub open spec fn field_bool(f: JsonField) -> Option<bool> {
    match f {
        JsonField::Bool(b) => Some(b),
        _ => None,
    }
}

/// The members of a user object that the profile reader looks at.
#[derive(Debug, Clone)]
pub struct RawUser {
    pub underscore_id: JsonField,
    pub id: JsonField,
    pub email: JsonField,
    pub first_name: JsonField,
    pub last_name: JsonField,
    pub idle_timeout_minutes: JsonField,
    pub monitor_screenshots: JsonField,
    pub monitor_app_usage: JsonField,
}

/// The string held by a member, if it holds one.
pub fn json_str(f: &JsonField) -> (r: Option<String>)
    ensures
        match r {
            Some(s) => field_str(*f) == Some(s@),
            None => field_str(*f) is None,
        },
{
    match f {
        JsonField::Str(s) => Some(s.clone()),
        _ => None,
    }
}

/// The string held by a member, or the empty string.
pub open spec fn str_or_empty(o: Option<Seq<char>>) -> Seq<char> {
    match o {
        Some(s) => s,
        None => Seq::empty(),
    }
}

/// The user id: `_id` when that member is present (whatever it holds), else `id`.
pub open spec fn raw_user_id(v: RawUser) -> Seq<char> {
    if v.underscore_id is Missing {
        str_or_empty(field_str(v.id))
    } else {
        str_or_empty(field_str(v.underscore_id))
    }
}

/// Whether an optional string has the given value.
pub open spec fn opt_str_is(o: Option<String>, v: Option<Seq<char>>) -> bool {
    match (o, v) {
        (Some(a), Some(b)) => a@ == b,
        (None, None) => true,
        _ => false,
    }
}

/// What `TrackerUser::from_raw` makes of a user object.
pub open spec fn user_from_raw(v: RawUser, u: TrackerUser) -> bool {
    &&& u.id@ == raw_user_id(v)
    &&& u.email@ == str_or_empty(field_str(v.email))
    &&& opt_str_is(u.first_name, field_str(v.first_name))
    &&& opt_str_is(u.last_name, field_str(v.last_name))
    &&& u.idle_timeout_minutes == (match field_u64(v.idle_timeout_minutes) {
        Some(n) => Some(n as u32),
        None => None,
    })
    &&& u.monitor_screenshots == field_bool(v.monitor_screenshots)
    &&& u.monitor_app_usage == field_bool(v.monitor_app_usage)
}

fn str_or_empty_exec(o: Option<String>) -> (r: String)
    ensures
        r@ == str_or_empty(match o {
            Some(s) => Some(s@),
            None => None,
        }),
{
    match o {
        Some(s) => s,
        None => String::new(),
    }
}

impl TrackerUser {
    /// Reads a profile from the members of a user object. An idle timeout
    /// that does not fit `u32` keeps its low 32 bits.
    pub fn from_raw(v: RawUser) -> (u: Self)
        ensures
            user_from_raw(v, u),
    {
        let id = match &v.underscore_id {
            JsonField::Missing => str_or_empty_exec(json_str(&v.id)),
            other => str_or_empty_exec(json_str(other)),
        };
        let idle_timeout_minutes = match &v.idle_timeout_minutes {
            JsonField::UInt(n) => Some(*n as u32),
            _ => None,
        };
        let monitor_screenshots = match &v.monitor_screenshots {
            JsonField::Bool(b) => Some(*b),
            _ => None,
        };
        let monitor_app_usage = match &v.monitor_app_usage {
            JsonField::Bool(b) => Some(*b),
            _ => None,
        };
        TrackerUser {
            id,
            email: str_or_empty_exec(json_str(&v.email)),
            first_name: json_str(&v.first_name),
            last_name: json_str(&v.last_name),
            idle_timeout_minutes,
            monitor_screenshots,
            monitor_app_usage,
        }
    }

    /// Screenshots are taken unless the profile turns them off.
    pub fn wants_screenshots(&self) -> (r: bool)
        ensures
            r == (self.monitor_screenshots != Some(false)),
    {
        match self.monitor_screenshots {
            Some(b) => b,
            None => true,
        }
    }

    /// App usage is tracked unless the profile turns it off.
    pub fn wants_app_usage(&self) -> (r: bool)
        ensures
            r == (self.monitor_app_usage != Some(false)),
    {
        match self.monitor_app_usage {
            Some(b) => b,
            None => true,
        }
    }
}

/// The source of the shift's last break while that break is still open; a
/// break without a recorded source counts as manual.
pub open spec fn spec_open_break_kind(shift: Option<Shift>) -> Option<BreakSource> {
    match shift {
        Some(s) => if s.breaks@.len() > 0 && s.breaks@.last().end_time is None {
            match s.breaks@.last().source {
                Some(src) => Some(src),
                None => Some(BreakSource::Manual),
            }
        } else {
            None
        },
        None => None,
    }
}

/// The wire name of a break source.
pub open spec fn source_name(s: BreakSource) -> Seq<char> {
    match s {
        BreakSource::Manual => "manual"@,
        BreakSource::Idle => "idle"@,
        BreakSource::Sleep => "sleep"@,
        BreakSource::Offline => "offline"@,
    }
}

/// The wire name of a break source.
pub fn break_source_name(s: BreakSource) -> (r: String)
    ensures
        r@ == source_name(s),
{
    match s {
        BreakSource::Manual => owned("manual"),
        BreakSource::Idle => owned("idle"),
        BreakSource::Sleep => owned("sleep"),
        BreakSource::Offline => owned("offline"),
    }
}

/// The source of the open break of the shift, if its last break is open.
pub fn open_break_kind(shift: &Option<Shift>) -> (r: Option<BreakSource>)
    ensures
        r == spec_open_break_kind(*shift),
{
    match shift {
        None => None,
        Some(s) => {
            let n = s.breaks.len();
            if n == 0 {
                return None;
            }
            let last = &s.breaks[n - 1];
            if last.end_time.is_some() {
                return None;
            }
            match last.source {
                Some(src) => Some(src),
                None => Some(BreakSource::Manual),
            }
        },
    }
}

/// The wire name of the source of the shift's open break, if its last break is open.
pub fn open_break_source(shift: &Option<Shift>) -> (r: Option<String>)
    ensures
        match spec_open_break_kind(*shift) {
            Some(k) => r is Some && r->0@ == source_name(k),
            None => r is None,
        },
{
    match open_break_kind(shift) {
        Some(k) => Some(break_source_name(k)),
        None => None,
    }
}

/// The shift is checked in: its status says so and it has a check-in time.
pub open spec fn spec_is_checked_in(shift: Option<Shift>) -> bool {
    match shift {
        Some(s) => s.status@ == "checked_in"@ && s.check_in_time is Some,
        None => false,
    }
}

/// Whether the shift is checked in.
pub fn is_checked_in(shift: &Option<Shift>) -> (r: bool)
    ensures
        r == spec_is_checked_in(*shift),
{
    match shift {
        Some(s) => str_eq(s.status.as_str(), "checked_in") && s.check_in_time.is_some(),
        None => false,
    }
}

} // verus!
