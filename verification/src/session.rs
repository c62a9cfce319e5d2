use vstd::prelude::*;

use crate::api::{ApiError, PasswordLogin};
use crate::state::{reset, reset_of};
use crate::types::{
    is_checked_in, open_break_kind, spec_is_checked_in, spec_open_break_kind, BreakSource, Shift,
    TrackerState, TrackerUser,
};

verus! {

/// A gap between two idle ticks longer than this many seconds means the machine slept.
pub const SLEEP_GAP_SEC: u64 = 30;

/// Heartbeats are queued at most once per this many seconds.
pub const HEARTBEAT_EVERY_SEC: u64 = 60;

/// Seconds without input under which a tick counts as active.
pub const ACTIVE_IDLE_SEC: u64 = 3;

/// Active ticks in a row that end an idle break.
pub const STREAK_TO_RESUME: u32 = 3;

/// The open break was taken by the user, by idleness or by sleep.
pub open spec fn on_counted_break(s: TrackerState) -> bool {
    match spec_open_break_kind(s.shift) {
        Some(BreakSource::Manual) | Some(BreakSource::Idle) | Some(BreakSource::Sleep) => true,
        _ => false,
    }
}

fn counted_break(state: &TrackerState) -> (r: bool)
    ensures
        r == on_counted_break(*state),
{
    match open_break_kind(&state.shift) {
        Some(BreakSource::Manual) | Some(BreakSource::Idle) | Some(BreakSource::Sleep) => true,
        _ => false,
    }
}

/// A sleep interval is recorded for a signed-in user with a checked-in shift
/// that is not already on a manual, idle or sleep break.
pub open spec fn records_sleep(s: TrackerState) -> bool {
    s.is_authenticated && spec_is_checked_in(s.shift) && !on_counted_break(s)
}

/// Whether a sleep (or offline) interval should be recorded now.
pub fn should_record_sleep(state: &TrackerState) -> (r: bool)
    ensures
        r == records_sleep(*state),
{
    if !state.is_authenticated || !is_checked_in(&state.shift) {
        return false;
    }
    !counted_break(state)
}

/// The idle time, in seconds, after which the user counts as idle.
pub open spec fn idle_threshold_sec(s: TrackerState) -> int {
    (if s.idle_timeout_minutes >= 1 {
        s.idle_timeout_minutes as int
    } else {
        1
    }) * 60
}

fn idle_threshold(state: &TrackerState) -> (r: u64)
    ensures
        r == idle_threshold_sec(*state),
{
    let m: u64 = if state.idle_timeout_minutes >= 1 {
        state.idle_timeout_minutes as u64
    } else {
        1
    };
    m * 60
}

/// A heartbeat is logged for a signed-in, checked-in user who is not idle,
/// not on a manual, idle or sleep break, and has no break interval waiting
/// locally.
pub open spec fn logs_heartbeat(s: TrackerState, has_open_pending: bool) -> bool {
    &&& s.is_authenticated
    &&& spec_is_checked_in(s.shift)
    &&& s.idle_seconds < idle_threshold_sec(s)
    &&& !on_counted_break(s)
    &&& !has_open_pending
}

/// Whether a heartbeat should be logged now.
pub fn should_log_heartbeat(state: &TrackerState, has_open_pending: bool) -> (r: bool)
    ensures
        r == logs_heartbeat(*state, has_open_pending),
{
    if !state.is_authenticated || !is_checked_in(&state.shift) {
        return false;
    }
    if state.idle_seconds >= idle_threshold(state) {
        return false;
    }
    if counted_break(state) {
        return false;
    }
    !has_open_pending
}

/// Whether a heartbeat is due, given the seconds since the last one (`None`
/// before the first).
pub fn heartbeat_due(since_last_sec: Option<u64>) -> (r: bool)
    ensures
        r == match since_last_sec {
            Some(s) => s >= HEARTBEAT_EVERY_SEC,
            None => true,
        },
{
    match since_last_sec {
        Some(s) => s >= HEARTBEAT_EVERY_SEC,
        None => true,
    }
}

/// Whether the gap since the previous idle tick (`None` for the first tick)
/// shows that the machine slept.
pub fn slept_between_ticks(gap_sec: Option<u64>) -> (r: bool)
    ensures
        r == match gap_sec {
            Some(g) => g > SLEEP_GAP_SEC,
            None => false,
        },
{
    match gap_sec {
        Some(g) => g > SLEEP_GAP_SEC,
        None => false,
    }
}

/// Records whether the API is reachable; returns whether it just came back,
/// which triggers a flush of everything queued.
pub fn note_online(state: &mut TrackerState, online: bool) -> (reconnected: bool)
    ensures
        *final(state) == (TrackerState { is_online: online, ..*old(state) }),
        reconnected == (!old(state).is_online && online),
{
    let was = state.is_online;
    state.is_online = online;
    !was && online
}

/// The count of active ticks in a row after a tick with the given idle time.
pub open spec fn next_streak(streak: u32, idle_seconds: u64) -> u32 {
    if idle_seconds < ACTIVE_IDLE_SEC {
        if streak == u32::MAX {
            0
        } else {
            (streak + 1) as u32
        }
    } else {
        0
    }
}

/// Records the user's idle time and counts active ticks in a row. Returns
/// whether this tick goes on to end an idle break (after three active ticks
/// in a row) rather than to start one.
pub fn note_idle(state: &mut TrackerState, streak: &mut u32, idle_seconds: u64) -> (resume: bool)
    ensures
        *final(state) == (TrackerState { idle_seconds: idle_seconds, ..*old(state) }),
        *final(streak) == next_streak(*old(streak), idle_seconds),
        resume == (*final(streak) >= STREAK_TO_RESUME),
{
    state.idle_seconds = idle_seconds;
    if idle_seconds < ACTIVE_IDLE_SEC {
        *streak = streak.wrapping_add(1);
    } else {
        *streak = 0;
    }
    *streak >= STREAK_TO_RESUME
}

/// An idle break may be started only for a signed-in, online user with a
/// checked-in shift, no open break, and no break interval waiting locally.
pub open spec fn may_start_idle(s: TrackerState, has_open_pending: bool) -> bool {
    &&& s.is_authenticated
    &&& s.is_online
    &&& spec_is_checked_in(s.shift)
    &&& spec_open_break_kind(s.shift) is None
    &&& !has_open_pending
}

/// Whether an idle break could be started now (before the idle time is checked).
pub fn may_start_idle_break(state: &TrackerState, has_open_pending: bool) -> (r: bool)
    ensures
        r == may_start_idle(*state, has_open_pending),
{
    if !state.is_authenticated || !state.is_online || !is_checked_in(&state.shift) {
        return false;
    }
    if open_break_kind(&state.shift).is_some() {
        return false;
    }
    !has_open_pending
}

/// Whether the user has been idle for the whole idle timeout.
pub fn idle_break_due(state: &TrackerState, idle_seconds: u64) -> (r: bool)
    ensures
        r == (idle_seconds >= idle_threshold_sec(*state)),
{
    idle_seconds >= idle_threshold(state)
}

/// An idle break is ended only when online and the open break is an idle one.
pub fn may_end_idle_break(state: &TrackerState) -> (r: bool)
    ensures
        r == (state.is_online && spec_open_break_kind(state.shift) == Some(BreakSource::Idle)),
{
    state.is_online && match open_break_kind(&state.shift) {
        Some(BreakSource::Idle) => true,
        _ => false,
    }
}

/// After restoring a session at start-up: success clears the last error, a
/// network failure marks the tracker offline, a refusal signs the user out.
pub fn bootstrap_outcome(state: &mut TrackerState, outcome: &Result<(), ApiError>)
    ensures
        match outcome {
            Ok(_) => *final(state) == (TrackerState { last_error: None, ..*old(state) }),
            Err(ApiError::Network(_)) => *final(state) == (TrackerState {
                is_online: false,
                ..*old(state)
            }),
            Err(ApiError::Message(_)) => *final(state) == reset_of(*old(state)),
        },
{
    match outcome {
        Ok(_) => {
            state.last_error = None;
        },
        Err(ApiError::Network(_)) => {
            state.is_online = false;
        },
        Err(ApiError::Message(_)) => {
            reset(state);
        },
    }
}

/// Sleep is recorded and heartbeats are logged only for a checked-in shift;
/// neither happens during a manual, idle or sleep break.
pub proof fn law_no_tracking_on_break(s: TrackerState, has_open_pending: bool)
    ensures
        records_sleep(s) ==> spec_is_checked_in(s.shift) && !on_counted_break(s),
        logs_heartbeat(s, has_open_pending) ==> records_sleep(s),
        logs_heartbeat(s, has_open_pending) ==> s.idle_seconds < idle_threshold_sec(s),
{
}

/// An idle break is started only after the user's whole idle timeout (in
/// minutes, at least one) and never while another break is open, while
/// offline, or while a break interval waits locally; it is ended only when
/// online and the open break is an idle one, never a manual or sleep break.
pub proof fn law_idle_break_rules(s: TrackerState, has_open_pending: bool, sh: Shift)
    ensures
        s.idle_timeout_minutes >= 1 ==> idle_threshold_sec(s) == s.idle_timeout_minutes * 60,
        s.idle_timeout_minutes == 0 ==> idle_threshold_sec(s) == 60,
        s.shift == Some(sh) && sh.breaks@.len() > 0 && sh.breaks@.last().end_time is None
            ==> !may_start_idle(s, has_open_pending),
        !s.is_online ==> !may_start_idle(s, has_open_pending),
        has_open_pending ==> !may_start_idle(s, has_open_pending),
        s.is_authenticated && s.is_online && !has_open_pending && s.shift == Some(sh)
            && sh.status@ == "checked_in"@ && sh.check_in_time is Some && (sh.breaks@.len() == 0
            || sh.breaks@.last().end_time is Some) ==> may_start_idle(s, has_open_pending),
        s.shift == Some(sh) && sh.breaks@.len() > 0 && sh.breaks@.last().end_time is None
            ==> (spec_open_break_kind(s.shift) == Some(BreakSource::Idle) <==> sh.breaks@.last().source
            == Some(BreakSource::Idle)),
{
}

/// No heartbeat is logged once the user has been idle for their idle
/// timeout (in minutes, at least one), nor for a shift that is not checked
/// in, nor while a break interval waits locally.
pub proof fn law_heartbeat_needs_activity(s: TrackerState, has_open_pending: bool)
    ensures
        s.idle_timeout_minutes >= 1 && s.idle_seconds >= s.idle_timeout_minutes * 60
            ==> !logs_heartbeat(s, has_open_pending),
        s.idle_seconds >= 60 && s.idle_timeout_minutes == 0 ==> !logs_heartbeat(s, has_open_pending),
        has_open_pending ==> !logs_heartbeat(s, has_open_pending),
        !s.is_authenticated ==> !logs_heartbeat(s, has_open_pending) && !records_sleep(s),
        s.shift is None ==> !logs_heartbeat(s, has_open_pending) && !records_sleep(s),
{
}

/// While the shift's last break is open and was taken by the user (a break
/// without a source counts as the user's), by idleness or by sleep, no
/// sleep interval is recorded and no heartbeat is logged. During an open
/// offline break both go on as usual: a signed-in, checked-in user still
/// records sleep.
pub proof fn law_break_pauses_tracking(s: TrackerState, has_open_pending: bool, sh: Shift)
    requires
        s.shift == Some(sh),
        sh.breaks@.len() > 0,
        sh.breaks@.last().end_time is None,
    ensures
        (sh.breaks@.last().source is None || sh.breaks@.last().source == Some(BreakSource::Manual)
            || sh.breaks@.last().source == Some(BreakSource::Idle) || sh.breaks@.last().source
            == Some(BreakSource::Sleep)) ==> !records_sleep(s) && !logs_heartbeat(
            s,
            has_open_pending,
        ),
        (sh.breaks@.last().source == Some(BreakSource::Offline) && s.is_authenticated
            && sh.status@ == "checked_in"@ && sh.check_in_time is Some) ==> records_sleep(s),
{
}

/// An idle break is never both startable and endable: starting needs no open
/// break, ending needs an open idle break.
pub proof fn law_idle_start_end_exclusive(s: TrackerState, has_open_pending: bool)
    ensures
        !(may_start_idle(s, has_open_pending) && s.is_online && spec_open_break_kind(s.shift)
            == Some(BreakSource::Idle)),
{
}

/// Three ticks in a row with less than three seconds of idleness, from any
/// count, reach the count that ends an idle break; one idle tick resets it.
pub proof fn law_streak(streak: u32, a: u64, b: u64, c: u64, idle: u64)
    requires
        a < ACTIVE_IDLE_SEC,
        b < ACTIVE_IDLE_SEC,
        c < ACTIVE_IDLE_SEC,
        idle >= ACTIVE_IDLE_SEC,
        streak < u32::MAX - 3,
    ensures
        next_streak(next_streak(next_streak(streak, a), b), c) >= STREAK_TO_RESUME,
        next_streak(streak, idle) == 0,
{
}

/// Where a sign-in stands after the password step.
#[derive(Debug)]
pub enum LoginStep {
    /// Signed in.
    Done,
    /// A two-factor code is needed; carries the temporary token.
    NeedsCode(String),
    /// Two-factor sign-in must be set up first.
    NeedsSetup,
}

/// The sign-in step a password answer leads to, and the user whose session
/// must be completed when it signed in.
pub fn login_step_of(p: PasswordLogin) -> (r: (LoginStep, Option<TrackerUser>))
    ensures
        match p {
            PasswordLogin::Session(u) => r.0 is Done && r.1 == Some(u),
            PasswordLogin::NeedsCode(t) => r.0 is NeedsCode && r.0->NeedsCode_0@ == t@ && r.1 is None,
            PasswordLogin::NeedsSetup => r.0 is NeedsSetup && r.1 is None,
        },
{
    match p {
        PasswordLogin::Session(u) => (LoginStep::Done, Some(u)),
        PasswordLogin::NeedsCode(t) => (LoginStep::NeedsCode(t), None),
        PasswordLogin::NeedsSetup => (LoginStep::NeedsSetup, None),
    }
}

} // verus!
