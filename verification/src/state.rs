use vstd::prelude::*;

use crate::types::{
    is_checked_in, open_break_kind, spec_is_checked_in, spec_open_break_kind, TrackerState,
    TrackerUser, DEFAULT_IDLE_TIMEOUT_MINUTES,
};

verus! {

/// Monitoring runs for a signed-in user whose shift is checked in and not on a break.
pub open spec fn should_monitor(s: TrackerState) -> bool {
    s.is_authenticated && spec_is_checked_in(s.shift) && spec_open_break_kind(s.shift) is None
}

/// Whether screenshots and app usage should be recorded now.
pub fn monitoring_should_run(state: &TrackerState) -> (r: bool)
    ensures
        r == should_monitor(*state),
{
    state.is_authenticated && is_checked_in(&state.shift) && open_break_kind(&state.shift).is_none()
}

/// The idle timeout a user's profile asks for: its own when positive, else the default.
pub open spec fn idle_timeout_of(user: Option<TrackerUser>) -> u32 {
    match user {
        Some(u) => match u.idle_timeout_minutes {
            Some(m) => if m > 0 {
                m
            } else {
                DEFAULT_IDLE_TIMEOUT_MINUTES
            },
            None => DEFAULT_IDLE_TIMEOUT_MINUTES,
        },
        None => DEFAULT_IDLE_TIMEOUT_MINUTES,
    }
}

/// Records the signed-in user (or that nobody is signed in) and their idle timeout.
pub fn set_user(state: &mut TrackerState, user: Option<TrackerUser>)
    ensures
        *final(state) == (TrackerState {
            user: user,
            is_authenticated: user is Some,
            idle_timeout_minutes: idle_timeout_of(user),
            ..*old(state)
        }),
{
    let minutes = match &user {
        Some(u) => match u.idle_timeout_minutes {
            Some(m) => if m > 0 {
                m
            } else {
                DEFAULT_IDLE_TIMEOUT_MINUTES
            },
            None => DEFAULT_IDLE_TIMEOUT_MINUTES,
        },
        None => DEFAULT_IDLE_TIMEOUT_MINUTES,
    };
    state.is_authenticated = user.is_some();
    state.user = user;
    state.idle_timeout_minutes = minutes;
}

/// The signed-out state that keeps what was known of the network, the last
/// monitoring error and the last sample time.
pub open spec fn reset_of(s: TrackerState) -> TrackerState {
    TrackerState {
        is_authenticated: false,
        user: None,
        shift: None,
        idle_seconds: 0,
        idle_timeout_minutes: DEFAULT_IDLE_TIMEOUT_MINUTES,
        is_online: s.is_online,
        pending_count: 0,
        last_error: None,
        monitoring_active: false,
        monitoring_error: s.monitoring_error,
        last_sample_at: s.last_sample_at,
        tracking_summary: None,
    }
}

/// Signs the state out, keeping the online flag, the monitoring error and
/// the last sample time.
pub fn reset(state: &mut TrackerState)
    ensures
        *final(state) == reset_of(*old(state)),
{
    let mut fresh = TrackerState::default();
    fresh.is_online = state.is_online;
    fresh.monitoring_error = state.monitoring_error.take();
    fresh.last_sample_at = state.last_sample_at.take();
    *state = fresh;
}

/// Which monitors should run.
#[derive(Debug, Clone, Copy, PartialEq, Eq, Structural)]
pub struct MonitorPlan {
    pub screenshots: bool,
    pub app_usage: bool,
}

/// Screenshots run while monitoring should run and the user (if known) wants them.
pub open spec fn wants_screens(s: TrackerState) -> bool {
    match s.user {
        Some(u) => u.monitor_screenshots != Some(false),
        None => true,
    }
}

/// App usage is tracked while monitoring should run and the user (if known) wants it.
pub open spec fn wants_usage(s: TrackerState) -> bool {
    match s.user {
        Some(u) => u.monitor_app_usage != Some(false),
        None => true,
    }
}

/// Which monitors should run in this state.
pub fn monitor_plan(state: &TrackerState) -> (r: MonitorPlan)
    ensures
        r.screenshots == (should_monitor(*state) && wants_screens(*state)),
        r.app_usage == (should_monitor(*state) && wants_usage(*state)),
{
    let should = monitoring_should_run(state);
    let shots = match &state.user {
        Some(u) => u.wants_screenshots(),
        None => true,
    };
    let usage = match &state.user {
        Some(u) => u.wants_app_usage(),
        None => true,
    };
    MonitorPlan { screenshots: should && shots, app_usage: should && usage }
}

/// Monitoring never runs for a shift that is not checked in, nor during a break.
pub proof fn law_monitoring_needs_open_shift(s: TrackerState)
    ensures
        should_monitor(s) ==> s.is_authenticated && spec_is_checked_in(s.shift)
            && spec_open_break_kind(s.shift) is None,
        !spec_is_checked_in(s.shift) ==> !should_monitor(s),
{
}

/// Signing out twice is the same as signing out once.
pub proof fn law_reset_idempotent(s: TrackerState)
    ensures
        reset_of(reset_of(s)) == reset_of(s),
{
}

/// A user's idle timeout is always positive.
pub proof fn law_idle_timeout_positive(user: Option<TrackerUser>)
    ensures
        idle_timeout_of(user) > 0,
{
}

} // verus!
