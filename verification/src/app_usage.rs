use vstd::prelude::*;
use vstd::string::*;

use crate::active_window::{current_platform, platform_name, sanitized_from_snapshot, ActiveWindowSnapshot, Os};
use crate::clock::{iso, new_client_id, rfc3339_at_millis, trunc_div};
use crate::input::InputMeter;
use crate::text::{owned, str_eq};
use crate::types::{AppUsageSegment, TrackingSummary};
use crate::url_sanitize::{opt_view, sanitized_domain};

verus! {

/// How often the frontmost window is polled.
pub const POLL_MS: u64 = 5000;

/// Segments never span two ten-minute windows.
pub const WINDOW_MS: i64 = 600000;

/// Segments shorter than this are dropped; kept ones last at least this long.
pub const MIN_SEGMENT_SEC: i64 = 2;

/// Segments are uploaded in batches of at most this many.
pub const BATCH_SIZE: usize = 200;

/// The message shown when the front window cannot be read.
pub const WINDOW_UNAVAILABLE: &'static str = "Window tracking unavailable \u{2014} grant Screen Recording and Automation permission in System Settings and restart the app.";

/// The segment being recorded: one window, since `started_at_ms`.
/// `active_origin` is the meter's active-second count when it opened.
#[derive(Debug)]
pub struct OpenSegment {
    pub app: String,
    pub exec_name: String,
    pub title: String,
    pub url: Option<String>,
    pub domain: Option<String>,
    pub started_at_ms: i64,
    pub active_origin: u64,
    pub active_sec: u64,
}

/// Active seconds of a segment: the larger of the meter's count since the
/// segment opened and the poll estimate, plus one for input in the running second.
pub open spec fn measured_active(seg: OpenSegment, m: InputMeter) -> int {
    let from_cumul: int = if m.cumulative_active >= seg.active_origin {
        m.cumulative_active - seg.active_origin
    } else {
        0
    };
    let base: int = if from_cumul >= seg.active_sec {
        from_cumul
    } else {
        seg.active_sec as int
    };
    if m.key_this_sec || m.mouse_this_sec {
        base + 1
    } else {
        base
    }
}

/// The segment can be measured without overflow.
pub open spec fn measurable(seg: OpenSegment, m: InputMeter) -> bool {
    measured_active(seg, m) <= u64::MAX
}

/// Active seconds of the segment, as far as the meter tells.
pub fn measure_active(seg: &OpenSegment, meter: &InputMeter) -> (r: u64)
    requires
        measurable(*seg, *meter),
    ensures
        r == measured_active(*seg, *meter),
{
    let from_cumul = meter.cumulative_active.saturating_sub(seg.active_origin);
    let mut active = if from_cumul >= seg.active_sec {
        from_cumul
    } else {
        seg.active_sec
    };
    if meter.key_this_sec || meter.mouse_this_sec {
        active += 1;
    }
    active
}

/// Whether `r` is what closing `seg` at `end_ms` yields: nothing for a segment
/// shorter than two seconds, else a record whose duration is the whole seconds
/// elapsed (at least two) and whose active time is the measured one capped by
/// the duration.
pub open spec fn closed_as(
    seg: OpenSegment,
    end_ms: i64,
    m: InputMeter,
    os: Os,
    r: Option<AppUsageSegment>,
) -> bool {
    let elapsed = end_ms - seg.started_at_ms;
    if elapsed < MIN_SEGMENT_SEC * 1000 {
        r is None
    } else {
        let duration: int = if trunc_div(elapsed, 1000) >= MIN_SEGMENT_SEC {
            trunc_div(elapsed, 1000)
        } else {
            MIN_SEGMENT_SEC as int
        };
        let active: int = if measured_active(seg, m) <= duration {
            measured_active(seg, m)
        } else {
            duration
        };
        &&& r is Some
        &&& r->0.duration_sec == duration
        &&& r->0.active_sec == active
        &&& r->0.app@ == seg.app@
        &&& r->0.exec_name@ == seg.exec_name@
        &&& r->0.title@ == seg.title@
        &&& opt_view(r->0.url) == opt_view(seg.url)
        &&& opt_view(r->0.domain) == opt_view(seg.domain)
        &&& (rfc3339_at_millis(seg.started_at_ms) is Some ==> rfc3339_at_millis(seg.started_at_ms)
            == Some(r->0.started_at@))
        &&& (rfc3339_at_millis(end_ms) is Some ==> rfc3339_at_millis(end_ms) == Some(
            r->0.ended_at@,
        ))
        &&& r->0.platform@ == platform_name(os)
        &&& r->0.client_id@.len() == 36
    }
}

/// The segment can be closed at `end_ms` without overflow.
pub open spec fn closable(seg: OpenSegment, end_ms: i64, m: InputMeter) -> bool {
    &&& i64::MIN <= end_ms - seg.started_at_ms <= i64::MAX
    &&& measurable(seg, m)
}

/// Closes a segment at `end_ms` into the record to upload, or drops it when
/// it lasted under two seconds.
pub fn close_segment(seg: OpenSegment, end_ms: i64, meter: &InputMeter, os: Os) -> (r: Option<
    AppUsageSegment,
>)
    requires
        closable(seg, end_ms, *meter),
    ensures
        closed_as(seg, end_ms, *meter, os, r),
{
    let elapsed_ms = end_ms - seg.started_at_ms;
    if elapsed_ms < MIN_SEGMENT_SEC * 1000 {
        return None;
    }
    let secs = elapsed_ms / 1000;
    let duration_sec = if secs >= MIN_SEGMENT_SEC {
        secs as u64
    } else {
        MIN_SEGMENT_SEC as u64
    };
    let measured = measure_active(&seg, meter);
    let active_sec = if measured <= duration_sec {
        measured
    } else {
        duration_sec
    };
    let started_at = iso(seg.started_at_ms);
    let ended_at = iso(end_ms);
    Some(
        AppUsageSegment {
            client_id: new_client_id(),
            app: seg.app,
            exec_name: seg.exec_name,
            title: seg.title,
            url: seg.url,
            domain: seg.domain,
            started_at,
            ended_at,
            duration_sec,
            active_sec,
            platform: owned(current_platform(os)),
        },
    )
}

fn clone_opt(o: &Option<String>) -> (r: Option<String>)
    ensures
        opt_view(r) == opt_view(*o),
{
    match o {
        Some(s) => Some(s.clone()),
        None => None,
    }
}

/// What the overlay shows of the segment being recorded.
pub fn tracking_summary(open: &Option<OpenSegment>, pending: u32) -> (r: TrackingSummary)
    ensures
        r.pending_segments == pending,
        match open {
            Some(o) => r.app is Some && r.app->0@ == o.app@ && opt_view(r.domain) == opt_view(
                o.domain,
            ),
            None => r.app is None && r.domain is None,
        },
{
    match open {
        Some(o) => TrackingSummary {
            app: Some(o.app.clone()),
            domain: clone_opt(&o.domain),
            pending_segments: pending,
        },
        None => TrackingSummary { app: None, domain: None, pending_segments: pending },
    }
}

/// What one poll of the frontmost window found.
pub enum WindowObservation {
    /// The window could not be read (missing permissions).
    Unavailable,
    /// No window is in front.
    NoWindow,
    /// This window is in front.
    Window(ActiveWindowSnapshot),
}

/// What a poll leaves to do: a closed segment to enqueue, and the message to
/// show when window tracking is unavailable.
pub struct PollResult {
    pub finished: Option<AppUsageSegment>,
    pub window_error: Option<String>,
}

/// The open segment after one poll credited it with five seconds of activity
/// (when the last second had input).
pub open spec fn bumped(o: OpenSegment, m: InputMeter) -> OpenSegment {
    if m.last_key || m.last_mouse {
        OpenSegment { active_sec: (o.active_sec + 5) as u64, ..o }
    } else {
        o
    }
}

/// The poll can run without overflow; `tracks_window` tells whether it
/// tracks a window (tracking runs and a window was read), the only case in
/// which the open segment is credited before it may be closed.
pub open spec fn pollable(open: Option<OpenSegment>, now: i64, m: InputMeter, tracks_window: bool) -> bool {
    match open {
        Some(o) => {
            &&& (tracks_window && (m.last_key || m.last_mouse) ==> o.active_sec + 5 <= u64::MAX)
            &&& closable(
                if tracks_window {
                    bumped(o, m)
                } else {
                    o
                },
                now,
                m,
            )
        },
        None => true,
    }
}

/// The domain kept of a snapshot's address.
pub open spec fn snapshot_domain(s: ActiveWindowSnapshot) -> Option<Seq<char>> {
    sanitized_domain(opt_view(s.raw_url))
}

/// The open segment must end: nothing was open, or the window's application,
/// title or domain changed.
pub open spec fn window_changed(o: Option<OpenSegment>, s: ActiveWindowSnapshot) -> bool {
    match o {
        None => true,
        Some(seg) => seg.app@ != s.app@ || seg.title@ != s.title@ || opt_view(seg.url)
            != snapshot_domain(s),
    }
}

/// The open segment started in another ten-minute window than `now`.
pub open spec fn crosses_window(o: Option<OpenSegment>, now: i64) -> bool {
    match o {
        None => false,
        Some(seg) => trunc_div(seg.started_at_ms as int, WINDOW_MS as int) != trunc_div(
            now as int,
            WINDOW_MS as int,
        ),
    }
}

/// Whether `n` is the segment opened at `now` for the window `s`.
pub open spec fn opened_for(n: OpenSegment, s: ActiveWindowSnapshot, now: i64, m: InputMeter) -> bool {
    &&& n.app@ == s.app@
    &&& n.exec_name@ == s.exec_name@
    &&& n.title@ == s.title@
    &&& opt_view(n.url) == snapshot_domain(s)
    &&& opt_view(n.domain) == snapshot_domain(s)
    &&& n.started_at_ms == now
    &&& n.active_origin == m.cumulative_active
    &&& n.active_sec == 0
}

/// Whether the two segments hold the same values.
pub open spec fn same_segment(a: OpenSegment, b: OpenSegment) -> bool {
    &&& a.app@ == b.app@
    &&& a.exec_name@ == b.exec_name@
    &&& a.title@ == b.title@
    &&& opt_view(a.url) == opt_view(b.url)
    &&& opt_view(a.domain) == opt_view(b.domain)
    &&& a.started_at_ms == b.started_at_ms
    &&& a.active_origin == b.active_origin
    &&& a.active_sec == b.active_sec
}

fn opt_str_eq(a: &Option<String>, b: &Option<String>) -> (r: bool)
    ensures
        r == (opt_view(*a) == opt_view(*b)),
{
    match (a, b) {
        (Some(x), Some(y)) => str_eq(x.as_str(), y.as_str()),
        (None, None) => true,
        _ => false,
    }
}

/// One poll of the app-usage tracker. When tracking should not run, or no
/// window can be read, the open segment is closed at `now`. Otherwise the
/// open segment is credited five seconds when the last second had input, and
/// is closed and replaced by a segment for the front window when the window's
/// application, title or domain changed or a ten-minute window boundary was crossed.
pub fn poll_once(
    open: &mut Option<OpenSegment>,
    should_track: bool,
    obs: WindowObservation,
    now: i64,
    meter: &InputMeter,
    os: Os,
) -> (r: PollResult)
    requires
        pollable(*old(open), now, *meter, should_track && obs is Window),
    ensures
        (should_track && obs is Unavailable) ==> r.window_error is Some && r.window_error->0@
            == WINDOW_UNAVAILABLE@,
        !(should_track && obs is Unavailable) ==> r.window_error is None,
        !should_track || !(obs is Window) ==> {
            &&& *final(open) is None
            &&& match *old(open) {
                Some(o) => closed_as(o, now, *meter, os, r.finished),
                None => r.finished is None,
            }
        },
        should_track && obs is Window ==> *final(open) is Some && trunc_div(
            (*final(open))->0.started_at_ms as int,
            WINDOW_MS as int,
        ) == trunc_div(now as int, WINDOW_MS as int),
        should_track && obs is Window ==> {
            let s = obs->0;
            if window_changed(*old(open), s) || crosses_window(*old(open), now) {
                &&& *final(open) is Some
                &&& opened_for((*final(open))->0, s, now, *meter)
                &&& match *old(open) {
                    Some(o) => closed_as(bumped(o, *meter), now, *meter, os, r.finished),
                    None => r.finished is None,
                }
            } else {
                &&& r.finished is None
                &&& *old(open) is Some && *final(open) is Some
                &&& same_segment((*final(open))->0, bumped((*old(open))->0, *meter))
            }
        },
{
    let snap = match obs {
        WindowObservation::Window(s) if should_track => s,
        other => {
            let unavailable = should_track && match other {
                WindowObservation::Unavailable => true,
                _ => false,
            };
            let window_error = if unavailable {
                Some(owned(WINDOW_UNAVAILABLE))
            } else {
                None
            };
            let finished = match open.take() {
                Some(o) => close_segment(o, now, meter, os),
                None => None,
            };
            return PollResult { finished, window_error };
        },
    };
    let (url, domain) = sanitized_from_snapshot(&snap);
    let (k, m) = (meter.last_key, meter.last_mouse);
    let current = open.take();
    let (crosses, changed) = match &current {
        Some(o) => (
            o.started_at_ms / WINDOW_MS != now / WINDOW_MS,
            !str_eq(o.app.as_str(), snap.app.as_str()) || !str_eq(
                o.title.as_str(),
                snap.title.as_str(),
            ) || !opt_str_eq(&o.url, &url),
        ),
        None => (false, true),
    };
    let current = match current {
        Some(mut o) => {
            if k || m {
                o.active_sec = o.active_sec + 5;
            }
            Some(o)
        },
        None => None,
    };
    if changed || crosses {
        let finished = match current {
            Some(o) => close_segment(o, now, meter, os),
            None => None,
        };
        *open = Some(
            OpenSegment {
                app: snap.app,
                exec_name: snap.exec_name,
                title: snap.title,
                url,
                domain,
                started_at_ms: now,
                active_origin: meter.cumulative_active,
                active_sec: 0,
            },
        );
        PollResult { finished, window_error: None }
    } else {
        *open = current;
        PollResult { finished: None, window_error: None }
    }
}

/// A closed segment lasts at least two seconds, no longer than the time that
/// elapsed, and is never more active than long.
pub proof fn law_segment_bounds(seg: OpenSegment, end_ms: i64, m: InputMeter, os: Os, r: Option<AppUsageSegment>)
    requires
        closed_as(seg, end_ms, m, os, r),
        r is Some,
    ensures
        r->0.duration_sec >= MIN_SEGMENT_SEC,
        r->0.duration_sec * 1000 <= end_ms - seg.started_at_ms,
        r->0.active_sec <= r->0.duration_sec,
{
    let elapsed = end_ms - seg.started_at_ms;
    assert(elapsed >= 2000);
    assert((elapsed / 1000) * 1000 <= elapsed) by (nonlinear_arith)
        requires
            elapsed >= 0,
    ;
    assert(elapsed / 1000 >= 2) by (nonlinear_arith)
        requires
            elapsed >= 2000,
    ;
}

/// A poll credits the open segment five seconds exactly when the last
/// second had keyboard or mouse input, and otherwise leaves it as it was.
/// The open segment ends when the front window's application, title or
/// domain differs from the segment's, and a new segment is for the window
/// in front: its names and address, starting now, with nothing credited.
pub proof fn law_poll_credits_and_splits(o: OpenSegment, m: InputMeter, s: ActiveWindowSnapshot, n: OpenSegment, now: i64)
    requires
        o.active_sec + 5 <= u64::MAX,
    ensures
        (m.last_key || m.last_mouse) ==> bumped(o, m).active_sec == o.active_sec + 5,
        !(m.last_key || m.last_mouse) ==> bumped(o, m) == o,
        bumped(o, m).started_at_ms == o.started_at_ms && bumped(o, m).active_origin == o.active_origin,
        window_changed(Some(o), s) <==> (o.app@ != s.app@ || o.title@ != s.title@ || opt_view(o.url)
            != sanitized_domain(opt_view(s.raw_url))),
        window_changed(None, s),
        opened_for(n, s, now, m) ==> n.app@ == s.app@ && n.title@ == s.title@ && n.exec_name@
            == s.exec_name@ && n.started_at_ms == now && n.active_sec == 0 && opt_view(n.domain)
            == sanitized_domain(opt_view(s.raw_url)),
        crosses_window(Some(o), now) <==> trunc_div(o.started_at_ms as int, 600000) != trunc_div(
            now as int,
            600000,
        ),
{
}

/// A segment that a poll opens takes the meter's count of active seconds at
/// that moment as its origin. When it is later closed (credited as a poll
/// credits it) it is given at most the active seconds that the meter counted
/// since it opened, plus the running second, and when no input came at all
/// since it opened it has no active seconds.
pub proof fn law_segment_counts_only_its_own_activity(
    n: OpenSegment,
    s: ActiveWindowSnapshot,
    now: i64,
    m: InputMeter,
    end_ms: i64,
    m2: InputMeter,
    os: Os,
    r: Option<AppUsageSegment>,
)
    requires
        opened_for(n, s, now, m),
        closed_as(bumped(n, m2), end_ms, m2, os, r),
        m2.cumulative_active >= m.cumulative_active,
        !m2.last_key && !m2.last_mouse,
    ensures
        n.active_origin == m.cumulative_active,
        n.active_sec == 0,
        r matches Some(seg) ==> seg.active_sec <= m2.cumulative_active - m.cumulative_active + (
        if m2.key_this_sec || m2.mouse_this_sec {
            1int
        } else {
            0int
        }),
        r matches Some(seg) ==> (m2.cumulative_active == m.cumulative_active && !m2.key_this_sec
            && !m2.mouse_this_sec ==> seg.active_sec == 0),
{
}

/// Whether the segment can be measured against the meter without overflow.
pub fn can_measure(seg: &OpenSegment, meter: &InputMeter) -> (r: bool)
    ensures
        r == measurable(*seg, *meter),
{
    let from_cumul = meter.cumulative_active.saturating_sub(seg.active_origin);
    let base = if from_cumul >= seg.active_sec {
        from_cumul
    } else {
        seg.active_sec
    };
    !(meter.key_this_sec || meter.mouse_this_sec) || base < u64::MAX
}

/// Whether the segment can be closed at `end_ms` without overflow.
pub fn can_close(seg: &OpenSegment, end_ms: i64, meter: &InputMeter) -> (r: bool)
    ensures
        r == closable(*seg, end_ms, *meter),
{
    end_ms.checked_sub(seg.started_at_ms).is_some() && can_measure(seg, meter)
}

/// Whether a poll at `now` can run without overflow (`tracks_window` as for
/// `pollable`).
pub fn can_poll(open: &Option<OpenSegment>, now: i64, meter: &InputMeter, tracks_window: bool) -> (r:
    bool)
    ensures
        r == pollable(*open, now, *meter, tracks_window),
{
    match open {
        None => true,
        Some(o) => {
            let credited = tracks_window && (meter.last_key || meter.last_mouse);
            if credited && o.active_sec > u64::MAX - 5 {
                return false;
            }
            let bump: u64 = if credited {
                5
            } else {
                0
            };
            let probe = OpenSegment {
                app: String::new(),
                exec_name: String::new(),
                title: String::new(),
                url: None,
                domain: None,
                started_at_ms: o.started_at_ms,
                active_origin: o.active_origin,
                active_sec: o.active_sec + bump,
            };
            proof {
                let target = if tracks_window {
                    bumped(*o, *meter)
                } else {
                    *o
                };
                assert(closable(probe, now, *meter) == closable(target, now, *meter));
            }
            can_close(&probe, now, meter)
        },
    }
}

} // verus!
