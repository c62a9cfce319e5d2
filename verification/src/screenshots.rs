use vstd::prelude::*;
use vstd::string::*;

use crate::clock::{iso, random_below, rfc3339_at_millis, trunc_rem};
use crate::text::{
    ascii_lower_seq, concat, contains, contains_seq, decimal, i64_to_decimal, owned,
    signed_decimal, to_ascii_lowercase, u64_to_decimal,
};
use crate::state::{monitoring_should_run, should_monitor, wants_screens};
use crate::types::TrackerState;

verus! {

/// Activity samples cover ten-minute windows.
pub const WINDOW_MS: i64 = 600000;

/// Captures are scaled so that neither edge exceeds this many pixels.
pub const MAX_EDGE: u32 = 1600;

/// The message shown when screen recording is not permitted.
pub const SCREEN_PERMISSION: &'static str = "Screen Recording permission is required \u{2014} grant it in System Settings \u{2192} Privacy & Security \u{2192} Screen Recording, then quit and reopen the app.";

/// The message shown when the input hook could not start.
pub const INPUT_PERMISSION: &'static str = "Input monitoring unavailable \u{2014} grant Accessibility/Input Monitoring permission in System Settings, then check in again.";

/// A capture error that means the permission is missing.
pub open spec fn is_permission_error(msg: Seq<char>) -> bool {
    let lower = ascii_lower_seq(msg);
    contains_seq(lower, "permission"@) || contains_seq(lower, "not authorized"@) || contains_seq(
        lower,
        "tcc"@,
    )
}

/// The message shown for a failed screen capture: the permission hint when
/// the error speaks of permissions, else the error itself after
/// `Screen capture failed: `.
pub fn capture_error(msg: &str) -> (r: String)
    ensures
        is_permission_error(msg@) ==> r@ == SCREEN_PERMISSION@,
        !is_permission_error(msg@) ==> r@ == "Screen capture failed: "@ + msg@,
{
    let lower = to_ascii_lowercase(msg);
    let l = lower.as_str();
    if contains(l, "permission") || contains(l, "not authorized") || contains(l, "tcc") {
        owned(SCREEN_PERMISSION)
    } else {
        concat("Screen capture failed: ", msg)
    }
}

/// `x` rounded down to an even number.
pub open spec fn even_floor(x: u32) -> u32 {
    (x - x % 2) as u32
}

/// The size a capture is scaled to before the edges are made even: unchanged
/// (at least one pixel) when no edge exceeds 1600, else scaled so the longer
/// edge is 1600.
pub open spec fn scaled_size(width: u32, height: u32) -> (u32, u32) {
    let longest = if width >= height {
        width
    } else {
        height
    };
    if longest <= MAX_EDGE || longest == 0 {
        (if width >= 1 {
            width
        } else {
            1
        }, if height >= 1 {
            height
        } else {
            1
        })
    } else if width >= height {
        let h = (height as int) * (MAX_EDGE as int) / (width as int);
        (MAX_EDGE, if h >= 1 {
            h as u32
        } else {
            1
        })
    } else {
        let w = (width as int) * (MAX_EDGE as int) / (height as int);
        (if w >= 1 {
            w as u32
        } else {
            1
        }, MAX_EDGE)
    }
}

/// The capture size for a display: scaled to at most 1600 pixels on the
/// longer edge, each edge at least two and even.
pub open spec fn capture_size(width: u32, height: u32) -> (u32, u32) {
    let (w, h) = scaled_size(width, height);
    (even_floor(if w >= 2 {
        w
    } else {
        2
    }), even_floor(if h >= 2 {
        h
    } else {
        2
    }))
}

fn even_floor_exec(x: u32) -> (r: u32)
    ensures
        r == even_floor(x),
{
    let r = x & !1u32;
    assert(x & !1u32 == (x - x % 2) as u32) by (bit_vector);
    r
}

/// The size to capture a display of `width` by `height` at.
pub fn cap_capture_size(width: u32, height: u32) -> (r: (u32, u32))
    ensures
        r == capture_size(width, height),
{
    let longest = if width >= height {
        width
    } else {
        height
    };
    let (w, h) = if longest <= MAX_EDGE || longest == 0 {
        (if width >= 1 {
            width
        } else {
            1
        }, if height >= 1 {
            height
        } else {
            1
        })
    } else if width >= height {
        assert(height as int * MAX_EDGE as int / width as int <= MAX_EDGE) by (nonlinear_arith)
            requires
                height <= width,
                width > 0,
        ;
        let h = (height as u64) * (MAX_EDGE as u64) / (width as u64);
        (MAX_EDGE, if h >= 1 {
            h as u32
        } else {
            1
        })
    } else {
        assert(width as int * MAX_EDGE as int / height as int <= MAX_EDGE) by (nonlinear_arith)
            requires
                width < height,
                height > 0,
        ;
        let w = (width as u64) * (MAX_EDGE as u64) / (height as u64);
        (if w >= 1 {
            w as u32
        } else {
            1
        }, MAX_EDGE)
    };
    let w2 = if w >= 2 {
        w
    } else {
        2
    };
    let h2 = if h >= 2 {
        h
    } else {
        2
    };
    (even_floor_exec(w2), even_floor_exec(h2))
}

/// Every capture has even edges between 2 and 1600 pixels.
pub proof fn law_capture_size_bounds(width: u32, height: u32)
    ensures
        capture_size(width, height).0 % 2 == 0,
        capture_size(width, height).1 % 2 == 0,
        2 <= capture_size(width, height).0 <= MAX_EDGE,
        2 <= capture_size(width, height).1 <= MAX_EDGE,
{
    let (w, h) = scaled_size(width, height);
    if width >= height && width > MAX_EDGE {
        assert(height as int * MAX_EDGE as int / width as int <= MAX_EDGE) by (nonlinear_arith)
            requires
                height <= width,
                width > 0,
        ;
    }
    if width < height && height > MAX_EDGE {
        assert(width as int * MAX_EDGE as int / height as int <= MAX_EDGE) by (nonlinear_arith)
            requires
                width < height,
                height > 0,
        ;
    }
    assert(1 <= w <= MAX_EDGE && 1 <= h <= MAX_EDGE);
}

/// The start of the ten-minute window that holds `now_ms` (Rust remainder).
pub fn aligned_slot_start(now_ms: i64) -> (r: i64)
    ensures
        r == now_ms - trunc_rem(now_ms as int, WINDOW_MS as int),
{
    now_ms - (now_ms % WINDOW_MS)
}

/// For instants after the epoch, the window start is a multiple of ten
/// minutes, at or before the instant, and less than ten minutes before it.
pub proof fn law_slot_alignment(now_ms: i64)
    requires
        now_ms >= 0,
    ensures
        ({
            let s = now_ms - trunc_rem(now_ms as int, WINDOW_MS as int);
            s % (WINDOW_MS as int) == 0 && s <= now_ms < s + WINDOW_MS
        }),
{
    let n = now_ms as int;
    let w = WINDOW_MS as int;
    let s = n - trunc_rem(n, w);
    assert(n == (n / w) * w + n % w) by (nonlinear_arith)
        requires
            w > 0,
    ;
    assert(((n / w) * w) % w == 0) by (nonlinear_arith)
        requires
            w > 0,
    ;
}

/// The milliseconds from `now_ms` to the end of its ten-minute window (a
/// whole window at a boundary).
pub open spec fn ms_until_window_end(now_ms: i64) -> int {
    if trunc_rem(now_ms as int, WINDOW_MS as int) == 0 {
        WINDOW_MS as int
    } else {
        WINDOW_MS - trunc_rem(now_ms as int, WINDOW_MS as int)
    }
}

/// For instants after the epoch, a sample window ends exactly ten minutes
/// after its start: the capture falls inside the aligned window.
pub proof fn law_window_ends_on_boundary(now_ms: i64)
    requires
        now_ms >= 0,
    ensures
        now_ms + ms_until_window_end(now_ms) == now_ms - trunc_rem(now_ms as int, WINDOW_MS as int)
            + WINDOW_MS,
        0 < ms_until_window_end(now_ms) <= WINDOW_MS,
{
}

/// When the window holding `now` starts, how many milliseconds remain in it,
/// and in how many whole seconds (at least one) the capture must fall.
pub struct SlotTiming {
    pub window_start: i64,
    pub ms_until_end: i64,
    pub remaining_sec: u64,
}

/// The timing of the window holding `now_ms`.
pub fn slot_timing(now_ms: i64) -> (r: SlotTiming)
    ensures
        r.window_start == now_ms - trunc_rem(now_ms as int, WINDOW_MS as int),
        r.ms_until_end == ms_until_window_end(now_ms),
        r.remaining_sec == if r.ms_until_end / 1000 >= 1 {
            r.ms_until_end / 1000
        } else {
            1
        },
{
    let window_start = aligned_slot_start(now_ms);
    let ms_into = now_ms % WINDOW_MS;
    let ms_until_end = if ms_into == 0 {
        WINDOW_MS
    } else {
        WINDOW_MS - ms_into
    };
    let secs = ms_until_end / 1000;
    let remaining_sec: u64 = if secs >= 1 {
        secs as u64
    } else {
        1
    };
    SlotTiming { window_start, ms_until_end, remaining_sec }
}

/// The second of the window at which the screenshot is taken: a random one
/// of the remaining seconds, or at once when at most one remains.
pub fn capture_offset_sec(remaining_sec: u64) -> (r: u64)
    ensures
        remaining_sec <= 1 ==> r == 0,
        remaining_sec > 1 ==> r < remaining_sec,
{
    if remaining_sec <= 1 {
        0
    } else {
        random_below(remaining_sec)
    }
}

/// The file name of a screenshot: `<window start>-<nonce>.jpg`.
pub open spec fn sample_file_name_of(window_start: i64, nonce: u64) -> Seq<char> {
    signed_decimal(window_start as int) + "-"@ + decimal(nonce as nat) + ".jpg"@
}

/// The file name of a screenshot, with a nonce below one million.
pub fn sample_file_name(window_start: i64) -> (r: String)
    ensures
        exists|nonce: u64| nonce < 1_000_000 && r@ == #[trigger] sample_file_name_of(window_start, nonce),
{
    let nonce = random_below(1_000_000);
    let a = i64_to_decimal(window_start);
    let b = concat(a.as_str(), "-");
    let c = u64_to_decimal(nonce);
    let d = concat(b.as_str(), c.as_str());
    let r = concat(d.as_str(), ".jpg");
    assert(r@ == sample_file_name_of(window_start, nonce));
    r
}

/// The seconds of one ten-minute window, counted by kind of input.
#[derive(Debug)]
pub struct ActivityWindow {
    pub window_start: i64,
    pub seconds_elapsed: u64,
    pub keyboard_seconds: u64,
    pub mouse_seconds: u64,
    pub combined_seconds: u64,
    pub image_path: Option<String>,
}

/// The counts agree: a second with keyboard or mouse input is an active
/// second, and an active second had keyboard or mouse input.
pub open spec fn counts_consistent(w: ActivityWindow) -> bool {
    &&& w.keyboard_seconds <= w.combined_seconds
    &&& w.mouse_seconds <= w.combined_seconds
    &&& w.combined_seconds <= w.seconds_elapsed
    &&& w.combined_seconds <= w.keyboard_seconds + w.mouse_seconds
}

impl ActivityWindow {
    /// An empty window starting at `window_start`.
    pub fn new(window_start: i64) -> (w: Self)
        ensures
            w.window_start == window_start,
            w.seconds_elapsed == 0,
            w.keyboard_seconds == 0,
            w.mouse_seconds == 0,
            w.combined_seconds == 0,
            w.image_path is None,
            counts_consistent(w),
    {
        ActivityWindow {
            window_start,
            seconds_elapsed: 0,
            keyboard_seconds: 0,
            mouse_seconds: 0,
            combined_seconds: 0,
            image_path: None,
        }
    }

    /// Counts one more second, with or without keyboard and mouse input.
    pub fn record_second(&mut self, key: bool, mouse: bool)
        requires
            old(self).seconds_elapsed < u64::MAX,
            counts_consistent(*old(self)),
        ensures
            final(self).window_start == old(self).window_start,
            final(self).image_path == old(self).image_path,
            final(self).seconds_elapsed == old(self).seconds_elapsed + 1,
            final(self).keyboard_seconds == old(self).keyboard_seconds + if key {
                1int
            } else {
                0
            },
            final(self).mouse_seconds == old(self).mouse_seconds + if mouse {
                1int
            } else {
                0
            },
            final(self).combined_seconds == old(self).combined_seconds + if key || mouse {
                1int
            } else {
                0
            },
            counts_consistent(*final(self)),
    {
        self.seconds_elapsed += 1;
        if key {
            self.keyboard_seconds += 1;
        }
        if mouse {
            self.mouse_seconds += 1;
        }
        if key || mouse {
            self.combined_seconds += 1;
        }
    }

    /// Whether one more second can be counted: the counts agree and the
    /// second counter has room.
    pub fn can_record_second(&self) -> (r: bool)
        ensures
            r == (self.seconds_elapsed < u64::MAX && counts_consistent(*self)),
    {
        self.seconds_elapsed < u64::MAX && self.keyboard_seconds <= self.combined_seconds
            && self.mouse_seconds <= self.combined_seconds && self.combined_seconds
            <= self.seconds_elapsed && self.combined_seconds as u128 <= self.keyboard_seconds as u128
            + self.mouse_seconds as u128
    }

    /// A window is kept as a sample only when it has a screenshot and lasted
    /// at least one second.
    pub fn is_sample(&self) -> (r: bool)
        ensures
            r == (self.image_path is Some && self.seconds_elapsed > 0),
    {
        self.image_path.is_some() && self.seconds_elapsed > 0
    }

    /// The RFC 3339 start of the window.
    pub fn start_iso(&self) -> (r: String)
        ensures
            rfc3339_at_millis(self.window_start) is Some ==> rfc3339_at_millis(self.window_start)
                == Some(r@),
    {
        iso(self.window_start)
    }
}

/// Whether the screenshot is due: not yet taken in this window and the
/// capture instant has come.
pub fn capture_due(captured: bool, reached_capture_time: bool) -> (r: bool)
    ensures
        r == (!captured && reached_capture_time),
{
    !captured && reached_capture_time
}

/// Whether the screenshot and the app-usage monitors are running, and
/// whether their loop has been spawned.
#[derive(Debug, Clone, Copy)]
pub struct MonitorFlags {
    pub running: bool,
    pub loop_spawned: bool,
}

/// Starts a monitor; returns whether its loop must be spawned (only the first time).
pub fn start_monitor(flags: &mut MonitorFlags) -> (spawn: bool)
    ensures
        final(flags).running,
        final(flags).loop_spawned,
        spawn == !old(flags).loop_spawned,
{
    flags.running = true;
    let spawn = !flags.loop_spawned;
    flags.loop_spawned = true;
    spawn
}

/// The flags of a stopped monitor: not running, its loop kept.
pub open spec fn stopped(flags: MonitorFlags) -> MonitorFlags {
    MonitorFlags { running: false, ..flags }
}

/// Starts the screenshot sampler: records whether the input hook started
/// (monitoring is active exactly when it did; otherwise the permission hint
/// is shown), sets the sampler running, and returns whether its capture and
/// flush loops must be spawned, which is only the first time.
pub fn start(flags: &mut MonitorFlags, state: &mut TrackerState, hook_ok: bool) -> (spawn: bool)
    ensures
        final(flags).running,
        final(flags).loop_spawned,
        spawn == !old(flags).loop_spawned,
        final(state).monitoring_active == hook_ok,
        hook_ok ==> final(state).monitoring_error is None,
        !hook_ok ==> final(state).monitoring_error is Some && final(state).monitoring_error->0@
            == INPUT_PERMISSION@,
        *final(state) == (TrackerState {
            monitoring_active: final(state).monitoring_active,
            monitoring_error: final(state).monitoring_error,
            ..*old(state)
        }),
{
    apply_hook_status(state, hook_ok);
    start_monitor(flags)
}

/// Stops a monitor; its loop stays spawned and idles.
pub fn stop(flags: &mut MonitorFlags)
    ensures
        *final(flags) == stopped(*old(flags)),
{
    flags.running = false;
}

/// Whether the capture loop begins a new sampling pass: only while the
/// sampler runs and screenshots should be taken.
pub fn pass_may_begin(running: bool, state: &TrackerState) -> (r: bool)
    ensures
        r == (running && should_monitor(*state) && wants_screens(*state)),
{
    if !running {
        return false;
    }
    let shots = match &state.user {
        Some(u) => u.wants_screenshots(),
        None => true,
    };
    monitoring_should_run(state) && shots
}

/// Whether the periodic flush uploads now: only while the sampler runs.
pub fn flush_due(running: bool) -> (r: bool)
    ensures
        r == running,
{
    running
}

/// The number of whole seconds (at least one) left in the window of `now_ms`.
pub open spec fn remaining_secs(now_ms: i64) -> int {
    if ms_until_window_end(now_ms) / 1000 >= 1 {
        ms_until_window_end(now_ms) / 1000
    } else {
        1
    }
}

/// One sampling pass: the window being counted, how long the pass lasts and
/// at which second its screenshot is due (both from the pass's start), and
/// whether the screenshot was taken.
#[derive(Debug)]
pub struct SamplePass {
    pub window: ActivityWindow,
    pub ms_until_end: i64,
    pub capture_offset_sec: u64,
    pub captured: bool,
}

/// Begins a pass at `now_ms`: its window starts at the ten-minute boundary at
/// or before `now_ms` and the pass lasts until the next one; the screenshot
/// is due at a random second among those left (at once when at most one is
/// left), always before the pass ends.
pub fn begin_pass(now_ms: i64) -> (p: SamplePass)
    ensures
        p.window.window_start == now_ms - trunc_rem(now_ms as int, WINDOW_MS as int),
        p.window.seconds_elapsed == 0,
        p.window.keyboard_seconds == 0,
        p.window.mouse_seconds == 0,
        p.window.combined_seconds == 0,
        p.window.image_path is None,
        counts_consistent(p.window),
        p.ms_until_end == ms_until_window_end(now_ms),
        remaining_secs(now_ms) <= 1 ==> p.capture_offset_sec == 0,
        remaining_secs(now_ms) > 1 ==> p.capture_offset_sec < remaining_secs(now_ms),
        p.capture_offset_sec * 1000 < p.ms_until_end,
        !p.captured,
{
    let timing = slot_timing(now_ms);
    let offset = capture_offset_sec(timing.remaining_sec);
    let ms = timing.ms_until_end;
    assert(ms > 0);
    if timing.remaining_sec > 1 {
        assert(offset * 1000 < ms) by (nonlinear_arith)
            requires
                offset < ms / 1000,
                ms > 0,
        ;
    }
    SamplePass {
        window: ActivityWindow::new(timing.window_start),
        ms_until_end: ms,
        capture_offset_sec: offset,
        captured: false,
    }
}

/// Whether a pass goes on for another second, `elapsed_ms` after it began:
/// only before its window ends, while the sampler runs and monitoring should
/// run.
pub fn pass_continues(p: &SamplePass, running: bool, state: &TrackerState, elapsed_ms: u64) -> (r:
    bool)
    ensures
        r == (elapsed_ms < p.ms_until_end && running && should_monitor(*state)),
{
    (elapsed_ms as i128) < (p.ms_until_end as i128) && running && monitoring_should_run(state)
}

/// Whether the screenshot is taken at a second of the pass that comes
/// `elapsed_ms` after it began: not yet taken, and its due second has come.
pub open spec fn capture_now(p: SamplePass, elapsed_ms: u64) -> bool {
    !p.captured && elapsed_ms >= p.capture_offset_sec * 1000
}

/// The pass after one more second, with or without keyboard and mouse input.
pub open spec fn pass_after_second(p: SamplePass, key: bool, mouse: bool, elapsed_ms: u64) -> SamplePass {
    SamplePass {
        window: ActivityWindow {
            seconds_elapsed: (p.window.seconds_elapsed + 1) as u64,
            keyboard_seconds: (p.window.keyboard_seconds + if key {
                1int
            } else {
                0
            }) as u64,
            mouse_seconds: (p.window.mouse_seconds + if mouse {
                1int
            } else {
                0
            }) as u64,
            combined_seconds: (p.window.combined_seconds + if key || mouse {
                1int
            } else {
                0
            }) as u64,
            ..p.window
        },
        captured: p.captured || capture_now(p, elapsed_ms),
        ..p
    }
}

/// Counts one more second of a pass (`elapsed_ms` after it began) and returns
/// whether the screenshot is to be taken now: only once per pass, at the
/// first second at or after its due second.
pub fn pass_second(p: &mut SamplePass, key: bool, mouse: bool, elapsed_ms: u64) -> (capture: bool)
    requires
        old(p).window.seconds_elapsed < u64::MAX,
        counts_consistent(old(p).window),
    ensures
        capture == capture_now(*old(p), elapsed_ms),
        *final(p) == pass_after_second(*old(p), key, mouse, elapsed_ms),
        final(p).window.seconds_elapsed == old(p).window.seconds_elapsed + 1,
        final(p).window.keyboard_seconds == old(p).window.keyboard_seconds + if key {
            1int
        } else {
            0
        },
        final(p).window.mouse_seconds == old(p).window.mouse_seconds + if mouse {
            1int
        } else {
            0
        },
        final(p).window.combined_seconds == old(p).window.combined_seconds + if key || mouse {
            1int
        } else {
            0
        },
        counts_consistent(final(p).window),
{
    p.window.record_second(key, mouse);
    let due = (elapsed_ms as u128) >= (p.capture_offset_sec as u128) * 1000;
    let capture = capture_due(p.captured, due);
    if capture {
        p.captured = true;
    }
    capture
}

/// The pass after the seconds `secs`, each given as its keyboard flag, mouse
/// flag and the milliseconds since the pass began.
pub open spec fn pass_after(p: SamplePass, secs: Seq<(bool, bool, u64)>) -> SamplePass
    decreases secs.len(),
{
    if secs.len() == 0 {
        p
    } else {
        pass_after(pass_after_second(p, secs[0].0, secs[0].1, secs[0].2), secs.drop_first())
    }
}

/// How many screenshots a pass takes over the seconds `secs`.
pub open spec fn captures_in(p: SamplePass, secs: Seq<(bool, bool, u64)>) -> nat
    decreases secs.len(),
{
    if secs.len() == 0 {
        0
    } else {
        (if capture_now(p, secs[0].2) {
            1nat
        } else {
            0nat
        }) + captures_in(pass_after_second(p, secs[0].0, secs[0].1, secs[0].2), secs.drop_first())
    }
}

/// Over any run of seconds a pass takes at most one screenshot, and none
/// once one was taken; a pass that has not taken one takes it exactly when
/// some second comes at or after its due second, and is then marked as
/// having taken it. Its window start, length and due second never change.
pub proof fn law_one_capture_per_pass(p: SamplePass, secs: Seq<(bool, bool, u64)>)
    ensures
        captures_in(p, secs) <= 1,
        p.captured ==> captures_in(p, secs) == 0 && pass_after(p, secs).captured,
        !p.captured ==> (captures_in(p, secs) == 1 <==> exists|i: int|
            0 <= i < secs.len() && #[trigger] secs[i].2 >= p.capture_offset_sec * 1000),
        captures_in(p, secs) == 1 ==> pass_after(p, secs).captured,
        pass_after(p, secs).window.window_start == p.window.window_start,
        pass_after(p, secs).ms_until_end == p.ms_until_end,
        pass_after(p, secs).capture_offset_sec == p.capture_offset_sec,
    decreases secs.len(),
{
    if secs.len() > 0 {
        let q = pass_after_second(p, secs[0].0, secs[0].1, secs[0].2);
        let rest = secs.drop_first();
        law_one_capture_per_pass(q, rest);
        if !p.captured {
            if secs[0].2 >= p.capture_offset_sec * 1000 {
                assert(secs[0].2 >= p.capture_offset_sec * 1000);
            } else {
                assert(!q.captured);
                if captures_in(p, secs) == 1 {
                    let i = choose|i: int| 0 <= i < rest.len() && #[trigger] rest[i].2 >= q.capture_offset_sec * 1000;
                    assert(secs[i + 1] == rest[i]);
                }
                if exists|i: int| 0 <= i < secs.len() && #[trigger] secs[i].2 >= p.capture_offset_sec * 1000 {
                    let i = choose|i: int| 0 <= i < secs.len() && #[trigger] secs[i].2 >= p.capture_offset_sec * 1000;
                    assert(i > 0);
                    assert(rest[i - 1] == secs[i]);
                }
            }
        }
    }
}

/// Ends a pass: its window is queued as a sample only when it holds a
/// screenshot and lasted at least one second. The pass is consumed, so each
/// pass is queued at most once.
pub fn end_pass(p: SamplePass) -> (w: Option<ActivityWindow>)
    ensures
        (p.window.image_path is Some && p.window.seconds_elapsed > 0) ==> w == Some(p.window),
        !(p.window.image_path is Some && p.window.seconds_elapsed > 0) ==> w is None,
{
    if p.window.is_sample() {
        Some(p.window)
    } else {
        None
    }
}

/// A stopped sampler stays stopped when stopped again, begins no new pass,
/// ends the pass under way at its next second and flushes nothing, until it
/// is started again.
pub proof fn law_stop_halts_sampling(flags: MonitorFlags, p: SamplePass, s: TrackerState, elapsed_ms: u64)
    ensures
        stopped(stopped(flags)) == stopped(flags),
        !stopped(flags).running,
        stopped(flags).loop_spawned == flags.loop_spawned,
        !(stopped(flags).running && should_monitor(s) && wants_screens(s)),
        !(elapsed_ms < p.ms_until_end && stopped(flags).running && should_monitor(s)),
{
}

/// Records whether the input hook started: monitoring is active exactly when
/// it did, and otherwise the permission hint is shown.
pub fn apply_hook_status(state: &mut TrackerState, hook_ok: bool)
    ensures
        final(state).monitoring_active == hook_ok,
        hook_ok ==> final(state).monitoring_error is None,
        !hook_ok ==> final(state).monitoring_error is Some && final(state).monitoring_error->0@
            == INPUT_PERMISSION@,
        *final(state) == (TrackerState {
            monitoring_active: final(state).monitoring_active,
            monitoring_error: final(state).monitoring_error,
            ..*old(state)
        }),
{
    state.monitoring_active = hook_ok;
    if hook_ok {
        state.monitoring_error = None;
    } else {
        state.monitoring_error = Some(owned(INPUT_PERMISSION));
    }
}

} // verus!
