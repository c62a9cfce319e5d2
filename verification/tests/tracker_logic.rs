use erp_tracker::active_window::{ActiveWindowSnapshot, Os};
use erp_tracker::api::{
    api_base_from, error_message, login_step, no_shift_on_error, parse_refresh_cookie,
    probe_target, session_user, should_refresh, upload_should_retry, ApiError, LoginAnswer,
    PasswordLogin, DEFAULT_API_BASE, answer_of, upload_refusal, AnswerValue, answer_member,
    login_answer_of, raw_user_at, refreshed_token,
};
use erp_tracker::app_usage::{
    can_close, can_measure, can_poll, close_segment, measure_active, poll_once, tracking_summary, OpenSegment, WindowObservation, WINDOW_UNAVAILABLE,
};
use erp_tracker::clock::iso;
use erp_tracker::input::{
    events_of_interest, get_cumulative_active_sec, has_pending_input_this_second, hook_step,
    after_trust_check, last_tick, mark_key, mark_mouse, mask_bit, on_input_event, on_tap_event,
    on_tick, second_elapsed, tap_action, first_start, HookStep, InputEvent, InputMeter, TapAction,
};
use erp_tracker::queue::{app_usage_overflow, should_append_open_interval, MAX_APP_USAGE};
use erp_tracker::screenshots::{
    aligned_slot_start, apply_hook_status, cap_capture_size, capture_due, capture_error,
    capture_offset_sec, sample_file_name, slot_timing, start, stop, ActivityWindow, MonitorFlags,
    INPUT_PERMISSION, SCREEN_PERMISSION, begin_pass, flush_due, pass_continues, pass_may_begin,
    pass_second, start_monitor, end_pass,
};
use erp_tracker::session::{
    bootstrap_outcome, heartbeat_due, idle_break_due, login_step_of, may_end_idle_break,
    may_start_idle_break, note_idle, note_online, should_log_heartbeat, should_record_sleep,
    slept_between_ticks, LoginStep,
};
use erp_tracker::state::{monitor_plan, monitoring_should_run, reset, set_user};
use erp_tracker::sync::{
    apply_break_call, break_sync_step, heartbeat_should_send, heartbeat_step, upload_step,
    sample_read_step, FlushStep,
};
use erp_tracker::tray::{reload_for_menu_id, tray_command, Reload, TrayCommand};
use erp_tracker::types::{
    is_checked_in, open_break_source, BreakSource, JsonField, RawUser, Shift, ShiftBreak,
    TrackerState, TrackerUser, DEFAULT_IDLE_TIMEOUT_MINUTES,
};

fn shift(status: &str, check_in: bool, breaks: Vec<ShiftBreak>) -> Shift {
    Shift {
        id: "s1".into(),
        user_id: "u1".into(),
        date: "2024-01-01".into(),
        check_in_time: if check_in { Some("2024-01-01T09:00:00Z".into()) } else { None },
        check_out_time: None,
        total_minutes_bits: None,
        breaks,
        total_break_minutes_bits: Some(12.5f64.to_bits()),
        status: status.into(),
        is_active: Some(true),
    }
}

fn brk(open: bool, source: Option<BreakSource>) -> ShiftBreak {
    ShiftBreak {
        start_time: "2024-01-01T10:00:00Z".into(),
        end_time: if open { None } else { Some("2024-01-01T10:05:00Z".into()) },
        source,
    }
}

fn user(timeout: Option<u32>, shots: Option<bool>, usage: Option<bool>) -> TrackerUser {
    TrackerUser {
        id: "u1".into(),
        email: "a@b.c".into(),
        first_name: None,
        last_name: None,
        idle_timeout_minutes: timeout,
        monitor_screenshots: shots,
        monitor_app_usage: usage,
    }
}

fn working_state() -> TrackerState {
    let mut s = TrackerState::default();
    s.is_authenticated = true;
    s.user = Some(user(None, None, None));
    s.shift = Some(shift("checked_in", true, vec![]));
    s
}

fn raw_user() -> RawUser {
    RawUser {
        underscore_id: JsonField::Missing,
        id: JsonField::Str("abc".into()),
        email: JsonField::Str("x@y.z".into()),
        first_name: JsonField::Str("Ada".into()),
        last_name: JsonField::Null,
        idle_timeout_minutes: JsonField::UInt(7),
        monitor_screenshots: JsonField::Bool(false),
        monitor_app_usage: JsonField::Other,
    }
}

#[test]
fn default_state() {
    let s = TrackerState::default();
    assert!(!s.is_authenticated && s.is_online && !s.monitoring_active);
    assert_eq!(s.idle_timeout_minutes, DEFAULT_IDLE_TIMEOUT_MINUTES);
    assert_eq!(s.pending_count, 0);
}

#[test]
fn user_from_raw_fields() {
    let u = TrackerUser::from_raw(raw_user());
    assert_eq!(u.id, "abc");
    assert_eq!(u.email, "x@y.z");
    assert_eq!(u.first_name.as_deref(), Some("Ada"));
    assert_eq!(u.last_name, None);
    assert_eq!(u.idle_timeout_minutes, Some(7));
    assert_eq!(u.monitor_screenshots, Some(false));
    assert_eq!(u.monitor_app_usage, None);
    assert!(!u.wants_screenshots());
    assert!(u.wants_app_usage());
}

#[test]
fn user_id_prefers_underscore_member() {
    let mut r = raw_user();
    r.underscore_id = JsonField::UInt(5);
    assert_eq!(TrackerUser::from_raw(r).id, "");
    let mut r = raw_user();
    r.underscore_id = JsonField::Str("m".into());
    r.idle_timeout_minutes = JsonField::UInt((1u64 << 32) + 3);
    let u = TrackerUser::from_raw(r);
    assert_eq!(u.id, "m");
    assert_eq!(u.idle_timeout_minutes, Some(3));
}

#[test]
fn open_breaks() {
    assert_eq!(open_break_source(&None), None);
    let s = Some(shift("checked_in", true, vec![brk(false, Some(BreakSource::Idle))]));
    assert_eq!(open_break_source(&s), None);
    let s = Some(shift("checked_in", true, vec![brk(true, None)]));
    assert_eq!(open_break_source(&s).as_deref(), Some("manual"));
    let s = Some(shift("checked_in", true, vec![brk(false, None), brk(true, Some(BreakSource::Sleep))]));
    assert_eq!(open_break_source(&s).as_deref(), Some("sleep"));
    let s = Some(shift("checked_in", true, vec![brk(true, Some(BreakSource::Offline))]));
    assert_eq!(open_break_source(&s).as_deref(), Some("offline"));
}

#[test]
fn checked_in_needs_status_and_time() {
    assert!(is_checked_in(&Some(shift("checked_in", true, vec![]))));
    assert!(!is_checked_in(&Some(shift("checked_in", false, vec![]))));
    assert!(!is_checked_in(&Some(shift("checked_out", true, vec![]))));
    assert!(!is_checked_in(&None));
}

#[test]
fn monitoring_rules() {
    let mut s = working_state();
    assert!(monitoring_should_run(&s));
    let p = monitor_plan(&s);
    assert!(p.screenshots && p.app_usage);
    s.user = Some(user(None, Some(false), None));
    let p = monitor_plan(&s);
    assert!(!p.screenshots && p.app_usage);
    s.shift = Some(shift("checked_in", true, vec![brk(true, Some(BreakSource::Offline))]));
    assert!(!monitoring_should_run(&s));
    assert!(!monitor_plan(&s).app_usage);
    s.shift = Some(shift("checked_in", true, vec![]));
    s.is_authenticated = false;
    assert!(!monitoring_should_run(&s));
}

#[test]
fn setting_and_resetting_users() {
    let mut s = TrackerState::default();
    set_user(&mut s, Some(user(Some(0), None, None)));
    assert!(s.is_authenticated);
    assert_eq!(s.idle_timeout_minutes, DEFAULT_IDLE_TIMEOUT_MINUTES);
    set_user(&mut s, Some(user(Some(9), None, None)));
    assert_eq!(s.idle_timeout_minutes, 9);
    s.is_online = false;
    s.monitoring_error = Some("e".into());
    s.last_sample_at = Some("t".into());
    s.last_error = Some("x".into());
    reset(&mut s);
    assert!(!s.is_authenticated && s.user.is_none() && s.last_error.is_none());
    assert!(!s.is_online);
    assert_eq!(s.monitoring_error.as_deref(), Some("e"));
    assert_eq!(s.last_sample_at.as_deref(), Some("t"));
    assert_eq!(s.idle_timeout_minutes, DEFAULT_IDLE_TIMEOUT_MINUTES);
    set_user(&mut s, None);
    assert!(!s.is_authenticated);
}

#[test]
fn input_meter_seconds() {
    let mut m = InputMeter::new();
    mark_key(&mut m);
    assert!(has_pending_input_this_second(&m));
    second_elapsed(&mut m);
    assert_eq!(on_tick(&m), (true, false));
    assert_eq!(last_tick(&m), (true, false));
    assert_eq!(get_cumulative_active_sec(&m), 1);
    assert!(!has_pending_input_this_second(&m));
    second_elapsed(&mut m);
    assert_eq!(on_tick(&m), (false, false));
    assert_eq!(get_cumulative_active_sec(&m), 1);
    mark_mouse(&mut m);
    on_input_event(&mut m, InputEvent::KeyRelease);
    second_elapsed(&mut m);
    assert_eq!(last_tick(&m), (true, true));
    assert_eq!(get_cumulative_active_sec(&m), 2);
    m.cumulative_active = u64::MAX;
    on_input_event(&mut m, InputEvent::Wheel);
    second_elapsed(&mut m);
    assert_eq!(get_cumulative_active_sec(&m), 0);
}

#[test]
fn tap_events() {
    assert_eq!(mask_bit(10), 1024);
    assert_eq!(events_of_interest(), 239082750);
    assert_eq!(tap_action(0xFFFF_FFFE), TapAction::Reenable);
    assert_eq!(tap_action(12), TapAction::Key);
    assert_eq!(tap_action(22), TapAction::Mouse);
    assert_eq!(tap_action(8), TapAction::Ignore);
    let mut m = InputMeter::new();
    assert!(!on_tap_event(&mut m, 27));
    assert!(m.mouse_this_sec && !m.key_this_sec);
    assert!(on_tap_event(&mut m, 0xFFFF_FFFF));
}

#[test]
fn hook_steps() {
    assert_eq!(hook_step(true, Os::MacOs), HookStep::Running);
    assert_eq!(hook_step(false, Os::MacOs), HookStep::CheckTrust);
    assert_eq!(hook_step(false, Os::Windows), HookStep::Spawn);
    assert_eq!(after_trust_check(true), Some(HookStep::Spawn));
    assert_eq!(after_trust_check(false), None);
    let mut started = false;
    assert!(first_start(&mut started));
    assert!(!first_start(&mut started));
    assert!(started);
}

#[test]
fn iso_formats_utc() {
    assert_eq!(iso(0), "1970-01-01T00:00:00+00:00");
    assert_eq!(iso(947638923004), "2000-01-12T01:02:03.004+00:00");
}

fn seg(start: i64, origin: u64, active: u64) -> OpenSegment {
    OpenSegment {
        app: "Code".into(),
        exec_name: "code".into(),
        title: "main.rs".into(),
        url: None,
        domain: None,
        started_at_ms: start,
        active_origin: origin,
        active_sec: active,
    }
}

#[test]
fn measuring_activity() {
    let mut m = InputMeter::new();
    m.cumulative_active = 10;
    assert_eq!(measure_active(&seg(0, 4, 3), &m), 6);
    assert_eq!(measure_active(&seg(0, 4, 9), &m), 9);
    assert_eq!(measure_active(&seg(0, 20, 0), &m), 0);
    m.key_this_sec = true;
    assert_eq!(measure_active(&seg(0, 4, 3), &m), 7);
}

#[test]
fn closing_segments() {
    let mut m = InputMeter::new();
    m.cumulative_active = 100;
    assert!(close_segment(seg(0, 0, 0), 1999, &m, Os::MacOs).is_none());
    let r = close_segment(seg(0, 0, 0), 2500, &m, Os::Windows).unwrap();
    assert_eq!(r.duration_sec, 2);
    assert_eq!(r.active_sec, 2);
    assert_eq!(r.platform, "windows");
    assert_eq!(r.started_at, "1970-01-01T00:00:00+00:00");
    assert_eq!(r.ended_at, "1970-01-01T00:00:02.500+00:00");
    assert_eq!(r.client_id.len(), 36);
    let r = close_segment(seg(0, 90, 0), 60_000, &m, Os::Other).unwrap();
    assert_eq!(r.duration_sec, 60);
    assert_eq!(r.active_sec, 10);
    assert_eq!(r.app, "Code");
}

fn window(app: &str, title: &str, url: Option<&str>) -> WindowObservation {
    WindowObservation::Window(ActiveWindowSnapshot {
        app: app.into(),
        exec_name: app.to_lowercase(),
        title: title.into(),
        raw_url: url.map(|u| u.to_string()),
    })
}

#[test]
fn polling_opens_and_closes_segments() {
    let mut m = InputMeter::new();
    let mut open = None;
    let r = poll_once(&mut open, true, window("Safari", "Docs", Some("https://www.docs.rs/x")), 1_000, &m, Os::MacOs);
    assert!(r.finished.is_none() && r.window_error.is_none());
    let o = open.as_ref().unwrap();
    assert_eq!(o.domain.as_deref(), Some("docs.rs"));
    assert_eq!(o.url.as_deref(), Some("docs.rs"));
    assert_eq!(o.started_at_ms, 1_000);
    // same window with activity: credited five seconds
    m.last_key = true;
    let r = poll_once(&mut open, true, window("Safari", "Docs", Some("https://docs.rs/y")), 6_000, &m, Os::MacOs);
    assert!(r.finished.is_none());
    assert_eq!(open.as_ref().unwrap().active_sec, 5);
    // a new title closes the segment
    let r = poll_once(&mut open, true, window("Safari", "Other", None), 11_000, &m, Os::MacOs);
    let f = r.finished.unwrap();
    assert_eq!(f.title, "Docs");
    assert_eq!(f.duration_sec, 10);
    assert_eq!(f.active_sec, 10);
    assert_eq!(f.domain.as_deref(), Some("docs.rs"));
    assert_eq!(open.as_ref().unwrap().title, "Other");
    assert_eq!(open.as_ref().unwrap().active_sec, 0);
}

#[test]
fn polling_splits_at_ten_minute_windows() {
    let m = InputMeter::new();
    let mut open = Some(seg(599_000, 0, 0));
    let r = poll_once(&mut open, true, window("Code", "main.rs", None), 601_000, &m, Os::Other);
    assert!(r.finished.is_some());
    assert_eq!(open.as_ref().unwrap().started_at_ms, 601_000);
}

#[test]
fn polling_stops() {
    let m = InputMeter::new();
    let mut open = Some(seg(0, 0, 0));
    let r = poll_once(&mut open, true, WindowObservation::Unavailable, 5_000, &m, Os::Other);
    assert_eq!(r.window_error.as_deref(), Some(WINDOW_UNAVAILABLE));
    assert!(r.finished.is_some());
    assert!(open.is_none());
    let mut open = Some(seg(0, 0, 0));
    let r = poll_once(&mut open, false, WindowObservation::Unavailable, 1_000, &m, Os::Other);
    assert!(r.window_error.is_none() && r.finished.is_none() && open.is_none());
    let mut open = Some(seg(0, 0, 0));
    let r = poll_once(&mut open, true, WindowObservation::NoWindow, 3_000, &m, Os::Other);
    assert!(r.window_error.is_none() && r.finished.is_some() && open.is_none());
}

#[test]
fn summaries() {
    let s = tracking_summary(&None, 4);
    assert!(s.app.is_none() && s.domain.is_none());
    assert_eq!(s.pending_segments, 4);
    let mut o = seg(0, 0, 0);
    o.domain = Some("a.io".into());
    let s = tracking_summary(&Some(o), 0);
    assert_eq!(s.app.as_deref(), Some("Code"));
    assert_eq!(s.domain.as_deref(), Some("a.io"));
}

#[test]
fn capture_sizes() {
    assert_eq!(cap_capture_size(1440, 900), (1440, 900));
    assert_eq!(cap_capture_size(3024, 1964), (1600, 1038));
    assert_eq!(cap_capture_size(1080, 1920), (900, 1600));
    assert_eq!(cap_capture_size(0, 0), (2, 2));
    assert_eq!(cap_capture_size(1601, 1), (1600, 2));
    assert_eq!(cap_capture_size(1001, 3), (1000, 2));
}

#[test]
fn slots() {
    assert_eq!(aligned_slot_start(1_234_567), 1_200_000);
    assert_eq!(aligned_slot_start(600_000), 600_000);
    assert_eq!(aligned_slot_start(-1), 0);
    let t = slot_timing(1_234_567);
    assert_eq!(t.window_start, 1_200_000);
    assert_eq!(t.ms_until_end, 565_433);
    assert_eq!(t.remaining_sec, 565);
    let t = slot_timing(1_200_000);
    assert_eq!(t.ms_until_end, 600_000);
    let t = slot_timing(1_799_500);
    assert_eq!(t.remaining_sec, 1);
    assert_eq!(capture_offset_sec(1), 0);
    assert_eq!(capture_offset_sec(0), 0);
    for _ in 0..50 {
        assert!(capture_offset_sec(565) < 565);
    }
}

#[test]
fn capture_errors() {
    assert_eq!(capture_error("User did not grant PERMISSION"), SCREEN_PERMISSION);
    assert_eq!(capture_error("TCC denied"), SCREEN_PERMISSION);
    assert_eq!(capture_error("boom"), "Screen capture failed: boom");
}

#[test]
fn sample_names() {
    let n = sample_file_name(1_200_000);
    assert!(n.starts_with("1200000-") && n.ends_with(".jpg"));
    let nonce: u64 = n["1200000-".len()..n.len() - 4].parse().unwrap();
    assert!(nonce < 1_000_000);
}

#[test]
fn activity_windows() {
    let mut w = ActivityWindow::new(600_000);
    w.record_second(true, false);
    w.record_second(true, true);
    w.record_second(false, false);
    assert_eq!((w.seconds_elapsed, w.keyboard_seconds, w.mouse_seconds, w.combined_seconds), (3, 2, 1, 2));
    assert!(!w.is_sample());
    w.image_path = Some("/tmp/x.jpg".into());
    assert!(w.is_sample());
    assert_eq!(w.start_iso(), "1970-01-01T00:10:00+00:00");
    assert!(capture_due(false, true));
    assert!(!capture_due(true, true));
}

#[test]
fn monitor_flags() {
    let mut f = MonitorFlags { running: false, loop_spawned: false };
    assert!(start_monitor(&mut f));
    assert!(!start_monitor(&mut f));
    stop(&mut f);
    assert!(!f.running && f.loop_spawned);
    stop(&mut f);
    assert!(!f.running && f.loop_spawned);
    assert!(!flush_due(f.running));
    let mut s = working_state();
    assert!(!pass_may_begin(f.running, &s));
    assert!(!start(&mut f, &mut s, false));
    assert!(f.running && !s.monitoring_active);
    assert_eq!(s.monitoring_error.as_deref(), Some(INPUT_PERMISSION));
    assert!(flush_due(f.running));
    assert!(pass_may_begin(f.running, &s));
    let mut g = MonitorFlags { running: false, loop_spawned: false };
    assert!(start(&mut g, &mut s, true));
    assert!(s.monitoring_active && s.monitoring_error.is_none());
    let mut s = TrackerState::default();
    apply_hook_status(&mut s, false);
    assert!(!s.monitoring_active);
    assert_eq!(s.monitoring_error.as_deref(), Some(INPUT_PERMISSION));
    apply_hook_status(&mut s, true);
    assert!(s.monitoring_active && s.monitoring_error.is_none());
}

#[test]
fn upload_steps() {
    let mut s = working_state();
    s.last_error = Some("old".into());
    assert_eq!(upload_step(&mut s, &Ok(())), FlushStep { remove: true, proceed: true });
    assert!(s.last_error.is_none());
    assert_eq!(upload_step(&mut s, &Err(ApiError::Network("down".into()))), FlushStep { remove: false, proceed: false });
    assert!(!s.is_online);
    assert_eq!(upload_step(&mut s, &Err(ApiError::Message("bad".into()))), FlushStep { remove: true, proceed: true });
}

#[test]
fn break_sync_steps() {
    let mut s = working_state();
    let step = break_sync_step(&mut s, Err(ApiError::Message("Break ALREADY recorded".into())));
    assert_eq!(step, FlushStep { remove: true, proceed: true });
    assert!(s.last_error.is_none());
    let step = break_sync_step(&mut s, Err(ApiError::Message("Shift not found".into())));
    assert_eq!(step, FlushStep { remove: false, proceed: false });
    assert_eq!(s.last_error.as_deref(), Some("Shift not found"));
    let step = break_sync_step(&mut s, Err(ApiError::Network("x".into())));
    assert_eq!(step, FlushStep { remove: false, proceed: false });
    assert!(!s.is_online);
    assert_eq!(s.last_error.as_deref(), Some("Offline \u{2014} sleep/idle intervals will sync when the network returns"));
    s.shift = None;
    let step = break_sync_step(&mut s, Ok(shift("on_break", true, vec![])));
    assert_eq!(step, FlushStep { remove: true, proceed: true });
    assert!(s.last_error.is_none());
    assert_eq!(s.shift.as_ref().map(|sh| sh.status.as_str()), Some("on_break"));
}

#[test]
fn heartbeat_steps() {
    assert!(!heartbeat_should_send(0, false));
    assert!(heartbeat_should_send(0, true));
    let mut s = working_state();
    let ok = || -> Result<Shift, ApiError> { Ok(shift("checked_in", true, vec![])) };
    assert_eq!(heartbeat_step(&mut s, ok(), 500, false), FlushStep { remove: true, proceed: true });
    assert_eq!(heartbeat_step(&mut s, ok(), 499, false), FlushStep { remove: true, proceed: false });
    assert_eq!(heartbeat_step(&mut s, ok(), 0, true), FlushStep { remove: false, proceed: false });
    assert_eq!(heartbeat_step(&mut s, ok(), 500, true), FlushStep { remove: true, proceed: false });
    assert_eq!(s.shift.as_ref().map(|sh| sh.status.as_str()), Some("checked_in"));
    heartbeat_step(&mut s, Ok(shift("checked_out", true, vec![])), 1, false);
    assert_eq!(s.shift.as_ref().map(|sh| sh.status.as_str()), Some("checked_out"));
    heartbeat_step(&mut s, Err(ApiError::Message("nope".into())), 3, false);
    assert_eq!(s.last_error.as_deref(), Some("nope"));
    heartbeat_step(&mut s, Err(ApiError::Network("x".into())), 3, false);
    assert!(!s.is_online);
}

#[test]
fn break_calls() {
    let mut s = working_state();
    apply_break_call(&mut s, Err(ApiError::Message("m".into())));
    assert_eq!(s.last_error.as_deref(), Some("m"));
    apply_break_call(&mut s, Ok(shift("on_break", true, vec![])));
    assert!(s.last_error.is_none());
    assert_eq!(s.shift.as_ref().map(|sh| sh.status.as_str()), Some("on_break"));
    apply_break_call(&mut s, Err(ApiError::Network("n".into())));
    assert!(!s.is_online);
}

#[test]
fn sleep_and_heartbeat_rules() {
    let mut s = working_state();
    assert!(should_record_sleep(&s));
    assert!(should_log_heartbeat(&s, false));
    assert!(!should_log_heartbeat(&s, true));
    s.idle_seconds = 300;
    assert!(!should_log_heartbeat(&s, false));
    s.idle_seconds = 299;
    assert!(should_log_heartbeat(&s, false));
    s.shift = Some(shift("checked_in", true, vec![brk(true, Some(BreakSource::Offline))]));
    assert!(should_record_sleep(&s));
    s.shift = Some(shift("checked_in", true, vec![brk(true, Some(BreakSource::Idle))]));
    assert!(!should_record_sleep(&s));
    assert!(!should_log_heartbeat(&s, false));
    s.shift = None;
    assert!(!should_record_sleep(&s));
    assert!(heartbeat_due(None));
    assert!(heartbeat_due(Some(60)));
    assert!(!heartbeat_due(Some(59)));
    assert!(slept_between_ticks(Some(31)));
    assert!(!slept_between_ticks(Some(30)));
    assert!(!slept_between_ticks(None));
}

#[test]
fn idle_ticks() {
    let mut s = working_state();
    s.is_online = false;
    assert!(note_online(&mut s, true));
    assert!(!note_online(&mut s, true));
    let mut streak = 0u32;
    assert!(!note_idle(&mut s, &mut streak, 0));
    assert!(!note_idle(&mut s, &mut streak, 2));
    assert!(note_idle(&mut s, &mut streak, 1));
    assert_eq!(s.idle_seconds, 1);
    assert!(!note_idle(&mut s, &mut streak, 3));
    assert_eq!(streak, 0);
}

#[test]
fn idle_breaks() {
    let mut s = working_state();
    assert!(may_start_idle_break(&s, false));
    assert!(!may_start_idle_break(&s, true));
    assert!(idle_break_due(&s, 300));
    assert!(!idle_break_due(&s, 299));
    s.idle_timeout_minutes = 0;
    assert!(idle_break_due(&s, 60));
    s.shift = Some(shift("checked_in", true, vec![brk(true, Some(BreakSource::Idle))]));
    assert!(!may_start_idle_break(&s, false));
    assert!(may_end_idle_break(&s));
    s.is_online = false;
    assert!(!may_end_idle_break(&s));
    s.is_online = true;
    s.shift = Some(shift("checked_in", true, vec![brk(true, None)]));
    assert!(!may_end_idle_break(&s));
}

#[test]
fn bootstrap_outcomes() {
    let mut s = working_state();
    s.last_error = Some("e".into());
    bootstrap_outcome(&mut s, &Ok(()));
    assert!(s.last_error.is_none() && s.is_authenticated);
    bootstrap_outcome(&mut s, &Err(ApiError::Network("n".into())));
    assert!(!s.is_online && s.is_authenticated);
    bootstrap_outcome(&mut s, &Err(ApiError::Message("m".into())));
    assert!(!s.is_authenticated && s.shift.is_none());
}

#[test]
fn login_steps() {
    match login_step_of(PasswordLogin::NeedsCode("t".into())) {
        (LoginStep::NeedsCode(t), None) => assert_eq!(t, "t"),
        _ => panic!("wrong step"),
    }
    assert!(matches!(login_step_of(PasswordLogin::NeedsSetup), (LoginStep::NeedsSetup, None)));
    match login_step_of(PasswordLogin::Session(user(None, None, None))) {
        (LoginStep::Done, Some(u)) => assert_eq!(u.id, "u1"),
        _ => panic!("wrong step"),
    }
}

fn answer(req: JsonField, temp: JsonField, setup: JsonField, token: JsonField) -> LoginAnswer {
    LoginAnswer { requires_2fa: req, temp_token: temp, requires_2fa_setup: setup, access_token: token, user: raw_user() }
}

#[test]
fn password_answers() {
    match login_step(answer(JsonField::Bool(true), JsonField::Str("tmp".into()), JsonField::Missing, JsonField::Missing)) {
        Ok((PasswordLogin::NeedsCode(t), None)) => assert_eq!(t, "tmp"),
        _ => panic!("expected a code step"),
    }
    match login_step(answer(JsonField::Bool(true), JsonField::Str("".into()), JsonField::Missing, JsonField::Missing)) {
        Err(ApiError::Message(m)) => assert_eq!(m, "Two-factor challenge is missing a token"),
        _ => panic!("expected an error"),
    }
    assert!(matches!(
        login_step(answer(JsonField::Bool(false), JsonField::Missing, JsonField::Bool(true), JsonField::Missing)),
        Ok((PasswordLogin::NeedsSetup, None))
    ));
    match login_step(answer(JsonField::Missing, JsonField::Missing, JsonField::Missing, JsonField::Str("jwt".into()))) {
        Ok((PasswordLogin::Session(u), Some(t))) => {
            assert_eq!(t, "jwt");
            assert_eq!(u.id, "abc");
        }
        _ => panic!("expected a session"),
    }
    match login_step(answer(JsonField::Missing, JsonField::Missing, JsonField::Missing, JsonField::Str("".into()))) {
        Err(ApiError::Message(m)) => assert_eq!(m, "Sign-in did not return a session"),
        _ => panic!("expected an error"),
    }
    match session_user(&JsonField::UInt(1), raw_user()) {
        Err(e) => assert!(!e.is_network()),
        Ok(_) => panic!("expected an error"),
    }
}

#[test]
fn refresh_cookies() {
    assert_eq!(
        parse_refresh_cookie("refreshToken=abc; Path=/; HttpOnly").as_deref(),
        Some("abc")
    );
    assert_eq!(
        parse_refresh_cookie("other=1;  refreshToken=xyz ;Secure").as_deref(),
        Some("xyz")
    );
    assert_eq!(parse_refresh_cookie("refreshToken=; Path=/"), None);
    assert_eq!(parse_refresh_cookie("session=1"), None);
}

#[test]
fn api_bases() {
    assert_eq!(api_base_from(None, None, None, None), DEFAULT_API_BASE);
    assert_eq!(api_base_from(Some("http://localhost:4000/api//".into()), Some("x".into()), None, None), "http://localhost:4000/api");
    assert_eq!(api_base_from(None, Some("https://b/".into()), Some("c"), None), "https://b");
    assert_eq!(api_base_from(None, None, None, Some("d/")), "d");
}

#[test]
fn probe_targets() {
    assert_eq!(
        probe_target(DEFAULT_API_BASE),
        ("leapsofts-erp-backend-f9122a2e0426.herokuapp.com".to_string(), 443)
    );
    assert_eq!(probe_target("http://localhost:4000/api"), ("localhost".to_string(), 80));
}

#[test]
fn request_rules() {
    assert!(should_refresh(401, true, "/users/me"));
    assert!(!should_refresh(401, true, "/auth/login"));
    assert!(!should_refresh(401, false, "/users/me"));
    assert!(!should_refresh(403, true, "/users/me"));
    assert!(upload_should_retry(401, 0));
    assert!(!upload_should_retry(401, 1));
    assert_eq!(error_message(&JsonField::Str("deep".into()), &JsonField::Str("top".into()), "Request failed"), "deep");
    assert_eq!(error_message(&JsonField::Missing, &JsonField::Str("top".into()), "Request failed"), "top");
    assert_eq!(error_message(&JsonField::Null, &JsonField::Str("top".into()), "Request failed"), "Request failed");
    assert_eq!(error_message(&JsonField::Missing, &JsonField::Missing, "Upload failed"), "Upload failed");
    assert!(no_shift_on_error(&ApiError::Message("HTTP 404".into())));
    assert!(no_shift_on_error(&ApiError::Network("400 bad".into())));
    assert!(!no_shift_on_error(&ApiError::Message("500".into())));
    assert_eq!(ApiError::Network("n".into()).message(), "n");
}

#[test]
fn queue_rules() {
    assert_eq!(app_usage_overflow(MAX_APP_USAGE + 5), 5);
    assert_eq!(app_usage_overflow(MAX_APP_USAGE), 0);
    assert!(should_append_open_interval(false));
    assert!(!should_append_open_interval(true));
}

#[test]
fn tray_menus() {
    assert_eq!(reload_for_menu_id("view_reload_erp_f5"), Some(Reload::Soft));
    assert_eq!(reload_for_menu_id("reload_erp"), Some(Reload::Soft));
    assert_eq!(reload_for_menu_id("view_hard_reload_erp"), Some(Reload::Hard));
    assert_eq!(reload_for_menu_id("quit"), None);
    assert_eq!(tray_command("quit"), Some(TrayCommand::Quit));
    assert_eq!(tray_command("open_tracker"), Some(TrayCommand::OpenTracker));
    assert_eq!(tray_command("status"), None);
}

#[test]
fn reset_twice_is_reset_once() {
    let mut s = working_state();
    s.is_online = false;
    s.last_sample_at = Some("t".into());
    reset(&mut s);
    let once = format!("{:?}", s);
    reset(&mut s);
    assert_eq!(format!("{:?}", s), once);
}

#[test]
fn three_active_ticks_end_idle_break_from_any_streak() {
    let mut s = working_state();
    let mut streak = 41u32;
    note_idle(&mut s, &mut streak, 10);
    assert_eq!(streak, 0);
    assert!(!note_idle(&mut s, &mut streak, 0));
    assert!(!note_idle(&mut s, &mut streak, 0));
    assert!(note_idle(&mut s, &mut streak, 0));
    assert!(note_idle(&mut s, &mut streak, 2));
}

#[test]
fn overflow_guards() {
    let mut m = InputMeter::new();
    assert!(can_close(&seg(0, 0, 0), 10_000, &m));
    assert!(!can_close(&seg(i64::MIN, 0, 0), i64::MAX, &m));
    m.key_this_sec = true;
    assert!(!can_measure(&seg(0, 0, u64::MAX), &m));
    assert!(can_measure(&seg(0, 0, u64::MAX - 1), &m));
    m.last_key = true;
    m.key_this_sec = false;
    assert!(!can_poll(&Some(seg(0, 0, u64::MAX - 4)), 1, &m, true));
    assert!(can_poll(&Some(seg(0, 0, u64::MAX - 4)), 1, &m, false));
    assert!(can_poll(&Some(seg(0, 0, 7)), 1, &m, true));
    assert!(can_poll(&None, i64::MIN, &m, true));
    let mut w = ActivityWindow::new(0);
    assert!(w.can_record_second());
    w.seconds_elapsed = u64::MAX;
    assert!(!w.can_record_second());
    w.seconds_elapsed = 1;
    w.combined_seconds = 1;
    assert!(!w.can_record_second());
}

#[test]
fn sampling_pass() {
    // 10:00:30 into a window that started at 600_000 ms.
    let p = begin_pass(630_000);
    assert_eq!(p.window.window_start, 600_000);
    assert_eq!(p.ms_until_end, 570_000);
    assert!(p.capture_offset_sec < 570);
    assert!(!p.captured);
    // At a boundary the pass lasts a whole window.
    let q = begin_pass(1_200_000);
    assert_eq!(q.window.window_start, 1_200_000);
    assert_eq!(q.ms_until_end, 600_000);
    // With under two seconds left, the capture is due at once.
    let mut r = begin_pass(599_500);
    assert_eq!(r.capture_offset_sec, 0);
    let s = working_state();
    assert!(pass_continues(&r, true, &s, 0));
    assert!(!pass_continues(&r, false, &s, 0));
    assert!(!pass_continues(&r, true, &TrackerState::default(), 0));
    assert!(!pass_continues(&r, true, &s, 500));
    assert!(pass_second(&mut r, true, false, 1_000));
    assert!(r.captured);
    assert!(!pass_second(&mut r, false, true, 2_000));
    assert_eq!((r.window.seconds_elapsed, r.window.keyboard_seconds, r.window.mouse_seconds, r.window.combined_seconds), (2, 1, 1, 2));
}

#[test]
fn pass_waits_for_capture_second() {
    let mut p = begin_pass(0);
    p.capture_offset_sec = 3;
    assert!(!pass_second(&mut p, false, false, 1_000));
    assert!(!pass_second(&mut p, false, false, 2_999));
    assert!(pass_second(&mut p, false, false, 3_000));
    assert!(!pass_second(&mut p, false, false, 4_000));
}

#[test]
fn unreadable_sample_is_dropped() {
    assert_eq!(sample_read_step(false), Some(FlushStep { remove: true, proceed: true }));
    assert_eq!(sample_read_step(true), None);
}

#[test]
fn answers_of_json_calls() {
    let e = answer_of(false, r#"{"error":{"message":"Bad token"},"message":"x"}"#, "Request failed");
    assert!(matches!(e, Err(ApiError::Message(m)) if m == "Bad token"));
    let e = answer_of(false, r#"{"message":"Shift closed"}"#, "Request failed");
    assert!(matches!(e, Err(ApiError::Message(m)) if m == "Shift closed"));
    let e = answer_of(false, r#"{"message":5}"#, "Request failed");
    assert!(matches!(e, Err(ApiError::Message(m)) if m == "Request failed"));
    let e = answer_of(false, "Service Unavailable", "Request failed");
    assert!(matches!(e, Err(ApiError::Message(m)) if m == "Service Unavailable"));
    assert_eq!(answer_of(true, r#"{"data":{"a":1}}"#, "x").ok(), Some(AnswerValue::DataMember));
    assert_eq!(answer_of(true, r#"{"data":null}"#, "x").ok(), Some(AnswerValue::DataMember));
    assert_eq!(answer_of(true, r#"{"ok":true}"#, "x").ok(), Some(AnswerValue::WholeBody));
    assert_eq!(answer_of(true, "plain", "x").ok(), Some(AnswerValue::TextMessage));
}

#[test]
fn upload_refusals() {
    assert!(matches!(upload_refusal("Bad Gateway", "Upload failed"), ApiError::Message(m) if m == "Upload failed"));
    assert!(matches!(upload_refusal(r#"{"error":{"message":"Too big"}}"#, "Upload failed"), ApiError::Message(m) if m == "Too big"));
}

#[test]
fn a_pass_queues_its_window_once() {
    let mut p = begin_pass(0);
    p.capture_offset_sec = 0;
    assert!(pass_second(&mut p, true, false, 1_000));
    p.window.image_path = Some("/tmp/s.jpg".into());
    let w = end_pass(p).expect("a window with a screenshot is queued");
    assert_eq!((w.window_start, w.seconds_elapsed, w.keyboard_seconds), (0, 1, 1));
    let q = begin_pass(0);
    assert!(end_pass(q).is_none());
}

#[test]
fn members_of_answers() {
    let body = r#"{"data":{"requires2FA":true,"tempToken":"t1","user":{"_id":"u1","email":"a@b.c","idleTimeoutMinutes":7}}}"#;
    let a = login_answer_of(body, AnswerValue::DataMember);
    assert!(matches!(a.requires_2fa, JsonField::Bool(true)));
    assert!(matches!(&a.temp_token, JsonField::Str(t) if t == "t1"));
    assert!(matches!(a.access_token, JsonField::Missing));
    assert!(matches!(&a.user.underscore_id, JsonField::Str(t) if t == "u1"));
    assert!(matches!(a.user.idle_timeout_minutes, JsonField::UInt(7)));
    let u = raw_user_at(r#"{"id":"x","monitorScreenshots":false}"#, AnswerValue::WholeBody, "");
    assert!(matches!(&u.id, JsonField::Str(t) if t == "x"));
    assert!(matches!(u.monitor_screenshots, JsonField::Bool(false)));
    assert!(matches!(u.email, JsonField::Missing));
    assert!(matches!(&answer_member("oops", AnswerValue::TextMessage, "/message"), JsonField::Str(t) if t == "oops"));
    assert!(matches!(answer_member("oops", AnswerValue::TextMessage, "/accessToken"), JsonField::Missing));
    assert_eq!(refreshed_token(true, r#"{"data":{"accessToken":"abc"}}"#).as_deref(), Some("abc"));
    assert_eq!(refreshed_token(false, r#"{"data":{"accessToken":"abc"}}"#), None);
    assert_eq!(refreshed_token(true, r#"{"data":{"accessToken":5}}"#), None);
    assert_eq!(refreshed_token(true, "nope"), None);
}
