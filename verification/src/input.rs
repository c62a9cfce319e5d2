use vstd::prelude::*;

use crate::active_window::Os;

verus! {

/// Keyboard and mouse activity, counted per second. Input events set the
/// flags of the current second; once a second the flags move to `last_*`,
/// and a second with any input adds one to `cumulative_active`.
#[derive(Debug, Clone, Copy)]
pub struct InputMeter {
    pub key_this_sec: bool,
    pub mouse_this_sec: bool,
    pub last_key: bool,
    pub last_mouse: bool,
    pub cumulative_active: u64,
}

impl InputMeter {
    /// A meter that has seen no input.
    pub fn new() -> (m: Self)
        ensures
            !m.key_this_sec && !m.mouse_this_sec && !m.last_key && !m.last_mouse,
            m.cumulative_active == 0,
    {
        InputMeter {
            key_this_sec: false,
            mouse_this_sec: false,
            last_key: false,
            last_mouse: false,
            cumulative_active: 0,
        }
    }
}

/// Records a key event in the current second.
pub fn mark_key(m: &mut InputMeter)
    ensures
        *final(m) == (InputMeter { key_this_sec: true, ..*old(m) }),
{
    m.key_this_sec = true;
}

/// Records a mouse event in the current second.
pub fn mark_mouse(m: &mut InputMeter)
    ensures
        *final(m) == (InputMeter { mouse_this_sec: true, ..*old(m) }),
{
    m.mouse_this_sec = true;
}

/// The meter after one second has passed.
pub open spec fn after_second(m: InputMeter) -> InputMeter {
    InputMeter {
        key_this_sec: false,
        mouse_this_sec: false,
        last_key: m.key_this_sec,
        last_mouse: m.mouse_this_sec,
        cumulative_active: if m.key_this_sec || m.mouse_this_sec {
            if m.cumulative_active == u64::MAX {
                0
            } else {
                (m.cumulative_active + 1) as u64
            }
        } else {
            m.cumulative_active
        },
    }
}

/// Closes the current second: its flags become the last second's, and the
/// active-second count grows by one if there was any input (wrapping at `u64::MAX`).
pub fn second_elapsed(m: &mut InputMeter)
    ensures
        *final(m) == after_second(*old(m)),
{
    let key = m.key_this_sec;
    let mouse = m.mouse_this_sec;
    m.key_this_sec = false;
    m.mouse_this_sec = false;
    m.last_key = key;
    m.last_mouse = mouse;
    if key || mouse {
        m.cumulative_active = m.cumulative_active.wrapping_add(1);
    }
}

/// Whether the last full second had keyboard and mouse input.
pub fn on_tick(m: &InputMeter) -> (r: (bool, bool))
    ensures
        r == (m.last_key, m.last_mouse),
{
    (m.last_key, m.last_mouse)
}

/// Whether the last full second had keyboard and mouse input.
pub fn last_tick(m: &InputMeter) -> (r: (bool, bool))
    ensures
        r == (m.last_key, m.last_mouse),
{
    on_tick(m)
}

/// The number of seconds with any input since the meter started.
pub fn get_cumulative_active_sec(m: &InputMeter) -> (r: u64)
    ensures
        r == m.cumulative_active,
{
    m.cumulative_active
}

/// Whether the second now running has had any input.
pub fn has_pending_input_this_second(m: &InputMeter) -> (r: bool)
    ensures
        r == (m.key_this_sec || m.mouse_this_sec),
{
    m.key_this_sec || m.mouse_this_sec
}

/// The kinds of global input event the listener reports.
#[derive(Debug, Clone, Copy, PartialEq, Eq, Structural)]
pub enum InputEvent {
    KeyPress,
    KeyRelease,
    MouseMove,
    ButtonPress,
    ButtonRelease,
    Wheel,
}

/// Records one global input event: key events count as keyboard, the rest as mouse.
pub fn on_input_event(m: &mut InputMeter, e: InputEvent)
    ensures
        (e == InputEvent::KeyPress || e == InputEvent::KeyRelease) ==> *final(m) == (InputMeter {
            key_this_sec: true,
            ..*old(m)
        }),
        !(e == InputEvent::KeyPress || e == InputEvent::KeyRelease) ==> *final(m) == (InputMeter {
            mouse_this_sec: true,
            ..*old(m)
        }),
{
    match e {
        InputEvent::KeyPress | InputEvent::KeyRelease => mark_key(m),
        _ => mark_mouse(m),
    }
}

/// Event type numbers of the macOS event tap.
pub const LEFT_MOUSE_DOWN: u32 = 1;
pub const LEFT_MOUSE_UP: u32 = 2;
pub const RIGHT_MOUSE_DOWN: u32 = 3;
pub const RIGHT_MOUSE_UP: u32 = 4;
pub const MOUSE_MOVED: u32 = 5;
pub const LEFT_MOUSE_DRAGGED: u32 = 6;
pub const RIGHT_MOUSE_DRAGGED: u32 = 7;
pub const KEY_DOWN: u32 = 10;
pub const KEY_UP: u32 = 11;
pub const FLAGS_CHANGED: u32 = 12;
pub const SCROLL_WHEEL: u32 = 22;
pub const OTHER_MOUSE_DOWN: u32 = 25;
pub const OTHER_MOUSE_UP: u32 = 26;
pub const OTHER_MOUSE_DRAGGED: u32 = 27;
pub const TAP_DISABLED_BY_TIMEOUT: u32 = 0xFFFF_FFFE;
pub const TAP_DISABLED_BY_USER_INPUT: u32 = 0xFFFF_FFFF;

/// The bit of an event type in an event mask.
pub fn mask_bit(event_type: u32) -> (r: u64)
    requires
        event_type < 64,
    ensures
        r == 1u64 << event_type,
{
    1u64 << event_type
}

/// The mask of every keyboard and mouse event type the tap listens to.
pub open spec fn interest_mask() -> u64 {
    (1u64 << 1u64) | (1u64 << 2u64) | (1u64 << 3u64) | (1u64 << 4u64) | (1u64 << 5u64) | (1u64
        << 6u64) | (1u64 << 7u64) | (1u64 << 10u64) | (1u64 << 11u64) | (1u64 << 12u64) | (1u64
        << 22u64) | (1u64 << 25u64) | (1u64 << 26u64) | (1u64 << 27u64)
}

/// The mask of the mouse button, movement, drag, scroll, key and
/// modifier-flag events that the macOS tap listens to.
pub fn events_of_interest() -> (r: u64)
    ensures
        r == interest_mask(),
        r == 239082750u64,
{
    let r = mask_bit(LEFT_MOUSE_DOWN) | mask_bit(LEFT_MOUSE_UP) | mask_bit(RIGHT_MOUSE_DOWN)
        | mask_bit(RIGHT_MOUSE_UP) | mask_bit(MOUSE_MOVED) | mask_bit(LEFT_MOUSE_DRAGGED)
        | mask_bit(RIGHT_MOUSE_DRAGGED) | mask_bit(KEY_DOWN) | mask_bit(KEY_UP) | mask_bit(
        FLAGS_CHANGED,
    ) | mask_bit(SCROLL_WHEEL) | mask_bit(OTHER_MOUSE_DOWN) | mask_bit(OTHER_MOUSE_UP) | mask_bit(
        OTHER_MOUSE_DRAGGED,
    );
    assert(interest_mask() == 239082750u64) by (bit_vector);
    r
}

/// What the macOS event tap does with one event.
#[derive(Debug, Clone, Copy, PartialEq, Eq, Structural)]
pub enum TapAction {
    /// The system disabled the tap; turn it back on.
    Reenable,
    /// A key or modifier event.
    Key,
    /// A mouse button, movement, drag or scroll event.
    Mouse,
    /// Any other event.
    Ignore,
}

/// The action for an event type of the macOS tap.
pub open spec fn tap_action_of(etype: u32) -> TapAction {
    if etype == TAP_DISABLED_BY_TIMEOUT || etype == TAP_DISABLED_BY_USER_INPUT {
        TapAction::Reenable
    } else if etype == KEY_DOWN || etype == KEY_UP || etype == FLAGS_CHANGED {
        TapAction::Key
    } else if etype == LEFT_MOUSE_DOWN || etype == LEFT_MOUSE_UP || etype == RIGHT_MOUSE_DOWN
        || etype == RIGHT_MOUSE_UP || etype == MOUSE_MOVED || etype == LEFT_MOUSE_DRAGGED || etype
        == RIGHT_MOUSE_DRAGGED || etype == SCROLL_WHEEL || etype == OTHER_MOUSE_DOWN || etype
        == OTHER_MOUSE_UP || etype == OTHER_MOUSE_DRAGGED {
        TapAction::Mouse
    } else {
        TapAction::Ignore
    }
}

/// The macOS event types 10, 11 and 12 (key down, key up, modifier flags
/// changed) are keyboard input, and only they; types 1 to 7, 22 and 25 to 27
/// (buttons, movement, drags, scrolling) are mouse input, and only they; every
/// event type the tap asks for counts as keyboard or mouse input.
pub proof fn law_tap_counts_input(etype: u32)
    ensures
        tap_action_of(etype) == TapAction::Key <==> (etype == 10 || etype == 11 || etype == 12),
        tap_action_of(etype) == TapAction::Mouse <==> ((1 <= etype <= 7) || etype == 22 || (25
            <= etype <= 27)),
        tap_action_of(etype) == TapAction::Reenable <==> (etype == 0xFFFF_FFFEu32 || etype
            == 0xFFFF_FFFFu32),
        etype < 64 && (interest_mask() >> (etype as u64)) & 1u64 == 1u64 ==> (tap_action_of(etype)
            == TapAction::Key || tap_action_of(etype) == TapAction::Mouse),
{
    let e = etype as u64;
    if etype < 64 {
        assert(((239082750u64 >> e) & 1u64 == 1u64) ==> ((1 <= e <= 7) || e == 10 || e == 11 || e
            == 12 || e == 22 || (25 <= e <= 27))) by (bit_vector)
            requires
                e < 64,
        ;
        assert(interest_mask() == 239082750u64) by (bit_vector);
    }
}

/// Classifies an event the macOS tap receives.
pub fn tap_action(etype: u32) -> (r: TapAction)
    ensures
        r == tap_action_of(etype),
{
    if etype == TAP_DISABLED_BY_TIMEOUT || etype == TAP_DISABLED_BY_USER_INPUT {
        TapAction::Reenable
    } else if etype == KEY_DOWN || etype == KEY_UP || etype == FLAGS_CHANGED {
        TapAction::Key
    } else if etype == LEFT_MOUSE_DOWN || etype == LEFT_MOUSE_UP || etype == RIGHT_MOUSE_DOWN
        || etype == RIGHT_MOUSE_UP || etype == MOUSE_MOVED || etype == LEFT_MOUSE_DRAGGED || etype
        == RIGHT_MOUSE_DRAGGED || etype == SCROLL_WHEEL || etype == OTHER_MOUSE_DOWN || etype
        == OTHER_MOUSE_UP || etype == OTHER_MOUSE_DRAGGED {
        TapAction::Mouse
    } else {
        TapAction::Ignore
    }
}

/// Applies an event of the macOS tap to the meter; returns whether the tap
/// must be enabled again.
pub fn on_tap_event(m: &mut InputMeter, etype: u32) -> (reenable: bool)
    ensures
        reenable == (tap_action_of(etype) == TapAction::Reenable),
        tap_action_of(etype) == TapAction::Key ==> *final(m) == (InputMeter {
            key_this_sec: true,
            ..*old(m)
        }),
        tap_action_of(etype) == TapAction::Mouse ==> *final(m) == (InputMeter {
            mouse_this_sec: true,
            ..*old(m)
        }),
        (tap_action_of(etype) == TapAction::Reenable || tap_action_of(etype) == TapAction::Ignore)
            ==> *final(m) == *old(m),
{
    match tap_action(etype) {
        TapAction::Reenable => true,
        TapAction::Key => {
            mark_key(m);
            false
        },
        TapAction::Mouse => {
            mark_mouse(m);
            false
        },
        TapAction::Ignore => false,
    }
}

/// The next step in starting the global input hook.
#[derive(Debug, Clone, Copy, PartialEq, Eq, Structural)]
pub enum HookStep {
    /// A hook is already listening: report success.
    Running,
    /// Ask macOS whether the app is trusted for Accessibility (this may prompt the user).
    CheckTrust,
    /// Mark the hook as started and spawn the listener: report success.
    Spawn,
}

/// What starting the hook does first.
pub open spec fn hook_step_of(hook_started: bool, os: Os) -> HookStep {
    if hook_started {
        HookStep::Running
    } else if os == Os::MacOs {
        HookStep::CheckTrust
    } else {
        HookStep::Spawn
    }
}

/// What starting the hook does first: nothing when it already runs; on
/// macOS the Accessibility trust check; elsewhere the listener is spawned.
pub fn hook_step(hook_started: bool, os: Os) -> (r: HookStep)
    ensures
        r == hook_step_of(hook_started, os),
        hook_started ==> r == HookStep::Running,
        !hook_started && os == Os::MacOs ==> r == HookStep::CheckTrust,
        !hook_started && os != Os::MacOs ==> r == HookStep::Spawn,
{
    if hook_started {
        HookStep::Running
    } else if os == Os::MacOs {
        HookStep::CheckTrust
    } else {
        HookStep::Spawn
    }
}

/// After the trust check: an untrusted app gets no hook (and reports failure).
pub fn after_trust_check(trusted: bool) -> (r: Option<HookStep>)
    ensures
        r == hook_outcome(false, Os::MacOs, trusted),
        trusted ==> r == Some(HookStep::Spawn),
        !trusted ==> r is None,
{
    if trusted {
        Some(HookStep::Spawn)
    } else {
        None
    }
}

/// How starting the hook ends, given the answer of the trust check (asked
/// only when the first step is `CheckTrust`): `None` when it reports failure,
/// else the final step (`Running`, or `Spawn` for a new listener).
pub open spec fn hook_outcome(hook_started: bool, os: Os, trusted: bool) -> Option<HookStep> {
    match hook_step_of(hook_started, os) {
        HookStep::CheckTrust => if trusted {
            Some(HookStep::Spawn)
        } else {
            None
        },
        step => Some(step),
    }
}

/// Starting the input hook reports success exactly when a hook already
/// runs, the system is not macOS, or macOS trusts the app; a new listener is
/// spawned only when none was running.
pub proof fn law_hook_start(hook_started: bool, os: Os, trusted: bool)
    ensures
        hook_outcome(hook_started, os, trusted) is Some <==> (hook_started || os != Os::MacOs
            || trusted),
        hook_outcome(hook_started, os, trusted) == Some(HookStep::Spawn) ==> !hook_started,
        hook_started ==> hook_outcome(hook_started, os, trusted) == Some(HookStep::Running),
{
}

/// Marks a once-per-process task as started; returns whether this call is
/// the first and so must spawn it.
pub fn first_start(started: &mut bool) -> (first: bool)
    ensures
        *final(started),
        first == !*old(started),
{
    let first = !*started;
    *started = true;
    first
}

/// A meter's second closes; the last second's flags are the closed second's
/// flags, the new second has no input yet, and the count of active seconds
/// grows by one exactly when the closed second had input (modulo 2^64).
pub proof fn law_second_rolls_over(m: InputMeter)
    ensures
        after_second(m).last_key == m.key_this_sec,
        after_second(m).last_mouse == m.mouse_this_sec,
        !after_second(m).key_this_sec && !after_second(m).mouse_this_sec,
        (m.key_this_sec || m.mouse_this_sec) ==> after_second(m).cumulative_active as int == (
        m.cumulative_active as int + 1) % 0x1_0000_0000_0000_0000,
        !(m.key_this_sec || m.mouse_this_sec) ==> after_second(m).cumulative_active
            == m.cumulative_active,
{
}

} // verus!
