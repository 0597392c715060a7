//! Overlay window behaviour: hover-hide, welcome mode, always-on-top and
//! monitor placement.

use vstd::prelude::*;
use vstd::string::StringExecFns;
use crate::mode::WindowMode;
use crate::settings::{AppSettings, SettingsState};
use crate::text::{push_decimal, push_signed_decimal, decimal, signed_decimal};

verus! {

/// Milliseconds that the cursor must stay off the lyrics before a window
/// hidden by hovering shows again.
pub const HOVER_SHOW_DELAY_MS: u64 = 500;

/// Hover and placement state of the overlay window. Layout bounds are in
/// hundredths of a CSS pixel.
#[derive(Clone, Copy, Debug, PartialEq, Eq, Structural)]
pub struct HoverState {
    pub layout_exists: bool,
    pub layout_left: i32,
    pub layout_top: i32,
    pub layout_width: i32,
    pub layout_height: i32,
    pub hover_hide_auto_disabled: bool,
    pub window_hidden_by_hover: bool,
    pub welcome_mode_active: bool,
    pub interaction_override_active: bool,
    pub window_x: i32,
    pub window_y: i32,
}

impl HoverState {
    /// The state at launch: no layout known, nothing hidden.
    pub fn new() -> (h: Self)
        ensures
            h == (HoverState {
                layout_exists: false,
                layout_left: 0,
                layout_top: 0,
                layout_width: 0,
                layout_height: 0,
                hover_hide_auto_disabled: false,
                window_hidden_by_hover: false,
                welcome_mode_active: false,
                interaction_override_active: false,
                window_x: 0,
                window_y: 0,
            }),
    {
        HoverState {
            layout_exists: false,
            layout_left: 0,
            layout_top: 0,
            layout_width: 0,
            layout_height: 0,
            hover_hide_auto_disabled: false,
            window_hidden_by_hover: false,
            welcome_mode_active: false,
            interaction_override_active: false,
            window_x: 0,
            window_y: 0,
        }
    }
}

/// Hover-hide is off: by the user's setting or because the lyrics fill a
/// large part of the window.
pub open spec fn hover_hide_disabled_spec(s: SettingsState, h: HoverState) -> bool {
    s.disable_hover_hide || h.hover_hide_auto_disabled
}

/// Whether hover-hide is off, by the setting or automatically.
pub fn is_hover_hide_effectively_disabled(s: &SettingsState, h: &HoverState) -> (b: bool)
    ensures
        b == hover_hide_disabled_spec(*s, *h),
{
    s.disable_hover_hide || h.hover_hide_auto_disabled
}

/// Whether hover-hide was switched off automatically.
pub fn is_hover_hide_auto_disabled(h: &HoverState) -> (b: bool)
    ensures
        b == h.hover_hide_auto_disabled,
{
    h.hover_hide_auto_disabled
}

/// Sets the automatic hover-hide switch; reports whether it changed (the
/// tray labels then need refreshing).
pub fn set_hover_hide_auto_disabled(h: &mut HoverState, disabled: bool) -> (changed: bool)
    ensures
        *final(h) == (HoverState { hover_hide_auto_disabled: disabled, ..*old(h) }),
        changed == (old(h).hover_hide_auto_disabled != disabled),
{
    let previous = h.hover_hide_auto_disabled;
    h.hover_hide_auto_disabled = disabled;
    previous != disabled
}

/// Bounds of the lyrics container, in hundredths of a CSS pixel.
#[derive(Clone, Copy, Debug, PartialEq, Eq, Structural)]
pub struct LayoutBounds {
    pub left: i32,
    pub top: i32,
    pub width: i32,
    pub height: i32,
}

/// Records the lyrics container reported by the page: none when it is absent
/// (hover-hide is then not switched off automatically), else its bounds and
/// whether it is large enough to switch hover-hide off. Reports whether the
/// automatic switch changed.
pub fn record_layout_bounds(h: &mut HoverState, bounds: Option<LayoutBounds>, auto_disable: bool) -> (changed:
    bool)
    ensures
        match bounds {
            None => *final(h) == (HoverState {
                layout_exists: false,
                hover_hide_auto_disabled: false,
                ..*old(h)
            }),
            Some(b) => *final(h) == (HoverState {
                layout_exists: true,
                layout_left: b.left,
                layout_top: b.top,
                layout_width: b.width,
                layout_height: b.height,
                hover_hide_auto_disabled: auto_disable,
                ..*old(h)
            }),
        },
        changed == (old(h).hover_hide_auto_disabled != final(h).hover_hide_auto_disabled),
{
    match bounds {
        None => {
            h.layout_exists = false;
            set_hover_hide_auto_disabled(h, false)
        },
        Some(b) => {
            h.layout_left = b.left;
            h.layout_top = b.top;
            h.layout_width = b.width;
            h.layout_height = b.height;
            h.layout_exists = true;
            set_hover_hide_auto_disabled(h, auto_disable)
        },
    }
}

/// Enters welcome mode: hover-hide and the interaction override are
/// suspended and the window is fully interactive and shown.
pub fn enter_welcome_mode(h: &mut HoverState)
    ensures
        *final(h) == (HoverState {
            welcome_mode_active: true,
            window_hidden_by_hover: false,
            interaction_override_active: false,
            ..*old(h)
        }),
{
    h.welcome_mode_active = true;
    h.window_hidden_by_hover = false;
    h.interaction_override_active = false;
}

/// How the overlay takes mouse input: whether it lets clicks through, and
/// whether it can take focus.
#[derive(Clone, Copy, Debug, PartialEq, Eq, Structural)]
pub struct CursorPolicy {
    pub ignore_cursor_events: bool,
    pub focusable: bool,
}

/// Leaves welcome mode; the window takes input again as the click-through
/// setting says.
pub fn exit_welcome_mode(h: &mut HoverState, click_through_enabled: bool) -> (p: CursorPolicy)
    ensures
        *final(h) == (HoverState {
            welcome_mode_active: false,
            window_hidden_by_hover: false,
            interaction_override_active: false,
            ..*old(h)
        }),
        p.ignore_cursor_events == click_through_enabled,
        p.focusable == !click_through_enabled,
{
    h.welcome_mode_active = false;
    h.window_hidden_by_hover = false;
    h.interaction_override_active = false;
    CursorPolicy { ignore_cursor_events: click_through_enabled, focusable: !click_through_enabled }
}

/// Turns the interaction override (the Alt+Shift+F hold) on or off; when on,
/// the window must be shown at once.
pub fn set_interaction_override(h: &mut HoverState, active: bool) -> (show_now: bool)
    ensures
        *final(h) == (HoverState { interaction_override_active: active, ..*old(h) }),
        show_now == active,
{
    h.interaction_override_active = active;
    active
}

/// Shows the window at once; it is no longer hidden by hovering.
pub fn force_show_immediate(h: &mut HoverState)
    ensures
        *final(h) == (HoverState { window_hidden_by_hover: false, ..*old(h) }),
{
    h.window_hidden_by_hover = false;
}

/// What the hover controller does to the window in one tick.
#[derive(Clone, Copy, Debug, PartialEq, Eq, Structural)]
pub enum HoverAction {
    Nothing,
    ForceShow,
    FadeShow,
    FadeHide,
}

/// What the hover controller observes in one tick.
#[derive(Clone, Copy, Debug, PartialEq, Eq, Structural)]
pub struct HoverTick {
    pub mode: WindowMode,
    pub window_visible: bool,
    pub lyrics_paused: bool,
    pub click_through_enabled: bool,
    pub hover_hide_disabled: bool,
    pub cursor_inside_layout: bool,
    pub now_ms: u64,
}

/// One tick of the hover controller: the new hidden-by-hover flag, the new
/// time at which a hidden window shows again, and the action.
pub open spec fn hover_step_spec(hidden: bool, welcome: bool, override_active: bool, pending: Option<
    u64,
>, t: HoverTick) -> (bool, Option<u64>, HoverAction) {
    if t.mode != WindowMode::Normal {
        (false, None, HoverAction::Nothing)
    } else if welcome {
        (false, None, if hidden { HoverAction::ForceShow } else { HoverAction::Nothing })
    } else if !(!t.lyrics_paused && (t.window_visible || hidden)) {
        (false, None, HoverAction::Nothing)
    } else if override_active {
        (false, None, if hidden { HoverAction::ForceShow } else { HoverAction::Nothing })
    } else if !t.click_through_enabled || t.hover_hide_disabled {
        (false, None, if hidden { HoverAction::FadeShow } else { HoverAction::Nothing })
    } else if t.cursor_inside_layout {
        (true, None, if hidden { HoverAction::Nothing } else { HoverAction::FadeHide })
    } else if hidden {
        let deadline = match pending {
            Some(d) => d,
            None => (t.now_ms + HOVER_SHOW_DELAY_MS) as u64,
        };
        if t.now_ms >= deadline {
            (false, None, HoverAction::FadeShow)
        } else {
            (true, Some(deadline), HoverAction::Nothing)
        }
    } else {
        (false, None, HoverAction::Nothing)
    }
}

/// One tick of the hover controller: hides the overlay while the cursor is
/// over the lyrics, and shows it again once the cursor has been away for the
/// show delay; suspended outside the overlay mode, in welcome mode, while
/// paused, during the interaction override, without click-through, and when
/// hover-hide is off.
pub fn hover_controller_step(h: &mut HoverState, pending_show_at: &mut Option<u64>, t: HoverTick) -> (a:
    HoverAction)
    requires
        t.now_ms <= u64::MAX - HOVER_SHOW_DELAY_MS,
    ensures
        ({
            let (hidden, pending, action) = hover_step_spec(
                old(h).window_hidden_by_hover,
                old(h).welcome_mode_active,
                old(h).interaction_override_active,
                *old(pending_show_at),
                t,
            );
            &&& *final(h) == (HoverState { window_hidden_by_hover: hidden, ..*old(h) })
            &&& *final(pending_show_at) == pending
            &&& a == action
        }),
{
    if t.mode != WindowMode::Normal {
        *pending_show_at = None;
        h.window_hidden_by_hover = false;
        return HoverAction::Nothing;
    }
    let hidden = h.window_hidden_by_hover;
    if h.welcome_mode_active {
        *pending_show_at = None;
        h.window_hidden_by_hover = false;
        return if hidden {
            HoverAction::ForceShow
        } else {
            HoverAction::Nothing
        };
    }
    let hover_active = !t.lyrics_paused && (t.window_visible || hidden);
    if !hover_active {
        *pending_show_at = None;
        h.window_hidden_by_hover = false;
        return HoverAction::Nothing;
    }
    if h.interaction_override_active {
        *pending_show_at = None;
        h.window_hidden_by_hover = false;
        return if hidden {
            HoverAction::ForceShow
        } else {
            HoverAction::Nothing
        };
    }
    if !t.click_through_enabled || t.hover_hide_disabled {
        *pending_show_at = None;
        h.window_hidden_by_hover = false;
        return if hidden {
            HoverAction::FadeShow
        } else {
            HoverAction::Nothing
        };
    }
    if t.cursor_inside_layout {
        *pending_show_at = None;
        if !hidden {
            h.window_hidden_by_hover = true;
            return HoverAction::FadeHide;
        }
        return HoverAction::Nothing;
    }
    if hidden {
        let deadline = match *pending_show_at {
            Some(d) => d,
            None => t.now_ms + HOVER_SHOW_DELAY_MS,
        };
        if t.now_ms >= deadline {
            h.window_hidden_by_hover = false;
            *pending_show_at = None;
            HoverAction::FadeShow
        } else {
            *pending_show_at = Some(deadline);
            HoverAction::Nothing
        }
    } else {
        *pending_show_at = None;
        HoverAction::Nothing
    }
}

/// After any tick the window is hidden by hovering only while hover-hide is
/// in force: overlay mode, no welcome page, no override, not paused,
/// click-through on and hover-hide not switched off.
pub proof fn lemma_hidden_only_while_hover_hide_applies(
    hidden: bool,
    welcome: bool,
    override_active: bool,
    pending: Option<u64>,
    t: HoverTick,
)
    requires
        t.now_ms <= u64::MAX - HOVER_SHOW_DELAY_MS,
    ensures
        hover_step_spec(hidden, welcome, override_active, pending, t).0 ==> {
            &&& t.mode == WindowMode::Normal
            &&& !welcome
            &&& !override_active
            &&& !t.lyrics_paused
            &&& t.click_through_enabled
            &&& !t.hover_hide_disabled
        },
        hover_step_spec(hidden, welcome, override_active, pending, t).2 == HoverAction::FadeHide
            ==> !hidden && t.cursor_inside_layout,
{
}

/// A window hidden by hovering shows again on the first tick at or after the
/// scheduled time while the cursor stays away, and a show is scheduled no
/// later than the show delay after the cursor leaves.
pub proof fn lemma_hidden_window_shows_after_delay(pending: Option<u64>, t: HoverTick)
    requires
        t.now_ms <= u64::MAX - HOVER_SHOW_DELAY_MS,
        t.mode == WindowMode::Normal,
        !t.lyrics_paused,
        t.click_through_enabled,
        !t.hover_hide_disabled,
        !t.cursor_inside_layout,
    ensures
        pending matches Some(d) && t.now_ms >= d ==> hover_step_spec(true, false, false, pending, t)
            == (false, None::<u64>, HoverAction::FadeShow),
        pending is None ==> hover_step_spec(true, false, false, pending, t).1 == Some(
            (t.now_ms + HOVER_SHOW_DELAY_MS) as u64,
        ),
{
}

/// A tick in overlay mode with lyrics running, click-through on, hover-hide
/// in force and the cursor off the lyrics.
pub open spec fn is_away_tick(t: HoverTick) -> bool {
    &&& t.mode == WindowMode::Normal
    &&& !t.lyrics_paused
    &&& t.click_through_enabled
    &&& !t.hover_hide_disabled
    &&& !t.cursor_inside_layout
    &&& t.now_ms <= u64::MAX - HOVER_SHOW_DELAY_MS
}

/// Whether the window is hidden by hovering, and the scheduled show, after
/// the controller ran on `ticks` (no welcome page, no override).
pub open spec fn hover_after(hidden: bool, pending: Option<u64>, ticks: Seq<HoverTick>) -> (bool, Option<u64>)
    decreases ticks.len(),
{
    if ticks.len() == 0 {
        (hidden, pending)
    } else {
        let (h, p, _a) = hover_step_spec(hidden, false, false, pending, ticks[0]);
        hover_after(h, p, ticks.drop_first())
    }
}

/// A window that is not hidden by hovering stays so while the cursor is away.
proof fn lemma_shown_stays_shown(pending: Option<u64>, ticks: Seq<HoverTick>)
    requires
        forall|i: int| 0 <= i < ticks.len() ==> #[trigger] is_away_tick(ticks[i]),
    ensures
        !hover_after(false, pending, ticks).0,
    decreases ticks.len(),
{
    if ticks.len() > 0 {
        assert(is_away_tick(ticks[0]));
        let (h, p, _a) = hover_step_spec(false, false, false, pending, ticks[0]);
        assert(!h);
        assert forall|i: int| 0 <= i < ticks.drop_first().len() implies #[trigger] is_away_tick(
            ticks.drop_first()[i],
        ) by {
            assert(ticks.drop_first()[i] == ticks[i + 1]);
        }
        lemma_shown_stays_shown(p, ticks.drop_first());
    }
}

/// While the cursor stays away, a hidden window whose show is due by
/// `bound` is shown by the first tick at or after `bound`.
proof fn lemma_due_show_happens(hidden: bool, pending: Option<u64>, ticks: Seq<HoverTick>, bound: int)
    requires
        ticks.len() > 0,
        forall|i: int| 0 <= i < ticks.len() ==> #[trigger] is_away_tick(ticks[i]),
        ticks.last().now_ms >= bound,
        hidden ==> match pending {
            Some(d) => d <= bound,
            None => ticks[0].now_ms + HOVER_SHOW_DELAY_MS <= bound,
        },
    ensures
        !hover_after(hidden, pending, ticks).0,
    decreases ticks.len(),
{
    assert(is_away_tick(ticks[0]));
    let (h, p, _a) = hover_step_spec(hidden, false, false, pending, ticks[0]);
    let rest = ticks.drop_first();
    assert forall|i: int| 0 <= i < rest.len() implies #[trigger] is_away_tick(rest[i]) by {
        assert(rest[i] == ticks[i + 1]);
    }
    if !h {
        lemma_shown_stays_shown(p, rest);
    } else {
        assert(hidden);
        if ticks.len() == 1 {
            assert(ticks.last() == ticks[0]);
        } else {
            assert(rest.last() == ticks.last());
            assert(rest.len() > 0);
            lemma_due_show_happens(h, p, rest, bound);
        }
    }
}

/// Hover-hide law over many ticks: a window hidden by hovering is shown
/// again once the cursor has stayed off the lyrics for the show delay
/// (500 ms) from the first tick it was away, with lyrics running,
/// click-through on and hover-hide in force throughout. At a single tick it
/// is shown at once when the interaction override is on, and faded in when
/// click-through is off or hover-hide is switched off.
pub proof fn lemma_hover_hidden_window_is_shown_again(ticks: Seq<HoverTick>, t: HoverTick, override_active: bool)
    requires
        t.now_ms <= u64::MAX - HOVER_SHOW_DELAY_MS,
    ensures
        ticks.len() > 0 && (forall|i: int| 0 <= i < ticks.len() ==> #[trigger] is_away_tick(ticks[i]))
            && ticks.last().now_ms >= ticks[0].now_ms + HOVER_SHOW_DELAY_MS ==> !hover_after(
            true,
            None,
            ticks,
        ).0,
        t.mode == WindowMode::Normal && !t.lyrics_paused && override_active ==> hover_step_spec(
            true,
            false,
            override_active,
            None,
            t,
        ) == (false, None::<u64>, HoverAction::ForceShow),
        t.mode == WindowMode::Normal && !t.lyrics_paused && !override_active && (!t.click_through_enabled
            || t.hover_hide_disabled) ==> hover_step_spec(true, false, override_active, None, t) == (
            false,
            None::<u64>,
            HoverAction::FadeShow,
        ),
{
    if ticks.len() > 0 && (forall|i: int| 0 <= i < ticks.len() ==> #[trigger] is_away_tick(ticks[i]))
        && ticks.last().now_ms >= ticks[0].now_ms + HOVER_SHOW_DELAY_MS {
        lemma_due_show_happens(true, None, ticks, ticks[0].now_ms + HOVER_SHOW_DELAY_MS);
    }
}

/// Whether the window is kept above others, and whether the window system
/// must be told (it is only told when its current state differs).
#[derive(Clone, Copy, Debug, PartialEq, Eq, Structural)]
pub struct TopmostDecision {
    pub want_topmost: bool,
    pub set_needed: bool,
}

/// The always-on-top choice: on when the setting is on, lyrics are not
/// paused and the window is visible (an unknown visibility counts as
/// visible); the window system is called only on a change (an unknown
/// current state counts as a change).
pub fn always_on_top_decision(
    always_on_top_enabled: bool,
    lyrics_paused: bool,
    visible: Option<bool>,
    currently_on_top: Option<bool>,
) -> (d: TopmostDecision)
    ensures
        d.want_topmost == (always_on_top_enabled && !lyrics_paused && match visible {
            Some(v) => v,
            None => true,
        }),
        d.set_needed == (match currently_on_top {
            Some(c) => c != d.want_topmost,
            None => true,
        }),
{
    let vis = match visible {
        Some(v) => v,
        None => true,
    };
    let want = always_on_top_enabled && !lyrics_paused && vis;
    let currently = match currently_on_top {
        Some(c) => c,
        None => !want,
    };
    TopmostDecision { want_topmost: want, set_needed: currently != want }
}

/// Places the overlay on a monitor: at the monitor's left edge, raised by
/// the taskbar height; records the position.
pub fn apply_monitor_layout(h: &mut HoverState, monitor_x: i32, monitor_y: i32, taskbar_height: u32) -> (pos:
    (i32, i32))
    requires
        taskbar_height <= i32::MAX,
        monitor_y - taskbar_height >= i32::MIN,
    ensures
        pos == (monitor_x, (monitor_y - taskbar_height) as i32),
        *final(h) == (HoverState { window_x: pos.0, window_y: pos.1, ..*old(h) }),
{
    let x = monitor_x;
    let y = monitor_y - taskbar_height as i32;
    h.window_x = x;
    h.window_y = y;
    (x, y)
}

/// Height of the taskbar on a monitor: the larger gap between the monitor
/// and its work area at the bottom or at the top (0 when none).
pub fn taskbar_height(monitor_top: i32, monitor_bottom: i32, work_top: i32, work_bottom: i32) -> (r: u32)
    requires
        i32::MIN <= monitor_bottom - work_bottom <= i32::MAX,
        i32::MIN <= work_top - monitor_top <= i32::MAX,
    ensures
        r == ({
            let bottom = if monitor_bottom - work_bottom > 0 { monitor_bottom - work_bottom } else { 0 };
            let top = if work_top - monitor_top > 0 { work_top - monitor_top } else { 0 };
            if bottom >= top { bottom } else { top }
        }),
{
    let b = monitor_bottom - work_bottom;
    let t = work_top - monitor_top;
    let bottom: u32 = if b > 0 { b as u32 } else { 0 };
    let top: u32 = if t > 0 { t as u32 } else { 0 };
    if bottom >= top { bottom } else { top }
}

/// `v` clamped to the `i32` range.
pub open spec fn saturating_i32(v: int) -> i32 {
    if v > i32::MAX { i32::MAX } else if v < i32::MIN { i32::MIN } else { v as i32 }
}

/// The centre point of a monitor, by which the window system finds it
/// (coordinates clamped to the `i32` range).
pub fn monitor_center(x: i32, y: i32, width: u32, height: u32) -> (c: (i32, i32))
    ensures
        c == (saturating_i32(x + width / 2), saturating_i32(y + height / 2)),
{
    let hw = (width / 2) as i64;
    let hh = (height / 2) as i64;
    let cx = x as i64 + hw;
    let cy = y as i64 + hh;
    let rx: i32 = if cx > i32::MAX as i64 { i32::MAX } else if cx < i32::MIN as i64 { i32::MIN } else { cx as i32 };
    let ry: i32 = if cy > i32::MAX as i64 { i32::MAX } else if cy < i32::MIN as i64 { i32::MIN } else { cy as i32 };
    (rx, ry)
}

/// Opacity at step `step` of a fade of `steps` steps: `255 * step / steps`
/// rounded to the nearest integer, halves up.
pub fn fade_alpha(step: u32, steps: u32) -> (a: u8)
    requires
        0 < steps,
        step <= steps,
    ensures
        a == (510 * step + steps) / (2 * steps),
{
    let num: u64 = 510 * (step as u64) + steps as u64;
    let den: u64 = 2 * (steps as u64);
    assert(num / den <= 255) by (nonlinear_arith)
        requires
            num == 510 * step + steps,
            den == 2 * steps,
            step <= steps,
            0 < steps,
    {
        assert(num < 256 * den);
    }
    (num / den) as u8
}


/// Position and size of a monitor.
#[derive(Clone, Copy, Debug, PartialEq, Eq, Structural)]
pub struct MonitorGeometry {
    pub x: i32,
    pub y: i32,
    pub width: u32,
    pub height: u32,
}

/// The monitor to lay the overlay out on: the selected one when it exists,
/// else the window's current monitor taken at the origin.
pub fn choose_overlay_monitor(selected: usize, monitors: &Vec<MonitorGeometry>, current: Option<MonitorGeometry>) -> (r:
    Option<MonitorGeometry>)
    ensures
        r == (if selected < monitors@.len() {
            Some(monitors@[selected as int])
        } else {
            match current {
                Some(c) => Some(MonitorGeometry { x: 0, y: 0, ..c }),
                None => None,
            }
        }),
{
    if selected < monitors.len() {
        return Some(monitors[selected]);
    }
    match current {
        Some(c) => Some(MonitorGeometry { x: 0, y: 0, width: c.width, height: c.height }),
        None => None,
    }
}

/// The monitor to lay the welcome window out on: the selected one when it
/// exists, else the window's current monitor.
pub fn choose_welcome_monitor(selected: usize, monitors: &Vec<MonitorGeometry>, current: Option<MonitorGeometry>) -> (r:
    Option<MonitorGeometry>)
    ensures
        r == (if selected < monitors@.len() {
            Some(monitors@[selected as int])
        } else {
            current
        }),
{
    if selected < monitors.len() {
        return Some(monitors[selected]);
    }
    current
}

/// `x:y:wxh`, which identifies a monitor layout.
pub open spec fn monitor_key_spec(m: MonitorGeometry) -> Seq<char> {
    signed_decimal(m.x as int) + ":"@ + signed_decimal(m.y as int) + ":"@ + decimal(m.width as nat)
        + "x"@ + decimal(m.height as nat)
}

/// The key of a monitor layout; the overlay is laid out again when it
/// changes.
pub fn monitor_key(m: MonitorGeometry) -> (r: String)
    ensures
        r@ == monitor_key_spec(m),
{
    let mut r = String::new();
    push_signed_decimal(&mut r, m.x as i64);
    r.append(":");
    push_signed_decimal(&mut r, m.y as i64);
    r.append(":");
    push_decimal(&mut r, m.width as u64);
    r.append("x");
    push_decimal(&mut r, m.height as u64);
    assert(r@ =~= monitor_key_spec(m));
    r
}

/// What applying a mode's settings does to its window.
#[derive(Clone, Copy, Debug)]
pub struct WindowSettingsPlan {
    /// New input policy, if it changes.
    pub cursor: Option<CursorPolicy>,
    /// Run the overlay's hover-bounds and close-control scripts.
    pub eval_overlay_scripts: bool,
    /// Blur state to apply.
    pub blur_enabled: bool,
    /// Turn the fancy animations off.
    pub disable_fancy_animation: bool,
    /// Lay the overlay out on its monitor again.
    pub reposition: bool,
}

/// Applying settings to a window: the overlay follows click-through unless
/// the welcome page is shown and runs its scripts; the mini window always
/// takes input; blur and animations follow the settings; the overlay is
/// placed again when a monitor is set.
pub fn window_settings_plan(mode: WindowMode, welcome_mode_active: bool, settings: &AppSettings) -> (p:
    WindowSettingsPlan)
    ensures
        p.cursor == (match mode {
            WindowMode::Normal => if welcome_mode_active {
                None
            } else {
                Some(
                    CursorPolicy {
                        ignore_cursor_events: settings.click_through_enabled,
                        focusable: !settings.click_through_enabled,
                    },
                )
            },
            WindowMode::Window => Some(CursorPolicy { ignore_cursor_events: false, focusable: true }),
        }),
        p.eval_overlay_scripts == (mode == WindowMode::Normal),
        p.blur_enabled == settings.blur_enabled,
        p.disable_fancy_animation == settings.word_bounce_disabled,
        p.reposition == (mode == WindowMode::Normal && settings.monitor_index is Some),
{
    let cursor = match mode {
        WindowMode::Normal => if welcome_mode_active {
            None
        } else {
            Some(
                CursorPolicy {
                    ignore_cursor_events: settings.click_through_enabled,
                    focusable: !settings.click_through_enabled,
                },
            )
        },
        WindowMode::Window => Some(CursorPolicy { ignore_cursor_events: false, focusable: true }),
    };
    WindowSettingsPlan {
        cursor,
        eval_overlay_scripts: mode == WindowMode::Normal,
        blur_enabled: settings.blur_enabled,
        disable_fancy_animation: settings.word_bounce_disabled,
        reposition: mode == WindowMode::Normal && settings.monitor_index.is_some(),
    }
}

/// A hidden window is shown only after the cursor has stayed away for the
/// show delay counted from the last time it left: while hover-hide applies,
/// a tick with the cursor over the lyrics keeps the window hidden and drops
/// any scheduled show; a later tick away with nothing scheduled does not
/// show it but schedules the show the delay later; and on a tick away the
/// window is faded in only when a scheduled show is due.
pub proof fn lemma_hover_show_counts_from_last_exit(
    hidden: bool,
    pending: Option<u64>,
    inside: HoverTick,
    away: HoverTick,
)
    requires
        inside.now_ms <= u64::MAX - HOVER_SHOW_DELAY_MS,
        away.now_ms <= u64::MAX - HOVER_SHOW_DELAY_MS,
    ensures
        inside.mode == WindowMode::Normal && !inside.lyrics_paused && (inside.window_visible || hidden)
            && inside.click_through_enabled && !inside.hover_hide_disabled && inside.cursor_inside_layout
            ==> {
            let (h1, p1, _a1) = hover_step_spec(hidden, false, false, pending, inside);
            &&& h1
            &&& p1 is None
            &&& is_away_tick(away) ==> hover_step_spec(h1, false, false, p1, away) == (
                true,
                Some((away.now_ms + HOVER_SHOW_DELAY_MS) as u64),
                HoverAction::Nothing,
            )
        },
        is_away_tick(away) && hover_step_spec(hidden, false, false, pending, away).2
            == HoverAction::FadeShow ==> hidden && (pending matches Some(d) && away.now_ms >= d),
        is_away_tick(away) && hidden && pending is None ==> hover_step_spec(
            hidden,
            false,
            false,
            pending,
            away,
        ) == (true, Some((away.now_ms + HOVER_SHOW_DELAY_MS) as u64), HoverAction::Nothing),
{
}

} // verus!
