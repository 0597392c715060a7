//! Click-through of the overlay: whether mouse input passes through it.

use vstd::prelude::*;
use crate::mode::WindowMode;
use crate::settings::SettingsState;
use crate::window::{CursorPolicy, HoverState};

verus! {

/// What a change of click-through asks of the app.
#[derive(Clone, Copy, Debug)]
pub struct ClickThroughPlan {
    /// Input policy for the overlay window, when it is to be changed now.
    pub cursor: Option<CursorPolicy>,
    /// Show the window at once (click-through turned off).
    pub force_show: bool,
    /// Show the page's width control (click-through off) or hide it.
    pub show_width_control: bool,
    /// Save the settings.
    pub save: bool,
    /// Label of the tray's click-through entry.
    pub menu_label: &'static str,
}

/// Sets click-through to `enabled`, saving it when `persist`. While the
/// welcome page is shown the window is left interactive and only the intent
/// is recorded (and saved). Without an overlay window nothing changes.
pub fn click_through_change(
    s: &mut SettingsState,
    h: &mut HoverState,
    enabled: bool,
    persist: bool,
    mode: WindowMode,
    overlay_exists: bool,
) -> (p: Option<ClickThroughPlan>)
    ensures
        old(h).welcome_mode_active ==> {
            &&& p is None
            &&& *final(h) == *old(h)
            &&& *final(s) == (if persist {
                SettingsState { click_through_enabled: enabled, ..*old(s) }
            } else {
                *old(s)
            })
        },
        !old(h).welcome_mode_active && !overlay_exists ==> p is None && *final(h) == *old(h)
            && *final(s) == *old(s),
        !old(h).welcome_mode_active && overlay_exists ==> {
            &&& *final(s) == (SettingsState { click_through_enabled: enabled, ..*old(s) })
            &&& *final(h) == (HoverState { interaction_override_active: !enabled, ..*old(h) })
            &&& p matches Some(plan) && plan.cursor == Some(
                CursorPolicy { ignore_cursor_events: enabled, focusable: !enabled },
            ) && plan.force_show == !enabled && plan.show_width_control == !enabled && plan.save
                == (persist && old(s).click_through_enabled != enabled && mode == WindowMode::Normal)
                && plan.menu_label@ == (if enabled {
                "[x] Click-through"@
            } else {
                "[ ] Click-through"@
            })
        },
{
    if h.welcome_mode_active {
        if persist {
            s.click_through_enabled = enabled;
        }
        return None;
    }
    if !overlay_exists {
        return None;
    }
    let current = s.click_through_enabled;
    s.click_through_enabled = enabled;
    let force_show = crate::window::set_interaction_override(h, !enabled);
    let save = persist && current != enabled && mode == WindowMode::Normal;
    Some(
        ClickThroughPlan {
            cursor: Some(CursorPolicy { ignore_cursor_events: enabled, focusable: !enabled }),
            force_show,
            show_width_control: !enabled,
            save,
            menu_label: if enabled {
                "[x] Click-through"
            } else {
                "[ ] Click-through"
            },
        },
    )
}

/// The opposite of the current click-through setting, to set next.
pub fn toggle_click_through(s: &SettingsState) -> (enabled: bool)
    ensures
        enabled == !s.click_through_enabled,
{
    !s.click_through_enabled
}

} // verus!
