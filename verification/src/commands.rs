//! Effects of the commands that the pages send.

use vstd::prelude::*;
use crate::mode::WindowMode;
use crate::settings::SettingsState;

verus! {

/// The mini window's always-on-top button: switches the setting in the mini
/// window only. Returns whether it switched (then save and re-apply).
pub fn toggle_window_mode_always_on_top(mode: WindowMode, s: &mut SettingsState) -> (switched: bool)
    ensures
        switched == (mode == WindowMode::Window),
        *final(s) == (if switched {
            SettingsState { always_on_top_enabled: !old(s).always_on_top_enabled, ..*old(s) }
        } else {
            *old(s)
        }),
{
    if mode != WindowMode::Window {
        return false;
    }
    s.always_on_top_enabled = !s.always_on_top_enabled;
    true
}

/// The page's blur switch.
pub fn set_blur_enabled(s: &mut SettingsState, enabled: bool)
    ensures
        *final(s) == (SettingsState { blur_enabled: enabled, ..*old(s) }),
{
    s.blur_enabled = enabled;
}

/// The mini window's controls (fullscreen, minimise, drag) act only in the
/// mini window and only when it exists.
pub fn window_mode_control_allowed(mode: WindowMode, has_active_window: bool) -> (b: bool)
    ensures
        b == (has_active_window && mode == WindowMode::Window),
{
    has_active_window && mode == WindowMode::Window
}

} // verus!
