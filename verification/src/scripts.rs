//! Page scripts that the app runs in its web views, and the snippets that
//! switch page features.

use vstd::prelude::*;
use vstd::string::StringExecFns;
use crate::mode::WindowMode;

verus! {

/// The scripts bundled with the app that set up the overlay page.
#[derive(Clone, Copy)]
pub struct Scripts {
    pub transparent_bg_script: &'static str,
    pub layout_hover_script: &'static str,
    pub close_window_script: &'static str,
}

/// `true` or `false` as JavaScript.
pub open spec fn js_bool(b: bool) -> Seq<char> {
    if b {
        "true"@
    } else {
        "false"@
    }
}

/// The snippet that switches the page's blur effects.
pub fn blur_script(enabled: bool) -> (r: String)
    ensures
        r@ == "if (window.setBlurEffectsEnabled) { window.setBlurEffectsEnabled("@ + js_bool(enabled)
            + "); }"@,
{
    let mut r = String::from_str("if (window.setBlurEffectsEnabled) { window.setBlurEffectsEnabled(");
    r.append(if enabled { "true" } else { "false" });
    r.append("); }");
    r
}

/// The snippet that brings the page's pause state to `paused`, toggling the
/// player only when its state differs.
pub fn lyrics_paused_script(paused: bool) -> (r: String)
    ensures
        r@ == "\n        (() => {\n            const desired = "@ + js_bool(paused) + ";\n            if (window.__floatingLyricsPaused === desired) {\n                return;\n            }\n            if (window.togglePause) {\n                try {\n                    window.togglePause();\n                    window.__floatingLyricsPaused = desired;\n                } catch (_) {}\n                return;\n            }\n            window.__floatingLyricsPaused = desired;\n        })();\n        "@,
{
    let mut r = String::from_str("\n        (() => {\n            const desired = ");
    r.append(if paused { "true" } else { "false" });
    r.append(";\n            if (window.__floatingLyricsPaused === desired) {\n                return;\n            }\n            if (window.togglePause) {\n                try {\n                    window.togglePause();\n                    window.__floatingLyricsPaused = desired;\n                } catch (_) {}\n                return;\n            }\n            window.__floatingLyricsPaused = desired;\n        })();\n        ");
    r
}

/// The snippet that switches the fancy word animations.
pub fn fancy_animation_script(disabled: bool) -> (r: &'static str)
    ensures
        r@ == (if disabled {
            "if (window.setFancyAnimationDisabled) { window.setFancyAnimationDisabled(true); }"@
        } else {
            "if (window.setFancyAnimationDisabled) { window.setFancyAnimationDisabled(false); }"@
        }),
{
    if disabled {
        "if (window.setFancyAnimationDisabled) { window.setFancyAnimationDisabled(true); }"
    } else {
        "if (window.setFancyAnimationDisabled) { window.setFancyAnimationDisabled(false); }"
    }
}

/// The one-time scripts of a freshly loaded page: the overlay's background,
/// hover-bounds and close-control scripts, or the mini window's chrome
/// script.
pub fn init_scripts(scripts: &Scripts, mode: WindowMode, window_mode_chrome_script: &'static str) -> (r: Vec<
    &'static str,
>)
    ensures
        mode == WindowMode::Normal ==> r@ == seq![
            scripts.transparent_bg_script,
            scripts.layout_hover_script,
            scripts.close_window_script,
        ],
        mode == WindowMode::Window ==> r@ == seq![window_mode_chrome_script],
{
    let mut r: Vec<&'static str> = Vec::new();
    match mode {
        WindowMode::Normal => {
            r.push(scripts.transparent_bg_script);
            r.push(scripts.layout_hover_script);
            r.push(scripts.close_window_script);
        },
        WindowMode::Window => {
            r.push(window_mode_chrome_script);
        },
    }
    r
}

/// How many rounds of scripts a page gets after a mode switch: eight after
/// navigating, two when the page stays.
pub fn injection_passes(navigated: bool) -> (n: u32)
    ensures
        n == (if navigated { 8u32 } else { 2u32 }),
{
    if navigated {
        8
    } else {
        2
    }
}

} // verus!
