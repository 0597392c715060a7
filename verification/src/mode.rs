//! The two window modes (overlay and mini window) and the current-mode cell.

use vstd::prelude::*;

verus! {

/// Label of the overlay window.
pub const NORMAL_WINDOW_LABEL: &'static str = "main";

/// Label of the mini window.
pub const WINDOW_MODE_LABEL: &'static str = "window_mode";

/// Label of the guide window.
pub const GUIDE_WINDOW_LABEL: &'static str = "guide";

/// How the lyrics are shown: the transparent overlay or a regular mini window.
#[derive(Clone, Copy, Debug, PartialEq, Eq, Structural)]
pub enum WindowMode {
    Normal,
    Window,
}

impl WindowMode {
    /// Label of the window that shows this mode.
    pub fn label(self) -> (r: &'static str)
        ensures
            r@ == (match self {
                WindowMode::Normal => "main"@,
                WindowMode::Window => "window_mode"@,
            }),
    {
        match self {
            WindowMode::Normal => NORMAL_WINDOW_LABEL,
            WindowMode::Window => WINDOW_MODE_LABEL,
        }
    }

    /// Name of the file that persists this mode's settings.
    pub fn settings_file_name(self) -> (r: &'static str)
        ensures
            r@ == (match self {
                WindowMode::Normal => "settings.normal.json"@,
                WindowMode::Window => "settings.window.json"@,
            }),
    {
        match self {
            WindowMode::Normal => "settings.normal.json",
            WindowMode::Window => "settings.window.json",
        }
    }
}

/// The stored mode, as the byte that encodes it (0 for the overlay, 1 for the
/// mini window; any other byte reads as the overlay).
pub struct ModeState {
    pub raw: u8,
}

/// The mode that a stored byte stands for.
pub open spec fn decode_mode(raw: u8) -> WindowMode {
    if raw == 1 {
        WindowMode::Window
    } else {
        WindowMode::Normal
    }
}

/// The byte that stores a mode.
pub open spec fn encode_mode(mode: WindowMode) -> u8 {
    match mode {
        WindowMode::Normal => 0,
        WindowMode::Window => 1,
    }
}

impl ModeState {
    /// A cell holding the overlay mode.
    pub fn new() -> (s: Self)
        ensures
            decode_mode(s.raw) == WindowMode::Normal,
    {
        ModeState { raw: 0 }
    }
}

/// The current window mode.
pub fn current_mode(state: &ModeState) -> (m: WindowMode)
    ensures
        m == decode_mode(state.raw),
{
    match state.raw {
        1 => WindowMode::Window,
        _ => WindowMode::Normal,
    }
}

/// Stores `mode` as the current window mode.
pub fn set_current_mode(state: &mut ModeState, mode: WindowMode)
    ensures
        final(state).raw == encode_mode(mode),
{
    let raw: u8 = match mode {
        WindowMode::Normal => 0,
        WindowMode::Window => 1,
    };
    state.raw = raw;
}

/// Reading the mode back after storing it gives the stored mode.
pub proof fn lemma_mode_roundtrip(mode: WindowMode)
    ensures
        decode_mode(encode_mode(mode)) == mode,
{
}

} // verus!
