//! Persisted per-mode settings and the live values that the app reads.

use vstd::prelude::*;
use crate::mode::WindowMode;

verus! {

/// Settings persisted for one window mode.
#[derive(Clone, Copy, Debug, PartialEq, Eq, Structural)]
pub struct AppSettings {
    pub monitor_index: Option<usize>,
    pub click_through_enabled: bool,
    pub always_on_top_enabled: bool,
    pub disable_hover_hide: bool,
    pub word_bounce_disabled: bool,
    pub blur_enabled: bool,
    pub has_seen_welcome: bool,
    pub window_mode_x: Option<i32>,
    pub window_mode_y: Option<i32>,
    pub window_mode_width: Option<u32>,
    pub window_mode_height: Option<u32>,
}

/// The settings of a fresh install.
pub open spec fn default_settings() -> AppSettings {
    AppSettings {
        monitor_index: Some(0),
        click_through_enabled: true,
        always_on_top_enabled: true,
        disable_hover_hide: false,
        word_bounce_disabled: false,
        blur_enabled: true,
        has_seen_welcome: false,
        window_mode_x: None,
        window_mode_y: None,
        window_mode_width: None,
        window_mode_height: None,
    }
}

/// The settings of a fresh install for a mode: the mini window is not kept
/// on top.
pub open spec fn default_settings_for_mode(mode: WindowMode) -> AppSettings {
    if mode == WindowMode::Window {
        AppSettings { always_on_top_enabled: false, ..default_settings() }
    } else {
        default_settings()
    }
}

impl Default for AppSettings {
    fn default() -> (s: Self)
        ensures
            s == default_settings(),
    {
        AppSettings {
            monitor_index: Some(0),
            click_through_enabled: true,
            always_on_top_enabled: true,
            disable_hover_hide: false,
            word_bounce_disabled: false,
            blur_enabled: true,
            has_seen_welcome: false,
            window_mode_x: None,
            window_mode_y: None,
            window_mode_width: None,
            window_mode_height: None,
        }
    }
}

impl AppSettings {
    /// The default settings of a mode.
    pub fn default_for_mode(mode: WindowMode) -> (s: Self)
        ensures
            s == default_settings_for_mode(mode),
    {
        let mut settings = Self::default();
        if mode == WindowMode::Window {
            settings.always_on_top_enabled = false;
        }
        settings
    }
}

/// The live setting values that the app reads while it runs.
#[derive(Clone, Copy, Debug, PartialEq, Eq, Structural)]
pub struct SettingsState {
    pub selected_monitor_index: usize,
    pub word_bounce_disabled: bool,
    pub blur_enabled: bool,
    pub lyrics_paused: bool,
    pub normal_lyrics_paused: bool,
    pub window_lyrics_paused: bool,
    pub click_through_enabled: bool,
    pub always_on_top_enabled: bool,
    pub disable_hover_hide: bool,
    pub has_seen_welcome: bool,
}

impl SettingsState {
    /// The values at launch, before any settings are loaded.
    pub fn new() -> (s: Self)
        ensures
            s.selected_monitor_index == 0,
            !s.word_bounce_disabled,
            s.blur_enabled,
            !s.lyrics_paused,
            !s.normal_lyrics_paused,
            !s.window_lyrics_paused,
            s.click_through_enabled,
            s.always_on_top_enabled,
            !s.disable_hover_hide,
            !s.has_seen_welcome,
    {
        SettingsState {
            selected_monitor_index: 0,
            word_bounce_disabled: false,
            blur_enabled: true,
            lyrics_paused: false,
            normal_lyrics_paused: false,
            window_lyrics_paused: false,
            click_through_enabled: true,
            always_on_top_enabled: true,
            disable_hover_hide: false,
            has_seen_welcome: false,
        }
    }
}

/// Whether lyrics are paused in a mode.
pub open spec fn paused_in(s: SettingsState, mode: WindowMode) -> bool {
    match mode {
        WindowMode::Normal => s.normal_lyrics_paused,
        WindowMode::Window => s.window_lyrics_paused,
    }
}

/// Whether lyrics are paused in `mode`.
pub fn lyrics_paused_for_mode(s: &SettingsState, mode: WindowMode) -> (b: bool)
    ensures
        b == paused_in(*s, mode),
{
    match mode {
        WindowMode::Normal => s.normal_lyrics_paused,
        WindowMode::Window => s.window_lyrics_paused,
    }
}

/// Records whether lyrics are paused in `mode`; the other mode keeps its
/// value.
pub fn set_lyrics_paused_for_mode(s: &mut SettingsState, mode: WindowMode, paused: bool)
    ensures
        paused_in(*final(s), mode) == paused,
        *final(s) == (match mode {
            WindowMode::Normal => SettingsState { normal_lyrics_paused: paused, ..*old(s) },
            WindowMode::Window => SettingsState { window_lyrics_paused: paused, ..*old(s) },
        }),
{
    match mode {
        WindowMode::Normal => s.normal_lyrics_paused = paused,
        WindowMode::Window => s.window_lyrics_paused = paused,
    }
}

/// The settings that the live values amount to (no mini-window bounds).
pub open spec fn snapshot_spec(s: SettingsState) -> AppSettings {
    AppSettings {
        monitor_index: Some(s.selected_monitor_index),
        click_through_enabled: s.click_through_enabled,
        always_on_top_enabled: s.always_on_top_enabled,
        disable_hover_hide: s.disable_hover_hide,
        word_bounce_disabled: s.word_bounce_disabled,
        blur_enabled: s.blur_enabled,
        has_seen_welcome: s.has_seen_welcome,
        window_mode_x: None,
        window_mode_y: None,
        window_mode_width: None,
        window_mode_height: None,
    }
}

/// The live values after loading `settings` (a missing monitor reads as 0);
/// pause flags are not part of the settings.
pub open spec fn applied_spec(s: SettingsState, settings: AppSettings) -> SettingsState {
    SettingsState {
        click_through_enabled: settings.click_through_enabled,
        always_on_top_enabled: settings.always_on_top_enabled,
        disable_hover_hide: settings.disable_hover_hide,
        word_bounce_disabled: settings.word_bounce_disabled,
        blur_enabled: settings.blur_enabled,
        has_seen_welcome: settings.has_seen_welcome,
        selected_monitor_index: match settings.monitor_index {
            Some(i) => i,
            None => 0,
        },
        ..s
    }
}

/// The settings that the live values amount to.
pub fn snapshot_settings(s: &SettingsState) -> (r: AppSettings)
    ensures
        r == snapshot_spec(*s),
{
    AppSettings {
        monitor_index: Some(s.selected_monitor_index),
        click_through_enabled: s.click_through_enabled,
        always_on_top_enabled: s.always_on_top_enabled,
        disable_hover_hide: s.disable_hover_hide,
        word_bounce_disabled: s.word_bounce_disabled,
        blur_enabled: s.blur_enabled,
        has_seen_welcome: s.has_seen_welcome,
        window_mode_x: None,
        window_mode_y: None,
        window_mode_width: None,
        window_mode_height: None,
    }
}

/// Makes loaded settings the live values.
pub fn apply_loaded_settings(s: &mut SettingsState, settings: &AppSettings)
    ensures
        *final(s) == applied_spec(*old(s), *settings),
{
    s.click_through_enabled = settings.click_through_enabled;
    s.always_on_top_enabled = settings.always_on_top_enabled;
    s.disable_hover_hide = settings.disable_hover_hide;
    s.word_bounce_disabled = settings.word_bounce_disabled;
    s.blur_enabled = settings.blur_enabled;
    s.has_seen_welcome = settings.has_seen_welcome;
    s.selected_monitor_index = match settings.monitor_index {
        Some(i) => i,
        None => 0,
    };
}

/// The settings to write for `mode`: the live values, and in the mini window
/// the bounds that the file already holds.
pub fn settings_to_persist(s: &SettingsState, mode: WindowMode, existing: &AppSettings) -> (r: AppSettings)
    ensures
        r == (if mode == WindowMode::Window {
            AppSettings {
                window_mode_x: existing.window_mode_x,
                window_mode_y: existing.window_mode_y,
                window_mode_width: existing.window_mode_width,
                window_mode_height: existing.window_mode_height,
                ..snapshot_spec(*s)
            }
        } else {
            snapshot_spec(*s)
        }),
{
    let mut snapshot = snapshot_settings(s);
    if mode == WindowMode::Window {
        snapshot.window_mode_x = existing.window_mode_x;
        snapshot.window_mode_y = existing.window_mode_y;
        snapshot.window_mode_width = existing.window_mode_width;
        snapshot.window_mode_height = existing.window_mode_height;
    }
    snapshot
}

/// `settings` with new mini-window bounds.
pub fn with_window_mode_bounds(settings: &AppSettings, x: i32, y: i32, width: u32, height: u32) -> (r:
    AppSettings)
    ensures
        r == (AppSettings {
            window_mode_x: Some(x),
            window_mode_y: Some(y),
            window_mode_width: Some(width),
            window_mode_height: Some(height),
            ..*settings
        }),
{
    let mut r = *settings;
    r.window_mode_x = Some(x);
    r.window_mode_y = Some(y);
    r.window_mode_width = Some(width);
    r.window_mode_height = Some(height);
    r
}

/// The settings read from a mode's file, or that mode's defaults when the
/// file is missing or unreadable.
pub fn settings_or_default(parsed: Option<AppSettings>, mode: WindowMode) -> (r: AppSettings)
    ensures
        r == (match parsed {
            Some(p) => p,
            None => default_settings_for_mode(mode),
        }),
{
    match parsed {
        Some(p) => p,
        None => AppSettings::default_for_mode(mode),
    }
}

/// Loading settings and taking a snapshot gives back the settings, but for
/// the mini-window bounds (never part of a snapshot) and a missing monitor
/// (which reads as monitor 0).
pub proof fn lemma_apply_then_snapshot(s: SettingsState, settings: AppSettings)
    ensures
        snapshot_spec(applied_spec(s, settings)) == (AppSettings {
            monitor_index: Some(
                match settings.monitor_index {
                    Some(i) => i,
                    None => 0,
                },
            ),
            window_mode_x: None,
            window_mode_y: None,
            window_mode_width: None,
            window_mode_height: None,
            ..settings
        }),
{
}

/// Snapshotting the live values and loading the snapshot changes nothing.
pub proof fn lemma_snapshot_then_apply(s: SettingsState)
    ensures
        applied_spec(s, snapshot_spec(s)) == s,
{
}

/// Loading settings makes each of them live under its own name (a missing
/// monitor reads as monitor 0) and leaves the pause states alone; a snapshot
/// reports each live value under its own name.
pub proof fn lemma_settings_field_by_field(s: SettingsState, settings: AppSettings)
    ensures
        applied_spec(s, settings).click_through_enabled == settings.click_through_enabled,
        applied_spec(s, settings).always_on_top_enabled == settings.always_on_top_enabled,
        applied_spec(s, settings).disable_hover_hide == settings.disable_hover_hide,
        applied_spec(s, settings).word_bounce_disabled == settings.word_bounce_disabled,
        applied_spec(s, settings).blur_enabled == settings.blur_enabled,
        applied_spec(s, settings).has_seen_welcome == settings.has_seen_welcome,
        settings.monitor_index matches Some(i) ==> applied_spec(s, settings).selected_monitor_index == i,
        settings.monitor_index is None ==> applied_spec(s, settings).selected_monitor_index == 0,
        applied_spec(s, settings).lyrics_paused == s.lyrics_paused,
        applied_spec(s, settings).normal_lyrics_paused == s.normal_lyrics_paused,
        applied_spec(s, settings).window_lyrics_paused == s.window_lyrics_paused,
        snapshot_spec(s).monitor_index == Some(s.selected_monitor_index),
        snapshot_spec(s).click_through_enabled == s.click_through_enabled,
        snapshot_spec(s).always_on_top_enabled == s.always_on_top_enabled,
        snapshot_spec(s).disable_hover_hide == s.disable_hover_hide,
        snapshot_spec(s).word_bounce_disabled == s.word_bounce_disabled,
        snapshot_spec(s).blur_enabled == s.blur_enabled,
        snapshot_spec(s).has_seen_welcome == s.has_seen_welcome,
{
}

} // verus!
