use floating_lyrics::click_through::{click_through_change, toggle_click_through};
use floating_lyrics::commands::{set_blur_enabled, toggle_window_mode_always_on_top, window_mode_control_allowed};
use floating_lyrics::lock::{acquire_app_lock, release_app_lock, AppLockState, LockAttempt};
use floating_lyrics::mode::{current_mode, set_current_mode, ModeState, WindowMode};
use floating_lyrics::settings::{
    apply_loaded_settings, lyrics_paused_for_mode, set_lyrics_paused_for_mode, settings_or_default,
    settings_to_persist, snapshot_settings, with_window_mode_bounds, AppSettings, SettingsState,
};
use floating_lyrics::window::{
    always_on_top_decision, apply_monitor_layout, choose_overlay_monitor, choose_welcome_monitor,
    enter_welcome_mode, exit_welcome_mode, fade_alpha, hover_controller_step,
    is_hover_hide_auto_disabled, is_hover_hide_effectively_disabled, monitor_center, monitor_key,
    record_layout_bounds, set_hover_hide_auto_disabled, taskbar_height, window_settings_plan,
    HoverAction, HoverState, HoverTick, LayoutBounds, MonitorGeometry,
};

#[test]
fn window_mode_labels_and_files() {
    assert_eq!(WindowMode::Normal.label(), "main");
    assert_eq!(WindowMode::Window.label(), "window_mode");
    assert_eq!(WindowMode::Normal.settings_file_name(), "settings.normal.json");
    assert_eq!(WindowMode::Window.settings_file_name(), "settings.window.json");
}

#[test]
fn mode_cell_round_trip() {
    let mut m = ModeState::new();
    assert_eq!(current_mode(&m), WindowMode::Normal);
    set_current_mode(&mut m, WindowMode::Window);
    assert_eq!(current_mode(&m), WindowMode::Window);
    set_current_mode(&mut m, WindowMode::Normal);
    assert_eq!(current_mode(&m), WindowMode::Normal);
    m.raw = 7;
    assert_eq!(current_mode(&m), WindowMode::Normal);
}

#[test]
fn default_settings_per_mode() {
    let d = AppSettings::default();
    assert_eq!(d.monitor_index, Some(0));
    assert!(d.click_through_enabled && d.always_on_top_enabled && d.blur_enabled);
    assert!(!d.disable_hover_hide && !d.word_bounce_disabled && !d.has_seen_welcome);
    assert_eq!(d.window_mode_x, None);
    let w = AppSettings::default_for_mode(WindowMode::Window);
    assert!(!w.always_on_top_enabled);
    assert_eq!(AppSettings::default_for_mode(WindowMode::Normal), d);
    assert_eq!(settings_or_default(None, WindowMode::Window), w);
    let mut custom = d;
    custom.blur_enabled = false;
    assert_eq!(settings_or_default(Some(custom), WindowMode::Window), custom);
}

#[test]
fn pause_state_per_mode() {
    let mut s = SettingsState::new();
    set_lyrics_paused_for_mode(&mut s, WindowMode::Window, true);
    assert!(lyrics_paused_for_mode(&s, WindowMode::Window));
    assert!(!lyrics_paused_for_mode(&s, WindowMode::Normal));
    set_lyrics_paused_for_mode(&mut s, WindowMode::Normal, true);
    set_lyrics_paused_for_mode(&mut s, WindowMode::Window, false);
    assert!(lyrics_paused_for_mode(&s, WindowMode::Normal));
    assert!(!lyrics_paused_for_mode(&s, WindowMode::Window));
}

#[test]
fn apply_then_snapshot() {
    let mut s = SettingsState::new();
    let mut loaded = AppSettings::default();
    loaded.monitor_index = None;
    loaded.blur_enabled = false;
    loaded.disable_hover_hide = true;
    loaded.window_mode_x = Some(5);
    apply_loaded_settings(&mut s, &loaded);
    let snap = snapshot_settings(&s);
    assert_eq!(snap.monitor_index, Some(0));
    assert!(!snap.blur_enabled);
    assert!(snap.disable_hover_hide);
    assert_eq!(snap.window_mode_x, None);
    loaded.monitor_index = Some(2);
    apply_loaded_settings(&mut s, &loaded);
    assert_eq!(snapshot_settings(&s).monitor_index, Some(2));
}

#[test]
fn persisted_settings_keep_window_bounds() {
    let s = SettingsState::new();
    let existing = with_window_mode_bounds(&AppSettings::default(), -10, 20, 400, 300);
    let normal = settings_to_persist(&s, WindowMode::Normal, &existing);
    assert_eq!(normal.window_mode_x, None);
    let window = settings_to_persist(&s, WindowMode::Window, &existing);
    assert_eq!(window.window_mode_x, Some(-10));
    assert_eq!(window.window_mode_y, Some(20));
    assert_eq!(window.window_mode_width, Some(400));
    assert_eq!(window.window_mode_height, Some(300));
}

#[test]
fn single_instance_lock() {
    let mut l = AppLockState::new();
    assert!(!acquire_app_lock(&mut l, LockAttempt::AlreadyHeld));
    assert!(!acquire_app_lock(&mut l, LockAttempt::Failed));
    assert_eq!(l.handle, None);
    assert!(acquire_app_lock(&mut l, LockAttempt::Acquired(42)));
    assert_eq!(release_app_lock(&mut l), Some(42));
    assert_eq!(release_app_lock(&mut l), None);
}

#[test]
fn hover_hide_switches() {
    let mut s = SettingsState::new();
    let mut h = HoverState::new();
    assert!(!is_hover_hide_effectively_disabled(&s, &h));
    assert!(set_hover_hide_auto_disabled(&mut h, true));
    assert!(!set_hover_hide_auto_disabled(&mut h, true));
    assert!(is_hover_hide_auto_disabled(&h));
    assert!(is_hover_hide_effectively_disabled(&s, &h));
    set_hover_hide_auto_disabled(&mut h, false);
    s.disable_hover_hide = true;
    assert!(is_hover_hide_effectively_disabled(&s, &h));
    let b = LayoutBounds { left: 1, top: 2, width: 3, height: 4 };
    assert!(record_layout_bounds(&mut h, Some(b), true));
    assert!(h.layout_exists && h.layout_width == 3);
    assert!(record_layout_bounds(&mut h, None, true));
    assert!(!h.layout_exists && !h.hover_hide_auto_disabled);
}

fn tick(inside: bool, now: u64) -> HoverTick {
    HoverTick {
        mode: WindowMode::Normal,
        window_visible: true,
        lyrics_paused: false,
        click_through_enabled: true,
        hover_hide_disabled: false,
        cursor_inside_layout: inside,
        now_ms: now,
    }
}

#[test]
fn hover_hides_and_shows_after_delay() {
    let mut h = HoverState::new();
    let mut pending = None;
    assert_eq!(hover_controller_step(&mut h, &mut pending, tick(true, 0)), HoverAction::FadeHide);
    assert!(h.window_hidden_by_hover);
    assert_eq!(hover_controller_step(&mut h, &mut pending, tick(true, 90)), HoverAction::Nothing);
    assert_eq!(hover_controller_step(&mut h, &mut pending, tick(false, 180)), HoverAction::Nothing);
    assert_eq!(pending, Some(680));
    assert_eq!(hover_controller_step(&mut h, &mut pending, tick(false, 600)), HoverAction::Nothing);
    assert_eq!(hover_controller_step(&mut h, &mut pending, tick(false, 690)), HoverAction::FadeShow);
    assert!(!h.window_hidden_by_hover);
    assert_eq!(pending, None);
}

#[test]
fn hover_suspended_cases() {
    let mut h = HoverState::new();
    let mut pending = None;
    hover_controller_step(&mut h, &mut pending, tick(true, 0));
    let mut t = tick(true, 10);
    t.click_through_enabled = false;
    assert_eq!(hover_controller_step(&mut h, &mut pending, t), HoverAction::FadeShow);
    hover_controller_step(&mut h, &mut pending, tick(true, 20));
    enter_welcome_mode(&mut h);
    assert_eq!(hover_controller_step(&mut h, &mut pending, tick(true, 30)), HoverAction::Nothing);
    let p = exit_welcome_mode(&mut h, true);
    assert!(p.ignore_cursor_events && !p.focusable);
    let mut w = tick(true, 40);
    w.mode = WindowMode::Window;
    assert_eq!(hover_controller_step(&mut h, &mut pending, w), HoverAction::Nothing);
    let mut paused = tick(true, 50);
    paused.lyrics_paused = true;
    assert_eq!(hover_controller_step(&mut h, &mut pending, paused), HoverAction::Nothing);
    assert!(!h.window_hidden_by_hover);
}

#[test]
fn topmost_choice() {
    let d = always_on_top_decision(true, false, Some(true), Some(false));
    assert!(d.want_topmost && d.set_needed);
    let d = always_on_top_decision(true, true, Some(true), Some(false));
    assert!(!d.want_topmost && !d.set_needed);
    let d = always_on_top_decision(true, false, None, None);
    assert!(d.want_topmost && d.set_needed);
    let d = always_on_top_decision(true, false, Some(false), Some(true));
    assert!(!d.want_topmost && d.set_needed);
}

#[test]
fn monitor_geometry() {
    let mut h = HoverState::new();
    assert_eq!(apply_monitor_layout(&mut h, -1920, 0, 40), (-1920, -40));
    assert_eq!((h.window_x, h.window_y), (-1920, -40));
    assert_eq!(taskbar_height(0, 1080, 0, 1040), 40);
    assert_eq!(taskbar_height(0, 1080, 48, 1080), 48);
    assert_eq!(taskbar_height(0, 1080, 0, 1080), 0);
    assert_eq!(monitor_center(0, 0, 1920, 1080), (960, 540));
    assert_eq!(monitor_center(i32::MAX, 0, 10, 0), (i32::MAX, 0));
    let m = MonitorGeometry { x: -1920, y: 0, width: 1920, height: 1080 };
    assert_eq!(monitor_key(m), "-1920:0:1920x1080");
    let monitors = vec![MonitorGeometry { x: 0, y: 0, width: 100, height: 100 }, m];
    assert_eq!(choose_overlay_monitor(1, &monitors, None), Some(m));
    assert_eq!(
        choose_overlay_monitor(5, &monitors, Some(m)),
        Some(MonitorGeometry { x: 0, y: 0, width: 1920, height: 1080 })
    );
    assert_eq!(choose_welcome_monitor(5, &monitors, Some(m)), Some(m));
    assert_eq!(choose_overlay_monitor(5, &monitors, None), None);
}

#[test]
fn fade_steps() {
    assert_eq!(fade_alpha(0, 8), 0);
    assert_eq!(fade_alpha(8, 8), 255);
    assert_eq!(fade_alpha(1, 8), 32);
    assert_eq!(fade_alpha(6, 12), 128);
    assert_eq!(fade_alpha(1, 12), 21);
    for steps in [8u32, 12] {
        for step in 0..=steps {
            let expected = ((step as f64 / steps as f64) * 255.0).round() as u8;
            assert_eq!(fade_alpha(step, steps), expected);
        }
    }
}

#[test]
fn window_settings() {
    let mut s = AppSettings::default();
    s.click_through_enabled = false;
    let p = window_settings_plan(WindowMode::Normal, false, &s);
    let c = p.cursor.unwrap();
    assert!(!c.ignore_cursor_events && c.focusable);
    assert!(p.eval_overlay_scripts && p.reposition && p.blur_enabled);
    assert!(window_settings_plan(WindowMode::Normal, true, &s).cursor.is_none());
    let w = window_settings_plan(WindowMode::Window, false, &s);
    assert!(!w.reposition && !w.eval_overlay_scripts && w.cursor.unwrap().focusable);
}

#[test]
fn click_through_changes() {
    let mut s = SettingsState::new();
    let mut h = HoverState::new();
    let p = click_through_change(&mut s, &mut h, false, true, WindowMode::Normal, true).unwrap();
    assert!(p.save && p.force_show && p.show_width_control);
    assert_eq!(p.menu_label, "[ ] Click-through");
    assert!(!s.click_through_enabled && h.interaction_override_active);
    assert!(toggle_click_through(&s));
    let p = click_through_change(&mut s, &mut h, true, false, WindowMode::Normal, true).unwrap();
    assert!(!p.save && !p.force_show);
    assert_eq!(p.menu_label, "[x] Click-through");
    enter_welcome_mode(&mut h);
    assert!(click_through_change(&mut s, &mut h, false, true, WindowMode::Normal, true).is_none());
    assert!(!s.click_through_enabled);
    exit_welcome_mode(&mut h, false);
    assert!(click_through_change(&mut s, &mut h, true, true, WindowMode::Normal, false).is_none());
    assert!(!s.click_through_enabled);
}

#[test]
fn page_commands() {
    let mut s = SettingsState::new();
    assert!(!toggle_window_mode_always_on_top(WindowMode::Normal, &mut s));
    assert!(s.always_on_top_enabled);
    assert!(toggle_window_mode_always_on_top(WindowMode::Window, &mut s));
    assert!(!s.always_on_top_enabled);
    set_blur_enabled(&mut s, false);
    assert!(!s.blur_enabled);
    assert!(window_mode_control_allowed(WindowMode::Window, true));
    assert!(!window_mode_control_allowed(WindowMode::Normal, true));
    assert!(!window_mode_control_allowed(WindowMode::Window, false));
}
