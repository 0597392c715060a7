use floating_lyrics::menu::{
    build_menu_items, choose_local_ipv4, handle_menu_event, local_ipv4_menu_text, local_ipv4_url,
    normal_mode_only_controls_enabled, refresh_menu_labels, server_update_menu_plan,
    toggle_lyrics_pause, update_color_menu_labels, MenuAction, MenuEntryKind, ServerMenuPlan,
};
use floating_lyrics::mode::{current_mode, ModeState, WindowMode};
use floating_lyrics::network::{
    connectivity_step, endpoint_url, get_working_url, is_ok_response, probe_address,
    probe_request, ConnectivityAction, ConnectivityState,
};
use floating_lyrics::runtime::{
    begin_close_welcome, begin_startup, current_lyrics_url, current_runtime_endpoint,
    current_variant, current_welcome_url, embedded_exe_for_restart, finish_mode_switch,
    hotkey_guard_step, is_welcome_url, local_api_response, manages_local_server,
    mark_app_exiting, mark_startup_complete, mark_welcome_opening, mark_welcome_seen, needs_navigation,
    page_load_action, pause_normal_window_for_welcome, prepare_mode_switch, request_welcome,
    restore_after_welcome, restore_normal_pause, runtime_display_name,
    server_not_ready_message, stop_embedded_server_process, take_startup_welcome,
    variant_display_name, webview2_browser_arguments, welcome_close_blocked,
    window_mode_initial_size, AppFlags, HotkeyGuard, HttpMethod, PageLoadAction, RuntimeConfig,
    RuntimeSlots, Variant,
};
use floating_lyrics::scripts::{blur_script, fancy_animation_script, injection_passes, lyrics_paused_script};
use floating_lyrics::settings::{AppSettings, SettingsState};
use floating_lyrics::text::{parse_usize, split_whitespace, to_ascii_lowercase, trim};
use floating_lyrics::window::HoverState;

#[test]
fn variant_configs() {
    let s = RuntimeConfig::for_variant(Variant::Serverless);
    assert_eq!((s.primary_ip, s.fallback_ip, s.port, s.lyrics_path), ("192.168.99.47", Some("192.168.0.101"), 80, "/lyrics"));
    assert_eq!(s.embedded_exe, None);
    let st = RuntimeConfig::for_variant(Variant::Standalone);
    assert_eq!((st.primary_ip, st.port), ("127.0.0.1", 1312));
    assert_eq!(st.embedded_exe, Some("source/lyrics-smtc-x64.exe"));
    let y = RuntimeConfig::for_variant(Variant::Ytm);
    assert_eq!(y.embedded_exe, Some("source/lyrics-ytm-x64.exe"));
    assert_eq!(variant_display_name(Variant::Ytm), "Floating Lyrics YTM");
    assert_eq!(variant_display_name(Variant::Standalone), "Floating Lyrics");
}

#[test]
fn runtime_slots() {
    let mut slots = RuntimeSlots::new();
    assert_eq!(runtime_display_name(&slots), "Floating Lyrics");
    assert_eq!(current_variant(&slots), None);
    assert!(embedded_exe_for_restart(&slots).is_err());
    assert_eq!(current_welcome_url(&slots, true, true), "http://127.0.0.1:1312/welcome");
    let cfg = RuntimeConfig::for_variant(Variant::Ytm);
    slots.configure(Variant::Ytm, &cfg);
    assert_eq!(runtime_display_name(&slots), "Floating Lyrics YTM");
    assert_eq!(current_variant(&slots), Some(Variant::Ytm));
    assert_eq!(current_runtime_endpoint(&slots).unwrap().port, 1312);
    assert_eq!(embedded_exe_for_restart(&slots), Ok("source/lyrics-ytm-x64.exe"));
    assert_eq!(current_lyrics_url(&slots, true, false), Some("http://127.0.0.1:1312/lyrics".to_string()));
    assert_eq!(current_lyrics_url(&slots, false, true), None);
    let mut remote = RuntimeSlots::new();
    remote.configure(Variant::Serverless, &RuntimeConfig::for_variant(Variant::Serverless));
    assert_eq!(current_welcome_url(&remote, false, true), "http://192.168.0.101:80/welcome");
    assert_eq!(current_welcome_url(&remote, false, false), "http://127.0.0.1:1312/welcome");
    assert!(is_welcome_url(&current_welcome_url(&remote, true, false)));
}

#[test]
fn welcome_urls() {
    assert!(is_welcome_url("http://127.0.0.1:1312/welcome"));
    assert!(is_welcome_url("http://x/guide?step=2"));
    assert!(!is_welcome_url("http://127.0.0.1:1312/lyrics"));
    assert!(!is_welcome_url("/welcom"));
}

#[test]
fn endpoints_and_probes() {
    assert_eq!(endpoint_url("192.168.99.47", 80, "/lyrics"), "http://192.168.99.47:80/lyrics");
    assert_eq!(get_working_url("a", Some("b"), 1312, "/p", false, true), Some("http://b:1312/p".to_string()));
    assert_eq!(get_working_url("a", Some("b"), 1312, "/p", true, true), Some("http://a:1312/p".to_string()));
    assert_eq!(get_working_url("a", None, 1312, "/p", false, true), None);
    assert_eq!(probe_address("127.0.0.1", 1312), "127.0.0.1:1312");
    assert_eq!(probe_request("1.2.3.4", "/lyrics"), "GET /lyrics HTTP/1.0\r\nHost: 1.2.3.4\r\nConnection: close\r\n\r\n");
    assert!(is_ok_response("HTTP/1.1 200 OK\r\n"));
    assert!(is_ok_response("HTTP/1.0 200 OK"));
    assert!(is_ok_response("HTTP/2 200 OK"));
    assert!(!is_ok_response("HTTP/1.1 404 Not Found"));
    assert!(!is_ok_response(""));
}

#[test]
fn probe_needs_status_200_in_status_line() {
    assert!(!is_ok_response("HTTP/1.1 404 Not Found\r\n\r\nstatus 200 ok"));
    assert!(!is_ok_response("HTTP/1.1 500 Error 200 times"));
    assert!(!is_ok_response("garbage 200 here"));
    assert!(!is_ok_response("HTTP/1.1 2000 Odd"));
    assert!(!is_ok_response("HTTP/1.1"));
    assert!(is_ok_response("HTTP/1.1 200"));
    assert!(is_ok_response("HTTP/1.1 200\r\nContent-Length: 0\r\n\r\n"));
}

#[test]
fn connectivity_rounds() {
    let mut st = ConnectivityState::new(None);
    let url = || Some("http://a:1/l".to_string());
    assert_eq!(connectivity_step(&mut st, WindowMode::Normal, false, true, None), ConnectivityAction::Nothing);
    assert_eq!(connectivity_step(&mut st, WindowMode::Normal, false, true, url()), ConnectivityAction::NavigateAndShow);
    assert_eq!(connectivity_step(&mut st, WindowMode::Normal, false, true, url()), ConnectivityAction::Nothing);
    assert_eq!(connectivity_step(&mut st, WindowMode::Normal, true, true, None), ConnectivityAction::Skip);
    assert!(st.was_reachable);
    assert_eq!(connectivity_step(&mut st, WindowMode::Window, true, true, None), ConnectivityAction::Hide);
    assert!(!st.was_reachable);
    assert_eq!(connectivity_step(&mut st, WindowMode::Normal, false, false, url()), ConnectivityAction::Skip);
    assert_eq!(connectivity_step(&mut st, WindowMode::Normal, false, true, url()), ConnectivityAction::NavigateAndShow);
    let mut again = ConnectivityState::new(url());
    again.was_reachable = false;
    assert_eq!(connectivity_step(&mut again, WindowMode::Normal, false, true, url()), ConnectivityAction::Show);
}

#[test]
fn welcome_flags() {
    let mut f = AppFlags::new();
    assert!(!request_welcome(&mut f, Some(Variant::Standalone)));
    assert!(f.startup_show_requested);
    assert!(take_startup_welcome(&mut f, Some(Variant::Standalone), true));
    assert!(!f.startup_show_requested);
    assert!(!take_startup_welcome(&mut f, Some(Variant::Standalone), true));
    assert!(take_startup_welcome(&mut f, Some(Variant::Ytm), false));
    assert!(!take_startup_welcome(&mut f, Some(Variant::Serverless), false));
    mark_startup_complete(&mut f);
    assert!(f.startup_complete);
    assert!(request_welcome(&mut f, Some(Variant::Ytm)));
    assert!(!request_welcome(&mut f, Some(Variant::Serverless)));
    mark_welcome_opening(&mut f, true);
    assert!(welcome_close_blocked(&f));
    assert!(begin_close_welcome(&mut f));
    assert!(!welcome_close_blocked(&f));
    assert!(restore_after_welcome(&mut f));
    assert!(!f.welcome_window_active);
    assert!(!begin_close_welcome(&mut f));
    mark_welcome_opening(&mut f, false);
    mark_app_exiting(&mut f);
    assert!(!welcome_close_blocked(&f));
    assert!(manages_local_server(Some(Variant::Ytm)));
    assert!(!manages_local_server(None));
}

#[test]
fn page_loads() {
    let mut f = AppFlags::new();
    assert_eq!(page_load_action(&mut f, "main", "http://h/welcome", false), PageLoadAction::EnterWelcome);
    assert_eq!(
        page_load_action(&mut f, "main", "http://h/lyrics", true),
        PageLoadAction::ExitWelcome { coming_from_welcome: true }
    );
    f.welcome_show_pending = true;
    assert_eq!(page_load_action(&mut f, "guide", "http://h/welcome", false), PageLoadAction::GuideLoaded { show_now: true });
    assert_eq!(page_load_action(&mut f, "guide", "http://h/welcome", false), PageLoadAction::GuideLoaded { show_now: false });
    assert_eq!(page_load_action(&mut f, "window_mode", "http://h/lyrics", false), PageLoadAction::InjectWindowMode);
    assert_eq!(page_load_action(&mut f, "window_mode", "http://h/guide", false), PageLoadAction::Nothing);
    assert_eq!(page_load_action(&mut f, "other", "http://h/lyrics", false), PageLoadAction::Ignore);
    mark_app_exiting(&mut f);
    assert_eq!(page_load_action(&mut f, "main", "http://h/lyrics", false), PageLoadAction::Ignore);
}

#[test]
fn hotkey_guard_sequence() {
    let mut g = HotkeyGuard { hotkey_active: false, last_combo_down: false };
    let n = WindowMode::Normal;
    assert_eq!(hotkey_guard_step(&mut g, n, false, false, true, false), None);
    assert_eq!(hotkey_guard_step(&mut g, n, false, false, true, true), Some(false));
    assert_eq!(hotkey_guard_step(&mut g, n, false, false, true, true), None);
    assert_eq!(hotkey_guard_step(&mut g, n, false, false, true, false), Some(true));
    assert_eq!(hotkey_guard_step(&mut g, n, false, false, true, true), Some(false));
    assert_eq!(hotkey_guard_step(&mut g, n, true, false, true, true), Some(true));
    assert_eq!(hotkey_guard_step(&mut g, WindowMode::Window, false, false, true, true), None);
    assert_eq!(g, HotkeyGuard { hotkey_active: false, last_combo_down: false });
}

#[test]
fn webview2_arguments() {
    assert_eq!(
        webview2_browser_arguments(""),
        "--ignore-gpu-blocklist --enable-gpu-rasterization --enable-zero-copy"
    );
    assert_eq!(
        webview2_browser_arguments("  --disable-gpu --foo  --enable-zero-copy\t--in-process-gpu "),
        "--foo --enable-zero-copy --ignore-gpu-blocklist --enable-gpu-rasterization"
    );
    let once = webview2_browser_arguments("--x --disable-accelerated-2d-canvas");
    assert_eq!(webview2_browser_arguments(&once), once);
}

#[test]
fn local_api() {
    let o = local_api_response(HttpMethod::Options, "/anything");
    assert!(o.status == 204 && o.preflight && o.body.is_empty());
    let s = local_api_response(HttpMethod::Get, "/floating-lyrics/status");
    assert_eq!((s.status, s.body, s.json, s.exit_after), (200, "{\"running\":true}", true, false));
    let t = local_api_response(HttpMethod::Post, "/floating-lyrics/toggle");
    assert_eq!((t.status, t.body, t.json, t.exit_after), (200, "{\"ok\":true}", true, true));
    let n = local_api_response(HttpMethod::Get, "/floating-lyrics/toggle");
    assert_eq!((n.status, n.body), (404, "not found"));
    assert_eq!(local_api_response(HttpMethod::Other, "/").status, 404);
}

#[test]
fn mode_switch_keeps_pause_per_mode() {
    let mut m = ModeState::new();
    let mut s = SettingsState::new();
    s.lyrics_paused = true;
    assert_eq!(prepare_mode_switch(&m, &mut s, WindowMode::Normal), None);
    assert_eq!(prepare_mode_switch(&m, &mut s, WindowMode::Window), Some(WindowMode::Normal));
    assert!(s.normal_lyrics_paused);
    finish_mode_switch(&mut m, &mut s, WindowMode::Window, &AppSettings::default_for_mode(WindowMode::Window));
    assert_eq!(current_mode(&m), WindowMode::Window);
    assert!(!s.lyrics_paused);
    assert!(!s.always_on_top_enabled);
    prepare_mode_switch(&m, &mut s, WindowMode::Normal);
    finish_mode_switch(&mut m, &mut s, WindowMode::Normal, &AppSettings::default());
    assert!(s.lyrics_paused);
    assert!(needs_navigation(None, "u"));
    assert!(needs_navigation(Some("v"), "u"));
    assert!(!needs_navigation(Some("u"), "u"));
    assert_eq!(injection_passes(true), 8);
    assert_eq!(injection_passes(false), 2);
}

#[test]
fn startup_and_welcome_pause() {
    let mut m = ModeState::new();
    let mut s = SettingsState::new();
    s.normal_lyrics_paused = true;
    let mut loaded = AppSettings::default();
    loaded.click_through_enabled = false;
    let applied = begin_startup(&mut m, &mut s, &loaded);
    assert!(applied.click_through_enabled && s.click_through_enabled && s.lyrics_paused);
    let mut s2 = SettingsState::new();
    pause_normal_window_for_welcome(WindowMode::Normal, &mut s2);
    assert!(s2.lyrics_paused && s2.normal_lyrics_paused);
    restore_normal_pause(WindowMode::Normal, &mut s2, false);
    assert_eq!(s2, SettingsState::new());
    let saved = mark_welcome_seen(&mut s2, &AppSettings::default());
    assert!(saved.has_seen_welcome && s2.has_seen_welcome);
    let mut w = AppSettings::default();
    assert_eq!(window_mode_initial_size(&w), (360, 360));
    w.window_mode_width = Some(100);
    w.window_mode_height = Some(800);
    assert_eq!(window_mode_initial_size(&w), (256, 800));
    let mut slot = Some(5u32);
    assert_eq!(stop_embedded_server_process(&mut slot), Some(5));
    assert_eq!(slot, None);
    assert_eq!(
        server_not_ready_message(&RuntimeConfig::for_variant(Variant::Standalone), 30),
        "Embedded server did not become ready at 127.0.0.1:1312/lyrics within 30 seconds"
    );
}

#[test]
fn menu_entries() {
    let s = SettingsState::new();
    let items = build_menu_items(WindowMode::Normal, &s, 2, [192, 168, 1, 20]);
    assert_eq!(items.len(), 20);
    assert_eq!(items[0].id, "local_ipv4");
    assert_eq!(items[0].text, "192.168.1.20:1312");
    assert_eq!(items[1].kind, MenuEntryKind::Separator);
    assert_eq!(items[2].kind, MenuEntryKind::Check(false));
    assert_eq!(items[4].id, "monitor_0");
    assert_eq!(items[4].text, "Monitor 1");
    assert_eq!(items[4].kind, MenuEntryKind::Check(true));
    assert_eq!(items[5].id, "monitor_1");
    assert_eq!(items[5].kind, MenuEntryKind::Check(false));
    assert_eq!(items[7].id, "always_on_top");
    assert_eq!(items[10].text, "Fancy Animations");
    assert_eq!(items[10].kind, MenuEntryKind::Check(true));
    assert_eq!(items[19].id, "footer_credit");
    assert!(!items[19].enabled);
    assert_eq!(items[19].text, "Made with \u{2665} by Necra");
}

#[test]
fn menu_events() {
    let mut s = SettingsState::new();
    assert_eq!(handle_menu_event("quit", WindowMode::Normal, &mut s), MenuAction::Quit);
    assert_eq!(handle_menu_event("mini_window_mode", WindowMode::Normal, &mut s), MenuAction::SwitchMode(WindowMode::Window));
    assert_eq!(handle_menu_event("monitor_3", WindowMode::Normal, &mut s), MenuAction::MonitorSelected(3));
    assert_eq!(s.selected_monitor_index, 3);
    assert_eq!(handle_menu_event("monitor_+2", WindowMode::Normal, &mut s), MenuAction::MonitorSelected(2));
    assert_eq!(handle_menu_event("monitor_x", WindowMode::Normal, &mut s), MenuAction::Ignore);
    assert_eq!(handle_menu_event("monitor_1", WindowMode::Window, &mut s), MenuAction::Ignore);
    assert_eq!(s.selected_monitor_index, 2);
    assert_eq!(handle_menu_event("pause_lyrics", WindowMode::Window, &mut s), MenuAction::RefreshLabels);
    assert_eq!(handle_menu_event("pause_lyrics", WindowMode::Normal, &mut s), MenuAction::LyricsPauseToggled(true));
    assert!(s.lyrics_paused && s.normal_lyrics_paused);
    assert_eq!(handle_menu_event("always_on_top", WindowMode::Normal, &mut s), MenuAction::AlwaysOnTopToggled);
    assert!(!s.always_on_top_enabled);
    assert_eq!(handle_menu_event("disable_hover_hide", WindowMode::Normal, &mut s), MenuAction::HoverHideToggled(true));
    assert_eq!(handle_menu_event("disable_animation", WindowMode::Window, &mut s), MenuAction::FancyAnimationToggled(true));
    assert_eq!(handle_menu_event("blur_enabled", WindowMode::Window, &mut s), MenuAction::BlurToggled(false));
    assert_eq!(handle_menu_event("actions_label", WindowMode::Normal, &mut s), MenuAction::Ignore);
    assert_eq!(handle_menu_event("server_update_action", WindowMode::Normal, &mut s), MenuAction::ServerUpdate);
    assert_eq!(handle_menu_event("unknown", WindowMode::Normal, &mut s), MenuAction::Ignore);
    assert_eq!(toggle_lyrics_pause(WindowMode::Window, &mut s), None);
    assert_eq!(toggle_lyrics_pause(WindowMode::Normal, &mut s), Some(false));
}

#[test]
fn menu_labels() {
    let mut s = SettingsState::new();
    let mut h = HoverState::new();
    h.hover_hide_auto_disabled = true;
    assert_eq!(refresh_menu_labels(WindowMode::Normal, &s, &h), Some((true, "Disable hide on hover (Auto)")));
    assert_eq!(refresh_menu_labels(WindowMode::Window, &s, &h), None);
    s.lyrics_paused = true;
    let mut normal = AppSettings::default();
    normal.disable_hover_hide = true;
    normal.always_on_top_enabled = false;
    let l = update_color_menu_labels(WindowMode::Window, &s, &h, &normal, 1, [127, 0, 0, 1]);
    assert!(l.mini_window_checked && !l.pause_enabled && !l.pause_checked);
    assert!(!l.always_on_top_checked && l.hover_hide_checked);
    assert_eq!(l.hover_hide_text, "Disable hide on hover");
    assert_eq!(l.local_ipv4_text, "127.0.0.1:1312");
    assert_eq!(l.monitors.len(), 1);
    let n = update_color_menu_labels(WindowMode::Normal, &s, &h, &normal, 0, [10, 0, 0, 2]);
    assert!(n.pause_checked && n.pause_enabled && n.always_on_top_checked);
    assert_eq!(n.hover_hide_text, "Disable hide on hover (Auto)");
    assert!(normal_mode_only_controls_enabled(WindowMode::Normal));
}

#[test]
fn local_address() {
    assert_eq!(choose_local_ipv4(Some([192, 168, 0, 7])), [192, 168, 0, 7]);
    assert_eq!(choose_local_ipv4(Some([127, 0, 1, 1])), [127, 0, 0, 1]);
    assert_eq!(choose_local_ipv4(None), [127, 0, 0, 1]);
    assert_eq!(local_ipv4_url([10, 0, 0, 255]), "http://10.0.0.255:1312");
    assert_eq!(local_ipv4_menu_text([0, 0, 0, 0]), "0.0.0.0:1312");
}

#[test]
fn server_menu_plans() {
    match server_update_menu_plan(Some(("Server v1".to_string(), false)), false, true) {
        ServerMenuPlan::Show { text, enabled, insert_item, insert_separator } => {
            assert_eq!(text, "Server v1");
            assert!(!enabled && insert_item && !insert_separator);
        }
        _ => panic!("expected a shown entry"),
    }
    match server_update_menu_plan(None, true, true) {
        ServerMenuPlan::Remove { remove_item } => assert!(remove_item),
        _ => panic!("expected removal"),
    }
}

#[test]
fn text_helpers() {
    assert_eq!(trim("\t a b \u{2003}"), "a b");
    assert_eq!(to_ascii_lowercase("AbC-Ä"), "abc-Ä");
    assert_eq!(parse_usize("0"), Some(0));
    assert_eq!(parse_usize("+17"), Some(17));
    assert_eq!(parse_usize(""), None);
    assert_eq!(parse_usize("+"), None);
    assert_eq!(parse_usize("-1"), None);
    assert_eq!(parse_usize("18446744073709551615"), Some(usize::MAX));
    assert_eq!(parse_usize("18446744073709551616"), None);
    assert_eq!(split_whitespace("  a  bc\nd "), vec!["a".to_string(), "bc".to_string(), "d".to_string()]);
    assert!(split_whitespace(" \t ").is_empty());
}

#[test]
fn page_snippets() {
    assert_eq!(blur_script(true), "if (window.setBlurEffectsEnabled) { window.setBlurEffectsEnabled(true); }");
    assert_eq!(blur_script(false), "if (window.setBlurEffectsEnabled) { window.setBlurEffectsEnabled(false); }");
    assert!(lyrics_paused_script(true).contains("const desired = true;"));
    assert!(lyrics_paused_script(false).contains("const desired = false;"));
    assert_eq!(
        fancy_animation_script(false),
        "if (window.setFancyAnimationDisabled) { window.setFancyAnimationDisabled(false); }"
    );
}
