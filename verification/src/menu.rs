//! The tray menu: its entries, their labels, and what a click on one does.

use vstd::prelude::*;
use vstd::string::StringExecFns;
use crate::mode::WindowMode;
use crate::settings::{AppSettings, SettingsState};
use crate::text::{decimal, parse_usize, parse_usize_spec, push_decimal, str_equal, strip_prefix};
use crate::update::opt_string_view;
use crate::window::{hover_hide_disabled_spec, HoverState};

verus! {

/// Kind of a tray menu entry.
#[derive(Clone, Copy, Debug, PartialEq, Eq, Structural)]
pub enum MenuEntryKind {
    /// A plain entry.
    Item,
    /// An entry with a check mark, checked or not.
    Check(bool),
    /// A separator line.
    Separator,
}

/// A tray menu entry to create.
#[derive(Debug)]
pub struct MenuItemSpec {
    pub id: String,
    pub text: String,
    pub enabled: bool,
    pub kind: MenuEntryKind,
}

/// A menu entry by the characters of its id and text.
pub struct MenuEntryView {
    pub id: Seq<char>,
    pub text: Seq<char>,
    pub enabled: bool,
    pub kind: MenuEntryKind,
}

impl View for MenuItemSpec {
    type V = MenuEntryView;

    open spec fn view(&self) -> MenuEntryView {
        MenuEntryView { id: self.id@, text: self.text@, enabled: self.enabled, kind: self.kind }
    }
}

/// Entries by their views.
pub open spec fn entries_view(v: Seq<MenuItemSpec>) -> Seq<MenuEntryView> {
    v.map_values(|m: MenuItemSpec| m@)
}

/// An enabled entry.
pub open spec fn entry(id: Seq<char>, text: Seq<char>, kind: MenuEntryKind) -> MenuEntryView {
    MenuEntryView { id, text, enabled: true, kind }
}

/// A separator line.
pub open spec fn separator() -> MenuEntryView {
    MenuEntryView { id: Seq::empty(), text: Seq::empty(), enabled: true, kind: MenuEntryKind::Separator }
}

/// The entry that selects monitor `i` (shown to the user counting from 1).
pub open spec fn monitor_entry(i: nat, selected: nat) -> MenuEntryView {
    entry("monitor_"@ + decimal(i), "Monitor "@ + decimal(i + 1), MenuEntryKind::Check(i == selected))
}

/// The entries of the first `n` monitors.
pub open spec fn monitor_entries(n: nat, selected: nat) -> Seq<MenuEntryView>
    decreases n,
{
    if n == 0 {
        Seq::empty()
    } else {
        monitor_entries((n - 1) as nat, selected).push(monitor_entry((n - 1) as nat, selected))
    }
}

/// `a.b.c.d`.
pub open spec fn ipv4_text_spec(ip: [u8; 4]) -> Seq<char> {
    decimal(ip[0] as nat) + "."@ + decimal(ip[1] as nat) + "."@ + decimal(ip[2] as nat) + "."@
        + decimal(ip[3] as nat)
}

/// The address of this machine to show: the detected IPv4 address unless it
/// is missing or a loopback address, else 127.0.0.1.
pub fn choose_local_ipv4(detected: Option<[u8; 4]>) -> (ip: [u8; 4])
    ensures
        ip == (match detected {
            Some(d) => if d[0] != 127 {
                d
            } else {
                [127u8, 0u8, 0u8, 1u8]
            },
            None => [127u8, 0u8, 0u8, 1u8],
        }),
{
    match detected {
        Some(d) => if d[0] != 127 {
            d
        } else {
            [127, 0, 0, 1]
        },
        None => [127, 0, 0, 1],
    }
}

/// Appends `a.b.c.d`.
fn push_ipv4(s: &mut String, ip: [u8; 4])
    ensures
        final(s)@ == old(s)@ + ipv4_text_spec(ip),
{
    push_decimal(s, ip[0] as u64);
    s.append(".");
    push_decimal(s, ip[1] as u64);
    s.append(".");
    push_decimal(s, ip[2] as u64);
    s.append(".");
    push_decimal(s, ip[3] as u64);
    assert(final(s)@ =~= old(s)@ + ipv4_text_spec(ip));
}

/// The address of the local server's page on this machine.
pub fn local_ipv4_url(ip: [u8; 4]) -> (r: String)
    ensures
        r@ == "http://"@ + ipv4_text_spec(ip) + ":1312"@,
{
    let mut r = String::from_str("http://");
    push_ipv4(&mut r, ip);
    r.append(":1312");
    r
}

/// The text of the menu entry with this machine's address.
pub fn local_ipv4_menu_text(ip: [u8; 4]) -> (r: String)
    ensures
        r@ == ipv4_text_spec(ip) + ":1312"@,
{
    let mut r = String::new();
    push_ipv4(&mut r, ip);
    r.append(":1312");
    assert(r@ =~= ipv4_text_spec(ip) + ":1312"@);
    r
}

/// Controls that only apply to the overlay are enabled in overlay mode.
pub fn normal_mode_only_controls_enabled(mode: WindowMode) -> (b: bool)
    ensures
        b == (mode == WindowMode::Normal),
{
    mode == WindowMode::Normal
}

/// A new entry.
fn make_entry(id: &str, text: &str, enabled: bool, kind: MenuEntryKind) -> (m: MenuItemSpec)
    ensures
        m@ == (MenuEntryView { id: id@, text: text@, enabled, kind }),
{
    MenuItemSpec { id: String::from_str(id), text: String::from_str(text), enabled, kind }
}

/// A new separator.
fn make_separator() -> (m: MenuItemSpec)
    ensures
        m@ == separator(),
{
    MenuItemSpec {
        id: String::new(),
        text: String::new(),
        enabled: true,
        kind: MenuEntryKind::Separator,
    }
}

/// Entry of monitor `i`.
fn make_monitor_entry(i: usize, selected: usize) -> (m: MenuItemSpec)
    requires
        i < usize::MAX,
    ensures
        m@ == monitor_entry(i as nat, selected as nat),
{
    let mut id = String::from_str("monitor_");
    push_decimal(&mut id, i as u64);
    let mut text = String::from_str("Monitor ");
    push_decimal(&mut text, (i + 1) as u64);
    MenuItemSpec { id, text, enabled: true, kind: MenuEntryKind::Check(i == selected) }
}

/// Entries of the first `count` monitors, the selected one checked.
pub fn monitor_items(count: usize, selected: usize) -> (v: Vec<MenuItemSpec>)
    ensures
        entries_view(v@) == monitor_entries(count as nat, selected as nat),
{
    let mut v: Vec<MenuItemSpec> = Vec::new();
    let mut i: usize = 0;
    while i < count
        invariant
            i <= count,
            entries_view(v@) == monitor_entries(i as nat, selected as nat),
        decreases count - i,
    {
        let m = make_monitor_entry(i, selected);
        let ghost before = v@;
        v.push(m);
        assert(entries_view(v@) =~= entries_view(before).push(m@));
        i = i + 1;
    }
    v
}

/// The entries of the tray menu, top to bottom.
pub open spec fn menu_entries_spec(
    mode: WindowMode,
    s: SettingsState,
    monitor_count: nat,
    ip: [u8; 4],
) -> Seq<MenuEntryView> {
    seq![
        entry("local_ipv4"@, ipv4_text_spec(ip) + ":1312"@, MenuEntryKind::Item),
        separator(),
        entry("mini_window_mode"@, "Mini-window mode"@, MenuEntryKind::Check(mode == WindowMode::Window)),
        separator(),
    ] + monitor_entries(monitor_count, s.selected_monitor_index as nat) + seq![
        separator(),
        entry("always_on_top"@, "Always On Top"@, MenuEntryKind::Check(s.always_on_top_enabled)),
        entry(
            "disable_hover_hide"@,
            "Disable hide on hover"@,
            MenuEntryKind::Check(s.disable_hover_hide),
        ),
        separator(),
        entry("disable_animation"@, "Fancy Animations"@, MenuEntryKind::Check(!s.word_bounce_disabled)),
        entry("blur_enabled"@, "Blur"@, MenuEntryKind::Check(s.blur_enabled)),
        separator(),
        entry("pause_lyrics"@, "Pause Lyrics"@, MenuEntryKind::Check(s.lyrics_paused)),
        entry("open_guide"@, "Open Guide"@, MenuEntryKind::Item),
        entry("restart"@, "Restart App"@, MenuEntryKind::Item),
        separator(),
        entry("quit"@, "Quit"@, MenuEntryKind::Item),
        separator(),
        MenuEntryView {
            id: "footer_credit"@,
            text: "Made with \u{2665} by Necra"@,
            enabled: false,
            kind: MenuEntryKind::Item,
        },
    ]
}

/// Appends an entry, keeping track of the views.
fn push_entry(v: &mut Vec<MenuItemSpec>, m: MenuItemSpec)
    ensures
        entries_view(final(v)@) == entries_view(old(v)@).push(m@),
{
    v.push(m);
    assert(entries_view(final(v)@) =~= entries_view(old(v)@).push(m@));
}

/// The entries of the tray menu for the current mode and settings, with one
/// entry per monitor.
pub fn build_menu_items(mode: WindowMode, s: &SettingsState, monitor_count: usize, ip: [u8; 4]) -> (v: Vec<
    MenuItemSpec,
>)
    ensures
        entries_view(v@) == menu_entries_spec(mode, *s, monitor_count as nat, ip),
{
    let mut v: Vec<MenuItemSpec> = Vec::new();
    let ip_text = local_ipv4_menu_text(ip);
    push_entry(
        &mut v,
        MenuItemSpec {
            id: String::from_str("local_ipv4"),
            text: ip_text,
            enabled: true,
            kind: MenuEntryKind::Item,
        },
    );
    push_entry(&mut v, make_separator());
    push_entry(
        &mut v,
        make_entry(
            "mini_window_mode",
            "Mini-window mode",
            true,
            MenuEntryKind::Check(mode == WindowMode::Window),
        ),
    );
    push_entry(&mut v, make_separator());
    let ghost head = entries_view(v@);
    let mut monitors = monitor_items(monitor_count, s.selected_monitor_index);
    v.append(&mut monitors);
    assert(entries_view(v@) =~= head + monitor_entries(
        monitor_count as nat,
        s.selected_monitor_index as nat,
    ));
    let ghost mid = entries_view(v@);
    push_entry(&mut v, make_separator());
    push_entry(
        &mut v,
        make_entry(
            "always_on_top",
            "Always On Top",
            true,
            MenuEntryKind::Check(s.always_on_top_enabled),
        ),
    );
    push_entry(
        &mut v,
        make_entry(
            "disable_hover_hide",
            "Disable hide on hover",
            true,
            MenuEntryKind::Check(s.disable_hover_hide),
        ),
    );
    push_entry(&mut v, make_separator());
    push_entry(
        &mut v,
        make_entry(
            "disable_animation",
            "Fancy Animations",
            true,
            MenuEntryKind::Check(!s.word_bounce_disabled),
        ),
    );
    push_entry(&mut v, make_entry("blur_enabled", "Blur", true, MenuEntryKind::Check(s.blur_enabled)));
    push_entry(&mut v, make_separator());
    push_entry(
        &mut v,
        make_entry("pause_lyrics", "Pause Lyrics", true, MenuEntryKind::Check(s.lyrics_paused)),
    );
    push_entry(&mut v, make_entry("open_guide", "Open Guide", true, MenuEntryKind::Item));
    push_entry(&mut v, make_entry("restart", "Restart App", true, MenuEntryKind::Item));
    push_entry(&mut v, make_separator());
    push_entry(&mut v, make_entry("quit", "Quit", true, MenuEntryKind::Item));
    push_entry(&mut v, make_separator());
    push_entry(
        &mut v,
        make_entry("footer_credit", "Made with \u{2665} by Necra", false, MenuEntryKind::Item),
    );
    assert(entries_view(v@) =~= menu_entries_spec(mode, *s, monitor_count as nat, ip));
    v
}


/// Label of the hover-hide entry, marking an automatic switch.
pub open spec fn hover_label_spec(auto_disabled: bool) -> Seq<char> {
    if auto_disabled {
        "Disable hide on hover (Auto)"@
    } else {
        "Disable hide on hover"@
    }
}

/// The hover-hide entry's check state and label; none outside overlay mode
/// (the entry is then left as it is).
pub fn refresh_menu_labels(mode: WindowMode, s: &SettingsState, h: &HoverState) -> (r: Option<(bool, &'static str)>)
    ensures
        mode != WindowMode::Normal ==> r is None,
        mode == WindowMode::Normal ==> (r matches Some(p) && p.0 == hover_hide_disabled_spec(*s, *h)
            && p.1@ == hover_label_spec(h.hover_hide_auto_disabled)),
{
    if !normal_mode_only_controls_enabled(mode) {
        return None;
    }
    let disabled = crate::window::is_hover_hide_effectively_disabled(s, h);
    let label = if crate::window::is_hover_hide_auto_disabled(h) {
        "Disable hide on hover (Auto)"
    } else {
        "Disable hide on hover"
    };
    Some((disabled, label))
}

/// Check states, labels and enablement of the tray entries.
#[derive(Debug)]
pub struct MenuLabels {
    pub mini_window_checked: bool,
    pub local_ipv4_text: String,
    pub monitors: Vec<MenuItemSpec>,
    pub fancy_animations_checked: bool,
    pub blur_checked: bool,
    pub pause_checked: bool,
    pub pause_enabled: bool,
    pub always_on_top_checked: bool,
    pub always_on_top_enabled: bool,
    pub hover_hide_checked: bool,
    pub hover_hide_text: &'static str,
    pub hover_hide_enabled: bool,
}

/// The labels of the tray entries. Pause, always-on-top and hover-hide
/// belong to the overlay: in the mini window they show the overlay's saved
/// values and cannot be clicked.
pub fn update_color_menu_labels(
    mode: WindowMode,
    s: &SettingsState,
    h: &HoverState,
    normal_settings: &AppSettings,
    monitor_count: usize,
    ip: [u8; 4],
) -> (l: MenuLabels)
    ensures
        l.mini_window_checked == (mode == WindowMode::Window),
        l.local_ipv4_text@ == ipv4_text_spec(ip) + ":1312"@,
        entries_view(l.monitors@) == monitor_entries(monitor_count as nat, s.selected_monitor_index as nat),
        l.fancy_animations_checked == !s.word_bounce_disabled,
        l.blur_checked == s.blur_enabled,
        l.pause_checked == (if mode == WindowMode::Normal {
            s.lyrics_paused
        } else {
            s.normal_lyrics_paused
        }),
        l.pause_enabled == (mode == WindowMode::Normal),
        l.always_on_top_checked == (if mode == WindowMode::Normal {
            s.always_on_top_enabled
        } else {
            normal_settings.always_on_top_enabled
        }),
        l.always_on_top_enabled == (mode == WindowMode::Normal),
        l.hover_hide_checked == (if mode == WindowMode::Normal {
            hover_hide_disabled_spec(*s, *h)
        } else {
            normal_settings.disable_hover_hide
        }),
        l.hover_hide_text@ == (if mode == WindowMode::Normal {
            hover_label_spec(h.hover_hide_auto_disabled)
        } else {
            "Disable hide on hover"@
        }),
        l.hover_hide_enabled == (mode == WindowMode::Normal),
{
    let normal = normal_mode_only_controls_enabled(mode);
    let (hover_checked, hover_text) = match refresh_menu_labels(mode, s, h) {
        Some(p) => p,
        None => (normal_settings.disable_hover_hide, "Disable hide on hover"),
    };
    MenuLabels {
        mini_window_checked: mode == WindowMode::Window,
        local_ipv4_text: local_ipv4_menu_text(ip),
        monitors: monitor_items(monitor_count, s.selected_monitor_index),
        fancy_animations_checked: !s.word_bounce_disabled,
        blur_checked: s.blur_enabled,
        pause_checked: if normal {
            s.lyrics_paused
        } else {
            crate::settings::lyrics_paused_for_mode(s, WindowMode::Normal)
        },
        pause_enabled: normal,
        always_on_top_checked: if normal {
            s.always_on_top_enabled
        } else {
            normal_settings.always_on_top_enabled
        },
        always_on_top_enabled: normal,
        hover_hide_checked: hover_checked,
        hover_hide_text: hover_text,
        hover_hide_enabled: normal,
    }
}

/// Pauses or resumes the overlay's lyrics; outside overlay mode nothing
/// changes (the labels are refreshed instead). Returns the new pause state.
pub fn toggle_lyrics_pause(mode: WindowMode, s: &mut SettingsState) -> (r: Option<bool>)
    ensures
        mode != WindowMode::Normal ==> r is None && *final(s) == *old(s),
        mode == WindowMode::Normal ==> r == Some(!old(s).lyrics_paused) && *final(s) == (
        SettingsState {
            lyrics_paused: !old(s).lyrics_paused,
            normal_lyrics_paused: !old(s).lyrics_paused,
            ..*old(s)
        }),
{
    if !normal_mode_only_controls_enabled(mode) {
        return None;
    }
    let new_state = !s.lyrics_paused;
    s.lyrics_paused = new_state;
    crate::settings::set_lyrics_paused_for_mode(s, WindowMode::Normal, new_state);
    Some(new_state)
}

/// Switches the fancy word animations; returns whether they are now off.
pub fn toggle_fancy_animation_disabled(s: &mut SettingsState) -> (now_disabled: bool)
    ensures
        now_disabled == !old(s).word_bounce_disabled,
        *final(s) == (SettingsState { word_bounce_disabled: now_disabled, ..*old(s) }),
{
    s.word_bounce_disabled = !s.word_bounce_disabled;
    s.word_bounce_disabled
}

/// Switches the blur effect; returns whether it is now on.
pub fn toggle_blur_enabled(s: &mut SettingsState) -> (now_enabled: bool)
    ensures
        now_enabled == !old(s).blur_enabled,
        *final(s) == (SettingsState { blur_enabled: now_enabled, ..*old(s) }),
{
    s.blur_enabled = !s.blur_enabled;
    s.blur_enabled
}

/// What a click on a tray entry asks of the app.
#[derive(Clone, Copy, Debug, PartialEq, Eq, Structural)]
pub enum MenuAction {
    Quit,
    ServerUpdate,
    Restart,
    OpenGuide,
    OpenLocalIpv4,
    SwitchMode(WindowMode),
    /// Fancy animations switched; whether they are now off.
    FancyAnimationToggled(bool),
    /// Blur switched; whether it is now on.
    BlurToggled(bool),
    /// An overlay-only entry was clicked in the mini window: refresh labels.
    RefreshLabels,
    /// Lyrics paused or resumed; the new pause state.
    LyricsPauseToggled(bool),
    /// Always-on-top switched; save and re-apply.
    AlwaysOnTopToggled,
    /// Hover-hide switched; whether it is now off (the window is then shown).
    HoverHideToggled(bool),
    /// Monitor selected; reposition, save and refresh.
    MonitorSelected(usize),
    Ignore,
}

/// The action of a click on the entry `id`, with its effect on the live
/// settings.
pub open spec fn menu_event_spec(id: Seq<char>, mode: WindowMode, s: SettingsState) -> (MenuAction, SettingsState) {
    let normal = mode == WindowMode::Normal;
    if id == "quit"@ {
        (MenuAction::Quit, s)
    } else if id == "server_update_action"@ {
        (MenuAction::ServerUpdate, s)
    } else if id == "restart"@ {
        (MenuAction::Restart, s)
    } else if id == "open_guide"@ {
        (MenuAction::OpenGuide, s)
    } else if id == "local_ipv4"@ {
        (MenuAction::OpenLocalIpv4, s)
    } else if id == "mini_window_mode"@ {
        (
            MenuAction::SwitchMode(
                if mode == WindowMode::Window {
                    WindowMode::Normal
                } else {
                    WindowMode::Window
                },
            ),
            s,
        )
    } else if id == "disable_animation"@ {
        (
            MenuAction::FancyAnimationToggled(!s.word_bounce_disabled),
            SettingsState { word_bounce_disabled: !s.word_bounce_disabled, ..s },
        )
    } else if id == "blur_enabled"@ {
        (MenuAction::BlurToggled(!s.blur_enabled), SettingsState { blur_enabled: !s.blur_enabled, ..s })
    } else if id == "pause_lyrics"@ {
        if !normal {
            (MenuAction::RefreshLabels, s)
        } else {
            (
                MenuAction::LyricsPauseToggled(!s.lyrics_paused),
                SettingsState {
                    lyrics_paused: !s.lyrics_paused,
                    normal_lyrics_paused: !s.lyrics_paused,
                    ..s
                },
            )
        }
    } else if id == "always_on_top"@ {
        if !normal {
            (MenuAction::RefreshLabels, s)
        } else {
            (
                MenuAction::AlwaysOnTopToggled,
                SettingsState { always_on_top_enabled: !s.always_on_top_enabled, ..s },
            )
        }
    } else if id == "disable_hover_hide"@ {
        if !normal {
            (MenuAction::RefreshLabels, s)
        } else {
            (
                MenuAction::HoverHideToggled(!s.disable_hover_hide),
                SettingsState { disable_hover_hide: !s.disable_hover_hide, ..s },
            )
        }
    } else if mode == WindowMode::Window && crate::text::has_prefix(id, "monitor_"@) {
        (MenuAction::Ignore, s)
    } else if id == "actions_label"@ {
        (MenuAction::Ignore, s)
    } else if crate::text::has_prefix(id, "monitor_"@) {
        match parse_usize_spec(id.subrange("monitor_"@.len() as int, id.len() as int)) {
            Some(i) => (
                MenuAction::MonitorSelected(i as usize),
                SettingsState { selected_monitor_index: i as usize, ..s },
            ),
            None => (MenuAction::Ignore, s),
        }
    } else {
        (MenuAction::Ignore, s)
    }
}

/// Handles a click on the tray entry `event_id`: updates the live settings
/// and says what the app must do.
pub fn handle_menu_event(event_id: &str, mode: WindowMode, s: &mut SettingsState) -> (a: MenuAction)
    ensures
        (a, *final(s)) == menu_event_spec(event_id@, mode, *old(s)),
{
    if str_equal(event_id, "quit") {
        return MenuAction::Quit;
    }
    if str_equal(event_id, "server_update_action") {
        return MenuAction::ServerUpdate;
    }
    if str_equal(event_id, "restart") {
        return MenuAction::Restart;
    }
    if str_equal(event_id, "open_guide") {
        return MenuAction::OpenGuide;
    }
    if str_equal(event_id, "local_ipv4") {
        return MenuAction::OpenLocalIpv4;
    }
    if str_equal(event_id, "mini_window_mode") {
        let target = if mode == WindowMode::Window {
            WindowMode::Normal
        } else {
            WindowMode::Window
        };
        return MenuAction::SwitchMode(target);
    }
    if str_equal(event_id, "disable_animation") {
        return MenuAction::FancyAnimationToggled(toggle_fancy_animation_disabled(s));
    }
    if str_equal(event_id, "blur_enabled") {
        return MenuAction::BlurToggled(toggle_blur_enabled(s));
    }
    let normal = normal_mode_only_controls_enabled(mode);
    if str_equal(event_id, "pause_lyrics") {
        return match toggle_lyrics_pause(mode, s) {
            Some(paused) => MenuAction::LyricsPauseToggled(paused),
            None => MenuAction::RefreshLabels,
        };
    }
    if str_equal(event_id, "always_on_top") {
        if !normal {
            return MenuAction::RefreshLabels;
        }
        s.always_on_top_enabled = !s.always_on_top_enabled;
        return MenuAction::AlwaysOnTopToggled;
    }
    if str_equal(event_id, "disable_hover_hide") {
        if !normal {
            return MenuAction::RefreshLabels;
        }
        s.disable_hover_hide = !s.disable_hover_hide;
        return MenuAction::HoverHideToggled(s.disable_hover_hide);
    }
    let monitor_suffix = strip_prefix(event_id, "monitor_");
    if mode == WindowMode::Window && monitor_suffix.is_some() {
        return MenuAction::Ignore;
    }
    if str_equal(event_id, "actions_label") {
        return MenuAction::Ignore;
    }
    match monitor_suffix {
        Some(rest) => match parse_usize(rest.as_str()) {
            Some(idx) => {
                s.selected_monitor_index = idx;
                MenuAction::MonitorSelected(idx)
            },
            None => MenuAction::Ignore,
        },
        None => MenuAction::Ignore,
    }
}

/// A click on the entry of monitor `i` selects monitor `i`.
pub proof fn lemma_monitor_entry_click_selects(i: nat, s: SettingsState)
    requires
        i <= usize::MAX,
    ensures
        menu_event_spec("monitor_"@ + decimal(i), WindowMode::Normal, s) == (
            MenuAction::MonitorSelected(i as usize),
            SettingsState { selected_monitor_index: i as usize, ..s },
        ),
{
    let id = "monitor_"@ + decimal(i);
    crate::text::lemma_parse_decimal_roundtrip(i);
    crate::text::lemma_decimal_digits(i);
    assert(id.subrange(0, "monitor_"@.len() as int) =~= "monitor_"@);
    assert(id.subrange("monitor_"@.len() as int, id.len() as int) =~= decimal(i));
    reveal_strlit("monitor_");
    reveal_strlit("quit");
    reveal_strlit("server_update_action");
    reveal_strlit("restart");
    reveal_strlit("open_guide");
    reveal_strlit("local_ipv4");
    reveal_strlit("mini_window_mode");
    reveal_strlit("disable_animation");
    reveal_strlit("blur_enabled");
    reveal_strlit("pause_lyrics");
    reveal_strlit("always_on_top");
    reveal_strlit("disable_hover_hide");
    reveal_strlit("actions_label");
    assert(id[0] == 'm' && id[1] == 'o' && id[7] == '_');
}

/// How to bring the tray's updater entry up to date.
#[derive(Debug)]
pub enum ServerMenuPlan {
    /// Show the entry with this text and enablement, inserting it (at the
    /// top) and the separator below it when they are not in the menu.
    Show { text: String, enabled: bool, insert_item: bool, insert_separator: bool },
    /// Remove the entry when it is in the menu, and its separator.
    Remove { remove_item: bool },
}

/// The plan for the updater's tray entry, from its descriptor.
pub fn server_update_menu_plan(descriptor: Option<(String, bool)>, item_in_menu: bool, separator_in_menu: bool) -> (p:
    ServerMenuPlan)
    ensures
        match (descriptor, p) {
            (Some(d), ServerMenuPlan::Show { text, enabled, insert_item, insert_separator }) => text
                == d.0 && enabled == d.1 && insert_item == !item_in_menu && insert_separator
                == !separator_in_menu,
            (None, ServerMenuPlan::Remove { remove_item }) => remove_item == item_in_menu,
            _ => false,
        },
{
    match descriptor {
        Some((text, enabled)) => ServerMenuPlan::Show {
            text,
            enabled,
            insert_item: !item_in_menu,
            insert_separator: !separator_in_menu,
        },
        None => ServerMenuPlan::Remove { remove_item: item_in_menu },
    }
}

/// The mini-window entry always asks for the other mode (back to the
/// overlay from the mini window, to the mini window from the overlay) and
/// changes no live setting.
pub proof fn lemma_mini_window_entry_switches_mode(mode: WindowMode, s: SettingsState)
    ensures
        menu_event_spec("mini_window_mode"@, mode, s) matches (MenuAction::SwitchMode(m), s2) && m
            != mode && s2 == s,
{
    reveal_strlit("mini_window_mode");
    reveal_strlit("quit");
    reveal_strlit("server_update_action");
    reveal_strlit("restart");
    reveal_strlit("open_guide");
    reveal_strlit("local_ipv4");
    assert("mini_window_mode"@ != "quit"@) by {
        assert("mini_window_mode"@.len() != "quit"@.len());
    }
    assert("mini_window_mode"@ != "server_update_action"@) by {
        assert("mini_window_mode"@.len() != "server_update_action"@.len());
    }
    assert("mini_window_mode"@ != "restart"@) by {
        assert("mini_window_mode"@.len() != "restart"@.len());
    }
    assert("mini_window_mode"@ != "open_guide"@) by {
        assert("mini_window_mode"@.len() != "open_guide"@.len());
    }
    assert("mini_window_mode"@ != "local_ipv4"@) by {
        assert("mini_window_mode"@.len() != "local_ipv4"@.len());
    }
}

} // verus!
