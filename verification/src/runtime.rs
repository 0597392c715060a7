//! Build variants, their endpoints, and the decisions of the app's startup,
//! page loads, welcome window and hotkey guard.

use vstd::prelude::*;
use vstd::string::StringExecFns;
use crate::mode::{WindowMode, GUIDE_WINDOW_LABEL, NORMAL_WINDOW_LABEL, WINDOW_MODE_LABEL};
use crate::network::{endpoint_url, endpoint_url_spec, get_working_url, opt_view, working_url_spec};
use crate::mode::{current_mode, decode_mode, encode_mode, set_current_mode, ModeState};
use crate::settings::{applied_spec, paused_in, AppSettings, SettingsState};
use crate::text::{contains, has_substring, lemma_contains_appended, str_equal};

verus! {

/// The three builds of the app.
#[derive(Clone, Copy, Debug, PartialEq, Eq, Structural)]
pub enum Variant {
    Serverless,
    Standalone,
    Ytm,
}

/// Where a variant finds its lyrics server, and which server executable it
/// manages, if any.
#[derive(Clone, Copy)]
pub struct RuntimeConfig {
    pub primary_ip: &'static str,
    pub fallback_ip: Option<&'static str>,
    pub port: u16,
    pub lyrics_path: &'static str,
    pub embedded_exe: Option<&'static str>,
}

/// The endpoint part of a runtime configuration.
#[derive(Clone, Copy)]
pub struct RuntimeEndpoint {
    pub primary_ip: &'static str,
    pub fallback_ip: Option<&'static str>,
    pub port: u16,
    pub lyrics_path: &'static str,
}

/// Optional `&str` by its view.
pub open spec fn opt_str_view(o: Option<&str>) -> Option<Seq<char>> {
    match o {
        Some(s) => Some(s@),
        None => None,
    }
}

impl RuntimeConfig {
    /// The configuration of a build variant: the serverless build talks to a
    /// remote server on port 80 with a fallback address; the two local builds
    /// talk to their embedded server on 127.0.0.1:1312.
    pub fn for_variant(variant: Variant) -> (cfg: Self)
        ensures
            cfg.lyrics_path@ == "/lyrics"@,
            variant == Variant::Serverless ==> {
                &&& cfg.primary_ip@ == "192.168.99.47"@
                &&& opt_str_view(cfg.fallback_ip) == Some("192.168.0.101"@)
                &&& cfg.port == 80
                &&& cfg.embedded_exe is None
            },
            variant != Variant::Serverless ==> {
                &&& cfg.primary_ip@ == "127.0.0.1"@
                &&& cfg.fallback_ip is None
                &&& cfg.port == 1312
            },
            variant == Variant::Standalone ==> opt_str_view(cfg.embedded_exe) == Some(
                "source/lyrics-smtc-x64.exe"@,
            ),
            variant == Variant::Ytm ==> opt_str_view(cfg.embedded_exe) == Some(
                "source/lyrics-ytm-x64.exe"@,
            ),
    {
        match variant {
            Variant::Serverless => RuntimeConfig {
                primary_ip: "192.168.99.47",
                fallback_ip: Some("192.168.0.101"),
                port: 80,
                lyrics_path: "/lyrics",
                embedded_exe: None,
            },
            Variant::Standalone => RuntimeConfig {
                primary_ip: "127.0.0.1",
                fallback_ip: None,
                port: 1312,
                lyrics_path: "/lyrics",
                embedded_exe: Some("source/lyrics-smtc-x64.exe"),
            },
            Variant::Ytm => RuntimeConfig {
                primary_ip: "127.0.0.1",
                fallback_ip: None,
                port: 1312,
                lyrics_path: "/lyrics",
                embedded_exe: Some("source/lyrics-ytm-x64.exe"),
            },
        }
    }
}


/// The product name of a variant.
pub open spec fn display_name_spec(variant: Variant) -> Seq<char> {
    match variant {
        Variant::Ytm => "Floating Lyrics YTM"@,
        _ => "Floating Lyrics"@,
    }
}

/// The product name of a variant.
pub fn variant_display_name(variant: Variant) -> (r: &'static str)
    ensures
        r@ == display_name_spec(variant),
{
    match variant {
        Variant::Ytm => "Floating Lyrics YTM",
        Variant::Serverless | Variant::Standalone => "Floating Lyrics",
    }
}

/// The product name of the running variant (the plain name before one is
/// set).
pub fn runtime_display_name(slots: &RuntimeSlots) -> (r: &'static str)
    ensures
        r@ == (match slots.variant {
            Some(v) => display_name_spec(v),
            None => "Floating Lyrics"@,
        }),
{
    match current_variant(slots) {
        Some(v) => variant_display_name(v),
        None => "Floating Lyrics",
    }
}

/// What the running instance was configured with.
pub struct RuntimeSlots {
    pub variant: Option<Variant>,
    pub endpoint: Option<RuntimeEndpoint>,
    pub embedded_exe: Option<&'static str>,
}

impl RuntimeSlots {
    /// Nothing configured yet.
    pub fn new() -> (s: Self)
        ensures
            s.variant is None,
            s.endpoint is None,
            s.embedded_exe is None,
    {
        RuntimeSlots { variant: None, endpoint: None, embedded_exe: None }
    }

    /// Records the variant that is starting and its configuration.
    pub fn configure(&mut self, variant: Variant, cfg: &RuntimeConfig)
        ensures
            final(self).variant == Some(variant),
            final(self).endpoint matches Some(e) && e.primary_ip == cfg.primary_ip
                && e.fallback_ip == cfg.fallback_ip && e.port == cfg.port && e.lyrics_path
                == cfg.lyrics_path,
            final(self).embedded_exe == cfg.embedded_exe,
    {
        self.endpoint = Some(
            RuntimeEndpoint {
                primary_ip: cfg.primary_ip,
                fallback_ip: cfg.fallback_ip,
                port: cfg.port,
                lyrics_path: cfg.lyrics_path,
            },
        );
        self.variant = Some(variant);
        self.embedded_exe = cfg.embedded_exe;
    }
}

/// The running variant, once configured.
pub fn current_variant(slots: &RuntimeSlots) -> (r: Option<Variant>)
    ensures
        r == slots.variant,
{
    slots.variant
}

/// The running variant's endpoint, once configured.
pub fn current_runtime_endpoint(slots: &RuntimeSlots) -> (r: Option<RuntimeEndpoint>)
    ensures
        r == slots.endpoint,
{
    slots.endpoint
}

/// A URL of the welcome or guide page.
pub open spec fn is_welcome_url_spec(url: Seq<char>) -> bool {
    has_substring(url, "/welcome"@) || has_substring(url, "/guide"@)
}

/// Whether a URL shows the welcome or guide page.
pub fn is_welcome_url(url: &str) -> (b: bool)
    ensures
        b == is_welcome_url_spec(url@),
{
    contains(url, "/welcome") || contains(url, "/guide")
}

/// The lyrics URL of the running variant, given whether its servers answer.
pub fn current_lyrics_url(slots: &RuntimeSlots, primary_reachable: bool, fallback_reachable: bool) -> (r:
    Option<String>)
    ensures
        opt_view(r) == (match slots.endpoint {
            Some(e) => working_url_spec(
                e.primary_ip@,
                opt_str_view(e.fallback_ip),
                e.port,
                e.lyrics_path@,
                primary_reachable,
                fallback_reachable,
            ),
            None => None,
        }),
{
    match current_runtime_endpoint(slots) {
        Some(e) => get_working_url(
            e.primary_ip,
            e.fallback_ip,
            e.port,
            e.lyrics_path,
            primary_reachable,
            fallback_reachable,
        ),
        None => None,
    }
}

/// The welcome page's URL: on the running variant's working server, else on
/// the local server.
pub fn current_welcome_url(slots: &RuntimeSlots, primary_reachable: bool, fallback_reachable: bool) -> (r:
    String)
    ensures
        r@ == (match slots.endpoint {
            Some(e) => match working_url_spec(
                e.primary_ip@,
                opt_str_view(e.fallback_ip),
                e.port,
                "/welcome"@,
                primary_reachable,
                fallback_reachable,
            ) {
                Some(u) => u,
                None => endpoint_url_spec("127.0.0.1"@, 1312, "/welcome"@),
            },
            None => endpoint_url_spec("127.0.0.1"@, 1312, "/welcome"@),
        }),
        is_welcome_url_spec(r@),
{
    let found = match current_runtime_endpoint(slots) {
        Some(e) => get_working_url(
            e.primary_ip,
            e.fallback_ip,
            e.port,
            "/welcome",
            primary_reachable,
            fallback_reachable,
        ),
        None => None,
    };
    let r = match found {
        Some(u) => u,
        None => endpoint_url("127.0.0.1", 1312, "/welcome"),
    };
    proof {
        let ghost e = slots.endpoint;
        if e is Some {
            let ee = e.unwrap();
            lemma_contains_appended(
                "http://"@ + ee.primary_ip@ + ":"@ + crate::text::decimal(ee.port as nat),
                "/welcome"@,
            );
            if ee.fallback_ip is Some {
                lemma_contains_appended(
                    "http://"@ + ee.fallback_ip.unwrap()@ + ":"@ + crate::text::decimal(
                        ee.port as nat,
                    ),
                    "/welcome"@,
                );
            }
        }
        lemma_contains_appended(
            "http://"@ + "127.0.0.1"@ + ":"@ + crate::text::decimal(1312),
            "/welcome"@,
        );
    }
    r
}

/// Flags of the app's lifecycle and of its welcome window.
#[derive(Clone, Copy, Debug, PartialEq, Eq, Structural)]
pub struct AppFlags {
    pub app_exiting: bool,
    pub startup_complete: bool,
    pub startup_show_requested: bool,
    pub welcome_window_active: bool,
    pub welcome_close_allowed: bool,
    pub welcome_show_pending: bool,
    pub welcome_restore_normal_paused: bool,
}

impl AppFlags {
    /// All flags off.
    pub fn new() -> (f: Self)
        ensures
            f == (AppFlags {
                app_exiting: false,
                startup_complete: false,
                startup_show_requested: false,
                welcome_window_active: false,
                welcome_close_allowed: false,
                welcome_show_pending: false,
                welcome_restore_normal_paused: false,
            }),
    {
        AppFlags {
            app_exiting: false,
            startup_complete: false,
            startup_show_requested: false,
            welcome_window_active: false,
            welcome_close_allowed: false,
            welcome_show_pending: false,
            welcome_restore_normal_paused: false,
        }
    }
}

/// Marks the app as shutting down; page loads are ignored from then on.
pub fn mark_app_exiting(flags: &mut AppFlags)
    ensures
        *final(flags) == (AppFlags { app_exiting: true, ..*old(flags) }),
{
    flags.app_exiting = true;
}

/// Startup has finished: requests to show the welcome page are carried out
/// at once from then on.
pub fn mark_startup_complete(flags: &mut AppFlags)
    ensures
        *final(flags) == (AppFlags { startup_complete: true, ..*old(flags) }),
{
    flags.startup_complete = true;
}

/// The variants that run a local lyrics server.
pub open spec fn is_local_variant(v: Option<Variant>) -> bool {
    v == Some(Variant::Standalone) || v == Some(Variant::Ytm)
}

/// Whether a variant runs a local lyrics server.
pub fn manages_local_server(v: Option<Variant>) -> (b: bool)
    ensures
        b == is_local_variant(v),
{
    match v {
        Some(Variant::Standalone) | Some(Variant::Ytm) => true,
        _ => false,
    }
}

/// A request to show the welcome page: remembered for after startup, and
/// carried out now only once startup is complete and the variant has a local
/// server.
pub fn request_welcome(flags: &mut AppFlags, variant: Option<Variant>) -> (proceed: bool)
    ensures
        *final(flags) == (AppFlags { startup_show_requested: true, ..*old(flags) }),
        proceed == (old(flags).startup_complete && is_local_variant(variant)),
{
    flags.startup_show_requested = true;
    flags.startup_complete && manages_local_server(variant)
}

/// The welcome window opens: it may not be closed yet, it is active, it is
/// shown once loaded, and the overlay's pause state is kept to restore.
pub fn mark_welcome_opening(flags: &mut AppFlags, normal_lyrics_paused: bool)
    ensures
        *final(flags) == (AppFlags {
            welcome_close_allowed: false,
            welcome_window_active: true,
            welcome_show_pending: true,
            welcome_restore_normal_paused: normal_lyrics_paused,
            ..*old(flags)
        }),
{
    flags.welcome_close_allowed = false;
    flags.welcome_window_active = true;
    flags.welcome_show_pending = true;
    flags.welcome_restore_normal_paused = normal_lyrics_paused;
}

/// Startup decides whether to open the welcome page: local variants open it
/// when it was requested (the request is then consumed) or was never seen.
pub fn take_startup_welcome(flags: &mut AppFlags, variant: Option<Variant>, has_seen_welcome: bool) -> (show:
    bool)
    ensures
        show == (is_local_variant(variant) && (old(flags).startup_show_requested
            || !has_seen_welcome)),
        *final(flags) == (if is_local_variant(variant) {
            AppFlags { startup_show_requested: false, ..*old(flags) }
        } else {
            *old(flags)
        }),
{
    if !manages_local_server(variant) {
        return false;
    }
    let requested = flags.startup_show_requested;
    flags.startup_show_requested = false;
    requested || !has_seen_welcome
}

/// Closing the welcome window is refused while it is active and not yet
/// allowed to close, unless the app is exiting.
pub fn welcome_close_blocked(flags: &AppFlags) -> (b: bool)
    ensures
        b == (!flags.app_exiting && flags.welcome_window_active && !flags.welcome_close_allowed),
{
    !flags.app_exiting && flags.welcome_window_active && !flags.welcome_close_allowed
}

/// The user closes the welcome page: allowed only while it is active.
pub fn begin_close_welcome(flags: &mut AppFlags) -> (proceed: bool)
    ensures
        proceed == old(flags).welcome_window_active,
        *final(flags) == (if proceed {
            AppFlags { welcome_close_allowed: true, ..*old(flags) }
        } else {
            *old(flags)
        }),
{
    if !flags.welcome_window_active {
        return false;
    }
    flags.welcome_close_allowed = true;
    true
}

/// The welcome page is gone: the flags reset and the overlay's pause state
/// from before it opened is handed back.
pub fn restore_after_welcome(flags: &mut AppFlags) -> (restore_paused: bool)
    ensures
        restore_paused == old(flags).welcome_restore_normal_paused,
        *final(flags) == (AppFlags {
            welcome_window_active: false,
            welcome_close_allowed: false,
            ..*old(flags)
        }),
{
    flags.welcome_window_active = false;
    flags.welcome_close_allowed = false;
    flags.welcome_restore_normal_paused
}

/// What a finished page load asks of the app.
#[derive(Clone, Copy, Debug, PartialEq, Eq, Structural)]
pub enum PageLoadAction {
    /// Nothing to do (the app is exiting, or the window is unknown).
    Ignore,
    /// The overlay loaded the welcome page: enter welcome mode.
    EnterWelcome,
    /// The overlay loaded the lyrics: leave welcome mode and inject the
    /// scripts; when it came from the welcome page, hide it and fade it in.
    ExitWelcome { coming_from_welcome: bool },
    /// The guide window loaded; show it when a show is pending.
    GuideLoaded { show_now: bool },
    /// The mini window loaded the lyrics: inject its scripts.
    InjectWindowMode,
    /// The mini window loaded a welcome page: nothing to inject.
    Nothing,
}

/// The action for a page load in the window `label` at `url`; a pending
/// show of the guide window is consumed when it loads.
pub fn page_load_action(flags: &mut AppFlags, label: &str, url: &str, welcome_mode_active: bool) -> (a:
    PageLoadAction)
    ensures
        a == (if old(flags).app_exiting {
            PageLoadAction::Ignore
        } else if label@ == "main"@ {
            if is_welcome_url_spec(url@) {
                PageLoadAction::EnterWelcome
            } else {
                PageLoadAction::ExitWelcome { coming_from_welcome: welcome_mode_active }
            }
        } else if label@ == "guide"@ {
            PageLoadAction::GuideLoaded { show_now: old(flags).welcome_show_pending }
        } else if label@ == "window_mode"@ {
            if is_welcome_url_spec(url@) {
                PageLoadAction::Nothing
            } else {
                PageLoadAction::InjectWindowMode
            }
        } else {
            PageLoadAction::Ignore
        }),
        *final(flags) == (if a is GuideLoaded {
            AppFlags { welcome_show_pending: false, ..*old(flags) }
        } else {
            *old(flags)
        }),
{
    if flags.app_exiting {
        return PageLoadAction::Ignore;
    }
    if str_equal(label, NORMAL_WINDOW_LABEL) {
        if is_welcome_url(url) {
            PageLoadAction::EnterWelcome
        } else {
            PageLoadAction::ExitWelcome { coming_from_welcome: welcome_mode_active }
        }
    } else if str_equal(label, GUIDE_WINDOW_LABEL) {
        let show_now = flags.welcome_show_pending;
        flags.welcome_show_pending = false;
        PageLoadAction::GuideLoaded { show_now }
    } else if str_equal(label, WINDOW_MODE_LABEL) {
        if is_welcome_url(url) {
            PageLoadAction::Nothing
        } else {
            PageLoadAction::InjectWindowMode
        }
    } else {
        PageLoadAction::Ignore
    }
}

/// State of the Alt+Shift+F guard: whether it turned click-through off, and
/// whether the combination was down at the last poll.
#[derive(Clone, Copy, Debug, PartialEq, Eq, Structural)]
pub struct HotkeyGuard {
    pub hotkey_active: bool,
    pub last_combo_down: bool,
}

/// The guard counts the key combination only while the overlay is shown with
/// lyrics running and no welcome page.
pub open spec fn hotkey_runtime_active(mode: WindowMode, lyrics_paused: bool, welcome_mode_active: bool, overlay_shown: bool) -> bool {
    mode == WindowMode::Normal && !lyrics_paused && !welcome_mode_active && overlay_shown
}

/// One poll of the guard: pressing the combination turns click-through off
/// at once (not persisted); releasing it, or the guard becoming inactive,
/// turns it back on. Returns the click-through value to apply, if any.
pub fn hotkey_guard_step(
    g: &mut HotkeyGuard,
    mode: WindowMode,
    lyrics_paused: bool,
    welcome_mode_active: bool,
    overlay_shown: bool,
    keys_down: bool,
) -> (set_click_through: Option<bool>)
    ensures
        ({
            let combo = hotkey_runtime_active(mode, lyrics_paused, welcome_mode_active, overlay_shown)
                && keys_down;
            &&& final(g).last_combo_down == combo
            &&& set_click_through == (if combo && !old(g).last_combo_down {
                Some(false)
            } else if !combo && old(g).hotkey_active {
                Some(true)
            } else {
                None
            })
            &&& final(g).hotkey_active == (if combo && !old(g).last_combo_down {
                true
            } else if !combo && old(g).hotkey_active {
                false
            } else {
                old(g).hotkey_active
            })
        }),
{
    let runtime_active = mode == WindowMode::Normal && !lyrics_paused && !welcome_mode_active
        && overlay_shown;
    let combo = runtime_active && keys_down;
    let mut action: Option<bool> = None;
    if combo && !g.last_combo_down {
        action = Some(false);
        g.hotkey_active = true;
    } else if (!combo || !runtime_active) && g.hotkey_active {
        action = Some(true);
        g.hotkey_active = false;
    }
    g.last_combo_down = combo;
    action
}

/// The guard's click-through override is on exactly while the combination is
/// held: a guard that starts idle keeps `hotkey_active == last_combo_down`
/// at every poll.
pub proof fn lemma_hotkey_guard_tracks_combo(active: bool, last: bool, combo: bool)
    requires
        active == last,
    ensures
        ({
            let new_active = if combo && !last {
                true
            } else if !combo && active {
                false
            } else {
                active
            };
            new_active == combo
        }),
{
}

/// Size of a new mini window: the saved size, 360 by default, at least 256.
pub fn window_mode_initial_size(settings: &AppSettings) -> (size: (u32, u32))
    ensures
        size.0 == ({
            let w = match settings.window_mode_width {
                Some(w) => w,
                None => 360,
            };
            if w >= 256 { w } else { 256 }
        }),
        size.1 == ({
            let h = match settings.window_mode_height {
                Some(h) => h,
                None => 360,
            };
            if h >= 256 { h } else { 256 }
        }),
{
    let w = match settings.window_mode_width {
        Some(w) => w,
        None => 360,
    };
    let h = match settings.window_mode_height {
        Some(h) => h,
        None => 360,
    };
    (if w >= 256 { w } else { 256 }, if h >= 256 { h } else { 256 })
}

/// Takes the running embedded server process out of its slot, to be
/// stopped; the slot is empty afterwards.
pub fn stop_embedded_server_process<T>(slot: &mut Option<T>) -> (taken: Option<T>)
    ensures
        taken == *old(slot),
        *final(slot) is None,
{
    let taken = slot.take();
    taken
}

/// The executable to restart as the embedded server, or the error that the
/// variant has none.
pub fn embedded_exe_for_restart(slots: &RuntimeSlots) -> (r: Result<&'static str, String>)
    ensures
        r is Ok <==> slots.embedded_exe is Some,
        r matches Ok(e) ==> e == slots.embedded_exe.unwrap(),
        r matches Err(m) ==> m@ == "This runtime variant has no embedded server"@,
{
    match slots.embedded_exe {
        Some(e) => Ok(e),
        None => Err(String::from_str("This runtime variant has no embedded server")),
    }
}

/// The error when the embedded server does not answer within the timeout.
pub fn server_not_ready_message(cfg: &RuntimeConfig, timeout_secs: u64) -> (r: String)
    ensures
        r@ == "Embedded server did not become ready at "@ + cfg.primary_ip@ + ":"@
            + crate::text::decimal(cfg.port as nat) + cfg.lyrics_path@ + " within "@
            + crate::text::decimal(timeout_secs as nat) + " seconds"@,
{
    let mut r = String::from_str("Embedded server did not become ready at ");
    r.append(cfg.primary_ip);
    r.append(":");
    crate::text::push_decimal(&mut r, cfg.port as u64);
    r.append(cfg.lyrics_path);
    r.append(" within ");
    crate::text::push_decimal(&mut r, timeout_secs);
    r.append(" seconds");
    r
}

/// Method of a request to the serverless build's local API.
#[derive(Clone, Copy, Debug, PartialEq, Eq, Structural)]
pub enum HttpMethod {
    Options,
    Get,
    Post,
    Other,
}

/// The local API's answer to a request.
#[derive(Clone, Copy, Debug)]
pub struct LocalApiResponse {
    pub status: u16,
    pub body: &'static str,
    /// Carries the allowed methods and headers (a CORS preflight answer).
    pub preflight: bool,
    /// Carries `Content-Type: application/json`.
    pub json: bool,
    /// The app stops its server and exits after answering.
    pub exit_after: bool,
}

/// The local API: CORS preflight, a status endpoint, and a toggle endpoint
/// that shuts the app down; anything else is not found.
pub fn local_api_response(method: HttpMethod, url: &str) -> (r: LocalApiResponse)
    ensures
        method == HttpMethod::Options ==> r.status == 204 && r.body@ == ""@ && r.preflight
            && !r.json && !r.exit_after,
        method == HttpMethod::Get && url@ == "/floating-lyrics/status"@ ==> r.status == 200
            && r.body@ == "{\"running\":true}"@ && !r.preflight && r.json && !r.exit_after,
        method == HttpMethod::Post && url@ == "/floating-lyrics/toggle"@ ==> r.status == 200
            && r.body@ == "{\"ok\":true}"@ && !r.preflight && r.json && r.exit_after,
        method != HttpMethod::Options && !(method == HttpMethod::Get && url@
            == "/floating-lyrics/status"@) && !(method == HttpMethod::Post && url@
            == "/floating-lyrics/toggle"@) ==> r.status == 404 && r.body@ == "not found"@
            && !r.preflight && !r.json && !r.exit_after,
{
    if method == HttpMethod::Options {
        return LocalApiResponse { status: 204, body: "", preflight: true, json: false, exit_after: false };
    }
    if method == HttpMethod::Get && str_equal(url, "/floating-lyrics/status") {
        return LocalApiResponse {
            status: 200,
            body: "{\"running\":true}",
            preflight: false,
            json: true,
            exit_after: false,
        };
    }
    if method == HttpMethod::Post && str_equal(url, "/floating-lyrics/toggle") {
        return LocalApiResponse {
            status: 200,
            body: "{\"ok\":true}",
            preflight: false,
            json: true,
            exit_after: true,
        };
    }
    LocalApiResponse { status: 404, body: "not found", preflight: false, json: false, exit_after: false }
}


/// A browser argument that turns GPU acceleration off.
pub open spec fn is_blocked_gpu_flag(t: Seq<char>) -> bool {
    ||| t == "--disable-gpu"@
    ||| t == "--disable-gpu-compositing"@
    ||| t == "--in-process-gpu"@
    ||| t == "--disable-accelerated-2d-canvas"@
    ||| t == "--disable-accelerated-video-decode"@
}

/// The arguments without those that turn GPU acceleration off.
pub open spec fn retain_allowed(args: Seq<Seq<char>>) -> Seq<Seq<char>>
    decreases args.len(),
{
    if args.len() == 0 {
        Seq::empty()
    } else {
        let r = retain_allowed(args.drop_last());
        if is_blocked_gpu_flag(args.last()) {
            r
        } else {
            r.push(args.last())
        }
    }
}

/// The arguments that turn GPU acceleration on.
pub open spec fn wanted_gpu_flags() -> Seq<Seq<char>> {
    seq!["--ignore-gpu-blocklist"@, "--enable-gpu-rasterization"@, "--enable-zero-copy"@]
}

/// `args` with each of `wanted` appended, in order, unless already present.
pub open spec fn add_missing(args: Seq<Seq<char>>, wanted: Seq<Seq<char>>) -> Seq<Seq<char>>
    decreases wanted.len(),
{
    if wanted.len() == 0 {
        args
    } else {
        add_missing(
            if args.contains(wanted[0]) {
                args
            } else {
                args.push(wanted[0])
            },
            wanted.drop_first(),
        )
    }
}

/// The browser arguments for the web view: the current ones without those
/// that turn GPU acceleration off, plus those that turn it on.
pub open spec fn gpu_arguments_spec(current: Seq<char>) -> Seq<Seq<char>> {
    add_missing(retain_allowed(crate::text::split_whitespace_spec(current)), wanted_gpu_flags())
}

/// Whether an argument turns GPU acceleration off.
fn blocked_gpu_flag(t: &str) -> (b: bool)
    ensures
        b == is_blocked_gpu_flag(t@),
{
    str_equal(t, "--disable-gpu") || str_equal(t, "--disable-gpu-compositing") || str_equal(
        t,
        "--in-process-gpu",
    ) || str_equal(t, "--disable-accelerated-2d-canvas") || str_equal(
        t,
        "--disable-accelerated-video-decode",
    )
}

/// Appends `w` unless it is already among `args`.
fn push_if_missing(args: &mut Vec<String>, w: &str)
    ensures
        crate::text::strings_view(final(args)@) == (if crate::text::strings_view(old(args)@).contains(
            w@,
        ) {
            crate::text::strings_view(old(args)@)
        } else {
            crate::text::strings_view(old(args)@).push(w@)
        }),
{
    let ghost sv = crate::text::strings_view(args@);
    let mut i: usize = 0;
    while i < args.len()
        invariant
            sv == crate::text::strings_view(args@),
            i <= args.len(),
            forall|j: int| 0 <= j < i ==> sv[j] != w@,
        decreases args.len() - i,
    {
        if str_equal(args[i].as_str(), w) {
            assert(sv[i as int] == w@);
            return;
        }
        i = i + 1;
    }
    args.push(String::from_str(w));
    assert(crate::text::strings_view(args@) =~= sv.push(w@));
}

/// The browser arguments for the web view, from the current value of its
/// arguments variable.
pub fn webview2_browser_arguments(current: &str) -> (r: String)
    ensures
        r@ == crate::text::join_with_spaces(gpu_arguments_spec(current@)),
{
    let words = crate::text::split_whitespace(current);
    let ghost wv = crate::text::strings_view(words@);
    let mut args: Vec<String> = Vec::new();
    let mut i: usize = 0;
    while i < words.len()
        invariant
            wv == crate::text::strings_view(words@),
            wv == crate::text::split_whitespace_spec(current@),
            i <= words.len(),
            crate::text::strings_view(args@) == retain_allowed(wv.take(i as int)),
        decreases words.len() - i,
    {
        assert(wv.take(i + 1).drop_last() =~= wv.take(i as int));
        assert(wv.take(i + 1).last() == words@[i as int]@);
        if !blocked_gpu_flag(words[i].as_str()) {
            let ghost before = crate::text::strings_view(args@);
            args.push(words[i].clone());
            assert(crate::text::strings_view(args@) =~= before.push(words@[i as int]@));
        }
        i = i + 1;
    }
    assert(wv.take(words.len() as int) =~= wv);
    let ghost kept = crate::text::strings_view(args@);
    push_if_missing(&mut args, "--ignore-gpu-blocklist");
    push_if_missing(&mut args, "--enable-gpu-rasterization");
    push_if_missing(&mut args, "--enable-zero-copy");
    proof {
        let w = wanted_gpu_flags();
        assert(w.drop_first() =~= seq!["--enable-gpu-rasterization"@, "--enable-zero-copy"@]);
        assert(w.drop_first().drop_first() =~= seq!["--enable-zero-copy"@]);
        assert(w.drop_first().drop_first().drop_first() =~= Seq::<Seq<char>>::empty());
        reveal_with_fuel(add_missing, 4);
    }
    crate::text::join_words(&args)
}

/// Every argument that turns GPU acceleration on is present afterwards.
pub proof fn lemma_add_missing_contains(args: Seq<Seq<char>>, wanted: Seq<Seq<char>>, x: Seq<char>)
    requires
        args.contains(x) || wanted.contains(x),
    ensures
        add_missing(args, wanted).contains(x),
    decreases wanted.len(),
{
    if wanted.len() > 0 {
        let next = if args.contains(wanted[0]) {
            args
        } else {
            args.push(wanted[0])
        };
        if args.contains(x) {
            let k = choose|k: int| 0 <= k < args.len() && args[k] == x;
            assert(next[k] == x);
        } else if wanted[0] == x {
            if !args.contains(wanted[0]) {
                assert(next[args.len() as int] == x);
            }
        } else {
            let k = choose|k: int| 0 <= k < wanted.len() && wanted[k] == x;
            assert(wanted.drop_first()[k - 1] == x);
        }
        lemma_add_missing_contains(next, wanted.drop_first(), x);
    }
}

/// Only arguments of `args` or `wanted` appear afterwards.
pub proof fn lemma_add_missing_only(args: Seq<Seq<char>>, wanted: Seq<Seq<char>>, x: Seq<char>)
    requires
        add_missing(args, wanted).contains(x),
    ensures
        args.contains(x) || wanted.contains(x),
    decreases wanted.len(),
{
    if wanted.len() > 0 {
        let next = if args.contains(wanted[0]) {
            args
        } else {
            args.push(wanted[0])
        };
        lemma_add_missing_only(next, wanted.drop_first(), x);
        if next.contains(x) && !args.contains(x) {
            let k = choose|k: int| 0 <= k < next.len() && next[k] == x;
            assert(k == args.len());
            assert(wanted[0] == x);
        }
        if wanted.drop_first().contains(x) {
            let k = choose|k: int| 0 <= k < wanted.drop_first().len() && wanted.drop_first()[k] == x;
            assert(wanted[k + 1] == x);
        }
    }
}

/// No argument that turns GPU acceleration off survives the filter.
pub proof fn lemma_retain_allowed_excludes_blocked(args: Seq<Seq<char>>, x: Seq<char>)
    requires
        retain_allowed(args).contains(x),
    ensures
        !is_blocked_gpu_flag(x),
        args.contains(x),
    decreases args.len(),
{
    if args.len() > 0 {
        let r = retain_allowed(args.drop_last());
        if r.contains(x) {
            lemma_retain_allowed_excludes_blocked(args.drop_last(), x);
            let k = choose|k: int| 0 <= k < args.drop_last().len() && args.drop_last()[k] == x;
            assert(args[k] == x);
        } else {
            let k = choose|k: int| 0 <= k < retain_allowed(args).len() && retain_allowed(args)[k] == x;
            assert(k == r.len());
            assert(args[args.len() - 1] == x);
        }
    }
}

/// The web view's arguments afterwards hold every argument that turns GPU
/// acceleration on, none that turns it off, and otherwise only arguments
/// that were there before.
pub proof fn lemma_gpu_arguments(current: Seq<char>, x: Seq<char>)
    ensures
        wanted_gpu_flags().contains(x) ==> gpu_arguments_spec(current).contains(x),
        gpu_arguments_spec(current).contains(x) ==> !is_blocked_gpu_flag(x),
        gpu_arguments_spec(current).contains(x) && !wanted_gpu_flags().contains(x)
            ==> crate::text::split_whitespace_spec(current).contains(x),
{
    let kept = retain_allowed(crate::text::split_whitespace_spec(current));
    if wanted_gpu_flags().contains(x) {
        lemma_add_missing_contains(kept, wanted_gpu_flags(), x);
    }
    if gpu_arguments_spec(current).contains(x) {
        lemma_add_missing_only(kept, wanted_gpu_flags(), x);
        if kept.contains(x) {
            lemma_retain_allowed_excludes_blocked(crate::text::split_whitespace_spec(current), x);
        } else {
            reveal_strlit("--ignore-gpu-blocklist");
            reveal_strlit("--enable-gpu-rasterization");
            reveal_strlit("--enable-zero-copy");
            reveal_strlit("--disable-gpu");
            reveal_strlit("--disable-gpu-compositing");
            reveal_strlit("--in-process-gpu");
            reveal_strlit("--disable-accelerated-2d-canvas");
            reveal_strlit("--disable-accelerated-video-decode");
            let k = choose|k: int| 0 <= k < wanted_gpu_flags().len() && wanted_gpu_flags()[k] == x;
            assert(k == 0 || k == 1 || k == 2);
            assert(x.len() == 22 || x.len() == 26 || x.len() == 18);
            assert("--disable-gpu"@.len() == 13);
            assert("--disable-gpu-compositing"@.len() == 25);
            assert("--in-process-gpu"@.len() == 16);
            assert("--disable-accelerated-2d-canvas"@.len() == 31);
            assert("--disable-accelerated-video-decode"@.len() == 34);
        }
    }
}


/// Leaving the current mode for `target`: the current mode's pause state is
/// recorded, and the current mode is returned so that its settings are
/// saved. None when `target` is already the current mode (the window is then
/// only shown and focused).
pub fn prepare_mode_switch(mode: &ModeState, s: &mut SettingsState, target: WindowMode) -> (leaving: Option<
    WindowMode,
>)
    ensures
        decode_mode(mode.raw) == target ==> leaving is None && *final(s) == *old(s),
        decode_mode(mode.raw) != target ==> leaving == Some(decode_mode(mode.raw)) && *final(s) == (
        match decode_mode(mode.raw) {
            WindowMode::Normal => SettingsState { normal_lyrics_paused: old(s).lyrics_paused, ..*old(s) },
            WindowMode::Window => SettingsState { window_lyrics_paused: old(s).lyrics_paused, ..*old(s) },
        }),
{
    let current = current_mode(mode);
    if current == target {
        return None;
    }
    let paused = s.lyrics_paused;
    crate::settings::set_lyrics_paused_for_mode(s, current, paused);
    Some(current)
}

/// Entering `target` with its loaded settings: it becomes the current mode,
/// its settings become live, and its pause state becomes the live one.
pub fn finish_mode_switch(mode: &mut ModeState, s: &mut SettingsState, target: WindowMode, loaded: &AppSettings)
    ensures
        final(mode).raw == encode_mode(target),
        *final(s) == (SettingsState {
            lyrics_paused: paused_in(applied_spec(*old(s), *loaded), target),
            ..applied_spec(*old(s), *loaded)
        }),
{
    set_current_mode(mode, target);
    crate::settings::apply_loaded_settings(s, loaded);
    s.lyrics_paused = crate::settings::lyrics_paused_for_mode(s, target);
}

/// Switching to the other mode and back gives the original mode its own
/// pause state again, whatever the other mode did meanwhile.
pub proof fn lemma_mode_switch_round_trip_keeps_pause(
    s0: SettingsState,
    from: WindowMode,
    to: WindowMode,
    loaded_to: AppSettings,
    loaded_back: AppSettings,
    paused_meanwhile: bool,
)
    requires
        from != to,
    ensures
        ({
            let s1 = match from {
                WindowMode::Normal => SettingsState { normal_lyrics_paused: s0.lyrics_paused, ..s0 },
                WindowMode::Window => SettingsState { window_lyrics_paused: s0.lyrics_paused, ..s0 },
            };
            let s2 = SettingsState {
                lyrics_paused: paused_in(applied_spec(s1, loaded_to), to),
                ..applied_spec(s1, loaded_to)
            };
            let s3 = SettingsState { lyrics_paused: paused_meanwhile, ..s2 };
            let s4 = match to {
                WindowMode::Normal => SettingsState { normal_lyrics_paused: s3.lyrics_paused, ..s3 },
                WindowMode::Window => SettingsState { window_lyrics_paused: s3.lyrics_paused, ..s3 },
            };
            let s5 = SettingsState {
                lyrics_paused: paused_in(applied_spec(s4, loaded_back), from),
                ..applied_spec(s4, loaded_back)
            };
            s5.lyrics_paused == s0.lyrics_paused
        }),
{
}

/// Whether a window must navigate to `url`: its current URL is unknown or
/// differs.
pub fn needs_navigation(current_url: Option<&str>, url: &str) -> (b: bool)
    ensures
        b == (match current_url {
            Some(c) => c@ != url@,
            None => true,
        }),
{
    match current_url {
        Some(c) => !str_equal(c, url),
        None => true,
    }
}

/// Startup in overlay mode: the overlay becomes the current mode, its pause
/// state becomes live, and its loaded settings become live with
/// click-through on. Returns the settings as applied.
pub fn begin_startup(mode: &mut ModeState, s: &mut SettingsState, loaded: &AppSettings) -> (applied: AppSettings)
    ensures
        decode_mode(final(mode).raw) == WindowMode::Normal,
        applied == (AppSettings { click_through_enabled: true, ..*loaded }),
        *final(s) == applied_spec(SettingsState { lyrics_paused: old(s).normal_lyrics_paused, ..*old(s) }, applied),
{
    set_current_mode(mode, WindowMode::Normal);
    s.lyrics_paused = crate::settings::lyrics_paused_for_mode(s, WindowMode::Normal);
    let mut applied = *loaded;
    applied.click_through_enabled = true;
    crate::settings::apply_loaded_settings(s, &applied);
    applied
}

/// The welcome page pauses the overlay's lyrics (live too, when the overlay
/// is the current mode).
pub fn pause_normal_window_for_welcome(mode: WindowMode, s: &mut SettingsState)
    ensures
        *final(s) == (if mode == WindowMode::Normal {
            SettingsState { normal_lyrics_paused: true, lyrics_paused: true, ..*old(s) }
        } else {
            SettingsState { normal_lyrics_paused: true, ..*old(s) }
        }),
{
    crate::settings::set_lyrics_paused_for_mode(s, WindowMode::Normal, true);
    if mode == WindowMode::Normal {
        s.lyrics_paused = true;
    }
}

/// After the welcome page, the overlay's pause state from before returns
/// (live too, when the overlay is the current mode).
pub fn restore_normal_pause(mode: WindowMode, s: &mut SettingsState, restore_paused: bool)
    ensures
        *final(s) == (if mode == WindowMode::Normal {
            SettingsState { normal_lyrics_paused: restore_paused, lyrics_paused: restore_paused, ..*old(s) }
        } else {
            SettingsState { normal_lyrics_paused: restore_paused, ..*old(s) }
        }),
{
    crate::settings::set_lyrics_paused_for_mode(s, WindowMode::Normal, restore_paused);
    if mode == WindowMode::Normal {
        s.lyrics_paused = restore_paused;
    }
}

/// Opening and closing the welcome page leaves the overlay's pause state as
/// it was: the value kept when it opened is the one restored.
pub proof fn lemma_welcome_pause_restored(s: SettingsState, mode: WindowMode)
    requires
        mode == WindowMode::Normal ==> s.lyrics_paused == s.normal_lyrics_paused,
    ensures
        ({
            let kept = s.normal_lyrics_paused;
            let paused = if mode == WindowMode::Normal {
                SettingsState { normal_lyrics_paused: true, lyrics_paused: true, ..s }
            } else {
                SettingsState { normal_lyrics_paused: true, ..s }
            };
            let restored = if mode == WindowMode::Normal {
                SettingsState { normal_lyrics_paused: kept, lyrics_paused: kept, ..paused }
            } else {
                SettingsState { normal_lyrics_paused: kept, ..paused }
            };
            restored == s
        }),
{
}

/// Closing the welcome page records that it was seen, live and in the
/// overlay's saved settings.
pub fn mark_welcome_seen(s: &mut SettingsState, normal_settings: &AppSettings) -> (to_save: AppSettings)
    ensures
        *final(s) == (SettingsState { has_seen_welcome: true, ..*old(s) }),
        to_save == (AppSettings { has_seen_welcome: true, ..*normal_settings }),
{
    s.has_seen_welcome = true;
    let mut r = *normal_settings;
    r.has_seen_welcome = true;
    r
}

} // verus!
