//! Endpoint addresses, reachability probes and the connectivity monitor's
//! decisions.

use vstd::prelude::*;
use vstd::string::StringExecFns;
use crate::mode::WindowMode;
use crate::text::{chars_of, decimal, has_prefix, matches_at, occurs_at, push_decimal};

verus! {

/// `http://<ip>:<port><path>`.
pub open spec fn endpoint_url_spec(ip: Seq<char>, port: u16, path: Seq<char>) -> Seq<char> {
    "http://"@ + ip + ":"@ + decimal(port as nat) + path
}

/// The URL of a path on a server.
pub fn endpoint_url(ip: &str, port: u16, path: &str) -> (r: String)
    ensures
        r@ == endpoint_url_spec(ip@, port, path@),
{
    let mut r = String::from_str("http://");
    r.append(ip);
    r.append(":");
    push_decimal(&mut r, port as u64);
    r.append(path);
    r
}

/// The socket address `<ip>:<port>` that a probe connects to.
pub fn probe_address(ip: &str, port: u16) -> (r: String)
    ensures
        r@ == ip@ + ":"@ + decimal(port as nat),
{
    let mut r = String::from_str(ip);
    r.append(":");
    push_decimal(&mut r, port as u64);
    r
}

/// The HTTP/1.0 request that a probe sends.
pub fn probe_request(ip: &str, path: &str) -> (r: String)
    ensures
        r@ == "GET "@ + path@ + " HTTP/1.0\r\nHost: "@ + ip@ + "\r\nConnection: close\r\n\r\n"@,
{
    let mut r = String::from_str("GET ");
    r.append(path);
    r.append(" HTTP/1.0\r\nHost: ");
    r.append(ip);
    r.append("\r\nConnection: close\r\n\r\n");
    r
}

/// `i` is the index of the first space of `s`.
pub open spec fn is_first_space(s: Seq<char>, i: int) -> bool {
    &&& 0 <= i < s.len()
    &&& s[i] == ' '
    &&& forall|j: int| 0 <= j < i ==> s[j] != ' '
}

/// The response is an HTTP response with status 200: it starts with `HTTP/`,
/// and the token after the first space of its status line is `200`, ended
/// by a space, a carriage return or the end of what was read.
pub open spec fn is_ok_response_spec(head: Seq<char>) -> bool {
    &&& has_prefix(head, "HTTP/"@)
    &&& exists|i: int|
        #[trigger] is_first_space(head, i) && occurs_at(head, "200"@, i + 1) && (i + 4 == head.len()
            || head[i + 4] == ' ' || head[i + 4] == '\r')
}

/// Whether the start of a probe's response is an HTTP response with status
/// 200.
pub fn is_ok_response(head: &str) -> (b: bool)
    ensures
        b == is_ok_response_spec(head@),
{
    let v = chars_of(head);
    let prefix = chars_of("HTTP/");
    if !matches_at(&v, &prefix, 0) {
        return false;
    }
    let mut i: usize = 0;
    while i < v.len() && v[i] != ' '
        invariant
            v@ == head@,
            i <= v.len(),
            forall|j: int| 0 <= j < i ==> v@[j] != ' ',
        decreases v.len() - i,
    {
        i = i + 1;
    }
    if i == v.len() {
        assert(forall|k: int| !#[trigger] is_first_space(head@, k));
        return false;
    }
    assert(is_first_space(head@, i as int));
    assert forall|k: int| #[trigger] is_first_space(head@, k) implies k == i by {
        if k < i {
            assert(v@[k] != ' ');
        } else if k > i {
            assert(head@[i as int] != ' ');
        }
    }
    let status = chars_of("200");
    proof {
        reveal_strlit("200");
    }
    matches_at(&v, &status, i + 1) && (i + 4 == v.len() || v[i + 4] == ' ' || v[i + 4] == '\r')
}

/// The lyrics URL to use: the primary server when it answers, else the
/// fallback when there is one and it answers, else none.
pub open spec fn working_url_spec(
    primary_ip: Seq<char>,
    fallback_ip: Option<Seq<char>>,
    port: u16,
    path: Seq<char>,
    primary_reachable: bool,
    fallback_reachable: bool,
) -> Option<Seq<char>> {
    if primary_reachable {
        Some(endpoint_url_spec(primary_ip, port, path))
    } else {
        match fallback_ip {
            Some(fb) => if fallback_reachable {
                Some(endpoint_url_spec(fb, port, path))
            } else {
                None
            },
            None => None,
        }
    }
}

/// Optional string by its view.
pub open spec fn opt_view(o: Option<String>) -> Option<Seq<char>> {
    match o {
        Some(s) => Some(s@),
        None => None,
    }
}

/// The working URL of a server with an optional fallback, given whether
/// each answered its probe (the fallback's answer is read only when the
/// primary did not answer).
pub fn get_working_url(
    primary_ip: &str,
    fallback_ip: Option<&str>,
    port: u16,
    path: &str,
    primary_reachable: bool,
    fallback_reachable: bool,
) -> (r: Option<String>)
    ensures
        opt_view(r) == working_url_spec(
            primary_ip@,
            crate::runtime::opt_str_view(fallback_ip),
            port,
            path@,
            primary_reachable,
            fallback_reachable,
        ),
{
    if primary_reachable {
        return Some(endpoint_url(primary_ip, port, path));
    }
    if let Some(fb) = fallback_ip {
        if fallback_reachable {
            return Some(endpoint_url(fb, port, path));
        }
    }
    None
}

/// What the connectivity monitor does to the active window in one round.
#[derive(Clone, Copy, Debug, PartialEq, Eq, Structural)]
pub enum ConnectivityAction {
    /// Nothing this round (welcome page shown, or no active window).
    Skip,
    /// Nothing changes.
    Nothing,
    /// Navigate to the new lyrics URL and show the window.
    NavigateAndShow,
    /// The server answers again at the same URL: show the window.
    Show,
    /// The server stopped answering: hide the window.
    Hide,
}

/// What the monitor remembers between rounds.
pub struct ConnectivityState {
    pub last_lyrics_url: Option<String>,
    pub was_reachable: bool,
}

impl ConnectivityState {
    /// The state after startup navigated to `initial_lyrics_url`.
    pub fn new(initial_lyrics_url: Option<String>) -> (s: Self)
        ensures
            s.last_lyrics_url == initial_lyrics_url,
            s.was_reachable == initial_lyrics_url is Some,
    {
        let was = initial_lyrics_url.is_some();
        ConnectivityState { last_lyrics_url: initial_lyrics_url, was_reachable: was }
    }
}

/// One round of the connectivity monitor. On a round that is not skipped,
/// the action follows the change of the working URL: a new URL is navigated
/// to and shown, a URL that answers again is shown, a lost server is hidden;
/// blur is re-applied whenever the server answers.
pub open spec fn connectivity_step_spec(
    last: Option<Seq<char>>,
    was_reachable: bool,
    skip: bool,
    current: Option<Seq<char>>,
) -> ConnectivityAction {
    if skip {
        ConnectivityAction::Skip
    } else {
        match current {
            Some(url) => if last != Some(url) {
                ConnectivityAction::NavigateAndShow
            } else if !was_reachable {
                ConnectivityAction::Show
            } else {
                ConnectivityAction::Nothing
            },
            None => if was_reachable {
                ConnectivityAction::Hide
            } else {
                ConnectivityAction::Nothing
            },
        }
    }
}

/// One round of the monitor: `skip` when the overlay shows the welcome page
/// or there is no active window; `current_url` is the working lyrics URL.
pub fn connectivity_step(
    state: &mut ConnectivityState,
    mode: WindowMode,
    welcome_mode_active: bool,
    has_active_window: bool,
    current_url: Option<String>,
) -> (a: ConnectivityAction)
    ensures
        a == connectivity_step_spec(
            opt_view(old(state).last_lyrics_url),
            old(state).was_reachable,
            (mode == WindowMode::Normal && welcome_mode_active) || !has_active_window,
            opt_view(current_url),
        ),
        a == ConnectivityAction::Skip ==> final(state).last_lyrics_url == old(state).last_lyrics_url
            && final(state).was_reachable == old(state).was_reachable,
        a != ConnectivityAction::Skip ==> final(state).last_lyrics_url == current_url
            && final(state).was_reachable == current_url is Some,
{
    if (mode == WindowMode::Normal && welcome_mode_active) || !has_active_window {
        return ConnectivityAction::Skip;
    }
    let action = match &current_url {
        Some(url) => {
            let changed = match &state.last_lyrics_url {
                Some(last) => *last != *url,
                None => true,
            };
            if changed {
                ConnectivityAction::NavigateAndShow
            } else if !state.was_reachable {
                ConnectivityAction::Show
            } else {
                ConnectivityAction::Nothing
            }
        },
        None => if state.was_reachable {
            ConnectivityAction::Hide
        } else {
            ConnectivityAction::Nothing
        },
    };
    state.was_reachable = current_url.is_some();
    state.last_lyrics_url = current_url;
    action
}

/// The monitor follows the working lyrics URL: on a round that is not
/// skipped, a working URL other than the remembered one (the server came
/// online, or it answers at another address) is navigated to and shown; the
/// same URL is shown again only when it had been lost; a lost server is
/// hidden once. A skipped round does nothing.
pub proof fn lemma_connectivity_follows_working_url(
    last: Option<Seq<char>>,
    was_reachable: bool,
    current: Option<Seq<char>>,
)
    ensures
        connectivity_step_spec(last, was_reachable, true, current) == ConnectivityAction::Skip,
        current matches Some(u) && last != Some(u) ==> connectivity_step_spec(
            last,
            was_reachable,
            false,
            current,
        ) == ConnectivityAction::NavigateAndShow,
        current matches Some(u) && last == Some(u) && was_reachable ==> connectivity_step_spec(
            last,
            was_reachable,
            false,
            current,
        ) == ConnectivityAction::Nothing,
        current matches Some(u) && last == Some(u) && !was_reachable ==> connectivity_step_spec(
            last,
            was_reachable,
            false,
            current,
        ) == ConnectivityAction::Show,
        current is None && was_reachable ==> connectivity_step_spec(last, was_reachable, false, current)
            == ConnectivityAction::Hide,
        current is None && !was_reachable ==> connectivity_step_spec(
            last,
            was_reachable,
            false,
            current,
        ) == ConnectivityAction::Nothing,
{
}

} // verus!
