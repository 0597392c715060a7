//! The server updater: release selection, the cached release record, the
//! updater's state machine and its tray entry.

use vstd::prelude::*;
use sha2::Digest;
use vstd::string::{StrSliceExecFns, StringExecFns};
use crate::text::{
    chars_of, contains, decimal, ends_with, eq_ignore_ascii_case, has_prefix, has_substring,
    has_suffix, lower_seq, push_decimal, string_from_range, strip_prefix, to_ascii_lowercase, trim,
    trim_spec,
};
use crate::runtime::Variant;

verus! {

/// Seconds after which a cached release record is stale (seven days).
pub const RELEASE_CACHE_TTL_SECS: u64 = 604800;

/// How the server executable is shipped in a release.
#[derive(Clone, Copy, Debug, PartialEq, Eq, Structural)]
pub enum ReleaseAssetKind {
    Archive7z,
    Executable,
}

/// The asset kind as it is written in the cached release record.
#[derive(Clone, Copy, Debug, PartialEq, Eq, Structural)]
pub enum PersistedReleaseAssetKind {
    Archive7z,
    Executable,
}

/// File extension that an asset of this kind carries.
pub open spec fn extension_label_spec(kind: ReleaseAssetKind) -> Seq<char> {
    match kind {
        ReleaseAssetKind::Archive7z => ".7z"@,
        ReleaseAssetKind::Executable => ".exe"@,
    }
}

impl ReleaseAssetKind {
    /// The file extension of this kind of asset.
    pub fn extension_label(self) -> (r: &'static str)
        ensures
            r@ == extension_label_spec(self),
    {
        match self {
            ReleaseAssetKind::Archive7z => ".7z",
            ReleaseAssetKind::Executable => ".exe",
        }
    }
}

/// One downloadable file of a GitHub release.
#[derive(Debug)]
pub struct GitHubReleaseAsset {
    pub name: String,
    pub browser_download_url: String,
    pub digest: Option<String>,
}

/// A release asset by the characters of its fields.
pub struct AssetView {
    pub name: Seq<char>,
    pub url: Seq<char>,
    pub digest: Option<Seq<char>>,
}

/// Optional string by its view.
pub open spec fn opt_string_view(o: Option<String>) -> Option<Seq<char>> {
    match o {
        Some(s) => Some(s@),
        None => None,
    }
}

impl View for GitHubReleaseAsset {
    type V = AssetView;

    open spec fn view(&self) -> AssetView {
        AssetView {
            name: self.name@,
            url: self.browser_download_url@,
            digest: opt_string_view(self.digest),
        }
    }
}

/// The latest-release record that the GitHub API returns.
#[derive(Debug)]
pub struct GitHubReleaseResponse {
    pub tag_name: String,
    pub draft: bool,
    pub prerelease: bool,
    pub assets: Vec<GitHubReleaseAsset>,
}

/// The assets of a release, each by its view.
pub open spec fn assets_view(assets: Seq<GitHubReleaseAsset>) -> Seq<AssetView> {
    assets.map_values(|a: GitHubReleaseAsset| a@)
}

/// A release chosen for installation.
#[derive(Debug)]
pub struct ResolvedServerRelease {
    pub tag: String,
    pub url: String,
    pub sha256: String,
    pub asset_name: String,
    pub exe_name: String,
    pub asset_kind: ReleaseAssetKind,
}

/// A chosen release by the characters of its fields.
pub struct ReleaseView {
    pub tag: Seq<char>,
    pub url: Seq<char>,
    pub sha256: Seq<char>,
    pub asset_name: Seq<char>,
    pub exe_name: Seq<char>,
    pub asset_kind: ReleaseAssetKind,
}

impl View for ResolvedServerRelease {
    type V = ReleaseView;

    open spec fn view(&self) -> ReleaseView {
        ReleaseView {
            tag: self.tag@,
            url: self.url@,
            sha256: self.sha256@,
            asset_name: self.asset_name@,
            exe_name: self.exe_name@,
            asset_kind: self.asset_kind,
        }
    }
}

/// Where the updater looks for releases and which executable it manages.
#[derive(Debug)]
pub struct UpdateContext {
    pub owner: String,
    pub repo: String,
    pub exe_relative: String,
    pub asset_kind: ReleaseAssetKind,
}

// ---------------------------------------------------------------------------
// Asset selection
// ---------------------------------------------------------------------------

/// An asset fits the expected kind: it has a download URL, and it is a `.7z`
/// archive (any name) or the expected executable (names compared without
/// regard to ASCII case).
pub open spec fn asset_matches_spec(asset: AssetView, kind: ReleaseAssetKind, expected: Seq<char>) -> bool {
    &&& trim_spec(asset.url).len() > 0
    &&& match kind {
        ReleaseAssetKind::Archive7z => has_suffix(lower_seq(asset.name), ".7z"@),
        ReleaseAssetKind::Executable => lower_seq(asset.name) == lower_seq(expected),
    }
}

/// Whether `asset` is the server asset of the given kind.
pub fn asset_matches(asset: &GitHubReleaseAsset, asset_kind: ReleaseAssetKind, expected_name: &str) -> (b: bool)
    ensures
        b == asset_matches_spec(asset@, asset_kind, expected_name@),
{
    let lower_name = to_ascii_lowercase(asset.name.as_str());
    let expected = to_ascii_lowercase(expected_name);
    let url = trim(asset.browser_download_url.as_str());
    let has_url = url.unicode_len() != 0;
    has_url && match asset_kind {
        ReleaseAssetKind::Archive7z => ends_with(lower_name.as_str(), ".7z"),
        ReleaseAssetKind::Executable => lower_name == expected,
    }
}

/// The hex digest in a GitHub asset digest of the form `sha256:<hex>`.
pub fn parse_github_digest(digest: &str) -> (r: Option<String>)
    ensures
        r is Some <==> has_prefix(digest@, "sha256:"@),
        r matches Some(d) ==> d@ == digest@.subrange("sha256:"@.len() as int, digest@.len() as int),
{
    strip_prefix(digest, "sha256:")
}

/// A release tag without surrounding whitespace.
pub fn normalize_release_tag(tag_name: &str) -> (r: String)
    ensures
        r@ == trim_spec(tag_name@),
{
    trim(tag_name)
}

/// A path separator, `/` or `\`.
pub open spec fn is_path_sep(c: char) -> bool {
    c == '/' || c == '\\'
}

/// A separator of a path: `\` only after a verbatim (`\\?\`) prefix, else `/`
/// or `\`.
pub open spec fn is_sep_in(c: char, verbatim: bool) -> bool {
    c == '\\' || (!verbatim && c == '/')
}

/// An ASCII letter, which names a drive.
pub open spec fn is_ascii_letter(c: char) -> bool {
    ('A' <= c && c <= 'Z') || ('a' <= c && c <= 'z')
}

/// Index of the first separator of `p` at or after `i`, or the length of `p`.
pub open spec fn next_sep(p: Seq<char>, i: int, verbatim: bool) -> int
    decreases p.len() - i,
{
    if i >= p.len() {
        p.len() as int
    } else if is_sep_in(p[i], verbatim) {
        i
    } else {
        next_sep(p, i + 1, verbatim)
    }
}

/// The Windows prefix of a path: its length and whether it is verbatim.
/// The forms are `\\?\UNC\server\share`, `\\?\C:`, `\\?\name`, `\\.\device`,
/// `\\server\share` and `C:`; anything else has no prefix.
pub open spec fn path_prefix_spec(p: Seq<char>) -> (int, bool) {
    if p.len() >= 4 && p[0] == '\\' && p[1] == '\\' && p[2] == '?' && p[3] == '\\' {
        if p.len() >= 8 && p[4] == 'U' && p[5] == 'N' && p[6] == 'C' && is_path_sep(p[7]) {
            let s_end = next_sep(p, 8, true);
            if s_end < p.len() && next_sep(p, s_end + 1, true) > s_end + 1 {
                (next_sep(p, s_end + 1, true), true)
            } else {
                (s_end, true)
            }
        } else if p.len() >= 6 && is_ascii_letter(p[4]) && p[5] == ':' && (p.len() == 6
            || is_path_sep(p[6])) {
            (6, true)
        } else {
            (next_sep(p, 4, true), true)
        }
    } else if p.len() >= 4 && is_path_sep(p[0]) && is_path_sep(p[1]) && p[2] == '.' && is_path_sep(
        p[3],
    ) {
        (next_sep(p, 4, false), false)
    } else if p.len() >= 2 && is_path_sep(p[0]) && is_path_sep(p[1]) {
        let s_end = next_sep(p, 2, false);
        if s_end > 2 && s_end < p.len() && next_sep(p, s_end + 1, false) > s_end + 1 {
            (next_sep(p, s_end + 1, false), false)
        } else {
            (0, false)
        }
    } else if p.len() >= 2 && is_ascii_letter(p[0]) && p[1] == ':' {
        (2, false)
    } else {
        (0, false)
    }
}

/// `p` without trailing separators and, outside verbatim paths, trailing `.`
/// components.
pub open spec fn trim_path_tail(p: Seq<char>, verbatim: bool) -> Seq<char>
    decreases p.len(),
{
    if p.len() == 0 {
        p
    } else if is_sep_in(p.last(), verbatim) {
        trim_path_tail(p.drop_last(), verbatim)
    } else if !verbatim && p.last() == '.' && (p.len() == 1 || is_sep_in(p[p.len() - 2], verbatim)) {
        trim_path_tail(p.drop_last(), verbatim)
    } else {
        p
    }
}

/// The characters after the last separator of `p`.
pub open spec fn last_segment(p: Seq<char>, verbatim: bool) -> Seq<char>
    decreases p.len(),
{
    if p.len() == 0 || is_sep_in(p.last(), verbatim) {
        Seq::empty()
    } else {
        last_segment(p.drop_last(), verbatim).push(p.last())
    }
}

/// `Path::file_name` on Windows: the final component of the path after its
/// prefix, ignoring trailing separators and `.` components; none when that
/// component is empty, `.` or `..`.
pub open spec fn path_file_name(p: Seq<char>) -> Option<Seq<char>> {
    let (n, verbatim) = path_prefix_spec(p);
    let seg = last_segment(trim_path_tail(p.subrange(n, p.len() as int), verbatim), verbatim);
    if seg.len() == 0 || seg == seq!['.', '.'] || seg == seq!['.'] {
        None
    } else {
        Some(seg)
    }
}

/// Whether `v[i]` separates path components.
fn sep_at(v: &Vec<char>, i: usize, verbatim: bool) -> (b: bool)
    requires
        i < v.len(),
    ensures
        b == is_sep_in(v@[i as int], verbatim),
{
    v[i] == '\\' || (!verbatim && v[i] == '/')
}

/// Whether `v[i]` is `/` or `\`.
fn any_sep_at(v: &Vec<char>, i: usize) -> (b: bool)
    requires
        i < v.len(),
    ensures
        b == is_path_sep(v@[i as int]),
{
    v[i] == '/' || v[i] == '\\'
}

/// Whether `v[i]` is an ASCII letter.
fn letter_at(v: &Vec<char>, i: usize) -> (b: bool)
    requires
        i < v.len(),
    ensures
        b == is_ascii_letter(v@[i as int]),
{
    ('A' <= v[i] && v[i] <= 'Z') || ('a' <= v[i] && v[i] <= 'z')
}

/// Index of the first separator at or after `from`.
fn find_sep(v: &Vec<char>, from: usize, verbatim: bool) -> (r: usize)
    requires
        from <= v.len(),
    ensures
        r as int == next_sep(v@, from as int, verbatim),
        from <= r <= v.len(),
{
    let mut i: usize = from;
    while i < v.len() && !sep_at(v, i, verbatim)
        invariant
            from <= i <= v.len(),
            next_sep(v@, from as int, verbatim) == next_sep(v@, i as int, verbatim),
        decreases v.len() - i,
    {
        i = i + 1;
    }
    i
}

/// The length of the path's Windows prefix and whether it is verbatim.
fn path_prefix(v: &Vec<char>) -> (r: (usize, bool))
    ensures
        (r.0 as int, r.1) == path_prefix_spec(v@),
        r.0 <= v.len(),
{
    let n = v.len();
    if n >= 4 && v[0] == '\\' && v[1] == '\\' && v[2] == '?' && v[3] == '\\' {
        if n >= 8 && v[4] == 'U' && v[5] == 'N' && v[6] == 'C' && any_sep_at(v, 7) {
            let s_end = find_sep(v, 8, true);
            if s_end < n {
                let sh_end = find_sep(v, s_end + 1, true);
                if sh_end > s_end + 1 {
                    return (sh_end, true);
                }
            }
            (s_end, true)
        } else if n >= 6 && letter_at(v, 4) && v[5] == ':' && (n == 6 || any_sep_at(v, 6)) {
            (6, true)
        } else {
            (find_sep(v, 4, true), true)
        }
    } else if n >= 4 && any_sep_at(v, 0) && any_sep_at(v, 1) && v[2] == '.' && any_sep_at(v, 3) {
        (find_sep(v, 4, false), false)
    } else if n >= 2 && any_sep_at(v, 0) && any_sep_at(v, 1) {
        let s_end = find_sep(v, 2, false);
        if s_end > 2 && s_end < n {
            let sh_end = find_sep(v, s_end + 1, false);
            if sh_end > s_end + 1 {
                return (sh_end, false);
            }
        }
        (0, false)
    } else if n >= 2 && letter_at(v, 0) && v[1] == ':' {
        (2, false)
    } else {
        (0, false)
    }
}

/// The final component of a path, as `Path::file_name` gives it on Windows.
pub fn exe_file_name(path: &str) -> (r: Option<String>)
    ensures
        opt_string_view(r) == path_file_name(path@),
{
    let v = chars_of(path);
    let (n, verbatim) = path_prefix(&v);
    let ghost body = v@.subrange(n as int, v.len() as int);
    let mut j: usize = v.len();
    while j > n && (sep_at(&v, j - 1, verbatim) || (!verbatim && v[j - 1] == '.' && (j - 1 == n
        || sep_at(&v, j - 2, verbatim))))
        invariant
            v@ == path@,
            n <= j <= v.len(),
            body == v@.subrange(n as int, v.len() as int),
            trim_path_tail(body, verbatim) == trim_path_tail(v@.subrange(n as int, j as int), verbatim),
        decreases j,
    {
        let ghost b = v@.subrange(n as int, j as int);
        assert(b.drop_last() =~= v@.subrange(n as int, j - 1));
        assert(b.last() == v@[j - 1]);
        assert(b.len() >= 2 ==> b[b.len() - 2] == v@[j - 2]);
        j = j - 1;
    }
    proof {
        let b = v@.subrange(n as int, j as int);
        if b.len() > 0 {
            assert(b.last() == v@[j - 1]);
            assert(b.len() >= 2 ==> b[b.len() - 2] == v@[j - 2]);
        }
    }
    assert(trim_path_tail(body, verbatim) == v@.subrange(n as int, j as int));
    let mut k: usize = j;
    assert(v@.subrange(k as int, j as int) =~= Seq::<char>::empty());
    assert(last_segment(v@.subrange(n as int, j as int), verbatim) =~= last_segment(
        v@.subrange(n as int, k as int),
        verbatim,
    ) + v@.subrange(k as int, j as int));
    while k > n && !sep_at(&v, k - 1, verbatim)
        invariant
            v@ == path@,
            n <= k <= j <= v.len(),
            last_segment(v@.subrange(n as int, j as int), verbatim) == last_segment(
                v@.subrange(n as int, k as int),
                verbatim,
            ) + v@.subrange(k as int, j as int),
        decreases k,
    {
        let ghost b = v@.subrange(n as int, k as int);
        assert(b.drop_last() =~= v@.subrange(n as int, k - 1));
        assert(b.last() == v@[k - 1]);
        assert(v@.subrange(k - 1, j as int) =~= seq![v@[k - 1]] + v@.subrange(k as int, j as int));
        k = k - 1;
    }
    proof {
        let b = v@.subrange(n as int, k as int);
        if b.len() > 0 {
            assert(b.last() == v@[k - 1]);
        }
    }
    assert(last_segment(v@.subrange(n as int, k as int), verbatim) =~= Seq::<char>::empty());
    assert(last_segment(v@.subrange(n as int, j as int), verbatim) =~= v@.subrange(k as int, j as int));
    let ghost seg = v@.subrange(k as int, j as int);
    if j == k || (j - k == 2 && v[k] == '.' && v[k + 1] == '.') || (j - k == 1 && v[k] == '.') {
        assert(j - k == 2 && v[k as int] == '.' && v[k + 1] == '.' ==> seg =~= seq!['.', '.']);
        assert(j - k == 1 && v[k as int] == '.' ==> seg =~= seq!['.']);
        None
    } else {
        assert(seg == seq!['.', '.'] ==> v@[k as int] == '.' && v@[k + 1] == '.');
        assert(seg == seq!['.'] ==> v@[k as int] == '.') by {
            if seg == seq!['.'] {
                assert(seg[0] == seq!['.'][0]);
            }
        }
        Some(string_from_range(&v, k, j))
    }
}


/// The first asset, from index `i` on, that fits the expected kind.
pub open spec fn first_match_from(
    assets: Seq<AssetView>,
    kind: ReleaseAssetKind,
    expected: Seq<char>,
    i: nat,
) -> Option<nat>
    decreases assets.len() - i,
{
    if i >= assets.len() {
        None
    } else if asset_matches_spec(assets[i as int], kind, expected) {
        Some(i)
    } else {
        first_match_from(assets, kind, expected, i + 1)
    }
}

/// An update context by the characters of its fields.
pub struct ContextView {
    pub owner: Seq<char>,
    pub repo: Seq<char>,
    pub exe_relative: Seq<char>,
    pub asset_kind: ReleaseAssetKind,
}

impl View for UpdateContext {
    type V = ContextView;

    open spec fn view(&self) -> ContextView {
        ContextView {
            owner: self.owner@,
            repo: self.repo@,
            exe_relative: self.exe_relative@,
            asset_kind: self.asset_kind,
        }
    }
}

/// The release chosen from a latest-release record, or the error message.
pub open spec fn resolve_spec(
    ctx: ContextView,
    tag_name: Seq<char>,
    draft: bool,
    prerelease: bool,
    assets: Seq<AssetView>,
) -> Result<ReleaseView, Seq<char>> {
    if draft || prerelease {
        Err("Latest GitHub release is a draft or prerelease"@)
    } else {
        match path_file_name(ctx.exe_relative) {
            None => Err("Failed to resolve server executable name"@),
            Some(expected) => match first_match_from(assets, ctx.asset_kind, expected, 0) {
                None => Err(
                    "No matching "@ + extension_label_spec(ctx.asset_kind)
                        + " server asset found in the latest release"@,
                ),
                Some(i) => {
                    let asset = assets[i as int];
                    match asset.digest {
                        Some(d) if has_prefix(d, "sha256:"@) => Ok(
                            ReleaseView {
                                tag: trim_spec(tag_name),
                                url: asset.url,
                                sha256: d.subrange("sha256:"@.len() as int, d.len() as int),
                                asset_name: asset.name,
                                exe_name: expected,
                                asset_kind: ctx.asset_kind,
                            },
                        ),
                        _ => Err("Release asset is missing a sha256 digest"@),
                    }
                },
            },
        }
    }
}

/// A chosen release or error, by views.
pub open spec fn resolved_view(r: Result<ResolvedServerRelease, String>) -> Result<ReleaseView, Seq<char>> {
    match r {
        Ok(rel) => Ok(rel@),
        Err(e) => Err(e@),
    }
}

/// Chooses the server asset of the latest release: the release must be final,
/// the asset is the first one that fits the context's kind, and it must carry
/// a `sha256:` digest.
pub fn resolve_release_asset(context: &UpdateContext, release: GitHubReleaseResponse) -> (r: Result<
    ResolvedServerRelease,
    String,
>)
    ensures
        resolved_view(r) == resolve_spec(
            context@,
            release.tag_name@,
            release.draft,
            release.prerelease,
            assets_view(release.assets@),
        ),
{
    if release.draft || release.prerelease {
        return Err(String::from_str("Latest GitHub release is a draft or prerelease"));
    }
    let expected_name = match exe_file_name(context.exe_relative.as_str()) {
        Some(name) => name,
        None => {
            return Err(String::from_str("Failed to resolve server executable name"));
        },
    };
    let tag = normalize_release_tag(release.tag_name.as_str());
    let ghost av = assets_view(release.assets@);
    let mut i: usize = 0;
    let mut found: Option<usize> = None;
    while i < release.assets.len()
        invariant_except_break
            found is None,
        invariant
            av == assets_view(release.assets@),
            av.len() == release.assets@.len(),
            i <= release.assets.len(),
            first_match_from(av, context.asset_kind, expected_name@, 0) == first_match_from(
                av,
                context.asset_kind,
                expected_name@,
                i as nat,
            ),
        ensures
            found matches Some(k) ==> k < av.len() && first_match_from(
                av,
                context.asset_kind,
                expected_name@,
                0,
            ) == Some(k as nat),
            found is None ==> first_match_from(av, context.asset_kind, expected_name@, 0) is None,
        decreases release.assets.len() - i,
    {
        assert(av[i as int] == release.assets@[i as int]@);
        if asset_matches(&release.assets[i], context.asset_kind, expected_name.as_str()) {
            found = Some(i);
            break;
        }
        i = i + 1;
    }
    let idx = match found {
        Some(idx) => idx,
        None => {
            let mut msg = String::from_str("No matching ");
            msg.append(context.asset_kind.extension_label());
            msg.append(" server asset found in the latest release");
            return Err(msg);
        },
    };
    assert(first_match_from(av, context.asset_kind, expected_name@, 0) == Some(idx as nat));
    let asset = &release.assets[idx];
    let digest = match &asset.digest {
        Some(d) => parse_github_digest(d.as_str()),
        None => None,
    };
    match digest {
        Some(d) => Ok(
            ResolvedServerRelease {
                tag,
                url: asset.browser_download_url.clone(),
                sha256: d,
                asset_name: asset.name.clone(),
                exe_name: expected_name,
                asset_kind: context.asset_kind,
            },
        ),
        None => Err(String::from_str("Release asset is missing a sha256 digest")),
    }
}

/// The update context of a build: the standalone build installs the server
/// from a `.7z` archive, the YTM build from a bare executable, and the
/// serverless build (or a build with no managed executable) has none.
pub fn configure_context(variant: Variant, exe_relative: Option<&str>, owner: &str, repo: &str) -> (r:
    Option<UpdateContext>)
    ensures
        r is Some <==> (exe_relative is Some && variant != Variant::Serverless),
        r matches Some(c) ==> {
            &&& c.owner@ == owner@
            &&& c.repo@ == repo@
            &&& c.exe_relative@ == exe_relative.unwrap()@
            &&& c.asset_kind == (if variant == Variant::Standalone {
                ReleaseAssetKind::Archive7z
            } else {
                ReleaseAssetKind::Executable
            })
        },
{
    let exe_relative = match exe_relative {
        Some(e) => e,
        None => {
            return None;
        },
    };
    let asset_kind = match variant {
        Variant::Standalone => ReleaseAssetKind::Archive7z,
        Variant::Ytm => ReleaseAssetKind::Executable,
        Variant::Serverless => {
            return None;
        },
    };
    Some(
        UpdateContext {
            owner: String::from_str(owner),
            repo: String::from_str(repo),
            exe_relative: String::from_str(exe_relative),
            asset_kind,
        },
    )
}


// ---------------------------------------------------------------------------
// The updater's state machine and its tray entry
// ---------------------------------------------------------------------------

/// What the updater is doing.
#[derive(Clone, Copy, Debug, PartialEq, Eq, Structural)]
pub enum ServerUpdateState {
    Idle,
    ResolvingLatest,
    Downloading,
    Installing,
    Failed,
}

/// The updater's shared state: its context (none when the build manages no
/// server), its current phase, the latest known release and the tag of the
/// installed server.
pub struct UpdaterState {
    pub context: Option<UpdateContext>,
    pub state: ServerUpdateState,
    pub latest_release: Option<ResolvedServerRelease>,
    pub installed_tag: Option<String>,
}

/// Tag of the latest known release.
pub open spec fn latest_tag_spec(u: &UpdaterState) -> Option<Seq<char>> {
    match u.latest_release {
        Some(r) => Some(r.tag@),
        None => None,
    }
}

/// Tag of the installed server.
pub open spec fn installed_tag_spec(u: &UpdaterState) -> Option<Seq<char>> {
    opt_string_view(u.installed_tag)
}

/// A release newer than the installed one is known: a latest release exists
/// and its tag differs from the installed tag (or nothing is installed).
pub open spec fn has_newer_spec(installed: Option<Seq<char>>, latest: Option<Seq<char>>) -> bool {
    match (installed, latest) {
        (_, None) => false,
        (None, Some(_)) => true,
        (Some(i), Some(l)) => i != l,
    }
}

/// Text of the tray entry while the updater is idle.
pub open spec fn idle_text_spec(installed: Option<Seq<char>>, latest: Option<Seq<char>>) -> Seq<char> {
    match (installed, latest) {
        (Some(i), Some(l)) => if i == l {
            "Server "@ + l
        } else {
            "Update server to "@ + l
        },
        (None, Some(l)) => "Update server to "@ + l,
        (Some(i), None) => "Server "@ + i,
        (None, None) => "Server version unknown"@,
    }
}

/// Whether the idle tray entry can be clicked.
pub open spec fn idle_enabled_spec(installed: Option<Seq<char>>, latest: Option<Seq<char>>) -> bool {
    match (installed, latest) {
        (Some(i), Some(l)) => i != l,
        (None, Some(_)) => true,
        (_, None) => false,
    }
}

/// ` (<tag>)` for the latest known tag, else for the installed tag, else empty.
pub open spec fn tag_suffix_spec(installed: Option<Seq<char>>, latest: Option<Seq<char>>) -> Seq<char> {
    match latest {
        Some(l) => " ("@ + l + ")"@,
        None => match installed {
            Some(i) => " ("@ + i + ")"@,
            None => Seq::empty(),
        },
    }
}

/// The tray entry of the updater: its text and whether it can be clicked;
/// none when the build manages no server.
pub open spec fn descriptor_spec(u: &UpdaterState) -> Option<(Seq<char>, bool)> {
    let i = installed_tag_spec(u);
    let l = latest_tag_spec(u);
    if u.context is None {
        None
    } else {
        match u.state {
            ServerUpdateState::Idle => Some((idle_text_spec(i, l), idle_enabled_spec(i, l))),
            ServerUpdateState::ResolvingLatest => Some(("Resolving latest server release..."@, false)),
            ServerUpdateState::Downloading => Some(
                ("Downloading server"@ + tag_suffix_spec(i, l) + "..."@, false),
            ),
            ServerUpdateState::Installing => Some(
                ("Installing server"@ + tag_suffix_spec(i, l) + "..."@, false),
            ),
            ServerUpdateState::Failed => Some(
                ("Retry latest server download"@ + tag_suffix_spec(i, l), true),
            ),
        }
    }
}

/// A click on the tray entry starts a server update: when idle with a newer
/// release known, or after a failure.
pub open spec fn tray_action_spec(u: &UpdaterState) -> bool {
    match u.state {
        ServerUpdateState::Idle => has_newer_spec(installed_tag_spec(u), latest_tag_spec(u)),
        ServerUpdateState::Failed => true,
        _ => false,
    }
}

/// Copy of an optional string.
fn clone_opt_string(o: &Option<String>) -> (r: Option<String>)
    ensures
        opt_string_view(r) == opt_string_view(*o),
{
    match o {
        Some(s) => Some(s.clone()),
        None => None,
    }
}

impl UpdateContext {
    /// A copy of this context.
    pub fn duplicate(&self) -> (r: UpdateContext)
        ensures
            r@ == self@,
    {
        UpdateContext {
            owner: self.owner.clone(),
            repo: self.repo.clone(),
            exe_relative: self.exe_relative.clone(),
            asset_kind: self.asset_kind,
        }
    }
}

impl ResolvedServerRelease {
    /// A copy of this release.
    pub fn duplicate(&self) -> (r: ResolvedServerRelease)
        ensures
            r@ == self@,
    {
        ResolvedServerRelease {
            tag: self.tag.clone(),
            url: self.url.clone(),
            sha256: self.sha256.clone(),
            asset_name: self.asset_name.clone(),
            exe_name: self.exe_name.clone(),
            asset_kind: self.asset_kind,
        }
    }
}

impl UpdaterState {
    /// An idle updater with the given context and nothing cached.
    pub fn new(context: Option<UpdateContext>) -> (u: Self)
        ensures
            u.context == context,
            u.state == ServerUpdateState::Idle,
            u.latest_release is None,
            u.installed_tag is None,
    {
        UpdaterState { context, state: ServerUpdateState::Idle, latest_release: None, installed_tag: None }
    }
}

/// The updater's current phase.
pub fn current_update_state(u: &UpdaterState) -> (s: ServerUpdateState)
    ensures
        s == u.state,
{
    u.state
}

/// The updater's context, or the error that the build manages no server.
pub fn update_context(u: &UpdaterState) -> (r: Result<UpdateContext, String>)
    ensures
        r is Ok <==> u.context is Some,
        r matches Ok(c) ==> c@ == u.context.unwrap()@,
        r matches Err(e) ==> e@ == "Standalone server download is not configured for this build"@,
{
    match &u.context {
        Some(c) => Ok(c.duplicate()),
        None => Err(String::from_str("Standalone server download is not configured for this build")),
    }
}

/// Tag of the latest known release.
pub fn cached_release_tag(u: &UpdaterState) -> (r: Option<String>)
    ensures
        opt_string_view(r) == latest_tag_spec(u),
{
    match &u.latest_release {
        Some(rel) => Some(rel.tag.clone()),
        None => None,
    }
}

/// Tag of the installed server.
pub fn cached_installed_tag(u: &UpdaterState) -> (r: Option<String>)
    ensures
        opt_string_view(r) == installed_tag_spec(u),
{
    clone_opt_string(&u.installed_tag)
}

/// Whether a release newer than the installed server is known.
pub fn has_newer_latest_release(u: &UpdaterState) -> (b: bool)
    ensures
        b == has_newer_spec(installed_tag_spec(u), latest_tag_spec(u)),
{
    match (cached_installed_tag(u), cached_release_tag(u)) {
        (_, None) => false,
        (None, Some(_)) => true,
        (Some(installed), Some(latest)) => installed != latest,
    }
}

/// The tray entry while idle: the installed version, or an offer to update.
pub fn idle_tray_descriptor(u: &UpdaterState) -> (r: (String, bool))
    ensures
        r.0@ == idle_text_spec(installed_tag_spec(u), latest_tag_spec(u)),
        r.1 == idle_enabled_spec(installed_tag_spec(u), latest_tag_spec(u)),
{
    match (cached_installed_tag(u), cached_release_tag(u)) {
        (Some(installed), Some(latest)) => {
            if installed == latest {
                let mut t = String::from_str("Server ");
                t.append(latest.as_str());
                (t, false)
            } else {
                let mut t = String::from_str("Update server to ");
                t.append(latest.as_str());
                (t, true)
            }
        },
        (None, Some(latest)) => {
            let mut t = String::from_str("Update server to ");
            t.append(latest.as_str());
            (t, true)
        },
        (Some(installed), None) => {
            let mut t = String::from_str("Server ");
            t.append(installed.as_str());
            (t, false)
        },
        (None, None) => (String::from_str("Server version unknown"), false),
    }
}

/// ` (<tag>)` naming the latest known tag, else the installed one.
pub fn display_tag_suffix(u: &UpdaterState) -> (r: String)
    ensures
        r@ == tag_suffix_spec(installed_tag_spec(u), latest_tag_spec(u)),
{
    let tag = match cached_release_tag(u) {
        Some(t) => Some(t),
        None => cached_installed_tag(u),
    };
    match tag {
        Some(t) => {
            let mut r = String::from_str(" (");
            r.append(t.as_str());
            r.append(")");
            r
        },
        None => String::new(),
    }
}

/// The updater's tray entry: text and whether it can be clicked; none when
/// the build manages no server.
pub fn tray_menu_descriptor(u: &UpdaterState) -> (r: Option<(String, bool)>)
    ensures
        r matches Some(d) ==> descriptor_spec(u) == Some((d.0@, d.1)),
        r is None ==> descriptor_spec(u) is None,
{
    if u.context.is_none() {
        return None;
    }
    match u.state {
        ServerUpdateState::Idle => Some(idle_tray_descriptor(u)),
        ServerUpdateState::ResolvingLatest => Some(
            (String::from_str("Resolving latest server release..."), false),
        ),
        ServerUpdateState::Downloading => {
            let mut t = String::from_str("Downloading server");
            t.append(display_tag_suffix(u).as_str());
            t.append("...");
            Some((t, false))
        },
        ServerUpdateState::Installing => {
            let mut t = String::from_str("Installing server");
            t.append(display_tag_suffix(u).as_str());
            t.append("...");
            Some((t, false))
        },
        ServerUpdateState::Failed => {
            let mut t = String::from_str("Retry latest server download");
            t.append(display_tag_suffix(u).as_str());
            Some((t, true))
        },
    }
}

/// Whether a click on the tray entry starts a server update.
pub fn handle_tray_action(u: &UpdaterState) -> (start: bool)
    ensures
        start == tray_action_spec(u),
{
    match u.state {
        ServerUpdateState::Idle => has_newer_latest_release(u),
        ServerUpdateState::Failed => true,
        _ => false,
    }
}

/// Starts an update check unless one is already resolving, downloading or
/// installing; the updater then resolves the latest release.
pub fn begin_transition_to_resolving(u: &mut UpdaterState) -> (started: bool)
    ensures
        started == (old(u).state == ServerUpdateState::Idle || old(u).state
            == ServerUpdateState::Failed),
        final(u).state == (if started {
            ServerUpdateState::ResolvingLatest
        } else {
            old(u).state
        }),
        final(u).context == old(u).context,
        final(u).latest_release == old(u).latest_release,
        final(u).installed_tag == old(u).installed_tag,
{
    match u.state {
        ServerUpdateState::Downloading | ServerUpdateState::Installing
        | ServerUpdateState::ResolvingLatest => false,
        _ => {
            u.state = ServerUpdateState::ResolvingLatest;
            true
        },
    }
}

/// Starts a server update from the idle or failed state; the updater then
/// downloads.
pub fn begin_transition_to_downloading(u: &mut UpdaterState) -> (started: bool)
    ensures
        started == (old(u).state == ServerUpdateState::Idle || old(u).state
            == ServerUpdateState::Failed),
        final(u).state == (if started {
            ServerUpdateState::Downloading
        } else {
            old(u).state
        }),
        final(u).context == old(u).context,
        final(u).latest_release == old(u).latest_release,
        final(u).installed_tag == old(u).installed_tag,
{
    match u.state {
        ServerUpdateState::Idle | ServerUpdateState::Failed => {
            u.state = ServerUpdateState::Downloading;
            true
        },
        _ => false,
    }
}

/// Moves the updater to `next`.
pub fn set_state(u: &mut UpdaterState, next: ServerUpdateState)
    ensures
        final(u).state == next,
        final(u).context == old(u).context,
        final(u).latest_release == old(u).latest_release,
        final(u).installed_tag == old(u).installed_tag,
{
    u.state = next;
}

/// Records `release` as the latest known release.
pub fn cache_latest_release(u: &mut UpdaterState, release: ResolvedServerRelease)
    ensures
        final(u).latest_release == Some(release),
        final(u).state == old(u).state,
        final(u).context == old(u).context,
        final(u).installed_tag == old(u).installed_tag,
{
    u.latest_release = Some(release);
}

/// Records `version` as the tag of the installed server.
pub fn record_installed_version(u: &mut UpdaterState, version: &str)
    ensures
        installed_tag_spec(final(u)) == Some(version@),
        final(u).state == old(u).state,
        final(u).context == old(u).context,
        final(u).latest_release == old(u).latest_release,
{
    u.installed_tag = Some(String::from_str(version));
}

/// The tray entry offers an update exactly when a click on it starts one.
pub proof fn lemma_tray_entry_enabled_iff_click_updates(u: &UpdaterState)
    requires
        u.context is Some,
    ensures
        descriptor_spec(u) matches Some(d) && d.1 == tray_action_spec(u),
{
}

/// After a release is installed and recorded, the idle tray entry shows that
/// version and no longer offers an update.
pub proof fn lemma_installed_latest_is_current(u: &UpdaterState)
    requires
        u.latest_release is Some,
        installed_tag_spec(u) == latest_tag_spec(u),
    ensures
        !has_newer_spec(installed_tag_spec(u), latest_tag_spec(u)),
        idle_text_spec(installed_tag_spec(u), latest_tag_spec(u)) == "Server "@
            + latest_tag_spec(u).unwrap(),
        !idle_enabled_spec(installed_tag_spec(u), latest_tag_spec(u)),
{
}


// ---------------------------------------------------------------------------
// The cached release record
// ---------------------------------------------------------------------------

/// The release record written to the cache file, with the time it was fetched.
#[derive(Debug)]
pub struct PersistedLatestRelease {
    pub fetched_at_unix_secs: u64,
    pub tag: String,
    pub url: String,
    pub sha256: String,
    pub asset_name: String,
    pub exe_name: String,
    pub asset_kind: PersistedReleaseAssetKind,
}

/// The stored form of an asset kind.
pub open spec fn persist_kind(k: ReleaseAssetKind) -> PersistedReleaseAssetKind {
    match k {
        ReleaseAssetKind::Archive7z => PersistedReleaseAssetKind::Archive7z,
        ReleaseAssetKind::Executable => PersistedReleaseAssetKind::Executable,
    }
}

/// The asset kind that a stored kind stands for.
pub open spec fn restore_kind(k: PersistedReleaseAssetKind) -> ReleaseAssetKind {
    match k {
        PersistedReleaseAssetKind::Archive7z => ReleaseAssetKind::Archive7z,
        PersistedReleaseAssetKind::Executable => ReleaseAssetKind::Executable,
    }
}

/// The release that a record describes.
pub open spec fn record_release_view(p: PersistedLatestRelease) -> ReleaseView {
    ReleaseView {
        tag: p.tag@,
        url: p.url@,
        sha256: p.sha256@,
        asset_name: p.asset_name@,
        exe_name: p.exe_name@,
        asset_kind: restore_kind(p.asset_kind),
    }
}

impl From<ReleaseAssetKind> for PersistedReleaseAssetKind {
    fn from(value: ReleaseAssetKind) -> (r: Self) {
        match value {
            ReleaseAssetKind::Archive7z => PersistedReleaseAssetKind::Archive7z,
            ReleaseAssetKind::Executable => PersistedReleaseAssetKind::Executable,
        }
    }
}

impl vstd::std_specs::convert::FromSpecImpl<ReleaseAssetKind> for PersistedReleaseAssetKind {
    open spec fn obeys_from_spec() -> bool {
        true
    }

    open spec fn from_spec(value: ReleaseAssetKind) -> Self {
        persist_kind(value)
    }
}

impl From<PersistedReleaseAssetKind> for ReleaseAssetKind {
    fn from(value: PersistedReleaseAssetKind) -> (r: Self) {
        match value {
            PersistedReleaseAssetKind::Archive7z => ReleaseAssetKind::Archive7z,
            PersistedReleaseAssetKind::Executable => ReleaseAssetKind::Executable,
        }
    }
}

impl vstd::std_specs::convert::FromSpecImpl<PersistedReleaseAssetKind> for ReleaseAssetKind {
    open spec fn obeys_from_spec() -> bool {
        true
    }

    open spec fn from_spec(value: PersistedReleaseAssetKind) -> Self {
        restore_kind(value)
    }
}

impl From<PersistedLatestRelease> for ResolvedServerRelease {
    fn from(value: PersistedLatestRelease) -> (r: Self) {
        ResolvedServerRelease {
            tag: value.tag,
            url: value.url,
            sha256: value.sha256,
            asset_name: value.asset_name,
            exe_name: value.exe_name,
            asset_kind: ReleaseAssetKind::from(value.asset_kind),
        }
    }
}

impl vstd::std_specs::convert::FromSpecImpl<PersistedLatestRelease> for ResolvedServerRelease {
    open spec fn obeys_from_spec() -> bool {
        true
    }

    open spec fn from_spec(value: PersistedLatestRelease) -> Self {
        ResolvedServerRelease {
            tag: value.tag,
            url: value.url,
            sha256: value.sha256,
            asset_name: value.asset_name,
            exe_name: value.exe_name,
            asset_kind: restore_kind(value.asset_kind),
        }
    }
}

/// Seconds since the Unix epoch by the system clock (`SystemTime::now`),
/// none when the clock is set before the epoch. The value depends on the
/// clock, so nothing is promised of it.
#[verifier::external_body]
fn system_unix_secs() -> (r: Option<u64>) {
    std::time::SystemTime::now().duration_since(std::time::UNIX_EPOCH).ok().map(|d| d.as_secs())
}

/// Seconds since the Unix epoch, or 0 when the clock is before the epoch.
pub fn current_unix_secs() -> (r: u64) {
    match system_unix_secs() {
        Some(secs) => secs,
        None => 0,
    }
}

impl PersistedLatestRelease {
    /// The record of `release`, fetched at `now`.
    pub fn from_release_at(release: &ResolvedServerRelease, now: u64) -> (p: Self)
        ensures
            p.fetched_at_unix_secs == now,
            record_release_view(p) == release@,
    {
        PersistedLatestRelease {
            fetched_at_unix_secs: now,
            tag: release.tag.clone(),
            url: release.url.clone(),
            sha256: release.sha256.clone(),
            asset_name: release.asset_name.clone(),
            exe_name: release.exe_name.clone(),
            asset_kind: PersistedReleaseAssetKind::from(release.asset_kind),
        }
    }

    /// The record of `release`, stamped with the current time.
    pub fn from_release(release: &ResolvedServerRelease) -> (p: Self)
        ensures
            record_release_view(p) == release@,
    {
        Self::from_release_at(release, current_unix_secs())
    }
}

/// A record is stale when more than the cache lifetime has passed since it
/// was fetched (a fetch time in the future counts as no time passed).
pub open spec fn record_is_stale(fetched_at: u64, now: u64) -> bool {
    (if now >= fetched_at { now - fetched_at } else { 0 }) > RELEASE_CACHE_TTL_SECS
}

/// The release of a cache record read at `now`, or none when it is stale.
pub fn release_from_record(record: PersistedLatestRelease, now: u64) -> (r: Option<ResolvedServerRelease>)
    ensures
        r is None <==> record_is_stale(record.fetched_at_unix_secs, now),
        r matches Some(rel) ==> rel@ == record_release_view(record),
{
    if now.saturating_sub(record.fetched_at_unix_secs) > RELEASE_CACHE_TTL_SECS {
        return None;
    }
    Some(ResolvedServerRelease::from(record))
}

/// A release written to the cache at time `t` reads back unchanged at any
/// time up to the cache lifetime later.
pub proof fn lemma_cached_release_reads_back(t: u64, now: u64)
    requires
        t <= now,
        now - t <= RELEASE_CACHE_TTL_SECS,
    ensures
        !record_is_stale(t, now),
{
}

/// Storing an asset kind and reading it back gives the same kind.
pub proof fn lemma_asset_kind_roundtrip(k: ReleaseAssetKind)
    ensures
        restore_kind(persist_kind(k)) == k,
{
}


// ---------------------------------------------------------------------------
// Download, checksum and retry decisions
// ---------------------------------------------------------------------------

/// SHA-256 digest of `data`.
pub uninterp spec fn sha256_spec(data: Seq<u8>) -> Seq<u8>;

/// Lower-case hexadecimal digit of a nibble.
pub open spec fn hex_digit_lower(n: u8) -> char {
    if n < 10 {
        ((n + 48) as u32) as char
    } else {
        ((n + 87) as u32) as char
    }
}

/// Lower-case hexadecimal text of `data`, two digits per byte.
pub open spec fn hex_lower_spec(data: Seq<u8>) -> Seq<char>
    decreases data.len(),
{
    if data.len() == 0 {
        Seq::empty()
    } else {
        seq![hex_digit_lower(data[0] / 16), hex_digit_lower(data[0] % 16)] + hex_lower_spec(
            data.drop_first(),
        )
    }
}

/// `Sha256::digest` of the `sha2` crate: the 32-byte SHA-256 digest of
/// `data`, a function of `data` alone.
#[verifier::external_body]
fn sha256_digest(data: &[u8]) -> (r: Vec<u8>)
    ensures
        r@ == sha256_spec(data@),
        r@.len() == 32,
{
    sha2::Sha256::digest(data).to_vec()
}

/// `hex::encode` of the `hex` crate: each byte as two lower-case hex digits.
#[verifier::external_body]
fn hex_encode(data: &[u8]) -> (r: String)
    ensures
        r@ == hex_lower_spec(data@),
{
    hex::encode(data)
}

/// The file's SHA-256 digest, as lower-case hex, equals the expected digest
/// (compared without surrounding whitespace and ASCII case).
pub open spec fn checksum_matches(contents: Seq<u8>, expected: Seq<char>) -> bool {
    lower_seq(hex_lower_spec(sha256_spec(contents))) == lower_seq(trim_spec(expected))
}

/// Checks downloaded bytes against the release's sha256 digest.
pub fn verify_file_hash(contents: &[u8], expected_sha256: &str) -> (r: Result<(), String>)
    ensures
        r is Ok <==> checksum_matches(contents@, expected_sha256@),
        r matches Err(e) ==> e@
            == "Downloaded server executable checksum does not match the GitHub asset digest"@,
{
    let digest = sha256_digest(contents);
    let actual = hex_encode(digest.as_slice());
    let expected = trim(expected_sha256);
    if eq_ignore_ascii_case(actual.as_str(), expected.as_str()) {
        Ok(())
    } else {
        Err(
            String::from_str(
                "Downloaded server executable checksum does not match the GitHub asset digest",
            ),
        )
    }
}

/// Name of the file that the release's asset is downloaded to: the archive
/// name for a `.7z` release (extracted afterwards), the executable name
/// otherwise.
pub fn staged_download_name(release: &ResolvedServerRelease) -> (r: String)
    ensures
        r@ == (match release.asset_kind {
            ReleaseAssetKind::Archive7z => release.asset_name@,
            ReleaseAssetKind::Executable => release.exe_name@,
        }),
{
    match release.asset_kind {
        ReleaseAssetKind::Archive7z => release.asset_name.clone(),
        ReleaseAssetKind::Executable => release.exe_name.clone(),
    }
}

/// A step of installing a downloaded release.
#[derive(Clone, Copy, Debug, PartialEq, Eq, Structural)]
pub enum InstallStep {
    /// Download the release's asset to the staging directory.
    Download,
    /// Check the downloaded file against the release's sha256 digest.
    Verify,
    /// Extract the server executable from the `.7z` archive.
    Extract,
    /// Mark the updater as installing.
    MarkInstalling,
    /// Stop the running embedded server.
    StopServer,
    /// Replace the managed server executable with the staged one.
    Replace,
    /// Start the embedded server on the new executable.
    StartServer,
    /// Start the embedded server again after a failed replace (its outcome
    /// is ignored; the replace error is reported).
    RestartAfterFailedReplace,
    /// The release is installed.
    Done,
    /// The install failed; the last error is reported.
    Failed,
}

/// The step after `step` of an install of a `kind` release, given whether
/// `step` succeeded; `restart_server` when a running server is replaced.
/// Marking and stopping cannot fail; the outcome of a restart after a failed
/// replace is ignored.
pub open spec fn install_next_spec(
    step: InstallStep,
    succeeded: bool,
    kind: ReleaseAssetKind,
    restart_server: bool,
) -> InstallStep {
    match step {
        InstallStep::Download => if succeeded {
            InstallStep::Verify
        } else {
            InstallStep::Failed
        },
        InstallStep::Verify => if !succeeded {
            InstallStep::Failed
        } else if kind == ReleaseAssetKind::Archive7z {
            InstallStep::Extract
        } else {
            InstallStep::MarkInstalling
        },
        InstallStep::Extract => if succeeded {
            InstallStep::MarkInstalling
        } else {
            InstallStep::Failed
        },
        InstallStep::MarkInstalling => if restart_server {
            InstallStep::StopServer
        } else {
            InstallStep::Replace
        },
        InstallStep::StopServer => InstallStep::Replace,
        InstallStep::Replace => if succeeded {
            if restart_server {
                InstallStep::StartServer
            } else {
                InstallStep::Done
            }
        } else if restart_server {
            InstallStep::RestartAfterFailedReplace
        } else {
            InstallStep::Failed
        },
        InstallStep::StartServer => if succeeded {
            InstallStep::Done
        } else {
            InstallStep::Failed
        },
        InstallStep::RestartAfterFailedReplace => InstallStep::Failed,
        InstallStep::Done => InstallStep::Done,
        InstallStep::Failed => InstallStep::Failed,
    }
}

/// The next step of an install.
pub fn install_next(step: InstallStep, succeeded: bool, kind: ReleaseAssetKind, restart_server: bool) -> (next:
    InstallStep)
    ensures
        next == install_next_spec(step, succeeded, kind, restart_server),
{
    match step {
        InstallStep::Download => if succeeded {
            InstallStep::Verify
        } else {
            InstallStep::Failed
        },
        InstallStep::Verify => if !succeeded {
            InstallStep::Failed
        } else if kind == ReleaseAssetKind::Archive7z {
            InstallStep::Extract
        } else {
            InstallStep::MarkInstalling
        },
        InstallStep::Extract => if succeeded {
            InstallStep::MarkInstalling
        } else {
            InstallStep::Failed
        },
        InstallStep::MarkInstalling => if restart_server {
            InstallStep::StopServer
        } else {
            InstallStep::Replace
        },
        InstallStep::StopServer => InstallStep::Replace,
        InstallStep::Replace => if succeeded {
            if restart_server {
                InstallStep::StartServer
            } else {
                InstallStep::Done
            }
        } else if restart_server {
            InstallStep::RestartAfterFailedReplace
        } else {
            InstallStep::Failed
        },
        InstallStep::StartServer => if succeeded {
            InstallStep::Done
        } else {
            InstallStep::Failed
        },
        InstallStep::RestartAfterFailedReplace => InstallStep::Failed,
        InstallStep::Done => InstallStep::Done,
        InstallStep::Failed => InstallStep::Failed,
    }
}

/// A run of an install: the steps taken, each with whether it succeeded,
/// starting with the download and following `install_next_spec`.
pub open spec fn is_install_run(run: Seq<(InstallStep, bool)>, kind: ReleaseAssetKind, restart_server: bool) -> bool {
    &&& run.len() > 0
    &&& run[0].0 == InstallStep::Download
    &&& forall|i: int|
        0 <= i < run.len() - 1 ==> #[trigger] run[i + 1].0 == install_next_spec(
            run[i].0,
            run[i].1,
            kind,
            restart_server,
        )
}

/// A step that follows a successful check of the download.
pub open spec fn after_verify(step: InstallStep) -> bool {
    match step {
        InstallStep::Download | InstallStep::Verify | InstallStep::Failed => false,
        _ => true,
    }
}

/// Some step before index `k` of the run is a successful check.
pub open spec fn verified_before(run: Seq<(InstallStep, bool)>, k: int) -> bool {
    exists|j: int| 0 <= j < k && #[trigger] run[j] == (InstallStep::Verify, true)
}

/// Steps that follow a successful check are reached only after one.
proof fn lemma_after_verify_has_check(run: Seq<(InstallStep, bool)>, kind: ReleaseAssetKind, restart_server: bool, k: int)
    requires
        is_install_run(run, kind, restart_server),
        0 <= k < run.len(),
        after_verify(run[k].0),
    ensures
        verified_before(run, k),
    decreases k,
{
    if k > 0 {
        let p = run[k - 1];
        assert(run[(k - 1) + 1].0 == install_next_spec(p.0, p.1, kind, restart_server));
        if after_verify(p.0) {
            lemma_after_verify_has_check(run, kind, restart_server, k - 1);
            let j = choose|j: int| 0 <= j < k - 1 && #[trigger] run[j] == (InstallStep::Verify, true);
            assert(run[j] == (InstallStep::Verify, true));
        } else {
            assert(p.0 == InstallStep::Verify && p.1);
            assert(run[k - 1] == (InstallStep::Verify, true));
        }
    }
}

/// In every install run, the server is stopped only after the downloaded
/// file passed its checksum, and once it was stopped, every run that ends
/// (installed or failed) starts the server again on the way.
pub proof fn lemma_install_restarts_stopped_server(
    run: Seq<(InstallStep, bool)>,
    kind: ReleaseAssetKind,
    restart_server: bool,
    k: int,
    m: int,
)
    requires
        is_install_run(run, kind, restart_server),
        0 <= k < run.len(),
        run[k].0 == InstallStep::StopServer,
    ensures
        verified_before(run, k),
        k < m < run.len() && (run[m].0 == InstallStep::Done || run[m].0 == InstallStep::Failed)
            ==> exists|j: int|
            k < j < m && (#[trigger] run[j].0 == InstallStep::StartServer || run[j].0
                == InstallStep::RestartAfterFailedReplace),
{
    lemma_after_verify_has_check(run, kind, restart_server, k);
    assert(k > 0);
    assert(run[(k - 1) + 1].0 == install_next_spec(run[k - 1].0, run[k - 1].1, kind, restart_server));
    assert(restart_server);
    if k < m < run.len() && (run[m].0 == InstallStep::Done || run[m].0 == InstallStep::Failed) {
        assert(run[k + 1].0 == install_next_spec(run[k].0, run[k].1, kind, restart_server));
        assert(run[k + 1].0 == InstallStep::Replace);
        assert(m != k + 1);
        assert(run[(k + 1) + 1].0 == install_next_spec(run[k + 1].0, run[k + 1].1, kind, restart_server));
        assert(run[k + 2].0 == InstallStep::StartServer || run[k + 2].0
            == InstallStep::RestartAfterFailedReplace);
        assert(m != k + 2);
    }
}

/// Order of a step in an install: every step that is not final moves to a
/// step of lower order, so an install ends after at most nine steps.
pub open spec fn install_rank(step: InstallStep) -> nat {
    match step {
        InstallStep::Download => 9,
        InstallStep::Verify => 8,
        InstallStep::Extract => 7,
        InstallStep::MarkInstalling => 6,
        InstallStep::StopServer => 5,
        InstallStep::Replace => 4,
        InstallStep::StartServer => 3,
        InstallStep::RestartAfterFailedReplace => 2,
        InstallStep::Done => 0,
        InstallStep::Failed => 0,
    }
}

/// Every install ends: a step other than `Done` or `Failed` is followed by a
/// step of lower order, and `Done` and `Failed` stay as they are.
pub proof fn lemma_install_ends(step: InstallStep, succeeded: bool, kind: ReleaseAssetKind, restart_server: bool)
    ensures
        step != InstallStep::Done && step != InstallStep::Failed ==> install_rank(
            install_next_spec(step, succeeded, kind, restart_server),
        ) < install_rank(step),
        step == InstallStep::Done || step == InstallStep::Failed ==> install_next_spec(
            step,
            succeeded,
            kind,
            restart_server,
        ) == step,
{
}

/// An install without a running server to replace never stops or starts it,
/// and a `.7z` release is extracted only after its checksum passed, an
/// executable never.
pub proof fn lemma_install_extracts_only_archives(
    run: Seq<(InstallStep, bool)>,
    kind: ReleaseAssetKind,
    restart_server: bool,
    k: int,
)
    requires
        is_install_run(run, kind, restart_server),
        0 <= k < run.len(),
    ensures
        run[k].0 == InstallStep::Extract ==> kind == ReleaseAssetKind::Archive7z && run[k - 1] == (
            InstallStep::Verify,
            true,
        ),
        !restart_server ==> run[k].0 != InstallStep::StopServer && run[k].0 != InstallStep::StartServer
            && run[k].0 != InstallStep::RestartAfterFailedReplace,
{
    if k > 0 {
        assert(run[(k - 1) + 1].0 == install_next_spec(run[k - 1].0, run[k - 1].1, kind, restart_server));
    }
}

/// A step of an update that the user started from the tray.
#[derive(Clone, Copy, Debug, PartialEq, Eq, Structural)]
pub enum UpdateRunStep {
    /// Read the updater's context.
    LoadContext,
    /// Mark the updater as resolving the latest release.
    MarkResolving,
    /// Fetch the latest release from GitHub (no cache).
    Fetch,
    /// Remember the fetched release (in memory and in the cache file).
    Cache,
    /// Mark the updater as downloading.
    MarkDownloading,
    /// Install the release, replacing the running server.
    Install,
    /// Record the installed version.
    Persist,
    /// Mark the updater as idle: the update succeeded.
    MarkIdle,
    /// Start the embedded server again after a failure (its outcome is
    /// ignored).
    RestartServer,
    /// Mark the updater as failed with the last error.
    MarkFailed,
    /// The update is over.
    Done,
}

/// The step after `step` of a tray update, given whether `step` succeeded.
/// Marking, caching and the restart after a failure do not fail.
pub open spec fn update_run_next_spec(step: UpdateRunStep, succeeded: bool) -> UpdateRunStep {
    match step {
        UpdateRunStep::LoadContext => if succeeded {
            UpdateRunStep::MarkResolving
        } else {
            UpdateRunStep::RestartServer
        },
        UpdateRunStep::MarkResolving => UpdateRunStep::Fetch,
        UpdateRunStep::Fetch => if succeeded {
            UpdateRunStep::Cache
        } else {
            UpdateRunStep::RestartServer
        },
        UpdateRunStep::Cache => UpdateRunStep::MarkDownloading,
        UpdateRunStep::MarkDownloading => UpdateRunStep::Install,
        UpdateRunStep::Install => if succeeded {
            UpdateRunStep::Persist
        } else {
            UpdateRunStep::RestartServer
        },
        UpdateRunStep::Persist => if succeeded {
            UpdateRunStep::MarkIdle
        } else {
            UpdateRunStep::RestartServer
        },
        UpdateRunStep::MarkIdle => UpdateRunStep::Done,
        UpdateRunStep::RestartServer => UpdateRunStep::MarkFailed,
        UpdateRunStep::MarkFailed => UpdateRunStep::Done,
        UpdateRunStep::Done => UpdateRunStep::Done,
    }
}

/// The next step of a tray update.
pub fn update_run_next(step: UpdateRunStep, succeeded: bool) -> (next: UpdateRunStep)
    ensures
        next == update_run_next_spec(step, succeeded),
{
    match step {
        UpdateRunStep::LoadContext => if succeeded {
            UpdateRunStep::MarkResolving
        } else {
            UpdateRunStep::RestartServer
        },
        UpdateRunStep::MarkResolving => UpdateRunStep::Fetch,
        UpdateRunStep::Fetch => if succeeded {
            UpdateRunStep::Cache
        } else {
            UpdateRunStep::RestartServer
        },
        UpdateRunStep::Cache => UpdateRunStep::MarkDownloading,
        UpdateRunStep::MarkDownloading => UpdateRunStep::Install,
        UpdateRunStep::Install => if succeeded {
            UpdateRunStep::Persist
        } else {
            UpdateRunStep::RestartServer
        },
        UpdateRunStep::Persist => if succeeded {
            UpdateRunStep::MarkIdle
        } else {
            UpdateRunStep::RestartServer
        },
        UpdateRunStep::MarkIdle => UpdateRunStep::Done,
        UpdateRunStep::RestartServer => UpdateRunStep::MarkFailed,
        UpdateRunStep::MarkFailed => UpdateRunStep::Done,
        UpdateRunStep::Done => UpdateRunStep::Done,
    }
}

/// Order of a step of a tray update; every step but `Done` moves to a lower
/// one.
pub open spec fn update_run_rank(step: UpdateRunStep) -> nat {
    match step {
        UpdateRunStep::LoadContext => 10,
        UpdateRunStep::MarkResolving => 9,
        UpdateRunStep::Fetch => 8,
        UpdateRunStep::Cache => 7,
        UpdateRunStep::MarkDownloading => 6,
        UpdateRunStep::Install => 5,
        UpdateRunStep::Persist => 4,
        UpdateRunStep::MarkIdle => 3,
        UpdateRunStep::RestartServer => 2,
        UpdateRunStep::MarkFailed => 1,
        UpdateRunStep::Done => 0,
    }
}

/// A tray update always ends, and every failure ends it by starting the
/// server again and then marking the updater failed; it is marked idle only
/// after the new version was installed and recorded.
pub proof fn lemma_update_run_failure_restarts(step: UpdateRunStep, succeeded: bool)
    ensures
        step != UpdateRunStep::Done ==> update_run_rank(update_run_next_spec(step, succeeded))
            < update_run_rank(step),
        step == UpdateRunStep::Done ==> update_run_next_spec(step, succeeded) == UpdateRunStep::Done,
        !succeeded && (step == UpdateRunStep::LoadContext || step == UpdateRunStep::Fetch || step
            == UpdateRunStep::Install || step == UpdateRunStep::Persist) ==> update_run_next_spec(
            step,
            succeeded,
        ) == UpdateRunStep::RestartServer,
        forall|b: bool| #[trigger]
            update_run_next_spec(UpdateRunStep::RestartServer, b) == UpdateRunStep::MarkFailed,
        update_run_next_spec(step, succeeded) == UpdateRunStep::MarkIdle ==> step
            == UpdateRunStep::Persist && succeeded,
        update_run_next_spec(step, succeeded) == UpdateRunStep::RestartServer ==> !succeeded,
{
}

/// The GitHub API address of a repository's latest release.
pub fn latest_release_api_url(owner: &str, repo: &str) -> (r: String)
    ensures
        r@ == "https://api.github.com/repos/"@ + owner@ + "/"@ + repo@ + "/releases/latest"@,
{
    let mut r = String::from_str("https://api.github.com/repos/");
    r.append(owner);
    r.append("/");
    r.append(repo);
    r.append("/releases/latest");
    r
}

/// The value of the Authorization header built from the `GITHUB_TOKEN`
/// variable: `Bearer <token>` with the token trimmed; an error when the
/// variable is unset or blank.
pub fn github_bearer_value(token: Option<&str>) -> (r: Result<String, String>)
    ensures
        r is Ok <==> (token is Some && trim_spec(token.unwrap()@).len() > 0),
        r matches Ok(v) ==> v@ == "Bearer "@ + trim_spec(token.unwrap()@),
        r matches Err(e) ==> e@ == "GITHUB_TOKEN is required for standalone server release downloads"@,
{
    let token = match token {
        Some(t) => trim(t),
        None => {
            return Err(
                String::from_str("GITHUB_TOKEN is required for standalone server release downloads"),
            );
        },
    };
    if token.unicode_len() == 0 {
        return Err(
            String::from_str("GITHUB_TOKEN is required for standalone server release downloads"),
        );
    }
    let mut v = String::from_str("Bearer ");
    v.append(token.as_str());
    Ok(v)
}

/// Equality of an optional tag with a given one.
pub open spec fn tag_is(tag: Option<Seq<char>>, t: Seq<char>) -> bool {
    tag == Some(t)
}

/// Whether two optional tags are both present and equal.
fn same_tag(installed: Option<&str>, other: &str) -> (b: bool)
    ensures
        b == tag_is(crate::runtime::opt_str_view(installed), other@),
{
    match installed {
        Some(i) => {
            let a = String::from_str(i);
            let b = String::from_str(other);
            a == b
        },
        None => false,
    }
}

/// At startup the release check can be skipped: the managed server is on
/// disk and the fresh cached release is the installed one.
pub fn can_skip_startup_check(has_managed_binary: bool, installed_tag: Option<&str>, cached_tag: Option<
    &str,
>) -> (b: bool)
    ensures
        b == (has_managed_binary && cached_tag is Some && tag_is(
            crate::runtime::opt_str_view(installed_tag),
            cached_tag.unwrap()@,
        )),
{
    match cached_tag {
        Some(c) => has_managed_binary && same_tag(installed_tag, c),
        None => false,
    }
}

/// The resolved release must be downloaded: the managed server is missing or
/// its installed tag is not the release's tag.
pub fn release_needs_install(has_managed_binary: bool, installed_tag: Option<&str>, release_tag: &str) -> (b: bool)
    ensures
        b == !(has_managed_binary && tag_is(crate::runtime::opt_str_view(installed_tag), release_tag@)),
{
    !(has_managed_binary && same_tag(installed_tag, release_tag))
}

/// What to do after a failed attempt of a retried operation.
#[derive(Clone, Copy, Debug, PartialEq, Eq, Structural)]
pub enum RetryDecision {
    /// Stop retrying.
    GiveUp,
    /// Wait this many seconds, then try again.
    RetryAfterSecs(u64),
}

/// The error says the API refused for rate limiting or access.
pub open spec fn is_refusal(error: Seq<char>) -> bool {
    has_substring(lower_seq(error), "rate limit"@) || has_substring(lower_seq(error), "403"@)
}

/// After failed attempt `attempt` (counted from 1) of `attempts`: give up on a
/// rate-limit or 403 error or after the last attempt, else wait two seconds
/// per attempt made.
pub fn retry_after_failure(attempt: usize, attempts: usize, error: &str) -> (d: RetryDecision)
    requires
        attempt <= u64::MAX / 2,
    ensures
        d == (if is_refusal(error@) || attempt >= attempts {
            RetryDecision::GiveUp
        } else {
            RetryDecision::RetryAfterSecs((2 * attempt) as u64)
        }),
{
    let lower = to_ascii_lowercase(error);
    if contains(lower.as_str(), "rate limit") || contains(lower.as_str(), "403") {
        return RetryDecision::GiveUp;
    }
    if attempt < attempts {
        RetryDecision::RetryAfterSecs(2 * attempt as u64)
    } else {
        RetryDecision::GiveUp
    }
}

/// The error after retries ran out.
pub fn retry_failure_message(action: &str, attempts: usize, last_error: &str) -> (r: String)
    ensures
        r@ == "Unable to "@ + action@ + " after "@ + decimal(attempts as nat) + " attempts: "@
            + last_error@,
{
    let mut r = String::from_str("Unable to ");
    r.append(action);
    r.append(" after ");
    push_decimal(&mut r, attempts as u64);
    r.append(" attempts: ");
    r.append(last_error);
    r
}

/// The idle tray entry offers an update exactly when a latest release is
/// known that is not the installed one, and then reads "Update server to"
/// that release; otherwise it names the installed server. "Server <tag>" is
/// shown only for the installed tag.
pub proof fn lemma_idle_entry_names_installed_server(
    installed: Option<Seq<char>>,
    latest: Option<Seq<char>>,
    tag: Seq<char>,
)
    ensures
        idle_enabled_spec(installed, latest) <==> (latest is Some && installed != latest),
        idle_enabled_spec(installed, latest) ==> idle_text_spec(installed, latest) == "Update server to "@
            + latest.unwrap(),
        latest is Some && !idle_enabled_spec(installed, latest) ==> installed == latest
            && idle_text_spec(installed, latest) == "Server "@ + latest.unwrap(),
        latest is None && installed is Some ==> idle_text_spec(installed, latest) == "Server "@
            + installed.unwrap(),
        latest is None && installed is None ==> idle_text_spec(installed, latest)
            == "Server version unknown"@,
        (installed is Some || latest is Some) && idle_text_spec(installed, latest) == "Server "@ + tag
            ==> installed == Some(tag),
{
    reveal_strlit("Server ");
    reveal_strlit("Update server to ");
    let text = idle_text_spec(installed, latest);
    if (installed is Some || latest is Some) && text == "Server "@ + tag {
        assert(text[0] == 'S');
        if idle_enabled_spec(installed, latest) {
            assert(text == "Update server to "@ + latest.unwrap());
            assert(text[0] == 'U');
        } else {
            let name = match latest {
                Some(l) => l,
                None => installed.unwrap(),
            };
            assert(text == "Server "@ + name);
            assert(tag =~= text.subrange(7, text.len() as int));
            assert(name =~= text.subrange(7, text.len() as int));
        }
    }
}

} // verus!
