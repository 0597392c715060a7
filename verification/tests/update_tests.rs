use floating_lyrics::runtime::Variant;
use floating_lyrics::update::{
    asset_matches, begin_transition_to_downloading, begin_transition_to_resolving,
    cache_latest_release, can_skip_startup_check, configure_context, display_tag_suffix,
    exe_file_name, github_bearer_value, handle_tray_action, has_newer_latest_release,
    idle_tray_descriptor, install_next, latest_release_api_url, normalize_release_tag, parse_github_digest,
    record_installed_version, release_from_record, release_needs_install, resolve_release_asset,
    retry_after_failure, retry_failure_message, set_state, staged_download_name,
    tray_menu_descriptor, update_context, update_run_next, UpdateRunStep, verify_file_hash, GitHubReleaseAsset,
    GitHubReleaseResponse, InstallStep, PersistedLatestRelease, PersistedReleaseAssetKind, ReleaseAssetKind,
    ResolvedServerRelease, RetryDecision, ServerUpdateState, UpdaterState,
    RELEASE_CACHE_TTL_SECS,
};

fn asset(name: &str, url: &str, digest: Option<&str>) -> GitHubReleaseAsset {
    GitHubReleaseAsset {
        name: name.to_string(),
        browser_download_url: url.to_string(),
        digest: digest.map(|d| d.to_string()),
    }
}

#[test]
fn preserves_release_tag() {
    assert_eq!(normalize_release_tag("v1.0.0"), "v1.0.0");
}

#[test]
fn matches_expected_release_asset() {
    let asset = GitHubReleaseAsset {
        name: "lyrics-smtc-v1.0.0-x64.7z".to_string(),
        browser_download_url: "https://example.com/file.7z".to_string(),
        digest: Some("sha256:abc".to_string()),
    };
    assert!(asset_matches(&asset, ReleaseAssetKind::Archive7z, "lyrics-smtc-x64.exe"));
}

#[test]
fn rejects_non_7z_release_asset() {
    let asset = GitHubReleaseAsset {
        name: "lyrics-smtc-v1.0.0-x64.exe".to_string(),
        browser_download_url: "https://example.com/file.exe".to_string(),
        digest: Some("sha256:abc".to_string()),
    };
    assert!(!asset_matches(&asset, ReleaseAssetKind::Archive7z, "lyrics-smtc-x64.exe"));
}

#[test]
fn matches_expected_executable_asset() {
    let asset = GitHubReleaseAsset {
        name: "lyrics-ytm-x64.exe".to_string(),
        browser_download_url: "https://example.com/file.exe".to_string(),
        digest: Some("sha256:abc".to_string()),
    };
    assert!(asset_matches(&asset, ReleaseAssetKind::Executable, "lyrics-ytm-x64.exe"));
}

#[test]
fn rejects_mismatched_executable_asset() {
    let asset = GitHubReleaseAsset {
        name: "lyrics-smtc-x64.exe".to_string(),
        browser_download_url: "https://example.com/file.exe".to_string(),
        digest: Some("sha256:abc".to_string()),
    };
    assert!(!asset_matches(&asset, ReleaseAssetKind::Executable, "lyrics-ytm-x64.exe"));
}

#[test]
fn release_tag_is_trimmed() {
    assert_eq!(normalize_release_tag("  v2.3.4\n"), "v2.3.4");
    assert_eq!(normalize_release_tag("\u{3000}v1\u{a0}"), "v1");
}

#[test]
fn asset_matching_ignores_case_and_needs_url() {
    let upper = asset("LYRICS-YTM-X64.EXE", "https://x/y", None);
    assert!(asset_matches(&upper, ReleaseAssetKind::Executable, "lyrics-ytm-x64.exe"));
    let archive = asset("Server.7Z", "https://x/y", None);
    assert!(asset_matches(&archive, ReleaseAssetKind::Archive7z, "anything.exe"));
    let blank_url = asset("server.7z", "   ", None);
    assert!(!asset_matches(&blank_url, ReleaseAssetKind::Archive7z, "x.exe"));
}

#[test]
fn github_digest_prefix() {
    assert_eq!(parse_github_digest("sha256:abc"), Some("abc".to_string()));
    assert_eq!(parse_github_digest("sha256:"), Some(String::new()));
    assert_eq!(parse_github_digest("md5:abc"), None);
    assert_eq!(parse_github_digest("SHA256:abc"), None);
}

#[test]
fn executable_file_names() {
    assert_eq!(exe_file_name("source/lyrics-smtc-x64.exe"), Some("lyrics-smtc-x64.exe".to_string()));
    assert_eq!(exe_file_name("source\\lyrics-ytm-x64.exe"), Some("lyrics-ytm-x64.exe".to_string()));
    assert_eq!(exe_file_name("plain.exe"), Some("plain.exe".to_string()));
    assert_eq!(exe_file_name("dir/sub/"), Some("sub".to_string()));
    assert_eq!(exe_file_name("foo.txt/."), Some("foo.txt".to_string()));
    assert_eq!(exe_file_name("foo/.."), None);
    assert_eq!(exe_file_name("/"), None);
    assert_eq!(exe_file_name(""), None);
}

#[test]
fn executable_file_names_after_windows_prefixes() {
    assert_eq!(exe_file_name("C:srv.exe"), Some("srv.exe".to_string()));
    assert_eq!(exe_file_name("C:\\dir\\srv.exe"), Some("srv.exe".to_string()));
    assert_eq!(exe_file_name("C:"), None);
    assert_eq!(exe_file_name("C:\\"), None);
    assert_eq!(exe_file_name("C:."), None);
    assert_eq!(exe_file_name("\\\\?\\C:\\dir\\srv.exe"), Some("srv.exe".to_string()));
    assert_eq!(exe_file_name("\\\\?\\C:\\dir/srv.exe"), Some("dir/srv.exe".to_string()));
    assert_eq!(exe_file_name("\\\\?\\dir\\."), None);
    assert_eq!(exe_file_name("\\\\?\\UNC\\server\\share\\a.exe"), Some("a.exe".to_string()));
    assert_eq!(exe_file_name("\\\\?\\UNC\\server\\share"), None);
    assert_eq!(exe_file_name("\\\\server\\share"), None);
    assert_eq!(exe_file_name("//server/share/srv.exe"), Some("srv.exe".to_string()));
    assert_eq!(exe_file_name("\\\\.\\COM42"), None);
}

fn context(kind: ReleaseAssetKind, exe: &str) -> floating_lyrics::update::UpdateContext {
    floating_lyrics::update::UpdateContext {
        owner: "dnecra".to_string(),
        repo: "lyrics-server".to_string(),
        exe_relative: exe.to_string(),
        asset_kind: kind,
    }
}

#[test]
fn resolves_first_matching_asset() {
    let ctx = context(ReleaseAssetKind::Archive7z, "source/lyrics-smtc-x64.exe");
    let release = GitHubReleaseResponse {
        tag_name: " v1.2.0 ".to_string(),
        draft: false,
        prerelease: false,
        assets: vec![
            asset("notes.txt", "https://e/notes", Some("sha256:00")),
            asset("first.7z", "https://e/first", Some("sha256:aa11")),
            asset("second.7z", "https://e/second", Some("sha256:bb22")),
        ],
    };
    let r = resolve_release_asset(&ctx, release).unwrap();
    assert_eq!(r.tag, "v1.2.0");
    assert_eq!(r.url, "https://e/first");
    assert_eq!(r.sha256, "aa11");
    assert_eq!(r.asset_name, "first.7z");
    assert_eq!(r.exe_name, "lyrics-smtc-x64.exe");
    assert_eq!(r.asset_kind, ReleaseAssetKind::Archive7z);
}

#[test]
fn resolve_errors() {
    let ctx = context(ReleaseAssetKind::Executable, "source/lyrics-ytm-x64.exe");
    let draft = GitHubReleaseResponse {
        tag_name: "v1".to_string(),
        draft: true,
        prerelease: false,
        assets: vec![],
    };
    assert_eq!(
        resolve_release_asset(&ctx, draft).unwrap_err(),
        "Latest GitHub release is a draft or prerelease"
    );
    let none = GitHubReleaseResponse {
        tag_name: "v1".to_string(),
        draft: false,
        prerelease: false,
        assets: vec![asset("other.exe", "https://e/o", Some("sha256:1"))],
    };
    assert_eq!(
        resolve_release_asset(&ctx, none).unwrap_err(),
        "No matching .exe server asset found in the latest release"
    );
    let no_digest = GitHubReleaseResponse {
        tag_name: "v1".to_string(),
        draft: false,
        prerelease: false,
        assets: vec![asset("lyrics-ytm-x64.exe", "https://e/o", Some("md5:1"))],
    };
    assert_eq!(
        resolve_release_asset(&ctx, no_digest).unwrap_err(),
        "Release asset is missing a sha256 digest"
    );
    let bad_ctx = context(ReleaseAssetKind::Executable, "source/..");
    let ok = GitHubReleaseResponse {
        tag_name: "v1".to_string(),
        draft: false,
        prerelease: false,
        assets: vec![],
    };
    assert_eq!(
        resolve_release_asset(&bad_ctx, ok).unwrap_err(),
        "Failed to resolve server executable name"
    );
}

#[test]
fn contexts_per_variant() {
    let s = configure_context(Variant::Standalone, Some("source/a.exe"), "o", "r").unwrap();
    assert_eq!(s.asset_kind, ReleaseAssetKind::Archive7z);
    assert_eq!(s.exe_relative, "source/a.exe");
    let y = configure_context(Variant::Ytm, Some("source/b.exe"), "o", "r").unwrap();
    assert_eq!(y.asset_kind, ReleaseAssetKind::Executable);
    assert!(configure_context(Variant::Serverless, Some("x"), "o", "r").is_none());
    assert!(configure_context(Variant::Standalone, None, "o", "r").is_none());
}

fn release(tag: &str) -> ResolvedServerRelease {
    ResolvedServerRelease {
        tag: tag.to_string(),
        url: "https://e/a".to_string(),
        sha256: "ab".to_string(),
        asset_name: "a.7z".to_string(),
        exe_name: "a.exe".to_string(),
        asset_kind: ReleaseAssetKind::Archive7z,
    }
}

#[test]
fn tray_descriptor_states() {
    let ctx = context(ReleaseAssetKind::Archive7z, "source/a.exe");
    let mut u = UpdaterState::new(Some(ctx));
    assert_eq!(tray_menu_descriptor(&u), Some(("Server version unknown".to_string(), false)));
    record_installed_version(&mut u, "v1");
    assert_eq!(tray_menu_descriptor(&u), Some(("Server v1".to_string(), false)));
    cache_latest_release(&mut u, release("v2"));
    assert_eq!(tray_menu_descriptor(&u), Some(("Update server to v2".to_string(), true)));
    assert!(has_newer_latest_release(&u));
    assert!(handle_tray_action(&u));
    set_state(&mut u, ServerUpdateState::Downloading);
    assert_eq!(tray_menu_descriptor(&u), Some(("Downloading server (v2)...".to_string(), false)));
    assert!(!handle_tray_action(&u));
    set_state(&mut u, ServerUpdateState::Installing);
    assert_eq!(tray_menu_descriptor(&u), Some(("Installing server (v2)...".to_string(), false)));
    set_state(&mut u, ServerUpdateState::Failed);
    assert_eq!(tray_menu_descriptor(&u), Some(("Retry latest server download (v2)".to_string(), true)));
    assert!(handle_tray_action(&u));
    set_state(&mut u, ServerUpdateState::ResolvingLatest);
    assert_eq!(
        tray_menu_descriptor(&u),
        Some(("Resolving latest server release...".to_string(), false))
    );
    record_installed_version(&mut u, "v2");
    set_state(&mut u, ServerUpdateState::Idle);
    assert_eq!(idle_tray_descriptor(&u), ("Server v2".to_string(), false));
    assert!(!handle_tray_action(&u));
}

#[test]
fn tray_descriptor_without_context() {
    let u = UpdaterState::new(None);
    assert_eq!(tray_menu_descriptor(&u), None);
    assert_eq!(update_context(&u).unwrap_err(), "Standalone server download is not configured for this build");
}

#[test]
fn tag_suffix_prefers_latest() {
    let mut u = UpdaterState::new(None);
    assert_eq!(display_tag_suffix(&u), "");
    record_installed_version(&mut u, "v1");
    assert_eq!(display_tag_suffix(&u), " (v1)");
    cache_latest_release(&mut u, release("v3"));
    assert_eq!(display_tag_suffix(&u), " (v3)");
}

#[test]
fn state_transitions() {
    let mut u = UpdaterState::new(None);
    assert!(begin_transition_to_resolving(&mut u));
    assert_eq!(u.state, ServerUpdateState::ResolvingLatest);
    assert!(!begin_transition_to_resolving(&mut u));
    assert!(!begin_transition_to_downloading(&mut u));
    set_state(&mut u, ServerUpdateState::Failed);
    assert!(begin_transition_to_downloading(&mut u));
    assert_eq!(u.state, ServerUpdateState::Downloading);
    assert!(!begin_transition_to_resolving(&mut u));
}

#[test]
fn cache_record_round_trip() {
    let r = release("v9");
    let record = PersistedLatestRelease::from_release_at(&r, 1_000);
    assert_eq!(record.fetched_at_unix_secs, 1_000);
    assert_eq!(record.asset_kind, PersistedReleaseAssetKind::Archive7z);
    let back = release_from_record(record, 1_000 + RELEASE_CACHE_TTL_SECS).unwrap();
    assert_eq!(back.tag, "v9");
    assert_eq!(back.url, r.url);
    assert_eq!(back.sha256, r.sha256);
    assert_eq!(back.asset_kind, ReleaseAssetKind::Archive7z);
    let stale = PersistedLatestRelease::from_release_at(&r, 1_000);
    assert!(release_from_record(stale, 1_001 + RELEASE_CACHE_TTL_SECS).is_none());
    let future = PersistedLatestRelease::from_release_at(&r, 5_000);
    assert!(release_from_record(future, 10).is_some());
    let stamped = PersistedLatestRelease::from_release(&r);
    assert_eq!(stamped.tag, "v9");
    let kind: ReleaseAssetKind = PersistedReleaseAssetKind::Executable.into();
    assert_eq!(kind, ReleaseAssetKind::Executable);
}

#[test]
fn checksum_verification() {
    let abc = "ba7816bf8f01cfea414140de5dae2223b00361a396177a9cb410ff61f20015ad";
    assert!(verify_file_hash(b"abc", abc).is_ok());
    assert!(verify_file_hash(b"abc", &format!("  {}\n", abc.to_uppercase())).is_ok());
    assert_eq!(
        verify_file_hash(b"abd", abc).unwrap_err(),
        "Downloaded server executable checksum does not match the GitHub asset digest"
    );
    assert!(verify_file_hash(b"abc", "").is_err());
}

#[test]
fn retry_policy() {
    assert_eq!(retry_after_failure(1, 5, "timed out"), RetryDecision::RetryAfterSecs(2));
    assert_eq!(retry_after_failure(3, 5, "timed out"), RetryDecision::RetryAfterSecs(6));
    assert_eq!(retry_after_failure(5, 5, "timed out"), RetryDecision::GiveUp);
    assert_eq!(retry_after_failure(1, 5, "HTTP status client error (403 Forbidden)"), RetryDecision::GiveUp);
    assert_eq!(retry_after_failure(1, 5, "API Rate Limit exceeded"), RetryDecision::GiveUp);
    assert_eq!(
        retry_failure_message("fetch latest GitHub release metadata", 5, "boom"),
        "Unable to fetch latest GitHub release metadata after 5 attempts: boom"
    );
}

#[test]
fn github_requests() {
    assert_eq!(
        latest_release_api_url("dnecra", "lyrics-server"),
        "https://api.github.com/repos/dnecra/lyrics-server/releases/latest"
    );
    assert_eq!(github_bearer_value(Some("  tok \n")).unwrap(), "Bearer tok");
    let missing = "GITHUB_TOKEN is required for standalone server release downloads";
    assert_eq!(github_bearer_value(Some("   ")).unwrap_err(), missing);
    assert_eq!(github_bearer_value(None).unwrap_err(), missing);
}

#[test]
fn startup_install_decisions() {
    assert!(can_skip_startup_check(true, Some("v1"), Some("v1")));
    assert!(!can_skip_startup_check(false, Some("v1"), Some("v1")));
    assert!(!can_skip_startup_check(true, Some("v1"), Some("v2")));
    assert!(!can_skip_startup_check(true, None, Some("v1")));
    assert!(!can_skip_startup_check(true, Some("v1"), None));
    assert!(!release_needs_install(true, Some("v1"), "v1"));
    assert!(release_needs_install(false, Some("v1"), "v1"));
    assert!(release_needs_install(true, Some("v0"), "v1"));
    assert!(release_needs_install(true, None, "v1"));
}

#[test]
fn staged_names() {
    let r = release("v1");
    assert_eq!(staged_download_name(&r), "a.7z");
    let mut e = release("v1");
    e.asset_kind = ReleaseAssetKind::Executable;
    assert_eq!(staged_download_name(&e), "a.exe");
}

/// Runs the install steps with the given outcomes (missing outcomes count as
/// success) and returns the steps taken, the last one final.
fn install_path(kind: ReleaseAssetKind, restart: bool, failing: &[InstallStep]) -> Vec<InstallStep> {
    let mut step = InstallStep::Download;
    let mut path = vec![step];
    while step != InstallStep::Done && step != InstallStep::Failed {
        let ok = !failing.contains(&step);
        step = install_next(step, ok, kind, restart);
        path.push(step);
    }
    path
}

#[test]
fn install_sequences() {
    assert_eq!(
        install_path(ReleaseAssetKind::Archive7z, true, &[]),
        vec![InstallStep::Download, InstallStep::Verify, InstallStep::Extract, InstallStep::MarkInstalling, InstallStep::StopServer, InstallStep::Replace, InstallStep::StartServer, InstallStep::Done]
    );
    assert_eq!(
        install_path(ReleaseAssetKind::Executable, false, &[]),
        vec![InstallStep::Download, InstallStep::Verify, InstallStep::MarkInstalling, InstallStep::Replace, InstallStep::Done]
    );
    assert_eq!(install_path(ReleaseAssetKind::Executable, true, &[InstallStep::Verify]), vec![InstallStep::Download, InstallStep::Verify, InstallStep::Failed]);
    assert_eq!(install_path(ReleaseAssetKind::Archive7z, true, &[InstallStep::Download]), vec![InstallStep::Download, InstallStep::Failed]);
    assert_eq!(
        install_path(ReleaseAssetKind::Archive7z, false, &[InstallStep::Extract]),
        vec![InstallStep::Download, InstallStep::Verify, InstallStep::Extract, InstallStep::Failed]
    );
    assert_eq!(
        install_path(ReleaseAssetKind::Executable, true, &[InstallStep::Replace]),
        vec![InstallStep::Download, InstallStep::Verify, InstallStep::MarkInstalling, InstallStep::StopServer, InstallStep::Replace, InstallStep::RestartAfterFailedReplace, InstallStep::Failed]
    );
    assert_eq!(
        install_path(ReleaseAssetKind::Executable, false, &[InstallStep::Replace]),
        vec![InstallStep::Download, InstallStep::Verify, InstallStep::MarkInstalling, InstallStep::Replace, InstallStep::Failed]
    );
    assert_eq!(
        install_path(ReleaseAssetKind::Executable, true, &[InstallStep::StartServer]),
        vec![InstallStep::Download, InstallStep::Verify, InstallStep::MarkInstalling, InstallStep::StopServer, InstallStep::Replace, InstallStep::StartServer, InstallStep::Failed]
    );
    assert_eq!(install_next(InstallStep::Done, false, ReleaseAssetKind::Executable, true), InstallStep::Done);
}

fn update_run_path(failing: &[UpdateRunStep]) -> Vec<UpdateRunStep> {
    let mut step = UpdateRunStep::LoadContext;
    let mut path = vec![step];
    while step != UpdateRunStep::Done {
        step = update_run_next(step, !failing.contains(&step));
        path.push(step);
    }
    path
}

#[test]
fn tray_update_sequences() {
    assert_eq!(
        update_run_path(&[]),
        vec![UpdateRunStep::LoadContext, UpdateRunStep::MarkResolving, UpdateRunStep::Fetch, UpdateRunStep::Cache, UpdateRunStep::MarkDownloading, UpdateRunStep::Install, UpdateRunStep::Persist, UpdateRunStep::MarkIdle, UpdateRunStep::Done]
    );
    assert_eq!(update_run_path(&[UpdateRunStep::Fetch]), vec![UpdateRunStep::LoadContext, UpdateRunStep::MarkResolving, UpdateRunStep::Fetch, UpdateRunStep::RestartServer, UpdateRunStep::MarkFailed, UpdateRunStep::Done]);
    assert_eq!(
        update_run_path(&[UpdateRunStep::Install]),
        vec![UpdateRunStep::LoadContext, UpdateRunStep::MarkResolving, UpdateRunStep::Fetch, UpdateRunStep::Cache, UpdateRunStep::MarkDownloading, UpdateRunStep::Install, UpdateRunStep::RestartServer, UpdateRunStep::MarkFailed, UpdateRunStep::Done]
    );
    assert_eq!(update_run_path(&[UpdateRunStep::LoadContext]), vec![UpdateRunStep::LoadContext, UpdateRunStep::RestartServer, UpdateRunStep::MarkFailed, UpdateRunStep::Done]);
}
