use musik::spotdl::{
    binary_path, is_executable_mode, load_settings, parse_platform, platform_download_url,
    provision, resolve, spotdl_args, start, step, strip_quotes, BinaryProbe, DownloadAction,
    DownloadError, DownloadEvent, DownloadGuard, DownloadSettings, DownloadState, Platform,
    Provision, SettingsKey,
};

const LINUX_URL: &str =
    "https://github.com/spotDL/spotify-downloader/releases/download/v4.2.11/spotdl-4.2.11-linux";

fn some(s: &str) -> Option<String> {
    Some(s.to_string())
}

fn settings_read(url: Option<&str>, data: Option<&str>, dir: Option<&str>) -> DownloadEvent {
    DownloadEvent::SettingsRead {
        spotify_url: url.map(|s| s.to_string()),
        data_dir: data.map(|s| s.to_string()),
        default_dir: dir.map(|s| s.to_string()),
    }
}

fn detected(p: &str) -> DownloadEvent {
    DownloadEvent::PlatformDetected { platform: p.to_string() }
}

/// Runs the download from its start through `events`, returning every action asked for.
fn run(events: Vec<DownloadEvent>) -> (DownloadState, Vec<DownloadAction>) {
    let (mut state, first) = start();
    let mut actions = vec![first];
    for e in events {
        let (next, action) = step(state, e);
        state = next;
        actions.push(action);
    }
    (state, actions)
}

fn spawns(actions: &[DownloadAction]) -> bool {
    actions.iter().any(|a| matches!(a, DownloadAction::Spawn { .. }))
}

fn fetches(actions: &[DownloadAction]) -> bool {
    actions.iter().any(|a| matches!(a, DownloadAction::FetchBinary { .. }))
}

#[test]
fn strip_one_layer_of_quotes() {
    assert_eq!(strip_quotes("\"https://x\""), "https://x");
    assert_eq!(strip_quotes("plain"), "plain");
    assert_eq!(strip_quotes("\"\""), "");
    assert_eq!(strip_quotes("\""), "\"");
    assert_eq!(strip_quotes("\"half"), "\"half");
    assert_eq!(strip_quotes("\"\"two\"\""), "\"two\"");
}

#[test]
fn settings_all_present() {
    let s = load_settings(some("\"u\""), some("\"/data\""), some("/music")).unwrap();
    assert_eq!(
        s,
        DownloadSettings {
            spotify_url: "u".to_string(),
            data_dir: "/data".to_string(),
            default_dir: "/music".to_string(),
        }
    );
}

#[test]
fn settings_missing_keys() {
    assert_eq!(load_settings(None, some("d"), some("w")), Err(SettingsKey::SpotifyUrl));
    assert_eq!(load_settings(some("u"), None, some("w")), Err(SettingsKey::DataDir));
    assert_eq!(load_settings(some("u"), some("d"), None), Err(SettingsKey::DefaultDir));
    assert_eq!(load_settings(None, None, None), Err(SettingsKey::SpotifyUrl));
}

#[test]
fn platforms_recognized() {
    assert_eq!(parse_platform("linux"), Some(Platform::Linux));
    assert_eq!(parse_platform("macos"), Some(Platform::MacOs));
    assert_eq!(parse_platform("windows"), Some(Platform::Windows));
    assert_eq!(parse_platform("Linux"), None);
    assert_eq!(parse_platform("android"), None);
}

#[test]
fn resolve_is_deterministic() {
    let a = resolve("linux");
    let b = resolve("linux");
    assert_eq!(a, Ok(LINUX_URL.to_string()));
    assert_eq!(a, b);
    let c = resolve("plan9");
    let d = resolve("plan9");
    assert_eq!(c, Err(DownloadError::UnsupportedPlatform("plan9".to_string())));
    assert_eq!(c, d);
}

#[test]
fn release_urls() {
    assert_eq!(
        platform_download_url(Platform::MacOs),
        "https://github.com/spotDL/spotify-downloader/releases/download/v4.2.11/spotdl-4.2.11-darwin"
    );
    assert_eq!(
        resolve("windows"),
        Ok("https://github.com/spotDL/spotify-downloader/releases/download/v4.2.11/spotdl-4.2.11-win32.exe"
            .to_string())
    );
}

#[test]
fn install_paths() {
    assert_eq!(binary_path("/data", Platform::Linux), "/data/spotdl");
    assert_eq!(binary_path("/data", Platform::MacOs), "/data/spotdl");
    assert_eq!(binary_path("C:/data", Platform::Windows), "C:/data/spotdl.exe");
}

#[test]
fn executable_bits() {
    assert!(is_executable_mode(0o755));
    assert!(is_executable_mode(0o100));
    assert!(is_executable_mode(0o001));
    assert!(!is_executable_mode(0o644));
    assert!(!is_executable_mode(0));
}

#[test]
fn provisioning_decisions() {
    assert_eq!(
        provision(Platform::Linux, BinaryProbe::Missing),
        Provision::Fetch { make_executable: true }
    );
    assert_eq!(
        provision(Platform::Windows, BinaryProbe::Missing),
        Provision::Fetch { make_executable: false }
    );
    assert_eq!(
        provision(Platform::MacOs, BinaryProbe::Present { mode: 0o644 }),
        Provision::Fetch { make_executable: true }
    );
    assert_eq!(provision(Platform::Windows, BinaryProbe::Present { mode: 0 }), Provision::Ready);
}

#[test]
fn provisioning_is_idempotent() {
    let probe = BinaryProbe::Present { mode: 0o755 };
    assert_eq!(provision(Platform::Linux, probe), Provision::Ready);
    assert_eq!(provision(Platform::Linux, probe), Provision::Ready);
}

#[test]
fn downloader_arguments() {
    assert_eq!(spotdl_args("https://p"), vec!["download".to_string(), "https://p".to_string()]);
}

#[test]
fn download_with_binary_in_place() {
    let (state, actions) = run(vec![
        settings_read(Some("\"https://open.spotify.com/playlist/x\""), Some("\"/data\""), Some("/music")),
        detected("linux"),
        DownloadEvent::BinaryProbed { probe: BinaryProbe::Present { mode: 0o755 } },
        DownloadEvent::Spawned { outcome: Ok(()) },
        DownloadEvent::Exited { code: Some(0) },
    ]);
    assert_eq!(state, DownloadState::Completed);
    assert_eq!(actions[0], DownloadAction::ReadSettings);
    assert_eq!(actions[1], DownloadAction::DetectPlatform);
    assert_eq!(actions[2], DownloadAction::ProbeBinary { path: "/data/spotdl".to_string() });
    assert_eq!(
        actions[3],
        DownloadAction::Spawn {
            program: "/data/spotdl".to_string(),
            args: vec!["download".to_string(), "https://open.spotify.com/playlist/x".to_string()],
            working_dir: "/music".to_string(),
        }
    );
    assert_eq!(actions[4], DownloadAction::WaitForExit);
    assert_eq!(actions[5], DownloadAction::Stop);
    assert!(!fetches(&actions));
}

#[test]
fn download_fetches_missing_binary() {
    let (state, actions) = run(vec![
        settings_read(Some("u"), Some("/d"), Some("/w")),
        detected("linux"),
        DownloadEvent::BinaryProbed { probe: BinaryProbe::Missing },
        DownloadEvent::BinaryFetched { outcome: Ok(()) },
        DownloadEvent::Spawned { outcome: Ok(()) },
    ]);
    assert_eq!(state, DownloadState::Running);
    assert_eq!(
        actions[3],
        DownloadAction::FetchBinary {
            url: LINUX_URL.to_string(),
            path: "/d/spotdl".to_string(),
            make_executable: true,
        }
    );
    assert!(matches!(actions[4], DownloadAction::Spawn { .. }));
}

#[test]
fn missing_setting_aborts_before_spawn() {
    for (u, d, w, key) in [
        (None, Some("/d"), Some("/w"), SettingsKey::SpotifyUrl),
        (Some("u"), None, Some("/w"), SettingsKey::DataDir),
        (Some("u"), Some("/d"), None, SettingsKey::DefaultDir),
    ] {
        let (state, actions) = run(vec![
            settings_read(u, d, w),
            detected("linux"),
            DownloadEvent::BinaryProbed { probe: BinaryProbe::Present { mode: 0o755 } },
            DownloadEvent::Spawned { outcome: Ok(()) },
        ]);
        assert_eq!(state, DownloadState::Failed { error: DownloadError::MissingSetting(key) });
        assert!(!spawns(&actions));
        assert!(!fetches(&actions));
    }
}

#[test]
fn unsupported_platform_fails() {
    let (state, actions) = run(vec![settings_read(Some("u"), Some("/d"), Some("/w")), detected("plan9")]);
    assert_eq!(
        state,
        DownloadState::Failed { error: DownloadError::UnsupportedPlatform("plan9".to_string()) }
    );
    assert_eq!(actions[2], DownloadAction::Stop);
}

#[test]
fn fetch_failure_is_reported() {
    let (state, actions) = run(vec![
        settings_read(Some("u"), Some("/d"), Some("/w")),
        detected("macos"),
        DownloadEvent::BinaryProbed { probe: BinaryProbe::Missing },
        DownloadEvent::BinaryFetched { outcome: Err("network down".to_string()) },
    ]);
    assert_eq!(
        state,
        DownloadState::Failed { error: DownloadError::ProvisionFailed("network down".to_string()) }
    );
    assert!(!spawns(&actions));
}

#[test]
fn spawn_failure_is_reported() {
    let (state, _) = run(vec![
        settings_read(Some("u"), Some("/d"), Some("/w")),
        detected("windows"),
        DownloadEvent::BinaryProbed { probe: BinaryProbe::Present { mode: 0 } },
        DownloadEvent::Spawned { outcome: Err("not found".to_string()) },
    ]);
    assert_eq!(state, DownloadState::Failed { error: DownloadError::SpawnFailed("not found".to_string()) });
}

#[test]
fn failing_exit_is_reported() {
    let (state, _) = run(vec![
        settings_read(Some("u"), Some("/d"), Some("/w")),
        detected("linux"),
        DownloadEvent::BinaryProbed { probe: BinaryProbe::Present { mode: 0o700 } },
        DownloadEvent::Spawned { outcome: Ok(()) },
        DownloadEvent::Exited { code: Some(1) },
    ]);
    assert_eq!(state, DownloadState::Failed { error: DownloadError::ExitFailure(Some(1)) });
    let (state, _) = run(vec![
        settings_read(Some("u"), Some("/d"), Some("/w")),
        detected("linux"),
        DownloadEvent::BinaryProbed { probe: BinaryProbe::Present { mode: 0o700 } },
        DownloadEvent::Spawned { outcome: Ok(()) },
        DownloadEvent::Exited { code: None },
    ]);
    assert_eq!(state, DownloadState::Failed { error: DownloadError::ExitFailure(None) });
}

#[test]
fn out_of_order_event_fails() {
    let (state, actions) = run(vec![detected("linux")]);
    assert_eq!(state, DownloadState::Failed { error: DownloadError::UnexpectedEvent });
    assert_eq!(actions[1], DownloadAction::Stop);
}

#[test]
fn ended_download_stays_ended() {
    let (state, action) = step(DownloadState::Completed, DownloadEvent::Exited { code: Some(3) });
    assert_eq!(state, DownloadState::Completed);
    assert_eq!(action, DownloadAction::Stop);
}

#[test]
fn guard_admits_one_download() {
    let mut g = DownloadGuard::new();
    assert!(!g.is_busy());
    assert!(g.try_begin());
    assert!(!g.try_begin());
    assert!(g.is_busy());
    g.finish();
    assert!(!g.is_busy());
    assert!(g.try_begin());
}
