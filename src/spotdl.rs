//! The playlist download: settings, the downloader's release for each
//! platform, provisioning of its binary, and the sequence of steps from
//! reading the settings to the downloader's exit, as a state machine whose
//! actions the caller performs.
use vstd::prelude::*;

use crate::text::{chars_of, str_eq};

verus! {

/// A setting that the download needs.
#[derive(Clone, Copy, Debug, PartialEq, Eq, Structural)]
pub enum SettingsKey {
    /// `spotify_url`: the playlist to download.
    SpotifyUrl,
    /// `data_dir`: where the downloader's binary is installed.
    DataDir,
    /// `default_dir`: where the downloaded tracks go.
    DefaultDir,
}

/// The platforms for which a downloader release exists.
#[derive(Clone, Copy, Debug, PartialEq, Eq, Structural)]
pub enum Platform {
    Linux,
    MacOs,
    Windows,
}

/// What a look at the install path found.
#[derive(Clone, Copy, Debug, PartialEq, Eq, Structural)]
pub enum BinaryProbe {
    /// No file there.
    Missing,
    /// A file with these permission bits (not consulted on Windows).
    Present { mode: u32 },
}

/// What provisioning has to do.
#[derive(Clone, Copy, Debug, PartialEq, Eq, Structural)]
pub enum Provision {
    /// The binary is in place and executable: nothing to fetch.
    Ready,
    /// Fetch the binary and write it, then mark it executable where asked.
    Fetch { make_executable: bool },
}

/// The settings of a download, their surrounding quotes removed.
#[derive(Debug, PartialEq, Eq)]
pub struct DownloadSettings {
    pub spotify_url: String,
    pub data_dir: String,
    pub default_dir: String,
}

/// Why a download stopped short of a successful exit.
#[derive(Debug, PartialEq, Eq)]
pub enum DownloadError {
    /// A required setting is absent.
    MissingSetting(SettingsKey),
    /// No downloader release exists for this platform.
    UnsupportedPlatform(String),
    /// Fetching or installing the binary failed, for the reason given.
    ProvisionFailed(String),
    /// The downloader could not be started, for the reason given.
    SpawnFailed(String),
    /// The downloader exited with this code (none: killed by a signal) other than 0.
    ExitFailure(Option<i32>),
    /// An event that does not answer the last action.
    UnexpectedEvent,
}

/// Where a download stands.
#[derive(Debug, PartialEq, Eq)]
pub enum DownloadState {
    Idle,
    SettingsLoaded { settings: DownloadSettings },
    PlatformResolved {
        settings: DownloadSettings,
        platform: Platform,
        url: String,
        tool_path: String,
    },
    BinaryReady { tool_path: String },
    Running,
    Completed,
    Failed { error: DownloadError },
}

/// What the caller observed after performing an action.
#[derive(Debug, PartialEq, Eq)]
pub enum DownloadEvent {
    /// The three settings as stored, each absent if the key is missing.
    SettingsRead {
        spotify_url: Option<String>,
        data_dir: Option<String>,
        default_dir: Option<String>,
    },
    /// The identifier of the running platform.
    PlatformDetected { platform: String },
    /// What is at the install path.
    BinaryProbed { probe: BinaryProbe },
    /// Whether fetching and installing the binary worked.
    BinaryFetched { outcome: Result<(), String> },
    /// Whether the downloader started.
    Spawned { outcome: Result<(), String> },
    /// The downloader's exit code, none when a signal ended it.
    Exited { code: Option<i32> },
}

/// What the caller is to do next.
#[derive(Debug, PartialEq, Eq)]
pub enum DownloadAction {
    ReadSettings,
    DetectPlatform,
    /// Look whether a file is at `path`, and at its permission bits.
    ProbeBinary { path: String },
    /// Fetch `url`, write it to `path`, and set its executable bits if asked.
    FetchBinary { url: String, path: String, make_executable: bool },
    /// Change into `working_dir` (a failure there is not fatal) and run
    /// `program` with `args`, its output shown as it comes.
    Spawn { program: String, args: Vec<String>, working_dir: String },
    /// Wait until the downloader exits.
    WaitForExit,
    /// Nothing more: the download is over.
    Stop,
}

/// The model of `DownloadSettings`.
pub struct SettingsView {
    pub spotify_url: Seq<char>,
    pub data_dir: Seq<char>,
    pub default_dir: Seq<char>,
}

/// The model of `DownloadError`.
pub enum ErrorView {
    MissingSetting(SettingsKey),
    UnsupportedPlatform(Seq<char>),
    ProvisionFailed(Seq<char>),
    SpawnFailed(Seq<char>),
    ExitFailure(Option<i32>),
    UnexpectedEvent,
}

/// The model of `DownloadState`.
pub enum StateView {
    Idle,
    SettingsLoaded { settings: SettingsView },
    PlatformResolved {
        settings: SettingsView,
        platform: Platform,
        url: Seq<char>,
        tool_path: Seq<char>,
    },
    BinaryReady { tool_path: Seq<char> },
    Running,
    Completed,
    Failed { error: ErrorView },
}

/// The model of `DownloadEvent`.
pub enum EventView {
    SettingsRead {
        spotify_url: Option<Seq<char>>,
        data_dir: Option<Seq<char>>,
        default_dir: Option<Seq<char>>,
    },
    PlatformDetected { platform: Seq<char> },
    BinaryProbed { probe: BinaryProbe },
    BinaryFetched { outcome: Result<(), Seq<char>> },
    Spawned { outcome: Result<(), Seq<char>> },
    Exited { code: Option<i32> },
}

/// The model of `DownloadAction`.
pub enum ActionView {
    ReadSettings,
    DetectPlatform,
    ProbeBinary { path: Seq<char> },
    FetchBinary { url: Seq<char>, path: Seq<char>, make_executable: bool },
    Spawn { program: Seq<char>, args: Seq<Seq<char>>, working_dir: Seq<char> },
    WaitForExit,
    Stop,
}

/// The view of an optional string.
pub open spec fn opt_str_view(o: Option<String>) -> Option<Seq<char>> {
    match o {
        Some(s) => Some(s@),
        None => None,
    }
}

/// The view of an outcome that carries a message on failure.
pub open spec fn outcome_view(o: Result<(), String>) -> Result<(), Seq<char>> {
    match o {
        Ok(()) => Ok(()),
        Err(m) => Err(m@),
    }
}

impl View for DownloadSettings {
    type V = SettingsView;

    open spec fn view(&self) -> SettingsView {
        SettingsView {
            spotify_url: self.spotify_url@,
            data_dir: self.data_dir@,
            default_dir: self.default_dir@,
        }
    }
}

impl View for DownloadError {
    type V = ErrorView;

    open spec fn view(&self) -> ErrorView {
        match self {
            DownloadError::MissingSetting(k) => ErrorView::MissingSetting(*k),
            DownloadError::UnsupportedPlatform(p) => ErrorView::UnsupportedPlatform(p@),
            DownloadError::ProvisionFailed(m) => ErrorView::ProvisionFailed(m@),
            DownloadError::SpawnFailed(m) => ErrorView::SpawnFailed(m@),
            DownloadError::ExitFailure(c) => ErrorView::ExitFailure(*c),
            DownloadError::UnexpectedEvent => ErrorView::UnexpectedEvent,
        }
    }
}

impl View for DownloadState {
    type V = StateView;

    open spec fn view(&self) -> StateView {
        match self {
            DownloadState::Idle => StateView::Idle,
            DownloadState::SettingsLoaded { settings } => StateView::SettingsLoaded {
                settings: settings@,
            },
            DownloadState::PlatformResolved { settings, platform, url, tool_path } =>
                StateView::PlatformResolved {
                settings: settings@,
                platform: *platform,
                url: url@,
                tool_path: tool_path@,
            },
            DownloadState::BinaryReady { tool_path } => StateView::BinaryReady {
                tool_path: tool_path@,
            },
            DownloadState::Running => StateView::Running,
            DownloadState::Completed => StateView::Completed,
            DownloadState::Failed { error } => StateView::Failed { error: error@ },
        }
    }
}

impl View for DownloadEvent {
    type V = EventView;

    open spec fn view(&self) -> EventView {
        match self {
            DownloadEvent::SettingsRead { spotify_url, data_dir, default_dir } =>
                EventView::SettingsRead {
                spotify_url: opt_str_view(*spotify_url),
                data_dir: opt_str_view(*data_dir),
                default_dir: opt_str_view(*default_dir),
            },
            DownloadEvent::PlatformDetected { platform } => EventView::PlatformDetected {
                platform: platform@,
            },
            DownloadEvent::BinaryProbed { probe } => EventView::BinaryProbed { probe: *probe },
            DownloadEvent::BinaryFetched { outcome } => EventView::BinaryFetched {
                outcome: outcome_view(*outcome),
            },
            DownloadEvent::Spawned { outcome } => EventView::Spawned {
                outcome: outcome_view(*outcome),
            },
            DownloadEvent::Exited { code } => EventView::Exited { code: *code },
        }
    }
}

impl View for DownloadAction {
    type V = ActionView;

    open spec fn view(&self) -> ActionView {
        match self {
            DownloadAction::ReadSettings => ActionView::ReadSettings,
            DownloadAction::DetectPlatform => ActionView::DetectPlatform,
            DownloadAction::ProbeBinary { path } => ActionView::ProbeBinary { path: path@ },
            DownloadAction::FetchBinary { url, path, make_executable } =>
                ActionView::FetchBinary { url: url@, path: path@, make_executable: *make_executable },
            DownloadAction::Spawn { program, args, working_dir } => ActionView::Spawn {
                program: program@,
                args: args@.map_values(|a: String| a@),
                working_dir: working_dir@,
            },
            DownloadAction::WaitForExit => ActionView::WaitForExit,
            DownloadAction::Stop => ActionView::Stop,
        }
    }
}

/// A stored value with one layer of surrounding double quotes removed: a
/// value that begins and ends with `"` loses those two characters, any other
/// value stays as it is.
pub open spec fn unquoted(s: Seq<char>) -> Seq<char> {
    if s.len() >= 2 && s[0] == '"' && s[s.len() - 1] == '"' {
        s.subrange(1, s.len() - 1)
    } else {
        s
    }
}

/// `raw` with one layer of surrounding double quotes removed (see `unquoted`).
pub fn strip_quotes(raw: &str) -> (r: String)
    ensures
        r@ == unquoted(raw@),
{
    let c = chars_of(raw);
    let n = c.len();
    if n >= 2 && c[0] == '"' && c[n - 1] == '"' {
        raw.substring_char(1, n - 1).to_owned()
    } else {
        raw.to_owned()
    }
}

/// The settings of a download from the three stored values, or the first
/// missing key, in the order `spotify_url`, `data_dir`, `default_dir`.
pub open spec fn settings_of(
    spotify_url: Option<Seq<char>>,
    data_dir: Option<Seq<char>>,
    default_dir: Option<Seq<char>>,
) -> Result<SettingsView, SettingsKey> {
    match (spotify_url, data_dir, default_dir) {
        (None, _, _) => Err(SettingsKey::SpotifyUrl),
        (Some(_), None, _) => Err(SettingsKey::DataDir),
        (Some(_), Some(_), None) => Err(SettingsKey::DefaultDir),
        (Some(u), Some(d), Some(w)) => Ok(
            SettingsView { spotify_url: unquoted(u), data_dir: unquoted(d), default_dir: unquoted(w) },
        ),
    }
}

/// The settings of a download from the values stored under `spotify_url`,
/// `data_dir` and `default_dir`, each unquoted; every key is required, and a
/// missing one is reported (the first, in that order).
pub fn load_settings(
    spotify_url: Option<String>,
    data_dir: Option<String>,
    default_dir: Option<String>,
) -> (r: Result<DownloadSettings, SettingsKey>)
    ensures
        match (r, settings_of(opt_str_view(spotify_url), opt_str_view(data_dir), opt_str_view(default_dir))) {
            (Ok(s), Ok(v)) => s@ == v,
            (Err(k), Err(j)) => k == j,
            _ => false,
        },
{
    match (spotify_url, data_dir, default_dir) {
        (None, _, _) => Err(SettingsKey::SpotifyUrl),
        (Some(_), None, _) => Err(SettingsKey::DataDir),
        (Some(_), Some(_), None) => Err(SettingsKey::DefaultDir),
        (Some(u), Some(d), Some(w)) => Ok(
            DownloadSettings {
                spotify_url: strip_quotes(u.as_str()),
                data_dir: strip_quotes(d.as_str()),
                default_dir: strip_quotes(w.as_str()),
            },
        ),
    }
}

/// The platform that an identifier names: `linux`, `macos` or `windows`.
pub open spec fn platform_of(id: Seq<char>) -> Option<Platform> {
    if id == "linux"@ {
        Some(Platform::Linux)
    } else if id == "macos"@ {
        Some(Platform::MacOs)
    } else if id == "windows"@ {
        Some(Platform::Windows)
    } else {
        None
    }
}

/// Where the downloader's release for a platform is published.
pub open spec fn download_url(p: Platform) -> Seq<char> {
    match p {
        Platform::Linux =>
            "https://github.com/spotDL/spotify-downloader/releases/download/v4.2.11/spotdl-4.2.11-linux"@,
        Platform::MacOs =>
            "https://github.com/spotDL/spotify-downloader/releases/download/v4.2.11/spotdl-4.2.11-darwin"@,
        Platform::Windows =>
            "https://github.com/spotDL/spotify-downloader/releases/download/v4.2.11/spotdl-4.2.11-win32.exe"@,
    }
}

/// What resolving a platform identifier gives: the release URL, or the
/// identifier itself when no release exists for it.
pub open spec fn resolution_of(id: Seq<char>) -> Result<Seq<char>, Seq<char>> {
    match platform_of(id) {
        Some(p) => Ok(download_url(p)),
        None => Err(id),
    }
}

/// The platform that `id` names, if it is one with a downloader release.
pub fn parse_platform(id: &str) -> (r: Option<Platform>)
    ensures
        r == platform_of(id@),
{
    if str_eq(id, "linux") {
        Some(Platform::Linux)
    } else if str_eq(id, "macos") {
        Some(Platform::MacOs)
    } else if str_eq(id, "windows") {
        Some(Platform::Windows)
    } else {
        None
    }
}

/// The URL of the downloader's release for `p`.
pub fn platform_download_url(p: Platform) -> (r: String)
    ensures
        r@ == download_url(p),
{
    match p {
        Platform::Linux =>
            "https://github.com/spotDL/spotify-downloader/releases/download/v4.2.11/spotdl-4.2.11-linux".to_owned(),
        Platform::MacOs =>
            "https://github.com/spotDL/spotify-downloader/releases/download/v4.2.11/spotdl-4.2.11-darwin".to_owned(),
        Platform::Windows =>
            "https://github.com/spotDL/spotify-downloader/releases/download/v4.2.11/spotdl-4.2.11-win32.exe".to_owned(),
    }
}

/// The URL of the downloader's release for the platform `platform`, or
/// `UnsupportedPlatform` (naming it) for any identifier but `linux`, `macos`
/// and `windows`.
pub fn resolve(platform: &str) -> (r: Result<String, DownloadError>)
    ensures
        match (r, resolution_of(platform@)) {
            (Ok(u), Ok(v)) => u@ == v,
            (Err(e), Err(id)) => e@ == ErrorView::UnsupportedPlatform(id),
            _ => false,
        },
{
    match parse_platform(platform) {
        Some(p) => Ok(platform_download_url(p)),
        None => Err(DownloadError::UnsupportedPlatform(platform.to_owned())),
    }
}

/// Where the downloader's binary is installed in `dir` on platform `p`.
pub open spec fn tool_path_of(dir: Seq<char>, p: Platform) -> Seq<char> {
    match p {
        Platform::Windows => dir + "/spotdl.exe"@,
        _ => dir + "/spotdl"@,
    }
}

/// The install path of the downloader's binary in `install_dir` on `p`.
pub fn binary_path(install_dir: &str, p: Platform) -> (r: String)
    ensures
        r@ == tool_path_of(install_dir@, p),
{
    let mut path = install_dir.to_owned();
    match p {
        Platform::Windows => path.append("/spotdl.exe"),
        _ => path.append("/spotdl"),
    }
    path
}

/// Permission bits that let someone execute the file.
pub open spec fn executable_mode(mode: u32) -> bool {
    mode & 0o111 != 0
}

/// Whether `mode` sets an execute bit for owner, group or others.
pub fn is_executable_mode(mode: u32) -> (r: bool)
    ensures
        r == executable_mode(mode),
{
    mode & 0o111 != 0
}

/// The binary is in place and may be run: on Windows a file is there; on
/// other platforms a file is there with an execute bit set.
pub open spec fn probe_ready(p: Platform, probe: BinaryProbe) -> bool {
    match probe {
        BinaryProbe::Missing => false,
        BinaryProbe::Present { mode } => p == Platform::Windows || executable_mode(mode),
    }
}

/// What provisioning does after `probe`: nothing when the binary is ready;
/// otherwise a fetch, followed off Windows by setting the execute bits, since
/// a freshly written file is not executable.
pub open spec fn provision_of(p: Platform, probe: BinaryProbe) -> Provision {
    if probe_ready(p, probe) {
        Provision::Ready
    } else {
        Provision::Fetch { make_executable: p != Platform::Windows }
    }
}

/// Provisioning of the downloader on `p`, given what is at the install path now.
pub fn provision(p: Platform, probe: BinaryProbe) -> (r: Provision)
    ensures
        r == provision_of(p, probe),
{
    let windows = match p {
        Platform::Windows => true,
        _ => false,
    };
    let ready = match probe {
        BinaryProbe::Missing => false,
        BinaryProbe::Present { mode } => windows || is_executable_mode(mode),
    };
    if ready {
        Provision::Ready
    } else {
        Provision::Fetch { make_executable: !windows }
    }
}

/// The downloader's arguments for the playlist at `spotify_url`.
pub open spec fn spotdl_args_of(spotify_url: Seq<char>) -> Seq<Seq<char>> {
    seq!["download"@, spotify_url]
}

/// The arguments that make the downloader fetch the playlist at `spotify_url`.
pub fn spotdl_args(spotify_url: &str) -> (r: Vec<String>)
    ensures
        r@.map_values(|a: String| a@) == spotdl_args_of(spotify_url@),
{
    let mut args: Vec<String> = Vec::new();
    args.push("download".to_owned());
    args.push(spotify_url.to_owned());
    assert(args@.map_values(|a: String| a@) =~= spotdl_args_of(spotify_url@));
    args
}

/// The action that runs the downloader installed at `tool_path` with `settings`.
pub open spec fn spawn_action_of(settings: SettingsView, tool_path: Seq<char>) -> ActionView {
    ActionView::Spawn {
        program: tool_path,
        args: spotdl_args_of(settings.spotify_url),
        working_dir: settings.default_dir,
    }
}

/// How a download moves on when `event` is observed in `state`: settings,
/// then the platform, then the binary (fetched when it is not ready), then the
/// downloader's run. A missing setting, an unsupported platform, a failed
/// fetch, a failed start or a failing exit ends the download in `Failed`; an
/// ended download stays as it is and asks for nothing more.
pub open spec fn step_of(state: StateView, event: EventView) -> (StateView, ActionView) {
    match (state, event) {
        (StateView::Completed, _) => (state, ActionView::Stop),
        (StateView::Failed { .. }, _) => (state, ActionView::Stop),
        (StateView::Idle, EventView::SettingsRead { spotify_url, data_dir, default_dir }) => {
            match settings_of(spotify_url, data_dir, default_dir) {
                Ok(settings) => (StateView::SettingsLoaded { settings }, ActionView::DetectPlatform),
                Err(key) => (
                    StateView::Failed { error: ErrorView::MissingSetting(key) },
                    ActionView::Stop,
                ),
            }
        },
        (StateView::SettingsLoaded { settings }, EventView::PlatformDetected { platform: id }) => {
            match platform_of(id) {
                Some(platform) => {
                    let tool_path = tool_path_of(settings.data_dir, platform);
                    (
                        StateView::PlatformResolved {
                            settings,
                            platform,
                            url: download_url(platform),
                            tool_path,
                        },
                        ActionView::ProbeBinary { path: tool_path },
                    )
                },
                None => (
                    StateView::Failed { error: ErrorView::UnsupportedPlatform(id) },
                    ActionView::Stop,
                ),
            }
        },
        (
            StateView::PlatformResolved { settings, platform, url, tool_path },
            EventView::BinaryProbed { probe },
        ) => {
            match provision_of(platform, probe) {
                Provision::Ready => (
                    StateView::BinaryReady { tool_path },
                    spawn_action_of(settings, tool_path),
                ),
                Provision::Fetch { make_executable } => (
                    state,
                    ActionView::FetchBinary { url, path: tool_path, make_executable },
                ),
            }
        },
        (
            StateView::PlatformResolved { settings, tool_path, .. },
            EventView::BinaryFetched { outcome },
        ) => {
            match outcome {
                Ok(()) => (StateView::BinaryReady { tool_path }, spawn_action_of(settings, tool_path)),
                Err(m) => (StateView::Failed { error: ErrorView::ProvisionFailed(m) }, ActionView::Stop),
            }
        },
        (StateView::BinaryReady { .. }, EventView::Spawned { outcome }) => {
            match outcome {
                Ok(()) => (StateView::Running, ActionView::WaitForExit),
                Err(m) => (StateView::Failed { error: ErrorView::SpawnFailed(m) }, ActionView::Stop),
            }
        },
        (StateView::Running, EventView::Exited { code }) => {
            if code == Some(0i32) {
                (StateView::Completed, ActionView::Stop)
            } else {
                (StateView::Failed { error: ErrorView::ExitFailure(code) }, ActionView::Stop)
            }
        },
        _ => (StateView::Failed { error: ErrorView::UnexpectedEvent }, ActionView::Stop),
    }
}

/// A download that has not begun, and its first action: read the settings.
pub fn start() -> (r: (DownloadState, DownloadAction))
    ensures
        r.0@ == StateView::Idle,
        r.1@ == ActionView::ReadSettings,
{
    (DownloadState::Idle, DownloadAction::ReadSettings)
}

fn spawn_action(settings: DownloadSettings, tool_path: &str) -> (r: DownloadAction)
    ensures
        r@ == spawn_action_of(settings@, tool_path@),
{
    let args = spotdl_args(settings.spotify_url.as_str());
    DownloadAction::Spawn {
        program: tool_path.to_owned(),
        args,
        working_dir: settings.default_dir,
    }
}

/// The next state of a download in `state` that observed `event`, and the
/// action to perform next (see `step_of`).
pub fn step(state: DownloadState, event: DownloadEvent) -> (r: (DownloadState, DownloadAction))
    ensures
        (r.0@, r.1@) == step_of(state@, event@),
{
    match (state, event) {
        (DownloadState::Completed, _) => (DownloadState::Completed, DownloadAction::Stop),
        (DownloadState::Failed { error }, _) => (DownloadState::Failed { error }, DownloadAction::Stop),
        (
            DownloadState::Idle,
            DownloadEvent::SettingsRead { spotify_url, data_dir, default_dir },
        ) => {
            match load_settings(spotify_url, data_dir, default_dir) {
                Ok(settings) => (
                    DownloadState::SettingsLoaded { settings },
                    DownloadAction::DetectPlatform,
                ),
                Err(key) => (
                    DownloadState::Failed { error: DownloadError::MissingSetting(key) },
                    DownloadAction::Stop,
                ),
            }
        },
        (DownloadState::SettingsLoaded { settings }, DownloadEvent::PlatformDetected { platform }) => {
            match parse_platform(platform.as_str()) {
                Some(p) => {
                    let tool_path = binary_path(settings.data_dir.as_str(), p);
                    let path = tool_path.clone();
                    (
                        DownloadState::PlatformResolved {
                            settings,
                            platform: p,
                            url: platform_download_url(p),
                            tool_path,
                        },
                        DownloadAction::ProbeBinary { path },
                    )
                },
                None => (
                    DownloadState::Failed { error: DownloadError::UnsupportedPlatform(platform) },
                    DownloadAction::Stop,
                ),
            }
        },
        (
            DownloadState::PlatformResolved { settings, platform, url, tool_path },
            DownloadEvent::BinaryProbed { probe },
        ) => {
            match provision(platform, probe) {
                Provision::Ready => {
                    let action = spawn_action(settings, tool_path.as_str());
                    (DownloadState::BinaryReady { tool_path }, action)
                },
                Provision::Fetch { make_executable } => {
                    let action = DownloadAction::FetchBinary {
                        url: url.clone(),
                        path: tool_path.clone(),
                        make_executable,
                    };
                    (DownloadState::PlatformResolved { settings, platform, url, tool_path }, action)
                },
            }
        },
        (
            DownloadState::PlatformResolved { settings, tool_path, .. },
            DownloadEvent::BinaryFetched { outcome },
        ) => {
            match outcome {
                Ok(()) => {
                    let action = spawn_action(settings, tool_path.as_str());
                    (DownloadState::BinaryReady { tool_path }, action)
                },
                Err(m) => (
                    DownloadState::Failed { error: DownloadError::ProvisionFailed(m) },
                    DownloadAction::Stop,
                ),
            }
        },
        (DownloadState::BinaryReady { .. }, DownloadEvent::Spawned { outcome }) => {
            match outcome {
                Ok(()) => (DownloadState::Running, DownloadAction::WaitForExit),
                Err(m) => (
                    DownloadState::Failed { error: DownloadError::SpawnFailed(m) },
                    DownloadAction::Stop,
                ),
            }
        },
        (DownloadState::Running, DownloadEvent::Exited { code }) => {
            let success = match code {
                Some(c) => c == 0,
                None => false,
            };
            if success {
                (DownloadState::Completed, DownloadAction::Stop)
            } else {
                (DownloadState::Failed { error: DownloadError::ExitFailure(code) }, DownloadAction::Stop)
            }
        },
        _ => (DownloadState::Failed { error: DownloadError::UnexpectedEvent }, DownloadAction::Stop),
    }
}

/// The actions that a download asks for, from `state` on, when it observes `events` in turn.
pub open spec fn run_actions(state: StateView, events: Seq<EventView>) -> Seq<ActionView>
    decreases events.len(),
{
    if events.len() == 0 {
        Seq::empty()
    } else {
        let (next, action) = step_of(state, events[0]);
        seq![action] + run_actions(next, events.drop_first())
    }
}

/// Settings read with at least one of the three keys missing.
pub open spec fn lacks_setting(event: EventView) -> bool {
    match event {
        EventView::SettingsRead { spotify_url, data_dir, default_dir } => spotify_url is None
            || data_dir is None || default_dir is None,
        _ => false,
    }
}

proof fn lemma_run_len(state: StateView, events: Seq<EventView>)
    ensures
        run_actions(state, events).len() == events.len(),
    decreases events.len(),
{
    if events.len() > 0 {
        lemma_run_len(step_of(state, events[0]).0, events.drop_first());
    }
}

proof fn lemma_failed_run_stops(error: ErrorView, events: Seq<EventView>)
    ensures
        forall|i: int|
            0 <= i < events.len() ==> #[trigger] run_actions(StateView::Failed { error }, events)[i]
                == ActionView::Stop,
    decreases events.len(),
{
    if events.len() > 0 {
        let rest = events.drop_first();
        lemma_failed_run_stops(error, rest);
        lemma_run_len(StateView::Failed { error }, rest);
        let acts = run_actions(StateView::Failed { error }, events);
        assert forall|i: int| 0 <= i < events.len() implies #[trigger] acts[i]
            == ActionView::Stop by {
            if i > 0 {
                assert(acts[i] == run_actions(StateView::Failed { error }, rest)[i - 1]);
            }
        }
    }
}

/// A download whose settings lack any one of `spotify_url`, `data_dir` and
/// `default_dir` ends at once in `Failed`: whatever is observed afterwards, it
/// never asks to fetch the binary nor to start the downloader.
pub proof fn lemma_missing_setting_never_spawns(events: Seq<EventView>)
    requires
        events.len() > 0,
        lacks_setting(events[0]),
    ensures
        step_of(StateView::Idle, events[0]).0 is Failed,
        forall|i: int|
            0 <= i < events.len() ==> !(#[trigger] run_actions(StateView::Idle, events)[i] is Spawn)
                && !(run_actions(StateView::Idle, events)[i] is FetchBinary),
{
    let (next, action) = step_of(StateView::Idle, events[0]);
    let rest = events.drop_first();
    assert(action == ActionView::Stop);
    let error = next->error;
    assert(next == StateView::Failed { error });
    lemma_failed_run_stops(error, rest);
    lemma_run_len(next, rest);
    let acts = run_actions(StateView::Idle, events);
    assert forall|i: int| 0 <= i < events.len() implies !(#[trigger] acts[i] is Spawn)
        && !(acts[i] is FetchBinary) by {
        if i > 0 {
            assert(acts[i] == run_actions(next, rest)[i - 1]);
        }
    }
}

/// Provisioning is re-decided from each probe and is idempotent: every probe
/// that finds the binary in place and executable gives `Ready`, with no fetch,
/// however often it is repeated; and a download that observes such a probe
/// goes straight to starting the downloader.
pub proof fn lemma_provision_idempotent(
    p: Platform,
    first: BinaryProbe,
    second: BinaryProbe,
    settings: SettingsView,
    url: Seq<char>,
    tool_path: Seq<char>,
)
    requires
        probe_ready(p, first),
        probe_ready(p, second),
    ensures
        provision_of(p, first) == Provision::Ready,
        provision_of(p, second) == Provision::Ready,
        ({
            let state = StateView::PlatformResolved { settings, platform: p, url, tool_path };
            let (next, action) = step_of(state, EventView::BinaryProbed { probe: second });
            &&& next == StateView::BinaryReady { tool_path }
            &&& action == spawn_action_of(settings, tool_path)
        }),
{
}

/// Resolution is a fixed table: exactly `linux`, `macos` and `windows` give a
/// release URL, always the same one for the same identifier; every other
/// identifier gives the unsupported-platform condition.
pub proof fn lemma_resolution_table(id: Seq<char>)
    ensures
        resolution_of(id) is Ok <==> (id == "linux"@ || id == "macos"@ || id == "windows"@),
        id == "linux"@ ==> resolution_of(id) == Ok::<Seq<char>, Seq<char>>(
            download_url(Platform::Linux),
        ),
        id == "macos"@ ==> resolution_of(id) == Ok::<Seq<char>, Seq<char>>(
            download_url(Platform::MacOs),
        ),
        id == "windows"@ ==> resolution_of(id) == Ok::<Seq<char>, Seq<char>>(
            download_url(Platform::Windows),
        ),
        resolution_of(id) is Err ==> resolution_of(id) == Err::<Seq<char>, Seq<char>>(id),
{
    reveal_strlit("linux");
    reveal_strlit("macos");
    reveal_strlit("windows");
    assert("linux"@ != "macos"@) by {
        assert("linux"@[0] != "macos"@[0]);
    }
    assert("linux"@.len() != "windows"@.len());
    assert("macos"@.len() != "windows"@.len());
}

/// Admits one download at a time: a second trigger while one is in flight
/// is refused rather than racing on the same directories.
pub struct DownloadGuard {
    in_flight: bool,
}

impl DownloadGuard {
    /// Whether a download holds the guard.
    pub closed spec fn busy(&self) -> bool {
        self.in_flight
    }

    /// A guard that no download holds.
    pub fn new() -> (r: Self)
        ensures
            !r.busy(),
    {
        DownloadGuard { in_flight: false }
    }

    /// Takes the guard if it is free; `true` when it was taken by this call.
    pub fn try_begin(&mut self) -> (r: bool)
        ensures
            r == !old(self).busy(),
            final(self).busy(),
    {
        if self.in_flight {
            false
        } else {
            self.in_flight = true;
            true
        }
    }

    /// Releases the guard at the end of a download.
    pub fn finish(&mut self)
        ensures
            !final(self).busy(),
    {
        self.in_flight = false;
    }

    /// Whether a download holds the guard.
    pub fn is_busy(&self) -> (r: bool)
        ensures
            r == self.busy(),
    {
        self.in_flight
    }
}

} // verus!
