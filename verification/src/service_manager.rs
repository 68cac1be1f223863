//! The process supervisor: makes sure that a singleton owner process is
//! reachable, starting one if none is.
//!
//! Probing, searching the file system, spawning and waiting are done by
//! the caller; this module decides what is done next.

use crate::infrastructure::http_client::{
    get_health_url, get_service_url, health_url, service_url, DEFAULT_PORT,
};
use crate::text::{decimal, decimal_string, opt_text, parse_number, parsed_number};
use vstd::prelude::*;

verus! {

/// How long a freshly spawned owner is given before it is probed, in
/// milliseconds.
pub const SETTLE_MILLIS: u64 = 1500;

/// The variable that names the owner's host.
pub const ENV_SERVICE_HOST: &'static str = "INGAT_SERVICE_HOST";

/// The variable that names the owner's port.
pub const ENV_SERVICE_PORT: &'static str = "INGAT_SERVICE_PORT";

/// The variable that names the log level.
pub const ENV_LOG: &'static str = "INGAT_LOG";

/// The variable that overrides the data directory.
pub const ENV_DATA_DIR: &'static str = "INGAT_DATA_DIR";

/// Where a release build leaves the owner binary.
pub const RELEASE_BUILD_DIR: &'static str = "target/release";

/// Where a debug build leaves the owner binary.
pub const DEBUG_BUILD_DIR: &'static str = "target/debug";

/// The words for a search that found no owner binary.
pub const BINARY_NOT_FOUND: &'static str =
    "Could not find mcp_service binary. Please ensure it's built and accessible.";

/// Why a start failed.
#[derive(Debug)]
pub enum StartError {
    /// No owner binary was found in any of the places searched.
    BinaryNotFound,
    /// The binary could not be spawned; the words are the system's.
    SpawnFailed(String),
    /// The owner was spawned but did not answer after the settle interval,
    /// or the supervisor was driven out of turn.
    StartFailed,
}

/// Mathematical model of a [`StartError`].
pub enum StartErrorView {
    BinaryNotFound,
    SpawnFailed(Seq<char>),
    StartFailed,
}

impl View for StartError {
    type V = StartErrorView;

    open spec fn view(&self) -> StartErrorView {
        match self {
            StartError::BinaryNotFound => StartErrorView::BinaryNotFound,
            StartError::SpawnFailed(words) => StartErrorView::SpawnFailed(words@),
            StartError::StartFailed => StartErrorView::StartFailed,
        }
    }
}

impl StartError {
    /// The words for the failure.
    pub fn to_string(&self) -> (out: String)
        ensures
            out@ == match self@ {
                StartErrorView::BinaryNotFound => BINARY_NOT_FOUND@,
                StartErrorView::SpawnFailed(words) => "Failed to spawn mcp-service process: "@
                    + words,
                StartErrorView::StartFailed => "Service failed to start"@,
            },
    {
        match self {
            StartError::BinaryNotFound => BINARY_NOT_FOUND.to_owned(),
            StartError::SpawnFailed(words) => crate::text::join(
                "Failed to spawn mcp-service process: ",
                words.as_str(),
            ),
            StartError::StartFailed => "Service failed to start".to_owned(),
        }
    }
}

/// How a start ended well.
#[derive(Debug, Clone, Copy, PartialEq, Eq, Structural)]
pub enum StartOutcome {
    /// An owner was reachable already; nothing was spawned.
    AlreadyRunning,
    /// An owner was spawned and answered after the settle interval.
    Started,
}

/// Where a start stands.
#[derive(Debug)]
pub enum StartPhase {
    /// The owner is being probed, to see whether anything has to be done.
    Probing,
    /// The owner binary is being searched.
    Locating,
    /// The binary at the given path is being spawned, detached.
    Spawning(String),
    /// The spawned owner is being given time.
    Settling,
    /// The spawned owner is being probed.
    Confirming,
    /// The start is over.
    Finished(Result<StartOutcome, StartError>),
}

/// Mathematical model of a [`StartPhase`].
pub enum PhaseView {
    Probing,
    Locating,
    Spawning(Seq<char>),
    Settling,
    Confirming,
    Finished(Result<StartOutcome, StartErrorView>),
}

impl View for StartPhase {
    type V = PhaseView;

    open spec fn view(&self) -> PhaseView {
        match self {
            StartPhase::Probing => PhaseView::Probing,
            StartPhase::Locating => PhaseView::Locating,
            StartPhase::Spawning(path) => PhaseView::Spawning(path@),
            StartPhase::Settling => PhaseView::Settling,
            StartPhase::Confirming => PhaseView::Confirming,
            StartPhase::Finished(r) => PhaseView::Finished(
                match r {
                    Ok(o) => Ok(*o),
                    Err(e) => Err(e@),
                },
            ),
        }
    }
}

/// What the caller reports back after doing what a phase asks for.
#[derive(Debug)]
pub enum StartEvent {
    /// The health probe was made; the owner is reachable or not.
    Probed(bool),
    /// The binary was searched; it was found at the path or not at all.
    Located(Option<String>),
    /// The binary was spawned, or spawning failed with the given words.
    Spawned(Result<(), String>),
    /// The settle interval is over.
    Settled,
}

/// Mathematical model of a [`StartEvent`].
pub enum EventView {
    Probed(bool),
    Located(Option<Seq<char>>),
    Spawned(Result<(), Seq<char>>),
    Settled,
}

impl View for StartEvent {
    type V = EventView;

    open spec fn view(&self) -> EventView {
        match self {
            StartEvent::Probed(up) => EventView::Probed(*up),
            StartEvent::Located(path) => EventView::Located(opt_text(*path)),
            StartEvent::Spawned(r) => EventView::Spawned(
                match r {
                    Ok(_) => Ok(()),
                    Err(words) => Err(words@),
                },
            ),
            StartEvent::Settled => EventView::Settled,
        }
    }
}

/// What a phase asks the caller to do.
#[derive(Debug, Clone, Copy, PartialEq, Eq, Structural)]
pub enum StartAction {
    /// Probe the owner's health endpoint and report `Probed`.
    Probe,
    /// Search the owner binary and report `Located`.
    Locate,
    /// Spawn the binary of the phase, detached and with its standard
    /// streams discarded, and report `Spawned`.
    Spawn,
    /// Wait for [`SETTLE_MILLIS`] and report `Settled`.
    Settle,
    /// Nothing more: the start is over.
    Finish,
}

/// The phase that follows when the caller reports `event` in `phase`. An
/// event that the phase did not ask for ends the start as failed.
pub open spec fn next_phase(phase: PhaseView, event: EventView) -> PhaseView {
    match (phase, event) {
        (PhaseView::Probing, EventView::Probed(true)) => PhaseView::Finished(
            Ok(StartOutcome::AlreadyRunning),
        ),
        (PhaseView::Probing, EventView::Probed(false)) => PhaseView::Locating,
        (PhaseView::Locating, EventView::Located(Some(path))) => PhaseView::Spawning(path),
        (PhaseView::Locating, EventView::Located(None)) => PhaseView::Finished(
            Err(StartErrorView::BinaryNotFound),
        ),
        (PhaseView::Spawning(_), EventView::Spawned(Ok(_))) => PhaseView::Settling,
        (PhaseView::Spawning(_), EventView::Spawned(Err(words))) => PhaseView::Finished(
            Err(StartErrorView::SpawnFailed(words)),
        ),
        (PhaseView::Settling, EventView::Settled) => PhaseView::Confirming,
        (PhaseView::Confirming, EventView::Probed(true)) => PhaseView::Finished(
            Ok(StartOutcome::Started),
        ),
        (PhaseView::Confirming, EventView::Probed(false)) => PhaseView::Finished(
            Err(StartErrorView::StartFailed),
        ),
        (PhaseView::Finished(r), _) => PhaseView::Finished(r),
        _ => PhaseView::Finished(Err(StartErrorView::StartFailed)),
    }
}

/// What a phase asks for.
pub open spec fn action_of(phase: PhaseView) -> StartAction {
    match phase {
        PhaseView::Probing => StartAction::Probe,
        PhaseView::Locating => StartAction::Locate,
        PhaseView::Spawning(_) => StartAction::Spawn,
        PhaseView::Settling => StartAction::Settle,
        PhaseView::Confirming => StartAction::Probe,
        PhaseView::Finished(_) => StartAction::Finish,
    }
}

/// How far a start has come.
pub open spec fn progress(phase: PhaseView) -> nat {
    match phase {
        PhaseView::Probing => 0,
        PhaseView::Locating => 1,
        PhaseView::Spawning(_) => 2,
        PhaseView::Settling => 3,
        PhaseView::Confirming => 4,
        PhaseView::Finished(_) => 5,
    }
}

/// With an owner reachable, a start is a no-op: the first probe ends it
/// with success, and nothing was located or spawned on the way.
pub proof fn lemma_start_is_idempotent()
    ensures
        action_of(PhaseView::Probing) == StartAction::Probe,
        next_phase(PhaseView::Probing, EventView::Probed(true)) == PhaseView::Finished(
            Ok(StartOutcome::AlreadyRunning),
        ),
{
}

/// Every report moves a start that is not over strictly forward, so a
/// start is over after five reports at most and passes through each phase
/// at most once: it spawns at most one process.
pub proof fn lemma_start_progresses(phase: PhaseView, event: EventView)
    ensures
        !(phase is Finished) ==> progress(next_phase(phase, event)) > progress(phase),
        phase is Finished ==> next_phase(phase, event) == phase,
        next_phase(phase, event) is Spawning ==> phase is Locating,
{
}

/// A start ends with `Started` only after the spawned owner has answered
/// the probe that follows the settle interval.
pub proof fn lemma_started_means_confirmed(phase: PhaseView, event: EventView)
    ensures
        next_phase(phase, event) == PhaseView::Finished(Ok(StartOutcome::Started)) && !(phase
            is Finished) ==> phase is Confirming && event == EventView::Probed(true),
{
}

impl StartPhase {
    /// The phase in which every start begins.
    pub fn begin() -> (out: Self)
        ensures
            out@ == PhaseView::Probing,
    {
        StartPhase::Probing
    }

    /// What the phase asks the caller to do.
    pub fn action(&self) -> (a: StartAction)
        ensures
            a == action_of(self@),
    {
        match self {
            StartPhase::Probing => StartAction::Probe,
            StartPhase::Locating => StartAction::Locate,
            StartPhase::Spawning(_) => StartAction::Spawn,
            StartPhase::Settling => StartAction::Settle,
            StartPhase::Confirming => StartAction::Probe,
            StartPhase::Finished(_) => StartAction::Finish,
        }
    }

    /// The phase that follows when the caller reports `event`.
    pub fn advance(self, event: StartEvent) -> (out: Self)
        ensures
            out@ == next_phase(self@, event@),
    {
        match self {
            StartPhase::Probing => match event {
                StartEvent::Probed(true) => StartPhase::Finished(Ok(StartOutcome::AlreadyRunning)),
                StartEvent::Probed(false) => StartPhase::Locating,
                _ => StartPhase::Finished(Err(StartError::StartFailed)),
            },
            StartPhase::Locating => match event {
                StartEvent::Located(Some(path)) => StartPhase::Spawning(path),
                StartEvent::Located(None) => StartPhase::Finished(Err(StartError::BinaryNotFound)),
                _ => StartPhase::Finished(Err(StartError::StartFailed)),
            },
            StartPhase::Spawning(_) => match event {
                StartEvent::Spawned(Ok(_)) => StartPhase::Settling,
                StartEvent::Spawned(Err(words)) => StartPhase::Finished(
                    Err(StartError::SpawnFailed(words)),
                ),
                _ => StartPhase::Finished(Err(StartError::StartFailed)),
            },
            StartPhase::Settling => match event {
                StartEvent::Settled => StartPhase::Confirming,
                _ => StartPhase::Finished(Err(StartError::StartFailed)),
            },
            StartPhase::Confirming => match event {
                StartEvent::Probed(true) => StartPhase::Finished(Ok(StartOutcome::Started)),
                _ => StartPhase::Finished(Err(StartError::StartFailed)),
            },
            StartPhase::Finished(r) => StartPhase::Finished(r),
        }
    }
}

/// The file name of the owner binary.
pub fn binary_name(windows: bool) -> (name: &'static str)
    ensures
        name@ == if windows {
            "mcp_service.exe"@
        } else {
            "mcp_service"@
        },
{
    if windows {
        "mcp_service.exe"
    } else {
        "mcp_service"
    }
}

/// The binary that a search settles on. The places are taken in this
/// order: beside the current executable, the release build output, the
/// debug build output, the executable search path. Each argument holds the
/// path of the binary at that place if it exists there.
pub open spec fn chosen_binary(
    beside_executable: Option<Seq<char>>,
    release_build: Option<Seq<char>>,
    debug_build: Option<Seq<char>>,
    on_search_path: Option<Seq<char>>,
) -> Option<Seq<char>> {
    if beside_executable is Some {
        beside_executable
    } else if release_build is Some {
        release_build
    } else if debug_build is Some {
        debug_build
    } else {
        on_search_path
    }
}

/// Settles on the owner binary among the places searched, or reports that
/// there is none.
pub fn find_binary(
    beside_executable: Option<String>,
    release_build: Option<String>,
    debug_build: Option<String>,
    on_search_path: Option<String>,
) -> (r: Result<String, StartError>)
    ensures
        match chosen_binary(
            opt_text(beside_executable),
            opt_text(release_build),
            opt_text(debug_build),
            opt_text(on_search_path),
        ) {
            Some(path) => r is Ok && r->Ok_0@ == path,
            None => r is Err && r->Err_0@ == StartErrorView::BinaryNotFound,
        },
{
    if let Some(path) = beside_executable {
        return Ok(path);
    }
    if let Some(path) = release_build {
        return Ok(path);
    }
    if let Some(path) = debug_build {
        return Ok(path);
    }
    if let Some(path) = on_search_path {
        return Ok(path);
    }
    Err(StartError::BinaryNotFound)
}

/// The port that the environment names: the value of the variable if it
/// is set and writes a port number, else the default port.
pub open spec fn resolved_port(raw: Option<Seq<char>>) -> u16 {
    match raw {
        Some(text) => match parsed_number(text, 0xffff) {
            Some(n) => n as u16,
            None => DEFAULT_PORT,
        },
        None => DEFAULT_PORT,
    }
}

/// Manages the lifecycle of the owner process at one host and port.
#[derive(Debug)]
pub struct ServiceManager {
    port: u16,
    host: String,
}

impl ServiceManager {
    pub closed spec fn port(&self) -> u16 {
        self.port
    }

    pub closed spec fn host(&self) -> Seq<char> {
        self.host@
    }

    /// A manager for the host and port that the environment names. Each
    /// argument is the value of one variable, `None` where it is unset.
    pub fn new(host: Option<String>, port: Option<String>) -> (out: Self)
        ensures
            out.port() == resolved_port(opt_text(port)),
            out.host() == match host {
                Some(h) => h@,
                None => "127.0.0.1"@,
            },
    {
        let port = match &port {
            Some(text) => ServiceManager::resolve_port(Some(text.as_str())),
            None => ServiceManager::resolve_port(None),
        };
        ServiceManager { port, host: ServiceManager::resolve_host(host) }
    }

    /// A manager for the given port and host.
    pub fn with_config(port: u16, host: String) -> (out: Self)
        ensures
            out.port() == port,
            out.host() == host@,
    {
        ServiceManager { port, host }
    }

    /// The port of the owner.
    pub fn get_port(&self) -> (port: u16)
        ensures
            port == self.port(),
    {
        self.port
    }

    /// The host of the owner.
    pub fn get_host(&self) -> (host: &str)
        ensures
            host@ == self.host(),
    {
        self.host.as_str()
    }

    /// The phase in which a start begins.
    pub fn start(&self) -> (phase: StartPhase)
        ensures
            phase@ == PhaseView::Probing,
    {
        StartPhase::begin()
    }

    /// Stopping is a no-op by design: the owner outlives the process that
    /// launched it and keeps serving the other clients.
    pub fn stop(&self) {
    }

    /// The address that a health probe goes to.
    pub fn health_url(&self) -> (url: String)
        ensures
            url@ == health_url(self.host(), self.port()),
    {
        get_health_url(self.host.as_str(), self.port)
    }

    /// The base address of the owner.
    pub fn service_url(&self) -> (url: String)
        ensures
            url@ == service_url(self.host(), self.port()),
    {
        get_service_url(self.host.as_str(), self.port)
    }

    /// The environment that a spawned owner is given: its host, its port,
    /// the log level and plain log output.
    pub fn spawn_environment(&self, log_level: Option<String>) -> (env: Vec<(String, String)>)
        ensures
            env@.len() == 4,
            env@[0].0@ == ENV_SERVICE_HOST@ && env@[0].1@ == self.host(),
            env@[1].0@ == ENV_SERVICE_PORT@ && env@[1].1@ == decimal(self.port() as nat),
            env@[2].0@ == ENV_LOG@ && env@[2].1@ == match log_level {
                Some(level) => level@,
                None => "error"@,
            },
            env@[3].0@ == "RUST_LOG_STYLE"@ && env@[3].1@ == "never"@,
    {
        let mut env: Vec<(String, String)> = Vec::new();
        env.push((ENV_SERVICE_HOST.to_owned(), self.host.clone()));
        env.push((ENV_SERVICE_PORT.to_owned(), decimal_string(self.port as usize)));
        env.push((ENV_LOG.to_owned(), ServiceManager::resolve_log_level(log_level)));
        env.push(("RUST_LOG_STYLE".to_owned(), "never".to_owned()));
        env
    }

    /// Resolves the port from the value of its variable.
    pub fn resolve_port(raw: Option<&str>) -> (port: u16)
        ensures
            port == resolved_port(
                match raw {
                    Some(text) => Some(text@),
                    None => None,
                },
            ),
    {
        match raw {
            Some(text) => match parse_number(text, 0xffff) {
                Some(n) => n as u16,
                None => DEFAULT_PORT,
            },
            None => DEFAULT_PORT,
        }
    }

    /// Resolves the host from the value of its variable.
    pub fn resolve_host(raw: Option<String>) -> (host: String)
        ensures
            host@ == match raw {
                Some(h) => h@,
                None => "127.0.0.1"@,
            },
    {
        match raw {
            Some(h) => h,
            None => "127.0.0.1".to_owned(),
        }
    }

    /// Resolves the log level from the value of its variable.
    pub fn resolve_log_level(raw: Option<String>) -> (level: String)
        ensures
            level@ == match raw {
                Some(l) => l@,
                None => "error"@,
            },
    {
        match raw {
            Some(l) => l,
            None => "error".to_owned(),
        }
    }
}

} // verus!
