//! The availability monitor: keeps the intent "an owner should be
//! running" across restarts and sleep, and decides when the owner is
//! probed and restarted.
//!
//! Sleeping, probing, starting and writing the state file are done by the
//! caller; this module decides what is done next.

use crate::json::{json_member, json_opt_text, json_parsed, parse, text_member};
use crate::text::same_text;
use vstd::prelude::*;

verus! {

/// Name of the file that keeps the desired state.
pub const STATE_FILE_NAME: &'static str = "service_state.json";

/// Time between two health checks, in milliseconds.
pub const POLL_MILLIS: u64 = 10_000;

/// Time between finding the owner down and restarting it, in
/// milliseconds; it keeps restarts from storming.
pub const RESTART_DELAY_MILLIS: u64 = 2_000;

/// Time that the system is given after a resume before the owner is
/// probed, in milliseconds.
pub const RESUME_DELAY_MILLIS: u64 = 500;

/// A change of the system's power state.
#[derive(Debug, Clone, Copy, PartialEq, Eq, Structural)]
pub enum PowerEvent {
    /// The system is going to sleep.
    Suspend,
    /// The system is coming back from sleep.
    Resume,
    /// The battery is low.
    BatteryLow,
    /// The power source changed.
    PowerSourceChange,
}

/// Whether an owner should be running.
#[derive(Debug, Clone, Copy, PartialEq, Eq, Structural)]
pub enum ServiceState {
    /// An owner should be running.
    Running,
    /// No owner should be running.
    Stopped,
    /// Nothing is known yet.
    Unknown,
}

/// The state that a label of the state file stands for.
pub open spec fn state_labelled(label: Seq<char>) -> ServiceState {
    if label == "running"@ {
        ServiceState::Running
    } else if label == "stopped"@ {
        ServiceState::Stopped
    } else {
        ServiceState::Unknown
    }
}

/// The state that the content of a state file holds: the one that the
/// text under `state` stands for, and `Unknown` where the file is missing,
/// is no JSON or has no such text.
pub open spec fn state_in_file(content: Option<Seq<char>>) -> ServiceState {
    match content {
        Some(text) => match json_parsed(text) {
            Some(value) => match json_opt_text(json_member(value, "state"@)) {
                Some(label) => state_labelled(label),
                None => ServiceState::Unknown,
            },
            None => ServiceState::Unknown,
        },
        None => ServiceState::Unknown,
    }
}

impl ServiceState {
    /// The label under which the state is written to the state file.
    pub fn as_str(&self) -> (label: &'static str)
        ensures
            label@ == match self {
                ServiceState::Running => "running"@,
                ServiceState::Stopped => "stopped"@,
                ServiceState::Unknown => "unknown"@,
            },
    {
        match self {
            ServiceState::Running => "running",
            ServiceState::Stopped => "stopped",
            ServiceState::Unknown => "unknown",
        }
    }

    /// The state that a label stands for; any label but `running` and
    /// `stopped` stands for `Unknown`.
    pub fn from_label(label: &str) -> (state: ServiceState)
        ensures
            state == state_labelled(label@),
    {
        if same_text(label, "running") {
            ServiceState::Running
        } else if same_text(label, "stopped") {
            ServiceState::Stopped
        } else {
            ServiceState::Unknown
        }
    }

    /// Reads the state from the content of the state file, `None` standing
    /// for a file that is missing or cannot be read. A corrupt file reads
    /// as `Unknown`.
    pub fn from_file(content: Option<&str>) -> (state: ServiceState)
        ensures
            state == state_in_file(
                match content {
                    Some(text) => Some(text@),
                    None => None,
                },
            ),
    {
        match content {
            Some(text) => match parse(text) {
                Ok(value) => match text_member(&value, "state") {
                    Some(label) => ServiceState::from_label(label.as_str()),
                    None => ServiceState::Unknown,
                },
                Err(_) => ServiceState::Unknown,
            },
            None => ServiceState::Unknown,
        }
    }
}

/// What happened, as the caller reports it to the monitor.
#[derive(Debug, Clone, Copy, PartialEq, Eq, Structural)]
pub enum MonitorEvent {
    /// Monitoring begins.
    Started,
    /// The probe that the beginning asked for was made.
    StartupProbed(bool),
    /// A poll interval is over.
    Tick,
    /// The probe that a tick asked for was made.
    TickProbed(bool),
    /// The power state changed.
    Power(PowerEvent),
    /// The probe that a suspend asked for was made.
    SuspendProbed(bool),
    /// The probe that a resume asked for was made.
    ResumeProbed(bool),
    /// The operator started the owner.
    MarkedRunning,
    /// The operator stopped the owner.
    MarkedStopped,
}

/// What the monitor asks the caller to do.
#[derive(Debug, Clone, Copy, PartialEq, Eq, Structural)]
pub enum MonitorAction {
    /// Nothing.
    Idle,
    /// Probe the owner and report under the given kind.
    Probe(ProbeKind),
    /// Wait for the given milliseconds, then probe and report under the
    /// given kind.
    ProbeAfter(u64, ProbeKind),
    /// Start the owner now.
    Start,
    /// Wait for the given milliseconds, then start the owner.
    StartAfter(u64),
    /// Write the given state to the state file.
    Persist(ServiceState),
}

/// Why the owner is probed, which is how the result is reported.
#[derive(Debug, Clone, Copy, PartialEq, Eq, Structural)]
pub enum ProbeKind {
    /// Report `StartupProbed`.
    Startup,
    /// Report `TickProbed`.
    Tick,
    /// Report `SuspendProbed`.
    Suspend,
    /// Report `ResumeProbed`.
    Resume,
}

/// The desired state after an event, and what the caller is asked to do.
///
/// The state changes only when a suspend has probed the owner (to
/// `Running` if it was reachable, else to `Stopped`) and when the operator
/// starts or stops the owner. The owner is started only while the desired
/// state is `Running` and a probe found it unreachable.
pub open spec fn monitor_step(state: ServiceState, event: MonitorEvent) -> (
    ServiceState,
    MonitorAction,
) {
    match event {
        MonitorEvent::Started => if state == ServiceState::Running {
            (state, MonitorAction::Probe(ProbeKind::Startup))
        } else {
            (state, MonitorAction::Idle)
        },
        MonitorEvent::StartupProbed(reachable) => if state == ServiceState::Running && !reachable {
            (state, MonitorAction::Start)
        } else {
            (state, MonitorAction::Idle)
        },
        MonitorEvent::Tick => if state == ServiceState::Running {
            (state, MonitorAction::Probe(ProbeKind::Tick))
        } else {
            (state, MonitorAction::Idle)
        },
        MonitorEvent::TickProbed(reachable) => if state == ServiceState::Running && !reachable {
            (state, MonitorAction::StartAfter(RESTART_DELAY_MILLIS))
        } else {
            (state, MonitorAction::Idle)
        },
        MonitorEvent::Power(PowerEvent::Suspend) => (
            state,
            MonitorAction::Probe(ProbeKind::Suspend),
        ),
        MonitorEvent::Power(PowerEvent::Resume) => if state == ServiceState::Running {
            (state, MonitorAction::ProbeAfter(RESUME_DELAY_MILLIS, ProbeKind::Resume))
        } else {
            (state, MonitorAction::Idle)
        },
        MonitorEvent::Power(_) => (state, MonitorAction::Idle),
        MonitorEvent::SuspendProbed(reachable) => if reachable {
            (ServiceState::Running, MonitorAction::Persist(ServiceState::Running))
        } else {
            (ServiceState::Stopped, MonitorAction::Persist(ServiceState::Stopped))
        },
        MonitorEvent::ResumeProbed(reachable) => if state == ServiceState::Running && !reachable {
            (state, MonitorAction::Start)
        } else {
            (state, MonitorAction::Idle)
        },
        MonitorEvent::MarkedRunning => (
            ServiceState::Running,
            MonitorAction::Persist(ServiceState::Running),
        ),
        MonitorEvent::MarkedStopped => (
            ServiceState::Stopped,
            MonitorAction::Persist(ServiceState::Stopped),
        ),
    }
}

/// The action starts the owner, now or after a delay.
pub open spec fn starts_owner(action: MonitorAction) -> bool {
    action is Start || action is StartAfter
}

/// Unless the desired state is `Running`, the monitor never asks for a
/// start, whatever happens.
pub proof fn lemma_never_starts_unless_running(state: ServiceState, event: MonitorEvent)
    requires
        state != ServiceState::Running,
    ensures
        !starts_owner(monitor_step(state, event).1),
{
}

/// While the desired state is `Running`, every tick leads to a probe, and
/// a probe that finds the owner unreachable leads to a restart after the
/// restart delay: an owner that is down is restarted within one poll
/// interval and the delay.
pub proof fn lemma_restarts_when_down()
    ensures
        monitor_step(ServiceState::Running, MonitorEvent::Tick) == (
            ServiceState::Running,
            MonitorAction::Probe(ProbeKind::Tick),
        ),
        monitor_step(ServiceState::Running, MonitorEvent::TickProbed(false)) == (
            ServiceState::Running,
            MonitorAction::StartAfter(RESTART_DELAY_MILLIS),
        ),
        monitor_step(ServiceState::Running, MonitorEvent::TickProbed(true)).1
            == MonitorAction::Idle,
{
}

/// The desired state changes only on a suspend's probe and on the
/// operator's word, and every change is written to the state file.
pub proof fn lemma_state_changes(state: ServiceState, event: MonitorEvent)
    ensures
        monitor_step(state, event).0 != state ==> (event is SuspendProbed || event is MarkedRunning
            || event is MarkedStopped) && monitor_step(state, event).1 == MonitorAction::Persist(
            monitor_step(state, event).0,
        ),
{
}

/// The availability monitor.
#[derive(Debug)]
pub struct PowerManager {
    desired_state: ServiceState,
}

impl PowerManager {
    /// Whether an owner should be running.
    pub closed spec fn desired(&self) -> ServiceState {
        self.desired_state
    }

    /// A monitor with the desired state that the state file holds; see
    /// [`ServiceState::from_file`].
    pub fn new(state_file: Option<&str>) -> (out: Self)
        ensures
            out.desired() == state_in_file(
                match state_file {
                    Some(text) => Some(text@),
                    None => None,
                },
            ),
    {
        PowerManager { desired_state: ServiceState::from_file(state_file) }
    }

    /// A monitor with the given desired state.
    pub fn with_state(state: ServiceState) -> (out: Self)
        ensures
            out.desired() == state,
    {
        PowerManager { desired_state: state }
    }

    /// Whether an owner should be running.
    pub fn desired_state(&self) -> (state: ServiceState)
        ensures
            state == self.desired(),
    {
        self.desired_state
    }

    /// Takes an event and decides what is done next.
    pub fn step(&mut self, event: MonitorEvent) -> (action: MonitorAction)
        ensures
            (final(self).desired(), action) == monitor_step(old(self).desired(), event),
    {
        let running = match self.desired_state {
            ServiceState::Running => true,
            _ => false,
        };
        match event {
            MonitorEvent::Started => if running {
                MonitorAction::Probe(ProbeKind::Startup)
            } else {
                MonitorAction::Idle
            },
            MonitorEvent::StartupProbed(reachable) => if running && !reachable {
                MonitorAction::Start
            } else {
                MonitorAction::Idle
            },
            MonitorEvent::Tick => if running {
                MonitorAction::Probe(ProbeKind::Tick)
            } else {
                MonitorAction::Idle
            },
            MonitorEvent::TickProbed(reachable) => if running && !reachable {
                MonitorAction::StartAfter(RESTART_DELAY_MILLIS)
            } else {
                MonitorAction::Idle
            },
            MonitorEvent::Power(PowerEvent::Suspend) => MonitorAction::Probe(ProbeKind::Suspend),
            MonitorEvent::Power(PowerEvent::Resume) => if running {
                MonitorAction::ProbeAfter(RESUME_DELAY_MILLIS, ProbeKind::Resume)
            } else {
                MonitorAction::Idle
            },
            MonitorEvent::Power(_) => MonitorAction::Idle,
            MonitorEvent::SuspendProbed(reachable) => {
                let state = if reachable {
                    ServiceState::Running
                } else {
                    ServiceState::Stopped
                };
                self.desired_state = state;
                MonitorAction::Persist(state)
            },
            MonitorEvent::ResumeProbed(reachable) => if running && !reachable {
                MonitorAction::Start
            } else {
                MonitorAction::Idle
            },
            MonitorEvent::MarkedRunning => {
                self.desired_state = ServiceState::Running;
                MonitorAction::Persist(ServiceState::Running)
            },
            MonitorEvent::MarkedStopped => {
                self.desired_state = ServiceState::Stopped;
                MonitorAction::Persist(ServiceState::Stopped)
            },
        }
    }

    /// Monitoring begins: with the desired state `Running` the owner is
    /// probed, to be started at once if it is down.
    pub fn start_monitoring(&mut self) -> (action: MonitorAction)
        ensures
            (final(self).desired(), action) == monitor_step(
                old(self).desired(),
                MonitorEvent::Started,
            ),
    {
        self.step(MonitorEvent::Started)
    }

    /// Takes a change of the power state.
    pub fn handle_power_event(&mut self, event: PowerEvent) -> (action: MonitorAction)
        ensures
            (final(self).desired(), action) == monitor_step(
                old(self).desired(),
                MonitorEvent::Power(event),
            ),
    {
        self.step(MonitorEvent::Power(event))
    }

    /// The operator started the owner: an owner should be running.
    pub fn mark_service_running(&mut self) -> (action: MonitorAction)
        ensures
            final(self).desired() == ServiceState::Running,
            action == MonitorAction::Persist(ServiceState::Running),
    {
        self.step(MonitorEvent::MarkedRunning)
    }

    /// The operator stopped the owner: no owner should be running.
    pub fn mark_service_stopped(&mut self) -> (action: MonitorAction)
        ensures
            final(self).desired() == ServiceState::Stopped,
            action == MonitorAction::Persist(ServiceState::Stopped),
    {
        self.step(MonitorEvent::MarkedStopped)
    }
}

} // verus!
