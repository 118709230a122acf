//! The lifecycle operations as explicit state machines.  Each operation is
//! a pure step function from state and event to next state, next action and
//! an optional status emission; the surrounding plumbing performs the
//! action (network, file system, process control), hands the outcome back
//! as the next event, and forwards every emission to the status channel.
//! Locks are therefore never held across any suspension: a step is a plain
//! computation.

use crate::platform::{platform_supported, spec_download_url, Arch, Os};
use crate::platform::build_download_url;
use crate::strutil::spec_u64_digits;
use crate::strutil::u64_to_string;
use crate::types::{spec_percentage, OpencodeError, ServiceStatus};
use vstd::prelude::*;
use vstd::string::StringExecFns;

verus! {

/// Seconds every network request is bounded by: resolving the latest
/// version never blocks indefinitely.
pub const REQUEST_TIMEOUT_SECS: u64 = 30;

/// Milliseconds waited after a spawn before the liveness check.
pub const SPAWN_SETTLE_MILLIS: u32 = 500;

/// Milliseconds between two polls for process exit while stopping.
pub const STOP_POLL_MILLIS: u32 = 100;

/// Bounded number of exit polls before the service is declared stopped
/// regardless; stopping must never hang the caller.
pub const MAX_STOP_POLLS: u32 = 50;

// ---------------------------------------------------------------------------
// initialize (and the re-install the update operation forces)
// ---------------------------------------------------------------------------
/// Phase of the install flow.
#[derive(Debug, Clone, Copy, PartialEq, Eq, Structural)]
pub enum InitPhase {
    CheckingBinary,
    Resolving,
    Downloading,
    Extracting,
    Done,
    Failed,
}

/// The install flow: check for the binary, resolve the latest version,
/// download the archive and extract the binary.  With `force` set the
/// download runs even when a binary is already installed.
#[derive(Debug, Clone, Copy, PartialEq, Eq, Structural)]
pub struct InitFlow {
    pub phase: InitPhase,
    pub os: Os,
    pub arch: Arch,
    pub force: bool,
}

/// What the plumbing must do next for the install flow.
#[derive(Debug, Clone, PartialEq, Eq)]
pub enum InitAction {
    /// Report whether the binary exists at its installed path.
    CheckBinary,
    /// Run the release locator and report the resolved version tag.
    ResolveVersion,
    /// Stream the archive at this URL to the archive path, reporting
    /// progress after every chunk.
    DownloadArchive { url: String },
    /// Extract the binary out of the downloaded archive.
    ExtractArchive,
    /// Keep going: more of the same outcome is expected.
    Continue,
    /// The flow is complete.
    Finish,
    /// The flow failed; surface the error to the caller.
    Fail { error: OpencodeError },
}

/// Outcome of the last install action.
#[derive(Debug, PartialEq, Eq)]
pub enum InitEvent {
    BinaryChecked { present: bool },
    VersionResolved { result: Result<String, OpencodeError> },
    Progress { downloaded: u64, total: Option<u64> },
    Downloaded { result: Result<(), OpencodeError> },
    Extracted { result: Result<(), OpencodeError> },
}

impl InitFlow {
    /// Begin installing; the first action asks whether the binary is
    /// already there.
    pub fn new(os: Os, arch: Arch, force: bool) -> (r: (InitFlow, InitAction))
        ensures
            r.0 == (InitFlow { phase: InitPhase::CheckingBinary, os, arch, force }),
            r.1 is CheckBinary,
    {
        (InitFlow { phase: InitPhase::CheckingBinary, os, arch, force }, InitAction::CheckBinary)
    }

    /// Feed the outcome of the last action in and obtain the next action
    /// and the status to broadcast, if any.
    ///
    /// Every status this flow ever emits is `Downloading` or `Ready`: the
    /// install can never jump to `Running`, and a present binary answers
    /// with `Ready` without any download.
    pub fn step(self, ev: InitEvent) -> (r: (InitFlow, InitAction, Option<ServiceStatus>))
        ensures
            r.0.os == self.os && r.0.arch == self.arch && r.0.force == self.force,
            r.2 matches Some(st) ==> (st is Downloading || st is Ready),
            ev matches InitEvent::BinaryChecked { present } ==> self.phase is CheckingBinary ==> (
            if present && !self.force {
                r.0.phase is Done && r.1 is Finish && (r.2 matches Some(st) && st is Ready)
            } else {
                r.0.phase is Resolving && r.1 is ResolveVersion && (r.2 matches Some(st)
                    && st matches ServiceStatus::Downloading { progress: 0 })
            }),
            ev matches InitEvent::VersionResolved { result: Ok(tag) } ==> self.phase is Resolving ==> (if platform_supported(self.os, self.arch) {
                r.0.phase is Downloading && (r.1 matches InitAction::DownloadArchive { url }
                    && url@ == spec_download_url(tag@, self.os, self.arch)) && r.2 is None
            } else {
                r.0.phase is Failed && (r.1 matches InitAction::Fail { error }
                    && error matches OpencodeError::ConfigError { message } && message@
                    == "unsupported platform"@) && r.2 is None
            }),
            ev matches InitEvent::VersionResolved { result: Err(e) } ==> self.phase is Resolving ==> r.0.phase is Failed && (r.1 matches InitAction::Fail { error } && error == e)
                && r.2 is None,
            ev matches InitEvent::Progress { downloaded, total } ==> self.phase is Downloading ==> r.0.phase
                is Downloading && r.1 is Continue && (r.2 matches Some(st)
                && st matches ServiceStatus::Downloading { progress } && progress
                == spec_percentage(downloaded, total)),
            ev matches InitEvent::Downloaded { result: Ok(u) } ==> self.phase is Downloading ==> r.0.phase is Extracting && r.1 is ExtractArchive && r.2 is None,
            ev matches InitEvent::Downloaded { result: Err(e) } ==> self.phase is Downloading ==> r.0.phase is Failed && (r.1 matches InitAction::Fail { error } && error == e)
                && r.2 is None,
            ev matches InitEvent::Extracted { result: Ok(u) } ==> self.phase is Extracting ==> r.0.phase is Done && r.1 is Finish && (r.2 matches Some(st) && st is Ready),
            ev matches InitEvent::Extracted { result: Err(e) } ==> self.phase is Extracting ==> r.0.phase is Failed && (r.1 matches InitAction::Fail { error } && error == e)
                && r.2 is None,
    {
        match (self.phase, ev) {
            (InitPhase::CheckingBinary, InitEvent::BinaryChecked { present }) => {
                if present && !self.force {
                    (
                        InitFlow { phase: InitPhase::Done, ..self },
                        InitAction::Finish,
                        Some(ServiceStatus::Ready),
                    )
                } else {
                    (
                        InitFlow { phase: InitPhase::Resolving, ..self },
                        InitAction::ResolveVersion,
                        Some(ServiceStatus::Downloading { progress: 0 }),
                    )
                }
            },
            (InitPhase::Resolving, InitEvent::VersionResolved { result }) => match result {
                Ok(tag) => match build_download_url(tag.as_str(), self.os, self.arch) {
                    Some(url) => (
                        InitFlow { phase: InitPhase::Downloading, ..self },
                        InitAction::DownloadArchive { url },
                        None,
                    ),
                    None => (
                        InitFlow { phase: InitPhase::Failed, ..self },
                        InitAction::Fail {
                            error: OpencodeError::ConfigError {
                                message: String::from_str("unsupported platform"),
                            },
                        },
                        None,
                    ),
                },
                Err(e) => (
                    InitFlow { phase: InitPhase::Failed, ..self },
                    InitAction::Fail { error: e },
                    None,
                ),
            },
            (InitPhase::Downloading, InitEvent::Progress { downloaded, total }) => {
                let report = crate::types::DownloadProgress::new(downloaded, total);
                (
                    InitFlow { phase: InitPhase::Downloading, ..self },
                    InitAction::Continue,
                    Some(ServiceStatus::Downloading { progress: report.percentage }),
                )
            },
            (InitPhase::Downloading, InitEvent::Downloaded { result }) => match result {
                Ok(_) => (
                    InitFlow { phase: InitPhase::Extracting, ..self },
                    InitAction::ExtractArchive,
                    None,
                ),
                Err(e) => (
                    InitFlow { phase: InitPhase::Failed, ..self },
                    InitAction::Fail { error: e },
                    None,
                ),
            },
            (InitPhase::Extracting, InitEvent::Extracted { result }) => match result {
                Ok(_) => (
                    InitFlow { phase: InitPhase::Done, ..self },
                    InitAction::Finish,
                    Some(ServiceStatus::Ready),
                ),
                Err(e) => (
                    InitFlow { phase: InitPhase::Failed, ..self },
                    InitAction::Fail { error: e },
                    None,
                ),
            },
            _ => (
                InitFlow { phase: InitPhase::Failed, ..self },
                InitAction::Fail {
                    error: OpencodeError::ConfigError {
                        message: String::from_str("unexpected install outcome"),
                    },
                },
                None,
            ),
        }
    }
}

// ---------------------------------------------------------------------------
// start
// ---------------------------------------------------------------------------
/// Phase of the start flow.
#[derive(Debug, Clone, Copy, PartialEq, Eq, Structural)]
pub enum StartPhase {
    ResolvingPort,
    LocatingBinary,
    Preparing,
    Spawning,
    Settling,
    Verifying,
    Done,
    Failed,
}

/// The start flow: resolve the listening port, locate the binary, bring
/// the companion configuration up to date, spawn, let the process settle,
/// and declare it running only after the liveness check.
#[derive(Debug, Clone, Copy, PartialEq, Eq, Structural)]
pub struct StartFlow {
    pub phase: StartPhase,
    pub requested_port: u16,
    pub port: u16,
    pub pid: u32,
    pub os: Os,
}

/// What the plumbing must do next for the start flow.
#[derive(Debug, Clone, PartialEq, Eq)]
pub enum StartAction {
    /// Bind an ephemeral loopback port with a throwaway listener, release
    /// it, and report its number.  Not perfectly race-free; the window is
    /// deliberately kept minimal.
    BindEphemeralPort,
    /// Report whether the binary exists at its installed path.
    CheckBinary,
    /// Create the isolated directories and bring the companion
    /// configuration file up to date for this port; failures there are
    /// logged, never fatal.
    PrepareConfig { port: u16 },
    /// Spawn the binary on this port with captured output, the isolated
    /// environment, and self-update disabled.
    SpawnProcess { port: u16 },
    /// Wait the fixed settle delay.
    WaitSettle { millis: u32 },
    /// Report whether the spawned process is still alive.
    CheckAlive,
    /// The service is confirmed running: keep this process handle.
    FinishStart { pid: u32, port: u16 },
    /// The start failed; surface the error to the caller.
    FailStart { error: OpencodeError },
}

/// Outcome of the last start action.
#[derive(Debug, PartialEq, Eq)]
pub enum StartEvent {
    PortBound { result: Result<u16, String> },
    BinaryChecked { present: bool },
    ConfigPrepared,
    Spawned { result: Result<u32, String> },
    Settled,
    AliveChecked { alive: bool },
}

impl StartFlow {
    /// Once the port is resolved it is concrete: never the auto-assign
    /// sentinel, and exactly the requested one where one was requested.
    pub open spec fn wf(self) -> bool {
        &&& self.phase is ResolvingPort ==> self.requested_port == 0
        &&& !(self.phase is ResolvingPort) && !(self.phase is Failed) ==> (self.port != 0 && (
        self.requested_port != 0 ==> self.port == self.requested_port))
    }

    /// Begin starting with the configured port; the sentinel port 0 asks
    /// for an ephemeral port first.
    pub fn new(requested_port: u16, os: Os) -> (r: (StartFlow, StartAction))
        ensures
            r.0.wf(),
            r.0.requested_port == requested_port && r.0.os == os,
            requested_port == 0 ==> (r.0.phase is ResolvingPort && r.1 is BindEphemeralPort),
            requested_port != 0 ==> (r.0.phase is LocatingBinary && r.1 is CheckBinary
                && r.0.port == requested_port),
    {
        if requested_port == 0 {
            (
                StartFlow { phase: StartPhase::ResolvingPort, requested_port, port: 0, pid: 0, os },
                StartAction::BindEphemeralPort,
            )
        } else {
            (
                StartFlow {
                    phase: StartPhase::LocatingBinary,
                    requested_port,
                    port: requested_port,
                    pid: 0,
                    os,
                },
                StartAction::CheckBinary,
            )
        }
    }

    /// Feed the outcome of the last action in and obtain the next action
    /// and the status to broadcast, if any.
    ///
    /// Every status this flow ever emits is `Starting`, `Running` or
    /// `Error`.  A `Running` status always carries the resolved port: never
    /// zero, and exactly the requested port where one was requested.  Once
    /// `Starting` has been announced the flow never abandons it silently:
    /// it completes with `Running` or fails with `Error`.
    pub fn step(self, ev: StartEvent) -> (r: (StartFlow, StartAction, Option<ServiceStatus>))
        requires
            self.wf(),
        ensures
            r.0.wf(),
            r.0.requested_port == self.requested_port && r.0.os == self.os,
            r.2 matches Some(st) ==> (st is Starting || st is Running || st is Error),
            r.2 matches Some(ServiceStatus::Running { port }) ==> (port == r.0.port && port != 0
                && (self.requested_port != 0 ==> port == self.requested_port)),
            r.0.phase is Done <==> (r.2 matches Some(st) && st is Running),
            ev matches StartEvent::PortBound { result: Ok(p) } ==> self.phase is ResolvingPort ==> (if p == 0 {
                r.0.phase is Failed && r.1 is FailStart
            } else {
                r.0.phase is LocatingBinary && r.1 is CheckBinary && r.0.port == p && r.2 is None
            }),
            ev matches StartEvent::PortBound { result: Err(m) } ==> self.phase is ResolvingPort ==> r.0.phase is Failed && (r.1 matches StartAction::FailStart { error }
                && error matches OpencodeError::ServiceStartError { message } && message@ == m@),
            ev matches StartEvent::BinaryChecked { present } ==> self.phase is LocatingBinary ==> (if present {
                r.0.phase is Preparing && (r.1 matches StartAction::PrepareConfig { port } && port
                    == self.port) && (r.2 matches Some(st) && st is Starting)
            } else {
                r.0.phase is Failed && (r.1 matches StartAction::FailStart { error }
                    && error is BinaryNotFound) && r.2 is None
            }),
            self.phase is Preparing && ev is ConfigPrepared ==> r.0.phase is Spawning && (
            r.1 matches StartAction::SpawnProcess { port } && port == self.port) && r.2 is None,
            ev matches StartEvent::Spawned { result: Ok(pid) } ==> self.phase is Spawning ==> r.0.phase is Settling && (r.1 matches StartAction::WaitSettle { millis }
                && millis == SPAWN_SETTLE_MILLIS) && r.0.pid == pid && r.2 is None,
            ev matches StartEvent::Spawned { result: Err(m) } ==> self.phase is Spawning ==> r.0.phase is Failed && (r.1 matches StartAction::FailStart { error }
                && error matches OpencodeError::ServiceStartError { message } && message@ == m@) && (
            r.2 matches Some(st) && st matches ServiceStatus::Error { message: em } && em@ == m@),
            self.phase is Settling && ev is Settled ==> r.0.phase is Verifying && r.1 is CheckAlive
                && r.2 is None,
            ev matches StartEvent::AliveChecked { alive } ==> self.phase is Verifying ==> (if alive {
                r.0.phase is Done && (r.1 matches StartAction::FinishStart { pid, port } && pid
                    == self.pid && port == self.port) && (r.2 matches Some(
                    ServiceStatus::Running { port: p },
                ) && p == self.port)
            } else {
                r.0.phase is Failed && (r.1 matches StartAction::FailStart { error }
                    && error matches OpencodeError::ServiceStartError { message } && message@
                    == "process exited immediately"@) && (r.2 matches Some(st)
                    && st matches ServiceStatus::Error { message: em } && em@
                    == "service failed to start"@)
            }),
    {
        match (self.phase, ev) {
            (StartPhase::ResolvingPort, StartEvent::PortBound { result }) => match result {
                Ok(p) => {
                    if p == 0 {
                        (
                            StartFlow { phase: StartPhase::Failed, ..self },
                            StartAction::FailStart {
                                error: OpencodeError::ServiceStartError {
                                    message: String::from_str(
                                        "ephemeral port bind returned port zero",
                                    ),
                                },
                            },
                            None,
                        )
                    } else {
                        (
                            StartFlow { phase: StartPhase::LocatingBinary, port: p, ..self },
                            StartAction::CheckBinary,
                            None,
                        )
                    }
                },
                Err(m) => (
                    StartFlow { phase: StartPhase::Failed, ..self },
                    StartAction::FailStart {
                        error: OpencodeError::ServiceStartError { message: m },
                    },
                    None,
                ),
            },
            (StartPhase::LocatingBinary, StartEvent::BinaryChecked { present }) => {
                if present {
                    (
                        StartFlow { phase: StartPhase::Preparing, ..self },
                        StartAction::PrepareConfig { port: self.port },
                        Some(ServiceStatus::Starting),
                    )
                } else {
                    (
                        StartFlow { phase: StartPhase::Failed, ..self },
                        StartAction::FailStart { error: OpencodeError::BinaryNotFound },
                        None,
                    )
                }
            },
            (StartPhase::Preparing, StartEvent::ConfigPrepared) => (
                StartFlow { phase: StartPhase::Spawning, ..self },
                StartAction::SpawnProcess { port: self.port },
                None,
            ),
            (StartPhase::Spawning, StartEvent::Spawned { result }) => match result {
                Ok(pid) => (
                    StartFlow { phase: StartPhase::Settling, pid, ..self },
                    StartAction::WaitSettle { millis: SPAWN_SETTLE_MILLIS },
                    None,
                ),
                Err(m) => {
                    let emitted = m.clone();
                    (
                        StartFlow { phase: StartPhase::Failed, ..self },
                        StartAction::FailStart {
                            error: OpencodeError::ServiceStartError { message: m },
                        },
                        Some(ServiceStatus::Error { message: emitted }),
                    )
                },
            },
            (StartPhase::Settling, StartEvent::Settled) => (
                StartFlow { phase: StartPhase::Verifying, ..self },
                StartAction::CheckAlive,
                None,
            ),
            (StartPhase::Verifying, StartEvent::AliveChecked { alive }) => {
                if alive {
                    (
                        StartFlow { phase: StartPhase::Done, ..self },
                        StartAction::FinishStart { pid: self.pid, port: self.port },
                        Some(ServiceStatus::Running { port: self.port }),
                    )
                } else {
                    (
                        StartFlow { phase: StartPhase::Failed, ..self },
                        StartAction::FailStart {
                            error: OpencodeError::ServiceStartError {
                                message: String::from_str("process exited immediately"),
                            },
                        },
                        Some(
                            ServiceStatus::Error {
                                message: String::from_str("service failed to start"),
                            },
                        ),
                    )
                }
            },
            _ => (
                StartFlow { phase: StartPhase::Failed, ..self },
                StartAction::FailStart {
                    error: OpencodeError::ServiceStartError {
                        message: String::from_str("unexpected start outcome"),
                    },
                },
                None,
            ),
        }
    }
}

// ---------------------------------------------------------------------------
// stop
// ---------------------------------------------------------------------------
/// Phase of the stop flow.
#[derive(Debug, Clone, Copy, PartialEq, Eq, Structural)]
pub enum StopPhase {
    Killing,
    Polling,
    Done,
}

/// The stop flow: platform-correct termination, then a bounded poll for
/// exit.  Stopping never fails and never hangs: after the bounded wait the
/// service is declared stopped regardless, and a lingering process is only
/// logged.
#[derive(Debug, Clone, Copy, PartialEq, Eq, Structural)]
pub struct StopFlow {
    pub phase: StopPhase,
    pub attempts: u32,
    pub os: Os,
}

/// What the plumbing must do next for the stop flow.
#[derive(Debug, Clone, Copy, PartialEq, Eq, Structural)]
pub enum StopAction {
    /// Kill the whole process tree, as children may have been spawned
    /// transitively on this platform.
    KillProcessTree { pid: u32 },
    /// Send the direct kill signal and reap the process.
    KillProcess { pid: u32 },
    /// Wait briefly, then report whether the process has exited.
    PollExit { attempt: u32, millis: u32 },
    /// Drop the process handle; the stop is complete.
    FinishStop,
}

/// Outcome of the last stop action.
#[derive(Debug, Clone, Copy, PartialEq, Eq, Structural)]
pub enum StopEvent {
    KillIssued,
    ExitPolled { exited: bool },
}

impl StopFlow {
    /// Begin stopping.  With no process handle the stop is already
    /// complete: `Stopped` is re-emitted at once, and no error is even
    /// expressible — stopping an already stopped service is a no-op.
    pub fn new(pid: Option<u32>, os: Os) -> (r: (StopFlow, StopAction, Option<ServiceStatus>))
        ensures
            r.0.os == os,
            match pid {
                None => r.0.phase is Done && r.1 is FinishStop && (r.2 matches Some(st)
                    && st is Stopped),
                Some(p) => r.0.phase is Killing && r.2 is None && if os is Windows {
                    r.1 matches StopAction::KillProcessTree { pid: q } && q == p
                } else {
                    r.1 matches StopAction::KillProcess { pid: q } && q == p
                },
            },
    {
        match pid {
            None => (
                StopFlow { phase: StopPhase::Done, attempts: 0, os },
                StopAction::FinishStop,
                Some(ServiceStatus::Stopped),
            ),
            Some(p) => {
                let action = match os {
                    Os::Windows => StopAction::KillProcessTree { pid: p },
                    _ => StopAction::KillProcess { pid: p },
                };
                (StopFlow { phase: StopPhase::Killing, attempts: 0, os }, action, None)
            },
        }
    }

    /// Feed the outcome of the last action in.  The only status this flow
    /// ever emits is `Stopped`, and it always reaches `Done` within the
    /// bounded number of polls.
    pub fn step(self, ev: StopEvent) -> (r: (StopFlow, StopAction, Option<ServiceStatus>))
        ensures
            r.0.os == self.os,
            r.2 matches Some(st) ==> st is Stopped,
            r.0.phase is Done <==> (r.2 matches Some(st) && st is Stopped),
            r.0.phase is Done <==> r.1 is FinishStop,
            self.phase is Killing && ev is KillIssued ==> (if self.os is Windows {
                r.0.phase is Polling && r.0.attempts == 1 && (r.1 matches StopAction::PollExit {
                    attempt,
                    millis,
                } && attempt == 1 && millis == STOP_POLL_MILLIS)
            } else {
                r.0.phase is Done
            }),
            ev matches StopEvent::ExitPolled { exited } ==> self.phase is Polling ==> (if exited
                || self.attempts >= MAX_STOP_POLLS {
                r.0.phase is Done
            } else {
                r.0.phase is Polling && r.0.attempts == self.attempts + 1
            }),
            self.phase is Done ==> r.0.phase is Done,
    {
        match (self.phase, ev) {
            (StopPhase::Killing, StopEvent::KillIssued) => match self.os {
                Os::Windows => (
                    StopFlow { phase: StopPhase::Polling, attempts: 1, ..self },
                    StopAction::PollExit { attempt: 1, millis: STOP_POLL_MILLIS },
                    None,
                ),
                _ => (
                    StopFlow { phase: StopPhase::Done, ..self },
                    StopAction::FinishStop,
                    Some(ServiceStatus::Stopped),
                ),
            },
            (StopPhase::Polling, StopEvent::ExitPolled { exited }) => {
                if exited || self.attempts >= MAX_STOP_POLLS {
                    (
                        StopFlow { phase: StopPhase::Done, ..self },
                        StopAction::FinishStop,
                        Some(ServiceStatus::Stopped),
                    )
                } else {
                    let next = self.attempts + 1;
                    (
                        StopFlow { phase: StopPhase::Polling, attempts: next, ..self },
                        StopAction::PollExit { attempt: next, millis: STOP_POLL_MILLIS },
                        None,
                    )
                }
            },
            _ => (
                StopFlow { phase: StopPhase::Done, ..self },
                StopAction::FinishStop,
                Some(ServiceStatus::Stopped),
            ),
        }
    }
}

// ---------------------------------------------------------------------------
// update
// ---------------------------------------------------------------------------
/// Phase of the update flow.
#[derive(Debug, Clone, Copy, PartialEq, Eq, Structural)]
pub enum UpdatePhase {
    Stopping,
    Settling,
    Installing,
    Restarting,
    Done,
    Failed,
}

/// The update flow: stop the process if running, give the platform a
/// moment to release it, force a re-install, and restore the previous
/// running state afterward.
#[derive(Debug, Clone, Copy, PartialEq, Eq, Structural)]
pub struct UpdateFlow {
    pub phase: UpdatePhase,
    pub was_running: bool,
    pub os: Os,
    pub arch: Arch,
}

/// Milliseconds the update waits after stopping before touching the
/// binary: generous where the platform may still hold the file.
pub open spec fn spec_update_settle_millis(os: Os) -> u32 {
    if os is Windows {
        2000u32
    } else {
        500u32
    }
}

/// What the plumbing must do next for the update flow.
#[derive(Debug, Clone, PartialEq, Eq)]
pub enum UpdateAction {
    /// Drive the stop flow to completion.
    RunStop,
    /// Wait for the platform to release the process's resources.
    WaitRelease { millis: u32 },
    /// Drive the install flow to completion, with the download forced even
    /// though a binary is present, and record the newly installed version.
    RunInstall,
    /// Drive the start flow to completion; its failure is logged, not
    /// surfaced, as the update itself succeeded.
    RunStart,
    /// The update is complete.
    FinishUpdate,
    /// The update failed; surface the error to the caller.
    FailUpdate { error: OpencodeError },
}

/// Outcome of the last update action.
#[derive(Debug, PartialEq, Eq)]
pub enum UpdateEvent {
    StopCompleted,
    ReleaseWaited,
    InstallCompleted { result: Result<(), OpencodeError> },
    RestartCompleted,
}

impl UpdateFlow {
    /// Begin updating.  Whether the service is restarted afterwards is
    /// decided by whether it is running now.
    pub fn new(status: &ServiceStatus, os: Os, arch: Arch) -> (r: (UpdateFlow, UpdateAction))
        ensures
            r.0 == (UpdateFlow {
                phase: UpdatePhase::Stopping,
                was_running: status is Running,
                os,
                arch,
            }),
            r.1 is RunStop,
    {
        let was_running = match status {
            ServiceStatus::Running { .. } => true,
            _ => false,
        };
        (UpdateFlow { phase: UpdatePhase::Stopping, was_running, os, arch }, UpdateAction::RunStop)
    }

    /// Feed the outcome of the last action in.  An update begun while the
    /// service was not running never asks for a restart: it ends with the
    /// install's final `Ready`, not `Running`.
    pub fn step(self, ev: UpdateEvent) -> (r: (UpdateFlow, UpdateAction))
        ensures
            r.0.was_running == self.was_running && r.0.os == self.os && r.0.arch == self.arch,
            self.phase is Stopping && ev is StopCompleted ==> r.0.phase is Settling && (
            r.1 matches UpdateAction::WaitRelease { millis } && millis == spec_update_settle_millis(
                self.os,
            )),
            self.phase is Settling && ev is ReleaseWaited ==> r.0.phase is Installing
                && r.1 is RunInstall,
            ev matches UpdateEvent::InstallCompleted { result: Ok(u) } ==> self.phase is Installing ==> (if self.was_running {
                r.0.phase is Restarting && r.1 is RunStart
            } else {
                r.0.phase is Done && r.1 is FinishUpdate
            }),
            ev matches UpdateEvent::InstallCompleted { result: Err(e) } ==> self.phase is Installing ==> r.0.phase is Failed && (r.1 matches UpdateAction::FailUpdate { error } && error
                == e),
            self.phase is Restarting && ev is RestartCompleted ==> r.0.phase is Done
                && r.1 is FinishUpdate,
    {
        match (self.phase, ev) {
            (UpdatePhase::Stopping, UpdateEvent::StopCompleted) => {
                let millis: u32 = match self.os {
                    Os::Windows => 2000,
                    _ => 500,
                };
                (
                    UpdateFlow { phase: UpdatePhase::Settling, ..self },
                    UpdateAction::WaitRelease { millis },
                )
            },
            (UpdatePhase::Settling, UpdateEvent::ReleaseWaited) => (
                UpdateFlow { phase: UpdatePhase::Installing, ..self },
                UpdateAction::RunInstall,
            ),
            (UpdatePhase::Installing, UpdateEvent::InstallCompleted { result }) => match result {
                Ok(_) => {
                    if self.was_running {
                        (
                            UpdateFlow { phase: UpdatePhase::Restarting, ..self },
                            UpdateAction::RunStart,
                        )
                    } else {
                        (UpdateFlow { phase: UpdatePhase::Done, ..self }, UpdateAction::FinishUpdate)
                    }
                },
                Err(e) => (
                    UpdateFlow { phase: UpdatePhase::Failed, ..self },
                    UpdateAction::FailUpdate { error: e },
                ),
            },
            (UpdatePhase::Restarting, UpdateEvent::RestartCompleted) => (
                UpdateFlow { phase: UpdatePhase::Done, ..self },
                UpdateAction::FinishUpdate,
            ),
            _ => (
                UpdateFlow { phase: UpdatePhase::Failed, ..self },
                UpdateAction::FailUpdate {
                    error: OpencodeError::ConfigError {
                        message: String::from_str("unexpected update outcome"),
                    },
                },
            ),
        }
    }
}

// ---------------------------------------------------------------------------
// spawn environment and remote probe
// ---------------------------------------------------------------------------
/// Everything a spawn needs: program, arguments, environment and working
/// directory.  The environment redirects the binary's own configuration,
/// data, state and cache directories under the application-data root,
/// isolating it from any separately installed copy, and disables its
/// self-update — version management belongs to the supervisor alone.
#[derive(Debug, Clone, PartialEq, Eq)]
pub struct SpawnPlan {
    pub program: String,
    pub args: Vec<String>,
    pub env: Vec<(String, String)>,
    pub cwd: String,
}

/// Build the spawn plan for the binary at `binary_path` serving on `port`.
pub fn build_spawn_plan(
    binary_path: &str,
    port: u16,
    app_data_dir: &str,
    cache_dir: &str,
    working_dir: &str,
) -> (r: SpawnPlan)
    ensures
        r.program@ == binary_path@,
        r.cwd@ == working_dir@,
        r.args@.len() == 3,
        r.args@[0]@ == "serve"@,
        r.args@[1]@ == "--port"@,
        r.args@[2]@ == spec_u64_digits(port as nat),
        r.env@.len() == 7,
        r.env@[0].0@ == "XDG_CONFIG_HOME"@ && r.env@[0].1@ == app_data_dir@,
        r.env@[1].0@ == "XDG_DATA_HOME"@ && r.env@[1].1@ == app_data_dir@,
        r.env@[2].0@ == "XDG_STATE_HOME"@ && r.env@[2].1@ == app_data_dir@,
        r.env@[3].0@ == "XDG_CACHE_HOME"@ && r.env@[3].1@ == cache_dir@,
        r.env@[4].0@ == "OPENCODE_DISABLE_AUTOUPDATE"@ && r.env@[4].1@ == "true"@,
        r.env@[5].0@ == "AXON_RUNNING"@ && r.env@[5].1@ == "true"@,
        r.env@[6].0@ == "AXON_BRIDGE_PORT"@ && r.env@[6].1@ == spec_u64_digits(port as nat),
{
    let port_str = u64_to_string(port as u64);
    let mut args: Vec<String> = Vec::new();
    args.push(String::from_str("serve"));
    args.push(String::from_str("--port"));
    args.push(port_str.clone());
    let mut env: Vec<(String, String)> = Vec::new();
    env.push((String::from_str("XDG_CONFIG_HOME"), app_data_dir.to_owned()));
    env.push((String::from_str("XDG_DATA_HOME"), app_data_dir.to_owned()));
    env.push((String::from_str("XDG_STATE_HOME"), app_data_dir.to_owned()));
    env.push((String::from_str("XDG_CACHE_HOME"), cache_dir.to_owned()));
    env.push((String::from_str("OPENCODE_DISABLE_AUTOUPDATE"), String::from_str("true")));
    env.push((String::from_str("AXON_RUNNING"), String::from_str("true")));
    env.push((String::from_str("AXON_BRIDGE_PORT"), port_str));
    SpawnPlan { program: binary_path.to_owned(), args, env, cwd: working_dir.to_owned() }
}

/// A remote URL with every trailing slash removed.
pub open spec fn spec_trim_trailing_slashes(s: Seq<char>) -> Seq<char>
    decreases s.len(),
{
    if s.len() > 0 && s.last() == '/' {
        spec_trim_trailing_slashes(s.drop_last())
    } else {
        s
    }
}

/// The health endpoint probed in remote mode.
pub fn health_url(url: &str) -> (r: String)
    ensures
        r@ == spec_trim_trailing_slashes(url@) + "/health"@,
{
    let n = url.unicode_len();
    let mut j: usize = n;
    proof {
        assert(url@.take(n as int) =~= url@);
    }
    loop
        invariant
            n == url@.len(),
            0 <= j <= n,
            spec_trim_trailing_slashes(url@) == spec_trim_trailing_slashes(url@.take(j as int)),
        ensures
            0 <= j <= n,
            spec_trim_trailing_slashes(url@) == spec_trim_trailing_slashes(url@.take(j as int)),
            j == 0 || url@[j - 1] != '/',
        decreases j,
    {
        if j > 0 && url.get_char(j - 1) == '/' {
            proof {
                assert(url@.take(j as int).drop_last() =~= url@.take(j - 1));
            }
            j = j - 1;
        } else {
            break;
        }
    }
    let mut r = url.substring_char(0, j).to_owned();
    r.append("/health");
    proof {
        assert(spec_trim_trailing_slashes(url@.take(j as int)) == url@.take(j as int));
        assert(url@.subrange(0, j as int) =~= url@.take(j as int));
    }
    r
}

/// Resolve what the reachability probe of a remote instance yielded: a
/// successful status is healthy; any other status or no response at all is
/// a connection error naming the cause.
pub fn remote_probe_result(outcome: Result<u16, String>) -> (r: Result<(), OpencodeError>)
    ensures
        match outcome {
            Ok(status) => if crate::locator::spec_http_success(status) {
                r is Ok
            } else {
                r matches Err(e) && (e matches OpencodeError::ConnectionError { message }
                    && message@ == "Server returned status: "@ + spec_u64_digits(status as nat))
            },
            Err(m) => r matches Err(e) && (e matches OpencodeError::ConnectionError { message }
                && message@ == m@),
        },
{
    match outcome {
        Ok(status) => {
            if 200 <= status && status < 300 {
                Ok(())
            } else {
                let mut message = String::from_str("Server returned status: ");
                let digits = u64_to_string(status as u64);
                message.append(digits.as_str());
                Err(OpencodeError::ConnectionError { message })
            }
        },
        Err(m) => Err(OpencodeError::ConnectionError { message: m }),
    }
}

} // verus!
