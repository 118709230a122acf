//! The service supervisor: the single source of truth for configuration,
//! lifecycle status and the owned process handle, with every transition
//! broadcast through the status channel.  The lifecycle operations
//! themselves run as the machines of the lifecycle module; the supervisor
//! holds what they read and write between steps.

use crate::lifecycle::{
    InitAction, InitFlow, StartAction, StartFlow, StopAction, StopFlow, UpdateAction, UpdateFlow,
};
use crate::notify::StatusChannel;
use crate::platform::{Arch, Os};
use crate::strutil::spec_u64_digits;
use crate::strutil::u16_to_string;
use crate::types::{OpencodeError, ServiceConfig, ServiceMode, ServiceStatus};
use vstd::prelude::*;
use vstd::string::StringExecFns;

verus! {

/// Milliseconds between the stop and the start of a restart.
pub const RESTART_SETTLE_MILLIS: u32 = 100;

/// A status that does not claim an active process.
pub open spec fn spec_inactive_status(st: ServiceStatus) -> bool {
    st is Uninitialized || st is Ready || st is Stopped
}

/// How the initialize operation proceeds for the configured mode.
#[derive(Debug, PartialEq, Eq)]
pub enum InitializePlan {
    /// Local mode: drive the install flow.
    Install { flow: InitFlow, action: InitAction },
    /// Remote mode: probe this instance's reachability, then finish with
    /// [`OpencodeService::complete_remote_initialize`].
    ProbeRemote { url: String },
}

/// How the start operation proceeds for the configured mode.
#[derive(Debug, PartialEq, Eq)]
pub enum StartPlan {
    /// Local mode: drive the start flow.
    Local { flow: StartFlow, action: StartAction },
    /// Remote mode: probe this instance's reachability, then finish with
    /// [`OpencodeService::complete_remote_start`].
    ProbeRemote { url: String },
}

/// The supervisor state.  The process handle is owned exclusively here,
/// never cloned or shared, and dropped on stop, restart or update.
#[derive(Debug, PartialEq, Eq)]
pub struct OpencodeService {
    pub config: ServiceConfig,
    pub status: ServiceStatus,
    pub process: Option<u32>,
    pub channel: StatusChannel,
}

impl OpencodeService {
    /// A fresh supervisor: local mode with an auto-assigned port, status
    /// uninitialized, no process, nobody attached.
    pub fn new() -> (r: OpencodeService)
        ensures
            r.config.mode is Local && r.config.port == 0 && r.config.auto_start,
            r.status is Uninitialized,
            r.process is None,
            r.channel.last is Uninitialized && r.channel.subscribers == 0,
    {
        OpencodeService {
            config: ServiceConfig::default(),
            status: ServiceStatus::Uninitialized,
            process: None,
            channel: StatusChannel::new(),
        }
    }

    /// The current configuration.
    pub fn get_config(&self) -> (r: ServiceConfig)
        ensures
            r == self.config,
    {
        self.config.duplicate()
    }

    /// Replace the configuration wholesale; there is no partial merge.
    pub fn set_config(&mut self, config: ServiceConfig)
        ensures
            final(self).config == config,
            final(self).status == old(self).status,
            final(self).process == old(self).process,
            final(self).channel == old(self).channel,
    {
        self.config = config;
    }

    /// Replace the connection mode, keeping the other settings.
    pub fn set_mode(&mut self, mode: ServiceMode)
        ensures
            final(self).config.mode == mode,
            final(self).config.port == old(self).config.port,
            final(self).config.auto_start == old(self).config.auto_start,
            final(self).status == old(self).status,
            final(self).process == old(self).process,
            final(self).channel == old(self).channel,
    {
        self.config.mode = mode;
    }

    /// Record a status transition and broadcast it; the returned count says
    /// to how many consumers it was delivered (to none is not an error).
    pub fn update_status(&mut self, status: ServiceStatus) -> (delivered: u32)
        ensures
            final(self).status == status,
            final(self).channel.last == status,
            final(self).channel.subscribers == old(self).channel.subscribers,
            final(self).config == old(self).config,
            final(self).process == old(self).process,
            delivered == old(self).channel.subscribers,
    {
        self.status = status.duplicate();
        self.channel.publish(status)
    }

    /// Stream a download-progress report to whoever is attached; nothing
    /// of the supervisor changes, and nothing is buffered.
    pub fn emit_download_progress(&mut self, progress: &crate::types::DownloadProgress) -> (delivered:
        u32)
        ensures
            *final(self) == *old(self),
            delivered == old(self).channel.subscribers,
    {
        self.channel.publish_progress(progress)
    }

    /// Attach a consumer to the channel; the most recent status is
    /// replayed to it at once.
    pub fn attach_observer(&mut self) -> (r: ServiceStatus)
        ensures
            final(self).config == old(self).config,
            final(self).status == old(self).status,
            final(self).process == old(self).process,
            final(self).channel.last == old(self).channel.last,
            r == old(self).channel.last,
    {
        self.channel.attach()
    }

    /// Hand the supervisor the process a completed start confirmed, or
    /// clear the handle after a stop.
    pub fn set_process(&mut self, pid: Option<u32>)
        ensures
            final(self).process == pid,
            final(self).config == old(self).config,
            final(self).status == old(self).status,
            final(self).channel == old(self).channel,
    {
        self.process = pid;
    }

    /// The port the running service could only be listening on, as far as
    /// it can be determined with confidence: the recorded running port, or
    /// the fixed configured port.  With a dynamic port and no recorded
    /// running state there is nothing trustworthy to report.
    pub fn detect_running_port(&self) -> (r: Option<u16>)
        ensures
            match self.status {
                ServiceStatus::Running { port } => r == Some(port),
                _ => if self.config.port != 0 {
                    r == Some(self.config.port)
                } else {
                    r is None
                },
            },
    {
        match self.status {
            ServiceStatus::Running { port } => Some(port),
            _ => {
                if self.config.port != 0 {
                    Some(self.config.port)
                } else {
                    None
                }
            },
        }
    }

    /// The current status, opportunistically corrected: a status that
    /// claims no active process while the process handle shows one alive
    /// becomes `Running` — but only when the port is determinable, that is
    /// when a fixed port is configured.  With a dynamic port the stale
    /// status is left as it is: reporting a guessed port would be worse.
    /// The correction is recorded, not broadcast.
    pub fn get_status(&mut self, process_alive: bool) -> (r: ServiceStatus)
        ensures
            final(self).config == old(self).config,
            final(self).process == old(self).process,
            final(self).channel == old(self).channel,
            if spec_inactive_status(old(self).status) && process_alive && old(self).config.port
                != 0 {
                final(self).status == (ServiceStatus::Running { port: old(self).config.port })
            } else {
                final(self).status == old(self).status
            },
            r == final(self).status,
    {
        let inactive = match self.status {
            ServiceStatus::Uninitialized | ServiceStatus::Ready | ServiceStatus::Stopped => true,
            _ => false,
        };
        if inactive && process_alive && self.config.port != 0 {
            self.status = ServiceStatus::Running { port: self.config.port };
        }
        self.status.duplicate()
    }

    /// Begin the initialize operation for the current mode: install the
    /// binary locally, or probe the remote instance's reachability.
    pub fn begin_initialize(&self, os: Os, arch: Arch) -> (r: InitializePlan)
        ensures
            match self.config.mode {
                ServiceMode::Local => r matches InitializePlan::Install { flow, action } && flow
                    == (InitFlow { phase: crate::lifecycle::InitPhase::CheckingBinary, os, arch, force: false })
                    && action is CheckBinary,
                ServiceMode::Remote { url } => r matches InitializePlan::ProbeRemote { url: u }
                    && u@ == url@,
            },
    {
        match &self.config.mode {
            ServiceMode::Local => {
                let (flow, action) = InitFlow::new(os, arch, false);
                InitializePlan::Install { flow, action }
            },
            ServiceMode::Remote { url } => InitializePlan::ProbeRemote { url: url.clone() },
        }
    }

    /// Finish a remote-mode initialize with what the probe yielded: a
    /// reachable instance makes the service `Ready`; a failed probe is
    /// surfaced and the status left alone.
    pub fn complete_remote_initialize(&mut self, probe: Result<(), OpencodeError>) -> (r: Result<
        (),
        OpencodeError,
    >)
        ensures
            final(self).config == old(self).config,
            final(self).process == old(self).process,
            match probe {
                Ok(u) => r is Ok && final(self).status is Ready && final(self).channel.last
                    is Ready,
                Err(e) => (r matches Err(e2) && e2 == e) && final(self).status == old(self).status
                    && final(self).channel == old(self).channel,
            },
    {
        match probe {
            Ok(_) => {
                self.update_status(ServiceStatus::Ready);
                Ok(())
            },
            Err(e) => Err(e),
        }
    }

    /// Begin the start operation for the current mode: run the local start
    /// flow with the configured port, or probe the remote instance.
    pub fn begin_start(&self, os: Os) -> (r: StartPlan)
        ensures
            match self.config.mode {
                ServiceMode::Local => r matches StartPlan::Local { flow, action } && flow.wf()
                    && flow.requested_port == self.config.port && flow.os == os && (
                if self.config.port == 0 {
                    flow.phase is ResolvingPort && action is BindEphemeralPort
                } else {
                    flow.phase is LocatingBinary && action is CheckBinary && flow.port
                        == self.config.port
                }),
                ServiceMode::Remote { url } => r matches StartPlan::ProbeRemote { url: u } && u@
                    == url@,
            },
    {
        match &self.config.mode {
            ServiceMode::Local => {
                let (flow, action) = StartFlow::new(self.config.port, os);
                StartPlan::Local { flow, action }
            },
            ServiceMode::Remote { url } => StartPlan::ProbeRemote { url: url.clone() },
        }
    }

    /// Finish a remote-mode start with what the probe yielded: a reachable
    /// instance is `Running` on the configured port; a failed probe is
    /// surfaced and the status left alone.
    pub fn complete_remote_start(&mut self, probe: Result<(), OpencodeError>) -> (r: Result<
        (),
        OpencodeError,
    >)
        ensures
            final(self).config == old(self).config,
            final(self).process == old(self).process,
            match probe {
                Ok(u) => r is Ok && final(self).status == (ServiceStatus::Running {
                    port: old(self).config.port,
                }),
                Err(e) => (r matches Err(e2) && e2 == e) && final(self).status == old(self).status
                    && final(self).channel == old(self).channel,
            },
    {
        match probe {
            Ok(_) => {
                let port = self.config.port;
                self.update_status(ServiceStatus::Running { port });
                Ok(())
            },
            Err(e) => Err(e),
        }
    }

    /// Begin the stop operation on the owned process handle.  With none —
    /// stopping an already stopped service — the flow is complete at once
    /// and simply re-emits `Stopped`; no error is possible.
    pub fn begin_stop(&self, os: Os) -> (r: (StopFlow, StopAction, Option<ServiceStatus>))
        ensures
            r.0.os == os,
            match self.process {
                None => r.0.phase is Done && r.1 is FinishStop && (r.2 matches Some(st)
                    && st is Stopped),
                Some(p) => r.0.phase is Killing && r.2 is None && if os is Windows {
                    r.1 matches StopAction::KillProcessTree { pid } && pid == p
                } else {
                    r.1 matches StopAction::KillProcess { pid } && pid == p
                },
            },
    {
        StopFlow::new(self.process, os)
    }

    /// Begin the update operation: whether the service is restarted
    /// afterwards is decided by whether it is running now.
    pub fn begin_update(&self, os: Os, arch: Arch) -> (r: (UpdateFlow, UpdateAction))
        ensures
            r.0 == (UpdateFlow {
                phase: crate::lifecycle::UpdatePhase::Stopping,
                was_running: self.status is Running,
                os,
                arch,
            }),
            r.1 is RunStop,
    {
        UpdateFlow::new(&self.status, os, arch)
    }

    /// The endpoint a running service is reachable at: the configured URL
    /// in remote mode, the loopback address with the running port in local
    /// mode, nothing while not running.
    pub fn get_endpoint(&self) -> (r: Option<String>)
        ensures
            match (self.config.mode, self.status) {
                (ServiceMode::Remote { url }, ServiceStatus::Running { .. }) => r matches Some(e)
                    && e@ == url@,
                (ServiceMode::Local, ServiceStatus::Running { port }) => r matches Some(e) && e@
                    == "http://127.0.0.1:"@ + spec_u64_digits(port as nat),
                _ => r is None,
            },
    {
        match (&self.config.mode, &self.status) {
            (ServiceMode::Remote { url }, ServiceStatus::Running { .. }) => Some(url.clone()),
            (ServiceMode::Local, ServiceStatus::Running { port }) => {
                let mut e = String::from_str("http://127.0.0.1:");
                let digits = u16_to_string(*port);
                e.append(digits.as_str());
                Some(e)
            },
            _ => None,
        }
    }
}

impl Default for OpencodeService {
    fn default() -> (r: Self)
        ensures
            r.config.mode is Local && r.config.port == 0 && r.config.auto_start,
            r.status is Uninitialized,
            r.process is None,
    {
        OpencodeService::new()
    }
}

} // verus!
