//! Core data model of the service lifecycle: connection mode, configuration,
//! status, download progress, version report and the error taxonomy.

use vstd::prelude::*;
use vstd::string::StringExecFns;

verus! {

/// How the service is reached: a locally managed binary, or an externally
/// running instance reachable by URL on which no process management is done.
#[derive(Debug, Clone, PartialEq, Eq)]
pub enum ServiceMode {
    Local,
    Remote { url: String },
}

impl Default for ServiceMode {
    fn default() -> (r: Self)
        ensures
            r is Local,
    {
        ServiceMode::Local
    }
}

/// User-controlled settings, replaced wholesale on update.  A port of 0 asks
/// for an ephemeral port to be bound at start.
#[derive(Debug, Clone, PartialEq, Eq)]
pub struct ServiceConfig {
    pub mode: ServiceMode,
    pub port: u16,
    pub auto_start: bool,
}

impl Default for ServiceConfig {
    fn default() -> (r: Self)
        ensures
            r.mode is Local,
            r.port == 0,
            r.auto_start,
    {
        ServiceConfig { mode: ServiceMode::Local, port: 0, auto_start: true }
    }
}

/// The only externally visible lifecycle state.  `Running` is the sole state
/// carrying a port, because the port is known only once the process is
/// confirmed alive.
#[derive(Debug, Clone, PartialEq, Eq)]
pub enum ServiceStatus {
    Uninitialized,
    Downloading { progress: u32 },
    Ready,
    Starting,
    Running { port: u16 },
    Stopped,
    Error { message: String },
}

impl Default for ServiceStatus {
    fn default() -> (r: Self)
        ensures
            r is Uninitialized,
    {
        ServiceStatus::Uninitialized
    }
}

impl ServiceMode {
    /// A copy whose value Verus knows equals the original's.
    pub fn duplicate(&self) -> (r: Self)
        ensures
            r == *self,
    {
        match self {
            ServiceMode::Local => ServiceMode::Local,
            ServiceMode::Remote { url } => ServiceMode::Remote { url: url.clone() },
        }
    }
}

impl ServiceConfig {
    /// A copy whose value Verus knows equals the original's.
    pub fn duplicate(&self) -> (r: Self)
        ensures
            r == *self,
    {
        ServiceConfig { mode: self.mode.duplicate(), port: self.port, auto_start: self.auto_start }
    }
}

impl ServiceStatus {
    /// A copy whose value Verus knows equals the original's.
    pub fn duplicate(&self) -> (r: Self)
        ensures
            r == *self,
    {
        match self {
            ServiceStatus::Uninitialized => ServiceStatus::Uninitialized,
            ServiceStatus::Downloading { progress } => ServiceStatus::Downloading {
                progress: *progress,
            },
            ServiceStatus::Ready => ServiceStatus::Ready,
            ServiceStatus::Starting => ServiceStatus::Starting,
            ServiceStatus::Running { port } => ServiceStatus::Running { port: *port },
            ServiceStatus::Stopped => ServiceStatus::Stopped,
            ServiceStatus::Error { message } => ServiceStatus::Error { message: message.clone() },
        }
    }
}

/// Percentage shown for `downloaded` bytes out of an optional total:
/// 0 when the total is unknown or zero, otherwise the integer percentage,
/// never above 100.
pub open spec fn spec_percentage(downloaded: u64, total: Option<u64>) -> u32 {
    match total {
        Some(t) => if t == 0 {
            0u32
        } else if downloaded >= t {
            100u32
        } else {
            (((downloaded as int) * 100) / (t as int)) as u32
        },
        None => 0u32,
    }
}

/// Transient progress report streamed to observers while downloading; never
/// persisted.
#[derive(Debug, Clone, PartialEq, Eq)]
pub struct DownloadProgress {
    pub downloaded: u64,
    pub total: Option<u64>,
    pub percentage: u32,
}

impl DownloadProgress {
    /// Build a progress report with the percentage computed from the counts.
    pub fn new(downloaded: u64, total: Option<u64>) -> (r: DownloadProgress)
        ensures
            r.downloaded == downloaded,
            r.total == total,
            r.percentage == spec_percentage(downloaded, total),
            r.percentage <= 100,
    {
        let percentage: u32 = match total {
            Some(t) => {
                if t == 0 {
                    0
                } else if downloaded >= t {
                    100
                } else {
                    proof {
                        assert(0 <= ((downloaded as int) * 100) / (t as int) < 100)
                            by(nonlinear_arith)
                            requires 0 < t && downloaded < t;
                    }
                    ((downloaded as u128 * 100) / (t as u128)) as u32
                }
            },
            None => 0,
        };
        DownloadProgress { downloaded, total, percentage }
    }
}

/// Version report: what is installed, what the release index offers, and
/// whether the latter is an upgrade over the former.
#[derive(Debug, Clone, PartialEq, Eq)]
pub struct VersionInfo {
    pub installed: Option<String>,
    pub latest: Option<String>,
    pub update_available: bool,
}

impl Default for VersionInfo {
    fn default() -> (r: Self)
        ensures
            r.installed is None,
            r.latest is None,
            !r.update_available,
    {
        VersionInfo { installed: None, latest: None, update_available: false }
    }
}

/// Credential kinds a provider entry can carry.
#[derive(Debug, Clone, PartialEq, Eq)]
pub enum ProviderAuth {
    Api { key: String },
    OAuth { connected: bool, method: u32 },
    Subscription { provider: String, connected: bool },
}

/// Error taxonomy of the lifecycle operations.  Configuration errors are
/// fatal and never retried; download errors are retryable by the caller;
/// extraction errors distinguish a locked file from generic I/O failure.
#[derive(Debug, Clone, PartialEq, Eq)]
pub enum OpencodeError {
    DownloadError { message: String },
    ExtractError { message: String },
    BinaryNotFound,
    ServiceStartError { message: String },
    ConnectionError { message: String },
    IoError { message: String },
    ConfigError { message: String },
}

/// The descriptive prefix each error variant is reported with.
pub open spec fn spec_error_prefix(e: OpencodeError) -> Seq<char> {
    match e {
        OpencodeError::DownloadError { .. } => "Failed to download opencode: "@,
        OpencodeError::ExtractError { .. } => "Failed to extract archive: "@,
        OpencodeError::BinaryNotFound => "Binary not found at expected path"@,
        OpencodeError::ServiceStartError { .. } => "Failed to start service: "@,
        OpencodeError::ConnectionError { .. } => "Failed to connect to service: "@,
        OpencodeError::IoError { .. } => "IO error: "@,
        OpencodeError::ConfigError { .. } => "Invalid configuration: "@,
    }
}

/// The detail text an error variant carries, empty where it carries none.
pub open spec fn spec_error_detail(e: OpencodeError) -> Seq<char> {
    match e {
        OpencodeError::DownloadError { message } => message@,
        OpencodeError::ExtractError { message } => message@,
        OpencodeError::BinaryNotFound => Seq::empty(),
        OpencodeError::ServiceStartError { message } => message@,
        OpencodeError::ConnectionError { message } => message@,
        OpencodeError::IoError { message } => message@,
        OpencodeError::ConfigError { message } => message@,
    }
}

impl OpencodeError {
    /// Human-readable description: the variant's prefix followed by its
    /// detail text.
    pub fn message(&self) -> (r: String)
        ensures
            r@ == spec_error_prefix(*self) + spec_error_detail(*self),
    {
        let mut out: String;
        match self {
            OpencodeError::DownloadError { message } => {
                out = String::from_str("Failed to download opencode: ");
                out.append(message.as_str());
            },
            OpencodeError::ExtractError { message } => {
                out = String::from_str("Failed to extract archive: ");
                out.append(message.as_str());
            },
            OpencodeError::BinaryNotFound => {
                out = String::from_str("Binary not found at expected path");
                assert(out@ =~= spec_error_prefix(*self) + spec_error_detail(*self));
            },
            OpencodeError::ServiceStartError { message } => {
                out = String::from_str("Failed to start service: ");
                out.append(message.as_str());
            },
            OpencodeError::ConnectionError { message } => {
                out = String::from_str("Failed to connect to service: ");
                out.append(message.as_str());
            },
            OpencodeError::IoError { message } => {
                out = String::from_str("IO error: ");
                out.append(message.as_str());
            },
            OpencodeError::ConfigError { message } => {
                out = String::from_str("Invalid configuration: ");
                out.append(message.as_str());
            },
        }
        out
    }
}

} // verus!
