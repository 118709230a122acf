//! Plain data types of the interface boundary: the envelope the control
//! plane answers with, the agent and orchestration kinds it names, the
//! model catalog's shape records, and the application updater's report.

use vstd::prelude::*;

verus! {

/// How an agent runs.
#[derive(Debug, Clone, PartialEq, Eq)]
pub enum AgentMode {
    Primary,
    Subagent,
    All,
}

/// Kind of an orchestration node.
#[derive(Debug, Clone, PartialEq, Eq)]
pub enum OrchestrationNodeType {
    Agent,
    Tool,
    Condition,
    Parallel,
    Sequence,
}

/// Input and output modalities of a model.
#[derive(Debug, Clone, PartialEq, Eq)]
pub struct Modalities {
    pub input: Vec<String>,
    pub output: Vec<String>,
}

/// Token limits of a model.
#[derive(Debug, Clone, PartialEq, Eq)]
pub struct LimitInfo {
    pub context: u64,
    pub output: u64,
}

/// The application updater's report.
#[derive(Debug, Clone, PartialEq, Eq)]
pub struct UpdateInfo {
    pub available: bool,
    pub current_version: String,
    pub new_version: Option<String>,
    pub update_notes: Option<String>,
    pub download_progress: u32,
}

/// The envelope every control-plane answer is wrapped in: either data with
/// success set, or an error message without data.
#[derive(Debug, Clone, PartialEq, Eq)]
pub struct ApiResponse<T> {
    pub success: bool,
    pub data: Option<T>,
    pub error: Option<String>,
}

impl<T> ApiResponse<T> {
    /// A successful answer carrying its data and no error.
    pub fn success(data: T) -> (r: Self)
        ensures
            r.success,
            r.data == Some(data),
            r.error is None,
    {
        ApiResponse { success: true, data: Some(data), error: None }
    }

    /// A failed answer carrying its message and no data.
    pub fn error(msg: String) -> (r: Self)
        ensures
            !r.success,
            r.data is None,
            r.error == Some(msg),
    {
        ApiResponse { success: false, data: None, error: Some(msg) }
    }
}

} // verus!
