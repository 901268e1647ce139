//! The records exchanged with the execution backend.

use vstd::prelude::*;

verus! {

/// Where a task stands in its lifecycle.
#[derive(Debug, Clone, Copy, PartialEq, Eq, Structural)]
pub enum TaskStatus {
    Pending,
    Running,
    Completed,
    Failed,
    NeedsApproval,
}

/// The human-readable name of a status.
pub open spec fn status_label(s: TaskStatus) -> Seq<char> {
    match s {
        TaskStatus::Pending => "Pending"@,
        TaskStatus::Running => "Running"@,
        TaskStatus::Completed => "Completed"@,
        TaskStatus::Failed => "Failed"@,
        TaskStatus::NeedsApproval => "Needs Approval"@,
    }
}

/// The one-glyph indicator of a status.
pub open spec fn status_glyph(s: TaskStatus) -> Seq<char> {
    match s {
        TaskStatus::Completed => "✅"@,
        TaskStatus::Failed => "❌"@,
        TaskStatus::Running => "🔄"@,
        TaskStatus::Pending => "⏳"@,
        TaskStatus::NeedsApproval => "⚠️"@,
    }
}

impl TaskStatus {
    /// The human-readable name of the status.
    pub fn label(&self) -> (r: &'static str)
        ensures
            r@ == status_label(*self),
    {
        match self {
            TaskStatus::Pending => "Pending",
            TaskStatus::Running => "Running",
            TaskStatus::Completed => "Completed",
            TaskStatus::Failed => "Failed",
            TaskStatus::NeedsApproval => "Needs Approval",
        }
    }

    /// The human-readable name of the status, as an owned string.
    pub fn to_string(&self) -> (r: String)
        ensures
            r@ == status_label(*self),
    {
        String::from_str(self.label())
    }

    /// The one-glyph indicator of the status.
    pub fn glyph(&self) -> (r: &'static str)
        ensures
            r@ == status_glyph(*self),
    {
        match self {
            TaskStatus::Completed => "✅",
            TaskStatus::Failed => "❌",
            TaskStatus::Running => "🔄",
            TaskStatus::Pending => "⏳",
            TaskStatus::NeedsApproval => "⚠️",
        }
    }
}

/// Where a task runs: on the user's own endpoint or on the shared cluster.
#[derive(Debug, Clone, Copy, PartialEq, Eq, Structural)]
pub enum ExecutionMode {
    Local,
    Cluster,
}

/// The mode a choice string selects: `cluster` selects the cluster, anything
/// else the local endpoint.
pub open spec fn mode_of_choice(s: Seq<char>) -> ExecutionMode {
    if s == "cluster"@ { ExecutionMode::Cluster } else { ExecutionMode::Local }
}

impl ExecutionMode {
    /// Reads a mode choice: `cluster`, or local for anything else.
    pub fn from_choice(s: &str) -> (r: ExecutionMode)
        ensures
            r == mode_of_choice(s@),
    {
        if crate::text::same_text(s, "cluster") {
            ExecutionMode::Cluster
        } else {
            ExecutionMode::Local
        }
    }

    /// The wire name of the mode.
    pub fn as_str(&self) -> (r: &'static str)
        ensures
            r@ == (match *self {
                ExecutionMode::Local => "local"@,
                ExecutionMode::Cluster => "cluster"@,
            }),
    {
        match self {
            ExecutionMode::Local => "local",
            ExecutionMode::Cluster => "cluster",
        }
    }
}

/// Request to create a new task. Unset fields are left out of the wire form.
#[derive(Debug, Clone)]
pub struct TaskRequest {
    pub prompt: String,
    pub session_id: Option<String>,
    pub project: Option<String>,
    pub working_dir: Option<String>,
    pub discord_user_id: Option<String>,
    /// The user whose endpoint should run the task; the backend decides
    /// whether the acting user may use it.
    pub target_user_id: Option<String>,
    pub mode: Option<ExecutionMode>,
}

/// Request to add a new project.
#[derive(Debug, Clone)]
pub struct ProjectRequest {
    pub name: String,
    pub path: String,
    pub description: Option<String>,
    pub discord_user_id: String,
}

/// A project as the backend reports it.
#[derive(Debug, Clone)]
pub struct ProjectResponse {
    pub name: String,
    pub path: String,
    pub description: String,
    pub owner_id: String,
    pub created_at: String,
}

/// Request to register a local endpoint.
#[derive(Debug, Clone)]
pub struct RegisterLocalRequest {
    pub discord_id: String,
    pub discord_name: String,
    pub wrapper_url: String,
    pub auth_token: Option<String>,
}

/// Request to enable cluster access.
#[derive(Debug, Clone)]
pub struct EnableClusterRequest {
    pub discord_id: String,
    pub discord_name: String,
    pub storage_path: Option<String>,
}

/// Request to set the default execution mode.
#[derive(Debug, Clone)]
pub struct SetModeRequest {
    pub mode: ExecutionMode,
}

/// A user as the backend reports it.
#[derive(Debug, Clone)]
pub struct UserResponse {
    pub discord_id: String,
    pub discord_name: String,
    pub local_wrapper_url: Option<String>,
    pub cluster_enabled: bool,
    pub cluster_storage_path: Option<String>,
    pub default_mode: String,
    pub created_at: String,
    pub last_seen: String,
}

/// One selectable option of an approval.
#[derive(Debug, Clone)]
pub struct ApprovalOption {
    pub id: String,
    pub label: String,
    pub description: Option<String>,
}

/// A decision point that blocks a task.
#[derive(Debug, Clone)]
pub struct ApprovalRequest {
    pub action: String,
    pub description: String,
    pub options: Vec<ApprovalOption>,
}

/// A snapshot of one task.
#[derive(Debug, Clone)]
pub struct TaskResponse {
    pub task_id: String,
    pub session_id: String,
    pub status: TaskStatus,
    pub output: String,
    pub error: Option<String>,
    pub approval_request: Option<ApprovalRequest>,
    pub created_at: String,
    pub updated_at: String,
}

/// The answer to an approval: the chosen option and an optional free text.
#[derive(Debug, Clone)]
pub struct ApprovalSubmission {
    pub option_id: String,
    pub custom_response: Option<String>,
}

/// A backend session.
#[derive(Debug, Clone)]
pub struct SessionInfo {
    pub session_id: String,
    pub task_count: i32,
    pub created_at: String,
    pub last_activity: String,
    pub status: String,
}

/// Request to share one's endpoint with another user.
#[derive(Debug, Clone)]
pub struct ShareRequest {
    pub target_user_id: String,
}

/// The users an endpoint is shared with.
#[derive(Debug, Clone)]
pub struct ShareListResponse {
    pub shared_with: Vec<String>,
}

/// An endpoint that a user may run tasks on.
#[derive(Debug, Clone)]
pub struct AccessibleWrapper {
    pub owner_id: String,
    pub owner_name: String,
    pub is_own: bool,
}

/// The endpoints that a user may run tasks on.
#[derive(Debug, Clone)]
pub struct AccessibleWrappersResponse {
    pub wrappers: Vec<AccessibleWrapper>,
}

} // verus!
