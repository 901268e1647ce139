//! The backend's HTTP contract: where each operation goes, and how a failed
//! exchange becomes one error value with a readable message.
//!
//! Sending and receiving happen outside this crate; here each call is turned
//! into a method and a URL, and each outcome into a result.

use vstd::prelude::*;
use crate::model::{
    ApprovalSubmission, EnableClusterRequest, ProjectRequest, RegisterLocalRequest, SetModeRequest,
    ShareRequest, TaskRequest,
};
use crate::text::decimal;

verus! {

/// The HTTP method of a call.
#[derive(Debug, Clone, Copy, PartialEq, Eq, Structural)]
pub enum HttpMethod {
    Get,
    Post,
    Delete,
}

/// The operations of the backend.
#[derive(Debug, Clone, Copy, PartialEq, Eq, Structural)]
pub enum Operation {
    Health,
    SubmitTask,
    GetTask,
    SubmitApproval,
    ListSessions,
    TerminateSession,
    ListProjects,
    AddProject,
    RemoveProject,
    GetUser,
    RegisterLocal,
    UnregisterLocal,
    EnableCluster,
    SetUserMode,
    ShareWith,
    UnshareWith,
    ListShared,
    ListAccessible,
}

/// One call to the backend with what it carries. Identities in a call are
/// those that the caller resolved; nothing here reads them from user text.
#[derive(Debug, Clone)]
pub enum BackendCall {
    Health,
    SubmitTask(TaskRequest),
    GetTask { task_id: String, user_id: String },
    SubmitApproval { task_id: String, user_id: String, submission: ApprovalSubmission },
    ListSessions,
    TerminateSession { session_id: String },
    ListProjects { user_id: String },
    AddProject(ProjectRequest),
    RemoveProject { user_id: String, name: String },
    GetUser { user_id: String },
    RegisterLocal(RegisterLocalRequest),
    UnregisterLocal { user_id: String },
    EnableCluster(EnableClusterRequest),
    SetUserMode { user_id: String, request: SetModeRequest },
    ShareWith { owner_id: String, request: ShareRequest },
    UnshareWith { owner_id: String, target_id: String },
    ListShared { owner_id: String },
    ListAccessible { user_id: String },
}

/// The operation a call performs.
pub open spec fn operation_of(c: BackendCall) -> Operation {
    match c {
        BackendCall::Health => Operation::Health,
        BackendCall::SubmitTask(_) => Operation::SubmitTask,
        BackendCall::GetTask { .. } => Operation::GetTask,
        BackendCall::SubmitApproval { .. } => Operation::SubmitApproval,
        BackendCall::ListSessions => Operation::ListSessions,
        BackendCall::TerminateSession { .. } => Operation::TerminateSession,
        BackendCall::ListProjects { .. } => Operation::ListProjects,
        BackendCall::AddProject(_) => Operation::AddProject,
        BackendCall::RemoveProject { .. } => Operation::RemoveProject,
        BackendCall::GetUser { .. } => Operation::GetUser,
        BackendCall::RegisterLocal(_) => Operation::RegisterLocal,
        BackendCall::UnregisterLocal { .. } => Operation::UnregisterLocal,
        BackendCall::EnableCluster(_) => Operation::EnableCluster,
        BackendCall::SetUserMode { .. } => Operation::SetUserMode,
        BackendCall::ShareWith { .. } => Operation::ShareWith,
        BackendCall::UnshareWith { .. } => Operation::UnshareWith,
        BackendCall::ListShared { .. } => Operation::ListShared,
        BackendCall::ListAccessible { .. } => Operation::ListAccessible,
    }
}

/// The HTTP method of an operation.
pub open spec fn method_of(op: Operation) -> HttpMethod {
    match op {
        Operation::SubmitTask | Operation::SubmitApproval | Operation::AddProject
        | Operation::RegisterLocal | Operation::EnableCluster | Operation::SetUserMode
        | Operation::ShareWith => HttpMethod::Post,
        Operation::TerminateSession | Operation::RemoveProject | Operation::UnregisterLocal
        | Operation::UnshareWith => HttpMethod::Delete,
        _ => HttpMethod::Get,
    }
}

/// The path of a call, below the base URL.
pub open spec fn call_path(c: BackendCall) -> Seq<char> {
    match c {
        BackendCall::Health => "/api/v1/health"@,
        BackendCall::SubmitTask(_) => "/api/v1/tasks"@,
        BackendCall::GetTask { task_id, user_id } =>
            "/api/v1/tasks/"@ + task_id@ + "?discord_user_id="@ + user_id@,
        BackendCall::SubmitApproval { task_id, user_id, .. } =>
            "/api/v1/tasks/"@ + task_id@ + "/approve?discord_user_id="@ + user_id@,
        BackendCall::ListSessions => "/api/v1/sessions"@,
        BackendCall::TerminateSession { session_id } => "/api/v1/sessions/"@ + session_id@,
        BackendCall::ListProjects { user_id } => "/api/v1/projects/"@ + user_id@,
        BackendCall::AddProject(_) => "/api/v1/projects"@,
        BackendCall::RemoveProject { user_id, name } => "/api/v1/projects/"@ + user_id@ + "/"@ + name@,
        BackendCall::GetUser { user_id } => "/api/v1/users/"@ + user_id@,
        BackendCall::RegisterLocal(_) => "/api/v1/users/register-local"@,
        BackendCall::UnregisterLocal { user_id } => "/api/v1/users/"@ + user_id@ + "/local"@,
        BackendCall::EnableCluster(_) => "/api/v1/users/enable-cluster"@,
        BackendCall::SetUserMode { user_id, .. } => "/api/v1/users/"@ + user_id@ + "/set-mode"@,
        BackendCall::ShareWith { owner_id, .. } => "/api/v1/users/"@ + owner_id@ + "/share"@,
        BackendCall::UnshareWith { owner_id, target_id } =>
            "/api/v1/users/"@ + owner_id@ + "/share/"@ + target_id@,
        BackendCall::ListShared { owner_id } => "/api/v1/users/"@ + owner_id@ + "/share"@,
        BackendCall::ListAccessible { user_id } =>
            "/api/v1/users/"@ + user_id@ + "/accessible-wrappers"@,
    }
}

/// What a connection failure of the operation reports.
pub open spec fn transport_context(op: Operation) -> Seq<char> {
    match op {
        Operation::Health => "Failed to connect to wrapper service"@,
        Operation::SubmitTask => "Failed to submit task"@,
        Operation::GetTask => "Failed to get task"@,
        Operation::SubmitApproval => "Failed to submit approval"@,
        Operation::ListSessions => "Failed to list sessions"@,
        Operation::TerminateSession => "Failed to terminate session"@,
        Operation::ListProjects => "Failed to list projects"@,
        Operation::AddProject => "Failed to add project"@,
        Operation::RemoveProject => "Failed to remove project"@,
        Operation::GetUser => "Failed to get user"@,
        Operation::RegisterLocal => "Failed to register local wrapper"@,
        Operation::UnregisterLocal => "Failed to unregister local wrapper"@,
        Operation::EnableCluster => "Failed to enable cluster access"@,
        Operation::SetUserMode => "Failed to set user mode"@,
        Operation::ShareWith => "Failed to share wrapper"@,
        Operation::UnshareWith => "Failed to unshare wrapper"@,
        Operation::ListShared => "Failed to list shared users"@,
        Operation::ListAccessible => "Failed to list accessible wrappers"@,
    }
}

/// What a refusal of the operation by the backend is called.
pub open spec fn rejection_context(op: Operation) -> Seq<char> {
    match op {
        Operation::Health => "Health check failed"@,
        Operation::SubmitTask => "Task submission failed"@,
        Operation::SubmitApproval => "Approval submission failed"@,
        Operation::TerminateSession => "Session termination failed"@,
        _ => transport_context(op),
    }
}

/// What an unreadable answer to the operation reports.
pub open spec fn decode_context(op: Operation) -> Seq<char> {
    match op {
        Operation::Health => "Failed to parse health response"@,
        Operation::SubmitTask | Operation::GetTask => "Failed to parse task response"@,
        Operation::SubmitApproval => "Failed to parse approval response"@,
        Operation::ListSessions => "Failed to parse sessions response"@,
        Operation::ListProjects => "Failed to parse projects response"@,
        Operation::AddProject => "Failed to parse project response"@,
        Operation::GetUser | Operation::RegisterLocal | Operation::EnableCluster
        | Operation::SetUserMode => "Failed to parse user response"@,
        Operation::ShareWith => "Failed to parse share response"@,
        Operation::UnshareWith => "Failed to parse unshare response"@,
        Operation::ListShared => "Failed to parse share list response"@,
        Operation::ListAccessible => "Failed to parse accessible wrappers response"@,
        _ => "Failed to parse response"@,
    }
}

/// What kind of failure an error reports.
#[derive(Debug, Clone, Copy, PartialEq, Eq, Structural)]
pub enum ErrorKind {
    /// The backend could not be reached.
    Transport,
    /// The backend answered with a status other than success.
    Rejected,
    /// The backend's answer could not be read.
    Decode,
}

/// A failed exchange with the backend, with the message shown to the user.
#[derive(Debug, Clone)]
pub struct BackendError {
    pub kind: ErrorKind,
    pub message: String,
}

/// An HTTP status that counts as success (2xx).
pub open spec fn is_success(code: u16) -> bool {
    200 <= code <= 299
}

/// Canonical reason phrase of an HTTP status code.
pub uninterp spec fn reason_phrase(code: u16) -> Seq<char>;

/// How the HTTP library writes a status: the code in decimal, a space, and
/// the reason phrase.
pub open spec fn status_text(code: u16) -> Seq<char> {
    decimal(code as nat) + " "@ + reason_phrase(code)
}

/// The message of a refusal: what failed, the status, and the body as sent.
pub open spec fn rejection_message(op: Operation, code: u16, body: Seq<char>) -> Seq<char> {
    rejection_context(op) + " ("@ + status_text(code) + "): "@ + body
}

/// Relies on `reqwest::StatusCode` (http 0.2): `from_u16` accepts 100..=999,
/// and `Display` writes the code, a space and `canonical_reason()` (or a
/// fixed text for codes without one).
#[verifier::external_body]
fn status_display(code: u16) -> (r: String)
    requires
        100 <= code <= 999,
    ensures
        r@ == decimal(code as nat) + " "@ + reason_phrase(code),
{
    reqwest::StatusCode::from_u16(code).unwrap().to_string()
}

impl Operation {
    fn transport_context(&self) -> (r: &'static str)
        ensures
            r@ == transport_context(*self),
    {
        match self {
            Operation::Health => "Failed to connect to wrapper service",
            Operation::SubmitTask => "Failed to submit task",
            Operation::GetTask => "Failed to get task",
            Operation::SubmitApproval => "Failed to submit approval",
            Operation::ListSessions => "Failed to list sessions",
            Operation::TerminateSession => "Failed to terminate session",
            Operation::ListProjects => "Failed to list projects",
            Operation::AddProject => "Failed to add project",
            Operation::RemoveProject => "Failed to remove project",
            Operation::GetUser => "Failed to get user",
            Operation::RegisterLocal => "Failed to register local wrapper",
            Operation::UnregisterLocal => "Failed to unregister local wrapper",
            Operation::EnableCluster => "Failed to enable cluster access",
            Operation::SetUserMode => "Failed to set user mode",
            Operation::ShareWith => "Failed to share wrapper",
            Operation::UnshareWith => "Failed to unshare wrapper",
            Operation::ListShared => "Failed to list shared users",
            Operation::ListAccessible => "Failed to list accessible wrappers",
        }
    }

    fn rejection_context(&self) -> (r: &'static str)
        ensures
            r@ == rejection_context(*self),
    {
        match self {
            Operation::Health => "Health check failed",
            Operation::SubmitTask => "Task submission failed",
            Operation::SubmitApproval => "Approval submission failed",
            Operation::TerminateSession => "Session termination failed",
            _ => self.transport_context(),
        }
    }

    fn decode_context(&self) -> (r: &'static str)
        ensures
            r@ == decode_context(*self),
    {
        match self {
            Operation::Health => "Failed to parse health response",
            Operation::SubmitTask | Operation::GetTask => "Failed to parse task response",
            Operation::SubmitApproval => "Failed to parse approval response",
            Operation::ListSessions => "Failed to parse sessions response",
            Operation::ListProjects => "Failed to parse projects response",
            Operation::AddProject => "Failed to parse project response",
            Operation::GetUser | Operation::RegisterLocal | Operation::EnableCluster
            | Operation::SetUserMode => "Failed to parse user response",
            Operation::ShareWith => "Failed to parse share response",
            Operation::UnshareWith => "Failed to parse unshare response",
            Operation::ListShared => "Failed to parse share list response",
            Operation::ListAccessible => "Failed to parse accessible wrappers response",
            _ => "Failed to parse response",
        }
    }

    /// The HTTP method of the operation.
    pub fn method(&self) -> (r: HttpMethod)
        ensures
            r == method_of(*self),
    {
        match self {
            Operation::SubmitTask | Operation::SubmitApproval | Operation::AddProject
            | Operation::RegisterLocal | Operation::EnableCluster | Operation::SetUserMode
            | Operation::ShareWith => HttpMethod::Post,
            Operation::TerminateSession | Operation::RemoveProject | Operation::UnregisterLocal
            | Operation::UnshareWith => HttpMethod::Delete,
            _ => HttpMethod::Get,
        }
    }

    /// The error for a connection failure of this operation.
    pub fn transport_error(&self) -> (r: BackendError)
        ensures
            r.kind == ErrorKind::Transport,
            r.message@ == transport_context(*self),
    {
        BackendError { kind: ErrorKind::Transport, message: String::from_str(self.transport_context()) }
    }

    /// The error for an answer to this operation that could not be read.
    pub fn decode_error(&self) -> (r: BackendError)
        ensures
            r.kind == ErrorKind::Decode,
            r.message@ == decode_context(*self),
    {
        BackendError { kind: ErrorKind::Decode, message: String::from_str(self.decode_context()) }
    }

    /// The error for a refusal of this operation: the body is kept verbatim.
    pub fn rejection(&self, code: u16, body: &str) -> (r: BackendError)
        requires
            100 <= code <= 999,
        ensures
            r.kind == ErrorKind::Rejected,
            r.message@ == rejection_message(*self, code, body@),
    {
        let mut m = String::from_str(self.rejection_context());
        m.append(" (");
        let st = status_display(code);
        m.append(st.as_str());
        m.append("): ");
        m.append(body);
        BackendError { kind: ErrorKind::Rejected, message: m }
    }

    /// Checks the status of an answer to this operation: success passes,
    /// any other status becomes a refusal that carries the body.
    pub fn check_status(&self, code: u16, body: &str) -> (r: Result<(), BackendError>)
        requires
            100 <= code <= 999,
        ensures
            is_success(code) <==> r is Ok,
            r matches Err(e) ==> e.kind == ErrorKind::Rejected && e.message@ == rejection_message(*self, code, body@),
    {
        if 200 <= code && code <= 299 {
            Ok(())
        } else {
            Err(self.rejection(code, body))
        }
    }
}

impl BackendCall {
    /// The operation this call performs.
    pub fn operation(&self) -> (r: Operation)
        ensures
            r == operation_of(*self),
    {
        match self {
            BackendCall::Health => Operation::Health,
            BackendCall::SubmitTask(_) => Operation::SubmitTask,
            BackendCall::GetTask { .. } => Operation::GetTask,
            BackendCall::SubmitApproval { .. } => Operation::SubmitApproval,
            BackendCall::ListSessions => Operation::ListSessions,
            BackendCall::TerminateSession { .. } => Operation::TerminateSession,
            BackendCall::ListProjects { .. } => Operation::ListProjects,
            BackendCall::AddProject(_) => Operation::AddProject,
            BackendCall::RemoveProject { .. } => Operation::RemoveProject,
            BackendCall::GetUser { .. } => Operation::GetUser,
            BackendCall::RegisterLocal(_) => Operation::RegisterLocal,
            BackendCall::UnregisterLocal { .. } => Operation::UnregisterLocal,
            BackendCall::EnableCluster(_) => Operation::EnableCluster,
            BackendCall::SetUserMode { .. } => Operation::SetUserMode,
            BackendCall::ShareWith { .. } => Operation::ShareWith,
            BackendCall::UnshareWith { .. } => Operation::UnshareWith,
            BackendCall::ListShared { .. } => Operation::ListShared,
            BackendCall::ListAccessible { .. } => Operation::ListAccessible,
        }
    }

    /// The path of this call, below the base URL.
    pub fn path(&self) -> (r: String)
        ensures
            r@ == call_path(*self),
    {
        match self {
            BackendCall::Health => String::from_str("/api/v1/health"),
            BackendCall::SubmitTask(_) => String::from_str("/api/v1/tasks"),
            BackendCall::GetTask { task_id, user_id } => {
                let mut p = String::from_str("/api/v1/tasks/");
                p.append(task_id.as_str());
                p.append("?discord_user_id=");
                p.append(user_id.as_str());
                p
            },
            BackendCall::SubmitApproval { task_id, user_id, .. } => {
                let mut p = String::from_str("/api/v1/tasks/");
                p.append(task_id.as_str());
                p.append("/approve?discord_user_id=");
                p.append(user_id.as_str());
                p
            },
            BackendCall::ListSessions => String::from_str("/api/v1/sessions"),
            BackendCall::TerminateSession { session_id } => {
                let mut p = String::from_str("/api/v1/sessions/");
                p.append(session_id.as_str());
                p
            },
            BackendCall::ListProjects { user_id } => {
                let mut p = String::from_str("/api/v1/projects/");
                p.append(user_id.as_str());
                p
            },
            BackendCall::AddProject(_) => String::from_str("/api/v1/projects"),
            BackendCall::RemoveProject { user_id, name } => {
                let mut p = String::from_str("/api/v1/projects/");
                p.append(user_id.as_str());
                p.append("/");
                p.append(name.as_str());
                p
            },
            BackendCall::GetUser { user_id } => {
                let mut p = String::from_str("/api/v1/users/");
                p.append(user_id.as_str());
                p
            },
            BackendCall::RegisterLocal(_) => String::from_str("/api/v1/users/register-local"),
            BackendCall::UnregisterLocal { user_id } => {
                let mut p = String::from_str("/api/v1/users/");
                p.append(user_id.as_str());
                p.append("/local");
                p
            },
            BackendCall::EnableCluster(_) => String::from_str("/api/v1/users/enable-cluster"),
            BackendCall::SetUserMode { user_id, .. } => {
                let mut p = String::from_str("/api/v1/users/");
                p.append(user_id.as_str());
                p.append("/set-mode");
                p
            },
            BackendCall::ShareWith { owner_id, .. } => {
                let mut p = String::from_str("/api/v1/users/");
                p.append(owner_id.as_str());
                p.append("/share");
                p
            },
            BackendCall::UnshareWith { owner_id, target_id } => {
                let mut p = String::from_str("/api/v1/users/");
                p.append(owner_id.as_str());
                p.append("/share/");
                p.append(target_id.as_str());
                p
            },
            BackendCall::ListShared { owner_id } => {
                let mut p = String::from_str("/api/v1/users/");
                p.append(owner_id.as_str());
                p.append("/share");
                p
            },
            BackendCall::ListAccessible { user_id } => {
                let mut p = String::from_str("/api/v1/users/");
                p.append(user_id.as_str());
                p.append("/accessible-wrappers");
                p
            },
        }
    }
}

/// `s` without its trailing slashes.
pub open spec fn trim_slashes(s: Seq<char>) -> Seq<char>
    decreases s.len(),
{
    if s.len() > 0 && s.last() == '/' {
        trim_slashes(s.drop_last())
    } else {
        s
    }
}

/// Where the backend lives; every call goes below this base URL.
#[derive(Debug, Clone)]
pub struct WrapperClient {
    base_url: String,
}

impl WrapperClient {
    /// The base URL, without trailing slashes.
    pub closed spec fn base(&self) -> Seq<char> {
        self.base_url@
    }

    /// A client for the backend at `base_url`; trailing slashes are dropped.
    pub fn new(base_url: &str) -> (r: WrapperClient)
        ensures
            r.base() == trim_slashes(base_url@),
    {
        let mut end = base_url.unicode_len();
        assert(base_url@.take(end as int) =~= base_url@);
        while end > 0 && base_url.get_char(end - 1) == '/'
            invariant
                end <= base_url@.len(),
                trim_slashes(base_url@.take(end as int)) == trim_slashes(base_url@),
            decreases end,
        {
            assert(base_url@.take(end as int).drop_last() =~= base_url@.take(end - 1));
            end = end - 1;
        }
        let kept = base_url.substring_char(0, end);
        assert(kept@ =~= base_url@.take(end as int));
        WrapperClient { base_url: String::from_str(kept) }
    }

    /// The base URL.
    pub fn base_url(&self) -> (r: &str)
        ensures
            r@ == self.base(),
    {
        self.base_url.as_str()
    }

    /// The full URL of a call.
    pub fn url(&self, call: &BackendCall) -> (r: String)
        ensures
            r@ == self.base() + call_path(*call),
    {
        let mut u = self.base_url.clone();
        let p = call.path();
        u.append(p.as_str());
        u
    }
}

/// Whether an HTTP status counts as success (2xx).
pub fn status_is_success(code: u16) -> (r: bool)
    ensures
        r == is_success(code),
{
    200 <= code && code <= 299
}

/// A refusal's message ends with the body exactly as the backend sent it.
pub proof fn lemma_rejection_keeps_body(op: Operation, code: u16, body: Seq<char>)
    ensures
        body.is_suffix_of(rejection_message(op, code, body)),
{
    let m = rejection_message(op, code, body);
    assert(m.subrange(m.len() - body.len(), m.len() as int) =~= body);
}

} // verus!
