//! The command dispatcher: from one invocation to what happens next.
//!
//! `plan` decides, without any network call, whether an invocation is
//! answered at once (unknown sub-command, missing field, self-share) or
//! needs the backend, and then which call and which acknowledgement. The
//! `finish_*` functions of the handlers turn the backend's outcome into the
//! final reply.

use vstd::prelude::*;
use crate::client::BackendCall;
use crate::invocation::{
    CommandOption, Invocation, find_text, find_user, text_option, text_or_default, text_or_empty,
    user_option,
};
use crate::model::{
    ApprovalSubmission, ExecutionMode, ProjectRequest, RegisterLocalRequest, SetModeRequest,
    ShareRequest, TaskRequest, mode_of_choice,
};
use crate::text::same_text;

verus! {

/// A message to send.
#[derive(Debug, Clone)]
pub struct Reply {
    pub content: String,
    /// Shown to the invoking user only.
    pub ephemeral: bool,
}

/// What to do with the backend's answer once it arrives, with what the
/// answer alone does not tell.
#[derive(Debug, Clone)]
pub enum Pending {
    Task,
    Status,
    Approve,
    ProjectList,
    ProjectAdd,
    ProjectRemove { name: String },
    RegisterLocal,
    Unregister,
    SetMode,
    RegisterStatus,
    ShareAdd { target_id: String, target_name: String, owner_name: String },
    ShareRemove { target_id: String, target_name: String },
    ShareList,
    ShareAvailable,
}

/// The next step for an invocation.
#[derive(Debug, Clone)]
pub enum Plan {
    /// Not a command of this front end: nothing is sent.
    Ignore,
    /// Answer at once; the backend is not contacted.
    Reply(Reply),
    /// Send `ack` first where present (and stop if that fails), then make
    /// `call`, then finish as `then` says.
    Call { ack: Option<String>, call: BackendCall, then: Pending },
}

/// The views of an optional string.
pub open spec fn opt_view(o: Option<String>) -> Option<Seq<char>> {
    match o {
        Some(s) => Some(s@),
        None => None,
    }
}

/// The sub-command of an invocation, or `default` when none was given.
pub open spec fn sub_or(inv: Invocation, default: Seq<char>) -> Seq<char> {
    match inv.sub_command {
        Some(s) => s@,
        None => default,
    }
}

/// The mode chosen by the `mode` option, if any.
pub open spec fn chosen_mode(opts: Seq<CommandOption>) -> Option<ExecutionMode> {
    match text_option(opts, "mode"@) {
        Some(s) => Some(mode_of_choice(s)),
        None => None,
    }
}

/// The identity of the user chosen by the option called `name`, if any.
pub open spec fn chosen_user(opts: Seq<CommandOption>, name: Seq<char>) -> Option<Seq<char>> {
    match user_option(opts, name) {
        Some(u) => Some(u.0),
        None => None,
    }
}

/// The acknowledgement of a task submission.
pub open spec fn task_ack(inv: Invocation) -> Seq<char> {
    "Processing your task"@
        + (match text_option(inv.options@, "project"@) {
            Some(p) => " on `"@ + p + "`"@,
            None => Seq::empty(),
        })
        + (match chosen_user(inv.options@, "target"@) {
            Some(t) => " via <@"@ + t + ">"@,
            None => Seq::empty(),
        })
        + (match chosen_mode(inv.options@) {
            Some(ExecutionMode::Local) => " (local)"@,
            Some(ExecutionMode::Cluster) => " (cluster)"@,
            None => Seq::empty(),
        })
        + "..."@
}

/// The acknowledgement of an approval.
pub open spec fn approve_ack() -> Seq<char> {
    "⏳ Processing approval..."@
}

/// The answer to a request to share one's endpoint with oneself.
pub open spec fn self_share_denial() -> Seq<char> {
    "You already have access to your own wrapper!"@
}

/// `r` is the immediate reply `content`, shown to the invoking user only.
pub open spec fn private_reply(r: Plan, content: Seq<char>) -> bool {
    r matches Plan::Reply(rep) && rep.content@ == content && rep.ephemeral
}

/// The plan for `/task`: acknowledge, then submit as the invoking user.
pub open spec fn task_plan(inv: Invocation, r: Plan) -> bool {
    &&& r matches Plan::Call { ack: Some(a), call: BackendCall::SubmitTask(req), then: Pending::Task }
    &&& a@ == task_ack(inv)
    &&& req.prompt@ == text_or_empty(inv.options@, "prompt"@)
    &&& opt_view(req.project) == text_option(inv.options@, "project"@)
    &&& opt_view(req.session_id) == text_option(inv.options@, "session"@)
    &&& req.working_dir is None
    &&& opt_view(req.discord_user_id) == Some(inv.user_id@)
    &&& opt_view(req.target_user_id) == chosen_user(inv.options@, "target"@)
    &&& req.mode == chosen_mode(inv.options@)
}

/// The plan for `/status`: fetch the task as the invoking user.
pub open spec fn status_plan(inv: Invocation, r: Plan) -> bool {
    &&& r matches Plan::Call { ack: None, call: BackendCall::GetTask { task_id, user_id }, then: Pending::Status }
    &&& task_id@ == text_or_empty(inv.options@, "task_id"@)
    &&& user_id@ == inv.user_id@
}

/// The plan for `/approve`: acknowledge, then submit the chosen option.
pub open spec fn approve_plan(inv: Invocation, r: Plan) -> bool {
    &&& r matches Plan::Call {
        ack: Some(a),
        call: BackendCall::SubmitApproval { task_id, user_id, submission },
        then: Pending::Approve,
    }
    &&& a@ == approve_ack()
    &&& task_id@ == text_or_empty(inv.options@, "task_id"@)
    &&& user_id@ == inv.user_id@
    &&& submission.option_id@ == text_or_empty(inv.options@, "option"@)
    &&& opt_view(submission.custom_response) == text_option(inv.options@, "response"@)
}

/// The plan for `/project`, by sub-command (`list` when none is given).
pub open spec fn project_plan(inv: Invocation, r: Plan) -> bool {
    let sub = sub_or(inv, "list"@);
    let opts = inv.sub_options@;
    if sub == "list"@ {
        r matches Plan::Call { ack: None, call: BackendCall::ListProjects { user_id }, then: Pending::ProjectList }
            && user_id@ == inv.user_id@
    } else if sub == "add"@ {
        if text_or_empty(opts, "name"@).len() == 0 || text_or_empty(opts, "path"@).len() == 0 {
            private_reply(r, "❌ Both `name` and `path` are required."@)
        } else {
            &&& r matches Plan::Call { ack: None, call: BackendCall::AddProject(req), then: Pending::ProjectAdd }
            &&& req.name@ == text_or_empty(opts, "name"@)
            &&& req.path@ == text_or_empty(opts, "path"@)
            &&& opt_view(req.description) == text_option(opts, "description"@)
            &&& req.discord_user_id@ == inv.user_id@
        }
    } else if sub == "remove"@ {
        if text_or_empty(opts, "name"@).len() == 0 {
            private_reply(r, "❌ Project `name` is required."@)
        } else {
            &&& r matches Plan::Call {
                ack: None,
                call: BackendCall::RemoveProject { user_id, name },
                then: Pending::ProjectRemove { name: kept },
            }
            &&& user_id@ == inv.user_id@
            &&& name@ == text_or_empty(opts, "name"@)
            &&& kept@ == name@
        }
    } else {
        private_reply(r, "Unknown subcommand. Use `/project list`, `/project add`, or `/project remove`."@)
    }
}

/// The plan for `/register`, by sub-command (`status` when none is given).
pub open spec fn register_plan(inv: Invocation, r: Plan) -> bool {
    let sub = sub_or(inv, "status"@);
    let opts = inv.sub_options@;
    if sub == "local"@ {
        if text_or_empty(opts, "url"@).len() == 0 {
            private_reply(r, "❌ URL is required."@)
        } else {
            &&& r matches Plan::Call { ack: None, call: BackendCall::RegisterLocal(req), then: Pending::RegisterLocal }
            &&& req.discord_id@ == inv.user_id@
            &&& req.discord_name@ == inv.user_name@
            &&& req.wrapper_url@ == text_or_empty(opts, "url"@)
            &&& req.auth_token is None
        }
    } else if sub == "unregister"@ {
        r matches Plan::Call { ack: None, call: BackendCall::UnregisterLocal { user_id }, then: Pending::Unregister }
            && user_id@ == inv.user_id@
    } else if sub == "mode"@ {
        &&& r matches Plan::Call {
            ack: None,
            call: BackendCall::SetUserMode { user_id, request },
            then: Pending::SetMode,
        }
        &&& user_id@ == inv.user_id@
        &&& request.mode == (match text_option(opts, "default"@) {
            Some(s) => mode_of_choice(s),
            None => ExecutionMode::Local,
        })
    } else if sub == "status"@ {
        r matches Plan::Call { ack: None, call: BackendCall::GetUser { user_id }, then: Pending::RegisterStatus }
            && user_id@ == inv.user_id@
    } else {
        private_reply(r, "Unknown subcommand."@)
    }
}

/// The plan for `/share`, by sub-command (`list` when none is given). The
/// invoking user is always the owner; sharing with oneself is refused here.
pub open spec fn share_plan(inv: Invocation, r: Plan) -> bool {
    let sub = sub_or(inv, "list"@);
    let opts = inv.sub_options@;
    if sub == "add"@ {
        match user_option(opts, "user"@) {
            None => private_reply(r, "Please specify a user to share with."@),
            Some((target, name)) => if target == inv.user_id@ {
                private_reply(r, self_share_denial())
            } else {
                &&& r matches Plan::Call {
                    ack: None,
                    call: BackendCall::ShareWith { owner_id, request },
                    then: Pending::ShareAdd { target_id, target_name, owner_name },
                }
                &&& owner_id@ == inv.user_id@
                &&& request.target_user_id@ == target
                &&& target_id@ == target
                &&& target_name@ == (match name { Some(n) => n, None => target })
                &&& owner_name@ == inv.user_name@
            },
        }
    } else if sub == "remove"@ {
        match user_option(opts, "user"@) {
            None => private_reply(r, "Please specify a user to remove."@),
            Some((target, name)) => {
                &&& r matches Plan::Call {
                    ack: None,
                    call: BackendCall::UnshareWith { owner_id, target_id },
                    then: Pending::ShareRemove { target_id: kept_id, target_name },
                }
                &&& owner_id@ == inv.user_id@
                &&& target_id@ == target
                &&& kept_id@ == target
                &&& target_name@ == (match name { Some(n) => n, None => target })
            },
        }
    } else if sub == "list"@ {
        r matches Plan::Call { ack: None, call: BackendCall::ListShared { owner_id }, then: Pending::ShareList }
            && owner_id@ == inv.user_id@
    } else if sub == "available"@ {
        r matches Plan::Call { ack: None, call: BackendCall::ListAccessible { user_id }, then: Pending::ShareAvailable }
            && user_id@ == inv.user_id@
    } else {
        private_reply(r, "Unknown subcommand. Use `/share add`, `/share remove`, `/share list`, or `/share available`."@)
    }
}

/// The plan for an invocation, by command name.
pub open spec fn plan_spec(inv: Invocation, r: Plan) -> bool {
    let cmd = inv.command@;
    if cmd == "task"@ {
        task_plan(inv, r)
    } else if cmd == "status"@ {
        status_plan(inv, r)
    } else if cmd == "approve"@ {
        approve_plan(inv, r)
    } else if cmd == "project"@ {
        project_plan(inv, r)
    } else if cmd == "register"@ {
        register_plan(inv, r)
    } else if cmd == "share"@ {
        share_plan(inv, r)
    } else {
        r is Ignore
    }
}

fn private(content: &str) -> (r: Plan)
    ensures
        private_reply(r, content@),
{
    Plan::Reply(Reply { content: String::from_str(content), ephemeral: true })
}

fn sub_command_or(inv: &Invocation, default: &str) -> (r: String)
    ensures
        r@ == sub_or(*inv, default@),
{
    match &inv.sub_command {
        Some(s) => s.clone(),
        None => String::from_str(default),
    }
}

fn plan_task(inv: &Invocation) -> (r: Plan)
    ensures
        task_plan(*inv, r),
{
    let prompt = text_or_default(&inv.options, "prompt");
    let project = find_text(&inv.options, "project");
    let target = match find_user(&inv.options, "target") {
        Some((id, _)) => Some(id),
        None => None,
    };
    let mode = match find_text(&inv.options, "mode") {
        Some(s) => Some(ExecutionMode::from_choice(s.as_str())),
        None => None,
    };
    let session_id = find_text(&inv.options, "session");
    let mut ack = String::from_str("Processing your task");
    let ghost a0 = ack@;
    match &project {
        Some(p) => {
            ack.append(" on `");
            ack.append(p.as_str());
            ack.append("`");
        },
        None => {},
    }
    let ghost a1 = ack@;
    match &target {
        Some(t) => {
            ack.append(" via <@");
            ack.append(t.as_str());
            ack.append(">");
        },
        None => {},
    }
    let ghost a2 = ack@;
    match &mode {
        Some(ExecutionMode::Local) => ack.append(" (local)"),
        Some(ExecutionMode::Cluster) => ack.append(" (cluster)"),
        None => {},
    }
    let ghost a3 = ack@;
    ack.append("...");
    proof {
        let ps = match text_option(inv.options@, "project"@) {
            Some(p) => " on `"@ + p + "`"@,
            None => Seq::empty(),
        };
        let ts = match chosen_user(inv.options@, "target"@) {
            Some(t) => " via <@"@ + t + ">"@,
            None => Seq::empty(),
        };
        let ms = match chosen_mode(inv.options@) {
            Some(ExecutionMode::Local) => " (local)"@,
            Some(ExecutionMode::Cluster) => " (cluster)"@,
            None => Seq::<char>::empty(),
        };
        assert(a1 =~= a0 + ps);
        assert(a2 =~= a1 + ts);
        assert(a3 =~= a2 + ms);
        assert(ack@ =~= task_ack(*inv));
    }
    let request = TaskRequest {
        prompt,
        session_id,
        project,
        working_dir: None,
        discord_user_id: Some(inv.user_id.clone()),
        target_user_id: target,
        mode,
    };
    Plan::Call { ack: Some(ack), call: BackendCall::SubmitTask(request), then: Pending::Task }
}

fn plan_approve(inv: &Invocation) -> (r: Plan)
    ensures
        approve_plan(*inv, r),
{
    let task_id = text_or_default(&inv.options, "task_id");
    let option_id = text_or_default(&inv.options, "option");
    let custom_response = find_text(&inv.options, "response");
    Plan::Call {
        ack: Some(String::from_str("⏳ Processing approval...")),
        call: BackendCall::SubmitApproval {
            task_id,
            user_id: inv.user_id.clone(),
            submission: ApprovalSubmission { option_id, custom_response },
        },
        then: Pending::Approve,
    }
}

fn plan_project(inv: &Invocation) -> (r: Plan)
    ensures
        project_plan(*inv, r),
{
    let sub = sub_command_or(inv, "list");
    let opts = &inv.sub_options;
    if same_text(sub.as_str(), "list") {
        Plan::Call {
            ack: None,
            call: BackendCall::ListProjects { user_id: inv.user_id.clone() },
            then: Pending::ProjectList,
        }
    } else if same_text(sub.as_str(), "add") {
        let name = text_or_default(opts, "name");
        let path = text_or_default(opts, "path");
        if name.as_str().unicode_len() == 0 || path.as_str().unicode_len() == 0 {
            return private("❌ Both `name` and `path` are required.");
        }
        let description = find_text(opts, "description");
        Plan::Call {
            ack: None,
            call: BackendCall::AddProject(
                ProjectRequest { name, path, description, discord_user_id: inv.user_id.clone() },
            ),
            then: Pending::ProjectAdd,
        }
    } else if same_text(sub.as_str(), "remove") {
        let name = text_or_default(opts, "name");
        if name.as_str().unicode_len() == 0 {
            return private("❌ Project `name` is required.");
        }
        let kept = name.clone();
        Plan::Call {
            ack: None,
            call: BackendCall::RemoveProject { user_id: inv.user_id.clone(), name },
            then: Pending::ProjectRemove { name: kept },
        }
    } else {
        private("Unknown subcommand. Use `/project list`, `/project add`, or `/project remove`.")
    }
}

fn plan_register(inv: &Invocation) -> (r: Plan)
    ensures
        register_plan(*inv, r),
{
    let sub = sub_command_or(inv, "status");
    let opts = &inv.sub_options;
    if same_text(sub.as_str(), "local") {
        let url = text_or_default(opts, "url");
        if url.as_str().unicode_len() == 0 {
            return private("❌ URL is required.");
        }
        Plan::Call {
            ack: None,
            call: BackendCall::RegisterLocal(RegisterLocalRequest {
                discord_id: inv.user_id.clone(),
                discord_name: inv.user_name.clone(),
                wrapper_url: url,
                auth_token: None,
            }),
            then: Pending::RegisterLocal,
        }
    } else if same_text(sub.as_str(), "unregister") {
        Plan::Call {
            ack: None,
            call: BackendCall::UnregisterLocal { user_id: inv.user_id.clone() },
            then: Pending::Unregister,
        }
    } else if same_text(sub.as_str(), "mode") {
        let mode = match find_text(opts, "default") {
            Some(s) => ExecutionMode::from_choice(s.as_str()),
            None => ExecutionMode::Local,
        };
        Plan::Call {
            ack: None,
            call: BackendCall::SetUserMode { user_id: inv.user_id.clone(), request: SetModeRequest { mode } },
            then: Pending::SetMode,
        }
    } else if same_text(sub.as_str(), "status") {
        Plan::Call {
            ack: None,
            call: BackendCall::GetUser { user_id: inv.user_id.clone() },
            then: Pending::RegisterStatus,
        }
    } else {
        private("Unknown subcommand.")
    }
}

fn plan_share(inv: &Invocation) -> (r: Plan)
    ensures
        share_plan(*inv, r),
{
    let sub = sub_command_or(inv, "list");
    let opts = &inv.sub_options;
    if same_text(sub.as_str(), "add") {
        match find_user(opts, "user") {
            None => private("Please specify a user to share with."),
            Some((target, name)) => {
                if same_text(target.as_str(), inv.user_id.as_str()) {
                    return private("You already have access to your own wrapper!");
                }
                let target_name = match name {
                    Some(n) => n,
                    None => target.clone(),
                };
                Plan::Call {
                    ack: None,
                    call: BackendCall::ShareWith {
                        owner_id: inv.user_id.clone(),
                        request: ShareRequest { target_user_id: target.clone() },
                    },
                    then: Pending::ShareAdd { target_id: target, target_name, owner_name: inv.user_name.clone() },
                }
            },
        }
    } else if same_text(sub.as_str(), "remove") {
        match find_user(opts, "user") {
            None => private("Please specify a user to remove."),
            Some((target, name)) => {
                let target_name = match name {
                    Some(n) => n,
                    None => target.clone(),
                };
                Plan::Call {
                    ack: None,
                    call: BackendCall::UnshareWith { owner_id: inv.user_id.clone(), target_id: target.clone() },
                    then: Pending::ShareRemove { target_id: target, target_name },
                }
            },
        }
    } else if same_text(sub.as_str(), "list") {
        Plan::Call {
            ack: None,
            call: BackendCall::ListShared { owner_id: inv.user_id.clone() },
            then: Pending::ShareList,
        }
    } else if same_text(sub.as_str(), "available") {
        Plan::Call {
            ack: None,
            call: BackendCall::ListAccessible { user_id: inv.user_id.clone() },
            then: Pending::ShareAvailable,
        }
    } else {
        private("Unknown subcommand. Use `/share add`, `/share remove`, `/share list`, or `/share available`.")
    }
}

/// Decides what an invocation leads to.
pub fn plan(inv: &Invocation) -> (r: Plan)
    ensures
        plan_spec(*inv, r),
{
    let cmd = inv.command.as_str();
    if same_text(cmd, "task") {
        plan_task(inv)
    } else if same_text(cmd, "status") {
        Plan::Call {
            ack: None,
            call: BackendCall::GetTask {
                task_id: text_or_default(&inv.options, "task_id"),
                user_id: inv.user_id.clone(),
            },
            then: Pending::Status,
        }
    } else if same_text(cmd, "approve") {
        plan_approve(inv)
    } else if same_text(cmd, "project") {
        plan_project(inv)
    } else if same_text(cmd, "register") {
        plan_register(inv)
    } else if same_text(cmd, "share") {
        plan_share(inv)
    } else {
        Plan::Ignore
    }
}

/// The identity on whose behalf a call acts: the task's submitter, the
/// owner of a share, the user whose data is read or changed.
pub open spec fn acting_identity(c: BackendCall) -> Option<Seq<char>> {
    match c {
        BackendCall::SubmitTask(req) => opt_view(req.discord_user_id),
        BackendCall::GetTask { user_id, .. } => Some(user_id@),
        BackendCall::SubmitApproval { user_id, .. } => Some(user_id@),
        BackendCall::ListProjects { user_id } => Some(user_id@),
        BackendCall::AddProject(req) => Some(req.discord_user_id@),
        BackendCall::RemoveProject { user_id, .. } => Some(user_id@),
        BackendCall::GetUser { user_id } => Some(user_id@),
        BackendCall::RegisterLocal(req) => Some(req.discord_id@),
        BackendCall::UnregisterLocal { user_id } => Some(user_id@),
        BackendCall::EnableCluster(req) => Some(req.discord_id@),
        BackendCall::SetUserMode { user_id, .. } => Some(user_id@),
        BackendCall::ShareWith { owner_id, .. } => Some(owner_id@),
        BackendCall::UnshareWith { owner_id, .. } => Some(owner_id@),
        BackendCall::ListShared { owner_id } => Some(owner_id@),
        BackendCall::ListAccessible { user_id } => Some(user_id@),
        _ => None,
    }
}

/// A request to share one's own endpoint with oneself never reaches the
/// backend: it is answered at once, privately, with the fixed denial.
pub proof fn lemma_self_share_denied(inv: Invocation, r: Plan)
    requires
        plan_spec(inv, r),
        inv.command@ == "share"@,
        sub_or(inv, "list"@) == "add"@,
        chosen_user(inv.sub_options@, "user"@) == Some(inv.user_id@),
    ensures
        !(r is Call),
        r matches Plan::Reply(rep) && rep.content@ == self_share_denial() && rep.ephemeral,
{
    reveal_strlit("share");
    reveal_strlit("task");
    reveal_strlit("status");
    reveal_strlit("approve");
    reveal_strlit("project");
    reveal_strlit("register");
    reveal_strlit("add");
    assert(inv.command@.len() == 5 && "task"@.len() == 4);
    assert(inv.command@[1] == 'h' && "status"@[1] == 't');
    assert(inv.command@ != "approve"@);
    assert(inv.command@ != "project"@);
    assert(inv.command@ != "register"@);
    assert(share_plan(inv, r));
    let u = user_option(inv.sub_options@, "user"@)->0;
    assert(u.0 == inv.user_id@);
}

/// Every backend call that a plan makes acts as the invoking user, whose
/// identity comes from the platform; user-typed text only ever selects a
/// target, which the backend authorises.
pub proof fn lemma_calls_act_as_invoker(inv: Invocation, r: Plan)
    requires
        plan_spec(inv, r),
        r is Call,
    ensures
        acting_identity(r->call) == Some(inv.user_id@),
{
}

} // verus!
