//! The final replies: what each handler shows once the backend answered.

use vstd::prelude::*;
use crate::client::{BackendError, Operation, rejection_message};
use crate::render::{
    StatusMessages, approval_view, render_approval_result, render_status, render_submitted,
    status_follow_ups, status_view, submit_view,
};
use crate::model::{
    AccessibleWrapper, AccessibleWrappersResponse, ProjectResponse, ShareListResponse, TaskResponse,
    UserResponse,
};
use crate::chunking::views;
use crate::text::{contains_text, decimal, is_infix, push_decimal, same_text};

verus! {

/// The final reply of a handler, with any follow-up messages to send after
/// it, in order.
#[derive(Debug, Clone)]
pub struct Completion {
    pub content: String,
    /// Shown to the invoking user only.
    pub ephemeral: bool,
    pub follow_ups: Vec<String>,
}

/// The handlers that finish an invocation after a backend call.
#[derive(Debug, Clone, Copy, PartialEq, Eq, Structural)]
pub enum Handler {
    Task,
    Status,
    Approve,
    ProjectList,
    ProjectAdd,
    ProjectRemove,
    RegisterLocal,
    Unregister,
    SetMode,
    RegisterStatus,
    ShareAdd,
    ShareRemove,
    ShareList,
    ShareAvailable,
}

/// Guidance added to a failed submission whose message suggests that the
/// user has no registered endpoint.
pub open spec fn register_hint(msg: Seq<char>) -> Seq<char> {
    if is_infix("not found"@, msg) || is_infix("not registered"@, msg) {
        "\n\n**Hint:** You may need to register first with `/register local url:<your-wrapper-url>`"@
    } else {
        Seq::empty()
    }
}

/// The text shown when a user has no registration.
pub open spec fn not_registered_text() -> Seq<char> {
    "**Not Registered**\n\nYou haven't registered yet.\n\nTo use your local machine:\n`/register local url:http://your-ip:8000`\n\nTo use the Pi cluster (if enabled by admin):\nContact an admin to enable cluster access."@
}

/// What a handler shows when its backend call failed with message `msg`.
pub open spec fn failure_text(p: Handler, msg: Seq<char>) -> Seq<char> {
    match p {
        Handler::Task => "❌ **Task Failed**\n\n```\n"@ + msg + "\n```"@ + register_hint(msg),
        Handler::Status => "❌ **Failed to get task status**\n\n```\n"@ + msg + "\n```"@,
        Handler::Approve => "❌ **Approval Failed**\n\n```\n"@ + msg + "\n```"@,
        Handler::ProjectList => "❌ Failed to list projects: "@ + msg,
        Handler::ProjectAdd => "❌ Failed to add project: "@ + msg,
        Handler::ProjectRemove => "❌ Failed to remove project: "@ + msg,
        Handler::RegisterLocal => "❌ Failed to register: "@ + msg,
        Handler::Unregister => "❌ Failed to unregister: "@ + msg,
        Handler::SetMode => "❌ Failed to set mode: "@ + msg
            + "\n\nYou may need to register first with `/register local url:<your-url>`"@,
        Handler::RegisterStatus => not_registered_text() + "\n\n```\n"@ + msg + "\n```"@,
        Handler::ShareAdd => "Failed to share wrapper: "@ + msg,
        Handler::ShareRemove => "Failed to remove access: "@ + msg,
        Handler::ShareList => "Failed to list shared users: "@ + msg,
        Handler::ShareAvailable => "Failed to list accessible wrappers: "@ + msg,
    }
}

/// Whether a handler's failure is shown to the invoking user only. The
/// submission and approval handlers replace a public acknowledgement.
pub open spec fn failure_private(p: Handler) -> bool {
    !(p is Task || p is Approve)
}

/// The failure reply of a handler.
pub fn fail(p: Handler, e: &BackendError) -> (r: Completion)
    ensures
        r.content@ == failure_text(p, e.message@),
        r.ephemeral == failure_private(p),
        r.follow_ups@.len() == 0,
{
    let msg = e.message.as_str();
    let mut c: String;
    match p {
        Handler::Task => {
            c = String::from_str("❌ **Task Failed**\n\n```\n");
            c.append(msg);
            c.append("\n```");
            if contains_text(msg, "not found") || contains_text(msg, "not registered") {
                c.append("\n\n**Hint:** You may need to register first with `/register local url:<your-wrapper-url>`");
            } else {
                assert(c@ =~= c@ + Seq::<char>::empty());
            }
        },
        Handler::Status => {
            c = String::from_str("❌ **Failed to get task status**\n\n```\n");
            c.append(msg);
            c.append("\n```");
        },
        Handler::Approve => {
            c = String::from_str("❌ **Approval Failed**\n\n```\n");
            c.append(msg);
            c.append("\n```");
        },
        Handler::ProjectList => {
            c = String::from_str("❌ Failed to list projects: ");
            c.append(msg);
        },
        Handler::ProjectAdd => {
            c = String::from_str("❌ Failed to add project: ");
            c.append(msg);
        },
        Handler::ProjectRemove => {
            c = String::from_str("❌ Failed to remove project: ");
            c.append(msg);
        },
        Handler::RegisterLocal => {
            c = String::from_str("❌ Failed to register: ");
            c.append(msg);
        },
        Handler::Unregister => {
            c = String::from_str("❌ Failed to unregister: ");
            c.append(msg);
        },
        Handler::SetMode => {
            c = String::from_str("❌ Failed to set mode: ");
            c.append(msg);
            c.append("\n\nYou may need to register first with `/register local url:<your-url>`");
        },
        Handler::RegisterStatus => {
            c = String::from_str("**Not Registered**\n\nYou haven't registered yet.\n\nTo use your local machine:\n`/register local url:http://your-ip:8000`\n\nTo use the Pi cluster (if enabled by admin):\nContact an admin to enable cluster access.");
            c.append("\n\n```\n");
            c.append(msg);
            c.append("\n```");
        },
        Handler::ShareAdd => {
            c = String::from_str("Failed to share wrapper: ");
            c.append(msg);
        },
        Handler::ShareRemove => {
            c = String::from_str("Failed to remove access: ");
            c.append(msg);
        },
        Handler::ShareList => {
            c = String::from_str("Failed to list shared users: ");
            c.append(msg);
        },
        Handler::ShareAvailable => {
            c = String::from_str("Failed to list accessible wrappers: ");
            c.append(msg);
        },
    }
    let ephemeral = match p {
        Handler::Task | Handler::Approve => false,
        _ => true,
    };
    Completion { content: c, ephemeral, follow_ups: Vec::new() }
}

/// Completes `/task`: the submission view, or the failure.
pub fn finish_task(outcome: Result<TaskResponse, BackendError>) -> (r: Completion)
    ensures
        match outcome {
            Ok(t) => r.content@ == submit_view(t) && !r.ephemeral,
            Err(e) => r.content@ == failure_text(Handler::Task, e.message@) && !r.ephemeral,
        },
        r.follow_ups@.len() == 0,
{
    match outcome {
        Ok(t) => Completion { content: render_submitted(&t), ephemeral: false, follow_ups: Vec::new() },
        Err(e) => fail(Handler::Task, &e),
    }
}

/// Completes `/status`: the status view with its follow-ups, or the failure.
pub fn finish_status(outcome: Result<TaskResponse, BackendError>) -> (r: Completion)
    ensures
        match outcome {
            Ok(t) => r.content@ == status_view(t) && !r.ephemeral
                && views(r.follow_ups@) == status_follow_ups(t.output@),
            Err(e) => r.content@ == failure_text(Handler::Status, e.message@) && r.ephemeral
                && r.follow_ups@.len() == 0,
        },
{
    match outcome {
        Ok(t) => {
            let StatusMessages { content, follow_ups } = render_status(&t);
            Completion { content, ephemeral: false, follow_ups }
        },
        Err(e) => fail(Handler::Status, &e),
    }
}

/// Completes `/approve`: the view of the new snapshot, or the failure.
pub fn finish_approve(outcome: Result<TaskResponse, BackendError>) -> (r: Completion)
    ensures
        match outcome {
            Ok(t) => r.content@ == approval_view(t) && !r.ephemeral,
            Err(e) => r.content@ == failure_text(Handler::Approve, e.message@) && !r.ephemeral,
        },
        r.follow_ups@.len() == 0,
{
    match outcome {
        Ok(t) => Completion { content: render_approval_result(&t), ephemeral: false, follow_ups: Vec::new() },
        Err(e) => fail(Handler::Approve, &e),
    }
}

/// One project as a list line, with its description when it has one.
pub open spec fn project_line(p: ProjectResponse) -> Seq<char> {
    "`"@ + p.name@ + "` → `"@ + p.path@ + "`"@
        + (if p.description@.len() == 0 { Seq::empty() } else { " - "@ + p.description@ })
}

/// Each project on a line of its own, each line preceded by a newline.
pub open spec fn project_lines(ps: Seq<ProjectResponse>) -> Seq<char>
    decreases ps.len(),
{
    if ps.len() == 0 { Seq::empty() } else { project_lines(ps.drop_last()) + "\n"@ + project_line(ps.last()) }
}

/// The project list.
pub open spec fn project_list_text(ps: Seq<ProjectResponse>) -> Seq<char> {
    if ps.len() == 0 {
        "**Your Projects:**\n\nNo projects registered.\n\nUse `/project add name:<name> path:<path>` to add one."@
    } else {
        "**Your Projects:**\n"@ + project_lines(ps)
    }
}

/// The confirmation of an added project.
pub open spec fn project_added_text(p: ProjectResponse) -> Seq<char> {
    "✅ **Project Added**\n\n**Name:** `"@ + p.name@ + "`\n**Path:** `"@ + p.path@
        + "`\n\nUse `/task prompt:\"...\" project:"@ + p.name@ + "` to work on this project."@
}

/// The confirmation of a removed project.
pub open spec fn project_removed_text(name: Seq<char>) -> Seq<char> {
    "✅ Project `"@ + name + "` has been removed."@
}

/// The view of an optional string, empty when absent.
pub open spec fn or_empty(o: Option<String>) -> Seq<char> {
    match o {
        Some(s) => s@,
        None => Seq::empty(),
    }
}

/// The confirmation of a registered local endpoint.
pub open spec fn registered_text(u: UserResponse) -> Seq<char> {
    "✅ **Local Wrapper Registered**\n\n**URL:** `"@ + or_empty(u.local_wrapper_url) + "`\n**Default Mode:** "@
        + u.default_mode@
        + "\n\nNow run the wrapper on your machine:\n```bash\ncd wrapper && uvicorn wrapper.main:app --host 0.0.0.0 --port 8000\n```\n\nThen use `/task prompt:\"...\" project:my-project` to run tasks!"@
}

/// The confirmation of a new default mode.
pub open spec fn mode_set_text(u: UserResponse) -> Seq<char> {
    "✅ Default mode set to **"@ + u.default_mode@ + "**\n\nYour tasks will now run on: "@
        + (if u.default_mode@ == "cluster"@ { "the Pi cluster"@ } else { "your local machine"@ })
}

/// A user's registration status.
pub open spec fn registration_text(u: UserResponse) -> Seq<char> {
    "**Your Registration Status**\n\n**Discord ID:** `"@ + u.discord_id@ + "`\n**Local Wrapper:** "@
        + (match u.local_wrapper_url {
            Some(url) => "✅ Registered: `"@ + url@ + "`"@,
            None => "❌ Not registered"@,
        })
        + "\n**Cluster Access:** "@
        + (if u.cluster_enabled {
            "✅ Enabled (storage: `"@ + or_empty(u.cluster_storage_path) + "`)"@
        } else {
            "❌ Not enabled"@
        })
        + "\n**Default Mode:** `"@ + u.default_mode@ + "`\n**Last Seen:** "@ + u.last_seen@
}

/// The confirmation of a new share.
pub open spec fn shared_text(target_id: Seq<char>, target_name: Seq<char>, owner_name: Seq<char>, n: nat) -> Seq<char> {
    "**Wrapper Shared**\n\n<@"@ + target_id + "> (`"@ + target_name
        + "`) now has access to your wrapper.\n\nThey can use it with:\n`/task prompt:\"...\" target:@"@
        + owner_name + "`\n\n**Currently shared with:** "@ + decimal(n) + " user(s)"@
}

/// The confirmation of a removed share.
pub open spec fn unshared_text(target_id: Seq<char>, target_name: Seq<char>, n: nat) -> Seq<char> {
    "**Access Removed**\n\n<@"@ + target_id + "> (`"@ + target_name
        + "`) no longer has access to your wrapper.\n\n**Currently shared with:** "@ + decimal(n) + " user(s)"@
}

/// The users an endpoint is shared with, one mention per line.
pub open spec fn mention_lines(ids: Seq<String>) -> Seq<char>
    decreases ids.len(),
{
    if ids.len() == 0 {
        Seq::empty()
    } else if ids.len() == 1 {
        "- <@"@ + ids[0]@ + ">"@
    } else {
        mention_lines(ids.drop_last()) + "\n- <@"@ + ids.last()@ + ">"@
    }
}

/// The list of users an endpoint is shared with.
pub open spec fn share_list_text(ids: Seq<String>) -> Seq<char> {
    if ids.len() == 0 {
        "**Your Wrapper Sharing**\n\nYou haven't shared your wrapper with anyone.\n\nUse `/share add user:@someone` to grant access."@
    } else {
        "**Your Wrapper Sharing**\n\nYour wrapper is shared with "@ + decimal(ids.len()) + " user(s):\n"@
            + mention_lines(ids)
    }
}

/// One accessible endpoint as a list line.
pub open spec fn wrapper_line(w: AccessibleWrapper) -> Seq<char> {
    if w.is_own {
        "- **Your wrapper** (<@"@ + w.owner_id@ + ">)"@
    } else {
        "- <@"@ + w.owner_id@ + "> (`"@ + (if w.owner_name@.len() == 0 { w.owner_id@ } else { w.owner_name@ }) + "`)"@
    }
}

/// Each accessible endpoint on a line of its own, each preceded by a newline.
pub open spec fn wrapper_lines(ws: Seq<AccessibleWrapper>) -> Seq<char>
    decreases ws.len(),
{
    if ws.len() == 0 { Seq::empty() } else { wrapper_lines(ws.drop_last()) + "\n"@ + wrapper_line(ws.last()) }
}

/// The list of endpoints a user may run tasks on.
pub open spec fn available_text(ws: Seq<AccessibleWrapper>) -> Seq<char> {
    if ws.len() == 0 {
        "**Available Wrappers**\n\nNo wrappers available.\n\nUse `/register local` to set up your own wrapper."@
    } else {
        "**Available Wrappers**\n"@ + wrapper_lines(ws)
            + "\n\nTo use someone else's wrapper:\n`/task prompt:\"...\" target:@username`"@
    }
}

fn public(content: String) -> (r: Completion)
    ensures
        r.content == content,
        !r.ephemeral,
        r.follow_ups@.len() == 0,
{
    Completion { content, ephemeral: false, follow_ups: Vec::new() }
}

/// Completes `/project list`.
pub fn finish_project_list(outcome: Result<Vec<ProjectResponse>, BackendError>) -> (r: Completion)
    ensures
        match outcome {
            Ok(ps) => r.content@ == project_list_text(ps@) && !r.ephemeral,
            Err(e) => r.content@ == failure_text(Handler::ProjectList, e.message@) && r.ephemeral,
        },
        r.follow_ups@.len() == 0,
{
    match outcome {
        Err(e) => fail(Handler::ProjectList, &e),
        Ok(ps) => {
            let n = ps.len();
            if n == 0 {
                return public(String::from_str(
                    "**Your Projects:**\n\nNo projects registered.\n\nUse `/project add name:<name> path:<path>` to add one.",
                ));
            }
            let mut c = String::from_str("**Your Projects:**\n");
            let ghost head = c@;
            let mut i: usize = 0;
            assert(ps@.take(0) =~= Seq::<ProjectResponse>::empty());
            assert(c@ =~= head + project_lines(ps@.take(0)));
            while i < n
                invariant
                    n == ps@.len(),
                    i <= n,
                    c@ == head + project_lines(ps@.take(i as int)),
                decreases n - i,
            {
                let p = &ps[i];
                c.append("\n");
                c.append("`");
                c.append(p.name.as_str());
                c.append("` → `");
                c.append(p.path.as_str());
                c.append("`");
                if p.description.as_str().unicode_len() > 0 {
                    c.append(" - ");
                    c.append(p.description.as_str());
                }
                proof {
                    let t = ps@.take(i + 1);
                    assert(t.drop_last() =~= ps@.take(i as int));
                    assert(t.last() == ps@[i as int]);
                    assert(c@ =~= head + project_lines(t));
                }
                i = i + 1;
            }
            assert(ps@.take(n as int) =~= ps@);
            public(c)
        },
    }
}

/// Completes `/project add`.
pub fn finish_project_add(outcome: Result<ProjectResponse, BackendError>) -> (r: Completion)
    ensures
        match outcome {
            Ok(p) => r.content@ == project_added_text(p) && !r.ephemeral,
            Err(e) => r.content@ == failure_text(Handler::ProjectAdd, e.message@) && r.ephemeral,
        },
        r.follow_ups@.len() == 0,
{
    match outcome {
        Err(e) => fail(Handler::ProjectAdd, &e),
        Ok(p) => {
            let mut c = String::from_str("✅ **Project Added**\n\n**Name:** `");
            c.append(p.name.as_str());
            c.append("`\n**Path:** `");
            c.append(p.path.as_str());
            c.append("`\n\nUse `/task prompt:\"...\" project:");
            c.append(p.name.as_str());
            c.append("` to work on this project.");
            public(c)
        },
    }
}

/// Completes `/project remove` of the project called `name`.
pub fn finish_project_remove(name: &str, outcome: Result<(), BackendError>) -> (r: Completion)
    ensures
        match outcome {
            Ok(_) => r.content@ == project_removed_text(name@) && !r.ephemeral,
            Err(e) => r.content@ == failure_text(Handler::ProjectRemove, e.message@)
                && r.ephemeral,
        },
        r.follow_ups@.len() == 0,
{
    match outcome {
        Err(e) => fail(Handler::ProjectRemove, &e),
        Ok(()) => {
            let mut c = String::from_str("✅ Project `");
            c.append(name);
            c.append("` has been removed.");
            public(c)
        },
    }
}

fn or_empty_string(o: &Option<String>) -> (r: String)
    ensures
        r@ == or_empty(*o),
{
    match o {
        Some(s) => s.clone(),
        None => String::new(),
    }
}

/// Completes `/register local`.
pub fn finish_register_local(outcome: Result<UserResponse, BackendError>) -> (r: Completion)
    ensures
        match outcome {
            Ok(u) => r.content@ == registered_text(u) && !r.ephemeral,
            Err(e) => r.content@ == failure_text(Handler::RegisterLocal, e.message@) && r.ephemeral,
        },
        r.follow_ups@.len() == 0,
{
    match outcome {
        Err(e) => fail(Handler::RegisterLocal, &e),
        Ok(u) => {
            let mut c = String::from_str("✅ **Local Wrapper Registered**\n\n**URL:** `");
            let url = or_empty_string(&u.local_wrapper_url);
            c.append(url.as_str());
            c.append("`\n**Default Mode:** ");
            c.append(u.default_mode.as_str());
            c.append("\n\nNow run the wrapper on your machine:\n```bash\ncd wrapper && uvicorn wrapper.main:app --host 0.0.0.0 --port 8000\n```\n\nThen use `/task prompt:\"...\" project:my-project` to run tasks!");
            public(c)
        },
    }
}

/// Completes `/register unregister`.
pub fn finish_unregister(outcome: Result<(), BackendError>) -> (r: Completion)
    ensures
        match outcome {
            Ok(_) => r.content@ == "✅ Local wrapper unregistered."@ && !r.ephemeral,
            Err(e) => r.content@ == failure_text(Handler::Unregister, e.message@) && r.ephemeral,
        },
        r.follow_ups@.len() == 0,
{
    match outcome {
        Err(e) => fail(Handler::Unregister, &e),
        Ok(()) => public(String::from_str("✅ Local wrapper unregistered.")),
    }
}

/// Completes `/register mode`.
pub fn finish_set_mode(outcome: Result<UserResponse, BackendError>) -> (r: Completion)
    ensures
        match outcome {
            Ok(u) => r.content@ == mode_set_text(u) && !r.ephemeral,
            Err(e) => r.content@ == failure_text(Handler::SetMode, e.message@) && r.ephemeral,
        },
        r.follow_ups@.len() == 0,
{
    match outcome {
        Err(e) => fail(Handler::SetMode, &e),
        Ok(u) => {
            let mut c = String::from_str("✅ Default mode set to **");
            c.append(u.default_mode.as_str());
            c.append("**\n\nYour tasks will now run on: ");
            if same_text(u.default_mode.as_str(), "cluster") {
                c.append("the Pi cluster");
            } else {
                c.append("your local machine");
            }
            public(c)
        },
    }
}

/// Completes `/register status`; shown to the invoking user only.
pub fn finish_register_status(outcome: Result<UserResponse, BackendError>) -> (r: Completion)
    ensures
        match outcome {
            Ok(u) => r.content@ == registration_text(u),
            Err(e) => r.content@ == failure_text(Handler::RegisterStatus, e.message@),
        },
        r.ephemeral,
        r.follow_ups@.len() == 0,
{
    match outcome {
        Err(e) => fail(Handler::RegisterStatus, &e),
        Ok(u) => {
            let mut c = String::from_str("**Your Registration Status**\n\n**Discord ID:** `");
            c.append(u.discord_id.as_str());
            c.append("`\n**Local Wrapper:** ");
            match &u.local_wrapper_url {
                Some(url) => {
                    c.append("✅ Registered: `");
                    c.append(url.as_str());
                    c.append("`");
                },
                None => c.append("❌ Not registered"),
            }
            c.append("\n**Cluster Access:** ");
            if u.cluster_enabled {
                c.append("✅ Enabled (storage: `");
                let path = or_empty_string(&u.cluster_storage_path);
                c.append(path.as_str());
                c.append("`)");
            } else {
                c.append("❌ Not enabled");
            }
            c.append("\n**Default Mode:** `");
            c.append(u.default_mode.as_str());
            c.append("`\n**Last Seen:** ");
            c.append(u.last_seen.as_str());
            assert(c@ =~= registration_text(u));
            Completion { content: c, ephemeral: true, follow_ups: Vec::new() }
        },
    }
}

/// Completes `/share add` of `target_id` (shown as `target_name`) by the
/// owner called `owner_name`.
pub fn finish_share_add(
    target_id: &str,
    target_name: &str,
    owner_name: &str,
    outcome: Result<ShareListResponse, BackendError>,
) -> (r: Completion)
    ensures
        match outcome {
            Ok(l) => r.content@ == shared_text(target_id@, target_name@, owner_name@, l.shared_with@.len())
                && !r.ephemeral,
            Err(e) => r.ephemeral && r.content@ == failure_text(
                Handler::ShareAdd,
                e.message@,
            ),
        },
        r.follow_ups@.len() == 0,
{
    match outcome {
        Err(e) => fail(
            Handler::ShareAdd,
            &e,
        ),
        Ok(l) => {
            let mut c = String::from_str("**Wrapper Shared**\n\n<@");
            c.append(target_id);
            c.append("> (`");
            c.append(target_name);
            c.append("`) now has access to your wrapper.\n\nThey can use it with:\n`/task prompt:\"...\" target:@");
            c.append(owner_name);
            c.append("`\n\n**Currently shared with:** ");
            push_decimal(&mut c, l.shared_with.len());
            c.append(" user(s)");
            public(c)
        },
    }
}

/// Completes `/share remove` of `target_id` (shown as `target_name`).
pub fn finish_share_remove(
    target_id: &str,
    target_name: &str,
    outcome: Result<ShareListResponse, BackendError>,
) -> (r: Completion)
    ensures
        match outcome {
            Ok(l) => r.content@ == unshared_text(target_id@, target_name@, l.shared_with@.len()) && !r.ephemeral,
            Err(e) => r.ephemeral && r.content@ == failure_text(
                Handler::ShareRemove,
                e.message@,
            ),
        },
        r.follow_ups@.len() == 0,
{
    match outcome {
        Err(e) => fail(
            Handler::ShareRemove,
            &e,
        ),
        Ok(l) => {
            let mut c = String::from_str("**Access Removed**\n\n<@");
            c.append(target_id);
            c.append("> (`");
            c.append(target_name);
            c.append("`) no longer has access to your wrapper.\n\n**Currently shared with:** ");
            push_decimal(&mut c, l.shared_with.len());
            c.append(" user(s)");
            public(c)
        },
    }
}

/// Completes `/share list`.
pub fn finish_share_list(outcome: Result<ShareListResponse, BackendError>) -> (r: Completion)
    ensures
        match outcome {
            Ok(l) => r.content@ == share_list_text(l.shared_with@) && !r.ephemeral,
            Err(e) => r.content@ == failure_text(Handler::ShareList, e.message@) && r.ephemeral,
        },
        r.follow_ups@.len() == 0,
{
    match outcome {
        Err(e) => fail(Handler::ShareList, &e),
        Ok(l) => {
            let ids = &l.shared_with;
            let n = ids.len();
            if n == 0 {
                return public(String::from_str(
                    "**Your Wrapper Sharing**\n\nYou haven't shared your wrapper with anyone.\n\nUse `/share add user:@someone` to grant access.",
                ));
            }
            let mut c = String::from_str("**Your Wrapper Sharing**\n\nYour wrapper is shared with ");
            push_decimal(&mut c, n);
            c.append(" user(s):\n");
            let ghost head = c@;
            let mut i: usize = 0;
            assert(ids@.take(0) =~= Seq::<String>::empty());
            assert(c@ =~= head + mention_lines(ids@.take(0)));
            while i < n
                invariant
                    n == ids@.len(),
                    i <= n,
                    c@ == head + mention_lines(ids@.take(i as int)),
                decreases n - i,
            {
                if i > 0 {
                    c.append("\n- <@");
                } else {
                    c.append("- <@");
                }
                c.append(ids[i].as_str());
                c.append(">");
                proof {
                    let t = ids@.take(i + 1);
                    assert(t.drop_last() =~= ids@.take(i as int));
                    assert(t.last() == ids@[i as int]);
                    if i == 0 {
                        assert(t.len() == 1);
                    }
                    assert(c@ =~= head + mention_lines(t));
                }
                i = i + 1;
            }
            assert(ids@.take(n as int) =~= ids@);
            public(c)
        },
    }
}

/// Completes `/share available`.
pub fn finish_available(outcome: Result<AccessibleWrappersResponse, BackendError>) -> (r: Completion)
    ensures
        match outcome {
            Ok(l) => r.content@ == available_text(l.wrappers@) && !r.ephemeral,
            Err(e) => r.content@ == failure_text(Handler::ShareAvailable, e.message@) && r.ephemeral,
        },
        r.follow_ups@.len() == 0,
{
    match outcome {
        Err(e) => fail(Handler::ShareAvailable, &e),
        Ok(l) => {
            let ws = &l.wrappers;
            let n = ws.len();
            if n == 0 {
                return public(String::from_str(
                    "**Available Wrappers**\n\nNo wrappers available.\n\nUse `/register local` to set up your own wrapper.",
                ));
            }
            let mut c = String::from_str("**Available Wrappers**\n");
            let ghost head = c@;
            let mut i: usize = 0;
            assert(ws@.take(0) =~= Seq::<AccessibleWrapper>::empty());
            assert(c@ =~= head + wrapper_lines(ws@.take(0)));
            while i < n
                invariant
                    n == ws@.len(),
                    i <= n,
                    c@ == head + wrapper_lines(ws@.take(i as int)),
                decreases n - i,
            {
                let w = &ws[i];
                if w.is_own {
                    c.append("\n");
                    c.append("- **Your wrapper** (<@");
                    c.append(w.owner_id.as_str());
                    c.append(">)");
                } else {
                    c.append("\n");
                    c.append("- <@");
                    c.append(w.owner_id.as_str());
                    c.append("> (`");
                    if w.owner_name.as_str().unicode_len() == 0 {
                        c.append(w.owner_id.as_str());
                    } else {
                        c.append(w.owner_name.as_str());
                    }
                    c.append("`)");
                }
                proof {
                    let t = ws@.take(i + 1);
                    assert(t.drop_last() =~= ws@.take(i as int));
                    assert(t.last() == ws@[i as int]);
                    assert(c@ =~= head + wrapper_lines(t));
                }
                i = i + 1;
            }
            assert(ws@.take(n as int) =~= ws@);
            c.append("\n\nTo use someone else's wrapper:\n`/task prompt:\"...\" target:@username`");
            public(c)
        },
    }
}

proof fn lemma_infix_of_parts(a: Seq<char>, m: Seq<char>, b: Seq<char>)
    ensures
        is_infix(m, a + m + b),
{
    assert((a + m + b).subrange(a.len() as int, (a.len() + m.len()) as int) =~= m);
}

proof fn lemma_infix_trans(x: Seq<char>, y: Seq<char>, z: Seq<char>)
    requires
        is_infix(x, y),
        is_infix(y, z),
    ensures
        is_infix(x, z),
{
    let i = choose|i: int| 0 <= i <= y.len() - x.len() && #[trigger] y.subrange(i, i + x.len()) == x;
    let j = choose|j: int| 0 <= j <= z.len() - y.len() && #[trigger] z.subrange(j, j + y.len()) == y;
    assert(z.subrange(j + i, j + i + x.len()) =~= y.subrange(i, i + x.len()));
}

/// Every failure reply holds the failure's message whole.
proof fn lemma_failure_shows_message(p: Handler, msg: Seq<char>)
    ensures
        is_infix(msg, failure_text(p, msg)),
{
    let f = failure_text(p, msg);
    let (a, b): (Seq<char>, Seq<char>) = match p {
        Handler::Task => ("❌ **Task Failed**\n\n```\n"@, "\n```"@ + register_hint(msg)),
        Handler::Status => ("❌ **Failed to get task status**\n\n```\n"@, "\n```"@),
        Handler::Approve => ("❌ **Approval Failed**\n\n```\n"@, "\n```"@),
        Handler::SetMode => ("❌ Failed to set mode: "@,
            "\n\nYou may need to register first with `/register local url:<your-url>`"@),
        Handler::RegisterStatus => (not_registered_text() + "\n\n```\n"@, "\n```"@),
        _ => (f.subrange(0, f.len() - msg.len()), Seq::empty()),
    };
    assert(a + msg + b =~= f);
    lemma_infix_of_parts(a, msg, b);
}

/// Whatever handler was waiting, a refusal by the backend shows the user the
/// body of the refusal exactly as the backend sent it.
pub proof fn lemma_refusal_body_shown(p: Handler, op: Operation, code: u16, body: Seq<char>)
    ensures
        is_infix(body, failure_text(p, rejection_message(op, code, body))),
{
    let msg = rejection_message(op, code, body);
    let a = msg.subrange(0, msg.len() - body.len());
    assert(a + body + Seq::<char>::empty() =~= msg);
    lemma_infix_of_parts(a, body, Seq::empty());
    lemma_failure_shows_message(p, msg);
    lemma_infix_trans(body, msg, failure_text(p, msg));
}

} // verus!
