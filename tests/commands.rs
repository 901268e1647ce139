use bot::client::BackendCall;
use bot::dispatch::{plan, Pending, Plan};
use bot::invocation::{CommandOption, Invocation, OptionValue};
use bot::model::ExecutionMode;

fn text(name: &str, value: &str) -> CommandOption {
    CommandOption { name: name.to_string(), value: OptionValue::Text(value.to_string()) }
}

fn user(name: &str, id: &str, display: Option<&str>) -> CommandOption {
    CommandOption {
        name: name.to_string(),
        value: OptionValue::User { id: id.to_string(), name: display.map(|d| d.to_string()) },
    }
}

fn invocation(command: &str, options: Vec<CommandOption>) -> Invocation {
    Invocation {
        command: command.to_string(),
        user_id: "100".to_string(),
        user_name: "alice".to_string(),
        options,
        sub_command: None,
        sub_options: vec![],
    }
}

fn with_sub(command: &str, sub: &str, sub_options: Vec<CommandOption>) -> Invocation {
    let mut inv = invocation(command, vec![]);
    inv.sub_command = Some(sub.to_string());
    inv.sub_options = sub_options;
    inv
}

fn reply_of(p: Plan) -> (String, bool) {
    match p {
        Plan::Reply(r) => (r.content, r.ephemeral),
        other => panic!("expected an immediate reply, got {:?}", other),
    }
}

#[test]
fn plain_task_submission() {
    let p = plan(&invocation("task", vec![text("prompt", "list files")]));
    match p {
        Plan::Call { ack: Some(ack), call: BackendCall::SubmitTask(req), then: Pending::Task } => {
            assert_eq!(ack, "Processing your task...");
            assert_eq!(req.prompt, "list files");
            assert_eq!(req.discord_user_id.as_deref(), Some("100"));
            assert!(req.project.is_none() && req.target_user_id.is_none() && req.mode.is_none());
            assert!(req.session_id.is_none() && req.working_dir.is_none());
        },
        other => panic!("unexpected plan {:?}", other),
    }
}

#[test]
fn task_with_project_target_and_mode() {
    let p = plan(&invocation(
        "task",
        vec![
            text("prompt", "build"),
            text("project", "web"),
            user("target", "200", Some("bob")),
            text("mode", "cluster"),
            text("session", "s-9"),
        ],
    ));
    match p {
        Plan::Call { ack: Some(ack), call: BackendCall::SubmitTask(req), .. } => {
            assert_eq!(ack, "Processing your task on `web` via <@200> (cluster)...");
            assert_eq!(req.target_user_id.as_deref(), Some("200"));
            assert_eq!(req.discord_user_id.as_deref(), Some("100"));
            assert_eq!(req.mode, Some(ExecutionMode::Cluster));
            assert_eq!(req.session_id.as_deref(), Some("s-9"));
        },
        other => panic!("unexpected plan {:?}", other),
    }
    let local = plan(&invocation("task", vec![text("prompt", "x"), text("mode", "anything")]));
    match local {
        Plan::Call { ack: Some(ack), call: BackendCall::SubmitTask(req), .. } => {
            assert_eq!(ack, "Processing your task (local)...");
            assert_eq!(req.mode, Some(ExecutionMode::Local));
        },
        other => panic!("unexpected plan {:?}", other),
    }
}

#[test]
fn self_share_is_refused_locally() {
    let p = plan(&with_sub("share", "add", vec![user("user", "100", Some("alice"))]));
    assert_eq!(reply_of(p), ("You already have access to your own wrapper!".to_string(), true));
}

#[test]
fn share_with_other_user() {
    let p = plan(&with_sub("share", "add", vec![user("user", "200", None)]));
    match p {
        Plan::Call { ack: None, call: BackendCall::ShareWith { owner_id, request }, then: Pending::ShareAdd { target_id, target_name, owner_name } } => {
            assert_eq!(owner_id, "100");
            assert_eq!(request.target_user_id, "200");
            assert_eq!(target_id, "200");
            assert_eq!(target_name, "200");
            assert_eq!(owner_name, "alice");
        },
        other => panic!("unexpected plan {:?}", other),
    }
}

#[test]
fn share_without_user() {
    let p = plan(&with_sub("share", "remove", vec![]));
    assert_eq!(reply_of(p).0, "Please specify a user to remove.");
    let p = plan(&with_sub("share", "add", vec![text("user", "200")]));
    assert_eq!(reply_of(p).0, "Please specify a user to share with.");
}

#[test]
fn unknown_sub_commands() {
    assert_eq!(
        reply_of(plan(&with_sub("share", "grant", vec![]))).0,
        "Unknown subcommand. Use `/share add`, `/share remove`, `/share list`, or `/share available`."
    );
    assert_eq!(
        reply_of(plan(&with_sub("project", "rename", vec![]))).0,
        "Unknown subcommand. Use `/project list`, `/project add`, or `/project remove`."
    );
    assert_eq!(reply_of(plan(&with_sub("register", "cloud", vec![]))).0, "Unknown subcommand.");
}

#[test]
fn default_sub_commands() {
    assert!(matches!(plan(&invocation("share", vec![])), Plan::Call { call: BackendCall::ListShared { .. }, .. }));
    assert!(matches!(plan(&invocation("project", vec![])), Plan::Call { call: BackendCall::ListProjects { .. }, .. }));
    assert!(matches!(plan(&invocation("register", vec![])), Plan::Call { call: BackendCall::GetUser { .. }, .. }));
}

#[test]
fn project_add_needs_name_and_path() {
    let p = plan(&with_sub("project", "add", vec![text("name", "web")]));
    assert_eq!(reply_of(p), ("❌ Both `name` and `path` are required.".to_string(), true));
    let p = plan(&with_sub("project", "add", vec![text("name", "web"), text("path", "/srv/web")]));
    match p {
        Plan::Call { call: BackendCall::AddProject(req), .. } => {
            assert_eq!(req.name, "web");
            assert_eq!(req.path, "/srv/web");
            assert_eq!(req.discord_user_id, "100");
            assert!(req.description.is_none());
        },
        other => panic!("unexpected plan {:?}", other),
    }
    let p = plan(&with_sub("project", "remove", vec![text("name", "")]));
    assert_eq!(reply_of(p).0, "❌ Project `name` is required.");
}

#[test]
fn register_sub_commands() {
    let p = plan(&with_sub("register", "local", vec![]));
    assert_eq!(reply_of(p).0, "❌ URL is required.");
    match plan(&with_sub("register", "mode", vec![text("default", "cluster")])) {
        Plan::Call { call: BackendCall::SetUserMode { user_id, request }, .. } => {
            assert_eq!(user_id, "100");
            assert_eq!(request.mode, ExecutionMode::Cluster);
        },
        other => panic!("unexpected plan {:?}", other),
    }
    match plan(&with_sub("register", "local", vec![text("url", "http://10.0.0.2:8000")])) {
        Plan::Call { call: BackendCall::RegisterLocal(req), .. } => {
            assert_eq!(req.discord_id, "100");
            assert_eq!(req.discord_name, "alice");
            assert_eq!(req.wrapper_url, "http://10.0.0.2:8000");
        },
        other => panic!("unexpected plan {:?}", other),
    }
}

#[test]
fn approval_plan() {
    let p = plan(&invocation("approve", vec![text("task_id", "t-1"), text("option", "yes"), text("response", "fine")]));
    match p {
        Plan::Call { ack: Some(ack), call: BackendCall::SubmitApproval { task_id, user_id, submission }, then: Pending::Approve } => {
            assert_eq!(ack, "⏳ Processing approval...");
            assert_eq!(task_id, "t-1");
            assert_eq!(user_id, "100");
            assert_eq!(submission.option_id, "yes");
            assert_eq!(submission.custom_response.as_deref(), Some("fine"));
        },
        other => panic!("unexpected plan {:?}", other),
    }
}

#[test]
fn status_plan_and_unknown_command() {
    match plan(&invocation("status", vec![text("task_id", "t-2")])) {
        Plan::Call { ack: None, call: BackendCall::GetTask { task_id, user_id }, then: Pending::Status } => {
            assert_eq!(task_id, "t-2");
            assert_eq!(user_id, "100");
        },
        other => panic!("unexpected plan {:?}", other),
    }
    assert!(matches!(plan(&invocation("dance", vec![])), Plan::Ignore));
}
