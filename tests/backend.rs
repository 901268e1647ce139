use bot::client::{BackendCall, ErrorKind, HttpMethod, Operation, WrapperClient, status_is_success};
use bot::config::{parse_u64, Config};
use bot::model::{ShareRequest, TaskRequest};
use bot::replies::{fail, finish_available, finish_project_list, finish_share_add, finish_share_list, Handler};
use bot::model::{AccessibleWrapper, AccessibleWrappersResponse, ProjectResponse, ShareListResponse};

#[test]
fn base_url_loses_trailing_slashes() {
    let c = WrapperClient::new("http://backend:8000//");
    assert_eq!(c.base_url(), "http://backend:8000");
    let call = BackendCall::GetTask { task_id: "abc".to_string(), user_id: "42".to_string() };
    assert_eq!(c.url(&call), "http://backend:8000/api/v1/tasks/abc?discord_user_id=42");
    assert_eq!(call.operation().method(), HttpMethod::Get);
}

#[test]
fn call_paths() {
    let c = WrapperClient::new("http://h");
    let approve = BackendCall::SubmitApproval {
        task_id: "t".to_string(),
        user_id: "u".to_string(),
        submission: bot::model::ApprovalSubmission { option_id: "yes".to_string(), custom_response: None },
    };
    assert_eq!(c.url(&approve), "http://h/api/v1/tasks/t/approve?discord_user_id=u");
    assert_eq!(approve.operation().method(), HttpMethod::Post);
    let unshare = BackendCall::UnshareWith { owner_id: "o".to_string(), target_id: "t".to_string() };
    assert_eq!(c.url(&unshare), "http://h/api/v1/users/o/share/t");
    assert_eq!(unshare.operation().method(), HttpMethod::Delete);
    let share = BackendCall::ShareWith { owner_id: "o".to_string(), request: ShareRequest { target_user_id: "t".to_string() } };
    assert_eq!(c.url(&share), "http://h/api/v1/users/o/share");
    let remove = BackendCall::RemoveProject { user_id: "u".to_string(), name: "p".to_string() };
    assert_eq!(c.url(&remove), "http://h/api/v1/projects/u/p");
    let submit = BackendCall::SubmitTask(TaskRequest {
        prompt: "x".to_string(),
        session_id: None,
        project: None,
        working_dir: None,
        discord_user_id: None,
        target_user_id: None,
        mode: None,
    });
    assert_eq!(c.url(&submit), "http://h/api/v1/tasks");
    assert_eq!(c.url(&BackendCall::ListAccessible { user_id: "u".to_string() }), "http://h/api/v1/users/u/accessible-wrappers");
}

#[test]
fn refusal_keeps_body_verbatim() {
    let body = "{\"detail\":\"User 42 has not shared their wrapper with you\"}";
    let r = Operation::SubmitTask.check_status(403, body);
    let e = r.unwrap_err();
    assert_eq!(e.kind, ErrorKind::Rejected);
    assert_eq!(e.message, format!("Task submission failed (403 Forbidden): {}", body));
    for h in [Handler::Task, Handler::Status, Handler::Approve, Handler::ShareAdd, Handler::RegisterStatus] {
        assert!(fail(h, &e).content.contains(body));
    }
}

#[test]
fn success_statuses_pass() {
    assert!(Operation::GetTask.check_status(200, "").is_ok());
    assert!(Operation::GetTask.check_status(204, "").is_ok());
    assert!(Operation::GetTask.check_status(301, "moved").is_err());
    assert!(status_is_success(299));
    assert!(!status_is_success(500));
    let e = Operation::Health.rejection(500, "boom");
    assert_eq!(e.message, "Health check failed (500 Internal Server Error): boom");
    assert_eq!(Operation::ListShared.decode_error().message, "Failed to parse share list response");
}

#[test]
fn project_list_lines() {
    let ps = vec![
        ProjectResponse { name: "web".to_string(), path: "/srv/web".to_string(), description: "site".to_string(), owner_id: "1".to_string(), created_at: String::new() },
        ProjectResponse { name: "cli".to_string(), path: "/srv/cli".to_string(), description: String::new(), owner_id: "1".to_string(), created_at: String::new() },
    ];
    let c = finish_project_list(Ok(ps));
    assert_eq!(c.content, "**Your Projects:**\n\n`web` → `/srv/web` - site\n`cli` → `/srv/cli`");
    let empty = finish_project_list(Ok(vec![]));
    assert!(empty.content.contains("No projects registered."));
}

#[test]
fn share_replies() {
    let l = ShareListResponse { shared_with: vec!["7".to_string(), "8".to_string()] };
    let c = finish_share_list(Ok(l.clone()));
    assert_eq!(c.content, "**Your Wrapper Sharing**\n\nYour wrapper is shared with 2 user(s):\n- <@7>\n- <@8>");
    let a = finish_share_add("7", "bob", "alice", Ok(l));
    assert!(a.content.contains("<@7> (`bob`) now has access to your wrapper."));
    assert!(a.content.contains("target:@alice`"));
    assert!(a.content.ends_with("**Currently shared with:** 2 user(s)"));
}

#[test]
fn available_wrappers_lines() {
    let r = AccessibleWrappersResponse {
        wrappers: vec![
            AccessibleWrapper { owner_id: "1".to_string(), owner_name: "me".to_string(), is_own: true },
            AccessibleWrapper { owner_id: "2".to_string(), owner_name: String::new(), is_own: false },
            AccessibleWrapper { owner_id: "3".to_string(), owner_name: "carol".to_string(), is_own: false },
        ],
    };
    let c = finish_available(Ok(r));
    assert_eq!(
        c.content,
        "**Available Wrappers**\n\n- **Your wrapper** (<@1>)\n- <@2> (`2`)\n- <@3> (`carol`)\n\nTo use someone else's wrapper:\n`/task prompt:\"...\" target:@username`"
    );
}

#[test]
fn config_defaults_and_token() {
    let c = Config::from_values(Some("tok".to_string()), Some("123".to_string()), None, None).unwrap();
    assert_eq!(c.guild_id, Some(123));
    assert_eq!(c.wrapper_url, "http://localhost:8000");
    assert_eq!(c.log_level, "info");
    let bad = Config::from_values(Some("tok".to_string()), Some("12x".to_string()), Some("http://b".to_string()), Some("debug".to_string())).unwrap();
    assert_eq!(bad.guild_id, None);
    assert_eq!(bad.wrapper_url, "http://b");
    let e = Config::from_values(None, None, None, None).unwrap_err();
    assert_eq!(e.message, "DISCORD_TOKEN environment variable not set");
}

#[test]
fn numerals() {
    assert_eq!(parse_u64("18446744073709551615"), Some(u64::MAX));
    assert_eq!(parse_u64("18446744073709551616"), None);
    assert_eq!(parse_u64("+5"), Some(5));
    assert_eq!(parse_u64("+"), None);
    assert_eq!(parse_u64(""), None);
    assert_eq!(parse_u64("-1"), None);
}
