use bot::chunking::split_output;
use bot::client::{ErrorKind, Operation};
use bot::model::{ApprovalOption, ApprovalRequest, TaskResponse, TaskStatus};
use bot::render::{render_approval_result, render_status, render_submitted};
use bot::replies::{fail, finish_approve, finish_status, finish_task, Handler};

fn task(status: TaskStatus, output: &str) -> TaskResponse {
    TaskResponse {
        task_id: "t-1".to_string(),
        session_id: "s-1".to_string(),
        status,
        output: output.to_string(),
        error: None,
        approval_request: None,
        created_at: "2024-01-01T00:00:00Z".to_string(),
        updated_at: "2024-01-01T00:01:00Z".to_string(),
    }
}

fn yes_no_approval(description: &str) -> ApprovalRequest {
    ApprovalRequest {
        action: "delete_file".to_string(),
        description: description.to_string(),
        options: vec![
            ApprovalOption { id: "yes".to_string(), label: "Yes".to_string(), description: None },
            ApprovalOption { id: "no".to_string(), label: "No".to_string(), description: None },
        ],
    }
}

#[test]
fn completed_submission_is_one_message() {
    let c = finish_task(Ok(task(TaskStatus::Completed, "a.rs\n")));
    assert!(c.content.contains("✅"));
    assert!(c.content.contains("**Status:** Completed"));
    assert!(c.content.contains("\n\n**Output:**\n```\na.rs\n\n```"));
    assert_eq!(c.content.matches("```").count(), 2);
    assert!(c.follow_ups.is_empty());
    assert!(!c.ephemeral);
}

#[test]
fn submission_view_exact_text() {
    let s = render_submitted(&task(TaskStatus::Running, "hi"));
    assert_eq!(
        s,
        "🔄 **Task Running**\n\n**Status:** Running\n**Task ID:** `t-1`\n**Session:** `s-1`\n\n**Output:**\n```\nhi\n```"
    );
}

#[test]
fn empty_output_is_left_out() {
    let s = render_submitted(&task(TaskStatus::Pending, ""));
    assert_eq!(s, "⏳ **Task Pending**\n\n**Status:** Pending\n**Task ID:** `t-1`\n**Session:** `s-1`");
}

#[test]
fn needs_approval_lists_options_last() {
    let mut t = task(TaskStatus::NeedsApproval, "");
    t.approval_request = Some(yes_no_approval("Delete config.yaml?"));
    let s = render_submitted(&t);
    assert!(s.starts_with("⚠️ **Task Needs Approval**"));
    assert!(s.contains("**Approval Required:**\nDelete config.yaml?"));
    assert!(s.contains("Use `/approve task_id:t-1 option:<option>` to respond."));
    assert!(s.ends_with("Options:\n- `yes`: Yes\n- `no`: No"));
    let st = render_status(&t);
    assert!(st.content.ends_with("Options:\n- `yes`: Yes\n- `no`: No"));
}

#[test]
fn long_submission_output_is_cut() {
    let out = "x".repeat(1600);
    let s = render_submitted(&task(TaskStatus::Completed, &out));
    let expected = format!(
        "{}...\n\n>>> (truncated - 1600 chars total) <<<\nUse `/status task_id:t-1` for full output",
        "x".repeat(1500)
    );
    assert!(s.contains(&expected));
}

#[test]
fn submission_at_cap_is_whole() {
    let out = "y".repeat(1500);
    let s = render_submitted(&task(TaskStatus::Completed, &out));
    assert!(s.contains(&format!("```\n{}\n```", out)));
    assert!(!s.contains("truncated"));
}

#[test]
fn error_is_shown_in_full() {
    let mut t = task(TaskStatus::Failed, "");
    let err = "e".repeat(3000);
    t.error = Some(err.clone());
    let s = render_submitted(&t);
    assert!(s.starts_with("❌ **Task Failed**"));
    assert!(s.ends_with(&format!("\n\n**Error:**\n```\n{}\n```", err)));
}

#[test]
fn approval_view_cuts_long_output() {
    let out = "z".repeat(2000);
    let s = render_approval_result(&task(TaskStatus::Completed, &out));
    assert!(s.starts_with("✅ **Approval Processed**\n\n**Status:** Completed\n**Task ID:** `t-1`"));
    assert!(s.contains(&format!("```\n{}...\n(truncated)\n```", "z".repeat(1800))));
}

#[test]
fn chained_approval_is_additional() {
    let mut t = task(TaskStatus::NeedsApproval, "");
    t.approval_request = Some(ApprovalRequest {
        action: "overwrite".to_string(),
        description: "Overwrite main.rs?".to_string(),
        options: vec![ApprovalOption { id: "ok".to_string(), label: "Go ahead".to_string(), description: None }],
    });
    let c = finish_approve(Ok(t));
    assert!(c.content.contains("**Additional Approval Required:**\nOverwrite main.rs?"));
    assert!(c.content.ends_with("Options:\n- `ok`: Go ahead"));
    assert!(!c.content.contains("Delete config.yaml?"));
}

#[test]
fn status_short_output_inline() {
    let out = "o".repeat(1200);
    let c = finish_status(Ok(task(TaskStatus::Completed, &out)));
    assert!(c.content.contains(&format!("\n\n**Output:**\n```\n{}\n```", out)));
    assert!(c.content.contains("**Created:** 2024-01-01T00:00:00Z\n**Updated:** 2024-01-01T00:01:00Z"));
    assert!(c.follow_ups.is_empty());
}

#[test]
fn status_3000_chars_gives_one_follow_up() {
    let out: String = (0..3000).map(|i| char::from(b'a' + (i % 26) as u8)).collect();
    let st = render_status(&task(TaskStatus::Completed, &out));
    assert_eq!(st.follow_ups.len(), 1);
    assert!(st.content.contains(&format!("**Output (1/2):**\n```\n{}\n```", &out[..1200])));
    assert_eq!(st.follow_ups[0], format!("**Output (2/2):**\n```\n{}\n```", &out[1200..]));
}

#[test]
fn status_follow_ups_rebuild_output() {
    let out: String = (0..5000).map(|i| char::from(b'0' + (i % 10) as u8)).collect();
    let st = render_status(&task(TaskStatus::Completed, &out));
    assert_eq!(st.follow_ups.len(), 2);
    let strip = |m: &str, label: &str| {
        let body = m.strip_prefix(label).unwrap();
        body.strip_prefix("\n```\n").unwrap().strip_suffix("\n```").unwrap().to_string()
    };
    let start = st.content.find("**Output (1/3):**").unwrap();
    let end = st.content[start..].find("\n```\n\n").map(|e| start + e + 4).unwrap_or(st.content.len());
    let first = strip(&st.content[start..end], "**Output (1/3):**");
    let second = strip(&st.follow_ups[0], "**Output (2/3):**");
    let third = strip(&st.follow_ups[1], "**Output (3/3):**");
    assert_eq!(first.len(), 1200);
    assert_eq!(second.len(), 1900);
    assert_eq!(third.len(), 1900);
    assert_eq!(format!("{}{}{}", first, second, third), out);
}

#[test]
fn status_counts_characters_not_bytes() {
    let out = "é".repeat(1300);
    let st = render_status(&task(TaskStatus::Completed, &out));
    assert_eq!(st.follow_ups.len(), 1);
    assert_eq!(st.follow_ups[0], format!("**Output (2/2):**\n```\n{}\n```", "é".repeat(100)));
}

#[test]
fn split_exact_sizes() {
    let text = "q".repeat(3000);
    let parts = split_output(&text, 1200, 1900);
    assert_eq!(parts.len(), 2);
    assert_eq!(parts[0].len(), 1200);
    assert_eq!(parts[1].len(), 1800);
    let whole = split_output("short", 1200, 1900);
    assert_eq!(whole, vec!["short".to_string()]);
    let even = split_output(&"w".repeat(1200 + 3800), 1200, 1900);
    assert_eq!(even.len(), 3);
    assert_eq!(even[2].len(), 1900);
}

#[test]
fn task_failure_hints_registration() {
    let e = Operation::SubmitTask.rejection(404, "user not found");
    let c = finish_task(Err(e));
    assert_eq!(
        c.content,
        "❌ **Task Failed**\n\n```\nTask submission failed (404 Not Found): user not found\n```\n\n**Hint:** You may need to register first with `/register local url:<your-wrapper-url>`"
    );
}

#[test]
fn status_failure_is_private() {
    let e = Operation::GetTask.transport_error();
    assert_eq!(e.kind, ErrorKind::Transport);
    let c = fail(Handler::Status, &e);
    assert_eq!(c.content, "❌ **Failed to get task status**\n\n```\nFailed to get task\n```");
    assert!(c.ephemeral);
}

#[test]
fn status_labels_and_glyphs() {
    assert_eq!(TaskStatus::NeedsApproval.to_string(), "Needs Approval");
    assert_eq!(TaskStatus::Failed.glyph(), "❌");
    assert_eq!(TaskStatus::Running.label(), "Running");
}
