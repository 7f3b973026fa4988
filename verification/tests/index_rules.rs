use cour::config::SmtpIdentityConfig;
use cour::error::AppError;
use cour::index::drafts::{
    approval_status, approve_step, change_draft_status, check_draft_transition, DraftStatusRow, draft_transition_allowed,
    has_rationale, send_precheck, ApproveStep,
};
use cour::index::json::{parse_json_string_list, serde_json_string};
use cour::index::threads::{
    classify_unanswered_inbound, group_by_thread_key, is_automated_sender, is_inbound_message,
    summarize_thread_messages, ThreadMessageSummary,
};
use cour::threading::ThreadAssignment;

#[test]
fn draft_transitions_follow_the_lifecycle() {
    assert!(draft_transition_allowed("pending", "approved"));
    assert!(draft_transition_allowed("approved", "sent"));
    assert!(!draft_transition_allowed("sent", "draft"));
    assert_eq!(
        check_draft_transition("sent", "approved"),
        Err("invalid draft transition: sent -> approved".to_string())
    );
    assert!(matches!(approve_step("approved"), ApproveStep::AlreadyApproved));
    assert!(matches!(approve_step("pending"), ApproveStep::Approve));
}

#[test]
fn refuses_unapproved_draft_before_send() {
    let smtp = vec![SmtpIdentityConfig {
        name: "default".to_string(),
        email_address: "ash@example.com".to_string(),
        host: "smtp.example.com".to_string(),
        port: 465,
        username: None,
        password_env: None,
        tls_mode: None,
        default: Some(true),
    }];
    match send_precheck(3, "pending", &smtp) {
        Err(AppError::Send(m)) => {
            assert_eq!(m, "draft 3 is pending and must be approved before send")
        }
        other => panic!("unexpected {other:?}"),
    }
    assert_eq!(send_precheck(3, "approved", &smtp).unwrap(), 0);
    match send_precheck(3, "approved", &[]) {
        Err(AppError::Config(m)) => assert_eq!(m, "no smtp identity configured"),
        other => panic!("unexpected {other:?}"),
    }
}

#[test]
fn review_fields() {
    assert!(has_rationale(&Some("[\"reason one\"]".to_string())));
    assert!(!has_rationale(&Some(" [] ".to_string())));
    assert!(!has_rationale(&None));
    assert_eq!(approval_status("draft", &None, &None), "pending");
    assert_eq!(approval_status("draft", &Some("t".to_string()), &None), "approved");
    assert_eq!(approval_status("approved", &None, &Some("t".to_string())), "sent");
}

#[test]
fn json_lists_round_trip() {
    let values = vec!["<a@x>".to_string(), "b c".to_string()];
    let text = serde_json_string(&values);
    assert_eq!(text, "[\"<a@x>\",\"b c\"]");
    assert_eq!(parse_json_string_list(&text), values);
    assert_eq!(serde_json_string(&["q\"t\n".to_string()]), "[\"q\\\"t\\n\"]");
}

fn msg(from: &str, at: &str) -> ThreadMessageSummary {
    ThreadMessageSummary {
        subject: Some("Hello".to_string()),
        from_email: Some(from.to_string()),
        sent_at: Some(at.to_string()),
    }
}

#[test]
fn computes_waiting_on_me_for_unanswered_inbound_thread() {
    let messages = vec![msg("alice@example.com", "2026-03-11T10:00:00Z")];
    let summary = summarize_thread_messages(&messages, "ash@example.com", false);
    assert_eq!(summary.state.as_deref(), Some("waiting_on_me"));
    assert_eq!(summary.needs_reply, 1);
    assert_eq!(summary.message_count, 1);

    let replied = vec![
        msg("alice@example.com", "2026-03-11T10:00:00Z"),
        msg("ASH@example.com", "2026-03-11T11:00:00Z"),
    ];
    let summary = summarize_thread_messages(&replied, "ash@example.com", true);
    assert_eq!(summary.state.as_deref(), Some("waiting_on_them"));
    assert_eq!(summary.has_draft, 1);
    assert!(is_inbound_message(&Some("alice@example.com".to_string()), "ash@example.com"));
    assert!(is_automated_sender("No-Reply@shop.example"));
    assert_eq!(classify_unanswered_inbound(&msg("newsletter@x.com", "t")), "low_value");
}

#[test]
fn groups_assignments_by_thread() {
    let asg = vec![
        ThreadAssignment { message_row_id: 1, thread_key: "k1".to_string() },
        ThreadAssignment { message_row_id: 2, thread_key: "k2".to_string() },
        ThreadAssignment { message_row_id: 3, thread_key: "k1".to_string() },
    ];
    let groups = group_by_thread_key(&asg);
    let k1 = groups.iter().find(|g| g.thread_key == "k1").expect("k1");
    assert_eq!(k1.message_ids, vec![1, 3]);
    assert_eq!(groups.len(), 2);
}

#[test]
fn status_change_sets_its_timestamps() {
    let row = DraftStatusRow {
        status: "pending".to_string(),
        approved_at: None,
        sent_at: None,
        updated_at: "t0".to_string(),
    };
    let approved = change_draft_status(&row, "approved", "t1").unwrap();
    assert_eq!(approved.status, "approved");
    assert_eq!(approved.approved_at, Some("t1".to_string()));
    assert_eq!(approved.sent_at, None);
    assert_eq!(approved.updated_at, "t1");
    let sent = change_draft_status(&approved, "sent", "t2").unwrap();
    assert_eq!(sent.approved_at, Some("t1".to_string()));
    assert_eq!(sent.sent_at, Some("t2".to_string()));
    assert_eq!(sent.updated_at, "t2");
    assert_eq!(
        change_draft_status(&sent, "approved", "t3"),
        Err("invalid draft transition: sent -> approved".to_string())
    );
    assert_eq!(
        change_draft_status(&row, "sent", "t3"),
        Err("invalid draft transition: pending -> sent".to_string())
    );
}
