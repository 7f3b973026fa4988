use cour::config::{AccountConfig, AiConfig, AppConfig, SmtpIdentityConfig};
use cour::error::AppError;
use cour::index::json::serde_json_opt_string;
use cour::index::query::DraftReviewRow;
use cour::index::repo::or_stored;
use cour::send::send_draft;
use cour::ui::views::DraftsState;

fn account(name: &str, default: Option<bool>) -> AccountConfig {
    AccountConfig {
        name: name.to_string(),
        email_address: format!("{name}@example.com"),
        maildir_root: format!("/mail/{name}"),
        sync_command: None,
        default,
    }
}

fn config(accounts: Vec<AccountConfig>) -> AppConfig {
    AppConfig { accounts, ai: AiConfig { embedding: None, extraction: None, drafting: None }, smtp: vec![] }
}

fn identity(host: &str, email: &str) -> SmtpIdentityConfig {
    SmtpIdentityConfig {
        name: "default".to_string(),
        email_address: email.to_string(),
        host: host.to_string(),
        port: 465,
        username: None,
        password_env: None,
        tls_mode: None,
        default: Some(true),
    }
}

fn review(id: i64) -> DraftReviewRow {
    DraftReviewRow {
        id,
        thread_id: Some(3),
        status: "pending".to_string(),
        source: "fallback".to_string(),
        provider: None,
        model: None,
        has_rationale: false,
        approval_status: "pending".to_string(),
        created_at: "2026-03-11T10:00:00Z".to_string(),
        updated_at: "2026-03-11T10:00:00Z".to_string(),
        approved_at: None,
        sent_at: None,
        latest_audit_at: None,
        latest_approval_audit_at: None,
        latest_send_audit_at: None,
    }
}

#[test]
fn default_account_picks_the_only_or_the_marked_one() {
    assert_eq!(
        config(vec![]).default_account(),
        Err(AppError::Config("config must define at least one account".to_string()))
    );
    let single = config(vec![account("solo", None)]);
    assert_eq!(single.default_account().unwrap().name, "solo");
    let marked = config(vec![account("work", Some(false)), account("home", Some(true)), account("x", Some(true))]);
    assert_eq!(marked.default_account().unwrap().name, "home");
    assert_eq!(
        config(vec![account("a", None), account("b", Some(false))]).default_account(),
        Err(AppError::Config("multiple accounts configured but none marked default = true".to_string()))
    );
}

#[test]
fn send_draft_needs_host_and_address() {
    let to = vec!["bob@example.com".to_string()];
    assert_eq!(send_draft(&identity("smtp.example.com", "ash@example.com"), &to, "Hi", "Body"), Ok(()));
    assert_eq!(
        send_draft(&identity("  ", "ash@example.com"), &to, "Hi", "Body"),
        Err(AppError::Send("smtp host must not be empty".to_string()))
    );
    assert_eq!(
        send_draft(&identity("smtp.example.com", " "), &to, "Hi", "Body"),
        Err(AppError::Send("smtp email_address must not be empty".to_string()))
    );
}

#[test]
fn selected_draft_follows_the_selection() {
    let mut state = DraftsState { drafts: vec![review(1), review(2)], selected: 1 };
    assert_eq!(state.selected_draft().map(|d| d.id), Some(2));
    state.selected = 5;
    assert!(state.selected_draft().is_none());
    let empty = DraftsState { drafts: vec![], selected: 0 };
    assert!(empty.selected_draft().is_none());
}

#[test]
fn optional_lists_and_stored_values() {
    let list = vec!["a@x.org".to_string(), "b\"c".to_string()];
    assert_eq!(serde_json_opt_string(Some(list.as_slice())), Some("[\"a@x.org\",\"b\\\"c\"]".to_string()));
    assert_eq!(serde_json_opt_string(None), None);
    assert_eq!(or_stored(Some("new".to_string()), Some("old".to_string())), Some("new".to_string()));
    assert_eq!(or_stored(None, Some("old".to_string())), Some("old".to_string()));
    assert_eq!(or_stored(None, None), None);
}
