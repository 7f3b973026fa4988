use cour::ai::ollama::normalize_api_url;
use cour::index::threads::{summarize_thread_messages, ThreadMessageSummary};
use cour::ui::onboarding::{OnboardingState, OnboardingStep};
use cour::watch::WatchAccumulator;

fn msg(from: &str, at: &str) -> ThreadMessageSummary {
    ThreadMessageSummary {
        subject: Some("Plans".to_string()),
        from_email: Some(from.to_string()),
        sent_at: Some(at.to_string()),
    }
}

#[test]
fn new_message_after_a_reply_puts_the_thread_back_on_the_account() {
    let mut messages = vec![
        msg("alice@example.com", "2026-03-11T10:00:00Z"),
        msg("ash@example.com", "2026-03-11T11:00:00Z"),
    ];
    let summary = summarize_thread_messages(&messages, "ash@example.com", false);
    assert_eq!(summary.state.as_deref(), Some("waiting_on_them"));
    assert_eq!(summary.needs_reply, 0);
    messages.push(msg("alice@example.com", "2026-03-12T09:00:00Z"));
    let summary = summarize_thread_messages(&messages, "ash@example.com", false);
    assert_eq!(summary.state.as_deref(), Some("waiting_on_me"));
    assert_eq!(summary.needs_reply, 1);
    assert_eq!(summary.waiting_since.as_deref(), Some("2026-03-12T09:00:00Z"));
    messages.push(msg("noreply@shop.example", "2026-03-13T09:00:00Z"));
    let summary = summarize_thread_messages(&messages, "ash@example.com", false);
    assert_eq!(summary.state.as_deref(), Some("low_value"));
    assert_eq!(summary.needs_reply, 1);
}

#[test]
fn normalizing_an_endpoint_twice_changes_nothing() {
    for url in ["http://localhost:11434", "http://h/api/embeddings///", "", "/"] {
        let once = normalize_api_url(url);
        assert!(once.ends_with("/api/embeddings"));
        assert_eq!(normalize_api_url(&once), once);
    }
}

#[test]
fn simple_setup_goes_from_style_to_review_and_back() {
    let mut state = OnboardingState::new("/tmp/cour.toml".to_string());
    state.current_step = OnboardingStep::SetupMode;
    state.advanced_setup = false;
    assert_eq!(state.next_step(), Some(OnboardingStep::Review));
    state.current_step = OnboardingStep::Review;
    assert_eq!(state.previous_step(), Some(OnboardingStep::SetupMode));
    state.advanced_setup = true;
    assert_eq!(state.previous_step(), Some(OnboardingStep::SmtpIdentity));
    state.current_step = OnboardingStep::SetupMode;
    assert_eq!(state.next_step(), Some(OnboardingStep::SyncCommand));
}

#[test]
fn a_path_changed_twice_is_handed_out_once_after_the_quiet_interval() {
    let mut acc = WatchAccumulator::new(50);
    acc.record_path("/m/cur/1".to_string(), 100);
    acc.record_path("/m/cur/1".to_string(), 130);
    assert!(acc.drain_ready(179).is_empty());
    assert_eq!(acc.drain_ready(180), vec!["/m/cur/1".to_string()]);
    assert!(acc.drain_ready(1000).is_empty());
}
