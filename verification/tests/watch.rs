use cour::config::AccountConfig;
use cour::watch::{build_watch_plans, WatchAccumulator};

const MS: u64 = 1_000_000;

#[test]
fn debounce_collapses_repeated_paths() {
    let start: u64 = 5_000 * MS;
    let mut accumulator = WatchAccumulator::new(50 * MS);
    let path = "/tmp/mail/cur/msg-1".to_string();

    accumulator.record_path(path.clone(), start);
    accumulator.record_path(path.clone(), start + 10 * MS);

    let early = accumulator.drain_ready(start + 40 * MS);
    assert!(early.is_empty());

    let ready = accumulator.drain_ready(start + 61 * MS);
    assert_eq!(ready, vec![path]);
}

#[test]
fn drained_paths_come_out_sorted_and_once() {
    let mut acc = WatchAccumulator::new(10);
    acc.record_path("/m/b".to_string(), 0);
    acc.record_path("/m/a".to_string(), 0);
    acc.record_path("/m/c".to_string(), 100);
    acc.record_path("/m/b".to_string(), 5);
    let ready = acc.drain_ready(20);
    assert_eq!(ready, vec!["/m/a".to_string(), "/m/b".to_string()]);
    assert!(acc.drain_ready(20).is_empty());
    assert_eq!(acc.drain_ready(500), vec!["/m/c".to_string()]);
}

fn account(name: &str) -> AccountConfig {
    AccountConfig {
        name: name.to_string(),
        email_address: "ash@example.com".to_string(),
        maildir_root: format!("/tmp/mail/{name}"),
        sync_command: None,
        default: Some(true),
    }
}

#[test]
fn build_watch_plans_respects_disabled_flag() {
    let accounts = vec![account("personal")];
    assert!(build_watch_plans(&accounts, false).is_empty());
    assert_eq!(build_watch_plans(&accounts, true)[0].account_name, "personal");
}

#[test]
fn watch_plans_sorted_by_account_name() {
    let accounts = vec![account("work"), account("alpha"), account("personal")];
    let plans = build_watch_plans(&accounts, true);
    let names: Vec<_> = plans.iter().map(|p| p.account_name.as_str()).collect();
    assert_eq!(names, vec!["alpha", "personal", "work"]);
    assert_eq!(plans[0].root_path, "/tmp/mail/alpha");
}

#[test]
fn latest_change_decides_on_a_busy_accumulator() {
    let start: u64 = 1_000 * MS;
    let mut acc = WatchAccumulator::new(50 * MS);
    acc.record_path("/m/other".to_string(), start + 100 * MS);
    acc.record_path("/m/p".to_string(), start);
    acc.record_path("/m/p".to_string(), start + 30 * MS);
    assert!(acc.drain_ready(start + 60 * MS).is_empty());
    assert_eq!(acc.drain_ready(start + 80 * MS), vec!["/m/p".to_string()]);
    assert!(acc.drain_ready(start + 80 * MS).is_empty());
    assert_eq!(acc.drain_ready(start + 150 * MS), vec!["/m/other".to_string()]);
}

#[test]
fn spellings_of_one_path_are_pending_once() {
    let mut acc = WatchAccumulator::new(10);
    acc.record_path("/m/cur/a".to_string(), 0);
    acc.record_path("/m//cur/./a/".to_string(), 5);
    acc.record_path("m/cur/a".to_string(), 0);
    acc.record_path("./m".to_string(), 0);
    acc.record_path("m".to_string(), 0);
    assert_eq!(
        acc.drain_ready(12),
        vec!["./m".to_string(), "m".to_string(), "m/cur/a".to_string()]
    );
    assert_eq!(acc.drain_ready(15), vec!["/m/cur/a".to_string()]);
    assert!(acc.drain_ready(100).is_empty());
}
