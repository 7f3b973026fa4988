use cour::ai::extract::{
    content_hash, embedding_hash, message_enrichment_step, message_extractor_input,
    thread_extractor_input, thread_needs_enrichment, EnrichmentStats, MessageStep,
    plan_enrichment, MessageHashes,
};
use cour::ai::ollama::{build_embedding_input, normalize_api_url};
use cour::commands::doctor::{doctor_report, provider_missing_fields, smtp_missing_fields};
use cour::commands::draft::{
    draft_report, fallback_generation_result, indent_block, infer_recipients, join_recipients,
};
use cour::commands::read::{brief_text, collect_participants, thread_text};
use cour::commands::search::{ask_header, sanitize_snippet};
use cour::config::{AccountConfig, AiConfig, AppConfig, ProjectPaths, ProviderConfig, SmtpIdentityConfig};
use cour::index::query::{ThreadDetailRow, ThreadListRow, ThreadMessageRow};
use cour::ingest::{ingest_decision, IngestOutcome, IngestReport};
use cour::maildir::{discover_mailboxes, mailbox_name, special_use_for_name, FoundMailbox};
use cour::sync::{finish_sync_run, sync_report, unconfigured_run, SyncAccountResult};

fn message(id: i64, from: Option<&str>, body: &str) -> ThreadMessageRow {
    ThreadMessageRow {
        message_id: id,
        subject: Some("Hello".to_string()),
        from_email: from.map(|s| s.to_string()),
        body_text: body.to_string(),
        sent_at: Some("2026-03-11T10:00:00Z".to_string()),
    }
}

fn detail() -> ThreadDetailRow {
    ThreadDetailRow {
        thread_id: 7,
        state: Some("waiting_on_me".to_string()),
        subject: Some("Hello".to_string()),
        messages: vec![
            message(1, Some("alice@example.com"), "Please   reply"),
            message(2, Some("bob@example.com"), "ok"),
            message(3, None, "no sender"),
            message(4, Some("alice@example.com"), "again"),
        ],
    }
}

#[test]
fn build_embedding_input_includes_subject() {
    let text = build_embedding_input(Some("Hello"), "World");
    assert!(text.contains("Subject: Hello"));
    assert!(text.contains("World"));
    assert_eq!(text, "Subject: Hello\n\nWorld");
    assert_eq!(build_embedding_input(Some("  "), " body "), "body");
}

#[test]
fn appends_embeddings_path_to_base_url() {
    assert_eq!(normalize_api_url("http://localhost:11434"), "http://localhost:11434/api/embeddings");
    assert_eq!(normalize_api_url("http://h/api/embeddings//"), "http://h/api/embeddings");
}

#[test]
fn enrichment_hashes_and_decisions() {
    let d = detail();
    let one = message_extractor_input(&d.messages[0]);
    let all = thread_extractor_input(&d);
    assert_eq!(one.messages.len(), 1);
    assert_eq!(all.messages.len(), 4);
    let h1 = content_hash(&one);
    let h2 = content_hash(&all);
    assert_eq!(h1.len(), 16);
    assert_ne!(h1, h2);
    assert_eq!(h1, content_hash(&one));
    let e = embedding_hash("body");
    assert_eq!(
        message_enrichment_step(true, true, &Some(h1.clone()), &Some(e.clone()), &h1, &e),
        MessageStep::Skip
    );
    assert_eq!(
        message_enrichment_step(true, false, &None, &None, &h1, &e),
        MessageStep::Enrich { extract: true, embed: false }
    );
    assert!(!thread_needs_enrichment(false, &None, &h2));
    assert!(thread_needs_enrichment(true, &Some(h1), &h2));
    let mut stats = EnrichmentStats::new();
    stats.record_message(true);
    stats.record_message(false);
    stats.record_thread(true);
    assert_eq!((stats.messages_enriched, stats.messages_skipped, stats.threads_enriched), (1, 1, 1));
}

#[test]
fn draft_command_texts() {
    let d = detail();
    let to = infer_recipients(&d);
    assert_eq!(to, vec!["alice@example.com".to_string()]);
    assert_eq!(join_recipients(&to), "alice@example.com");
    assert_eq!(join_recipients(&vec![]), "(none inferred)");
    assert_eq!(indent_block("a\r\nb\n\nc\n"), "  a\n  b\n  \n  c");
    assert_eq!(indent_block(""), "");
    let g = fallback_generation_result(&d);
    assert_eq!(g.provider, "disabled");
    assert_eq!(
        g.candidates[0].body,
        "Hi,\n\nThanks for the note. I saw your message about again. I'll follow up shortly with a fuller reply.\n\nBest,"
    );
    assert_eq!(
        g.candidates[0].rationale,
        vec!["Fallback draft created because AI drafting is unavailable for alice@example.com.".to_string()]
    );
    let report = draft_report(&g, 7, &to, &vec![41]);
    assert!(report.starts_with("drafting provider disabled; generated fallback draft\nthread: 7\nto: alice@example.com\ndraft 1 [41]\n  Hi,"));
}

#[test]
fn thread_and_brief_texts() {
    let d = detail();
    assert_eq!(
        collect_participants(&d.messages),
        vec!["alice@example.com".to_string(), "bob@example.com".to_string()]
    );
    let t = thread_text(&d);
    assert!(t.starts_with("Thread 7\nSubject: Hello\nState: waiting_on_me\nMessages: 4\nSummary: again\n\nParticipants\n- alice@example.com\n- bob@example.com\n"));
    assert!(t.contains("\nMessages\n01. Hello\nFrom: alice@example.com\nSent: 2026-03-11T10:00:00Z\nBody: Please reply\n\n02. Hello"));
    assert!(t.contains("03. Hello\nFrom: unknown\n"));
    let row = ThreadListRow {
        id: 5,
        subject: Some("Need Reply".to_string()),
        state: None,
        message_count: 2,
        latest_message_at: None,
    };
    let mut sections = vec![Vec::new(); 8];
    sections[0].push(row.clone());
    let b = brief_text(&sections, &vec![row], 3);
    assert!(b.starts_with("Needs reply\n- [5] Need Reply, 2 messages\n\n\nUrgent\n- None\n"));
    assert!(b.ends_with("\n\nRecent threads\n- [5] Need Reply (unknown, 2 messages)\n\nPending drafts: 3\n"));
}

#[test]
fn ask_texts() {
    assert_eq!(sanitize_snippet("  a\n b "), "a b");
    assert_eq!(sanitize_snippet("   "), "No snippet available");
    assert_eq!(ask_header("hello", false), "Ask: hello\nNo matching threads found.\n");
}

#[test]
fn doctor_report_counts_problems() {
    let config = AppConfig {
        accounts: vec![AccountConfig {
            name: "personal".to_string(),
            email_address: "ash@example.com".to_string(),
            maildir_root: "/missing".to_string(),
            sync_command: None,
            default: Some(true),
        }],
        ai: AiConfig {
            embedding: None,
            extraction: Some(ProviderConfig {
                provider: "ollama".to_string(),
                model: " ".to_string(),
                api_url: None,
                api_key_env: None,
                enabled: None,
            }),
            drafting: Some(ProviderConfig {
                provider: "openai".to_string(),
                model: "m".to_string(),
                api_url: None,
                api_key_env: None,
                enabled: Some(false),
            }),
        },
        smtp: vec![SmtpIdentityConfig {
            name: "default".to_string(),
            email_address: "ash@example.com".to_string(),
            host: "smtp.example.com".to_string(),
            port: 465,
            username: Some("ash".to_string()),
            password_env: Some("P".to_string()),
            tls_mode: None,
            default: Some(true),
        }],
    };
    assert_eq!(provider_missing_fields(config.ai.extraction.as_ref().unwrap()), vec!["model", "api_url"]);
    assert!(smtp_missing_fields(&config.smtp[0]).is_empty());
    let report = doctor_report("/c.toml", "/s", "/s/index.db", &config, &vec![false]);
    assert_eq!(
        report,
        "config: ok (/c.toml)\nstate_dir: ok (/s)\ndatabase: ok (/s/index.db)\nmaildir:personal: missing (/missing) -- create or reconfigure this path\nai:extraction: incomplete (model, api_url) -- set required config fields\nai:embedding: not configured\nai:drafting: disabled (provider=openai, model=m)\nsmtp:default: ok (smtp.example.com:465, sender=ash@example.com)\nsummary: 2 issue(s), network checks skipped"
    );
}

#[test]
fn maildir_names_and_order() {
    assert_eq!(mailbox_name(&vec![]), "Inbox");
    assert_eq!(mailbox_name(&vec![".Projects".to_string(), ".ClientA".to_string()]), "Projects/ClientA");
    assert_eq!(special_use_for_name("Sent Mail"), Some("sent".to_string()));
    assert_eq!(special_use_for_name("Projects"), None);
    let found = vec![
        FoundMailbox { path: "/r/.Sent".to_string(), parts: vec![".Sent".to_string()] },
        FoundMailbox { path: "/r".to_string(), parts: vec![] },
        FoundMailbox { path: "/r/.Projects".to_string(), parts: vec![".Projects".to_string()] },
    ];
    let boxes = discover_mailboxes(&found);
    let names: Vec<_> = boxes.iter().map(|b| b.name.as_str()).collect();
    assert_eq!(names, vec!["Inbox", "Projects", "Sent"]);
    assert_eq!(boxes[2].special_use.as_deref(), Some("sent"));
    assert_eq!(boxes[0].special_use.as_deref(), Some("inbox"));
}

#[test]
fn ingest_and_sync_reports() {
    assert_eq!(ingest_decision(None, 1, "h"), IngestOutcome::Imported);
    assert_eq!(ingest_decision(Some((1, "h".to_string())), 1, "h"), IngestOutcome::Skipped);
    assert_eq!(ingest_decision(Some((2, "h".to_string())), 1, "h"), IngestOutcome::Updated);
    let mut report = IngestReport::new();
    report.record(Some(IngestOutcome::Imported));
    report.record(None);
    assert_eq!(report.summary_line("personal"), "personal: imported=1, updated=0, skipped=0, failed=1");
    let run = unconfigured_run(1, 2);
    assert_eq!(run.stderr_text, "sync command not configured");
    match finish_sync_run("false".to_string(), 1, 2, Some(1), String::new(), "boom".to_string()) {
        Err(cour::error::AppError::SyncCommand(m)) => {
            assert_eq!(m, "command `false` failed with status Some(1): boom")
        }
        other => panic!("unexpected {other:?}"),
    }
    let ok = finish_sync_run("printf sync-ok".to_string(), 1, 2, Some(0), "sync-ok".to_string(), String::new())
        .expect("ok run");
    let text = sync_report(
        &vec![SyncAccountResult { account_name: "personal".to_string(), mailboxes: vec![], sync: ok }],
        false,
    );
    assert_eq!(text, "personal: sync ok (exit=Some(0), mailboxes=0)\nwatch: disabled");
}

#[test]
fn project_paths_use_home_defaults() {
    let paths = ProjectPaths::from_env_values(Some("/home/alice".to_string()), None, None, None)
        .expect("paths should resolve");
    assert_eq!(paths.config_file, "/home/alice/.config/cour/config.toml");
    assert_eq!(paths.state_dir, "/home/alice/.local/state/cour");
    assert_eq!(paths.cache_dir, "/home/alice/.cache/cour");
}

#[test]
fn project_paths_use_xdg_overrides() {
    let paths = ProjectPaths::from_env_values(
        Some("/home/alice".to_string()),
        Some("/tmp/xdg-config".to_string()),
        Some("/tmp/xdg-state".to_string()),
        Some("/tmp/xdg-cache".to_string()),
    )
    .expect("paths should resolve");
    assert_eq!(paths.config_file, "/tmp/xdg-config/cour/config.toml");
    assert_eq!(paths.state_dir, "/tmp/xdg-state/cour");
    assert_eq!(paths.cache_dir, "/tmp/xdg-cache/cour");
}

fn doctor_account(root: &str) -> AccountConfig {
    AccountConfig {
        name: "personal".to_string(),
        email_address: "ash@example.com".to_string(),
        maildir_root: root.to_string(),
        sync_command: None,
        default: Some(true),
    }
}

fn extraction_provider() -> ProviderConfig {
    ProviderConfig {
        provider: "openai-compatible".to_string(),
        model: "gpt-4o-mini".to_string(),
        api_url: Some("https://example.invalid/v1".to_string()),
        api_key_env: None,
        enabled: None,
    }
}

#[test]
fn reports_missing_maildir_root() {
    let config = AppConfig {
        accounts: vec![doctor_account("/tmp/root/does-not-exist")],
        ai: AiConfig { embedding: None, extraction: Some(extraction_provider()), drafting: None },
        smtp: vec![],
    };
    let output = doctor_report("/tmp/root/config.toml", "/tmp/root/state/cour", "/tmp/root/state/cour/index.db", &config, &vec![false]);
    assert!(output.contains("maildir:personal: missing"));
    assert!(output.contains("summary: 1 issue(s), network checks skipped"));
}

#[test]
fn reports_healthy_config() {
    let config = AppConfig {
        accounts: vec![doctor_account("/tmp/root/Maildir")],
        ai: AiConfig {
            embedding: Some(ProviderConfig {
                provider: "ollama".to_string(),
                model: "nomic-embed-text".to_string(),
                api_url: Some("http://localhost:11434".to_string()),
                api_key_env: None,
                enabled: None,
            }),
            extraction: Some(extraction_provider()),
            drafting: None,
        },
        smtp: vec![SmtpIdentityConfig {
            name: "default".to_string(),
            email_address: "ash@example.com".to_string(),
            host: "smtp.example.com".to_string(),
            port: 465,
            username: Some("ash@example.com".to_string()),
            password_env: Some("MAILFOR_SMTP_PASSWORD".to_string()),
            tls_mode: None,
            default: None,
        }],
    };
    let output = doctor_report("/tmp/root/config.toml", "/tmp/root/state/cour", "/tmp/root/state/cour/index.db", &config, &vec![true]);
    assert!(output.contains("config: ok"));
    assert!(output.contains("state_dir: ok"));
    assert!(output.contains("database: ok"));
    assert!(output.contains("maildir:personal: ok"));
    assert!(output.contains("ai:extraction: ok"));
    assert!(output.contains("ai:embedding: ok"));
    assert!(output.contains("smtp:default: ok"));
    assert!(output.contains("summary: 0 issue(s), network checks skipped"));
}

#[test]
fn config_errors_name_the_file() {
    assert_eq!(
        cour::config::config_read_error("/x.toml", "No such file").message(),
        "configuration error: failed to read config from /x.toml: No such file"
    );
    assert_eq!(
        cour::config::config_parse_error("/x.toml", "bad key").message(),
        "configuration error: failed to parse config from /x.toml: bad key"
    );
}

fn hashes(stored: Option<(&str, &str)>, current: (&str, &str)) -> MessageHashes {
    MessageHashes {
        stored_extraction: stored.map(|s| s.0.to_string()),
        stored_embedding: stored.map(|s| s.1.to_string()),
        extraction_hash: current.0.to_string(),
        embedding_hash: current.1.to_string(),
    }
}

#[test]
fn second_enrichment_of_an_unchanged_thread_skips_everything() {
    let first = plan_enrichment(true, true, &vec![hashes(None, ("x1", "e1")), hashes(None, ("x2", "e2"))], &None, "t");
    assert_eq!(first.steps, vec![MessageStep::Enrich { extract: true, embed: true }; 2]);
    assert!(first.thread);
    assert_eq!(
        first.stats,
        EnrichmentStats { messages_enriched: 2, messages_skipped: 0, threads_enriched: 1, threads_skipped: 0 }
    );
    let again = plan_enrichment(
        true,
        true,
        &vec![hashes(Some(("x1", "e1")), ("x1", "e1")), hashes(Some(("x2", "e2")), ("x2", "e2"))],
        &Some("t".to_string()),
        "t",
    );
    assert_eq!(again.steps, vec![MessageStep::Skip; 2]);
    assert!(!again.thread);
    assert_eq!(
        again.stats,
        EnrichmentStats { messages_enriched: 0, messages_skipped: 2, threads_enriched: 0, threads_skipped: 1 }
    );
    let changed = plan_enrichment(true, false, &vec![hashes(Some(("x1", "e1")), ("x9", "e1"))], &None, "t");
    assert_eq!(changed.steps, vec![MessageStep::Enrich { extract: true, embed: false }]);
    assert_eq!(changed.stats.messages_enriched, 1);
}
