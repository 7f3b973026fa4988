use cour::commands::read::{format_message_count, summarize_body};
use cour::commands::{parse_id, subcommand_names, Commands};
use cour::error::AppError;

#[test]
fn help_lists_planned_subcommands() {
    let mut command = clap::Command::new("cour").about("Local-first AI mail client");
    for name in subcommand_names() {
        command = command.subcommand(clap::Command::new(name));
    }
    let help = command.render_long_help().to_string();
    for expected in [
        "sync", "reindex", "brief", "ask", "thread", "draft", "approve", "send", "doctor", "tui",
    ] {
        assert!(help.contains(expected), "missing subcommand {expected} in help: {help}");
    }
}

#[test]
fn enum_contains_brief_variant() {
    let variant = Commands::Brief;
    assert!(matches!(variant, Commands::Brief));
    assert_eq!(variant.name(), "brief");
}

#[test]
fn parse_id_accepts_and_rejects() {
    assert_eq!(parse_id("thread", "42").unwrap(), 42);
    assert_eq!(parse_id("thread", "-7").unwrap(), -7);
    assert_eq!(parse_id("thread", "+9").unwrap(), 9);
    assert_eq!(parse_id("draft", "-9223372036854775808").unwrap(), i64::MIN);
    match parse_id("draft", "x1") {
        Err(AppError::Config(m)) => assert_eq!(m, "invalid draft id: invalid digit found in string"),
        other => panic!("unexpected {other:?}"),
    }
    match parse_id("thread", "") {
        Err(AppError::Config(m)) => {
            assert_eq!(m, "invalid thread id: cannot parse integer from empty string")
        }
        other => panic!("unexpected {other:?}"),
    }
    match parse_id("thread", "99999999999999999999") {
        Err(AppError::Config(m)) => {
            assert_eq!(m, "invalid thread id: number too large to fit in target type")
        }
        other => panic!("unexpected {other:?}"),
    }
    match parse_id("thread", "-99999999999999999999") {
        Err(AppError::Config(m)) => {
            assert_eq!(m, "invalid thread id: number too small to fit in target type")
        }
        other => panic!("unexpected {other:?}"),
    }
    for raw in ["42", "-7", "+9", "", "x1", "-", "+", "12a", "99999999999999999999"] {
        let ours = parse_id("t", raw).ok();
        assert_eq!(ours, raw.parse::<i64>().ok(), "{raw}");
    }
}

#[test]
fn message_count_and_body_summary() {
    assert_eq!(format_message_count(1), "");
    assert_eq!(format_message_count(3), ", 3 messages");
    assert_eq!(summarize_body("  hello \n  world "), "hello world");
    assert_eq!(summarize_body("   "), "(empty body)");
    let long = "x".repeat(130);
    let summary = summarize_body(&long);
    assert_eq!(summary.chars().count(), 120);
    assert!(summary.ends_with("..."));
}

#[test]
fn missing_config_help_names_the_path_and_error() {
    let error = AppError::Config("failed to read config from /x/config.toml: not found".to_string());
    let text = cour::commands::missing_config_help(Some("/x/config.toml"), &error);
    assert!(text.starts_with("cour — local-first AI mail client\n\nNo configuration found.\n\nExpected config at: /x/config.toml\n\n"));
    assert!(text.contains("  cat > ~/.config/cour/config.toml << 'EOF'\n"));
    assert!(text.ends_with("Then run: cour doctor\n\nError: configuration error: failed to read config from /x/config.toml: not found\n"));
    let bare = cour::commands::missing_config_help(None, &error);
    assert!(!bare.contains("Expected config at"));
}
