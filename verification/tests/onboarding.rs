use cour::ui::keys::KeyCode;
use cour::ui::onboarding::{
    config_toml, detect_mail_provider, handle_key, maildir_create_error, maildir_root_problem,
    maildir_subdirs, slugify_maildir_label, DraftAccountConfig,
    DraftAiConfig, DraftConfigModel, DraftProviderConfig, DraftSmtpIdentity, OnboardingRequest,
    OnboardingState, OnboardingStep, StepEnv,
};

fn offline() -> StepEnv {
    StepEnv { home: None, outcome: Ok(()) }
}

#[test]
fn account_basics_starts_with_account_name_selected() {
    let mut state = OnboardingState::new("/tmp/cour.toml".to_string());
    state.try_advance(&offline());
    assert_eq!(state.current_step, OnboardingStep::AccountBasics);
    assert_eq!(state.selected_field, 0);
    assert_eq!(state.field_buffers.account_name, "");
}

#[test]
fn account_basics_detects_purelymail_defaults() {
    let mut state = OnboardingState::new("/tmp/cour.toml".to_string());
    state.current_step = OnboardingStep::AccountBasics;
    state.field_buffers.account_name = "Work".to_string();
    state.field_buffers.email_address = "me@purelymail.com".to_string();

    state.capture_current_step(&offline());

    assert_eq!(state.field_buffers.smtp_host, "smtp.purelymail.com");
    assert_eq!(state.field_buffers.smtp_port, "465");
    assert_eq!(state.field_buffers.smtp_tls_mode, "tls");
    assert_eq!(state.field_buffers.smtp_username, "me@purelymail.com");
}

#[test]
fn blank_smtp_host_keeps_sending_unconfigured() {
    let mut state = OnboardingState::new("/tmp/cour.toml".to_string());
    state.current_step = OnboardingStep::SmtpIdentity;
    state.field_buffers.smtp_name = "Personal".to_string();
    state.field_buffers.smtp_email_address = "me@example.com".to_string();
    state.field_buffers.smtp_host = String::new();

    state.capture_current_step(&offline());

    assert!(state.draft_config.smtp.is_empty());
}

#[test]
fn builds_provider_config_without_storing_secret_value() {
    let mut state = OnboardingState::new("/tmp/cour.toml".to_string());
    state.current_step = OnboardingStep::AiProviders;
    state.field_buffers.ai_provider = "openai-compatible".to_string();
    state.field_buffers.ai_model = "gpt-4o-mini".to_string();
    state.field_buffers.ai_api_url = "https://api.openai.com/v1".to_string();
    state.field_buffers.ai_api_key_env = "OPENAI_API_KEY".to_string();

    state.capture_current_step(&offline());

    assert_eq!(state.draft_config.ai.embedding.provider, "openai-compatible");
    assert_eq!(state.draft_config.ai.embedding.model, "gpt-4o-mini");
    assert_eq!(state.draft_config.ai.embedding.api_key_env, "OPENAI_API_KEY");
    assert_ne!(state.draft_config.ai.embedding.api_key_env, "sk-secret-value");
}

#[test]
fn tab_navigation_changes_which_field_receives_input() {
    let mut state = OnboardingState::new("/tmp/cour.toml".to_string());
    state.current_step = OnboardingStep::AccountBasics;
    state.selected_field = 0;
    let env = offline();

    handle_key(&mut state, KeyCode::Char('W'), &env);
    handle_key(&mut state, KeyCode::Char('o'), &env);
    handle_key(&mut state, KeyCode::Char('r'), &env);
    handle_key(&mut state, KeyCode::Char('k'), &env);
    assert_eq!(state.field_buffers.account_name, "Work");
    assert_eq!(state.field_buffers.email_address, "");

    handle_key(&mut state, KeyCode::Tab, &env);
    handle_key(&mut state, KeyCode::Char('m'), &env);
    handle_key(&mut state, KeyCode::Char('e'), &env);
    handle_key(&mut state, KeyCode::Char('@'), &env);

    assert_eq!(state.field_buffers.account_name, "Work");
    assert_eq!(state.field_buffers.email_address, "me@");
}

#[test]
fn enter_moves_between_fields_before_advancing_step() {
    let mut state = OnboardingState::new("/tmp/cour.toml".to_string());
    state.current_step = OnboardingStep::AccountBasics;
    state.selected_field = 0;
    state.field_buffers.account_name = "Work".to_string();
    state.field_buffers.email_address = "me@example.com".to_string();
    let env = offline();

    handle_key(&mut state, KeyCode::Enter, &env);
    assert_eq!(state.current_step, OnboardingStep::AccountBasics);
    assert_eq!(state.selected_field, 1);

    handle_key(&mut state, KeyCode::Enter, &env);
    assert_eq!(state.current_step, OnboardingStep::MaildirPath);
}

#[test]
fn welcome_step_ignores_text_input() {
    let mut state = OnboardingState::new("/tmp/cour.toml".to_string());
    handle_key(&mut state, KeyCode::Char('x'), &offline());
    assert_eq!(state.current_step, OnboardingStep::Welcome);
    assert_eq!(state.field_buffers.account_name, "");
}

fn walk_to_setup_mode(state: &mut OnboardingState) {
    state.try_advance(&offline());
    state.field_buffers.account_name = "Personal".to_string();
    state.field_buffers.email_address = "me@example.com".to_string();
    state.try_advance(&offline());
    state.field_buffers.maildir_root = "/tmp/cour-mail".to_string();
    assert!(matches!(state.pending_request(), OnboardingRequest::CreateMaildir(ref r) if r == "/tmp/cour-mail"));
    state.try_advance(&offline());
}

#[test]
fn simple_setup_skips_advanced_steps() {
    let mut state = OnboardingState::new("/tmp/cour.toml".to_string());
    walk_to_setup_mode(&mut state);
    assert_eq!(state.current_step, OnboardingStep::SetupMode);
    assert_eq!(state.selected_field, 0);
    state.try_advance(&offline());
    assert_eq!(state.current_step, OnboardingStep::Review);
    assert!(!state.advanced_setup);
    assert!(state.draft_config.smtp.is_empty());
    assert!(state.draft_config.accounts[0].sync_command.is_empty());
    assert_eq!(state.draft_config.accounts[0].maildir_root, "/tmp/cour-mail");
}

#[test]
fn advanced_setup_includes_advanced_steps() {
    let mut state = OnboardingState::new("/tmp/cour.toml".to_string());
    walk_to_setup_mode(&mut state);
    state.selected_field = 1;
    state.try_advance(&offline());
    assert_eq!(state.current_step, OnboardingStep::SyncCommand);
    assert!(state.advanced_setup);
    handle_key(&mut state, KeyCode::Esc, &offline());
    assert_eq!(state.current_step, OnboardingStep::SetupMode);
}

#[test]
fn validation_errors_keep_the_step() {
    let mut state = OnboardingState::new("/tmp/cour.toml".to_string());
    state.try_advance(&offline());
    state.field_buffers.account_name = "  ".to_string();
    state.field_buffers.email_address = "nobody".to_string();
    state.try_advance(&offline());
    assert_eq!(state.current_step, OnboardingStep::AccountBasics);
    assert_eq!(
        state.validation_errors,
        vec!["Account name is required.".to_string(), "Email address must contain @.".to_string()]
    );
    state.current_step = OnboardingStep::MaildirPath;
    state.field_buffers.maildir_root = "/x".to_string();
    state.try_advance(&StepEnv { home: None, outcome: Err("Maildir root must be a directory path.".to_string()) });
    assert_eq!(state.current_step, OnboardingStep::MaildirPath);
    assert_eq!(state.validation_errors, vec!["Maildir root must be a directory path.".to_string()]);
}

#[test]
fn account_basics_prefills_maildir_and_detected_smtp_settings() {
    let mut state = OnboardingState::new("/tmp/cour.toml".to_string());
    state.current_step = OnboardingStep::AccountBasics;
    state.field_buffers.account_name = "Personal Inbox".to_string();
    state.field_buffers.email_address = "me@gmail.com".to_string();
    state.capture_current_step(&StepEnv { home: Some("/home/me".to_string()), outcome: Ok(()) });
    assert_eq!(state.field_buffers.maildir_root, "/home/me/Mail/personal-inbox");
    assert_eq!(state.field_buffers.smtp_host, "smtp.gmail.com");
    assert_eq!(state.field_buffers.smtp_port, "465");
    assert_eq!(state.field_buffers.smtp_username, "me@gmail.com");
}

#[test]
fn provider_detection_and_slugs() {
    let outlook = detect_mail_provider("Me@Hotmail.COM").expect("outlook");
    assert_eq!(outlook.smtp_host, "smtp.office365.com");
    assert_eq!(outlook.smtp_port, "587");
    assert_eq!(outlook.tls_mode, "starttls");
    assert!(detect_mail_provider("nobody").is_none());
    assert!(detect_mail_provider("me@example.com").is_none());
    assert_eq!(slugify_maildir_label("  Personal   Inbox!! "), "personal-inbox");
    assert_eq!(slugify_maildir_label("***"), "mail");
}

#[test]
fn writes_valid_config_toml_from_completed_onboarding() {
    let draft = DraftConfigModel {
        accounts: vec![DraftAccountConfig {
            name: "personal".to_string(),
            email_address: "me@example.com".to_string(),
            maildir_root: "/tmp/Maildir".to_string(),
            sync_command: "mbsync personal".to_string(),
            default: true,
        }],
        ai: DraftAiConfig {
            embedding: DraftProviderConfig {
                provider: "ollama".to_string(),
                model: "nomic-embed-text".to_string(),
                api_url: "http://localhost:11434".to_string(),
                api_key_env: String::new(),
                enabled: true,
            },
            extraction: DraftProviderConfig {
                provider: "disabled".to_string(),
                model: String::new(),
                api_url: String::new(),
                api_key_env: String::new(),
                enabled: false,
            },
            drafting: DraftProviderConfig {
                provider: "openai-compatible".to_string(),
                model: "gpt-4o-mini".to_string(),
                api_url: "https://api.openai.com/v1".to_string(),
                api_key_env: "OPENAI_API_KEY".to_string(),
                enabled: true,
            },
        },
        smtp: vec![DraftSmtpIdentity {
            name: "default".to_string(),
            email_address: "me@example.com".to_string(),
            host: "smtp.example.com".to_string(),
            port: "not-a-port".to_string(),
            username: "me@example.com".to_string(),
            password_env: "COUR_SMTP_PASSWORD".to_string(),
            tls_mode: "tls".to_string(),
            default: true,
        }],
    };
    let text = config_toml(&draft);
    let expected = "accounts = [\n  { name = \"personal\", email_address = \"me@example.com\", maildir_root = \"/tmp/Maildir\", sync_command = \"mbsync personal\", default = true }\n]\n\n[ai.embedding]\nprovider = \"ollama\"\nmodel = \"nomic-embed-text\"\napi_url = \"http://localhost:11434\"\nenabled = true\n\n[ai.drafting]\nprovider = \"openai-compatible\"\nmodel = \"gpt-4o-mini\"\napi_url = \"https://api.openai.com/v1\"\napi_key_env = \"OPENAI_API_KEY\"\nenabled = true\n\n[[smtp]]\nname = \"default\"\nemail_address = \"me@example.com\"\nhost = \"smtp.example.com\"\nport = 465\nusername = \"me@example.com\"\npassword_env = \"COUR_SMTP_PASSWORD\"\ntls_mode = \"tls\"\ndefault = true\n";
    assert_eq!(text, expected);
    let parsed: toml::Value = toml::from_str(&text).expect("valid toml");
    assert_eq!(parsed["accounts"][0]["name"].as_str(), Some("personal"));
}

#[test]
fn review_step_writes_config_and_reports() {
    let mut state = OnboardingState::new("/tmp/cour.toml".to_string());
    state.current_step = OnboardingStep::Review;
    match state.pending_request() {
        OnboardingRequest::WriteConfig { path, contents } => {
            assert_eq!(path, "/tmp/cour.toml");
            assert_eq!(contents, "accounts = []\n");
        }
        _ => panic!("expected a write request"),
    }
    state.try_advance(&offline());
    assert_eq!(state.current_step, OnboardingStep::Complete);
    assert_eq!(
        state.status_message.as_deref(),
        Some("Wrote config to /tmp/cour.toml. Next: cour doctor, cour reindex, then set your AI/SMTP env vars.")
    );
}

#[test]
fn maildir_root_checks_and_messages() {
    assert_eq!(
        maildir_root_problem(true, false),
        Some("Maildir root must be a directory path.".to_string())
    );
    assert_eq!(maildir_root_problem(true, true), None);
    assert_eq!(maildir_root_problem(false, false), None);
    assert_eq!(
        maildir_create_error(Some("cur"), "denied"),
        "Failed to create Maildir cur/ directory: denied"
    );
    assert_eq!(maildir_create_error(None, "denied"), "Failed to create Maildir root: denied");
    assert_eq!(maildir_subdirs(), vec!["cur", "new", "tmp"]);
}
