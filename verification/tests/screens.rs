use cour::ai::extract::{DraftGeneratorInput, ExtractMessageInput, ExtractorInput};
use cour::ai::openai::{build_draft_request, build_extraction_request};
use cour::index::drafts::{draft_not_found, send_delegated_message};
use cour::index::query::{
    lexical_search_query, DraftReviewRow, LexicalSearchFilters, SqlParam, ThreadDetailRow,
    ThreadListRow, ThreadMessageRow,
};
use cour::index::repo::{
    merge_message_ai, message_columns, EmbeddingSource, ExtractionTexts, MessageAiTexts,
};
use cour::model::{ParsedAddress, ParsedMessage};
use cour::text::{pad_right, text_lines};
use cour::ui::brief_screen::{pending_drafts_line, screen_sections, section_lines, thread_tone};
use cour::ui::command_palette::CommandPaletteState;
use cour::ui::list_screens::{
    draft_preview_lines, draft_row, filter_rail_lines, inbox_row, palette_input_line,
    palette_rows, pending_drafts_text, search_prompt_line, section_title, top_bar_line,
};
use cour::ui::workspace::Workspace;
use cour::ui::onboarding::{OnboardingState, OnboardingStep};
use cour::ui::onboarding_screen::{body_title, choice_row, field_row, footer_line, header_lines, step_lines};
use cour::ui::screen::{ScreenLine, Tone};
use cour::ui::thread_screen::{conversation_lines, metadata_lines, sorted_sender_list};

fn pieces(line: &ScreenLine) -> Vec<(Tone, String)> {
    line.pieces.iter().map(|p| (p.tone, p.text.clone())).collect()
}

fn text(line: &ScreenLine) -> String {
    line.pieces.iter().map(|p| p.text.as_str()).collect()
}

fn message(id: i64, from: Option<&str>, body: &str) -> ThreadMessageRow {
    ThreadMessageRow {
        message_id: id,
        subject: Some("Plans".to_string()),
        from_email: from.map(|s| s.to_string()),
        body_text: body.to_string(),
        sent_at: Some("2026-03-11T10:00:00Z".to_string()),
    }
}

fn thread_row(id: i64, state: Option<&str>, count: i64) -> ThreadListRow {
    ThreadListRow {
        id,
        subject: Some("Lunch".to_string()),
        state: state.map(|s| s.to_string()),
        message_count: count,
        latest_message_at: Some("2026-03-11T10:00:00Z".to_string()),
    }
}

#[test]
fn text_lines_follows_str_lines() {
    assert_eq!(text_lines("foo\r\nbar\n\nbaz\r"), vec!["foo", "bar", "", "baz\r"]);
    assert_eq!(text_lines("a\n"), vec!["a"]);
    assert!(text_lines("").is_empty());
    for sample in ["x\r\n\r\ny", "\n\n", "one", "tail\r\n"] {
        let expected: Vec<String> = sample.lines().map(|l| l.to_string()).collect();
        assert_eq!(text_lines(sample), expected);
    }
}

#[test]
fn pad_right_pads_by_characters() {
    assert_eq!(pad_right("ab", 5), "ab   ");
    assert_eq!(pad_right("—é", 3), "—é ");
    assert_eq!(pad_right("longer", 3), "longer");
}

#[test]
fn field_rows_mark_the_selected_field() {
    assert_eq!(
        pieces(&field_row("Model", "  llama  ", true)),
        vec![
            (Tone::Accent, "› ".to_string()),
            (Tone::Accent, "Model         ".to_string()),
            (Tone::Dim, " ".to_string()),
            (Tone::Text, "llama█".to_string()),
        ]
    );
    assert_eq!(
        pieces(&field_row("Model", "   ", false)),
        vec![
            (Tone::Dim, "  ".to_string()),
            (Tone::Muted, "Model         ".to_string()),
            (Tone::Dim, " ".to_string()),
            (Tone::Text, "(empty)".to_string()),
        ]
    );
    assert_eq!(text(&choice_row("Simple", "now", true)), "◉ Simple — now");
    assert_eq!(text(&choice_row("Simple", "now", false)), "○ Simple — now");
}

#[test]
fn welcome_screen_ends_with_validation_messages() {
    let mut state = OnboardingState::new("/tmp/cour.toml".to_string());
    let plain = step_lines(&state);
    assert_eq!(plain.len(), 10);
    assert_eq!(pieces(&plain[9]), vec![(Tone::Accent, "Press Enter to continue.".to_string())]);

    state.validation_errors = vec!["Email is required.".to_string()];
    let lines = step_lines(&state);
    assert_eq!(lines.len(), 13);
    assert_eq!(text(&lines[10]), "");
    assert_eq!(pieces(&lines[11]), vec![(Tone::Error, "Validation".to_string())]);
    assert_eq!(pieces(&lines[12]), vec![(Tone::Error, "• Email is required.".to_string())]);
}

#[test]
fn sending_screen_notes_a_detected_provider() {
    let mut state = OnboardingState::new("/tmp/cour.toml".to_string());
    state.current_step = OnboardingStep::SmtpIdentity;
    state.field_buffers.email_address = "me@gmail.com".to_string();
    let lines = step_lines(&state);
    assert_eq!(lines.len(), 11);
    assert_eq!(
        text(&lines[8]),
        "cour detected Gmail settings and prefilled the SMTP host, port, and TLS mode."
    );
    state.field_buffers.email_address = "me@example.org".to_string();
    assert_eq!(step_lines(&state).len(), 10);
}

#[test]
fn complete_screen_names_the_config_path() {
    let mut state = OnboardingState::new("/tmp/cour.toml".to_string());
    state.current_step = OnboardingStep::Complete;
    let lines = step_lines(&state);
    assert_eq!(text(&lines[2]), "Config written to /tmp/cour.toml");
}

#[test]
fn conversation_pane_lists_messages_between_rules() {
    let detail = ThreadDetailRow {
        thread_id: 3,
        state: None,
        subject: None,
        messages: vec![message(1, Some("a@x.org"), "hi\r\nthere"), message(2, None, "")],
    };
    let lines = conversation_lines(&detail);
    let all: Vec<String> = lines.iter().map(text).collect();
    assert_eq!(
        all,
        vec![
            "Thread: (no subject)",
            "",
            "From: a@x.org",
            "Date: 2026-03-11T10:00:00Z",
            "",
            "hi",
            "there",
            "",
            "────────────────────────────────────────",
            "From: unknown",
            "Date: 2026-03-11T10:00:00Z",
            "",
            "",
        ]
    );
    assert_eq!(lines[0].pieces[0].tone, Tone::Title);
    assert!(lines[1].pieces.is_empty());
}

#[test]
fn metadata_pane_lists_senders_once_in_order() {
    let detail = ThreadDetailRow {
        thread_id: 3,
        state: Some("waiting_on_me".to_string()),
        subject: None,
        messages: vec![
            message(1, Some("zed@x.org"), ""),
            message(2, Some("amy@x.org"), ""),
            message(3, None, ""),
            message(4, Some("zed@x.org"), ""),
        ],
    };
    assert_eq!(sorted_sender_list(&detail.messages), vec!["amy@x.org", "zed@x.org"]);
    let lines = metadata_lines(&detail);
    let all: Vec<String> = lines.iter().map(text).collect();
    assert_eq!(all[2], "State: waiting_on_me");
    assert_eq!(all[3], "Messages: 4");
    assert_eq!(all[5], "Participants");
    assert_eq!(all[6], "  amy@x.org");
    assert_eq!(all[7], "  zed@x.org");
    assert_eq!(all.len(), 17);

    let empty = ThreadDetailRow { thread_id: 4, state: None, subject: None, messages: vec![] };
    let lines = metadata_lines(&empty);
    assert_eq!(text(&lines[2]), "State: unknown");
    assert_eq!(text(&lines[6]), "  — none");
}

#[test]
fn brief_sections_show_rows_or_none() {
    assert_eq!(screen_sections().len(), 5);
    assert_eq!(screen_sections()[2], ("Waiting on Them", "waiting_on_them"));
    let none = section_lines("Urgent", &vec![]);
    assert_eq!(none.len(), 2);
    assert_eq!(pieces(&none[1]), vec![(Tone::Dim, "  — none".to_string())]);
    let rows = section_lines(
        "Needs Reply",
        &vec![thread_row(5, Some("waiting_on_me"), 3), thread_row(6, None, 1)],
    );
    assert_eq!(
        pieces(&rows[1]),
        vec![
            (Tone::Dim, "  [5] ".to_string()),
            (Tone::NeedsReply, "Lunch".to_string()),
            (Tone::Dim, "  (3 messages)".to_string()),
        ]
    );
    assert_eq!(text(&rows[2]), "  [6] Lunch");
    assert_eq!(thread_tone(&Some("low_value".to_string())), Tone::LowValue);
    assert_eq!(text(&pending_drafts_line(2)), "Pending drafts: 2");
}

#[test]
fn inbox_rows_and_filter_rail() {
    let row = inbox_row(&thread_row(9, Some("waiting_on_them"), 2));
    assert_eq!(
        pieces(&row),
        vec![
            (Tone::Waiting, " waiting_on_them ".to_string()),
            (Tone::Text, "Lunch".to_string()),
            (Tone::Dim, " (2)".to_string()),
        ]
    );
    assert_eq!(text(&inbox_row(&thread_row(9, None, 1))), " ?              Lunch");
    let rail = filter_rail_lines(&Some("low_value".to_string()));
    let tones: Vec<Tone> = rail.iter().map(|l| l.pieces[0].tone).collect();
    assert_eq!(tones, vec![Tone::Muted, Tone::Muted, Tone::Muted, Tone::Active]);
    assert_eq!(text(&rail[1]), " Needs Reply");
    assert_eq!(filter_rail_lines(&None)[0].pieces[0].tone, Tone::Active);
}

#[test]
fn draft_rows_and_preview() {
    let draft = DraftReviewRow {
        id: 12,
        thread_id: Some(3),
        status: "pending".to_string(),
        source: "fallback".to_string(),
        provider: None,
        model: Some("m1".to_string()),
        has_rationale: true,
        approval_status: "pending".to_string(),
        created_at: "2026-03-11T10:00:00Z".to_string(),
        updated_at: "2026-03-11T10:00:00Z".to_string(),
        approved_at: None,
        sent_at: None,
        latest_audit_at: None,
        latest_approval_audit_at: None,
        latest_send_audit_at: None,
    };
    assert_eq!(text(&draft_row(&draft)), "[12] pending   thread #3  m1  2026-03-11 10:00");
    let preview: Vec<String> = draft_preview_lines(&draft).iter().map(text).collect();
    assert_eq!(preview[0], "status: pending");
    assert_eq!(preview[1], "thread: 3");
    assert_eq!(preview[3], "provider: -");
    assert_eq!(preview[5], "rationale: yes");
    assert_eq!(preview[9], "Draft body unavailable");
}

#[test]
fn palette_rows_highlight_the_selection() {
    let mut palette = CommandPaletteState::new();
    palette.open();
    palette.push_filter('d');
    palette.push_filter('r');
    let commands = palette.filtered_commands();
    let rows = palette_rows(&commands, 0);
    assert_eq!(rows.len(), 1);
    assert_eq!(
        pieces(&rows[0]),
        vec![
            (Tone::Selection, "Go to Drafts".to_string()),
            (Tone::Dim, " — Switch to the drafts workspace".to_string()),
        ]
    );
    assert_eq!(text(&palette_input_line("dr")), ": dr█");
}

#[test]
fn search_prompt_shows_hint_or_query() {
    assert_eq!(text(&search_prompt_line("", false)), "/ Type a query…");
    assert_eq!(text(&search_prompt_line("", true)), "/  █");
    assert_eq!(text(&search_prompt_line("rent", true)), "/ rent█");
}

#[test]
fn message_row_columns_come_from_the_parsed_message() {
    let parsed = ParsedMessage {
        file_path: "/m/cur/1".to_string(),
        message_id_header: Some("<1@x>".to_string()),
        in_reply_to: None,
        references: vec!["<0@x>".to_string()],
        subject: Some("Hi".to_string()),
        from: Some(ParsedAddress {
            display_name: Some("Ann".to_string()),
            email: "ann@x.org".to_string(),
        }),
        to: vec![
            ParsedAddress { display_name: None, email: "bo@x.org".to_string() },
            ParsedAddress { display_name: None, email: "cy@x.org".to_string() },
        ],
        cc: vec![],
        sent_at: None,
        body_text: "hello".to_string(),
        body_html: None,
        snippet: "hello".to_string(),
        parse_hash: "abc".to_string(),
        file_mtime: 1,
    };
    let cols = message_columns(&parsed);
    assert_eq!(cols.references_json, "[\"<0@x>\"]");
    assert_eq!(cols.from_name.as_deref(), Some("Ann"));
    assert_eq!(cols.from_email.as_deref(), Some("ann@x.org"));
    assert_eq!(cols.to_json, "[\"bo@x.org\",\"cy@x.org\"]");
    assert_eq!(cols.cc_json, "[]");
    assert_eq!(cols.flags_json, "[]");
}

#[test]
fn enrichment_merge_keeps_stored_values_where_nothing_new_arrived() {
    let stored = MessageAiTexts {
        summary: Some("old summary".to_string()),
        action: Some("reply".to_string()),
        provider: Some("openai".to_string()),
        model: Some("gpt".to_string()),
        entities_json: Some("[\"Ann\"]".to_string()),
        deadlines_json: Some("oldhash".to_string()),
        enriched_at: Some("2026-01-01 00:00:00".to_string()),
    };
    let embedding = EmbeddingSource { provider: "ollama".to_string(), model: "nomic".to_string() };
    let merged = merge_message_ai(None, Some(&embedding), Some("newhash".to_string()), Some(&stored));
    assert_eq!(merged.summary.as_deref(), Some("old summary"));
    assert_eq!(merged.provider.as_deref(), Some("ollama"));
    assert_eq!(merged.model.as_deref(), Some("nomic"));
    assert_eq!(merged.entities_json.as_deref(), Some("[\"Ann\"]"));
    assert_eq!(merged.deadlines_json.as_deref(), Some("newhash"));
    assert_eq!(merged.enriched_at, None);

    let extraction = ExtractionTexts {
        provider: "openai".to_string(),
        model: "gpt-4".to_string(),
        summary: "new".to_string(),
        action: "archive".to_string(),
        entities: vec!["Bo".to_string()],
    };
    let merged = merge_message_ai(Some(&extraction), None, None, Some(&stored));
    assert_eq!(merged.summary.as_deref(), Some("new"));
    assert_eq!(merged.model.as_deref(), Some("gpt-4"));
    assert_eq!(merged.entities_json.as_deref(), Some("[\"Bo\"]"));
    assert_eq!(merged.deadlines_json.as_deref(), Some("oldhash"));

    let untouched = merge_message_ai(None, None, None, Some(&stored));
    assert_eq!(untouched, stored);
    let nothing = merge_message_ai(None, None, None, None);
    assert_eq!(nothing.summary, None);
}

#[test]
fn action_section_titles_star_the_focus() {
    assert_eq!(section_title("Needs Reply", true), " Needs Reply * ");
    assert_eq!(section_title("Needs Reply", false), " Needs Reply ");
    assert_eq!(pending_drafts_text(4), "Pending Drafts: 4");
}

#[test]
fn lexical_query_adds_a_condition_per_filter() {
    let (sql, params) = lexical_search_query("rent", &LexicalSearchFilters::none(), 10);
    assert!(sql.ends_with("WHERE message_fts MATCH ? ORDER BY lexical_score ASC, COALESCE(m.sent_at, '') DESC, m.id DESC\n          LIMIT ?"));
    assert_eq!(params, vec![SqlParam::Text("rent".to_string()), SqlParam::Int(10)]);
    let filters = LexicalSearchFilters {
        account_id: Some(1),
        mailbox_id: None,
        sent_after: Some("2026-01-01".to_string()),
        sent_before: None,
    };
    let (sql, params) = lexical_search_query("rent", &filters, 5);
    assert!(sql.contains("MATCH ? AND m.account_id = ? AND m.sent_at >= ? ORDER BY"));
    assert_eq!(
        params,
        vec![
            SqlParam::Text("rent".to_string()),
            SqlParam::Int(1),
            SqlParam::Text("2026-01-01".to_string()),
            SqlParam::Int(5),
        ]
    );
}

#[test]
fn draft_messages_name_the_draft() {
    assert_eq!(draft_not_found(8).message(), "configuration error: draft 8 not found");
    assert_eq!(
        send_delegated_message(8),
        "send delegated for draft 8; SMTP delivery not wired yet"
    );
}

#[test]
fn chat_prompts_use_the_debug_forms_of_their_inputs() {
    let messages = vec![
        ExtractMessageInput {
            from_email: Some("a@x.org".to_string()),
            subject: None,
            body_text: "line \"one\"\nline two".to_string(),
        },
        ExtractMessageInput { from_email: None, subject: Some("Re: Q3".to_string()), body_text: String::new() },
    ];
    let input = ExtractorInput { subject: Some("Q3 plan".to_string()), messages: messages.clone() };
    let request = build_extraction_request("gpt-x", &input);
    assert_eq!(request.model, "gpt-x");
    assert_eq!(
        request.messages[0].content,
        format!(
            "Extract structured JSON from this thread. Subject: {:?}. Messages: {:?}",
            input.subject, input.messages
        )
    );
    assert_eq!(request.response_format.as_ref().map(|f| f.format_type.as_str()), Some("json_object"));

    let draft = DraftGeneratorInput {
        subject: None,
        latest_ask: Some("Can you confirm?".to_string()),
        messages,
        tone_hint: None,
    };
    let request = build_draft_request("gpt-x", &draft);
    assert_eq!(
        request.messages[0].content,
        format!(
            "Draft a reply. Subject: {:?}. Latest ask: {:?}. Messages: {:?}. Tone: {:?}",
            draft.subject, draft.latest_ask, draft.messages, draft.tone_hint
        )
    );
    let empty = ExtractorInput { subject: None, messages: vec![] };
    assert_eq!(
        build_extraction_request("m", &empty).messages[0].content,
        "Extract structured JSON from this thread. Subject: None. Messages: []"
    );
}

#[test]
fn wizard_frame_and_top_bar() {
    let mut state = OnboardingState::new("/home/a/.config/cour/config.toml".to_string());
    let header = header_lines(&state);
    assert_eq!(text(&header[0]), " cour setup · local-first onboarding wizard");
    assert_eq!(text(&header[1]), "Step: Welcome  Config path: /home/a/.config/cour/config.toml");
    assert_eq!(body_title(OnboardingStep::Review), " Review ");
    assert_eq!(footer_line(&state), "Enter continue  q quit");
    state.status_message = Some("Wrote config".to_string());
    assert_eq!(footer_line(&state), "Wrote config");

    let bar = top_bar_line(Workspace::Search);
    assert_eq!(text(&bar), " cour │  brief  inbox  thread  search  actions  drafts ");
    let active: Vec<String> = bar
        .pieces
        .iter()
        .filter(|p| p.tone == Tone::Active)
        .map(|p| p.text.clone())
        .collect();
    assert_eq!(active, vec![" search ".to_string()]);
}

#[test]
fn default_theme_styles_each_tone() {
    use_theme_checks();
}

fn use_theme_checks() {
    let theme = cour::ui::theme::Theme::default();
    let accent = cour::ui::theme::Rgb { r: 100, g: 140, b: 220 };
    assert_eq!(theme.bg, cour::ui::theme::Rgb { r: 22, g: 22, b: 30 });
    let active = theme.tone_style(Tone::Active);
    assert_eq!(active.fg, Some(accent));
    assert!(active.bold && !active.underlined);
    let header = theme.tone_style(Tone::Header);
    assert!(header.bold && header.underlined);
    let status = theme.tone_style(Tone::Status);
    assert_eq!(status.fg, theme.text_dim.fg);
    assert!(status.bold);
    let plain = theme.tone_style(Tone::Plain);
    assert_eq!(plain.fg, None);
    assert_eq!(theme.tone_style(Tone::Selection).bg, Some(cour::ui::theme::Rgb { r: 40, g: 40, b: 55 }));
}

#[test]
fn rationale_is_stored_as_a_json_list() {
    let text = cour::ai::draft::rationale_json(&vec!["Fallback \"draft\"".to_string(), "b".to_string()]).unwrap();
    assert_eq!(text, "[\"Fallback \\\"draft\\\"\",\"b\"]");
    assert_eq!(cour::ai::draft::rationale_json(&vec![]).unwrap(), "[]");
    let escaped = cour::ai::draft::rationale_json(&vec!["a\u{1}\n\t\\é\u{7f}".to_string()]).unwrap();
    assert_eq!(escaped, "[\"a\\u0001\\n\\t\\\\é\u{7f}\"]");
}
