//! The body of each setup-wizard screen: field rows, choices, help text,
//! the review summary and the validation messages.

use vstd::prelude::*;
use crate::ui::onboarding::{
    footer_help, footer_text, step_title,
    detected_note_spec, detected_provider_note, field_line_spec, field_line_text,
    review_lines, review_lines_spec, OnboardingState, OnboardingStep, OnboardingView,
    F_ACCOUNT_NAME, F_AI_API_KEY_ENV, F_AI_API_URL, F_AI_MODEL, F_AI_PROVIDER, F_EMAIL_ADDRESS,
    F_MAILDIR_ROOT, F_SMTP_EMAIL_ADDRESS, F_SMTP_HOST, F_SMTP_NAME, F_SMTP_PASSWORD_ENV,
    F_SMTP_PORT, F_SMTP_TLS_MODE, F_SMTP_USERNAME, F_SYNC_COMMAND,
};
use crate::ui::screen::{
    line_of, lines_view, one, plain, plain_lines, plain_lines_of, plain_spec, push_line, toned,
    Piece, ScreenLine, Tone,
};

verus! {

/// A field row: the marker and label in the accent colour when the field is
/// selected (dim and muted otherwise), a dim space, then the value.
pub open spec fn field_row_spec(label: Seq<char>, value: Seq<char>, active: bool) -> Seq<(Tone, Seq<char>)> {
    let t = field_line_spec(label, value, active);
    seq![
        (if active { Tone::Accent } else { Tone::Dim }, t.0),
        (if active { Tone::Accent } else { Tone::Muted }, t.1),
        (Tone::Dim, " "@),
        (Tone::Text, t.2),
    ]
}

pub fn field_row(label: &str, value: &str, active: bool) -> (r: ScreenLine)
    ensures
        r@ == field_row_spec(label@, value@, active),
{
    let (prefix, padded, shown) = field_line_text(label, value, active);
    let mut pieces: Vec<Piece> = Vec::new();
    pieces.push(Piece { tone: if active { Tone::Accent } else { Tone::Dim }, text: prefix });
    pieces.push(Piece { tone: if active { Tone::Accent } else { Tone::Muted }, text: padded });
    pieces.push(Piece { tone: Tone::Dim, text: " ".to_string() });
    pieces.push(Piece { tone: Tone::Text, text: shown });
    let r = line_of(pieces);
    assert(r@ =~= field_row_spec(label@, value@, active));
    r
}

/// A choice row: a filled or empty circle, the title, a dim dash and the
/// muted detail.
pub open spec fn choice_row_spec(title: Seq<char>, detail: Seq<char>, active: bool) -> Seq<(Tone, Seq<char>)> {
    seq![
        (if active { Tone::Accent } else { Tone::Dim }, if active { "◉ "@ } else { "○ "@ }),
        (if active { Tone::Accent } else { Tone::Text }, title),
        (Tone::Dim, " — "@),
        (Tone::Muted, detail),
    ]
}

pub fn choice_row(title: &str, detail: &str, active: bool) -> (r: ScreenLine)
    ensures
        r@ == choice_row_spec(title@, detail@, active),
{
    let mut pieces: Vec<Piece> = Vec::new();
    pieces.push(
        Piece {
            tone: if active { Tone::Accent } else { Tone::Dim },
            text: if active { "◉ ".to_string() } else { "○ ".to_string() },
        },
    );
    pieces.push(Piece { tone: if active { Tone::Accent } else { Tone::Text }, text: title.to_string() });
    pieces.push(Piece { tone: Tone::Dim, text: " — ".to_string() });
    pieces.push(Piece { tone: Tone::Muted, text: detail.to_string() });
    let r = line_of(pieces);
    assert(r@ =~= choice_row_spec(title@, detail@, active));
    r
}

pub open spec fn welcome_spec() -> Seq<Seq<(Tone, Seq<char>)>> {
    seq![
        one(Tone::Text, "Welcome to cour. We'll start with the basics and keep advanced mail settings out of your way."@),
        plain_spec(""@),
        plain_spec("Recommended setup asks for just a few things:"@),
        plain_spec("• an account name you recognize"@),
        plain_spec("• your email address"@),
        plain_spec("• where cour should keep your local mail"@),
        plain_spec(""@),
        plain_spec("Advanced options for mail download, AI, and custom sending settings are available later."@),
        plain_spec(""@),
        one(Tone::Accent, "Press Enter to continue."@),
    ]
}

pub open spec fn account_basics_spec(f: Seq<Seq<char>>, sel: nat) -> Seq<Seq<(Tone, Seq<char>)>> {
    seq![
        field_row_spec("Account name"@, f[F_ACCOUNT_NAME as int], sel == 0),
        field_row_spec("Email address"@, f[F_EMAIL_ADDRESS as int], sel == 1),
        plain_spec(""@),
        plain_spec("Account name is just a label inside cour, like Personal or Work."@),
        plain_spec("Press Enter to move to the next field, then Enter again to continue."@),
    ]
}

pub open spec fn maildir_spec(f: Seq<Seq<char>>) -> Seq<Seq<(Tone, Seq<char>)>> {
    seq![
        field_row_spec("Maildir root"@, f[F_MAILDIR_ROOT as int], true),
        plain_spec(""@),
        plain_spec("Choose where cour should keep this account's local mail."@),
        plain_spec("We prefilled a suggested location based on this account."@),
        plain_spec("If this folder does not exist yet, cour will create it for you automatically."@),
        plain_spec("That includes the required cur/, new/, and tmp/ Maildir folders."@),
    ]
}

pub open spec fn setup_mode_spec(sel: nat) -> Seq<Seq<(Tone, Seq<char>)>> {
    seq![
        choice_row_spec(
            "Simple setup (recommended)"@,
            "Set up local mail storage now. Add advanced options later."@,
            sel == 0,
        ),
        choice_row_spec(
            "Advanced setup"@,
            "Configure mail download, AI providers, and custom sending settings now."@,
            sel == 1,
        ),
    ]
}

pub open spec fn sync_command_spec(f: Seq<Seq<char>>) -> Seq<Seq<(Tone, Seq<char>)>> {
    seq![
        field_row_spec("Download command"@, f[F_SYNC_COMMAND as int], true),
        plain_spec(""@),
        plain_spec("Optional advanced step."@),
        plain_spec("Only fill this in if you already use a tool like mbsync or offlineimap."@),
    ]
}

pub open spec fn ai_providers_spec(f: Seq<Seq<char>>, sel: nat) -> Seq<Seq<(Tone, Seq<char>)>> {
    seq![
        field_row_spec("Provider"@, f[F_AI_PROVIDER as int], sel == 0),
        field_row_spec("Model"@, f[F_AI_MODEL as int], sel == 1),
        field_row_spec("API URL"@, f[F_AI_API_URL as int], sel == 2),
        field_row_spec("API key env"@, f[F_AI_API_KEY_ENV as int], sel == 3),
        plain_spec(""@),
        plain_spec("Optional advanced step. Leave these blank if you do not want AI features yet."@),
        plain_spec("Enter moves to the next field before continuing."@),
    ]
}

pub open spec fn smtp_identity_spec(f: Seq<Seq<char>>, sel: nat) -> Seq<Seq<(Tone, Seq<char>)>> {
    let rows = seq![
        field_row_spec("Sending name"@, f[F_SMTP_NAME as int], sel == 0),
        field_row_spec("Email address"@, f[F_SMTP_EMAIL_ADDRESS as int], sel == 1),
        field_row_spec("SMTP host"@, f[F_SMTP_HOST as int], sel == 2),
        field_row_spec("SMTP port"@, f[F_SMTP_PORT as int], sel == 3),
        field_row_spec("Username"@, f[F_SMTP_USERNAME as int], sel == 4),
        field_row_spec("Password env"@, f[F_SMTP_PASSWORD_ENV as int], sel == 5),
        field_row_spec("TLS mode"@, f[F_SMTP_TLS_MODE as int], sel == 6),
        plain_spec(""@),
    ];
    let note = match detected_note_spec(f[F_EMAIL_ADDRESS as int]) {
        Some(n) => seq![plain_spec(n)],
        None => Seq::empty(),
    };
    rows + note + seq![
        plain_spec("Advanced sending setup. Leave blank if you want to configure sending later."@),
        plain_spec("Enter moves to the next field before continuing."@),
    ]
}

pub open spec fn complete_spec(config_path: Seq<char>) -> Seq<Seq<(Tone, Seq<char>)>> {
    seq![
        plain_spec("Setup complete."@),
        plain_spec(""@),
        plain_spec("Config written to "@ + config_path),
        plain_spec(""@),
        plain_spec("Next steps:"@),
        plain_spec("• run cour doctor"@),
        plain_spec("• run cour reindex"@),
        plain_spec("• rerun cour setup any time to add advanced sync, AI, or sending options"@),
    ]
}

/// The validation messages under the body: a blank line, a heading and one
/// bulleted line per message, all in the error colour; nothing when there
/// are none.
pub open spec fn validation_spec(errors: Seq<Seq<char>>) -> Seq<Seq<(Tone, Seq<char>)>> {
    if errors.len() == 0 {
        Seq::empty()
    } else {
        seq![plain_spec(""@), one(Tone::Error, "Validation"@)] + errors.map_values(
            |e: Seq<char>| one(Tone::Error, "• "@ + e),
        )
    }
}

pub open spec fn step_body_spec(m: OnboardingView) -> Seq<Seq<(Tone, Seq<char>)>> {
    match m.step {
        OnboardingStep::Welcome => welcome_spec(),
        OnboardingStep::AccountBasics => account_basics_spec(m.fields, m.selected),
        OnboardingStep::MaildirPath => maildir_spec(m.fields),
        OnboardingStep::SetupMode => setup_mode_spec(m.selected),
        OnboardingStep::SyncCommand => sync_command_spec(m.fields),
        OnboardingStep::AiProviders => ai_providers_spec(m.fields, m.selected),
        OnboardingStep::SmtpIdentity => smtp_identity_spec(m.fields, m.selected),
        OnboardingStep::Review => plain_lines(review_lines_spec(m)),
        OnboardingStep::Complete => complete_spec(m.config_path),
    }
}

/// Everything the wizard shows for its current step.
pub open spec fn step_lines_spec(m: OnboardingView) -> Seq<Seq<(Tone, Seq<char>)>> {
    step_body_spec(m) + validation_spec(m.errors)
}

fn welcome_lines() -> (r: Vec<ScreenLine>)
    ensures
        lines_view(r@) == welcome_spec(),
{
    let mut out: Vec<ScreenLine> = Vec::new();
    push_line(
        &mut out,
        toned(
            Tone::Text,
            "Welcome to cour. We'll start with the basics and keep advanced mail settings out of your way.".to_string(),
        ),
    );
    push_line(&mut out, plain(""));
    push_line(&mut out, plain("Recommended setup asks for just a few things:"));
    push_line(&mut out, plain("• an account name you recognize"));
    push_line(&mut out, plain("• your email address"));
    push_line(&mut out, plain("• where cour should keep your local mail"));
    push_line(&mut out, plain(""));
    push_line(
        &mut out,
        plain("Advanced options for mail download, AI, and custom sending settings are available later."),
    );
    push_line(&mut out, plain(""));
    push_line(&mut out, toned(Tone::Accent, "Press Enter to continue.".to_string()));
    assert(lines_view(out@) =~= welcome_spec());
    out
}

fn account_basics_lines(state: &OnboardingState) -> (r: Vec<ScreenLine>)
    ensures
        lines_view(r@) == account_basics_spec(state@.fields, state@.selected),
{
    let f = &state.field_buffers;
    let sel = state.selected_field;
    let mut out: Vec<ScreenLine> = Vec::new();
    push_line(&mut out, field_row("Account name", f.account_name.as_str(), sel == 0));
    push_line(&mut out, field_row("Email address", f.email_address.as_str(), sel == 1));
    push_line(&mut out, plain(""));
    push_line(&mut out, plain("Account name is just a label inside cour, like Personal or Work."));
    push_line(&mut out, plain("Press Enter to move to the next field, then Enter again to continue."));
    assert(lines_view(out@) =~= account_basics_spec(state@.fields, state@.selected));
    out
}

fn maildir_lines(state: &OnboardingState) -> (r: Vec<ScreenLine>)
    ensures
        lines_view(r@) == maildir_spec(state@.fields),
{
    let mut out: Vec<ScreenLine> = Vec::new();
    push_line(&mut out, field_row("Maildir root", state.field_buffers.maildir_root.as_str(), true));
    push_line(&mut out, plain(""));
    push_line(&mut out, plain("Choose where cour should keep this account's local mail."));
    push_line(&mut out, plain("We prefilled a suggested location based on this account."));
    push_line(&mut out, plain("If this folder does not exist yet, cour will create it for you automatically."));
    push_line(&mut out, plain("That includes the required cur/, new/, and tmp/ Maildir folders."));
    assert(lines_view(out@) =~= maildir_spec(state@.fields));
    out
}

fn setup_mode_lines(state: &OnboardingState) -> (r: Vec<ScreenLine>)
    ensures
        lines_view(r@) == setup_mode_spec(state@.selected),
{
    let sel = state.selected_field;
    let mut out: Vec<ScreenLine> = Vec::new();
    push_line(
        &mut out,
        choice_row(
            "Simple setup (recommended)",
            "Set up local mail storage now. Add advanced options later.",
            sel == 0,
        ),
    );
    push_line(
        &mut out,
        choice_row(
            "Advanced setup",
            "Configure mail download, AI providers, and custom sending settings now.",
            sel == 1,
        ),
    );
    assert(lines_view(out@) =~= setup_mode_spec(state@.selected));
    out
}

fn sync_command_lines(state: &OnboardingState) -> (r: Vec<ScreenLine>)
    ensures
        lines_view(r@) == sync_command_spec(state@.fields),
{
    let mut out: Vec<ScreenLine> = Vec::new();
    push_line(&mut out, field_row("Download command", state.field_buffers.sync_command.as_str(), true));
    push_line(&mut out, plain(""));
    push_line(&mut out, plain("Optional advanced step."));
    push_line(&mut out, plain("Only fill this in if you already use a tool like mbsync or offlineimap."));
    assert(lines_view(out@) =~= sync_command_spec(state@.fields));
    out
}

fn ai_providers_lines(state: &OnboardingState) -> (r: Vec<ScreenLine>)
    ensures
        lines_view(r@) == ai_providers_spec(state@.fields, state@.selected),
{
    let f = &state.field_buffers;
    let sel = state.selected_field;
    let mut out: Vec<ScreenLine> = Vec::new();
    push_line(&mut out, field_row("Provider", f.ai_provider.as_str(), sel == 0));
    push_line(&mut out, field_row("Model", f.ai_model.as_str(), sel == 1));
    push_line(&mut out, field_row("API URL", f.ai_api_url.as_str(), sel == 2));
    push_line(&mut out, field_row("API key env", f.ai_api_key_env.as_str(), sel == 3));
    push_line(&mut out, plain(""));
    push_line(
        &mut out,
        plain("Optional advanced step. Leave these blank if you do not want AI features yet."),
    );
    push_line(&mut out, plain("Enter moves to the next field before continuing."));
    assert(lines_view(out@) =~= ai_providers_spec(state@.fields, state@.selected));
    out
}

#[verifier::rlimit(30)]
fn smtp_identity_lines(state: &OnboardingState) -> (r: Vec<ScreenLine>)
    ensures
        lines_view(r@) == smtp_identity_spec(state@.fields, state@.selected),
{
    let f = &state.field_buffers;
    let sel = state.selected_field;
    let mut out: Vec<ScreenLine> = Vec::new();
    push_line(&mut out, field_row("Sending name", f.smtp_name.as_str(), sel == 0));
    push_line(&mut out, field_row("Email address", f.smtp_email_address.as_str(), sel == 1));
    push_line(&mut out, field_row("SMTP host", f.smtp_host.as_str(), sel == 2));
    push_line(&mut out, field_row("SMTP port", f.smtp_port.as_str(), sel == 3));
    push_line(&mut out, field_row("Username", f.smtp_username.as_str(), sel == 4));
    push_line(&mut out, field_row("Password env", f.smtp_password_env.as_str(), sel == 5));
    push_line(&mut out, field_row("TLS mode", f.smtp_tls_mode.as_str(), sel == 6));
    push_line(&mut out, plain(""));
    let ghost rows = lines_view(out@);
    let note = detected_provider_note(f.email_address.as_str());
    match note {
        Some(n) => push_line(&mut out, plain(n.as_str())),
        None => {},
    }
    let ghost with_note = lines_view(out@);
    push_line(
        &mut out,
        plain("Advanced sending setup. Leave blank if you want to configure sending later."),
    );
    push_line(&mut out, plain("Enter moves to the next field before continuing."));
    proof {
        let m = state@;
        let note_s = match detected_note_spec(m.fields[F_EMAIL_ADDRESS as int]) {
            Some(n) => seq![plain_spec(n)],
            None => Seq::<Seq<(Tone, Seq<char>)>>::empty(),
        };
        assert(rows =~= seq![
            field_row_spec("Sending name"@, m.fields[F_SMTP_NAME as int], m.selected == 0),
            field_row_spec("Email address"@, m.fields[F_SMTP_EMAIL_ADDRESS as int], m.selected == 1),
            field_row_spec("SMTP host"@, m.fields[F_SMTP_HOST as int], m.selected == 2),
            field_row_spec("SMTP port"@, m.fields[F_SMTP_PORT as int], m.selected == 3),
            field_row_spec("Username"@, m.fields[F_SMTP_USERNAME as int], m.selected == 4),
            field_row_spec("Password env"@, m.fields[F_SMTP_PASSWORD_ENV as int], m.selected == 5),
            field_row_spec("TLS mode"@, m.fields[F_SMTP_TLS_MODE as int], m.selected == 6),
            plain_spec(""@),
        ]);
        assert(with_note =~= rows + note_s);
        assert(lines_view(out@) =~= smtp_identity_spec(m.fields, m.selected));
    }
    out
}

fn complete_lines(state: &OnboardingState) -> (r: Vec<ScreenLine>)
    ensures
        lines_view(r@) == complete_spec(state@.config_path),
{
    let mut written = "Config written to ".to_string();
    crate::text::push_str(&mut written, state.config_path.as_str());
    let mut out: Vec<ScreenLine> = Vec::new();
    push_line(&mut out, plain("Setup complete."));
    push_line(&mut out, plain(""));
    push_line(&mut out, plain(written.as_str()));
    push_line(&mut out, plain(""));
    push_line(&mut out, plain("Next steps:"));
    push_line(&mut out, plain("• run cour doctor"));
    push_line(&mut out, plain("• run cour reindex"));
    push_line(
        &mut out,
        plain("• rerun cour setup any time to add advanced sync, AI, or sending options"),
    );
    assert(lines_view(out@) =~= complete_spec(state@.config_path));
    out
}

fn push_validation(out: &mut Vec<ScreenLine>, errors: &Vec<String>)
    ensures
        lines_view(final(out)@) == lines_view(old(out)@) + validation_spec(
            crate::text::string_views(errors@),
        ),
{
    if errors.len() == 0 {
        assert(lines_view(out@) =~= lines_view(old(out)@) + validation_spec(
            crate::text::string_views(errors@),
        ));
        return;
    }
    push_line(out, plain(""));
    push_line(out, toned(Tone::Error, "Validation".to_string()));
    let ghost head = lines_view(out@);
    let mut i: usize = 0;
    while i < errors.len()
        invariant
            i <= errors@.len(),
            lines_view(out@) == head + crate::text::string_views(errors@.subrange(0, i as int)).map_values(
                |e: Seq<char>| one(Tone::Error, "• "@ + e),
            ),
        decreases errors@.len() - i,
    {
        let mut t = "• ".to_string();
        crate::text::push_str(&mut t, errors[i].as_str());
        push_line(out, toned(Tone::Error, t));
        assert(errors@.subrange(0, i + 1) =~= errors@.subrange(0, i as int).push(errors@[i as int]));
        assert(crate::text::string_views(errors@.subrange(0, i + 1)) =~= crate::text::string_views(
            errors@.subrange(0, i as int),
        ).push(errors@[i as int]@));
        i = i + 1;
        assert(lines_view(out@) =~= head + crate::text::string_views(errors@.subrange(0, i as int)).map_values(
            |e: Seq<char>| one(Tone::Error, "• "@ + e),
        ));
    }
    assert(errors@.subrange(0, i as int) =~= errors@);
    assert(lines_view(out@) =~= lines_view(old(out)@) + validation_spec(
        crate::text::string_views(errors@),
    ));
}

/// The lines the wizard draws for its current step, validation messages
/// last.
pub fn step_lines(state: &OnboardingState) -> (r: Vec<ScreenLine>)
    ensures
        lines_view(r@) == step_lines_spec(state@),
{
    let mut out = match state.current_step {
        OnboardingStep::Welcome => welcome_lines(),
        OnboardingStep::AccountBasics => account_basics_lines(state),
        OnboardingStep::MaildirPath => maildir_lines(state),
        OnboardingStep::SetupMode => setup_mode_lines(state),
        OnboardingStep::SyncCommand => sync_command_lines(state),
        OnboardingStep::AiProviders => ai_providers_lines(state),
        OnboardingStep::SmtpIdentity => smtp_identity_lines(state),
        OnboardingStep::Review => {
            let texts = review_lines(state);
            plain_lines_of(&texts)
        },
        OnboardingStep::Complete => complete_lines(state),
    };
    assert(lines_view(out@) == step_body_spec(state@));
    push_validation(&mut out, &state.validation_errors);
    out
}

/// The wizard's header: its name, then the step and the configuration path.
pub open spec fn header_spec(m: OnboardingView) -> Seq<Seq<(Tone, Seq<char>)>> {
    seq![
        seq![(Tone::Title, " cour setup "@), (Tone::Muted, "· local-first onboarding wizard"@)],
        seq![
            (Tone::Muted, "Step: "@),
            (Tone::Accent, step_title(m.step)),
            (Tone::Muted, "  Config path: "@),
            (Tone::Text, m.config_path),
        ],
    ]
}

pub fn header_lines(state: &OnboardingState) -> (r: Vec<ScreenLine>)
    ensures
        lines_view(r@) == header_spec(state@),
{
    let mut first: Vec<Piece> = Vec::new();
    first.push(Piece { tone: Tone::Title, text: " cour setup ".to_string() });
    first.push(Piece { tone: Tone::Muted, text: "· local-first onboarding wizard".to_string() });
    let mut second: Vec<Piece> = Vec::new();
    second.push(Piece { tone: Tone::Muted, text: "Step: ".to_string() });
    second.push(Piece { tone: Tone::Accent, text: state.current_step.title().to_string() });
    second.push(Piece { tone: Tone::Muted, text: "  Config path: ".to_string() });
    second.push(Piece { tone: Tone::Text, text: state.config_path.clone() });
    let l1 = line_of(first);
    let l2 = line_of(second);
    assert(l1@ =~= header_spec(state@)[0]);
    assert(l2@ =~= header_spec(state@)[1]);
    let mut out: Vec<ScreenLine> = Vec::new();
    push_line(&mut out, l1);
    push_line(&mut out, l2);
    assert(lines_view(out@) =~= header_spec(state@));
    out
}

/// The frame title of the body: the step's title between spaces.
pub fn body_title(step: OnboardingStep) -> (r: String)
    ensures
        r@ == " "@ + step_title(step) + " "@,
{
    let mut t = " ".to_string();
    crate::text::push_str(&mut t, step.title());
    crate::text::push_str(&mut t, " ");
    t
}

/// The footer: the status message when there is one, else the step's keys.
pub fn footer_line(state: &OnboardingState) -> (r: String)
    ensures
        r@ == (match state.status_message {
            Some(m) => m@,
            None => footer_text(state.current_step),
        }),
{
    match &state.status_message {
        Some(m) => m.clone(),
        None => footer_help(state.current_step).to_string(),
    }
}

} // verus!
