//! The first-run setup wizard: its steps, the text fields it edits, the
//! configuration it builds, and the TOML text it writes.

use vstd::prelude::*;
use crate::ui::keys::KeyCode;
use crate::text::{
    after_char, before_char, chars_of, is_ascii_alnum, is_ascii_alnum_char, is_ws, lower_seq,
    second_piece, trim, trim_ch, trim_char, trim_ws, string_from, str_eq, to_ascii_lower,
    find_char,
};

verus! {

#[derive(Debug, Clone, Copy, PartialEq, Eq, Structural)]
pub enum OnboardingStep {
    Welcome,
    AccountBasics,
    MaildirPath,
    SetupMode,
    SyncCommand,
    AiProviders,
    SmtpIdentity,
    Review,
    Complete,
}

pub open spec fn step_title(step: OnboardingStep) -> Seq<char> {
    match step {
        OnboardingStep::Welcome => "Welcome"@,
        OnboardingStep::AccountBasics => "Account basics"@,
        OnboardingStep::MaildirPath => "Mail storage"@,
        OnboardingStep::SetupMode => "Setup style"@,
        OnboardingStep::SyncCommand => "Mail download (advanced)"@,
        OnboardingStep::AiProviders => "AI features (advanced)"@,
        OnboardingStep::SmtpIdentity => "Sending mail (advanced)"@,
        OnboardingStep::Review => "Review"@,
        OnboardingStep::Complete => "Complete"@,
    }
}

impl OnboardingStep {
    /// The heading shown for this step.
    pub fn title(self) -> (r: &'static str)
        ensures
            r@ == step_title(self),
    {
        match self {
            OnboardingStep::Welcome => "Welcome",
            OnboardingStep::AccountBasics => "Account basics",
            OnboardingStep::MaildirPath => "Mail storage",
            OnboardingStep::SetupMode => "Setup style",
            OnboardingStep::SyncCommand => "Mail download (advanced)",
            OnboardingStep::AiProviders => "AI features (advanced)",
            OnboardingStep::SmtpIdentity => "Sending mail (advanced)",
            OnboardingStep::Review => "Review",
            OnboardingStep::Complete => "Complete",
        }
    }
}

/// The step after `step`; past the setup style it depends on whether the
/// advanced steps were chosen.
pub open spec fn next_step_spec(step: OnboardingStep, advanced: bool) -> Option<OnboardingStep> {
    match step {
        OnboardingStep::Welcome => Some(OnboardingStep::AccountBasics),
        OnboardingStep::AccountBasics => Some(OnboardingStep::MaildirPath),
        OnboardingStep::MaildirPath => Some(OnboardingStep::SetupMode),
        OnboardingStep::SetupMode => Some(
            if advanced {
                OnboardingStep::SyncCommand
            } else {
                OnboardingStep::Review
            },
        ),
        OnboardingStep::SyncCommand => Some(OnboardingStep::AiProviders),
        OnboardingStep::AiProviders => Some(OnboardingStep::SmtpIdentity),
        OnboardingStep::SmtpIdentity => Some(OnboardingStep::Review),
        OnboardingStep::Review => Some(OnboardingStep::Complete),
        OnboardingStep::Complete => None,
    }
}

/// The step before `step`, the mirror of `next_step_spec`.
pub open spec fn previous_step_spec(step: OnboardingStep, advanced: bool) -> Option<OnboardingStep> {
    match step {
        OnboardingStep::Welcome => None,
        OnboardingStep::AccountBasics => Some(OnboardingStep::Welcome),
        OnboardingStep::MaildirPath => Some(OnboardingStep::AccountBasics),
        OnboardingStep::SetupMode => Some(OnboardingStep::MaildirPath),
        OnboardingStep::SyncCommand => Some(OnboardingStep::SetupMode),
        OnboardingStep::AiProviders => Some(OnboardingStep::SyncCommand),
        OnboardingStep::SmtpIdentity => Some(OnboardingStep::AiProviders),
        OnboardingStep::Review => Some(
            if advanced {
                OnboardingStep::SmtpIdentity
            } else {
                OnboardingStep::SetupMode
            },
        ),
        OnboardingStep::Complete => Some(OnboardingStep::Review),
    }
}

/// Whether typed characters go into a field on this step.
pub open spec fn text_input_step(step: OnboardingStep) -> bool {
    match step {
        OnboardingStep::AccountBasics | OnboardingStep::MaildirPath | OnboardingStep::SyncCommand
        | OnboardingStep::AiProviders | OnboardingStep::SmtpIdentity => true,
        _ => false,
    }
}

pub fn supports_text_input(step: OnboardingStep) -> (b: bool)
    ensures
        b == text_input_step(step),
{
    match step {
        OnboardingStep::AccountBasics | OnboardingStep::MaildirPath | OnboardingStep::SyncCommand
        | OnboardingStep::AiProviders | OnboardingStep::SmtpIdentity => true,
        _ => false,
    }
}

/// How many fields (or choices) a step offers.
pub open spec fn field_count(step: OnboardingStep) -> nat {
    match step {
        OnboardingStep::Welcome => 0,
        OnboardingStep::AccountBasics => 2,
        OnboardingStep::MaildirPath => 1,
        OnboardingStep::SetupMode => 2,
        OnboardingStep::SyncCommand => 1,
        OnboardingStep::AiProviders => 4,
        OnboardingStep::SmtpIdentity => 7,
        OnboardingStep::Review => 0,
        OnboardingStep::Complete => 0,
    }
}

pub fn field_count_for(step: OnboardingStep) -> (n: usize)
    ensures
        n == field_count(step),
{
    match step {
        OnboardingStep::Welcome => 0,
        OnboardingStep::AccountBasics => 2,
        OnboardingStep::MaildirPath => 1,
        OnboardingStep::SetupMode => 2,
        OnboardingStep::SyncCommand => 1,
        OnboardingStep::AiProviders => 4,
        OnboardingStep::SmtpIdentity => 7,
        OnboardingStep::Review => 0,
        OnboardingStep::Complete => 0,
    }
}

/// The field selected on entering a step: the SMTP host on the sending step,
/// the first field elsewhere.
pub open spec fn starting_field(step: OnboardingStep) -> nat {
    match step {
        OnboardingStep::SmtpIdentity => 2,
        _ => 0,
    }
}

pub fn starting_field_for(step: OnboardingStep) -> (n: usize)
    ensures
        n == starting_field(step),
{
    match step {
        OnboardingStep::AccountBasics => 0,
        OnboardingStep::SmtpIdentity => 2,
        _ => 0,
    }
}

pub open spec fn footer_text(step: OnboardingStep) -> Seq<char> {
    match step {
        OnboardingStep::Welcome => "Enter continue  q quit"@,
        OnboardingStep::AccountBasics | OnboardingStep::AiProviders
        | OnboardingStep::SmtpIdentity =>
            "Enter next field or continue  Tab/Down next field  Shift+Tab/Up previous  Esc back  q quit"@,
        OnboardingStep::MaildirPath =>
            "Type path  Enter continue — cour creates it if missing  Esc back  q quit"@,
        OnboardingStep::SetupMode => "Tab/Down choose setup style  Enter continue  Esc back  q quit"@,
        OnboardingStep::SyncCommand => "Type to edit  Enter continue  Esc back  q quit"@,
        OnboardingStep::Review => "Enter write config  Esc back  q quit"@,
        OnboardingStep::Complete => "Enter finish  Esc back  q quit"@,
    }
}

/// The key help shown at the bottom of a step.
pub fn footer_help(step: OnboardingStep) -> (r: &'static str)
    ensures
        r@ == footer_text(step),
{
    match step {
        OnboardingStep::Welcome => "Enter continue  q quit",
        OnboardingStep::AccountBasics | OnboardingStep::AiProviders
        | OnboardingStep::SmtpIdentity =>
            "Enter next field or continue  Tab/Down next field  Shift+Tab/Up previous  Esc back  q quit",
        OnboardingStep::MaildirPath =>
            "Type path  Enter continue — cour creates it if missing  Esc back  q quit",
        OnboardingStep::SetupMode => "Tab/Down choose setup style  Enter continue  Esc back  q quit",
        OnboardingStep::SyncCommand => "Type to edit  Enter continue  Esc back  q quit",
        OnboardingStep::Review => "Enter write config  Esc back  q quit",
        OnboardingStep::Complete => "Enter finish  Esc back  q quit",
    }
}

/// A value as the review shows it: trimmed, or `(empty)` when blank.
pub open spec fn placeholder_spec(v: Seq<char>) -> Seq<char> {
    if trim_ws(v).len() == 0 {
        "(empty)"@
    } else {
        trim_ws(v)
    }
}

pub fn empty_as_placeholder(value: &str) -> (r: String)
    ensures
        r@ == placeholder_spec(value@),
{
    let t = trim(value);
    if t.as_str().is_empty() {
        "(empty)".to_string()
    } else {
        t
    }
}

/// One step of the slug scan: alphanumerics lower-cased, each run of other
/// characters folded into one `-`; the flag says whether the last character
/// written was such a separator.
pub open spec fn slug_state(s: Seq<char>) -> (Seq<char>, bool)
    decreases s.len(),
{
    if s.len() == 0 {
        (Seq::empty(), false)
    } else {
        let prev = slug_state(s.drop_last());
        let c = s.last();
        if is_ascii_alnum(c) {
            (prev.0.push(crate::text::ascii_lower(c)), false)
        } else if !prev.1 {
            (prev.0.push('-'), true)
        } else {
            prev
        }
    }
}

/// The folder name made from a label: the slug without leading or trailing
/// dashes, or `mail` when nothing is left.
pub open spec fn slugify_spec(s: Seq<char>) -> Seq<char> {
    let t = trim_ch(slug_state(s).0, '-');
    if t.len() == 0 {
        "mail"@
    } else {
        t
    }
}

pub fn slugify_maildir_label(value: &str) -> (r: String)
    ensures
        r@ == slugify_spec(value@),
{
    let v = chars_of(value);
    let mut slug: Vec<char> = Vec::new();
    let mut last_was_separator = false;
    let mut i: usize = 0;
    while i < v.len()
        invariant
            i <= v@.len(),
            v@ == value@,
            slug_state(v@.take(i as int)) == (slug@, last_was_separator),
        decreases v@.len() - i,
    {
        let c = v[i];
        proof {
            assert(v@.take(i + 1).drop_last() =~= v@.take(i as int));
        }
        if is_ascii_alnum_char(c) {
            slug.push(crate::text::ascii_lower_char(c));
            last_was_separator = false;
        } else if !last_was_separator {
            slug.push('-');
            last_was_separator = true;
        }
        i = i + 1;
    }
    assert(v@.take(v@.len() as int) =~= v@);
    let t = trim_char(slug.as_slice(), '-');
    if t.len() == 0 {
        "mail".to_string()
    } else {
        string_from(t.as_slice())
    }
}


/// An account as the wizard collects it.
#[derive(Debug, Clone)]
pub struct DraftAccountConfig {
    pub name: String,
    pub email_address: String,
    pub maildir_root: String,
    pub sync_command: String,
    pub default: bool,
}

pub type AccountDraftView = (Seq<char>, Seq<char>, Seq<char>, Seq<char>, bool);

impl View for DraftAccountConfig {
    type V = AccountDraftView;

    open spec fn view(&self) -> AccountDraftView {
        (self.name@, self.email_address@, self.maildir_root@, self.sync_command@, self.default)
    }
}

impl DraftAccountConfig {
    pub fn empty() -> (r: Self)
        ensures
            r@ == (Seq::<char>::empty(), Seq::<char>::empty(), Seq::<char>::empty(), Seq::<
                char,
            >::empty(), false),
    {
        DraftAccountConfig {
            name: String::new(),
            email_address: String::new(),
            maildir_root: String::new(),
            sync_command: String::new(),
            default: false,
        }
    }

    pub fn duplicate(&self) -> (r: Self)
        ensures
            r@ == self@,
    {
        DraftAccountConfig {
            name: self.name.clone(),
            email_address: self.email_address.clone(),
            maildir_root: self.maildir_root.clone(),
            sync_command: self.sync_command.clone(),
            default: self.default,
        }
    }
}

impl Default for DraftAccountConfig {
    fn default() -> (r: Self)
        ensures
            r@ == DraftAccountConfig::empty_view(),
    {
        DraftAccountConfig::empty()
    }
}

impl DraftAccountConfig {
    pub open spec fn empty_view() -> AccountDraftView {
        (Seq::<char>::empty(), Seq::<char>::empty(), Seq::<char>::empty(), Seq::<char>::empty(), false)
    }
}

/// One AI provider as the wizard collects it.
#[derive(Debug, Clone)]
pub struct DraftProviderConfig {
    pub provider: String,
    pub model: String,
    pub api_url: String,
    pub api_key_env: String,
    pub enabled: bool,
}

pub type ProviderDraftView = (Seq<char>, Seq<char>, Seq<char>, Seq<char>, bool);

impl View for DraftProviderConfig {
    type V = ProviderDraftView;

    open spec fn view(&self) -> ProviderDraftView {
        (self.provider@, self.model@, self.api_url@, self.api_key_env@, self.enabled)
    }
}

pub open spec fn empty_provider_view() -> ProviderDraftView {
    (Seq::<char>::empty(), Seq::<char>::empty(), Seq::<char>::empty(), Seq::<char>::empty(), false)
}

impl DraftProviderConfig {
    pub fn empty() -> (r: Self)
        ensures
            r@ == empty_provider_view(),
    {
        DraftProviderConfig {
            provider: String::new(),
            model: String::new(),
            api_url: String::new(),
            api_key_env: String::new(),
            enabled: false,
        }
    }

    pub fn duplicate(&self) -> (r: Self)
        ensures
            r@ == self@,
    {
        DraftProviderConfig {
            provider: self.provider.clone(),
            model: self.model.clone(),
            api_url: self.api_url.clone(),
            api_key_env: self.api_key_env.clone(),
            enabled: self.enabled,
        }
    }
}

impl Default for DraftProviderConfig {
    fn default() -> (r: Self)
        ensures
            r@ == empty_provider_view(),
    {
        DraftProviderConfig::empty()
    }
}

/// The three AI roles, each with its provider.
#[derive(Debug, Clone)]
pub struct DraftAiConfig {
    pub embedding: DraftProviderConfig,
    pub extraction: DraftProviderConfig,
    pub drafting: DraftProviderConfig,
}

impl View for DraftAiConfig {
    type V = (ProviderDraftView, ProviderDraftView, ProviderDraftView);

    open spec fn view(&self) -> (ProviderDraftView, ProviderDraftView, ProviderDraftView) {
        (self.embedding@, self.extraction@, self.drafting@)
    }
}

impl DraftAiConfig {
    pub fn empty() -> (r: Self)
        ensures
            r@ == (empty_provider_view(), empty_provider_view(), empty_provider_view()),
    {
        DraftAiConfig {
            embedding: DraftProviderConfig::empty(),
            extraction: DraftProviderConfig::empty(),
            drafting: DraftProviderConfig::empty(),
        }
    }
}

impl Default for DraftAiConfig {
    fn default() -> (r: Self)
        ensures
            r@ == (empty_provider_view(), empty_provider_view(), empty_provider_view()),
    {
        DraftAiConfig::empty()
    }
}

/// The sending identity as the wizard collects it.
#[derive(Debug, Clone)]
pub struct DraftSmtpIdentity {
    pub name: String,
    pub email_address: String,
    pub host: String,
    pub port: String,
    pub username: String,
    pub password_env: String,
    pub tls_mode: String,
    pub default: bool,
}

pub type SmtpDraftView = (
    Seq<char>,
    Seq<char>,
    Seq<char>,
    Seq<char>,
    Seq<char>,
    Seq<char>,
    Seq<char>,
    bool,
);

impl View for DraftSmtpIdentity {
    type V = SmtpDraftView;

    open spec fn view(&self) -> SmtpDraftView {
        (
            self.name@,
            self.email_address@,
            self.host@,
            self.port@,
            self.username@,
            self.password_env@,
            self.tls_mode@,
            self.default,
        )
    }
}

/// A fresh identity: port 465 over TLS, marked default.
pub open spec fn default_smtp_view() -> SmtpDraftView {
    (
        Seq::<char>::empty(),
        Seq::<char>::empty(),
        Seq::<char>::empty(),
        "465"@,
        Seq::<char>::empty(),
        Seq::<char>::empty(),
        "tls"@,
        true,
    )
}

impl Default for DraftSmtpIdentity {
    fn default() -> (r: Self)
        ensures
            r@ == default_smtp_view(),
    {
        DraftSmtpIdentity {
            name: String::new(),
            email_address: String::new(),
            host: String::new(),
            port: "465".to_string(),
            username: String::new(),
            password_env: String::new(),
            tls_mode: "tls".to_string(),
            default: true,
        }
    }
}

/// Everything the wizard will write.
#[derive(Debug, Clone)]
pub struct DraftConfigModel {
    pub accounts: Vec<DraftAccountConfig>,
    pub ai: DraftAiConfig,
    pub smtp: Vec<DraftSmtpIdentity>,
}

#[verifier::ext_equal]
pub struct DraftConfigView {
    pub accounts: Seq<AccountDraftView>,
    pub ai: (ProviderDraftView, ProviderDraftView, ProviderDraftView),
    pub smtp: Seq<SmtpDraftView>,
}

impl View for DraftConfigModel {
    type V = DraftConfigView;

    open spec fn view(&self) -> DraftConfigView {
        DraftConfigView {
            accounts: self.accounts@.map_values(|a: DraftAccountConfig| a@),
            ai: self.ai@,
            smtp: self.smtp@.map_values(|s: DraftSmtpIdentity| s@),
        }
    }
}

impl Default for DraftConfigModel {
    fn default() -> (r: Self)
        ensures
            r@.accounts.len() == 0,
            r@.ai == (empty_provider_view(), empty_provider_view(), empty_provider_view()),
            r@.smtp.len() == 0,
    {
        DraftConfigModel { accounts: Vec::new(), ai: DraftAiConfig::empty(), smtp: Vec::new() }
    }
}

pub const F_ACCOUNT_NAME: usize = 0;
pub const F_EMAIL_ADDRESS: usize = 1;
pub const F_MAILDIR_ROOT: usize = 2;
pub const F_SYNC_COMMAND: usize = 3;
pub const F_AI_PROVIDER: usize = 4;
pub const F_AI_MODEL: usize = 5;
pub const F_AI_API_URL: usize = 6;
pub const F_AI_API_KEY_ENV: usize = 7;
pub const F_SMTP_NAME: usize = 8;
pub const F_SMTP_EMAIL_ADDRESS: usize = 9;
pub const F_SMTP_HOST: usize = 10;
pub const F_SMTP_PORT: usize = 11;
pub const F_SMTP_USERNAME: usize = 12;
pub const F_SMTP_PASSWORD_ENV: usize = 13;
pub const F_SMTP_TLS_MODE: usize = 14;

/// The text the user has typed into each field of the wizard.
#[derive(Debug, Clone)]
pub struct FieldBuffers {
    pub account_name: String,
    pub email_address: String,
    pub maildir_root: String,
    pub sync_command: String,
    pub ai_provider: String,
    pub ai_model: String,
    pub ai_api_url: String,
    pub ai_api_key_env: String,
    pub smtp_name: String,
    pub smtp_email_address: String,
    pub smtp_host: String,
    pub smtp_port: String,
    pub smtp_username: String,
    pub smtp_password_env: String,
    pub smtp_tls_mode: String,
}

impl View for FieldBuffers {
    type V = Seq<Seq<char>>;

    /// The fields in the order of the `F_` indices.
    open spec fn view(&self) -> Seq<Seq<char>> {
        seq![
            self.account_name@,
            self.email_address@,
            self.maildir_root@,
            self.sync_command@,
            self.ai_provider@,
            self.ai_model@,
            self.ai_api_url@,
            self.ai_api_key_env@,
            self.smtp_name@,
            self.smtp_email_address@,
            self.smtp_host@,
            self.smtp_port@,
            self.smtp_username@,
            self.smtp_password_env@,
            self.smtp_tls_mode@,
        ]
    }
}

/// All fields empty but the SMTP port (465) and TLS mode (tls).
pub open spec fn default_fields() -> Seq<Seq<char>> {
    seq![
        Seq::<char>::empty(),
        Seq::<char>::empty(),
        Seq::<char>::empty(),
        Seq::<char>::empty(),
        Seq::<char>::empty(),
        Seq::<char>::empty(),
        Seq::<char>::empty(),
        Seq::<char>::empty(),
        Seq::<char>::empty(),
        Seq::<char>::empty(),
        Seq::<char>::empty(),
        "465"@,
        Seq::<char>::empty(),
        Seq::<char>::empty(),
        "tls"@,
    ]
}

impl Default for FieldBuffers {
    fn default() -> (r: Self)
        ensures
            r@ == default_fields(),
    {
        FieldBuffers {
            account_name: String::new(),
            email_address: String::new(),
            maildir_root: String::new(),
            sync_command: String::new(),
            ai_provider: String::new(),
            ai_model: String::new(),
            ai_api_url: String::new(),
            ai_api_key_env: String::new(),
            smtp_name: String::new(),
            smtp_email_address: String::new(),
            smtp_host: String::new(),
            smtp_port: "465".to_string(),
            smtp_username: String::new(),
            smtp_password_env: String::new(),
            smtp_tls_mode: "tls".to_string(),
        }
    }
}

/// Sending settings known for a mail provider.
#[derive(Debug, Clone, Copy, PartialEq, Eq)]
pub struct DetectedMailProvider {
    pub display_name: &'static str,
    pub smtp_host: &'static str,
    pub smtp_port: &'static str,
    pub tls_mode: &'static str,
}

pub type ProviderSettings = (Seq<char>, Seq<char>, Seq<char>, Seq<char>);

/// The known providers by lower-case domain: display name, SMTP host, port
/// and TLS mode.
pub open spec fn provider_for_domain(d: Seq<char>) -> Option<ProviderSettings> {
    if d == "gmail.com"@ || d == "googlemail.com"@ {
        Some(("Gmail"@, "smtp.gmail.com"@, "465"@, "tls"@))
    } else if d == "outlook.com"@ || d == "hotmail.com"@ || d == "live.com"@ || d == "msn.com"@
        || d == "office365.com"@ {
        Some(("Outlook"@, "smtp.office365.com"@, "587"@, "starttls"@))
    } else if d == "yahoo.com"@ || d == "yahoo.co.uk"@ || d == "ymail.com"@ {
        Some(("Yahoo"@, "smtp.mail.yahoo.com"@, "465"@, "tls"@))
    } else if d == "icloud.com"@ || d == "me.com"@ || d == "mac.com"@ {
        Some(("iCloud"@, "smtp.mail.me.com"@, "587"@, "starttls"@))
    } else if d == "fastmail.com"@ || d == "fastmail.fm"@ {
        Some(("Fastmail"@, "smtp.fastmail.com"@, "465"@, "tls"@))
    } else if d == "purelymail.com"@ {
        Some(("Purelymail"@, "smtp.purelymail.com"@, "465"@, "tls"@))
    } else {
        None
    }
}

/// The domain of an address: the text between its first and second `@`,
/// trimmed and lower-cased; none without an `@`.
pub open spec fn email_domain(email: Seq<char>) -> Option<Seq<char>> {
    match second_piece(email, '@') {
        Some(p) => Some(lower_seq(trim_ws(p))),
        None => None,
    }
}

pub open spec fn detected_provider(email: Seq<char>) -> Option<ProviderSettings> {
    match email_domain(email) {
        Some(d) => provider_for_domain(d),
        None => None,
    }
}

pub open spec fn provider_settings(p: DetectedMailProvider) -> ProviderSettings {
    (p.display_name@, p.smtp_host@, p.smtp_port@, p.tls_mode@)
}

fn domain_of(email_address: &str) -> (r: Option<String>)
    ensures
        match r {
            Some(d) => email_domain(email_address@) == Some(d@),
            None => email_domain(email_address@) is None,
        },
{
    let v = chars_of(email_address);
    let n = v.len();
    match find_char(v.as_slice(), '@') {
        None => None,
        Some(i) => {
            let rest = crate::text::slice_range(v.as_slice(), i + 1, n);
            assert(rest@ =~= v@.skip(i + 1));
            let piece = match find_char(rest.as_slice(), '@') {
                Some(j) => crate::text::slice_range(rest.as_slice(), 0, j),
                None => rest.clone(),
            };
            assert(piece@ =~= before_char(rest@, '@'));
            let trimmed = crate::text::trim_vec(piece.as_slice());
            let s = string_from(trimmed.as_slice());
            Some(to_ascii_lower(s.as_str()))
        },
    }
}

/// The provider whose settings match the address's domain.
pub fn detect_mail_provider(email_address: &str) -> (r: Option<DetectedMailProvider>)
    ensures
        match r {
            Some(p) => detected_provider(email_address@) == Some(provider_settings(p)),
            None => detected_provider(email_address@) is None,
        },
{
    let domain = match domain_of(email_address) {
        Some(d) => d,
        None => return None,
    };
    let d = domain.as_str();
    if str_eq(d, "gmail.com") || str_eq(d, "googlemail.com") {
        Some(
            DetectedMailProvider {
                display_name: "Gmail",
                smtp_host: "smtp.gmail.com",
                smtp_port: "465",
                tls_mode: "tls",
            },
        )
    } else if str_eq(d, "outlook.com") || str_eq(d, "hotmail.com") || str_eq(d, "live.com")
        || str_eq(d, "msn.com") || str_eq(d, "office365.com") {
        Some(
            DetectedMailProvider {
                display_name: "Outlook",
                smtp_host: "smtp.office365.com",
                smtp_port: "587",
                tls_mode: "starttls",
            },
        )
    } else if str_eq(d, "yahoo.com") || str_eq(d, "yahoo.co.uk") || str_eq(d, "ymail.com") {
        Some(
            DetectedMailProvider {
                display_name: "Yahoo",
                smtp_host: "smtp.mail.yahoo.com",
                smtp_port: "465",
                tls_mode: "tls",
            },
        )
    } else if str_eq(d, "icloud.com") || str_eq(d, "me.com") || str_eq(d, "mac.com") {
        Some(
            DetectedMailProvider {
                display_name: "iCloud",
                smtp_host: "smtp.mail.me.com",
                smtp_port: "587",
                tls_mode: "starttls",
            },
        )
    } else if str_eq(d, "fastmail.com") || str_eq(d, "fastmail.fm") {
        Some(
            DetectedMailProvider {
                display_name: "Fastmail",
                smtp_host: "smtp.fastmail.com",
                smtp_port: "465",
                tls_mode: "tls",
            },
        )
    } else if str_eq(d, "purelymail.com") {
        Some(
            DetectedMailProvider {
                display_name: "Purelymail",
                smtp_host: "smtp.purelymail.com",
                smtp_port: "465",
                tls_mode: "tls",
            },
        )
    } else {
        None
    }
}

/// The field update for a detected provider: host when blank, port when
/// blank or still 465, TLS mode when blank or still `tls`, user name when
/// blank (to the trimmed address); nothing without a known provider.
pub open spec fn prefill_spec(email: Seq<char>, f: Seq<Seq<char>>) -> Seq<Seq<char>> {
    match detected_provider(email) {
        None => f,
        Some(p) => {
            let f1 = if trim_ws(f[F_SMTP_HOST as int]).len() == 0 {
                f.update(F_SMTP_HOST as int, p.1)
            } else {
                f
            };
            let port = trim_ws(f1[F_SMTP_PORT as int]);
            let f2 = if port.len() == 0 || port == "465"@ {
                f1.update(F_SMTP_PORT as int, p.2)
            } else {
                f1
            };
            let tls = trim_ws(f2[F_SMTP_TLS_MODE as int]);
            let f3 = if tls.len() == 0 || tls == "tls"@ {
                f2.update(F_SMTP_TLS_MODE as int, p.3)
            } else {
                f2
            };
            if trim_ws(f3[F_SMTP_USERNAME as int]).len() == 0 {
                f3.update(F_SMTP_USERNAME as int, trim_ws(email))
            } else {
                f3
            }
        },
    }
}

/// Fills the sending fields from the provider detected for the address.
pub fn prefill_smtp_settings(email_address: &str, field_buffers: &mut FieldBuffers)
    ensures
        final(field_buffers)@ == prefill_spec(email_address@, old(field_buffers)@),
{
    let provider = match detect_mail_provider(email_address) {
        Some(p) => p,
        None => return ,
    };
    if crate::text::is_blank(field_buffers.smtp_host.as_str()) {
        field_buffers.smtp_host = provider.smtp_host.to_string();
    }
    let port = trim(field_buffers.smtp_port.as_str());
    if port.as_str().is_empty() || str_eq(port.as_str(), "465") {
        field_buffers.smtp_port = provider.smtp_port.to_string();
    }
    let tls = trim(field_buffers.smtp_tls_mode.as_str());
    if tls.as_str().is_empty() || str_eq(tls.as_str(), "tls") {
        field_buffers.smtp_tls_mode = provider.tls_mode.to_string();
    }
    if crate::text::is_blank(field_buffers.smtp_username.as_str()) {
        field_buffers.smtp_username = trim(email_address);
    }
    assert(field_buffers@ =~= prefill_spec(email_address@, old(field_buffers)@));
}

/// The label a suggested Maildir folder is named after: the account name,
/// else the part of the address before `@` when not blank, else `mail`.
pub open spec fn maildir_label(account_name: Seq<char>, email: Seq<char>) -> Seq<char> {
    if trim_ws(account_name).len() == 0 {
        let local = before_char(email, '@');
        if trim_ws(local).len() == 0 {
            "mail"@
        } else {
            local
        }
    } else {
        account_name
    }
}

/// The suggested Maildir root `<home>/Mail/<slug>`; none without a home
/// directory.
pub open spec fn default_maildir_spec(home: Option<Seq<char>>, account_name: Seq<char>, email: Seq<char>) -> Option<Seq<char>> {
    match home {
        Some(h) => Some(
            crate::config::path_join(
                crate::config::path_join(h, "Mail"@),
                slugify_spec(maildir_label(account_name, email)),
            ),
        ),
        None => None,
    }
}

pub fn default_maildir_root(home: &Option<String>, account_name: &str, email_address: &str) -> (r: Option<String>)
    ensures
        match r {
            Some(s) => default_maildir_spec(crate::threading::opt_view(*home), account_name@, email_address@) == Some(s@),
            None => home is None,
        },
{
    let home = match home {
        Some(h) => h,
        None => return None,
    };
    let label: String = if crate::text::is_blank(account_name) {
        let v = chars_of(email_address);
        let local = match find_char(v.as_slice(), '@') {
            Some(i) => crate::text::slice_range(v.as_slice(), 0, i),
            None => v.clone(),
        };
        assert(local@ =~= before_char(email_address@, '@'));
        let local_s = string_from(local.as_slice());
        if crate::text::is_blank(local_s.as_str()) {
            "mail".to_string()
        } else {
            local_s
        }
    } else {
        account_name.to_string()
    };
    let folder = slugify_maildir_label(label.as_str());
    let mail = crate::config::join_path(home.as_str(), "Mail");
    Some(crate::config::join_path(mail.as_str(), folder.as_str()))
}

/// A TOML `key = "value"` line with the value quoted as `Debug` quotes it.
pub open spec fn kv_spec(key: Seq<char>, value: Seq<char>) -> Seq<char> {
    key + " = "@ + crate::text::str_debug(value)
}

fn kv(key: &str, value: &str) -> (r: String)
    ensures
        r@ == kv_spec(key@, value@),
{
    let mut out = key.to_string();
    crate::text::push_str(&mut out, " = ");
    let q = crate::text::debug_quoted(value);
    crate::text::push_str(&mut out, q.as_str());
    out
}

pub open spec fn bool_text(b: bool) -> Seq<char> {
    if b {
        "true"@
    } else {
        "false"@
    }
}

fn bool_line(key: &str, b: bool) -> (r: String)
    ensures
        r@ == key@ + " = "@ + bool_text(b),
{
    let mut out = key.to_string();
    crate::text::push_str(&mut out, " = ");
    if b {
        crate::text::push_str(&mut out, "true");
    } else {
        crate::text::push_str(&mut out, "false");
    }
    out
}

/// The line for an optional setting: present only when its trimmed value is
/// not blank.
pub open spec fn opt_line(key: Seq<char>, v: Seq<char>) -> Seq<Seq<char>> {
    if trim_ws(v).len() == 0 {
        Seq::empty()
    } else {
        seq![kv_spec(key, trim_ws(v))]
    }
}

fn push_line(lines: &mut Vec<String>, s: String)
    ensures
        crate::text::string_views(final(lines)@) == crate::text::string_views(old(lines)@).push(s@),
{
    lines.push(s);
    assert(crate::text::string_views(lines@) =~= crate::text::string_views(old(lines)@).push(s@));
}

fn push_opt_line(lines: &mut Vec<String>, key: &str, v: &str)
    ensures
        crate::text::string_views(final(lines)@) == crate::text::string_views(old(lines)@)
            + opt_line(key@, v@),
{
    let t = trim(v);
    if !t.as_str().is_empty() {
        lines.push(kv(key, t.as_str()));
    }
    assert(crate::text::string_views(lines@) =~= crate::text::string_views(old(lines)@)
        + opt_line(key@, v@));
}

/// The `[ai.<name>]` table for a provider; none when the provider name is
/// blank or `disabled` in any case.
pub open spec fn provider_block_spec(name: Seq<char>, p: ProviderDraftView) -> Option<Seq<char>> {
    let pn = trim_ws(p.0);
    if pn.len() == 0 || lower_seq(pn) == lower_seq("disabled"@) {
        None
    } else {
        Some(
            crate::text::join_spec(
                seq!["[ai."@ + name + "]"@, kv_spec("provider"@, pn)] + opt_line("model"@, p.1)
                    + opt_line("api_url"@, p.2) + opt_line("api_key_env"@, p.3) + seq![
                    "enabled"@ + " = "@ + bool_text(p.4),
                ],
                "\n"@,
            ),
        )
    }
}

pub fn provider_block(name: &str, provider: &DraftProviderConfig) -> (r: Option<String>)
    ensures
        match r {
            Some(s) => provider_block_spec(name@, provider@) == Some(s@),
            None => provider_block_spec(name@, provider@) is None,
        },
{
    let provider_name = trim(provider.provider.as_str());
    if provider_name.as_str().is_empty() || crate::text::eq_ignore_ascii_case(
        provider_name.as_str(),
        "disabled",
    ) {
        return None;
    }
    let mut header = "[ai.".to_string();
    crate::text::push_str(&mut header, name);
    crate::text::push_str(&mut header, "]");
    let mut lines: Vec<String> = Vec::new();
    push_line(&mut lines, header);
    push_line(&mut lines, kv("provider", provider_name.as_str()));
    push_opt_line(&mut lines, "model", provider.model.as_str());
    push_opt_line(&mut lines, "api_url", provider.api_url.as_str());
    push_opt_line(&mut lines, "api_key_env", provider.api_key_env.as_str());
    push_line(&mut lines, bool_line("enabled", provider.enabled));
    proof {
        let p = provider@;
        let pn = trim_ws(p.0);
        assert(crate::text::string_views(lines@) =~= seq!["[ai."@ + name@ + "]"@, kv_spec("provider"@, pn)]
            + opt_line("model"@, p.1) + opt_line("api_url"@, p.2) + opt_line("api_key_env"@, p.3)
            + seq!["enabled"@ + " = "@ + bool_text(p.4)]);
    }
    Some(crate::text::join_strings(&lines, "\n"))
}

/// One account as an inline TOML table.
pub open spec fn account_line_spec(a: AccountDraftView) -> Seq<char> {
    let fields = seq![kv_spec("name"@, a.0), kv_spec("email_address"@, a.1), kv_spec("maildir_root"@, a.2)]
        + opt_line("sync_command"@, a.3) + (if a.4 {
        seq!["default = true"@]
    } else {
        Seq::empty()
    });
    "  { "@ + crate::text::join_spec(fields, ", "@) + " }"@
}

fn account_line(a: &DraftAccountConfig) -> (r: String)
    ensures
        r@ == account_line_spec(a@),
{
    let mut fields: Vec<String> = Vec::new();
    push_line(&mut fields, kv("name", a.name.as_str()));
    push_line(&mut fields, kv("email_address", a.email_address.as_str()));
    push_line(&mut fields, kv("maildir_root", a.maildir_root.as_str()));
    push_opt_line(&mut fields, "sync_command", a.sync_command.as_str());
    if a.default {
        push_line(&mut fields, "default = true".to_string());
    }
    proof {
        let v = a@;
        assert(crate::text::string_views(fields@) =~= seq![kv_spec("name"@, v.0), kv_spec("email_address"@, v.1), kv_spec("maildir_root"@, v.2)]
            + opt_line("sync_command"@, v.3) + (if v.4 {
            seq!["default = true"@]
        } else {
            Seq::empty()
        }));
    }
    let mut out = "  { ".to_string();
    let joined = crate::text::join_strings(&fields, ", ");
    crate::text::push_str(&mut out, joined.as_str());
    crate::text::push_str(&mut out, " }");
    out
}

/// The `accounts = [...]` entry.
pub open spec fn accounts_section(accts: Seq<AccountDraftView>) -> Seq<char> {
    if accts.len() == 0 {
        "accounts = []"@
    } else {
        "accounts = [\n"@ + crate::text::join_spec(
            accts.map_values(|a: AccountDraftView| account_line_spec(a)),
            ",\n"@,
        ) + "\n]"@
    }
}

/// The port written for an identity: its trimmed text as a `u16`, else 465.
pub open spec fn port_value(p: Seq<char>) -> nat {
    match crate::text::parse_u16_spec(trim_ws(p)) {
        Some(v) => v as nat,
        None => 465,
    }
}

/// The `[[smtp]]` table for an identity; none when both its name and host
/// are blank.
pub open spec fn smtp_block_spec(s: SmtpDraftView) -> Option<Seq<char>> {
    if trim_ws(s.0).len() == 0 && trim_ws(s.2).len() == 0 {
        None
    } else {
        Some(
            crate::text::join_spec(
                seq![
                    "[[smtp]]"@,
                    kv_spec("name"@, trim_ws(s.0)),
                    kv_spec("email_address"@, trim_ws(s.1)),
                    kv_spec("host"@, trim_ws(s.2)),
                    "port = "@ + crate::text::decimal(port_value(s.3)),
                ] + opt_line("username"@, s.4) + opt_line("password_env"@, s.5) + opt_line(
                    "tls_mode"@,
                    s.6,
                ) + seq!["default"@ + " = "@ + bool_text(s.7)],
                "\n"@,
            ),
        )
    }
}

fn smtp_block(s: &DraftSmtpIdentity) -> (r: Option<String>)
    ensures
        match r {
            Some(t) => smtp_block_spec(s@) == Some(t@),
            None => smtp_block_spec(s@) is None,
        },
{
    if crate::text::is_blank(s.name.as_str()) && crate::text::is_blank(s.host.as_str()) {
        return None;
    }
    let mut lines: Vec<String> = Vec::new();
    push_line(&mut lines, "[[smtp]]".to_string());
    push_line(&mut lines, kv("name", trim(s.name.as_str()).as_str()));
    push_line(&mut lines, kv("email_address", trim(s.email_address.as_str()).as_str()));
    push_line(&mut lines, kv("host", trim(s.host.as_str()).as_str()));
    let port: u16 = match crate::text::parse_u16(trim(s.port.as_str()).as_str()) {
        Some(p) => p,
        None => 465,
    };
    let mut port_line = "port = ".to_string();
    crate::text::push_decimal(&mut port_line, port as u64);
    push_line(&mut lines, port_line);
    push_opt_line(&mut lines, "username", s.username.as_str());
    push_opt_line(&mut lines, "password_env", s.password_env.as_str());
    push_opt_line(&mut lines, "tls_mode", s.tls_mode.as_str());
    push_line(&mut lines, bool_line("default", s.default));
    proof {
        let v = s@;
        assert(crate::text::string_views(lines@) =~= seq![
            "[[smtp]]"@,
            kv_spec("name"@, trim_ws(v.0)),
            kv_spec("email_address"@, trim_ws(v.1)),
            kv_spec("host"@, trim_ws(v.2)),
            "port = "@ + crate::text::decimal(port_value(v.3)),
        ] + opt_line("username"@, v.4) + opt_line("password_env"@, v.5) + opt_line("tls_mode"@, v.6)
            + seq!["default"@ + " = "@ + bool_text(v.7)]);
    }
    Some(crate::text::join_strings(&lines, "\n"))
}

pub open spec fn opt_section(o: Option<Seq<char>>) -> Seq<Seq<char>> {
    match o {
        Some(x) => seq![x],
        None => Seq::empty(),
    }
}

pub open spec fn smtp_sections(ss: Seq<SmtpDraftView>) -> Seq<Seq<char>>
    decreases ss.len(),
{
    if ss.len() == 0 {
        Seq::empty()
    } else {
        smtp_sections(ss.drop_last()) + opt_section(smtp_block_spec(ss.last()))
    }
}

/// The configuration file the wizard writes: the accounts, one table per
/// enabled AI role, one per sending identity, separated by blank lines.
pub open spec fn config_toml_spec(d: DraftConfigView) -> Seq<char> {
    let sections = seq![accounts_section(d.accounts)] + opt_section(
        provider_block_spec("embedding"@, d.ai.0),
    ) + opt_section(provider_block_spec("extraction"@, d.ai.1)) + opt_section(
        provider_block_spec("drafting"@, d.ai.2),
    ) + smtp_sections(d.smtp);
    crate::text::join_spec(sections, "\n\n"@) + "\n"@
}

fn push_opt_section(sections: &mut Vec<String>, o: Option<String>)
    ensures
        crate::text::string_views(final(sections)@) == crate::text::string_views(old(sections)@)
            + opt_section(crate::threading::opt_view(o)),
{
    match o {
        Some(x) => sections.push(x),
        None => {},
    }
    assert(crate::text::string_views(sections@) =~= crate::text::string_views(old(sections)@)
        + opt_section(crate::threading::opt_view(o)));
}

/// The TOML text of the configuration built by the wizard.
pub fn config_toml(draft: &DraftConfigModel) -> (r: String)
    ensures
        r@ == config_toml_spec(draft@),
{
    let mut account_lines: Vec<String> = Vec::new();
    let mut i: usize = 0;
    while i < draft.accounts.len()
        invariant
            i <= draft.accounts@.len(),
            crate::text::string_views(account_lines@) == draft@.accounts.take(i as int).map_values(
                |a: AccountDraftView| account_line_spec(a),
            ),
        decreases draft.accounts@.len() - i,
    {
        push_line(&mut account_lines, account_line(&draft.accounts[i]));
        proof {
            assert(draft@.accounts[i as int] == draft.accounts@[i as int]@);
            assert(crate::text::string_views(account_lines@) =~= draft@.accounts.take(
                i + 1,
            ).map_values(|a: AccountDraftView| account_line_spec(a)));
        }
        i = i + 1;
    }
    assert(draft@.accounts.take(draft.accounts@.len() as int) =~= draft@.accounts);
    let accounts_toml = if account_lines.len() == 0 {
        "accounts = []".to_string()
    } else {
        let mut t = "accounts = [\n".to_string();
        let joined = crate::text::join_strings(&account_lines, ",\n");
        crate::text::push_str(&mut t, joined.as_str());
        crate::text::push_str(&mut t, "\n]");
        t
    };
    assert(accounts_toml@ == accounts_section(draft@.accounts));
    let mut sections: Vec<String> = Vec::new();
    assert(crate::text::string_views(sections@) =~= Seq::<Seq<char>>::empty());
    push_line(&mut sections, accounts_toml);
    push_opt_section(&mut sections, provider_block("embedding", &draft.ai.embedding));
    push_opt_section(&mut sections, provider_block("extraction", &draft.ai.extraction));
    push_opt_section(&mut sections, provider_block("drafting", &draft.ai.drafting));
    let ghost head = crate::text::string_views(sections@);
    let mut j: usize = 0;
    while j < draft.smtp.len()
        invariant
            j <= draft.smtp@.len(),
            crate::text::string_views(sections@) == head + smtp_sections(
                draft@.smtp.take(j as int),
            ),
        decreases draft.smtp@.len() - j,
    {
        proof {
            assert(draft@.smtp.take(j + 1).drop_last() =~= draft@.smtp.take(j as int));
            assert(draft@.smtp.take(j + 1).last() == draft.smtp@[j as int]@);
        }
        push_opt_section(&mut sections, smtp_block(&draft.smtp[j]));
        proof {
            assert(crate::text::string_views(sections@) =~= head + smtp_sections(
                draft@.smtp.take(j + 1),
            ));
        }
        j = j + 1;
    }
    assert(draft@.smtp.take(draft.smtp@.len() as int) =~= draft@.smtp);
    proof {
        let d = draft@;
        assert(crate::text::string_views(sections@) =~= seq![accounts_section(d.accounts)]
            + opt_section(provider_block_spec("embedding"@, d.ai.0)) + opt_section(
            provider_block_spec("extraction"@, d.ai.1),
        ) + opt_section(provider_block_spec("drafting"@, d.ai.2)) + smtp_sections(d.smtp));
    }
    let mut raw = crate::text::join_strings(&sections, "\n\n");
    crate::text::push_str(&mut raw, "\n");
    raw
}

/// The wizard: the step shown, the typed fields, the configuration built so
/// far and the messages shown to the user.
#[derive(Debug, Clone)]
pub struct OnboardingState {
    pub current_step: OnboardingStep,
    pub field_buffers: FieldBuffers,
    pub validation_errors: Vec<String>,
    pub draft_config: DraftConfigModel,
    pub running: bool,
    pub config_path: String,
    pub status_message: Option<String>,
    pub selected_field: usize,
    pub advanced_setup: bool,
}

#[verifier::ext_equal]
pub struct OnboardingView {
    pub step: OnboardingStep,
    pub fields: Seq<Seq<char>>,
    pub errors: Seq<Seq<char>>,
    pub config: DraftConfigView,
    pub running: bool,
    pub config_path: Seq<char>,
    pub status: Option<Seq<char>>,
    pub selected: nat,
    pub advanced: bool,
}

impl View for OnboardingState {
    type V = OnboardingView;

    open spec fn view(&self) -> OnboardingView {
        OnboardingView {
            step: self.current_step,
            fields: self.field_buffers@,
            errors: crate::text::string_views(self.validation_errors@),
            config: self.draft_config@,
            running: self.running,
            config_path: self.config_path@,
            status: crate::threading::opt_view(self.status_message),
            selected: self.selected_field as nat,
            advanced: self.advanced_setup,
        }
    }
}

/// What the surrounding program found out for the step being completed:
/// the home directory, and the outcome of the request that
/// `pending_request` named for the step (`Ok` when it named none).
pub struct StepEnv {
    pub home: Option<String>,
    pub outcome: Result<(), String>,
}

pub open spec fn outcome_error(o: Result<(), String>) -> Option<Seq<char>> {
    match o {
        Ok(_) => None,
        Err(e) => Some(e@),
    }
}

/// Outside work a step needs before it can be completed.
pub enum OnboardingRequest {
    Nothing,
    /// Create this Maildir root with its `cur`, `new` and `tmp` folders.
    CreateMaildir(String),
    /// Write this text to the configuration file at this path.
    WriteConfig { path: String, contents: String },
}

pub open spec fn request_spec(m: OnboardingView) -> (int, Seq<char>, Seq<char>) {
    match m.step {
        OnboardingStep::MaildirPath => if trim_ws(m.fields[F_MAILDIR_ROOT as int]).len() == 0 {
            (0, Seq::empty(), Seq::empty())
        } else {
            (1, trim_ws(m.fields[F_MAILDIR_ROOT as int]), Seq::empty())
        },
        OnboardingStep::Review => (2, m.config_path, config_toml_spec(m.config)),
        _ => (0, Seq::empty(), Seq::empty()),
    }
}

pub open spec fn request_view(r: OnboardingRequest) -> (int, Seq<char>, Seq<char>) {
    match r {
        OnboardingRequest::Nothing => (0, Seq::empty(), Seq::empty()),
        OnboardingRequest::CreateMaildir(root) => (1, root@, Seq::empty()),
        OnboardingRequest::WriteConfig { path, contents } => (2, path@, contents@),
    }
}

pub open spec fn account_basics_errors(f: Seq<Seq<char>>) -> Seq<Seq<char>> {
    let e1 = if trim_ws(f[F_ACCOUNT_NAME as int]).len() == 0 {
        seq!["Account name is required."@]
    } else {
        Seq::empty()
    };
    let email = trim_ws(f[F_EMAIL_ADDRESS as int]);
    let e2 = if email.len() == 0 {
        seq!["Email address is required."@]
    } else if !email.contains('@') {
        seq!["Email address must contain @."@]
    } else {
        Seq::empty()
    };
    e1 + e2
}

/// The problems that keep the user on the current step.
pub open spec fn step_errors(m: OnboardingView, outcome: Option<Seq<char>>) -> Seq<Seq<char>> {
    match m.step {
        OnboardingStep::AccountBasics => account_basics_errors(m.fields),
        OnboardingStep::MaildirPath => if trim_ws(m.fields[F_MAILDIR_ROOT as int]).len() == 0 {
            seq!["Maildir root is required."@]
        } else {
            match outcome {
                Some(e) => seq![e],
                None => Seq::empty(),
            }
        },
        _ => Seq::empty(),
    }
}

pub open spec fn ensure_account_spec(a: Seq<AccountDraftView>) -> Seq<AccountDraftView> {
    if a.len() == 0 {
        seq![DraftAccountConfig::empty_view()]
    } else {
        a
    }
}

pub open spec fn ensure_smtp_spec(s: Seq<SmtpDraftView>) -> Seq<SmtpDraftView> {
    if s.len() == 0 {
        seq![default_smtp_view()]
    } else {
        s
    }
}

pub open spec fn with_accounts(c: DraftConfigView, a: Seq<AccountDraftView>) -> DraftConfigView {
    DraftConfigView { accounts: a, ai: c.ai, smtp: c.smtp }
}

pub open spec fn written_message(path: Seq<char>) -> Seq<char> {
    "Wrote config to "@ + path
        + ". Next: cour doctor, cour reindex, then set your AI/SMTP env vars."@
}

/// Fields and account after the account step: name and address stored on
/// the first account, marked default; blank Maildir, sending name, sending
/// address and user name filled from them; provider settings prefilled.
pub open spec fn capture_account_basics(m: OnboardingView, home: Option<Seq<char>>) -> OnboardingView {
    let name = trim_ws(m.fields[F_ACCOUNT_NAME as int]);
    let email = trim_ws(m.fields[F_EMAIL_ADDRESS as int]);
    let accts = ensure_account_spec(m.config.accounts);
    let a0 = accts[0];
    let cfg = with_accounts(m.config, accts.update(0, (name, email, a0.2, a0.3, true)));
    let f0 = m.fields;
    let f1 = if trim_ws(f0[F_MAILDIR_ROOT as int]).len() == 0 {
        match default_maildir_spec(home, name, email) {
            Some(r) => f0.update(F_MAILDIR_ROOT as int, r),
            None => f0,
        }
    } else {
        f0
    };
    let f2 = if trim_ws(f1[F_SMTP_NAME as int]).len() == 0 {
        f1.update(F_SMTP_NAME as int, name)
    } else {
        f1
    };
    let f3 = if trim_ws(f2[F_SMTP_EMAIL_ADDRESS as int]).len() == 0 {
        f2.update(F_SMTP_EMAIL_ADDRESS as int, email)
    } else {
        f2
    };
    let f4 = if trim_ws(f3[F_SMTP_USERNAME as int]).len() == 0 {
        f3.update(F_SMTP_USERNAME as int, email)
    } else {
        f3
    };
    OnboardingView { config: cfg, fields: prefill_spec(email, f4), ..m }
}

pub open spec fn ai_provider_from_fields(f: Seq<Seq<char>>) -> ProviderDraftView {
    let provider = trim_ws(f[F_AI_PROVIDER as int]);
    let model = trim_ws(f[F_AI_MODEL as int]);
    (
        provider,
        model,
        trim_ws(f[F_AI_API_URL as int]),
        trim_ws(f[F_AI_API_KEY_ENV as int]),
        !(provider.len() == 0 && model.len() == 0),
    )
}

pub open spec fn smtp_from_fields(f: Seq<Seq<char>>) -> SmtpDraftView {
    let name = trim_ws(f[F_SMTP_NAME as int]);
    (
        if name.len() == 0 {
            trim_ws(f[F_ACCOUNT_NAME as int])
        } else {
            name
        },
        trim_ws(f[F_SMTP_EMAIL_ADDRESS as int]),
        trim_ws(f[F_SMTP_HOST as int]),
        trim_ws(f[F_SMTP_PORT as int]),
        trim_ws(f[F_SMTP_USERNAME as int]),
        trim_ws(f[F_SMTP_PASSWORD_ENV as int]),
        trim_ws(f[F_SMTP_TLS_MODE as int]),
        true,
    )
}

/// What completing the current step stores, step by step.
pub open spec fn capture_spec(m: OnboardingView, home: Option<Seq<char>>, outcome: Option<Seq<char>>) -> OnboardingView {
    let accts = ensure_account_spec(m.config.accounts);
    let a0 = accts[0];
    match m.step {
        OnboardingStep::Welcome => m,
        OnboardingStep::AccountBasics => capture_account_basics(m, home),
        OnboardingStep::MaildirPath => OnboardingView {
            config: with_accounts(
                m.config,
                accts.update(0, (a0.0, a0.1, trim_ws(m.fields[F_MAILDIR_ROOT as int]), a0.3, a0.4)),
            ),
            ..m
        },
        OnboardingStep::SetupMode => if m.selected == 1 {
            OnboardingView { advanced: true, ..m }
        } else {
            OnboardingView {
                advanced: false,
                config: DraftConfigView {
                    accounts: accts.update(0, (a0.0, a0.1, a0.2, Seq::empty(), a0.4)),
                    ai: (empty_provider_view(), empty_provider_view(), empty_provider_view()),
                    smtp: Seq::empty(),
                },
                ..m
            }
        },
        OnboardingStep::SyncCommand => OnboardingView {
            config: with_accounts(
                m.config,
                accts.update(0, (a0.0, a0.1, a0.2, trim_ws(m.fields[F_SYNC_COMMAND as int]), a0.4)),
            ),
            ..m
        },
        OnboardingStep::AiProviders => {
            let p = ai_provider_from_fields(m.fields);
            OnboardingView {
                config: DraftConfigView { accounts: m.config.accounts, ai: (p, p, p), smtp: m.config.smtp },
                ..m
            }
        },
        OnboardingStep::SmtpIdentity => if trim_ws(m.fields[F_SMTP_HOST as int]).len() == 0 {
            OnboardingView {
                config: DraftConfigView { accounts: m.config.accounts, ai: m.config.ai, smtp: Seq::empty() },
                ..m
            }
        } else {
            OnboardingView {
                config: DraftConfigView {
                    accounts: m.config.accounts,
                    ai: m.config.ai,
                    smtp: ensure_smtp_spec(m.config.smtp).update(0, smtp_from_fields(m.fields)),
                },
                ..m
            }
        },
        OnboardingStep::Review => match outcome {
            Some(e) => OnboardingView { errors: m.errors.push(e), ..m },
            None => OnboardingView { status: Some(written_message(m.config_path)), ..m },
        },
        OnboardingStep::Complete => OnboardingView { running: false, ..m },
    }
}

/// Enter on a step: messages cleared; the step's problems shown and the step
/// kept if there are any; else the step's values stored and the next step
/// entered at its starting field, or the wizard stopped after the last one.
pub open spec fn advance_spec(m: OnboardingView, home: Option<Seq<char>>, outcome: Option<Seq<char>>) -> OnboardingView {
    let m0 = OnboardingView { errors: Seq::empty(), status: None, ..m };
    let errs = step_errors(m0, outcome);
    if errs.len() > 0 {
        OnboardingView { errors: errs, ..m0 }
    } else {
        let m1 = capture_spec(m0, home, outcome);
        match next_step_spec(m1.step, m1.advanced) {
            Some(n) => OnboardingView { step: n, selected: starting_field(n), ..m1 },
            None => OnboardingView { running: false, ..m1 },
        }
    }
}

/// Esc: messages cleared and the previous step entered at its starting field.
pub open spec fn back_spec(m: OnboardingView) -> OnboardingView {
    let m0 = OnboardingView { errors: Seq::empty(), status: None, ..m };
    match previous_step_spec(m.step, m.advanced) {
        Some(p) => OnboardingView { step: p, selected: starting_field(p), ..m0 },
        None => m0,
    }
}

/// Moving the selection by `direction`, kept within the step's fields; steps
/// with at most one field keep it.
pub open spec fn move_spec(m: OnboardingView, direction: int) -> OnboardingView {
    let count = field_count(m.step);
    if count <= 1 {
        m
    } else {
        let t = m.selected + direction;
        let c = if t < 0 {
            0
        } else if t > count - 1 {
            count - 1
        } else {
            t
        };
        OnboardingView { selected: c as nat, ..m }
    }
}

impl OnboardingState {
    /// A wizard on its welcome step, writing to `config_path`.
    pub fn new(config_path: String) -> (r: Self)
        ensures
            r@.step == OnboardingStep::Welcome,
            r@.fields == default_fields(),
            r@.errors.len() == 0,
            r@.config.accounts.len() == 0,
            r@.config.ai == (empty_provider_view(), empty_provider_view(), empty_provider_view()),
            r@.config.smtp.len() == 0,
            r@.running,
            r@.config_path == config_path@,
            r@.status is None,
            r@.selected == starting_field(OnboardingStep::Welcome),
            !r@.advanced,
    {
        let r = OnboardingState {
            current_step: OnboardingStep::Welcome,
            field_buffers: FieldBuffers::default(),
            validation_errors: Vec::new(),
            draft_config: DraftConfigModel::default(),
            running: true,
            config_path,
            status_message: None,
            selected_field: starting_field_for(OnboardingStep::Welcome),
            advanced_setup: false,
        };
        assert(r@.errors =~= Seq::<Seq<char>>::empty());
        r
    }

    pub fn next_step(&self) -> (r: Option<OnboardingStep>)
        ensures
            r == next_step_spec(self.current_step, self.advanced_setup),
    {
        match self.current_step {
            OnboardingStep::Welcome => Some(OnboardingStep::AccountBasics),
            OnboardingStep::AccountBasics => Some(OnboardingStep::MaildirPath),
            OnboardingStep::MaildirPath => Some(OnboardingStep::SetupMode),
            OnboardingStep::SetupMode => Some(
                if self.advanced_setup {
                    OnboardingStep::SyncCommand
                } else {
                    OnboardingStep::Review
                },
            ),
            OnboardingStep::SyncCommand => Some(OnboardingStep::AiProviders),
            OnboardingStep::AiProviders => Some(OnboardingStep::SmtpIdentity),
            OnboardingStep::SmtpIdentity => Some(OnboardingStep::Review),
            OnboardingStep::Review => Some(OnboardingStep::Complete),
            OnboardingStep::Complete => None,
        }
    }

    pub fn previous_step(&self) -> (r: Option<OnboardingStep>)
        ensures
            r == previous_step_spec(self.current_step, self.advanced_setup),
    {
        match self.current_step {
            OnboardingStep::Welcome => None,
            OnboardingStep::AccountBasics => Some(OnboardingStep::Welcome),
            OnboardingStep::MaildirPath => Some(OnboardingStep::AccountBasics),
            OnboardingStep::SetupMode => Some(OnboardingStep::MaildirPath),
            OnboardingStep::SyncCommand => Some(OnboardingStep::SetupMode),
            OnboardingStep::AiProviders => Some(OnboardingStep::SyncCommand),
            OnboardingStep::SmtpIdentity => Some(OnboardingStep::AiProviders),
            OnboardingStep::Review => Some(
                if self.advanced_setup {
                    OnboardingStep::SmtpIdentity
                } else {
                    OnboardingStep::SetupMode
                },
            ),
            OnboardingStep::Complete => Some(OnboardingStep::Review),
        }
    }

    /// Esc: back to the previous step.
    pub fn go_back(&mut self)
        ensures
            final(self)@ == back_spec(old(self)@),
    {
        self.validation_errors.clear();
        self.status_message = None;
        if let Some(previous) = self.previous_step() {
            self.current_step = previous;
            self.selected_field = starting_field_for(previous);
        }
        assert(self@ =~= back_spec(old(self)@));
    }

    /// Tab or arrows: select the next or previous field of the step.
    pub fn move_field(&mut self, direction: isize)
        ensures
            final(self)@ == move_spec(old(self)@, direction as int),
    {
        let field_count = field_count_for(self.current_step);
        if field_count <= 1 {
            return ;
        }
        let max_index: usize = field_count - 1;
        let t: i128 = self.selected_field as i128 + direction as i128;
        let next: usize = if t < 0 {
            0
        } else if t > max_index as i128 {
            max_index
        } else {
            t as usize
        };
        self.selected_field = next;
        assert(self@ =~= move_spec(old(self)@, direction as int));
    }

    /// The outside work that completing the current step needs first.
    pub fn pending_request(&self) -> (r: OnboardingRequest)
        ensures
            request_view(r) == request_spec(self@),
    {
        match self.current_step {
            OnboardingStep::MaildirPath => {
                let t = trim(self.field_buffers.maildir_root.as_str());
                if t.as_str().is_empty() {
                    OnboardingRequest::Nothing
                } else {
                    OnboardingRequest::CreateMaildir(t)
                }
            },
            OnboardingStep::Review => OnboardingRequest::WriteConfig {
                path: self.config_path.clone(),
                contents: config_toml(&self.draft_config),
            },
            _ => OnboardingRequest::Nothing,
        }
    }

    fn push_error(&mut self, e: String)
        ensures
            final(self)@ == (OnboardingView { errors: old(self)@.errors.push(e@), ..old(self)@ }),
    {
        self.validation_errors.push(e);
        assert(self@ =~= (OnboardingView { errors: old(self)@.errors.push(e@), ..old(self)@ }));
    }

    fn validate_account_basics(&mut self)
        ensures
            final(self)@ == (OnboardingView {
                errors: old(self)@.errors + account_basics_errors(old(self)@.fields),
                ..old(self)@
            }),
    {
        if crate::text::is_blank(self.field_buffers.account_name.as_str()) {
            self.push_error("Account name is required.".to_string());
        }
        let email = chars_of(trim(self.field_buffers.email_address.as_str()).as_str());
        if email.len() == 0 {
            self.push_error("Email address is required.".to_string());
        } else if find_char(email.as_slice(), '@').is_none() {
            self.push_error("Email address must contain @.".to_string());
        }
        assert(self@ =~= (OnboardingView {
            errors: old(self)@.errors + account_basics_errors(old(self)@.fields),
            ..old(self)@
        }));
    }

    /// Pushes the current step's problems; true when there are none.
    pub fn validate_current_step(&mut self, env: &StepEnv) -> (ok: bool)
        ensures
            final(self)@ == (OnboardingView {
                errors: old(self)@.errors + step_errors(old(self)@, outcome_error(env.outcome)),
                ..old(self)@
            }),
            ok == (final(self)@.errors.len() == 0),
    {
        match self.current_step {
            OnboardingStep::AccountBasics => {
                self.validate_account_basics();
            },
            OnboardingStep::MaildirPath => {
                if crate::text::is_blank(self.field_buffers.maildir_root.as_str()) {
                    self.push_error("Maildir root is required.".to_string());
                } else {
                    match &env.outcome {
                        Ok(()) => {},
                        Err(e) => {
                            self.push_error(e.clone());
                        },
                    }
                }
            },
            _ => {},
        }
        assert(self@ =~= (OnboardingView {
            errors: old(self)@.errors + step_errors(old(self)@, outcome_error(env.outcome)),
            ..old(self)@
        }));
        self.validation_errors.len() == 0
    }

    fn ensure_account(&mut self)
        ensures
            final(self).draft_config.accounts@.len() > 0,
            final(self)@ == (OnboardingView {
                config: with_accounts(old(self)@.config, ensure_account_spec(old(self)@.config.accounts)),
                ..old(self)@
            }),
    {
        if self.draft_config.accounts.len() == 0 {
            self.draft_config.accounts.push(DraftAccountConfig::empty());
        }
        assert(self@ =~= (OnboardingView {
            config: with_accounts(old(self)@.config, ensure_account_spec(old(self)@.config.accounts)),
            ..old(self)@
        }));
    }

    fn set_first_account(&mut self, a: DraftAccountConfig)
        requires
            old(self).draft_config.accounts.len() > 0,
        ensures
            final(self)@ == (OnboardingView {
                config: with_accounts(old(self)@.config, old(self)@.config.accounts.update(0, a@)),
                ..old(self)@
            }),
    {
        self.draft_config.accounts.set(0, a);
        assert(self@ =~= (OnboardingView {
            config: with_accounts(old(self)@.config, old(self)@.config.accounts.update(0, a@)),
            ..old(self)@
        }));
    }
}


/// The field that typing edits on a step with the given selection.
pub open spec fn active_field(step: OnboardingStep, selected: nat) -> int {
    match step {
        OnboardingStep::AccountBasics => if selected == 0 {
            F_ACCOUNT_NAME as int
        } else {
            F_EMAIL_ADDRESS as int
        },
        OnboardingStep::MaildirPath => F_MAILDIR_ROOT as int,
        OnboardingStep::SyncCommand => F_SYNC_COMMAND as int,
        OnboardingStep::AiProviders => if selected <= 3 {
            F_AI_PROVIDER + selected
        } else {
            F_AI_API_KEY_ENV as int
        },
        OnboardingStep::SmtpIdentity => if selected <= 6 {
            F_SMTP_NAME + selected
        } else {
            F_SMTP_TLS_MODE as int
        },
        _ => F_ACCOUNT_NAME as int,
    }
}

/// Enter selects the next field, rather than completing the step, while a
/// later field remains on a typing step.
pub open spec fn enter_moves_spec(m: OnboardingView) -> bool {
    text_input_step(m.step) && field_count(m.step) > 1 && m.selected + 1 < field_count(m.step)
}

pub open spec fn edit_field(m: OnboardingView, v: Seq<char>) -> OnboardingView {
    OnboardingView { fields: m.fields.update(active_field(m.step, m.selected), v), ..m }
}

/// A key press: `q` quits, Esc goes back, Tab and the arrows move the
/// selection, Enter moves or completes the step, Backspace and printable
/// characters edit the selected field on typing steps.
pub open spec fn key_spec(m: OnboardingView, code: KeyCode, home: Option<Seq<char>>, outcome: Option<Seq<char>>) -> OnboardingView {
    let cur = m.fields[active_field(m.step, m.selected)];
    match code {
        KeyCode::Char(c) => if c == 'q' {
            OnboardingView { running: false, ..m }
        } else if !crate::text::is_control(c) && text_input_step(m.step) {
            edit_field(m, cur.push(c))
        } else {
            m
        },
        KeyCode::Esc => back_spec(m),
        KeyCode::Tab | KeyCode::Down => move_spec(m, 1),
        KeyCode::BackTab | KeyCode::Up => move_spec(m, -1),
        KeyCode::Enter => if enter_moves_spec(m) {
            move_spec(m, 1)
        } else {
            advance_spec(m, home, outcome)
        },
        KeyCode::Backspace => if text_input_step(m.step) && cur.len() > 0 {
            edit_field(m, cur.drop_last())
        } else {
            m
        },
        _ => m,
    }
}

pub fn enter_moves_to_next_field(state: &OnboardingState) -> (b: bool)
    ensures
        b == enter_moves_spec(state@),
{
    supports_text_input(state.current_step) && field_count_for(state.current_step) > 1
        && state.selected_field < field_count_for(state.current_step) - 1
}

/// The field that typing edits.
pub fn active_buffer_mut(state: &mut OnboardingState) -> (r: &mut String)
    ensures
        (*r)@ == old(state)@.fields[active_field(old(state)@.step, old(state)@.selected)],
        final(state)@ == edit_field(old(state)@, (*final(r))@),
{
    match state.current_step {
        OnboardingStep::AccountBasics => if state.selected_field == 0 {
            &mut state.field_buffers.account_name
        } else {
            &mut state.field_buffers.email_address
        },
        OnboardingStep::MaildirPath => &mut state.field_buffers.maildir_root,
        OnboardingStep::SyncCommand => &mut state.field_buffers.sync_command,
        OnboardingStep::AiProviders => match state.selected_field {
            0 => &mut state.field_buffers.ai_provider,
            1 => &mut state.field_buffers.ai_model,
            2 => &mut state.field_buffers.ai_api_url,
            _ => &mut state.field_buffers.ai_api_key_env,
        },
        OnboardingStep::SmtpIdentity => match state.selected_field {
            0 => &mut state.field_buffers.smtp_name,
            1 => &mut state.field_buffers.smtp_email_address,
            2 => &mut state.field_buffers.smtp_host,
            3 => &mut state.field_buffers.smtp_port,
            4 => &mut state.field_buffers.smtp_username,
            5 => &mut state.field_buffers.smtp_password_env,
            _ => &mut state.field_buffers.smtp_tls_mode,
        },
        _ => &mut state.field_buffers.account_name,
    }
}


impl OnboardingState {
    #[verifier::spinoff_prover]
    #[verifier::rlimit(40)]
    fn capture_account_basics(&mut self, env: &StepEnv)
        ensures
            final(self)@ == capture_account_basics(old(self)@, crate::threading::opt_view(env.home)),
    {
        let ghost m = self@;
        let account_name = trim(self.field_buffers.account_name.as_str());
        let email = trim(self.field_buffers.email_address.as_str());
        self.ensure_account();
        let a0 = self.draft_config.accounts[0].duplicate();
        self.set_first_account(
            DraftAccountConfig {
                name: account_name.clone(),
                email_address: email.clone(),
                maildir_root: a0.maildir_root,
                sync_command: a0.sync_command,
                default: true,
            },
        );
        if crate::text::is_blank(self.field_buffers.maildir_root.as_str()) {
            match default_maildir_root(&env.home, account_name.as_str(), email.as_str()) {
                Some(r) => {
                    self.field_buffers.maildir_root = r;
                },
                None => {},
            }
        }
        if crate::text::is_blank(self.field_buffers.smtp_name.as_str()) {
            self.field_buffers.smtp_name = account_name.clone();
        }
        if crate::text::is_blank(self.field_buffers.smtp_email_address.as_str()) {
            self.field_buffers.smtp_email_address = email.clone();
        }
        if crate::text::is_blank(self.field_buffers.smtp_username.as_str()) {
            self.field_buffers.smtp_username = email.clone();
        }
        let ghost f4 = self.field_buffers@;
        prefill_smtp_settings(email.as_str(), &mut self.field_buffers);
        assert(self@ =~= capture_account_basics(m, crate::threading::opt_view(env.home)));
    }

    /// Stores what the current step collected (see `capture_spec`).
    pub fn capture_current_step(&mut self, env: &StepEnv)
        ensures
            final(self)@ == capture_spec(
                old(self)@,
                crate::threading::opt_view(env.home),
                outcome_error(env.outcome),
            ),
    {
        let ghost m = self@;
        match self.current_step {
            OnboardingStep::Welcome => {},
            OnboardingStep::AccountBasics => {
                self.capture_account_basics(env);
            },
            OnboardingStep::MaildirPath => {
                let maildir_root = trim(self.field_buffers.maildir_root.as_str());
                self.ensure_account();
                let a0 = self.draft_config.accounts[0].duplicate();
                self.set_first_account(
                    DraftAccountConfig {
                        name: a0.name,
                        email_address: a0.email_address,
                        maildir_root,
                        sync_command: a0.sync_command,
                        default: a0.default,
                    },
                );
            },
            OnboardingStep::SetupMode => {
                self.advanced_setup = self.selected_field == 1;
                if !self.advanced_setup {
                    self.draft_config.ai = DraftAiConfig::empty();
                    self.draft_config.smtp = Vec::new();
                    self.ensure_account();
                    let a0 = self.draft_config.accounts[0].duplicate();
                    self.set_first_account(
                        DraftAccountConfig {
                            name: a0.name,
                            email_address: a0.email_address,
                            maildir_root: a0.maildir_root,
                            sync_command: String::new(),
                            default: a0.default,
                        },
                    );
                }
            },
            OnboardingStep::SyncCommand => {
                let sync_command = trim(self.field_buffers.sync_command.as_str());
                self.ensure_account();
                let a0 = self.draft_config.accounts[0].duplicate();
                self.set_first_account(
                    DraftAccountConfig {
                        name: a0.name,
                        email_address: a0.email_address,
                        maildir_root: a0.maildir_root,
                        sync_command,
                        default: a0.default,
                    },
                );
            },
            OnboardingStep::AiProviders => {
                let provider_name = trim(self.field_buffers.ai_provider.as_str());
                let model = trim(self.field_buffers.ai_model.as_str());
                let enabled = !(provider_name.as_str().is_empty() && model.as_str().is_empty());
                let provider = DraftProviderConfig {
                    provider: provider_name,
                    model,
                    api_url: trim(self.field_buffers.ai_api_url.as_str()),
                    api_key_env: trim(self.field_buffers.ai_api_key_env.as_str()),
                    enabled,
                };
                self.draft_config.ai.embedding = provider.duplicate();
                self.draft_config.ai.extraction = provider.duplicate();
                self.draft_config.ai.drafting = provider;
            },
            OnboardingStep::SmtpIdentity => {
                let smtp_name = trim(self.field_buffers.smtp_name.as_str());
                let smtp_host = trim(self.field_buffers.smtp_host.as_str());
                if smtp_host.as_str().is_empty() {
                    self.draft_config.smtp = Vec::new();
                } else {
                    let name = if smtp_name.as_str().is_empty() {
                        trim(self.field_buffers.account_name.as_str())
                    } else {
                        smtp_name
                    };
                    let smtp = DraftSmtpIdentity {
                        name,
                        email_address: trim(self.field_buffers.smtp_email_address.as_str()),
                        host: smtp_host,
                        port: trim(self.field_buffers.smtp_port.as_str()),
                        username: trim(self.field_buffers.smtp_username.as_str()),
                        password_env: trim(self.field_buffers.smtp_password_env.as_str()),
                        tls_mode: trim(self.field_buffers.smtp_tls_mode.as_str()),
                        default: true,
                    };
                    if self.draft_config.smtp.len() == 0 {
                        self.draft_config.smtp.push(smtp);
                    } else {
                        self.draft_config.smtp.set(0, smtp);
                    }
                }
            },
            OnboardingStep::Review => {
                match &env.outcome {
                    Err(e) => {
                        self.push_error(e.clone());
                    },
                    Ok(()) => {
                        let mut msg = "Wrote config to ".to_string();
                        crate::text::push_str(&mut msg, self.config_path.as_str());
                        crate::text::push_str(
                            &mut msg,
                            ". Next: cour doctor, cour reindex, then set your AI/SMTP env vars.",
                        );
                        self.status_message = Some(msg);
                    },
                }
            },
            OnboardingStep::Complete => {
                self.running = false;
            },
        }
        assert(self@ =~= capture_spec(
            m,
            crate::threading::opt_view(env.home),
            outcome_error(env.outcome),
        ));
    }

    /// Enter on a step (see `advance_spec`).
    pub fn try_advance(&mut self, env: &StepEnv)
        ensures
            final(self)@ == advance_spec(
                old(self)@,
                crate::threading::opt_view(env.home),
                outcome_error(env.outcome),
            ),
    {
        self.validation_errors.clear();
        self.status_message = None;
        assert(self@ =~= (OnboardingView { errors: Seq::empty(), status: None, ..old(self)@ }));
        if !self.validate_current_step(env) {
            return ;
        }
        self.capture_current_step(env);
        match self.next_step() {
            Some(next) => {
                self.current_step = next;
                self.selected_field = starting_field_for(next);
            },
            None => {
                self.running = false;
            },
        }
    }
}

/// The outside work a key press needs first: the step's request when Enter
/// will complete the step, nothing otherwise.
pub fn key_request(state: &OnboardingState, code: KeyCode) -> (r: OnboardingRequest)
    ensures
        (code == KeyCode::Enter && !enter_moves_spec(state@)) ==> request_view(r) == request_spec(
            state@,
        ),
        !(code == KeyCode::Enter && !enter_moves_spec(state@)) ==> r is Nothing,
{
    match code {
        KeyCode::Enter => if enter_moves_to_next_field(state) {
            OnboardingRequest::Nothing
        } else {
            state.pending_request()
        },
        _ => OnboardingRequest::Nothing,
    }
}

/// Applies a key press to the wizard (see `key_spec`).
pub fn handle_key(state: &mut OnboardingState, code: KeyCode, env: &StepEnv)
    ensures
        final(state)@ == key_spec(
            old(state)@,
            code,
            crate::threading::opt_view(env.home),
            outcome_error(env.outcome),
        ),
{
    match code {
        KeyCode::Char(c) => {
            if c == 'q' {
                state.running = false;
            } else if !crate::text::is_control_char(c) && supports_text_input(state.current_step) {
                active_buffer_mut(state).push(c);
            }
        },
        KeyCode::Esc => state.go_back(),
        KeyCode::Tab | KeyCode::Down => state.move_field(1),
        KeyCode::BackTab | KeyCode::Up => state.move_field(-1),
        KeyCode::Enter => {
            if enter_moves_to_next_field(state) {
                state.move_field(1);
            } else {
                state.try_advance(env);
            }
        },
        KeyCode::Backspace => {
            if supports_text_input(state.current_step) {
                active_buffer_mut(state).pop();
            }
        },
        _ => {},
    }
}


/// The review step's text.
pub open spec fn review_lines_spec(m: OnboardingView) -> Seq<Seq<char>> {
    let accts = m.config.accounts;
    let has_account = accts.len() > 0;
    let a = accts[0];
    let ai = m.config.ai.2;
    let sync = if has_account && a.3.len() > 0 {
        a.3
    } else {
        "not configured"@
    };
    let smtp_summary = if m.config.smtp.len() > 0 {
        let s = m.config.smtp[0];
        placeholder_spec(s.2) + ":"@ + placeholder_spec(s.3) + " user="@ + placeholder_spec(s.4)
            + " password_env="@ + placeholder_spec(s.5)
    } else {
        "not configured"@
    };
    let head = seq![
        "Review config to be written:"@,
        Seq::empty(),
        "Setup style: "@ + (if m.advanced {
            "advanced"@
        } else {
            "simple"@
        }),
        "Account: "@ + (if has_account {
            a.0
        } else {
            Seq::empty()
        }) + " <"@ + (if has_account {
            a.1
        } else {
            Seq::empty()
        }) + ">"@,
        "Maildir: "@ + (if has_account {
            a.2
        } else {
            Seq::empty()
        }),
        "Mail download: "@ + sync,
        "AI features: provider="@ + placeholder_spec(ai.0) + " model="@ + placeholder_spec(ai.1)
            + " api_url="@ + placeholder_spec(ai.2) + " key_env="@ + placeholder_spec(ai.3),
        "Sending: "@ + smtp_summary,
        Seq::empty(),
    ];
    let mid = if !m.advanced {
        seq![
            "You chose simple setup. You can add mail download, AI, or sending settings later with cour setup."@,
            Seq::empty(),
        ]
    } else {
        Seq::empty()
    };
    head + mid + seq!["Press Enter to write the config file and continue."@]
}

fn concat2(a: &str, b: &str) -> (r: String)
    ensures
        r@ == a@ + b@,
{
    let mut out = a.to_string();
    crate::text::push_str(&mut out, b);
    out
}

/// The lines shown on the review step.
pub fn review_lines(state: &OnboardingState) -> (r: Vec<String>)
    ensures
        crate::text::string_views(r@) == review_lines_spec(state@),
{
    let has_account = state.draft_config.accounts.len() > 0;
    let empty = String::new();
    let (name, email, maildir, sync) = if has_account {
        let a = &state.draft_config.accounts[0];
        (
            a.name.as_str(),
            a.email_address.as_str(),
            a.maildir_root.as_str(),
            if a.sync_command.as_str().is_empty() {
                "not configured"
            } else {
                a.sync_command.as_str()
            },
        )
    } else {
        (empty.as_str(), empty.as_str(), empty.as_str(), "not configured")
    };
    let smtp_summary = if state.draft_config.smtp.len() > 0 {
        let s = &state.draft_config.smtp[0];
        let mut t = empty_as_placeholder(s.host.as_str());
        crate::text::push_str(&mut t, ":");
        crate::text::push_str(&mut t, empty_as_placeholder(s.port.as_str()).as_str());
        crate::text::push_str(&mut t, " user=");
        crate::text::push_str(&mut t, empty_as_placeholder(s.username.as_str()).as_str());
        crate::text::push_str(&mut t, " password_env=");
        crate::text::push_str(&mut t, empty_as_placeholder(s.password_env.as_str()).as_str());
        t
    } else {
        "not configured".to_string()
    };
    let ai = &state.draft_config.ai.drafting;
    let mut ai_line = "AI features: provider=".to_string();
    crate::text::push_str(&mut ai_line, empty_as_placeholder(ai.provider.as_str()).as_str());
    crate::text::push_str(&mut ai_line, " model=");
    crate::text::push_str(&mut ai_line, empty_as_placeholder(ai.model.as_str()).as_str());
    crate::text::push_str(&mut ai_line, " api_url=");
    crate::text::push_str(&mut ai_line, empty_as_placeholder(ai.api_url.as_str()).as_str());
    crate::text::push_str(&mut ai_line, " key_env=");
    crate::text::push_str(&mut ai_line, empty_as_placeholder(ai.api_key_env.as_str()).as_str());
    let mut account_line = concat2("Account: ", name);
    crate::text::push_str(&mut account_line, " <");
    crate::text::push_str(&mut account_line, email);
    crate::text::push_str(&mut account_line, ">");
    let mut lines: Vec<String> = Vec::new();
    assert(crate::text::string_views(lines@) =~= Seq::<Seq<char>>::empty());
    push_line(&mut lines, "Review config to be written:".to_string());
    push_line(&mut lines, String::new());
    push_line(
        &mut lines,
        concat2(
            "Setup style: ",
            if state.advanced_setup {
                "advanced"
            } else {
                "simple"
            },
        ),
    );
    push_line(&mut lines, account_line);
    push_line(&mut lines, concat2("Maildir: ", maildir));
    push_line(&mut lines, concat2("Mail download: ", sync));
    push_line(&mut lines, ai_line);
    push_line(&mut lines, concat2("Sending: ", smtp_summary.as_str()));
    push_line(&mut lines, String::new());
    if !state.advanced_setup {
        push_line(
            &mut lines,
            "You chose simple setup. You can add mail download, AI, or sending settings later with cour setup.".to_string(),
        );
        push_line(&mut lines, String::new());
    }
    push_line(&mut lines, "Press Enter to write the config file and continue.".to_string());
    proof {
        if has_account {
            assert(state@.config.accounts[0] == state.draft_config.accounts@[0]@);
        }
        if state.draft_config.smtp@.len() > 0 {
            assert(state@.config.smtp[0] == state.draft_config.smtp@[0]@);
        }
        assert(crate::text::string_views(lines@) =~= review_lines_spec(state@));
    }
    lines
}

/// `format!("{label:<14}")`: the label padded with spaces to 14 characters.
pub open spec fn pad14(label: Seq<char>) -> Seq<char> {
    if label.len() < 14 {
        label + Seq::new((14 - label.len()) as nat, |i: int| ' ')
    } else {
        label
    }
}

/// The text of a field row: the selection marker, the padded label and the
/// value (trimmed with a cursor block when selected, else as the review
/// shows it).
pub open spec fn field_line_spec(label: Seq<char>, value: Seq<char>, active: bool) -> (Seq<char>, Seq<char>, Seq<char>) {
    (
        if active {
            "› "@
        } else {
            "  "@
        },
        pad14(label),
        if active {
            trim_ws(value) + "█"@
        } else {
            placeholder_spec(value)
        },
    )
}

pub fn field_line_text(label: &str, value: &str, active: bool) -> (r: (String, String, String))
    ensures
        (r.0@, r.1@, r.2@) == field_line_spec(label@, value@, active),
{
    let prefix = if active {
        "› ".to_string()
    } else {
        "  ".to_string()
    };
    let mut padded = label.to_string();
    let n = chars_of(label).len();
    if n < 14 {
        let mut k: usize = n;
        while k < 14
            invariant
                n <= k <= 14,
                padded@ == label@ + Seq::new((k - n) as nat, |i: int| ' '),
            decreases 14 - k,
        {
            padded.push(' ');
            k = k + 1;
            assert(padded@ =~= label@ + Seq::new((k - n) as nat, |i: int| ' '));
        }
    }
    let value_text = if active {
        let mut t = trim(value);
        crate::text::push_str(&mut t, "█");
        t
    } else {
        empty_as_placeholder(value)
    };
    (prefix, padded, value_text)
}

/// The note shown on the sending step when the address's provider is known.
pub open spec fn detected_note_spec(email: Seq<char>) -> Option<Seq<char>> {
    match detected_provider(email) {
        Some(p) => Some(
            "cour detected "@ + p.0
                + " settings and prefilled the SMTP host, port, and TLS mode."@,
        ),
        None => None,
    }
}

pub fn detected_provider_note(email_address: &str) -> (r: Option<String>)
    ensures
        crate::threading::opt_view(r) == detected_note_spec(email_address@),
{
    match detect_mail_provider(email_address) {
        Some(p) => {
            let mut t = concat2("cour detected ", p.display_name);
            crate::text::push_str(&mut t, " settings and prefilled the SMTP host, port, and TLS mode.");
            Some(t)
        },
        None => None,
    }
}


/// Going back from the step that Enter leads to returns to the step left,
/// on every path through the wizard (the sending step leads on to the review
/// only on the advanced path, which is the only one that reaches it).
pub proof fn law_back_returns_to_previous_step(step: OnboardingStep, advanced: bool)
    requires
        !(step == OnboardingStep::SmtpIdentity && !advanced),
    ensures
        match next_step_spec(step, advanced) {
            Some(n) => previous_step_spec(n, advanced) == Some(step),
            None => step == OnboardingStep::Complete,
        },
{
}

/// Whether a step is one of the advanced ones.
pub open spec fn advanced_step(step: OnboardingStep) -> bool {
    step == OnboardingStep::SyncCommand || step == OnboardingStep::AiProviders || step
        == OnboardingStep::SmtpIdentity
}

/// On simple setup, moving forward or back from a step that is not
/// advanced never lands on an advanced step;
/// advanced setup goes from the setup style through the download, AI and
/// sending steps to the review.
pub proof fn law_setup_style_decides_the_path(step: OnboardingStep)
    ensures
        !advanced_step(step) ==> match next_step_spec(step, false) {
            Some(n) => !advanced_step(n),
            None => true,
        },
        !advanced_step(step) ==> match previous_step_spec(step, false) {
            Some(p) => !advanced_step(p),
            None => true,
        },
        next_step_spec(OnboardingStep::SetupMode, true) == Some(OnboardingStep::SyncCommand),
        next_step_spec(OnboardingStep::SyncCommand, true) == Some(OnboardingStep::AiProviders),
        next_step_spec(OnboardingStep::AiProviders, true) == Some(OnboardingStep::SmtpIdentity),
        next_step_spec(OnboardingStep::SmtpIdentity, true) == Some(OnboardingStep::Review),
        next_step_spec(OnboardingStep::SetupMode, false) == Some(OnboardingStep::Review),
{
}

/// Whether an existing path can be the Maildir root: a file in its place
/// is refused.
pub fn maildir_root_problem(exists: bool, is_dir: bool) -> (r: Option<String>)
    ensures
        (exists && !is_dir) ==> (r matches Some(m) && m@ == "Maildir root must be a directory path."@),
        !(exists && !is_dir) ==> r is None,
{
    if exists && !is_dir {
        Some("Maildir root must be a directory path.".to_string())
    } else {
        None
    }
}

/// The message for a folder of the Maildir that could not be created: the
/// root itself, or one of its `cur`, `new` and `tmp`.
pub fn maildir_create_error(subdir: Option<&str>, reason: &str) -> (r: String)
    ensures
        r@ == (match subdir {
            Some(d) => "Failed to create Maildir "@ + d@ + "/ directory: "@ + reason@,
            None => "Failed to create Maildir root: "@ + reason@,
        }),
{
    match subdir {
        Some(d) => {
            let mut m = "Failed to create Maildir ".to_string();
            crate::text::push_str(&mut m, d);
            crate::text::push_str(&mut m, "/ directory: ");
            crate::text::push_str(&mut m, reason);
            m
        },
        None => {
            let mut m = "Failed to create Maildir root: ".to_string();
            crate::text::push_str(&mut m, reason);
            m
        },
    }
}

/// The folders every Maildir root holds, in the order they are created.
pub fn maildir_subdirs() -> (r: Vec<&'static str>)
    ensures
        r@.map_values(|s: &'static str| s@) == seq!["cur"@, "new"@, "tmp"@],
{
    let r = vec!["cur", "new", "tmp"];
    assert(r@.map_values(|s: &'static str| s@) =~= seq!["cur"@, "new"@, "tmp"@]);
    r
}

} // verus!
