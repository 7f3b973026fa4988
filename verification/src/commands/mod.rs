//! The command-line commands: their arguments and the text they print.

use vstd::prelude::*;
use crate::config::ConfigArgs;
use crate::error::AppError;

pub mod doctor;
pub mod draft;
pub mod read;
pub mod search;

verus! {

#[derive(Debug, Clone, PartialEq, Eq)]
pub enum Commands {
    Sync { watch: bool },
    Reindex,
    Brief,
    Ask { query: String },
    Thread { thread_id: String },
    Draft { thread_id: String },
    Approve { draft_id: String },
    Send { draft_id: String },
    Doctor,
    Tui,
    /// Runs the setup wizard again.
    Setup,
}

/// The parsed command line: where the configuration is, and the command
/// (the terminal interface when none is given).
#[derive(Debug, Clone, PartialEq, Eq)]
pub struct Cli {
    pub config: ConfigArgs,
    pub command: Option<Commands>,
}

pub open spec fn subcommand_names_spec() -> Seq<Seq<char>> {
    seq![
        "sync"@,
        "reindex"@,
        "brief"@,
        "ask"@,
        "thread"@,
        "draft"@,
        "approve"@,
        "send"@,
        "doctor"@,
        "tui"@,
        "setup"@,
    ]
}

/// The subcommands in the order the help lists them.
pub fn subcommand_names() -> (r: Vec<&'static str>)
    ensures
        r@.map_values(|s: &'static str| s@) == subcommand_names_spec(),
{
    let r = vec![
        "sync",
        "reindex",
        "brief",
        "ask",
        "thread",
        "draft",
        "approve",
        "send",
        "doctor",
        "tui",
        "setup",
    ];
    assert(r@.map_values(|s: &'static str| s@) =~= subcommand_names_spec());
    r
}

impl Commands {
    /// The subcommand's name on the command line.
    pub fn name(&self) -> (r: &'static str)
        ensures
            r@ == subcommand_names_spec()[match self {
                Commands::Sync { .. } => 0int,
                Commands::Reindex => 1,
                Commands::Brief => 2,
                Commands::Ask { .. } => 3,
                Commands::Thread { .. } => 4,
                Commands::Draft { .. } => 5,
                Commands::Approve { .. } => 6,
                Commands::Send { .. } => 7,
                Commands::Doctor => 8,
                Commands::Tui => 9,
                Commands::Setup => 10,
            }],
    {
        match self {
            Commands::Sync { .. } => "sync",
            Commands::Reindex => "reindex",
            Commands::Brief => "brief",
            Commands::Ask { .. } => "ask",
            Commands::Thread { .. } => "thread",
            Commands::Draft { .. } => "draft",
            Commands::Approve { .. } => "approve",
            Commands::Send { .. } => "send",
            Commands::Doctor => "doctor",
            Commands::Tui => "tui",
            Commands::Setup => "setup",
        }
    }
}

/// Why `str::parse::<i64>` rejects a text.
pub enum IntError {
    Empty,
    InvalidDigit,
    PosOverflow,
    NegOverflow,
}

/// The digits after the sign, read left to right: the first character that
/// is not a digit, or the first step past the `i64` range, decides the error.
pub open spec fn scan_i64(d: Seq<char>, neg: bool, acc: int) -> Result<int, IntError>
    decreases d.len(),
{
    if d.len() == 0 {
        Ok(acc)
    } else if !crate::text::is_digit(d[0]) {
        Err(IntError::InvalidDigit)
    } else {
        let digit = (d[0] as u32) - ('0' as u32);
        let v = if neg {
            acc * 10 - digit
        } else {
            acc * 10 + digit
        };
        if v > i64::MAX {
            Err(IntError::PosOverflow)
        } else if v < i64::MIN {
            Err(IntError::NegOverflow)
        } else {
            scan_i64(d.drop_first(), neg, v)
        }
    }
}

/// `str::parse::<i64>`: an optional sign and decimal digits in range.
pub open spec fn parse_i64_spec(s: Seq<char>) -> Result<int, IntError> {
    if s.len() == 0 {
        Err(IntError::Empty)
    } else if s.len() == 1 && (s[0] == '+' || s[0] == '-') {
        Err(IntError::InvalidDigit)
    } else if s[0] == '+' {
        scan_i64(s.drop_first(), false, 0)
    } else if s[0] == '-' {
        scan_i64(s.drop_first(), true, 0)
    } else {
        scan_i64(s, false, 0)
    }
}

/// The text `ParseIntError` displays for each kind.
pub open spec fn int_error_text(e: IntError) -> Seq<char> {
    match e {
        IntError::Empty => "cannot parse integer from empty string"@,
        IntError::InvalidDigit => "invalid digit found in string"@,
        IntError::PosOverflow => "number too large to fit in target type"@,
        IntError::NegOverflow => "number too small to fit in target type"@,
    }
}

fn int_error_message(e: &IntError) -> (r: &'static str)
    ensures
        r@ == int_error_text(*e),
{
    match e {
        IntError::Empty => "cannot parse integer from empty string",
        IntError::InvalidDigit => "invalid digit found in string",
        IntError::PosOverflow => "number too large to fit in target type",
        IntError::NegOverflow => "number too small to fit in target type",
    }
}

fn scan(v: &Vec<char>, start: usize, neg: bool) -> (r: Result<i64, IntError>)
    requires
        start <= v@.len(),
    ensures
        match (r, scan_i64(v@.skip(start as int), neg, 0)) {
            (Ok(a), Ok(b)) => a == b,
            (Err(IntError::InvalidDigit), Err(IntError::InvalidDigit)) => true,
            (Err(IntError::PosOverflow), Err(IntError::PosOverflow)) => true,
            (Err(IntError::NegOverflow), Err(IntError::NegOverflow)) => true,
            _ => false,
        },
{
    let mut acc: i64 = 0;
    let mut i: usize = start;
    assert(v@.skip(start as int) =~= v@.skip(i as int));
    while i < v.len()
        invariant
            start <= i <= v@.len(),
            scan_i64(v@.skip(start as int), neg, 0) == scan_i64(v@.skip(i as int), neg, acc as int),
        decreases v@.len() - i,
    {
        let c = v[i];
        proof {
            let d = v@.skip(i as int);
            assert(d[0] == c);
            assert(d.drop_first() =~= v@.skip(i + 1));
        }
        if !('0' <= c && c <= '9') {
            return Err(IntError::InvalidDigit);
        }
        let digit: i128 = (c as u32 - '0' as u32) as i128;
        let t: i128 = if neg {
            acc as i128 * 10 - digit
        } else {
            acc as i128 * 10 + digit
        };
        if t > i64::MAX as i128 {
            return Err(IntError::PosOverflow);
        }
        if t < i64::MIN as i128 {
            return Err(IntError::NegOverflow);
        }
        acc = t as i64;
        i = i + 1;
    }
    assert(v@.skip(i as int) =~= Seq::<char>::empty());
    Ok(acc)
}

/// `s.parse::<i64>()`.
pub fn parse_i64(s: &str) -> (r: Result<i64, IntError>)
    ensures
        match (r, parse_i64_spec(s@)) {
            (Ok(a), Ok(b)) => a == b,
            (Err(IntError::Empty), Err(IntError::Empty)) => true,
            (Err(IntError::InvalidDigit), Err(IntError::InvalidDigit)) => true,
            (Err(IntError::PosOverflow), Err(IntError::PosOverflow)) => true,
            (Err(IntError::NegOverflow), Err(IntError::NegOverflow)) => true,
            _ => false,
        },
{
    let v = crate::text::chars_of(s);
    if v.len() == 0 {
        return Err(IntError::Empty);
    }
    if v.len() == 1 && (v[0] == '+' || v[0] == '-') {
        return Err(IntError::InvalidDigit);
    }
    if v[0] == '+' {
        assert(v@.skip(1) =~= s@.drop_first());
        scan(&v, 1, false)
    } else if v[0] == '-' {
        assert(v@.skip(1) =~= s@.drop_first());
        scan(&v, 1, true)
    } else {
        assert(v@.skip(0) =~= s@);
        scan(&v, 0, false)
    }
}

/// The message for an id that does not parse.
pub open spec fn invalid_id_message(kind: Seq<char>, e: IntError) -> Seq<char> {
    "invalid "@ + kind + " id: "@ + int_error_text(e)
}

/// A thread or draft id from the command line; a configuration error
/// naming the kind and the parse failure when it is not an `i64`.
pub fn parse_id(kind: &str, raw: &str) -> (r: Result<i64, AppError>)
    ensures
        match parse_i64_spec(raw@) {
            Ok(n) => r == Ok::<i64, AppError>(n as i64),
            Err(e) => r matches Err(AppError::Config(m)) && m@ == invalid_id_message(kind@, e),
        },
{
    match parse_i64(raw) {
        Ok(n) => Ok(n),
        Err(e) => {
            let mut m = "invalid ".to_string();
            crate::text::push_str(&mut m, kind);
            crate::text::push_str(&mut m, " id: ");
            crate::text::push_str(&mut m, int_error_message(&e));
            Err(AppError::Config(m))
        },
    }
}

/// What the terminal interface prints when no configuration can be
/// loaded: where it was expected (when known), a minimal example and the
/// next step, then the error.
pub open spec fn missing_config_help_spec(config_file: Option<Seq<char>>, error: Seq<char>) -> Seq<char> {
    "cour — local-first AI mail client\n\n"@ + "No configuration found.\n\n"@ + (match config_file {
        Some(p) => "Expected config at: "@ + p + "\n\n"@,
        None => Seq::empty(),
    }) + "Create a minimal config:\n\n"@ + "  mkdir -p ~/.config/cour\n"@
        + "  cat > ~/.config/cour/config.toml << 'EOF'\n"@ + "  accounts = [\n"@
        + "    { name = \"personal\", email_address = \"you@example.com\", maildir_root = \"/path/to/Maildir\", default = true }\n"@
        + "  ]\n"@ + "  EOF\n\n"@ + "Then run: cour doctor\n\n"@ + "Error: "@ + error + "\n"@
}

pub fn missing_config_help(config_file: Option<&str>, error: &AppError) -> (r: String)
    ensures
        r@ == missing_config_help_spec(
            match config_file {
                Some(p) => Some(p@),
                None => None,
            },
            crate::error::app_error_text(*error),
        ),
{
    let mut out = "cour — local-first AI mail client\n\n".to_string();
    crate::text::push_str(&mut out, "No configuration found.\n\n");
    let ghost head = out@;
    match config_file {
        Some(p) => {
            crate::text::push_str(&mut out, "Expected config at: ");
            crate::text::push_str(&mut out, p);
            crate::text::push_str(&mut out, "\n\n");
        },
        None => {},
    }
    crate::text::push_str(&mut out, "Create a minimal config:\n\n");
    crate::text::push_str(&mut out, "  mkdir -p ~/.config/cour\n");
    crate::text::push_str(&mut out, "  cat > ~/.config/cour/config.toml << 'EOF'\n");
    crate::text::push_str(&mut out, "  accounts = [\n");
    crate::text::push_str(
        &mut out,
        "    { name = \"personal\", email_address = \"you@example.com\", maildir_root = \"/path/to/Maildir\", default = true }\n",
    );
    crate::text::push_str(&mut out, "  ]\n");
    crate::text::push_str(&mut out, "  EOF\n\n");
    crate::text::push_str(&mut out, "Then run: cour doctor\n\n");
    crate::text::push_str(&mut out, "Error: ");
    crate::text::push_str(&mut out, error.message().as_str());
    crate::text::push_str(&mut out, "\n");
    out
}

} // verus!
