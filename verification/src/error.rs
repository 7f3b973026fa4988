//! The error type of the library.

use vstd::prelude::*;

verus! {

/// What can go wrong, each with its message.
#[derive(Debug, Clone, PartialEq, Eq)]
pub enum AppError {
    Config(String),
    Io(String),
    Sqlite(String),
    SyncCommand(String),
    Parsing(String),
    Ai(String),
    Send(String),
}

impl AppError {
    /// The message shown for this error, as `Display` writes it in the
    /// application: a prefix naming the kind, then the detail.
    pub fn message(&self) -> (r: String)
        ensures
            r@ == app_error_text(*self),
    {
        let (prefix, detail) = match self {
            AppError::Config(d) => ("configuration error: ", d),
            AppError::Io(d) => ("I/O error: ", d),
            AppError::Sqlite(d) => ("SQLite error: ", d),
            AppError::SyncCommand(d) => ("sync command failed: ", d),
            AppError::Parsing(d) => ("parse error: ", d),
            AppError::Ai(d) => ("AI error: ", d),
            AppError::Send(d) => ("send error: ", d),
        };
        let mut out = String::new();
        crate::text::push_str(&mut out, prefix);
        crate::text::push_str(&mut out, detail.as_str());
        proof {
            reveal_strlit("configuration error: ");
            reveal_strlit("I/O error: ");
            reveal_strlit("SQLite error: ");
            reveal_strlit("sync command failed: ");
            reveal_strlit("parse error: ");
            reveal_strlit("AI error: ");
            reveal_strlit("send error: ");
        }
        out
    }
}

/// `e` is a configuration error with message `msg`.
pub open spec fn is_config_error(e: AppError, msg: Seq<char>) -> bool {
    match e {
        AppError::Config(m) => m@ == msg,
        _ => false,
    }
}

/// `e` is a send error with message `msg`.
pub open spec fn is_send_error(e: AppError, msg: Seq<char>) -> bool {
    match e {
        AppError::Send(m) => m@ == msg,
        _ => false,
    }
}

pub open spec fn app_error_text(e: AppError) -> Seq<char> {
    match e {
        AppError::Config(d) => "configuration error: "@ + d@,
        AppError::Io(d) => "I/O error: "@ + d@,
        AppError::Sqlite(d) => "SQLite error: "@ + d@,
        AppError::SyncCommand(d) => "sync command failed: "@ + d@,
        AppError::Parsing(d) => "parse error: "@ + d@,
        AppError::Ai(d) => "AI error: "@ + d@,
        AppError::Send(d) => "send error: "@ + d@,
    }
}

/// The message of a file the parser rejects.
pub open spec fn parse_failure_message(path: Seq<char>) -> Seq<char> {
    "failed to parse message "@ + path
}

} // verus!
