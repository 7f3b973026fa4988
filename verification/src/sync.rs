//! The outcome of an account's download command and the lines that report
//! a sync.

use vstd::prelude::*;
use crate::error::AppError;
use crate::maildir::DiscoveredMailbox;

verus! {

/// One run of an account's download command; times are nanoseconds since
/// the Unix epoch.
#[derive(Debug, Clone, PartialEq, Eq)]
pub struct SyncRunResult {
    pub command: Option<String>,
    pub started_at: u128,
    pub finished_at: u128,
    pub exit_code: Option<i32>,
    pub stdout_text: String,
    pub stderr_text: String,
}

/// A synced account: the run and the mailboxes found afterwards.
#[derive(Debug, Clone, PartialEq, Eq)]
pub struct SyncAccountResult {
    pub account_name: String,
    pub mailboxes: Vec<DiscoveredMailbox>,
    pub sync: SyncRunResult,
}

/// `{:?}` of an exit code: `Some(n)` or `None`.
pub open spec fn exit_code_text(code: Option<i32>) -> Seq<char> {
    match code {
        Some(n) => "Some("@ + crate::text::decimal_int(n as int) + ")"@,
        None => "None"@,
    }
}

fn push_exit_code(out: &mut String, code: Option<i32>)
    ensures
        final(out)@ == old(out)@ + exit_code_text(code),
{
    match code {
        Some(n) => {
            crate::text::push_str(out, "Some(");
            crate::text::push_decimal_i64(out, n as i64);
            crate::text::push_str(out, ")");
        },
        None => crate::text::push_str(out, "None"),
    }
}

/// The run recorded for an account without a download command: nothing
/// run, exit code 0, and a note on stderr.
pub fn unconfigured_run(started_at: u128, finished_at: u128) -> (r: SyncRunResult)
    ensures
        r.command is None,
        r.started_at == started_at,
        r.finished_at == finished_at,
        r.exit_code == Some(0i32),
        r.stdout_text@.len() == 0,
        r.stderr_text@ == "sync command not configured"@,
{
    SyncRunResult {
        command: None,
        started_at,
        finished_at,
        exit_code: Some(0),
        stdout_text: String::new(),
        stderr_text: "sync command not configured".to_string(),
    }
}

/// The message for a command that did not exit with status 0.
pub open spec fn command_failed_message(command: Seq<char>, code: Option<i32>, stderr: Seq<char>) -> Seq<char> {
    "command `"@ + command + "` failed with status "@ + exit_code_text(code) + ": "@ + stderr
}

/// The result of a finished download command: the run when it exited with
/// status 0, else a sync error naming the command, its status and stderr.
pub fn finish_sync_run(
    command: String,
    started_at: u128,
    finished_at: u128,
    exit_code: Option<i32>,
    stdout_text: String,
    stderr_text: String,
) -> (r: Result<SyncRunResult, AppError>)
    ensures
        exit_code == Some(0i32) ==> (r matches Ok(run) && crate::threading::opt_view(run.command)
            == Some(command@) && run.started_at == started_at && run.finished_at == finished_at
            && run.exit_code == exit_code && run.stdout_text@ == stdout_text@ && run.stderr_text@
            == stderr_text@),
        exit_code != Some(0i32) ==> (r matches Err(AppError::SyncCommand(m)) && m@
            == command_failed_message(command@, exit_code, stderr_text@)),
{
    if exit_code == Some(0i32) {
        Ok(
            SyncRunResult {
                command: Some(command),
                started_at,
                finished_at,
                exit_code,
                stdout_text,
                stderr_text,
            },
        )
    } else {
        let mut m = "command `".to_string();
        crate::text::push_str(&mut m, command.as_str());
        crate::text::push_str(&mut m, "` failed with status ");
        push_exit_code(&mut m, exit_code);
        crate::text::push_str(&mut m, ": ");
        crate::text::push_str(&mut m, stderr_text.as_str());
        Err(AppError::SyncCommand(m))
    }
}

impl SyncRunResult {
    /// The command text recorded for the run (empty when none was run).
    pub fn command_text(&self) -> (r: String)
        ensures
            r@ == (match self.command {
                Some(c) => c@,
                None => Seq::empty(),
            }),
    {
        match &self.command {
            Some(c) => c.clone(),
            None => String::new(),
        }
    }
}

/// `<name>: sync ok (exit=<code>, mailboxes=<n>)`.
pub open spec fn sync_line_spec(name: Seq<char>, code: Option<i32>, mailboxes: nat) -> Seq<char> {
    name + ": sync ok (exit="@ + exit_code_text(code) + ", mailboxes="@ + crate::text::decimal(
        mailboxes,
    ) + ")"@
}

pub fn sync_line(result: &SyncAccountResult) -> (r: String)
    ensures
        r@ == sync_line_spec(
            result.account_name@,
            result.sync.exit_code,
            result.mailboxes@.len(),
        ),
{
    let mut out = result.account_name.clone();
    crate::text::push_str(&mut out, ": sync ok (exit=");
    push_exit_code(&mut out, result.sync.exit_code);
    crate::text::push_str(&mut out, ", mailboxes=");
    crate::text::push_decimal(&mut out, result.mailboxes.len() as u64);
    crate::text::push_str(&mut out, ")");
    out
}

/// The report of a sync: one line per account, then whether watching is on.
pub fn sync_report(results: &Vec<SyncAccountResult>, watching: bool) -> (r: String)
    ensures
        r@ == crate::text::join_spec(
            results@.map_values(
                |x: SyncAccountResult| sync_line_spec(x.account_name@, x.sync.exit_code, x.mailboxes@.len()),
            ).push(
                if watching {
                    "watch: enabled"@
                } else {
                    "watch: disabled"@
                },
            ),
            "\n"@,
        ),
{
    let mut lines: Vec<String> = Vec::new();
    let mut i: usize = 0;
    while i < results.len()
        invariant
            i <= results@.len(),
            crate::text::string_views(lines@) == results@.take(i as int).map_values(
                |x: SyncAccountResult| sync_line_spec(x.account_name@, x.sync.exit_code, x.mailboxes@.len()),
            ),
        decreases results@.len() - i,
    {
        let l = sync_line(&results[i]);
        let ghost before = lines@;
        lines.push(l);
        assert(crate::text::string_views(lines@) =~= crate::text::string_views(before).push(l@));
        assert(results@.take(i + 1) =~= results@.take(i as int).push(results@[i as int]));
        assert(crate::text::string_views(lines@) =~= results@.take(i + 1).map_values(
            |x: SyncAccountResult| sync_line_spec(x.account_name@, x.sync.exit_code, x.mailboxes@.len()),
        ));
        i = i + 1;
    }
    assert(results@.take(results@.len() as int) =~= results@);
    let ghost before = lines@;
    if watching {
        lines.push("watch: enabled".to_string());
    } else {
        lines.push("watch: disabled".to_string());
    }
    assert(crate::text::string_views(lines@) =~= crate::text::string_views(before).push(
        if watching {
            "watch: enabled"@
        } else {
            "watch: disabled"@
        },
    ));
    crate::text::join_strings(&lines, "\n")
}

} // verus!
