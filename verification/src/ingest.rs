//! What importing a message file does to the index, and the tally of an
//! import run.

use vstd::prelude::*;

verus! {

/// The counts of an import run.
#[derive(Debug, Clone, PartialEq, Eq)]
pub struct IngestReport {
    pub imported: usize,
    pub updated: usize,
    pub skipped: usize,
    pub failed: usize,
}

/// What happened to one message file.
#[derive(Debug, Clone, Copy, PartialEq, Eq, Structural)]
pub enum IngestOutcome {
    /// Not in the index before: stored.
    Imported,
    /// In the index with another time or content: stored again.
    Updated,
    /// In the index with the same time and content: left alone.
    Skipped,
}

/// The outcome for a file whose latest stored row, if any, has the given
/// modification time and hash.
pub open spec fn ingest_spec(existing: Option<(i64, Seq<char>)>, mtime: i64, hash: Seq<char>) -> IngestOutcome {
    match existing {
        None => IngestOutcome::Imported,
        Some(e) => if e.0 == mtime && e.1 == hash {
            IngestOutcome::Skipped
        } else {
            IngestOutcome::Updated
        },
    }
}

/// Decides whether a parsed file is new, changed or unchanged, from the
/// stored modification time and hash of its path.
pub fn ingest_decision(existing: Option<(i64, String)>, file_mtime: i64, parse_hash: &str) -> (r: IngestOutcome)
    ensures
        r == ingest_spec(
            match existing {
                Some(e) => Some((e.0, e.1@)),
                None => None,
            },
            file_mtime,
            parse_hash@,
        ),
{
    match existing {
        None => IngestOutcome::Imported,
        Some((mtime, hash)) => {
            if mtime == file_mtime && crate::text::str_eq(hash.as_str(), parse_hash) {
                IngestOutcome::Skipped
            } else {
                IngestOutcome::Updated
            }
        },
    }
}

/// Importing a file again without change leaves it alone.
pub proof fn law_unchanged_file_is_skipped(mtime: i64, hash: Seq<char>)
    ensures
        ingest_spec(Some((mtime, hash)), mtime, hash) == IngestOutcome::Skipped,
{
}

impl IngestReport {
    pub fn new() -> (r: Self)
        ensures
            r.imported == 0 && r.updated == 0 && r.skipped == 0 && r.failed == 0,
    {
        IngestReport { imported: 0, updated: 0, skipped: 0, failed: 0 }
    }

    /// Counts the outcome of one file; `None` is a file that could not be
    /// read, parsed or stored.
    pub fn record(&mut self, outcome: Option<IngestOutcome>)
        requires
            old(self).imported < usize::MAX,
            old(self).updated < usize::MAX,
            old(self).skipped < usize::MAX,
            old(self).failed < usize::MAX,
        ensures
            final(self).imported == old(self).imported + (if outcome == Some(IngestOutcome::Imported) { 1int } else { 0 }),
            final(self).updated == old(self).updated + (if outcome == Some(IngestOutcome::Updated) { 1int } else { 0 }),
            final(self).skipped == old(self).skipped + (if outcome == Some(IngestOutcome::Skipped) { 1int } else { 0 }),
            final(self).failed == old(self).failed + (if outcome is None { 1int } else { 0 }),
    {
        match outcome {
            Some(IngestOutcome::Imported) => self.imported = self.imported + 1,
            Some(IngestOutcome::Updated) => self.updated = self.updated + 1,
            Some(IngestOutcome::Skipped) => self.skipped = self.skipped + 1,
            None => self.failed = self.failed + 1,
        }
    }

    /// `imported=…, updated=…, skipped=…, failed=…` after the account name.
    pub fn summary_line(&self, account_name: &str) -> (r: String)
        ensures
            r@ == account_name@ + ": imported="@ + crate::text::decimal(self.imported as nat)
                + ", updated="@ + crate::text::decimal(self.updated as nat) + ", skipped="@
                + crate::text::decimal(self.skipped as nat) + ", failed="@ + crate::text::decimal(
                self.failed as nat,
            ),
    {
        let mut out = account_name.to_string();
        crate::text::push_str(&mut out, ": imported=");
        crate::text::push_decimal(&mut out, self.imported as u64);
        crate::text::push_str(&mut out, ", updated=");
        crate::text::push_decimal(&mut out, self.updated as u64);
        crate::text::push_str(&mut out, ", skipped=");
        crate::text::push_decimal(&mut out, self.skipped as u64);
        crate::text::push_str(&mut out, ", failed=");
        crate::text::push_decimal(&mut out, self.failed as u64);
        out
    }
}

/// The two folders of a mailbox whose files are imported, in order.
pub fn message_subdirs() -> (r: Vec<&'static str>)
    ensures
        r@.len() == 2,
        r@[0]@ == "cur"@,
        r@[1]@ == "new"@,
{
    vec!["cur", "new"]
}

} // verus!
