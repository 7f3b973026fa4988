//! The list and reading screens: which row is selected and how a move
//! changes it; the selection stays on a row whenever the list has rows.

use vstd::prelude::*;
use crate::index::query::{DraftReviewRow, ThreadDetailRow, ThreadListRow, row_ids};
use crate::text::{chars_of, collapse_ws, take_chars};

verus! {

/// The index after a move one row down a list of `len` rows.
pub open spec fn next_index(selected: nat, len: nat) -> nat {
    if len == 0 {
        selected
    } else if selected + 1 < len {
        selected + 1
    } else {
        (len - 1) as nat
    }
}

/// The index after a move one row up: never below the first row.
pub open spec fn previous_index(selected: nat) -> nat {
    if selected == 0 {
        0
    } else {
        (selected - 1) as nat
    }
}

/// A selection brought back onto a list of `len` rows.
pub open spec fn clamp_index(selected: nat, len: nat) -> nat {
    if len == 0 {
        0
    } else if selected >= len {
        (len - 1) as nat
    } else {
        selected
    }
}

fn next_usize(selected: usize, len: usize) -> (r: usize)
    ensures
        r == next_index(selected as nat, len as nat),
{
    if len == 0 {
        selected
    } else if selected < len - 1 {
        selected + 1
    } else {
        len - 1
    }
}

fn clamp_usize(selected: usize, len: usize) -> (r: usize)
    ensures
        r == clamp_index(selected as nat, len as nat),
{
    if len == 0 {
        0
    } else if selected >= len {
        len - 1
    } else {
        selected
    }
}

/// The inbox: recent threads, or those in one state.
#[derive(Debug, Clone)]
pub struct InboxState {
    pub threads: Vec<ThreadListRow>,
    pub selected: usize,
    pub filter: Option<String>,
}

impl InboxState {
    pub fn new() -> (r: Self)
        ensures
            r.threads@.len() == 0,
            r.selected == 0,
            r.filter is None,
    {
        InboxState { threads: Vec::new(), selected: 0, filter: None }
    }

    /// Down: the next row, staying on the last one.
    pub fn next(&mut self)
        ensures
            final(self).threads == old(self).threads,
            final(self).filter == old(self).filter,
            final(self).selected == next_index(old(self).selected as nat, old(self).threads@.len()),
    {
        self.selected = next_usize(self.selected, self.threads.len());
    }

    /// Up: the previous row, staying on the first one.
    pub fn previous(&mut self)
        ensures
            final(self).threads == old(self).threads,
            final(self).filter == old(self).filter,
            final(self).selected == previous_index(old(self).selected as nat),
    {
        if self.selected > 0 {
            self.selected = self.selected - 1;
        }
    }

    /// The id of the selected thread, when the selection is on a row.
    pub fn selected_thread_id(&self) -> (r: Option<i64>)
        ensures
            r == (if self.selected < self.threads@.len() {
                Some(self.threads@[self.selected as int].id)
            } else {
                None
            }),
    {
        if self.selected < self.threads.len() {
            Some(self.threads[self.selected].id)
        } else {
            None
        }
    }

    /// Shows freshly loaded threads, keeping the selection on a row.
    pub fn set_threads(&mut self, threads: Vec<ThreadListRow>)
        ensures
            final(self).threads@ == threads@,
            final(self).filter == old(self).filter,
            final(self).selected == clamp_index(old(self).selected as nat, threads@.len()),
    {
        self.threads = threads;
        self.selected = clamp_usize(self.selected, self.threads.len());
    }
}

/// The drafts awaiting review.
#[derive(Debug, Clone)]
pub struct DraftsState {
    pub drafts: Vec<DraftReviewRow>,
    pub selected: usize,
}

impl DraftsState {
    pub fn new() -> (r: Self)
        ensures
            r.drafts@.len() == 0,
            r.selected == 0,
    {
        DraftsState { drafts: Vec::new(), selected: 0 }
    }

    pub fn move_next(&mut self)
        ensures
            final(self).drafts == old(self).drafts,
            final(self).selected == next_index(old(self).selected as nat, old(self).drafts@.len()),
    {
        self.selected = next_usize(self.selected, self.drafts.len());
    }

    /// Up: the previous row; an empty list keeps its selection.
    pub fn move_previous(&mut self)
        ensures
            final(self).drafts == old(self).drafts,
            final(self).selected == (if old(self).drafts@.len() == 0 {
                old(self).selected as nat
            } else {
                previous_index(old(self).selected as nat)
            }),
    {
        if self.drafts.len() > 0 && self.selected > 0 {
            self.selected = self.selected - 1;
        }
    }

    pub fn selected_draft(&self) -> (r: Option<&DraftReviewRow>)
        ensures
            match r {
                Some(d) => self.selected < self.drafts@.len() && *d == self.drafts@[self.selected as int],
                None => self.selected >= self.drafts@.len(),
            },
    {
        if self.selected < self.drafts.len() {
            Some(&self.drafts[self.selected])
        } else {
            None
        }
    }

    /// Shows freshly loaded drafts, keeping the selection on a row.
    pub fn set_drafts(&mut self, drafts: Vec<DraftReviewRow>)
        ensures
            final(self).drafts@ == drafts@,
            final(self).selected == clamp_index(old(self).selected as nat, drafts@.len()),
    {
        self.drafts = drafts;
        self.selected = clamp_usize(self.selected, self.drafts.len());
    }
}

/// The thread being read and how far it is scrolled.
#[derive(Debug, Clone)]
pub struct ThreadViewState {
    pub thread_id: Option<i64>,
    pub detail: Option<ThreadDetailRow>,
    pub scroll_offset: usize,
}

impl ThreadViewState {
    pub fn new() -> (r: Self)
        ensures
            r.thread_id is None,
            r.detail is None,
            r.scroll_offset == 0,
    {
        ThreadViewState { thread_id: None, detail: None, scroll_offset: 0 }
    }

    pub fn scroll_down(&mut self)
        ensures
            final(self).thread_id == old(self).thread_id,
            final(self).detail == old(self).detail,
            final(self).scroll_offset == (if old(self).scroll_offset == usize::MAX {
                usize::MAX as int
            } else {
                old(self).scroll_offset + 1
            }),
    {
        if self.scroll_offset < usize::MAX {
            self.scroll_offset = self.scroll_offset + 1;
        }
    }

    pub fn scroll_up(&mut self)
        ensures
            final(self).thread_id == old(self).thread_id,
            final(self).detail == old(self).detail,
            final(self).scroll_offset == previous_index(old(self).scroll_offset as nat),
    {
        if self.scroll_offset > 0 {
            self.scroll_offset = self.scroll_offset - 1;
        }
    }

    /// Opens a thread at the top, before its messages are loaded.
    pub fn show_thread(&mut self, thread_id: i64)
        ensures
            final(self).thread_id == Some(thread_id),
            final(self).detail is None,
            final(self).scroll_offset == 0,
    {
        self.thread_id = Some(thread_id);
        self.detail = None;
        self.scroll_offset = 0;
    }
}

/// The action lists: threads needing a reply, threads waiting on others,
/// and the number of drafts pending.
#[derive(Debug, Clone, PartialEq, Eq)]
pub struct ActionsState {
    pub needs_reply: Vec<ThreadListRow>,
    pub waiting_on_them: Vec<ThreadListRow>,
    pub pending_drafts: i64,
    pub selected_section: usize,
    pub selected_row: usize,
}

/// The rows of a section: needs-reply, waiting, and none for the drafts
/// counter.
pub open spec fn section_rows(a: ActionsState, section: nat) -> Seq<ThreadListRow> {
    if section == 0 {
        a.needs_reply@
    } else if section == 1 {
        a.waiting_on_them@
    } else {
        Seq::empty()
    }
}

/// `(value).clamp(0, len - 1)` for a non-empty list.
pub open spec fn clamp_signed(value: int, len: nat) -> nat {
    if value < 0 {
        0
    } else if value > len - 1 {
        (len - 1) as nat
    } else {
        value as nat
    }
}

impl ActionsState {
    pub fn new() -> (r: Self)
        ensures
            r.needs_reply@.len() == 0,
            r.waiting_on_them@.len() == 0,
            r.pending_drafts == 0,
            r.selected_section == 0,
            r.selected_row == 0,
    {
        ActionsState {
            needs_reply: Vec::new(),
            waiting_on_them: Vec::new(),
            pending_drafts: 0,
            selected_section: 0,
            selected_row: 0,
        }
    }

    fn rows_len(&self) -> (n: usize)
        ensures
            n == section_rows(*self, self.selected_section as nat).len(),
    {
        if self.selected_section == 0 {
            self.needs_reply.len()
        } else if self.selected_section == 1 {
            self.waiting_on_them.len()
        } else {
            0
        }
    }

    fn clamp_selection(&mut self)
        ensures
            final(self).needs_reply == old(self).needs_reply,
            final(self).waiting_on_them == old(self).waiting_on_them,
            final(self).pending_drafts == old(self).pending_drafts,
            final(self).selected_section == old(self).selected_section,
            final(self).selected_row == clamp_index(
                old(self).selected_row as nat,
                section_rows(*old(self), old(self).selected_section as nat).len(),
            ),
    {
        let len = self.rows_len();
        self.selected_row = clamp_usize(self.selected_row, len);
    }

    /// Tab: the next section, cyclically over the three, with the row kept
    /// within the new section (the sum is taken over the integers).
    pub fn move_section(&mut self, delta: isize)
        ensures
            final(self).needs_reply == old(self).needs_reply,
            final(self).waiting_on_them == old(self).waiting_on_them,
            final(self).pending_drafts == old(self).pending_drafts,
            final(self).selected_section == (old(self).selected_section + delta) % 3,
            final(self).selected_row == clamp_index(
                old(self).selected_row as nat,
                section_rows(*old(self), ((old(self).selected_section + delta) % 3) as nat).len(),
            ),
    {
        let t: i128 = self.selected_section as i128 + delta as i128;
        let m: i128 = t % 3;
        let next: i128 = if m < 0 {
            m + 3
        } else {
            m
        };
        self.selected_section = next as usize;
        self.clamp_selection();
    }

    /// Down or up within the section, kept on its rows; an empty section
    /// selects its first place (the sum is taken over the integers).
    pub fn move_row(&mut self, delta: isize)
        ensures
            final(self).needs_reply == old(self).needs_reply,
            final(self).waiting_on_them == old(self).waiting_on_them,
            final(self).pending_drafts == old(self).pending_drafts,
            final(self).selected_section == old(self).selected_section,
            final(self).selected_row == (if section_rows(*old(self), old(self).selected_section as nat).len() == 0 {
                0
            } else {
                clamp_signed(
                    old(self).selected_row + delta,
                    section_rows(*old(self), old(self).selected_section as nat).len(),
                )
            }),
    {
        let len = self.rows_len();
        if len == 0 {
            self.selected_row = 0;
            return ;
        }
        let t: i128 = self.selected_row as i128 + delta as i128;
        self.selected_row = if t < 0 {
            0
        } else if t > (len - 1) as i128 {
            len - 1
        } else {
            t as usize
        };
    }

    /// The id of the selected thread, when the selection is on a row.
    pub fn selected_thread_id(&self) -> (r: Option<i64>)
        ensures
            r == (if self.selected_row < section_rows(*self, self.selected_section as nat).len() {
                Some(section_rows(*self, self.selected_section as nat)[self.selected_row as int].id)
            } else {
                None
            }),
    {
        if self.selected_section == 0 {
            if self.selected_row < self.needs_reply.len() {
                return Some(self.needs_reply[self.selected_row].id);
            }
        } else if self.selected_section == 1 {
            if self.selected_row < self.waiting_on_them.len() {
                return Some(self.waiting_on_them[self.selected_row].id);
            }
        }
        None
    }

    /// Shows freshly loaded lists, keeping the selection on a row.
    pub fn set_lists(&mut self, needs_reply: Vec<ThreadListRow>, waiting_on_them: Vec<ThreadListRow>, pending_drafts: i64)
        ensures
            final(self).needs_reply@ == needs_reply@,
            final(self).waiting_on_them@ == waiting_on_them@,
            final(self).pending_drafts == pending_drafts,
            final(self).selected_section == old(self).selected_section,
            final(self).selected_row == clamp_index(
                old(self).selected_row as nat,
                section_rows(*final(self), old(self).selected_section as nat).len(),
            ),
    {
        self.needs_reply = needs_reply;
        self.waiting_on_them = waiting_on_them;
        self.pending_drafts = pending_drafts;
        self.clamp_selection();
    }
}

/// The search screen as its keys see it: the query, whether it is being
/// typed, the threads of the results in order, and the selected result.
#[derive(Debug, Clone)]
pub struct SearchState {
    pub query: String,
    pub editing: bool,
    pub result_threads: Vec<i64>,
    pub selected: usize,
}

impl SearchState {
    pub fn new() -> (r: Self)
        ensures
            r.query@.len() == 0,
            !r.editing,
            r.result_threads@.len() == 0,
            r.selected == 0,
    {
        SearchState { query: String::new(), editing: false, result_threads: Vec::new(), selected: 0 }
    }

    /// Down: the next result; no results select the first place.
    pub fn move_down(&mut self)
        ensures
            final(self).query == old(self).query,
            final(self).editing == old(self).editing,
            final(self).result_threads == old(self).result_threads,
            final(self).selected == (if old(self).result_threads@.len() == 0 {
                0
            } else {
                next_index(old(self).selected as nat, old(self).result_threads@.len())
            }),
    {
        if self.result_threads.len() == 0 {
            self.selected = 0;
        } else {
            self.selected = next_usize(self.selected, self.result_threads.len());
        }
    }

    pub fn move_up(&mut self)
        ensures
            final(self).query == old(self).query,
            final(self).editing == old(self).editing,
            final(self).result_threads == old(self).result_threads,
            final(self).selected == previous_index(old(self).selected as nat),
    {
        if self.selected > 0 {
            self.selected = self.selected - 1;
        }
    }

    pub fn selected_thread_id(&self) -> (r: Option<i64>)
        ensures
            r == (if self.selected < self.result_threads@.len() {
                Some(self.result_threads@[self.selected as int])
            } else {
                None
            }),
    {
        if self.selected < self.result_threads.len() {
            Some(self.result_threads[self.selected])
        } else {
            None
        }
    }

    /// Shows the threads of new results; the selection is kept, moved back
    /// to the last result when past it (to the first place when there are
    /// none).
    pub fn set_results(&mut self, result_threads: Vec<i64>)
        ensures
            final(self).query == old(self).query,
            final(self).editing == old(self).editing,
            final(self).result_threads@ == result_threads@,
            final(self).selected == clamp_index(old(self).selected as nat, result_threads@.len()),
    {
        self.result_threads = result_threads;
        self.selected = clamp_usize(self.selected, self.result_threads.len());
    }
}

/// A timestamp shortened for a list: `T` shown as a space, at most sixteen
/// characters.
pub open spec fn compact_spec(v: Seq<char>) -> Seq<char> {
    take_chars(v.map_values(|c: char| if c == 'T' { ' ' } else { c }), 16)
}

pub fn compact_timestamp(value: &str) -> (r: String)
    ensures
        r@ == compact_spec(value@),
{
    let v = chars_of(value);
    let mut out: Vec<char> = Vec::new();
    let mut i: usize = 0;
    while i < v.len()
        invariant
            i <= v@.len(),
            v@ == value@,
            out@ == v@.take(i as int).map_values(|c: char| if c == 'T' { ' ' } else { c }),
        decreases v@.len() - i,
    {
        let c = v[i];
        out.push(if c == 'T' { ' ' } else { c });
        i = i + 1;
        assert(out@ =~= v@.take(i as int).map_values(|c: char| if c == 'T' { ' ' } else { c }));
    }
    assert(v@.take(v@.len() as int) =~= v@);
    let s = crate::text::string_from(out.as_slice());
    crate::text::take_prefix(s.as_str(), 16)
}

/// How old a thread looks in the action lists.
pub open spec fn age_spec(latest: Option<Seq<char>>) -> Seq<char> {
    match latest {
        Some(v) => compact_spec(v),
        None => "unknown age"@,
    }
}

pub fn format_age(latest_message_at: Option<&str>) -> (r: String)
    ensures
        r@ == age_spec(match latest_message_at {
            Some(v) => Some(v@),
            None => None,
        }),
{
    match latest_message_at {
        Some(v) => compact_timestamp(v),
        None => "unknown age".to_string(),
    }
}

/// `[id] subject  (n messages, age)`.
pub open spec fn thread_row_spec(r: ThreadListRow) -> Seq<char> {
    "["@ + crate::text::decimal_int(r.id as int) + "] "@ + (match r.subject {
        Some(s) => s@,
        None => "(no subject)"@,
    }) + "  ("@ + crate::text::decimal_int(r.message_count as int) + " messages, "@ + age_spec(
        crate::threading::opt_view(r.latest_message_at),
    ) + ")"@
}

pub fn format_thread_row(row: &ThreadListRow) -> (r: String)
    ensures
        r@ == thread_row_spec(*row),
{
    let mut out = "[".to_string();
    crate::text::push_decimal_i64(&mut out, row.id);
    crate::text::push_str(&mut out, "] ");
    match &row.subject {
        Some(s) => crate::text::push_str(&mut out, s.as_str()),
        None => crate::text::push_str(&mut out, "(no subject)"),
    }
    crate::text::push_str(&mut out, "  (");
    crate::text::push_decimal_i64(&mut out, row.message_count);
    crate::text::push_str(&mut out, " messages, ");
    let age = match &row.latest_message_at {
        Some(v) => format_age(Some(v.as_str())),
        None => format_age(None),
    };
    crate::text::push_str(&mut out, age.as_str());
    crate::text::push_str(&mut out, ")");
    out
}

/// A search snippet on one line: whitespace runs collapsed, and cut to
/// `max_chars` characters with a final `…` when longer.
pub open spec fn truncate_spec(s: Seq<char>, max_chars: nat) -> Seq<char> {
    let n = collapse_ws(s);
    if n.len() <= max_chars {
        n
    } else {
        take_chars(n, if max_chars == 0 { 0 } else { max_chars - 1 }) + "…"@
    }
}

pub fn truncate_snippet(snippet: &str, max_chars: usize) -> (r: String)
    ensures
        r@ == truncate_spec(snippet@, max_chars as nat),
{
    let normalized = crate::text::collapse_whitespace(snippet);
    let n = chars_of(normalized.as_str()).len();
    if n <= max_chars {
        return normalized;
    }
    let keep: usize = if max_chars == 0 {
        0
    } else {
        max_chars - 1
    };
    let mut t = crate::text::take_prefix(normalized.as_str(), keep);
    crate::text::push_str(&mut t, "…");
    t
}

} // verus!
