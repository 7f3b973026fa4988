//! The brief screen: a few sections of threads by state, the most recent
//! threads, and the number of drafts awaiting review.

use vstd::prelude::*;
use crate::commands::read::subject_or_default;
use crate::index::query::ThreadListRow;
use crate::text::{decimal_int, push_decimal_i64, push_str};
use crate::threading::opt_view;
use crate::ui::screen::{line_of, lines_view, one, push_line, toned, Piece, ScreenLine, Tone};

verus! {

/// The sections of the brief screen: a title and the thread state listed
/// under it.
pub open spec fn screen_sections_spec() -> Seq<(Seq<char>, Seq<char>)> {
    seq![
        ("Needs Reply"@, "waiting_on_me"@),
        ("Urgent"@, "urgent"@),
        ("Waiting on Them"@, "waiting_on_them"@),
        ("Follow Up Due"@, "follow_up_due"@),
        ("Low Value"@, "low_value"@),
    ]
}

pub fn screen_sections() -> (r: Vec<(&'static str, &'static str)>)
    ensures
        r@.map_values(|p: (&'static str, &'static str)| (p.0@, p.1@)) == screen_sections_spec(),
{
    let mut v: Vec<(&'static str, &'static str)> = Vec::new();
    v.push(("Needs Reply", "waiting_on_me"));
    v.push(("Urgent", "urgent"));
    v.push(("Waiting on Them", "waiting_on_them"));
    v.push(("Follow Up Due", "follow_up_due"));
    v.push(("Low Value", "low_value"));
    assert(v@.map_values(|p: (&'static str, &'static str)| (p.0@, p.1@)) =~= screen_sections_spec());
    v
}

/// The colour of a thread's subject, by its state.
pub open spec fn thread_tone_spec(state: Option<Seq<char>>) -> Tone {
    if state == Some("waiting_on_me"@) {
        Tone::NeedsReply
    } else if state == Some("waiting_on_them"@) {
        Tone::Waiting
    } else if state == Some("low_value"@) {
        Tone::LowValue
    } else {
        Tone::Text
    }
}

pub fn thread_tone(state: &Option<String>) -> (r: Tone)
    ensures
        r == thread_tone_spec(opt_view(*state)),
{
    match state {
        Some(s) => {
            if crate::text::str_eq(s.as_str(), "waiting_on_me") {
                Tone::NeedsReply
            } else if crate::text::str_eq(s.as_str(), "waiting_on_them") {
                Tone::Waiting
            } else if crate::text::str_eq(s.as_str(), "low_value") {
                Tone::LowValue
            } else {
                Tone::Text
            }
        },
        None => Tone::Text,
    }
}

/// A thread row: its id in brackets, its subject in the colour of its
/// state, and its message count when it has more than one.
pub open spec fn thread_row_spec(r: ThreadListRow) -> Seq<(Tone, Seq<char>)> {
    seq![
        (Tone::Dim, "  ["@ + decimal_int(r.id as int) + "] "@),
        (thread_tone_spec(opt_view(r.state)), subject_or_default(r.subject)),
        (Tone::Dim, if r.message_count > 1 {
            "  ("@ + decimal_int(r.message_count as int) + " messages)"@
        } else {
            Seq::empty()
        }),
    ]
}

fn thread_row(row: &ThreadListRow) -> (r: ScreenLine)
    ensures
        r@ == thread_row_spec(*row),
{
    let mut id = "  [".to_string();
    push_decimal_i64(&mut id, row.id);
    push_str(&mut id, "] ");
    let subject = match &row.subject {
        Some(s) => s.clone(),
        None => "(no subject)".to_string(),
    };
    let count = if row.message_count > 1 {
        let mut c = "  (".to_string();
        push_decimal_i64(&mut c, row.message_count);
        push_str(&mut c, " messages)");
        c
    } else {
        String::new()
    };
    let mut pieces: Vec<Piece> = Vec::new();
    pieces.push(Piece { tone: Tone::Dim, text: id });
    pieces.push(Piece { tone: thread_tone(&row.state), text: subject });
    pieces.push(Piece { tone: Tone::Dim, text: count });
    let r = line_of(pieces);
    assert(r@ =~= thread_row_spec(*row));
    r
}

/// A section: its title as a header, then a row per thread, or a dim
/// "none" when it has none.
pub open spec fn section_spec(title: Seq<char>, threads: Seq<ThreadListRow>) -> Seq<Seq<(Tone, Seq<char>)>> {
    seq![one(Tone::Header, title)] + if threads.len() == 0 {
        seq![one(Tone::Dim, "  — none"@)]
    } else {
        threads.map_values(|r: ThreadListRow| thread_row_spec(r))
    }
}

pub fn section_lines(title: &str, threads: &Vec<ThreadListRow>) -> (r: Vec<ScreenLine>)
    ensures
        lines_view(r@) == section_spec(title@, threads@),
{
    let mut out: Vec<ScreenLine> = Vec::new();
    push_line(&mut out, toned(Tone::Header, title.to_string()));
    let ghost head = lines_view(out@);
    if threads.len() == 0 {
        push_line(&mut out, toned(Tone::Dim, "  — none".to_string()));
    } else {
        let mut i: usize = 0;
        while i < threads.len()
            invariant
                i <= threads@.len(),
                lines_view(out@) == head + threads@.take(i as int).map_values(|r: ThreadListRow| thread_row_spec(r)),
            decreases threads@.len() - i,
        {
            push_line(&mut out, thread_row(&threads[i]));
            assert(threads@.take(i + 1) =~= threads@.take(i as int).push(threads@[i as int]));
            i = i + 1;
            assert(lines_view(out@) =~= head + threads@.take(i as int).map_values(
                |r: ThreadListRow| thread_row_spec(r),
            ));
        }
        assert(threads@.take(i as int) =~= threads@);
    }
    assert(lines_view(out@) =~= section_spec(title@, threads@));
    out
}

/// The count of drafts awaiting review, as a muted label and a badge.
pub open spec fn pending_line_spec(n: i64) -> Seq<(Tone, Seq<char>)> {
    seq![(Tone::Muted, "Pending drafts: "@), (Tone::Badge, decimal_int(n as int))]
}

pub fn pending_drafts_line(n: i64) -> (r: ScreenLine)
    ensures
        r@ == pending_line_spec(n),
{
    let mut count = String::new();
    push_decimal_i64(&mut count, n);
    let mut pieces: Vec<Piece> = Vec::new();
    pieces.push(Piece { tone: Tone::Muted, text: "Pending drafts: ".to_string() });
    pieces.push(Piece { tone: Tone::Badge, text: count });
    let r = line_of(pieces);
    assert(r@ =~= pending_line_spec(n));
    r
}

} // verus!
