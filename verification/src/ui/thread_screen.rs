//! The thread screen: the conversation on the left, its metadata on the
//! right.

use vstd::prelude::*;
use crate::commands::read::{or_unknown, subject_or_default};
use crate::index::query::{ThreadDetailRow, ThreadMessageRow};
use crate::text::{decimal, lines_spec, push_decimal, push_str, seq_lt, str_eq, str_lt, string_views, text_lines};
use crate::ui::screen::{line_of, lines_view, one, push_line, toned, Piece, ScreenLine, Tone};

verus! {

/// The rule drawn between two messages.
pub open spec fn rule_text() -> Seq<char> {
    "────────────────────────────────────────"@
}

/// A line with no text.
pub open spec fn blank_spec() -> Seq<(Tone, Seq<char>)> {
    Seq::empty()
}

pub fn blank() -> (r: ScreenLine)
    ensures
        r@ == blank_spec(),
{
    let r = line_of(Vec::new());
    assert(r@ =~= blank_spec());
    r
}

/// Two pieces: a dim label, then a value in the given tone.
pub open spec fn labelled(label: Seq<char>, tone: Tone, value: Seq<char>) -> Seq<(Tone, Seq<char>)> {
    seq![(Tone::Dim, label), (tone, value)]
}

fn labelled_line(label: &str, tone: Tone, value: String) -> (r: ScreenLine)
    ensures
        r@ == labelled(label@, tone, value@),
{
    let mut pieces: Vec<Piece> = Vec::new();
    pieces.push(Piece { tone: Tone::Dim, text: label.to_string() });
    pieces.push(Piece { tone, text: value });
    let r = line_of(pieces);
    assert(r@ =~= labelled(label@, tone, value@));
    r
}

fn or_unknown_text(s: &Option<String>) -> (r: String)
    ensures
        r@ == or_unknown(*s),
{
    match s {
        Some(t) => t.clone(),
        None => "unknown".to_string(),
    }
}

/// One message of the conversation: a rule before every message but the
/// first, the sender and date, a blank line, the body line by line, and a
/// blank line.
pub open spec fn message_block(first: bool, m: ThreadMessageRow) -> Seq<Seq<(Tone, Seq<char>)>> {
    (if first {
        Seq::empty()
    } else {
        seq![one(Tone::Dim, rule_text())]
    }) + seq![
        labelled("From: "@, Tone::Accent, or_unknown(m.from_email)),
        labelled("Date: "@, Tone::Muted, or_unknown(m.sent_at)),
        blank_spec(),
    ] + lines_spec(m.body_text@).map_values(|l: Seq<char>| one(Tone::Text, l)) + seq![blank_spec()]
}

pub open spec fn message_blocks(ms: Seq<ThreadMessageRow>) -> Seq<Seq<(Tone, Seq<char>)>>
    decreases ms.len(),
{
    if ms.len() == 0 {
        Seq::empty()
    } else {
        message_blocks(ms.drop_last()) + message_block(ms.len() == 1, ms.last())
    }
}

/// The conversation pane: the subject as a title, a blank line, then each
/// message in order.
pub open spec fn conversation_spec(d: ThreadDetailRow) -> Seq<Seq<(Tone, Seq<char>)>> {
    seq![one(Tone::Title, "Thread: "@ + subject_or_default(d.subject)), blank_spec()]
        + message_blocks(d.messages@)
}

fn push_message(out: &mut Vec<ScreenLine>, first: bool, m: &ThreadMessageRow)
    ensures
        lines_view(final(out)@) == lines_view(old(out)@) + message_block(first, *m),
{
    if !first {
        push_line(out, toned(Tone::Dim, "────────────────────────────────────────".to_string()));
    }
    let ghost head = lines_view(out@);
    push_line(out, labelled_line("From: ", Tone::Accent, or_unknown_text(&m.from_email)));
    push_line(out, labelled_line("Date: ", Tone::Muted, or_unknown_text(&m.sent_at)));
    push_line(out, blank());
    let ghost top = lines_view(out@);
    let body = text_lines(m.body_text.as_str());
    let mut k: usize = 0;
    while k < body.len()
        invariant
            k <= body@.len(),
            string_views(body@) == lines_spec(m.body_text@),
            lines_view(out@) == top + lines_spec(m.body_text@).take(k as int).map_values(
                |l: Seq<char>| one(Tone::Text, l),
            ),
        decreases body@.len() - k,
    {
        assert(body@[k as int]@ == lines_spec(m.body_text@)[k as int]);
        push_line(out, toned(Tone::Text, body[k].clone()));
        assert(lines_spec(m.body_text@).take(k + 1) =~= lines_spec(m.body_text@).take(k as int).push(
            lines_spec(m.body_text@)[k as int],
        ));
        k = k + 1;
        assert(lines_view(out@) =~= top + lines_spec(m.body_text@).take(k as int).map_values(
            |l: Seq<char>| one(Tone::Text, l),
        ));
    }
    assert(lines_spec(m.body_text@).take(k as int) =~= lines_spec(m.body_text@));
    push_line(out, blank());
    proof {
        let rule = if first {
            Seq::<Seq<(Tone, Seq<char>)>>::empty()
        } else {
            seq![one(Tone::Dim, rule_text())]
        };
        assert(head =~= lines_view(old(out)@) + rule);
        assert(lines_view(out@) =~= lines_view(old(out)@) + message_block(first, *m));
    }
}

/// The lines of the conversation pane.
pub fn conversation_lines(detail: &ThreadDetailRow) -> (r: Vec<ScreenLine>)
    ensures
        lines_view(r@) == conversation_spec(*detail),
{
    let mut title = "Thread: ".to_string();
    match &detail.subject {
        Some(s) => push_str(&mut title, s.as_str()),
        None => push_str(&mut title, "(no subject)"),
    }
    let mut out: Vec<ScreenLine> = Vec::new();
    push_line(&mut out, toned(Tone::Title, title));
    push_line(&mut out, blank());
    let ghost head = lines_view(out@);
    let ms = &detail.messages;
    let mut i: usize = 0;
    while i < ms.len()
        invariant
            i <= ms@.len(),
            lines_view(out@) == head + message_blocks(ms@.take(i as int)),
        decreases ms@.len() - i,
    {
        push_message(&mut out, i == 0, &ms[i]);
        proof {
            assert(ms@.take(i + 1).drop_last() =~= ms@.take(i as int));
            assert(ms@.take(i + 1).last() == ms@[i as int]);
        }
        i = i + 1;
        assert(lines_view(out@) =~= head + message_blocks(ms@.take(i as int)));
    }
    assert(ms@.take(i as int) =~= ms@);
    assert(lines_view(out@) =~= conversation_spec(*detail));
    out
}

/// `s` with `e` put in its place in increasing order, unless already there.
pub open spec fn insert_sorted(s: Seq<Seq<char>>, e: Seq<char>) -> Seq<Seq<char>>
    decreases s.len(),
{
    if s.len() == 0 {
        seq![e]
    } else if seq_lt(s.last(), e) {
        s.push(e)
    } else if s.last() == e {
        s
    } else {
        insert_sorted(s.drop_last(), e).push(s.last())
    }
}

/// The senders of the messages, each once, in increasing order.
pub open spec fn sorted_senders(ms: Seq<ThreadMessageRow>) -> Seq<Seq<char>>
    decreases ms.len(),
{
    if ms.len() == 0 {
        Seq::empty()
    } else {
        let prev = sorted_senders(ms.drop_last());
        match ms.last().from_email {
            Some(e) => insert_sorted(prev, e@),
            None => prev,
        }
    }
}

pub open spec fn strictly_sorted(s: Seq<Seq<char>>) -> bool {
    forall|i: int, j: int| 0 <= i < j < s.len() ==> seq_lt(#[trigger] s[i], #[trigger] s[j])
}

/// Walking back past the entries greater than `e` leaves the insertion
/// unchanged.
proof fn lemma_insert_from(s: Seq<Seq<char>>, e: Seq<char>, j: int)
    requires
        0 <= j <= s.len(),
        forall|m: int| j <= m < s.len() ==> seq_lt(e, #[trigger] s[m]),
    ensures
        insert_sorted(s, e) == insert_sorted(s.take(j), e) + s.skip(j),
    decreases s.len() - j,
{
    if j == s.len() {
        assert(s.take(j) =~= s);
        assert(s.skip(j) =~= Seq::<Seq<char>>::empty());
    } else {
        let t = s.drop_last();
        crate::text::lemma_seq_lt_asym(e, s.last());
        crate::text::lemma_seq_lt_irrefl(e);
        assert(!seq_lt(s.last(), e));
        assert(s.last() != e);
        assert forall|m: int| j <= m < t.len() implies seq_lt(e, #[trigger] t[m]) by {
            assert(t[m] == s[m]);
        }
        lemma_insert_from(t, e, j);
        assert(t.take(j) =~= s.take(j));
        assert(t.skip(j).push(s.last()) =~= s.skip(j));
    }
}

/// Inserting into a strictly increasing sequence keeps it so, and adds
/// exactly `e`.
pub proof fn lemma_insert_sorted(s: Seq<Seq<char>>, e: Seq<char>)
    requires
        strictly_sorted(s),
    ensures
        strictly_sorted(insert_sorted(s, e)),
        insert_sorted(s, e).to_set() == s.to_set().insert(e),
    decreases s.len(),
{
    let r = insert_sorted(s, e);
    if s.len() == 0 {
        assert(r.to_set() =~= s.to_set().insert(e)) by {
            assert(r[0] == e);
        }
    } else if seq_lt(s.last(), e) {
        assert forall|i: int, j: int| 0 <= i < j < r.len() implies seq_lt(#[trigger] r[i], #[trigger] r[j]) by {
            if j == s.len() {
                if i < s.len() - 1 {
                    crate::text::lemma_seq_lt_trans(s[i], s.last(), e);
                }
            }
        }
        assert(r.to_set() =~= s.to_set().insert(e)) by {
            assert forall|x: Seq<char>| r.to_set().contains(x) implies s.to_set().insert(e).contains(x) by {
                let k = choose|k: int| 0 <= k < r.len() && r[k] == x;
                if k < s.len() {
                    assert(s[k] == x);
                }
            }
            assert forall|x: Seq<char>| s.to_set().insert(e).contains(x) implies r.to_set().contains(x) by {
                if x == e {
                    assert(r[s.len() as int] == e);
                } else {
                    let k = choose|k: int| 0 <= k < s.len() && s[k] == x;
                    assert(r[k] == x);
                }
            }
        }
    } else if s.last() == e {
        assert(s.to_set().insert(e) =~= s.to_set()) by {
            assert(s[s.len() - 1] == e);
        }
    } else {
        let t = s.drop_last();
        assert forall|i: int, j: int| 0 <= i < j < t.len() implies seq_lt(#[trigger] t[i], #[trigger] t[j]) by {
            assert(t[i] == s[i] && t[j] == s[j]);
        }
        lemma_insert_sorted(t, e);
        let it = insert_sorted(t, e);
        crate::text::lemma_seq_lt_total(s.last(), e);
        assert(seq_lt(e, s.last()));
        assert forall|k: int| 0 <= k < it.len() implies seq_lt(#[trigger] it[k], s.last()) by {
            assert(it.to_set().contains(it[k]));
            assert(t.to_set().insert(e).contains(it[k]));
            if it[k] != e {
                let m = choose|m: int| 0 <= m < t.len() && t[m] == it[k];
                assert(s[m] == it[k]);
                assert(seq_lt(s[m], s[s.len() - 1]));
            }
        }
        assert forall|i: int, j: int| 0 <= i < j < r.len() implies seq_lt(#[trigger] r[i], #[trigger] r[j]) by {
            if j == it.len() {
                assert(r[i] == it[i]);
            } else {
                assert(r[i] == it[i] && r[j] == it[j]);
            }
        }
        assert(r.to_set() =~= s.to_set().insert(e)) by {
            assert forall|x: Seq<char>| r.to_set().contains(x) implies s.to_set().insert(e).contains(x) by {
                let k = choose|k: int| 0 <= k < r.len() && r[k] == x;
                if k < it.len() {
                    assert(it[k] == x);
                    assert(it.to_set().contains(x));
                    if x != e {
                        let m = choose|m: int| 0 <= m < t.len() && t[m] == x;
                        assert(s[m] == x);
                    }
                } else {
                    assert(s[s.len() - 1] == x);
                }
            }
            assert forall|x: Seq<char>| s.to_set().insert(e).contains(x) implies r.to_set().contains(x) by {
                if x == e {
                    assert(t.to_set().insert(e).contains(x));
                    assert(it.to_set().contains(x));
                    let k = choose|k: int| 0 <= k < it.len() && it[k] == x;
                    assert(r[k] == x);
                } else {
                    let k = choose|k: int| 0 <= k < s.len() && s[k] == x;
                    if k == s.len() - 1 {
                        assert(r[it.len() as int] == x);
                    } else {
                        assert(t[k] == x);
                        assert(it.to_set().contains(x));
                        let m = choose|m: int| 0 <= m < it.len() && it[m] == x;
                        assert(r[m] == x);
                    }
                }
            }
        }
    }
}

/// Whether `m` was sent by `e`.
pub open spec fn sent_by(m: ThreadMessageRow, e: Seq<char>) -> bool {
    match m.from_email {
        Some(s) => s@ == e,
        None => false,
    }
}

/// The senders of the messages, as a set.
pub open spec fn sender_set(ms: Seq<ThreadMessageRow>) -> Set<Seq<char>> {
    Set::new(|e: Seq<char>| exists|i: int| 0 <= i < ms.len() && #[trigger] sent_by(ms[i], e))
}

/// The senders listed on the thread screen are each sender of the thread,
/// once, in increasing order.
pub proof fn law_sorted_senders(ms: Seq<ThreadMessageRow>)
    ensures
        strictly_sorted(sorted_senders(ms)),
        sorted_senders(ms).to_set() == sender_set(ms),
    decreases ms.len(),
{
    if ms.len() == 0 {
        assert(sorted_senders(ms).to_set() =~= sender_set(ms));
    } else {
        let t = ms.drop_last();
        law_sorted_senders(t);
        let prev = sorted_senders(t);
        assert forall|i: int| 0 <= i < t.len() implies #[trigger] t[i] == ms[i] by {}
        match ms.last().from_email {
            Some(e) => {
                lemma_insert_sorted(prev, e@);
                assert(sender_set(ms) =~= sender_set(t).insert(e@)) by {
                    assert forall|x: Seq<char>| sender_set(ms).contains(x) implies sender_set(t).insert(e@).contains(x) by {
                        let i = choose|i: int| 0 <= i < ms.len() && #[trigger] sent_by(ms[i], x);
                        if i < t.len() {
                            assert(sent_by(t[i], x));
                        }
                    }
                    assert forall|x: Seq<char>| sender_set(t).insert(e@).contains(x) implies sender_set(ms).contains(x) by {
                        if x == e@ {
                            assert(sent_by(ms[ms.len() - 1], x));
                        } else {
                            let i = choose|i: int| 0 <= i < t.len() && #[trigger] sent_by(t[i], x);
                            assert(sent_by(ms[i], x));
                        }
                    }
                }
            },
            None => {
                assert(sender_set(ms) =~= sender_set(t)) by {
                    assert forall|x: Seq<char>| sender_set(ms).contains(x) implies sender_set(t).contains(x) by {
                        let i = choose|i: int| 0 <= i < ms.len() && #[trigger] sent_by(ms[i], x);
                        if i < t.len() {
                            assert(sent_by(t[i], x));
                        }
                    }
                    assert forall|x: Seq<char>| sender_set(t).contains(x) implies sender_set(ms).contains(x) by {
                        let i = choose|i: int| 0 <= i < t.len() && #[trigger] sent_by(t[i], x);
                        assert(sent_by(ms[i], x));
                    }
                }
            },
        }
    }
}

fn insert_sender(s: &mut Vec<String>, e: &String)
    ensures
        string_views(final(s)@) == insert_sorted(string_views(old(s)@), e@),
{
    let ghost sv = string_views(s@);
    let mut j: usize = s.len();
    while j > 0 && str_lt(e.as_str(), s[j - 1].as_str())
        invariant
            j <= s@.len(),
            s@ == old(s)@,
            sv == string_views(s@),
            forall|m: int| j <= m < sv.len() ==> seq_lt(e@, #[trigger] sv[m]),
        decreases j,
    {
        assert(sv[j - 1] == s@[j - 1]@);
        j = j - 1;
    }
    proof {
        lemma_insert_from(sv, e@, j as int);
    }
    let found = j > 0 && str_eq(s[j - 1].as_str(), e.as_str());
    if found {
        proof {
            let tj = sv.take(j as int);
            assert(tj.last() == sv[j - 1]);
            assert(sv[j - 1] == s@[j - 1]@);
            crate::text::lemma_seq_lt_irrefl(e@);
            assert(!seq_lt(tj.last(), e@));
            assert(insert_sorted(tj, e@) == tj);
            assert(tj + sv.skip(j as int) =~= sv);
        }
    } else {
        s.insert(j, e.clone());
        proof {
            let tj = sv.take(j as int);
            if j > 0 {
                assert(tj.last() == sv[j - 1]);
                assert(sv[j - 1] == old(s)@[j - 1]@);
                crate::text::lemma_seq_lt_total(tj.last(), e@);
                assert(seq_lt(tj.last(), e@));
                assert(insert_sorted(tj, e@) == tj.push(e@));
            }
            assert(string_views(s@) =~= tj.push(e@) + sv.skip(j as int));
        }
    }
}

/// The senders of the messages, each once, in increasing order.
pub fn sorted_sender_list(messages: &Vec<ThreadMessageRow>) -> (r: Vec<String>)
    ensures
        string_views(r@) == sorted_senders(messages@),
{
    let mut out: Vec<String> = Vec::new();
    let mut i: usize = 0;
    while i < messages.len()
        invariant
            i <= messages@.len(),
            string_views(out@) == sorted_senders(messages@.take(i as int)),
        decreases messages@.len() - i,
    {
        proof {
            assert(messages@.take(i + 1).drop_last() =~= messages@.take(i as int));
            assert(messages@.take(i + 1).last() == messages@[i as int]);
        }
        match &messages[i].from_email {
            Some(e) => insert_sender(&mut out, e),
            None => {},
        }
        i = i + 1;
    }
    assert(messages@.take(i as int) =~= messages@);
    out
}

/// The metadata pane: the thread's state and message count, its senders,
/// and the AI sections, which are not filled in.
pub open spec fn metadata_spec(d: ThreadDetailRow) -> Seq<Seq<(Tone, Seq<char>)>> {
    let ps = sorted_senders(d.messages@);
    seq![
        one(Tone::Header, "Metadata"@),
        blank_spec(),
        labelled("State: "@, Tone::Accent, or_unknown(d.state)),
        labelled("Messages: "@, Tone::Plain, decimal(d.messages@.len())),
        blank_spec(),
        one(Tone::Muted, "Participants"@),
    ] + (if ps.len() == 0 {
        seq![one(Tone::Dim, "  — none"@)]
    } else {
        ps.map_values(|p: Seq<char>| one(Tone::Text, "  "@ + p))
    }) + seq![
        blank_spec(),
        one(Tone::Muted, "AI Summary"@),
        one(Tone::Dim, "  unavailable"@),
        blank_spec(),
        one(Tone::Muted, "Latest Ask"@),
        one(Tone::Dim, "  unavailable"@),
        blank_spec(),
        one(Tone::Muted, "Related Threads"@),
        one(Tone::Dim, "  unavailable"@),
    ]
}

pub fn metadata_lines(detail: &ThreadDetailRow) -> (r: Vec<ScreenLine>)
    ensures
        lines_view(r@) == metadata_spec(*detail),
{
    let ps = sorted_sender_list(&detail.messages);
    let mut count = String::new();
    push_decimal(&mut count, detail.messages.len() as u64);
    assert(count@ =~= decimal(detail.messages@.len()));
    let mut out: Vec<ScreenLine> = Vec::new();
    push_line(&mut out, toned(Tone::Header, "Metadata".to_string()));
    push_line(&mut out, blank());
    push_line(&mut out, labelled_line("State: ", Tone::Accent, or_unknown_text(&detail.state)));
    push_line(&mut out, labelled_line("Messages: ", Tone::Plain, count));
    push_line(&mut out, blank());
    push_line(&mut out, toned(Tone::Muted, "Participants".to_string()));
    let ghost head = lines_view(out@);
    let ghost pv = sorted_senders(detail.messages@);
    if ps.len() == 0 {
        push_line(&mut out, toned(Tone::Dim, "  — none".to_string()));
    } else {
        let mut k: usize = 0;
        while k < ps.len()
            invariant
                k <= ps@.len(),
                string_views(ps@) == pv,
                lines_view(out@) == head + pv.take(k as int).map_values(|p: Seq<char>| one(Tone::Text, "  "@ + p)),
            decreases ps@.len() - k,
        {
            let mut t = "  ".to_string();
            push_str(&mut t, ps[k].as_str());
            assert(ps@[k as int]@ == pv[k as int]);
            push_line(&mut out, toned(Tone::Text, t));
            assert(pv.take(k + 1) =~= pv.take(k as int).push(pv[k as int]));
            k = k + 1;
            assert(lines_view(out@) =~= head + pv.take(k as int).map_values(|p: Seq<char>| one(Tone::Text, "  "@ + p)));
        }
        assert(pv.take(k as int) =~= pv);
    }
    let ghost mid = lines_view(out@);
    push_line(&mut out, blank());
    push_line(&mut out, toned(Tone::Muted, "AI Summary".to_string()));
    push_line(&mut out, toned(Tone::Dim, "  unavailable".to_string()));
    push_line(&mut out, blank());
    push_line(&mut out, toned(Tone::Muted, "Latest Ask".to_string()));
    push_line(&mut out, toned(Tone::Dim, "  unavailable".to_string()));
    push_line(&mut out, blank());
    push_line(&mut out, toned(Tone::Muted, "Related Threads".to_string()));
    push_line(&mut out, toned(Tone::Dim, "  unavailable".to_string()));
    assert(lines_view(out@) =~= metadata_spec(*detail));
    out
}

} // verus!
