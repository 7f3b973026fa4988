//! The text of the brief and of one thread.

use vstd::prelude::*;
use crate::index::query::{ThreadDetailRow, ThreadListRow, ThreadMessageRow};
use crate::text::{collapse_ws, decimal, decimal_int, join_spec, push_str, string_views, take_chars};
use crate::threading::opt_view;

verus! {

/// `, n messages` for a thread of more than one message, else nothing.
pub open spec fn message_count_spec(n: i64) -> Seq<char> {
    if n <= 1 {
        Seq::empty()
    } else {
        ", "@ + decimal_int(n as int) + " messages"@
    }
}

pub fn format_message_count(message_count: i64) -> (r: String)
    ensures
        r@ == message_count_spec(message_count),
{
    if message_count <= 1 {
        String::new()
    } else {
        let mut out = ", ".to_string();
        crate::text::push_decimal_i64(&mut out, message_count);
        push_str(&mut out, " messages");
        out
    }
}

/// A body on one line: its words joined by spaces, cut to 117 characters
/// and `...` when longer than 120; `(empty body)` when it has no words.
pub open spec fn body_summary_spec(body: Seq<char>) -> Seq<char> {
    let n = collapse_ws(body);
    if n.len() == 0 {
        "(empty body)"@
    } else if n.len() <= 120 {
        n
    } else {
        take_chars(n, 117) + "..."@
    }
}

pub fn summarize_body(body: &str) -> (r: String)
    ensures
        r@ == body_summary_spec(body@),
{
    let normalized = crate::text::collapse_whitespace(body);
    let n = crate::text::chars_of(normalized.as_str()).len();
    if n == 0 {
        return "(empty body)".to_string();
    }
    if n <= 120 {
        normalized
    } else {
        let mut out = crate::text::take_prefix(normalized.as_str(), 117);
        push_str(&mut out, "...");
        out
    }
}

/// The senders of the messages, each once, in order of first appearance.
pub open spec fn participants_spec(ms: Seq<ThreadMessageRow>) -> Seq<Seq<char>>
    decreases ms.len(),
{
    if ms.len() == 0 {
        Seq::empty()
    } else {
        let prev = participants_spec(ms.drop_last());
        match ms.last().from_email {
            Some(e) => if prev.contains(e@) {
                prev
            } else {
                prev.push(e@)
            },
            None => prev,
        }
    }
}

pub fn collect_participants(messages: &Vec<ThreadMessageRow>) -> (r: Vec<String>)
    ensures
        string_views(r@) == participants_spec(messages@),
{
    let mut out: Vec<String> = Vec::new();
    let mut i: usize = 0;
    while i < messages.len()
        invariant
            i <= messages@.len(),
            string_views(out@) == participants_spec(messages@.take(i as int)),
        decreases messages@.len() - i,
    {
        proof {
            assert(messages@.take(i + 1).drop_last() =~= messages@.take(i as int));
        }
        match &messages[i].from_email {
            Some(email) => {
                let mut seen = false;
                let mut k: usize = 0;
                while k < out.len()
                    invariant
                        k <= out@.len(),
                        seen == (exists|j: int| 0 <= j < k && string_views(out@)[j] == email@),
                    decreases out@.len() - k,
                {
                    assert(string_views(out@)[k as int] == out@[k as int]@);
                    if crate::text::str_eq(out[k].as_str(), email.as_str()) {
                        seen = true;
                    }
                    k = k + 1;
                }
                proof {
                    if string_views(out@).contains(email@) {
                        let j = choose|j: int| 0 <= j < string_views(out@).len() && string_views(out@)[j] == email@;
                        assert(exists|j2: int| 0 <= j2 < k && string_views(out@)[j2] == email@);
                    }
                }
                if !seen {
                    let ghost before = out@;
                    out.push(email.clone());
                    assert(string_views(out@) =~= string_views(before).push(email@));
                }
            },
            None => {},
        }
        i = i + 1;
    }
    assert(messages@.take(messages@.len() as int) =~= messages@);
    out
}

pub open spec fn subject_or_default(s: Option<String>) -> Seq<char> {
    match s {
        Some(t) => t@,
        None => "(no subject)"@,
    }
}

pub open spec fn or_unknown(s: Option<String>) -> Seq<char> {
    match s {
        Some(t) => t@,
        None => "unknown"@,
    }
}

/// The sections of the brief: a title and the thread state listed under it.
pub open spec fn brief_sections_spec() -> Seq<(Seq<char>, Seq<char>)> {
    seq![
        ("Needs reply"@, "waiting_on_me"@),
        ("Urgent"@, "urgent"@),
        ("Waiting on me"@, "waiting_on_me"@),
        ("Waiting on them"@, "waiting_on_them"@),
        ("Follow up due"@, "follow_up_due"@),
        ("Payments"@, "payments"@),
        ("Scheduling"@, "scheduling"@),
        ("Low value"@, "low_value"@),
    ]
}

pub fn brief_sections() -> (r: Vec<(&'static str, &'static str)>)
    ensures
        r@.map_values(|p: (&'static str, &'static str)| (p.0@, p.1@)) == brief_sections_spec(),
{
    let r = vec![
        ("Needs reply", "waiting_on_me"),
        ("Urgent", "urgent"),
        ("Waiting on me", "waiting_on_me"),
        ("Waiting on them", "waiting_on_them"),
        ("Follow up due", "follow_up_due"),
        ("Payments", "payments"),
        ("Scheduling", "scheduling"),
        ("Low value", "low_value"),
    ];
    assert(r@.map_values(|p: (&'static str, &'static str)| (p.0@, p.1@)) =~= brief_sections_spec());
    r
}

/// A thread under a brief section.
pub open spec fn section_row_spec(r: ThreadListRow) -> Seq<char> {
    "- ["@ + decimal_int(r.id as int) + "] "@ + subject_or_default(r.subject) + message_count_spec(
        r.message_count,
    ) + "\n"@
}

/// A thread under the recent threads, with its state.
pub open spec fn recent_row_spec(r: ThreadListRow) -> Seq<char> {
    "- ["@ + decimal_int(r.id as int) + "] "@ + subject_or_default(r.subject) + " ("@ + (match r.state {
        Some(s) => s@,
        None => "unknown"@,
    }) + message_count_spec(r.message_count) + ")\n"@
}

pub open spec fn rows_block(lines: Seq<Seq<char>>) -> Seq<char> {
    if lines.len() == 0 {
        "- None\n"@
    } else {
        join_spec(lines, Seq::empty())
    }
}

pub open spec fn section_block(title: Seq<char>, rows: Seq<ThreadListRow>) -> Seq<char> {
    title + "\n"@ + rows_block(rows.map_values(|r: ThreadListRow| section_row_spec(r)))
}

/// The brief: each section with its threads (or `- None`), then the recent
/// threads and the number of pending drafts.
pub open spec fn brief_spec(titles: Seq<Seq<char>>, sections: Seq<Seq<ThreadListRow>>, recent: Seq<ThreadListRow>, pending: i64) -> Seq<char> {
    join_spec(
        Seq::new(titles.len(), |i: int| section_block(titles[i], sections[i])),
        "\n\n"@,
    ) + "\n\nRecent threads\n"@ + rows_block(
        recent.map_values(|r: ThreadListRow| recent_row_spec(r)),
    ) + "\nPending drafts: "@ + decimal_int(pending as int) + "\n"@
}

fn section_row(r: &ThreadListRow) -> (s: String)
    ensures
        s@ == section_row_spec(*r),
{
    let mut out = "- [".to_string();
    crate::text::push_decimal_i64(&mut out, r.id);
    push_str(&mut out, "] ");
    match &r.subject {
        Some(t) => push_str(&mut out, t.as_str()),
        None => push_str(&mut out, "(no subject)"),
    }
    push_str(&mut out, format_message_count(r.message_count).as_str());
    push_str(&mut out, "\n");
    out
}

fn recent_row(r: &ThreadListRow) -> (s: String)
    ensures
        s@ == recent_row_spec(*r),
{
    let mut out = "- [".to_string();
    crate::text::push_decimal_i64(&mut out, r.id);
    push_str(&mut out, "] ");
    match &r.subject {
        Some(t) => push_str(&mut out, t.as_str()),
        None => push_str(&mut out, "(no subject)"),
    }
    push_str(&mut out, " (");
    match &r.state {
        Some(t) => push_str(&mut out, t.as_str()),
        None => push_str(&mut out, "unknown"),
    }
    push_str(&mut out, format_message_count(r.message_count).as_str());
    push_str(&mut out, ")\n");
    out
}

fn block(rows: &Vec<ThreadListRow>, recent: bool) -> (s: String)
    ensures
        s@ == rows_block(
            if recent {
                rows@.map_values(|r: ThreadListRow| recent_row_spec(r))
            } else {
                rows@.map_values(|r: ThreadListRow| section_row_spec(r))
            },
        ),
{
    let ghost target = if recent {
        rows@.map_values(|r: ThreadListRow| recent_row_spec(r))
    } else {
        rows@.map_values(|r: ThreadListRow| section_row_spec(r))
    };
    if rows.len() == 0 {
        return "- None\n".to_string();
    }
    let mut lines: Vec<String> = Vec::new();
    let mut i: usize = 0;
    while i < rows.len()
        invariant
            i <= rows@.len(),
            target == (if recent {
                rows@.map_values(|r: ThreadListRow| recent_row_spec(r))
            } else {
                rows@.map_values(|r: ThreadListRow| section_row_spec(r))
            }),
            string_views(lines@) == target.take(i as int),
        decreases rows@.len() - i,
    {
        let l = if recent {
            recent_row(&rows[i])
        } else {
            section_row(&rows[i])
        };
        let ghost before = lines@;
        lines.push(l);
        assert(string_views(lines@) =~= string_views(before).push(l@));
        assert(string_views(lines@) =~= target.take(i + 1));
        i = i + 1;
    }
    assert(target.take(rows@.len() as int) =~= target);
    proof {
        reveal_strlit("");
    }
    assert(""@ =~= Seq::<char>::empty());
    crate::text::join_strings(&lines, "")
}

/// The brief from the threads of each section (in `brief_sections` order),
/// the recent threads and the pending draft count.
pub fn brief_text(sections: &Vec<Vec<ThreadListRow>>, recent: &Vec<ThreadListRow>, pending_drafts: i64) -> (r: String)
    requires
        sections@.len() == brief_sections_spec().len(),
    ensures
        r@ == brief_spec(
            brief_sections_spec().map_values(|p: (Seq<char>, Seq<char>)| p.0),
            sections@.map_values(|v: Vec<ThreadListRow>| v@),
            recent@,
            pending_drafts,
        ),
{
    let titles = brief_sections();
    let ghost ts = brief_sections_spec().map_values(|p: (Seq<char>, Seq<char>)| p.0);
    let ghost ss = sections@.map_values(|v: Vec<ThreadListRow>| v@);
    let ghost target = Seq::new(ts.len(), |i: int| section_block(ts[i], ss[i]));
    let mut parts: Vec<String> = Vec::new();
    let mut i: usize = 0;
    while i < titles.len()
        invariant
            i <= titles@.len(),
            titles@.len() == 8,
            sections@.len() == 8,
            titles@.map_values(|p: (&'static str, &'static str)| (p.0@, p.1@)) == brief_sections_spec(),
            ts == brief_sections_spec().map_values(|p: (Seq<char>, Seq<char>)| p.0),
            ss == sections@.map_values(|v: Vec<ThreadListRow>| v@),
            target == Seq::new(ts.len(), |i: int| section_block(ts[i], ss[i])),
            string_views(parts@) == target.take(i as int),
        decreases titles@.len() - i,
    {
        let (title, _) = titles[i];
        proof {
            assert(titles@.map_values(|p: (&'static str, &'static str)| (p.0@, p.1@))[i as int] == (titles@[i as int].0@, titles@[i as int].1@));
            assert(ts[i as int] == title@);
            assert(ss[i as int] == sections@[i as int]@);
        }
        let mut s = title.to_string();
        push_str(&mut s, "\n");
        let b = block(&sections[i], false);
        push_str(&mut s, b.as_str());
        let ghost before = parts@;
        parts.push(s);
        assert(string_views(parts@) =~= string_views(before).push(s@));
        assert(string_views(parts@) =~= target.take(i + 1));
        i = i + 1;
    }
    assert(target.take(8) =~= target);
    let mut out = crate::text::join_strings(&parts, "\n\n");
    push_str(&mut out, "\n\nRecent threads\n");
    let rb = block(recent, true);
    push_str(&mut out, rb.as_str());
    push_str(&mut out, "\nPending drafts: ");
    crate::text::push_decimal_i64(&mut out, pending_drafts);
    push_str(&mut out, "\n");
    out
}

/// The message for a thread id that is not in the index.
pub open spec fn thread_not_found_spec(id: i64) -> Seq<char> {
    "thread "@ + decimal_int(id as int) + " not found"@
}

pub fn thread_not_found(thread_id: i64) -> (r: String)
    ensures
        r@ == thread_not_found_spec(thread_id),
{
    let mut out = "thread ".to_string();
    crate::text::push_decimal_i64(&mut out, thread_id);
    push_str(&mut out, " not found");
    out
}

/// One message of the thread view: its number (two digits up to 9), subject,
/// sender, date and body summary.
pub open spec fn message_block_spec(index: nat, m: ThreadMessageRow) -> Seq<char> {
    (if index > 0 {
        "\n"@
    } else {
        Seq::empty()
    }) + (if index + 1 < 10 {
        "0"@
    } else {
        Seq::empty()
    }) + decimal(index + 1) + ". "@ + subject_or_default(m.subject) + "\nFrom: "@ + or_unknown(
        m.from_email,
    ) + "\nSent: "@ + or_unknown(m.sent_at) + "\nBody: "@ + body_summary_spec(m.body_text@)
        + "\n"@
}

/// The thread as `cour thread` prints it.
pub open spec fn thread_text_spec(d: ThreadDetailRow) -> Seq<char> {
    let ms = d.messages@;
    let summary = if ms.len() > 0 {
        body_summary_spec(ms.last().body_text@)
    } else {
        "No messages in thread"@
    };
    let ps = participants_spec(ms);
    "Thread "@ + decimal_int(d.thread_id as int) + "\nSubject: "@ + subject_or_default(d.subject)
        + "\nState: "@ + or_unknown(d.state) + "\nMessages: "@ + decimal(ms.len()) + "\nSummary: "@
        + summary + "\n\nParticipants\n"@ + (if ps.len() == 0 {
        "- None\n"@
    } else {
        join_spec(ps.map_values(|p: Seq<char>| "- "@ + p + "\n"@), Seq::empty())
    })
        + "\nAI metadata\n- Summary: unavailable\n- Latest ask: unavailable\n- Recommended action: unavailable\n"@
        + "\nMessages\n"@ + join_spec(
        Seq::new(ms.len(), |i: int| message_block_spec(i as nat, ms[i])),
        Seq::empty(),
    )
}

pub fn thread_text(detail: &ThreadDetailRow) -> (r: String)
    ensures
        r@ == thread_text_spec(*detail),
{
    proof {
        reveal_strlit("");
    }
    assert(""@ =~= Seq::<char>::empty());
    let ms = &detail.messages;
    let participants = collect_participants(ms);
    let summary = if ms.len() > 0 {
        summarize_body(ms[ms.len() - 1].body_text.as_str())
    } else {
        "No messages in thread".to_string()
    };
    let mut out = "Thread ".to_string();
    crate::text::push_decimal_i64(&mut out, detail.thread_id);
    push_str(&mut out, "\nSubject: ");
    match &detail.subject {
        Some(t) => push_str(&mut out, t.as_str()),
        None => push_str(&mut out, "(no subject)"),
    }
    push_str(&mut out, "\nState: ");
    match &detail.state {
        Some(t) => push_str(&mut out, t.as_str()),
        None => push_str(&mut out, "unknown"),
    }
    push_str(&mut out, "\nMessages: ");
    crate::text::push_decimal(&mut out, ms.len() as u64);
    push_str(&mut out, "\nSummary: ");
    push_str(&mut out, summary.as_str());
    push_str(&mut out, "\n\nParticipants\n");
    let ghost ps = participants_spec(ms@);
    if participants.len() == 0 {
        push_str(&mut out, "- None\n");
    } else {
        let mut lines: Vec<String> = Vec::new();
        let mut k: usize = 0;
        while k < participants.len()
            invariant
                k <= participants@.len(),
                string_views(participants@) == ps,
                string_views(lines@) == ps.map_values(|p: Seq<char>| "- "@ + p + "\n"@).take(k as int),
            decreases participants@.len() - k,
        {
            let mut l = "- ".to_string();
            push_str(&mut l, participants[k].as_str());
            push_str(&mut l, "\n");
            let ghost before = lines@;
            lines.push(l);
            assert(string_views(lines@) =~= string_views(before).push(l@));
            assert(string_views(lines@) =~= ps.map_values(|p: Seq<char>| "- "@ + p + "\n"@).take(k + 1));
            k = k + 1;
        }
        assert(ps.map_values(|p: Seq<char>| "- "@ + p + "\n"@).take(participants@.len() as int) =~= ps.map_values(|p: Seq<char>| "- "@ + p + "\n"@));
        push_str(&mut out, crate::text::join_strings(&lines, "").as_str());
    }
    push_str(
        &mut out,
        "\nAI metadata\n- Summary: unavailable\n- Latest ask: unavailable\n- Recommended action: unavailable\n",
    );
    push_str(&mut out, "\nMessages\n");
    let ghost blocks = Seq::new(ms@.len(), |i: int| message_block_spec(i as nat, ms@[i]));
    let mut parts: Vec<String> = Vec::new();
    let mut i: usize = 0;
    while i < ms.len()
        invariant
            i <= ms@.len(),
            blocks == Seq::new(ms@.len(), |i: int| message_block_spec(i as nat, ms@[i])),
            string_views(parts@) == blocks.take(i as int),
        decreases ms@.len() - i,
    {
        let m = &ms[i];
        let mut b = String::new();
        if i > 0 {
            push_str(&mut b, "\n");
        }
        if i + 1 < 10 {
            push_str(&mut b, "0");
        }
        crate::text::push_decimal(&mut b, (i + 1) as u64);
        push_str(&mut b, ". ");
        match &m.subject {
            Some(t) => push_str(&mut b, t.as_str()),
            None => push_str(&mut b, "(no subject)"),
        }
        push_str(&mut b, "\nFrom: ");
        match &m.from_email {
            Some(t) => push_str(&mut b, t.as_str()),
            None => push_str(&mut b, "unknown"),
        }
        push_str(&mut b, "\nSent: ");
        match &m.sent_at {
            Some(t) => push_str(&mut b, t.as_str()),
            None => push_str(&mut b, "unknown"),
        }
        push_str(&mut b, "\nBody: ");
        push_str(&mut b, summarize_body(m.body_text.as_str()).as_str());
        push_str(&mut b, "\n");
        assert(b@ =~= message_block_spec(i as nat, ms@[i as int]));
        let ghost before = parts@;
        parts.push(b);
        assert(string_views(parts@) =~= string_views(before).push(b@));
        assert(string_views(parts@) =~= blocks.take(i + 1));
        i = i + 1;
    }
    assert(blocks.take(ms@.len() as int) =~= blocks);
    push_str(&mut out, crate::text::join_strings(&parts, "").as_str());
    out
}

} // verus!
