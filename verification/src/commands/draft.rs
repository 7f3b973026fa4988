//! The `cour draft` command: recipients, the fallback draft and the report.

use vstd::prelude::*;
use crate::index::query::{ThreadDetailRow, ThreadMessageRow};
use crate::text::{collapse_ws, decimal, decimal_int, join_spec, lines_spec, push_str, string_views, take_chars};

verus! {

/// The sender of the latest message that has one.
pub open spec fn last_sender(ms: Seq<ThreadMessageRow>) -> Option<Seq<char>>
    decreases ms.len(),
{
    if ms.len() == 0 {
        None
    } else {
        match ms.last().from_email {
            Some(e) => Some(e@),
            None => last_sender(ms.drop_last()),
        }
    }
}

/// That sender as the only recipient; none when no message has a sender.
pub open spec fn recipients_spec(d: ThreadDetailRow) -> Seq<Seq<char>> {
    match last_sender(d.messages@) {
        Some(e) => seq![e],
        None => Seq::empty(),
    }
}

pub fn infer_recipients(detail: &ThreadDetailRow) -> (r: Vec<String>)
    ensures
        string_views(r@) == recipients_spec(*detail),
{
    let ms = &detail.messages;
    let mut i: usize = ms.len();
    assert(ms@.take(i as int) =~= ms@);
    while i > 0
        invariant
            i <= ms@.len(),
            ms@ == detail.messages@,
            last_sender(ms@) == last_sender(ms@.take(i as int)),
        decreases i,
    {
        let k = i - 1;
        proof {
            let t = ms@.take(k + 1);
            assert(t.drop_last() =~= ms@.take(k as int));
            assert(t.last() == ms@[k as int]);
            assert(t.len() > 0);
        }
        match &ms[k].from_email {
            Some(e) => {
                let mut out: Vec<String> = Vec::new();
                out.push(e.clone());
                assert(string_views(out@) =~= seq![e@]);
                assert(last_sender(ms@.take(k + 1)) == Some(e@));
                return out;
            },
            None => {},
        }
        i = k;
    }
    let out: Vec<String> = Vec::new();
    assert(string_views(out@) =~= Seq::<Seq<char>>::empty());
    out
}

/// A body on one line for a draft: its words joined by spaces, cut to 72
/// characters; `your message` when it has no words.
pub open spec fn draft_summary_spec(body: Seq<char>) -> Seq<char> {
    let n = collapse_ws(body);
    if n.len() == 0 {
        "your message"@
    } else {
        take_chars(n, 72)
    }
}

pub fn summarize_body(body: &str) -> (r: String)
    ensures
        r@ == draft_summary_spec(body@),
{
    let compact = crate::text::collapse_whitespace(body);
    if compact.as_str().is_empty() {
        "your message".to_string()
    } else {
        crate::text::take_prefix(compact.as_str(), 72)
    }
}

pub open spec fn recipients_text(rs: Seq<Seq<char>>) -> Seq<char> {
    if rs.len() == 0 {
        "(none inferred)"@
    } else {
        join_spec(rs, ", "@)
    }
}

pub fn join_recipients(recipients: &Vec<String>) -> (r: String)
    ensures
        r@ == recipients_text(string_views(recipients@)),
{
    if recipients.len() == 0 {
        "(none inferred)".to_string()
    } else {
        crate::text::join_strings(recipients, ", ")
    }
}

/// Each line of `text` indented by two spaces.
pub open spec fn indent_spec(text: Seq<char>) -> Seq<char> {
    join_spec(lines_spec(text).map_values(|l: Seq<char>| "  "@ + l), "\n"@)
}

pub fn indent_block(text: &str) -> (r: String)
    ensures
        r@ == indent_spec(text@),
{
    let ls = crate::text::text_lines(text);
    let mut out: Vec<String> = Vec::new();
    let mut k: usize = 0;
    while k < ls.len()
        invariant
            k <= ls@.len(),
            string_views(ls@) == lines_spec(text@),
            string_views(out@) == lines_spec(text@).map_values(|l: Seq<char>| "  "@ + l).take(k as int),
        decreases ls@.len() - k,
    {
        let mut l = "  ".to_string();
        push_str(&mut l, ls[k].as_str());
        assert(ls@[k as int]@ == lines_spec(text@)[k as int]);
        let ghost before = out@;
        out.push(l);
        assert(string_views(out@) =~= string_views(before).push(l@));
        k = k + 1;
        assert(string_views(out@) =~= lines_spec(text@).map_values(|l: Seq<char>| "  "@ + l).take(k as int));
    }
    assert(lines_spec(text@).map_values(|l: Seq<char>| "  "@ + l).take(k as int) =~= lines_spec(text@).map_values(
        |l: Seq<char>| "  "@ + l,
    ));
    crate::text::join_strings(&out, "\n")
}

/// A draft candidate: its text and the reasons given for it.
#[derive(Debug, Clone, PartialEq, Eq)]
pub struct DraftText {
    pub body: String,
    pub rationale: Vec<String>,
}

/// The drafts a provider produced.
#[derive(Debug, Clone, PartialEq, Eq)]
pub struct DraftGeneration {
    pub provider: String,
    pub model: String,
    pub candidates: Vec<DraftText>,
}

pub open spec fn fallback_body_spec(latest_body: Seq<char>) -> Seq<char> {
    "Hi,\n\nThanks for the note. I saw your message about "@ + latest_body
        + ". I'll follow up shortly with a fuller reply.\n\nBest,"@
}

pub open spec fn fallback_rationale_spec(latest_from: Seq<char>) -> Seq<char> {
    "Fallback draft created because AI drafting is unavailable for "@ + latest_from + "."@
}

/// The template draft used while AI drafting is unavailable: one candidate
/// that mentions the latest message and its sender.
pub fn fallback_generation_result(detail: &ThreadDetailRow) -> (r: DraftGeneration)
    ensures
        r.provider@ == "disabled"@,
        r.model@ == "fallback-template"@,
        r.candidates@.len() == 1,
        r.candidates@[0].body@ == fallback_body_spec(
            if detail.messages@.len() > 0 {
                draft_summary_spec(detail.messages@.last().body_text@)
            } else {
                "your message"@
            },
        ),
        string_views(r.candidates@[0].rationale@) == seq![
            fallback_rationale_spec(
                if detail.messages@.len() > 0 && detail.messages@.last().from_email is Some {
                    detail.messages@.last().from_email.unwrap()@
                } else {
                    "the sender"@
                },
            ),
        ],
{
    let n = detail.messages.len();
    let (latest_from, latest_body) = if n > 0 {
        let m = &detail.messages[n - 1];
        (
            match &m.from_email {
                Some(e) => e.clone(),
                None => "the sender".to_string(),
            },
            summarize_body(m.body_text.as_str()),
        )
    } else {
        ("the sender".to_string(), "your message".to_string())
    };
    let mut body = "Hi,\n\nThanks for the note. I saw your message about ".to_string();
    push_str(&mut body, latest_body.as_str());
    push_str(&mut body, ". I'll follow up shortly with a fuller reply.\n\nBest,");
    let mut reason = "Fallback draft created because AI drafting is unavailable for ".to_string();
    push_str(&mut reason, latest_from.as_str());
    push_str(&mut reason, ".");
    let mut rationale: Vec<String> = Vec::new();
    rationale.push(reason);
    assert(string_views(rationale@) =~= seq![reason@]);
    let mut candidates: Vec<DraftText> = Vec::new();
    candidates.push(DraftText { body, rationale });
    DraftGeneration {
        provider: "disabled".to_string(),
        model: "fallback-template".to_string(),
        candidates,
    }
}

/// The first line of the draft report.
pub open spec fn draft_headline_spec(provider: Seq<char>, model: Seq<char>, count: nat) -> Seq<char> {
    if provider == "disabled"@ {
        "drafting provider disabled; generated fallback draft"@
    } else {
        "generated "@ + decimal(count) + " draft candidate(s) via "@ + provider + " "@ + model
    }
}

/// The numbered draft entries: each stored id with its candidate's body
/// indented, for the first `n` pairs.
pub open spec fn draft_entries(ids: Seq<i64>, bodies: Seq<Seq<char>>, n: nat) -> Seq<Seq<char>>
    decreases n,
{
    if n == 0 {
        Seq::empty()
    } else {
        draft_entries(ids, bodies, (n - 1) as nat) + seq![
            "draft "@ + decimal(n) + " ["@ + decimal_int(ids[n - 1] as int) + "]"@,
            indent_spec(bodies[n - 1]),
        ]
    }
}

pub open spec fn candidate_bodies(g: DraftGeneration) -> Seq<Seq<char>> {
    g.candidates@.map_values(|c: DraftText| c.body@)
}

/// The report of `cour draft`: the headline, thread, recipients, then each
/// stored draft's number and id with its body indented.
pub open spec fn draft_report_spec(g: DraftGeneration, thread_id: i64, to: Seq<Seq<char>>, ids: Seq<i64>) -> Seq<char> {
    let n = if ids.len() < g.candidates@.len() {
        ids.len()
    } else {
        g.candidates@.len()
    };
    join_spec(
        seq![
            draft_headline_spec(g.provider@, g.model@, ids.len()),
            "thread: "@ + decimal_int(thread_id as int),
            "to: "@ + recipients_text(to),
        ] + draft_entries(ids, candidate_bodies(g), n),
        "\n"@,
    )
}

pub fn draft_report(generated: &DraftGeneration, thread_id: i64, to: &Vec<String>, ids: &Vec<i64>) -> (r: String)
    ensures
        r@ == draft_report_spec(*generated, thread_id, string_views(to@), ids@),
{
    let mut lines: Vec<String> = Vec::new();
    let head = if crate::text::str_eq(generated.provider.as_str(), "disabled") {
        "drafting provider disabled; generated fallback draft".to_string()
    } else {
        let mut t = "generated ".to_string();
        crate::text::push_decimal(&mut t, ids.len() as u64);
        push_str(&mut t, " draft candidate(s) via ");
        push_str(&mut t, generated.provider.as_str());
        push_str(&mut t, " ");
        push_str(&mut t, generated.model.as_str());
        t
    };
    lines.push(head);
    let mut t = "thread: ".to_string();
    crate::text::push_decimal_i64(&mut t, thread_id);
    lines.push(t);
    let mut r = "to: ".to_string();
    push_str(&mut r, join_recipients(to).as_str());
    lines.push(r);
    let ghost head_seq = string_views(lines@);
    assert(head_seq =~= seq![
        draft_headline_spec(generated.provider@, generated.model@, ids@.len()),
        "thread: "@ + decimal_int(thread_id as int),
        "to: "@ + recipients_text(string_views(to@)),
    ]);
    let n: usize = if ids.len() < generated.candidates.len() {
        ids.len()
    } else {
        generated.candidates.len()
    };
    let ghost bodies = candidate_bodies(*generated);
    let mut k: usize = 0;
    while k < n
        invariant
            k <= n,
            n <= ids@.len(),
            n <= generated.candidates@.len(),
            bodies == candidate_bodies(*generated),
            string_views(lines@) == head_seq + draft_entries(ids@, bodies, k as nat),
        decreases n - k,
    {
        let mut a = "draft ".to_string();
        crate::text::push_decimal(&mut a, (k + 1) as u64);
        push_str(&mut a, " [");
        crate::text::push_decimal_i64(&mut a, ids[k]);
        push_str(&mut a, "]");
        let b = indent_block(generated.candidates[k].body.as_str());
        assert(bodies[k as int] == generated.candidates@[k as int].body@);
        let ghost before = lines@;
        lines.push(a);
        lines.push(b);
        assert(string_views(lines@) =~= string_views(before).push(a@).push(b@));
        assert(string_views(lines@) =~= head_seq + draft_entries(ids@, bodies, (k + 1) as nat));
        k = k + 1;
    }
    crate::text::join_strings(&lines, "\n")
}

} // verus!
