//! The text of `cour ask` apart from the scores.

use vstd::prelude::*;
use crate::text::{collapse_ws, decimal, decimal_int, push_str};

verus! {

/// A snippet on one line: its words joined by single spaces, or
/// `No snippet available` when it has none.
pub open spec fn sanitize_spec(s: Seq<char>) -> Seq<char> {
    if collapse_ws(s).len() == 0 {
        "No snippet available"@
    } else {
        collapse_ws(s)
    }
}

pub fn sanitize_snippet(snippet: &str) -> (r: String)
    ensures
        r@ == sanitize_spec(snippet@),
{
    let normalized = crate::text::collapse_whitespace(snippet);
    if normalized.as_str().is_empty() {
        "No snippet available".to_string()
    } else {
        normalized
    }
}

/// `Ask: <query>`, then either the note that nothing matched or the
/// heading of the ranked list.
pub open spec fn ask_header_spec(query: Seq<char>, any: bool) -> Seq<char> {
    "Ask: "@ + query + "\n"@ + (if any {
        "Ranked threads\n"@
    } else {
        "No matching threads found.\n"@
    })
}

pub fn ask_header(query: &str, any_results: bool) -> (r: String)
    ensures
        r@ == ask_header_spec(query@, any_results),
{
    let mut out = "Ask: ".to_string();
    push_str(&mut out, query);
    push_str(&mut out, "\n");
    if any_results {
        push_str(&mut out, "Ranked threads\n");
    } else {
        push_str(&mut out, "No matching threads found.\n");
    }
    out
}

/// The title line of the `index`-th result (counted from zero).
pub open spec fn ask_title_spec(index: nat, thread_id: i64, subject: Option<Seq<char>>) -> Seq<char> {
    decimal(index + 1) + ". ["@ + decimal_int(thread_id as int) + "] "@ + (match subject {
        Some(s) => s,
        None => "(no subject)"@,
    }) + "\n"@
}

pub fn ask_title_line(index: usize, thread_id: i64, subject: &Option<String>) -> (r: String)
    requires
        index < usize::MAX,
    ensures
        r@ == ask_title_spec(index as nat, thread_id, crate::threading::opt_view(*subject)),
{
    let mut out = String::new();
    crate::text::push_decimal(&mut out, (index + 1) as u64);
    push_str(&mut out, ". [");
    crate::text::push_decimal_i64(&mut out, thread_id);
    push_str(&mut out, "] ");
    match subject {
        Some(s) => push_str(&mut out, s.as_str()),
        None => push_str(&mut out, "(no subject)"),
    }
    push_str(&mut out, "\n");
    out
}

/// The evidence line of a result.
pub fn ask_evidence_line(snippet: &str) -> (r: String)
    ensures
        r@ == "   Evidence: "@ + sanitize_spec(snippet@) + "\n"@,
{
    let mut out = "   Evidence: ".to_string();
    push_str(&mut out, sanitize_snippet(snippet).as_str());
    push_str(&mut out, "\n");
    out
}

} // verus!
