//! Storing generated drafts: the rationale of a candidate as JSON text.

use vstd::prelude::*;
use crate::error::AppError;
use crate::parse::hex_char;
use crate::text::{push_str, string_views};

verus! {

#[verifier::external_type_specification]
#[verifier::external_body]
pub struct ExJsonError(serde_json::Error);

/// How serde_json writes one character inside a string: `"` and `\\` after a
/// backslash; backspace, tab, line feed, form feed and carriage return as
/// `\\b`, `\\t`, `\\n`, `\\f`, `\\r`; the other control characters below
/// U+0020 as `\\u00` and two lower-case hex digits; everything else as is.
pub open spec fn serde_escape_char(c: char) -> Seq<char> {
    let n = c as u32;
    if c == '"' {
        seq!['\\', '"']
    } else if c == '\\' {
        seq!['\\', '\\']
    } else if n == 8 {
        seq!['\\', 'b']
    } else if n == 9 {
        seq!['\\', 't']
    } else if n == 10 {
        seq!['\\', 'n']
    } else if n == 12 {
        seq!['\\', 'f']
    } else if n == 13 {
        seq!['\\', 'r']
    } else if n < 32 {
        seq!['\\', 'u', '0', '0', hex_char((n / 16) as u64), hex_char((n % 16) as u64)]
    } else {
        seq![c]
    }
}

/// The escaped contents of a JSON string.
pub open spec fn serde_escape(s: Seq<char>) -> Seq<char>
    decreases s.len(),
{
    if s.len() == 0 {
        Seq::empty()
    } else {
        serde_escape(s.drop_last()) + serde_escape_char(s.last())
    }
}

/// The strings, each between double quotes and escaped, separated by commas.
pub open spec fn serde_items(vs: Seq<Seq<char>>) -> Seq<char>
    decreases vs.len(),
{
    if vs.len() == 0 {
        Seq::empty()
    } else if vs.len() == 1 {
        seq!['"'] + serde_escape(vs[0]) + seq!['"']
    } else {
        serde_items(vs.drop_last()) + seq![','] + seq!['"'] + serde_escape(vs.last()) + seq!['"']
    }
}

/// The compact JSON text of a list of strings, as `serde_json::to_string`
/// writes it.
pub open spec fn serde_json_text(vs: Seq<Seq<char>>) -> Seq<char> {
    seq!['['] + serde_items(vs) + seq![']']
}

/// `serde_json::to_string` on a list of strings. Stated: it succeeds (a
/// sequence of strings never fails to serialise, and the writer is a `Vec`),
/// and the text is the compact array of the escaped strings.
#[verifier::external_body]
fn to_json_strings(values: &Vec<String>) -> (r: Result<String, serde_json::Error>)
    ensures
        r is Ok,
        r matches Ok(s) ==> s@ == serde_json_text(string_views(values@)),
{
    serde_json::to_string(values)
}

/// The message of a `serde_json::Error` (its `Display`). Nothing is stated
/// of the text.
#[verifier::external_body]
fn json_error_text(e: &serde_json::Error) -> (r: String) {
    format!("{e}")
}

/// The rationale of a draft candidate as stored: its JSON text. (A failure
/// to serialise would be reported as an AI error; for a list of strings
/// there is none.)
pub fn rationale_json(rationale: &Vec<String>) -> (r: Result<String, AppError>)
    ensures
        r is Ok,
        r matches Ok(s) ==> s@ == serde_json_text(string_views(rationale@)),
{
    match to_json_strings(rationale) {
        Ok(s) => Ok(s),
        Err(e) => {
            let mut m = "failed to serialize rationale: ".to_string();
            push_str(&mut m, json_error_text(&e).as_str());
            proof {
                assert("failed to serialize rationale: "@.is_prefix_of(m@)) by {
                    assert(m@.subrange(0, "failed to serialize rationale: "@.len() as int) =~= "failed to serialize rationale: "@);
                }
            }
            Err(AppError::Ai(m))
        },
    }
}

} // verus!
