//! Rows of the full-text search.

use vstd::prelude::*;

verus! {

/// A thread matching a full-text query, with the matching snippet.
#[derive(Debug, Clone, PartialEq, Eq)]
pub struct LexicalSearchRow {
    pub thread_id: i64,
    pub subject: Option<String>,
    pub snippet: String,
}

} // verus!
