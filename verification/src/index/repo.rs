//! Rows the index stores about mailboxes and AI enrichment.

use vstd::prelude::*;
use crate::index::json::{json_list, serde_json_string, views};
use crate::model::{ParsedAddress, ParsedMessage};
use crate::threading::opt_view;

verus! {

/// A mailbox as stored for an account.
#[derive(Debug, Clone, PartialEq, Eq)]
pub struct StoredMailbox {
    pub id: i64,
    pub name: String,
    pub path: String,
}

/// The hashes stored when a message was last enriched.
#[derive(Debug, Clone, PartialEq, Eq)]
pub struct StoredMessageAiMetadata {
    pub message_id: i64,
    pub extraction_hash: Option<String>,
    pub embedding_hash: Option<String>,
}

/// The content hash stored when a thread was last enriched.
#[derive(Debug, Clone, PartialEq, Eq)]
pub struct StoredThreadAiMetadata {
    pub thread_id: i64,
    pub content_hash: Option<String>,
}

/// A new value where there is one, else the stored one.
pub open spec fn prefer_new(new: Option<Seq<char>>, stored: Option<Seq<char>>) -> Option<Seq<char>> {
    match new {
        Some(v) => Some(v),
        None => stored,
    }
}

/// `new.or(stored)` on texts.
pub fn or_stored(new: Option<String>, stored: Option<String>) -> (r: Option<String>)
    ensures
        crate::threading::opt_view(r) == prefer_new(
            crate::threading::opt_view(new),
            crate::threading::opt_view(stored),
        ),
{
    match new {
        Some(v) => Some(v),
        None => stored,
    }
}

/// The emails of a list of addresses, in order.
pub open spec fn address_emails(v: Seq<ParsedAddress>) -> Seq<Seq<char>> {
    v.map_values(|a: ParsedAddress| a.email@)
}

fn emails_of(v: &Vec<ParsedAddress>) -> (r: Vec<String>)
    ensures
        views(r@) == address_emails(v@),
{
    let mut out: Vec<String> = Vec::new();
    let mut i: usize = 0;
    while i < v.len()
        invariant
            i <= v@.len(),
            views(out@) == address_emails(v@.subrange(0, i as int)),
        decreases v@.len() - i,
    {
        let ghost prev = out@;
        let e = v[i].email.clone();
        assert(e@ == v@[i as int].email@);
        out.push(e);
        assert(v@.subrange(0, i + 1) =~= v@.subrange(0, i as int).push(v@[i as int]));
        assert(views(out@) =~= views(prev).push(e@));
        i = i + 1;
        assert(views(out@) =~= address_emails(v@.subrange(0, i as int)));
    }
    assert(v@.subrange(0, i as int) =~= v@);
    out
}

/// The columns of a `messages` row that are derived from the parsed message
/// rather than copied from it.
pub struct MessageColumns {
    pub references_json: String,
    pub from_name: Option<String>,
    pub from_email: Option<String>,
    pub to_json: String,
    pub cc_json: String,
    pub flags_json: String,
}

/// The derived columns of the row written for a parsed message: the
/// references and the `to`/`cc` emails as JSON lists, the sender split into
/// name and email, and no flags.
pub fn message_columns(parsed: &ParsedMessage) -> (r: MessageColumns)
    ensures
        r.references_json@ == json_list(views(parsed.references@)),
        opt_view(r.from_name) == (match parsed.from {
            Some(a) => opt_view(a.display_name),
            None => None,
        }),
        opt_view(r.from_email) == (match parsed.from {
            Some(a) => Some(a.email@),
            None => None::<Seq<char>>,
        }),
        r.to_json@ == json_list(address_emails(parsed.to@)),
        r.cc_json@ == json_list(address_emails(parsed.cc@)),
        r.flags_json@ == "[]"@,
{
    let to = emails_of(&parsed.to);
    let cc = emails_of(&parsed.cc);
    let (from_name, from_email) = match &parsed.from {
        Some(a) => (a.display_name.clone(), Some(a.email.clone())),
        None => (None, None),
    };
    MessageColumns {
        references_json: serde_json_string(parsed.references.as_slice()),
        from_name,
        from_email,
        to_json: serde_json_string(to.as_slice()),
        cc_json: serde_json_string(cc.as_slice()),
        flags_json: "[]".to_string(),
    }
}

/// The text fields of a fresh extraction that the `message_ai` row keeps.
pub struct ExtractionTexts {
    pub provider: String,
    pub model: String,
    pub summary: String,
    pub action: String,
    pub entities: Vec<String>,
}

/// Which provider and model produced a fresh embedding.
pub struct EmbeddingSource {
    pub provider: String,
    pub model: String,
}

/// The text columns of a `message_ai` row. In a row about to be written,
/// `enriched_at` is the stored time to keep, or `None` to stamp the row now.
#[derive(Debug, Clone, PartialEq, Eq)]
pub struct MessageAiTexts {
    pub summary: Option<String>,
    pub action: Option<String>,
    pub provider: Option<String>,
    pub model: Option<String>,
    pub entities_json: Option<String>,
    pub deadlines_json: Option<String>,
    pub enriched_at: Option<String>,
}

pub struct MessageAiView {
    pub summary: Option<Seq<char>>,
    pub action: Option<Seq<char>>,
    pub provider: Option<Seq<char>>,
    pub model: Option<Seq<char>>,
    pub entities_json: Option<Seq<char>>,
    pub deadlines_json: Option<Seq<char>>,
    pub enriched_at: Option<Seq<char>>,
}

impl View for MessageAiTexts {
    type V = MessageAiView;

    open spec fn view(&self) -> MessageAiView {
        MessageAiView {
            summary: opt_view(self.summary),
            action: opt_view(self.action),
            provider: opt_view(self.provider),
            model: opt_view(self.model),
            entities_json: opt_view(self.entities_json),
            deadlines_json: opt_view(self.deadlines_json),
            enriched_at: opt_view(self.enriched_at),
        }
    }
}

/// The extraction fields as plain values: provider, model, summary, action,
/// entities.
pub open spec fn extraction_view(x: ExtractionTexts) -> (Seq<char>, Seq<char>, Seq<char>, Seq<char>, Seq<Seq<char>>) {
    (x.provider@, x.model@, x.summary@, x.action@, views(x.entities@))
}

/// The row written when a message is enriched: each value comes from the
/// fresh extraction or embedding where there is one and is kept from the
/// stored row otherwise; provider and model come from the embedding first,
/// then the extraction; the embedding hash goes into `deadlines_json`; the
/// row is stamped anew when anything fresh arrived.
pub open spec fn merge_message_ai_spec(
    x: Option<(Seq<char>, Seq<char>, Seq<char>, Seq<char>, Seq<Seq<char>>)>,
    e: Option<(Seq<char>, Seq<char>)>,
    embedding_hash: Option<Seq<char>>,
    s: Option<MessageAiView>,
) -> MessageAiView {
    let stored = |f: spec_fn(MessageAiView) -> Option<Seq<char>>| match s {
        Some(v) => f(v),
        None => None,
    };
    MessageAiView {
        summary: prefer_new(
            match x {
                Some(t) => Some(t.2),
                None => None,
            },
            stored(|v: MessageAiView| v.summary),
        ),
        action: prefer_new(
            match x {
                Some(t) => Some(t.3),
                None => None,
            },
            stored(|v: MessageAiView| v.action),
        ),
        provider: match e {
            Some(p) => Some(p.0),
            None => prefer_new(
                match x {
                    Some(t) => Some(t.0),
                    None => None,
                },
                stored(|v: MessageAiView| v.provider),
            ),
        },
        model: match e {
            Some(p) => Some(p.1),
            None => prefer_new(
                match x {
                    Some(t) => Some(t.1),
                    None => None,
                },
                stored(|v: MessageAiView| v.model),
            ),
        },
        entities_json: prefer_new(
            match x {
                Some(t) => Some(json_list(t.4)),
                None => None,
            },
            stored(|v: MessageAiView| v.entities_json),
        ),
        deadlines_json: prefer_new(embedding_hash, stored(|v: MessageAiView| v.deadlines_json)),
        enriched_at: if x is Some || e is Some {
            None
        } else {
            stored(|v: MessageAiView| v.enriched_at)
        },
    }
}

fn stored_field(existing: Option<&MessageAiTexts>, which: u8) -> (r: Option<String>)
    requires
        which < 7,
    ensures
        opt_view(r) == (match existing {
            Some(v) => {
                let w = v@;
                if which == 0 {
                    w.summary
                } else if which == 1 {
                    w.action
                } else if which == 2 {
                    w.provider
                } else if which == 3 {
                    w.model
                } else if which == 4 {
                    w.entities_json
                } else if which == 5 {
                    w.deadlines_json
                } else {
                    w.enriched_at
                }
            },
            None => None,
        }),
{
    match existing {
        Some(v) => {
            if which == 0 {
                v.summary.clone()
            } else if which == 1 {
                v.action.clone()
            } else if which == 2 {
                v.provider.clone()
            } else if which == 3 {
                v.model.clone()
            } else if which == 4 {
                v.entities_json.clone()
            } else if which == 5 {
                v.deadlines_json.clone()
            } else {
                v.enriched_at.clone()
            }
        },
        None => None,
    }
}

/// Merges a fresh extraction and embedding into the stored `message_ai` row.
pub fn merge_message_ai(
    extraction: Option<&ExtractionTexts>,
    embedding: Option<&EmbeddingSource>,
    embedding_hash: Option<String>,
    existing: Option<&MessageAiTexts>,
) -> (r: MessageAiTexts)
    ensures
        r@ == merge_message_ai_spec(
            match extraction {
                Some(x) => Some(extraction_view(*x)),
                None => None,
            },
            match embedding {
                Some(e) => Some((e.provider@, e.model@)),
                None => None,
            },
            opt_view(embedding_hash),
            match existing {
                Some(v) => Some(v@),
                None => None,
            },
        ),
{
    let summary = match extraction {
        Some(x) => Some(x.summary.clone()),
        None => stored_field(existing, 0),
    };
    let action = match extraction {
        Some(x) => Some(x.action.clone()),
        None => stored_field(existing, 1),
    };
    let provider = match embedding {
        Some(e) => Some(e.provider.clone()),
        None => match extraction {
            Some(x) => Some(x.provider.clone()),
            None => stored_field(existing, 2),
        },
    };
    let model = match embedding {
        Some(e) => Some(e.model.clone()),
        None => match extraction {
            Some(x) => Some(x.model.clone()),
            None => stored_field(existing, 3),
        },
    };
    let entities_json = match extraction {
        Some(x) => Some(serde_json_string(x.entities.as_slice())),
        None => stored_field(existing, 4),
    };
    let deadlines_json = match embedding_hash {
        Some(h) => Some(h),
        None => stored_field(existing, 5),
    };
    let enriched_at = if extraction.is_some() || embedding.is_some() {
        None
    } else {
        stored_field(existing, 6)
    };
    MessageAiTexts { summary, action, provider, model, entities_json, deadlines_json, enriched_at }
}

} // verus!
