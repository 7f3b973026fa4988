//! What the extractor is given, the hashes that tell whether a message or
//! thread changed since it was enriched, and the enrichment decisions.

use vstd::prelude::*;
use std::collections::hash_map::DefaultHasher;
use std::hash::Hasher;
use vstd::std_specs::hash::DefaultHasherAdditionalSpecFns;
use crate::index::query::{ThreadDetailRow, ThreadMessageRow};
use crate::parse::hex16;
use crate::threading::opt_view;

verus! {

/// One message as the extractor sees it.
#[derive(Debug, Clone, PartialEq, Eq)]
pub struct ExtractMessageInput {
    pub from_email: Option<String>,
    pub subject: Option<String>,
    pub body_text: String,
}

/// What the extractor is asked about: a subject and its messages.
#[derive(Debug, Clone, PartialEq, Eq)]
pub struct ExtractorInput {
    pub subject: Option<String>,
    pub messages: Vec<ExtractMessageInput>,
}

/// What the draft generator is asked about.
#[derive(Debug, Clone, PartialEq, Eq)]
pub struct DraftGeneratorInput {
    pub subject: Option<String>,
    pub latest_ask: Option<String>,
    pub messages: Vec<ExtractMessageInput>,
    pub tone_hint: Option<String>,
}

pub type MessageInputView = (Option<Seq<char>>, Option<Seq<char>>, Seq<char>);

pub open spec fn message_input_view(m: ExtractMessageInput) -> MessageInputView {
    (opt_view(m.from_email), opt_view(m.subject), m.body_text@)
}

pub open spec fn input_view(i: ExtractorInput) -> (Option<Seq<char>>, Seq<MessageInputView>) {
    (opt_view(i.subject), i.messages@.map_values(|m: ExtractMessageInput| message_input_view(m)))
}

pub open spec fn row_input_view(m: ThreadMessageRow) -> MessageInputView {
    (opt_view(m.from_email), opt_view(m.subject), m.body_text@)
}

fn copy_opt(o: &Option<String>) -> (r: Option<String>)
    ensures
        opt_view(r) == opt_view(*o),
{
    match o {
        Some(s) => Some(s.clone()),
        None => None,
    }
}

fn message_input(m: &ThreadMessageRow) -> (r: ExtractMessageInput)
    ensures
        message_input_view(r) == row_input_view(*m),
{
    ExtractMessageInput {
        from_email: copy_opt(&m.from_email),
        subject: copy_opt(&m.subject),
        body_text: m.body_text.clone(),
    }
}

/// A message on its own: its subject, and the message itself.
pub fn message_extractor_input(message: &ThreadMessageRow) -> (r: ExtractorInput)
    ensures
        input_view(r) == (opt_view(message.subject), seq![row_input_view(*message)]),
{
    let mut messages: Vec<ExtractMessageInput> = Vec::new();
    messages.push(message_input(message));
    let r = ExtractorInput { subject: copy_opt(&message.subject), messages };
    assert(input_view(r).1 =~= seq![row_input_view(*message)]);
    r
}

/// A thread: its subject and all its messages in order.
pub fn thread_extractor_input(detail: &ThreadDetailRow) -> (r: ExtractorInput)
    ensures
        input_view(r) == (
            opt_view(detail.subject),
            detail.messages@.map_values(|m: ThreadMessageRow| row_input_view(m)),
        ),
{
    let mut messages: Vec<ExtractMessageInput> = Vec::new();
    let mut i: usize = 0;
    while i < detail.messages.len()
        invariant
            i <= detail.messages@.len(),
            messages@.map_values(|m: ExtractMessageInput| message_input_view(m))
                == detail.messages@.take(i as int).map_values(|m: ThreadMessageRow| row_input_view(m)),
        decreases detail.messages@.len() - i,
    {
        let mi = message_input(&detail.messages[i]);
        let ghost before = messages@;
        messages.push(mi);
        assert(messages@.map_values(|m: ExtractMessageInput| message_input_view(m)) =~= before.map_values(
            |m: ExtractMessageInput| message_input_view(m),
        ).push(message_input_view(mi)));
        assert(detail.messages@.take(i + 1) =~= detail.messages@.take(i as int).push(detail.messages@[i as int]));
        assert(messages@.map_values(|m: ExtractMessageInput| message_input_view(m))
            =~= detail.messages@.take(i + 1).map_values(|m: ThreadMessageRow| row_input_view(m)));
        i = i + 1;
    }
    assert(detail.messages@.take(detail.messages@.len() as int) =~= detail.messages@);
    ExtractorInput { subject: copy_opt(&detail.subject), messages }
}

/// The write of a text's UTF-8 bytes, when there is a text.
pub open spec fn opt_bytes(o: Option<Seq<char>>) -> Seq<Seq<u8>> {
    match o {
        Some(s) => seq![vstd::utf8::encode_utf8(s)],
        None => Seq::empty(),
    }
}

/// The writes for one message: sender, `fe`, subject, `fd`, body, `fc`.
pub open spec fn message_writes(m: MessageInputView) -> Seq<Seq<u8>> {
    opt_bytes(m.0) + seq![seq![0xfeu8]] + opt_bytes(m.1) + seq![seq![0xfdu8]] + seq![
        vstd::utf8::encode_utf8(m.2),
    ] + seq![seq![0xfcu8]]
}

pub open spec fn messages_writes(ms: Seq<MessageInputView>) -> Seq<Seq<u8>>
    decreases ms.len(),
{
    if ms.len() == 0 {
        Seq::empty()
    } else {
        messages_writes(ms.drop_last()) + message_writes(ms.last())
    }
}

/// The writes a content hash feeds the hasher: the subject, `ff`, then each
/// message's writes.
pub open spec fn content_writes(i: (Option<Seq<char>>, Seq<MessageInputView>)) -> Seq<Seq<u8>> {
    opt_bytes(i.0) + seq![seq![0xffu8]] + messages_writes(i.1)
}

/// The hash of extractor input: `DefaultHasher` over its writes, in hex.
pub open spec fn content_hash_spec(i: (Option<Seq<char>>, Seq<MessageInputView>)) -> Seq<char> {
    hex16(DefaultHasher::spec_finish(content_writes(i)))
}

fn write_opt(h: &mut DefaultHasher, o: &Option<String>)
    ensures
        final(h)@ == old(h)@ + opt_bytes(opt_view(*o)),
{
    match o {
        Some(s) => h.write(s.as_str().as_bytes()),
        None => {},
    }
    assert(h@ =~= old(h)@ + opt_bytes(opt_view(*o)));
}

fn write_mark(h: &mut DefaultHasher, b: u8)
    ensures
        final(h)@ == old(h)@.push(seq![b]),
{
    let v: Vec<u8> = vec![b];
    assert(v@ =~= seq![b]);
    h.write(v.as_slice());
}

/// The hash that tells whether extractor input changed.
pub fn content_hash(value: &ExtractorInput) -> (r: String)
    ensures
        r@ == content_hash_spec(input_view(*value)),
{
    let mut hasher = DefaultHasher::new();
    write_opt(&mut hasher, &value.subject);
    write_mark(&mut hasher, 0xff);
    let ghost head = hasher@;
    let ghost ms = input_view(*value).1;
    let mut i: usize = 0;
    while i < value.messages.len()
        invariant
            i <= value.messages@.len(),
            ms == value.messages@.map_values(|m: ExtractMessageInput| message_input_view(m)),
            hasher@ == head + messages_writes(ms.take(i as int)),
        decreases value.messages@.len() - i,
    {
        let m = &value.messages[i];
        proof {
            assert(ms.take(i + 1).drop_last() =~= ms.take(i as int));
            assert(ms.take(i + 1).last() == message_input_view(*m));
        }
        let ghost before = hasher@;
        write_opt(&mut hasher, &m.from_email);
        write_mark(&mut hasher, 0xfe);
        write_opt(&mut hasher, &m.subject);
        write_mark(&mut hasher, 0xfd);
        hasher.write(m.body_text.as_str().as_bytes());
        write_mark(&mut hasher, 0xfc);
        assert(hasher@ =~= before + message_writes(message_input_view(*m)));
        assert(hasher@ =~= head + messages_writes(ms.take(i + 1)));
        i = i + 1;
    }
    assert(ms.take(value.messages@.len() as int) =~= ms);
    assert(hasher@ =~= content_writes(input_view(*value)));
    crate::parse::format_hex16(hasher.finish())
}

/// The hash that tells whether a body changed since it was embedded.
pub fn embedding_hash(body_text: &str) -> (r: String)
    ensures
        r@ == hex16(DefaultHasher::spec_finish(seq![vstd::utf8::encode_utf8(body_text@)])),
{
    let mut hasher = DefaultHasher::new();
    hasher.write(body_text.as_bytes());
    assert(hasher@ =~= seq![vstd::utf8::encode_utf8(body_text@)]);
    crate::parse::format_hex16(hasher.finish())
}

/// What to do for one message: leave it, or run the extractor and/or the
/// embedder on it.
#[derive(Debug, Clone, Copy, PartialEq, Eq, Structural)]
pub enum MessageStep {
    Skip,
    Enrich { extract: bool, embed: bool },
}

/// A step is unchanged when its tool is absent or the stored hash equals
/// the current one.
pub open spec fn unchanged(has_tool: bool, stored: Option<Seq<char>>, current: Seq<char>) -> bool {
    !has_tool || stored == Some(current)
}

pub open spec fn message_step_spec(has_extractor: bool, has_embedder: bool, stored_extraction: Option<Seq<char>>, stored_embedding: Option<Seq<char>>, extraction_hash: Seq<char>, embedding_hash: Seq<char>) -> MessageStep {
    let ex = unchanged(has_extractor, stored_extraction, extraction_hash);
    let em = unchanged(has_embedder, stored_embedding, embedding_hash);
    if ex && em {
        MessageStep::Skip
    } else {
        MessageStep::Enrich { extract: !ex, embed: !em }
    }
}

fn same_hash(stored: &Option<String>, current: &str) -> (b: bool)
    ensures
        b == (opt_view(*stored) == Some(current@)),
{
    match stored {
        Some(s) => crate::text::str_eq(s.as_str(), current),
        None => false,
    }
}

/// Decides the enrichment of a message from the tools available and the
/// hashes stored when it was last enriched (none when it never was).
pub fn message_enrichment_step(
    has_extractor: bool,
    has_embedder: bool,
    stored_extraction: &Option<String>,
    stored_embedding: &Option<String>,
    extraction_hash: &str,
    embedding_hash: &str,
) -> (r: MessageStep)
    ensures
        r == message_step_spec(
            has_extractor,
            has_embedder,
            opt_view(*stored_extraction),
            opt_view(*stored_embedding),
            extraction_hash@,
            embedding_hash@,
        ),
{
    let ex = !has_extractor || same_hash(stored_extraction, extraction_hash);
    let em = !has_embedder || same_hash(stored_embedding, embedding_hash);
    if ex && em {
        MessageStep::Skip
    } else {
        MessageStep::Enrich { extract: !ex, embed: !em }
    }
}

/// Whether a thread is extracted again: when there is an extractor and the
/// stored content hash differs from the current one.
pub fn thread_needs_enrichment(has_extractor: bool, stored_hash: &Option<String>, thread_hash: &str) -> (b: bool)
    ensures
        b == !unchanged(has_extractor, opt_view(*stored_hash), thread_hash@),
{
    !(!has_extractor || same_hash(stored_hash, thread_hash))
}

/// Enriching again with nothing changed does nothing.
pub proof fn law_unchanged_message_is_skipped(has_extractor: bool, has_embedder: bool, extraction_hash: Seq<char>, embedding_hash: Seq<char>)
    ensures
        message_step_spec(
            has_extractor,
            has_embedder,
            Some(extraction_hash),
            Some(embedding_hash),
            extraction_hash,
            embedding_hash,
        ) == MessageStep::Skip,
{
}

/// The counts of an enrichment run.
#[derive(Debug, Clone, PartialEq, Eq)]
pub struct EnrichmentStats {
    pub messages_enriched: usize,
    pub messages_skipped: usize,
    pub threads_enriched: usize,
    pub threads_skipped: usize,
}

impl EnrichmentStats {
    pub fn new() -> (r: Self)
        ensures
            r.messages_enriched == 0 && r.messages_skipped == 0 && r.threads_enriched == 0
                && r.threads_skipped == 0,
    {
        EnrichmentStats {
            messages_enriched: 0,
            messages_skipped: 0,
            threads_enriched: 0,
            threads_skipped: 0,
        }
    }

    /// Counts a message as skipped or enriched.
    pub fn record_message(&mut self, enriched: bool)
        requires
            old(self).messages_enriched < usize::MAX,
            old(self).messages_skipped < usize::MAX,
        ensures
            final(self).messages_enriched == old(self).messages_enriched + (if enriched { 1int } else { 0 }),
            final(self).messages_skipped == old(self).messages_skipped + (if enriched { 0int } else { 1 }),
            final(self).threads_enriched == old(self).threads_enriched,
            final(self).threads_skipped == old(self).threads_skipped,
    {
        if enriched {
            self.messages_enriched = self.messages_enriched + 1;
        } else {
            self.messages_skipped = self.messages_skipped + 1;
        }
    }

    /// Counts a thread as skipped or enriched.
    pub fn record_thread(&mut self, enriched: bool)
        requires
            old(self).threads_enriched < usize::MAX,
            old(self).threads_skipped < usize::MAX,
        ensures
            final(self).threads_enriched == old(self).threads_enriched + (if enriched { 1int } else { 0 }),
            final(self).threads_skipped == old(self).threads_skipped + (if enriched { 0int } else { 1 }),
            final(self).messages_enriched == old(self).messages_enriched,
            final(self).messages_skipped == old(self).messages_skipped,
    {
        if enriched {
            self.threads_enriched = self.threads_enriched + 1;
        } else {
            self.threads_skipped = self.threads_skipped + 1;
        }
    }
}

/// The hashes of one message: those stored when it was last enriched (none
/// when it never was) and those of its current content.
#[derive(Debug, Clone, PartialEq, Eq)]
pub struct MessageHashes {
    pub stored_extraction: Option<String>,
    pub stored_embedding: Option<String>,
    pub extraction_hash: String,
    pub embedding_hash: String,
}

pub type HashesView = (Option<Seq<char>>, Option<Seq<char>>, Seq<char>, Seq<char>);

pub open spec fn hashes_view(h: MessageHashes) -> HashesView {
    (opt_view(h.stored_extraction), opt_view(h.stored_embedding), h.extraction_hash@, h.embedding_hash@)
}

pub open spec fn step_of(has_extractor: bool, has_embedder: bool, h: HashesView) -> MessageStep {
    message_step_spec(has_extractor, has_embedder, h.0, h.1, h.2, h.3)
}

/// The number of steps that enrich.
pub open spec fn enriched_count(steps: Seq<MessageStep>) -> nat
    decreases steps.len(),
{
    if steps.len() == 0 {
        0
    } else {
        enriched_count(steps.drop_last()) + if steps.last() is Skip { 0nat } else { 1nat }
    }
}

/// What enriching a thread does, decided before any tool is called: the step
/// of each message, whether the thread itself is extracted, and the counts
/// the run reports.
#[derive(Debug, Clone, PartialEq, Eq)]
pub struct EnrichmentPlan {
    pub steps: Vec<MessageStep>,
    pub thread: bool,
    pub stats: EnrichmentStats,
}

pub open spec fn plan_matches(
    p: EnrichmentPlan,
    has_extractor: bool,
    has_embedder: bool,
    messages: Seq<HashesView>,
    stored_thread: Option<Seq<char>>,
    thread_hash: Seq<char>,
) -> bool {
    &&& p.steps@.len() == messages.len()
    &&& forall|i: int| 0 <= i < messages.len() ==> #[trigger] p.steps@[i] == step_of(has_extractor, has_embedder, messages[i])
    &&& p.thread == !unchanged(has_extractor, stored_thread, thread_hash)
    &&& p.stats.messages_enriched == enriched_count(p.steps@)
    &&& p.stats.messages_skipped == messages.len() - enriched_count(p.steps@)
    &&& p.stats.threads_enriched == (if p.thread { 1int } else { 0 })
    &&& p.stats.threads_skipped == (if p.thread { 0int } else { 1 })
}

proof fn lemma_enriched_count_le(steps: Seq<MessageStep>)
    ensures
        enriched_count(steps) <= steps.len(),
    decreases steps.len(),
{
    if steps.len() > 0 {
        lemma_enriched_count_le(steps.drop_last());
    }
}

/// Plans the enrichment of a thread whose messages have the given hashes.
pub fn plan_enrichment(
    has_extractor: bool,
    has_embedder: bool,
    messages: &Vec<MessageHashes>,
    stored_thread: &Option<String>,
    thread_hash: &str,
) -> (r: EnrichmentPlan)
    ensures
        plan_matches(
            r,
            has_extractor,
            has_embedder,
            messages@.map_values(|h: MessageHashes| hashes_view(h)),
            opt_view(*stored_thread),
            thread_hash@,
        ),
{
    let ghost hv = messages@.map_values(|h: MessageHashes| hashes_view(h));
    let mut steps: Vec<MessageStep> = Vec::new();
    let mut enriched: usize = 0;
    let mut i: usize = 0;
    while i < messages.len()
        invariant
            i <= messages@.len(),
            hv == messages@.map_values(|h: MessageHashes| hashes_view(h)),
            steps@.len() == i,
            forall|k: int| 0 <= k < i ==> #[trigger] steps@[k] == step_of(has_extractor, has_embedder, hv[k]),
            enriched == enriched_count(steps@),
            enriched <= i,
        decreases messages@.len() - i,
    {
        let h = &messages[i];
        let step = message_enrichment_step(
            has_extractor,
            has_embedder,
            &h.stored_extraction,
            &h.stored_embedding,
            h.extraction_hash.as_str(),
            h.embedding_hash.as_str(),
        );
        let ghost before = steps@;
        steps.push(step);
        proof {
            assert(steps@.drop_last() =~= before);
            assert(hv[i as int] == hashes_view(messages@[i as int]));
        }
        match step {
            MessageStep::Skip => {},
            MessageStep::Enrich { .. } => {
                enriched = enriched + 1;
            },
        }
        i = i + 1;
    }
    proof {
        lemma_enriched_count_le(steps@);
    }
    let thread = thread_needs_enrichment(has_extractor, stored_thread, thread_hash);
    let stats = EnrichmentStats {
        messages_enriched: enriched,
        messages_skipped: messages.len() - enriched,
        threads_enriched: if thread { 1 } else { 0 },
        threads_skipped: if thread { 0 } else { 1 },
    };
    EnrichmentPlan { steps, thread, stats }
}

proof fn lemma_all_skip(steps: Seq<MessageStep>)
    requires
        forall|i: int| 0 <= i < steps.len() ==> #[trigger] steps[i] is Skip,
    ensures
        enriched_count(steps) == 0,
    decreases steps.len(),
{
    if steps.len() > 0 {
        assert(steps.last() is Skip);
        lemma_all_skip(steps.drop_last());
    }
}

/// Enriching a thread again when nothing changed since the last run (each
/// message's stored hashes are its current ones, and so is the thread's):
/// no message and not the thread is sent to a tool, and the run counts every
/// message and the thread as skipped.
pub proof fn law_unchanged_thread_is_skipped(
    p: EnrichmentPlan,
    has_extractor: bool,
    has_embedder: bool,
    messages: Seq<HashesView>,
    thread_hash: Seq<char>,
)
    requires
        plan_matches(p, has_extractor, has_embedder, messages, Some(thread_hash), thread_hash),
        forall|i: int| 0 <= i < messages.len() ==> (#[trigger] messages[i]).0 == Some(messages[i].2) && messages[i].1 == Some(messages[i].3),
    ensures
        forall|i: int| 0 <= i < p.steps@.len() ==> #[trigger] p.steps@[i] is Skip,
        !p.thread,
        p.stats == (EnrichmentStats {
            messages_enriched: 0,
            messages_skipped: messages.len() as usize,
            threads_enriched: 0,
            threads_skipped: 1,
        }),
{
    assert forall|i: int| 0 <= i < p.steps@.len() implies #[trigger] p.steps@[i] is Skip by {
        assert(p.steps@[i] == step_of(has_extractor, has_embedder, messages[i]));
    }
    lemma_all_skip(p.steps@);
}

/// The message for a thread id the enrichment cannot find.
pub fn thread_missing_message(thread_id: i64) -> (r: String)
    ensures
        r@ == "thread not found: "@ + crate::text::decimal_int(thread_id as int),
{
    let mut out = "thread not found: ".to_string();
    crate::text::push_decimal_i64(&mut out, thread_id);
    out
}

} // verus!
