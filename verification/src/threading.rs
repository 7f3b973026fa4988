//! Conversation threading: subject normalisation and the assignment of
//! messages to threads by `References`, `In-Reply-To` and subject.

use vstd::prelude::*;

use crate::strmap::StrMap;
use crate::text::{
    decimal_int, is_ws, lemma_trim_end_ws_empty, lower_seq, trim_end_ws, trim_start_ws, trim_ws,
};

verus! {

#[derive(Debug, Clone, PartialEq, Eq)]
pub struct ThreadCandidate {
    pub message_row_id: i64,
    pub message_id_header: Option<String>,
    pub in_reply_to: Option<String>,
    pub references: Vec<String>,
    pub subject: Option<String>,
}

#[derive(Debug, Clone, PartialEq, Eq)]
pub struct ThreadAssignment {
    pub message_row_id: i64,
    pub thread_key: String,
}

pub open spec fn is_ascii_alpha(c: char) -> bool {
    ('a' <= c && c <= 'z') || ('A' <= c && c <= 'Z')
}

pub open spec fn is_ascii_digit(c: char) -> bool {
    '0' <= c && c <= '9'
}

/// Number of leading ASCII letters of `s`.
pub open spec fn alpha_run(s: Seq<char>) -> nat
    decreases s.len(),
{
    if s.len() > 0 && is_ascii_alpha(s[0]) {
        1 + alpha_run(s.drop_first())
    } else {
        0
    }
}

/// Number of leading ASCII digits of `s`.
pub open spec fn digit_run(s: Seq<char>) -> nat
    decreases s.len(),
{
    if s.len() > 0 && is_ascii_digit(s[0]) {
        1 + digit_run(s.drop_first())
    } else {
        0
    }
}

/// The reply and forward markers, compared in lower case.
pub open spec fn is_reply_word(w: Seq<char>) -> bool {
    w == seq!['r', 'e'] || w == seq!['f', 'w'] || w == seq!['f', 'w', 'd']
}

/// One `Re:` / `Fw:` / `Fwd:` marker (letters in any case, optionally followed
/// by digits, as in `RE2:`) removed from the front of `s`, together with the
/// whitespace that follows it; `s` itself when it does not start with one.
pub open spec fn strip_prefix_spec(s: Seq<char>) -> Seq<char> {
    let t = trim_start_ws(s);
    let a = alpha_run(t);
    let idx = a + digit_run(t.skip(a as int));
    if a == 0 || idx >= t.len() || t[idx as int] != ':' || !is_reply_word(
        lower_seq(t.take(a as int)),
    ) {
        s
    } else {
        trim_start_ws(t.skip(idx + 1int))
    }
}

/// `s` with markers stripped from the front until none is left.
pub open spec fn strip_all(s: Seq<char>) -> Seq<char>
    decreases s.len(),
{
    let n = strip_prefix_spec(s);
    if n != s && n.len() < s.len() {
        strip_all(n)
    } else {
        s
    }
}

/// The subject that threading compares: trimmed, with every leading reply or
/// forward marker removed.
pub open spec fn normalized_subject(s: Seq<char>) -> Seq<char> {
    trim_ws(strip_all(trim_ws(s)))
}

pub proof fn lemma_trim_start_is_skip(s: Seq<char>)
    ensures
        trim_start_ws(s).len() <= s.len(),
        trim_start_ws(s) == s.skip(s.len() - trim_start_ws(s).len()),
        trim_start_ws(s).len() > 0 ==> !is_ws(trim_start_ws(s)[0]),
    decreases s.len(),
{
    if s.len() > 0 && is_ws(s[0]) {
        lemma_trim_start_is_skip(s.drop_first());
        assert(s.drop_first().skip(s.drop_first().len() - trim_start_ws(s.drop_first()).len())
            =~= s.skip(s.len() - trim_start_ws(s).len()));
    } else {
        assert(s.skip(0) =~= s);
    }
}

/// Stripping a marker makes the subject strictly shorter.
pub proof fn lemma_strip_shorter(s: Seq<char>)
    ensures
        strip_prefix_spec(s) == s || strip_prefix_spec(s).len() < s.len(),
{
    let t = trim_start_ws(s);
    lemma_trim_start_is_skip(s);
    let a = alpha_run(t);
    let idx = a + digit_run(t.skip(a as int));
    if !(a == 0 || idx >= t.len() || t[idx as int] != ':' || !is_reply_word(
        lower_seq(t.take(a as int)),
    )) {
        lemma_trim_start_is_skip(t.skip(idx + 1int));
    }
}

pub proof fn lemma_strip_all_fixpoint(s: Seq<char>)
    ensures
        strip_prefix_spec(strip_all(s)) == strip_all(s),
    decreases s.len(),
{
    lemma_strip_shorter(s);
    let n = strip_prefix_spec(s);
    if n != s && n.len() < s.len() {
        lemma_strip_all_fixpoint(n);
    }
}

/// `s` has no leading and no trailing whitespace.
pub open spec fn is_trimmed(s: Seq<char>) -> bool {
    s.len() == 0 || (!is_ws(s[0]) && !is_ws(s.last()))
}

pub proof fn lemma_trimmed_fixed(s: Seq<char>)
    requires
        is_trimmed(s),
    ensures
        trim_ws(s) == s,
        trim_start_ws(s) == s,
{
}

pub proof fn lemma_trim_is_trimmed(s: Seq<char>)
    ensures
        is_trimmed(trim_ws(s)),
{
    let t = trim_start_ws(s);
    lemma_trim_start_is_skip(s);
    lemma_trim_end_ws_empty(t);
    lemma_trim_end_last(t);
}

pub proof fn lemma_trim_end_last(t: Seq<char>)
    ensures
        trim_end_ws(t).len() > 0 ==> !is_ws(trim_end_ws(t).last()),
    decreases t.len(),
{
    if t.len() > 0 && is_ws(t.last()) {
        lemma_trim_end_last(t.drop_last());
    }
}

/// Stripping a marker from a trimmed subject leaves it trimmed.
pub proof fn lemma_strip_keeps_trimmed(s: Seq<char>)
    requires
        is_trimmed(s),
    ensures
        is_trimmed(strip_prefix_spec(s)),
{
    let t = trim_start_ws(s);
    assert(t == s);
    let a = alpha_run(t);
    let idx = a + digit_run(t.skip(a as int));
    if !(a == 0 || idx >= t.len() || t[idx as int] != ':' || !is_reply_word(
        lower_seq(t.take(a as int)),
    )) {
        let u = t.skip(idx + 1int);
        lemma_trim_start_is_skip(u);
        let r = trim_start_ws(u);
        if r.len() > 0 {
            assert(r.last() == u.last());
            assert(u.last() == s.last());
        }
    }
}

pub proof fn lemma_strip_all_trimmed(s: Seq<char>)
    requires
        is_trimmed(s),
    ensures
        is_trimmed(strip_all(s)),
    decreases s.len(),
{
    let n = strip_prefix_spec(s);
    if n != s && n.len() < s.len() {
        lemma_strip_keeps_trimmed(s);
        lemma_strip_all_trimmed(n);
    }
}

/// Normalising a subject twice gives what normalising it once gave.
pub proof fn law_normalize_subject_idempotent(s: Seq<char>)
    ensures
        normalized_subject(normalized_subject(s)) == normalized_subject(s),
{
    let t = trim_ws(s);
    lemma_trim_is_trimmed(s);
    let c = strip_all(t);
    lemma_strip_all_trimmed(t);
    lemma_trimmed_fixed(c);
    lemma_strip_all_fixpoint(t);
    lemma_strip_shorter(c);
    assert(strip_all(c) == c);
}

pub open spec fn view_seq(v: Seq<String>) -> Seq<Seq<char>> {
    v.map_values(|r: String| r@)
}

pub open spec fn opt_view(o: Option<String>) -> Option<Seq<char>> {
    match o {
        Some(s) => Some(s@),
        None => None,
    }
}

/// What threading has learnt so far: the thread of each message id seen, and
/// the thread opened for each normalised subject.
pub struct ThreadIndex {
    pub roots: Map<Seq<char>, Seq<char>>,
    pub subjects: Map<Seq<char>, Seq<char>>,
}

/// The thread of the last reference (in header order) whose message is known.
pub open spec fn last_known_root(refs: Seq<Seq<char>>, roots: Map<Seq<char>, Seq<char>>) -> Option<
    Seq<char>,
>
    decreases refs.len(),
{
    if refs.len() == 0 {
        None
    } else if roots.contains_key(refs.last()) {
        Some(roots[refs.last()])
    } else {
        last_known_root(refs.drop_last(), roots)
    }
}

pub open spec fn subject_key(n: Seq<char>) -> Seq<char> {
    seq!['s', 'u', 'b', 'j', 'e', 'c', 't', ':'] + n
}

pub open spec fn row_key(id: i64) -> Seq<char> {
    seq!['m', 'e', 's', 's', 'a', 'g', 'e', '-', 'r', 'o', 'w', ':'] + decimal_int(id as int)
}

/// The thread of one candidate given what is known, and what is known after it.
pub open spec fn assign_step(ix: ThreadIndex, c: ThreadCandidate) -> (ThreadIndex, Seq<char>) {
    let from_refs = last_known_root(view_seq(c.references@), ix.roots);
    let from_reply = match c.in_reply_to {
        Some(r) => if ix.roots.contains_key(r@) {
            Some(ix.roots[r@])
        } else {
            None
        },
        None => None,
    };
    let (subjects, key) = if from_refs is Some {
        (ix.subjects, from_refs->0)
    } else if from_reply is Some {
        (ix.subjects, from_reply->0)
    } else {
        match c.subject {
            Some(s) => {
                let n = normalized_subject(s@);
                if n.len() == 0 {
                    (ix.subjects, row_key(c.message_row_id))
                } else if ix.subjects.contains_key(n) {
                    (ix.subjects, ix.subjects[n])
                } else {
                    (ix.subjects.insert(n, subject_key(n)), subject_key(n))
                }
            },
            None => (ix.subjects, row_key(c.message_row_id)),
        }
    };
    let roots = match c.message_id_header {
        Some(m) => ix.roots.insert(m@, key),
        None => ix.roots,
    };
    (ThreadIndex { roots, subjects }, key)
}

/// Thread keys for the candidates, processed in order.
pub open spec fn assign_fold(cs: Seq<ThreadCandidate>) -> (ThreadIndex, Seq<Seq<char>>)
    decreases cs.len(),
{
    if cs.len() == 0 {
        (ThreadIndex { roots: Map::empty(), subjects: Map::empty() }, Seq::empty())
    } else {
        let prev = assign_fold(cs.drop_last());
        let step = assign_step(prev.0, cs.last());
        (step.0, prev.1.push(step.1))
    }
}


fn is_alpha_char(c: char) -> (b: bool)
    ensures
        b == is_ascii_alpha(c),
{
    ('a' <= c && c <= 'z') || ('A' <= c && c <= 'Z')
}

fn is_digit_char(c: char) -> (b: bool)
    ensures
        b == is_ascii_digit(c),
{
    '0' <= c && c <= '9'
}

proof fn lemma_alpha_run_step(s: Seq<char>, i: int)
    requires
        0 <= i < s.len(),
        is_ascii_alpha(s[i]),
    ensures
        alpha_run(s.skip(i)) == 1 + alpha_run(s.skip(i + 1)),
{
    assert(s.skip(i).drop_first() =~= s.skip(i + 1));
}

proof fn lemma_digit_run_step(s: Seq<char>, i: int)
    requires
        0 <= i < s.len(),
        is_ascii_digit(s[i]),
    ensures
        digit_run(s.skip(i)) == 1 + digit_run(s.skip(i + 1)),
{
    assert(s.skip(i).drop_first() =~= s.skip(i + 1));
}

/// Whether `w` (already lower-cased) is one of the reply or forward markers.
fn reply_word(w: &[char]) -> (b: bool)
    ensures
        b == is_reply_word(w@),
{
    let r = if w.len() == 2 {
        (w[0] == 'r' && w[1] == 'e') || (w[0] == 'f' && w[1] == 'w')
    } else if w.len() == 3 {
        w[0] == 'f' && w[1] == 'w' && w[2] == 'd'
    } else {
        false
    };
    proof {
        if w@.len() == 2 {
            if w@[0] == 'r' && w@[1] == 'e' {
                assert(w@ =~= seq!['r', 'e']);
            }
            if w@[0] == 'f' && w@[1] == 'w' {
                assert(w@ =~= seq!['f', 'w']);
            }
        }
        if w@.len() == 3 && w@[0] == 'f' && w@[1] == 'w' && w@[2] == 'd' {
            assert(w@ =~= seq!['f', 'w', 'd']);
        }
    }
    r
}

/// One reply/forward marker taken off the front of `s`, or `None` when `s`
/// does not start with one.
pub fn strip_subject_prefix(s: &[char]) -> (r: Option<Vec<char>>)
    ensures
        match r {
            Some(v) => v@ == strip_prefix_spec(s@) && v@.len() < s@.len(),
            None => strip_prefix_spec(s@) == s@,
        },
{
    let n = s.len();
    let (t0, _) = crate::text::trim_bounds(s);
    let ghost t = s@.skip(t0 as int);
    let mut a = t0;
    while a < n && is_alpha_char(s[a])
        invariant
            t0 <= a <= n == s@.len(),
            t == s@.skip(t0 as int),
            alpha_run(t) == (a - t0) + alpha_run(s@.skip(a as int)),
        decreases n - a,
    {
        proof {
            lemma_alpha_run_step(s@, a as int);
        }
        a = a + 1;
    }
    proof {
        assert(alpha_run(s@.skip(a as int)) == 0) by {
            if a < n {
                assert(s@.skip(a as int)[0] == s@[a as int]);
            }
        }
        assert(t.skip(a - t0) =~= s@.skip(a as int));
        assert(t.take(a - t0) =~= s@.subrange(t0 as int, a as int));
    }
    if a == t0 {
        return None;
    }
    let mut idx = a;
    while idx < n && is_digit_char(s[idx])
        invariant
            a <= idx <= n == s@.len(),
            digit_run(s@.skip(a as int)) == (idx - a) + digit_run(s@.skip(idx as int)),
        decreases n - idx,
    {
        proof {
            lemma_digit_run_step(s@, idx as int);
        }
        idx = idx + 1;
    }
    proof {
        assert(digit_run(s@.skip(idx as int)) == 0) by {
            if idx < n {
                assert(s@.skip(idx as int)[0] == s@[idx as int]);
            }
        }
    }
    if idx == n || s[idx] != ':' {
        proof {
            if idx < n {
                assert(t[idx - t0] == s@[idx as int]);
            }
        }
        return None;
    }
    let mut w: Vec<char> = Vec::new();
    let mut k = t0;
    while k < a
        invariant
            t0 <= k <= a <= n == s@.len(),
            w@ == lower_seq(s@.subrange(t0 as int, k as int)),
        decreases a - k,
    {
        w.push(crate::text::ascii_lower_char(s[k]));
        k = k + 1;
        assert(w@ =~= lower_seq(s@.subrange(t0 as int, k as int)));
    }
    if !reply_word(w.as_slice()) {
        return None;
    }
    let rest = crate::text::slice_range(s, idx + 1, n);
    let (b0, _) = crate::text::trim_bounds(rest.as_slice());
    let out = crate::text::slice_range(rest.as_slice(), b0, rest.len());
    proof {
        assert(t[idx - t0] == s@[idx as int]);
        assert(t.skip(idx - t0 + 1) =~= rest@);
        assert(rest@.subrange(b0 as int, rest@.len() as int) =~= rest@.skip(b0 as int));
    }
    Some(out)
}

/// The subject with surrounding whitespace and every leading `Re:`/`Fw:`/`Fwd:`
/// marker (any letter case, optional digits such as `RE2:`) removed.
pub fn normalize_subject(subject: &str) -> (r: String)
    ensures
        r@ == normalized_subject(subject@),
{
    let v = crate::text::chars_of(subject);
    let (a, b) = crate::text::trim_bounds(v.as_slice());
    let mut cur = crate::text::slice_range(v.as_slice(), a, b);
    let ghost start = cur@;
    loop
        invariant
            strip_all(start) == strip_all(cur@),
        ensures
            strip_all(start) == cur@,
        decreases cur@.len(),
    {
        match strip_subject_prefix(cur.as_slice()) {
            None => {
                break;
            },
            Some(next) => {
                cur = next;
            },
        }
    }
    let (c, d) = crate::text::trim_bounds(cur.as_slice());
    crate::text::string_from(crate::text::slice_range(cur.as_slice(), c, d).as_slice())
}


/// The thread of the last reference, in header order, that `roots` knows.
fn last_known_reference(refs: &Vec<String>, roots: &StrMap) -> (r: Option<String>)
    requires
        roots.wf(),
    ensures
        opt_view(r) == last_known_root(view_seq(refs@), roots.view()),
{
    let mut j = refs.len();
    assert(view_seq(refs@).take(j as int) =~= view_seq(refs@));
    while j > 0
        invariant
            j <= refs@.len(),
            roots.wf(),
            last_known_root(view_seq(refs@), roots.view()) == last_known_root(
                view_seq(refs@).take(j as int),
                roots.view(),
            ),
        decreases j,
    {
        let ghost t = view_seq(refs@).take(j as int);
        proof {
            assert(t.drop_last() =~= view_seq(refs@).take(j - 1));
            assert(t.last() == refs@[j - 1]@);
        }
        match roots.get(refs[j - 1].as_str()) {
            Some(v) => {
                return Some(v);
            },
            None => {},
        }
        j = j - 1;
    }
    None
}

fn subject_thread_key(n: &String) -> (k: String)
    ensures
        k@ == subject_key(n@),
{
    let mut k = String::new();
    let prefix = "subject:";
    proof {
        reveal_strlit("subject:");
    }
    crate::text::push_str(&mut k, prefix);
    crate::text::push_str(&mut k, n.as_str());
    k
}

fn row_thread_key(id: i64) -> (k: String)
    ensures
        k@ == row_key(id),
{
    let mut k = String::new();
    let prefix = "message-row:";
    proof {
        reveal_strlit("message-row:");
    }
    crate::text::push_str(&mut k, prefix);
    crate::text::push_decimal_i64(&mut k, id);
    k
}

/// The thread key of every candidate, in input order. A candidate joins the
/// thread of the last of its `References` whose message was seen earlier,
/// else that of its `In-Reply-To` message, else the thread opened for its
/// normalised subject (opening one when none exists); failing all of these
/// it gets a thread of its own, keyed by its row id.
pub fn assign_threads(candidates: &[ThreadCandidate]) -> (r: Vec<ThreadAssignment>)
    ensures
        r@.len() == candidates@.len(),
        forall|i: int|
            0 <= i < r@.len() ==> (#[trigger] r@[i]).message_row_id == candidates@[i].message_row_id
                && r@[i].thread_key@ == assign_fold(candidates@).1[i],
{
    let mut roots = StrMap::new();
    let mut subjects = StrMap::new();
    let mut out: Vec<ThreadAssignment> = Vec::new();
    let mut i: usize = 0;
    while i < candidates.len()
        invariant
            i <= candidates@.len(),
            roots.wf(),
            subjects.wf(),
            out@.len() == i,
            assign_fold(candidates@.take(i as int)).0 == (ThreadIndex {
                roots: roots.view(),
                subjects: subjects.view(),
            }),
            forall|k: int|
                0 <= k < i ==> (#[trigger] out@[k]).message_row_id == candidates@[k].message_row_id
                    && out@[k].thread_key@ == assign_fold(candidates@.take(i as int)).1[k],
            assign_fold(candidates@.take(i as int)).1.len() == i,
        decreases candidates@.len() - i,
    {
        let c = &candidates[i];
        let ghost ix = ThreadIndex { roots: roots.view(), subjects: subjects.view() };
        let ghost step = assign_step(ix, *c);
        proof {
            assert(candidates@.take(i + 1).drop_last() =~= candidates@.take(i as int));
            assert(candidates@.take(i + 1).last() == *c);
        }
        let from_refs = last_known_reference(&c.references, &roots);
        let key = match from_refs {
            Some(k) => k,
            None => {
                let from_reply = match &c.in_reply_to {
                    Some(r) => roots.get(r.as_str()),
                    None => None,
                };
                match from_reply {
                    Some(k) => k,
                    None => match &c.subject {
                        Some(subj) => {
                            let n = normalize_subject(subj.as_str());
                            if crate::text::is_empty_string(&n) {
                                row_thread_key(c.message_row_id)
                            } else {
                                match subjects.get(n.as_str()) {
                                    Some(k) => k,
                                    None => {
                                        let k = subject_thread_key(&n);
                                        subjects.insert(n, k.clone());
                                        k
                                    },
                                }
                            }
                        },
                        None => row_thread_key(c.message_row_id),
                    },
                }
            },
        };
        match &c.message_id_header {
            Some(m) => {
                roots.insert(m.clone(), key.clone());
            },
            None => {},
        }
        assert(key@ == step.1);
        assert(roots.view() == step.0.roots);
        assert(subjects.view() == step.0.subjects);
        out.push(ThreadAssignment { message_row_id: c.message_row_id, thread_key: key });
        i = i + 1;
    }
    assert(candidates@.take(candidates@.len() as int) =~= candidates@);
    out
}


/// The key given to the `i`-th candidate, from what the earlier ones taught.
pub open spec fn key_at(cs: Seq<ThreadCandidate>, i: int) -> Seq<char> {
    assign_step(assign_fold(cs.take(i)).0, cs[i]).1
}

pub proof fn lemma_fold_len(cs: Seq<ThreadCandidate>)
    ensures
        assign_fold(cs).1.len() == cs.len(),
    decreases cs.len(),
{
    if cs.len() > 0 {
        lemma_fold_len(cs.drop_last());
    }
}

pub proof fn lemma_fold_key(cs: Seq<ThreadCandidate>, i: int)
    requires
        0 <= i < cs.len(),
    ensures
        assign_fold(cs).1[i] == key_at(cs, i),
    decreases cs.len(),
{
    let d = cs.drop_last();
    lemma_fold_len(d);
    if i < cs.len() - 1 {
        lemma_fold_key(d, i);
        assert(d.take(i) =~= cs.take(i));
    } else {
        assert(cs.take(i) =~= d);
    }
}

pub proof fn lemma_fold_take_step(cs: Seq<ThreadCandidate>, k: int)
    requires
        0 <= k < cs.len(),
    ensures
        assign_fold(cs.take(k + 1)).0 == assign_step(assign_fold(cs.take(k)).0, cs[k]).0,
{
    assert(cs.take(k + 1).drop_last() =~= cs.take(k));
}

/// Once the `i`-th candidate (message id `m`) is threaded, `m` maps to its
/// key until a later candidate carries the same message id.
proof fn lemma_root_persists(cs: Seq<ThreadCandidate>, i: int, m: Seq<char>, k: int)
    requires
        0 <= i < k <= cs.len(),
        opt_view(cs[i].message_id_header) == Some(m),
        forall|x: int| i < x < k ==> opt_view(#[trigger] cs[x].message_id_header) != Some(m),
    ensures
        assign_fold(cs.take(k)).0.roots.contains_key(m),
        assign_fold(cs.take(k)).0.roots[m] == key_at(cs, i),
    decreases k - i,
{
    lemma_fold_take_step(cs, k - 1);
    if k - 1 > i {
        lemma_root_persists(cs, i, m, k - 1);
        let c = cs[k - 1];
        match c.message_id_header {
            Some(mm) => {
                assert(opt_view(c.message_id_header) == Some(mm@));
            },
            None => {},
        }
    } else {
        match cs[i].message_id_header {
            Some(mm) => {},
            None => {},
        }
    }
}

/// A message whose last `References` entry names an earlier message joins
/// that message's thread (provided no message in between reused the id).
pub proof fn law_reply_by_references_joins_parent(cs: Seq<ThreadCandidate>, i: int, j: int)
    requires
        0 <= i < j < cs.len(),
        cs[j].references@.len() > 0,
        opt_view(cs[i].message_id_header) == Some(cs[j].references@.last()@),
        forall|x: int|
            i < x < j ==> opt_view(#[trigger] cs[x].message_id_header) != Some(
                cs[j].references@.last()@,
            ),
    ensures
        assign_fold(cs).1[j] == assign_fold(cs).1[i],
{
    let m = cs[j].references@.last()@;
    lemma_root_persists(cs, i, m, j);
    lemma_fold_key(cs, i);
    lemma_fold_key(cs, j);
    assert(view_seq(cs[j].references@).last() == m);
}

/// Every message id the threading knows after `k` candidates is the id of
/// one of them.
proof fn lemma_roots_domain(cs: Seq<ThreadCandidate>, k: int, m: Seq<char>)
    requires
        0 <= k <= cs.len(),
        assign_fold(cs.take(k)).0.roots.contains_key(m),
    ensures
        exists|x: int| 0 <= x < k && opt_view(#[trigger] cs[x].message_id_header) == Some(m),
    decreases k,
{
    if k == 0 {
        assert(cs.take(0) =~= Seq::<ThreadCandidate>::empty());
    } else {
        lemma_fold_take_step(cs, k - 1);
        let c = cs[k - 1];
        match c.message_id_header {
            Some(mm) => {
                if mm@ == m {
                    assert(opt_view(cs[k - 1].message_id_header) == Some(m));
                } else {
                    lemma_roots_domain(cs, k - 1, m);
                }
            },
            None => {
                lemma_roots_domain(cs, k - 1, m);
            },
        }
    }
}

/// The last known reference is the known one after which no reference is
/// known.
proof fn lemma_last_known_at(refs: Seq<Seq<char>>, roots: Map<Seq<char>, Seq<char>>, p: int)
    requires
        0 <= p < refs.len(),
        roots.contains_key(refs[p]),
        forall|q: int| p < q < refs.len() ==> !roots.contains_key(#[trigger] refs[q]),
    ensures
        last_known_root(refs, roots) == Some(roots[refs[p]]),
    decreases refs.len(),
{
    if p < refs.len() - 1 {
        assert(!roots.contains_key(refs[refs.len() - 1]));
        let d = refs.drop_last();
        assert forall|q: int| p < q < d.len() implies !roots.contains_key(#[trigger] d[q]) by {
            assert(d[q] == refs[q]);
        }
        lemma_last_known_at(d, roots, p);
    }
}

/// A reply joins the thread of the last message that its `References` name
/// and that is already known: when entry `p` of message `j`'s References is
/// the id of an earlier message `i` (not reused in between), and no later
/// entry is the id of any message before `j`, message `j` gets `i`'s thread,
/// whatever the entries after `p` and the subject say.
pub proof fn law_reply_joins_last_known_reference(cs: Seq<ThreadCandidate>, i: int, j: int, p: int)
    requires
        0 <= i < j < cs.len(),
        0 <= p < cs[j].references@.len(),
        opt_view(cs[i].message_id_header) == Some(cs[j].references@[p]@),
        forall|x: int|
            i < x < j ==> opt_view(#[trigger] cs[x].message_id_header) != Some(cs[j].references@[p]@),
        forall|q: int, x: int|
            p < q < cs[j].references@.len() && 0 <= x < j ==> opt_view(
                #[trigger] cs[x].message_id_header,
            ) != Some(#[trigger] cs[j].references@[q]@),
    ensures
        assign_fold(cs).1[j] == assign_fold(cs).1[i],
{
    let m = cs[j].references@[p]@;
    let refs = view_seq(cs[j].references@);
    let roots = assign_fold(cs.take(j)).0.roots;
    lemma_root_persists(cs, i, m, j);
    assert forall|q: int| p < q < refs.len() implies !roots.contains_key(#[trigger] refs[q]) by {
        if roots.contains_key(refs[q]) {
            lemma_roots_domain(cs, j, refs[q]);
            let x = choose|x: int| 0 <= x < j && opt_view(#[trigger] cs[x].message_id_header) == Some(refs[q]);
            assert(refs[q] == cs[j].references@[q]@);
        }
    }
    assert(refs[p] == m);
    lemma_last_known_at(refs, roots, p);
    lemma_fold_key(cs, i);
    lemma_fold_key(cs, j);
}

/// A message without `References` whose `In-Reply-To` names an earlier
/// message joins that message's thread.
pub proof fn law_reply_by_in_reply_to_joins_parent(cs: Seq<ThreadCandidate>, i: int, j: int)
    requires
        0 <= i < j < cs.len(),
        cs[j].references@.len() == 0,
        cs[j].in_reply_to is Some,
        opt_view(cs[i].message_id_header) == opt_view(cs[j].in_reply_to),
        forall|x: int|
            i < x < j ==> opt_view(#[trigger] cs[x].message_id_header) != opt_view(
                cs[j].in_reply_to,
            ),
    ensures
        assign_fold(cs).1[j] == assign_fold(cs).1[i],
{
    let m = cs[j].in_reply_to->0@;
    lemma_root_persists(cs, i, m, j);
    lemma_fold_key(cs, i);
    lemma_fold_key(cs, j);
    assert(view_seq(cs[j].references@).len() == 0);
}

/// Once a normalised subject has a thread, that thread never changes.
proof fn lemma_subject_persists(cs: Seq<ThreadCandidate>, n: Seq<char>, v: Seq<char>, a: int, k: int)
    requires
        0 <= a <= k <= cs.len(),
        assign_fold(cs.take(a)).0.subjects.contains_key(n),
        assign_fold(cs.take(a)).0.subjects[n] == v,
    ensures
        assign_fold(cs.take(k)).0.subjects.contains_key(n),
        assign_fold(cs.take(k)).0.subjects[n] == v,
    decreases k - a,
{
    if k > a {
        lemma_subject_persists(cs, n, v, a, k - 1);
        lemma_fold_take_step(cs, k - 1);
    }
}

/// Two messages with no threading headers and the same non-empty normalised
/// subject land in the same thread.
pub proof fn law_same_subject_same_thread(cs: Seq<ThreadCandidate>, i: int, j: int)
    requires
        0 <= i < j < cs.len(),
        cs[i].references@.len() == 0,
        cs[i].in_reply_to is None,
        cs[j].references@.len() == 0,
        cs[j].in_reply_to is None,
        cs[i].subject is Some,
        cs[j].subject is Some,
        normalized_subject(cs[i].subject->0@) == normalized_subject(cs[j].subject->0@),
        normalized_subject(cs[i].subject->0@).len() > 0,
    ensures
        assign_fold(cs).1[j] == assign_fold(cs).1[i],
{
    let n = normalized_subject(cs[i].subject->0@);
    assert(view_seq(cs[i].references@).len() == 0);
    assert(view_seq(cs[j].references@).len() == 0);
    lemma_fold_take_step(cs, i);
    let v = key_at(cs, i);
    lemma_subject_persists(cs, n, v, i + 1, j);
    lemma_fold_key(cs, i);
    lemma_fold_key(cs, j);
}

} // verus!
