//! Thread summaries: who the thread is waiting on, since when, and whether
//! it needs a reply.

use vstd::prelude::*;

use crate::text::{has_sub, lower_seq, seq_lt, starts_with};
use crate::threading::ThreadAssignment;

verus! {

#[derive(Debug, Clone, PartialEq, Eq)]
pub struct ThreadMessageSummary {
    pub subject: Option<String>,
    pub from_email: Option<String>,
    pub sent_at: Option<String>,
}

#[derive(Debug, Clone, PartialEq, Eq)]
pub struct ThreadInsertSummary {
    pub subject_canonical: Option<String>,
    pub latest_message_at: Option<String>,
    pub message_count: i64,
    pub state: Option<String>,
    pub needs_reply: i64,
    pub waiting_since: Option<String>,
    pub has_draft: i64,
}

pub open spec fn opt_view(o: Option<String>) -> Option<Seq<char>> {
    match o {
        Some(s) => Some(s@),
        None => None,
    }
}

/// Sent by someone other than the account (address compared ignoring ASCII case).
pub open spec fn is_inbound(from: Option<String>, account: Seq<char>) -> bool {
    match from {
        Some(e) => lower_seq(e@) != lower_seq(account),
        None => false,
    }
}

/// Sent by the account itself.
pub open spec fn is_outbound(from: Option<String>, account: Seq<char>) -> bool {
    match from {
        Some(e) => lower_seq(e@) == lower_seq(account),
        None => false,
    }
}

/// An address that looks like a robot: it contains `no-reply`, `noreply` or
/// `newsletter`, or starts with `notifications@` (ignoring ASCII case).
pub open spec fn is_automated(email: Seq<char>) -> bool {
    let e = lower_seq(email);
    has_sub(e, "no-reply"@) || has_sub(e, "noreply"@) || has_sub(e, "newsletter"@)
        || starts_with(e, "notifications@"@)
}

/// `a > b` for optional timestamps: any value is later than none.
pub open spec fn opt_later(a: Option<String>, b: Option<String>) -> bool {
    match (a, b) {
        (Some(x), Some(y)) => seq_lt(y@, x@),
        (Some(_), None) => true,
        _ => false,
    }
}

/// Index of the last inbound message of `ms`, if any.
pub open spec fn last_inbound(ms: Seq<ThreadMessageSummary>, account: Seq<char>) -> Option<int>
    decreases ms.len(),
{
    if ms.len() == 0 {
        None
    } else if is_inbound(ms.last().from_email, account) {
        Some(ms.len() - 1)
    } else {
        last_inbound(ms.drop_last(), account)
    }
}

/// Message `k` is a reply from the account sent after message `i`.
pub open spec fn reply_at(ms: Seq<ThreadMessageSummary>, account: Seq<char>, i: int, k: int) -> bool {
    is_outbound(ms[k].from_email, account) && opt_later(ms[k].sent_at, ms[i].sent_at)
}

/// The account replied after the inbound message at `i`.
pub open spec fn replied_after(ms: Seq<ThreadMessageSummary>, account: Seq<char>, i: int) -> bool {
    exists|k: int| 0 <= k < ms.len() && #[trigger] reply_at(ms, account, i, k)
}

/// State of a thread and whether it needs a reply: a thread whose latest
/// inbound message got no later reply from the account waits on the account
/// (or is low value when that message came from an automated sender); any
/// other thread waits on the other side.
pub open spec fn thread_state_spec(ms: Seq<ThreadMessageSummary>, account: Seq<char>) -> (Seq<char>, int, Option<Option<String>>) {
    match last_inbound(ms, account) {
        Some(i) => if replied_after(ms, account, i) {
            ("waiting_on_them"@, 0, Some(
                if ms.last().sent_at is Some {
                    ms.last().sent_at
                } else {
                    ms[i].sent_at
                },
            ))
        } else {
            let st = match ms[i].from_email {
                Some(e) => if is_automated(e@) {
                    "low_value"@
                } else {
                    "waiting_on_me"@
                },
                None => "waiting_on_me"@,
            };
            (st, 1, Some(ms[i].sent_at))
        },
        None => ("waiting_on_them"@, 0, Some(ms.last().sent_at)),
    }
}

proof fn lemma_last_inbound_push(ms: Seq<ThreadMessageSummary>, account: Seq<char>, m: ThreadMessageSummary)
    ensures
        is_inbound(m.from_email, account) ==> last_inbound(ms.push(m), account) == Some(ms.len() as int),
        !is_inbound(m.from_email, account) ==> last_inbound(ms.push(m), account) == last_inbound(ms, account),
{
    assert(ms.push(m).drop_last() =~= ms);
}

proof fn lemma_last_inbound_in_range(ms: Seq<ThreadMessageSummary>, account: Seq<char>)
    ensures
        match last_inbound(ms, account) {
            Some(i) => 0 <= i < ms.len() && is_inbound(ms[i].from_email, account),
            None => true,
        },
    decreases ms.len(),
{
    if ms.len() > 0 && !is_inbound(ms.last().from_email, account) {
        lemma_last_inbound_in_range(ms.drop_last(), account);
    }
}

/// A reply from the account, sent after the latest message from someone
/// else, takes the thread off the account: it waits on the other side and
/// needs no reply.
pub proof fn law_reply_takes_thread_off_account(ms: Seq<ThreadMessageSummary>, account: Seq<char>, reply: ThreadMessageSummary)
    requires
        is_outbound(reply.from_email, account),
        match last_inbound(ms, account) {
            Some(i) => opt_later(reply.sent_at, ms[i].sent_at),
            None => true,
        },
    ensures
        thread_state_spec(ms.push(reply), account).0 == "waiting_on_them"@,
        thread_state_spec(ms.push(reply), account).1 == 0,
{
    let t = ms.push(reply);
    assert(!is_inbound(reply.from_email, account));
    lemma_last_inbound_push(ms, account, reply);
    lemma_last_inbound_in_range(ms, account);
    match last_inbound(ms, account) {
        Some(i) => {
            assert(t[i] == ms[i]);
            assert(t[ms.len() as int] == reply);
            assert(reply_at(t, account, i, ms.len() as int));
            assert(replied_after(t, account, i));
        },
        None => {},
    }
}

/// A new message from someone else, with no reply from the account sent
/// after it, puts the thread on the account: it needs a reply, and waits on
/// the account unless the sender is automated.
pub proof fn law_new_message_puts_thread_on_account(ms: Seq<ThreadMessageSummary>, account: Seq<char>, m: ThreadMessageSummary)
    requires
        is_inbound(m.from_email, account),
        forall|k: int| 0 <= k < ms.len() ==> !opt_later(#[trigger] ms[k].sent_at, m.sent_at),
    ensures
        thread_state_spec(ms.push(m), account).1 == 1,
        !is_automated(m.from_email->0@) ==> thread_state_spec(ms.push(m), account).0 == "waiting_on_me"@,
{
    let t = ms.push(m);
    lemma_last_inbound_push(ms, account, m);
    let i = ms.len() as int;
    assert(t[i] == m);
    assert forall|k: int| 0 <= k < t.len() implies !#[trigger] reply_at(t, account, i, k) by {
        if k < ms.len() {
            assert(t[k] == ms[k]);
        } else {
            assert(t[k] == m);
            assert(!is_outbound(m.from_email, account));
        }
    }
    assert(!replied_after(t, account, i));
}

/// Whether `marker` occurs in `e` somewhere.
pub open spec fn occurs_in(e: Seq<char>, marker: Seq<char>) -> bool {
    exists|i: int| 0 <= i && i + marker.len() <= e.len() && #[trigger] e.subrange(i, i + marker.len()) == marker
}

/// The latest message from someone else, with no reply from the account
/// after it, makes the thread `low_value` exactly when its sender address,
/// lower-cased, starts with `notifications@` or contains `no-reply`,
/// `noreply` or `newsletter`; otherwise the thread waits on the account.
/// Either way it needs a reply.
pub proof fn law_automated_sender_makes_thread_low_value(ms: Seq<ThreadMessageSummary>, account: Seq<char>, m: ThreadMessageSummary)
    requires
        is_inbound(m.from_email, account),
        forall|k: int| 0 <= k < ms.len() ==> !opt_later(#[trigger] ms[k].sent_at, m.sent_at),
    ensures
        ({
            let e = lower_seq(m.from_email->0@);
            let automated = (e.len() >= "notifications@"@.len() && e.subrange(0, "notifications@"@.len() as int) == "notifications@"@)
                || occurs_in(e, "no-reply"@) || occurs_in(e, "noreply"@) || occurs_in(e, "newsletter"@);
            &&& automated ==> thread_state_spec(ms.push(m), account).0 == "low_value"@
            &&& !automated ==> thread_state_spec(ms.push(m), account).0 == "waiting_on_me"@
        }),
        thread_state_spec(ms.push(m), account).1 == 1,
{
    law_new_message_puts_thread_on_account(ms, account, m);
    let t = ms.push(m);
    lemma_last_inbound_push(ms, account, m);
    let i = ms.len() as int;
    assert(t[i] == m);
    assert forall|k: int| 0 <= k < t.len() implies !#[trigger] reply_at(t, account, i, k) by {
        if k < ms.len() {
            assert(t[k] == ms[k]);
        } else {
            assert(t[k] == m);
            assert(!is_outbound(m.from_email, account));
        }
    }
    assert(!replied_after(t, account, i));
    let e = lower_seq(m.from_email->0@);
    assert(starts_with(e, "notifications@"@) == (e.len() >= "notifications@"@.len() && e.subrange(0, "notifications@"@.len() as int) == "notifications@"@)) by {
        assert(e.take("notifications@"@.len() as int) =~= e.subrange(0, "notifications@"@.len() as int));
    }
    assert(has_sub(e, "no-reply"@) == occurs_in(e, "no-reply"@));
    assert(has_sub(e, "noreply"@) == occurs_in(e, "noreply"@));
    assert(has_sub(e, "newsletter"@) == occurs_in(e, "newsletter"@));
}

pub fn eq_ignore_case_opt(from: &Option<String>, account: &str) -> (b: bool)
    ensures
        b == is_outbound(*from, account@),
{
    match from {
        Some(e) => crate::text::eq_ignore_ascii_case(e.as_str(), account),
        None => false,
    }
}

/// Whether the message was sent by someone other than the account.
pub fn is_inbound_message(from: &Option<String>, account: &str) -> (b: bool)
    ensures
        b == is_inbound(*from, account@),
{
    match from {
        Some(e) => !crate::text::eq_ignore_ascii_case(e.as_str(), account),
        None => false,
    }
}

/// Whether the message was sent by the account.
pub fn is_outbound_message(from: &Option<String>, account: &str) -> (b: bool)
    ensures
        b == is_outbound(*from, account@),
{
    eq_ignore_case_opt(from, account)
}

/// Whether the address belongs to an automated sender.
pub fn is_automated_sender(email: &str) -> (b: bool)
    ensures
        b == is_automated(email@),
{
    let e = crate::text::to_ascii_lower(email);
    crate::text::contains_str(e.as_str(), "no-reply")
        || crate::text::contains_str(e.as_str(), "noreply")
        || crate::text::contains_str(e.as_str(), "newsletter")
        || crate::text::starts_with_str(e.as_str(), "notifications@")
}

/// `low_value` for an automated sender, else `waiting_on_me`.
pub fn classify_unanswered_inbound(message: &ThreadMessageSummary) -> (r: String)
    ensures
        r@ == (match message.from_email {
            Some(e) => if is_automated(e@) {
                "low_value"@
            } else {
                "waiting_on_me"@
            },
            None => "waiting_on_me"@,
        }),
{
    match &message.from_email {
        Some(email) if is_automated_sender(email.as_str()) => "low_value".to_string(),
        _ => "waiting_on_me".to_string(),
    }
}

/// `a > b` on optional timestamps.
pub fn opt_later_exec(a: &Option<String>, b: &Option<String>) -> (r: bool)
    ensures
        r == opt_later(*a, *b),
{
    match (a, b) {
        (Some(x), Some(y)) => crate::text::str_lt(y.as_str(), x.as_str()),
        (Some(_), None) => true,
        _ => false,
    }
}

fn clone_opt(o: &Option<String>) -> (r: Option<String>)
    ensures
        r == *o,
{
    match o {
        Some(s) => Some(s.clone()),
        None => None,
    }
}

/// The row to store for a thread made of `messages` (oldest first).
pub fn summarize_thread_messages(
    messages: &[ThreadMessageSummary],
    account_email: &str,
    has_draft: bool,
) -> (r: ThreadInsertSummary)
    requires
        messages@.len() > 0,
        messages@.len() <= i64::MAX,
    ensures
        r.subject_canonical == messages@.last().subject,
        r.latest_message_at == messages@.last().sent_at,
        r.message_count == messages@.len(),
        r.has_draft == (if has_draft { 1int } else { 0int }),
        r.state is Some && r.state->0@ == thread_state_spec(messages@, account_email@).0,
        r.needs_reply == thread_state_spec(messages@, account_email@).1,
        Some(r.waiting_since) == thread_state_spec(messages@, account_email@).2,
{
    let n = messages.len();
    let latest = &messages[n - 1];
    let mut j = n;
    let mut inbound: Option<usize> = None;
    assert(messages@.take(n as int) =~= messages@);
    while j > 0
        invariant_except_break
            inbound is None,
        invariant
            j <= n == messages@.len(),
            last_inbound(messages@, account_email@) == last_inbound(
                messages@.take(j as int),
                account_email@,
            ),
        ensures
            inbound is None ==> last_inbound(messages@, account_email@) is None,
            inbound is Some ==> inbound->0 < n && last_inbound(messages@, account_email@) == Some(
                inbound->0 as int,
            ),
        decreases j,
    {
        proof {
            assert(messages@.take(j as int).drop_last() =~= messages@.take(j - 1));
            assert(messages@.take(j as int).last() == messages@[j - 1]);
        }
        if is_inbound_message(&messages[j - 1].from_email, account_email) {
            inbound = Some(j - 1);
            break;
        }
        j = j - 1;
    }
    let (state, needs_reply, waiting_since) = match inbound {
        Some(i) => {
            let inb = &messages[i];
            let mut replied = false;
            let mut k: usize = 0;
            while k < n
                invariant
                    k <= n == messages@.len(),
                    i < n,
                    *inb == messages@[i as int],
                    replied == exists|x: int|
                        0 <= x < k && #[trigger] reply_at(messages@, account_email@, i as int, x),
                decreases n - k,
            {
                let out_k = is_outbound_message(&messages[k].from_email, account_email);
                let later_k = opt_later_exec(&messages[k].sent_at, &inb.sent_at);
                let hit = out_k && later_k;
                assert(*inb == messages@[i as int]);
                assert(out_k == is_outbound(messages@[k as int].from_email, account_email@));
                assert(later_k == opt_later(messages@[k as int].sent_at, inb.sent_at));
                if hit {
                    replied = true;
                }
                proof {
                    assert(hit == reply_at(messages@, account_email@, i as int, k as int));
                    if !hit && !replied {
                        assert forall|x: int| 0 <= x < k + 1 implies !#[trigger] reply_at(
                            messages@,
                            account_email@,
                            i as int,
                            x,
                        ) by {}
                    }
                }
                k = k + 1;
            }
            if replied {
                let since = match &latest.sent_at {
                    Some(s) => Some(s.clone()),
                    None => clone_opt(&inb.sent_at),
                };
                ("waiting_on_them".to_string(), 0i64, since)
            } else {
                (classify_unanswered_inbound(inb), 1i64, clone_opt(&inb.sent_at))
            }
        },
        None => ("waiting_on_them".to_string(), 0i64, clone_opt(&latest.sent_at)),
    };
    ThreadInsertSummary {
        subject_canonical: clone_opt(&latest.subject),
        latest_message_at: clone_opt(&latest.sent_at),
        message_count: n as i64,
        state: Some(state),
        needs_reply,
        waiting_since,
        has_draft: if has_draft { 1 } else { 0 },
    }
}


/// The messages of one thread, in assignment order.
#[derive(Debug, Clone, PartialEq, Eq)]
pub struct ThreadGroup {
    pub thread_key: String,
    pub message_ids: Vec<i64>,
}

/// Row ids of the assignments with thread key `k`, in order.
pub open spec fn ids_with_key(asg: Seq<ThreadAssignment>, k: Seq<char>) -> Seq<i64>
    decreases asg.len(),
{
    if asg.len() == 0 {
        Seq::empty()
    } else {
        let p = ids_with_key(asg.drop_last(), k);
        if asg.last().thread_key@ == k {
            p.push(asg.last().message_row_id)
        } else {
            p
        }
    }
}

/// Groups sorted by key, without repeated keys.
pub open spec fn groups_sorted(gs: Seq<ThreadGroup>) -> bool {
    forall|a: int, b: int| 0 <= a < b < gs.len() ==> seq_lt(#[trigger] gs[a].thread_key@, #[trigger] gs[b].thread_key@)
}

/// `gs` is the grouping of `asg` by thread key.
pub open spec fn groups_of(gs: Seq<ThreadGroup>, asg: Seq<ThreadAssignment>) -> bool {
    &&& groups_sorted(gs)
    &&& forall|g: int|
        0 <= g < gs.len() ==> (#[trigger] gs[g]).message_ids@ == ids_with_key(asg, gs[g].thread_key@)
            && gs[g].message_ids@.len() > 0
    &&& forall|j: int|
        0 <= j < asg.len() ==> exists|g: int|
            0 <= g < gs.len() && #[trigger] gs[g].thread_key@ == (#[trigger] asg[j]).thread_key@
}

proof fn lemma_ids_absent(asg: Seq<ThreadAssignment>, k: Seq<char>)
    requires
        forall|j: int| 0 <= j < asg.len() ==> (#[trigger] asg[j]).thread_key@ != k,
    ensures
        ids_with_key(asg, k).len() == 0,
    decreases asg.len(),
{
    if asg.len() > 0 {
        lemma_ids_absent(asg.drop_last(), k);
    }
}

/// The assignments grouped by thread key: one group per key, in key order,
/// each holding the row ids of that key in assignment order.
pub fn group_by_thread_key(assignments: &[ThreadAssignment]) -> (r: Vec<ThreadGroup>)
    ensures
        groups_of(r@, assignments@),
{
    let mut groups: Vec<ThreadGroup> = Vec::new();
    let mut i: usize = 0;
    while i < assignments.len()
        invariant
            i <= assignments@.len(),
            groups_of(groups@, assignments@.take(i as int)),
        decreases assignments@.len() - i,
    {
        let a = &assignments[i];
        let ghost pre = assignments@.take(i as int);
        let ghost post = assignments@.take(i + 1);
        proof {
            assert(post.drop_last() =~= pre);
            assert(post.last() == *a);
        }
        let mut p: usize = 0;
        while p < groups.len() && crate::text::str_lt(groups[p].thread_key.as_str(), a.thread_key.as_str())
            invariant
                p <= groups@.len(),
                forall|q: int| 0 <= q < p ==> seq_lt(#[trigger] groups@[q].thread_key@, a.thread_key@),
            decreases groups@.len() - p,
        {
            p = p + 1;
        }
        if p < groups.len() && crate::text::str_eq(groups[p].thread_key.as_str(), a.thread_key.as_str()) {
            let ghost old_groups = groups@;
            let mut g = groups.remove(p);
            g.message_ids.push(a.message_row_id);
            groups.insert(p, g);
            proof {
                assert(groups@ =~= old_groups.update(p as int, g));
                assert(g.thread_key == old_groups[p as int].thread_key);
                assert forall|x: int| 0 <= x < groups@.len() implies (#[trigger] groups@[x]).message_ids@
                    == ids_with_key(post, groups@[x].thread_key@) && groups@[x].message_ids@.len()
                    > 0 by {
                    if x != p {
                        if groups@[x].thread_key@ == a.thread_key@ {
                            if x < p {
                                crate::text::lemma_seq_lt_irrefl(a.thread_key@);
                            } else {
                                crate::text::lemma_seq_lt_irrefl(a.thread_key@);
                            }
                        }
                    }
                }
                assert forall|j: int| 0 <= j < post.len() implies exists|g: int|
                    0 <= g < groups@.len() && #[trigger] groups@[g].thread_key@ == (
                    #[trigger] post[j]).thread_key@ by {
                    if j < pre.len() {
                        assert(post[j] == pre[j]);
                        let g0 = choose|g: int|
                            0 <= g < old_groups.len() && #[trigger] old_groups[g].thread_key@ == (
                            #[trigger] pre[j]).thread_key@;
                        assert(groups@[g0].thread_key@ == post[j].thread_key@);
                    } else {
                        assert(groups@[p as int].thread_key@ == post[j].thread_key@);
                    }
                }
            }
        } else {
            let ghost old_groups = groups@;
            proof {
                assert forall|j: int| 0 <= j < pre.len() implies (#[trigger] pre[j]).thread_key@
                    != a.thread_key@ by {
                    let g0 = choose|g: int|
                        0 <= g < old_groups.len() && #[trigger] old_groups[g].thread_key@ == (
                        #[trigger] pre[j]).thread_key@;
                    if old_groups[g0].thread_key@ == a.thread_key@ {
                        if g0 < p {
                            crate::text::lemma_seq_lt_irrefl(a.thread_key@);
                        } else if g0 > p {
                            crate::text::lemma_seq_lt_asym(
                                old_groups[p as int].thread_key@,
                                a.thread_key@,
                            );
                            crate::text::lemma_seq_lt_total(
                                old_groups[p as int].thread_key@,
                                a.thread_key@,
                            );
                        }
                    }
                }
                lemma_ids_absent(pre, a.thread_key@);
                if p < old_groups.len() {
                    crate::text::lemma_seq_lt_total(old_groups[p as int].thread_key@, a.thread_key@);
                    assert(seq_lt(a.thread_key@, old_groups[p as int].thread_key@));
                }
                assert forall|y: int| p <= y < old_groups.len() implies seq_lt(
                    a.thread_key@,
                    #[trigger] old_groups[y].thread_key@,
                ) by {
                    if y > p {
                        crate::text::lemma_seq_lt_trans(
                            a.thread_key@,
                            old_groups[p as int].thread_key@,
                            old_groups[y].thread_key@,
                        );
                    }
                }
            }
            let mut ids: Vec<i64> = Vec::new();
            ids.push(a.message_row_id);
            groups.insert(p, ThreadGroup { thread_key: a.thread_key.clone(), message_ids: ids });
            proof {
                assert forall|x: int, y: int| 0 <= x < y < groups@.len() implies seq_lt(
                    #[trigger] groups@[x].thread_key@,
                    #[trigger] groups@[y].thread_key@,
                ) by {
                    if x < p && y == p {
                    } else if x == p && y > p {
                    } else if x < p && y > p {
                        crate::text::lemma_seq_lt_trans(
                            old_groups[x].thread_key@,
                            a.thread_key@,
                            old_groups[y - 1].thread_key@,
                        );
                    } else if x > p {
                        assert(groups@[x] == old_groups[x - 1]);
                        assert(groups@[y] == old_groups[y - 1]);
                    }
                }
                assert forall|x: int| 0 <= x < groups@.len() implies (#[trigger] groups@[x]).message_ids@
                    == ids_with_key(post, groups@[x].thread_key@) && groups@[x].message_ids@.len()
                    > 0 by {
                    if x < p {
                        assert(groups@[x] == old_groups[x]);
                        crate::text::lemma_seq_lt_irrefl(a.thread_key@);
                    } else if x > p {
                        assert(groups@[x] == old_groups[x - 1]);
                        assert(seq_lt(a.thread_key@, old_groups[x - 1].thread_key@));
                        crate::text::lemma_seq_lt_irrefl(a.thread_key@);
                    } else {
                        assert(groups@[x].message_ids@ =~= seq![a.message_row_id]);
                        assert(ids_with_key(pre, a.thread_key@) =~= Seq::<i64>::empty());
                    }
                }
                assert forall|j: int| 0 <= j < post.len() implies exists|g: int|
                    0 <= g < groups@.len() && #[trigger] groups@[g].thread_key@ == (
                    #[trigger] post[j]).thread_key@ by {
                    if j < pre.len() {
                        assert(post[j] == pre[j]);
                        let g0 = choose|g: int|
                            0 <= g < old_groups.len() && #[trigger] old_groups[g].thread_key@ == (
                            #[trigger] pre[j]).thread_key@;
                        if g0 < p {
                            assert(groups@[g0].thread_key@ == post[j].thread_key@);
                        } else {
                            assert(groups@[g0 + 1].thread_key@ == post[j].thread_key@);
                        }
                    } else {
                        assert(groups@[p as int].thread_key@ == post[j].thread_key@);
                    }
                }
            }
        }
        i = i + 1;
    }
    assert(assignments@.take(assignments@.len() as int) =~= assignments@);
    groups
}

} // verus!
