//! Debouncing of Maildir change events and the plan of roots to watch.

use vstd::prelude::*;
use crate::config::AccountConfig;
use crate::text::{seq_le, seq_lt};

verus! {

/// The order in which `PathBuf`s sort (component by component).
pub uninterp spec fn path_order(a: Seq<char>, b: Seq<char>) -> bool;

/// `<[PathBuf]>::sort` on the given paths. Stated: the result holds the same
/// paths, each as often, and is sorted by `path_order`. Not stated: how
/// `Path` orders its components.
#[verifier::external_body]
fn sort_paths(paths: Vec<String>) -> (r: Vec<String>)
    ensures
        crate::text::string_views(r@).to_multiset() == crate::text::string_views(
            paths@,
        ).to_multiset(),
        forall|i: int, j: int|
            0 <= i < j < r@.len() ==> path_order(#[trigger] r@[i]@, #[trigger] r@[j]@),
{
    let mut v: Vec<std::path::PathBuf> = paths.into_iter().map(std::path::PathBuf::from).collect();
    v.sort();
    v.into_iter().map(|p| p.to_string_lossy().into_owned()).collect()
}

/// The pieces of `s` between slashes (there is always at least one).
pub open spec fn slash_pieces(s: Seq<char>) -> Seq<Seq<char>>
    decreases s.len(),
{
    if s.len() == 0 {
        seq![Seq::empty()]
    } else {
        let p = slash_pieces(s.drop_last());
        if s.last() == '/' {
            p.push(Seq::empty())
        } else {
            p.update(p.len() - 1, p.last().push(s.last()))
        }
    }
}

/// The pieces that name something: not empty and not `.`.
pub open spec fn named_pieces(ps: Seq<Seq<char>>) -> Seq<Seq<char>>
    decreases ps.len(),
{
    if ps.len() == 0 {
        Seq::empty()
    } else if ps.last().len() == 0 || ps.last() == seq!['.'] {
        named_pieces(ps.drop_last())
    } else {
        named_pieces(ps.drop_last()).push(ps.last())
    }
}

pub type PathKey = (bool, bool, Seq<Seq<char>>);

/// What a path is compared by (`Path::components` on Unix): whether it
/// starts at the root, whether a relative path starts with a `.` piece, and
/// its pieces between slashes without empty pieces and `.` (so repeated and
/// trailing slashes, and `.` after the start, make no difference).
pub open spec fn path_key(s: Seq<char>) -> PathKey {
    let rooted = s.len() > 0 && s[0] == '/';
    (
        rooted,
        !rooted && s.len() > 0 && s[0] == '.' && (s.len() == 1 || s[1] == '/'),
        named_pieces(slash_pieces(s)),
    )
}

/// `Path::new(a) == Path::new(b)`. Stated: the paths are equal exactly when
/// their components are, as `path_key` gives them.
#[verifier::external_body]
fn same_path(a: &str, b: &str) -> (r: bool)
    ensures
        r == (path_key(a@) == path_key(b@)),
{
    std::path::Path::new(a) == std::path::Path::new(b)
}

/// The time since `seen`, as `Instant::duration_since` gives it: zero when
/// `now` is earlier.
pub open spec fn elapsed(now: u64, seen: u64) -> nat {
    if now >= seen {
        (now - seen) as nat
    } else {
        0
    }
}

/// Paths that changed, each with the time of its latest change; a path is
/// handed out once no change has come for the debounce interval.
/// Times are nanoseconds on one monotonic clock.
#[derive(Debug, Clone)]
pub struct WatchAccumulator {
    debounce: u64,
    paths: Vec<String>,
    times: Vec<u64>,
}

pub type Pending = Seq<(Seq<char>, u64)>;

pub open spec fn pending_paths(s: Pending) -> Seq<Seq<char>> {
    s.map_values(|e: (Seq<char>, u64)| e.0)
}

/// The keys the pending paths are compared by.
pub open spec fn pending_keys(s: Pending) -> Seq<PathKey> {
    s.map_values(|e: (Seq<char>, u64)| path_key(e.0))
}

/// Distinct keys mean distinct paths.
pub proof fn lemma_distinct_keys_distinct_paths(s: Pending)
    requires
        pending_keys(s).no_duplicates(),
    ensures
        pending_paths(s).no_duplicates(),
{
    let ps = pending_paths(s);
    let ks = pending_keys(s);
    assert forall|a: int, b: int| 0 <= a < ps.len() && 0 <= b < ps.len() && a != b implies ps[a] != ps[b] by {
        assert(ks[a] == path_key(ps[a]) && ks[b] == path_key(ps[b]));
    }
}

/// Whether an entry has waited the debounce interval `d` at `now`.
pub open spec fn is_ready(e: (Seq<char>, u64), now: u64, d: u64) -> bool {
    elapsed(now, e.1) >= d
}

/// The entries still waiting at `now`, in order.
pub open spec fn still_waiting(s: Pending, now: u64, d: u64) -> Pending
    decreases s.len(),
{
    if s.len() == 0 {
        s
    } else if is_ready(s.last(), now, d) {
        still_waiting(s.drop_last(), now, d)
    } else {
        still_waiting(s.drop_last(), now, d).push(s.last())
    }
}

/// The paths ready at `now`, in entry order.
pub open spec fn ready_paths(s: Pending, now: u64, d: u64) -> Seq<Seq<char>>
    decreases s.len(),
{
    if s.len() == 0 {
        Seq::empty()
    } else if is_ready(s.last(), now, d) {
        ready_paths(s.drop_last(), now, d).push(s.last().0)
    } else {
        ready_paths(s.drop_last(), now, d)
    }
}

/// A change of `path` at `now`: the entry of an equal path (by `path_key`)
/// gets the new time and keeps the spelling it was first recorded with;
/// without one, `path` is appended.
pub open spec fn record_spec(s: Pending, path: Seq<char>, now: u64) -> Pending {
    if pending_keys(s).contains(path_key(path)) {
        let i = pending_keys(s).index_of(path_key(path));
        s.update(i, (s[i].0, now))
    } else {
        s.push((path, now))
    }
}

proof fn lemma_ready_paths_in(s: Pending, now: u64, d: u64)
    ensures
        forall|k: int| 0 <= k < ready_paths(s, now, d).len() ==> pending_paths(s).contains(
            #[trigger] ready_paths(s, now, d)[k],
        ),
        pending_paths(s).no_duplicates() ==> ready_paths(s, now, d).no_duplicates(),
    decreases s.len(),
{
    if s.len() > 0 {
        let t = s.drop_last();
        let ps = pending_paths(s);
        let pt = pending_paths(t);
        assert(pt =~= ps.drop_last());
        lemma_ready_paths_in(t, now, d);
        let r = ready_paths(s, now, d);
        let rt = ready_paths(t, now, d);
        assert forall|k: int| 0 <= k < r.len() implies ps.contains(#[trigger] r[k]) by {
            if k < rt.len() {
                assert(r[k] == rt[k]);
                assert(pt.contains(rt[k]));
                let j = choose|j: int| 0 <= j < pt.len() && pt[j] == rt[k];
                assert(ps[j] == pt[j]);
            } else {
                assert(r[k] == s.last().0);
                assert(ps[s.len() - 1] == s.last().0);
            }
        }
        if ps.no_duplicates() {
            assert(pt.no_duplicates()) by {
                assert forall|a: int, b: int| 0 <= a < pt.len() && 0 <= b < pt.len() && a != b implies pt[a] != pt[b] by {
                    assert(pt[a] == ps[a] && pt[b] == ps[b]);
                }
            }
            if is_ready(s.last(), now, d) {
                assert(!pt.contains(s.last().0)) by {
                    if pt.contains(s.last().0) {
                        let j = choose|j: int| 0 <= j < pt.len() && pt[j] == s.last().0;
                        assert(ps[j] == ps[s.len() - 1]);
                    }
                }
                assert forall|a: int, b: int| 0 <= a < r.len() && 0 <= b < r.len() && a != b implies r[a] != r[b] by {
                    if a < rt.len() && b < rt.len() {
                        assert(r[a] == rt[a] && r[b] == rt[b]);
                    } else if a < rt.len() {
                        assert(r[a] == rt[a]);
                        assert(pt.contains(rt[a]));
                    } else if b < rt.len() {
                        assert(r[b] == rt[b]);
                        assert(pt.contains(rt[b]));
                    }
                }
            }
        }
    }
}

impl WatchAccumulator {
    pub closed spec fn wf(&self) -> bool {
        &&& self.paths@.len() == self.times@.len()
        &&& pending_keys(self.pending()).no_duplicates()
    }

    /// A well-formed accumulator holds no two equal paths.
    pub proof fn lemma_wf_distinct(&self)
        requires
            self.wf(),
        ensures
            pending_keys(self.pending()).no_duplicates(),
            pending_paths(self.pending()).no_duplicates(),
    {
        lemma_distinct_keys_distinct_paths(self.pending());
    }

    /// The pending paths, each with the time it last changed, in the order
    /// they were first recorded.
    pub closed spec fn pending(&self) -> Pending {
        Seq::new(self.paths@.len(), |i: int| (self.paths@[i]@, self.times@[i]))
    }

    pub closed spec fn debounce_ns(&self) -> u64 {
        self.debounce
    }

    /// Nothing pending, with the given debounce interval.
    pub fn new(debounce: u64) -> (r: Self)
        ensures
            r.wf(),
            r.pending().len() == 0,
            r.debounce_ns() == debounce,
    {
        let r = WatchAccumulator { debounce, paths: Vec::new(), times: Vec::new() };
        assert(pending_keys(r.pending()) =~= Seq::<PathKey>::empty());
        r
    }

    /// A change of `path` at `now`: the time of an equal pending path is
    /// replaced (its first spelling kept), so a path changed repeatedly is
    /// pending once.
    pub fn record_path(&mut self, path: String, now: u64)
        requires
            old(self).wf(),
        ensures
            final(self).wf(),
            final(self).pending() == record_spec(old(self).pending(), path@, now),
            final(self).debounce_ns() == old(self).debounce_ns(),
    {
        let ghost s = self.pending();
        let ghost ks = pending_keys(s);
        let ghost key = path_key(path@);
        let ghost d0 = self.debounce;
        let mut i: usize = 0;
        while i < self.paths.len()
            invariant
                i <= self.paths@.len(),
                self.paths@.len() == self.times@.len(),
                s == self.pending(),
                ks.no_duplicates(),
                self.debounce == d0,
                d0 == old(self).debounce,
                s == old(self).pending(),
                ks == pending_keys(s),
                key == path_key(path@),
                forall|k: int| 0 <= k < i ==> ks[k] != key,
            decreases self.paths@.len() - i,
        {
            if same_path(self.paths[i].as_str(), path.as_str()) {
                self.times.set(i, now);
                proof {
                    assert(ks[i as int] == key);
                    assert(ks.contains(key));
                    ks.index_of_first_ensures(key);
                    assert(ks.index_of(key) == i) by {
                        let k = ks.index_of(key);
                        assert(ks[k] == key);
                        if k != i {
                            assert(ks.no_duplicates());
                        }
                    }
                    assert(self.pending() =~= record_spec(s, path@, now));
                    assert(pending_keys(self.pending()) =~= ks);
                }
                return ;
            }
            i = i + 1;
        }
        self.paths.push(path);
        self.times.push(now);
        proof {
            assert(!ks.contains(key));
            assert(self.pending() =~= s.push((path@, now)));
            let ks2 = pending_keys(self.pending());
            assert(ks2 =~= ks.push(key));
            assert forall|a: int, b: int| 0 <= a < ks2.len() && 0 <= b < ks2.len() && a != b implies ks2[a] != ks2[b] by {
                if a < ks.len() && b < ks.len() {
                    assert(ks2[a] == ks[a] && ks2[b] == ks[b]);
                } else if a == ks.len() {
                    assert(ks2[b] == ks[b]);
                } else {
                    assert(ks2[a] == ks[a]);
                }
            }
        }
    }

    /// Hands out the paths whose latest change is at least the debounce
    /// interval before `now`, in path order, each once, and forgets them; the
    /// others stay pending in their order.
    pub fn drain_ready(&mut self, now: u64) -> (r: Vec<String>)
        requires
            old(self).wf(),
        ensures
            final(self).wf(),
            final(self).debounce_ns() == old(self).debounce_ns(),
            final(self).pending() == still_waiting(old(self).pending(), now, old(self).debounce_ns()),
            crate::text::string_views(r@).to_multiset() == ready_paths(
                old(self).pending(),
                now,
                old(self).debounce_ns(),
            ).to_multiset(),
            crate::text::string_views(r@).no_duplicates(),
            forall|i: int, j: int|
                0 <= i < j < r@.len() ==> path_order(#[trigger] r@[i]@, #[trigger] r@[j]@),
    {
        let ghost s = self.pending();
        let d = self.debounce;
        let mut ready: Vec<String> = Vec::new();
        let mut keep_paths: Vec<String> = Vec::new();
        let mut keep_times: Vec<u64> = Vec::new();
        let mut i: usize = 0;
        while i < self.paths.len()
            invariant
                i <= self.paths@.len(),
                self.paths@.len() == self.times@.len(),
                s == self.pending(),
                d == self.debounce,
                keep_paths@.len() == keep_times@.len(),
                Seq::new(keep_paths@.len(), |k: int| (keep_paths@[k]@, keep_times@[k])) == still_waiting(s.take(i as int), now, d),
                crate::text::string_views(ready@) == ready_paths(s.take(i as int), now, d),
            decreases self.paths@.len() - i,
        {
            proof {
                assert(s.take(i + 1).drop_last() =~= s.take(i as int));
                assert(s.take(i + 1).last() == s[i as int]);
            }
            let t = self.times[i];
            let el: u64 = if now >= t {
                now - t
            } else {
                0
            };
            if el >= d {
                ready.push(self.paths[i].clone());
                assert(crate::text::string_views(ready@) =~= ready_paths(s.take(i + 1), now, d));
            } else {
                keep_paths.push(self.paths[i].clone());
                keep_times.push(t);
                assert(Seq::new(keep_paths@.len(), |k: int| (keep_paths@[k]@, keep_times@[k])) =~= still_waiting(s.take(i + 1), now, d));
            }
            i = i + 1;
        }
        proof {
            assert(s.take(s.len() as int) =~= s);
            lemma_distinct_keys_distinct_paths(s);
            lemma_ready_paths_in(s, now, d);
            lemma_still_waiting_paths(s, now, d);
        }
        self.paths = keep_paths;
        self.times = keep_times;
        let r = sort_paths(ready);
        proof {
            let rp = ready_paths(s, now, d);
            rp.lemma_multiset_has_no_duplicates();
            crate::text::string_views(r@).lemma_multiset_has_no_duplicates_conv();
        }
        r
    }
}

proof fn lemma_still_waiting_paths(s: Pending, now: u64, d: u64)
    requires
        pending_keys(s).no_duplicates(),
    ensures
        pending_keys(still_waiting(s, now, d)).no_duplicates(),
        forall|k: int| 0 <= k < still_waiting(s, now, d).len() ==> exists|j: int| 0 <= j < s.len() && #[trigger] still_waiting(s, now, d)[k] == s[j],
    decreases s.len(),
{
    if s.len() > 0 {
        let t = s.drop_last();
        assert(pending_keys(t) =~= pending_keys(s).drop_last());
        assert(pending_keys(t).no_duplicates()) by {
            assert forall|a: int, b: int| 0 <= a < pending_keys(t).len() && 0 <= b < pending_keys(t).len() && a != b implies pending_keys(t)[a] != pending_keys(t)[b] by {
                assert(pending_keys(t)[a] == pending_keys(s)[a]);
                assert(pending_keys(t)[b] == pending_keys(s)[b]);
            }
        }
        lemma_still_waiting_paths(t, now, d);
        let w = still_waiting(s, now, d);
        let wt = still_waiting(t, now, d);
        assert forall|k: int| 0 <= k < w.len() implies exists|j: int| 0 <= j < s.len() && #[trigger] w[k] == s[j] by {
            if k < wt.len() {
                assert(w[k] == wt[k]);
                let j = choose|j: int| 0 <= j < t.len() && wt[k] == t[j];
                assert(s[j] == t[j]);
            } else {
                assert(w[k] == s[s.len() - 1]);
            }
        }
        if !is_ready(s.last(), now, d) {
            let pw = pending_keys(w);
            let pwt = pending_keys(wt);
            assert forall|a: int, b: int| 0 <= a < pw.len() && 0 <= b < pw.len() && a != b implies pw[a] != pw[b] by {
                if a < wt.len() && b < wt.len() {
                    assert(pw[a] == pwt[a] && pw[b] == pwt[b]);
                } else if a < wt.len() {
                    let j = choose|j: int| 0 <= j < t.len() && wt[a] == t[j];
                    assert(pending_keys(s)[j] == path_key(t[j].0));
                    assert(pending_keys(s)[s.len() - 1] == path_key(s.last().0));
                    assert(pw[a] == path_key(wt[a].0));
                } else if b < wt.len() {
                    let j = choose|j: int| 0 <= j < t.len() && wt[b] == t[j];
                    assert(pending_keys(s)[j] == path_key(t[j].0));
                    assert(pending_keys(s)[s.len() - 1] == path_key(s.last().0));
                    assert(pw[b] == path_key(wt[b].0));
                }
            }
        }
    }
}

/// One root to watch for an account.
#[derive(Debug, Clone, PartialEq, Eq)]
pub struct WatchPlan {
    pub account_name: String,
    pub root_path: String,
}

pub type PlanView = (Seq<char>, Seq<char>);

/// `plans` with `p` placed after every plan whose name is not greater.
pub open spec fn insert_by_name(plans: Seq<PlanView>, p: PlanView) -> Seq<PlanView>
    decreases plans.len(),
{
    if plans.len() == 0 {
        seq![p]
    } else if seq_le(plans.last().0, p.0) {
        plans.push(p)
    } else {
        insert_by_name(plans.drop_last(), p).push(plans.last())
    }
}

/// The plans of the accounts ordered by account name, accounts of equal
/// name kept in their configured order.
pub open spec fn plans_by_name(accounts: Seq<AccountConfig>) -> Seq<PlanView>
    decreases accounts.len(),
{
    if accounts.len() == 0 {
        Seq::empty()
    } else {
        insert_by_name(
            plans_by_name(accounts.drop_last()),
            (accounts.last().name@, accounts.last().maildir_root@),
        )
    }
}

pub open spec fn plan_views(v: Seq<WatchPlan>) -> Seq<PlanView> {
    v.map_values(|p: WatchPlan| (p.account_name@, p.root_path@))
}

fn insert_plan(plans: &mut Vec<WatchPlan>, p: WatchPlan)
    ensures
        plan_views(final(plans)@) == insert_by_name(plan_views(old(plans)@), (p.account_name@, p.root_path@)),
    decreases old(plans)@.len(),
{
    let n = plans.len();
    if n == 0 {
        plans.push(p);
        assert(plan_views(plans@) =~= seq![(p.account_name@, p.root_path@)]);
        return ;
    }
    let last_le = !crate::text::str_lt(p.account_name.as_str(), plans[n - 1].account_name.as_str());
    proof {
        let a = plans@[n - 1].account_name@;
        let b = p.account_name@;
        crate::text::lemma_seq_lt_total(a, b);
        crate::text::lemma_seq_lt_asym(a, b);
        assert(plan_views(old(plans)@).last().0 == a);
    }
    if last_le {
        plans.push(p);
        assert(plan_views(plans@) =~= plan_views(old(plans)@).push((p.account_name@, p.root_path@)));
    } else {
        let last = plans.pop().unwrap();
        assert(plan_views(plans@) =~= plan_views(old(plans)@).drop_last());
        insert_plan(plans, p);
        plans.push(last);
        assert(plan_views(plans@) =~= insert_by_name(plan_views(old(plans)@), (p.account_name@, p.root_path@)));
    }
}

/// The roots to watch: none when watching is off, else one per account in
/// account-name order.
pub fn build_watch_plans(accounts: &[AccountConfig], watch_enabled: bool) -> (r: Vec<WatchPlan>)
    ensures
        !watch_enabled ==> r@.len() == 0,
        watch_enabled ==> plan_views(r@) == plans_by_name(accounts@),
{
    let mut plans: Vec<WatchPlan> = Vec::new();
    if !watch_enabled {
        return plans;
    }
    let mut i: usize = 0;
    while i < accounts.len()
        invariant
            i <= accounts@.len(),
            plan_views(plans@) == plans_by_name(accounts@.take(i as int)),
        decreases accounts@.len() - i,
    {
        proof {
            assert(accounts@.take(i + 1).drop_last() =~= accounts@.take(i as int));
        }
        let a = &accounts[i];
        insert_plan(
            &mut plans,
            WatchPlan { account_name: a.name.clone(), root_path: a.maildir_root.clone() },
        );
        i = i + 1;
    }
    assert(accounts@.take(accounts@.len() as int) =~= accounts@);
    plans
}

/// A path that changes again before it is handed out, under the same or
/// another spelling of it (`a/b` and `a//b/`), stays pending once, under
/// its first spelling and with the time of its latest change, and is handed
/// out exactly once the debounce interval has passed since that change (and
/// not before).
pub proof fn law_repeated_changes_report_once(p: Seq<char>, q: Seq<char>, t1: u64, t2: u64, now: u64, d: u64)
    requires
        path_key(q) == path_key(p),
    ensures
        record_spec(record_spec(Seq::empty(), p, t1), q, t2) == seq![(p, t2)],
        elapsed(now, t2) < d ==> ready_paths(seq![(p, t2)], now, d).len() == 0 && still_waiting(
            seq![(p, t2)],
            now,
            d,
        ) == seq![(p, t2)],
        elapsed(now, t2) >= d ==> ready_paths(seq![(p, t2)], now, d) == seq![p] && still_waiting(
            seq![(p, t2)],
            now,
            d,
        ).len() == 0,
{
    let s0: Pending = Seq::empty();
    let s1 = record_spec(s0, p, t1);
    assert(!pending_keys(s0).contains(path_key(p)));
    assert(s1 =~= seq![(p, t1)]);
    assert(pending_keys(s1) =~= seq![path_key(p)]);
    assert(pending_keys(s1)[0] == path_key(q));
    assert(pending_keys(s1).contains(path_key(q)));
    assert(pending_keys(s1).index_of(path_key(q)) == 0);
    assert(record_spec(s1, q, t2) =~= seq![(p, t2)]);
    let s2: Pending = seq![(p, t2)];
    let e: Pending = Seq::empty();
    assert(s2.drop_last() =~= e);
    assert(s2.last() == (p, t2));
    assert(ready_paths(e, now, d) =~= Seq::<Seq<char>>::empty());
    assert(still_waiting(e, now, d) =~= e);
    if is_ready((p, t2), now, d) {
        assert(ready_paths(s2, now, d) =~= seq![p]);
        assert(still_waiting(s2, now, d) =~= e);
    } else {
        assert(ready_paths(s2, now, d) =~= Seq::<Seq<char>>::empty());
        assert(still_waiting(s2, now, d) =~= s2);
    }
}

/// The keys of the paths ready at `now`.
pub open spec fn ready_keys(s: Pending, now: u64, d: u64) -> Seq<PathKey> {
    ready_paths(s, now, d).map_values(|p: Seq<char>| path_key(p))
}

proof fn lemma_ready_contains(s: Pending, now: u64, d: u64, x: PathKey)
    ensures
        ready_keys(s, now, d).contains(x) <==> exists|k: int|
            0 <= k < s.len() && path_key((#[trigger] s[k]).0) == x && is_ready(s[k], now, d),
    decreases s.len(),
{
    if s.len() > 0 {
        let t = s.drop_last();
        lemma_ready_contains(t, now, d, x);
        let r = ready_keys(s, now, d);
        let rt = ready_keys(t, now, d);
        if rt.contains(x) {
            let k = choose|k: int| 0 <= k < t.len() && path_key((#[trigger] t[k]).0) == x && is_ready(t[k], now, d);
            assert(s[k] == t[k]);
            let j = choose|j: int| 0 <= j < rt.len() && rt[j] == x;
            if is_ready(s.last(), now, d) {
                assert(r[j] == rt[j]);
            }
        }
        if exists|k: int| 0 <= k < s.len() && path_key((#[trigger] s[k]).0) == x && is_ready(s[k], now, d) {
            let k = choose|k: int| 0 <= k < s.len() && path_key((#[trigger] s[k]).0) == x && is_ready(s[k], now, d);
            if k < t.len() {
                assert(t[k] == s[k]);
                let j = choose|j: int| 0 <= j < rt.len() && rt[j] == x;
                if is_ready(s.last(), now, d) {
                    assert(r[j] == rt[j]);
                }
            } else {
                assert(r[r.len() - 1] == x);
            }
        }
        if r.contains(x) {
            let j = choose|j: int| 0 <= j < r.len() && r[j] == x;
            if is_ready(s.last(), now, d) && j == rt.len() {
                assert(path_key(s[s.len() - 1].0) == x);
            } else {
                assert(r[j] == rt[j]);
                assert(rt.contains(x));
                let k = choose|k: int| 0 <= k < t.len() && path_key((#[trigger] t[k]).0) == x && is_ready(t[k], now, d);
                assert(s[k] == t[k]);
            }
        }
    }
}

proof fn lemma_record_entry(s: Pending, p: Seq<char>, t: u64)
    requires
        pending_keys(s).no_duplicates(),
    ensures
        pending_keys(record_spec(s, p, t)).no_duplicates(),
        forall|k: int|
            0 <= k < record_spec(s, p, t).len() && path_key((#[trigger] record_spec(s, p, t)[k]).0) == path_key(p)
                ==> record_spec(s, p, t)[k].1 == t,
        exists|k: int|
            0 <= k < record_spec(s, p, t).len() && path_key((#[trigger] record_spec(s, p, t)[k]).0) == path_key(p)
                && record_spec(s, p, t)[k].1 == t,
{
    let ks = pending_keys(s);
    let key = path_key(p);
    let r = record_spec(s, p, t);
    let kr = pending_keys(r);
    if ks.contains(key) {
        let i = ks.index_of(key);
        ks.index_of_first_ensures(key);
        assert(ks[i] == key);
        assert(kr =~= ks);
        assert forall|k: int| 0 <= k < r.len() && path_key((#[trigger] r[k]).0) == key implies r[k].1 == t by {
            if k != i {
                assert(r[k] == s[k]);
                assert(ks[k] == key);
            }
        }
        assert(path_key(r[i].0) == key && r[i].1 == t);
    } else {
        assert(r == s.push((p, t)));
        assert(kr =~= ks.push(key));
        assert forall|a: int, b: int| 0 <= a < kr.len() && 0 <= b < kr.len() && a != b implies kr[a] != kr[b] by {
            if a < ks.len() && b < ks.len() {
                assert(kr[a] == ks[a] && kr[b] == ks[b]);
            } else if a == ks.len() {
                assert(kr[b] == ks[b]);
            } else {
                assert(kr[a] == ks[a]);
            }
        }
        assert forall|k: int| 0 <= k < r.len() && path_key((#[trigger] r[k]).0) == key implies r[k].1 == t by {
            if k < s.len() {
                assert(r[k] == s[k]);
                assert(ks[k] == key);
            }
        }
        assert(r[s.len() as int] == (p, t));
    }
}

/// Recording a change of `p` at `t` on any pending set, whatever was
/// recorded for `p` (under any spelling) before: the pending entry of `p`
/// carries the time `t`, and a drain at `now` hands `p` out exactly when the
/// debounce interval `d` has passed since `t`; otherwise `p` stays pending
/// with the time `t`. So with an interval of 50, changes at 0 and 30 give
/// nothing at 60 and `p` at 80.
pub proof fn law_latest_change_decides(s: Pending, p: Seq<char>, t: u64, now: u64, d: u64)
    requires
        pending_keys(s).no_duplicates(),
    ensures
        forall|k: int|
            0 <= k < record_spec(s, p, t).len() && path_key((#[trigger] record_spec(s, p, t)[k]).0) == path_key(p)
                ==> record_spec(s, p, t)[k].1 == t,
        ready_keys(record_spec(s, p, t), now, d).contains(path_key(p)) <==> elapsed(now, t) >= d,
        elapsed(now, t) < d ==> exists|k: int|
            0 <= k < still_waiting(record_spec(s, p, t), now, d).len()
                && path_key((#[trigger] still_waiting(record_spec(s, p, t), now, d)[k]).0) == path_key(p)
                && still_waiting(record_spec(s, p, t), now, d)[k].1 == t,
        pending_keys(record_spec(s, p, t)).no_duplicates(),
{
    let r = record_spec(s, p, t);
    lemma_record_entry(s, p, t);
    lemma_ready_contains(r, now, d, path_key(p));
    let k = choose|k: int|
        0 <= k < r.len() && path_key((#[trigger] r[k]).0) == path_key(p) && r[k].1 == t;
    if elapsed(now, t) < d {
        assert(!is_ready(r[k], now, d));
        lemma_waiting_keeps(r, now, d, k);
        let w = still_waiting(r, now, d);
        let j = choose|j: int| 0 <= j < w.len() && w[j] == r[k];
        assert(path_key(w[j].0) == path_key(p) && w[j].1 == t);
    } else {
        assert(is_ready(r[k], now, d));
    }
}

/// The same for an accumulator: after `record_path(p, t)` on any
/// well-formed accumulator, the pending entry of `p` has the time `t`, and
/// `drain_ready(now)` hands `p` out exactly when its debounce interval has
/// passed since `t`.
pub proof fn law_record_path_then_drain(acc: WatchAccumulator, p: Seq<char>, t: u64, now: u64)
    requires
        acc.wf(),
    ensures
        forall|k: int|
            0 <= k < record_spec(acc.pending(), p, t).len() && path_key(
                (#[trigger] record_spec(acc.pending(), p, t)[k]).0,
            ) == path_key(p) ==> record_spec(acc.pending(), p, t)[k].1 == t,
        ready_keys(record_spec(acc.pending(), p, t), now, acc.debounce_ns()).contains(path_key(p))
            <==> elapsed(now, t) >= acc.debounce_ns(),
{
    acc.lemma_wf_distinct();
    law_latest_change_decides(acc.pending(), p, t, now, acc.debounce_ns());
}

proof fn lemma_waiting_keeps(s: Pending, now: u64, d: u64, k: int)
    requires
        0 <= k < s.len(),
        !is_ready(s[k], now, d),
    ensures
        still_waiting(s, now, d).contains(s[k]),
    decreases s.len(),
{
    let t = s.drop_last();
    let w = still_waiting(s, now, d);
    if k == s.len() - 1 {
        assert(w[w.len() - 1] == s[k]);
    } else {
        assert(t[k] == s[k]);
        lemma_waiting_keeps(t, now, d, k);
        let wt = still_waiting(t, now, d);
        let j = choose|j: int| 0 <= j < wt.len() && wt[j] == s[k];
        if !is_ready(s.last(), now, d) {
            assert(w[j] == wt[j]);
        }
    }
}

/// Draining twice at the same time: the second drain hands out nothing and
/// leaves the pending paths as the first left them.
pub proof fn law_second_drain_is_empty(s: Pending, now: u64, d: u64)
    ensures
        ready_paths(still_waiting(s, now, d), now, d).len() == 0,
        still_waiting(still_waiting(s, now, d), now, d) == still_waiting(s, now, d),
    decreases s.len(),
{
    if s.len() > 0 {
        let t = s.drop_last();
        law_second_drain_is_empty(t, now, d);
        let w = still_waiting(t, now, d);
        if !is_ready(s.last(), now, d) {
            let w2 = w.push(s.last());
            assert(w2.drop_last() =~= w);
            assert(w2.last() == s.last());
        }
    }
}

/// The plans come out ordered by account name.
pub proof fn law_plans_sorted_by_name(accounts: Seq<AccountConfig>)
    ensures
        forall|i: int, j: int|
            0 <= i < j < plans_by_name(accounts).len() ==> seq_le(
                #[trigger] plans_by_name(accounts)[i].0,
                #[trigger] plans_by_name(accounts)[j].0,
            ),
        plans_by_name(accounts).len() == accounts.len(),
    decreases accounts.len(),
{
    if accounts.len() > 0 {
        law_plans_sorted_by_name(accounts.drop_last());
        lemma_insert_sorted(
            plans_by_name(accounts.drop_last()),
            (accounts.last().name@, accounts.last().maildir_root@),
        );
    }
}

proof fn lemma_insert_sorted(plans: Seq<PlanView>, p: PlanView)
    requires
        forall|i: int, j: int| 0 <= i < j < plans.len() ==> seq_le(#[trigger] plans[i].0, #[trigger] plans[j].0),
    ensures
        forall|i: int, j: int|
            0 <= i < j < insert_by_name(plans, p).len() ==> seq_le(
                #[trigger] insert_by_name(plans, p)[i].0,
                #[trigger] insert_by_name(plans, p)[j].0,
            ),
        insert_by_name(plans, p).len() == plans.len() + 1,
        forall|k: int| 0 <= k < insert_by_name(plans, p).len() ==> (#[trigger] insert_by_name(plans, p)[k] == p || exists|m: int| 0 <= m < plans.len() && insert_by_name(plans, p)[k] == plans[m]),
    decreases plans.len(),
{
    if plans.len() > 0 {
        let last = plans.last();
        if seq_le(last.0, p.0) {
            let r = plans.push(p);
            assert forall|i: int, j: int| 0 <= i < j < r.len() implies seq_le(#[trigger] r[i].0, #[trigger] r[j].0) by {
                if j == plans.len() {
                    if i < plans.len() - 1 {
                        assert(seq_le(plans[i].0, last.0));
                        lemma_seq_le_trans(plans[i].0, last.0, p.0);
                    }
                }
            }
            assert forall|k: int| 0 <= k < r.len() implies (#[trigger] r[k] == p || exists|m: int| 0 <= m < plans.len() && r[k] == plans[m]) by {
                if k < plans.len() {
                    assert(r[k] == plans[k]);
                }
            }
        } else {
            let t = plans.drop_last();
            assert forall|i: int, j: int| 0 <= i < j < t.len() implies seq_le(#[trigger] t[i].0, #[trigger] t[j].0) by {
                assert(t[i] == plans[i] && t[j] == plans[j]);
            }
            lemma_insert_sorted(t, p);
            let it = insert_by_name(t, p);
            let r = it.push(last);
            crate::text::lemma_seq_lt_total(last.0, p.0);
            assert forall|k: int| 0 <= k < it.len() implies seq_le(#[trigger] it[k].0, last.0) by {
                if it[k] == p {
                } else {
                    let m = choose|m: int| 0 <= m < t.len() && it[k] == t[m];
                    assert(t[m] == plans[m]);
                    assert(seq_le(plans[m].0, plans[plans.len() - 1].0));
                }
            }
            assert forall|i: int, j: int| 0 <= i < j < r.len() implies seq_le(#[trigger] r[i].0, #[trigger] r[j].0) by {
                if j == it.len() {
                    assert(r[i] == it[i]);
                    assert(seq_le(it[i].0, last.0));
                } else {
                    assert(r[i] == it[i] && r[j] == it[j]);
                }
            }
            assert forall|k: int| 0 <= k < r.len() implies (#[trigger] r[k] == p || exists|m: int| 0 <= m < plans.len() && r[k] == plans[m]) by {
                if k < it.len() {
                    assert(r[k] == it[k]);
                    if it[k] != p {
                        let m = choose|m: int| 0 <= m < t.len() && it[k] == t[m];
                        assert(plans[m] == t[m]);
                    }
                } else {
                    assert(r[k] == plans[plans.len() - 1]);
                }
            }
        }
    }
}

proof fn lemma_seq_le_trans(a: Seq<char>, b: Seq<char>, c: Seq<char>)
    requires
        seq_le(a, b),
        seq_le(b, c),
    ensures
        seq_le(a, c),
{
    if seq_lt(a, b) && seq_lt(b, c) {
        crate::text::lemma_seq_lt_trans(a, b, c);
    }
}

} // verus!
