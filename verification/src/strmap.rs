//! A string-keyed map kept as an insertion log; a later entry for a key
//! shadows earlier ones, so its view is the map that the inserts build.

use vstd::prelude::*;

verus! {

/// The map that inserting `keys[i] => vals[i]` for `i` in order builds.
pub open spec fn log_map(keys: Seq<Seq<char>>, vals: Seq<Seq<char>>) -> Map<Seq<char>, Seq<char>>
    decreases keys.len(),
{
    if keys.len() == 0 || vals.len() == 0 {
        Map::empty()
    } else {
        log_map(keys.drop_last(), vals.drop_last()).insert(keys.last(), vals.last())
    }
}

pub struct StrMap {
    keys: Vec<String>,
    vals: Vec<String>,
}

impl StrMap {
    pub closed spec fn key_log(&self) -> Seq<Seq<char>> {
        self.keys@.map_values(|k: String| k@)
    }

    pub closed spec fn val_log(&self) -> Seq<Seq<char>> {
        self.vals@.map_values(|v: String| v@)
    }

    pub closed spec fn wf(&self) -> bool {
        self.keys@.len() == self.vals@.len()
    }

    pub closed spec fn view(&self) -> Map<Seq<char>, Seq<char>> {
        log_map(self.key_log(), self.val_log())
    }

    pub fn new() -> (m: StrMap)
        ensures
            m.wf(),
            m.view() == Map::<Seq<char>, Seq<char>>::empty(),
    {
        StrMap { keys: Vec::new(), vals: Vec::new() }
    }

    pub fn insert(&mut self, k: String, v: String)
        requires
            old(self).wf(),
        ensures
            final(self).wf(),
            final(self).view() == old(self).view().insert(k@, v@),
    {
        self.keys.push(k);
        self.vals.push(v);
        proof {
            let kl = self.key_log();
            let vl = self.val_log();
            assert(kl.drop_last() =~= old(self).key_log());
            assert(vl.drop_last() =~= old(self).val_log());
        }
    }

    pub fn get(&self, k: &str) -> (r: Option<String>)
        requires
            self.wf(),
        ensures
            match r {
                Some(v) => self.view().contains_key(k@) && self.view()[k@] == v@,
                None => !self.view().contains_key(k@),
            },
    {
        let mut j = self.keys.len();
        while j > 0
            invariant
                j <= self.keys@.len() == self.vals@.len(),
                forall|i: int| j <= i < self.keys@.len() ==> #[trigger] self.keys@[i]@ != k@,
            decreases j,
        {
            if crate::text::str_eq(self.keys[j - 1].as_str(), k) {
                proof {
                    let kl = self.key_log();
                    let vl = self.val_log();
                    lemma_log_map_suffix(kl, vl, j as int, k@);
                    assert(kl.take(j as int).drop_last() =~= kl.take(j - 1));
                    assert(vl.take(j as int).drop_last() =~= vl.take(j - 1));
                }
                return Some(self.vals[j - 1].clone());
            }
            j = j - 1;
        }
        proof {
            let kl = self.key_log();
            let vl = self.val_log();
            lemma_log_map_suffix(kl, vl, 0, k@);
        }
        None
    }
}

/// Entries past index `j` whose keys differ from `k` do not change what the
/// map holds at `k`.
pub proof fn lemma_log_map_suffix(ks: Seq<Seq<char>>, vs: Seq<Seq<char>>, j: int, k: Seq<char>)
    requires
        ks.len() == vs.len(),
        0 <= j <= ks.len(),
        forall|i: int| j <= i < ks.len() ==> #[trigger] ks[i] != k,
    ensures
        log_map(ks, vs).contains_key(k) == log_map(ks.take(j), vs.take(j)).contains_key(k),
        log_map(ks, vs).contains_key(k) ==> log_map(ks, vs)[k] == log_map(ks.take(j), vs.take(j))[k],
    decreases ks.len() - j,
{
    if j == ks.len() {
        assert(ks.take(j) =~= ks);
        assert(vs.take(j) =~= vs);
    } else {
        let kd = ks.drop_last();
        let vd = vs.drop_last();
        assert forall|i: int| j <= i < kd.len() implies #[trigger] kd[i] != k by {
            assert(kd[i] == ks[i]);
        }
        lemma_log_map_suffix(kd, vd, j, k);
        assert(kd.take(j) =~= ks.take(j));
        assert(vd.take(j) =~= vs.take(j));
        assert(ks.last() != k);
    }
}

} // verus!
