//! Per-handler artwork deduplication: a private map from source identifier
//! to the last title seen for it. Artwork is re-fetched exactly when the
//! title changed, or when the source is seen for the first time.

use vstd::prelude::*;
use vstd::pervasive::VecAdditionalExecFns;

verus! {

/// What one observation decides: artwork must be refreshed iff the source
/// was never seen, or its stored title differs from the current one.
pub open spec fn title_changed(m: Map<Seq<char>, Seq<char>>, id: Seq<char>, title: Seq<char>) -> bool {
    !m.contains_key(id) || m[id] != title
}

/// How one observation advances the map: the current title is stored.
pub open spec fn dedup_next(
    m: Map<Seq<char>, Seq<char>>,
    id: Seq<char>,
    title: Seq<char>,
) -> Map<Seq<char>, Seq<char>> {
    m.insert(id, title)
}

/// The map a sequence of (id, title) entries denotes, later entries winning.
spec fn map_of(s: Seq<(String, String)>) -> Map<Seq<char>, Seq<char>>
    decreases s.len(),
{
    if s.len() == 0 {
        Map::empty()
    } else {
        map_of(s.drop_last()).insert(s.last().0@, s.last().1@)
    }
}

/// Keys of the first `n` entries are all distinct from `k`.
spec fn key_absent(s: Seq<(String, String)>, n: int, k: Seq<char>) -> bool {
    forall|j: int| 0 <= j < n ==> s[j].0@ != k
}

proof fn lemma_map_of_absent(s: Seq<(String, String)>, k: Seq<char>)
    requires
        key_absent(s, s.len() as int, k),
    ensures
        !map_of(s).contains_key(k),
    decreases s.len(),
{
    if s.len() > 0 {
        assert(key_absent(s.drop_last(), s.drop_last().len() as int, k));
        lemma_map_of_absent(s.drop_last(), k);
    }
}

proof fn lemma_map_of_found(s: Seq<(String, String)>, i: int)
    requires
        0 <= i < s.len(),
        forall|j: int| i < j < s.len() ==> s[j].0@ != s[i].0@,
    ensures
        map_of(s).contains_key(s[i].0@),
        map_of(s)[s[i].0@] == s[i].1@,
    decreases s.len(),
{
    if i == s.len() - 1 {
    } else {
        assert(s.drop_last()[i] == s[i]);
        lemma_map_of_found(s.drop_last(), i);
    }
}

proof fn lemma_map_of_update(s: Seq<(String, String)>, i: int, p: (String, String))
    requires
        0 <= i < s.len(),
        s[i].0@ == p.0@,
        forall|j: int| i < j < s.len() ==> s[j].0@ != s[i].0@,
    ensures
        map_of(s.update(i, p)) =~= map_of(s).insert(p.0@, p.1@),
    decreases s.len(),
{
    let t = s.update(i, p);
    if i == s.len() - 1 {
        assert(t.drop_last() =~= s.drop_last());
        assert(t.last() == p);
        assert(map_of(t) =~= map_of(s.drop_last()).insert(p.0@, p.1@));
        assert(map_of(s).insert(p.0@, p.1@) =~= map_of(s.drop_last()).insert(
            s.last().0@,
            s.last().1@,
        ).insert(p.0@, p.1@));
        assert(s.last().0@ == p.0@);
    } else {
        assert(t.drop_last() =~= s.drop_last().update(i, p));
        assert(t.last() == s.last());
        assert(s.drop_last()[i] == s[i]);
        lemma_map_of_update(s.drop_last(), i, p);
        assert(s.last().0@ != p.0@);
    }
}

proof fn lemma_map_of_push(s: Seq<(String, String)>, p: (String, String))
    ensures
        map_of(s.push(p)) =~= map_of(s).insert(p.0@, p.1@),
{
    assert(s.push(p).drop_last() =~= s);
    assert(s.push(p).last() == p);
}

/// Mapping from source identifier to the last song title seen for it,
/// owned by a single session handler.
pub struct DedupState {
    entries: Vec<(String, String)>,
}

impl View for DedupState {
    type V = Map<Seq<char>, Seq<char>>;

    closed spec fn view(&self) -> Map<Seq<char>, Seq<char>> {
        map_of(self.entries@)
    }
}

impl DedupState {
    /// Entries hold pairwise distinct source identifiers.
    pub closed spec fn wf(self) -> bool {
        forall|i: int, j: int|
            0 <= i < self.entries@.len() && 0 <= j < self.entries@.len() && i != j
                ==> self.entries@[i].0@ != self.entries@[j].0@
    }

    /// A fresh state that has seen no source yet.
    pub fn new() -> (r: DedupState)
        ensures
            r.wf(),
            r@ == Map::<Seq<char>, Seq<char>>::empty(),
    {
        DedupState { entries: Vec::new() }
    }

    /// Index of the entry for `source_id`, if one exists.
    fn find(&self, source_id: &String) -> (r: Option<usize>)
        ensures
            match r {
                Some(i) => i < self.entries@.len() && self.entries@[i as int].0@ == source_id@,
                None => key_absent(self.entries@, self.entries@.len() as int, source_id@),
            },
    {
        let n: usize = self.entries.len();
        let mut i: usize = 0;
        while i < n
            invariant
                n == self.entries@.len(),
                0 <= i <= n,
                key_absent(self.entries@, i as int, source_id@),
            decreases n - i,
        {
            if self.entries[i].0 == *source_id {
                return Some(i);
            }
            i = i + 1;
        }
        None
    }

    /// Records that `source_id` currently shows `title` and reports whether
    /// the artwork must be refreshed: true exactly on a first sighting of
    /// the id or on a title different from the stored one.
    pub fn observe(&mut self, source_id: &String, title: &String) -> (changed: bool)
        requires
            old(self).wf(),
        ensures
            final(self).wf(),
            changed == title_changed(old(self)@, source_id@, title@),
            final(self)@ == dedup_next(old(self)@, source_id@, title@),
    {
        let pair = (source_id.clone(), title.clone());
        match self.find(source_id) {
            Some(i) => {
                let changed = !(self.entries[i].1 == *title);
                proof {
                    lemma_map_of_found(self.entries@, i as int);
                    lemma_map_of_update(self.entries@, i as int, pair);
                }
                self.entries.set(i, pair);
                assert(self@ =~= dedup_next(old(self)@, source_id@, title@));
                changed
            },
            None => {
                proof {
                    lemma_map_of_absent(self.entries@, source_id@);
                    lemma_map_of_push(self.entries@, pair);
                }
                self.entries.push(pair);
                assert(self@ =~= dedup_next(old(self)@, source_id@, title@));
                true
            },
        }
    }
}

/// For a fixed source id, `artwork_changed` in consecutive snapshots: after
/// an observation that stored `t1`, a next observation of `t2` reports a
/// change exactly when `t2` differs from `t1`; and any first observation of
/// an id reports a change.
pub proof fn lemma_artwork_changed_consecutive(
    m: Map<Seq<char>, Seq<char>>,
    id: Seq<char>,
    t1: Seq<char>,
    t2: Seq<char>,
)
    ensures
        title_changed(dedup_next(m, id, t1), id, t2) == (t2 != t1),
        !m.contains_key(id) ==> title_changed(m, id, t1),
{
}

} // verus!
