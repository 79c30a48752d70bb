//! Client registry: the shared map from client identifier to that client's
//! cancellation handle. Its contents mirror the set of live session
//! handlers; cancelling a handle asks the handler to stop at its next loop
//! boundary.

use vstd::prelude::*;
use vstd::pervasive::VecAdditionalExecFns;
use tokio_util::sync::CancellationToken;

verus! {

/// tokio_util's cooperative cancellation handle. Opaque here: the registry
/// only stores, clones and fires it.
#[verifier::external_type_specification]
#[verifier::external_body]
pub struct ExCancellationToken(CancellationToken);

/// Relies on `tokio_util::sync::CancellationToken::new`: returns a fresh
/// handle; nothing about its value is claimed.
pub assume_specification[ CancellationToken::new ]() -> CancellationToken;

/// Relies on `tokio_util::sync::CancellationToken::cancel`: a non-blocking
/// signal to every task waiting on this handle or a child of it; it returns
/// nothing and never panics.
pub assume_specification[ CancellationToken::cancel ](t: &CancellationToken);

/// Relies on `Clone for tokio_util::sync::CancellationToken`: the clone
/// points at the same cancellation state; nothing about its value is
/// claimed.
pub assume_specification[ <CancellationToken as Clone>::clone ](
    t: &CancellationToken,
) -> CancellationToken;

/// Map from client identifier to cancellation handle, keys unique.
pub struct ClientRegistry {
    entries: Vec<(String, CancellationToken)>,
}

impl ClientRegistry {
    /// The registered client identifiers, in insertion order.
    pub closed spec fn ids(self) -> Seq<Seq<char>> {
        self.entries@.map_values(|p: (String, CancellationToken)| p.0@)
    }

    /// Identifiers are pairwise distinct.
    pub closed spec fn wf(self) -> bool {
        self.ids().no_duplicates()
    }

    /// An empty registry.
    pub fn new() -> (r: ClientRegistry)
        ensures
            r.wf(),
            r.ids().len() == 0,
    {
        let r = ClientRegistry { entries: Vec::new() };
        proof {
            assert(r.ids() =~= Seq::<Seq<char>>::empty());
        }
        r
    }

    /// Index of the entry for `id`, if one exists.
    fn find(&self, id: &String) -> (r: Option<usize>)
        ensures
            match r {
                Some(i) => i < self.ids().len() && self.ids()[i as int] == id@,
                None => !self.ids().contains(id@),
            },
    {
        let n: usize = self.entries.len();
        let mut i: usize = 0;
        while i < n
            invariant
                n == self.entries@.len(),
                0 <= i <= n,
                forall|j: int| 0 <= j < i ==> self.ids()[j] != id@,
            decreases n - i,
        {
            if self.entries[i].0 == *id {
                return Some(i);
            }
            i = i + 1;
        }
        proof {
            assert(forall|j: int| 0 <= j < self.ids().len() ==> self.ids()[j] != id@);
        }
        None
    }

    /// Inserts a client; on a duplicate identifier the last write wins and
    /// the identifier set is unchanged.
    pub fn add(&mut self, id: String, token: CancellationToken)
        requires
            old(self).wf(),
        ensures
            final(self).wf(),
            old(self).ids().contains(id@) ==> final(self).ids() == old(self).ids(),
            !old(self).ids().contains(id@) ==> final(self).ids() == old(self).ids().push(id@),
    {
        match self.find(&id) {
            Some(i) => {
                self.entries.set(i, (id, token));
                assert(self.ids() =~= old(self).ids());
            },
            None => {
                self.entries.push((id, token));
                assert(self.ids() =~= old(self).ids().push(id@));
            },
        }
    }

    /// Removes the entry for `id`, reporting whether one was there.
    pub fn remove(&mut self, id: &String) -> (removed: bool)
        requires
            old(self).wf(),
        ensures
            final(self).wf(),
            removed == old(self).ids().contains(id@),
            final(self).ids() == old(self).ids().remove_value(id@),
    {
        match self.find(id) {
            Some(i) => {
                let _ = self.entries.remove(i);
                proof {
                    lemma_remove_found(old(self).ids(), id@, i as int);
                    assert(self.ids() =~= old(self).ids().remove(i as int));
                }
                true
            },
            None => {
                proof {
                    old(self).ids().index_of_first_ensures(id@);
                }
                false
            },
        }
    }

    /// Cancels the entry's handle for `id` and removes it; reports whether
    /// the client was registered.
    pub fn cancel(&mut self, id: &String) -> (removed: bool)
        requires
            old(self).wf(),
        ensures
            final(self).wf(),
            removed == old(self).ids().contains(id@),
            final(self).ids() == old(self).ids().remove_value(id@),
    {
        match self.find(id) {
            Some(i) => {
                let pair = self.entries.remove(i);
                pair.1.cancel();
                proof {
                    lemma_remove_found(old(self).ids(), id@, i as int);
                    assert(self.ids() =~= old(self).ids().remove(i as int));
                }
                true
            },
            None => {
                proof {
                    old(self).ids().index_of_first_ensures(id@);
                }
                false
            },
        }
    }

    /// Cancels every handle and clears the registry.
    pub fn cancel_all(&mut self)
        ensures
            final(self).wf(),
            final(self).ids().len() == 0,
    {
        let n: usize = self.entries.len();
        let mut i: usize = 0;
        while i < n
            invariant
                n == self.entries@.len(),
                0 <= i <= n,
            decreases n - i,
        {
            self.entries[i].1.cancel();
            i = i + 1;
        }
        self.entries.clear();
        assert(self.ids() =~= Seq::<Seq<char>>::empty());
    }

    /// The registered client identifiers; order carries no meaning.
    pub fn list(&self) -> (r: Vec<String>)
        ensures
            r@.map_values(|s: String| s@) == self.ids(),
    {
        let n: usize = self.entries.len();
        let mut out: Vec<String> = Vec::new();
        let mut i: usize = 0;
        while i < n
            invariant
                n == self.entries@.len(),
                0 <= i <= n,
                out@.len() == i,
                forall|j: int| 0 <= j < i ==> out@.map_values(|s: String| s@)[j] == self.ids()[j],
            decreases n - i,
        {
            out.push(self.entries[i].0.clone());
            i = i + 1;
        }
        proof {
            assert(out@.map_values(|s: String| s@) =~= self.ids());
        }
        out
    }
}

/// With pairwise-distinct identifiers, removing the one match at `i` is
/// removing the value itself.
proof fn lemma_remove_found(ids: Seq<Seq<char>>, id: Seq<char>, i: int)
    requires
        ids.no_duplicates(),
        0 <= i < ids.len(),
        ids[i] == id,
    ensures
        ids.remove_value(id) == ids.remove(i),
{
    assert(ids.contains(id));
    ids.index_of_first_ensures(id);
    let j = ids.index_of_first(id)->Some_0;
    assert(ids[j] == id);
    assert(j == i);
}

} // verus!
