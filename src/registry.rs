//! The store of active recording sessions: session identifier to the owned
//! process handle and the file the session writes.
//!
//! The registry is an owned value; callers that share it across threads put
//! it behind one lock and hold that lock only for `insert`, `take` and
//! lookups. Taking an entry out is what claims the right to stop a session,
//! so a session is stopped at most once.
use std::collections::HashMap;
use vstd::prelude::*;

verus! {

/// Active sessions, keyed by session identifier.
pub struct SessionRegistry<H> {
    sessions: HashMap<u32, (H, String)>,
}

/// The sessions that inserting the entries `(ids[i], handles[i], paths[i])`
/// in order into `m` leaves.
pub open spec fn inserted_all<H>(
    m: Map<u32, (H, Seq<char>)>,
    ids: Seq<u32>,
    handles: Seq<H>,
    paths: Seq<Seq<char>>,
) -> Map<u32, (H, Seq<char>)>
    decreases ids.len(),
{
    if ids.len() == 0 || handles.len() == 0 || paths.len() == 0 {
        m
    } else {
        inserted_all(m, ids.drop_last(), handles.drop_last(), paths.drop_last()).insert(
            ids.last(),
            (handles.last(), paths.last()),
        )
    }
}

impl<H> View for SessionRegistry<H> {
    type V = Map<u32, (H, Seq<char>)>;

    closed spec fn view(&self) -> Map<u32, (H, Seq<char>)> {
        self.sessions@.map_values(|e: (H, String)| (e.0, e.1@))
    }
}

impl<H> SessionRegistry<H> {
    /// A registry with no sessions.
    pub fn new() -> (r: Self)
        ensures
            r@ == Map::<u32, (H, Seq<char>)>::empty(),
            r@.dom().finite(),
    {
        let r = SessionRegistry { sessions: HashMap::new() };
        assert(r@ =~= Map::<u32, (H, Seq<char>)>::empty());
        r
    }

    /// Records session `id`. An entry already held under `id` is replaced and
    /// handed back.
    pub fn insert(&mut self, id: u32, handle: H, path: String) -> (displaced: Option<(H, String)>)
        ensures
            final(self)@ == old(self)@.insert(id, (handle, path@)),
            final(self)@.dom().finite(),
            match displaced {
                Some(e) => old(self)@.contains_key(id) && old(self)@[id] == (e.0, e.1@),
                None => !old(self)@.contains_key(id),
            },
    {
        let displaced = self.sessions.insert(id, (handle, path));
        assert(self@ =~= old(self)@.insert(id, (handle, path@)));
        assert(self@.dom() =~= self.sessions@.dom());
        displaced
    }

    /// Takes session `id` out of the registry, or `None` when no session has
    /// that identifier.
    pub fn take(&mut self, id: u32) -> (r: Option<(H, String)>)
        ensures
            final(self)@.dom().finite(),
            match r {
                Some(e) => old(self)@.contains_key(id) && old(self)@[id] == (e.0, e.1@)
                    && final(self)@ == old(self)@.remove(id),
                None => !old(self)@.contains_key(id) && final(self)@ == old(self)@,
            },
    {
        let r = self.sessions.remove(&id);
        assert(self@ =~= old(self)@.remove(id));
        assert(self@.dom() =~= self.sessions@.dom());
        r
    }

    /// Whether a session with identifier `id` is active.
    pub fn contains(&self, id: u32) -> (r: bool)
        ensures
            r == self@.contains_key(id),
    {
        self.sessions.contains_key(&id)
    }

    /// The number of active sessions.
    pub fn len(&self) -> (r: usize)
        ensures
            r == self@.len(),
            self@.dom().finite(),
    {
        proof {
            assert(self@.dom() =~= self.sessions@.dom());
        }
        self.sessions.len()
    }
}

/// Inserting pairwise distinct identifiers one after another into an empty
/// registry leaves exactly one session per identifier, and so exactly as
/// many sessions as identifiers.
pub proof fn lemma_distinct_inserts<H>(ids: Seq<u32>, handles: Seq<H>, paths: Seq<Seq<char>>)
    requires
        ids.no_duplicates(),
        handles.len() == ids.len(),
        paths.len() == ids.len(),
    ensures
        inserted_all(Map::empty(), ids, handles, paths).dom() == ids.to_set(),
        inserted_all(Map::empty(), ids, handles, paths).len() == ids.len(),
    decreases ids.len(),
{
    let m = inserted_all(Map::<u32, (H, Seq<char>)>::empty(), ids, handles, paths);
    if ids.len() == 0 {
        assert(m.dom() =~= ids.to_set());
    } else {
        let pre = ids.drop_last();
        assert(pre.no_duplicates());
        lemma_distinct_inserts(pre, handles.drop_last(), paths.drop_last());
        let prev = inserted_all(
            Map::<u32, (H, Seq<char>)>::empty(),
            pre,
            handles.drop_last(),
            paths.drop_last(),
        );
        assert(ids =~= pre.push(ids.last()));
        assert(!pre.contains(ids.last()));
        assert(!prev.dom().contains(ids.last()));
        assert(m.dom() =~= ids.to_set()) by {
            assert(ids.to_set() =~= pre.to_set().insert(ids.last()));
        }
        vstd::set::axiom_set_insert_len(prev.dom(), ids.last());
    }
}

/// A session that is taken out of the registry is no longer in it: of any
/// number of attempts to take the same identifier, inserted once, exactly one
/// gets the entry and every later one finds nothing.
pub proof fn lemma_take_once<H>(m: Map<u32, (H, Seq<char>)>, id: u32)
    requires
        m.dom().finite(),
        m.contains_key(id),
    ensures
        !m.remove(id).contains_key(id),
        m.remove(id).remove(id) == m.remove(id),
        m.remove(id).len() + 1 == m.len(),
{
    assert(m.remove(id).remove(id) =~= m.remove(id));
    assert(m.remove(id).dom() =~= m.dom().remove(id));
    vstd::set::axiom_set_remove_len(m.dom(), id);
}

} // verus!
