//! The session registry: which process currently serves which session.

use vstd::prelude::*;
use vstd::hash_map::StringHashMap;

verus! {

/// The registry after the entry under `from` has moved to `to`; unchanged
/// where `from` has no entry.
pub open spec fn rekeyed(sessions: Map<Seq<char>, u32>, from: Seq<char>, to: Seq<char>) -> Map<
    Seq<char>,
    u32,
> {
    if sessions.contains_key(from) {
        sessions.remove(from).insert(to, sessions[from])
    } else {
        sessions
    }
}

/// The process registered for `id`, if any.
pub open spec fn lookup_in(sessions: Map<Seq<char>, u32>, id: Seq<char>) -> Option<u32> {
    if sessions.contains_key(id) {
        Some(sessions[id])
    } else {
        None
    }
}

/// No process serves two sessions.
pub open spec fn one_session_per_process(sessions: Map<Seq<char>, u32>) -> bool {
    forall|a: Seq<char>, b: Seq<char>|
        sessions.contains_key(a) && sessions.contains_key(b) && sessions[a] == sessions[b] ==> a
            == b
}

/// Whether some session is served by `pid`.
pub open spec fn serves(sessions: Map<Seq<char>, u32>, pid: u32) -> bool {
    exists|id: Seq<char>| sessions.contains_key(id) && sessions[id] == pid
}

/// A mapping from session id to the id of the process that serves it.
///
/// Each session id has at most one entry. The registry holds no lock of
/// its own: a caller that shares it guards it with one.
pub struct SessionRegistry {
    sessions: StringHashMap<u32>,
}

impl View for SessionRegistry {
    type V = Map<Seq<char>, u32>;

    closed spec fn view(&self) -> Map<Seq<char>, u32> {
        self.sessions@
    }
}

impl SessionRegistry {
    /// An empty registry.
    pub fn new() -> (registry: SessionRegistry)
        ensures
            registry@ == Map::<Seq<char>, u32>::empty(),
    {
        SessionRegistry { sessions: StringHashMap::new() }
    }

    /// Registers `pid` for `id`, replacing any earlier entry for `id`.
    pub fn insert(&mut self, id: String, pid: u32)
        ensures
            final(self)@ == old(self)@.insert(id@, pid),
    {
        self.sessions.insert(id, pid);
    }

    /// The process registered for `id`, if any.
    pub fn lookup(&self, id: &str) -> (pid: Option<u32>)
        ensures
            pid == lookup_in(self@, id@),
    {
        match self.sessions.get(id) {
            Some(pid) => Some(*pid),
            None => None,
        }
    }

    /// Moves the entry under `from` to `to` and says whether there was one
    /// to move; without one the registry stays as it is.
    pub fn rekey(&mut self, from: &str, to: String) -> (moved: bool)
        ensures
            final(self)@ == rekeyed(old(self)@, from@, to@),
            moved == old(self)@.contains_key(from@),
    {
        match self.lookup(from) {
            Some(pid) => {
                self.sessions.remove(from);
                self.sessions.insert(to, pid);
                true
            },
            None => false,
        }
    }

    /// Removes the entry for `id` and returns the process it named, if any.
    pub fn remove(&mut self, id: &str) -> (pid: Option<u32>)
        ensures
            pid == lookup_in(old(self)@, id@),
            final(self)@ == old(self)@.remove(id@),
    {
        let pid = self.lookup(id);
        self.sessions.remove(id);
        pid
    }

    /// How many sessions are registered.
    pub fn len(&self) -> (count: usize)
        ensures
            count == self@.len(),
    {
        self.sessions.len()
    }
}

/// After a successful rekey the old id is free and the new id names the
/// process that the old one named.
pub proof fn lemma_rekey_moves(sessions: Map<Seq<char>, u32>, from: Seq<char>, to: Seq<char>)
    requires
        sessions.contains_key(from),
        from != to,
    ensures
        lookup_in(rekeyed(sessions, from, to), from) is None,
        lookup_in(rekeyed(sessions, from, to), to) == Some(sessions[from]),
        forall|other: Seq<char>|
            other != from && other != to ==> lookup_in(rekeyed(sessions, from, to), other)
                == lookup_in(sessions, other),
{
}

/// Rekeying again with the same arguments changes nothing.
pub proof fn lemma_rekey_twice(sessions: Map<Seq<char>, u32>, from: Seq<char>, to: Seq<char>)
    ensures
        rekeyed(rekeyed(sessions, from, to), from, to) == rekeyed(sessions, from, to),
{
    let once = rekeyed(sessions, from, to);
    if sessions.contains_key(from) && from == to {
        assert(once =~= sessions);
        assert(rekeyed(once, from, to) =~= once);
    }
}

/// Rekeying an id that has no entry changes nothing.
pub proof fn lemma_rekey_absent(sessions: Map<Seq<char>, u32>, from: Seq<char>, to: Seq<char>)
    requires
        !sessions.contains_key(from),
    ensures
        rekeyed(sessions, from, to) == sessions,
{
}

/// An id that was removed has no entry, and every other id keeps its own.
pub proof fn lemma_remove_forgets(sessions: Map<Seq<char>, u32>, id: Seq<char>)
    ensures
        lookup_in(sessions.remove(id), id) is None,
        forall|other: Seq<char>|
            other != id ==> lookup_in(sessions.remove(id), other) == lookup_in(sessions, other),
{
}

/// Registering a process that serves no session yet, removing an entry,
/// and rekeying onto an id that has no entry each keep the rule that no
/// process serves two sessions.
pub proof fn lemma_one_session_per_process(
    sessions: Map<Seq<char>, u32>,
    id: Seq<char>,
    to: Seq<char>,
    pid: u32,
)
    requires
        one_session_per_process(sessions),
    ensures
        !serves(sessions.remove(id), pid) ==> one_session_per_process(sessions.insert(id, pid)),
        one_session_per_process(sessions.remove(id)),
        !sessions.contains_key(to) || to == id ==> one_session_per_process(
            rekeyed(sessions, id, to),
        ),
{
    let removed = sessions.remove(id);
    if !serves(removed, pid) {
        let inserted = sessions.insert(id, pid);
        assert forall|a: Seq<char>, b: Seq<char>|
            inserted.contains_key(a) && inserted.contains_key(b) && inserted[a]
                == inserted[b] implies a == b by {
            if a != id {
                assert(removed.contains_key(a) && removed[a] == sessions[a]);
            }
            if b != id {
                assert(removed.contains_key(b) && removed[b] == sessions[b]);
            }
        }
    }
    if !sessions.contains_key(to) || to == id {
        let moved = rekeyed(sessions, id, to);
        assert forall|a: Seq<char>, b: Seq<char>|
            moved.contains_key(a) && moved.contains_key(b) && moved[a] == moved[b] implies a
            == b by {
            if sessions.contains_key(id) {
                if a == to && b != to {
                    assert(sessions.contains_key(b) && sessions[b] == sessions[id]);
                }
                if b == to && a != to {
                    assert(sessions.contains_key(a) && sessions[a] == sessions[id]);
                }
            }
        }
    }
}

} // verus!
