//! The per-handle session: the namespace/database selection and runtime
//! flag the embedded engine consults on each call. The session is replaced
//! only as a whole — the cell models an atomic swap slot, so a reader
//! always sees some complete session that was stored at some point, never
//! a partial update.

use vstd::prelude::*;

verus! {

/// The mutable per-handle context consulted by the embedded engine.
pub struct Session {
    /// The selected namespace.
    pub ns: String,
    /// The selected database.
    pub db: String,
    /// Whether the engine's runtime features are enabled for this session.
    pub rt: bool,
}

/// Holds when `s` is the session a fresh handle starts from: empty
/// namespace and database selection, runtime features on.
pub open spec fn is_initial_session(s: Session) -> bool {
    &&& s.ns@ == Seq::<char>::empty()
    &&& s.db@ == Seq::<char>::empty()
    &&& s.rt
}

/// Holds when `s` is the session established by the bootstrap
/// "use namespace/database" call every handle issues at construction.
pub open spec fn is_bootstrap_session(s: Session) -> bool {
    &&& s.ns@ == Seq::<char>::empty()
    &&& s.db@ == "data"@
    &&& s.rt
}

/// A swap slot holding one session, with the history of every session
/// ever stored in it kept in ghost state.
pub struct SessionCell {
    /// The session currently in the slot.
    pub current: Session,
    /// Every session the slot has held, oldest first.
    pub history: Ghost<Seq<Session>>,
}

/// Holds when `new_c` is `old_c` after one whole-session store of `s`.
pub open spec fn stores_to(old_c: SessionCell, new_c: SessionCell, s: Session) -> bool {
    &&& new_c.current == s
    &&& new_c.history@ == old_c.history@.push(s)
}

impl SessionCell {
    /// The slot is well formed: the current session is the one stored
    /// last.
    pub open spec fn wf(self) -> bool {
        &&& self.history@.len() > 0
        &&& self.history@.last() == self.current
    }

    /// A fresh slot holding `s`.
    pub fn new(s: Session) -> (c: SessionCell)
        ensures
            c.wf(),
            c.current == s,
            c.history@ =~= seq![s],
    {
        let h: Ghost<Seq<Session>> = Ghost(Seq::<Session>::empty().push(s));
        SessionCell { current: s, history: h }
    }

    /// Read the session in the slot: a consistent snapshot of the whole
    /// value.
    pub fn load(&self) -> (s: &Session)
        ensures
            *s == self.current,
    {
        &self.current
    }

    /// Replace the session in the slot as a whole.
    pub fn store(&mut self, s: Session)
        ensures
            stores_to(*old(self), *final(self), s),
            old(self).wf() ==> final(self).wf(),
    {
        self.history = Ghost(self.history@.push(s));
        self.current = s;
    }
}

/// Session atomicity: a read of the slot returns a session that was
/// stored into it whole at some point — never a mixture of two stores —
/// and a read immediately after a store returns exactly the stored
/// session.
pub proof fn lemma_session_atomicity(old_c: SessionCell, new_c: SessionCell, s: Session)
    requires
        old_c.wf(),
        stores_to(old_c, new_c, s),
    ensures
        new_c.wf(),
        new_c.current == s,
        new_c.history@.contains(new_c.current),
        old_c.history@.contains(old_c.current),
{
    assert(new_c.history@.contains(new_c.current)) by {
        assert(new_c.history@[new_c.history@.len() - 1] == new_c.current);
    }
    assert(old_c.history@.contains(old_c.current)) by {
        assert(old_c.history@[old_c.history@.len() - 1] == old_c.current);
    }
}

} // verus!
