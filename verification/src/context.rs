//! The process-scoped context: the slot holding the one long-lived
//! direct-access handle, the flag recording that the task queue's sender
//! has been published, and the single-permit guard that direct call
//! sites hold for the whole of a multi-step operation. Everything here
//! is created once at process start by the bootstrap path and then only
//! read or swapped — never torn down.

use vstd::prelude::*;

use crate::engine::SurrealWasmEngine;

verus! {

/// The process-wide single-permit guard. A direct-access call site that
/// performs several engine operations as one critical section holds this
/// for their whole duration, which serializes such call sites against
/// each other. It is independent of the per-handle permit: both must be
/// respected when the direct path and the pooled path share an engine.
pub struct AccessGuard {
    /// Whether the single permit is free.
    pub available: bool,
}

/// Holds when `after` is `before` with the guard's permit just claimed.
pub open spec fn guard_acquired(before: AccessGuard, after: AccessGuard) -> bool {
    &&& before.available
    &&& !after.available
}

impl AccessGuard {
    /// A fresh guard with its permit free.
    pub fn new() -> (g: AccessGuard)
        ensures
            g.available,
    {
        AccessGuard { available: true }
    }

    /// Claim the permit for one whole multi-step operation. A caller
    /// finding it claimed waits until it is released.
    pub fn acquire(&mut self)
        requires
            old(self).available,
        ensures
            guard_acquired(*old(self), *final(self)),
    {
        self.available = false;
    }

    /// Release the permit at the end of the operation.
    pub fn release(&mut self)
        requires
            !old(self).available,
        ensures
            final(self).available,
    {
        self.available = true;
    }
}

/// While one direct multi-step operation holds the guard, no second one
/// can acquire it: the critical sections of direct call sites never
/// overlap.
pub proof fn lemma_guard_exclusion(before: AccessGuard, after: AccessGuard)
    requires
        guard_acquired(before, after),
    ensures
        !after.available,
{
}

/// The process-scoped context installed by the bootstrap path.
pub struct DbContext {
    /// The one long-lived handle for call sites that bypass the pool,
    /// absent until the first installation.
    pub direct: Option<SurrealWasmEngine>,
    /// Whether the task queue's submission endpoint has been published.
    pub queue_published: bool,
}

impl DbContext {
    /// A context with nothing installed yet.
    pub fn new() -> (c: DbContext)
        ensures
            c.direct is None,
            !c.queue_published,
    {
        DbContext { direct: None, queue_published: false }
    }

    /// Install the direct-access handle: the first installation wins,
    /// and later attempts leave the slot untouched.
    pub fn install_direct(&mut self, h: SurrealWasmEngine)
        ensures
            final(self).direct matches Some(_),
            old(self).direct is Some ==> final(self).direct == old(self).direct,
            old(self).direct is None ==> final(self).direct == Some(h),
            final(self).queue_published == old(self).queue_published,
    {
        if self.direct.is_none() {
            self.direct = Some(h);
        }
    }

    /// Record that the task queue's submission endpoint is published.
    /// Publishing is idempotent: the first call reports a fresh
    /// installation, later calls change nothing.
    pub fn publish_queue(&mut self) -> (fresh: bool)
        ensures
            final(self).queue_published,
            fresh == !old(self).queue_published,
            final(self).direct == old(self).direct,
    {
        let fresh = !self.queue_published;
        self.queue_published = true;
        fresh
    }
}

} // verus!
