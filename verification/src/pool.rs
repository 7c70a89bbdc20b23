//! A fixed-capacity pool of engine handles. All handles are constructed
//! up front — if any construction fails, the pool fails as a whole — and
//! at runtime they are only handed out from the front and returned to the
//! back, FIFO, so all pooled engines see roughly even use. No handle is
//! created or destroyed outside initialization: the number taken plus the
//! number idle equals the capacity at every point.

use vstd::prelude::*;

use crate::engine::SurrealWasmEngine;
use crate::error::DbError;

verus! {

/// A fixed-capacity FIFO pool of engine handles.
pub struct SurrealPool {
    /// The idle handles, front first.
    conns: Vec<SurrealWasmEngine>,
    /// How many handles are currently taken out.
    taken: usize,
    /// The fixed number of handles this pool was built with.
    capacity: usize,
}

/// What collecting the construction results from index `i` onward yields:
/// the handles in order if every construction succeeded, else the first
/// failure.
pub open spec fn collected_from(
    results: Seq<Result<SurrealWasmEngine, DbError>>,
    i: int,
) -> Result<Seq<SurrealWasmEngine>, DbError>
    decreases results.len() - i,
{
    if i < 0 || i >= results.len() {
        Ok(Seq::empty())
    } else {
        match results[i] {
            Ok(h) => match collected_from(results, i + 1) {
                Ok(rest) => Ok(seq![h] + rest),
                Err(e) => Err(e),
            },
            Err(e) => Err(e),
        }
    }
}

/// Unfolding facts for [`collected_from`] at one index.
proof fn lemma_collected_step(results: Seq<Result<SurrealWasmEngine, DbError>>, i: int)
    requires
        0 <= i < results.len(),
    ensures
        collected_from(results, i) is Ok <==> (results[i] is Ok && collected_from(results, i + 1)
            is Ok),
        collected_from(results, i) is Ok ==> collected_from(results, i)->Ok_0 == seq![
            results[i]->Ok_0,
        ] + collected_from(results, i + 1)->Ok_0,
        results[i] is Err ==> collected_from(results, i) == Err::<Seq<SurrealWasmEngine>, DbError>(
            results[i]->Err_0,
        ),
        results[i] is Ok && collected_from(results, i + 1) is Err ==> collected_from(results, i)
            == collected_from(results, i + 1),
{
}

impl SurrealPool {
    /// Conservation, and idleness of what rests in the pool: every handle
    /// is either taken or idle, together exactly the capacity the pool
    /// was built with, and an idle handle has no call in flight.
    pub closed spec fn wf(self) -> bool {
        &&& self.taken + self.conns@.len() == self.capacity
        &&& forall|i: int|
            0 <= i < self.conns@.len() ==> (#[trigger] self.conns@[i]).can_begin()
                && self.conns@[i].wf()
    }

    /// The idle handles, front first.
    pub closed spec fn idle(self) -> Seq<SurrealWasmEngine> {
        self.conns@
    }

    /// How many handles are currently taken out.
    pub closed spec fn spec_taken_count(self) -> int {
        self.taken as int
    }

    /// The pool's fixed capacity.
    pub closed spec fn spec_capacity(self) -> int {
        self.capacity as int
    }

    /// How many handles are idle in the pool now.
    pub fn idle_count(&self) -> (n: usize)
        ensures
            n == self.idle().len(),
    {
        self.conns.len()
    }

    /// How many handles are taken out now.
    pub fn taken_count(&self) -> (n: usize)
        ensures
            n == self.spec_taken_count(),
    {
        self.taken
    }

    /// The pool's fixed capacity.
    pub fn capacity(&self) -> (n: usize)
        ensures
            n == self.spec_capacity(),
    {
        self.capacity
    }

    /// Build a pool from the construction results of its handles, one per
    /// slot. The pool is returned exactly when every construction
    /// succeeded, holding those handles in order, all idle; on any
    /// failure the whole construction fails with the first error and no
    /// partial pool is left.
    pub fn new(results: Vec<Result<SurrealWasmEngine, DbError>>) -> (r: Result<
        SurrealPool,
        DbError,
    >)
        requires
            forall|j: int|
                0 <= j < results@.len() ==> ((#[trigger] results@[j]) matches Ok(h)
                    ==> h.can_begin() && h.wf()),
        ensures
            match r {
                Ok(pool) => {
                    &&& collected_from(results@, 0) matches Ok(hs) && pool.idle() == hs
                    &&& pool.wf()
                    &&& pool.spec_taken_count() == 0
                    &&& pool.spec_capacity() == results@.len()
                },
                Err(e) => collected_from(results@, 0) == Err::<Seq<SurrealWasmEngine>, DbError>(
                    e,
                ),
            },
    {
        let ghost orig = results@;
        let n = results.len();
        let mut rest = results;
        let mut conns: Vec<SurrealWasmEngine> = Vec::new();
        let mut i: usize = 0;
        while i < n
            invariant
                orig == results@,
                0 <= i <= n,
                orig.len() == n,
                rest@.len() == n - i,
                forall|j: int| 0 <= j < rest@.len() ==> rest@[j] == orig[i + j],
                forall|j: int|
                    0 <= j < orig.len() ==> ((#[trigger] orig[j]) matches Ok(h) ==> h.can_begin()
                        && h.wf()),
                conns@.len() == i,
                collected_from(orig, 0) matches Ok(hs) ==> collected_from(orig, i as int) is Ok
                    && hs == conns@ + collected_from(orig, i as int)->Ok_0,
                collected_from(orig, 0) is Err ==> collected_from(orig, i as int)
                    == collected_from(orig, 0),
                forall|j: int|
                    0 <= j < conns@.len() ==> (#[trigger] conns@[j]).can_begin()
                        && conns@[j].wf(),
            decreases n - i,
        {
            proof {
                lemma_collected_step(orig, i as int);
            }
            let next = rest.remove(0);
            proof {
                assert(next == orig[i as int]);
            }
            match next {
                Ok(h) => {
                    let ghost prev = conns@;
                    conns.push(h);
                    proof {
                        if collected_from(orig, 0) is Ok {
                            assert(prev + (seq![h] + collected_from(orig, i as int + 1)->Ok_0)
                                =~= conns@ + collected_from(orig, i as int + 1)->Ok_0);
                        }
                    }
                },
                Err(e) => {
                    proof {
                        assert(collected_from(orig, i as int) == Err::<
                            Seq<SurrealWasmEngine>,
                            DbError,
                        >(e));
                        assert(collected_from(orig, 0) is Err);
                    }
                    return Err(e);
                },
            }
            i += 1;
        }
        proof {
            assert(collected_from(orig, n as int) is Ok);
            assert(collected_from(orig, 0) is Ok);
            assert(collected_from(orig, 0)->Ok_0 =~= conns@);
        }
        Ok(SurrealPool { conns, taken: 0, capacity: n })
    }

    /// Pool conservation: at every observation point of a well-formed
    /// pool — and `take` and `give_back` both keep a pool well formed —
    /// the handles taken out plus the handles idle inside equal the fixed
    /// capacity.
    pub proof fn lemma_conservation(self)
        requires
            self.wf(),
        ensures
            self.spec_taken_count() + self.idle().len() == self.spec_capacity(),
            self.spec_taken_count() >= 0,
    {
    }

    /// Take the front handle out of the pool. The pool must not be empty:
    /// a caller seeing an empty pool waits for a handle to come back
    /// rather than failing.
    pub fn take(&mut self) -> (h: SurrealWasmEngine)
        requires
            old(self).wf(),
            old(self).idle().len() > 0,
        ensures
            final(self).wf(),
            h == old(self).idle()[0],
            h.can_begin(),
            h.wf(),
            final(self).idle() == old(self).idle().skip(1),
            final(self).spec_taken_count() == old(self).spec_taken_count() + 1,
            final(self).spec_capacity() == old(self).spec_capacity(),
    {
        let h = self.conns.remove(0);
        self.taken = self.taken + 1;
        proof {
            assert(self.conns@ =~= old(self).conns@.skip(1));
        }
        h
    }

    /// Take the front handle if one is idle; `None` when the pool is
    /// momentarily empty and the caller must wait.
    pub fn try_take(&mut self) -> (r: Option<SurrealWasmEngine>)
        requires
            old(self).wf(),
        ensures
            final(self).wf(),
            old(self).idle().len() == 0 ==> r is None && *final(self) == *old(self),
            old(self).idle().len() > 0 ==> (r matches Some(h) && h == old(self).idle()[0]
                && final(self).idle() == old(self).idle().skip(1)
                && final(self).spec_taken_count() == old(self).spec_taken_count() + 1
                && final(self).spec_capacity() == old(self).spec_capacity()),
    {
        if self.conns.len() == 0 {
            None
        } else {
            Some(self.take())
        }
    }

    /// Return a taken handle to the back of the pool. No handle is ever
    /// discarded: this is the only way a handle comes back, so the count
    /// of taken handles goes down by exactly one.
    pub fn give_back(&mut self, conn: SurrealWasmEngine)
        requires
            old(self).wf(),
            old(self).spec_taken_count() > 0,
            conn.can_begin(),
            conn.wf(),
        ensures
            final(self).wf(),
            final(self).idle() == old(self).idle().push(conn),
            final(self).spec_taken_count() == old(self).spec_taken_count() - 1,
            final(self).spec_capacity() == old(self).spec_capacity(),
    {
        self.conns.push(conn);
        self.taken = self.taken - 1;
    }
}

/// One abstract pool operation, for stating conservation over whole
/// histories.
pub enum PoolOp {
    /// A handle is taken from the front.
    Take,
    /// A taken handle is returned to the back.
    GiveBack,
}

/// The (taken, idle) counts after one operation. Taking from an empty
/// pool blocks and a give-back needs a handle out, so neither changes
/// the counts until it can proceed.
pub open spec fn apply_op(taken: nat, idle: nat, op: PoolOp) -> (nat, nat) {
    match op {
        PoolOp::Take => if idle > 0 {
            ((taken + 1) as nat, (idle - 1) as nat)
        } else {
            (taken, idle)
        },
        PoolOp::GiveBack => if taken > 0 {
            ((taken - 1) as nat, (idle + 1) as nat)
        } else {
            (taken, idle)
        },
    }
}

/// The counts after a whole sequence of operations, first to last.
pub open spec fn apply_ops(taken: nat, idle: nat, ops: Seq<PoolOp>) -> (nat, nat)
    decreases ops.len(),
{
    if ops.len() == 0 {
        (taken, idle)
    } else {
        let s = apply_op(taken, idle, ops[0]);
        apply_ops(s.0, s.1, ops.skip(1))
    }
}

/// Pool conservation over every sequence of takes and give-backs: at
/// every observation point the handles taken out plus the handles idle
/// equal the fixed capacity.
pub proof fn lemma_conservation_all_ops(taken: nat, idle: nat, cap: nat, ops: Seq<PoolOp>)
    requires
        taken + idle == cap,
    ensures
        apply_ops(taken, idle, ops).0 + apply_ops(taken, idle, ops).1 == cap,
    decreases ops.len(),
{
    if ops.len() > 0 {
        let s = apply_op(taken, idle, ops[0]);
        lemma_conservation_all_ops(s.0, s.1, cap, ops.skip(1));
    }
}

} // verus!
