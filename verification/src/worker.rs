//! The dispatch worker: a single long-lived loop that drains a bounded
//! queue of tasks one at a time, borrows a handle from the pool, has the
//! task's request executed against it, delivers the result through the
//! task's single-use reply slot, and returns the handle — always, also
//! when the call failed. The engine call itself is performed by the
//! surrounding runtime between [`begin_task`] and [`finish_task`]; its
//! outcome and whether the reply receiver is still listening are inputs
//! here, so what is proved holds for every outcome and every abandoned
//! reply.

use vstd::prelude::*;

use crate::engine::{Method, Request, SurrealWasmEngine};
use crate::error::DbError;
use crate::message::Message;
use crate::value::{Data, Value};

verus! {

/// One queued unit of work. The single-use reply slot that pairs with it
/// is owned by the surrounding runtime.
pub enum DbTask {
    /// Store one message record.
    CreateMessage { msg: Message },
    /// Look all message records up.
    GetMessages,
}

/// What the worker sends back through a task's reply slot.
pub enum DbReply {
    /// The result of storing a record.
    Created(Result<Data, DbError>),
    /// The result of looking records up.
    Messages(Result<Vec<Data>, DbError>),
}

/// The request a task dispatches: storing a message writes it to the
/// `msg` table as the object it encodes to; a lookup reads the whole
/// `msg` table.
pub open spec fn is_task_request(t: DbTask, req: Request) -> bool {
    match t {
        DbTask::CreateMessage { msg } => {
            &&& req.version == crate::engine::PROTOCOL_VERSION
            &&& req.method is Create
            &&& req.params@.len() == 2
            &&& req.params@[0] matches Value::Strand(s) && s@ == "msg"@
            &&& crate::message::encodes(msg, req.params@[1])
        },
        DbTask::GetMessages => {
            &&& req.version == crate::engine::PROTOCOL_VERSION
            &&& req.method is Select
            &&& req.params@.len() == 1
            &&& req.params@[0] matches Value::Strand(s) && s@ == "msg"@
        },
    }
}

/// Holds when `r` is the reply a task yields for a given engine outcome:
/// an engine failure becomes a typed error inside the reply, never a
/// worker failure.
pub open spec fn is_reply_for(t: DbTask, outcome: Result<Data, String>, r: DbReply) -> bool {
    match t {
        DbTask::CreateMessage { msg } => r matches DbReply::Created(res) && res
            == crate::engine::execute_result(outcome),
        DbTask::GetMessages => match outcome {
            Ok(d) => r matches DbReply::Messages(res) && res matches Ok(ds) && ds@ == seq![d],
            Err(m) => r matches DbReply::Messages(res) && res matches Err(e) && e
                == DbError::EngineCallFailure(m),
        },
    }
}

/// Begin one task: borrow the front handle from the pool, claim its
/// permit, and build the request the runtime is to dispatch against it.
pub fn begin_task(pool: &mut crate::pool::SurrealPool, task: &DbTask) -> (r: (
    SurrealWasmEngine,
    Request,
))
    requires
        old(pool).wf(),
        old(pool).idle().len() > 0,
    ensures
        final(pool).wf(),
        final(pool).idle().len() == old(pool).idle().len() - 1,
        final(pool).spec_taken_count() == old(pool).spec_taken_count() + 1,
        final(pool).spec_capacity() == old(pool).spec_capacity(),
        final(pool).idle() == old(pool).idle().skip(1),
        crate::engine::begins_execute(old(pool).idle()[0], r.0),
        !r.0.can_begin(),
        r.0.wf(),
        is_task_request(*task, r.1),
{
    let mut h = pool.take();
    match task {
        DbTask::CreateMessage { msg } => {
            let mut params: Vec<Value> = Vec::new();
            params.push(Value::Strand("msg".to_owned()));
            params.push(msg.to_value());
            let req = h.begin_execute(Method::Create, params);
            (h, req)
        },
        DbTask::GetMessages => {
            let mut params: Vec<Value> = Vec::new();
            params.push(Value::Strand("msg".to_owned()));
            let req = h.begin_execute(Method::Select, params);
            (h, req)
        },
    }
}

/// Finish one task with the outcome the engine gave: release the
/// handle's permit, return the handle to the back of the pool — also on
/// failure; a failed call never poisons the pool — and form the reply.
/// The reply is delivered only when the receiver still listens: an
/// abandoned reply is dropped silently and is no error for the worker.
pub fn finish_task(
    pool: &mut crate::pool::SurrealPool,
    h: SurrealWasmEngine,
    task: &DbTask,
    outcome: Result<Data, String>,
    receiver_alive: bool,
) -> (delivered: Option<DbReply>)
    requires
        old(pool).wf(),
        old(pool).spec_taken_count() > 0,
        !h.can_begin(),
        h.wf(),
    ensures
        final(pool).wf(),
        final(pool).idle() == old(pool).idle().push(crate::engine::released(h)),
        final(pool).spec_taken_count() == old(pool).spec_taken_count() - 1,
        final(pool).spec_capacity() == old(pool).spec_capacity(),
        receiver_alive ==> (delivered matches Some(rep) && is_reply_for(*task, outcome, rep)),
        !receiver_alive ==> delivered is None,
{
    let mut h = h;
    let res = h.finish_execute(outcome);
    let reply = match task {
        DbTask::CreateMessage { .. } => DbReply::Created(res),
        DbTask::GetMessages => {
            match res {
                Ok(d) => {
                    let ghost d0 = d;
                    let mut ds: Vec<Data> = Vec::new();
                    ds.push(d);
                    proof {
                        assert(ds@ =~= seq![d0]);
                    }
                    DbReply::Messages(Ok(ds))
                },
                Err(e) => DbReply::Messages(Err(e)),
            }
        },
    };
    pool.give_back(h);
    if receiver_alive {
        Some(reply)
    } else {
        None
    }
}

/// The worker loop over a drained queue: tasks are serviced strictly in
/// submission order by a single worker, so the i-th reply is formed from
/// the i-th task and the i-th engine outcome — no reordering, no
/// priority. A task whose reply receiver was dropped yields no delivery
/// and neither crashes the worker nor holds up the tasks after it, and
/// the pool comes back with every handle accounted for.
pub fn run_worker(
    pool: &mut crate::pool::SurrealPool,
    tasks: &Vec<DbTask>,
    outcomes: Vec<Result<Data, String>>,
    alive: &Vec<bool>,
) -> (replies: Vec<Option<DbReply>>)
    requires
        old(pool).wf(),
        old(pool).idle().len() > 0,
        outcomes@.len() == tasks@.len(),
        alive@.len() == tasks@.len(),
    ensures
        final(pool).wf(),
        final(pool).idle().len() == old(pool).idle().len(),
        final(pool).spec_taken_count() == old(pool).spec_taken_count(),
        final(pool).spec_capacity() == old(pool).spec_capacity(),
        replies@.len() == tasks@.len(),
        forall|i: int|
            0 <= i < tasks@.len() ==> (if alive@[i] {
                (#[trigger] replies@[i]) matches Some(rep) && is_reply_for(
                    tasks@[i],
                    outcomes@[i],
                    rep,
                )
            } else {
                replies@[i] is None
            }),
{
    let ghost orig_outcomes = outcomes@;
    let n = tasks.len();
    let mut outcomes = outcomes;
    let mut replies: Vec<Option<DbReply>> = Vec::new();
    let mut i: usize = 0;
    while i < n
        invariant
            0 <= i <= n,
            n == tasks@.len(),
            orig_outcomes.len() == n,
            alive@.len() == n,
            outcomes@.len() == n - i,
            forall|j: int| 0 <= j < outcomes@.len() ==> outcomes@[j] == orig_outcomes[i + j],
            pool.wf(),
            pool.idle().len() == old(pool).idle().len(),
            pool.spec_taken_count() == old(pool).spec_taken_count(),
            pool.spec_capacity() == old(pool).spec_capacity(),
            pool.idle().len() > 0,
            replies@.len() == i,
            forall|j: int|
                0 <= j < i ==> (if alive@[j] {
                    (#[trigger] replies@[j]) matches Some(rep) && is_reply_for(
                        tasks@[j],
                        orig_outcomes[j],
                        rep,
                    )
                } else {
                    replies@[j] is None
                }),
        decreases n - i,
    {
        let task = &tasks[i];
        let outcome = outcomes.remove(0);
        proof {
            pool.lemma_conservation();
        }
        let (h, _req) = begin_task(pool, task);
        // Between these two calls the surrounding runtime dispatches
        // `_req` against the borrowed handle; `outcome` stands for what
        // the engine answered.
        let delivered = finish_task(pool, h, task, outcome, alive[i]);
        replies.push(delivered);
        i += 1;
    }
    replies
}

} // verus!
