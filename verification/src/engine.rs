//! One engine handle: a façade over one embedded engine instance. A
//! capacity-one permit serializes every dispatched call against the
//! instance, and an atomically swappable session rides alongside. The
//! embedded engine itself is outside this model: a call is begun here
//! (claiming the permit and fixing the request), performed by the
//! surrounding runtime, and finished here (releasing the permit and
//! classifying the outcome) — so every property proved below holds
//! whatever the engine answered.

use vstd::prelude::*;

use crate::error::DbError;
use crate::session::{is_bootstrap_session, Session, SessionCell};
use crate::value::{Data, Value};

verus! {

/// The protocol-version tag every dispatched call carries.
pub const PROTOCOL_VERSION: u8 = 2;

/// An enumerated verb naming which embedded-engine operation a request
/// performs.
pub enum Method {
    /// Look records up.
    Select,
    /// Create a record.
    Create,
    /// Select the namespace and database for the session.
    Use,
}

/// One fully-formed call against the embedded engine: a protocol-version
/// tag, a verb, and its ordered parameters.
pub struct Request {
    pub version: u8,
    pub method: Method,
    pub params: Vec<Value>,
}

/// The handle's own state: the capacity-one permit and the session slot.
/// The embedded engine instance these belong to is opaque and is held by
/// the surrounding runtime.
pub struct SurrealWasmEngineInner {
    /// Whether the handle's single permit is free. It is claimed for the
    /// whole duration of each dispatched call.
    pub lock_free: bool,
    /// The atomically swappable session.
    pub session: SessionCell,
}

/// An engine handle.
pub struct SurrealWasmEngine(pub SurrealWasmEngineInner);

/// How a finished engine call is returned to the caller: a failure of the
/// engine becomes a typed error, never an abort.
pub open spec fn execute_result(outcome: Result<Data, String>) -> Result<Data, DbError> {
    match outcome {
        Ok(d) => Ok(d),
        Err(m) => Err(DbError::EngineCallFailure(m)),
    }
}

/// The same handle with its permit released.
pub open spec fn released(h: SurrealWasmEngine) -> SurrealWasmEngine {
    SurrealWasmEngine(SurrealWasmEngineInner { lock_free: true, session: h.0.session })
}

/// Holds when `after` is `before` with its permit just claimed for a call
/// and nothing else changed.
pub open spec fn begins_execute(before: SurrealWasmEngine, after: SurrealWasmEngine) -> bool {
    &&& before.0.lock_free
    &&& !after.0.lock_free
    &&& after.0.session == before.0.session
}

impl SurrealWasmEngineInner {
    /// The slot is well formed.
    pub open spec fn wf(self) -> bool {
        self.session.wf()
    }

    /// Read the current session: a consistent snapshot, available without
    /// the permit.
    pub fn session(&self) -> (s: &Session)
        ensures
            *s == self.session.current,
    {
        self.session.load()
    }

    /// Replace the session atomically, available without the permit.
    pub fn set_session(&mut self, s: Session)
        ensures
            crate::session::stores_to(old(self).session, final(self).session, s),
            final(self).lock_free == old(self).lock_free,
            old(self).wf() ==> final(self).wf(),
    {
        self.session.store(s);
    }

    /// The version value the engine reports for this handle.
    pub fn version_data(&self) -> (d: Data)
        ensures
            d matches Data::Other(v) && v matches Value::Strand(s) && s@ == "surrealdb-2.2.1"@,
    {
        Data::Other(Value::Strand("surrealdb-2.2.1".to_owned()))
    }
}

impl SurrealWasmEngine {
    /// Whether a call may begin on this handle now: its permit is free.
    pub open spec fn can_begin(self) -> bool {
        self.0.lock_free
    }

    /// The handle is well formed.
    pub open spec fn wf(self) -> bool {
        self.0.wf()
    }

    /// Whether a call may begin on this handle now.
    pub fn is_idle(&self) -> (r: bool)
        ensures
            r == self.can_begin(),
    {
        self.0.lock_free
    }

    /// Begin one call against the embedded engine: claim the handle's
    /// single permit and fix the request the runtime is to dispatch. The
    /// permit stays claimed until [`SurrealWasmEngine::finish_execute`].
    pub fn begin_execute(&mut self, method: Method, params: Vec<Value>) -> (req: Request)
        requires
            old(self).can_begin(),
        ensures
            begins_execute(*old(self), *final(self)),
            req.version == PROTOCOL_VERSION,
            req.method == method,
            req.params == params,
    {
        self.0.lock_free = false;
        Request { version: PROTOCOL_VERSION, method, params }
    }

    /// Finish the call begun last: release the permit — also when the
    /// engine failed — and hand the outcome back as a typed result. The
    /// engine's failure is never turned into an abort.
    pub fn finish_execute(&mut self, outcome: Result<Data, String>) -> (r: Result<Data, DbError>)
        requires
            !old(self).can_begin(),
        ensures
            *final(self) == released(*old(self)),
            final(self).can_begin(),
            final(self).0.session == old(self).0.session,
            r == execute_result(outcome),
    {
        self.0.lock_free = true;
        match outcome {
            Ok(d) => Ok(d),
            Err(m) => Err(DbError::EngineCallFailure(m)),
        }
    }

    /// The bootstrap "use namespace/database" request issued once per
    /// handle before it is usable.
    pub fn bootstrap_request() -> (req: Request)
        ensures
            req.version == PROTOCOL_VERSION,
            req.method is Use,
            req.params@.len() == 2,
            req.params@[0] matches Value::Strand(ns) && ns@ == Seq::<char>::empty(),
            req.params@[1] matches Value::Strand(db) && db@ == "data"@,
    {
        let mut params: Vec<Value> = Vec::new();
        params.push(Value::Strand(String::new()));
        params.push(Value::Strand("data".to_owned()));
        Request { version: PROTOCOL_VERSION, method: Method::Use, params }
    }

    /// Complete construction of a handle, given the outcome of the
    /// bootstrap request. Construction succeeds exactly when bootstrap
    /// did; a handle is never returned half-initialized.
    pub fn new(bootstrap_outcome: Result<Data, String>) -> (r: Result<SurrealWasmEngine, DbError>)
        ensures
            bootstrap_outcome is Ok <==> r is Ok,
            r matches Ok(h) ==> {
                &&& h.wf()
                &&& h.can_begin()
                &&& is_bootstrap_session(h.0.session.current)
            },
            bootstrap_outcome matches Err(m) ==> r == Err::<SurrealWasmEngine, DbError>(
                DbError::EngineCallFailure(m),
            ),
    {
        match bootstrap_outcome {
            Ok(_) => {
                let session = Session {
                    ns: String::new(),
                    db: "data".to_owned(),
                    rt: true,
                };
                let inner = SurrealWasmEngineInner {
                    lock_free: true,
                    session: SessionCell::new(session),
                };
                Ok(SurrealWasmEngine(inner))
            },
            Err(m) => Err(DbError::EngineCallFailure(m)),
        }
    }
}

/// Mutual exclusion: while a call begun on a handle has not finished, the
/// handle's permit is claimed, so no second call can begin on that same
/// handle — two callers racing on one handle never interleave their
/// engine calls.
pub proof fn lemma_mutual_exclusion(before: SurrealWasmEngine, after: SurrealWasmEngine)
    requires
        begins_execute(before, after),
    ensures
        !after.can_begin(),
{
}

/// Classify a select outcome expected to hold one typed record: an
/// absent or non-value result is an empty result, distinct from a value
/// that fails to decode.
pub open spec fn selected_value(d: Data) -> Result<Value, DbError> {
    match d {
        Data::Other(v) => match v {
            Value::Absent => Err(DbError::EmptyResult),
            _ => Ok(v),
        },
        Data::NonValue => Err(DbError::EmptyResult),
    }
}

/// Classify a finished select outcome: an absent or non-value result is
/// an empty result, anything else is the value to decode.
pub fn select_value(d: Data) -> (r: Result<Value, DbError>)
    ensures
        r == selected_value(d),
{
    match d {
        Data::Other(v) => match v {
            Value::Absent => Err(DbError::EmptyResult),
            _ => Ok(v),
        },
        Data::NonValue => Err(DbError::EmptyResult),
    }
}

/// Decode a point lookup's outcome into one typed record. A nonexistent
/// record gives an empty result; an existing record of the wrong shape
/// gives a decode failure — the two are never conflated.
pub fn select_message(d: Data) -> (r: Result<crate::message::Message, DbError>)
    ensures
        match selected_value(d) {
            Ok(v) => r == crate::message::decoded_message(v),
            Err(e) => r == Err::<crate::message::Message, DbError>(e),
        },
{
    match select_value(d) {
        Ok(v) => crate::message::decode_message(&v),
        Err(e) => Err(e),
    }
}

/// Decode a table-wide lookup's outcome into its typed records.
pub fn select_messages(d: Data) -> (r: Result<Vec<crate::message::Message>, DbError>)
    ensures
        selected_value(d) matches Err(e) ==> r == Err::<Vec<crate::message::Message>, DbError>(
            e,
        ),
        selected_value(d) matches Ok(v) ==> (match r {
            Ok(ms) => v matches Value::Array(items) && crate::message::all_decodable(items@)
                && ms@.len() == items@.len() && forall|j: int|
                0 <= j < items@.len() ==> crate::message::decoded_message(items@[j]) == Ok::<
                    crate::message::Message,
                    DbError,
                >(#[trigger] ms@[j]),
            Err(e2) => e2 == DbError::DecodeFailure && (v matches Value::Array(items)
                ==> !crate::message::all_decodable(items@)),
        }),
{
    match select_value(d) {
        Ok(v) => crate::message::decode_messages(&v),
        Err(e) => Err(e),
    }
}

/// Build the parameters of a select: with an identifier, a single-record
/// reference for a point lookup; without, the table name for a
/// table-wide lookup.
pub fn select_params(table: &str, id: Option<String>) -> (params: Vec<Value>)
    ensures
        params@.len() == 1,
        match id {
            Some(i) => params@[0] matches Value::Thing { table: t, id: j } && t@ == table@
                && j == i,
            None => params@[0] matches Value::Strand(t) && t@ == table@,
        },
{
    match id {
        Some(i) => {
            let mut params: Vec<Value> = Vec::new();
            params.push(Value::Thing { table: table.to_owned(), id: i });
            params
        },
        None => {
            let mut params: Vec<Value> = Vec::new();
            params.push(Value::Strand(table.to_owned()));
            params
        },
    }
}

} // verus!
