//! A closed model of the engine-level values that requests and results
//! carry: strings, objects, arrays, record references, and the absent
//! value. The embedded engine's own value type is opaque; the surrounding
//! runtime converts between it and this one at the boundary.

use vstd::prelude::*;

verus! {

/// One engine-level value.
pub enum Value {
    /// A string value.
    Strand(String),
    /// An object: a list of key/value fields in order.
    Object(Vec<(String, Value)>),
    /// An ordered list of values.
    Array(Vec<Value>),
    /// A reference to a single record: table name plus identifier.
    Thing { table: String, id: String },
    /// No value (the engine's none/null).
    Absent,
}

/// The result of one dispatched engine call: either a plain value or a
/// non-value result (live-query handles and the like), which the access
/// layer treats as "no value".
pub enum Data {
    /// The call produced a plain value.
    Other(Value),
    /// The call produced something that is not a plain value.
    NonValue,
}

} // verus!
