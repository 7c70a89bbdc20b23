//! The record payload the access layer stores and retrieves: a single
//! `msg` text field. Encoding turns a message into an engine-level object;
//! decoding reads one back, distinguishing a malformed value from an
//! absent one.

use vstd::prelude::*;

use crate::error::DbError;
use crate::value::Value;

verus! {

/// A record payload with one text field.
pub struct Message {
    pub msg: String,
}

/// The value of the field named `msg` in `fields`, looking from position
/// `i` onward; the first occurrence wins. `None` when no such field
/// exists.
pub open spec fn msg_field_from(fields: Seq<(String, Value)>, i: int) -> Option<Value>
    decreases fields.len() - i,
{
    if i < 0 || i >= fields.len() {
        None
    } else if fields[i].0@ == "msg"@ {
        Some(fields[i].1)
    } else {
        msg_field_from(fields, i + 1)
    }
}

/// What decoding a single value into a [`Message`] yields: the value must
/// be an object whose `msg` field is a string. Anything else is a decode
/// failure.
pub open spec fn decoded_message(v: Value) -> Result<Message, DbError> {
    match v {
        Value::Object(fields) => match msg_field_from(fields@, 0) {
            Some(Value::Strand(s)) => Ok(Message { msg: s }),
            _ => Err(DbError::DecodeFailure),
        },
        _ => Err(DbError::DecodeFailure),
    }
}

/// Holds when `v` is the engine-level object that `m` is stored as: a
/// single field named `msg` holding the message text.
pub open spec fn encodes(m: Message, v: Value) -> bool {
    match v {
        Value::Object(fields) => {
            &&& fields@.len() == 1
            &&& fields@[0].0@ == "msg"@
            &&& fields@[0].1 == Value::Strand(m.msg)
        },
        _ => false,
    }
}

impl Message {
    /// Encode this message as the engine-level object it is stored as.
    pub fn to_value(&self) -> (v: Value)
        ensures
            encodes(*self, v),
            decoded_message(v) == Ok::<Message, DbError>(*self),
    {
        let key: String = "msg".to_owned();
        let mut fields: Vec<(String, Value)> = Vec::new();
        fields.push((key, Value::Strand(self.msg.clone())));
        let v = Value::Object(fields);
        proof {
            lemma_round_trip(*self, v);
        }
        v
    }
}

/// Round trip: decoding any object a message encodes to yields that very
/// message back.
pub proof fn lemma_round_trip(m: Message, v: Value)
    requires
        encodes(m, v),
    ensures
        decoded_message(v) == Ok::<Message, DbError>(m),
{
    match v {
        Value::Object(fields) => {
            assert(msg_field_from(fields@, 0) == Some(Value::Strand(m.msg)));
        },
        _ => {},
    }
}

/// Holds when every element of `items` decodes into a [`Message`].
pub open spec fn all_decodable(items: Seq<Value>) -> bool {
    forall|j: int| 0 <= j < items.len() ==> (#[trigger] decoded_message(items[j])) is Ok
}

/// Decode a table-wide lookup result into the list of its records: the
/// value must be an array, and every element must decode; the first
/// element that does not makes the whole decode fail.
pub fn decode_messages(v: &Value) -> (r: Result<Vec<Message>, DbError>)
    ensures
        match r {
            Ok(ms) => *v matches Value::Array(items) && all_decodable(items@) && ms@.len()
                == items@.len() && forall|j: int|
                0 <= j < items@.len() ==> decoded_message(items@[j]) == Ok::<Message, DbError>(
                    #[trigger] ms@[j],
                ),
            Err(e) => {
                &&& e == DbError::DecodeFailure
                &&& *v matches Value::Array(items) ==> !all_decodable(items@)
            },
        },
{
    match v {
        Value::Array(items) => {
            let n = items.len();
            let mut out: Vec<Message> = Vec::new();
            let mut i: usize = 0;
            while i < n
                invariant
                    *v is Array,
                    v->Array_0@ == items@,
                    n == items@.len(),
                    0 <= i <= n,
                    out@.len() == i,
                    forall|j: int|
                        0 <= j < i ==> decoded_message(items@[j]) == Ok::<Message, DbError>(
                            #[trigger] out@[j],
                        ),
                decreases n - i,
            {
                match decode_message(&items[i]) {
                    Ok(m) => {
                        out.push(m);
                    },
                    Err(_) => {
                        proof {
                            assert(!all_decodable(items@));
                        }
                        return Err(DbError::DecodeFailure);
                    },
                }
                i += 1;
            }
            proof {
                assert forall|j: int|
                    0 <= j < items@.len() implies (#[trigger] decoded_message(items@[j]))
                    is Ok by {
                    assert(decoded_message(items@[j]) == Ok::<Message, DbError>(out@[j]));
                }
            }
            Ok(out)
        },
        _ => Err(DbError::DecodeFailure),
    }
}

/// Decode a single engine-level value into a [`Message`].
pub fn decode_message(v: &Value) -> (r: Result<Message, DbError>)
    ensures
        r == decoded_message(*v),
{
    match v {
        Value::Object(fields) => {
            let key: String = "msg".to_owned();
            let n = fields.len();
            let mut i: usize = 0;
            while i < n
                invariant
                    *v is Object,
                    v->Object_0@ == fields@,
                    n == fields@.len(),
                    0 <= i <= n,
                    key@ == "msg"@,
                    msg_field_from(fields@, 0) == msg_field_from(fields@, i as int),
                decreases n - i,
            {
                if fields[i].0 == key {
                    proof {
                        assert(fields@[i as int].0@ == "msg"@);
                        assert(msg_field_from(fields@, i as int) == Some(fields@[i as int].1));
                    }
                    match &fields[i].1 {
                        Value::Strand(s) => {
                            return Ok(Message { msg: s.clone() });
                        },
                        _ => {
                            return Err(DbError::DecodeFailure);
                        },
                    }
                }
                proof {
                    assert(msg_field_from(fields@, i as int) == msg_field_from(
                        fields@,
                        i as int + 1,
                    ));
                }
                i += 1;
            }
            Err(DbError::DecodeFailure)
        },
        _ => Err(DbError::DecodeFailure),
    }
}

} // verus!
