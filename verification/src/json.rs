//! The record decoder's front end: a plain JSON tree the rest of the library
//! can reason about, and the decoding of a byte stream of concatenated JSON
//! values into a sequence of such trees.

use vstd::prelude::*;

verus! {

/// A decoded JSON value.
///
/// Numbers are kept only as far as the record schema reads them: a number
/// that fits `u64` is `UInt`, any other number is `NumOther`.  Object fields
/// come in the order the decoder hands them out.
pub enum Json {
    Null,
    Bool(bool),
    UInt(u64),
    NumOther,
    Str(String),
    Arr(Vec<Json>),
    Obj(Vec<(String, Json)>),
}

#[verifier::external_type_specification]
#[verifier::external_body]
pub struct ExValue(serde_json::Value);

/// Relies on `serde_json::Value`: turns the decoded tree into the library's
/// own `Json`, node for node — each variant is moved across, a number
/// through `Number::as_u64`.
#[verifier::external_body]
fn json_of_value(v: serde_json::Value) -> Json {
    match v {
        serde_json::Value::Null => Json::Null,
        serde_json::Value::Bool(b) => Json::Bool(b),
        serde_json::Value::Number(n) => match n.as_u64() {
            Some(u) => Json::UInt(u),
            None => Json::NumOther,
        },
        serde_json::Value::String(s) => Json::Str(s),
        serde_json::Value::Array(a) => Json::Arr(a.into_iter().map(json_of_value).collect()),
        serde_json::Value::Object(o) => Json::Obj(
            o.into_iter().map(|(k, w)| (k, json_of_value(w))).collect(),
        ),
    }
}

/// One step of the streaming decoder.
pub enum NextValue {
    /// Only trailing whitespace remains.
    End,
    /// The stream is malformed at the current position.
    Malformed,
    /// The next value, and the position just past it.
    Value(Json, usize),
}

/// What one step of the stream parse yields on these bytes at this
/// position: a pure function of the two.
pub uninterp spec fn next_value_of(bytes: Seq<u8>, pos: int) -> NextValue;

/// Relies on `serde_json::Deserializer::from_slice` and its
/// `StreamDeserializer` over `serde_json::Value`: reads the next JSON value
/// out of `bytes[pos..]`, a pure function of the bytes and the position,
/// named `next_value_of`.  A parsed value consumes at least one byte and the
/// reported position never passes the end of the input; an exhausted input
/// yields `End`.
#[verifier::external_body]
fn next_value(bytes: &[u8], pos: usize) -> (r: NextValue)
    requires
        pos <= bytes@.len(),
    ensures
        r == next_value_of(bytes@, pos as int),
        (match r {
            NextValue::Value(_, next) => pos < next <= bytes@.len(),
            _ => true,
        }),
        pos == bytes@.len() ==> r is End,
{
    let mut iter = serde_json::Deserializer::from_slice(&bytes[pos..])
        .into_iter::<serde_json::Value>();
    match iter.next() {
        None => NextValue::End,
        Some(Err(_)) => NextValue::Malformed,
        Some(Ok(v)) => {
            let off = iter.byte_offset();
            NextValue::Value(json_of_value(v), pos + off)
        },
    }
}

/// The values the stream parse yields from `pos` on, and whether it ends in
/// a malformed value: `next_value_of` folded over the rest of the stream.
/// A step that would not move forward cannot come from the parser; that
/// branch only keeps the recursion well-founded.
pub open spec fn decoded_from(bytes: Seq<u8>, pos: int) -> (Seq<Json>, bool)
    recommends
        0 <= pos <= bytes.len(),
    decreases bytes.len() - pos,
{
    match next_value_of(bytes, pos) {
        NextValue::End => (Seq::<Json>::empty(), false),
        NextValue::Malformed => (Seq::<Json>::empty(), true),
        NextValue::Value(j, next) => {
            let nxt = next as int;
            if pos < nxt && nxt <= bytes.len() {
                let rest = decoded_from(bytes, nxt);
                (seq![j] + rest.0, rest.1)
            } else {
                (Seq::<Json>::empty(), true)
            }
        },
    }
}

/// Decodes the whole byte stream into the JSON values it holds, in order,
/// exactly as `decoded_from` describes from the stream's start.
///
/// Decoding stops at the first malformed value: the values before it are
/// returned and the second component reports that the stream was cut short
/// there.  A well-formed stream returns `false`.  The JSON tokenizer cannot
/// find the next value after a syntax error, so this is where streaming
/// always ends; what a cut-short stream means for the batch is the caller's
/// error policy.
pub fn decode_values(bytes: &[u8]) -> (r: (Vec<Json>, bool))
    ensures
        r.0@ == decoded_from(bytes@, 0).0,
        r.1 == decoded_from(bytes@, 0).1,
        bytes@.len() == 0 ==> r.0@.len() == 0 && r.1 == false,
{
    let mut values: Vec<Json> = Vec::new();
    let mut pos: usize = 0;
    assert(Seq::<Json>::empty() + decoded_from(bytes@, 0).0 =~= decoded_from(bytes@, 0).0);
    loop
        invariant
            pos <= bytes@.len(),
            decoded_from(bytes@, 0).0 == values@ + decoded_from(bytes@, pos as int).0,
            decoded_from(bytes@, 0).1 == decoded_from(bytes@, pos as int).1,
        decreases bytes@.len() - pos,
    {
        match next_value(bytes, pos) {
            NextValue::End => {
                assert(decoded_from(bytes@, 0).0 =~= values@);
                return (values, false);
            },
            NextValue::Malformed => {
                assert(decoded_from(bytes@, 0).0 =~= values@);
                return (values, true);
            },
            NextValue::Value(j, next) => {
                assert(decoded_from(bytes@, pos as int).0 == seq![j] + decoded_from(
                    bytes@,
                    next as int,
                ).0);
                values.push(j);
                assert(decoded_from(bytes@, 0).0 =~= values@ + decoded_from(bytes@, next as int).0);
                pos = next;
            },
        }
    }
}

} // verus!
