//! JSON text: reading and writing it is left to the rustc-serialize crate.
use crate::datum::{Datum, Value};
use crate::screen::reader_safe;
use rustc_serialize::json::Json;
use vstd::prelude::*;

verus! {

#[verifier::external_type_specification]
#[verifier::external_body]
pub struct ExJson(Json);

/// The compact JSON text of a value.
pub uninterp spec fn json_text(v: Value) -> Seq<char>;

/// The value that JSON text, given as bytes, stands for; `None` where the
/// bytes are not JSON text.
pub uninterp spec fn json_parse(bytes: Seq<u8>) -> Option<Value>;

/// Builds the rustc-serialize `Json` value that `d` stands for, variant by
/// variant: object members are collected into its key-ordered map, and
/// the text of a non-integral number is read back into a float (text that
/// is no number becomes null).
#[verifier::external_body]
fn to_outside(d: &Datum) -> Json {
    match d {
        Datum::Null => Json::Null,
        Datum::Bool(b) => Json::Boolean(*b),
        Datum::Int(n) => Json::I64(*n),
        Datum::UInt(n) => Json::U64(*n),
        Datum::Float(t) => t.parse().map(Json::F64).unwrap_or(Json::Null),
        Datum::Str(s) => Json::String(s.clone()),
        Datum::Array(items) => Json::Array(items.iter().map(to_outside).collect()),
        Datum::Object(pairs) => Json::Object(
            pairs.iter().map(|p| (p.0.clone(), to_outside(&p.1))).collect(),
        ),
    }
}

/// The `Datum` that a rustc-serialize `Json` value stands for, variant by
/// variant; a floating-point number is kept as its shortest decimal text.
#[verifier::external_body]
fn from_outside(j: &Json) -> Datum {
    match j {
        Json::Null => Datum::Null,
        Json::Boolean(b) => Datum::Bool(*b),
        Json::I64(n) => Datum::Int(*n),
        Json::U64(n) => Datum::UInt(*n),
        Json::F64(x) => Datum::Float(x.to_string()),
        Json::String(s) => Datum::Str(s.clone()),
        Json::Array(a) => Datum::Array(a.iter().map(from_outside).collect()),
        Json::Object(m) => Datum::Object(m.iter().map(|p| (p.0.clone(), from_outside(p.1))).collect()),
    }
}

/// Relies on rustc-serialize's `Display` for `Json`, which writes compact
/// JSON text; the text depends on the value alone.
#[verifier::external_body]
pub(crate) fn encode(d: &Datum) -> (r: String)
    ensures
        r@ == json_text(d@),
{
    to_outside(d).to_string()
}

/// Relies on rustc-serialize's `Json::from_reader`, which reads JSON text
/// from bytes and fails on anything else. Its parser slices object keys out
/// of a buffer with 16-bit positions and multiplies exponents in a machine
/// word, so it can panic on bytes outside `reader_safe`.
#[verifier::external_body]
pub(crate) fn parse(bytes: &[u8]) -> (r: Option<Datum>)
    requires
        reader_safe(bytes@),
    ensures
        match r {
            Some(d) => json_parse(bytes@) == Some(d@),
            None => json_parse(bytes@) is None,
        },
{
    let mut reader = bytes;
    Json::from_reader(&mut reader).ok().map(|j| from_outside(&j))
}

} // verus!
