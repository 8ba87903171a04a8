//! Typed results: names, write summaries and raw values out of a response.
use crate::datum::{lemma_view_items, member, view_items, Datum, Value};
use crate::errors::{Error, ErrorKind};
use crate::cursor::{cursor_of, Cursor};
use crate::query::ResultShape;
use crate::response::{Response, ResponseKind, ResponseModel};
use vstd::prelude::*;

verus! {

/// The texts of a sequence of strings.
pub open spec fn names(v: Seq<String>) -> Seq<Seq<char>> {
    Seq::new(v.len(), |i: int| v[i]@)
}

/// The strings of `items`, where every item is a string.
pub open spec fn all_strings(items: Seq<Value>) -> Option<Seq<Seq<char>>> {
    if forall|i: int| 0 <= i < items.len() ==> #[trigger] items[i] is Str {
        Some(Seq::new(items.len(), |i: int| items[i]->Str_0))
    } else {
        None
    }
}

/// The single value that an atom response wraps.
pub open spec fn atom_value(m: ResponseModel) -> Option<Value> {
    match m.values {
        Value::Array(s) => if m.kind == ResponseKind::Atom && s.len() == 1 {
            Some(s[0])
        } else {
            None
        },
        _ => None,
    }
}

/// The list of names that a response holds: an atom that wraps an array
/// of strings.
pub open spec fn string_list(m: ResponseModel) -> Option<Seq<Seq<char>>> {
    match atom_value(m) {
        Some(Value::Array(items)) => all_strings(items),
        _ => None,
    }
}

/// The detail of the driver error for a response that holds no list of
/// names: it names the shape of the response.
pub open spec fn strings_error(m: ResponseModel) -> Seq<char> {
    match m.kind {
        ResponseKind::Sequence => "a Sequence response is not supported as a list of names"@,
        ResponseKind::Partial => "a Partial response is not supported as a list of names"@,
        ResponseKind::Atom => "an Atom response that holds no list of strings"@,
    }
}

/// A summary of writes. The server leaves out counters that are zero.
#[derive(Debug, PartialEq, Eq)]
pub struct Writes {
    pub deleted: u64,
    pub errors: u64,
    pub inserted: u64,
    pub replaced: u64,
    pub skipped: u64,
    pub unchanged: u64,
    pub generated_keys: Vec<String>,
    pub first_error: Option<String>,
}

/// The mathematical value of a `Writes`.
pub struct WritesModel {
    pub deleted: int,
    pub errors: int,
    pub inserted: int,
    pub replaced: int,
    pub skipped: int,
    pub unchanged: int,
    pub generated_keys: Seq<Seq<char>>,
    pub first_error: Option<Seq<char>>,
}

impl Writes {
    pub open spec fn view(&self) -> WritesModel {
        WritesModel {
            deleted: self.deleted as int,
            errors: self.errors as int,
            inserted: self.inserted as int,
            replaced: self.replaced as int,
            skipped: self.skipped as int,
            unchanged: self.unchanged as int,
            generated_keys: names(self.generated_keys@),
            first_error: match self.first_error {
                Some(s) => Some(s@),
                None => None,
            },
        }
    }
}

/// The counter `key` of an object: zero where it is absent or null.
pub open spec fn count_of(v: Value, key: Seq<char>) -> Option<int> {
    match member(v, key) {
        None => Some(0),
        Some(Value::Null) => Some(0),
        Some(Value::Num(n)) => if 0 <= n <= u64::MAX {
            Some(n)
        } else {
            None
        },
        _ => None,
    }
}

/// The list of strings `key` of an object: empty where it is absent or null.
pub open spec fn keys_of(v: Value, key: Seq<char>) -> Option<Seq<Seq<char>>> {
    match member(v, key) {
        None => Some(Seq::empty()),
        Some(Value::Null) => Some(Seq::empty()),
        Some(Value::Array(items)) => all_strings(items),
        _ => None,
    }
}

/// The optional string `key` of an object.
pub open spec fn text_of(v: Value, key: Seq<char>) -> Option<Option<Seq<char>>> {
    match member(v, key) {
        None => Some(None),
        Some(Value::Null) => Some(None),
        Some(Value::Str(s)) => Some(Some(s)),
        _ => None,
    }
}

/// The summary of writes that an object holds.
pub open spec fn decode_writes(v: Value) -> Option<WritesModel> {
    if v is Object && count_of(v, "deleted"@) is Some && count_of(v, "errors"@) is Some
        && count_of(v, "inserted"@) is Some && count_of(v, "replaced"@) is Some && count_of(
        v,
        "skipped"@,
    ) is Some && count_of(v, "unchanged"@) is Some && keys_of(v, "generated_keys"@) is Some
        && text_of(v, "first_error"@) is Some {
        Some(
            WritesModel {
                deleted: count_of(v, "deleted"@)->0,
                errors: count_of(v, "errors"@)->0,
                inserted: count_of(v, "inserted"@)->0,
                replaced: count_of(v, "replaced"@)->0,
                skipped: count_of(v, "skipped"@)->0,
                unchanged: count_of(v, "unchanged"@)->0,
                generated_keys: keys_of(v, "generated_keys"@)->0,
                first_error: text_of(v, "first_error"@)->0,
            },
        )
    } else {
        None
    }
}

/// An object that leaves out `unchanged` and `generated_keys` decodes,
/// where it decodes, with no unchanged documents and no generated keys.
pub proof fn lemma_absent_fields_default(v: Value)
    requires
        member(v, "unchanged"@) is None,
        member(v, "generated_keys"@) is None,
        decode_writes(v) is Some,
    ensures
        decode_writes(v)->0.unchanged == 0,
        decode_writes(v)->0.generated_keys == Seq::<Seq<char>>::empty(),
{
}

/// The summary of writes that a response holds: an atom that wraps one.
pub open spec fn writes_of(m: ResponseModel) -> Option<WritesModel> {
    match atom_value(m) {
        Some(v) => decode_writes(v),
        None => None,
    }
}

/// Copies of the strings of `items`, where every item is a string.
fn strings_from(items: &Vec<Datum>) -> (r: Option<Vec<String>>)
    ensures
        match r {
            Some(v) => all_strings(view_items(items@)) == Some(names(v@)),
            None => all_strings(view_items(items@)) is None,
        },
{
    proof {
        lemma_view_items(items@);
    }
    let ghost vs = view_items(items@);
    let mut out: Vec<String> = Vec::new();
    let mut i: usize = 0;
    while i < items.len()
        invariant
            i <= items.len(),
            vs == view_items(items@),
            vs.len() == items.len(),
            forall|j: int| 0 <= j < items.len() ==> #[trigger] vs[j] == items@[j]@,
            out@.len() == i,
            forall|j: int| 0 <= j < i ==> vs[j] is Str,
            forall|j: int| 0 <= j < i ==> #[trigger] out@[j]@ == vs[j]->Str_0,
        decreases items.len() - i,
    {
        match &items[i] {
            Datum::Str(s) => out.push(s.clone()),
            _ => {
                assert(!(vs[i as int] is Str));
                return None;
            },
        }
        i = i + 1;
    }
    assert(names(out@) =~= Seq::new(vs.len(), |j: int| vs[j]->Str_0));
    Some(out)
}

/// The single value that an atom response wraps.
fn atom_of(res: &Response) -> (r: Option<&Datum>)
    ensures
        match r {
            Some(d) => atom_value(res@) == Some(d@),
            None => atom_value(res@) is None,
        },
{
    match &res.values {
        Datum::Array(s) => {
            proof {
                lemma_view_items(s@);
            }
            if res.kind == ResponseKind::Atom && s.len() == 1 {
                Some(&s[0])
            } else {
                None
            }
        },
        _ => None,
    }
}

fn driver_error(msg: &str) -> (r: Error)
    ensures
        r@ == (ErrorKind::Driver, msg@),
{
    Error::DriverError(msg.to_owned())
}

impl Response {
    /// The list of names that this response holds; a driver error for any
    /// other response, a sequence among them.
    pub fn into_strings(self) -> (r: Result<Vec<String>, Error>)
        ensures
            match string_list(self@) {
                Some(l) => r matches Ok(v) && names(v@) == l,
                None => r matches Err(e) && e@ == (ErrorKind::Driver, strings_error(self@)),
            },
    {
        match self.kind {
            ResponseKind::Atom => {},
            ResponseKind::Sequence => {
                return Err(
                    driver_error("a Sequence response is not supported as a list of names"),
                );
            },
            ResponseKind::Partial => {
                return Err(
                    driver_error("a Partial response is not supported as a list of names"),
                );
            },
        }
        match atom_of(&self) {
            Some(Datum::Array(items)) => match strings_from(items) {
                Some(v) => Ok(v),
                None => Err(driver_error("an Atom response that holds no list of strings")),
            },
            _ => Err(driver_error("an Atom response that holds no list of strings")),
        }
    }

    /// The summary of writes that this response holds.
    pub fn into_writes(self) -> (r: Result<Writes, Error>)
        ensures
            match writes_of(self@) {
                Some(w) => r matches Ok(x) && x@ == w,
                None => r matches Err(e) && e@.0 == ErrorKind::Driver,
            },
    {
        match atom_of(&self) {
            Some(v) => match Writes::decode(v) {
                Some(w) => Ok(w),
                None => Err(driver_error("expected a summary of writes")),
            },
            None => Err(driver_error("expected an atom holding a summary of writes")),
        }
    }

    /// The raw payload of this response.
    pub fn into_value(self) -> (r: Datum)
        ensures
            r@ == self@.values,
    {
        self.values
    }
}

/// The counter `key` of an object.
fn count_field(v: &Datum, key: &str) -> (r: Option<u64>)
    ensures
        match r {
            Some(n) => count_of(v@, key@) == Some(n as int),
            None => count_of(v@, key@) is None,
        },
{
    match v.find(&key.to_owned()) {
        None => Some(0),
        Some(Datum::Null) => Some(0),
        Some(Datum::UInt(n)) => Some(*n),
        Some(Datum::Int(n)) => if *n >= 0 {
            Some(*n as u64)
        } else {
            None
        },
        _ => None,
    }
}

/// The list of strings `key` of an object.
fn keys_field(v: &Datum, key: &str) -> (r: Option<Vec<String>>)
    ensures
        match r {
            Some(l) => keys_of(v@, key@) == Some(names(l@)),
            None => keys_of(v@, key@) is None,
        },
{
    match v.find(&key.to_owned()) {
        None => {
            let out: Vec<String> = Vec::new();
            assert(names(out@) =~= Seq::empty());
            Some(out)
        },
        Some(Datum::Null) => {
            let out: Vec<String> = Vec::new();
            assert(names(out@) =~= Seq::empty());
            Some(out)
        },
        Some(Datum::Array(items)) => strings_from(items),
        _ => None,
    }
}

/// The optional string `key` of an object.
fn text_field(v: &Datum, key: &str) -> (r: Option<Option<String>>)
    ensures
        match r {
            Some(Some(s)) => text_of(v@, key@) == Some(Some(s@)),
            Some(None) => text_of(v@, key@) == Some(None::<Seq<char>>),
            None => text_of(v@, key@) is None,
        },
{
    match v.find(&key.to_owned()) {
        None => Some(None),
        Some(Datum::Null) => Some(None),
        Some(Datum::Str(s)) => Some(Some(s.clone())),
        _ => None,
    }
}

impl Writes {
    /// The summary of writes that an object holds: absent or null counters
    /// are zero, and absent or null keys are an empty list.
    pub fn decode(v: &Datum) -> (r: Option<Writes>)
        ensures
            match decode_writes(v@) {
                Some(w) => r matches Some(x) && x@ == w,
                None => r is None,
            },
    {
        match v {
            Datum::Object(_) => {},
            _ => {
                return None;
            },
        }
        let deleted = match count_field(v, "deleted") {
            Some(n) => n,
            None => {
                return None;
            },
        };
        let errors = match count_field(v, "errors") {
            Some(n) => n,
            None => {
                return None;
            },
        };
        let inserted = match count_field(v, "inserted") {
            Some(n) => n,
            None => {
                return None;
            },
        };
        let replaced = match count_field(v, "replaced") {
            Some(n) => n,
            None => {
                return None;
            },
        };
        let skipped = match count_field(v, "skipped") {
            Some(n) => n,
            None => {
                return None;
            },
        };
        let unchanged = match count_field(v, "unchanged") {
            Some(n) => n,
            None => {
                return None;
            },
        };
        let generated_keys = match keys_field(v, "generated_keys") {
            Some(l) => l,
            None => {
                return None;
            },
        };
        let first_error = match text_field(v, "first_error") {
            Some(t) => t,
            None => {
                return None;
            },
        };
        Some(
            Writes {
                deleted,
                errors,
                inserted,
                replaced,
                skipped,
                unchanged,
                generated_keys,
                first_error,
            },
        )
    }
}

/// A typed result of a query.
#[derive(Debug)]
pub enum QueryResult {
    Nothing,
    Value(Datum),
    Strings(Vec<String>),
    Writes(Writes),
    Documents(Cursor),
}

/// `r` is the typed result of shape `shape` of the response `res` to the
/// query with `token`.
pub open spec fn result_of(
    shape: ResultShape,
    res: ResponseModel,
    token: nat,
    r: Result<QueryResult, Error>,
) -> bool {
    match shape {
        ResultShape::Nothing => r matches Ok(QueryResult::Nothing),
        ResultShape::Value => r matches Ok(QueryResult::Value(d)) && d@ == res.values,
        ResultShape::Strings => match string_list(res) {
            Some(l) => r matches Ok(QueryResult::Strings(v)) && names(v@) == l,
            None => r matches Err(e) && e@ == (ErrorKind::Driver, strings_error(res)),
        },
        ResultShape::Writes => match writes_of(res) {
            Some(w) => r matches Ok(QueryResult::Writes(x)) && x@ == w,
            None => r matches Err(e) && e@.0 == ErrorKind::Driver,
        },
        ResultShape::Documents => match cursor_of(res, token) {
            Some(c) => r matches Ok(QueryResult::Documents(x)) && x@ == c,
            None => r matches Err(e) && e@.0 == ErrorKind::Driver,
        },
    }
}

/// Turns the response to the query with `token` into the typed result
/// that `shape` asks for.
pub fn from_response(shape: ResultShape, res: Response, token: u64) -> (r: Result<
    QueryResult,
    Error,
>)
    ensures
        result_of(shape, res@, token as nat, r),
{
    match shape {
        ResultShape::Nothing => Ok(QueryResult::Nothing),
        ResultShape::Value => Ok(QueryResult::Value(res.into_value())),
        ResultShape::Strings => match res.into_strings() {
            Ok(v) => Ok(QueryResult::Strings(v)),
            Err(e) => Err(e),
        },
        ResultShape::Writes => match res.into_writes() {
            Ok(w) => Ok(QueryResult::Writes(w)),
            Err(e) => Err(e),
        },
        ResultShape::Documents => match Cursor::from_response(res, token) {
            Ok(c) => Ok(QueryResult::Documents(c)),
            Err(e) => Err(e),
        },
    }
}

} // verus!
