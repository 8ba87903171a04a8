//! Decoding the response envelope `{"t": type, "r": result}`.
use crate::datum::{member, Datum, Value};
use crate::errors::{Error, ErrorKind};
use crate::json::{encode, json_text};
use vstd::prelude::*;
use vstd::string::*;

verus! {

/// The kind of a successful response.
#[derive(Clone, Copy, Debug, PartialEq, Eq, Structural)]
pub enum ResponseKind {
    /// A single value, wrapped in a one-element array.
    Atom,
    /// A complete list of values.
    Sequence,
    /// One chunk of a list; more chunks follow on request.
    Partial,
}

/// A successful response: its kind and its payload.
#[derive(Debug)]
pub struct Response {
    pub kind: ResponseKind,
    pub values: Datum,
}

/// The mathematical value of a `Response`.
pub struct ResponseModel {
    pub kind: ResponseKind,
    pub values: Value,
}

impl Response {
    pub open spec fn view(&self) -> ResponseModel {
        ResponseModel { kind: self.kind, values: self.values@ }
    }
}

/// What an envelope decodes to.
pub enum Outcome {
    /// A successful response.
    Success(ResponseKind, Value),
    /// An error that the server reports, with its message.
    Failure(ErrorKind, Seq<char>),
    /// A server error whose result is not a single message string.
    NoMessage(Value),
    /// A response type that the protocol does not define.
    Unrecognized(int),
    /// An envelope that breaks the protocol.
    Malformed,
}

/// The decimal digits of `n`.
pub open spec fn digits(n: nat) -> Seq<char>
    decreases n,
{
    if n < 10 {
        seq![(n + 48) as char]
    } else {
        digits(n / 10).push((n % 10 + 48) as char)
    }
}

/// The decimal text of `n`, with a minus sign where it is negative.
pub open spec fn decimal(n: int) -> Seq<char> {
    if n < 0 {
        seq!['-'] + digits((-n) as nat)
    } else {
        digits(n as nat)
    }
}

/// The detail of the protocol error for a server error without a message.
pub open spec fn no_message_text(r: Value) -> Seq<char> {
    "couldn't find error message in "@ + json_text(r)
}

/// The detail of the protocol error for the response type `t`.
pub open spec fn unrecognized_message(t: int) -> Seq<char> {
    "unrecognized error number: "@ + decimal(t)
}

/// Relies on `ToString` for `i64`, which writes the number in decimal, with
/// a leading minus sign where it is negative.
#[verifier::external_body]
fn decimal_text(n: i64) -> (r: String)
    ensures
        r@ == decimal(n as int),
{
    n.to_string()
}

/// The message of a server error: the single string of a one-element array.
pub open spec fn error_message(r: Value) -> Option<Seq<char>> {
    match r {
        Value::Array(items) => if items.len() == 1 {
            match items[0] {
                Value::Str(m) => Some(m),
                _ => None,
            }
        } else {
            None
        },
        _ => None,
    }
}

/// What the response type `t` with the result `r` decodes to.
pub open spec fn coded_outcome(t: int, r: Value) -> Outcome {
    if t == 1 {
        Outcome::Success(ResponseKind::Atom, r)
    } else if t == 2 {
        Outcome::Success(ResponseKind::Sequence, r)
    } else if t == 3 {
        Outcome::Success(ResponseKind::Partial, r)
    } else if t == 16 || t == 17 || t == 18 {
        match error_message(r) {
            Some(m) => Outcome::Failure(
                if t == 16 {
                    ErrorKind::Client
                } else if t == 17 {
                    ErrorKind::Compile
                } else {
                    ErrorKind::Runtime
                },
                m,
            ),
            None => Outcome::NoMessage(r),
        }
    } else {
        Outcome::Unrecognized(t)
    }
}

/// What an envelope decodes to: it must be an object with an integer `t`
/// and a member `r`.
pub open spec fn outcome(v: Value) -> Outcome {
    match (member(v, "t"@), member(v, "r"@)) {
        (Some(Value::Num(t)), Some(r)) => if i64::MIN <= t <= i64::MAX {
            coded_outcome(t, r)
        } else {
            Outcome::Malformed
        },
        _ => Outcome::Malformed,
    }
}

/// `r` is the result of decoding an envelope whose outcome is `o`.
pub open spec fn decodes_as(r: Result<Response, Error>, o: Outcome) -> bool {
    match o {
        Outcome::Success(kind, values) => r matches Ok(res) && res@ == (ResponseModel {
            kind,
            values,
        }),
        Outcome::Failure(kind, m) => r matches Err(e) && e@ == (kind, m),
        Outcome::NoMessage(res) => r matches Err(e) && e@ == (
            ErrorKind::Protocol,
            no_message_text(res),
        ),
        Outcome::Unrecognized(t) => r matches Err(e) && e@ == (
            ErrorKind::Protocol,
            unrecognized_message(t),
        ),
        Outcome::Malformed => r matches Err(e) && e@.0 == ErrorKind::Protocol,
    }
}

fn protocol_error(prefix: &str, v: &Datum) -> (r: Error)
    ensures
        r@ == (ErrorKind::Protocol, prefix@ + json_text(v@)),
{
    let text = encode(v);
    let msg = prefix.to_owned().concat(text.as_str());
    Error::ProtocolError(msg)
}

/// The integer that a datum holds, where it holds one.
fn small_int(d: &Datum) -> (r: Option<i64>)
    ensures
        match r {
            Some(n) => d@ == Value::Num(n as int),
            None => !(d@ is Num) || (d@ matches Value::Num(n) && n > i64::MAX),
        },
{
    match d {
        Datum::Int(n) => Some(*n),
        Datum::UInt(n) => if *n <= i64::MAX as u64 {
            Some(*n as i64)
        } else {
            None
        },
        _ => None,
    }
}

impl Error {
    /// The error that the server reports with type `code` and result `res`.
    pub fn from_code_res(code: i64, res: &Datum) -> (r: Error)
        ensures
            match coded_outcome(code as int, res@) {
                Outcome::Failure(kind, m) => r@ == (kind, m),
                Outcome::NoMessage(v) => r@ == (ErrorKind::Protocol, no_message_text(v)),
                _ => r@.0 == ErrorKind::Protocol,
            },
            !(code == 16 || code == 17 || code == 18) ==> r@ == (
                ErrorKind::Protocol,
                unrecognized_message(code as int),
            ),
    {
        if !(code == 16 || code == 17 || code == 18) {
            let msg = "unrecognized error number: ".to_owned().concat(decimal_text(code).as_str());
            return Error::ProtocolError(msg);
        }
        let msg = match res {
            Datum::Array(items) => if items.len() == 1 {
                match &items[0] {
                    Datum::Str(m) => Some(m.clone()),
                    _ => None,
                }
            } else {
                None
            },
            _ => None,
        };
        proof {
            crate::datum::lemma_view_items(match res {
                Datum::Array(items) => items@,
                _ => Seq::empty(),
            });
        }
        match msg {
            Some(m) => if code == 16 {
                Error::ClientError(m)
            } else if code == 17 {
                Error::CompileError(m)
            } else {
                Error::RuntimeError(m)
            },
            None => protocol_error("couldn't find error message in ", res),
        }
    }
}

impl Response {
    /// Decodes a response envelope: a success, an error that the server
    /// reports, or a protocol error.
    pub fn from_json(json: Datum) -> (r: Result<Response, Error>)
        ensures
            decodes_as(r, outcome(json@)),
    {
        let t_key = "t".to_owned();
        let r_key = "r".to_owned();
        let t = match json.find(&t_key) {
            Some(d) => small_int(d),
            None => None,
        };
        let found_r = json.find(&r_key).is_some();
        match t {
            Some(code) => if found_r {
                if code == 1 || code == 2 || code == 3 {
                    let values = match json.find(&r_key) {
                        Some(d) => d.deep_copy(),
                        None => Datum::Null,
                    };
                    let kind = if code == 1 {
                        ResponseKind::Atom
                    } else if code == 2 {
                        ResponseKind::Sequence
                    } else {
                        ResponseKind::Partial
                    };
                    Ok(Response { kind, values })
                } else {
                    match json.find(&r_key) {
                        Some(res) => Err(Error::from_code_res(code, res)),
                        None => Err(protocol_error("couldn't unpack response: ", &json)),
                    }
                }
            } else {
                Err(protocol_error("couldn't unpack response: ", &json))
            },
            None => Err(protocol_error("couldn't unpack response: ", &json)),
        }
    }
}

} // verus!
