//! The connection: its state, its default database, its request tokens,
//! and the frames it sends.
use crate::datum::{lemma_view_items, view_items, view_pairs, Datum, Value};
use crate::errors::{Error, ErrorKind};
use crate::json::{encode, json_parse, json_text};
use crate::query::Query;
use crate::response::{decodes_as, outcome, Response};
use crate::screen::{reader_safe, reader_safe_check};
use crate::term::{term_value, TermModel};
use crate::wire::{
    frame, handshake, handshake_bytes, query_frame, read_to_null, reply_text, success_reply,
    until_null, MAX_PAYLOAD,
};
use vstd::prelude::*;

verus! {

/// The query type that starts a query.
pub const START: i64 = 1;

/// The query type that asks for the next chunk of a partial result.
pub const CONTINUE: i64 = 2;

/// Where a connection stands.
#[derive(Clone, Copy, Debug, PartialEq, Eq, Structural)]
pub enum ConnState {
    /// The handshake was sent; the reply is awaited.
    Handshaking,
    /// Queries may run.
    Ready,
    /// The handshake or the transport failed; the connection is done.
    Disconnected,
}

/// A connection to the server, without its transport.
#[derive(Debug)]
pub struct Connection {
    state: ConnState,
    db: Option<String>,
    token: u64,
}

/// The mathematical value of a `Connection`.
pub struct ConnectionModel {
    pub state: ConnState,
    pub db: Option<Seq<char>>,
    pub token: nat,
}

/// The global options of a query: the default database, where one is set.
pub open spec fn options_value(db: Option<Seq<char>>) -> Value {
    match db {
        Some(name) => Value::Object(
            seq![
                (
                    "db"@,
                    term_value(
                        TermModel {
                            op: 14,
                            previous: None,
                            args: seq![Value::Str(name)],
                            named: None,
                        },
                    ),
                ),
            ],
        ),
        None => Value::Object(Seq::empty()),
    }
}

/// The envelope that starts a query: `[1, term, global options]`.
pub open spec fn start_envelope(t: TermModel, db: Option<Seq<char>>) -> Value {
    Value::Array(seq![Value::Num(START as int), term_value(t), options_value(db)])
}

/// The envelope that asks for the next chunk: `[2]`.
pub open spec fn continue_envelope() -> Value {
    Value::Array(seq![Value::Num(CONTINUE as int)])
}

/// The payload bytes of an envelope.
pub open spec fn payload_of(v: Value) -> Seq<u8> {
    vstd::utf8::encode_utf8(json_text(v))
}

/// A connection in state `c` can send a query with `payload`: it is ready,
/// the payload fits in a frame, and a token is left.
pub open spec fn can_send(c: ConnectionModel, payload: Seq<u8>) -> bool {
    &&& c.state == ConnState::Ready
    &&& payload.len() <= MAX_PAYLOAD
    &&& c.token < u64::MAX
}

impl Connection {
    pub closed spec fn view(&self) -> ConnectionModel {
        ConnectionModel {
            state: self.state,
            db: match self.db {
                Some(s) => Some(s@),
                None => None,
            },
            token: self.token as nat,
        }
    }

    /// A connection whose handshake is about to be sent: no default
    /// database, and the first token zero.
    pub fn new() -> (r: Connection)
        ensures
            r@ == (ConnectionModel { state: ConnState::Handshaking, db: None, token: 0 }),
    {
        Connection { state: ConnState::Handshaking, db: None, token: 0 }
    }

    /// Where this connection stands.
    pub fn state(&self) -> (r: ConnState)
        ensures
            r == self@.state,
    {
        self.state
    }

    /// The token that the next query will carry.
    pub fn next_token(&self) -> (r: u64)
        ensures
            r == self@.token,
    {
        self.token
    }

    /// The handshake to send: version magic, a zero key length, protocol
    /// magic, each four bytes little-endian.
    pub fn write_handshake(&self) -> (r: Vec<u8>)
        ensures
            r@ == handshake_bytes(),
    {
        handshake()
    }

    /// The bytes of `buf` before its first zero byte, where it holds one.
    pub fn read_to_null(buf: &[u8]) -> (r: Option<Vec<u8>>)
        ensures
            match r {
                Some(v) => until_null(buf@) == Some(v@),
                None => until_null(buf@) is None,
            },
    {
        read_to_null(buf)
    }

    /// Takes in the bytes the server sent after the handshake. The
    /// connection is ready where they are `SUCCESS` up to a zero byte; any
    /// other reply is a protocol error, and the connection is done.
    pub fn read_handshake_reply(&mut self, received: &[u8]) -> (r: Result<(), Error>)
        ensures
            final(self)@.db == old(self)@.db,
            final(self)@.token == old(self)@.token,
            old(self)@.state != ConnState::Handshaking ==> (r matches Err(e) && e@.0
                == ErrorKind::Driver && final(self)@ == old(self)@),
            old(self)@.state == ConnState::Handshaking ==> {
                if until_null(received@) == Some(success_reply()) {
                    r is Ok && final(self)@.state == ConnState::Ready
                } else if until_null(received@) is Some && vstd::utf8::valid_utf8(
                    until_null(received@)->0,
                ) {
                    (r matches Err(e) && e@ == (
                        ErrorKind::Protocol,
                        vstd::utf8::decode_utf8(until_null(received@)->0),
                    )) && final(self)@.state == ConnState::Disconnected
                } else {
                    (r matches Err(e) && e@.0 == ErrorKind::Protocol) && final(self)@.state
                        == ConnState::Disconnected
                }
            },
    {
        if self.state != ConnState::Handshaking {
            return Err(Error::DriverError("no handshake is under way".to_owned()));
        }
        let expected: [u8; 7] = [0x53, 0x55, 0x43, 0x43, 0x45, 0x53, 0x53];
        assert(expected@ =~= success_reply());
        match read_to_null(received) {
            Some(reply) => {
                if crate::wire::bytes_equal(reply.as_slice(), expected.as_slice()) {
                    self.state = ConnState::Ready;
                    Ok(())
                } else {
                    self.state = ConnState::Disconnected;
                    Err(Error::ProtocolError(reply_text(reply.as_slice())))
                }
            },
            None => {
                self.state = ConnState::Disconnected;
                Err(Error::ProtocolError("the handshake reply has no terminator".to_owned()))
            },
        }
    }

    /// Marks the connection as done, after its transport failed.
    pub fn disconnect(&mut self)
        ensures
            final(self)@ == (ConnectionModel { state: ConnState::Disconnected, ..old(self)@ }),
    {
        self.state = ConnState::Disconnected;
    }

    /// Sets the default database of the queries that follow.
    pub fn use_db(&mut self, name: &str)
        ensures
            final(self)@ == (ConnectionModel { db: Some(name@), ..old(self)@ }),
    {
        self.db = Some(name.to_owned());
    }

    /// The global options of the queries on this connection.
    pub fn global_options(&self) -> (r: Datum)
        ensures
            r@ == options_value(self@.db),
    {
        match &self.db {
            Some(name) => {
                let term = crate::query::db(name.as_str());
                let d = term.into_term().into_datum();
                let mut pairs: Vec<(String, Datum)> = Vec::new();
                pairs.push(("db".to_owned(), d));
                proof {
                    crate::datum::lemma_view_pairs(pairs@);
                    assert(view_pairs(pairs@) =~= seq![("db"@, d@)]);
                }
                Datum::Object(pairs)
            },
            None => {
                let pairs: Vec<(String, Datum)> = Vec::new();
                proof {
                    crate::datum::lemma_view_pairs(pairs@);
                    assert(view_pairs(pairs@) =~= Seq::empty());
                }
                Datum::Object(pairs)
            },
        }
    }

    /// Frames `query` with the next token, and moves the token on. Fails
    /// where the connection is not ready, where the payload is longer than
    /// a frame can say, or where the tokens are spent.
    pub fn execute_raw(&mut self, query: &[u8]) -> (r: Result<Vec<u8>, Error>)
        ensures
            can_send(old(self)@, query@) ==> (r matches Ok(f) && f@ == query_frame(
                old(self)@.token,
                query@,
            )),
            can_send(old(self)@, query@) ==> final(self)@ == (ConnectionModel {
                token: old(self)@.token + 1,
                ..old(self)@
            }),
            !can_send(old(self)@, query@) ==> (r matches Err(e) && e@.0 == ErrorKind::Driver),
            !can_send(old(self)@, query@) ==> final(self)@ == old(self)@,
    {
        if self.state != ConnState::Ready {
            return Err(Error::DriverError("the connection is not ready".to_owned()));
        }
        if query.len() > MAX_PAYLOAD {
            return Err(Error::DriverError("the query is too long for a frame".to_owned()));
        }
        if self.token == u64::MAX {
            return Err(Error::DriverError("the connection has used all its tokens".to_owned()));
        }
        let token = self.token;
        self.token = self.token + 1;
        Ok(frame(token, query))
    }

    /// The frame that starts `query`, and the token it carries.
    pub fn start_query(&mut self, query: &Query) -> (r: Result<(u64, Vec<u8>), Error>)
        ensures
            ({
                let payload = payload_of(start_envelope(query@.term, old(self)@.db));
                &&& can_send(old(self)@, payload) ==> (r matches Ok((t, f)) && t == old(self)@.token
                    && f@ == query_frame(t as nat, payload))
                &&& can_send(old(self)@, payload) ==> final(self)@ == (ConnectionModel {
                    token: old(self)@.token + 1,
                    ..old(self)@
                })
                &&& !can_send(old(self)@, payload) ==> (r matches Err(e) && e@.0
                    == ErrorKind::Driver)
                &&& !can_send(old(self)@, payload) ==> final(self)@ == old(self)@
            }),
    {
        let mut items: Vec<Datum> = Vec::new();
        items.push(Datum::Int(START));
        items.push(query.term().to_datum());
        items.push(self.global_options());
        proof {
            lemma_view_items(items@);
            assert(view_items(items@) =~= seq![items@[0]@, items@[1]@, items@[2]@]);
        }
        let envelope = Datum::Array(items);
        let text = encode(&envelope);
        let token = self.token;
        match self.execute_raw(text.as_str().as_bytes()) {
            Ok(f) => Ok((token, f)),
            Err(e) => Err(e),
        }
    }

    /// The frame that asks for the next chunk of the partial result of the
    /// query with `token`. It carries that token; the connection's own
    /// token does not move.
    pub fn continue_query(&self, token: u64) -> (r: Result<Vec<u8>, Error>)
        ensures
            ({
                let payload = payload_of(continue_envelope());
                &&& self@.state == ConnState::Ready && payload.len() <= MAX_PAYLOAD ==> (r matches Ok(
                    f,
                ) && f@ == query_frame(token as nat, payload))
                &&& !(self@.state == ConnState::Ready && payload.len() <= MAX_PAYLOAD) ==> (r matches Err(
                    e,
                ) && e@.0 == ErrorKind::Driver)
            }),
    {
        if self.state != ConnState::Ready {
            return Err(Error::DriverError("the connection is not ready".to_owned()));
        }
        let mut items: Vec<Datum> = Vec::new();
        items.push(Datum::Int(CONTINUE));
        proof {
            lemma_view_items(items@);
            assert(view_items(items@) =~= seq![items@[0]@]);
        }
        let text = encode(&Datum::Array(items));
        let bytes = text.as_str().as_bytes();
        if bytes.len() > MAX_PAYLOAD {
            return Err(Error::DriverError("the query is too long for a frame".to_owned()));
        }
        Ok(frame(token, bytes))
    }
}

/// Decodes the payload of a response frame.
///
/// Bytes that the JSON reader could not take without overflowing its
/// counters (see `reader_safe`) are refused as a JSON error.
pub fn decode_response(bytes: &[u8]) -> (r: Result<Response, Error>)
    ensures
        !reader_safe(bytes@) ==> (r matches Err(e) && e@.0 == ErrorKind::JsonParse),
        reader_safe(bytes@) ==> match json_parse(bytes@) {
            Some(v) => decodes_as(r, outcome(v)),
            None => r matches Err(e) && e@.0 == ErrorKind::JsonParse,
        },
{
    if !reader_safe_check(bytes) {
        return Err(
            Error::JsonParseError(
                "the response nests too deep, has over-long keys or exponents, or ends an object with a comma".to_owned(),
            ),
        );
    }
    match crate::json::parse(bytes) {
        Some(d) => Response::from_json(d),
        None => Err(Error::JsonParseError(reply_text(bytes))),
    }
}

} // verus!
