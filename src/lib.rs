//! A client driver for a document database: a query-term algebra that
//! serializes to the wire format, the connection framing and handshake,
//! and the decoding of responses into typed results and cursors.
//!
//! The library does no I/O of its own. It computes the bytes to send and
//! decides what the received bytes mean; the caller moves the bytes.
pub mod cursor;
pub mod datum;
pub mod errors;
pub mod from_response;
pub mod json;
pub mod net;
pub mod query;
pub mod response;
pub mod screen;
pub mod term;
pub mod wire;

pub use cursor::{Cursor, CursorState, Step};
pub use datum::Datum;
pub use errors::{Error, ErrorKind};
pub use from_response::{from_response, QueryResult, Writes};
pub use net::{decode_response, ConnState, Connection};
pub use query::{Query, ResultShape};
pub use response::{Response, ResponseKind};
pub use term::{FuncType, Term};
