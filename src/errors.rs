//! The errors of the driver.
use vstd::prelude::*;

verus! {

/// The category of an error.
#[derive(Clone, Copy, Debug, PartialEq, Eq, Structural)]
pub enum ErrorKind {
    Client,
    Compile,
    Runtime,
    Protocol,
    Driver,
    Io,
    JsonParse,
}

/// An error of the driver, with its detail.
#[derive(Debug)]
pub enum Error {
    /// The server found the query malformed.
    ClientError(String),
    /// The query failed to compile on the server.
    CompileError(String),
    /// The query failed while it ran on the server.
    RuntimeError(String),
    /// The server sent data that breaks the protocol.
    ProtocolError(String),
    /// A valid response did not have the shape that the caller asked for.
    DriverError(String),
    /// The transport failed.
    IoError(String),
    /// A response was not JSON text.
    JsonParseError(String),
}

/// A short description of each category of error.
pub open spec fn description_of(k: ErrorKind) -> Seq<char> {
    match k {
        ErrorKind::Client => "RethinkDB client error"@,
        ErrorKind::Compile => "RethinkDB compile error"@,
        ErrorKind::Runtime => "RethinkDB runtime error"@,
        ErrorKind::Protocol => "RethinkDB protocol error"@,
        ErrorKind::Driver => "RethinkDB driver error"@,
        ErrorKind::Io => "RethinkDB transport error"@,
        ErrorKind::JsonParse => "RethinkDB JSON error"@,
    }
}

impl Error {
    /// The category and the detail of this error.
    pub open spec fn view(&self) -> (ErrorKind, Seq<char>) {
        match self {
            Error::ClientError(m) => (ErrorKind::Client, m@),
            Error::CompileError(m) => (ErrorKind::Compile, m@),
            Error::RuntimeError(m) => (ErrorKind::Runtime, m@),
            Error::ProtocolError(m) => (ErrorKind::Protocol, m@),
            Error::DriverError(m) => (ErrorKind::Driver, m@),
            Error::IoError(m) => (ErrorKind::Io, m@),
            Error::JsonParseError(m) => (ErrorKind::JsonParse, m@),
        }
    }

    /// The category of this error.
    pub fn kind(&self) -> (r: ErrorKind)
        ensures
            r == self@.0,
    {
        match self {
            Error::ClientError(_) => ErrorKind::Client,
            Error::CompileError(_) => ErrorKind::Compile,
            Error::RuntimeError(_) => ErrorKind::Runtime,
            Error::ProtocolError(_) => ErrorKind::Protocol,
            Error::DriverError(_) => ErrorKind::Driver,
            Error::IoError(_) => ErrorKind::Io,
            Error::JsonParseError(_) => ErrorKind::JsonParse,
        }
    }

    /// A short description of this error's category.
    pub fn description(&self) -> (r: &'static str)
        ensures
            r@ == description_of(self@.0),
    {
        match self {
            Error::ClientError(_) => "RethinkDB client error",
            Error::CompileError(_) => "RethinkDB compile error",
            Error::RuntimeError(_) => "RethinkDB runtime error",
            Error::ProtocolError(_) => "RethinkDB protocol error",
            Error::DriverError(_) => "RethinkDB driver error",
            Error::IoError(_) => "RethinkDB transport error",
            Error::JsonParseError(_) => "RethinkDB JSON error",
        }
    }

    /// The detail of this error: the server's message for the errors that
    /// the server reports.
    pub fn detail(&self) -> (r: &String)
        ensures
            r@ == self@.1,
    {
        match self {
            Error::ClientError(m) => m,
            Error::CompileError(m) => m,
            Error::RuntimeError(m) => m,
            Error::ProtocolError(m) => m,
            Error::DriverError(m) => m,
            Error::IoError(m) => m,
            Error::JsonParseError(m) => m,
        }
    }
}

} // verus!
