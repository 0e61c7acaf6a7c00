//! The one error type of the client.
use vstd::prelude::*;

verus! {

/// Every failure that an operation of the client can report.
#[derive(Debug, PartialEq)]
pub enum Error {
    /// The caller broke a rule of the API.
    Misuse(Misuse),
    /// A response did not have the shape that the protocol prescribes.
    Decode(DecodeError),
    /// The database rejected a statement; the text is its message.
    Statement(String),
    /// The transport could not deliver a request or its response.
    Transport(String),
}

/// The ways in which a caller can misuse the client.
#[derive(Debug, PartialEq)]
pub enum Misuse {
    /// A row was indexed past its last cell.
    IndexOutOfBounds { index: usize },
    /// A row has no column of this name.
    NoSuchColumn { name: String },
    /// No live session belongs to this transaction id: it was never opened,
    /// or it has been committed or rolled back.
    NoSuchSession { tx_id: u64 },
    /// Every transaction id has been handed out.
    TransactionIdsExhausted,
    /// The configuration of a client is missing or unusable.
    BadConfig { reason: String },
    /// No backend serves URLs of this scheme.
    UnknownScheme { scheme: String },
}

/// The ways in which a response can fail to decode. Positions are 0-based.
#[derive(Debug, PartialEq)]
pub enum DecodeError {
    /// The body of a response is not a message of the protocol.
    Malformed { reason: String },
    /// The response is not a JSON array.
    NotAnArray,
    /// The response holds a different number of results than statements were sent.
    ResultCount { expected: usize, actual: usize },
    /// A result is neither an `error` object with a `message` string nor a
    /// `results` object with `columns` and `rows` arrays.
    ResultShape { result: usize },
    /// A column name is not a string.
    Column { result: usize, column: usize },
    /// A row is not an array as long as the column list.
    Row { result: usize, row: usize },
    /// A cell is not a value that the protocol can carry.
    Cell { result: usize, row: usize, cell: usize },
    /// A step of a batch has neither a result nor an error.
    MissingResult { step: usize },
    /// A pipeline response holds no result, or more than were asked for.
    ResponseCount { actual: usize },
    /// A pipeline response holds a result of another kind than was asked for.
    UnexpectedResponse,
    /// The server handed back no baton, so the stream of the transaction is gone.
    MissingBaton,
}

} // verus!
