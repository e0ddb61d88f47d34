use vstd::prelude::*;

use crate::value::ValueKind;

verus! {

/// Why a column could not be read from a row.
#[derive(Debug, PartialEq, Eq, Structural)]
pub enum DecodeError {
    /// The column index is not below the row's width.
    ColumnOutOfRange { index: usize, width: usize },
    /// The column holds a value of another kind than the one asked for.
    KindMismatch { expected: ValueKind, found: ValueKind },
    /// Row `row` of a result does not have the result's width.
    RowWidth { row: usize, width: usize },
}

/// The errors that the client reports.
#[derive(Debug)]
pub enum ClientError {
    /// No contact point could be reached.
    NetworkUnreachable,
    /// The node speaks a protocol version that this client does not support.
    IncompatibleProtocol { version: u32 },
    /// The cluster rejected the credentials.
    Unauthorized,
    /// The server rejected a statement; it gave the message.
    Protocol { message: String },
    /// A parameter index is not below the statement's parameter count.
    BindIndexOutOfRange { index: usize, count: usize },
    /// A statement was executed while the parameter at this index was unbound.
    UnboundParameter { index: usize },
    /// A returned row could not be decoded.
    Decode(DecodeError),
    /// A closed session was used, or a resource was released twice.
    Resource,
}

impl ClientError {
    /// The message that the server gave, for an error that it reported.
    pub fn server_message(&self) -> (r: Option<&String>)
        ensures
            r is Some <==> self is Protocol,
            r is Some ==> *r->0 == self->Protocol_message,
    {
        match self {
            ClientError::Protocol { message } => Some(message),
            _ => None,
        }
    }
}

} // verus!
