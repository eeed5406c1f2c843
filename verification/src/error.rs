//! The kinds of failure the client reports.

use vstd::prelude::*;

verus! {

/// Why a connection could not be established.
#[derive(Clone, Copy, Debug, PartialEq, Eq, Structural)]
pub enum ConnectFailure {
    /// The transport could not be established.
    Transport,
    /// The server rejected the handshake.
    AuthRejected,
}

/// The half of the shutdown handshake that failed.
#[derive(Clone, Copy, Debug, PartialEq, Eq, Structural)]
pub enum ShutdownStage {
    /// Asking the connection to close.
    Close,
    /// Waiting for the connection driver to stop.
    Drain,
}

/// What is malformed about one tabular result.
#[derive(Clone, Copy, Debug, PartialEq, Eq, Structural)]
pub enum ResultFault {
    /// The column at this position has no name.
    MissingColumnName { column: usize },
    /// The row at this position holds `found` values where the result has
    /// `expected` columns.
    RowWidth { row: usize, expected: usize, found: usize },
}

/// A reply that cannot be decoded into query results.
#[derive(Clone, Copy, Debug, PartialEq, Eq, Structural)]
pub enum DecodeError {
    /// The reply does not hold one result slot and one error slot per
    /// statement of the batch.
    OutcomeCount { expected: usize, results: usize, errors: usize },
    /// The tabular result of the step at this position is malformed.
    Step { step: usize, fault: ResultFault },
}

/// A failure of a call on the client as a whole.
#[derive(Clone, Debug, PartialEq, Eq)]
pub enum ClientError {
    /// The connection could not be established.
    Connection { kind: ConnectFailure, message: String },
    /// The call came after shutdown had begun, or after the connection
    /// driver had stopped.
    ConnectionClosed,
    /// The call came before the client was connected.
    InvalidState,
    /// I/O failed while a call was in flight. Nothing is known about any
    /// statement of the call.
    Transport { message: String },
    /// The reply to a call was malformed.
    Decode(DecodeError),
    /// One half of the shutdown handshake failed.
    Shutdown { stage: ShutdownStage, message: String },
}

} // verus!
