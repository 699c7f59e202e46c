use vstd::prelude::*;

verus! {

/// Everything that can go wrong in the codec, the transaction engine or a
/// record stream.
#[derive(Debug, Clone, PartialEq, Eq)]
pub enum Error {
    /// The leading byte is not a marker of the kind being decoded.
    InvalidMarker(u8),
    /// A declared length runs past the input, or the payload is not valid
    /// for its kind (text that is not UTF-8).
    Malformed,
    /// The payload is longer than the largest length tier can announce.
    PayloadTooLarge,
    /// The transport could not reach the server.
    TransportError(String),
    /// The server refused a statement.
    StatementError(String),
    /// The server refused a transaction request, or the transaction has
    /// already ended.
    TransactionError(String),
    /// A record stream was pulled again after it reported its end.
    StreamExhausted,
}

} // verus!
