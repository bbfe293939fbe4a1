use vstd::prelude::*;

verus! {

/// Errors of the transport subsystem.
///
/// `NotEnoughData` is the one recoverable kind: the decoder has not yet seen a
/// whole message, and the caller should read more bytes and retry.  All other
/// kinds are fatal for the affected connection.
#[derive(Clone, Copy, Debug, PartialEq, Eq, Structural)]
pub enum IMError {
    /// The buffer does not yet hold the requested range; read more and retry.
    NotEnoughData,
    /// A message body exceeds the maximum length the wire format allows.
    ContentMaxLen,
    /// A decoded action code is none that the protocol defines.
    UnknownAction,
    /// The peer closed its end of the stream (a read returned zero bytes).
    TcpStreamEOF,
    /// A transport write missed its deadline.
    Timeout,
    /// Any other transport failure.
    Io,
}

} // verus!
