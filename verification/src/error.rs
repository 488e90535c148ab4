//! Failures reported by the stream engine.

use vstd::prelude::*;

verus! {

/// Why an operation on a stream did not succeed.
#[derive(Clone, Copy, Debug, PartialEq, Eq, Structural)]
pub enum Error {
    /// Fewer bytes are buffered than the read needs. Nothing was consumed;
    /// the call can be repeated after more bytes have been appended.
    BufferTooShort,
    /// A setter was called while the stream was not in the state that
    /// expects it. This points at a mistake in the caller, not in the peer.
    InternalError,
    /// A control stream carried another frame before its SETTINGS frame.
    MissingSettings,
    /// A frame that the stream's role or history does not admit.
    UnexpectedFrame,
}

impl Error {
    /// True for the one failure that is cured by waiting for more bytes.
    pub open spec fn is_retryable(self) -> bool {
        self == Error::BufferTooShort
    }

    /// Tells whether the failed call is worth repeating once more bytes
    /// have arrived. Every other failure is final for the stream.
    pub fn should_retry(&self) -> (r: bool)
        ensures
            r == self.is_retryable(),
    {
        match self {
            Error::BufferTooShort => true,
            _ => false,
        }
    }
}

} // verus!
