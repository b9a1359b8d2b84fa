//! The foreign-visible error taxonomy.
//!
//! Marshalling itself can fail in exactly two ways: a required pointer was
//! null, or a byte string failed UTF-8 validation.  Everything else that
//! crosses the boundary wrapped in a domain error is relayed untouched:
//! the layer does not interpret those payloads, it only tags them so that
//! the error-reporting channel can assign a stable numeric code.

use vstd::prelude::*;

verus! {

/// An opaque protocol-domain error payload, relayed unchanged.  The
/// marshalling layer never reads the code; it belongs to the
/// error-reporting channel.
#[derive(Clone, Copy, Debug, PartialEq, Eq, Structural)]
pub struct ProtocolError {
    pub code: u32,
}

/// An opaque cipher-domain error payload, relayed unchanged.
#[derive(Clone, Copy, Debug, PartialEq, Eq, Structural)]
pub struct CipherError {
    pub code: u32,
}

/// Every failure a marshalled call can report to the foreign caller.
#[derive(Clone, Copy, Debug, PartialEq, Eq, Structural)]
pub enum FfiError {
    /// A required pointer argument or output slot was null.
    NullPointer,
    /// A byte sequence handed in as text was not valid UTF-8.
    InvalidUtf8String,
    /// A protocol-level failure, forwarded without interpretation.
    Protocol(ProtocolError),
    /// A cipher-level failure, forwarded without interpretation.
    Cipher(CipherError),
}

} // verus!
