//! The failure taxonomy of one connection attempt.

use vstd::prelude::*;

verus! {

/// Exactly one error value reaches the caller, naming the stage that failed.
///
/// The order of the variants follows the stage order of an attempt: the first
/// two arise before any I/O, the last three only after a transport channel
/// exists or was being established.
#[derive(Clone, Copy, Debug, PartialEq, Eq, Structural)]
pub enum ConnectError {
    /// The caller's input could not be turned into a request descriptor
    /// (malformed URL, missing host).
    RequestConstruction,
    /// The scheme is absent or unrecognized and no explicit port was given,
    /// so no port can be derived.
    UnsupportedScheme,
    /// The transport dial failed, or the post-connect tuning failed.
    Transport,
    /// Encryption negotiation or certificate validation failed.
    SecureChannel,
    /// The protocol upgrade was rejected or malformed.
    Handshake,
}

} // verus!
