//! Connection establishment for a WebSocket client.
//!
//! Given a request descriptor (scheme, host, optional port, headers), the
//! library resolves the target endpoint, decides how to dial it, and steers
//! one connection attempt through its stages: normalize, resolve, dial,
//! optional transport tuning, then the combined secure-channel upgrade and
//! protocol handshake. The dialing and handshaking themselves are I/O and are
//! carried out by the caller; the library makes every decision and states
//! exactly which action follows each outcome.

pub mod attempt;
pub mod error;
pub mod request;
pub mod resolve;
