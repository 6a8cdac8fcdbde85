//! Core logic of a per-connection session relay: it bridges one
//! client-facing duplex message connection to one upstream real-time
//! speech session, translating frames in both directions and driving
//! the upstream session through a strict setup/teardown protocol.
//!
//! This crate holds the decisions: the lifecycle state machine, the
//! classification of upstream events, the wrapping and wire encoding of
//! outbound messages, the inbound control protocol, and the prompt
//! selection.  The hosting binary performs the actual I/O and feeds the
//! outcomes back into these functions.

pub mod events;
pub mod inbound;
pub mod outbound;
pub mod prompt;
pub mod session;
