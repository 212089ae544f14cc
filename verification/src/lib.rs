//! Verified core of a windowing-compositor client: the surface
//! configure/acknowledge/commit handshake, shared-memory pixel buffers with
//! release tracking, frame pacing, input-capability negotiation, and the
//! per-device aggregation of partial input events into atomic snapshots.
//!
//! The unverified shell around this library owns the transport: it delivers
//! decoded protocol messages to these state machines and performs the
//! side effects (acknowledge, attach, commit, request-frame) they return.

pub mod buffer;
pub mod painter;
pub mod seat;
pub mod surface;
pub mod text;
pub mod pointer;
pub mod touch;
pub mod keyboard;
