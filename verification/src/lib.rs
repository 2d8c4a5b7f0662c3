//! A verified core for a small home-automation network bridge.
//!
//! The bridge authenticates against a cloud provider, discovers the user's
//! registered locations, fetches a diagnostic state snapshot, and then opens a
//! persistent realtime event channel, emitting each event as it arrives.  A
//! liveness route answers orchestration probes, and the process terminates as
//! soon as any one of its concurrent units exits.
//!
//! This crate holds the decision logic of that bridge: response decoding,
//! request preparation, the failure-signal protocol of the realtime event
//! bridge, the pipeline state machine, the liveness route, and the supervisor's
//! first-exit-wins composition.  The surrounding I/O (HTTP calls, the realtime
//! transport, signal handling) lives outside the verified core and drives it
//! with plain values.

pub mod auth;
pub mod errors;
pub mod locations;
pub mod pipeline;
pub mod probe;
pub mod signal;
pub mod supervisor;
pub mod state;
pub mod stream;
