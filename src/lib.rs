//! Fan-out core of a small chat server: validated messages, a bounded
//! broadcast hub with per-subscriber cursors, the per-subscriber push-stream
//! state machine, and the process-wide shutdown signal.
use vstd::prelude::*;

pub mod hub;
pub mod laws;
pub mod message;
pub mod server;
pub mod shutdown;
pub mod stream;

verus! {

} // verus!
