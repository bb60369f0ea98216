//! Verified core of a QUIC networking layer for the Bevy engine: identifiers,
//! disconnect reasons, the attempt state machine, and the decision logic of the
//! connection, stream and orchestrator tasks.
use vstd::prelude::*;

pub mod async_plugin;
pub mod common;

verus! {
} // verus!
