//! A mock input device control relay.
//!
//! A proxy handle, addressable by a stable identifier, turns high-level
//! "set pose" commands from a test script into tagged wire messages and
//! delivers them, best effort and one way, across a process boundary to a
//! simulated hardware-input host.

pub mod transform;
pub mod protocol;
pub mod wire;
pub mod channel;
pub mod handle;
