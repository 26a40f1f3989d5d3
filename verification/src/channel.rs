//! The outbound channel boundary.
//!
//! The relay owns a sending endpoint of a cross-process channel and
//! needs exactly one thing from it: a best-effort, non-blocking,
//! one-way send of a framed command. The endpoint type and the send
//! call are the relay's only trusted boundary; everything the relay
//! promises about *which* frames are handed to it is proved elsewhere.

use vstd::prelude::*;
use ipc_channel::ipc::IpcSender;

verus! {

/// Declares `ipc_channel`'s sending endpoint so that it can stand in
/// fields and signatures. The value is opaque here: the relay never
/// looks inside it, it only hands frames to it.
#[verifier::external_type_specification]
#[verifier::external_body]
#[verifier::reject_recursive_types(T)]
pub struct ExIpcSender<T>(IpcSender<T>);

/// Relies on `ipc_channel::ipc::IpcSender::send`: it serializes the
/// value and hands it to the OS transport, returning `Err` only when
/// the transport refuses it (for instance, the remote end is gone).
/// Delivery is fire and forget, so the result is deliberately dropped
/// here: a failed send is swallowed and never surfaced to the caller,
/// and nothing is promised about what the remote side observes.
#[verifier::external_body]
pub(crate) fn send_frame(sender: &IpcSender<Vec<u8>>, frame: Vec<u8>) {
    let _ = sender.send(frame);
}

} // verus!
