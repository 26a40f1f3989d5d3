//! The input proxy handle: one controllable mock input source.
//!
//! A handle binds an identifier to a sending endpoint of the outbound
//! channel. Each operation validates what it must, encodes one command
//! addressed to the handle's own source, frames it and hands it to the
//! channel. The handle's ghost model records the commands it has issued
//! in order, so the contracts can say exactly which commands each call
//! adds — and that a rejected pose adds none.

use vstd::prelude::*;
use ipc_channel::ipc::IpcSender;
use crate::channel::send_frame;
use crate::protocol::{Command, InputId, MethodCall, encode_call, spec_encode_call};
use crate::transform::{RawTransformInit, ValidationError, spec_validate, validate_transform};
use crate::wire::encode_command;

verus! {

/// The mathematical model of a handle: the identifier it is bound to
/// and the sequence of commands it has issued so far, oldest first.
pub ghost struct ProxyModel {
    pub id: InputId,
    pub sent: Seq<Command>,
}

/// Every command in `sent` addresses the source named `id`.
pub open spec fn addresses_only(sent: Seq<Command>, id: InputId) -> bool {
    forall|i: int| 0 <= i < sent.len() ==> (#[trigger] sent[i]).source() == id
}

/// Every command in `sent` is well formed (a carried transform is).
pub open spec fn all_wf(sent: Seq<Command>) -> bool {
    forall|i: int| 0 <= i < sent.len() ==> (#[trigger] sent[i]).wf()
}

/// One controllable mock input source, as a test script sees it: an
/// identifier and exclusive ownership of an outbound channel endpoint.
///
/// The interface is deliberately asymmetric: the grip origin can be set
/// and cleared, the pointer origin can only be set. No operation that
/// clears the pointer origin exists in the protocol this relay speaks,
/// and none is offered here.
pub struct InputProxyHandle {
    sender: IpcSender<Vec<u8>>,
    id: InputId,
    sent: Ghost<Seq<Command>>,
}

impl View for InputProxyHandle {
    type V = ProxyModel;

    closed spec fn view(&self) -> ProxyModel {
        ProxyModel { id: self.id, sent: self.sent@ }
    }
}

impl InputProxyHandle {
    /// A handle can never address another source's state, and never
    /// issues a malformed command: an invariant every operation
    /// preserves and `create` establishes.
    pub open spec fn wf(&self) -> bool {
        addresses_only(self@.sent, self@.id) && all_wf(self@.sent)
    }

    /// Binds ownership of an already-open channel endpoint and the
    /// externally assigned identifier. Construction cannot fail; the
    /// new handle has issued nothing.
    pub fn create(sender: IpcSender<Vec<u8>>, id: InputId) -> (h: InputProxyHandle)
        ensures
            h@.id == id,
            h@.sent == Seq::<Command>::empty(),
            h.wf(),
    {
        InputProxyHandle { sender, id, sent: Ghost(Seq::empty()) }
    }

    /// The identifier of the source this handle controls.
    pub fn id(&self) -> (r: InputId)
        ensures
            r == self@.id,
    {
        self.id
    }

    /// Encodes `msg` as a command addressed to this handle's own
    /// source, frames it and hands it to the channel. Exactly one
    /// command is recorded; delivery is best effort and no failure is
    /// surfaced.
    fn send_message(&mut self, msg: MethodCall)
        ensures
            final(self)@.id == old(self)@.id,
            final(self)@.sent == old(self)@.sent.push(spec_encode_call(old(self)@.id, msg)),
    {
        let cmd = encode_call(self.id, msg);
        let frame = encode_command(&cmd);
        send_frame(&self.sender, frame);
        self.sent = Ghost(self.sent@.push(cmd));
    }

    /// Validates the pose description; on success issues exactly
    /// `SetPointerOrigin(id, Some(t))` with this handle's own `id` and
    /// the validated transform `t`, on failure returns the validation
    /// error untouched and issues nothing. The `_emulated` flag is
    /// accepted but unused, reserved for distinguishing tracked from
    /// synthesized pose data.
    pub fn set_pointer_origin(&mut self, origin: &RawTransformInit, _emulated: bool) -> (r: Result<
        (),
        ValidationError,
    >)
        ensures
            final(self)@.id == old(self)@.id,
            (match spec_validate(*origin) {
                Ok(t) => r == Ok::<(), ValidationError>(()) && final(self)@.sent == old(
                    self,
                )@.sent.push(Command::SetPointerOrigin(old(self)@.id, Some(t))),
                Err(e) => r == Err::<(), ValidationError>(e) && final(self)@.sent == old(
                    self,
                )@.sent,
            }),
            old(self).wf() ==> final(self).wf(),
    {
        match validate_transform(origin) {
            Ok(t) => {
                self.send_message(MethodCall::SetPointerOrigin(t));
                Ok(())
            },
            Err(e) => Err(e),
        }
    }

    /// Identical contract to `set_pointer_origin`, but for the
    /// grip-origin slot: on success issues exactly
    /// `SetGripOrigin(id, Some(t))`, on failure issues nothing.
    pub fn set_grip_origin(&mut self, origin: &RawTransformInit, _emulated: bool) -> (r: Result<
        (),
        ValidationError,
    >)
        ensures
            final(self)@.id == old(self)@.id,
            (match spec_validate(*origin) {
                Ok(t) => r == Ok::<(), ValidationError>(()) && final(self)@.sent == old(
                    self,
                )@.sent.push(Command::SetGripOrigin(old(self)@.id, Some(t))),
                Err(e) => r == Err::<(), ValidationError>(e) && final(self)@.sent == old(
                    self,
                )@.sent,
            }),
            old(self).wf() ==> final(self).wf(),
    {
        match validate_transform(origin) {
            Ok(t) => {
                self.send_message(MethodCall::SetGripOrigin(t));
                Ok(())
            },
            Err(e) => Err(e),
        }
    }

    /// What a clear of the grip origin issues depends only on the
    /// handle's identifier, never on prior state: on any two histories
    /// the recorded command is the same, and two successive clears
    /// record two identical commands.
    pub proof fn lemma_clear_grip_idempotent(s1: Seq<Command>, s2: Seq<Command>, id: InputId)
        ensures
            s1.push(Command::SetGripOrigin(id, None)).last() == s2.push(
                Command::SetGripOrigin(id, None),
            ).last(),
            s1.push(Command::SetGripOrigin(id, None)).push(
                Command::SetGripOrigin(id, None),
            ).last() == s1.push(Command::SetGripOrigin(id, None)).push(
                Command::SetGripOrigin(id, None),
            )[s1.len() as int],
    {
        assert(s1.push(Command::SetGripOrigin(id, None)).push(
            Command::SetGripOrigin(id, None),
        )[s1.len() as int] == Command::SetGripOrigin(id, None));
    }

    /// Clears the grip origin: always succeeds, needs no validation,
    /// and issues exactly `SetGripOrigin(id, None)` — whatever was
    /// issued before, so a second call issues an identical command.
    /// A delivery failure is swallowed; the caller sees no error.
    pub fn clear_grip_origin(&mut self)
        ensures
            final(self)@.id == old(self)@.id,
            final(self)@.sent == old(self)@.sent.push(
                Command::SetGripOrigin(old(self)@.id, None),
            ),
            old(self).wf() ==> final(self).wf(),
    {
        self.send_message(MethodCall::ClearGripOrigin);
    }
}

} // verus!
