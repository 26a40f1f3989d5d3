//! The command protocol: identifiers, method calls and wire-level
//! commands, and the pure encoder that maps one to the other.

use vstd::prelude::*;
use crate::transform::RigidTransform;

verus! {

/// A process-local identifier that names one simulated input source for
/// the lifetime of the owning session. Assigned externally when the
/// source is created, never reused within a session, immutable once
/// assigned.
#[derive(Clone, Copy, Debug, PartialEq, Eq, Structural, Hash)]
pub struct InputId(pub u32);

/// A wire-level command, tagged with the input source it addresses.
/// Each variant carries an optional validated transform for one origin
/// slot; `None` means "clear this origin". These two variants are the
/// whole protocol: no operation exists that clears the pointer origin,
/// so no command `SetPointerOrigin(_, None)` is ever produced by the
/// encoder, though the wire format can carry it.
#[derive(Clone, Copy, Debug, PartialEq, Eq)]
pub enum Command {
    SetPointerOrigin(InputId, Option<RigidTransform>),
    SetGripOrigin(InputId, Option<RigidTransform>),
}

impl Command {
    /// The input source a command addresses.
    pub open spec fn source(self) -> InputId {
        match self {
            Command::SetPointerOrigin(id, _) => id,
            Command::SetGripOrigin(id, _) => id,
        }
    }

    /// Well-formedness: a carried transform is itself well formed.
    pub open spec fn wf(self) -> bool {
        match self {
            Command::SetPointerOrigin(_, t) => (t matches Some(rt) ==> rt.wf()),
            Command::SetGripOrigin(_, t) => (t matches Some(rt) ==> rt.wf()),
        }
    }
}

/// One invocation of a handle operation, as the encoder sees it. The
/// three variants are exactly the three operations a handle exposes:
/// the pointer-origin slot has no clear form, deliberately.
#[derive(Clone, Copy, Debug, PartialEq, Eq)]
pub enum MethodCall {
    SetPointerOrigin(RigidTransform),
    SetGripOrigin(RigidTransform),
    ClearGripOrigin,
}

/// What the encoder produces, as a mathematical function: the command
/// for method call `call` on the source named `id`.
pub open spec fn spec_encode_call(id: InputId, call: MethodCall) -> Command {
    match call {
        MethodCall::SetPointerOrigin(t) => Command::SetPointerOrigin(id, Some(t)),
        MethodCall::SetGripOrigin(t) => Command::SetGripOrigin(id, Some(t)),
        MethodCall::ClearGripOrigin => Command::SetGripOrigin(id, None),
    }
}

/// The command encoder: a pure, stateless, exhaustive mapping from a
/// method call on the handle with identifier `id` to the wire-level
/// command it stands for. The command always addresses `id` itself,
/// never another source.
pub fn encode_call(id: InputId, call: MethodCall) -> (c: Command)
    ensures
        c == spec_encode_call(id, call),
        c.source() == id,
        call matches MethodCall::SetPointerOrigin(t) ==> c == Command::SetPointerOrigin(
            id,
            Some(t),
        ),
        call matches MethodCall::SetGripOrigin(t) ==> c == Command::SetGripOrigin(id, Some(t)),
        call matches MethodCall::ClearGripOrigin ==> c == Command::SetGripOrigin(
            id,
            None::<RigidTransform>,
        ),
{
    match call {
        MethodCall::SetPointerOrigin(t) => Command::SetPointerOrigin(id, Some(t)),
        MethodCall::SetGripOrigin(t) => Command::SetGripOrigin(id, Some(t)),
        MethodCall::ClearGripOrigin => Command::SetGripOrigin(id, None),
    }
}

} // verus!
