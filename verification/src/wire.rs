//! The wire format: how a command is framed as bytes for the outbound
//! channel, and how the receiving side recovers it.
//!
//! A frame is one tag byte, the four bytes of the addressed identifier
//! in little-endian order, one presence byte, and, when a transform is
//! present, its seven scalars as little-endian 32-bit words: six bytes
//! for a clear, thirty-four for a set. Decoding accepts exactly the
//! frames that encoding produces from a well-formed command; encoding
//! then decoding gives the command back.

use vstd::prelude::*;
use crate::protocol::{Command, InputId};
use crate::transform::{RigidTransform, is_wf_transform};

verus! {

/// Frame tag of a pointer-origin command.
pub const TAG_SET_POINTER_ORIGIN: u8 = 1;

/// Frame tag of a grip-origin command.
pub const TAG_SET_GRIP_ORIGIN: u8 = 2;

/// Presence byte: no transform follows (the origin is cleared).
pub const PAYLOAD_ABSENT: u8 = 0;

/// Presence byte: a transform follows.
pub const PAYLOAD_PRESENT: u8 = 1;

/// The four bytes of a 32-bit word, least significant first.
pub open spec fn u32_le(x: u32) -> Seq<u8> {
    seq![
        (x & 0xff) as u8,
        ((x >> 8) & 0xff) as u8,
        ((x >> 16) & 0xff) as u8,
        ((x >> 24) & 0xff) as u8,
    ]
}

/// The 32-bit word with bytes `b0` (least significant) through `b3`.
pub open spec fn u32_of_le(b0: u8, b1: u8, b2: u8, b3: u8) -> u32 {
    (b0 as u32) | ((b1 as u32) << 8) | ((b2 as u32) << 16) | ((b3 as u32) << 24)
}

/// The twenty-eight bytes of a transform: position then orientation,
/// each scalar little endian.
pub open spec fn transform_bytes(t: RigidTransform) -> Seq<u8> {
    u32_le(t.px) + u32_le(t.py) + u32_le(t.pz) + u32_le(t.qx) + u32_le(t.qy) + u32_le(t.qz)
        + u32_le(t.qw)
}

/// The presence byte and, when present, the transform bytes.
pub open spec fn payload_bytes(t: Option<RigidTransform>) -> Seq<u8> {
    match t {
        None => seq![PAYLOAD_ABSENT],
        Some(rt) => seq![PAYLOAD_PRESENT] + transform_bytes(rt),
    }
}

/// The frame of a command: tag, identifier, payload.
pub open spec fn spec_encode(c: Command) -> Seq<u8> {
    match c {
        Command::SetPointerOrigin(id, t) => seq![TAG_SET_POINTER_ORIGIN] + u32_le(id.0)
            + payload_bytes(t),
        Command::SetGripOrigin(id, t) => seq![TAG_SET_GRIP_ORIGIN] + u32_le(id.0)
            + payload_bytes(t),
    }
}

/// The transform whose twenty-eight bytes are `b`.
pub open spec fn spec_decode_transform(b: Seq<u8>) -> RigidTransform
    recommends
        b.len() == 28,
{
    RigidTransform {
        px: u32_of_le(b[0], b[1], b[2], b[3]),
        py: u32_of_le(b[4], b[5], b[6], b[7]),
        pz: u32_of_le(b[8], b[9], b[10], b[11]),
        qx: u32_of_le(b[12], b[13], b[14], b[15]),
        qy: u32_of_le(b[16], b[17], b[18], b[19]),
        qz: u32_of_le(b[20], b[21], b[22], b[23]),
        qw: u32_of_le(b[24], b[25], b[26], b[27]),
    }
}

/// The command with tag `tag` (which must be one of the two frame
/// tags), identifier `id` and payload `t`.
pub open spec fn command_of(tag: u8, id: InputId, t: Option<RigidTransform>) -> Command
    recommends
        tag == TAG_SET_POINTER_ORIGIN || tag == TAG_SET_GRIP_ORIGIN,
{
    if tag == TAG_SET_POINTER_ORIGIN {
        Command::SetPointerOrigin(id, t)
    } else {
        Command::SetGripOrigin(id, t)
    }
}

/// What decoding yields on a byte sequence: the unique well-formed
/// command whose frame is exactly `b`, or nothing when `b` is not such
/// a frame (unknown tag or presence byte, wrong length, or a transform
/// that is not well formed).
pub open spec fn spec_decode(b: Seq<u8>) -> Option<Command> {
    if b.len() < 6 {
        None
    } else if b[0] != TAG_SET_POINTER_ORIGIN && b[0] != TAG_SET_GRIP_ORIGIN {
        None
    } else {
        let id = InputId(u32_of_le(b[1], b[2], b[3], b[4]));
        if b[5] == PAYLOAD_ABSENT {
            if b.len() == 6 {
                Some(command_of(b[0], id, None))
            } else {
                None
            }
        } else if b[5] == PAYLOAD_PRESENT {
            if b.len() == 34 {
                let t = spec_decode_transform(b.subrange(6, 34));
                if t.wf() {
                    Some(command_of(b[0], id, Some(t)))
                } else {
                    None
                }
            } else {
                None
            }
        } else {
            None
        }
    }
}

/// Appends the four little-endian bytes of `x`.
fn push_u32_le(out: &mut Vec<u8>, x: u32)
    ensures
        final(out)@ == old(out)@ + u32_le(x),
{
    out.push((x & 0xff) as u8);
    out.push(((x >> 8) & 0xff) as u8);
    out.push(((x >> 16) & 0xff) as u8);
    out.push(((x >> 24) & 0xff) as u8);
    proof {
        assert(out@ =~= old(out)@ + u32_le(x));
    }
}

/// Appends the presence byte and, when present, the transform bytes.
fn push_payload(out: &mut Vec<u8>, t: &Option<RigidTransform>)
    ensures
        final(out)@ == old(out)@ + payload_bytes(*t),
{
    match t {
        None => {
            out.push(PAYLOAD_ABSENT);
            proof {
                assert(out@ =~= old(out)@ + payload_bytes(None::<RigidTransform>));
            }
        },
        Some(rt) => {
            out.push(PAYLOAD_PRESENT);
            push_u32_le(out, rt.px);
            push_u32_le(out, rt.py);
            push_u32_le(out, rt.pz);
            push_u32_le(out, rt.qx);
            push_u32_le(out, rt.qy);
            push_u32_le(out, rt.qz);
            push_u32_le(out, rt.qw);
            proof {
                assert(out@ =~= old(out)@ + payload_bytes(Some(*rt)));
            }
        },
    }
}

/// Frames a command for the channel.
pub fn encode_command(c: &Command) -> (b: Vec<u8>)
    ensures
        b@ == spec_encode(*c),
{
    let mut out: Vec<u8> = Vec::new();
    match c {
        Command::SetPointerOrigin(id, t) => {
            out.push(TAG_SET_POINTER_ORIGIN);
            push_u32_le(&mut out, id.0);
            push_payload(&mut out, t);
            proof {
                assert(out@ =~= spec_encode(*c));
            }
        },
        Command::SetGripOrigin(id, t) => {
            out.push(TAG_SET_GRIP_ORIGIN);
            push_u32_le(&mut out, id.0);
            push_payload(&mut out, t);
            proof {
                assert(out@ =~= spec_encode(*c));
            }
        },
    }
    out
}

/// Reads the little-endian 32-bit word at offset `i`.
fn read_u32_le(b: &Vec<u8>, i: usize) -> (x: u32)
    requires
        i + 4 <= b@.len(),
    ensures
        x == u32_of_le(b@[i as int], b@[i + 1], b@[i + 2], b@[i + 3]),
{
    let n: usize = b.len();
    proof {
        assert(i + 4 <= n);
    }
    (b[i] as u32) | ((b[i + 1] as u32) << 8) | ((b[i + 2] as u32) << 16) | ((b[i + 3] as u32)
        << 24)
}

/// Recovers a command from a frame, or reports that the bytes are not
/// the frame of any well-formed command.
pub fn decode_command(b: &Vec<u8>) -> (r: Option<Command>)
    ensures
        r == spec_decode(b@),
{
    if b.len() < 6 {
        return None;
    }
    let tag: u8 = b[0];
    if tag != TAG_SET_POINTER_ORIGIN && tag != TAG_SET_GRIP_ORIGIN {
        return None;
    }
    let id = InputId(read_u32_le(b, 1));
    let presence: u8 = b[5];
    if presence == PAYLOAD_ABSENT {
        if b.len() == 6 {
            if tag == TAG_SET_POINTER_ORIGIN {
                Some(Command::SetPointerOrigin(id, None))
            } else {
                Some(Command::SetGripOrigin(id, None))
            }
        } else {
            None
        }
    } else if presence == PAYLOAD_PRESENT {
        if b.len() == 34 {
            let t = RigidTransform {
                px: read_u32_le(b, 6),
                py: read_u32_le(b, 10),
                pz: read_u32_le(b, 14),
                qx: read_u32_le(b, 18),
                qy: read_u32_le(b, 22),
                qz: read_u32_le(b, 26),
                qw: read_u32_le(b, 30),
            };
            proof {
                assert(t == spec_decode_transform(b@.subrange(6, 34))) by {
                    let s = b@.subrange(6, 34);
                    assert(forall|j: int| 0 <= j < 28 ==> s[j] == b@[6 + j]);
                };
            }
            if is_wf_transform(&t) {
                if tag == TAG_SET_POINTER_ORIGIN {
                    Some(Command::SetPointerOrigin(id, Some(t)))
                } else {
                    Some(Command::SetGripOrigin(id, Some(t)))
                }
            } else {
                None
            }
        } else {
            None
        }
    } else {
        None
    }
}

/// A 32-bit word read back from its own four little-endian bytes is
/// itself.
pub proof fn lemma_u32_le_round_trip(x: u32)
    ensures
        u32_of_le(u32_le(x)[0], u32_le(x)[1], u32_le(x)[2], u32_le(x)[3]) == x,
{
    assert((((x & 0xff) as u8) as u32) | (((((x >> 8) & 0xff) as u8) as u32) << 8) | (((((x >> 16)
        & 0xff) as u8) as u32) << 16) | (((((x >> 24) & 0xff) as u8) as u32) << 24) == x)
        by (bit_vector);
}

/// A transform read back from its own twenty-eight bytes is itself.
pub proof fn lemma_transform_round_trip(t: RigidTransform)
    ensures
        spec_decode_transform(transform_bytes(t)) == t,
{
    let b = transform_bytes(t);
    assert(b =~= u32_le(t.px) + u32_le(t.py) + u32_le(t.pz) + u32_le(t.qx) + u32_le(t.qy)
        + u32_le(t.qz) + u32_le(t.qw));
    lemma_u32_le_round_trip(t.px);
    lemma_u32_le_round_trip(t.py);
    lemma_u32_le_round_trip(t.pz);
    lemma_u32_le_round_trip(t.qx);
    lemma_u32_le_round_trip(t.qy);
    lemma_u32_le_round_trip(t.qz);
    lemma_u32_le_round_trip(t.qw);
    assert(spec_decode_transform(b) == t);
}

/// Round trip: decoding the frame of any well-formed command gives
/// exactly that command back. Together with the encoder's contract,
/// the wire loses nothing: what the simulator's side recovers from a
/// frame is the command the handle issued.
pub proof fn lemma_wire_round_trip(c: Command)
    requires
        c.wf(),
    ensures
        spec_decode(spec_encode(c)) == Some(c),
{
    let b = spec_encode(c);
    match c {
        Command::SetPointerOrigin(id, t) => {
            lemma_u32_le_round_trip(id.0);
            match t {
                None => {
                    assert(b =~= seq![TAG_SET_POINTER_ORIGIN] + u32_le(id.0)
                        + seq![PAYLOAD_ABSENT]);
                },
                Some(rt) => {
                    lemma_transform_round_trip(rt);
                    assert(b.subrange(6, 34) =~= transform_bytes(rt));
                },
            }
        },
        Command::SetGripOrigin(id, t) => {
            lemma_u32_le_round_trip(id.0);
            match t {
                None => {
                    assert(b =~= seq![TAG_SET_GRIP_ORIGIN] + u32_le(id.0) + seq![PAYLOAD_ABSENT]);
                },
                Some(rt) => {
                    lemma_transform_round_trip(rt);
                    assert(b.subrange(6, 34) =~= transform_bytes(rt));
                },
            }
        },
    }
}

} // verus!
