//! Unit tests of the encoder and the wire format: exact frames, the
//! encode/decode round trip, and rejection of malformed frames.

use mock_input_relay::protocol::{encode_call, Command, InputId, MethodCall};
use mock_input_relay::transform::RigidTransform;
use mock_input_relay::wire::{decode_command, encode_command};

const ONE: u32 = 0x3f80_0000; // 1.0f32
const INF: u32 = 0x7f80_0000;

fn identity_transform() -> RigidTransform {
    RigidTransform {
        px: 0,
        py: 0,
        pz: 0,
        qx: 0,
        qy: 0,
        qz: 0,
        qw: ONE,
    }
}

#[test]
fn encoder_maps_each_call_exhaustively() {
    let id = InputId(42);
    let t = identity_transform();
    assert_eq!(
        encode_call(id, MethodCall::SetPointerOrigin(t)),
        Command::SetPointerOrigin(id, Some(t))
    );
    assert_eq!(
        encode_call(id, MethodCall::SetGripOrigin(t)),
        Command::SetGripOrigin(id, Some(t))
    );
    assert_eq!(
        encode_call(id, MethodCall::ClearGripOrigin),
        Command::SetGripOrigin(id, None)
    );
}

#[test]
fn clear_frame_bytes_are_exact() {
    let frame = encode_command(&Command::SetGripOrigin(InputId(0x0403_0201), None));
    assert_eq!(frame, vec![2, 0x01, 0x02, 0x03, 0x04, 0]);
}

#[test]
fn set_frame_bytes_are_exact() {
    let t = identity_transform();
    let frame = encode_command(&Command::SetPointerOrigin(InputId(7), Some(t)));
    let mut expected = vec![1, 7, 0, 0, 0, 1];
    for word in [0u32, 0, 0, 0, 0, 0, ONE] {
        expected.extend_from_slice(&word.to_le_bytes());
    }
    assert_eq!(frame, expected);
}

#[test]
fn round_trip_gives_the_command_back() {
    let t = RigidTransform {
        px: 0x0102_0304,
        py: 5,
        pz: 6,
        qx: 7,
        qy: 8,
        qz: 9,
        qw: ONE,
    };
    let commands = [
        Command::SetPointerOrigin(InputId(0), Some(t)),
        Command::SetPointerOrigin(InputId(u32::MAX), None),
        Command::SetGripOrigin(InputId(123_456), Some(t)),
        Command::SetGripOrigin(InputId(3), None),
    ];
    for c in commands {
        assert_eq!(decode_command(&encode_command(&c)), Some(c));
    }
}

#[test]
fn malformed_frames_are_rejected() {
    // Too short.
    assert_eq!(decode_command(&vec![]), None);
    assert_eq!(decode_command(&vec![2, 3, 0, 0, 0]), None);
    // Unknown tag.
    assert_eq!(decode_command(&vec![0, 3, 0, 0, 0, 0]), None);
    assert_eq!(decode_command(&vec![3, 3, 0, 0, 0, 0]), None);
    // Unknown presence byte.
    assert_eq!(decode_command(&vec![2, 3, 0, 0, 0, 2]), None);
    // A clear frame with trailing bytes.
    assert_eq!(decode_command(&vec![2, 3, 0, 0, 0, 0, 0]), None);
    // A set frame of the wrong length.
    assert_eq!(decode_command(&vec![2, 3, 0, 0, 0, 1, 0]), None);
}

#[test]
fn frame_with_ill_formed_transform_is_rejected() {
    // A set frame whose transform fails validation never comes from the
    // encoder; a hand-made one must not decode.
    let mut with_inf = encode_command(&Command::SetGripOrigin(
        InputId(1),
        Some(identity_transform()),
    ));
    with_inf[6..10].copy_from_slice(&INF.to_le_bytes());
    assert_eq!(decode_command(&with_inf), None);

    let mut all_zero = encode_command(&Command::SetGripOrigin(
        InputId(1),
        Some(identity_transform()),
    ));
    all_zero[30..34].copy_from_slice(&0u32.to_le_bytes());
    assert_eq!(decode_command(&all_zero), None);
}
