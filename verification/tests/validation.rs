//! Unit tests of transform validation: each error variant from an
//! input that provokes it, and the exact transform a valid description
//! yields.

use mock_input_relay::transform::{
    validate_transform, RawTransformInit, RigidTransform, ValidationError,
};

const ONE: u32 = 0x3f80_0000; // 1.0f32
const NAN: u32 = 0x7fc0_0000;
const INF: u32 = 0x7f80_0000;
const NEG_ZERO: u32 = 0x8000_0000;

fn raw(position: Vec<u32>, orientation: Vec<u32>) -> RawTransformInit {
    RawTransformInit { position, orientation }
}

#[test]
fn valid_description_yields_its_components() {
    let half: u32 = 0.5f32.to_bits();
    let r = validate_transform(&raw(vec![ONE, 2, 3], vec![4, 5, 6, half]));
    assert_eq!(
        r,
        Ok(RigidTransform {
            px: ONE,
            py: 2,
            pz: 3,
            qx: 4,
            qy: 5,
            qz: 6,
            qw: half,
        })
    );
}

#[test]
fn position_arity_is_checked_first() {
    let r = validate_transform(&raw(vec![0, 0], vec![0, 0]));
    assert_eq!(r, Err(ValidationError::BadPositionArity));
    let r = validate_transform(&raw(vec![0, 0, 0, 0], vec![NAN, 0, 0, ONE]));
    assert_eq!(r, Err(ValidationError::BadPositionArity));
}

#[test]
fn orientation_arity_is_checked_second() {
    let r = validate_transform(&raw(vec![0, 0, 0], vec![0, 0, ONE]));
    assert_eq!(r, Err(ValidationError::BadOrientationArity));
}

#[test]
fn non_finite_position_is_rejected() {
    let r = validate_transform(&raw(vec![0, NAN, 0], vec![0, 0, 0, ONE]));
    assert_eq!(r, Err(ValidationError::NonFinitePosition));
    let r = validate_transform(&raw(vec![INF, 0, 0], vec![0, 0, 0, ONE]));
    assert_eq!(r, Err(ValidationError::NonFinitePosition));
}

#[test]
fn non_finite_orientation_is_rejected() {
    let r = validate_transform(&raw(vec![0, 0, 0], vec![0, INF, 0, ONE]));
    assert_eq!(r, Err(ValidationError::NonFiniteOrientation));
    let r = validate_transform(&raw(vec![0, 0, 0], vec![0, 0, 0, NAN]));
    assert_eq!(r, Err(ValidationError::NonFiniteOrientation));
}

#[test]
fn all_zero_orientation_is_rejected() {
    let r = validate_transform(&raw(vec![0, 0, 0], vec![0, 0, 0, 0]));
    assert_eq!(r, Err(ValidationError::ZeroOrientation));
    // Negative zero counts as zero magnitude too.
    let r = validate_transform(&raw(vec![0, 0, 0], vec![NEG_ZERO, 0, NEG_ZERO, 0]));
    assert_eq!(r, Err(ValidationError::ZeroOrientation));
}

#[test]
fn negative_zero_orientation_with_one_component_passes() {
    let r = validate_transform(&raw(vec![0, 0, 0], vec![NEG_ZERO, 0, 0, ONE]));
    assert!(r.is_ok());
}
