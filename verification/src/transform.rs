//! Pose descriptions and their validation.
//!
//! A caller hands a handle a loosely structured pose description: a
//! position and an orientation, each a list of scalar components. The
//! relay never does arithmetic on a scalar, it only forwards it, so a
//! scalar travels as the bit pattern of an IEEE 754 binary32 value and
//! validity is decided on the bits alone.

use vstd::prelude::*;

verus! {

/// A loosely structured pose description as a caller supplies it:
/// a position and an orientation, each an arbitrary list of scalar
/// components given as IEEE 754 binary32 bit patterns. Nothing is
/// promised about it until it passes [`validate_transform`].
#[derive(Clone, Debug)]
pub struct RawTransformInit {
    pub position: Vec<u32>,
    pub orientation: Vec<u32>,
}

/// The one locally observable failure of the relay: the pose
/// description handed to a set operation is malformed. The variant says
/// in which way; validation reports the first failing check in the
/// order position arity, orientation arity, position finiteness,
/// orientation finiteness, orientation magnitude.
#[derive(Clone, Copy, Debug, PartialEq, Eq, Structural)]
pub enum ValidationError {
    /// The position does not have exactly three components.
    BadPositionArity,
    /// The orientation does not have exactly four components.
    BadOrientationArity,
    /// A position component is not finite (NaN or an infinity).
    NonFinitePosition,
    /// An orientation component is not finite (NaN or an infinity).
    NonFiniteOrientation,
    /// Every orientation component has magnitude zero, so the
    /// quaternion cannot be normalized.
    ZeroOrientation,
}

/// A validated rigid transform: a three-component position and a
/// four-component orientation quaternion, each scalar the bit pattern
/// of a finite IEEE 754 binary32 value, the orientation not all zero.
/// The relay only forwards such a value; it never constructs one except
/// through [`validate_transform`].
#[derive(Clone, Copy, Debug, PartialEq, Eq, Structural)]
pub struct RigidTransform {
    pub px: u32,
    pub py: u32,
    pub pz: u32,
    pub qx: u32,
    pub qy: u32,
    pub qz: u32,
    pub qw: u32,
}

/// A binary32 bit pattern denotes a finite number exactly when its
/// exponent field is not all ones.
pub open spec fn finite_bits(b: u32) -> bool {
    (b >> 23) & 0xff != 0xff
}

/// A binary32 bit pattern denotes a zero (of either sign) exactly when
/// everything but the sign bit is clear.
pub open spec fn zero_bits(b: u32) -> bool {
    b & 0x7fff_ffff == 0
}

impl RigidTransform {
    /// Well-formedness: all seven scalars finite, orientation not all zero.
    pub open spec fn wf(self) -> bool {
        &&& finite_bits(self.px)
        &&& finite_bits(self.py)
        &&& finite_bits(self.pz)
        &&& finite_bits(self.qx)
        &&& finite_bits(self.qy)
        &&& finite_bits(self.qz)
        &&& finite_bits(self.qw)
        &&& !(zero_bits(self.qx) && zero_bits(self.qy) && zero_bits(self.qz)
            && zero_bits(self.qw))
    }
}

/// What validation decides, as a mathematical function of the raw
/// description: the first failing check's error, or the transform
/// assembled from the components in order.
pub open spec fn spec_validate(raw: RawTransformInit) -> Result<RigidTransform, ValidationError> {
    if raw.position@.len() != 3 {
        Err(ValidationError::BadPositionArity)
    } else if raw.orientation@.len() != 4 {
        Err(ValidationError::BadOrientationArity)
    } else if !(finite_bits(raw.position@[0]) && finite_bits(raw.position@[1])
        && finite_bits(raw.position@[2])) {
        Err(ValidationError::NonFinitePosition)
    } else if !(finite_bits(raw.orientation@[0]) && finite_bits(raw.orientation@[1])
        && finite_bits(raw.orientation@[2]) && finite_bits(raw.orientation@[3])) {
        Err(ValidationError::NonFiniteOrientation)
    } else if zero_bits(raw.orientation@[0]) && zero_bits(raw.orientation@[1])
        && zero_bits(raw.orientation@[2]) && zero_bits(raw.orientation@[3]) {
        Err(ValidationError::ZeroOrientation)
    } else {
        Ok(RigidTransform {
            px: raw.position@[0],
            py: raw.position@[1],
            pz: raw.position@[2],
            qx: raw.orientation@[0],
            qy: raw.orientation@[1],
            qz: raw.orientation@[2],
            qw: raw.orientation@[3],
        })
    }
}

/// Decides whether a binary32 bit pattern is finite.
pub fn is_finite_bits(b: u32) -> (r: bool)
    ensures
        r == finite_bits(b),
{
    (b >> 23) & 0xff != 0xff
}

/// Decides whether a binary32 bit pattern is a zero of either sign.
pub fn is_zero_bits(b: u32) -> (r: bool)
    ensures
        r == zero_bits(b),
{
    b & 0x7fff_ffff == 0
}

/// Decides well-formedness of an already assembled transform.
pub fn is_wf_transform(t: &RigidTransform) -> (r: bool)
    ensures
        r == t.wf(),
{
    is_finite_bits(t.px) && is_finite_bits(t.py) && is_finite_bits(t.pz)
        && is_finite_bits(t.qx) && is_finite_bits(t.qy) && is_finite_bits(t.qz)
        && is_finite_bits(t.qw)
        && !(is_zero_bits(t.qx) && is_zero_bits(t.qy) && is_zero_bits(t.qz)
            && is_zero_bits(t.qw))
}

/// Turns a raw pose description into a validated rigid transform, or
/// reports exactly why it is malformed. A validated transform is
/// well formed.
pub fn validate_transform(raw: &RawTransformInit) -> (r: Result<RigidTransform, ValidationError>)
    ensures
        r == spec_validate(*raw),
        (r matches Ok(t) ==> t.wf()),
{
    if raw.position.len() != 3 {
        return Err(ValidationError::BadPositionArity);
    }
    if raw.orientation.len() != 4 {
        return Err(ValidationError::BadOrientationArity);
    }
    if !(is_finite_bits(raw.position[0]) && is_finite_bits(raw.position[1])
        && is_finite_bits(raw.position[2])) {
        return Err(ValidationError::NonFinitePosition);
    }
    if !(is_finite_bits(raw.orientation[0]) && is_finite_bits(raw.orientation[1])
        && is_finite_bits(raw.orientation[2]) && is_finite_bits(raw.orientation[3])) {
        return Err(ValidationError::NonFiniteOrientation);
    }
    if is_zero_bits(raw.orientation[0]) && is_zero_bits(raw.orientation[1])
        && is_zero_bits(raw.orientation[2]) && is_zero_bits(raw.orientation[3]) {
        return Err(ValidationError::ZeroOrientation);
    }
    Ok(RigidTransform {
        px: raw.position[0],
        py: raw.position[1],
        pz: raw.position[2],
        qx: raw.orientation[0],
        qy: raw.orientation[1],
        qz: raw.orientation[2],
        qw: raw.orientation[3],
    })
}

} // verus!
