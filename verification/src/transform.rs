use vstd::prelude::*;

verus! {

/// A 3-vector of `f32` components, each held as its IEEE-754 bit pattern.
///
/// The library only stores, copies and compares these values; arithmetic on them
/// is done by the caller on the decoded floats.
#[derive(Clone, Copy, PartialEq, Eq, Structural, Debug)]
pub struct Vec3Bits {
    pub x: u32,
    pub y: u32,
    pub z: u32,
}

/// A rotation quaternion of `f32` components, each held as its IEEE-754 bit pattern.
#[derive(Clone, Copy, PartialEq, Eq, Structural, Debug)]
pub struct QuatBits {
    pub x: u32,
    pub y: u32,
    pub z: u32,
    pub w: u32,
}

/// Translation, rotation and scale of an entity, component by component as bit patterns.
#[derive(Clone, Copy, PartialEq, Eq, Structural, Debug)]
pub struct TransformBits {
    pub translation: Vec3Bits,
    pub rotation: QuatBits,
    pub scale: Vec3Bits,
}

/// One of the three coordinate axes.
#[derive(Clone, Copy, PartialEq, Eq, Structural, Debug)]
pub enum Axis {
    X,
    Y,
    Z,
}

/// `v` with the component on `axis` replaced by `value`.
pub open spec fn vec3_with(v: Vec3Bits, axis: Axis, value: u32) -> Vec3Bits {
    match axis {
        Axis::X => Vec3Bits { x: value, ..v },
        Axis::Y => Vec3Bits { y: value, ..v },
        Axis::Z => Vec3Bits { z: value, ..v },
    }
}

impl Vec3Bits {
    /// This vector with the component on `axis` replaced by `value`.
    pub fn with_component(self, axis: Axis, value: u32) -> (r: Vec3Bits)
        ensures
            r == vec3_with(self, axis, value),
    {
        match axis {
            Axis::X => Vec3Bits { x: value, ..self },
            Axis::Y => Vec3Bits { y: value, ..self },
            Axis::Z => Vec3Bits { z: value, ..self },
        }
    }
}

} // verus!
