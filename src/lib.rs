//! Keeps an opaque physics-engine value and an introspectable mirror of it in
//! agreement: the shape, joint and mass-property codecs, and the per-tick
//! decisions of the synchronisation protocol.
//!
//! Floating-point values cross this library as their IEEE-754 bit patterns,
//! so every conversion here is exact: a scalar is copied, never computed on.
use vstd::prelude::*;

pub mod mirror;
pub mod rapier_mirrors;

pub use mirror::{Mirror, MirrorPlugin, MirrorSystems};
pub use rapier_mirrors::RapierMirrorsPlugins;

verus! {

/// A single-precision scalar, held as its IEEE-754 bit pattern.
pub type Scalar = u32;

/// A 3-vector of scalars.
#[derive(Clone, Copy, Debug, PartialEq, Eq, Structural)]
pub struct Vector3 {
    pub x: Scalar,
    pub y: Scalar,
    pub z: Scalar,
}

/// A rotation quaternion, `w` being the scalar part.
#[derive(Clone, Copy, Debug, PartialEq, Eq, Structural)]
pub struct Quaternion {
    pub x: Scalar,
    pub y: Scalar,
    pub z: Scalar,
    pub w: Scalar,
}

/// Three booleans, one per spatial axis.
#[derive(Clone, Copy, Debug, PartialEq, Eq, Structural)]
pub struct Flags3 {
    pub x: bool,
    pub y: bool,
    pub z: bool,
}

} // verus!
