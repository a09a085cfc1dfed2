//! The shape codec: between the engine's shape, a tagged union with a separate
//! rounded form for some primitives, and the mirror's shape with its rounding
//! radius beside it.
use vstd::prelude::*;

use crate::mirror::Mirror;
use crate::{Quaternion, Scalar, Vector3};

verus! {

/// The engine's shape, one variant per kind of shape it knows. The kinds that
/// the mirror has no variant for carry the engine's handle `H` untouched.
#[derive(Debug, PartialEq)]
pub enum NativeShape<H> {
    Ball { radius: Scalar },
    Cuboid { half_extents: Vector3 },
    Capsule { a: Vector3, b: Vector3, radius: Scalar },
    Segment { a: Vector3, b: Vector3 },
    Triangle { a: Vector3, b: Vector3, c: Vector3 },
    TriMesh(H),
    Polyline(H),
    HalfSpace(H),
    HeightField(H),
    Compound(Vec<NativePart<H>>),
    ConvexPolyhedron(H),
    Cylinder { half_height: Scalar, radius: Scalar },
    Cone { half_height: Scalar, radius: Scalar },
    RoundCuboid { half_extents: Vector3, border_radius: Scalar },
    RoundTriangle { a: Vector3, b: Vector3, c: Vector3, border_radius: Scalar },
    RoundCylinder { half_height: Scalar, radius: Scalar, border_radius: Scalar },
    RoundCone { half_height: Scalar, radius: Scalar, border_radius: Scalar },
    RoundConvexPolyhedron { handle: H, border_radius: Scalar },
    Custom(H),
}

/// One part of the engine's compound shape: its placement and its shape.
#[derive(Debug, PartialEq)]
pub struct NativePart<H> {
    pub translation: Vector3,
    pub rotation: Quaternion,
    pub shape: NativeShape<H>,
}

/// An engine shape that the mirror carries without looking into it.
#[derive(Debug, PartialEq)]
pub struct ShapeHolder<H>(pub NativeShape<H>);

/// One part of a compound mirror: its placement and its own mirror.
#[derive(Debug, PartialEq)]
pub struct CompoundShapeElement<H> {
    pub offset: Vector3,
    pub rotation: Quaternion,
    pub shape: ColliderMirror<H>,
}

/// The parts of a compound mirror, in order.
#[derive(Debug, PartialEq)]
pub struct Compound<H>(pub Vec<CompoundShapeElement<H>>);

/// The mirror's shape.
#[derive(Debug, PartialEq)]
pub enum Shape<H> {
    Ball { radius: Scalar },
    Cuboid { half_extents: Vector3 },
    Capsule { a: Vector3, b: Vector3, radius: Scalar },
    Segment { a: Vector3, b: Vector3 },
    Triangle { a: Vector3, b: Vector3, c: Vector3 },
    Compound(Compound<H>),
    Cylinder { half_height: Scalar, radius: Scalar },
    Cone { half_height: Scalar, radius: Scalar },
    UnimplementedYet(ShapeHolder<H>),
}

/// The mirror of a collider shape: the shape without its rounding, and the
/// rounding radius beside it.
#[derive(Debug, PartialEq)]
pub struct ColliderMirror<H> {
    pub shape: Shape<H>,
    pub shape_rounded: Option<Scalar>,
}

/// The border radius of a rounded cuboid, triangle, cylinder or cone; no
/// other shape has a rounding beside its mirror (a rounded convex polyhedron
/// is held whole, its rounding inside it).
pub open spec fn rounding_of<H>(n: NativeShape<H>) -> Option<Scalar> {
    match n {
        NativeShape::RoundCuboid { border_radius, .. } => Some(border_radius),
        NativeShape::RoundTriangle { border_radius, .. } => Some(border_radius),
        NativeShape::RoundCylinder { border_radius, .. } => Some(border_radius),
        NativeShape::RoundCone { border_radius, .. } => Some(border_radius),
        _ => None,
    }
}

/// Whether the engine has no mirror variant for a shape.
pub open spec fn is_opaque_kind<H>(n: NativeShape<H>) -> bool {
    match n {
        NativeShape::TriMesh(_) | NativeShape::Polyline(_) | NativeShape::HalfSpace(_)
        | NativeShape::HeightField(_) | NativeShape::ConvexPolyhedron(_)
        | NativeShape::RoundConvexPolyhedron { .. } | NativeShape::Custom(_) => true,
        _ => false,
    }
}

/// `m` is the mirror of `n`: each primitive's fields are copied, a rounded
/// primitive gives its inner primitive and its border radius, a compound gives
/// the mirrors of its parts in order with their placements, and a shape
/// without a mirror variant is held as it is.
pub open spec fn encodes<H>(n: NativeShape<H>, m: ColliderMirror<H>) -> bool
    decreases n,
{
    &&& m.shape_rounded == rounding_of(n)
    &&& match n {
        NativeShape::Ball { radius } => m.shape == Shape::<H>::Ball { radius },
        NativeShape::Cuboid { half_extents } => m.shape == Shape::<H>::Cuboid { half_extents },
        NativeShape::Capsule { a, b, radius } => m.shape == Shape::<H>::Capsule { a, b, radius },
        NativeShape::Segment { a, b } => m.shape == Shape::<H>::Segment { a, b },
        NativeShape::Triangle { a, b, c } => m.shape == Shape::<H>::Triangle { a, b, c },
        NativeShape::Cylinder { half_height, radius } => m.shape == Shape::<H>::Cylinder {
            half_height,
            radius,
        },
        NativeShape::Cone { half_height, radius } => m.shape == Shape::<H>::Cone {
            half_height,
            radius,
        },
        NativeShape::RoundCuboid { half_extents, .. } => m.shape == Shape::<H>::Cuboid {
            half_extents,
        },
        NativeShape::RoundTriangle { a, b, c, .. } => m.shape == Shape::<H>::Triangle { a, b, c },
        NativeShape::RoundCylinder { half_height, radius, .. } => m.shape == Shape::<H>::Cylinder {
            half_height,
            radius,
        },
        NativeShape::RoundCone { half_height, radius, .. } => m.shape == Shape::<H>::Cone {
            half_height,
            radius,
        },
        NativeShape::Compound(parts) => match m.shape {
            Shape::Compound(c) => {
                &&& c.0@.len() == parts@.len()
                &&& forall|i: int|
                    0 <= i < parts@.len() ==> {
                        &&& (#[trigger] c.0@[i]).offset == parts@[i].translation
                        &&& c.0@[i].rotation == parts@[i].rotation
                        &&& encodes(parts@[i].shape, c.0@[i].shape)
                    }
            },
            _ => false,
        },
        _ => m.shape == Shape::UnimplementedYet(ShapeHolder(n)),
    }
}

/// `n` is the engine shape built from `m`: each primitive from its fields, a
/// cuboid, triangle, cylinder or cone in its rounded form when a rounding
/// radius is present, a compound from its parts in order, and a held shape as
/// it is. A rounding radius beside any other shape is dropped.
pub open spec fn decodes<H>(m: ColliderMirror<H>, n: NativeShape<H>) -> bool
    decreases m,
{
    match m.shape {
        Shape::Ball { radius } => n == NativeShape::<H>::Ball { radius },
        Shape::Capsule { a, b, radius } => n == NativeShape::<H>::Capsule { a, b, radius },
        Shape::Segment { a, b } => n == NativeShape::<H>::Segment { a, b },
        Shape::Cuboid { half_extents } => n == match m.shape_rounded {
            Some(border_radius) => NativeShape::<H>::RoundCuboid { half_extents, border_radius },
            None => NativeShape::<H>::Cuboid { half_extents },
        },
        Shape::Triangle { a, b, c } => n == match m.shape_rounded {
            Some(border_radius) => NativeShape::<H>::RoundTriangle { a, b, c, border_radius },
            None => NativeShape::<H>::Triangle { a, b, c },
        },
        Shape::Cylinder { half_height, radius } => n == match m.shape_rounded {
            Some(border_radius) => NativeShape::<H>::RoundCylinder {
                half_height,
                radius,
                border_radius,
            },
            None => NativeShape::<H>::Cylinder { half_height, radius },
        },
        Shape::Cone { half_height, radius } => n == match m.shape_rounded {
            Some(border_radius) => NativeShape::<H>::RoundCone {
                half_height,
                radius,
                border_radius,
            },
            None => NativeShape::<H>::Cone { half_height, radius },
        },
        Shape::Compound(c) => match n {
            NativeShape::Compound(parts) => {
                &&& parts@.len() == c.0@.len()
                &&& forall|i: int|
                    0 <= i < c.0@.len() ==> {
                        &&& (#[trigger] parts@[i]).translation == c.0@[i].offset
                        &&& parts@[i].rotation == c.0@[i].rotation
                        &&& decodes(c.0@[i].shape, parts@[i].shape)
                    }
            },
            _ => false,
        },
        Shape::UnimplementedYet(h) => n == h.0,
    }
}

impl<H> Compound<H> {
    /// The mirrors of the engine's compound parts, in order.
    pub fn from_rapier(elems: Vec<NativePart<H>>) -> (r: Self)
        ensures
            r.0@.len() == elems@.len(),
            forall|i: int|
                0 <= i < elems@.len() ==> {
                    &&& (#[trigger] r.0@[i]).offset == elems@[i].translation
                    &&& r.0@[i].rotation == elems@[i].rotation
                    &&& encodes(elems@[i].shape, r.0@[i].shape)
                },
        decreases elems,
    {
        let ghost orig = elems@;
        let ghost whole = elems;
        let mut rest = elems;
        let mut out: Vec<CompoundShapeElement<H>> = Vec::new();
        while rest.len() > 0
            invariant
                out@.len() + rest@.len() == orig.len(),
                whole@ == orig,
                whole == elems,
                rest@ == orig.subrange(out@.len() as int, orig.len() as int),
                forall|i: int|
                    0 <= i < out@.len() ==> {
                        &&& (#[trigger] out@[i]).offset == orig[i].translation
                        &&& out@[i].rotation == orig[i].rotation
                        &&& encodes(orig[i].shape, out@[i].shape)
                    },
            decreases rest@.len(),
        {
            let part = rest.remove(0);
            proof {
                let k = out@.len() as int;
                assert(part == orig[k]);
                assert(decreases_to!(whole => whole[k]));
                assert(decreases_to!(whole[k] => whole[k].shape));
                assert(decreases_to!(whole => part.shape));
            }
            let e = CompoundShapeElement {
                offset: part.translation,
                rotation: part.rotation,
                shape: ColliderMirror::from_native(part.shape),
            };
            out.push(e);
        }
        Compound(out)
    }
}

impl<H> ColliderMirror<H> {
    /// The mirror of an engine shape; see `encodes`.
    pub fn from_native(value: NativeShape<H>) -> (r: Self)
        ensures
            encodes(value, r),
        decreases value,
    {
        let shape_rounded = match &value {
            NativeShape::RoundCuboid { border_radius, .. } => Some(*border_radius),
            NativeShape::RoundTriangle { border_radius, .. } => Some(*border_radius),
            NativeShape::RoundCylinder { border_radius, .. } => Some(*border_radius),
            NativeShape::RoundCone { border_radius, .. } => Some(*border_radius),
            _ => None,
        };
        let shape = match value {
            NativeShape::Ball { radius } => Shape::Ball { radius },
            NativeShape::Cuboid { half_extents } => Shape::Cuboid { half_extents },
            NativeShape::Capsule { a, b, radius } => Shape::Capsule { a, b, radius },
            NativeShape::Segment { a, b } => Shape::Segment { a, b },
            NativeShape::Triangle { a, b, c } => Shape::Triangle { a, b, c },
            NativeShape::Compound(parts) => Shape::Compound(Compound::from_rapier(parts)),
            NativeShape::Cylinder { half_height, radius } => Shape::Cylinder { half_height, radius },
            NativeShape::Cone { half_height, radius } => Shape::Cone { half_height, radius },
            NativeShape::RoundCuboid { half_extents, .. } => Shape::Cuboid { half_extents },
            NativeShape::RoundTriangle { a, b, c, .. } => Shape::Triangle { a, b, c },
            NativeShape::RoundCylinder { half_height, radius, .. } => Shape::Cylinder {
                half_height,
                radius,
            },
            NativeShape::RoundCone { half_height, radius, .. } => Shape::Cone { half_height, radius },
            other => Shape::UnimplementedYet(ShapeHolder(other)),
        };
        ColliderMirror { shape, shape_rounded }
    }
}

impl<H> Compound<H> {
    /// The engine's compound parts built from the mirrors, in order.
    pub fn into_rapier(self) -> (r: Vec<NativePart<H>>)
        ensures
            r@.len() == self.0@.len(),
            forall|i: int|
                0 <= i < self.0@.len() ==> {
                    &&& (#[trigger] r@[i]).translation == self.0@[i].offset
                    &&& r@[i].rotation == self.0@[i].rotation
                    &&& decodes(self.0@[i].shape, r@[i].shape)
                },
        decreases self,
    {
        let ghost orig = self.0@;
        let ghost whole = self;
        let mut rest = self.0;
        let mut out: Vec<NativePart<H>> = Vec::new();
        while rest.len() > 0
            invariant
                out@.len() + rest@.len() == orig.len(),
                whole.0@ == orig,
                whole == self,
                rest@ == orig.subrange(out@.len() as int, orig.len() as int),
                forall|i: int|
                    0 <= i < out@.len() ==> {
                        &&& (#[trigger] out@[i]).translation == orig[i].offset
                        &&& out@[i].rotation == orig[i].rotation
                        &&& decodes(orig[i].shape, out@[i].shape)
                    },
            decreases rest@.len(),
        {
            let elem = rest.remove(0);
            proof {
                let k = out@.len() as int;
                assert(elem == orig[k]);
                assert(decreases_to!(whole => whole.0));
                assert(decreases_to!(whole.0 => whole.0[k]));
                assert(decreases_to!(whole.0[k] => whole.0[k].shape));
                assert(decreases_to!(whole => elem.shape));
            }
            let part = NativePart {
                translation: elem.offset,
                rotation: elem.rotation,
                shape: elem.shape.into_native(),
            };
            out.push(part);
        }
        out
    }
}

impl<H> ColliderMirror<H> {
    /// The engine shape built from this mirror; see `decodes`.
    pub fn into_native(self) -> (r: NativeShape<H>)
        ensures
            decodes(self, r),
        decreases self,
    {
        let rounded = self.shape_rounded;
        match self.shape {
            Shape::Ball { radius } => NativeShape::Ball { radius },
            Shape::Capsule { a, b, radius } => NativeShape::Capsule { a, b, radius },
            Shape::Segment { a, b } => NativeShape::Segment { a, b },
            Shape::Cuboid { half_extents } => match rounded {
                Some(border_radius) => NativeShape::RoundCuboid { half_extents, border_radius },
                None => NativeShape::Cuboid { half_extents },
            },
            Shape::Triangle { a, b, c } => match rounded {
                Some(border_radius) => NativeShape::RoundTriangle { a, b, c, border_radius },
                None => NativeShape::Triangle { a, b, c },
            },
            Shape::Cylinder { half_height, radius } => match rounded {
                Some(border_radius) => NativeShape::RoundCylinder {
                    half_height,
                    radius,
                    border_radius,
                },
                None => NativeShape::Cylinder { half_height, radius },
            },
            Shape::Cone { half_height, radius } => match rounded {
                Some(border_radius) => NativeShape::RoundCone { half_height, radius, border_radius },
                None => NativeShape::Cone { half_height, radius },
            },
            Shape::Compound(elems) => NativeShape::Compound(elems.into_rapier()),
            Shape::UnimplementedYet(holder) => holder.0,
        }
    }
}

/// Building the engine shape from the mirror of an engine shape gives that
/// shape back: every primitive with the same fields, every rounded primitive
/// with the same border radius, every compound with its parts in the same
/// order and placements, and every shape of an opaque kind as the very value held.
pub proof fn lemma_shape_round_trip<H>(n: NativeShape<H>, m: ColliderMirror<H>)
    requires
        encodes(n, m),
    ensures
        decodes(m, n),
    decreases n,
{
    match n {
        NativeShape::Compound(parts) => {
            let c = m.shape->Compound_0;
            assert forall|i: int| 0 <= i < c.0@.len() implies {
                &&& (#[trigger] parts@[i]).translation == c.0@[i].offset
                &&& parts@[i].rotation == c.0@[i].rotation
                &&& decodes(c.0@[i].shape, parts@[i].shape)
            } by {
                assert(c.0@[i].offset == parts@[i].translation);
                assert(decreases_to!(parts => parts[i]));
                lemma_shape_round_trip(parts@[i].shape, c.0@[i].shape);
            }
        },
        _ => {},
    }
}

/// A shape without a rounded engine form is built unrounded, whatever
/// rounding radius stands beside it.
pub proof fn lemma_rounding_dropped<H>(m: ColliderMirror<H>, n: NativeShape<H>)
    requires
        decodes(m, n),
        m.shape is Ball || m.shape is Capsule || m.shape is Segment || m.shape is Compound,
    ensures
        rounding_of(n) is None,
{
}

/// An engine shape without a mirror variant is held whole, with no rounding
/// beside it, and comes back from its mirror as the very value that was held.
pub proof fn lemma_opaque_fidelity<H>(n: NativeShape<H>, m: ColliderMirror<H>, back: NativeShape<H>)
    requires
        is_opaque_kind(n),
        encodes(n, m),
        decodes(m, back),
    ensures
        back == n,
        m.shape == Shape::UnimplementedYet(ShapeHolder(n)),
        m.shape_rounded == Option::<Scalar>::None,
{
}

/// The engine's mass properties.
#[derive(Clone, Copy, Debug, PartialEq, Eq, Structural)]
pub struct NativeMassProperties {
    pub local_center_of_mass: Vector3,
    pub mass: Scalar,
    pub principal_inertia_local_frame: Quaternion,
    pub principal_inertia: Vector3,
}

/// The engine's additional mass properties of a rigid body.
#[derive(Clone, Copy, Debug, PartialEq, Eq, Structural)]
pub enum NativeAdditionalMassProperties {
    Mass(Scalar),
    MassProperties(NativeMassProperties),
}

/// The engine's mass properties of a collider.
#[derive(Clone, Copy, Debug, PartialEq, Eq, Structural)]
pub enum NativeColliderMassProperties {
    Density(Scalar),
    Mass(Scalar),
    MassProperties(NativeMassProperties),
}

/// The mirror of mass properties.
#[derive(Clone, Copy, Debug, PartialEq, Eq, Structural)]
pub struct MassProps {
    pub local_center_of_mass: Vector3,
    pub mass: Scalar,
    pub principal_inertia: Vector3,
    pub inertia_local_frame: Quaternion,
}

#[derive(Clone, Copy, Debug, PartialEq, Eq, Structural)]
pub enum AdditionalMassPropertiesMirror {
    Mass(Scalar),
    Props(MassProps),
}

#[derive(Clone, Copy, Debug, PartialEq, Eq, Structural)]
pub enum ColliderMassPropertiesMirror {
    Density(Scalar),
    Mass(Scalar),
    Props(MassProps),
}

pub open spec fn props_of(n: NativeMassProperties) -> MassProps {
    MassProps {
        local_center_of_mass: n.local_center_of_mass,
        mass: n.mass,
        principal_inertia: n.principal_inertia,
        inertia_local_frame: n.principal_inertia_local_frame,
    }
}

pub open spec fn native_props(m: MassProps) -> NativeMassProperties {
    NativeMassProperties {
        local_center_of_mass: m.local_center_of_mass,
        mass: m.mass,
        principal_inertia_local_frame: m.inertia_local_frame,
        principal_inertia: m.principal_inertia,
    }
}

pub open spec fn additional_mirror(n: NativeAdditionalMassProperties) -> AdditionalMassPropertiesMirror {
    match n {
        NativeAdditionalMassProperties::Mass(v) => AdditionalMassPropertiesMirror::Mass(v),
        NativeAdditionalMassProperties::MassProperties(p) => AdditionalMassPropertiesMirror::Props(
            props_of(p),
        ),
    }
}

pub open spec fn additional_native(m: AdditionalMassPropertiesMirror) -> NativeAdditionalMassProperties {
    match m {
        AdditionalMassPropertiesMirror::Mass(v) => NativeAdditionalMassProperties::Mass(v),
        AdditionalMassPropertiesMirror::Props(p) => NativeAdditionalMassProperties::MassProperties(
            native_props(p),
        ),
    }
}

pub open spec fn collider_mass_mirror(n: NativeColliderMassProperties) -> ColliderMassPropertiesMirror {
    match n {
        NativeColliderMassProperties::Density(v) => ColliderMassPropertiesMirror::Density(v),
        NativeColliderMassProperties::Mass(v) => ColliderMassPropertiesMirror::Mass(v),
        NativeColliderMassProperties::MassProperties(p) => ColliderMassPropertiesMirror::Props(
            props_of(p),
        ),
    }
}

pub open spec fn collider_mass_native(m: ColliderMassPropertiesMirror) -> NativeColliderMassProperties {
    match m {
        ColliderMassPropertiesMirror::Density(v) => NativeColliderMassProperties::Density(v),
        ColliderMassPropertiesMirror::Mass(v) => NativeColliderMassProperties::Mass(v),
        ColliderMassPropertiesMirror::Props(p) => NativeColliderMassProperties::MassProperties(
            native_props(p),
        ),
    }
}

impl MassProps {
    pub fn into_rapier(&self) -> (r: NativeMassProperties)
        ensures
            r == native_props(*self),
    {
        NativeMassProperties {
            local_center_of_mass: self.local_center_of_mass,
            mass: self.mass,
            principal_inertia_local_frame: self.inertia_local_frame,
            principal_inertia: self.principal_inertia,
        }
    }

    pub fn from_rapier(value: &NativeMassProperties) -> (r: Self)
        ensures
            r == props_of(*value),
    {
        MassProps {
            local_center_of_mass: value.local_center_of_mass,
            mass: value.mass,
            principal_inertia: value.principal_inertia,
            inertia_local_frame: value.principal_inertia_local_frame,
        }
    }
}

impl AdditionalMassPropertiesMirror {
    pub fn from_rapier(value: &NativeAdditionalMassProperties) -> (r: Self)
        ensures
            r == additional_mirror(*value),
    {
        match value {
            NativeAdditionalMassProperties::Mass(mass) => Self::Mass(*mass),
            NativeAdditionalMassProperties::MassProperties(props) => Self::Props(
                MassProps::from_rapier(props),
            ),
        }
    }

    pub fn apply_to(&self, val: &mut NativeAdditionalMassProperties)
        ensures
            *final(val) == additional_native(*self),
    {
        *val = match self {
            Self::Mass(value) => NativeAdditionalMassProperties::Mass(*value),
            Self::Props(value) => NativeAdditionalMassProperties::MassProperties(value.into_rapier()),
        };
    }
}

impl ColliderMassPropertiesMirror {
    pub fn from_rapier(value: &NativeColliderMassProperties) -> (r: Self)
        ensures
            r == collider_mass_mirror(*value),
    {
        match value {
            NativeColliderMassProperties::Density(v) => Self::Density(*v),
            NativeColliderMassProperties::Mass(v) => Self::Mass(*v),
            NativeColliderMassProperties::MassProperties(v) => Self::Props(MassProps::from_rapier(v)),
        }
    }

    pub fn apply_to(&self, val: &mut NativeColliderMassProperties)
        ensures
            *final(val) == collider_mass_native(*self),
    {
        *val = match self {
            Self::Density(value) => NativeColliderMassProperties::Density(*value),
            Self::Mass(value) => NativeColliderMassProperties::Mass(*value),
            Self::Props(value) => NativeColliderMassProperties::MassProperties(value.into_rapier()),
        };
    }
}

impl Mirror<NativeAdditionalMassProperties> for AdditionalMassPropertiesMirror {
    fn from_native(native: &NativeAdditionalMassProperties) -> (r: Self)
        ensures
            r == additional_mirror(*native),
    {
        Self::from_rapier(native)
    }

    fn apply(&self, native: &mut NativeAdditionalMassProperties)
        ensures
            *final(native) == additional_native(*self),
    {
        self.apply_to(native)
    }
}

impl Mirror<NativeColliderMassProperties> for ColliderMassPropertiesMirror {
    fn from_native(native: &NativeColliderMassProperties) -> (r: Self)
        ensures
            r == collider_mass_mirror(*native),
    {
        Self::from_rapier(native)
    }

    fn apply(&self, native: &mut NativeColliderMassProperties)
        ensures
            *final(native) == collider_mass_native(*self),
    {
        self.apply_to(native)
    }
}

/// Mass properties and their mirrors convert both ways without loss.
pub proof fn lemma_mass_round_trip(
    a: NativeAdditionalMassProperties,
    am: AdditionalMassPropertiesMirror,
    c: NativeColliderMassProperties,
    cm: ColliderMassPropertiesMirror,
)
    ensures
        additional_native(additional_mirror(a)) == a,
        additional_mirror(additional_native(am)) == am,
        collider_mass_native(collider_mass_mirror(c)) == c,
        collider_mass_mirror(collider_mass_native(cm)) == cm,
{
}

/// The bit pattern of the scalar 1.0.
pub const ONE: Scalar = 0x3f80_0000;

pub open spec fn origin() -> Vector3 {
    Vector3 { x: 0, y: 0, z: 0 }
}

pub open spec fn identity_rotation() -> Quaternion {
    Quaternion { x: 0, y: 0, z: 0, w: ONE }
}

pub open spec fn unit_cuboid<H>() -> Shape<H> {
    Shape::Cuboid { half_extents: Vector3 { x: ONE, y: ONE, z: ONE } }
}

impl<H> Default for ShapeHolder<H> {
    /// A ball of radius one.
    fn default() -> (r: Self)
        ensures
            r.0 == (NativeShape::<H>::Ball { radius: ONE }),
    {
        ShapeHolder(NativeShape::Ball { radius: ONE })
    }
}

impl<H> Default for Shape<H> {
    /// The cuboid of half-extents one.
    fn default() -> (r: Self)
        ensures
            r == unit_cuboid::<H>(),
    {
        Shape::Cuboid { half_extents: Vector3 { x: ONE, y: ONE, z: ONE } }
    }
}

impl<H> Default for ColliderMirror<H> {
    /// The default shape, unrounded.
    fn default() -> (r: Self)
        ensures
            r.shape == unit_cuboid::<H>(),
            r.shape_rounded == Option::<Scalar>::None,
    {
        ColliderMirror { shape: Shape::default(), shape_rounded: None }
    }
}

impl<H> Default for CompoundShapeElement<H> {
    /// The default mirror, unmoved and unrotated.
    fn default() -> (r: Self)
        ensures
            r.offset == origin(),
            r.rotation == identity_rotation(),
            r.shape.shape == unit_cuboid::<H>(),
            r.shape.shape_rounded == Option::<Scalar>::None,
    {
        CompoundShapeElement {
            offset: Vector3 { x: 0, y: 0, z: 0 },
            rotation: Quaternion { x: 0, y: 0, z: 0, w: ONE },
            shape: ColliderMirror::default(),
        }
    }
}

impl<H> Default for Compound<H> {
    /// One default element.
    fn default() -> (r: Self)
        ensures
            r.0@.len() == 1,
            r.0@[0].offset == origin(),
            r.0@[0].rotation == identity_rotation(),
            r.0@[0].shape.shape == unit_cuboid::<H>(),
            r.0@[0].shape.shape_rounded == Option::<Scalar>::None,
    {
        let mut v: Vec<CompoundShapeElement<H>> = Vec::new();
        v.push(CompoundShapeElement::default());
        Compound(v)
    }
}

} // verus!
