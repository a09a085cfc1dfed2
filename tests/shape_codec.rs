use component_mirror::rapier_mirrors::collider::{
    ColliderMirror, Compound, CompoundShapeElement, NativePart, NativeShape, Shape, ShapeHolder,
};
use component_mirror::{Quaternion, Vector3};

fn s(v: f32) -> u32 {
    v.to_bits()
}

fn v3(x: f32, y: f32, z: f32) -> Vector3 {
    Vector3 { x: s(x), y: s(y), z: s(z) }
}

fn identity() -> Quaternion {
    Quaternion { x: s(0.0), y: s(0.0), z: s(0.0), w: s(1.0) }
}

fn round_trip(n: NativeShape<String>) -> NativeShape<String> {
    ColliderMirror::from_native(n).into_native()
}

#[test]
fn primitives_round_trip() {
    let shapes = vec![
        NativeShape::Ball { radius: s(0.5) },
        NativeShape::Cuboid { half_extents: v3(1.0, 2.0, 3.0) },
        NativeShape::Capsule { a: v3(0.0, -1.0, 0.0), b: v3(0.0, 1.0, 0.0), radius: s(0.25) },
        NativeShape::Segment { a: v3(1.0, 0.0, 0.0), b: v3(2.0, 0.0, 0.0) },
        NativeShape::Triangle { a: v3(0.0, 0.0, 0.0), b: v3(1.0, 0.0, 0.0), c: v3(0.0, 1.0, 0.0) },
        NativeShape::Cylinder { half_height: s(2.0), radius: s(0.75) },
        NativeShape::Cone { half_height: s(1.5), radius: s(0.5) },
    ];
    for n in shapes {
        let expected = format!("{:?}", n);
        let back = round_trip(n);
        assert_eq!(format!("{:?}", back), expected);
    }
}

#[test]
fn ball_encodes_to_ball_mirror() {
    let m = ColliderMirror::<String>::from_native(NativeShape::Ball { radius: s(0.5) });
    assert_eq!(m.shape, Shape::Ball { radius: s(0.5) });
    assert_eq!(m.shape_rounded, None);
}

#[test]
fn rounded_cuboid_round_trip() {
    let he = v3(1.0, 2.0, 3.0);
    let m = ColliderMirror::<String>::from_native(NativeShape::RoundCuboid {
        half_extents: he,
        border_radius: s(0.1),
    });
    assert_eq!(m.shape, Shape::Cuboid { half_extents: he });
    assert_eq!(m.shape_rounded, Some(s(0.1)));
    assert_eq!(
        m.into_native(),
        NativeShape::RoundCuboid { half_extents: he, border_radius: s(0.1) }
    );
}

#[test]
fn rounded_triangle_cylinder_cone_round_trip() {
    let shapes = vec![
        NativeShape::RoundTriangle {
            a: v3(0.0, 0.0, 0.0),
            b: v3(1.0, 0.0, 0.0),
            c: v3(0.0, 1.0, 0.0),
            border_radius: s(0.05),
        },
        NativeShape::RoundCylinder { half_height: s(1.0), radius: s(0.5), border_radius: s(0.1) },
        NativeShape::RoundCone { half_height: s(1.0), radius: s(0.5), border_radius: s(0.2) },
    ];
    for n in shapes {
        let expected = format!("{:?}", n);
        assert_eq!(format!("{:?}", round_trip(n)), expected);
    }
}

#[test]
fn rounding_on_ball_is_dropped() {
    let m: ColliderMirror<String> = ColliderMirror {
        shape: Shape::Ball { radius: s(1.0) },
        shape_rounded: Some(s(0.5)),
    };
    assert_eq!(m.into_native(), NativeShape::Ball { radius: s(1.0) });
}

#[test]
fn rounding_on_capsule_and_segment_is_dropped() {
    let m: ColliderMirror<String> = ColliderMirror {
        shape: Shape::Capsule { a: v3(0.0, 0.0, 0.0), b: v3(0.0, 1.0, 0.0), radius: s(0.5) },
        shape_rounded: Some(s(0.5)),
    };
    assert_eq!(
        m.into_native(),
        NativeShape::Capsule { a: v3(0.0, 0.0, 0.0), b: v3(0.0, 1.0, 0.0), radius: s(0.5) }
    );
    let m: ColliderMirror<String> = ColliderMirror {
        shape: Shape::Segment { a: v3(0.0, 0.0, 0.0), b: v3(0.0, 1.0, 0.0) },
        shape_rounded: Some(s(0.5)),
    };
    assert_eq!(
        m.into_native(),
        NativeShape::Segment { a: v3(0.0, 0.0, 0.0), b: v3(0.0, 1.0, 0.0) }
    );
}

#[test]
fn rounding_applies_to_unrounded_cylinder_mirror() {
    let m: ColliderMirror<String> = ColliderMirror {
        shape: Shape::Cylinder { half_height: s(1.0), radius: s(2.0) },
        shape_rounded: Some(s(0.25)),
    };
    assert_eq!(
        m.into_native(),
        NativeShape::RoundCylinder { half_height: s(1.0), radius: s(2.0), border_radius: s(0.25) }
    );
}

#[test]
fn height_field_is_held_opaquely() {
    let n = NativeShape::HeightField("terrain-17".to_string());
    let m = ColliderMirror::from_native(n);
    assert_eq!(
        m.shape,
        Shape::UnimplementedYet(ShapeHolder(NativeShape::HeightField("terrain-17".to_string())))
    );
    assert_eq!(m.shape_rounded, None);
    assert_eq!(m.into_native(), NativeShape::HeightField("terrain-17".to_string()));
}

#[test]
fn round_convex_polyhedron_is_held_whole() {
    let n = NativeShape::RoundConvexPolyhedron { handle: "hull".to_string(), border_radius: s(0.3) };
    let m = ColliderMirror::from_native(n);
    assert_eq!(m.shape_rounded, None);
    assert!(matches!(m.shape, Shape::UnimplementedYet(_)));
    assert_eq!(
        m.into_native(),
        NativeShape::RoundConvexPolyhedron { handle: "hull".to_string(), border_radius: s(0.3) }
    );
}

#[test]
fn every_opaque_kind_round_trips() {
    let shapes = vec![
        NativeShape::TriMesh("a".to_string()),
        NativeShape::Polyline("b".to_string()),
        NativeShape::HalfSpace("c".to_string()),
        NativeShape::ConvexPolyhedron("d".to_string()),
        NativeShape::Custom("e".to_string()),
    ];
    for n in shapes {
        let expected = format!("{:?}", n);
        let m = ColliderMirror::from_native(n);
        assert!(matches!(m.shape, Shape::UnimplementedYet(_)));
        assert_eq!(format!("{:?}", m.into_native()), expected);
    }
}

fn part(x: f32, shape: NativeShape<String>) -> NativePart<String> {
    NativePart { translation: v3(x, 0.0, 0.0), rotation: identity(), shape }
}

#[test]
fn compound_keeps_order() {
    let n = NativeShape::Compound(vec![
        part(1.0, NativeShape::Ball { radius: s(0.1) }),
        part(2.0, NativeShape::RoundCuboid { half_extents: v3(1.0, 1.0, 1.0), border_radius: s(0.2) }),
        part(3.0, NativeShape::Cone { half_height: s(0.3), radius: s(0.4) }),
    ]);
    let expected = format!("{:?}", n);
    let m = ColliderMirror::from_native(n);
    match &m.shape {
        Shape::Compound(Compound(elems)) => {
            assert_eq!(elems.len(), 3);
            assert_eq!(elems[0].offset, v3(1.0, 0.0, 0.0));
            assert_eq!(elems[1].offset, v3(2.0, 0.0, 0.0));
            assert_eq!(elems[2].offset, v3(3.0, 0.0, 0.0));
            assert_eq!(elems[0].shape.shape, Shape::Ball { radius: s(0.1) });
            assert_eq!(elems[1].shape.shape_rounded, Some(s(0.2)));
            assert_eq!(elems[2].shape.shape, Shape::Cone { half_height: s(0.3), radius: s(0.4) });
        },
        _ => panic!("not a compound"),
    }
    assert_eq!(format!("{:?}", m.into_native()), expected);
}

#[test]
fn nested_compound_round_trips() {
    let inner = NativeShape::Compound(vec![
        part(5.0, NativeShape::Segment { a: v3(0.0, 0.0, 0.0), b: v3(1.0, 1.0, 1.0) }),
        part(6.0, NativeShape::TriMesh("mesh".to_string())),
    ]);
    let n = NativeShape::Compound(vec![part(4.0, inner), part(7.0, NativeShape::Ball { radius: s(2.0) })]);
    let expected = format!("{:?}", n);
    assert_eq!(format!("{:?}", round_trip(n)), expected);
}

#[test]
fn empty_compound_round_trips() {
    let n: NativeShape<String> = NativeShape::Compound(vec![]);
    assert_eq!(round_trip(n), NativeShape::Compound(vec![]));
}

#[test]
fn compound_mirror_decodes_in_order() {
    let c: Compound<String> = Compound(vec![
        CompoundShapeElement {
            offset: v3(0.0, 1.0, 0.0),
            rotation: identity(),
            shape: ColliderMirror { shape: Shape::Ball { radius: s(1.0) }, shape_rounded: Some(s(0.5)) },
        },
        CompoundShapeElement {
            offset: v3(0.0, 2.0, 0.0),
            rotation: identity(),
            shape: ColliderMirror {
                shape: Shape::Cuboid { half_extents: v3(1.0, 1.0, 1.0) },
                shape_rounded: Some(s(0.5)),
            },
        },
    ]);
    let parts = c.into_rapier();
    assert_eq!(parts.len(), 2);
    assert_eq!(parts[0].translation, v3(0.0, 1.0, 0.0));
    assert_eq!(parts[0].shape, NativeShape::Ball { radius: s(1.0) });
    assert_eq!(parts[1].translation, v3(0.0, 2.0, 0.0));
    assert_eq!(
        parts[1].shape,
        NativeShape::RoundCuboid { half_extents: v3(1.0, 1.0, 1.0), border_radius: s(0.5) }
    );
}

#[test]
fn defaults() {
    let m = ColliderMirror::<String>::default();
    assert_eq!(m.shape, Shape::Cuboid { half_extents: v3(1.0, 1.0, 1.0) });
    assert_eq!(m.shape_rounded, None);
    let c = Compound::<String>::default();
    assert_eq!(c.0.len(), 1);
    assert_eq!(c.0[0].rotation, identity());
    assert_eq!(ShapeHolder::<String>::default().0, NativeShape::Ball { radius: s(1.0) });
}
