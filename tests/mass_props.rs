use component_mirror::rapier_mirrors::collider::{
    AdditionalMassPropertiesMirror, ColliderMassPropertiesMirror, MassProps,
    NativeAdditionalMassProperties, NativeColliderMassProperties, NativeMassProperties,
};
use component_mirror::{Mirror, Quaternion, Vector3};

fn s(v: f32) -> u32 {
    v.to_bits()
}

fn props() -> NativeMassProperties {
    NativeMassProperties {
        local_center_of_mass: Vector3 { x: s(0.0), y: s(1.0), z: s(0.0) },
        mass: s(5.0),
        principal_inertia_local_frame: Quaternion { x: 0, y: 0, z: 0, w: s(1.0) },
        principal_inertia: Vector3 { x: s(1.0), y: s(2.0), z: s(3.0) },
    }
}

#[test]
fn mass_props_fields_map() {
    let m = MassProps::from_rapier(&props());
    assert_eq!(m.mass, s(5.0));
    assert_eq!(m.principal_inertia, Vector3 { x: s(1.0), y: s(2.0), z: s(3.0) });
    assert_eq!(m.inertia_local_frame, props().principal_inertia_local_frame);
    assert_eq!(m.into_rapier(), props());
}

#[test]
fn additional_mass_round_trip() {
    for n in [NativeAdditionalMassProperties::Mass(s(3.0)), NativeAdditionalMassProperties::MassProperties(props())] {
        let m = AdditionalMassPropertiesMirror::from_native(&n);
        let mut back = NativeAdditionalMassProperties::Mass(0);
        m.apply(&mut back);
        assert_eq!(back, n);
    }
    assert_eq!(
        AdditionalMassPropertiesMirror::from_rapier(&NativeAdditionalMassProperties::Mass(s(3.0))),
        AdditionalMassPropertiesMirror::Mass(s(3.0))
    );
}

#[test]
fn collider_mass_round_trip() {
    for n in [
        NativeColliderMassProperties::Density(s(2.0)),
        NativeColliderMassProperties::Mass(s(3.0)),
        NativeColliderMassProperties::MassProperties(props()),
    ] {
        let m = ColliderMassPropertiesMirror::from_rapier(&n);
        let mut back = NativeColliderMassProperties::Density(0);
        m.apply_to(&mut back);
        assert_eq!(back, n);
    }
    assert_eq!(
        ColliderMassPropertiesMirror::from_rapier(&NativeColliderMassProperties::Density(s(2.0))),
        ColliderMassPropertiesMirror::Density(s(2.0))
    );
}
