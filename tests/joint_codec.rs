use component_mirror::rapier_mirrors::impulse_joint::{
    component_of, component_of_b, Axis, AxisGroup, ImpulseJointMirror, JointMotor, MotorModel,
    NativeImpulseJoint, NativeJoint, NativeLimits, NativeMotor, PerAxis,
};
use component_mirror::{Flags3, Mirror, Vector3};

fn s(v: f32) -> u32 {
    v.to_bits()
}

fn motor(base: f32) -> NativeMotor {
    NativeMotor {
        target_vel: s(base),
        target_pos: s(base + 0.1),
        stiffness: s(base + 0.2),
        damping: s(base + 0.3),
        max_force: s(base + 0.4),
        impulse: s(base + 0.5),
        model: MotorModel::AccelerationBased,
    }
}

fn limits(min: f32, max: f32) -> NativeLimits {
    NativeLimits { min: s(min), max: s(max), impulse: s(9.0) }
}

fn per_axis<T: Copy>(f: impl Fn(f32) -> T) -> PerAxis<T> {
    PerAxis { x: f(1.0), y: f(2.0), z: f(3.0), ang_x: f(4.0), ang_y: f(5.0), ang_z: f(6.0) }
}

fn joint(motor_axes: u8, limit_axes: u8, locked_axes: u8) -> NativeJoint {
    NativeJoint {
        locked_axes,
        limit_axes,
        motor_axes,
        limits: per_axis(|b| limits(-b, b)),
        motors: per_axis(motor),
        contacts_enabled: true,
    }
}

#[test]
fn linear_group_reads_each_axis() {
    let j = joint(0b11_1111, 0b00_0101, 0b00_0010);
    let m = JointMotor::from_linear(&j).unwrap();
    assert_eq!(m.target_vel, Vector3 { x: s(1.0), y: s(2.0), z: s(3.0) });
    assert_eq!(m.target_pos, Vector3 { x: s(1.1), y: s(2.1), z: s(3.1) });
    assert_eq!(m.stiffness, Vector3 { x: s(1.2), y: s(2.2), z: s(3.2) });
    assert_eq!(m.damping, Vector3 { x: s(1.3), y: s(2.3), z: s(3.3) });
    assert_eq!(m.max_force, Vector3 { x: s(1.4), y: s(2.4), z: s(3.4) });
    assert_eq!(m.impulse, Vector3 { x: s(1.5), y: s(2.5), z: s(3.5) });
    assert_eq!(m.locked, Flags3 { x: false, y: true, z: false });
    assert_eq!(m.limit_active, Flags3 { x: true, y: false, z: true });
    assert_eq!(m.limit_min, Vector3 { x: s(-1.0), y: 0, z: s(-3.0) });
    assert_eq!(m.limit_max, Vector3 { x: s(1.0), y: 0, z: s(3.0) });
    assert_eq!(m.model, MotorModel::AccelerationBased);
}

#[test]
fn angular_group_reads_angular_axes() {
    let j = joint(0b11_1111, 0b10_0000, 0b00_1000);
    let m = JointMotor::from_angular(&j).unwrap();
    assert_eq!(m.target_vel, Vector3 { x: s(4.0), y: s(5.0), z: s(6.0) });
    assert_eq!(m.locked, Flags3 { x: true, y: false, z: false });
    assert_eq!(m.limit_active, Flags3 { x: false, y: false, z: true });
    assert_eq!(m.limit_max, Vector3 { x: 0, y: 0, z: s(6.0) });
}

#[test]
fn no_motor_on_first_axis_gives_none() {
    let j = joint(0b11_0110, 0, 0);
    assert!(JointMotor::from_linear(&j).is_none());
    assert!(JointMotor::from_angular(&j).is_none());
}

#[test]
fn motor_on_first_axis_only_gives_group() {
    let j = joint(0b00_1001, 0, 0);
    assert!(JointMotor::from_linear(&j).is_some());
    assert!(JointMotor::from_angular(&j).is_some());
}

#[test]
fn apply_writes_motor_limits_and_locks() {
    let src = joint(0b11_1111, 0b00_0001, 0b00_0100);
    let m = JointMotor::from_linear(&src).unwrap();
    let mut target = NativeJoint {
        locked_axes: 0b00_0011,
        limit_axes: 0b00_0110,
        motor_axes: 0,
        limits: per_axis(|_| limits(0.0, 0.0)),
        motors: per_axis(|_| motor(0.0)),
        contacts_enabled: false,
    };
    m.apply_group(AxisGroup::Linear, &mut target);
    assert_eq!(target.motor_axes, 0b00_0111);
    assert_eq!(target.limit_axes, 0b00_0001);
    assert_eq!(target.locked_axes, 0b00_0100);
    assert_eq!(target.motors.x.target_vel, s(1.0));
    assert_eq!(target.motors.y.damping, s(2.3));
    assert_eq!(target.motors.z.max_force, s(3.4));
    assert_eq!(target.motors.x.impulse, s(0.5));
    // an active limit takes the motor's impulse
    assert_eq!(target.limits.x, NativeLimits { min: s(-1.0), max: s(1.0), impulse: s(1.5) });
    // an inactive limit keeps its record
    assert_eq!(target.limits.y, limits(0.0, 0.0));
    assert_eq!(target.motors.ang_x, motor(0.0));
}

#[test]
fn joint_motor_symmetry() {
    let n = NativeImpulseJoint { parent: 42, data: joint(0b11_1111, 0b01_0010, 0b10_0001) };
    let mirror = ImpulseJointMirror::from_joint(&n);
    let mut back = n;
    mirror.apply_to_joint(&mut back);
    assert_eq!(back.parent, 42);
    assert_eq!(back.data.motors, n.data.motors);
    assert_eq!(back.data.motor_axes, n.data.motor_axes);
    assert_eq!(back.data.limit_axes, n.data.limit_axes);
    assert_eq!(back.data.locked_axes, n.data.locked_axes);
    assert_eq!(back.data.contacts_enabled, true);
    assert_eq!(back.data.limits.x, n.data.limits.x);
    assert_eq!(back.data.limits.y.min, n.data.limits.y.min);
    assert_eq!(back.data.limits.y.impulse, s(2.5));
    assert_eq!(ImpulseJointMirror::from_joint(&back), mirror);
}

#[test]
fn apply_twice_equals_once() {
    let mut off = NativeImpulseJoint { parent: 1, data: joint(0b11_1111, 0b11_1111, 0b11_1111) };
    let mirror = ImpulseJointMirror {
        parent: 7,
        linear: JointMotor::from_linear(&off.data).map(|mut m| {
            m.limit_active = Flags3 { x: false, y: false, z: false };
            m
        }),
        angular: None,
        contacts: false,
    };
    mirror.apply_to_joint(&mut off);
    let once = off;
    mirror.apply_to_joint(&mut off);
    assert_eq!(off, once);
    assert_eq!(once.data.limit_axes, 0b11_1000);
    assert_eq!(once.parent, 7);
}

#[test]
fn mirror_trait_round_trip() {
    let n = NativeImpulseJoint { parent: 3, data: joint(0b00_1000, 0, 0) };
    let m = <ImpulseJointMirror as Mirror<NativeImpulseJoint>>::from_native(&n);
    assert!(m.linear.is_none());
    assert!(m.angular.is_some());
    assert_eq!(m.parent, 3);
    assert!(m.contacts);
    let mut other = NativeImpulseJoint { parent: 0, data: joint(0, 0, 0) };
    other.data.contacts_enabled = false;
    m.apply(&mut other);
    assert_eq!(other.parent, 3);
    assert!(other.data.contacts_enabled);
    assert_eq!(other.data.motor_axes, 0b11_1000);
}

#[test]
fn components_follow_axes() {
    let v = Vector3 { x: 1, y: 2, z: 3 };
    assert_eq!(component_of(Axis::X, v), 1);
    assert_eq!(component_of(Axis::AngY, v), 2);
    assert_eq!(component_of(Axis::Z, v), 3);
    let f = Flags3 { x: false, y: true, z: false };
    assert!(component_of_b(Axis::AngY, f));
    assert!(!component_of_b(Axis::AngZ, f));
}

#[test]
fn set_motor_turns_motor_on() {
    let mut j = joint(0, 0, 0);
    j.set_motor(Axis::AngZ, s(1.0), s(2.0), s(3.0), s(4.0));
    assert_eq!(j.motor_axes, 32);
    let m = j.motor(Axis::AngZ).unwrap();
    assert_eq!((m.target_pos, m.target_vel, m.stiffness, m.damping), (s(1.0), s(2.0), s(3.0), s(4.0)));
    assert!(j.motor(Axis::X).is_none());
    j.set_motor_max_force(Axis::AngZ, s(8.0));
    assert_eq!(j.motors.ang_z.max_force, s(8.0));
}

#[test]
fn default_motor_model_is_force_based() {
    assert_eq!(MotorModel::default(), MotorModel::ForceBased);
    assert_eq!(JointMotor::default().model, MotorModel::ForceBased);
}

#[test]
fn mirror_trait_apply_absent_group_untouched() {
    let n = NativeImpulseJoint { parent: 5, data: joint(0b00_0001, 0b11_1111, 0b11_1111) };
    let m = <ImpulseJointMirror as Mirror<NativeImpulseJoint>>::from_native(&n);
    assert!(m.angular.is_none());
    let mut target = NativeImpulseJoint { parent: 0, data: joint(0, 0b11_1000, 0b10_1000) };
    m.apply(&mut target);
    assert_eq!(target.parent, 5);
    assert_eq!(target.data.motor_axes, 0b00_0111);
    assert_eq!(target.data.limit_axes, 0b11_1111);
    assert_eq!(target.data.locked_axes, 0b10_1111);
}
