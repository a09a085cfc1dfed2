//! The joint codec: per-axis motor, limit and lock state of a six-degree-of-freedom
//! joint, between the engine's bitmask form and the mirror's per-group form.
use vstd::prelude::*;

use crate::mirror::Mirror;
use crate::{Flags3, Scalar, Vector3};

verus! {

/// One degree of freedom of a joint.
#[derive(Clone, Copy, Debug, PartialEq, Eq, Structural)]
pub enum Axis {
    X,
    Y,
    Z,
    AngX,
    AngY,
    AngZ,
}

/// The linear axes `{X, Y, Z}` or the angular axes `{AngX, AngY, AngZ}`.
#[derive(Clone, Copy, Debug, PartialEq, Eq, Structural)]
pub enum AxisGroup {
    Linear,
    Angular,
}

/// The bit of an axis in a joint's axis masks.
pub open spec fn axis_bit(a: Axis) -> u8 {
    match a {
        Axis::X => 1,
        Axis::Y => 2,
        Axis::Z => 4,
        Axis::AngX => 8,
        Axis::AngY => 16,
        Axis::AngZ => 32,
    }
}

/// The vector component that stands for an axis: X and AngX are 0, Y and AngY 1,
/// Z and AngZ 2.
pub open spec fn component(a: Axis) -> int {
    match a {
        Axis::X | Axis::AngX => 0,
        Axis::Y | Axis::AngY => 1,
        Axis::Z | Axis::AngZ => 2,
    }
}

/// The axis of a group that stands at vector component `k`.
pub open spec fn group_axis(g: AxisGroup, k: int) -> Axis {
    match g {
        AxisGroup::Linear => if k == 0 { Axis::X } else if k == 1 { Axis::Y } else { Axis::Z },
        AxisGroup::Angular => if k == 0 {
            Axis::AngX
        } else if k == 1 {
            Axis::AngY
        } else {
            Axis::AngZ
        },
    }
}

pub open spec fn comp(v: Vector3, k: int) -> Scalar {
    if k == 0 { v.x } else if k == 1 { v.y } else { v.z }
}

pub open spec fn flag(f: Flags3, k: int) -> bool {
    if k == 0 { f.x } else if k == 1 { f.y } else { f.z }
}

/// Whether a mask holds an axis.
pub open spec fn has_axis(mask: u8, a: Axis) -> bool {
    mask & axis_bit(a) != 0
}

/// The mask with the axis bit cleared, then set again when `on`.
pub open spec fn with_axis(mask: u8, a: Axis, on: bool) -> u8 {
    let cleared = mask & !axis_bit(a);
    if on {
        cleared | axis_bit(a)
    } else {
        cleared
    }
}

proof fn lemma_mask_bits(m: u8, x: u8, y: u8)
    by (bit_vector)
    requires
        x == 1 || x == 2 || x == 4 || x == 8 || x == 16 || x == 32,
        y == 1 || y == 2 || y == 4 || y == 8 || y == 16 || y == 32,
    ensures
        ((m & !x) | x) & x != 0,
        (m & !x) & x == 0,
        (m | x) & x != 0,
        x != y ==> ((((m & !x) | x) & y != 0) == (m & y != 0)),
        x != y ==> (((m & !x) & y != 0) == (m & y != 0)),
        x != y ==> (((m | x) & y != 0) == (m & y != 0)),
        m & x != 0 ==> (m & !x) | x == m,
        m & x == 0 ==> m & !x == m,
        m & x != 0 ==> m | x == m,
{
}

/// What `with_axis` does to each axis of a mask.
pub proof fn lemma_with_axis(m: u8, a: Axis, b: Axis, on: bool)
    ensures
        has_axis(with_axis(m, a, on), a) == on,
        a != b ==> has_axis(with_axis(m, a, on), b) == has_axis(m, b),
        has_axis(m, a) == on ==> with_axis(m, a, on) == m,
        has_axis(m | axis_bit(a), a),
        a != b ==> has_axis(m | axis_bit(a), b) == has_axis(m, b),
        has_axis(m, a) ==> m | axis_bit(a) == m,
{
    lemma_mask_bits(m, axis_bit(a), axis_bit(b));
}

/// A value for each of the six axes of a joint.
#[derive(Clone, Copy, Debug, PartialEq, Eq, Structural)]
pub struct PerAxis<T> {
    pub x: T,
    pub y: T,
    pub z: T,
    pub ang_x: T,
    pub ang_y: T,
    pub ang_z: T,
}

impl<T: Copy> PerAxis<T> {
    pub open spec fn at(self, a: Axis) -> T {
        match a {
            Axis::X => self.x,
            Axis::Y => self.y,
            Axis::Z => self.z,
            Axis::AngX => self.ang_x,
            Axis::AngY => self.ang_y,
            Axis::AngZ => self.ang_z,
        }
    }

    pub open spec fn with(self, a: Axis, v: T) -> Self {
        match a {
            Axis::X => PerAxis { x: v, ..self },
            Axis::Y => PerAxis { y: v, ..self },
            Axis::Z => PerAxis { z: v, ..self },
            Axis::AngX => PerAxis { ang_x: v, ..self },
            Axis::AngY => PerAxis { ang_y: v, ..self },
            Axis::AngZ => PerAxis { ang_z: v, ..self },
        }
    }

    pub fn get(&self, a: Axis) -> (r: T)
        ensures
            r == self.at(a),
    {
        match a {
            Axis::X => self.x,
            Axis::Y => self.y,
            Axis::Z => self.z,
            Axis::AngX => self.ang_x,
            Axis::AngY => self.ang_y,
            Axis::AngZ => self.ang_z,
        }
    }

    pub fn set(&mut self, a: Axis, v: T)
        ensures
            *final(self) == old(self).with(a, v),
    {
        match a {
            Axis::X => self.x = v,
            Axis::Y => self.y = v,
            Axis::Z => self.z = v,
            Axis::AngX => self.ang_x = v,
            Axis::AngY => self.ang_y = v,
            Axis::AngZ => self.ang_z = v,
        }
    }
}

/// The spring-like model used for constraints resolution.
#[derive(Clone, Copy, Debug, PartialEq, Eq, Structural)]
pub enum MotorModel {
    /// The solved spring-like equation is:
    /// `acceleration = stiffness * (pos - target_pos) + damping * (vel - target_vel)`
    AccelerationBased,
    /// The solved spring-like equation is:
    /// `force = stiffness * (pos - target_pos) + damping * (vel - target_vel)`
    ForceBased,
}

impl Default for MotorModel {
    fn default() -> (r: Self)
        ensures
            r == MotorModel::ForceBased,
    {
        MotorModel::ForceBased
    }
}

/// The engine's motor record of one axis.
#[derive(Clone, Copy, Debug, PartialEq, Eq, Structural)]
pub struct NativeMotor {
    pub target_vel: Scalar,
    pub target_pos: Scalar,
    pub stiffness: Scalar,
    pub damping: Scalar,
    pub max_force: Scalar,
    pub impulse: Scalar,
    pub model: MotorModel,
}

/// The engine's limit record of one axis.
#[derive(Clone, Copy, Debug, PartialEq, Eq, Structural)]
pub struct NativeLimits {
    pub min: Scalar,
    pub max: Scalar,
    pub impulse: Scalar,
}

/// The engine's generic joint, as far as the codec reads and writes it: three
/// axis masks, a limit record and a motor record per axis, and the contacts flag.
#[derive(Clone, Copy, Debug, PartialEq, Eq, Structural)]
pub struct NativeJoint {
    pub locked_axes: u8,
    pub limit_axes: u8,
    pub motor_axes: u8,
    pub limits: PerAxis<NativeLimits>,
    pub motors: PerAxis<NativeMotor>,
    pub contacts_enabled: bool,
}

/// The engine's impulse joint: the parent entity, by its bits, and the joint.
#[derive(Clone, Copy, Debug, PartialEq, Eq, Structural)]
pub struct NativeImpulseJoint {
    pub parent: u64,
    pub data: NativeJoint,
}

/// The motor of an axis, present when the motor mask holds the axis.
pub open spec fn motor_spec(j: NativeJoint, a: Axis) -> Option<NativeMotor> {
    if has_axis(j.motor_axes, a) {
        Some(j.motors.at(a))
    } else {
        None
    }
}

/// The limits of an axis, present when the limit mask holds the axis.
pub open spec fn limits_spec(j: NativeJoint, a: Axis) -> Option<NativeLimits> {
    if has_axis(j.limit_axes, a) {
        Some(j.limits.at(a))
    } else {
        None
    }
}

/// Setting a motor's targets and gains also turns the motor on.
pub open spec fn set_motor_spec(
    j: NativeJoint,
    a: Axis,
    target_pos: Scalar,
    target_vel: Scalar,
    stiffness: Scalar,
    damping: Scalar,
) -> NativeJoint {
    let m = j.motors.at(a);
    NativeJoint {
        motor_axes: j.motor_axes | axis_bit(a),
        motors: j.motors.with(
            a,
            NativeMotor { target_vel, target_pos, stiffness, damping, ..m },
        ),
        ..j
    }
}

pub open spec fn set_motor_max_force_spec(j: NativeJoint, a: Axis, max_force: Scalar) -> NativeJoint {
    NativeJoint { motors: j.motors.with(a, NativeMotor { max_force, ..j.motors.at(a) }), ..j }
}

impl NativeJoint {
    pub fn axis_bit(a: Axis) -> (r: u8)
        ensures
            r == axis_bit(a),
    {
        match a {
            Axis::X => 1,
            Axis::Y => 2,
            Axis::Z => 4,
            Axis::AngX => 8,
            Axis::AngY => 16,
            Axis::AngZ => 32,
        }
    }

    pub fn motor(&self, a: Axis) -> (r: Option<NativeMotor>)
        ensures
            r == motor_spec(*self, a),
    {
        if self.motor_axes & Self::axis_bit(a) != 0 {
            Some(self.motors.get(a))
        } else {
            None
        }
    }

    pub fn limits(&self, a: Axis) -> (r: Option<NativeLimits>)
        ensures
            r == limits_spec(*self, a),
    {
        if self.limit_axes & Self::axis_bit(a) != 0 {
            Some(self.limits.get(a))
        } else {
            None
        }
    }

    pub fn is_locked(&self, a: Axis) -> (r: bool)
        ensures
            r == has_axis(self.locked_axes, a),
    {
        self.locked_axes & Self::axis_bit(a) != 0
    }

    pub fn set_motor(
        &mut self,
        a: Axis,
        target_pos: Scalar,
        target_vel: Scalar,
        stiffness: Scalar,
        damping: Scalar,
    )
        ensures
            *final(self) == set_motor_spec(
                *old(self),
                a,
                target_pos,
                target_vel,
                stiffness,
                damping,
            ),
    {
        self.motor_axes = self.motor_axes | Self::axis_bit(a);
        let mut m = self.motors.get(a);
        m.target_vel = target_vel;
        m.target_pos = target_pos;
        m.stiffness = stiffness;
        m.damping = damping;
        self.motors.set(a, m);
    }

    pub fn set_motor_max_force(&mut self, a: Axis, max_force: Scalar)
        ensures
            *final(self) == set_motor_max_force_spec(*old(self), a, max_force),
    {
        let mut m = self.motors.get(a);
        m.max_force = max_force;
        self.motors.set(a, m);
    }
}


/// The mirror of one axis group of a joint: each vector holds the X, Y and Z
/// (or AngX, AngY and AngZ) values in components 0, 1 and 2.
#[derive(Clone, Copy, Debug, PartialEq, Eq, Structural)]
pub struct JointMotor {
    pub target_vel: Vector3,
    pub target_pos: Vector3,
    pub stiffness: Vector3,
    pub damping: Vector3,
    pub impulse: Vector3,
    pub locked: Flags3,
    pub limit_min: Vector3,
    pub limit_max: Vector3,
    pub limit_active: Flags3,
    pub model: MotorModel,
    pub max_force: Vector3,
}

pub open spec fn vec_of(j: NativeJoint, g: AxisGroup, f: spec_fn(NativeMotor) -> Scalar) -> Vector3 {
    Vector3 {
        x: f(j.motors.at(group_axis(g, 0))),
        y: f(j.motors.at(group_axis(g, 1))),
        z: f(j.motors.at(group_axis(g, 2))),
    }
}

/// A limit bound of an axis, or zero where the axis has no limit.
pub open spec fn limit_or_zero(j: NativeJoint, a: Axis, upper: bool) -> Scalar {
    match limits_spec(j, a) {
        Some(l) => if upper { l.max } else { l.min },
        None => 0,
    }
}

/// The mirror of a group: absent exactly when the group's first axis has no
/// motor; otherwise the motor records, the lock and limit masks and the
/// limits of the three axes, and the model of the first axis's motor.
pub open spec fn group_motor(j: NativeJoint, g: AxisGroup) -> Option<JointMotor> {
    let a0 = group_axis(g, 0);
    let a1 = group_axis(g, 1);
    let a2 = group_axis(g, 2);
    if motor_spec(j, a0) is None {
        None
    } else {
        Some(
            JointMotor {
                target_vel: vec_of(j, g, |m: NativeMotor| m.target_vel),
                target_pos: vec_of(j, g, |m: NativeMotor| m.target_pos),
                stiffness: vec_of(j, g, |m: NativeMotor| m.stiffness),
                damping: vec_of(j, g, |m: NativeMotor| m.damping),
                impulse: vec_of(j, g, |m: NativeMotor| m.impulse),
                max_force: vec_of(j, g, |m: NativeMotor| m.max_force),
                locked: Flags3 {
                    x: has_axis(j.locked_axes, a0),
                    y: has_axis(j.locked_axes, a1),
                    z: has_axis(j.locked_axes, a2),
                },
                limit_active: Flags3 {
                    x: limits_spec(j, a0) is Some,
                    y: limits_spec(j, a1) is Some,
                    z: limits_spec(j, a2) is Some,
                },
                limit_min: Vector3 {
                    x: limit_or_zero(j, a0, false),
                    y: limit_or_zero(j, a1, false),
                    z: limit_or_zero(j, a2, false),
                },
                limit_max: Vector3 {
                    x: limit_or_zero(j, a0, true),
                    y: limit_or_zero(j, a1, true),
                    z: limit_or_zero(j, a2, true),
                },
                model: j.motors.at(a0).model,
            },
        )
    }
}

/// Writing one axis of a group mirror to a joint: the motor targets and gains
/// (which turn the motor on), the limit bit, the limits with the motor's
/// impulse where the limit is active, the maximal force, and the lock bit.
pub open spec fn apply_axis_spec(j: NativeJoint, a: Axis, m: JointMotor) -> NativeJoint {
    let k = component(a);
    let active = flag(m.limit_active, k);
    let j1 = set_motor_spec(
        j,
        a,
        comp(m.target_pos, k),
        comp(m.target_vel, k),
        comp(m.stiffness, k),
        comp(m.damping, k),
    );
    let j2 = NativeJoint { limit_axes: with_axis(j1.limit_axes, a, active), ..j1 };
    let j3 = if active {
        NativeJoint {
            limits: j2.limits.with(
                a,
                NativeLimits {
                    min: comp(m.limit_min, k),
                    max: comp(m.limit_max, k),
                    impulse: comp(m.impulse, k),
                },
            ),
            ..j2
        }
    } else {
        j2
    };
    let j4 = set_motor_max_force_spec(j3, a, comp(m.max_force, k));
    NativeJoint { locked_axes: with_axis(j4.locked_axes, a, flag(m.locked, k)), ..j4 }
}

/// Writing a whole group mirror to a joint, axis 0 first.
pub open spec fn apply_group_spec(j: NativeJoint, g: AxisGroup, m: JointMotor) -> NativeJoint {
    apply_axis_spec(
        apply_axis_spec(apply_axis_spec(j, group_axis(g, 0), m), group_axis(g, 1), m),
        group_axis(g, 2),
        m,
    )
}

/// The component of a vector that stands for an axis.
pub fn component_of(a: Axis, v: Vector3) -> (r: Scalar)
    ensures
        r == comp(v, component(a)),
{
    match a {
        Axis::X | Axis::AngX => v.x,
        Axis::Y | Axis::AngY => v.y,
        Axis::Z | Axis::AngZ => v.z,
    }
}

/// The flag that stands for an axis.
pub fn component_of_b(a: Axis, f: Flags3) -> (r: bool)
    ensures
        r == flag(f, component(a)),
{
    match a {
        Axis::X | Axis::AngX => f.x,
        Axis::Y | Axis::AngY => f.y,
        Axis::Z | Axis::AngZ => f.z,
    }
}

impl AxisGroup {
    /// The axis of this group at vector component `k`.
    pub fn axis(self, k: usize) -> (r: Axis)
        requires
            k < 3,
        ensures
            r == group_axis(self, k as int),
            component(r) == k,
    {
        match self {
            AxisGroup::Linear => if k == 0 { Axis::X } else if k == 1 { Axis::Y } else { Axis::Z },
            AxisGroup::Angular => if k == 0 {
                Axis::AngX
            } else if k == 1 {
                Axis::AngY
            } else {
                Axis::AngZ
            },
        }
    }
}

fn limit_bound(j: &NativeJoint, a: Axis, upper: bool) -> (r: Scalar)
    ensures
        r == limit_or_zero(*j, a, upper),
{
    match j.limits(a) {
        Some(l) => if upper { l.max } else { l.min },
        None => 0,
    }
}

impl JointMotor {
    /// Reads a group of a joint; see `group_motor`.
    pub fn from_group(joint: &NativeJoint, g: AxisGroup) -> (r: Option<Self>)
        ensures
            r == group_motor(*joint, g),
    {
        let a0 = g.axis(0);
        let a1 = g.axis(1);
        let a2 = g.axis(2);
        let first = match joint.motor(a0) {
            Some(m) => m,
            None => return None,
        };
        let m0 = joint.motors.get(a0);
        let m1 = joint.motors.get(a1);
        let m2 = joint.motors.get(a2);
        let r = JointMotor {
            target_vel: Vector3 { x: m0.target_vel, y: m1.target_vel, z: m2.target_vel },
            target_pos: Vector3 { x: m0.target_pos, y: m1.target_pos, z: m2.target_pos },
            stiffness: Vector3 { x: m0.stiffness, y: m1.stiffness, z: m2.stiffness },
            damping: Vector3 { x: m0.damping, y: m1.damping, z: m2.damping },
            impulse: Vector3 { x: m0.impulse, y: m1.impulse, z: m2.impulse },
            max_force: Vector3 { x: m0.max_force, y: m1.max_force, z: m2.max_force },
            locked: Flags3 { x: joint.is_locked(a0), y: joint.is_locked(a1), z: joint.is_locked(a2) },
            limit_active: Flags3 {
                x: joint.limits(a0).is_some(),
                y: joint.limits(a1).is_some(),
                z: joint.limits(a2).is_some(),
            },
            limit_min: Vector3 {
                x: limit_bound(joint, a0, false),
                y: limit_bound(joint, a1, false),
                z: limit_bound(joint, a2, false),
            },
            limit_max: Vector3 {
                x: limit_bound(joint, a0, true),
                y: limit_bound(joint, a1, true),
                z: limit_bound(joint, a2, true),
            },
            model: first.model,
        };
        Some(r)
    }

    /// Reads the linear group of a joint.
    pub fn from_linear(joint: &NativeJoint) -> (r: Option<Self>)
        ensures
            r == group_motor(*joint, AxisGroup::Linear),
    {
        Self::from_group(joint, AxisGroup::Linear)
    }

    /// Reads the angular group of a joint.
    pub fn from_angular(joint: &NativeJoint) -> (r: Option<Self>)
        ensures
            r == group_motor(*joint, AxisGroup::Angular),
    {
        Self::from_group(joint, AxisGroup::Angular)
    }

    /// Writes one axis of this mirror to a joint; see `apply_axis_spec`.
    pub fn apply_axis(&self, a: Axis, joint: &mut NativeJoint)
        ensures
            *final(joint) == apply_axis_spec(*old(joint), a, *self),
    {
        let bit = NativeJoint::axis_bit(a);
        joint.set_motor(
            a,
            component_of(a, self.target_pos),
            component_of(a, self.target_vel),
            component_of(a, self.stiffness),
            component_of(a, self.damping),
        );
        let active = component_of_b(a, self.limit_active);
        joint.limit_axes = joint.limit_axes & !bit;
        if active {
            joint.limit_axes = joint.limit_axes | bit;
        }
        if active {
            let l = NativeLimits {
                min: component_of(a, self.limit_min),
                max: component_of(a, self.limit_max),
                impulse: component_of(a, self.impulse),
            };
            joint.limits.set(a, l);
        }
        joint.set_motor_max_force(a, component_of(a, self.max_force));
        joint.locked_axes = joint.locked_axes & !bit;
        if component_of_b(a, self.locked) {
            joint.locked_axes = joint.locked_axes | bit;
        }
    }

    /// Writes this mirror to the three axes of a group, axis 0 first.
    pub fn apply_group(&self, g: AxisGroup, joint: &mut NativeJoint)
        ensures
            *final(joint) == apply_group_spec(*old(joint), g, *self),
    {
        self.apply_axis(g.axis(0), joint);
        self.apply_axis(g.axis(1), joint);
        self.apply_axis(g.axis(2), joint);
    }
}

impl Default for JointMotor {
    fn default() -> (r: Self)
        ensures
            r == (JointMotor {
                target_vel: Vector3 { x: 0, y: 0, z: 0 },
                target_pos: Vector3 { x: 0, y: 0, z: 0 },
                stiffness: Vector3 { x: 0, y: 0, z: 0 },
                damping: Vector3 { x: 0, y: 0, z: 0 },
                impulse: Vector3 { x: 0, y: 0, z: 0 },
                locked: Flags3 { x: false, y: false, z: false },
                limit_min: Vector3 { x: 0, y: 0, z: 0 },
                limit_max: Vector3 { x: 0, y: 0, z: 0 },
                limit_active: Flags3 { x: false, y: false, z: false },
                model: MotorModel::ForceBased,
                max_force: Vector3 { x: 0, y: 0, z: 0 },
            }),
    {
        let zero = Vector3 { x: 0, y: 0, z: 0 };
        let no = Flags3 { x: false, y: false, z: false };
        JointMotor {
            target_vel: zero,
            target_pos: zero,
            stiffness: zero,
            damping: zero,
            impulse: zero,
            locked: no,
            limit_min: zero,
            limit_max: zero,
            limit_active: no,
            model: MotorModel::ForceBased,
            max_force: zero,
        }
    }
}


/// The mirror of an impulse joint.
#[derive(Clone, Copy, Debug, PartialEq, Eq, Structural)]
pub struct ImpulseJointMirror {
    pub parent: u64,
    pub angular: Option<JointMotor>,
    pub linear: Option<JointMotor>,
    pub contacts: bool,
}

/// The mirror of an impulse joint: its parent, both groups and its contacts flag.
pub open spec fn joint_mirror(n: NativeImpulseJoint) -> ImpulseJointMirror {
    ImpulseJointMirror {
        parent: n.parent,
        angular: group_motor(n.data, AxisGroup::Angular),
        linear: group_motor(n.data, AxisGroup::Linear),
        contacts: n.data.contacts_enabled,
    }
}

pub open spec fn apply_opt_group(j: NativeJoint, g: AxisGroup, m: Option<JointMotor>) -> NativeJoint {
    match m {
        Some(m) => apply_group_spec(j, g, m),
        None => j,
    }
}

/// An impulse joint after a mirror is written to it: the parent and the
/// contacts flag are copied, the linear group and then the angular group are
/// written where present.
pub open spec fn joint_applied(m: ImpulseJointMirror, n: NativeImpulseJoint) -> NativeImpulseJoint {
    let d = apply_opt_group(apply_opt_group(n.data, AxisGroup::Linear, m.linear), AxisGroup::Angular, m.angular);
    NativeImpulseJoint { parent: m.parent, data: NativeJoint { contacts_enabled: m.contacts, ..d } }
}

impl ImpulseJointMirror {
    pub fn from_joint(value: &NativeImpulseJoint) -> (r: Self)
        ensures
            r == joint_mirror(*value),
    {
        ImpulseJointMirror {
            parent: value.parent,
            angular: JointMotor::from_angular(&value.data),
            linear: JointMotor::from_linear(&value.data),
            contacts: value.data.contacts_enabled,
        }
    }

    pub fn apply_to_joint(&self, val: &mut NativeImpulseJoint)
        ensures
            *final(val) == joint_applied(*self, *old(val)),
    {
        val.parent = self.parent;
        match &self.linear {
            Some(m) => m.apply_group(AxisGroup::Linear, &mut val.data),
            None => {},
        }
        match &self.angular {
            Some(m) => m.apply_group(AxisGroup::Angular, &mut val.data),
            None => {},
        }
        val.data.contacts_enabled = self.contacts;
    }
}

impl Mirror<NativeImpulseJoint> for ImpulseJointMirror {
    fn from_native(native: &NativeImpulseJoint) -> (r: Self)
        ensures
            r == joint_mirror(*native),
    {
        Self::from_joint(native)
    }

    fn apply(&self, native: &mut NativeImpulseJoint)
        ensures
            *final(native) == joint_applied(*self, *old(native)),
    {
        self.apply_to_joint(native)
    }
}

/// Axis `a` of `j` holds what writing `m` to it puts there.
pub open spec fn settled(j: NativeJoint, a: Axis, m: JointMotor) -> bool {
    let k = component(a);
    let mo = j.motors.at(a);
    &&& has_axis(j.motor_axes, a)
    &&& mo.target_pos == comp(m.target_pos, k)
    &&& mo.target_vel == comp(m.target_vel, k)
    &&& mo.stiffness == comp(m.stiffness, k)
    &&& mo.damping == comp(m.damping, k)
    &&& mo.max_force == comp(m.max_force, k)
    &&& has_axis(j.limit_axes, a) == flag(m.limit_active, k)
    &&& flag(m.limit_active, k) ==> j.limits.at(a) == (NativeLimits {
        min: comp(m.limit_min, k),
        max: comp(m.limit_max, k),
        impulse: comp(m.impulse, k),
    })
    &&& has_axis(j.locked_axes, a) == flag(m.locked, k)
}

/// Axis `b` is the same in two joints.
pub open spec fn same_axis(j1: NativeJoint, j2: NativeJoint, b: Axis) -> bool {
    &&& j1.motors.at(b) == j2.motors.at(b)
    &&& j1.limits.at(b) == j2.limits.at(b)
    &&& has_axis(j1.motor_axes, b) == has_axis(j2.motor_axes, b)
    &&& has_axis(j1.limit_axes, b) == has_axis(j2.limit_axes, b)
    &&& has_axis(j1.locked_axes, b) == has_axis(j2.locked_axes, b)
}

proof fn lemma_apply_axis(j: NativeJoint, a: Axis, b: Axis, m: JointMotor)
    ensures
        settled(apply_axis_spec(j, a, m), a, m),
        a != b ==> same_axis(apply_axis_spec(j, a, m), j, b),
        settled(j, a, m) ==> apply_axis_spec(j, a, m) == j,
{
    let k = component(a);
    let j1 = set_motor_spec(
        j,
        a,
        comp(m.target_pos, k),
        comp(m.target_vel, k),
        comp(m.stiffness, k),
        comp(m.damping, k),
    );
    lemma_with_axis(j.motor_axes, a, b, true);
    lemma_with_axis(j.limit_axes, a, b, flag(m.limit_active, k));
    lemma_with_axis(j.locked_axes, a, b, flag(m.locked, k));
    if settled(j, a, m) {
        assert(j1.motors.at(a) == j.motors.at(a));
        assert(j1.motors == j.motors);
    }
}

/// Writing a group settles its three axes and leaves every other axis as it was.
proof fn lemma_apply_group(j: NativeJoint, g: AxisGroup, m: JointMotor, b: Axis)
    ensures
        settled(apply_group_spec(j, g, m), group_axis(g, 0), m),
        settled(apply_group_spec(j, g, m), group_axis(g, 1), m),
        settled(apply_group_spec(j, g, m), group_axis(g, 2), m),
        (b != group_axis(g, 0) && b != group_axis(g, 1) && b != group_axis(g, 2)) ==> same_axis(
            apply_group_spec(j, g, m),
            j,
            b,
        ),
{
    let a0 = group_axis(g, 0);
    let a1 = group_axis(g, 1);
    let a2 = group_axis(g, 2);
    let j1 = apply_axis_spec(j, a0, m);
    let j2 = apply_axis_spec(j1, a1, m);
    lemma_apply_axis(j, a0, b, m);
    lemma_apply_axis(j1, a1, a0, m);
    lemma_apply_axis(j1, a1, b, m);
    lemma_apply_axis(j2, a2, a0, m);
    lemma_apply_axis(j2, a2, a1, m);
    lemma_apply_axis(j2, a2, b, m);
}

/// Writing a group to a joint whose group axes already hold it changes nothing.
proof fn lemma_apply_group_settled(j: NativeJoint, g: AxisGroup, m: JointMotor)
    requires
        settled(j, group_axis(g, 0), m),
        settled(j, group_axis(g, 1), m),
        settled(j, group_axis(g, 2), m),
    ensures
        apply_group_spec(j, g, m) == j,
{
    lemma_apply_axis(j, group_axis(g, 0), group_axis(g, 1), m);
    lemma_apply_axis(j, group_axis(g, 1), group_axis(g, 2), m);
    lemma_apply_axis(j, group_axis(g, 2), group_axis(g, 0), m);
}

/// Writing a mirror to an impulse joint twice leaves the joint as writing it
/// once does: every mask bit is cleared and set again from the mirror, and
/// every record is overwritten from it.
pub proof fn lemma_joint_apply_idempotent(m: ImpulseJointMirror, n: NativeImpulseJoint)
    ensures
        joint_applied(m, joint_applied(m, n)) == joint_applied(m, n),
{
    let d1 = apply_opt_group(n.data, AxisGroup::Linear, m.linear);
    let d2 = apply_opt_group(d1, AxisGroup::Angular, m.angular);
    let once = joint_applied(m, n);
    let e = once.data;
    if let Some(l) = m.linear {
        lemma_apply_group(n.data, AxisGroup::Linear, l, Axis::X);
        if let Some(an) = m.angular {
            lemma_apply_group(d1, AxisGroup::Angular, an, Axis::X);
            lemma_apply_group(d1, AxisGroup::Angular, an, Axis::Y);
            lemma_apply_group(d1, AxisGroup::Angular, an, Axis::Z);
        }
        lemma_apply_group_settled(e, AxisGroup::Linear, l);
    }
    if let Some(an) = m.angular {
        lemma_apply_group(d1, AxisGroup::Angular, an, Axis::X);
        lemma_apply_group_settled(e, AxisGroup::Angular, an);
    }
}

/// `j` holds what `n` holds, but for the impulse of its active limits.
pub open spec fn agrees_but_limit_impulse(j: NativeJoint, n: NativeJoint) -> bool {
    &&& j.motors == n.motors
    &&& j.motor_axes == n.motor_axes
    &&& j.limit_axes == n.limit_axes
    &&& j.locked_axes == n.locked_axes
    &&& j.contacts_enabled == n.contacts_enabled
    &&& forall|a: Axis|
        {
            &&& (#[trigger] j.limits.at(a)).min == n.limits.at(a).min
            &&& j.limits.at(a).max == n.limits.at(a).max
            &&& !has_axis(n.limit_axes, a) ==> j.limits.at(a) == n.limits.at(a)
        }
}

proof fn lemma_apply_axis_agrees(j: NativeJoint, n: NativeJoint, g: AxisGroup, k: int)
    requires
        0 <= k < 3,
        agrees_but_limit_impulse(j, n),
        has_axis(n.motor_axes, group_axis(g, 0)),
        has_axis(n.motor_axes, group_axis(g, k)),
    ensures
        agrees_but_limit_impulse(
            apply_axis_spec(j, group_axis(g, k), group_motor(n, g)->Some_0),
            n,
        ),
{
    let a = group_axis(g, k);
    let m = group_motor(n, g)->Some_0;
    let j2 = apply_axis_spec(j, a, m);
    assert(component(a) == k);
    lemma_with_axis(j.motor_axes, a, a, true);
    lemma_with_axis(j.limit_axes, a, a, flag(m.limit_active, k));
    lemma_with_axis(j.locked_axes, a, a, flag(m.locked, k));
    assert(j2.motors.at(a) == n.motors.at(a));
    assert(j2.motors == n.motors);
    assert forall|b: Axis|
        {
            &&& (#[trigger] j2.limits.at(b)).min == n.limits.at(b).min
            &&& j2.limits.at(b).max == n.limits.at(b).max
            &&& !has_axis(n.limit_axes, b) ==> j2.limits.at(b) == n.limits.at(b)
        } by {
        assert(j.limits.at(b).min == n.limits.at(b).min);
    }
}

proof fn lemma_apply_group_agrees(j: NativeJoint, n: NativeJoint, g: AxisGroup)
    requires
        agrees_but_limit_impulse(j, n),
        forall|a: Axis| has_axis(n.motor_axes, a),
    ensures
        agrees_but_limit_impulse(apply_group_spec(j, g, group_motor(n, g)->Some_0), n),
{
    let m = group_motor(n, g)->Some_0;
    lemma_apply_axis_agrees(j, n, g, 0);
    let j1 = apply_axis_spec(j, group_axis(g, 0), m);
    lemma_apply_axis_agrees(j1, n, g, 1);
    let j2 = apply_axis_spec(j1, group_axis(g, 1), m);
    lemma_apply_axis_agrees(j2, n, g, 2);
}

/// On an impulse joint with a motor on each of its six axes, writing back its
/// own mirror restores the parent, the contacts flag, every motor record
/// (targets, gains, maximal force), the three axis masks and the limit bounds;
/// only the impulse of an active limit takes the motor's impulse. The mirror
/// read again is the same.
pub proof fn lemma_joint_motor_symmetry(n: NativeImpulseJoint)
    requires
        forall|a: Axis| has_axis(n.data.motor_axes, a),
    ensures
        ({
            let n2 = joint_applied(joint_mirror(n), n);
            &&& n2.parent == n.parent
            &&& agrees_but_limit_impulse(n2.data, n.data)
            &&& joint_mirror(n2) == joint_mirror(n)
        }),
{
    let m = joint_mirror(n);
    assert(has_axis(n.data.motor_axes, Axis::X));
    assert(has_axis(n.data.motor_axes, Axis::AngX));
    lemma_apply_group_agrees(n.data, n.data, AxisGroup::Linear);
    let d1 = apply_opt_group(n.data, AxisGroup::Linear, m.linear);
    lemma_apply_group_agrees(d1, n.data, AxisGroup::Angular);
    let n2 = joint_applied(m, n);
    assert(n2.data.limits.at(Axis::X).min == n.data.limits.at(Axis::X).min);
    assert(n2.data.limits.at(Axis::Y).min == n.data.limits.at(Axis::Y).min);
    assert(n2.data.limits.at(Axis::Z).min == n.data.limits.at(Axis::Z).min);
    assert(n2.data.limits.at(Axis::AngX).min == n.data.limits.at(Axis::AngX).min);
    assert(n2.data.limits.at(Axis::AngY).min == n.data.limits.at(Axis::AngY).min);
    assert(n2.data.limits.at(Axis::AngZ).min == n.data.limits.at(Axis::AngZ).min);
    assert(group_motor(n2.data, AxisGroup::Linear) == group_motor(n.data, AxisGroup::Linear));
    assert(group_motor(n2.data, AxisGroup::Angular) == group_motor(n.data, AxisGroup::Angular));
}

/// A group whose first axis has no motor reads as absent, whatever the other
/// two axes of the group hold.
pub proof fn lemma_no_motor_group(j: NativeJoint, g: AxisGroup)
    requires
        !has_axis(j.motor_axes, group_axis(g, 0)),
    ensures
        group_motor(j, g) is None,
{
}

} // verus!
