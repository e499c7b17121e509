//! The controlled entity and its one-time construction.
//!
//! The physics engine owns the rigid body and the collider; the controller
//! keeps the handle it was given for them, the velocity it adds to, the yaw it
//! turns the body by, and one camera child that carries the pitch.

use crate::fixed::UNIT;
use crate::look::OrientationState;
use crate::vector::{Vec3, Vector};
use vstd::prelude::*;

verus! {

/// How the physics engine moves a body.
#[derive(Clone, Copy, Debug, PartialEq, Eq, Structural)]
pub enum BodyKind {
    /// Moved by forces, velocity and collisions.
    Dynamic,
    /// Moved only by whoever owns it; pushes other bodies aside.
    Kinematic,
    /// Never moves.
    Static,
}

/// What the physics engine needs to know to create the controller's body.
#[derive(Clone, Copy, Debug, PartialEq, Eq, Structural)]
pub struct BodyDescriptor {
    pub kind: BodyKind,
    /// Where the body is placed, in millionths.
    pub position: Vec3,
    /// Whether the engine must keep the body from turning about the x axis.
    pub lock_rotation_x: bool,
    /// Whether the engine must keep the body from turning about the y axis.
    pub lock_rotation_y: bool,
    /// Whether the engine must keep the body from turning about the z axis.
    pub lock_rotation_z: bool,
}

/// An upright capsule, the controller's collision shape; lengths in millionths.
#[derive(Clone, Copy, Debug, PartialEq, Eq, Structural)]
pub struct ColliderDescriptor {
    /// The radius of the capsule's caps.
    pub radius: i64,
    /// Half the height of the capsule's straight part.
    pub half_height: i64,
}

/// The link between a controller and the physics engine's records of its body
/// and collider. The identifiers mean nothing to the controller.
#[derive(Clone, Copy, Debug, PartialEq, Eq, Structural)]
pub struct BodyHandle {
    pub body: u64,
    pub collider: u64,
}

/// An axis of the coordinate system.
#[derive(Clone, Copy, Debug, PartialEq, Eq, Structural)]
pub enum Axis {
    /// The horizontal axis that points to the right.
    X,
    /// The vertical axis.
    Y,
    /// The horizontal axis that points backwards.
    Z,
}

/// A rotation by `angle` millionths of a radian about `axis`.
#[derive(Clone, Copy, Debug, PartialEq, Eq, Structural)]
pub struct AxisAngle {
    pub axis: Axis,
    pub angle: i64,
}

/// Why a controller could not be constructed.
#[derive(Clone, Copy, Debug, PartialEq, Eq, Structural)]
pub enum SpawnError {
    /// The physics engine gave no rigid body.
    NoBody,
    /// The physics engine gave no collider.
    NoCollider,
}

/// The camera of a controller. It has no position of its own: it sits where
/// its parent is and only tilts.
#[derive(Clone, Copy, Debug, PartialEq, Eq, Structural)]
pub struct CameraNode {
    pitch: i64,
}

impl CameraNode {
    /// The tilt of the camera, in millionths of a radian.
    pub closed spec fn pitch_angle(self) -> int {
        self.pitch as int
    }

    /// The tilt of the camera, in millionths of a radian.
    pub fn pitch(&self) -> (pitch: i64)
        ensures
            pitch == self.pitch_angle(),
    {
        self.pitch
    }

    /// The camera's rotation relative to its parent: the pitch, about the
    /// camera's own horizontal axis.
    pub fn rotation(&self) -> (rotation: AxisAngle)
        ensures
            rotation.axis == Axis::X,
            rotation.angle == self.pitch_angle(),
    {
        AxisAngle { axis: Axis::X, angle: self.pitch }
    }
}

/// What a controlled entity holds, as mathematical values.
pub struct Entity {
    pub handle: BodyHandle,
    pub velocity: Vector,
    pub yaw: int,
    pub camera_pitch: int,
}

/// The controlled actor: a physics body with a camera for a head.
#[derive(Clone, Copy, Debug)]
pub struct ControllerEntity {
    handle: BodyHandle,
    velocity: Vec3,
    yaw: i64,
    camera: CameraNode,
}

impl View for ControllerEntity {
    type V = Entity;

    closed spec fn view(&self) -> Entity {
        Entity {
            handle: self.handle,
            velocity: self.velocity@,
            yaw: self.yaw as int,
            camera_pitch: self.camera.pitch_angle(),
        }
    }
}

impl ControllerEntity {
    /// The handle given at construction. Nothing ever changes it.
    pub fn handle(&self) -> (handle: BodyHandle)
        ensures
            handle == self@.handle,
    {
        self.handle
    }

    /// The linear velocity, in millionths per second.
    pub fn velocity(&self) -> (velocity: Vec3)
        ensures
            velocity@ == self@.velocity,
    {
        self.velocity
    }

    /// The yaw last written to the body, in millionths of a radian.
    pub fn yaw(&self) -> (yaw: i64)
        ensures
            yaw == self@.yaw,
    {
        self.yaw
    }

    /// The camera child.
    pub fn camera(&self) -> (camera: CameraNode)
        ensures
            camera.pitch_angle() == self@.camera_pitch,
    {
        self.camera
    }

    /// The body's rotation: the yaw, about the vertical axis.
    pub fn body_rotation(&self) -> (rotation: AxisAngle)
        ensures
            rotation.axis == Axis::Y,
            rotation.angle == self@.yaw,
    {
        AxisAngle { axis: Axis::Y, angle: self.yaw }
    }

    /// Takes over the velocity that the physics step left in the body.
    pub fn set_velocity(&mut self, velocity: Vec3)
        ensures
            final(self)@ == (Entity { velocity: velocity@, ..old(self)@ }),
    {
        self.velocity = velocity;
    }

    /// Writes an orientation to the entity: the yaw to the body, the pitch to
    /// the camera.
    pub fn orient(&mut self, orientation: &OrientationState)
        ensures
            final(self)@ == (Entity {
                yaw: orientation@.yaw,
                camera_pitch: orientation@.pitch,
                ..old(self)@
            }),
    {
        self.yaw = orientation.yaw();
        self.camera = CameraNode { pitch: orientation.pitch() };
    }
}

/// The body of a controller: dynamic, placed at the origin, free to turn about
/// every axis.
pub fn body_descriptor() -> (body: BodyDescriptor)
    ensures
        body == (BodyDescriptor {
            kind: BodyKind::Dynamic,
            position: Vec3 { x: 0, y: 0, z: 0 },
            lock_rotation_x: false,
            lock_rotation_y: false,
            lock_rotation_z: false,
        }),
{
    BodyDescriptor {
        kind: BodyKind::Dynamic,
        position: Vec3::zero(),
        lock_rotation_x: false,
        lock_rotation_y: false,
        lock_rotation_z: false,
    }
}

/// The collider of a controller: a capsule of radius one and half-height one.
pub fn collider_descriptor() -> (collider: ColliderDescriptor)
    ensures
        collider == (ColliderDescriptor { radius: UNIT, half_height: UNIT }),
{
    ColliderDescriptor { radius: UNIT, half_height: UNIT }
}

/// Constructs the controlled entity around the handles that the physics
/// engine gave for its body and its collider.
///
/// The entity starts at rest, with yaw zero and a level camera. Without a body
/// or without a collider there is no controller; the body is asked for first.
pub fn setup_player(body: Option<u64>, collider: Option<u64>) -> (spawned: Result<
    ControllerEntity,
    SpawnError,
>)
    ensures
        match (body, collider) {
            (None, _) => spawned == Err::<ControllerEntity, SpawnError>(SpawnError::NoBody),
            (Some(_), None) => spawned == Err::<ControllerEntity, SpawnError>(
                SpawnError::NoCollider,
            ),
            (Some(b), Some(c)) => spawned is Ok && spawned->Ok_0@ == (Entity {
                handle: BodyHandle { body: b, collider: c },
                velocity: Vector::zero(),
                yaw: 0,
                camera_pitch: 0,
            }),
        },
{
    match body {
        None => Err(SpawnError::NoBody),
        Some(b) => match collider {
            None => Err(SpawnError::NoCollider),
            Some(c) => Ok(
                ControllerEntity {
                    handle: BodyHandle { body: b, collider: c },
                    velocity: Vec3::zero(),
                    yaw: 0,
                    camera: CameraNode { pitch: 0 },
                },
            ),
        },
    }
}

} // verus!
