//! The controller's three steps of a tick, each on its own.
//!
//! A host that keeps the capture state, the orientation and the entity in
//! places of its own calls these in order: `cursor_grab`, `player_look`,
//! `player_move`, and then lets the physics engine step.

use crate::body::{ControllerEntity, Entity};
use crate::capture::CursorCaptureState;
use crate::keys::{just_pressed_keys, pressed_keys, read_held_keys, toggle_requested, HeldKeys, Key};
use crate::look::{
    looked, MotionSample, Orientation, OrientationState, Viewport, PITCH_LIMIT,
};
use crate::movement::{apply_movement, movement_intent, pushed};
use crate::settings::MovementSettings;
use crate::vector::{Direction, Vector};
use bevy::input::keyboard::KeyCode;
use bevy::input::Input;
use vstd::prelude::*;

verus! {

/// The entity after the look step: where the step writes, the body takes the
/// yaw and the camera takes the pitch.
pub open spec fn faced(entity: Entity, orientation: Orientation, written: bool) -> Entity {
    if written {
        Entity { yaw: orientation.yaw, camera_pitch: orientation.pitch, ..entity }
    } else {
        entity
    }
}

/// The entity after the move step: the tick's movement intent is added to its
/// velocity.
pub open spec fn moved(
    entity: Entity,
    held: HeldKeys,
    capture: CursorCaptureState,
    forward: Vector,
    settings: MovementSettings,
    delta_time: int,
) -> Entity {
    Entity {
        velocity: pushed(
            entity.velocity,
            movement_intent(held, capture, forward, settings, delta_time),
        ),
        ..entity
    }
}

/// The capture step: flips the capture state if the toggle key went down this
/// frame, and says whether it did. After a flip the host has to lock and hide
/// the pointer, or release and show it, as the new state asks.
pub fn cursor_grab(keys: &Input<KeyCode>, state: &mut CursorCaptureState) -> (toggled: bool)
    ensures
        toggled == just_pressed_keys(*keys).contains(Key::Escape),
        *final(state) == old(state).after_signal(toggled),
{
    let toggled = toggle_requested(keys);
    *state = state.on_signal(toggled);
    toggled
}

/// The look step: consumes the tick's motion samples and turns the entity.
///
/// The samples go into the orientation as `OrientationState::integrate` says.
/// If there was at least one sample, the orientation is written to the entity
/// and the result is `true`: the host then has to turn the body and the camera.
/// A tick without samples leaves the entity as it is.
pub fn player_look(
    state: &mut OrientationState,
    capture: CursorCaptureState,
    settings: &MovementSettings,
    viewport: Viewport,
    samples: Vec<MotionSample>,
    entity: &mut ControllerEntity,
) -> (written: bool)
    ensures
        final(state)@ == looked(
            old(state)@,
            capture,
            settings.sensitivity as int,
            viewport,
            samples@,
        ),
        capture == CursorCaptureState::Free || samples@.len() == 0 ==> *final(state) == *old(
            state,
        ),
        -PITCH_LIMIT <= final(state)@.pitch <= PITCH_LIMIT,
        written == (samples@.len() > 0),
        final(entity)@ == faced(old(entity)@, final(state)@, written),
{
    let written = samples.len() > 0;
    state.integrate(capture, settings, viewport, samples);
    if written {
        entity.orient(state);
    }
    written
}

/// The move step on a snapshot of the held keys: adds the tick's movement
/// intent to the entity's velocity, and says whether there was one. Only then
/// has the host a new velocity to hand to the physics engine.
pub fn accelerate(
    entity: &mut ControllerEntity,
    held: HeldKeys,
    capture: CursorCaptureState,
    forward: Direction,
    settings: &MovementSettings,
    delta_time: u32,
) -> (added: bool)
    ensures
        final(entity)@ == moved(
            old(entity)@,
            held,
            capture,
            forward@,
            *settings,
            delta_time as int,
        ),
        added == movement_intent(held, capture, forward@, *settings, delta_time as int) is Some,
        !added ==> final(entity)@ == old(entity)@,
{
    let mut velocity = entity.velocity();
    let added = apply_movement(&mut velocity, held, capture, forward, settings, delta_time);
    entity.set_velocity(velocity);
    added
}

/// The move step: reads the movement keys that are down, adds the tick's
/// movement intent to the entity's velocity, and says whether there was one.
pub fn player_move(
    keys: &Input<KeyCode>,
    capture: CursorCaptureState,
    forward: Direction,
    settings: &MovementSettings,
    delta_time: u32,
    entity: &mut ControllerEntity,
) -> (added: bool)
    ensures
        final(entity)@ == moved(
            old(entity)@,
            HeldKeys::of(pressed_keys(*keys)),
            capture,
            forward@,
            *settings,
            delta_time as int,
        ),
        added == movement_intent(
            HeldKeys::of(pressed_keys(*keys)),
            capture,
            forward@,
            *settings,
            delta_time as int,
        ) is Some,
        !added ==> final(entity)@ == old(entity)@,
{
    let held = read_held_keys(keys);
    accelerate(entity, held, capture, forward, settings, delta_time)
}

} // verus!
