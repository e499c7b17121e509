//! The controller as one state machine, stepped once per tick.
//!
//! A tick takes what the input layer gathered since the last one, and runs the
//! steps in a fixed order: the capture toggle first, then the look step, then
//! the move step. The physics engine steps after that, outside.

use crate::body::{ControllerEntity, Entity};
use crate::capture::{initial_grab_cursor, CursorCaptureState};
use crate::keys::HeldKeys;
use crate::look::{looked, MotionSample, Orientation, OrientationState, Viewport, PITCH_LIMIT};
use crate::movement::{
    law_cancelling_keys_add_nothing, law_free_adds_nothing, movement_intent,
};
use crate::settings::MovementSettings;
use crate::systems::{accelerate, faced, moved, player_look};
use crate::vector::Direction;
use vstd::prelude::*;

verus! {

/// What the input layer hands over for one tick.
#[derive(Clone, Debug)]
pub struct TickInput {
    /// Whether the capture toggle was triggered since the last tick.
    pub toggle: bool,
    /// The pointer motions since the last tick, oldest first.
    pub samples: Vec<MotionSample>,
    /// The movement keys that are down.
    pub held: HeldKeys,
    /// The way the body faces, read back from the physics engine.
    pub forward: Direction,
    /// The size of the primary viewport.
    pub viewport: Viewport,
    /// The time since the last tick, in millionths of a second.
    pub delta_time: u32,
}

/// What the host has to carry out after a tick.
#[derive(Clone, Copy, Debug, PartialEq, Eq, Structural)]
pub struct TickActions {
    /// The capture state flipped: lock and hide the pointer, or release and
    /// show it, as the new state asks.
    pub capture_changed: bool,
    /// The orientation was written to the entity: turn the body and the camera.
    pub orientation_written: bool,
    /// The velocity was added to: hand it to the physics engine.
    pub velocity_added: bool,
}

/// What a controller holds, as mathematical values.
pub struct ControllerModel {
    pub capture: CursorCaptureState,
    pub orientation: Orientation,
    pub settings: MovementSettings,
}

/// The controller and its entity after one tick.
pub open spec fn ticked(controller: ControllerModel, entity: Entity, input: TickInput) -> (
    ControllerModel,
    Entity,
) {
    let capture = controller.capture.after_signal(input.toggle);
    let orientation = looked(
        controller.orientation,
        capture,
        controller.settings.sensitivity as int,
        input.viewport,
        input.samples@,
    );
    (
        ControllerModel { capture, orientation, settings: controller.settings },
        moved(
            faced(entity, orientation, input.samples@.len() > 0),
            input.held,
            capture,
            input.forward@,
            controller.settings,
            input.delta_time as int,
        ),
    )
}

/// The controller and its entity after the ticks `inputs`, first to last, with
/// nothing else touching the entity in between.
pub open spec fn ran(controller: ControllerModel, entity: Entity, inputs: Seq<TickInput>) -> (
    ControllerModel,
    Entity,
)
    decreases inputs.len(),
{
    if inputs.len() == 0 {
        (controller, entity)
    } else {
        let (c, e) = ran(controller, entity, inputs.drop_last());
        ticked(c, e, inputs.last())
    }
}

/// Whether no movement key is down. The sprint key moves nothing by itself.
pub open spec fn idle(held: HeldKeys) -> bool {
    !held.forward && !held.backward && !held.left && !held.right && !held.ascend
}

/// The state of one controller: capture, orientation and settings.
#[derive(Clone, Copy, Debug)]
pub struct Controller {
    capture: CursorCaptureState,
    orientation: OrientationState,
    settings: MovementSettings,
}

impl View for Controller {
    type V = ControllerModel;

    closed spec fn view(&self) -> ControllerModel {
        ControllerModel {
            capture: self.capture,
            orientation: self.orientation@,
            settings: self.settings,
        }
    }
}

impl Controller {
    /// The controller at startup: the cursor captured, the view level, the yaw
    /// zero. The settings stay as given for the whole session.
    pub fn new(settings: MovementSettings) -> (controller: Controller)
        ensures
            controller@ == (ControllerModel {
                capture: CursorCaptureState::Captured,
                orientation: Orientation { pitch: 0, yaw: 0 },
                settings,
            }),
    {
        Controller {
            capture: initial_grab_cursor(),
            orientation: OrientationState::new(),
            settings,
        }
    }

    /// The capture state.
    pub fn capture(&self) -> (capture: CursorCaptureState)
        ensures
            capture == self@.capture,
    {
        self.capture
    }

    /// The accumulated orientation.
    pub fn orientation(&self) -> (orientation: OrientationState)
        ensures
            orientation@ == self@.orientation,
    {
        self.orientation
    }

    /// The settings of the session.
    pub fn settings(&self) -> (settings: MovementSettings)
        ensures
            settings == self@.settings,
    {
        self.settings
    }

    /// Runs one tick: takes the toggle signal, consumes the motion samples,
    /// and adds the movement intent to the entity's velocity. The result says
    /// which of the three the host has to carry out.
    pub fn tick(&mut self, input: TickInput, entity: &mut ControllerEntity) -> (actions:
        TickActions)
        ensures
            (final(self)@, final(entity)@) == ticked(old(self)@, old(entity)@, input),
            actions.capture_changed == input.toggle,
            actions.orientation_written == (input.samples@.len() > 0),
            actions.velocity_added == movement_intent(
                input.held,
                final(self)@.capture,
                input.forward@,
                old(self)@.settings,
                input.delta_time as int,
            ) is Some,
            -PITCH_LIMIT <= final(self)@.orientation.pitch <= PITCH_LIMIT,
    {
        let capture = self.capture.on_signal(input.toggle);
        let settings = self.settings;
        let mut orientation = self.orientation;
        let orientation_written = player_look(
            &mut orientation,
            capture,
            &settings,
            input.viewport,
            input.samples,
            entity,
        );
        let velocity_added = accelerate(
            entity,
            input.held,
            capture,
            input.forward,
            &settings,
            input.delta_time,
        );
        self.capture = capture;
        self.orientation = orientation;
        TickActions { capture_changed: input.toggle, orientation_written, velocity_added }
    }
}

/// The pitch is within its limits after every tick of every run that started
/// within them, whatever the motion samples held.
pub proof fn law_pitch_stays_within_limits(
    controller: ControllerModel,
    entity: Entity,
    inputs: Seq<TickInput>,
)
    requires
        -PITCH_LIMIT <= controller.orientation.pitch <= PITCH_LIMIT,
    ensures
        -PITCH_LIMIT <= ran(controller, entity, inputs).0.orientation.pitch <= PITCH_LIMIT,
    decreases inputs.len(),
{
    if inputs.len() > 0 {
        law_pitch_stays_within_limits(controller, entity, inputs.drop_last());
    }
}

/// While the cursor is free and is not toggled, ticks change neither the
/// controller nor the velocity, whatever motion and keys they bring.
pub proof fn law_free_ticks_change_nothing(
    controller: ControllerModel,
    entity: Entity,
    inputs: Seq<TickInput>,
)
    requires
        controller.capture == CursorCaptureState::Free,
        forall|i: int| 0 <= i < inputs.len() ==> !(#[trigger] inputs[i]).toggle,
    ensures
        ran(controller, entity, inputs).0 == controller,
        ran(controller, entity, inputs).1.velocity == entity.velocity,
    decreases inputs.len(),
{
    if inputs.len() > 0 {
        let earlier = inputs.drop_last();
        law_free_ticks_change_nothing(controller, entity, earlier);
        let (c, e) = ran(controller, entity, earlier);
        let input = inputs.last();
        law_free_adds_nothing(
            input.held,
            input.forward@,
            c.settings,
            input.delta_time as int,
            faced(e, c.orientation, input.samples@.len() > 0).velocity,
        );
    }
}

/// Releasing the cursor and grabbing it again leaves pitch and yaw as they
/// were. A run that starts captured, is toggled in its first tick and not
/// again, ends free and with the orientation it started with; the next toggle
/// captures the cursor again.
pub proof fn law_release_and_grab_keep_orientation(
    controller: ControllerModel,
    entity: Entity,
    inputs: Seq<TickInput>,
)
    requires
        controller.capture == CursorCaptureState::Captured,
        inputs.len() > 0,
        inputs[0].toggle,
        forall|i: int| 1 <= i < inputs.len() ==> !(#[trigger] inputs[i]).toggle,
    ensures
        ran(controller, entity, inputs).0.orientation == controller.orientation,
        ran(controller, entity, inputs).0.capture == CursorCaptureState::Free,
        ran(controller, entity, inputs).0.capture.after_signal(true)
            == CursorCaptureState::Captured,
    decreases inputs.len(),
{
    let earlier = inputs.drop_last();
    if inputs.len() == 1 {
        assert(ran(controller, entity, earlier) == (controller, entity));
    } else {
        law_release_and_grab_keep_orientation(controller, entity, earlier);
    }
}

/// Ticks during which no movement key is down leave the velocity exactly as
/// it was, for any number of ticks.
pub proof fn law_idle_ticks_keep_velocity(
    controller: ControllerModel,
    entity: Entity,
    inputs: Seq<TickInput>,
)
    requires
        forall|i: int| 0 <= i < inputs.len() ==> idle((#[trigger] inputs[i]).held),
    ensures
        ran(controller, entity, inputs).1.velocity == entity.velocity,
    decreases inputs.len(),
{
    if inputs.len() > 0 {
        let earlier = inputs.drop_last();
        law_idle_ticks_keep_velocity(controller, entity, earlier);
        let (c, e) = ran(controller, entity, earlier);
        let input = inputs.last();
        law_cancelling_keys_add_nothing(
            input.held,
            c.capture.after_signal(input.toggle),
            input.forward@,
            c.settings,
            input.delta_time as int,
            faced(
                e,
                ticked(c, e, input).0.orientation,
                input.samples@.len() > 0,
            ).velocity,
        );
    }
}

} // verus!
