//! Session configuration of the controller.

use vstd::prelude::*;

verus! {

/// Mouse sensitivity and movement speed, in millionths.
///
/// The settings are chosen once per session and only read afterwards; all
/// controllers of a session share them.
#[derive(Clone, Copy, Debug)]
pub struct MovementSettings {
    /// Degrees turned per pointer count and viewport pixel.
    pub sensitivity: u32,
    /// Length travelled per second.
    pub speed: u32,
    /// Factor applied to the speed while the sprint key is held.
    pub sprint_mult: u32,
}

impl Default for MovementSettings {
    /// The settings used where none are configured: a sensitivity of 0.00006,
    /// a speed of 12 per second and a sprint multiplier of 1.5.
    fn default() -> (settings: Self)
        ensures
            settings.sensitivity == 60,
            settings.speed == 12_000_000,
            settings.sprint_mult == 1_500_000,
    {
        MovementSettings { sensitivity: 60, speed: 12_000_000, sprint_mult: 1_500_000 }
    }
}

} // verus!
