//! The orientation integrator: pointer motion becomes pitch and yaw.
//!
//! Each motion sample of a tick turns the yaw by the horizontal motion and the
//! pitch by the vertical motion. After the last sample of the tick the pitch is
//! brought back into its limits, once. The two angles stay apart: the yaw turns
//! the body about the vertical axis, the pitch turns the camera about its own
//! horizontal axis, and nothing ever rolls.

use crate::capture::CursorCaptureState;
use crate::fixed::{clamp_between, div_toward_zero, saturate, saturating, toward_zero};
use crate::settings::MovementSettings;
use vstd::prelude::*;

verus! {

/// The pitch never leaves `[-PITCH_LIMIT, PITCH_LIMIT]`: 1.54 radians, just
/// short of looking straight up or down.
pub const PITCH_LIMIT: i64 = 1_540_000;

/// One relative pointer motion, in millionths of a pointer count.
#[derive(Clone, Copy, Debug, PartialEq, Eq, Structural)]
pub struct MotionSample {
    /// Motion to the right.
    pub dx: i32,
    /// Motion downwards.
    pub dy: i32,
}

/// The size of the primary viewport, in pixels.
#[derive(Clone, Copy, Debug, PartialEq, Eq, Structural)]
pub struct Viewport {
    pub width: u32,
    pub height: u32,
}

/// Pitch and yaw as mathematical integers, in millionths of a radian.
pub struct Orientation {
    pub pitch: int,
    pub yaw: int,
}

/// The angle of one motion, in millionths of a radian.
///
/// `sensitivity * delta * extent` is an angle in degrees, with `sensitivity`
/// and `delta` both in millionths. A degree is taken as 0.017453293 radians,
/// and what is left below a millionth of a radian is dropped.
pub open spec fn turn_angle(sensitivity: int, delta: int, extent: int) -> int {
    toward_zero(sensitivity * delta * extent * 17_453_293, 1_000_000_000_000_000)
}

/// `angle` after one motion has been taken off it. An angle that no longer
/// fits in 64 bits sticks at the bound.
pub open spec fn turned(angle: int, sensitivity: int, delta: int, extent: int) -> int {
    saturate(angle - turn_angle(sensitivity, delta, extent))
}

/// `angle` after the motions `deltas` have been taken off it, first to last.
pub open spec fn swept(angle: int, sensitivity: int, extent: int, deltas: Seq<int>) -> int
    decreases deltas.len(),
{
    if deltas.len() == 0 {
        angle
    } else {
        turned(
            swept(angle, sensitivity, extent, deltas.drop_last()),
            sensitivity,
            deltas.last(),
            extent,
        )
    }
}

/// The horizontal motions of `samples`, in order.
pub open spec fn horizontal(samples: Seq<MotionSample>) -> Seq<int> {
    Seq::new(samples.len(), |i: int| samples[i].dx as int)
}

/// The vertical motions of `samples`, in order.
pub open spec fn vertical(samples: Seq<MotionSample>) -> Seq<int> {
    Seq::new(samples.len(), |i: int| samples[i].dy as int)
}

/// The orientation after one tick's motion samples.
///
/// While the cursor is free the samples change nothing. While it is captured
/// every sample turns both angles, and the pitch is limited once, at the end.
pub open spec fn looked(
    before: Orientation,
    capture: CursorCaptureState,
    sensitivity: int,
    viewport: Viewport,
    samples: Seq<MotionSample>,
) -> Orientation {
    match capture {
        CursorCaptureState::Free => before,
        CursorCaptureState::Captured => Orientation {
            pitch: clamp_between(
                swept(before.pitch, sensitivity, viewport.height as int, vertical(samples)),
                -PITCH_LIMIT as int,
                PITCH_LIMIT as int,
            ),
            yaw: swept(before.yaw, sensitivity, viewport.width as int, horizontal(samples)),
        },
    }
}

/// Taking one more sample into account extends both lists of motions by that
/// sample's components.
proof fn lemma_motions_extend(samples: Seq<MotionSample>, n: int)
    requires
        0 <= n < samples.len(),
    ensures
        horizontal(samples.take(n + 1)).drop_last() == horizontal(samples.take(n)),
        horizontal(samples.take(n + 1)).last() == samples[n].dx as int,
        vertical(samples.take(n + 1)).drop_last() == vertical(samples.take(n)),
        vertical(samples.take(n + 1)).last() == samples[n].dy as int,
{
}

/// Takes one motion off an angle.
fn turn(angle: i64, sensitivity: u32, delta: i32, extent: u32) -> (after: i64)
    ensures
        after == turned(angle as int, sensitivity as int, delta as int, extent as int),
{
    proof {
        let s = sensitivity as int;
        let d = delta as int;
        let e = extent as int;
        assert(-0x8000_0000_0000_0000 <= s * d <= 0x8000_0000_0000_0000) by (nonlinear_arith)
            requires
                0 <= s <= 0xffff_ffff,
                -0x8000_0000 <= d <= 0x8000_0000,
        ;
        let sd = s * d;
        assert(-0x8000_0000_0000_0000_0000_0000 <= sd * e <= 0x8000_0000_0000_0000_0000_0000)
            by (nonlinear_arith)
            requires
                -0x8000_0000_0000_0000 <= sd <= 0x8000_0000_0000_0000,
                0 <= e <= 0xffff_ffff,
        ;
    }
    let degrees: i128 = sensitivity as i128 * delta as i128 * extent as i128;
    let radians: i128 = div_toward_zero(degrees * 17_453_293, 1_000_000_000_000_000);
    saturating(angle as i128 - radians)
}

/// Pitch and yaw of one controller, in millionths of a radian.
///
/// The state lasts for the whole session. The pitch is always within
/// `[-PITCH_LIMIT, PITCH_LIMIT]`; the yaw is not limited.
#[derive(Clone, Copy, Debug)]
pub struct OrientationState {
    pitch: i64,
    yaw: i64,
}

impl View for OrientationState {
    type V = Orientation;

    closed spec fn view(&self) -> Orientation {
        Orientation { pitch: self.pitch as int, yaw: self.yaw as int }
    }
}

impl OrientationState {
    /// The pitch is within its limits.
    #[verifier::type_invariant]
    pub closed spec fn wf(self) -> bool {
        -PITCH_LIMIT <= self.pitch <= PITCH_LIMIT
    }

    /// The orientation at startup: level, yaw zero.
    pub fn new() -> (state: OrientationState)
        ensures
            state@ == (Orientation { pitch: 0, yaw: 0 }),
    {
        OrientationState { pitch: 0, yaw: 0 }
    }

    /// The pitch, within its limits.
    pub fn pitch(&self) -> (pitch: i64)
        ensures
            pitch == self@.pitch,
            -PITCH_LIMIT <= pitch <= PITCH_LIMIT,
    {
        proof {
            use_type_invariant(self);
        }
        self.pitch
    }

    /// The yaw.
    pub fn yaw(&self) -> (yaw: i64)
        ensures
            yaw == self@.yaw,
    {
        self.yaw
    }

    /// Consumes one tick's motion samples. They are handed over for good, so
    /// that no sample is ever applied twice.
    ///
    /// The pitch is within its limits afterwards, whatever the samples hold.
    pub fn integrate(
        &mut self,
        capture: CursorCaptureState,
        settings: &MovementSettings,
        viewport: Viewport,
        samples: Vec<MotionSample>,
    )
        ensures
            final(self)@ == looked(
                old(self)@,
                capture,
                settings.sensitivity as int,
                viewport,
                samples@,
            ),
            -PITCH_LIMIT <= final(self)@.pitch <= PITCH_LIMIT,
            capture == CursorCaptureState::Free || samples@.len() == 0 ==> *final(self) == *old(
                self,
            ),
    {
        proof {
            use_type_invariant(&*self);
        }
        if !capture.is_captured() {
            return ;
        }
        let mut pitch: i64 = self.pitch;
        let mut yaw: i64 = self.yaw;
        let mut i: usize = 0;
        while i < samples.len()
            invariant
                i <= samples.len(),
                pitch == swept(
                    self.pitch as int,
                    settings.sensitivity as int,
                    viewport.height as int,
                    vertical(samples@.take(i as int)),
                ),
                yaw == swept(
                    self.yaw as int,
                    settings.sensitivity as int,
                    viewport.width as int,
                    horizontal(samples@.take(i as int)),
                ),
            decreases samples.len() - i,
        {
            let sample = samples[i];
            proof {
                lemma_motions_extend(samples@, i as int);
            }
            yaw = turn(yaw, settings.sensitivity, sample.dx, viewport.width);
            pitch = turn(pitch, settings.sensitivity, sample.dy, viewport.height);
            i += 1;
        }
        assert(samples@.take(i as int) == samples@);
        if pitch < -PITCH_LIMIT {
            pitch = -PITCH_LIMIT;
        } else if pitch > PITCH_LIMIT {
            pitch = PITCH_LIMIT;
        }
        self.pitch = pitch;
        self.yaw = yaw;
    }
}

/// While the cursor is captured the pitch ends every tick within its limits,
/// whatever it was before and however large the motions are.
pub proof fn law_pitch_within_limits(
    before: Orientation,
    sensitivity: int,
    viewport: Viewport,
    samples: Seq<MotionSample>,
)
    ensures
        -PITCH_LIMIT <= looked(
            before,
            CursorCaptureState::Captured,
            sensitivity,
            viewport,
            samples,
        ).pitch <= PITCH_LIMIT,
{
}

/// While the cursor is free, motion samples leave pitch and yaw as they are.
pub proof fn law_free_look_changes_nothing(
    before: Orientation,
    sensitivity: int,
    viewport: Viewport,
    samples: Seq<MotionSample>,
)
    ensures
        looked(before, CursorCaptureState::Free, sensitivity, viewport, samples) == before,
{
}

/// A tick without motion samples leaves an orientation that is within the
/// limits as it is.
pub proof fn law_empty_stream_changes_nothing(
    before: Orientation,
    capture: CursorCaptureState,
    sensitivity: int,
    viewport: Viewport,
)
    requires
        -PITCH_LIMIT <= before.pitch <= PITCH_LIMIT,
    ensures
        looked(before, capture, sensitivity, viewport, Seq::empty()) == before,
{
}

} // verus!
