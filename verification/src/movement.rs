//! The movement-intent resolver: held keys become a change of velocity.
//!
//! The held keys are summed into steps along the body's heading, to its right
//! and upwards. The sum is brought to length one, so that moving diagonally is
//! no faster than moving along one axis, then scaled by the speed, the elapsed
//! time and, while sprinting, the sprint multiplier. The result is added to the
//! velocity; the resolver never takes velocity away. A sum of zero has no
//! direction and adds nothing.

use crate::capture::CursorCaptureState;
use crate::fixed::{
    div_toward_zero, floor_sqrt, isqrt, lemma_floor_sqrt_exists, lemma_square_monotonic,
    lemma_toward_zero_error, saturate, saturating_sum, toward_zero, UNIT,
};
use crate::keys::HeldKeys;
use crate::settings::MovementSettings;
use crate::vector::{Direction, Vec3, Vector};
use vstd::arithmetic::div_mod::{lemma_div_pos_is_pos, lemma_fundamental_div_mod, lemma_mod_bound};
use vstd::prelude::*;

verus! {

/// What the held keys ask for: whole steps along the heading, to the right and
/// upwards, and whether to sprint.
#[derive(Clone, Copy, Debug, PartialEq, Eq, Structural)]
pub struct Steering {
    /// Steps forward; negative is backward.
    pub advance: i8,
    /// Steps to the right; negative is to the left.
    pub strafe: i8,
    /// Steps upwards.
    pub ascend: i8,
    /// Whether the sprint multiplier applies.
    pub sprint: bool,
}

/// One step for `positive`, one step back for `negative`.
pub open spec fn net(positive: bool, negative: bool) -> int {
    (if positive { 1int } else { 0int }) - (if negative { 1int } else { 0int })
}

/// What `held` asks for. While the cursor is free the keys ask for nothing.
pub open spec fn steering(held: HeldKeys, capture: CursorCaptureState) -> Steering {
    match capture {
        CursorCaptureState::Free => Steering { advance: 0, strafe: 0, ascend: 0, sprint: false },
        CursorCaptureState::Captured => Steering {
            advance: net(held.forward, held.backward) as i8,
            strafe: net(held.right, held.left) as i8,
            ascend: net(held.ascend, false) as i8,
            sprint: held.sprint,
        },
    }
}

/// The steps of `steer` laid out in space, for a body that faces `forward`.
///
/// The heading is `forward` without its vertical component. Right of it is the
/// horizontal vector a quarter turn clockwise, seen from above. Up is one whole
/// along the vertical axis.
pub open spec fn combined(steer: Steering, forward: Vector) -> Vector {
    Vector {
        x: steer.advance * forward.x - steer.strafe * forward.z,
        y: steer.ascend * UNIT,
        z: steer.advance * forward.z + steer.strafe * forward.x,
    }
}

/// One component of a vector of length one: `component * UNIT` over the
/// vector's length, rounded toward zero.
pub open spec fn unit_component(component: int, length_squared: int) -> int {
    let magnitude = floor_sqrt(
        (component * component * 1_000_000_000_000 / length_squared) as nat,
    ) as int;
    if component >= 0 {
        magnitude
    } else {
        -magnitude
    }
}

/// `v` brought to length one, or `None` where `v` is zero and has no direction.
pub open spec fn normalized(v: Vector) -> Option<Vector> {
    if v.length_squared() == 0 {
        None
    } else {
        Some(
            Vector {
                x: unit_component(v.x, v.length_squared()),
                y: unit_component(v.y, v.length_squared()),
                z: unit_component(v.z, v.length_squared()),
            },
        )
    }
}

/// The length travelled in one tick, before it is cut down to millionths: the
/// product of the speed, the elapsed time and, while sprinting, the sprint
/// multiplier, each in millionths.
pub open spec fn pace(settings: MovementSettings, sprint: bool, delta_time: int) -> int {
    (if sprint { settings.sprint_mult as int } else { UNIT as int }) * settings.speed * delta_time
}

/// A direction of length one stretched to the length `pace`, each component
/// rounded toward zero.
pub open spec fn scaled(direction: Vector, pace: int) -> Vector {
    Vector {
        x: toward_zero(direction.x * pace, 1_000_000_000_000_000_000),
        y: toward_zero(direction.y * pace, 1_000_000_000_000_000_000),
        z: toward_zero(direction.z * pace, 1_000_000_000_000_000_000),
    }
}

/// What one tick adds to the velocity: `None` where the keys, the capture
/// state or the heading leave no direction to move in.
pub open spec fn movement_intent(
    held: HeldKeys,
    capture: CursorCaptureState,
    forward: Vector,
    settings: MovementSettings,
    delta_time: int,
) -> Option<Vector> {
    let steer = steering(held, capture);
    match normalized(combined(steer, forward)) {
        None => None,
        Some(direction) => Some(scaled(direction, pace(settings, steer.sprint, delta_time))),
    }
}

/// The velocity after `intent` has been added to it. A component that no
/// longer fits in 64 bits sticks at the bound.
pub open spec fn pushed(velocity: Vector, intent: Option<Vector>) -> Vector {
    match intent {
        None => velocity,
        Some(change) => Vector {
            x: saturate(velocity.x + change.x),
            y: saturate(velocity.y + change.y),
            z: saturate(velocity.z + change.z),
        },
    }
}

/// Sums the held keys.
pub fn steer(held: HeldKeys, capture: CursorCaptureState) -> (steer: Steering)
    ensures
        steer == steering(held, capture),
{
    let mut steer = Steering { advance: 0, strafe: 0, ascend: 0, sprint: false };
    if capture.is_captured() {
        if held.forward {
            steer.advance = steer.advance + 1;
        }
        if held.backward {
            steer.advance = steer.advance - 1;
        }
        if held.left {
            steer.strafe = steer.strafe - 1;
        }
        if held.right {
            steer.strafe = steer.strafe + 1;
        }
        if held.ascend {
            steer.ascend = steer.ascend + 1;
        }
        if held.sprint {
            steer.sprint = true;
        }
    }
    steer
}

/// Lays the steps of `steer` out in space, for a body that faces `forward`.
fn combine(steer: Steering, forward: Direction) -> (v: Vec3)
    ensures
        v@ == combined(steer, forward@),
        -0x100_0000_0000 <= v.x <= 0x100_0000_0000,
        -0x100_0000_0000 <= v.y <= 0x100_0000_0000,
        -0x100_0000_0000 <= v.z <= 0x100_0000_0000,
{
    let advance: i64 = steer.advance as i64;
    let strafe: i64 = steer.strafe as i64;
    let ascend: i64 = steer.ascend as i64;
    let x: i64 = forward.x as i64;
    let z: i64 = forward.z as i64;
    proof {
        lemma_step_bound(advance as int, x as int);
        lemma_step_bound(advance as int, z as int);
        lemma_step_bound(strafe as int, x as int);
        lemma_step_bound(strafe as int, z as int);
    }
    Vec3 { x: advance * x - strafe * z, y: ascend * UNIT, z: advance * z + strafe * x }
}

/// A few steps along a 32-bit component stay far inside 64 bits.
proof fn lemma_step_bound(steps: int, component: int)
    by (nonlinear_arith)
    requires
        -128 <= steps <= 128,
        -0x8000_0000 <= component <= 0x8000_0000,
    ensures
        -0x80_0000_0000 <= steps * component <= 0x80_0000_0000,
{
}

/// The square of a component within `bound` is within the square of `bound`.
proof fn lemma_square_bound(component: int, bound: int)
    by (nonlinear_arith)
    requires
        -bound <= component <= bound,
    ensures
        0 <= component * component <= bound * bound,
{
}

/// A part of a whole, times `whole_value`, over the whole, is at most `whole_value`.
proof fn lemma_share_bound(part: int, whole: int, whole_value: int)
    by (nonlinear_arith)
    requires
        0 <= part <= whole,
        0 < whole,
        0 <= whole_value,
    ensures
        0 <= part * whole_value / whole <= whole_value,
{
}

/// One component of `v` brought to length one.
fn unit(component: i64, length_squared: u128) -> (n: i64)
    requires
        -0x100_0000_0000 <= component <= 0x100_0000_0000,
        component * component <= length_squared,
        0 < length_squared,
    ensures
        n == unit_component(component as int, length_squared as int),
        -UNIT <= n <= UNIT,
{
    proof {
        lemma_square_bound(component as int, 0x100_0000_0000);
        lemma_share_bound(
            component * component,
            length_squared as int,
            1_000_000_000_000,
        );
    }
    let square: u128 = (component as i128 * component as i128) as u128;
    let share: u128 = square * 1_000_000_000_000 / length_squared;
    let magnitude: u64 = isqrt(share);
    proof {
        if magnitude > 1_000_000 {
            lemma_square_monotonic(1_000_001, magnitude as nat);
        }
    }
    if component >= 0 {
        magnitude as i64
    } else {
        -(magnitude as i64)
    }
}

/// Brings `v` to length one, unless it is zero.
fn normalize(v: Vec3) -> (direction: Option<Vec3>)
    requires
        -0x100_0000_0000 <= v.x <= 0x100_0000_0000,
        -0x100_0000_0000 <= v.y <= 0x100_0000_0000,
        -0x100_0000_0000 <= v.z <= 0x100_0000_0000,
    ensures
        match direction {
            None => normalized(v@) is None,
            Some(d) => normalized(v@) == Some(d@) && -UNIT <= d.x <= UNIT && -UNIT <= d.y <= UNIT
                && -UNIT <= d.z <= UNIT,
        },
{
    proof {
        lemma_square_bound(v.x as int, 0x100_0000_0000);
        lemma_square_bound(v.y as int, 0x100_0000_0000);
        lemma_square_bound(v.z as int, 0x100_0000_0000);
    }
    let xx: u128 = (v.x as i128 * v.x as i128) as u128;
    let yy: u128 = (v.y as i128 * v.y as i128) as u128;
    let zz: u128 = (v.z as i128 * v.z as i128) as u128;
    let length_squared: u128 = xx + yy + zz;
    if length_squared == 0 {
        None
    } else {
        Some(
            Vec3 {
                x: unit(v.x, length_squared),
                y: unit(v.y, length_squared),
                z: unit(v.z, length_squared),
            },
        )
    }
}

/// The length travelled in one tick, before it is cut down to millionths.
fn tick_pace(settings: &MovementSettings, sprint: bool, delta_time: u32) -> (p: u128)
    ensures
        p == pace(*settings, sprint, delta_time as int),
        p <= 0xffff_ffff_ffff_ffff_ffff_ffff,
{
    let factor: u128 = if sprint {
        settings.sprint_mult as u128
    } else {
        1_000_000
    };
    proof {
        let f = factor as int;
        let s = settings.speed as int;
        let t = delta_time as int;
        assert(0 <= f * s <= 0xffff_ffff_ffff_ffff) by (nonlinear_arith)
            requires
                0 <= f <= 0xffff_ffff,
                0 <= s <= 0xffff_ffff,
        ;
        let fs = f * s;
        assert(0 <= fs * t <= 0xffff_ffff_ffff_ffff_ffff_ffff) by (nonlinear_arith)
            requires
                0 <= fs <= 0xffff_ffff_ffff_ffff,
                0 <= t <= 0xffff_ffff,
        ;
    }
    factor * settings.speed as u128 * delta_time as u128
}

/// One component of a direction of length one, stretched to the length `pace`.
fn stretch(component: i64, pace: u128) -> (c: i64)
    requires
        -UNIT <= component <= UNIT,
        pace <= 0xffff_ffff_ffff_ffff_ffff_ffff,
    ensures
        c == toward_zero(component * pace, 1_000_000_000_000_000_000),
{
    proof {
        let n = component as int;
        let p = pace as int;
        assert(-1_000_000 * 0xffff_ffff_ffff_ffff_ffff_ffff <= n * p <= 1_000_000
            * 0xffff_ffff_ffff_ffff_ffff_ffff) by (nonlinear_arith)
            requires
                -1_000_000 <= n <= 1_000_000,
                0 <= p <= 0xffff_ffff_ffff_ffff_ffff_ffff,
        ;
    }
    let product: i128 = component as i128 * pace as i128;
    let change: i128 = div_toward_zero(product, 1_000_000_000_000_000_000);
    change as i64
}

/// Resolves one tick's movement intent: what the held keys add to the
/// velocity of a body that faces `forward`, after `delta_time` millionths of a
/// second.
///
/// The result is `None` where nothing is to be added: while the cursor is
/// free, while no movement key is held, while the held keys cancel each other,
/// and while the heading has no horizontal part for the keys to move along.
pub fn resolve_intent(
    held: HeldKeys,
    capture: CursorCaptureState,
    forward: Direction,
    settings: &MovementSettings,
    delta_time: u32,
) -> (intent: Option<Vec3>)
    ensures
        match intent {
            None => movement_intent(held, capture, forward@, *settings, delta_time as int) is None,
            Some(change) => movement_intent(held, capture, forward@, *settings, delta_time as int)
                == Some(change@),
        },
{
    let steer = steer(held, capture);
    match normalize(combine(steer, forward)) {
        None => None,
        Some(direction) => {
            let pace = tick_pace(settings, steer.sprint, delta_time);
            Some(
                Vec3 {
                    x: stretch(direction.x, pace),
                    y: stretch(direction.y, pace),
                    z: stretch(direction.z, pace),
                },
            )
        },
    }
}

/// Adds one tick's movement intent to `velocity` and says whether there was
/// one.
///
/// The velocity is only ever added to: what the physics engine left in it
/// stays, and where there is no intent it is not touched at all.
pub fn apply_movement(
    velocity: &mut Vec3,
    held: HeldKeys,
    capture: CursorCaptureState,
    forward: Direction,
    settings: &MovementSettings,
    delta_time: u32,
) -> (added: bool)
    ensures
        final(velocity)@ == pushed(
            old(velocity)@,
            movement_intent(held, capture, forward@, *settings, delta_time as int),
        ),
        added == movement_intent(held, capture, forward@, *settings, delta_time as int) is Some,
        !added ==> *final(velocity) == *old(velocity),
{
    match resolve_intent(held, capture, forward, settings, delta_time) {
        None => false,
        Some(change) => {
            velocity.x = saturating_sum(velocity.x, change.x);
            velocity.y = saturating_sum(velocity.y, change.y);
            velocity.z = saturating_sum(velocity.z, change.z);
            true
        },
    }
}

/// While the cursor is free the held keys add nothing to the velocity,
/// whichever keys they are.
pub proof fn law_free_adds_nothing(
    held: HeldKeys,
    forward: Vector,
    settings: MovementSettings,
    delta_time: int,
    velocity: Vector,
)
    ensures
        movement_intent(held, CursorCaptureState::Free, forward, settings, delta_time) is None,
        pushed(
            velocity,
            movement_intent(held, CursorCaptureState::Free, forward, settings, delta_time),
        ) == velocity,
{
    lemma_no_steps(steering(held, CursorCaptureState::Free), forward);
}

/// Steps that sum to zero lay out as the zero vector, which has no direction.
proof fn lemma_no_steps(steer: Steering, forward: Vector)
    requires
        steer.advance == 0,
        steer.strafe == 0,
        steer.ascend == 0,
    ensures
        combined(steer, forward) == Vector::zero(),
        normalized(combined(steer, forward)) is None,
{
    assert(Vector::zero().length_squared() == 0) by (nonlinear_arith);
}

/// Opposite keys cancel. Where each of the keys forward and backward is held
/// only together with the other, likewise left and right, and the ascend key
/// is up, the tick adds nothing to the velocity: the sum of the keys is zero,
/// and a zero sum is dropped instead of being given a direction. Holding no
/// movement key at all is one such case.
pub proof fn law_cancelling_keys_add_nothing(
    held: HeldKeys,
    capture: CursorCaptureState,
    forward: Vector,
    settings: MovementSettings,
    delta_time: int,
    velocity: Vector,
)
    requires
        held.forward == held.backward,
        held.left == held.right,
        !held.ascend,
    ensures
        combined(steering(held, capture), forward) == Vector::zero(),
        movement_intent(held, capture, forward, settings, delta_time) is None,
        pushed(velocity, movement_intent(held, capture, forward, settings, delta_time))
            == velocity,
{
    lemma_no_steps(steering(held, capture), forward);
}

/// A step to the right is level, square to a step forward, and as long as
/// one: right is the heading turned by a quarter, whatever the body faces.
pub proof fn law_right_is_square_to_heading(forward: Vector)
    ensures
        ({
            let ahead = combined(
                Steering { advance: 1, strafe: 0, ascend: 0, sprint: false },
                forward,
            );
            let right = combined(
                Steering { advance: 0, strafe: 1, ascend: 0, sprint: false },
                forward,
            );
            &&& ahead == Vector { x: forward.x, y: 0, z: forward.z }
            &&& right == Vector { x: -forward.z, y: 0, z: forward.x }
            &&& ahead.x * right.x + ahead.y * right.y + ahead.z * right.z == 0
            &&& ahead.length_squared() == right.length_squared()
        }),
{
    let (x, z) = (forward.x, forward.z);
    assert(x * (-z) + 0 * 0 + z * x == 0 && x * x + 0 * 0 + z * z == (-z) * (-z) + 0 * 0 + x * x)
        by (nonlinear_arith);
}

/// A direction of length one is never longer than one, so no combination of
/// keys moves faster than a single key does. Each of its components points
/// the way the component it came from does, and is that component's exact
/// share of the length, rounded toward zero.
pub proof fn law_direction_at_most_unit(v: Vector)
    requires
        v.length_squared() != 0,
    ensures
        normalized(v) is Some,
        normalized(v)->Some_0.length_squared() <= UNIT * UNIT,
        is_unit_share(normalized(v)->Some_0.x, v.x, v.length_squared()),
        is_unit_share(normalized(v)->Some_0.y, v.y, v.length_squared()),
        is_unit_share(normalized(v)->Some_0.z, v.z, v.length_squared()),
{
    let l = v.length_squared();
    let d = normalized(v)->Some_0;
    assert(v.x * v.x >= 0 && v.y * v.y >= 0 && v.z * v.z >= 0) by (nonlinear_arith);
    lemma_unit_share(v.x, l);
    lemma_unit_share(v.y, l);
    lemma_unit_share(v.z, l);
    let (a, b, c) = (d.x * d.x, d.y * d.y, d.z * d.z);
    let (x, y, z) = (v.x * v.x, v.y * v.y, v.z * v.z);
    assert(a + b + c <= 1_000_000_000_000) by (nonlinear_arith)
        requires
            a * l <= x * 1_000_000_000_000,
            b * l <= y * 1_000_000_000_000,
            c * l <= z * 1_000_000_000_000,
            x + y + z == l,
            l > 0,
    ;
}

/// `sprinting` is `walking` times `multiplier`, a factor in millionths, as
/// closely as two values that were each rounded to a whole number can show it.
pub open spec fn is_scaled_by(sprinting: int, walking: int, multiplier: int) -> bool {
    -(UNIT + multiplier) < sprinting * UNIT - walking * multiplier < UNIT + multiplier
}

/// Sprinting scales the movement by exactly the sprint multiplier and keeps
/// its direction: for the same keys, heading and elapsed time, the length
/// travelled in the tick with the sprint key down is the length travelled with
/// it up, times the multiplier. What is added to the velocity is that length
/// cut down to millionths, so the two additions stand in the same ratio up to
/// that rounding.
pub proof fn law_sprint_scales_by_multiplier(
    held: HeldKeys,
    capture: CursorCaptureState,
    forward: Vector,
    settings: MovementSettings,
    delta_time: nat,
)
    ensures
        ({
            let walking = HeldKeys { sprint: false, ..held };
            let sprinting = HeldKeys { sprint: true, ..held };
            let walk = movement_intent(walking, capture, forward, settings, delta_time as int);
            let sprint = movement_intent(sprinting, capture, forward, settings, delta_time as int);
            &&& normalized(combined(steering(sprinting, capture), forward)) == normalized(
                combined(steering(walking, capture), forward),
            )
            &&& pace(settings, true, delta_time as int) * UNIT == pace(
                settings,
                false,
                delta_time as int,
            ) * settings.sprint_mult
            &&& walk is None <==> sprint is None
            &&& walk is Some ==> {
                &&& is_scaled_by(sprint->Some_0.x, walk->Some_0.x, settings.sprint_mult as int)
                &&& is_scaled_by(sprint->Some_0.y, walk->Some_0.y, settings.sprint_mult as int)
                &&& is_scaled_by(sprint->Some_0.z, walk->Some_0.z, settings.sprint_mult as int)
            }
        }),
{
    let walking = HeldKeys { sprint: false, ..held };
    let sprinting = HeldKeys { sprint: true, ..held };
    let m = settings.sprint_mult as int;
    let v = settings.speed as int;
    let t = delta_time as int;
    let fast = pace(settings, true, t);
    let slow = pace(settings, false, t);
    assert(fast * 1_000_000 == slow * m && fast >= 0 && slow >= 0) by (nonlinear_arith)
        requires
            fast == m * v * t,
            slow == 1_000_000 * v * t,
            m >= 0,
            v >= 0,
            t >= 0,
    ;
    match capture {
        CursorCaptureState::Free => {
            lemma_no_steps(steering(walking, capture), forward);
        },
        CursorCaptureState::Captured => {
            let direction = normalized(combined(steering(walking, capture), forward));
            if let Some(d) = direction {
                lemma_scaled_ratio(d.x, slow, fast, m);
                lemma_scaled_ratio(d.y, slow, fast, m);
                lemma_scaled_ratio(d.z, slow, fast, m);
            }
        },
    }
}

/// Two lengths in the ratio of `multiplier` to one stay in that ratio, up to
/// rounding, when a component is stretched to each and cut down to millionths.
proof fn lemma_scaled_ratio(component: int, slow: int, fast: int, multiplier: int)
    requires
        slow >= 0,
        fast >= 0,
        multiplier >= 0,
        fast * 1_000_000 == slow * multiplier,
    ensures
        is_scaled_by(
            toward_zero(component * fast, 1_000_000_000_000_000_000),
            toward_zero(component * slow, 1_000_000_000_000_000_000),
            multiplier,
        ),
{
    let d = 1_000_000_000_000_000_000int;
    let u = 1_000_000int;
    let a = component * fast;
    let b = component * slow;
    let s = toward_zero(a, d);
    let w = toward_zero(b, d);
    lemma_toward_zero_error(a, d);
    lemma_toward_zero_error(b, d);
    let ra = a - s * d;
    let rb = b - w * d;
    assert(a * u == b * multiplier) by (nonlinear_arith)
        requires
            a == component * fast,
            b == component * slow,
            fast * u == slow * multiplier,
    ;
    assert((s * u - w * multiplier) * d == rb * multiplier - ra * u) by (nonlinear_arith)
        requires
            a * u == b * multiplier,
            ra == a - s * d,
            rb == b - w * d,
    ;
    if component >= 0 {
        assert(-(u + multiplier) * d < rb * multiplier - ra * u < (u + multiplier) * d)
            by (nonlinear_arith)
            requires
                0 <= ra < d,
                0 <= rb < d,
                multiplier >= 0,
                u > 0,
        ;
    } else {
        assert(a <= 0 && b <= 0) by (nonlinear_arith)
            requires
                a == component * fast,
                b == component * slow,
                component < 0,
                fast >= 0,
                slow >= 0,
        ;
        assert(-(u + multiplier) * d < rb * multiplier - ra * u < (u + multiplier) * d)
            by (nonlinear_arith)
            requires
                -d < ra <= 0,
                -d < rb <= 0,
                multiplier >= 0,
                u > 0,
        ;
    }
}

/// `n` is `component * UNIT` over the length of a vector whose squared length
/// is `length_squared`, rounded toward zero.
pub open spec fn is_unit_share(n: int, component: int, length_squared: int) -> bool {
    let magnitude = if n >= 0 { n } else { -n };
    &&& component >= 0 ==> n >= 0
    &&& component <= 0 ==> n <= 0
    &&& n * n * length_squared <= component * component * 1_000_000_000_000
    &&& component * component * 1_000_000_000_000 < (magnitude + 1) * (magnitude + 1)
        * length_squared
}

/// `unit_component` computes the share that `is_unit_share` describes.
proof fn lemma_unit_share(component: int, length_squared: int)
    requires
        length_squared > 0,
    ensures
        is_unit_share(
            unit_component(component, length_squared),
            component,
            length_squared,
        ),
{
    let l = length_squared;
    let k = component * component * 1_000_000_000_000;
    assert(k >= 0) by (nonlinear_arith)
        requires
            k == component * component * 1_000_000_000_000,
    ;
    let q = k / l;
    lemma_fundamental_div_mod(k, l);
    lemma_mod_bound(k, l);
    lemma_div_pos_is_pos(k, l);
    lemma_floor_sqrt_exists(q as nat);
    let m = floor_sqrt(q as nat) as int;
    if component == 0 {
        assert(m == 0) by (nonlinear_arith)
            requires
                m * m <= 0,
                m >= 0,
        ;
    }
    let n = unit_component(component, length_squared);
    assert(n * n == m * m) by (nonlinear_arith)
        requires
            n == m || n == -m,
    ;
    assert(m * m * l <= q * l) by (nonlinear_arith)
        requires
            m * m <= q,
            l > 0,
    ;
    assert((q + 1) * l <= (m + 1) * (m + 1) * l) by (nonlinear_arith)
        requires
            q + 1 <= (m + 1) * (m + 1),
            l > 0,
    ;
    assert((q + 1) * l == q * l + l) by (nonlinear_arith);
}

} // verus!
