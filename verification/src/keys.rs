//! The keys the controller listens to, and how it reads them from the
//! engine's keyboard state.

use bevy::input::keyboard::KeyCode;
use bevy::input::Input;
use vstd::prelude::*;

verus! {

/// A key the controller is bound to.
#[derive(Clone, Copy, Debug, PartialEq, Eq, Structural)]
pub enum Key {
    /// Advance along the heading.
    W,
    /// Retreat along the heading.
    S,
    /// Strafe to the left.
    A,
    /// Strafe to the right.
    D,
    /// Sprint.
    LShift,
    /// Ascend.
    Space,
    /// Toggle the cursor capture.
    Escape,
}

/// The engine's record of which inputs are down and which went down this frame.
#[verifier::external_type_specification]
#[verifier::external_body]
#[verifier::reject_recursive_types(T)]
pub struct ExInput<T>(Input<T>);

/// The engine's key codes.
#[verifier::external_type_specification]
#[verifier::external_body]
pub struct ExKeyCode(KeyCode);

/// The bound keys that `keys` records as currently down.
pub uninterp spec fn pressed_keys(keys: Input<KeyCode>) -> Set<Key>;

/// The bound keys that `keys` records as having gone down this frame.
pub uninterp spec fn just_pressed_keys(keys: Input<KeyCode>) -> Set<Key>;

/// `Input::pressed` for the key code of `key`: whether the key is among those
/// recorded as down.
#[verifier::external_body]
fn key_pressed(keys: &Input<KeyCode>, key: Key) -> (down: bool)
    ensures
        down == pressed_keys(*keys).contains(key),
{
    keys.pressed(match key {
        Key::W => KeyCode::W,
        Key::S => KeyCode::S,
        Key::A => KeyCode::A,
        Key::D => KeyCode::D,
        Key::LShift => KeyCode::LShift,
        Key::Space => KeyCode::Space,
        Key::Escape => KeyCode::Escape,
    })
}

/// `Input::just_pressed` for the key code of `key`: whether the key is among
/// those recorded as having gone down this frame.
#[verifier::external_body]
fn key_just_pressed(keys: &Input<KeyCode>, key: Key) -> (fresh: bool)
    ensures
        fresh == just_pressed_keys(*keys).contains(key),
{
    keys.just_pressed(match key {
        Key::W => KeyCode::W,
        Key::S => KeyCode::S,
        Key::A => KeyCode::A,
        Key::D => KeyCode::D,
        Key::LShift => KeyCode::LShift,
        Key::Space => KeyCode::Space,
        Key::Escape => KeyCode::Escape,
    })
}

/// The movement keys that are down during one tick.
#[derive(Clone, Copy, Debug, PartialEq, Eq, Structural)]
pub struct HeldKeys {
    /// The advance key.
    pub forward: bool,
    /// The retreat key.
    pub backward: bool,
    /// The strafe-left key.
    pub left: bool,
    /// The strafe-right key.
    pub right: bool,
    /// The ascend key.
    pub ascend: bool,
    /// The sprint key.
    pub sprint: bool,
}

impl HeldKeys {
    /// What is held when the bound keys that are down are exactly `down`.
    pub open spec fn of(down: Set<Key>) -> HeldKeys {
        HeldKeys {
            forward: down.contains(Key::W),
            backward: down.contains(Key::S),
            left: down.contains(Key::A),
            right: down.contains(Key::D),
            ascend: down.contains(Key::Space),
            sprint: down.contains(Key::LShift),
        }
    }

    /// No key is held.
    pub fn none() -> (held: HeldKeys)
        ensures
            held == HeldKeys::of(Set::empty()),
    {
        HeldKeys {
            forward: false,
            backward: false,
            left: false,
            right: false,
            ascend: false,
            sprint: false,
        }
    }
}

/// Reads the movement keys out of the engine's keyboard state.
pub fn read_held_keys(keys: &Input<KeyCode>) -> (held: HeldKeys)
    ensures
        held == HeldKeys::of(pressed_keys(*keys)),
{
    HeldKeys {
        forward: key_pressed(keys, Key::W),
        backward: key_pressed(keys, Key::S),
        left: key_pressed(keys, Key::A),
        right: key_pressed(keys, Key::D),
        ascend: key_pressed(keys, Key::Space),
        sprint: key_pressed(keys, Key::LShift),
    }
}

/// Whether the capture toggle key went down this frame.
pub fn toggle_requested(keys: &Input<KeyCode>) -> (toggle: bool)
    ensures
        toggle == just_pressed_keys(*keys).contains(Key::Escape),
{
    key_just_pressed(keys, Key::Escape)
}

} // verus!
