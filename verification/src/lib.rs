//! The core of a first-person character controller.
//!
//! The controller turns keyboard and pointer input into the motion of a
//! physics body that carries a camera. This crate holds its rules, with
//! their contracts: the cursor-capture state machine, the integration of
//! pointer motion into pitch and yaw, the resolution of held keys into a
//! change of velocity, and the one-time construction of the controlled
//! entity. The engine that gathers input, renders and steps the physics stays
//! outside; it hands over plain values once per tick and carries out what
//! comes back.
//!
//! All fractional quantities are whole numbers of millionths: see [`fixed`].

pub mod body;
pub mod capture;
pub mod controller;
pub mod fixed;
pub mod keys;
pub mod look;
pub mod movement;
pub mod settings;
pub mod systems;
pub mod vector;

pub use body::{BodyHandle, CameraNode, ControllerEntity};
pub use capture::CursorCaptureState;
pub use controller::Controller;
pub use look::OrientationState;
pub use settings::MovementSettings;
