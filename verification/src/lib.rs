//! A verified model of a 2D platformer character controller.
//!
//! The controller turns per-tick keyboard input and the result of a
//! ground-detection ray query into movement commands for one player-driven
//! physics body: a horizontal velocity command, a jump impulse, an extra
//! gravity force, and a pause toggle that freezes the body. Rendering,
//! windowing and the physics solver itself are collaborators that live
//! outside this crate; the crate models their shared state (bodies, bounds,
//! input, session state) as plain integer data and proves what each tick
//! does to it.
//!
//! World lengths are measured in milliunits (thousandths of a world unit)
//! and time in milliseconds, so that fractional speeds and ray lengths have
//! exact integer representations.

pub mod body;
pub mod character;
pub mod collider;
pub mod game;
pub mod gameover;
pub mod input;
pub mod math;
pub mod rigidbody;
pub mod states;
pub mod systems;
pub mod world;

pub use math::Vec2;
