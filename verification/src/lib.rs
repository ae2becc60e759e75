//! Verified core of a small interactive 3D scene: a player-driven cube, an
//! orbiting chase camera, and a two-screen state machine (menu and play) that
//! swaps the scene contents through tagged spawn/despawn hooks.
//!
//! Geometry is carried in integer milliunits (1000 = one world unit), so every
//! position, speed and offset the controllers compute is exact.

pub mod control;
pub mod frame;
pub mod input;
pub mod math;
pub mod scene;
pub mod world;

pub use math::Vec3;
