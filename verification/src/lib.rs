//! Verified core of a third-person follow simulation.
//!
//! The library keeps a player entity and a trailing camera, maps keyboard
//! input to normalized horizontal movement, and advances both poses once per
//! frame: the player integrates a constant-speed displacement, the camera
//! eases toward a fixed offset behind the player and re-derives its look
//! direction from scratch.
//!
//! All geometry is held in fixed-point milli-units (1000 milli-units to a
//! world unit) and time in whole milliseconds, so every step of the per-frame
//! update is exact integer arithmetic with proved bounds. The host that owns
//! the scene graph, the clock and the event loop converts at its edge.

pub mod camera;
pub mod game;
pub mod input;
pub mod laws;
pub mod math;
pub mod movement;
pub mod pose;
