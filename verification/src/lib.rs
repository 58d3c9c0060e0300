//! Per-frame simulation core of a top-down action game.
//!
//! The crate advances animation state, copies camera transforms into every
//! drawable, keeps the projectile population, and records the frame's draw
//! operations into a command buffer that is lent to it for one tick at a time.
//!
//! All quantities are integers. Positions are whole world units, durations are
//! whole microseconds, and matrix elements are carried as the raw 32-bit
//! patterns of their single-precision values, which the core copies and never
//! interprets.

pub mod bullet;
pub mod character;
pub mod critter;
pub mod data;
pub mod game;
pub mod gfx_app;
pub mod graphics;
pub mod shaders;
pub mod terrain;
pub mod terrain_object;
pub mod terrain_shape;
pub mod zombie;
