//! Frame logic of a small 3D space game: the autofire countdown, projectile
//! lifetimes, collision resolution, the pointer drag of the orbit camera and
//! the lookups of the objects that a frame expects exactly one of.
//!
//! Objects are named by the 64 bits of their identifier in the scene, and
//! times are whole nanoseconds. The crate decides; it neither reads the scene
//! nor changes it.

pub mod autofire;
pub mod camera;
pub mod collision;
pub mod frames;
pub mod lookup;
pub mod projectile;
pub mod scene;
pub mod ship;
pub mod timer;
