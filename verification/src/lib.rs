//! Gameplay core of a first-person shooter: a blend-state animation machine
//! for the upper body of a humanoid, and the level simulation that moves
//! actors, weapons, projectiles, items and doors once per frame.
//!
//! Everything here works on plain integers. Time is counted in milliseconds,
//! positions in millimetres, and weights in millionths.

pub mod actor;
pub mod clip;
pub mod door;
pub mod geometry;
pub mod graph;
pub mod item;
pub mod layer;
pub mod level;
pub mod message;
pub mod parameter;
pub mod player;
pub mod pool;
pub mod pose;
pub mod projectile;
pub mod text;
pub mod weapon;
