//! Runtime core of a tile-based platformer: fixed-point physics, collision
//! resolution against a tiled level, camera tracking and the per-frame state
//! machines of the player and the enemies.
pub mod camera;
pub mod entities;
pub mod fixed;
pub mod input;
pub mod level;
pub mod player;
pub mod playing_level;
pub mod sprites;
