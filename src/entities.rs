//! Moving bodies: the shared entity and the enemies built on it.
pub mod entity;
pub mod enemies;
