//! The engine: geometry, movement arithmetic, the parts actors are built of,
//! and the simulation that runs them.

pub mod collision_2d;
pub mod draw;
pub mod entity;
pub mod entity_group;
pub mod geometry;
pub mod motion;
pub mod process_window_event;
pub mod random;
pub mod state;
pub mod transformation;
pub mod window;
