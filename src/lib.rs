//! A fixed-timestep simulation of a ball that bounces inside a walled arena
//! and off a paddle that the player moves. All quantities are integers:
//! sizes and positions of the layout in whole units, positions of moving
//! bodies in sub-units, velocities in units per second.
pub mod geometry;
pub mod game_layout;
pub mod initial_layout;
pub mod ball;
pub mod paddle;
pub mod wall_location;
pub mod wall_bundle;
pub mod collision;
pub mod simulation;
