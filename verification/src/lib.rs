//! A grid-maze raycasting engine: an occupancy grid, a player that moves
//! only through open cells, a fixed-step ray caster, and a projector that
//! turns ray distances into vertical wall strips for each screen column.
//!
//! All geometry is carried in fixed-point arithmetic: a world unit, a
//! radian and a texture span are each split into `FP_ONE` parts, so every
//! quantity is an exact integer and every function here is verified.

pub mod map;
pub mod player;
pub mod raycaster;
pub mod renderer;
pub mod trig;
