//! A 2D occupancy grid for pathfinding visualisation: a rectangular board of
//! cells, each passable or a wall, with bounds-checked access, a single
//! mutation path, change notification, and a read-only projection for a
//! presentation layer.

pub mod editor;
pub mod grid;
pub mod mutator;
pub mod sync;
