//! Board geometry for a dots-and-boxes style game: vertices, the edges between
//! them, the unit boxes that an edge borders, and a dense store that records
//! which edges have been claimed.
//!
//! * [`point`]: the vertices of the board.
//! * [`edge`]: edges in canonical form, their orientation, and the three
//!   edges that close a box together with a given edge.
//! * [`box_grid`]: the occupancy of every edge of a grid.

pub mod box_grid;
pub mod edge;
pub mod point;
