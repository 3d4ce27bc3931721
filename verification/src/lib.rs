//! The falling-piece core of a block-stacking game: the catalogue of the seven
//! piece kinds, the piece itself with its anchor, orientation and projected
//! tiles, and the rules by which it moves, turns and locks.

pub mod laws;
pub mod model;
pub mod occupancy;
pub mod piece;
pub mod render;
pub mod shape;
