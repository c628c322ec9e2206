//! The rules of a falling-block puzzle: the board of locked cells, the active
//! tetramino with its rotations and bounding box, the collision test, the
//! gravity step and the clearing of full lines with its score.
//!
//! Nothing here draws or polls a device. A front end feeds player intents and
//! gravity ticks into these functions and renders what they leave behind.

pub mod collision;
pub mod game;
pub mod tetramino;
pub mod tilemap;
