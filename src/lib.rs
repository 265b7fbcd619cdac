//! The state and turn algebra of a 3x3x3 twisty cube.
//!
//! A [`face::Face`] names one of the six outward directions. A
//! [`cubie::Cubie`] is one of the 27 unit cells, with a lattice position and an
//! orientation kept as two reference faces. A [`cube::Cube`] holds all 27
//! cubies and applies quarter turns to them.

pub mod cube;
pub mod cubie;
pub mod face;
