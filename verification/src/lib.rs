//! Decoder for NASADEM one-arc-second raster tiles.
//!
//! A tile covers one degree by one degree and holds 3601 rows of 3601
//! samples. Its elevation and water grids are decoded from byte streams, and a
//! cursor walks the samples in storage order, handing out one cell per sample
//! with its position on the 1/3601-degree lattice.
//!
//! Angles are held exactly, as whole degrees plus a count of lattice steps, so
//! that every statement about positions is a statement about integers.

pub mod cell;
pub mod lattice;
pub mod samples;
pub mod tile;

pub use crate::cell::DEMBox;
pub use crate::cell::Polygon;
pub use crate::lattice::idx_to_pont;
pub use crate::lattice::Angle;
pub use crate::lattice::DegreePoint;
pub use crate::lattice::LatticePoint;
pub use crate::lattice::SAMPLES;
pub use crate::lattice::SIDE;
pub use crate::samples::LoadError;
pub use crate::samples::LAND;
pub use crate::samples::WATER;
pub use crate::tile::Iter;
pub use crate::tile::NASADEM;
