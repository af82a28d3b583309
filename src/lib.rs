//! Integer core of a single-sphere pinhole renderer: raster extents and the
//! order in which pixels are emitted, colour-channel range classification, and
//! the plain-text pixel-triplet image format.

pub mod color;
pub mod dimension;
pub mod error;
pub mod image;
pub mod ppm;
