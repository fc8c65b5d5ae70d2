//! A raster-image editing library: a closed set of pixel filters over an
//! RGB raster and an ordered chain that applies them with incremental
//! re-rendering.

pub mod imgarray;
pub mod filters;
pub mod linalg;
pub mod params;
pub mod text;
pub mod driver;
