//! Verified core of a spiral-galaxy star-field generator: deterministic seed
//! derivation, the spatial bucket index used for minimum-distance placement,
//! the rasterised star grid, terminal rendering and the image overlay.

pub mod args;
pub mod braille;
pub mod buckets;
pub mod input;
pub mod overlay;
pub mod raster;
pub mod seeds;
pub mod terminal;
