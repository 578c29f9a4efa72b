//! Stacks pairs of photos into one taller picture, picks a two-color scheme
//! from a quantized palette, and plans the text stamps and output names of a
//! whole batch.
pub mod error;
pub mod raster;
pub mod palette;
pub mod batch;
pub mod overlay;
