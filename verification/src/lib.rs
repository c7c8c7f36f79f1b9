//! Escape-time rendering of Julia-set rasters.
//!
//! The escape-time evaluator's step decisions, the pixel-grid bookkeeping,
//! the raster assembly and the hand-off to the PNG encoder are verified;
//! the floating-point complex arithmetic itself is supplied by the caller,
//! which drives the verified step machine one observation at a time.

pub mod encode;
pub mod evaluator;
pub mod grid;
pub mod raster;
