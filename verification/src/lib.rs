//! A graph-rewrite engine for image-orientation pipelines.
//!
//! Composite orientation operations (apply an EXIF orientation flag,
//! rotate by 90/180/270 degrees) are expanded into a fixed basis of
//! primitive operations (flip vertical, flip horizontal, transpose into
//! a freshly allocated canvas), while a frame-shape estimate
//! (width, height, pixel format, alpha significance) is propagated
//! forward so that buffer allocation and format checks happen before any
//! pixel is touched. The engine decides which primitives run, in what
//! order, on which buffers; the per-pixel arithmetic itself is performed
//! by a native bitmap library that the execution layer drives.

pub mod shape;
pub mod error;
pub mod ops;
pub mod estimate;
pub mod engine;
pub mod nodes;
pub mod execute;
pub mod laws;
