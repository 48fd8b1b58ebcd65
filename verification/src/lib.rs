//! Thumbnail planning and generation for raster images.
//!
//! The library derives, for each candidate source path, the sibling
//! `thumbnails` directory and the destination path inside it, validates the
//! candidate against a configurable set of allowed extensions, and turns
//! decoded image bytes into resized thumbnail bytes through an external
//! image codec. Filesystem effects (existence checks, directory creation,
//! reading and writing files) are left to the caller, who reports the
//! observed filesystem facts and carries out the planned writes.

pub mod batch;
pub mod codec;
pub mod errors;
pub mod paths;
pub mod plan;

pub use errors::ImageError;
