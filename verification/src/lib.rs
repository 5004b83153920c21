//! A verified model of a minimal GPU rendering bootstrap: surface
//! configuration for a window, resize handling, and a texture
//! upload/copy/readback round trip through a mapped staging buffer.
//!
//! The library holds the decisions and the data model; the actual
//! graphics backend and window system are driven by an unverified
//! shell that mirrors each step against this model.

pub mod context;
pub mod error;
pub mod transfer;
