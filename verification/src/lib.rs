//! Decode dispatch for an image-decoding engine: which of the engine's entry
//! points to call, what to make of its answers, and how the pixel data it
//! returns becomes an owned, self-describing image.
//!
//! The engine itself lives outside this crate. The crate decides; a driver
//! performs each engine call it is told to make and reports what came back.

pub mod decode;
pub mod image;
pub mod laws;
pub mod transfer;
