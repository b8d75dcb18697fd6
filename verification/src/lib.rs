//! Batch image conversion library.
//!
//! The library plans and carries out the conversion of a batch of source
//! images into a chosen target format.  All decision logic — target-format
//! dispatch, quality-driven encoding strategy selection, output-name
//! derivation with collision avoidance, and per-item failure isolation — is
//! verified.  The pixel codecs themselves (decoding a byte stream, encoding a
//! pixel buffer) are called through trusted wrappers around outside crates.

pub mod decimal;
pub mod settings;
pub mod format;
pub mod paths;
pub mod codec;
pub mod convert;
pub mod metadata;
