//! The settings a caller supplies for a batch, and the per-item result record.

use vstd::prelude::*;

verus! {

/// What to do when the computed output name is already taken.
#[derive(Clone, Copy, Debug, PartialEq, Eq, Structural)]
pub enum ConflictResolution {
    /// Return the default name unconditionally; an existing file is replaced.
    Overwrite,
    /// Probe `stem_1`, `stem_2`, ... and take the first free name.
    Numbering,
}

/// Settings shared by every item of a batch.
#[derive(Clone, Debug)]
pub struct ConversionSettings {
    /// Destination directory.
    pub output_path: String,
    /// Prefix prepended to every generated file name; may be empty.
    pub file_prefix: String,
    /// Policy when the computed output name already exists.
    pub conflict_resolution: ConflictResolution,
    /// Encoding quality knob, 0 to 100.
    pub quality: u8,
    /// Prefer a lossless encoding where the format offers one.
    pub lossless: bool,
}

impl ConversionSettings {
    /// The quality knob is meaningful only on the closed 0 to 100 scale.
    pub open spec fn valid(self) -> bool {
        self.quality <= 100
    }
}

/// The outcome of one item of a batch.
#[derive(Clone, Debug)]
pub struct ConversionResult {
    /// The source path, echoed from the input list.
    pub source_path: String,
    /// The path of the produced file; present exactly on success.
    pub output_path: Option<String>,
    /// Whether the item was converted and written.
    pub success: bool,
    /// A human-readable description of the failure; present exactly on failure.
    pub error: Option<String>,
}

impl ConversionResult {
    /// A result record is coherent: the output path accompanies success,
    /// the error accompanies failure.
    pub open spec fn well_formed(self) -> bool {
        &&& self.success <==> self.output_path is Some
        &&& !self.success <==> self.error is Some
    }
}

} // verus!
