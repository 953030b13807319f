use vstd::prelude::*;

verus! {

/// The failures that the pipeline reports as values instead of aborting.
#[derive(Debug, Clone, Copy, PartialEq, Eq, Structural)]
pub enum PipelineError {
    /// An invalid percentage, a crop with only one nonzero dimension, or a
    /// calibration file of the wrong kind.
    Configuration,
    /// A calibration or input file that does not exist.
    NotFound,
    /// A sequence that fails structural validation.
    Format,
    /// Rasters whose dimensions do not match.
    ArithmeticShape,
    /// Finalization requested before any frame was accumulated.
    EmptyResult,
    /// The output could not be written.
    Io,
}

impl PipelineError {
    /// A short description of the error.
    pub fn message(&self) -> (r: String) {
        match self {
            PipelineError::Configuration => String::from_str("invalid configuration"),
            PipelineError::NotFound => String::from_str("file not found"),
            PipelineError::Format => String::from_str("sequence failed validation"),
            PipelineError::ArithmeticShape => String::from_str("raster dimensions do not match"),
            PipelineError::EmptyResult => String::from_str(
                "no frames processed, not saving an empty buffer",
            ),
            PipelineError::Io => String::from_str("error writing output"),
        }
    }
}

} // verus!
