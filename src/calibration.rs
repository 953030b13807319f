use crate::error::PipelineError;
use vstd::prelude::*;

verus! {

/// Where a standing calibration raster (flat or dark) comes from.
#[derive(Debug, Clone, Copy, PartialEq, Eq, Structural)]
pub enum CalibrationSource {
    /// No calibration raster of this kind: frames pass through unchanged by it.
    Absent,
    /// A single still raster, loaded as it is.
    StillImage,
    /// A video sequence, whose per-pixel mean becomes the raster.
    SequenceMean,
}

/// What `std::path::Path::extension` gives for a path: the text of the file
/// name after its final dot, when there is one.
pub uninterp spec fn extension_of(path: Seq<char>) -> Option<Seq<char>>;

/// Relies on `std::path::Path::extension`: the extension of the path's file
/// name, which depends on the text of the path alone.
#[verifier::external_body]
fn path_extension(path: &str) -> (r: Option<String>)
    ensures
        match r {
            Some(e) => extension_of(path@) == Some(e@),
            None => extension_of(path@) == None::<Seq<char>>,
        },
{
    std::path::Path::new(path).extension().map(|e| e.to_string_lossy().into_owned())
}

/// The extension that marks a video sequence file.
pub open spec fn is_ser_name(ext: Seq<char>) -> bool {
    ext == seq!['s', 'e', 'r'] || ext == seq!['S', 'E', 'R']
}

/// The path names a video sequence file.
pub open spec fn is_ser_path(path: Seq<char>) -> bool {
    match extension_of(path) {
        Some(e) => is_ser_name(e),
        None => false,
    }
}

/// Whether an extension is that of a video sequence file (`ser` or `SER`).
pub fn is_ser_extension(ext: &str) -> (r: bool)
    ensures
        r == is_ser_name(ext@),
{
    if ext.unicode_len() != 3 {
        return false;
    }
    let a = ext.get_char(0);
    let b = ext.get_char(1);
    let c = ext.get_char(2);
    let r = (a == 's' && b == 'e' && c == 'r') || (a == 'S' && b == 'E' && c == 'R');
    proof {
        if a == 's' && b == 'e' && c == 'r' {
            assert(ext@ =~= seq!['s', 'e', 'r']);
        }
        if a == 'S' && b == 'E' && c == 'R' {
            assert(ext@ =~= seq!['S', 'E', 'R']);
        }
    }
    r
}

/// Whether the path names a video sequence file, judged by its extension.
pub fn is_ser_file(path: &str) -> (r: bool)
    ensures
        r == is_ser_path(path@),
{
    match path_extension(path) {
        Some(e) => is_ser_extension(e.as_str()),
        None => false,
    }
}

/// The source that a calibration path denotes, given whether the file
/// exists: an empty path means no raster, a missing file is an error, a
/// sequence file is averaged and any other file is loaded as a still.
pub open spec fn source_of(path: Seq<char>, exists: bool) -> Result<CalibrationSource, PipelineError> {
    if path.len() == 0 {
        Ok(CalibrationSource::Absent)
    } else if !exists {
        Err(PipelineError::NotFound)
    } else if is_ser_path(path) {
        Ok(CalibrationSource::SequenceMean)
    } else {
        Ok(CalibrationSource::StillImage)
    }
}

/// Decides how a calibration path is to be loaded; `exists` tells whether
/// the file is there.
pub fn calibration_source(path: &str, exists: bool) -> (r: Result<CalibrationSource, PipelineError>)
    ensures
        r == source_of(path@, exists),
{
    if path.unicode_len() == 0 {
        Ok(CalibrationSource::Absent)
    } else if !exists {
        Err(PipelineError::NotFound)
    } else if is_ser_file(path) {
        Ok(CalibrationSource::SequenceMean)
    } else {
        Ok(CalibrationSource::StillImage)
    }
}

} // verus!
