use crate::calibration::CalibrationSource;
use vstd::prelude::*;

verus! {

/// One raster operation of the per-frame transform, in the order given by a
/// plan. The raster arithmetic itself is done by the caller.
#[derive(Debug, Clone, Copy, PartialEq, Eq, Structural)]
pub enum FrameStep {
    /// Subtract the dark raster elementwise.
    SubtractDark,
    /// Scale by the mean of (flat − dark).
    ScaleByDarkFlatMean,
    /// Scale by the mean of the flat raster.
    ScaleByFlatMean,
    /// Divide elementwise by the flat raster.
    DivideByFlat,
    /// Shift by the negated center-of-mass offset, found with the fixed
    /// detection threshold, so that the bright region is centered.
    CenterOnMass,
    /// Centered crop to the given dimensions.
    Crop { width: usize, height: usize },
    /// Rotate by the negated parallactic angle at the frame's timestamp.
    Derotate,
}

/// The calibration steps for the rasters that are present.
pub open spec fn calibration_plan(has_flat: bool, has_dark: bool) -> Seq<FrameStep> {
    if has_flat && has_dark {
        seq![FrameStep::SubtractDark, FrameStep::ScaleByDarkFlatMean, FrameStep::DivideByFlat]
    } else if has_flat {
        seq![FrameStep::ScaleByFlatMean, FrameStep::DivideByFlat]
    } else if has_dark {
        seq![FrameStep::SubtractDark]
    } else {
        Seq::empty()
    }
}

/// Cropping is enabled when both dimensions are nonzero.
pub open spec fn crop_enabled(width: usize, height: usize) -> bool {
    width > 0 && height > 0
}

/// The alignment steps: center, crop when enabled, then derotate.
pub open spec fn alignment_plan(width: usize, height: usize) -> Seq<FrameStep> {
    if crop_enabled(width, height) {
        seq![
            FrameStep::CenterOnMass,
            FrameStep::Crop { width, height },
            FrameStep::Derotate,
        ]
    } else {
        seq![FrameStep::CenterOnMass, FrameStep::Derotate]
    }
}

/// The whole per-frame transform: calibration, then alignment.
pub open spec fn frame_plan(has_flat: bool, has_dark: bool, width: usize, height: usize) -> Seq<
    FrameStep,
> {
    calibration_plan(has_flat, has_dark) + alignment_plan(width, height)
}

/// A calibration raster is present unless its source is absent.
pub open spec fn is_present(s: CalibrationSource) -> bool {
    s != CalibrationSource::Absent
}

/// The calibration steps for the given flat and dark sources. With both
/// present the dark is subtracted before scaling, and scaling comes before
/// division; with neither the frame is left as it is.
pub fn calibration_steps(flat: CalibrationSource, dark: CalibrationSource) -> (r: Vec<FrameStep>)
    ensures
        r@ == calibration_plan(is_present(flat), is_present(dark)),
{
    let has_flat = flat != CalibrationSource::Absent;
    let has_dark = dark != CalibrationSource::Absent;
    let r = if has_flat && has_dark {
        vec![FrameStep::SubtractDark, FrameStep::ScaleByDarkFlatMean, FrameStep::DivideByFlat]
    } else if has_flat {
        vec![FrameStep::ScaleByFlatMean, FrameStep::DivideByFlat]
    } else if has_dark {
        vec![FrameStep::SubtractDark]
    } else {
        Vec::new()
    };
    assert(r@ =~= calibration_plan(has_flat, has_dark));
    r
}

/// The alignment steps for the configured crop dimensions.
pub fn alignment_steps(width: usize, height: usize) -> (r: Vec<FrameStep>)
    ensures
        r@ == alignment_plan(width, height),
{
    let r = if width > 0 && height > 0 {
        vec![FrameStep::CenterOnMass, FrameStep::Crop { width, height }, FrameStep::Derotate]
    } else {
        vec![FrameStep::CenterOnMass, FrameStep::Derotate]
    };
    assert(r@ =~= alignment_plan(width, height));
    r
}

/// With no flat and no dark, calibration performs no step: the frame comes
/// out as it went in.
pub proof fn lemma_absent_calibration_is_identity()
    ensures
        calibration_plan(false, false) == Seq::<FrameStep>::empty(),
{
}

/// Every alignment centers the frame first and derotates it last, and a crop,
/// when enabled, stands between the two.
pub proof fn lemma_alignment_order(width: usize, height: usize)
    ensures
        alignment_plan(width, height)[0] == FrameStep::CenterOnMass,
        alignment_plan(width, height).last() == FrameStep::Derotate,
        crop_enabled(width, height) ==> alignment_plan(width, height)[1] == (FrameStep::Crop {
            width,
            height,
        }),
        !crop_enabled(width, height) ==> alignment_plan(width, height).len() == 2,
{
}

} // verus!
