use crate::calibration::{calibration_source, source_of, CalibrationSource};
use crate::error::PipelineError;
use crate::plan::{alignment_steps, calibration_steps, frame_plan, is_present, FrameStep};
use crate::ranking::{
    is_ranking_of, lemma_selection_is_ranked_prefix, rank_frame_records, select_top,
    selected_count, sorted_desc, FrameRecord,
};
use vstd::prelude::*;

verus! {

/// The stacking pipeline's state: which calibration rasters stand, the crop
/// dimensions (both zero for no crop) and how many frames have been
/// accumulated. The pixel buffers live with the caller, which performs the
/// raster arithmetic that this state plans and counts.
#[derive(Debug, Clone, Copy, PartialEq, Eq, Structural)]
pub struct HaProcessing {
    pub flat_field: CalibrationSource,
    pub dark_field: CalibrationSource,
    pub width: usize,
    pub height: usize,
    pub frame_count: u32,
}

/// Exactly one of the crop dimensions is zero.
pub open spec fn crop_mixed(width: usize, height: usize) -> bool {
    (width == 0) != (height == 0)
}

/// The outcome of constructing a pipeline: the crop configuration is checked
/// first, then the flat, then the dark.
pub open spec fn init_result(
    flat_path: Seq<char>,
    flat_exists: bool,
    dark_path: Seq<char>,
    dark_exists: bool,
    width: usize,
    height: usize,
) -> Result<HaProcessing, PipelineError> {
    if crop_mixed(width, height) {
        Err(PipelineError::Configuration)
    } else {
        match source_of(flat_path, flat_exists) {
            Err(e) => Err(e),
            Ok(flat) => match source_of(dark_path, dark_exists) {
                Err(e) => Err(e),
                Ok(dark) => Ok(
                    HaProcessing {
                        flat_field: flat,
                        dark_field: dark,
                        width,
                        height,
                        frame_count: 0,
                    },
                ),
            },
        }
    }
}

impl HaProcessing {
    /// The crop configuration is either off (both zero) or complete.
    pub open spec fn wf(&self) -> bool {
        !crop_mixed(self.width, self.height)
    }

    /// Constructs a pipeline with no frame accumulated. `flat_exists` and
    /// `dark_exists` tell whether the calibration files are there; an empty
    /// path means that raster is absent. A crop with exactly one nonzero
    /// dimension is a configuration error, reported before anything else.
    pub fn init_new(
        flat_path: &str,
        flat_exists: bool,
        dark_path: &str,
        dark_exists: bool,
        crop_width: usize,
        crop_height: usize,
    ) -> (r: Result<HaProcessing, PipelineError>)
        ensures
            r == init_result(flat_path@, flat_exists, dark_path@, dark_exists, crop_width, crop_height),
            r is Ok ==> r->Ok_0.wf(),
    {
        if (crop_width == 0) != (crop_height == 0) {
            return Err(PipelineError::Configuration);
        }
        let flat = match calibration_source(flat_path, flat_exists) {
            Ok(s) => s,
            Err(e) => return Err(e),
        };
        let dark = match calibration_source(dark_path, dark_exists) {
            Ok(s) => s,
            Err(e) => return Err(e),
        };
        Ok(
            HaProcessing {
                flat_field: flat,
                dark_field: dark,
                width: crop_width,
                height: crop_height,
                frame_count: 0,
            },
        )
    }

    /// The steps that turn one raw frame into the frame to accumulate:
    /// calibration, centering, the crop when enabled, derotation.
    pub fn frame_plan(&self) -> (r: Vec<FrameStep>)
        ensures
            r@ == frame_plan(
                is_present(self.flat_field),
                is_present(self.dark_field),
                self.width,
                self.height,
            ),
    {
        let mut steps = calibration_steps(self.flat_field, self.dark_field);
        let mut align = alignment_steps(self.width, self.height);
        steps.append(&mut align);
        steps
    }

    /// Records that one aligned frame was added into the buffer.
    pub fn add_frame(&mut self)
        requires
            old(self).frame_count < u32::MAX,
        ensures
            *final(self) == (HaProcessing { frame_count: (old(self).frame_count + 1) as u32, ..*old(self) }),
    {
        self.frame_count = self.frame_count + 1;
    }

    /// The divisor that turns the accumulated sum into the mean, which is the
    /// number of frames added; with none added there is nothing to write.
    pub fn finalize(&self) -> (r: Result<u32, PipelineError>)
        ensures
            self.frame_count == 0 ==> r == Err::<u32, PipelineError>(PipelineError::EmptyResult),
            self.frame_count > 0 ==> r == Ok::<u32, PipelineError>(self.frame_count),
    {
        if self.frame_count > 0 {
            Ok(self.frame_count)
        } else {
            Err(PipelineError::EmptyResult)
        }
    }

    /// The frame indices read when a sequence of `frame_count` frames is
    /// processed on its own: every frame, in index order.
    pub fn process_ser_file(&self, frame_count: usize) -> (r: Vec<usize>)
        ensures
            r@.len() == frame_count,
            forall|i: int| 0 <= i < r@.len() ==> r@[i] == i,
    {
        let mut r: Vec<usize> = Vec::new();
        let mut i: usize = 0;
        while i < frame_count
            invariant
                i <= frame_count,
                r@.len() == i,
                forall|k: int| 0 <= k < r@.len() ==> r@[k] == k,
            decreases frame_count - i,
        {
            r.push(i);
            i = i + 1;
        }
        r
    }

    /// Chooses the frames to stack from the scored frames of all input
    /// sequences: they are ranked best first and the top `limit_top_pct`
    /// percent kept. A percentage above 100 is rejected before ranking.
    pub fn process_ser_files(&self, records: Vec<FrameRecord>, limit_top_pct: u8) -> (r: Result<
        Vec<FrameRecord>,
        PipelineError,
    >)
        ensures
            limit_top_pct > 100 ==> r == Err::<Vec<FrameRecord>, PipelineError>(
                PipelineError::Configuration,
            ),
            limit_top_pct <= 100 ==> (r matches Ok(sel) && (exists|ranked: Seq<FrameRecord>|
                is_ranking_of(ranked, records@) && sel@ == ranked.take(
                    selected_count(limit_top_pct as int, records@.len() as int),
                ))),
            r is Ok ==> sorted_desc(r->Ok_0@) && r->Ok_0@.len() == selected_count(
                limit_top_pct as int,
                records@.len() as int,
            ),
    {
        if limit_top_pct > 100 {
            return Err(PipelineError::Configuration);
        }
        let ghost original = records@;
        let ranked = rank_frame_records(records);
        proof {
            original.to_multiset_ensures();
            ranked@.to_multiset_ensures();
            lemma_selection_is_ranked_prefix(ranked@, limit_top_pct as int);
        }
        let ghost ranked_view = ranked@;
        let r = select_top(ranked, limit_top_pct);
        assert(r matches Ok(sel) && (is_ranking_of(ranked_view, original) && sel@ == ranked_view.take(
            selected_count(limit_top_pct as int, original.len() as int),
        )));
        r
    }
}

} // verus!
