use solhat::calibration::CalibrationSource::{Absent, SequenceMean, StillImage};
use solhat::calibration::{calibration_source, is_ser_extension, is_ser_file, CalibrationSource};
use solhat::error::PipelineError;
use solhat::plan::{alignment_steps, calibration_steps, FrameStep};
use solhat::processing::HaProcessing;
use solhat::ranking::{rank_frame_records, select_top, FrameRecord};

fn record(file: &str, id: usize, quality: u32) -> FrameRecord {
    FrameRecord { source_file: String::from(file), frame_id: id, quality }
}

fn no_calibration(width: usize, height: usize) -> HaProcessing {
    HaProcessing::init_new("", false, "", false, width, height).unwrap()
}

#[test]
fn ranking_orders_best_first() {
    let recs = vec![record("a.ser", 0, 5), record("a.ser", 1, 40), record("b.ser", 0, 17)];
    let ranked = rank_frame_records(recs);
    let q: Vec<u32> = ranked.iter().map(|r| r.quality).collect();
    assert_eq!(q, vec![40, 17, 5]);
    assert_eq!(ranked[0].frame_id, 1);
    assert_eq!(ranked[2].source_file, "a.ser");
}

#[test]
fn ranking_keeps_equal_records() {
    let recs = vec![record("a.ser", 0, 7), record("a.ser", 1, 7), record("a.ser", 2, 3)];
    let ranked = rank_frame_records(recs);
    let mut ids: Vec<usize> = ranked.iter().map(|r| r.frame_id).collect();
    assert_eq!(ids[2], 2);
    ids.sort();
    assert_eq!(ids, vec![0, 1, 2]);
}

#[test]
fn ranking_empty_list() {
    assert!(rank_frame_records(Vec::new()).is_empty());
}

#[test]
fn select_top_rounds_to_nearest() {
    let recs: Vec<FrameRecord> = (0..3).map(|i| record("a.ser", i, 10 - i as u32)).collect();
    let sel = select_top(recs, 50).unwrap();
    // 0.5 * 3 = 1.5 rounds to 2
    assert_eq!(sel.len(), 2);
    assert_eq!(sel[0].frame_id, 0);
    assert_eq!(sel[1].frame_id, 1);

    let recs: Vec<FrameRecord> = (0..10).map(|i| record("a.ser", i, 100 - i as u32)).collect();
    assert_eq!(select_top(recs, 33).unwrap().len(), 3);
    let recs: Vec<FrameRecord> = (0..10).map(|i| record("a.ser", i, 100 - i as u32)).collect();
    assert_eq!(select_top(recs, 35).unwrap().len(), 4);
}

#[test]
fn select_top_bounds() {
    let recs: Vec<FrameRecord> = (0..4).map(|i| record("a.ser", i, 9)).collect();
    assert_eq!(select_top(recs, 0).unwrap().len(), 0);
    let recs: Vec<FrameRecord> = (0..4).map(|i| record("a.ser", i, 9)).collect();
    assert_eq!(select_top(recs, 100).unwrap().len(), 4);
    let recs: Vec<FrameRecord> = (0..4).map(|i| record("a.ser", i, 9)).collect();
    assert!(matches!(select_top(recs, 101), Err(PipelineError::Configuration)));
}

#[test]
fn selection_is_non_increasing_prefix() {
    let recs = vec![
        record("a.ser", 0, 3),
        record("a.ser", 1, 80),
        record("b.ser", 0, 41),
        record("b.ser", 1, 12),
        record("b.ser", 2, 66),
    ];
    let p = no_calibration(0, 0);
    let sel = p.process_ser_files(recs, 60).unwrap();
    let q: Vec<u32> = sel.iter().map(|r| r.quality).collect();
    assert_eq!(q, vec![80, 66, 41]);
}

#[test]
fn process_ser_files_rejects_large_percentage() {
    let p = no_calibration(0, 0);
    let r = p.process_ser_files(vec![record("a.ser", 0, 1)], 150);
    assert!(matches!(r, Err(PipelineError::Configuration)));
}

#[test]
fn end_to_end_two_sequences_half_selected() {
    let recs = vec![record("A.ser", 0, 10), record("B.ser", 0, 90)];
    let mut p = no_calibration(0, 0);
    let sel = p.process_ser_files(recs, 50).unwrap();
    assert_eq!(sel.len(), 1);
    assert_eq!(sel[0].source_file, "B.ser");
    assert_eq!(sel[0].frame_id, 0);
    assert_eq!(p.frame_plan(), vec![FrameStep::CenterOnMass, FrameStep::Derotate]);
    p.add_frame();
    assert_eq!(p.finalize(), Ok(1));
}

#[test]
fn finalize_without_frames_is_empty_result() {
    let p = no_calibration(0, 0);
    assert_eq!(p.frame_count, 0);
    assert_eq!(p.finalize(), Err(PipelineError::EmptyResult));
}

#[test]
fn finalize_divides_by_frame_count() {
    let mut p = no_calibration(64, 48);
    p.add_frame();
    p.add_frame();
    p.add_frame();
    assert_eq!(p.frame_count, 3);
    assert_eq!(p.finalize(), Ok(3));
    assert_eq!(p.width, 64);
    assert_eq!(p.height, 48);
}

#[test]
fn mixed_crop_is_rejected() {
    assert_eq!(HaProcessing::init_new("", false, "", false, 100, 0), Err(PipelineError::Configuration));
    assert_eq!(HaProcessing::init_new("", false, "", false, 0, 100), Err(PipelineError::Configuration));
    // the crop is checked before the calibration files
    assert_eq!(
        HaProcessing::init_new("missing.tif", false, "", false, 0, 100),
        Err(PipelineError::Configuration)
    );
    assert!(HaProcessing::init_new("", false, "", false, 0, 0).is_ok());
    assert!(HaProcessing::init_new("", false, "", false, 100, 80).is_ok());
}

#[test]
fn missing_calibration_file_is_not_found() {
    assert_eq!(HaProcessing::init_new("flat.tif", false, "", false, 0, 0), Err(PipelineError::NotFound));
    assert_eq!(HaProcessing::init_new("", false, "dark.ser", false, 0, 0), Err(PipelineError::NotFound));
}

#[test]
fn init_records_calibration_sources() {
    let p = HaProcessing::init_new("flat.SER", true, "dark.png", true, 0, 0).unwrap();
    assert_eq!(p.flat_field, CalibrationSource::SequenceMean);
    assert_eq!(p.dark_field, CalibrationSource::StillImage);
    assert_eq!(p.frame_count, 0);
}

#[test]
fn calibration_source_cases() {
    assert_eq!(calibration_source("", false), Ok(CalibrationSource::Absent));
    assert_eq!(calibration_source("", true), Ok(CalibrationSource::Absent));
    assert_eq!(calibration_source("x/flat.ser", false), Err(PipelineError::NotFound));
    assert_eq!(calibration_source("x/flat.ser", true), Ok(CalibrationSource::SequenceMean));
    assert_eq!(calibration_source("flat.tif", true), Ok(CalibrationSource::StillImage));
    assert_eq!(calibration_source("flat.Ser", true), Ok(CalibrationSource::StillImage));
}

#[test]
fn ser_file_detection_reads_extension() {
    assert!(is_ser_file("capture/sun.ser"));
    assert!(is_ser_file("MOON.SER"));
    assert!(!is_ser_file("ser"));
    assert!(!is_ser_file("sun.ser.png"));
    assert!(!is_ser_file(".ser"));
    assert!(is_ser_extension("ser"));
    assert!(!is_ser_extension("sEr"));
    assert!(!is_ser_extension("sers"));
}

#[test]
fn calibration_step_order() {
    assert!(calibration_steps(Absent, Absent).is_empty());
    assert_eq!(calibration_steps(StillImage, Absent), vec![FrameStep::ScaleByFlatMean, FrameStep::DivideByFlat]);
    assert_eq!(calibration_steps(Absent, SequenceMean), vec![FrameStep::SubtractDark]);
    assert_eq!(
        calibration_steps(SequenceMean, StillImage),
        vec![FrameStep::SubtractDark, FrameStep::ScaleByDarkFlatMean, FrameStep::DivideByFlat]
    );
}

#[test]
fn alignment_step_order() {
    assert_eq!(alignment_steps(0, 0), vec![FrameStep::CenterOnMass, FrameStep::Derotate]);
    assert_eq!(
        alignment_steps(640, 480),
        vec![FrameStep::CenterOnMass, FrameStep::Crop { width: 640, height: 480 }, FrameStep::Derotate]
    );
}

#[test]
fn full_frame_plan_with_calibration_and_crop() {
    let p = HaProcessing::init_new("flat.tif", true, "dark.ser", true, 32, 16).unwrap();
    assert_eq!(
        p.frame_plan(),
        vec![
            FrameStep::SubtractDark,
            FrameStep::ScaleByDarkFlatMean,
            FrameStep::DivideByFlat,
            FrameStep::CenterOnMass,
            FrameStep::Crop { width: 32, height: 16 },
            FrameStep::Derotate,
        ]
    );
}

#[test]
fn single_sequence_reads_every_frame() {
    let p = no_calibration(0, 0);
    assert_eq!(p.process_ser_file(3), vec![0, 1, 2]);
    assert_eq!(p.process_ser_file(25), (0..25).collect::<Vec<usize>>());
    assert!(p.process_ser_file(0).is_empty());
}

#[test]
fn error_messages() {
    assert_eq!(PipelineError::EmptyResult.message(), "no frames processed, not saving an empty buffer");
    assert_eq!(PipelineError::NotFound.message(), "file not found");
}
