//! Frame selection and stacking decisions for short-exposure solar and lunar
//! video: quality ranking, calibration planning, per-frame step order and
//! the accumulation state machine.

pub mod calibration;
pub mod plan;
pub mod error;
pub mod processing;
pub mod ranking;
