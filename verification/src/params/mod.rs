//! Calibration: what is loaded, how much memory it takes, and what is done with
//! it.

pub mod array_laws;
pub mod cal_vis;
pub mod calibration_laws;
pub mod cubes;
pub mod determinism;
pub mod di_calibration;
pub mod error;
pub mod input;
pub mod memory;
pub mod message;
pub mod model_frame;
pub mod sharding;
pub mod solutions;
pub mod threads;
pub mod timeblock;
pub mod work_laws;

pub use cal_vis::CalVis;
pub use di_calibration::{DiCalParams, OutputVisParams};
pub use error::DiCalibrateError;
pub use input::InputVisParams;
pub use timeblock::Timeblock;
