//! Beam types, dipole delays and the set-up of beam objects.
//!
//! [`Beam`] and [`BeamGpu`] tell what every beam code can be asked; the response
//! itself is numerical work that is done around this library. Note that (where
//! applicable) responses are normalised to zenith; the implication being that a
//! sky-model source's brightness is always assumed to be correct when at
//! zenith.

pub mod beam_type;
pub mod create;
pub mod delay_grid;
pub mod delays;
pub mod error;
pub mod laws;
pub mod layout;
pub mod no_beam;
pub mod responses;
pub mod ska;
pub mod traits;

pub use beam_type::{beam_types_comma_separated, BeamType};
pub use create::{create_beam_object, select_beam_type, BeamObject};
pub use delay_grid::DelayGrid;
pub use delays::Delays;
pub use error::BeamError;
pub use layout::get_s8_1;
pub use no_beam::{NoBeam, NoBeamGpu};
pub use ska::{
    RaDec, SkaAiryBeam, SkaAiryBeamGpu, SkaArrayFactorBeam, SkaArrayFactorBeamGpu, SkaBeamConfig,
    SkaBeamParams, SkaGaussianBeam,
};
pub use traits::{Beam, BeamGpu};
