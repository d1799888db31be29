//! Verified core of a radio-interferometry simulation and calibration suite:
//! beam selection, dipole delays, GPU work partitioning, calibration
//! bookkeeping and the parameters of SKA-Low simulations.

pub mod arrays;
pub mod beam;
pub mod binary64;
pub mod cli;
pub mod copies;
pub mod gpu;
pub mod non_empty;
pub mod params;
pub mod text;
