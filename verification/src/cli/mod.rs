//! Command-line arguments and what they mean.

pub mod channels;
pub mod laws;
pub mod merge;
pub mod parse;
pub mod parse_laws;
pub mod vis_simulate_ska;
