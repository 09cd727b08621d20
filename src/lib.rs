//! Station directory extraction and CSV report normalization for SNOTEL
//! daily observations, with verified contracts.

pub mod text;
pub mod station;
pub mod extract;
pub mod report;
pub mod csv;
pub mod normalize;
