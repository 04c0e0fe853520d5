//! Native vectors presented to a dynamically typed host as class-tagged
//! integer placeholders that carry the native value as a side attribute.
pub mod helpers;
pub mod rvctr;
pub mod vctr;
pub mod entry;
pub mod laws;
pub mod naming;
