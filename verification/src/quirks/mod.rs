//! Quirks: what is known to be wrong with devices, and what to do about it.
pub mod apply;
pub mod glob;
pub mod section;
