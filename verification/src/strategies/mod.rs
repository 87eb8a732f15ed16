//! Strategy vocabulary.

pub mod delta_hedger;
