//! Market data and pricing-model vocabulary.

pub mod options;

use vstd::prelude::*;

verus! {

/// Aggressor side of a public trade.
#[derive(Debug, Clone, Copy, PartialEq, Eq, Structural)]
pub enum Side {
    Buy,
    Sell,
}

} // verus!
