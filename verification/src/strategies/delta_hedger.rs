use vstd::prelude::*;

verus! {

/// Instrument family a delta hedge uses.
#[derive(Debug, Clone, Copy, PartialEq, Eq, Structural)]
pub enum HedgeType {
    /// The perpetual future of the underlying.
    Perpetual,
    /// An option on the underlying.
    Option,
}

} // verus!
