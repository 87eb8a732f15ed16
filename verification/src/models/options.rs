use vstd::prelude::*;

verus! {

/// Kind of an option contract.
#[derive(Debug, Clone, Copy, PartialEq, Eq, Structural)]
pub enum OptionType {
    Call,
    Put,
}

} // verus!
