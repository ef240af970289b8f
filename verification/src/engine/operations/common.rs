use vstd::prelude::*;

verus! {

/// The direction of a change of one in a ledger.
#[derive(Clone, Copy, Debug, PartialEq, Eq, Structural)]
pub enum UpdateOneDelta {
    AddOne,
    RemoveOne,
}

} // verus!
