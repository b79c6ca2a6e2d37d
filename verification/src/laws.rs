//! Laws relating several entry points of the escrow, stated and proved over
//! the same spec functions the entry points' contracts use.

use vstd::prelude::*;

use crate::contract::after_init;
use crate::contract::FairPaymentContract;
use crate::types::Address;

verus! {

/// Initialization is idempotent by overwrite: initializing twice, with any
/// two sets of role addresses, leaves exactly the state a single
/// initialization with the second set would have left.
pub proof fn lemma_init_overwrites(
    s: FairPaymentContract,
    e1: Address,
    w1: Address,
    c1: Address,
    e2: Address,
    w2: Address,
    c2: Address,
)
    ensures
        after_init(after_init(s, e1, w1, c1), e2, w2, c2) == after_init(s, e2, w2, c2),
{
}

} // verus!
