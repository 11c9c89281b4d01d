//! Sizes that the instruction format shares with the program's stored state.
use vstd::prelude::*;

verus! {

/// Number of token slots of a lending group. The quote currency takes the
/// last slot.
pub const NUM_TOKENS: usize = 3;

/// Number of spot markets of a lending group: one for every token but the
/// quote currency.
pub const NUM_MARKETS: usize = NUM_TOKENS - 1;

} // verus!
