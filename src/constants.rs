//! Fixed quantities of the distribution rules.

use vstd::prelude::*;

verus! {

/// Length of one distribution day, in seconds.
pub const TWENTY_FOUR_HOURS: i64 = 86_400;

/// Basis points that make up 100%.
pub const MAX_BPS: u16 = 10_000;

} // verus!
