//! No two preferred classes of one side ever have the same limits: within each nominal size
//! bracket, their limits are stated outright from the tables, and they differ pairwise.

use vstd::prelude::*;
use crate::deviation::{first_row_from, spec_limits_nm};
use crate::lookup::pref_limits;
use crate::tables::NUM_PREFERRED;

verus! {

/// No two preferred classes of one side have the same limits at table size `s`.
pub open spec fn preferred_limits_distinct(s: int) -> bool {
    forall|hole: bool, p: int, q: int|
        0 <= q < p < NUM_PREFERRED && pref_limits(hole, s, p) is Some ==> #[trigger] pref_limits(hole, s, p)
            != #[trigger] pref_limits(hole, s, q)
}

/// The pairs of preferred classes one by one: each defined one differs from every one listed
/// before it.
spec fn pairwise_distinct(s: int) -> bool {
    &&& pref_limits(true, s, 1) is None || pref_limits(true, s, 1) != pref_limits(true, s, 0)
    &&& pref_limits(true, s, 2) is None || pref_limits(true, s, 2) != pref_limits(true, s, 0)
    &&& pref_limits(true, s, 2) is None || pref_limits(true, s, 2) != pref_limits(true, s, 1)
    &&& pref_limits(true, s, 3) is None || pref_limits(true, s, 3) != pref_limits(true, s, 0)
    &&& pref_limits(true, s, 3) is None || pref_limits(true, s, 3) != pref_limits(true, s, 1)
    &&& pref_limits(true, s, 3) is None || pref_limits(true, s, 3) != pref_limits(true, s, 2)
    &&& pref_limits(true, s, 4) is None || pref_limits(true, s, 4) != pref_limits(true, s, 0)
    &&& pref_limits(true, s, 4) is None || pref_limits(true, s, 4) != pref_limits(true, s, 1)
    &&& pref_limits(true, s, 4) is None || pref_limits(true, s, 4) != pref_limits(true, s, 2)
    &&& pref_limits(true, s, 4) is None || pref_limits(true, s, 4) != pref_limits(true, s, 3)
    &&& pref_limits(true, s, 5) is None || pref_limits(true, s, 5) != pref_limits(true, s, 0)
    &&& pref_limits(true, s, 5) is None || pref_limits(true, s, 5) != pref_limits(true, s, 1)
    &&& pref_limits(true, s, 5) is None || pref_limits(true, s, 5) != pref_limits(true, s, 2)
    &&& pref_limits(true, s, 5) is None || pref_limits(true, s, 5) != pref_limits(true, s, 3)
    &&& pref_limits(true, s, 5) is None || pref_limits(true, s, 5) != pref_limits(true, s, 4)
    &&& pref_limits(true, s, 6) is None || pref_limits(true, s, 6) != pref_limits(true, s, 0)
    &&& pref_limits(true, s, 6) is None || pref_limits(true, s, 6) != pref_limits(true, s, 1)
    &&& pref_limits(true, s, 6) is None || pref_limits(true, s, 6) != pref_limits(true, s, 2)
    &&& pref_limits(true, s, 6) is None || pref_limits(true, s, 6) != pref_limits(true, s, 3)
    &&& pref_limits(true, s, 6) is None || pref_limits(true, s, 6) != pref_limits(true, s, 4)
    &&& pref_limits(true, s, 6) is None || pref_limits(true, s, 6) != pref_limits(true, s, 5)
    &&& pref_limits(true, s, 7) is None || pref_limits(true, s, 7) != pref_limits(true, s, 0)
    &&& pref_limits(true, s, 7) is None || pref_limits(true, s, 7) != pref_limits(true, s, 1)
    &&& pref_limits(true, s, 7) is None || pref_limits(true, s, 7) != pref_limits(true, s, 2)
    &&& pref_limits(true, s, 7) is None || pref_limits(true, s, 7) != pref_limits(true, s, 3)
    &&& pref_limits(true, s, 7) is None || pref_limits(true, s, 7) != pref_limits(true, s, 4)
    &&& pref_limits(true, s, 7) is None || pref_limits(true, s, 7) != pref_limits(true, s, 5)
    &&& pref_limits(true, s, 7) is None || pref_limits(true, s, 7) != pref_limits(true, s, 6)
    &&& pref_limits(true, s, 8) is None || pref_limits(true, s, 8) != pref_limits(true, s, 0)
    &&& pref_limits(true, s, 8) is None || pref_limits(true, s, 8) != pref_limits(true, s, 1)
    &&& pref_limits(true, s, 8) is None || pref_limits(true, s, 8) != pref_limits(true, s, 2)
    &&& pref_limits(true, s, 8) is None || pref_limits(true, s, 8) != pref_limits(true, s, 3)
    &&& pref_limits(true, s, 8) is None || pref_limits(true, s, 8) != pref_limits(true, s, 4)
    &&& pref_limits(true, s, 8) is None || pref_limits(true, s, 8) != pref_limits(true, s, 5)
    &&& pref_limits(true, s, 8) is None || pref_limits(true, s, 8) != pref_limits(true, s, 6)
    &&& pref_limits(true, s, 8) is None || pref_limits(true, s, 8) != pref_limits(true, s, 7)
    &&& pref_limits(true, s, 9) is None || pref_limits(true, s, 9) != pref_limits(true, s, 0)
    &&& pref_limits(true, s, 9) is None || pref_limits(true, s, 9) != pref_limits(true, s, 1)
    &&& pref_limits(true, s, 9) is None || pref_limits(true, s, 9) != pref_limits(true, s, 2)
    &&& pref_limits(true, s, 9) is None || pref_limits(true, s, 9) != pref_limits(true, s, 3)
    &&& pref_limits(true, s, 9) is None || pref_limits(true, s, 9) != pref_limits(true, s, 4)
    &&& pref_limits(true, s, 9) is None || pref_limits(true, s, 9) != pref_limits(true, s, 5)
    &&& pref_limits(true, s, 9) is None || pref_limits(true, s, 9) != pref_limits(true, s, 6)
    &&& pref_limits(true, s, 9) is None || pref_limits(true, s, 9) != pref_limits(true, s, 7)
    &&& pref_limits(true, s, 9) is None || pref_limits(true, s, 9) != pref_limits(true, s, 8)
    &&& pref_limits(true, s, 10) is None || pref_limits(true, s, 10) != pref_limits(true, s, 0)
    &&& pref_limits(true, s, 10) is None || pref_limits(true, s, 10) != pref_limits(true, s, 1)
    &&& pref_limits(true, s, 10) is None || pref_limits(true, s, 10) != pref_limits(true, s, 2)
    &&& pref_limits(true, s, 10) is None || pref_limits(true, s, 10) != pref_limits(true, s, 3)
    &&& pref_limits(true, s, 10) is None || pref_limits(true, s, 10) != pref_limits(true, s, 4)
    &&& pref_limits(true, s, 10) is None || pref_limits(true, s, 10) != pref_limits(true, s, 5)
    &&& pref_limits(true, s, 10) is None || pref_limits(true, s, 10) != pref_limits(true, s, 6)
    &&& pref_limits(true, s, 10) is None || pref_limits(true, s, 10) != pref_limits(true, s, 7)
    &&& pref_limits(true, s, 10) is None || pref_limits(true, s, 10) != pref_limits(true, s, 8)
    &&& pref_limits(true, s, 10) is None || pref_limits(true, s, 10) != pref_limits(true, s, 9)
    &&& pref_limits(true, s, 11) is None || pref_limits(true, s, 11) != pref_limits(true, s, 0)
    &&& pref_limits(true, s, 11) is None || pref_limits(true, s, 11) != pref_limits(true, s, 1)
    &&& pref_limits(true, s, 11) is None || pref_limits(true, s, 11) != pref_limits(true, s, 2)
    &&& pref_limits(true, s, 11) is None || pref_limits(true, s, 11) != pref_limits(true, s, 3)
    &&& pref_limits(true, s, 11) is None || pref_limits(true, s, 11) != pref_limits(true, s, 4)
    &&& pref_limits(true, s, 11) is None || pref_limits(true, s, 11) != pref_limits(true, s, 5)
    &&& pref_limits(true, s, 11) is None || pref_limits(true, s, 11) != pref_limits(true, s, 6)
    &&& pref_limits(true, s, 11) is None || pref_limits(true, s, 11) != pref_limits(true, s, 7)
    &&& pref_limits(true, s, 11) is None || pref_limits(true, s, 11) != pref_limits(true, s, 8)
    &&& pref_limits(true, s, 11) is None || pref_limits(true, s, 11) != pref_limits(true, s, 9)
    &&& pref_limits(true, s, 11) is None || pref_limits(true, s, 11) != pref_limits(true, s, 10)
    &&& pref_limits(true, s, 12) is None || pref_limits(true, s, 12) != pref_limits(true, s, 0)
    &&& pref_limits(true, s, 12) is None || pref_limits(true, s, 12) != pref_limits(true, s, 1)
    &&& pref_limits(true, s, 12) is None || pref_limits(true, s, 12) != pref_limits(true, s, 2)
    &&& pref_limits(true, s, 12) is None || pref_limits(true, s, 12) != pref_limits(true, s, 3)
    &&& pref_limits(true, s, 12) is None || pref_limits(true, s, 12) != pref_limits(true, s, 4)
    &&& pref_limits(true, s, 12) is None || pref_limits(true, s, 12) != pref_limits(true, s, 5)
    &&& pref_limits(true, s, 12) is None || pref_limits(true, s, 12) != pref_limits(true, s, 6)
    &&& pref_limits(true, s, 12) is None || pref_limits(true, s, 12) != pref_limits(true, s, 7)
    &&& pref_limits(true, s, 12) is None || pref_limits(true, s, 12) != pref_limits(true, s, 8)
    &&& pref_limits(true, s, 12) is None || pref_limits(true, s, 12) != pref_limits(true, s, 9)
    &&& pref_limits(true, s, 12) is None || pref_limits(true, s, 12) != pref_limits(true, s, 10)
    &&& pref_limits(true, s, 12) is None || pref_limits(true, s, 12) != pref_limits(true, s, 11)
    &&& pref_limits(true, s, 13) is None || pref_limits(true, s, 13) != pref_limits(true, s, 0)
    &&& pref_limits(true, s, 13) is None || pref_limits(true, s, 13) != pref_limits(true, s, 1)
    &&& pref_limits(true, s, 13) is None || pref_limits(true, s, 13) != pref_limits(true, s, 2)
    &&& pref_limits(true, s, 13) is None || pref_limits(true, s, 13) != pref_limits(true, s, 3)
    &&& pref_limits(true, s, 13) is None || pref_limits(true, s, 13) != pref_limits(true, s, 4)
    &&& pref_limits(true, s, 13) is None || pref_limits(true, s, 13) != pref_limits(true, s, 5)
    &&& pref_limits(true, s, 13) is None || pref_limits(true, s, 13) != pref_limits(true, s, 6)
    &&& pref_limits(true, s, 13) is None || pref_limits(true, s, 13) != pref_limits(true, s, 7)
    &&& pref_limits(true, s, 13) is None || pref_limits(true, s, 13) != pref_limits(true, s, 8)
    &&& pref_limits(true, s, 13) is None || pref_limits(true, s, 13) != pref_limits(true, s, 9)
    &&& pref_limits(true, s, 13) is None || pref_limits(true, s, 13) != pref_limits(true, s, 10)
    &&& pref_limits(true, s, 13) is None || pref_limits(true, s, 13) != pref_limits(true, s, 11)
    &&& pref_limits(true, s, 13) is None || pref_limits(true, s, 13) != pref_limits(true, s, 12)
    &&& pref_limits(true, s, 14) is None || pref_limits(true, s, 14) != pref_limits(true, s, 0)
    &&& pref_limits(true, s, 14) is None || pref_limits(true, s, 14) != pref_limits(true, s, 1)
    &&& pref_limits(true, s, 14) is None || pref_limits(true, s, 14) != pref_limits(true, s, 2)
    &&& pref_limits(true, s, 14) is None || pref_limits(true, s, 14) != pref_limits(true, s, 3)
    &&& pref_limits(true, s, 14) is None || pref_limits(true, s, 14) != pref_limits(true, s, 4)
    &&& pref_limits(true, s, 14) is None || pref_limits(true, s, 14) != pref_limits(true, s, 5)
    &&& pref_limits(true, s, 14) is None || pref_limits(true, s, 14) != pref_limits(true, s, 6)
    &&& pref_limits(true, s, 14) is None || pref_limits(true, s, 14) != pref_limits(true, s, 7)
    &&& pref_limits(true, s, 14) is None || pref_limits(true, s, 14) != pref_limits(true, s, 8)
    &&& pref_limits(true, s, 14) is None || pref_limits(true, s, 14) != pref_limits(true, s, 9)
    &&& pref_limits(true, s, 14) is None || pref_limits(true, s, 14) != pref_limits(true, s, 10)
    &&& pref_limits(true, s, 14) is None || pref_limits(true, s, 14) != pref_limits(true, s, 11)
    &&& pref_limits(true, s, 14) is None || pref_limits(true, s, 14) != pref_limits(true, s, 12)
    &&& pref_limits(true, s, 14) is None || pref_limits(true, s, 14) != pref_limits(true, s, 13)
    &&& pref_limits(true, s, 15) is None || pref_limits(true, s, 15) != pref_limits(true, s, 0)
    &&& pref_limits(true, s, 15) is None || pref_limits(true, s, 15) != pref_limits(true, s, 1)
    &&& pref_limits(true, s, 15) is None || pref_limits(true, s, 15) != pref_limits(true, s, 2)
    &&& pref_limits(true, s, 15) is None || pref_limits(true, s, 15) != pref_limits(true, s, 3)
    &&& pref_limits(true, s, 15) is None || pref_limits(true, s, 15) != pref_limits(true, s, 4)
    &&& pref_limits(true, s, 15) is None || pref_limits(true, s, 15) != pref_limits(true, s, 5)
    &&& pref_limits(true, s, 15) is None || pref_limits(true, s, 15) != pref_limits(true, s, 6)
    &&& pref_limits(true, s, 15) is None || pref_limits(true, s, 15) != pref_limits(true, s, 7)
    &&& pref_limits(true, s, 15) is None || pref_limits(true, s, 15) != pref_limits(true, s, 8)
    &&& pref_limits(true, s, 15) is None || pref_limits(true, s, 15) != pref_limits(true, s, 9)
    &&& pref_limits(true, s, 15) is None || pref_limits(true, s, 15) != pref_limits(true, s, 10)
    &&& pref_limits(true, s, 15) is None || pref_limits(true, s, 15) != pref_limits(true, s, 11)
    &&& pref_limits(true, s, 15) is None || pref_limits(true, s, 15) != pref_limits(true, s, 12)
    &&& pref_limits(true, s, 15) is None || pref_limits(true, s, 15) != pref_limits(true, s, 13)
    &&& pref_limits(true, s, 15) is None || pref_limits(true, s, 15) != pref_limits(true, s, 14)
    &&& pref_limits(true, s, 16) is None || pref_limits(true, s, 16) != pref_limits(true, s, 0)
    &&& pref_limits(true, s, 16) is None || pref_limits(true, s, 16) != pref_limits(true, s, 1)
    &&& pref_limits(true, s, 16) is None || pref_limits(true, s, 16) != pref_limits(true, s, 2)
    &&& pref_limits(true, s, 16) is None || pref_limits(true, s, 16) != pref_limits(true, s, 3)
    &&& pref_limits(true, s, 16) is None || pref_limits(true, s, 16) != pref_limits(true, s, 4)
    &&& pref_limits(true, s, 16) is None || pref_limits(true, s, 16) != pref_limits(true, s, 5)
    &&& pref_limits(true, s, 16) is None || pref_limits(true, s, 16) != pref_limits(true, s, 6)
    &&& pref_limits(true, s, 16) is None || pref_limits(true, s, 16) != pref_limits(true, s, 7)
    &&& pref_limits(true, s, 16) is None || pref_limits(true, s, 16) != pref_limits(true, s, 8)
    &&& pref_limits(true, s, 16) is None || pref_limits(true, s, 16) != pref_limits(true, s, 9)
    &&& pref_limits(true, s, 16) is None || pref_limits(true, s, 16) != pref_limits(true, s, 10)
    &&& pref_limits(true, s, 16) is None || pref_limits(true, s, 16) != pref_limits(true, s, 11)
    &&& pref_limits(true, s, 16) is None || pref_limits(true, s, 16) != pref_limits(true, s, 12)
    &&& pref_limits(true, s, 16) is None || pref_limits(true, s, 16) != pref_limits(true, s, 13)
    &&& pref_limits(true, s, 16) is None || pref_limits(true, s, 16) != pref_limits(true, s, 14)
    &&& pref_limits(true, s, 16) is None || pref_limits(true, s, 16) != pref_limits(true, s, 15)
    &&& pref_limits(true, s, 17) is None || pref_limits(true, s, 17) != pref_limits(true, s, 0)
    &&& pref_limits(true, s, 17) is None || pref_limits(true, s, 17) != pref_limits(true, s, 1)
    &&& pref_limits(true, s, 17) is None || pref_limits(true, s, 17) != pref_limits(true, s, 2)
    &&& pref_limits(true, s, 17) is None || pref_limits(true, s, 17) != pref_limits(true, s, 3)
    &&& pref_limits(true, s, 17) is None || pref_limits(true, s, 17) != pref_limits(true, s, 4)
    &&& pref_limits(true, s, 17) is None || pref_limits(true, s, 17) != pref_limits(true, s, 5)
    &&& pref_limits(true, s, 17) is None || pref_limits(true, s, 17) != pref_limits(true, s, 6)
    &&& pref_limits(true, s, 17) is None || pref_limits(true, s, 17) != pref_limits(true, s, 7)
    &&& pref_limits(true, s, 17) is None || pref_limits(true, s, 17) != pref_limits(true, s, 8)
    &&& pref_limits(true, s, 17) is None || pref_limits(true, s, 17) != pref_limits(true, s, 9)
    &&& pref_limits(true, s, 17) is None || pref_limits(true, s, 17) != pref_limits(true, s, 10)
    &&& pref_limits(true, s, 17) is None || pref_limits(true, s, 17) != pref_limits(true, s, 11)
    &&& pref_limits(true, s, 17) is None || pref_limits(true, s, 17) != pref_limits(true, s, 12)
    &&& pref_limits(true, s, 17) is None || pref_limits(true, s, 17) != pref_limits(true, s, 13)
    &&& pref_limits(true, s, 17) is None || pref_limits(true, s, 17) != pref_limits(true, s, 14)
    &&& pref_limits(true, s, 17) is None || pref_limits(true, s, 17) != pref_limits(true, s, 15)
    &&& pref_limits(true, s, 17) is None || pref_limits(true, s, 17) != pref_limits(true, s, 16)
    &&& pref_limits(false, s, 1) is None || pref_limits(false, s, 1) != pref_limits(false, s, 0)
    &&& pref_limits(false, s, 2) is None || pref_limits(false, s, 2) != pref_limits(false, s, 0)
    &&& pref_limits(false, s, 2) is None || pref_limits(false, s, 2) != pref_limits(false, s, 1)
    &&& pref_limits(false, s, 3) is None || pref_limits(false, s, 3) != pref_limits(false, s, 0)
    &&& pref_limits(false, s, 3) is None || pref_limits(false, s, 3) != pref_limits(false, s, 1)
    &&& pref_limits(false, s, 3) is None || pref_limits(false, s, 3) != pref_limits(false, s, 2)
    &&& pref_limits(false, s, 4) is None || pref_limits(false, s, 4) != pref_limits(false, s, 0)
    &&& pref_limits(false, s, 4) is None || pref_limits(false, s, 4) != pref_limits(false, s, 1)
    &&& pref_limits(false, s, 4) is None || pref_limits(false, s, 4) != pref_limits(false, s, 2)
    &&& pref_limits(false, s, 4) is None || pref_limits(false, s, 4) != pref_limits(false, s, 3)
    &&& pref_limits(false, s, 5) is None || pref_limits(false, s, 5) != pref_limits(false, s, 0)
    &&& pref_limits(false, s, 5) is None || pref_limits(false, s, 5) != pref_limits(false, s, 1)
    &&& pref_limits(false, s, 5) is None || pref_limits(false, s, 5) != pref_limits(false, s, 2)
    &&& pref_limits(false, s, 5) is None || pref_limits(false, s, 5) != pref_limits(false, s, 3)
    &&& pref_limits(false, s, 5) is None || pref_limits(false, s, 5) != pref_limits(false, s, 4)
    &&& pref_limits(false, s, 6) is None || pref_limits(false, s, 6) != pref_limits(false, s, 0)
    &&& pref_limits(false, s, 6) is None || pref_limits(false, s, 6) != pref_limits(false, s, 1)
    &&& pref_limits(false, s, 6) is None || pref_limits(false, s, 6) != pref_limits(false, s, 2)
    &&& pref_limits(false, s, 6) is None || pref_limits(false, s, 6) != pref_limits(false, s, 3)
    &&& pref_limits(false, s, 6) is None || pref_limits(false, s, 6) != pref_limits(false, s, 4)
    &&& pref_limits(false, s, 6) is None || pref_limits(false, s, 6) != pref_limits(false, s, 5)
    &&& pref_limits(false, s, 7) is None || pref_limits(false, s, 7) != pref_limits(false, s, 0)
    &&& pref_limits(false, s, 7) is None || pref_limits(false, s, 7) != pref_limits(false, s, 1)
    &&& pref_limits(false, s, 7) is None || pref_limits(false, s, 7) != pref_limits(false, s, 2)
    &&& pref_limits(false, s, 7) is None || pref_limits(false, s, 7) != pref_limits(false, s, 3)
    &&& pref_limits(false, s, 7) is None || pref_limits(false, s, 7) != pref_limits(false, s, 4)
    &&& pref_limits(false, s, 7) is None || pref_limits(false, s, 7) != pref_limits(false, s, 5)
    &&& pref_limits(false, s, 7) is None || pref_limits(false, s, 7) != pref_limits(false, s, 6)
    &&& pref_limits(false, s, 8) is None || pref_limits(false, s, 8) != pref_limits(false, s, 0)
    &&& pref_limits(false, s, 8) is None || pref_limits(false, s, 8) != pref_limits(false, s, 1)
    &&& pref_limits(false, s, 8) is None || pref_limits(false, s, 8) != pref_limits(false, s, 2)
    &&& pref_limits(false, s, 8) is None || pref_limits(false, s, 8) != pref_limits(false, s, 3)
    &&& pref_limits(false, s, 8) is None || pref_limits(false, s, 8) != pref_limits(false, s, 4)
    &&& pref_limits(false, s, 8) is None || pref_limits(false, s, 8) != pref_limits(false, s, 5)
    &&& pref_limits(false, s, 8) is None || pref_limits(false, s, 8) != pref_limits(false, s, 6)
    &&& pref_limits(false, s, 8) is None || pref_limits(false, s, 8) != pref_limits(false, s, 7)
    &&& pref_limits(false, s, 9) is None || pref_limits(false, s, 9) != pref_limits(false, s, 0)
    &&& pref_limits(false, s, 9) is None || pref_limits(false, s, 9) != pref_limits(false, s, 1)
    &&& pref_limits(false, s, 9) is None || pref_limits(false, s, 9) != pref_limits(false, s, 2)
    &&& pref_limits(false, s, 9) is None || pref_limits(false, s, 9) != pref_limits(false, s, 3)
    &&& pref_limits(false, s, 9) is None || pref_limits(false, s, 9) != pref_limits(false, s, 4)
    &&& pref_limits(false, s, 9) is None || pref_limits(false, s, 9) != pref_limits(false, s, 5)
    &&& pref_limits(false, s, 9) is None || pref_limits(false, s, 9) != pref_limits(false, s, 6)
    &&& pref_limits(false, s, 9) is None || pref_limits(false, s, 9) != pref_limits(false, s, 7)
    &&& pref_limits(false, s, 9) is None || pref_limits(false, s, 9) != pref_limits(false, s, 8)
    &&& pref_limits(false, s, 10) is None || pref_limits(false, s, 10) != pref_limits(false, s, 0)
    &&& pref_limits(false, s, 10) is None || pref_limits(false, s, 10) != pref_limits(false, s, 1)
    &&& pref_limits(false, s, 10) is None || pref_limits(false, s, 10) != pref_limits(false, s, 2)
    &&& pref_limits(false, s, 10) is None || pref_limits(false, s, 10) != pref_limits(false, s, 3)
    &&& pref_limits(false, s, 10) is None || pref_limits(false, s, 10) != pref_limits(false, s, 4)
    &&& pref_limits(false, s, 10) is None || pref_limits(false, s, 10) != pref_limits(false, s, 5)
    &&& pref_limits(false, s, 10) is None || pref_limits(false, s, 10) != pref_limits(false, s, 6)
    &&& pref_limits(false, s, 10) is None || pref_limits(false, s, 10) != pref_limits(false, s, 7)
    &&& pref_limits(false, s, 10) is None || pref_limits(false, s, 10) != pref_limits(false, s, 8)
    &&& pref_limits(false, s, 10) is None || pref_limits(false, s, 10) != pref_limits(false, s, 9)
    &&& pref_limits(false, s, 11) is None || pref_limits(false, s, 11) != pref_limits(false, s, 0)
    &&& pref_limits(false, s, 11) is None || pref_limits(false, s, 11) != pref_limits(false, s, 1)
    &&& pref_limits(false, s, 11) is None || pref_limits(false, s, 11) != pref_limits(false, s, 2)
    &&& pref_limits(false, s, 11) is None || pref_limits(false, s, 11) != pref_limits(false, s, 3)
    &&& pref_limits(false, s, 11) is None || pref_limits(false, s, 11) != pref_limits(false, s, 4)
    &&& pref_limits(false, s, 11) is None || pref_limits(false, s, 11) != pref_limits(false, s, 5)
    &&& pref_limits(false, s, 11) is None || pref_limits(false, s, 11) != pref_limits(false, s, 6)
    &&& pref_limits(false, s, 11) is None || pref_limits(false, s, 11) != pref_limits(false, s, 7)
    &&& pref_limits(false, s, 11) is None || pref_limits(false, s, 11) != pref_limits(false, s, 8)
    &&& pref_limits(false, s, 11) is None || pref_limits(false, s, 11) != pref_limits(false, s, 9)
    &&& pref_limits(false, s, 11) is None || pref_limits(false, s, 11) != pref_limits(false, s, 10)
    &&& pref_limits(false, s, 12) is None || pref_limits(false, s, 12) != pref_limits(false, s, 0)
    &&& pref_limits(false, s, 12) is None || pref_limits(false, s, 12) != pref_limits(false, s, 1)
    &&& pref_limits(false, s, 12) is None || pref_limits(false, s, 12) != pref_limits(false, s, 2)
    &&& pref_limits(false, s, 12) is None || pref_limits(false, s, 12) != pref_limits(false, s, 3)
    &&& pref_limits(false, s, 12) is None || pref_limits(false, s, 12) != pref_limits(false, s, 4)
    &&& pref_limits(false, s, 12) is None || pref_limits(false, s, 12) != pref_limits(false, s, 5)
    &&& pref_limits(false, s, 12) is None || pref_limits(false, s, 12) != pref_limits(false, s, 6)
    &&& pref_limits(false, s, 12) is None || pref_limits(false, s, 12) != pref_limits(false, s, 7)
    &&& pref_limits(false, s, 12) is None || pref_limits(false, s, 12) != pref_limits(false, s, 8)
    &&& pref_limits(false, s, 12) is None || pref_limits(false, s, 12) != pref_limits(false, s, 9)
    &&& pref_limits(false, s, 12) is None || pref_limits(false, s, 12) != pref_limits(false, s, 10)
    &&& pref_limits(false, s, 12) is None || pref_limits(false, s, 12) != pref_limits(false, s, 11)
    &&& pref_limits(false, s, 13) is None || pref_limits(false, s, 13) != pref_limits(false, s, 0)
    &&& pref_limits(false, s, 13) is None || pref_limits(false, s, 13) != pref_limits(false, s, 1)
    &&& pref_limits(false, s, 13) is None || pref_limits(false, s, 13) != pref_limits(false, s, 2)
    &&& pref_limits(false, s, 13) is None || pref_limits(false, s, 13) != pref_limits(false, s, 3)
    &&& pref_limits(false, s, 13) is None || pref_limits(false, s, 13) != pref_limits(false, s, 4)
    &&& pref_limits(false, s, 13) is None || pref_limits(false, s, 13) != pref_limits(false, s, 5)
    &&& pref_limits(false, s, 13) is None || pref_limits(false, s, 13) != pref_limits(false, s, 6)
    &&& pref_limits(false, s, 13) is None || pref_limits(false, s, 13) != pref_limits(false, s, 7)
    &&& pref_limits(false, s, 13) is None || pref_limits(false, s, 13) != pref_limits(false, s, 8)
    &&& pref_limits(false, s, 13) is None || pref_limits(false, s, 13) != pref_limits(false, s, 9)
    &&& pref_limits(false, s, 13) is None || pref_limits(false, s, 13) != pref_limits(false, s, 10)
    &&& pref_limits(false, s, 13) is None || pref_limits(false, s, 13) != pref_limits(false, s, 11)
    &&& pref_limits(false, s, 13) is None || pref_limits(false, s, 13) != pref_limits(false, s, 12)
    &&& pref_limits(false, s, 14) is None || pref_limits(false, s, 14) != pref_limits(false, s, 0)
    &&& pref_limits(false, s, 14) is None || pref_limits(false, s, 14) != pref_limits(false, s, 1)
    &&& pref_limits(false, s, 14) is None || pref_limits(false, s, 14) != pref_limits(false, s, 2)
    &&& pref_limits(false, s, 14) is None || pref_limits(false, s, 14) != pref_limits(false, s, 3)
    &&& pref_limits(false, s, 14) is None || pref_limits(false, s, 14) != pref_limits(false, s, 4)
    &&& pref_limits(false, s, 14) is None || pref_limits(false, s, 14) != pref_limits(false, s, 5)
    &&& pref_limits(false, s, 14) is None || pref_limits(false, s, 14) != pref_limits(false, s, 6)
    &&& pref_limits(false, s, 14) is None || pref_limits(false, s, 14) != pref_limits(false, s, 7)
    &&& pref_limits(false, s, 14) is None || pref_limits(false, s, 14) != pref_limits(false, s, 8)
    &&& pref_limits(false, s, 14) is None || pref_limits(false, s, 14) != pref_limits(false, s, 9)
    &&& pref_limits(false, s, 14) is None || pref_limits(false, s, 14) != pref_limits(false, s, 10)
    &&& pref_limits(false, s, 14) is None || pref_limits(false, s, 14) != pref_limits(false, s, 11)
    &&& pref_limits(false, s, 14) is None || pref_limits(false, s, 14) != pref_limits(false, s, 12)
    &&& pref_limits(false, s, 14) is None || pref_limits(false, s, 14) != pref_limits(false, s, 13)
    &&& pref_limits(false, s, 15) is None || pref_limits(false, s, 15) != pref_limits(false, s, 0)
    &&& pref_limits(false, s, 15) is None || pref_limits(false, s, 15) != pref_limits(false, s, 1)
    &&& pref_limits(false, s, 15) is None || pref_limits(false, s, 15) != pref_limits(false, s, 2)
    &&& pref_limits(false, s, 15) is None || pref_limits(false, s, 15) != pref_limits(false, s, 3)
    &&& pref_limits(false, s, 15) is None || pref_limits(false, s, 15) != pref_limits(false, s, 4)
    &&& pref_limits(false, s, 15) is None || pref_limits(false, s, 15) != pref_limits(false, s, 5)
    &&& pref_limits(false, s, 15) is None || pref_limits(false, s, 15) != pref_limits(false, s, 6)
    &&& pref_limits(false, s, 15) is None || pref_limits(false, s, 15) != pref_limits(false, s, 7)
    &&& pref_limits(false, s, 15) is None || pref_limits(false, s, 15) != pref_limits(false, s, 8)
    &&& pref_limits(false, s, 15) is None || pref_limits(false, s, 15) != pref_limits(false, s, 9)
    &&& pref_limits(false, s, 15) is None || pref_limits(false, s, 15) != pref_limits(false, s, 10)
    &&& pref_limits(false, s, 15) is None || pref_limits(false, s, 15) != pref_limits(false, s, 11)
    &&& pref_limits(false, s, 15) is None || pref_limits(false, s, 15) != pref_limits(false, s, 12)
    &&& pref_limits(false, s, 15) is None || pref_limits(false, s, 15) != pref_limits(false, s, 13)
    &&& pref_limits(false, s, 15) is None || pref_limits(false, s, 15) != pref_limits(false, s, 14)
    &&& pref_limits(false, s, 16) is None || pref_limits(false, s, 16) != pref_limits(false, s, 0)
    &&& pref_limits(false, s, 16) is None || pref_limits(false, s, 16) != pref_limits(false, s, 1)
    &&& pref_limits(false, s, 16) is None || pref_limits(false, s, 16) != pref_limits(false, s, 2)
    &&& pref_limits(false, s, 16) is None || pref_limits(false, s, 16) != pref_limits(false, s, 3)
    &&& pref_limits(false, s, 16) is None || pref_limits(false, s, 16) != pref_limits(false, s, 4)
    &&& pref_limits(false, s, 16) is None || pref_limits(false, s, 16) != pref_limits(false, s, 5)
    &&& pref_limits(false, s, 16) is None || pref_limits(false, s, 16) != pref_limits(false, s, 6)
    &&& pref_limits(false, s, 16) is None || pref_limits(false, s, 16) != pref_limits(false, s, 7)
    &&& pref_limits(false, s, 16) is None || pref_limits(false, s, 16) != pref_limits(false, s, 8)
    &&& pref_limits(false, s, 16) is None || pref_limits(false, s, 16) != pref_limits(false, s, 9)
    &&& pref_limits(false, s, 16) is None || pref_limits(false, s, 16) != pref_limits(false, s, 10)
    &&& pref_limits(false, s, 16) is None || pref_limits(false, s, 16) != pref_limits(false, s, 11)
    &&& pref_limits(false, s, 16) is None || pref_limits(false, s, 16) != pref_limits(false, s, 12)
    &&& pref_limits(false, s, 16) is None || pref_limits(false, s, 16) != pref_limits(false, s, 13)
    &&& pref_limits(false, s, 16) is None || pref_limits(false, s, 16) != pref_limits(false, s, 14)
    &&& pref_limits(false, s, 16) is None || pref_limits(false, s, 16) != pref_limits(false, s, 15)
    &&& pref_limits(false, s, 17) is None || pref_limits(false, s, 17) != pref_limits(false, s, 0)
    &&& pref_limits(false, s, 17) is None || pref_limits(false, s, 17) != pref_limits(false, s, 1)
    &&& pref_limits(false, s, 17) is None || pref_limits(false, s, 17) != pref_limits(false, s, 2)
    &&& pref_limits(false, s, 17) is None || pref_limits(false, s, 17) != pref_limits(false, s, 3)
    &&& pref_limits(false, s, 17) is None || pref_limits(false, s, 17) != pref_limits(false, s, 4)
    &&& pref_limits(false, s, 17) is None || pref_limits(false, s, 17) != pref_limits(false, s, 5)
    &&& pref_limits(false, s, 17) is None || pref_limits(false, s, 17) != pref_limits(false, s, 6)
    &&& pref_limits(false, s, 17) is None || pref_limits(false, s, 17) != pref_limits(false, s, 7)
    &&& pref_limits(false, s, 17) is None || pref_limits(false, s, 17) != pref_limits(false, s, 8)
    &&& pref_limits(false, s, 17) is None || pref_limits(false, s, 17) != pref_limits(false, s, 9)
    &&& pref_limits(false, s, 17) is None || pref_limits(false, s, 17) != pref_limits(false, s, 10)
    &&& pref_limits(false, s, 17) is None || pref_limits(false, s, 17) != pref_limits(false, s, 11)
    &&& pref_limits(false, s, 17) is None || pref_limits(false, s, 17) != pref_limits(false, s, 12)
    &&& pref_limits(false, s, 17) is None || pref_limits(false, s, 17) != pref_limits(false, s, 13)
    &&& pref_limits(false, s, 17) is None || pref_limits(false, s, 17) != pref_limits(false, s, 14)
    &&& pref_limits(false, s, 17) is None || pref_limits(false, s, 17) != pref_limits(false, s, 15)
    &&& pref_limits(false, s, 17) is None || pref_limits(false, s, 17) != pref_limits(false, s, 16)
}

/// Pair by pair is all pairs.
#[verifier::spinoff_prover]
proof fn lemma_distinct_from_pairs(s: int)
    requires
        pairwise_distinct(s),
    ensures
        preferred_limits_distinct(s),
{
    assert forall|hole: bool, p: int, q: int|
        0 <= q < p < NUM_PREFERRED && pref_limits(hole, s, p) is Some implies #[trigger] pref_limits(hole, s, p)
            != #[trigger] pref_limits(hole, s, q) by {
        if p == 1 {
            assert(q == 0);
        } else if p == 2 {
            assert(q == 0 || q == 1);
        } else if p == 3 {
            assert(q == 0 || q == 1 || q == 2);
        } else if p == 4 {
            assert(q == 0 || q == 1 || q == 2 || q == 3);
        } else if p == 5 {
            assert(q == 0 || q == 1 || q == 2 || q == 3 || q == 4);
        } else if p == 6 {
            assert(q == 0 || q == 1 || q == 2 || q == 3 || q == 4 || q == 5);
        } else if p == 7 {
            assert(q == 0 || q == 1 || q == 2 || q == 3 || q == 4 || q == 5 || q == 6);
        } else if p == 8 {
            assert(q == 0 || q == 1 || q == 2 || q == 3 || q == 4 || q == 5 || q == 6 || q == 7);
        } else if p == 9 {
            assert(q == 0 || q == 1 || q == 2 || q == 3 || q == 4 || q == 5 || q == 6 || q == 7 || q == 8);
        } else if p == 10 {
            assert(q == 0 || q == 1 || q == 2 || q == 3 || q == 4 || q == 5 || q == 6 || q == 7 || q == 8 || q == 9);
        } else if p == 11 {
            assert(q == 0 || q == 1 || q == 2 || q == 3 || q == 4 || q == 5 || q == 6 || q == 7 || q == 8 || q == 9 || q == 10);
        } else if p == 12 {
            assert(q == 0 || q == 1 || q == 2 || q == 3 || q == 4 || q == 5 || q == 6 || q == 7 || q == 8 || q == 9 || q == 10 || q == 11);
        } else if p == 13 {
            assert(q == 0 || q == 1 || q == 2 || q == 3 || q == 4 || q == 5 || q == 6 || q == 7 || q == 8 || q == 9 || q == 10 || q == 11 || q == 12);
        } else if p == 14 {
            assert(q == 0 || q == 1 || q == 2 || q == 3 || q == 4 || q == 5 || q == 6 || q == 7 || q == 8 || q == 9 || q == 10 || q == 11 || q == 12 || q == 13);
        } else if p == 15 {
            assert(q == 0 || q == 1 || q == 2 || q == 3 || q == 4 || q == 5 || q == 6 || q == 7 || q == 8 || q == 9 || q == 10 || q == 11 || q == 12 || q == 13 || q == 14);
        } else if p == 16 {
            assert(q == 0 || q == 1 || q == 2 || q == 3 || q == 4 || q == 5 || q == 6 || q == 7 || q == 8 || q == 9 || q == 10 || q == 11 || q == 12 || q == 13 || q == 14 || q == 15);
        } else if p == 17 {
            assert(q == 0 || q == 1 || q == 2 || q == 3 || q == 4 || q == 5 || q == 6 || q == 7 || q == 8 || q == 9 || q == 10 || q == 11 || q == 12 || q == 13 || q == 14 || q == 15 || q == 16);
        }
    }
}

#[verifier::spinoff_prover]
proof fn lemma_preferred_between_0_and_1(s: int)
    requires
        0 < s <= 1,
    ensures
        preferred_limits_distinct(s),
{
    reveal(spec_limits_nm);
    reveal_with_fuel(first_row_from, 42);
    assert(pref_limits(true, s, 0) == None::<(int, int)>);
    assert(pref_limits(true, s, 1) == None::<(int, int)>);
    assert(pref_limits(true, s, 2) == Some((120000int, 60000int)));
    assert(pref_limits(true, s, 3) == Some((60000int, 20000int)));
    assert(pref_limits(true, s, 4) == Some((39000int, 14000int)));
    assert(pref_limits(true, s, 5) == Some((20000int, 6000int)));
    assert(pref_limits(true, s, 6) == Some((12000int, 2000int)));
    assert(pref_limits(true, s, 7) == Some((10000int, 0int)));
    assert(pref_limits(true, s, 8) == Some((14000int, 0int)));
    assert(pref_limits(true, s, 9) == Some((25000int, 0int)));
    assert(pref_limits(true, s, 10) == Some((60000int, 0int)));
    assert(pref_limits(true, s, 11) == Some((5000int, -5000int)));
    assert(pref_limits(true, s, 12) == Some((0int, -10000int)));
    assert(pref_limits(true, s, 13) == Some((-4000int, -14000int)));
    assert(pref_limits(true, s, 14) == Some((-6000int, -16000int)));
    assert(pref_limits(true, s, 15) == Some((-10000int, -20000int)));
    assert(pref_limits(true, s, 16) == Some((-14000int, -24000int)));
    assert(pref_limits(true, s, 17) == Some((-18000int, -28000int)));
    assert(pref_limits(false, s, 0) == None::<(int, int)>);
    assert(pref_limits(false, s, 1) == None::<(int, int)>);
    assert(pref_limits(false, s, 2) == Some((-60000int, -120000int)));
    assert(pref_limits(false, s, 3) == Some((-20000int, -45000int)));
    assert(pref_limits(false, s, 4) == Some((-14000int, -28000int)));
    assert(pref_limits(false, s, 5) == Some((-6000int, -16000int)));
    assert(pref_limits(false, s, 6) == Some((-2000int, -8000int)));
    assert(pref_limits(false, s, 7) == Some((0int, -6000int)));
    assert(pref_limits(false, s, 8) == Some((0int, -10000int)));
    assert(pref_limits(false, s, 9) == Some((0int, -25000int)));
    assert(pref_limits(false, s, 10) == Some((0int, -60000int)));
    assert(pref_limits(false, s, 11) == Some((3000int, -3000int)));
    assert(pref_limits(false, s, 12) == Some((6000int, 0int)));
    assert(pref_limits(false, s, 13) == Some((10000int, 4000int)));
    assert(pref_limits(false, s, 14) == Some((12000int, 6000int)));
    assert(pref_limits(false, s, 15) == Some((16000int, 10000int)));
    assert(pref_limits(false, s, 16) == Some((20000int, 14000int)));
    assert(pref_limits(false, s, 17) == Some((24000int, 18000int)));
    assert(pairwise_distinct(s));
    lemma_distinct_from_pairs(s);
}

#[verifier::spinoff_prover]
proof fn lemma_preferred_between_1_and_3(s: int)
    requires
        1 < s <= 3,
    ensures
        preferred_limits_distinct(s),
{
    reveal(spec_limits_nm);
    reveal_with_fuel(first_row_from, 42);
    assert(pref_limits(true, s, 0) == Some((330000int, 270000int)));
    assert(pref_limits(true, s, 1) == Some((200000int, 140000int)));
    assert(pref_limits(true, s, 2) == Some((120000int, 60000int)));
    assert(pref_limits(true, s, 3) == Some((60000int, 20000int)));
    assert(pref_limits(true, s, 4) == Some((39000int, 14000int)));
    assert(pref_limits(true, s, 5) == Some((20000int, 6000int)));
    assert(pref_limits(true, s, 6) == Some((12000int, 2000int)));
    assert(pref_limits(true, s, 7) == Some((10000int, 0int)));
    assert(pref_limits(true, s, 8) == Some((14000int, 0int)));
    assert(pref_limits(true, s, 9) == Some((25000int, 0int)));
    assert(pref_limits(true, s, 10) == Some((60000int, 0int)));
    assert(pref_limits(true, s, 11) == Some((5000int, -5000int)));
    assert(pref_limits(true, s, 12) == Some((0int, -10000int)));
    assert(pref_limits(true, s, 13) == Some((-4000int, -14000int)));
    assert(pref_limits(true, s, 14) == Some((-6000int, -16000int)));
    assert(pref_limits(true, s, 15) == Some((-10000int, -20000int)));
    assert(pref_limits(true, s, 16) == Some((-14000int, -24000int)));
    assert(pref_limits(true, s, 17) == Some((-18000int, -28000int)));
    assert(pref_limits(false, s, 0) == Some((-270000int, -330000int)));
    assert(pref_limits(false, s, 1) == Some((-140000int, -200000int)));
    assert(pref_limits(false, s, 2) == Some((-60000int, -120000int)));
    assert(pref_limits(false, s, 3) == Some((-20000int, -45000int)));
    assert(pref_limits(false, s, 4) == Some((-14000int, -28000int)));
    assert(pref_limits(false, s, 5) == Some((-6000int, -16000int)));
    assert(pref_limits(false, s, 6) == Some((-2000int, -8000int)));
    assert(pref_limits(false, s, 7) == Some((0int, -6000int)));
    assert(pref_limits(false, s, 8) == Some((0int, -10000int)));
    assert(pref_limits(false, s, 9) == Some((0int, -25000int)));
    assert(pref_limits(false, s, 10) == Some((0int, -60000int)));
    assert(pref_limits(false, s, 11) == Some((3000int, -3000int)));
    assert(pref_limits(false, s, 12) == Some((6000int, 0int)));
    assert(pref_limits(false, s, 13) == Some((10000int, 4000int)));
    assert(pref_limits(false, s, 14) == Some((12000int, 6000int)));
    assert(pref_limits(false, s, 15) == Some((16000int, 10000int)));
    assert(pref_limits(false, s, 16) == Some((20000int, 14000int)));
    assert(pref_limits(false, s, 17) == Some((24000int, 18000int)));
    assert(pairwise_distinct(s));
    lemma_distinct_from_pairs(s);
}

#[verifier::spinoff_prover]
proof fn lemma_preferred_between_3_and_6(s: int)
    requires
        3 < s <= 6,
    ensures
        preferred_limits_distinct(s),
{
    reveal(spec_limits_nm);
    reveal_with_fuel(first_row_from, 42);
    assert(pref_limits(true, s, 0) == Some((345000int, 270000int)));
    assert(pref_limits(true, s, 1) == Some((215000int, 140000int)));
    assert(pref_limits(true, s, 2) == Some((145000int, 70000int)));
    assert(pref_limits(true, s, 3) == Some((78000int, 30000int)));
    assert(pref_limits(true, s, 4) == Some((50000int, 20000int)));
    assert(pref_limits(true, s, 5) == Some((28000int, 10000int)));
    assert(pref_limits(true, s, 6) == Some((16000int, 4000int)));
    assert(pref_limits(true, s, 7) == Some((12000int, 0int)));
    assert(pref_limits(true, s, 8) == Some((18000int, 0int)));
    assert(pref_limits(true, s, 9) == Some((30000int, 0int)));
    assert(pref_limits(true, s, 10) == Some((75000int, 0int)));
    assert(pref_limits(true, s, 11) == Some((6000int, -6000int)));
    assert(pref_limits(true, s, 12) == Some((3000int, -9000int)));
    assert(pref_limits(true, s, 13) == Some((-4000int, -16000int)));
    assert(pref_limits(true, s, 14) == Some((-8000int, -20000int)));
    assert(pref_limits(true, s, 15) == Some((-11000int, -23000int)));
    assert(pref_limits(true, s, 16) == Some((-15000int, -27000int)));
    assert(pref_limits(true, s, 17) == Some((-19000int, -31000int)));
    assert(pref_limits(false, s, 0) == Some((-270000int, -345000int)));
    assert(pref_limits(false, s, 1) == Some((-140000int, -215000int)));
    assert(pref_limits(false, s, 2) == Some((-70000int, -145000int)));
    assert(pref_limits(false, s, 3) == Some((-30000int, -60000int)));
    assert(pref_limits(false, s, 4) == Some((-20000int, -38000int)));
    assert(pref_limits(false, s, 5) == Some((-10000int, -22000int)));
    assert(pref_limits(false, s, 6) == Some((-4000int, -12000int)));
    assert(pref_limits(false, s, 7) == Some((0int, -8000int)));
    assert(pref_limits(false, s, 8) == Some((0int, -12000int)));
    assert(pref_limits(false, s, 9) == Some((0int, -30000int)));
    assert(pref_limits(false, s, 10) == Some((0int, -75000int)));
    assert(pref_limits(false, s, 11) == Some((4000int, -4000int)));
    assert(pref_limits(false, s, 12) == Some((9000int, 1000int)));
    assert(pref_limits(false, s, 13) == Some((16000int, 8000int)));
    assert(pref_limits(false, s, 14) == Some((20000int, 12000int)));
    assert(pref_limits(false, s, 15) == Some((23000int, 15000int)));
    assert(pref_limits(false, s, 16) == Some((27000int, 19000int)));
    assert(pref_limits(false, s, 17) == Some((31000int, 23000int)));
    assert(pairwise_distinct(s));
    lemma_distinct_from_pairs(s);
}

#[verifier::spinoff_prover]
proof fn lemma_preferred_between_6_and_10(s: int)
    requires
        6 < s <= 10,
    ensures
        preferred_limits_distinct(s),
{
    reveal(spec_limits_nm);
    reveal_with_fuel(first_row_from, 42);
    assert(pref_limits(true, s, 0) == Some((370000int, 280000int)));
    assert(pref_limits(true, s, 1) == Some((240000int, 150000int)));
    assert(pref_limits(true, s, 2) == Some((170000int, 80000int)));
    assert(pref_limits(true, s, 3) == Some((98000int, 40000int)));
    assert(pref_limits(true, s, 4) == Some((61000int, 25000int)));
    assert(pref_limits(true, s, 5) == Some((35000int, 13000int)));
    assert(pref_limits(true, s, 6) == Some((20000int, 5000int)));
    assert(pref_limits(true, s, 7) == Some((15000int, 0int)));
    assert(pref_limits(true, s, 8) == Some((22000int, 0int)));
    assert(pref_limits(true, s, 9) == Some((36000int, 0int)));
    assert(pref_limits(true, s, 10) == Some((90000int, 0int)));
    assert(pref_limits(true, s, 11) == Some((7500int, -7500int)));
    assert(pref_limits(true, s, 12) == Some((5000int, -10000int)));
    assert(pref_limits(true, s, 13) == Some((-4000int, -19000int)));
    assert(pref_limits(true, s, 14) == Some((-9000int, -24000int)));
    assert(pref_limits(true, s, 15) == Some((-13000int, -28000int)));
    assert(pref_limits(true, s, 16) == Some((-17000int, -32000int)));
    assert(pref_limits(true, s, 17) == Some((-22000int, -37000int)));
    assert(pref_limits(false, s, 0) == Some((-280000int, -370000int)));
    assert(pref_limits(false, s, 1) == Some((-150000int, -240000int)));
    assert(pref_limits(false, s, 2) == Some((-80000int, -170000int)));
    assert(pref_limits(false, s, 3) == Some((-40000int, -76000int)));
    assert(pref_limits(false, s, 4) == Some((-25000int, -47000int)));
    assert(pref_limits(false, s, 5) == Some((-13000int, -28000int)));
    assert(pref_limits(false, s, 6) == Some((-5000int, -14000int)));
    assert(pref_limits(false, s, 7) == Some((0int, -9000int)));
    assert(pref_limits(false, s, 8) == Some((0int, -15000int)));
    assert(pref_limits(false, s, 9) == Some((0int, -36000int)));
    assert(pref_limits(false, s, 10) == Some((0int, -90000int)));
    assert(pref_limits(false, s, 11) == Some((4500int, -4500int)));
    assert(pref_limits(false, s, 12) == Some((10000int, 1000int)));
    assert(pref_limits(false, s, 13) == Some((19000int, 10000int)));
    assert(pref_limits(false, s, 14) == Some((24000int, 15000int)));
    assert(pref_limits(false, s, 15) == Some((28000int, 19000int)));
    assert(pref_limits(false, s, 16) == Some((32000int, 23000int)));
    assert(pref_limits(false, s, 17) == Some((37000int, 28000int)));
    assert(pairwise_distinct(s));
    lemma_distinct_from_pairs(s);
}

#[verifier::spinoff_prover]
proof fn lemma_preferred_between_10_and_14(s: int)
    requires
        10 < s <= 14,
    ensures
        preferred_limits_distinct(s),
{
    reveal(spec_limits_nm);
    reveal_with_fuel(first_row_from, 42);
    assert(pref_limits(true, s, 0) == Some((400000int, 290000int)));
    assert(pref_limits(true, s, 1) == Some((260000int, 150000int)));
    assert(pref_limits(true, s, 2) == Some((205000int, 95000int)));
    assert(pref_limits(true, s, 3) == Some((120000int, 50000int)));
    assert(pref_limits(true, s, 4) == Some((75000int, 32000int)));
    assert(pref_limits(true, s, 5) == Some((43000int, 16000int)));
    assert(pref_limits(true, s, 6) == Some((24000int, 6000int)));
    assert(pref_limits(true, s, 7) == Some((18000int, 0int)));
    assert(pref_limits(true, s, 8) == Some((27000int, 0int)));
    assert(pref_limits(true, s, 9) == Some((43000int, 0int)));
    assert(pref_limits(true, s, 10) == Some((110000int, 0int)));
    assert(pref_limits(true, s, 11) == Some((9000int, -9000int)));
    assert(pref_limits(true, s, 12) == Some((6000int, -12000int)));
    assert(pref_limits(true, s, 13) == Some((-5000int, -23000int)));
    assert(pref_limits(true, s, 14) == Some((-11000int, -29000int)));
    assert(pref_limits(true, s, 15) == Some((-16000int, -34000int)));
    assert(pref_limits(true, s, 16) == Some((-21000int, -39000int)));
    assert(pref_limits(true, s, 17) == Some((-26000int, -44000int)));
    assert(pref_limits(false, s, 0) == Some((-290000int, -400000int)));
    assert(pref_limits(false, s, 1) == Some((-150000int, -260000int)));
    assert(pref_limits(false, s, 2) == Some((-95000int, -205000int)));
    assert(pref_limits(false, s, 3) == Some((-50000int, -93000int)));
    assert(pref_limits(false, s, 4) == Some((-32000int, -59000int)));
    assert(pref_limits(false, s, 5) == Some((-16000int, -34000int)));
    assert(pref_limits(false, s, 6) == Some((-6000int, -17000int)));
    assert(pref_limits(false, s, 7) == Some((0int, -11000int)));
    assert(pref_limits(false, s, 8) == Some((0int, -18000int)));
    assert(pref_limits(false, s, 9) == Some((0int, -43000int)));
    assert(pref_limits(false, s, 10) == Some((0int, -110000int)));
    assert(pref_limits(false, s, 11) == Some((5500int, -5500int)));
    assert(pref_limits(false, s, 12) == Some((12000int, 1000int)));
    assert(pref_limits(false, s, 13) == Some((23000int, 12000int)));
    assert(pref_limits(false, s, 14) == Some((29000int, 18000int)));
    assert(pref_limits(false, s, 15) == Some((34000int, 23000int)));
    assert(pref_limits(false, s, 16) == Some((39000int, 28000int)));
    assert(pref_limits(false, s, 17) == Some((44000int, 33000int)));
    assert(pairwise_distinct(s));
    lemma_distinct_from_pairs(s);
}

#[verifier::spinoff_prover]
proof fn lemma_preferred_between_14_and_18(s: int)
    requires
        14 < s <= 18,
    ensures
        preferred_limits_distinct(s),
{
    reveal(spec_limits_nm);
    reveal_with_fuel(first_row_from, 42);
    assert(pref_limits(true, s, 0) == Some((400000int, 290000int)));
    assert(pref_limits(true, s, 1) == Some((260000int, 150000int)));
    assert(pref_limits(true, s, 2) == Some((205000int, 95000int)));
    assert(pref_limits(true, s, 3) == Some((120000int, 50000int)));
    assert(pref_limits(true, s, 4) == Some((75000int, 32000int)));
    assert(pref_limits(true, s, 5) == Some((43000int, 16000int)));
    assert(pref_limits(true, s, 6) == Some((24000int, 6000int)));
    assert(pref_limits(true, s, 7) == Some((18000int, 0int)));
    assert(pref_limits(true, s, 8) == Some((27000int, 0int)));
    assert(pref_limits(true, s, 9) == Some((43000int, 0int)));
    assert(pref_limits(true, s, 10) == Some((110000int, 0int)));
    assert(pref_limits(true, s, 11) == Some((9000int, -9000int)));
    assert(pref_limits(true, s, 12) == Some((6000int, -12000int)));
    assert(pref_limits(true, s, 13) == Some((-5000int, -23000int)));
    assert(pref_limits(true, s, 14) == Some((-11000int, -29000int)));
    assert(pref_limits(true, s, 15) == Some((-16000int, -34000int)));
    assert(pref_limits(true, s, 16) == Some((-21000int, -39000int)));
    assert(pref_limits(true, s, 17) == Some((-26000int, -44000int)));
    assert(pref_limits(false, s, 0) == Some((-290000int, -400000int)));
    assert(pref_limits(false, s, 1) == Some((-150000int, -260000int)));
    assert(pref_limits(false, s, 2) == Some((-95000int, -205000int)));
    assert(pref_limits(false, s, 3) == Some((-50000int, -93000int)));
    assert(pref_limits(false, s, 4) == Some((-32000int, -59000int)));
    assert(pref_limits(false, s, 5) == Some((-16000int, -34000int)));
    assert(pref_limits(false, s, 6) == Some((-6000int, -17000int)));
    assert(pref_limits(false, s, 7) == Some((0int, -11000int)));
    assert(pref_limits(false, s, 8) == Some((0int, -18000int)));
    assert(pref_limits(false, s, 9) == Some((0int, -43000int)));
    assert(pref_limits(false, s, 10) == Some((0int, -110000int)));
    assert(pref_limits(false, s, 11) == Some((5500int, -5500int)));
    assert(pref_limits(false, s, 12) == Some((12000int, 1000int)));
    assert(pref_limits(false, s, 13) == Some((23000int, 12000int)));
    assert(pref_limits(false, s, 14) == Some((29000int, 18000int)));
    assert(pref_limits(false, s, 15) == Some((34000int, 23000int)));
    assert(pref_limits(false, s, 16) == Some((39000int, 28000int)));
    assert(pref_limits(false, s, 17) == Some((44000int, 33000int)));
    assert(pairwise_distinct(s));
    lemma_distinct_from_pairs(s);
}

#[verifier::spinoff_prover]
proof fn lemma_preferred_between_18_and_24(s: int)
    requires
        18 < s <= 24,
    ensures
        preferred_limits_distinct(s),
{
    reveal(spec_limits_nm);
    reveal_with_fuel(first_row_from, 42);
    assert(pref_limits(true, s, 0) == Some((430000int, 300000int)));
    assert(pref_limits(true, s, 1) == Some((290000int, 160000int)));
    assert(pref_limits(true, s, 2) == Some((240000int, 110000int)));
    assert(pref_limits(true, s, 3) == Some((149000int, 65000int)));
    assert(pref_limits(true, s, 4) == Some((92000int, 40000int)));
    assert(pref_limits(true, s, 5) == Some((53000int, 20000int)));
    assert(pref_limits(true, s, 6) == Some((28000int, 7000int)));
    assert(pref_limits(true, s, 7) == Some((21000int, 0int)));
    assert(pref_limits(true, s, 8) == Some((33000int, 0int)));
    assert(pref_limits(true, s, 9) == Some((52000int, 0int)));
    assert(pref_limits(true, s, 10) == Some((130000int, 0int)));
    assert(pref_limits(true, s, 11) == Some((10500int, -10500int)));
    assert(pref_limits(true, s, 12) == Some((6000int, -15000int)));
    assert(pref_limits(true, s, 13) == Some((-7000int, -28000int)));
    assert(pref_limits(true, s, 14) == Some((-14000int, -35000int)));
    assert(pref_limits(true, s, 15) == Some((-20000int, -41000int)));
    assert(pref_limits(true, s, 16) == Some((-27000int, -48000int)));
    assert(pref_limits(true, s, 17) == Some((-33000int, -54000int)));
    assert(pref_limits(false, s, 0) == Some((-300000int, -430000int)));
    assert(pref_limits(false, s, 1) == Some((-160000int, -290000int)));
    assert(pref_limits(false, s, 2) == Some((-110000int, -240000int)));
    assert(pref_limits(false, s, 3) == Some((-65000int, -117000int)));
    assert(pref_limits(false, s, 4) == Some((-40000int, -73000int)));
    assert(pref_limits(false, s, 5) == Some((-20000int, -41000int)));
    assert(pref_limits(false, s, 6) == Some((-7000int, -20000int)));
    assert(pref_limits(false, s, 7) == Some((0int, -13000int)));
    assert(pref_limits(false, s, 8) == Some((0int, -21000int)));
    assert(pref_limits(false, s, 9) == Some((0int, -52000int)));
    assert(pref_limits(false, s, 10) == Some((0int, -130000int)));
    assert(pref_limits(false, s, 11) == Some((6500int, -6500int)));
    assert(pref_limits(false, s, 12) == Some((15000int, 2000int)));
    assert(pref_limits(false, s, 13) == Some((28000int, 15000int)));
    assert(pref_limits(false, s, 14) == Some((35000int, 22000int)));
    assert(pref_limits(false, s, 15) == Some((41000int, 28000int)));
    assert(pref_limits(false, s, 16) == Some((48000int, 35000int)));
    assert(pref_limits(false, s, 17) == Some((54000int, 41000int)));
    assert(pairwise_distinct(s));
    lemma_distinct_from_pairs(s);
}

#[verifier::spinoff_prover]
proof fn lemma_preferred_between_24_and_30(s: int)
    requires
        24 < s <= 30,
    ensures
        preferred_limits_distinct(s),
{
    reveal(spec_limits_nm);
    reveal_with_fuel(first_row_from, 42);
    assert(pref_limits(true, s, 0) == Some((430000int, 300000int)));
    assert(pref_limits(true, s, 1) == Some((290000int, 160000int)));
    assert(pref_limits(true, s, 2) == Some((240000int, 110000int)));
    assert(pref_limits(true, s, 3) == Some((149000int, 65000int)));
    assert(pref_limits(true, s, 4) == Some((92000int, 40000int)));
    assert(pref_limits(true, s, 5) == Some((53000int, 20000int)));
    assert(pref_limits(true, s, 6) == Some((28000int, 7000int)));
    assert(pref_limits(true, s, 7) == Some((21000int, 0int)));
    assert(pref_limits(true, s, 8) == Some((33000int, 0int)));
    assert(pref_limits(true, s, 9) == Some((52000int, 0int)));
    assert(pref_limits(true, s, 10) == Some((130000int, 0int)));
    assert(pref_limits(true, s, 11) == Some((10500int, -10500int)));
    assert(pref_limits(true, s, 12) == Some((6000int, -15000int)));
    assert(pref_limits(true, s, 13) == Some((-7000int, -28000int)));
    assert(pref_limits(true, s, 14) == Some((-14000int, -35000int)));
    assert(pref_limits(true, s, 15) == Some((-20000int, -41000int)));
    assert(pref_limits(true, s, 16) == Some((-27000int, -48000int)));
    assert(pref_limits(true, s, 17) == Some((-40000int, -61000int)));
    assert(pref_limits(false, s, 0) == Some((-300000int, -430000int)));
    assert(pref_limits(false, s, 1) == Some((-160000int, -290000int)));
    assert(pref_limits(false, s, 2) == Some((-110000int, -240000int)));
    assert(pref_limits(false, s, 3) == Some((-65000int, -117000int)));
    assert(pref_limits(false, s, 4) == Some((-40000int, -73000int)));
    assert(pref_limits(false, s, 5) == Some((-20000int, -41000int)));
    assert(pref_limits(false, s, 6) == Some((-7000int, -20000int)));
    assert(pref_limits(false, s, 7) == Some((0int, -13000int)));
    assert(pref_limits(false, s, 8) == Some((0int, -21000int)));
    assert(pref_limits(false, s, 9) == Some((0int, -52000int)));
    assert(pref_limits(false, s, 10) == Some((0int, -130000int)));
    assert(pref_limits(false, s, 11) == Some((6500int, -6500int)));
    assert(pref_limits(false, s, 12) == Some((15000int, 2000int)));
    assert(pref_limits(false, s, 13) == Some((28000int, 15000int)));
    assert(pref_limits(false, s, 14) == Some((35000int, 22000int)));
    assert(pref_limits(false, s, 15) == Some((41000int, 28000int)));
    assert(pref_limits(false, s, 16) == Some((48000int, 35000int)));
    assert(pref_limits(false, s, 17) == Some((61000int, 48000int)));
    assert(pairwise_distinct(s));
    lemma_distinct_from_pairs(s);
}

#[verifier::spinoff_prover]
proof fn lemma_preferred_between_30_and_40(s: int)
    requires
        30 < s <= 40,
    ensures
        preferred_limits_distinct(s),
{
    reveal(spec_limits_nm);
    reveal_with_fuel(first_row_from, 42);
    assert(pref_limits(true, s, 0) == Some((470000int, 310000int)));
    assert(pref_limits(true, s, 1) == Some((330000int, 170000int)));
    assert(pref_limits(true, s, 2) == Some((280000int, 120000int)));
    assert(pref_limits(true, s, 3) == Some((180000int, 80000int)));
    assert(pref_limits(true, s, 4) == Some((112000int, 50000int)));
    assert(pref_limits(true, s, 5) == Some((64000int, 25000int)));
    assert(pref_limits(true, s, 6) == Some((34000int, 9000int)));
    assert(pref_limits(true, s, 7) == Some((25000int, 0int)));
    assert(pref_limits(true, s, 8) == Some((39000int, 0int)));
    assert(pref_limits(true, s, 9) == Some((62000int, 0int)));
    assert(pref_limits(true, s, 10) == Some((160000int, 0int)));
    assert(pref_limits(true, s, 11) == Some((12500int, -12500int)));
    assert(pref_limits(true, s, 12) == Some((7000int, -18000int)));
    assert(pref_limits(true, s, 13) == Some((-8000int, -33000int)));
    assert(pref_limits(true, s, 14) == Some((-17000int, -42000int)));
    assert(pref_limits(true, s, 15) == Some((-25000int, -50000int)));
    assert(pref_limits(true, s, 16) == Some((-34000int, -59000int)));
    assert(pref_limits(true, s, 17) == Some((-51000int, -76000int)));
    assert(pref_limits(false, s, 0) == Some((-310000int, -470000int)));
    assert(pref_limits(false, s, 1) == Some((-170000int, -330000int)));
    assert(pref_limits(false, s, 2) == Some((-120000int, -280000int)));
    assert(pref_limits(false, s, 3) == Some((-80000int, -142000int)));
    assert(pref_limits(false, s, 4) == Some((-50000int, -89000int)));
    assert(pref_limits(false, s, 5) == Some((-25000int, -50000int)));
    assert(pref_limits(false, s, 6) == Some((-9000int, -25000int)));
    assert(pref_limits(false, s, 7) == Some((0int, -16000int)));
    assert(pref_limits(false, s, 8) == Some((0int, -25000int)));
    assert(pref_limits(false, s, 9) == Some((0int, -62000int)));
    assert(pref_limits(false, s, 10) == Some((0int, -160000int)));
    assert(pref_limits(false, s, 11) == Some((8000int, -8000int)));
    assert(pref_limits(false, s, 12) == Some((18000int, 2000int)));
    assert(pref_limits(false, s, 13) == Some((33000int, 17000int)));
    assert(pref_limits(false, s, 14) == Some((42000int, 26000int)));
    assert(pref_limits(false, s, 15) == Some((50000int, 34000int)));
    assert(pref_limits(false, s, 16) == Some((59000int, 43000int)));
    assert(pref_limits(false, s, 17) == Some((76000int, 60000int)));
    assert(pairwise_distinct(s));
    lemma_distinct_from_pairs(s);
}

#[verifier::spinoff_prover]
proof fn lemma_preferred_between_40_and_50(s: int)
    requires
        40 < s <= 50,
    ensures
        preferred_limits_distinct(s),
{
    reveal(spec_limits_nm);
    reveal_with_fuel(first_row_from, 42);
    assert(pref_limits(true, s, 0) == Some((480000int, 320000int)));
    assert(pref_limits(true, s, 1) == Some((340000int, 180000int)));
    assert(pref_limits(true, s, 2) == Some((290000int, 130000int)));
    assert(pref_limits(true, s, 3) == Some((180000int, 80000int)));
    assert(pref_limits(true, s, 4) == Some((112000int, 50000int)));
    assert(pref_limits(true, s, 5) == Some((64000int, 25000int)));
    assert(pref_limits(true, s, 6) == Some((34000int, 9000int)));
    assert(pref_limits(true, s, 7) == Some((25000int, 0int)));
    assert(pref_limits(true, s, 8) == Some((39000int, 0int)));
    assert(pref_limits(true, s, 9) == Some((62000int, 0int)));
    assert(pref_limits(true, s, 10) == Some((160000int, 0int)));
    assert(pref_limits(true, s, 11) == Some((12500int, -12500int)));
    assert(pref_limits(true, s, 12) == Some((7000int, -18000int)));
    assert(pref_limits(true, s, 13) == Some((-8000int, -33000int)));
    assert(pref_limits(true, s, 14) == Some((-17000int, -42000int)));
    assert(pref_limits(true, s, 15) == Some((-25000int, -50000int)));
    assert(pref_limits(true, s, 16) == Some((-34000int, -59000int)));
    assert(pref_limits(true, s, 17) == Some((-61000int, -86000int)));
    assert(pref_limits(false, s, 0) == Some((-320000int, -480000int)));
    assert(pref_limits(false, s, 1) == Some((-180000int, -340000int)));
    assert(pref_limits(false, s, 2) == Some((-130000int, -290000int)));
    assert(pref_limits(false, s, 3) == Some((-80000int, -142000int)));
    assert(pref_limits(false, s, 4) == Some((-50000int, -89000int)));
    assert(pref_limits(false, s, 5) == Some((-25000int, -50000int)));
    assert(pref_limits(false, s, 6) == Some((-9000int, -25000int)));
    assert(pref_limits(false, s, 7) == Some((0int, -16000int)));
    assert(pref_limits(false, s, 8) == Some((0int, -25000int)));
    assert(pref_limits(false, s, 9) == Some((0int, -62000int)));
    assert(pref_limits(false, s, 10) == Some((0int, -160000int)));
    assert(pref_limits(false, s, 11) == Some((8000int, -8000int)));
    assert(pref_limits(false, s, 12) == Some((18000int, 2000int)));
    assert(pref_limits(false, s, 13) == Some((33000int, 17000int)));
    assert(pref_limits(false, s, 14) == Some((42000int, 26000int)));
    assert(pref_limits(false, s, 15) == Some((50000int, 34000int)));
    assert(pref_limits(false, s, 16) == Some((59000int, 43000int)));
    assert(pref_limits(false, s, 17) == Some((86000int, 70000int)));
    assert(pairwise_distinct(s));
    lemma_distinct_from_pairs(s);
}

#[verifier::spinoff_prover]
proof fn lemma_preferred_between_50_and_65(s: int)
    requires
        50 < s <= 65,
    ensures
        preferred_limits_distinct(s),
{
    reveal(spec_limits_nm);
    reveal_with_fuel(first_row_from, 42);
    assert(pref_limits(true, s, 0) == Some((530000int, 340000int)));
    assert(pref_limits(true, s, 1) == Some((380000int, 190000int)));
    assert(pref_limits(true, s, 2) == Some((330000int, 140000int)));
    assert(pref_limits(true, s, 3) == Some((220000int, 100000int)));
    assert(pref_limits(true, s, 4) == Some((134000int, 60000int)));
    assert(pref_limits(true, s, 5) == Some((76000int, 30000int)));
    assert(pref_limits(true, s, 6) == Some((40000int, 10000int)));
    assert(pref_limits(true, s, 7) == Some((30000int, 0int)));
    assert(pref_limits(true, s, 8) == Some((46000int, 0int)));
    assert(pref_limits(true, s, 9) == Some((74000int, 0int)));
    assert(pref_limits(true, s, 10) == Some((190000int, 0int)));
    assert(pref_limits(true, s, 11) == Some((15000int, -15000int)));
    assert(pref_limits(true, s, 12) == Some((9000int, -21000int)));
    assert(pref_limits(true, s, 13) == Some((-9000int, -39000int)));
    assert(pref_limits(true, s, 14) == Some((-21000int, -51000int)));
    assert(pref_limits(true, s, 15) == Some((-30000int, -60000int)));
    assert(pref_limits(true, s, 16) == Some((-42000int, -72000int)));
    assert(pref_limits(true, s, 17) == Some((-76000int, -106000int)));
    assert(pref_limits(false, s, 0) == Some((-340000int, -530000int)));
    assert(pref_limits(false, s, 1) == Some((-190000int, -380000int)));
    assert(pref_limits(false, s, 2) == Some((-140000int, -330000int)));
    assert(pref_limits(false, s, 3) == Some((-100000int, -174000int)));
    assert(pref_limits(false, s, 4) == Some((-60000int, -106000int)));
    assert(pref_limits(false, s, 5) == Some((-30000int, -60000int)));
    assert(pref_limits(false, s, 6) == Some((-10000int, -29000int)));
    assert(pref_limits(false, s, 7) == Some((0int, -19000int)));
    assert(pref_limits(false, s, 8) == Some((0int, -30000int)));
    assert(pref_limits(false, s, 9) == Some((0int, -74000int)));
    assert(pref_limits(false, s, 10) == Some((0int, -190000int)));
    assert(pref_limits(false, s, 11) == Some((9500int, -9500int)));
    assert(pref_limits(false, s, 12) == Some((21000int, 2000int)));
    assert(pref_limits(false, s, 13) == Some((39000int, 20000int)));
    assert(pref_limits(false, s, 14) == Some((51000int, 32000int)));
    assert(pref_limits(false, s, 15) == Some((60000int, 41000int)));
    assert(pref_limits(false, s, 16) == Some((72000int, 53000int)));
    assert(pref_limits(false, s, 17) == Some((106000int, 87000int)));
    assert(pairwise_distinct(s));
    lemma_distinct_from_pairs(s);
}

#[verifier::spinoff_prover]
proof fn lemma_preferred_between_65_and_80(s: int)
    requires
        65 < s <= 80,
    ensures
        preferred_limits_distinct(s),
{
    reveal(spec_limits_nm);
    reveal_with_fuel(first_row_from, 42);
    assert(pref_limits(true, s, 0) == Some((550000int, 360000int)));
    assert(pref_limits(true, s, 1) == Some((390000int, 200000int)));
    assert(pref_limits(true, s, 2) == Some((340000int, 150000int)));
    assert(pref_limits(true, s, 3) == Some((220000int, 100000int)));
    assert(pref_limits(true, s, 4) == Some((134000int, 60000int)));
    assert(pref_limits(true, s, 5) == Some((76000int, 30000int)));
    assert(pref_limits(true, s, 6) == Some((40000int, 10000int)));
    assert(pref_limits(true, s, 7) == Some((30000int, 0int)));
    assert(pref_limits(true, s, 8) == Some((46000int, 0int)));
    assert(pref_limits(true, s, 9) == Some((74000int, 0int)));
    assert(pref_limits(true, s, 10) == Some((190000int, 0int)));
    assert(pref_limits(true, s, 11) == Some((15000int, -15000int)));
    assert(pref_limits(true, s, 12) == Some((9000int, -21000int)));
    assert(pref_limits(true, s, 13) == Some((-9000int, -39000int)));
    assert(pref_limits(true, s, 14) == Some((-21000int, -51000int)));
    assert(pref_limits(true, s, 15) == Some((-32000int, -62000int)));
    assert(pref_limits(true, s, 16) == Some((-48000int, -78000int)));
    assert(pref_limits(true, s, 17) == Some((-91000int, -121000int)));
    assert(pref_limits(false, s, 0) == Some((-360000int, -550000int)));
    assert(pref_limits(false, s, 1) == Some((-200000int, -390000int)));
    assert(pref_limits(false, s, 2) == Some((-150000int, -340000int)));
    assert(pref_limits(false, s, 3) == Some((-100000int, -174000int)));
    assert(pref_limits(false, s, 4) == Some((-60000int, -106000int)));
    assert(pref_limits(false, s, 5) == Some((-30000int, -60000int)));
    assert(pref_limits(false, s, 6) == Some((-10000int, -29000int)));
    assert(pref_limits(false, s, 7) == Some((0int, -19000int)));
    assert(pref_limits(false, s, 8) == Some((0int, -30000int)));
    assert(pref_limits(false, s, 9) == Some((0int, -74000int)));
    assert(pref_limits(false, s, 10) == Some((0int, -190000int)));
    assert(pref_limits(false, s, 11) == Some((9500int, -9500int)));
    assert(pref_limits(false, s, 12) == Some((21000int, 2000int)));
    assert(pref_limits(false, s, 13) == Some((39000int, 20000int)));
    assert(pref_limits(false, s, 14) == Some((51000int, 32000int)));
    assert(pref_limits(false, s, 15) == Some((62000int, 43000int)));
    assert(pref_limits(false, s, 16) == Some((78000int, 59000int)));
    assert(pref_limits(false, s, 17) == Some((121000int, 102000int)));
    assert(pairwise_distinct(s));
    lemma_distinct_from_pairs(s);
}

#[verifier::spinoff_prover]
proof fn lemma_preferred_between_80_and_100(s: int)
    requires
        80 < s <= 100,
    ensures
        preferred_limits_distinct(s),
{
    reveal(spec_limits_nm);
    reveal_with_fuel(first_row_from, 42);
    assert(pref_limits(true, s, 0) == Some((600000int, 380000int)));
    assert(pref_limits(true, s, 1) == Some((440000int, 220000int)));
    assert(pref_limits(true, s, 2) == Some((390000int, 170000int)));
    assert(pref_limits(true, s, 3) == Some((260000int, 120000int)));
    assert(pref_limits(true, s, 4) == Some((159000int, 72000int)));
    assert(pref_limits(true, s, 5) == Some((90000int, 36000int)));
    assert(pref_limits(true, s, 6) == Some((47000int, 12000int)));
    assert(pref_limits(true, s, 7) == Some((35000int, 0int)));
    assert(pref_limits(true, s, 8) == Some((54000int, 0int)));
    assert(pref_limits(true, s, 9) == Some((87000int, 0int)));
    assert(pref_limits(true, s, 10) == Some((220000int, 0int)));
    assert(pref_limits(true, s, 11) == Some((17500int, -17500int)));
    assert(pref_limits(true, s, 12) == Some((10000int, -25000int)));
    assert(pref_limits(true, s, 13) == Some((-10000int, -45000int)));
    assert(pref_limits(true, s, 14) == Some((-24000int, -59000int)));
    assert(pref_limits(true, s, 15) == Some((-38000int, -73000int)));
    assert(pref_limits(true, s, 16) == Some((-58000int, -93000int)));
    assert(pref_limits(true, s, 17) == Some((-111000int, -146000int)));
    assert(pref_limits(false, s, 0) == Some((-380000int, -600000int)));
    assert(pref_limits(false, s, 1) == Some((-220000int, -440000int)));
    assert(pref_limits(false, s, 2) == Some((-170000int, -390000int)));
    assert(pref_limits(false, s, 3) == Some((-120000int, -207000int)));
    assert(pref_limits(false, s, 4) == Some((-72000int, -126000int)));
    assert(pref_limits(false, s, 5) == Some((-36000int, -71000int)));
    assert(pref_limits(false, s, 6) == Some((-12000int, -34000int)));
    assert(pref_limits(false, s, 7) == Some((0int, -22000int)));
    assert(pref_limits(false, s, 8) == Some((0int, -35000int)));
    assert(pref_limits(false, s, 9) == Some((0int, -87000int)));
    assert(pref_limits(false, s, 10) == Some((0int, -220000int)));
    assert(pref_limits(false, s, 11) == Some((11000int, -11000int)));
    assert(pref_limits(false, s, 12) == Some((25000int, 3000int)));
    assert(pref_limits(false, s, 13) == Some((45000int, 23000int)));
    assert(pref_limits(false, s, 14) == Some((59000int, 37000int)));
    assert(pref_limits(false, s, 15) == Some((73000int, 51000int)));
    assert(pref_limits(false, s, 16) == Some((93000int, 71000int)));
    assert(pref_limits(false, s, 17) == Some((146000int, 124000int)));
    assert(pairwise_distinct(s));
    lemma_distinct_from_pairs(s);
}

#[verifier::spinoff_prover]
proof fn lemma_preferred_between_100_and_120(s: int)
    requires
        100 < s <= 120,
    ensures
        preferred_limits_distinct(s),
{
    reveal(spec_limits_nm);
    reveal_with_fuel(first_row_from, 42);
    assert(pref_limits(true, s, 0) == Some((630000int, 410000int)));
    assert(pref_limits(true, s, 1) == Some((460000int, 240000int)));
    assert(pref_limits(true, s, 2) == Some((400000int, 180000int)));
    assert(pref_limits(true, s, 3) == Some((260000int, 120000int)));
    assert(pref_limits(true, s, 4) == Some((159000int, 72000int)));
    assert(pref_limits(true, s, 5) == Some((90000int, 36000int)));
    assert(pref_limits(true, s, 6) == Some((47000int, 12000int)));
    assert(pref_limits(true, s, 7) == Some((35000int, 0int)));
    assert(pref_limits(true, s, 8) == Some((54000int, 0int)));
    assert(pref_limits(true, s, 9) == Some((87000int, 0int)));
    assert(pref_limits(true, s, 10) == Some((220000int, 0int)));
    assert(pref_limits(true, s, 11) == Some((17500int, -17500int)));
    assert(pref_limits(true, s, 12) == Some((10000int, -25000int)));
    assert(pref_limits(true, s, 13) == Some((-10000int, -45000int)));
    assert(pref_limits(true, s, 14) == Some((-24000int, -59000int)));
    assert(pref_limits(true, s, 15) == Some((-41000int, -76000int)));
    assert(pref_limits(true, s, 16) == Some((-66000int, -101000int)));
    assert(pref_limits(true, s, 17) == Some((-131000int, -166000int)));
    assert(pref_limits(false, s, 0) == Some((-410000int, -630000int)));
    assert(pref_limits(false, s, 1) == Some((-240000int, -460000int)));
    assert(pref_limits(false, s, 2) == Some((-180000int, -400000int)));
    assert(pref_limits(false, s, 3) == Some((-120000int, -207000int)));
    assert(pref_limits(false, s, 4) == Some((-72000int, -126000int)));
    assert(pref_limits(false, s, 5) == Some((-36000int, -71000int)));
    assert(pref_limits(false, s, 6) == Some((-12000int, -34000int)));
    assert(pref_limits(false, s, 7) == Some((0int, -22000int)));
    assert(pref_limits(false, s, 8) == Some((0int, -35000int)));
    assert(pref_limits(false, s, 9) == Some((0int, -87000int)));
    assert(pref_limits(false, s, 10) == Some((0int, -220000int)));
    assert(pref_limits(false, s, 11) == Some((11000int, -11000int)));
    assert(pref_limits(false, s, 12) == Some((25000int, 3000int)));
    assert(pref_limits(false, s, 13) == Some((45000int, 23000int)));
    assert(pref_limits(false, s, 14) == Some((59000int, 37000int)));
    assert(pref_limits(false, s, 15) == Some((76000int, 54000int)));
    assert(pref_limits(false, s, 16) == Some((101000int, 79000int)));
    assert(pref_limits(false, s, 17) == Some((166000int, 144000int)));
    assert(pairwise_distinct(s));
    lemma_distinct_from_pairs(s);
}

#[verifier::spinoff_prover]
proof fn lemma_preferred_between_120_and_140(s: int)
    requires
        120 < s <= 140,
    ensures
        preferred_limits_distinct(s),
{
    reveal(spec_limits_nm);
    reveal_with_fuel(first_row_from, 42);
    assert(pref_limits(true, s, 0) == Some((710000int, 460000int)));
    assert(pref_limits(true, s, 1) == Some((510000int, 260000int)));
    assert(pref_limits(true, s, 2) == Some((450000int, 200000int)));
    assert(pref_limits(true, s, 3) == Some((305000int, 145000int)));
    assert(pref_limits(true, s, 4) == Some((185000int, 85000int)));
    assert(pref_limits(true, s, 5) == Some((106000int, 43000int)));
    assert(pref_limits(true, s, 6) == Some((54000int, 14000int)));
    assert(pref_limits(true, s, 7) == Some((40000int, 0int)));
    assert(pref_limits(true, s, 8) == Some((63000int, 0int)));
    assert(pref_limits(true, s, 9) == Some((100000int, 0int)));
    assert(pref_limits(true, s, 10) == Some((250000int, 0int)));
    assert(pref_limits(true, s, 11) == Some((20000int, -20000int)));
    assert(pref_limits(true, s, 12) == Some((12000int, -28000int)));
    assert(pref_limits(true, s, 13) == Some((-12000int, -52000int)));
    assert(pref_limits(true, s, 14) == Some((-28000int, -68000int)));
    assert(pref_limits(true, s, 15) == Some((-48000int, -88000int)));
    assert(pref_limits(true, s, 16) == Some((-77000int, -117000int)));
    assert(pref_limits(true, s, 17) == Some((-155000int, -195000int)));
    assert(pref_limits(false, s, 0) == Some((-460000int, -710000int)));
    assert(pref_limits(false, s, 1) == Some((-260000int, -510000int)));
    assert(pref_limits(false, s, 2) == Some((-200000int, -450000int)));
    assert(pref_limits(false, s, 3) == Some((-145000int, -245000int)));
    assert(pref_limits(false, s, 4) == Some((-85000int, -148000int)));
    assert(pref_limits(false, s, 5) == Some((-43000int, -83000int)));
    assert(pref_limits(false, s, 6) == Some((-14000int, -39000int)));
    assert(pref_limits(false, s, 7) == Some((0int, -25000int)));
    assert(pref_limits(false, s, 8) == Some((0int, -40000int)));
    assert(pref_limits(false, s, 9) == Some((0int, -100000int)));
    assert(pref_limits(false, s, 10) == Some((0int, -250000int)));
    assert(pref_limits(false, s, 11) == Some((12500int, -12500int)));
    assert(pref_limits(false, s, 12) == Some((28000int, 3000int)));
    assert(pref_limits(false, s, 13) == Some((52000int, 27000int)));
    assert(pref_limits(false, s, 14) == Some((68000int, 43000int)));
    assert(pref_limits(false, s, 15) == Some((88000int, 63000int)));
    assert(pref_limits(false, s, 16) == Some((117000int, 92000int)));
    assert(pref_limits(false, s, 17) == Some((195000int, 170000int)));
    assert(pairwise_distinct(s));
    lemma_distinct_from_pairs(s);
}

#[verifier::spinoff_prover]
proof fn lemma_preferred_between_140_and_160(s: int)
    requires
        140 < s <= 160,
    ensures
        preferred_limits_distinct(s),
{
    reveal(spec_limits_nm);
    reveal_with_fuel(first_row_from, 42);
    assert(pref_limits(true, s, 0) == Some((770000int, 520000int)));
    assert(pref_limits(true, s, 1) == Some((530000int, 280000int)));
    assert(pref_limits(true, s, 2) == Some((460000int, 210000int)));
    assert(pref_limits(true, s, 3) == Some((305000int, 145000int)));
    assert(pref_limits(true, s, 4) == Some((185000int, 85000int)));
    assert(pref_limits(true, s, 5) == Some((106000int, 43000int)));
    assert(pref_limits(true, s, 6) == Some((54000int, 14000int)));
    assert(pref_limits(true, s, 7) == Some((40000int, 0int)));
    assert(pref_limits(true, s, 8) == Some((63000int, 0int)));
    assert(pref_limits(true, s, 9) == Some((100000int, 0int)));
    assert(pref_limits(true, s, 10) == Some((250000int, 0int)));
    assert(pref_limits(true, s, 11) == Some((20000int, -20000int)));
    assert(pref_limits(true, s, 12) == Some((12000int, -28000int)));
    assert(pref_limits(true, s, 13) == Some((-12000int, -52000int)));
    assert(pref_limits(true, s, 14) == Some((-28000int, -68000int)));
    assert(pref_limits(true, s, 15) == Some((-50000int, -90000int)));
    assert(pref_limits(true, s, 16) == Some((-85000int, -125000int)));
    assert(pref_limits(true, s, 17) == Some((-175000int, -215000int)));
    assert(pref_limits(false, s, 0) == Some((-520000int, -770000int)));
    assert(pref_limits(false, s, 1) == Some((-280000int, -530000int)));
    assert(pref_limits(false, s, 2) == Some((-210000int, -460000int)));
    assert(pref_limits(false, s, 3) == Some((-145000int, -245000int)));
    assert(pref_limits(false, s, 4) == Some((-85000int, -148000int)));
    assert(pref_limits(false, s, 5) == Some((-43000int, -83000int)));
    assert(pref_limits(false, s, 6) == Some((-14000int, -39000int)));
    assert(pref_limits(false, s, 7) == Some((0int, -25000int)));
    assert(pref_limits(false, s, 8) == Some((0int, -40000int)));
    assert(pref_limits(false, s, 9) == Some((0int, -100000int)));
    assert(pref_limits(false, s, 10) == Some((0int, -250000int)));
    assert(pref_limits(false, s, 11) == Some((12500int, -12500int)));
    assert(pref_limits(false, s, 12) == Some((28000int, 3000int)));
    assert(pref_limits(false, s, 13) == Some((52000int, 27000int)));
    assert(pref_limits(false, s, 14) == Some((68000int, 43000int)));
    assert(pref_limits(false, s, 15) == Some((90000int, 65000int)));
    assert(pref_limits(false, s, 16) == Some((125000int, 100000int)));
    assert(pref_limits(false, s, 17) == Some((215000int, 190000int)));
    assert(pairwise_distinct(s));
    lemma_distinct_from_pairs(s);
}

#[verifier::spinoff_prover]
proof fn lemma_preferred_between_160_and_180(s: int)
    requires
        160 < s <= 180,
    ensures
        preferred_limits_distinct(s),
{
    reveal(spec_limits_nm);
    reveal_with_fuel(first_row_from, 42);
    assert(pref_limits(true, s, 0) == Some((830000int, 580000int)));
    assert(pref_limits(true, s, 1) == Some((560000int, 310000int)));
    assert(pref_limits(true, s, 2) == Some((480000int, 230000int)));
    assert(pref_limits(true, s, 3) == Some((305000int, 145000int)));
    assert(pref_limits(true, s, 4) == Some((185000int, 85000int)));
    assert(pref_limits(true, s, 5) == Some((106000int, 43000int)));
    assert(pref_limits(true, s, 6) == Some((54000int, 14000int)));
    assert(pref_limits(true, s, 7) == Some((40000int, 0int)));
    assert(pref_limits(true, s, 8) == Some((63000int, 0int)));
    assert(pref_limits(true, s, 9) == Some((100000int, 0int)));
    assert(pref_limits(true, s, 10) == Some((250000int, 0int)));
    assert(pref_limits(true, s, 11) == Some((20000int, -20000int)));
    assert(pref_limits(true, s, 12) == Some((12000int, -28000int)));
    assert(pref_limits(true, s, 13) == Some((-12000int, -52000int)));
    assert(pref_limits(true, s, 14) == Some((-28000int, -68000int)));
    assert(pref_limits(true, s, 15) == Some((-53000int, -93000int)));
    assert(pref_limits(true, s, 16) == Some((-93000int, -133000int)));
    assert(pref_limits(true, s, 17) == Some((-195000int, -235000int)));
    assert(pref_limits(false, s, 0) == Some((-580000int, -830000int)));
    assert(pref_limits(false, s, 1) == Some((-310000int, -560000int)));
    assert(pref_limits(false, s, 2) == Some((-230000int, -480000int)));
    assert(pref_limits(false, s, 3) == Some((-145000int, -245000int)));
    assert(pref_limits(false, s, 4) == Some((-85000int, -148000int)));
    assert(pref_limits(false, s, 5) == Some((-43000int, -83000int)));
    assert(pref_limits(false, s, 6) == Some((-14000int, -39000int)));
    assert(pref_limits(false, s, 7) == Some((0int, -25000int)));
    assert(pref_limits(false, s, 8) == Some((0int, -40000int)));
    assert(pref_limits(false, s, 9) == Some((0int, -100000int)));
    assert(pref_limits(false, s, 10) == Some((0int, -250000int)));
    assert(pref_limits(false, s, 11) == Some((12500int, -12500int)));
    assert(pref_limits(false, s, 12) == Some((28000int, 3000int)));
    assert(pref_limits(false, s, 13) == Some((52000int, 27000int)));
    assert(pref_limits(false, s, 14) == Some((68000int, 43000int)));
    assert(pref_limits(false, s, 15) == Some((93000int, 68000int)));
    assert(pref_limits(false, s, 16) == Some((133000int, 108000int)));
    assert(pref_limits(false, s, 17) == Some((235000int, 210000int)));
    assert(pairwise_distinct(s));
    lemma_distinct_from_pairs(s);
}

#[verifier::spinoff_prover]
proof fn lemma_preferred_between_180_and_200(s: int)
    requires
        180 < s <= 200,
    ensures
        preferred_limits_distinct(s),
{
    reveal(spec_limits_nm);
    reveal_with_fuel(first_row_from, 42);
    assert(pref_limits(true, s, 0) == Some((950000int, 660000int)));
    assert(pref_limits(true, s, 1) == Some((630000int, 340000int)));
    assert(pref_limits(true, s, 2) == Some((530000int, 240000int)));
    assert(pref_limits(true, s, 3) == Some((355000int, 170000int)));
    assert(pref_limits(true, s, 4) == Some((215000int, 100000int)));
    assert(pref_limits(true, s, 5) == Some((122000int, 50000int)));
    assert(pref_limits(true, s, 6) == Some((61000int, 15000int)));
    assert(pref_limits(true, s, 7) == Some((46000int, 0int)));
    assert(pref_limits(true, s, 8) == Some((72000int, 0int)));
    assert(pref_limits(true, s, 9) == Some((115000int, 0int)));
    assert(pref_limits(true, s, 10) == Some((290000int, 0int)));
    assert(pref_limits(true, s, 11) == Some((23000int, -23000int)));
    assert(pref_limits(true, s, 12) == Some((13000int, -33000int)));
    assert(pref_limits(true, s, 13) == Some((-14000int, -60000int)));
    assert(pref_limits(true, s, 14) == Some((-33000int, -79000int)));
    assert(pref_limits(true, s, 15) == Some((-60000int, -106000int)));
    assert(pref_limits(true, s, 16) == Some((-105000int, -151000int)));
    assert(pref_limits(true, s, 17) == Some((-219000int, -265000int)));
    assert(pref_limits(false, s, 0) == Some((-660000int, -950000int)));
    assert(pref_limits(false, s, 1) == Some((-340000int, -630000int)));
    assert(pref_limits(false, s, 2) == Some((-240000int, -530000int)));
    assert(pref_limits(false, s, 3) == Some((-170000int, -285000int)));
    assert(pref_limits(false, s, 4) == Some((-100000int, -172000int)));
    assert(pref_limits(false, s, 5) == Some((-50000int, -96000int)));
    assert(pref_limits(false, s, 6) == Some((-15000int, -44000int)));
    assert(pref_limits(false, s, 7) == Some((0int, -29000int)));
    assert(pref_limits(false, s, 8) == Some((0int, -46000int)));
    assert(pref_limits(false, s, 9) == Some((0int, -115000int)));
    assert(pref_limits(false, s, 10) == Some((0int, -290000int)));
    assert(pref_limits(false, s, 11) == Some((14500int, -14500int)));
    assert(pref_limits(false, s, 12) == Some((33000int, 4000int)));
    assert(pref_limits(false, s, 13) == Some((60000int, 31000int)));
    assert(pref_limits(false, s, 14) == Some((79000int, 50000int)));
    assert(pref_limits(false, s, 15) == Some((106000int, 77000int)));
    assert(pref_limits(false, s, 16) == Some((151000int, 122000int)));
    assert(pref_limits(false, s, 17) == Some((265000int, 236000int)));
    assert(pairwise_distinct(s));
    lemma_distinct_from_pairs(s);
}

#[verifier::spinoff_prover]
proof fn lemma_preferred_between_200_and_225(s: int)
    requires
        200 < s <= 225,
    ensures
        preferred_limits_distinct(s),
{
    reveal(spec_limits_nm);
    reveal_with_fuel(first_row_from, 42);
    assert(pref_limits(true, s, 0) == Some((1030000int, 740000int)));
    assert(pref_limits(true, s, 1) == Some((670000int, 380000int)));
    assert(pref_limits(true, s, 2) == Some((550000int, 260000int)));
    assert(pref_limits(true, s, 3) == Some((355000int, 170000int)));
    assert(pref_limits(true, s, 4) == Some((215000int, 100000int)));
    assert(pref_limits(true, s, 5) == Some((122000int, 50000int)));
    assert(pref_limits(true, s, 6) == Some((61000int, 15000int)));
    assert(pref_limits(true, s, 7) == Some((46000int, 0int)));
    assert(pref_limits(true, s, 8) == Some((72000int, 0int)));
    assert(pref_limits(true, s, 9) == Some((115000int, 0int)));
    assert(pref_limits(true, s, 10) == Some((290000int, 0int)));
    assert(pref_limits(true, s, 11) == Some((23000int, -23000int)));
    assert(pref_limits(true, s, 12) == Some((13000int, -33000int)));
    assert(pref_limits(true, s, 13) == Some((-14000int, -60000int)));
    assert(pref_limits(true, s, 14) == Some((-33000int, -79000int)));
    assert(pref_limits(true, s, 15) == Some((-63000int, -109000int)));
    assert(pref_limits(true, s, 16) == Some((-113000int, -159000int)));
    assert(pref_limits(true, s, 17) == Some((-241000int, -287000int)));
    assert(pref_limits(false, s, 0) == Some((-740000int, -1030000int)));
    assert(pref_limits(false, s, 1) == Some((-380000int, -670000int)));
    assert(pref_limits(false, s, 2) == Some((-260000int, -550000int)));
    assert(pref_limits(false, s, 3) == Some((-170000int, -285000int)));
    assert(pref_limits(false, s, 4) == Some((-100000int, -172000int)));
    assert(pref_limits(false, s, 5) == Some((-50000int, -96000int)));
    assert(pref_limits(false, s, 6) == Some((-15000int, -44000int)));
    assert(pref_limits(false, s, 7) == Some((0int, -29000int)));
    assert(pref_limits(false, s, 8) == Some((0int, -46000int)));
    assert(pref_limits(false, s, 9) == Some((0int, -115000int)));
    assert(pref_limits(false, s, 10) == Some((0int, -290000int)));
    assert(pref_limits(false, s, 11) == Some((14500int, -14500int)));
    assert(pref_limits(false, s, 12) == Some((33000int, 4000int)));
    assert(pref_limits(false, s, 13) == Some((60000int, 31000int)));
    assert(pref_limits(false, s, 14) == Some((79000int, 50000int)));
    assert(pref_limits(false, s, 15) == Some((109000int, 80000int)));
    assert(pref_limits(false, s, 16) == Some((159000int, 130000int)));
    assert(pref_limits(false, s, 17) == Some((287000int, 258000int)));
    assert(pairwise_distinct(s));
    lemma_distinct_from_pairs(s);
}

#[verifier::spinoff_prover]
proof fn lemma_preferred_between_225_and_250(s: int)
    requires
        225 < s <= 250,
    ensures
        preferred_limits_distinct(s),
{
    reveal(spec_limits_nm);
    reveal_with_fuel(first_row_from, 42);
    assert(pref_limits(true, s, 0) == Some((1110000int, 820000int)));
    assert(pref_limits(true, s, 1) == Some((710000int, 420000int)));
    assert(pref_limits(true, s, 2) == Some((570000int, 280000int)));
    assert(pref_limits(true, s, 3) == Some((355000int, 170000int)));
    assert(pref_limits(true, s, 4) == Some((215000int, 100000int)));
    assert(pref_limits(true, s, 5) == Some((122000int, 50000int)));
    assert(pref_limits(true, s, 6) == Some((61000int, 15000int)));
    assert(pref_limits(true, s, 7) == Some((46000int, 0int)));
    assert(pref_limits(true, s, 8) == Some((72000int, 0int)));
    assert(pref_limits(true, s, 9) == Some((115000int, 0int)));
    assert(pref_limits(true, s, 10) == Some((290000int, 0int)));
    assert(pref_limits(true, s, 11) == Some((23000int, -23000int)));
    assert(pref_limits(true, s, 12) == Some((13000int, -33000int)));
    assert(pref_limits(true, s, 13) == Some((-14000int, -60000int)));
    assert(pref_limits(true, s, 14) == Some((-33000int, -79000int)));
    assert(pref_limits(true, s, 15) == Some((-67000int, -113000int)));
    assert(pref_limits(true, s, 16) == Some((-123000int, -169000int)));
    assert(pref_limits(true, s, 17) == Some((-267000int, -313000int)));
    assert(pref_limits(false, s, 0) == Some((-820000int, -1110000int)));
    assert(pref_limits(false, s, 1) == Some((-420000int, -710000int)));
    assert(pref_limits(false, s, 2) == Some((-280000int, -570000int)));
    assert(pref_limits(false, s, 3) == Some((-170000int, -285000int)));
    assert(pref_limits(false, s, 4) == Some((-100000int, -172000int)));
    assert(pref_limits(false, s, 5) == Some((-50000int, -96000int)));
    assert(pref_limits(false, s, 6) == Some((-15000int, -44000int)));
    assert(pref_limits(false, s, 7) == Some((0int, -29000int)));
    assert(pref_limits(false, s, 8) == Some((0int, -46000int)));
    assert(pref_limits(false, s, 9) == Some((0int, -115000int)));
    assert(pref_limits(false, s, 10) == Some((0int, -290000int)));
    assert(pref_limits(false, s, 11) == Some((14500int, -14500int)));
    assert(pref_limits(false, s, 12) == Some((33000int, 4000int)));
    assert(pref_limits(false, s, 13) == Some((60000int, 31000int)));
    assert(pref_limits(false, s, 14) == Some((79000int, 50000int)));
    assert(pref_limits(false, s, 15) == Some((113000int, 84000int)));
    assert(pref_limits(false, s, 16) == Some((169000int, 140000int)));
    assert(pref_limits(false, s, 17) == Some((313000int, 284000int)));
    assert(pairwise_distinct(s));
    lemma_distinct_from_pairs(s);
}

#[verifier::spinoff_prover]
proof fn lemma_preferred_between_250_and_280(s: int)
    requires
        250 < s <= 280,
    ensures
        preferred_limits_distinct(s),
{
    reveal(spec_limits_nm);
    reveal_with_fuel(first_row_from, 42);
    assert(pref_limits(true, s, 0) == Some((1240000int, 920000int)));
    assert(pref_limits(true, s, 1) == Some((800000int, 480000int)));
    assert(pref_limits(true, s, 2) == Some((620000int, 300000int)));
    assert(pref_limits(true, s, 3) == Some((400000int, 190000int)));
    assert(pref_limits(true, s, 4) == Some((240000int, 110000int)));
    assert(pref_limits(true, s, 5) == Some((137000int, 56000int)));
    assert(pref_limits(true, s, 6) == Some((69000int, 17000int)));
    assert(pref_limits(true, s, 7) == Some((52000int, 0int)));
    assert(pref_limits(true, s, 8) == Some((81000int, 0int)));
    assert(pref_limits(true, s, 9) == Some((130000int, 0int)));
    assert(pref_limits(true, s, 10) == Some((320000int, 0int)));
    assert(pref_limits(true, s, 11) == Some((26000int, -26000int)));
    assert(pref_limits(true, s, 12) == Some((16000int, -36000int)));
    assert(pref_limits(true, s, 13) == Some((-14000int, -66000int)));
    assert(pref_limits(true, s, 14) == Some((-36000int, -88000int)));
    assert(pref_limits(true, s, 15) == Some((-74000int, -126000int)));
    assert(pref_limits(true, s, 16) == Some((-138000int, -190000int)));
    assert(pref_limits(true, s, 17) == Some((-295000int, -347000int)));
    assert(pref_limits(false, s, 0) == Some((-920000int, -1240000int)));
    assert(pref_limits(false, s, 1) == Some((-480000int, -800000int)));
    assert(pref_limits(false, s, 2) == Some((-300000int, -620000int)));
    assert(pref_limits(false, s, 3) == Some((-190000int, -320000int)));
    assert(pref_limits(false, s, 4) == Some((-110000int, -191000int)));
    assert(pref_limits(false, s, 5) == Some((-56000int, -108000int)));
    assert(pref_limits(false, s, 6) == Some((-17000int, -49000int)));
    assert(pref_limits(false, s, 7) == Some((0int, -32000int)));
    assert(pref_limits(false, s, 8) == Some((0int, -52000int)));
    assert(pref_limits(false, s, 9) == Some((0int, -130000int)));
    assert(pref_limits(false, s, 10) == Some((0int, -320000int)));
    assert(pref_limits(false, s, 11) == Some((16000int, -16000int)));
    assert(pref_limits(false, s, 12) == Some((36000int, 4000int)));
    assert(pref_limits(false, s, 13) == Some((66000int, 34000int)));
    assert(pref_limits(false, s, 14) == Some((88000int, 56000int)));
    assert(pref_limits(false, s, 15) == Some((126000int, 94000int)));
    assert(pref_limits(false, s, 16) == Some((190000int, 158000int)));
    assert(pref_limits(false, s, 17) == Some((347000int, 315000int)));
    assert(pairwise_distinct(s));
    lemma_distinct_from_pairs(s);
}

#[verifier::spinoff_prover]
proof fn lemma_preferred_between_280_and_315(s: int)
    requires
        280 < s <= 315,
    ensures
        preferred_limits_distinct(s),
{
    reveal(spec_limits_nm);
    reveal_with_fuel(first_row_from, 42);
    assert(pref_limits(true, s, 0) == Some((1370000int, 1050000int)));
    assert(pref_limits(true, s, 1) == Some((860000int, 540000int)));
    assert(pref_limits(true, s, 2) == Some((650000int, 330000int)));
    assert(pref_limits(true, s, 3) == Some((400000int, 190000int)));
    assert(pref_limits(true, s, 4) == Some((240000int, 110000int)));
    assert(pref_limits(true, s, 5) == Some((137000int, 56000int)));
    assert(pref_limits(true, s, 6) == Some((69000int, 17000int)));
    assert(pref_limits(true, s, 7) == Some((52000int, 0int)));
    assert(pref_limits(true, s, 8) == Some((81000int, 0int)));
    assert(pref_limits(true, s, 9) == Some((130000int, 0int)));
    assert(pref_limits(true, s, 10) == Some((320000int, 0int)));
    assert(pref_limits(true, s, 11) == Some((26000int, -26000int)));
    assert(pref_limits(true, s, 12) == Some((16000int, -36000int)));
    assert(pref_limits(true, s, 13) == Some((-14000int, -66000int)));
    assert(pref_limits(true, s, 14) == Some((-36000int, -88000int)));
    assert(pref_limits(true, s, 15) == Some((-78000int, -130000int)));
    assert(pref_limits(true, s, 16) == Some((-150000int, -202000int)));
    assert(pref_limits(true, s, 17) == Some((-330000int, -382000int)));
    assert(pref_limits(false, s, 0) == Some((-1050000int, -1370000int)));
    assert(pref_limits(false, s, 1) == Some((-540000int, -860000int)));
    assert(pref_limits(false, s, 2) == Some((-330000int, -650000int)));
    assert(pref_limits(false, s, 3) == Some((-190000int, -320000int)));
    assert(pref_limits(false, s, 4) == Some((-110000int, -191000int)));
    assert(pref_limits(false, s, 5) == Some((-56000int, -108000int)));
    assert(pref_limits(false, s, 6) == Some((-17000int, -49000int)));
    assert(pref_limits(false, s, 7) == Some((0int, -32000int)));
    assert(pref_limits(false, s, 8) == Some((0int, -52000int)));
    assert(pref_limits(false, s, 9) == Some((0int, -130000int)));
    assert(pref_limits(false, s, 10) == Some((0int, -320000int)));
    assert(pref_limits(false, s, 11) == Some((16000int, -16000int)));
    assert(pref_limits(false, s, 12) == Some((36000int, 4000int)));
    assert(pref_limits(false, s, 13) == Some((66000int, 34000int)));
    assert(pref_limits(false, s, 14) == Some((88000int, 56000int)));
    assert(pref_limits(false, s, 15) == Some((130000int, 98000int)));
    assert(pref_limits(false, s, 16) == Some((202000int, 170000int)));
    assert(pref_limits(false, s, 17) == Some((382000int, 350000int)));
    assert(pairwise_distinct(s));
    lemma_distinct_from_pairs(s);
}

#[verifier::spinoff_prover]
proof fn lemma_preferred_between_315_and_355(s: int)
    requires
        315 < s <= 355,
    ensures
        preferred_limits_distinct(s),
{
    reveal(spec_limits_nm);
    reveal_with_fuel(first_row_from, 42);
    assert(pref_limits(true, s, 0) == Some((1560000int, 1200000int)));
    assert(pref_limits(true, s, 1) == Some((960000int, 600000int)));
    assert(pref_limits(true, s, 2) == Some((720000int, 360000int)));
    assert(pref_limits(true, s, 3) == Some((440000int, 210000int)));
    assert(pref_limits(true, s, 4) == Some((265000int, 125000int)));
    assert(pref_limits(true, s, 5) == Some((151000int, 62000int)));
    assert(pref_limits(true, s, 6) == Some((75000int, 18000int)));
    assert(pref_limits(true, s, 7) == Some((57000int, 0int)));
    assert(pref_limits(true, s, 8) == Some((89000int, 0int)));
    assert(pref_limits(true, s, 9) == Some((140000int, 0int)));
    assert(pref_limits(true, s, 10) == Some((360000int, 0int)));
    assert(pref_limits(true, s, 11) == Some((28500int, -28500int)));
    assert(pref_limits(true, s, 12) == Some((17000int, -40000int)));
    assert(pref_limits(true, s, 13) == Some((-16000int, -73000int)));
    assert(pref_limits(true, s, 14) == Some((-41000int, -98000int)));
    assert(pref_limits(true, s, 15) == Some((-87000int, -144000int)));
    assert(pref_limits(true, s, 16) == Some((-169000int, -226000int)));
    assert(pref_limits(true, s, 17) == Some((-369000int, -426000int)));
    assert(pref_limits(false, s, 0) == Some((-1200000int, -1560000int)));
    assert(pref_limits(false, s, 1) == Some((-600000int, -960000int)));
    assert(pref_limits(false, s, 2) == Some((-360000int, -720000int)));
    assert(pref_limits(false, s, 3) == Some((-210000int, -350000int)));
    assert(pref_limits(false, s, 4) == Some((-125000int, -214000int)));
    assert(pref_limits(false, s, 5) == Some((-62000int, -119000int)));
    assert(pref_limits(false, s, 6) == Some((-18000int, -54000int)));
    assert(pref_limits(false, s, 7) == Some((0int, -36000int)));
    assert(pref_limits(false, s, 8) == Some((0int, -57000int)));
    assert(pref_limits(false, s, 9) == Some((0int, -140000int)));
    assert(pref_limits(false, s, 10) == Some((0int, -360000int)));
    assert(pref_limits(false, s, 11) == Some((18000int, -18000int)));
    assert(pref_limits(false, s, 12) == Some((40000int, 4000int)));
    assert(pref_limits(false, s, 13) == Some((73000int, 37000int)));
    assert(pref_limits(false, s, 14) == Some((98000int, 62000int)));
    assert(pref_limits(false, s, 15) == Some((144000int, 108000int)));
    assert(pref_limits(false, s, 16) == Some((226000int, 190000int)));
    assert(pref_limits(false, s, 17) == Some((426000int, 390000int)));
    assert(pairwise_distinct(s));
    lemma_distinct_from_pairs(s);
}

#[verifier::spinoff_prover]
proof fn lemma_preferred_between_355_and_400(s: int)
    requires
        355 < s <= 400,
    ensures
        preferred_limits_distinct(s),
{
    reveal(spec_limits_nm);
    reveal_with_fuel(first_row_from, 42);
    assert(pref_limits(true, s, 0) == Some((1710000int, 1350000int)));
    assert(pref_limits(true, s, 1) == Some((1040000int, 680000int)));
    assert(pref_limits(true, s, 2) == Some((760000int, 400000int)));
    assert(pref_limits(true, s, 3) == Some((440000int, 210000int)));
    assert(pref_limits(true, s, 4) == Some((265000int, 125000int)));
    assert(pref_limits(true, s, 5) == Some((151000int, 62000int)));
    assert(pref_limits(true, s, 6) == Some((75000int, 18000int)));
    assert(pref_limits(true, s, 7) == Some((57000int, 0int)));
    assert(pref_limits(true, s, 8) == Some((89000int, 0int)));
    assert(pref_limits(true, s, 9) == Some((140000int, 0int)));
    assert(pref_limits(true, s, 10) == Some((360000int, 0int)));
    assert(pref_limits(true, s, 11) == Some((28500int, -28500int)));
    assert(pref_limits(true, s, 12) == Some((17000int, -40000int)));
    assert(pref_limits(true, s, 13) == Some((-16000int, -73000int)));
    assert(pref_limits(true, s, 14) == Some((-41000int, -98000int)));
    assert(pref_limits(true, s, 15) == Some((-93000int, -150000int)));
    assert(pref_limits(true, s, 16) == Some((-187000int, -244000int)));
    assert(pref_limits(true, s, 17) == Some((-414000int, -471000int)));
    assert(pref_limits(false, s, 0) == Some((-1350000int, -1710000int)));
    assert(pref_limits(false, s, 1) == Some((-680000int, -1040000int)));
    assert(pref_limits(false, s, 2) == Some((-400000int, -760000int)));
    assert(pref_limits(false, s, 3) == Some((-210000int, -350000int)));
    assert(pref_limits(false, s, 4) == Some((-125000int, -214000int)));
    assert(pref_limits(false, s, 5) == Some((-62000int, -119000int)));
    assert(pref_limits(false, s, 6) == Some((-18000int, -54000int)));
    assert(pref_limits(false, s, 7) == Some((0int, -36000int)));
    assert(pref_limits(false, s, 8) == Some((0int, -57000int)));
    assert(pref_limits(false, s, 9) == Some((0int, -140000int)));
    assert(pref_limits(false, s, 10) == Some((0int, -360000int)));
    assert(pref_limits(false, s, 11) == Some((18000int, -18000int)));
    assert(pref_limits(false, s, 12) == Some((40000int, 4000int)));
    assert(pref_limits(false, s, 13) == Some((73000int, 37000int)));
    assert(pref_limits(false, s, 14) == Some((98000int, 62000int)));
    assert(pref_limits(false, s, 15) == Some((150000int, 114000int)));
    assert(pref_limits(false, s, 16) == Some((244000int, 208000int)));
    assert(pref_limits(false, s, 17) == Some((471000int, 435000int)));
    assert(pairwise_distinct(s));
    lemma_distinct_from_pairs(s);
}

#[verifier::spinoff_prover]
proof fn lemma_preferred_between_400_and_450(s: int)
    requires
        400 < s <= 450,
    ensures
        preferred_limits_distinct(s),
{
    reveal(spec_limits_nm);
    reveal_with_fuel(first_row_from, 42);
    assert(pref_limits(true, s, 0) == Some((1900000int, 1500000int)));
    assert(pref_limits(true, s, 1) == Some((1160000int, 760000int)));
    assert(pref_limits(true, s, 2) == Some((840000int, 440000int)));
    assert(pref_limits(true, s, 3) == Some((480000int, 230000int)));
    assert(pref_limits(true, s, 4) == Some((290000int, 135000int)));
    assert(pref_limits(true, s, 5) == Some((165000int, 68000int)));
    assert(pref_limits(true, s, 6) == Some((83000int, 20000int)));
    assert(pref_limits(true, s, 7) == Some((63000int, 0int)));
    assert(pref_limits(true, s, 8) == Some((97000int, 0int)));
    assert(pref_limits(true, s, 9) == Some((155000int, 0int)));
    assert(pref_limits(true, s, 10) == Some((400000int, 0int)));
    assert(pref_limits(true, s, 11) == Some((31500int, -31500int)));
    assert(pref_limits(true, s, 12) == Some((18000int, -45000int)));
    assert(pref_limits(true, s, 13) == Some((-17000int, -80000int)));
    assert(pref_limits(true, s, 14) == Some((-45000int, -108000int)));
    assert(pref_limits(true, s, 15) == Some((-103000int, -166000int)));
    assert(pref_limits(true, s, 16) == Some((-209000int, -272000int)));
    assert(pref_limits(true, s, 17) == Some((-467000int, -530000int)));
    assert(pref_limits(false, s, 0) == Some((-1500000int, -1900000int)));
    assert(pref_limits(false, s, 1) == Some((-760000int, -1160000int)));
    assert(pref_limits(false, s, 2) == Some((-440000int, -840000int)));
    assert(pref_limits(false, s, 3) == Some((-230000int, -385000int)));
    assert(pref_limits(false, s, 4) == Some((-135000int, -232000int)));
    assert(pref_limits(false, s, 5) == Some((-68000int, -131000int)));
    assert(pref_limits(false, s, 6) == Some((-20000int, -60000int)));
    assert(pref_limits(false, s, 7) == Some((0int, -40000int)));
    assert(pref_limits(false, s, 8) == Some((0int, -63000int)));
    assert(pref_limits(false, s, 9) == Some((0int, -155000int)));
    assert(pref_limits(false, s, 10) == Some((0int, -400000int)));
    assert(pref_limits(false, s, 11) == Some((20000int, -20000int)));
    assert(pref_limits(false, s, 12) == Some((45000int, 5000int)));
    assert(pref_limits(false, s, 13) == Some((80000int, 40000int)));
    assert(pref_limits(false, s, 14) == Some((108000int, 68000int)));
    assert(pref_limits(false, s, 15) == Some((166000int, 126000int)));
    assert(pref_limits(false, s, 16) == Some((272000int, 232000int)));
    assert(pref_limits(false, s, 17) == Some((530000int, 490000int)));
    assert(pairwise_distinct(s));
    lemma_distinct_from_pairs(s);
}

#[verifier::spinoff_prover]
proof fn lemma_preferred_between_450_and_500(s: int)
    requires
        450 < s <= 500,
    ensures
        preferred_limits_distinct(s),
{
    reveal(spec_limits_nm);
    reveal_with_fuel(first_row_from, 42);
    assert(pref_limits(true, s, 0) == Some((2050000int, 1650000int)));
    assert(pref_limits(true, s, 1) == Some((1240000int, 840000int)));
    assert(pref_limits(true, s, 2) == Some((880000int, 480000int)));
    assert(pref_limits(true, s, 3) == Some((480000int, 230000int)));
    assert(pref_limits(true, s, 4) == Some((290000int, 135000int)));
    assert(pref_limits(true, s, 5) == Some((165000int, 68000int)));
    assert(pref_limits(true, s, 6) == Some((83000int, 20000int)));
    assert(pref_limits(true, s, 7) == Some((63000int, 0int)));
    assert(pref_limits(true, s, 8) == Some((97000int, 0int)));
    assert(pref_limits(true, s, 9) == Some((155000int, 0int)));
    assert(pref_limits(true, s, 10) == Some((400000int, 0int)));
    assert(pref_limits(true, s, 11) == Some((31500int, -31500int)));
    assert(pref_limits(true, s, 12) == Some((18000int, -45000int)));
    assert(pref_limits(true, s, 13) == Some((-17000int, -80000int)));
    assert(pref_limits(true, s, 14) == Some((-45000int, -108000int)));
    assert(pref_limits(true, s, 15) == Some((-109000int, -172000int)));
    assert(pref_limits(true, s, 16) == Some((-229000int, -292000int)));
    assert(pref_limits(true, s, 17) == Some((-517000int, -580000int)));
    assert(pref_limits(false, s, 0) == Some((-1650000int, -2050000int)));
    assert(pref_limits(false, s, 1) == Some((-840000int, -1240000int)));
    assert(pref_limits(false, s, 2) == Some((-480000int, -880000int)));
    assert(pref_limits(false, s, 3) == Some((-230000int, -385000int)));
    assert(pref_limits(false, s, 4) == Some((-135000int, -232000int)));
    assert(pref_limits(false, s, 5) == Some((-68000int, -131000int)));
    assert(pref_limits(false, s, 6) == Some((-20000int, -60000int)));
    assert(pref_limits(false, s, 7) == Some((0int, -40000int)));
    assert(pref_limits(false, s, 8) == Some((0int, -63000int)));
    assert(pref_limits(false, s, 9) == Some((0int, -155000int)));
    assert(pref_limits(false, s, 10) == Some((0int, -400000int)));
    assert(pref_limits(false, s, 11) == Some((20000int, -20000int)));
    assert(pref_limits(false, s, 12) == Some((45000int, 5000int)));
    assert(pref_limits(false, s, 13) == Some((80000int, 40000int)));
    assert(pref_limits(false, s, 14) == Some((108000int, 68000int)));
    assert(pref_limits(false, s, 15) == Some((172000int, 132000int)));
    assert(pref_limits(false, s, 16) == Some((292000int, 252000int)));
    assert(pref_limits(false, s, 17) == Some((580000int, 540000int)));
    assert(pairwise_distinct(s));
    lemma_distinct_from_pairs(s);
}

#[verifier::spinoff_prover]
proof fn lemma_preferred_between_500_and_560(s: int)
    requires
        500 < s <= 560,
    ensures
        preferred_limits_distinct(s),
{
    reveal(spec_limits_nm);
    reveal_with_fuel(first_row_from, 42);
    assert(pref_limits(true, s, 0) == None::<(int, int)>);
    assert(pref_limits(true, s, 1) == None::<(int, int)>);
    assert(pref_limits(true, s, 2) == None::<(int, int)>);
    assert(pref_limits(true, s, 3) == Some((540000int, 260000int)));
    assert(pref_limits(true, s, 4) == Some((320000int, 145000int)));
    assert(pref_limits(true, s, 5) == Some((186000int, 76000int)));
    assert(pref_limits(true, s, 6) == Some((92000int, 22000int)));
    assert(pref_limits(true, s, 7) == Some((70000int, 0int)));
    assert(pref_limits(true, s, 8) == Some((110000int, 0int)));
    assert(pref_limits(true, s, 9) == Some((175000int, 0int)));
    assert(pref_limits(true, s, 10) == Some((440000int, 0int)));
    assert(pref_limits(true, s, 11) == Some((35000int, -35000int)));
    assert(pref_limits(true, s, 12) == Some((0int, -70000int)));
    assert(pref_limits(true, s, 13) == Some((-44000int, -114000int)));
    assert(pref_limits(true, s, 14) == Some((-78000int, -148000int)));
    assert(pref_limits(true, s, 15) == Some((-150000int, -220000int)));
    assert(pref_limits(true, s, 16) == Some((-280000int, -350000int)));
    assert(pref_limits(true, s, 17) == Some((-600000int, -670000int)));
    assert(pref_limits(false, s, 0) == None::<(int, int)>);
    assert(pref_limits(false, s, 1) == None::<(int, int)>);
    assert(pref_limits(false, s, 2) == None::<(int, int)>);
    assert(pref_limits(false, s, 3) == Some((-260000int, -435000int)));
    assert(pref_limits(false, s, 4) == Some((-145000int, -255000int)));
    assert(pref_limits(false, s, 5) == Some((-76000int, -146000int)));
    assert(pref_limits(false, s, 6) == Some((-22000int, -66000int)));
    assert(pref_limits(false, s, 7) == Some((0int, -44000int)));
    assert(pref_limits(false, s, 8) == Some((0int, -70000int)));
    assert(pref_limits(false, s, 9) == Some((0int, -175000int)));
    assert(pref_limits(false, s, 10) == Some((0int, -440000int)));
    assert(pref_limits(false, s, 11) == Some((22000int, -22000int)));
    assert(pref_limits(false, s, 12) == Some((44000int, 0int)));
    assert(pref_limits(false, s, 13) == Some((88000int, 44000int)));
    assert(pref_limits(false, s, 14) == Some((122000int, 78000int)));
    assert(pref_limits(false, s, 15) == Some((194000int, 150000int)));
    assert(pref_limits(false, s, 16) == Some((324000int, 280000int)));
    assert(pref_limits(false, s, 17) == Some((644000int, 600000int)));
    assert(pairwise_distinct(s));
    lemma_distinct_from_pairs(s);
}

#[verifier::spinoff_prover]
proof fn lemma_preferred_between_560_and_630(s: int)
    requires
        560 < s <= 630,
    ensures
        preferred_limits_distinct(s),
{
    reveal(spec_limits_nm);
    reveal_with_fuel(first_row_from, 42);
    assert(pref_limits(true, s, 0) == None::<(int, int)>);
    assert(pref_limits(true, s, 1) == None::<(int, int)>);
    assert(pref_limits(true, s, 2) == None::<(int, int)>);
    assert(pref_limits(true, s, 3) == Some((540000int, 260000int)));
    assert(pref_limits(true, s, 4) == Some((320000int, 145000int)));
    assert(pref_limits(true, s, 5) == Some((186000int, 76000int)));
    assert(pref_limits(true, s, 6) == Some((92000int, 22000int)));
    assert(pref_limits(true, s, 7) == Some((70000int, 0int)));
    assert(pref_limits(true, s, 8) == Some((110000int, 0int)));
    assert(pref_limits(true, s, 9) == Some((175000int, 0int)));
    assert(pref_limits(true, s, 10) == Some((440000int, 0int)));
    assert(pref_limits(true, s, 11) == Some((35000int, -35000int)));
    assert(pref_limits(true, s, 12) == Some((0int, -70000int)));
    assert(pref_limits(true, s, 13) == Some((-44000int, -114000int)));
    assert(pref_limits(true, s, 14) == Some((-78000int, -148000int)));
    assert(pref_limits(true, s, 15) == Some((-155000int, -225000int)));
    assert(pref_limits(true, s, 16) == Some((-310000int, -380000int)));
    assert(pref_limits(true, s, 17) == Some((-660000int, -730000int)));
    assert(pref_limits(false, s, 0) == None::<(int, int)>);
    assert(pref_limits(false, s, 1) == None::<(int, int)>);
    assert(pref_limits(false, s, 2) == None::<(int, int)>);
    assert(pref_limits(false, s, 3) == Some((-260000int, -435000int)));
    assert(pref_limits(false, s, 4) == Some((-145000int, -255000int)));
    assert(pref_limits(false, s, 5) == Some((-76000int, -146000int)));
    assert(pref_limits(false, s, 6) == Some((-22000int, -66000int)));
    assert(pref_limits(false, s, 7) == Some((0int, -44000int)));
    assert(pref_limits(false, s, 8) == Some((0int, -70000int)));
    assert(pref_limits(false, s, 9) == Some((0int, -175000int)));
    assert(pref_limits(false, s, 10) == Some((0int, -440000int)));
    assert(pref_limits(false, s, 11) == Some((22000int, -22000int)));
    assert(pref_limits(false, s, 12) == Some((44000int, 0int)));
    assert(pref_limits(false, s, 13) == Some((88000int, 44000int)));
    assert(pref_limits(false, s, 14) == Some((122000int, 78000int)));
    assert(pref_limits(false, s, 15) == Some((199000int, 155000int)));
    assert(pref_limits(false, s, 16) == Some((354000int, 310000int)));
    assert(pref_limits(false, s, 17) == Some((704000int, 660000int)));
    assert(pairwise_distinct(s));
    lemma_distinct_from_pairs(s);
}

#[verifier::spinoff_prover]
proof fn lemma_preferred_between_630_and_710(s: int)
    requires
        630 < s <= 710,
    ensures
        preferred_limits_distinct(s),
{
    reveal(spec_limits_nm);
    reveal_with_fuel(first_row_from, 42);
    assert(pref_limits(true, s, 0) == None::<(int, int)>);
    assert(pref_limits(true, s, 1) == None::<(int, int)>);
    assert(pref_limits(true, s, 2) == None::<(int, int)>);
    assert(pref_limits(true, s, 3) == Some((610000int, 290000int)));
    assert(pref_limits(true, s, 4) == Some((360000int, 160000int)));
    assert(pref_limits(true, s, 5) == Some((205000int, 80000int)));
    assert(pref_limits(true, s, 6) == Some((104000int, 24000int)));
    assert(pref_limits(true, s, 7) == Some((80000int, 0int)));
    assert(pref_limits(true, s, 8) == Some((125000int, 0int)));
    assert(pref_limits(true, s, 9) == Some((200000int, 0int)));
    assert(pref_limits(true, s, 10) == Some((500000int, 0int)));
    assert(pref_limits(true, s, 11) == Some((40000int, -40000int)));
    assert(pref_limits(true, s, 12) == Some((0int, -80000int)));
    assert(pref_limits(true, s, 13) == Some((-50000int, -130000int)));
    assert(pref_limits(true, s, 14) == Some((-88000int, -168000int)));
    assert(pref_limits(true, s, 15) == Some((-175000int, -255000int)));
    assert(pref_limits(true, s, 16) == Some((-340000int, -420000int)));
    assert(pref_limits(true, s, 17) == Some((-740000int, -820000int)));
    assert(pref_limits(false, s, 0) == None::<(int, int)>);
    assert(pref_limits(false, s, 1) == None::<(int, int)>);
    assert(pref_limits(false, s, 2) == None::<(int, int)>);
    assert(pref_limits(false, s, 3) == Some((-290000int, -490000int)));
    assert(pref_limits(false, s, 4) == Some((-160000int, -285000int)));
    assert(pref_limits(false, s, 5) == Some((-80000int, -160000int)));
    assert(pref_limits(false, s, 6) == Some((-24000int, -74000int)));
    assert(pref_limits(false, s, 7) == Some((0int, -50000int)));
    assert(pref_limits(false, s, 8) == Some((0int, -80000int)));
    assert(pref_limits(false, s, 9) == Some((0int, -200000int)));
    assert(pref_limits(false, s, 10) == Some((0int, -500000int)));
    assert(pref_limits(false, s, 11) == Some((25000int, -25000int)));
    assert(pref_limits(false, s, 12) == Some((50000int, 0int)));
    assert(pref_limits(false, s, 13) == Some((100000int, 50000int)));
    assert(pref_limits(false, s, 14) == Some((138000int, 88000int)));
    assert(pref_limits(false, s, 15) == Some((225000int, 175000int)));
    assert(pref_limits(false, s, 16) == Some((390000int, 340000int)));
    assert(pref_limits(false, s, 17) == Some((790000int, 740000int)));
    assert(pairwise_distinct(s));
    lemma_distinct_from_pairs(s);
}

#[verifier::spinoff_prover]
proof fn lemma_preferred_between_710_and_800(s: int)
    requires
        710 < s <= 800,
    ensures
        preferred_limits_distinct(s),
{
    reveal(spec_limits_nm);
    reveal_with_fuel(first_row_from, 42);
    assert(pref_limits(true, s, 0) == None::<(int, int)>);
    assert(pref_limits(true, s, 1) == None::<(int, int)>);
    assert(pref_limits(true, s, 2) == None::<(int, int)>);
    assert(pref_limits(true, s, 3) == Some((610000int, 290000int)));
    assert(pref_limits(true, s, 4) == Some((360000int, 160000int)));
    assert(pref_limits(true, s, 5) == Some((205000int, 80000int)));
    assert(pref_limits(true, s, 6) == Some((104000int, 24000int)));
    assert(pref_limits(true, s, 7) == Some((80000int, 0int)));
    assert(pref_limits(true, s, 8) == Some((125000int, 0int)));
    assert(pref_limits(true, s, 9) == Some((200000int, 0int)));
    assert(pref_limits(true, s, 10) == Some((500000int, 0int)));
    assert(pref_limits(true, s, 11) == Some((40000int, -40000int)));
    assert(pref_limits(true, s, 12) == Some((0int, -80000int)));
    assert(pref_limits(true, s, 13) == Some((-50000int, -130000int)));
    assert(pref_limits(true, s, 14) == Some((-88000int, -168000int)));
    assert(pref_limits(true, s, 15) == Some((-185000int, -265000int)));
    assert(pref_limits(true, s, 16) == Some((-380000int, -460000int)));
    assert(pref_limits(true, s, 17) == Some((-840000int, -920000int)));
    assert(pref_limits(false, s, 0) == None::<(int, int)>);
    assert(pref_limits(false, s, 1) == None::<(int, int)>);
    assert(pref_limits(false, s, 2) == None::<(int, int)>);
    assert(pref_limits(false, s, 3) == Some((-290000int, -490000int)));
    assert(pref_limits(false, s, 4) == Some((-160000int, -285000int)));
    assert(pref_limits(false, s, 5) == Some((-80000int, -160000int)));
    assert(pref_limits(false, s, 6) == Some((-24000int, -74000int)));
    assert(pref_limits(false, s, 7) == Some((0int, -50000int)));
    assert(pref_limits(false, s, 8) == Some((0int, -80000int)));
    assert(pref_limits(false, s, 9) == Some((0int, -200000int)));
    assert(pref_limits(false, s, 10) == Some((0int, -500000int)));
    assert(pref_limits(false, s, 11) == Some((25000int, -25000int)));
    assert(pref_limits(false, s, 12) == Some((50000int, 0int)));
    assert(pref_limits(false, s, 13) == Some((100000int, 50000int)));
    assert(pref_limits(false, s, 14) == Some((138000int, 88000int)));
    assert(pref_limits(false, s, 15) == Some((235000int, 185000int)));
    assert(pref_limits(false, s, 16) == Some((430000int, 380000int)));
    assert(pref_limits(false, s, 17) == Some((890000int, 840000int)));
    assert(pairwise_distinct(s));
    lemma_distinct_from_pairs(s);
}

#[verifier::spinoff_prover]
proof fn lemma_preferred_between_800_and_900(s: int)
    requires
        800 < s <= 900,
    ensures
        preferred_limits_distinct(s),
{
    reveal(spec_limits_nm);
    reveal_with_fuel(first_row_from, 42);
    assert(pref_limits(true, s, 0) == None::<(int, int)>);
    assert(pref_limits(true, s, 1) == None::<(int, int)>);
    assert(pref_limits(true, s, 2) == None::<(int, int)>);
    assert(pref_limits(true, s, 3) == Some((680000int, 320000int)));
    assert(pref_limits(true, s, 4) == Some((400000int, 170000int)));
    assert(pref_limits(true, s, 5) == Some((226000int, 86000int)));
    assert(pref_limits(true, s, 6) == Some((116000int, 26000int)));
    assert(pref_limits(true, s, 7) == Some((90000int, 0int)));
    assert(pref_limits(true, s, 8) == Some((140000int, 0int)));
    assert(pref_limits(true, s, 9) == Some((230000int, 0int)));
    assert(pref_limits(true, s, 10) == Some((560000int, 0int)));
    assert(pref_limits(true, s, 11) == Some((45000int, -45000int)));
    assert(pref_limits(true, s, 12) == Some((0int, -90000int)));
    assert(pref_limits(true, s, 13) == Some((-56000int, -146000int)));
    assert(pref_limits(true, s, 14) == Some((-100000int, -190000int)));
    assert(pref_limits(true, s, 15) == Some((-210000int, -300000int)));
    assert(pref_limits(true, s, 16) == Some((-430000int, -520000int)));
    assert(pref_limits(true, s, 17) == Some((-940000int, -1030000int)));
    assert(pref_limits(false, s, 0) == None::<(int, int)>);
    assert(pref_limits(false, s, 1) == None::<(int, int)>);
    assert(pref_limits(false, s, 2) == None::<(int, int)>);
    assert(pref_limits(false, s, 3) == Some((-320000int, -550000int)));
    assert(pref_limits(false, s, 4) == Some((-170000int, -310000int)));
    assert(pref_limits(false, s, 5) == Some((-86000int, -176000int)));
    assert(pref_limits(false, s, 6) == Some((-26000int, -82000int)));
    assert(pref_limits(false, s, 7) == Some((0int, -56000int)));
    assert(pref_limits(false, s, 8) == Some((0int, -90000int)));
    assert(pref_limits(false, s, 9) == Some((0int, -230000int)));
    assert(pref_limits(false, s, 10) == Some((0int, -560000int)));
    assert(pref_limits(false, s, 11) == Some((28000int, -28000int)));
    assert(pref_limits(false, s, 12) == Some((56000int, 0int)));
    assert(pref_limits(false, s, 13) == Some((112000int, 56000int)));
    assert(pref_limits(false, s, 14) == Some((156000int, 100000int)));
    assert(pref_limits(false, s, 15) == Some((266000int, 210000int)));
    assert(pref_limits(false, s, 16) == Some((486000int, 430000int)));
    assert(pref_limits(false, s, 17) == Some((996000int, 940000int)));
    assert(pairwise_distinct(s));
    lemma_distinct_from_pairs(s);
}

#[verifier::spinoff_prover]
proof fn lemma_preferred_between_900_and_1000(s: int)
    requires
        900 < s <= 1000,
    ensures
        preferred_limits_distinct(s),
{
    reveal(spec_limits_nm);
    reveal_with_fuel(first_row_from, 42);
    assert(pref_limits(true, s, 0) == None::<(int, int)>);
    assert(pref_limits(true, s, 1) == None::<(int, int)>);
    assert(pref_limits(true, s, 2) == None::<(int, int)>);
    assert(pref_limits(true, s, 3) == Some((680000int, 320000int)));
    assert(pref_limits(true, s, 4) == Some((400000int, 170000int)));
    assert(pref_limits(true, s, 5) == Some((226000int, 86000int)));
    assert(pref_limits(true, s, 6) == Some((116000int, 26000int)));
    assert(pref_limits(true, s, 7) == Some((90000int, 0int)));
    assert(pref_limits(true, s, 8) == Some((140000int, 0int)));
    assert(pref_limits(true, s, 9) == Some((230000int, 0int)));
    assert(pref_limits(true, s, 10) == Some((560000int, 0int)));
    assert(pref_limits(true, s, 11) == Some((45000int, -45000int)));
    assert(pref_limits(true, s, 12) == Some((0int, -90000int)));
    assert(pref_limits(true, s, 13) == Some((-56000int, -146000int)));
    assert(pref_limits(true, s, 14) == Some((-100000int, -190000int)));
    assert(pref_limits(true, s, 15) == Some((-220000int, -310000int)));
    assert(pref_limits(true, s, 16) == Some((-470000int, -560000int)));
    assert(pref_limits(true, s, 17) == Some((-1050000int, -1140000int)));
    assert(pref_limits(false, s, 0) == None::<(int, int)>);
    assert(pref_limits(false, s, 1) == None::<(int, int)>);
    assert(pref_limits(false, s, 2) == None::<(int, int)>);
    assert(pref_limits(false, s, 3) == Some((-320000int, -550000int)));
    assert(pref_limits(false, s, 4) == Some((-170000int, -310000int)));
    assert(pref_limits(false, s, 5) == Some((-86000int, -176000int)));
    assert(pref_limits(false, s, 6) == Some((-26000int, -82000int)));
    assert(pref_limits(false, s, 7) == Some((0int, -56000int)));
    assert(pref_limits(false, s, 8) == Some((0int, -90000int)));
    assert(pref_limits(false, s, 9) == Some((0int, -230000int)));
    assert(pref_limits(false, s, 10) == Some((0int, -560000int)));
    assert(pref_limits(false, s, 11) == Some((28000int, -28000int)));
    assert(pref_limits(false, s, 12) == Some((56000int, 0int)));
    assert(pref_limits(false, s, 13) == Some((112000int, 56000int)));
    assert(pref_limits(false, s, 14) == Some((156000int, 100000int)));
    assert(pref_limits(false, s, 15) == Some((276000int, 220000int)));
    assert(pref_limits(false, s, 16) == Some((526000int, 470000int)));
    assert(pref_limits(false, s, 17) == Some((1106000int, 1050000int)));
    assert(pairwise_distinct(s));
    lemma_distinct_from_pairs(s);
}

#[verifier::spinoff_prover]
proof fn lemma_preferred_between_1000_and_1120(s: int)
    requires
        1000 < s <= 1120,
    ensures
        preferred_limits_distinct(s),
{
    reveal(spec_limits_nm);
    reveal_with_fuel(first_row_from, 42);
    assert(pref_limits(true, s, 0) == None::<(int, int)>);
    assert(pref_limits(true, s, 1) == None::<(int, int)>);
    assert(pref_limits(true, s, 2) == None::<(int, int)>);
    assert(pref_limits(true, s, 3) == Some((770000int, 350000int)));
    assert(pref_limits(true, s, 4) == Some((455000int, 195000int)));
    assert(pref_limits(true, s, 5) == Some((263000int, 98000int)));
    assert(pref_limits(true, s, 6) == Some((133000int, 28000int)));
    assert(pref_limits(true, s, 7) == Some((105000int, 0int)));
    assert(pref_limits(true, s, 8) == Some((165000int, 0int)));
    assert(pref_limits(true, s, 9) == Some((260000int, 0int)));
    assert(pref_limits(true, s, 10) == Some((660000int, 0int)));
    assert(pref_limits(true, s, 11) == Some((52500int, -52500int)));
    assert(pref_limits(true, s, 12) == Some((0int, -105000int)));
    assert(pref_limits(true, s, 13) == Some((-66000int, -171000int)));
    assert(pref_limits(true, s, 14) == Some((-120000int, -225000int)));
    assert(pref_limits(true, s, 15) == Some((-250000int, -355000int)));
    assert(pref_limits(true, s, 16) == Some((-520000int, -625000int)));
    assert(pref_limits(true, s, 17) == Some((-1150000int, -1255000int)));
    assert(pref_limits(false, s, 0) == None::<(int, int)>);
    assert(pref_limits(false, s, 1) == None::<(int, int)>);
    assert(pref_limits(false, s, 2) == None::<(int, int)>);
    assert(pref_limits(false, s, 3) == Some((-350000int, -610000int)));
    assert(pref_limits(false, s, 4) == Some((-195000int, -360000int)));
    assert(pref_limits(false, s, 5) == Some((-98000int, -203000int)));
    assert(pref_limits(false, s, 6) == Some((-28000int, -94000int)));
    assert(pref_limits(false, s, 7) == Some((0int, -66000int)));
    assert(pref_limits(false, s, 8) == Some((0int, -105000int)));
    assert(pref_limits(false, s, 9) == Some((0int, -260000int)));
    assert(pref_limits(false, s, 10) == Some((0int, -660000int)));
    assert(pref_limits(false, s, 11) == Some((33000int, -33000int)));
    assert(pref_limits(false, s, 12) == Some((66000int, 0int)));
    assert(pref_limits(false, s, 13) == Some((132000int, 66000int)));
    assert(pref_limits(false, s, 14) == Some((186000int, 120000int)));
    assert(pref_limits(false, s, 15) == Some((316000int, 250000int)));
    assert(pref_limits(false, s, 16) == Some((586000int, 520000int)));
    assert(pref_limits(false, s, 17) == Some((1216000int, 1150000int)));
    assert(pairwise_distinct(s));
    lemma_distinct_from_pairs(s);
}

#[verifier::spinoff_prover]
proof fn lemma_preferred_between_1120_and_1250(s: int)
    requires
        1120 < s <= 1250,
    ensures
        preferred_limits_distinct(s),
{
    reveal(spec_limits_nm);
    reveal_with_fuel(first_row_from, 42);
    assert(pref_limits(true, s, 0) == None::<(int, int)>);
    assert(pref_limits(true, s, 1) == None::<(int, int)>);
    assert(pref_limits(true, s, 2) == None::<(int, int)>);
    assert(pref_limits(true, s, 3) == Some((770000int, 350000int)));
    assert(pref_limits(true, s, 4) == Some((455000int, 195000int)));
    assert(pref_limits(true, s, 5) == Some((263000int, 98000int)));
    assert(pref_limits(true, s, 6) == Some((133000int, 28000int)));
    assert(pref_limits(true, s, 7) == Some((105000int, 0int)));
    assert(pref_limits(true, s, 8) == Some((165000int, 0int)));
    assert(pref_limits(true, s, 9) == Some((260000int, 0int)));
    assert(pref_limits(true, s, 10) == Some((660000int, 0int)));
    assert(pref_limits(true, s, 11) == Some((52500int, -52500int)));
    assert(pref_limits(true, s, 12) == Some((0int, -105000int)));
    assert(pref_limits(true, s, 13) == Some((-66000int, -171000int)));
    assert(pref_limits(true, s, 14) == Some((-120000int, -225000int)));
    assert(pref_limits(true, s, 15) == Some((-260000int, -365000int)));
    assert(pref_limits(true, s, 16) == Some((-580000int, -685000int)));
    assert(pref_limits(true, s, 17) == Some((-1300000int, -1405000int)));
    assert(pref_limits(false, s, 0) == None::<(int, int)>);
    assert(pref_limits(false, s, 1) == None::<(int, int)>);
    assert(pref_limits(false, s, 2) == None::<(int, int)>);
    assert(pref_limits(false, s, 3) == Some((-350000int, -610000int)));
    assert(pref_limits(false, s, 4) == Some((-195000int, -360000int)));
    assert(pref_limits(false, s, 5) == Some((-98000int, -203000int)));
    assert(pref_limits(false, s, 6) == Some((-28000int, -94000int)));
    assert(pref_limits(false, s, 7) == Some((0int, -66000int)));
    assert(pref_limits(false, s, 8) == Some((0int, -105000int)));
    assert(pref_limits(false, s, 9) == Some((0int, -260000int)));
    assert(pref_limits(false, s, 10) == Some((0int, -660000int)));
    assert(pref_limits(false, s, 11) == Some((33000int, -33000int)));
    assert(pref_limits(false, s, 12) == Some((66000int, 0int)));
    assert(pref_limits(false, s, 13) == Some((132000int, 66000int)));
    assert(pref_limits(false, s, 14) == Some((186000int, 120000int)));
    assert(pref_limits(false, s, 15) == Some((326000int, 260000int)));
    assert(pref_limits(false, s, 16) == Some((646000int, 580000int)));
    assert(pref_limits(false, s, 17) == Some((1366000int, 1300000int)));
    assert(pairwise_distinct(s));
    lemma_distinct_from_pairs(s);
}

#[verifier::spinoff_prover]
proof fn lemma_preferred_between_1250_and_1400(s: int)
    requires
        1250 < s <= 1400,
    ensures
        preferred_limits_distinct(s),
{
    reveal(spec_limits_nm);
    reveal_with_fuel(first_row_from, 42);
    assert(pref_limits(true, s, 0) == None::<(int, int)>);
    assert(pref_limits(true, s, 1) == None::<(int, int)>);
    assert(pref_limits(true, s, 2) == None::<(int, int)>);
    assert(pref_limits(true, s, 3) == Some((890000int, 390000int)));
    assert(pref_limits(true, s, 4) == Some((530000int, 220000int)));
    assert(pref_limits(true, s, 5) == Some((305000int, 110000int)));
    assert(pref_limits(true, s, 6) == Some((155000int, 30000int)));
    assert(pref_limits(true, s, 7) == Some((125000int, 0int)));
    assert(pref_limits(true, s, 8) == Some((195000int, 0int)));
    assert(pref_limits(true, s, 9) == Some((310000int, 0int)));
    assert(pref_limits(true, s, 10) == Some((780000int, 0int)));
    assert(pref_limits(true, s, 11) == Some((62500int, -62500int)));
    assert(pref_limits(true, s, 12) == Some((0int, -125000int)));
    assert(pref_limits(true, s, 13) == Some((-78000int, -203000int)));
    assert(pref_limits(true, s, 14) == Some((-140000int, -265000int)));
    assert(pref_limits(true, s, 15) == Some((-300000int, -425000int)));
    assert(pref_limits(true, s, 16) == Some((-640000int, -765000int)));
    assert(pref_limits(true, s, 17) == Some((-1450000int, -1575000int)));
    assert(pref_limits(false, s, 0) == None::<(int, int)>);
    assert(pref_limits(false, s, 1) == None::<(int, int)>);
    assert(pref_limits(false, s, 2) == None::<(int, int)>);
    assert(pref_limits(false, s, 3) == Some((-390000int, -700000int)));
    assert(pref_limits(false, s, 4) == Some((-220000int, -415000int)));
    assert(pref_limits(false, s, 5) == Some((-110000int, -235000int)));
    assert(pref_limits(false, s, 6) == Some((-30000int, -108000int)));
    assert(pref_limits(false, s, 7) == Some((0int, -78000int)));
    assert(pref_limits(false, s, 8) == Some((0int, -125000int)));
    assert(pref_limits(false, s, 9) == Some((0int, -310000int)));
    assert(pref_limits(false, s, 10) == Some((0int, -780000int)));
    assert(pref_limits(false, s, 11) == Some((39000int, -39000int)));
    assert(pref_limits(false, s, 12) == Some((78000int, 0int)));
    assert(pref_limits(false, s, 13) == Some((156000int, 78000int)));
    assert(pref_limits(false, s, 14) == Some((218000int, 140000int)));
    assert(pref_limits(false, s, 15) == Some((378000int, 300000int)));
    assert(pref_limits(false, s, 16) == Some((718000int, 640000int)));
    assert(pref_limits(false, s, 17) == Some((1528000int, 1450000int)));
    assert(pairwise_distinct(s));
    lemma_distinct_from_pairs(s);
}

#[verifier::spinoff_prover]
proof fn lemma_preferred_between_1400_and_1600(s: int)
    requires
        1400 < s <= 1600,
    ensures
        preferred_limits_distinct(s),
{
    reveal(spec_limits_nm);
    reveal_with_fuel(first_row_from, 42);
    assert(pref_limits(true, s, 0) == None::<(int, int)>);
    assert(pref_limits(true, s, 1) == None::<(int, int)>);
    assert(pref_limits(true, s, 2) == None::<(int, int)>);
    assert(pref_limits(true, s, 3) == Some((890000int, 390000int)));
    assert(pref_limits(true, s, 4) == Some((530000int, 220000int)));
    assert(pref_limits(true, s, 5) == Some((305000int, 110000int)));
    assert(pref_limits(true, s, 6) == Some((155000int, 30000int)));
    assert(pref_limits(true, s, 7) == Some((125000int, 0int)));
    assert(pref_limits(true, s, 8) == Some((195000int, 0int)));
    assert(pref_limits(true, s, 9) == Some((310000int, 0int)));
    assert(pref_limits(true, s, 10) == Some((780000int, 0int)));
    assert(pref_limits(true, s, 11) == Some((62500int, -62500int)));
    assert(pref_limits(true, s, 12) == Some((0int, -125000int)));
    assert(pref_limits(true, s, 13) == Some((-78000int, -203000int)));
    assert(pref_limits(true, s, 14) == Some((-140000int, -265000int)));
    assert(pref_limits(true, s, 15) == Some((-330000int, -455000int)));
    assert(pref_limits(true, s, 16) == Some((-720000int, -845000int)));
    assert(pref_limits(true, s, 17) == Some((-1600000int, -1725000int)));
    assert(pref_limits(false, s, 0) == None::<(int, int)>);
    assert(pref_limits(false, s, 1) == None::<(int, int)>);
    assert(pref_limits(false, s, 2) == None::<(int, int)>);
    assert(pref_limits(false, s, 3) == Some((-390000int, -700000int)));
    assert(pref_limits(false, s, 4) == Some((-220000int, -415000int)));
    assert(pref_limits(false, s, 5) == Some((-110000int, -235000int)));
    assert(pref_limits(false, s, 6) == Some((-30000int, -108000int)));
    assert(pref_limits(false, s, 7) == Some((0int, -78000int)));
    assert(pref_limits(false, s, 8) == Some((0int, -125000int)));
    assert(pref_limits(false, s, 9) == Some((0int, -310000int)));
    assert(pref_limits(false, s, 10) == Some((0int, -780000int)));
    assert(pref_limits(false, s, 11) == Some((39000int, -39000int)));
    assert(pref_limits(false, s, 12) == Some((78000int, 0int)));
    assert(pref_limits(false, s, 13) == Some((156000int, 78000int)));
    assert(pref_limits(false, s, 14) == Some((218000int, 140000int)));
    assert(pref_limits(false, s, 15) == Some((408000int, 330000int)));
    assert(pref_limits(false, s, 16) == Some((798000int, 720000int)));
    assert(pref_limits(false, s, 17) == Some((1678000int, 1600000int)));
    assert(pairwise_distinct(s));
    lemma_distinct_from_pairs(s);
}

#[verifier::spinoff_prover]
proof fn lemma_preferred_between_1600_and_1800(s: int)
    requires
        1600 < s <= 1800,
    ensures
        preferred_limits_distinct(s),
{
    reveal(spec_limits_nm);
    reveal_with_fuel(first_row_from, 42);
    assert(pref_limits(true, s, 0) == None::<(int, int)>);
    assert(pref_limits(true, s, 1) == None::<(int, int)>);
    assert(pref_limits(true, s, 2) == None::<(int, int)>);
    assert(pref_limits(true, s, 3) == Some((1030000int, 430000int)));
    assert(pref_limits(true, s, 4) == Some((610000int, 240000int)));
    assert(pref_limits(true, s, 5) == Some((350000int, 120000int)));
    assert(pref_limits(true, s, 6) == Some((182000int, 32000int)));
    assert(pref_limits(true, s, 7) == Some((150000int, 0int)));
    assert(pref_limits(true, s, 8) == Some((230000int, 0int)));
    assert(pref_limits(true, s, 9) == Some((370000int, 0int)));
    assert(pref_limits(true, s, 10) == Some((920000int, 0int)));
    assert(pref_limits(true, s, 11) == Some((75000int, -75000int)));
    assert(pref_limits(true, s, 12) == Some((0int, -150000int)));
    assert(pref_limits(true, s, 13) == Some((-92000int, -242000int)));
    assert(pref_limits(true, s, 14) == Some((-170000int, -320000int)));
    assert(pref_limits(true, s, 15) == Some((-370000int, -520000int)));
    assert(pref_limits(true, s, 16) == Some((-820000int, -970000int)));
    assert(pref_limits(true, s, 17) == Some((-1850000int, -2000000int)));
    assert(pref_limits(false, s, 0) == None::<(int, int)>);
    assert(pref_limits(false, s, 1) == None::<(int, int)>);
    assert(pref_limits(false, s, 2) == None::<(int, int)>);
    assert(pref_limits(false, s, 3) == Some((-430000int, -800000int)));
    assert(pref_limits(false, s, 4) == Some((-240000int, -470000int)));
    assert(pref_limits(false, s, 5) == Some((-120000int, -270000int)));
    assert(pref_limits(false, s, 6) == Some((-32000int, -124000int)));
    assert(pref_limits(false, s, 7) == Some((0int, -92000int)));
    assert(pref_limits(false, s, 8) == Some((0int, -150000int)));
    assert(pref_limits(false, s, 9) == Some((0int, -370000int)));
    assert(pref_limits(false, s, 10) == Some((0int, -920000int)));
    assert(pref_limits(false, s, 11) == Some((46000int, -46000int)));
    assert(pref_limits(false, s, 12) == Some((92000int, 0int)));
    assert(pref_limits(false, s, 13) == Some((184000int, 92000int)));
    assert(pref_limits(false, s, 14) == Some((262000int, 170000int)));
    assert(pref_limits(false, s, 15) == Some((462000int, 370000int)));
    assert(pref_limits(false, s, 16) == Some((912000int, 820000int)));
    assert(pref_limits(false, s, 17) == Some((1942000int, 1850000int)));
    assert(pairwise_distinct(s));
    lemma_distinct_from_pairs(s);
}

#[verifier::spinoff_prover]
proof fn lemma_preferred_between_1800_and_2000(s: int)
    requires
        1800 < s <= 2000,
    ensures
        preferred_limits_distinct(s),
{
    reveal(spec_limits_nm);
    reveal_with_fuel(first_row_from, 42);
    assert(pref_limits(true, s, 0) == None::<(int, int)>);
    assert(pref_limits(true, s, 1) == None::<(int, int)>);
    assert(pref_limits(true, s, 2) == None::<(int, int)>);
    assert(pref_limits(true, s, 3) == Some((1030000int, 430000int)));
    assert(pref_limits(true, s, 4) == Some((610000int, 240000int)));
    assert(pref_limits(true, s, 5) == Some((350000int, 120000int)));
    assert(pref_limits(true, s, 6) == Some((182000int, 32000int)));
    assert(pref_limits(true, s, 7) == Some((150000int, 0int)));
    assert(pref_limits(true, s, 8) == Some((230000int, 0int)));
    assert(pref_limits(true, s, 9) == Some((370000int, 0int)));
    assert(pref_limits(true, s, 10) == Some((920000int, 0int)));
    assert(pref_limits(true, s, 11) == Some((75000int, -75000int)));
    assert(pref_limits(true, s, 12) == Some((0int, -150000int)));
    assert(pref_limits(true, s, 13) == Some((-92000int, -242000int)));
    assert(pref_limits(true, s, 14) == Some((-170000int, -320000int)));
    assert(pref_limits(true, s, 15) == Some((-400000int, -550000int)));
    assert(pref_limits(true, s, 16) == Some((-920000int, -1070000int)));
    assert(pref_limits(true, s, 17) == Some((-2000000int, -2150000int)));
    assert(pref_limits(false, s, 0) == None::<(int, int)>);
    assert(pref_limits(false, s, 1) == None::<(int, int)>);
    assert(pref_limits(false, s, 2) == None::<(int, int)>);
    assert(pref_limits(false, s, 3) == Some((-430000int, -800000int)));
    assert(pref_limits(false, s, 4) == Some((-240000int, -470000int)));
    assert(pref_limits(false, s, 5) == Some((-120000int, -270000int)));
    assert(pref_limits(false, s, 6) == Some((-32000int, -124000int)));
    assert(pref_limits(false, s, 7) == Some((0int, -92000int)));
    assert(pref_limits(false, s, 8) == Some((0int, -150000int)));
    assert(pref_limits(false, s, 9) == Some((0int, -370000int)));
    assert(pref_limits(false, s, 10) == Some((0int, -920000int)));
    assert(pref_limits(false, s, 11) == Some((46000int, -46000int)));
    assert(pref_limits(false, s, 12) == Some((92000int, 0int)));
    assert(pref_limits(false, s, 13) == Some((184000int, 92000int)));
    assert(pref_limits(false, s, 14) == Some((262000int, 170000int)));
    assert(pref_limits(false, s, 15) == Some((492000int, 400000int)));
    assert(pref_limits(false, s, 16) == Some((1012000int, 920000int)));
    assert(pref_limits(false, s, 17) == Some((2092000int, 2000000int)));
    assert(pairwise_distinct(s));
    lemma_distinct_from_pairs(s);
}

#[verifier::spinoff_prover]
proof fn lemma_preferred_between_2000_and_2240(s: int)
    requires
        2000 < s <= 2240,
    ensures
        preferred_limits_distinct(s),
{
    reveal(spec_limits_nm);
    reveal_with_fuel(first_row_from, 42);
    assert(pref_limits(true, s, 0) == None::<(int, int)>);
    assert(pref_limits(true, s, 1) == None::<(int, int)>);
    assert(pref_limits(true, s, 2) == None::<(int, int)>);
    assert(pref_limits(true, s, 3) == Some((1180000int, 480000int)));
    assert(pref_limits(true, s, 4) == Some((700000int, 260000int)));
    assert(pref_limits(true, s, 5) == Some((410000int, 130000int)));
    assert(pref_limits(true, s, 6) == Some((209000int, 34000int)));
    assert(pref_limits(true, s, 7) == Some((175000int, 0int)));
    assert(pref_limits(true, s, 8) == Some((280000int, 0int)));
    assert(pref_limits(true, s, 9) == Some((440000int, 0int)));
    assert(pref_limits(true, s, 10) == Some((1100000int, 0int)));
    assert(pref_limits(true, s, 11) == Some((87500int, -87500int)));
    assert(pref_limits(true, s, 12) == Some((0int, -175000int)));
    assert(pref_limits(true, s, 13) == Some((-110000int, -285000int)));
    assert(pref_limits(true, s, 14) == Some((-195000int, -370000int)));
    assert(pref_limits(true, s, 15) == Some((-440000int, -615000int)));
    assert(pref_limits(true, s, 16) == Some((-1000000int, -1175000int)));
    assert(pref_limits(true, s, 17) == Some((-2300000int, -2475000int)));
    assert(pref_limits(false, s, 0) == None::<(int, int)>);
    assert(pref_limits(false, s, 1) == None::<(int, int)>);
    assert(pref_limits(false, s, 2) == None::<(int, int)>);
    assert(pref_limits(false, s, 3) == Some((-480000int, -920000int)));
    assert(pref_limits(false, s, 4) == Some((-260000int, -540000int)));
    assert(pref_limits(false, s, 5) == Some((-130000int, -305000int)));
    assert(pref_limits(false, s, 6) == Some((-34000int, -144000int)));
    assert(pref_limits(false, s, 7) == Some((0int, -110000int)));
    assert(pref_limits(false, s, 8) == Some((0int, -175000int)));
    assert(pref_limits(false, s, 9) == Some((0int, -440000int)));
    assert(pref_limits(false, s, 10) == Some((0int, -1100000int)));
    assert(pref_limits(false, s, 11) == Some((55000int, -55000int)));
    assert(pref_limits(false, s, 12) == Some((110000int, 0int)));
    assert(pref_limits(false, s, 13) == Some((220000int, 110000int)));
    assert(pref_limits(false, s, 14) == Some((305000int, 195000int)));
    assert(pref_limits(false, s, 15) == Some((550000int, 440000int)));
    assert(pref_limits(false, s, 16) == Some((1110000int, 1000000int)));
    assert(pref_limits(false, s, 17) == Some((2410000int, 2300000int)));
    assert(pairwise_distinct(s));
    lemma_distinct_from_pairs(s);
}

#[verifier::spinoff_prover]
proof fn lemma_preferred_between_2240_and_2500(s: int)
    requires
        2240 < s <= 2500,
    ensures
        preferred_limits_distinct(s),
{
    reveal(spec_limits_nm);
    reveal_with_fuel(first_row_from, 42);
    assert(pref_limits(true, s, 0) == None::<(int, int)>);
    assert(pref_limits(true, s, 1) == None::<(int, int)>);
    assert(pref_limits(true, s, 2) == None::<(int, int)>);
    assert(pref_limits(true, s, 3) == Some((1180000int, 480000int)));
    assert(pref_limits(true, s, 4) == Some((700000int, 260000int)));
    assert(pref_limits(true, s, 5) == Some((410000int, 130000int)));
    assert(pref_limits(true, s, 6) == Some((209000int, 34000int)));
    assert(pref_limits(true, s, 7) == Some((175000int, 0int)));
    assert(pref_limits(true, s, 8) == Some((280000int, 0int)));
    assert(pref_limits(true, s, 9) == Some((440000int, 0int)));
    assert(pref_limits(true, s, 10) == Some((1100000int, 0int)));
    assert(pref_limits(true, s, 11) == Some((87500int, -87500int)));
    assert(pref_limits(true, s, 12) == Some((0int, -175000int)));
    assert(pref_limits(true, s, 13) == Some((-110000int, -285000int)));
    assert(pref_limits(true, s, 14) == Some((-195000int, -370000int)));
    assert(pref_limits(true, s, 15) == Some((-460000int, -635000int)));
    assert(pref_limits(true, s, 16) == Some((-1100000int, -1275000int)));
    assert(pref_limits(true, s, 17) == Some((-2500000int, -2675000int)));
    assert(pref_limits(false, s, 0) == None::<(int, int)>);
    assert(pref_limits(false, s, 1) == None::<(int, int)>);
    assert(pref_limits(false, s, 2) == None::<(int, int)>);
    assert(pref_limits(false, s, 3) == Some((-480000int, -920000int)));
    assert(pref_limits(false, s, 4) == Some((-260000int, -540000int)));
    assert(pref_limits(false, s, 5) == Some((-130000int, -305000int)));
    assert(pref_limits(false, s, 6) == Some((-34000int, -144000int)));
    assert(pref_limits(false, s, 7) == Some((0int, -110000int)));
    assert(pref_limits(false, s, 8) == Some((0int, -175000int)));
    assert(pref_limits(false, s, 9) == Some((0int, -440000int)));
    assert(pref_limits(false, s, 10) == Some((0int, -1100000int)));
    assert(pref_limits(false, s, 11) == Some((55000int, -55000int)));
    assert(pref_limits(false, s, 12) == Some((110000int, 0int)));
    assert(pref_limits(false, s, 13) == Some((220000int, 110000int)));
    assert(pref_limits(false, s, 14) == Some((305000int, 195000int)));
    assert(pref_limits(false, s, 15) == Some((570000int, 460000int)));
    assert(pref_limits(false, s, 16) == Some((1210000int, 1100000int)));
    assert(pref_limits(false, s, 17) == Some((2610000int, 2500000int)));
    assert(pairwise_distinct(s));
    lemma_distinct_from_pairs(s);
}

#[verifier::spinoff_prover]
proof fn lemma_preferred_between_2500_and_2800(s: int)
    requires
        2500 < s <= 2800,
    ensures
        preferred_limits_distinct(s),
{
    reveal(spec_limits_nm);
    reveal_with_fuel(first_row_from, 42);
    assert(pref_limits(true, s, 0) == None::<(int, int)>);
    assert(pref_limits(true, s, 1) == None::<(int, int)>);
    assert(pref_limits(true, s, 2) == None::<(int, int)>);
    assert(pref_limits(true, s, 3) == Some((1380000int, 520000int)));
    assert(pref_limits(true, s, 4) == Some((830000int, 290000int)));
    assert(pref_limits(true, s, 5) == Some((475000int, 145000int)));
    assert(pref_limits(true, s, 6) == Some((248000int, 38000int)));
    assert(pref_limits(true, s, 7) == Some((210000int, 0int)));
    assert(pref_limits(true, s, 8) == Some((330000int, 0int)));
    assert(pref_limits(true, s, 9) == Some((540000int, 0int)));
    assert(pref_limits(true, s, 10) == Some((1350000int, 0int)));
    assert(pref_limits(true, s, 11) == Some((105000int, -105000int)));
    assert(pref_limits(true, s, 12) == Some((0int, -210000int)));
    assert(pref_limits(true, s, 13) == Some((-135000int, -345000int)));
    assert(pref_limits(true, s, 14) == Some((-240000int, -450000int)));
    assert(pref_limits(true, s, 15) == Some((-550000int, -760000int)));
    assert(pref_limits(true, s, 16) == Some((-1250000int, -1460000int)));
    assert(pref_limits(true, s, 17) == Some((-2900000int, -3110000int)));
    assert(pref_limits(false, s, 0) == None::<(int, int)>);
    assert(pref_limits(false, s, 1) == None::<(int, int)>);
    assert(pref_limits(false, s, 2) == None::<(int, int)>);
    assert(pref_limits(false, s, 3) == Some((-520000int, -1060000int)));
    assert(pref_limits(false, s, 4) == Some((-290000int, -620000int)));
    assert(pref_limits(false, s, 5) == Some((-145000int, -355000int)));
    assert(pref_limits(false, s, 6) == Some((-38000int, -173000int)));
    assert(pref_limits(false, s, 7) == Some((0int, -135000int)));
    assert(pref_limits(false, s, 8) == Some((0int, -210000int)));
    assert(pref_limits(false, s, 9) == Some((0int, -540000int)));
    assert(pref_limits(false, s, 10) == Some((0int, -1350000int)));
    assert(pref_limits(false, s, 11) == Some((67500int, -67500int)));
    assert(pref_limits(false, s, 12) == Some((135000int, 0int)));
    assert(pref_limits(false, s, 13) == Some((270000int, 135000int)));
    assert(pref_limits(false, s, 14) == Some((375000int, 240000int)));
    assert(pref_limits(false, s, 15) == Some((685000int, 550000int)));
    assert(pref_limits(false, s, 16) == Some((1385000int, 1250000int)));
    assert(pref_limits(false, s, 17) == Some((3035000int, 2900000int)));
    assert(pairwise_distinct(s));
    lemma_distinct_from_pairs(s);
}

#[verifier::spinoff_prover]
proof fn lemma_preferred_between_2800_and_3150(s: int)
    requires
        2800 < s <= 3150,
    ensures
        preferred_limits_distinct(s),
{
    reveal(spec_limits_nm);
    reveal_with_fuel(first_row_from, 42);
    assert(pref_limits(true, s, 0) == None::<(int, int)>);
    assert(pref_limits(true, s, 1) == None::<(int, int)>);
    assert(pref_limits(true, s, 2) == None::<(int, int)>);
    assert(pref_limits(true, s, 3) == Some((1380000int, 520000int)));
    assert(pref_limits(true, s, 4) == Some((830000int, 290000int)));
    assert(pref_limits(true, s, 5) == Some((475000int, 145000int)));
    assert(pref_limits(true, s, 6) == Some((248000int, 38000int)));
    assert(pref_limits(true, s, 7) == Some((210000int, 0int)));
    assert(pref_limits(true, s, 8) == Some((330000int, 0int)));
    assert(pref_limits(true, s, 9) == Some((540000int, 0int)));
    assert(pref_limits(true, s, 10) == Some((1350000int, 0int)));
    assert(pref_limits(true, s, 11) == Some((105000int, -105000int)));
    assert(pref_limits(true, s, 12) == Some((0int, -210000int)));
    assert(pref_limits(true, s, 13) == Some((-135000int, -345000int)));
    assert(pref_limits(true, s, 14) == Some((-240000int, -450000int)));
    assert(pref_limits(true, s, 15) == Some((-580000int, -790000int)));
    assert(pref_limits(true, s, 16) == Some((-1400000int, -1610000int)));
    assert(pref_limits(true, s, 17) == Some((-3200000int, -3410000int)));
    assert(pref_limits(false, s, 0) == None::<(int, int)>);
    assert(pref_limits(false, s, 1) == None::<(int, int)>);
    assert(pref_limits(false, s, 2) == None::<(int, int)>);
    assert(pref_limits(false, s, 3) == Some((-520000int, -1060000int)));
    assert(pref_limits(false, s, 4) == Some((-290000int, -620000int)));
    assert(pref_limits(false, s, 5) == Some((-145000int, -355000int)));
    assert(pref_limits(false, s, 6) == Some((-38000int, -173000int)));
    assert(pref_limits(false, s, 7) == Some((0int, -135000int)));
    assert(pref_limits(false, s, 8) == Some((0int, -210000int)));
    assert(pref_limits(false, s, 9) == Some((0int, -540000int)));
    assert(pref_limits(false, s, 10) == Some((0int, -1350000int)));
    assert(pref_limits(false, s, 11) == Some((67500int, -67500int)));
    assert(pref_limits(false, s, 12) == Some((135000int, 0int)));
    assert(pref_limits(false, s, 13) == Some((270000int, 135000int)));
    assert(pref_limits(false, s, 14) == Some((375000int, 240000int)));
    assert(pref_limits(false, s, 15) == Some((715000int, 580000int)));
    assert(pref_limits(false, s, 16) == Some((1535000int, 1400000int)));
    assert(pref_limits(false, s, 17) == Some((3335000int, 3200000int)));
    assert(pairwise_distinct(s));
    lemma_distinct_from_pairs(s);
}

/// No two preferred classes of one side have the same limits at any nominal size: each
/// preferred class is told apart from the others by its limits alone.
pub proof fn law_preferred_limits_distinct(s: int)
    requires
        1 <= s <= 3150,
    ensures
        preferred_limits_distinct(s),
{
    if s <= 1 {
        lemma_preferred_between_0_and_1(s);
    } else if s <= 3 {
        lemma_preferred_between_1_and_3(s);
    } else if s <= 6 {
        lemma_preferred_between_3_and_6(s);
    } else if s <= 10 {
        lemma_preferred_between_6_and_10(s);
    } else if s <= 14 {
        lemma_preferred_between_10_and_14(s);
    } else if s <= 18 {
        lemma_preferred_between_14_and_18(s);
    } else if s <= 24 {
        lemma_preferred_between_18_and_24(s);
    } else if s <= 30 {
        lemma_preferred_between_24_and_30(s);
    } else if s <= 40 {
        lemma_preferred_between_30_and_40(s);
    } else if s <= 50 {
        lemma_preferred_between_40_and_50(s);
    } else if s <= 65 {
        lemma_preferred_between_50_and_65(s);
    } else if s <= 80 {
        lemma_preferred_between_65_and_80(s);
    } else if s <= 100 {
        lemma_preferred_between_80_and_100(s);
    } else if s <= 120 {
        lemma_preferred_between_100_and_120(s);
    } else if s <= 140 {
        lemma_preferred_between_120_and_140(s);
    } else if s <= 160 {
        lemma_preferred_between_140_and_160(s);
    } else if s <= 180 {
        lemma_preferred_between_160_and_180(s);
    } else if s <= 200 {
        lemma_preferred_between_180_and_200(s);
    } else if s <= 225 {
        lemma_preferred_between_200_and_225(s);
    } else if s <= 250 {
        lemma_preferred_between_225_and_250(s);
    } else if s <= 280 {
        lemma_preferred_between_250_and_280(s);
    } else if s <= 315 {
        lemma_preferred_between_280_and_315(s);
    } else if s <= 355 {
        lemma_preferred_between_315_and_355(s);
    } else if s <= 400 {
        lemma_preferred_between_355_and_400(s);
    } else if s <= 450 {
        lemma_preferred_between_400_and_450(s);
    } else if s <= 500 {
        lemma_preferred_between_450_and_500(s);
    } else if s <= 560 {
        lemma_preferred_between_500_and_560(s);
    } else if s <= 630 {
        lemma_preferred_between_560_and_630(s);
    } else if s <= 710 {
        lemma_preferred_between_630_and_710(s);
    } else if s <= 800 {
        lemma_preferred_between_710_and_800(s);
    } else if s <= 900 {
        lemma_preferred_between_800_and_900(s);
    } else if s <= 1000 {
        lemma_preferred_between_900_and_1000(s);
    } else if s <= 1120 {
        lemma_preferred_between_1000_and_1120(s);
    } else if s <= 1250 {
        lemma_preferred_between_1120_and_1250(s);
    } else if s <= 1400 {
        lemma_preferred_between_1250_and_1400(s);
    } else if s <= 1600 {
        lemma_preferred_between_1400_and_1600(s);
    } else if s <= 1800 {
        lemma_preferred_between_1600_and_1800(s);
    } else if s <= 2000 {
        lemma_preferred_between_1800_and_2000(s);
    } else if s <= 2240 {
        lemma_preferred_between_2000_and_2240(s);
    } else if s <= 2500 {
        lemma_preferred_between_2240_and_2500(s);
    } else if s <= 2800 {
        lemma_preferred_between_2500_and_2800(s);
    } else {
        lemma_preferred_between_2800_and_3150(s);
    }
}

} // verus!
