//! Nominal size brackets: the ranges of size over which every table gives the same answer.

use vstd::prelude::*;
use crate::deviation::{
    bounds_of, cell, first_row, first_row_from, spec_delta, spec_it_nm, spec_limits_nm,
    spec_lookup_hole, spec_lookup_shaft, um_nm,
};
use crate::rank::{is_top_k, lemma_top_k_unique, orders};
use crate::tables::{
    DELTA, DEVIATIONS_A_G, DEVIATIONS_K_ZC, LOWER_J, MAX_SIZE, STANDARD_TOLERANCE_GRADES, UPPER_J,
};

verus! {

/// A bound of a row of some table, or the 1 mm below which a, b and N are undefined.
#[verifier::opaque]
pub open spec fn is_table_bound(b: int) -> bool {
    ||| bounds_of(STANDARD_TOLERANCE_GRADES).contains(b)
    ||| bounds_of(DEVIATIONS_A_G).contains(b)
    ||| bounds_of(DEVIATIONS_K_ZC).contains(b)
    ||| bounds_of(DELTA).contains(b)
    ||| bounds_of(UPPER_J).contains(b)
    ||| bounds_of(LOWER_J).contains(b)
    ||| b == 1
}

/// A bound that ends a nominal size bracket.
pub open spec fn is_bracket_bound(b: int) -> bool {
    is_table_bound(b) && b <= MAX_SIZE
}

/// Each element of `s` is larger than the one before it.
pub open spec fn increasing(s: Seq<int>) -> bool {
    forall|i: int, j: int| 0 <= i < j < s.len() ==> #[trigger] s[i] < #[trigger] s[j]
}

/// `s` lists the bracket bounds in increasing order.
pub open spec fn lists_bracket_bounds(s: Seq<int>) -> bool {
    &&& increasing(s)
    &&& forall|b: int|
        #![trigger s.contains(b)]
        #![trigger is_bracket_bound(b)]
        s.contains(b) <==> is_bracket_bound(b)
}

/// Every bracket bound, in increasing order.
pub open spec fn bracket_bounds() -> Seq<int> {
    choose|s: Seq<int>| lists_bracket_bounds(s)
}

/// Bracket `i` of those that the bounds `bs` give: from the previous bound, exclusive, to
/// bound `i`, inclusive.
pub open spec fn bracket_of(bs: Seq<int>, i: int) -> (int, int) {
    (if i == 0 {
        0
    } else {
        bs[i - 1]
    }, bs[i])
}

/// Bracket `i`, in millimetres.
pub open spec fn bracket(i: int) -> (int, int) {
    bracket_of(bracket_bounds(), i)
}

/// Number of brackets.
pub open spec fn num_brackets() -> int {
    bracket_bounds().len() as int
}

/// There is one increasing list of the bracket bounds.
#[verifier::spinoff_prover]
proof fn lemma_bracket_bounds_unique(s: Seq<int>)
    requires
        lists_bracket_bounds(s),
    ensures
        bracket_bounds() == s,
{
    let t = bracket_bounds();
    assert(lists_bracket_bounds(t));
    let pool = |b: int| is_bracket_bound(b);
    let lt = |a: int, b: int| a < b;
    let k = (s.len() + t.len()) as int;
    assert(orders(pool, lt));
    assert(is_top_k(s, pool, k, lt));
    assert(is_top_k(t, pool, k, lt));
    lemma_top_k_unique(s, t, pool, k, lt);
}

/// Values in increasing order.
pub open spec fn increasing32(s: Seq<i32>) -> bool {
    forall|i: int, j: int| 0 <= i < j < s.len() ==> s[i] < s[j]
}

/// `s` holds the value `b`.
pub open spec fn holds(s: Seq<i32>, b: int) -> bool {
    exists|i: int| 0 <= i < s.len() && s[i] == b
}

/// Add `x` to an increasing list of distinct values, unless it is there already.
fn insert_bound(v: &mut Vec<i32>, x: i32)
    requires
        increasing32(old(v)@),
    ensures
        increasing32(final(v)@),
        forall|b: int| #[trigger] holds(final(v)@, b) <==> holds(old(v)@, b) || b == x,
{
    let ghost s = v@;
    let mut at: usize = 0;
    while at < v.len() && v[at] < x
        invariant
            at <= v@.len(),
            s == v@,
            forall|i: int| 0 <= i < at ==> v@[i] < x,
        decreases v@.len() - at,
    {
        at += 1;
    }
    if at < v.len() && v[at] == x {
        assert forall|b: int| #[trigger] holds(s, b) <==> holds(s, b) || b == x by {
            if b == x {
                assert(s[at as int] == b);
            }
        }
        return;
    }
    v.insert(at, x);
    proof {
        let t = v@;
        assert(t =~= s.insert(at as int, x));
        assert forall|i: int, j: int| 0 <= i < j < t.len() implies t[i] < t[j] by {
            if j < at {
            } else if j == at {
            } else if i < at {
                assert(s[i] < x);
                assert(x < s[j - 1] || x == s[j - 1] || s[at as int] > x);
            } else if i == at {
                assert(s[at as int] > x);
            }
        }
        assert forall|b: int| #[trigger] holds(t, b) <==> holds(s, b) || b == x by {
            if holds(s, b) {
                let j = choose|j: int| 0 <= j < s.len() && s[j] == b;
                if j < at {
                    assert(t[j] == b);
                } else {
                    assert(t[j + 1] == b);
                }
            }
            if holds(t, b) {
                let j = choose|j: int| 0 <= j < t.len() && t[j] == b;
                if j < at {
                    assert(s[j] == b);
                } else if j > at {
                    assert(s[j - 1] == b);
                }
            }
            if b == x {
                assert(t[at as int] == b);
            }
        }
    }
}

/// Add the bounds of every row of `table` that lie within ISO 286.
fn insert_table_bounds<const R: usize, const C: usize>(v: &mut Vec<i32>, table: &[[i32; C]; R])
    requires
        C > 0,
        increasing32(old(v)@),
    ensures
        increasing32(final(v)@),
        forall|b: int|
            #[trigger] holds(final(v)@, b) <==> holds(old(v)@, b) || (bounds_of(*table).contains(b)
                && b <= MAX_SIZE),
{
    let ghost s0 = v@;
    let mut i: usize = 0;
    while i < R
        invariant
            i <= R,
            C > 0,
            increasing32(v@),
            forall|b: int|
                #[trigger] holds(v@, b) <==> holds(s0, b) || (exists|j: int|
                    0 <= j < i && #[trigger] table[j][0] == b && b <= MAX_SIZE),
        decreases R - i,
    {
        if table[i][0] <= MAX_SIZE {
            insert_bound(v, table[i][0]);
        }
        i += 1;
    }
    proof {
        assert forall|b: int|
            #[trigger] holds(v@, b) <==> holds(s0, b) || (bounds_of(*table).contains(b) && b
                <= MAX_SIZE) by {
            if bounds_of(*table).contains(b) {
                let j = choose|j: int| 0 <= j < R && bounds_of(*table)[j] == b;
                assert(table[j][0] == b);
            }
            if exists|j: int| 0 <= j < R && #[trigger] table[j][0] == b && b <= MAX_SIZE {
                let j = choose|j: int| 0 <= j < R && #[trigger] table[j][0] == b && b <= MAX_SIZE;
                assert(bounds_of(*table)[j] == b);
            }
        }
    }
}

/// Every bracket bound, in increasing order.
#[verifier::spinoff_prover]
fn all_bracket_bounds() -> (r: Vec<i32>)
    ensures
        r@.map_values(|b: i32| b as int) == bracket_bounds(),
        lists_bracket_bounds(bracket_bounds()),
{
    let mut v: Vec<i32> = Vec::new();
    insert_table_bounds(&mut v, &STANDARD_TOLERANCE_GRADES);
    insert_table_bounds(&mut v, &DEVIATIONS_A_G);
    insert_table_bounds(&mut v, &DEVIATIONS_K_ZC);
    insert_table_bounds(&mut v, &DELTA);
    insert_table_bounds(&mut v, &UPPER_J);
    insert_table_bounds(&mut v, &LOWER_J);
    // The 1 mm boundary is not a table row; it is there because a, b and N are undefined at
    // exactly 1 mm.
    insert_bound(&mut v, 1);
    proof {
        let s = v@.map_values(|b: i32| b as int);
        assert forall|b: int| #[trigger] holds(v@, b) <==> is_bracket_bound(b) by {
            reveal(is_table_bound);
        }
        assert forall|b: int| s.contains(b) <==> #[trigger] holds(v@, b) by {
            if s.contains(b) {
                let j = choose|j: int| 0 <= j < s.len() && s[j] == b;
                assert(v@[j] == b);
            }
            if holds(v@, b) {
                let j = choose|j: int| 0 <= j < v@.len() && v@[j] == b;
                assert(s[j] == b);
            }
        }
        assert(increasing(s)) by {
            assert forall|i: int, j: int| 0 <= i < j < s.len() implies #[trigger] s[i] < #[trigger] s[j] by {
                assert(v@[i] < v@[j]);
            }
        }
        assert forall|b: int| s.contains(b) <==> is_bracket_bound(b) by {
            assert(s.contains(b) <==> holds(v@, b));
            assert(holds(v@, b) <==> is_bracket_bound(b));
        }
        assert(lists_bracket_bounds(s));
        lemma_bracket_bounds_unique(s);
    }
    v
}

/// Whether bracket `b` is in scope: every bracket, or only the one holding a given size.
pub open spec fn in_scope(containing: Option<i32>, b: (int, int)) -> bool {
    match containing {
        Some(size) => b.0 < size <= b.1,
        None => true,
    }
}

// Every nominal size bracket, as exclusive lower and inclusive upper bounds in whole
// millimetres. Taking the boundaries of all the tables at once guarantees that a lookup
// anywhere inside a bracket answers for the whole of it. The 1 mm boundary is not a table
// row; it is there because a, b and N are undefined at exactly 1 mm.
//
// Passing a size narrows the result to the single bracket holding it. Alongside each bracket
// comes its index among all brackets.
#[verifier::spinoff_prover]
pub fn size_brackets(containing: Option<i32>) -> (r: (Vec<(i32, i32)>, Ghost<Seq<int>>))
    ensures
        lists_bracket_bounds(bracket_bounds()),
        r.1@.len() == r.0@.len(),
        forall|i: int|
            0 <= i < r.0@.len() ==> 0 <= #[trigger] r.1@[i] < num_brackets() && (
            r.0@[i].0 as int,
            r.0@[i].1 as int,
        ) == bracket(r.1@[i]) && in_scope(containing, bracket(r.1@[i])),
        forall|i: int, k: int| 0 <= i < k < r.1@.len() ==> r.1@[i] < r.1@[k],
        forall|j: int|
            0 <= j < num_brackets() && in_scope(containing, #[trigger] bracket(j)) ==> exists|i: int|
                0 <= i < r.1@.len() && r.1@[i] == j,
{
    let bounds = all_bracket_bounds();
    let ghost bs = bracket_bounds();
    let mut brackets: Vec<(i32, i32)> = Vec::new();
    let ghost mut idx: Seq<int> = Seq::empty();
    let mut start: i32 = 0;
    let mut i: usize = 0;
    while i < bounds.len()
        invariant
            i <= bounds@.len() == bs.len(),
            bs == bracket_bounds(),
            bounds@.map_values(|b: i32| b as int) == bs,
            start == (if i == 0 { 0 } else { bs[i - 1] }),
            idx.len() == brackets@.len(),
            forall|m: int|
                0 <= m < brackets@.len() ==> 0 <= #[trigger] idx[m] < i && (
                brackets@[m].0 as int,
                brackets@[m].1 as int,
            ) == bracket(idx[m]) && in_scope(containing, bracket(idx[m])),
            forall|m: int, k: int| 0 <= m < k < idx.len() ==> idx[m] < idx[k],
            forall|j: int|
                0 <= j < i && in_scope(containing, #[trigger] bracket(j)) ==> exists|m: int|
                    0 <= m < idx.len() && idx[m] == j,
        decreases bounds@.len() - i,
    {
        let end = bounds[i];
        assert(end == bs[i as int]);
        let keep = match containing {
            Some(size) => size > start && size <= end,
            None => true,
        };
        let ghost old_idx = idx;
        if keep {
            brackets.push((start, end));
            proof {
                idx = idx.push(i as int);
                assert(idx[idx.len() - 1] == i);
            }
        }
        proof {
            assert forall|j: int|
                0 <= j < i + 1 && in_scope(containing, #[trigger] bracket(j)) implies exists|m: int|
                    0 <= m < idx.len() && idx[m] == j by {
                if j < i {
                    let m = choose|m: int| 0 <= m < old_idx.len() && old_idx[m] == j;
                    assert(idx[m] == j);
                } else {
                    assert(bracket(j) == (start as int, end as int));
                    assert(idx[idx.len() - 1] == j);
                }
            }
        }
        start = end;
        i += 1;
    }
    (brackets, Ghost(idx))
}

/// A bracket bound lies at or beyond the end of every bracket that a size above its start
/// falls in.
#[verifier::spinoff_prover]
proof fn lemma_bound_beyond(bs: Seq<int>, j: int, s: int, m: int)
    requires
        increasing(bs),
        0 <= j < bs.len(),
        0 <= m < bs.len(),
        (if j == 0 { 0 } else { bs[j - 1] }) < s <= bs[j],
    ensures
        bs[m] >= s <==> bs[m] >= bs[j],
{
    if m < j - 1 {
        assert(bs[m] < bs[j - 1]);
    } else if m > j {
        assert(bs[j] < bs[m]);
    }
}

/// A table bound lies at or beyond the end of every bracket that a size above the bracket's
/// start falls in.
#[verifier::spinoff_prover]
proof fn lemma_table_bound_beyond(j: int, s: int, b: int)
    requires
        lists_bracket_bounds(bracket_bounds()),
        0 <= j < num_brackets(),
        bracket(j).0 < s <= bracket(j).1,
        is_table_bound(b),
    ensures
        b >= s <==> b >= bracket(j).1,
{
    let bs = bracket_bounds();
    assert(bs.contains(bs[j]));
    assert(is_bracket_bound(bs[j]));
    if b <= MAX_SIZE {
        assert(is_bracket_bound(b));
        assert(bs.contains(b));
        let m = choose|m: int| 0 <= m < bs.len() && bs[m] == b;
        lemma_bound_beyond(bs, j, s, m);
    }
}

/// A table picks the same row for a size anywhere within a bracket as for its upper bound.
#[verifier::spinoff_prover]
proof fn lemma_same_row<const R: usize, const C: usize>(table: [[i32; C]; R], j: int, s: int)
    requires
        lists_bracket_bounds(bracket_bounds()),
        0 <= j < num_brackets(),
        bracket(j).0 < s <= bracket(j).1,
        forall|k: int| 0 <= k < R ==> is_table_bound(#[trigger] bounds_of(table)[k]),
    ensures
        first_row(bounds_of(table), s) == first_row(bounds_of(table), bracket(j).1),
{
    assert forall|k: int| 0 <= k < bounds_of(table).len() implies (bounds_of(table)[k] >= s
        <==> bounds_of(table)[k] >= bracket(j).1) by {
        lemma_table_bound_beyond(j, s, bounds_of(table)[k]);
    }
    crate::deviation::lemma_row_agrees(bounds_of(table), s, bracket(j).1, 0);
}

/// Every row of each table is bounded by a table bound.
#[verifier::spinoff_prover]
pub proof fn lemma_rows_are_table_bounds()
    ensures
        forall|k: int|
            0 <= k < 21 ==> is_table_bound(#[trigger] bounds_of(STANDARD_TOLERANCE_GRADES)[k]),
        forall|k: int| 0 <= k < 41 ==> is_table_bound(#[trigger] bounds_of(DEVIATIONS_A_G)[k]),
        forall|k: int| 0 <= k < 41 ==> is_table_bound(#[trigger] bounds_of(DEVIATIONS_K_ZC)[k]),
        forall|k: int| 0 <= k < 13 ==> is_table_bound(#[trigger] bounds_of(DELTA)[k]),
        forall|k: int| 0 <= k < 13 ==> is_table_bound(#[trigger] bounds_of(UPPER_J)[k]),
        forall|k: int| 0 <= k < 13 ==> is_table_bound(#[trigger] bounds_of(LOWER_J)[k]),
        is_table_bound(1),
        is_table_bound(3),
        is_table_bound(250),
        is_table_bound(315),
        is_table_bound(500),
{
    reveal(is_table_bound);
    assert forall|k: int| 0 <= k < 21 implies is_table_bound(
        #[trigger] bounds_of(STANDARD_TOLERANCE_GRADES)[k],
    ) by {
        assert(bounds_of(STANDARD_TOLERANCE_GRADES).contains(bounds_of(STANDARD_TOLERANCE_GRADES)[k]));
    }
    assert forall|k: int| 0 <= k < 41 implies is_table_bound(#[trigger] bounds_of(DEVIATIONS_A_G)[k]) by {
        assert(bounds_of(DEVIATIONS_A_G).contains(bounds_of(DEVIATIONS_A_G)[k]));
    }
    assert forall|k: int| 0 <= k < 41 implies is_table_bound(#[trigger] bounds_of(DEVIATIONS_K_ZC)[k]) by {
        assert(bounds_of(DEVIATIONS_K_ZC).contains(bounds_of(DEVIATIONS_K_ZC)[k]));
    }
    assert forall|k: int| 0 <= k < 13 implies is_table_bound(#[trigger] bounds_of(DELTA)[k]) by {
        assert(bounds_of(DELTA).contains(bounds_of(DELTA)[k]));
    }
    assert forall|k: int| 0 <= k < 13 implies is_table_bound(#[trigger] bounds_of(UPPER_J)[k]) by {
        assert(bounds_of(UPPER_J).contains(bounds_of(UPPER_J)[k]));
    }
    assert forall|k: int| 0 <= k < 13 implies is_table_bound(#[trigger] bounds_of(LOWER_J)[k]) by {
        assert(bounds_of(LOWER_J).contains(bounds_of(LOWER_J)[k]));
    }
    assert(bounds_of(STANDARD_TOLERANCE_GRADES)[0] == 3);
    assert(bounds_of(STANDARD_TOLERANCE_GRADES)[9] == 250);
    assert(bounds_of(STANDARD_TOLERANCE_GRADES)[10] == 315);
    assert(bounds_of(STANDARD_TOLERANCE_GRADES)[12] == 500);
}

/// Every tolerance class gives the same limits, and every grade the same standard tolerance,
/// anywhere within a bracket as at its upper bound: a lookup at the bound answers for every
/// nominal size in the bracket.
#[verifier::spinoff_prover]
pub proof fn law_limits_constant_in_bracket(j: int, s: int, hole: bool, dev: int, idx_grade: int)
    requires
        lists_bracket_bounds(bracket_bounds()),
        0 <= j < num_brackets(),
        bracket(j).0 < s <= bracket(j).1,
        1 <= s,
    ensures
        spec_limits_nm(s, hole, dev, idx_grade) == spec_limits_nm(bracket(j).1, hole, dev, idx_grade),
        spec_it_nm(s, idx_grade) == spec_it_nm(bracket(j).1, idx_grade),
{
    let e = bracket(j).1;
    lemma_rows_are_table_bounds();
    lemma_same_row(STANDARD_TOLERANCE_GRADES, j, s);
    lemma_same_row(DEVIATIONS_A_G, j, s);
    lemma_same_row(DEVIATIONS_K_ZC, j, s);
    lemma_same_row(DELTA, j, s);
    lemma_same_row(UPPER_J, j, s);
    lemma_same_row(LOWER_J, j, s);
    // The sizes at which the rules change are bracket bounds too.
    lemma_table_bound_beyond(j, s, 1);
    lemma_table_bound_beyond(j, s, 3);
    lemma_table_bound_beyond(j, s, 250);
    lemma_table_bound_beyond(j, s, 315);
    lemma_table_bound_beyond(j, s, 500);
    reveal(spec_limits_nm);
}

/// Every table bound is a whole millimetre from 1 on.
#[verifier::spinoff_prover]
pub proof fn lemma_table_bounds_positive(b: int)
    requires
        is_table_bound(b),
    ensures
        b >= 1,
{
    reveal(is_table_bound);
    assert(forall|k: int| 0 <= k < 21 ==> #[trigger] STANDARD_TOLERANCE_GRADES[k][0] >= 1);
    assert(forall|k: int| 0 <= k < 41 ==> #[trigger] DEVIATIONS_A_G[k][0] >= 1);
    assert(forall|k: int| 0 <= k < 41 ==> #[trigger] DEVIATIONS_K_ZC[k][0] >= 1);
    assert(forall|k: int| 0 <= k < 13 ==> #[trigger] DELTA[k][0] >= 1);
    assert(forall|k: int| 0 <= k < 13 ==> #[trigger] UPPER_J[k][0] >= 1);
    assert(forall|k: int| 0 <= k < 13 ==> #[trigger] LOWER_J[k][0] >= 1);
}

/// Every size from 1 to 3150 mm falls in a bracket.
#[verifier::spinoff_prover]
pub proof fn lemma_bracket_containing(x: int)
    requires
        lists_bracket_bounds(bracket_bounds()),
        1 <= x <= MAX_SIZE,
    ensures
        exists|j: int| 0 <= j < num_brackets() && #[trigger] bracket(j).0 < x <= bracket(j).1,
{
    let bs = bracket_bounds();
    lemma_rows_are_table_bounds();
    assert(bounds_of(STANDARD_TOLERANCE_GRADES)[20] == 3150);
    assert(is_bracket_bound(3150));
    assert(bs.contains(3150));
    let m = choose|m: int| 0 <= m < bs.len() && bs[m] == 3150;
    crate::deviation::lemma_first_row_at_most(bs, x, 0, m);
    crate::deviation::lemma_first_row_spec(bs, x, 0);
    let j = first_row(bs, x);
    assert(bracket(j).0 < x <= bracket(j).1) by {
        if j > 0 {
            assert(bs[j - 1] < x);
        }
    }
}

} // verus!
