//! Upper and lower deviations of a tolerance class from the ISO 286 tables, in nanometres.

use vstd::prelude::*;
use crate::fit::small;
use crate::tables::{
    DELTA, DEVIATIONS_A_G, DEVIATIONS_K_ZC, DEV_B, DEV_G, DEV_H, DEV_J, DEV_JS, DEV_K, DEV_M,
    DEV_N, DEV_P, DEV_ZC, LOWER_J, NUM_GRADES, STANDARD_TOLERANCE_GRADES, UPPER_J,
};

verus! {

/// The first column of a table: the upper bound of each nominal size bracket, in millimetres.
pub open spec fn bounds_of<const R: usize, const C: usize>(table: [[i32; C]; R]) -> Seq<int> {
    Seq::new(R as nat, |i: int| table[i][0] as int)
}

/// Index of the first bound from `from` on that is at least `size`, or the length of `bounds`
/// where there is none.
pub open spec fn first_row_from(bounds: Seq<int>, size: int, from: int) -> int
    decreases bounds.len() - from,
{
    if from >= bounds.len() {
        bounds.len() as int
    } else if bounds[from] >= size {
        from
    } else {
        first_row_from(bounds, size, from + 1)
    }
}

/// Index of the row whose bracket holds `size`: the first whose bound is at least `size`.
pub open spec fn first_row(bounds: Seq<int>, size: int) -> int {
    first_row_from(bounds, size, 0)
}

/// The entry of `table` in column `col` of the row that holds `size`, if there is one.
pub open spec fn cell<const R: usize, const C: usize>(
    table: [[i32; C]; R],
    size: int,
    col: int,
) -> Option<int> {
    let r = first_row(bounds_of(table), size);
    if 0 <= r < R && 0 <= col < C {
        Some(table[r][col] as int)
    } else {
        None
    }
}

/// A table entry in micrometres as nanometres, with -1 marking an entry that is not defined.
pub open spec fn um_nm(entry: Option<int>) -> Option<int> {
    match entry {
        Some(d) => if d != -1 {
            Some(d * 1000)
        } else {
            None
        },
        None => None,
    }
}

/// The standard tolerance (IT value) in nanometres, or None where the table has no entry.
pub open spec fn spec_it_nm(size: int, idx_grade: int) -> Option<int> {
    match cell(STANDARD_TOLERANCE_GRADES, size, idx_grade) {
        Some(t) => if t < 0 {
            None
        } else {
            Some(t * 100)
        },
        None => None,
    }
}

/// The increment delta in nanometres of ISO 286, defined for grades IT3 to IT8 (grade indices 5
/// to 10) up to 500 mm and zero elsewhere.
pub open spec fn spec_delta(size: int, idx_grade: int) -> int {
    if size > 500 || idx_grade < 5 || idx_grade > 10 {
        0
    } else {
        100 * DELTA[first_row(bounds_of(DELTA), size)][idx_grade - 4]
    }
}

/// The limits a deviation `d` gives a band of width `tol` that lies above it.
pub open spec fn above(d: int, tol: int) -> Option<(int, int)> {
    Some((d + tol, d))
}

/// The limits a deviation `d` gives a band of width `tol` that lies below it.
pub open spec fn below(d: int, tol: int) -> Option<(int, int)> {
    Some((d, d - tol))
}

/// ISO 286 rules for a hole: upper and lower deviation in nanometres. A to G lie above the
/// fundamental deviation of the table, H starts at zero and JS is centred on it. K to ZC mirror
/// the shaft's lower deviation ei, ES = -ei, with the increment delta added for K, M and N up to IT8
/// and for P to ZC up to IT7. K above IT8 is not defined over 3 mm, and N above IT8 has ES = 0
/// over 3 mm and is not defined up to 1 mm nor over 500 mm. M6 from 250 to 315 mm has ES = -9 um.
pub open spec fn spec_lookup_hole(size: int, tol: int, dev: int, idx_grade: int) -> Option<(int, int)> {
    if dev <= DEV_G {
        match um_nm(cell(DEVIATIONS_A_G, size, dev + 1)) {
            Some(d) => if dev <= DEV_B && size == 1 {
                None
            } else {
                above(d, tol)
            },
            None => None,
        }
    } else if dev == DEV_H {
        Some((tol, 0))
    } else if dev == DEV_JS {
        Some((tol / 2, -(tol / 2)))
    } else if dev == DEV_J {
        if 8 <= idx_grade < 11 {
            match um_nm(cell(UPPER_J, size, idx_grade - 7)) {
                Some(d) => below(d, tol),
                None => None,
            }
        } else {
            None
        }
    } else if dev <= DEV_ZC {
        match um_nm(cell(DEVIATIONS_K_ZC, size, dev - 12)) {
            Some(v) => if dev == DEV_K {
                if idx_grade > 10 && size > 3 {
                    None
                } else {
                    below(-v + spec_delta(size, idx_grade), tol)
                }
            } else if dev == DEV_M {
                let d = -v + spec_delta(size, idx_grade);
                if idx_grade == 8 && size > 250 && size <= 315 {
                    below(d + 2000, tol)
                } else {
                    below(d, tol)
                }
            } else if dev == DEV_N {
                if idx_grade > 10 {
                    if size > 500 || size <= 1 {
                        None
                    } else if size > 3 {
                        below(0, tol)
                    } else {
                        below(-v, tol)
                    }
                } else {
                    below(-v + spec_delta(size, idx_grade), tol)
                }
            } else {
                below(-v + if idx_grade < 10 { spec_delta(size, idx_grade) } else { 0 }, tol)
            },
            None => None,
        }
    } else {
        None
    }
}

/// ISO 286 rules for a shaft: upper and lower deviation in nanometres.
pub open spec fn spec_lookup_shaft(size: int, tol: int, dev: int, idx_grade: int) -> Option<(int, int)> {
    if dev <= DEV_G {
        match um_nm(cell(DEVIATIONS_A_G, size, dev + 1)) {
            Some(d) => if dev <= DEV_B && size == 1 {
                None
            } else {
                below(-d, tol)
            },
            None => None,
        }
    } else if dev == DEV_H {
        Some((0, -tol))
    } else if dev == DEV_JS {
        Some((tol / 2, -(tol / 2)))
    } else if dev == DEV_J {
        if 6 < idx_grade < 11 {
            match um_nm(
                cell(LOWER_J, size, (if idx_grade < 8 { 8 } else { idx_grade }) - 7),
            ) {
                Some(d) => above(-d, tol),
                None => None,
            }
        } else {
            None
        }
    } else if dev == DEV_K {
        if first_row(bounds_of(DEVIATIONS_K_ZC), size) >= DEVIATIONS_K_ZC.len() {
            None
        } else if 5 < idx_grade < 10 {
            match um_nm(cell(DEVIATIONS_K_ZC, size, 1)) {
                Some(d) => above(d, tol),
                None => None,
            }
        } else {
            above(0, tol)
        }
    } else if dev <= DEV_ZC {
        match um_nm(cell(DEVIATIONS_K_ZC, size, dev - 12)) {
            Some(d) => above(d, tol),
            None => None,
        }
    } else {
        None
    }
}

/// Upper and lower deviations in nanometres of a tolerance class, addressed by table index.
#[verifier::opaque]
pub open spec fn spec_limits_nm(size: int, hole: bool, dev: int, idx_grade: int) -> Option<(int, int)> {
    match spec_it_nm(size, idx_grade) {
        Some(tol) => if hole {
            spec_lookup_hole(size, tol, dev, idx_grade)
        } else {
            spec_lookup_shaft(size, tol, dev, idx_grade)
        },
        None => None,
    }
}

/// The row search stops at any bound that is at least `size`.
pub proof fn lemma_first_row_at_most(bounds: Seq<int>, size: int, from: int, j: int)
    requires
        0 <= from <= j < bounds.len(),
        bounds[j] >= size,
    ensures
        from <= first_row_from(bounds, size, from) <= j,
    decreases j - from,
{
    if bounds[from] < size {
        lemma_first_row_at_most(bounds, size, from + 1, j);
    }
}

/// Over `from` onward, a row search for `s` stops where one for `e` does when every bound
/// answers alike.
pub proof fn lemma_row_agrees(bounds: Seq<int>, s: int, e: int, from: int)
    requires
        forall|k: int| from <= k < bounds.len() ==> (bounds[k] >= s <==> bounds[k] >= e),
    ensures
        first_row_from(bounds, s, from) == first_row_from(bounds, e, from),
    decreases bounds.len() - from,
{
    if from < bounds.len() {
        lemma_row_agrees(bounds, s, e, from + 1);
    }
}

/// The row search passes over bounds below `size` and stops at one that is at least `size`.
pub proof fn lemma_first_row_spec(bounds: Seq<int>, size: int, from: int)
    requires
        0 <= from,
    ensures
        from <= first_row_from(bounds, size, from) || from >= bounds.len(),
        first_row_from(bounds, size, from) <= bounds.len() || from > bounds.len(),
        forall|k: int| from <= k < first_row_from(bounds, size, from) && k < bounds.len() ==> bounds[k] < size,
        first_row_from(bounds, size, from) < bounds.len() ==> bounds[first_row_from(bounds, size, from)] >= size,
    decreases bounds.len() - from,
{
    if from < bounds.len() && bounds[from] < size {
        lemma_first_row_spec(bounds, size, from + 1);
    }
}

/// Index of the row whose bracket holds `size`.
pub fn find_row<const R: usize, const C: usize>(table: &[[i32; C]; R], size: i32) -> (r: Option<usize>)
    requires
        C > 0,
    ensures
        r matches Some(i) ==> i == first_row(bounds_of(*table), size as int) && i < R,
        r is None ==> first_row(bounds_of(*table), size as int) == R,
{
    let mut i: usize = 0;
    while i < R
        invariant
            i <= R,
            C > 0,
            first_row(bounds_of(*table), size as int) == first_row_from(
                bounds_of(*table),
                size as int,
                i as int,
            ),
        decreases R - i,
    {
        if table[i][0] >= size {
            return Some(i);
        }
        i += 1;
    }
    None
}

/// The entry of `table` in column `col` of the row that holds `size`.
fn table_cell<const R: usize, const C: usize>(table: &[[i32; C]; R], size: i32, col: usize) -> (r: Option<i32>)
    requires
        C > 0,
    ensures
        r matches Some(v) ==> cell(*table, size as int, col as int) == Some(v as int),
        r is None ==> cell(*table, size as int, col as int) is None,
{
    match find_row(table, size) {
        Some(row) => if col < C {
            Some(table[row][col])
        } else {
            None
        },
        None => None,
    }
}

/// Convert a table micrometre value to nanometres, filtering the sentinel -1.
pub fn um_to_nm(d: i32) -> (r: Option<i64>)
    ensures
        r matches Some(v) ==> um_nm(Some(d as int)) == Some(v as int) && v == d * 1000,
        r is None <==> d == -1,
{
    if d != -1 {
        Some(d as i64 * 1000)
    } else {
        None
    }
}

/// A table entry, as nanometres.
fn cell_nm<const R: usize, const C: usize>(table: &[[i32; C]; R], size: i32, col: usize) -> (r: Option<i64>)
    requires
        C > 0,
    ensures
        r matches Some(v) ==> um_nm(cell(*table, size as int, col as int)) == Some(v as int),
        r is None ==> um_nm(cell(*table, size as int, col as int)) is None,
        r matches Some(v) ==> -1000 * 0x8000_0000 <= v <= 1000 * 0x7fff_ffff,
{
    match table_cell(table, size, col) {
        Some(d) => um_to_nm(d),
        None => None,
    }
}

/// Column in DEVIATIONS_A_G for a deviation index. +1 because column 0 is the size bracket.
pub fn col_a_g(dev: usize) -> (r: usize)
    requires
        dev <= DEV_G,
    ensures
        r == dev + 1,
{
    dev + 1
}

/// Column in DEVIATIONS_K_ZC for a deviation index. The table starts at k, which is deviation
/// index 13, in column 1.
pub fn col_k_zc(dev: usize) -> (r: usize)
    requires
        DEV_K <= dev,
    ensures
        r == dev - 12,
{
    dev - 12
}

/// Standard tolerance (the IT value) in nanometres, or None where the table has no entry.
pub fn it_nm(int_size: i32, idx_grade: usize) -> (r: Option<i64>)
    ensures
        r matches Some(t) ==> spec_it_nm(int_size as int, idx_grade as int) == Some(t as int),
        r is None ==> spec_it_nm(int_size as int, idx_grade as int) is None,
        r matches Some(t) ==> 0 <= t <= 100 * 0x7fff_ffff && t % 100 == 0,
{
    // Tolerance grades are stored in 1/10 um; convert to nanometres. -1 is the sentinel.
    let tolerance = table_cell(&STANDARD_TOLERANCE_GRADES, int_size, idx_grade)?;
    if tolerance < 0 {
        None
    } else {
        Some(tolerance as i64 * 100)
    }
}

/// The increment delta in nanometres for holes K to ZC: the table's value for grades IT3 to IT8
/// (grade indices 5 to 10) up to 500 mm, and zero elsewhere.
pub fn delta(size: i32, grade: usize) -> (r: i64)
    ensures
        r == spec_delta(size as int, grade as int),
        -100 * 0x8000_0000 <= r <= 100 * 0x7fff_ffff,
        r % 100 == 0,
{
    if size > 500 || grade < 5 || grade > 10 {
        0
    } else {
        proof {
            lemma_first_row_at_most(bounds_of(DELTA), size as int, 0, 12);
        }
        let idx = find_row(&DELTA, size).unwrap();
        100 * DELTA[idx][grade - 4] as i64
    }
}


/// Every band that the tables give is as wide as the standard tolerance of its grade, upper
/// limit above lower, with a midpoint that is a whole number of nanometres. An H hole starts at
/// the nominal size, an h shaft ends there, and a JS hole or js shaft is centred on it.
#[verifier::spinoff_prover]
#[verifier::rlimit(40)]
pub proof fn law_band_shape(size: int, hole: bool, dev: int, idx_grade: int)
    requires
        spec_limits_nm(size, hole, dev, idx_grade) is Some,
    ensures
        ({
            let (upper, lower) = spec_limits_nm(size, hole, dev, idx_grade).unwrap();
            &&& spec_it_nm(size, idx_grade) == Some(upper - lower)
            &&& lower <= upper
            &&& (upper + lower) % 2 == 0
            &&& dev == DEV_H ==> if hole { lower == 0 } else { upper == 0 }
            &&& dev == DEV_JS ==> upper == -lower
        }),
{
    reveal(spec_limits_nm);
    let t = cell(STANDARD_TOLERANCE_GRADES, size, idx_grade).unwrap();
    let tol = t * 100;
    assert(tol / 2 == t * 50);
    if size <= 500 && 5 <= idx_grade <= 10 {
        let x = DELTA[first_row(bounds_of(DELTA), size)][idx_grade - 4] as int;
        assert(spec_delta(size, idx_grade) == 100 * x);
    }
}

/// A hole A to JS, or P to ZC above IT7, is the mirror image of the shaft of the same letter
/// and grade: its upper deviation is minus the shaft's lower one, and its lower deviation minus
/// the shaft's upper one. Below IT8 the holes P to ZC, and the holes K to N, take the increment
/// delta instead, so the rule is stated only where ISO 286 gives it.
#[verifier::spinoff_prover]
pub proof fn law_hole_mirrors_shaft(size: int, dev: int, idx_grade: int)
    requires
        0 <= dev <= DEV_JS || (DEV_P <= dev <= DEV_ZC && idx_grade >= 10),
    ensures
        spec_limits_nm(size, true, dev, idx_grade) == match spec_limits_nm(size, false, dev, idx_grade) {
            Some((upper, lower)) => Some((-lower, -upper)),
            None => None,
        },
{
    reveal(spec_limits_nm);
}

/// A hole P to ZC takes its upper deviation from the shaft of the same letter and grade:
/// ES = -ei, plus the increment delta for IT7 and finer, and its lower deviation one standard
/// tolerance below that.
#[verifier::spinoff_prover]
pub proof fn law_hole_p_to_zc_from_shaft(size: int, dev: int, idx_grade: int)
    requires
        DEV_P <= dev <= DEV_ZC,
    ensures
        spec_limits_nm(size, true, dev, idx_grade) == match spec_limits_nm(size, false, dev, idx_grade) {
            Some((upper, lower)) => {
                let es = -lower + if idx_grade < 10 {
                    spec_delta(size, idx_grade)
                } else {
                    0
                };
                Some((es, es - (upper - lower)))
            },
            None => None,
        },
{
    reveal(spec_limits_nm);
}

/// A j shaft exists for IT5 to IT8 only. Its lower deviation is minus the entry of the LOWER_J
/// table in the row holding the size, read from the column of its grade: the first for IT5 and
/// IT6, the second for IT7, the third for IT8; its upper deviation lies one standard tolerance
/// above. Where the table has no entry, the class is not defined.
#[verifier::spinoff_prover]
pub proof fn law_j_shaft(size: int, it: int)
    ensures
        spec_limits_nm(size, false, DEV_J as int, it + 2) == if 5 <= it <= 8 {
            let column = if it <= 6 {
                1
            } else if it == 7 {
                2
            } else {
                3
            };
            match (spec_it_nm(size, it + 2), cell(LOWER_J, size, column)) {
                (Some(tol), Some(entry)) => if entry == -1 {
                    None
                } else {
                    Some((tol - 1000 * entry, -1000 * entry))
                },
                _ => None,
            }
        } else {
            None
        },
{
    reveal(spec_limits_nm);
}

/// A J hole exists for IT6, IT7 and IT8 only, wherever the UPPER_J table has a row for the
/// size. Its upper deviation is the entry of that row in the column of its grade, the first
/// for IT6, the second for IT7 and the third for IT8; its lower deviation lies one standard
/// tolerance below.
#[verifier::spinoff_prover]
pub proof fn law_j_hole(size: int, it: int)
    ensures
        spec_limits_nm(size, true, DEV_J as int, it + 2) == if 6 <= it <= 8 {
            match (spec_it_nm(size, it + 2), cell(UPPER_J, size, it - 5)) {
                (Some(tol), Some(entry)) => if entry == -1 {
                    None
                } else {
                    Some((1000 * entry, 1000 * entry - tol))
                },
                _ => None,
            }
        } else {
            None
        },
{
    reveal(spec_limits_nm);
}

/// The standard tolerance of grade index `g` is the entry of the STANDARD_TOLERANCE_GRADES
/// table in the row holding the size and column `g` (IT01 in the first column, IT0 in the
/// second, then IT1 to IT18), given there in tenths of a micrometre; -1 marks no value.
pub proof fn law_standard_tolerance(size: int, g: int)
    requires
        1 <= g <= NUM_GRADES,
    ensures
        spec_it_nm(size, g) == match cell(STANDARD_TOLERANCE_GRADES, size, g) {
            Some(entry) => if entry < 0 {
                None
            } else {
                Some(100 * entry)
            },
            None => None,
        },
{
}

/// The increment delta exists for IT3 to IT8 up to 500 mm, and is read from the DELTA table in
/// the row holding the size, IT3 in the first column after the bound and IT8 in the sixth,
/// in tenths of a micrometre. Elsewhere it is zero.
pub proof fn law_delta(size: int, it: int)
    ensures
        spec_delta(size, it + 2) == if 3 <= it <= 8 && size <= 500 {
            100 * DELTA[first_row(bounds_of(DELTA), size)][it - 2]
        } else {
            0
        },
{
}

/// A shaft a to g lies below the nominal size by the entry of the DEVIATIONS_A_G table for its
/// letter (a in the first column after the bound), its upper deviation minus that entry and
/// its lower one a standard tolerance further down. a and b are not defined at 1 mm.
#[verifier::spinoff_prover]
pub proof fn law_shaft_a_to_g(size: int, dev: int, g: int)
    requires
        0 <= dev <= DEV_G,
    ensures
        spec_limits_nm(size, false, dev, g) == match (spec_it_nm(size, g), cell(DEVIATIONS_A_G, size, dev + 1)) {
            (Some(tol), Some(entry)) => if entry == -1 || (dev <= 1 && size == 1) {
                None
            } else {
                Some((-1000 * entry, -1000 * entry - tol))
            },
            _ => None,
        },
{
    reveal(spec_limits_nm);
}

/// An h shaft ends at the nominal size, a js shaft is centred on it, each a standard tolerance
/// wide; an H hole starts at the nominal size and a JS hole is centred on it.
#[verifier::spinoff_prover]
pub proof fn law_h_and_js(size: int, g: int)
    ensures
        spec_limits_nm(size, false, DEV_H as int, g) == match spec_it_nm(size, g) {
            Some(tol) => Some((0int, -tol)),
            None => None,
        },
        spec_limits_nm(size, true, DEV_H as int, g) == match spec_it_nm(size, g) {
            Some(tol) => Some((tol, 0int)),
            None => None,
        },
        spec_limits_nm(size, false, DEV_JS as int, g) == match spec_it_nm(size, g) {
            Some(tol) => Some((tol / 2, -(tol / 2))),
            None => None,
        },
        spec_limits_nm(size, true, DEV_JS as int, g) == match spec_it_nm(size, g) {
            Some(tol) => Some((tol / 2, -(tol / 2))),
            None => None,
        },
{
    reveal(spec_limits_nm);
}

/// A k shaft of IT4 to IT7 lies above the nominal size by the k entry of the DEVIATIONS_K_ZC
/// table (its first column after the bound); of other grades it starts at the nominal size. It
/// is defined wherever the table has a row for the size.
#[verifier::spinoff_prover]
pub proof fn law_shaft_k(size: int, it: int)
    ensures
        spec_limits_nm(size, false, DEV_K as int, it + 2) == match (
            spec_it_nm(size, it + 2),
            cell(DEVIATIONS_K_ZC, size, 1),
        ) {
            (Some(tol), Some(entry)) => if 4 <= it <= 7 {
                if entry == -1 {
                    None
                } else {
                    Some((1000 * entry + tol, 1000 * entry))
                }
            } else {
                Some((tol, 0int))
            },
            _ => None,
        },
{
    reveal(spec_limits_nm);
    lemma_first_row_spec(bounds_of(DEVIATIONS_K_ZC), size, 0);
    assert(DEVIATIONS_K_ZC.len() == 41);
    assert(bounds_of(DEVIATIONS_K_ZC).len() == 41);
}

/// A shaft m to zc lies above the nominal size by the entry of the DEVIATIONS_K_ZC table for its
/// letter (m in the second column after the bound, zc in the fifteenth), its lower deviation
/// that entry and its upper one a standard tolerance further up.
#[verifier::spinoff_prover]
pub proof fn law_shaft_m_to_zc(size: int, dev: int, g: int)
    requires
        DEV_M <= dev <= DEV_ZC,
    ensures
        spec_limits_nm(size, false, dev, g) == match (spec_it_nm(size, g), cell(DEVIATIONS_K_ZC, size, dev - 12)) {
            (Some(tol), Some(entry)) => if entry == -1 {
                None
            } else {
                Some((1000 * entry + tol, 1000 * entry))
            },
            _ => None,
        },
{
    reveal(spec_limits_nm);
}

/// Holes K, M and N mirror the lower deviation of the shaft's table entry, ES = -entry, with the
/// increment delta added (zero outside IT3 to IT8), and lie a standard tolerance below it.
/// K above IT8 is not defined over 3 mm. M6 from 250 to 315 mm has ES raised by 2 um. N above
/// IT8 has ES = 0 over 3 mm, keeps ES = -entry up to 3 mm, and is not defined up to 1 mm nor
/// over 500 mm.
#[verifier::spinoff_prover]
pub proof fn law_holes_k_m_n(size: int, it: int)
    ensures
        spec_limits_nm(size, true, DEV_K as int, it + 2) == match (
            spec_it_nm(size, it + 2),
            cell(DEVIATIONS_K_ZC, size, 1),
        ) {
            (Some(tol), Some(entry)) => if entry == -1 || (it > 8 && size > 3) {
                None
            } else {
                let es = -1000 * entry + spec_delta(size, it + 2);
                Some((es, es - tol))
            },
            _ => None,
        },
        spec_limits_nm(size, true, DEV_M as int, it + 2) == match (
            spec_it_nm(size, it + 2),
            cell(DEVIATIONS_K_ZC, size, 2),
        ) {
            (Some(tol), Some(entry)) => if entry == -1 {
                None
            } else {
                let es = -1000 * entry + spec_delta(size, it + 2) + if it == 6 && 250 < size <= 315 {
                    2000int
                } else {
                    0int
                };
                Some((es, es - tol))
            },
            _ => None,
        },
        spec_limits_nm(size, true, DEV_N as int, it + 2) == match (
            spec_it_nm(size, it + 2),
            cell(DEVIATIONS_K_ZC, size, 3),
        ) {
            (Some(tol), Some(entry)) => if entry == -1 {
                None
            } else if it <= 8 {
                let es = -1000 * entry + spec_delta(size, it + 2);
                Some((es, es - tol))
            } else if size <= 1 || size > 500 {
                None
            } else if size > 3 {
                Some((0int, -tol))
            } else {
                Some((-1000 * entry, -1000 * entry - tol))
            },
            _ => None,
        },
{
    reveal(spec_limits_nm);
}

/// Every deviation that the tables give lies within ten kilometres of the nominal size.
#[verifier::spinoff_prover]
pub proof fn lemma_limits_small(size: int, hole: bool, dev: int, idx_grade: int)
    requires
        spec_limits_nm(size, hole, dev, idx_grade) is Some,
    ensures
        small(spec_limits_nm(size, hole, dev, idx_grade).unwrap().0),
        small(spec_limits_nm(size, hole, dev, idx_grade).unwrap().1),
{
    reveal(spec_limits_nm);
}

/// A pair of limits as mathematical integers.
pub open spec fn int_pair(r: Option<(i64, i64)>) -> Option<(int, int)> {
    match r {
        Some((u, l)) => Some((u as int, l as int)),
        None => None,
    }
}

/// ISO 286 rules for a hole, given its standard tolerance `tol` in nanometres.
pub fn lookup_hole(size: i32, tol: i64, dev: usize, idx_grade: usize) -> (r: Option<(i64, i64)>)
    requires
        0 <= tol <= 100 * 0x7fff_ffff,
    ensures
        int_pair(r) == spec_lookup_hole(size as int, tol as int, dev as int, idx_grade as int),
{
    if dev <= DEV_G {
        let deviation = cell_nm(&DEVIATIONS_A_G, size, col_a_g(dev))?;
        if dev <= DEV_B && size == 1 {
            None
        } else {
            Some((deviation + tol, deviation))
        }
    } else if dev == DEV_H {
        Some((tol, 0))
    } else if dev == DEV_JS {
        Some((tol / 2, -(tol / 2)))
    } else if dev == DEV_J {
        if 8 <= idx_grade && idx_grade < 11 {
            let deviation = cell_nm(&UPPER_J, size, idx_grade - 7)?;
            Some((deviation, deviation - tol))
        } else {
            None
        }
    } else if dev == DEV_K {
        let deviation = -cell_nm(&DEVIATIONS_K_ZC, size, col_k_zc(dev))? + delta(size, idx_grade);
        if idx_grade > 10 && size > 3 {
            None
        } else {
            Some((deviation, deviation - tol))
        }
    } else if dev == DEV_M {
        let mut deviation = -cell_nm(&DEVIATIONS_K_ZC, size, col_k_zc(dev))? + delta(size, idx_grade);
        if idx_grade == 8 && size > 250 && size <= 315 {
            deviation += 2_000;
        }
        Some((deviation, deviation - tol))
    } else if dev == DEV_N {
        let v = cell_nm(&DEVIATIONS_K_ZC, size, col_k_zc(dev))?;
        if idx_grade > 10 {
            if size > 500 || size <= 1 {
                None
            } else if size > 3 {
                Some((0, -tol))
            } else {
                Some((-v, -v - tol))
            }
        } else {
            let deviation = -v + delta(size, idx_grade);
            Some((deviation, deviation - tol))
        }
    } else if DEV_P <= dev && dev <= DEV_ZC {
        let deviation = -cell_nm(&DEVIATIONS_K_ZC, size, col_k_zc(dev))? + if idx_grade < 10 {
            delta(size, idx_grade)
        } else {
            0
        };
        Some((deviation, deviation - tol))
    } else {
        None
    }
}

/// ISO 286 rules for a shaft, given its standard tolerance `tol` in nanometres.
pub fn lookup_shaft(size: i32, tol: i64, dev: usize, idx_grade: usize) -> (r: Option<(i64, i64)>)
    requires
        0 <= tol <= 100 * 0x7fff_ffff,
    ensures
        int_pair(r) == spec_lookup_shaft(size as int, tol as int, dev as int, idx_grade as int),
{
    if dev <= DEV_G {
        let deviation = -cell_nm(&DEVIATIONS_A_G, size, col_a_g(dev))?;
        if dev <= DEV_B && size == 1 {
            None
        } else {
            Some((deviation, deviation - tol))
        }
    } else if dev == DEV_H {
        Some((0, -tol))
    } else if dev == DEV_JS {
        Some((tol / 2, -(tol / 2)))
    } else if dev == DEV_J {
        if idx_grade > 6 && idx_grade < 11 {
            let col = if idx_grade < 8 { 8 } else { idx_grade };
            let deviation = -cell_nm(&LOWER_J, size, col - 7)?;
            Some((deviation + tol, deviation))
        } else {
            None
        }
    } else if dev == DEV_K {
        let row = find_row(&DEVIATIONS_K_ZC, size)?;
        let deviation = if idx_grade > 5 && idx_grade < 10 {
            um_to_nm(DEVIATIONS_K_ZC[row][col_k_zc(dev)])?
        } else {
            0
        };
        Some((deviation + tol, deviation))
    } else if dev <= DEV_ZC {
        let deviation = cell_nm(&DEVIATIONS_K_ZC, size, col_k_zc(dev))?;
        Some((deviation + tol, deviation))
    } else {
        None
    }
}

/// Upper and lower deviations in nanometres, addressed by table index rather than by name.
pub fn limits_nm(int_size: i32, hole: bool, dev: usize, idx_grade: usize) -> (r: Option<(i64, i64)>)
    ensures
        int_pair(r) == spec_limits_nm(int_size as int, hole, dev as int, idx_grade as int),
        r matches Some((u, l)) ==> small(u as int) && small(l as int),
{
    reveal(spec_limits_nm);
    let tolerance_nm = it_nm(int_size, idx_grade)?;
    if hole {
        lookup_hole(int_size, tolerance_nm, dev, idx_grade)
    } else {
        lookup_shaft(int_size, tolerance_nm, dev, idx_grade)
    }
}

} // verus!
