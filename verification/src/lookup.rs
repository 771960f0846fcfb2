//! Tolerance limits, preferred classes and the closest classes to a wanted tolerance, for
//! nominal sizes and deviations given in nanometres.

use vstd::prelude::*;
use crate::fit::{band_error, small, spec_band_error};
use crate::rank::{is_top_k, keep_first, lemma_top_k_insert, lemma_top_k_unique, orders, with};
use crate::closest::{
    closer, closest_candidates, lemma_class_is_candidate, lemma_free_matches_held, lemma_head_is_closest,
    lemma_pool_member, lemma_pool_member_applies, pool, Candidate, Search,
};
use crate::rank::lemma_top_k_prefix;
use crate::bracket::{bracket_bounds, lists_bracket_bounds};
use crate::class::{class_indices, class_name, class_of, class_spelling};
use crate::deviation::{int_pair, limits_nm, spec_limits_nm};
use crate::tables::{
    deviation_letters, grade_name, grade_str, hole_letter_str, hole_letters, preferred, DEV_H, DEV_JS,
    shaft_letter_str, HOLE_PREFERRED, MAX_SIZE, NUM_DEVIATIONS, NUM_GRADES, NUM_PREFERRED,
    SHAFT_PREFERRED,
};

verus! {

/// Nanometres in a millimetre.
pub const NM_PER_MM: i64 = 1_000_000;

/// Largest nominal size covered, in nanometres.
pub const MAX_SIZE_NM: i64 = 3_150_000_000;

/// Which side of a fit a tolerance applies to.
#[derive(Debug, Clone, Copy, PartialEq, Eq, Structural)]
pub enum Feature {
    /// An internal feature, taking an upper case class such as `"H7"`.
    Hole,
    /// An external feature, taking a lower case class such as `"h7"`.
    Shaft,
}

impl Feature {
    pub fn is_hole(self) -> (r: bool)
        ensures
            r == (self is Hole),
    {
        match self {
            Feature::Hole => true,
            Feature::Shaft => false,
        }
    }
}

/// Half of `x`, rounded toward zero.
pub open spec fn half(x: int) -> int {
    if x >= 0 {
        x / 2
    } else {
        -((-x) / 2)
    }
}

/// Upper and lower deviation of a tolerance, and their midpoint, in nanometres.
#[derive(Debug, Clone, Copy, PartialEq, Eq)]
pub struct Tolerance {
    pub upper: i64,
    pub middle: i64,
    pub lower: i64,
}

/// A tolerance with these limits.
pub open spec fn tolerance_of(upper: int, lower: int) -> (int, int, int) {
    (upper, half(upper + lower), lower)
}

impl Tolerance {
    pub open spec fn view(&self) -> (int, int, int) {
        (self.upper as int, self.middle as int, self.lower as int)
    }

    pub fn from_int(upper_nm: i64, lower_nm: i64) -> (r: Self)
        requires
            -4_000_000_000_000_000_000 <= upper_nm <= 4_000_000_000_000_000_000,
            -4_000_000_000_000_000_000 <= lower_nm <= 4_000_000_000_000_000_000,
        ensures
            r.view() == tolerance_of(upper_nm as int, lower_nm as int),
    {
        Tolerance { upper: upper_nm, middle: (upper_nm + lower_nm) / 2, lower: lower_nm }
    }
}

/// One tolerance class, and the nominal size it was matched at, all in nanometres.
#[derive(Debug, Clone, PartialEq)]
pub struct Match {
    /// Nominal size. Equal to the size supplied under a strict search.
    pub size: i64,
    /// Tolerance class, e.g. `"H7"`.
    pub class: String,
    /// Upper deviation, as `limits` would report it.
    pub upper: i64,
    /// Midpoint of the two deviations.
    pub middle: i64,
    /// Lower deviation, as `limits` would report it.
    pub lower: i64,
    /// Distance from the wanted tolerance, doubled: the differences in upper limit, lower
    /// limit and midpoint, added together, times two. Zero is an exact match.
    pub error: i128,
}

/// What a match says: nominal size, class name, upper, middle and lower deviation, and
/// doubled error.
pub open spec fn match_of(size: int, class: Seq<char>, limits: (int, int), error: int) -> (
    int,
    Seq<char>,
    int,
    int,
    int,
    int,
) {
    (size, class, limits.0, half(limits.0 + limits.1), limits.1, error)
}

impl Match {
    pub open spec fn view(&self) -> (int, Seq<char>, int, int, int, int) {
        (
            self.size as int,
            self.class@,
            self.upper as int,
            self.middle as int,
            self.lower as int,
            self.error as int,
        )
    }

    /// The deviations as a [`Tolerance`], matching what [`limits`] returns for this class at
    /// this size.
    pub fn tolerance(&self) -> (r: Tolerance)
        ensures
            r.upper == self.upper,
            r.middle == self.middle,
            r.lower == self.lower,
    {
        Tolerance { upper: self.upper, middle: self.middle, lower: self.lower }
    }

    // Build from the integer limits and doubled nanometre error the search holds.
    pub fn from_int(size: i64, class: String, limits: (i64, i64), error: i128) -> (r: Self)
        requires
            -4_000_000_000_000_000_000 <= limits.0 <= 4_000_000_000_000_000_000,
            -4_000_000_000_000_000_000 <= limits.1 <= 4_000_000_000_000_000_000,
        ensures
            r.view() == match_of(size as int, class@, (limits.0 as int, limits.1 as int), error as int),
    {
        let tolerance = Tolerance::from_int(limits.0, limits.1);
        Match {
            size,
            class,
            upper: tolerance.upper,
            middle: tolerance.middle,
            lower: tolerance.lower,
            error,
        }
    }
}

#[derive(Debug, Clone, PartialEq)]
pub enum Error {
    InvalidToleranceClass(String),
    /// The nominal size, in nanometres.
    SizeOutOfRange(i64),
    /// The nominal size is in nanometres.
    UnsupportedCombination { tolerance_class: String, size: i64 },
    InvalidPrecision(usize),
}

/// A nominal size within ISO 286: above zero, up to 3150 mm.
pub open spec fn size_in_range(size_nm: int) -> bool {
    0 < size_nm <= MAX_SIZE_NM
}

/// The whole millimetre a nominal size rounds up to, which picks its row in the tables.
pub open spec fn ceil_mm(size_nm: int) -> int {
    (size_nm + 999_999) / 1_000_000
}

// Validate a nominal size and reduce it to the integer used for bracket lookups.
// Brackets are upper bound inclusive, so a size of 10.1 mm falls in the "over 10 to 18" row.
pub fn checked_size(size_nm: i64) -> (r: Result<i32, Error>)
    ensures
        size_in_range(size_nm as int) ==> r == Ok::<i32, Error>(ceil_mm(size_nm as int) as i32),
        !size_in_range(size_nm as int) ==> r == Err::<i32, Error>(Error::SizeOutOfRange(size_nm)),
        r matches Ok(s) ==> 1 <= s <= MAX_SIZE,
{
    if size_nm <= 0 || size_nm > MAX_SIZE_NM {
        return Err(Error::SizeOutOfRange(size_nm));
    }
    let int_size = (size_nm + 999_999) / NM_PER_MM;
    Ok(int_size as i32)
}

/// Whole millimetres to nanometres.
pub fn nm(d: i32) -> (r: i64)
    ensures
        r == d as int * 1_000_000,
{
    d as i64 * NM_PER_MM
}

/// The limits that `size_nm` and `class` give, when the size is in range, the class is named
/// and the tables define it there.
pub open spec fn spec_class_limits(size_nm: int, class: Seq<char>) -> Option<(int, int)> {
    match class_of(class) {
        Some((hole, dev, grade)) => if size_in_range(size_nm) {
            spec_limits_nm(ceil_mm(size_nm), hole, dev, grade)
        } else {
            None
        },
        None => None,
    }
}

/// The error for an unsupported combination of a class and a size.
pub open spec fn is_unsupported(e: Error, class: Seq<char>, size_nm: int) -> bool {
    e matches Error::UnsupportedCombination { tolerance_class, size } && tolerance_class@ == class
        && size == size_nm
}

/// The error for a name that is no tolerance class.
pub open spec fn is_invalid_class(e: Error, class: Seq<char>) -> bool {
    e matches Error::InvalidToleranceClass(t) && t@ == class
}

/// Compute ISO 286 tolerance limits for a given nominal size and tolerance class.
///
/// `size_nm` is the nominal dimension in nanometres. `tolerance_class` is the standard
/// notation, e.g. `"H7"`, `"g6"`, `"js4"`.
///
/// Returns upper and lower deviations in nanometres.
pub fn limits(size_nm: i64, tolerance_class: &str) -> (r: Result<Tolerance, Error>)
    ensures
        !size_in_range(size_nm as int) ==> r == Err::<Tolerance, Error>(
            Error::SizeOutOfRange(size_nm),
        ),
        size_in_range(size_nm as int) && class_of(tolerance_class@) is None ==> (r matches Err(e)
            && is_invalid_class(e, tolerance_class@)),
        size_in_range(size_nm as int) && class_of(tolerance_class@) is Some && spec_class_limits(
            size_nm as int,
            tolerance_class@,
        ) is None ==> (r matches Err(e) && is_unsupported(e, tolerance_class@, size_nm as int)),
        spec_class_limits(size_nm as int, tolerance_class@) matches Some((u, l)) ==> (r matches Ok(
            t,
        ) && t.view() == tolerance_of(u, l)),
{
    let int_size = checked_size(size_nm)?;
    let (hole, dev, idx_grade) = class_indices(tolerance_class)?;
    match limits_nm(int_size, hole, dev, idx_grade) {
        Some((upper, lower)) => Ok(Tolerance::from_int(upper, lower)),
        None => Err(
            Error::UnsupportedCombination {
                tolerance_class: tolerance_class.to_owned(),
                size: size_nm,
            },
        ),
    }
}


/// Every tolerance that `limits` reports has its upper deviation at or above its midpoint and
/// its midpoint at or above its lower deviation. An H hole has a lower deviation of zero, an h
/// shaft an upper deviation of zero, and a JS hole or js shaft is symmetric about the nominal
/// size, with its midpoint on it.
pub proof fn law_tolerance_shape(size_nm: int, class: Seq<char>)
    requires
        spec_class_limits(size_nm, class) is Some,
    ensures
        ({
            let (upper, lower) = spec_class_limits(size_nm, class).unwrap();
            let (hole, dev, _grade) = class_of(class).unwrap();
            let t = tolerance_of(upper, lower);
            &&& t.2 <= t.1 <= t.0
            &&& dev == DEV_H && hole ==> lower == 0
            &&& dev == DEV_H && !hole ==> upper == 0
            &&& dev == DEV_JS ==> upper == -lower && t.1 == 0
        }),
{
    let (hole, dev, grade) = class_of(class).unwrap();
    crate::deviation::law_band_shape(ceil_mm(size_nm), hole, dev, grade);
}

/// Two nominal sizes that round up to the same whole millimetre give every class the same
/// limits: 10.001 mm reads the same row as 11 mm, and 9.999 mm the same as 10 mm.
pub proof fn law_limits_follow_the_whole_millimetre(a: int, b: int, class: Seq<char>)
    requires
        size_in_range(a),
        size_in_range(b),
        ceil_mm(a) == ceil_mm(b),
    ensures
        spec_class_limits(a, class) == spec_class_limits(b, class),
{
}

/// Available IT grade designations.
pub fn grades() -> (r: Vec<String>)
    ensures
        r@.len() == NUM_GRADES,
        forall|i: int| 0 <= i < NUM_GRADES ==> (#[trigger] r@[i])@ == grade_name(i + 1),
{
    let mut r: Vec<String> = Vec::new();
    let mut g: usize = 1;
    while g <= NUM_GRADES
        invariant
            1 <= g <= NUM_GRADES + 1,
            r@.len() == g - 1,
            forall|i: int| 0 <= i < g - 1 ==> (#[trigger] r@[i])@ == grade_name(i + 1),
        decreases NUM_GRADES + 1 - g,
    {
        r.push(String::from_str(grade_str(g)));
        g += 1;
    }
    r
}

/// Available hole deviation letters (uppercase).
pub fn hole_deviations() -> (r: Vec<String>)
    ensures
        r@.len() == NUM_DEVIATIONS,
        forall|i: int| 0 <= i < NUM_DEVIATIONS ==> (#[trigger] r@[i])@ == hole_letters(i),
{
    let mut r: Vec<String> = Vec::new();
    let mut d: usize = 0;
    while d < NUM_DEVIATIONS
        invariant
            d <= NUM_DEVIATIONS,
            r@.len() == d,
            forall|i: int| 0 <= i < d ==> (#[trigger] r@[i])@ == hole_letters(i),
        decreases NUM_DEVIATIONS - d,
    {
        r.push(String::from_str(hole_letter_str(d)));
        d += 1;
    }
    r
}

/// Available shaft deviation letters (lowercase).
pub fn shaft_deviations() -> (r: Vec<String>)
    ensures
        r@.len() == NUM_DEVIATIONS,
        forall|i: int| 0 <= i < NUM_DEVIATIONS ==> (#[trigger] r@[i])@ == deviation_letters(i),
{
    let mut r: Vec<String> = Vec::new();
    let mut d: usize = 0;
    while d < NUM_DEVIATIONS
        invariant
            d <= NUM_DEVIATIONS,
            r@.len() == d,
            forall|i: int| 0 <= i < d ==> (#[trigger] r@[i])@ == deviation_letters(i),
        decreases NUM_DEVIATIONS - d,
    {
        r.push(String::from_str(shaft_letter_str(d)));
        d += 1;
    }
    r
}

// The preferred classes as table indices, so that membership can be tested inside the
// search without building a class name for every candidate.
pub fn preferred_indices(hole: bool) -> (r: Vec<(usize, usize)>)
    ensures
        r@ == preferred(hole),
{
    let table = if hole {
        &HOLE_PREFERRED
    } else {
        &SHAFT_PREFERRED
    };
    let mut r: Vec<(usize, usize)> = Vec::new();
    let mut p: usize = 0;
    while p < NUM_PREFERRED
        invariant
            p <= NUM_PREFERRED,
            table@ == preferred(hole),
            r@ == preferred(hole).take(p as int),
        decreases NUM_PREFERRED - p,
    {
        r.push(table[p]);
        p += 1;
        assert(r@ =~= preferred(hole).take(p as int));
    }
    assert(r@ =~= preferred(hole));
    r
}

/// The names of the preferred classes of one side.
fn preferred_names(hole: bool) -> (r: Vec<String>)
    ensures
        r@.len() == NUM_PREFERRED,
        forall|p: int|
            0 <= p < NUM_PREFERRED ==> (#[trigger] r@[p])@ == class_spelling(
                hole,
                preferred(hole)[p].0 as int,
                preferred(hole)[p].1 as int,
            ),
{
    proof {
        crate::tables::lemma_preferred_valid(hole);
    }
    let indices = preferred_indices(hole);
    let mut r: Vec<String> = Vec::new();
    let mut p: usize = 0;
    while p < NUM_PREFERRED
        invariant
            p <= NUM_PREFERRED,
            indices@ == preferred(hole),
            preferred(hole).len() == NUM_PREFERRED,
            forall|q: int|
                0 <= q < NUM_PREFERRED ==> (#[trigger] preferred(hole)[q]).0 < NUM_DEVIATIONS && 1
                    <= preferred(hole)[q].1 <= NUM_GRADES,
            r@.len() == p,
            forall|q: int|
                0 <= q < p ==> (#[trigger] r@[q])@ == class_spelling(
                    hole,
                    preferred(hole)[q].0 as int,
                    preferred(hole)[q].1 as int,
                ),
        decreases NUM_PREFERRED - p,
    {
        let (dev, idx_grade) = indices[p];
        r.push(class_name(hole, dev, idx_grade));
        p += 1;
    }
    r
}

/// Preferred hole tolerance classes.
pub fn hole_preferred_tolerances() -> (r: Vec<String>)
    ensures
        r@.len() == NUM_PREFERRED,
        forall|p: int|
            0 <= p < NUM_PREFERRED ==> (#[trigger] r@[p])@ == class_spelling(
                true,
                HOLE_PREFERRED[p].0 as int,
                HOLE_PREFERRED[p].1 as int,
            ),
{
    preferred_names(true)
}

/// Preferred shaft tolerance classes.
pub fn shaft_preferred_tolerances() -> (r: Vec<String>)
    ensures
        r@.len() == NUM_PREFERRED,
        forall|p: int|
            0 <= p < NUM_PREFERRED ==> (#[trigger] r@[p])@ == class_spelling(
                false,
                SHAFT_PREFERRED[p].0 as int,
                SHAFT_PREFERRED[p].1 as int,
            ),
{
    preferred_names(false)
}


/// The limits of preferred class `p` of one side at a table size.
pub open spec fn pref_limits(hole: bool, int_size: int, p: int) -> Option<(int, int)> {
    spec_limits_nm(int_size, hole, preferred(hole)[p].0 as int, preferred(hole)[p].1 as int)
}

/// How far preferred class `p` sits from `target`.
pub open spec fn pref_error(hole: bool, int_size: int, target: (int, int), p: int) -> int {
    spec_band_error(pref_limits(hole, int_size, p).unwrap(), target)
}

/// The preferred classes among the first `n` that the tables define at a table size.
pub open spec fn pref_pool(hole: bool, int_size: int, n: int) -> spec_fn(int) -> bool {
    |p: int| 0 <= p < n && pref_limits(hole, int_size, p) is Some
}

/// Closer to `target` first, and of equally close classes the one listed first.
pub open spec fn pref_lt(hole: bool, int_size: int, target: (int, int)) -> spec_fn(int, int) -> bool {
    |a: int, b: int|
        pref_error(hole, int_size, target, a) < pref_error(hole, int_size, target, b) || (
        pref_error(hole, int_size, target, a) == pref_error(hole, int_size, target, b) && a < b)
}

/// `ps` ranks every preferred class of the side that the tables define at the size, closest
/// to `target` first.
pub open spec fn is_preferred_ranking(hole: bool, int_size: int, target: (int, int), ps: Seq<int>) -> bool {
    is_top_k(ps, pref_pool(hole, int_size, NUM_PREFERRED as int), NUM_PREFERRED as int, pref_lt(hole, int_size, target))
}

/// The matches that `list_preferred` reports for a ranking of preferred classes.
pub open spec fn preferred_matches(
    size_nm: int,
    hole: bool,
    int_size: int,
    target: (int, int),
    ps: Seq<int>,
) -> Seq<(int, Seq<char>, int, int, int, int)> {
    ps.map_values(
        |p: int|
            match_of(
                size_nm,
                class_spelling(hole, preferred(hole)[p].0 as int, preferred(hole)[p].1 as int),
                pref_limits(hole, int_size, p).unwrap(),
                pref_error(hole, int_size, target, p),
            ),
    )
}

/// What each match of `v` says.
pub open spec fn views(v: Seq<Match>) -> Seq<(int, Seq<char>, int, int, int, int)> {
    v.map_values(|m: Match| m.view())
}

proof fn lemma_pref_orders(hole: bool, int_size: int, target: (int, int), n: int)
    ensures
        orders(pref_pool(hole, int_size, n), pref_lt(hole, int_size, target)),
{
}

/// Of two rankings of the preferred classes, neither can differ: `find_preferred` reports
/// the head of what `list_preferred` reports.
pub proof fn law_preferred_ranking_unique(
    hole: bool,
    int_size: int,
    target: (int, int),
    ps1: Seq<int>,
    ps2: Seq<int>,
)
    requires
        is_preferred_ranking(hole, int_size, target, ps1),
        is_preferred_ranking(hole, int_size, target, ps2),
    ensures
        ps1 == ps2,
{
    lemma_pref_orders(hole, int_size, target, NUM_PREFERRED as int);
    lemma_top_k_unique(
        ps1,
        ps2,
        pref_pool(hole, int_size, NUM_PREFERRED as int),
        NUM_PREFERRED as int,
        pref_lt(hole, int_size, target),
    );
}

/// What `list_preferred` promises of a successful result.
pub open spec fn lists_preferred(size_nm: int, class: Seq<char>, v: Seq<Match>) -> bool {
    let (hole, _dev, _grade) = class_of(class).unwrap();
    let int_size = ceil_mm(size_nm);
    let target = spec_class_limits(size_nm, class).unwrap();
    exists|ps: Seq<int>|
        #[trigger] is_preferred_ranking(hole, int_size, target, ps) && ps.len() > 0 && views(v)
            == preferred_matches(size_nm, hole, int_size, target, ps)
}

/// A scored preferred class: its error, its position in the list, and its limits.
pub type Scored = (i128, usize, (i64, i64));

/// The positions of scored classes, in order.
pub open spec fn positions(scored: Seq<Scored>) -> Seq<int> {
    scored.map_values(|t: Scored| t.1 as int)
}

/// Each scored class carries its own error and limits.
pub open spec fn scored_well(hole: bool, int_size: int, target: (int, int), scored: Seq<Scored>) -> bool {
    forall|i: int|
        0 <= i < scored.len() ==> #[trigger] scored[i].0 == pref_error(
            hole,
            int_size,
            target,
            scored[i].1 as int,
        ) && int_pair(Some(scored[i].2)) == pref_limits(hole, int_size, scored[i].1 as int)
            && scored[i].1 < NUM_PREFERRED && small(scored[i].2.0 as int) && small(
            scored[i].2.1 as int,
        )
}

/// Slot a scored class in after every class that scores no worse.
#[verifier::spinoff_prover]
fn insert_scored(
    scored: &mut Vec<Scored>,
    entry: Scored,
    Ghost(hole): Ghost<bool>,
    Ghost(int_size): Ghost<int>,
    Ghost(target): Ghost<(int, int)>,
)
    requires
        entry.1 < NUM_PREFERRED,
        positions(old(scored)@).len() <= entry.1,
        is_top_k(
            positions(old(scored)@),
            pref_pool(hole, int_size, entry.1 as int),
            NUM_PREFERRED as int,
            pref_lt(hole, int_size, target),
        ),
        scored_well(hole, int_size, target, old(scored)@),
        int_pair(Some(entry.2)) == pref_limits(hole, int_size, entry.1 as int),
        entry.0 == pref_error(hole, int_size, target, entry.1 as int),
        small(entry.2.0 as int),
        small(entry.2.1 as int),
    ensures
        positions(final(scored)@).len() == positions(old(scored)@).len() + 1,
        is_top_k(
            positions(final(scored)@),
            pref_pool(hole, int_size, entry.1 + 1),
            NUM_PREFERRED as int,
            pref_lt(hole, int_size, target),
        ),
        scored_well(hole, int_size, target, final(scored)@),
{
    let ghost ps = positions(scored@);
    let ghost lt = pref_lt(hole, int_size, target);
    let ghost p = entry.1 as int;
    let mut at: usize = 0;
    while at < scored.len() && scored[at].0 <= entry.0
        invariant
            at <= scored@.len(),
            forall|i: int| 0 <= i < at ==> #[trigger] scored@[i].0 <= entry.0,
        decreases scored@.len() - at,
    {
        at += 1;
    }
    proof {
        lemma_pref_orders(hole, int_size, target, p + 1);
        assert forall|i: int| 0 <= i < at implies #[trigger] lt(ps[i], p) by {
            assert(scored@[i].0 <= entry.0);
            assert(pref_pool(hole, int_size, p)(ps[i]));
        }
        assert forall|i: int| at <= i < ps.len() implies #[trigger] lt(p, ps[i]) by {
            if i > at {
                assert(lt(ps[at as int], ps[i]));
            }
            assert(scored@[at as int].0 > entry.0);
        }
        assert(pref_pool(hole, int_size, p + 1) =~= with(pref_pool(hole, int_size, p), p));
        lemma_top_k_insert(ps, pref_pool(hole, int_size, p), NUM_PREFERRED as int, lt, p, at as int);
        assert(keep_first(ps.insert(at as int, p), NUM_PREFERRED as int) == ps.insert(at as int, p));
    }
    scored.insert(at, entry);
    proof {
        assert(positions(scored@) =~= ps.insert(at as int, p));
    }
}

/// Score the preferred classes of one side that apply at a table size against `target`,
/// closest first.
fn rank_preferred(int_size: i32, hole: bool, target: (i64, i64)) -> (scored: Vec<Scored>)
    requires
        small(target.0 as int),
        small(target.1 as int),
    ensures
        is_preferred_ranking(hole, int_size as int, (target.0 as int, target.1 as int), positions(scored@)),
        scored_well(hole, int_size as int, (target.0 as int, target.1 as int), scored@),
{
    let ghost gtarget = (target.0 as int, target.1 as int);
    proof {
        crate::tables::lemma_preferred_valid(hole);
    }
    let preferred_classes = preferred_indices(hole);
    let mut scored: Vec<Scored> = Vec::new();
    let mut p: usize = 0;
    while p < NUM_PREFERRED
        invariant
            p <= NUM_PREFERRED,
            preferred_classes@ == preferred(hole),
            preferred(hole).len() == NUM_PREFERRED,
            forall|q: int|
                0 <= q < NUM_PREFERRED ==> (#[trigger] preferred(hole)[q]).0 < NUM_DEVIATIONS && 1
                    <= preferred(hole)[q].1 <= NUM_GRADES,
            small(target.0 as int),
            small(target.1 as int),
            gtarget == (target.0 as int, target.1 as int),
            positions(scored@).len() <= p,
            is_top_k(
                positions(scored@),
                pref_pool(hole, int_size as int, p as int),
                NUM_PREFERRED as int,
                pref_lt(hole, int_size as int, gtarget),
            ),
            scored_well(hole, int_size as int, gtarget, scored@),
        decreases NUM_PREFERRED - p,
    {
        let (d, g) = preferred_classes[p];
        match limits_nm(int_size, hole, d, g) {
            Some(found) => {
                proof {
                    crate::deviation::lemma_limits_small(int_size as int, hole, d as int, g as int);
                }
                let error = band_error((found.0 as i128, found.1 as i128), (target.0 as i128, target.1 as i128));
                insert_scored(&mut scored, (error, p, found), Ghost(hole), Ghost(int_size as int), Ghost(gtarget));
            },
            None => {
                proof {
                    assert(pref_pool(hole, int_size as int, p + 1) =~= pref_pool(hole, int_size as int, p as int));
                }
            },
        }
        p += 1;
    }
    scored
}

/// List the closest preferred tolerances in order of suitability.
///
/// Every preferred class of the same side that applies at the size, closest to the given
/// class first; classes scoring identically keep the order they are listed in.
pub fn list_preferred(size_nm: i64, tolerance_class: &str) -> (r: Result<Vec<Match>, Error>)
    ensures
        !size_in_range(size_nm as int) ==> r == Err::<Vec<Match>, Error>(
            Error::SizeOutOfRange(size_nm),
        ),
        size_in_range(size_nm as int) && class_of(tolerance_class@) is None ==> (r matches Err(e)
            && is_invalid_class(e, tolerance_class@)),
        size_in_range(size_nm as int) && class_of(tolerance_class@) is Some && spec_class_limits(
            size_nm as int,
            tolerance_class@,
        ) is None ==> (r matches Err(e) && is_unsupported(e, tolerance_class@, size_nm as int)),
        spec_class_limits(size_nm as int, tolerance_class@) is Some ==> ({
            let hole = class_of(tolerance_class@).unwrap().0;
            let int_size = ceil_mm(size_nm as int);
            if exists|p: int| #[trigger] pref_pool(hole, int_size, NUM_PREFERRED as int)(p) {
                r matches Ok(v) && lists_preferred(size_nm as int, tolerance_class@, v@)
            } else {
                r matches Err(e) && is_unsupported(e, tolerance_class@, size_nm as int)
            }
        }),
{
    let int_size = checked_size(size_nm)?;
    let (hole, dev, idx_grade) = class_indices(tolerance_class)?;
    let target = match limits_nm(int_size, hole, dev, idx_grade) {
        Some(t) => t,
        None => {
            return Err(
                Error::UnsupportedCombination {
                    tolerance_class: tolerance_class.to_owned(),
                    size: size_nm,
                },
            );
        },
    };
    let ghost gtarget = (target.0 as int, target.1 as int);
    let ghost gsize = int_size as int;
    proof {
        crate::deviation::lemma_limits_small(gsize, hole, dev as int, idx_grade as int);
        crate::tables::lemma_preferred_valid(hole);
    }
    let scored = rank_preferred(int_size, hole, target);
    let ghost ps = positions(scored@);
    // Size may not map to a preferred tolerance class
    if scored.len() == 0 {
        proof {
            assert forall|q: int| !#[trigger] pref_pool(hole, gsize, NUM_PREFERRED as int)(q) by {
                if pref_pool(hole, gsize, NUM_PREFERRED as int)(q) {
                    assert(!ps.contains(q));
                }
            }
        }
        return Err(
            Error::UnsupportedCombination {
                tolerance_class: tolerance_class.to_owned(),
                size: size_nm,
            },
        );
    }
    let preferred_classes = preferred_indices(hole);
    let mut out: Vec<Match> = Vec::new();
    let mut i: usize = 0;
    while i < scored.len()
        invariant
            i <= scored@.len() == ps.len(),
            ps == positions(scored@),
            preferred_classes@ == preferred(hole),
            preferred(hole).len() == NUM_PREFERRED,
            forall|q: int|
                0 <= q < NUM_PREFERRED ==> (#[trigger] preferred(hole)[q]).0 < NUM_DEVIATIONS && 1
                    <= preferred(hole)[q].1 <= NUM_GRADES,
            scored_well(hole, gsize, gtarget, scored@),
            out@.len() == i,
            forall|j: int|
                0 <= j < i ==> (#[trigger] out@[j]).view() == preferred_matches(
                    size_nm as int,
                    hole,
                    gsize,
                    gtarget,
                    ps,
                )[j],
        decreases scored@.len() - i,
    {
        let (error, q, found) = scored[i];
        let (d, g) = preferred_classes[q];
        out.push(Match::from_int(size_nm, class_name(hole, d, g), found, error));
        i += 1;
    }
    proof {
        assert(views(out@) =~= preferred_matches(size_nm as int, hole, gsize, gtarget, ps));
        assert(class_of(tolerance_class@) == Some((hole, dev as int, idx_grade as int)));
        assert(ceil_mm(size_nm as int) == gsize);
        assert(spec_class_limits(size_nm as int, tolerance_class@) == Some(gtarget));
        assert(is_preferred_ranking(hole, gsize, gtarget, ps));
        assert(ps.len() > 0);
        assert(lists_preferred(size_nm as int, tolerance_class@, out@));
        assert(pref_pool(hole, gsize, NUM_PREFERRED as int)(ps[0]));
    }
    Ok(out)
}


/// Every entry of `list_preferred` is a preferred class of the same side, reported at the
/// size asked for with the deviations that `limits` gives it there, and its error is its
/// distance from the class asked for; the entries come closest first.
pub proof fn law_list_preferred_entries(size_nm: int, class: Seq<char>, v: Seq<Match>)
    requires
        spec_class_limits(size_nm, class) is Some,
        lists_preferred(size_nm, class, v),
    ensures
        forall|i: int|
            0 <= i < v.len() ==> {
                let m = #[trigger] v[i];
                &&& m.size == size_nm
                &&& spec_class_limits(m.size as int, m.class@) == Some(
                    (m.upper as int, m.lower as int),
                )
                &&& m.middle == half(m.upper + m.lower)
                &&& m.error == spec_band_error(
                    (m.upper as int, m.lower as int),
                    spec_class_limits(size_nm, class).unwrap(),
                )
                &&& exists|p: int|
                    0 <= p < NUM_PREFERRED && m.class@ == class_spelling(
                        class_of(class).unwrap().0,
                        preferred(class_of(class).unwrap().0)[p].0 as int,
                        preferred(class_of(class).unwrap().0)[p].1 as int,
                    )
            },
        forall|i: int, j: int| 0 <= i < j < v.len() ==> v[i].error <= v[j].error,
{
    let (hole, _dev, _grade) = class_of(class).unwrap();
    let int_size = ceil_mm(size_nm);
    let target = spec_class_limits(size_nm, class).unwrap();
    let ps = choose|ps: Seq<int>|
        #[trigger] is_preferred_ranking(hole, int_size, target, ps) && ps.len() > 0 && views(v)
            == preferred_matches(size_nm, hole, int_size, target, ps);
    crate::tables::lemma_preferred_valid(hole);
    assert(views(v).len() == v.len());
    assert forall|i: int| 0 <= i < v.len() implies {
        let m = #[trigger] v[i];
        &&& m.size == size_nm
        &&& spec_class_limits(m.size as int, m.class@) == Some((m.upper as int, m.lower as int))
        &&& m.middle == half(m.upper + m.lower)
        &&& m.error == spec_band_error((m.upper as int, m.lower as int), target)
        &&& exists|p: int|
            0 <= p < NUM_PREFERRED && m.class@ == class_spelling(
                hole,
                preferred(hole)[p].0 as int,
                preferred(hole)[p].1 as int,
            )
    } by {
        assert(views(v)[i] == v[i].view());
        let p = ps[i];
        assert(pref_pool(hole, int_size, NUM_PREFERRED as int)(p));
        crate::class::law_class_name_round_trip(hole, preferred(hole)[p].0 as int, preferred(hole)[p].1 as int);
    }
    assert forall|i: int, j: int| 0 <= i < j < v.len() implies v[i].error <= v[j].error by {
        assert(views(v)[i] == v[i].view());
        assert(views(v)[j] == v[j].view());
        assert(pref_lt(hole, int_size, target)(ps[i], ps[j]));
    }
}

/// A preferred class that applies at the size is matched with no error at all: the closest
/// preferred class to it is as close as it can be.
pub proof fn law_preferred_class_is_exact(size_nm: int, class: Seq<char>, v: Seq<Match>, p: int)
    requires
        spec_class_limits(size_nm, class) is Some,
        lists_preferred(size_nm, class, v),
        0 <= p < NUM_PREFERRED,
        ({
            let (hole, dev, grade) = class_of(class).unwrap();
            preferred(hole)[p] == (dev as usize, grade as usize)
        }),
    ensures
        v.len() > 0,
        v[0].error == 0,
{
    let (hole, dev, grade) = class_of(class).unwrap();
    let int_size = ceil_mm(size_nm);
    let target = spec_class_limits(size_nm, class).unwrap();
    let ps = choose|ps: Seq<int>|
        #[trigger] is_preferred_ranking(hole, int_size, target, ps) && ps.len() > 0 && views(v)
            == preferred_matches(size_nm, hole, int_size, target, ps);
    crate::tables::lemma_preferred_valid(hole);
    assert(views(v).len() == v.len());
    assert(preferred_matches(size_nm, hole, int_size, target, ps).len() == ps.len());
    assert(pref_limits(hole, int_size, p) == Some(target));
    assert(pref_error(hole, int_size, target, p) == 0);
    let pool = pref_pool(hole, int_size, NUM_PREFERRED as int);
    let lt = pref_lt(hole, int_size, target);
    assert(pool(p));
    if !ps.contains(p) {
        assert(lt(ps[NUM_PREFERRED - 1], p));
        assert(lt(ps[0], ps[NUM_PREFERRED - 1]) || NUM_PREFERRED == 1);
    } else {
        let i = choose|i: int| 0 <= i < ps.len() && ps[i] == p;
        if i > 0 {
            assert(lt(ps[0], ps[i]));
        }
    }
    assert(views(v)[0] == v[0].view());
}

/// What `find_preferred` promises of a successful result.
pub open spec fn finds_preferred(size_nm: int, class: Seq<char>, m: Match) -> bool {
    let (hole, _dev, _grade) = class_of(class).unwrap();
    let int_size = ceil_mm(size_nm);
    let target = spec_class_limits(size_nm, class).unwrap();
    exists|ps: Seq<int>|
        #[trigger] is_preferred_ranking(hole, int_size, target, ps) && ps.len() > 0 && m.view()
            == preferred_matches(size_nm, hole, int_size, target, ps)[0]
}

/// Find the closest preferred tolerance.
pub fn find_preferred(size_nm: i64, tolerance_class: &str) -> (r: Result<Match, Error>)
    ensures
        !size_in_range(size_nm as int) ==> r == Err::<Match, Error>(Error::SizeOutOfRange(size_nm)),
        size_in_range(size_nm as int) && class_of(tolerance_class@) is None ==> (r matches Err(e)
            && is_invalid_class(e, tolerance_class@)),
        size_in_range(size_nm as int) && class_of(tolerance_class@) is Some && spec_class_limits(
            size_nm as int,
            tolerance_class@,
        ) is None ==> (r matches Err(e) && is_unsupported(e, tolerance_class@, size_nm as int)),
        spec_class_limits(size_nm as int, tolerance_class@) is Some ==> ({
            let hole = class_of(tolerance_class@).unwrap().0;
            let int_size = ceil_mm(size_nm as int);
            if exists|p: int| #[trigger] pref_pool(hole, int_size, NUM_PREFERRED as int)(p) {
                r matches Ok(m) && finds_preferred(size_nm as int, tolerance_class@, m)
            } else {
                r matches Err(e) && is_unsupported(e, tolerance_class@, size_nm as int)
            }
        }),
{
    let mut list = list_preferred(size_nm, tolerance_class)?;
    if list.len() == 0 {
        proof {
            if spec_class_limits(size_nm as int, tolerance_class@) is Some {
                let (hole, _dev, _grade) = class_of(tolerance_class@).unwrap();
                let int_size = ceil_mm(size_nm as int);
                let target = spec_class_limits(size_nm as int, tolerance_class@).unwrap();
                if lists_preferred(size_nm as int, tolerance_class@, list@) {
                    let ps = choose|ps: Seq<int>|
                        #[trigger] is_preferred_ranking(hole, int_size, target, ps) && ps.len() > 0
                            && views(list@) == preferred_matches(size_nm as int, hole, int_size, target, ps);
                    assert(views(list@).len() == list@.len());
                }
            }
        }
        return Err(
            Error::UnsupportedCombination {
                tolerance_class: tolerance_class.to_owned(),
                size: size_nm,
            },
        );
    }
    let ghost before = list@;
    let first = list.swap_remove(0);
    proof {
        assert(first.view() == views(before)[0]);
    }
    Ok(first)
}

/// `find_preferred` reports the head of what `list_preferred` reports, for the same size and
/// class.
pub proof fn law_find_preferred_is_head_of_list(size_nm: int, class: Seq<char>, v: Seq<Match>, m: Match)
    requires
        spec_class_limits(size_nm, class) is Some,
        lists_preferred(size_nm, class, v),
        finds_preferred(size_nm, class, m),
    ensures
        v.len() > 0,
        m.view() == v[0].view(),
{
    let (hole, _dev, _grade) = class_of(class).unwrap();
    let int_size = ceil_mm(size_nm);
    let target = spec_class_limits(size_nm, class).unwrap();
    let ps1 = choose|ps: Seq<int>|
        #[trigger] is_preferred_ranking(hole, int_size, target, ps) && ps.len() > 0 && views(v)
            == preferred_matches(size_nm, hole, int_size, target, ps);
    let ps2 = choose|ps: Seq<int>|
        #[trigger] is_preferred_ranking(hole, int_size, target, ps) && ps.len() > 0 && m.view()
            == preferred_matches(size_nm, hole, int_size, target, ps)[0];
    law_preferred_ranking_unique(hole, int_size, target, ps1, ps2);
    assert(views(v).len() == v.len());
    assert(views(v)[0] == v[0].view());
}


/// Nanometres in one step of the size grid for `decimals` decimal places of a millimetre.
pub open spec fn spec_quantum(decimals: int) -> int {
    if decimals == 0 {
        1_000_000
    } else if decimals == 1 {
        100_000
    } else if decimals == 2 {
        10_000
    } else if decimals == 3 {
        1_000
    } else if decimals == 4 {
        100
    } else if decimals == 5 {
        10
    } else {
        1
    }
}

/// Deviations are held in nanometres, so a size cannot be resolved any finer than six
/// decimal places of a millimetre.
pub const MAX_DECIMALS: usize = 6;

fn quantum(decimals: usize) -> (r: i64)
    requires
        decimals <= MAX_DECIMALS,
    ensures
        r == spec_quantum(decimals as int),
{
    let mut q: i64 = 1_000_000;
    let mut n: usize = 0;
    while n < decimals
        invariant
            n <= decimals <= MAX_DECIMALS,
            q == spec_quantum(n as int),
        decreases decimals - n,
    {
        q = q / 10;
        n += 1;
    }
    q
}

/// The search that `list_closest` runs for its arguments, the two limits taken largest first.
pub open spec fn closest_search(
    size_nm: int,
    upper_nm: int,
    lower_nm: int,
    feature: Feature,
    strict: bool,
    decimals: int,
) -> Search {
    let (upper, lower) = if upper_nm < lower_nm {
        (lower_nm, upper_nm)
    } else {
        (upper_nm, lower_nm)
    };
    Search {
        size_nm: size_nm as i64,
        int_size: ceil_mm(size_nm) as i32,
        target: ((size_nm + upper) as i128, (size_nm + lower) as i128),
        hole: feature is Hole,
        strict,
        quantum: spec_quantum(decimals) as i64,
    }
}

/// What a match reports of a candidate.
pub open spec fn candidate_match(hole: bool, c: Candidate) -> (int, Seq<char>, int, int, int, int) {
    match_of(
        c.size as int,
        class_spelling(hole, c.dev as int, c.idx_grade as int),
        (c.limits.0 as int, c.limits.1 as int),
        c.error as int,
    )
}

/// `v` reports the `results` candidates of search `s` closest to its target, closest first.
pub open spec fn lists_closest(s: Search, results: int, v: Seq<Match>) -> bool {
    &&& lists_bracket_bounds(bracket_bounds())
    &&& exists|cands: Seq<Candidate>|
        #[trigger] is_top_k(cands, pool(s), results, closer()) && views(v) == cands.map_values(
            |c: Candidate| candidate_match(s.hole, c),
        )
}

/// List the closest ISO tolerance classes to a size tolerance.
///
/// `size_nm` is the nominal dimension, `upper_nm` and `lower_nm` are the wanted deviations
/// from it, all in nanometres. They are ordered largest first if supplied the other way
/// around. `feature` selects hole or shaft classes.
///
/// With `strict` the nominal size is held exactly as given and only the tolerance class
/// varies. Otherwise the nominal size may also be moved to centre the band on the wanted
/// one, rounded to `decimals` places of a millimetre.
///
/// At most `results` classes are returned, closest first.
pub fn list_closest(
    size_nm: i64,
    upper_nm: i64,
    lower_nm: i64,
    feature: Feature,
    strict: bool,
    results: usize,
    decimals: usize,
) -> (r: Result<Vec<Match>, Error>)
    ensures
        !size_in_range(size_nm as int) ==> r == Err::<Vec<Match>, Error>(
            Error::SizeOutOfRange(size_nm),
        ),
        size_in_range(size_nm as int) && decimals > MAX_DECIMALS ==> r == Err::<Vec<Match>, Error>(
            Error::InvalidPrecision(decimals),
        ),
        closest_args_ok(size_nm as int, upper_nm as int, lower_nm as int, decimals as int)
            && results == 0 ==> (r matches Ok(v) && v@.len() == 0),
        closest_args_ok(size_nm as int, upper_nm as int, lower_nm as int, decimals as int)
            && results > 0 ==> (r matches Ok(
            v,
        ) && lists_closest(
            closest_search(
                size_nm as int,
                upper_nm as int,
                lower_nm as int,
                feature,
                strict,
                decimals as int,
            ),
            results as int,
            v@,
        )),
{
    let int_size = checked_size(size_nm)?;
    if decimals > MAX_DECIMALS {
        return Err(Error::InvalidPrecision(decimals));
    }
    let (upper, lower) = if upper_nm < lower_nm {
        (lower_nm, upper_nm)
    } else {
        (upper_nm, lower_nm)
    };
    if results == 0 {
        return Ok(Vec::new());
    }
    // Work from the absolute limits of the feature rather than the deviations, because a
    // candidate is free to reach them from a different nominal size.
    let hole = feature.is_hole();
    let s = Search {
        size_nm,
        int_size,
        target: (size_nm as i128 + upper as i128, size_nm as i128 + lower as i128),
        hole,
        strict,
        quantum: quantum(decimals),
    };
    let ghost gs = closest_search(size_nm as int, upper_nm as int, lower_nm as int, feature, strict, decimals as int);
    assert(s == gs);
    proof {
        lemma_closest_search_valid(size_nm as int, upper_nm as int, lower_nm as int, feature, strict, decimals as int);
    }
    let best = closest_candidates(&s, results);
    let mut out: Vec<Match> = Vec::new();
    let mut i: usize = 0;
    while i < best.len()
        invariant
            i <= best@.len(),
            s.valid(),
            lists_bracket_bounds(bracket_bounds()),
            forall|k: int| 0 <= k < best@.len() ==> pool(s)(#[trigger] best@[k]),
            out@.len() == i,
            forall|k: int| 0 <= k < i ==> (#[trigger] out@[k]).view() == candidate_match(hole, best@[k]),
        decreases best@.len() - i,
    {
        let c = &best[i];
        proof {
            lemma_pool_member(s, *c);
        }
        out.push(Match::from_int(c.size, class_name(hole, c.dev, c.idx_grade), c.limits, c.error));
        i += 1;
    }
    proof {
        assert(views(out@) =~= best@.map_values(|c: Candidate| candidate_match(s.hole, c)));
    }
    Ok(out)
}


/// The arguments on which `list_closest` searches.
pub open spec fn closest_args_ok(size_nm: int, upper_nm: int, lower_nm: int, decimals: int) -> bool {
    &&& size_in_range(size_nm)
    &&& 0 <= decimals <= MAX_DECIMALS
    &&& i64::MIN <= upper_nm <= i64::MAX
    &&& i64::MIN <= lower_nm <= i64::MAX
}

proof fn lemma_closest_search_valid(
    size_nm: int,
    upper_nm: int,
    lower_nm: int,
    feature: Feature,
    strict: bool,
    decimals: int,
)
    requires
        closest_args_ok(size_nm, upper_nm, lower_nm, decimals),
    ensures
        closest_search(size_nm, upper_nm, lower_nm, feature, strict, decimals).valid(),
{
    let q = spec_quantum(decimals);
    assert(1_000_000int % q == 0) by {
        if decimals == 0 {
        } else if decimals == 1 {
        } else if decimals == 2 {
        } else if decimals == 3 {
        } else if decimals == 4 {
        } else if decimals == 5 {
        } else {
        }
    }
}

/// The ranking behind a list of closest classes.
proof fn closest_ranking(s: Search, results: int, v: Seq<Match>) -> (cands: Seq<Candidate>)
    requires
        lists_closest(s, results, v),
    ensures
        is_top_k(cands, pool(s), results, closer()),
        views(v) == cands.map_values(|c: Candidate| candidate_match(s.hole, c)),
        v.len() == cands.len(),
{
    let cands = choose|cands: Seq<Candidate>|
        #[trigger] is_top_k(cands, pool(s), results, closer()) && views(v) == cands.map_values(
            |c: Candidate| candidate_match(s.hole, c),
        );
    assert(views(v).len() == v.len());
    cands
}

/// Asking for fewer results gives a prefix of asking for more: the search's pruning never
/// changes the ranking.
pub proof fn law_closest_prefix(
    size_nm: int,
    upper_nm: int,
    lower_nm: int,
    feature: Feature,
    strict: bool,
    decimals: int,
    k1: int,
    k2: int,
    v1: Seq<Match>,
    v2: Seq<Match>,
)
    requires
        closest_args_ok(size_nm, upper_nm, lower_nm, decimals),
        0 < k1 <= k2,
        lists_closest(closest_search(size_nm, upper_nm, lower_nm, feature, strict, decimals), k1, v1),
        lists_closest(closest_search(size_nm, upper_nm, lower_nm, feature, strict, decimals), k2, v2),
    ensures
        v1.len() <= v2.len(),
        v1.len() == k1 || v1.len() == v2.len(),
        forall|i: int| 0 <= i < v1.len() ==> #[trigger] v1[i].view() == v2[i].view(),
{
    let s = closest_search(size_nm, upper_nm, lower_nm, feature, strict, decimals);
    lemma_closest_search_valid(size_nm, upper_nm, lower_nm, feature, strict, decimals);
    let c1 = closest_ranking(s, k1, v1);
    let c2 = closest_ranking(s, k2, v2);
    crate::closest::lemma_orders_pool(s);
    lemma_top_k_prefix(c1, c2, pool(s), k1, k2, closer());
    assert forall|i: int| 0 <= i < v1.len() implies #[trigger] v1[i].view() == v2[i].view() by {
        assert(views(v1)[i] == v1[i].view());
        assert(views(v2)[i] == v2[i].view());
        assert(c1[i] == c2[i]);
    }
}

/// The wanted limits may be supplied either way round.
pub proof fn law_closest_limits_either_way_round(
    size_nm: int,
    upper_nm: int,
    lower_nm: int,
    feature: Feature,
    strict: bool,
    decimals: int,
    k: int,
    v1: Seq<Match>,
    v2: Seq<Match>,
)
    requires
        closest_args_ok(size_nm, upper_nm, lower_nm, decimals),
        0 < k,
        lists_closest(closest_search(size_nm, upper_nm, lower_nm, feature, strict, decimals), k, v1),
        lists_closest(closest_search(size_nm, lower_nm, upper_nm, feature, strict, decimals), k, v2),
    ensures
        v1.len() == v2.len(),
        forall|i: int| 0 <= i < v1.len() ==> #[trigger] v1[i].view() == v2[i].view(),
{
    assert(closest_search(size_nm, upper_nm, lower_nm, feature, strict, decimals) == closest_search(
        size_nm,
        lower_nm,
        upper_nm,
        feature,
        strict,
        decimals,
    ));
    law_closest_prefix(size_nm, upper_nm, lower_nm, feature, strict, decimals, k, k, v1, v2);
    law_closest_prefix(size_nm, upper_nm, lower_nm, feature, strict, decimals, k, k, v2, v1);
}

/// Every class that `list_closest` reports applies at the nominal size it reports, with the
/// deviations it reports, and its error is the distance of that band from the wanted one.
/// Results are capped, never padded; a held size is reported as given, and a free one lies
/// on the size grid.
pub proof fn law_closest_results_apply(
    size_nm: int,
    upper_nm: int,
    lower_nm: int,
    feature: Feature,
    strict: bool,
    decimals: int,
    k: int,
    v: Seq<Match>,
)
    requires
        closest_args_ok(size_nm, upper_nm, lower_nm, decimals),
        0 < k,
        lists_closest(closest_search(size_nm, upper_nm, lower_nm, feature, strict, decimals), k, v),
    ensures
        v.len() <= k,
        forall|i: int|
            0 <= i < v.len() ==> {
                let m = #[trigger] v[i];
                &&& size_in_range(m.size as int)
                &&& spec_class_limits(m.size as int, m.class@) == Some(
                    (m.upper as int, m.lower as int),
                )
                &&& m.middle == half(m.upper + m.lower)
                &&& class_of(m.class@) matches Some((hole, d, g)) && hole == (feature is Hole)
                    && m.class@ == class_spelling(hole, d, g)
                &&& m.error == crate::fit::spec_band_error(
                    crate::fit::spec_absolute(m.size as int, (m.upper as int, m.lower as int)),
                    closest_search(size_nm, upper_nm, lower_nm, feature, strict, decimals).target_int(),
                )
                &&& strict ==> m.size == size_nm
                &&& !strict ==> (m.size as int) % spec_quantum(decimals) == 0
            },
{
    let s = closest_search(size_nm, upper_nm, lower_nm, feature, strict, decimals);
    lemma_closest_search_valid(size_nm, upper_nm, lower_nm, feature, strict, decimals);
    let cands = closest_ranking(s, k, v);
    assert forall|i: int| 0 <= i < v.len() implies {
        let m = #[trigger] v[i];
        &&& size_in_range(m.size as int)
        &&& spec_class_limits(m.size as int, m.class@) == Some((m.upper as int, m.lower as int))
        &&& m.middle == half(m.upper + m.lower)
        &&& class_of(m.class@) matches Some((hole, d, g)) && hole == (feature is Hole)
            && m.class@ == class_spelling(hole, d, g)
        &&& m.error == crate::fit::spec_band_error(
            crate::fit::spec_absolute(m.size as int, (m.upper as int, m.lower as int)),
            s.target_int(),
        )
        &&& strict ==> m.size == size_nm
        &&& !strict ==> (m.size as int) % spec_quantum(decimals) == 0
    } by {
        let c = cands[i];
        assert(views(v)[i] == v[i].view());
        assert(pool(s)(c));
        lemma_pool_member(s, c);
        lemma_pool_member_applies(s, c);
        crate::class::law_class_name_round_trip(s.hole, c.dev as int, c.idx_grade as int);
    }
}

/// With the nominal size held, the first class that `list_closest` reports is at least as
/// close to the wanted tolerance as any class the tables give at that size.
pub proof fn law_strict_head_is_closest(
    size_nm: int,
    upper_nm: int,
    lower_nm: int,
    feature: Feature,
    decimals: int,
    k: int,
    v: Seq<Match>,
    dev: int,
    grade: int,
)
    requires
        closest_args_ok(size_nm, upper_nm, lower_nm, decimals),
        0 < k,
        lists_closest(closest_search(size_nm, upper_nm, lower_nm, feature, true, decimals), k, v),
        0 <= dev < NUM_DEVIATIONS,
        1 <= grade <= NUM_GRADES,
        spec_limits_nm(ceil_mm(size_nm), feature is Hole, dev, grade) is Some,
    ensures
        v.len() > 0,
        v[0].error <= crate::fit::spec_band_error(
            crate::fit::spec_absolute(size_nm, spec_limits_nm(ceil_mm(size_nm), feature is Hole, dev, grade).unwrap()),
            closest_search(size_nm, upper_nm, lower_nm, feature, true, decimals).target_int(),
        ),
{
    let s = closest_search(size_nm, upper_nm, lower_nm, feature, true, decimals);
    lemma_closest_search_valid(size_nm, upper_nm, lower_nm, feature, true, decimals);
    let cands = closest_ranking(s, k, v);
    lemma_class_is_candidate(s, dev, grade);
    let c = choose|c: Candidate|
        #[trigger] pool(s)(c) && c.error == crate::fit::spec_band_error(
            crate::fit::spec_absolute(s.size_nm as int, spec_limits_nm(s.int_size as int, s.hole, dev, grade).unwrap()),
            s.target_int(),
        );
    lemma_head_is_closest(s, cands, k, c);
    assert(views(v)[0] == v[0].view());
}

/// Where the nominal size lies on the grid asked for, letting the search move it never does
/// worse than holding it.
pub proof fn law_free_never_worse_than_strict(
    size_nm: int,
    upper_nm: int,
    lower_nm: int,
    feature: Feature,
    decimals: int,
    k_held: int,
    k_free: int,
    held: Seq<Match>,
    free: Seq<Match>,
)
    requires
        closest_args_ok(size_nm, upper_nm, lower_nm, decimals),
        size_nm % spec_quantum(decimals) == 0,
        0 < k_held,
        0 < k_free,
        lists_closest(closest_search(size_nm, upper_nm, lower_nm, feature, true, decimals), k_held, held),
        lists_closest(closest_search(size_nm, upper_nm, lower_nm, feature, false, decimals), k_free, free),
        held.len() > 0,
    ensures
        free.len() > 0,
        free[0].error <= held[0].error,
{
    let hs = closest_search(size_nm, upper_nm, lower_nm, feature, true, decimals);
    let fs = closest_search(size_nm, upper_nm, lower_nm, feature, false, decimals);
    lemma_closest_search_valid(size_nm, upper_nm, lower_nm, feature, true, decimals);
    lemma_closest_search_valid(size_nm, upper_nm, lower_nm, feature, false, decimals);
    let hc = closest_ranking(hs, k_held, held);
    let fc = closest_ranking(fs, k_free, free);
    assert(pool(hs)(hc[0]));
    lemma_free_matches_held(hs, fs, hc[0]);
    let f = choose|f: Candidate| #[trigger] pool(fs)(f) && f.error <= hc[0].error;
    lemma_head_is_closest(fs, fc, k_free, f);
    assert(views(held)[0] == held[0].view());
    assert(views(free)[0] == free[0].view());
}

/// With the nominal size free, the first class that `list_closest` reports is at least as
/// close to the wanted limits as any class the tables give, placed at any nominal size on the
/// grid asked for.
pub proof fn law_free_head_is_closest(
    size_nm: int,
    upper_nm: int,
    lower_nm: int,
    feature: Feature,
    decimals: int,
    k: int,
    v: Seq<Match>,
    nominal: int,
    dev: int,
    grade: int,
)
    requires
        closest_args_ok(size_nm, upper_nm, lower_nm, decimals),
        0 < k,
        lists_closest(closest_search(size_nm, upper_nm, lower_nm, feature, false, decimals), k, v),
        size_in_range(nominal),
        nominal % spec_quantum(decimals) == 0,
        0 <= dev < NUM_DEVIATIONS,
        1 <= grade <= NUM_GRADES,
        spec_limits_nm(ceil_mm(nominal), feature is Hole, dev, grade) is Some,
    ensures
        v.len() > 0,
        v[0].error <= crate::fit::spec_band_error(
            crate::fit::spec_absolute(nominal, spec_limits_nm(ceil_mm(nominal), feature is Hole, dev, grade).unwrap()),
            closest_search(size_nm, upper_nm, lower_nm, feature, false, decimals).target_int(),
        ),
{
    let s = closest_search(size_nm, upper_nm, lower_nm, feature, false, decimals);
    lemma_closest_search_valid(size_nm, upper_nm, lower_nm, feature, false, decimals);
    let cands = closest_ranking(s, k, v);
    crate::closest::lemma_grid_class_is_matched(s, nominal, dev, grade);
    let f = choose|f: Candidate|
        #[trigger] pool(s)(f) && f.error <= crate::fit::spec_band_error(
            crate::fit::spec_absolute(nominal, spec_limits_nm(ceil_mm(nominal), s.hole, dev, grade).unwrap()),
            s.target_int(),
        );
    lemma_head_is_closest(s, cands, k, f);
    assert(views(v)[0] == v[0].view());
}

/// `name` is the name of a preferred class of the side, as the preferred lists spell it.
pub open spec fn is_preferred_name(hole: bool, name: Seq<char>) -> bool {
    exists|p: int|
        0 <= p < NUM_PREFERRED && name == class_spelling(
            hole,
            preferred(hole)[p].0 as int,
            preferred(hole)[p].1 as int,
        )
}

/// A class is preferred exactly when its name is one of the preferred names.
proof fn lemma_preferred_name(hole: bool, dev: int, grade: int)
    requires
        0 <= dev < NUM_DEVIATIONS,
        1 <= grade <= NUM_GRADES,
    ensures
        is_preferred_name(hole, class_spelling(hole, dev, grade)) == preferred(hole).contains(
            (dev as usize, grade as usize),
        ),
{
    crate::tables::lemma_preferred_valid(hole);
    crate::class::law_class_name_round_trip(hole, dev, grade);
    if preferred(hole).contains((dev as usize, grade as usize)) {
        let p = choose|p: int| 0 <= p < preferred(hole).len() && preferred(hole)[p] == (dev as usize, grade as usize);
        assert(class_spelling(hole, dev, grade) == class_spelling(
            hole,
            preferred(hole)[p].0 as int,
            preferred(hole)[p].1 as int,
        ));
    }
    if is_preferred_name(hole, class_spelling(hole, dev, grade)) {
        let p = choose|p: int|
            0 <= p < NUM_PREFERRED && class_spelling(hole, dev, grade) == class_spelling(
                hole,
                preferred(hole)[p].0 as int,
                preferred(hole)[p].1 as int,
            );
        crate::class::law_class_name_round_trip(hole, preferred(hole)[p].0 as int, preferred(hole)[p].1 as int);
        assert(preferred(hole)[p] == (dev as usize, grade as usize));
    }
}

/// The matches of `list_closest` come closest first; of equally close ones, preferred classes
/// first; then the smaller move of the nominal size; then the finer grade.
pub proof fn law_closest_order(
    size_nm: int,
    upper_nm: int,
    lower_nm: int,
    feature: Feature,
    strict: bool,
    decimals: int,
    k: int,
    v: Seq<Match>,
    i: int,
    j: int,
)
    requires
        closest_args_ok(size_nm, upper_nm, lower_nm, decimals),
        0 < k,
        lists_closest(closest_search(size_nm, upper_nm, lower_nm, feature, strict, decimals), k, v),
        0 <= i < j < v.len(),
    ensures
        ({
            let hole = feature is Hole;
            let (a, b) = (v[i], v[j]);
            let (pa, pb) = (is_preferred_name(hole, a.class@), is_preferred_name(hole, b.class@));
            let (sa, sb) = (crate::fit::abs(a.size - size_nm), crate::fit::abs(b.size - size_nm));
            &&& a.error <= b.error
            &&& a.error == b.error ==> pa || !pb
            &&& a.error == b.error && pa == pb ==> sa <= sb
            &&& a.error == b.error && pa == pb && sa == sb ==> class_of(a.class@).unwrap().2 <= class_of(
                b.class@,
            ).unwrap().2
        }),
{
    let s = closest_search(size_nm, upper_nm, lower_nm, feature, strict, decimals);
    lemma_closest_search_valid(size_nm, upper_nm, lower_nm, feature, strict, decimals);
    let cands = closest_ranking(s, k, v);
    let ca = cands[i];
    let cb = cands[j];
    assert(closer()(ca, cb));
    assert(views(v)[i] == v[i].view());
    assert(views(v)[j] == v[j].view());
    lemma_pool_member(s, ca);
    lemma_pool_member(s, cb);
    crate::closest::lemma_pool_member_rank(s, ca);
    crate::closest::lemma_pool_member_rank(s, cb);
    lemma_preferred_name(s.hole, ca.dev as int, ca.idx_grade as int);
    lemma_preferred_name(s.hole, cb.dev as int, cb.idx_grade as int);
    crate::class::law_class_name_round_trip(s.hole, ca.dev as int, ca.idx_grade as int);
    crate::class::law_class_name_round_trip(s.hole, cb.dev as int, cb.idx_grade as int);
}

/// With the nominal size held, `list_closest` names each class at most once, and every class
/// that applies at the size is either listed or no closer than the last class listed, which is
/// then the last of as many as were asked for: the list holds the closest classes, as many as
/// asked for or all there are.
pub proof fn law_strict_lists_the_closest_classes(
    size_nm: int,
    upper_nm: int,
    lower_nm: int,
    feature: Feature,
    decimals: int,
    k: int,
    v: Seq<Match>,
    dev: int,
    grade: int,
)
    requires
        closest_args_ok(size_nm, upper_nm, lower_nm, decimals),
        0 < k,
        lists_closest(closest_search(size_nm, upper_nm, lower_nm, feature, true, decimals), k, v),
        0 <= dev < NUM_DEVIATIONS,
        1 <= grade <= NUM_GRADES,
        spec_limits_nm(ceil_mm(size_nm), feature is Hole, dev, grade) is Some,
    ensures
        forall|i: int, j: int| 0 <= i < j < v.len() ==> #[trigger] v[i].class@ != #[trigger] v[j].class@,
        (exists|i: int| 0 <= i < v.len() && v[i].class@ == class_spelling(feature is Hole, dev, grade)) || (
        v.len() == k && v[k - 1].error <= crate::fit::spec_band_error(
            crate::fit::spec_absolute(size_nm, spec_limits_nm(ceil_mm(size_nm), feature is Hole, dev, grade).unwrap()),
            closest_search(size_nm, upper_nm, lower_nm, feature, true, decimals).target_int(),
        )),
{
    let s = closest_search(size_nm, upper_nm, lower_nm, feature, true, decimals);
    lemma_closest_search_valid(size_nm, upper_nm, lower_nm, feature, true, decimals);
    let cands = closest_ranking(s, k, v);
    assert forall|i: int, j: int| 0 <= i < j < v.len() implies #[trigger] v[i].class@ != #[trigger] v[j].class@ by {
        let (ca, cb) = (cands[i], cands[j]);
        assert(closer()(ca, cb));
        assert(views(v)[i] == v[i].view());
        assert(views(v)[j] == v[j].view());
        lemma_pool_member(s, ca);
        lemma_pool_member(s, cb);
        crate::class::law_class_name_round_trip(s.hole, ca.dev as int, ca.idx_grade as int);
        crate::class::law_class_name_round_trip(s.hole, cb.dev as int, cb.idx_grade as int);
        if v[i].class@ == v[j].class@ {
            crate::closest::lemma_strict_class_unique(s, ca, cb);
        }
    }
    lemma_class_is_candidate(s, dev, grade);
    let c = choose|c: Candidate|
        #[trigger] pool(s)(c) && c.dev == dev && c.idx_grade == grade && c.error == crate::fit::spec_band_error(
            crate::fit::spec_absolute(s.size_nm as int, spec_limits_nm(s.int_size as int, s.hole, dev, grade).unwrap()),
            s.target_int(),
        );
    if cands.contains(c) {
        let i = choose|i: int| 0 <= i < cands.len() && cands[i] == c;
        assert(views(v)[i] == v[i].view());
    } else {
        assert(closer()(cands[k - 1], c));
        assert(views(v)[k - 1] == v[k - 1].view());
    }
}

/// `ps` holds every number below its length when it holds only such numbers, each once.
proof fn lemma_all_positions(ps: Seq<int>, x: int)
    requires
        ps.no_duplicates(),
        forall|i: int| 0 <= i < ps.len() ==> 0 <= #[trigger] ps[i] < ps.len(),
        0 <= x < ps.len(),
    ensures
        ps.contains(x),
{
    let n = ps.len() as int;
    let s1 = ps.to_set();
    let s2 = vstd::set_lib::set_int_range(0, n);
    vstd::set_lib::lemma_int_range(0, n);
    ps.unique_seq_to_set();
    if !ps.contains(x) {
        assert(s1.subset_of(s2.remove(x)));
        assert(s2.contains(x));
        vstd::set_lib::lemma_len_subset(s1, s2.remove(x));
    }
}

/// `list_preferred` lists every preferred class of the side that applies at the size, each
/// once, under the name the preferred list gives it, and of them puts first one at least as
/// close as any.
pub proof fn law_list_preferred_lists_every_applicable_class(size_nm: int, class: Seq<char>, v: Seq<Match>, p: int)
    requires
        spec_class_limits(size_nm, class) is Some,
        lists_preferred(size_nm, class, v),
        0 <= p < NUM_PREFERRED,
        pref_limits(class_of(class).unwrap().0, ceil_mm(size_nm), p) is Some,
    ensures
        forall|i: int, j: int| 0 <= i < j < v.len() ==> #[trigger] v[i].class@ != #[trigger] v[j].class@,
        ({
            let hole = class_of(class).unwrap().0;
            exists|i: int|
                0 <= i < v.len() && v[i].class@ == class_spelling(
                    hole,
                    preferred(hole)[p].0 as int,
                    preferred(hole)[p].1 as int,
                )
        }),
        v.len() > 0,
        v[0].error <= pref_error(
            class_of(class).unwrap().0,
            ceil_mm(size_nm),
            spec_class_limits(size_nm, class).unwrap(),
            p,
        ),
{
    let (hole, _dev, _grade) = class_of(class).unwrap();
    let int_size = ceil_mm(size_nm);
    let target = spec_class_limits(size_nm, class).unwrap();
    let ps = choose|ps: Seq<int>|
        #[trigger] is_preferred_ranking(hole, int_size, target, ps) && ps.len() > 0 && views(v)
            == preferred_matches(size_nm, hole, int_size, target, ps);
    crate::tables::lemma_preferred_valid(hole);
    let pool = pref_pool(hole, int_size, NUM_PREFERRED as int);
    let lt = pref_lt(hole, int_size, target);
    assert(views(v).len() == v.len());
    assert(preferred_matches(size_nm, hole, int_size, target, ps).len() == ps.len());
    assert forall|i: int, j: int| 0 <= i < j < v.len() implies #[trigger] v[i].class@ != #[trigger] v[j].class@ by {
        assert(views(v)[i] == v[i].view());
        assert(views(v)[j] == v[j].view());
        assert(lt(ps[i], ps[j]));
        assert(pool(ps[i]) && pool(ps[j]));
        let (a, b) = (preferred(hole)[ps[i]], preferred(hole)[ps[j]]);
        crate::class::law_class_name_round_trip(hole, a.0 as int, a.1 as int);
        crate::class::law_class_name_round_trip(hole, b.0 as int, b.1 as int);
    }
    assert(pool(p));
    if !ps.contains(p) {
        assert(ps.len() == NUM_PREFERRED);
        assert forall|i: int, j: int| 0 <= i < ps.len() && 0 <= j < ps.len() && i != j implies ps[i] != ps[j] by {
            if i < j {
                assert(lt(ps[i], ps[j]));
            } else {
                assert(lt(ps[j], ps[i]));
            }
        }
        assert forall|i: int| 0 <= i < ps.len() implies 0 <= #[trigger] ps[i] < ps.len() by {
            assert(pool(ps[i]));
        }
        lemma_all_positions(ps, p);
    }
    let i = choose|i: int| 0 <= i < ps.len() && ps[i] == p;
    assert(views(v)[i] == v[i].view());
    assert(views(v)[0] == v[0].view());
    if i > 0 {
        assert(lt(ps[0], ps[i]));
    }
}

/// A preferred class that applies at the size comes first in `list_preferred`, under its
/// own name, with no error: no other preferred class of its side has the same limits there.
pub proof fn law_preferred_head_is_the_class(size_nm: int, class: Seq<char>, v: Seq<Match>, p: int)
    requires
        spec_class_limits(size_nm, class) is Some,
        lists_preferred(size_nm, class, v),
        0 <= p < NUM_PREFERRED,
        ({
            let (hole, dev, grade) = class_of(class).unwrap();
            preferred(hole)[p] == (dev as usize, grade as usize)
        }),
    ensures
        v.len() > 0,
        v[0].class@ == class_spelling(class_of(class).unwrap().0, class_of(class).unwrap().1, class_of(class).unwrap().2),
        v[0].error == 0,
{
    let (hole, dev, grade) = class_of(class).unwrap();
    let int_size = ceil_mm(size_nm);
    let target = spec_class_limits(size_nm, class).unwrap();
    law_list_preferred_lists_every_applicable_class(size_nm, class, v, p);
    law_preferred_class_is_exact(size_nm, class, v, p);
    let ps = choose|ps: Seq<int>|
        #[trigger] is_preferred_ranking(hole, int_size, target, ps) && ps.len() > 0 && views(v)
            == preferred_matches(size_nm, hole, int_size, target, ps);
    crate::tables::lemma_preferred_valid(hole);
    let pool = pref_pool(hole, int_size, NUM_PREFERRED as int);
    let lt = pref_lt(hole, int_size, target);
    assert(views(v)[0] == v[0].view());
    assert(preferred_matches(size_nm, hole, int_size, target, ps).len() == ps.len());
    let h = ps[0];
    assert(pool(h));
    assert(1 <= int_size <= 3150) by (nonlinear_arith)
        requires
            int_size == (size_nm + 999_999) / 1_000_000,
            0 < size_nm <= 3_150_000_000,
    ;
    crate::preferred_limits::law_preferred_limits_distinct(int_size);
    assert(pref_error(hole, int_size, target, h) == 0);
    crate::fit::law_band_error(pref_limits(hole, int_size, h).unwrap(), target, 0);
    assert(pref_limits(hole, int_size, p) == Some(target));
    if h != p {
        if ps.contains(p) {
            let i = choose|i: int| 0 <= i < ps.len() && ps[i] == p;
            assert(lt(ps[0], ps[i]));
        } else {
            assert(lt(ps[ps.len() - 1], p));
            if ps.len() > 1 {
                assert(lt(ps[0], ps[ps.len() - 1]));
            }
            lemma_pref_orders(hole, int_size, target, NUM_PREFERRED as int);
        }
        assert(h < p);
        assert(pref_limits(hole, int_size, p) != pref_limits(hole, int_size, h));
    }
}

/// `names` holds `name`.
pub open spec fn names_include(names: Seq<String>, name: Seq<char>) -> bool {
    exists|p: int| 0 <= p < names.len() && (#[trigger] names[p])@ == name
}

/// Every entry of `list_preferred` carries one of the names that the preferred list of its
/// side reports: `names` stands for what `hole_preferred_tolerances` or
/// `shaft_preferred_tolerances` returns.
pub proof fn law_preferred_entries_are_listed(size_nm: int, class: Seq<char>, v: Seq<Match>, names: Seq<String>)
    requires
        spec_class_limits(size_nm, class) is Some,
        lists_preferred(size_nm, class, v),
        names.len() == NUM_PREFERRED,
        forall|p: int|
            0 <= p < NUM_PREFERRED ==> (#[trigger] names[p])@ == class_spelling(
                class_of(class).unwrap().0,
                preferred(class_of(class).unwrap().0)[p].0 as int,
                preferred(class_of(class).unwrap().0)[p].1 as int,
            ),
    ensures
        forall|i: int| 0 <= i < v.len() ==> names_include(names, (#[trigger] v[i]).class@),
{
    law_list_preferred_entries(size_nm, class, v);
    assert forall|i: int| 0 <= i < v.len() implies names_include(names, (#[trigger] v[i]).class@) by {
        let hole = class_of(class).unwrap().0;
        let p = choose|p: int|
            0 <= p < NUM_PREFERRED && v[i].class@ == class_spelling(
                hole,
                preferred(hole)[p].0 as int,
                preferred(hole)[p].1 as int,
            );
        assert(0 <= p < NUM_PREFERRED);
        assert(names[p]@ == v[i].class@);
    }
}

/// Of entries of `list_preferred` equally close to the class asked for, the one listed
/// earlier in the preferred table of its side comes first.
pub proof fn law_list_preferred_keeps_table_order(
    size_nm: int,
    class: Seq<char>,
    v: Seq<Match>,
    i: int,
    j: int,
    p: int,
    q: int,
)
    requires
        spec_class_limits(size_nm, class) is Some,
        lists_preferred(size_nm, class, v),
        0 <= i < j < v.len(),
        v[i].error == v[j].error,
        0 <= p < NUM_PREFERRED,
        0 <= q < NUM_PREFERRED,
        ({
            let hole = class_of(class).unwrap().0;
            &&& v[i].class@ == class_spelling(hole, preferred(hole)[p].0 as int, preferred(hole)[p].1 as int)
            &&& v[j].class@ == class_spelling(hole, preferred(hole)[q].0 as int, preferred(hole)[q].1 as int)
        }),
    ensures
        p < q,
{
    let (hole, _dev, _grade) = class_of(class).unwrap();
    let int_size = ceil_mm(size_nm);
    let target = spec_class_limits(size_nm, class).unwrap();
    let ps = choose|ps: Seq<int>|
        #[trigger] is_preferred_ranking(hole, int_size, target, ps) && ps.len() > 0 && views(v)
            == preferred_matches(size_nm, hole, int_size, target, ps);
    crate::tables::lemma_preferred_valid(hole);
    let pool = pref_pool(hole, int_size, NUM_PREFERRED as int);
    let lt = pref_lt(hole, int_size, target);
    assert(views(v).len() == v.len());
    assert(preferred_matches(size_nm, hole, int_size, target, ps).len() == ps.len());
    assert(views(v)[i] == v[i].view());
    assert(views(v)[j] == v[j].view());
    assert(lt(ps[i], ps[j]));
    assert(pool(ps[i]) && pool(ps[j]));
    let (a, b) = (preferred(hole)[ps[i]], preferred(hole)[ps[j]]);
    crate::class::law_class_name_round_trip(hole, a.0 as int, a.1 as int);
    crate::class::law_class_name_round_trip(hole, b.0 as int, b.1 as int);
    crate::class::law_class_name_round_trip(hole, preferred(hole)[p].0 as int, preferred(hole)[p].1 as int);
    crate::class::law_class_name_round_trip(hole, preferred(hole)[q].0 as int, preferred(hole)[q].1 as int);
    assert(preferred(hole)[p] == a);
    assert(preferred(hole)[q] == b);
    assert(p == ps[i]);
    assert(q == ps[j]);
}

/// The names that `list_preferred` lists are exactly the preferred classes of the side that
/// apply at the size, each once.
pub proof fn law_list_preferred_is_the_applicable_preferred_classes(
    size_nm: int,
    class: Seq<char>,
    v: Seq<Match>,
    name: Seq<char>,
)
    requires
        spec_class_limits(size_nm, class) is Some,
        lists_preferred(size_nm, class, v),
    ensures
        forall|i: int, j: int| 0 <= i < j < v.len() ==> #[trigger] v[i].class@ != #[trigger] v[j].class@,
        (exists|i: int| 0 <= i < v.len() && v[i].class@ == name) <==> (exists|p: int|
            0 <= p < NUM_PREFERRED && pref_limits(class_of(class).unwrap().0, ceil_mm(size_nm), p) is Some
                && name == class_spelling(
                class_of(class).unwrap().0,
                preferred(class_of(class).unwrap().0)[p].0 as int,
                preferred(class_of(class).unwrap().0)[p].1 as int,
            )),
{
    let (hole, _dev, _grade) = class_of(class).unwrap();
    let int_size = ceil_mm(size_nm);
    let target = spec_class_limits(size_nm, class).unwrap();
    let ps = choose|ps: Seq<int>|
        #[trigger] is_preferred_ranking(hole, int_size, target, ps) && ps.len() > 0 && views(v)
            == preferred_matches(size_nm, hole, int_size, target, ps);
    crate::tables::lemma_preferred_valid(hole);
    let pool = pref_pool(hole, int_size, NUM_PREFERRED as int);
    assert(views(v).len() == v.len());
    assert(preferred_matches(size_nm, hole, int_size, target, ps).len() == ps.len());
    if exists|i: int| 0 <= i < v.len() && v[i].class@ == name {
        let i = choose|i: int| 0 <= i < v.len() && v[i].class@ == name;
        assert(views(v)[i] == v[i].view());
        assert(pool(ps[i]));
        let p = ps[i];
        assert(0 <= p < NUM_PREFERRED && pref_limits(hole, int_size, p) is Some && name == class_spelling(
            hole,
            preferred(hole)[p].0 as int,
            preferred(hole)[p].1 as int,
        ));
    }
    if exists|p: int|
        0 <= p < NUM_PREFERRED && pref_limits(hole, int_size, p) is Some && name == class_spelling(
            hole,
            preferred(hole)[p].0 as int,
            preferred(hole)[p].1 as int,
        ) {
        let p = choose|p: int|
            0 <= p < NUM_PREFERRED && pref_limits(hole, int_size, p) is Some && name == class_spelling(
                hole,
                preferred(hole)[p].0 as int,
                preferred(hole)[p].1 as int,
            );
        law_list_preferred_lists_every_applicable_class(size_nm, class, v, p);
    }
    if v.len() > 0 {
        let p0 = ps[0];
        assert(pool(p0));
        law_list_preferred_lists_every_applicable_class(size_nm, class, v, p0);
    }
}

/// The classes of one side that the tables define at a table size, by deviation index and
/// grade index.
pub open spec fn applicable_classes(hole: bool, int_size: int) -> Set<(int, int)> {
    Set::new(
        |c: (int, int)|
            0 <= c.0 < NUM_DEVIATIONS && 1 <= c.1 <= NUM_GRADES && spec_limits_nm(int_size, hole, c.0, c.1) is Some,
    )
}

/// Every deviation index and grade index, as a pair.
spec fn all_class_indices() -> Seq<(int, int)> {
    Seq::new(560, |i: int| (i / 20, i % 20 + 1))
}

/// There are finitely many applicable classes.
proof fn lemma_applicable_classes_finite(hole: bool, int_size: int)
    ensures
        applicable_classes(hole, int_size).finite(),
{
    let all = all_class_indices().to_set();
    assert forall|c: (int, int)| applicable_classes(hole, int_size).contains(c) implies all.contains(c) by {
        let i = c.0 * 20 + c.1 - 1;
        assert(0 <= i < 560 && i / 20 == c.0 && i % 20 + 1 == c.1) by (nonlinear_arith)
            requires
                0 <= c.0 < 28,
                1 <= c.1 <= 20,
                i == c.0 * 20 + c.1 - 1,
        ;
        assert(all_class_indices()[i] == c);
    }
    vstd::seq_lib::seq_to_set_is_finite(all_class_indices());
    vstd::set_lib::lemma_len_subset(applicable_classes(hole, int_size), all);
}

/// With the nominal size held, `list_closest` reports as many classes as asked for, or every
/// class that applies at the size where there are fewer.
pub proof fn law_strict_count(
    size_nm: int,
    upper_nm: int,
    lower_nm: int,
    feature: Feature,
    decimals: int,
    k: int,
    v: Seq<Match>,
)
    requires
        closest_args_ok(size_nm, upper_nm, lower_nm, decimals),
        0 < k,
        lists_closest(closest_search(size_nm, upper_nm, lower_nm, feature, true, decimals), k, v),
    ensures
        applicable_classes(feature is Hole, ceil_mm(size_nm)).finite(),
        v.len() == if k < applicable_classes(feature is Hole, ceil_mm(size_nm)).len() {
            k
        } else {
            applicable_classes(feature is Hole, ceil_mm(size_nm)).len() as int
        },
{
    let s = closest_search(size_nm, upper_nm, lower_nm, feature, true, decimals);
    lemma_closest_search_valid(size_nm, upper_nm, lower_nm, feature, true, decimals);
    let cands = closest_ranking(s, k, v);
    let a = applicable_classes(s.hole, s.int_size as int);
    lemma_applicable_classes_finite(s.hole, s.int_size as int);
    let w = cands.map_values(|c: Candidate| (c.dev as int, c.idx_grade as int));
    assert forall|i: int| 0 <= i < w.len() implies a.contains(#[trigger] w[i]) by {
        lemma_pool_member(s, cands[i]);
        lemma_pool_member_applies(s, cands[i]);
    }
    assert forall|i: int, j: int| 0 <= i < w.len() && 0 <= j < w.len() && i != j implies w[i] != w[j] by {
        lemma_pool_member(s, cands[i]);
        lemma_pool_member(s, cands[j]);
        if w[i] == w[j] {
            crate::closest::lemma_strict_class_unique(s, cands[i], cands[j]);
            if i < j {
                assert(closer()(cands[i], cands[j]));
            } else {
                assert(closer()(cands[j], cands[i]));
            }
        }
    }
    assert(w.no_duplicates());
    w.unique_seq_to_set();
    assert(w.to_set().subset_of(a));
    vstd::set_lib::lemma_len_subset(w.to_set(), a);
    if cands.len() < k {
        assert forall|c: (int, int)| #[trigger] a.contains(c) implies w.to_set().contains(c) by {
            lemma_class_is_candidate(s, c.0, c.1);
            let x = choose|x: Candidate|
                #[trigger] pool(s)(x) && x.dev == c.0 && x.idx_grade == c.1 && x.error
                    == crate::fit::spec_band_error(
                    crate::fit::spec_absolute(s.size_nm as int, spec_limits_nm(s.int_size as int, s.hole, c.0, c.1).unwrap()),
                    s.target_int(),
                );
            assert(cands.contains(x));
            let i = choose|i: int| 0 <= i < cands.len() && cands[i] == x;
            assert(w[i] == c);
        }
        assert(w.to_set() =~= a);
    }
}

/// Ten to the power `n`.
pub open spec fn ten_to(n: nat) -> int
    decreases n,
{
    if n == 0 {
        1
    } else {
        10 * ten_to((n - 1) as nat)
    }
}

/// A step of the size grid for `decimals` decimal places is one unit of the last place: ten to
/// the power `decimals` steps make a millimetre.
pub proof fn law_quantum_is_a_decimal_place(decimals: int)
    requires
        0 <= decimals <= MAX_DECIMALS,
    ensures
        spec_quantum(decimals) * ten_to(decimals as nat) == 1_000_000,
{
    reveal_with_fuel(ten_to, 7);
}

/// The whole millimetre a size rounds up to is the least number of millimetres at or above it.
pub proof fn law_ceil_mm(size_nm: int)
    ensures
        (ceil_mm(size_nm) - 1) * 1_000_000 < size_nm <= ceil_mm(size_nm) * 1_000_000,
{
    assert((ceil_mm(size_nm) - 1) * 1_000_000 < size_nm <= ceil_mm(size_nm) * 1_000_000) by (nonlinear_arith)
        requires
            ceil_mm(size_nm) == (size_nm + 999_999) / 1_000_000,
    ;
}

/// The preferred classes of ISO 286, by name: holes A11, B11, C11, D10, E9, F8, G7, H7, H8, H9,
/// H11, JS7, K7, N7, P7, R7, S7 and U7, and shafts a11, b11, c11, d9, e8, f7, g6, h6, h7, h9,
/// h11, js6, k6, n6, p6, r6, s6 and u6.
pub open spec fn preferred_class_names(hole: bool) -> Seq<Seq<char>> {
    if hole {
        seq![seq!['A', '1', '1'], seq!['B', '1', '1'], seq!['C', '1', '1'], seq!['D', '1', '0'], seq!['E', '9'], seq!['F', '8'], seq!['G', '7'], seq!['H', '7'], seq!['H', '8'], seq!['H', '9'], seq!['H', '1', '1'], seq!['J', 'S', '7'], seq!['K', '7'], seq!['N', '7'], seq!['P', '7'], seq!['R', '7'], seq!['S', '7'], seq!['U', '7']]
    } else {
        seq![seq!['a', '1', '1'], seq!['b', '1', '1'], seq!['c', '1', '1'], seq!['d', '9'], seq!['e', '8'], seq!['f', '7'], seq!['g', '6'], seq!['h', '6'], seq!['h', '7'], seq!['h', '9'], seq!['h', '1', '1'], seq!['j', 's', '6'], seq!['k', '6'], seq!['n', '6'], seq!['p', '6'], seq!['r', '6'], seq!['s', '6'], seq!['u', '6']]
    }
}

/// The preferred lists name the preferred classes of ISO 286, in that order.
pub proof fn law_preferred_lists(hole: bool, p: int)
    requires
        0 <= p < NUM_PREFERRED,
    ensures
        class_spelling(hole, preferred(hole)[p].0 as int, preferred(hole)[p].1 as int) == preferred_class_names(hole)[p],
{
    if p == 0 {
        assert(class_spelling(hole, preferred(hole)[p].0 as int, preferred(hole)[p].1 as int) =~= preferred_class_names(hole)[p]);
    } else if p == 1 {
        assert(class_spelling(hole, preferred(hole)[p].0 as int, preferred(hole)[p].1 as int) =~= preferred_class_names(hole)[p]);
    } else if p == 2 {
        assert(class_spelling(hole, preferred(hole)[p].0 as int, preferred(hole)[p].1 as int) =~= preferred_class_names(hole)[p]);
    } else if p == 3 {
        assert(class_spelling(hole, preferred(hole)[p].0 as int, preferred(hole)[p].1 as int) =~= preferred_class_names(hole)[p]);
    } else if p == 4 {
        assert(class_spelling(hole, preferred(hole)[p].0 as int, preferred(hole)[p].1 as int) =~= preferred_class_names(hole)[p]);
    } else if p == 5 {
        assert(class_spelling(hole, preferred(hole)[p].0 as int, preferred(hole)[p].1 as int) =~= preferred_class_names(hole)[p]);
    } else if p == 6 {
        assert(class_spelling(hole, preferred(hole)[p].0 as int, preferred(hole)[p].1 as int) =~= preferred_class_names(hole)[p]);
    } else if p == 7 {
        assert(class_spelling(hole, preferred(hole)[p].0 as int, preferred(hole)[p].1 as int) =~= preferred_class_names(hole)[p]);
    } else if p == 8 {
        assert(class_spelling(hole, preferred(hole)[p].0 as int, preferred(hole)[p].1 as int) =~= preferred_class_names(hole)[p]);
    } else if p == 9 {
        assert(class_spelling(hole, preferred(hole)[p].0 as int, preferred(hole)[p].1 as int) =~= preferred_class_names(hole)[p]);
    } else if p == 10 {
        assert(class_spelling(hole, preferred(hole)[p].0 as int, preferred(hole)[p].1 as int) =~= preferred_class_names(hole)[p]);
    } else if p == 11 {
        assert(class_spelling(hole, preferred(hole)[p].0 as int, preferred(hole)[p].1 as int) =~= preferred_class_names(hole)[p]);
    } else if p == 12 {
        assert(class_spelling(hole, preferred(hole)[p].0 as int, preferred(hole)[p].1 as int) =~= preferred_class_names(hole)[p]);
    } else if p == 13 {
        assert(class_spelling(hole, preferred(hole)[p].0 as int, preferred(hole)[p].1 as int) =~= preferred_class_names(hole)[p]);
    } else if p == 14 {
        assert(class_spelling(hole, preferred(hole)[p].0 as int, preferred(hole)[p].1 as int) =~= preferred_class_names(hole)[p]);
    } else if p == 15 {
        assert(class_spelling(hole, preferred(hole)[p].0 as int, preferred(hole)[p].1 as int) =~= preferred_class_names(hole)[p]);
    } else if p == 16 {
        assert(class_spelling(hole, preferred(hole)[p].0 as int, preferred(hole)[p].1 as int) =~= preferred_class_names(hole)[p]);
    } else if p == 17 {
        assert(class_spelling(hole, preferred(hole)[p].0 as int, preferred(hole)[p].1 as int) =~= preferred_class_names(hole)[p]);
    }
}

} // verus!
