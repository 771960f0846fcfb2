//! The search for the tolerance classes closest to a wanted tolerance.

use vstd::prelude::*;
use crate::bracket::{bracket, in_scope, lists_bracket_bounds, bracket_bounds, num_brackets, size_brackets};
use crate::deviation::{it_nm, limits_nm, spec_it_nm, spec_limits_nm};
use crate::fit::{
    abs, absolute, band_error, best_fit, reachable, small, spec_absolute, spec_band_error,
    spec_best_fit, spec_width_bound, width_bound,
};
use crate::rank::{is_top_k, orders, strictly_sorted, with, keep_first, lemma_top_k_insert};
use crate::tables::{preferred, NUM_DEVIATIONS, NUM_GRADES, NUM_PREFERRED};

verus! {

/// What a search is run against: the nominal size in nanometres and its table size in
/// millimetres, the wanted absolute limits, the side, whether the nominal size is held, and
/// the size grid in nanometres.
pub struct Search {
    pub size_nm: i64,
    pub int_size: i32,
    pub target: (i128, i128),
    pub hole: bool,
    pub strict: bool,
    pub quantum: i64,
}

impl Search {
    /// The ranges that hold for every search that `list_closest` runs.
    pub open spec fn valid(self) -> bool {
        &&& 0 < self.size_nm <= 3_150_000_000
        &&& 1 <= self.int_size <= 3150
        &&& self.int_size == crate::lookup::ceil_mm(self.size_nm as int)
        &&& reachable(self.target.0 as int)
        &&& reachable(self.target.1 as int)
        &&& 1 <= self.quantum <= 1_000_000
        &&& 1_000_000int % (self.quantum as int) == 0
    }

    /// The brackets searched: the one holding the size when it is held, else all.
    pub open spec fn scope(self) -> Option<i32> {
        if self.strict {
            Some(self.int_size)
        } else {
            None
        }
    }

    pub open spec fn target_int(self) -> (int, int) {
        (self.target.0 as int, self.target.1 as int)
    }
}

/// One tolerance class placed at a nominal size.
pub struct Candidate {
    pub error: i128,
    pub shift: i64,
    pub preferred: bool,
    pub size: i64,
    pub limits: (i64, i64),
    pub dev: usize,
    pub idx_grade: usize,
    pub end: i32,
}

/// Closest first, then preferred classes, then the smallest change to the nominal size, then
/// the tightest grade; deviation letter and bracket keep the order total.
pub open spec fn rank_key(c: Candidate) -> (int, int, int, int, int, int) {
    (
        c.error as int,
        if c.preferred {
            0
        } else {
            1
        },
        c.shift as int,
        c.idx_grade as int,
        c.dev as int,
        c.end as int,
    )
}

/// `a` comes before `b` in lexicographic order.
pub open spec fn lex_less(a: (int, int, int, int, int, int), b: (int, int, int, int, int, int)) -> bool {
    ||| a.0 < b.0
    ||| a.0 == b.0 && a.1 < b.1
    ||| a.0 == b.0 && a.1 == b.1 && a.2 < b.2
    ||| a.0 == b.0 && a.1 == b.1 && a.2 == b.2 && a.3 < b.3
    ||| a.0 == b.0 && a.1 == b.1 && a.2 == b.2 && a.3 == b.3 && a.4 < b.4
    ||| a.0 == b.0 && a.1 == b.1 && a.2 == b.2 && a.3 == b.3 && a.4 == b.4 && a.5 < b.5
}

/// The order a search ranks candidates in.
pub open spec fn closer() -> spec_fn(Candidate, Candidate) -> bool {
    |a: Candidate, b: Candidate| lex_less(rank_key(a), rank_key(b))
}

fn is_closer(a: &Candidate, b: &Candidate) -> (r: bool)
    ensures
        r == closer()(*a, *b),
{
    let pa: i64 = if a.preferred { 0 } else { 1 };
    let pb: i64 = if b.preferred { 0 } else { 1 };
    if a.error != b.error {
        a.error < b.error
    } else if pa != pb {
        pa < pb
    } else if a.shift != b.shift {
        a.shift < b.shift
    } else if a.idx_grade != b.idx_grade {
        a.idx_grade < b.idx_grade
    } else if a.dev != b.dev {
        a.dev < b.dev
    } else {
        a.end < b.end
    }
}

/// The candidate a class gives in the bracket from `start` to `end`, at the bracket's upper
/// bound: held at the given size, or placed on the size grid as close as it gets.
#[verifier::opaque]
pub open spec fn cand_from(s: Search, start: int, end: int, grade: int, dev: int) -> Option<Candidate> {
    match spec_limits_nm(end, s.hole, dev, grade) {
        Some(lim) => {
            let (found, error) = if s.strict {
                (s.size_nm as int, spec_band_error(spec_absolute(s.size_nm as int, lim), s.target_int()))
            } else {
                spec_best_fit(lim, s.target_int(), (start * 1_000_000, end * 1_000_000), s.quantum as int)
            };
            Some(
                Candidate {
                    error: error as i128,
                    shift: abs(found - s.size_nm) as i64,
                    preferred: preferred(s.hole).contains((dev as usize, grade as usize)),
                    size: found as i64,
                    limits: (lim.0 as i64, lim.1 as i64),
                    dev: dev as usize,
                    idx_grade: grade as usize,
                    end: end as i32,
                },
            )
        },
        None => None,
    }
}

/// A search group: a bracket and a grade, with the least error any class of that band width
/// can reach.
pub type Group = (i128, i32, i32, usize);

/// The group of grade `grade` in bracket `b`, where the grade is defined at its upper bound.
pub open spec fn group_of(s: Search, b: (int, int), grade: int) -> Option<Group> {
    match spec_it_nm(b.1, grade) {
        Some(tol) => Some((spec_width_bound(tol, s.target_int()) as i128, b.0 as i32, b.1 as i32, grade as usize)),
        None => None,
    }
}

/// `gr` is a group of the search: a bracket in scope and a grade defined at its upper bound.
pub open spec fn is_group(s: Search, gr: Group) -> bool {
    exists|j: int, g: int|
        0 <= j < num_brackets() && in_scope(s.scope(), bracket(j)) && 1 <= g <= NUM_GRADES
            && #[trigger] group_of(s, bracket(j), g) == Some(gr)
}

/// Every candidate of the search: each class of each group that the tables define.
pub open spec fn pool(s: Search) -> spec_fn(Candidate) -> bool {
    |c: Candidate|
        exists|gr: Group, d: int|
            is_group(s, gr) && 0 <= d < NUM_DEVIATIONS && #[trigger] cand_from(
                s,
                gr.1 as int,
                gr.2 as int,
                gr.3 as int,
                d,
            ) == Some(c)
}

/// Groups in the order the search visits them.
pub open spec fn group_less(a: Group, b: Group) -> bool {
    ||| a.0 < b.0
    ||| a.0 == b.0 && a.1 < b.1
    ||| a.0 == b.0 && a.1 == b.1 && a.2 < b.2
    ||| a.0 == b.0 && a.1 == b.1 && a.2 == b.2 && a.3 < b.3
}

fn group_is_less(a: Group, b: Group) -> (r: bool)
    ensures
        r == group_less(a, b),
{
    if a.0 != b.0 {
        a.0 < b.0
    } else if a.1 != b.1 {
        a.1 < b.1
    } else if a.2 != b.2 {
        a.2 < b.2
    } else {
        a.3 < b.3
    }
}

proof fn lemma_push_contains<A>(s: Seq<A>, x: A, y: A)
    ensures
        s.push(x).contains(y) <==> s.contains(y) || y == x,
{
    if s.contains(y) {
        let k = choose|k: int| 0 <= k < s.len() && s[k] == y;
        assert(s.push(x)[k] == y);
    }
    if s.push(x).contains(y) {
        let k = choose|k: int| 0 <= k < s.push(x).len() && s.push(x)[k] == y;
        if k < s.len() {
            assert(s[k] == y);
        }
    }
    assert(s.push(x)[s.len() as int] == x);
}

/// Sort the groups, dropping repeats.
fn sort_groups(groups: &Vec<Group>) -> (r: Vec<Group>)
    ensures
        forall|i: int, j: int| 0 <= i < j < r@.len() ==> group_less(#[trigger] r@[i], #[trigger] r@[j]),
        forall|gr: Group| #[trigger] r@.contains(gr) <==> groups@.contains(gr),
{
    let mut r: Vec<Group> = Vec::new();
    let mut n: usize = 0;
    while n < groups.len()
        invariant
            n <= groups@.len(),
            forall|i: int, j: int| 0 <= i < j < r@.len() ==> group_less(#[trigger] r@[i], #[trigger] r@[j]),
            forall|gr: Group| #[trigger] r@.contains(gr) <==> groups@.take(n as int).contains(gr),
        decreases groups@.len() - n,
    {
        let x = groups[n];
        let mut at: usize = 0;
        while at < r.len() && group_is_less(r[at], x)
            invariant
                at <= r@.len(),
                forall|i: int| 0 <= i < at ==> group_less(#[trigger] r@[i], x),
            decreases r@.len() - at,
        {
            at += 1;
        }
        let ghost before = r@;
        if at < r.len() && !group_is_less(x, r[at]) {
            proof {
                assert(r@[at as int] == x);
                assert forall|gr: Group| #[trigger] r@.contains(gr) <==> groups@.take(n + 1).contains(gr) by {
                    assert(groups@.take(n + 1) =~= groups@.take(n as int).push(x));
                    lemma_push_contains(groups@.take(n as int), x, gr);
                    if gr == x {
                        assert(r@[at as int] == x);
                    }
                }
            }
        } else {
            r.insert(at, x);
            proof {
                assert(r@ =~= before.insert(at as int, x));
                assert forall|i: int, j: int| 0 <= i < j < r@.len() implies group_less(#[trigger] r@[i], #[trigger] r@[j]) by {
                    if j < at {
                        assert(group_less(before[i], before[j]));
                    } else if j == at {
                    } else if i < at {
                        assert(group_less(before[i], x));
                        assert(group_less(x, before[at as int]) || x == before[at as int]);
                        if j - 1 > at {
                            assert(group_less(before[at as int], before[j - 1]));
                        }
                    } else if i == at {
                        assert(!group_less(before[at as int], x));
                        assert(before[at as int] != x);
                        if j - 1 > at {
                            assert(group_less(before[at as int], before[j - 1]));
                        }
                    } else {
                        assert(group_less(before[i - 1], before[j - 1]));
                    }
                }
                assert forall|gr: Group| #[trigger] r@.contains(gr) <==> groups@.take(n + 1).contains(gr) by {
                    assert(groups@.take(n + 1) =~= groups@.take(n as int).push(x));
                    lemma_push_contains(groups@.take(n as int), x, gr);
                    if before.contains(gr) {
                        let k = choose|k: int| 0 <= k < before.len() && before[k] == gr;
                        if k < at {
                            assert(r@[k] == gr);
                        } else {
                            assert(r@[k + 1] == gr);
                        }
                    }
                    if r@.contains(gr) {
                        let k = choose|k: int| 0 <= k < r@.len() && r@[k] == gr;
                        if k < at {
                            assert(before[k] == gr);
                        } else if k > at {
                            assert(before[k - 1] == gr);
                        }
                    }
                    if gr == x {
                        assert(r@[at as int] == x);
                    }
                }
            }
        }
        n += 1;
    }
    assert(groups@.take(groups@.len() as int) =~= groups@);
    r
}


/// Two groups of a search that share a bracket end and a grade are one group.
proof fn lemma_group_unique(s: Search, a: Group, b: Group)
    requires
        lists_bracket_bounds(bracket_bounds()),
        is_group(s, a),
        is_group(s, b),
        a.2 == b.2,
        a.3 == b.3,
    ensures
        a == b,
{
    let (ja, ga) = choose|j: int, g: int|
        0 <= j < num_brackets() && in_scope(s.scope(), bracket(j)) && 1 <= g <= NUM_GRADES
            && #[trigger] group_of(s, bracket(j), g) == Some(a);
    let (jb, gb) = choose|j: int, g: int|
        0 <= j < num_brackets() && in_scope(s.scope(), bracket(j)) && 1 <= g <= NUM_GRADES
            && #[trigger] group_of(s, bracket(j), g) == Some(b);
    let bs = bracket_bounds();
    lemma_bracket_bound_range(ja);
    lemma_bracket_bound_range(jb);
    if ja < jb {
        assert(bs[ja] < bs[jb]);
    } else if jb < ja {
        assert(bs[jb] < bs[ja]);
    }
}

/// Every bracket lies within 0 to 3150 mm and is at least a millimetre wide.
pub proof fn lemma_bracket_bound_range(j: int)
    requires
        lists_bracket_bounds(bracket_bounds()),
        0 <= j < num_brackets(),
    ensures
        0 <= bracket(j).0 < bracket(j).1 <= 3150,
        1 <= bracket(j).1,
{
    let bs = bracket_bounds();
    assert(bs.contains(bs[j]));
    crate::bracket::lemma_table_bounds_positive(bs[j]);
    if j > 0 {
        assert(bs.contains(bs[j - 1]));
        crate::bracket::lemma_table_bounds_positive(bs[j - 1]);
        assert(bs[j - 1] < bs[j]);
    }
}

/// The fields of a candidate name the class and bracket it came from.
proof fn lemma_cand_fields(s: Search, start: int, end: int, grade: int, dev: int)
    requires
        cand_from(s, start, end, grade, dev) is Some,
        0 <= dev < NUM_DEVIATIONS,
        1 <= grade <= NUM_GRADES,
        1 <= end <= 3150,
    ensures
        cand_from(s, start, end, grade, dev).unwrap().dev == dev,
        cand_from(s, start, end, grade, dev).unwrap().idx_grade == grade,
        cand_from(s, start, end, grade, dev).unwrap().end == end,
{
    reveal(cand_from);
}


proof fn lemma_lex_order(a: (int, int, int, int, int, int), b: (int, int, int, int, int, int), c: (int, int, int, int, int, int))
    ensures
        lex_less(a, b) ==> !lex_less(b, a),
        lex_less(a, b) && lex_less(b, c) ==> lex_less(a, c),
        a != b ==> lex_less(a, b) || lex_less(b, a),
{
}

/// A strict total order: no two candidates of a search rank alike.
#[verifier::spinoff_prover]
pub proof fn lemma_orders_pool(s: Search)
    requires
        s.valid(),
        lists_bracket_bounds(bracket_bounds()),
    ensures
        orders(pool(s), closer()),
{
    assert forall|x: Candidate, y: Candidate|
        pool(s)(x) && pool(s)(y) && #[trigger] closer()(x, y) implies !closer()(y, x) by {
        lemma_lex_order(rank_key(x), rank_key(y), rank_key(y));
    }
    assert forall|x: Candidate, y: Candidate, z: Candidate|
        pool(s)(x) && pool(s)(y) && pool(s)(z) && #[trigger] closer()(x, y) && #[trigger] closer()(y, z)
        implies closer()(x, z) by {
        lemma_lex_order(rank_key(x), rank_key(y), rank_key(z));
    }
    assert forall|x: Candidate, y: Candidate|
        pool(s)(x) && pool(s)(y) && x != y implies #[trigger] closer()(x, y) || closer()(y, x) by {
        let (gx, dx) = choose|gr: Group, d: int|
            is_group(s, gr) && 0 <= d < NUM_DEVIATIONS && #[trigger] cand_from(
                s,
                gr.1 as int,
                gr.2 as int,
                gr.3 as int,
                d,
            ) == Some(x);
        let (gy, dy) = choose|gr: Group, d: int|
            is_group(s, gr) && 0 <= d < NUM_DEVIATIONS && #[trigger] cand_from(
                s,
                gr.1 as int,
                gr.2 as int,
                gr.3 as int,
                d,
            ) == Some(y);
        lemma_group_fields(s, gx);
        lemma_group_fields(s, gy);
        lemma_cand_fields(s, gx.1 as int, gx.2 as int, gx.3 as int, dx);
        lemma_cand_fields(s, gy.1 as int, gy.2 as int, gy.3 as int, dy);
        lemma_lex_order(rank_key(x), rank_key(y), rank_key(y));
        if !closer()(x, y) && !closer()(y, x) {
            assert(rank_key(x) == rank_key(y));
            lemma_group_unique(s, gx, gy);
        }
    }
}

/// A group names a grade and a bracket within 0 to 3150 mm.
proof fn lemma_group_fields(s: Search, gr: Group)
    requires
        s.valid(),
        lists_bracket_bounds(bracket_bounds()),
        is_group(s, gr),
    ensures
        1 <= gr.3 <= NUM_GRADES,
        0 <= gr.1 < gr.2 <= 3150,
        spec_it_nm(gr.2 as int, gr.3 as int) == Some(
            spec_it_nm(gr.2 as int, gr.3 as int).unwrap(),
        ),
        gr.0 == spec_width_bound(spec_it_nm(gr.2 as int, gr.3 as int).unwrap(), s.target_int()),
{
    let (j, g) = choose|j: int, g: int|
        0 <= j < num_brackets() && in_scope(s.scope(), bracket(j)) && 1 <= g <= NUM_GRADES
            && #[trigger] group_of(s, bracket(j), g) == Some(gr);
    lemma_bracket_bound_range(j);
    let tol = spec_it_nm(gr.2 as int, gr.3 as int).unwrap();
    assert(0 <= tol <= 100 * 0x7fff_ffff);
    let w = spec_width_bound(tol, s.target_int());
    assert(0 <= w <= 100_000_000_000_000_000_000);
}

/// No candidate of a group gets closer than the group's width bound.
proof fn lemma_error_above_bound(s: Search, gr: Group, d: int)
    requires
        s.valid(),
        lists_bracket_bounds(bracket_bounds()),
        is_group(s, gr),
        cand_from(s, gr.1 as int, gr.2 as int, gr.3 as int, d) is Some,
    ensures
        cand_from(s, gr.1 as int, gr.2 as int, gr.3 as int, d).unwrap().error >= gr.0,
{
    reveal(cand_from);
    lemma_group_fields(s, gr);
    let lim = spec_limits_nm(gr.2 as int, s.hole, d, gr.3 as int).unwrap();
    crate::deviation::law_band_shape(gr.2 as int, s.hole, d, gr.3 as int);
    crate::deviation::lemma_limits_small(gr.2 as int, s.hole, d, gr.3 as int);
    let t = s.target_int();
    if s.strict {
        crate::fit::law_width_bound(spec_absolute(s.size_nm as int, lim), t);
    } else {
        let bracket_nm = (gr.1 * 1_000_000, gr.2 * 1_000_000);
        let q = s.quantum as int;
        lemma_whole_mm_on_grid(gr.1 as int, q);
        lemma_whole_mm_on_grid(gr.2 as int, q);
        crate::fit::law_best_fit_optimal(lim, t, bracket_nm, q, bracket_nm.1);
        let best = spec_best_fit(lim, t, bracket_nm, q);
        crate::fit::law_width_bound(spec_absolute(best.0, lim), t);
    }
}

fn contains_pair(v: &Vec<(usize, usize)>, x: (usize, usize)) -> (r: bool)
    ensures
        r == v@.contains(x),
{
    let mut i: usize = 0;
    while i < v.len()
        invariant
            i <= v@.len(),
            forall|k: int| 0 <= k < i ==> v@[k] != x,
        decreases v@.len() - i,
    {
        if v[i].0 == x.0 && v[i].1 == x.1 {
            assert(v@[i as int] == x);
            return true;
        }
        i += 1;
    }
    false
}

fn abs_diff(a: i64, b: i64) -> (r: i64)
    requires
        -4_000_000_000_000_000_000 <= a <= 4_000_000_000_000_000_000,
        -4_000_000_000_000_000_000 <= b <= 4_000_000_000_000_000_000,
    ensures
        r == abs(a - b),
{
    if a < b {
        b - a
    } else {
        a - b
    }
}

/// The candidate a class gives in a bracket.
fn candidate(
    s: &Search,
    start: i32,
    end: i32,
    grade: usize,
    dev: usize,
    preferred_classes: &Vec<(usize, usize)>,
) -> (r: Option<Candidate>)
    requires
        s.valid(),
        0 <= start < end <= 3150,
        1 <= grade <= NUM_GRADES,
        dev < NUM_DEVIATIONS,
        preferred_classes@ == preferred(s.hole),
    ensures
        r == cand_from(*s, start as int, end as int, grade as int, dev as int),
{
    reveal(cand_from);
    let limits = limits_nm(end, s.hole, dev, grade)?;
    proof {
        lemma_whole_mm_on_grid(start as int, s.quantum as int);
        lemma_whole_mm_on_grid(end as int, s.quantum as int);
    }
    let (found, error) = if s.strict {
        (s.size_nm, band_error(absolute(s.size_nm, limits), s.target))
    } else {
        best_fit(limits, s.target, (crate::lookup::nm(start), crate::lookup::nm(end)), s.quantum)
    };
    let shift = abs_diff(found, s.size_nm);
    Some(
        Candidate {
            error,
            shift,
            preferred: contains_pair(preferred_classes, (dev, grade)),
            size: found,
            limits,
            dev,
            idx_grade: grade,
            end,
        },
    )
}


/// The groups made from the first `n` brackets of the list, and from bracket `n` the grades
/// below `g`.
pub open spec fn made(s: Search, idx: Seq<int>, n: int, g: int, gr: Group) -> bool {
    exists|bi: int, grade: int|
        0 <= bi <= n && bi < idx.len() && 1 <= grade <= NUM_GRADES && (bi < n || grade < g)
            && #[trigger] group_of(s, bracket(idx[bi]), grade) == Some(gr)
}

/// Every group of the search: each bracket in scope with each grade defined at its upper bound.
#[verifier::spinoff_prover]
fn make_groups(s: &Search, brackets: &Vec<(i32, i32)>, Ghost(idx): Ghost<Seq<int>>) -> (r: Vec<Group>)
    requires
        s.valid(),
        lists_bracket_bounds(bracket_bounds()),
        idx.len() == brackets@.len(),
        forall|i: int|
            0 <= i < brackets@.len() ==> 0 <= #[trigger] idx[i] < num_brackets() && (
            brackets@[i].0 as int,
            brackets@[i].1 as int,
        ) == bracket(idx[i]) && in_scope(s.scope(), bracket(idx[i])),
        forall|j: int|
            0 <= j < num_brackets() && in_scope(s.scope(), #[trigger] bracket(j)) ==> exists|i: int|
                0 <= i < idx.len() && idx[i] == j,
    ensures
        forall|gr: Group| #[trigger] r@.contains(gr) <==> is_group(*s, gr),
{
    let mut r: Vec<Group> = Vec::new();
    let mut i: usize = 0;
    while i < brackets.len()
        invariant
            i <= brackets@.len() == idx.len(),
            s.valid(),
            lists_bracket_bounds(bracket_bounds()),
            forall|k: int|
                0 <= k < brackets@.len() ==> 0 <= #[trigger] idx[k] < num_brackets() && (
                brackets@[k].0 as int,
                brackets@[k].1 as int,
            ) == bracket(idx[k]) && in_scope(s.scope(), bracket(idx[k])),
            forall|gr: Group| #[trigger] r@.contains(gr) <==> made(*s, idx, i as int, 1, gr),
        decreases brackets@.len() - i,
    {
        let (start, end) = brackets[i];
        proof {
            lemma_bracket_bound_range(idx[i as int]);
        }
        let mut g: usize = 1;
        while g <= NUM_GRADES
            invariant
                1 <= g <= NUM_GRADES + 1,
                i < brackets@.len() == idx.len(),
                s.valid(),
                (start as int, end as int) == bracket(idx[i as int]),
                0 <= start < end <= 3150,
                forall|gr: Group| #[trigger] r@.contains(gr) <==> made(*s, idx, i as int, g as int, gr),
            decreases NUM_GRADES + 1 - g,
        {
            let ghost before = r@;
            match it_nm(end, g) {
                Some(tol) => {
                    r.push((width_bound(tol, s.target), start, end, g));
                },
                None => {},
            }
            proof {
                assert forall|gr: Group| #[trigger] r@.contains(gr) <==> made(*s, idx, i as int, g + 1, gr) by {
                    crate::closest::lemma_push_contains(before, (0i128, 0i32, 0i32, 0usize), gr);
                    if r@.len() > before.len() {
                        assert(r@ == before.push(r@[before.len() as int]));
                        lemma_push_contains(before, r@[before.len() as int], gr);
                        if gr == r@[before.len() as int] {
                            assert(group_of(*s, bracket(idx[i as int]), g as int) == Some(gr));
                        }
                    } else {
                        assert(r@ == before);
                        assert(group_of(*s, bracket(idx[i as int]), g as int) is None);
                    }
                    if made(*s, idx, i as int, g + 1, gr) {
                        let (bi, grade) = choose|bi: int, grade: int|
                            0 <= bi <= i && bi < idx.len() && 1 <= grade <= NUM_GRADES && (bi < i || grade < g + 1)
                                && #[trigger] group_of(*s, bracket(idx[bi]), grade) == Some(gr);
                        if !(bi < i || grade < g) {
                            assert(bi == i && grade == g);
                        }
                    }
                }
            }
            g += 1;
        }
        proof {
            assert forall|gr: Group| made(*s, idx, i as int, 21, gr) <==> #[trigger] made(*s, idx, i + 1, 1, gr) by {
                if made(*s, idx, i + 1, 1, gr) {
                    let (bi, grade) = choose|bi: int, grade: int|
                        0 <= bi <= i + 1 && bi < idx.len() && 1 <= grade <= NUM_GRADES && (bi < i + 1 || grade < 1)
                            && #[trigger] group_of(*s, bracket(idx[bi]), grade) == Some(gr);
                    assert(0 <= bi <= i && bi < idx.len() && 1 <= grade <= NUM_GRADES && (bi < i || grade < 21));
                }
                if made(*s, idx, i as int, 21, gr) {
                    let (bi, grade) = choose|bi: int, grade: int|
                        0 <= bi <= i && bi < idx.len() && 1 <= grade <= NUM_GRADES && (bi < i || grade < 21)
                            && #[trigger] group_of(*s, bracket(idx[bi]), grade) == Some(gr);
                    assert(0 <= bi <= i + 1 && bi < idx.len() && 1 <= grade <= NUM_GRADES && (bi < i + 1 || grade < 1));
                }
            }
        }
        i += 1;
    }
    proof {
        assert forall|gr: Group| #[trigger] r@.contains(gr) <==> is_group(*s, gr) by {
            if made(*s, idx, idx.len() as int, 1, gr) {
                let (bi, grade) = choose|bi: int, grade: int|
                    0 <= bi <= idx.len() && bi < idx.len() && 1 <= grade <= NUM_GRADES && (bi < idx.len() || grade < 1)
                        && #[trigger] group_of(*s, bracket(idx[bi]), grade) == Some(gr);
                assert(0 <= idx[bi] < num_brackets());
            }
            if is_group(*s, gr) {
                let (j, grade) = choose|j: int, g: int|
                    0 <= j < num_brackets() && in_scope(s.scope(), bracket(j)) && 1 <= g <= NUM_GRADES
                        && #[trigger] group_of(*s, bracket(j), g) == Some(gr);
                let bi = choose|bi: int| 0 <= bi < idx.len() && idx[bi] == j;
                assert(group_of(*s, bracket(idx[bi]), grade) == Some(gr));
            }
        }
    }
    r
}


/// The candidates of the first `i` groups, and of group `i` those with deviation below `d`.
pub open spec fn done(s: Search, groups: Seq<Group>, i: int, d: int) -> spec_fn(Candidate) -> bool {
    |c: Candidate|
        exists|gi: int, dd: int|
            0 <= gi <= i && gi < groups.len() && 0 <= dd < NUM_DEVIATIONS && (gi < i || dd < d)
                && #[trigger] cand_from(
                s,
                groups[gi].1 as int,
                groups[gi].2 as int,
                groups[gi].3 as int,
                dd,
            ) == Some(c)
}

/// Slot a candidate in at its rank, dropping whatever falls past `results`.
fn insert_candidate(
    best: &mut Vec<Candidate>,
    c: Candidate,
    results: usize,
    Ghost(part): Ghost<spec_fn(Candidate) -> bool>,
    Ghost(full): Ghost<spec_fn(Candidate) -> bool>,
)
    requires
        results > 0,
        is_top_k(old(best)@, part, results as int, closer()),
        !part(c),
        full(c),
        forall|x: Candidate| #[trigger] part(x) ==> full(x),
        orders(full, closer()),
    ensures
        is_top_k(final(best)@, with(part, c), results as int, closer()),
{
    let ghost r = best@;
    let mut at: usize = 0;
    while at < best.len() && is_closer(&best[at], &c)
        invariant
            at <= best@.len(),
            r == best@,
            forall|i: int| 0 <= i < at ==> #[trigger] closer()(best@[i], c),
        decreases best@.len() - at,
    {
        at += 1;
    }
    proof {
        crate::rank::lemma_orders_sub(full, with(part, c), closer());
        assert forall|i: int| at <= i < r.len() implies #[trigger] closer()(c, r[i]) by {
            assert(part(r[i]));
            assert(r[i] != c);
            assert(!closer()(r[at as int], c));
            if i > at {
                assert(closer()(r[at as int], r[i]));
            }
        }
        lemma_top_k_insert(r, part, results as int, closer(), c, at as int);
    }
    best.insert(at, c);
    if best.len() > results {
        best.pop();
        proof {
            assert(best@ =~= r.insert(at as int, c).take(results as int));
        }
    }
}

/// The `results` closest candidates of the search, closest first.
#[verifier::spinoff_prover]
fn search(s: &Search, groups: &Vec<Group>, preferred_classes: &Vec<(usize, usize)>, results: usize) -> (best: Vec<Candidate>)
    requires
        s.valid(),
        lists_bracket_bounds(bracket_bounds()),
        results > 0,
        forall|i: int, j: int| 0 <= i < j < groups@.len() ==> group_less(#[trigger] groups@[i], #[trigger] groups@[j]),
        forall|gr: Group| #[trigger] groups@.contains(gr) <==> is_group(*s, gr),
        preferred_classes@ == preferred(s.hole),
    ensures
        is_top_k(best@, pool(*s), results as int, closer()),
{
    let ghost gs = groups@;
    proof {
        lemma_orders_pool(*s);
        assert forall|gi: int| 0 <= gi < gs.len() implies is_group(*s, #[trigger] gs[gi]) by {
            assert(gs.contains(gs[gi]));
        }
    }
    let mut best: Vec<Candidate> = Vec::new();
    let mut i: usize = 0;
    let mut stop = false;
    while i < groups.len() && !stop
        invariant
            i <= groups@.len(),
            gs == groups@,
            s.valid(),
            lists_bracket_bounds(bracket_bounds()),
            results > 0,
            preferred_classes@ == preferred(s.hole),
            forall|a: int, b: int| 0 <= a < b < gs.len() ==> group_less(#[trigger] gs[a], #[trigger] gs[b]),
            forall|gi: int| 0 <= gi < gs.len() ==> is_group(*s, #[trigger] gs[gi]),
            orders(pool(*s), closer()),
            is_top_k(best@, done(*s, gs, i as int, 0), results as int, closer()),
            stop ==> i < gs.len() && best@.len() == results && gs[i as int].0 > best@[results - 1].error,
        decreases gs.len() - i, if stop { 0int } else { 1int },
    {
        let (bound, start, end, grade) = groups[i];
        proof {
            lemma_group_fields(*s, gs[i as int]);
        }
        // Nothing later in the list has a smaller bound, so once even a perfectly placed band
        // of this width would lose to the worst result held, the search is over.
        if best.len() == results && bound > best[results - 1].error {
            stop = true;
        } else {
            let mut d: usize = 0;
            while d < NUM_DEVIATIONS
                invariant
                    i < gs.len(),
                    gs == groups@,
                    d <= NUM_DEVIATIONS,
                    s.valid(),
                    lists_bracket_bounds(bracket_bounds()),
                    results > 0,
                    preferred_classes@ == preferred(s.hole),
                    (bound, start, end, grade) == gs[i as int],
                    0 <= start < end <= 3150,
                    1 <= grade <= NUM_GRADES,
                    forall|a: int, b: int| 0 <= a < b < gs.len() ==> group_less(#[trigger] gs[a], #[trigger] gs[b]),
                    forall|gi: int| 0 <= gi < gs.len() ==> is_group(*s, #[trigger] gs[gi]),
                    orders(pool(*s), closer()),
                    is_top_k(best@, done(*s, gs, i as int, d as int), results as int, closer()),
                decreases NUM_DEVIATIONS - d,
            {
                let ghost part = done(*s, gs, i as int, d as int);
                let ghost next = done(*s, gs, i as int, d + 1);
                match candidate(s, start, end, grade, d, preferred_classes) {
                    Some(c) => {
                        proof {
                            assert forall|x: Candidate| #[trigger] part(x) implies pool(*s)(x) by {
                                let (gi, dd) = choose|gi: int, dd: int|
                                    0 <= gi <= i && gi < gs.len() && 0 <= dd < NUM_DEVIATIONS && (gi < i || dd < d)
                                        && #[trigger] cand_from(*s, gs[gi].1 as int, gs[gi].2 as int, gs[gi].3 as int, dd) == Some(x);
                                assert(is_group(*s, gs[gi]));
                            }
                            assert(is_group(*s, gs[i as int]));
                            assert(pool(*s)(c));
                            if part(c) {
                                let (gi, dd) = choose|gi: int, dd: int|
                                    0 <= gi <= i && gi < gs.len() && 0 <= dd < NUM_DEVIATIONS && (gi < i || dd < d)
                                        && #[trigger] cand_from(*s, gs[gi].1 as int, gs[gi].2 as int, gs[gi].3 as int, dd) == Some(c);
                                lemma_group_fields(*s, gs[gi]);
                                lemma_cand_fields(*s, gs[gi].1 as int, gs[gi].2 as int, gs[gi].3 as int, dd);
                                lemma_cand_fields(*s, start as int, end as int, grade as int, d as int);
                                lemma_group_unique(*s, gs[gi], gs[i as int]);
                                if gi < i {
                                    assert(group_less(gs[gi], gs[i as int]));
                                }
                            }
                        }
                        insert_candidate(&mut best, c, results, Ghost(part), Ghost(pool(*s)));
                        proof {
                            assert forall|x: Candidate| #[trigger] next(x) <==> with(part, c)(x) by {
                                if next(x) && !part(x) {
                                    let (gi, dd) = choose|gi: int, dd: int|
                                        0 <= gi <= i && gi < gs.len() && 0 <= dd < NUM_DEVIATIONS && (gi < i || dd < d + 1)
                                            && #[trigger] cand_from(*s, gs[gi].1 as int, gs[gi].2 as int, gs[gi].3 as int, dd) == Some(x);
                                    assert(gi == i && dd == d);
                                }
                                if x == c {
                                    assert(cand_from(*s, gs[i as int].1 as int, gs[i as int].2 as int, gs[i as int].3 as int, d as int) == Some(x));
                                }
                            }
                            assert(next =~= with(part, c));
                        }
                    },
                    None => {
                        proof {
                            assert forall|x: Candidate| #[trigger] next(x) <==> part(x) by {
                                if next(x) && !part(x) {
                                    let (gi, dd) = choose|gi: int, dd: int|
                                        0 <= gi <= i && gi < gs.len() && 0 <= dd < NUM_DEVIATIONS && (gi < i || dd < d + 1)
                                            && #[trigger] cand_from(*s, gs[gi].1 as int, gs[gi].2 as int, gs[gi].3 as int, dd) == Some(x);
                                    assert(gi == i && dd == d);
                                }
                            }
                            assert(next =~= part);
                        }
                    },
                }
                d += 1;
            }
            proof {
                let a = done(*s, gs, i as int, NUM_DEVIATIONS as int);
                let b = done(*s, gs, i + 1, 0);
                assert forall|x: Candidate| #[trigger] a(x) <==> b(x) by {
                    if a(x) {
                        let (gi, dd) = choose|gi: int, dd: int|
                            0 <= gi <= i && gi < gs.len() && 0 <= dd < NUM_DEVIATIONS && (gi < i || dd < NUM_DEVIATIONS)
                                && #[trigger] cand_from(*s, gs[gi].1 as int, gs[gi].2 as int, gs[gi].3 as int, dd) == Some(x);
                        assert(0 <= gi <= i + 1 && gi < gs.len() && 0 <= dd < NUM_DEVIATIONS && (gi < i + 1 || dd < 0));
                    }
                    if b(x) {
                        let (gi, dd) = choose|gi: int, dd: int|
                            0 <= gi <= i + 1 && gi < gs.len() && 0 <= dd < NUM_DEVIATIONS && (gi < i + 1 || dd < 0)
                                && #[trigger] cand_from(*s, gs[gi].1 as int, gs[gi].2 as int, gs[gi].3 as int, dd) == Some(x);
                        assert(0 <= gi <= i && gi < gs.len() && 0 <= dd < NUM_DEVIATIONS && (gi < i || dd < NUM_DEVIATIONS));
                    }
                }
                assert(a =~= b);
            }
            i += 1;
        }
    }
    proof {
        let part = done(*s, gs, i as int, 0);
        assert forall|x: Candidate| #[trigger] part(x) implies pool(*s)(x) by {
            let (gi, dd) = choose|gi: int, dd: int|
                0 <= gi <= i && gi < gs.len() && 0 <= dd < NUM_DEVIATIONS && (gi < i || dd < 0)
                    && #[trigger] cand_from(*s, gs[gi].1 as int, gs[gi].2 as int, gs[gi].3 as int, dd) == Some(x);
            assert(is_group(*s, gs[gi]));
        }
        assert forall|x: Candidate| #[trigger] pool(*s)(x) && !part(x) implies best@.len() == results && results > 0
            && closer()(best@[results - 1], x) by {
            let (gr, dd) = choose|gr: Group, d: int|
                is_group(*s, gr) && 0 <= d < NUM_DEVIATIONS && #[trigger] cand_from(*s, gr.1 as int, gr.2 as int, gr.3 as int, d) == Some(x);
            assert(gs.contains(gr));
            let gi = choose|gi: int| 0 <= gi < gs.len() && gs[gi] == gr;
            if gi < i {
                assert(part(x));
            }
            assert(stop);
            if gi > i {
                assert(group_less(gs[i as int], gs[gi]));
            }
            lemma_error_above_bound(*s, gr, dd);
        }
        crate::rank::lemma_top_k_extend(best@, part, pool(*s), results as int, closer());
    }
    best
}

/// Every candidate of a search names a class of the tables, with limits within ten kilometres of
/// the nominal size.
pub proof fn lemma_pool_member(s: Search, c: Candidate)
    requires
        s.valid(),
        lists_bracket_bounds(bracket_bounds()),
        pool(s)(c),
    ensures
        c.dev < NUM_DEVIATIONS,
        1 <= c.idx_grade <= NUM_GRADES,
        small(c.limits.0 as int),
        small(c.limits.1 as int),
{
    let (gr, d) = choose|gr: Group, d: int|
        is_group(s, gr) && 0 <= d < NUM_DEVIATIONS && #[trigger] cand_from(s, gr.1 as int, gr.2 as int, gr.3 as int, d) == Some(c);
    lemma_group_fields(s, gr);
    lemma_cand_fields(s, gr.1 as int, gr.2 as int, gr.3 as int, d);
    reveal(cand_from);
    crate::deviation::lemma_limits_small(gr.2 as int, s.hole, d, gr.3 as int);
}

/// The `results` closest candidates of the search, closest first.
pub fn closest_candidates(s: &Search, results: usize) -> (r: Vec<Candidate>)
    requires
        s.valid(),
        results > 0,
    ensures
        lists_bracket_bounds(bracket_bounds()),
        is_top_k(r@, pool(*s), results as int, closer()),
{
    let (brackets, idx) = size_brackets(if s.strict { Some(s.int_size) } else { None });
    let groups = make_groups(s, &brackets, idx);
    // A size bracket and a grade fix the band width, whatever the deviation letter, so they
    // are worth ordering by their bound before paying for the letters under each.
    let groups = sort_groups(&groups);
    let preferred_classes = crate::lookup::preferred_indices(s.hole);
    search(s, &groups, &preferred_classes, results)
}

/// A whole number of millimetres lies on every size grid.
proof fn lemma_whole_mm_on_grid(mm: int, q: int)
    requires
        q > 0,
        1_000_000int % q == 0,
    ensures
        (mm * 1_000_000) % q == 0,
{
    let m = 1_000_000int / q;
    vstd::arithmetic::div_mod::lemma_fundamental_div_mod(1_000_000int, q);
    assert(mm * 1_000_000 == (mm * m) * q) by (nonlinear_arith)
        requires
            1_000_000 == q * m,
    ;
    vstd::arithmetic::div_mod::lemma_fundamental_div_mod_converse_mod(mm * 1_000_000, q, mm * m, 0);
}

/// What each candidate of a search reports holds of it: the class applies at the nominal size
/// found, with the limits reported, and the error is the distance of that band from the
/// target. A held size stays as given; a free one lies on the size grid.
#[verifier::spinoff_prover]
#[verifier::rlimit(40)]
pub proof fn lemma_pool_member_applies(s: Search, c: Candidate)
    requires
        s.valid(),
        lists_bracket_bounds(bracket_bounds()),
        pool(s)(c),
    ensures
        0 < c.size <= 3_150_000_000,
        spec_limits_nm(crate::lookup::ceil_mm(c.size as int), s.hole, c.dev as int, c.idx_grade as int)
            == Some((c.limits.0 as int, c.limits.1 as int)),
        c.error == spec_band_error(
            spec_absolute(c.size as int, (c.limits.0 as int, c.limits.1 as int)),
            s.target_int(),
        ),
        s.strict ==> c.size == s.size_nm,
        !s.strict ==> c.size % s.quantum == 0,
{
    let (gr, d) = choose|gr: Group, d: int|
        is_group(s, gr) && 0 <= d < NUM_DEVIATIONS && #[trigger] cand_from(s, gr.1 as int, gr.2 as int, gr.3 as int, d) == Some(c);
    let (j, g) = choose|j: int, g: int|
        0 <= j < num_brackets() && in_scope(s.scope(), bracket(j)) && 1 <= g <= NUM_GRADES
            && #[trigger] group_of(s, bracket(j), g) == Some(gr);
    lemma_bracket_bound_range(j);
    lemma_group_fields(s, gr);
    let start = gr.1 as int;
    let end = gr.2 as int;
    assert(bracket(j) == (start, end));
    reveal(cand_from);
    let lim = spec_limits_nm(end, s.hole, d, g).unwrap();
    crate::deviation::lemma_limits_small(end, s.hole, d, g);
    let q = s.quantum as int;
    let size = c.size as int;
    if s.strict {
        let e = spec_band_error(spec_absolute(s.size_nm as int, lim), s.target_int());
        assert(0 <= e <= 240_000_000_000_000_000_000);
        assert(c.error == e);
        assert(size == s.size_nm);
        let ceil = crate::lookup::ceil_mm(size);
        assert(start < ceil <= end);
        crate::bracket::law_limits_constant_in_bracket(j, ceil, s.hole, d, g);
    } else {
        lemma_whole_mm_on_grid(start, q);
        lemma_whole_mm_on_grid(end, q);
        crate::fit::law_best_fit_optimal(lim, s.target_int(), (start * 1_000_000, end * 1_000_000), q, end * 1_000_000);
        let ceil = crate::lookup::ceil_mm(size);
        assert(start < ceil <= end);
        crate::bracket::law_limits_constant_in_bracket(j, ceil, s.hole, d, g);
    }
}

/// The head of a ranking of a search is no further from the target than any candidate.
pub proof fn lemma_head_is_closest(s: Search, r: Seq<Candidate>, k: int, c: Candidate)
    requires
        s.valid(),
        lists_bracket_bounds(bracket_bounds()),
        is_top_k(r, pool(s), k, closer()),
        k > 0,
        pool(s)(c),
    ensures
        r.len() > 0,
        r[0].error <= c.error,
{
    lemma_orders_pool(s);
    if !r.contains(c) {
        assert(r.len() == k);
        assert(closer()(r[k - 1], c));
        if k > 1 {
            assert(closer()(r[0], r[k - 1]));
        }
    } else {
        let i = choose|i: int| 0 <= i < r.len() && r[i] == c;
        if i > 0 {
            assert(closer()(r[0], r[i]));
        }
    }
}

/// With the nominal size held, every class that applies at it is a candidate, placed at the
/// size itself.
#[verifier::spinoff_prover]
pub proof fn lemma_class_is_candidate(s: Search, dev: int, grade: int)
    requires
        s.valid(),
        s.strict,
        lists_bracket_bounds(bracket_bounds()),
        0 <= dev < NUM_DEVIATIONS,
        1 <= grade <= NUM_GRADES,
        spec_limits_nm(s.int_size as int, s.hole, dev, grade) is Some,
    ensures
        exists|c: Candidate|
            #[trigger] pool(s)(c) && c.dev == dev && c.idx_grade == grade && c.error == spec_band_error(
                spec_absolute(s.size_nm as int, spec_limits_nm(s.int_size as int, s.hole, dev, grade).unwrap()),
                s.target_int(),
            ),
{
    crate::bracket::lemma_bracket_containing(s.int_size as int);
    let j = choose|j: int| 0 <= j < num_brackets() && #[trigger] bracket(j).0 < s.int_size <= bracket(j).1;
    lemma_bracket_bound_range(j);
    let (start, end) = bracket(j);
    crate::bracket::law_limits_constant_in_bracket(j, s.int_size as int, s.hole, dev, grade);
    crate::deviation::law_band_shape(end, s.hole, dev, grade);
    crate::deviation::lemma_limits_small(end, s.hole, dev, grade);
    let gr = group_of(s, bracket(j), grade).unwrap();
    assert(is_group(s, gr));
    lemma_group_fields(s, gr);
    reveal(cand_from);
    let c = cand_from(s, gr.1 as int, gr.2 as int, gr.3 as int, dev).unwrap();
    assert(pool(s)(c));
}

/// A candidate of a search with the size held, placed at a size on the grid, is matched or
/// bettered by a candidate of the same search with the size free.
#[verifier::spinoff_prover]
pub proof fn lemma_free_matches_held(held: Search, free: Search, c: Candidate)
    requires
        held.valid(),
        free.valid(),
        held.strict,
        !free.strict,
        free == (Search { strict: false, ..held }),
        lists_bracket_bounds(bracket_bounds()),
        pool(held)(c),
        held.size_nm % held.quantum == 0,
    ensures
        exists|f: Candidate| #[trigger] pool(free)(f) && f.error <= c.error,
{
    let (gr, d) = choose|gr: Group, d: int|
        is_group(held, gr) && 0 <= d < NUM_DEVIATIONS && #[trigger] cand_from(held, gr.1 as int, gr.2 as int, gr.3 as int, d) == Some(c);
    let (j, g) = choose|j: int, g: int|
        0 <= j < num_brackets() && in_scope(held.scope(), bracket(j)) && 1 <= g <= NUM_GRADES
            && #[trigger] group_of(held, bracket(j), g) == Some(gr);
    lemma_bracket_bound_range(j);
    lemma_group_fields(held, gr);
    let fgr = group_of(free, bracket(j), g).unwrap();
    assert(is_group(free, fgr));
    assert(fgr == gr);
    reveal(cand_from);
    let start = gr.1 as int;
    let end = gr.2 as int;
    let lim = spec_limits_nm(end, held.hole, d, g).unwrap();
    let q = held.quantum as int;
    lemma_whole_mm_on_grid(start, q);
    lemma_whole_mm_on_grid(end, q);
    let size = held.size_nm as int;
    assert(start * 1_000_000 < size <= end * 1_000_000);
    assert(start * 1_000_000 + q <= size) by (nonlinear_arith)
        requires
            (start * 1_000_000) % q == 0,
            size % q == 0,
            start * 1_000_000 < size,
            q > 0,
    ;
    crate::fit::law_best_fit_optimal(lim, held.target_int(), (start * 1_000_000, end * 1_000_000), q, size);
    lemma_pool_member_applies(held, c);
    crate::deviation::lemma_limits_small(end, held.hole, d, g);
    assert(c.limits == (lim.0 as i64, lim.1 as i64));
    let e = spec_band_error(spec_absolute(size, lim), held.target_int());
    assert(c.error == e);
    let bf = spec_best_fit(lim, held.target_int(), (start * 1_000_000, end * 1_000_000), q);
    assert(0 <= bf.1 <= e);
    let f = cand_from(free, start, end, g, d).unwrap();
    assert(f.error == bf.1);
    assert(pool(free)(f));
}

/// With the nominal size free, every class placed at any nominal size on the grid is matched
/// or bettered by a candidate of the search.
#[verifier::spinoff_prover]
pub proof fn lemma_grid_class_is_matched(s: Search, x: int, dev: int, grade: int)
    requires
        s.valid(),
        !s.strict,
        lists_bracket_bounds(bracket_bounds()),
        0 < x <= 3_150_000_000,
        x % (s.quantum as int) == 0,
        0 <= dev < NUM_DEVIATIONS,
        1 <= grade <= NUM_GRADES,
        spec_limits_nm(crate::lookup::ceil_mm(x), s.hole, dev, grade) is Some,
    ensures
        exists|f: Candidate|
            #[trigger] pool(s)(f) && f.error <= spec_band_error(
                spec_absolute(x, spec_limits_nm(crate::lookup::ceil_mm(x), s.hole, dev, grade).unwrap()),
                s.target_int(),
            ),
{
    let c = crate::lookup::ceil_mm(x);
    assert(1 <= c <= 3150) by (nonlinear_arith)
        requires
            c == (x + 999_999) / 1_000_000,
            0 < x <= 3_150_000_000,
    ;
    crate::bracket::lemma_bracket_containing(c);
    let j = choose|j: int| 0 <= j < num_brackets() && #[trigger] bracket(j).0 < c <= bracket(j).1;
    lemma_bracket_bound_range(j);
    let (start, end) = bracket(j);
    crate::bracket::law_limits_constant_in_bracket(j, c, s.hole, dev, grade);
    crate::deviation::law_band_shape(end, s.hole, dev, grade);
    crate::deviation::lemma_limits_small(end, s.hole, dev, grade);
    let gr = group_of(s, bracket(j), grade).unwrap();
    assert(is_group(s, gr));
    lemma_group_fields(s, gr);
    reveal(cand_from);
    let lim = spec_limits_nm(end, s.hole, dev, grade).unwrap();
    let q = s.quantum as int;
    lemma_whole_mm_on_grid(start, q);
    lemma_whole_mm_on_grid(end, q);
    assert(start * 1_000_000 < x <= end * 1_000_000) by (nonlinear_arith)
        requires
            c == (x + 999_999) / 1_000_000,
            start < c <= end,
    ;
    assert(start * 1_000_000 + q <= x) by (nonlinear_arith)
        requires
            (start * 1_000_000) % q == 0,
            x % q == 0,
            start * 1_000_000 < x,
            q > 0,
    ;
    crate::fit::law_best_fit_optimal(lim, s.target_int(), (start * 1_000_000, end * 1_000_000), q, x);
    let f = cand_from(s, start, end, grade, dev).unwrap();
    assert(pool(s)(f));
}

/// Of the brackets, only one holds a given size.
proof fn lemma_bracket_unique(j1: int, j2: int, x: int)
    requires
        lists_bracket_bounds(bracket_bounds()),
        0 <= j1 < num_brackets(),
        0 <= j2 < num_brackets(),
        bracket(j1).0 < x <= bracket(j1).1,
        bracket(j2).0 < x <= bracket(j2).1,
    ensures
        j1 == j2,
{
    let bs = bracket_bounds();
    if j1 < j2 {
        if j1 < j2 - 1 {
            assert(bs[j1] < bs[j2 - 1]);
        }
    } else if j2 < j1 {
        if j2 < j1 - 1 {
            assert(bs[j2] < bs[j1 - 1]);
        }
    }
}

/// A candidate's ranking fields: its move of the nominal size, and whether its class is
/// preferred.
#[verifier::spinoff_prover]
pub proof fn lemma_pool_member_rank(s: Search, c: Candidate)
    requires
        s.valid(),
        lists_bracket_bounds(bracket_bounds()),
        pool(s)(c),
    ensures
        c.shift == abs(c.size - s.size_nm),
        c.preferred == preferred(s.hole).contains((c.dev, c.idx_grade)),
{
    let (gr, d) = choose|gr: Group, d: int|
        is_group(s, gr) && 0 <= d < NUM_DEVIATIONS && #[trigger] cand_from(s, gr.1 as int, gr.2 as int, gr.3 as int, d) == Some(c);
    lemma_group_fields(s, gr);
    lemma_cand_fields(s, gr.1 as int, gr.2 as int, gr.3 as int, d);
    lemma_pool_member_applies(s, c);
    reveal(cand_from);
    if !s.strict {
        let q = s.quantum as int;
        let lim = spec_limits_nm(gr.2 as int, s.hole, d, gr.3 as int).unwrap();
        lemma_whole_mm_on_grid(gr.1 as int, q);
        lemma_whole_mm_on_grid(gr.2 as int, q);
        crate::fit::law_best_fit_optimal(
            lim,
            s.target_int(),
            (gr.1 * 1_000_000, gr.2 * 1_000_000),
            q,
            gr.2 * 1_000_000,
        );
    }
}

/// With the nominal size held, a class gives at most one candidate.
#[verifier::spinoff_prover]
pub proof fn lemma_strict_class_unique(s: Search, a: Candidate, b: Candidate)
    requires
        s.valid(),
        s.strict,
        lists_bracket_bounds(bracket_bounds()),
        pool(s)(a),
        pool(s)(b),
        a.dev == b.dev,
        a.idx_grade == b.idx_grade,
    ensures
        a == b,
{
    let (ga, da) = choose|gr: Group, d: int|
        is_group(s, gr) && 0 <= d < NUM_DEVIATIONS && #[trigger] cand_from(s, gr.1 as int, gr.2 as int, gr.3 as int, d) == Some(a);
    let (gb, db) = choose|gr: Group, d: int|
        is_group(s, gr) && 0 <= d < NUM_DEVIATIONS && #[trigger] cand_from(s, gr.1 as int, gr.2 as int, gr.3 as int, d) == Some(b);
    let (ja, xa) = choose|j: int, g: int|
        0 <= j < num_brackets() && in_scope(s.scope(), bracket(j)) && 1 <= g <= NUM_GRADES
            && #[trigger] group_of(s, bracket(j), g) == Some(ga);
    let (jb, xb) = choose|j: int, g: int|
        0 <= j < num_brackets() && in_scope(s.scope(), bracket(j)) && 1 <= g <= NUM_GRADES
            && #[trigger] group_of(s, bracket(j), g) == Some(gb);
    lemma_bracket_bound_range(ja);
    lemma_bracket_bound_range(jb);
    lemma_bracket_unique(ja, jb, s.int_size as int);
    lemma_group_fields(s, ga);
    lemma_group_fields(s, gb);
    lemma_cand_fields(s, ga.1 as int, ga.2 as int, ga.3 as int, da);
    lemma_cand_fields(s, gb.1 as int, gb.2 as int, gb.3 as int, db);
    assert(ga == gb);
    assert(da == db);
}

} // verus!
