//! Ranking: the least members of a pool under a strict order, least first.

use vstd::prelude::*;

verus! {

/// Each element of `s` is below every later one.
pub open spec fn strictly_sorted<A>(s: Seq<A>, lt: spec_fn(A, A) -> bool) -> bool {
    forall|i: int, j: int| 0 <= i < j < s.len() ==> #[trigger] lt(s[i], s[j])
}

/// `lt` is a strict total order on the members of `pool`.
pub open spec fn orders<A>(pool: spec_fn(A) -> bool, lt: spec_fn(A, A) -> bool) -> bool {
    &&& forall|x: A, y: A| pool(x) && pool(y) && #[trigger] lt(x, y) ==> !lt(y, x)
    &&& forall|x: A, y: A| pool(x) && pool(y) && x != y ==> #[trigger] lt(x, y) || lt(y, x)
    &&& forall|x: A, y: A, z: A|
        pool(x) && pool(y) && pool(z) && #[trigger] lt(x, y) && #[trigger] lt(y, z) ==> lt(x, z)
}

/// `r` holds the `k` least members of `pool`, or all of them where there are fewer, least
/// first.
pub open spec fn is_top_k<A>(r: Seq<A>, pool: spec_fn(A) -> bool, k: int, lt: spec_fn(A, A) -> bool) -> bool {
    &&& r.len() <= k
    &&& strictly_sorted(r, lt)
    &&& forall|i: int| 0 <= i < r.len() ==> pool(#[trigger] r[i])
    &&& forall|x: A| pool(x) && !r.contains(x) ==> r.len() == k && (k > 0 ==> lt(r[k - 1], x))
}

/// The pool without one of its members.
pub open spec fn without<A>(pool: spec_fn(A) -> bool, m: A) -> spec_fn(A) -> bool {
    |x: A| pool(x) && x != m
}

/// Ranking fewer gives a prefix of ranking more: the shorter list is the start of the longer.
pub proof fn lemma_top_k_prefix<A>(
    r1: Seq<A>,
    r2: Seq<A>,
    pool: spec_fn(A) -> bool,
    k1: int,
    k2: int,
    lt: spec_fn(A, A) -> bool,
)
    requires
        orders(pool, lt),
        is_top_k(r1, pool, k1, lt),
        is_top_k(r2, pool, k2, lt),
        0 <= k1 <= k2,
    ensures
        r1.len() <= r2.len(),
        r1 == r2.take(r1.len() as int),
        r1.len() == k1 || r1.len() == r2.len(),
    decreases k1,
{
    if r1.len() == 0 {
        if k1 > 0 && r2.len() > 0 {
            assert(pool(r2[0]));
            assert(!r1.contains(r2[0]));
        }
        assert(r1 =~= r2.take(0));
    } else {
        let m1 = r1[0];
        assert(pool(m1));
        if r2.len() == 0 {
            assert(!r2.contains(m1));
        }
        let m2 = r2[0];
        assert(pool(m2));
        if m1 != m2 {
            // m2 is above m1
            if r1.contains(m2) {
                let i = choose|i: int| 0 <= i < r1.len() && r1[i] == m2;
                assert(i != 0);
                assert(lt(r1[0], r1[i]));
            } else {
                if r1.len() > 1 {
                    assert(lt(r1[0], r1[r1.len() - 1]));
                }
            }
            assert(lt(m1, m2));
            if r2.contains(m1) {
                let j = choose|j: int| 0 <= j < r2.len() && r2[j] == m1;
                assert(j != 0);
                assert(lt(r2[0], r2[j]));
            } else {
                if r2.len() > 1 {
                    assert(lt(r2[0], r2[r2.len() - 1]));
                }
            }
            assert(lt(m2, m1));
            assert(false);
        }
        let m = m1;
        let p = without(pool, m);
        let t1 = r1.drop_first();
        let t2 = r2.drop_first();
        assert(orders(p, lt));
        assert forall|i: int| 0 <= i < t1.len() implies p(#[trigger] t1[i]) by {
            assert(lt(r1[0], r1[i + 1]));
            assert(pool(r1[i + 1]));
        }
        assert forall|i: int| 0 <= i < t2.len() implies p(#[trigger] t2[i]) by {
            assert(lt(r2[0], r2[i + 1]));
            assert(pool(r2[i + 1]));
        }
        assert forall|x: A| p(x) && !t1.contains(x) implies t1.len() == k1 - 1 && (k1 - 1 > 0
            ==> lt(t1[k1 - 2], x)) by {
            if r1.contains(x) {
                let i = choose|i: int| 0 <= i < r1.len() && r1[i] == x;
                if i > 0 {
                    assert(t1[i - 1] == x);
                }
            }
        }
        assert forall|x: A| p(x) && !t2.contains(x) implies t2.len() == k2 - 1 && (k2 - 1 > 0
            ==> lt(t2[k2 - 2], x)) by {
            if r2.contains(x) {
                let i = choose|i: int| 0 <= i < r2.len() && r2[i] == x;
                if i > 0 {
                    assert(t2[i - 1] == x);
                }
            }
        }
        assert(strictly_sorted(t1, lt)) by {
            assert forall|i: int, j: int| 0 <= i < j < t1.len() implies #[trigger] lt(t1[i], t1[j]) by {
                assert(lt(r1[i + 1], r1[j + 1]));
            }
        }
        assert(strictly_sorted(t2, lt)) by {
            assert forall|i: int, j: int| 0 <= i < j < t2.len() implies #[trigger] lt(t2[i], t2[j]) by {
                assert(lt(r2[i + 1], r2[j + 1]));
            }
        }
        lemma_top_k_prefix(t1, t2, p, k1 - 1, k2 - 1, lt);
        assert forall|i: int| 0 <= i < r1.len() implies r1[i] == r2[i] by {
            if i > 0 {
                assert(r1[i] == t1[i - 1]);
                assert(t1[i - 1] == t2[i - 1]);
            }
        }
        assert(r1 =~= r2.take(r1.len() as int));
    }
}

/// The pool with one more member.
pub open spec fn with<A>(pool: spec_fn(A) -> bool, m: A) -> spec_fn(A) -> bool {
    |x: A| pool(x) || x == m
}

/// The first `k` elements of `s`, or all of them where there are fewer.
pub open spec fn keep_first<A>(s: Seq<A>, k: int) -> Seq<A> {
    if s.len() > k {
        s.take(k)
    } else {
        s
    }
}

/// Slotting a new member into a ranking at its place, then dropping what falls past `k`,
/// ranks the pool with that member added.
pub proof fn lemma_top_k_insert<A>(
    r: Seq<A>,
    pool: spec_fn(A) -> bool,
    k: int,
    lt: spec_fn(A, A) -> bool,
    x: A,
    p: int,
)
    requires
        orders(with(pool, x), lt),
        !pool(x),
        is_top_k(r, pool, k, lt),
        k > 0,
        0 <= p <= r.len(),
        forall|i: int| 0 <= i < p ==> #[trigger] lt(r[i], x),
        forall|i: int| p <= i < r.len() ==> #[trigger] lt(x, r[i]),
    ensures
        is_top_k(keep_first(r.insert(p, x), k), with(pool, x), k, lt),
{
    let s = r.insert(p, x);
    let q = with(pool, x);
    let t = keep_first(s, k);
    assert(forall|i: int| 0 <= i < r.len() ==> pool(#[trigger] r[i]));
    assert forall|i: int| 0 <= i < s.len() implies q(#[trigger] s[i]) by {
        if i < p {
            assert(s[i] == r[i]);
        } else if i > p {
            assert(s[i] == r[i - 1]);
        }
    }
    assert(strictly_sorted(s, lt)) by {
        assert forall|i: int, j: int| 0 <= i < j < s.len() implies #[trigger] lt(s[i], s[j]) by {
            if j < p {
                assert(lt(r[i], r[j]));
            } else if j == p {
                assert(lt(r[i], x));
            } else if i < p {
                assert(lt(r[i], r[j - 1]));
            } else if i == p {
                assert(lt(x, r[j - 1]));
            } else {
                assert(lt(r[i - 1], r[j - 1]));
            }
        }
    }
    assert forall|i: int| 0 <= i < t.len() implies q(#[trigger] t[i]) by {
        assert(t[i] == s[i]);
    }
    assert(strictly_sorted(t, lt)) by {
        assert forall|i: int, j: int| 0 <= i < j < t.len() implies #[trigger] lt(t[i], t[j]) by {
            assert(lt(s[i], s[j]));
        }
    }
    assert forall|y: A| q(y) && !t.contains(y) implies t.len() == k && (k > 0 ==> lt(
        t[k - 1],
        y,
    )) by {
        // Whatever is missing from `t` was missing from `r` or fell off its end.
        if s.contains(y) {
            let j = choose|j: int| 0 <= j < s.len() && s[j] == y;
            if j < t.len() {
                assert(t[j] == y);
            }
            assert(j >= k);
            assert(s.len() > k);
            assert(t.len() == k);
            assert(lt(s[k - 1], s[j]));
        } else {
            assert(y != x) by {
                assert(s[p] == x);
            }
            assert(pool(y));
            if r.contains(y) {
                let j = choose|j: int| 0 <= j < r.len() && r[j] == y;
                if j < p {
                    assert(s[j] == y);
                } else {
                    assert(s[j + 1] == y);
                }
            }
            assert(r.len() == k);
            assert(lt(r[k - 1], y));
            assert(s.len() == k + 1);
            assert(t.len() == k);
            if p == k {
                assert(t[k - 1] == r[k - 1]);
            } else {
                assert(s[k] == r[k - 1]);
                assert(lt(s[k - 1], s[k]));
                assert(q(s[k - 1]));
                assert(q(r[k - 1]));
            }
        }
    }
}

/// A strict total order on a pool orders every part of it.
pub proof fn lemma_orders_sub<A>(pool: spec_fn(A) -> bool, part: spec_fn(A) -> bool, lt: spec_fn(A, A) -> bool)
    requires
        orders(pool, lt),
        forall|x: A| #[trigger] part(x) ==> pool(x),
    ensures
        orders(part, lt),
{
}

/// A ranking of part of a pool ranks the whole pool when everything outside the part ranks
/// below its last entry.
pub proof fn lemma_top_k_extend<A>(
    r: Seq<A>,
    part: spec_fn(A) -> bool,
    pool: spec_fn(A) -> bool,
    k: int,
    lt: spec_fn(A, A) -> bool,
)
    requires
        is_top_k(r, part, k, lt),
        forall|x: A| #[trigger] part(x) ==> pool(x),
        forall|x: A|
            #[trigger] pool(x) && !part(x) ==> r.len() == k && k > 0 && lt(r[k - 1], x),
    ensures
        is_top_k(r, pool, k, lt),
{
    assert forall|x: A| pool(x) && !r.contains(x) implies r.len() == k && (k > 0 ==> lt(r[k - 1], x)) by {
        if part(x) {
        } else {
        }
    }
}

/// There is one ranking of the `k` least members of a pool.
pub proof fn lemma_top_k_unique<A>(
    r1: Seq<A>,
    r2: Seq<A>,
    pool: spec_fn(A) -> bool,
    k: int,
    lt: spec_fn(A, A) -> bool,
)
    requires
        orders(pool, lt),
        is_top_k(r1, pool, k, lt),
        is_top_k(r2, pool, k, lt),
        0 <= k,
    ensures
        r1 == r2,
{
    lemma_top_k_prefix(r1, r2, pool, k, k, lt);
    lemma_top_k_prefix(r2, r1, pool, k, k, lt);
}

} // verus!
