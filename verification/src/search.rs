//! Binary search for the partition point of a predicate over indices, with the
//! halving steps of `slice::partition_point`.

use vstd::prelude::*;

verus! {

/// Where the halving search settles, starting from the window `[base, base + size)`.
pub open spec fn bisect_base(p: Seq<bool>, base: int, size: int) -> int
    decreases size,
{
    if size <= 1 {
        base
    } else {
        let half = size / 2;
        let mid = base + half;
        bisect_base(p, if p[mid] { mid } else { base }, size - half)
    }
}

/// The index that the halving search over the predicate values `p` returns.
/// When `p` holds on a prefix and fails on the rest, it is the prefix's length.
pub open spec fn partition_point_of(p: Seq<bool>) -> int {
    if p.len() == 0 {
        0
    } else {
        let b = bisect_base(p, 0, p.len() as int);
        if p[b] {
            b + 1
        } else {
            b
        }
    }
}

/// The predicate values hold on a prefix and fail on the rest.
pub open spec fn holds_on_prefix(p: Seq<bool>) -> bool {
    forall|i: int, j: int| 0 <= i < j < p.len() && #[trigger] p[j] ==> #[trigger] p[i]
}

proof fn lemma_bisect_bounds(p: Seq<bool>, base: int, size: int)
    requires
        0 <= base,
        1 <= size,
        base + size <= p.len(),
    ensures
        base <= bisect_base(p, base, size) < base + size,
    decreases size,
{
    if size > 1 {
        let half = size / 2;
        let mid = base + half;
        lemma_bisect_bounds(p, if p[mid] { mid } else { base }, size - half);
    }
}

proof fn lemma_bisect_splits(p: Seq<bool>, base: int, size: int)
    requires
        holds_on_prefix(p),
        0 <= base,
        1 <= size,
        base + size <= p.len(),
        base == 0 || p[base],
        forall|i: int| base + size <= i < p.len() ==> !#[trigger] p[i],
    ensures
        ({
            let b = bisect_base(p, base, size);
            &&& 0 <= b < p.len()
            &&& b == 0 || p[b]
            &&& forall|i: int| b + 1 <= i < p.len() ==> !#[trigger] p[i]
        }),
    decreases size,
{
    if size > 1 {
        let half = size / 2;
        let mid = base + half;
        if p[mid] {
            lemma_bisect_splits(p, mid, size - half);
        } else {
            assert forall|i: int| base + (size - half) <= i < p.len() implies !#[trigger] p[i] by {
                if p[i] {
                    assert(p[mid]);
                }
            }
            lemma_bisect_splits(p, base, size - half);
        }
    }
}

/// The search result always lies in `[0, p.len()]`.
pub proof fn lemma_partition_point_bounds(p: Seq<bool>)
    ensures
        0 <= partition_point_of(p) <= p.len(),
{
    if p.len() > 0 {
        lemma_bisect_bounds(p, 0, p.len() as int);
    }
}

/// On a predicate that holds on a prefix, the search returns that prefix's length.
pub proof fn lemma_partition_point_splits(p: Seq<bool>)
    requires
        holds_on_prefix(p),
    ensures
        0 <= partition_point_of(p) <= p.len(),
        forall|i: int| 0 <= i < partition_point_of(p) ==> #[trigger] p[i],
        forall|i: int| partition_point_of(p) <= i < p.len() ==> !#[trigger] p[i],
{
    if p.len() > 0 {
        lemma_bisect_splits(p, 0, p.len() as int);
        let b = bisect_base(p, 0, p.len() as int);
        assert forall|i: int| 0 <= i < partition_point_of(p) implies #[trigger] p[i] by {
            if i < b {
                assert(p[b]);
            }
        }
    }
}

/// The result of `slice::partition_point` on a slice whose predicate values are `p`,
/// described by how the search splits the slice: it asks the element at `len / 2`; when the
/// predicate holds there, the answer is that index plus the answer on the slice from there
/// to the end; otherwise it is the answer on the first `len - len / 2` elements. On one
/// element the answer is 1 when the predicate holds there and 0 otherwise; on none it is 0.
pub open spec fn halving_partition_point(p: Seq<bool>) -> int
    decreases p.len(),
{
    if p.len() == 0 {
        0
    } else if p.len() == 1 {
        if p[0] {
            1
        } else {
            0
        }
    } else {
        let mid = p.len() / 2;
        if p[mid as int] {
            mid + halving_partition_point(p.subrange(mid as int, p.len() as int))
        } else {
            halving_partition_point(p.subrange(0, p.len() - mid))
        }
    }
}

/// On any predicate values, the search lands on a boundary: the predicate holds just before
/// the index it returns (unless that is 0) and fails at it (unless that is the end).
pub proof fn lemma_halving_lands_on_boundary(p: Seq<bool>)
    ensures
        0 <= halving_partition_point(p) <= p.len(),
        halving_partition_point(p) == 0 || p[halving_partition_point(p) - 1],
        halving_partition_point(p) == p.len() || !p[halving_partition_point(p)],
    decreases p.len(),
{
    let n = p.len() as int;
    if n >= 2 {
        let mid = n / 2;
        if p[mid] {
            let t = p.subrange(mid, n);
            lemma_halving_lands_on_boundary(t);
            let r = halving_partition_point(t);
            assert(r != 0);
            assert(p[mid + r - 1] == t[r - 1]);
            if r < t.len() {
                assert(p[mid + r] == t[r]);
            }
        } else {
            let t = p.subrange(0, n - mid);
            lemma_halving_lands_on_boundary(t);
            let r = halving_partition_point(t);
            if mid < t.len() {
                assert(t[mid] == p[mid]);
            }
            if r > 0 {
                assert(p[r - 1] == t[r - 1]);
            }
            if r < t.len() {
                assert(p[r] == t[r]);
            }
        }
    }
}

/// `2^k`.
pub open spec fn two_pow(k: nat) -> nat
    decreases k,
{
    if k == 0 {
        1
    } else {
        2 * two_pow((k - 1) as nat)
    }
}

proof fn lemma_two_pow_exceeds(k: nat)
    ensures
        k + 1 <= two_pow(k),
    decreases k,
{
    if k > 0 {
        lemma_two_pow_exceeds((k - 1) as nat);
    }
}

/// The indices the halving search asks, in order.
pub open spec fn halving_probes(p: Seq<bool>) -> Seq<int>
    decreases p.len(),
{
    if p.len() == 0 {
        Seq::empty()
    } else if p.len() == 1 {
        seq![0int]
    } else {
        let mid = p.len() / 2;
        if p[mid as int] {
            seq![mid as int] + halving_probes(p.subrange(mid as int, p.len() as int)).map_values(
                |x: int| x + mid,
            )
        } else {
            seq![mid as int] + halving_probes(p.subrange(0, p.len() - mid))
        }
    }
}

proof fn lemma_probes_bounded(p: Seq<bool>, k: nat)
    requires
        p.len() <= two_pow(k),
    ensures
        halving_probes(p).len() <= k + 1,
        forall|j: int| 0 <= j < halving_probes(p).len() ==> 0 <= #[trigger] halving_probes(p)[j] < p.len(),
    decreases p.len(),
{
    let n = p.len() as int;
    if n >= 2 {
        assert(k > 0);
        let mid = n / 2;
        let km1 = (k - 1) as nat;
        if p[mid] {
            let t = p.subrange(mid, n);
            lemma_probes_bounded(t, km1);
            let tp = halving_probes(t);
            let hp = halving_probes(p);
            assert(hp == seq![mid] + tp.map_values(|x: int| x + mid));
            assert forall|j: int| 0 <= j < hp.len() implies 0 <= #[trigger] hp[j] < p.len() by {
                if j > 0 {
                    assert(hp[j] == tp[j - 1] + mid);
                }
            }
        } else {
            let t = p.subrange(0, n - mid);
            lemma_probes_bounded(t, km1);
            let tp = halving_probes(t);
            let hp = halving_probes(p);
            assert(hp == seq![mid] + tp);
            assert forall|j: int| 0 <= j < hp.len() implies 0 <= #[trigger] hp[j] < p.len() by {
                if j > 0 {
                    assert(hp[j] == tp[j - 1]);
                }
            }
        }
    }
}

proof fn lemma_probes_decide(p: Seq<bool>, q: Seq<bool>)
    requires
        q.len() == p.len(),
        forall|j: int|
            0 <= j < halving_probes(p).len() ==> q[#[trigger] halving_probes(p)[j]] == p[halving_probes(p)[j]],
    ensures
        halving_partition_point(q) == halving_partition_point(p),
    decreases p.len(),
{
    let n = p.len() as int;
    let hp = halving_probes(p);
    if n == 1 {
        assert(hp[0] == 0);
    } else if n >= 2 {
        let mid = n / 2;
        assert(hp[0] == mid);
        assert(q[mid] == p[mid]);
        if p[mid] {
            let t = p.subrange(mid, n);
            let u = q.subrange(mid, n);
            let tp = halving_probes(t);
            assert(hp == seq![mid] + tp.map_values(|x: int| x + mid));
            assert forall|j: int| 0 <= j < tp.len() implies u[#[trigger] tp[j]] == t[tp[j]] by {
                assert(hp[j + 1] == tp[j] + mid);
                lemma_two_pow_exceeds(t.len());
                lemma_probes_bounded(t, t.len());
            }
            lemma_probes_decide(t, u);
        } else {
            let t = p.subrange(0, n - mid);
            let u = q.subrange(0, n - mid);
            let tp = halving_probes(t);
            assert(hp == seq![mid] + tp);
            assert forall|j: int| 0 <= j < tp.len() implies u[#[trigger] tp[j]] == t[tp[j]] by {
                assert(hp[j + 1] == tp[j]);
                lemma_two_pow_exceeds(t.len());
                lemma_probes_bounded(t, t.len());
            }
            lemma_probes_decide(t, u);
        }
    }
}

/// On `n <= 2^k` values, the search asks at most `k + 1` of them: its answer is fixed by
/// the predicate at those indices, whatever it is elsewhere.
pub proof fn lemma_halving_asks_few(p: Seq<bool>, k: nat)
    requires
        p.len() <= two_pow(k),
    ensures
        exists|probes: Seq<int>|
            #![trigger probes.len()]
            probes.len() <= k + 1 && (forall|j: int| 0 <= j < probes.len() ==> 0 <= #[trigger] probes[j] < p.len())
                && forall|q: Seq<bool>|
                q.len() == p.len() && (forall|j: int| 0 <= j < probes.len() ==> q[#[trigger] probes[j]] == p[probes[j]])
                    ==> #[trigger] halving_partition_point(q) == halving_partition_point(p),
{
    let probes = halving_probes(p);
    lemma_probes_bounded(p, k);
    assert forall|q: Seq<bool>|
        q.len() == p.len() && (forall|j: int| 0 <= j < probes.len() ==> q[#[trigger] probes[j]] == p[probes[j]])
            implies #[trigger] halving_partition_point(q) == halving_partition_point(p) by {
        lemma_probes_decide(p, q);
    }
    assert(probes.len() <= k + 1);
}

/// The search over a window lands where the search over that window alone lands, shifted
/// by the window's start.
proof fn lemma_bisect_shift(p: Seq<bool>, base: int, size: int)
    requires
        0 <= base,
        1 <= size,
        base + size <= p.len(),
    ensures
        bisect_base(p, base, size) == base + bisect_base(p.subrange(base, base + size), 0, size),
    decreases size,
{
    let s = p.subrange(base, base + size);
    if size > 1 {
        let half = size / 2;
        let mid = base + half;
        assert(s[half] == p[mid]);
        if p[mid] {
            lemma_bisect_shift(p, mid, size - half);
            lemma_bisect_shift(s, half, size - half);
            assert(s.subrange(half, half + (size - half)) =~= p.subrange(mid, mid + (size - half)));
        } else {
            lemma_bisect_shift(p, base, size - half);
            lemma_bisect_shift(s, 0, size - half);
            assert(s.subrange(0, size - half) =~= p.subrange(base, base + (size - half)));
        }
    }
}

/// The halving search lands where `halving_partition_point` says, on every predicate,
/// whether or not it holds on a prefix.
pub proof fn lemma_partition_point_is_halving(p: Seq<bool>)
    ensures
        partition_point_of(p) == halving_partition_point(p),
    decreases p.len(),
{
    let n = p.len() as int;
    if n >= 2 {
        let half = n / 2;
        let mid = half;
        if p[mid] {
            let t = p.subrange(mid, n);
            lemma_bisect_shift(p, mid, n - half);
            assert(t =~= p.subrange(mid, mid + (n - half)));
            lemma_bisect_bounds(t, 0, n - half);
            lemma_partition_point_is_halving(t);
            let b = bisect_base(t, 0, n - half);
            assert(p[mid + b] == t[b]);
        } else {
            let t = p.subrange(0, n - half);
            lemma_bisect_shift(p, 0, n - half);
            assert(t =~= p.subrange(0, 0 + (n - half)));
            lemma_bisect_bounds(t, 0, n - half);
            lemma_partition_point_is_halving(t);
            let b = bisect_base(t, 0, n - half);
            assert(p[b] == t[b]);
        }
    }
}

/// Runs the halving search over the indices `0..len`, asking `pred` for each probed index.
pub fn partition_point<F: Fn(usize) -> bool>(len: usize, pred: F, Ghost(p): Ghost<Seq<bool>>) -> (r:
    usize)
    requires
        p.len() == len,
        forall|i: usize| i < len ==> #[trigger] pred.requires((i,)),
        forall|i: usize, b: bool| i < len && #[trigger] pred.ensures((i,), b) ==> b == p[i as int],
    ensures
        r == partition_point_of(p),
        r == halving_partition_point(p),
        r <= len,
{
    proof {
        lemma_partition_point_bounds(p);
        lemma_partition_point_is_halving(p);
    }
    if len == 0 {
        return 0;
    }
    let mut base: usize = 0;
    let mut size: usize = len;
    while size > 1
        invariant
            p.len() == len,
            1 <= size,
            base + size <= len,
            bisect_base(p, base as int, size as int) == bisect_base(p, 0, len as int),
            forall|i: usize| i < len ==> #[trigger] pred.requires((i,)),
            forall|i: usize, b: bool|
                i < len && #[trigger] pred.ensures((i,), b) ==> b == p[i as int],
        decreases size,
    {
        let half = size / 2;
        let mid = base + half;
        if pred(mid) {
            base = mid;
        }
        size = size - half;
    }
    if pred(base) {
        base + 1
    } else {
        base
    }
}

} // verus!
