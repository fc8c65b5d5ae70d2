use vstd::prelude::*;

verus! {

/// `t / d` rounded half away from zero, then clamped to `[0, 255]`.
pub open spec fn round_clamp(t: int, d: int) -> int {
    if t < 0 {
        0
    } else {
        let q = (2 * t + d) / (2 * d);
        if q > 255 {
            255
        } else {
            q
        }
    }
}

/// The byte nearest to the fraction `t / d`, clamped to `[0, 255]`.
pub fn round_clamp_byte(t: i64, d: i64) -> (r: u8)
    requires
        0 < d < 0x1000_0000_0000_0000,
        -0x1000_0000_0000_0000 < t < 0x1000_0000_0000_0000,
    ensures
        r == round_clamp(t as int, d as int),
{
    if t < 0 {
        0
    } else {
        let q = (2 * t + d) / (2 * d);
        if q > 255 {
            255
        } else {
            q as u8
        }
    }
}

/// Clamps `v` to `[lo, hi]`.
pub open spec fn clamp(v: int, lo: int, hi: int) -> int {
    if v < lo {
        lo
    } else if v > hi {
        hi
    } else {
        v
    }
}

pub fn clamp_i32(v: i32, lo: i32, hi: i32) -> (r: i32)
    requires
        lo <= hi,
    ensures
        r == clamp(v as int, lo as int, hi as int),
{
    if v < lo {
        lo
    } else if v > hi {
        hi
    } else {
        v
    }
}

} // verus!

verus! {

/// How many times `v` occurs in `s`.
pub open spec fn count_eq(s: Seq<u8>, v: int) -> nat {
    if 0 <= v <= 255 {
        s.to_multiset().count(v as u8)
    } else {
        0
    }
}

/// How many elements of `s` are at most `v`.
pub open spec fn count_le(s: Seq<u8>, v: int) -> nat
    decreases v + 1,
{
    if v < 0 {
        0
    } else {
        count_le(s, v - 1) + count_eq(s, v)
    }
}

/// The first level from `v` up whose count of smaller-or-equal elements exceeds `k`.
pub open spec fn kth_from(s: Seq<u8>, k: int, v: int) -> int
    decreases 255 - v,
{
    if v >= 255 || count_le(s, v) > k {
        v
    } else {
        kth_from(s, k, v + 1)
    }
}

/// The element of rank `k` (from 0) of `s` in ascending order.
pub open spec fn kth_smallest(s: Seq<u8>, k: int) -> int {
    kth_from(s, k, 0)
}

/// The median of `s`: the middle element in ascending order, or for an even
/// count the mean of the two middle ones, rounded down.
pub open spec fn median_spec(s: Seq<u8>) -> int {
    let mid = s.len() as int / 2;
    if s.len() % 2 == 1 {
        kth_smallest(s, mid)
    } else {
        (kth_smallest(s, mid - 1) + kth_smallest(s, mid)) / 2
    }
}

/// `s` is in ascending order.
pub open spec fn sorted(s: Seq<u8>) -> bool {
    forall|i: int, j: int| 0 <= i < j < s.len() ==> s[i] <= s[j]
}

/// Relies on std's `sort_unstable` for slices: the same values, in ascending
/// order.
#[verifier::external_body]
fn sort_ascending(values: &mut Vec<u8>)
    ensures
        sorted(final(values)@),
        final(values)@.to_multiset() == old(values)@.to_multiset(),
{
    values.sort_unstable();
}

proof fn lemma_count_eq_drop_last(s: Seq<u8>, v: int)
    requires
        s.len() > 0,
    ensures
        count_eq(s, v) == count_eq(s.drop_last(), v) + if s.last() == v {
            1nat
        } else {
            0nat
        },
{
    broadcast use vstd::seq_lib::to_multiset_build;

    assert(s.drop_last().push(s.last()) =~= s);
}

proof fn lemma_count_le_bound(s: Seq<u8>, v: int)
    ensures
        count_le(s, v) <= s.len(),
    decreases s.len(),
{
    if s.len() == 0 {
        lemma_count_le_empty(s, v);
    } else {
        lemma_count_le_drop_last(s, v);
        lemma_count_le_bound(s.drop_last(), v);
    }
}

proof fn lemma_count_le_prefix(s: Seq<u8>, v: int, m: int)
    requires
        0 <= m <= s.len(),
        forall|j: int| 0 <= j < m ==> s[j] <= v,
    ensures
        count_le(s, v) >= m,
    decreases s.len(),
{
    if s.len() > 0 {
        lemma_count_le_drop_last(s, v);
        if m == s.len() {
            lemma_count_le_prefix(s.drop_last(), v, m - 1);
        } else {
            lemma_count_le_prefix(s.drop_last(), v, m);
        }
    }
}

proof fn lemma_count_le_suffix(s: Seq<u8>, v: int, m: int)
    requires
        0 <= m,
        forall|j: int| m <= j < s.len() ==> s[j] > v,
    ensures
        count_le(s, v) <= m,
    decreases s.len(),
{
    if s.len() <= m {
        lemma_count_le_bound(s, v);
    } else {
        lemma_count_le_drop_last(s, v);
        lemma_count_le_suffix(s.drop_last(), v, m);
    }
}

proof fn lemma_kth_sorted(s: Seq<u8>, k: int, v: int)
    requires
        sorted(s),
        0 <= k < s.len(),
        0 <= v <= s[k],
    ensures
        kth_from(s, k, v) == s[k],
    decreases s[k] - v,
{
    if v == s[k] {
        lemma_count_le_prefix(s, v, k + 1);
    } else {
        lemma_count_le_suffix(s, v, k);
        lemma_kth_sorted(s, k, v + 1);
    }
}

proof fn lemma_count_le_same_multiset(a: Seq<u8>, b: Seq<u8>, v: int)
    requires
        a.to_multiset() == b.to_multiset(),
    ensures
        count_le(a, v) == count_le(b, v),
    decreases v + 1,
{
    if v >= 0 {
        lemma_count_le_same_multiset(a, b, v - 1);
    }
}

proof fn lemma_kth_same_multiset(a: Seq<u8>, b: Seq<u8>, k: int, v: int)
    requires
        a.to_multiset() == b.to_multiset(),
    ensures
        kth_from(a, k, v) == kth_from(b, k, v),
    decreases 255 - v,
{
    lemma_count_le_same_multiset(a, b, v);
    if v < 255 {
        lemma_kth_same_multiset(a, b, k, v + 1);
    }
}

/// Two sequences with the same elements have the same median.
pub proof fn lemma_median_same_multiset(a: Seq<u8>, b: Seq<u8>)
    requires
        a.to_multiset() == b.to_multiset(),
    ensures
        median_spec(a) == median_spec(b),
{
    broadcast use vstd::seq_lib::to_multiset_len;

    let mid = a.len() as int / 2;
    vstd::seq_lib::to_multiset_len(a);
    vstd::seq_lib::to_multiset_len(b);
    lemma_kth_same_multiset(a, b, mid, 0);
    lemma_kth_same_multiset(a, b, mid - 1, 0);
}

/// The median of `values`, which it sorts in place: the middle value, or
/// for an even count the mean of the two middle ones, rounded down.
pub fn median(values: &mut Vec<u8>) -> (r: u8)
    requires
        old(values).len() > 0,
    ensures
        sorted(final(values)@),
        final(values)@.to_multiset() == old(values)@.to_multiset(),
        final(values).len() % 2 == 1 ==> r == final(values)@[final(values).len() as int / 2],
        final(values).len() % 2 == 0 ==> r == (final(values)@[final(values).len() as int / 2 - 1]
            + final(values)@[final(values).len() as int / 2]) / 2,
        r == median_spec(old(values)@),
{
    let ghost before = values@;
    sort_ascending(values);
    proof {
        broadcast use vstd::seq_lib::to_multiset_len;

        vstd::seq_lib::to_multiset_len(values@);
        vstd::seq_lib::to_multiset_len(before);
        lemma_median_same_multiset(before, values@);
        let mid = values.len() / 2;
        lemma_kth_sorted(values@, mid as int, 0);
        if values.len() % 2 == 0 {
            lemma_kth_sorted(values@, mid as int - 1, 0);
        }
    }
    let n = values.len();
    let mid = n / 2;
    if n % 2 == 1 {
        values[mid]
    } else {
        ((values[mid - 1] as u16 + values[mid] as u16) / 2) as u8
    }
}

/// How many elements of `s` differ from `b`.
pub open spec fn count_ne(s: Seq<u8>, b: int) -> nat
    decreases s.len(),
{
    if s.len() == 0 {
        0
    } else {
        count_ne(s.drop_last(), b) + if s.last() != b {
            1nat
        } else {
            0nat
        }
    }
}

proof fn lemma_count_le_drop_last(s: Seq<u8>, v: int)
    requires
        s.len() > 0,
    ensures
        count_le(s, v) == count_le(s.drop_last(), v) + if s.last() <= v {
            1nat
        } else {
            0nat
        },
    decreases v + 1,
{
    if v >= 0 {
        lemma_count_le_drop_last(s, v - 1);
        lemma_count_eq_drop_last(s, v);
    }
}

proof fn lemma_count_le_near_constant(s: Seq<u8>, b: int, v: int)
    ensures
        v < b ==> count_le(s, v) <= count_ne(s, b),
        v >= b ==> count_le(s, v) + count_ne(s, b) >= s.len(),
    decreases s.len(),
{
    if s.len() == 0 {
        lemma_count_le_empty(s, v);
    } else {
        lemma_count_le_drop_last(s, v);
        lemma_count_le_near_constant(s.drop_last(), b, v);
    }
}

proof fn lemma_count_le_empty(s: Seq<u8>, v: int)
    requires
        s.len() == 0,
    ensures
        count_le(s, v) == 0,
    decreases v + 1,
{
    broadcast use vstd::seq_lib::to_multiset_contains;

    if v >= 0 {
        lemma_count_le_empty(s, v - 1);
        if v <= 255 {
            assert(!s.contains(v as u8));
        }
    }
}

proof fn lemma_kth_near_constant(s: Seq<u8>, b: int, k: int, v: int)
    requires
        0 <= b <= 255,
        0 <= v <= b,
        count_ne(s, b) <= k,
        k + count_ne(s, b) < s.len(),
    ensures
        kth_from(s, k, v) == b,
    decreases b - v,
{
    lemma_count_le_near_constant(s, b, v);
    if v < b {
        lemma_kth_near_constant(s, b, k, v + 1);
    }
}

/// A sequence of odd length in which fewer than half of the elements differ
/// from `b` has the median `b`.
pub proof fn lemma_median_of_majority(s: Seq<u8>, b: u8)
    requires
        s.len() % 2 == 1,
        2 * count_ne(s, b as int) < s.len(),
    ensures
        median_spec(s) == b,
{
    lemma_kth_near_constant(s, b as int, s.len() as int / 2, 0);
}

/// Concatenation adds the counts of elements other than `b`.
pub proof fn lemma_count_ne_concat(a: Seq<u8>, c: Seq<u8>, b: int)
    ensures
        count_ne(a + c, b) == count_ne(a, b) + count_ne(c, b),
    decreases c.len(),
{
    if c.len() == 0 {
        assert(a + c =~= a);
    } else {
        assert((a + c).drop_last() =~= a + c.drop_last());
        lemma_count_ne_concat(a, c.drop_last(), b);
    }
}

/// If every element but the one at `p` is `b`, at most one differs from `b`;
/// if every element is `b`, none does.
pub proof fn lemma_count_ne_one_exception(s: Seq<u8>, b: int, p: int)
    requires
        forall|i: int| 0 <= i < s.len() && i != p ==> #[trigger] s[i] == b,
    ensures
        count_ne(s, b) <= 1,
        !(0 <= p < s.len()) ==> count_ne(s, b) == 0,
    decreases s.len(),
{
    if s.len() > 0 {
        lemma_count_ne_one_exception(s.drop_last(), b, p);
        if p == s.len() - 1 {
            lemma_count_ne_one_exception(s.drop_last(), b, -1);
        }
    }
}

/// The outer product of `u` and `v`: entry `(i, j)` is `u[i] * v[j]`.
pub fn outer_product(u: &Vec<u32>, v: &Vec<u32>) -> (r: Vec<Vec<u64>>)
    ensures
        r.len() == u.len(),
        forall|i: int| 0 <= i < u.len() ==> #[trigger] r[i].len() == v.len(),
        forall|i: int, j: int|
            0 <= i < u.len() && 0 <= j < v.len() ==> #[trigger] r[i][j] == u[i] * v[j],
{
    let mut r: Vec<Vec<u64>> = Vec::new();
    let mut i: usize = 0;
    while i < u.len()
        invariant
            i <= u.len(),
            r.len() == i,
            forall|a: int| 0 <= a < i ==> #[trigger] r[a].len() == v.len(),
            forall|a: int, b: int| 0 <= a < i && 0 <= b < v.len() ==> #[trigger] r[a][b] == u[a] * v[b],
        decreases u.len() - i,
    {
        let mut row: Vec<u64> = Vec::new();
        let mut j: usize = 0;
        while j < v.len()
            invariant
                i < u.len(),
                j <= v.len(),
                row.len() == j,
                forall|b: int| 0 <= b < j ==> #[trigger] row[b] == u[i as int] * v[b],
            decreases v.len() - j,
        {
            assert(u[i as int] * v[j as int] <= 0xffff_ffff * 0xffff_ffff) by (nonlinear_arith)
                requires u[i as int] <= 0xffff_ffff, v[j as int] <= 0xffff_ffff;
            row.push(u[i] as u64 * v[j] as u64);
            j += 1;
        }
        r.push(row);
        i += 1;
    }
    r
}

} // verus!
