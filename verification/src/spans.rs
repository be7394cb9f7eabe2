//! Byte ranges held on disk by a partly finished download.
use vstd::prelude::*;

verus! {

/// The bytes from the first number up to, and without, the second.
pub type Span = (u64, u64);

/// Bytes that one range covers; an inverted range covers none.
pub open spec fn span_len(s: Span) -> int {
    if s.0 < s.1 {
        s.1 - s.0
    } else {
        0
    }
}

/// Sum of the lengths of the ranges of `v`.
pub open spec fn total(v: Seq<Span>) -> int
    decreases v.len(),
{
    if v.len() == 0 {
        0
    } else {
        total(v.drop_last()) + span_len(v.last())
    }
}

/// Whether byte `b` lies in one of the ranges of `v`.
pub open spec fn covers(v: Seq<Span>, b: int) -> bool {
    exists|i: int| 0 <= i < v.len() && (#[trigger] v[i]).0 <= b < v[i].1
}

/// Whether byte `b` lies below the end of an object of the given size; every
/// byte does where the size is not known.
pub open spec fn inside(size: Option<u64>, b: int) -> bool {
    size matches Some(s) ==> b < s
}

/// Sorted, nonempty, and with a gap between any two neighbours.
pub open spec fn canonical(v: Seq<Span>) -> bool {
    &&& forall|i: int| 0 <= i < v.len() ==> (#[trigger] v[i]).0 < v[i].1
    &&& forall|i: int, j: int| 0 <= i < j < v.len() ==> (#[trigger] v[i]).1 < (#[trigger] v[j]).0
}

proof fn lemma_total_nonnegative(v: Seq<Span>)
    ensures
        0 <= total(v),
    decreases v.len(),
{
    if v.len() > 0 {
        lemma_total_nonnegative(v.drop_last());
    }
}

/// The sum of the lengths as a 64-bit counter shows it.
pub open spec fn counted(v: Seq<Span>) -> u64 {
    if total(v) <= u64::MAX {
        total(v) as u64
    } else {
        u64::MAX
    }
}

/// Total bytes covered by a list of ranges; a sum past the counter's end stays
/// at its end.
pub fn sum_spans(spans: &[Span]) -> (r: u64)
    ensures
        r == counted(spans@),
{
    let mut sum: u64 = 0;
    let mut i: usize = 0;
    while i < spans.len()
        invariant
            i <= spans@.len(),
            sum == counted(spans@.take(i as int)),
        decreases spans.len() - i,
    {
        let (lo, hi) = spans[i];
        proof {
            lemma_total_nonnegative(spans@.take(i as int));
            assert(spans@.take(i + 1).drop_last() =~= spans@.take(i as int));
        }
        sum = sum.saturating_add(hi.saturating_sub(lo));
        i += 1;
    }
    assert(spans@.take(i as int) =~= spans@);
    sum
}

/// The ranges cut off at `size`, the empty ones dropped, ordered by where they begin.
fn clamp_and_sort(spans: &[Span], size: Option<u64>) -> (r: Vec<Span>)
    ensures
        forall|i: int| 0 <= i < r@.len() ==> (#[trigger] r@[i]).0 < r@[i].1,
        forall|i: int, j: int|
            0 <= i < j < r@.len() ==> (#[trigger] r@[i]).0 <= (#[trigger] r@[j]).0,
        forall|b: int| #[trigger] covers(r@, b) <==> covers(spans@, b) && inside(size, b),
{
    let mut v: Vec<Span> = Vec::new();
    let mut i: usize = 0;
    while i < spans.len()
        invariant
            i <= spans@.len(),
            forall|i: int| 0 <= i < v@.len() ==> (#[trigger] v@[i]).0 < v@[i].1,
            forall|i: int, j: int|
                0 <= i < j < v@.len() ==> (#[trigger] v@[i]).0 <= (#[trigger] v@[j]).0,
            forall|b: int| #[trigger] covers(v@, b) <==> covers(spans@.take(i as int), b) && inside(size, b),
        decreases spans.len() - i,
    {
        let (lo0, hi0) = spans[i];
        let (lo, hi): (u64, u64) = match size {
            Some(s) => (if lo0 < s {
                lo0
            } else {
                s
            }, if hi0 < s {
                hi0
            } else {
                s
            }),
            None => (lo0, hi0),
        };
        let ghost before = v@;
        let ghost seen = spans@.take(i as int);
        let ghost more = spans@.take(i + 1);
        assert forall|b: int| #[trigger] covers(more, b) <==> covers(seen, b) || lo0 <= b < hi0 by {
            if covers(seen, b) {
                let k = choose|k: int|
                    0 <= k < seen.len() && (#[trigger] seen[k]).0 <= b < seen[k].1;
                assert(more[k] == seen[k]);
            }
            if lo0 <= b < hi0 {
                assert(more[i as int] == spans@[i as int]);
            }
            if covers(more, b) {
                let k = choose|k: int|
                    0 <= k < more.len() && (#[trigger] more[k]).0 <= b < more[k].1;
                if k < i {
                    assert(seen[k] == more[k]);
                }
            }
        }
        if lo < hi {
            let mut p: usize = v.len();
            while p > 0 && v[p - 1].0 > lo
                invariant
                    p <= v@.len(),
                    forall|j: int| p <= j < v@.len() ==> (#[trigger] v@[j]).0 > lo,
                decreases p,
            {
                p -= 1;
            }
            v.insert(p, (lo, hi));
            assert forall|b: int| #[trigger] covers(v@, b) <==> covers(before, b) || lo <= b < hi by {
                if covers(before, b) {
                    let k = choose|k: int|
                        0 <= k < before.len() && (#[trigger] before[k]).0 <= b < before[k].1;
                    let m = if k < p {
                        k
                    } else {
                        k + 1
                    };
                    assert(v@[m] == before[k]);
                }
                if lo <= b < hi {
                    assert(v@[p as int] == (lo, hi));
                }
                if covers(v@, b) {
                    let k = choose|k: int|
                        0 <= k < v@.len() && (#[trigger] v@[k]).0 <= b < v@[k].1;
                    if k != p {
                        let m = if k < p {
                            k
                        } else {
                            k - 1
                        };
                        assert(before[m] == v@[k]);
                    }
                }
            }
        }
        assert forall|b: int| #[trigger] covers(v@, b) <==> covers(more, b) && inside(size, b) by {
            assert(covers(before, b) <==> covers(seen, b) && inside(size, b));
            assert(covers(more, b) <==> covers(seen, b) || lo0 <= b < hi0);
        }
        i += 1;
    }
    assert(spans@.take(i as int) =~= spans@);
    v
}

/// Whether `r` is the clean form of `v`: canonical, and covering exactly the
/// bytes of `v` that lie within the object.
pub open spec fn is_clean(r: Seq<Span>, v: Seq<Span>, size: Option<u64>) -> bool {
    canonical(r) && forall|b: int| #[trigger] covers(r, b) <==> covers(v, b) && inside(size, b)
}

/// The clean form of `v`.
pub open spec fn cleaned(v: Seq<Span>, size: Option<u64>) -> Seq<Span> {
    choose|r: Seq<Span>| is_clean(r, v, size)
}

/// Sort, clamp and merge persisted byte ranges. The scheduler is told "these
/// bytes arrived, never fetch them again", so ranges read back from disk are
/// not trusted as they are: inverted ranges drop, ranges past the end of the
/// object clamp, and overlapping or adjacent ranges merge.
pub fn sanitize_spans(spans: &[Span], size: Option<u64>) -> (r: Vec<Span>)
    ensures
        is_clean(r@, spans@, size),
        r@ == cleaned(spans@, size),
{
    let v = clamp_and_sort(spans, size);
    let mut out: Vec<Span> = Vec::new();
    let mut k: usize = 0;
    while k < v.len()
        invariant
            k <= v@.len(),
            canonical(out@),
            forall|i: int| 0 <= i < v@.len() ==> (#[trigger] v@[i]).0 < v@[i].1,
            forall|i: int, j: int|
                0 <= i < j < v@.len() ==> (#[trigger] v@[i]).0 <= (#[trigger] v@[j]).0,
            out@.len() > 0 ==> k > 0 && out@.last().0 <= v@[k - 1].0,
            forall|b: int| #[trigger] covers(out@, b) <==> covers(v@.take(k as int), b),
        decreases v.len() - k,
    {
        let (lo, hi) = v[k];
        let ghost before = out@;
        let ghost seen = v@.take(k as int);
        let ghost more = v@.take(k + 1);
        assert forall|b: int| #[trigger] covers(more, b) <==> covers(seen, b) || lo <= b < hi by {
            if covers(seen, b) {
                let m = choose|m: int|
                    0 <= m < seen.len() && (#[trigger] seen[m]).0 <= b < seen[m].1;
                assert(more[m] == seen[m]);
            }
            if lo <= b < hi {
                assert(more[k as int] == v@[k as int]);
            }
            if covers(more, b) {
                let m = choose|m: int|
                    0 <= m < more.len() && (#[trigger] more[m]).0 <= b < more[m].1;
                if m < k {
                    assert(seen[m] == more[m]);
                }
            }
        }
        let n = out.len();
        if n > 0 && lo <= out[n - 1].1 {
            let end = out[n - 1].1;
            let start = out[n - 1].0;
            if hi > end {
                out.set(n - 1, (start, hi));
            }
            assert forall|b: int| #[trigger] covers(out@, b) <==> covers(before, b) || lo <= b < hi by {
                if covers(before, b) {
                    let m = choose|m: int|
                        0 <= m < before.len() && (#[trigger] before[m]).0 <= b < before[m].1;
                    assert(out@[m].0 == before[m].0);
                    assert(out@[m].1 >= before[m].1);
                }
                if lo <= b < hi {
                    assert(out@[n - 1].0 <= b < out@[n - 1].1);
                }
                if covers(out@, b) {
                    let m = choose|m: int|
                        0 <= m < out@.len() && (#[trigger] out@[m]).0 <= b < out@[m].1;
                    if m < n - 1 {
                        assert(before[m] == out@[m]);
                    } else {
                        assert(before[n - 1].0 == start);
                    }
                }
            }
        } else {
            out.push((lo, hi));
            assert forall|b: int| #[trigger] covers(out@, b) <==> covers(before, b) || lo <= b < hi by {
                if covers(before, b) {
                    let m = choose|m: int|
                        0 <= m < before.len() && (#[trigger] before[m]).0 <= b < before[m].1;
                    assert(out@[m] == before[m]);
                }
                if lo <= b < hi {
                    assert(out@[n as int] == (lo, hi));
                }
                if covers(out@, b) {
                    let m = choose|m: int|
                        0 <= m < out@.len() && (#[trigger] out@[m]).0 <= b < out@[m].1;
                    if m < n {
                        assert(before[m] == out@[m]);
                    }
                }
            }
        }
        assert forall|b: int| #[trigger] covers(out@, b) <==> covers(more, b) by {
            assert(covers(before, b) <==> covers(seen, b));
            assert(covers(more, b) <==> covers(seen, b) || lo <= b < hi);
        }
        k += 1;
    }
    assert(v@.take(k as int) =~= v@);
    assert forall|b: int| #[trigger] covers(out@, b) <==> covers(spans@, b) && inside(size, b) by {
        assert(covers(out@, b) <==> covers(v@, b));
    }
    proof {
        assert(is_clean(out@, spans@, size));
        a_clean_form_is_unique(out@, cleaned(spans@, size), spans@, size);
    }
    out
}

// ---------------------------------------------------------------------- laws

/// Two canonical lists that cover the same bytes are the same list, so what a
/// list covers says all there is to say about it.
pub proof fn canonical_lists_are_determined_by_their_bytes(a: Seq<Span>, b: Seq<Span>)
    requires
        canonical(a),
        canonical(b),
        forall|x: int| covers(a, x) <==> covers(b, x),
    ensures
        a == b,
    decreases a.len(),
{
    if a.len() == 0 {
        if b.len() > 0 {
            assert(b[0].0 <= b[0].0 < b[0].1);
            assert(covers(b, b[0].0 as int));
            assert(covers(a, b[0].0 as int));
        }
        assert(a =~= b);
    } else {
        let la = a.last();
        assert(a[a.len() - 1] == la);
        assert(covers(a, la.1 - 1));
        assert(covers(b, la.1 - 1));
        assert(b.len() > 0);
        let lb = b.last();
        assert(b[b.len() - 1] == lb);
        assert(covers(b, lb.1 - 1));
        assert(covers(a, lb.1 - 1));
        assert(la.1 == lb.1);
        assert(covers(a, la.0 as int));
        assert(covers(b, lb.0 as int));
        // A byte just below the last range is covered by neither.
        if la.0 < lb.0 {
            assert(la.0 <= lb.0 - 1 < la.1);
            assert(covers(a, lb.0 - 1));
            assert(covers(b, lb.0 - 1));
            let m = choose|m: int| 0 <= m < b.len() && (#[trigger] b[m]).0 <= lb.0 - 1 < b[m].1;
            assert(m < b.len() - 1);
            assert(b[m].1 < b[b.len() - 1].0);
        }
        if lb.0 < la.0 {
            assert(lb.0 <= la.0 - 1 < lb.1);
            assert(covers(b, la.0 - 1));
            assert(covers(a, la.0 - 1));
            let m = choose|m: int| 0 <= m < a.len() && (#[trigger] a[m]).0 <= la.0 - 1 < a[m].1;
            assert(m < a.len() - 1);
            assert(a[m].1 < a[a.len() - 1].0);
        }
        let ta = a.drop_last();
        let tb = b.drop_last();
        assert forall|x: int| covers(ta, x) <==> covers(tb, x) by {
            lemma_covers_without_last(a, x);
            lemma_covers_without_last(b, x);
        }
        canonical_lists_are_determined_by_their_bytes(ta, tb);
        assert(a =~= ta.push(la));
        assert(b =~= tb.push(lb));
    }
}

proof fn lemma_covers_without_last(a: Seq<Span>, x: int)
    requires
        canonical(a),
        a.len() > 0,
    ensures
        covers(a.drop_last(), x) <==> covers(a, x) && x < a.last().0,
{
    let t = a.drop_last();
    assert(a[a.len() - 1] == a.last());
    if covers(t, x) {
        let m = choose|m: int| 0 <= m < t.len() && (#[trigger] t[m]).0 <= x < t[m].1;
        assert(a[m] == t[m]);
        assert(a[m].1 < a[a.len() - 1].0);
    }
    if covers(a, x) && x < a.last().0 {
        let m = choose|m: int| 0 <= m < a.len() && (#[trigger] a[m]).0 <= x < a[m].1;
        assert(t[m] == a[m]);
    }
}

/// A canonical list within `size` bytes adds up to no more than `size`.
pub proof fn canonical_total_fits(v: Seq<Span>, size: u64)
    requires
        canonical(v),
        forall|b: int| covers(v, b) ==> b < size,
    ensures
        0 <= total(v) <= size,
{
    if v.len() > 0 {
        lemma_total_below_end(v);
        assert(v[v.len() - 1].0 <= v.last().1 - 1 < v[v.len() - 1].1);
        assert(covers(v, v.last().1 - 1));
    }
}

proof fn lemma_total_below_end(v: Seq<Span>)
    requires
        canonical(v),
        v.len() > 0,
    ensures
        0 <= total(v) <= v.last().1,
    decreases v.len(),
{
    let t = v.drop_last();
    if t.len() > 0 {
        assert forall|i: int, j: int| 0 <= i < j < t.len() implies (#[trigger] t[i]).1 < (
        #[trigger] t[j]).0 by {
            assert(t[i] == v[i] && t[j] == v[j]);
        }
        assert forall|i: int| 0 <= i < t.len() implies (#[trigger] t[i]).0 < t[i].1 by {
            assert(t[i] == v[i]);
        }
        lemma_total_below_end(t);
        assert(v[v.len() - 2].1 < v[v.len() - 1].0);
    } else {
        assert(total(t) == 0);
    }
}

/// What a canonical list covers always fits a 64-bit counter.
pub proof fn canonical_total_is_a_counter(v: Seq<Span>)
    requires
        canonical(v),
    ensures
        0 <= total(v) <= u64::MAX,
{
    if v.len() > 0 {
        lemma_total_below_end(v);
    }
}

/// A list has one clean form.
pub proof fn a_clean_form_is_unique(a: Seq<Span>, b: Seq<Span>, v: Seq<Span>, size: Option<u64>)
    requires
        is_clean(a, v, size),
        is_clean(b, v, size),
    ensures
        a == b,
{
    assert forall|x: int| covers(a, x) <==> covers(b, x) by {
        assert(covers(a, x) <==> covers(v, x) && inside(size, x));
        assert(covers(b, x) <==> covers(v, x) && inside(size, x));
    }
    canonical_lists_are_determined_by_their_bytes(a, b);
}

/// Cleaning a list twice gives what cleaning it once gives.
pub proof fn cleaning_is_idempotent(v: Seq<Span>, once: Seq<Span>, size: Option<u64>)
    requires
        is_clean(once, v, size),
    ensures
        cleaned(once, size) == once,
{
    assert(is_clean(once, once, size));
    a_clean_form_is_unique(once, cleaned(once, size), once, size);
}

/// What is left of a list within an object never counts more than the object.
pub proof fn cleaned_bytes_fit_the_object(v: Seq<Span>, once: Seq<Span>, size: u64)
    requires
        is_clean(once, v, Some(size)),
    ensures
        counted(once) == total(once),
        total(once) <= size,
{
    assert forall|b: int| covers(once, b) implies b < size by {
        assert(inside(Some(size), b));
    }
    canonical_total_fits(once, size);
}

} // verus!
