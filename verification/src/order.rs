//! Stable sorting by keys that are compared number by number.
use crate::text::chars_of;
use vstd::prelude::*;

verus! {

/// Whether `a` comes before `b`: at the first place where they differ it has
/// the smaller number, or it ends there.
pub open spec fn before(a: Seq<u64>, b: Seq<u64>) -> bool
    decreases a.len(),
{
    if b.len() == 0 {
        false
    } else if a.len() == 0 {
        true
    } else if a[0] != b[0] {
        a[0] < b[0]
    } else {
        before(a.drop_first(), b.drop_first())
    }
}

/// Whether `a` comes before `b` in the chosen direction.
pub open spec fn goes_first(a: Seq<u64>, b: Seq<u64>, asc: bool) -> bool {
    if asc {
        before(a, b)
    } else {
        before(b, a)
    }
}

pub proof fn lemma_before_at(a: Seq<u64>, b: Seq<u64>, k: int)
    requires
        0 <= k <= a.len(),
        k <= b.len(),
        forall|i: int| 0 <= i < k ==> #[trigger] a[i] == b[i],
        k < a.len() && k < b.len() ==> a[k] != b[k],
    ensures
        before(a, b) == (k < b.len() && (k == a.len() || a[k] < b[k])),
    decreases a.len(),
{
    if k > 0 {
        assert(a[0] == b[0]);
        let x = a.drop_first();
        let y = b.drop_first();
        assert forall|i: int| 0 <= i < k - 1 implies #[trigger] x[i] == y[i] by {
            assert(x[i] == a[i + 1]);
            assert(y[i] == b[i + 1]);
        }
        lemma_before_at(x, y, k - 1);
    }
}

pub fn is_before(a: &Vec<u64>, b: &Vec<u64>) -> (r: bool)
    ensures
        r == before(a@, b@),
{
    let mut k: usize = 0;
    while k < a.len() && k < b.len() && a[k] == b[k]
        invariant
            k <= a@.len(),
            k <= b@.len(),
            forall|i: int| 0 <= i < k ==> #[trigger] a@[i] == b@[i],
        decreases a.len() - k,
    {
        k += 1;
    }
    proof {
        lemma_before_at(a@, b@, k as int);
    }
    k < b.len() && (k == a.len() || a[k] < b[k])
}

fn comes_first(a: &Vec<u64>, b: &Vec<u64>, asc: bool) -> (r: bool)
    ensures
        r == goes_first(a@, b@, asc),
{
    if asc {
        is_before(a, b)
    } else {
        is_before(b, a)
    }
}

/// Where number `n` goes in the sorted list `s`: behind everything that it
/// does not come before.
pub open spec fn slot(s: Seq<int>, keys: Seq<Seq<u64>>, n: int, asc: bool) -> int
    decreases s.len(),
{
    if s.len() > 0 && goes_first(keys[n], keys[s.last()], asc) {
        slot(s.drop_last(), keys, n, asc)
    } else {
        s.len() as int
    }
}

/// The first `n` places of `keys` in the order of their keys; equal keys stay
/// in the order in which they came.
pub open spec fn order_of(keys: Seq<Seq<u64>>, n: nat, asc: bool) -> Seq<int>
    decreases n,
{
    if n == 0 {
        seq![]
    } else {
        let s = order_of(keys, (n - 1) as nat, asc);
        s.insert(slot(s, keys, n - 1, asc), n - 1)
    }
}

/// The places of `keys` in the order of their keys.
pub open spec fn order(keys: Seq<Seq<u64>>, asc: bool) -> Seq<int> {
    order_of(keys, keys.len(), asc)
}

pub open spec fn as_places(v: Seq<usize>) -> Seq<int> {
    Seq::new(v.len(), |i: int| v[i] as int)
}

proof fn lemma_order_range(keys: Seq<Seq<u64>>, n: nat, asc: bool)
    ensures
        order_of(keys, n, asc).len() == n,
        forall|i: int| 0 <= i < n ==> 0 <= #[trigger] order_of(keys, n, asc)[i] < n,
        n > 0 ==> 0 <= slot(
            order_of(keys, (n - 1) as nat, asc),
            keys,
            n - 1,
            asc,
        ) < n,
    decreases n,
{
    if n > 0 {
        let s = order_of(keys, (n - 1) as nat, asc);
        lemma_order_range(keys, (n - 1) as nat, asc);
        lemma_slot_range(s, keys, n - 1, asc);
    }
}

proof fn lemma_slot_range(s: Seq<int>, keys: Seq<Seq<u64>>, n: int, asc: bool)
    ensures
        0 <= slot(s, keys, n, asc) <= s.len(),
    decreases s.len(),
{
    if s.len() > 0 && goes_first(keys[n], keys[s.last()], asc) {
        lemma_slot_range(s.drop_last(), keys, n, asc);
    }
}

/// Sorts by key without moving equal keys past each other; the result lists
/// the places of the keys.
pub fn sort_keyed(keys: &Vec<Vec<u64>>, asc: bool) -> (r: Vec<usize>)
    ensures
        as_places(r@) == order(keys.deep_view(), asc),
        r@.len() == keys@.len(),
        forall|i: int| 0 <= i < r@.len() ==> #[trigger] r@[i] < keys@.len(),
{
    let ghost ks = keys.deep_view();
    assert forall|i: int| 0 <= i < ks.len() implies #[trigger] ks[i] == keys@[i]@ by {
        assert(ks[i] =~= keys@[i]@);
    }
    let mut r: Vec<usize> = Vec::new();
    let mut n: usize = 0;
    assert(as_places(r@) =~= seq![]);
    while n < keys.len()
        invariant
            n <= keys@.len(),
            ks == keys.deep_view(),
            forall|i: int| 0 <= i < ks.len() ==> #[trigger] ks[i] == keys@[i]@,
            r@.len() == n,
            forall|i: int| 0 <= i < r@.len() ==> #[trigger] r@[i] < n,
            as_places(r@) == order_of(ks, n as nat, asc),
        decreases keys.len() - n,
    {
        let ghost s = as_places(r@);
        let mut p: usize = r.len();
        assert(s.take(p as int) =~= s);
        while p > 0 && comes_first(&keys[n], &keys[r[p - 1]], asc)
            invariant
                p <= r@.len(),
                n < keys@.len(),
                r@.len() == n,
                s == as_places(r@),
                ks == keys.deep_view(),
                forall|i: int| 0 <= i < ks.len() ==> #[trigger] ks[i] == keys@[i]@,
                forall|i: int| 0 <= i < r@.len() ==> #[trigger] r@[i] < n,
                slot(s.take(p as int), ks, n as int, asc) == slot(s, ks, n as int, asc),
            decreases p,
        {
            proof {
                let t = s.take(p as int);
                assert(t.last() == r@[p - 1] as int);
                assert(t.drop_last() =~= s.take(p - 1));
                assert(goes_first(ks[n as int], ks[t.last()], asc));
            }
            p -= 1;
        }
        proof {
            let t = s.take(p as int);
            if p > 0 {
                assert(t.last() == r@[p - 1] as int);
            }
            assert(slot(t, ks, n as int, asc) == p);
        }
        let ghost before_insert = r@;
        r.insert(p, n);
        assert(as_places(r@) =~= s.insert(p as int, n as int));
        n += 1;
    }
    r
}

// ---------------------------------------------------------------- key parts

/// The key of a text: its characters.
pub open spec fn text_key(s: Seq<char>) -> Seq<u64> {
    s.map_values(|c: char| c as u64)
}

pub fn key_of_text(s: &str) -> (r: Vec<u64>)
    ensures
        r@ == text_key(s@),
{
    let c = chars_of(s);
    let mut r: Vec<u64> = Vec::new();
    let mut i: usize = 0;
    while i < c.len()
        invariant
            i <= c@.len(),
            c@ == s@,
            r@ == text_key(s@.take(i as int)),
        decreases c.len() - i,
    {
        r.push(c[i] as u64);
        i += 1;
        assert(text_key(s@.take(i as int)) =~= text_key(s@.take(i - 1)).push(s@[i - 1] as u64));
    }
    assert(s@.take(i as int) =~= s@);
    r
}

/// The key of a text that may be missing, followed by a number: a missing text
/// comes first, and the number decides between equal texts.
pub open spec fn text_then_number(s: Option<Seq<char>>, n: u64) -> Seq<u64> {
    match s {
        None => seq![0u64, n],
        Some(s) => seq![1u64] + s.map_values(|c: char| (c as u32 as u64 + 1) as u64) + seq![0u64, n],
    }
}

pub fn key_of_text_then_number(s: &Option<String>, n: u64) -> (r: Vec<u64>)
    ensures
        r@ == text_then_number(s.deep_view(), n),
{
    let mut r: Vec<u64> = Vec::new();
    match s {
        None => {
            r.push(0);
            r.push(n);
            assert(r@ =~= seq![0u64, n]);
        },
        Some(s) => {
            r.push(1);
            let c = chars_of(s);
            let ghost f = |c: char| (c as u32 as u64 + 1) as u64;
            let mut i: usize = 0;
            assert(r@ =~= seq![1u64] + s@.take(0).map_values(f));
            while i < c.len()
                invariant
                    i <= c@.len(),
                    c@ == s@,
                    f == (|c: char| (c as u32 as u64 + 1) as u64),
                    r@ == seq![1u64] + s@.take(i as int).map_values(f),
                decreases c.len() - i,
            {
                let n: u32 = c[i] as u32;
                r.push(n as u64 + 1);
                i += 1;
                assert(r@ =~= seq![1u64] + s@.take(i as int).map_values(f));
            }
            assert(s@.take(i as int) =~= s@);
            r.push(0);
            r.push(n);
            assert(r@ =~= text_then_number(Some(s@), n));
        },
    }
    r
}

/// The key of a number that may be missing; a missing one comes first.
pub open spec fn maybe_number(n: Option<u64>) -> Seq<u64> {
    match n {
        None => seq![0u64],
        Some(n) => seq![1u64, n],
    }
}

/// A signed number as an unsigned one that sorts alike.
pub open spec fn shifted(t: i64) -> u64 {
    (t + 0x8000_0000_0000_0000) as u64
}

pub fn shift(t: i64) -> (r: u64)
    ensures
        r == shifted(t),
{
    (t as i128 + 0x8000_0000_0000_0000) as u64
}

// ---------------------------------------------------------------------- laws

proof fn lemma_irreflexive(a: Seq<u64>)
    ensures
        !before(a, a),
    decreases a.len(),
{
    if a.len() > 0 {
        lemma_irreflexive(a.drop_first());
    }
}

proof fn lemma_asymmetric(a: Seq<u64>, b: Seq<u64>)
    requires
        before(a, b),
    ensures
        !before(b, a),
    decreases a.len(),
{
    if a.len() > 0 && b.len() > 0 && a[0] == b[0] {
        lemma_asymmetric(a.drop_first(), b.drop_first());
    }
}

/// If `a` is not before `b` and `b` is not before `c`, then `a` is not before `c`.
proof fn lemma_not_before_chain(a: Seq<u64>, b: Seq<u64>, c: Seq<u64>)
    requires
        !before(a, b),
        !before(b, c),
    ensures
        !before(a, c),
    decreases a.len(),
{
    if a.len() > 0 && b.len() > 0 && c.len() > 0 {
        if a[0] == b[0] && b[0] == c[0] {
            lemma_not_before_chain(a.drop_first(), b.drop_first(), c.drop_first());
        }
    }
}

/// Whether every pair of the list stands in the right order: by key, and
/// equal keys in the order in which they came.
pub open spec fn in_order(s: Seq<int>, keys: Seq<Seq<u64>>, asc: bool) -> bool {
    forall|i: int, j: int|
        0 <= i < j < s.len() ==> !goes_first(keys[#[trigger] s[j]], keys[#[trigger] s[i]], asc) && (
        !goes_first(keys[s[i]], keys[s[j]], asc) ==> s[i] < s[j])
}

proof fn lemma_insert_keeps_order(s: Seq<int>, keys: Seq<Seq<u64>>, n: int, asc: bool, p: int)
    requires
        in_order(s, keys, asc),
        forall|i: int| 0 <= i < s.len() ==> #[trigger] s[i] < n,
        0 <= p <= s.len(),
        forall|i: int| p <= i < s.len() ==> goes_first(keys[n], keys[#[trigger] s[i]], asc),
        p > 0 ==> !goes_first(keys[n], keys[s[p - 1]], asc),
    ensures
        in_order(s.insert(p, n), keys, asc),
{
    let t = s.insert(p, n);
    assert forall|i: int, j: int| 0 <= i < j < t.len() implies !goes_first(
        keys[#[trigger] t[j]],
        keys[#[trigger] t[i]],
        asc,
    ) && (!goes_first(keys[t[i]], keys[t[j]], asc) ==> t[i] < t[j]) by {
        if i == p {
            assert(t[j] == s[j - 1]);
            if asc {
                lemma_asymmetric(keys[n], keys[s[j - 1]]);
            } else {
                lemma_asymmetric(keys[s[j - 1]], keys[n]);
            }
        } else if j == p {
            assert(t[i] == s[i]);
            if i < p - 1 {
                assert(!goes_first(keys[s[p - 1]], keys[s[i]], asc));
                if asc {
                    lemma_not_before_chain(keys[n], keys[s[p - 1]], keys[s[i]]);
                } else {
                    lemma_not_before_chain(keys[s[i]], keys[s[p - 1]], keys[n]);
                }
            }
        } else {
            let a = if i < p {
                i
            } else {
                i - 1
            };
            let b = if j < p {
                j
            } else {
                j - 1
            };
            assert(t[i] == s[a] && t[j] == s[b]);
            assert(a < b);
        }
    }
}

proof fn lemma_slot(s: Seq<int>, keys: Seq<Seq<u64>>, n: int, asc: bool)
    ensures
        0 <= slot(s, keys, n, asc) <= s.len(),
        forall|i: int|
            slot(s, keys, n, asc) <= i < s.len() ==> goes_first(
                keys[n],
                keys[#[trigger] s[i]],
                asc,
            ),
        slot(s, keys, n, asc) > 0 ==> !goes_first(
            keys[n],
            keys[s[slot(s, keys, n, asc) - 1]],
            asc,
        ),
    decreases s.len(),
{
    if s.len() > 0 && goes_first(keys[n], keys[s.last()], asc) {
        let t = s.drop_last();
        lemma_slot(t, keys, n, asc);
        let k = slot(s, keys, n, asc);
        assert forall|i: int| k <= i < s.len() implies goes_first(
            keys[n],
            keys[#[trigger] s[i]],
            asc,
        ) by {
            if i < t.len() {
                assert(t[i] == s[i]);
            }
        }
    }
}

proof fn lemma_order_of(keys: Seq<Seq<u64>>, n: nat, asc: bool)
    ensures
        in_order(order_of(keys, n, asc), keys, asc),
        order_of(keys, n, asc).len() == n,
        forall|i: int| 0 <= i < n ==> 0 <= #[trigger] order_of(keys, n, asc)[i] < n,
        forall|v: int| 0 <= v < n ==> #[trigger] order_of(keys, n, asc).contains(v),
        order_of(keys, n, asc).no_duplicates(),
    decreases n,
{
    if n > 0 {
        let s = order_of(keys, (n - 1) as nat, asc);
        lemma_order_of(keys, (n - 1) as nat, asc);
        lemma_slot(s, keys, n - 1, asc);
        let p = slot(s, keys, n - 1, asc);
        lemma_insert_keeps_order(s, keys, n - 1, asc, p);
        let t = s.insert(p, n - 1);
        assert forall|v: int| 0 <= v < n implies #[trigger] t.contains(v) by {
            if v == n - 1 {
                assert(t[p] == v);
            } else {
                assert(s.contains(v));
                let k = choose|k: int| 0 <= k < s.len() && s[k] == v;
                assert(t[if k < p {
                    k
                } else {
                    k + 1
                }] == v);
            }
        }
        assert forall|i: int, j: int| 0 <= i < t.len() && 0 <= j < t.len() && i != j implies t[i]
            != t[j] by {
            let a = if i < p {
                i
            } else {
                i - 1
            };
            let b = if j < p {
                j
            } else {
                j - 1
            };
            if i != p && j != p {
                assert(t[i] == s[a] && t[j] == s[b]);
            } else if i == p {
                assert(t[j] == s[b]);
            } else {
                assert(t[i] == s[a]);
            }
        }
    }
}

/// Sorting lists nothing but places of the keys.
pub proof fn order_is_in_range(keys: Seq<Seq<u64>>, asc: bool, i: int)
    requires
        0 <= i < order(keys, asc).len(),
    ensures
        0 <= order(keys, asc)[i] < keys.len(),
{
    lemma_order_range(keys, keys.len(), asc);
}

/// Sorting lists every place once, in the order of the keys, and leaves equal
/// keys in the order in which they came, in both directions.
pub proof fn sorting_is_a_stable_permutation(keys: Seq<Seq<u64>>, asc: bool)
    ensures
        order(keys, asc).len() == keys.len(),
        order(keys, asc).no_duplicates(),
        forall|v: int| 0 <= v < keys.len() ==> #[trigger] order(keys, asc).contains(v),
        in_order(order(keys, asc), keys, asc),
{
    lemma_order_of(keys, keys.len(), asc);
}

} // verus!
