//! Lists of keyed values in which a later entry wins over an earlier one.
use crate::text::same;
use vstd::prelude::*;

verus! {

/// The map that a list of keyed values makes up, later entries winning.
pub open spec fn assoc<V>(v: Seq<(Seq<char>, V)>) -> Map<Seq<char>, V>
    decreases v.len(),
{
    if v.len() == 0 {
        Map::empty()
    } else {
        assoc(v.drop_last()).insert(v.last().0, v.last().1)
    }
}

/// The value kept for `key`, if there is one.
pub open spec fn kept<V>(m: Map<Seq<char>, V>, key: Seq<char>) -> Option<V> {
    if m.contains_key(key) {
        Some(m[key])
    } else {
        None
    }
}

pub proof fn lemma_assoc_skip<V>(v: Seq<(Seq<char>, V)>, k: int, key: Seq<char>)
    requires
        0 <= k <= v.len(),
        forall|i: int| k <= i < v.len() ==> (#[trigger] v[i]).0 != key,
    ensures
        kept(assoc(v), key) == kept(assoc(v.take(k)), key),
    decreases v.len() - k,
{
    if k < v.len() {
        let t = v.drop_last();
        assert forall|i: int| k <= i < t.len() implies (#[trigger] t[i]).0 != key by {
            assert(t[i] == v[i]);
        }
        lemma_assoc_skip(t, k, key);
        assert(t.take(k) =~= v.take(k));
        assert(v[v.len() - 1] == v.last());
    } else {
        assert(v.take(k) =~= v);
    }
}

/// The place of the value kept for `key`.
pub fn find_kept<T: DeepView>(v: &Vec<(String, T)>, key: &str) -> (r: Option<usize>)
    ensures
        match r {
            Some(i) => i < v@.len() && kept(assoc(v.deep_view()), key@) == Some(
                v@[i as int].1.deep_view(),
            ),
            None => kept(assoc(v.deep_view()), key@) is None,
        },
{
    let ghost all = v.deep_view();
    let mut k: usize = v.len();
    while k > 0
        invariant
            k <= v@.len(),
            all == v.deep_view(),
            forall|i: int| k <= i < all.len() ==> (#[trigger] all[i]).0 != key@,
        decreases k,
    {
        assert(all[k - 1] == v@[k - 1].deep_view());
        if same(&v[k - 1].0, key) {
            proof {
                lemma_assoc_skip(all, k as int, key@);
                assert(all.take(k as int).last() == all[k - 1]);
            }
            return Some(k - 1);
        }
        k -= 1;
    }
    proof {
        lemma_assoc_skip(all, 0, key@);
        assert(all.take(0) =~= seq![]);
    }
    None
}

/// Keeps `value` for `key` from now on.
pub fn keep<T: DeepView>(v: &mut Vec<(String, T)>, key: String, value: T)
    ensures
        assoc(final(v).deep_view()) == assoc(old(v).deep_view()).insert(key@, value.deep_view()),
{
    let ghost before = v.deep_view();
    v.push((key, value));
    assert(v.deep_view().drop_last() =~= before);
    assert(v.deep_view().last() == (key@, value.deep_view()));
}

} // verus!
