//! The download table: which rows the tree selects, and in what order they
//! stand.
use crate::app::list::{row_key, shown, shown_places, visible_places};
use crate::downloads::Items;
use crate::i18n::Texts;
use crate::model::{DlState, DownloadItemModel};
use crate::order::{
    before, goes_first, lemma_before_at, order, order_is_in_range, shifted,
    sorting_is_a_stable_permutation, text_key,
};
use crate::state::{SortKey, TreeSelModel};
use crate::text::unicode_lowercase;
use vstd::prelude::*;

verus! {

/// The row at place `i` of the list is in the table.
pub open spec fn listed(
    v: Items,
    sel: TreeSelModel,
    sort: (SortKey, bool),
    t: Texts,
    i: int,
) -> bool {
    visible_places(v, sel, sort, t).contains(i)
}

proof fn lemma_shown(v: Items, sel: TreeSelModel)
    ensures
        forall|i: int|
            0 <= i < v.len() && shown(#[trigger] v[i], sel) ==> shown_places(v, sel).contains(i),
        forall|k: int|
            0 <= k < shown_places(v, sel).len() ==> 0 <= #[trigger] shown_places(v, sel)[k] < v.len()
                && shown(v[shown_places(v, sel)[k]], sel),
        forall|k: int, m: int|
            0 <= k < m < shown_places(v, sel).len() ==> #[trigger] shown_places(v, sel)[k]
                < #[trigger] shown_places(v, sel)[m],
    decreases v.len(),
{
    if v.len() > 0 {
        let u = v.drop_last();
        lemma_shown(u, sel);
        let r = shown_places(u, sel);
        let w = shown_places(v, sel);
        assert forall|i: int| 0 <= i < v.len() && shown(#[trigger] v[i], sel) implies w.contains(i) by {
            if i < u.len() {
                assert(shown(u[i], sel));
                let k = choose|k: int| 0 <= k < r.len() && r[k] == i;
                assert(w[k] == i);
            } else {
                assert(w[r.len() as int] == i);
            }
        }
        assert forall|k: int| 0 <= k < w.len() implies 0 <= #[trigger] w[k] < v.len() && shown(
            v[w[k]],
            sel,
        ) by {
            if k < r.len() {
                assert(w[k] == r[k] && u[r[k]] == v[r[k]]);
            }
        }
        assert forall|k: int, m: int| 0 <= k < m < w.len() implies #[trigger] w[k] < #[trigger] w[m] by {
            assert(w[k] == r[k]);
            if m < r.len() {
                assert(w[m] == r[m]);
            }
        }
    }
}

/// What is in the table, and how two of its rows stand to each other.
proof fn lemma_table(v: Items, sel: TreeSelModel, sort: (SortKey, bool), t: Texts)
    ensures
        visible_places(v, sel, sort, t).no_duplicates(),
        forall|i: int| #[trigger]
            listed(v, sel, sort, t, i) <==> 0 <= i < v.len() && shown(v[i], sel),
        forall|a: int, b: int|
            0 <= a < b < visible_places(v, sel, sort, t).len() ==> ({
                let x = #[trigger] visible_places(v, sel, sort, t)[a];
                let y = #[trigger] visible_places(v, sel, sort, t)[b];
                let kx = row_key(v[x], sort.0, t);
                let ky = row_key(v[y], sort.0, t);
                &&& 0 <= x < v.len()
                &&& 0 <= y < v.len()
                &&& !goes_first(ky, kx, sort.1)
                &&& !goes_first(kx, ky, sort.1) ==> x < y
            }),
{
    lemma_shown(v, sel);
    let p = shown_places(v, sel);
    let keys = Seq::new(p.len(), |i: int| row_key(v[p[i]], sort.0, t));
    sorting_is_a_stable_permutation(keys, sort.1);
    let o = order(keys, sort.1);
    let w = visible_places(v, sel, sort, t);
    assert forall|a: int| 0 <= a < o.len() implies 0 <= #[trigger] o[a] < p.len() by {
        order_is_in_range(keys, sort.1, a);
    }
    assert forall|i: int| #[trigger]
        listed(v, sel, sort, t, i) <==> 0 <= i < v.len() && shown(v[i], sel) by {
        if w.contains(i) {
            let a = choose|a: int| 0 <= a < w.len() && w[a] == i;
            assert(w[a] == p[o[a]]);
        }
        if 0 <= i < v.len() && shown(v[i], sel) {
            let k = choose|k: int| 0 <= k < p.len() && p[k] == i;
            assert(o.contains(k));
            let a = choose|a: int| 0 <= a < o.len() && o[a] == k;
            assert(w[a] == i);
        }
    }
    assert forall|a: int, b: int| 0 <= a < b < w.len() implies ({
        let x = #[trigger] w[a];
        let y = #[trigger] w[b];
        let kx = row_key(v[x], sort.0, t);
        let ky = row_key(v[y], sort.0, t);
        &&& 0 <= x < v.len()
        &&& 0 <= y < v.len()
        &&& x != y
        &&& !goes_first(ky, kx, sort.1)
        &&& !goes_first(kx, ky, sort.1) ==> x < y
    }) by {
        assert(w[a] == p[o[a]] && w[b] == p[o[b]]);
        assert(o[a] != o[b]);
        if o[a] < o[b] {
            assert(p[o[a]] < p[o[b]]);
        } else {
            assert(p[o[b]] < p[o[a]]);
        }
        assert(keys[o[a]] == row_key(v[w[a]], sort.0, t));
        assert(keys[o[b]] == row_key(v[w[b]], sort.0, t));
    }
    assert forall|a: int, b: int| 0 <= a < w.len() && 0 <= b < w.len() && a != b implies w[a]
        != w[b] by {
        if a < b {
            assert(w[a] != w[b]);
        } else {
            assert(w[b] != w[a]);
        }
    }
}

/// No row stands in the table twice, whatever the tree stands at.
pub proof fn no_row_is_shown_twice(v: Items, sel: TreeSelModel, sort: (SortKey, bool), t: Texts)
    ensures
        visible_places(v, sel, sort, t).no_duplicates(),
{
    lemma_table(v, sel, sort, t);
}

/// How the table is sorted decides nothing about what is in it.
pub proof fn sorting_hides_nothing(
    v: Items,
    sel: TreeSelModel,
    a: (SortKey, bool),
    b: (SortKey, bool),
    t: Texts,
    u: Texts,
    i: int,
)
    ensures
        listed(v, sel, a, t, i) == listed(v, sel, b, u, i),
{
    lemma_table(v, sel, a, t);
    lemma_table(v, sel, b, u);
}

/// "Finished" lists a row exactly if its download is complete. "Finished" and
/// "Unfinished" together list each row of the list exactly once, and so does
/// "All".
pub proof fn finished_and_unfinished_part_the_list(
    v: Items,
    sort: (SortKey, bool),
    t: Texts,
    i: int,
)
    requires
        0 <= i < v.len(),
    ensures
        listed(v, TreeSelModel::Finished, sort, t, i) <==> v[i].state == DlState::Complete,
        listed(v, TreeSelModel::Finished, sort, t, i) != listed(
            v,
            TreeSelModel::Unfinished,
            sort,
            t,
            i,
        ),
        listed(v, TreeSelModel::All, sort, t, i),
        visible_places(v, TreeSelModel::All, sort, t).no_duplicates(),
        visible_places(v, TreeSelModel::Finished, sort, t).no_duplicates(),
        visible_places(v, TreeSelModel::Unfinished, sort, t).no_duplicates(),
{
    lemma_table(v, TreeSelModel::All, sort, t);
    lemma_table(v, TreeSelModel::Finished, sort, t);
    lemma_table(v, TreeSelModel::Unfinished, sort, t);
}

/// A category lists the rows filed under it, and its finished and unfinished
/// branches share them out as those of the whole list do.
pub proof fn branches_part_a_category(
    v: Items,
    c: Seq<char>,
    sort: (SortKey, bool),
    t: Texts,
    i: int,
)
    requires
        0 <= i < v.len(),
    ensures
        listed(v, TreeSelModel::Cat(c), sort, t, i) <==> v[i].category == Some(c),
        listed(v, TreeSelModel::FinCat(c), sort, t, i) <==> listed(
            v,
            TreeSelModel::Cat(c),
            sort,
            t,
            i,
        ) && listed(v, TreeSelModel::Finished, sort, t, i),
        listed(v, TreeSelModel::UnfCat(c), sort, t, i) <==> listed(
            v,
            TreeSelModel::Cat(c),
            sort,
            t,
            i,
        ) && listed(v, TreeSelModel::Unfinished, sort, t, i),
{
    lemma_table(v, TreeSelModel::Cat(c), sort, t);
    lemma_table(v, TreeSelModel::FinCat(c), sort, t);
    lemma_table(v, TreeSelModel::UnfCat(c), sort, t);
    lemma_table(v, TreeSelModel::Finished, sort, t);
    lemma_table(v, TreeSelModel::Unfinished, sort, t);
}

/// A queue lists its own rows; "Queues" lists the rows of all of them, each of
/// which is in one queue only.
pub proof fn queues_list_their_own(
    v: Items,
    q: Seq<char>,
    r: Seq<char>,
    sort: (SortKey, bool),
    t: Texts,
    i: int,
)
    requires
        0 <= i < v.len(),
        q != r,
    ensures
        listed(v, TreeSelModel::Queue(q), sort, t, i) <==> v[i].queue == Some(q),
        listed(v, TreeSelModel::Queue(q), sort, t, i) ==> listed(
            v,
            TreeSelModel::Queues,
            sort,
            t,
            i,
        ) && !listed(v, TreeSelModel::Queue(r), sort, t, i),
        v[i].queue is None ==> !listed(v, TreeSelModel::Queues, sort, t, i),
        v[i].queue matches Some(own) ==> listed(v, TreeSelModel::Queues, sort, t, i) && listed(
            v,
            TreeSelModel::Queue(own),
            sort,
            t,
            i,
        ),
{
    lemma_table(v, TreeSelModel::Queue(q), sort, t);
    lemma_table(v, TreeSelModel::Queue(r), sort, t);
    lemma_table(v, TreeSelModel::Queues, sort, t);
    if let Some(own) = v[i].queue {
        lemma_table(v, TreeSelModel::Queue(own), sort, t);
    }
}

// --------------------------------------------------------------------- order

/// Keys of one number compare as their numbers do.
proof fn lemma_number_keys(a: u64, b: u64)
    ensures
        before(seq![a], seq![b]) <==> a < b,
{
    if a == b {
        lemma_before_at(seq![a], seq![b], 1);
    } else {
        lemma_before_at(seq![a], seq![b], 0);
    }
}

/// The row at place `a` of the table.
pub open spec fn row_at(
    v: Items,
    sel: TreeSelModel,
    sort: (SortKey, bool),
    t: Texts,
    a: int,
) -> DownloadItemModel {
    v[visible_places(v, sel, sort, t)[a]]
}

/// A size as the table counts it: none counts as nothing.
pub open spec fn size_or_nothing(d: DownloadItemModel) -> int {
    match d.size {
        Some(s) => s as int,
        None => 0,
    }
}

/// By size the smaller row comes first, and the larger one in the other
/// direction; a row without a size counts as empty.
pub proof fn sizes_stand_in_order(v: Items, sel: TreeSelModel, asc: bool, t: Texts, a: int, b: int)
    requires
        0 <= a < b < visible_places(v, sel, (SortKey::Size, asc), t).len(),
    ensures
        ({
            let x = size_or_nothing(row_at(v, sel, (SortKey::Size, asc), t, a));
            let y = size_or_nothing(row_at(v, sel, (SortKey::Size, asc), t, b));
            if asc {
                x <= y
            } else {
                x >= y
            }
        }),
{
    let sort = (SortKey::Size, asc);
    lemma_table(v, sel, sort, t);
    let x = row_at(v, sel, sort, t, a);
    let y = row_at(v, sel, sort, t, b);
    lemma_number_keys(size_or_nothing(x) as u64, size_or_nothing(y) as u64);
    lemma_number_keys(size_or_nothing(y) as u64, size_or_nothing(x) as u64);
}

/// By time left what is done sooner comes first; a row that cannot tell comes
/// after every row that can.
pub proof fn times_left_stand_in_order(v: Items, sel: TreeSelModel, t: Texts, a: int, b: int)
    requires
        0 <= a < b < visible_places(v, sel, (SortKey::TimeLeft, true), t).len(),
    ensures
        ({
            let x = row_at(v, sel, (SortKey::TimeLeft, true), t, a).eta_secs;
            let y = row_at(v, sel, (SortKey::TimeLeft, true), t, b).eta_secs;
            &&& x is Some && y is Some ==> x->0 <= y->0
            &&& x is None ==> y is None || y->0 == u64::MAX
        }),
{
    let sort = (SortKey::TimeLeft, true);
    lemma_table(v, sel, sort, t);
    let x = row_at(v, sel, sort, t, a).eta_secs;
    let y = row_at(v, sel, sort, t, b).eta_secs;
    let m = |e: Option<u64>| match e {
        Some(s) => s,
        None => u64::MAX,
    };
    lemma_number_keys(m(y), m(x));
}

/// By rate the slower row comes first.
pub proof fn rates_stand_in_order(v: Items, sel: TreeSelModel, t: Texts, a: int, b: int)
    requires
        0 <= a < b < visible_places(v, sel, (SortKey::Rate, true), t).len(),
    ensures
        row_at(v, sel, (SortKey::Rate, true), t, a).rate_bits <= row_at(
            v,
            sel,
            (SortKey::Rate, true),
            t,
            b,
        ).rate_bits,
{
    let sort = (SortKey::Rate, true);
    lemma_table(v, sel, sort, t);
    lemma_number_keys(
        row_at(v, sel, sort, t, b).rate_bits,
        row_at(v, sel, sort, t, a).rate_bits,
    );
}

/// By the date of the last try a row that was never tried comes first, then the
/// one that was tried longest ago.
pub proof fn tries_stand_in_order(v: Items, sel: TreeSelModel, t: Texts, a: int, b: int)
    requires
        0 <= a < b < visible_places(v, sel, (SortKey::LastTry, true), t).len(),
    ensures
        ({
            let x = row_at(v, sel, (SortKey::LastTry, true), t, a).last_try;
            let y = row_at(v, sel, (SortKey::LastTry, true), t, b).last_try;
            &&& x is Some ==> y is Some
            &&& x is Some && y is Some ==> x->0 <= y->0
        }),
{
    let sort = (SortKey::LastTry, true);
    lemma_table(v, sel, sort, t);
    let x = row_at(v, sel, sort, t, a).last_try;
    let y = row_at(v, sel, sort, t, b).last_try;
    if x is Some && y is None {
        lemma_before_at(seq![0u64], seq![1u64, shifted(x->0)], 0);
    }
    if x is Some && y is Some && y->0 < x->0 {
        lemma_before_at(seq![1u64, shifted(y->0)], seq![1u64, shifted(x->0)], 1);
    }
}

/// Of two texts, `a` comes before `b` in a dictionary: at the first place where
/// they differ it has the smaller character, or it ends there.
pub open spec fn dictionary_first(a: Seq<char>, b: Seq<char>) -> bool {
    exists|k: int|
        0 <= k <= a.len() && k < b.len() && #[trigger] a.take(k) == b.take(k) && (k == a.len() || (
        a[k] as u64) < (b[k] as u64))
}

proof fn lemma_text_keys(a: Seq<char>, b: Seq<char>)
    ensures
        dictionary_first(a, b) ==> before(text_key(a), text_key(b)),
{
    if dictionary_first(a, b) {
        let k = choose|k: int|
            0 <= k <= a.len() && k < b.len() && #[trigger] a.take(k) == b.take(k) && (k == a.len()
                || (a[k] as u64) < (b[k] as u64));
        let x = text_key(a);
        let y = text_key(b);
        assert forall|i: int| 0 <= i < k implies #[trigger] x[i] == y[i] by {
            assert(a.take(k)[i] == b.take(k)[i]);
        }
        if k < a.len() {
            assert(x[k] == a[k] as u64 && y[k] == b[k] as u64);
        }
        lemma_before_at(x, y, k);
    }
}

/// By name the rows stand as in a dictionary, letter case aside.
pub proof fn names_stand_in_order(v: Items, sel: TreeSelModel, asc: bool, t: Texts, a: int, b: int)
    requires
        0 <= a < b < visible_places(v, sel, (SortKey::Name, asc), t).len(),
    ensures
        ({
            let x = unicode_lowercase(row_at(v, sel, (SortKey::Name, asc), t, a).file_name);
            let y = unicode_lowercase(row_at(v, sel, (SortKey::Name, asc), t, b).file_name);
            if asc {
                !dictionary_first(y, x)
            } else {
                !dictionary_first(x, y)
            }
        }),
{
    let sort = (SortKey::Name, asc);
    lemma_table(v, sel, sort, t);
    let x = unicode_lowercase(row_at(v, sel, sort, t, a).file_name);
    let y = unicode_lowercase(row_at(v, sel, sort, t, b).file_name);
    lemma_text_keys(x, y);
    lemma_text_keys(y, x);
}

/// By description and by status, too, the rows stand as in a dictionary.
pub proof fn words_stand_in_order(v: Items, sel: TreeSelModel, t: Texts, a: int, b: int)
    ensures
        0 <= a < b < visible_places(v, sel, (SortKey::Description, true), t).len()
            ==> !dictionary_first(
            row_at(v, sel, (SortKey::Description, true), t, b).description,
            row_at(v, sel, (SortKey::Description, true), t, a).description,
        ),
        0 <= a < b < visible_places(v, sel, (SortKey::Status, true), t).len() ==> !dictionary_first(
            row_at(v, sel, (SortKey::Status, true), t, b).status_words(t),
            row_at(v, sel, (SortKey::Status, true), t, a).status_words(t),
        ),
{
    let d = (SortKey::Description, true);
    let s = (SortKey::Status, true);
    lemma_table(v, sel, d, t);
    lemma_table(v, sel, s, t);
    lemma_text_keys(row_at(v, sel, d, t, b).description, row_at(v, sel, d, t, a).description);
    lemma_text_keys(
        row_at(v, sel, s, t, b).status_words(t),
        row_at(v, sel, s, t, a).status_words(t),
    );
}

/// By queue a row without one comes first, and rows of one queue stand in the
/// order of their places in it.
pub proof fn queue_places_stand_in_order(v: Items, sel: TreeSelModel, t: Texts, a: int, b: int)
    requires
        0 <= a < b < visible_places(v, sel, (SortKey::Queue, true), t).len(),
    ensures
        ({
            let x = row_at(v, sel, (SortKey::Queue, true), t, a);
            let y = row_at(v, sel, (SortKey::Queue, true), t, b);
            &&& x.queue is Some ==> y.queue is Some
            &&& x.queue == y.queue ==> x.q_order <= y.q_order
        }),
{
    let sort = (SortKey::Queue, true);
    lemma_table(v, sel, sort, t);
    let x = row_at(v, sel, sort, t, a);
    let y = row_at(v, sel, sort, t, b);
    let kx = row_key(x, SortKey::Queue, t);
    let ky = row_key(y, SortKey::Queue, t);
    if x.queue is Some && y.queue is None {
        lemma_before_at(ky, kx, 0);
    }
    if x.queue == y.queue && y.q_order < x.q_order {
        let n = kx.len() - 1;
        assert(kx.len() == ky.len());
        assert(kx[n] == x.q_order as u64 && ky[n] == y.q_order as u64);
        assert forall|i: int| 0 <= i < n implies #[trigger] ky[i] == kx[i] by {}
        lemma_before_at(ky, kx, n);
    }
}

/// Rows that the order cannot tell apart stay as they stand in the list, in both
/// directions.
pub proof fn equal_sizes_keep_their_places(
    v: Items,
    sel: TreeSelModel,
    asc: bool,
    t: Texts,
    a: int,
    b: int,
)
    requires
        0 <= a < b < visible_places(v, sel, (SortKey::Size, asc), t).len(),
        row_at(v, sel, (SortKey::Size, asc), t, a).size == row_at(
            v,
            sel,
            (SortKey::Size, asc),
            t,
            b,
        ).size,
    ensures
        visible_places(v, sel, (SortKey::Size, asc), t)[a] < visible_places(
            v,
            sel,
            (SortKey::Size, asc),
            t,
        )[b],
{
    let sort = (SortKey::Size, asc);
    lemma_table(v, sel, sort, t);
    let x = size_or_nothing(row_at(v, sel, sort, t, a)) as u64;
    lemma_number_keys(x, x);
}

} // verus!
