//! Rows and effects, as the laws speak of them.
use crate::app::update::Message;
use crate::app::{AppModel, EnvModel};
use crate::downloads::{edit, has_item, ids_where, item_at, item_of, lemma_item_at_is, Items};
use crate::edits::Change;
use crate::effect::EffectModel;
use crate::model::{DlId, DlState, DownloadItemModel};
use vstd::prelude::*;

verus! {

/// No two rows have the same number.
pub open spec fn unique(v: Items) -> bool {
    forall|i: int, j: int| 0 <= i < j < v.len() ==> (#[trigger] v[i]).id != (#[trigger] v[j]).id
}

/// Bytes of this row are on their way.
pub open spec fn on_the_wire(d: DownloadItemModel) -> bool {
    d.state == DlState::Connecting || d.state == DlState::Receiving
}

/// Between two states an effect was asked for.
pub open spec fn asks(s: AppModel, t: AppModel, e: EffectModel) -> bool {
    exists|i: int| s.out.len() <= i < t.out.len() && #[trigger] t.out[i] == e
}

/// What was asked for before still is.
pub open spec fn keeps_asking(s: AppModel, t: AppModel) -> bool {
    s.out.len() <= t.out.len() && forall|i: int| 0 <= i < s.out.len() ==> #[trigger] t.out[i] == s.out[i]
}

/// The state after a run of messages, each with what was true outside.
pub open spec fn after(s: AppModel, run: Seq<(Message, EnvModel)>) -> AppModel
    decreases run.len(),
{
    if run.len() == 0 {
        s
    } else {
        after(s, run.drop_last()).update(run.last().0, run.last().1)
    }
}

/// A row is found by its number.
pub proof fn lemma_at(v: Items, k: int)
    requires
        unique(v),
        0 <= k < v.len(),
    ensures
        item_at(v, v[k].id) == k,
        has_item(v, v[k].id),
        item_of(v, v[k].id) == Some(v[k]),
{
    lemma_item_at_is(v, v[k].id, k);
}

/// A change of one row leaves the others as they are.
pub proof fn lemma_edit(v: Items, k: int, f: Change)
    requires
        unique(v),
        0 <= k < v.len(),
        f(v[k]).id == v[k].id,
    ensures
        edit(v, v[k].id, f) == v.update(k, f(v[k])),
        unique(edit(v, v[k].id, f)),
        forall|i: int|
            0 <= i < v.len() ==> (#[trigger] edit(v, v[k].id, f)[i]) == (if i == k {
                f(v[k])
            } else {
                v[i]
            }),
{
    lemma_at(v, k);
    let w = edit(v, v[k].id, f);
    assert(w =~= v.update(k, f(v[k])));
    assert forall|i: int| 0 <= i < v.len() implies (#[trigger] w[i]).id == v[i].id by {}
}

/// A row of this number, of which the predicate holds, is in the list.
pub open spec fn stems(v: Items, p: spec_fn(DownloadItemModel) -> bool, id: DlId) -> bool {
    exists|i: int| 0 <= i < v.len() && p(#[trigger] v[i]) && v[i].id == id
}

/// The numbers of the rows of which a predicate holds are those and no others.
pub proof fn lemma_ids_where(v: Items, p: spec_fn(DownloadItemModel) -> bool)
    ensures
        forall|i: int| 0 <= i < v.len() && p(#[trigger] v[i]) ==> ids_where(v, p).contains(v[i].id),
        forall|k: int| 0 <= k < ids_where(v, p).len() ==> stems(v, p, #[trigger] ids_where(v, p)[k]),
    decreases v.len(),
{
    if v.len() > 0 {
        let t = v.drop_last();
        let r = ids_where(t, p);
        let w = ids_where(v, p);
        lemma_ids_where(t, p);
        assert forall|i: int| 0 <= i < v.len() && p(#[trigger] v[i]) implies w.contains(v[i].id) by {
            if i < t.len() {
                assert(p(t[i]));
                let m = choose|m: int| 0 <= m < r.len() && r[m] == t[i].id;
                assert(w[m] == v[i].id);
            } else {
                assert(w[r.len() as int] == v[i].id);
            }
        }
        assert forall|k: int| 0 <= k < w.len() implies stems(v, p, #[trigger] w[k]) by {
            if k < r.len() {
                assert(stems(t, p, r[k]));
                let i = choose|i: int| 0 <= i < t.len() && p(#[trigger] t[i]) && t[i].id == r[k];
                assert(v[i] == t[i]);
                assert(w[k] == r[k]);
            } else {
                assert(p(v[v.len() - 1]));
            }
        }
    }
}

/// With numbers of their own, a row's number is listed only if the predicate
/// holds of the row.
pub proof fn lemma_id_listed(v: Items, p: spec_fn(DownloadItemModel) -> bool, k: int)
    requires
        unique(v),
        0 <= k < v.len(),
    ensures
        ids_where(v, p).contains(v[k].id) <==> p(v[k]),
{
    lemma_ids_where(v, p);
    let w = ids_where(v, p);
    if w.contains(v[k].id) {
        let m = choose|m: int| 0 <= m < w.len() && w[m] == v[k].id;
        assert(stems(v, p, w[m]));
        let i = choose|i: int| 0 <= i < v.len() && p(#[trigger] v[i]) && v[i].id == w[m];
        assert(i == k) by {
            if i < k {
                assert(v[i].id != v[k].id);
            }
            if k < i {
                assert(v[k].id != v[i].id);
            }
        }
    }
}

} // verus!
