//! What steps leave alone.
use crate::app::starting::resumable;
use crate::app::{AppModel, EnvModel};
use crate::downloads::{has_item, item_at, lemma_item_at};
use crate::edits::{to_held, to_limited, to_started};
use crate::laws::rows::{keeps_asking, lemma_at, lemma_edit, on_the_wire, unique};
use crate::model::{DlId, DownloadItemModel};
use crate::spans::counted;
use vstd::prelude::*;

verus! {

/// The same rows in the same places, of the same queues; each either as it was,
/// or one of those numbered in `ids`.
pub open spec fn only_touches(s: AppModel, t: AppModel, ids: Seq<DlId>) -> bool {
    &&& t.items().len() == s.items().len()
    &&& unique(t.items())
    &&& t.cfg == s.cfg
    &&& keeps_asking(s, t)
    &&& forall|i: int|
        0 <= i < s.items().len() ==> (#[trigger] t.items()[i]).id == s.items()[i].id
            && t.items()[i].queue == s.items()[i].queue && t.items()[i].q_order
            == s.items()[i].q_order && t.items()[i].retries == s.items()[i].retries
    &&& forall|i: int|
        0 <= i < s.items().len() && !ids.contains(s.items()[i].id) ==> #[trigger] t.items()[i]
            == s.items()[i]
}

/// A row once its transfer has been asked for.
pub open spec fn started_row(
    s: AppModel,
    d: DownloadItemModel,
    env: EnvModel,
) -> DownloadItemModel {
    let e = to_started(s.tr("Connecting..."@), env.now, d.part_file())(d);
    if d.stream is None {
        let held = resumable(d, env.disk);
        to_held(held, counted(held))(e)
    } else {
        e
    }
}

/// What a start makes of its row.
pub proof fn lemma_started(s: AppModel, k: int, env: EnvModel)
    requires
        unique(s.items()),
        0 <= k < s.items().len(),
    ensures
        ({
            let d = s.items()[k];
            let t = s.start_download(d.id, false, env);
            &&& t.items() == (if on_the_wire(d) {
                s.items()
            } else if s.quota_exhausted() {
                s.items().update(k, to_limited(s.tr("Download limit reached"@))(d))
            } else {
                s.items().update(k, started_row(s, d, env))
            })
            &&& t.cfg == s.cfg
            &&& t.state.dl_quota == s.state.dl_quota
            &&& keeps_asking(s, t)
        }),
{
    reveal(AppModel::start_download);
    let d = s.items()[k];
    lemma_at(s.items(), k);
    if s.quota_exhausted() {
        lemma_edit(s.items(), k, to_limited(s.tr("Download limit reached"@)));
    } else if !on_the_wire(d) {
        let a = s.drop_scan(d.id);
        assert(a.items() == s.items());
        lemma_edit(a.items(), k, to_started(a.tr("Connecting..."@), env.now, d.part_file()));
        let b = a.begin(d, env.now);
        if d.stream is None {
            let held = resumable(d, env.disk);
            assert(b.items()[k].id == d.id);
            lemma_edit(b.items(), k, to_held(held, counted(held)));
            assert(s.start_download(d.id, false, env).items() =~= s.items().update(
                k,
                started_row(s, d, env),
            ));
        }
    }
}

/// A start touches one row.
pub proof fn lemma_start_touches(s: AppModel, id: DlId, env: EnvModel)
    requires
        unique(s.items()),
    ensures
        only_touches(s, s.start_download(id, false, env), seq![id]),
        s.start_download(id, false, env).state.dl_quota == s.state.dl_quota,
{
    let t = s.start_download(id, false, env);
    let ids = seq![id];
    assert(ids[0] == id);
    assert(ids.contains(id));
    if has_item(s.items(), id) {
        lemma_item_at(s.items(), id);
        let k = item_at(s.items(), id);
        lemma_started(s, k, env);
        assert forall|i: int| 0 <= i < s.items().len() implies (#[trigger] t.items()[i]).id
            == s.items()[i].id && t.items()[i].queue == s.items()[i].queue && t.items()[i].q_order
            == s.items()[i].q_order && t.items()[i].retries == s.items()[i].retries && (i != k
            ==> t.items()[i] == s.items()[i]) by {}
        assert forall|i: int, j: int| 0 <= i < j < t.items().len() implies (
        #[trigger] t.items()[i]).id != (#[trigger] t.items()[j]).id by {
            assert(t.items()[i].id == s.items()[i].id);
            assert(t.items()[j].id == s.items()[j].id);
        }
        assert forall|i: int| 0 <= i < s.items().len() && !ids.contains(s.items()[i].id) implies #[trigger] t.items()[i]
            == s.items()[i] by {
            assert(i != k);
        }
    } else {
        reveal(AppModel::start_download);
    }
}

} // verus!
