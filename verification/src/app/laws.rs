//! What holds across several steps: of starts and the download limit, of what a
//! row holds, of names, and of removal.
use crate::app::transfers::{is_active, items_without};
use crate::app::{AppModel, EnvModel};
use crate::downloads::{
    edit, has_item, item_at, item_of, lemma_item_at, lemma_item_at_is, Items,
};
use crate::edits::{to_category, to_dir, to_held, to_size, to_started, Change};
use crate::effect::EffectModel;
use crate::engine::CmdModel;
use crate::model::{DlId, DlState, DownloadItemModel};
use crate::spans::{counted, Span};
use vstd::prelude::*;

verus! {

/// A row that was changed without losing its number is found again, changed.
proof fn lemma_edited(v: Items, id: DlId, f: Change)
    requires
        has_item(v, id),
        f(item_of(v, id)->0).id == id,
    ensures
        has_item(edit(v, id, f), id),
        item_of(edit(v, id, f), id) == Some(f(item_of(v, id)->0)),
{
    lemma_item_at(v, id);
    let k = item_at(v, id);
    let w = edit(v, id, f);
    assert forall|i: int| 0 <= i < k implies (#[trigger] w[i]).id != id by {
        assert(w[i] == v[i]);
    }
    lemma_item_at_is(w, id, k);
}

/// The row found by a number has that number.
proof fn lemma_found(v: Items, id: DlId)
    requires
        has_item(v, id),
    ensures
        item_of(v, id)->0.id == id,
{
    lemma_item_at(v, id);
}

/// Over the cap nothing new goes on the wire: the engine is told nothing.
pub proof fn over_the_cap_nothing_starts(s: AppModel, id: DlId, open: bool, env: EnvModel)
    requires
        s.quota_exhausted(),
    ensures
        s.start_download(id, open, env).out == s.out,
{
    reveal(AppModel::start_download);
}

/// A row that the cap keeps from starting is marked as the limiter's, so that
/// the window which opens next picks it up.
pub proof fn a_refused_start_is_the_limiters(s: AppModel, id: DlId, open: bool, env: EnvModel)
    requires
        s.quota_exhausted(),
        has_item(s.items(), id),
        !is_active(s.items(), id),
    ensures
        item_of(s.start_download(id, open, env).items(), id) is Some,
        item_of(s.start_download(id, open, env).items(), id)->0.limit_paused,
{
    reveal(AppModel::start_download);
    lemma_found(s.items(), id);
    lemma_edited(
        s.items(),
        id,
        crate::edits::to_limited(s.tr("Download limit reached"@)),
    );
}

/// The state that a start leaves before the progress box comes up.
proof fn lemma_launched(s: AppModel, d: DownloadItemModel, env: EnvModel)
    requires
        item_of(s.items(), d.id) == Some(d),
    ensures
        item_of(s.launch(d, env).items(), d.id) is Some,
        item_of(s.launch(d, env).items(), d.id)->0.state == DlState::Connecting,
        !item_of(s.launch(d, env).items(), d.id)->0.limit_paused,
{
    let f = to_started(s.tr("Connecting..."@), env.now, d.part_file());
    lemma_edited(s.items(), d.id, f);
    let t = s.begin(d, env.now);
    if d.stream is None {
        let held = crate::app::starting::resumable(d, env.disk);
        lemma_found(t.items(), d.id);
        lemma_edited(t.items(), d.id, to_held(held, counted(held)));
    }
}

/// Whatever had parked a row, a start ends it: the row is connecting, and no
/// longer the limiter's to start a second time.
pub proof fn a_started_row_is_on_its_way(s: AppModel, id: DlId, env: EnvModel)
    requires
        !s.quota_exhausted(),
        has_item(s.items(), id),
        !is_active(s.items(), id),
    ensures
        item_of(s.start_download(id, false, env).items(), id) is Some,
        item_of(s.start_download(id, false, env).items(), id)->0.state == DlState::Connecting,
        !item_of(s.start_download(id, false, env).items(), id)->0.limit_paused,
{
    reveal(AppModel::start_download);
    lemma_found(s.items(), id);
    let t = s.drop_scan(id);
    assert(t.items() == s.items());
    lemma_launched(t, item_of(s.items(), id)->0, env);
}

/// A running transfer is not started a second time.
pub proof fn a_running_row_is_not_started_again(s: AppModel, id: DlId, open: bool, env: EnvModel)
    requires
        is_active(s.items(), id),
    ensures
        s.start_download(id, open, env).items() == s.items(),
{
    reveal(AppModel::start_download);
}

/// What a row holds is what the engine last said it holds, and the bytes are
/// counted from that: the two never drift apart.
pub proof fn held_ranges_decide_the_count(s: AppModel, id: DlId, done: u64, held: Seq<Span>)
    requires
        has_item(s.items(), id),
        held.len() > 0,
    ensures
        item_of(s.absorb(id, done, held).items(), id) is Some,
        item_of(s.absorb(id, done, held).items(), id)->0.held == held,
        item_of(s.absorb(id, done, held).items(), id)->0.downloaded == counted(held),
{
    lemma_found(s.items(), id);
    lemma_edited(s.items(), id, to_held(held, counted(held)));
}

proof fn lemma_filed(s: AppModel, id: DlId, cat: Seq<char>, dir: Option<Seq<char>>)
    requires
        has_item(s.items(), id),
    ensures
        has_item(s.file_under(id, cat, dir).items(), id),
        item_of(s.file_under(id, cat, dir).items(), id)->0.file_name == item_of(
            s.items(),
            id,
        )->0.file_name,
{
    lemma_found(s.items(), id);
    lemma_edited(s.items(), id, to_category(Some(cat)));
    let v = edit(s.items(), id, to_category(Some(cat)));
    lemma_found(v, id);
    if dir is Some {
        lemma_edited(v, id, to_dir(dir->0));
    }
}

/// A probe never takes a name that the user chose, nor one that bytes on disk
/// are kept under.
pub proof fn a_probe_leaves_a_chosen_name(
    s: AppModel,
    id: DlId,
    name: Option<Seq<char>>,
    size: Option<u64>,
)
    requires
        has_item(s.items(), id),
        !item_of(s.items(), id)->0.nameable(),
    ensures
        item_of(s.adopt_probed(id, name, size).items(), id) is Some,
        item_of(s.adopt_probed(id, name, size).items(), id)->0.file_name == item_of(
            s.items(),
            id,
        )->0.file_name,
{
    reveal(AppModel::adopt_probed);
    let d = item_of(s.items(), id)->0;
    lemma_found(s.items(), id);
    lemma_edited(s.items(), id, to_size(crate::app::adding::probed_size(d, size)));
    let t = s.take_probe(id, name, size);
    let n = item_of(t.items(), id)->0.file_name;
    if t.shows_info_of(id) {
        let u = t.fill_name(n);
        assert(u.items() == t.items());
        match u.category(n) {
            Some(cat) => {
                lemma_filed(u, id, cat, None);
                lemma_filed(u, id, cat, u.cat_dir(Some(cat)));
            },
            None => {},
        }
    }
}

/// A running transfer is stopped before its row goes: until the engine confirms
/// that, the row stays.
pub proof fn a_running_row_outlives_its_deletion(s: AppModel, id: DlId, remove_file: bool, ms: u64)
    requires
        is_active(s.items(), id),
    ensures
        s.delete_row(id, remove_file, ms).items() == s.items(),
        s.delete_row(id, remove_file, ms).out == s.out.push(EffectModel::Engine(CmdModel::Stop(id))),
        s.delete_row(id, remove_file, ms).pending_delete.contains((id, ms)),
{
    let t = s.delete_row(id, remove_file, ms);
    assert(t.pending_delete.last() == (id, ms));
}

proof fn lemma_gone(v: Items, id: DlId, i: int)
    requires
        0 <= i < items_without(v, id).len(),
    ensures
        items_without(v, id)[i].id != id,
    decreases v.len(),
{
    if v.last().id == id || i < items_without(v.drop_last(), id).len() {
        lemma_gone(v.drop_last(), id, i);
    }
}

/// A row that was removed is gone, and no longer selected or kept a progress
/// box for.
pub proof fn a_removed_row_is_gone(s: AppModel, id: DlId, remove_file: bool)
    ensures
        item_of(s.remove_item_opts(id, remove_file).items(), id) is None,
        !s.remove_item_opts(id, remove_file).prog.contains_key(id),
        !s.remove_item_opts(id, remove_file).scans.contains_key(id),
{
    reveal(AppModel::remove_item_opts);
    let w = items_without(s.items(), id);
    assert forall|i: int| 0 <= i < w.len() implies (#[trigger] w[i]).id != id by {
        lemma_gone(s.items(), id, i);
    }
    lemma_item_at_is(w, id, w.len() as int);
}

/// What was not downloaded completely leaves its staging file behind to be
/// removed; a finished file is removed only where that was asked for.
pub proof fn finished_files_are_kept_unless_asked(s: AppModel, id: DlId)
    requires
        has_item(s.items(), id),
        item_of(s.items(), id)->0.state == DlState::Complete,
    ensures
        s.removal(id, false).out == s.out,
        s.removal(id, true).out == s.out.push(
            EffectModel::RemoveFile(item_of(s.items(), id)->0.full_path()),
        ),
{
}

} // verus!
