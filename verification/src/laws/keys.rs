//! What the keyboard and the toolbar do.
use crate::app::keys::{latest, resumable, running};
use crate::app::{AppModel, EnvModel, Mods};
use crate::downloads::Items;
use crate::effect::EffectModel;
use crate::engine::CmdModel;
use crate::laws::rows::{on_the_wire, unique};
use crate::model::{DlState, DownloadItemModel};
use crate::shortcuts::{action_of, combo_of, Key};
use crate::text::lower;
use vstd::prelude::*;

verus! {

/// A row that a start would do something for.
pub open spec fn at_rest(d: DownloadItemModel) -> bool {
    d.state == DlState::Paused || d.state == DlState::Error || d.state == DlState::Queued
}

proof fn lemma_latest(v: Items, p: spec_fn(DownloadItemModel) -> bool)
    ensures
        match latest(v, p) {
            Some(d) => v.contains(d) && p(d) && forall|i: int|
                0 <= i < v.len() && p(#[trigger] v[i]) ==> v[i].added <= d.added,
            None => forall|i: int| 0 <= i < v.len() ==> !p(#[trigger] v[i]),
        },
    decreases v.len(),
{
    if v.len() > 0 {
        let u = v.drop_last();
        lemma_latest(u, p);
        let d = v.last();
        assert(v[v.len() - 1] == d);
        if let Some(b) = latest(u, p) {
            let i = choose|i: int| 0 <= i < u.len() && u[i] == b;
            assert(v[i] == b);
        }
        assert forall|i: int| 0 <= i < v.len() && p(#[trigger] v[i]) implies latest(v, p) is Some
            && v[i].added <= latest(v, p)->0.added by {
            if i < u.len() {
                assert(p(u[i]));
            }
        }
    }
}

/// "Stop last" stops the transfer that was added last, and "resume last" starts
/// the row at rest that was added last: no other of its kind was added later.
pub proof fn the_last_one_is_meant(s: AppModel, i: int, env: EnvModel)
    requires
        0 <= i < s.items().len(),
    ensures
        on_the_wire(s.items()[i]) ==> exists|k: int|
            0 <= k < s.items().len() && on_the_wire(#[trigger] s.items()[k]) && s.items()[i].added
                <= s.items()[k].added && s.stop_last() == s.stop_download(s.items()[k].id),
        at_rest(s.items()[i]) ==> exists|k: int|
            0 <= k < s.items().len() && at_rest(#[trigger] s.items()[k]) && s.items()[i].added
                <= s.items()[k].added && s.resume_last(env) == s.start_download(
                s.items()[k].id,
                true,
                env,
            ),
{
    reveal(AppModel::stop_last);
    reveal(AppModel::resume_last);
    let v = s.items();
    lemma_latest(v, running());
    lemma_latest(v, resumable());
    if on_the_wire(v[i]) {
        assert(running()(v[i]));
        let d = latest(v, running())->0;
        let k = choose|k: int| 0 <= k < v.len() && v[k] == d;
        assert(on_the_wire(s.items()[k]));
    }
    if at_rest(v[i]) {
        assert(resumable()(v[i]));
        let d = latest(v, resumable())->0;
        let k = choose|k: int| 0 <= k < v.len() && v[k] == d;
        assert(at_rest(s.items()[k]));
    }
}

/// The button "stop" on one transferring row tells the engine, where no warning
/// is wanted.
pub proof fn the_stop_button_stops(s: AppModel, k: int)
    requires
        unique(s.items()),
        0 <= k < s.items().len(),
        on_the_wire(s.items()[k]),
        s.list.selected == seq![s.items()[k].id],
        !s.cfg.settings.on.warn_before_stop,
    ensures
        s.toolbar_stop().out == s.out.push(
            EffectModel::Engine(CmdModel::Stop(s.items()[k].id)),
        ),
        s.toolbar_stop().queues() == s.queues(),
{
    reveal(AppModel::toolbar_stop);
    crate::laws::transfers::stopping_without_asking(s, k, false);
}

/// Without the command key nothing is a shortcut; with it the other keys held
/// down count, and letter case does not.
pub proof fn shortcuts_need_the_command_key(key: Key, mods: Mods, other: Key)
    ensures
        !mods.command ==> combo_of(key, mods) is None,
        key is Character && mods.command ==> combo_of(key, mods) is Some,
        !(key is Character) ==> combo_of(key, mods) is None,
        key is Character && other is Character && lower(key->Character_0@) == lower(
            other->Character_0@,
        ) ==> combo_of(key, mods) == combo_of(other, mods),
{
}

/// A shortcut runs the first action that is bound to it.
pub proof fn the_first_binding_counts(v: Seq<(Seq<char>, Seq<char>)>, combo: Seq<char>, k: int)
    requires
        0 <= k < v.len(),
        v[k].1 == combo,
        forall|i: int| 0 <= i < k ==> (#[trigger] v[i]).1 != combo,
    ensures
        action_of(v, combo) == Some(v[k].0),
    decreases v.len(),
{
    if k > 0 {
        assert(v[0].1 != combo);
        let t = v.skip(1);
        assert forall|i: int| 0 <= i < k - 1 implies (#[trigger] t[i]).1 != combo by {
            assert(t[i] == v[i + 1]);
        }
        the_first_binding_counts(t, combo, k - 1);
        assert(t[k - 1] == v[k]);
    }
}

/// Opening a branch of the tree twice shuts it again, and leaves the other
/// branches alone.
pub proof fn a_branch_opens_and_shuts(s: AppModel, i: u8, j: int)
    requires
        i < 4,
        s.tree.open.len() == 4,
        0 <= j < 4,
    ensures
        s.tree_toggle(i).tree.open[j] == (if j == i {
            !s.tree.open[j]
        } else {
            s.tree.open[j]
        }),
        s.tree_toggle(i).tree_toggle(i).tree.open =~= s.tree.open,
{
    reveal(AppModel::tree_toggle);
}

} // verus!
