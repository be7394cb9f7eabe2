//! Windows opened and closed, folders remembered, and what the log keeps.
use crate::app::{AppModel, EnvModel};
use crate::effect::EffectModel;
use crate::laws::filing::lemma_category_index;
use crate::laws::rows::asks;
use crate::log::{logged, Level};
use crate::model::{category_index, with_category_dir, CategoryDefModel};
use crate::state::WinKind;
use vstd::prelude::*;

verus! {

/// Closing the main window stores everything. The program lives on exactly if
/// the settings ask for that and there is a tray to find it in.
pub proof fn closing_the_main_window(s: AppModel, env: EnvModel)
    ensures
        ({
            let t = s.main_closed(env);
            &&& !t.dirty.state && !t.dirty.cfg
            &&& asks(s, t, EffectModel::SaveState)
            &&& asks(s, t, EffectModel::SaveConfig)
            &&& asks(s, t, EffectModel::Exit) <==> !(s.cfg.settings.on.close_to_tray
                && env.tray_active)
            &&& t.items() == s.items()
        }),
{
    reveal(AppModel::main_closed);
    let t = s.main_closed(env);
    let n = s.out.len() as int;
    assert(t.out[n] == EffectModel::SaveState);
    assert(t.out[n + 1] == EffectModel::SaveConfig);
    if !(s.cfg.settings.on.close_to_tray && env.tray_active) {
        assert(t.out[n + 2] == EffectModel::Exit);
    }
}

/// A window that is open is not opened a second time: it comes to the front.
pub proof fn windows_open_once(s: AppModel, kind: WinKind)
    ensures
        s.is_open(kind) ==> s.open_window(kind).windows == s.windows && s.open_window(
            kind,
        ).out.len() == s.out.len() + 1 && s.open_window(kind).out.last() is FocusWindow,
        s.open_window(kind).is_open(kind),
        s.open_window(kind).open_window(kind).windows == s.open_window(kind).windows,
{
    reveal(AppModel::open_window);
    reveal(AppModel::close_file_info_windows);
}

/// The dialog that asked a question forgets it when it is closed: nothing is
/// added, stopped or deleted.
pub proof fn a_closed_question_is_a_no(s: AppModel)
    ensures
        s.confirm_closed().confirm is None,
        s.confirm_closed().pending_add is None,
        s.confirm_closed().items() == s.items(),
        s.confirm_closed().out == s.out,
{
    reveal(AppModel::confirm_closed);
}

/// A folder that is remembered is that of the one category it was chosen for.
pub proof fn a_folder_is_remembered_for_one_category(
    cats: Seq<CategoryDefModel>,
    k: int,
    dir: Seq<char>,
)
    requires
        0 <= k < cats.len(),
        forall|j: int| 0 <= j < k ==> (#[trigger] cats[j]).name != cats[k].name,
    ensures
        ({
            let v = with_category_dir(cats, cats[k].name, dir);
            &&& v.len() == cats.len()
            &&& v[k].dir == dir
            &&& v[k].name == cats[k].name
            &&& v[k].types == cats[k].types
            &&& forall|j: int| 0 <= j < cats.len() && j != k ==> #[trigger] v[j] == cats[j]
        }),
{
    lemma_category_index(cats, cats[k].name);
    let i = category_index(cats, cats[k].name);
    assert(i == k) by {
        if i < k {
            assert(cats[i].name != cats[k].name);
        }
        if k < i {
            assert(cats[k].name != cats[k].name);
        }
    }
}

/// Which of two levels is the graver one.
pub open spec fn graver(a: Level, b: Level) -> bool {
    match (a, b) {
        (_, Level::Debug) => true,
        (Level::Debug, _) => false,
        (_, Level::Info) => true,
        (Level::Info, _) => false,
        (_, Level::Warn) => true,
        (Level::Warn, _) => false,
        (Level::Error, Level::Error) => true,
    }
}

/// The log keeps what is at least as grave as its filter, and nothing less.
pub proof fn the_log_keeps_the_graver(
    filter: Level,
    level: Level,
    stamp: Seq<char>,
    line: Seq<char>,
)
    ensures
        logged(filter, level, stamp, line) is Some <==> graver(level, filter),
{
}

} // verus!
