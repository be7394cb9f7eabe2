//! The program comes up, and what its clocks and buttons show.
use crate::app::AppModel;
use crate::effect::EffectModel;
use crate::engine::CmdModel;
use crate::laws::keys::at_rest;
use crate::laws::rows::{asks, keeps_asking, on_the_wire, unique};
use crate::laws::schedule::{own_names, switching_a_queue};
use crate::launch::dark_now;
use crate::model::ThemeMode;
use crate::queues::Queues;
use vstd::prelude::*;

verus! {

proof fn lemma_startup(v: Queues)
    ensures
        forall|m: int|
            0 <= m < AppModel::startup_queues(v).len() ==> starts_up(
                v,
                #[trigger] AppModel::startup_queues(v)[m],
            ),
        forall|j: int|
            0 <= j < v.len() && (#[trigger] v[j]).schedule.start_on_startup
                ==> AppModel::startup_queues(v).contains(v[j].name),
    decreases v.len(),
{
    if v.len() > 0 {
        let u = v.drop_last();
        lemma_startup(u);
        let r = AppModel::startup_queues(u);
        let w = AppModel::startup_queues(v);
        assert forall|m: int| 0 <= m < w.len() implies starts_up(v, #[trigger] w[m]) by {
            if m < r.len() {
                assert(w[m] == r[m]);
                assert(starts_up(u, r[m]));
                let j = choose|j: int|
                    0 <= j < u.len() && (#[trigger] u[j]).name == r[m]
                        && u[j].schedule.start_on_startup;
                assert(v[j] == u[j]);
            } else {
                assert(v[v.len() - 1].schedule.start_on_startup);
            }
        }
        assert forall|j: int| 0 <= j < v.len() && (#[trigger] v[j]).schedule.start_on_startup implies w.contains(
            v[j].name,
        ) by {
            if j < u.len() {
                assert(u[j].schedule.start_on_startup);
                let m = choose|m: int| 0 <= m < r.len() && r[m] == u[j].name;
                assert(w[m] == v[j].name);
            } else {
                assert(w[r.len() as int] == v[j].name);
            }
        }
    }
}

/// A queue of this name starts with the program.
spec fn starts_up(v: Queues, name: Seq<char>) -> bool {
    exists|j: int| 0 <= j < v.len() && (#[trigger] v[j]).name == name && v[j].schedule.start_on_startup
}

/// There is a queue of this name.
spec fn is_a_queue(v: Queues, name: Seq<char>) -> bool {
    exists|j: int| 0 <= j < v.len() && (#[trigger] v[j]).name == name
}

proof fn lemma_run_queues(s: AppModel, names: Seq<Seq<char>>, j: int)
    requires
        own_names(s.queues()),
        unique(s.items()),
        0 <= j < s.queues().len(),
        forall|m: int| 0 <= m < names.len() ==> is_a_queue(s.queues(), #[trigger] names[m]),
    ensures
        ({
            let t = s.run_queues(names);
            &&& own_names(t.queues())
            &&& unique(t.items())
            &&& t.queues().len() == s.queues().len()
            &&& forall|i: int| 0 <= i < s.queues().len() ==> (#[trigger] t.queues()[i]).name == s.queues()[i].name
            &&& names.contains(s.queues()[j].name) ==> t.queues()[j].running
            &&& !names.contains(s.queues()[j].name) ==> t.queues()[j] == s.queues()[j]
            &&& keeps_asking(s, t)
        }),
    decreases names.len(),
{
    if names.len() > 0 {
        let r = names.drop_last();
        assert forall|m: int| 0 <= m < r.len() implies is_a_queue(s.queues(), #[trigger] r[m]) by {
            assert(r[m] == names[m]);
        }
        lemma_run_queues(s, r, j);
        let u = s.run_queues(r);
        assert(is_a_queue(s.queues(), names[names.len() - 1]));
        let k = choose|k: int| 0 <= k < s.queues().len() && (#[trigger] s.queues()[k]).name == names.last();
        assert(u.queues()[k].name == names.last());
        switching_a_queue(u, k, true);
        let t = s.run_queues(names);
        let n = s.queues()[j].name;
        assert(u.queues()[j].name == n);
        if names.contains(n) {
            let m = choose|m: int| 0 <= m < names.len() && names[m] == n;
            if m < r.len() {
                assert(r[m] == n);
            }
        }
        if r.contains(n) {
            let m = choose|m: int| 0 <= m < r.len() && r[m] == n;
            assert(names[m] == n);
        }
        assert(names[names.len() - 1] == names.last());
        if j != k {
            if j < k {
                assert(s.queues()[j].name != s.queues()[k].name);
            } else {
                assert(s.queues()[k].name != s.queues()[j].name);
            }
            assert(t.queues()[j] == u.queues()[j]);
        }
        assert forall|i: int| 0 <= i < s.queues().len() implies (#[trigger] t.queues()[i]).name
            == s.queues()[i].name by {
            assert(u.queues()[i].name == s.queues()[i].name);
            if i != k {
                assert(t.queues()[i] == u.queues()[i]);
            }
        }
        assert forall|i: int| 0 <= i < s.out.len() implies #[trigger] t.out[i] == s.out[i] by {
            assert(u.out[i] == s.out[i]);
        }
    }
}

/// The queues that are marked for it, and no others, start with the program. The
/// engine learns whether to save power, and a start without a window asks for a
/// tray.
pub proof fn marked_queues_start_with_the_program(s: AppModel, minimized: bool, j: int)
    requires
        own_names(s.queues()),
        unique(s.items()),
        0 <= j < s.queues().len(),
    ensures
        ({
            let t = s.boot(minimized);
            let q = s.queues()[j];
            &&& q.schedule.start_on_startup ==> t.queues()[j].running
            &&& !q.schedule.start_on_startup ==> t.queues()[j] == q
            &&& asks(
                s,
                t,
                EffectModel::Engine(CmdModel::SetPowerSave(s.cfg.settings.on.power_save)),
            )
            &&& minimized ==> t.out.last() == EffectModel::InstallTray
        }),
{
    reveal(AppModel::boot);
    let on = s.cfg.settings.on;
    let e = EffectModel::Engine(CmdModel::SetPowerSave(on.power_save));
    let a = s.tell(CmdModel::SetPowerSave(on.power_save)).emit(EffectModel::PublishConfig);
    let names = AppModel::startup_queues(s.queues());
    lemma_startup(s.queues());
    assert forall|m: int| 0 <= m < names.len() implies is_a_queue(a.queues(), #[trigger] names[m]) by {
        assert(starts_up(s.queues(), names[m]));
        let x = choose|x: int|
            0 <= x < s.queues().len() && (#[trigger] s.queues()[x]).name == names[m]
                && s.queues()[x].schedule.start_on_startup;
        assert(a.queues()[x].name == names[m]);
    }
    lemma_run_queues(a, names, j);
    if names.contains(s.queues()[j].name) {
        let m = choose|m: int| 0 <= m < names.len() && names[m] == s.queues()[j].name;
        assert(starts_up(s.queues(), names[m]));
        let x = choose|x: int|
            0 <= x < s.queues().len() && (#[trigger] s.queues()[x]).name == names[m]
                && s.queues()[x].schedule.start_on_startup;
        if x < j {
            assert(s.queues()[x].name != s.queues()[j].name);
        }
        if j < x {
            assert(s.queues()[j].name != s.queues()[x].name);
        }
    }
    let b = a.run_queues(names);
    let t = s.boot(minimized);
    let n = s.out.len() as int;
    assert(a.out[n] == e);
    assert(b.out[n] == a.out[n]);
    assert(t.out[n] == b.out[n]);
}

/// A start without a window opens none, as long as there is a tray to find the
/// program in; any other start opens the main one.
pub proof fn a_hidden_start_opens_no_window(s: AppModel, minimized: bool, tray: bool)
    ensures
        minimized && tray ==> s.come_up(minimized, tray).windows == s.windows,
        !minimized || !tray ==> s.come_up(minimized, tray).windows.len() > 0 || s.windows.len() > 0,
        !s.cfg.settings.on.check_updates_on_startup || (minimized && tray) ==> !asks(
            s,
            s.come_up(minimized, tray),
            EffectModel::CheckUpdate { beta: s.cfg.settings.on.beta_channel },
        ),
{
    reveal(AppModel::come_up);
    reveal(AppModel::open_window);
    reveal(AppModel::close_file_info_windows);
}

/// A program that saves power ticks more slowly, glides nothing, and still counts
/// down a power action; the countdown has a clock exactly while it is up.
pub proof fn saving_power_slows_the_clocks(s: AppModel)
    ensures
        s.cfg.settings.on.power_save ==> s.clocks().tick_secs == 3 && !s.clocks().animation,
        !s.cfg.settings.on.power_save ==> s.clocks().tick_secs == 1,
        s.clocks().power <==> s.power is Some,
        s.clocks().drag_ms is Some <==> s.list.drag || s.list.resizing is Some,
{
}

/// The buttons offer what can be done: resume where a selected row rests, stop
/// where a selected row is transferring, delete where something is selected.
pub proof fn buttons_offer_what_can_be_done(s: AppModel, i: int)
    requires
        0 <= i < s.items().len(),
        s.list.selected.contains(s.items()[i].id),
    ensures
        at_rest(s.items()[i]) ==> s.tools().resume,
        on_the_wire(s.items()[i]) ==> s.tools().stop && s.tools().stop_all,
        s.tools().delete,
        s.tools().start_queue == !s.tools().stop_queue,
{
    if on_the_wire(s.items()[i]) {
        assert(s.items()[i].state.active());
    }
}

/// Nor do they offer anything else.
pub proof fn buttons_offer_nothing_else(s: AppModel)
    ensures
        (forall|i: int|
            0 <= i < s.items().len() && s.list.selected.contains((#[trigger] s.items()[i]).id)
                ==> !at_rest(s.items()[i])) ==> !s.tools().resume,
        (forall|i: int|
            0 <= i < s.items().len() && s.list.selected.contains((#[trigger] s.items()[i]).id)
                ==> !on_the_wire(s.items()[i])) ==> !s.tools().stop,
        (forall|i: int| 0 <= i < s.items().len() ==> !on_the_wire(#[trigger] s.items()[i]))
            ==> !s.tools().stop_all,
        s.list.selected.len() == 0 ==> !s.tools().delete,
        s.tools().stop_queue <==> exists|j: int|
            0 <= j < s.queues().len() && (#[trigger] s.queues()[j]).running,
{
}

/// A fixed theme does not follow the system; the system's own does.
pub proof fn a_fixed_theme_stays(system_dark: bool)
    ensures
        !dark_now(ThemeMode::Light, system_dark),
        dark_now(ThemeMode::Dark, system_dark),
        dark_now(ThemeMode::System, system_dark) == system_dark,
{
}

} // verus!
