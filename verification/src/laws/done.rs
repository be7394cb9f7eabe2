//! What happens once a queue is done.
use crate::app::queues::{to_done, Finishing};
use crate::app::AppModel;
use crate::effect::EffectModel;

use crate::laws::rows::asks;
use crate::laws::schedule::own_names;
use crate::laws::turns::a_queue_is_done_when_nothing_is_left;
use crate::model::{DlState, QueueDefModel};
use crate::queues::{all_done, lemma_queue_at_is, queue_done, Queues};
use crate::text::trimmed;
use vstd::prelude::*;

verus! {

/// A queue that is done no longer runs. What it asks for then counts only if it
/// has done something in this run: to open a file, to leave the program, to shut
/// the machine down. Other queues stay as they are.
pub proof fn a_done_queue_asks_only_after_work(f: Finishing, k: int, path: Seq<char>)
    requires
        own_names(f.app.queues()),
        0 <= k < f.app.queues().len(),
    ensures
        ({
            let q = f.app.queues()[k];
            let g = f.finish(q.name);
            &&& g.app.queues().len() == f.app.queues().len()
            &&& !g.app.queues()[k].running
            &&& !g.app.queues()[k].did_work
            &&& g.app.queues()[k].schedule == q.schedule
            &&& forall|j: int|
                0 <= j < f.app.queues().len() && j != k ==> #[trigger] g.app.queues()[j]
                    == f.app.queues()[j]
            &&& g.app.items() == f.app.items()
            &&& !q.did_work ==> g.app.out == f.app.out && g.exit == f.exit && g.power == f.power
            &&& q.did_work ==> g.exit == (f.exit || q.schedule.exit_when_done)
            &&& q.did_work && q.schedule.shutdown_when_done ==> g.power == Some(
                q.schedule.shutdown_action,
            )
            &&& q.did_work && !q.schedule.shutdown_when_done ==> g.power == f.power
            &&& asks(f.app, g.app, EffectModel::OpenPath(path)) <==> q.did_work
                && q.schedule.open_file_enabled && trimmed(q.schedule.open_file).len() > 0 && path
                == trimmed(q.schedule.open_file)
        }),
{
    reveal(Finishing::finish);
    reveal(AppModel::play);
    let q = f.app.queues()[k];
    lemma_queue_at_is(f.app.queues(), q.name, k);
    let g = f.finish(q.name);
    let s = f.app.edit_queue(q.name, to_done());
    assert(s.queues() == f.app.queues().update(k, to_done()(q)));
    let e = EffectModel::OpenPath(path);
    if q.did_work && q.schedule.open_file_enabled && trimmed(q.schedule.open_file).len() > 0 {
        assert(g.app.out[f.app.out.len() as int] == EffectModel::OpenPath(
            trimmed(q.schedule.open_file),
        ));
    }
}

/// With a power action asked for, the machine is left alone until its countdown
/// has run out, and so is the program; without one the program leaves at once
/// where that was asked for, with everything stored, and stays otherwise.
pub proof fn leaving_waits_for_the_countdown(f: Finishing)
    ensures
        f.power is None && !f.exit ==> f.settle() == f.app,
        f.power is None && f.exit ==> f.settle().out.last() == EffectModel::Exit
            && !f.settle().dirty.state && !f.settle().dirty.cfg,
        f.power is Some ==> f.settle().power is Some && !asks(f.app, f.settle(), EffectModel::Exit),
        f.power is Some && f.app.power is None ==> f.settle().power->0.action == f.power->0
            && f.settle().power->0.exit_after == f.exit,
{
    if let Some(action) = f.power {
        reveal(AppModel::arm_power_action);
        reveal(AppModel::open_window);
        reveal(AppModel::close_file_info_windows);
    }
}

proof fn lemma_none_done(s: AppModel, v: Queues)
    requires
        forall|j: int| 0 <= j < v.len() ==> !queue_done(s.items(), #[trigger] v[j]),
    ensures
        all_done(s.items(), v).len() == 0,
    decreases v.len(),
{
    if v.len() > 0 {
        let u = v.drop_last();
        assert forall|j: int| 0 <= j < u.len() implies !queue_done(s.items(), #[trigger] u[j]) by {
            assert(u[j] == v[j]);
        }
        lemma_none_done(s, u);
        assert(!queue_done(s.items(), v[v.len() - 1]));
    }
}

/// A row still keeps its queue busy: it is transferring, waiting, or held back by
/// the download limit.
pub open spec fn keeps_busy(s: AppModel, q: QueueDefModel, i: int) -> bool {
    &&& 0 <= i < s.items().len()
    &&& s.items()[i].queue == Some(q.name)
    &&& s.items()[i].state == DlState::Connecting || s.items()[i].state == DlState::Receiving
        || s.items()[i].state == DlState::Queued || s.items()[i].limit_paused
}

/// As long as each running queue has something left, none of them is done, and
/// nothing happens.
pub proof fn busy_queues_go_on(s: AppModel, busy: Seq<int>)
    requires
        busy.len() == s.queues().len(),
        forall|j: int|
            0 <= j < s.queues().len() && (#[trigger] s.queues()[j]).running ==> keeps_busy(
                s,
                s.queues()[j],
                busy[j],
            ),
    ensures
        s.finish_queues() == s,
{
    assert forall|j: int| 0 <= j < s.queues().len() implies !queue_done(
        s.items(),
        #[trigger] s.queues()[j],
    ) by {
        a_queue_is_done_when_nothing_is_left(s.items(), s.queues()[j]);
        if s.queues()[j].running {
            let d = s.items()[busy[j]];
            assert(keeps_busy(s, s.queues()[j], busy[j]));
        }
    }
    lemma_none_done(s, s.queues());
    let f = Finishing { app: s, exit: false, power: None };
    assert(f.finish_all(all_done(s.items(), s.queues())) == f);
}

} // verus!
