//! Queues switched on and off, by hand and by their schedule.
use crate::app::queues::{to_disarmed, to_running};
use crate::app::{AppModel, EnvModel};
use crate::downloads::{ids_where, promote_all};
use crate::effect::EffectModel;
use crate::engine::CmdModel;
use crate::laws::rows::{asks, keeps_asking, lemma_id_listed, on_the_wire, unique};
use crate::model::{DlId, DlState, QueueDefModel, ScheduleModel};
use crate::queues::{busy_in, due_starts, due_stops, lemma_queue_at_is, queue_at, Queues};
use crate::sounds;
use vstd::prelude::*;

verus! {

/// No two queues have the same name.
pub open spec fn own_names(v: Queues) -> bool {
    forall|i: int, j: int| 0 <= i < j < v.len() ==> (#[trigger] v[i]).name != (#[trigger] v[j]).name
}

/// The engine was told to stop a transfer.
pub open spec fn stop_sent(s: AppModel, t: AppModel, id: DlId) -> bool {
    asks(s, t, EffectModel::Engine(CmdModel::Stop(id)))
}

/// The row would be started by its queue once that runs: it is paused or failed.
pub open spec fn idle(st: DlState) -> bool {
    st == DlState::Paused || st == DlState::Error
}

proof fn lemma_named(v: Queues, k: int)
    requires
        own_names(v),
        0 <= k < v.len(),
    ensures
        queue_at(v, v[k].name) == k,
{
    lemma_queue_at_is(v, v[k].name, k);
}

/// What a sound leaves alone.
proof fn lemma_play(s: AppModel, i: int, e: sounds::Event)
    ensures
        s.play(i, e).items() == s.items(),
        s.play(i, e).queues() == s.queues(),
        s.play(i, e).cfg == s.cfg,
        s.play(i, e).state == s.state,
        keeps_asking(s, s.play(i, e)),
        forall|id: DlId| !#[trigger] stop_sent(s, s.play(i, e), id),
{
    reveal(AppModel::play);
}

/// Switching a queue on runs it and makes its paused and failed rows wait, with
/// their tries counted anew; it stops nothing. Switching it off stops exactly its
/// transferring rows and changes no row. Other queues, and their rows, stay as
/// they are.
pub proof fn switching_a_queue(s: AppModel, k: int, run: bool)
    requires
        own_names(s.queues()),
        unique(s.items()),
        0 <= k < s.queues().len(),
    ensures
        ({
            let q = s.queues()[k];
            let t = s.set_queue_running(q.name, run);
            &&& t.queues().len() == s.queues().len()
            &&& t.queues()[k] == QueueDefModel { running: run, ..q }
            &&& forall|j: int|
                0 <= j < s.queues().len() && j != k ==> #[trigger] t.queues()[j] == s.queues()[j]
            &&& t.items().len() == s.items().len()
            &&& forall|i: int|
                0 <= i < s.items().len() ==> {
                    let d = s.items()[i];
                    let e = #[trigger] t.items()[i];
                    if run && d.queue == Some(q.name) && idle(d.state) {
                        e.state == DlState::Queued && e.retries == 0 && e.id == d.id && e.queue
                            == d.queue && e.q_order == d.q_order && e.limit_paused == d.limit_paused
                    } else {
                        e == d
                    }
                }
            &&& unique(t.items())
            &&& own_names(t.queues())
            &&& keeps_asking(s, t)
            &&& forall|i: int|
                0 <= i < s.items().len() ==> (#[trigger] stop_sent(s, t, s.items()[i].id) <==> !run
                    && s.items()[i].queue == Some(q.name) && on_the_wire(s.items()[i]))
        }),
{
    reveal(AppModel::set_queue_running);
    let q = s.queues()[k];
    let t = s.set_queue_running(q.name, run);
    lemma_named(s.queues(), k);
    let a = if run {
        s.with_items(promote_all(s.items(), q.name))
    } else {
        s
    };
    let b = a.edit_queue(q.name, to_running(run));
    let n = if run {
        2int
    } else {
        3
    };
    lemma_play(b, n, sounds::Event::at(n));
    let c = if run != s.queue_runs(q.name) {
        b.play(n, sounds::Event::at(n))
    } else {
        b
    };
    assert(c.queues() == s.queues().update(k, to_running(run)(q)));
    assert forall|i: int, j: int| 0 <= i < j < t.queues().len() implies (#[trigger] t.queues()[i]).name
        != (#[trigger] t.queues()[j]).name by {
        assert(t.queues()[i].name == s.queues()[i].name);
        assert(t.queues()[j].name == s.queues()[j].name);
    }
    assert forall|i: int, j: int| 0 <= i < j < t.items().len() implies (#[trigger] t.items()[i]).id
        != (#[trigger] t.items()[j]).id by {
        assert(t.items()[i].id == s.items()[i].id);
        assert(t.items()[j].id == s.items()[j].id);
    }
    assert(keeps_asking(s, c));
    let ids = ids_where(c.items(), busy_in(q.name));
    assert forall|i: int| 0 <= i < s.items().len() implies (#[trigger] stop_sent(
        s,
        t,
        s.items()[i].id,
    ) <==> !run && s.items()[i].queue == Some(q.name) && on_the_wire(s.items()[i])) by {
        let id = s.items()[i].id;
        let e = EffectModel::Engine(CmdModel::Stop(id));
        assert(!stop_sent(b, c, id));
        if !run {
            lemma_id_listed(s.items(), busy_in(q.name), i);
            if ids.contains(id) {
                let m = choose|m: int| 0 <= m < ids.len() && ids[m] == id;
                assert(t.out[c.out.len() + m] == e);
            }
        }
        if stop_sent(s, t, id) {
            let m = choose|m: int| s.out.len() <= m < t.out.len() && #[trigger] t.out[m] == e;
            if m < c.out.len() {
                assert(c.out[m] == e);
                assert(stop_sent(b, c, id));
            } else {
                assert(ids[m - c.out.len()] == id);
            }
        }
    }
}

/// What a list holds beside its last name.
proof fn lemma_last_name(names: Seq<Seq<char>>)
    requires
        names.len() > 0,
    ensures
        forall|n: Seq<char>| #[trigger] names.contains(n) <==> names.drop_last().contains(n) || n
            == names.last(),
{
    let r = names.drop_last();
    assert forall|n: Seq<char>| #[trigger] names.contains(n) <==> r.contains(n) || n
        == names.last() by {
        if names.contains(n) {
            let m = choose|m: int| 0 <= m < names.len() && names[m] == n;
            if m < r.len() {
                assert(r[m] == n);
            }
        }
        if r.contains(n) {
            let m = choose|m: int| 0 <= m < r.len() && r[m] == n;
            assert(names[m] == n);
        }
        assert(names[names.len() - 1] == names.last());
    }
}

/// Names switched off.
proof fn lemma_stop_queues(s: AppModel, names: Seq<Seq<char>>)
    requires
        own_names(s.queues()),
        unique(s.items()),
        forall|m: int| 0 <= m < names.len() ==> one_is(s.queues(), #[trigger] names[m]),
    ensures
        ({
            let t = s.stop_queues(names);
            &&& t.items() == s.items()
            &&& own_names(t.queues())
            &&& t.queues().len() == s.queues().len()
            &&& forall|j: int|
                0 <= j < s.queues().len() ==> #[trigger] t.queues()[j] == (QueueDefModel {
                    running: s.queues()[j].running && !names.contains(s.queues()[j].name),
                    ..s.queues()[j]
                })
            &&& keeps_asking(s, t)
            &&& forall|i: int|
                0 <= i < s.items().len() ==> (#[trigger] stop_sent(s, t, s.items()[i].id) <==> (
                s.items()[i].queue matches Some(n) && names.contains(n) && on_the_wire(s.items()[i])))
        }),
    decreases names.len(),
{
    if names.len() > 0 {
        let r = names.drop_last();
        assert forall|m: int| 0 <= m < r.len() implies one_is(s.queues(), #[trigger] r[m]) by {
            assert(r[m] == names[m]);
        }
        assert(one_is(s.queues(), names[names.len() - 1]));
        lemma_stop_queues(s, r);
        let u = s.stop_queues(r);
        let k = choose|k: int|
            0 <= k < s.queues().len() && (#[trigger] s.queues()[k]).name == names[names.len() - 1];
        assert(u.queues()[k].name == names.last());
        switching_a_queue(u, k, false);
        let t = s.stop_queues(names);
        assert(t.items() =~= s.items());
        lemma_last_name(names);
        assert forall|j: int| 0 <= j < s.queues().len() implies #[trigger] t.queues()[j] == (
        QueueDefModel {
            running: s.queues()[j].running && !names.contains(s.queues()[j].name),
            ..s.queues()[j]
        }) by {
            assert(names.contains(s.queues()[j].name) <==> r.contains(s.queues()[j].name)
                || s.queues()[j].name == names.last());
            if j != k {
                assert(s.queues()[j].name != s.queues()[k].name) by {
                    if j < k {
                        assert(s.queues()[j].name != s.queues()[k].name);
                    } else {
                        assert(s.queues()[k].name != s.queues()[j].name);
                    }
                }
                assert(t.queues()[j] == u.queues()[j]);
            }
        }
        assert forall|i: int| 0 <= i < s.items().len() implies (#[trigger] stop_sent(
            s,
            t,
            s.items()[i].id,
        ) <==> (s.items()[i].queue matches Some(n) && names.contains(n) && on_the_wire(
            s.items()[i],
        ))) by {
            lemma_sent_in_turn(s, u, t, s.items()[i].id);
            assert(u.items()[i] == s.items()[i]);
            assert(stop_sent(u, t, u.items()[i].id) <==> u.items()[i].queue == Some(u.queues()[k].name) && on_the_wire(u.items()[i]));
        }
    }
}

/// What was sent in two steps was sent in one of them.
proof fn lemma_sent_in_turn(s: AppModel, u: AppModel, t: AppModel, id: DlId)
    requires
        keeps_asking(s, u),
        keeps_asking(u, t),
    ensures
        keeps_asking(s, t),
        stop_sent(s, t, id) <==> stop_sent(s, u, id) || stop_sent(u, t, id),
{
    let e = EffectModel::Engine(CmdModel::Stop(id));
    if stop_sent(s, t, id) {
        let m = choose|m: int| s.out.len() <= m < t.out.len() && #[trigger] t.out[m] == e;
        if m < u.out.len() {
            assert(u.out[m] == e);
        }
    }
    if stop_sent(s, u, id) {
        let m = choose|m: int| s.out.len() <= m < u.out.len() && #[trigger] u.out[m] == e;
        assert(t.out[m] == e);
    }
    if stop_sent(u, t, id) {
        let m = choose|m: int| u.out.len() <= m < t.out.len() && #[trigger] t.out[m] == e;
        assert(t.out[m] == e);
    }
    assert forall|i: int| 0 <= i < s.out.len() implies #[trigger] t.out[i] == s.out[i] by {
        assert(u.out[i] == s.out[i]);
    }
}

/// A queue at its start time.
proof fn lemma_start_one(u: AppModel, k: int)
    requires
        own_names(u.queues()),
        unique(u.items()),
        0 <= k < u.queues().len(),
    ensures
        ({
            let p = u.queues()[k];
            let t = u.disarm_once(p.name).set_queue_running(p.name, true);
            &&& own_names(t.queues())
            &&& unique(t.items())
            &&& t.queues().len() == u.queues().len()
            &&& t.items().len() == u.items().len()
            &&& t.queues()[k] == (QueueDefModel {
                running: true,
                schedule: ScheduleModel {
                    start_enabled: p.schedule.start_enabled && !p.schedule.once,
                    ..p.schedule
                },
                ..p
            })
            &&& forall|j: int|
                0 <= j < u.queues().len() && j != k ==> #[trigger] t.queues()[j] == u.queues()[j]
            &&& forall|i: int|
                0 <= i < u.items().len() ==> {
                    let d = u.items()[i];
                    let e = #[trigger] t.items()[i];
                    if d.queue == Some(p.name) && idle(d.state) {
                        e.state == DlState::Queued && e.retries == 0 && e.id == d.id && e.queue
                            == d.queue && e.q_order == d.q_order && e.limit_paused == d.limit_paused
                    } else {
                        e == d
                    }
                }
            &&& keeps_asking(u, t)
            &&& forall|i: int|
                0 <= i < u.items().len() ==> !#[trigger] stop_sent(u, t, u.items()[i].id)
        }),
{
    let p = u.queues()[k];
    let v = u.disarm_once(p.name);
    lemma_named(u.queues(), k);
    assert(v.items() == u.items() && v.out == u.out);
    assert(v.queues().len() == u.queues().len());
    assert(v.queues()[k] == (if p.schedule.once {
        to_disarmed()(p)
    } else {
        p
    }));
    assert forall|j: int| 0 <= j < u.queues().len() && j != k implies #[trigger] v.queues()[j]
        == u.queues()[j] by {}
    assert forall|i: int, j: int| 0 <= i < j < v.queues().len() implies (#[trigger] v.queues()[i]).name
        != (#[trigger] v.queues()[j]).name by {
        assert(v.queues()[i].name == u.queues()[i].name);
        assert(v.queues()[j].name == u.queues()[j].name);
    }
    switching_a_queue(v, k, true);
    let t = v.set_queue_running(p.name, true);
    assert forall|i: int| 0 <= i < u.items().len() implies !#[trigger] stop_sent(
        u,
        t,
        u.items()[i].id,
    ) by {
        assert(!stop_sent(v, t, v.items()[i].id));
    }
}

/// Names switched on.
proof fn lemma_start_queues(s: AppModel, names: Seq<Seq<char>>)
    requires
        own_names(s.queues()),
        unique(s.items()),
        forall|m: int| 0 <= m < names.len() ==> one_is(s.queues(), #[trigger] names[m]),
    ensures
        ({
            let t = s.start_queues(names);
            &&& own_names(t.queues())
            &&& unique(t.items())
            &&& t.queues().len() == s.queues().len()
            &&& t.items().len() == s.items().len()
            &&& forall|j: int|
                0 <= j < s.queues().len() ==> {
                    let p = s.queues()[j];
                    let q = #[trigger] t.queues()[j];
                    if names.contains(p.name) {
                        q == (QueueDefModel {
                            running: true,
                            schedule: ScheduleModel {
                                start_enabled: p.schedule.start_enabled && !p.schedule.once,
                                ..p.schedule
                            },
                            ..p
                        })
                    } else {
                        q == p
                    }
                }
            &&& forall|i: int|
                0 <= i < s.items().len() ==> {
                    let d = s.items()[i];
                    let e = #[trigger] t.items()[i];
                    if (d.queue matches Some(n) && names.contains(n)) && idle(d.state) {
                        e.state == DlState::Queued && e.retries == 0 && e.id == d.id && e.queue
                            == d.queue && e.q_order == d.q_order && e.limit_paused == d.limit_paused
                    } else {
                        e == d
                    }
                }
            &&& keeps_asking(s, t)
            &&& forall|i: int|
                0 <= i < s.items().len() ==> !#[trigger] stop_sent(s, t, s.items()[i].id)
        }),
    decreases names.len(),
{
    if names.len() > 0 {
        let r = names.drop_last();
        let n = names.last();
        assert forall|m: int| 0 <= m < r.len() implies one_is(s.queues(), #[trigger] r[m]) by {
            assert(r[m] == names[m]);
        }
        assert(one_is(s.queues(), names[names.len() - 1]));
        lemma_start_queues(s, r);
        let u = s.start_queues(r);
        let k = choose|k: int|
            0 <= k < s.queues().len() && (#[trigger] s.queues()[k]).name == names[names.len() - 1];
        assert(u.queues()[k].name == n);
        lemma_start_one(u, k);
        let t = s.start_queues(names);
        lemma_last_name(names);
        assert forall|j: int| 0 <= j < s.queues().len() implies {
            let p = s.queues()[j];
            let q = #[trigger] t.queues()[j];
            if names.contains(p.name) {
                q == (QueueDefModel {
                    running: true,
                    schedule: ScheduleModel {
                        start_enabled: p.schedule.start_enabled && !p.schedule.once,
                        ..p.schedule
                    },
                    ..p
                })
            } else {
                q == p
            }
        } by {
            assert(u.queues()[j].name == s.queues()[j].name);
            if j != k {
                if j < k {
                    assert(s.queues()[j].name != s.queues()[k].name);
                } else {
                    assert(s.queues()[k].name != s.queues()[j].name);
                }
                assert(t.queues()[j] == u.queues()[j]);
                assert(names.contains(s.queues()[j].name) <==> r.contains(s.queues()[j].name));
            } else {
                assert(names.contains(s.queues()[k].name));
            }
        }
        assert forall|i: int| 0 <= i < s.items().len() implies {
            let d = s.items()[i];
            let e = #[trigger] t.items()[i];
            if (d.queue matches Some(n) && names.contains(n)) && idle(d.state) {
                e.state == DlState::Queued && e.retries == 0 && e.id == d.id && e.queue == d.queue
                    && e.q_order == d.q_order && e.limit_paused == d.limit_paused
            } else {
                e == d
            }
        } by {
            let d = s.items()[i];
            assert(u.items()[i].queue == d.queue);
            if let Some(m) = d.queue {
                assert(names.contains(m) <==> r.contains(m) || m == n);
            }
        }
        assert forall|i: int| 0 <= i < s.items().len() implies !#[trigger] stop_sent(
            s,
            t,
            s.items()[i].id,
        ) by {
            assert(u.items()[i].id == s.items()[i].id);
            assert(!stop_sent(s, u, s.items()[i].id));
            assert(!stop_sent(u, t, u.items()[i].id));
            lemma_sent_in_turn(s, u, t, s.items()[i].id);
        }
        lemma_sent_in_turn(s, u, t, 0);
    }
}

/// The stop time of a running queue has come.
pub open spec fn must_stop(q: QueueDefModel, hhmm: Seq<char>) -> bool {
    q.running && q.schedule.stop_enabled && q.schedule.stop_at == hhmm
}

/// The start time of a queue at rest has come, on a day that it names, or for its
/// one time.
pub open spec fn must_start(q: QueueDefModel, hhmm: Seq<char>, weekday: int) -> bool {
    &&& !q.running
    &&& q.schedule.start_enabled
    &&& q.schedule.start_at == hhmm
    &&& q.schedule.once || (0 <= weekday < q.schedule.days.len() && q.schedule.days[weekday])
}

/// A queue of this name must stop.
spec fn one_stops(v: Queues, hhmm: Seq<char>, name: Seq<char>) -> bool {
    exists|j: int| 0 <= j < v.len() && (#[trigger] v[j]).name == name && must_stop(v[j], hhmm)
}

/// A queue of this name must start.
spec fn one_starts(v: Queues, hhmm: Seq<char>, weekday: int, name: Seq<char>) -> bool {
    exists|j: int|
        0 <= j < v.len() && (#[trigger] v[j]).name == name && must_start(v[j], hhmm, weekday)
}

/// There is a queue of this name.
spec fn one_is(v: Queues, name: Seq<char>) -> bool {
    exists|j: int| 0 <= j < v.len() && (#[trigger] v[j]).name == name
}

proof fn lemma_due(v: Queues, hhmm: Seq<char>, weekday: int)
    ensures
        forall|m: int|
            0 <= m < due_stops(v, hhmm).len() ==> one_stops(
                v,
                hhmm,
                #[trigger] due_stops(v, hhmm)[m],
            ),
        forall|j: int|
            0 <= j < v.len() && must_stop(#[trigger] v[j], hhmm) ==> due_stops(v, hhmm).contains(
                v[j].name,
            ),
        forall|m: int|
            0 <= m < due_starts(v, hhmm, weekday).len() ==> one_starts(
                v,
                hhmm,
                weekday,
                #[trigger] due_starts(v, hhmm, weekday)[m],
            ),
        forall|j: int|
            0 <= j < v.len() && must_start(#[trigger] v[j], hhmm, weekday) ==> due_starts(
                v,
                hhmm,
                weekday,
            ).contains(v[j].name),
    decreases v.len(),
{
    if v.len() > 0 {
        let u = v.drop_last();
        lemma_due(u, hhmm, weekday);
        let a = due_stops(u, hhmm);
        let b = due_stops(v, hhmm);
        let c = due_starts(u, hhmm, weekday);
        let d = due_starts(v, hhmm, weekday);
        assert forall|m: int| 0 <= m < b.len() implies one_stops(v, hhmm, #[trigger] b[m]) by {
            if m < a.len() {
                assert(b[m] == a[m]);
                assert(one_stops(u, hhmm, a[m]));
                let j = choose|j: int|
                    0 <= j < u.len() && (#[trigger] u[j]).name == a[m] && must_stop(u[j], hhmm);
                assert(v[j] == u[j]);
            } else {
                assert(v[v.len() - 1].name == b[m]);
            }
        }
        assert forall|j: int| 0 <= j < v.len() && must_stop(#[trigger] v[j], hhmm) implies b.contains(
            v[j].name,
        ) by {
            if j < u.len() {
                assert(must_stop(u[j], hhmm));
                let m = choose|m: int| 0 <= m < a.len() && a[m] == u[j].name;
                assert(b[m] == v[j].name);
            } else {
                assert(b[a.len() as int] == v[j].name);
            }
        }
        assert forall|m: int| 0 <= m < d.len() implies one_starts(
            v,
            hhmm,
            weekday,
            #[trigger] d[m],
        ) by {
            if m < c.len() {
                assert(d[m] == c[m]);
                assert(one_starts(u, hhmm, weekday, c[m]));
                let j = choose|j: int|
                    0 <= j < u.len() && (#[trigger] u[j]).name == c[m] && must_start(
                        u[j],
                        hhmm,
                        weekday,
                    );
                assert(v[j] == u[j]);
            } else {
                assert(v[v.len() - 1].name == d[m]);
            }
        }
        assert forall|j: int|
            0 <= j < v.len() && must_start(#[trigger] v[j], hhmm, weekday) implies d.contains(
            v[j].name,
        ) by {
            if j < u.len() {
                assert(must_start(u[j], hhmm, weekday));
                let m = choose|m: int| 0 <= m < c.len() && c[m] == u[j].name;
                assert(d[m] == v[j].name);
            } else {
                assert(d[c.len() as int] == v[j].name);
            }
        }
    }
}

/// Which queues are due, one by one.
proof fn lemma_due_at(v: Queues, hhmm: Seq<char>, weekday: int, k: int)
    requires
        own_names(v),
        0 <= k < v.len(),
    ensures
        due_stops(v, hhmm).contains(v[k].name) <==> must_stop(v[k], hhmm),
        due_starts(v, hhmm, weekday).contains(v[k].name) <==> must_start(v[k], hhmm, weekday),
{
    lemma_due(v, hhmm, weekday);
    let b = due_stops(v, hhmm);
    let d = due_starts(v, hhmm, weekday);
    if b.contains(v[k].name) {
        let m = choose|m: int| 0 <= m < b.len() && b[m] == v[k].name;
        assert(one_stops(v, hhmm, b[m]));
        let j = choose|j: int|
            0 <= j < v.len() && (#[trigger] v[j]).name == b[m] && must_stop(v[j], hhmm);
        lemma_same_place(v, j, k);
    }
    if d.contains(v[k].name) {
        let m = choose|m: int| 0 <= m < d.len() && d[m] == v[k].name;
        assert(one_starts(v, hhmm, weekday, d[m]));
        let j = choose|j: int|
            0 <= j < v.len() && (#[trigger] v[j]).name == d[m] && must_start(v[j], hhmm, weekday);
        lemma_same_place(v, j, k);
    }
}

proof fn lemma_same_place(v: Queues, j: int, k: int)
    requires
        own_names(v),
        0 <= j < v.len(),
        0 <= k < v.len(),
        v[j].name == v[k].name,
    ensures
        j == k,
{
    if j < k {
        assert(v[j].name != v[k].name);
    }
    if k < j {
        assert(v[k].name != v[j].name);
    }
}

/// What the minute does to a row of a queue.
spec fn minute_of(s: AppModel, t: AppModel, env: EnvModel, i: int, j: int) -> bool {
    let d = s.items()[i];
    let e = t.items()[i];
    let q = s.queues()[j];
    d.queue == Some(q.name) ==> {
        &&& (stop_sent(s, t, d.id) <==> must_stop(q, env.hhmm) && on_the_wire(d))
        &&& if must_start(q, env.hhmm, env.weekday) && idle(d.state) {
            e.state == DlState::Queued && e.retries == 0 && e.id == d.id && e.queue == d.queue
                && e.q_order == d.q_order && e.limit_paused == d.limit_paused
        } else {
            e == d
        }
    }
}

/// What the minute does to a row of no queue.
spec fn minute_apart(s: AppModel, t: AppModel, i: int) -> bool {
    s.items()[i].queue is None ==> t.items()[i] == s.items()[i] && !stop_sent(
        s,
        t,
        s.items()[i].id,
    )
}

/// What the minute does to each queue and each row: the states between are
/// written out here, the laws below speak of it alone.
proof fn lemma_minute(s: AppModel, env: EnvModel)
    requires
        own_names(s.queues()),
        unique(s.items()),
    ensures
        ({
            let t = s.schedule_tick(env);
            &&& t.queues().len() == s.queues().len()
            &&& t.items().len() == s.items().len()
            &&& own_names(t.queues())
            &&& unique(t.items())
            &&& keeps_asking(s, t)
            &&& forall|j: int|
                0 <= j < s.queues().len() ==> {
                    let p = s.queues()[j];
                    let q = #[trigger] t.queues()[j];
                    if must_stop(p, env.hhmm) {
                        q == (QueueDefModel { running: false, ..p })
                    } else if must_start(p, env.hhmm, env.weekday) {
                        q == (QueueDefModel {
                            running: true,
                            schedule: ScheduleModel {
                                start_enabled: !p.schedule.once,
                                ..p.schedule
                            },
                            ..p
                        })
                    } else {
                        q == p
                    }
                }
            &&& forall|i: int, j: int|
                0 <= i < s.items().len() && 0 <= j < s.queues().len() ==> #[trigger] minute_of(
                    s,
                    t,
                    env,
                    i,
                    j,
                )
            &&& forall|i: int| 0 <= i < s.items().len() ==> #[trigger] minute_apart(s, t, i)
        }),
{
    reveal(AppModel::schedule_tick);
    let starts = due_starts(s.queues(), env.hhmm, env.weekday);
    let stops = due_stops(s.queues(), env.hhmm);
    lemma_due(s.queues(), env.hhmm, env.weekday);
    assert forall|m: int| 0 <= m < starts.len() implies one_is(s.queues(), #[trigger] starts[m]) by {
        assert(one_starts(s.queues(), env.hhmm, env.weekday, starts[m]));
    }
    lemma_start_queues(s, starts);
    let u = s.start_queues(starts);
    assert forall|m: int| 0 <= m < stops.len() implies one_is(u.queues(), #[trigger] stops[m]) by {
        assert(one_stops(s.queues(), env.hhmm, stops[m]));
        let j = choose|j: int|
            0 <= j < s.queues().len() && (#[trigger] s.queues()[j]).name == stops[m] && must_stop(
                s.queues()[j],
                env.hhmm,
            );
        assert(u.queues()[j].name == stops[m]);
    }
    lemma_stop_queues(u, stops);
    let t = s.schedule_tick(env);
    lemma_sent_in_turn(s, u, t, 0);
    assert forall|j: int| 0 <= j < s.queues().len() implies {
        let p = s.queues()[j];
        let q = #[trigger] t.queues()[j];
        if must_stop(p, env.hhmm) {
            q == (QueueDefModel { running: false, ..p })
        } else if must_start(p, env.hhmm, env.weekday) {
            q == (QueueDefModel {
                running: true,
                schedule: ScheduleModel { start_enabled: !p.schedule.once, ..p.schedule },
                ..p
            })
        } else {
            q == p
        }
    } by {
        lemma_due_at(s.queues(), env.hhmm, env.weekday, j);
        assert(u.queues()[j].name == s.queues()[j].name);
    }
    assert forall|i: int, j: int|
        0 <= i < s.items().len() && 0 <= j < s.queues().len() implies #[trigger] minute_of(
        s,
        t,
        env,
        i,
        j,
    ) by {
        lemma_due_at(s.queues(), env.hhmm, env.weekday, j);
        lemma_sent_in_turn(s, u, t, s.items()[i].id);
        assert(u.items()[i].id == s.items()[i].id && u.items()[i].queue == s.items()[i].queue);
        assert(stop_sent(u, t, u.items()[i].id) <==> (u.items()[i].queue matches Some(n)
            && stops.contains(n) && on_the_wire(u.items()[i])));
    }
    assert forall|i: int| 0 <= i < s.items().len() implies #[trigger] minute_apart(s, t, i) by {
        lemma_sent_in_turn(s, u, t, s.items()[i].id);
        if s.items()[i].queue is None {
            assert(u.items()[i] == s.items()[i]);
            assert(!stop_sent(u, t, u.items()[i].id));
        }
    }
}

/// After the schedule of a minute no queue that ran, with its stop time enabled
/// and equal to that minute, still runs, and each of its transferring rows has
/// been sent a stop. A queue that did not run is told nothing by its stop time:
/// none of its rows is sent a stop, and unless it starts it and its rows stay as
/// they were.
pub proof fn queues_stop_on_time(s: AppModel, env: EnvModel, k: int)
    requires
        own_names(s.queues()),
        unique(s.items()),
        0 <= k < s.queues().len(),
    ensures
        ({
            let q = s.queues()[k];
            let t = s.schedule_tick(env);
            &&& q.running && q.schedule.stop_enabled && q.schedule.stop_at == env.hhmm
                ==> !t.queues()[k].running && forall|i: int|
                0 <= i < s.items().len() && (#[trigger] s.items()[i]).queue == Some(q.name) && (
                s.items()[i].state == DlState::Connecting || s.items()[i].state
                    == DlState::Receiving) ==> stop_sent(s, t, s.items()[i].id)
            &&& !q.running ==> forall|i: int|
                0 <= i < s.items().len() && (#[trigger] s.items()[i]).queue == Some(q.name)
                    ==> !stop_sent(s, t, s.items()[i].id)
            &&& !q.running && !q.schedule.start_enabled ==> t.queues()[k] == q && forall|i: int|
                0 <= i < s.items().len() && (#[trigger] s.items()[i]).queue == Some(q.name)
                    ==> t.items()[i] == s.items()[i]
            &&& q.running && (!q.schedule.stop_enabled || q.schedule.stop_at != env.hhmm)
                ==> t.queues()[k] == q && forall|i: int|
                0 <= i < s.items().len() && (#[trigger] s.items()[i]).queue == Some(q.name)
                    ==> t.items()[i] == s.items()[i] && !stop_sent(s, t, s.items()[i].id)
        }),
{
    lemma_minute(s, env);
    let q = s.queues()[k];
    let t = s.schedule_tick(env);
    let w = t.queues()[k];
    assert forall|i: int| 0 <= i < s.items().len() && (#[trigger] s.items()[i]).queue == Some(
        q.name,
    ) implies {
        &&& stop_sent(s, t, s.items()[i].id) <==> must_stop(q, env.hhmm) && on_the_wire(
            s.items()[i],
        )
        &&& !must_start(q, env.hhmm, env.weekday) ==> t.items()[i] == s.items()[i]
    } by {
        assert(minute_of(s, t, env, i, k));
    }
}

/// A queue at rest runs after the schedule of a minute exactly if its start time
/// is enabled and equal to that minute, and it is a once-only start or the day is
/// one of its own. Its paused and failed rows then wait their turn, and a
/// once-only start will not come again.
pub proof fn queues_start_on_time(s: AppModel, env: EnvModel, k: int)
    requires
        own_names(s.queues()),
        unique(s.items()),
        0 <= k < s.queues().len(),
        !s.queues()[k].running,
    ensures
        ({
            let q = s.queues()[k];
            let t = s.schedule_tick(env);
            &&& t.queues()[k].running <==> q.schedule.start_enabled && q.schedule.start_at
                == env.hhmm && (q.schedule.once || (0 <= env.weekday < q.schedule.days.len()
                && q.schedule.days[env.weekday]))
            &&& t.queues()[k].running ==> forall|i: int|
                0 <= i < s.items().len() && (#[trigger] s.items()[i]).queue == Some(q.name) && (
                s.items()[i].state == DlState::Paused || s.items()[i].state == DlState::Error)
                    ==> t.items()[i].state == DlState::Queued && t.items()[i].retries == 0
            &&& t.queues()[k].running ==> t.queues()[k].schedule.start_enabled
                == !q.schedule.once
            &&& !t.queues()[k].running ==> t.queues()[k] == q
        }),
{
    lemma_minute(s, env);
    let q = s.queues()[k];
    let t = s.schedule_tick(env);
    let w = t.queues()[k];
    assert forall|i: int| 0 <= i < s.items().len() && (#[trigger] s.items()[i]).queue == Some(
        q.name,
    ) && (s.items()[i].state == DlState::Paused || s.items()[i].state == DlState::Error)
        && w.running implies t.items()[i].state == DlState::Queued && t.items()[i].retries == 0 by {
        assert(minute_of(s, t, env, i, k));
    }
}

/// A row of no queue is none of the schedule's business.
pub proof fn the_schedule_leaves_other_rows_alone(s: AppModel, env: EnvModel, i: int)
    requires
        own_names(s.queues()),
        unique(s.items()),
        0 <= i < s.items().len(),
        s.items()[i].queue is None,
    ensures
        s.schedule_tick(env).items()[i] == s.items()[i],
        !stop_sent(s, s.schedule_tick(env), s.items()[i].id),
{
    lemma_minute(s, env);
    assert(minute_apart(s, s.schedule_tick(env), i));
}

} // verus!
