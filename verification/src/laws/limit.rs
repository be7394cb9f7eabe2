//! The download limit: every byte that arrives is charged once, reaching the cap
//! stops everything that moves, and a new window gives it back.
use crate::app::update::Message;
use crate::app::{AppModel, EnvModel};
use crate::downloads::{ids_where, moving, release_all, released_ids, Items};
use crate::edits::{to_limited, to_progress, to_state, to_status};
use crate::effect::EffectModel;
use crate::engine::{CmdModel, Event};
use crate::laws::rows::{
    after, asks, keeps_asking, lemma_at, lemma_edit, lemma_id_listed, lemma_ids_where, on_the_wire,
    stems, unique,
};
use crate::laws::frames::{lemma_start_touches, lemma_started};
use crate::laws::steps::progress_step;
use crate::laws::transfers::{lemma_cap, used_up};
use crate::model::{DlId, DlState};
use crate::spans::counted;
use vstd::prelude::*;

verus! {

/// What a report says has arrived in all: the ranges on disk where it lists any,
/// else the plain number.
pub open spec fn arrived(ev: Event) -> u64 {
    match ev {
        Event::Progress { done, held, .. } => if held@.len() == 0 {
            done
        } else {
            counted(held@)
        },
        _ => 0,
    }
}

/// A report of bytes of the row `id`.
pub open spec fn report_of(ev: Event, id: DlId) -> bool {
    ev matches Event::Progress { id: n, .. } && n == id
}

/// Of the same rows, each with the same bytes; the settings and the counter are
/// as they were.
pub open spec fn same_bytes(s: AppModel, t: AppModel) -> bool {
    &&& t.cfg == s.cfg
    &&& t.state.dl_quota == s.state.dl_quota
    &&& t.items().len() == s.items().len()
    &&& unique(t.items())
    &&& keeps_asking(s, t)
    &&& forall|i: int|
        0 <= i < s.items().len() ==> (#[trigger] t.items()[i]).id == s.items()[i].id
            && t.items()[i].downloaded == s.items()[i].downloaded && t.items()[i].held
            == s.items()[i].held && t.items()[i].queue == s.items()[i].queue
}

/// Parking one row.
proof fn lemma_park_one(s: AppModel, k: int)
    requires
        unique(s.items()),
        0 <= k < s.items().len(),
    ensures
        ({
            let d = s.items()[k];
            let t = s.stop_download(d.id).limit_row(d.id);
            &&& same_bytes(s, t)
            &&& t.items()[k].limit_paused
            &&& t.items()[k].state == (if d.state == DlState::Queued {
                DlState::Paused
            } else {
                d.state
            })
            &&& on_the_wire(d) ==> asks(s, t, EffectModel::Engine(CmdModel::Stop(d.id)))
            &&& forall|i: int| 0 <= i < s.items().len() && i != k ==> #[trigger] t.items()[i] == s.items()[i]
        }),
{
    reveal(AppModel::stop_download);
    let d = s.items()[k];
    let t = s.stop_download(d.id);
    lemma_at(s.items(), k);
    lemma_edit(s.items(), k, to_status(s.tr("Pause"@)));
    lemma_edit(s.items(), k, to_state(DlState::Paused));
    assert(unique(t.items()) && t.items().len() == s.items().len() && t.items()[k].id == d.id);
    lemma_at(t.items(), k);
    lemma_edit(t.items(), k, to_limited(t.tr("Download limit reached"@)));
    let u = t.limit_row(d.id);
    if on_the_wire(d) {
        assert(u.out[s.out.len() as int] == EffectModel::Engine(CmdModel::Stop(d.id)));
    }
}

/// Parking a list of rows.
proof fn lemma_park_each(s: AppModel, ids: Seq<DlId>)
    requires
        unique(s.items()),
        forall|m: int|
            0 <= m < ids.len() ==> exists|i: int|
                0 <= i < s.items().len() && (#[trigger] s.items()[i]).id == #[trigger] ids[m],
    ensures
        ({
            let t = s.park_each(ids);
            &&& same_bytes(s, t)
            &&& forall|i: int|
                0 <= i < s.items().len() ==> if ids.contains(s.items()[i].id) {
                    &&& (#[trigger] t.items()[i]).limit_paused
                    &&& t.items()[i].state == (if s.items()[i].state == DlState::Queued {
                        DlState::Paused
                    } else {
                        s.items()[i].state
                    })
                    &&& on_the_wire(s.items()[i]) ==> asks(
                        s,
                        t,
                        EffectModel::Engine(CmdModel::Stop(s.items()[i].id)),
                    )
                } else {
                    t.items()[i] == s.items()[i]
                }
        }),
    decreases ids.len(),
{
    if ids.len() > 0 {
        let rest = ids.drop_last();
        assert forall|m: int| 0 <= m < rest.len() implies exists|i: int|
            0 <= i < s.items().len() && (#[trigger] s.items()[i]).id == #[trigger] rest[m] by {
            assert(rest[m] == ids[m]);
        }
        lemma_park_each(s, rest);
        let u = s.park_each(rest);
        let k = choose|k: int|
            0 <= k < s.items().len() && (#[trigger] s.items()[k]).id == ids[ids.len() - 1];
        assert(u.items()[k].id == ids.last());
        lemma_park_one(u, k);
        let t = s.park_each(ids);
        assert forall|i: int| 0 <= i < s.items().len() implies if ids.contains(s.items()[i].id) {
            &&& (#[trigger] t.items()[i]).limit_paused
            &&& t.items()[i].state == (if s.items()[i].state == DlState::Queued {
                DlState::Paused
            } else {
                s.items()[i].state
            })
            &&& on_the_wire(s.items()[i]) ==> asks(
                s,
                t,
                EffectModel::Engine(CmdModel::Stop(s.items()[i].id)),
            )
        } else {
            t.items()[i] == s.items()[i]
        } by {
            let d = s.items()[i];
            let e = EffectModel::Engine(CmdModel::Stop(d.id));
            assert(u.items()[i].id == d.id);
            if i != k {
                assert(d.id != ids.last()) by {
                    if i < k {
                        assert(s.items()[i].id != s.items()[k].id);
                    } else {
                        assert(s.items()[k].id != s.items()[i].id);
                    }
                }
                if ids.contains(d.id) {
                    let m = choose|m: int| 0 <= m < ids.len() && ids[m] == d.id;
                    assert(rest[m] == d.id);
                }
                if rest.contains(d.id) {
                    let m = choose|m: int| 0 <= m < rest.len() && rest[m] == d.id;
                    assert(ids[m] == d.id);
                }
            } else {
                assert(ids[ids.len() - 1] == d.id);
            }
            if on_the_wire(d) && ids.contains(d.id) {
                if asks(s, u, e) {
                    let m = choose|m: int| s.out.len() <= m < u.out.len() && #[trigger] u.out[m] == e;
                    assert(t.out[m] == e);
                } else {
                    let m = choose|m: int| u.out.len() <= m < t.out.len() && #[trigger] t.out[m] == e;
                    assert(t.out[m] == e);
                }
            }
        }
    }
}

/// Parking everything that moves.
pub proof fn lemma_park(s: AppModel)
    requires
        unique(s.items()),
    ensures
        ({
            let t = s.quota_park();
            &&& same_bytes(s, t)
            &&& forall|i: int|
                0 <= i < s.items().len() ==> if on_the_wire(s.items()[i]) || s.items()[i].state
                    == DlState::Queued {
                    &&& (#[trigger] t.items()[i]).limit_paused
                    &&& t.items()[i].state != DlState::Queued
                    &&& on_the_wire(s.items()[i]) ==> asks(
                        s,
                        t,
                        EffectModel::Engine(CmdModel::Stop(s.items()[i].id)),
                    )
                } else {
                    t.items()[i] == s.items()[i]
                }
        }),
{
    reveal(AppModel::quota_park);
    let ids = ids_where(s.items(), moving());
    lemma_ids_where(s.items(), moving());
    assert forall|i: int| 0 <= i < s.items().len() implies (ids.contains(
        (#[trigger] s.items()[i]).id,
    ) <==> on_the_wire(s.items()[i]) || s.items()[i].state == DlState::Queued) by {
        lemma_id_listed(s.items(), moving(), i);
    }
    if ids.len() > 0 {
        let u = s.note(s.limit_words(ids.len()));
        assert forall|m: int| 0 <= m < ids.len() implies exists|i: int|
            0 <= i < u.items().len() && (#[trigger] u.items()[i]).id == #[trigger] ids[m] by {
            assert(stems(s.items(), moving(), ids[m]));
            let i = choose|i: int|
                0 <= i < s.items().len() && moving()(#[trigger] s.items()[i]) && s.items()[i].id
                    == ids[m];
            assert(u.items()[i].id == ids[m]);
        }
        lemma_park_each(u, ids);
        let t = s.quota_park();
        let v = u.park_each(ids);
        assert(t.items() == v.items() && t.out == v.out);
        assert forall|i: int|
            0 <= i < s.items().len() && on_the_wire(#[trigger] s.items()[i]) implies asks(
            s,
            t,
            EffectModel::Engine(CmdModel::Stop(s.items()[i].id)),
        ) by {
            let e = EffectModel::Engine(CmdModel::Stop(u.items()[i].id));
            assert(ids.contains(s.items()[i].id));
            assert(v.items()[i].limit_paused);
            assert(asks(u, v, e));
            let m = choose|m: int| u.out.len() <= m < v.out.len() && #[trigger] v.out[m] == e;
            assert(t.out[m] == e);
        }
    } else {
        assert forall|i: int| 0 <= i < s.items().len() implies !on_the_wire(
            #[trigger] s.items()[i],
        ) && s.items()[i].state != DlState::Queued by {
            if ids.contains(s.items()[i].id) {
                assert(ids.len() > 0);
            }
        }
    }
}

/// What a report of bytes does before the cap is looked at.
proof fn lemma_report(s: AppModel, k: int, ev: Event, env: EnvModel)
    requires
        unique(s.items()),
        0 <= k < s.items().len(),
        report_of(ev, s.items()[k].id),
    ensures
        ({
            let d = s.items()[k];
            let t = s.update(Message::Engine(ev), env);
            let more = if arrived(ev) > d.downloaded {
                arrived(ev) - d.downloaded
            } else {
                0
            };
            let used = if s.state.dl_quota.used + more > u64::MAX {
                u64::MAX as int
            } else {
                s.state.dl_quota.used + more
            };
            &&& t.cfg == s.cfg
            &&& t.items().len() == s.items().len()
            &&& unique(t.items())
            &&& forall|i: int| 0 <= i < s.items().len() ==> (#[trigger] t.items()[i]).id == s.items()[i].id
            &&& t.items()[k].downloaded == arrived(ev)
            &&& s.cfg.settings.dl_limit_enabled ==> t.state.dl_quota.used == used
            &&& !s.cfg.settings.dl_limit_enabled ==> t.state.dl_quota == s.state.dl_quota
        }),
{
    progress_step(s, ev, env);
    let d = s.items()[k];
    let id = d.id;
    match ev {
        Event::Progress { id: _, done, rate_bits, recorded_bits, eta, conns, held } => {
            let f = to_progress(arrived(ev), rate_bits, eta, conns.deep_view(), held@, recorded_bits);
            lemma_at(s.items(), k);
            lemma_edit(s.items(), k, f);
            let a = s.edit_item(id, f);
            lemma_at(a.items(), k);
            lemma_edit(a.items(), k, to_state(DlState::Receiving));
            let b = a.receive(id);
            assert(unique(b.items()) && b.items()[k].downloaded == arrived(ev));
            let c = b.quota_account(s.fresh_bytes(id, arrived(ev)), env.now);
            lemma_park(c);
            assert(s.update(Message::Engine(ev), env) == (if c.quota_exhausted() {
                c.quota_park()
            } else {
                c
            })) by {
                reveal(AppModel::on_progress);
            }
        },
        _ => {},
    }
}

/// Over any run of reports of one row whose totals do not fall, what is charged
/// to the window is what the row has gained: the last total less what it held
/// before the first report. A report that comes twice charges nothing the second
/// time.
pub proof fn every_byte_is_charged_once(s: AppModel, k: int, run: Seq<(Message, EnvModel)>, evs: Seq<Event>)
    requires
        unique(s.items()),
        0 <= k < s.items().len(),
        s.cfg.settings.dl_limit_enabled,
        run.len() > 0,
        evs.len() == run.len(),
        forall|i: int|
            0 <= i < run.len() ==> (#[trigger] run[i]).0 == Message::Engine(evs[i]) && report_of(
                evs[i],
                s.items()[k].id,
            ),
        arrived(evs[0]) >= s.items()[k].downloaded,
        forall|i: int, j: int|
            0 <= i < j < evs.len() ==> arrived(#[trigger] evs[i]) <= arrived(#[trigger] evs[j]),
        s.state.dl_quota.used + arrived(evs.last()) - s.items()[k].downloaded <= u64::MAX,
    ensures
        after(s, run).state.dl_quota.used == s.state.dl_quota.used + arrived(evs.last())
            - s.items()[k].downloaded,
        after(s, run).items()[k].downloaded == arrived(evs.last()),
{
    lemma_run(s, k, run, evs);
}

proof fn lemma_run(s: AppModel, k: int, run: Seq<(Message, EnvModel)>, evs: Seq<Event>)
    requires
        unique(s.items()),
        0 <= k < s.items().len(),
        s.cfg.settings.dl_limit_enabled,
        evs.len() == run.len(),
        forall|i: int|
            0 <= i < run.len() ==> (#[trigger] run[i]).0 == Message::Engine(evs[i]) && report_of(
                evs[i],
                s.items()[k].id,
            ),
        evs.len() > 0 ==> arrived(evs[0]) >= s.items()[k].downloaded,
        forall|i: int, j: int|
            0 <= i < j < evs.len() ==> arrived(#[trigger] evs[i]) <= arrived(#[trigger] evs[j]),
        evs.len() > 0 ==> s.state.dl_quota.used + arrived(evs.last()) - s.items()[k].downloaded
            <= u64::MAX,
    ensures
        ({
            let t = after(s, run);
            &&& t.cfg == s.cfg
            &&& t.items().len() == s.items().len()
            &&& unique(t.items())
            &&& t.items()[k].id == s.items()[k].id
            &&& run.len() == 0 ==> t == s
            &&& run.len() > 0 ==> t.items()[k].downloaded == arrived(evs.last())
                && t.state.dl_quota.used == s.state.dl_quota.used + arrived(evs.last())
                - s.items()[k].downloaded
        }),
    decreases run.len(),
{
    if run.len() > 0 {
        let r = run.drop_last();
        let e = evs.drop_last();
        assert forall|i: int| 0 <= i < r.len() implies (#[trigger] r[i]).0 == Message::Engine(e[i])
            && report_of(e[i], s.items()[k].id) by {
            assert(run[i].0 == Message::Engine(evs[i]));
        }
        if e.len() > 0 {
            assert(arrived(evs[evs.len() - 2]) <= arrived(evs[evs.len() - 1]));
            assert(e.last() == evs[evs.len() - 2]);
        }
        lemma_run(s, k, r, e);
        let u = after(s, r);
        assert(run[run.len() - 1].0 == Message::Engine(evs[evs.len() - 1]));
        lemma_report(u, k, evs.last(), run.last().1);
    }
}

/// A report of bytes is what the row shows: how much is there, how fast it comes,
/// and how long it will take. A row that was connecting is receiving from then
/// on. With no limit set nothing else happens.
pub proof fn a_report_is_shown(s: AppModel, k: int, ev: Event, env: EnvModel)
    requires
        unique(s.items()),
        0 <= k < s.items().len(),
        report_of(ev, s.items()[k].id),
        !s.cfg.settings.dl_limit_enabled,
    ensures
        ({
            let d = s.items()[k];
            let t = s.update(Message::Engine(ev), env);
            let e = t.items()[k];
            &&& t.items().len() == s.items().len()
            &&& forall|i: int|
                0 <= i < s.items().len() && i != k ==> #[trigger] t.items()[i] == s.items()[i]
            &&& e.id == d.id
            &&& e.downloaded == arrived(ev)
            &&& e.held == ev->Progress_held@
            &&& e.rate_bits == ev->Progress_rate_bits
            &&& e.eta_secs == ev->Progress_eta
            &&& e.state == (if d.state == DlState::Connecting {
                DlState::Receiving
            } else {
                d.state
            })
            &&& t.out == s.out
            &&& t.state.dl_quota == s.state.dl_quota
        }),
{
    progress_step(s, ev, env);
    let d = s.items()[k];
    match ev {
        Event::Progress { id: _, done, rate_bits, recorded_bits, eta, conns, held } => {
            let f = to_progress(arrived(ev), rate_bits, eta, conns.deep_view(), held@, recorded_bits);
            lemma_at(s.items(), k);
            lemma_edit(s.items(), k, f);
            let a = s.edit_item(d.id, f);
            lemma_at(a.items(), k);
            lemma_edit(a.items(), k, to_state(DlState::Receiving));
            let b = a.receive(d.id);
            let c = b.quota_account(s.fresh_bytes(d.id, arrived(ev)), env.now);
            assert(c == b);
            assert(s.update(Message::Engine(ev), env) == c) by {
                reveal(AppModel::on_progress);
            }
        },
        _ => {},
    }
}

/// The window opens with the first byte that is charged to it, and does not move
/// while it is open.
pub proof fn the_first_byte_opens_the_window(s: AppModel, k: int, ev: Event, env: EnvModel)
    requires
        unique(s.items()),
        0 <= k < s.items().len(),
        report_of(ev, s.items()[k].id),
        s.cfg.settings.dl_limit_enabled,
    ensures
        ({
            let q = s.state.dl_quota;
            let w = s.update(Message::Engine(ev), env).state.dl_quota;
            &&& q.window_start != 0 ==> w.window_start == q.window_start
            &&& q.window_start == 0 && arrived(ev) > s.items()[k].downloaded ==> w.window_start
                == env.now
            &&& arrived(ev) <= s.items()[k].downloaded ==> w == q
        }),
{
    progress_step(s, ev, env);
    let d = s.items()[k];
    match ev {
        Event::Progress { id: _, done, rate_bits, recorded_bits, eta, conns, held } => {
            let f = to_progress(arrived(ev), rate_bits, eta, conns.deep_view(), held@, recorded_bits);
            lemma_at(s.items(), k);
            lemma_edit(s.items(), k, f);
            let a = s.edit_item(d.id, f);
            lemma_at(a.items(), k);
            lemma_edit(a.items(), k, to_state(DlState::Receiving));
            let b = a.receive(d.id);
            assert(unique(b.items()));
            let c = b.quota_account(s.fresh_bytes(d.id, arrived(ev)), env.now);
            lemma_park(c);
            assert(s.update(Message::Engine(ev), env) == (if c.quota_exhausted() {
                c.quota_park()
            } else {
                c
            })) by {
                reveal(AppModel::on_progress);
            }
        },
        _ => {},
    }
}

// --------------------------------------------------------------- the window

/// Reaching the cap stops everything that moves: what is transferring is sent a
/// stop, what waits is paused, and all of it is put down as the limiter's. Rows
/// at rest stay as they are.
pub proof fn at_the_cap_everything_stops(s: AppModel, env: EnvModel, i: int)
    requires
        unique(s.items()),
        used_up(s),
        s.state.dl_quota.window_start <= 0 || env.now - s.state.dl_quota.window_start
            < s.cfg.settings.dl_limit_hours * 3600,
        0 <= i < s.items().len(),
    ensures
        ({
            let d = s.items()[i];
            let t = s.quota_tick(env);
            let e = t.items()[i];
            &&& t.items().len() == s.items().len()
            &&& e.id == d.id
            &&& on_the_wire(d) ==> e.limit_paused && asks(
                s,
                t,
                EffectModel::Engine(CmdModel::Stop(d.id)),
            )
            &&& d.state == DlState::Queued ==> e.limit_paused && e.state == DlState::Paused
            &&& !on_the_wire(d) && d.state != DlState::Queued ==> e == d
            &&& t.state.dl_quota == s.state.dl_quota
        }),
{
    reveal(AppModel::quota_tick);
    let a = s.quota_store();
    assert(a.items() == s.items() && a.state == s.state && a.cfg == s.cfg);
    let b = a.quota_roll(env.now);
    assert(b == a);
    lemma_cap(s);
    lemma_park(b);
    let t = s.quota_tick(env);
    let e = EffectModel::Engine(CmdModel::Stop(s.items()[i].id));
    if on_the_wire(s.items()[i]) {
        assert(t.items()[i].limit_paused);
        assert(asks(b, t, e));
        let m = choose|m: int| b.out.len() <= m < t.out.len() && #[trigger] t.out[m] == e;
        assert(t.out[m] == e);
    }
    if s.items()[i].state == DlState::Queued {
        lemma_parked_waiting(b, i);
    }
}

/// What waited rests once it is parked.
proof fn lemma_parked_waiting(s: AppModel, i: int)
    requires
        unique(s.items()),
        0 <= i < s.items().len(),
        s.items()[i].state == DlState::Queued,
    ensures
        s.quota_park().items()[i].state == DlState::Paused,
{
    reveal(AppModel::quota_park);
    let ids = ids_where(s.items(), moving());
    lemma_ids_where(s.items(), moving());
    lemma_id_listed(s.items(), moving(), i);
    let u = s.note(s.limit_words(ids.len()));
    assert forall|m: int| 0 <= m < ids.len() implies exists|x: int|
        0 <= x < u.items().len() && (#[trigger] u.items()[x]).id == #[trigger] ids[m] by {
        assert(stems(s.items(), moving(), ids[m]));
        let x = choose|x: int|
            0 <= x < s.items().len() && moving()(#[trigger] s.items()[x]) && s.items()[x].id
                == ids[m];
        assert(u.items()[x].id == ids[m]);
    }
    lemma_park_each(u, ids);
    assert(u.park_each(ids).items()[i].limit_paused);
}

/// What the limiter gives back.
proof fn lemma_released(s: AppModel, env: EnvModel, i: int)
    requires
        unique(s.items()),
        !used_up(s),
        0 <= i < s.items().len(),
    ensures
        ({
            let d = s.items()[i];
            let t = s.quota_release(env);
            let e = t.items()[i];
            &&& t.items().len() == s.items().len()
            &&& e.id == d.id
            &&& t.state.dl_quota == s.state.dl_quota
            &&& !d.limit_paused ==> e == d
            &&& d.limit_paused && d.queue is Some ==> e.state == DlState::Queued && !e.limit_paused
            &&& d.limit_paused && d.queue is None ==> !e.limit_paused && on_the_wire(e)
        }),
{
    reveal(AppModel::quota_release);
    let v = released_ids(s.items());
    let a = s.with_items(release_all(s.items()));
    lemma_released_ids(s.items());
    assert forall|x: int, y: int| 0 <= x < y < a.items().len() implies (#[trigger] a.items()[x]).id
        != (#[trigger] a.items()[y]).id by {
        assert(a.items()[x].id == s.items()[x].id);
        assert(a.items()[y].id == s.items()[y].id);
    }
    let b = if v.len() == 0 {
        a
    } else {
        a.note(crate::notes::NoteModel::LimitLifted { count: v.len() })
    };
    assert(b.items() == a.items());
    if s.items()[i].limit_paused {
        assert(v.contains((s.items()[i].id, s.items()[i].queue is Some)));
        assert(v.len() > 0);
    }
    if v.len() > 0 {
        lemma_start_released(b, v, env, i);
        lemma_given(s.items(), i);
    }
}

/// A number is given back to nobody but the limiter's rows, and to each of them
/// once, with whether it has a queue.
proof fn lemma_given(v: Items, i: int)
    requires
        unique(v),
        0 <= i < v.len(),
    ensures
        released_ids(v).contains((v[i].id, false)) <==> v[i].limit_paused && v[i].queue is None,
        released_ids(v).contains((v[i].id, true)) <==> v[i].limit_paused && v[i].queue is Some,
{
    lemma_released_ids(v);
    let r = released_ids(v);
    assert forall|b: bool| #[trigger] r.contains((v[i].id, b)) implies v[i].limit_paused && b == (
    v[i].queue is Some) by {
        let m = choose|m: int| 0 <= m < r.len() && r[m] == (v[i].id, b);
        assert(gives(v, r[m]));
        let x = choose|x: int|
            0 <= x < v.len() && (#[trigger] v[x]).id == r[m].0 && v[x].limit_paused && r[m].1 == (
            v[x].queue is Some);
        if x < i {
            assert(v[x].id != v[i].id);
        }
        if i < x {
            assert(v[i].id != v[x].id);
        }
    }
    if v[i].limit_paused {
        assert(r.contains((v[i].id, v[i].queue is Some)));
    }
}

/// The pair stands for a row of the limiter's.
spec fn gives(v: Items, p: (DlId, bool)) -> bool {
    exists|x: int|
        0 <= x < v.len() && (#[trigger] v[x]).id == p.0 && v[x].limit_paused && p.1 == (
        v[x].queue is Some)
}

proof fn lemma_released_ids(v: Items)
    ensures
        forall|m: int| 0 <= m < released_ids(v).len() ==> gives(v, #[trigger] released_ids(v)[m]),
        forall|i: int|
            0 <= i < v.len() && (#[trigger] v[i]).limit_paused ==> released_ids(v).contains(
                (v[i].id, v[i].queue is Some),
            ),
    decreases v.len(),
{
    if v.len() > 0 {
        let u = v.drop_last();
        lemma_released_ids(u);
        let r = released_ids(u);
        let w = released_ids(v);
        assert forall|m: int| 0 <= m < w.len() implies gives(v, #[trigger] w[m]) by {
            if m < r.len() {
                assert(w[m] == r[m]);
                assert(gives(u, r[m]));
                let x = choose|x: int|
                    0 <= x < u.len() && (#[trigger] u[x]).id == r[m].0 && u[x].limit_paused
                        && r[m].1 == (u[x].queue is Some);
                assert(v[x] == u[x]);
            } else {
                assert(v[v.len() - 1].limit_paused);
            }
        }
        assert forall|i: int| 0 <= i < v.len() && (#[trigger] v[i]).limit_paused implies w.contains(
            (v[i].id, v[i].queue is Some),
        ) by {
            let p = (v[i].id, v[i].queue is Some);
            if i < u.len() {
                assert(u[i].limit_paused);
                let m = choose|m: int| 0 <= m < r.len() && r[m] == p;
                assert(w[m] == p);
            } else {
                assert(w[r.len() as int] == p);
            }
        }
    }
}

/// Of the rows given back only those without a queue are started.
proof fn lemma_start_released(s: AppModel, v: Seq<(DlId, bool)>, env: EnvModel, i: int)
    requires
        unique(s.items()),
        !used_up(s),
        0 <= i < s.items().len(),
    ensures
        ({
            let d = s.items()[i];
            let t = s.start_released(v, env);
            let e = t.items()[i];
            &&& t.items().len() == s.items().len()
            &&& unique(t.items())
            &&& t.cfg == s.cfg
            &&& t.state.dl_quota == s.state.dl_quota
            &&& e.id == d.id
            &&& !v.contains((d.id, false)) ==> e == d
            &&& v.contains((d.id, false)) ==> on_the_wire(e) && (!d.limit_paused
                ==> !e.limit_paused)
        }),
    decreases v.len(),
{
    if v.len() > 0 {
        let r = v.drop_last();
        let d = s.items()[i];
        let p = (d.id, false);
        lemma_start_released(s, r, env, i);
        let u = s.start_released(r, env);
        if v.contains(p) {
            let m = choose|m: int| 0 <= m < v.len() && v[m] == p;
            if m < r.len() {
                assert(r[m] == p);
            }
        }
        if r.contains(p) {
            let m = choose|m: int| 0 <= m < r.len() && r[m] == p;
            assert(v[m] == p);
        }
        assert(v[v.len() - 1] == v.last());
        if !v.last().1 {
            lemma_start_touches(u, v.last().0, env);
            assert(!used_up(u));
            let one = seq![v.last().0];
            assert(one[0] == v.last().0);
            if one.contains(d.id) {
                let m = choose|m: int| 0 <= m < one.len() && one[m] == d.id;
                lemma_on_its_way(u, i, env);
            }
        }
    }
}

proof fn lemma_on_its_way(s: AppModel, k: int, env: EnvModel)
    requires
        unique(s.items()),
        !used_up(s),
        0 <= k < s.items().len(),
    ensures
        ({
            let e = s.start_download(s.items()[k].id, false, env).items()[k];
            &&& on_the_wire(e)
            &&& !s.items()[k].limit_paused ==> !e.limit_paused
        }),
{
    lemma_cap(s);
    lemma_started(s, k, env);
}

/// Once the window has lasted its hours its count is back at nothing, and what
/// the limiter had parked comes back: rows of a queue wait, the others connect.
/// A row that was paused by hand stays paused.
pub proof fn a_new_window_gives_everything_back(s: AppModel, env: EnvModel, i: int)
    requires
        unique(s.items()),
        s.cfg.settings.dl_limit_mb > 0,
        s.cfg.settings.dl_limit_hours > 0,
        s.state.dl_quota.window_start > 0,
        env.now - s.state.dl_quota.window_start >= s.cfg.settings.dl_limit_hours * 3600,
        0 <= i < s.items().len(),
    ensures
        ({
            let d = s.items()[i];
            let t = s.quota_tick(env);
            let e = t.items()[i];
            &&& t.state.dl_quota.used == 0
            &&& t.state.dl_quota.window_start == 0
            &&& t.items().len() == s.items().len()
            &&& e.id == d.id
            &&& !d.limit_paused ==> e == d
            &&& d.limit_paused && d.queue is Some ==> e.state == DlState::Queued && !e.limit_paused
            &&& d.limit_paused && d.queue is None ==> on_the_wire(e) && !e.limit_paused
        }),
{
    reveal(AppModel::quota_tick);
    let a = s.quota_store();
    assert(a.items() == s.items() && a.state == s.state && a.cfg == s.cfg);
    let b = a.quota_roll(env.now);
    assert(b.state.dl_quota.used == 0 && b.items() == s.items() && b.cfg == s.cfg);
    lemma_cap(b);
    lemma_released(b, env, i);
}

/// Before its hours are over a window keeps its count, and below the cap nothing
/// that moves is touched.
pub proof fn below_the_cap_nothing_is_touched(s: AppModel, env: EnvModel, i: int)
    requires
        unique(s.items()),
        !used_up(s),
        s.state.dl_quota.window_start <= 0 || env.now - s.state.dl_quota.window_start
            < s.cfg.settings.dl_limit_hours * 3600,
        0 <= i < s.items().len(),
        !s.items()[i].limit_paused,
    ensures
        s.quota_tick(env).items()[i] == s.items()[i],
        s.quota_tick(env).state.dl_quota == s.state.dl_quota,
{
    reveal(AppModel::quota_tick);
    let a = s.quota_store();
    assert(a.items() == s.items() && a.state == s.state && a.cfg == s.cfg);
    let b = a.quota_roll(env.now);
    assert(b == a);
    lemma_cap(s);
    lemma_released(b, env, i);
}

} // verus!
