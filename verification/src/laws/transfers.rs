//! Rows started, stopped and removed.
use crate::app::starting::{mismatched, resumable};
use crate::app::transfers::{exception_for, ids_without, items_without};
use crate::app::{AppModel, EnvModel};
use crate::downloads::Items;
use crate::edits::{to_state, to_status};
use crate::effect::EffectModel;
use crate::engine::{url_parts, CmdModel};
use crate::laws::frames::lemma_started;
use crate::laws::rows::{asks, keeps_asking, lemma_at, lemma_edit, on_the_wire, unique};
use crate::model::{DlId, DlState};
use crate::names::path_in;
use crate::notes::NoteModel;
use crate::spans::counted;
use crate::text::{begins, ends};
use vstd::prelude::*;

verus! {

/// The window's bytes are used up.
pub open spec fn used_up(s: AppModel) -> bool {
    &&& s.cfg.settings.dl_limit_enabled
    &&& s.state.dl_quota.used >= s.cfg.settings.dl_limit_mb * 1048576 || s.state.dl_quota.used
        == u64::MAX
}

/// A folder and a name that are put together with one slash between them.
pub open spec fn plain_place(dir: Seq<char>, name: Seq<char>) -> bool {
    dir.len() > 0 && dir.last() != '/' && name.len() > 0 && name[0] != '/'
}

proof fn lemma_plain_place(dir: Seq<char>, name: Seq<char>)
    requires
        plain_place(dir, name),
    ensures
        path_in(dir, name) == dir + seq!['/'] + name,
{
    reveal_strlit("/");
    assert("/"@ =~= seq!['/']);
    if begins(name, "/"@) {
        assert(name.subrange(0, 1)[0] == '/');
    }
    if ends(dir, "/"@) {
        assert(dir.subrange(dir.len() - 1, dir.len() as int)[0] == '/');
    }
}

/// A row at rest that is started connects, and the engine is told of it once:
/// its address, where to write, what is already there, and on what terms. Its own
/// speed limit goes before the general one, which counts only while the limiter
/// is on; its own login goes before a saved one. Nothing that the staging file
/// cannot hold is taken for downloaded. No other row changes.
pub proof fn a_start_tells_the_engine(s: AppModel, k: int, env: EnvModel)
    requires
        unique(s.items()),
        0 <= k < s.items().len(),
        !on_the_wire(s.items()[k]),
        s.items()[k].stream is None,
        !used_up(s),
    ensures
        ({
            let d = s.items()[k];
            let t = s.start_download(d.id, false, env);
            let e = t.items()[k];
            &&& keeps_asking(s, t)
            &&& t.items().len() == s.items().len()
            &&& forall|i: int|
                0 <= i < s.items().len() && i != k ==> #[trigger] t.items()[i] == s.items()[i]
            &&& e.state == DlState::Connecting
            &&& e.id == d.id
            &&& !e.limit_paused
            &&& e.last_try == Some(env.now)
            &&& t.out.last() matches EffectModel::Engine(CmdModel::Start(sp)) && {
                &&& sp.id == d.id
                &&& sp.url == d.url
                &&& sp.cookies == d.cookies
                &&& sp.referer == d.referer
                &&& sp.expected_size == d.size
                &&& sp.user_agent == s.cfg.settings.user_agent
                &&& sp.adaptive == s.cfg.settings.on.adaptive_conns
                &&& sp.remote_time == s.cfg.settings.on.server_file_date
                &&& 1 <= sp.conns <= 32
                &&& d.auth is Some ==> sp.auth == d.auth
                &&& d.speed_limit is Some ==> sp.limit == d.speed_limit
                &&& d.speed_limit is None && s.cfg.settings.speed_limiter_on ==> sp.limit
                    == s.cfg.settings.global_speed_limit
                &&& d.speed_limit is None && !s.cfg.settings.speed_limiter_on ==> sp.limit is None
                &&& d.metalink is None ==> sp.mirrors.len() == 0 && sp.attested_size is None
                    && sp.attested_digest is None && sp.pieces is None
                &&& d.metalink matches Some(m) ==> sp.mirrors == m.mirrors && sp.attested_size
                    == m.size && sp.attested_digest == m.digest && sp.pieces == m.pieces
                &&& plain_place(d.save_dir, d.file_name) ==> sp.final_path == d.save_dir
                    + seq!['/'] + d.file_name
                &&& d.part_path matches Some(p) ==> sp.temp_path == p
                &&& d.part_path is None ==> sp.temp_path == sp.final_path + ".part"@
                &&& e.part_path == Some(sp.temp_path)
                &&& e.held == sp.held
                &&& e.downloaded == counted(sp.held)
                &&& !env.disk.entries.contains_key(sp.temp_path) ==> sp.held.len() == 0
                &&& env.disk.entries.contains_key(sp.temp_path) && (
                env.disk.entries[sp.temp_path].len == 0 || (d.size matches Some(n)
                    && env.disk.entries[sp.temp_path].len != n)) ==> sp.held.len() == 0
            }
        }),
{
    reveal(AppModel::start_download);
    reveal(AppModel::conns_for);
    let d = s.items()[k];
    lemma_cap(s);
    lemma_started(s, k, env);
    lemma_at(s.items(), k);
    let a = s.drop_scan(d.id);
    let b = a.begin(d, env.now);
    let held = resumable(d, env.disk);
    if plain_place(d.save_dir, d.file_name) {
        lemma_plain_place(d.save_dir, d.file_name);
    }
    let c = if mismatched(d, env.disk) {
        b.note(NoteModel::StagingMismatch { id: d.id })
    } else {
        b
    };
    let t = s.start_download(d.id, false, env);
    assert(t.out == c.out.push(EffectModel::Engine(CmdModel::Start(a.start_spec(d, held)))));
}

/// The cap is a number of MiB.
pub proof fn lemma_cap(s: AppModel)
    ensures
        s.quota_exhausted() <==> used_up(s),
{
}

/// Over the cap nothing starts: the engine is told nothing, and a row at rest is
/// put down as the limiter's to start again.
pub proof fn over_the_cap_a_start_waits(s: AppModel, k: int, open: bool, env: EnvModel)
    requires
        unique(s.items()),
        0 <= k < s.items().len(),
        !on_the_wire(s.items()[k]),
        used_up(s),
    ensures
        ({
            let t = s.start_download(s.items()[k].id, open, env);
            &&& t.out == s.out
            &&& t.items()[k].limit_paused
            &&& t.items()[k].state == s.items()[k].state
            &&& forall|i: int|
                0 <= i < s.items().len() && i != k ==> #[trigger] t.items()[i] == s.items()[i]
        }),
{
    reveal(AppModel::start_download);
    lemma_cap(s);
    lemma_at(s.items(), k);
    lemma_edit(s.items(), k, crate::edits::to_limited(s.tr("Download limit reached"@)));
}

/// The number of connections is that of the first exception whose site ends the
/// host, else the general one, and always between one and thirty-two.
pub proof fn connections_go_by_the_first_exception(s: AppModel, url: Seq<char>, k: int)
    requires
        url_parts(url) is Ok,
        0 <= k < s.cfg.settings.conn_exceptions.len(),
        ({
            let list = s.cfg.settings.conn_exceptions;
            let host = url_parts(url)->Ok_0.host;
            &&& forall|i: int| 0 <= i < list.len() ==> !begins((#[trigger] list[i]).0, "*."@)
            &&& forall|i: int| 0 <= i < list.len() ==> (#[trigger] list[i]).0.len() > 0
            &&& forall|i: int| 0 <= i < k ==> !ends(host, (#[trigger] list[i]).0)
        }),
    ensures
        ({
            let list = s.cfg.settings.conn_exceptions;
            let host = url_parts(url)->Ok_0.host;
            let n = s.conns_for(url);
            &&& 1 <= n <= 32
            &&& ends(host, list[k].0) && 1 <= list[k].1 <= 32 ==> n == list[k].1
            &&& ends(host, list[k].0) && list[k].1 > 32 ==> n == 32
            &&& !ends(host, list[k].0) && k == list.len() - 1 && 1
                <= s.cfg.settings.default_conns <= 32 ==> n == s.cfg.settings.default_conns
        }),
{
    reveal(AppModel::conns_for);
    let list = s.cfg.settings.conn_exceptions;
    let host = url_parts(url)->Ok_0.host;
    lemma_exception(list, host, k);
}

proof fn lemma_exception(list: Seq<(Seq<char>, usize)>, host: Seq<char>, k: int)
    requires
        0 <= k < list.len(),
        forall|i: int| 0 <= i < list.len() ==> !begins((#[trigger] list[i]).0, "*."@),
        forall|i: int| 0 <= i < list.len() ==> (#[trigger] list[i]).0.len() > 0,
        forall|i: int| 0 <= i < k ==> !ends(host, (#[trigger] list[i]).0),
    ensures
        ends(host, list[k].0) ==> exception_for(list, host) == k,
        !ends(host, list[k].0) && k == list.len() - 1 ==> exception_for(list, host) == list.len(),
    decreases list.len(),
{
    reveal_strlit("*.");
    let t = list.drop_first();
    assert(!begins(list[0].0, "*."@));
    if k > 0 {
        assert(!ends(host, list[0].0));
        assert forall|i: int| 0 <= i < t.len() implies !begins((#[trigger] t[i]).0, "*."@)
            && t[i].0.len() > 0 by {
            assert(t[i] == list[i + 1]);
        }
        assert forall|i: int| 0 <= i < k - 1 implies !ends(host, (#[trigger] t[i]).0) by {
            assert(t[i] == list[i + 1]);
        }
        lemma_exception(t, host, k - 1);
        assert(t[k - 1] == list[k]);
    } else if !ends(host, list[0].0) && list.len() == 1 {
        assert(exception_for(t, host) == 0);
    }
}

/// Stopping a transferring row tells the engine, and the row stays as far as it
/// is until the engine answers. Stopping a waiting one pauses it and tells nobody.
/// Stopping any other does nothing. No other row changes.
pub proof fn stopping_a_row(s: AppModel, k: int)
    requires
        unique(s.items()),
        0 <= k < s.items().len(),
    ensures
        ({
            let d = s.items()[k];
            let t = s.stop_download(d.id);
            let stop = EffectModel::Engine(CmdModel::Stop(d.id));
            &&& t.items().len() == s.items().len()
            &&& forall|i: int|
                0 <= i < s.items().len() && i != k ==> #[trigger] t.items()[i] == s.items()[i]
            &&& d.state == DlState::Connecting || d.state == DlState::Receiving ==> t.out
                == s.out.push(stop) && t.items()[k].state == d.state && t.items()[k].downloaded
                == d.downloaded && t.items()[k].held == d.held
            &&& d.state == DlState::Queued ==> t.out == s.out && t.items()[k].state
                == DlState::Paused && t.items()[k].downloaded == d.downloaded && t.items()[k].held
                == d.held
            &&& d.state == DlState::Paused || d.state == DlState::Complete || d.state
                == DlState::Error ==> t == s
        }),
{
    reveal(AppModel::stop_download);
    lemma_at(s.items(), k);
    lemma_edit(s.items(), k, to_status(s.tr("Pause"@)));
    lemma_edit(s.items(), k, to_state(DlState::Paused));
}

/// Where the settings ask for a warning, transfers are not stopped before the
/// user agrees: the question goes up, and nothing is stopped or changed.
pub proof fn stopping_asks_where_it_should(s: AppModel, ids: Seq<DlId>, queues: bool, k: int, m: int)
    requires
        unique(s.items()),
        s.cfg.settings.on.warn_before_stop,
        0 <= k < s.items().len(),
        on_the_wire(s.items()[k]),
        0 <= m < ids.len(),
        ids[m] == s.items()[k].id,
    ensures
        ({
            let t = s.stop_ids_confirming(ids, queues);
            &&& t.items() == s.items()
            &&& t.queues() == s.queues()
            &&& t.confirm is Some
            &&& forall|id: DlId| !#[trigger] asks(s, t, EffectModel::Engine(CmdModel::Stop(id)))
        }),
{
    reveal(AppModel::stop_ids_confirming);
    reveal(AppModel::open_window);
    lemma_at(s.items(), k);
    assert(crate::app::transfers::is_active(s.items(), ids[m]));
}

/// Without a warning to give, a transfer that is stopped is told so, and "stop
/// all" leaves no queue running.
pub proof fn stopping_without_asking(s: AppModel, k: int, queues: bool)
    requires
        unique(s.items()),
        !s.cfg.settings.on.warn_before_stop,
        0 <= k < s.items().len(),
    ensures
        ({
            let t = s.stop_ids_confirming(seq![s.items()[k].id], queues);
            &&& on_the_wire(s.items()[k]) ==> t.out == s.out.push(
                EffectModel::Engine(CmdModel::Stop(s.items()[k].id)),
            )
            &&& s.items()[k].state == DlState::Queued ==> t.items()[k].state == DlState::Paused
            &&& t.queues().len() == s.queues().len()
            &&& queues ==> forall|j: int| 0 <= j < t.queues().len() ==> !(#[trigger] t.queues()[j]).running
            &&& !queues ==> t.queues() == s.queues()
        }),
{
    reveal(AppModel::stop_ids_confirming);
    let ids = seq![s.items()[k].id];
    stopping_a_row(s, k);
    assert(ids.drop_last() =~= seq![]);
    assert(s.stop_each(ids.drop_last()) == s);
    assert(s.stop_each(ids) == s.stop_download(s.items()[k].id));
    reveal(AppModel::stop_download);
}

/// What a removal leaves of the list.
proof fn lemma_without(v: Items, k: int)
    requires
        unique(v),
        0 <= k < v.len(),
    ensures
        items_without(v, v[k].id) == v.remove(k),
    decreases v.len(),
{
    let u = v.drop_last();
    let id = v[k].id;
    if k == v.len() - 1 {
        lemma_none_without(u, id);
        assert(v.remove(k) =~= u);
    } else {
        assert(u[k] == v[k]);
        lemma_without(u, k);
        assert(v[k].id != v[v.len() - 1].id);
        assert(v.remove(k) =~= u.remove(k).push(v.last()));
    }
}

proof fn lemma_none_without(v: Items, id: DlId)
    requires
        forall|i: int| 0 <= i < v.len() ==> (#[trigger] v[i]).id != id,
    ensures
        items_without(v, id) == v,
    decreases v.len(),
{
    if v.len() > 0 {
        lemma_none_without(v.drop_last(), id);
        assert(v[v.len() - 1].id != id);
        assert(v.drop_last().push(v.last()) =~= v);
    }
}

proof fn lemma_ids_without(v: Seq<DlId>, id: DlId)
    ensures
        forall|x: DlId| #[trigger] ids_without(v, id).contains(x) <==> v.contains(x) && x != id,
    decreases v.len(),
{
    if v.len() > 0 {
        let u = v.drop_last();
        lemma_ids_without(u, id);
        let w = ids_without(v, id);
        let r = ids_without(u, id);
        assert forall|x: DlId| #[trigger] w.contains(x) <==> v.contains(x) && x != id by {
            if v.contains(x) {
                let i = choose|i: int| 0 <= i < v.len() && v[i] == x;
                if i < u.len() {
                    assert(u[i] == x);
                }
            }
            if u.contains(x) {
                let i = choose|i: int| 0 <= i < u.len() && u[i] == x;
                assert(v[i] == x);
            }
            assert(v[v.len() - 1] == v.last());
            if v.last() != id {
                assert(w == r.push(v.last()));
                if w.contains(x) {
                    let i = choose|i: int| 0 <= i < w.len() && w[i] == x;
                    if i < r.len() {
                        assert(r[i] == x);
                    }
                }
                if r.contains(x) {
                    let i = choose|i: int| 0 <= i < r.len() && r[i] == x;
                    assert(w[i] == x);
                }
                assert(w[r.len() as int] == v.last());
            }
        }
    }
}

/// Removing a row takes it, and no other, off the list, and out of the selection.
/// Of an unfinished download the staging file goes; a finished file goes only
/// where that was asked for; no other file is touched.
pub proof fn removing_a_row(s: AppModel, k: int, remove_file: bool, path: Seq<char>)
    requires
        unique(s.items()),
        0 <= k < s.items().len(),
    ensures
        ({
            let d = s.items()[k];
            let t = s.remove_item_opts(d.id, remove_file);
            &&& t.items() == s.items().remove(k)
            &&& forall|x: DlId| #[trigger]
                t.list.selected.contains(x) <==> s.list.selected.contains(x) && x != d.id
            &&& keeps_asking(s, t)
            &&& asks(s, t, EffectModel::RemoveFile(path)) <==> if d.state == DlState::Complete {
                remove_file && path == d.full_path()
            } else {
                path == d.part_file()
            }
        }),
{
    reveal(AppModel::remove_item_opts);
    let d = s.items()[k];
    let t = s.remove_item_opts(d.id, remove_file);
    lemma_at(s.items(), k);
    lemma_without(s.items(), k);
    lemma_ids_without(s.list.selected, d.id);
    let e = EffectModel::RemoveFile(path);
    if d.state != DlState::Complete {
        assert(t.out[s.out.len() as int] == EffectModel::RemoveFile(d.part_file()));
    } else if remove_file {
        assert(t.out[s.out.len() as int] == EffectModel::RemoveFile(d.full_path()));
    }
    if asks(s, t, e) {
        let m = choose|m: int| s.out.len() <= m < t.out.len() && #[trigger] t.out[m] == e;
        assert(m == s.out.len());
    }
}

/// Deleting a transferring row stops it first: it stays, no file is touched, and
/// the deletion is remembered. Any other row goes at once.
pub proof fn deleting_a_row(s: AppModel, k: int, remove_file: bool, ms: u64)
    requires
        unique(s.items()),
        0 <= k < s.items().len(),
    ensures
        ({
            let d = s.items()[k];
            let t = s.delete_row(d.id, remove_file, ms);
            if d.state == DlState::Connecting || d.state == DlState::Receiving {
                &&& t.items() == s.items()
                &&& t.out == s.out.push(EffectModel::Engine(CmdModel::Stop(d.id)))
                &&& t.pending_delete == s.pending_delete.push((d.id, ms))
            } else {
                &&& t.items() == s.items().remove(k)
                &&& t.pending_delete == s.pending_delete
            }
        }),
{
    lemma_at(s.items(), k);
    let d = s.items()[k];
    if !on_the_wire(d) {
        removing_a_row(s, k, remove_file, seq![]);
        reveal(AppModel::remove_item_opts);
    }
}

/// Once the dialog of a complete download is dismissed its row goes, where the
/// settings say so, and its file stays.
pub proof fn dismissing_keeps_the_file(s: AppModel, k: int, path: Seq<char>)
    requires
        unique(s.items()),
        0 <= k < s.items().len(),
        s.items()[k].state == DlState::Complete,
    ensures
        ({
            let t = s.complete_dismissed(s.items()[k].id);
            &&& s.cfg.settings.on.remove_completed ==> t.items() == s.items().remove(k)
            &&& !s.cfg.settings.on.remove_completed ==> t == s
            &&& !asks(s, t, EffectModel::RemoveFile(path))
        }),
{
    removing_a_row(s, k, false, path);
}

} // verus!
