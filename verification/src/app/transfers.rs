//! Starting, stopping and removing downloads, and the download limit.
use crate::app::{App, AppModel};
use crate::downloads::{edit, find_item, item_of, over_cap, quota_over_cap, Items};
use crate::edits::{set_limited, set_state, set_status, to_limited, to_state, to_status, Change};
use crate::effect::{Effect, EffectModel};
use crate::engine::{parse_url, url_parts, Cmd, CmdModel};
use crate::model::{DlId, DlState, DownloadItem, DownloadItemModel};
use crate::rules::{find_login, login_for};
use crate::state::{ConfirmKind, ConfirmKindModel, WinKind};
use crate::text::{ends, ends_with, strip_all, trim_start_text};
use vstd::prelude::*;

verus! {

// ----------------------------------------------------------------- looking up

pub open spec fn is_active(v: Items, id: DlId) -> bool {
    item_of(v, id) matches Some(d) && d.state.active()
}

/// The place of the first exception to the number of connections that a host
/// falls under; the length where there is none.
pub open spec fn exception_for(list: Seq<(Seq<char>, usize)>, host: Seq<char>) -> int
    decreases list.len(),
{
    if list.len() == 0 || (list[0].0.len() > 0 && ends(host, strip_all(list[0].0, "*."@))) {
        0
    } else {
        1 + exception_for(list.drop_first(), host)
    }
}

/// A number of connections within what a server is asked to bear.
pub open spec fn within_conns(n: usize) -> usize {
    if n < 1 {
        1
    } else if n > 32 {
        32
    } else {
        n
    }
}

impl AppModel {
    /// How many connections a download from this address uses.
    #[verifier::opaque]
    pub open spec fn conns_for(self, url: Seq<char>) -> usize {
        let host = match url_parts(url) {
            Ok(p) => p.host,
            Err(_) => seq![],
        };
        let list = self.cfg.settings.conn_exceptions;
        let i = exception_for(list, host);
        within_conns(
            if i < list.len() {
                list[i].1
            } else {
                self.cfg.settings.default_conns
            },
        )
    }

    /// Saved credentials for an address.
    #[verifier::opaque]
    pub open spec fn login_for(self, url: Seq<char>) -> Option<(Seq<char>, Seq<char>)> {
        let i = login_for(url, self.cfg.settings.logins);
        if i >= 0 {
            Some((self.cfg.settings.logins[i].user, self.cfg.settings.logins[i].pass))
        } else {
            None
        }
    }

    /// The cap a download runs under: its own, or else the global one while
    /// the speed limiter is on.
    pub open spec fn effective_limit(self, d: DownloadItemModel) -> Option<u64> {
        match d.speed_limit {
            Some(l) => Some(l),
            None => if self.cfg.settings.speed_limiter_on {
                self.cfg.settings.global_speed_limit
            } else {
                None
            },
        }
    }

    pub open spec fn quota_exhausted(self) -> bool {
        over_cap(self.cfg.settings, self.state.dl_quota)
    }

    pub open spec fn edit_item(
        self,
        id: DlId,
        f: Change,
    ) -> AppModel {
        self.with_items(edit(self.items(), id, f))
    }

    /// The download limit has a say over this row from now on.
    pub open spec fn limit_row(self, id: DlId) -> AppModel {
        self.edit_item(id, to_limited(self.tr("Download limit reached"@)))
    }
}

impl App {
    pub fn item(&self, id: DlId) -> (r: Option<&DownloadItem>)
        ensures
            match r {
                Some(d) => item_of(self@.items(), id) == Some(d@) && d.id == id,
                None => item_of(self@.items(), id) is None,
            },
    {
        proof {
            reveal(App::model);
        }
        match find_item(&self.state.downloads, id) {
            Some(i) => Some(&self.state.downloads[i]),
            None => None,
        }
    }

    /// Whether the download is in the list and bytes are on their way.
    pub fn item_active(&self, id: DlId) -> (r: bool)
        ensures
            r == is_active(self@.items(), id),
    {
        match self.item(id) {
            Some(d) => d.state.is_active(),
            None => false,
        }
    }

    /// Effective connection count for an address (Connection page exceptions).
    pub fn conns_for(&self, url: &str) -> (r: usize)
        ensures
            r == self@.conns_for(url@),
    {
        proof {
            reveal(App::model);
            reveal(AppModel::conns_for);
        }
        let host = match parse_url(url) {
            Ok(p) => p.host,
            Err(_) => String::new(),
        };
        let list = &self.cfg.settings.conn_exceptions;
        let ghost all = list.deep_view();
        let mut i: usize = 0;
        assert(all.skip(0) =~= all);
        while i < list.len() && !(!list[i].0.as_str().is_empty() && ends_with(
            &host,
            &trim_start_text(&list[i].0, "*."),
        ))
            invariant
                i <= list@.len(),
                all == list.deep_view(),
                exception_for(all, host@) == i + exception_for(all.skip(i as int), host@),
            decreases list.len() - i,
        {
            assert(all.skip(i as int)[0] == list@[i as int].deep_view());
            assert(all.skip(i as int).drop_first() =~= all.skip(i + 1));
            i += 1;
        }
        if i < list.len() {
            assert(all.skip(i as int)[0] == list@[i as int].deep_view());
            assert(all[i as int] == list@[i as int].deep_view());
        }
        let n: usize = if i < list.len() {
            list[i].1
        } else {
            self.cfg.settings.default_conns
        };
        if n < 1 {
            1
        } else if n > 32 {
            32
        } else {
            n
        }
    }

    /// Saved credentials for an address from Options > Sites Logins.
    pub fn login_for(&self, url: &str) -> (r: Option<(String, String)>)
        ensures
            r.deep_view() == self@.login_for(url@),
    {
        proof {
            reveal(App::model);
            reveal(AppModel::login_for);
        }
        match find_login(url, &self.cfg.settings.logins) {
            Some(l) => {
                assert(self.cfg.settings.logins.deep_view()[login_for(
                    url@,
                    self.cfg.settings.logins.deep_view(),
                )] == l@);
                Some((l.user.clone(), l.pass.clone()))
            },
            None => None,
        }
    }

    /// The cap this download is actually running under.
    pub fn effective_limit(&self, d: &DownloadItem) -> (r: Option<u64>)
        ensures
            r == self@.effective_limit(d@),
    {
        proof {
            reveal(App::model);
        }
        match d.speed_limit {
            Some(l) => Some(l),
            None => if self.cfg.settings.speed_limiter_on {
                self.cfg.settings.global_speed_limit
            } else {
                None
            },
        }
    }

    pub fn quota_exhausted(&self) -> (r: bool)
        ensures
            r == self@.quota_exhausted(),
    {
        proof {
            reveal(App::model);
        }
        quota_over_cap(&self.cfg.settings, &self.state.dl_quota)
    }

    pub(crate) fn limit_row(&mut self, id: DlId)
        ensures
            final(self)@ == old(self)@.limit_row(id),
    {
        let line = self.tr("Download limit reached");
        let mut v = self.take_items();
        set_limited(&mut v, id, line);
        self.put_items(v);
    }
}

// ------------------------------------------------------------------ stopping

/// `v` without the rows numbered `id`.
pub open spec fn items_without(v: Items, id: DlId) -> Items
    decreases v.len(),
{
    if v.len() == 0 {
        seq![]
    } else if v.last().id == id {
        items_without(v.drop_last(), id)
    } else {
        items_without(v.drop_last(), id).push(v.last())
    }
}

/// `v` without `id`.
pub open spec fn ids_without(v: Seq<DlId>, id: DlId) -> Seq<DlId>
    decreases v.len(),
{
    if v.len() == 0 {
        seq![]
    } else if v.last() == id {
        ids_without(v.drop_last(), id)
    } else {
        ids_without(v.drop_last(), id).push(v.last())
    }
}

impl AppModel {
    pub open spec fn tell(self, c: CmdModel) -> AppModel {
        self.emit(EffectModel::Engine(c))
    }

    /// A running transfer is told to stop; a waiting one is paused.
    #[verifier::opaque]
    pub open spec fn stop_download(self, id: DlId) -> AppModel {
        match item_of(self.items(), id) {
            Some(d) => if d.state.active() {
                self.tell(CmdModel::Stop(id)).status(id, self.tr("Pause"@))
            } else if d.state == DlState::Queued {
                self.set_item_state(id, DlState::Paused)
            } else {
                self
            },
            None => self,
        }
    }

    pub open spec fn status(self, id: DlId, line: Seq<char>) -> AppModel {
        self.edit_item(id, to_status(line))
    }

    pub open spec fn set_item_state(self, id: DlId, st: DlState) -> AppModel {
        self.edit_item(id, to_state(st))
    }

    pub open spec fn stop_each(self, ids: Seq<DlId>) -> AppModel
        decreases ids.len(),
    {
        if ids.len() == 0 {
            self
        } else {
            self.stop_each(ids.drop_last()).stop_download(ids.last())
        }
    }

    /// No queue runs any more.
    pub open spec fn halt_queues(self) -> AppModel {
        AppModel {
            cfg: crate::model::ConfigFileModel {
                queues: self.cfg.queues.map_values(
                    |q: crate::model::QueueDefModel|
                        crate::model::QueueDefModel { running: false, ..q },
                ),
                ..self.cfg
            },
            ..self
        }
    }

    pub open spec fn stop_ids(self, ids: Seq<DlId>, stop_queues: bool) -> AppModel {
        let s = self.stop_each(ids);
        if stop_queues {
            s.halt_queues()
        } else {
            s
        }
    }

    /// The rows are stopped, or the user is asked first, where the settings say
    /// so and at least one of them is transferring.
    #[verifier::opaque]
    pub open spec fn stop_ids_confirming(self, ids: Seq<DlId>, stop_queues: bool) -> AppModel {
        if self.cfg.settings.on.warn_before_stop && exists|i: int|
            0 <= i < ids.len() && is_active(self.items(), #[trigger] ids[i]) {
            self.ask(ConfirmKindModel::StopWarn { ids, stop_queues })
        } else {
            self.stop_ids(ids, stop_queues)
        }
    }

    /// The confirmation dialog asks a question.
    pub open spec fn ask(self, kind: ConfirmKindModel) -> AppModel {
        AppModel { confirm: Some(kind), ..self }.open_window(WinKind::Confirm)
    }

    /// What removing a row does on disk.
    pub open spec fn removal(self, id: DlId, remove_file: bool) -> AppModel {
        match item_of(self.items(), id) {
            Some(d) => if d.state != DlState::Complete {
                self.emit(EffectModel::RemoveFile(d.part_file()))
            } else if remove_file {
                self.emit(EffectModel::RemoveFile(d.full_path()))
            } else {
                self
            },
            None => self,
        }
    }

    /// The row is gone, with everything that belonged to it.
    pub open spec fn without_item(self, id: DlId) -> AppModel {
        let s = self.with_items(items_without(self.items(), id));
        AppModel {
            list: crate::app::ListUiModel {
                selected: ids_without(s.list.selected, id),
                ..s.list
            },
            prog: s.prog.remove(id),
            ..s
        }
    }

    /// A scan that is running over the file is called off and forgotten.
    pub open spec fn drop_scan(self, id: DlId) -> AppModel {
        let s = self.emit(EffectModel::SkipScan(id));
        AppModel { scans: s.scans.remove(id), ..s }
    }

    #[verifier::opaque]
    pub open spec fn remove_item_opts(self, id: DlId, remove_file: bool) -> AppModel {
        self.removal(id, remove_file).without_item(id).drop_scan(id).save_state()
    }

    /// A running transfer is stopped first, and its row goes once the engine
    /// confirms it.
    pub open spec fn delete_row(self, id: DlId, remove_file: bool, ms: u64) -> AppModel {
        if is_active(self.items(), id) {
            let s = self.tell(CmdModel::Stop(id));
            AppModel { pending_delete: s.pending_delete.push((id, ms)), ..s }
        } else {
            self.remove_item_opts(id, remove_file)
        }
    }

    #[verifier::opaque]
    pub open spec fn delete_item_opts(self, id: DlId, remove_file: bool, ms: u64) -> AppModel {
        self.delete_row(id, remove_file, ms).close_window(WinKind::Progress(id)).close_window(
            WinKind::FileInfo(id),
        )
    }

    /// The "Download complete" dialog has been dismissed.
    pub open spec fn complete_dismissed(self, dl: DlId) -> AppModel {
        if self.cfg.settings.on.remove_completed {
            self.remove_item_opts(dl, false)
        } else {
            self
        }
    }
}

impl App {
    pub(crate) fn tell(&mut self, c: Cmd)
        ensures
            final(self)@ == old(self)@.tell(c@),
    {
        self.emit(Effect::Engine(c));
    }

    pub(crate) fn tr(&self, msgid: &str) -> (r: String)
        ensures
            r@ == self@.tr(msgid@),
    {
        proof {
            reveal(App::model);
        }
        self.lang.tr(msgid)
    }

    pub(crate) fn status(&mut self, id: DlId, line: String)
        ensures
            final(self)@ == old(self)@.status(id, line@),
    {
        let mut v = self.take_items();
        set_status(&mut v, id, line);
        self.put_items(v);
    }

    pub(crate) fn set_item_state(&mut self, id: DlId, st: DlState)
        ensures
            final(self)@ == old(self)@.set_item_state(id, st),
    {
        let mut v = self.take_items();
        set_state(&mut v, id, st);
        self.put_items(v);
    }

    pub fn stop_download(&mut self, id: DlId)
        ensures
            final(self)@ == old(self)@.stop_download(id),
    {
        proof {
            reveal(AppModel::stop_download);
        }
        let st = match self.item(id) {
            Some(d) => d.state,
            None => return ,
        };
        if st.is_active() {
            let line = self.tr("Pause");
            self.tell(Cmd::Stop(id));
            self.status(id, line);
        } else if st == DlState::Queued {
            self.set_item_state(id, DlState::Paused);
        }
    }

    pub(crate) fn stop_each(&mut self, ids: &Vec<DlId>)
        ensures
            final(self)@ == old(self)@.stop_each(ids@),
    {
        let mut i: usize = 0;
        assert(ids@.take(0) =~= seq![]);
        while i < ids.len()
            invariant
                i <= ids@.len(),
                self@ == old(self)@.stop_each(ids@.take(i as int)),
            decreases ids.len() - i,
        {
            proof {
                assert(ids@.take(i + 1).drop_last() =~= ids@.take(i as int));
                assert(ids@.take(i + 1).last() == ids@[i as int]);
            }
            self.stop_download(ids[i]);
            i += 1;
        }
        assert(ids@.take(i as int) =~= ids@);
    }

    fn halt_queues(&mut self)
        ensures
            final(self)@ == old(self)@.halt_queues(),
    {
        proof {
            reveal(App::model);
        }
        let ghost before = self.cfg.queues.deep_view();
        let mut i: usize = 0;
        let n = self.cfg.queues.len();
        let ghost start = *self;
        while i < n
            invariant
                i <= n,
                n == before.len(),
                before == start.cfg.queues.deep_view(),
                self.cfg.queues@.len() == n,
                *self == (App {
                    cfg: crate::model::ConfigFile { queues: self.cfg.queues, ..start.cfg },
                    ..start
                }),
                forall|k: int|
                    0 <= k < i ==> (#[trigger] self.cfg.queues@[k])@ == (
                    crate::model::QueueDefModel { running: false, ..before[k] }),
                forall|k: int| i <= k < n ==> (#[trigger] self.cfg.queues@[k])@ == before[k],
            decreases n - i,
        {
            assert(self.cfg.queues@[i as int]@ == before[i as int]);
            self.cfg.queues[i].running = false;
            i += 1;
        }
        assert(self.cfg.queues.deep_view() =~= before.map_values(
            |q: crate::model::QueueDefModel| crate::model::QueueDefModel { running: false, ..q },
        ));
    }

    pub(crate) fn stop_ids(&mut self, ids: &Vec<DlId>, stop_queues: bool)
        ensures
            final(self)@ == old(self)@.stop_ids(ids@, stop_queues),
    {
        self.stop_each(ids);
        if stop_queues {
            self.halt_queues();
        }
    }

    fn any_active(&self, ids: &Vec<DlId>) -> (r: bool)
        ensures
            r == (exists|i: int| 0 <= i < ids@.len() && is_active(self@.items(), #[trigger] ids@[i])),
    {
        let mut i: usize = 0;
        while i < ids.len()
            invariant
                i <= ids@.len(),
                forall|k: int| 0 <= k < i ==> !is_active(self@.items(), #[trigger] ids@[k]),
            decreases ids.len() - i,
        {
            if self.item_active(ids[i]) {
                return true;
            }
            i += 1;
        }
        false
    }

    fn warns_before_stop(&self) -> (r: bool)
        ensures
            r == self@.cfg.settings.on.warn_before_stop,
    {
        proof {
            reveal(App::model);
        }
        self.cfg.settings.on.warn_before_stop
    }

    pub(crate) fn ask(&mut self, kind: ConfirmKind)
        ensures
            final(self)@ == old(self)@.ask(kind@),
    {
        self.set_confirm(Some(kind));
        self.open_window(WinKind::Confirm);
    }

    pub(crate) fn set_confirm(&mut self, kind: Option<ConfirmKind>)
        ensures
            final(self)@ == (AppModel { confirm: kind.deep_view(), ..old(self)@ }),
    {
        proof {
            reveal(App::model);
        }
        self.confirm = kind;
    }

    /// Stop the given rows, honouring "Warn me before stopping downloads".
    pub(crate) fn stop_ids_confirming(&mut self, ids: Vec<DlId>, stop_queues: bool)
        ensures
            final(self)@ == old(self)@.stop_ids_confirming(ids@, stop_queues),
    {
        proof {
            reveal(AppModel::stop_ids_confirming);
        }
        if self.warns_before_stop() && self.any_active(&ids) {
            self.ask(ConfirmKind::StopWarn { ids, stop_queues });
        } else {
            self.stop_ids(&ids, stop_queues);
        }
    }

    fn removal(&mut self, id: DlId, remove_file: bool)
        ensures
            final(self)@ == old(self)@.removal(id, remove_file),
    {
        let path = match self.item(id) {
            Some(d) => if d.state != DlState::Complete {
                d.part_file()
            } else if remove_file {
                d.full_path()
            } else {
                return ;
            },
            None => return ,
        };
        self.emit(Effect::RemoveFile(path));
    }

    fn without_item(&mut self, id: DlId)
        ensures
            final(self)@ == old(self)@.without_item(id),
    {
        broadcast use vstd::std_specs::hash::group_hash_axioms;

        proof {
            reveal(App::model);
        }
        drop_items(&mut self.state.downloads, id);
        self.list.selected = ids_but(&self.list.selected, id);
        let gone = self.prog.remove(&id);
        assert(crate::app::map_models(self.prog@) =~= crate::app::map_models(old(self).prog@).remove(
            id,
        ));
    }

    pub(crate) fn drop_scan(&mut self, id: DlId)
        ensures
            final(self)@ == old(self)@.drop_scan(id),
    {
        self.emit(Effect::SkipScan(id));
        self.forget_scan(id);
    }

    pub(crate) fn forget_scan(&mut self, id: DlId)
        ensures
            final(self)@ == (AppModel { scans: old(self)@.scans.remove(id), ..old(self)@ }),
    {
        broadcast use vstd::std_specs::hash::group_hash_axioms;

        proof {
            reveal(App::model);
        }
        let gone = self.scans.remove(&id);
        assert(crate::app::map_models(self.scans@) =~= crate::app::map_models(
            old(self).scans@,
        ).remove(id));
    }

    pub(crate) fn remove_item_opts(&mut self, id: DlId, remove_file: bool)
        ensures
            final(self)@ == old(self)@.remove_item_opts(id, remove_file),
    {
        proof {
            reveal(AppModel::remove_item_opts);
        }
        self.removal(id, remove_file);
        self.without_item(id);
        self.drop_scan(id);
        self.save_state();
    }

    fn await_stop(&mut self, id: DlId, ms: u64)
        ensures
            final(self)@ == (AppModel {
                pending_delete: old(self)@.pending_delete.push((id, ms)),
                ..old(self)@
            }),
    {
        proof {
            reveal(App::model);
        }
        self.pending_delete.push((id, ms));
    }

    fn delete_row(&mut self, id: DlId, remove_file: bool, ms: u64)
        ensures
            final(self)@ == old(self)@.delete_row(id, remove_file, ms),
    {
        if self.item_active(id) {
            self.tell(Cmd::Stop(id));
            self.await_stop(id, ms);
        } else {
            self.remove_item_opts(id, remove_file);
        }
    }

    pub(crate) fn delete_item_opts(&mut self, id: DlId, remove_file: bool, ms: u64)
        ensures
            final(self)@ == old(self)@.delete_item_opts(id, remove_file, ms),
    {
        proof {
            reveal(AppModel::delete_item_opts);
        }
        self.delete_row(id, remove_file, ms);
        self.close_window(WinKind::Progress(id));
        self.close_window(WinKind::FileInfo(id));
    }

    fn removes_completed(&self) -> (r: bool)
        ensures
            r == self@.cfg.settings.on.remove_completed,
    {
        proof {
            reveal(App::model);
        }
        self.cfg.settings.on.remove_completed
    }

    /// The "Download complete" dialog is going away: when Options > Downloads
    /// asks for it, this is the moment the finished row leaves the list.
    pub(crate) fn complete_dismissed(&mut self, dl: DlId)
        ensures
            final(self)@ == old(self)@.complete_dismissed(dl),
    {
        if self.removes_completed() {
            self.remove_item_opts(dl, false);
        }
    }
}

/// Takes the rows numbered `id` out of the list.
pub fn drop_items(v: &mut Vec<DownloadItem>, id: DlId)
    ensures
        final(v).deep_view() == items_without(old(v).deep_view(), id),
{
    let ghost all = v.deep_view();
    let mut old_rows: Vec<DownloadItem> = Vec::new();
    core::mem::swap(v, &mut old_rows);
    let ghost rows = old_rows@;
    let mut kept: Vec<DownloadItem> = Vec::new();
    assert(all.take(0) =~= seq![]);
    assert(kept.deep_view() =~= seq![]);
    for d in it: old_rows
        invariant
            it.seq() == rows,
            all.len() == rows.len(),
            forall|k: int| 0 <= k < rows.len() ==> all[k] == (#[trigger] rows[k])@,
            kept.deep_view() == items_without(all.take(it.index() as int), id),
    {
        let ghost n = it.index() as int;
        proof {
            assert(rows[n] == d);
            assert(all.take(n + 1).drop_last() =~= all.take(n));
            assert(all.take(n + 1).last() == d@);
        }
        if d.id != id {
            let ghost before = kept.deep_view();
            kept.push(d);
            assert(kept.deep_view() =~= before.push(d@));
        }
    }
    assert(all.take(all.len() as int) =~= all);
    *v = kept;
}

pub fn ids_but(v: &Vec<DlId>, id: DlId) -> (r: Vec<DlId>)
    ensures
        r@ == ids_without(v@, id),
{
    let mut r: Vec<DlId> = Vec::new();
    let mut i: usize = 0;
    assert(v@.take(0) =~= seq![]);
    while i < v.len()
        invariant
            i <= v@.len(),
            r@ == ids_without(v@.take(i as int), id),
        decreases v.len() - i,
    {
        proof {
            assert(v@.take(i + 1).drop_last() =~= v@.take(i as int));
            assert(v@.take(i + 1).last() == v@[i as int]);
        }
        if v[i] != id {
            r.push(v[i]);
        }
        i += 1;
    }
    assert(v@.take(i as int) =~= v@);
    r
}

} // verus!
