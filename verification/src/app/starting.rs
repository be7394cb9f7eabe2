//! Starting a download, and what the download limit parks and gives back.
use crate::app::transfers::is_active;
use crate::app::{App, AppModel, Env, EnvModel};
use crate::downloads::{
    cap_of, counter, ids_where, item_of, moving, part_matches, quota_cap, quota_park_targets,
    quota_release_targets, quota_window_elapsed, release_all, released_ids, staged, window_over,
    Items,
};
use crate::edits::{set_held, set_started, to_held, to_started};
use crate::effect::{Effect, EffectModel};
use crate::engine::{Cmd, CmdModel, StartSpec, StartSpecModel, StreamSpec, StreamSpecModel};
use crate::model::{
    DlId, DlQuota, DownloadItem, DownloadItemModel, StateFileModel, StreamInfo, StreamInfoModel,
};
use crate::names::DiskModel;
use crate::notes::{Note, NoteModel};
use crate::spans::{cleaned, counted, sanitize_spans, sum_spans, Span};
use crate::state::{prog_seed, prog_state_seed};
use crate::twin::{copy_spans, Twin};
use vstd::prelude::*;

verus! {

/// Whether ranges are recorded that the staging file does not match.
pub open spec fn mismatched(d: DownloadItemModel, disk: DiskModel) -> bool {
    let held = cleaned(d.held, d.size);
    held.len() > 0 && !staged(disk.found(d.part_file()), d.size, held)
}

/// The ranges that a resume may build on: the clean form of the recorded ones,
/// or none where the staging file does not match them.
pub open spec fn resumable(d: DownloadItemModel, disk: DiskModel) -> Seq<Span> {
    if mismatched(d, disk) {
        seq![]
    } else {
        cleaned(d.held, d.size)
    }
}

pub open spec fn or_else<T>(a: Option<T>, b: Option<T>) -> Option<T> {
    if a is Some {
        a
    } else {
        b
    }
}

impl AppModel {
    /// The row shows that a transfer has been asked for.
    pub open spec fn begin(self, d: DownloadItemModel, now: i64) -> AppModel {
        self.edit_item(d.id, to_started(self.tr("Connecting..."@), now, d.part_file()))
    }

    /// What the engine is told to start a stream.
    pub open spec fn stream_spec(self, d: DownloadItemModel, si: StreamInfoModel) -> StreamSpecModel {
        StreamSpecModel {
            id: d.id,
            manifest: d.url,
            protocol: si.protocol,
            variant_url: si.variant_url,
            height: si.height,
            bandwidth: si.bandwidth,
            container: si.container,
            cookies: d.cookies,
            referer: si.referer,
            user_agent: match si.user_agent {
                Some(ua) => ua,
                None => self.cfg.settings.user_agent,
            },
            temp_path: d.part_file(),
            final_path: d.full_path(),
            conns: self.conns_for(d.url),
            max_seconds: si.max_seconds,
            limit: self.effective_limit(d),
        }
    }

    /// What the engine is told to start a file. A file of a mirror list takes
    /// its mirrors and what the list attests into every start.
    pub open spec fn start_spec(self, d: DownloadItemModel, held: Seq<Span>) -> StartSpecModel {
        StartSpecModel {
            id: d.id,
            url: d.url,
            auth: or_else(d.auth, self.login_for(d.url)),
            conns: self.conns_for(d.url),
            user_agent: self.cfg.settings.user_agent,
            temp_path: d.part_file(),
            final_path: d.full_path(),
            held,
            expected_size: d.size,
            cookies: d.cookies,
            referer: d.referer,
            limit: self.effective_limit(d),
            adaptive: self.cfg.settings.on.adaptive_conns,
            remote_time: self.cfg.settings.on.server_file_date,
            mirrors: match d.metalink {
                Some(m) => m.mirrors,
                None => seq![],
            },
            attested_size: match d.metalink {
                Some(m) => m.size,
                None => None,
            },
            attested_digest: match d.metalink {
                Some(m) => m.digest,
                None => None,
            },
            pieces: match d.metalink {
                Some(m) => m.pieces,
                None => None,
            },
        }
    }

    pub open spec fn start_stream(
        self,
        d: DownloadItemModel,
        si: StreamInfoModel,
        now: i64,
    ) -> AppModel {
        self.begin(d, now).tell(CmdModel::StartStream(self.stream_spec(d, si)))
    }

    pub open spec fn start_file(self, d: DownloadItemModel, env: EnvModel) -> AppModel {
        let held = resumable(d, env.disk);
        let s = self.begin(d, env.now);
        (if mismatched(d, env.disk) {
            s.note(NoteModel::StagingMismatch { id: d.id })
        } else {
            s
        }).edit_item(d.id, to_held(held, counted(held))).tell(
            CmdModel::Start(self.start_spec(d, held)),
        )
    }

    /// The progress box of the download comes up, seeded from the row's cap.
    pub open spec fn show_progress(self, id: DlId, limit: Option<u64>) -> AppModel {
        self.seed_progress(id, limit).open_progress_window(id)
    }

    pub open spec fn seed_progress(self, id: DlId, limit: Option<u64>) -> AppModel {
        if self.prog.contains_key(id) {
            self
        } else {
            AppModel { prog: self.prog.insert(id, prog_seed(limit)), ..self }
        }
    }

    /// The transfer of a row that is at rest starts.
    pub open spec fn launch(self, d: DownloadItemModel, env: EnvModel) -> AppModel {
        (match d.stream {
            Some(si) => self.start_stream(d, si, env.now),
            None => self.start_file(d, env),
        }).save_state()
    }

    /// Over the cap nothing new goes on the wire: the row is marked as the
    /// limiter's. Otherwise a row at rest starts, and its progress box comes up
    /// where that is asked for.
    #[verifier::opaque]
    pub open spec fn start_download(self, id: DlId, open_progress: bool, env: EnvModel) -> AppModel {
        if self.quota_exhausted() {
            if has_row(self.items(), id) && !is_active(self.items(), id) {
                self.limit_row(id)
            } else {
                self
            }
        } else {
            self.drop_scan(id).start_row(id, open_progress, env)
        }
    }

    pub open spec fn start_row(self, id: DlId, open_progress: bool, env: EnvModel) -> AppModel {
        match item_of(self.items(), id) {
            Some(d) => if d.state.active() {
                self
            } else {
                let s = self.launch(d, env);
                if open_progress {
                    s.show_progress(id, d.speed_limit)
                } else {
                    s
                }
            },
            None => self,
        }
    }

    pub open spec fn start_each(self, ids: Seq<DlId>, open_progress: bool, env: EnvModel) -> AppModel
        decreases ids.len(),
    {
        if ids.len() == 0 {
            self
        } else {
            self.start_each(ids.drop_last(), open_progress, env).start_download(
                ids.last(),
                open_progress,
                env,
            )
        }
    }
}

pub open spec fn has_row(v: Items, id: DlId) -> bool {
    item_of(v, id) is Some
}

impl App {
    /// A copy of the row numbered `id`.
    pub(crate) fn item_copy(&self, id: DlId) -> (r: Option<DownloadItem>)
        ensures
            r.deep_view() == item_of(self@.items(), id),
            r is Some ==> r->0.id == id,
    {
        match self.item(id) {
            Some(d) => {
                let c = d.twin();
                assert(c@ == d@);
                assert(c@.id == d@.id);
                Some(c)
            },
            None => None,
        }
    }

    fn begin(&mut self, d: &DownloadItem, now: i64)
        ensures
            final(self)@ == old(self)@.begin(d@, now),
    {
        let line = self.tr("Connecting...");
        let part = d.part_file();
        let mut v = self.take_items();
        set_started(&mut v, d.id, line, now, part);
        self.put_items(v);
    }

    pub(crate) fn user_agent(&self) -> (r: String)
        ensures
            r@ == self@.cfg.settings.user_agent,
    {
        proof {
            reveal(App::model);
        }
        self.cfg.settings.user_agent.clone()
    }

    fn transfer_flags(&self) -> (r: (bool, bool))
        ensures
            r == (
                self@.cfg.settings.on.adaptive_conns,
                self@.cfg.settings.on.server_file_date,
            ),
    {
        proof {
            reveal(App::model);
        }
        (self.cfg.settings.on.adaptive_conns, self.cfg.settings.on.server_file_date)
    }

    fn stream_spec(&self, d: &DownloadItem, si: &StreamInfo) -> (r: StreamSpec)
        ensures
            r@ == self@.stream_spec(d@, si@),
    {
        StreamSpec {
            id: d.id,
            manifest: d.url.clone(),
            protocol: si.protocol.clone(),
            variant_url: si.variant_url.twin(),
            height: si.height,
            bandwidth: si.bandwidth,
            container: si.container.clone(),
            cookies: d.cookies.twin(),
            referer: si.referer.twin(),
            user_agent: match &si.user_agent {
                Some(ua) => ua.clone(),
                None => self.user_agent(),
            },
            temp_path: d.part_file(),
            final_path: d.full_path(),
            conns: self.conns_for(&d.url),
            max_seconds: si.max_seconds,
            limit: self.effective_limit(d),
        }
    }

    fn start_spec(&self, d: &DownloadItem, held: Vec<Span>) -> (r: StartSpec)
        ensures
            r@ == self@.start_spec(d@, held@),
    {
        let (adaptive, remote_time) = self.transfer_flags();
        let auth = match &d.auth {
            Some((u, p)) => Some((u.clone(), p.clone())),
            None => self.login_for(&d.url),
        };
        let (mirrors, attested_size, attested_digest, pieces) = match &d.metalink {
            Some(m) => (m.mirrors.twin(), m.size, m.digest.twin(), m.pieces.twin()),
            None => (Vec::new(), None, None, None),
        };
        assert(d.metalink is None ==> mirrors.deep_view() =~= seq![]);
        StartSpec {
            id: d.id,
            url: d.url.clone(),
            auth,
            conns: self.conns_for(&d.url),
            user_agent: self.user_agent(),
            temp_path: d.part_file(),
            final_path: d.full_path(),
            held,
            expected_size: d.size,
            cookies: d.cookies.twin(),
            referer: d.referer.twin(),
            limit: self.effective_limit(d),
            adaptive,
            remote_time,
            mirrors,
            attested_size,
            attested_digest,
            pieces,
        }
    }

    fn start_stream(&mut self, d: &DownloadItem, si: &StreamInfo, now: i64)
        ensures
            final(self)@ == old(self)@.start_stream(d@, si@, now),
    {
        let spec = self.stream_spec(d, si);
        self.begin(d, now);
        self.tell(Cmd::StartStream(spec));
    }

    fn record_held(&mut self, id: DlId, held: &Vec<Span>)
        ensures
            final(self)@ == old(self)@.edit_item(id, to_held(held@, counted(held@))),
    {
        let bytes = sum_spans(held.as_slice());
        let mut v = self.take_items();
        set_held(&mut v, id, copy_spans(held), bytes);
        self.put_items(v);
    }

    fn start_file(&mut self, d: &DownloadItem, env: &Env)
        ensures
            final(self)@ == old(self)@.start_file(d@, env@),
    {
        let held = resumable_spans(d, env);
        let spec = self.start_spec(d, copy_spans(&held));
        self.begin(d, env.now);
        if is_mismatched(d, env) {
            self.note(Note::StagingMismatch { id: d.id });
        }
        self.record_held(d.id, &held);
        self.tell(Cmd::Start(spec));
    }

    fn launch(&mut self, d: &DownloadItem, env: &Env)
        ensures
            final(self)@ == old(self)@.launch(d@, env@),
    {
        match &d.stream {
            Some(si) => self.start_stream(d, si, env.now),
            None => self.start_file(d, env),
        }
        self.save_state();
    }

    pub(crate) fn seed_progress(&mut self, id: DlId, limit: Option<u64>)
        ensures
            final(self)@ == old(self)@.seed_progress(id, limit),
    {
        broadcast use vstd::std_specs::hash::group_hash_axioms;

        proof {
            reveal(App::model);
        }
        if !self.prog.contains_key(&id) {
            let before = self.prog.insert(id, prog_state_seed(limit));
            assert(crate::app::map_models(self.prog@) =~= crate::app::map_models(
                old(self).prog@,
            ).insert(id, prog_seed(limit)));
        }
    }

    pub(crate) fn show_progress(&mut self, id: DlId, limit: Option<u64>)
        ensures
            final(self)@ == old(self)@.show_progress(id, limit),
    {
        self.seed_progress(id, limit);
        self.open_progress_window(id);
    }

    fn start_row(&mut self, id: DlId, open_progress: bool, env: &Env)
        ensures
            final(self)@ == old(self)@.start_row(id, open_progress, env@),
    {
        let d = match self.item_copy(id) {
            Some(d) => d,
            None => return ,
        };
        if d.state.is_active() {
            return ;
        }
        self.launch(&d, env);
        if open_progress {
            self.show_progress(id, d.speed_limit);
        }
    }

    /// Starts a download that is at rest. Over the download limit nothing new
    /// goes on the wire: the row is marked as the limiter's, so that the tick
    /// that reopens the window picks it up.
    pub fn start_download(&mut self, id: DlId, open_progress: bool, env: &Env)
        ensures
            final(self)@ == old(self)@.start_download(id, open_progress, env@),
    {
        proof {
            reveal(AppModel::start_download);
        }
        if self.quota_exhausted() {
            if self.item(id).is_some() && !self.item_active(id) {
                self.limit_row(id);
            }
        } else {
            self.drop_scan(id);
            self.start_row(id, open_progress, env);
        }
    }

    pub(crate) fn start_each(&mut self, ids: &Vec<DlId>, open_progress: bool, env: &Env)
        ensures
            final(self)@ == old(self)@.start_each(ids@, open_progress, env@),
    {
        let mut i: usize = 0;
        assert(ids@.take(0) =~= seq![]);
        while i < ids.len()
            invariant
                i <= ids@.len(),
                self@ == old(self)@.start_each(ids@.take(i as int), open_progress, env@),
            decreases ids.len() - i,
        {
            proof {
                assert(ids@.take(i + 1).drop_last() =~= ids@.take(i as int));
                assert(ids@.take(i + 1).last() == ids@[i as int]);
            }
            self.start_download(ids[i], open_progress, env);
            i += 1;
        }
        assert(ids@.take(i as int) =~= ids@);
    }
}

/// The ranges that a resume of `d` may build on.
fn is_mismatched(d: &DownloadItem, env: &Env) -> (r: bool)
    ensures
        r == mismatched(d@, env@.disk),
{
    let held = sanitize_spans(d.held.as_slice(), d.size);
    held.len() > 0 && !part_matches(&d.part_file(), d.size, &held, &env.disk)
}

fn resumable_spans(d: &DownloadItem, env: &Env) -> (r: Vec<Span>)
    ensures
        r@ == resumable(d@, env@.disk),
{
    if is_mismatched(d, env) {
        let none: Vec<Span> = Vec::new();
        assert(none@ =~= seq![]);
        none
    } else {
        sanitize_spans(d.held.as_slice(), d.size)
    }
}

// ------------------------------------------------------------ download limit

impl AppModel {
    /// Freshly arrived bytes are charged against the window, which opens at
    /// the first byte.
    pub open spec fn quota_account(self, bytes: u64, now: i64) -> AppModel {
        if bytes == 0 || cap_of(self.cfg.settings) is None {
            self
        } else {
            let q = self.state.dl_quota;
            AppModel {
                state: StateFileModel {
                    dl_quota: DlQuota {
                        used: counter(q.used + bytes) as u64,
                        window_start: if q.window_start == 0 {
                            now
                        } else {
                            q.window_start
                        },
                    },
                    ..self.state
                },
                ..self
            }
        }
    }

    pub open spec fn park_each(self, ids: Seq<DlId>) -> AppModel
        decreases ids.len(),
    {
        if ids.len() == 0 {
            self
        } else {
            self.park_each(ids.drop_last()).stop_download(ids.last()).limit_row(ids.last())
        }
    }

    /// What the log is told when the limit parks `count` transfers.
    pub open spec fn limit_words(self, count: nat) -> NoteModel {
        NoteModel::LimitReached {
            used: self.state.dl_quota.used,
            mb: self.cfg.settings.dl_limit_mb,
            hours: self.cfg.settings.dl_limit_hours,
            count,
        }
    }

    /// Everything still moving is stopped and marked as the limiter's doing.
    #[verifier::opaque]
    pub open spec fn quota_park(self) -> AppModel {
        let ids = ids_where(self.items(), moving());
        if ids.len() == 0 {
            self
        } else {
            self.note(self.limit_words(ids.len())).park_each(ids).save_state()
        }
    }

    /// Of the rows given back, those that no queue took are started.
    pub open spec fn start_released(self, v: Seq<(DlId, bool)>, env: EnvModel) -> AppModel
        decreases v.len(),
    {
        if v.len() == 0 {
            self
        } else {
            let s = self.start_released(v.drop_last(), env);
            if v.last().1 {
                s
            } else {
                s.start_download(v.last().0, false, env)
            }
        }
    }

    /// What the limiter parked comes back: rows of a queue wait for their
    /// queue, the others start at once.
    #[verifier::opaque]
    pub open spec fn quota_release(self, env: EnvModel) -> AppModel {
        let v = released_ids(self.items());
        let s = self.with_items(release_all(self.items()));
        if v.len() == 0 {
            s
        } else {
            s.note(NoteModel::LimitLifted { count: v.len() }).start_released(v, env).save_state()
        }
    }

    /// The counter is stored if it has moved.
    pub open spec fn quota_store(self) -> AppModel {
        let q = self.state.dl_quota;
        if (q.used, q.window_start) != self.quota_saved {
            AppModel { quota_saved: (q.used, q.window_start), ..self }.emit(
                EffectModel::SaveQuota(q.used, q.window_start),
            )
        } else {
            self
        }
    }

    /// A window that has elapsed is rolled.
    pub open spec fn quota_roll(self, now: i64) -> AppModel {
        if window_over(self.cfg.settings, self.state.dl_quota, now) {
            AppModel {
                state: StateFileModel {
                    dl_quota: DlQuota { used: 0, window_start: 0 },
                    ..self.state
                },
                ..self.note(NoteModel::WindowElapsed { used: self.state.dl_quota.used })
            }.save_state()
        } else {
            self
        }
    }

    /// The window rolls when it has elapsed; over the cap everything moving is
    /// parked, under it what was parked comes back.
    #[verifier::opaque]
    pub open spec fn quota_tick(self, env: EnvModel) -> AppModel {
        let s = self.quota_store().quota_roll(env.now);
        if s.quota_exhausted() {
            s.quota_park()
        } else {
            s.quota_release(env)
        }
    }
}

impl App {
    /// Charge freshly arrived bytes against the current window. The window
    /// opens at the first accounted byte: an idle program must not burn
    /// through periods it never downloaded in.
    pub(crate) fn quota_account(&mut self, bytes: u64, now: i64)
        ensures
            final(self)@ == old(self)@.quota_account(bytes, now),
    {
        proof {
            reveal(App::model);
        }
        if bytes == 0 || quota_cap(&self.cfg.settings).is_none() {
            return ;
        }
        let q = self.state.dl_quota;
        self.state.dl_quota = DlQuota {
            used: q.used.saturating_add(bytes),
            window_start: if q.window_start == 0 {
                now
            } else {
                q.window_start
            },
        };
    }

    fn park_targets(&self) -> (r: Vec<DlId>)
        ensures
            r@ == ids_where(self@.items(), moving()),
    {
        proof {
            reveal(App::model);
        }
        quota_park_targets(&self.state.downloads)
    }

    fn limit_words(&self, count: usize) -> (r: Note)
        ensures
            r@ == self@.limit_words(count as nat),
    {
        proof {
            reveal(App::model);
        }
        Note::LimitReached {
            used: self.state.dl_quota.used,
            mb: self.cfg.settings.dl_limit_mb,
            hours: self.cfg.settings.dl_limit_hours,
            count,
        }
    }

    /// Stop everything still moving and mark it as the limiter's doing, so
    /// that the next window can tell it apart from a row paused by hand.
    pub(crate) fn quota_park(&mut self)
        ensures
            final(self)@ == old(self)@.quota_park(),
    {
        proof {
            reveal(AppModel::quota_park);
        }
        let ids = self.park_targets();
        if ids.len() == 0 {
            return ;
        }
        let line = self.limit_words(ids.len());
        self.note(line);
        let ghost start = self@;
        let mut i: usize = 0;
        assert(ids@.take(0) =~= seq![]);
        while i < ids.len()
            invariant
                i <= ids@.len(),
                self@ == start.park_each(ids@.take(i as int)),
            decreases ids.len() - i,
        {
            proof {
                assert(ids@.take(i + 1).drop_last() =~= ids@.take(i as int));
                assert(ids@.take(i + 1).last() == ids@[i as int]);
            }
            self.stop_download(ids[i]);
            self.limit_row(ids[i]);
            i += 1;
        }
        assert(ids@.take(i as int) =~= ids@);
        self.save_state();
    }

    /// Release what the limiter parked.
    pub(crate) fn quota_release(&mut self, env: &Env)
        ensures
            final(self)@ == old(self)@.quota_release(env@),
    {
        proof {
            reveal(AppModel::quota_release);
        }
        let mut rows = self.take_items();
        let v = quota_release_targets(&mut rows);
        self.put_items(rows);
        if v.len() == 0 {
            return ;
        }
        self.note(Note::LimitLifted { count: v.len() });
        let ghost start = self@;
        let mut i: usize = 0;
        assert(v@.take(0) =~= seq![]);
        while i < v.len()
            invariant
                i <= v@.len(),
                self@ == start.start_released(v@.take(i as int), env@),
            decreases v.len() - i,
        {
            proof {
                assert(v@.take(i + 1).drop_last() =~= v@.take(i as int));
                assert(v@.take(i + 1).last() == v@[i as int]);
            }
            let (id, requeued) = v[i];
            if !requeued {
                self.start_download(id, false, env);
            }
            i += 1;
        }
        assert(v@.take(i as int) =~= v@);
        self.save_state();
    }

    fn quota_store(&mut self)
        ensures
            final(self)@ == old(self)@.quota_store(),
    {
        proof {
            reveal(App::model);
        }
        let q = self.state.dl_quota;
        if q.used != self.quota_saved.0 || q.window_start != self.quota_saved.1 {
            self.quota_saved = (q.used, q.window_start);
            self.emit(Effect::SaveQuota(q.used, q.window_start));
        }
    }

    fn quota_roll(&mut self, now: i64)
        ensures
            final(self)@ == old(self)@.quota_roll(now),
    {
        proof {
            reveal(App::model);
        }
        if quota_window_elapsed(&self.cfg.settings, &self.state.dl_quota, now) {
            let used = self.state.dl_quota.used;
            self.note(Note::WindowElapsed { used });
            self.state.dl_quota = DlQuota { used: 0, window_start: 0 };
            self.save_state();
        }
    }

    /// Roll the window when it has elapsed, and reconcile the list with the
    /// limit.
    pub(crate) fn quota_tick(&mut self, env: &Env)
        ensures
            final(self)@ == old(self)@.quota_tick(env@),
    {
        proof {
            reveal(AppModel::quota_tick);
        }
        self.quota_store();
        self.quota_roll(env.now);
        if self.quota_exhausted() {
            self.quota_park();
        } else {
            self.quota_release(env);
        }
    }
}

} // verus!
