//! What the engine and the scanner report, and what follows from it.
use crate::app::{App, AppModel, Env, EnvModel};
use crate::downloads::{item_of, Items};
use crate::edits::{
    set_disconnected, set_downloaded, set_failed, set_finished, set_granted, set_held, set_progress,
    set_resume, set_retry, set_scanning, set_spans, set_speed_limit, set_typed, to_disconnected,
    to_downloaded, to_failed, to_finished, to_granted, to_held, to_progress, to_resume, to_retry,
    to_scanning, to_spans, to_speed_limit, to_typed,
};
use crate::effect::{Effect, EffectModel, Pick, PickModel};
use crate::engine::Event;
use crate::model::{ConnRow, ConnRowModel, DlId, DlState, DownloadItem};
use crate::notes::{Note, NoteModel};
use crate::queues::queue_of;
use crate::scan::{argv, args_of, scan_args};
use crate::sounds;
use crate::spans::{counted, sum_spans, Span};
use crate::state::{FileInfoState, ScanState, ScanStateModel, WinKind};
use crate::text::{same, trim, trimmed, views};
use crate::twin::copy_spans;
use vstd::prelude::*;

verus! {

// ------------------------------------------------------------ pending deletes

/// `v` without the entries for `id`.
pub open spec fn pending_without(v: Seq<(DlId, u64)>, id: DlId) -> Seq<(DlId, u64)>
    decreases v.len(),
{
    if v.len() == 0 {
        seq![]
    } else if v.last().0 == id {
        pending_without(v.drop_last(), id)
    } else {
        pending_without(v.drop_last(), id).push(v.last())
    }
}

pub open spec fn is_pending(v: Seq<(DlId, u64)>, id: DlId) -> bool {
    exists|i: int| 0 <= i < v.len() && (#[trigger] v[i]).0 == id
}

/// Milliseconds after which a delete no longer waits for the engine.
pub const DELETE_DEADLINE_MS: u64 = 5000;

/// The deletes that no longer wait: those whose row has stopped, and those
/// whose deadline has passed.
pub open spec fn overdue(v: Seq<(DlId, u64)>, items: Items, ms: u64) -> Seq<DlId>
    decreases v.len(),
{
    if v.len() == 0 {
        seq![]
    } else {
        let r = overdue(v.drop_last(), items, ms);
        let (id, at) = v.last();
        if (ms >= at && ms - at >= DELETE_DEADLINE_MS) || !crate::app::transfers::is_active(
            items,
            id,
        ) {
            r.push(id)
        } else {
            r
        }
    }
}

fn pending_but(v: &Vec<(DlId, u64)>, id: DlId) -> (r: Vec<(DlId, u64)>)
    ensures
        r@ == pending_without(v@, id),
{
    let mut r: Vec<(DlId, u64)> = Vec::new();
    let mut i: usize = 0;
    assert(v@.take(0) =~= seq![]);
    while i < v.len()
        invariant
            i <= v@.len(),
            r@ == pending_without(v@.take(i as int), id),
        decreases v.len() - i,
    {
        proof {
            assert(v@.take(i + 1).drop_last() =~= v@.take(i as int));
            assert(v@.take(i + 1).last() == v@[i as int]);
        }
        if v[i].0 != id {
            r.push(v[i]);
        }
        i += 1;
    }
    assert(v@.take(i as int) =~= v@);
    r
}

impl AppModel {
    /// A delete that waited for this row is honoured.
    #[verifier::opaque]
    pub open spec fn honour_delete(self, id: DlId) -> AppModel {
        AppModel { pending_delete: pending_without(self.pending_delete, id), ..self }.remove_item_opts(
            id,
            false,
        )
    }

    pub open spec fn honour_all(self, ids: Seq<DlId>) -> AppModel
        decreases ids.len(),
    {
        if ids.len() == 0 {
            self
        } else {
            self.honour_all(ids.drop_last()).honour_delete(ids.last())
        }
    }

    /// The deletes that no longer wait are honoured.
    #[verifier::opaque]
    pub open spec fn sweep_pending_deletes(self, ms: u64) -> AppModel {
        self.honour_all(overdue(self.pending_delete, self.items(), ms))
    }
}

impl App {
    fn is_pending(&self, id: DlId) -> (r: bool)
        ensures
            r == is_pending(self@.pending_delete, id),
    {
        proof {
            reveal(App::model);
        }
        let v = &self.pending_delete;
        let mut i: usize = 0;
        while i < v.len()
            invariant
                i <= v@.len(),
                v@ == self@.pending_delete,
                forall|k: int| 0 <= k < i ==> (#[trigger] v@[k]).0 != id,
            decreases v.len() - i,
        {
            if v[i].0 == id {
                assert(self@.pending_delete[i as int].0 == id);
                return true;
            }
            i += 1;
        }
        false
    }

    fn forget_pending(&mut self, id: DlId)
        ensures
            final(self)@ == (AppModel {
                pending_delete: pending_without(old(self)@.pending_delete, id),
                ..old(self)@
            }),
    {
        proof {
            reveal(App::model);
        }
        self.pending_delete = pending_but(&self.pending_delete, id);
    }

    fn honour_delete(&mut self, id: DlId)
        ensures
            final(self)@ == old(self)@.honour_delete(id),
    {
        proof {
            reveal(AppModel::honour_delete);
        }
        self.forget_pending(id);
        self.remove_item_opts(id, false);
    }

    fn overdue(&self, ms: u64) -> (r: Vec<DlId>)
        ensures
            r@ == overdue(self@.pending_delete, self@.items(), ms),
    {
        proof {
            reveal(App::model);
        }
        let v = &self.pending_delete;
        let mut r: Vec<DlId> = Vec::new();
        let mut i: usize = 0;
        assert(v@.take(0) =~= seq![]);
        while i < v.len()
            invariant
                i <= v@.len(),
                v@ == self@.pending_delete,
                r@ == overdue(v@.take(i as int), self@.items(), ms),
            decreases v.len() - i,
        {
            proof {
                assert(v@.take(i + 1).drop_last() =~= v@.take(i as int));
                assert(v@.take(i + 1).last() == v@[i as int]);
            }
            let (id, at) = v[i];
            if ms.saturating_sub(at) >= DELETE_DEADLINE_MS || !self.item_active(id) {
                r.push(id);
            }
            i += 1;
        }
        assert(v@.take(i as int) =~= v@);
        r
    }

    /// A pending delete is a deadline, not a promise: the engine's word of the
    /// stop can be lost, and a number stuck in the list would silently delete
    /// a later download.
    pub(crate) fn sweep_pending_deletes(&mut self, ms: u64)
        ensures
            final(self)@ == old(self)@.sweep_pending_deletes(ms),
    {
        proof {
            reveal(AppModel::sweep_pending_deletes);
        }
        let ids = self.overdue(ms);
        let mut i: usize = 0;
        assert(ids@.take(0) =~= seq![]);
        while i < ids.len()
            invariant
                i <= ids@.len(),
                self@ == old(self)@.honour_all(ids@.take(i as int)),
            decreases ids.len() - i,
        {
            proof {
                assert(ids@.take(i + 1).drop_last() =~= ids@.take(i as int));
                assert(ids@.take(i + 1).last() == ids@[i as int]);
            }
            self.honour_delete(ids[i]);
            i += 1;
        }
        assert(ids@.take(i as int) =~= ids@);
    }
}

// ----------------------------------------------------------------- completion

impl AppModel {
    /// The tail every finished download ends with: a chime, the progress box
    /// closes, and then a pending power action, the complete dialog, or the
    /// end of the row.
    #[verifier::opaque]
    pub open spec fn finish_completion(self, id: DlId) -> AppModel {
        let s = self.play(0, sounds::Event::DownloadComplete).close_window(WinKind::Progress(id));
        match item_of(s.items(), id) {
            Some(d) if d.shutdown_after => s.arm_power_action(d.shutdown_action, false),
            _ => if s.cfg.settings.on.show_complete_dialog {
                s.open_window(WinKind::Complete(id))
            } else if s.cfg.settings.on.remove_completed {
                s.remove_item_opts(id, false)
            } else {
                s
            },
        }
    }

    /// Whether a finished file goes to a scanner: one is named, it is there,
    /// and so is the row.
    pub open spec fn scan_wanted(self, id: DlId, env: EnvModel) -> bool {
        let program = trimmed(self.cfg.settings.virus_scanner);
        program.len() > 0 && item_of(self.items(), id) is Some && env.disk.is_file(program)
    }

    /// A scanner that is named but not there is told of in the log.
    pub open spec fn note_no_scanner(self, id: DlId, env: EnvModel) -> AppModel {
        let program = trimmed(self.cfg.settings.virus_scanner);
        if program.len() > 0 && item_of(self.items(), id) is Some && !env.disk.is_file(program) {
            self.note(NoteModel::NoScanner { program })
        } else {
            self
        }
    }

    /// The scanner is called on the finished file.
    #[verifier::opaque]
    pub open spec fn start_scan(self, id: DlId) -> AppModel {
        match item_of(self.items(), id) {
            Some(d) => self.with_scan(
                id,
                ScanStateModel::empty().push(
                    self.tr("Start scanning downloaded data..."@),
                    false,
                ),
            ).edit_item(id, to_scanning(self.tr("Virus scanning..."@))).emit(
                EffectModel::StartScan {
                    id,
                    program: trimmed(self.cfg.settings.virus_scanner),
                    args: scan_args(args_of(self.cfg.settings.virus_args), d.full_path()),
                },
            ),
            None => self,
        }
    }

    pub open spec fn with_scan(self, id: DlId, st: ScanStateModel) -> AppModel {
        AppModel { scans: self.scans.insert(id, st), ..self }
    }
}

impl App {
    fn completion_flags(&self) -> (r: (bool, bool))
        ensures
            r == (
                self@.cfg.settings.on.show_complete_dialog,
                self@.cfg.settings.on.remove_completed,
            ),
    {
        proof {
            reveal(App::model);
        }
        (self.cfg.settings.on.show_complete_dialog, self.cfg.settings.on.remove_completed)
    }

    /// Runs straight away when no scanner is configured, and after a clean (or
    /// skipped) scan otherwise.
    pub(crate) fn finish_completion(&mut self, id: DlId)
        ensures
            final(self)@ == old(self)@.finish_completion(id),
    {
        proof {
            reveal(AppModel::finish_completion);
        }
        self.play(0, sounds::Event::DownloadComplete);
        self.close_window(WinKind::Progress(id));
        let power = match self.item(id) {
            Some(d) => if d.shutdown_after {
                Some(d.shutdown_action)
            } else {
                None
            },
            None => None,
        };
        if let Some(action) = power {
            self.arm_power_action(action, false);
            return ;
        }
        let (dialog, remove) = self.completion_flags();
        if dialog {
            self.open_window(WinKind::Complete(id));
        } else if remove {
            self.remove_item_opts(id, false);
        }
    }

    fn scanner(&self) -> (r: (String, String))
        ensures
            r.0@ == trimmed(self@.cfg.settings.virus_scanner),
            r.1@ == self@.cfg.settings.virus_args,
    {
        proof {
            reveal(App::model);
        }
        (trim(&self.cfg.settings.virus_scanner), self.cfg.settings.virus_args.clone())
    }

    fn scan_wanted(&self, id: DlId, env: &Env) -> (r: bool)
        ensures
            r == self@.scan_wanted(id, env@),
    {
        let (program, args) = self.scanner();
        !program.as_str().is_empty() && self.item(id).is_some() && env.disk.is_file(&program)
    }

    fn note_no_scanner(&mut self, id: DlId, env: &Env)
        ensures
            final(self)@ == old(self)@.note_no_scanner(id, env@),
    {
        let (program, args) = self.scanner();
        if !program.as_str().is_empty() && self.item(id).is_some() && !env.disk.is_file(&program) {
            self.note(Note::NoScanner { program });
        }
    }

    pub(crate) fn put_scan(&mut self, id: DlId, st: ScanState)
        ensures
            final(self)@ == old(self)@.with_scan(id, st@),
    {
        broadcast use vstd::std_specs::hash::group_hash_axioms;

        proof {
            reveal(App::model);
        }
        let before = self.scans.insert(id, st);
        assert(crate::app::map_models(self.scans@) =~= crate::app::map_models(
            old(self).scans@,
        ).insert(id, st@));
    }

    fn mark_scanning(&mut self, id: DlId, line: String)
        ensures
            final(self)@ == old(self)@.edit_item(id, to_scanning(line@)),
    {
        let mut v = self.take_items();
        set_scanning(&mut v, id, line);
        self.put_items(v);
    }

    fn start_scan(&mut self, id: DlId)
        ensures
            final(self)@ == old(self)@.start_scan(id),
    {
        proof {
            reveal(AppModel::start_scan);
        }
        let path = match self.item(id) {
            Some(d) => d.full_path(),
            None => return ,
        };
        let (program, args) = self.scanner();
        let line = self.tr("Virus scanning...");
        let mut st = ScanState::default();
        st.push(self.tr("Start scanning downloaded data..."), false);
        let args = argv(&args, &path);
        assert(args.deep_view() =~= views(args@));
        self.put_scan(id, st);
        self.mark_scanning(id, line);
        self.emit(Effect::StartScan { id, program, args });
    }
}

// --------------------------------------------------------------------- engine

/// Where a finished file is, and where what was typed puts it.
fn typed_paths(d: DownloadItem, fi: &FileInfoState) -> (r: (String, String))
    ensures
        r.0@ == d@.full_path(),
        r.1@ == to_typed(fi@)(d@).full_path(),
{
    let from = d.full_path();
    let mut d = d;
    crate::edits::adopt_typed(&mut d, fi);
    let to = d.full_path();
    (from, to)
}

impl AppModel {
    /// What is on disk, as the engine reports it: the ranges count wherever
    /// there are any, the plain number only without them.
    pub open spec fn absorb(self, id: DlId, done: u64, held: Seq<Span>) -> AppModel {
        if held.len() > 0 {
            self.edit_item(id, to_held(held, counted(held)))
        } else if done > 0 {
            self.edit_item(id, to_downloaded(done))
        } else {
            self
        }
    }

    pub open spec fn remembers_limit(self, id: DlId) -> bool {
        self.prog.contains_key(id) && self.prog[id].remember_limit
    }

    /// The row's own cap ends with its transfer, unless it is to be remembered.
    pub open spec fn settle_limit(self, id: DlId) -> AppModel {
        if self.remembers_limit(id) {
            self
        } else {
            self.edit_item(id, to_speed_limit(None))
        }
    }

    #[verifier::opaque]
    pub open spec fn on_probed(
        self,
        id: DlId,
        size: Option<u64>,
        ranges: bool,
        file_name: Option<Seq<char>>,
    ) -> AppModel {
        self.edit_item(id, to_resume(ranges)).adopt_probed(id, file_name, size)
    }

    /// Bytes that have arrived since the last report.
    pub open spec fn fresh_bytes(self, id: DlId, total: u64) -> u64 {
        match item_of(self.items(), id) {
            Some(d) => if total > d.downloaded {
                (total - d.downloaded) as u64
            } else {
                0
            },
            None => 0,
        }
    }

    /// The first report of bytes turns "connecting" into "receiving".
    pub open spec fn receive(self, id: DlId) -> AppModel {
        match item_of(self.items(), id) {
            Some(d) => if d.state == DlState::Connecting {
                self.set_item_state(id, DlState::Receiving)
            } else {
                self
            },
            None => self,
        }
    }

    /// Bytes have arrived. They are charged to the download limit, which is
    /// enforced at once rather than at the next tick.
    #[verifier::opaque]
    pub open spec fn on_progress(
        self,
        id: DlId,
        done: u64,
        rate_bits: u64,
        recorded: Option<u64>,
        eta: Option<u64>,
        conns: Seq<ConnRowModel>,
        held: Seq<Span>,
        now: i64,
    ) -> AppModel {
        let total = if held.len() == 0 {
            done
        } else {
            counted(held)
        };
        let s = self.edit_item(
            id,
            to_progress(total, rate_bits, eta, conns, held, recorded),
        ).receive(id).quota_account(self.fresh_bytes(id, total), now);
        if s.quota_exhausted() {
            s.quota_park()
        } else {
            s
        }
    }

    /// What was typed into the dialog that is still open is carried over, and
    /// the finished file follows it.
    pub open spec fn adopt_typed(self, id: DlId, env: EnvModel) -> AppModel {
        match item_of(self.items(), id) {
            Some(d) if self.file_info.is_new && self.shows_info_of(id) => {
                let s = self.edit_item(id, to_typed(self.file_info));
                let from = d.full_path();
                let to = to_typed(self.file_info)(d).full_path();
                if to != from && env.disk.is_file(from) {
                    s.emit(EffectModel::MoveFile { from, to, provisional: Some(id) })
                } else {
                    s
                }
            },
            _ => self,
        }
    }

    /// The dialog that asked about a new download goes once its file is there.
    pub open spec fn close_new_info(self, id: DlId) -> AppModel {
        if self.file_info.is_new && self.shows_info_of(id) {
            self.close_window(WinKind::FileInfo(id))
        } else {
            self
        }
    }

    /// The finished file goes to the scanner, where there is one; otherwise
    /// the download is complete.
    pub open spec fn after_finish(self, id: DlId, env: EnvModel) -> AppModel {
        (if self.scan_wanted(id, env) {
            self.start_scan(id)
        } else {
            self.note_no_scanner(id, env).finish_completion(id)
        }).queue_tick(env)
    }

    #[verifier::opaque]
    pub open spec fn on_finished(self, id: DlId, len: u64, tenths: u64, env: EnvModel) -> AppModel {
        let s = self.note(NoteModel::Complete { id, bytes: len, tenths });
        if is_pending(s.pending_delete, id) {
            s.honour_delete(id)
        } else {
            s.settle_limit(id).edit_item(
                id,
                to_finished(len, s.tr("Complete"@)),
            ).adopt_typed(id, env).save_state().close_new_info(id).after_finish(id, env)
        }
    }

    /// The line that a stopped row shows: whose doing the stop was.
    pub open spec fn stop_line(self, id: DlId) -> Seq<char> {
        match item_of(self.items(), id) {
            Some(d) if d.limit_paused => self.tr("Download limit reached"@),
            _ => self.tr("Pause"@),
        }
    }

    pub open spec fn disconnect(self, id: DlId) -> AppModel {
        self.edit_item(id, to_disconnected(self.tr("Disconnect."@)))
    }

    /// The row rests, with what it holds and whose doing it was.
    pub open spec fn rest_row(self, id: DlId, done: u64, held: Seq<Span>) -> AppModel {
        let line = self.stop_line(id);
        self.set_item_state(id, DlState::Paused).absorb(id, done, held).settle_limit(id).status(
            id,
            line,
        ).disconnect(id)
    }

    #[verifier::opaque]
    pub open spec fn on_stopped(self, id: DlId, done: u64, held: Seq<Span>, env: EnvModel) -> AppModel {
        if is_pending(self.pending_delete, id) {
            self.honour_delete(id)
        } else {
            self.rest_row(id, done, held).save_state().queue_tick(env)
        }
    }

    /// How many retries the running queue of a row allows.
    pub open spec fn retry_budget(self, id: DlId) -> Option<u32> {
        match item_of(self.items(), id) {
            Some(d) => match d.queue {
                Some(qn) => match queue_of(self.queues(), qn) {
                    Some(q) if q.running && q.schedule.retries_enabled => Some(q.schedule.retries),
                    _ => None,
                },
                None => None,
            },
            None => None,
        }
    }

    /// Whether a failed row is tried again.
    pub open spec fn retries(self, id: DlId) -> bool {
        match (item_of(self.items(), id), self.retry_budget(id)) {
            (Some(d), Some(budget)) => d.retries < budget,
            _ => false,
        }
    }

    /// A failed row of a running queue goes back to waiting.
    pub open spec fn retry(self, id: DlId, error: Seq<char>, done: u64, held: Seq<Span>) -> AppModel {
        match (item_of(self.items(), id), self.retry_budget(id)) {
            (Some(d), Some(most)) => {
                let nth = (d.retries + 1) as u32;
                self.edit_item(id, to_retry(nth)).absorb(id, done, held).note(
                    NoteModel::Retry { id, nth, most, error },
                )
            },
            _ => self,
        }
    }

    /// The row has failed.
    #[verifier::opaque]
    pub open spec fn fail_row(
        self,
        id: DlId,
        error: Seq<char>,
        done: u64,
        held: Seq<Span>,
        env: EnvModel,
    ) -> AppModel {
        self.absorb(id, done, held).edit_item(id, to_failed(error, error)).disconnect(id).play(
            1,
            sounds::Event::DownloadFailed,
        ).save_state().queue_tick(env)
    }

    #[verifier::opaque]
    pub open spec fn on_failed(
        self,
        id: DlId,
        error: Seq<char>,
        done: u64,
        held: Seq<Span>,
        permission_denied: bool,
        env: EnvModel,
    ) -> AppModel {
        if is_pending(self.pending_delete, id) {
            self.honour_delete(id)
        } else if permission_denied {
            self.emit(
                EffectModel::Pick(
                    PickModel::Grant {
                        id,
                        start_dir: match item_of(self.items(), id) {
                            Some(d) => Some(d.save_dir),
                            None => None,
                        },
                        error,
                        done,
                        held,
                    },
                ),
            )
        } else if self.retries(id) {
            self.retry(id, error, done, held).save_state().queue_tick(env)
        } else {
            self.fail_row(id, error, done, held, env)
        }
    }

    /// A folder was chosen for a transfer that was refused its own, or not.
    #[verifier::opaque]
    pub open spec fn on_granted(
        self,
        id: DlId,
        picked: Option<Seq<char>>,
        error: Seq<char>,
        done: u64,
        held: Seq<Span>,
        env: EnvModel,
    ) -> AppModel {
        match picked {
            Some(dir) => {
                let s = self.note(NoteModel::Regranted { id, dir }).edit_item(id, to_granted(dir));
                (if held.len() > 0 {
                    s.edit_item(id, to_spans(held))
                } else {
                    s
                }).save_state().start_download(id, false, env)
            },
            None => self.fail_row(id, error, done, held, env),
        }
    }

    /// What follows from a report of the engine.
    #[verifier::opaque]
    pub open spec fn on_engine(self, ev: Event, env: EnvModel) -> AppModel {
        match ev {
            Event::Probed { id, size, ranges, file_name } => self.on_probed(
                id,
                size,
                ranges,
                file_name.deep_view(),
            ),
            Event::Status { id, line } => self.status(id, line@),
            Event::Progress { id, done, rate_bits, recorded_bits, eta, conns, held } =>
                self.on_progress(
                    id,
                    done,
                    rate_bits,
                    recorded_bits,
                    eta,
                    conns.deep_view(),
                    held@,
                    env.now,
                ),
            Event::Finished { id, len, tenths } => self.on_finished(id, len, tenths, env),
            Event::Stopped { id, done, held } => self.on_stopped(id, done, held@, env),
            Event::Failed { id, error, done, held, permission_denied } => self.on_failed(
                id,
                error@,
                done,
                held@,
                permission_denied,
                env,
            ),
        }
    }
}

impl App {
    fn absorb(&mut self, id: DlId, done: u64, held: &Vec<Span>)
        ensures
            final(self)@ == old(self)@.absorb(id, done, held@),
    {
        if held.len() > 0 {
            let bytes = sum_spans(held.as_slice());
            let mut v = self.take_items();
            set_held(&mut v, id, copy_spans(held), bytes);
            self.put_items(v);
        } else if done > 0 {
            let mut v = self.take_items();
            set_downloaded(&mut v, id, done);
            self.put_items(v);
        }
    }

    fn remembers_limit(&self, id: DlId) -> (r: bool)
        ensures
            r == self@.remembers_limit(id),
    {
        broadcast use vstd::std_specs::hash::group_hash_axioms;

        proof {
            reveal(App::model);
        }
        match self.prog.get(&id) {
            Some(p) => p.remember_limit,
            None => false,
        }
    }

    fn settle_limit(&mut self, id: DlId)
        ensures
            final(self)@ == old(self)@.settle_limit(id),
    {
        if !self.remembers_limit(id) {
            let mut v = self.take_items();
            set_speed_limit(&mut v, id, None);
            self.put_items(v);
        }
    }

    fn on_probed(
        &mut self,
        id: DlId,
        size: Option<u64>,
        ranges: bool,
        file_name: Option<String>,
    )
        ensures
            final(self)@ == old(self)@.on_probed(id, size, ranges, file_name.deep_view()),
    {
        proof {
            reveal(AppModel::on_probed);
        }
        let mut v = self.take_items();
        set_resume(&mut v, id, ranges);
        self.put_items(v);
        self.adopt_probed(id, file_name, size);
    }

    fn receive(&mut self, id: DlId)
        ensures
            final(self)@ == old(self)@.receive(id),
    {
        let connecting = match self.item(id) {
            Some(d) => d.state == DlState::Connecting,
            None => false,
        };
        if connecting {
            self.set_item_state(id, DlState::Receiving);
        }
    }

    fn fresh_bytes(&self, id: DlId, total: u64) -> (r: u64)
        ensures
            r == self@.fresh_bytes(id, total),
    {
        match self.item(id) {
            Some(d) => total.saturating_sub(d.downloaded),
            None => 0,
        }
    }

    fn record_progress(
        &mut self,
        id: DlId,
        total: u64,
        rate_bits: u64,
        eta: Option<u64>,
        conns: Vec<ConnRow>,
        held: Vec<Span>,
        recorded: Option<u64>,
    )
        ensures
            final(self)@ == old(self)@.edit_item(
                id,
                to_progress(total, rate_bits, eta, conns.deep_view(), held@, recorded),
            ),
    {
        let mut v = self.take_items();
        set_progress(&mut v, id, total, rate_bits, eta, conns, held, recorded);
        self.put_items(v);
    }

    fn on_progress(
        &mut self,
        id: DlId,
        done: u64,
        rate_bits: u64,
        recorded: Option<u64>,
        eta: Option<u64>,
        conns: Vec<ConnRow>,
        held: Vec<Span>,
        now: i64,
    )
        ensures
            final(self)@ == old(self)@.on_progress(
                id,
                done,
                rate_bits,
                recorded,
                eta,
                conns.deep_view(),
                held@,
                now,
            ),
    {
        proof {
            reveal(AppModel::on_progress);
        }
        let total: u64 = if held.len() == 0 {
            done
        } else {
            sum_spans(held.as_slice())
        };
        let fresh = self.fresh_bytes(id, total);
        self.record_progress(id, total, rate_bits, eta, conns, held, recorded);
        self.receive(id);
        self.quota_account(fresh, now);
        if self.quota_exhausted() {
            self.quota_park();
        }
    }

    fn edit_typed(&mut self, id: DlId, fi: &FileInfoState)
        ensures
            final(self)@ == old(self)@.edit_item(id, to_typed(fi@)),
    {
        let mut v = self.take_items();
        set_typed(&mut v, id, fi);
        self.put_items(v);
    }

    fn adopt_typed(&mut self, id: DlId, env: &Env)
        ensures
            final(self)@ == old(self)@.adopt_typed(id, env@),
    {
        let fi = self.file_info_copy();
        if !fi.is_new || !self.shows_info_of(id) {
            return ;
        }
        let d = match self.item_copy(id) {
            Some(d) => d,
            None => return ,
        };
        let (from, to) = typed_paths(d, &fi);
        self.edit_typed(id, &fi);
        if !same(&to, &from) && env.disk.is_file(&from) {
            self.emit(Effect::MoveFile { from, to, provisional: Some(id) });
        }
    }

    fn close_new_info(&mut self, id: DlId)
        ensures
            final(self)@ == old(self)@.close_new_info(id),
    {
        let is_new = self.file_info_copy().is_new;
        if is_new && self.shows_info_of(id) {
            self.close_window(WinKind::FileInfo(id));
        }
    }

    fn after_finish(&mut self, id: DlId, env: &Env)
        ensures
            final(self)@ == old(self)@.after_finish(id, env@),
    {
        if self.scan_wanted(id, env) {
            self.start_scan(id);
        } else {
            self.note_no_scanner(id, env);
            self.finish_completion(id);
        }
        self.queue_tick(env);
    }

    fn mark_finished(&mut self, id: DlId, len: u64, line: String)
        ensures
            final(self)@ == old(self)@.edit_item(id, to_finished(len, line@)),
    {
        let mut v = self.take_items();
        set_finished(&mut v, id, len, line);
        self.put_items(v);
    }

    fn on_finished(&mut self, id: DlId, len: u64, tenths: u64, env: &Env)
        ensures
            final(self)@ == old(self)@.on_finished(id, len, tenths, env@),
    {
        proof {
            reveal(AppModel::on_finished);
        }
        self.note(Note::Complete { id, bytes: len, tenths });
        if self.is_pending(id) {
            self.honour_delete(id);
            return ;
        }
        let line = self.tr("Complete");
        self.settle_limit(id);
        self.mark_finished(id, len, line);
        self.adopt_typed(id, env);
        self.save_state();
        self.close_new_info(id);
        self.after_finish(id, env);
    }

    fn stop_line(&self, id: DlId) -> (r: String)
        ensures
            r@ == self@.stop_line(id),
    {
        let limited = match self.item(id) {
            Some(d) => d.limit_paused,
            None => false,
        };
        if limited {
            self.tr("Download limit reached")
        } else {
            self.tr("Pause")
        }
    }

    fn disconnect(&mut self, id: DlId)
        ensures
            final(self)@ == old(self)@.disconnect(id),
    {
        let line = self.tr("Disconnect.");
        let mut v = self.take_items();
        set_disconnected(&mut v, id, &line);
        self.put_items(v);
    }

    fn rest_row(&mut self, id: DlId, done: u64, held: &Vec<Span>)
        ensures
            final(self)@ == old(self)@.rest_row(id, done, held@),
    {
        let line = self.stop_line(id);
        self.set_item_state(id, DlState::Paused);
        self.absorb(id, done, held);
        self.settle_limit(id);
        self.status(id, line);
        self.disconnect(id);
    }

    fn on_stopped(&mut self, id: DlId, done: u64, held: &Vec<Span>, env: &Env)
        ensures
            final(self)@ == old(self)@.on_stopped(id, done, held@, env@),
    {
        proof {
            reveal(AppModel::on_stopped);
        }
        if self.is_pending(id) {
            self.honour_delete(id);
            return ;
        }
        self.rest_row(id, done, held);
        self.save_state();
        self.queue_tick(env);
    }

    fn retry_budget(&self, id: DlId) -> (r: Option<u32>)
        ensures
            r == self@.retry_budget(id),
    {
        let qn = match self.item(id) {
            Some(d) => match &d.queue {
                Some(q) => q.clone(),
                None => return None,
            },
            None => return None,
        };
        match self.queue_copy(&qn) {
            Some(q) => if q.running && q.schedule.retries_enabled {
                Some(q.schedule.retries)
            } else {
                None
            },
            None => None,
        }
    }

    fn retries(&self, id: DlId) -> (r: bool)
        ensures
            r == self@.retries(id),
    {
        match (self.item(id), self.retry_budget(id)) {
            (Some(d), Some(budget)) => d.retries < budget,
            _ => false,
        }
    }

    fn retry(&mut self, id: DlId, error: String, done: u64, held: &Vec<Span>)
        requires
            old(self)@.retries(id),
        ensures
            final(self)@ == old(self)@.retry(id, error@, done, held@),
    {
        let most: u32 = match self.retry_budget(id) {
            Some(b) => b,
            None => return ,
        };
        let nth: u32 = match self.item(id) {
            Some(d) => d.retries + 1,
            None => return ,
        };
        let mut v = self.take_items();
        set_retry(&mut v, id, nth);
        self.put_items(v);
        self.absorb(id, done, held);
        self.note(Note::Retry { id, nth, most, error });
    }

    fn mark_failed(&mut self, id: DlId, error: String)
        ensures
            final(self)@ == old(self)@.edit_item(id, to_failed(error@, error@)),
    {
        let line = error.clone();
        let mut v = self.take_items();
        set_failed(&mut v, id, error, line);
        self.put_items(v);
    }

    fn fail_row(&mut self, id: DlId, error: String, done: u64, held: &Vec<Span>, env: &Env)
        ensures
            final(self)@ == old(self)@.fail_row(id, error@, done, held@, env@),
    {
        proof {
            reveal(AppModel::fail_row);
        }
        self.absorb(id, done, held);
        self.mark_failed(id, error);
        self.disconnect(id);
        self.play(1, sounds::Event::DownloadFailed);
        self.save_state();
        self.queue_tick(env);
    }

    fn on_failed(
        &mut self,
        id: DlId,
        error: String,
        done: u64,
        held: Vec<Span>,
        permission_denied: bool,
        env: &Env,
    )
        ensures
            final(self)@ == old(self)@.on_failed(
                id,
                error@,
                done,
                held@,
                permission_denied,
                env@,
            ),
    {
        proof {
            reveal(AppModel::on_failed);
        }
        if self.is_pending(id) {
            self.honour_delete(id);
        } else if permission_denied {
            let start_dir = match self.item(id) {
                Some(d) => Some(d.save_dir.clone()),
                None => None,
            };
            self.emit(Effect::Pick(Pick::Grant { id, start_dir, error, done, held }));
        } else if self.retries(id) {
            self.retry(id, error, done, &held);
            self.save_state();
            self.queue_tick(env);
        } else {
            self.fail_row(id, error, done, &held, env);
        }
    }

    fn grant(&mut self, id: DlId, dir: String)
        ensures
            final(self)@ == old(self)@.edit_item(id, to_granted(dir@)),
    {
        let mut v = self.take_items();
        set_granted(&mut v, id, dir);
        self.put_items(v);
    }

    fn keep_spans(&mut self, id: DlId, held: &Vec<Span>)
        ensures
            final(self)@ == old(self)@.edit_item(id, to_spans(held@)),
    {
        let mut v = self.take_items();
        set_spans(&mut v, id, copy_spans(held));
        self.put_items(v);
    }

    /// A folder chosen through the system's own picker is implicitly granted,
    /// so the transfer resumes right there.
    pub(crate) fn on_granted(
        &mut self,
        id: DlId,
        picked: Option<String>,
        error: String,
        done: u64,
        held: &Vec<Span>,
        env: &Env,
    )
        ensures
            final(self)@ == old(self)@.on_granted(
                id,
                picked.deep_view(),
                error@,
                done,
                held@,
                env@,
            ),
    {
        proof {
            reveal(AppModel::on_granted);
        }
        match picked {
            Some(dir) => {
                self.note(Note::Regranted { id, dir: dir.clone() });
                self.grant(id, dir);
                if held.len() > 0 {
                    self.keep_spans(id, held);
                }
                self.save_state();
                self.start_download(id, false, env);
            },
            None => self.fail_row(id, error, done, held, env),
        }
    }

    pub fn on_engine(&mut self, ev: Event, env: &Env)
        ensures
            final(self)@ == old(self)@.on_engine(ev, env@),
    {
        proof {
            reveal(AppModel::on_engine);
        }
        match ev {
            Event::Probed { id, size, ranges, file_name } => {
                self.on_probed(id, size, ranges, file_name)
            },
            Event::Status { id, line } => self.status(id, line),
            Event::Progress { id, done, rate_bits, recorded_bits, eta, conns, held } => {
                self.on_progress(id, done, rate_bits, recorded_bits, eta, conns, held, env.now)
            },
            Event::Finished { id, len, tenths } => self.on_finished(id, len, tenths, env),
            Event::Stopped { id, done, held } => self.on_stopped(id, done, &held, env),
            Event::Failed { id, error, done, held, permission_denied } => {
                self.on_failed(id, error, done, held, permission_denied, env)
            },
        }
    }
}

} // verus!
