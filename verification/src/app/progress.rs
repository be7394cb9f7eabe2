//! The progress dialog of a download, and the verdict of a virus scan shown in
//! it.
use crate::app::{App, AppModel, Env, EnvModel};
use crate::downloads::{counter, item_of};
use crate::edits::{
    set_shutdown_action, set_shutdown_after, set_speed_limit, to_shutdown_action, to_shutdown_after,
    to_speed_limit,
};
use crate::effect::{Effect, EffectModel};
use crate::engine::{Cmd, CmdModel};
use crate::model::{DlId, PowerAction, Switches};
use crate::notes::{Note, NoteModel};
use crate::scan::{Outcome, OutcomeModel, ScanEvent};
use crate::state::{ProgState, ProgStateModel, ProgTab, ScanState, ScanStateModel, WinKind};
use crate::text::{cat3, chars_of, is_digit, parse_number, spelled_up_to};
use crate::twin::Twin;
use vstd::prelude::*;
use vstd::std_specs::iter::IteratorSpec;

verus! {

impl AppModel {
    /// The dialog's state; a dialog that has none yet starts blank.
    pub open spec fn prog_of(self, id: DlId) -> ProgStateModel {
        if self.prog.contains_key(id) {
            self.prog[id]
        } else {
            ProgStateModel::empty()
        }
    }

    pub open spec fn with_prog(self, id: DlId, p: ProgStateModel) -> AppModel {
        AppModel { prog: self.prog.insert(id, p), ..self }
    }

    #[verifier::opaque]
    pub open spec fn prog_tab_set(self, id: DlId, tab: ProgTab) -> AppModel {
        self.with_prog(id, ProgStateModel { tab, ..self.prog_of(id) })
    }

    /// The details are shown or hidden, and the window follows.
    #[verifier::opaque]
    pub open spec fn prog_toggle_details(self, id: DlId) -> AppModel {
        let p = self.prog_of(id);
        self.with_prog(id, ProgStateModel { details: !p.details, ..p }).resize_open(
            WinKind::Progress(id),
        )
    }

    #[verifier::opaque]
    pub open spec fn prog_pause_resume(self, id: DlId, env: EnvModel) -> AppModel {
        if crate::app::transfers::is_active(self.items(), id) {
            self.stop_download(id)
        } else {
            self.start_download(id, false, env)
        }
    }

    /// Cancel pauses the transfer, keeps the row and what is on disk, and
    /// dismisses the dialog.
    #[verifier::opaque]
    pub open spec fn prog_cancel(self, id: DlId) -> AppModel {
        (if crate::app::transfers::is_active(self.items(), id) {
            self.stop_download(id)
        } else {
            self
        }).close_window(WinKind::Progress(id))
    }

    #[verifier::opaque]
    pub open spec fn prog_hide_tab(self, id: DlId, speed: bool) -> AppModel {
        self.with_switches(without_tab(self.cfg.settings.on, speed)).prog_tab_set(
            id,
            ProgTab::Status,
        ).save_config()
    }

    #[verifier::opaque]
    pub open spec fn prog_limit_remember(self, id: DlId, b: bool) -> AppModel {
        self.with_prog(id, ProgStateModel { remember_limit: b, ..self.prog_of(id) })
    }

    /// The row's own cap is switched on or off, and the engine is told the cap
    /// that is now in force.
    #[verifier::opaque]
    pub open spec fn prog_limit_on(self, id: DlId, on: bool) -> AppModel {
        let p = self.prog_of(id);
        let s = self.with_prog(id, ProgStateModel { limit_on: on, ..p }).edit_item(
            id,
            to_speed_limit(
                if on {
                    Some(typed_limit(p.limit_kb))
                } else {
                    None
                },
            ),
        );
        s.tell(
            CmdModel::SetLimit(
                id,
                match item_of(s.items(), id) {
                    Some(d) => s.effective_limit(d),
                    None => None,
                },
            ),
        )
    }

    /// The cap was typed: digits only, and no more than nine.
    #[verifier::opaque]
    pub open spec fn prog_limit_kb(self, id: DlId, text: Seq<char>) -> AppModel {
        if few_digits(text) {
            let p = self.prog_of(id);
            let s = self.with_prog(id, ProgStateModel { limit_kb: text, ..p });
            if p.limit_on {
                let lim = Some(typed_limit(text));
                s.edit_item(id, to_speed_limit(lim)).tell(CmdModel::SetLimit(id, lim))
            } else {
                s
            }
        } else {
            self
        }
    }
}

/// The switches with the speed tab, or else the completion tab, hidden.
#[verifier::opaque]
pub open spec fn without_tab(on: Switches, speed: bool) -> Switches {
    if speed {
        Switches { show_speed_tab: false, ..on }
    } else {
        Switches { show_completion_tab: false, ..on }
    }
}

fn hide_tab(on: Switches, speed: bool) -> (r: Switches)
    ensures
        r == without_tab(on, speed),
{
    proof {
        reveal(without_tab);
    }
    if speed {
        Switches { show_speed_tab: false, ..on }
    } else {
        Switches { show_completion_tab: false, ..on }
    }
}

/// A cap in bytes per second, as typed in kilobytes; ten where it is no number.
pub open spec fn typed_limit(kb: Seq<char>) -> u64 {
    counter(
        (match spelled_up_to(kb, u64::MAX as int) {
            Some(n) => n as int,
            None => 10,
        }) * 1024,
    ) as u64
}

pub open spec fn few_digits(s: Seq<char>) -> bool {
    s.len() <= 9 && forall|i: int| 0 <= i < s.len() ==> is_digit(#[trigger] s[i])
}

fn limit_of(kb: &str) -> (r: u64)
    ensures
        r == typed_limit(kb@),
{
    let n: u64 = match parse_number(kb, u64::MAX) {
        Some(n) => n,
        None => 10,
    };
    crate::downloads::capped_product(n, 1024)
}

fn has_few_digits(s: &str) -> (r: bool)
    ensures
        r == few_digits(s@),
{
    let c = chars_of(s);
    if c.len() > 9 {
        return false;
    }
    let mut i: usize = 0;
    while i < c.len()
        invariant
            i <= c@.len(),
            c@ == s@,
            forall|k: int| 0 <= k < i ==> is_digit(#[trigger] c@[k]),
        decreases c.len() - i,
    {
        if c[i] < '0' || c[i] > '9' {
            assert(!is_digit(s@[i as int]));
            return false;
        }
        i += 1;
    }
    true
}

impl App {
    fn prog_of(&self, id: DlId) -> (r: ProgState)
        ensures
            r@ == self@.prog_of(id),
    {
        broadcast use vstd::std_specs::hash::group_hash_axioms;

        proof {
            reveal(App::model);
        }
        match self.prog.get(&id) {
            Some(p) => p.twin(),
            None => ProgState::default(),
        }
    }

    fn put_prog(&mut self, id: DlId, p: ProgState)
        ensures
            final(self)@ == old(self)@.with_prog(id, p@),
    {
        broadcast use vstd::std_specs::hash::group_hash_axioms;

        proof {
            reveal(App::model);
        }
        let before = self.prog.insert(id, p);
        assert(crate::app::map_models(self.prog@) =~= crate::app::map_models(
            old(self).prog@,
        ).insert(id, p@));
    }

    pub(crate) fn prog_tab_set(&mut self, id: DlId, tab: ProgTab)
        ensures
            final(self)@ == old(self)@.prog_tab_set(id, tab),
    {
        proof {
            reveal(AppModel::prog_tab_set);
        }
        let mut p = self.prog_of(id);
        p.tab = tab;
        self.put_prog(id, p);
    }

    pub(crate) fn prog_toggle_details(&mut self, id: DlId)
        ensures
            final(self)@ == old(self)@.prog_toggle_details(id),
    {
        proof {
            reveal(AppModel::prog_toggle_details);
        }
        let mut p = self.prog_of(id);
        p.details = !p.details;
        self.put_prog(id, p);
        self.resize_open(WinKind::Progress(id));
    }

    pub(crate) fn prog_pause_resume(&mut self, id: DlId, env: &Env)
        ensures
            final(self)@ == old(self)@.prog_pause_resume(id, env@),
    {
        proof {
            reveal(AppModel::prog_pause_resume);
        }
        if self.item_active(id) {
            self.stop_download(id);
        } else {
            self.start_download(id, false, env);
        }
    }

    pub(crate) fn prog_cancel(&mut self, id: DlId)
        ensures
            final(self)@ == old(self)@.prog_cancel(id),
    {
        proof {
            reveal(AppModel::prog_cancel);
        }
        if self.item_active(id) {
            self.stop_download(id);
        }
        self.close_window(WinKind::Progress(id));
    }

    pub(crate) fn prog_hide_tab(&mut self, id: DlId, speed: bool)
        ensures
            final(self)@ == old(self)@.prog_hide_tab(id, speed),
    {
        proof {
            reveal(AppModel::prog_hide_tab);
        }
        let on = self.switches();
        self.set_switches(hide_tab(on, speed));
        self.prog_tab_set(id, ProgTab::Status);
        self.save_config();
    }

    pub(crate) fn prog_limit_remember(&mut self, id: DlId, b: bool)
        ensures
            final(self)@ == old(self)@.prog_limit_remember(id, b),
    {
        proof {
            reveal(AppModel::prog_limit_remember);
        }
        let mut p = self.prog_of(id);
        p.remember_limit = b;
        self.put_prog(id, p);
    }

    fn edit_speed_limit(&mut self, id: DlId, limit: Option<u64>)
        ensures
            final(self)@ == old(self)@.edit_item(id, to_speed_limit(limit)),
    {
        let mut v = self.take_items();
        set_speed_limit(&mut v, id, limit);
        self.put_items(v);
    }

    fn limit_in_force(&self, id: DlId) -> (r: Option<u64>)
        ensures
            r == (match item_of(self@.items(), id) {
                Some(d) => self@.effective_limit(d),
                None => None,
            }),
    {
        match self.item(id) {
            Some(d) => self.effective_limit(d),
            None => None,
        }
    }

    pub(crate) fn prog_limit_on(&mut self, id: DlId, on: bool)
        ensures
            final(self)@ == old(self)@.prog_limit_on(id, on),
    {
        proof {
            reveal(AppModel::prog_limit_on);
        }
        let mut p = self.prog_of(id);
        let limit = if on {
            Some(limit_of(&p.limit_kb))
        } else {
            None
        };
        p.limit_on = on;
        self.put_prog(id, p);
        self.edit_speed_limit(id, limit);
        let lim = self.limit_in_force(id);
        self.tell(Cmd::SetLimit(id, lim));
    }

    pub(crate) fn prog_limit_kb(&mut self, id: DlId, text: String)
        ensures
            final(self)@ == old(self)@.prog_limit_kb(id, text@),
    {
        proof {
            reveal(AppModel::prog_limit_kb);
        }
        if !has_few_digits(&text) {
            return ;
        }
        let mut p = self.prog_of(id);
        let on = p.limit_on;
        let lim = limit_of(&text);
        p.limit_kb = text;
        self.put_prog(id, p);
        if on {
            self.edit_speed_limit(id, Some(lim));
            self.tell(Cmd::SetLimit(id, Some(lim)));
        }
    }
}

// -------------------------------------------------------------------- the rest

impl AppModel {
    #[verifier::opaque]
    pub open spec fn prog_shutdown_after(self, id: DlId, b: bool) -> AppModel {
        self.edit_item(id, to_shutdown_after(b)).save_state()
    }

    #[verifier::opaque]
    pub open spec fn prog_shutdown_action(self, id: DlId, a: PowerAction) -> AppModel {
        self.edit_item(id, to_shutdown_action(a)).save_state()
    }

    #[verifier::opaque]
    pub open spec fn prog_remove_completed(self, b: bool) -> AppModel {
        self.with_switches(
            Switches { remove_completed: b, ..self.cfg.settings.on },
        ).save_config()
    }

    /// Opens the finished file, or its folder, and dismisses the dialog.
    #[verifier::opaque]
    pub open spec fn open_finished(self, id: DlId, folder: bool) -> AppModel {
        (match item_of(self.items(), id) {
            Some(d) => self.emit(
                EffectModel::OpenPath(
                    if folder {
                        d.save_dir
                    } else {
                        d.full_path()
                    },
                ),
            ),
            None => self,
        }).close_window(WinKind::Complete(id)).complete_dismissed(id)
    }
}

impl App {
    pub(crate) fn prog_shutdown_after(&mut self, id: DlId, b: bool)
        ensures
            final(self)@ == old(self)@.prog_shutdown_after(id, b),
    {
        proof {
            reveal(AppModel::prog_shutdown_after);
        }
        let mut v = self.take_items();
        set_shutdown_after(&mut v, id, b);
        self.put_items(v);
        self.save_state();
    }

    pub(crate) fn prog_shutdown_action(&mut self, id: DlId, a: PowerAction)
        ensures
            final(self)@ == old(self)@.prog_shutdown_action(id, a),
    {
        proof {
            reveal(AppModel::prog_shutdown_action);
        }
        let mut v = self.take_items();
        set_shutdown_action(&mut v, id, a);
        self.put_items(v);
        self.save_state();
    }

    pub(crate) fn prog_remove_completed(&mut self, b: bool)
        ensures
            final(self)@ == old(self)@.prog_remove_completed(b),
    {
        proof {
            reveal(AppModel::prog_remove_completed);
        }
        let on = self.switches();
        self.set_switches(Switches { remove_completed: b, ..on });
        self.save_config();
    }

    pub(crate) fn open_finished(&mut self, id: DlId, folder: bool)
        ensures
            final(self)@ == old(self)@.open_finished(id, folder),
    {
        proof {
            reveal(AppModel::open_finished);
        }
        let path = match self.item(id) {
            Some(d) => Some(
                if folder {
                    d.save_dir.clone()
                } else {
                    d.full_path()
                },
            ),
            None => None,
        };
        if let Some(p) = path {
            self.emit(Effect::OpenPath(p));
        }
        self.close_window(WinKind::Complete(id));
        self.complete_dismissed(id);
    }
}

// ------------------------------------------------------------------------ scan

/// What a verdict reads as, and whether the dialog stays open for it: an
/// infected or unscannable file is reported, never deleted behind the user's
/// back.
pub open spec fn verdict_words(o: OutcomeModel, t: crate::i18n::Texts) -> Seq<char> {
    match o {
        OutcomeModel::Clean => crate::i18n::translated(t, "No virus found"@),
        OutcomeModel::Infected(sig) => if sig.len() == 0 {
            crate::i18n::translated(t, "Virus detected"@)
        } else {
            crate::i18n::translated(t, "Virus detected"@) + ": "@ + sig
        },
        OutcomeModel::Failed(e) => crate::i18n::translated(t, "Virus scan failed"@) + ": "@ + e,
    }
}

impl AppModel {
    /// Some file is still being scanned.
    pub open spec fn scanning(self) -> bool {
        exists|id: u64| self.scans.contains_key(id) && (#[trigger] self.scans[id]).running()
    }

    pub open spec fn without_scan(self, id: DlId) -> AppModel {
        AppModel { scans: self.scans.remove(id), ..self }
    }

    /// The user would not wait: the scan is called off and the download is
    /// complete.
    #[verifier::opaque]
    pub open spec fn scan_skip(self, id: DlId) -> AppModel {
        let s = self.drop_scan(id);
        s.status(id, s.tr("Complete"@)).finish_completion(id)
    }

    #[verifier::opaque]
    pub open spec fn scan_keep(self, id: DlId) -> AppModel {
        self.without_scan(id).close_window(WinKind::Progress(id))
    }

    #[verifier::opaque]
    pub open spec fn scan_delete(self, id: DlId) -> AppModel {
        self.without_scan(id).close_window(WinKind::Progress(id)).remove_item_opts(id, true)
    }

    #[verifier::opaque]
    pub open spec fn scan_line(self, id: DlId, text: Seq<char>, redraw: bool) -> AppModel {
        if self.scans.contains_key(id) {
            self.with_scan(id, self.scans[id].push(text, redraw))
        } else {
            self
        }
    }

    /// A scan has ended. A verdict nobody waits for is dropped; a clean file
    /// completes its download, any other keeps the dialog open.
    #[verifier::opaque]
    pub open spec fn scan_done(self, id: DlId, o: OutcomeModel) -> AppModel {
        if !self.scans.contains_key(id) {
            self
        } else {
            let line = verdict_words(o, self.lang);
            let st = self.scans[id].push(line, false);
            let s = self.with_scan(id, ScanStateModel { outcome: Some(o), ..st }).status(id, line);
            if o is Clean {
                s.finish_scan(id)
            } else {
                s.note(NoteModel::ScanKept { id })
            }
        }
    }

    pub open spec fn finish_scan(self, id: DlId) -> AppModel {
        let s = self.without_scan(id);
        s.status(id, s.tr("Complete"@)).finish_completion(id)
    }

    #[verifier::opaque]
    pub open spec fn on_scan(self, ev: ScanEvent) -> AppModel {
        match ev {
            ScanEvent::Line { id, text, redraw } => self.scan_line(id, text@, redraw),
            ScanEvent::Done(id, o) => self.scan_done(id, o@),
        }
    }
}

impl App {
    fn scan_copy(&self, id: DlId) -> (r: Option<ScanState>)
        ensures
            match r {
                Some(st) => self@.scans.contains_key(id) && self@.scans[id] == st@,
                None => !self@.scans.contains_key(id),
            },
    {
        broadcast use vstd::std_specs::hash::group_hash_axioms;

        proof {
            reveal(App::model);
        }
        match self.scans.get(&id) {
            Some(st) => Some(st.twin()),
            None => None,
        }
    }

    /// A virus scanner is still working on some file.
    pub fn scanning(&self) -> (r: bool)
        ensures
            r == self@.scanning(),
    {
        broadcast use vstd::std_specs::hash::group_hash_axioms;

        proof {
            reveal(App::model);
        }
        let ghost m = self.scans@;
        let ghost all = vstd::std_specs::hash::spec_values_iter(&self.scans).remaining();
        proof {
            assert(all.unref().to_set() == m.values());
        }
        for st in it: self.scans.values()
            invariant
                m == self.scans@,
                it.seq() == all,
                all.unref().to_set() == m.values(),
                self@.scans == crate::app::map_models(m),
                forall|k: int| 0 <= k < it.index@ ==> !(#[trigger] all[k])@.running(),
        {
            assert(st == all[it.index@ as int]);
            if st.running() {
                proof {
                    assert(all.unref()[it.index@ as int] == *st);
                    assert(all.unref().to_set().contains(*st));
                    let id = choose|id: u64| m.contains_key(id) && m[id] == *st;
                    assert(self@.scans.contains_key(id) && self@.scans[id].running());
                }
                return true;
            }
        }
        proof {
            assert forall|id: u64| self@.scans.contains_key(id) implies !(
            #[trigger] self@.scans[id]).running() by {
                assert(m.values().contains(m[id]));
                assert(all.unref().to_set().contains(m[id]));
                let k = choose|k: int| 0 <= k < all.unref().len() && all.unref()[k] == m[id];
                assert(!all[k]@.running());
            }
        }
        false
    }

    pub(crate) fn scan_skip(&mut self, id: DlId)
        ensures
            final(self)@ == old(self)@.scan_skip(id),
    {
        proof {
            reveal(AppModel::scan_skip);
        }
        self.drop_scan(id);
        let line = self.tr("Complete");
        self.status(id, line);
        self.finish_completion(id);
    }

    pub(crate) fn scan_keep(&mut self, id: DlId)
        ensures
            final(self)@ == old(self)@.scan_keep(id),
    {
        proof {
            reveal(AppModel::scan_keep);
        }
        self.forget_scan(id);
        self.close_window(WinKind::Progress(id));
    }

    pub(crate) fn scan_delete(&mut self, id: DlId)
        ensures
            final(self)@ == old(self)@.scan_delete(id),
    {
        proof {
            reveal(AppModel::scan_delete);
        }
        self.forget_scan(id);
        self.close_window(WinKind::Progress(id));
        self.remove_item_opts(id, true);
    }

    fn scan_line(&mut self, id: DlId, text: String, redraw: bool)
        ensures
            final(self)@ == old(self)@.scan_line(id, text@, redraw),
    {
        proof {
            reveal(AppModel::scan_line);
        }
        if let Some(st) = self.scan_copy(id) {
            let mut st = st;
            st.push(text, redraw);
            self.put_scan(id, st);
        }
    }

    fn verdict_words(&self, o: &Outcome) -> (r: String)
        ensures
            r@ == verdict_words(o@, self@.lang),
    {
        match o {
            Outcome::Clean => self.tr("No virus found"),
            Outcome::Infected(sig) => if sig.as_str().is_empty() {
                self.tr("Virus detected")
            } else {
                cat3(&self.tr("Virus detected"), ": ", sig)
            },
            Outcome::Failed(e) => cat3(&self.tr("Virus scan failed"), ": ", e),
        }
    }

    fn finish_scan(&mut self, id: DlId)
        ensures
            final(self)@ == old(self)@.finish_scan(id),
    {
        self.forget_scan(id);
        let line = self.tr("Complete");
        self.status(id, line);
        self.finish_completion(id);
    }

    fn scan_done(&mut self, id: DlId, o: Outcome)
        ensures
            final(self)@ == old(self)@.scan_done(id, o@),
    {
        proof {
            reveal(AppModel::scan_done);
        }
        let mut st = match self.scan_copy(id) {
            Some(st) => st,
            None => return ,
        };
        let line = self.verdict_words(&o);
        let clean = match o {
            Outcome::Clean => true,
            _ => false,
        };
        st.push(line.clone(), false);
        st.outcome = Some(o);
        self.put_scan(id, st);
        self.status(id, line);
        if clean {
            self.finish_scan(id);
        } else {
            self.note(Note::ScanKept { id });
        }
    }

    pub fn on_scan(&mut self, ev: ScanEvent)
        ensures
            final(self)@ == old(self)@.on_scan(ev),
    {
        proof {
            reveal(AppModel::on_scan);
        }
        match ev {
            ScanEvent::Line { id, text, redraw } => self.scan_line(id, text, redraw),
            ScanEvent::Done(id, o) => self.scan_done(id, o),
        }
    }
}

} // verus!
