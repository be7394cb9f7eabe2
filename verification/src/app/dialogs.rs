//! Windows that come and go, and the answers given in the confirmation
//! dialog.
use crate::app::menu::completed;
use crate::app::windows::{drop_id, has_id, ids_without, is_win};
use crate::app::{App, AppModel, Env, EnvModel};
use crate::downloads::ids_where;
use crate::effect::{ClipboardUse, Effect, EffectModel};
use crate::model::{DlId, DlState, DownloadItem};
use crate::state::{ConfirmKind, ConfirmKindModel, WinId, WinKind};
use vstd::prelude::*;

verus! {

impl AppModel {
    pub open spec fn delete_each(self, ids: Seq<DlId>, remove_file: bool, ms: u64) -> AppModel
        decreases ids.len(),
    {
        if ids.len() == 0 {
            self
        } else {
            self.delete_each(ids.drop_last(), remove_file, ms).delete_item_opts(
                ids.last(),
                remove_file,
                ms,
            )
        }
    }

    pub open spec fn remove_each(self, ids: Seq<DlId>, remove_file: bool) -> AppModel
        decreases ids.len(),
    {
        if ids.len() == 0 {
            self
        } else {
            self.remove_each(ids.drop_last(), remove_file).remove_item_opts(ids.last(), remove_file)
        }
    }

    /// The question was answered with yes.
    #[verifier::opaque]
    pub open spec fn confirm_yes(self, ms: u64) -> AppModel {
        let files = self.confirm_remove_file;
        let s = AppModel { confirm: None, ..self }.close_window(WinKind::Confirm);
        match self.confirm {
            Some(ConfirmKindModel::DeleteItems(ids)) => s.delete_each(ids, files, ms),
            Some(ConfirmKindModel::DeleteCompleted) => s.remove_each(
                ids_where(s.items(), completed()),
                files,
            ).save_state(),
            Some(ConfirmKindModel::StopWarn { ids, stop_queues }) => s.stop_ids(ids, stop_queues),
            _ => s,
        }
    }

    /// The confirmation dialog went without an answer; an address that waited
    /// for one is forgotten.
    #[verifier::opaque]
    pub open spec fn confirm_closed(self) -> AppModel {
        AppModel { confirm: None, pending_add: None, ..self }
    }

    pub open spec fn untracked(self, id: WinId) -> AppModel {
        self.forget_windows(is_win(id))
    }

    /// Whether the program shows in the Dock is settled: a program that hides
    /// from it does so once its last window is gone.
    pub open spec fn sync_dock(self) -> AppModel {
        self.emit(
            EffectModel::DockSync {
                hide: self.cfg.settings.on.hide_from_taskbar,
                windows: self.windows.len() > 0,
            },
        )
    }

    /// The main window is gone: the program lives on in the tray, where the
    /// settings ask for that and there is one.
    #[verifier::opaque]
    pub open spec fn main_closed(self, env: EnvModel) -> AppModel {
        let s = self.save_all();
        if s.cfg.settings.on.close_to_tray && env.tray_active {
            AppModel { main_id: None, ..s }
        } else {
            s.emit(EffectModel::Exit)
        }
    }

    /// The listing of an archive is gone: back to the dialog it belongs to.
    #[verifier::opaque]
    pub open spec fn listing_closed(self, dl: DlId) -> AppModel {
        match self.win_of(WinKind::FileInfo(dl)) {
            Some(id) => self.emit(EffectModel::FocusWindow(id)),
            None => self,
        }
    }

    /// Closing the new-download dialog is Cancel: its row goes.
    #[verifier::opaque]
    pub open spec fn info_closed(self, dl: DlId, ms: u64) -> AppModel {
        if self.file_info.is_new && self.file_info.dl == dl {
            self.delete_item_opts(dl, false, ms)
        } else {
            self
        }
    }

    /// What follows from a window having closed.
    #[verifier::opaque]
    pub open spec fn after_closed(self, kind: WinKind, env: EnvModel) -> AppModel {
        match kind {
            WinKind::Main => self.main_closed(env),
            WinKind::Confirm => self.confirm_closed(),
            WinKind::FileInfo(dl) => self.info_closed(dl, env.ms),
            WinKind::Complete(dl) => self.complete_dismissed(dl),
            WinKind::ZipPreview(dl) => self.listing_closed(dl),
            WinKind::Power => self.cancel_power_action(),
            WinKind::Update => self.update_closed(),
            _ => self,
        }
    }

    /// A window has closed. One that the program closed itself is off the list
    /// by then, and nothing more follows from it.
    #[verifier::opaque]
    pub open spec fn window_closed(self, id: WinId, env: EnvModel) -> AppModel {
        let s = self.untracked(id).sync_dock();
        match self.kind_of(id) {
            Some(kind) => s.after_closed(kind, env),
            None => s,
        }
    }

    /// The native surfaces a new window brings along.
    #[verifier::opaque]
    pub open spec fn dress_window(self, id: WinId) -> AppModel {
        let hide = self.cfg.settings.on.hide_from_taskbar;
        let s = self.emit(EffectModel::DockSync { hide, windows: true }).emit(
            EffectModel::InstallMenu,
        ).emit(EffectModel::InstallTray).emit(EffectModel::SkipTaskbar(id, hide));
        match self.kind_of(id) {
            Some(kind) => match self.parent_of(kind) {
                Some(parent) => s.emit(EffectModel::AttachWindow { child: id, parent }),
                None => s,
            },
            None => s,
        }
    }

    /// How a new window comes up: above the browser after a capture, minimized
    /// where a started download asks for that, focused otherwise.
    #[verifier::opaque]
    pub open spec fn reveal_window(self, id: WinId) -> AppModel {
        if self.raises(id) {
            AppModel { capture_raise: false, ..self }.emit(EffectModel::RaiseWindow(id))
        } else if self.minimize_on_open.contains(id) {
            AppModel {
                minimize_on_open: ids_without(self.minimize_on_open, id),
                ..self
            }.emit(EffectModel::MinimizeWindow(id))
        } else {
            self.emit(EffectModel::FocusWindow(id))
        }
    }

    /// The window is the dialog of a capture.
    pub open spec fn raises(self, id: WinId) -> bool {
        self.capture_raise && (self.kind_of(id) matches Some(kind) && raised_on_capture(kind))
    }

    #[verifier::opaque]
    pub open spec fn window_opened(self, id: WinId) -> AppModel {
        self.dress_window(id).reveal_window(id)
    }

    /// A dialog's own button closes it.
    #[verifier::opaque]
    pub open spec fn close_this(self, id: WinId) -> AppModel {
        let s = self.untracked(id);
        match self.kind_of(id) {
            Some(WinKind::Confirm) => s.confirm_closed().emit(EffectModel::CloseWindow(id)),
            Some(WinKind::Complete(dl)) => s.complete_dismissed(dl).emit(
                EffectModel::CloseWindow(id),
            ),
            Some(WinKind::Power) => s.cancel_power_action().emit(EffectModel::CloseWindow(id)),
            Some(WinKind::ZipPreview(dl)) => s.emit(EffectModel::CloseWindow(id)).listing_closed(
                dl,
            ),
            _ => s.emit(EffectModel::CloseWindow(id)),
        }
    }

    /// What happens once a second.
    #[verifier::opaque]
    pub open spec fn tick(self, env: EnvModel) -> AppModel {
        let s = if self.is_open(WinKind::Permissions) {
            self.refresh_perm_status()
        } else {
            self
        };
        let t = s.sweep_pending_deletes(env.ms).schedule_tick(env).quota_tick(env).queue_tick(
            env,
        ).flush_saves();
        if t.cfg.settings.on.monitor_clipboard {
            t.emit(EffectModel::ReadClipboard(ClipboardUse::Watch))
        } else {
            t
        }
    }
}

/// The dialogs that a capture puts above the browser.
pub open spec fn raised_on_capture(kind: WinKind) -> bool {
    match kind {
        WinKind::FileInfo(_) => true,
        WinKind::Confirm => true,
        WinKind::Batch => true,
        _ => false,
    }
}

fn is_raised(kind: WinKind) -> (r: bool)
    ensures
        r == raised_on_capture(kind),
{
    match kind {
        WinKind::FileInfo(_) | WinKind::Confirm | WinKind::Batch => true,
        _ => false,
    }
}

fn completed_ids(v: &Vec<DownloadItem>) -> (r: Vec<DlId>)
    ensures
        r@ == ids_where(v.deep_view(), completed()),
{
    let ghost all = v.deep_view();
    let mut r: Vec<DlId> = Vec::new();
    let mut i: usize = 0;
    assert(all.take(0) =~= seq![]);
    assert(r@ =~= seq![]);
    while i < v.len()
        invariant
            i <= v@.len(),
            all == v.deep_view(),
            r@ == ids_where(all.take(i as int), completed()),
        decreases v.len() - i,
    {
        proof {
            assert(all.take(i + 1).drop_last() =~= all.take(i as int));
            assert(all.take(i + 1).last() == v@[i as int]@);
        }
        if v[i].state == DlState::Complete {
            r.push(v[i].id);
        }
        i += 1;
    }
    assert(all.take(i as int) =~= all);
    r
}

impl App {
    fn delete_each(&mut self, ids: &Vec<DlId>, remove_file: bool, ms: u64)
        ensures
            final(self)@ == old(self)@.delete_each(ids@, remove_file, ms),
    {
        let mut i: usize = 0;
        assert(ids@.take(0) =~= seq![]);
        while i < ids.len()
            invariant
                i <= ids@.len(),
                self@ == old(self)@.delete_each(ids@.take(i as int), remove_file, ms),
            decreases ids.len() - i,
        {
            proof {
                assert(ids@.take(i + 1).drop_last() =~= ids@.take(i as int));
                assert(ids@.take(i + 1).last() == ids@[i as int]);
            }
            self.delete_item_opts(ids[i], remove_file, ms);
            i += 1;
        }
        assert(ids@.take(i as int) =~= ids@);
    }

    fn remove_each(&mut self, ids: &Vec<DlId>, remove_file: bool)
        ensures
            final(self)@ == old(self)@.remove_each(ids@, remove_file),
    {
        let mut i: usize = 0;
        assert(ids@.take(0) =~= seq![]);
        while i < ids.len()
            invariant
                i <= ids@.len(),
                self@ == old(self)@.remove_each(ids@.take(i as int), remove_file),
            decreases ids.len() - i,
        {
            proof {
                assert(ids@.take(i + 1).drop_last() =~= ids@.take(i as int));
                assert(ids@.take(i + 1).last() == ids@[i as int]);
            }
            self.remove_item_opts(ids[i], remove_file);
            i += 1;
        }
        assert(ids@.take(i as int) =~= ids@);
    }

    fn completed_rows(&self) -> (r: Vec<DlId>)
        ensures
            r@ == ids_where(self@.items(), completed()),
    {
        proof {
            reveal(App::model);
        }
        completed_ids(&self.state.downloads)
    }

    fn removes_files(&self) -> (r: bool)
        ensures
            r == self@.confirm_remove_file,
    {
        proof {
            reveal(App::model);
        }
        self.confirm_remove_file
    }

    pub(crate) fn confirm_yes(&mut self, ms: u64)
        ensures
            final(self)@ == old(self)@.confirm_yes(ms),
    {
        proof {
            reveal(AppModel::confirm_yes);
        }
        let files = self.removes_files();
        let kind = self.take_confirm();
        self.close_window(WinKind::Confirm);
        match kind {
            Some(ConfirmKind::DeleteItems(ids)) => self.delete_each(&ids, files, ms),
            Some(ConfirmKind::DeleteCompleted) => {
                let ids = self.completed_rows();
                self.remove_each(&ids, files);
                self.save_state();
            },
            Some(ConfirmKind::StopWarn { ids, stop_queues }) => self.stop_ids(&ids, stop_queues),
            _ => {},
        }
    }

    fn confirm_closed(&mut self)
        ensures
            final(self)@ == old(self)@.confirm_closed(),
    {
        proof {
            reveal(AppModel::confirm_closed);
        }
        self.set_confirm(None);
        self.set_pending_add(None);
    }

    fn hide_main(&mut self)
        ensures
            final(self)@ == (AppModel { main_id: None, ..old(self)@ }),
    {
        proof {
            reveal(App::model);
        }
        self.main_id = None;
    }

    fn main_closed(&mut self, env: &Env)
        ensures
            final(self)@ == old(self)@.main_closed(env@),
    {
        proof {
            reveal(AppModel::main_closed);
        }
        self.save_all();
        if self.switches().close_to_tray && env.tray_active {
            self.hide_main();
        } else {
            self.emit(Effect::Exit);
        }
    }

    fn listing_closed(&mut self, dl: DlId)
        ensures
            final(self)@ == old(self)@.listing_closed(dl),
    {
        proof {
            reveal(AppModel::listing_closed);
        }
        if let Some(id) = self.win_of(WinKind::FileInfo(dl)) {
            self.emit(Effect::FocusWindow(id));
        }
    }

    fn new_info_of(&self, dl: DlId) -> (r: bool)
        ensures
            r == (self@.file_info.is_new && self@.file_info.dl == dl),
    {
        proof {
            reveal(App::model);
        }
        self.file_info.is_new && self.file_info.dl == dl
    }

    fn info_closed(&mut self, dl: DlId, ms: u64)
        ensures
            final(self)@ == old(self)@.info_closed(dl, ms),
    {
        proof {
            reveal(AppModel::info_closed);
        }
        if self.new_info_of(dl) {
            self.delete_item_opts(dl, false, ms);
        }
    }

    fn after_closed(&mut self, kind: WinKind, env: &Env)
        ensures
            final(self)@ == old(self)@.after_closed(kind, env@),
    {
        proof {
            reveal(AppModel::after_closed);
        }
        match kind {
            WinKind::Main => self.main_closed(env),
            WinKind::Confirm => self.confirm_closed(),
            WinKind::FileInfo(dl) => self.info_closed(dl, env.ms),
            WinKind::Complete(dl) => self.complete_dismissed(dl),
            WinKind::ZipPreview(dl) => self.listing_closed(dl),
            WinKind::Power => self.cancel_power_action(),
            WinKind::Update => self.update_closed(),
            _ => {},
        }
    }

    fn any_window(&self) -> (r: bool)
        ensures
            r == (self@.windows.len() > 0),
    {
        proof {
            reveal(App::model);
        }
        self.windows.len() > 0
    }

    fn sync_dock(&mut self)
        ensures
            final(self)@ == old(self)@.sync_dock(),
    {
        let hide = self.switches().hide_from_taskbar;
        let windows = self.any_window();
        self.emit(Effect::DockSync { hide, windows });
    }

    /// A window has closed, by its own close button or by command.
    pub fn window_closed(&mut self, id: WinId, env: &Env)
        ensures
            final(self)@ == old(self)@.window_closed(id, env@),
    {
        proof {
            reveal(AppModel::window_closed);
        }
        let kind = self.kind_of(id);
        self.untrack_window(id);
        self.sync_dock();
        if let Some(kind) = kind {
            self.after_closed(kind, env);
        }
    }

    fn dress_window(&mut self, id: WinId)
        ensures
            final(self)@ == old(self)@.dress_window(id),
    {
        proof {
            reveal(AppModel::dress_window);
        }
        let hide = self.switches().hide_from_taskbar;
        let parent = match self.kind_of(id) {
            Some(kind) => self.parent_of(kind),
            None => None,
        };
        self.emit(Effect::DockSync { hide, windows: true });
        self.emit(Effect::InstallMenu);
        self.emit(Effect::InstallTray);
        self.emit(Effect::SkipTaskbar(id, hide));
        if let Some(parent) = parent {
            self.emit(Effect::AttachWindow { child: id, parent });
        }
    }

    fn take_raise(&mut self, id: WinId) -> (r: bool)
        ensures
            r == old(self)@.raises(id),
            r ==> final(self)@ == (AppModel { capture_raise: false, ..old(self)@ }),
            !r ==> final(self)@ == old(self)@,
    {
        let dialog = match self.kind_of(id) {
            Some(kind) => is_raised(kind),
            None => false,
        };
        proof {
            reveal(App::model);
        }
        if self.capture_raise && dialog {
            self.capture_raise = false;
            true
        } else {
            false
        }
    }

    fn take_minimize(&mut self, id: WinId) -> (r: bool)
        ensures
            r == old(self)@.minimize_on_open.contains(id),
            r ==> final(self)@ == (AppModel {
                minimize_on_open: ids_without(old(self)@.minimize_on_open, id),
                ..old(self)@
            }),
            !r ==> final(self)@ == old(self)@,
    {
        proof {
            reveal(App::model);
        }
        if has_id(&self.minimize_on_open, id) {
            self.minimize_on_open = drop_id(&self.minimize_on_open, id);
            true
        } else {
            false
        }
    }

    fn reveal_window(&mut self, id: WinId)
        ensures
            final(self)@ == old(self)@.reveal_window(id),
    {
        proof {
            reveal(AppModel::reveal_window);
        }
        if self.take_raise(id) {
            self.emit(Effect::RaiseWindow(id));
        } else if self.take_minimize(id) {
            self.emit(Effect::MinimizeWindow(id));
        } else {
            self.emit(Effect::FocusWindow(id));
        }
    }

    /// A window has come up.
    pub fn window_opened(&mut self, id: WinId)
        ensures
            final(self)@ == old(self)@.window_opened(id),
    {
        proof {
            reveal(AppModel::window_opened);
        }
        self.dress_window(id);
        self.reveal_window(id);
    }

    pub(crate) fn close_this(&mut self, id: WinId)
        ensures
            final(self)@ == old(self)@.close_this(id),
    {
        proof {
            reveal(AppModel::close_this);
        }
        let kind = self.kind_of(id);
        self.untrack_window(id);
        match kind {
            Some(WinKind::Confirm) => {
                self.confirm_closed();
                self.emit(Effect::CloseWindow(id));
            },
            Some(WinKind::Complete(dl)) => {
                self.complete_dismissed(dl);
                self.emit(Effect::CloseWindow(id));
            },
            Some(WinKind::Power) => {
                self.cancel_power_action();
                self.emit(Effect::CloseWindow(id));
            },
            Some(WinKind::ZipPreview(dl)) => {
                self.emit(Effect::CloseWindow(id));
                self.listing_closed(dl);
            },
            _ => {
                self.emit(Effect::CloseWindow(id));
            },
        }
    }

    pub fn tick(&mut self, env: &Env)
        ensures
            final(self)@ == old(self)@.tick(env@),
    {
        proof {
            reveal(AppModel::tick);
        }
        if self.is_open(WinKind::Permissions) {
            self.refresh_perm_status();
        }
        self.sweep_pending_deletes(env.ms);
        self.schedule_tick(env);
        self.quota_tick(env);
        self.queue_tick(env);
        self.flush_saves();
        if self.switches().monitor_clipboard {
            self.emit(Effect::ReadClipboard(ClipboardUse::Watch));
        }
    }
}

// ------------------------------------------------------------------------- laws

/// A duplicate decision that was dismissed leaves no address behind, to be
/// added by a later answer.
pub proof fn dismissed_questions_park_nothing(s: AppModel)
    ensures
        s.confirm_closed().pending_add is None,
        s.confirm_closed().confirm is None,
        s.confirm_closed().items() == s.items(),
{
    reveal(AppModel::confirm_closed);
}

/// Closing the main window without a tray to come back through ends the
/// program; nothing that was marked stays unsaved.
pub proof fn without_a_tray_closing_quits(s: AppModel, env: EnvModel)
    requires
        !env.tray_active,
    ensures
        s.main_closed(env).out.len() > 0,
        s.main_closed(env).out.last() == EffectModel::Exit,
        !s.main_closed(env).dirty.state,
        !s.main_closed(env).dirty.cfg,
{
    reveal(AppModel::main_closed);
}

} // verus!
