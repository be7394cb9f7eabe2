//! The keyboard and the toolbar.
use crate::actions::{MenuAction, MenuActionModel};
use crate::app::{App, AppModel, Env, EnvModel, Mods};
use crate::downloads::{item_of, Items};
use crate::effect::{ClipboardUse, Effect, EffectModel};
use crate::model::{ConfigFileModel, DlId, DlState, DownloadItem, DownloadItemModel};
use crate::shortcuts::{action_for, action_of, bind, bound, combo_of, combo_string, typed_combo, Key};
use crate::state::WinId;
use crate::text::{lower, same, trimmed};
use vstd::prelude::*;

verus! {

/// Rows that wait for the user, or for their queue.
pub open spec fn resumable() -> spec_fn(DownloadItemModel) -> bool {
    |d: DownloadItemModel|
        d.state == DlState::Paused || d.state == DlState::Error || d.state == DlState::Queued
}

pub open spec fn running() -> spec_fn(DownloadItemModel) -> bool {
    |d: DownloadItemModel| d.state.active()
}

/// The row of which `p` holds that was added last; the later one of two that
/// were added together.
pub open spec fn latest(v: Items, p: spec_fn(DownloadItemModel) -> bool) -> Option<DownloadItemModel>
    decreases v.len(),
{
    if v.len() == 0 {
        None
    } else {
        let r = latest(v.drop_last(), p);
        let d = v.last();
        if p(d) && (match r {
            Some(b) => b.added <= d.added,
            None => true,
        }) {
            Some(d)
        } else {
            r
        }
    }
}

/// The chosen rows of which `p` holds.
pub open spec fn chosen_where(
    ids: Seq<DlId>,
    v: Items,
    p: spec_fn(DownloadItemModel) -> bool,
) -> Seq<DlId>
    decreases ids.len(),
{
    if ids.len() == 0 {
        seq![]
    } else {
        let r = chosen_where(ids.drop_last(), v, p);
        match item_of(v, ids.last()) {
            Some(d) if p(d) => r.push(ids.last()),
            _ => r,
        }
    }
}

impl AppModel {
    /// A command chosen from a menu: the menus close first.
    #[verifier::opaque]
    pub open spec fn menu(self, action: MenuActionModel, env: EnvModel) -> AppModel {
        self.close_menus().on_menu(action, env)
    }

    /// The selected rows that wait are started. One alone shows its progress;
    /// several would bury the screen in dialogs.
    #[verifier::opaque]
    pub open spec fn toolbar_resume(self, env: EnvModel) -> AppModel {
        let ids = chosen_where(self.list.selected, self.items(), resumable());
        self.start_each(ids, ids.len() == 1, env)
    }

    #[verifier::opaque]
    pub open spec fn toolbar_stop(self) -> AppModel {
        self.stop_ids_confirming(self.list.selected, false)
    }

    #[verifier::opaque]
    pub open spec fn shortcut_edit(self, action: Seq<char>, combo: Seq<char>) -> AppModel {
        AppModel {
            cfg: ConfigFileModel {
                shortcuts: bound(self.cfg.shortcuts, action, lower(trimmed(combo))),
                ..self.cfg
            },
            ..self
        }.save_config()
    }

    #[verifier::opaque]
    pub open spec fn resume_last(self, env: EnvModel) -> AppModel {
        match latest(self.items(), resumable()) {
            Some(d) => self.start_download(d.id, true, env),
            None => self,
        }
    }

    #[verifier::opaque]
    pub open spec fn stop_last(self) -> AppModel {
        match latest(self.items(), running()) {
            Some(d) => self.stop_download(d.id),
            None => self,
        }
    }

    /// The first queue starts or stops.
    #[verifier::opaque]
    pub open spec fn run_main_queue(self, run: bool, env: EnvModel) -> AppModel {
        match self.first_queue() {
            Some(q) => {
                let s = self.close_menus().set_queue_running(q, run);
                if run {
                    s.queue_tick(env)
                } else {
                    s
                }
            },
            None => self,
        }
    }

    /// The action of a shortcut, pressed in the window `win`.
    #[verifier::opaque]
    pub open spec fn run_shortcut(self, action: Seq<char>, win: WinId, env: EnvModel) -> AppModel {
        if action == "add_url"@ {
            self.menu(MenuActionModel::AddNewDownload, env)
        } else if action == "clipboard_add"@ {
            self.emit(EffectModel::ReadClipboard(ClipboardUse::AddStart))
        } else if action == "options"@ {
            self.menu(MenuActionModel::Options, env)
        } else if action == "scheduler"@ {
            self.menu(MenuActionModel::Scheduler, env)
        } else if action == "resume_last"@ {
            self.resume_last(env)
        } else if action == "stop_last"@ {
            self.stop_last()
        } else if action == "start_main_queue"@ {
            self.run_main_queue(true, env)
        } else if action == "stop_main_queue"@ {
            self.run_main_queue(false, env)
        } else if action == "select_all"@ {
            self.select_all()
        } else if action == "remove_selected"@ {
            self.toolbar_delete()
        } else if action == "close_window"@ {
            self.emit(EffectModel::CloseWindow(win))
        } else if action == "quit"@ {
            self.menu(MenuActionModel::Exit, env)
        } else {
            self
        }
    }

    /// A key that no widget consumed. Escape backs out of a rename; Alt and F4
    /// quit, whatever the table of shortcuts says.
    #[verifier::opaque]
    pub open spec fn raw_key(self, key: Key, mods: Mods, win: WinId, env: EnvModel) -> AppModel {
        if key is Escape && self.tree.renaming is Some {
            self.tree_rename_drop()
        } else if key is F4 && mods.alt {
            self.menu(MenuActionModel::Exit, env)
        } else {
            match combo_of(key, mods) {
                Some(combo) => match action_of(self.cfg.shortcuts, combo) {
                    Some(action) => self.run_shortcut(action, win, env),
                    None => self,
                },
                None => self,
            }
        }
    }
}

fn waits(d: &DownloadItem) -> (r: bool)
    ensures
        r == resumable()(d@),
{
    match d.state {
        DlState::Paused | DlState::Error | DlState::Queued => true,
        _ => false,
    }
}

/// The number of the row that was added last: of those that run, or of those
/// that wait.
fn latest_id(v: &Vec<DownloadItem>, run: bool) -> (r: Option<DlId>)
    ensures
        r == (match latest(
            v.deep_view(),
            if run {
                running()
            } else {
                resumable()
            },
        ) {
            Some(d) => Some(d.id),
            None => None,
        }),
{
    let ghost p = if run {
        running()
    } else {
        resumable()
    };
    let ghost all = v.deep_view();
    let mut best: Option<usize> = None;
    let mut i: usize = 0;
    assert(all.take(0) =~= seq![]);
    while i < v.len()
        invariant
            i <= v@.len(),
            all == v.deep_view(),
            p == (if run {
                running()
            } else {
                resumable()
            }),
            match best {
                Some(b) => b < i && latest(all.take(i as int), p) == Some(v@[b as int]@),
                None => latest(all.take(i as int), p) is None,
            },
        decreases v.len() - i,
    {
        proof {
            assert(all.take(i + 1).drop_last() =~= all.take(i as int));
            assert(all.take(i + 1).last() == v@[i as int]@);
        }
        let fits = if run {
            v[i].state.is_active()
        } else {
            waits(&v[i])
        };
        if fits {
            let newer = match best {
                Some(b) => v[b].added <= v[i].added,
                None => true,
            };
            if newer {
                best = Some(i);
            }
        }
        i += 1;
    }
    assert(all.take(i as int) =~= all);
    match best {
        Some(b) => Some(v[b].id),
        None => None,
    }
}

impl App {
    pub fn menu(&mut self, action: MenuAction, env: &Env)
        ensures
            final(self)@ == old(self)@.menu(action@, env@),
    {
        proof {
            reveal(AppModel::menu);
        }
        self.close_menus();
        self.on_menu(action, env);
    }

    fn chosen_waiting(&self) -> (r: Vec<DlId>)
        ensures
            r@ == chosen_where(self@.list.selected, self@.items(), resumable()),
    {
        let ids = self.selection();
        let mut r: Vec<DlId> = Vec::new();
        let mut i: usize = 0;
        assert(ids@.take(0) =~= seq![]);
        assert(r@ =~= seq![]);
        while i < ids.len()
            invariant
                i <= ids@.len(),
                r@ == chosen_where(ids@.take(i as int), self@.items(), resumable()),
            decreases ids.len() - i,
        {
            proof {
                assert(ids@.take(i + 1).drop_last() =~= ids@.take(i as int));
                assert(ids@.take(i + 1).last() == ids@[i as int]);
            }
            if let Some(d) = self.item(ids[i]) {
                if waits(d) {
                    r.push(ids[i]);
                }
            }
            i += 1;
        }
        assert(ids@.take(i as int) =~= ids@);
        r
    }

    pub(crate) fn toolbar_resume(&mut self, env: &Env)
        ensures
            final(self)@ == old(self)@.toolbar_resume(env@),
    {
        proof {
            reveal(AppModel::toolbar_resume);
        }
        let ids = self.chosen_waiting();
        self.start_each(&ids, ids.len() == 1, env);
    }

    pub(crate) fn toolbar_stop(&mut self)
        ensures
            final(self)@ == old(self)@.toolbar_stop(),
    {
        proof {
            reveal(AppModel::toolbar_stop);
        }
        let ids = self.selection();
        self.stop_ids_confirming(ids, false);
    }

    fn bind_shortcut(&mut self, action: String, combo: String)
        ensures
            final(self)@ == (AppModel {
                cfg: (ConfigFileModel {
                    shortcuts: bound(old(self)@.cfg.shortcuts, action@, combo@),
                    ..old(self)@.cfg
                }),
                ..old(self)@
            }),
    {
        proof {
            reveal(App::model);
        }
        bind(&mut self.cfg.shortcuts, action, combo);
    }

    pub(crate) fn shortcut_edit(&mut self, action: String, combo: &str)
        ensures
            final(self)@ == old(self)@.shortcut_edit(action@, combo@),
    {
        proof {
            reveal(AppModel::shortcut_edit);
        }
        self.bind_shortcut(action, typed_combo(combo));
        self.save_config();
    }

    fn latest_row(&self, run: bool) -> (r: Option<DlId>)
        ensures
            r == (match latest(
                self@.items(),
                if run {
                    running()
                } else {
                    resumable()
                },
            ) {
                Some(d) => Some(d.id),
                None => None,
            }),
    {
        proof {
            reveal(App::model);
        }
        latest_id(&self.state.downloads, run)
    }

    fn resume_last(&mut self, env: &Env)
        ensures
            final(self)@ == old(self)@.resume_last(env@),
    {
        proof {
            reveal(AppModel::resume_last);
        }
        if let Some(id) = self.latest_row(false) {
            self.start_download(id, true, env);
        }
    }

    fn stop_last(&mut self)
        ensures
            final(self)@ == old(self)@.stop_last(),
    {
        proof {
            reveal(AppModel::stop_last);
        }
        if let Some(id) = self.latest_row(true) {
            self.stop_download(id);
        }
    }

    fn run_main_queue(&mut self, run: bool, env: &Env)
        ensures
            final(self)@ == old(self)@.run_main_queue(run, env@),
    {
        proof {
            reveal(AppModel::run_main_queue);
        }
        if let Some(q) = self.first_queue() {
            self.close_menus();
            self.set_queue_running(&q, run);
            if run {
                self.queue_tick(env);
            }
        }
    }

    fn run_shortcut(&mut self, action: &str, win: WinId, env: &Env)
        ensures
            final(self)@ == old(self)@.run_shortcut(action@, win, env@),
    {
        proof {
            reveal(AppModel::run_shortcut);
            reveal(MenuAction::model);
        }
        if same(action, "add_url") {
            self.menu(MenuAction::AddNewDownload, env);
        } else if same(action, "clipboard_add") {
            self.emit(Effect::ReadClipboard(ClipboardUse::AddStart));
        } else if same(action, "options") {
            self.menu(MenuAction::Options, env);
        } else if same(action, "scheduler") {
            self.menu(MenuAction::Scheduler, env);
        } else if same(action, "resume_last") {
            self.resume_last(env);
        } else if same(action, "stop_last") {
            self.stop_last();
        } else if same(action, "start_main_queue") {
            self.run_main_queue(true, env);
        } else if same(action, "stop_main_queue") {
            self.run_main_queue(false, env);
        } else if same(action, "select_all") {
            self.select_all();
        } else if same(action, "remove_selected") {
            self.toolbar_delete();
        } else if same(action, "close_window") {
            self.emit(Effect::CloseWindow(win));
        } else if same(action, "quit") {
            self.menu(MenuAction::Exit, env);
        }
    }

    fn renaming(&self) -> (r: bool)
        ensures
            r == (self@.tree.renaming is Some),
    {
        proof {
            reveal(App::model);
        }
        self.tree.renaming.is_some()
    }

    fn shortcut_for(&self, combo: &str) -> (r: Option<String>)
        ensures
            r.deep_view() == action_of(self@.cfg.shortcuts, combo@),
    {
        proof {
            reveal(App::model);
        }
        action_for(&self.cfg.shortcuts, combo)
    }

    pub fn raw_key(&mut self, key: Key, mods: Mods, win: WinId, env: &Env)
        ensures
            final(self)@ == old(self)@.raw_key(key, mods, win, env@),
    {
        proof {
            reveal(AppModel::raw_key);
            reveal(MenuAction::model);
        }
        if let Key::Escape = key {
            if self.renaming() {
                self.tree_rename_drop();
                return ;
            }
        }
        if let Key::F4 = key {
            if mods.alt {
                self.menu(MenuAction::Exit, env);
                return ;
            }
        }
        if let Some(combo) = combo_string(&key, mods) {
            if let Some(action) = self.shortcut_for(&combo) {
                self.run_shortcut(&action, win, env);
            }
        }
    }
}

} // verus!
