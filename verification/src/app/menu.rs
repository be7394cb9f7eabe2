//! The commands of the menu bar, the context menu and the toolbar.
use crate::actions::{MenuAction, MenuActionModel};
use crate::app::adding::next_order;
use crate::app::transfers::is_active;
use crate::app::{App, AppModel, Env, EnvModel};
use crate::downloads::{ids_where, item_of, moving, Items};
use crate::edits::{set_fresh, set_queue_slot, to_fresh, to_queue_slot};
use crate::effect::{ClipboardUse, Effect, EffectModel, Pick, PickModel};
use crate::engine::{parse_url, url_parts, Cmd, CmdModel};
use crate::model::{
    ConfigFileModel, DlId, DlState, DownloadItem, DownloadItemModel, SettingsModel, Switches,
    ThemeMode,
};
use crate::notes::{Note, NoteModel};
use crate::state::{
    AddUrlState, AddUrlStateModel, ConfirmKind, ConfirmKindModel, OptTab, SchStateModel, SortKey,
    Win, WinKind,
};
use crate::text::{join, joined, split, split_text, trim, trimmed, views};
use vstd::prelude::*;

verus! {

/// The limit that the speed limiter starts with, in bytes per second.
pub const FIRST_LIMIT: u64 = 131_072;

/// The addresses of the rows.
pub open spec fn addresses(v: Items) -> Seq<Seq<char>> {
    v.map_values(|d: DownloadItemModel| d.url)
}

/// Lines that hold an address, trimmed.
pub open spec fn address_lines(lines: Seq<Seq<char>>) -> Seq<Seq<char>>
    decreases lines.len(),
{
    if lines.len() == 0 {
        seq![]
    } else {
        let r = address_lines(lines.drop_last());
        let l = trimmed(lines.last());
        if l.len() > 0 && url_parts(l) is Ok {
            r.push(l)
        } else {
            r
        }
    }
}

pub open spec fn completed() -> spec_fn(DownloadItemModel) -> bool {
    |d: DownloadItemModel| d.state == DlState::Complete
}

impl AppModel {
    #[verifier::opaque]
    pub open spec fn add_new_download(self) -> AppModel {
        self.with_add_url(AddUrlStateModel::empty()).open_window(WinKind::AddUrl).emit(
            EffectModel::ReadClipboard(ClipboardUse::Prefill),
        )
    }

    #[verifier::opaque]
    pub open spec fn export_list(self) -> AppModel {
        self.emit(EffectModel::WriteExport(joined(addresses(self.items()), "\n"@))).emit(
            EffectModel::OpenAppDir,
        )
    }

    pub open spec fn add_each(self, urls: Seq<Seq<char>>, now: i64) -> AppModel
        decreases urls.len(),
    {
        if urls.len() == 0 {
            self
        } else {
            self.add_each(urls.drop_last(), now).add_item(urls.last(), None, None, now)
        }
    }

    /// The addresses of an exported list become rows.
    #[verifier::opaque]
    pub open spec fn export_read(self, text: Option<Seq<char>>, now: i64) -> AppModel {
        match text {
            Some(t) => self.add_each(address_lines(split(t, '\n')), now),
            None => self,
        }
    }

    #[verifier::opaque]
    pub open spec fn quit(self) -> AppModel {
        self.save_all().emit(EffectModel::Exit)
    }

    /// The delete confirmation, for the selected rows.
    #[verifier::opaque]
    pub open spec fn toolbar_delete(self) -> AppModel {
        if self.list.selected.len() > 0 {
            AppModel { confirm_remove_file: false, ..self }.ask(
                ConfirmKindModel::DeleteItems(self.list.selected),
            )
        } else {
            self
        }
    }

    /// What is on disk of a row goes, and the row with nothing downloaded
    /// starts over. A running transfer is left alone.
    #[verifier::opaque]
    pub open spec fn redownload(self, id: DlId, show: bool, env: EnvModel) -> AppModel {
        if is_active(self.items(), id) {
            self
        } else {
            (match item_of(self.items(), id) {
                Some(d) => self.emit(EffectModel::RemoveFile(d.part_file())).edit_item(
                    id,
                    to_fresh(),
                ),
                None => self,
            }).start_download(id, show, env)
        }
    }

    pub open spec fn redownload_each(self, ids: Seq<DlId>, show: bool, env: EnvModel) -> AppModel
        decreases ids.len(),
    {
        if ids.len() == 0 {
            self
        } else {
            self.redownload_each(ids.drop_last(), show, env).redownload(ids.last(), show, env)
        }
    }

    #[verifier::opaque]
    pub open spec fn delete_all_completed(self) -> AppModel {
        AppModel { confirm_remove_file: false, ..self }.ask(ConfirmKindModel::DeleteCompleted)
    }

    #[verifier::opaque]
    pub open spec fn open_scheduler(self) -> AppModel {
        let queue = if self.sch.queue.len() == 0 {
            match self.first_queue() {
                Some(q) => q,
                None => seq![],
            }
        } else {
            self.sch.queue
        };
        self.with_sch(SchStateModel { queue, rename_draft: queue, ..self.sch }).open_window(
            WinKind::Scheduler,
        )
    }

    pub open spec fn with_settings(self, settings: SettingsModel) -> AppModel {
        AppModel { cfg: ConfigFileModel { settings, ..self.cfg }, ..self }
    }

    /// The caps of the transfers that run, as the engine is told them.
    pub open spec fn limit_notes(self, v: Items) -> Seq<EffectModel>
        decreases v.len(),
    {
        if v.len() == 0 {
            seq![]
        } else {
            let r = self.limit_notes(v.drop_last());
            let d = v.last();
            if d.state.active() {
                r.push(EffectModel::Engine(CmdModel::SetLimit(d.id, self.effective_limit(d))))
            } else {
                r
            }
        }
    }

    pub open spec fn flip_limiter(self) -> AppModel {
        let s = self.cfg.settings;
        self.with_settings(
            SettingsModel {
                speed_limiter_on: !s.speed_limiter_on,
                global_speed_limit: if s.global_speed_limit is None {
                    Some(FIRST_LIMIT)
                } else {
                    s.global_speed_limit
                },
                ..s
            },
        )
    }

    /// The speed limiter is switched, and every running transfer hears of it.
    #[verifier::opaque]
    pub open spec fn toggle_limiter(self) -> AppModel {
        let s = self.flip_limiter();
        s.emit_all(s.limit_notes(s.items())).save_config().emit(EffectModel::SyncMenu)
    }

    #[verifier::opaque]
    pub open spec fn hide_categories(self) -> AppModel {
        let on = self.cfg.settings.on;
        self.with_switches(
            Switches { show_categories: !on.show_categories, ..on },
        ).save_config().emit(EffectModel::SyncMenu)
    }

    #[verifier::opaque]
    pub open spec fn set_theme(self, mode: ThemeMode) -> AppModel {
        let s = self.with_settings(
            SettingsModel { theme_mode: Some(mode), ..self.cfg.settings },
        ).emit(EffectModel::SyncMenu);
        if self.cfg.settings.theme() != mode {
            s.save_config()
        } else {
            s
        }
    }

    /// Every dialog that is open is refitted.
    pub open spec fn refits(self, ws: Seq<Win>) -> Seq<EffectModel>
        decreases ws.len(),
    {
        if ws.len() == 0 {
            seq![]
        } else {
            let r = self.refits(ws.drop_last());
            if ws.last().kind == WinKind::Main {
                r
            } else {
                r.push(
                    EffectModel::ResizeWindow {
                        id: ws.last().id,
                        size: self.window_size(ws.last().kind),
                    },
                )
            }
        }
    }

    #[verifier::opaque]
    pub open spec fn set_font(self, size: u16) -> AppModel {
        let s = self.with_settings(
            SettingsModel { font_size: size, ..self.cfg.settings },
        ).emit(EffectModel::SyncMenu);
        if self.cfg.settings.font_size != size {
            let t = s.save_config();
            t.emit_all(t.refits(t.windows))
        } else {
            s
        }
    }

    /// Another language: its texts are fetched. What was built with the old ones
    /// is built again when they are there.
    #[verifier::opaque]
    pub open spec fn choose_language(self, tag: Seq<char>) -> AppModel {
        AppModel {
            cfg: ConfigFileModel { language: Some(tag), ..self.cfg },
            ..self.note(NoteModel::Locale { tag }).emit(EffectModel::LoadLocale(tag))
        }.save_config()
    }

    /// The row goes to the end of a queue, and waits there if it was paused.
    #[verifier::opaque]
    pub open spec fn enqueue(self, id: DlId, q: Seq<char>) -> AppModel {
        match item_of(self.items(), id) {
            Some(d) => {
                let s = self.edit_item(id, to_queue_slot(Some(q), next_order(self.items(), q)));
                if d.state == DlState::Paused {
                    s.set_item_state(id, DlState::Queued)
                } else {
                    s
                }
            },
            None => self,
        }
    }

    pub open spec fn enqueue_each(self, ids: Seq<DlId>, q: Seq<char>) -> AppModel
        decreases ids.len(),
    {
        if ids.len() == 0 {
            self
        } else {
            self.enqueue_each(ids.drop_last(), q).enqueue(ids.last(), q)
        }
    }

    pub open spec fn unqueue_each(self, ids: Seq<DlId>) -> AppModel
        decreases ids.len(),
    {
        if ids.len() == 0 {
            self
        } else {
            self.unqueue_each(ids.drop_last()).unqueue(ids.last())
        }
    }

    #[verifier::opaque]
    pub open spec fn toggle_power_save(self) -> AppModel {
        let on = self.cfg.settings.on;
        self.with_switches(Switches { power_save: !on.power_save, ..on }).tell(
            CmdModel::SetPowerSave(!on.power_save),
        ).note(NoteModel::PowerSave { on: !on.power_save }).save_config().emit(
            EffectModel::ReinstallTray,
        )
    }

    #[verifier::opaque]
    pub open spec fn open_selected(self, folder: bool) -> AppModel {
        match self.selected_item() {
            Some(d) => self.emit(
                EffectModel::OpenPath(
                    if folder {
                        d.save_dir
                    } else {
                        d.full_path()
                    },
                ),
            ),
            None => self,
        }
    }

    pub open spec fn open_page(self, url: Seq<char>) -> AppModel {
        self.emit(EffectModel::OpenPath(url))
    }

    /// The permission guide, with fresh findings. Nothing can be granted from
    /// inside the program.
    #[verifier::opaque]
    pub open spec fn open_permissions(self) -> AppModel {
        AppModel { confirm: None, ..self }.close_window(
            WinKind::Confirm,
        ).refresh_perm_status().open_window(WinKind::Permissions)
    }

    /// The permissions are looked at again.
    #[verifier::opaque]
    pub open spec fn refresh_perm_status(self) -> AppModel {
        self.emit(
            EffectModel::ProbePermissions {
                dir: match self.default_dir() {
                    Some(d) => d,
                    None => seq![],
                },
                launch: self.cfg.settings.on.launch_on_startup,
            },
        )
    }

    /// The folder of the first category, where downloads go by default.
    pub open spec fn default_dir(self) -> Option<Seq<char>> {
        if self.cfg.categories.len() > 0 {
            Some(self.cfg.categories[0].dir)
        } else {
            None
        }
    }

    /// The default folder was tried; a user who cannot write there is told at
    /// once rather than at the first failed download.
    #[verifier::opaque]
    pub open spec fn check_folder_access(self, writable: bool) -> AppModel {
        match self.default_dir() {
            Some(dir) if !writable => self.note(NoteModel::NoFolderAccess { dir }).ask(
                ConfirmKindModel::PermissionWarn { dir },
            ),
            _ => self,
        }
    }

    pub open spec fn sort_by(self, key: SortKey) -> AppModel {
        AppModel { list: self.list.sort_by(key), ..self }
    }

    /// What the downloads menu does to the selected rows.
    #[verifier::opaque]
    pub open spec fn on_rows(self, action: MenuActionModel, env: EnvModel) -> AppModel {
        let ids = self.list.selected;
        match action {
            MenuActionModel::StopDownload => self.stop_ids_confirming(ids, false),
            MenuActionModel::Remove => self.toolbar_delete(),
            MenuActionModel::DownloadNow => self.start_each(ids, ids.len() == 1, env),
            MenuActionModel::Redownload => self.redownload_each(ids, ids.len() == 1, env),
            MenuActionModel::PauseAll => self.stop_ids_confirming(
                ids_where(self.items(), moving()),
                true,
            ),
            MenuActionModel::StopAll => self.stop_ids_confirming(
                ids_where(self.items(), moving()),
                true,
            ),
            MenuActionModel::DeleteAllCompleted => self.delete_all_completed(),
            MenuActionModel::OpenSel => self.open_selected(false),
            MenuActionModel::OpenFolderSel => self.open_selected(true),
            MenuActionModel::Properties => self.show_properties(),
            _ => self,
        }
    }

    /// What the queue commands do.
    #[verifier::opaque]
    pub open spec fn on_queues(self, action: MenuActionModel, env: EnvModel) -> AppModel {
        let ids = self.list.selected;
        match action {
            MenuActionModel::MoveToQueue(q) => self.enqueue_each(ids, q).save_state(),
            MenuActionModel::RemoveFromQueue => self.unqueue_each(ids).save_state(),
            MenuActionModel::StartQueue(q) => self.set_queue_running(q, true).queue_tick(env),
            MenuActionModel::StopQueue(q) => self.set_queue_running(q, false),
            _ => self,
        }
    }

    /// What the tasks menu does.
    #[verifier::opaque]
    pub open spec fn on_tasks(self, action: MenuActionModel) -> AppModel {
        match action {
            MenuActionModel::AddNewDownload => self.add_new_download(),
            MenuActionModel::AddBatch => self.new_batch(),
            MenuActionModel::AddBatchClipboard => self.new_batch().emit(
                EffectModel::ReadClipboard(ClipboardUse::BatchPaste),
            ),
            MenuActionModel::AddBatchFile => self.new_batch().emit(
                EffectModel::Pick(PickModel::BatchFile),
            ),
            MenuActionModel::ExportList => self.export_list(),
            MenuActionModel::ImportList => self.emit(EffectModel::ReadExport),
            MenuActionModel::Exit => self.quit(),
            _ => self,
        }
    }

    /// What the view menu and the settings entries do.
    #[verifier::opaque]
    pub open spec fn on_settings(self, action: MenuActionModel) -> AppModel {
        match action {
            MenuActionModel::Scheduler => self.open_scheduler(),
            MenuActionModel::SpeedLimiterToggle => self.toggle_limiter(),
            MenuActionModel::Options => self.open_options(None),
            MenuActionModel::Extensions => self.open_options(Some(OptTab::Extensions)),
            MenuActionModel::HideCategories => self.hide_categories(),
            MenuActionModel::ArrangeBy(key) => self.sort_by(key),
            MenuActionModel::SetTheme(mode) => self.set_theme(mode),
            MenuActionModel::FontSize(size) => self.set_font(size),
            MenuActionModel::Language(l) => self.choose_language(l),
            MenuActionModel::PowerSaveToggle => self.toggle_power_save(),
            _ => self,
        }
    }

    /// What the help menu does.
    #[verifier::opaque]
    pub open spec fn on_help(self, action: MenuActionModel) -> AppModel {
        match action {
            MenuActionModel::CheckUpdates => self.check_updates(),
            MenuActionModel::HomePage => self.open_page("https://hydra.javad.dev"@),
            MenuActionModel::Contribute => self.open_page("https://github.com/ja7ad/hydra"@),
            MenuActionModel::ReportIssue => self.open_page(
                "https://github.com/ja7ad/hydra/issues"@,
            ),
            MenuActionModel::About => self.open_window(WinKind::About),
            MenuActionModel::Permissions => self.open_permissions(),
            MenuActionModel::Shortcuts => self.open_window(WinKind::Shortcuts),
            MenuActionModel::Logs => self.emit(EffectModel::OpenLog),
            _ => self,
        }
    }

    /// A command is carried out. Each belongs to one of five groups, and those
    /// for which nothing is done yet to none.
    #[verifier::opaque]
    pub open spec fn on_menu(self, action: MenuActionModel, env: EnvModel) -> AppModel {
        match menu_group(action) {
            Group::Rows => self.on_rows(action, env),
            Group::Queues => self.on_queues(action, env),
            Group::Tasks => self.on_tasks(action),
            Group::Settings => self.on_settings(action),
            Group::Help => self.on_help(action),
            Group::Unused => self,
        }
    }
}

/// The groups of commands.
#[derive(Clone, Copy, PartialEq, Eq, Structural, Debug)]
pub enum Group {
    Rows,
    Queues,
    Tasks,
    Settings,
    Help,
    Unused,
}

pub open spec fn menu_group(a: MenuActionModel) -> Group {
    match a {
        MenuActionModel::StopDownload => Group::Rows,
        MenuActionModel::Remove => Group::Rows,
        MenuActionModel::DownloadNow => Group::Rows,
        MenuActionModel::Redownload => Group::Rows,
        MenuActionModel::PauseAll => Group::Rows,
        MenuActionModel::StopAll => Group::Rows,
        MenuActionModel::DeleteAllCompleted => Group::Rows,
        MenuActionModel::MoveToQueue(_) => Group::Queues,
        MenuActionModel::RemoveFromQueue => Group::Queues,
        MenuActionModel::StartQueue(_) => Group::Queues,
        MenuActionModel::StopQueue(_) => Group::Queues,
        MenuActionModel::OpenSel => Group::Rows,
        MenuActionModel::OpenFolderSel => Group::Rows,
        MenuActionModel::Properties => Group::Rows,
        MenuActionModel::AddNewDownload => Group::Tasks,
        MenuActionModel::AddBatch => Group::Tasks,
        MenuActionModel::AddBatchClipboard => Group::Tasks,
        MenuActionModel::AddBatchFile => Group::Tasks,
        MenuActionModel::ExportList => Group::Tasks,
        MenuActionModel::ImportList => Group::Tasks,
        MenuActionModel::Exit => Group::Tasks,
        MenuActionModel::Scheduler => Group::Settings,
        MenuActionModel::SpeedLimiterToggle => Group::Settings,
        MenuActionModel::Options => Group::Settings,
        MenuActionModel::Extensions => Group::Settings,
        MenuActionModel::HideCategories => Group::Settings,
        MenuActionModel::ArrangeBy(_) => Group::Settings,
        MenuActionModel::SetTheme(_) => Group::Settings,
        MenuActionModel::FontSize(_) => Group::Settings,
        MenuActionModel::Language(_) => Group::Settings,
        MenuActionModel::PowerSaveToggle => Group::Settings,
        MenuActionModel::CheckUpdates => Group::Help,
        MenuActionModel::HomePage => Group::Help,
        MenuActionModel::Contribute => Group::Help,
        MenuActionModel::ReportIssue => Group::Help,
        MenuActionModel::About => Group::Help,
        MenuActionModel::Permissions => Group::Help,
        MenuActionModel::Shortcuts => Group::Help,
        MenuActionModel::Logs => Group::Help,
        MenuActionModel::SiteGrabber => Group::Unused,
        MenuActionModel::DropTarget => Group::Unused,
        MenuActionModel::Find => Group::Unused,
    }
}

/// Which group a command belongs to.
pub fn group_of(a: &MenuAction) -> (r: Group)
    ensures
        r == menu_group(a@),
{
    proof {
        reveal(MenuAction::model);
    }
    match a {
        MenuAction::StopDownload | MenuAction::Remove | MenuAction::DownloadNow
        | MenuAction::Redownload | MenuAction::PauseAll | MenuAction::StopAll
        | MenuAction::DeleteAllCompleted
        | MenuAction::OpenSel | MenuAction::OpenFolderSel | MenuAction::Properties => Group::Rows,
        MenuAction::MoveToQueue(_) | MenuAction::RemoveFromQueue | MenuAction::StartQueue(_)
        | MenuAction::StopQueue(_) => Group::Queues,
        MenuAction::AddNewDownload | MenuAction::AddBatch | MenuAction::AddBatchClipboard
        | MenuAction::AddBatchFile | MenuAction::ExportList | MenuAction::ImportList
        | MenuAction::Exit => Group::Tasks,
        MenuAction::Scheduler | MenuAction::SpeedLimiterToggle | MenuAction::Options
        | MenuAction::Extensions | MenuAction::HideCategories | MenuAction::ArrangeBy(_)
        | MenuAction::SetTheme(_) | MenuAction::FontSize(_) | MenuAction::Language(_)
        | MenuAction::PowerSaveToggle => Group::Settings,
        MenuAction::CheckUpdates | MenuAction::HomePage | MenuAction::Contribute
        | MenuAction::ReportIssue | MenuAction::About | MenuAction::Permissions
        | MenuAction::Shortcuts | MenuAction::Logs => Group::Help,
        MenuAction::SiteGrabber | MenuAction::DropTarget | MenuAction::Find => Group::Unused,
    }
}

/// The addresses of the rows, one after another.
fn addresses_of(v: &Vec<DownloadItem>) -> (r: Vec<String>)
    ensures
        views(r@) == addresses(v.deep_view()),
{
    let mut r: Vec<String> = Vec::new();
    let mut i: usize = 0;
    while i < v.len()
        invariant
            i <= v@.len(),
            r@.len() == i,
            forall|k: int| 0 <= k < i ==> (#[trigger] r@[k])@ == v@[k]@.url,
        decreases v.len() - i,
    {
        r.push(v[i].url.clone());
        i += 1;
    }
    assert(views(r@) =~= addresses(v.deep_view()));
    r
}

fn addresses_in(lines: &Vec<String>) -> (r: Vec<String>)
    ensures
        views(r@) == address_lines(views(lines@)),
{
    let ghost all = views(lines@);
    let mut r: Vec<String> = Vec::new();
    let mut i: usize = 0;
    assert(all.take(0) =~= seq![]);
    assert(views(r@) =~= seq![]);
    while i < lines.len()
        invariant
            i <= lines@.len(),
            all == views(lines@),
            views(r@) == address_lines(all.take(i as int)),
        decreases lines.len() - i,
    {
        proof {
            assert(all.take(i + 1).drop_last() =~= all.take(i as int));
            assert(all.take(i + 1).last() == lines@[i as int]@);
        }
        let l = trim(&lines[i]);
        if !l.as_str().is_empty() && parse_url(&l).is_ok() {
            let ghost before = views(r@);
            r.push(l);
            assert(views(r@) =~= before.push(l@));
        }
        i += 1;
    }
    assert(all.take(i as int) =~= all);
    r
}

/// The commands of the rows group, as their models.
proof fn lemma_rows(a: MenuAction)
    requires
        menu_group(a@) == Group::Rows,
    ensures
        match a {
            MenuAction::StopDownload => a@ == MenuActionModel::StopDownload,
            MenuAction::Remove => a@ == MenuActionModel::Remove,
            MenuAction::DownloadNow => a@ == MenuActionModel::DownloadNow,
            MenuAction::Redownload => a@ == MenuActionModel::Redownload,
            MenuAction::PauseAll => a@ == MenuActionModel::PauseAll,
            MenuAction::StopAll => a@ == MenuActionModel::StopAll,
            MenuAction::DeleteAllCompleted => a@ == MenuActionModel::DeleteAllCompleted,
            MenuAction::OpenSel => a@ == MenuActionModel::OpenSel,
            MenuAction::OpenFolderSel => a@ == MenuActionModel::OpenFolderSel,
            MenuAction::Properties => a@ == MenuActionModel::Properties,
            _ => false,
        },
{
    reveal(MenuAction::model);
}

/// The commands of the queues group, as their models.
proof fn lemma_queues(a: MenuAction)
    requires
        menu_group(a@) == Group::Queues,
    ensures
        match a {
            MenuAction::MoveToQueue(q) => a@ == MenuActionModel::MoveToQueue(q@),
            MenuAction::RemoveFromQueue => a@ == MenuActionModel::RemoveFromQueue,
            MenuAction::StartQueue(q) => a@ == MenuActionModel::StartQueue(q@),
            MenuAction::StopQueue(q) => a@ == MenuActionModel::StopQueue(q@),
            _ => false,
        },
{
    reveal(MenuAction::model);
}

/// The commands of the tasks group, as their models.
proof fn lemma_tasks(a: MenuAction)
    requires
        menu_group(a@) == Group::Tasks,
    ensures
        match a {
            MenuAction::AddNewDownload => a@ == MenuActionModel::AddNewDownload,
            MenuAction::AddBatch => a@ == MenuActionModel::AddBatch,
            MenuAction::AddBatchClipboard => a@ == MenuActionModel::AddBatchClipboard,
            MenuAction::AddBatchFile => a@ == MenuActionModel::AddBatchFile,
            MenuAction::ExportList => a@ == MenuActionModel::ExportList,
            MenuAction::ImportList => a@ == MenuActionModel::ImportList,
            MenuAction::Exit => a@ == MenuActionModel::Exit,
            _ => false,
        },
{
    reveal(MenuAction::model);
}

/// The commands of the settings group, as their models.
proof fn lemma_settings(a: MenuAction)
    requires
        menu_group(a@) == Group::Settings,
    ensures
        match a {
            MenuAction::Scheduler => a@ == MenuActionModel::Scheduler,
            MenuAction::SpeedLimiterToggle => a@ == MenuActionModel::SpeedLimiterToggle,
            MenuAction::Options => a@ == MenuActionModel::Options,
            MenuAction::Extensions => a@ == MenuActionModel::Extensions,
            MenuAction::HideCategories => a@ == MenuActionModel::HideCategories,
            MenuAction::ArrangeBy(key) => a@ == MenuActionModel::ArrangeBy(key),
            MenuAction::SetTheme(mode) => a@ == MenuActionModel::SetTheme(mode),
            MenuAction::FontSize(size) => a@ == MenuActionModel::FontSize(size),
            MenuAction::Language(l) => a@ == MenuActionModel::Language(l@),
            MenuAction::PowerSaveToggle => a@ == MenuActionModel::PowerSaveToggle,
            _ => false,
        },
{
    reveal(MenuAction::model);
}

/// The commands of the help group, as their models.
proof fn lemma_help(a: MenuAction)
    requires
        menu_group(a@) == Group::Help,
    ensures
        match a {
            MenuAction::CheckUpdates => a@ == MenuActionModel::CheckUpdates,
            MenuAction::HomePage => a@ == MenuActionModel::HomePage,
            MenuAction::Contribute => a@ == MenuActionModel::Contribute,
            MenuAction::ReportIssue => a@ == MenuActionModel::ReportIssue,
            MenuAction::About => a@ == MenuActionModel::About,
            MenuAction::Permissions => a@ == MenuActionModel::Permissions,
            MenuAction::Shortcuts => a@ == MenuActionModel::Shortcuts,
            MenuAction::Logs => a@ == MenuActionModel::Logs,
            _ => false,
        },
{
    reveal(MenuAction::model);
}

impl App {
    fn add_new_download(&mut self)
        ensures
            final(self)@ == old(self)@.add_new_download(),
    {
        proof {
            reveal(AppModel::add_new_download);
        }
        self.set_add_url(AddUrlState::default());
        self.open_window(WinKind::AddUrl);
        self.emit(Effect::ReadClipboard(ClipboardUse::Prefill));
    }

    fn exported(&self) -> (r: String)
        ensures
            r@ == joined(addresses(self@.items()), "\n"@),
    {
        proof {
            reveal(App::model);
        }
        join(&addresses_of(&self.state.downloads), "\n")
    }

    fn export_list(&mut self)
        ensures
            final(self)@ == old(self)@.export_list(),
    {
        proof {
            reveal(AppModel::export_list);
        }
        let text = self.exported();
        self.emit(Effect::WriteExport(text));
        self.emit(Effect::OpenAppDir);
    }

    fn add_each(&mut self, urls: &Vec<String>, now: i64)
        ensures
            final(self)@ == old(self)@.add_each(views(urls@), now),
    {
        let ghost all = views(urls@);
        let mut i: usize = 0;
        assert(all.take(0) =~= seq![]);
        while i < urls.len()
            invariant
                i <= urls@.len(),
                all == views(urls@),
                self@ == old(self)@.add_each(all.take(i as int), now),
            decreases urls.len() - i,
        {
            proof {
                assert(all.take(i + 1).drop_last() =~= all.take(i as int));
                assert(all.take(i + 1).last() == urls@[i as int]@);
            }
            let id = self.add_item(urls[i].clone(), None, None, now);
            i += 1;
        }
        assert(all.take(i as int) =~= all);
    }

    pub fn export_read(&mut self, text: Option<String>, now: i64)
        ensures
            final(self)@ == old(self)@.export_read(text.deep_view(), now),
    {
        proof {
            reveal(AppModel::export_read);
        }
        if let Some(t) = text {
            let urls = addresses_in(&split_text(&t, '\n'));
            self.add_each(&urls, now);
        }
    }

    pub(crate) fn quit(&mut self)
        ensures
            final(self)@ == old(self)@.quit(),
    {
        proof {
            reveal(AppModel::quit);
        }
        self.save_all();
        self.emit(Effect::Exit);
    }

    pub(crate) fn selection(&self) -> (r: Vec<DlId>)
        ensures
            r@ == self@.list.selected,
    {
        proof {
            reveal(App::model);
        }
        self.list.selected.clone()
    }

    fn keep_files(&mut self)
        ensures
            final(self)@ == (AppModel { confirm_remove_file: false, ..old(self)@ }),
    {
        proof {
            reveal(App::model);
        }
        self.confirm_remove_file = false;
    }

    pub(crate) fn toolbar_delete(&mut self)
        ensures
            final(self)@ == old(self)@.toolbar_delete(),
    {
        proof {
            reveal(AppModel::toolbar_delete);
        }
        let ids = self.selection();
        if ids.len() > 0 {
            self.keep_files();
            self.ask(ConfirmKind::DeleteItems(ids));
        }
    }

    fn renew(&mut self, id: DlId)
        ensures
            final(self)@ == old(self)@.edit_item(id, to_fresh()),
    {
        let mut v = self.take_items();
        set_fresh(&mut v, id);
        self.put_items(v);
    }

    fn redownload(&mut self, id: DlId, show: bool, env: &Env)
        ensures
            final(self)@ == old(self)@.redownload(id, show, env@),
    {
        proof {
            reveal(AppModel::redownload);
        }
        if self.item_active(id) {
            return ;
        }
        let part = match self.item(id) {
            Some(d) => Some(d.part_file()),
            None => None,
        };
        if let Some(p) = part {
            self.emit(Effect::RemoveFile(p));
            self.renew(id);
        }
        self.start_download(id, show, env);
    }

    fn redownload_each(&mut self, ids: &Vec<DlId>, show: bool, env: &Env)
        ensures
            final(self)@ == old(self)@.redownload_each(ids@, show, env@),
    {
        let mut i: usize = 0;
        assert(ids@.take(0) =~= seq![]);
        while i < ids.len()
            invariant
                i <= ids@.len(),
                self@ == old(self)@.redownload_each(ids@.take(i as int), show, env@),
            decreases ids.len() - i,
        {
            proof {
                assert(ids@.take(i + 1).drop_last() =~= ids@.take(i as int));
                assert(ids@.take(i + 1).last() == ids@[i as int]);
            }
            self.redownload(ids[i], show, env);
            i += 1;
        }
        assert(ids@.take(i as int) =~= ids@);
    }

    fn delete_all_completed(&mut self)
        ensures
            final(self)@ == old(self)@.delete_all_completed(),
    {
        proof {
            reveal(AppModel::delete_all_completed);
        }
        self.keep_files();
        self.ask(ConfirmKind::DeleteCompleted);
    }

    fn open_scheduler(&mut self)
        ensures
            final(self)@ == old(self)@.open_scheduler(),
    {
        proof {
            reveal(AppModel::open_scheduler);
        }
        let mut s = self.sch_copy();
        if s.queue.as_str().is_empty() {
            s.queue = match self.first_queue() {
                Some(q) => q,
                None => String::new(),
            };
        }
        s.rename_draft = s.queue.clone();
        self.set_sch(s);
        self.open_window(WinKind::Scheduler);
    }

    fn limit_notes(&self) -> (r: Vec<Effect>)
        ensures
            r.deep_view() == self@.limit_notes(self@.items()),
    {
        proof {
            reveal(App::model);
        }
        let ghost all = self.state.downloads.deep_view();
        let mut r: Vec<Effect> = Vec::new();
        let mut i: usize = 0;
        assert(all.take(0) =~= seq![]);
        assert(r.deep_view() =~= seq![]);
        while i < self.state.downloads.len()
            invariant
                i <= self.state.downloads@.len(),
                all == self.state.downloads.deep_view(),
                r.deep_view() == self@.limit_notes(all.take(i as int)),
            decreases self.state.downloads.len() - i,
        {
            let d = &self.state.downloads[i];
            proof {
                assert(all.take(i + 1).drop_last() =~= all.take(i as int));
                assert(all.take(i + 1).last() == d@);
            }
            if d.state.is_active() {
                let ghost before = r.deep_view();
                let e = Effect::Engine(Cmd::SetLimit(d.id, self.effective_limit(d)));
                r.push(e);
                assert(r.deep_view() =~= before.push(e@));
            }
            i += 1;
        }
        assert(all.take(i as int) =~= all);
        r
    }

    fn flip_limiter(&mut self)
        ensures
            final(self)@ == old(self)@.flip_limiter(),
    {
        proof {
            reveal(App::model);
        }
        self.cfg.settings.speed_limiter_on = !self.cfg.settings.speed_limiter_on;
        if self.cfg.settings.global_speed_limit.is_none() {
            self.cfg.settings.global_speed_limit = Some(FIRST_LIMIT);
        }
    }

    fn toggle_limiter(&mut self)
        ensures
            final(self)@ == old(self)@.toggle_limiter(),
    {
        proof {
            reveal(AppModel::toggle_limiter);
        }
        self.flip_limiter();
        let notes = self.limit_notes();
        self.emit_all(notes);
        self.save_config();
        self.emit(Effect::SyncMenu);
    }

    fn hide_categories(&mut self)
        ensures
            final(self)@ == old(self)@.hide_categories(),
    {
        proof {
            reveal(AppModel::hide_categories);
        }
        let on = self.switches();
        self.set_switches(Switches { show_categories: !on.show_categories, ..on });
        self.save_config();
        self.emit(Effect::SyncMenu);
    }

    fn theme_now(&self) -> (r: ThemeMode)
        ensures
            r == self@.cfg.settings.theme(),
    {
        proof {
            reveal(App::model);
        }
        self.cfg.settings.theme()
    }

    fn put_theme(&mut self, mode: ThemeMode)
        ensures
            final(self)@ == old(self)@.with_settings(
                (SettingsModel { theme_mode: Some(mode), ..old(self)@.cfg.settings }),
            ),
    {
        proof {
            reveal(App::model);
        }
        self.cfg.settings.theme_mode = Some(mode);
    }

    fn set_theme(&mut self, mode: ThemeMode)
        ensures
            final(self)@ == old(self)@.set_theme(mode),
    {
        proof {
            reveal(AppModel::set_theme);
        }
        let changed = self.theme_now() != mode;
        self.put_theme(mode);
        self.emit(Effect::SyncMenu);
        if changed {
            self.save_config();
        }
    }

    fn refits(&self) -> (r: Vec<Effect>)
        ensures
            r.deep_view() == self@.refits(self@.windows),
    {
        proof {
            reveal(App::model);
        }
        let ghost all = self.windows@;
        let mut r: Vec<Effect> = Vec::new();
        let mut i: usize = 0;
        assert(all.take(0) =~= seq![]);
        assert(r.deep_view() =~= seq![]);
        while i < self.windows.len()
            invariant
                i <= self.windows@.len(),
                all == self.windows@,
                r.deep_view() == self@.refits(all.take(i as int)),
            decreases self.windows.len() - i,
        {
            let w = self.windows[i];
            proof {
                assert(all.take(i + 1).drop_last() =~= all.take(i as int));
                assert(all.take(i + 1).last() == w);
            }
            if w.kind != WinKind::Main {
                let ghost before = r.deep_view();
                let e = Effect::ResizeWindow { id: w.id, size: self.window_size(w.kind) };
                r.push(e);
                assert(r.deep_view() =~= before.push(e@));
            }
            i += 1;
        }
        assert(all.take(i as int) =~= all);
        r
    }

    fn put_font(&mut self, size: u16) -> (r: u16)
        ensures
            r == old(self)@.cfg.settings.font_size,
            final(self)@ == old(self)@.with_settings(
                (SettingsModel { font_size: size, ..old(self)@.cfg.settings }),
            ),
    {
        proof {
            reveal(App::model);
        }
        let was = self.cfg.settings.font_size;
        self.cfg.settings.font_size = size;
        was
    }

    fn set_font(&mut self, size: u16)
        ensures
            final(self)@ == old(self)@.set_font(size),
    {
        proof {
            reveal(AppModel::set_font);
        }
        let was = self.put_font(size);
        self.emit(Effect::SyncMenu);
        if was != size {
            self.save_config();
            let v = self.refits();
            self.emit_all(v);
        }
    }

    fn put_language(&mut self, tag: String)
        ensures
            final(self)@ == (AppModel {
                cfg: (ConfigFileModel { language: Some(tag@), ..old(self)@.cfg }),
                ..old(self)@
            }),
    {
        proof {
            reveal(App::model);
        }
        self.cfg.language = Some(tag);
    }

    fn choose_language(&mut self, tag: String)
        ensures
            final(self)@ == old(self)@.choose_language(tag@),
    {
        proof {
            reveal(AppModel::choose_language);
        }
        self.note(Note::Locale { tag: tag.clone() });
        self.emit(Effect::LoadLocale(tag.clone()));
        self.put_language(tag);
        self.save_config();
    }

    fn place_in(&mut self, id: DlId, q: &String, order: u32)
        ensures
            final(self)@ == old(self)@.edit_item(id, to_queue_slot(Some(q@), order)),
    {
        let mut v = self.take_items();
        set_queue_slot(&mut v, id, Some(q.clone()), order);
        self.put_items(v);
    }

    fn enqueue(&mut self, id: DlId, q: &String)
        ensures
            final(self)@ == old(self)@.enqueue(id, q@),
    {
        proof {
            reveal(AppModel::enqueue);
        }
        let paused = match self.item(id) {
            Some(d) => d.state == DlState::Paused,
            None => return ,
        };
        let order = self.next_place_in(q);
        self.place_in(id, q, order);
        if paused {
            self.set_item_state(id, DlState::Queued);
        }
    }

    fn enqueue_each(&mut self, ids: &Vec<DlId>, q: &String)
        ensures
            final(self)@ == old(self)@.enqueue_each(ids@, q@),
    {
        let mut i: usize = 0;
        assert(ids@.take(0) =~= seq![]);
        while i < ids.len()
            invariant
                i <= ids@.len(),
                self@ == old(self)@.enqueue_each(ids@.take(i as int), q@),
            decreases ids.len() - i,
        {
            proof {
                assert(ids@.take(i + 1).drop_last() =~= ids@.take(i as int));
                assert(ids@.take(i + 1).last() == ids@[i as int]);
            }
            self.enqueue(ids[i], q);
            i += 1;
        }
        assert(ids@.take(i as int) =~= ids@);
    }

    fn unqueue_each(&mut self, ids: &Vec<DlId>)
        ensures
            final(self)@ == old(self)@.unqueue_each(ids@),
    {
        let mut i: usize = 0;
        assert(ids@.take(0) =~= seq![]);
        while i < ids.len()
            invariant
                i <= ids@.len(),
                self@ == old(self)@.unqueue_each(ids@.take(i as int)),
            decreases ids.len() - i,
        {
            proof {
                assert(ids@.take(i + 1).drop_last() =~= ids@.take(i as int));
                assert(ids@.take(i + 1).last() == ids@[i as int]);
            }
            self.unqueue(ids[i]);
            i += 1;
        }
        assert(ids@.take(i as int) =~= ids@);
    }

    fn toggle_power_save(&mut self)
        ensures
            final(self)@ == old(self)@.toggle_power_save(),
    {
        proof {
            reveal(AppModel::toggle_power_save);
        }
        let on = self.switches();
        self.set_switches(Switches { power_save: !on.power_save, ..on });
        self.tell(Cmd::SetPowerSave(!on.power_save));
        self.note(Note::PowerSave { on: !on.power_save });
        self.save_config();
        self.emit(Effect::ReinstallTray);
    }

    fn open_selected(&mut self, folder: bool)
        ensures
            final(self)@ == old(self)@.open_selected(folder),
    {
        proof {
            reveal(AppModel::open_selected);
        }
        let path = match self.selected_item() {
            Some(d) => if folder {
                d.save_dir.clone()
            } else {
                d.full_path()
            },
            None => return ,
        };
        self.emit(Effect::OpenPath(path));
    }

    pub(crate) fn open_page(&mut self, url: &str)
        ensures
            final(self)@ == old(self)@.open_page(url@),
    {
        self.emit(Effect::OpenPath(url.to_owned()));
    }

    pub(crate) fn default_dir(&self) -> (r: Option<String>)
        ensures
            r.deep_view() == self@.default_dir(),
    {
        proof {
            reveal(App::model);
        }
        if self.cfg.categories.len() > 0 {
            assert(self.cfg.categories.deep_view()[0] == self.cfg.categories@[0]@);
            Some(self.cfg.categories[0].dir.clone())
        } else {
            None
        }
    }

    pub fn refresh_perm_status(&mut self)
        ensures
            final(self)@ == old(self)@.refresh_perm_status(),
    {
        proof {
            reveal(AppModel::refresh_perm_status);
        }
        let dir = match self.default_dir() {
            Some(d) => d,
            None => String::new(),
        };
        let launch = self.switches().launch_on_startup;
        self.emit(Effect::ProbePermissions { dir, launch });
    }

    /// `writable` tells whether a file could be made in the default folder.
    pub fn check_folder_access(&mut self, writable: bool)
        ensures
            final(self)@ == old(self)@.check_folder_access(writable),
    {
        proof {
            reveal(AppModel::check_folder_access);
        }
        if writable {
            return ;
        }
        if let Some(dir) = self.default_dir() {
            self.note(Note::NoFolderAccess { dir: dir.clone() });
            self.ask(ConfirmKind::PermissionWarn { dir });
        }
    }

    pub(crate) fn open_permissions(&mut self)
        ensures
            final(self)@ == old(self)@.open_permissions(),
    {
        proof {
            reveal(AppModel::open_permissions);
        }
        self.set_confirm(None);
        self.close_window(WinKind::Confirm);
        self.refresh_perm_status();
        self.open_window(WinKind::Permissions);
    }

    pub(crate) fn sort_by(&mut self, key: SortKey)
        ensures
            final(self)@ == old(self)@.sort_by(key),
    {
        let mut l = self.take_list();
        l.sort_by(key);
        self.put_list(l);
    }

    fn moving_rows(&self) -> (r: Vec<DlId>)
        ensures
            r@ == ids_where(self@.items(), moving()),
    {
        proof {
            reveal(App::model);
        }
        crate::downloads::quota_park_targets(&self.state.downloads)
    }

    fn stop_moving(&mut self)
        ensures
            final(self)@ == old(self)@.stop_ids_confirming(
                ids_where(old(self)@.items(), moving()),
                true,
            ),
    {
        let ids = self.moving_rows();
        self.stop_ids_confirming(ids, true);
    }

    fn on_rows(&mut self, action: MenuAction, env: &Env)
        requires
            menu_group(action@) == Group::Rows,
        ensures
            final(self)@ == old(self)@.on_rows(action@, env@),
    {
        proof {
            lemma_rows(action);
            reveal(AppModel::on_rows);
        }
        let ids = self.selection();
        let single = ids.len() == 1;
        match action {
            MenuAction::StopDownload => self.stop_ids_confirming(ids, false),
            MenuAction::Remove => self.toolbar_delete(),
            MenuAction::DownloadNow => self.start_each(&ids, single, env),
            MenuAction::Redownload => self.redownload_each(&ids, single, env),
            MenuAction::PauseAll => self.stop_moving(),
            MenuAction::StopAll => self.stop_moving(),
            MenuAction::DeleteAllCompleted => self.delete_all_completed(),
            MenuAction::OpenSel => self.open_selected(false),
            MenuAction::OpenFolderSel => self.open_selected(true),
            MenuAction::Properties => self.show_properties(),
            _ => {},
        }
    }

    fn on_queues(&mut self, action: MenuAction, env: &Env)
        requires
            menu_group(action@) == Group::Queues,
        ensures
            final(self)@ == old(self)@.on_queues(action@, env@),
    {
        proof {
            lemma_queues(action);
            reveal(AppModel::on_queues);
        }
        let ids = self.selection();
        match action {
            MenuAction::MoveToQueue(q) => {
                self.enqueue_each(&ids, &q);
                self.save_state();
            },
            MenuAction::RemoveFromQueue => {
                self.unqueue_each(&ids);
                self.save_state();
            },
            MenuAction::StartQueue(q) => {
                self.set_queue_running(&q, true);
                self.queue_tick(env);
            },
            MenuAction::StopQueue(q) => self.set_queue_running(&q, false),
            _ => {},
        }
    }

    fn on_tasks(&mut self, action: MenuAction)
        requires
            menu_group(action@) == Group::Tasks,
        ensures
            final(self)@ == old(self)@.on_tasks(action@),
    {
        proof {
            lemma_tasks(action);
            reveal(AppModel::on_tasks);
        }
        match action {
            MenuAction::AddNewDownload => self.add_new_download(),
            MenuAction::AddBatch => self.new_batch(),
            MenuAction::AddBatchClipboard => {
                self.new_batch();
                self.emit(Effect::ReadClipboard(ClipboardUse::BatchPaste));
            },
            MenuAction::AddBatchFile => {
                self.new_batch();
                self.emit(Effect::Pick(Pick::BatchFile));
            },
            MenuAction::ExportList => self.export_list(),
            MenuAction::ImportList => self.emit(Effect::ReadExport),
            MenuAction::Exit => self.quit(),
            _ => {},
        }
    }

    fn on_settings(&mut self, action: MenuAction)
        requires
            menu_group(action@) == Group::Settings,
        ensures
            final(self)@ == old(self)@.on_settings(action@),
    {
        proof {
            lemma_settings(action);
            reveal(AppModel::on_settings);
        }
        match action {
            MenuAction::Scheduler => self.open_scheduler(),
            MenuAction::SpeedLimiterToggle => self.toggle_limiter(),
            MenuAction::Options => self.open_options(None),
            MenuAction::Extensions => self.open_options(Some(OptTab::Extensions)),
            MenuAction::HideCategories => self.hide_categories(),
            MenuAction::ArrangeBy(key) => self.sort_by(key),
            MenuAction::SetTheme(mode) => self.set_theme(mode),
            MenuAction::FontSize(size) => self.set_font(size),
            MenuAction::Language(l) => self.choose_language(l),
            MenuAction::PowerSaveToggle => self.toggle_power_save(),
            _ => {},
        }
    }

    fn on_help(&mut self, action: MenuAction)
        requires
            menu_group(action@) == Group::Help,
        ensures
            final(self)@ == old(self)@.on_help(action@),
    {
        proof {
            lemma_help(action);
            reveal(AppModel::on_help);
        }
        match action {
            MenuAction::CheckUpdates => self.check_updates(),
            MenuAction::HomePage => self.open_page("https://hydra.javad.dev"),
            MenuAction::Contribute => self.open_page("https://github.com/ja7ad/hydra"),
            MenuAction::ReportIssue => self.open_page("https://github.com/ja7ad/hydra/issues"),
            MenuAction::About => self.open_window(WinKind::About),
            MenuAction::Permissions => self.open_permissions(),
            MenuAction::Shortcuts => self.open_window(WinKind::Shortcuts),
            MenuAction::Logs => self.emit(Effect::OpenLog),
            _ => {},
        }
    }

    /// Carries a command out.
    pub fn on_menu(&mut self, action: MenuAction, env: &Env)
        ensures
            final(self)@ == old(self)@.on_menu(action@, env@),
    {
        proof {
            reveal(AppModel::on_menu);
        }
        match group_of(&action) {
            Group::Rows => self.on_rows(action, env),
            Group::Queues => self.on_queues(action, env),
            Group::Tasks => self.on_tasks(action),
            Group::Settings => self.on_settings(action),
            Group::Help => self.on_help(action),
            Group::Unused => {},
        }
    }
}

// ------------------------------------------------------------------------- laws

/// A running transfer is not started over: it owns what is on disk.
pub proof fn running_transfers_are_not_restarted(s: AppModel, id: DlId, show: bool, env: EnvModel)
    requires
        is_active(s.items(), id),
    ensures
        s.redownload(id, show, env) == s,
{
    reveal(AppModel::redownload);
}

/// Nothing is deleted before the user has confirmed it: the command only asks,
/// and the box that also removes files starts out unticked.
pub proof fn deleting_asks_first(s: AppModel)
    requires
        s.list.selected.len() > 0,
    ensures
        s.toolbar_delete() == (AppModel {
            confirm_remove_file: false,
            confirm: Some(ConfirmKindModel::DeleteItems(s.list.selected)),
            ..s
        }).open_window(WinKind::Confirm),
{
    reveal(AppModel::toolbar_delete);
}

/// An exported list that is read back holds the addresses of the rows, those
/// that are addresses, in their order.
pub proof fn an_exported_list_reads_back(v: Items)
    requires
        v.len() > 0,
        forall|i: int|
            0 <= i < v.len() ==> {
                let u = (#[trigger] v[i]).url;
                &&& u.len() > 0
                &&& trimmed(u) == u
                &&& url_parts(u) is Ok
                &&& !u.contains('\n')
            },
    ensures
        address_lines(split(joined(addresses(v), "\n"@), '\n')) == addresses(v),
{
    let a = addresses(v);
    assert forall|i: int| 0 <= i < a.len() implies !(#[trigger] a[i]).contains('\n') by {
        assert(a[i] == v[i].url);
    }
    crate::text::lemma_split_of_joined(a, '\n');
    reveal_strlit("\n");
    assert("\n"@ =~= seq!['\n']);
    assert forall|i: int| 0 <= i < a.len() implies (#[trigger] a[i]).len() > 0 && trimmed(a[i])
        == a[i] && url_parts(a[i]) is Ok by {
        assert(a[i] == v[i].url);
    }
    lemma_all_addresses(a);
}

pub proof fn lemma_all_addresses(a: Seq<Seq<char>>)
    requires
        forall|i: int|
            0 <= i < a.len() ==> (#[trigger] a[i]).len() > 0 && trimmed(a[i]) == a[i] && url_parts(
                a[i],
            ) is Ok,
    ensures
        address_lines(a) == a,
    decreases a.len(),
{
    if a.len() > 0 {
        let b = a.drop_last();
        assert forall|i: int| 0 <= i < b.len() implies (#[trigger] b[i]).len() > 0 && trimmed(b[i])
            == b[i] && url_parts(b[i]) is Ok by {
            assert(b[i] == a[i]);
        }
        lemma_all_addresses(b);
        assert(a.last() == a[a.len() - 1]);
        assert(address_lines(a) =~= a);
    } else {
        assert(address_lines(a) =~= a);
    }
}

} // verus!
