//! The state that all windows share, and how it changes.
use crate::effect::{Effect, EffectModel};
use crate::i18n::{Catalogue, Texts};
use crate::model::{
    CategoryDef, CategoryDefModel, ConfigFile, ConfigFileModel, DlId, DownloadItem, DownloadItemModel, QueueDef, QueueDefModel,
    SettingsModel, StateFile, StateFileModel, Switches,
};
use crate::names::{Disk, DiskModel};
use crate::notes::{Note, NoteModel};
use crate::state::{
    AddUrlState, AddUrlStateModel, BatchState, BatchStateModel, ConfirmKind, ConfirmKindModel,
    FileInfoState, FileInfoStateModel, MenuBarKind, OptionsState, OptionsStateModel, PendingAdd,
    PendingAddModel, PowerPrompt, ProgState, ProgStateModel, ScanState, ScanStateModel, SchState,
    SchStateModel, SortKey, TreeSel, TreeSelModel, UpdateUiState, UpdateUiStateModel, Win,
    WinId, ZipPreviewState, ZipPreviewStateModel,
};
use std::collections::HashMap;
use vstd::prelude::*;
use crate::spans::Span;

pub mod add_url;
pub mod adding;
pub mod batch;
pub mod dialogs;
pub mod events;
pub mod fields;
pub mod file_info;
pub mod invariants;
pub mod keys;
pub mod laws;
pub mod list;
pub mod menu;
pub mod options;
pub mod power;
pub mod progress;
pub mod queues;
pub mod scheduler;
pub mod starting;
pub mod transfers;
pub mod tree;
pub mod update;
pub mod updates;
pub mod windows;

verus! {

/// What the download table shows and what the pointer does in it.
#[derive(Debug)]
pub struct ListUi {
    /// Selected rows; the first one is the primary.
    pub selected: Vec<u64>,
    pub anchor: Option<DlId>,
    /// Row and time of the last click.
    pub last_click: Option<(DlId, u64)>,
    /// Anchor row of a drag-selection in progress.
    pub press: Option<DlId>,
    /// A button is down somewhere in the list.
    pub drag: bool,
    /// The drag started below the last row.
    pub from_empty: bool,
    /// The translucent box of the drag is shown.
    pub band: bool,
    pub hover_row: Option<DlId>,
    pub hover_col: Option<usize>,
    /// Visible order when the drag started.
    pub drag_order: Vec<u64>,
    /// Column whose edge is being dragged.
    pub resizing: Option<usize>,
    /// How many columns the table has.
    pub columns: usize,
    /// Column and whether ascending.
    pub sort: (SortKey, bool),
}

/// The model of [`ListUi`].
#[verifier::ext_equal]
pub struct ListUiModel {
    pub selected: Seq<u64>,
    pub anchor: Option<DlId>,
    pub last_click: Option<(DlId, u64)>,
    pub press: Option<DlId>,
    pub drag: bool,
    pub from_empty: bool,
    pub band: bool,
    pub hover_row: Option<DlId>,
    pub hover_col: Option<usize>,
    pub drag_order: Seq<u64>,
    pub resizing: Option<usize>,
    pub columns: usize,
    pub sort: (SortKey, bool),
}

impl View for ListUi {
    type V = ListUiModel;

    open spec fn view(&self) -> ListUiModel {
        ListUiModel {
            selected: self.selected@,
            anchor: self.anchor,
            last_click: self.last_click,
            press: self.press,
            drag: self.drag,
            from_empty: self.from_empty,
            band: self.band,
            hover_row: self.hover_row,
            hover_col: self.hover_col,
            drag_order: self.drag_order@,
            resizing: self.resizing,
            columns: self.columns,
            sort: self.sort,
        }
    }
}

impl DeepView for ListUi {
    type V = ListUiModel;

    open spec fn deep_view(&self) -> ListUiModel {
        self@
    }
}

/// The tree on the left.
#[derive(Debug)]
pub struct TreeUi {
    pub sel: TreeSel,
    /// All, unfinished, finished, queues.
    pub open: [bool; 4],
    /// The queue being renamed in place.
    pub renaming: Option<String>,
    pub draft: String,
    /// Last click on a queue row.
    pub last_click: Option<(String, u64)>,
}

/// The model of [`TreeUi`].
#[verifier::ext_equal]
pub struct TreeUiModel {
    pub sel: TreeSelModel,
    pub open: Seq<bool>,
    pub renaming: Option<Seq<char>>,
    pub draft: Seq<char>,
    pub last_click: Option<(Seq<char>, u64)>,
}

impl View for TreeUi {
    type V = TreeUiModel;

    open spec fn view(&self) -> TreeUiModel {
        TreeUiModel {
            sel: self.sel@,
            open: self.open@,
            renaming: self.renaming.deep_view(),
            draft: self.draft@,
            last_click: self.last_click.deep_view(),
        }
    }
}

impl DeepView for TreeUi {
    type V = TreeUiModel;

    open spec fn deep_view(&self) -> TreeUiModel {
        self@
    }
}

/// The menu bar, the context menu and the toolbar's split buttons.
#[derive(Clone, Copy, PartialEq, Eq, Structural, Debug)]
pub struct MenuUi {
    pub open_menu: Option<MenuBarKind>,
    pub open_submenu: Option<usize>,
    /// A context menu is open.
    pub context: bool,
    /// The queue dropdown of Start Queue (`true`) or Stop Queue is open.
    pub queue_menu: Option<bool>,
}

/// The modifier keys that are down. `command` is Command or Control, as the
/// platform has it.
#[derive(Clone, Copy, PartialEq, Eq, Structural, Debug)]
pub struct Mods {
    pub command: bool,
    pub control: bool,
    pub shift: bool,
    pub alt: bool,
}

/// What has changed since it was last stored.
#[derive(Clone, Copy, PartialEq, Eq, Structural, Debug)]
pub struct Dirty {
    pub state: bool,
    pub cfg: bool,
}

/// What is true of the world outside while a message is handled.
#[derive(Debug)]
pub struct Env {
    /// Seconds since the epoch.
    pub now: i64,
    /// Milliseconds of a clock that does not run backwards.
    pub ms: u64,
    /// Wall-clock minute, `HH:MM`.
    pub hhmm: String,
    /// Sunday is 0.
    pub weekday: usize,
    /// There is a tray icon to come back through.
    pub tray_active: bool,
    pub disk: Disk,
}

/// The model of [`Env`].
pub struct EnvModel {
    pub now: i64,
    pub ms: u64,
    pub hhmm: Seq<char>,
    pub weekday: int,
    pub tray_active: bool,
    pub disk: DiskModel,
}

impl View for Env {
    type V = EnvModel;

    open spec fn view(&self) -> EnvModel {
        EnvModel {
            now: self.now,
            ms: self.ms,
            hhmm: self.hhmm@,
            weekday: self.weekday as int,
            tray_active: self.tray_active,
            disk: self.disk@,
        }
    }
}

/// The models of the values of a map.
pub open spec fn map_models<T: DeepView>(m: Map<u64, T>) -> Map<u64, T::V> {
    m.map_values(|t: T| t.deep_view())
}

/// The state that all windows share.
#[derive(Debug)]
pub struct App {
    pub cfg: ConfigFile,
    pub state: StateFile,
    /// The windows that are open.
    pub windows: Vec<Win>,
    /// The number of the next window to open.
    pub next_win: WinId,
    /// The main window, unless it went to the tray.
    pub main_id: Option<WinId>,
    pub list: ListUi,
    pub tree: TreeUi,
    pub menu: MenuUi,
    pub mods: Mods,
    pub add_url: AddUrlState,
    pub file_info: FileInfoState,
    pub zip_preview: ZipPreviewState,
    pub prog: HashMap<u64, ProgState>,
    /// Virus scans in flight, and verdicts still on screen.
    pub scans: HashMap<u64, ScanState>,
    pub options: OptionsState,
    pub updater: UpdateUiState,
    pub sch: SchState,
    pub batch: BatchState,
    pub confirm: Option<ConfirmKind>,
    /// "Also remove file from disk" in the delete confirmations.
    pub confirm_remove_file: bool,
    /// Rows to be deleted once the engine confirms their stop, each with the
    /// time of the request.
    pub pending_delete: Vec<(u64, u64)>,
    pub dirty: Dirty,
    /// The download-limit counter as last stored.
    pub quota_saved: (u64, i64),
    pub last_clipboard: String,
    /// Waiting on the duplicate dialog.
    pub pending_add: Option<PendingAdd>,
    /// The next capture dialog must come up above the browser.
    pub capture_raise: bool,
    pub system_dark: bool,
    /// Windows that go down as soon as they are up.
    pub minimize_on_open: Vec<WinId>,
    pub power: Option<PowerPrompt>,
    pub lang: Catalogue,
    /// What has been asked for and not been performed yet.
    pub out: Vec<Effect>,
}

/// The model of [`App`].
#[verifier::ext_equal]
pub struct AppModel {
    pub cfg: ConfigFileModel,
    pub state: StateFileModel,
    pub windows: Seq<Win>,
    pub next_win: WinId,
    pub main_id: Option<WinId>,
    pub list: ListUiModel,
    pub tree: TreeUiModel,
    pub menu: MenuUi,
    pub mods: Mods,
    pub add_url: AddUrlStateModel,
    pub file_info: FileInfoStateModel,
    pub zip_preview: ZipPreviewStateModel,
    pub prog: Map<u64, ProgStateModel>,
    pub scans: Map<u64, ScanStateModel>,
    pub options: OptionsStateModel,
    pub updater: UpdateUiStateModel,
    pub sch: SchStateModel,
    pub batch: BatchStateModel,
    pub confirm: Option<ConfirmKindModel>,
    pub confirm_remove_file: bool,
    pub pending_delete: Seq<Span>,
    pub dirty: Dirty,
    pub quota_saved: (u64, i64),
    pub last_clipboard: Seq<char>,
    pub pending_add: Option<PendingAddModel>,
    pub capture_raise: bool,
    pub system_dark: bool,
    pub minimize_on_open: Seq<WinId>,
    pub power: Option<PowerPrompt>,
    pub lang: Texts,
    pub out: Seq<EffectModel>,
}

impl View for App {
    type V = AppModel;

    open spec fn view(&self) -> AppModel {
        self.model()
    }
}

impl App {
    /// The model of the whole state. Hidden, because it holds every field:
    /// only what touches a field looks inside.
    #[verifier::opaque]
    pub open spec fn model(&self) -> AppModel {
        AppModel {
            cfg: self.cfg@,
            state: self.state@,
            windows: self.windows@,
            next_win: self.next_win,
            main_id: self.main_id,
            list: self.list@,
            tree: self.tree@,
            menu: self.menu,
            mods: self.mods,
            add_url: self.add_url@,
            file_info: self.file_info@,
            zip_preview: self.zip_preview@,
            prog: map_models(self.prog@),
            scans: map_models(self.scans@),
            options: self.options@,
            updater: self.updater@,
            sch: self.sch@,
            batch: self.batch@,
            confirm: self.confirm.deep_view(),
            confirm_remove_file: self.confirm_remove_file,
            pending_delete: self.pending_delete@,
            dirty: self.dirty,
            quota_saved: self.quota_saved,
            last_clipboard: self.last_clipboard@,
            pending_add: self.pending_add.deep_view(),
            capture_raise: self.capture_raise,
            system_dark: self.system_dark,
            minimize_on_open: self.minimize_on_open@,
            power: self.power,
            lang: self.lang@,
            out: self.out.deep_view(),
        }
    }
}

impl DeepView for App {
    type V = AppModel;

    open spec fn deep_view(&self) -> AppModel {
        self@
    }
}

impl AppModel {
    pub open spec fn emit(self, e: EffectModel) -> AppModel {
        AppModel { out: self.out.push(e), ..self }
    }

    pub open spec fn emit_all(self, v: Seq<EffectModel>) -> AppModel {
        AppModel { out: self.out + v, ..self }
    }

    /// The session log is told of something.
    pub open spec fn note(self, n: NoteModel) -> AppModel {
        self.emit(EffectModel::Log(n.level(), n.text()))
    }

    pub open spec fn items(self) -> Seq<DownloadItemModel> {
        self.state.downloads
    }

    pub open spec fn with_items(self, v: Seq<DownloadItemModel>) -> AppModel {
        AppModel { state: StateFileModel { downloads: v, ..self.state }, ..self }
    }

    pub open spec fn queues(self) -> Seq<QueueDefModel> {
        self.cfg.queues
    }

    pub open spec fn with_queues(self, v: Seq<QueueDefModel>) -> AppModel {
        AppModel { cfg: ConfigFileModel { queues: v, ..self.cfg }, ..self }
    }

    pub open spec fn with_categories(self, v: Seq<CategoryDefModel>) -> AppModel {
        AppModel { cfg: ConfigFileModel { categories: v, ..self.cfg }, ..self }
    }

    /// Every menu is shut.
    pub open spec fn close_menus(self) -> AppModel {
        AppModel {
            menu: MenuUi {
                open_menu: None,
                open_submenu: None,
                context: false,
                queue_menu: None,
            },
            ..self
        }
    }

    pub open spec fn with_switches(self, on: Switches) -> AppModel {
        AppModel {
            cfg: ConfigFileModel {
                settings: SettingsModel { on, ..self.cfg.settings },
                ..self.cfg
            },
            ..self
        }
    }

    pub open spec fn save_state(self) -> AppModel {
        AppModel { dirty: Dirty { state: true, ..self.dirty }, ..self }
    }

    pub open spec fn save_config(self) -> AppModel {
        AppModel { dirty: Dirty { cfg: true, ..self.dirty }, ..self }
    }

    /// Everything that is marked is stored, and the marks go.
    pub open spec fn flush_saves(self) -> AppModel {
        let s = if self.dirty.state {
            AppModel { dirty: Dirty { state: false, ..self.dirty }, ..self }.emit(
                EffectModel::SaveState,
            )
        } else {
            self
        };
        if s.dirty.cfg {
            AppModel { dirty: Dirty { cfg: false, ..s.dirty }, ..s }.emit(EffectModel::SaveConfig)
        } else {
            s
        }
    }

    /// Everything is stored now.
    pub open spec fn save_all(self) -> AppModel {
        self.save_state().save_config().flush_saves()
    }

    pub open spec fn tr(self, msgid: Seq<char>) -> Seq<char> {
        crate::i18n::translated(self.lang, msgid)
    }
}

impl App {
    /// Asks for an effect.
    pub fn emit(&mut self, e: Effect)
        ensures
            final(self)@ == old(self)@.emit(e@),
    {
        proof {
            reveal(App::model);
        }
        let ghost before = self.out.deep_view();
        self.out.push(e);
        assert(self.out.deep_view() =~= before.push(e@));
    }

    /// Tells the session log of something.
    pub(crate) fn note(&mut self, n: Note)
        ensures
            final(self)@ == old(self)@.note(n@),
    {
        self.emit(Effect::Log(n.level(), n.text()));
    }

    /// Asks for several effects.
    pub fn emit_all(&mut self, v: Vec<Effect>)
        ensures
            final(self)@ == old(self)@.emit_all(v.deep_view()),
    {
        proof {
            reveal(App::model);
        }
        let ghost before = self.out.deep_view();
        let ghost more = v.deep_view();
        let mut v = v;
        self.out.append(&mut v);
        assert(self.out.deep_view() =~= before + more);
    }

    /// Takes the rows out, to be put back after a change.
    pub(crate) fn take_items(&mut self) -> (r: Vec<DownloadItem>)
        ensures
            r.deep_view() == old(self)@.items(),
            final(self)@ == old(self)@.with_items(seq![]),
    {
        proof {
            reveal(App::model);
        }
        let mut r: Vec<DownloadItem> = Vec::new();
        core::mem::swap(&mut r, &mut self.state.downloads);
        assert(self.state.downloads.deep_view() =~= seq![]);
        r
    }

    pub(crate) fn put_items(&mut self, v: Vec<DownloadItem>)
        ensures
            final(self)@ == old(self)@.with_items(v.deep_view()),
    {
        proof {
            reveal(App::model);
        }
        self.state.downloads = v;
    }

    /// Takes the queues out, to be put back after a change.
    pub(crate) fn take_queues(&mut self) -> (r: Vec<QueueDef>)
        ensures
            r.deep_view() == old(self)@.queues(),
            final(self)@ == old(self)@.with_queues(seq![]),
    {
        proof {
            reveal(App::model);
        }
        let mut r: Vec<QueueDef> = Vec::new();
        core::mem::swap(&mut r, &mut self.cfg.queues);
        assert(self.cfg.queues.deep_view() =~= seq![]);
        r
    }

    pub(crate) fn put_queues(&mut self, v: Vec<QueueDef>)
        ensures
            final(self)@ == old(self)@.with_queues(v.deep_view()),
    {
        proof {
            reveal(App::model);
        }
        self.cfg.queues = v;
    }

    /// Takes the categories out, to be put back after a change.
    pub(crate) fn take_categories(&mut self) -> (r: Vec<CategoryDef>)
        ensures
            r.deep_view() == old(self)@.cfg.categories,
            final(self)@ == old(self)@.with_categories(seq![]),
    {
        proof {
            reveal(App::model);
        }
        let mut r: Vec<CategoryDef> = Vec::new();
        core::mem::swap(&mut r, &mut self.cfg.categories);
        assert(self.cfg.categories.deep_view() =~= seq![]);
        r
    }

    pub(crate) fn put_categories(&mut self, v: Vec<CategoryDef>)
        ensures
            final(self)@ == old(self)@.with_categories(v.deep_view()),
    {
        proof {
            reveal(App::model);
        }
        self.cfg.categories = v;
    }

    pub(crate) fn close_menus(&mut self)
        ensures
            final(self)@ == old(self)@.close_menus(),
    {
        proof {
            reveal(App::model);
        }
        self.menu = MenuUi {
            open_menu: None,
            open_submenu: None,
            context: false,
            queue_menu: None,
        };
    }

    pub(crate) fn switches(&self) -> (r: Switches)
        ensures
            r == self@.cfg.settings.on,
    {
        proof {
            reveal(App::model);
        }
        self.cfg.settings.on
    }

    pub(crate) fn set_switches(&mut self, on: Switches)
        ensures
            final(self)@ == old(self)@.with_switches(on),
    {
        proof {
            reveal(App::model);
        }
        self.cfg.settings.on = on;
    }

    /// Mark the download list for storing; [`Self::flush_saves`] does it, at
    /// most once per tick and on every way out.
    pub fn save_state(&mut self)
        ensures
            final(self)@ == old(self)@.save_state(),
    {
        proof {
            reveal(App::model);
        }
        self.dirty.state = true;
    }

    /// Mark the configuration for storing.
    pub fn save_config(&mut self)
        ensures
            final(self)@ == old(self)@.save_config(),
    {
        proof {
            reveal(App::model);
        }
        self.dirty.cfg = true;
    }

    /// Store whatever is marked.
    pub fn flush_saves(&mut self)
        ensures
            final(self)@ == old(self)@.flush_saves(),
    {
        proof {
            reveal(App::model);
        }
        if self.dirty.state {
            self.dirty.state = false;
            self.emit(Effect::SaveState);
        }
        if self.dirty.cfg {
            self.dirty.cfg = false;
            self.emit(Effect::SaveConfig);
        }
    }

    pub fn save_all(&mut self)
        ensures
            final(self)@ == old(self)@.save_all(),
    {
        self.save_state();
        self.save_config();
        self.flush_saves();
    }

    /// What has been asked for since the last time.
    pub fn take_effects(&mut self) -> (r: Vec<Effect>)
        ensures
            r.deep_view() == old(self)@.out,
            final(self)@ == (AppModel { out: seq![], ..old(self)@ }),
    {
        proof {
            reveal(App::model);
        }
        let mut r: Vec<Effect> = Vec::new();
        core::mem::swap(&mut r, &mut self.out);
        assert(self.out.deep_view() =~= seq![]);
        r
    }
}

} // verus!
