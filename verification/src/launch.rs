//! How the program starts: its command line, its first state, and the clocks
//! that run while it is up.
use crate::app::{App, AppModel, Dirty, ListUi, ListUiModel, MenuUi, Mods, TreeUi, TreeUiModel};
use crate::effect::{Effect, EffectModel};
use crate::engine::{Cmd, CmdModel};
use crate::i18n::{translated, Catalogue, Texts};
use crate::model::{ConfigFile, ConfigFileModel, QueueDef, StateFile, StateFileModel, ThemeMode};
use crate::notes::{Note, NoteModel};
use crate::queues::Queues;
use crate::state::{
    AddUrlState, AddUrlStateModel, BatchState, BatchStateModel, FileInfoState, FileInfoStateModel,
    OptionsState, OptionsStateModel, ProgState, ScanState, SchState, SchStateModel, SortKey,
    TreeSel, TreeSelModel, UpdateUiState, UpdateUiStateModel, Win, WinId, WinKind,
    ZipPreviewState, ZipPreviewStateModel,
};
use crate::text::{begins, same, strip_prefix, views};
use std::collections::HashMap;
use vstd::prelude::*;

verus! {

// -------------------------------------------------------------- the command line

/// The directory that the words after the program's own name ask for. A missing
/// or empty one is an error: a misspelt profile must not fall back to the
/// default one.
pub open spec fn config_dir(args: Seq<Seq<char>>) -> Result<Option<Seq<char>>, ()>
    decreases args.len(),
{
    if args.len() == 0 {
        Ok(None)
    } else if args[0] == "--config"@ {
        if args.len() < 2 || args[1].len() == 0 {
            Err(())
        } else {
            Ok(Some(args[1]))
        }
    } else if begins(args[0], "--config="@) {
        let rest = args[0].skip("--config="@.len() as int);
        if rest.len() == 0 {
            Err(())
        } else {
            Ok(Some(rest))
        }
    } else {
        config_dir(args.skip(1))
    }
}

pub open spec fn dir_result(r: Result<Option<String>, String>) -> Result<Option<Seq<char>>, ()> {
    match r {
        Ok(Some(d)) => Ok(Some(d@)),
        Ok(None) => Ok(None),
        Err(_) => Err(()),
    }
}

/// The directory named by `--config DIR` or `--config=DIR`. The error is the
/// line to print. The first word is the program's own path and never a flag.
pub fn config_dir_arg(args: &Vec<String>) -> (r: Result<Option<String>, String>)
    ensures
        dir_result(r) == config_dir(
            if args@.len() > 0 {
                views(args@).skip(1)
            } else {
                seq![]
            },
        ),
        r is Err ==> r->Err_0@ == "--config needs a directory"@,
{
    if args.len() == 0 {
        return Ok(None);
    }
    let ghost all = views(args@);
    let ghost words = all.skip(1);
    let mut i: usize = 1;
    while i < args.len()
        invariant
            1 <= i <= args@.len(),
            all == views(args@),
            words == all.skip(1),
            args@.len() > 0,
            config_dir(words) == config_dir(all.skip(i as int)),
        decreases args.len() - i,
    {
        let ghost rest = all.skip(i as int);
        proof {
            assert(rest[0] == args@[i as int]@);
            assert(rest.skip(1) =~= all.skip(i + 1));
            if i + 1 < args@.len() {
                assert(rest[1] == args@[i + 1]@);
            }
        }
        if same(&args[i], "--config") {
            if i + 1 >= args.len() || args[i + 1].as_str().is_empty() {
                return Err("--config needs a directory".to_owned());
            }
            return Ok(Some(args[i + 1].clone()));
        }
        if let Some(dir) = strip_prefix(&args[i], "--config=") {
            if dir.as_str().is_empty() {
                return Err("--config needs a directory".to_owned());
            }
            return Ok(Some(dir));
        }
        i += 1;
    }
    assert(all.skip(i as int) =~= seq![]);
    Ok(None)
}

/// Whether the program is to come up in the tray.
pub fn wants_tray(args: &Vec<String>) -> (r: bool)
    ensures
        r == views(args@).contains("--minimized"@),
{
    let mut i: usize = 0;
    while i < args.len()
        invariant
            i <= args@.len(),
            forall|k: int| 0 <= k < i ==> (#[trigger] views(args@)[k]) != "--minimized"@,
        decreases args.len() - i,
    {
        if same(&args[i], "--minimized") {
            assert(views(args@)[i as int] == "--minimized"@);
            return true;
        }
        i += 1;
    }
    false
}

// ---------------------------------------------------------------- the first state

impl ListUiModel {
    /// A table of `columns` columns that shows the latest tries first.
    pub open spec fn initial(columns: usize) -> ListUiModel {
        ListUiModel {
            selected: seq![],
            anchor: None,
            last_click: None,
            press: None,
            drag: false,
            from_empty: false,
            band: false,
            hover_row: None,
            hover_col: None,
            drag_order: seq![],
            resizing: None,
            columns,
            sort: (SortKey::LastTry, false),
        }
    }
}

impl TreeUiModel {
    /// Only the first branch is open.
    pub open spec fn initial() -> TreeUiModel {
        TreeUiModel {
            sel: TreeSelModel::All,
            open: seq![true, false, false, false],
            renaming: None,
            draft: seq![],
            last_click: None,
        }
    }
}

impl AppModel {
    /// The state of a program that has just read its files.
    pub open spec fn initial(
        cfg: ConfigFileModel,
        state: StateFileModel,
        lang: Texts,
        columns: usize,
        system_dark: bool,
    ) -> AppModel {
        AppModel {
            cfg,
            state,
            windows: seq![],
            next_win: 0,
            main_id: None,
            list: ListUiModel::initial(columns),
            tree: TreeUiModel::initial(),
            menu: MenuUi { open_menu: None, open_submenu: None, context: false, queue_menu: None },
            mods: Mods { command: false, control: false, shift: false, alt: false },
            add_url: AddUrlStateModel::empty(),
            file_info: FileInfoStateModel::empty(),
            zip_preview: ZipPreviewStateModel::empty(),
            prog: Map::empty(),
            scans: Map::empty(),
            options: OptionsStateModel::empty(),
            updater: UpdateUiStateModel::empty(),
            sch: SchStateModel::empty(),
            batch: BatchStateModel::empty(),
            confirm: None,
            confirm_remove_file: false,
            pending_delete: seq![],
            dirty: Dirty { state: false, cfg: false },
            quota_saved: (state.dl_quota.used, state.dl_quota.window_start),
            last_clipboard: seq![],
            pending_add: None,
            capture_raise: false,
            system_dark,
            minimize_on_open: seq![],
            power: None,
            lang,
            out: seq![],
        }
    }

    /// The queues that start with the program.
    pub open spec fn startup_queues(v: Queues) -> Seq<Seq<char>>
        decreases v.len(),
    {
        if v.len() == 0 {
            seq![]
        } else {
            let r = Self::startup_queues(v.drop_last());
            if v.last().schedule.start_on_startup {
                r.push(v.last().name)
            } else {
                r
            }
        }
    }

    pub open spec fn run_queues(self, names: Seq<Seq<char>>) -> AppModel
        decreases names.len(),
    {
        if names.len() == 0 {
            self
        } else {
            self.run_queues(names.drop_last()).set_queue_running(names.last(), true)
        }
    }

    /// What happens before the first window: the engine learns whether to save
    /// power, and the browser extension what to capture; queues marked for it
    /// start, and the login item is brought in line. A start without a window
    /// needs a tray.
    #[verifier::opaque]
    pub open spec fn boot(self, minimized: bool) -> AppModel {
        let on = self.cfg.settings.on;
        let s = self.tell(CmdModel::SetPowerSave(on.power_save)).emit(
            EffectModel::PublishConfig,
        ).run_queues(Self::startup_queues(self.queues())).emit(
            EffectModel::ApplyAutostart { launch: on.launch_on_startup, tray: on.start_in_tray },
        ).emit(EffectModel::SweepLeftovers);
        if minimized {
            s.emit(EffectModel::InstallTray)
        } else {
            s
        }
    }

    /// What the log is told of a minimized start.
    pub open spec fn note_start(self, minimized: bool, tray: bool) -> AppModel {
        if !minimized {
            self
        } else if tray {
            self.note(NoteModel::StartedHidden)
        } else {
            self.note(NoteModel::NoTray)
        }
    }

    /// The default folder is tried.
    pub open spec fn try_folder(self) -> AppModel {
        match self.default_dir() {
            Some(dir) => self.emit(EffectModel::ProbeFolder(dir)),
            None => self,
        }
    }

    /// The program comes up: hidden in the tray, where that was asked for and
    /// there is one, or with its main window and a look for updates.
    #[verifier::opaque]
    pub open spec fn come_up(self, minimized: bool, tray: bool) -> AppModel {
        let on = self.cfg.settings.on;
        let hidden = minimized && tray;
        let s = self.note_start(minimized, tray).emit(
            EffectModel::DockSync { hide: on.hide_from_taskbar, windows: !hidden },
        );
        if hidden {
            s
        } else {
            let t = s.open_window(WinKind::Main).try_folder();
            if on.check_updates_on_startup {
                t.emit(EffectModel::CheckUpdate { beta: on.beta_channel })
            } else {
                t
            }
        }
    }
}

fn startup_names(v: &Vec<QueueDef>) -> (r: Vec<String>)
    ensures
        views(r@) == AppModel::startup_queues(v.deep_view()),
{
    let ghost all = v.deep_view();
    let mut r: Vec<String> = Vec::new();
    let mut i: usize = 0;
    assert(all.take(0) =~= seq![]);
    assert(views(r@) =~= seq![]);
    while i < v.len()
        invariant
            i <= v@.len(),
            all == v.deep_view(),
            views(r@) == AppModel::startup_queues(all.take(i as int)),
        decreases v.len() - i,
    {
        proof {
            assert(all.take(i + 1).drop_last() =~= all.take(i as int));
            assert(all.take(i + 1).last() == v@[i as int]@);
        }
        if v[i].schedule.start_on_startup {
            let ghost before = views(r@);
            let n = v[i].name.clone();
            r.push(n);
            assert(views(r@) =~= before.push(n@));
        }
        i += 1;
    }
    assert(all.take(i as int) =~= all);
    r
}

fn new_list(columns: usize) -> (r: ListUi)
    ensures
        r@ == ListUiModel::initial(columns),
{
    let r = ListUi {
        selected: Vec::new(),
        anchor: None,
        last_click: None,
        press: None,
        drag: false,
        from_empty: false,
        band: false,
        hover_row: None,
        hover_col: None,
        drag_order: Vec::new(),
        resizing: None,
        columns,
        sort: (SortKey::LastTry, false),
    };
    assert(r@ =~= ListUiModel::initial(columns));
    r
}

fn new_tree() -> (r: TreeUi)
    ensures
        r@ == TreeUiModel::initial(),
{
    let r = TreeUi {
        sel: TreeSel::All,
        open: [true, false, false, false],
        renaming: None,
        draft: String::new(),
        last_click: None,
    };
    assert(r@.open =~= seq![true, false, false, false]);
    assert(r@ =~= TreeUiModel::initial());
    r
}

impl App {
    /// The program after its files have been read.
    pub fn new(
        cfg: ConfigFile,
        state: StateFile,
        lang: Catalogue,
        columns: usize,
        system_dark: bool,
    ) -> (r: App)
        ensures
            r@ == AppModel::initial(cfg@, state@, lang@, columns, system_dark),
    {
        broadcast use vstd::std_specs::hash::group_hash_axioms;

        proof {
            reveal(App::model);
        }
        let quota_saved = (state.dl_quota.used, state.dl_quota.window_start);
        let prog: HashMap<u64, ProgState> = HashMap::new();
        let scans: HashMap<u64, ScanState> = HashMap::new();
        let windows: Vec<Win> = Vec::new();
        let pending_delete: Vec<(u64, u64)> = Vec::new();
        let minimize_on_open: Vec<WinId> = Vec::new();
        let out: Vec<Effect> = Vec::new();
        proof {
            assert(crate::app::map_models(prog@) =~= Map::empty());
            assert(crate::app::map_models(scans@) =~= Map::empty());
            assert(out.deep_view() =~= seq![]);
        }
        App {
            cfg,
            state,
            windows,
            next_win: 0,
            main_id: None,
            list: new_list(columns),
            tree: new_tree(),
            menu: MenuUi { open_menu: None, open_submenu: None, context: false, queue_menu: None },
            mods: Mods { command: false, control: false, shift: false, alt: false },
            add_url: AddUrlState::default(),
            file_info: FileInfoState::default(),
            zip_preview: ZipPreviewState::default(),
            prog,
            scans,
            options: OptionsState::default(),
            updater: UpdateUiState::default(),
            sch: SchState::default(),
            batch: BatchState::default(),
            confirm: None,
            confirm_remove_file: false,
            pending_delete,
            dirty: Dirty { state: false, cfg: false },
            quota_saved,
            last_clipboard: String::new(),
            pending_add: None,
            capture_raise: false,
            system_dark,
            minimize_on_open,
            power: None,
            lang,
            out,
        }
    }

    fn startup_names(&self) -> (r: Vec<String>)
        ensures
            views(r@) == AppModel::startup_queues(self@.queues()),
    {
        proof {
            reveal(App::model);
        }
        startup_names(&self.cfg.queues)
    }

    fn run_queues(&mut self, names: &Vec<String>)
        ensures
            final(self)@ == old(self)@.run_queues(views(names@)),
    {
        let ghost all = views(names@);
        let mut i: usize = 0;
        assert(all.take(0) =~= seq![]);
        while i < names.len()
            invariant
                i <= names@.len(),
                all == views(names@),
                self@ == old(self)@.run_queues(all.take(i as int)),
            decreases names.len() - i,
        {
            proof {
                assert(all.take(i + 1).drop_last() =~= all.take(i as int));
                assert(all.take(i + 1).last() == names@[i as int]@);
            }
            self.set_queue_running(&names[i], true);
            i += 1;
        }
        assert(all.take(i as int) =~= all);
    }

    /// `minimized` where a start without a window was asked for.
    pub fn boot(&mut self, minimized: bool)
        ensures
            final(self)@ == old(self)@.boot(minimized),
    {
        proof {
            reveal(AppModel::boot);
        }
        let on = self.switches();
        let names = self.startup_names();
        self.tell(Cmd::SetPowerSave(on.power_save));
        self.emit(Effect::PublishConfig);
        self.run_queues(&names);
        self.emit(
            Effect::ApplyAutostart { launch: on.launch_on_startup, tray: on.start_in_tray },
        );
        self.emit(Effect::SweepLeftovers);
        if minimized {
            self.emit(Effect::InstallTray);
        }
    }

    fn note_start(&mut self, minimized: bool, tray: bool)
        ensures
            final(self)@ == old(self)@.note_start(minimized, tray),
    {
        if minimized {
            self.note(
                if tray {
                    Note::StartedHidden
                } else {
                    Note::NoTray
                },
            );
        }
    }

    fn try_folder(&mut self)
        ensures
            final(self)@ == old(self)@.try_folder(),
    {
        if let Some(dir) = self.default_dir() {
            self.emit(Effect::ProbeFolder(dir));
        }
    }

    /// `tray` where one has come up after [`Self::boot`].
    pub fn come_up(&mut self, minimized: bool, tray: bool)
        ensures
            final(self)@ == old(self)@.come_up(minimized, tray),
    {
        proof {
            reveal(AppModel::come_up);
        }
        let on = self.switches();
        let hidden = minimized && tray;
        self.note_start(minimized, tray);
        self.emit(Effect::DockSync { hide: on.hide_from_taskbar, windows: !hidden });
        if hidden {
            return ;
        }
        self.open_window(WinKind::Main);
        self.try_folder();
        if on.check_updates_on_startup {
            self.emit(Effect::CheckUpdate { beta: on.beta_channel });
        }
    }
}

// ------------------------------------------------------------------- its surface

/// The title of a window; a progress dialog has one of its own.
pub open spec fn title_words(kind: Option<WinKind>, lang: Texts, progress: Seq<char>) -> Seq<char> {
    match kind {
        Some(WinKind::Main) => translated(lang, "Hydra Download Manager"@),
        Some(WinKind::AddUrl) => translated(lang, "Enter new address to download"@),
        Some(WinKind::FileInfo(_)) => translated(lang, "Download File Info"@),
        Some(WinKind::Progress(_)) => progress,
        Some(WinKind::Complete(_)) => translated(lang, "Download complete"@),
        Some(WinKind::Options) => translated(lang, "Hydra Configuration"@),
        Some(WinKind::Scheduler) => translated(lang, "Scheduler"@),
        Some(WinKind::Batch) => translated(lang, "Add batch download"@),
        Some(WinKind::About) => translated(lang, "About Hydra"@),
        Some(WinKind::Shortcuts) => translated(lang, "Keyboard Shortcuts"@),
        Some(WinKind::Confirm) => translated(lang, "Hydra"@),
        Some(WinKind::Permissions) => translated(lang, "Permissions"@),
        Some(WinKind::Update) => translated(lang, "Update Hydra"@),
        Some(WinKind::Power) => translated(lang, "Hydra"@),
        Some(WinKind::ZipPreview(_)) => translated(lang, "Zip preview"@),
        None => "Hydra"@,
    }
}

/// The title of a window, or of one that is not known.
pub fn title(kind: Option<WinKind>, lang: &Catalogue, progress: &str) -> (r: String)
    ensures
        r@ == title_words(kind, lang@, progress@),
{
    let words: &str = match kind {
        Some(WinKind::Main) => "Hydra Download Manager",
        Some(WinKind::AddUrl) => "Enter new address to download",
        Some(WinKind::FileInfo(_)) => "Download File Info",
        Some(WinKind::Progress(_)) => {
            return progress.to_owned();
        },
        Some(WinKind::Complete(_)) => "Download complete",
        Some(WinKind::Options) => "Hydra Configuration",
        Some(WinKind::Scheduler) => "Scheduler",
        Some(WinKind::Batch) => "Add batch download",
        Some(WinKind::About) => "About Hydra",
        Some(WinKind::Shortcuts) => "Keyboard Shortcuts",
        Some(WinKind::Confirm) => "Hydra",
        Some(WinKind::Permissions) => "Permissions",
        Some(WinKind::Update) => "Update Hydra",
        Some(WinKind::Power) => "Hydra",
        Some(WinKind::ZipPreview(_)) => "Zip preview",
        None => {
            return "Hydra".to_owned();
        },
    };
    lang.tr(words)
}

/// Whether the windows are dark.
pub open spec fn dark_now(mode: ThemeMode, system_dark: bool) -> bool {
    match mode {
        ThemeMode::System => system_dark,
        ThemeMode::Light => false,
        ThemeMode::Dark => true,
    }
}

/// The clocks that run. An idle program has only the slow one.
#[derive(Clone, Copy, PartialEq, Eq, Structural, Debug)]
pub struct Clocks {
    /// Seconds between two ticks.
    pub tick_secs: u64,
    /// The countdown of a power action, at one second.
    pub power: bool,
    /// Milliseconds between two looks at the pointer, while something is dragged.
    pub drag_ms: Option<u64>,
    /// The glide of the progress bars, at 80 milliseconds.
    pub animation: bool,
}

impl AppModel {
    pub open spec fn any_active(self) -> bool {
        exists|i: int| 0 <= i < self.items().len() && (#[trigger] self.items()[i]).state.active()
    }

    pub open spec fn clocks(self) -> Clocks {
        let save = self.cfg.settings.on.power_save;
        Clocks {
            tick_secs: if save {
                3
            } else {
                1
            },
            power: self.power is Some,
            drag_ms: if self.list.drag || self.list.resizing is Some {
                Some(
                    if save {
                        33
                    } else {
                        16
                    },
                )
            } else {
                None
            },
            animation: !save && (self.any_active() || self.scanning()),
        }
    }
}

impl App {
    /// Whether the windows are dark.
    pub fn is_dark(&self) -> (r: bool)
        ensures
            r == dark_now(self@.cfg.settings.theme(), self@.system_dark),
    {
        proof {
            reveal(App::model);
        }
        match self.cfg.settings.theme() {
            ThemeMode::System => self.system_dark,
            ThemeMode::Light => false,
            ThemeMode::Dark => true,
        }
    }

    pub(crate) fn any_row_active(&self) -> (r: bool)
        ensures
            r == self@.any_active(),
    {
        proof {
            reveal(App::model);
        }
        let v = &self.state.downloads;
        let mut i: usize = 0;
        while i < v.len()
            invariant
                i <= v@.len(),
                self@.items() == v.deep_view(),
                forall|k: int| 0 <= k < i ==> !(#[trigger] v@[k])@.state.active(),
            decreases v.len() - i,
        {
            if v[i].state.is_active() {
                assert(self@.items()[i as int] == v@[i as int]@);
                return true;
            }
            i += 1;
        }
        proof {
            assert forall|k: int| 0 <= k < self@.items().len() implies !(
            #[trigger] self@.items()[k]).state.active() by {
                assert(self@.items()[k] == v@[k]@);
            }
        }
        false
    }

    fn drags(&self) -> (r: bool)
        ensures
            r == (self@.list.drag || self@.list.resizing is Some),
    {
        proof {
            reveal(App::model);
        }
        self.list.drag || self.list.resizing.is_some()
    }

    fn counts_down(&self) -> (r: bool)
        ensures
            r == (self@.power is Some),
    {
        proof {
            reveal(App::model);
        }
        self.power.is_some()
    }

    /// The clocks to run now.
    pub fn clocks(&self) -> (r: Clocks)
        ensures
            r == self@.clocks(),
    {
        let save = self.switches().power_save;
        Clocks {
            tick_secs: if save {
                3
            } else {
                1
            },
            power: self.counts_down(),
            drag_ms: if self.drags() {
                Some(
                    if save {
                        33
                    } else {
                        16
                    },
                )
            } else {
                None
            },
            animation: !save && (self.any_row_active() || self.scanning()),
        }
    }
}

/// Whether a Mac shows the program in the Dock: always while a window is up,
/// because a program without a tile has no menu bar.
pub fn in_dock(hide: bool, windows_open: bool) -> (r: bool)
    ensures
        r == !(hide && !windows_open),
{
    !(hide && !windows_open)
}

/// The message that asks an X11 window manager to keep a window out of the
/// taskbar and the pager, or to show it there again: the action, the two hints,
/// and that an ordinary application asks.
pub fn skip_message(hide: bool, skip_taskbar: u32, skip_pager: u32) -> (r: [u32; 5])
    ensures
        r@ == seq![
            if hide {
                1u32
            } else {
                0u32
            },
            skip_taskbar,
            skip_pager,
            1u32,
            0u32,
        ],
{
    let action: u32 = if hide {
        1
    } else {
        0
    };
    let r = [action, skip_taskbar, skip_pager, 1, 0];
    assert(r@ =~= seq![action, skip_taskbar, skip_pager, 1u32, 0u32]);
    r
}

// ------------------------------------------------------------------------- laws

/// A program with nothing to show costs one slow clock and no other.
pub proof fn an_idle_program_has_one_clock(s: AppModel)
    requires
        s.power is None,
        !s.list.drag,
        s.list.resizing is None,
        !s.any_active(),
        !s.scanning(),
    ensures
        s.clocks().drag_ms is None,
        !s.clocks().power,
        !s.clocks().animation,
{
}

/// The program's own path is never read as a flag.
pub proof fn the_program_path_is_no_flag(path: Seq<char>)
    ensures
        config_dir(seq![path].skip(1)) == Ok::<Option<Seq<char>>, ()>(None),
{
    assert(seq![path].skip(1) =~= seq![]);
}

} // verus!
