//! Messages: everything that can happen to the program, and what each does to
//! its state.
use crate::actions::MenuAction;
use crate::app::add_url::{metalink_result, stream_result, ExtEvent};
use crate::app::fields::{AddrField, BatchField, FiField};
use crate::app::options::OptField;
use crate::app::scheduler::SchField;
use crate::app::updates::Checked;
use crate::app::{App, AppModel, Env, EnvModel, Mods};
use crate::effect::{Effect, EffectModel, Pick, PickModel};
use crate::engine::{Event, LinkMeta, MetalinkProbe, StreamProbe};
use crate::i18n::Catalogue;
use crate::model::{DlId, PowerAction};
use crate::scan::ScanEvent;
use crate::shortcuts::Key;
use crate::spans::Span;
use crate::state::{
    MenuBarKind, OptTab, ProgTab, SchTab, SortKey, TreeSel, WinId, ZipPeek,
};
use crate::update::UpdateEvent;
use vstd::prelude::*;

verus! {

/// Something that happened.
#[derive(Debug)]
pub enum Message {
    // Windows, time and the world outside.
    Noop,
    WindowOpened(WinId),
    /// A window has closed, whoever closed it.
    WindowClosed(WinId),
    /// The close button only asks.
    WindowCloseRequested(WinId),
    Engine(Event),
    /// Once a second.
    Tick,
    /// One second of the countdown.
    PowerTick,
    PowerNow,
    PowerCancel,
    ClipboardSeen(Option<String>),
    ClipboardAddStart(Option<String>),
    /// A native menu or tray entry, by its name.
    NativeMenu(String),
    /// The appearance of the desktop; none where it does not say.
    SystemTheme(Option<bool>),
    /// A request of the browser extension.
    Ext(ExtEvent),
    /// The exported list was read.
    ExportRead(Option<String>),
    /// The default folder was tried.
    FolderProbed(bool),
    /// The texts of the chosen language.
    LocaleLoaded(Catalogue),
    /// A folder was picked for a transfer that was refused its own.
    Granted { id: DlId, picked: Option<String>, error: String, done: u64, held: Vec<Span> },
    // The main window.
    MenuOpen(MenuBarKind),
    MenuHover(MenuBarKind),
    MenuClose,
    SubmenuHover(Option<usize>),
    Menu(MenuAction),
    QueueMenuOpen(bool),
    TreeSelect(TreeSel),
    TreeToggle(u8),
    TreeQueueRenameStart(String),
    TreeQueueRenameDraft(String),
    TreeQueueRenameCommit,
    Mods(Mods),
    /// A key that no widget consumed, with the window it was aimed at.
    RawKey(Key, Mods, WinId),
    ShortcutEdit(String, String),
    ToolbarResume,
    ToolbarStop,
    ToolbarDelete,
    // The download table.
    RowClick(DlId),
    RowRightClick(DlId),
    SelectAll,
    RowEnter(DlId),
    RowExit(DlId),
    EmptyPress,
    EmptyEnter,
    HeaderEnter(usize),
    HeaderExit(usize),
    ColResizeStart(usize),
    SortBy(SortKey),
    MouseUp,
    // The Add URL and File Info dialogs.
    AddrPrefill(Option<String>),
    AddrChanged(String),
    AddrProbeStream,
    AddrStreamProbed(Result<StreamProbe, String>),
    AddrProbeMetalink,
    AddrMetalinkProbed(Result<MetalinkProbe, String>),
    AddrEdit(AddrField),
    AddUrlOk,
    FiCategory(String),
    FiBgToggle(bool),
    FiBrowse,
    FiEdit(FiField),
    FiDownloadLater,
    FiStartDownload,
    FiCancel,
    FiPreview,
    ZipPeeked(DlId, ZipPeek),
    /// A File Info dialog's own probe answered.
    InfoProbed(DlId, Option<LinkMeta>),
    // The progress dialog, scans, and finished downloads.
    ProgTabSet(DlId, ProgTab),
    ProgToggleDetails(DlId),
    ProgPauseResume(DlId),
    ProgCancel(DlId),
    /// Hides the speed tab, or else the completion tab.
    ProgHideTab(DlId, bool),
    ProgLimitOn(DlId, bool),
    ProgLimitKb(DlId, String),
    ProgLimitRemember(DlId, bool),
    ProgShutdownAfter(DlId, bool),
    ProgShutdownAction(DlId, PowerAction),
    ProgRemoveCompleted(bool),
    ProgScanSkip(DlId),
    ProgScanKeep(DlId),
    ProgScanDelete(DlId),
    Scan(ScanEvent),
    OpenFile(DlId),
    OpenFolder(DlId),
    // Options, updates and the scheduler.
    OptTabSet(OptTab),
    /// Opens a browser's add-on store.
    OptExtStore(String),
    OptCopy(String),
    OptOk,
    OptDraft(OptField),
    UpdateChecked(Checked),
    UpdateNow,
    UpdateCancel,
    UpdateOpenPage,
    UpdateOpenUrl(String),
    UpdateEvent(UpdateEvent),
    SchQueue(String),
    SchNameEdit,
    SchNameDraft(String),
    SchNameCommit,
    SchTabSet(SchTab),
    SchField(SchField),
    SchStartNow,
    SchStop,
    SchNewQueue,
    SchDeleteQueue,
    SchDragStart(DlId),
    SchDragOver(DlId),
    SchFileUp,
    SchFileDown,
    SchFileRemove,
    // The batch dialog, and the questions that are asked.
    /// The whole text of the box.
    BatchEdit(String),
    /// A text file was read for the batch dialog, whose caret and selection stand
    /// at these two places.
    BatchLoaded(Option<String>, usize, usize),
    BatchProbed(String, Option<LinkMeta>),
    /// A pasted link turned out to be a mirror list.
    BatchMetalinkProbed(String, Option<MetalinkProbe>),
    BatchCheck(usize, bool),
    BatchCheckAll(bool),
    BatchField(BatchField),
    BatchBrowseDir,
    BatchOk,
    ConfirmYes,
    ConfirmRemoveFile(bool),
    OpenPermissions,
    PermOpenPane(String),
    PermRefresh,
    DupResume,
    DupOpen,
    DupNew,
    CloseThis(WinId),
}

/// The parts of the program that messages are about.
#[derive(Clone, Copy, PartialEq, Eq, Structural, Debug)]
pub enum Part {
    /// Windows, time and the world outside.
    Frame,
    /// The main window.
    Chrome,
    /// The download table.
    Table,
    /// The Add URL and File Info dialogs.
    Adding,
    /// The progress dialog, scans, and finished downloads.
    Running,
    /// Options, updates and the scheduler.
    Setup,
    /// The batch dialog, and the questions that are asked.
    Asking,
}

/// Which part a message is about.
pub open spec fn part(m: Message) -> Part {
    match m {
        Message::Noop => Part::Frame,
        Message::WindowOpened(_) => Part::Frame,
        Message::WindowClosed(_) => Part::Frame,
        Message::WindowCloseRequested(_) => Part::Frame,
        Message::Engine(_) => Part::Frame,
        Message::Tick => Part::Frame,
        Message::PowerTick => Part::Frame,
        Message::PowerNow => Part::Frame,
        Message::PowerCancel => Part::Frame,
        Message::ClipboardSeen(_) => Part::Frame,
        Message::ClipboardAddStart(_) => Part::Frame,
        Message::NativeMenu(_) => Part::Frame,
        Message::SystemTheme(_) => Part::Frame,
        Message::Ext(_) => Part::Frame,
        Message::ExportRead(_) => Part::Frame,
        Message::FolderProbed(_) => Part::Frame,
        Message::LocaleLoaded(_) => Part::Frame,
        Message::Granted { .. } => Part::Frame,
        Message::MenuOpen(_) => Part::Chrome,
        Message::MenuHover(_) => Part::Chrome,
        Message::MenuClose => Part::Chrome,
        Message::SubmenuHover(_) => Part::Chrome,
        Message::Menu(_) => Part::Chrome,
        Message::QueueMenuOpen(_) => Part::Chrome,
        Message::TreeSelect(_) => Part::Chrome,
        Message::TreeToggle(_) => Part::Chrome,
        Message::TreeQueueRenameStart(_) => Part::Chrome,
        Message::TreeQueueRenameDraft(_) => Part::Chrome,
        Message::TreeQueueRenameCommit => Part::Chrome,
        Message::Mods(_) => Part::Chrome,
        Message::RawKey(_, _, _) => Part::Chrome,
        Message::ShortcutEdit(_, _) => Part::Chrome,
        Message::ToolbarResume => Part::Chrome,
        Message::ToolbarStop => Part::Chrome,
        Message::ToolbarDelete => Part::Chrome,
        Message::RowClick(_) => Part::Table,
        Message::RowRightClick(_) => Part::Table,
        Message::SelectAll => Part::Table,
        Message::RowEnter(_) => Part::Table,
        Message::RowExit(_) => Part::Table,
        Message::EmptyPress => Part::Table,
        Message::EmptyEnter => Part::Table,
        Message::HeaderEnter(_) => Part::Table,
        Message::HeaderExit(_) => Part::Table,
        Message::ColResizeStart(_) => Part::Table,
        Message::SortBy(_) => Part::Table,
        Message::MouseUp => Part::Table,
        Message::AddrPrefill(_) => Part::Adding,
        Message::AddrChanged(_) => Part::Adding,
        Message::AddrProbeStream => Part::Adding,
        Message::AddrStreamProbed(_) => Part::Adding,
        Message::AddrProbeMetalink => Part::Adding,
        Message::AddrMetalinkProbed(_) => Part::Adding,
        Message::AddrEdit(_) => Part::Adding,
        Message::AddUrlOk => Part::Adding,
        Message::FiCategory(_) => Part::Adding,
        Message::FiBgToggle(_) => Part::Adding,
        Message::FiBrowse => Part::Adding,
        Message::FiEdit(_) => Part::Adding,
        Message::FiDownloadLater => Part::Adding,
        Message::FiStartDownload => Part::Adding,
        Message::FiCancel => Part::Adding,
        Message::FiPreview => Part::Adding,
        Message::ZipPeeked(_, _) => Part::Adding,
        Message::InfoProbed(_, _) => Part::Adding,
        Message::ProgTabSet(_, _) => Part::Running,
        Message::ProgToggleDetails(_) => Part::Running,
        Message::ProgPauseResume(_) => Part::Running,
        Message::ProgCancel(_) => Part::Running,
        Message::ProgHideTab(_, _) => Part::Running,
        Message::ProgLimitOn(_, _) => Part::Running,
        Message::ProgLimitKb(_, _) => Part::Running,
        Message::ProgLimitRemember(_, _) => Part::Running,
        Message::ProgShutdownAfter(_, _) => Part::Running,
        Message::ProgShutdownAction(_, _) => Part::Running,
        Message::ProgRemoveCompleted(_) => Part::Running,
        Message::ProgScanSkip(_) => Part::Running,
        Message::ProgScanKeep(_) => Part::Running,
        Message::ProgScanDelete(_) => Part::Running,
        Message::Scan(_) => Part::Running,
        Message::OpenFile(_) => Part::Running,
        Message::OpenFolder(_) => Part::Running,
        Message::OptTabSet(_) => Part::Setup,
        Message::OptExtStore(_) => Part::Setup,
        Message::OptCopy(_) => Part::Setup,
        Message::OptOk => Part::Setup,
        Message::OptDraft(_) => Part::Setup,
        Message::UpdateChecked(_) => Part::Setup,
        Message::UpdateNow => Part::Setup,
        Message::UpdateCancel => Part::Setup,
        Message::UpdateOpenPage => Part::Setup,
        Message::UpdateOpenUrl(_) => Part::Setup,
        Message::UpdateEvent(_) => Part::Setup,
        Message::SchQueue(_) => Part::Setup,
        Message::SchNameEdit => Part::Setup,
        Message::SchNameDraft(_) => Part::Setup,
        Message::SchNameCommit => Part::Setup,
        Message::SchTabSet(_) => Part::Setup,
        Message::SchField(_) => Part::Setup,
        Message::SchStartNow => Part::Setup,
        Message::SchStop => Part::Setup,
        Message::SchNewQueue => Part::Setup,
        Message::SchDeleteQueue => Part::Setup,
        Message::SchDragStart(_) => Part::Setup,
        Message::SchDragOver(_) => Part::Setup,
        Message::SchFileUp => Part::Setup,
        Message::SchFileDown => Part::Setup,
        Message::SchFileRemove => Part::Setup,
        Message::BatchEdit(_) => Part::Asking,
        Message::BatchLoaded(..) => Part::Asking,
        Message::BatchProbed(_, _) => Part::Asking,
        Message::BatchMetalinkProbed(_, _) => Part::Asking,
        Message::BatchCheck(_, _) => Part::Asking,
        Message::BatchCheckAll(_) => Part::Asking,
        Message::BatchField(_) => Part::Asking,
        Message::BatchBrowseDir => Part::Asking,
        Message::BatchOk => Part::Asking,
        Message::ConfirmYes => Part::Asking,
        Message::ConfirmRemoveFile(_) => Part::Asking,
        Message::OpenPermissions => Part::Asking,
        Message::PermOpenPane(_) => Part::Asking,
        Message::PermRefresh => Part::Asking,
        Message::DupResume => Part::Asking,
        Message::DupOpen => Part::Asking,
        Message::DupNew => Part::Asking,
        Message::CloseThis(_) => Part::Asking,
    }
}

pub fn part_of(m: &Message) -> (r: Part)
    ensures
        r == part(*m),
{
    match m {
        Message::Noop
        | Message::WindowOpened(_)
        | Message::WindowClosed(_)
        | Message::WindowCloseRequested(_)
        | Message::Engine(_)
        | Message::Tick
        | Message::PowerTick
        | Message::PowerNow
        | Message::PowerCancel
        | Message::ClipboardSeen(_)
        | Message::ClipboardAddStart(_)
        | Message::NativeMenu(_)
        | Message::SystemTheme(_)
        | Message::Ext(_)
        | Message::ExportRead(_)
        | Message::FolderProbed(_)
        | Message::LocaleLoaded(_)
        | Message::Granted { .. } => Part::Frame,
        Message::MenuOpen(_)
        | Message::MenuHover(_)
        | Message::MenuClose
        | Message::SubmenuHover(_)
        | Message::Menu(_)
        | Message::QueueMenuOpen(_)
        | Message::TreeSelect(_)
        | Message::TreeToggle(_)
        | Message::TreeQueueRenameStart(_)
        | Message::TreeQueueRenameDraft(_)
        | Message::TreeQueueRenameCommit
        | Message::Mods(_)
        | Message::RawKey(_, _, _)
        | Message::ShortcutEdit(_, _)
        | Message::ToolbarResume
        | Message::ToolbarStop
        | Message::ToolbarDelete => Part::Chrome,
        Message::RowClick(_)
        | Message::RowRightClick(_)
        | Message::SelectAll
        | Message::RowEnter(_)
        | Message::RowExit(_)
        | Message::EmptyPress
        | Message::EmptyEnter
        | Message::HeaderEnter(_)
        | Message::HeaderExit(_)
        | Message::ColResizeStart(_)
        | Message::SortBy(_)
        | Message::MouseUp => Part::Table,
        Message::AddrPrefill(_)
        | Message::AddrChanged(_)
        | Message::AddrProbeStream
        | Message::AddrStreamProbed(_)
        | Message::AddrProbeMetalink
        | Message::AddrMetalinkProbed(_)
        | Message::AddrEdit(_)
        | Message::AddUrlOk
        | Message::FiCategory(_)
        | Message::FiBgToggle(_)
        | Message::FiBrowse
        | Message::FiEdit(_)
        | Message::FiDownloadLater
        | Message::FiStartDownload
        | Message::FiCancel
        | Message::FiPreview
        | Message::ZipPeeked(_, _)
        | Message::InfoProbed(_, _) => Part::Adding,
        Message::ProgTabSet(_, _)
        | Message::ProgToggleDetails(_)
        | Message::ProgPauseResume(_)
        | Message::ProgCancel(_)
        | Message::ProgHideTab(_, _)
        | Message::ProgLimitOn(_, _)
        | Message::ProgLimitKb(_, _)
        | Message::ProgLimitRemember(_, _)
        | Message::ProgShutdownAfter(_, _)
        | Message::ProgShutdownAction(_, _)
        | Message::ProgRemoveCompleted(_)
        | Message::ProgScanSkip(_)
        | Message::ProgScanKeep(_)
        | Message::ProgScanDelete(_)
        | Message::Scan(_)
        | Message::OpenFile(_)
        | Message::OpenFolder(_) => Part::Running,
        Message::OptTabSet(_)
        | Message::OptExtStore(_)
        | Message::OptCopy(_)
        | Message::OptOk
        | Message::OptDraft(_)
        | Message::UpdateChecked(_)
        | Message::UpdateNow
        | Message::UpdateCancel
        | Message::UpdateOpenPage
        | Message::UpdateOpenUrl(_)
        | Message::UpdateEvent(_)
        | Message::SchQueue(_)
        | Message::SchNameEdit
        | Message::SchNameDraft(_)
        | Message::SchNameCommit
        | Message::SchTabSet(_)
        | Message::SchField(_)
        | Message::SchStartNow
        | Message::SchStop
        | Message::SchNewQueue
        | Message::SchDeleteQueue
        | Message::SchDragStart(_)
        | Message::SchDragOver(_)
        | Message::SchFileUp
        | Message::SchFileDown
        | Message::SchFileRemove => Part::Setup,
        Message::BatchEdit(_)
        | Message::BatchLoaded(..)
        | Message::BatchProbed(_, _)
        | Message::BatchMetalinkProbed(_, _)
        | Message::BatchCheck(_, _)
        | Message::BatchCheckAll(_)
        | Message::BatchField(_)
        | Message::BatchBrowseDir
        | Message::BatchOk
        | Message::ConfirmYes
        | Message::ConfirmRemoveFile(_)
        | Message::OpenPermissions
        | Message::PermOpenPane(_)
        | Message::PermRefresh
        | Message::DupResume
        | Message::DupOpen
        | Message::DupNew
        | Message::CloseThis(_) => Part::Asking,
    }
}

impl AppModel {
    #[verifier::opaque]
    pub open spec fn update_frame(self, m: Message, env: EnvModel) -> AppModel {
        match m {
            Message::Noop => self,
            Message::WindowOpened(win) => self.window_opened(win),
            Message::WindowClosed(win) => self.window_closed(win, env),
            Message::WindowCloseRequested(win) => self.emit(EffectModel::CloseWindow(win)),
            Message::Engine(ev) => self.on_engine(ev, env),
            Message::Tick => self.tick(env),
            Message::PowerTick => self.power_tick(),
            Message::PowerNow => self.fire_power_action(),
            Message::PowerCancel => self.cancel_power_action(),
            Message::ClipboardSeen(text) => self.clipboard_seen(text.deep_view(), env),
            Message::ClipboardAddStart(text) => self.clipboard_add(text.deep_view(), env),
            Message::NativeMenu(id) => self.native_menu(id@, env),
            Message::SystemTheme(dark) => self.system_theme(dark),
            Message::Ext(ev) => self.on_ext(ev, env),
            Message::ExportRead(text) => self.export_read(text.deep_view(), env.now),
            Message::FolderProbed(writable) => self.check_folder_access(writable),
            Message::LocaleLoaded(lang) => self.locale_loaded(lang@),
            Message::Granted { id, picked, error, done, held } => self.on_granted(id, picked.deep_view(), error@, done, held@, env),
            _ => self,
        }
    }

    #[verifier::opaque]
    pub open spec fn update_chrome(self, m: Message, env: EnvModel) -> AppModel {
        match m {
            Message::MenuOpen(kind) => self.menu_open(kind),
            Message::MenuHover(kind) => self.menu_hover(kind),
            Message::MenuClose => self.close_menus(),
            Message::SubmenuHover(i) => self.submenu_hover(i),
            Message::Menu(action) => self.menu(action@, env),
            Message::QueueMenuOpen(start) => self.queue_menu_open(start),
            Message::TreeSelect(sel) => self.tree_select(sel@, env.ms),
            Message::TreeToggle(i) => self.tree_toggle(i),
            Message::TreeQueueRenameStart(name) => self.tree_rename_start(name@),
            Message::TreeQueueRenameDraft(v) => self.tree_rename_draft(v@),
            Message::TreeQueueRenameCommit => self.tree_rename_commit(),
            Message::Mods(m) => self.set_mods(m),
            Message::RawKey(key, m, win) => self.raw_key(key, m, win, env),
            Message::ShortcutEdit(action, combo) => self.shortcut_edit(action@, combo@),
            Message::ToolbarResume => self.toolbar_resume(env),
            Message::ToolbarStop => self.toolbar_stop(),
            Message::ToolbarDelete => self.toolbar_delete(),
            _ => self,
        }
    }

    #[verifier::opaque]
    pub open spec fn update_table(self, m: Message, env: EnvModel) -> AppModel {
        match m {
            Message::RowClick(id) => self.row_click(id, env.ms),
            Message::RowRightClick(id) => self.row_right_click(id),
            Message::SelectAll => self.select_all(),
            Message::RowEnter(id) => self.with_list(self.list.enter(id)),
            Message::RowExit(id) => self.with_list(self.list.exit(id)),
            Message::EmptyPress => self.empty_press(),
            Message::EmptyEnter => self.with_list(self.list.enter_empty()),
            Message::HeaderEnter(col) => self.with_list(self.list.enter_header(col)),
            Message::HeaderExit(col) => self.with_list(self.list.exit_header(col)),
            Message::ColResizeStart(col) => self.with_list(self.list.grab_column(col)),
            Message::SortBy(key) => self.sort_by(key),
            Message::MouseUp => self.mouse_up(),
            _ => self,
        }
    }

    #[verifier::opaque]
    pub open spec fn update_adding(self, m: Message, env: EnvModel) -> AppModel {
        match m {
            Message::AddrPrefill(text) => self.addr_prefill(text.deep_view()),
            Message::AddrChanged(s) => self.addr_changed(s@),
            Message::AddrProbeStream => self.probe_stream(),
            Message::AddrStreamProbed(r) => self.stream_probed(stream_result(r)),
            Message::AddrProbeMetalink => self.probe_metalink(),
            Message::AddrMetalinkProbed(r) => self.metalink_probed(metalink_result(r)),
            Message::AddrEdit(f) => self.addr_edit(f),
            Message::AddUrlOk => self.add_url_ok(env),
            Message::FiCategory(c) => self.fi_category(c@),
            Message::FiBgToggle(b) => self.fi_bg_toggle(b, env),
            Message::FiBrowse => self.fi_browse(),
            Message::FiEdit(f) => self.fi_edit(f),
            Message::FiDownloadLater => self.fi_later(),
            Message::FiStartDownload => self.fi_start(env),
            Message::FiCancel => self.fi_cancel(env.ms),
            Message::FiPreview => self.fi_preview(),
            Message::ZipPeeked(dl, result) => self.zip_peeked(dl, result@),
            Message::InfoProbed(id, meta) => self.info_probed(id, meta.deep_view()),
            _ => self,
        }
    }

    #[verifier::opaque]
    pub open spec fn update_running(self, m: Message, env: EnvModel) -> AppModel {
        match m {
            Message::ProgTabSet(id, tab) => self.prog_tab_set(id, tab),
            Message::ProgToggleDetails(id) => self.prog_toggle_details(id),
            Message::ProgPauseResume(id) => self.prog_pause_resume(id, env),
            Message::ProgCancel(id) => self.prog_cancel(id),
            Message::ProgHideTab(id, speed) => self.prog_hide_tab(id, speed),
            Message::ProgLimitOn(id, on) => self.prog_limit_on(id, on),
            Message::ProgLimitKb(id, s) => self.prog_limit_kb(id, s@),
            Message::ProgLimitRemember(id, b) => self.prog_limit_remember(id, b),
            Message::ProgShutdownAfter(id, b) => self.prog_shutdown_after(id, b),
            Message::ProgShutdownAction(id, a) => self.prog_shutdown_action(id, a),
            Message::ProgRemoveCompleted(b) => self.prog_remove_completed(b),
            Message::ProgScanSkip(id) => self.scan_skip(id),
            Message::ProgScanKeep(id) => self.scan_keep(id),
            Message::ProgScanDelete(id) => self.scan_delete(id),
            Message::Scan(ev) => self.on_scan(ev),
            Message::OpenFile(id) => self.open_finished(id, false),
            Message::OpenFolder(id) => self.open_finished(id, true),
            _ => self,
        }
    }

    #[verifier::opaque]
    pub open spec fn update_setup(self, m: Message, env: EnvModel) -> AppModel {
        match m {
            Message::OptTabSet(t) => self.opt_tab_set(t),
            Message::OptExtStore(url) => self.open_page(url@),
            Message::OptCopy(value) => self.emit(EffectModel::WriteClipboard(value@)),
            Message::OptOk => self.opt_ok(),
            Message::OptDraft(f) => self.on_opt_field(f),
            Message::UpdateChecked(res) => self.update_checked(res),
            Message::UpdateNow => self.update_now(),
            Message::UpdateCancel => self.update_cancel(),
            Message::UpdateOpenPage => self.update_open_page(),
            Message::UpdateOpenUrl(url) => self.update_open_url(url@),
            Message::UpdateEvent(ev) => self.on_update(ev),
            Message::SchQueue(q) => self.sch_queue(q@, env.ms),
            Message::SchNameEdit => self.sch_name_edit(),
            Message::SchNameDraft(v) => self.sch_name_draft(v@),
            Message::SchNameCommit => self.sch_name_commit(),
            Message::SchTabSet(t) => self.sch_tab_set(t),
            Message::SchField(f) => self.sch_field(f),
            Message::SchStartNow => self.sch_run(true, env),
            Message::SchStop => self.sch_run(false, env),
            Message::SchNewQueue => self.sch_new_queue(),
            Message::SchDeleteQueue => self.sch_delete_queue(),
            Message::SchDragStart(id) => self.sch_drag_start(id),
            Message::SchDragOver(id) => self.sch_drag_over(id),
            Message::SchFileUp => self.sch_file_move(true),
            Message::SchFileDown => self.sch_file_move(false),
            Message::SchFileRemove => self.sch_file_remove(),
            _ => self,
        }
    }

    #[verifier::opaque]
    pub open spec fn update_asking(self, m: Message, env: EnvModel) -> AppModel {
        match m {
            Message::BatchEdit(text) => self.batch_edit(text@),
            Message::BatchLoaded(text, from, to) => self.batch_file(text.deep_view(), from, to),
            Message::BatchProbed(url, meta) => self.batch_probed(url@, meta.deep_view()),
            Message::BatchMetalinkProbed(url, doc) => self.batch_metalink_probed(url@, doc.deep_view()),
            Message::BatchCheck(i, b) => self.batch_check(i as int, b),
            Message::BatchCheckAll(b) => self.batch_check_all(b),
            Message::BatchField(f) => self.batch_field(f),
            Message::BatchBrowseDir => self.emit(EffectModel::Pick(PickModel::BatchDir)),
            Message::BatchOk => self.batch_ok(env.now),
            Message::ConfirmYes => self.confirm_yes(env.ms),
            Message::ConfirmRemoveFile(b) => self.confirm_remove(b),
            Message::OpenPermissions => self.open_permissions(),
            Message::PermOpenPane(url) => self.open_page(url@),
            Message::PermRefresh => self.refresh_perm_status(),
            Message::DupResume => self.dup_resume(env),
            Message::DupOpen => self.dup_open(),
            Message::DupNew => self.dup_new(env),
            Message::CloseThis(win) => self.close_this(win),
            _ => self,
        }
    }

    /// What a message does.
    #[verifier::opaque]
    pub open spec fn update(self, m: Message, env: EnvModel) -> AppModel {
        match part(m) {
            Part::Frame => self.update_frame(m, env),
            Part::Chrome => self.update_chrome(m, env),
            Part::Table => self.update_table(m, env),
            Part::Adding => self.update_adding(m, env),
            Part::Running => self.update_running(m, env),
            Part::Setup => self.update_setup(m, env),
            Part::Asking => self.update_asking(m, env),
        }
    }
}

impl App {
    fn update_frame(&mut self, m: Message, env: &Env)
        ensures
            final(self)@ == old(self)@.update_frame(m, env@),
    {
        proof {
            reveal(AppModel::update_frame);
        }
        match m {
            Message::Noop => {},
            Message::WindowOpened(win) => self.window_opened(win),
            Message::WindowClosed(win) => self.window_closed(win, env),
            Message::WindowCloseRequested(win) => self.emit(Effect::CloseWindow(win)),
            Message::Engine(ev) => self.on_engine(ev, env),
            Message::Tick => self.tick(env),
            Message::PowerTick => self.power_tick(),
            Message::PowerNow => self.fire_power_action(),
            Message::PowerCancel => self.cancel_power_action(),
            Message::ClipboardSeen(text) => self.clipboard_seen(text, env),
            Message::ClipboardAddStart(text) => self.clipboard_add(text, env),
            Message::NativeMenu(id) => self.native_menu(&id, env),
            Message::SystemTheme(dark) => self.system_theme(dark),
            Message::Ext(ev) => self.on_ext(ev, env),
            Message::ExportRead(text) => self.export_read(text, env.now),
            Message::FolderProbed(writable) => self.check_folder_access(writable),
            Message::LocaleLoaded(lang) => self.locale_loaded(lang),
            Message::Granted { id, picked, error, done, held } => self.on_granted(id, picked, error, done, &held, env),
            _ => {},
        }
    }

    fn update_chrome(&mut self, m: Message, env: &Env)
        ensures
            final(self)@ == old(self)@.update_chrome(m, env@),
    {
        proof {
            reveal(AppModel::update_chrome);
        }
        match m {
            Message::MenuOpen(kind) => self.menu_open(kind),
            Message::MenuHover(kind) => self.menu_hover(kind),
            Message::MenuClose => self.close_menus(),
            Message::SubmenuHover(i) => self.submenu_hover(i),
            Message::Menu(action) => self.menu(action, env),
            Message::QueueMenuOpen(start) => self.queue_menu_open(start),
            Message::TreeSelect(sel) => self.tree_select(sel, env.ms),
            Message::TreeToggle(i) => self.tree_toggle(i),
            Message::TreeQueueRenameStart(name) => self.tree_rename_start(name),
            Message::TreeQueueRenameDraft(v) => self.tree_rename_draft(v),
            Message::TreeQueueRenameCommit => self.tree_rename_commit(),
            Message::Mods(m) => self.set_mods(m),
            Message::RawKey(key, m, win) => self.raw_key(key, m, win, env),
            Message::ShortcutEdit(action, combo) => self.shortcut_edit(action, &combo),
            Message::ToolbarResume => self.toolbar_resume(env),
            Message::ToolbarStop => self.toolbar_stop(),
            Message::ToolbarDelete => self.toolbar_delete(),
            _ => {},
        }
    }

    fn update_table(&mut self, m: Message, env: &Env)
        ensures
            final(self)@ == old(self)@.update_table(m, env@),
    {
        proof {
            reveal(AppModel::update_table);
        }
        match m {
            Message::RowClick(id) => self.row_click(id, env.ms),
            Message::RowRightClick(id) => self.row_right_click(id),
            Message::SelectAll => self.select_all(),
            Message::RowEnter(id) => {
                let mut l = self.take_list();
                l.enter(id);
                self.put_list(l);
            },
            Message::RowExit(id) => {
                let mut l = self.take_list();
                l.exit(id);
                self.put_list(l);
            },
            Message::EmptyPress => self.empty_press(),
            Message::EmptyEnter => {
                let mut l = self.take_list();
                l.enter_empty();
                self.put_list(l);
            },
            Message::HeaderEnter(col) => {
                let mut l = self.take_list();
                l.enter_header(col);
                self.put_list(l);
            },
            Message::HeaderExit(col) => {
                let mut l = self.take_list();
                l.exit_header(col);
                self.put_list(l);
            },
            Message::ColResizeStart(col) => {
                let mut l = self.take_list();
                l.grab_column(col);
                self.put_list(l);
            },
            Message::SortBy(key) => self.sort_by(key),
            Message::MouseUp => self.mouse_up(),
            _ => {},
        }
    }

    fn update_adding(&mut self, m: Message, env: &Env)
        ensures
            final(self)@ == old(self)@.update_adding(m, env@),
    {
        proof {
            reveal(AppModel::update_adding);
        }
        match m {
            Message::AddrPrefill(text) => self.addr_prefill(text),
            Message::AddrChanged(s) => self.addr_changed(s),
            Message::AddrProbeStream => self.probe_stream(),
            Message::AddrStreamProbed(r) => self.stream_probed(r),
            Message::AddrProbeMetalink => self.probe_metalink(),
            Message::AddrMetalinkProbed(r) => self.metalink_probed(r),
            Message::AddrEdit(f) => self.addr_edit(f),
            Message::AddUrlOk => self.add_url_ok(env),
            Message::FiCategory(c) => self.fi_category(c),
            Message::FiBgToggle(b) => self.fi_bg_toggle(b, env),
            Message::FiBrowse => self.fi_browse(),
            Message::FiEdit(f) => self.fi_edit(f),
            Message::FiDownloadLater => self.fi_later(),
            Message::FiStartDownload => self.fi_start(env),
            Message::FiCancel => self.fi_cancel(env.ms),
            Message::FiPreview => self.fi_preview(),
            Message::ZipPeeked(dl, result) => self.zip_peeked(dl, result),
            Message::InfoProbed(id, meta) => self.info_probed(id, meta),
            _ => {},
        }
    }

    fn update_running(&mut self, m: Message, env: &Env)
        ensures
            final(self)@ == old(self)@.update_running(m, env@),
    {
        proof {
            reveal(AppModel::update_running);
        }
        match m {
            Message::ProgTabSet(id, tab) => self.prog_tab_set(id, tab),
            Message::ProgToggleDetails(id) => self.prog_toggle_details(id),
            Message::ProgPauseResume(id) => self.prog_pause_resume(id, env),
            Message::ProgCancel(id) => self.prog_cancel(id),
            Message::ProgHideTab(id, speed) => self.prog_hide_tab(id, speed),
            Message::ProgLimitOn(id, on) => self.prog_limit_on(id, on),
            Message::ProgLimitKb(id, s) => self.prog_limit_kb(id, s),
            Message::ProgLimitRemember(id, b) => self.prog_limit_remember(id, b),
            Message::ProgShutdownAfter(id, b) => self.prog_shutdown_after(id, b),
            Message::ProgShutdownAction(id, a) => self.prog_shutdown_action(id, a),
            Message::ProgRemoveCompleted(b) => self.prog_remove_completed(b),
            Message::ProgScanSkip(id) => self.scan_skip(id),
            Message::ProgScanKeep(id) => self.scan_keep(id),
            Message::ProgScanDelete(id) => self.scan_delete(id),
            Message::Scan(ev) => self.on_scan(ev),
            Message::OpenFile(id) => self.open_finished(id, false),
            Message::OpenFolder(id) => self.open_finished(id, true),
            _ => {},
        }
    }

    fn update_setup(&mut self, m: Message, env: &Env)
        ensures
            final(self)@ == old(self)@.update_setup(m, env@),
    {
        proof {
            reveal(AppModel::update_setup);
        }
        match m {
            Message::OptTabSet(t) => self.opt_tab_set(t),
            Message::OptExtStore(url) => self.open_page(&url),
            Message::OptCopy(value) => self.emit(Effect::WriteClipboard(value)),
            Message::OptOk => self.opt_ok(),
            Message::OptDraft(f) => self.on_opt_field(f),
            Message::UpdateChecked(res) => self.update_checked(res),
            Message::UpdateNow => self.update_now(),
            Message::UpdateCancel => self.update_cancel(),
            Message::UpdateOpenPage => self.update_open_page(),
            Message::UpdateOpenUrl(url) => self.update_open_url(url),
            Message::UpdateEvent(ev) => self.on_update(ev),
            Message::SchQueue(q) => self.sch_queue(q, env.ms),
            Message::SchNameEdit => self.sch_name_edit(),
            Message::SchNameDraft(v) => self.sch_name_draft(v),
            Message::SchNameCommit => self.sch_name_commit(),
            Message::SchTabSet(t) => self.sch_tab_set(t),
            Message::SchField(f) => self.sch_field(f),
            Message::SchStartNow => self.sch_run(true, env),
            Message::SchStop => self.sch_run(false, env),
            Message::SchNewQueue => self.sch_new_queue(),
            Message::SchDeleteQueue => self.sch_delete_queue(),
            Message::SchDragStart(id) => self.sch_drag_start(id),
            Message::SchDragOver(id) => self.sch_drag_over(id),
            Message::SchFileUp => self.sch_file_move(true),
            Message::SchFileDown => self.sch_file_move(false),
            Message::SchFileRemove => self.sch_file_remove(),
            _ => {},
        }
    }

    fn update_asking(&mut self, m: Message, env: &Env)
        ensures
            final(self)@ == old(self)@.update_asking(m, env@),
    {
        proof {
            reveal(AppModel::update_asking);
        }
        match m {
            Message::BatchEdit(text) => self.batch_edit(text),
            Message::BatchLoaded(text, from, to) => self.batch_file(text, from, to),
            Message::BatchProbed(url, meta) => self.batch_probed(url, meta),
            Message::BatchMetalinkProbed(url, doc) => self.batch_metalink_probed(url, doc),
            Message::BatchCheck(i, b) => self.batch_check(i, b),
            Message::BatchCheckAll(b) => self.batch_check_all(b),
            Message::BatchField(f) => self.batch_field(f),
            Message::BatchBrowseDir => self.emit(Effect::Pick(Pick::BatchDir)),
            Message::BatchOk => self.batch_ok(env.now),
            Message::ConfirmYes => self.confirm_yes(env.ms),
            Message::ConfirmRemoveFile(b) => self.confirm_remove(b),
            Message::OpenPermissions => self.open_permissions(),
            Message::PermOpenPane(url) => self.open_page(&url),
            Message::PermRefresh => self.refresh_perm_status(),
            Message::DupResume => self.dup_resume(env),
            Message::DupOpen => self.dup_open(),
            Message::DupNew => self.dup_new(env),
            Message::CloseThis(win) => self.close_this(win),
            _ => {},
        }
    }

    /// Handles a message. What is to be done outside is asked for as effects.
    pub fn update(&mut self, m: Message, env: &Env)
        ensures
            final(self)@ == old(self)@.update(m, env@),
    {
        proof {
            reveal(AppModel::update);
        }
        match part_of(&m) {
            Part::Frame => self.update_frame(m, env),
            Part::Chrome => self.update_chrome(m, env),
            Part::Table => self.update_table(m, env),
            Part::Adding => self.update_adding(m, env),
            Part::Running => self.update_running(m, env),
            Part::Setup => self.update_setup(m, env),
            Part::Asking => self.update_asking(m, env),
        }
    }
}

} // verus!
