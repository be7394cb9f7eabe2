//! Every command of the menus, and the names by which native menus and the
//! tray address them.
use crate::model::ThemeMode;
use crate::state::SortKey;
use crate::text::{
    begins, cat, decimal, is_digit, lemma_decimal_spells, number, parse_number, same, spelled,
    spelled_up_to, strip_prefix, unsigned,
};
use crate::twin::Twin;
use vstd::prelude::*;

verus! {

/// Every menu-driven command, shared by the in-window menu bar, the native menu
/// and the tray.
#[derive(Debug)]
pub enum MenuAction {
    AddNewDownload,
    AddBatch,
    AddBatchClipboard,
    AddBatchFile,
    SiteGrabber,
    DropTarget,
    ExportList,
    ImportList,
    Exit,
    StopDownload,
    Remove,
    DownloadNow,
    Redownload,
    PauseAll,
    StopAll,
    DeleteAllCompleted,
    Find,
    Scheduler,
    StartQueue(String),
    StopQueue(String),
    SpeedLimiterToggle,
    Options,
    /// Options, opened straight on the Extensions page.
    Extensions,
    HideCategories,
    ArrangeBy(SortKey),
    SetTheme(ThemeMode),
    FontSize(u16),
    Language(String),
    HomePage,
    Contribute,
    ReportIssue,
    About,
    Permissions,
    MoveToQueue(String),
    RemoveFromQueue,
    Properties,
    OpenSel,
    OpenFolderSel,
    PowerSaveToggle,
    Shortcuts,
    /// Open the session log.
    Logs,
    /// A manual, user-visible version check.
    CheckUpdates,
}

/// The model of [`MenuAction`].
#[verifier::ext_equal]
pub enum MenuActionModel {
    AddNewDownload,
    AddBatch,
    AddBatchClipboard,
    AddBatchFile,
    SiteGrabber,
    DropTarget,
    ExportList,
    ImportList,
    Exit,
    StopDownload,
    Remove,
    DownloadNow,
    Redownload,
    PauseAll,
    StopAll,
    DeleteAllCompleted,
    Find,
    Scheduler,
    StartQueue(Seq<char>),
    StopQueue(Seq<char>),
    SpeedLimiterToggle,
    Options,
    Extensions,
    HideCategories,
    ArrangeBy(SortKey),
    SetTheme(ThemeMode),
    FontSize(u16),
    Language(Seq<char>),
    HomePage,
    Contribute,
    ReportIssue,
    About,
    Permissions,
    MoveToQueue(Seq<char>),
    RemoveFromQueue,
    Properties,
    OpenSel,
    OpenFolderSel,
    PowerSaveToggle,
    Shortcuts,
    Logs,
    CheckUpdates,
}

impl View for MenuAction {
    type V = MenuActionModel;

    open spec fn view(&self) -> MenuActionModel {
        self.model()
    }
}

impl MenuAction {
    /// The model of a command. Hidden, because there are so many of them.
    #[verifier::opaque]
    pub open spec fn model(&self) -> MenuActionModel {
        match *self {
            MenuAction::AddNewDownload => MenuActionModel::AddNewDownload,
            MenuAction::AddBatch => MenuActionModel::AddBatch,
            MenuAction::AddBatchClipboard => MenuActionModel::AddBatchClipboard,
            MenuAction::AddBatchFile => MenuActionModel::AddBatchFile,
            MenuAction::SiteGrabber => MenuActionModel::SiteGrabber,
            MenuAction::DropTarget => MenuActionModel::DropTarget,
            MenuAction::ExportList => MenuActionModel::ExportList,
            MenuAction::ImportList => MenuActionModel::ImportList,
            MenuAction::Exit => MenuActionModel::Exit,
            MenuAction::StopDownload => MenuActionModel::StopDownload,
            MenuAction::Remove => MenuActionModel::Remove,
            MenuAction::DownloadNow => MenuActionModel::DownloadNow,
            MenuAction::Redownload => MenuActionModel::Redownload,
            MenuAction::PauseAll => MenuActionModel::PauseAll,
            MenuAction::StopAll => MenuActionModel::StopAll,
            MenuAction::DeleteAllCompleted => MenuActionModel::DeleteAllCompleted,
            MenuAction::Find => MenuActionModel::Find,
            MenuAction::Scheduler => MenuActionModel::Scheduler,
            MenuAction::StartQueue(a) => MenuActionModel::StartQueue(a@),
            MenuAction::StopQueue(a) => MenuActionModel::StopQueue(a@),
            MenuAction::SpeedLimiterToggle => MenuActionModel::SpeedLimiterToggle,
            MenuAction::Options => MenuActionModel::Options,
            MenuAction::Extensions => MenuActionModel::Extensions,
            MenuAction::HideCategories => MenuActionModel::HideCategories,
            MenuAction::ArrangeBy(a) => MenuActionModel::ArrangeBy(a),
            MenuAction::SetTheme(a) => MenuActionModel::SetTheme(a),
            MenuAction::FontSize(a) => MenuActionModel::FontSize(a),
            MenuAction::Language(a) => MenuActionModel::Language(a@),
            MenuAction::HomePage => MenuActionModel::HomePage,
            MenuAction::Contribute => MenuActionModel::Contribute,
            MenuAction::ReportIssue => MenuActionModel::ReportIssue,
            MenuAction::About => MenuActionModel::About,
            MenuAction::Permissions => MenuActionModel::Permissions,
            MenuAction::MoveToQueue(a) => MenuActionModel::MoveToQueue(a@),
            MenuAction::RemoveFromQueue => MenuActionModel::RemoveFromQueue,
            MenuAction::Properties => MenuActionModel::Properties,
            MenuAction::OpenSel => MenuActionModel::OpenSel,
            MenuAction::OpenFolderSel => MenuActionModel::OpenFolderSel,
            MenuAction::PowerSaveToggle => MenuActionModel::PowerSaveToggle,
            MenuAction::Shortcuts => MenuActionModel::Shortcuts,
            MenuAction::Logs => MenuActionModel::Logs,
            MenuAction::CheckUpdates => MenuActionModel::CheckUpdates,
        }
    }
}

impl DeepView for MenuAction {
    type V = MenuActionModel;

    open spec fn deep_view(&self) -> MenuActionModel {
        self@
    }
}

impl Twin for MenuAction {
    fn twin(&self) -> (r: Self) {
        proof {
            reveal(MenuAction::model);
        }
        match self {
            MenuAction::AddNewDownload => MenuAction::AddNewDownload,
            MenuAction::AddBatch => MenuAction::AddBatch,
            MenuAction::AddBatchClipboard => MenuAction::AddBatchClipboard,
            MenuAction::AddBatchFile => MenuAction::AddBatchFile,
            MenuAction::SiteGrabber => MenuAction::SiteGrabber,
            MenuAction::DropTarget => MenuAction::DropTarget,
            MenuAction::ExportList => MenuAction::ExportList,
            MenuAction::ImportList => MenuAction::ImportList,
            MenuAction::Exit => MenuAction::Exit,
            MenuAction::StopDownload => MenuAction::StopDownload,
            MenuAction::Remove => MenuAction::Remove,
            MenuAction::DownloadNow => MenuAction::DownloadNow,
            MenuAction::Redownload => MenuAction::Redownload,
            MenuAction::PauseAll => MenuAction::PauseAll,
            MenuAction::StopAll => MenuAction::StopAll,
            MenuAction::DeleteAllCompleted => MenuAction::DeleteAllCompleted,
            MenuAction::Find => MenuAction::Find,
            MenuAction::Scheduler => MenuAction::Scheduler,
            MenuAction::StartQueue(a) => MenuAction::StartQueue(a.clone()),
            MenuAction::StopQueue(a) => MenuAction::StopQueue(a.clone()),
            MenuAction::SpeedLimiterToggle => MenuAction::SpeedLimiterToggle,
            MenuAction::Options => MenuAction::Options,
            MenuAction::Extensions => MenuAction::Extensions,
            MenuAction::HideCategories => MenuAction::HideCategories,
            MenuAction::ArrangeBy(a) => MenuAction::ArrangeBy(*a),
            MenuAction::SetTheme(a) => MenuAction::SetTheme(*a),
            MenuAction::FontSize(a) => MenuAction::FontSize(*a),
            MenuAction::Language(a) => MenuAction::Language(a.clone()),
            MenuAction::HomePage => MenuAction::HomePage,
            MenuAction::Contribute => MenuAction::Contribute,
            MenuAction::ReportIssue => MenuAction::ReportIssue,
            MenuAction::About => MenuAction::About,
            MenuAction::Permissions => MenuAction::Permissions,
            MenuAction::MoveToQueue(a) => MenuAction::MoveToQueue(a.clone()),
            MenuAction::RemoveFromQueue => MenuAction::RemoveFromQueue,
            MenuAction::Properties => MenuAction::Properties,
            MenuAction::OpenSel => MenuAction::OpenSel,
            MenuAction::OpenFolderSel => MenuAction::OpenFolderSel,
            MenuAction::PowerSaveToggle => MenuAction::PowerSaveToggle,
            MenuAction::Shortcuts => MenuAction::Shortcuts,
            MenuAction::Logs => MenuAction::Logs,
            MenuAction::CheckUpdates => MenuAction::CheckUpdates,
        }
    }
}

/// A sort key as it is spelled in a name.
pub open spec fn sort_name(k: SortKey) -> Seq<char> {
    match k {
        SortKey::Name => "Name"@,
        SortKey::Queue => "Queue"@,
        SortKey::Size => "Size"@,
        SortKey::Status => "Status"@,
        SortKey::TimeLeft => "TimeLeft"@,
        SortKey::Rate => "Rate"@,
        SortKey::LastTry => "LastTry"@,
        SortKey::Description => "Description"@,
    }
}

/// A theme as it is spelled in a name.
pub open spec fn theme_name(m: ThemeMode) -> Seq<char> {
    match m {
        ThemeMode::System => "System"@,
        ThemeMode::Light => "Light"@,
        ThemeMode::Dark => "Dark"@,
    }
}

/// The sort key that a name spells; anything unknown sorts by name.
pub open spec fn sort_named(s: Seq<char>) -> SortKey {
    if s == "Queue"@ {
        SortKey::Queue
    } else if s == "Size"@ {
        SortKey::Size
    } else if s == "Status"@ {
        SortKey::Status
    } else if s == "TimeLeft"@ {
        SortKey::TimeLeft
    } else if s == "Rate"@ {
        SortKey::Rate
    } else if s == "LastTry"@ {
        SortKey::LastTry
    } else if s == "Description"@ {
        SortKey::Description
    } else {
        SortKey::Name
    }
}

pub open spec fn theme_named(s: Seq<char>) -> ThemeMode {
    if s == "Light"@ {
        ThemeMode::Light
    } else if s == "Dark"@ {
        ThemeMode::Dark
    } else {
        ThemeMode::System
    }
}

/// The name of a command.
pub open spec fn action_id(a: MenuActionModel) -> Seq<char> {
    match a {
        MenuActionModel::StartQueue(q) => "start_queue:"@ + q,
        MenuActionModel::StopQueue(q) => "stop_queue:"@ + q,
        MenuActionModel::ArrangeBy(k) => "arrange:"@ + sort_name(k),
        MenuActionModel::SetTheme(m) => "theme:"@ + theme_name(m),
        MenuActionModel::FontSize(s) => "font:"@ + decimal(s as nat),
        MenuActionModel::Language(l) => "lang:"@ + l,
        MenuActionModel::MoveToQueue(q) => "move_q:"@ + q,
        MenuActionModel::AddNewDownload => "add_new"@,
        MenuActionModel::AddBatch => "add_batch"@,
        MenuActionModel::AddBatchClipboard => "add_batch_clip"@,
        MenuActionModel::AddBatchFile => "add_batch_file"@,
        MenuActionModel::SiteGrabber => "grabber"@,
        MenuActionModel::DropTarget => "drop_target"@,
        MenuActionModel::ExportList => "export"@,
        MenuActionModel::ImportList => "import"@,
        MenuActionModel::Exit => "exit"@,
        MenuActionModel::StopDownload => "stop_dl"@,
        MenuActionModel::Remove => "remove"@,
        MenuActionModel::DownloadNow => "dl_now"@,
        MenuActionModel::Redownload => "redownload"@,
        MenuActionModel::PauseAll => "pause_all"@,
        MenuActionModel::StopAll => "stop_all"@,
        MenuActionModel::DeleteAllCompleted => "del_completed"@,
        MenuActionModel::Find => "find"@,
        MenuActionModel::Scheduler => "scheduler"@,
        MenuActionModel::SpeedLimiterToggle => "speed_limiter"@,
        MenuActionModel::Options => "options"@,
        MenuActionModel::Extensions => "extensions"@,
        MenuActionModel::HideCategories => "hide_cats"@,
        MenuActionModel::HomePage => "homepage"@,
        MenuActionModel::Contribute => "contribute"@,
        MenuActionModel::ReportIssue => "report_issue"@,
        MenuActionModel::About => "about"@,
        MenuActionModel::Permissions => "permissions"@,
        MenuActionModel::RemoveFromQueue => "rm_q"@,
        MenuActionModel::Properties => "props"@,
        MenuActionModel::OpenSel => "open_sel"@,
        MenuActionModel::OpenFolderSel => "open_folder_sel"@,
        MenuActionModel::PowerSaveToggle => "power_save"@,
        MenuActionModel::Shortcuts => "shortcuts"@,
        MenuActionModel::Logs => "logs"@,
        MenuActionModel::CheckUpdates => "check_updates"@,
    }
}

/// The command without an argument that a name stands for.
pub open spec fn plain_action(id: Seq<char>) -> Option<MenuActionModel> {
    if id == "add_new"@ {
        Some(MenuActionModel::AddNewDownload)
    } else if id == "add_batch"@ {
        Some(MenuActionModel::AddBatch)
    } else if id == "add_batch_clip"@ {
        Some(MenuActionModel::AddBatchClipboard)
    } else if id == "add_batch_file"@ {
        Some(MenuActionModel::AddBatchFile)
    } else if id == "grabber"@ {
        Some(MenuActionModel::SiteGrabber)
    } else if id == "drop_target"@ {
        Some(MenuActionModel::DropTarget)
    } else if id == "export"@ {
        Some(MenuActionModel::ExportList)
    } else if id == "import"@ {
        Some(MenuActionModel::ImportList)
    } else if id == "exit"@ {
        Some(MenuActionModel::Exit)
    } else if id == "stop_dl"@ {
        Some(MenuActionModel::StopDownload)
    } else if id == "remove"@ {
        Some(MenuActionModel::Remove)
    } else if id == "dl_now"@ {
        Some(MenuActionModel::DownloadNow)
    } else if id == "redownload"@ {
        Some(MenuActionModel::Redownload)
    } else if id == "pause_all"@ {
        Some(MenuActionModel::PauseAll)
    } else if id == "stop_all"@ {
        Some(MenuActionModel::StopAll)
    } else if id == "del_completed"@ {
        Some(MenuActionModel::DeleteAllCompleted)
    } else if id == "find"@ {
        Some(MenuActionModel::Find)
    } else if id == "scheduler"@ {
        Some(MenuActionModel::Scheduler)
    } else if id == "speed_limiter"@ {
        Some(MenuActionModel::SpeedLimiterToggle)
    } else if id == "options"@ {
        Some(MenuActionModel::Options)
    } else if id == "extensions"@ {
        Some(MenuActionModel::Extensions)
    } else if id == "hide_cats"@ {
        Some(MenuActionModel::HideCategories)
    } else if id == "homepage"@ {
        Some(MenuActionModel::HomePage)
    } else if id == "contribute"@ {
        Some(MenuActionModel::Contribute)
    } else if id == "report_issue"@ {
        Some(MenuActionModel::ReportIssue)
    } else if id == "about"@ {
        Some(MenuActionModel::About)
    } else if id == "permissions"@ {
        Some(MenuActionModel::Permissions)
    } else if id == "rm_q"@ {
        Some(MenuActionModel::RemoveFromQueue)
    } else if id == "props"@ {
        Some(MenuActionModel::Properties)
    } else if id == "open_sel"@ {
        Some(MenuActionModel::OpenSel)
    } else if id == "open_folder_sel"@ {
        Some(MenuActionModel::OpenFolderSel)
    } else if id == "power_save"@ {
        Some(MenuActionModel::PowerSaveToggle)
    } else if id == "shortcuts"@ {
        Some(MenuActionModel::Shortcuts)
    } else if id == "logs"@ {
        Some(MenuActionModel::Logs)
    } else if id == "check_updates"@ {
        Some(MenuActionModel::CheckUpdates)
    } else {
        None
    }
}

/// What of a name stands behind a prefix.
pub open spec fn arg_of(id: Seq<char>, prefix: Seq<char>) -> Seq<char> {
    id.skip(prefix.len() as int)
}

/// The command that a name stands for.
pub open spec fn action_of(id: Seq<char>) -> Option<MenuActionModel> {
    if begins(id, "start_queue:"@) {
        Some(MenuActionModel::StartQueue(arg_of(id, "start_queue:"@)))
    } else if begins(id, "stop_queue:"@) {
        Some(MenuActionModel::StopQueue(arg_of(id, "stop_queue:"@)))
    } else if begins(id, "arrange:"@) {
        Some(MenuActionModel::ArrangeBy(sort_named(arg_of(id, "arrange:"@))))
    } else if begins(id, "theme:"@) {
        Some(MenuActionModel::SetTheme(theme_named(arg_of(id, "theme:"@))))
    } else if begins(id, "font:"@) {
        match spelled_up_to(arg_of(id, "font:"@), u16::MAX as int) {
            Some(n) => Some(MenuActionModel::FontSize(n as u16)),
            None => None,
        }
    } else if begins(id, "lang:"@) {
        Some(MenuActionModel::Language(arg_of(id, "lang:"@)))
    } else if begins(id, "move_q:"@) {
        Some(MenuActionModel::MoveToQueue(arg_of(id, "move_q:"@)))
    } else {
        plain_action(id)
    }
}

fn plain_from_id(id: &str) -> (r: Option<MenuAction>)
    ensures
        r.deep_view() == plain_action(id@),
{
    proof {
        reveal(MenuAction::model);
    }
    if same(id, "add_new") {
        return Some(MenuAction::AddNewDownload);
    }
    if same(id, "add_batch") {
        return Some(MenuAction::AddBatch);
    }
    if same(id, "add_batch_clip") {
        return Some(MenuAction::AddBatchClipboard);
    }
    if same(id, "add_batch_file") {
        return Some(MenuAction::AddBatchFile);
    }
    if same(id, "grabber") {
        return Some(MenuAction::SiteGrabber);
    }
    if same(id, "drop_target") {
        return Some(MenuAction::DropTarget);
    }
    if same(id, "export") {
        return Some(MenuAction::ExportList);
    }
    if same(id, "import") {
        return Some(MenuAction::ImportList);
    }
    if same(id, "exit") {
        return Some(MenuAction::Exit);
    }
    if same(id, "stop_dl") {
        return Some(MenuAction::StopDownload);
    }
    if same(id, "remove") {
        return Some(MenuAction::Remove);
    }
    if same(id, "dl_now") {
        return Some(MenuAction::DownloadNow);
    }
    if same(id, "redownload") {
        return Some(MenuAction::Redownload);
    }
    if same(id, "pause_all") {
        return Some(MenuAction::PauseAll);
    }
    if same(id, "stop_all") {
        return Some(MenuAction::StopAll);
    }
    if same(id, "del_completed") {
        return Some(MenuAction::DeleteAllCompleted);
    }
    if same(id, "find") {
        return Some(MenuAction::Find);
    }
    if same(id, "scheduler") {
        return Some(MenuAction::Scheduler);
    }
    if same(id, "speed_limiter") {
        return Some(MenuAction::SpeedLimiterToggle);
    }
    if same(id, "options") {
        return Some(MenuAction::Options);
    }
    if same(id, "extensions") {
        return Some(MenuAction::Extensions);
    }
    if same(id, "hide_cats") {
        return Some(MenuAction::HideCategories);
    }
    if same(id, "homepage") {
        return Some(MenuAction::HomePage);
    }
    if same(id, "contribute") {
        return Some(MenuAction::Contribute);
    }
    if same(id, "report_issue") {
        return Some(MenuAction::ReportIssue);
    }
    if same(id, "about") {
        return Some(MenuAction::About);
    }
    if same(id, "permissions") {
        return Some(MenuAction::Permissions);
    }
    if same(id, "rm_q") {
        return Some(MenuAction::RemoveFromQueue);
    }
    if same(id, "props") {
        return Some(MenuAction::Properties);
    }
    if same(id, "open_sel") {
        return Some(MenuAction::OpenSel);
    }
    if same(id, "open_folder_sel") {
        return Some(MenuAction::OpenFolderSel);
    }
    if same(id, "power_save") {
        return Some(MenuAction::PowerSaveToggle);
    }
    if same(id, "shortcuts") {
        return Some(MenuAction::Shortcuts);
    }
    if same(id, "logs") {
        return Some(MenuAction::Logs);
    }
    if same(id, "check_updates") {
        return Some(MenuAction::CheckUpdates);
    }
    None
}

fn sort_from_name(s: &str) -> (r: SortKey)
    ensures
        r == sort_named(s@),
{
    if same(s, "Queue") {
        SortKey::Queue
    } else if same(s, "Size") {
        SortKey::Size
    } else if same(s, "Status") {
        SortKey::Status
    } else if same(s, "TimeLeft") {
        SortKey::TimeLeft
    } else if same(s, "Rate") {
        SortKey::Rate
    } else if same(s, "LastTry") {
        SortKey::LastTry
    } else if same(s, "Description") {
        SortKey::Description
    } else {
        SortKey::Name
    }
}

impl MenuAction {
    /// The name that native menus address the command by.
    pub fn id(&self) -> (r: String)
        ensures
            r@ == action_id(self@),
    {
        proof {
            reveal(MenuAction::model);
        }
        match self {
            MenuAction::StartQueue(q) => cat("start_queue:", q),
            MenuAction::StopQueue(q) => cat("stop_queue:", q),
            MenuAction::ArrangeBy(k) => cat(
                "arrange:",
                match k {
                    SortKey::Name => "Name",
                    SortKey::Queue => "Queue",
                    SortKey::Size => "Size",
                    SortKey::Status => "Status",
                    SortKey::TimeLeft => "TimeLeft",
                    SortKey::Rate => "Rate",
                    SortKey::LastTry => "LastTry",
                    SortKey::Description => "Description",
                },
            ),
            MenuAction::SetTheme(m) => cat(
                "theme:",
                match m {
                    ThemeMode::System => "System",
                    ThemeMode::Light => "Light",
                    ThemeMode::Dark => "Dark",
                },
            ),
            MenuAction::FontSize(s) => cat("font:", &number(*s as u64)),
            MenuAction::Language(l) => cat("lang:", l),
            MenuAction::MoveToQueue(q) => cat("move_q:", q),
            MenuAction::AddNewDownload => "add_new".to_owned(),
            MenuAction::AddBatch => "add_batch".to_owned(),
            MenuAction::AddBatchClipboard => "add_batch_clip".to_owned(),
            MenuAction::AddBatchFile => "add_batch_file".to_owned(),
            MenuAction::SiteGrabber => "grabber".to_owned(),
            MenuAction::DropTarget => "drop_target".to_owned(),
            MenuAction::ExportList => "export".to_owned(),
            MenuAction::ImportList => "import".to_owned(),
            MenuAction::Exit => "exit".to_owned(),
            MenuAction::StopDownload => "stop_dl".to_owned(),
            MenuAction::Remove => "remove".to_owned(),
            MenuAction::DownloadNow => "dl_now".to_owned(),
            MenuAction::Redownload => "redownload".to_owned(),
            MenuAction::PauseAll => "pause_all".to_owned(),
            MenuAction::StopAll => "stop_all".to_owned(),
            MenuAction::DeleteAllCompleted => "del_completed".to_owned(),
            MenuAction::Find => "find".to_owned(),
            MenuAction::Scheduler => "scheduler".to_owned(),
            MenuAction::SpeedLimiterToggle => "speed_limiter".to_owned(),
            MenuAction::Options => "options".to_owned(),
            MenuAction::Extensions => "extensions".to_owned(),
            MenuAction::HideCategories => "hide_cats".to_owned(),
            MenuAction::HomePage => "homepage".to_owned(),
            MenuAction::Contribute => "contribute".to_owned(),
            MenuAction::ReportIssue => "report_issue".to_owned(),
            MenuAction::About => "about".to_owned(),
            MenuAction::Permissions => "permissions".to_owned(),
            MenuAction::RemoveFromQueue => "rm_q".to_owned(),
            MenuAction::Properties => "props".to_owned(),
            MenuAction::OpenSel => "open_sel".to_owned(),
            MenuAction::OpenFolderSel => "open_folder_sel".to_owned(),
            MenuAction::PowerSaveToggle => "power_save".to_owned(),
            MenuAction::Shortcuts => "shortcuts".to_owned(),
            MenuAction::Logs => "logs".to_owned(),
            MenuAction::CheckUpdates => "check_updates".to_owned(),
        }
    }

    /// The command that a name stands for, if it stands for one.
    pub fn from_id(id: &str) -> (r: Option<MenuAction>)
        ensures
            r.deep_view() == action_of(id@),
    {
        proof {
            reveal(MenuAction::model);
        }
        if let Some(q) = strip_prefix(id, "start_queue:") {
            return Some(MenuAction::StartQueue(q));
        }
        if let Some(q) = strip_prefix(id, "stop_queue:") {
            return Some(MenuAction::StopQueue(q));
        }
        if let Some(k) = strip_prefix(id, "arrange:") {
            return Some(MenuAction::ArrangeBy(sort_from_name(&k)));
        }
        if let Some(m) = strip_prefix(id, "theme:") {
            let mode = if same(&m, "Light") {
                ThemeMode::Light
            } else if same(&m, "Dark") {
                ThemeMode::Dark
            } else {
                ThemeMode::System
            };
            return Some(MenuAction::SetTheme(mode));
        }
        if let Some(s) = strip_prefix(id, "font:") {
            return match parse_number(&s, 65535) {
                Some(n) => Some(MenuAction::FontSize(n as u16)),
                None => None,
            };
        }
        if let Some(l) = strip_prefix(id, "lang:") {
            return Some(MenuAction::Language(l));
        }
        if let Some(q) = strip_prefix(id, "move_q:") {
            return Some(MenuAction::MoveToQueue(q));
        }
        plain_from_id(id)
    }
}

// ---------------------------------------------------------------------- laws

/// What tells the plain names apart: their length, and their first and last letters.
spec fn mark(s: Seq<char>) -> (nat, char, char, char) {
    (s.len(), s[0], s[1], s.last())
}

/// The marks of the prefixes.
proof fn lemma_prefixes(id: Seq<char>)
    ensures
        begins(id, "start_queue:"@) ==> id.len() >= 12 && id[0] == 's' && id[1] == 't',
        begins(id, "stop_queue:"@) ==> id.len() >= 11 && id[0] == 's' && id[1] == 't' && id[2] == 'o',
        begins(id, "arrange:"@) ==> id[0] == 'a' && id[1] == 'r',
        begins(id, "theme:"@) ==> id[0] == 't' && id[1] == 'h',
        begins(id, "font:"@) ==> id[0] == 'f' && id[1] == 'o',
        begins(id, "lang:"@) ==> id[0] == 'l' && id[1] == 'a',
        begins(id, "move_q:"@) ==> id[0] == 'm' && id[1] == 'o',
{
    reveal_strlit("start_queue:");
    reveal_strlit("stop_queue:");
    reveal_strlit("arrange:");
    reveal_strlit("theme:");
    reveal_strlit("font:");
    reveal_strlit("lang:");
    reveal_strlit("move_q:");
    if begins(id, "start_queue:"@) {
        assert(id.subrange(0, 12)[0] == id[0]);
        assert(id.subrange(0, 12)[1] == id[1]);
        assert(id.subrange(0, 12)[2] == id[2]);
    }
    if begins(id, "stop_queue:"@) {
        assert(id.subrange(0, 11)[0] == id[0]);
        assert(id.subrange(0, 11)[1] == id[1]);
        assert(id.subrange(0, 11)[2] == id[2]);
    }
    if begins(id, "arrange:"@) {
        assert(id.subrange(0, 8)[0] == id[0]);
        assert(id.subrange(0, 8)[1] == id[1]);
        assert(id.subrange(0, 8)[2] == id[2]);
    }
    if begins(id, "theme:"@) {
        assert(id.subrange(0, 6)[0] == id[0]);
        assert(id.subrange(0, 6)[1] == id[1]);
        assert(id.subrange(0, 6)[2] == id[2]);
    }
    if begins(id, "font:"@) {
        assert(id.subrange(0, 5)[0] == id[0]);
        assert(id.subrange(0, 5)[1] == id[1]);
        assert(id.subrange(0, 5)[2] == id[2]);
    }
    if begins(id, "lang:"@) {
        assert(id.subrange(0, 5)[0] == id[0]);
        assert(id.subrange(0, 5)[1] == id[1]);
        assert(id.subrange(0, 5)[2] == id[2]);
    }
    if begins(id, "move_q:"@) {
        assert(id.subrange(0, 7)[0] == id[0]);
        assert(id.subrange(0, 7)[1] == id[1]);
        assert(id.subrange(0, 7)[2] == id[2]);
    }
}

proof fn lemma_marks()
    ensures
        mark("add_new"@) == (7nat, 'a', 'd', 'w'),
        mark("add_batch"@) == (9nat, 'a', 'd', 'h'),
        mark("add_batch_clip"@) == (14nat, 'a', 'd', 'p'),
        mark("add_batch_file"@) == (14nat, 'a', 'd', 'e'),
        mark("grabber"@) == (7nat, 'g', 'r', 'r'),
        mark("drop_target"@) == (11nat, 'd', 'r', 't'),
        mark("export"@) == (6nat, 'e', 'x', 't'),
        mark("import"@) == (6nat, 'i', 'm', 't'),
        mark("exit"@) == (4nat, 'e', 'x', 't'),
        mark("stop_dl"@) == (7nat, 's', 't', 'l'),
        mark("remove"@) == (6nat, 'r', 'e', 'e'),
        mark("dl_now"@) == (6nat, 'd', 'l', 'w'),
        mark("redownload"@) == (10nat, 'r', 'e', 'd'),
        mark("pause_all"@) == (9nat, 'p', 'a', 'l'),
        mark("stop_all"@) == (8nat, 's', 't', 'l'),
        mark("del_completed"@) == (13nat, 'd', 'e', 'd'),
        mark("find"@) == (4nat, 'f', 'i', 'd'),
        mark("scheduler"@) == (9nat, 's', 'c', 'r'),
        mark("speed_limiter"@) == (13nat, 's', 'p', 'r'),
        mark("options"@) == (7nat, 'o', 'p', 's'),
        mark("extensions"@) == (10nat, 'e', 'x', 's'),
        mark("hide_cats"@) == (9nat, 'h', 'i', 's'),
        mark("homepage"@) == (8nat, 'h', 'o', 'e'),
        mark("contribute"@) == (10nat, 'c', 'o', 'e'),
        mark("report_issue"@) == (12nat, 'r', 'e', 'e'),
        mark("about"@) == (5nat, 'a', 'b', 't'),
        mark("permissions"@) == (11nat, 'p', 'e', 's'),
        mark("rm_q"@) == (4nat, 'r', 'm', 'q'),
        mark("props"@) == (5nat, 'p', 'r', 's'),
        mark("open_sel"@) == (8nat, 'o', 'p', 'l'),
        mark("open_folder_sel"@) == (15nat, 'o', 'p', 'l'),
        mark("power_save"@) == (10nat, 'p', 'o', 'e'),
        mark("shortcuts"@) == (9nat, 's', 'h', 's'),
        mark("logs"@) == (4nat, 'l', 'o', 's'),
        mark("check_updates"@) == (13nat, 'c', 'h', 's'),
{
    reveal_strlit("add_new");
    reveal_strlit("add_batch");
    reveal_strlit("add_batch_clip");
    reveal_strlit("add_batch_file");
    reveal_strlit("grabber");
    reveal_strlit("drop_target");
    reveal_strlit("export");
    reveal_strlit("import");
    reveal_strlit("exit");
    reveal_strlit("stop_dl");
    reveal_strlit("remove");
    reveal_strlit("dl_now");
    reveal_strlit("redownload");
    reveal_strlit("pause_all");
    reveal_strlit("stop_all");
    reveal_strlit("del_completed");
    reveal_strlit("find");
    reveal_strlit("scheduler");
    reveal_strlit("speed_limiter");
    reveal_strlit("options");
    reveal_strlit("extensions");
    reveal_strlit("hide_cats");
    reveal_strlit("homepage");
    reveal_strlit("contribute");
    reveal_strlit("report_issue");
    reveal_strlit("about");
    reveal_strlit("permissions");
    reveal_strlit("rm_q");
    reveal_strlit("props");
    reveal_strlit("open_sel");
    reveal_strlit("open_folder_sel");
    reveal_strlit("power_save");
    reveal_strlit("shortcuts");
    reveal_strlit("logs");
    reveal_strlit("check_updates");
}

/// A number reads back as itself.
pub proof fn numbers_read_back(n: nat, max: int)
    requires
        n <= max,
        max <= u64::MAX,
    ensures
        spelled_up_to(decimal(n), max) == Some(n as u64),
{
    lemma_decimal_spells(n);
    let s = decimal(n);
    assert(is_digit(s[0]));
    assert(unsigned(s) == s);
}

proof fn lemma_arg(prefix: Seq<char>, q: Seq<char>)
    ensures
        begins(prefix + q, prefix),
        arg_of(prefix + q, prefix) == q,
{
    assert((prefix + q).subrange(0, prefix.len() as int) =~= prefix);
    assert((prefix + q).skip(prefix.len() as int) =~= q);
}

/// Every command is found again under its name.
pub proof fn commands_are_found_by_their_names(a: MenuActionModel)
    ensures
        action_of(action_id(a)) == Some(a),
{
    let id = action_id(a);
    lemma_prefixes(id);
    lemma_marks();
    reveal_strlit("start_queue:");
    reveal_strlit("stop_queue:");
    reveal_strlit("arrange:");
    reveal_strlit("theme:");
    reveal_strlit("font:");
    reveal_strlit("lang:");
    reveal_strlit("move_q:");
    match a {
        MenuActionModel::StartQueue(q) => lemma_arg("start_queue:"@, q),
        MenuActionModel::StopQueue(q) => {
            lemma_arg("stop_queue:"@, q);
            assert(id[2] == 'o');
            if begins(id, "start_queue:"@) {
                assert(id.subrange(0, 12)[2] == id[2]);
            }
        },
        MenuActionModel::ArrangeBy(k) => {
            lemma_arg("arrange:"@, sort_name(k));
            lemma_sort_names(k);
            assert(id[0] == 'a');
        },
        MenuActionModel::SetTheme(m) => {
            lemma_arg("theme:"@, theme_name(m));
            lemma_theme_names(m);
            assert(id[0] == 't');
        },
        MenuActionModel::FontSize(s) => {
            lemma_arg("font:"@, decimal(s as nat));
            numbers_read_back(s as nat, u16::MAX as int);
            assert(id[0] == 'f');
        },
        MenuActionModel::Language(l) => {
            lemma_arg("lang:"@, l);
            assert(id[0] == 'l');
        },
        MenuActionModel::MoveToQueue(q) => {
            lemma_arg("move_q:"@, q);
            assert(id[0] == 'm');
        },
        _ => {
            assert(mark(id).0 == id.len());
            assert(mark(id).1 == id[0]);
            assert(mark(id).2 == id[1]);
        },
    }
}

proof fn lemma_sort_names(k: SortKey)
    ensures
        sort_named(sort_name(k)) == k,
{
    reveal_strlit("Name");
    reveal_strlit("Queue");
    reveal_strlit("Size");
    reveal_strlit("Status");
    reveal_strlit("TimeLeft");
    reveal_strlit("Rate");
    reveal_strlit("LastTry");
    reveal_strlit("Description");
    assert("Name"@.len() == 4);
    assert("Queue"@.len() == 5);
    assert("Size"@.len() == 4);
    assert("Status"@.len() == 6);
    assert("TimeLeft"@.len() == 8);
    assert("Rate"@.len() == 4);
    assert("LastTry"@.len() == 7);
    assert("Description"@.len() == 11);
    assert("Size"@[0] == 'S');
    assert("Name"@[0] == 'N');
    assert("Rate"@[0] == 'R');
}

proof fn lemma_theme_names(m: ThemeMode)
    ensures
        theme_named(theme_name(m)) == m,
{
    reveal_strlit("System");
    reveal_strlit("Light");
    reveal_strlit("Dark");
    assert("System"@.len() == 6);
    assert("Light"@.len() == 5);
    assert("Dark"@.len() == 4);
}

} // verus!
