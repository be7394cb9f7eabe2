//! What the windows and dialogs show, apart from the stored lists.
use crate::assoc::assoc;
use crate::engine::{
    MetalinkProbe, MetalinkProbeModel, StreamProbe, StreamProbeModel, StreamQuality,
    StreamQualityModel,
};
use crate::model::{
    default_categories, CategoryDef, CategoryDefModel, DlId, PowerAction, Settings, SettingsModel,
};
use crate::names::{join_path, path_in, save_as_parts, split_save_as};
use crate::scan::{Outcome, OutcomeModel};
use crate::text::{decimal, number, same};
use crate::twin::{copy_ids, Twin};
use crate::update::{UpdateInfo, UpdateInfoModel};
use vstd::prelude::*;

verus! {

// ------------------------------------------------------------------ windows

/// The number of a window, given when it opens and to no other window after it.
pub type WinId = u64;

/// A window that is open.
#[derive(Clone, Copy, PartialEq, Eq, Structural, Debug)]
pub struct Win {
    pub id: WinId,
    pub kind: WinKind,
}

/// What a window shows. There is at most one window of each kind.
#[derive(Clone, Copy, PartialEq, Eq, Structural, Debug)]
pub enum WinKind {
    Main,
    AddUrl,
    FileInfo(DlId),
    Progress(DlId),
    Complete(DlId),
    Options,
    Scheduler,
    Batch,
    About,
    Confirm,
    Permissions,
    Shortcuts,
    Update,
    /// The cancellable countdown shown before a "when done" power action.
    Power,
    /// What is inside a ZIP archive, read from its tail before the download.
    ZipPreview(DlId),
}

// --------------------------------------------------------------- selections

/// What the tree on the left shows the list by.
#[derive(Debug)]
pub enum TreeSel {
    All,
    Cat(String),
    Unfinished,
    UnfCat(String),
    Finished,
    FinCat(String),
    Queues,
    Queue(String),
}

/// The model of [`TreeSel`].
#[verifier::ext_equal]
pub enum TreeSelModel {
    All,
    Cat(Seq<char>),
    Unfinished,
    UnfCat(Seq<char>),
    Finished,
    FinCat(Seq<char>),
    Queues,
    Queue(Seq<char>),
}

impl View for TreeSel {
    type V = TreeSelModel;

    open spec fn view(&self) -> TreeSelModel {
        match *self {
            TreeSel::All => TreeSelModel::All,
            TreeSel::Cat(a) => TreeSelModel::Cat(a@),
            TreeSel::Unfinished => TreeSelModel::Unfinished,
            TreeSel::UnfCat(a) => TreeSelModel::UnfCat(a@),
            TreeSel::Finished => TreeSelModel::Finished,
            TreeSel::FinCat(a) => TreeSelModel::FinCat(a@),
            TreeSel::Queues => TreeSelModel::Queues,
            TreeSel::Queue(a) => TreeSelModel::Queue(a@),
        }
    }
}

impl DeepView for TreeSel {
    type V = TreeSelModel;

    open spec fn deep_view(&self) -> TreeSelModel {
        self@
    }
}

impl Twin for TreeSel {
    fn twin(&self) -> (r: Self) {
        match self {
            TreeSel::All => TreeSel::All,
            TreeSel::Cat(a) => TreeSel::Cat(a.clone()),
            TreeSel::Unfinished => TreeSel::Unfinished,
            TreeSel::UnfCat(a) => TreeSel::UnfCat(a.clone()),
            TreeSel::Finished => TreeSel::Finished,
            TreeSel::FinCat(a) => TreeSel::FinCat(a.clone()),
            TreeSel::Queues => TreeSel::Queues,
            TreeSel::Queue(a) => TreeSel::Queue(a.clone()),
        }
    }
}

/// A column the download list can be sorted by.
#[derive(Clone, Copy, PartialEq, Eq, Structural, Debug)]
pub enum SortKey {
    Name,
    Queue,
    Size,
    Status,
    TimeLeft,
    Rate,
    LastTry,
    Description,
}

/// A menu of the menu bar.
#[derive(Clone, Copy, PartialEq, Eq, Structural, Debug)]
pub enum MenuBarKind {
    Tasks,
    File,
    Downloads,
    View,
    Help,
}

// ------------------------------------------------------------ dialog states

/// The Add URL dialog.
#[derive(Debug)]
pub struct AddUrlState {
    pub address: String,
    pub use_auth: bool,
    pub login: String,
    pub password: String,
    pub error: Option<String>,
    /// Cookie header captured by the browser extension.
    pub capture_cookies: Option<String>,
    /// File name that the browser had already resolved.
    pub capture_name: Option<String>,
    /// Page the browser was on when it captured this file.
    pub capture_referer: Option<String>,
    /// What the address turned out to be, when it is a manifest.
    pub stream: Option<StreamProbe>,
    /// The address `stream` describes, so that an edited address invalidates it.
    pub stream_of: String,
    pub stream_probing: bool,
    pub stream_error: Option<String>,
    pub quality: Option<StreamQuality>,
    /// `MP4` or `TS`.
    pub container: String,
    /// Minutes to record a live stream for, as typed; empty means until stopped.
    pub record_minutes: String,
    /// What the address turned out to be, when it is a mirror list.
    pub metalink: Option<MetalinkProbe>,
    /// The address `metalink` describes.
    pub metalink_of: String,
    pub metalink_probing: bool,
    pub metalink_error: Option<String>,
}

/// The model of [`AddUrlState`].
#[verifier::ext_equal]
pub struct AddUrlStateModel {
    pub address: Seq<char>,
    pub use_auth: bool,
    pub login: Seq<char>,
    pub password: Seq<char>,
    pub error: Option<Seq<char>>,
    pub capture_cookies: Option<Seq<char>>,
    pub capture_name: Option<Seq<char>>,
    pub capture_referer: Option<Seq<char>>,
    pub stream: Option<StreamProbeModel>,
    pub stream_of: Seq<char>,
    pub stream_probing: bool,
    pub stream_error: Option<Seq<char>>,
    pub quality: Option<StreamQualityModel>,
    pub container: Seq<char>,
    pub record_minutes: Seq<char>,
    pub metalink: Option<MetalinkProbeModel>,
    pub metalink_of: Seq<char>,
    pub metalink_probing: bool,
    pub metalink_error: Option<Seq<char>>,
}

impl View for AddUrlState {
    type V = AddUrlStateModel;

    open spec fn view(&self) -> AddUrlStateModel {
        AddUrlStateModel {
            address: self.address@,
            use_auth: self.use_auth,
            login: self.login@,
            password: self.password@,
            error: self.error.deep_view(),
            capture_cookies: self.capture_cookies.deep_view(),
            capture_name: self.capture_name.deep_view(),
            capture_referer: self.capture_referer.deep_view(),
            stream: self.stream.deep_view(),
            stream_of: self.stream_of@,
            stream_probing: self.stream_probing,
            stream_error: self.stream_error.deep_view(),
            quality: self.quality.deep_view(),
            container: self.container@,
            record_minutes: self.record_minutes@,
            metalink: self.metalink.deep_view(),
            metalink_of: self.metalink_of@,
            metalink_probing: self.metalink_probing,
            metalink_error: self.metalink_error.deep_view(),
        }
    }
}

impl DeepView for AddUrlState {
    type V = AddUrlStateModel;

    open spec fn deep_view(&self) -> AddUrlStateModel {
        self@
    }
}

impl Twin for AddUrlState {
    fn twin(&self) -> (r: Self) {
        AddUrlState {
            address: self.address.clone(),
            use_auth: self.use_auth,
            login: self.login.clone(),
            password: self.password.clone(),
            error: self.error.twin(),
            capture_cookies: self.capture_cookies.twin(),
            capture_name: self.capture_name.twin(),
            capture_referer: self.capture_referer.twin(),
            stream: self.stream.twin(),
            stream_of: self.stream_of.clone(),
            stream_probing: self.stream_probing,
            stream_error: self.stream_error.twin(),
            quality: self.quality.twin(),
            container: self.container.clone(),
            record_minutes: self.record_minutes.clone(),
            metalink: self.metalink.twin(),
            metalink_of: self.metalink_of.clone(),
            metalink_probing: self.metalink_probing,
            metalink_error: self.metalink_error.twin(),
        }
    }
}

impl AddUrlStateModel {
    pub open spec fn empty() -> AddUrlStateModel {
        AddUrlStateModel {
            address: seq![],
            use_auth: false,
            login: seq![],
            password: seq![],
            error: None,
            capture_cookies: None,
            capture_name: None,
            capture_referer: None,
            stream: None,
            stream_of: seq![],
            stream_probing: false,
            stream_error: None,
            quality: None,
            container: seq![],
            record_minutes: seq![],
            metalink: None,
            metalink_of: seq![],
            metalink_probing: false,
            metalink_error: None,
        }
    }
}

impl Default for AddUrlState {
    fn default() -> (r: Self)
        ensures
            r@ == AddUrlStateModel::empty(),
    {
        let r = AddUrlState {
            address: String::new(),
            use_auth: false,
            login: String::new(),
            password: String::new(),
            error: None,
            capture_cookies: None,
            capture_name: None,
            capture_referer: None,
            stream: None,
            stream_of: String::new(),
            stream_probing: false,
            stream_error: None,
            quality: None,
            container: String::new(),
            record_minutes: String::new(),
            metalink: None,
            metalink_of: String::new(),
            metalink_probing: false,
            metalink_error: None,
        };
        assert(r@ =~= AddUrlStateModel::empty());
        r
    }
}

/// A capture parked behind the duplicate-confirmation dialog.
#[derive(Debug)]
pub struct PendingAdd {
    pub url: String,
    pub auth: Option<(String, String)>,
    pub cookies: Option<String>,
    pub name: Option<String>,
    pub referer: Option<String>,
}

/// The model of [`PendingAdd`].
#[verifier::ext_equal]
pub struct PendingAddModel {
    pub url: Seq<char>,
    pub auth: Option<(Seq<char>, Seq<char>)>,
    pub cookies: Option<Seq<char>>,
    pub name: Option<Seq<char>>,
    pub referer: Option<Seq<char>>,
}

impl View for PendingAdd {
    type V = PendingAddModel;

    open spec fn view(&self) -> PendingAddModel {
        PendingAddModel {
            url: self.url@,
            auth: self.auth.deep_view(),
            cookies: self.cookies.deep_view(),
            name: self.name.deep_view(),
            referer: self.referer.deep_view(),
        }
    }
}

impl DeepView for PendingAdd {
    type V = PendingAddModel;

    open spec fn deep_view(&self) -> PendingAddModel {
        self@
    }
}

impl Twin for PendingAdd {
    fn twin(&self) -> (r: Self) {
        PendingAdd {
            url: self.url.clone(),
            auth: self.auth.twin(),
            cookies: self.cookies.twin(),
            name: self.name.twin(),
            referer: self.referer.twin(),
        }
    }
}

/// The Download File Info dialog.
#[derive(Debug)]
pub struct FileInfoState {
    pub dl: DlId,
    pub category: String,
    pub save_dir: String,
    pub file_name: String,
    pub description: String,
    pub remember: bool,
    /// Editable in Properties: changing it and starting continues the same
    /// bytes from a different mirror.
    pub url: String,
    pub login: String,
    pub password: String,
    pub cookies: String,
    /// A new download, which Cancel removes, rather than Properties of an
    /// existing one.
    pub is_new: bool,
    /// The file type is not in Options > File types, so nothing may start on
    /// its own.
    pub bg_blocked: bool,
    /// Fields the user edited; a probe stops filling them.
    pub name_touched: bool,
    pub cat_touched: bool,
    pub dir_touched: bool,
}

/// The model of [`FileInfoState`].
#[verifier::ext_equal]
pub struct FileInfoStateModel {
    pub dl: DlId,
    pub category: Seq<char>,
    pub save_dir: Seq<char>,
    pub file_name: Seq<char>,
    pub description: Seq<char>,
    pub remember: bool,
    pub url: Seq<char>,
    pub login: Seq<char>,
    pub password: Seq<char>,
    pub cookies: Seq<char>,
    pub is_new: bool,
    pub bg_blocked: bool,
    pub name_touched: bool,
    pub cat_touched: bool,
    pub dir_touched: bool,
}

impl View for FileInfoState {
    type V = FileInfoStateModel;

    open spec fn view(&self) -> FileInfoStateModel {
        FileInfoStateModel {
            dl: self.dl,
            category: self.category@,
            save_dir: self.save_dir@,
            file_name: self.file_name@,
            description: self.description@,
            remember: self.remember,
            url: self.url@,
            login: self.login@,
            password: self.password@,
            cookies: self.cookies@,
            is_new: self.is_new,
            bg_blocked: self.bg_blocked,
            name_touched: self.name_touched,
            cat_touched: self.cat_touched,
            dir_touched: self.dir_touched,
        }
    }
}

impl DeepView for FileInfoState {
    type V = FileInfoStateModel;

    open spec fn deep_view(&self) -> FileInfoStateModel {
        self@
    }
}

impl Twin for FileInfoState {
    fn twin(&self) -> (r: Self) {
        FileInfoState {
            dl: self.dl,
            category: self.category.clone(),
            save_dir: self.save_dir.clone(),
            file_name: self.file_name.clone(),
            description: self.description.clone(),
            remember: self.remember,
            url: self.url.clone(),
            login: self.login.clone(),
            password: self.password.clone(),
            cookies: self.cookies.clone(),
            is_new: self.is_new,
            bg_blocked: self.bg_blocked,
            name_touched: self.name_touched,
            cat_touched: self.cat_touched,
            dir_touched: self.dir_touched,
        }
    }
}

impl FileInfoStateModel {
    pub open spec fn empty() -> FileInfoStateModel {
        FileInfoStateModel {
            dl: 0,
            category: seq![],
            save_dir: seq![],
            file_name: seq![],
            description: seq![],
            remember: false,
            url: seq![],
            login: seq![],
            password: seq![],
            cookies: seq![],
            is_new: false,
            bg_blocked: false,
            name_touched: false,
            cat_touched: false,
            dir_touched: false,
        }
    }
}

impl Default for FileInfoState {
    fn default() -> (r: Self)
        ensures
            r@ == FileInfoStateModel::empty(),
    {
        let r = FileInfoState {
            dl: 0,
            category: String::new(),
            save_dir: String::new(),
            file_name: String::new(),
            description: String::new(),
            remember: false,
            url: String::new(),
            login: String::new(),
            password: String::new(),
            cookies: String::new(),
            is_new: false,
            bg_blocked: false,
            name_touched: false,
            cat_touched: false,
            dir_touched: false,
        };
        assert(r@ =~= FileInfoStateModel::empty());
        r
    }
}

/// A page of the progress dialog.
#[derive(Clone, Copy, PartialEq, Eq, Structural, Debug)]
pub enum ProgTab {
    Status,
    Speed,
    Completion,
}

impl Default for ProgTab {
    fn default() -> (r: Self)
        ensures
            r == ProgTab::Status,
    {
        ProgTab::Status
    }
}

/// The progress dialog of one download.
#[derive(Debug)]
pub struct ProgState {
    pub tab: ProgTab,
    pub details: bool,
    pub limit_on: bool,
    pub limit_kb: String,
    pub remember_limit: bool,
}

/// The model of [`ProgState`].
#[verifier::ext_equal]
pub struct ProgStateModel {
    pub tab: ProgTab,
    pub details: bool,
    pub limit_on: bool,
    pub limit_kb: Seq<char>,
    pub remember_limit: bool,
}

impl View for ProgState {
    type V = ProgStateModel;

    open spec fn view(&self) -> ProgStateModel {
        ProgStateModel {
            tab: self.tab,
            details: self.details,
            limit_on: self.limit_on,
            limit_kb: self.limit_kb@,
            remember_limit: self.remember_limit,
        }
    }
}

impl DeepView for ProgState {
    type V = ProgStateModel;

    open spec fn deep_view(&self) -> ProgStateModel {
        self@
    }
}

impl Twin for ProgState {
    fn twin(&self) -> (r: Self) {
        ProgState {
            tab: self.tab,
            details: self.details,
            limit_on: self.limit_on,
            limit_kb: self.limit_kb.clone(),
            remember_limit: self.remember_limit,
        }
    }
}

impl ProgStateModel {
    pub open spec fn empty() -> ProgStateModel {
        ProgStateModel {
            tab: ProgTab::Status,
            details: false,
            limit_on: false,
            limit_kb: seq![],
            remember_limit: false,
        }
    }
}

impl Default for ProgState {
    fn default() -> (r: Self)
        ensures
            r@ == ProgStateModel::empty(),
    {
        let r = ProgState {
            tab: ProgTab::Status,
            details: false,
            limit_on: false,
            limit_kb: String::new(),
            remember_limit: false,
        };
        assert(r@ =~= ProgStateModel::empty());
        r
    }
}

/// A virus scan over one finished file.
#[derive(Debug)]
pub struct ScanState {
    /// Console output, oldest first.
    pub log: Vec<String>,
    /// The last line was drawn over; the next redraw overwrites it.
    pub redraw_tail: bool,
    /// None while the scanner is still running.
    pub outcome: Option<Outcome>,
}

/// The model of [`ScanState`].
#[verifier::ext_equal]
pub struct ScanStateModel {
    pub log: Seq<Seq<char>>,
    pub redraw_tail: bool,
    pub outcome: Option<OutcomeModel>,
}

impl View for ScanState {
    type V = ScanStateModel;

    open spec fn view(&self) -> ScanStateModel {
        ScanStateModel {
            log: self.log.deep_view(),
            redraw_tail: self.redraw_tail,
            outcome: self.outcome.deep_view(),
        }
    }
}

impl DeepView for ScanState {
    type V = ScanStateModel;

    open spec fn deep_view(&self) -> ScanStateModel {
        self@
    }
}

impl Twin for ScanState {
    fn twin(&self) -> (r: Self) {
        ScanState {
            log: self.log.twin(),
            redraw_tail: self.redraw_tail,
            outcome: self.outcome.twin(),
        }
    }
}

impl ScanStateModel {
    pub open spec fn empty() -> ScanStateModel {
        ScanStateModel {
            log: seq![],
            redraw_tail: false,
            outcome: None,
        }
    }
}

impl Default for ScanState {
    fn default() -> (r: Self)
        ensures
            r@ == ScanStateModel::empty(),
    {
        let r = ScanState {
            log: Vec::new(),
            redraw_tail: false,
            outcome: None,
        };
        assert(r@ =~= ScanStateModel::empty());
        r
    }
}

/// A page of the Options dialog.
#[derive(Clone, Copy, PartialEq, Eq, Structural, Debug)]
pub enum OptTab {
    General,
    FileTypes,
    SaveTo,
    Downloads,
    Connection,
    Proxy,
    Sites,
    Extensions,
    Sounds,
}

/// The Options dialog.
#[derive(Debug)]
pub struct OptionsState {
    pub tab: OptTab,
    pub draft: Settings,
    pub draft_cats: Vec<CategoryDef>,
    pub sel_category: String,
    pub sel_login: Option<usize>,
    pub login_site: String,
    pub login_user: String,
    pub login_pass: String,
    pub conn_exc_server: String,
    pub conn_exc_n: String,
    /// What was typed for the download limit; the draft takes it whenever it
    /// is a number.
    pub dl_limit_mb_txt: String,
    pub dl_limit_hours_txt: String,
}

/// The model of [`OptionsState`].
#[verifier::ext_equal]
pub struct OptionsStateModel {
    pub tab: OptTab,
    pub draft: SettingsModel,
    pub draft_cats: Seq<CategoryDefModel>,
    pub sel_category: Seq<char>,
    pub sel_login: Option<usize>,
    pub login_site: Seq<char>,
    pub login_user: Seq<char>,
    pub login_pass: Seq<char>,
    pub conn_exc_server: Seq<char>,
    pub conn_exc_n: Seq<char>,
    pub dl_limit_mb_txt: Seq<char>,
    pub dl_limit_hours_txt: Seq<char>,
}

impl View for OptionsState {
    type V = OptionsStateModel;

    open spec fn view(&self) -> OptionsStateModel {
        OptionsStateModel {
            tab: self.tab,
            draft: self.draft@,
            draft_cats: self.draft_cats.deep_view(),
            sel_category: self.sel_category@,
            sel_login: self.sel_login,
            login_site: self.login_site@,
            login_user: self.login_user@,
            login_pass: self.login_pass@,
            conn_exc_server: self.conn_exc_server@,
            conn_exc_n: self.conn_exc_n@,
            dl_limit_mb_txt: self.dl_limit_mb_txt@,
            dl_limit_hours_txt: self.dl_limit_hours_txt@,
        }
    }
}

impl DeepView for OptionsState {
    type V = OptionsStateModel;

    open spec fn deep_view(&self) -> OptionsStateModel {
        self@
    }
}

impl Twin for OptionsState {
    fn twin(&self) -> (r: Self) {
        OptionsState {
            tab: self.tab,
            draft: self.draft.twin(),
            draft_cats: self.draft_cats.twin(),
            sel_category: self.sel_category.clone(),
            sel_login: self.sel_login,
            login_site: self.login_site.clone(),
            login_user: self.login_user.clone(),
            login_pass: self.login_pass.clone(),
            conn_exc_server: self.conn_exc_server.clone(),
            conn_exc_n: self.conn_exc_n.clone(),
            dl_limit_mb_txt: self.dl_limit_mb_txt.clone(),
            dl_limit_hours_txt: self.dl_limit_hours_txt.clone(),
        }
    }
}

impl OptionsStateModel {
    pub open spec fn empty() -> OptionsStateModel {
        OptionsStateModel {
            tab: OptTab::General,
            draft: SettingsModel::initial(),
            draft_cats: seq![CategoryDefModel { name: "General"@, dir: seq![], types: seq![] }],
            sel_category: "General"@,
            sel_login: None,
            login_site: seq![],
            login_user: seq![],
            login_pass: seq![],
            conn_exc_server: seq![],
            conn_exc_n: seq![],
            dl_limit_mb_txt: seq![],
            dl_limit_hours_txt: seq![],
        }
    }
}

impl Default for OptionsState {
    fn default() -> (r: Self)
        ensures
            r@ == OptionsStateModel::empty(),
    {
        let r = OptionsState {
            tab: OptTab::General,
            draft: Settings::default(),
            draft_cats: default_categories(),
            sel_category: "General".to_owned(),
            sel_login: None,
            login_site: String::new(),
            login_user: String::new(),
            login_pass: String::new(),
            conn_exc_server: String::new(),
            conn_exc_n: String::new(),
            dl_limit_mb_txt: String::new(),
            dl_limit_hours_txt: String::new(),
        };
        assert(r@ =~= OptionsStateModel::empty());
        r
    }
}

/// One file of an archive.
#[derive(Debug)]
pub struct ZipEntry {
    pub name: String,
    pub size: u64,
}

/// The model of [`ZipEntry`].
#[verifier::ext_equal]
pub struct ZipEntryModel {
    pub name: Seq<char>,
    pub size: u64,
}

impl View for ZipEntry {
    type V = ZipEntryModel;

    open spec fn view(&self) -> ZipEntryModel {
        ZipEntryModel {
            name: self.name@,
            size: self.size,
        }
    }
}

impl DeepView for ZipEntry {
    type V = ZipEntryModel;

    open spec fn deep_view(&self) -> ZipEntryModel {
        self@
    }
}

impl Twin for ZipEntry {
    fn twin(&self) -> (r: Self) {
        ZipEntry {
            name: self.name.clone(),
            size: self.size,
        }
    }
}

/// The listing of an archive, or why there is none.
#[derive(Debug)]
pub enum ZipPeek {
    Loading,
    Listed(Vec<ZipEntry>),
    /// A translated sentence.
    Failed(String),
}

/// The model of [`ZipPeek`].
#[verifier::ext_equal]
pub enum ZipPeekModel {
    Loading,
    Listed(Seq<ZipEntryModel>),
    Failed(Seq<char>),
}

impl View for ZipPeek {
    type V = ZipPeekModel;

    open spec fn view(&self) -> ZipPeekModel {
        match *self {
            ZipPeek::Loading => ZipPeekModel::Loading,
            ZipPeek::Listed(a) => ZipPeekModel::Listed(a.deep_view()),
            ZipPeek::Failed(a) => ZipPeekModel::Failed(a@),
        }
    }
}

impl DeepView for ZipPeek {
    type V = ZipPeekModel;

    open spec fn deep_view(&self) -> ZipPeekModel {
        self@
    }
}

impl Twin for ZipPeek {
    fn twin(&self) -> (r: Self) {
        match self {
            ZipPeek::Loading => ZipPeek::Loading,
            ZipPeek::Listed(a) => ZipPeek::Listed(a.twin()),
            ZipPeek::Failed(a) => ZipPeek::Failed(a.clone()),
        }
    }
}

/// The "Zip preview" window.
#[derive(Debug)]
pub struct ZipPreviewState {
    pub dl: DlId,
    /// The archive's name, for the heading.
    pub file_name: String,
    pub result: ZipPeek,
}

/// The model of [`ZipPreviewState`].
#[verifier::ext_equal]
pub struct ZipPreviewStateModel {
    pub dl: DlId,
    pub file_name: Seq<char>,
    pub result: ZipPeekModel,
}

impl View for ZipPreviewState {
    type V = ZipPreviewStateModel;

    open spec fn view(&self) -> ZipPreviewStateModel {
        ZipPreviewStateModel {
            dl: self.dl,
            file_name: self.file_name@,
            result: self.result@,
        }
    }
}

impl DeepView for ZipPreviewState {
    type V = ZipPreviewStateModel;

    open spec fn deep_view(&self) -> ZipPreviewStateModel {
        self@
    }
}

impl Twin for ZipPreviewState {
    fn twin(&self) -> (r: Self) {
        ZipPreviewState {
            dl: self.dl,
            file_name: self.file_name.clone(),
            result: self.result.twin(),
        }
    }
}

impl ZipPreviewStateModel {
    pub open spec fn empty() -> ZipPreviewStateModel {
        ZipPreviewStateModel {
            dl: 0,
            file_name: seq![],
            result: ZipPeekModel::Loading,
        }
    }
}

impl Default for ZipPreviewState {
    fn default() -> (r: Self)
        ensures
            r@ == ZipPreviewStateModel::empty(),
    {
        let r = ZipPreviewState {
            dl: 0,
            file_name: String::new(),
            result: ZipPeek::Loading,
        };
        assert(r@ =~= ZipPreviewStateModel::empty());
        r
    }
}

/// How far an update has come.
#[derive(Debug)]
pub enum UpdatePhase {
    /// Notes are on screen; nothing has been downloaded.
    Idle,
    Downloading { got: u64, total: Option<u64> },
    Verifying,
    Preparing,
    /// The finisher is live; the program is about to exit.
    Restarting,
    Failed(String),
}

/// The model of [`UpdatePhase`].
#[verifier::ext_equal]
pub enum UpdatePhaseModel {
    Idle,
    Downloading { got: u64, total: Option<u64> },
    Verifying,
    Preparing,
    Restarting,
    Failed(Seq<char>),
}

impl View for UpdatePhase {
    type V = UpdatePhaseModel;

    open spec fn view(&self) -> UpdatePhaseModel {
        match *self {
            UpdatePhase::Idle => UpdatePhaseModel::Idle,
            UpdatePhase::Downloading { got, total } => UpdatePhaseModel::Downloading {
                got: got,
                total: total,
            },
            UpdatePhase::Verifying => UpdatePhaseModel::Verifying,
            UpdatePhase::Preparing => UpdatePhaseModel::Preparing,
            UpdatePhase::Restarting => UpdatePhaseModel::Restarting,
            UpdatePhase::Failed(a) => UpdatePhaseModel::Failed(a@),
        }
    }
}

impl DeepView for UpdatePhase {
    type V = UpdatePhaseModel;

    open spec fn deep_view(&self) -> UpdatePhaseModel {
        self@
    }
}

impl Twin for UpdatePhase {
    fn twin(&self) -> (r: Self) {
        match self {
            UpdatePhase::Idle => UpdatePhase::Idle,
            UpdatePhase::Downloading { got, total } => UpdatePhase::Downloading { got: *got, total: *total },
            UpdatePhase::Verifying => UpdatePhase::Verifying,
            UpdatePhase::Preparing => UpdatePhase::Preparing,
            UpdatePhase::Restarting => UpdatePhase::Restarting,
            UpdatePhase::Failed(a) => UpdatePhase::Failed(a.clone()),
        }
    }
}

/// The update dialog.
#[derive(Debug)]
pub struct UpdateUiState {
    /// The newer release, once a check has found one.
    pub info: Option<UpdateInfo>,
    pub phase: UpdatePhase,
    /// A download is in flight and can be called off.
    pub running: bool,
    /// The pending check came from the Help menu: report every outcome.
    pub manual: bool,
}

/// The model of [`UpdateUiState`].
#[verifier::ext_equal]
pub struct UpdateUiStateModel {
    pub info: Option<UpdateInfoModel>,
    pub phase: UpdatePhaseModel,
    pub running: bool,
    pub manual: bool,
}

impl View for UpdateUiState {
    type V = UpdateUiStateModel;

    open spec fn view(&self) -> UpdateUiStateModel {
        UpdateUiStateModel {
            info: self.info.deep_view(),
            phase: self.phase@,
            running: self.running,
            manual: self.manual,
        }
    }
}

impl DeepView for UpdateUiState {
    type V = UpdateUiStateModel;

    open spec fn deep_view(&self) -> UpdateUiStateModel {
        self@
    }
}

impl Twin for UpdateUiState {
    fn twin(&self) -> (r: Self) {
        UpdateUiState {
            info: self.info.twin(),
            phase: self.phase.twin(),
            running: self.running,
            manual: self.manual,
        }
    }
}

impl UpdateUiStateModel {
    pub open spec fn empty() -> UpdateUiStateModel {
        UpdateUiStateModel {
            info: None,
            phase: UpdatePhaseModel::Idle,
            running: false,
            manual: false,
        }
    }
}

impl Default for UpdateUiState {
    fn default() -> (r: Self)
        ensures
            r@ == UpdateUiStateModel::empty(),
    {
        let r = UpdateUiState {
            info: None,
            phase: UpdatePhase::Idle,
            running: false,
            manual: false,
        };
        assert(r@ =~= UpdateUiStateModel::empty());
        r
    }
}

/// A page of the scheduler.
#[derive(Clone, Copy, PartialEq, Eq, Structural, Debug)]
pub enum SchTab {
    Schedule,
    Files,
}

impl Default for SchTab {
    fn default() -> (r: Self)
        ensures
            r == SchTab::Schedule,
    {
        SchTab::Schedule
    }
}

/// The scheduler dialog.
#[derive(Debug)]
pub struct SchState {
    pub queue: String,
    pub tab: SchTab,
    pub sel_file: Option<DlId>,
    /// Item being dragged to a new position.
    pub drag: Option<DlId>,
    /// Draft of the selected queue's name.
    pub rename_draft: String,
    pub renaming: bool,
}

/// The model of [`SchState`].
#[verifier::ext_equal]
pub struct SchStateModel {
    pub queue: Seq<char>,
    pub tab: SchTab,
    pub sel_file: Option<DlId>,
    pub drag: Option<DlId>,
    pub rename_draft: Seq<char>,
    pub renaming: bool,
}

impl View for SchState {
    type V = SchStateModel;

    open spec fn view(&self) -> SchStateModel {
        SchStateModel {
            queue: self.queue@,
            tab: self.tab,
            sel_file: self.sel_file,
            drag: self.drag,
            rename_draft: self.rename_draft@,
            renaming: self.renaming,
        }
    }
}

impl DeepView for SchState {
    type V = SchStateModel;

    open spec fn deep_view(&self) -> SchStateModel {
        self@
    }
}

impl Twin for SchState {
    fn twin(&self) -> (r: Self) {
        SchState {
            queue: self.queue.clone(),
            tab: self.tab,
            sel_file: self.sel_file,
            drag: self.drag,
            rename_draft: self.rename_draft.clone(),
            renaming: self.renaming,
        }
    }
}

impl SchStateModel {
    pub open spec fn empty() -> SchStateModel {
        SchStateModel {
            queue: seq![],
            tab: SchTab::Schedule,
            sel_file: None,
            drag: None,
            rename_draft: seq![],
            renaming: false,
        }
    }
}

impl Default for SchState {
    fn default() -> (r: Self)
        ensures
            r@ == SchStateModel::empty(),
    {
        let r = SchState {
            queue: String::new(),
            tab: SchTab::Schedule,
            sel_file: None,
            drag: None,
            rename_draft: String::new(),
            renaming: false,
        };
        assert(r@ =~= SchStateModel::empty());
        r
    }
}

/// A sortable column of the batch table.
#[derive(Clone, Copy, PartialEq, Eq, Structural, Debug)]
pub enum BatchSortKey {
    Name,
    Kind,
    Size,
    Source,
    Dest,
}

/// The rendition a batch asks for, as a preference: each manifest has its
/// own ladder and may not offer this height.
#[derive(Clone, Copy, PartialEq, Eq, Structural, Debug)]
pub enum BatchQuality {
    Best,
    P1080,
    P720,
    P480,
    P360,
}

impl Default for BatchQuality {
    fn default() -> (r: Self)
        ensures
            r == BatchQuality::Best,
    {
        BatchQuality::Best
    }
}

/// The batch dialog.
#[derive(Debug)]
pub struct BatchState {
    /// What was pasted.
    pub text: String,
    pub checks: Vec<(String, bool)>,
    /// Probed sizes, by address.
    pub sizes: Vec<(String, u64)>,
    /// Resolved names, by address.
    pub names: Vec<(String, String)>,
    pub parsed: bool,
    pub to_category: bool,
    pub category: String,
    pub to_dir: bool,
    pub dir: String,
    /// Which rendition to take for any manifest in the list.
    pub stream_quality: BatchQuality,
    pub stream_container: String,
    /// Mirror lists among the pasted links, by address.
    pub metalinks: Vec<(String, MetalinkProbe)>,
    /// Column the table is ordered by and whether ascending; none keeps the
    /// pasted order.
    pub sort: Option<(BatchSortKey, bool)>,
    pub hide_html: bool,
    pub hide_dups: bool,
}

/// The model of [`BatchState`].
#[verifier::ext_equal]
pub struct BatchStateModel {
    pub text: Seq<char>,
    pub checks: Seq<(Seq<char>, bool)>,
    pub sizes: Map<Seq<char>, u64>,
    pub names: Map<Seq<char>, Seq<char>>,
    pub parsed: bool,
    pub to_category: bool,
    pub category: Seq<char>,
    pub to_dir: bool,
    pub dir: Seq<char>,
    pub stream_quality: BatchQuality,
    pub stream_container: Seq<char>,
    pub metalinks: Map<Seq<char>, MetalinkProbeModel>,
    pub sort: Option<(BatchSortKey, bool)>,
    pub hide_html: bool,
    pub hide_dups: bool,
}

impl View for BatchState {
    type V = BatchStateModel;

    open spec fn view(&self) -> BatchStateModel {
        BatchStateModel {
            text: self.text@,
            checks: self.checks.deep_view(),
            sizes: assoc(self.sizes.deep_view()),
            names: assoc(self.names.deep_view()),
            parsed: self.parsed,
            to_category: self.to_category,
            category: self.category@,
            to_dir: self.to_dir,
            dir: self.dir@,
            stream_quality: self.stream_quality,
            stream_container: self.stream_container@,
            metalinks: assoc(self.metalinks.deep_view()),
            sort: self.sort,
            hide_html: self.hide_html,
            hide_dups: self.hide_dups,
        }
    }
}

impl DeepView for BatchState {
    type V = BatchStateModel;

    open spec fn deep_view(&self) -> BatchStateModel {
        self@
    }
}

impl BatchStateModel {
    pub open spec fn empty() -> BatchStateModel {
        BatchStateModel {
            text: seq![],
            checks: seq![],
            sizes: Map::empty(),
            names: Map::empty(),
            parsed: false,
            to_category: false,
            category: seq![],
            to_dir: false,
            dir: seq![],
            stream_quality: BatchQuality::Best,
            stream_container: seq![],
            metalinks: Map::empty(),
            sort: None,
            hide_html: false,
            hide_dups: true,
        }
    }
}

impl Default for BatchState {
    fn default() -> (r: Self)
        ensures
            r@ == BatchStateModel::empty(),
    {
        let r = BatchState {
            text: String::new(),
            checks: Vec::new(),
            sizes: Vec::new(),
            names: Vec::new(),
            parsed: false,
            to_category: false,
            category: String::new(),
            to_dir: false,
            dir: String::new(),
            stream_quality: BatchQuality::Best,
            stream_container: String::new(),
            metalinks: Vec::new(),
            sort: None,
            hide_html: false,
            hide_dups: true,
        };
        assert(r@ =~= BatchStateModel::empty());
        r
    }
}

/// A question that the confirmation dialog asks.
#[derive(Debug)]
pub enum ConfirmKind {
    DeleteItems(Vec<u64>),
    DeleteCompleted,
    NoneChecked,
    /// The address is already in the list, or its file already on disk.
    Duplicate { existing: Option<DlId>, file: Option<String> },
    /// The download folder could not be written into.
    PermissionWarn { dir: String },
    UpToDate,
    UpdateCheckFailed(String),
    /// The stop only happens once the user confirms.
    StopWarn { ids: Vec<u64>, stop_queues: bool },
}

/// The model of [`ConfirmKind`].
#[verifier::ext_equal]
pub enum ConfirmKindModel {
    DeleteItems(Seq<u64>),
    DeleteCompleted,
    NoneChecked,
    Duplicate { existing: Option<DlId>, file: Option<Seq<char>> },
    PermissionWarn { dir: Seq<char> },
    UpToDate,
    UpdateCheckFailed(Seq<char>),
    StopWarn { ids: Seq<u64>, stop_queues: bool },
}

impl View for ConfirmKind {
    type V = ConfirmKindModel;

    open spec fn view(&self) -> ConfirmKindModel {
        match *self {
            ConfirmKind::DeleteItems(a) => ConfirmKindModel::DeleteItems(a@),
            ConfirmKind::DeleteCompleted => ConfirmKindModel::DeleteCompleted,
            ConfirmKind::NoneChecked => ConfirmKindModel::NoneChecked,
            ConfirmKind::Duplicate { existing, file } => ConfirmKindModel::Duplicate {
                existing: existing,
                file: file.deep_view(),
            },
            ConfirmKind::PermissionWarn { dir } => ConfirmKindModel::PermissionWarn { dir: dir@ },
            ConfirmKind::UpToDate => ConfirmKindModel::UpToDate,
            ConfirmKind::UpdateCheckFailed(a) => ConfirmKindModel::UpdateCheckFailed(a@),
            ConfirmKind::StopWarn { ids, stop_queues } => ConfirmKindModel::StopWarn {
                ids: ids@,
                stop_queues: stop_queues,
            },
        }
    }
}

impl DeepView for ConfirmKind {
    type V = ConfirmKindModel;

    open spec fn deep_view(&self) -> ConfirmKindModel {
        self@
    }
}

impl Twin for ConfirmKind {
    fn twin(&self) -> (r: Self) {
        match self {
            ConfirmKind::DeleteItems(a) => ConfirmKind::DeleteItems(copy_ids(a)),
            ConfirmKind::DeleteCompleted => ConfirmKind::DeleteCompleted,
            ConfirmKind::NoneChecked => ConfirmKind::NoneChecked,
            ConfirmKind::Duplicate { existing, file } => ConfirmKind::Duplicate {
                existing: *existing,
                file: file.twin(),
            },
            ConfirmKind::PermissionWarn { dir } => ConfirmKind::PermissionWarn { dir: dir.clone() },
            ConfirmKind::UpToDate => ConfirmKind::UpToDate,
            ConfirmKind::UpdateCheckFailed(a) => ConfirmKind::UpdateCheckFailed(a.clone()),
            ConfirmKind::StopWarn { ids, stop_queues } => ConfirmKind::StopWarn {
                ids: copy_ids(ids),
                stop_queues: *stop_queues,
            },
        }
    }
}

/// The pending "when done" power action.
#[derive(Clone, Copy, PartialEq, Eq, Structural, Debug)]
pub struct PowerPrompt {
    pub action: PowerAction,
    /// Seconds left. Counts down to zero, then the action runs.
    pub secs: u8,
    /// Quit when the countdown ends even if the action leaves the session up.
    pub exit_after: bool,
}

/// How long the cancel window lasts.
pub const POWER_COUNTDOWN_SECS: u8 = 10;

// ---------------------------------------------------------------- file info

impl FileInfoStateModel {
    /// Folder and file name as one path.
    pub open spec fn save_as(self) -> Seq<char> {
        if self.save_dir.len() == 0 {
            self.file_name
        } else {
            path_in(self.save_dir, self.file_name)
        }
    }

    /// The dialog after the path was edited: only the part that changed counts
    /// as edited by the user.
    pub open spec fn set_save_as(self, path: Seq<char>) -> FileInfoStateModel {
        let (dir, name) = save_as_parts(path);
        FileInfoStateModel {
            save_dir: dir,
            dir_touched: self.dir_touched || dir != self.save_dir,
            file_name: name,
            name_touched: self.name_touched || name != self.file_name,
            ..self
        }
    }
}

impl FileInfoState {
    /// The Save As box shows folder and file name as one path.
    pub fn save_as(&self) -> (r: String)
        ensures
            r@ == self@.save_as(),
    {
        if self.save_dir.as_str().is_empty() {
            self.file_name.clone()
        } else {
            join_path(&self.save_dir, &self.file_name)
        }
    }

    /// Split an edited Save As path back into folder and file name, marking
    /// only the part that actually changed as edited, so that the background
    /// probe keeps filling the other one.
    pub fn set_save_as(&mut self, path: &str)
        ensures
            final(self)@ == old(self)@.set_save_as(path@),
    {
        let (dir, name) = split_save_as(path);
        if !same(&dir, &self.save_dir) {
            self.save_dir = dir;
            self.dir_touched = true;
        }
        if !same(&name, &self.file_name) {
            self.file_name = name;
            self.name_touched = true;
        }
    }
}

// ----------------------------------------------------------------- progress

/// The progress dialog as it opens for a download with the given cap.
pub open spec fn prog_seed(speed_limit: Option<u64>) -> ProgStateModel {
    ProgStateModel {
        tab: ProgTab::Status,
        details: true,
        limit_on: speed_limit is Some,
        limit_kb: decimal(
            (match speed_limit {
                Some(l) => l as nat,
                None => 10240,
            }) / 1024,
        ),
        remember_limit: speed_limit is Some,
    }
}

/// Progress-dialog state seeded from the item's live cap, so that the Speed
/// Limiter page tells the truth about a persisted limit.
pub fn prog_state_seed(speed_limit: Option<u64>) -> (r: ProgState)
    ensures
        r@ == prog_seed(speed_limit),
{
    let limit: u64 = match speed_limit {
        Some(l) => l,
        None => 10240,
    };
    ProgState {
        tab: ProgTab::Status,
        details: true,
        limit_on: speed_limit.is_some(),
        limit_kb: number(limit / 1024),
        remember_limit: speed_limit.is_some(),
    }
}

// --------------------------------------------------------------------- scan

impl ScanStateModel {
    /// The log with one more line, which replaces the last one where both were
    /// drawn over the same terminal row.
    pub open spec fn push(self, text: Seq<char>, redraw: bool) -> ScanStateModel {
        ScanStateModel {
            log: if self.log.len() > 0 && redraw && self.redraw_tail {
                self.log.update(self.log.len() - 1, text)
            } else {
                self.log.push(text)
            },
            redraw_tail: redraw,
            ..self
        }
    }

    pub open spec fn running(self) -> bool {
        self.outcome is None
    }
}

impl ScanState {
    /// Append one console line, or overwrite the previous one when both it and
    /// this one were drawn over the same terminal row.
    pub fn push(&mut self, text: String, redraw: bool)
        ensures
            final(self)@ == old(self)@.push(text@, redraw),
    {
        let ghost before = self.log.deep_view();
        let n = self.log.len();
        if n > 0 && redraw && self.redraw_tail {
            self.log.set(n - 1, text);
            assert(self.log.deep_view() =~= before.update(n - 1, text@));
        } else {
            self.log.push(text);
            assert(self.log.deep_view() =~= before.push(text@));
        }
        self.redraw_tail = redraw;
    }

    pub fn running(&self) -> (r: bool)
        ensures
            r == self@.running(),
    {
        self.outcome.is_none()
    }
}

// -------------------------------------------------------------------- batch

impl BatchQuality {
    pub open spec fn lines(self) -> Option<u32> {
        match self {
            BatchQuality::Best => None,
            BatchQuality::P1080 => Some(1080),
            BatchQuality::P720 => Some(720),
            BatchQuality::P480 => Some(480),
            BatchQuality::P360 => Some(360),
        }
    }

    pub fn height(self) -> (r: Option<u32>)
        ensures
            r == self.lines(),
    {
        match self {
            BatchQuality::Best => None,
            BatchQuality::P1080 => Some(1080),
            BatchQuality::P720 => Some(720),
            BatchQuality::P480 => Some(480),
            BatchQuality::P360 => Some(360),
        }
    }

    /// The choice as the dialog spells it.
    pub fn label(self, lang: &crate::i18n::Catalogue) -> (r: String)
        ensures
            r@ == (match self {
                BatchQuality::Best => crate::i18n::translated(lang@, "Best quality"@),
                BatchQuality::P1080 => "1080p"@,
                BatchQuality::P720 => "720p"@,
                BatchQuality::P480 => "480p"@,
                BatchQuality::P360 => "360p"@,
            }),
    {
        match self {
            BatchQuality::Best => lang.tr("Best quality"),
            BatchQuality::P1080 => "1080p".to_owned(),
            BatchQuality::P720 => "720p".to_owned(),
            BatchQuality::P480 => "480p".to_owned(),
            BatchQuality::P360 => "360p".to_owned(),
        }
    }
}

} // verus!
