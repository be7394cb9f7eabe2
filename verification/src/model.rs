//! What the program keeps: downloads, queues, categories and settings.
use crate::ext_info::opt_text;
use crate::names::{join_path, path_in};
use crate::rules::{listed_type, type_listed};
use crate::spans::Span;
use crate::text::{cat, rsplit_once, same, split_last};
use crate::twin::{copy_spans, Twin};
use vstd::prelude::*;

verus! {

/// A download's number, given once and never reused.
pub type DlId = u64;

/// How far a download has come.
#[derive(Clone, Copy, PartialEq, Eq, Structural, Debug)]
pub enum DlState {
    Paused,
    /// The request is out; no byte has arrived.
    Connecting,
    Receiving,
    Complete,
    Error,
    /// Waiting for its queue to start it.
    Queued,
}

impl DlState {
    pub open spec fn active(self) -> bool {
        self == DlState::Connecting || self == DlState::Receiving
    }

    /// Whether bytes are on their way.
    pub fn is_active(self) -> (r: bool)
        ensures
            r == self.active(),
    {
        match self {
            DlState::Connecting => true,
            DlState::Receiving => true,
            _ => false,
        }
    }
}

/// What to do with the machine once everything is done.
#[derive(Clone, Copy, PartialEq, Eq, Structural, Debug)]
pub enum PowerAction {
    Shutdown,
    LogOff,
    Sleep,
}

impl Default for PowerAction {
    fn default() -> (r: Self)
        ensures
            r == PowerAction::Shutdown,
    {
        PowerAction::Shutdown
    }
}

impl PowerAction {
    pub open spec fn ends(self) -> bool {
        self != PowerAction::Sleep
    }

    /// Shutting down and logging off end this process; sleeping does not.
    pub fn ends_session(self) -> (r: bool)
        ensures
            r == self.ends(),
    {
        match self {
            PowerAction::Sleep => false,
            _ => true,
        }
    }
}

/// The View > Theme choice.
#[derive(Clone, Copy, PartialEq, Eq, Structural, Debug)]
pub enum ThemeMode {
    System,
    Light,
    Dark,
}

impl Default for ThemeMode {
    fn default() -> (r: Self)
        ensures
            r == ThemeMode::System,
    {
        ThemeMode::System
    }
}

/// How connections leave the machine.
#[derive(Clone, Copy, PartialEq, Eq, Structural, Debug)]
pub enum ProxyMode {
    Direct,
    System,
    Script,
    Manual,
}

impl Default for ProxyMode {
    fn default() -> (r: Self)
        ensures
            r == ProxyMode::Direct,
    {
        ProxyMode::Direct
    }
}

/// What a stream download asks of its manifest.
#[derive(Debug)]
pub struct StreamInfo {
    /// `hls` or `dash`.
    pub protocol: String,
    pub variant_url: Option<String>,
    pub height: Option<u32>,
    pub bandwidth: Option<u64>,
    /// `MP4` or `TS`.
    pub container: String,
    pub referer: Option<String>,
    pub user_agent: Option<String>,
    pub live: bool,
    /// How long to record a live stream; none means until stopped.
    pub max_seconds: Option<u64>,
}

/// The model of [`StreamInfo`].
#[verifier::ext_equal]
pub struct StreamInfoModel {
    pub protocol: Seq<char>,
    pub variant_url: Option<Seq<char>>,
    pub height: Option<u32>,
    pub bandwidth: Option<u64>,
    pub container: Seq<char>,
    pub referer: Option<Seq<char>>,
    pub user_agent: Option<Seq<char>>,
    pub live: bool,
    pub max_seconds: Option<u64>,
}

impl View for StreamInfo {
    type V = StreamInfoModel;

    open spec fn view(&self) -> StreamInfoModel {
        StreamInfoModel {
            protocol: self.protocol@,
            variant_url: self.variant_url.deep_view(),
            height: self.height,
            bandwidth: self.bandwidth,
            container: self.container@,
            referer: self.referer.deep_view(),
            user_agent: self.user_agent.deep_view(),
            live: self.live,
            max_seconds: self.max_seconds,
        }
    }
}

impl DeepView for StreamInfo {
    type V = StreamInfoModel;

    open spec fn deep_view(&self) -> StreamInfoModel {
        self@
    }
}

impl Twin for StreamInfo {
    fn twin(&self) -> (r: Self) {
        StreamInfo {
            protocol: self.protocol.clone(),
            variant_url: self.variant_url.twin(),
            height: self.height,
            bandwidth: self.bandwidth,
            container: self.container.clone(),
            referer: self.referer.twin(),
            user_agent: self.user_agent.twin(),
            live: self.live,
            max_seconds: self.max_seconds,
        }
    }
}

/// The hashes of the equal-sized pieces of a file.
#[derive(Debug)]
pub struct Pieces {
    pub length: u64,
    pub hashes: Vec<String>,
}

/// The model of [`Pieces`].
#[verifier::ext_equal]
pub struct PiecesModel {
    pub length: u64,
    pub hashes: Seq<Seq<char>>,
}

impl View for Pieces {
    type V = PiecesModel;

    open spec fn view(&self) -> PiecesModel {
        PiecesModel {
            length: self.length,
            hashes: self.hashes.deep_view(),
        }
    }
}

impl DeepView for Pieces {
    type V = PiecesModel;

    open spec fn deep_view(&self) -> PiecesModel {
        self@
    }
}

impl Twin for Pieces {
    fn twin(&self) -> (r: Self) {
        Pieces {
            length: self.length,
            hashes: self.hashes.twin(),
        }
    }
}

/// What a mirror list attests of one file.
#[derive(Debug)]
pub struct MetalinkInfo {
    pub size: Option<u64>,
    pub mirrors: Vec<String>,
    pub digest: Option<String>,
    pub pieces: Option<Pieces>,
    pub signed: bool,
}

/// The model of [`MetalinkInfo`].
#[verifier::ext_equal]
pub struct MetalinkInfoModel {
    pub size: Option<u64>,
    pub mirrors: Seq<Seq<char>>,
    pub digest: Option<Seq<char>>,
    pub pieces: Option<PiecesModel>,
    pub signed: bool,
}

impl View for MetalinkInfo {
    type V = MetalinkInfoModel;

    open spec fn view(&self) -> MetalinkInfoModel {
        MetalinkInfoModel {
            size: self.size,
            mirrors: self.mirrors.deep_view(),
            digest: self.digest.deep_view(),
            pieces: self.pieces.deep_view(),
            signed: self.signed,
        }
    }
}

impl DeepView for MetalinkInfo {
    type V = MetalinkInfoModel;

    open spec fn deep_view(&self) -> MetalinkInfoModel {
        self@
    }
}

impl Twin for MetalinkInfo {
    fn twin(&self) -> (r: Self) {
        MetalinkInfo {
            size: self.size,
            mirrors: self.mirrors.twin(),
            digest: self.digest.twin(),
            pieces: self.pieces.twin(),
            signed: self.signed,
        }
    }
}

/// One connection of a running transfer.
#[derive(Debug)]
pub struct ConnRow {
    pub downloaded: u64,
    pub info: String,
}

/// The model of [`ConnRow`].
#[verifier::ext_equal]
pub struct ConnRowModel {
    pub downloaded: u64,
    pub info: Seq<char>,
}

impl View for ConnRow {
    type V = ConnRowModel;

    open spec fn view(&self) -> ConnRowModel {
        ConnRowModel {
            downloaded: self.downloaded,
            info: self.info@,
        }
    }
}

impl DeepView for ConnRow {
    type V = ConnRowModel;

    open spec fn deep_view(&self) -> ConnRowModel {
        self@
    }
}

impl Twin for ConnRow {
    fn twin(&self) -> (r: Self) {
        ConnRow {
            downloaded: self.downloaded,
            info: self.info.clone(),
        }
    }
}

/// One row of the download list.
#[derive(Debug)]
pub struct DownloadItem {
    pub id: DlId,
    pub url: String,
    pub file_name: String,
    pub save_dir: String,
    pub category: Option<String>,
    pub description: String,
    pub size: Option<u64>,
    pub downloaded: u64,
    pub state: DlState,
    pub error: Option<String>,
    /// Whether the server takes ranges, once known.
    pub resume: Option<bool>,
    pub added: i64,
    pub last_try: Option<i64>,
    pub queue: Option<String>,
    pub q_order: u32,
    pub auth: Option<(String, String)>,
    pub cookies: Option<String>,
    pub referer: Option<String>,
    /// Bytes per second.
    pub speed_limit: Option<u64>,
    /// Parked by the download limit, not by hand.
    pub limit_paused: bool,
    /// The byte ranges on disk.
    pub held: Vec<(u64, u64)>,
    /// Where the bytes are staged, once a transfer has begun.
    pub part_path: Option<String>,
    /// The transfer rate: the bits of a floating-point number that is not
    /// negative, which sort as the numbers do.
    pub rate_bits: u64,
    pub retries: u32,
    pub eta_secs: Option<u64>,
    /// Seconds recorded of a live stream, as the bits of a floating-point number.
    pub recorded_bits: Option<u64>,
    pub conns: Vec<ConnRow>,
    pub status_line: String,
    pub shutdown_after: bool,
    pub shutdown_action: PowerAction,
    pub stream: Option<StreamInfo>,
    pub metalink: Option<MetalinkInfo>,
    /// The name is the user's; a probe may not replace it.
    pub name_locked: bool,
}

/// The model of [`DownloadItem`].
#[verifier::ext_equal]
pub struct DownloadItemModel {
    pub id: DlId,
    pub url: Seq<char>,
    pub file_name: Seq<char>,
    pub save_dir: Seq<char>,
    pub category: Option<Seq<char>>,
    pub description: Seq<char>,
    pub size: Option<u64>,
    pub downloaded: u64,
    pub state: DlState,
    pub error: Option<Seq<char>>,
    pub resume: Option<bool>,
    pub added: i64,
    pub last_try: Option<i64>,
    pub queue: Option<Seq<char>>,
    pub q_order: u32,
    pub auth: Option<(Seq<char>, Seq<char>)>,
    pub cookies: Option<Seq<char>>,
    pub referer: Option<Seq<char>>,
    pub speed_limit: Option<u64>,
    pub limit_paused: bool,
    pub held: Seq<Span>,
    pub part_path: Option<Seq<char>>,
    pub rate_bits: u64,
    pub retries: u32,
    pub eta_secs: Option<u64>,
    pub recorded_bits: Option<u64>,
    pub conns: Seq<ConnRowModel>,
    pub status_line: Seq<char>,
    pub shutdown_after: bool,
    pub shutdown_action: PowerAction,
    pub stream: Option<StreamInfoModel>,
    pub metalink: Option<MetalinkInfoModel>,
    pub name_locked: bool,
}

impl View for DownloadItem {
    type V = DownloadItemModel;

    open spec fn view(&self) -> DownloadItemModel {
        DownloadItemModel {
            id: self.id,
            url: self.url@,
            file_name: self.file_name@,
            save_dir: self.save_dir@,
            category: self.category.deep_view(),
            description: self.description@,
            size: self.size,
            downloaded: self.downloaded,
            state: self.state,
            error: self.error.deep_view(),
            resume: self.resume,
            added: self.added,
            last_try: self.last_try,
            queue: self.queue.deep_view(),
            q_order: self.q_order,
            auth: self.auth.deep_view(),
            cookies: self.cookies.deep_view(),
            referer: self.referer.deep_view(),
            speed_limit: self.speed_limit,
            limit_paused: self.limit_paused,
            held: self.held@,
            part_path: self.part_path.deep_view(),
            rate_bits: self.rate_bits,
            retries: self.retries,
            eta_secs: self.eta_secs,
            recorded_bits: self.recorded_bits,
            conns: self.conns.deep_view(),
            status_line: self.status_line@,
            shutdown_after: self.shutdown_after,
            shutdown_action: self.shutdown_action,
            stream: self.stream.deep_view(),
            metalink: self.metalink.deep_view(),
            name_locked: self.name_locked,
        }
    }
}

impl DeepView for DownloadItem {
    type V = DownloadItemModel;

    open spec fn deep_view(&self) -> DownloadItemModel {
        self@
    }
}

impl Twin for DownloadItem {
    fn twin(&self) -> (r: Self) {
        DownloadItem {
            id: self.id,
            url: self.url.clone(),
            file_name: self.file_name.clone(),
            save_dir: self.save_dir.clone(),
            category: self.category.twin(),
            description: self.description.clone(),
            size: self.size,
            downloaded: self.downloaded,
            state: self.state,
            error: self.error.twin(),
            resume: self.resume,
            added: self.added,
            last_try: self.last_try,
            queue: self.queue.twin(),
            q_order: self.q_order,
            auth: self.auth.twin(),
            cookies: self.cookies.twin(),
            referer: self.referer.twin(),
            speed_limit: self.speed_limit,
            limit_paused: self.limit_paused,
            held: copy_spans(&self.held),
            part_path: self.part_path.twin(),
            rate_bits: self.rate_bits,
            retries: self.retries,
            eta_secs: self.eta_secs,
            recorded_bits: self.recorded_bits,
            conns: self.conns.twin(),
            status_line: self.status_line.clone(),
            shutdown_after: self.shutdown_after,
            shutdown_action: self.shutdown_action,
            stream: self.stream.twin(),
            metalink: self.metalink.twin(),
            name_locked: self.name_locked,
        }
    }
}

impl DownloadItemModel {
    /// Where the finished file goes.
    pub open spec fn full_path(self) -> Seq<char> {
        path_in(self.save_dir, self.file_name)
    }

    /// Where the bytes are staged.
    pub open spec fn part_file(self) -> Seq<char> {
        match self.part_path {
            Some(p) => p,
            None => self.full_path() + ".part"@,
        }
    }

    pub open spec fn in_queue(self, name: Seq<char>) -> bool {
        self.queue == Some(name)
    }

    /// Whether a probe may still name this file.
    pub open spec fn nameable(self) -> bool {
        !self.name_locked && self.downloaded == 0 && self.held.len() == 0
    }
}

impl DownloadItem {
    pub fn full_path(&self) -> (r: String)
        ensures
            r@ == self@.full_path(),
    {
        join_path(&self.save_dir, &self.file_name)
    }

    pub fn part_file(&self) -> (r: String)
        ensures
            r@ == self@.part_file(),
    {
        match &self.part_path {
            Some(p) => p.clone(),
            None => cat(&self.full_path(), ".part"),
        }
    }

    /// Whether the download is filed under the queue called `name`.
    pub fn is_in_queue(&self, name: &str) -> (r: bool)
        ensures
            r == self@.in_queue(name@),
    {
        match &self.queue {
            Some(q) => same(q, name),
            None => false,
        }
    }
}

/// When a queue runs, and what happens once it is done.
#[derive(Debug)]
pub struct Schedule {
    pub start_enabled: bool,
    /// Wall-clock minute, `HH:MM`.
    pub start_at: String,
    /// Fire once rather than on the ticked days.
    pub once: bool,
    /// Sunday first.
    pub days: [bool; 7],
    pub stop_enabled: bool,
    pub stop_at: String,
    pub retries_enabled: bool,
    pub retries: u32,
    pub open_file_enabled: bool,
    pub open_file: String,
    pub exit_when_done: bool,
    pub shutdown_when_done: bool,
    pub shutdown_action: PowerAction,
    pub periodic: bool,
    pub start_on_startup: bool,
}

/// The model of [`Schedule`].
#[verifier::ext_equal]
pub struct ScheduleModel {
    pub start_enabled: bool,
    pub start_at: Seq<char>,
    pub once: bool,
    pub days: Seq<bool>,
    pub stop_enabled: bool,
    pub stop_at: Seq<char>,
    pub retries_enabled: bool,
    pub retries: u32,
    pub open_file_enabled: bool,
    pub open_file: Seq<char>,
    pub exit_when_done: bool,
    pub shutdown_when_done: bool,
    pub shutdown_action: PowerAction,
    pub periodic: bool,
    pub start_on_startup: bool,
}

impl View for Schedule {
    type V = ScheduleModel;

    open spec fn view(&self) -> ScheduleModel {
        ScheduleModel {
            start_enabled: self.start_enabled,
            start_at: self.start_at@,
            once: self.once,
            days: self.days@,
            stop_enabled: self.stop_enabled,
            stop_at: self.stop_at@,
            retries_enabled: self.retries_enabled,
            retries: self.retries,
            open_file_enabled: self.open_file_enabled,
            open_file: self.open_file@,
            exit_when_done: self.exit_when_done,
            shutdown_when_done: self.shutdown_when_done,
            shutdown_action: self.shutdown_action,
            periodic: self.periodic,
            start_on_startup: self.start_on_startup,
        }
    }
}

impl DeepView for Schedule {
    type V = ScheduleModel;

    open spec fn deep_view(&self) -> ScheduleModel {
        self@
    }
}

impl Twin for Schedule {
    fn twin(&self) -> (r: Self) {
        Schedule {
            start_enabled: self.start_enabled,
            start_at: self.start_at.clone(),
            once: self.once,
            days: self.days,
            stop_enabled: self.stop_enabled,
            stop_at: self.stop_at.clone(),
            retries_enabled: self.retries_enabled,
            retries: self.retries,
            open_file_enabled: self.open_file_enabled,
            open_file: self.open_file.clone(),
            exit_when_done: self.exit_when_done,
            shutdown_when_done: self.shutdown_when_done,
            shutdown_action: self.shutdown_action,
            periodic: self.periodic,
            start_on_startup: self.start_on_startup,
        }
    }
}

impl Default for Schedule {
    fn default() -> (r: Self)
        ensures
            r@ == ScheduleModel::initial(),
    {
        let r = Schedule {
            start_enabled: false,
            start_at: "23:00".to_owned(),
            once: true,
            days: [true, true, true, true, true, true, true],
            stop_enabled: false,
            stop_at: "07:30".to_owned(),
            retries_enabled: false,
            retries: 10,
            open_file_enabled: false,
            open_file: String::new(),
            exit_when_done: false,
            shutdown_when_done: false,
            shutdown_action: PowerAction::Shutdown,
            periodic: false,
            start_on_startup: false,
        };
        assert(r.days@ =~= seq![true, true, true, true, true, true, true]);
        r
    }
}

impl ScheduleModel {
    /// The schedule of a new queue: nothing is armed.
    pub open spec fn initial() -> ScheduleModel {
        ScheduleModel {
            start_enabled: false,
            start_at: "23:00"@,
            once: true,
            days: seq![true, true, true, true, true, true, true],
            stop_enabled: false,
            stop_at: "07:30"@,
            retries_enabled: false,
            retries: 10,
            open_file_enabled: false,
            open_file: seq![],
            exit_when_done: false,
            shutdown_when_done: false,
            shutdown_action: PowerAction::Shutdown,
            periodic: false,
            start_on_startup: false,
        }
    }
}

/// A download queue.
#[derive(Debug)]
pub struct QueueDef {
    pub name: String,
    pub files_at_once: u32,
    pub schedule: Schedule,
    /// Ships with the program: keeps its name and cannot be deleted.
    pub builtin: bool,
    pub color: Option<u32>,
    pub running: bool,
    /// This run has processed something.
    pub did_work: bool,
}

/// The model of [`QueueDef`].
#[verifier::ext_equal]
pub struct QueueDefModel {
    pub name: Seq<char>,
    pub files_at_once: u32,
    pub schedule: ScheduleModel,
    pub builtin: bool,
    pub color: Option<u32>,
    pub running: bool,
    pub did_work: bool,
}

impl View for QueueDef {
    type V = QueueDefModel;

    open spec fn view(&self) -> QueueDefModel {
        QueueDefModel {
            name: self.name@,
            files_at_once: self.files_at_once,
            schedule: self.schedule@,
            builtin: self.builtin,
            color: self.color,
            running: self.running,
            did_work: self.did_work,
        }
    }
}

impl DeepView for QueueDef {
    type V = QueueDefModel;

    open spec fn deep_view(&self) -> QueueDefModel {
        self@
    }
}

impl Twin for QueueDef {
    fn twin(&self) -> (r: Self) {
        QueueDef {
            name: self.name.clone(),
            files_at_once: self.files_at_once,
            schedule: self.schedule.twin(),
            builtin: self.builtin,
            color: self.color,
            running: self.running,
            did_work: self.did_work,
        }
    }
}

/// A category: its folder, and the file types filed under it.
#[derive(Debug)]
pub struct CategoryDef {
    pub name: String,
    pub dir: String,
    pub types: String,
}

/// The model of [`CategoryDef`].
#[verifier::ext_equal]
pub struct CategoryDefModel {
    pub name: Seq<char>,
    pub dir: Seq<char>,
    pub types: Seq<char>,
}

impl View for CategoryDef {
    type V = CategoryDefModel;

    open spec fn view(&self) -> CategoryDefModel {
        CategoryDefModel {
            name: self.name@,
            dir: self.dir@,
            types: self.types@,
        }
    }
}

impl DeepView for CategoryDef {
    type V = CategoryDefModel;

    open spec fn deep_view(&self) -> CategoryDefModel {
        self@
    }
}

impl Twin for CategoryDef {
    fn twin(&self) -> (r: Self) {
        CategoryDef {
            name: self.name.clone(),
            dir: self.dir.clone(),
            types: self.types.clone(),
        }
    }
}

/// Saved credentials for a site.
#[derive(Debug)]
pub struct SiteLogin {
    pub site: String,
    pub user: String,
    pub pass: String,
}

/// The model of [`SiteLogin`].
#[verifier::ext_equal]
pub struct SiteLoginModel {
    pub site: Seq<char>,
    pub user: Seq<char>,
    pub pass: Seq<char>,
}

impl View for SiteLogin {
    type V = SiteLoginModel;

    open spec fn view(&self) -> SiteLoginModel {
        SiteLoginModel {
            site: self.site@,
            user: self.user@,
            pass: self.pass@,
        }
    }
}

impl DeepView for SiteLogin {
    type V = SiteLoginModel;

    open spec fn deep_view(&self) -> SiteLoginModel {
        self@
    }
}

impl Twin for SiteLogin {
    fn twin(&self) -> (r: Self) {
        SiteLogin {
            site: self.site.clone(),
            user: self.user.clone(),
            pass: self.pass.clone(),
        }
    }
}

/// The sound of one event.
#[derive(Debug)]
pub struct SoundRow {
    pub enabled: bool,
    pub file: String,
}

/// The model of [`SoundRow`].
#[verifier::ext_equal]
pub struct SoundRowModel {
    pub enabled: bool,
    pub file: Seq<char>,
}

impl View for SoundRow {
    type V = SoundRowModel;

    open spec fn view(&self) -> SoundRowModel {
        SoundRowModel {
            enabled: self.enabled,
            file: self.file@,
        }
    }
}

impl DeepView for SoundRow {
    type V = SoundRowModel;

    open spec fn deep_view(&self) -> SoundRowModel {
        self@
    }
}

impl Twin for SoundRow {
    fn twin(&self) -> (r: Self) {
        SoundRow {
            enabled: self.enabled,
            file: self.file.clone(),
        }
    }
}

/// The settings that are simply on or off.
#[derive(Clone, Copy, PartialEq, Eq, Structural, Debug)]
pub struct Switches {
    pub launch_on_startup: bool,
    pub check_updates_on_startup: bool,
    pub beta_channel: bool,
    pub start_in_tray: bool,
    pub close_to_tray: bool,
    pub hide_from_taskbar: bool,
    pub power_save: bool,
    pub gpu_render: bool,
    pub monitor_clipboard: bool,
    pub show_exception_dialog: bool,
    pub remember_last_dir: bool,
    pub server_file_date: bool,
    pub no_category_dirs: bool,
    pub show_file_info_dialog: bool,
    pub bg_download: bool,
    pub start_minimized: bool,
    pub show_speed_tab: bool,
    pub show_completion_tab: bool,
    pub show_hide_buttons: bool,
    pub show_complete_dialog: bool,
    pub remove_completed: bool,
    pub adaptive_conns: bool,
    pub warn_before_stop: bool,
    pub proxy_http: bool,
    pub proxy_https: bool,
    pub proxy_ftp: bool,
    pub ftp_pasv: bool,
    pub show_categories: bool,
}

/// What the Options dialog and the View menu set.
#[derive(Debug)]
pub struct Settings {
    /// What is simply on or off.
    pub on: Switches,
    pub capture_browsers: Vec<(String, bool)>,
    pub auto_types: String,
    pub dont_start_sites: String,
    pub user_agent: String,
    pub virus_scanner: String,
    pub virus_args: String,
    pub default_conns: usize,
    pub conn_exceptions: Vec<(String, usize)>,
    pub dl_limit_enabled: bool,
    pub dl_limit_mb: u64,
    pub dl_limit_hours: u64,
    pub proxy_mode: ProxyMode,
    pub proxy_script: String,
    pub proxy_host: String,
    pub proxy_port: String,
    pub proxy_user: String,
    pub proxy_pass: String,
    pub logins: Vec<SiteLogin>,
    pub sounds: Vec<SoundRow>,
    pub speed_limiter_on: bool,
    /// Bytes per second.
    pub global_speed_limit: Option<u64>,
    pub theme_mode: Option<ThemeMode>,
    pub font_size: u16,
}

/// The model of [`Settings`].
#[verifier::ext_equal]
pub struct SettingsModel {
    pub on: Switches,
    pub capture_browsers: Seq<(Seq<char>, bool)>,
    pub auto_types: Seq<char>,
    pub dont_start_sites: Seq<char>,
    pub user_agent: Seq<char>,
    pub virus_scanner: Seq<char>,
    pub virus_args: Seq<char>,
    pub default_conns: usize,
    pub conn_exceptions: Seq<(Seq<char>, usize)>,
    pub dl_limit_enabled: bool,
    pub dl_limit_mb: u64,
    pub dl_limit_hours: u64,
    pub proxy_mode: ProxyMode,
    pub proxy_script: Seq<char>,
    pub proxy_host: Seq<char>,
    pub proxy_port: Seq<char>,
    pub proxy_user: Seq<char>,
    pub proxy_pass: Seq<char>,
    pub logins: Seq<SiteLoginModel>,
    pub sounds: Seq<SoundRowModel>,
    pub speed_limiter_on: bool,
    pub global_speed_limit: Option<u64>,
    pub theme_mode: Option<ThemeMode>,
    pub font_size: u16,
}

impl View for Settings {
    type V = SettingsModel;

    open spec fn view(&self) -> SettingsModel {
        SettingsModel {
            on: self.on,
            capture_browsers: self.capture_browsers.deep_view(),
            auto_types: self.auto_types@,
            dont_start_sites: self.dont_start_sites@,
            user_agent: self.user_agent@,
            virus_scanner: self.virus_scanner@,
            virus_args: self.virus_args@,
            default_conns: self.default_conns,
            conn_exceptions: self.conn_exceptions.deep_view(),
            dl_limit_enabled: self.dl_limit_enabled,
            dl_limit_mb: self.dl_limit_mb,
            dl_limit_hours: self.dl_limit_hours,
            proxy_mode: self.proxy_mode,
            proxy_script: self.proxy_script@,
            proxy_host: self.proxy_host@,
            proxy_port: self.proxy_port@,
            proxy_user: self.proxy_user@,
            proxy_pass: self.proxy_pass@,
            logins: self.logins.deep_view(),
            sounds: self.sounds.deep_view(),
            speed_limiter_on: self.speed_limiter_on,
            global_speed_limit: self.global_speed_limit,
            theme_mode: self.theme_mode,
            font_size: self.font_size,
        }
    }
}

impl DeepView for Settings {
    type V = SettingsModel;

    open spec fn deep_view(&self) -> SettingsModel {
        self@
    }
}

impl Twin for Settings {
    fn twin(&self) -> (r: Self) {
        Settings {
            on: self.on,
            capture_browsers: self.capture_browsers.twin(),
            auto_types: self.auto_types.clone(),
            dont_start_sites: self.dont_start_sites.clone(),
            user_agent: self.user_agent.clone(),
            virus_scanner: self.virus_scanner.clone(),
            virus_args: self.virus_args.clone(),
            default_conns: self.default_conns,
            conn_exceptions: self.conn_exceptions.twin(),
            dl_limit_enabled: self.dl_limit_enabled,
            dl_limit_mb: self.dl_limit_mb,
            dl_limit_hours: self.dl_limit_hours,
            proxy_mode: self.proxy_mode,
            proxy_script: self.proxy_script.clone(),
            proxy_host: self.proxy_host.clone(),
            proxy_port: self.proxy_port.clone(),
            proxy_user: self.proxy_user.clone(),
            proxy_pass: self.proxy_pass.clone(),
            logins: self.logins.twin(),
            sounds: self.sounds.twin(),
            speed_limiter_on: self.speed_limiter_on,
            global_speed_limit: self.global_speed_limit,
            theme_mode: self.theme_mode,
            font_size: self.font_size,
        }
    }
}

impl SettingsModel {
    /// What a first run starts with.
    pub open spec fn initial() -> SettingsModel {
        SettingsModel {
            on: Switches {
                launch_on_startup: true,
                check_updates_on_startup: true,
                beta_channel: false,
                start_in_tray: false,
                close_to_tray: true,
                hide_from_taskbar: false,
                power_save: false,
                gpu_render: false,
                monitor_clipboard: false,
                show_exception_dialog: false,
                remember_last_dir: false,
                server_file_date: false,
                no_category_dirs: false,
                show_file_info_dialog: true,
                bg_download: true,
                start_minimized: false,
                show_speed_tab: true,
                show_completion_tab: true,
                show_hide_buttons: false,
                show_complete_dialog: true,
                remove_completed: false,
                adaptive_conns: false,
                warn_before_stop: false,
                proxy_http: false,
                proxy_https: false,
                proxy_ftp: false,
                ftp_pasv: false,
                show_categories: true,
            },
            capture_browsers: seq![],
            auto_types: seq![],
            dont_start_sites: seq![],
            user_agent: seq![],
            virus_scanner: seq![],
            virus_args: seq![],
            default_conns: 8,
            conn_exceptions: seq![],
            dl_limit_enabled: false,
            dl_limit_mb: 200,
            dl_limit_hours: 5,
            proxy_mode: ProxyMode::Direct,
            proxy_script: seq![],
            proxy_host: seq![],
            proxy_port: seq![],
            proxy_user: seq![],
            proxy_pass: seq![],
            logins: seq![],
            sounds: seq![],
            speed_limiter_on: false,
            global_speed_limit: None,
            theme_mode: None,
            font_size: 13,
        }
    }

    pub open spec fn theme(self) -> ThemeMode {
        match self.theme_mode {
            Some(m) => m,
            None => ThemeMode::System,
        }
    }
}

impl Default for Settings {
    fn default() -> (r: Self)
        ensures
            r@ == SettingsModel::initial(),
    {
        let r = Settings {
            on: Switches {
                launch_on_startup: true,
                check_updates_on_startup: true,
                beta_channel: false,
                start_in_tray: false,
                close_to_tray: true,
                hide_from_taskbar: false,
                power_save: false,
                gpu_render: false,
                monitor_clipboard: false,
                show_exception_dialog: false,
                remember_last_dir: false,
                server_file_date: false,
                no_category_dirs: false,
                show_file_info_dialog: true,
                bg_download: true,
                start_minimized: false,
                show_speed_tab: true,
                show_completion_tab: true,
                show_hide_buttons: false,
                show_complete_dialog: true,
                remove_completed: false,
                adaptive_conns: false,
                warn_before_stop: false,
                proxy_http: false,
                proxy_https: false,
                proxy_ftp: false,
                ftp_pasv: false,
                show_categories: true,
            },
            capture_browsers: Vec::new(),
            auto_types: String::new(),
            dont_start_sites: String::new(),
            user_agent: String::new(),
            virus_scanner: String::new(),
            virus_args: String::new(),
            default_conns: 8,
            conn_exceptions: Vec::new(),
            dl_limit_enabled: false,
            dl_limit_mb: 200,
            dl_limit_hours: 5,
            proxy_mode: ProxyMode::Direct,
            proxy_script: String::new(),
            proxy_host: String::new(),
            proxy_port: String::new(),
            proxy_user: String::new(),
            proxy_pass: String::new(),
            logins: Vec::new(),
            sounds: Vec::new(),
            speed_limiter_on: false,
            global_speed_limit: None,
            theme_mode: None,
            font_size: 13,
        };
        assert(r@ =~= SettingsModel::initial());
        r
    }
}

impl Settings {
    /// The theme in effect; a configuration that never chose one follows the system.
    pub fn theme(&self) -> (r: ThemeMode)
        ensures
            r == self@.theme(),
    {
        match self.theme_mode {
            Some(m) => m,
            None => ThemeMode::System,
        }
    }
}

/// How much of the download limit the current window has used.
#[derive(Clone, Copy, PartialEq, Eq, Structural, Debug)]
pub struct DlQuota {
    pub used: u64,
    /// When the window opened; zero while it has not.
    pub window_start: i64,
}

impl Default for DlQuota {
    fn default() -> (r: Self)
        ensures
            r == (DlQuota { used: 0, window_start: 0 }),
    {
        DlQuota { used: 0, window_start: 0 }
    }
}

/// The configuration as it is stored.
#[derive(Debug)]
pub struct ConfigFile {
    pub settings: Settings,
    pub categories: Vec<CategoryDef>,
    pub queues: Vec<QueueDef>,
    pub language: Option<String>,
    pub log_level: Option<String>,
    /// Action and key combination, in the order of the actions.
    pub shortcuts: Vec<(String, String)>,
}

/// The model of [`ConfigFile`].
#[verifier::ext_equal]
pub struct ConfigFileModel {
    pub settings: SettingsModel,
    pub categories: Seq<CategoryDefModel>,
    pub queues: Seq<QueueDefModel>,
    pub language: Option<Seq<char>>,
    pub log_level: Option<Seq<char>>,
    pub shortcuts: Seq<(Seq<char>, Seq<char>)>,
}

impl View for ConfigFile {
    type V = ConfigFileModel;

    open spec fn view(&self) -> ConfigFileModel {
        ConfigFileModel {
            settings: self.settings@,
            categories: self.categories.deep_view(),
            queues: self.queues.deep_view(),
            language: self.language.deep_view(),
            log_level: self.log_level.deep_view(),
            shortcuts: self.shortcuts.deep_view(),
        }
    }
}

impl DeepView for ConfigFile {
    type V = ConfigFileModel;

    open spec fn deep_view(&self) -> ConfigFileModel {
        self@
    }
}

impl Twin for ConfigFile {
    fn twin(&self) -> (r: Self) {
        ConfigFile {
            settings: self.settings.twin(),
            categories: self.categories.twin(),
            queues: self.queues.twin(),
            language: self.language.twin(),
            log_level: self.log_level.twin(),
            shortcuts: self.shortcuts.twin(),
        }
    }
}

/// The download list as it is stored.
#[derive(Debug)]
pub struct StateFile {
    pub downloads: Vec<DownloadItem>,
    pub next_id: DlId,
    pub dl_quota: DlQuota,
}

/// The model of [`StateFile`].
#[verifier::ext_equal]
pub struct StateFileModel {
    pub downloads: Seq<DownloadItemModel>,
    pub next_id: DlId,
    pub dl_quota: DlQuota,
}

impl View for StateFile {
    type V = StateFileModel;

    open spec fn view(&self) -> StateFileModel {
        StateFileModel {
            downloads: self.downloads.deep_view(),
            next_id: self.next_id,
            dl_quota: self.dl_quota,
        }
    }
}

impl DeepView for StateFile {
    type V = StateFileModel;

    open spec fn deep_view(&self) -> StateFileModel {
        self@
    }
}

impl Twin for StateFile {
    fn twin(&self) -> (r: Self) {
        StateFile {
            downloads: self.downloads.twin(),
            next_id: self.next_id,
            dl_quota: self.dl_quota,
        }
    }
}

// -------------------------------------------------------------- categories

/// The category that a file of the given name belongs to: the first one that
/// lists its type.
pub open spec fn category_for(name: Seq<char>, cats: Seq<CategoryDefModel>) -> Option<Seq<char>>
    decreases cats.len(),
{
    match split_last(name, '.') {
        None => None,
        Some((_, ext)) => if cats.len() == 0 {
            None
        } else if listed_type(ext, cats[0].types) {
            Some(cats[0].name)
        } else {
            category_for(name, cats.drop_first())
        },
    }
}

/// Which category a file belongs to, by its extension.
pub fn categorize(name: &str, cats: &Vec<CategoryDef>) -> (r: Option<String>)
    ensures
        opt_text(r) == category_for(name@, cats.deep_view()),
{
    let ext = match rsplit_once(name, '.') {
        Some((_, e)) => e,
        None => return None,
    };
    let ghost all = cats.deep_view();
    let mut i: usize = 0;
    assert(all.skip(0) =~= all);
    while i < cats.len()
        invariant
            i <= cats@.len(),
            all == cats.deep_view(),
            split_last(name@, '.') is Some,
            (split_last(name@, '.')->0).1 == ext@,
            category_for(name@, all) == category_for(name@, all.skip(i as int)),
        decreases cats.len() - i,
    {
        assert(all.skip(i as int)[0] == cats@[i as int]@);
        if type_listed(&ext, &cats[i].types) {
            return Some(cats[i].name.clone());
        }
        assert(all.skip(i as int).drop_first() =~= all.skip(i + 1));
        i += 1;
    }
    None
}

/// The place of the first category called `name`; the length where there is none.
pub open spec fn category_index(cats: Seq<CategoryDefModel>, name: Seq<char>) -> int
    decreases cats.len(),
{
    if cats.len() == 0 || cats[0].name == name {
        0
    } else {
        1 + category_index(cats.drop_first(), name)
    }
}

proof fn lemma_category_index(cats: Seq<CategoryDefModel>, name: Seq<char>, k: int)
    requires
        0 <= k <= cats.len(),
        forall|i: int| 0 <= i < k ==> (#[trigger] cats[i]).name != name,
        k < cats.len() ==> cats[k].name == name,
    ensures
        category_index(cats, name) == k,
    decreases cats.len(),
{
    if cats.len() > 0 && cats[0].name != name {
        let t = cats.drop_first();
        assert forall|i: int| 0 <= i < k - 1 implies (#[trigger] t[i]).name != name by {
            assert(t[i] == cats[i + 1]);
        }
        lemma_category_index(t, name, k - 1);
    }
}

pub fn find_category(cats: &Vec<CategoryDef>, name: &str) -> (r: Option<usize>)
    ensures
        match r {
            Some(i) => i < cats@.len() && i == category_index(cats.deep_view(), name@),
            None => category_index(cats.deep_view(), name@) == cats@.len(),
        },
{
    let mut i: usize = 0;
    let ghost all = cats.deep_view();
    while i < cats.len()
        invariant
            i <= cats@.len(),
            all == cats.deep_view(),
            forall|k: int| 0 <= k < i ==> (#[trigger] all[k]).name != name@,
        decreases cats.len() - i,
    {
        assert(all[i as int] == cats@[i as int]@);
        if same(&cats[i].name, name) {
            proof {
                lemma_category_index(all, name@, i as int);
            }
            return Some(i);
        }
        i += 1;
    }
    proof {
        lemma_category_index(all, name@, i as int);
    }
    None
}

/// The folder of a category: that of the first one where no category is named
/// or category folders are switched off, and none where the named one is gone.
pub open spec fn category_folder(
    cats: Seq<CategoryDefModel>,
    cat: Option<Seq<char>>,
    no_category_dirs: bool,
) -> Option<Seq<char>> {
    let i = match cat {
        Some(c) if !no_category_dirs => category_index(cats, c),
        _ => 0,
    };
    if i < cats.len() {
        Some(cats[i].dir)
    } else {
        None
    }
}

/// Folder that a download filed under `cat` saves into.
pub fn category_dir(cats: &Vec<CategoryDef>, cat: Option<&str>, no_category_dirs: bool) -> (r: Option<
    String,
>)
    ensures
        opt_text(r) == category_folder(
            cats.deep_view(),
            crate::i18n::opt_str(cat),
            no_category_dirs,
        ),
{
    let i: usize = match cat {
        Some(c) => if no_category_dirs {
            0
        } else {
            match find_category(cats, c) {
                Some(i) => i,
                None => return None,
            }
        },
        None => 0,
    };
    if i < cats.len() {
        assert(cats.deep_view()[i as int] == cats@[i as int]@);
        Some(cats[i].dir.clone())
    } else {
        None
    }
}

/// The categories with another folder for the one called `name`.
pub open spec fn with_category_dir(
    cats: Seq<CategoryDefModel>,
    name: Seq<char>,
    dir: Seq<char>,
) -> Seq<CategoryDefModel> {
    let i = category_index(cats, name);
    if i < cats.len() {
        cats.update(i, CategoryDefModel { dir, ..cats[i] })
    } else {
        cats
    }
}

/// Gives the category called `name` another folder; says whether there is one.
pub fn set_category_dir(cats: &mut Vec<CategoryDef>, name: &str, dir: &str) -> (r: bool)
    ensures
        final(cats).deep_view() == with_category_dir(old(cats).deep_view(), name@, dir@),
        r == (category_index(old(cats).deep_view(), name@) < old(cats)@.len()),
{
    let ghost before = cats.deep_view();
    match find_category(cats, name) {
        Some(i) => {
            cats[i].dir = dir.to_owned();
            assert(cats@[i as int]@ =~= CategoryDefModel { dir: dir@, ..before[i as int] });
            assert(cats.deep_view() =~= with_category_dir(before, name@, dir@));
            true
        },
        None => false,
    }
}

/// The categories of a first run.
pub fn default_categories() -> (r: Vec<CategoryDef>)
    ensures
        r.deep_view() == seq![
            CategoryDefModel { name: "General"@, dir: seq![], types: seq![] },
        ],
{
    let mut r: Vec<CategoryDef> = Vec::new();
    r.push(CategoryDef { name: "General".to_owned(), dir: String::new(), types: String::new() });
    assert(r.deep_view() =~= seq![
        CategoryDefModel { name: "General"@, dir: seq![], types: seq![] },
    ]);
    r
}

// ------------------------------------------------------------------- queues

/// The colours that new queues are given, in turn.
pub open spec fn palette() -> Seq<u32> {
    seq![0x4a90d9u32, 0x5cb85cu32, 0xd9534fu32, 0xf0ad4eu32, 0x9b59b6u32, 0x1abc9cu32, 0xe67e22u32, 0x7f8c8du32]
}

pub open spec fn color_used(queues: Seq<QueueDefModel>, c: u32) -> bool {
    exists|i: int| 0 <= i < queues.len() && (#[trigger] queues[i]).color == Some(c)
}

/// The first colour of the palette from `i` on that no queue wears; the first
/// of all where every one is worn.
pub open spec fn free_color(queues: Seq<QueueDefModel>, i: int) -> u32
    decreases palette().len() - i,
{
    if i < 0 || i >= palette().len() {
        palette()[0]
    } else if !color_used(queues, palette()[i]) {
        palette()[i]
    } else {
        free_color(queues, i + 1)
    }
}

fn is_color_used(queues: &Vec<QueueDef>, c: u32) -> (r: bool)
    ensures
        r == color_used(queues.deep_view(), c),
{
    let ghost all = queues.deep_view();
    let mut i: usize = 0;
    while i < queues.len()
        invariant
            i <= queues@.len(),
            all == queues.deep_view(),
            forall|k: int| 0 <= k < i ==> (#[trigger] all[k]).color != Some(c),
        decreases queues.len() - i,
    {
        assert(all[i as int] == queues@[i as int]@);
        if let Some(x) = queues[i].color {
            if x == c {
                return true;
            }
        }
        i += 1;
    }
    false
}

/// A folder colour for a new queue.
pub fn pick_queue_color(queues: &Vec<QueueDef>) -> (r: u32)
    ensures
        r == free_color(queues.deep_view(), 0),
{
    let colors: [u32; 8] = [
        0x4a90d9,
        0x5cb85c,
        0xd9534f,
        0xf0ad4e,
        0x9b59b6,
        0x1abc9c,
        0xe67e22,
        0x7f8c8d,
    ];
    assert(colors@ =~= palette());
    let mut i: usize = 0;
    while i < 8
        invariant
            i <= 8,
            colors@ == palette(),
            free_color(queues.deep_view(), 0) == free_color(queues.deep_view(), i as int),
        decreases 8 - i,
    {
        if !is_color_used(queues, colors[i]) {
            return colors[i];
        }
        i += 1;
    }
    colors[0]
}

// ------------------------------------------------------------------- status

impl DownloadItemModel {
    /// The Status column: how far a transfer has come while its size is known,
    /// else what the row is doing.
    pub open spec fn status_words(self, t: crate::i18n::Texts) -> Seq<char> {
        match self.state {
            DlState::Complete => crate::i18n::translated(t, "Complete"@),
            DlState::Connecting => crate::i18n::translated(t, "Connecting..."@),
            DlState::Queued => crate::i18n::translated(t, "Queued"@),
            DlState::Error => crate::i18n::translated(t, "Error"@),
            _ => match self.size {
                Some(s) if s > 0 => crate::fmt::percent(self.downloaded as nat, s as nat),
                _ => if self.state == DlState::Paused {
                    crate::i18n::translated(t, "Pause"@)
                } else {
                    crate::i18n::translated(t, "Receiving data..."@)
                },
            },
        }
    }
}

impl DownloadItem {
    /// What the Status column shows.
    pub fn status_text(&self, lang: &crate::i18n::Catalogue) -> (r: String)
        ensures
            r@ == self@.status_words(lang@),
    {
        match self.state {
            DlState::Complete => lang.tr("Complete"),
            DlState::Connecting => lang.tr("Connecting..."),
            DlState::Queued => lang.tr("Queued"),
            DlState::Error => lang.tr("Error"),
            _ => {
                if let Some(s) = self.size {
                    if s > 0 {
                        return crate::fmt::pct(self.downloaded, s);
                    }
                }
                if self.state == DlState::Paused {
                    lang.tr("Pause")
                } else {
                    lang.tr("Receiving data...")
                }
            },
        }
    }
}

} // verus!
