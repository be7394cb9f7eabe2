//! What the program asks of the world outside: windows, the engine, files,
//! the desktop. Deciding produces effects; performing them is someone else's
//! task.
use crate::engine::{Cmd, CmdModel};
use crate::log::Level;
use crate::model::{DlId, PowerAction};
use crate::sounds;
use crate::spans::Span;
use crate::state::{WinId, WinKind};
use crate::update::{UpdateInfo, UpdateInfoModel};
use vstd::prelude::*;

verus! {

/// What a clipboard reading is for.
#[derive(Clone, Copy, PartialEq, Eq, Structural, Debug)]
pub enum ClipboardUse {
    /// The once-a-second watch for links.
    Watch,
    /// Add the link and start it.
    AddStart,
    /// Fill the Add URL dialog.
    Prefill,
    /// Paste into the batch dialog.
    BatchPaste,
}

/// What a probe of a link is for.
#[derive(Clone, Copy, PartialEq, Eq, Structural, Debug)]
pub enum ProbeUse {
    /// The File Info dialog of a download.
    Info(DlId),
    /// A row of the batch dialog.
    Batch,
}

/// What a file or folder picker is for.
#[derive(Debug)]
pub enum Pick {
    Virus,
    CategoryDir,
    Sound(usize),
    SaveAs { name: String, dir: String },
    BatchDir,
    BatchFile,
    /// A folder that may be written into, for a transfer that was refused its own.
    Grant { id: DlId, start_dir: Option<String>, error: String, done: u64, held: Vec<(u64, u64)> },
}

/// The model of [`Pick`].
#[verifier::ext_equal]
pub enum PickModel {
    Virus,
    CategoryDir,
    Sound(usize),
    SaveAs { name: Seq<char>, dir: Seq<char> },
    BatchDir,
    BatchFile,
    Grant { id: DlId, start_dir: Option<Seq<char>>, error: Seq<char>, done: u64, held: Seq<Span> },
}

impl View for Pick {
    type V = PickModel;

    open spec fn view(&self) -> PickModel {
        match *self {
            Pick::Virus => PickModel::Virus,
            Pick::CategoryDir => PickModel::CategoryDir,
            Pick::Sound(a) => PickModel::Sound(a),
            Pick::SaveAs { name, dir } => PickModel::SaveAs { name: name@, dir: dir@ },
            Pick::BatchDir => PickModel::BatchDir,
            Pick::BatchFile => PickModel::BatchFile,
            Pick::Grant { id, start_dir, error, done, held } => PickModel::Grant {
                id: id,
                start_dir: start_dir.deep_view(),
                error: error@,
                done: done,
                held: held@,
            },
        }
    }
}

impl DeepView for Pick {
    type V = PickModel;

    open spec fn deep_view(&self) -> PickModel {
        self@
    }
}

/// Something to be done outside.
#[derive(Debug)]
pub enum Effect {
    /// Open a window under this number. The size is in points at the reference
    /// font; without one the remembered size applies.
    OpenWindow { id: WinId, kind: WinKind, size: Option<(u32, u32)>, resizable: bool },
    FocusWindow(WinId),
    CloseWindow(WinId),
    ResizeWindow { id: WinId, size: Option<(u32, u32)> },
    MinimizeWindow(WinId),
    /// Keep a window above all others and focus it.
    RaiseWindow(WinId),
    /// Keep a dialog above the window it belongs to.
    AttachWindow { child: WinId, parent: WinId },
    SkipTaskbar(WinId, bool),
    InstallMenu,
    /// Rebuild the native menu bar.
    RefreshMenu,
    /// Re-tick the native menu bar.
    SyncMenu,
    DockSync { hide: bool, windows: bool },
    InstallTray,
    ReinstallTray,
    Engine(Cmd),
    /// A line for the session log.
    Log(Level, String),
    SaveState,
    /// Store the configuration and hand it to the browser extension.
    SaveConfig,
    /// Hand the configuration to the browser extension.
    PublishConfig,
    /// Remove what an earlier update could not.
    SweepLeftovers,
    SaveQuota(u64, i64),
    RemoveFile(String),
    /// Move a finished file, making its folder first. Where it finished under a
    /// provisional name, the log is told of its row how that went.
    MoveFile { from: String, to: String, provisional: Option<DlId> },
    WriteExport(String),
    OpenPath(String),
    OpenAppDir,
    OpenLog,
    ReadExport,
    Play { file: Option<String>, event: sounds::Event },
    ReadClipboard(ClipboardUse),
    WriteClipboard(String),
    Exit,
    Power(PowerAction),
    ProbeLink {
        what: ProbeUse,
        url: String,
        user_agent: String,
        auth: Option<(String, String)>,
        cookies: Option<String>,
        referer: Option<String>,
    },
    ProbeStream { url: String, user_agent: String, cookies: Option<String> },
    ProbeMetalink { batch: bool, url: String, user_agent: String },
    PeekZip {
        dl: DlId,
        url: String,
        user_agent: String,
        auth: Option<(String, String)>,
        cookies: Option<String>,
        referer: Option<String>,
        len: Option<u64>,
    },
    StartScan { id: DlId, program: String, args: Vec<String> },
    SkipScan(DlId),
    Pick(Pick),
    CheckUpdate { beta: bool },
    RunUpdate(UpdateInfo),
    CancelUpdate,
    FocusField(String),
    ApplyAutostart { launch: bool, tray: bool },
    LoadLocale(String),
    ProbePermissions { dir: String, launch: bool },
    ProbeFolder(String),
    StoreColumnWidths,
}

/// The model of [`Effect`].
#[verifier::ext_equal]
pub enum EffectModel {
    OpenWindow { id: WinId, kind: WinKind, size: Option<(u32, u32)>, resizable: bool },
    FocusWindow(WinId),
    CloseWindow(WinId),
    ResizeWindow { id: WinId, size: Option<(u32, u32)> },
    MinimizeWindow(WinId),
    RaiseWindow(WinId),
    AttachWindow { child: WinId, parent: WinId },
    SkipTaskbar(WinId, bool),
    InstallMenu,
    RefreshMenu,
    SyncMenu,
    DockSync { hide: bool, windows: bool },
    InstallTray,
    ReinstallTray,
    Engine(CmdModel),
    Log(Level, Seq<char>),
    SaveState,
    SaveConfig,
    PublishConfig,
    SweepLeftovers,
    SaveQuota(u64, i64),
    RemoveFile(Seq<char>),
    MoveFile { from: Seq<char>, to: Seq<char>, provisional: Option<DlId> },
    WriteExport(Seq<char>),
    OpenPath(Seq<char>),
    OpenAppDir,
    OpenLog,
    ReadExport,
    Play { file: Option<Seq<char>>, event: sounds::Event },
    ReadClipboard(ClipboardUse),
    WriteClipboard(Seq<char>),
    Exit,
    Power(PowerAction),
    ProbeLink {
        what: ProbeUse,
        url: Seq<char>,
        user_agent: Seq<char>,
        auth: Option<(Seq<char>, Seq<char>)>,
        cookies: Option<Seq<char>>,
        referer: Option<Seq<char>>,
    },
    ProbeStream { url: Seq<char>, user_agent: Seq<char>, cookies: Option<Seq<char>> },
    ProbeMetalink { batch: bool, url: Seq<char>, user_agent: Seq<char> },
    PeekZip {
        dl: DlId,
        url: Seq<char>,
        user_agent: Seq<char>,
        auth: Option<(Seq<char>, Seq<char>)>,
        cookies: Option<Seq<char>>,
        referer: Option<Seq<char>>,
        len: Option<u64>,
    },
    StartScan { id: DlId, program: Seq<char>, args: Seq<Seq<char>> },
    SkipScan(DlId),
    Pick(PickModel),
    CheckUpdate { beta: bool },
    RunUpdate(UpdateInfoModel),
    CancelUpdate,
    FocusField(Seq<char>),
    ApplyAutostart { launch: bool, tray: bool },
    LoadLocale(Seq<char>),
    ProbePermissions { dir: Seq<char>, launch: bool },
    ProbeFolder(Seq<char>),
    StoreColumnWidths,
}

impl View for Effect {
    type V = EffectModel;

    open spec fn view(&self) -> EffectModel {
        match *self {
            Effect::OpenWindow { id, kind, size, resizable } => EffectModel::OpenWindow {
                id: id,
                kind: kind,
                size: size,
                resizable: resizable,
            },
            Effect::FocusWindow(a) => EffectModel::FocusWindow(a),
            Effect::CloseWindow(a) => EffectModel::CloseWindow(a),
            Effect::ResizeWindow { id, size } => EffectModel::ResizeWindow { id: id, size: size },
            Effect::MinimizeWindow(a) => EffectModel::MinimizeWindow(a),
            Effect::RaiseWindow(a) => EffectModel::RaiseWindow(a),
            Effect::AttachWindow { child, parent } => EffectModel::AttachWindow {
                child: child,
                parent: parent,
            },
            Effect::SkipTaskbar(a, b) => EffectModel::SkipTaskbar(a, b),
            Effect::InstallMenu => EffectModel::InstallMenu,
            Effect::RefreshMenu => EffectModel::RefreshMenu,
            Effect::SyncMenu => EffectModel::SyncMenu,
            Effect::DockSync { hide, windows } => EffectModel::DockSync { hide: hide, windows: windows },
            Effect::InstallTray => EffectModel::InstallTray,
            Effect::ReinstallTray => EffectModel::ReinstallTray,
            Effect::Engine(a) => EffectModel::Engine(a@),
            Effect::Log(a, b) => EffectModel::Log(a, b@),
            Effect::SaveState => EffectModel::SaveState,
            Effect::SaveConfig => EffectModel::SaveConfig,
            Effect::PublishConfig => EffectModel::PublishConfig,
            Effect::SweepLeftovers => EffectModel::SweepLeftovers,
            Effect::SaveQuota(a, b) => EffectModel::SaveQuota(a, b),
            Effect::RemoveFile(a) => EffectModel::RemoveFile(a@),
            Effect::MoveFile { from, to, provisional } => EffectModel::MoveFile {
                from: from@,
                to: to@,
                provisional: provisional,
            },
            Effect::WriteExport(a) => EffectModel::WriteExport(a@),
            Effect::OpenPath(a) => EffectModel::OpenPath(a@),
            Effect::OpenAppDir => EffectModel::OpenAppDir,
            Effect::OpenLog => EffectModel::OpenLog,
            Effect::ReadExport => EffectModel::ReadExport,
            Effect::Play { file, event } => EffectModel::Play { file: file.deep_view(), event: event },
            Effect::ReadClipboard(a) => EffectModel::ReadClipboard(a),
            Effect::WriteClipboard(a) => EffectModel::WriteClipboard(a@),
            Effect::Exit => EffectModel::Exit,
            Effect::Power(a) => EffectModel::Power(a),
            Effect::ProbeLink { what, url, user_agent, auth, cookies, referer } => EffectModel::ProbeLink {
                what: what,
                url: url@,
                user_agent: user_agent@,
                auth: auth.deep_view(),
                cookies: cookies.deep_view(),
                referer: referer.deep_view(),
            },
            Effect::ProbeStream { url, user_agent, cookies } => EffectModel::ProbeStream {
                url: url@,
                user_agent: user_agent@,
                cookies: cookies.deep_view(),
            },
            Effect::ProbeMetalink { batch, url, user_agent } => EffectModel::ProbeMetalink {
                batch: batch,
                url: url@,
                user_agent: user_agent@,
            },
            Effect::PeekZip { dl, url, user_agent, auth, cookies, referer, len } => EffectModel::PeekZip {
                dl: dl,
                url: url@,
                user_agent: user_agent@,
                auth: auth.deep_view(),
                cookies: cookies.deep_view(),
                referer: referer.deep_view(),
                len: len,
            },
            Effect::StartScan { id, program, args } => EffectModel::StartScan {
                id: id,
                program: program@,
                args: args.deep_view(),
            },
            Effect::SkipScan(a) => EffectModel::SkipScan(a),
            Effect::Pick(a) => EffectModel::Pick(a@),
            Effect::CheckUpdate { beta } => EffectModel::CheckUpdate { beta: beta },
            Effect::RunUpdate(a) => EffectModel::RunUpdate(a@),
            Effect::CancelUpdate => EffectModel::CancelUpdate,
            Effect::FocusField(a) => EffectModel::FocusField(a@),
            Effect::ApplyAutostart { launch, tray } => EffectModel::ApplyAutostart {
                launch: launch,
                tray: tray,
            },
            Effect::LoadLocale(a) => EffectModel::LoadLocale(a@),
            Effect::ProbePermissions { dir, launch } => EffectModel::ProbePermissions {
                dir: dir@,
                launch: launch,
            },
            Effect::ProbeFolder(a) => EffectModel::ProbeFolder(a@),
            Effect::StoreColumnWidths => EffectModel::StoreColumnWidths,
        }
    }
}

impl DeepView for Effect {
    type V = EffectModel;

    open spec fn deep_view(&self) -> EffectModel {
        self@
    }
}

} // verus!
