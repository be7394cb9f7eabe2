//! What the steps of the program tell the session log. An address is told
//! without what its query holds.
use crate::fmt::{size2, size_text};
use crate::log::{redact, redacted, Level};
use crate::model::{DlId, PowerAction};
use crate::state::POWER_COUNTDOWN_SECS;
use crate::text::{cat, cat3, decimal, number};
use crate::update::UpdateMethod;
use vstd::prelude::*;

verus! {

/// Something worth a line in the session log.
#[derive(Debug)]
pub enum Note {
    /// The default folder cannot be written into.
    NoFolderAccess { dir: String },
    InfoSuperseded,
    WindowElapsed { used: u64 },
    LimitReached { used: u64, mb: u64, hours: u64, count: usize },
    LimitLifted { count: usize },
    StagingMismatch { id: DlId },
    Unverified { id: DlId, name: String },
    MirrorList { origin: String, version: String, added: usize, files: usize },
    NoScanner { program: String },
    PowerArmed { action: PowerAction },
    PowerCancelled { action: PowerAction },
    PowerFailed { action: PowerAction, error: String },
    QueueFinished { name: String },
    /// A transfer is over; `tenths` counts tenths of a second.
    Complete { id: DlId, bytes: u64, tenths: u64 },
    Moved { id: DlId, to: String },
    NotMoved { id: DlId, error: String },
    Retry { id: DlId, nth: u32, most: u32, error: String },
    Regranted { id: DlId, dir: String },
    ClipboardLink { url: String },
    ClipboardLinks { count: usize },
    Capture { url: String },
    StreamCapture { url: String },
    ShutdownAsked,
    Mirror { id: DlId, url: String },
    ScanKept { id: DlId },
    UpdateFound { version: String },
    UpdateCheckFailed { error: String },
    UpdateChosen { version: String },
    /// A newer release has nothing for this machine.
    NoBundle { version: String, bundle: String },
    /// A package manager owns the files at `place`.
    PackageOwned { version: String, place: String },
    /// What is at `place` can be updated.
    Updatable { version: String, place: String, method: UpdateMethod },
    FinisherStarted { version: String },
    UpdateFailed { error: String },
    /// The login item belongs to the default profile.
    LoginElsewhere { dir: String },
    /// A login item names the installed copy of a program that will be gone.
    LoginMoved { from: String, to: String },
    LoginLost { from: String },
    LoginMasked,
    LoginRemoved,
    LoginWritten { path: String, exe: String },
    RunKeyWritten { command: String },
    LoginNotMasked { error: String },
    LoginNotRemoved { error: String },
    LoginNotWritten { error: String },
    /// The browsers are led to the default profile.
    BrowsersElsewhere { dir: String },
    NoHost,
    NoHome,
    ManifestWritten { file: String },
    ManifestNotWritten { file: String, error: String },
    ManifestNoFolder { dir: String, error: String },
    ManifestsWritten { count: usize, host: String },
    KeysSet { dir: String },
    KeyNotSet { key: String, error: String },
    PowerSave { on: bool },
    Locale { tag: String },
    StartedHidden,
    NoTray,
}

/// The model of [`Note`].
#[verifier::ext_equal]
pub enum NoteModel {
    NoFolderAccess { dir: Seq<char> },
    InfoSuperseded,
    WindowElapsed { used: u64 },
    LimitReached { used: u64, mb: u64, hours: u64, count: nat },
    LimitLifted { count: nat },
    StagingMismatch { id: DlId },
    Unverified { id: DlId, name: Seq<char> },
    MirrorList { origin: Seq<char>, version: Seq<char>, added: nat, files: nat },
    NoScanner { program: Seq<char> },
    PowerArmed { action: PowerAction },
    PowerCancelled { action: PowerAction },
    PowerFailed { action: PowerAction, error: Seq<char> },
    QueueFinished { name: Seq<char> },
    Complete { id: DlId, bytes: u64, tenths: u64 },
    Moved { id: DlId, to: Seq<char> },
    NotMoved { id: DlId, error: Seq<char> },
    Retry { id: DlId, nth: u32, most: u32, error: Seq<char> },
    Regranted { id: DlId, dir: Seq<char> },
    ClipboardLink { url: Seq<char> },
    ClipboardLinks { count: nat },
    Capture { url: Seq<char> },
    StreamCapture { url: Seq<char> },
    ShutdownAsked,
    Mirror { id: DlId, url: Seq<char> },
    ScanKept { id: DlId },
    UpdateFound { version: Seq<char> },
    UpdateCheckFailed { error: Seq<char> },
    UpdateChosen { version: Seq<char> },
    NoBundle { version: Seq<char>, bundle: Seq<char> },
    PackageOwned { version: Seq<char>, place: Seq<char> },
    Updatable { version: Seq<char>, place: Seq<char>, method: UpdateMethod },
    FinisherStarted { version: Seq<char> },
    UpdateFailed { error: Seq<char> },
    LoginElsewhere { dir: Seq<char> },
    LoginMoved { from: Seq<char>, to: Seq<char> },
    LoginLost { from: Seq<char> },
    LoginMasked,
    LoginRemoved,
    LoginWritten { path: Seq<char>, exe: Seq<char> },
    RunKeyWritten { command: Seq<char> },
    LoginNotMasked { error: Seq<char> },
    LoginNotRemoved { error: Seq<char> },
    LoginNotWritten { error: Seq<char> },
    BrowsersElsewhere { dir: Seq<char> },
    NoHost,
    NoHome,
    ManifestWritten { file: Seq<char> },
    ManifestNotWritten { file: Seq<char>, error: Seq<char> },
    ManifestNoFolder { dir: Seq<char>, error: Seq<char> },
    ManifestsWritten { count: nat, host: Seq<char> },
    KeysSet { dir: Seq<char> },
    KeyNotSet { key: Seq<char>, error: Seq<char> },
    PowerSave { on: bool },
    Locale { tag: Seq<char> },
    StartedHidden,
    NoTray,
}

impl View for Note {
    type V = NoteModel;

    open spec fn view(&self) -> NoteModel {
        match *self {
            Note::NoFolderAccess { dir } => NoteModel::NoFolderAccess { dir: dir@ },
            Note::InfoSuperseded => NoteModel::InfoSuperseded,
            Note::WindowElapsed { used } => NoteModel::WindowElapsed { used: used },
            Note::LimitReached { used, mb, hours, count } => NoteModel::LimitReached {
                used: used,
                mb: mb,
                hours: hours,
                count: count as nat,
            },
            Note::LimitLifted { count } => NoteModel::LimitLifted { count: count as nat },
            Note::StagingMismatch { id } => NoteModel::StagingMismatch { id: id },
            Note::Unverified { id, name } => NoteModel::Unverified { id: id, name: name@ },
            Note::MirrorList { origin, version, added, files } => NoteModel::MirrorList {
                origin: origin@,
                version: version@,
                added: added as nat,
                files: files as nat,
            },
            Note::NoScanner { program } => NoteModel::NoScanner { program: program@ },
            Note::PowerArmed { action } => NoteModel::PowerArmed { action: action },
            Note::PowerCancelled { action } => NoteModel::PowerCancelled { action: action },
            Note::PowerFailed { action, error } => NoteModel::PowerFailed {
                action: action,
                error: error@,
            },
            Note::QueueFinished { name } => NoteModel::QueueFinished { name: name@ },
            Note::Complete { id, bytes, tenths } => NoteModel::Complete {
                id: id,
                bytes: bytes,
                tenths: tenths,
            },
            Note::Moved { id, to } => NoteModel::Moved { id: id, to: to@ },
            Note::NotMoved { id, error } => NoteModel::NotMoved { id: id, error: error@ },
            Note::Retry { id, nth, most, error } => NoteModel::Retry {
                id: id,
                nth: nth,
                most: most,
                error: error@,
            },
            Note::Regranted { id, dir } => NoteModel::Regranted { id: id, dir: dir@ },
            Note::ClipboardLink { url } => NoteModel::ClipboardLink { url: url@ },
            Note::ClipboardLinks { count } => NoteModel::ClipboardLinks { count: count as nat },
            Note::Capture { url } => NoteModel::Capture { url: url@ },
            Note::StreamCapture { url } => NoteModel::StreamCapture { url: url@ },
            Note::ShutdownAsked => NoteModel::ShutdownAsked,
            Note::Mirror { id, url } => NoteModel::Mirror { id: id, url: url@ },
            Note::ScanKept { id } => NoteModel::ScanKept { id: id },
            Note::UpdateFound { version } => NoteModel::UpdateFound { version: version@ },
            Note::UpdateCheckFailed { error } => NoteModel::UpdateCheckFailed { error: error@ },
            Note::UpdateChosen { version } => NoteModel::UpdateChosen { version: version@ },
            Note::NoBundle { version, bundle } => NoteModel::NoBundle {
                version: version@,
                bundle: bundle@,
            },
            Note::PackageOwned { version, place } => NoteModel::PackageOwned {
                version: version@,
                place: place@,
            },
            Note::Updatable { version, place, method } => NoteModel::Updatable {
                version: version@,
                place: place@,
                method: method,
            },
            Note::FinisherStarted { version } => NoteModel::FinisherStarted { version: version@ },
            Note::UpdateFailed { error } => NoteModel::UpdateFailed { error: error@ },
            Note::LoginElsewhere { dir } => NoteModel::LoginElsewhere { dir: dir@ },
            Note::LoginMoved { from, to } => NoteModel::LoginMoved { from: from@, to: to@ },
            Note::LoginLost { from } => NoteModel::LoginLost { from: from@ },
            Note::LoginMasked => NoteModel::LoginMasked,
            Note::LoginRemoved => NoteModel::LoginRemoved,
            Note::LoginWritten { path, exe } => NoteModel::LoginWritten { path: path@, exe: exe@ },
            Note::RunKeyWritten { command } => NoteModel::RunKeyWritten { command: command@ },
            Note::LoginNotMasked { error } => NoteModel::LoginNotMasked { error: error@ },
            Note::LoginNotRemoved { error } => NoteModel::LoginNotRemoved { error: error@ },
            Note::LoginNotWritten { error } => NoteModel::LoginNotWritten { error: error@ },
            Note::BrowsersElsewhere { dir } => NoteModel::BrowsersElsewhere { dir: dir@ },
            Note::NoHost => NoteModel::NoHost,
            Note::NoHome => NoteModel::NoHome,
            Note::ManifestWritten { file } => NoteModel::ManifestWritten { file: file@ },
            Note::ManifestNotWritten { file, error } => NoteModel::ManifestNotWritten { file: file@, error: error@ },
            Note::ManifestNoFolder { dir, error } => NoteModel::ManifestNoFolder { dir: dir@, error: error@ },
            Note::ManifestsWritten { count, host } => NoteModel::ManifestsWritten {
                count: count as nat,
                host: host@,
            },
            Note::KeysSet { dir } => NoteModel::KeysSet { dir: dir@ },
            Note::KeyNotSet { key, error } => NoteModel::KeyNotSet { key: key@, error: error@ },
            Note::PowerSave { on } => NoteModel::PowerSave { on: on },
            Note::Locale { tag } => NoteModel::Locale { tag: tag@ },
            Note::StartedHidden => NoteModel::StartedHidden,
            Note::NoTray => NoteModel::NoTray,
        }
    }
}

impl DeepView for Note {
    type V = NoteModel;

    open spec fn deep_view(&self) -> NoteModel {
        self@
    }
}

/// A power action as the log names it.
pub open spec fn power_name(a: PowerAction) -> Seq<char> {
    match a {
        PowerAction::Shutdown => "Shutdown"@,
        PowerAction::LogOff => "LogOff"@,
        PowerAction::Sleep => "Sleep"@,
    }
}

fn power_word(a: PowerAction) -> (r: &'static str)
    ensures
        r@ == power_name(a),
{
    match a {
        PowerAction::Shutdown => "Shutdown",
        PowerAction::LogOff => "LogOff",
        PowerAction::Sleep => "Sleep",
    }
}

pub open spec fn truth(b: bool) -> Seq<char> {
    if b {
        "true"@
    } else {
        "false"@
    }
}

fn truth_word(b: bool) -> (r: &'static str)
    ensures
        r@ == truth(b),
{
    if b {
        "true"
    } else {
        "false"
    }
}

/// How an install is updated, as the log says it.
pub open spec fn manner(m: UpdateMethod) -> Seq<char> {
    match m {
        UpdateMethod::Elevated => "in place, after authorisation"@,
        UpdateMethod::AppImage => "by replacing the image file"@,
        _ => "in place"@,
    }
}

fn manner_words(m: UpdateMethod) -> (r: &'static str)
    ensures
        r@ == manner(m),
{
    match m {
        UpdateMethod::Elevated => "in place, after authorisation",
        UpdateMethod::AppImage => "by replacing the image file",
        _ => "in place",
    }
}

/// A number of tenths with one digit behind the point.
pub open spec fn tenths_text(t: u64) -> Seq<char> {
    decimal((t / 10) as nat) + "."@ + decimal((t % 10) as nat)
}

fn tenths_of(t: u64) -> (r: String)
    ensures
        r@ == tenths_text(t),
{
    cat3(&number(t / 10), ".", &number(t % 10))
}

impl NoteModel {
    /// How much the line matters.
    pub open spec fn level(self) -> Level {
        match self {
            NoteModel::Locale { .. } => Level::Debug,
            NoteModel::NoFolderAccess { .. } => Level::Warn,
            NoteModel::StagingMismatch { .. } => Level::Warn,
            NoteModel::Unverified { .. } => Level::Warn,
            NoteModel::NoScanner { .. } => Level::Warn,
            NoteModel::PowerFailed { .. } => Level::Warn,
            NoteModel::NotMoved { .. } => Level::Warn,
            NoteModel::UpdateCheckFailed { .. } => Level::Warn,
            NoteModel::NoTray => Level::Warn,
            NoteModel::NoBundle { .. } => Level::Warn,
            NoteModel::UpdateFailed { .. } => Level::Error,
            NoteModel::LoginLost { .. } => Level::Warn,
            NoteModel::LoginNotMasked { .. } => Level::Warn,
            NoteModel::LoginNotRemoved { .. } => Level::Warn,
            NoteModel::LoginNotWritten { .. } => Level::Warn,
            NoteModel::NoHost => Level::Warn,
            NoteModel::NoHome => Level::Warn,
            NoteModel::ManifestNotWritten { .. } => Level::Warn,
            NoteModel::ManifestNoFolder { .. } => Level::Warn,
            NoteModel::KeyNotSet { .. } => Level::Warn,
            _ => Level::Info,
        }
    }

    /// The line.
    #[verifier::opaque]
    pub open spec fn text(self) -> Seq<char> {
        match self {
            NoteModel::NoFolderAccess { dir } => "no write access to "@ + dir,
            NoteModel::InfoSuperseded => "file info: superseding the open dialog with a new one"@,
            NoteModel::WindowElapsed { used } => {
                "download limit: window elapsed after "@ + size_text(used as nat, 2)
                    + "; counter reset"@
            },
            NoteModel::LimitReached { used, mb, hours, count } => {
                "download limit reached ("@ + size_text(used as nat, 2) + " of "@
                    + decimal(mb as nat) + " MB in "@ + decimal(hours as nat) + " h): pausing "@
                    + decimal(count) + " transfer(s)"@
            },
            NoteModel::LimitLifted { count } => {
                "download limit: window open again, resuming "@ + decimal(count)
                    + " transfer(s)"@
            },
            NoteModel::StagingMismatch { id } => {
                "#"@ + decimal(id as nat)
                    + " staging file does not match recorded spans: restarting from zero"@
            },
            NoteModel::Unverified { id, name } => {
                "#"@ + decimal(id as nat) + " the mirror list carries an OpenPGP signature over "@
                    + name + "; Hydra records it but does not verify it"@
            },
            NoteModel::MirrorList { origin, version, added, files } => {
                "metalink "@ + redacted(origin) + " ("@ + version + "): added "@
                    + decimal(added) + " of "@ + decimal(files) + " file(s)"@
            },
            NoteModel::NoScanner { program } => "virus scanner not found: "@ + program,
            NoteModel::PowerArmed { action } => {
                "power action "@ + power_name(action) + " armed, "@
                    + decimal(POWER_COUNTDOWN_SECS as nat) + "s to cancel"@
            },
            NoteModel::PowerCancelled { action } => {
                "power action "@ + power_name(action) + " cancelled"@
            },
            NoteModel::PowerFailed { action, error } => {
                "power action "@ + power_name(action) + " failed: "@ + error
            },
            NoteModel::QueueFinished { name } => "queue finished: "@ + name,
            NoteModel::Complete { id, bytes, tenths } => {
                "#"@ + decimal(id as nat) + " complete: "@ + decimal(bytes as nat) + " bytes in "@
                    + tenths_text(tenths) + "s"@
            },
            NoteModel::Moved { id, to } => {
                "#"@ + decimal(id as nat) + " finished under the provisional name; moved to "@
                    + to
            },
            NoteModel::NotMoved { id, error } => {
                "#"@ + decimal(id as nat)
                    + " could not move the finished file to the name typed in File Info: "@
                    + error
            },
            NoteModel::Retry { id, nth, most, error } => {
                "#"@ + decimal(id as nat) + " retry "@ + decimal(nth as nat) + "/"@
                    + decimal(most as nat) + ": "@ + error
            },
            NoteModel::Regranted { id, dir } => {
                "#"@ + decimal(id as nat) + " folder re-granted: "@ + dir
            },
            NoteModel::ClipboardLink { url } => "clipboard capture: "@ + redacted(url),
            NoteModel::ClipboardLinks { count } => {
                "clipboard capture: "@ + decimal(count) + " links"@
            },
            NoteModel::Capture { url } => "ext: capture dialog for "@ + redacted(url),
            NoteModel::StreamCapture { url } => "ext: stream capture for "@ + redacted(url),
            NoteModel::ShutdownAsked => "ext: shutdown requested by a newer build; exiting"@,
            NoteModel::Mirror { id, url } => {
                "#"@ + decimal(id as nat) + " mirror -> "@ + redacted(url)
            },
            NoteModel::ScanKept { id } => {
                "#"@ + decimal(id as nat) + " virus scan: kept, dialog left open"@
            },
            NoteModel::UpdateFound { version } => "update available: "@ + version,
            NoteModel::UpdateCheckFailed { error } => "update check failed: "@ + error,
            NoteModel::UpdateChosen { version } => "update: user chose Update Now for "@ + version,
            NoteModel::NoBundle { version, bundle } => {
                "update "@ + version + " available but has no "@ + bundle + " bundle"@
            },
            NoteModel::PackageOwned { version, place } => {
                "update "@ + version + " available but "@ + place
                    + " is owned by a package manager; offering the installer instead"@
            },
            NoteModel::Updatable { version, place, method } => {
                "update "@ + version + " available; "@ + place + " updates "@ + manner(method)
            },
            NoteModel::FinisherStarted { version } => {
                "update "@ + version
                    + " downloaded; finisher started, exiting to let it swap files"@
            },
            NoteModel::UpdateFailed { error } => "update failed: "@ + error,
            NoteModel::LoginElsewhere { dir } => {
                "login item: --config "@ + dir + " \u{2014} left to the default profile"@
            },
            NoteModel::LoginMoved { from, to } => {
                "login item: running from transient "@ + from + " \u{2014} using installed "@ + to
            },
            NoteModel::LoginLost { from } => {
                "login item: running from transient "@ + from + " and no installed copy found; entry left as is"@
            },
            NoteModel::LoginMasked => {
                "login item disabled (Hidden=true entry written)"@
            },
            NoteModel::LoginRemoved => {
                "login item removed"@
            },
            NoteModel::LoginWritten { path, exe } => {
                "login item written: "@ + path + " -> "@ + exe
            },
            NoteModel::RunKeyWritten { command } => {
                "login item written: HKCU\\Software\\Microsoft\\Windows\\CurrentVersion\\Run\\Hydra Download Manager = "@ + command
            },
            NoteModel::LoginNotMasked { error } => {
                "login item disable failed: "@ + error
            },
            NoteModel::LoginNotRemoved { error } => {
                "login item remove failed: "@ + error
            },
            NoteModel::LoginNotWritten { error } => {
                "login item write failed: "@ + error
            },
            NoteModel::BrowsersElsewhere { dir } => {
                "nmhost: --config "@ + dir + " \u{2014} browser registration left to the default profile"@
            },
            NoteModel::NoHost => {
                "nmhost: playdl-host is not next to the app; browser capture cannot launch PlayDL"@
            },
            NoteModel::NoHome => {
                "nmhost: no home directory"@
            },
            NoteModel::ManifestWritten { file } => {
                "nmhost: registered "@ + file
            },
            NoteModel::ManifestNotWritten { file, error } => {
                "nmhost: cannot write "@ + file + ": "@ + error
            },
            NoteModel::ManifestNoFolder { dir, error } => {
                "nmhost: cannot create "@ + dir + ": "@ + error
            },
            NoteModel::ManifestsWritten { count, host } => {
                "nmhost: "@ + decimal(count) + " manifest(s) written, host = "@ + host
            },
            NoteModel::KeysSet { dir } => {
                "nmhost: registry keys point at "@ + dir
            },
            NoteModel::KeyNotSet { key, error } => {
                "nmhost: "@ + key + ": "@ + error
            },
            NoteModel::PowerSave { on } => "power save: "@ + truth(on),
            NoteModel::Locale { tag } => "locale -> "@ + tag,
            NoteModel::StartedHidden => "started minimized to tray"@,
            NoteModel::NoTray => "no system tray available; opening the main window instead"@,
        }
    }
}

impl Note {
    /// How much the line matters.
    pub fn level(&self) -> (r: Level)
        ensures
            r == self@.level(),
    {
        match self {
            Note::Locale { .. } => Level::Debug,
            Note::NoFolderAccess { .. } => Level::Warn,
            Note::StagingMismatch { .. } => Level::Warn,
            Note::Unverified { .. } => Level::Warn,
            Note::NoScanner { .. } => Level::Warn,
            Note::PowerFailed { .. } => Level::Warn,
            Note::NotMoved { .. } => Level::Warn,
            Note::UpdateCheckFailed { .. } => Level::Warn,
            Note::NoTray => Level::Warn,
            Note::NoBundle { .. } => Level::Warn,
            Note::UpdateFailed { .. } => Level::Error,
            Note::LoginLost { .. } => Level::Warn,
            Note::LoginNotMasked { .. } => Level::Warn,
            Note::LoginNotRemoved { .. } => Level::Warn,
            Note::LoginNotWritten { .. } => Level::Warn,
            Note::NoHost => Level::Warn,
            Note::NoHome => Level::Warn,
            Note::ManifestNotWritten { .. } => Level::Warn,
            Note::ManifestNoFolder { .. } => Level::Warn,
            Note::KeyNotSet { .. } => Level::Warn,
            _ => Level::Info,
        }
    }

    /// The line.
    pub fn text(&self) -> (r: String)
        ensures
            r@ == self@.text(),
    {
        proof {
            reveal(NoteModel::text);
        }
        match self {
            Note::NoFolderAccess { dir } => cat("no write access to ", dir),
            Note::InfoSuperseded => {
                "file info: superseding the open dialog with a new one".to_owned()
            },
            Note::WindowElapsed { used } => cat3(
                "download limit: window elapsed after ",
                &size2(*used),
                "; counter reset",
            ),
            Note::LimitReached { used, mb, hours, count } => {
                let s = cat3("download limit reached (", &size2(*used), " of ");
                let s = cat3(&s, &number(*mb), " MB in ");
                let s = cat3(&s, &number(*hours), " h): pausing ");
                cat3(&s, &number(*count as u64), " transfer(s)")
            },
            Note::LimitLifted { count } => cat3(
                "download limit: window open again, resuming ",
                &number(*count as u64),
                " transfer(s)",
            ),
            Note::StagingMismatch { id } => cat3(
                "#",
                &number(*id),
                " staging file does not match recorded spans: restarting from zero",
            ),
            Note::Unverified { id, name } => {
                let s = cat3("#", &number(*id), " the mirror list carries an OpenPGP signature over ");
                cat3(&s, name, "; Hydra records it but does not verify it")
            },
            Note::MirrorList { origin, version, added, files } => {
                let s = cat3("metalink ", &redact(origin), " (");
                let s = cat3(&s, version, "): added ");
                let s = cat3(&s, &number(*added as u64), " of ");
                cat3(&s, &number(*files as u64), " file(s)")
            },
            Note::NoScanner { program } => cat("virus scanner not found: ", program),
            Note::PowerArmed { action } => {
                let s = cat3("power action ", power_word(*action), " armed, ");
                cat3(&s, &number(POWER_COUNTDOWN_SECS as u64), "s to cancel")
            },
            Note::PowerCancelled { action } => cat3(
                "power action ",
                power_word(*action),
                " cancelled",
            ),
            Note::PowerFailed { action, error } => {
                let s = cat3("power action ", power_word(*action), " failed: ");
                cat(&s, error)
            },
            Note::QueueFinished { name } => cat("queue finished: ", name),
            Note::Complete { id, bytes, tenths } => {
                let s = cat3("#", &number(*id), " complete: ");
                let s = cat3(&s, &number(*bytes), " bytes in ");
                cat3(&s, &tenths_of(*tenths), "s")
            },
            Note::Moved { id, to } => {
                let s = cat3("#", &number(*id), " finished under the provisional name; moved to ");
                cat(&s, to)
            },
            Note::NotMoved { id, error } => {
                let s = cat3("#", &number(*id), " could not move the finished file to the name typed in File Info: ");
                cat(&s, error)
            },
            Note::Retry { id, nth, most, error } => {
                let s = cat3("#", &number(*id), " retry ");
                let s = cat3(&s, &number(*nth as u64), "/");
                let s = cat3(&s, &number(*most as u64), ": ");
                cat(&s, error)
            },
            Note::Regranted { id, dir } => {
                let s = cat3("#", &number(*id), " folder re-granted: ");
                cat(&s, dir)
            },
            Note::ClipboardLink { url } => cat("clipboard capture: ", &redact(url)),
            Note::ClipboardLinks { count } => cat3(
                "clipboard capture: ",
                &number(*count as u64),
                " links",
            ),
            Note::Capture { url } => cat("ext: capture dialog for ", &redact(url)),
            Note::StreamCapture { url } => cat("ext: stream capture for ", &redact(url)),
            Note::ShutdownAsked => "ext: shutdown requested by a newer build; exiting".to_owned(),
            Note::Mirror { id, url } => {
                let s = cat3("#", &number(*id), " mirror -> ");
                cat(&s, &redact(url))
            },
            Note::ScanKept { id } => cat3(
                "#",
                &number(*id),
                " virus scan: kept, dialog left open",
            ),
            Note::UpdateFound { version } => cat("update available: ", version),
            Note::UpdateCheckFailed { error } => cat("update check failed: ", error),
            Note::UpdateChosen { version } => cat("update: user chose Update Now for ", version),
            Note::NoBundle { version, bundle } => {
                let s = cat3("update ", version, " available but has no ");
                cat3(&s, bundle, " bundle")
            },
            Note::PackageOwned { version, place } => {
                let s = cat3("update ", version, " available but ");
                cat3(
                    &s,
                    place,
                    " is owned by a package manager; offering the installer instead",
                )
            },
            Note::Updatable { version, place, method } => {
                let s = cat3("update ", version, " available; ");
                let s = cat3(&s, place, " updates ");
                cat(&s, manner_words(*method))
            },
            Note::FinisherStarted { version } => cat3(
                "update ",
                version,
                " downloaded; finisher started, exiting to let it swap files",
            ),
            Note::UpdateFailed { error } => cat("update failed: ", error),
            Note::LoginElsewhere { dir } => cat3("login item: --config ", dir, " \u{2014} left to the default profile"),
            Note::LoginMoved { from, to } => {
                let s = cat3("login item: running from transient ", from, " \u{2014} using installed ");
                cat(&s, to)
            },
            Note::LoginLost { from } => cat3("login item: running from transient ", from, " and no installed copy found; entry left as is"),
            Note::LoginMasked => "login item disabled (Hidden=true entry written)".to_owned(),
            Note::LoginRemoved => "login item removed".to_owned(),
            Note::LoginWritten { path, exe } => {
                let s = cat3("login item written: ", path, " -> ");
                cat(&s, exe)
            },
            Note::RunKeyWritten { command } => cat("login item written: HKCU\\Software\\Microsoft\\Windows\\CurrentVersion\\Run\\Hydra Download Manager = ", command),
            Note::LoginNotMasked { error } => cat("login item disable failed: ", error),
            Note::LoginNotRemoved { error } => cat("login item remove failed: ", error),
            Note::LoginNotWritten { error } => cat("login item write failed: ", error),
            Note::BrowsersElsewhere { dir } => cat3("nmhost: --config ", dir, " \u{2014} browser registration left to the default profile"),
            Note::NoHost => "nmhost: playdl-host is not next to the app; browser capture cannot launch PlayDL".to_owned(),
            Note::NoHome => "nmhost: no home directory".to_owned(),
            Note::ManifestWritten { file } => cat("nmhost: registered ", file),
            Note::ManifestNotWritten { file, error } => {
                let s = cat3("nmhost: cannot write ", file, ": ");
                cat(&s, error)
            },
            Note::ManifestNoFolder { dir, error } => {
                let s = cat3("nmhost: cannot create ", dir, ": ");
                cat(&s, error)
            },
            Note::ManifestsWritten { count, host } => {
                let s = cat3("nmhost: ", &number(*count as u64), " manifest(s) written, host = ");
                cat(&s, host)
            },
            Note::KeysSet { dir } => cat("nmhost: registry keys point at ", dir),
            Note::KeyNotSet { key, error } => {
                let s = cat3("nmhost: ", key, ": ");
                cat(&s, error)
            },
            Note::PowerSave { on } => cat("power save: ", truth_word(*on)),
            Note::Locale { tag } => cat("locale -> ", tag),
            Note::StartedHidden => "started minimized to tray".to_owned(),
            Note::NoTray => "no system tray available; opening the main window instead".to_owned(),
        }
    }
}

} // verus!
