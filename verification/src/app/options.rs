//! The Options dialog: a draft of the settings, edited field by field.
use crate::app::add_url::{digits_of, keep_digits};
use crate::app::{App, AppModel};
use crate::effect::{Effect, EffectModel, Pick, PickModel};
use crate::engine::{Cmd, CmdModel};
use crate::model::{
    set_category_dir, with_category_dir, CategoryDef, ConfigFileModel, ProxyMode, Settings,
    SettingsModel, SiteLogin, SiteLoginModel, SoundRow, SoundRowModel, Switches,
};
use crate::sounds;
use crate::state::{OptTab, OptionsState, OptionsStateModel, WinKind};
use crate::text::{decimal, number, parse_number, spelled_up_to, trim, trimmed};
use crate::twin::Twin;
use vstd::prelude::*;

verus! {

/// An edit in the Options dialog.
#[derive(Debug)]
pub enum OptField {
    LaunchStartup(bool),
    CheckUpdates(bool),
    BetaChannel(bool),
    StartInTray(bool),
    CloseToTray(bool),
    HideTaskbar(bool),
    PowerSave(bool),
    GpuRender(bool),
    Clipboard(bool),
    ExcDialog(bool),
    RememberLast(bool),
    ServerDate(bool),
    NoCatDirs(bool),
    ShowFileInfo(bool),
    BgDownload(bool),
    StartMinimized(bool),
    SpeedTab(bool),
    CompletionTab(bool),
    HideButtons(bool),
    CompleteDialog(bool),
    RemoveCompleted(bool),
    AdaptiveConns(bool),
    WarnStop(bool),
    ProxyHttp(bool),
    ProxyHttps(bool),
    ProxyFtp(bool),
    FtpPasv(bool),
    DlLimit(bool),
    ProxyMode(ProxyMode),
    DefaultConns(usize),
    Browser(usize, bool),
    UserAgent(String),
    VirusScanner(String),
    VirusArgs(String),
    ProxyScript(String),
    ProxyHost(String),
    ProxyPort(String),
    ProxyUser(String),
    ProxyPass(String),
    AutoTypesEdit(String),
    SitesEdit(String),
    ExcServer(String),
    ExcConns(String),
    SelCategory(String),
    LoginSite(String),
    LoginUser(String),
    LoginPass(String),
    DlLimitMb(String),
    DlLimitHours(String),
    BrowseVirus,
    VirusPicked(Option<String>),
    ExcAdd,
    CatDir(String),
    BrowseCatDir,
    CatDirPicked(Option<String>),
    LoginSel(usize),
    LoginAdd,
    LoginRemove,
    Sound(usize, bool),
    SoundBrowse(usize),
    SoundPicked(usize, Option<String>),
    SoundPlay(usize),
}

// ------------------------------------------------------------------- switches

/// The switches after an edit, where the edit is of a switch.
pub open spec fn flipped(on: Switches, f: OptField) -> Option<Switches> {
    match f {
        OptField::LaunchStartup(b) => Some(Switches { launch_on_startup: b, ..on }),
        OptField::CheckUpdates(b) => Some(Switches { check_updates_on_startup: b, ..on }),
        OptField::BetaChannel(b) => Some(Switches { beta_channel: b, ..on }),
        OptField::StartInTray(b) => Some(Switches { start_in_tray: b, ..on }),
        OptField::CloseToTray(b) => Some(Switches { close_to_tray: b, ..on }),
        OptField::HideTaskbar(b) => Some(Switches { hide_from_taskbar: b, ..on }),
        OptField::PowerSave(b) => Some(Switches { power_save: b, ..on }),
        OptField::GpuRender(b) => Some(Switches { gpu_render: b, ..on }),
        OptField::Clipboard(b) => Some(Switches { monitor_clipboard: b, ..on }),
        OptField::ExcDialog(b) => Some(Switches { show_exception_dialog: b, ..on }),
        OptField::RememberLast(b) => Some(Switches { remember_last_dir: b, ..on }),
        OptField::ServerDate(b) => Some(Switches { server_file_date: b, ..on }),
        OptField::NoCatDirs(b) => Some(Switches { no_category_dirs: b, ..on }),
        OptField::ShowFileInfo(b) => Some(Switches { show_file_info_dialog: b, ..on }),
        OptField::BgDownload(b) => Some(Switches { bg_download: b, ..on }),
        OptField::StartMinimized(b) => Some(Switches { start_minimized: b, ..on }),
        OptField::SpeedTab(b) => Some(Switches { show_speed_tab: b, ..on }),
        OptField::CompletionTab(b) => Some(Switches { show_completion_tab: b, ..on }),
        OptField::HideButtons(b) => Some(Switches { show_hide_buttons: b, ..on }),
        OptField::CompleteDialog(b) => Some(Switches { show_complete_dialog: b, ..on }),
        OptField::RemoveCompleted(b) => Some(Switches { remove_completed: b, ..on }),
        OptField::AdaptiveConns(b) => Some(Switches { adaptive_conns: b, ..on }),
        OptField::WarnStop(b) => Some(Switches { warn_before_stop: b, ..on }),
        OptField::ProxyHttp(b) => Some(Switches { proxy_http: b, ..on }),
        OptField::ProxyHttps(b) => Some(Switches { proxy_https: b, ..on }),
        OptField::ProxyFtp(b) => Some(Switches { proxy_ftp: b, ..on }),
        OptField::FtpPasv(b) => Some(Switches { ftp_pasv: b, ..on }),
        _ => None,
    }
}

fn flip(on: Switches, f: &OptField) -> (r: Option<Switches>)
    ensures
        r == flipped(on, *f),
{
    match f {
        OptField::LaunchStartup(b) => Some(Switches { launch_on_startup: *b, ..on }),
        OptField::CheckUpdates(b) => Some(Switches { check_updates_on_startup: *b, ..on }),
        OptField::BetaChannel(b) => Some(Switches { beta_channel: *b, ..on }),
        OptField::StartInTray(b) => Some(Switches { start_in_tray: *b, ..on }),
        OptField::CloseToTray(b) => Some(Switches { close_to_tray: *b, ..on }),
        OptField::HideTaskbar(b) => Some(Switches { hide_from_taskbar: *b, ..on }),
        OptField::PowerSave(b) => Some(Switches { power_save: *b, ..on }),
        OptField::GpuRender(b) => Some(Switches { gpu_render: *b, ..on }),
        OptField::Clipboard(b) => Some(Switches { monitor_clipboard: *b, ..on }),
        OptField::ExcDialog(b) => Some(Switches { show_exception_dialog: *b, ..on }),
        OptField::RememberLast(b) => Some(Switches { remember_last_dir: *b, ..on }),
        OptField::ServerDate(b) => Some(Switches { server_file_date: *b, ..on }),
        OptField::NoCatDirs(b) => Some(Switches { no_category_dirs: *b, ..on }),
        OptField::ShowFileInfo(b) => Some(Switches { show_file_info_dialog: *b, ..on }),
        OptField::BgDownload(b) => Some(Switches { bg_download: *b, ..on }),
        OptField::StartMinimized(b) => Some(Switches { start_minimized: *b, ..on }),
        OptField::SpeedTab(b) => Some(Switches { show_speed_tab: *b, ..on }),
        OptField::CompletionTab(b) => Some(Switches { show_completion_tab: *b, ..on }),
        OptField::HideButtons(b) => Some(Switches { show_hide_buttons: *b, ..on }),
        OptField::CompleteDialog(b) => Some(Switches { show_complete_dialog: *b, ..on }),
        OptField::RemoveCompleted(b) => Some(Switches { remove_completed: *b, ..on }),
        OptField::AdaptiveConns(b) => Some(Switches { adaptive_conns: *b, ..on }),
        OptField::WarnStop(b) => Some(Switches { warn_before_stop: *b, ..on }),
        OptField::ProxyHttp(b) => Some(Switches { proxy_http: *b, ..on }),
        OptField::ProxyHttps(b) => Some(Switches { proxy_https: *b, ..on }),
        OptField::ProxyFtp(b) => Some(Switches { proxy_ftp: *b, ..on }),
        OptField::FtpPasv(b) => Some(Switches { ftp_pasv: *b, ..on }),
        _ => None,
    }
}

// ----------------------------------------------------------------------- texts

/// The settings after an edit of a text, where the edit is of one.
pub open spec fn worded(s: SettingsModel, f: OptField) -> Option<SettingsModel> {
    match f {
        OptField::UserAgent(v) => Some(SettingsModel { user_agent: v@, ..s }),
        OptField::VirusScanner(v) => Some(SettingsModel { virus_scanner: v@, ..s }),
        OptField::VirusArgs(v) => Some(SettingsModel { virus_args: v@, ..s }),
        OptField::ProxyScript(v) => Some(SettingsModel { proxy_script: v@, ..s }),
        OptField::ProxyHost(v) => Some(SettingsModel { proxy_host: v@, ..s }),
        OptField::ProxyPort(v) => Some(SettingsModel { proxy_port: v@, ..s }),
        OptField::ProxyUser(v) => Some(SettingsModel { proxy_user: v@, ..s }),
        OptField::ProxyPass(v) => Some(SettingsModel { proxy_pass: v@, ..s }),
        OptField::AutoTypesEdit(v) => Some(SettingsModel { auto_types: v@, ..s }),
        OptField::SitesEdit(v) => Some(SettingsModel { dont_start_sites: v@, ..s }),
        OptField::VirusPicked(Some(p)) => Some(SettingsModel { virus_scanner: p@, ..s }),
        OptField::DlLimit(b) => Some(SettingsModel { dl_limit_enabled: b, ..s }),
        OptField::ProxyMode(m) => Some(SettingsModel { proxy_mode: m, ..s }),
        OptField::DefaultConns(n) => Some(SettingsModel { default_conns: n, ..s }),
        OptField::Browser(i, b) => Some(
            SettingsModel { capture_browsers: browser_set(s.capture_browsers, i as int, b), ..s },
        ),
        OptField::Sound(i, b) => Some(SettingsModel { sounds: sound_set(s.sounds, i as int, b), ..s }),
        OptField::SoundPicked(i, Some(p)) => Some(
            SettingsModel { sounds: sound_file(s.sounds, i as int, p@), ..s },
        ),
        _ => None,
    }
}

pub open spec fn browser_set(v: Seq<(Seq<char>, bool)>, i: int, b: bool) -> Seq<(Seq<char>, bool)> {
    if 0 <= i < v.len() {
        v.update(i, (v[i].0, b))
    } else {
        v
    }
}

pub open spec fn sound_set(v: Seq<SoundRowModel>, i: int, b: bool) -> Seq<SoundRowModel> {
    if 0 <= i < v.len() {
        v.update(i, SoundRowModel { enabled: b, ..v[i] })
    } else {
        v
    }
}

pub open spec fn sound_file(v: Seq<SoundRowModel>, i: int, file: Seq<char>) -> Seq<SoundRowModel> {
    if 0 <= i < v.len() {
        v.update(i, SoundRowModel { file, ..v[i] })
    } else {
        v
    }
}

fn set_browser(v: &mut Vec<(String, bool)>, i: usize, b: bool)
    ensures
        final(v).deep_view() == browser_set(old(v).deep_view(), i as int, b),
{
    let ghost before = v.deep_view();
    if i < v.len() {
        assert(before[i as int] == v@[i as int].deep_view());
        let name = v[i].0.clone();
        v.set(i, (name, b));
        assert(v.deep_view() =~= before.update(i as int, (before[i as int].0, b)));
    }
}

fn set_sound(v: &mut Vec<SoundRow>, i: usize, b: bool)
    ensures
        final(v).deep_view() == sound_set(old(v).deep_view(), i as int, b),
{
    let ghost before = v.deep_view();
    if i < v.len() {
        assert(before[i as int] == v@[i as int]@);
        v[i].enabled = b;
        assert(v.deep_view() =~= before.update(
            i as int,
            SoundRowModel { enabled: b, ..before[i as int] },
        ));
    }
}

fn set_sound_file(v: &mut Vec<SoundRow>, i: usize, file: String)
    ensures
        final(v).deep_view() == sound_file(old(v).deep_view(), i as int, file@),
{
    let ghost before = v.deep_view();
    if i < v.len() {
        assert(before[i as int] == v@[i as int]@);
        v[i].file = file;
        assert(v.deep_view() =~= before.update(
            i as int,
            SoundRowModel { file: file@, ..before[i as int] },
        ));
    }
}

/// Takes over an edit of the settings' own fields; hands back any other edit.
fn word(s: &mut Settings, f: OptField) -> (r: Option<OptField>)
    ensures
        match worded(old(s)@, f) {
            Some(t) => r is None && final(s)@ == t,
            None => r == Some(f) && final(s)@ == old(s)@,
        },
{
    match f {
        OptField::UserAgent(v) => {
            s.user_agent = v;
        },
        OptField::VirusScanner(v) => {
            s.virus_scanner = v;
        },
        OptField::VirusArgs(v) => {
            s.virus_args = v;
        },
        OptField::ProxyScript(v) => {
            s.proxy_script = v;
        },
        OptField::ProxyHost(v) => {
            s.proxy_host = v;
        },
        OptField::ProxyPort(v) => {
            s.proxy_port = v;
        },
        OptField::ProxyUser(v) => {
            s.proxy_user = v;
        },
        OptField::ProxyPass(v) => {
            s.proxy_pass = v;
        },
        OptField::AutoTypesEdit(v) => {
            s.auto_types = v;
        },
        OptField::SitesEdit(v) => {
            s.dont_start_sites = v;
        },
        OptField::VirusPicked(Some(p)) => {
            s.virus_scanner = p;
        },
        OptField::DlLimit(b) => {
            s.dl_limit_enabled = b;
        },
        OptField::ProxyMode(m) => {
            s.proxy_mode = m;
        },
        OptField::DefaultConns(n) => {
            s.default_conns = n;
        },
        OptField::Browser(i, b) => set_browser(&mut s.capture_browsers, i, b),
        OptField::Sound(i, b) => set_sound(&mut s.sounds, i, b),
        OptField::SoundPicked(i, Some(p)) => set_sound_file(&mut s.sounds, i, p),
        other => {
            return Some(other);
        },
    }
    None
}

// ----------------------------------------------------------------------- boxes

/// A number of connections as typed, within what a server is asked to bear.
pub open spec fn typed_conns(s: Seq<char>) -> usize {
    match spelled_up_to(trimmed(s), usize::MAX as int) {
        Some(n) => if n > 32 {
            32
        } else {
            n as usize
        },
        None => 0,
    }
}

impl OptionsStateModel {
    /// An exception to the number of connections is added, if both boxes say
    /// something.
    pub open spec fn add_exception(self) -> OptionsStateModel {
        let server = trimmed(self.conn_exc_server);
        let n = typed_conns(self.conn_exc_n);
        if server.len() > 0 && n > 0 {
            OptionsStateModel {
                draft: SettingsModel {
                    conn_exceptions: self.draft.conn_exceptions.push((server, n)),
                    ..self.draft
                },
                conn_exc_server: seq![],
                conn_exc_n: seq![],
                ..self
            }
        } else {
            self
        }
    }

    /// A login is picked out of the list into the boxes.
    pub open spec fn pick_login(self, i: int) -> OptionsStateModel {
        let s = OptionsStateModel { sel_login: Some(i as usize), ..self };
        if 0 <= i < self.draft.logins.len() {
            let l = self.draft.logins[i];
            OptionsStateModel { login_site: l.site, login_user: l.user, login_pass: l.pass, ..s }
        } else {
            s
        }
    }

    /// The login in the boxes is added.
    pub open spec fn add_login(self) -> OptionsStateModel {
        let site = trimmed(self.login_site);
        if site.len() > 0 {
            OptionsStateModel {
                draft: SettingsModel {
                    logins: self.draft.logins.push(
                        SiteLoginModel { site, user: self.login_user, pass: self.login_pass },
                    ),
                    ..self.draft
                },
                login_site: seq![],
                login_user: seq![],
                login_pass: seq![],
                ..self
            }
        } else {
            self
        }
    }

    /// The selected login is removed.
    pub open spec fn remove_login(self) -> OptionsStateModel {
        let s = OptionsStateModel { sel_login: None, ..self };
        match self.sel_login {
            Some(i) if i < self.draft.logins.len() => OptionsStateModel {
                draft: SettingsModel {
                    logins: self.draft.logins.remove(i as int),
                    ..self.draft
                },
                ..s
            },
            _ => s,
        }
    }

    /// The download limit was typed. The text keeps the digits; the draft takes
    /// them whenever they are a number, so that an empty box is a legal state.
    pub open spec fn type_limit(self, text: Seq<char>, hours: bool) -> OptionsStateModel {
        let v = digits_of(
            text,
            if hours {
                5
            } else {
                9
            },
        );
        let n = spelled_up_to(v, u64::MAX as int);
        if hours {
            OptionsStateModel {
                dl_limit_hours_txt: v,
                draft: SettingsModel {
                    dl_limit_hours: match n {
                        Some(n) => n,
                        None => self.draft.dl_limit_hours,
                    },
                    ..self.draft
                },
                ..self
            }
        } else {
            OptionsStateModel {
                dl_limit_mb_txt: v,
                draft: SettingsModel {
                    dl_limit_mb: match n {
                        Some(n) => n,
                        None => self.draft.dl_limit_mb,
                    },
                    ..self.draft
                },
                ..self
            }
        }
    }

    /// The selected category gets another folder.
    pub open spec fn set_cat_dir(self, dir: Seq<char>) -> OptionsStateModel {
        OptionsStateModel {
            draft_cats: with_category_dir(self.draft_cats, self.sel_category, dir),
            ..self
        }
    }

    /// The dialog after an edit of anything but a switch or a setting's own
    /// field.
    pub open spec fn boxed(self, f: OptField) -> OptionsStateModel {
        match f {
            OptField::ExcServer(v) => OptionsStateModel { conn_exc_server: v@, ..self },
            OptField::ExcConns(v) => OptionsStateModel { conn_exc_n: v@, ..self },
            OptField::SelCategory(v) => OptionsStateModel { sel_category: v@, ..self },
            OptField::LoginSite(v) => OptionsStateModel { login_site: v@, ..self },
            OptField::LoginUser(v) => OptionsStateModel { login_user: v@, ..self },
            OptField::LoginPass(v) => OptionsStateModel { login_pass: v@, ..self },
            OptField::DlLimitMb(v) => self.type_limit(v@, false),
            OptField::DlLimitHours(v) => self.type_limit(v@, true),
            OptField::ExcAdd => self.add_exception(),
            OptField::CatDir(v) => self.set_cat_dir(v@),
            OptField::CatDirPicked(Some(p)) => self.set_cat_dir(p@),
            OptField::LoginSel(i) => self.pick_login(i as int),
            OptField::LoginAdd => self.add_login(),
            OptField::LoginRemove => self.remove_login(),
            _ => self,
        }
    }

    /// The dialog after an edit.
    #[verifier::opaque]
    pub open spec fn edited(self, f: OptField) -> OptionsStateModel {
        match flipped(self.draft.on, f) {
            Some(on) => OptionsStateModel { draft: SettingsModel { on, ..self.draft }, ..self },
            None => match worded(self.draft, f) {
                Some(s) => OptionsStateModel { draft: s, ..self },
                None => self.boxed(f),
            },
        }
    }
}

fn add_exception(o: &mut OptionsState)
    ensures
        final(o)@ == old(o)@.add_exception(),
{
    let server = trim(&o.conn_exc_server);
    let n: u64 = match parse_number(&trim(&o.conn_exc_n), usize::MAX as u64) {
        Some(n) => n,
        None => 0,
    };
    if !server.as_str().is_empty() && n > 0 {
        let n: usize = if n > 32 {
            32
        } else {
            n as usize
        };
        let ghost before = o.draft.conn_exceptions.deep_view();
        o.draft.conn_exceptions.push((server, n));
        assert(o.draft.conn_exceptions.deep_view() =~= before.push((server@, n)));
        o.conn_exc_server = String::new();
        o.conn_exc_n = String::new();
    }
}

fn pick_login(o: &mut OptionsState, i: usize)
    ensures
        final(o)@ == old(o)@.pick_login(i as int),
{
    o.sel_login = Some(i);
    if i < o.draft.logins.len() {
        assert(o.draft.logins.deep_view()[i as int] == o.draft.logins@[i as int]@);
        o.login_site = o.draft.logins[i].site.clone();
        o.login_user = o.draft.logins[i].user.clone();
        o.login_pass = o.draft.logins[i].pass.clone();
    }
}

fn add_login(o: &mut OptionsState)
    ensures
        final(o)@ == old(o)@.add_login(),
{
    let site = trim(&o.login_site);
    if !site.as_str().is_empty() {
        let l = SiteLogin { site, user: o.login_user.clone(), pass: o.login_pass.clone() };
        let ghost before = o.draft.logins.deep_view();
        o.draft.logins.push(l);
        assert(o.draft.logins.deep_view() =~= before.push(l@));
        o.login_site = String::new();
        o.login_user = String::new();
        o.login_pass = String::new();
    }
}

fn remove_login(o: &mut OptionsState)
    ensures
        final(o)@ == old(o)@.remove_login(),
{
    if let Some(i) = o.sel_login {
        if i < o.draft.logins.len() {
            let ghost before = o.draft.logins.deep_view();
            let gone = o.draft.logins.remove(i);
            assert(o.draft.logins.deep_view() =~= before.remove(i as int));
        }
    }
    o.sel_login = None;
}

fn type_limit(o: &mut OptionsState, text: &str, hours: bool)
    ensures
        final(o)@ == old(o)@.type_limit(text@, hours),
{
    if hours {
        let v = keep_digits(text, 5);
        if let Some(n) = parse_number(&v, u64::MAX) {
            o.draft.dl_limit_hours = n;
        }
        o.dl_limit_hours_txt = v;
    } else {
        let v = keep_digits(text, 9);
        if let Some(n) = parse_number(&v, u64::MAX) {
            o.draft.dl_limit_mb = n;
        }
        o.dl_limit_mb_txt = v;
    }
}

fn set_cat_dir(o: &mut OptionsState, dir: &str)
    ensures
        final(o)@ == old(o)@.set_cat_dir(dir@),
{
    let name = o.sel_category.clone();
    let found = set_category_dir(&mut o.draft_cats, &name, dir);
}

fn fill_box(o: &mut OptionsState, f: OptField)
    ensures
        final(o)@ == old(o)@.boxed(f),
{
    match f {
        OptField::ExcServer(v) => {
            o.conn_exc_server = v;
        },
        OptField::ExcConns(v) => {
            o.conn_exc_n = v;
        },
        OptField::SelCategory(v) => {
            o.sel_category = v;
        },
        OptField::LoginSite(v) => {
            o.login_site = v;
        },
        OptField::LoginUser(v) => {
            o.login_user = v;
        },
        OptField::LoginPass(v) => {
            o.login_pass = v;
        },
        OptField::DlLimitMb(v) => type_limit(o, &v, false),
        OptField::DlLimitHours(v) => type_limit(o, &v, true),
        OptField::ExcAdd => add_exception(o),
        OptField::CatDir(v) => set_cat_dir(o, &v),
        OptField::CatDirPicked(Some(p)) => set_cat_dir(o, &p),
        OptField::LoginSel(i) => pick_login(o, i),
        OptField::LoginAdd => add_login(o),
        OptField::LoginRemove => remove_login(o),
        _ => {},
    }
}

/// One edit of the dialog.
pub fn edit_options(o: &mut OptionsState, f: OptField)
    ensures
        final(o)@ == old(o)@.edited(f),
{
    proof {
        reveal(OptionsStateModel::edited);
    }
    match flip(o.draft.on, &f) {
        Some(on) => {
            o.draft.on = on;
        },
        None => {
            if let Some(other) = word(&mut o.draft, f) {
                fill_box(o, other);
            }
        },
    }
}

// ------------------------------------------------------------------------- app

impl AppModel {
    pub open spec fn with_options(self, o: OptionsStateModel) -> AppModel {
        AppModel { options: o, ..self }
    }

    /// What an edit asks for besides changing the draft.
    pub open spec fn opt_request(self, f: OptField) -> AppModel {
        match f {
            OptField::PowerSave(b) => self.tell(CmdModel::SetPowerSave(b)),
            OptField::BrowseVirus => self.emit(EffectModel::Pick(PickModel::Virus)),
            OptField::BrowseCatDir => self.emit(EffectModel::Pick(PickModel::CategoryDir)),
            OptField::SoundBrowse(i) => self.emit(EffectModel::Pick(PickModel::Sound(i))),
            OptField::SoundPlay(i) => self.try_sound(i as int),
            _ => self,
        }
    }

    /// The sound of a row plays, whether or not it is switched on.
    pub open spec fn try_sound(self, i: int) -> AppModel {
        let rows = self.options.draft.sounds;
        if 0 <= i < rows.len() {
            self.emit(
                EffectModel::Play {
                    file: if rows[i].file.len() > 0 {
                        Some(rows[i].file)
                    } else {
                        None
                    },
                    event: sounds::Event::at(i),
                },
            )
        } else {
            self
        }
    }

    #[verifier::opaque]
    pub open spec fn on_opt_field(self, f: OptField) -> AppModel {
        self.opt_request(f).with_options(self.options.edited(f))
    }

    /// The dialog opens on a fresh draft of the stored settings.
    #[verifier::opaque]
    pub open spec fn open_options(self, tab: Option<OptTab>) -> AppModel {
        self.with_options(
            OptionsStateModel {
                draft: self.cfg.settings,
                draft_cats: self.cfg.categories,
                sel_category: "General"@,
                dl_limit_mb_txt: decimal(self.cfg.settings.dl_limit_mb as nat),
                dl_limit_hours_txt: decimal(self.cfg.settings.dl_limit_hours as nat),
                tab: match tab {
                    Some(t) => t,
                    None => self.options.tab,
                },
                ..self.options
            },
        ).open_window(WinKind::Options)
    }

    pub open spec fn skip_taskbars(self, hide: bool) -> Seq<EffectModel> {
        Seq::new(
            self.windows.len(),
            |i: int| EffectModel::SkipTaskbar(self.windows[i].id, hide),
        )
    }

    pub open spec fn take_draft(self) -> AppModel {
        AppModel {
            cfg: ConfigFileModel {
                settings: self.options.draft,
                categories: self.options.draft_cats,
                ..self.cfg
            },
            ..self
        }
    }

    /// The draft becomes the settings, and everything that shows them follows.
    #[verifier::opaque]
    pub open spec fn opt_ok(self) -> AppModel {
        let s = self.take_draft().save_config();
        let on = s.cfg.settings.on;
        s.emit(EffectModel::DockSync { hide: on.hide_from_taskbar, windows: true }).emit(
            EffectModel::ApplyAutostart { launch: on.launch_on_startup, tray: on.start_in_tray },
        ).emit_all(s.skip_taskbars(on.hide_from_taskbar)).close_window(WinKind::Options)
    }
}

impl App {
    fn take_options(&mut self) -> (r: OptionsState)
        ensures
            r@ == old(self)@.options,
            final(self)@ == old(self)@.with_options(OptionsStateModel::empty()),
    {
        proof {
            reveal(App::model);
        }
        let mut r = OptionsState::default();
        core::mem::swap(&mut r, &mut self.options);
        r
    }

    fn put_options(&mut self, o: OptionsState)
        ensures
            final(self)@ == old(self)@.with_options(o@),
    {
        proof {
            reveal(App::model);
        }
        self.options = o;
    }

    fn draft_sound(&self, i: usize) -> (r: Option<Option<String>>)
        ensures
            match r {
                Some(f) => i < self@.options.draft.sounds.len() && f.deep_view() == (
                if self@.options.draft.sounds[i as int].file.len() > 0 {
                    Some(self@.options.draft.sounds[i as int].file)
                } else {
                    None
                }),
                None => i >= self@.options.draft.sounds.len(),
            },
    {
        proof {
            reveal(App::model);
        }
        let rows = &self.options.draft.sounds;
        if i < rows.len() {
            if rows[i].file.as_str().is_empty() {
                Some(None)
            } else {
                Some(Some(rows[i].file.clone()))
            }
        } else {
            None
        }
    }

    fn opt_request(&mut self, f: &OptField)
        ensures
            final(self)@ == old(self)@.opt_request(*f),
    {
        match f {
            OptField::PowerSave(b) => self.tell(Cmd::SetPowerSave(*b)),
            OptField::BrowseVirus => self.emit(Effect::Pick(Pick::Virus)),
            OptField::BrowseCatDir => self.emit(Effect::Pick(Pick::CategoryDir)),
            OptField::SoundBrowse(i) => self.emit(Effect::Pick(Pick::Sound(*i))),
            OptField::SoundPlay(i) => {
                if let Some(file) = self.draft_sound(*i) {
                    self.emit(Effect::Play { file, event: sounds::Event::from_index(*i) });
                }
            },
            _ => {},
        }
    }

    /// One edit of the Options dialog.
    pub fn on_opt_field(&mut self, f: OptField)
        ensures
            final(self)@ == old(self)@.on_opt_field(f),
    {
        proof {
            reveal(AppModel::on_opt_field);
        }
        self.opt_request(&f);
        let mut o = self.take_options();
        edit_options(&mut o, f);
        self.put_options(o);
    }

    fn settings_copy(&self) -> (r: (Settings, Vec<CategoryDef>))
        ensures
            r.0@ == self@.cfg.settings,
            r.1.deep_view() == self@.cfg.categories,
    {
        proof {
            reveal(App::model);
        }
        (self.cfg.settings.twin(), self.cfg.categories.twin())
    }

    /// Open the Options dialog; `tab` forces a page, otherwise the last one
    /// visited comes up.
    pub(crate) fn open_options(&mut self, tab: Option<OptTab>)
        ensures
            final(self)@ == old(self)@.open_options(tab),
    {
        proof {
            reveal(AppModel::open_options);
        }
        let (draft, cats) = self.settings_copy();
        let mut o = self.take_options();
        o.dl_limit_mb_txt = number(draft.dl_limit_mb);
        o.dl_limit_hours_txt = number(draft.dl_limit_hours);
        o.draft = draft;
        o.draft_cats = cats;
        o.sel_category = "General".to_owned();
        if let Some(t) = tab {
            o.tab = t;
        }
        self.put_options(o);
        self.open_window(WinKind::Options);
    }

    fn take_draft(&mut self)
        ensures
            final(self)@ == old(self)@.take_draft(),
    {
        proof {
            reveal(App::model);
        }
        self.cfg.settings = self.options.draft.twin();
        self.cfg.categories = self.options.draft_cats.twin();
    }

    pub(crate) fn skip_taskbars(&self, hide: bool) -> (r: Vec<Effect>)
        ensures
            r.deep_view() == self@.skip_taskbars(hide),
    {
        proof {
            reveal(App::model);
        }
        let ws = &self.windows;
        let mut r: Vec<Effect> = Vec::new();
        let mut i: usize = 0;
        while i < ws.len()
            invariant
                i <= ws@.len(),
                r@.len() == i,
                forall|k: int|
                    0 <= k < i ==> (#[trigger] r@[k])@ == EffectModel::SkipTaskbar(ws@[k].id, hide),
            decreases ws.len() - i,
        {
            r.push(Effect::SkipTaskbar(ws[i].id, hide));
            i += 1;
        }
        assert(r.deep_view() =~= self@.skip_taskbars(hide));
        r
    }

    pub(crate) fn opt_ok(&mut self)
        ensures
            final(self)@ == old(self)@.opt_ok(),
    {
        proof {
            reveal(AppModel::opt_ok);
        }
        self.take_draft();
        self.save_config();
        let on = self.switches();
        let marks = self.skip_taskbars(on.hide_from_taskbar);
        self.emit(Effect::DockSync { hide: on.hide_from_taskbar, windows: true });
        self.emit(Effect::ApplyAutostart { launch: on.launch_on_startup, tray: on.start_in_tray });
        self.emit_all(marks);
        self.close_window(WinKind::Options);
    }
}

// ---------------------------------------------------------------------- laws

/// The settings change only when the dialog is confirmed: an edit touches the
/// draft, never the settings or the categories in use.
pub proof fn edits_touch_the_draft_only(s: AppModel, f: OptField)
    ensures
        s.on_opt_field(f).cfg == s.cfg,
        s.on_opt_field(f).state == s.state,
{
    reveal(AppModel::on_opt_field);
}

/// Confirming the dialog right after opening it leaves the settings as they are.
pub proof fn opening_and_confirming_changes_no_setting(s: AppModel, tab: Option<OptTab>)
    ensures
        s.open_options(tab).opt_ok().cfg.settings == s.cfg.settings,
        s.open_options(tab).opt_ok().cfg.categories == s.cfg.categories,
{
    reveal(AppModel::open_options);
    reveal(AppModel::opt_ok);
    reveal(AppModel::open_window);
    reveal(AppModel::close_window);
    reveal(AppModel::close_file_info_windows);
}

} // verus!
