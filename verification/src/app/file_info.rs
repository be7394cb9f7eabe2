//! The File Info dialog: what it opens with, and what its buttons do.
use crate::app::transfers::is_active;
use crate::app::{App, AppModel, Env, EnvModel};
use crate::downloads::item_of;
use crate::edits::{set_queue, set_saved, to_queue, to_saved};
use crate::effect::{Effect, EffectModel, ProbeUse};
use crate::engine::{parse_url, url_parts, Cmd, CmdModel};
use crate::model::{
    category_index, set_category_dir, with_category_dir, DlId, DlState, DownloadItem,
    DownloadItemModel,
};
use crate::notes::{Note, NoteModel};
use crate::rules::{auto_start_type, host_blocked, site_blocked, type_may_start};
use crate::state::{
    FileInfoState, FileInfoStateModel, WinKind, ZipPeek, ZipPeekModel, ZipPreviewState,
    ZipPreviewStateModel,
};
use crate::text::{same, trim, trimmed};
use crate::twin::Twin;
use vstd::prelude::*;

verus! {

// ----------------------------------------------------------------- opening it

pub open spec fn or_text(t: Option<Seq<char>>, other: Seq<char>) -> Seq<char> {
    match t {
        Some(t) => t,
        None => other,
    }
}

fn text_or(t: &Option<String>, other: &str) -> (r: String)
    ensures
        r@ == or_text(t.deep_view(), other@),
{
    match t {
        Some(t) => t.clone(),
        None => other.to_owned(),
    }
}

/// The dialog as Properties of a row.
pub open spec fn properties_of(d: DownloadItemModel) -> FileInfoStateModel {
    FileInfoStateModel {
        dl: d.id,
        category: or_text(d.category, "General"@),
        save_dir: d.save_dir,
        file_name: d.file_name,
        description: d.description,
        url: d.url,
        login: match d.auth {
            Some((u, p)) => u,
            None => seq![],
        },
        password: match d.auth {
            Some((u, p)) => p,
            None => seq![],
        },
        cookies: or_text(d.cookies, seq![]),
        ..FileInfoStateModel::empty()
    }
}

/// The dialog for a new download.
pub open spec fn new_info_of(d: DownloadItemModel, blocked: bool) -> FileInfoStateModel {
    FileInfoStateModel {
        description: seq![],
        is_new: true,
        bg_blocked: blocked,
        ..properties_of(d)
    }
}

/// The dialog for a renamed copy: the name is already the user's.
pub open spec fn copy_info_of(d: DownloadItemModel, blocked: bool) -> FileInfoStateModel {
    FileInfoStateModel {
        login: seq![],
        password: seq![],
        cookies: seq![],
        name_touched: true,
        ..new_info_of(d, blocked)
    }
}

fn properties(d: &DownloadItem) -> (r: FileInfoState)
    ensures
        r@ == properties_of(d@),
{
    let (login, password) = match &d.auth {
        Some((u, p)) => (u.clone(), p.clone()),
        None => (String::new(), String::new()),
    };
    let cookies = text_or(&d.cookies, "");
    proof {
        reveal_strlit("");
        assert(""@ =~= seq![]);
    }
    FileInfoState {
        dl: d.id,
        category: text_or(&d.category, "General"),
        save_dir: d.save_dir.clone(),
        file_name: d.file_name.clone(),
        description: d.description.clone(),
        remember: false,
        url: d.url.clone(),
        login,
        password,
        cookies,
        is_new: false,
        bg_blocked: false,
        name_touched: false,
        cat_touched: false,
        dir_touched: false,
    }
}

pub(crate) fn new_info(d: &DownloadItem, blocked: bool) -> (r: FileInfoState)
    ensures
        r@ == new_info_of(d@, blocked),
{
    let mut fi = properties(d);
    fi.description = String::new();
    fi.is_new = true;
    fi.bg_blocked = blocked;
    fi
}

pub(crate) fn copy_info(d: &DownloadItem, blocked: bool) -> (r: FileInfoState)
    ensures
        r@ == copy_info_of(d@, blocked),
{
    let mut fi = new_info(d, blocked);
    fi.login = String::new();
    fi.password = String::new();
    fi.cookies = String::new();
    fi.name_touched = true;
    fi
}

impl AppModel {
    pub open spec fn selected_item(self) -> Option<DownloadItemModel> {
        if self.list.selected.len() > 0 {
            item_of(self.items(), self.list.selected[0])
        } else {
            None
        }
    }

    /// The properties of the selected row come up.
    #[verifier::opaque]
    pub open spec fn show_properties(self) -> AppModel {
        match self.selected_item() {
            Some(d) => self.with_file_info(properties_of(d)).open_window(WinKind::FileInfo(d.id)),
            None => self,
        }
    }

    /// May this new download start on its own behind the dialog? Only for a
    /// listed file type, and for a host that is not on the sites list.
    #[verifier::opaque]
    pub open spec fn may_auto_start(self, id: DlId) -> bool {
        match item_of(self.items(), id) {
            Some(d) => type_may_start(d.file_name, d.url, self.cfg.settings.auto_types)
                && !host_blocked(d.url, self.cfg.settings.dont_start_sites),
            None => false,
        }
    }

    /// The probe of a row that is not being downloaded yet.
    pub open spec fn info_probe(self, id: DlId) -> EffectModel {
        let d = item_of(self.items(), id);
        EffectModel::ProbeLink {
            what: ProbeUse::Info(id),
            url: match d {
                Some(d) => d.url,
                None => seq![],
            },
            user_agent: self.cfg.settings.user_agent,
            auth: match d {
                Some(d) => d.auth,
                None => None,
            },
            cookies: match d {
                Some(d) => d.cookies,
                None => None,
            },
            referer: match d {
                Some(d) => d.referer,
                None => None,
            },
        }
    }

    /// What runs behind the dialog of a new download: the transfer itself
    /// where that may start on its own, otherwise a plain probe, so that the
    /// real name and size are found out either way.
    #[verifier::opaque]
    pub open spec fn file_info_prefetch(self, id: DlId, env: EnvModel) -> AppModel {
        if self.cfg.settings.on.bg_download && self.may_auto_start(id) {
            self.start_download(id, false, env)
        } else {
            self.emit(self.info_probe(id))
        }
    }
}

impl App {
    pub fn selected_item(&self) -> (r: Option<&DownloadItem>)
        ensures
            match r {
                Some(d) => self@.selected_item() == Some(d@),
                None => self@.selected_item() is None,
            },
    {
        proof {
            reveal(App::model);
        }
        if self.list.selected.len() > 0 {
            self.item(self.list.selected[0])
        } else {
            None
        }
    }

    pub(crate) fn show_properties(&mut self)
        ensures
            final(self)@ == old(self)@.show_properties(),
    {
        proof {
            reveal(AppModel::show_properties);
        }
        let fi = match self.selected_item() {
            Some(d) => properties(d),
            None => return ,
        };
        let id = fi.dl;
        self.set_file_info(fi);
        self.open_window(WinKind::FileInfo(id));
    }

    fn site_lists(&self) -> (r: (String, String))
        ensures
            r.0@ == self@.cfg.settings.auto_types,
            r.1@ == self@.cfg.settings.dont_start_sites,
    {
        proof {
            reveal(App::model);
        }
        (self.cfg.settings.auto_types.clone(), self.cfg.settings.dont_start_sites.clone())
    }

    pub(crate) fn may_auto_start(&self, id: DlId) -> (r: bool)
        ensures
            r == self@.may_auto_start(id),
    {
        proof {
            reveal(AppModel::may_auto_start);
        }
        let (types, sites) = self.site_lists();
        match self.item(id) {
            Some(d) => auto_start_type(&d.file_name, &d.url, &types) && !site_blocked(
                &d.url,
                &sites,
            ),
            None => false,
        }
    }

    fn downloads_behind(&self) -> (r: bool)
        ensures
            r == self@.cfg.settings.on.bg_download,
    {
        proof {
            reveal(App::model);
        }
        self.cfg.settings.on.bg_download
    }

    fn info_probe(&self, id: DlId) -> (r: Effect)
        ensures
            r@ == self@.info_probe(id),
    {
        let user_agent = self.user_agent();
        match self.item(id) {
            Some(d) => Effect::ProbeLink {
                what: ProbeUse::Info(id),
                url: d.url.clone(),
                user_agent,
                auth: d.auth.twin(),
                cookies: d.cookies.twin(),
                referer: d.referer.twin(),
            },
            None => Effect::ProbeLink {
                what: ProbeUse::Info(id),
                url: String::new(),
                user_agent,
                auth: None,
                cookies: None,
                referer: None,
            },
        }
    }

    pub(crate) fn file_info_prefetch(&mut self, id: DlId, env: &Env)
        ensures
            final(self)@ == old(self)@.file_info_prefetch(id, env@),
    {
        proof {
            reveal(AppModel::file_info_prefetch);
        }
        if self.downloads_behind() && self.may_auto_start(id) {
            self.start_download(id, false, env);
        } else {
            let probe = self.info_probe(id);
            self.emit(probe);
        }
    }
}

// -------------------------------------------------------------- its edit boxes

impl FileInfoStateModel {
    /// Another category was chosen. Its folder follows, unless the user has
    /// edited the folder.
    pub open spec fn set_category(self, c: Seq<char>, dir: Option<Seq<char>>) -> FileInfoStateModel {
        FileInfoStateModel {
            category: c,
            cat_touched: true,
            save_dir: match dir {
                Some(p) if !self.dir_touched => p,
                _ => self.save_dir,
            },
            ..self
        }
    }
}

impl AppModel {
    #[verifier::opaque]
    pub open spec fn fi_category(self, c: Seq<char>) -> AppModel {
        self.with_file_info(self.file_info.set_category(c, self.cat_dir(Some(c))))
    }

    /// "Download in background" was ticked or unticked by hand.
    #[verifier::opaque]
    pub open spec fn fi_bg_toggle(self, b: bool, env: EnvModel) -> AppModel {
        let s = self.set_bg_download(b).save_config();
        if s.file_info.is_new {
            let dl = s.file_info.dl;
            let t = s.with_file_info(FileInfoStateModel { bg_blocked: false, ..s.file_info });
            if b && !is_active(t.items(), dl) {
                t.start_download(dl, false, env)
            } else if !b && is_active(t.items(), dl) {
                t.stop_download(dl)
            } else {
                t
            }
        } else {
            s
        }
    }

    #[verifier::opaque]
    pub open spec fn set_bg_download(self, b: bool) -> AppModel {
        self.with_switches(crate::model::Switches { bg_download: b, ..self.cfg.settings.on })
    }
}

impl App {
    pub(crate) fn fi_category(&mut self, c: String)
        ensures
            final(self)@ == old(self)@.fi_category(c@),
    {
        proof {
            reveal(AppModel::fi_category);
        }
        let dir = self.cat_dir(Some(c.as_str()));
        let mut fi = self.file_info_copy();
        if let Some(p) = dir {
            if !fi.dir_touched {
                fi.save_dir = p;
            }
        }
        fi.category = c;
        fi.cat_touched = true;
        self.set_file_info(fi);
    }

    fn unblock_info(&mut self)
        ensures
            final(self)@ == old(self)@.with_file_info(
                (FileInfoStateModel { bg_blocked: false, ..old(self)@.file_info }),
            ),
    {
        let mut fi = self.file_info_copy();
        fi.bg_blocked = false;
        self.set_file_info(fi);
    }

    fn set_bg_download(&mut self, b: bool)
        ensures
            final(self)@ == old(self)@.set_bg_download(b),
    {
        proof {
            reveal(AppModel::set_bg_download);
        }
        let on = self.switches();
        self.set_switches(crate::model::Switches { bg_download: b, ..on });
    }

    pub(crate) fn fi_bg_toggle(&mut self, b: bool, env: &Env)
        ensures
            final(self)@ == old(self)@.fi_bg_toggle(b, env@),
    {
        proof {
            reveal(AppModel::fi_bg_toggle);
        }
        self.set_bg_download(b);
        self.save_config();
        let fi = self.file_info_copy();
        if fi.is_new {
            let dl = fi.dl;
            self.unblock_info();
            let active = self.item_active(dl);
            if b && !active {
                self.start_download(dl, false, env);
            } else if !b && active {
                self.stop_download(dl);
            }
        }
    }
}

// ------------------------------------------------------------------ its buttons

impl AppModel {
    /// The folder the dialog stands for: a bare file name keeps the folder the
    /// row already has, or else the category's.
    pub open spec fn info_dir(self) -> Seq<char> {
        let fi = self.file_info;
        if trimmed(fi.save_dir).len() > 0 {
            fi.save_dir
        } else {
            match item_of(self.items(), fi.dl) {
                Some(d) if d.save_dir.len() > 0 => d.save_dir,
                _ => or_text(self.cat_dir(Some(fi.category)), seq![]),
            }
        }
    }

    /// The dialog with its folder filled in.
    pub open spec fn settled_info(self) -> FileInfoStateModel {
        FileInfoStateModel { save_dir: self.info_dir(), ..self.file_info }
    }

    /// The category whose folder "Remember this folder" writes: the named one,
    /// or the first one while category folders are switched off.
    pub open spec fn remember_target(self, fi: FileInfoStateModel) -> Option<Seq<char>> {
        if self.cfg.settings.on.no_category_dirs {
            if self.cfg.categories.len() > 0 {
                Some(self.cfg.categories[0].name)
            } else {
                None
            }
        } else {
            Some(fi.category)
        }
    }

    pub open spec fn remember_dir(self, fi: FileInfoStateModel) -> AppModel {
        match self.remember_target(fi) {
            Some(n) if fi.remember && fi.save_dir.len() > 0 => self.store_category_dir(
                n,
                fi.save_dir,
            ),
            _ => self,
        }
    }

    pub open spec fn store_category_dir(self, name: Seq<char>, dir: Seq<char>) -> AppModel {
        let s = self.with_categories(with_category_dir(self.cfg.categories, name, dir));
        if category_index(self.cfg.categories, name) < self.cfg.categories.len() {
            s.save_config()
        } else {
            s
        }
    }

    /// Whether the dialog names another address that can be fetched.
    pub open spec fn url_changed(self, fi: FileInfoStateModel) -> bool {
        match item_of(self.items(), fi.dl) {
            Some(d) => trimmed(fi.url).len() > 0 && d.url != trimmed(fi.url) && url_parts(
                trimmed(fi.url),
            ) is Ok,
            None => false,
        }
    }

    /// A running transfer from the old address is stopped.
    pub open spec fn stop_mirror(self, fi: FileInfoStateModel) -> AppModel {
        if self.url_changed(fi) {
            let s = self.note(NoteModel::Mirror { id: fi.dl, url: trimmed(fi.url) });
            if is_active(s.items(), fi.dl) {
                s.tell(CmdModel::Stop(fi.dl))
            } else {
                s
            }
        } else {
            self
        }
    }

    /// The running transfer is aimed at the edited destination; a file that
    /// has already landed is moved there.
    pub open spec fn aim_info(self, id: DlId, old_path: Option<Seq<char>>) -> AppModel {
        match item_of(self.items(), id) {
            Some(d) => {
                let s = self.aim(id);
                match old_path {
                    Some(from) if d.state == DlState::Complete && from != d.full_path() => s.emit(
                        EffectModel::MoveFile { from, to: d.full_path(), provisional: None },
                    ),
                    _ => s,
                }
            },
            None => self,
        }
    }

    pub open spec fn path_of_row(self, id: DlId) -> Option<Seq<char>> {
        match item_of(self.items(), id) {
            Some(d) => Some(d.full_path()),
            None => None,
        }
    }

    /// What the dialog says goes into the row, and the dialog closes.
    #[verifier::opaque]
    pub open spec fn store_info(self, fi: FileInfoStateModel) -> AppModel {
        self.remember_dir(fi).stop_mirror(fi).edit_item(
            fi.dl,
            to_saved(fi, self.url_changed(fi)),
        ).aim_info(fi.dl, self.path_of_row(fi.dl)).save_state().close_file_info_windows()
    }

    /// Start Download: a transfer that already runs behind the dialog shows its
    /// progress; otherwise the download starts.
    pub open spec fn after_start(self, id: DlId, env: EnvModel) -> AppModel {
        match item_of(self.items(), id) {
            Some(d) if d.state.active() => self.show_progress(id, d.speed_limit),
            _ => self.start_download(id, true, env),
        }
    }

    /// Download Later: a transfer that runs behind the dialog is parked, and
    /// the row waits for its queue.
    pub open spec fn after_later(self, id: DlId) -> AppModel {
        match item_of(self.items(), id) {
            Some(d) if d.state.active() => self.stop_download(id).file_in_first(id),
            Some(d) if d.state == DlState::Paused => self.set_item_state(
                id,
                DlState::Queued,
            ).save_state(),
            _ => self.save_state(),
        }
    }

    /// A row without a queue is filed under the first one.
    pub open spec fn file_in_first(self, id: DlId) -> AppModel {
        match item_of(self.items(), id) {
            Some(d) if d.queue is None => self.edit_item(id, to_queue(self.first_queue())),
            _ => self,
        }
    }

    #[verifier::opaque]
    pub open spec fn fi_start(self, env: EnvModel) -> AppModel {
        self.store_info(self.settled_info()).after_start(self.file_info.dl, env)
    }

    #[verifier::opaque]
    pub open spec fn fi_later(self) -> AppModel {
        self.store_info(self.settled_info()).after_later(self.file_info.dl)
    }

    /// Cancel: a new download goes away with its staged data, and with the
    /// finished file too where the transfer beat the user to it.
    #[verifier::opaque]
    pub open spec fn fi_cancel(self, ms: u64) -> AppModel {
        let fi = self.file_info;
        let s = self.close_file_info_windows();
        if fi.is_new {
            let done = item_of(s.items(), fi.dl) matches Some(d) && d.state == DlState::Complete;
            s.delete_item_opts(fi.dl, done, ms)
        } else {
            s
        }
    }
}

impl App {
    fn settled_info(&self) -> (r: FileInfoState)
        ensures
            r@ == self@.settled_info(),
    {
        let mut fi = self.file_info_copy();
        if !trim(&fi.save_dir).as_str().is_empty() {
            return fi;
        }
        let own = match self.item(fi.dl) {
            Some(d) => if d.save_dir.as_str().is_empty() {
                None
            } else {
                Some(d.save_dir.clone())
            },
            None => None,
        };
        let dir = match own {
            Some(d) => d,
            None => match self.cat_dir(Some(fi.category.as_str())) {
                Some(p) => p,
                None => String::new(),
            },
        };
        fi.save_dir = dir;
        fi
    }

    fn remember_target(&self, fi: &FileInfoState) -> (r: Option<String>)
        ensures
            r.deep_view() == self@.remember_target(fi@),
    {
        proof {
            reveal(App::model);
        }
        if self.cfg.settings.on.no_category_dirs {
            if self.cfg.categories.len() > 0 {
                assert(self.cfg.categories.deep_view()[0] == self.cfg.categories@[0]@);
                Some(self.cfg.categories[0].name.clone())
            } else {
                None
            }
        } else {
            Some(fi.category.clone())
        }
    }

    fn store_category_dir(&mut self, name: &String, dir: &String)
        ensures
            final(self)@ == old(self)@.store_category_dir(name@, dir@),
    {
        let mut v = self.take_categories();
        let found = set_category_dir(&mut v, name, dir);
        self.put_categories(v);
        if found {
            self.save_config();
        }
    }

    fn remember_dir(&mut self, fi: &FileInfoState)
        ensures
            final(self)@ == old(self)@.remember_dir(fi@),
    {
        if fi.remember && !fi.save_dir.as_str().is_empty() {
            if let Some(n) = self.remember_target(fi) {
                self.store_category_dir(&n, &fi.save_dir);
            }
        }
    }

    fn url_changed(&self, fi: &FileInfoState) -> (r: bool)
        ensures
            r == self@.url_changed(fi@),
    {
        let url = trim(&fi.url);
        match self.item(fi.dl) {
            Some(d) => !url.as_str().is_empty() && !same(&d.url, &url) && parse_url(&url).is_ok(),
            None => false,
        }
    }

    fn stop_mirror(&mut self, fi: &FileInfoState)
        ensures
            final(self)@ == old(self)@.stop_mirror(fi@),
    {
        if self.url_changed(fi) {
            self.note(Note::Mirror { id: fi.dl, url: trim(&fi.url) });
            if self.item_active(fi.dl) {
                self.tell(Cmd::Stop(fi.dl));
            }
        }
    }

    fn edit_saved(&mut self, fi: &FileInfoState, changed: bool)
        ensures
            final(self)@ == old(self)@.edit_item(fi@.dl, to_saved(fi@, changed)),
    {
        let mut v = self.take_items();
        set_saved(&mut v, fi.dl, fi, changed);
        self.put_items(v);
    }

    fn path_of_row(&self, id: DlId) -> (r: Option<String>)
        ensures
            r.deep_view() == self@.path_of_row(id),
    {
        match self.item(id) {
            Some(d) => Some(d.full_path()),
            None => None,
        }
    }

    fn aim_info(&mut self, id: DlId, old_path: Option<String>)
        ensures
            final(self)@ == old(self)@.aim_info(id, old_path.deep_view()),
    {
        let (st, to) = match self.item(id) {
            Some(d) => (d.state, d.full_path()),
            None => return ,
        };
        self.aim(id);
        if let Some(from) = old_path {
            if st == DlState::Complete && !same(&from, &to) {
                self.emit(Effect::MoveFile { from, to, provisional: None });
            }
        }
    }

    fn store_info(&mut self, fi: &FileInfoState)
        ensures
            final(self)@ == old(self)@.store_info(fi@),
    {
        proof {
            reveal(AppModel::store_info);
        }
        let changed = self.url_changed(fi);
        let old_path = self.path_of_row(fi.dl);
        self.remember_dir(fi);
        self.stop_mirror(fi);
        self.edit_saved(fi, changed);
        self.aim_info(fi.dl, old_path);
        self.save_state();
        self.close_file_info_windows();
    }

    fn after_start(&mut self, id: DlId, env: &Env)
        ensures
            final(self)@ == old(self)@.after_start(id, env@),
    {
        let running = match self.item(id) {
            Some(d) => if d.state.is_active() {
                Some(d.speed_limit)
            } else {
                None
            },
            None => None,
        };
        match running {
            Some(limit) => self.show_progress(id, limit),
            None => self.start_download(id, true, env),
        }
    }

    fn file_in_first(&mut self, id: DlId)
        ensures
            final(self)@ == old(self)@.file_in_first(id),
    {
        let free = match self.item(id) {
            Some(d) => d.queue.is_none(),
            None => false,
        };
        if free {
            let q = self.first_queue();
            let mut v = self.take_items();
            set_queue(&mut v, id, q);
            self.put_items(v);
        }
    }

    fn after_later(&mut self, id: DlId)
        ensures
            final(self)@ == old(self)@.after_later(id),
    {
        let (active, paused) = match self.item(id) {
            Some(d) => (d.state.is_active(), d.state == DlState::Paused),
            None => (false, false),
        };
        if active {
            self.stop_download(id);
            self.file_in_first(id);
        } else {
            if paused {
                self.set_item_state(id, DlState::Queued);
            }
            self.save_state();
        }
    }

    pub(crate) fn fi_start(&mut self, env: &Env)
        ensures
            final(self)@ == old(self)@.fi_start(env@),
    {
        proof {
            reveal(AppModel::fi_start);
        }
        let fi = self.settled_info();
        self.store_info(&fi);
        self.after_start(fi.dl, env);
    }

    pub(crate) fn fi_later(&mut self)
        ensures
            final(self)@ == old(self)@.fi_later(),
    {
        proof {
            reveal(AppModel::fi_later);
        }
        let fi = self.settled_info();
        self.store_info(&fi);
        self.after_later(fi.dl);
    }

    pub(crate) fn fi_cancel(&mut self, ms: u64)
        ensures
            final(self)@ == old(self)@.fi_cancel(ms),
    {
        proof {
            reveal(AppModel::fi_cancel);
        }
        let fi = self.file_info_copy();
        self.close_file_info_windows();
        if fi.is_new {
            let done = match self.item(fi.dl) {
                Some(d) => d.state == DlState::Complete,
                None => false,
            };
            self.delete_item_opts(fi.dl, done, ms);
        }
    }
}

// --------------------------------------------------------------------- preview

impl AppModel {
    /// The tail of the archive is asked for with the dialog's credentials, not
    /// the row's: an edited login must reach the peek before it reaches the row.
    pub open spec fn zip_peek(self) -> EffectModel {
        let fi = self.file_info;
        let d = item_of(self.items(), fi.dl);
        EffectModel::PeekZip {
            dl: fi.dl,
            url: fi.url,
            user_agent: self.cfg.settings.user_agent,
            auth: if fi.login.len() > 0 {
                Some((fi.login, fi.password))
            } else {
                None
            },
            cookies: Some(fi.cookies),
            referer: match d {
                Some(d) => d.referer,
                None => None,
            },
            len: match d {
                Some(d) => d.size,
                None => None,
            },
        }
    }

    pub open spec fn with_zip_preview(self, z: ZipPreviewStateModel) -> AppModel {
        AppModel { zip_preview: z, ..self }
    }

    #[verifier::opaque]
    pub open spec fn fi_preview(self) -> AppModel {
        self.with_zip_preview(
            ZipPreviewStateModel {
                dl: self.file_info.dl,
                file_name: self.file_info.file_name,
                result: ZipPeekModel::Loading,
            },
        ).open_window(WinKind::ZipPreview(self.file_info.dl)).emit(self.zip_peek())
    }

    /// A listing for a window since closed, or for another archive, has nowhere
    /// to go.
    #[verifier::opaque]
    pub open spec fn zip_peeked(self, dl: DlId, result: ZipPeekModel) -> AppModel {
        if self.zip_preview.dl == dl && self.is_open(WinKind::ZipPreview(dl)) {
            self.with_zip_preview(ZipPreviewStateModel { result, ..self.zip_preview })
        } else {
            self
        }
    }
}

impl App {
    fn zip_peek(&self) -> (r: Effect)
        ensures
            r@ == self@.zip_peek(),
    {
        let fi = self.file_info_copy();
        let user_agent = self.user_agent();
        let (referer, len) = match self.item(fi.dl) {
            Some(d) => (d.referer.twin(), d.size),
            None => (None, None),
        };
        let auth = if fi.login.as_str().is_empty() {
            None
        } else {
            Some((fi.login, fi.password))
        };
        Effect::PeekZip {
            dl: fi.dl,
            url: fi.url,
            user_agent,
            auth,
            cookies: Some(fi.cookies),
            referer,
            len,
        }
    }

    fn set_zip_preview(&mut self, z: ZipPreviewState)
        ensures
            final(self)@ == old(self)@.with_zip_preview(z@),
    {
        proof {
            reveal(App::model);
        }
        self.zip_preview = z;
    }

    pub(crate) fn fi_preview(&mut self)
        ensures
            final(self)@ == old(self)@.fi_preview(),
    {
        proof {
            reveal(AppModel::fi_preview);
        }
        let peek = self.zip_peek();
        let fi = self.file_info_copy();
        let dl = fi.dl;
        self.set_zip_preview(
            ZipPreviewState { dl, file_name: fi.file_name, result: ZipPeek::Loading },
        );
        self.open_window(WinKind::ZipPreview(dl));
        self.emit(peek);
    }

    fn zip_preview_of(&self) -> (r: (DlId, String))
        ensures
            r.0 == self@.zip_preview.dl,
            r.1@ == self@.zip_preview.file_name,
    {
        proof {
            reveal(App::model);
        }
        (self.zip_preview.dl, self.zip_preview.file_name.clone())
    }

    pub(crate) fn zip_peeked(&mut self, dl: DlId, result: ZipPeek)
        ensures
            final(self)@ == old(self)@.zip_peeked(dl, result@),
    {
        proof {
            reveal(AppModel::zip_peeked);
        }
        let (of, file_name) = self.zip_preview_of();
        if of == dl && self.is_open(WinKind::ZipPreview(dl)) {
            self.set_zip_preview(ZipPreviewState { dl, file_name, result });
        }
    }
}

} // verus!
