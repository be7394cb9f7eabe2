//! Small edits: the fields of the dialogs, the menu bar, and what the pointer
//! hovers over.
use crate::actions::{action_of, MenuAction};
use crate::app::add_url::{digits_of, keep_digits};
use crate::app::batch::{paste, pasted};
use crate::app::{App, AppModel, Env, EnvModel, ListUi, ListUiModel, MenuUi, Mods};
use crate::effect::{Effect, EffectModel, Pick, PickModel};
use crate::engine::{LinkMeta, LinkMetaModel, StreamQuality};
use crate::i18n::{Catalogue, Texts};
use crate::model::DlId;
use crate::state::{
    AddUrlState, AddUrlStateModel, BatchQuality, BatchSortKey, BatchState, BatchStateModel,
    FileInfoState, FileInfoStateModel, MenuBarKind, OptTab, OptionsStateModel, SchStateModel,
    SchTab, WinKind,
};
use crate::text::same;
use vstd::prelude::*;

verus! {

/// An edit in the Add URL dialog.
#[derive(Debug)]
pub enum AddrField {
    Quality(StreamQuality),
    Container(String),
    /// Digits only: this becomes a duration.
    RecordMinutes(String),
    AuthToggled(bool),
    Login(String),
    Pass(String),
}

/// An edit in the File Info dialog.
#[derive(Debug)]
pub enum FiField {
    /// The Save As box: one full path, folder and file name.
    SaveAs(String),
    /// What the file picker gave back.
    PathPicked(Option<String>),
    Description(String),
    Remember(bool),
    Url(String),
    Login(String),
    Pass(String),
    Cookies(String),
}

/// An edit in the batch dialog.
#[derive(Debug)]
pub enum BatchField {
    /// 1 saves to a category, 2 to a folder, anything else to neither.
    SaveMode(u8),
    Category(String),
    Dir(String),
    StreamQuality(BatchQuality),
    StreamContainer(String),
    /// The same column again turns the order round.
    Sort(BatchSortKey),
    HideHtml(bool),
    HideDups(bool),
    /// What the folder picker gave back.
    DirPicked(Option<String>),
}

impl AddUrlStateModel {
    pub open spec fn edited(self, f: AddrField) -> AddUrlStateModel {
        match f {
            AddrField::Quality(q) => AddUrlStateModel { quality: Some(q@), ..self },
            AddrField::Container(c) => AddUrlStateModel { container: c@, ..self },
            AddrField::RecordMinutes(v) => AddUrlStateModel {
                record_minutes: digits_of(v@, 5),
                ..self
            },
            AddrField::AuthToggled(b) => AddUrlStateModel { use_auth: b, ..self },
            AddrField::Login(s) => AddUrlStateModel { login: s@, ..self },
            AddrField::Pass(s) => AddUrlStateModel { password: s@, ..self },
        }
    }
}

fn edit_addr(a: &mut AddUrlState, f: AddrField)
    ensures
        final(a)@ == old(a)@.edited(f),
{
    match f {
        AddrField::Quality(q) => {
            a.quality = Some(q);
        },
        AddrField::Container(c) => {
            a.container = c;
        },
        AddrField::RecordMinutes(v) => {
            a.record_minutes = keep_digits(&v, 5);
        },
        AddrField::AuthToggled(b) => {
            a.use_auth = b;
        },
        AddrField::Login(s) => {
            a.login = s;
        },
        AddrField::Pass(s) => {
            a.password = s;
        },
    }
}

impl FileInfoStateModel {
    pub open spec fn edited(self, f: FiField) -> FileInfoStateModel {
        match f {
            FiField::SaveAs(s) => self.set_save_as(s@),
            FiField::PathPicked(Some(s)) => self.set_save_as(s@),
            FiField::PathPicked(None) => self,
            FiField::Description(s) => FileInfoStateModel { description: s@, ..self },
            FiField::Remember(b) => FileInfoStateModel { remember: b, ..self },
            FiField::Url(s) => FileInfoStateModel { url: s@, ..self },
            FiField::Login(s) => FileInfoStateModel { login: s@, ..self },
            FiField::Pass(s) => FileInfoStateModel { password: s@, ..self },
            FiField::Cookies(s) => FileInfoStateModel { cookies: s@, ..self },
        }
    }
}

fn edit_info(a: &mut FileInfoState, f: FiField)
    ensures
        final(a)@ == old(a)@.edited(f),
{
    match f {
        FiField::SaveAs(s) => {
            a.set_save_as(&s);
        },
        FiField::PathPicked(s) => {
            if let Some(s) = s {
                a.set_save_as(&s);
            }
        },
        FiField::Description(s) => {
            a.description = s;
        },
        FiField::Remember(b) => {
            a.remember = b;
        },
        FiField::Url(s) => {
            a.url = s;
        },
        FiField::Login(s) => {
            a.login = s;
        },
        FiField::Pass(s) => {
            a.password = s;
        },
        FiField::Cookies(s) => {
            a.cookies = s;
        },
    }
}

impl BatchStateModel {
    pub open spec fn edited(self, f: BatchField) -> BatchStateModel {
        match f {
            BatchField::SaveMode(m) => BatchStateModel {
                to_category: m == 1,
                to_dir: m == 2,
                ..self
            },
            BatchField::Category(c) => BatchStateModel { category: c@, ..self },
            BatchField::Dir(d) => BatchStateModel { dir: d@, ..self },
            BatchField::StreamQuality(q) => BatchStateModel { stream_quality: q, ..self },
            BatchField::StreamContainer(c) => BatchStateModel { stream_container: c@, ..self },
            BatchField::Sort(k) => BatchStateModel {
                sort: match self.sort {
                    Some((cur, asc)) if cur == k => Some((k, !asc)),
                    _ => Some((k, true)),
                },
                ..self
            },
            BatchField::HideHtml(b) => BatchStateModel { hide_html: b, ..self },
            BatchField::HideDups(b) => BatchStateModel { hide_dups: b, ..self },
            BatchField::DirPicked(Some(d)) => BatchStateModel {
                dir: d@,
                to_dir: true,
                to_category: false,
                ..self
            },
            BatchField::DirPicked(None) => self,
        }
    }
}

fn edit_batch(b: &mut BatchState, f: BatchField)
    ensures
        final(b)@ == old(b)@.edited(f),
{
    match f {
        BatchField::SaveMode(m) => {
            b.to_category = m == 1;
            b.to_dir = m == 2;
        },
        BatchField::Category(c) => {
            b.category = c;
        },
        BatchField::Dir(d) => {
            b.dir = d;
        },
        BatchField::StreamQuality(q) => {
            b.stream_quality = q;
        },
        BatchField::StreamContainer(c) => {
            b.stream_container = c;
        },
        BatchField::Sort(k) => {
            b.sort = match b.sort {
                Some((cur, asc)) => if cur == k {
                    Some((k, !asc))
                } else {
                    Some((k, true))
                },
                None => Some((k, true)),
            };
        },
        BatchField::HideHtml(h) => {
            b.hide_html = h;
        },
        BatchField::HideDups(h) => {
            b.hide_dups = h;
        },
        BatchField::DirPicked(d) => {
            if let Some(d) = d {
                b.dir = d;
                b.to_dir = true;
                b.to_category = false;
            }
        },
    }
}

impl ListUiModel {
    pub open spec fn exit(self, id: DlId) -> ListUiModel {
        if self.hover_row == Some(id) {
            ListUiModel { hover_row: None, ..self }
        } else {
            self
        }
    }

    pub open spec fn enter_header(self, col: usize) -> ListUiModel {
        ListUiModel { hover_col: Some(col), ..self }
    }

    pub open spec fn exit_header(self, col: usize) -> ListUiModel {
        if self.hover_col == Some(col) {
            ListUiModel { hover_col: None, ..self }
        } else {
            self
        }
    }

    /// The edge of a column is grabbed.
    pub open spec fn grab_column(self, col: usize) -> ListUiModel {
        if col < self.columns {
            ListUiModel { resizing: Some(col), ..self }
        } else {
            self
        }
    }
}

impl ListUi {
    pub fn exit(&mut self, id: DlId)
        ensures
            final(self)@ == old(self)@.exit(id),
    {
        if let Some(row) = self.hover_row {
            if row == id {
                self.hover_row = None;
            }
        }
    }

    pub fn enter_header(&mut self, col: usize)
        ensures
            final(self)@ == old(self)@.enter_header(col),
    {
        self.hover_col = Some(col);
    }

    pub fn exit_header(&mut self, col: usize)
        ensures
            final(self)@ == old(self)@.exit_header(col),
    {
        if let Some(c) = self.hover_col {
            if c == col {
                self.hover_col = None;
            }
        }
    }

    pub fn grab_column(&mut self, col: usize)
        ensures
            final(self)@ == old(self)@.grab_column(col),
    {
        if col < self.columns {
            self.resizing = Some(col);
        }
    }
}

impl AppModel {
    pub open spec fn with_menu(self, menu: MenuUi) -> AppModel {
        AppModel { menu, ..self }
    }

    /// A menu opens, or shuts where it was open.
    #[verifier::opaque]
    pub open spec fn menu_open(self, kind: MenuBarKind) -> AppModel {
        self.with_menu(
            MenuUi {
                open_menu: if self.menu.open_menu == Some(kind) {
                    None
                } else {
                    Some(kind)
                },
                open_submenu: None,
                ..self.menu
            },
        )
    }

    /// Moving along the menu bar switches menus and never shuts one.
    #[verifier::opaque]
    pub open spec fn menu_hover(self, kind: MenuBarKind) -> AppModel {
        if self.menu.open_menu == Some(kind) {
            self
        } else {
            self.with_menu(MenuUi { open_menu: Some(kind), open_submenu: None, ..self.menu })
        }
    }

    #[verifier::opaque]
    pub open spec fn submenu_hover(self, i: Option<usize>) -> AppModel {
        self.with_menu(MenuUi { open_submenu: i, ..self.menu })
    }

    #[verifier::opaque]
    pub open spec fn queue_menu_open(self, start: bool) -> AppModel {
        self.with_menu(MenuUi { queue_menu: Some(start), context: true, ..self.menu })
    }

    #[verifier::opaque]
    pub open spec fn row_right_click(self, id: DlId) -> AppModel {
        let s = self.with_list(self.list.right_click(id));
        s.with_menu(MenuUi { context: true, ..s.menu })
    }

    /// A native entry: the main window, or a command.
    #[verifier::opaque]
    pub open spec fn native_menu(self, id: Seq<char>, env: EnvModel) -> AppModel {
        if id == "show_main"@ {
            self.open_window(WinKind::Main)
        } else {
            match action_of(id) {
                Some(a) => self.menu(a, env),
                None => self,
            }
        }
    }

    /// The appearance of the desktop; a platform that does not say changes
    /// nothing.
    #[verifier::opaque]
    pub open spec fn system_theme(self, dark: Option<bool>) -> AppModel {
        match dark {
            Some(d) => AppModel { system_dark: d, ..self },
            None => self,
        }
    }

    #[verifier::opaque]
    pub open spec fn set_mods(self, mods: Mods) -> AppModel {
        AppModel { mods, ..self }
    }

    /// The texts of another language are there: the menu bar and the tray, which
    /// hold the old ones, are built again.
    #[verifier::opaque]
    pub open spec fn locale_loaded(self, lang: Texts) -> AppModel {
        AppModel { lang, ..self }.emit(EffectModel::RefreshMenu).emit(EffectModel::ReinstallTray)
    }

    #[verifier::opaque]
    pub open spec fn addr_edit(self, f: AddrField) -> AppModel {
        self.with_add_url(self.add_url.edited(f))
    }

    #[verifier::opaque]
    pub open spec fn fi_edit(self, f: FiField) -> AppModel {
        self.with_file_info(self.file_info.edited(f))
    }

    #[verifier::opaque]
    pub open spec fn fi_browse(self) -> AppModel {
        self.emit(
            EffectModel::Pick(
                PickModel::SaveAs {
                    name: self.file_info.file_name,
                    dir: self.file_info.save_dir,
                },
            ),
        )
    }

    #[verifier::opaque]
    pub open spec fn info_probed(self, id: DlId, meta: Option<LinkMetaModel>) -> AppModel {
        match meta {
            Some(m) => self.adopt_probed(id, Some(m.file_name), m.size),
            None => self,
        }
    }

    #[verifier::opaque]
    pub open spec fn opt_tab_set(self, tab: OptTab) -> AppModel {
        AppModel { options: OptionsStateModel { tab, ..self.options }, ..self }
    }

    #[verifier::opaque]
    pub open spec fn sch_name_draft(self, v: Seq<char>) -> AppModel {
        self.with_sch(SchStateModel { rename_draft: v, ..self.sch })
    }

    #[verifier::opaque]
    pub open spec fn sch_tab_set(self, tab: SchTab) -> AppModel {
        self.with_sch(SchStateModel { tab, ..self.sch })
    }

    /// The selected queue starts or stops.
    #[verifier::opaque]
    pub open spec fn sch_run(self, run: bool, env: EnvModel) -> AppModel {
        let s = self.set_queue_running(self.sch.queue, run);
        if run {
            s.queue_tick(env)
        } else {
            s
        }
    }

    #[verifier::opaque]
    pub open spec fn sch_drag_start(self, id: DlId) -> AppModel {
        self.with_sch(SchStateModel { sel_file: Some(id), drag: Some(id), ..self.sch })
    }

    #[verifier::opaque]
    pub open spec fn batch_field(self, f: BatchField) -> AppModel {
        self.with_batch(self.batch.edited(f))
    }

    /// A text from a file is pasted into what the box holds, in place of the
    /// characters `from` to `to`.
    #[verifier::opaque]
    pub open spec fn batch_file(
        self,
        text: Option<Seq<char>>,
        from: usize,
        to: usize,
    ) -> AppModel {
        match text {
            Some(t) => self.batch_loaded(pasted(self.batch.text, from as int, to as int, t)),
            None => self,
        }
    }

    #[verifier::opaque]
    pub open spec fn confirm_remove(self, b: bool) -> AppModel {
        AppModel { confirm_remove_file: b, ..self }
    }
}

impl App {
    fn menu_ui(&self) -> (r: MenuUi)
        ensures
            r == self@.menu,
    {
        proof {
            reveal(App::model);
        }
        self.menu
    }

    fn set_menu(&mut self, menu: MenuUi)
        ensures
            final(self)@ == old(self)@.with_menu(menu),
    {
        proof {
            reveal(App::model);
        }
        self.menu = menu;
    }

    pub(crate) fn menu_open(&mut self, kind: MenuBarKind)
        ensures
            final(self)@ == old(self)@.menu_open(kind),
    {
        proof {
            reveal(AppModel::menu_open);
        }
        let m = self.menu_ui();
        let open_menu = match m.open_menu {
            Some(k) => if k == kind {
                None
            } else {
                Some(kind)
            },
            None => Some(kind),
        };
        self.set_menu(MenuUi { open_menu, open_submenu: None, ..m });
    }

    pub(crate) fn menu_hover(&mut self, kind: MenuBarKind)
        ensures
            final(self)@ == old(self)@.menu_hover(kind),
    {
        proof {
            reveal(AppModel::menu_hover);
        }
        let m = self.menu_ui();
        if let Some(k) = m.open_menu {
            if k == kind {
                return ;
            }
        }
        self.set_menu(MenuUi { open_menu: Some(kind), open_submenu: None, ..m });
    }

    pub(crate) fn submenu_hover(&mut self, i: Option<usize>)
        ensures
            final(self)@ == old(self)@.submenu_hover(i),
    {
        proof {
            reveal(AppModel::submenu_hover);
        }
        let m = self.menu_ui();
        self.set_menu(MenuUi { open_submenu: i, ..m });
    }

    pub(crate) fn queue_menu_open(&mut self, start: bool)
        ensures
            final(self)@ == old(self)@.queue_menu_open(start),
    {
        proof {
            reveal(AppModel::queue_menu_open);
        }
        let m = self.menu_ui();
        self.set_menu(MenuUi { queue_menu: Some(start), context: true, ..m });
    }

    pub(crate) fn row_right_click(&mut self, id: DlId)
        ensures
            final(self)@ == old(self)@.row_right_click(id),
    {
        proof {
            reveal(AppModel::row_right_click);
        }
        let mut l = self.take_list();
        l.right_click(id);
        self.put_list(l);
        let m = self.menu_ui();
        self.set_menu(MenuUi { context: true, ..m });
    }

    pub(crate) fn native_menu(&mut self, id: &str, env: &Env)
        ensures
            final(self)@ == old(self)@.native_menu(id@, env@),
    {
        proof {
            reveal(AppModel::native_menu);
        }
        if same(id, "show_main") {
            self.open_window(WinKind::Main);
            return ;
        }
        if let Some(a) = MenuAction::from_id(id) {
            self.menu(a, env);
        }
    }

    pub(crate) fn system_theme(&mut self, dark: Option<bool>)
        ensures
            final(self)@ == old(self)@.system_theme(dark),
    {
        proof {
            reveal(AppModel::system_theme);
            reveal(App::model);
        }
        if let Some(d) = dark {
            self.system_dark = d;
        }
    }

    pub(crate) fn set_mods(&mut self, mods: Mods)
        ensures
            final(self)@ == old(self)@.set_mods(mods),
    {
        proof {
            reveal(AppModel::set_mods);
            reveal(App::model);
        }
        self.mods = mods;
    }

    pub(crate) fn locale_loaded(&mut self, lang: Catalogue)
        ensures
            final(self)@ == old(self)@.locale_loaded(lang@),
    {
        proof {
            reveal(AppModel::locale_loaded);
            reveal(App::model);
        }
        self.lang = lang;
        self.emit(Effect::RefreshMenu);
        self.emit(Effect::ReinstallTray);
    }

    pub(crate) fn addr_edit(&mut self, f: AddrField)
        ensures
            final(self)@ == old(self)@.addr_edit(f),
    {
        proof {
            reveal(AppModel::addr_edit);
        }
        let mut a = self.add_url_copy();
        edit_addr(&mut a, f);
        self.set_add_url(a);
    }

    pub(crate) fn fi_edit(&mut self, f: FiField)
        ensures
            final(self)@ == old(self)@.fi_edit(f),
    {
        proof {
            reveal(AppModel::fi_edit);
        }
        let mut a = self.file_info_copy();
        edit_info(&mut a, f);
        self.set_file_info(a);
    }

    pub(crate) fn fi_browse(&mut self)
        ensures
            final(self)@ == old(self)@.fi_browse(),
    {
        proof {
            reveal(AppModel::fi_browse);
        }
        let fi = self.file_info_copy();
        self.emit(Effect::Pick(Pick::SaveAs { name: fi.file_name, dir: fi.save_dir }));
    }

    pub(crate) fn info_probed(&mut self, id: DlId, meta: Option<LinkMeta>)
        ensures
            final(self)@ == old(self)@.info_probed(id, meta.deep_view()),
    {
        proof {
            reveal(AppModel::info_probed);
        }
        if let Some(m) = meta {
            self.adopt_probed(id, Some(m.file_name), m.size);
        }
    }

    pub(crate) fn opt_tab_set(&mut self, tab: OptTab)
        ensures
            final(self)@ == old(self)@.opt_tab_set(tab),
    {
        proof {
            reveal(AppModel::opt_tab_set);
            reveal(App::model);
        }
        self.options.tab = tab;
    }

    pub(crate) fn sch_name_draft(&mut self, v: String)
        ensures
            final(self)@ == old(self)@.sch_name_draft(v@),
    {
        proof {
            reveal(AppModel::sch_name_draft);
        }
        let mut s = self.sch_copy();
        s.rename_draft = v;
        self.set_sch(s);
    }

    pub(crate) fn sch_tab_set(&mut self, tab: SchTab)
        ensures
            final(self)@ == old(self)@.sch_tab_set(tab),
    {
        proof {
            reveal(AppModel::sch_tab_set);
        }
        let mut s = self.sch_copy();
        s.tab = tab;
        self.set_sch(s);
    }

    pub(crate) fn sch_run(&mut self, run: bool, env: &Env)
        ensures
            final(self)@ == old(self)@.sch_run(run, env@),
    {
        proof {
            reveal(AppModel::sch_run);
        }
        let q = self.sch_copy().queue;
        self.set_queue_running(&q, run);
        if run {
            self.queue_tick(env);
        }
    }

    pub(crate) fn sch_drag_start(&mut self, id: DlId)
        ensures
            final(self)@ == old(self)@.sch_drag_start(id),
    {
        proof {
            reveal(AppModel::sch_drag_start);
        }
        let mut s = self.sch_copy();
        s.sel_file = Some(id);
        s.drag = Some(id);
        self.set_sch(s);
    }

    pub(crate) fn batch_field(&mut self, f: BatchField)
        ensures
            final(self)@ == old(self)@.batch_field(f),
    {
        proof {
            reveal(AppModel::batch_field);
        }
        let mut b = self.take_batch();
        edit_batch(&mut b, f);
        self.put_batch(b);
    }

    pub(crate) fn batch_file(&mut self, text: Option<String>, from: usize, to: usize)
        ensures
            final(self)@ == old(self)@.batch_file(text.deep_view(), from, to),
    {
        proof {
            reveal(AppModel::batch_file);
        }
        if let Some(t) = text {
            let whole = paste(&self.batch_text(), from, to, &t);
            self.batch_loaded(whole);
        }
    }

    pub(crate) fn confirm_remove(&mut self, b: bool)
        ensures
            final(self)@ == old(self)@.confirm_remove(b),
    {
        proof {
            reveal(AppModel::confirm_remove);
            reveal(App::model);
        }
        self.confirm_remove_file = b;
    }
}

} // verus!
