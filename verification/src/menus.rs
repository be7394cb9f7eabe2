//! The menus that the windows draw: the menu bar and the context menu, with
//! what can be chosen in them now.
use crate::actions::{MenuAction, MenuActionModel};
use crate::app::{App, AppModel};
use crate::i18n::{display_name, native_name, translated, Catalogue, Texts};
use crate::model::{DlState, QueueDef, ThemeMode};
use crate::queues::Queues;
use crate::state::{MenuBarKind, SortKey};
use crate::text::same;
use crate::twin::Twin;
use vstd::prelude::*;

verus! {

/// A row of a flyout.
#[derive(Debug)]
pub struct SubEntry {
    pub action: MenuAction,
    pub label: String,
    pub checked: bool,
}

/// The model of [`SubEntry`].
#[verifier::ext_equal]
pub struct SubEntryModel {
    pub action: MenuActionModel,
    pub label: Seq<char>,
    pub checked: bool,
}

impl View for SubEntry {
    type V = SubEntryModel;

    open spec fn view(&self) -> SubEntryModel {
        SubEntryModel {
            action: self.action@,
            label: self.label@,
            checked: self.checked,
        }
    }
}

impl DeepView for SubEntry {
    type V = SubEntryModel;

    open spec fn deep_view(&self) -> SubEntryModel {
        self@
    }
}

impl Twin for SubEntry {
    fn twin(&self) -> (r: Self) {
        SubEntry {
            action: self.action.twin(),
            label: self.label.clone(),
            checked: self.checked,
        }
    }
}

/// A row of a menu.
#[derive(Debug)]
pub struct Entry {
    /// None where nothing can be chosen.
    pub action: Option<MenuAction>,
    pub label: String,
    pub enabled: bool,
    /// A line stands above the row.
    pub sep: bool,
    pub checked: bool,
    pub submenu: Vec<SubEntry>,
}

/// The model of [`Entry`].
#[verifier::ext_equal]
pub struct EntryModel {
    pub action: Option<MenuActionModel>,
    pub label: Seq<char>,
    pub enabled: bool,
    pub sep: bool,
    pub checked: bool,
    pub submenu: Seq<SubEntryModel>,
}

impl View for Entry {
    type V = EntryModel;

    open spec fn view(&self) -> EntryModel {
        EntryModel {
            action: self.action.deep_view(),
            label: self.label@,
            enabled: self.enabled,
            sep: self.sep,
            checked: self.checked,
            submenu: self.submenu.deep_view(),
        }
    }
}

impl DeepView for Entry {
    type V = EntryModel;

    open spec fn deep_view(&self) -> EntryModel {
        self@
    }
}

impl Twin for Entry {
    fn twin(&self) -> (r: Self) {
        Entry {
            action: self.action.twin(),
            label: self.label.clone(),
            enabled: self.enabled,
            sep: self.sep,
            checked: self.checked,
            submenu: self.submenu.twin(),
        }
    }
}

/// What the menus show of the state.
#[derive(Debug)]
pub struct MenuFacts {
    /// The state of the primary selected row.
    pub sel: Option<DlState>,
    /// That row is in a queue.
    pub sel_queued: bool,
    /// Some transfer runs.
    pub any_active: bool,
    pub queues: Vec<String>,
    pub limiter: bool,
    /// The category tree is shown.
    pub categories: bool,
    pub theme: ThemeMode,
    pub font: u16,
    /// The language in use.
    pub language: String,
    /// The languages there are.
    pub languages: Vec<String>,
}

/// The model of [`MenuFacts`].
#[verifier::ext_equal]
pub struct MenuFactsModel {
    pub sel: Option<DlState>,
    pub sel_queued: bool,
    pub any_active: bool,
    pub queues: Seq<Seq<char>>,
    pub limiter: bool,
    pub categories: bool,
    pub theme: ThemeMode,
    pub font: u16,
    pub language: Seq<char>,
    pub languages: Seq<Seq<char>>,
}

impl View for MenuFacts {
    type V = MenuFactsModel;

    open spec fn view(&self) -> MenuFactsModel {
        MenuFactsModel {
            sel: self.sel,
            sel_queued: self.sel_queued,
            any_active: self.any_active,
            queues: self.queues.deep_view(),
            limiter: self.limiter,
            categories: self.categories,
            theme: self.theme,
            font: self.font,
            language: self.language@,
            languages: self.languages.deep_view(),
        }
    }
}

impl DeepView for MenuFacts {
    type V = MenuFactsModel;

    open spec fn deep_view(&self) -> MenuFactsModel {
        self@
    }
}

impl Twin for MenuFacts {
    fn twin(&self) -> (r: Self) {
        MenuFacts {
            sel: self.sel,
            sel_queued: self.sel_queued,
            any_active: self.any_active,
            queues: self.queues.twin(),
            limiter: self.limiter,
            categories: self.categories,
            theme: self.theme,
            font: self.font,
            language: self.language.clone(),
            languages: self.languages.twin(),
        }
    }
}

/// The titles of the menu bar.
pub fn bar() -> (r: [(MenuBarKind, &'static str); 5])
    ensures
        r@[0].0 == MenuBarKind::Tasks && r@[0].1@ == "Tasks"@,
        r@[1].0 == MenuBarKind::File && r@[1].1@ == "File"@,
        r@[2].0 == MenuBarKind::Downloads && r@[2].1@ == "Downloads"@,
        r@[3].0 == MenuBarKind::View && r@[3].1@ == "View"@,
        r@[4].0 == MenuBarKind::Help && r@[4].1@ == "Help"@,
{
    [
        (MenuBarKind::Tasks, "Tasks"),
        (MenuBarKind::File, "File"),
        (MenuBarKind::Downloads, "Downloads"),
        (MenuBarKind::View, "View"),
        (MenuBarKind::Help, "Help"),
    ]
}

// ----------------------------------------------------------------------- entries

impl EntryModel {
    pub open spec fn item(label: Seq<char>, action: MenuActionModel) -> EntryModel {
        EntryModel {
            action: Some(action),
            label,
            enabled: true,
            sep: false,
            checked: false,
            submenu: seq![],
        }
    }

    pub open spec fn disabled(label: Seq<char>) -> EntryModel {
        EntryModel {
            action: None,
            label,
            enabled: false,
            sep: false,
            checked: false,
            submenu: seq![],
        }
    }

    pub open spec fn sub(label: Seq<char>, submenu: Seq<SubEntryModel>) -> EntryModel {
        EntryModel { action: None, label, enabled: true, sep: false, checked: false, submenu }
    }

    pub open spec fn sep(self) -> EntryModel {
        EntryModel { sep: true, ..self }
    }

    pub open spec fn check(self, on: bool) -> EntryModel {
        EntryModel { checked: on, ..self }
    }

    pub open spec fn when(self, on: bool) -> EntryModel {
        EntryModel { enabled: on, ..self }
    }
}

impl Entry {
    fn item(label: String, action: MenuAction) -> (r: Entry)
        ensures
            r@ == EntryModel::item(label@, action@),
    {
        Entry::plain(label, action, true)
    }

    /// An entry of a dropdown that is made up on the spot.
    pub fn plain(label: String, action: MenuAction, enabled: bool) -> (r: Entry)
        ensures
            r@ == EntryModel::item(label@, action@).when(enabled),
    {
        let r = Entry {
            action: Some(action),
            label,
            enabled,
            sep: false,
            checked: false,
            submenu: Vec::new(),
        };
        assert(r@.submenu =~= seq![]);
        assert(r@ =~= EntryModel::item(label@, action@).when(enabled));
        r
    }

    fn disabled(label: String) -> (r: Entry)
        ensures
            r@ == EntryModel::disabled(label@),
    {
        let r = Entry {
            action: None,
            label,
            enabled: false,
            sep: false,
            checked: false,
            submenu: Vec::new(),
        };
        assert(r@.submenu =~= seq![]);
        assert(r@ =~= EntryModel::disabled(label@));
        r
    }

    fn sub(label: String, submenu: Vec<SubEntry>) -> (r: Entry)
        ensures
            r@ == EntryModel::sub(label@, submenu.deep_view()),
    {
        Entry { action: None, label, enabled: true, sep: false, checked: false, submenu }
    }

    fn sep(self) -> (r: Entry)
        ensures
            r@ == self@.sep(),
    {
        Entry { sep: true, ..self }
    }

    fn check(self, on: bool) -> (r: Entry)
        ensures
            r@ == self@.check(on),
    {
        Entry { checked: on, ..self }
    }

    fn when(self, on: bool) -> (r: Entry)
        ensures
            r@ == self@.when(on),
    {
        Entry { enabled: on, ..self }
    }
}

fn put(v: &mut Vec<Entry>, e: Entry)
    ensures
        final(v).deep_view() == old(v).deep_view().push(e@),
{
    let ghost before = v.deep_view();
    v.push(e);
    assert(v.deep_view() =~= before.push(e@));
}

fn put_sub(v: &mut Vec<SubEntry>, label: String, action: MenuAction, checked: bool)
    ensures
        final(v).deep_view() == old(v).deep_view().push(
            SubEntryModel { action: action@, label: label@, checked },
        ),
{
    let ghost before = v.deep_view();
    let e = SubEntry { action, label, checked };
    v.push(e);
    assert(v.deep_view() =~= before.push(e@));
}

pub open spec fn stopped(s: Option<DlState>) -> bool {
    s == Some(DlState::Paused) || s == Some(DlState::Error) || s == Some(DlState::Queued)
}

pub open spec fn active(s: Option<DlState>) -> bool {
    match s {
        Some(st) => st.active(),
        None => false,
    }
}

fn is_stopped(s: Option<DlState>) -> (r: bool)
    ensures
        r == stopped(s),
{
    match s {
        Some(DlState::Paused) | Some(DlState::Error) | Some(DlState::Queued) => true,
        _ => false,
    }
}

fn is_active(s: Option<DlState>) -> (r: bool)
    ensures
        r == active(s),
{
    match s {
        Some(st) => st.is_active(),
        None => false,
    }
}

/// The flyout that starts queues.
pub open spec fn start_rows(names: Seq<Seq<char>>, lang: Texts) -> Seq<SubEntryModel> {
    Seq::new(
        names.len(),
        |i: int|
            SubEntryModel {
                action: MenuActionModel::StartQueue(names[i]),
                label: translated(lang, names[i]),
                checked: false,
            },
    )
}

fn list_start_rows(names: &Vec<String>, lang: &Catalogue) -> (r: Vec<SubEntry>)
    ensures
        r.deep_view() == start_rows(names.deep_view(), lang@),
{
    let mut r: Vec<SubEntry> = Vec::new();
    let mut i: usize = 0;
    while i < names.len()
        invariant
            i <= names@.len(),
            r@.len() == i,
            forall|k: int|
                0 <= k < i ==> (#[trigger] r@[k])@ == start_rows(names.deep_view(), lang@)[k],
        decreases names.len() - i,
    {
        proof {
            reveal(MenuAction::model);
        }
        let e = SubEntry {
            action: MenuAction::StartQueue(names[i].clone()),
            label: lang.tr(&names[i]),
            checked: false,
        };
        assert(e@ == start_rows(names.deep_view(), lang@)[i as int]);
        r.push(e);
        i += 1;
    }
    assert(r.deep_view() =~= start_rows(names.deep_view(), lang@));
    r
}

/// The flyout that stops queues.
pub open spec fn stop_rows(names: Seq<Seq<char>>, lang: Texts) -> Seq<SubEntryModel> {
    Seq::new(
        names.len(),
        |i: int|
            SubEntryModel {
                action: MenuActionModel::StopQueue(names[i]),
                label: translated(lang, names[i]),
                checked: false,
            },
    )
}

fn list_stop_rows(names: &Vec<String>, lang: &Catalogue) -> (r: Vec<SubEntry>)
    ensures
        r.deep_view() == stop_rows(names.deep_view(), lang@),
{
    let mut r: Vec<SubEntry> = Vec::new();
    let mut i: usize = 0;
    while i < names.len()
        invariant
            i <= names@.len(),
            r@.len() == i,
            forall|k: int|
                0 <= k < i ==> (#[trigger] r@[k])@ == stop_rows(names.deep_view(), lang@)[k],
        decreases names.len() - i,
    {
        proof {
            reveal(MenuAction::model);
        }
        let e = SubEntry {
            action: MenuAction::StopQueue(names[i].clone()),
            label: lang.tr(&names[i]),
            checked: false,
        };
        assert(e@ == stop_rows(names.deep_view(), lang@)[i as int]);
        r.push(e);
        i += 1;
    }
    assert(r.deep_view() =~= stop_rows(names.deep_view(), lang@));
    r
}

/// The flyout that moves a row to a queue.
pub open spec fn move_rows(names: Seq<Seq<char>>, lang: Texts) -> Seq<SubEntryModel> {
    Seq::new(
        names.len(),
        |i: int|
            SubEntryModel {
                action: MenuActionModel::MoveToQueue(names[i]),
                label: translated(lang, names[i]),
                checked: false,
            },
    )
}

fn list_move_rows(names: &Vec<String>, lang: &Catalogue) -> (r: Vec<SubEntry>)
    ensures
        r.deep_view() == move_rows(names.deep_view(), lang@),
{
    let mut r: Vec<SubEntry> = Vec::new();
    let mut i: usize = 0;
    while i < names.len()
        invariant
            i <= names@.len(),
            r@.len() == i,
            forall|k: int|
                0 <= k < i ==> (#[trigger] r@[k])@ == move_rows(names.deep_view(), lang@)[k],
        decreases names.len() - i,
    {
        proof {
            reveal(MenuAction::model);
        }
        let e = SubEntry {
            action: MenuAction::MoveToQueue(names[i].clone()),
            label: lang.tr(&names[i]),
            checked: false,
        };
        assert(e@ == move_rows(names.deep_view(), lang@)[i as int]);
        r.push(e);
        i += 1;
    }
    assert(r.deep_view() =~= move_rows(names.deep_view(), lang@));
    r
}

/// The flyout that orders the table.
pub open spec fn arrange_rows(lang: Texts) -> Seq<SubEntryModel> {
    seq![
        SubEntryModel {
            action: MenuActionModel::ArrangeBy(SortKey::Name),
            label: translated(lang, "File Name"@),
            checked: false,
        },
        SubEntryModel {
            action: MenuActionModel::ArrangeBy(SortKey::Size),
            label: translated(lang, "Size"@),
            checked: false,
        },
        SubEntryModel {
            action: MenuActionModel::ArrangeBy(SortKey::Status),
            label: translated(lang, "Status"@),
            checked: false,
        },
        SubEntryModel {
            action: MenuActionModel::ArrangeBy(SortKey::TimeLeft),
            label: translated(lang, "Time left"@),
            checked: false,
        },
        SubEntryModel {
            action: MenuActionModel::ArrangeBy(SortKey::Rate),
            label: translated(lang, "Transfer rate"@),
            checked: false,
        },
        SubEntryModel {
            action: MenuActionModel::ArrangeBy(SortKey::LastTry),
            label: translated(lang, "Last Try Date"@),
            checked: false,
        },
        SubEntryModel {
            action: MenuActionModel::ArrangeBy(SortKey::Description),
            label: translated(lang, "Description"@),
            checked: false,
        },
    ]
}

fn list_arrange_rows(lang: &Catalogue) -> (r: Vec<SubEntry>)
    ensures
        r.deep_view() == arrange_rows(lang@),
{
    proof {
        reveal(MenuAction::model);
    }
    let mut r: Vec<SubEntry> = Vec::new();
    assert(r.deep_view() =~= seq![]);
    put_sub(&mut r, lang.tr("File Name"), MenuAction::ArrangeBy(SortKey::Name), false);
    put_sub(&mut r, lang.tr("Size"), MenuAction::ArrangeBy(SortKey::Size), false);
    put_sub(&mut r, lang.tr("Status"), MenuAction::ArrangeBy(SortKey::Status), false);
    put_sub(&mut r, lang.tr("Time left"), MenuAction::ArrangeBy(SortKey::TimeLeft), false);
    put_sub(&mut r, lang.tr("Transfer rate"), MenuAction::ArrangeBy(SortKey::Rate), false);
    put_sub(&mut r, lang.tr("Last Try Date"), MenuAction::ArrangeBy(SortKey::LastTry), false);
    put_sub(&mut r, lang.tr("Description"), MenuAction::ArrangeBy(SortKey::Description), false);
    assert(r.deep_view() =~= arrange_rows(lang@));
    r
}

/// The flyout of the themes.
pub open spec fn theme_rows(theme: ThemeMode, lang: Texts) -> Seq<SubEntryModel> {
    seq![
        SubEntryModel {
            action: MenuActionModel::SetTheme(ThemeMode::System),
            label: translated(lang, "System Default"@),
            checked: theme == ThemeMode::System,
        },
        SubEntryModel {
            action: MenuActionModel::SetTheme(ThemeMode::Light),
            label: translated(lang, "Light"@),
            checked: theme == ThemeMode::Light,
        },
        SubEntryModel {
            action: MenuActionModel::SetTheme(ThemeMode::Dark),
            label: translated(lang, "Dark"@),
            checked: theme == ThemeMode::Dark,
        },
    ]
}

fn list_theme_rows(theme: ThemeMode, lang: &Catalogue) -> (r: Vec<SubEntry>)
    ensures
        r.deep_view() == theme_rows(theme, lang@),
{
    proof {
        reveal(MenuAction::model);
    }
    let mut r: Vec<SubEntry> = Vec::new();
    assert(r.deep_view() =~= seq![]);
    put_sub(&mut r, lang.tr("System Default"), MenuAction::SetTheme(ThemeMode::System), theme == ThemeMode::System);
    put_sub(&mut r, lang.tr("Light"), MenuAction::SetTheme(ThemeMode::Light), theme == ThemeMode::Light);
    put_sub(&mut r, lang.tr("Dark"), MenuAction::SetTheme(ThemeMode::Dark), theme == ThemeMode::Dark);
    assert(r.deep_view() =~= theme_rows(theme, lang@));
    r
}

/// The flyout of the font sizes.
pub open spec fn font_rows(font: u16, lang: Texts) -> Seq<SubEntryModel> {
    seq![
        SubEntryModel {
            action: MenuActionModel::FontSize(12),
            label: translated(lang, "Small"@),
            checked: font == 12,
        },
        SubEntryModel {
            action: MenuActionModel::FontSize(13),
            label: translated(lang, "Medium"@),
            checked: font == 13,
        },
        SubEntryModel {
            action: MenuActionModel::FontSize(15),
            label: translated(lang, "Large"@),
            checked: font == 15,
        },
    ]
}

fn list_font_rows(font: u16, lang: &Catalogue) -> (r: Vec<SubEntry>)
    ensures
        r.deep_view() == font_rows(font, lang@),
{
    proof {
        reveal(MenuAction::model);
    }
    let mut r: Vec<SubEntry> = Vec::new();
    assert(r.deep_view() =~= seq![]);
    put_sub(&mut r, lang.tr("Small"), MenuAction::FontSize(12), font == 12);
    put_sub(&mut r, lang.tr("Medium"), MenuAction::FontSize(13), font == 13);
    put_sub(&mut r, lang.tr("Large"), MenuAction::FontSize(15), font == 15);
    assert(r.deep_view() =~= font_rows(font, lang@));
    r
}

/// A language by its own name.
pub open spec fn language_label(tag: Seq<char>) -> Seq<char> {
    match native_name(tag) {
        Some(n) => n,
        None => tag,
    }
}

/// The flyout of the languages.
pub open spec fn language_rows(tags: Seq<Seq<char>>, cur: Seq<char>) -> Seq<SubEntryModel> {
    Seq::new(
        tags.len(),
        |i: int|
            SubEntryModel {
                action: MenuActionModel::Language(tags[i]),
                label: language_label(tags[i]),
                checked: cur == tags[i],
            },
    )
}

fn list_language_rows(tags: &Vec<String>, cur: &str) -> (r: Vec<SubEntry>)
    ensures
        r.deep_view() == language_rows(tags.deep_view(), cur@),
{
    let mut r: Vec<SubEntry> = Vec::new();
    let mut i: usize = 0;
    while i < tags.len()
        invariant
            i <= tags@.len(),
            r@.len() == i,
            forall|k: int|
                0 <= k < i ==> (#[trigger] r@[k])@ == language_rows(tags.deep_view(), cur@)[k],
        decreases tags.len() - i,
    {
        proof {
            reveal(MenuAction::model);
        }
        let e = SubEntry {
            action: MenuAction::Language(tags[i].clone()),
            label: display_name(&tags[i]),
            checked: same(cur, &tags[i]),
        };
        assert(e@ == language_rows(tags.deep_view(), cur@)[i as int]);
        r.push(e);
        i += 1;
    }
    assert(r.deep_view() =~= language_rows(tags.deep_view(), cur@));
    r
}

/// The Tasks menu.
pub open spec fn tasks_menu(lang: Texts) -> Seq<EntryModel> {
    seq![
        EntryModel::item(translated(lang, "Add new download"@), MenuActionModel::AddNewDownload),
        EntryModel::item(translated(lang, "Add batch download"@), MenuActionModel::AddBatch),
        EntryModel::item(translated(lang, "Add batch download from clipboard"@), MenuActionModel::AddBatchClipboard),
        EntryModel::item(translated(lang, "Add batch download from text file"@), MenuActionModel::AddBatchFile),
        EntryModel::disabled(translated(lang, "Run site grabber"@)),
        EntryModel::disabled(translated(lang, "Show drop target"@)).sep(),
        EntryModel::item(translated(lang, "Export"@), MenuActionModel::ExportList).sep(),
        EntryModel::item(translated(lang, "Import"@), MenuActionModel::ImportList),
        EntryModel::item(translated(lang, "Exit"@), MenuActionModel::Exit).sep(),
    ]
}

fn list_tasks_menu(lang: &Catalogue) -> (r: Vec<Entry>)
    ensures
        r.deep_view() == tasks_menu(lang@),
{
    proof {
        reveal(MenuAction::model);
    }
    let mut v: Vec<Entry> = Vec::new();
    assert(v.deep_view() =~= seq![]);
    put(&mut v, Entry::item(lang.tr("Add new download"), MenuAction::AddNewDownload));
    put(&mut v, Entry::item(lang.tr("Add batch download"), MenuAction::AddBatch));
    put(&mut v, Entry::item(lang.tr("Add batch download from clipboard"), MenuAction::AddBatchClipboard));
    put(&mut v, Entry::item(lang.tr("Add batch download from text file"), MenuAction::AddBatchFile));
    put(&mut v, Entry::disabled(lang.tr("Run site grabber")));
    put(&mut v, Entry::disabled(lang.tr("Show drop target")).sep());
    put(&mut v, Entry::item(lang.tr("Export"), MenuAction::ExportList).sep());
    put(&mut v, Entry::item(lang.tr("Import"), MenuAction::ImportList));
    put(&mut v, Entry::item(lang.tr("Exit"), MenuAction::Exit).sep());
    assert(v.deep_view() =~= tasks_menu(lang@));
    v
}

/// The File menu.
pub open spec fn file_menu(f: MenuFactsModel, lang: Texts) -> Seq<EntryModel> {
    seq![
        EntryModel::item(translated(lang, "Stop Download"@), MenuActionModel::StopDownload).when(active(f.sel)),
        EntryModel::item(translated(lang, "Remove"@), MenuActionModel::Remove).when(f.sel is Some),
        EntryModel::item(translated(lang, "Download Now"@), MenuActionModel::DownloadNow).when(stopped(f.sel)),
        EntryModel::item(translated(lang, "Redownload"@), MenuActionModel::Redownload).when(f.sel is Some),
    ]
}

fn list_file_menu(f: &MenuFacts, lang: &Catalogue) -> (r: Vec<Entry>)
    ensures
        r.deep_view() == file_menu(f@, lang@),
{
    proof {
        reveal(MenuAction::model);
    }
    let mut v: Vec<Entry> = Vec::new();
    assert(v.deep_view() =~= seq![]);
    put(&mut v, Entry::item(lang.tr("Stop Download"), MenuAction::StopDownload).when(is_active(f.sel)));
    put(&mut v, Entry::item(lang.tr("Remove"), MenuAction::Remove).when(f.sel.is_some()));
    put(&mut v, Entry::item(lang.tr("Download Now"), MenuAction::DownloadNow).when(is_stopped(f.sel)));
    put(&mut v, Entry::item(lang.tr("Redownload"), MenuAction::Redownload).when(f.sel.is_some()));
    assert(v.deep_view() =~= file_menu(f@, lang@));
    v
}

/// The Downloads menu.
pub open spec fn downloads_menu(f: MenuFactsModel, lang: Texts) -> Seq<EntryModel> {
    seq![
        EntryModel::item(translated(lang, "Pause All"@), MenuActionModel::PauseAll).when(f.any_active),
        EntryModel::item(translated(lang, "Stop All"@), MenuActionModel::StopAll).when(f.any_active),
        EntryModel::item(translated(lang, "Delete All Completed"@), MenuActionModel::DeleteAllCompleted).sep(),
        EntryModel::disabled(translated(lang, "Find"@)).sep(),
        EntryModel::item(translated(lang, "Scheduler"@), MenuActionModel::Scheduler).sep(),
        EntryModel::sub(translated(lang, "Start queue"@), start_rows(f.queues, lang)),
        EntryModel::sub(translated(lang, "Stop queue"@), stop_rows(f.queues, lang)),
        EntryModel::item(translated(lang, "Speed Limiter"@), MenuActionModel::SpeedLimiterToggle).check(f.limiter).sep(),
        EntryModel::item(translated(lang, "Options"@), MenuActionModel::Options).sep(),
    ]
}

fn list_downloads_menu(f: &MenuFacts, lang: &Catalogue) -> (r: Vec<Entry>)
    ensures
        r.deep_view() == downloads_menu(f@, lang@),
{
    proof {
        reveal(MenuAction::model);
    }
    let mut v: Vec<Entry> = Vec::new();
    assert(v.deep_view() =~= seq![]);
    put(&mut v, Entry::item(lang.tr("Pause All"), MenuAction::PauseAll).when(f.any_active));
    put(&mut v, Entry::item(lang.tr("Stop All"), MenuAction::StopAll).when(f.any_active));
    put(&mut v, Entry::item(lang.tr("Delete All Completed"), MenuAction::DeleteAllCompleted).sep());
    put(&mut v, Entry::disabled(lang.tr("Find")).sep());
    put(&mut v, Entry::item(lang.tr("Scheduler"), MenuAction::Scheduler).sep());
    put(&mut v, Entry::sub(lang.tr("Start queue"), list_start_rows(&f.queues, lang)));
    put(&mut v, Entry::sub(lang.tr("Stop queue"), list_stop_rows(&f.queues, lang)));
    put(&mut v, Entry::item(lang.tr("Speed Limiter"), MenuAction::SpeedLimiterToggle).check(f.limiter).sep());
    put(&mut v, Entry::item(lang.tr("Options"), MenuAction::Options).sep());
    assert(v.deep_view() =~= downloads_menu(f@, lang@));
    v
}

/// The View menu.
pub open spec fn view_menu(f: MenuFactsModel, lang: Texts) -> Seq<EntryModel> {
    seq![
        EntryModel::item(translated(lang, "Hide categories"@), MenuActionModel::HideCategories).check(!f.categories),
        EntryModel::sub(translated(lang, "Arrange files"@), arrange_rows(lang)),
        EntryModel::sub(translated(lang, "Theme"@), theme_rows(f.theme, lang)).sep(),
        EntryModel::sub(translated(lang, "Font"@), font_rows(f.font, lang)),
        EntryModel::sub(translated(lang, "Language"@), language_rows(f.languages, f.language)),
    ]
}

fn list_view_menu(f: &MenuFacts, lang: &Catalogue) -> (r: Vec<Entry>)
    ensures
        r.deep_view() == view_menu(f@, lang@),
{
    proof {
        reveal(MenuAction::model);
    }
    let mut v: Vec<Entry> = Vec::new();
    assert(v.deep_view() =~= seq![]);
    put(&mut v, Entry::item(lang.tr("Hide categories"), MenuAction::HideCategories).check(!f.categories));
    put(&mut v, Entry::sub(lang.tr("Arrange files"), list_arrange_rows(lang)));
    put(&mut v, Entry::sub(lang.tr("Theme"), list_theme_rows(f.theme, lang)).sep());
    put(&mut v, Entry::sub(lang.tr("Font"), list_font_rows(f.font, lang)));
    put(&mut v, Entry::sub(lang.tr("Language"), list_language_rows(&f.languages, &f.language)));
    assert(v.deep_view() =~= view_menu(f@, lang@));
    v
}

/// The Help menu.
pub open spec fn help_menu(lang: Texts) -> Seq<EntryModel> {
    seq![
        EntryModel::item(translated(lang, "PlayDL 涓婚〉"@), MenuActionModel::HomePage),
        EntryModel::item(translated(lang, "Contribute on GitHub"@), MenuActionModel::Contribute),
        EntryModel::item(translated(lang, "Keyboard Shortcuts"@), MenuActionModel::Shortcuts),
        EntryModel::item(translated(lang, "Permissions"@), MenuActionModel::Permissions),
        EntryModel::item(translated(lang, "Logs"@), MenuActionModel::Logs),
        EntryModel::item(translated(lang, "Report an Issue"@), MenuActionModel::ReportIssue),
        EntryModel::item(translated(lang, "Check for updates"@), MenuActionModel::CheckUpdates).sep(),
        EntryModel::item(translated(lang, "鍏充簬 PlayDL"@), MenuActionModel::About).sep(),
    ]
}

fn list_help_menu(lang: &Catalogue) -> (r: Vec<Entry>)
    ensures
        r.deep_view() == help_menu(lang@),
{
    proof {
        reveal(MenuAction::model);
    }
    let mut v: Vec<Entry> = Vec::new();
    assert(v.deep_view() =~= seq![]);
    put(&mut v, Entry::item(lang.tr("PlayDL 涓婚〉"), MenuAction::HomePage));
    put(&mut v, Entry::item(lang.tr("Contribute on GitHub"), MenuAction::Contribute));
    put(&mut v, Entry::item(lang.tr("Keyboard Shortcuts"), MenuAction::Shortcuts));
    put(&mut v, Entry::item(lang.tr("Permissions"), MenuAction::Permissions));
    put(&mut v, Entry::item(lang.tr("Logs"), MenuAction::Logs));
    put(&mut v, Entry::item(lang.tr("Report an Issue"), MenuAction::ReportIssue));
    put(&mut v, Entry::item(lang.tr("Check for updates"), MenuAction::CheckUpdates).sep());
    put(&mut v, Entry::item(lang.tr("鍏充簬 PlayDL"), MenuAction::About).sep());
    assert(v.deep_view() =~= help_menu(lang@));
    v
}

/// The rows of a menu.
pub open spec fn menu_entries(kind: MenuBarKind, f: MenuFactsModel, lang: Texts) -> Seq<EntryModel> {
    match kind {
        MenuBarKind::Tasks => tasks_menu(lang),
        MenuBarKind::File => file_menu(f, lang),
        MenuBarKind::Downloads => downloads_menu(f, lang),
        MenuBarKind::View => view_menu(f, lang),
        MenuBarKind::Help => help_menu(lang),
    }
}

/// The rows of one menu of the bar.
pub fn entries(kind: MenuBarKind, f: &MenuFacts, lang: &Catalogue) -> (r: Vec<Entry>)
    ensures
        r.deep_view() == menu_entries(kind, f@, lang@),
{
    match kind {
        MenuBarKind::Tasks => list_tasks_menu(lang),
        MenuBarKind::File => list_file_menu(f, lang),
        MenuBarKind::Downloads => list_downloads_menu(f, lang),
        MenuBarKind::View => list_view_menu(f, lang),
        MenuBarKind::Help => list_help_menu(lang),
    }
}

/// The rows of the context menu of the selected row.
pub open spec fn context_menu(f: MenuFactsModel, lang: Texts) -> Seq<EntryModel> {
    if f.sel is None {
        seq![]
    } else {
        (if f.sel == Some(DlState::Complete) {
            seq![EntryModel::item(translated(lang, "Open"@), MenuActionModel::OpenSel)]
        } else {
            seq![]
        }) + seq![
            EntryModel::item(translated(lang, "Open folder"@), MenuActionModel::OpenFolderSel),
            EntryModel::item(translated(lang, "Resume Download"@), MenuActionModel::DownloadNow).sep().when(stopped(f.sel)),
            EntryModel::item(translated(lang, "Stop Download"@), MenuActionModel::StopDownload).when(active(f.sel)),
            EntryModel::item(translated(lang, "Redownload"@), MenuActionModel::Redownload),
            EntryModel::item(translated(lang, "Delete"@), MenuActionModel::Remove).sep(),
            EntryModel::sub(translated(lang, "Move to queue"@), move_rows(f.queues, lang)).sep(),
            EntryModel::item(translated(lang, "Remove from queue"@), MenuActionModel::RemoveFromQueue).when(f.sel_queued),
            EntryModel::item(translated(lang, "Properties"@), MenuActionModel::Properties).sep(),
        ]
    }
}

/// The context menu of the selected row; empty where none is selected.
pub fn context_entries(f: &MenuFacts, lang: &Catalogue) -> (r: Vec<Entry>)
    ensures
        r.deep_view() == context_menu(f@, lang@),
{
    proof {
        reveal(MenuAction::model);
    }
    let mut v: Vec<Entry> = Vec::new();
    assert(v.deep_view() =~= seq![]);
    let st = match f.sel {
        Some(s) => s,
        None => return v,
    };
    if st == DlState::Complete {
        put(&mut v, Entry::item(lang.tr("Open"), MenuAction::OpenSel));
    }
    put(&mut v, Entry::item(lang.tr("Open folder"), MenuAction::OpenFolderSel));
    put(&mut v, Entry::item(lang.tr("Resume Download"), MenuAction::DownloadNow).sep().when(is_stopped(f.sel)));
    put(&mut v, Entry::item(lang.tr("Stop Download"), MenuAction::StopDownload).when(is_active(f.sel)));
    put(&mut v, Entry::item(lang.tr("Redownload"), MenuAction::Redownload));
    put(&mut v, Entry::item(lang.tr("Delete"), MenuAction::Remove).sep());
    put(&mut v, Entry::sub(lang.tr("Move to queue"), list_move_rows(&f.queues, lang)).sep());
    put(&mut v, Entry::item(lang.tr("Remove from queue"), MenuAction::RemoveFromQueue).when(f.sel_queued));
    put(&mut v, Entry::item(lang.tr("Properties"), MenuAction::Properties).sep());
    assert(v.deep_view() =~= context_menu(f@, lang@));
    v
}

// ------------------------------------------------------------------ in a dropdown

/// A flyout with more rows than this scrolls.
pub const FLYOUT_MAX_ROWS: usize = 10;

/// What pressing a row does.
#[derive(Debug)]
pub enum Press {
    Nothing,
    /// The row's flyout opens.
    Flyout(usize),
    Command(MenuAction),
}

/// The model of [`Press`].
pub enum PressModel {
    Nothing,
    Flyout(usize),
    Command(MenuActionModel),
}

impl View for Press {
    type V = PressModel;

    open spec fn view(&self) -> PressModel {
        match *self {
            Press::Nothing => PressModel::Nothing,
            Press::Flyout(i) => PressModel::Flyout(i),
            Press::Command(a) => PressModel::Command(a@),
        }
    }
}

/// What pressing the row at place `i` does: a row with a flyout opens it, and a
/// disabled one does nothing.
pub open spec fn pressed(e: EntryModel, i: usize) -> PressModel {
    if e.submenu.len() > 0 {
        PressModel::Flyout(i)
    } else {
        match e.action {
            Some(a) if e.enabled => PressModel::Command(a),
            _ => PressModel::Nothing,
        }
    }
}

pub fn press(e: &Entry, i: usize) -> (r: Press)
    ensures
        r@ == pressed(e@, i),
{
    if e.submenu.len() > 0 {
        return Press::Flyout(i);
    }
    match &e.action {
        Some(a) => if e.enabled {
            Press::Command(a.twin())
        } else {
            Press::Nothing
        },
        None => Press::Nothing,
    }
}

/// The flyout that is open: that of the entry pointed at, if it has one.
pub fn open_flyout(items: &Vec<Entry>, at: Option<usize>) -> (r: Option<usize>)
    ensures
        r == (match at {
            Some(i) if i < items@.len() && items@[i as int].submenu@.len() > 0 => Some(i),
            _ => None,
        }),
{
    match at {
        Some(i) => if i < items.len() && items[i].submenu.len() > 0 {
            Some(i)
        } else {
            None
        },
        None => None,
    }
}

/// Whether the flyout of an entry scrolls.
pub fn scrolls(e: &Entry) -> (r: bool)
    ensures
        r == (e.submenu@.len() > FLYOUT_MAX_ROWS),
{
    e.submenu.len() > FLYOUT_MAX_ROWS
}

// ------------------------------------------------------------------ from the state

/// The names of the queues.
pub open spec fn queue_names(v: Queues) -> Seq<Seq<char>> {
    v.map_values(|q: crate::model::QueueDefModel| q.name)
}

pub(crate) fn names_of(v: &Vec<QueueDef>) -> (r: Vec<String>)
    ensures
        r.deep_view() == queue_names(v.deep_view()),
{
    let mut r: Vec<String> = Vec::new();
    let mut i: usize = 0;
    while i < v.len()
        invariant
            i <= v@.len(),
            r@.len() == i,
            forall|k: int| 0 <= k < i ==> (#[trigger] r@[k])@ == v@[k]@.name,
        decreases v.len() - i,
    {
        r.push(v[i].name.clone());
        i += 1;
    }
    assert(r.deep_view() =~= queue_names(v.deep_view()));
    r
}

/// The language in use: the chosen one, or that of the system. An old
/// configuration spells English out.
pub open spec fn language_in_use(chosen: Option<Seq<char>>, system: Seq<char>) -> Seq<char> {
    let l = match chosen {
        Some(c) => c,
        None => system,
    };
    if l == "English"@ {
        "en"@
    } else {
        l
    }
}

impl AppModel {
    /// What the menus show of the state.
    pub open spec fn menu_facts(self, system: Seq<char>, languages: Seq<Seq<char>>) -> MenuFactsModel {
        let sel = self.selected_item();
        MenuFactsModel {
            sel: match sel {
                Some(d) => Some(d.state),
                None => None,
            },
            sel_queued: match sel {
                Some(d) => d.queue is Some,
                None => false,
            },
            any_active: self.any_active(),
            queues: queue_names(self.queues()),
            limiter: self.cfg.settings.speed_limiter_on,
            categories: self.cfg.settings.on.show_categories,
            theme: self.cfg.settings.theme(),
            font: self.cfg.settings.font_size,
            language: language_in_use(self.cfg.language, system),
            languages,
        }
    }
}

impl App {
    pub(crate) fn language(&self, system: &str) -> (r: String)
        ensures
            r@ == language_in_use(self@.cfg.language, system@),
    {
        proof {
            reveal(App::model);
        }
        let l = match &self.cfg.language {
            Some(c) => c.clone(),
            None => system.to_owned(),
        };
        if same(&l, "English") {
            "en".to_owned()
        } else {
            l
        }
    }

    pub(crate) fn looks(&self) -> (r: (bool, ThemeMode, u16))
        ensures
            r.0 == self@.cfg.settings.speed_limiter_on,
            r.1 == self@.cfg.settings.theme(),
            r.2 == self@.cfg.settings.font_size,
    {
        proof {
            reveal(App::model);
        }
        (
            self.cfg.settings.speed_limiter_on,
            self.cfg.settings.theme(),
            self.cfg.settings.font_size,
        )
    }

    /// The names of the queues, in order.
    pub fn queue_names(&self) -> (r: Vec<String>)
        ensures
            r.deep_view() == queue_names(self@.queues()),
    {
        proof {
            reveal(App::model);
        }
        names_of(&self.cfg.queues)
    }

    /// What the menus show now. `system` is the system's language.
    pub fn menu_facts(&self, system: &str, languages: Vec<String>) -> (r: MenuFacts)
        ensures
            r@ == self@.menu_facts(system@, languages.deep_view()),
    {
        let (sel, sel_queued) = match self.selected_item() {
            Some(d) => (Some(d.state), d.queue.is_some()),
            None => (None, false),
        };
        let (limiter, theme, font) = self.looks();
        MenuFacts {
            sel,
            sel_queued,
            any_active: self.any_row_active(),
            queues: self.queue_names(),
            limiter,
            categories: self.switches().show_categories,
            theme,
            font,
            language: self.language(system),
            languages,
        }
    }
}

// ------------------------------------------------------------------------- laws

/// Every flyout of a radio group ticks at most one row.
pub proof fn themes_tick_one(theme: ThemeMode, lang: Texts, i: int, j: int)
    requires
        0 <= i < 3,
        0 <= j < 3,
        theme_rows(theme, lang)[i].checked,
        theme_rows(theme, lang)[j].checked,
    ensures
        i == j,
{
}

/// No transfer, no Stop: the command that stops the selected row can be chosen
/// only while it runs.
pub proof fn only_a_running_row_can_be_stopped(f: MenuFactsModel, lang: Texts)
    ensures
        file_menu(f, lang)[0].enabled <==> active(f.sel),
{
}

} // verus!
