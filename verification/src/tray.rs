//! The native menus: that of the tray icon, and the menu bar of a Mac. Both are
//! described here by values, and drawn by whatever the desktop has.
use crate::actions::{action_id, MenuAction, MenuActionModel};
use crate::app::{App, AppModel};
use crate::i18n::{display_name, translated, Catalogue, Texts};
use crate::menus::language_label;
use crate::model::ThemeMode;
use crate::state::SortKey;
use crate::text::{ascii_lower, contains, has, lower, replace, replaced, same};
use crate::twin::Twin;
use vstd::prelude::*;

verus! {

/// An entry of a flyout.
#[derive(Debug)]
pub enum Leaf {
    Item { id: String, label: String },
    Check { id: String, label: String, checked: bool },
    Separator,
}

/// The model of [`Leaf`].
#[verifier::ext_equal]
pub enum LeafModel {
    Item { id: Seq<char>, label: Seq<char> },
    Check { id: Seq<char>, label: Seq<char>, checked: bool },
    Separator,
}

impl View for Leaf {
    type V = LeafModel;

    open spec fn view(&self) -> LeafModel {
        match *self {
            Leaf::Item { id, label } => LeafModel::Item { id: id@, label: label@ },
            Leaf::Check { id, label, checked } => LeafModel::Check {
                id: id@,
                label: label@,
                checked: checked,
            },
            Leaf::Separator => LeafModel::Separator,
        }
    }
}

impl DeepView for Leaf {
    type V = LeafModel;

    open spec fn deep_view(&self) -> LeafModel {
        self@
    }
}

impl Twin for Leaf {
    fn twin(&self) -> (r: Self) {
        match self {
            Leaf::Item { id, label } => Leaf::Item { id: id.clone(), label: label.clone() },
            Leaf::Check { id, label, checked } => Leaf::Check {
                id: id.clone(),
                label: label.clone(),
                checked: *checked,
            },
            Leaf::Separator => Leaf::Separator,
        }
    }
}

/// An entry of a native menu. Labels are translated; ids are the names of
/// commands, and `show_main` for the main window.
#[derive(Debug)]
pub enum Entry {
    Item { id: String, label: String },
    Check { id: String, label: String, checked: bool },
    Sub { label: String, items: Vec<Leaf> },
    Separator,
    /// An entry with a key of its own.
    Accel { id: String, label: String, key: String },
    /// What a Mac offers of itself.
    Hide,
    HideOthers,
    ShowAll,
}

/// The model of [`Entry`].
#[verifier::ext_equal]
pub enum EntryModel {
    Item { id: Seq<char>, label: Seq<char> },
    Check { id: Seq<char>, label: Seq<char>, checked: bool },
    Sub { label: Seq<char>, items: Seq<LeafModel> },
    Separator,
    Accel { id: Seq<char>, label: Seq<char>, key: Seq<char> },
    Hide,
    HideOthers,
    ShowAll,
}

impl View for Entry {
    type V = EntryModel;

    open spec fn view(&self) -> EntryModel {
        match *self {
            Entry::Item { id, label } => EntryModel::Item { id: id@, label: label@ },
            Entry::Check { id, label, checked } => EntryModel::Check {
                id: id@,
                label: label@,
                checked: checked,
            },
            Entry::Sub { label, items } => EntryModel::Sub { label: label@, items: items.deep_view() },
            Entry::Separator => EntryModel::Separator,
            Entry::Accel { id, label, key } => EntryModel::Accel { id: id@, label: label@, key: key@ },
            Entry::Hide => EntryModel::Hide,
            Entry::HideOthers => EntryModel::HideOthers,
            Entry::ShowAll => EntryModel::ShowAll,
        }
    }
}

impl DeepView for Entry {
    type V = EntryModel;

    open spec fn deep_view(&self) -> EntryModel {
        self@
    }
}

impl Twin for Entry {
    fn twin(&self) -> (r: Self) {
        match self {
            Entry::Item { id, label } => Entry::Item { id: id.clone(), label: label.clone() },
            Entry::Check { id, label, checked } => Entry::Check {
                id: id.clone(),
                label: label.clone(),
                checked: *checked,
            },
            Entry::Sub { label, items } => Entry::Sub { label: label.clone(), items: items.twin() },
            Entry::Separator => Entry::Separator,
            Entry::Accel { id, label, key } => Entry::Accel {
                id: id.clone(),
                label: label.clone(),
                key: key.clone(),
            },
            Entry::Hide => Entry::Hide,
            Entry::HideOthers => Entry::HideOthers,
            Entry::ShowAll => Entry::ShowAll,
        }
    }
}

/// A menu of the bar of a Mac.
#[derive(Debug)]
pub struct BarMenu {
    pub label: String,
    pub entries: Vec<Entry>,
}

/// The model of [`BarMenu`].
#[verifier::ext_equal]
pub struct BarMenuModel {
    pub label: Seq<char>,
    pub entries: Seq<EntryModel>,
}

impl View for BarMenu {
    type V = BarMenuModel;

    open spec fn view(&self) -> BarMenuModel {
        BarMenuModel {
            label: self.label@,
            entries: self.entries.deep_view(),
        }
    }
}

impl DeepView for BarMenu {
    type V = BarMenuModel;

    open spec fn deep_view(&self) -> BarMenuModel {
        self@
    }
}

impl Twin for BarMenu {
    fn twin(&self) -> (r: Self) {
        BarMenu {
            label: self.label.clone(),
            entries: self.entries.twin(),
        }
    }
}

pub open spec fn item_of(label: Seq<char>, action: MenuActionModel, lang: Texts) -> EntryModel {
    EntryModel::Item { id: action_id(action), label: translated(lang, label) }
}

pub open spec fn leaf_of(label: Seq<char>, action: MenuActionModel, lang: Texts) -> LeafModel {
    LeafModel::Item { id: action_id(action), label: translated(lang, label) }
}

pub open spec fn check_of(
    label: Seq<char>,
    action: MenuActionModel,
    checked: bool,
    lang: Texts,
) -> EntryModel {
    EntryModel::Check { id: action_id(action), label: translated(lang, label), checked }
}

pub open spec fn leaf_check_of(
    label: Seq<char>,
    action: MenuActionModel,
    checked: bool,
    lang: Texts,
) -> LeafModel {
    LeafModel::Check { id: action_id(action), label: translated(lang, label), checked }
}

fn item(label: &str, action: MenuAction, lang: &Catalogue) -> (r: Entry)
    ensures
        r@ == item_of(label@, action@, lang@),
{
    Entry::Item { id: action.id(), label: lang.tr(label) }
}

fn leaf(label: &str, action: MenuAction, lang: &Catalogue) -> (r: Leaf)
    ensures
        r@ == leaf_of(label@, action@, lang@),
{
    Leaf::Item { id: action.id(), label: lang.tr(label) }
}

fn check(label: &str, action: MenuAction, checked: bool, lang: &Catalogue) -> (r: Entry)
    ensures
        r@ == check_of(label@, action@, checked, lang@),
{
    Entry::Check { id: action.id(), label: lang.tr(label), checked }
}

fn leaf_check(label: &str, action: MenuAction, checked: bool, lang: &Catalogue) -> (r: Leaf)
    ensures
        r@ == leaf_check_of(label@, action@, checked, lang@),
{
    Leaf::Check { id: action.id(), label: lang.tr(label), checked }
}

fn put(v: &mut Vec<Entry>, e: Entry)
    ensures
        final(v).deep_view() == old(v).deep_view().push(e@),
{
    let ghost before = v.deep_view();
    v.push(e);
    assert(v.deep_view() =~= before.push(e@));
}

fn put_leaf(v: &mut Vec<Leaf>, e: Leaf)
    ensures
        final(v).deep_view() == old(v).deep_view().push(e@),
{
    let ghost before = v.deep_view();
    v.push(e);
    assert(v.deep_view() =~= before.push(e@));
}

pub open spec fn queue_command(name: Seq<char>, start: bool) -> MenuActionModel {
    if start {
        MenuActionModel::StartQueue(name)
    } else {
        MenuActionModel::StopQueue(name)
    }
}

fn queue_action(name: &String, start: bool) -> (r: MenuAction)
    ensures
        r@ == queue_command(name@, start),
{
    proof {
        reveal(MenuAction::model);
    }
    if start {
        MenuAction::StartQueue(name.clone())
    } else {
        MenuAction::StopQueue(name.clone())
    }
}

/// The queues, by their names as they are.
pub open spec fn queue_leaves(names: Seq<Seq<char>>, start: bool) -> Seq<LeafModel> {
    Seq::new(
        names.len(),
        |i: int|
            LeafModel::Item { id: action_id(queue_command(names[i], start)), label: names[i] },
    )
}

fn queue_list(names: &Vec<String>, start: bool) -> (r: Vec<Leaf>)
    ensures
        r.deep_view() == queue_leaves(names.deep_view(), start),
{
    let mut r: Vec<Leaf> = Vec::new();
    let mut i: usize = 0;
    while i < names.len()
        invariant
            i <= names@.len(),
            r@.len() == i,
            forall|k: int|
                0 <= k < i ==> (#[trigger] r@[k])@ == queue_leaves(names.deep_view(), start)[k],
        decreases names.len() - i,
    {
        let e = Leaf::Item { id: queue_action(&names[i], start).id(), label: names[i].clone() };
        assert(e@ == queue_leaves(names.deep_view(), start)[i as int]);
        r.push(e);
        i += 1;
    }
    assert(r.deep_view() =~= queue_leaves(names.deep_view(), start));
    r
}

/// The downloads flyout of the tray.
pub open spec fn tray_downloads(lang: Texts) -> Seq<LeafModel> {
    seq![
        leaf_of("Add new download"@, MenuActionModel::AddNewDownload, lang),
        leaf_of("Pause All"@, MenuActionModel::PauseAll, lang),
        leaf_of("Stop All"@, MenuActionModel::StopAll, lang),
        LeafModel::Separator,
        leaf_of("Scheduler"@, MenuActionModel::Scheduler, lang),
    ]
}

fn make_tray_downloads(lang: &Catalogue) -> (r: Vec<Leaf>)
    ensures
        r.deep_view() == tray_downloads(lang@),
{
    proof {
        reveal(MenuAction::model);
    }
    let mut v: Vec<Leaf> = Vec::new();
    assert(v.deep_view() =~= seq![]);
    put_leaf(&mut v, leaf("Add new download", MenuAction::AddNewDownload, lang));
    put_leaf(&mut v, leaf("Pause All", MenuAction::PauseAll, lang));
    put_leaf(&mut v, leaf("Stop All", MenuAction::StopAll, lang));
    put_leaf(&mut v, Leaf::Separator);
    put_leaf(&mut v, leaf("Scheduler", MenuAction::Scheduler, lang));
    assert(v.deep_view() =~= tray_downloads(lang@));
    v
}

/// The menu of the tray icon.
pub open spec fn tray_model(queues: Seq<Seq<char>>, power_save: bool, lang: Texts) -> Seq<EntryModel> {
    seq![
        EntryModel::Item { id: "show_main"@, label: translated(lang, "Show PlayDL"@) },
        EntryModel::Separator,
        EntryModel::Sub { label: translated(lang, "Downloads"@), items: tray_downloads(lang) },
        EntryModel::Sub { label: translated(lang, "Start queue"@), items: queue_leaves(queues, true) },
        EntryModel::Sub { label: translated(lang, "Stop queue"@), items: queue_leaves(queues, false) },
        EntryModel::Separator,
        check_of("Power save mode"@, MenuActionModel::PowerSaveToggle, power_save, lang),
        item_of("Options"@, MenuActionModel::Options, lang),
        item_of("关于 PlayDL"@, MenuActionModel::About, lang),
        EntryModel::Separator,
        item_of("Exit"@, MenuActionModel::Exit, lang),
    ]
}

fn make_tray_model(queues: &Vec<String>, power_save: bool, lang: &Catalogue) -> (r: Vec<Entry>)
    ensures
        r.deep_view() == tray_model(queues.deep_view(), power_save, lang@),
{
    proof {
        reveal(MenuAction::model);
    }
    let mut v: Vec<Entry> = Vec::new();
    assert(v.deep_view() =~= seq![]);
    put(&mut v, Entry::Item { id: "show_main".to_owned(), label: lang.tr("Show PlayDL") });
    put(&mut v, Entry::Separator);
    put(&mut v, Entry::Sub { label: lang.tr("Downloads"), items: make_tray_downloads(lang) });
    put(&mut v, Entry::Sub { label: lang.tr("Start queue"), items: queue_list(queues, true) });
    put(&mut v, Entry::Sub { label: lang.tr("Stop queue"), items: queue_list(queues, false) });
    put(&mut v, Entry::Separator);
    put(&mut v, check("Power save mode", MenuAction::PowerSaveToggle, power_save, lang));
    put(&mut v, item("Options", MenuAction::Options, lang));
    put(&mut v, item("关于 PlayDL", MenuAction::About, lang));
    put(&mut v, Entry::Separator);
    put(&mut v, item("Exit", MenuAction::Exit, lang));
    assert(v.deep_view() =~= tray_model(queues.deep_view(), power_save, lang@));
    v
}

/// The tray's menu for the queues there are and the power-save setting.
pub fn model(queues: &Vec<String>, power_save: bool, lang: &Catalogue) -> (r: Vec<Entry>)
    ensures
        r.deep_view() == tray_model(queues.deep_view(), power_save, lang@),
{
    make_tray_model(queues, power_save, lang)
}

// ---------------------------------------------------------------- the tray icon

/// A label as a D-Bus menu takes it, where `_` marks a key and `__` prints one.
pub fn escape(label: &str) -> (r: String)
    ensures
        r@ == replaced(label@, "_"@, "__"@),
{
    replace(label, "_", "__")
}

/// Whether the panel wants a white glyph: the desktops whose bar is dark in
/// every scheme, and those that follow a dark scheme.
pub open spec fn white_panel(desktop: Seq<char>, dark: bool) -> bool {
    let d = lower(desktop);
    contains(d, "gnome"@) || contains(d, "unity"@) || contains(d, "cinnamon"@) || contains(
        d,
        "budgie"@,
    ) || contains(d, "pantheon"@) || dark
}

pub fn panel_wants_white(desktop: &str, dark: bool) -> (r: bool)
    ensures
        r == white_panel(desktop@, dark),
{
    let d = ascii_lower(desktop);
    has(&d, "gnome") || has(&d, "unity") || has(&d, "cinnamon") || has(&d, "budgie") || has(
        &d,
        "pantheon",
    ) || dark
}

// ----------------------------------------------------------------- the menu bar

/// What the menu bar has to show of the settings.
#[derive(Debug)]
pub struct MenuState {
    pub theme_mode: ThemeMode,
    pub show_categories: bool,
    pub font_size: u16,
    pub language: String,
    pub speed_limiter: bool,
}

/// The model of [`MenuState`].
#[verifier::ext_equal]
pub struct MenuStateModel {
    pub theme_mode: ThemeMode,
    pub show_categories: bool,
    pub font_size: u16,
    pub language: Seq<char>,
    pub speed_limiter: bool,
}

impl View for MenuState {
    type V = MenuStateModel;

    open spec fn view(&self) -> MenuStateModel {
        MenuStateModel {
            theme_mode: self.theme_mode,
            show_categories: self.show_categories,
            font_size: self.font_size,
            language: self.language@,
            speed_limiter: self.speed_limiter,
        }
    }
}

/// The queues, by their translated names.
pub open spec fn queue_items(names: Seq<Seq<char>>, start: bool, lang: Texts) -> Seq<LeafModel> {
    Seq::new(names.len(), |i: int| leaf_of(names[i], queue_command(names[i], start), lang))
}

fn queue_item_list(names: &Vec<String>, start: bool, lang: &Catalogue) -> (r: Vec<Leaf>)
    ensures
        r.deep_view() == queue_items(names.deep_view(), start, lang@),
{
    let mut r: Vec<Leaf> = Vec::new();
    let mut i: usize = 0;
    while i < names.len()
        invariant
            i <= names@.len(),
            r@.len() == i,
            forall|k: int|
                0 <= k < i ==> (#[trigger] r@[k])@ == queue_items(
                    names.deep_view(),
                    start,
                    lang@,
                )[k],
        decreases names.len() - i,
    {
        let e = leaf(&names[i], queue_action(&names[i], start), lang);
        assert(e@ == queue_items(names.deep_view(), start, lang@)[i as int]);
        r.push(e);
        i += 1;
    }
    assert(r.deep_view() =~= queue_items(names.deep_view(), start, lang@));
    r
}

/// The languages, each by its own name.
pub open spec fn language_leaves(tags: Seq<Seq<char>>, cur: Seq<char>) -> Seq<LeafModel> {
    Seq::new(
        tags.len(),
        |i: int|
            LeafModel::Check {
                id: action_id(MenuActionModel::Language(tags[i])),
                label: language_label(tags[i]),
                checked: cur == tags[i],
            },
    )
}

fn language_list(tags: &Vec<String>, cur: &str) -> (r: Vec<Leaf>)
    ensures
        r.deep_view() == language_leaves(tags.deep_view(), cur@),
{
    let mut r: Vec<Leaf> = Vec::new();
    let mut i: usize = 0;
    while i < tags.len()
        invariant
            i <= tags@.len(),
            r@.len() == i,
            forall|k: int|
                0 <= k < i ==> (#[trigger] r@[k])@ == language_leaves(tags.deep_view(), cur@)[k],
        decreases tags.len() - i,
    {
        proof {
            reveal(MenuAction::model);
        }
        let e = Leaf::Check {
            id: MenuAction::Language(tags[i].clone()).id(),
            label: display_name(&tags[i]),
            checked: same(cur, &tags[i]),
        };
        assert(e@ == language_leaves(tags.deep_view(), cur@)[i as int]);
        r.push(e);
        i += 1;
    }
    assert(r.deep_view() =~= language_leaves(tags.deep_view(), cur@));
    r
}

/// The program's own menu.
pub open spec fn bar_app(lang: Texts) -> Seq<EntryModel> {
    seq![
        item_of("鍏充簬 PlayDL"@, MenuActionModel::About, lang),
        EntryModel::Separator,
        EntryModel::Hide,
        EntryModel::HideOthers,
        EntryModel::ShowAll,
        EntryModel::Separator,
        EntryModel::Accel { id: action_id(MenuActionModel::Exit), label: translated(lang, "Exit PlayDL"@), key: "Cmd+Q"@ },
    ]
}

fn make_bar_app(lang: &Catalogue) -> (r: Vec<Entry>)
    ensures
        r.deep_view() == bar_app(lang@),
{
    proof {
        reveal(MenuAction::model);
    }
    let mut v: Vec<Entry> = Vec::new();
    assert(v.deep_view() =~= seq![]);
    put(&mut v, item("鍏充簬 PlayDL", MenuAction::About, lang));
    put(&mut v, Entry::Separator);
    put(&mut v, Entry::Hide);
    put(&mut v, Entry::HideOthers);
    put(&mut v, Entry::ShowAll);
    put(&mut v, Entry::Separator);
    put(&mut v, Entry::Accel { id: MenuAction::Exit.id(), label: lang.tr("Exit PlayDL"), key: "Cmd+Q".to_owned() });
    assert(v.deep_view() =~= bar_app(lang@));
    v
}

/// The Tasks menu.
pub open spec fn bar_tasks(lang: Texts) -> Seq<EntryModel> {
    seq![
        item_of("Add new download"@, MenuActionModel::AddNewDownload, lang),
        item_of("Add batch download"@, MenuActionModel::AddBatch, lang),
        item_of("Add batch download from clipboard"@, MenuActionModel::AddBatchClipboard, lang),
        item_of("Add batch download from text file"@, MenuActionModel::AddBatchFile, lang),
        EntryModel::Separator,
        item_of("Export"@, MenuActionModel::ExportList, lang),
        item_of("Import"@, MenuActionModel::ImportList, lang),
    ]
}

fn make_bar_tasks(lang: &Catalogue) -> (r: Vec<Entry>)
    ensures
        r.deep_view() == bar_tasks(lang@),
{
    proof {
        reveal(MenuAction::model);
    }
    let mut v: Vec<Entry> = Vec::new();
    assert(v.deep_view() =~= seq![]);
    put(&mut v, item("Add new download", MenuAction::AddNewDownload, lang));
    put(&mut v, item("Add batch download", MenuAction::AddBatch, lang));
    put(&mut v, item("Add batch download from clipboard", MenuAction::AddBatchClipboard, lang));
    put(&mut v, item("Add batch download from text file", MenuAction::AddBatchFile, lang));
    put(&mut v, Entry::Separator);
    put(&mut v, item("Export", MenuAction::ExportList, lang));
    put(&mut v, item("Import", MenuAction::ImportList, lang));
    assert(v.deep_view() =~= bar_tasks(lang@));
    v
}

/// The File menu.
pub open spec fn bar_file(lang: Texts) -> Seq<EntryModel> {
    seq![
        item_of("Stop Download"@, MenuActionModel::StopDownload, lang),
        item_of("Remove"@, MenuActionModel::Remove, lang),
        item_of("Download Now"@, MenuActionModel::DownloadNow, lang),
        item_of("Redownload"@, MenuActionModel::Redownload, lang),
    ]
}

fn make_bar_file(lang: &Catalogue) -> (r: Vec<Entry>)
    ensures
        r.deep_view() == bar_file(lang@),
{
    proof {
        reveal(MenuAction::model);
    }
    let mut v: Vec<Entry> = Vec::new();
    assert(v.deep_view() =~= seq![]);
    put(&mut v, item("Stop Download", MenuAction::StopDownload, lang));
    put(&mut v, item("Remove", MenuAction::Remove, lang));
    put(&mut v, item("Download Now", MenuAction::DownloadNow, lang));
    put(&mut v, item("Redownload", MenuAction::Redownload, lang));
    assert(v.deep_view() =~= bar_file(lang@));
    v
}

/// The Downloads menu.
pub open spec fn bar_downloads(st: MenuStateModel, queues: Seq<Seq<char>>, lang: Texts) -> Seq<EntryModel> {
    seq![
        item_of("Pause All"@, MenuActionModel::PauseAll, lang),
        item_of("Stop All"@, MenuActionModel::StopAll, lang),
        EntryModel::Separator,
        item_of("Delete All Completed"@, MenuActionModel::DeleteAllCompleted, lang),
        EntryModel::Separator,
        item_of("Scheduler"@, MenuActionModel::Scheduler, lang),
        EntryModel::Sub { label: translated(lang, "Start queue"@), items: queue_items(queues, true, lang) },
        EntryModel::Sub { label: translated(lang, "Stop queue"@), items: queue_items(queues, false, lang) },
        check_of("Speed Limiter"@, MenuActionModel::SpeedLimiterToggle, st.speed_limiter, lang),
        EntryModel::Separator,
        item_of("Options"@, MenuActionModel::Options, lang),
    ]
}

fn make_bar_downloads(st: &MenuState, queues: &Vec<String>, lang: &Catalogue) -> (r: Vec<Entry>)
    ensures
        r.deep_view() == bar_downloads(st@, queues.deep_view(), lang@),
{
    proof {
        reveal(MenuAction::model);
    }
    let mut v: Vec<Entry> = Vec::new();
    assert(v.deep_view() =~= seq![]);
    put(&mut v, item("Pause All", MenuAction::PauseAll, lang));
    put(&mut v, item("Stop All", MenuAction::StopAll, lang));
    put(&mut v, Entry::Separator);
    put(&mut v, item("Delete All Completed", MenuAction::DeleteAllCompleted, lang));
    put(&mut v, Entry::Separator);
    put(&mut v, item("Scheduler", MenuAction::Scheduler, lang));
    put(&mut v, Entry::Sub { label: lang.tr("Start queue"), items: queue_item_list(queues, true, lang) });
    put(&mut v, Entry::Sub { label: lang.tr("Stop queue"), items: queue_item_list(queues, false, lang) });
    put(&mut v, check("Speed Limiter", MenuAction::SpeedLimiterToggle, st.speed_limiter, lang));
    put(&mut v, Entry::Separator);
    put(&mut v, item("Options", MenuAction::Options, lang));
    assert(v.deep_view() =~= bar_downloads(st@, queues.deep_view(), lang@));
    v
}

/// The flyout that orders the table.
pub open spec fn bar_arrange(lang: Texts) -> Seq<LeafModel> {
    seq![
        leaf_of("File Name"@, MenuActionModel::ArrangeBy(SortKey::Name), lang),
        leaf_of("Size"@, MenuActionModel::ArrangeBy(SortKey::Size), lang),
        leaf_of("Status"@, MenuActionModel::ArrangeBy(SortKey::Status), lang),
        leaf_of("Time left"@, MenuActionModel::ArrangeBy(SortKey::TimeLeft), lang),
        leaf_of("Transfer rate"@, MenuActionModel::ArrangeBy(SortKey::Rate), lang),
        leaf_of("Last Try Date"@, MenuActionModel::ArrangeBy(SortKey::LastTry), lang),
        leaf_of("Description"@, MenuActionModel::ArrangeBy(SortKey::Description), lang),
    ]
}

fn make_bar_arrange(lang: &Catalogue) -> (r: Vec<Leaf>)
    ensures
        r.deep_view() == bar_arrange(lang@),
{
    proof {
        reveal(MenuAction::model);
    }
    let mut v: Vec<Leaf> = Vec::new();
    assert(v.deep_view() =~= seq![]);
    put_leaf(&mut v, leaf("File Name", MenuAction::ArrangeBy(SortKey::Name), lang));
    put_leaf(&mut v, leaf("Size", MenuAction::ArrangeBy(SortKey::Size), lang));
    put_leaf(&mut v, leaf("Status", MenuAction::ArrangeBy(SortKey::Status), lang));
    put_leaf(&mut v, leaf("Time left", MenuAction::ArrangeBy(SortKey::TimeLeft), lang));
    put_leaf(&mut v, leaf("Transfer rate", MenuAction::ArrangeBy(SortKey::Rate), lang));
    put_leaf(&mut v, leaf("Last Try Date", MenuAction::ArrangeBy(SortKey::LastTry), lang));
    put_leaf(&mut v, leaf("Description", MenuAction::ArrangeBy(SortKey::Description), lang));
    assert(v.deep_view() =~= bar_arrange(lang@));
    v
}

/// The flyout of the themes.
pub open spec fn bar_themes(theme: ThemeMode, lang: Texts) -> Seq<LeafModel> {
    seq![
        leaf_check_of("System Default"@, MenuActionModel::SetTheme(ThemeMode::System), theme == ThemeMode::System, lang),
        leaf_check_of("Light"@, MenuActionModel::SetTheme(ThemeMode::Light), theme == ThemeMode::Light, lang),
        leaf_check_of("Dark"@, MenuActionModel::SetTheme(ThemeMode::Dark), theme == ThemeMode::Dark, lang),
    ]
}

fn make_bar_themes(theme: ThemeMode, lang: &Catalogue) -> (r: Vec<Leaf>)
    ensures
        r.deep_view() == bar_themes(theme, lang@),
{
    proof {
        reveal(MenuAction::model);
    }
    let mut v: Vec<Leaf> = Vec::new();
    assert(v.deep_view() =~= seq![]);
    put_leaf(&mut v, leaf_check("System Default", MenuAction::SetTheme(ThemeMode::System), theme == ThemeMode::System, lang));
    put_leaf(&mut v, leaf_check("Light", MenuAction::SetTheme(ThemeMode::Light), theme == ThemeMode::Light, lang));
    put_leaf(&mut v, leaf_check("Dark", MenuAction::SetTheme(ThemeMode::Dark), theme == ThemeMode::Dark, lang));
    assert(v.deep_view() =~= bar_themes(theme, lang@));
    v
}

/// The flyout of the font sizes.
pub open spec fn bar_fonts(font: u16, lang: Texts) -> Seq<LeafModel> {
    seq![
        leaf_check_of("Small"@, MenuActionModel::FontSize(12), font == 12, lang),
        leaf_check_of("Medium"@, MenuActionModel::FontSize(13), font == 13, lang),
        leaf_check_of("Large"@, MenuActionModel::FontSize(15), font == 15, lang),
    ]
}

fn make_bar_fonts(font: u16, lang: &Catalogue) -> (r: Vec<Leaf>)
    ensures
        r.deep_view() == bar_fonts(font, lang@),
{
    proof {
        reveal(MenuAction::model);
    }
    let mut v: Vec<Leaf> = Vec::new();
    assert(v.deep_view() =~= seq![]);
    put_leaf(&mut v, leaf_check("Small", MenuAction::FontSize(12), font == 12, lang));
    put_leaf(&mut v, leaf_check("Medium", MenuAction::FontSize(13), font == 13, lang));
    put_leaf(&mut v, leaf_check("Large", MenuAction::FontSize(15), font == 15, lang));
    assert(v.deep_view() =~= bar_fonts(font, lang@));
    v
}

/// The View menu.
pub open spec fn bar_view(st: MenuStateModel, tags: Seq<Seq<char>>, lang: Texts) -> Seq<EntryModel> {
    seq![
        check_of("Hide categories"@, MenuActionModel::HideCategories, !st.show_categories, lang),
        EntryModel::Sub { label: translated(lang, "Arrange files"@), items: bar_arrange(lang) },
        EntryModel::Sub { label: translated(lang, "Theme"@), items: bar_themes(st.theme_mode, lang) },
        EntryModel::Sub { label: translated(lang, "Font"@), items: bar_fonts(st.font_size, lang) },
        EntryModel::Sub { label: translated(lang, "Language"@), items: language_leaves(tags, st.language) },
    ]
}

fn make_bar_view(st: &MenuState, tags: &Vec<String>, lang: &Catalogue) -> (r: Vec<Entry>)
    ensures
        r.deep_view() == bar_view(st@, tags.deep_view(), lang@),
{
    proof {
        reveal(MenuAction::model);
    }
    let mut v: Vec<Entry> = Vec::new();
    assert(v.deep_view() =~= seq![]);
    put(&mut v, check("Hide categories", MenuAction::HideCategories, !st.show_categories, lang));
    put(&mut v, Entry::Sub { label: lang.tr("Arrange files"), items: make_bar_arrange(lang) });
    put(&mut v, Entry::Sub { label: lang.tr("Theme"), items: make_bar_themes(st.theme_mode, lang) });
    put(&mut v, Entry::Sub { label: lang.tr("Font"), items: make_bar_fonts(st.font_size, lang) });
    put(&mut v, Entry::Sub { label: lang.tr("Language"), items: language_list(tags, &st.language) });
    assert(v.deep_view() =~= bar_view(st@, tags.deep_view(), lang@));
    v
}

/// The Help menu.
pub open spec fn bar_help(lang: Texts) -> Seq<EntryModel> {
    seq![
        item_of("PlayDL 涓婚〉"@, MenuActionModel::HomePage, lang),
        item_of("Contribute on GitHub"@, MenuActionModel::Contribute, lang),
        item_of("Keyboard Shortcuts"@, MenuActionModel::Shortcuts, lang),
        item_of("Permissions"@, MenuActionModel::Permissions, lang),
        item_of("Logs"@, MenuActionModel::Logs, lang),
        item_of("Report an Issue"@, MenuActionModel::ReportIssue, lang),
        item_of("Check for updates"@, MenuActionModel::CheckUpdates, lang),
        item_of("鍏充簬 PlayDL"@, MenuActionModel::About, lang),
    ]
}

fn make_bar_help(lang: &Catalogue) -> (r: Vec<Entry>)
    ensures
        r.deep_view() == bar_help(lang@),
{
    proof {
        reveal(MenuAction::model);
    }
    let mut v: Vec<Entry> = Vec::new();
    assert(v.deep_view() =~= seq![]);
    put(&mut v, item("PlayDL 涓婚〉", MenuAction::HomePage, lang));
    put(&mut v, item("Contribute on GitHub", MenuAction::Contribute, lang));
    put(&mut v, item("Keyboard Shortcuts", MenuAction::Shortcuts, lang));
    put(&mut v, item("Permissions", MenuAction::Permissions, lang));
    put(&mut v, item("Logs", MenuAction::Logs, lang));
    put(&mut v, item("Report an Issue", MenuAction::ReportIssue, lang));
    put(&mut v, item("Check for updates", MenuAction::CheckUpdates, lang));
    put(&mut v, item("鍏充簬 PlayDL", MenuAction::About, lang));
    assert(v.deep_view() =~= bar_help(lang@));
    v
}

/// The menu bar of a Mac. The entry that quits is the program's own, because the
/// system's would end the program before anything is stored.
pub open spec fn native_bar(
    st: MenuStateModel,
    queues: Seq<Seq<char>>,
    tags: Seq<Seq<char>>,
    lang: Texts,
) -> Seq<BarMenuModel> {
    seq![
        BarMenuModel { label: "PlayDL"@, entries: bar_app(lang) },
        BarMenuModel { label: translated(lang, "Tasks"@), entries: bar_tasks(lang) },
        BarMenuModel { label: translated(lang, "File"@), entries: bar_file(lang) },
        BarMenuModel {
            label: translated(lang, "Downloads"@),
            entries: bar_downloads(st, queues, lang),
        },
        BarMenuModel { label: translated(lang, "View"@), entries: bar_view(st, tags, lang) },
        BarMenuModel { label: translated(lang, "Help"@), entries: bar_help(lang) },
    ]
}

fn put_menu(v: &mut Vec<BarMenu>, label: String, entries: Vec<Entry>)
    ensures
        final(v).deep_view() == old(v).deep_view().push(
            BarMenuModel { label: label@, entries: entries.deep_view() },
        ),
{
    let ghost before = v.deep_view();
    let m = BarMenu { label, entries };
    v.push(m);
    assert(v.deep_view() =~= before.push(m@));
}

/// The menu bar for the current settings, queues and languages.
pub fn bar(st: &MenuState, queues: &Vec<String>, tags: &Vec<String>, lang: &Catalogue) -> (r: Vec<
    BarMenu,
>)
    ensures
        r.deep_view() == native_bar(st@, queues.deep_view(), tags.deep_view(), lang@),
{
    let mut v: Vec<BarMenu> = Vec::new();
    assert(v.deep_view() =~= seq![]);
    put_menu(&mut v, "PlayDL".to_owned(), make_bar_app(lang));
    put_menu(&mut v, lang.tr("Tasks"), make_bar_tasks(lang));
    put_menu(&mut v, lang.tr("File"), make_bar_file(lang));
    put_menu(&mut v, lang.tr("Downloads"), make_bar_downloads(st, queues, lang));
    put_menu(&mut v, lang.tr("View"), make_bar_view(st, tags, lang));
    put_menu(&mut v, lang.tr("Help"), make_bar_help(lang));
    assert(v.deep_view() =~= native_bar(st@, queues.deep_view(), tags.deep_view(), lang@));
    v
}

/// The tick that an entry of the menu bar should have; none for one that has no
/// tick. Clicking an entry flips its tick whatever comes of it, so every tick is
/// set from the settings.
pub open spec fn tick_of(st: MenuStateModel, a: MenuActionModel) -> Option<bool> {
    match a {
        MenuActionModel::HideCategories => Some(!st.show_categories),
        MenuActionModel::SpeedLimiterToggle => Some(st.speed_limiter),
        MenuActionModel::SetTheme(m) => Some(m == st.theme_mode),
        MenuActionModel::FontSize(n) => Some(n == st.font_size),
        MenuActionModel::Language(l) => Some(l == st.language),
        _ => None,
    }
}

/// The tick of one entry.
pub fn sync(st: &MenuState, action: &MenuAction) -> (r: Option<bool>)
    ensures
        r == tick_of(st@, action@),
{
    proof {
        reveal(MenuAction::model);
    }
    match action {
        MenuAction::HideCategories => Some(!st.show_categories),
        MenuAction::SpeedLimiterToggle => Some(st.speed_limiter),
        MenuAction::SetTheme(m) => Some(*m == st.theme_mode),
        MenuAction::FontSize(n) => Some(*n == st.font_size),
        MenuAction::Language(l) => Some(same(l, &st.language)),
        _ => None,
    }
}

impl AppModel {
    /// What the native menu bar has to show.
    pub open spec fn native_menu_state(self) -> MenuStateModel {
        MenuStateModel {
            theme_mode: self.cfg.settings.theme(),
            show_categories: self.cfg.settings.on.show_categories,
            font_size: self.cfg.settings.font_size,
            language: crate::menus::language_in_use(self.cfg.language, "en"@),
            speed_limiter: self.cfg.settings.speed_limiter_on,
        }
    }
}

impl App {
    /// What the native menu bar has to show.
    pub fn native_menu_state(&self) -> (r: MenuState)
        ensures
            r@ == self@.native_menu_state(),
    {
        let (speed_limiter, theme_mode, font_size) = self.looks();
        MenuState {
            theme_mode,
            show_categories: self.switches().show_categories,
            font_size,
            language: self.language("en"),
            speed_limiter,
        }
    }
}

// ------------------------------------------------------------------- start-up

/// How long a start without a window waits for the tray, in milliseconds.
pub const READY_MS: u64 = 5000;

/// The time between two questions whether the tray is there, in milliseconds.
pub const POLL_MS: u64 = 100;

/// What a start that waits for the tray does next.
#[derive(Clone, Copy, PartialEq, Eq, Structural, Debug)]
pub enum WaitStep {
    /// The tray is there.
    Ready,
    /// It did not come.
    GiveUp,
    /// Ask again after this time.
    WaitMs(u64),
}

/// What to do after having waited for so long. Only a start without a window
/// asks: a tray that never comes would leave an invisible program. Where the tray
/// is there from the start or never, the wait counts as over at once.
pub fn wait_step(ready: bool, waited_ms: u64) -> (r: WaitStep)
    ensures
        r == (if ready {
            WaitStep::Ready
        } else if waited_ms >= READY_MS {
            WaitStep::GiveUp
        } else {
            WaitStep::WaitMs(POLL_MS)
        }),
{
    if ready {
        WaitStep::Ready
    } else if waited_ms >= READY_MS {
        WaitStep::GiveUp
    } else {
        WaitStep::WaitMs(POLL_MS)
    }
}

// ------------------------------------------------------------------------- laws

/// The wait for the tray ends: a step that waits comes short of the limit, and
/// each one brings it nearer.
pub proof fn the_wait_for_the_tray_ends(waited: u64)
    ensures
        waited < READY_MS ==> 0 < POLL_MS && READY_MS - (waited + POLL_MS) < READY_MS - waited,
        READY_MS / POLL_MS == 50,
{
}

/// Whatever is chosen from the tray is found again by its id: the first entry
/// shows the main window, and every other one carries the name of its command.
pub proof fn tray_commands_are_found(name: Seq<char>, start: bool)
    ensures
        crate::actions::action_of(action_id(queue_command(name, start))) == Some(
            queue_command(name, start),
        ),
{
    crate::actions::commands_are_found_by_their_names(queue_command(name, start));
}

} // verus!
