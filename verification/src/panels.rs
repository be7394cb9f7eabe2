//! The panels of the main window: the tree on the left and the toolbar.
use crate::app::{App, AppModel};
use crate::downloads::Items;
use crate::i18n::{translated, Catalogue, Texts};
use crate::model::{CategoryDef, CategoryDefModel, DlId, DlState, DownloadItem, DownloadItemModel, QueueDef};
use crate::queues::{find_queue, queue_of, Queues};
use crate::state::{TreeSel, TreeSelModel};
use crate::text::same;
use vstd::prelude::*;

verus! {

/// What is drawn before a row of the tree.
#[derive(Debug)]
pub enum TreeIcon {
    All,
    Unfinished,
    Finished,
    Queues,
    /// The icon of a category, by its name.
    Category(String),
    /// A queue's folder, in its colour.
    Queue(Option<u32>),
}

/// The model of [`TreeIcon`].
#[verifier::ext_equal]
pub enum TreeIconModel {
    All,
    Unfinished,
    Finished,
    Queues,
    Category(Seq<char>),
    Queue(Option<u32>),
}

impl View for TreeIcon {
    type V = TreeIconModel;

    open spec fn view(&self) -> TreeIconModel {
        match *self {
            TreeIcon::All => TreeIconModel::All,
            TreeIcon::Unfinished => TreeIconModel::Unfinished,
            TreeIcon::Finished => TreeIconModel::Finished,
            TreeIcon::Queues => TreeIconModel::Queues,
            TreeIcon::Category(n) => TreeIconModel::Category(n@),
            TreeIcon::Queue(c) => TreeIconModel::Queue(c),
        }
    }
}

/// A row of the tree.
#[derive(Debug)]
pub struct TreeRow {
    pub indent: u16,
    /// The branch that the row opens, and whether it is open.
    pub expander: Option<(u8, bool)>,
    pub icon: TreeIcon,
    pub label: String,
    pub sel: TreeSel,
}

/// The model of [`TreeRow`].
#[verifier::ext_equal]
pub struct TreeRowModel {
    pub indent: u16,
    pub expander: Option<(u8, bool)>,
    pub icon: TreeIconModel,
    pub label: Seq<char>,
    pub sel: TreeSelModel,
}

impl View for TreeRow {
    type V = TreeRowModel;

    open spec fn view(&self) -> TreeRowModel {
        TreeRowModel {
            indent: self.indent,
            expander: self.expander,
            icon: self.icon@,
            label: self.label@,
            sel: self.sel@,
        }
    }
}

impl DeepView for TreeRow {
    type V = TreeRowModel;

    open spec fn deep_view(&self) -> TreeRowModel {
        self@
    }
}

/// The branches that list the categories.
#[derive(Clone, Copy, PartialEq, Eq, Structural, Debug)]
pub enum Branch {
    All,
    Unfinished,
    Finished,
}

pub open spec fn branch_sel(b: Branch, cat: Seq<char>) -> TreeSelModel {
    match b {
        Branch::All => TreeSelModel::Cat(cat),
        Branch::Unfinished => TreeSelModel::UnfCat(cat),
        Branch::Finished => TreeSelModel::FinCat(cat),
    }
}

/// The categories under a branch; the general one has no row of its own.
pub open spec fn category_rows(v: Seq<CategoryDefModel>, b: Branch, lang: Texts) -> Seq<TreeRowModel>
    decreases v.len(),
{
    if v.len() == 0 {
        seq![]
    } else {
        let r = category_rows(v.drop_last(), b, lang);
        let name = v.last().name;
        if name == "General"@ {
            r
        } else {
            r.push(
                TreeRowModel {
                    indent: 2,
                    expander: None,
                    icon: TreeIconModel::Category(name),
                    label: translated(lang, name),
                    sel: branch_sel(b, name),
                },
            )
        }
    }
}

/// The rows of the queues.
pub open spec fn queue_rows(v: Queues, lang: Texts) -> Seq<TreeRowModel> {
    v.map_values(
        |q: crate::model::QueueDefModel|
            TreeRowModel {
                indent: 2,
                expander: None,
                icon: TreeIconModel::Queue(color_of(v, q.name)),
                label: translated(lang, q.name),
                sel: TreeSelModel::Queue(q.name),
            },
    )
}

/// The colour of the queue called `name`; none for the stock one, and for a name
/// that no queue has any more.
pub open spec fn color_of(v: Queues, name: Seq<char>) -> Option<u32> {
    match queue_of(v, name) {
        Some(q) => q.color,
        None => None,
    }
}

pub open spec fn head_row(
    i: u8,
    open: bool,
    icon: TreeIconModel,
    label: Seq<char>,
    sel: TreeSelModel,
) -> TreeRowModel {
    TreeRowModel { indent: 0, expander: Some((i, open)), icon, label, sel }
}

pub open spec fn when(open: bool, rows: Seq<TreeRowModel>) -> Seq<TreeRowModel> {
    if open {
        rows
    } else {
        seq![]
    }
}

/// The rows of the tree.
pub open spec fn tree_rows(
    open: Seq<bool>,
    cats: Seq<CategoryDefModel>,
    queues: Queues,
    lang: Texts,
) -> Seq<TreeRowModel> {
    seq![
        head_row(
            0,
            open[0],
            TreeIconModel::All,
            translated(lang, "All Downloads"@),
            TreeSelModel::All,
        ),
    ] + when(open[0], category_rows(cats, Branch::All, lang)) + seq![
        head_row(
            1,
            open[1],
            TreeIconModel::Unfinished,
            translated(lang, "Unfinished"@),
            TreeSelModel::Unfinished,
        ),
    ] + when(open[1], category_rows(cats, Branch::Unfinished, lang)) + seq![
        head_row(
            2,
            open[2],
            TreeIconModel::Finished,
            translated(lang, "Finished"@),
            TreeSelModel::Finished,
        ),
    ] + when(open[2], category_rows(cats, Branch::Finished, lang)) + seq![
        head_row(
            3,
            open[3],
            TreeIconModel::Queues,
            translated(lang, "Queues"@),
            TreeSelModel::Queues,
        ),
    ] + when(open[3], queue_rows(queues, lang))
}

fn put_head(v: &mut Vec<TreeRow>, i: u8, open: bool, icon: TreeIcon, label: String, sel: TreeSel)
    ensures
        final(v).deep_view() == old(v).deep_view() + seq![
            head_row(i, open, icon@, label@, sel@),
        ],
{
    let ghost before = v.deep_view();
    let r = TreeRow { indent: 0, expander: Some((i, open)), icon, label, sel };
    v.push(r);
    assert(v.deep_view() =~= before + seq![r@]);
}

fn branch_row(b: Branch, name: &String) -> (r: TreeSel)
    ensures
        r@ == branch_sel(b, name@),
{
    match b {
        Branch::All => TreeSel::Cat(name.clone()),
        Branch::Unfinished => TreeSel::UnfCat(name.clone()),
        Branch::Finished => TreeSel::FinCat(name.clone()),
    }
}

fn put_categories(
    v: &mut Vec<TreeRow>,
    open: bool,
    cats: &Vec<CategoryDef>,
    b: Branch,
    lang: &Catalogue,
)
    ensures
        final(v).deep_view() == old(v).deep_view() + when(
            open,
            category_rows(cats.deep_view(), b, lang@),
        ),
{
    let ghost before = v.deep_view();
    if !open {
        assert(v.deep_view() =~= before + seq![]);
        return ;
    }
    let ghost all = cats.deep_view();
    let mut i: usize = 0;
    assert(all.take(0) =~= seq![]);
    assert(v.deep_view() =~= before + category_rows(all.take(0), b, lang@));
    while i < cats.len()
        invariant
            i <= cats@.len(),
            all == cats.deep_view(),
            v.deep_view() == before + category_rows(all.take(i as int), b, lang@),
        decreases cats.len() - i,
    {
        proof {
            assert(all.take(i + 1).drop_last() =~= all.take(i as int));
            assert(all.take(i + 1).last() == cats@[i as int]@);
        }
        if !same(&cats[i].name, "General") {
            let ghost now = v.deep_view();
            let r = TreeRow {
                indent: 2,
                expander: None,
                icon: TreeIcon::Category(cats[i].name.clone()),
                label: lang.tr(&cats[i].name),
                sel: branch_row(b, &cats[i].name),
            };
            v.push(r);
            assert(v.deep_view() =~= now.push(r@));
            assert(v.deep_view() =~= before + category_rows(all.take(i + 1), b, lang@));
        }
        i += 1;
    }
    assert(all.take(i as int) =~= all);
}

fn color_in(v: &Vec<QueueDef>, name: &str) -> (r: Option<u32>)
    ensures
        r == color_of(v.deep_view(), name@),
{
    match find_queue(v, name) {
        Some(i) => v[i].color,
        None => None,
    }
}

fn put_queue_rows(v: &mut Vec<TreeRow>, open: bool, queues: &Vec<QueueDef>, lang: &Catalogue)
    ensures
        final(v).deep_view() == old(v).deep_view() + when(
            open,
            queue_rows(queues.deep_view(), lang@),
        ),
{
    let ghost before = v.deep_view();
    if !open {
        assert(v.deep_view() =~= before + seq![]);
        return ;
    }
    let ghost rows = queue_rows(queues.deep_view(), lang@);
    let mut i: usize = 0;
    assert(v.deep_view() =~= before + rows.take(0));
    while i < queues.len()
        invariant
            i <= queues@.len(),
            rows == queue_rows(queues.deep_view(), lang@),
            v.deep_view() == before + rows.take(i as int),
        decreases queues.len() - i,
    {
        let ghost now = v.deep_view();
        let r = TreeRow {
            indent: 2,
            expander: None,
            icon: TreeIcon::Queue(color_in(queues, &queues[i].name)),
            label: lang.tr(&queues[i].name),
            sel: TreeSel::Queue(queues[i].name.clone()),
        };
        proof {
            assert(queues.deep_view()[i as int] == queues@[i as int]@);
            assert(r@ == rows[i as int]);
        }
        v.push(r);
        assert(v.deep_view() =~= now.push(r@));
        assert(v.deep_view() =~= before + rows.take(i + 1));
        i += 1;
    }
    assert(rows.take(i as int) =~= rows);
}

impl App {
    /// The folder colour of a queue.
    pub fn queue_color(&self, name: &str) -> (r: Option<u32>)
        ensures
            r == color_of(self@.queues(), name@),
    {
        proof {
            reveal(App::model);
        }
        color_in(&self.cfg.queues, name)
    }

    /// The rows of the tree, from top to bottom.
    pub fn tree_rows(&self) -> (r: Vec<TreeRow>)
        ensures
            r.deep_view() == tree_rows(
                self@.tree.open,
                self@.cfg.categories,
                self@.queues(),
                self@.lang,
            ),
    {
        proof {
            reveal(App::model);
        }
        let open = &self.tree.open;
        let cats = &self.cfg.categories;
        let lang = &self.lang;
        let mut v: Vec<TreeRow> = Vec::new();
        assert(v.deep_view() =~= seq![]);
        put_head(&mut v, 0, open[0], TreeIcon::All, lang.tr("All Downloads"), TreeSel::All);
        put_categories(&mut v, open[0], cats, Branch::All, lang);
        put_head(
            &mut v,
            1,
            open[1],
            TreeIcon::Unfinished,
            lang.tr("Unfinished"),
            TreeSel::Unfinished,
        );
        put_categories(&mut v, open[1], cats, Branch::Unfinished, lang);
        put_head(&mut v, 2, open[2], TreeIcon::Finished, lang.tr("Finished"), TreeSel::Finished);
        put_categories(&mut v, open[2], cats, Branch::Finished, lang);
        put_head(&mut v, 3, open[3], TreeIcon::Queues, lang.tr("Queues"), TreeSel::Queues);
        put_queue_rows(&mut v, open[3], &self.cfg.queues, lang);
        assert(v.deep_view() =~= tree_rows(
            self@.tree.open,
            self@.cfg.categories,
            self@.queues(),
            self@.lang,
        ));
        v
    }
}

// --------------------------------------------------------------------- toolbar

/// Which buttons of the toolbar can be pressed. Those that are not listed always
/// can.
#[derive(Clone, Copy, PartialEq, Eq, Structural, Debug)]
pub struct Tools {
    pub resume: bool,
    pub stop: bool,
    pub stop_all: bool,
    pub delete: bool,
    pub start_queue: bool,
    pub stop_queue: bool,
}

/// Some selected row is in one of these states.
pub open spec fn some_selected(ids: Seq<DlId>, v: Items, p: spec_fn(DownloadItemModel) -> bool) -> bool {
    exists|i: int| 0 <= i < v.len() && ids.contains((#[trigger] v[i]).id) && p(v[i])
}

impl AppModel {
    pub open spec fn any_queue_runs(self) -> bool {
        exists|i: int| 0 <= i < self.queues().len() && (#[trigger] self.queues()[i]).running
    }

    pub open spec fn tools(self) -> Tools {
        let ids = self.list.selected;
        Tools {
            resume: some_selected(ids, self.items(), crate::app::keys::resumable()),
            stop: some_selected(ids, self.items(), crate::app::keys::running()),
            stop_all: self.any_active(),
            delete: ids.len() > 0,
            start_queue: !self.any_queue_runs(),
            stop_queue: self.any_queue_runs(),
        }
    }

    /// The queue that the toolbar's buttons act on.
    pub open spec fn main_queue(self) -> Seq<char> {
        match self.first_queue() {
            Some(q) => q,
            None => "Main download queue"@,
        }
    }
}

fn is_chosen(ids: &Vec<DlId>, id: DlId) -> (r: bool)
    ensures
        r == ids@.contains(id),
{
    let mut i: usize = 0;
    while i < ids.len()
        invariant
            i <= ids@.len(),
            forall|k: int| 0 <= k < i ==> ids@[k] != id,
        decreases ids.len() - i,
    {
        if ids[i] == id {
            return true;
        }
        i += 1;
    }
    false
}

/// Whether some chosen row runs, or waits.
fn some_chosen(ids: &Vec<DlId>, v: &Vec<DownloadItem>, run: bool) -> (r: bool)
    ensures
        r == some_selected(
            ids@,
            v.deep_view(),
            if run {
                crate::app::keys::running()
            } else {
                crate::app::keys::resumable()
            },
        ),
{
    let ghost p = if run {
        crate::app::keys::running()
    } else {
        crate::app::keys::resumable()
    };
    let ghost all = v.deep_view();
    let mut i: usize = 0;
    while i < v.len()
        invariant
            i <= v@.len(),
            all == v.deep_view(),
            p == (if run {
                crate::app::keys::running()
            } else {
                crate::app::keys::resumable()
            }),
            forall|k: int| 0 <= k < i ==> !(ids@.contains((#[trigger] all[k]).id) && p(all[k])),
        decreases v.len() - i,
    {
        assert(all[i as int] == v@[i as int]@);
        let fits = match v[i].state {
            DlState::Paused | DlState::Error | DlState::Queued => !run,
            st => run && st.is_active(),
        };
        if fits && is_chosen(ids, v[i].id) {
            assert(ids@.contains(all[i as int].id) && p(all[i as int]));
            return true;
        }
        i += 1;
    }
    false
}

impl App {
    fn any_queue_runs(&self) -> (r: bool)
        ensures
            r == self@.any_queue_runs(),
    {
        proof {
            reveal(App::model);
        }
        let v = &self.cfg.queues;
        let mut i: usize = 0;
        while i < v.len()
            invariant
                i <= v@.len(),
                self@.queues() == v.deep_view(),
                forall|k: int| 0 <= k < i ==> !(#[trigger] v@[k])@.running,
            decreases v.len() - i,
        {
            if v[i].running {
                assert(self@.queues()[i as int] == v@[i as int]@);
                return true;
            }
            i += 1;
        }
        proof {
            assert forall|k: int| 0 <= k < self@.queues().len() implies !(
            #[trigger] self@.queues()[k]).running by {
                assert(self@.queues()[k] == v@[k]@);
            }
        }
        false
    }

    fn chosen(&self, run: bool) -> (r: bool)
        ensures
            r == some_selected(
                self@.list.selected,
                self@.items(),
                if run {
                    crate::app::keys::running()
                } else {
                    crate::app::keys::resumable()
                },
            ),
    {
        proof {
            reveal(App::model);
        }
        some_chosen(&self.list.selected, &self.state.downloads, run)
    }

    /// Which buttons of the toolbar can be pressed now.
    pub fn tools(&self) -> (r: Tools)
        ensures
            r == self@.tools(),
    {
        let runs = self.any_queue_runs();
        Tools {
            resume: self.chosen(false),
            stop: self.chosen(true),
            stop_all: self.any_row_active(),
            delete: self.selection().len() > 0,
            start_queue: !runs,
            stop_queue: runs,
        }
    }

    /// The queue that the toolbar's buttons act on.
    pub fn main_queue(&self) -> (r: String)
        ensures
            r@ == self@.main_queue(),
    {
        match self.first_queue() {
            Some(q) => q,
            None => "Main download queue".to_owned(),
        }
    }
}

// ------------------------------------------------------------------------- laws

/// The queue can be started or stopped, never both.
pub proof fn one_queue_button_at_a_time(s: AppModel)
    ensures
        s.tools().start_queue != s.tools().stop_queue,
{
}

/// What can be resumed or stopped is selected, so it can be deleted too.
pub proof fn what_can_be_resumed_can_be_deleted(s: AppModel)
    requires
        s.tools().resume || s.tools().stop,
    ensures
        s.tools().delete,
{
}

} // verus!
