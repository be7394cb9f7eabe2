//! The scheduler dialog: a queue's schedule, its name, and the order of its
//! files.
use crate::app::{App, AppModel, TreeUiModel};
use crate::downloads::{item_of, Items};
use crate::edits::{set_order, set_queue, to_order, to_queue};
use crate::effect::{Effect, EffectModel};
use crate::model::{
    free_color, pick_queue_color, DlId, DlState, DownloadItem, DownloadItemModel, PowerAction,
    QueueDef, QueueDefModel, Schedule, ScheduleModel,
};
use crate::queues::{
    edit_queue, filed_in, find_id, find_queue, in_queue_order, members_in_order, moved, place_of_id,
    queue_of, Member, Queues,
};
use crate::rules::{click_after, closes_pair, double_click};
use crate::state::{SchState, SchStateModel};
use crate::text::{cat3, decimal, parse_number, same, spelled_up_to, trim, trimmed};
use crate::twin::Twin;
use vstd::prelude::*;

verus! {

/// An edit in the scheduler dialog.
#[derive(Debug)]
pub enum SchField {
    Periodic(bool),
    OnStartup(bool),
    StartEnabled(bool),
    StartAt(String),
    Once(bool),
    Day(usize, bool),
    StopEnabled(bool),
    StopAt(String),
    RetriesEnabled(bool),
    Retries(String),
    OpenFileEnabled(bool),
    OpenFile(String),
    ExitDone(bool),
    ShutdownDone(bool),
    ShutdownAction(PowerAction),
    FilesAtOnce(String),
}

/// A schedule after an edit.
pub open spec fn replanned(s: ScheduleModel, f: SchField) -> ScheduleModel {
    match f {
        SchField::Periodic(b) => ScheduleModel { periodic: b, ..s },
        SchField::OnStartup(b) => ScheduleModel { start_on_startup: b, ..s },
        SchField::StartEnabled(b) => ScheduleModel { start_enabled: b, ..s },
        SchField::StartAt(v) => ScheduleModel { start_at: v@, ..s },
        SchField::Once(b) => ScheduleModel { once: b, ..s },
        SchField::Day(i, b) => ScheduleModel {
            days: if i < s.days.len() {
                s.days.update(i as int, b)
            } else {
                s.days
            },
            ..s
        },
        SchField::StopEnabled(b) => ScheduleModel { stop_enabled: b, ..s },
        SchField::StopAt(v) => ScheduleModel { stop_at: v@, ..s },
        SchField::RetriesEnabled(b) => ScheduleModel { retries_enabled: b, ..s },
        SchField::Retries(v) => ScheduleModel {
            retries: match spelled_up_to(v@, u32::MAX as int) {
                Some(n) => n as u32,
                None => s.retries,
            },
            ..s
        },
        SchField::OpenFileEnabled(b) => ScheduleModel { open_file_enabled: b, ..s },
        SchField::OpenFile(v) => ScheduleModel { open_file: v@, ..s },
        SchField::ExitDone(b) => ScheduleModel { exit_when_done: b, ..s },
        SchField::ShutdownDone(b) => ScheduleModel { shutdown_when_done: b, ..s },
        SchField::ShutdownAction(a) => ScheduleModel { shutdown_action: a, ..s },
        SchField::FilesAtOnce(_) => s,
    }
}

/// How many files at once an edit asks for, between one and sixteen.
pub open spec fn rewidened(n: u32, f: SchField) -> u32 {
    match f {
        SchField::FilesAtOnce(v) => match spelled_up_to(v@, u32::MAX as int) {
            Some(k) => if k < 1 {
                1
            } else if k > 16 {
                16
            } else {
                k as u32
            },
            None => n,
        },
        _ => n,
    }
}

/// A queue after an edit.
pub open spec fn to_field(f: SchField) -> spec_fn(QueueDefModel) -> QueueDefModel {
    |q: QueueDefModel|
        QueueDefModel {
            schedule: replanned(q.schedule, f),
            files_at_once: rewidened(q.files_at_once, f),
            ..q
        }
}

fn plan_switch(s: &mut Schedule, f: &SchField) -> (r: bool)
    ensures
        r ==> final(s)@ == replanned(old(s)@, *f),
        !r ==> final(s)@ == old(s)@,
        !r ==> (f is StartAt || f is Day || f is StopAt || f is Retries || f is OpenFile || f
            is ShutdownAction || f is FilesAtOnce),
{
    match f {
        SchField::Periodic(b) => {
            s.periodic = *b;
        },
        SchField::OnStartup(b) => {
            s.start_on_startup = *b;
        },
        SchField::StartEnabled(b) => {
            s.start_enabled = *b;
        },
        SchField::Once(b) => {
            s.once = *b;
        },
        SchField::StopEnabled(b) => {
            s.stop_enabled = *b;
        },
        SchField::RetriesEnabled(b) => {
            s.retries_enabled = *b;
        },
        SchField::OpenFileEnabled(b) => {
            s.open_file_enabled = *b;
        },
        SchField::ExitDone(b) => {
            s.exit_when_done = *b;
        },
        SchField::ShutdownDone(b) => {
            s.shutdown_when_done = *b;
        },
        _ => {
            return false;
        },
    }
    true
}

fn plan_value(s: &mut Schedule, f: &SchField)
    requires
        f is StartAt || f is Day || f is StopAt || f is Retries || f is OpenFile || f
            is ShutdownAction || f is FilesAtOnce,
    ensures
        final(s)@ == replanned(old(s)@, *f),
{
    match f {
        SchField::StartAt(v) => {
            s.start_at = v.clone();
        },
        SchField::Day(i, b) => {
            let ghost before = s.days@;
            if *i < 7 {
                s.days[*i] = *b;
                assert(s.days@ =~= before.update(*i as int, *b));
            }
        },
        SchField::StopAt(v) => {
            s.stop_at = v.clone();
        },
        SchField::Retries(v) => {
            if let Some(n) = parse_number(v, u32::MAX as u64) {
                s.retries = n as u32;
            }
        },
        SchField::OpenFile(v) => {
            s.open_file = v.clone();
        },
        SchField::ShutdownAction(a) => {
            s.shutdown_action = *a;
        },
        _ => {},
    }
}

fn set_field(v: &mut Vec<QueueDef>, name: &str, f: &SchField)
    ensures
        final(v).deep_view() == edit_queue(old(v).deep_view(), name@, to_field(*f)),
{
    let ghost before = v.deep_view();
    if let Some(i) = find_queue(v, name) {
        let mut q = v[i].twin();
        let ghost was = q@;
        if !plan_switch(&mut q.schedule, f) {
            plan_value(&mut q.schedule, f);
        }
        if let SchField::FilesAtOnce(t) = f {
            if let Some(k) = parse_number(t, u32::MAX as u64) {
                q.files_at_once = if k < 1 {
                    1
                } else if k > 16 {
                    16
                } else {
                    k as u32
                };
            }
        }
        assert(q@ =~= to_field(*f)(was));
        v.set(i, q);
        assert(v.deep_view() =~= before.update(i as int, to_field(*f)(before[i as int])));
    }
}

impl AppModel {
    pub open spec fn with_sch(self, s: SchStateModel) -> AppModel {
        AppModel { sch: s, ..self }
    }

    /// An edit of the selected queue's schedule.
    #[verifier::opaque]
    pub open spec fn sch_field(self, f: SchField) -> AppModel {
        self.edit_queue(self.sch.queue, to_field(f)).save_config()
    }

    pub open spec fn with_tree(self, t: TreeUiModel) -> AppModel {
        AppModel { tree: t, ..self }
    }

    /// A click on a queue row is timed against the one before it.
    pub open spec fn queue_click(self, name: Option<Seq<char>>, ms: u64) -> AppModel {
        self.with_tree(
            TreeUiModel { last_click: click_after(self.tree.last_click, name, ms), ..self.tree },
        )
    }

    pub open spec fn queue_builtin(self, name: Seq<char>, missing: bool) -> bool {
        match queue_of(self.queues(), name) {
            Some(q) => q.builtin,
            None => missing,
        }
    }

    /// A queue is selected; a double click on one begins its renaming.
    #[verifier::opaque]
    pub open spec fn sch_queue(self, q: Seq<char>, ms: u64) -> AppModel {
        let s = self.with_sch(
            SchStateModel { rename_draft: q, queue: q, renaming: false, ..self.sch },
        );
        let double = closes_pair(s.tree.last_click, Some(q), ms);
        let t = s.queue_click(Some(q), ms);
        if double {
            t.sch_name_edit()
        } else {
            t
        }
    }

    /// The selected queue's name becomes a text field; stock queues keep theirs.
    #[verifier::opaque]
    pub open spec fn sch_name_edit(self) -> AppModel {
        if self.queue_builtin(self.sch.queue, false) {
            self
        } else {
            self.with_sch(
                SchStateModel { renaming: true, rename_draft: self.sch.queue, ..self.sch },
            ).emit(EffectModel::FocusField("sch-rename"@))
        }
    }

    /// The draft name is taken, or dropped where it may not be.
    #[verifier::opaque]
    pub open spec fn sch_name_commit(self) -> AppModel {
        let old = self.sch.queue;
        let new = trimmed(self.sch.rename_draft);
        let s = self.with_sch(SchStateModel { renaming: false, ..self.sch });
        let t = s.rename_queue(old, new);
        if s.may_rename(old, trimmed(new)) {
            t.with_sch(SchStateModel { queue: new, rename_draft: new, ..t.sch })
        } else {
            t.with_sch(SchStateModel { rename_draft: old, ..t.sch })
        }
    }

    /// The name of the next new queue.
    pub open spec fn next_queue_name(self) -> Seq<char> {
        self.tr("Queue"@) + " "@ + decimal(self.queues().len() + 1)
    }

    /// A new queue, with nothing armed and a colour of its own.
    #[verifier::opaque]
    pub open spec fn sch_new_queue(self) -> AppModel {
        let name = self.next_queue_name();
        self.with_queues(
            self.queues().push(
                QueueDefModel {
                    name,
                    files_at_once: 4,
                    schedule: ScheduleModel::initial(),
                    builtin: false,
                    color: Some(free_color(self.queues(), 0)),
                    running: false,
                    did_work: false,
                },
            ),
        ).with_sch(SchStateModel { rename_draft: name, queue: name, ..self.sch }).save_config()
    }

    /// The selected queue goes, and its rows belong to none. Stock queues stay,
    /// and so does the last one.
    #[verifier::opaque]
    pub open spec fn sch_delete_queue(self) -> AppModel {
        let name = self.sch.queue;
        if self.queue_builtin(name, false) || self.queues().len() <= 1 {
            self
        } else {
            let s = self.with_queues(queues_without(self.queues(), name)).refile(name, None);
            let first = match s.first_queue() {
                Some(q) => q,
                None => seq![],
            };
            s.with_sch(
                SchStateModel { queue: first, rename_draft: first, ..s.sch },
            ).save_config().save_state()
        }
    }
}

/// The queues without those called `name`.
pub open spec fn queues_without(v: Queues, name: Seq<char>) -> Queues
    decreases v.len(),
{
    if v.len() == 0 {
        seq![]
    } else if v.last().name == name {
        queues_without(v.drop_last(), name)
    } else {
        queues_without(v.drop_last(), name).push(v.last())
    }
}

fn queues_but(v: &Vec<QueueDef>, name: &str) -> (r: Vec<QueueDef>)
    ensures
        r.deep_view() == queues_without(v.deep_view(), name@),
{
    let ghost all = v.deep_view();
    let mut r: Vec<QueueDef> = Vec::new();
    let mut i: usize = 0;
    assert(all.take(0) =~= seq![]);
    assert(r.deep_view() =~= seq![]);
    while i < v.len()
        invariant
            i <= v@.len(),
            all == v.deep_view(),
            r.deep_view() == queues_without(all.take(i as int), name@),
        decreases v.len() - i,
    {
        proof {
            assert(all.take(i + 1).drop_last() =~= all.take(i as int));
            assert(all.take(i + 1).last() == v@[i as int]@);
        }
        if !same(&v[i].name, name) {
            let ghost before = r.deep_view();
            let q = v[i].twin();
            r.push(q);
            assert(r.deep_view() =~= before.push(q@));
        }
        i += 1;
    }
    assert(all.take(i as int) =~= all);
    r
}

impl App {
    pub(crate) fn sch_copy(&self) -> (r: SchState)
        ensures
            r@ == self@.sch,
    {
        proof {
            reveal(App::model);
        }
        self.sch.twin()
    }

    pub(crate) fn set_sch(&mut self, s: SchState)
        ensures
            final(self)@ == old(self)@.with_sch(s@),
    {
        proof {
            reveal(App::model);
        }
        self.sch = s;
    }

    pub(crate) fn sch_field(&mut self, f: SchField)
        ensures
            final(self)@ == old(self)@.sch_field(f),
    {
        proof {
            reveal(AppModel::sch_field);
        }
        let name = self.sch_copy().queue;
        let mut v = self.take_queues();
        set_field(&mut v, &name, &f);
        self.put_queues(v);
        self.save_config();
    }

    /// Records a click on the queue row `name` and answers whether it closed a
    /// double click. A click that landed elsewhere restarts the count.
    pub(crate) fn queue_click(&mut self, name: Option<&str>, ms: u64) -> (r: bool)
        ensures
            final(self)@ == old(self)@.queue_click(crate::i18n::opt_str(name), ms),
            r == closes_pair(old(self)@.tree.last_click, crate::i18n::opt_str(name), ms),
    {
        proof {
            reveal(App::model);
        }
        double_click(&mut self.tree.last_click, name, ms)
    }

    pub(crate) fn queue_builtin(&self, name: &str, missing: bool) -> (r: bool)
        ensures
            r == self@.queue_builtin(name@, missing),
    {
        match self.queue_copy(name) {
            Some(q) => q.builtin,
            None => missing,
        }
    }

    pub(crate) fn sch_queue(&mut self, q: String, ms: u64)
        ensures
            final(self)@ == old(self)@.sch_queue(q@, ms),
    {
        proof {
            reveal(AppModel::sch_queue);
        }
        let mut s = self.sch_copy();
        s.rename_draft = q.clone();
        s.queue = q.clone();
        s.renaming = false;
        self.set_sch(s);
        if self.queue_click(Some(q.as_str()), ms) {
            self.sch_name_edit();
        }
    }

    pub(crate) fn sch_name_edit(&mut self)
        ensures
            final(self)@ == old(self)@.sch_name_edit(),
    {
        proof {
            reveal(AppModel::sch_name_edit);
        }
        let mut s = self.sch_copy();
        if self.queue_builtin(&s.queue, false) {
            return ;
        }
        s.renaming = true;
        s.rename_draft = s.queue.clone();
        self.set_sch(s);
        self.emit(Effect::FocusField("sch-rename".to_owned()));
    }

    fn end_renaming(&mut self)
        ensures
            final(self)@ == old(self)@.with_sch(
                (SchStateModel { renaming: false, ..old(self)@.sch }),
            ),
    {
        let mut s = self.sch_copy();
        s.renaming = false;
        self.set_sch(s);
    }

    fn set_sch_names(&mut self, queue: Option<String>, draft: String)
        ensures
            final(self)@ == old(self)@.with_sch(
                (SchStateModel {
                    queue: match queue {
                        Some(q) => q@,
                        None => old(self)@.sch.queue,
                    },
                    rename_draft: draft@,
                    ..old(self)@.sch
                }),
            ),
    {
        let mut s = self.sch_copy();
        if let Some(q) = queue {
            s.queue = q;
        }
        s.rename_draft = draft;
        self.set_sch(s);
    }

    pub(crate) fn sch_name_commit(&mut self)
        ensures
            final(self)@ == old(self)@.sch_name_commit(),
    {
        proof {
            reveal(AppModel::sch_name_commit);
        }
        let s = self.sch_copy();
        let new = trim(&s.rename_draft);
        self.end_renaming();
        if self.rename_queue(&s.queue, &new) {
            self.set_sch_names(Some(new.clone()), new);
        } else {
            self.set_sch_names(None, s.queue);
        }
    }

    fn queue_count(&self) -> (r: usize)
        ensures
            r == self@.queues().len(),
    {
        proof {
            reveal(App::model);
        }
        self.cfg.queues.len()
    }

    fn free_color(&self) -> (r: u32)
        ensures
            r == free_color(self@.queues(), 0),
    {
        proof {
            reveal(App::model);
        }
        pick_queue_color(&self.cfg.queues)
    }

    fn push_queue(&mut self, q: QueueDef)
        ensures
            final(self)@ == old(self)@.with_queues(old(self)@.queues().push(q@)),
    {
        let mut v = self.take_queues();
        let ghost before = v.deep_view();
        v.push(q);
        assert(v.deep_view() =~= before.push(q@));
        self.put_queues(v);
    }

    fn next_queue_name(&self) -> (r: String)
        ensures
            r@ == self@.next_queue_name(),
    {
        let n = self.queue_count();
        let count: u128 = n as u128 + 1;
        cat3(&self.tr("Queue"), " ", &crate::text::wide_number(count))
    }

    pub(crate) fn sch_new_queue(&mut self)
        ensures
            final(self)@ == old(self)@.sch_new_queue(),
    {
        proof {
            reveal(AppModel::sch_new_queue);
        }
        let name = self.next_queue_name();
        let color = self.free_color();
        self.push_queue(
            QueueDef {
                name: name.clone(),
                files_at_once: 4,
                schedule: Schedule::default(),
                builtin: false,
                color: Some(color),
                running: false,
                did_work: false,
            },
        );
        self.set_sch_names(Some(name.clone()), name);
        self.save_config();
    }

    fn drop_queue(&mut self, name: &str)
        ensures
            final(self)@ == old(self)@.with_queues(queues_without(old(self)@.queues(), name@)),
    {
        let v = self.take_queues();
        let kept = queues_but(&v, name);
        self.put_queues(kept);
    }

    pub(crate) fn sch_delete_queue(&mut self)
        ensures
            final(self)@ == old(self)@.sch_delete_queue(),
    {
        proof {
            reveal(AppModel::sch_delete_queue);
        }
        let name = self.sch_copy().queue;
        if self.queue_builtin(&name, false) || self.queue_count() <= 1 {
            return ;
        }
        self.drop_queue(&name);
        let none: Option<String> = None;
        self.refile(&name, &none);
        let first = match self.first_queue() {
            Some(q) => q,
            None => String::new(),
        };
        self.set_sch_names(Some(first.clone()), first);
        self.save_config();
        self.save_state();
    }
}

// ------------------------------------------------------------------------ order

/// `v` with the rows of `order` at their places in it.
pub open spec fn ranked(v: Items, order: Seq<DlId>) -> Items {
    v.map_values(
        |d: DownloadItemModel|
            if place_of_id(order, d.id) < order.len() {
                DownloadItemModel { q_order: rank(place_of_id(order, d.id)), ..d }
            } else {
                d
            },
    )
}

/// A place as it is stored.
pub open spec fn rank(i: int) -> u32 {
    if i > u32::MAX {
        u32::MAX
    } else {
        i as u32
    }
}

fn set_ranks(v: &mut Vec<DownloadItem>, order: &Vec<DlId>)
    ensures
        final(v).deep_view() == ranked(old(v).deep_view(), order@),
{
    let ghost all = v.deep_view();
    let ghost f = |d: DownloadItemModel|
        if place_of_id(order@, d.id) < order@.len() {
            DownloadItemModel { q_order: rank(place_of_id(order@, d.id)), ..d }
        } else {
            d
        };
    let mut i: usize = 0;
    while i < v.len()
        invariant
            i <= v@.len(),
            v@.len() == all.len(),
            f == (|d: DownloadItemModel|
                if place_of_id(order@, d.id) < order@.len() {
                    DownloadItemModel { q_order: rank(place_of_id(order@, d.id)), ..d }
                } else {
                    d
                }),
            forall|k: int| 0 <= k < i ==> (#[trigger] v@[k])@ == f(all[k]),
            forall|k: int| i <= k < all.len() ==> (#[trigger] v@[k])@ == all[k],
        decreases v.len() - i,
    {
        assert(v@[i as int]@ == all[i as int]);
        if let Some(p) = find_id(order, v[i].id) {
            v[i].q_order = if p > 0xffff_ffff {
                0xffff_ffff
            } else {
                p as u32
            };
            assert(v@[i as int]@ =~= f(all[i as int]));
        }
        i += 1;
    }
    assert(v.deep_view() =~= ranked(all, order@));
}

impl AppModel {
    pub open spec fn queue_order(self) -> Seq<DlId> {
        in_queue_order(self.items(), filed_in(self.sch.queue))
    }

    /// A row is dragged over another one of its queue: it takes that place.
    #[verifier::opaque]
    pub open spec fn sch_drag_over(self, target: DlId) -> AppModel {
        match self.sch.drag {
            Some(src) if src != target => {
                let order = self.queue_order();
                let from = place_of_id(order, src);
                let to = place_of_id(order, target);
                if from < order.len() && to < order.len() {
                    self.with_items(ranked(self.items(), moved(order, from, to)))
                } else {
                    self
                }
            },
            _ => self,
        }
    }

    pub open spec fn order_of_row(self, id: DlId) -> u32 {
        match item_of(self.items(), id) {
            Some(d) => d.q_order,
            None => 0,
        }
    }

    /// Two rows change places in their queue.
    pub open spec fn swap_rows(self, a: DlId, b: DlId) -> AppModel {
        self.edit_item(a, to_order(self.order_of_row(b))).edit_item(
            b,
            to_order(self.order_of_row(a)),
        )
    }

    /// The selected row moves one place up or down in its queue.
    #[verifier::opaque]
    pub open spec fn sch_file_move(self, up: bool) -> AppModel {
        match self.sch.sel_file {
            Some(sel) => {
                let order = self.queue_order();
                let pos = place_of_id(order, sel);
                let other = if up {
                    pos - 1
                } else {
                    pos + 1
                };
                if pos < order.len() && 0 <= other < order.len() {
                    self.swap_rows(sel, order[other]).save_state()
                } else {
                    self
                }
            },
            None => self,
        }
    }

    /// A row leaves its queue, and no longer waits for it.
    #[verifier::opaque]
    pub open spec fn unqueue(self, id: DlId) -> AppModel {
        match item_of(self.items(), id) {
            Some(d) => {
                let s = self.edit_item(id, to_queue(None));
                if d.state == DlState::Queued {
                    s.set_item_state(id, DlState::Paused)
                } else {
                    s
                }
            },
            None => self,
        }
    }

    #[verifier::opaque]
    pub open spec fn sch_file_remove(self) -> AppModel {
        match self.sch.sel_file {
            Some(sel) => {
                let s = self.unqueue(sel);
                s.with_sch(SchStateModel { sel_file: None, ..s.sch }).save_state()
            },
            None => self,
        }
    }
}

impl App {
    fn queue_order(&self) -> (r: Vec<DlId>)
        ensures
            r@ == self@.queue_order(),
    {
        proof {
            reveal(App::model);
        }
        members_in_order(&self.state.downloads, &Member::Filed(self.sch.queue.as_str()))
    }

    fn rank_rows(&mut self, order: &Vec<DlId>)
        ensures
            final(self)@ == old(self)@.with_items(ranked(old(self)@.items(), order@)),
    {
        let mut v = self.take_items();
        set_ranks(&mut v, order);
        self.put_items(v);
    }

    pub(crate) fn sch_drag_over(&mut self, target: DlId)
        ensures
            final(self)@ == old(self)@.sch_drag_over(target),
    {
        proof {
            reveal(AppModel::sch_drag_over);
        }
        let src = match self.sch_copy().drag {
            Some(s) => s,
            None => return ,
        };
        if src == target {
            return ;
        }
        let mut order = self.queue_order();
        let ghost all = order@;
        match (find_id(&order, src), find_id(&order, target)) {
            (Some(from), Some(to)) => {
                let x = order.remove(from);
                order.insert(to, x);
                assert(order@ =~= moved(all, from as int, to as int));
                self.rank_rows(&order);
            },
            _ => {},
        }
    }

    fn order_of_row(&self, id: DlId) -> (r: u32)
        ensures
            r == self@.order_of_row(id),
    {
        match self.item(id) {
            Some(d) => d.q_order,
            None => 0,
        }
    }

    fn place_row(&mut self, id: DlId, n: u32)
        ensures
            final(self)@ == old(self)@.edit_item(id, to_order(n)),
    {
        let mut v = self.take_items();
        set_order(&mut v, id, n);
        self.put_items(v);
    }

    fn swap_rows(&mut self, a: DlId, b: DlId)
        ensures
            final(self)@ == old(self)@.swap_rows(a, b),
    {
        let x = self.order_of_row(a);
        let y = self.order_of_row(b);
        self.place_row(a, y);
        self.place_row(b, x);
    }

    pub(crate) fn sch_file_move(&mut self, up: bool)
        ensures
            final(self)@ == old(self)@.sch_file_move(up),
    {
        proof {
            reveal(AppModel::sch_file_move);
        }
        let sel = match self.sch_copy().sel_file {
            Some(s) => s,
            None => return ,
        };
        let order = self.queue_order();
        let pos = match find_id(&order, sel) {
            Some(p) => p,
            None => return ,
        };
        let other: usize = if up {
            if pos == 0 {
                return ;
            }
            pos - 1
        } else {
            if pos + 1 >= order.len() {
                return ;
            }
            pos + 1
        };
        self.swap_rows(sel, order[other]);
        self.save_state();
    }

    fn edit_queue_of(&mut self, id: DlId, queue: Option<String>)
        ensures
            final(self)@ == old(self)@.edit_item(id, to_queue(queue.deep_view())),
    {
        let mut v = self.take_items();
        set_queue(&mut v, id, queue);
        self.put_items(v);
    }

    pub(crate) fn unqueue(&mut self, id: DlId)
        ensures
            final(self)@ == old(self)@.unqueue(id),
    {
        proof {
            reveal(AppModel::unqueue);
        }
        let waits = match self.item(id) {
            Some(d) => d.state == DlState::Queued,
            None => return ,
        };
        self.edit_queue_of(id, None);
        if waits {
            self.set_item_state(id, DlState::Paused);
        }
    }

    fn drop_sel_file(&mut self)
        ensures
            final(self)@ == old(self)@.with_sch(
                (SchStateModel { sel_file: None, ..old(self)@.sch }),
            ),
    {
        let mut s = self.sch_copy();
        s.sel_file = None;
        self.set_sch(s);
    }

    pub(crate) fn sch_file_remove(&mut self)
        ensures
            final(self)@ == old(self)@.sch_file_remove(),
    {
        proof {
            reveal(AppModel::sch_file_remove);
        }
        let sel = match self.sch_copy().sel_file {
            Some(s) => s,
            None => return ,
        };
        self.unqueue(sel);
        self.drop_sel_file();
        self.save_state();
    }
}

// ---------------------------------------------------------------------- laws

/// A queue never runs fewer than one file at once nor more than sixteen, once
/// that has been set in the dialog.
pub proof fn files_at_once_stay_in_range(n: u32, f: SchField)
    requires
        1 <= n <= 16,
    ensures
        1 <= rewidened(n, f) <= 16,
{
}

/// Stock queues keep their names, whatever is typed.
pub proof fn stock_queues_keep_their_names(s: AppModel, name: Seq<char>, new: Seq<char>)
    requires
        s.queue_builtin(name, true),
    ensures
        s.rename_queue(name, new) == s,
{
    reveal(AppModel::rename_queue);
}

} // verus!
