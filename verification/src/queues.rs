//! Queues: finding one, what it has to start, and when it is done.
use crate::downloads::{ids_where, schedule_start_due, start_due, Items};
use crate::model::{DlId, DlState, DownloadItem, DownloadItemModel, QueueDef, QueueDefModel};
use crate::order::{order, sort_keyed};
use crate::text::{same, views};
use vstd::prelude::*;

verus! {

pub type Queues = Seq<QueueDefModel>;

/// The place of the first queue called `name`; the length where there is none.
pub open spec fn queue_at(v: Queues, name: Seq<char>) -> int
    decreases v.len(),
{
    if v.len() == 0 || v[0].name == name {
        0
    } else {
        1 + queue_at(v.drop_first(), name)
    }
}

/// The queue called `name`, if there is one.
pub open spec fn queue_of(v: Queues, name: Seq<char>) -> Option<QueueDefModel> {
    if queue_at(v, name) < v.len() {
        Some(v[queue_at(v, name)])
    } else {
        None
    }
}

/// The queues with the one called `name` changed by `f`, if there is one.
pub open spec fn edit_queue(
    v: Queues,
    name: Seq<char>,
    f: spec_fn(QueueDefModel) -> QueueDefModel,
) -> Queues {
    if queue_at(v, name) < v.len() {
        v.update(queue_at(v, name), f(v[queue_at(v, name)]))
    } else {
        v
    }
}

pub proof fn lemma_queue_at_is(v: Queues, name: Seq<char>, k: int)
    requires
        0 <= k <= v.len(),
        forall|i: int| 0 <= i < k ==> (#[trigger] v[i]).name != name,
        k < v.len() ==> v[k].name == name,
    ensures
        queue_at(v, name) == k,
    decreases v.len(),
{
    if v.len() > 0 && v[0].name != name {
        let t = v.drop_first();
        assert forall|i: int| 0 <= i < k - 1 implies (#[trigger] t[i]).name != name by {
            assert(t[i] == v[i + 1]);
        }
        lemma_queue_at_is(t, name, k - 1);
    }
}

pub proof fn lemma_queue_at(v: Queues, name: Seq<char>)
    ensures
        0 <= queue_at(v, name) <= v.len(),
        queue_at(v, name) < v.len() ==> v[queue_at(v, name)].name == name,
    decreases v.len(),
{
    if v.len() > 0 && v[0].name != name {
        lemma_queue_at(v.drop_first(), name);
    }
}

/// The place of the queue called `name`.
pub fn find_queue(v: &Vec<QueueDef>, name: &str) -> (r: Option<usize>)
    ensures
        match r {
            Some(i) => i < v@.len() && i == queue_at(v.deep_view(), name@) && v.deep_view()[i as int]
                == v@[i as int]@,
            None => queue_at(v.deep_view(), name@) == v@.len() && v.deep_view().len() == v@.len(),
        },
{
    let ghost all = v.deep_view();
    let mut i: usize = 0;
    while i < v.len()
        invariant
            i <= v@.len(),
            all == v.deep_view(),
            forall|k: int| 0 <= k < i ==> (#[trigger] all[k]).name != name@,
        decreases v.len() - i,
    {
        assert(all[i as int] == v@[i as int]@);
        if same(&v[i].name, name) {
            proof {
                lemma_queue_at_is(all, name@, i as int);
            }
            return Some(i);
        }
        i += 1;
    }
    proof {
        lemma_queue_at_is(all, name@, i as int);
    }
    None
}

// ------------------------------------------------------------------- members

/// The predicate that holds of the rows of a queue that are transferring.
pub open spec fn busy_in(name: Seq<char>) -> spec_fn(DownloadItemModel) -> bool {
    |d: DownloadItemModel| d.in_queue(name) && d.state.active()
}

/// The predicate that holds of the rows of a queue.
pub open spec fn filed_in(name: Seq<char>) -> spec_fn(DownloadItemModel) -> bool {
    |d: DownloadItemModel| d.in_queue(name)
}

/// The predicate that holds of the rows of a queue that wait to be started.
pub open spec fn waiting_in(name: Seq<char>) -> spec_fn(DownloadItemModel) -> bool {
    |d: DownloadItemModel| d.in_queue(name) && d.state == DlState::Queued
}

/// The places in a queue of the rows of which `p` holds, as sort keys.
pub open spec fn places_where(v: Items, p: spec_fn(DownloadItemModel) -> bool) -> Seq<Seq<u64>>
    decreases v.len(),
{
    if v.len() == 0 {
        seq![]
    } else {
        let r = places_where(v.drop_last(), p);
        if p(v.last()) {
            r.push(seq![v.last().q_order as u64])
        } else {
            r
        }
    }
}

/// The rows of which `p` holds, in the order of their places in the queue.
pub open spec fn in_queue_order(v: Items, p: spec_fn(DownloadItemModel) -> bool) -> Seq<DlId> {
    let ids = ids_where(v, p);
    let o = order(places_where(v, p), true);
    Seq::new(o.len(), |i: int| ids[o[i]])
}

/// Which rows of a list are asked for.
pub enum Member<'a> {
    Busy(&'a str),
    Filed(&'a str),
    Waiting(&'a str),
}

impl<'a> Member<'a> {
    pub open spec fn holds(self) -> spec_fn(DownloadItemModel) -> bool {
        match self {
            Member::Busy(n) => busy_in(n@),
            Member::Filed(n) => filed_in(n@),
            Member::Waiting(n) => waiting_in(n@),
        }
    }

    fn admits(&self, d: &DownloadItem) -> (r: bool)
        ensures
            r == self.holds()(d@),
    {
        match self {
            Member::Busy(n) => d.is_in_queue(n) && d.state.is_active(),
            Member::Filed(n) => d.is_in_queue(n),
            Member::Waiting(n) => d.is_in_queue(n) && d.state == DlState::Queued,
        }
    }
}

/// The rows asked for, in the order of the list.
pub fn members(v: &Vec<DownloadItem>, m: &Member) -> (r: Vec<DlId>)
    ensures
        r@ == ids_where(v.deep_view(), m.holds()),
{
    let ghost all = v.deep_view();
    let mut r: Vec<DlId> = Vec::new();
    let mut i: usize = 0;
    assert(all.take(0) =~= seq![]);
    while i < v.len()
        invariant
            i <= v@.len(),
            all == v.deep_view(),
            r@ == ids_where(all.take(i as int), m.holds()),
        decreases v.len() - i,
    {
        proof {
            assert(all.take(i + 1).drop_last() =~= all.take(i as int));
            assert(all.take(i + 1).last() == v@[i as int]@);
        }
        if m.admits(&v[i]) {
            r.push(v[i].id);
        }
        i += 1;
    }
    assert(all.take(i as int) =~= all);
    r
}

/// The rows asked for, in the order of their places in the queue.
pub fn members_in_order(v: &Vec<DownloadItem>, m: &Member) -> (r: Vec<DlId>)
    ensures
        r@ == in_queue_order(v.deep_view(), m.holds()),
{
    let ghost all = v.deep_view();
    let mut ids: Vec<DlId> = Vec::new();
    let mut keys: Vec<Vec<u64>> = Vec::new();
    let mut i: usize = 0;
    assert(all.take(0) =~= seq![]);
    assert(keys.deep_view() =~= seq![]);
    while i < v.len()
        invariant
            i <= v@.len(),
            all == v.deep_view(),
            ids@ == ids_where(all.take(i as int), m.holds()),
            keys.deep_view() == places_where(all.take(i as int), m.holds()),
            ids@.len() == keys@.len(),
        decreases v.len() - i,
    {
        proof {
            assert(all.take(i + 1).drop_last() =~= all.take(i as int));
            assert(all.take(i + 1).last() == v@[i as int]@);
        }
        if m.admits(&v[i]) {
            ids.push(v[i].id);
            let mut k: Vec<u64> = Vec::new();
            k.push(v[i].q_order as u64);
            let ghost before = keys.deep_view();
            keys.push(k);
            assert(k.deep_view() =~= seq![v@[i as int].q_order as u64]);
            assert(keys.deep_view() =~= before.push(seq![v@[i as int].q_order as u64]));
        }
        i += 1;
    }
    assert(all.take(i as int) =~= all);
    let o = sort_keyed(&keys, true);
    let ghost so = order(keys.deep_view(), true);
    let mut r: Vec<DlId> = Vec::new();
    let mut k: usize = 0;
    while k < o.len()
        invariant
            k <= o@.len(),
            ids@.len() == keys@.len(),
            crate::order::as_places(o@) == so,
            forall|j: int| 0 <= j < o@.len() ==> #[trigger] o@[j] < keys@.len(),
            r@.len() == k,
            forall|j: int| 0 <= j < k ==> r@[j] == ids@[#[trigger] so[j]],
        decreases o.len() - k,
    {
        assert(so[k as int] == o@[k as int] as int);
        r.push(ids[o[k]]);
        k += 1;
    }
    assert(r@ =~= Seq::new(so.len(), |j: int| ids@[so[j]]));
    r
}

/// How many rows of a queue are transferring.
pub open spec fn busy(v: Items, name: Seq<char>) -> nat {
    ids_where(v, busy_in(name)).len()
}

/// What a queue starts now: the first of its waiting rows, as many as it may
/// have transferring beside those that are.
pub open spec fn queue_starts(v: Items, q: QueueDefModel) -> Seq<DlId> {
    let w = in_queue_order(v, waiting_in(q.name));
    let free = q.files_at_once - busy(v, q.name);
    if !q.running || free <= 0 {
        seq![]
    } else if w.len() > free {
        w.take(free)
    } else {
        w
    }
}

/// Whether a queue has something to do in this run.
pub open spec fn queue_works(v: Items, q: QueueDefModel) -> bool {
    q.running && (busy(v, q.name) > 0 || (q.files_at_once > 0 && in_queue_order(
        v,
        waiting_in(q.name),
    ).len() > 0))
}

pub open spec fn all_starts(v: Items, queues: Queues) -> Seq<DlId>
    decreases queues.len(),
{
    if queues.len() == 0 {
        seq![]
    } else {
        all_starts(v, queues.drop_last()) + queue_starts(v, queues.last())
    }
}

pub open spec fn all_works(v: Items, queues: Queues) -> Seq<Seq<char>>
    decreases queues.len(),
{
    if queues.len() == 0 {
        seq![]
    } else if queue_works(v, queues.last()) {
        all_works(v, queues.drop_last()).push(queues.last().name)
    } else {
        all_works(v, queues.drop_last())
    }
}

fn one_queue(v: &Vec<DownloadItem>, q: &QueueDef) -> (r: (Vec<DlId>, bool))
    ensures
        r.0@ == queue_starts(v.deep_view(), q@),
        r.1 == queue_works(v.deep_view(), q@),
{
    let mut starts: Vec<DlId> = Vec::new();
    assert(starts@ =~= seq![]);
    if !q.running {
        return (starts, false);
    }
    let active = members(v, &Member::Busy(q.name.as_str())).len();
    let waiting = members_in_order(v, &Member::Waiting(q.name.as_str()));
    let most = q.files_at_once as usize;
    if active >= most {
        assert(queue_starts(v.deep_view(), q@) =~= seq![]);
        return (starts, active > 0);
    }
    let free: usize = most - active;
    let mut k: usize = 0;
    while k < waiting.len() && k < free
        invariant
            k <= waiting@.len(),
            k <= free,
            starts@ == waiting@.take(k as int),
        decreases waiting.len() - k,
    {
        starts.push(waiting[k]);
        k += 1;
        assert(waiting@.take(k as int) =~= waiting@.take(k - 1).push(waiting@[k - 1]));
    }
    assert(k == waiting@.len() ==> waiting@.take(k as int) =~= waiting@);
    (starts, active > 0 || waiting.len() > 0)
}

/// What the running queues start now, and which of them have something to do.
pub fn queue_plan(v: &Vec<DownloadItem>, queues: &Vec<QueueDef>) -> (r: (Vec<DlId>, Vec<String>))
    ensures
        r.0@ == all_starts(v.deep_view(), queues.deep_view()),
        views(r.1@) == all_works(v.deep_view(), queues.deep_view()),
{
    let ghost all = queues.deep_view();
    let mut starts: Vec<DlId> = Vec::new();
    let mut works: Vec<String> = Vec::new();
    let mut i: usize = 0;
    assert(all.take(0) =~= seq![]);
    assert(views(works@) =~= seq![]);
    while i < queues.len()
        invariant
            i <= queues@.len(),
            all == queues.deep_view(),
            starts@ == all_starts(v.deep_view(), all.take(i as int)),
            views(works@) == all_works(v.deep_view(), all.take(i as int)),
        decreases queues.len() - i,
    {
        proof {
            assert(all.take(i + 1).drop_last() =~= all.take(i as int));
            assert(all.take(i + 1).last() == queues@[i as int]@);
        }
        let (mut s, w) = one_queue(v, &queues[i]);
        starts.append(&mut s);
        if w {
            let ghost before = works@;
            works.push(queues[i].name.clone());
            assert(views(works@) =~= views(before).push(queues@[i as int]@.name));
        }
        i += 1;
    }
    assert(all.take(i as int) =~= all);
    (starts, works)
}

/// Whether a row is work that a queue still waits for. A row parked by the
/// download limit is.
pub open spec fn outstanding(d: DownloadItemModel, name: Seq<char>) -> bool {
    d.in_queue(name) && (d.state.active() || d.state == DlState::Queued || d.limit_paused)
}

pub open spec fn queue_done(v: Items, q: QueueDefModel) -> bool {
    q.running && !exists|i: int| 0 <= i < v.len() && outstanding(#[trigger] v[i], q.name)
}

/// The running queues with nothing left to wait for.
pub open spec fn all_done(v: Items, queues: Queues) -> Seq<Seq<char>>
    decreases queues.len(),
{
    if queues.len() == 0 {
        seq![]
    } else if queue_done(v, queues.last()) {
        all_done(v, queues.drop_last()).push(queues.last().name)
    } else {
        all_done(v, queues.drop_last())
    }
}

fn is_queue_done(v: &Vec<DownloadItem>, q: &QueueDef) -> (r: bool)
    ensures
        r == queue_done(v.deep_view(), q@),
{
    if !q.running {
        return false;
    }
    let ghost all = v.deep_view();
    let mut i: usize = 0;
    while i < v.len()
        invariant
            i <= v@.len(),
            all == v.deep_view(),
            forall|k: int| 0 <= k < i ==> !outstanding(#[trigger] all[k], q@.name),
        decreases v.len() - i,
    {
        assert(all[i as int] == v@[i as int]@);
        let d = &v[i];
        if d.is_in_queue(&q.name) && (d.state.is_active() || d.state == DlState::Queued
            || d.limit_paused) {
            return false;
        }
        i += 1;
    }
    true
}

pub fn queues_done(v: &Vec<DownloadItem>, queues: &Vec<QueueDef>) -> (r: Vec<String>)
    ensures
        views(r@) == all_done(v.deep_view(), queues.deep_view()),
{
    let ghost all = queues.deep_view();
    let mut r: Vec<String> = Vec::new();
    let mut i: usize = 0;
    assert(all.take(0) =~= seq![]);
    assert(views(r@) =~= seq![]);
    while i < queues.len()
        invariant
            i <= queues@.len(),
            all == queues.deep_view(),
            views(r@) == all_done(v.deep_view(), all.take(i as int)),
        decreases queues.len() - i,
    {
        proof {
            assert(all.take(i + 1).drop_last() =~= all.take(i as int));
            assert(all.take(i + 1).last() == queues@[i as int]@);
        }
        if is_queue_done(v, &queues[i]) {
            let ghost before = r@;
            r.push(queues[i].name.clone());
            assert(views(r@) =~= views(before).push(queues@[i as int]@.name));
        }
        i += 1;
    }
    assert(all.take(i as int) =~= all);
    r
}

// ------------------------------------------------------------------ schedule

/// The queues whose scheduled start is due.
pub open spec fn due_starts(queues: Queues, hhmm: Seq<char>, weekday: int) -> Seq<Seq<char>>
    decreases queues.len(),
{
    if queues.len() == 0 {
        seq![]
    } else {
        let r = due_starts(queues.drop_last(), hhmm, weekday);
        let q = queues.last();
        if start_due(q.schedule, hhmm, weekday, q.running) {
            r.push(q.name)
        } else {
            r
        }
    }
}

/// The queues whose scheduled stop is due.
pub open spec fn due_stops(queues: Queues, hhmm: Seq<char>) -> Seq<Seq<char>>
    decreases queues.len(),
{
    if queues.len() == 0 {
        seq![]
    } else {
        let r = due_stops(queues.drop_last(), hhmm);
        let q = queues.last();
        if q.schedule.stop_enabled && q.schedule.stop_at == hhmm && q.running {
            r.push(q.name)
        } else {
            r
        }
    }
}

pub fn schedule_plan(queues: &Vec<QueueDef>, hhmm: &str, weekday: usize) -> (r: (
    Vec<String>,
    Vec<String>,
))
    ensures
        views(r.0@) == due_starts(queues.deep_view(), hhmm@, weekday as int),
        views(r.1@) == due_stops(queues.deep_view(), hhmm@),
{
    let ghost all = queues.deep_view();
    let mut a: Vec<String> = Vec::new();
    let mut b: Vec<String> = Vec::new();
    let mut i: usize = 0;
    assert(all.take(0) =~= seq![]);
    assert(views(a@) =~= seq![]);
    assert(views(b@) =~= seq![]);
    while i < queues.len()
        invariant
            i <= queues@.len(),
            all == queues.deep_view(),
            views(a@) == due_starts(all.take(i as int), hhmm@, weekday as int),
            views(b@) == due_stops(all.take(i as int), hhmm@),
        decreases queues.len() - i,
    {
        proof {
            assert(all.take(i + 1).drop_last() =~= all.take(i as int));
            assert(all.take(i + 1).last() == queues@[i as int]@);
        }
        let q = &queues[i];
        if schedule_start_due(&q.schedule, hhmm, weekday, q.running) {
            let ghost before = a@;
            a.push(q.name.clone());
            assert(views(a@) =~= views(before).push(q@.name));
        }
        if q.schedule.stop_enabled && same(&q.schedule.stop_at, hhmm) && q.running {
            let ghost before = b@;
            b.push(q.name.clone());
            assert(views(b@) =~= views(before).push(q@.name));
        }
        i += 1;
    }
    assert(all.take(i as int) =~= all);
    (a, b)
}

// --------------------------------------------------------------------- order

/// `ids` with the one at `from` moved to `to`.
pub open spec fn moved(ids: Seq<DlId>, from: int, to: int) -> Seq<DlId> {
    ids.remove(from).insert(to, ids[from])
}

/// The place of the first `id` in `v`; the length where there is none.
pub open spec fn place_of_id(v: Seq<DlId>, id: DlId) -> int
    decreases v.len(),
{
    if v.len() == 0 || v[0] == id {
        0
    } else {
        1 + place_of_id(v.drop_first(), id)
    }
}

proof fn lemma_place_of_id(v: Seq<DlId>, id: DlId, k: int)
    requires
        0 <= k <= v.len(),
        forall|i: int| 0 <= i < k ==> #[trigger] v[i] != id,
        k < v.len() ==> v[k] == id,
    ensures
        place_of_id(v, id) == k,
    decreases v.len(),
{
    if v.len() > 0 && v[0] != id {
        let t = v.drop_first();
        assert forall|i: int| 0 <= i < k - 1 implies #[trigger] t[i] != id by {
            assert(t[i] == v[i + 1]);
        }
        lemma_place_of_id(t, id, k - 1);
    }
}

pub fn find_id(v: &Vec<DlId>, id: DlId) -> (r: Option<usize>)
    ensures
        match r {
            Some(i) => i < v.len() && i == place_of_id(v@, id) && v@[i as int] == id,
            None => place_of_id(v@, id) == v@.len(),
        },
{
    let mut i: usize = 0;
    while i < v.len()
        invariant
            i <= v@.len(),
            forall|k: int| 0 <= k < i ==> #[trigger] v@[k] != id,
        decreases v.len() - i,
    {
        if v[i] == id {
            proof {
                lemma_place_of_id(v@, id, i as int);
            }
            return Some(i);
        }
        i += 1;
    }
    proof {
        lemma_place_of_id(v@, id, i as int);
    }
    None
}

// ---------------------------------------------------------------------- laws

/// A queue never starts more rows than it may have transferring beside those
/// that already are.
pub proof fn a_queue_keeps_its_limit(v: Items, q: QueueDefModel)
    ensures
        queue_starts(v, q).len() + busy(v, q.name) <= if busy(v, q.name) > q.files_at_once {
            busy(v, q.name) as int
        } else {
            q.files_at_once as int
        },
        !q.running ==> queue_starts(v, q).len() == 0,
{
}

/// A queue with a row that the download limit has parked is not done.
pub proof fn a_parked_row_keeps_its_queue_open(v: Items, q: QueueDefModel, i: int)
    requires
        0 <= i < v.len(),
        v[i].in_queue(q.name),
        v[i].limit_paused,
    ensures
        !queue_done(v, q),
{
    assert(outstanding(v[i], q.name));
}

} // verus!
