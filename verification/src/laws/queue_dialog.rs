//! Queues made, renamed, ordered and deleted.
use crate::app::queues::to_named;
use crate::app::scheduler::queues_without;
use crate::app::AppModel;
use crate::downloads::Items;
use crate::edits::to_order;
use crate::laws::rows::{lemma_at, lemma_edit, unique};
use crate::laws::schedule::own_names;
use crate::laws::turns::{lemma_turns, picked, turn};
use crate::model::{DlId, DownloadItemModel, QueueDefModel};
use crate::queues::{
    filed_in, in_queue_order, lemma_queue_at_is, moved, place_of_id, Queues,
};
use crate::text::trimmed;
use vstd::prelude::*;

verus! {

/// A queue that is renamed keeps everything but its name, and its rows go with
/// it. Other queues and their rows stay as they are.
pub proof fn a_renamed_queue_keeps_its_rows(s: AppModel, j: int, new: Seq<char>, i: int)
    requires
        own_names(s.queues()),
        0 <= j < s.queues().len(),
        !s.queues()[j].builtin,
        trimmed(new).len() > 0,
        forall|m: int| 0 <= m < s.queues().len() ==> (#[trigger] s.queues()[m]).name != trimmed(new),
        0 <= i < s.items().len(),
    ensures
        ({
            let old = s.queues()[j].name;
            let t = s.rename_queue(old, new);
            &&& t.queues().len() == s.queues().len()
            &&& t.queues()[j] == QueueDefModel { name: trimmed(new), ..s.queues()[j] }
            &&& forall|m: int|
                0 <= m < s.queues().len() && m != j ==> #[trigger] t.queues()[m] == s.queues()[m]
            &&& t.items().len() == s.items().len()
            &&& s.items()[i].queue == Some(old) ==> t.items()[i].queue == Some(trimmed(new))
                && t.items()[i].id == s.items()[i].id && t.items()[i].state == s.items()[i].state
                && t.items()[i].q_order == s.items()[i].q_order
            &&& s.items()[i].queue != Some(old) ==> t.items()[i] == s.items()[i]
        }),
{
    reveal(AppModel::rename_queue);
    let old = s.queues()[j].name;
    lemma_queue_at_is(s.queues(), old, j);
    assert(s.queues()[j].name != trimmed(new));
    let t = s.rename_queue(old, new);
    assert(t.queues() == s.queues().update(j, to_named(trimmed(new))(s.queues()[j])));
}

/// A queue does not take an empty name, nor that of another queue.
pub proof fn names_of_queues_stay_apart(s: AppModel, old: Seq<char>, new: Seq<char>, m: int)
    requires
        trimmed(new).len() == 0 || (0 <= m < s.queues().len() && s.queues()[m].name == trimmed(new)),
    ensures
        s.rename_queue(old, new) == s,
{
    reveal(AppModel::rename_queue);
}

proof fn lemma_queues_without(v: Queues, j: int)
    requires
        own_names(v),
        0 <= j < v.len(),
    ensures
        queues_without(v, v[j].name) == v.remove(j),
    decreases v.len(),
{
    let u = v.drop_last();
    if j == v.len() - 1 {
        lemma_no_queue(u, v[j].name);
        assert(v.remove(j) =~= u);
    } else {
        assert(u[j] == v[j]);
        lemma_queues_without(u, j);
        assert(v[j].name != v[v.len() - 1].name);
        assert(v.remove(j) =~= u.remove(j).push(v.last()));
    }
}

proof fn lemma_no_queue(v: Queues, name: Seq<char>)
    requires
        forall|m: int| 0 <= m < v.len() ==> (#[trigger] v[m]).name != name,
    ensures
        queues_without(v, name) == v,
    decreases v.len(),
{
    if v.len() > 0 {
        lemma_no_queue(v.drop_last(), name);
        assert(v[v.len() - 1].name != name);
        assert(v.drop_last().push(v.last()) =~= v);
    }
}

/// A deleted queue is gone, and its rows belong to no queue; other queues and
/// rows stay as they are. A stock queue is not deleted, nor is the last one.
pub proof fn a_deleted_queue_frees_its_rows(s: AppModel, j: int, i: int)
    requires
        own_names(s.queues()),
        0 <= j < s.queues().len(),
        s.sch.queue == s.queues()[j].name,
        0 <= i < s.items().len(),
    ensures
        ({
            let t = s.sch_delete_queue();
            let d = s.items()[i];
            if s.queues()[j].builtin || s.queues().len() == 1 {
                t == s
            } else {
                &&& t.queues() == s.queues().remove(j)
                &&& t.items().len() == s.items().len()
                &&& d.queue == Some(s.queues()[j].name) ==> t.items()[i].queue is None
                    && t.items()[i].id == d.id && t.items()[i].state == d.state
                &&& d.queue != Some(s.queues()[j].name) ==> t.items()[i] == d
            }
        }),
{
    reveal(AppModel::sch_delete_queue);
    lemma_queue_at_is(s.queues(), s.queues()[j].name, j);
    lemma_queues_without(s.queues(), j);
}

/// A new queue comes last, does not run, and has neither a start nor a stop set.
/// The others stay as they are.
pub proof fn a_new_queue_is_idle(s: AppModel)
    ensures
        ({
            let t = s.sch_new_queue();
            let q = t.queues().last();
            &&& t.queues().len() == s.queues().len() + 1
            &&& t.queues().drop_last() == s.queues()
            &&& !q.running
            &&& !q.builtin
            &&& !q.schedule.start_enabled
            &&& !q.schedule.stop_enabled
            &&& 1 <= q.files_at_once
            &&& t.items() == s.items()
            &&& t.sch.queue == q.name
        }),
{
    reveal(AppModel::sch_new_queue);
    let t = s.sch_new_queue();
    assert(t.queues().drop_last() =~= s.queues());
}

proof fn lemma_place_at(v: Seq<DlId>, k: int)
    requires
        0 <= k < v.len(),
        forall|i: int| 0 <= i < k ==> #[trigger] v[i] != v[k],
    ensures
        place_of_id(v, v[k]) == k,
    decreases v.len(),
{
    if k > 0 {
        assert(v[0] != v[k]);
        let t = v.drop_first();
        assert forall|i: int| 0 <= i < k - 1 implies #[trigger] t[i] != t[k - 1] by {
            assert(t[i] == v[i + 1]);
        }
        lemma_place_at(t, k - 1);
        assert(t[k - 1] == v[k]);
    }
}

/// Two rows stand next to each other in a queue, `b` before `a`.
pub open spec fn neighbours(v: Items, name: Seq<char>, b: int, a: int) -> bool {
    &&& 0 <= a < v.len()
    &&& 0 <= b < v.len()
    &&& v[a].queue == Some(name)
    &&& v[b].queue == Some(name)
    &&& v[b].q_order < v[a].q_order
    &&& forall|c: int|
        0 <= c < v.len() && c != a && c != b && (#[trigger] v[c]).queue == Some(name) ==> v[c].q_order
            < v[b].q_order || v[a].q_order < v[c].q_order
}

/// Neighbours stand next to each other in the queue's order.
proof fn lemma_neighbours(v: Items, name: Seq<char>, b: int, a: int)
    requires
        unique(v),
        neighbours(v, name, b, a),
    ensures
        ({
            let o = in_queue_order(v, filed_in(name));
            let m = place_of_id(o, v[a].id);
            &&& 1 <= m < o.len()
            &&& o[m] == v[a].id
            &&& o[m - 1] == v[b].id
            &&& place_of_id(o, v[b].id) == m - 1
        }),
{
    let p = filed_in(name);
    lemma_turns(v, p);
    let o = in_queue_order(v, p);
    assert(p(v[a]) && p(v[b]));
    let x = choose|x: int| 0 <= x < o.len() && #[trigger] turn(v, p, x) == a;
    let y = choose|y: int| 0 <= y < o.len() && #[trigger] turn(v, p, y) == b;
    assert(y < x) by {
        if x < y {
            assert(v[turn(v, p, x)].q_order <= v[turn(v, p, y)].q_order);
        }
    }
    if y + 1 < x {
        let c = turn(v, p, y + 1);
        assert(v[turn(v, p, y)].q_order <= v[turn(v, p, y + 1)].q_order);
        assert(v[turn(v, p, y + 1)].q_order <= v[turn(v, p, x)].q_order);
        assert(p(v[c]));
    }
    assert forall|i: int| 0 <= i < x implies #[trigger] o[i] != o[x] by {
        let c = turn(v, p, i);
        assert(turn(v, p, x) == a);
        lemma_other(v, c, a);
    }
    assert forall|i: int| 0 <= i < y implies #[trigger] o[i] != o[y] by {
        let c = turn(v, p, i);
        assert(turn(v, p, y) == b);
        lemma_other(v, c, b);
    }
    lemma_place_at(o, x);
    lemma_place_at(o, y);
}

proof fn lemma_other(v: Items, i: int, j: int)
    requires
        unique(v),
        0 <= i < v.len(),
        0 <= j < v.len(),
        i != j,
    ensures
        v[i].id != v[j].id,
{
    if i < j {
        assert(v[i].id != v[j].id);
    } else {
        assert(v[j].id != v[i].id);
    }
}

/// Moving a row up lets it change places with the row before it in its queue, and
/// moving the other one down does the same. No other row moves.
pub proof fn moving_a_row_swaps_neighbours(s: AppModel, b: int, a: int, up: bool)
    requires
        unique(s.items()),
        neighbours(s.items(), s.sch.queue, b, a),
        s.sch.sel_file == Some(
            if up {
                s.items()[a].id
            } else {
                s.items()[b].id
            },
        ),
    ensures
        ({
            let t = s.sch_file_move(up);
            &&& t.items().len() == s.items().len()
            &&& t.items()[a].q_order == s.items()[b].q_order
            &&& t.items()[b].q_order == s.items()[a].q_order
            &&& t.items()[a].id == s.items()[a].id
            &&& t.items()[b].id == s.items()[b].id
            &&& t.items()[a].queue == s.items()[a].queue
            &&& t.items()[b].queue == s.items()[b].queue
            &&& forall|c: int|
                0 <= c < s.items().len() && c != a && c != b ==> #[trigger] t.items()[c]
                    == s.items()[c]
        }),
{
    reveal(AppModel::sch_file_move);
    let v = s.items();
    lemma_neighbours(v, s.sch.queue, b, a);
    lemma_at(v, a);
    lemma_at(v, b);
    let (x, y) = if up {
        (a, b)
    } else {
        (b, a)
    };
    lemma_edit(v, x, to_order(v[y].q_order));
    let u = s.edit_item(v[x].id, to_order(v[y].q_order));
    lemma_other(v, x, y);
    assert(u.items()[y] == v[y]);
    lemma_edit(u.items(), y, to_order(v[x].q_order));
}

/// A row that is dragged over another one of its queue takes that one's place,
/// and the other one moves by one towards where the row came from. Rows of other
/// queues stay where they are.
pub proof fn a_dragged_row_takes_the_place(s: AppModel, a: int, b: int, c: int)
    requires
        unique(s.items()),
        0 <= a < s.items().len(),
        0 <= b < s.items().len(),
        0 <= c < s.items().len(),
        a != b,
        s.items()[a].queue == Some(s.sch.queue),
        s.items()[b].queue == Some(s.sch.queue),
        s.items()[c].queue != Some(s.sch.queue),
        s.sch.drag == Some(s.items()[a].id),
        s.items().len() <= u32::MAX,
    ensures
        ({
            let o = s.queue_order();
            let from = place_of_id(o, s.items()[a].id);
            let to = place_of_id(o, s.items()[b].id);
            let t = s.sch_drag_over(s.items()[b].id);
            &&& t.items().len() == s.items().len()
            &&& t.items()[a].q_order == to
            &&& t.items()[b].q_order == (if from < to {
                to - 1
            } else {
                to + 1
            })
            &&& t.items()[c] == s.items()[c]
            &&& t.items()[a].queue == s.items()[a].queue
            &&& t.items()[a].id == s.items()[a].id
        }),
{
    reveal(AppModel::sch_drag_over);
    let v = s.items();
    let p = filed_in(s.sch.queue);
    let o = s.queue_order();
    lemma_order_apart(v, s.sch.queue);
    lemma_turns(v, p);
    assert(p(v[a]) && p(v[b]));
    let x = choose|x: int| 0 <= x < o.len() && #[trigger] turn(v, p, x) == a;
    let y = choose|y: int| 0 <= y < o.len() && #[trigger] turn(v, p, y) == b;
    assert(o[x] == v[a].id && o[y] == v[b].id);
    lemma_place_at(o, x);
    lemma_place_at(o, y);
    lemma_other(v, a, b);
    let w = moved(o, x, y);
    let r = o.remove(x);
    assert(w.len() == o.len());
    assert(w[y] == o[x]);
    let z = if x < y {
        y - 1
    } else {
        y + 1
    };
    assert(w[z] == o[y]);
    assert forall|i: int, j: int| 0 <= i < j < w.len() implies w[i] != w[j] by {
        lemma_moved_apart(o, x, y, i, j);
    }
    assert forall|i: int| 0 <= i < y implies #[trigger] w[i] != w[y] by {}
    assert forall|i: int| 0 <= i < z implies #[trigger] w[i] != w[z] by {}
    lemma_place_at(w, y);
    lemma_place_at(w, z);
    assert forall|m: int| 0 <= m < w.len() implies #[trigger] w[m] != v[c].id by {
        lemma_moved_from(o, x, y, m);
        let q = choose|q: int| 0 <= q < o.len() && o[q] == w[m];
        let d = turn(v, p, q);
        assert(p(v[d]));
        lemma_other(v, d, c);
    }
    lemma_place_none(w, v[c].id);
    lemma_order_len(v, s.sch.queue);
}

proof fn lemma_place_none(v: Seq<DlId>, id: DlId)
    requires
        forall|m: int| 0 <= m < v.len() ==> #[trigger] v[m] != id,
    ensures
        place_of_id(v, id) == v.len(),
    decreases v.len(),
{
    if v.len() > 0 {
        assert(v[0] != id);
        let t = v.drop_first();
        assert forall|m: int| 0 <= m < t.len() implies #[trigger] t[m] != id by {
            assert(t[m] == v[m + 1]);
        }
        lemma_place_none(t, id);
    }
}

/// Where an element of the moved list stood before.
spec fn came_from(x: int, y: int, i: int) -> int {
    if i == y {
        x
    } else {
        let j = if i < y {
            i
        } else {
            i - 1
        };
        if j < x {
            j
        } else {
            j + 1
        }
    }
}

proof fn lemma_moved_from(o: Seq<DlId>, x: int, y: int, i: int)
    requires
        0 <= x < o.len(),
        0 <= y < o.len(),
        0 <= i < o.len(),
    ensures
        0 <= came_from(x, y, i) < o.len(),
        moved(o, x, y)[i] == o[came_from(x, y, i)],
{
}

proof fn lemma_moved_apart(o: Seq<DlId>, x: int, y: int, i: int, j: int)
    requires
        0 <= x < o.len(),
        0 <= y < o.len(),
        0 <= i < j < o.len(),
        forall|m: int, n: int| 0 <= m < n < o.len() ==> #[trigger] o[m] != #[trigger] o[n],
    ensures
        moved(o, x, y)[i] != moved(o, x, y)[j],
{
    lemma_moved_from(o, x, y, i);
    lemma_moved_from(o, x, y, j);
    let a = came_from(x, y, i);
    let b = came_from(x, y, j);
    assert(a != b);
    if a < b {
        assert(o[a] != o[b]);
    } else {
        assert(o[b] != o[a]);
    }
}

/// No row stands twice in the order of a queue.
proof fn lemma_order_apart(v: Items, name: Seq<char>)
    requires
        unique(v),
    ensures
        ({
            let o = in_queue_order(v, filed_in(name));
            forall|m: int, n: int| 0 <= m < n < o.len() ==> #[trigger] o[m] != #[trigger] o[n]
        }),
{
    let p = filed_in(name);
    lemma_turns(v, p);
    let o = in_queue_order(v, p);
    assert forall|m: int, n: int| 0 <= m < n < o.len() implies #[trigger] o[m] != #[trigger] o[n] by {
        let i = turn(v, p, m);
        let j = turn(v, p, n);
        assert(i != j);
        lemma_other(v, i, j);
    }
}

proof fn lemma_order_len(v: Items, name: Seq<char>)
    ensures
        in_queue_order(v, filed_in(name)).len() <= v.len(),
{
    lemma_turns(v, filed_in(name));
    lemma_picked_len(v, filed_in(name));
}

proof fn lemma_picked_len(v: Items, p: spec_fn(DownloadItemModel) -> bool)
    ensures
        picked(v, p).len() <= v.len(),
    decreases v.len(),
{
    if v.len() > 0 {
        lemma_picked_len(v.drop_last(), p);
    }
}

} // verus!
