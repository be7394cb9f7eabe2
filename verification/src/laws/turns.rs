//! Whose turn it is: what a running queue starts, and when it is done.
use crate::downloads::{ids_where, Items};
use crate::laws::rows::{on_the_wire, unique};
use crate::model::{DlId, DlState, DownloadItemModel, QueueDefModel};
use crate::order::{before, lemma_before_at, order, order_is_in_range, sorting_is_a_stable_permutation};
use crate::queues::{
    busy_in, in_queue_order, outstanding, places_where, queue_done,
    queue_starts, waiting_in,
};
use vstd::prelude::*;

verus! {

/// How many rows of a queue are transferring.
pub open spec fn wired(v: Items, name: Seq<char>) -> nat
    decreases v.len(),
{
    if v.len() == 0 {
        0
    } else {
        wired(v.drop_last(), name) + (if v.last().queue == Some(name) && on_the_wire(v.last()) {
            1nat
        } else {
            0
        })
    }
}

/// A row waits for its turn in this queue.
pub open spec fn waits(d: DownloadItemModel, name: Seq<char>) -> bool {
    d.queue == Some(name) && d.state == DlState::Queued
}

/// The row numbered `id` waits.
pub open spec fn waits_in(v: Items, name: Seq<char>, id: DlId) -> bool {
    exists|i: int| 0 <= i < v.len() && (#[trigger] v[i]).id == id && waits(v[i], name)
}

/// The row numbered `id` waits, at this place in the queue.
pub open spec fn waits_at(v: Items, name: Seq<char>, id: DlId, place: u32) -> bool {
    exists|i: int|
        0 <= i < v.len() && (#[trigger] v[i]).id == id && waits(v[i], name) && v[i].q_order == place
}

proof fn lemma_busy(v: Items, name: Seq<char>)
    ensures
        ids_where(v, busy_in(name)).len() == wired(v, name),
    decreases v.len(),
{
    if v.len() > 0 {
        lemma_busy(v.drop_last(), name);
    }
}

/// The rows picked by a predicate, with the place in the list of each.
pub open spec fn picked(v: Items, p: spec_fn(DownloadItemModel) -> bool) -> Seq<int>
    decreases v.len(),
{
    if v.len() == 0 {
        seq![]
    } else {
        let r = picked(v.drop_last(), p);
        if p(v.last()) {
            r.push(v.len() - 1)
        } else {
            r
        }
    }
}

proof fn lemma_picked(v: Items, p: spec_fn(DownloadItemModel) -> bool)
    ensures
        ids_where(v, p).len() == picked(v, p).len(),
        places_where(v, p).len() == picked(v, p).len(),
        forall|m: int|
            0 <= m < picked(v, p).len() ==> {
                let i = #[trigger] picked(v, p)[m];
                &&& 0 <= i < v.len()
                &&& p(v[i])
                &&& ids_where(v, p)[m] == v[i].id
                &&& places_where(v, p)[m] == seq![v[i].q_order as u64]
            },
        forall|m: int, n: int|
            0 <= m < n < picked(v, p).len() ==> #[trigger] picked(v, p)[m] < #[trigger] picked(v, p)[n],
        forall|i: int| 0 <= i < v.len() && p(#[trigger] v[i]) ==> picked(v, p).contains(i),
    decreases v.len(),
{
    if v.len() > 0 {
        let u = v.drop_last();
        lemma_picked(u, p);
        let r = picked(u, p);
        let w = picked(v, p);
        assert forall|m: int| 0 <= m < w.len() implies {
            let i = #[trigger] w[m];
            &&& 0 <= i < v.len()
            &&& p(v[i])
            &&& ids_where(v, p)[m] == v[i].id
            &&& places_where(v, p)[m] == seq![v[i].q_order as u64]
        } by {
            if m < r.len() {
                assert(w[m] == r[m]);
                assert(u[r[m]] == v[r[m]]);
            }
        }
        assert forall|m: int, n: int| 0 <= m < n < w.len() implies #[trigger] w[m] < #[trigger] w[n] by {
            assert(w[m] == r[m]);
            if n < r.len() {
                assert(w[n] == r[n]);
            }
        }
        assert forall|i: int| 0 <= i < v.len() && p(#[trigger] v[i]) implies w.contains(i) by {
            if i < u.len() {
                assert(p(u[i]));
                let m = choose|m: int| 0 <= m < r.len() && r[m] == i;
                assert(w[m] == i);
            } else {
                assert(w[r.len() as int] == i);
            }
        }
    }
}

/// The place in the list of the `m`-th row of the queue's order.
pub open spec fn turn(v: Items, p: spec_fn(DownloadItemModel) -> bool, m: int) -> int {
    picked(v, p)[order(places_where(v, p), true)[m]]
}

pub proof fn lemma_turns(v: Items, p: spec_fn(DownloadItemModel) -> bool)
    ensures
        in_queue_order(v, p).len() == picked(v, p).len(),
        forall|m: int|
            0 <= m < in_queue_order(v, p).len() ==> {
                let i = #[trigger] turn(v, p, m);
                &&& 0 <= i < v.len()
                &&& p(v[i])
                &&& in_queue_order(v, p)[m] == v[i].id
            },
        forall|m: int, n: int|
            0 <= m < n < in_queue_order(v, p).len() ==> {
                let i = #[trigger] turn(v, p, m);
                let j = #[trigger] turn(v, p, n);
                v[i].q_order <= v[j].q_order && i != j
            },
        forall|i: int|
            0 <= i < v.len() && p(#[trigger] v[i]) ==> exists|m: int|
                0 <= m < in_queue_order(v, p).len() && #[trigger] turn(v, p, m) == i,
{
    lemma_picked(v, p);
    let keys = places_where(v, p);
    let o = order(keys, true);
    let k = picked(v, p);
    sorting_is_a_stable_permutation(keys, true);
    assert forall|m: int| 0 <= m < o.len() implies 0 <= #[trigger] o[m] < k.len() by {
        order_is_in_range(keys, true, m);
    }
    assert forall|m: int| 0 <= m < in_queue_order(v, p).len() implies {
        let i = #[trigger] turn(v, p, m);
        &&& 0 <= i < v.len()
        &&& p(v[i])
        &&& in_queue_order(v, p)[m] == v[i].id
    } by {
        assert(0 <= o[m] < k.len());
        let i = k[o[m]];
    }
    assert forall|m: int, n: int| 0 <= m < n < in_queue_order(v, p).len() implies {
        let i = #[trigger] turn(v, p, m);
        let j = #[trigger] turn(v, p, n);
        v[i].q_order <= v[j].q_order && i != j
    } by {
        assert(0 <= o[m] < k.len() && 0 <= o[n] < k.len());
        let i = k[o[m]];
        let j = k[o[n]];
        assert(o[m] != o[n]);
        if o[m] < o[n] {
            assert(k[o[m]] < k[o[n]]);
        } else {
            assert(k[o[n]] < k[o[m]]);
        }
        let a = seq![v[i].q_order as u64];
        let b = seq![v[j].q_order as u64];
        assert(keys[o[m]] == a && keys[o[n]] == b);
        assert(!before(b, a));
        if v[j].q_order < v[i].q_order {
            lemma_before_at(b, a, 0);
        }
    }
    assert forall|i: int| 0 <= i < v.len() && p(#[trigger] v[i]) implies exists|m: int|
        0 <= m < in_queue_order(v, p).len() && #[trigger] turn(v, p, m) == i by {
        let x = choose|x: int| 0 <= x < k.len() && k[x] == i;
        assert(o.contains(x));
        let m = choose|m: int| 0 <= m < o.len() && o[m] == x;
        assert(turn(v, p, m) == i);
    }
}

/// A queue that does not run starts nothing. One that runs starts only rows that
/// wait in it, each once, in the order of their places, and never has more
/// transferring than it may: `files_at_once`, or what already is.
pub proof fn a_queue_starts_in_turn(v: Items, q: QueueDefModel)
    requires
        unique(v),
    ensures
        ({
            let st = queue_starts(v, q);
            &&& !q.running ==> st.len() == 0
            &&& st.len() > 0 ==> st.len() + wired(v, q.name) <= q.files_at_once
            &&& st.no_duplicates()
            &&& forall|m: int| 0 <= m < st.len() ==> waits_in(v, q.name, #[trigger] st[m])
            &&& forall|m: int, n: int, a: u32, b: u32|
                0 <= m < n < st.len() && #[trigger] waits_at(v, q.name, st[m], a) && #[trigger] waits_at(
                    v,
                    q.name,
                    st[n],
                    b,
                ) ==> a <= b
        }),
{
    let p = waiting_in(q.name);
    lemma_turns(v, p);
    lemma_busy(v, q.name);
    let w = in_queue_order(v, p);
    let st = queue_starts(v, q);
    assert forall|m: int| 0 <= m < st.len() implies waits_in(v, q.name, #[trigger] st[m]) by {
        let i = turn(v, p, m);
        assert(st[m] == w[m]);
        assert(waits(v[i], q.name));
    }
    assert forall|m: int, n: int| 0 <= m < n < st.len() implies st[m] != st[n] by {
        let i = turn(v, p, m);
        let j = turn(v, p, n);
        assert(st[m] == v[i].id && st[n] == v[j].id);
        if i < j {
            assert(v[i].id != v[j].id);
        } else {
            assert(v[j].id != v[i].id);
        }
    }
    assert forall|m: int, n: int| 0 <= m < st.len() && 0 <= n < st.len() && m != n implies st[m]
        != st[n] by {
        if m < n {
            assert(st[m] != st[n]);
        } else {
            assert(st[n] != st[m]);
        }
    }
    assert forall|m: int, n: int, a: u32, b: u32|
        0 <= m < n < st.len() && #[trigger] waits_at(v, q.name, st[m], a) && #[trigger] waits_at(
            v,
            q.name,
            st[n],
            b,
        ) implies a <= b by {
        let i = turn(v, p, m);
        let j = turn(v, p, n);
        assert(st[m] == v[i].id && st[n] == v[j].id);
        lemma_place_is(v, q.name, i, a);
        lemma_place_is(v, q.name, j, b);
    }
}

proof fn lemma_place_is(v: Items, name: Seq<char>, i: int, place: u32)
    requires
        unique(v),
        0 <= i < v.len(),
        waits_at(v, name, v[i].id, place),
    ensures
        v[i].q_order == place,
{
    let k = choose|k: int|
        0 <= k < v.len() && (#[trigger] v[k]).id == v[i].id && waits(v[k], name) && v[k].q_order == place;
    if k < i {
        assert(v[k].id != v[i].id);
    }
    if i < k {
        assert(v[i].id != v[k].id);
    }
}

/// A running queue leaves a row waiting only if it has as many transferring, with
/// those it starts, as it may, and starts no row whose place comes after that of
/// one left waiting.
pub proof fn no_turn_is_wasted(v: Items, q: QueueDefModel, i: int)
    requires
        unique(v),
        q.running,
        0 <= i < v.len(),
        v[i].queue == Some(q.name),
        v[i].state == DlState::Queued,
        !queue_starts(v, q).contains(v[i].id),
    ensures
        queue_starts(v, q).len() + wired(v, q.name) >= q.files_at_once,
        forall|m: int, place: u32|
            0 <= m < queue_starts(v, q).len() && #[trigger] waits_at(
                v,
                q.name,
                queue_starts(v, q)[m],
                place,
            ) ==> place <= v[i].q_order,
{
    let p = waiting_in(q.name);
    lemma_turns(v, p);
    lemma_busy(v, q.name);
    let w = in_queue_order(v, p);
    let st = queue_starts(v, q);
    assert(p(v[i]));
    let n = choose|n: int| 0 <= n < w.len() && #[trigger] turn(v, p, n) == i;
    if n < st.len() {
        assert(st[n] == w[n]);
    }
    assert forall|m: int, place: u32|
        0 <= m < st.len() && #[trigger] waits_at(v, q.name, st[m], place) implies place
        <= v[i].q_order by {
        let j = turn(v, p, m);
        assert(st[m] == v[j].id);
        lemma_place_is(v, q.name, j, place);
        assert(turn(v, p, n) == i);
    }
}

/// A queue is done exactly if it runs and none of its rows is transferring,
/// waiting, or held back by the download limit.
pub proof fn a_queue_is_done_when_nothing_is_left(v: Items, q: QueueDefModel)
    ensures
        queue_done(v, q) <==> q.running && forall|i: int|
            0 <= i < v.len() && (#[trigger] v[i]).queue == Some(q.name) ==> v[i].state
                != DlState::Connecting && v[i].state != DlState::Receiving && v[i].state
                != DlState::Queued && !v[i].limit_paused,
{
    if queue_done(v, q) {
        assert forall|i: int| 0 <= i < v.len() && (#[trigger] v[i]).queue == Some(
            q.name,
        ) implies v[i].state != DlState::Connecting && v[i].state != DlState::Receiving && v[i].state
            != DlState::Queued && !v[i].limit_paused by {
            assert(!outstanding(v[i], q.name));
        }
    }
}

} // verus!
