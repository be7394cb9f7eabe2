//! Selecting rows with the mouse.
use crate::app::list::span_of;
use crate::app::transfers::ids_without;
use crate::app::update::Message;
use crate::app::{AppModel, EnvModel};
use crate::laws::rows::{lemma_at, on_the_wire, unique};
use crate::laws::steps::table_steps;
use crate::model::DlId;
use crate::queues::place_of_id;
use crate::state::SortKey;
use vstd::prelude::*;

verus! {

/// No key that changes what a click means is held down.
pub open spec fn bare_hands(s: AppModel) -> bool {
    !s.mods.command && !s.mods.control && !s.mods.shift
}

/// A plain click selects the row and nothing else.
pub proof fn a_click_selects_one_row(s: AppModel, id: DlId, env: EnvModel)
    requires
        bare_hands(s),
        s.list.last_click is None,
    ensures
        ({
            let t = s.update(Message::RowClick(id), env);
            &&& t.list.selected == seq![id]
            &&& t.list.anchor == Some(id)
            &&& t.items() == s.items()
            &&& t.out == s.out
        }),
{
    table_steps(s, id, SortKey::Name, env);
    reveal(AppModel::row_click);
}

/// A click with the command key held turns the row's own selection round and
/// leaves that of every other row.
pub proof fn a_command_click_toggles_one_row(s: AppModel, id: DlId, x: DlId, env: EnvModel)
    requires
        s.mods.command || s.mods.control,
    ensures
        ({
            let t = s.update(Message::RowClick(id), env);
            &&& x != id ==> (t.list.selected.contains(x) <==> s.list.selected.contains(x))
            &&& x == id ==> (t.list.selected.contains(x) <==> !s.list.selected.contains(x))
        }),
{
    table_steps(s, id, SortKey::Name, env);
    reveal(AppModel::row_click);
    let v = s.list.selected;
    lemma_left(v, id, x);
    if !v.contains(id) {
        let w = v.push(id);
        assert(w[v.len() as int] == id);
        if v.contains(x) {
            let i = choose|i: int| 0 <= i < v.len() && v[i] == x;
            assert(w[i] == x);
        }
        if w.contains(x) && x != id {
            let i = choose|i: int| 0 <= i < w.len() && w[i] == x;
            assert(v[i] == x);
        }
    }
}

proof fn lemma_left(v: Seq<DlId>, id: DlId, x: DlId)
    ensures
        ids_without(v, id).contains(x) <==> v.contains(x) && x != id,
    decreases v.len(),
{
    if v.len() > 0 {
        let u = v.drop_last();
        lemma_left(u, id, x);
        let w = ids_without(v, id);
        let r = ids_without(u, id);
        if v.contains(x) {
            let i = choose|i: int| 0 <= i < v.len() && v[i] == x;
            if i < u.len() {
                assert(u[i] == x);
            }
        }
        if u.contains(x) {
            let i = choose|i: int| 0 <= i < u.len() && u[i] == x;
            assert(v[i] == x);
        }
        assert(v[v.len() - 1] == v.last());
        if v.last() != id {
            if w.contains(x) {
                let i = choose|i: int| 0 <= i < w.len() && w[i] == x;
                if i < r.len() {
                    assert(r[i] == x);
                }
            }
            if r.contains(x) {
                let i = choose|i: int| 0 <= i < r.len() && r[i] == x;
                assert(w[i] == x);
            }
            assert(w[r.len() as int] == v.last());
        }
    }
}

proof fn lemma_place(v: Seq<DlId>, k: int)
    requires
        v.no_duplicates(),
        0 <= k < v.len(),
    ensures
        place_of_id(v, v[k]) == k,
    decreases v.len(),
{
    if k > 0 {
        assert(v[0] != v[k]);
        let t = v.drop_first();
        assert(t.no_duplicates()) by {
            assert forall|i: int, j: int| 0 <= i < t.len() && 0 <= j < t.len() && i != j implies t[i]
                != t[j] by {
                assert(v[i + 1] != v[j + 1]);
            }
        }
        lemma_place(t, k - 1);
        assert(t[k - 1] == v[k]);
    }
}

/// A click with Shift held selects what is shown between the anchor and the row,
/// both of them included, and nothing else. The anchor stays.
pub proof fn a_shift_click_selects_a_stretch(
    s: AppModel,
    a: int,
    b: int,
    k: int,
    env: EnvModel,
)
    requires
        s.mods.shift,
        !s.mods.command && !s.mods.control,
        s.visible_ids().no_duplicates(),
        0 <= a < s.visible_ids().len(),
        0 <= b < s.visible_ids().len(),
        0 <= k < s.visible_ids().len(),
        s.list.anchor == Some(s.visible_ids()[a]),
    ensures
        ({
            let v = s.visible_ids();
            let t = s.update(Message::RowClick(v[b]), env);
            &&& t.list.selected.contains(v[k]) <==> a <= k <= b || b <= k <= a
            &&& t.list.selected.len() == (if a <= b {
                b - a + 1
            } else {
                a - b + 1
            })
            &&& t.list.anchor == s.list.anchor
        }),
{
    let v = s.visible_ids();
    table_steps(s, v[b], SortKey::Name, env);
    reveal(AppModel::row_click);
    lemma_place(v, a);
    lemma_place(v, b);
    let lo = if a <= b {
        a
    } else {
        b
    };
    let w = span_of(v, a, b);
    if w.contains(v[k]) {
        let i = choose|i: int| 0 <= i < w.len() && w[i] == v[k];
        assert(w[i] == v[lo + i]);
        assert(lo + i == k);
    }
    if a <= k <= b || b <= k <= a {
        assert(w[k - lo] == v[k]);
    }
}

/// "Select all" selects exactly what is shown.
pub proof fn select_all_selects_what_is_shown(s: AppModel, env: EnvModel)
    ensures
        s.update(Message::SelectAll, env).list.selected == s.visible_ids(),
{
    table_steps(s, 0, SortKey::Name, env);
    reveal(AppModel::select_all);
}

/// Two plain clicks on a transferring row bring up its progress box exactly if
/// they come within four tenths of a second.
pub proof fn a_double_click_opens_the_row(
    s: AppModel,
    k: int,
    first: EnvModel,
    second: EnvModel,
)
    requires
        unique(s.items()),
        0 <= k < s.items().len(),
        on_the_wire(s.items()[k]),
        bare_hands(s),
        s.list.last_click is None,
        first.ms <= second.ms,
    ensures
        ({
            let id = s.items()[k].id;
            let t = s.update(Message::RowClick(id), first);
            let u = t.update(Message::RowClick(id), second);
            &&& second.ms - first.ms < 400 ==> u.out.len() > t.out.len()
            &&& second.ms - first.ms >= 400 ==> u.out == t.out
        }),
{
    let id = s.items()[k].id;
    table_steps(s, id, SortKey::Name, first);
    let t = s.update(Message::RowClick(id), first);
    reveal(AppModel::row_click);
    table_steps(t, id, SortKey::Name, second);
    lemma_at(s.items(), k);
    reveal(AppModel::open_window);
    reveal(AppModel::close_file_info_windows);
}

/// Sorting by the same column twice turns the order round and back; a new column
/// starts with its own order.
pub proof fn a_column_turns_round(s: AppModel, key: SortKey, env: EnvModel)
    ensures
        ({
            let t = s.update(Message::SortBy(key), env);
            let u = t.update(Message::SortBy(key), env);
            &&& t.list.sort.0 == key
            &&& s.list.sort.0 != key ==> t.list.sort.1
            &&& s.list.sort.0 == key ==> t.list.sort.1 != s.list.sort.1
            &&& u.list.sort.0 == key
            &&& u.list.sort.1 != t.list.sort.1
            &&& t.items() == s.items()
        }),
{
    table_steps(s, 0, key, env);
    let t = s.update(Message::SortBy(key), env);
    table_steps(t, 0, key, env);
    reveal(AppModel::sort_by);
}

} // verus!
