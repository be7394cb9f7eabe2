//! Lists pasted and mirrored: what the batch dialog shows and ticks, and what a
//! mirror list adds.
use crate::app::batch::{has_url, tick_one, ticked};
use crate::app::file_info::or_text;
use crate::app::AppModel;
use crate::batch::{link_name, pasted_rows, BatchRowModel};
use crate::edits::{to_filed, to_metalink};
use crate::engine::MetalinkFileModel;
use crate::ext_info::web_page;
use crate::i18n::Texts;
use crate::laws::adding::{lemma_added, lemma_last, numbered};
use crate::laws::filing::adding_adds_one_row_at_rest;
use crate::state::BatchStateModel;
use vstd::prelude::*;

verus! {

/// A row of the table stands for the link at this place.
pub open spec fn shows_link(rows: Seq<BatchRowModel>, i: int) -> bool {
    exists|r: int| 0 <= r < rows.len() && (#[trigger] rows[r]).idx as int == i
}

/// An earlier link has the same address.
pub open spec fn seen_before(st: BatchStateModel, i: int) -> bool {
    exists|j: int| 0 <= j < i && (#[trigger] st.checks[j]).0 == st.checks[i].0
}

/// The table of pasted links leaves out a link only as a repeated one, where
/// those are hidden, or as a web page, where those are.
pub proof fn the_table_hides_only_what_it_should(
    st: BatchStateModel,
    n: nat,
    save_to: Seq<Seq<char>>,
    blocked: Seq<bool>,
    t: Texts,
    i: int,
)
    requires
        n <= st.checks.len() <= usize::MAX,
        0 <= i < n,
    ensures
        shows_link(pasted_rows(st, n, save_to, blocked, t), i) <==> !(st.hide_dups && seen_before(
            st,
            i,
        )) && !(st.hide_html && web_page(link_name(st, st.checks[i].0))),
        forall|r: int|
            0 <= r < pasted_rows(st, n, save_to, blocked, t).len() ==> (#[trigger] pasted_rows(
                st,
                n,
                save_to,
                blocked,
                t,
            )[r]).idx < n,
    decreases n,
{
    let m = (n - 1) as nat;
    let rows = pasted_rows(st, n, save_to, blocked, t);
    let r0 = pasted_rows(st, m, save_to, blocked, t);
    lemma_places_below(st, m, save_to, blocked, t);
    lemma_places_below(st, n, save_to, blocked, t);
    if i < m {
        the_table_hides_only_what_it_should(st, m, save_to, blocked, t, i);
        if shows_link(r0, i) {
            let r = choose|r: int| 0 <= r < r0.len() && (#[trigger] r0[r]).idx as int == i;
            assert(rows[r].idx as int == i);
        }
        if shows_link(rows, i) {
            let r = choose|r: int| 0 <= r < rows.len() && (#[trigger] rows[r]).idx as int == i;
            if r < r0.len() {
                assert(r0[r].idx as int == i);
            }
        }
    } else {
        if rows.len() > r0.len() {
            assert(rows[r0.len() as int].idx as int == i);
        }
        if shows_link(rows, i) {
            let r = choose|r: int| 0 <= r < rows.len() && (#[trigger] rows[r]).idx as int == i;
            if r < r0.len() {
                assert(r0[r].idx < m);
            }
        }
    }
}

proof fn lemma_places_below(
    st: BatchStateModel,
    n: nat,
    save_to: Seq<Seq<char>>,
    blocked: Seq<bool>,
    t: Texts,
)
    requires
        n <= st.checks.len() <= usize::MAX,
    ensures
        forall|r: int|
            0 <= r < pasted_rows(st, n, save_to, blocked, t).len() ==> (#[trigger] pasted_rows(
                st,
                n,
                save_to,
                blocked,
                t,
            )[r]).idx < n,
    decreases n,
{
    if n > 0 {
        let m = (n - 1) as nat;
        lemma_places_below(st, m, save_to, blocked, t);
        let rows = pasted_rows(st, n, save_to, blocked, t);
        let r0 = pasted_rows(st, m, save_to, blocked, t);
        assert forall|r: int| 0 <= r < rows.len() implies (#[trigger] rows[r]).idx < n by {
            if r < r0.len() {
                assert(rows[r] == r0[r]);
            }
        }
    }
}

/// "Check all" gives every link that the table shows the tick, and leaves that of
/// every link that it hides.
pub proof fn check_all_ticks_what_is_shown(
    checks: Seq<(Seq<char>, bool)>,
    rows: Seq<BatchRowModel>,
    b: bool,
    i: int,
)
    requires
        0 <= i < checks.len(),
    ensures
        ticked(checks, rows, b).len() == checks.len(),
        ticked(checks, rows, b)[i].0 == checks[i].0,
        shows_link(rows, i) ==> ticked(checks, rows, b)[i].1 == b,
        !shows_link(rows, i) ==> ticked(checks, rows, b)[i].1 == checks[i].1,
    decreases rows.len(),
{
    if rows.len() > 0 {
        let u = rows.drop_last();
        check_all_ticks_what_is_shown(checks, u, b, i);
        let k = rows.last().idx as int;
        if shows_link(u, i) {
            let r = choose|r: int| 0 <= r < u.len() && (#[trigger] u[r]).idx as int == i;
            assert(rows[r].idx as int == i);
        }
        if shows_link(rows, i) {
            let r = choose|r: int| 0 <= r < rows.len() && (#[trigger] rows[r]).idx as int == i;
            if r < u.len() {
                assert(u[r].idx as int == i);
            }
        }
        assert(rows[rows.len() - 1].idx as int == k);
    }
}

/// A tick of one link leaves the others alone.
pub proof fn a_tick_is_of_one_link(checks: Seq<(Seq<char>, bool)>, k: int, b: bool, i: int)
    requires
        0 <= k < checks.len(),
        0 <= i < checks.len(),
    ensures
        tick_one(checks, k, b).len() == checks.len(),
        tick_one(checks, k, b)[i] == (if i == k {
            (checks[i].0, b)
        } else {
            checks[i]
        }),
{
}

/// A file of a mirror list becomes one row, with its name, its size and what the
/// list attests of it; a file whose address is in the list already becomes none.
pub proof fn a_listed_file_is_added_once(
    s: AppModel,
    f: MetalinkFileModel,
    auth: Option<(Seq<char>, Seq<char>)>,
    now: i64,
)
    requires
        numbered(s),
    ensures
        ({
            let t = s.add_listed_file(f, auth, now);
            let d = t.items().last();
            &&& (exists|i: int| 0 <= i < s.items().len() && (#[trigger] s.items()[i]).url == f.primary)
                ==> t == s
            &&& (forall|i: int| 0 <= i < s.items().len() ==> (#[trigger] s.items()[i]).url != f.primary)
                ==> {
                &&& t.items().len() == s.items().len() + 1
                &&& t.items().drop_last() == s.items()
                &&& d.id == s.state.next_id
                &&& d.url == f.primary
                &&& d.file_name == f.name
                &&& d.name_locked
                &&& d.size == f.info.size
                &&& d.metalink == Some(f.info)
            }
        }),
{
    reveal(AppModel::add_listed_file);
    if !has_url(s.items(), f.primary) {
        let a = s.add_item(f.primary, auth, None, now);
        adding_adds_one_row_at_rest(s, f.primary, auth, None, now);
        lemma_added(s, f.primary, auth, None, now);
        let cat = a.category(f.name);
        let g = to_filed(f.name, cat, or_text(a.cat_dir_or(cat), seq![]));
        lemma_last(a, g);
        let b = a.edit_item(s.state.next_id, g);
        lemma_last(b, to_metalink(f.name, f.info));
        let t = s.add_listed_file(f, auth, now);
        assert(t.items().drop_last() =~= s.items());
    }
}

} // verus!
