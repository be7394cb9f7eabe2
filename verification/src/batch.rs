//! The batch dialog's table: which of the pasted links it shows, with what, and
//! in which order.
use crate::assoc::{find_kept, kept};
use crate::engine::{file_name_from_url, parse_url, provisional_name, url_parts};
use crate::ext_info::{is_web_page, kind, kind_for_name, link_ext, web_page};
use crate::i18n::{translated, Catalogue, Texts};
use crate::order::{as_places, key_of_text, order, sort_keyed, text_key};
use crate::rules::{host_blocked, site_blocked};
use crate::state::{BatchSortKey, BatchState, BatchStateModel};
use crate::text::{
    same, split, split_text, to_lowercase, trim, trimmed, unicode_lowercase, views,
};
use crate::twin::Twin;
use vstd::prelude::*;

verus! {

/// One line of the table: name and size from the probe where it has answered,
/// destination from the Save To choice.
#[derive(Debug)]
pub struct BatchRow {
    /// Place of the link in the pasted list: what the row is, through filtering
    /// and sorting.
    pub idx: usize,
    pub url: String,
    pub name: String,
    pub kind: String,
    pub size: Option<u64>,
    pub save_to: String,
    pub blocked: bool,
    pub checked: bool,
}

/// The model of [`BatchRow`].
#[verifier::ext_equal]
pub struct BatchRowModel {
    pub idx: usize,
    pub url: Seq<char>,
    pub name: Seq<char>,
    pub kind: Seq<char>,
    pub size: Option<u64>,
    pub save_to: Seq<char>,
    pub blocked: bool,
    pub checked: bool,
}

impl View for BatchRow {
    type V = BatchRowModel;

    open spec fn view(&self) -> BatchRowModel {
        BatchRowModel {
            idx: self.idx,
            url: self.url@,
            name: self.name@,
            kind: self.kind@,
            size: self.size,
            save_to: self.save_to@,
            blocked: self.blocked,
            checked: self.checked,
        }
    }
}

impl DeepView for BatchRow {
    type V = BatchRowModel;

    open spec fn deep_view(&self) -> BatchRowModel {
        self@
    }
}

impl Twin for BatchRow {
    fn twin(&self) -> (r: Self) {
        BatchRow {
            idx: self.idx,
            url: self.url.clone(),
            name: self.name.clone(),
            kind: self.kind.clone(),
            size: self.size,
            save_to: self.save_to.clone(),
            blocked: self.blocked,
            checked: self.checked,
        }
    }
}

/// The name of the file behind a link: the probe's answer where there is one.
pub open spec fn link_name(st: BatchStateModel, url: Seq<char>) -> Seq<char> {
    match kept(st.names, url) {
        Some(n) => n,
        None => provisional_name(url),
    }
}

/// The File Type column of a link.
pub open spec fn link_kind(st: BatchStateModel, url: Seq<char>, t: Texts) -> Seq<char> {
    if kept(st.metalinks, url) is Some {
        translated(t, "Metalink mirror list"@)
    } else {
        kind(link_ext(link_name(st, url)), t)
    }
}

/// Whether an earlier link is the same.
pub open spec fn repeated(checks: Seq<(Seq<char>, bool)>, i: int) -> bool {
    exists|j: int| 0 <= j < i && (#[trigger] checks[j]).0 == checks[i].0
}

/// Whether the table shows a link: duplicates and web pages may be hidden.
pub open spec fn link_shown(st: BatchStateModel, i: int) -> bool {
    !(st.hide_dups && repeated(st.checks, i)) && !(st.hide_html && web_page(
        link_name(st, st.checks[i].0),
    ))
}

/// The row of a link.
pub open spec fn row_of(
    st: BatchStateModel,
    i: int,
    save_to: Seq<char>,
    blocked: bool,
    t: Texts,
) -> BatchRowModel {
    let url = st.checks[i].0;
    BatchRowModel {
        idx: i as usize,
        url,
        name: link_name(st, url),
        kind: link_kind(st, url, t),
        size: kept(st.sizes, url),
        save_to,
        blocked,
        checked: st.checks[i].1,
    }
}

/// The rows of the first `n` links, in the pasted order.
pub open spec fn pasted_rows(
    st: BatchStateModel,
    n: nat,
    save_to: Seq<Seq<char>>,
    blocked: Seq<bool>,
    t: Texts,
) -> Seq<BatchRowModel>
    decreases n,
{
    if n == 0 {
        seq![]
    } else {
        let r = pasted_rows(st, (n - 1) as nat, save_to, blocked, t);
        if link_shown(st, n - 1) {
            r.push(row_of(st, n - 1, save_to[n - 1], blocked[n - 1], t))
        } else {
            r
        }
    }
}

/// What a row is sorted by. Unknown sizes stay at the bottom whichever way the
/// column is sorted.
pub open spec fn batch_key(r: BatchRowModel, key: BatchSortKey, asc: bool) -> Seq<u64> {
    match key {
        BatchSortKey::Name => text_key(unicode_lowercase(r.name)),
        BatchSortKey::Kind => text_key(r.kind),
        BatchSortKey::Size => match r.size {
            Some(s) => seq![
                if asc {
                    0u64
                } else {
                    1
                },
                s,
            ],
            None => seq![
                if asc {
                    1u64
                } else {
                    0
                },
            ],
        },
        BatchSortKey::Source => text_key(r.url),
        BatchSortKey::Dest => text_key(r.save_to),
    }
}

/// Rows in the order of a column; ties keep the pasted order.
pub open spec fn sorted_rows(
    rows: Seq<BatchRowModel>,
    sort: Option<(BatchSortKey, bool)>,
) -> Seq<BatchRowModel> {
    match sort {
        Some((key, asc)) => {
            let keys = Seq::new(rows.len(), |i: int| batch_key(rows[i], key, asc));
            let o = order(keys, asc);
            Seq::new(o.len(), |i: int| rows[o[i]])
        },
        None => rows,
    }
}

/// The table as shown.
pub open spec fn table(
    st: BatchStateModel,
    save_to: Seq<Seq<char>>,
    blocked: Seq<bool>,
    t: Texts,
) -> Seq<BatchRowModel> {
    sorted_rows(pasted_rows(st, st.checks.len(), save_to, blocked, t), st.sort)
}

/// The name of the file behind a link of the list.
pub fn name_of_link(st: &BatchState, url: &str) -> (r: String)
    ensures
        r@ == link_name(st@, url@),
{
    match find_kept(&st.names, url) {
        Some(k) => st.names[k].1.clone(),
        None => file_name_from_url(url),
    }
}

fn is_repeated(st: &BatchState, i: usize) -> (r: bool)
    requires
        i < st.checks@.len(),
    ensures
        r == repeated(st@.checks, i as int),
{
    let ghost all = st@.checks;
    assert(all[i as int] == st.checks@[i as int].deep_view());
    let mut j: usize = 0;
    while j < i
        invariant
            j <= i < st.checks@.len(),
            all == st@.checks,
            all[i as int] == st.checks@[i as int].deep_view(),
            forall|k: int| 0 <= k < j ==> (#[trigger] all[k]).0 != all[i as int].0,
        decreases i - j,
    {
        assert(all[j as int] == st.checks@[j as int].deep_view());
        if same(&st.checks[j].0, &st.checks[i].0) {
            return true;
        }
        j += 1;
    }
    false
}

fn row_for(st: &BatchState, i: usize, save_to: &String, blocked: bool, lang: &Catalogue) -> (r: Option<
    BatchRow,
>)
    requires
        i < st.checks@.len(),
    ensures
        match r {
            Some(row) => link_shown(st@, i as int) && row@ == row_of(
                st@,
                i as int,
                save_to@,
                blocked,
                lang@,
            ),
            None => !link_shown(st@, i as int),
        },
{
    assert(st@.checks[i as int] == st.checks@[i as int].deep_view());
    if st.hide_dups && is_repeated(st, i) {
        return None;
    }
    let url = &st.checks[i].0;
    let name = name_of_link(st, url);
    if st.hide_html && is_web_page(&name) {
        return None;
    }
    let kind_text = if find_kept(&st.metalinks, url).is_some() {
        lang.tr("Metalink mirror list")
    } else {
        kind_for_name(&name, lang)
    };
    let size = match find_kept(&st.sizes, url) {
        Some(k) => Some(st.sizes[k].1),
        None => None,
    };
    Some(
        BatchRow {
            idx: i,
            url: url.clone(),
            name,
            kind: kind_text,
            size,
            save_to: save_to.clone(),
            blocked,
            checked: st.checks[i].1,
        },
    )
}

fn key_of_row(r: &BatchRow, key: BatchSortKey, asc: bool) -> (k: Vec<u64>)
    ensures
        k@ == batch_key(r@, key, asc),
{
    match key {
        BatchSortKey::Name => key_of_text(&to_lowercase(&r.name)),
        BatchSortKey::Kind => key_of_text(&r.kind),
        BatchSortKey::Size => {
            let mut k: Vec<u64> = Vec::new();
            match r.size {
                Some(s) => {
                    k.push(
                        if asc {
                            0
                        } else {
                            1
                        },
                    );
                    k.push(s);
                },
                None => {
                    k.push(
                        if asc {
                            1
                        } else {
                            0
                        },
                    );
                },
            }
            assert(k@ =~= batch_key(r@, key, asc));
            k
        },
        BatchSortKey::Source => key_of_text(&r.url),
        BatchSortKey::Dest => key_of_text(&r.save_to),
    }
}

fn sort_rows(rows: Vec<BatchRow>, key: BatchSortKey, asc: bool) -> (r: Vec<BatchRow>)
    ensures
        r.deep_view() == sorted_rows(rows.deep_view(), Some((key, asc))),
{
    let ghost all = rows.deep_view();
    let mut keys: Vec<Vec<u64>> = Vec::new();
    let mut i: usize = 0;
    while i < rows.len()
        invariant
            i <= rows@.len(),
            all == rows.deep_view(),
            keys@.len() == i,
            forall|k: int|
                0 <= k < i ==> (#[trigger] keys@[k])@ == batch_key(all[k], key, asc),
        decreases rows.len() - i,
    {
        assert(all[i as int] == rows@[i as int]@);
        keys.push(key_of_row(&rows[i], key, asc));
        i += 1;
    }
    let ghost ks = Seq::new(all.len(), |i: int| batch_key(all[i], key, asc));
    proof {
        assert(keys.deep_view() =~= ks) by {
            assert forall|k: int| 0 <= k < ks.len() implies keys.deep_view()[k] == ks[k] by {
                assert(keys@[k].deep_view() =~= keys@[k]@);
            }
        }
    }
    let o = sort_keyed(&keys, asc);
    let ghost so = order(ks, asc);
    let mut r: Vec<BatchRow> = Vec::new();
    let mut k: usize = 0;
    while k < o.len()
        invariant
            k <= o@.len(),
            o@.len() == rows@.len(),
            all == rows.deep_view(),
            as_places(o@) == so,
            forall|j: int| 0 <= j < o@.len() ==> #[trigger] o@[j] < rows@.len(),
            r@.len() == k,
            forall|j: int| 0 <= j < k ==> (#[trigger] r@[j])@ == all[so[j]],
        decreases o.len() - k,
    {
        assert(so[k as int] == o@[k as int] as int);
        assert(all[o@[k as int] as int] == rows@[o@[k as int] as int]@);
        r.push(rows[o[k]].twin());
        k += 1;
    }
    assert(r.deep_view() =~= Seq::new(so.len(), |i: int| all[so[i]]));
    r
}

/// The batch table as shown: hidden duplicates and web pages left out, then
/// ordered by the chosen column. For each link, `save_to` holds the folder its
/// file would land in and `blocked` whether its host is on the "don't start
/// automatically" list.
pub fn batch_rows(
    st: &BatchState,
    save_to: &Vec<String>,
    blocked: &Vec<bool>,
    lang: &Catalogue,
) -> (r: Vec<BatchRow>)
    requires
        save_to@.len() == st.checks@.len(),
        blocked@.len() == st.checks@.len(),
    ensures
        r.deep_view() == table(st@, views(save_to@), blocked@, lang@),
{
    let ghost dirs = views(save_to@);
    let mut rows: Vec<BatchRow> = Vec::new();
    let mut i: usize = 0;
    assert(rows.deep_view() =~= seq![]);
    while i < st.checks.len()
        invariant
            i <= st.checks@.len(),
            save_to@.len() == st.checks@.len(),
            blocked@.len() == st.checks@.len(),
            dirs == views(save_to@),
            rows.deep_view() == pasted_rows(st@, i as nat, dirs, blocked@, lang@),
        decreases st.checks.len() - i,
    {
        assert(dirs[i as int] == save_to@[i as int]@);
        if let Some(row) = row_for(st, i, &save_to[i], blocked[i], lang) {
            let ghost before = rows.deep_view();
            rows.push(row);
            assert(rows.deep_view() =~= before.push(row@));
        }
        i += 1;
    }
    assert(st@.checks.len() == st.checks@.len());
    match st.sort {
        Some((key, asc)) => sort_rows(rows, key, asc),
        None => rows,
    }
}

// --------------------------------------------------------------------- parsing

/// The tick of the first entry for `url`.
pub open spec fn tick_of(checks: Seq<(Seq<char>, bool)>, url: Seq<char>) -> Option<bool>
    decreases checks.len(),
{
    if checks.len() == 0 {
        None
    } else if checks[0].0 == url {
        Some(checks[0].1)
    } else {
        tick_of(checks.drop_first(), url)
    }
}

/// The links among lines of text, each with its tick: as before for a link that
/// was there already, else off for a host on the sites list.
pub open spec fn links_of(
    lines: Seq<Seq<char>>,
    before: Seq<(Seq<char>, bool)>,
    sites: Seq<char>,
) -> Seq<(Seq<char>, bool)>
    decreases lines.len(),
{
    if lines.len() == 0 {
        seq![]
    } else {
        let r = links_of(lines.drop_last(), before, sites);
        let l = trimmed(lines.last());
        if l.len() > 0 && url_parts(l) is Ok {
            r.push(
                (
                    l,
                    match tick_of(before, l) {
                        Some(b) => b,
                        None => !host_blocked(l, sites),
                    },
                ),
            )
        } else {
            r
        }
    }
}

fn find_tick(checks: &Vec<(String, bool)>, url: &str) -> (r: Option<bool>)
    ensures
        r == tick_of(checks.deep_view(), url@),
{
    let ghost all = checks.deep_view();
    let mut i: usize = 0;
    assert(all.skip(0) =~= all);
    while i < checks.len()
        invariant
            i <= checks@.len(),
            all == checks.deep_view(),
            tick_of(all, url@) == tick_of(all.skip(i as int), url@),
        decreases checks.len() - i,
    {
        assert(all.skip(i as int)[0] == checks@[i as int].deep_view());
        if same(&checks[i].0, url) {
            return Some(checks[i].1);
        }
        assert(all.skip(i as int).drop_first() =~= all.skip(i + 1));
        i += 1;
    }
    None
}

/// The links of a pasted text, one to a line.
pub fn parse_links(text: &str, before: &Vec<(String, bool)>, sites: &str) -> (r: Vec<(String, bool)>)
    ensures
        r.deep_view() == links_of(split(text@, '\n'), before.deep_view(), sites@),
{
    let lines = split_text(text, '\n');
    let ghost all = views(lines@);
    let mut r: Vec<(String, bool)> = Vec::new();
    let mut i: usize = 0;
    assert(all.take(0) =~= seq![]);
    assert(r.deep_view() =~= seq![]);
    while i < lines.len()
        invariant
            i <= lines@.len(),
            all == views(lines@),
            r.deep_view() == links_of(all.take(i as int), before.deep_view(), sites@),
        decreases lines.len() - i,
    {
        proof {
            assert(all.take(i + 1).drop_last() =~= all.take(i as int));
            assert(all.take(i + 1).last() == lines@[i as int]@);
        }
        let l = trim(&lines[i]);
        if !l.as_str().is_empty() && parse_url(&l).is_ok() {
            let tick = match find_tick(before, &l) {
                Some(b) => b,
                None => !site_blocked(&l, sites),
            };
            let ghost old_rows = r.deep_view();
            r.push((l, tick));
            assert(r.deep_view() =~= old_rows.push((l@, tick)));
        }
        i += 1;
    }
    assert(all.take(i as int) =~= all);
    r
}

// ---------------------------------------------------------------------- laws

proof fn lemma_pasted_distinct(
    st: BatchStateModel,
    n: nat,
    save_to: Seq<Seq<char>>,
    blocked: Seq<bool>,
    t: Texts,
)
    requires
        st.hide_dups,
        n <= st.checks.len(),
    ensures
        forall|k: int|
            0 <= k < pasted_rows(st, n, save_to, blocked, t).len() ==> exists|j: int|
                0 <= j < n && (#[trigger] pasted_rows(st, n, save_to, blocked, t)[k]).url
                    == st.checks[j].0,
        forall|a: int, b: int|
            0 <= a < b < pasted_rows(st, n, save_to, blocked, t).len() ==> (
            #[trigger] pasted_rows(st, n, save_to, blocked, t)[a]).url != (
            #[trigger] pasted_rows(st, n, save_to, blocked, t)[b]).url,
    decreases n,
{
    if n > 0 {
        let m = (n - 1) as nat;
        lemma_pasted_distinct(st, m, save_to, blocked, t);
        let r = pasted_rows(st, m, save_to, blocked, t);
        let w = pasted_rows(st, n, save_to, blocked, t);
        assert forall|k: int| 0 <= k < w.len() implies exists|j: int|
            0 <= j < n && (#[trigger] w[k]).url == st.checks[j].0 by {
            if k < r.len() {
                assert(w[k] == r[k]);
                let j = choose|j: int| 0 <= j < m && r[k].url == st.checks[j].0;
                assert(w[k].url == st.checks[j].0);
            } else {
                assert(w[k].url == st.checks[n - 1].0);
            }
        }
        assert forall|a: int, b: int| 0 <= a < b < w.len() implies (#[trigger] w[a]).url != (
        #[trigger] w[b]).url by {
            if b < r.len() {
                assert(w[a] == r[a] && w[b] == r[b]);
            } else {
                assert(w[a] == r[a]);
                let j = choose|j: int| 0 <= j < m && r[a].url == st.checks[j].0;
                if w[a].url == w[b].url {
                    assert(st.checks[j].0 == st.checks[n - 1].0);
                    assert(repeated(st.checks, n - 1));
                }
            }
        }
    }
}

/// With duplicates hidden, no address is shown twice, and so none is added
/// twice.
pub proof fn hidden_duplicates_show_each_address_once(
    st: BatchStateModel,
    save_to: Seq<Seq<char>>,
    blocked: Seq<bool>,
    t: Texts,
    a: int,
    b: int,
)
    requires
        st.hide_dups,
        0 <= a < b < pasted_rows(st, st.checks.len(), save_to, blocked, t).len(),
    ensures
        pasted_rows(st, st.checks.len(), save_to, blocked, t)[a].url != pasted_rows(
            st,
            st.checks.len(),
            save_to,
            blocked,
            t,
        )[b].url,
{
    lemma_pasted_distinct(st, st.checks.len(), save_to, blocked, t);
}

/// Sorting by size never puts a file of unknown size above one that has been
/// measured, in either direction.
pub proof fn unknown_sizes_stay_last(
    rows: Seq<BatchRowModel>,
    asc: bool,
    a: int,
    b: int,
)
    requires
        0 <= a < b < sorted_rows(rows, Some((BatchSortKey::Size, asc))).len(),
        sorted_rows(rows, Some((BatchSortKey::Size, asc)))[a].size is None,
    ensures
        sorted_rows(rows, Some((BatchSortKey::Size, asc)))[b].size is None,
{
    let keys = Seq::new(rows.len(), |i: int| batch_key(rows[i], BatchSortKey::Size, asc));
    let o = order(keys, asc);
    crate::order::sorting_is_a_stable_permutation(keys, asc);
    crate::order::order_is_in_range(keys, asc, a);
    crate::order::order_is_in_range(keys, asc, b);
    let x = keys[o[a]];
    let y = keys[o[b]];
    assert(!crate::order::goes_first(y, x, asc));
    if rows[o[b]].size is Some {
        assert(x[0] != y[0]);
    }
}

} // verus!
