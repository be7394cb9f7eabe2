//! Addresses typed, pasted and captured: what becomes a row, and what does not.
use crate::app::add_url::row_with_url;
use crate::app::batch::{ticked_urls, BatchOrderModel};
use crate::app::update::Message;
use crate::app::{AppModel, EnvModel};
use crate::batch::{links_of, tick_of, BatchRowModel};
use crate::downloads::Items;
use crate::edits::{to_category, to_dir, to_name, to_state, to_stream, Change};
use crate::effect::EffectModel;
use crate::engine::{url_parts, CmdModel};
use crate::laws::filing::adding_adds_one_row_at_rest;
use crate::laws::rows::{asks, lemma_at, lemma_edit, unique};
use crate::laws::steps::{adding_steps, clipboard_step};
use crate::model::DlState;
use crate::rules::host_blocked;
use crate::state::ConfirmKindModel;
use crate::text::trimmed;
use vstd::prelude::*;

verus! {

/// The next number is beyond those of all rows, which are their own.
pub open spec fn numbered(s: AppModel) -> bool {
    &&& unique(s.items())
    &&& forall|i: int| 0 <= i < s.items().len() ==> (#[trigger] s.items()[i]).id < s.state.next_id
}

/// A transfer was started.
pub open spec fn starts_something(s: AppModel, t: AppModel) -> bool {
    exists|i: int|
        s.out.len() <= i < t.out.len() && (#[trigger] t.out[i] matches EffectModel::Engine(
            CmdModel::Start(_),
        ) || t.out[i] matches EffectModel::Engine(CmdModel::StartStream(_)))
}

/// The first row of an address.
proof fn lemma_first_row(v: Items, url: Seq<char>, k: int)
    requires
        0 <= k < v.len(),
        v[k].url == url,
        forall|i: int| 0 <= i < k ==> (#[trigger] v[i]).url != url,
    ensures
        row_with_url(v, url) == Some(v[k].id),
    decreases v.len(),
{
    if k > 0 {
        assert(v[0].url != url);
        let t = v.drop_first();
        assert forall|i: int| 0 <= i < k - 1 implies (#[trigger] t[i]).url != url by {
            assert(t[i] == v[i + 1]);
        }
        assert(t[k - 1] == v[k]);
        lemma_first_row(t, url, k - 1);
    }
}

proof fn lemma_no_row(v: Items, url: Seq<char>)
    requires
        forall|i: int| 0 <= i < v.len() ==> (#[trigger] v[i]).url != url,
    ensures
        row_with_url(v, url) is None,
    decreases v.len(),
{
    if v.len() > 0 {
        assert(v[0].url != url);
        let t = v.drop_first();
        assert forall|i: int| 0 <= i < t.len() implies (#[trigger] t[i]).url != url by {
            assert(t[i] == v[i + 1]);
        }
        lemma_no_row(t, url);
    }
}

/// The dialog holds an address that can be fetched, and no mirror list.
pub open spec fn plain_address(s: AppModel, url: Seq<char>) -> bool {
    &&& trimmed(s.add_url.address) == url
    &&& url_parts(url) is Ok
    &&& s.add_url.metalink is None
}

/// An address that is in the list already is not added again: the user is asked,
/// and told of the first row that has it. Nothing is started.
pub proof fn a_known_address_is_not_added_again(s: AppModel, k: int, env: EnvModel)
    requires
        0 <= k < s.items().len(),
        plain_address(s, s.items()[k].url),
        forall|i: int| 0 <= i < k ==> (#[trigger] s.items()[i]).url != s.items()[k].url,
    ensures
        ({
            let t = s.update(Message::AddUrlOk, env);
            &&& t.items() == s.items()
            &&& !starts_something(s, t)
            &&& t.confirm matches Some(ConfirmKindModel::Duplicate { existing, .. }) && existing
                == Some(s.items()[k].id)
            &&& t.pending_add matches Some(p) && p.url == s.items()[k].url
        }),
{
    adding_steps(s, env);
    reveal(AppModel::add_url_ok);
    reveal(AppModel::add_address);
    reveal(AppModel::open_window);
    reveal(AppModel::close_window);
    reveal(AppModel::close_file_info_windows);
    lemma_first_row(s.items(), s.items()[k].url, k);
}

/// What cannot be fetched is refused with a reason: no row, no question.
pub proof fn a_malformed_address_is_refused(s: AppModel, env: EnvModel)
    requires
        url_parts(trimmed(s.add_url.address)) is Err,
        s.add_url.metalink is None,
    ensures
        ({
            let t = s.update(Message::AddUrlOk, env);
            &&& t.items() == s.items()
            &&& t.confirm == s.confirm
            &&& t.pending_add == s.pending_add
            &&& t.add_url.error is Some
            &&& t.add_url.address == s.add_url.address
            &&& !starts_something(s, t)
        }),
{
    adding_steps(s, env);
    reveal(AppModel::add_url_ok);
}

/// A row that a number of changes by that number touch.
pub proof fn lemma_last(s: AppModel, f: Change)
    requires
        s.items().len() > 0,
        unique(s.items()),
        f(s.items().last()).id == s.items().last().id,
    ensures
        ({
            let t = s.edit_item(s.items().last().id, f);
            &&& t.items() == s.items().drop_last().push(f(s.items().last()))
            &&& unique(t.items())
            &&& t.items().last().id == s.items().last().id
        }),
{
    let k = s.items().len() - 1;
    lemma_at(s.items(), k);
    lemma_edit(s.items(), k, f);
    let t = s.edit_item(s.items().last().id, f);
    assert(t.items() =~= s.items().drop_last().push(f(s.items().last())));
}

pub proof fn lemma_added(
    s: AppModel,
    url: Seq<char>,
    auth: Option<(Seq<char>, Seq<char>)>,
    queue: Option<Seq<char>>,
    now: i64,
)
    requires
        numbered(s),
    ensures
        ({
            let t = s.add_item(url, auth, queue, now);
            &&& unique(t.items())
            &&& t.items().len() == s.items().len() + 1
            &&& t.items().drop_last() == s.items()
            &&& t.items().last().id == s.state.next_id
        }),
{
    adding_adds_one_row_at_rest(s, url, auth, queue, now);
    let t = s.add_item(url, auth, queue, now);
    assert(t.items().drop_last() =~= s.items());
    assert forall|i: int, j: int| 0 <= i < j < t.items().len() implies (#[trigger] t.items()[i]).id
        != (#[trigger] t.items()[j]).id by {
        assert(t.items()[i] == s.items()[i]);
        if j < s.items().len() {
            assert(t.items()[j] == s.items()[j]);
        }
    }
}

/// An address that is new becomes exactly one row. With the dialog about new
/// files switched off, a row of a site on the sites list is left at rest; the
/// earlier rows stay as they are.
pub proof fn a_new_address_becomes_one_row(s: AppModel, url: Seq<char>, env: EnvModel)
    requires
        numbered(s),
        plain_address(s, url),
        s.add_url.stream is None,
        s.add_url.capture_cookies is None,
        s.add_url.capture_name is None,
        s.add_url.capture_referer is None,
        !s.cfg.settings.on.show_file_info_dialog,
        forall|i: int| 0 <= i < s.items().len() ==> (#[trigger] s.items()[i]).url != url,
        forall|p: Seq<char>| !#[trigger] env.disk.entries.contains_key(p),
        host_blocked(url, s.cfg.settings.dont_start_sites),
    ensures
        ({
            let t = s.update(Message::AddUrlOk, env);
            &&& t.items().len() == s.items().len() + 1
            &&& t.items().drop_last() == s.items()
            &&& t.items().last().url == url
            &&& t.items().last().state == DlState::Paused
            &&& s.add_url.use_auth ==> t.items().last().auth == Some(
                (s.add_url.login, s.add_url.password),
            )
            &&& !s.add_url.use_auth ==> t.items().last().auth is None
            &&& !starts_something(s, t)
        }),
{
    adding_steps(s, env);
    reveal(AppModel::add_url_ok);
    reveal(AppModel::add_address);
    reveal(AppModel::add_from_dialog);
    reveal(AppModel::apply_capture_extras);
    reveal(AppModel::file_stream);
    reveal(AppModel::row_blocked);
    reveal(AppModel::close_window);
    lemma_no_row(s.items(), url);
    let a = s.add_url;
    adding_adds_one_row_at_rest(s, url, a.auth(), None, env.now);
    lemma_added(s, url, a.auth(), None, env.now);
    let t = s.add_item(url, a.auth(), None, env.now);
    lemma_at(t.items(), t.items().len() - 1);
    assert(s.add_collision(url, env) is None);
    let u = s.add_from_dialog(url, env.now);
    assert(u.items() == t.items());
    assert(u.row_blocked(s.state.next_id));
    assert(s.add_url_ok(env) == u);
}

// ------------------------------------------------------------------- batches

/// Of pasted lines each that can be fetched is a link, in the pasted order, and
/// nothing else is. A link that was there before keeps its tick; a new one is
/// ticked unless its site is on the sites list.
pub proof fn pasted_lines_become_links(
    lines: Seq<Seq<char>>,
    before: Seq<(Seq<char>, bool)>,
    sites: Seq<char>,
    i: int,
)
    requires
        0 <= i < lines.len(),
    ensures
        ({
            let l = trimmed(lines[i]);
            let v = links_of(lines, before, sites);
            let w = links_of(lines.take(i), before, sites);
            &&& v.len() <= lines.len()
            &&& l.len() > 0 && url_parts(l) is Ok ==> {
                &&& w.len() < v.len()
                &&& v[w.len() as int].0 == l
                &&& (forall|m: int| 0 <= m < before.len() ==> (#[trigger] before[m]).0 != l)
                    ==> v[w.len() as int].1 == !host_blocked(l, sites)
                &&& forall|m: int|
                    0 <= m < before.len() && (#[trigger] before[m]).0 == l && (forall|n: int|
                        0 <= n < m ==> (#[trigger] before[n]).0 != l) ==> v[w.len() as int].1
                        == before[m].1
            }
        }),
    decreases lines.len(),
{
    let u = lines.drop_last();
    let l = trimmed(lines[i]);
    let v = links_of(lines, before, sites);
    let r = links_of(u, before, sites);
    let w = links_of(lines.take(i), before, sites);
    if i < u.len() {
        pasted_lines_become_links(u, before, sites, i);
        assert(u.take(i) =~= lines.take(i));
        assert(u[i] == lines[i]);
        if w.len() < r.len() {
            assert(v[w.len() as int] == r[w.len() as int]);
        }
    } else {
        assert(lines.take(i) =~= u);
        lemma_links_len(u, before, sites);
        lemma_tick(before, l);
    }
}

proof fn lemma_links_len(lines: Seq<Seq<char>>, before: Seq<(Seq<char>, bool)>, sites: Seq<char>)
    ensures
        links_of(lines, before, sites).len() <= lines.len(),
    decreases lines.len(),
{
    if lines.len() > 0 {
        lemma_links_len(lines.drop_last(), before, sites);
    }
}

proof fn lemma_tick(v: Seq<(Seq<char>, bool)>, url: Seq<char>)
    ensures
        (forall|m: int| 0 <= m < v.len() ==> (#[trigger] v[m]).0 != url) ==> tick_of(v, url) is None,
        forall|m: int|
            0 <= m < v.len() && (#[trigger] v[m]).0 == url && (forall|n: int|
                0 <= n < m ==> (#[trigger] v[n]).0 != url) ==> tick_of(v, url) == Some(v[m].1),
    decreases v.len(),
{
    if v.len() > 0 && v[0].0 != url {
        let t = v.drop_first();
        lemma_tick(t, url);
        if forall|m: int| 0 <= m < v.len() ==> (#[trigger] v[m]).0 != url {
            assert forall|m: int| 0 <= m < t.len() implies (#[trigger] t[m]).0 != url by {
                assert(t[m] == v[m + 1]);
            }
        }
        assert forall|m: int|
            0 <= m < v.len() && (#[trigger] v[m]).0 == url && (forall|n: int|
                0 <= n < m ==> (#[trigger] v[n]).0 != url) implies tick_of(v, url) == Some(
            v[m].1,
        ) by {
            assert(t[m - 1] == v[m]);
            assert forall|n: int| 0 <= n < m - 1 implies (#[trigger] t[n]).0 != url by {
                assert(t[n] == v[n + 1]);
            }
        }
    } else if v.len() > 0 {
        assert forall|m: int|
            0 <= m < v.len() && (#[trigger] v[m]).0 == url && (forall|n: int|
                0 <= n < m ==> (#[trigger] v[n]).0 != url) implies tick_of(v, url) == Some(
            v[m].1,
        ) by {
            if m > 0 {
                assert(v[0].0 != url);
            }
        }
    }
}

/// The ticked rows of the table, and no others, are what OK adds.
pub proof fn only_ticked_rows_are_added(rows: Seq<BatchRowModel>, url: Seq<char>)
    ensures
        ticked_urls(rows).contains(url) <==> exists|i: int|
            0 <= i < rows.len() && (#[trigger] rows[i]).checked && rows[i].url == url,
        ticked_urls(rows).len() <= rows.len(),
    decreases rows.len(),
{
    if rows.len() > 0 {
        let u = rows.drop_last();
        only_ticked_rows_are_added(u, url);
        let v = ticked_urls(rows);
        let r = ticked_urls(u);
        if v.contains(url) {
            let m = choose|m: int| 0 <= m < v.len() && v[m] == url;
            if m < r.len() {
                assert(r[m] == url);
                let i = choose|i: int|
                    0 <= i < u.len() && (#[trigger] u[i]).checked && u[i].url == url;
                assert(rows[i].checked && rows[i].url == url);
            } else {
                assert(rows[rows.len() - 1].checked);
            }
        }
        if exists|i: int|
            0 <= i < rows.len() && (#[trigger] rows[i]).checked && rows[i].url == url {
            let i = choose|i: int|
                0 <= i < rows.len() && (#[trigger] rows[i]).checked && rows[i].url == url;
            if i < u.len() {
                assert(u[i].checked && u[i].url == url);
                let m = choose|m: int| 0 <= m < r.len() && r[m] == url;
                assert(v[m] == url);
            } else {
                assert(v[r.len() as int] == url);
            }
        }
    }
}

/// A link of a batch becomes one row, which waits in the queue, in the folder and
/// under the category that the dialog asks for.
pub proof fn a_batch_link_waits_where_it_was_put(
    s: AppModel,
    url: Seq<char>,
    name: Option<Seq<char>>,
    queue: Seq<char>,
    w: BatchOrderModel,
    now: i64,
)
    requires
        numbered(s),
    ensures
        ({
            let t = s.add_batch_link(url, name, queue, w, now);
            let d = t.items().last();
            &&& t.items().len() == s.items().len() + 1
            &&& t.items().drop_last() == s.items()
            &&& d.id == s.state.next_id
            &&& d.url == url
            &&& d.state == DlState::Queued
            &&& d.queue == Some(queue)
            &&& w.dir matches Some(p) ==> d.save_dir == p
            &&& w.category is Some ==> d.category == w.category
            &&& t.out == s.out
        }),
{
    reveal(AppModel::add_batch_link);
    let id = s.state.next_id;
    adding_adds_one_row_at_rest(s, url, None, Some(queue), now);
    lemma_added(s, url, None, Some(queue), now);
    let a = s.add_item(url, None, Some(queue), now);
    let stream = if crate::names::names_manifest(url) {
        Some(crate::app::batch::batch_stream(url, w))
    } else {
        None
    };
    if let Some(si) = stream {
        lemma_last(a, to_stream(si));
    }
    let b = a.mark_stream(id, stream);
    assert(b.items().drop_last() =~= s.items());
    let n = if stream is Some {
        Some(crate::app::batch::stream_file(url, w.ts))
    } else {
        name
    };
    lemma_named(b, n);
    let c = b.name_row(id, n);
    assert(c.items().drop_last() =~= s.items());
    lemma_overridden(c, w.category);
    let d = c.override_category(id, w.category);
    assert(d.items().drop_last() =~= s.items());
    if let Some(p) = w.dir {
        lemma_last(d, to_dir(p));
    }
    let e = d.move_to(id, w.dir);
    assert(e.items().drop_last() =~= s.items());
    lemma_last(e, to_state(DlState::Queued));
    let t = s.add_batch_link(url, name, queue, w, now);
    assert(t.items().drop_last() =~= s.items());
}

/// What naming and filing a new row leave of it.
pub open spec fn same_row(s: AppModel, t: AppModel) -> bool {
    &&& unique(t.items())
    &&& t.items().len() == s.items().len()
    &&& t.items().drop_last() == s.items().drop_last()
    &&& t.items().last().id == s.items().last().id
    &&& t.items().last().url == s.items().last().url
    &&& t.items().last().queue == s.items().last().queue
    &&& t.items().last().state == s.items().last().state
    &&& t.out == s.out
    &&& t.cfg == s.cfg
}

proof fn lemma_named(s: AppModel, name: Option<Seq<char>>)
    requires
        unique(s.items()),
        s.items().len() > 0,
    ensures
        same_row(s, s.name_row(s.items().last().id, name)),
{
    let id = s.items().last().id;
    let t = s.name_row(id, name);
    match name {
        Some(n) if n.len() > 0 => {
            let cat = s.category(n);
            lemma_last(s, to_name(n));
            let a = s.edit_item(id, to_name(n));
            lemma_last(a, to_category(cat));
            let b = if cat is Some {
                a.edit_item(id, to_category(cat))
            } else {
                a
            };
            if let Some(p) = s.cat_dir(cat) {
                lemma_last(b, to_dir(p));
            }
            assert(t.items().drop_last() =~= s.items().drop_last());
        },
        _ => {},
    }
}

proof fn lemma_overridden(s: AppModel, cat: Option<Seq<char>>)
    requires
        unique(s.items()),
        s.items().len() > 0,
    ensures
        same_row(s, s.override_category(s.items().last().id, cat)),
        cat is Some ==> s.override_category(s.items().last().id, cat).items().last().category == cat,
{
    let id = s.items().last().id;
    let t = s.override_category(id, cat);
    if let Some(c) = cat {
        lemma_last(s, to_category(cat));
        let a = s.edit_item(id, to_category(cat));
        if let Some(p) = s.cat_dir(cat) {
            lemma_last(a, to_dir(p));
        }
        assert(t.items().drop_last() =~= s.items().drop_last());
    }
}

// ----------------------------------------------------------------- clipboard

/// A clipboard that was seen already, or that holds nothing, changes nothing.
pub proof fn the_same_clipboard_is_not_taken_twice(
    s: AppModel,
    text: Option<String>,
    env: EnvModel,
)
    requires
        text matches Some(t) ==> trimmed(t@) == s.last_clipboard || trimmed(t@).len() == 0,
    ensures
        s.update(Message::ClipboardSeen(text), env) == s,
{
    clipboard_step(s, text, env);
    reveal(AppModel::clipboard_seen);
}

/// A link is taken from the clipboard only if it can be fetched, its site is not
/// on the sites list, and no row has it.
pub proof fn known_and_blocked_links_are_not_captured(
    s: AppModel,
    lines: Seq<Seq<char>>,
    k: int,
)
    requires
        0 <= k < s.captured(lines).len(),
    ensures
        ({
            let l = s.captured(lines)[k];
            &&& url_parts(l) is Ok
            &&& !host_blocked(l, s.cfg.settings.dont_start_sites)
            &&& forall|i: int| 0 <= i < s.items().len() ==> (#[trigger] s.items()[i]).url != l
        }),
    decreases lines.len(),
{
    let u = lines.drop_last();
    if k < s.captured(u).len() {
        known_and_blocked_links_are_not_captured(s, u, k);
    } else {
        let l = s.captured(lines)[k];
        assert forall|i: int| 0 <= i < s.items().len() implies (#[trigger] s.items()[i]).url != l by {
            if s.items()[i].url == l {
                assert(crate::app::batch::has_url(s.items(), l));
            }
        }
    }
}

} // verus!
