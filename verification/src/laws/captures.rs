//! What the browser hands over, and what a probe learns.
use crate::app::AppModel;
use crate::app::EnvModel;
use crate::downloads::{free_name, the_picked_name_is_free};
use crate::edits::{to_captured, to_locked_name};
use crate::laws::filing::{collects, lemma_category_for, lemma_category_index};
use crate::laws::rows::{lemma_at, lemma_edit, unique};
use crate::model::{category_for, category_index};
use crate::names::path_in;
use vstd::prelude::*;

verus! {

/// What the browser knew of a download goes into its row, and what it did not
/// know stays as it was. A name files the row under the first category that
/// collects its type, and into the folder of that category.
pub proof fn a_capture_fills_in_the_row(
    s: AppModel,
    k: int,
    c: int,
    cookies: Option<Seq<char>>,
    name: Option<Seq<char>>,
    referer: Option<Seq<char>>,
)
    requires
        unique(s.items()),
        0 <= k < s.items().len(),
        0 <= c < s.cfg.categories.len(),
        forall|j: int|
            0 <= j < s.cfg.categories.len() && j != c ==> (#[trigger] s.cfg.categories[j]).name
                != s.cfg.categories[c].name,
        name matches Some(n) ==> collects(s.cfg.categories[c], n) && forall|j: int|
            0 <= j < c ==> !collects(#[trigger] s.cfg.categories[j], n),
        !s.cfg.settings.on.no_category_dirs,
    ensures
        ({
            let d = s.items()[k];
            let t = s.apply_capture_extras(d.id, cookies, name, referer);
            let e = t.items()[k];
            &&& t.items().len() == s.items().len()
            &&& forall|i: int|
                0 <= i < s.items().len() && i != k ==> #[trigger] t.items()[i] == s.items()[i]
            &&& e.id == d.id
            &&& e.url == d.url
            &&& e.state == d.state
            &&& e.queue == d.queue
            &&& cookies is Some ==> e.cookies == cookies
            &&& cookies is None ==> e.cookies == d.cookies
            &&& referer is Some ==> e.referer == referer
            &&& referer is None ==> e.referer == d.referer
            &&& name is None ==> e.file_name == d.file_name && e.category == d.category
                && e.save_dir == d.save_dir
            &&& name is Some ==> e.file_name == name->0 && e.category == Some(
                s.cfg.categories[c].name,
            ) && e.save_dir == s.cfg.categories[c].dir
        }),
{
    reveal(AppModel::apply_capture_extras);
    reveal(AppModel::category);
    reveal(AppModel::cat_dir);
    let d = s.items()[k];
    let cats = s.cfg.categories;
    let cat = match name {
        Some(n) => s.category(n),
        None => None,
    };
    let dir = match name {
        Some(n) => s.cat_dir(cat),
        None => None,
    };
    lemma_at(s.items(), k);
    lemma_edit(s.items(), k, to_captured(cookies, referer, name, cat, dir));
    if let Some(n) = name {
        lemma_category_for(n, cats);
        match category_for(n, cats) {
            Some(found) => {
                let x = choose|x: int|
                    0 <= x < cats.len() && (#[trigger] cats[x]).name == found && collects(cats[x], n)
                        && forall|j: int| 0 <= j < x ==> !collects(#[trigger] cats[j], n);
                assert(x == c) by {
                    if x < c {
                        assert(!collects(cats[x], n));
                    }
                    if c < x {
                        assert(!collects(cats[c], n));
                    }
                }
            },
            None => {
                assert(!collects(cats[c], n));
            },
        }
        lemma_category_index(cats, cats[c].name);
        let i = category_index(cats, cats[c].name);
        assert(i == c) by {
            if i < cats.len() && i != c {
                assert(cats[i].name != cats[c].name);
            }
            if c < i {
                assert(cats[c].name != cats[c].name);
            }
        }
    }
}

/// A copy takes a name that no file in its folder has, nor any other row there,
/// and keeps it.
pub proof fn a_copy_overwrites_nothing(s: AppModel, k: int, i: int, env: EnvModel)
    requires
        unique(s.items()),
        0 <= k < s.items().len(),
        0 <= i < s.items().len(),
        i != k,
        env.disk.entries.dom().finite(),
    ensures
        ({
            let d = s.items()[k];
            let t = s.name_copy(d.id, env);
            let e = t.items()[k];
            &&& t.items().len() == s.items().len()
            &&& t.items()[i] == s.items()[i]
            &&& e.name_locked
            &&& e.save_dir == d.save_dir
            &&& e.id == d.id
            &&& !env.disk.entries.contains_key(path_in(e.save_dir, e.file_name))
            &&& s.items()[i].save_dir == d.save_dir ==> s.items()[i].file_name != e.file_name
        }),
{
    reveal(AppModel::name_copy);
    let d = s.items()[k];
    let n = free_name(s.items(), d.save_dir, d.file_name, d.id, env.disk);
    the_picked_name_is_free(s.items(), d.save_dir, d.file_name, d.id, env.disk);
    lemma_at(s.items(), k);
    lemma_edit(s.items(), k, to_locked_name(n));
    if i < k {
        assert(s.items()[i].id != s.items()[k].id);
    } else {
        assert(s.items()[k].id != s.items()[i].id);
    }
    let e = s.name_copy(d.id, env).items()[k];
    assert(e.file_name == n);
    if s.items()[i].save_dir == d.save_dir && s.items()[i].file_name == n {
        assert(crate::downloads::listed_in(s.items(), d.save_dir, n, d.id, env.disk));
    }
}

} // verus!
