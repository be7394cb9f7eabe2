//! New rows: what they are called, where they are filed and saved, and which
//! queue takes them.
use crate::app::adding::next_order;
use crate::app::AppModel;
use crate::downloads::Items;
use crate::engine::provisional_name;
use crate::model::{category_for, category_index, CategoryDefModel, DlState};
use crate::rules::listed_type;
use crate::text::split_last;
use vstd::prelude::*;

verus! {

/// The file type of a name is one of those that a category collects.
pub open spec fn collects(c: CategoryDefModel, name: Seq<char>) -> bool {
    split_last(name, '.') matches Some((_, ext)) && listed_type(ext, c.types)
}

pub proof fn lemma_category_for(name: Seq<char>, cats: Seq<CategoryDefModel>)
    ensures
        match category_for(name, cats) {
            Some(c) => exists|k: int|
                0 <= k < cats.len() && (#[trigger] cats[k]).name == c && collects(cats[k], name)
                    && forall|j: int| 0 <= j < k ==> !collects(#[trigger] cats[j], name),
            None => forall|k: int| 0 <= k < cats.len() ==> !collects(#[trigger] cats[k], name),
        },
    decreases cats.len(),
{
    if cats.len() > 0 && split_last(name, '.') is Some {
        if collects(cats[0], name) {
            assert(cats[0].name == category_for(name, cats)->0);
        } else {
            let t = cats.drop_first();
            lemma_category_for(name, t);
            match category_for(name, t) {
                Some(c) => {
                    let k = choose|k: int|
                        0 <= k < t.len() && (#[trigger] t[k]).name == c && collects(t[k], name)
                            && forall|j: int| 0 <= j < k ==> !collects(#[trigger] t[j], name);
                    assert(cats[k + 1] == t[k]);
                    assert forall|j: int| 0 <= j < k + 1 implies !collects(#[trigger] cats[j], name) by {
                        if j > 0 {
                            assert(t[j - 1] == cats[j]);
                        }
                    }
                },
                None => {
                    assert forall|k: int| 0 <= k < cats.len() implies !collects(
                        #[trigger] cats[k],
                        name,
                    ) by {
                        if k > 0 {
                            assert(t[k - 1] == cats[k]);
                        }
                    }
                },
            }
        }
    }
}

pub proof fn lemma_category_index(cats: Seq<CategoryDefModel>, name: Seq<char>)
    ensures
        0 <= category_index(cats, name) <= cats.len(),
        category_index(cats, name) < cats.len() ==> cats[category_index(cats, name)].name == name,
        forall|j: int| 0 <= j < category_index(cats, name) ==> (#[trigger] cats[j]).name != name,
    decreases cats.len(),
{
    if cats.len() > 0 && cats[0].name != name {
        let t = cats.drop_first();
        lemma_category_index(t, name);
        assert forall|j: int| 0 <= j < category_index(cats, name) implies (#[trigger] cats[j]).name
            != name by {
            if j > 0 {
                assert(t[j - 1] == cats[j]);
            }
        }
    }
}

/// A new row is filed under the first category that collects its file type, and
/// under none where no category does.
pub proof fn rows_are_filed_by_their_type(
    s: AppModel,
    url: Seq<char>,
    auth: Option<(Seq<char>, Seq<char>)>,
    queue: Option<Seq<char>>,
    now: i64,
)
    ensures
        ({
            let d = s.add_item(url, auth, queue, now).items().last();
            let cats = s.cfg.categories;
            match d.category {
                Some(c) => exists|k: int|
                    0 <= k < cats.len() && (#[trigger] cats[k]).name == c && collects(
                        cats[k],
                        d.file_name,
                    ) && forall|j: int| 0 <= j < k ==> !collects(#[trigger] cats[j], d.file_name),
                None => forall|k: int|
                    0 <= k < cats.len() ==> !collects(#[trigger] cats[k], d.file_name),
            }
        }),
{
    reveal(AppModel::add_item);
    reveal(AppModel::category);
    lemma_category_for(provisional_name(url), s.cfg.categories);
}

/// A row of a category saves into the folder that the settings give for that
/// category. The folder of the first category is used only for a row without a
/// category, and for every row while category folders are switched off.
pub proof fn rows_are_saved_in_the_folder_of_their_category(
    s: AppModel,
    url: Seq<char>,
    auth: Option<(Seq<char>, Seq<char>)>,
    queue: Option<Seq<char>>,
    now: i64,
    k: int,
)
    requires
        0 <= k < s.cfg.categories.len(),
        forall|j: int| 0 <= j < k ==> (#[trigger] s.cfg.categories[j]).name != s.cfg.categories[k].name,
    ensures
        ({
            let d = s.add_item(url, auth, queue, now).items().last();
            let on = s.cfg.settings.on;
            &&& d.category == Some(s.cfg.categories[k].name) && !on.no_category_dirs ==> d.save_dir
                == s.cfg.categories[k].dir
            &&& d.category is None || on.no_category_dirs ==> d.save_dir == s.cfg.categories[0].dir
        }),
{
    reveal(AppModel::add_item);
    reveal(AppModel::category);
    reveal(AppModel::cat_dir);
    lemma_category_index(s.cfg.categories, s.cfg.categories[k].name);
    let i = category_index(s.cfg.categories, s.cfg.categories[k].name);
    assert(i == k) by {
        if i < k {
            assert(s.cfg.categories[i].name != s.cfg.categories[k].name);
        }
        if k < i {
            assert(s.cfg.categories[k].name != s.cfg.categories[k].name);
        }
    }
}

/// The next place in a queue is beyond every place taken in it.
pub proof fn lemma_next_order(v: Items, name: Seq<char>)
    ensures
        forall|i: int|
            0 <= i < v.len() && (#[trigger] v[i]).queue == Some(name) && v[i].q_order < u32::MAX
                ==> v[i].q_order < next_order(v, name),
    decreases v.len(),
{
    if v.len() > 0 {
        let t = v.drop_last();
        lemma_next_order(t, name);
        assert forall|i: int|
            0 <= i < v.len() && (#[trigger] v[i]).queue == Some(name) && v[i].q_order
                < u32::MAX implies v[i].q_order < next_order(v, name) by {
            if i < t.len() {
                assert(t[i] == v[i]);
            }
        }
    }
}

/// Adding an address adds one row and touches no other. The new row has the next
/// number and the address, holds nothing yet, and rests; it is in the queue that
/// was asked for, or else in the first one, behind everything that is there.
pub proof fn adding_adds_one_row_at_rest(
    s: AppModel,
    url: Seq<char>,
    auth: Option<(Seq<char>, Seq<char>)>,
    queue: Option<Seq<char>>,
    now: i64,
)
    ensures
        ({
            let t = s.add_item(url, auth, queue, now);
            let d = t.items().last();
            &&& t.items().len() == s.items().len() + 1
            &&& forall|i: int| 0 <= i < s.items().len() ==> #[trigger] t.items()[i] == s.items()[i]
            &&& t.cfg == s.cfg
            &&& t.out == s.out
            &&& d.id == s.state.next_id
            &&& s.state.next_id < u64::MAX ==> t.state.next_id == s.state.next_id + 1
            &&& d.url == url
            &&& d.auth == auth
            &&& d.added == now
            &&& d.state == DlState::Paused
            &&& d.downloaded == 0
            &&& d.held.len() == 0
            &&& d.size is None
            &&& !d.limit_paused
            &&& !d.name_locked
            &&& d.speed_limit is None
            &&& queue is Some ==> d.queue == queue
            &&& queue is None && s.cfg.queues.len() > 0 ==> d.queue == Some(s.cfg.queues[0].name)
            &&& queue is None && s.cfg.queues.len() == 0 ==> d.queue is None
            &&& d.queue is Some ==> forall|i: int|
                0 <= i < s.items().len() && (#[trigger] s.items()[i]).queue == d.queue
                    && s.items()[i].q_order < u32::MAX ==> s.items()[i].q_order < d.q_order
        }),
{
    reveal(AppModel::add_item);
    let t = s.add_item(url, auth, queue, now);
    let d = t.items().last();
    if let Some(n) = d.queue {
        lemma_next_order(s.items(), n);
    }
}

} // verus!
