//! Keyboard shortcuts: which combination of keys runs which action.
use crate::app::Mods;
use crate::text::{ascii_lower, cat, chars_of, lower, same, trim, trimmed};
use vstd::prelude::*;

verus! {

/// Actions and their combinations, in the order of the actions.
pub type Bindings = Seq<(Seq<char>, Seq<char>)>;

/// A key that no widget consumed.
#[derive(Debug)]
pub enum Key {
    Character(String),
    Escape,
    F4,
    Other,
}

/// What a press of a character key reads as. `cmd` comes first, then `shift` and
/// `alt`; a press without the command modifier is no shortcut.
pub open spec fn combo_of(key: Key, mods: Mods) -> Option<Seq<char>> {
    match key {
        Key::Character(c) if mods.command => Some(
            "cmd+"@ + (if mods.shift {
                "shift+"@
            } else {
                ""@
            }) + (if mods.alt {
                "alt+"@
            } else {
                ""@
            }) + lower(c@),
        ),
        _ => None,
    }
}

/// Normalizes a key press into a combination.
pub fn combo_string(key: &Key, mods: Mods) -> (r: Option<String>)
    ensures
        r.deep_view() == combo_of(*key, mods),
{
    if !mods.command {
        return None;
    }
    let base = match key {
        Key::Character(c) => ascii_lower(c),
        _ => return None,
    };
    let shift = if mods.shift {
        "shift+"
    } else {
        ""
    };
    let alt = if mods.alt {
        "alt+"
    } else {
        ""
    };
    Some(cat(&cat(&cat("cmd+", shift), alt), &base))
}

/// `a` stands before `b`: in the order of their characters, the shorter one
/// first where they agree.
pub open spec fn before(a: Seq<char>, b: Seq<char>) -> bool
    decreases a.len(),
{
    if b.len() == 0 {
        false
    } else if a.len() == 0 {
        true
    } else if a[0] == b[0] {
        before(a.skip(1), b.skip(1))
    } else {
        a[0] < b[0]
    }
}

fn is_before(a: &str, b: &str) -> (r: bool)
    ensures
        r == before(a@, b@),
{
    let x = chars_of(a);
    let y = chars_of(b);
    let mut i: usize = 0;
    assert(a@.skip(0) =~= a@);
    assert(b@.skip(0) =~= b@);
    while i < x.len() && i < y.len()
        invariant
            i <= x@.len(),
            i <= y@.len(),
            x@ == a@,
            y@ == b@,
            before(a@, b@) == before(a@.skip(i as int), b@.skip(i as int)),
        decreases x.len() - i,
    {
        proof {
            assert(a@.skip(i as int).skip(1) =~= a@.skip(i + 1));
            assert(b@.skip(i as int).skip(1) =~= b@.skip(i + 1));
        }
        if x[i] != y[i] {
            return x[i] < y[i];
        }
        i += 1;
    }
    i < y.len()
}

/// The place of an action: the first one that it does not come after.
pub open spec fn slot(v: Bindings, action: Seq<char>) -> int
    decreases v.len(),
{
    if v.len() == 0 || !before(v[0].0, action) {
        0
    } else {
        1 + slot(v.skip(1), action)
    }
}

/// The bindings with `action` bound to `combo`.
pub open spec fn bound(v: Bindings, action: Seq<char>, combo: Seq<char>) -> Bindings {
    let i = slot(v, action);
    if i < v.len() && v[i].0 == action {
        v.update(i, (action, combo))
    } else {
        v.insert(i, (action, combo))
    }
}

pub proof fn lemma_slot(v: Bindings, action: Seq<char>, i: int)
    requires
        0 <= i <= v.len(),
        forall|k: int| 0 <= k < i ==> before((#[trigger] v[k]).0, action),
        i < v.len() ==> !before(v[i].0, action),
    ensures
        slot(v, action) == i,
    decreases v.len(),
{
    if i > 0 {
        assert(before(v[0].0, action));
        assert forall|k: int| 0 <= k < i - 1 implies before(
            (#[trigger] v.skip(1)[k]).0,
            action,
        ) by {
            assert(v.skip(1)[k] == v[k + 1]);
        }
        lemma_slot(v.skip(1), action, i - 1);
    }
}

/// Binds an action, in place of what it was bound to.
pub fn bind(v: &mut Vec<(String, String)>, action: String, combo: String)
    ensures
        final(v).deep_view() == bound(old(v).deep_view(), action@, combo@),
{
    let ghost all = v.deep_view();
    let mut i: usize = 0;
    while i < v.len() && is_before(&v[i].0, &action)
        invariant
            i <= v@.len(),
            v.deep_view() == all,
            forall|k: int| 0 <= k < i ==> before((#[trigger] all[k]).0, action@),
        decreases v.len() - i,
    {
        assert(all[i as int].0 == v@[i as int].0@);
        i += 1;
    }
    proof {
        if i < v@.len() {
            assert(all[i as int].0 == v@[i as int].0@);
        }
        lemma_slot(all, action@, i as int);
    }
    if i < v.len() && same(&v[i].0, &action) {
        v.set(i, (action, combo));
        assert(v.deep_view() =~= all.update(i as int, (action@, combo@)));
    } else {
        v.insert(i, (action, combo));
        assert(v.deep_view() =~= all.insert(i as int, (action@, combo@)));
    }
}

/// The first action that `combo` is bound to.
pub open spec fn action_of(v: Bindings, combo: Seq<char>) -> Option<Seq<char>>
    decreases v.len(),
{
    if v.len() == 0 {
        None
    } else if v[0].1 == combo {
        Some(v[0].0)
    } else {
        action_of(v.skip(1), combo)
    }
}

pub fn action_for(v: &Vec<(String, String)>, combo: &str) -> (r: Option<String>)
    ensures
        r.deep_view() == action_of(v.deep_view(), combo@),
{
    let ghost all = v.deep_view();
    let mut i: usize = 0;
    assert(all.skip(0) =~= all);
    while i < v.len()
        invariant
            i <= v@.len(),
            all == v.deep_view(),
            action_of(all, combo@) == action_of(all.skip(i as int), combo@),
        decreases v.len() - i,
    {
        proof {
            assert(all.skip(i as int)[0] == all[i as int]);
            assert(all.skip(i as int).skip(1) =~= all.skip(i + 1));
        }
        if same(&v[i].1, combo) {
            return Some(v[i].0.clone());
        }
        i += 1;
    }
    None
}

/// What the user typed for a combination, as it is stored.
pub fn typed_combo(text: &str) -> (r: String)
    ensures
        r@ == lower(trimmed(text@)),
{
    ascii_lower(&trim(text))
}

// ------------------------------------------------------------------------- laws

/// The actions stand in order, each once.
pub open spec fn in_order(v: Bindings) -> bool {
    forall|i: int, j: int| 0 <= i < j < v.len() ==> before((#[trigger] v[i]).0, (#[trigger] v[j]).0)
}

pub proof fn lemma_before_not_self(a: Seq<char>)
    ensures
        !before(a, a),
    decreases a.len(),
{
    if a.len() > 0 {
        lemma_before_not_self(a.skip(1));
    }
}

pub proof fn lemma_before_chain(a: Seq<char>, b: Seq<char>, c: Seq<char>)
    requires
        before(a, b),
        before(b, c),
    ensures
        before(a, c),
    decreases a.len(),
{
    if a.len() > 0 && b.len() > 0 && c.len() > 0 && a[0] == b[0] && b[0] == c[0] {
        lemma_before_chain(a.skip(1), b.skip(1), c.skip(1));
    }
}

pub proof fn lemma_before_or_after(a: Seq<char>, b: Seq<char>)
    ensures
        before(a, b) || before(b, a) || a == b,
    decreases a.len(),
{
    if a.len() > 0 && b.len() > 0 && a[0] == b[0] {
        lemma_before_or_after(a.skip(1), b.skip(1));
        if a.skip(1) == b.skip(1) {
            assert(a =~= seq![a[0]] + a.skip(1));
            assert(b =~= seq![b[0]] + b.skip(1));
        }
    } else {
        if a.len() == 0 && b.len() == 0 {
            assert(a =~= b);
        }
    }
}

pub proof fn lemma_slot_splits(v: Bindings, action: Seq<char>)
    ensures
        0 <= slot(v, action) <= v.len(),
        forall|k: int| 0 <= k < slot(v, action) ==> before((#[trigger] v[k]).0, action),
        slot(v, action) < v.len() ==> !before(v[slot(v, action)].0, action),
    decreases v.len(),
{
    if v.len() > 0 && before(v[0].0, action) {
        lemma_slot_splits(v.skip(1), action);
        let n = slot(v.skip(1), action);
        assert forall|k: int| 0 <= k < n + 1 implies before((#[trigger] v[k]).0, action) by {
            if k > 0 {
                assert(v.skip(1)[k - 1] == v[k]);
            }
        }
        if n < v.skip(1).len() {
            assert(v.skip(1)[n] == v[n + 1]);
        }
    }
}

/// Binding an action keeps the actions in order, each once.
pub proof fn binding_keeps_the_order(v: Bindings, action: Seq<char>, combo: Seq<char>)
    requires
        in_order(v),
    ensures
        in_order(bound(v, action, combo)),
{
    lemma_slot_splits(v, action);
    let i = slot(v, action);
    let w = bound(v, action, combo);
    if !(i < v.len() && v[i].0 == action) {
        if i < v.len() {
            lemma_before_or_after(v[i].0, action);
        }
        assert forall|j: int, k: int| 0 <= j < k < w.len() implies before(
            (#[trigger] w[j]).0,
            (#[trigger] w[k]).0,
        ) by {
            if j == i {
                assert(w[k] == v[k - 1]);
                if k - 1 > i {
                    lemma_before_chain(action, v[i].0, v[k - 1].0);
                }
            } else if k == i {
                assert(w[j] == v[j]);
            }
        }
    }
}

/// An action has the combination it was bound to last.
pub proof fn a_bound_action_is_bound(v: Bindings, action: Seq<char>, combo: Seq<char>)
    ensures
        bound(v, action, combo).contains((action, combo)),
{
    lemma_slot_splits(v, action);
    let i = slot(v, action);
    assert(bound(v, action, combo)[i] == (action, combo));
}

/// Binding one action leaves every other one as it was.
pub proof fn other_actions_stay_bound(
    v: Bindings,
    action: Seq<char>,
    combo: Seq<char>,
    other: (Seq<char>, Seq<char>),
)
    requires
        other.0 != action,
    ensures
        bound(v, action, combo).contains(other) <==> v.contains(other),
{
    lemma_slot_splits(v, action);
    let i = slot(v, action);
    let w = bound(v, action, combo);
    let replaced = i < v.len() && v[i].0 == action;
    if v.contains(other) {
        let k = choose|k: int| 0 <= k < v.len() && v[k] == other;
        if replaced || k < i {
            assert(w[k] == other);
        } else {
            assert(w[k + 1] == other);
        }
    }
    if w.contains(other) {
        let k = choose|k: int| 0 <= k < w.len() && w[k] == other;
        if replaced || k < i {
            assert(v[k] == other);
        } else {
            assert(v[k - 1] == other);
        }
    }
}

} // verus!
