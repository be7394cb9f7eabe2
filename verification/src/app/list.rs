//! The download table: which rows it shows, in which order, and what clicking
//! and sweeping select.
use crate::app::{App, AppModel, ListUi, ListUiModel};
use crate::downloads::{item_of, Items};
use crate::effect::{Effect, EffectModel};
use crate::i18n::{Catalogue, Texts};
use crate::model::{DlId, DlState, DownloadItem, DownloadItemModel};
use crate::order::{
    key_of_text, key_of_text_then_number, maybe_number, order, shift, shifted, sort_keyed, text_key,
    text_then_number,
};
use crate::queues::{find_id, place_of_id};
use crate::state::{SortKey, TreeSel, TreeSelModel, WinKind};
use crate::text::{same, to_lowercase, unicode_lowercase};
use crate::app::transfers::{ids_but, ids_without};
use vstd::prelude::*;

verus! {

// ------------------------------------------------------------------- visible

/// Whether a row is shown while the tree stands at `sel`.
pub open spec fn shown(d: DownloadItemModel, sel: TreeSelModel) -> bool {
    match sel {
        TreeSelModel::All => true,
        TreeSelModel::Cat(c) => d.category == Some(c),
        TreeSelModel::Unfinished => d.state != DlState::Complete,
        TreeSelModel::UnfCat(c) => d.state != DlState::Complete && d.category == Some(c),
        TreeSelModel::Finished => d.state == DlState::Complete,
        TreeSelModel::FinCat(c) => d.state == DlState::Complete && d.category == Some(c),
        TreeSelModel::Queues => d.queue is Some,
        TreeSelModel::Queue(q) => d.queue == Some(q),
    }
}

/// What a row is sorted by: its numbers, or the characters of its text.
pub open spec fn row_key(d: DownloadItemModel, key: SortKey, t: Texts) -> Seq<u64> {
    match key {
        SortKey::Name => text_key(unicode_lowercase(d.file_name)),
        SortKey::Status => text_key(d.status_words(t)),
        SortKey::Queue => text_then_number(d.queue, d.q_order as u64),
        SortKey::Size => seq![
            match d.size {
                Some(s) => s,
                None => 0u64,
            },
        ],
        SortKey::TimeLeft => seq![
            match d.eta_secs {
                Some(s) => s,
                None => u64::MAX,
            },
        ],
        SortKey::Rate => seq![d.rate_bits],
        SortKey::LastTry => maybe_number(
            match d.last_try {
                Some(t) => Some(shifted(t)),
                None => None,
            },
        ),
        SortKey::Description => text_key(d.description),
    }
}

/// The places in the list of the rows that are shown.
pub open spec fn shown_places(v: Items, sel: TreeSelModel) -> Seq<int>
    decreases v.len(),
{
    if v.len() == 0 {
        seq![]
    } else {
        let r = shown_places(v.drop_last(), sel);
        if shown(v.last(), sel) {
            r.push(v.len() - 1)
        } else {
            r
        }
    }
}

/// The places in the list of the rows that are shown, in the order in which
/// they are shown.
pub open spec fn visible_places(v: Items, sel: TreeSelModel, sort: (SortKey, bool), t: Texts) -> Seq<
    int,
> {
    let p = shown_places(v, sel);
    let keys = Seq::new(p.len(), |i: int| row_key(v[p[i]], sort.0, t));
    let o = order(keys, sort.1);
    Seq::new(o.len(), |i: int| p[o[i]])
}

/// The numbers of the rows that are shown, in the order in which they are shown.
#[verifier::opaque]
pub open spec fn visible_rows(v: Items, sel: TreeSelModel, sort: (SortKey, bool), t: Texts) -> Seq<
    DlId,
> {
    let p = visible_places(v, sel, sort, t);
    Seq::new(p.len(), |i: int| v[p[i]].id)
}

fn in_category(d: &DownloadItem, c: &String) -> (r: bool)
    ensures
        r == (d@.category == Some(c@)),
{
    match &d.category {
        Some(x) => same(x, c),
        None => false,
    }
}

fn is_shown(d: &DownloadItem, sel: &TreeSel) -> (r: bool)
    ensures
        r == shown(d@, sel@),
{
    match sel {
        TreeSel::All => true,
        TreeSel::Cat(c) => in_category(d, c),
        TreeSel::Unfinished => d.state != DlState::Complete,
        TreeSel::UnfCat(c) => d.state != DlState::Complete && in_category(d, c),
        TreeSel::Finished => d.state == DlState::Complete,
        TreeSel::FinCat(c) => d.state == DlState::Complete && in_category(d, c),
        TreeSel::Queues => d.queue.is_some(),
        TreeSel::Queue(q) => d.is_in_queue(q),
    }
}

fn one_number(n: u64) -> (r: Vec<u64>)
    ensures
        r@ == seq![n],
{
    let mut r: Vec<u64> = Vec::new();
    r.push(n);
    assert(r@ =~= seq![n]);
    r
}

fn key_of(d: &DownloadItem, key: SortKey, lang: &Catalogue) -> (r: Vec<u64>)
    ensures
        r@ == row_key(d@, key, lang@),
{
    match key {
        SortKey::Name => key_of_text(&to_lowercase(&d.file_name)),
        SortKey::Status => key_of_text(&d.status_text(lang)),
        SortKey::Queue => key_of_text_then_number(&d.queue, d.q_order as u64),
        SortKey::Size => one_number(
            match d.size {
                Some(s) => s,
                None => 0,
            },
        ),
        SortKey::TimeLeft => one_number(
            match d.eta_secs {
                Some(s) => s,
                None => u64::MAX,
            },
        ),
        SortKey::Rate => one_number(d.rate_bits),
        SortKey::LastTry => match d.last_try {
            Some(t) => {
                let mut r = one_number(1);
                r.push(shift(t));
                assert(r@ =~= seq![1u64, shifted(t)]);
                r
            },
            None => one_number(0),
        },
        SortKey::Description => key_of_text(&d.description),
    }
}

/// The places of the rows that the table shows, in the order in which it shows
/// them.
pub fn visible(v: &Vec<DownloadItem>, sel: &TreeSel, sort: (SortKey, bool), lang: &Catalogue) -> (r:
    Vec<usize>)
    ensures
        crate::order::as_places(r@) == visible_places(v.deep_view(), sel@, sort, lang@),
        forall|i: int| 0 <= i < r@.len() ==> #[trigger] r@[i] < v@.len(),
{
    let ghost all = v.deep_view();
    let ghost t = lang@;
    let mut places: Vec<usize> = Vec::new();
    let mut keys: Vec<Vec<u64>> = Vec::new();
    let mut i: usize = 0;
    assert(all.take(0) =~= seq![]);
    assert(crate::order::as_places(places@) =~= seq![]);
    while i < v.len()
        invariant
            i <= v@.len(),
            all == v.deep_view(),
            t == lang@,
            crate::order::as_places(places@) == shown_places(all.take(i as int), sel@),
            keys@.len() == places@.len(),
            forall|k: int| 0 <= k < places@.len() ==> #[trigger] places@[k] < i,
            forall|k: int|
                0 <= k < keys@.len() ==> (#[trigger] keys@[k])@ == row_key(
                    all[places@[k] as int],
                    sort.0,
                    t,
                ),
        decreases v.len() - i,
    {
        proof {
            assert(all.take(i + 1).drop_last() =~= all.take(i as int));
            assert(all.take(i + 1).last() == v@[i as int]@);
            assert(all[i as int] == v@[i as int]@);
        }
        if is_shown(&v[i], sel) {
            let ghost before = places@;
            places.push(i);
            keys.push(key_of(&v[i], sort.0, lang));
            assert(crate::order::as_places(places@) =~= crate::order::as_places(before).push(
                i as int,
            ));
        }
        i += 1;
    }
    assert(all.take(i as int) =~= all);
    let ghost p = shown_places(all, sel@);
    let ghost ks = Seq::new(p.len(), |i: int| row_key(all[p[i]], sort.0, t));
    proof {
        assert(keys.deep_view() =~= ks) by {
            assert forall|k: int| 0 <= k < ks.len() implies keys.deep_view()[k] == ks[k] by {
                assert(p[k] == places@[k] as int);
                assert(keys@[k].deep_view() =~= keys@[k]@);
            }
        }
    }
    let o = sort_keyed(&keys, sort.1);
    let ghost so = order(ks, sort.1);
    let mut r: Vec<usize> = Vec::new();
    let mut k: usize = 0;
    while k < o.len()
        invariant
            k <= o@.len(),
            o@.len() == keys@.len(),
            keys@.len() == places@.len(),
            crate::order::as_places(o@) == so,
            crate::order::as_places(places@) == p,
            forall|j: int| 0 <= j < o@.len() ==> #[trigger] o@[j] < keys@.len(),
            forall|j: int| 0 <= j < places@.len() ==> #[trigger] places@[j] < v@.len(),
            r@.len() == k,
            forall|j: int| 0 <= j < k ==> #[trigger] r@[j] == p[so[j]] && r@[j] < v@.len(),
        decreases o.len() - k,
    {
        assert(so[k as int] == o@[k as int] as int);
        assert(p[so[k as int]] == places@[o@[k as int] as int] as int);
        r.push(places[o[k]]);
        k += 1;
    }
    assert(crate::order::as_places(r@) =~= visible_places(all, sel@, sort, t));
    r
}

impl AppModel {
    /// The numbers of the rows that are shown, in the order in which they are
    /// shown.
    pub open spec fn visible_ids(self) -> Seq<DlId> {
        visible_rows(self.items(), self.tree.sel, self.list.sort, self.lang)
    }
}

impl App {
    /// Rows shown for the current tree selection, sorted.
    pub fn visible(&self) -> (r: Vec<usize>)
        ensures
            crate::order::as_places(r@) == visible_places(
                self@.items(),
                self@.tree.sel,
                self@.list.sort,
                self@.lang,
            ),
            forall|i: int| 0 <= i < r@.len() ==> #[trigger] r@[i] < self@.items().len(),
    {
        proof {
            reveal(App::model);
        }
        visible(&self.state.downloads, &self.tree.sel, self.list.sort, &self.lang)
    }

    /// Numbers of [`Self::visible`], in the same order.
    pub fn visible_ids(&self) -> (r: Vec<DlId>)
        ensures
            r@ == self@.visible_ids(),
    {
        proof {
            reveal(App::model);
            reveal(visible_rows);
        }
        let v = &self.state.downloads;
        let places = visible(v, &self.tree.sel, self.list.sort, &self.lang);
        let ghost all = v.deep_view();
        let ghost p = crate::order::as_places(places@);
        let mut r: Vec<DlId> = Vec::new();
        let mut k: usize = 0;
        while k < places.len()
            invariant
                k <= places@.len(),
                all == v.deep_view(),
                p == crate::order::as_places(places@),
                forall|j: int| 0 <= j < places@.len() ==> #[trigger] places@[j] < v@.len(),
                r@.len() == k,
                forall|j: int| 0 <= j < k ==> #[trigger] r@[j] == all[p[j]].id,
            decreases places.len() - k,
        {
            assert(p[k as int] == places@[k as int] as int);
            assert(all[places@[k as int] as int] == v@[places@[k as int] as int]@);
            r.push(v[places[k]].id);
            k += 1;
        }
        assert(r@ =~= self@.visible_ids());
        r
    }
}

// ----------------------------------------------------------------- selection

/// The rows of `order` from `a` to `b`, whichever comes first.
pub open spec fn span_of(order: Seq<DlId>, a: int, b: int) -> Seq<DlId> {
    if a <= b {
        order.subrange(a, b + 1)
    } else {
        order.subrange(b, a + 1)
    }
}

/// The rows between two rows of the visible order, both among them; none where
/// one of the two is not shown.
pub open spec fn range_between(order: Seq<DlId>, anchor: DlId, id: DlId) -> Option<Seq<DlId>> {
    let a = place_of_id(order, anchor);
    let b = place_of_id(order, id);
    if a < order.len() && b < order.len() {
        Some(span_of(order, a, b))
    } else {
        None
    }
}

fn sub_ids(v: &Vec<DlId>, from: usize, to: usize) -> (r: Vec<DlId>)
    requires
        from <= to <= v@.len(),
    ensures
        r@ == v@.subrange(from as int, to as int),
{
    let mut r: Vec<DlId> = Vec::new();
    let mut k: usize = from;
    while k < to
        invariant
            from <= k <= to <= v@.len(),
            r@ == v@.subrange(from as int, k as int),
        decreases to - k,
    {
        r.push(v[k]);
        k += 1;
        assert(v@.subrange(from as int, k as int) =~= v@.subrange(from as int, k - 1).push(
            v@[k - 1],
        ));
    }
    r
}

fn ids_between(order: &Vec<DlId>, anchor: DlId, id: DlId) -> (r: Option<Vec<DlId>>)
    ensures
        match r {
            Some(v) => range_between(order@, anchor, id) == Some(v@),
            None => range_between(order@, anchor, id) is None,
        },
{
    match (find_id(order, anchor), find_id(order, id)) {
        (Some(a), Some(b)) => if a <= b {
            Some(sub_ids(order, a, b + 1))
        } else {
            Some(sub_ids(order, b, a + 1))
        },
        _ => None,
    }
}

impl ListUiModel {
    /// Command-click: the row joins the selection or leaves it.
    pub open spec fn toggle(self, id: DlId) -> ListUiModel {
        ListUiModel {
            selected: if self.selected.contains(id) {
                ids_without(self.selected, id)
            } else {
                self.selected.push(id)
            },
            anchor: Some(id),
            last_click: None,
            band: true,
            ..self
        }
    }

    /// Shift-click: everything from the anchor to the row.
    pub open spec fn extend(self, id: DlId, order: Seq<DlId>) -> ListUiModel {
        let anchor = match self.anchor {
            Some(a) => a,
            None => id,
        };
        ListUiModel {
            selected: match range_between(order, anchor, id) {
                Some(v) => v,
                None => self.selected,
            },
            last_click: None,
            band: true,
            ..self
        }
    }

    /// Whether a plain click closes a double click.
    pub open spec fn doubles(self, id: DlId, ms: u64) -> bool {
        match self.last_click {
            Some((last, at)) => last == id && (ms <= at || ms - at < 400),
            None => false,
        }
    }

    /// A plain click: the row alone, and a sweep may begin.
    pub open spec fn pick(self, id: DlId, order: Seq<DlId>, ms: u64) -> ListUiModel {
        ListUiModel {
            selected: seq![id],
            anchor: Some(id),
            last_click: Some((id, ms)),
            press: Some(id),
            drag: true,
            from_empty: false,
            band: true,
            drag_order: order,
            ..self
        }
    }

    /// A right click keeps a selection that the row is part of.
    pub open spec fn right_click(self, id: DlId) -> ListUiModel {
        if self.selected.contains(id) {
            self
        } else {
            ListUiModel { selected: seq![id], anchor: Some(id), ..self }
        }
    }

    /// The pointer is over a row; a sweep in progress reaches it.
    pub open spec fn enter(self, id: DlId) -> ListUiModel {
        let s = ListUiModel { hover_row: Some(id), ..self };
        if !s.drag {
            s
        } else if s.from_empty {
            if s.drag_order.len() == 0 {
                s
            } else {
                s.sweep(s.drag_order.last(), id)
            }
        } else {
            let a = match s.press {
                Some(a) => a,
                None => id,
            };
            ListUiModel { press: Some(a), ..s }.sweep(a, id)
        }
    }

    /// The sweep covers everything between two rows.
    pub open spec fn sweep(self, anchor: DlId, id: DlId) -> ListUiModel {
        match range_between(self.drag_order, anchor, id) {
            Some(v) => ListUiModel { selected: v, anchor: Some(anchor), ..self },
            None => self,
        }
    }

    /// A press below the last row: a sweep that is pinned to the end of the list.
    pub open spec fn press_empty(self, order: Seq<DlId>) -> ListUiModel {
        ListUiModel {
            drag: true,
            from_empty: true,
            press: None,
            drag_order: order,
            band: true,
            selected: seq![],
            anchor: None,
            last_click: None,
            ..self
        }
    }

    /// The pointer is below the last row; a sweep in progress reaches the end.
    pub open spec fn enter_empty(self) -> ListUiModel {
        let s = ListUiModel { hover_row: None, ..self };
        if !s.drag {
            s
        } else if s.from_empty {
            ListUiModel { selected: seq![], anchor: None, ..s }
        } else {
            match s.press {
                Some(anchor) => {
                    let a = place_of_id(s.drag_order, anchor);
                    if a < s.drag_order.len() {
                        ListUiModel {
                            selected: s.drag_order.skip(a),
                            anchor: Some(anchor),
                            ..s
                        }
                    } else {
                        s
                    }
                },
                None => s,
            }
        }
    }

    /// The button is up: whatever was in progress ends.
    pub open spec fn release(self) -> ListUiModel {
        ListUiModel {
            press: None,
            drag: false,
            from_empty: false,
            drag_order: seq![],
            band: false,
            resizing: None,
            ..self
        }
    }

    /// Everything that is shown is selected.
    pub open spec fn select_all(self, order: Seq<DlId>) -> ListUiModel {
        ListUiModel {
            selected: order,
            anchor: if order.len() > 0 {
                Some(order[0])
            } else {
                None
            },
            ..self
        }
    }

    /// The same column again turns the order round.
    pub open spec fn sort_by(self, key: SortKey) -> ListUiModel {
        ListUiModel {
            sort: if self.sort.0 == key {
                (key, !self.sort.1)
            } else {
                (key, true)
            },
            ..self
        }
    }
}

fn has_id(v: &Vec<DlId>, id: DlId) -> (r: bool)
    ensures
        r == v@.contains(id),
{
    let mut i: usize = 0;
    while i < v.len()
        invariant
            i <= v@.len(),
            forall|k: int| 0 <= k < i ==> #[trigger] v@[k] != id,
        decreases v.len() - i,
    {
        if v[i] == id {
            return true;
        }
        i += 1;
    }
    false
}

pub(crate) fn only(id: DlId) -> (r: Vec<DlId>)
    ensures
        r@ == seq![id],
{
    let mut r: Vec<DlId> = Vec::new();
    r.push(id);
    assert(r@ =~= seq![id]);
    r
}

impl ListUi {
    fn toggle(&mut self, id: DlId)
        ensures
            final(self)@ == old(self)@.toggle(id),
    {
        if has_id(&self.selected, id) {
            self.selected = ids_but(&self.selected, id);
        } else {
            self.selected.push(id);
        }
        self.anchor = Some(id);
        self.last_click = None;
        self.band = true;
    }

    fn extend(&mut self, id: DlId, order: &Vec<DlId>)
        ensures
            final(self)@ == old(self)@.extend(id, order@),
    {
        let anchor = match self.anchor {
            Some(a) => a,
            None => id,
        };
        if let Some(v) = ids_between(order, anchor, id) {
            self.selected = v;
        }
        self.last_click = None;
        self.band = true;
    }

    fn doubles(&self, id: DlId, ms: u64) -> (r: bool)
        ensures
            r == self@.doubles(id, ms),
    {
        match self.last_click {
            Some((last, at)) => last == id && ms.saturating_sub(at) < 400,
            None => false,
        }
    }

    fn pick(&mut self, id: DlId, order: Vec<DlId>, ms: u64)
        ensures
            final(self)@ == old(self)@.pick(id, order@, ms),
    {
        self.selected = only(id);
        self.anchor = Some(id);
        self.last_click = Some((id, ms));
        self.press = Some(id);
        self.drag = true;
        self.from_empty = false;
        self.band = true;
        self.drag_order = order;
    }

    pub fn right_click(&mut self, id: DlId)
        ensures
            final(self)@ == old(self)@.right_click(id),
    {
        if !has_id(&self.selected, id) {
            self.selected = only(id);
            self.anchor = Some(id);
        }
    }

    fn sweep(&mut self, anchor: DlId, id: DlId)
        ensures
            final(self)@ == old(self)@.sweep(anchor, id),
    {
        if let Some(v) = ids_between(&self.drag_order, anchor, id) {
            self.selected = v;
            self.anchor = Some(anchor);
        }
    }

    pub fn enter(&mut self, id: DlId)
        ensures
            final(self)@ == old(self)@.enter(id),
    {
        self.hover_row = Some(id);
        if !self.drag {
            return ;
        }
        if self.from_empty {
            let n = self.drag_order.len();
            if n > 0 {
                let anchor = self.drag_order[n - 1];
                self.sweep(anchor, id);
            }
        } else {
            let anchor = match self.press {
                Some(a) => a,
                None => id,
            };
            self.press = Some(anchor);
            self.sweep(anchor, id);
        }
    }

    fn press_empty(&mut self, order: Vec<DlId>)
        ensures
            final(self)@ == old(self)@.press_empty(order@),
    {
        self.drag = true;
        self.from_empty = true;
        self.press = None;
        self.drag_order = order;
        self.band = true;
        self.selected = Vec::new();
        self.anchor = None;
        self.last_click = None;
    }

    pub fn enter_empty(&mut self)
        ensures
            final(self)@ == old(self)@.enter_empty(),
    {
        self.hover_row = None;
        if !self.drag {
            return ;
        }
        if self.from_empty {
            self.selected = Vec::new();
            self.anchor = None;
            return ;
        }
        if let Some(anchor) = self.press {
            if let Some(a) = find_id(&self.drag_order, anchor) {
                let n = self.drag_order.len();
                self.selected = sub_ids(&self.drag_order, a, n);
                assert(self.selected@ =~= self.drag_order@.skip(a as int));
                self.anchor = Some(anchor);
            }
        }
    }

    pub fn release(&mut self)
        ensures
            final(self)@ == old(self)@.release(),
    {
        self.press = None;
        self.drag = false;
        self.from_empty = false;
        self.drag_order = Vec::new();
        self.band = false;
        self.resizing = None;
    }

    fn select_all(&mut self, order: Vec<DlId>)
        ensures
            final(self)@ == old(self)@.select_all(order@),
    {
        self.anchor = if order.len() > 0 {
            Some(order[0])
        } else {
            None
        };
        self.selected = order;
    }

    pub fn sort_by(&mut self, key: SortKey)
        ensures
            final(self)@ == old(self)@.sort_by(key),
    {
        if self.sort.0 == key {
            self.sort = (key, !self.sort.1);
        } else {
            self.sort = (key, true);
        }
    }
}

impl AppModel {
    pub open spec fn with_list(self, l: ListUiModel) -> AppModel {
        AppModel { list: l, ..self }
    }

    /// A click on a row. Command toggles it, Shift extends to it, and a plain
    /// click picks it; a double click opens what belongs to it.
    #[verifier::opaque]
    pub open spec fn row_click(self, id: DlId, ms: u64) -> AppModel {
        if self.mods.command || self.mods.control {
            self.with_list(self.list.toggle(id))
        } else if self.mods.shift {
            self.with_list(self.list.extend(id, self.visible_ids()))
        } else {
            let double = self.list.doubles(id, ms);
            let s = self.with_list(self.list.pick(id, self.visible_ids(), ms));
            if double {
                s.open_row(id)
            } else {
                s
            }
        }
    }

    /// A running transfer shows its progress box, any other row its properties.
    pub open spec fn open_row(self, id: DlId) -> AppModel {
        match item_of(self.items(), id) {
            Some(d) => if d.state.active() {
                self.open_window(WinKind::Progress(id))
            } else {
                self.close_menus().show_properties()
            },
            None => self,
        }
    }

    #[verifier::opaque]
    pub open spec fn select_all(self) -> AppModel {
        self.with_list(self.list.select_all(self.visible_ids()))
    }

    #[verifier::opaque]
    pub open spec fn empty_press(self) -> AppModel {
        self.with_list(self.list.press_empty(self.visible_ids()))
    }

    /// The button is up. A column that was dragged is stored, and so is a row
    /// that was moved within its queue.
    #[verifier::opaque]
    pub open spec fn mouse_up(self) -> AppModel {
        let s = self.end_column_drag().end_queue_drag();
        s.with_list(s.list.release())
    }

    pub open spec fn end_column_drag(self) -> AppModel {
        if self.list.resizing is Some {
            self.emit(EffectModel::StoreColumnWidths).save_config()
        } else {
            self
        }
    }

    pub open spec fn end_queue_drag(self) -> AppModel {
        if self.sch.drag is Some {
            AppModel {
                sch: crate::state::SchStateModel { drag: None, ..self.sch },
                ..self
            }.save_state()
        } else {
            self
        }
    }
}

impl App {
    /// Takes the state of the table out, to be put back after a change.
    pub(crate) fn take_list(&mut self) -> (r: ListUi)
        ensures
            r@ == old(self)@.list,
            forall|l: ListUiModel| #[trigger] final(self)@.with_list(l) == old(self)@.with_list(l),
    {
        proof {
            reveal(App::model);
        }
        let mut r = ListUi {
            selected: Vec::new(),
            anchor: None,
            last_click: None,
            press: None,
            drag: false,
            from_empty: false,
            band: false,
            hover_row: None,
            hover_col: None,
            drag_order: Vec::new(),
            resizing: None,
            columns: 0,
            sort: (SortKey::Name, true),
        };
        core::mem::swap(&mut r, &mut self.list);
        r
    }

    pub(crate) fn put_list(&mut self, l: ListUi)
        ensures
            final(self)@ == old(self)@.with_list(l@),
    {
        proof {
            reveal(App::model);
        }
        self.list = l;
    }

    pub(crate) fn modifiers(&self) -> (r: crate::app::Mods)
        ensures
            r == self@.mods,
    {
        proof {
            reveal(App::model);
        }
        self.mods
    }

    fn open_row(&mut self, id: DlId)
        ensures
            final(self)@ == old(self)@.open_row(id),
    {
        let st = match self.item(id) {
            Some(d) => d.state,
            None => return ,
        };
        if st.is_active() {
            self.open_window(WinKind::Progress(id));
        } else {
            self.close_menus();
            self.show_properties();
        }
    }

    pub(crate) fn row_click(&mut self, id: DlId, ms: u64)
        ensures
            final(self)@ == old(self)@.row_click(id, ms),
    {
        proof {
            reveal(AppModel::row_click);
        }
        let m = self.modifiers();
        if m.command || m.control {
            let mut l = self.take_list();
            l.toggle(id);
            self.put_list(l);
        } else if m.shift {
            let order = self.visible_ids();
            let mut l = self.take_list();
            l.extend(id, &order);
            self.put_list(l);
        } else {
            let order = self.visible_ids();
            let mut l = self.take_list();
            let double = l.doubles(id, ms);
            l.pick(id, order, ms);
            self.put_list(l);
            if double {
                self.open_row(id);
            }
        }
    }

    pub(crate) fn select_all(&mut self)
        ensures
            final(self)@ == old(self)@.select_all(),
    {
        proof {
            reveal(AppModel::select_all);
        }
        let order = self.visible_ids();
        let mut l = self.take_list();
        l.select_all(order);
        self.put_list(l);
    }

    pub(crate) fn empty_press(&mut self)
        ensures
            final(self)@ == old(self)@.empty_press(),
    {
        proof {
            reveal(AppModel::empty_press);
        }
        let order = self.visible_ids();
        let mut l = self.take_list();
        l.press_empty(order);
        self.put_list(l);
    }

    fn column_dragged(&self) -> (r: bool)
        ensures
            r == (self@.list.resizing is Some),
    {
        proof {
            reveal(App::model);
        }
        self.list.resizing.is_some()
    }

    fn end_column_drag(&mut self)
        ensures
            final(self)@ == old(self)@.end_column_drag(),
    {
        if self.column_dragged() {
            self.emit(Effect::StoreColumnWidths);
            self.save_config();
        }
    }

    fn end_queue_drag(&mut self)
        ensures
            final(self)@ == old(self)@.end_queue_drag(),
    {
        proof {
            reveal(App::model);
        }
        if self.sch.drag.is_some() {
            self.sch.drag = None;
            self.dirty.state = true;
        }
    }

    pub(crate) fn mouse_up(&mut self)
        ensures
            final(self)@ == old(self)@.mouse_up(),
    {
        proof {
            reveal(AppModel::mouse_up);
        }
        self.end_column_drag();
        self.end_queue_drag();
        let mut l = self.take_list();
        l.release();
        self.put_list(l);
    }
}

// ---------------------------------------------------------------------- laws

proof fn lemma_shown_places(v: Items, sel: TreeSelModel)
    ensures
        forall|i: int|
            0 <= i < shown_places(v, sel).len() ==> 0 <= #[trigger] shown_places(v, sel)[i] < v.len()
                && shown(v[shown_places(v, sel)[i]], sel),
    decreases v.len(),
{
    if v.len() > 0 {
        let t = v.drop_last();
        lemma_shown_places(t, sel);
        let r = shown_places(t, sel);
        assert forall|i: int| 0 <= i < shown_places(v, sel).len() implies 0 <= #[trigger] shown_places(
            v,
            sel,
        )[i] < v.len() && shown(v[shown_places(v, sel)[i]], sel) by {
            if i < r.len() {
                assert(shown_places(v, sel)[i] == r[i]);
                assert(t[r[i]] == v[r[i]]);
            }
        }
    }
}

/// The table shows only rows that belong to what the tree stands at.
pub proof fn the_table_shows_what_the_tree_selects(
    v: Items,
    sel: TreeSelModel,
    sort: (SortKey, bool),
    t: Texts,
    i: int,
)
    requires
        0 <= i < visible_places(v, sel, sort, t).len(),
    ensures
        0 <= visible_places(v, sel, sort, t)[i] < v.len(),
        shown(v[visible_places(v, sel, sort, t)[i]], sel),
{
    lemma_shown_places(v, sel);
    let p = shown_places(v, sel);
    let keys = Seq::new(p.len(), |i: int| row_key(v[p[i]], sort.0, t));
    crate::order::sorting_is_a_stable_permutation(keys, sort.1);
    crate::order::order_is_in_range(keys, sort.1, i);
}

/// Clicking a column twice turns its order round and back again.
pub proof fn sorting_twice_flips_back(l: ListUiModel, key: SortKey)
    ensures
        l.sort_by(key).sort_by(key).sort_by(key).sort == l.sort_by(key).sort,
        l.sort_by(key).sort_by(key).sort.1 == !l.sort_by(key).sort.1,
{
}

/// Toggling a row that is not selected selects it, and toggling it again
/// leaves the selection as it was.
pub proof fn toggling_twice_restores_the_selection(l: ListUiModel, id: DlId)
    requires
        !l.selected.contains(id),
    ensures
        l.toggle(id).selected.contains(id),
        l.toggle(id).toggle(id).selected == l.selected,
{
    let s = l.selected.push(id);
    assert(s[s.len() - 1] == id);
    assert(s.drop_last() =~= l.selected);
    lemma_without_absent(l.selected, id);
}

proof fn lemma_without_absent(v: Seq<DlId>, id: DlId)
    requires
        !v.contains(id),
    ensures
        ids_without(v, id) == v,
    decreases v.len(),
{
    if v.len() > 0 {
        let t = v.drop_last();
        assert(!t.contains(id)) by {
            if t.contains(id) {
                let i = choose|i: int| 0 <= i < t.len() && t[i] == id;
                assert(v[i] == id);
            }
        }
        lemma_without_absent(t, id);
        assert(v[v.len() - 1] == v.last());
        assert(t.push(v.last()) =~= v);
    }
}

} // verus!
