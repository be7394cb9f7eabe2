//! The batch dialog: reading the pasted links, probing them, and adding what is
//! ticked.
use crate::app::starting::or_else;
use crate::app::{App, AppModel};
use crate::assoc::{find_kept, keep, kept};
use crate::batch::{
    batch_rows, link_name, links_of, name_of_link, parse_links, table, BatchRow, BatchRowModel,
};
use crate::downloads::Items;
use crate::edits::{
    set_metalink, set_name, set_stream, to_category, to_dir, to_metalink, to_name, to_stream,
};
use crate::effect::{Effect, EffectModel, ProbeUse};
use crate::engine::{
    file_name_from_url, metalink_address, names_metalink, provisional_name, LinkMeta, LinkMetaModel,
    MetalinkFile, MetalinkFileModel, MetalinkProbe, MetalinkProbeModel,
};
use crate::model::{DlId, DlState, MetalinkInfo, StreamInfo, StreamInfoModel};
use crate::names::{manifest_address, names_manifest, stream_base_name, stream_name};
use crate::rules::{host_blocked, site_blocked};
use crate::state::{BatchState, BatchStateModel, ConfirmKind, ConfirmKindModel, WinKind};
use crate::text::{
    ascii_lower, before_either, cat, cat3, chars_of, decimal, ends, ends_with, lower, number, same,
    split, sub_text, up_to_either, views,
};
use crate::twin::Twin;
use vstd::prelude::*;

verus! {

// ------------------------------------------------------------------- the state

impl AppModel {
    pub open spec fn with_batch(self, b: BatchStateModel) -> AppModel {
        AppModel { batch: b, ..self }
    }

    /// The dialog comes up empty.
    pub open spec fn new_batch(self) -> AppModel {
        self.with_batch(
            BatchStateModel { category: "General"@, ..BatchStateModel::empty() },
        ).open_window(WinKind::Batch)
    }
}

impl App {
    /// Takes the state of the dialog out, to be put back after a change.
    pub(crate) fn take_batch(&mut self) -> (r: BatchState)
        ensures
            r@ == old(self)@.batch,
            final(self)@ == old(self)@.with_batch(BatchStateModel::empty()),
    {
        proof {
            reveal(App::model);
        }
        let mut r = BatchState::default();
        core::mem::swap(&mut r, &mut self.batch);
        r
    }

    pub(crate) fn put_batch(&mut self, b: BatchState)
        ensures
            final(self)@ == old(self)@.with_batch(b@),
    {
        proof {
            reveal(App::model);
        }
        self.batch = b;
    }

    pub(crate) fn new_batch(&mut self)
        ensures
            final(self)@ == old(self)@.new_batch(),
    {
        let mut b = BatchState::default();
        b.category = "General".to_owned();
        self.put_batch(b);
        self.open_window(WinKind::Batch);
    }
}

// --------------------------------------------------------------------- reading

impl BatchStateModel {
    /// The links of the text, read unless they have been.
    pub open spec fn parse(self, sites: Seq<char>) -> BatchStateModel {
        if self.parsed {
            self
        } else {
            BatchStateModel {
                checks: links_of(split(self.text, '\n'), self.checks, sites),
                parsed: true,
                ..self
            }
        }
    }

    /// Another text was typed or pasted.
    pub open spec fn set_text(self, text: Seq<char>, sites: Seq<char>) -> BatchStateModel {
        BatchStateModel { text, parsed: false, ..self }.parse(sites)
    }
}

fn parse(b: &mut BatchState, sites: &str)
    ensures
        final(b)@ == old(b)@.parse(sites@),
{
    if !b.parsed {
        let checks = parse_links(&b.text, &b.checks, sites);
        b.checks = checks;
        b.parsed = true;
    }
}

/// The probe of one pasted link: a mirror list is read, anything else measured.
pub open spec fn link_probe(url: Seq<char>, ua: Seq<char>) -> EffectModel {
    if names_metalink(url) {
        EffectModel::ProbeMetalink { batch: true, url, user_agent: ua }
    } else {
        EffectModel::ProbeLink {
            what: ProbeUse::Batch,
            url,
            user_agent: ua,
            auth: None,
            cookies: None,
            referer: None,
        }
    }
}

/// The probes of the links that have no name yet.
pub open spec fn link_probes(
    checks: Seq<(Seq<char>, bool)>,
    names: Map<Seq<char>, Seq<char>>,
    ua: Seq<char>,
) -> Seq<EffectModel>
    decreases checks.len(),
{
    if checks.len() == 0 {
        seq![]
    } else {
        let r = link_probes(checks.drop_last(), names, ua);
        let url = checks.last().0;
        if kept(names, url) is Some {
            r
        } else {
            r.push(link_probe(url, ua))
        }
    }
}

fn probe_for(url: &String, ua: &String) -> (r: Effect)
    ensures
        r@ == link_probe(url@, ua@),
{
    if metalink_address(url) {
        Effect::ProbeMetalink { batch: true, url: url.clone(), user_agent: ua.clone() }
    } else {
        Effect::ProbeLink {
            what: ProbeUse::Batch,
            url: url.clone(),
            user_agent: ua.clone(),
            auth: None,
            cookies: None,
            referer: None,
        }
    }
}

fn probes_for(b: &BatchState, ua: &String) -> (r: Vec<Effect>)
    ensures
        r.deep_view() == link_probes(b@.checks, b@.names, ua@),
{
    let ghost all = b@.checks;
    let ghost names = b@.names;
    let mut r: Vec<Effect> = Vec::new();
    let mut i: usize = 0;
    assert(all.take(0) =~= seq![]);
    assert(r.deep_view() =~= seq![]);
    while i < b.checks.len()
        invariant
            i <= b.checks@.len(),
            all == b@.checks,
            names == b@.names,
            all.len() == b.checks@.len(),
            r.deep_view() == link_probes(all.take(i as int), names, ua@),
        decreases b.checks.len() - i,
    {
        proof {
            assert(all.take(i + 1).drop_last() =~= all.take(i as int));
            assert(all.take(i + 1).last() == b.checks@[i as int].deep_view());
        }
        if find_kept(&b.names, &b.checks[i].0).is_none() {
            let ghost before = r.deep_view();
            let e = probe_for(&b.checks[i].0, ua);
            r.push(e);
            assert(r.deep_view() =~= before.push(e@));
        }
        i += 1;
    }
    assert(all.take(i as int) =~= all);
    r
}

/// `text` with `piece` in place of its characters `from` to `to`; places behind
/// its end stand for its end.
pub open spec fn pasted(text: Seq<char>, from: int, to: int, piece: Seq<char>) -> Seq<char> {
    let a = if from > text.len() {
        text.len() as int
    } else {
        from
    };
    let b = if to > text.len() {
        text.len() as int
    } else if to < a {
        a
    } else {
        to
    };
    text.take(a) + piece + text.skip(b)
}

/// Pastes `piece` into a text box that holds `text`. The caret stands at `from`,
/// and what is selected ends at `to`.
pub fn paste(text: &str, from: usize, to: usize, piece: &str) -> (r: String)
    ensures
        r@ == pasted(text@, from as int, to as int, piece@),
{
    let c = chars_of(text);
    let a: usize = if from > c.len() {
        c.len()
    } else {
        from
    };
    let b: usize = if to > c.len() {
        c.len()
    } else if to < a {
        a
    } else {
        to
    };
    let front = sub_text(&c, 0, a);
    let back = sub_text(&c, b, c.len());
    assert(front@ =~= text@.take(a as int));
    assert(back@ =~= text@.skip(b as int));
    cat3(&front, piece, &back)
}

impl AppModel {
    pub open spec fn sites(self) -> Seq<char> {
        self.cfg.settings.dont_start_sites
    }

    #[verifier::opaque]
    pub open spec fn parse_batch(self) -> AppModel {
        self.with_batch(self.batch.parse(self.sites()))
    }

    #[verifier::opaque]
    pub open spec fn batch_edit(self, text: Seq<char>) -> AppModel {
        self.with_batch(self.batch.set_text(text, self.sites()))
    }

    /// A text was loaded: its links are read, and each is probed.
    #[verifier::opaque]
    pub open spec fn batch_loaded(self, text: Seq<char>) -> AppModel {
        let s = self.batch_edit(text);
        s.emit_all(link_probes(s.batch.checks, s.batch.names, s.cfg.settings.user_agent))
    }
}

impl App {
    pub(crate) fn sites(&self) -> (r: String)
        ensures
            r@ == self@.sites(),
    {
        proof {
            reveal(App::model);
        }
        self.cfg.settings.dont_start_sites.clone()
    }

    /// What the dialog's text box holds.
    pub(crate) fn batch_text(&self) -> (r: String)
        ensures
            r@ == self@.batch.text,
    {
        proof {
            reveal(App::model);
        }
        self.batch.text.clone()
    }

    pub(crate) fn parse_batch(&mut self)
        ensures
            final(self)@ == old(self)@.parse_batch(),
    {
        proof {
            reveal(AppModel::parse_batch);
        }
        let sites = self.sites();
        let mut b = self.take_batch();
        parse(&mut b, &sites);
        self.put_batch(b);
    }

    pub(crate) fn batch_edit(&mut self, text: String)
        ensures
            final(self)@ == old(self)@.batch_edit(text@),
    {
        proof {
            reveal(AppModel::batch_edit);
        }
        let sites = self.sites();
        let mut b = self.take_batch();
        b.text = text;
        b.parsed = false;
        parse(&mut b, &sites);
        self.put_batch(b);
    }

    fn batch_probes(&self) -> (r: Vec<Effect>)
        ensures
            r.deep_view() == link_probes(
                self@.batch.checks,
                self@.batch.names,
                self@.cfg.settings.user_agent,
            ),
    {
        proof {
            reveal(App::model);
        }
        probes_for(&self.batch, &self.cfg.settings.user_agent)
    }

    pub(crate) fn batch_loaded(&mut self, text: String)
        ensures
            final(self)@ == old(self)@.batch_loaded(text@),
    {
        proof {
            reveal(AppModel::batch_loaded);
        }
        self.batch_edit(text);
        let probes = self.batch_probes();
        self.emit_all(probes);
    }
}

// -------------------------------------------------------------------- probes

impl BatchStateModel {
    pub open spec fn set_size(self, url: Seq<char>, size: u64) -> BatchStateModel {
        BatchStateModel { sizes: self.sizes.insert(url, size), ..self }
    }

    pub open spec fn set_name(self, url: Seq<char>, name: Seq<char>) -> BatchStateModel {
        BatchStateModel { names: self.names.insert(url, name), ..self }
    }

    /// What a probe learned about a link.
    pub open spec fn measured(self, url: Seq<char>, meta: LinkMetaModel) -> BatchStateModel {
        let a = match meta.size {
            Some(s) => self.set_size(url, s),
            None => self,
        };
        if meta.file_name.len() > 0 {
            a.set_name(url, meta.file_name)
        } else {
            a
        }
    }

    /// A link turned out to be a mirror list: the row shows what it will
    /// actually add, with the size of all its files.
    pub open spec fn listed(
        self,
        url: Seq<char>,
        doc: MetalinkProbeModel,
        word: Seq<char>,
    ) -> BatchStateModel {
        let total = total_size(doc.files);
        let a = if total > 0 {
            self.set_size(url, total)
        } else {
            self
        };
        let b = a.set_name(
            url,
            if doc.files.len() == 1 {
                doc.files[0].name
            } else {
                word + " ("@ + decimal(doc.files.len()) + " files)"@
            },
        );
        BatchStateModel { metalinks: b.metalinks.insert(url, doc), ..b }
    }

    /// A link that looked like a mirror list is none: the row is filled in from
    /// the address alone.
    pub open spec fn unlisted(self, url: Seq<char>) -> BatchStateModel {
        if kept(self.names, url) is Some {
            self
        } else {
            self.set_name(url, provisional_name(url))
        }
    }
}

/// The sizes of the files of a mirror list together, as a 64-bit counter shows
/// it.
pub open spec fn total_size(files: Seq<MetalinkFileModel>) -> u64
    decreases files.len(),
{
    if files.len() == 0 {
        0
    } else {
        let r = total_size(files.drop_last());
        match files.last().info.size {
            Some(s) => if r + s <= u64::MAX {
                (r + s) as u64
            } else {
                u64::MAX
            },
            None => r,
        }
    }
}

fn sum_sizes(files: &Vec<MetalinkFile>) -> (r: u64)
    ensures
        r == total_size(files.deep_view()),
{
    let ghost all = files.deep_view();
    let mut r: u64 = 0;
    let mut i: usize = 0;
    assert(all.take(0) =~= seq![]);
    while i < files.len()
        invariant
            i <= files@.len(),
            all == files.deep_view(),
            r == total_size(all.take(i as int)),
        decreases files.len() - i,
    {
        proof {
            assert(all.take(i + 1).drop_last() =~= all.take(i as int));
            assert(all.take(i + 1).last() == files@[i as int]@);
        }
        if let Some(s) = files[i].info.size {
            r = r.saturating_add(s);
        }
        i += 1;
    }
    assert(all.take(i as int) =~= all);
    r
}

fn take_measured(b: &mut BatchState, url: String, meta: LinkMeta)
    ensures
        final(b)@ == old(b)@.measured(url@, meta@),
{
    if let Some(s) = meta.size {
        keep(&mut b.sizes, url.clone(), s);
    }
    if !meta.file_name.as_str().is_empty() {
        keep(&mut b.names, url, meta.file_name);
    }
}

fn take_listed(b: &mut BatchState, url: String, doc: MetalinkProbe, word: &String)
    ensures
        final(b)@ == old(b)@.listed(url@, doc@, word@),
{
    let total = sum_sizes(&doc.files);
    if total > 0 {
        keep(&mut b.sizes, url.clone(), total);
    }
    let n = doc.files.len();
    let name = if n == 1 {
        assert(doc.files.deep_view()[0] == doc.files@[0]@);
        doc.files[0].name.clone()
    } else {
        cat(&cat3(word, " (", &number(n as u64)), " files)")
    };
    keep(&mut b.names, url.clone(), name);
    keep(&mut b.metalinks, url, doc);
}

fn take_unlisted(b: &mut BatchState, url: String)
    ensures
        final(b)@ == old(b)@.unlisted(url@),
{
    if find_kept(&b.names, &url).is_none() {
        let name = file_name_from_url(&url);
        keep(&mut b.names, url, name);
    }
}

impl AppModel {
    /// A probe of a pasted link answered. A redirector that turns out to be a
    /// mirror list is read as one.
    #[verifier::opaque]
    pub open spec fn batch_probed(self, url: Seq<char>, meta: Option<LinkMetaModel>) -> AppModel {
        match meta {
            Some(m) => if m.is_metalink && kept(self.batch.metalinks, url) is None {
                self.emit(
                    EffectModel::ProbeMetalink {
                        batch: true,
                        url,
                        user_agent: self.cfg.settings.user_agent,
                    },
                )
            } else {
                self.with_batch(self.batch.measured(url, m))
            },
            None => self,
        }
    }

    #[verifier::opaque]
    pub open spec fn batch_metalink_probed(
        self,
        url: Seq<char>,
        doc: Option<MetalinkProbeModel>,
    ) -> AppModel {
        self.with_batch(
            match doc {
                Some(d) => self.batch.listed(url, d, self.tr("Mirror list"@)),
                None => self.batch.unlisted(url),
            },
        )
    }
}

impl App {
    fn knows_list(&self, url: &str) -> (r: bool)
        ensures
            r == (kept(self@.batch.metalinks, url@) is Some),
    {
        proof {
            reveal(App::model);
        }
        find_kept(&self.batch.metalinks, url).is_some()
    }

    fn ask_for_list(&mut self, url: String)
        ensures
            final(self)@ == old(self)@.emit(
                (EffectModel::ProbeMetalink {
                    batch: true,
                    url: url@,
                    user_agent: old(self)@.cfg.settings.user_agent,
                }),
            ),
    {
        let user_agent = self.user_agent();
        self.emit(Effect::ProbeMetalink { batch: true, url, user_agent });
    }

    fn measure_link(&mut self, url: String, m: LinkMeta)
        ensures
            final(self)@ == old(self)@.with_batch(old(self)@.batch.measured(url@, m@)),
    {
        let mut b = self.take_batch();
        take_measured(&mut b, url, m);
        self.put_batch(b);
    }

    pub(crate) fn batch_probed(&mut self, url: String, meta: Option<LinkMeta>)
        ensures
            final(self)@ == old(self)@.batch_probed(url@, meta.deep_view()),
    {
        proof {
            reveal(AppModel::batch_probed);
        }
        let m = match meta {
            Some(m) => m,
            None => return ,
        };
        if m.is_metalink && !self.knows_list(&url) {
            self.ask_for_list(url);
        } else {
            self.measure_link(url, m);
        }
    }

    pub(crate) fn batch_metalink_probed(&mut self, url: String, doc: Option<MetalinkProbe>)
        ensures
            final(self)@ == old(self)@.batch_metalink_probed(url@, doc.deep_view()),
    {
        proof {
            reveal(AppModel::batch_metalink_probed);
        }
        let word = self.tr("Mirror list");
        let mut b = self.take_batch();
        match doc {
            Some(d) => take_listed(&mut b, url, d, &word),
            None => take_unlisted(&mut b, url),
        }
        self.put_batch(b);
    }
}

// ------------------------------------------------------------------- the table

impl AppModel {
    /// The folder that a link of the list saves into.
    pub open spec fn batch_dir(self, url: Seq<char>) -> Seq<char> {
        let b = self.batch;
        if b.to_dir {
            b.dir
        } else {
            let cat = if b.to_category {
                Some(b.category)
            } else {
                self.category(link_name(b, url))
            };
            match self.cat_dir_or(cat) {
                Some(d) => d,
                None => seq![],
            }
        }
    }

    pub open spec fn batch_dirs(self) -> Seq<Seq<char>> {
        let c = self.batch.checks;
        Seq::new(c.len(), |i: int| self.batch_dir(c[i].0))
    }

    pub open spec fn batch_blocks(self) -> Seq<bool> {
        let c = self.batch.checks;
        Seq::new(c.len(), |i: int| host_blocked(c[i].0, self.sites()))
    }

    /// The table, filtered and ordered as shown.
    #[verifier::opaque]
    pub open spec fn batch_table(self) -> Seq<BatchRowModel> {
        table(self.batch, self.batch_dirs(), self.batch_blocks(), self.lang)
    }
}

impl App {
    fn link_count(&self) -> (r: usize)
        ensures
            r == self@.batch.checks.len(),
    {
        proof {
            reveal(App::model);
        }
        self.batch.checks.len()
    }

    fn link_at(&self, i: usize) -> (r: (String, String))
        requires
            i < self@.batch.checks.len(),
        ensures
            r.0@ == self@.batch.checks[i as int].0,
            r.1@ == link_name(self@.batch, r.0@),
    {
        proof {
            reveal(App::model);
        }
        assert(self.batch@.checks[i as int] == self.batch.checks@[i as int].deep_view());
        let url = self.batch.checks[i].0.clone();
        let name = name_of_link(&self.batch, &url);
        (url, name)
    }

    fn save_choice(&self) -> (r: (Option<String>, Option<String>))
        ensures
            r.0.deep_view() == (if self@.batch.to_dir {
                Some(self@.batch.dir)
            } else {
                None
            }),
            r.1.deep_view() == (if self@.batch.to_category {
                Some(self@.batch.category)
            } else {
                None
            }),
    {
        proof {
            reveal(App::model);
        }
        (
            if self.batch.to_dir {
                Some(self.batch.dir.clone())
            } else {
                None
            },
            if self.batch.to_category {
                Some(self.batch.category.clone())
            } else {
                None
            },
        )
    }

    fn batch_dir(&self, url: &String, name: &String) -> (r: String)
        requires
            name@ == link_name(self@.batch, url@),
        ensures
            r@ == self@.batch_dir(url@),
    {
        let (dir, cat) = self.save_choice();
        match dir {
            Some(d) => d,
            None => {
                let cat = match cat {
                    Some(c) => Some(c),
                    None => self.category(name),
                };
                match self.cat_dir_or(&cat) {
                    Some(d) => d,
                    None => String::new(),
                }
            },
        }
    }

    fn batch_places(&self) -> (r: (Vec<String>, Vec<bool>))
        ensures
            views(r.0@) == self@.batch_dirs(),
            r.1@ == self@.batch_blocks(),
    {
        let n = self.link_count();
        let sites = self.sites();
        let mut dirs: Vec<String> = Vec::new();
        let mut blocks: Vec<bool> = Vec::new();
        let mut i: usize = 0;
        while i < n
            invariant
                i <= n,
                n == self@.batch.checks.len(),
                sites@ == self@.sites(),
                dirs@.len() == i,
                blocks@.len() == i,
                forall|k: int|
                    0 <= k < i ==> (#[trigger] dirs@[k])@ == self@.batch_dir(
                        self@.batch.checks[k].0,
                    ),
                forall|k: int|
                    0 <= k < i ==> #[trigger] blocks@[k] == host_blocked(
                        self@.batch.checks[k].0,
                        sites@,
                    ),
            decreases n - i,
        {
            let (url, name) = self.link_at(i);
            dirs.push(self.batch_dir(&url, &name));
            blocks.push(site_blocked(&url, &sites));
            i += 1;
        }
        assert(views(dirs@) =~= self@.batch_dirs());
        assert(blocks@ =~= self@.batch_blocks());
        (dirs, blocks)
    }

    /// The batch dialog's table, filtered and ordered as shown.
    pub fn batch_rows(&self) -> (r: Vec<BatchRow>)
        ensures
            r.deep_view() == self@.batch_table(),
    {
        proof {
            reveal(App::model);
            reveal(AppModel::batch_table);
        }
        let (dirs, blocks) = self.batch_places();
        assert(views(dirs@).len() == dirs@.len());
        assert(self.batch@.checks.len() == self.batch.checks@.len());
        batch_rows(&self.batch, &dirs, &blocks, &self.lang)
    }
}

// ------------------------------------------------------------------ check boxes

/// `checks` with the ticks of the given rows set to `b`.
pub open spec fn ticked(
    checks: Seq<(Seq<char>, bool)>,
    rows: Seq<BatchRowModel>,
    b: bool,
) -> Seq<(Seq<char>, bool)>
    decreases rows.len(),
{
    if rows.len() == 0 {
        checks
    } else {
        tick_one(ticked(checks, rows.drop_last(), b), rows.last().idx as int, b)
    }
}

pub open spec fn tick_one(checks: Seq<(Seq<char>, bool)>, i: int, b: bool) -> Seq<
    (Seq<char>, bool),
> {
    if 0 <= i < checks.len() {
        checks.update(i, (checks[i].0, b))
    } else {
        checks
    }
}

fn set_tick(checks: &mut Vec<(String, bool)>, i: usize, b: bool)
    ensures
        final(checks).deep_view() == tick_one(old(checks).deep_view(), i as int, b),
{
    let ghost before = checks.deep_view();
    if i < checks.len() {
        let url = checks[i].0.clone();
        assert(before[i as int] == checks@[i as int].deep_view());
        checks.set(i, (url, b));
        assert(checks.deep_view() =~= before.update(i as int, (before[i as int].0, b)));
    }
}

impl AppModel {
    #[verifier::opaque]
    pub open spec fn batch_check(self, i: int, b: bool) -> AppModel {
        self.with_batch(
            BatchStateModel { checks: tick_one(self.batch.checks, i, b), ..self.batch },
        )
    }

    /// Check All ticks what the table shows, and nothing that it hides.
    #[verifier::opaque]
    pub open spec fn batch_check_all(self, b: bool) -> AppModel {
        let s = self.parse_batch();
        s.with_batch(
            BatchStateModel { checks: ticked(s.batch.checks, s.batch_table(), b), ..s.batch },
        )
    }
}

impl App {
    pub(crate) fn batch_check(&mut self, i: usize, b: bool)
        ensures
            final(self)@ == old(self)@.batch_check(i as int, b),
    {
        proof {
            reveal(AppModel::batch_check);
        }
        let mut st = self.take_batch();
        set_tick(&mut st.checks, i, b);
        self.put_batch(st);
    }

    pub(crate) fn batch_check_all(&mut self, b: bool)
        ensures
            final(self)@ == old(self)@.batch_check_all(b),
    {
        proof {
            reveal(AppModel::batch_check_all);
        }
        self.parse_batch();
        let rows = self.batch_rows();
        let mut st = self.take_batch();
        tick_rows(&mut st.checks, &rows, b);
        self.put_batch(st);
    }
}

fn tick_rows(checks: &mut Vec<(String, bool)>, rows: &Vec<BatchRow>, b: bool)
    ensures
        final(checks).deep_view() == ticked(old(checks).deep_view(), rows.deep_view(), b),
{
    let ghost before = checks.deep_view();
    let ghost all = rows.deep_view();
    let mut i: usize = 0;
    assert(all.take(0) =~= seq![]);
    while i < rows.len()
        invariant
            i <= rows@.len(),
            all == rows.deep_view(),
            checks.deep_view() == ticked(before, all.take(i as int), b),
        decreases rows.len() - i,
    {
        proof {
            assert(all.take(i + 1).drop_last() =~= all.take(i as int));
            assert(all.take(i + 1).last() == rows@[i as int]@);
        }
        set_tick(checks, rows[i].idx, b);
        i += 1;
    }
    assert(all.take(i as int) =~= all);
}

// ------------------------------------------------------------------------- ok

/// What the dialog asks of everything it adds.
#[derive(Debug)]
pub struct BatchOrder {
    pub category: Option<String>,
    pub dir: Option<String>,
    pub height: Option<u32>,
    pub ts: bool,
}

/// The model of [`BatchOrder`].
pub struct BatchOrderModel {
    pub category: Option<Seq<char>>,
    pub dir: Option<Seq<char>>,
    pub height: Option<u32>,
    /// Streams are saved as MPEG-TS rather than MP4.
    pub ts: bool,
}

impl View for BatchOrder {
    type V = BatchOrderModel;

    open spec fn view(&self) -> BatchOrderModel {
        BatchOrderModel {
            category: self.category.deep_view(),
            dir: self.dir.deep_view(),
            height: self.height,
            ts: self.ts,
        }
    }
}

impl BatchStateModel {
    pub open spec fn wish(self) -> BatchOrderModel {
        BatchOrderModel {
            category: if self.to_category {
                Some(self.category)
            } else {
                None
            },
            dir: if self.to_dir {
                Some(self.dir)
            } else {
                None
            },
            height: self.stream_quality.lines(),
            ts: lower(self.stream_container) == "ts"@,
        }
    }
}

/// The stream that a manifest among the links becomes: the one quality choice
/// is resolved against each manifest's own ladder when it starts.
pub open spec fn batch_stream(url: Seq<char>, w: BatchOrderModel) -> StreamInfoModel {
    StreamInfoModel {
        protocol: if ends(lower(up_to_either(url, '?', '#')), ".mpd"@) {
            "dash"@
        } else {
            "hls"@
        },
        variant_url: None,
        height: w.height,
        bandwidth: None,
        container: if w.ts {
            "TS"@
        } else {
            "MP4"@
        },
        referer: None,
        user_agent: None,
        live: false,
        max_seconds: None,
    }
}

/// The file name of a stream.
pub open spec fn stream_file(url: Seq<char>, ts: bool) -> Seq<char> {
    stream_name(url) + "."@ + if ts {
        "ts"@
    } else {
        "mp4"@
    }
}

pub(crate) fn stream_file_name(url: &str, ts: bool) -> (r: String)
    ensures
        r@ == stream_file(url@, ts),
{
    cat3(
        &stream_base_name(url),
        ".",
        if ts {
            "ts"
        } else {
            "mp4"
        },
    )
}

/// Whether a row with this address is in the list.
pub open spec fn has_url(v: Items, url: Seq<char>) -> bool {
    exists|i: int| 0 <= i < v.len() && (#[trigger] v[i]).url == url
}

impl AppModel {
    /// One file of a mirror list is added, unless its address is in the list.
    #[verifier::opaque]
    pub open spec fn add_batch_file(
        self,
        f: MetalinkFileModel,
        queue: Seq<char>,
        w: BatchOrderModel,
        now: i64,
    ) -> AppModel {
        if has_url(self.items(), f.primary) {
            self
        } else {
            let id = self.state.next_id;
            let s = self.add_item(f.primary, None, Some(queue), now);
            let cat = or_else(w.category, s.category(f.name));
            let dir = or_else(w.dir, s.cat_dir(cat));
            s.edit_item(id, to_metalink(f.name, f.info)).edit_item(
                id,
                to_category(cat),
            ).move_to(id, dir).set_item_state(id, DlState::Queued)
        }
    }

    /// The row goes into another folder, where one is given.
    pub open spec fn move_to(self, id: DlId, dir: Option<Seq<char>>) -> AppModel {
        match dir {
            Some(p) => self.edit_item(id, to_dir(p)),
            None => self,
        }
    }

    pub open spec fn add_batch_files(
        self,
        files: Seq<MetalinkFileModel>,
        queue: Seq<char>,
        w: BatchOrderModel,
        now: i64,
    ) -> AppModel
        decreases files.len(),
    {
        if files.len() == 0 {
            self
        } else {
            self.add_batch_files(files.drop_last(), queue, w, now).add_batch_file(
                files.last(),
                queue,
                w,
                now,
            )
        }
    }

    /// The row is named by what is known of it, which decides its category.
    pub open spec fn name_row(self, id: DlId, name: Option<Seq<char>>) -> AppModel {
        match name {
            Some(n) if n.len() > 0 => {
                let cat = self.category(n);
                let s = self.edit_item(id, to_name(n));
                (match cat {
                    Some(c) => s.edit_item(id, to_category(cat)),
                    None => s,
                }).move_to(id, self.cat_dir(cat))
            },
            _ => self,
        }
    }

    /// The row is filed under the category that the dialog asks for.
    pub open spec fn override_category(self, id: DlId, cat: Option<Seq<char>>) -> AppModel {
        match cat {
            Some(c) => self.edit_item(id, to_category(cat)).move_to(id, self.cat_dir(cat)),
            None => self,
        }
    }

    pub open spec fn mark_stream(self, id: DlId, si: Option<StreamInfoModel>) -> AppModel {
        match si {
            Some(si) => self.edit_item(id, to_stream(si)),
            None => self,
        }
    }

    /// One link is added.
    #[verifier::opaque]
    pub open spec fn add_batch_link(
        self,
        url: Seq<char>,
        name: Option<Seq<char>>,
        queue: Seq<char>,
        w: BatchOrderModel,
        now: i64,
    ) -> AppModel {
        let id = self.state.next_id;
        let stream = if names_manifest(url) {
            Some(batch_stream(url, w))
        } else {
            None
        };
        self.add_item(url, None, Some(queue), now).mark_stream(id, stream).name_row(
            id,
            if stream is Some {
                Some(stream_file(url, w.ts))
            } else {
                name
            },
        ).override_category(id, w.category).move_to(id, w.dir).set_item_state(id, DlState::Queued)
    }

    /// One ticked row is added: the files of a mirror list, or the link itself.
    #[verifier::opaque]
    pub open spec fn add_batch_row(
        self,
        url: Seq<char>,
        b: BatchStateModel,
        queue: Seq<char>,
        now: i64,
    ) -> AppModel {
        match kept(b.metalinks, url) {
            Some(doc) => self.add_batch_files(doc.files, queue, b.wish(), now),
            None => self.add_batch_link(url, kept(b.names, url), queue, b.wish(), now),
        }
    }

    pub open spec fn add_batch_rows(
        self,
        urls: Seq<Seq<char>>,
        b: BatchStateModel,
        queue: Seq<char>,
        now: i64,
    ) -> AppModel
        decreases urls.len(),
    {
        if urls.len() == 0 {
            self
        } else {
            self.add_batch_rows(urls.drop_last(), b, queue, now).add_batch_row(
                urls.last(),
                b,
                queue,
                now,
            )
        }
    }

    /// What the table shows ticked is added to the main queue; with nothing
    /// ticked the user is told so.
    #[verifier::opaque]
    pub open spec fn batch_ok(self, now: i64) -> AppModel {
        let s = self.parse_batch();
        let urls = ticked_urls(s.batch_table());
        if urls.len() == 0 {
            s.ask(ConfirmKindModel::NoneChecked)
        } else {
            s.with_batch(BatchStateModel::empty()).add_batch_rows(
                urls,
                s.batch,
                "Main download queue"@,
                now,
            ).save_state().close_window(WinKind::Batch)
        }
    }
}

/// The addresses of the ticked rows.
pub open spec fn ticked_urls(rows: Seq<BatchRowModel>) -> Seq<Seq<char>>
    decreases rows.len(),
{
    if rows.len() == 0 {
        seq![]
    } else {
        let r = ticked_urls(rows.drop_last());
        if rows.last().checked {
            r.push(rows.last().url)
        } else {
            r
        }
    }
}

fn urls_ticked(rows: &Vec<BatchRow>) -> (r: Vec<String>)
    ensures
        views(r@) == ticked_urls(rows.deep_view()),
{
    let ghost all = rows.deep_view();
    let mut r: Vec<String> = Vec::new();
    let mut i: usize = 0;
    assert(all.take(0) =~= seq![]);
    assert(views(r@) =~= seq![]);
    while i < rows.len()
        invariant
            i <= rows@.len(),
            all == rows.deep_view(),
            views(r@) == ticked_urls(all.take(i as int)),
        decreases rows.len() - i,
    {
        proof {
            assert(all.take(i + 1).drop_last() =~= all.take(i as int));
            assert(all.take(i + 1).last() == rows@[i as int]@);
        }
        if rows[i].checked {
            let ghost before = r@;
            r.push(rows[i].url.clone());
            assert(views(r@) =~= views(before).push(rows@[i as int]@.url));
        }
        i += 1;
    }
    assert(all.take(i as int) =~= all);
    r
}

fn wish_of(b: &BatchState) -> (r: BatchOrder)
    ensures
        r@ == b@.wish(),
{
    BatchOrder {
        category: if b.to_category {
            Some(b.category.clone())
        } else {
            None
        },
        dir: if b.to_dir {
            Some(b.dir.clone())
        } else {
            None
        },
        height: b.stream_quality.height(),
        ts: same(&ascii_lower(&b.stream_container), "ts"),
    }
}

fn stream_for(url: &str, w: &BatchOrder) -> (r: StreamInfo)
    ensures
        r@ == batch_stream(url@, w@),
{
    StreamInfo {
        protocol: if ends_with(&ascii_lower(&before_either(url, '?', '#')), ".mpd") {
            "dash".to_owned()
        } else {
            "hls".to_owned()
        },
        variant_url: None,
        height: w.height,
        bandwidth: None,
        container: if w.ts {
            "TS".to_owned()
        } else {
            "MP4".to_owned()
        },
        referer: None,
        user_agent: None,
        live: false,
        max_seconds: None,
    }
}

impl App {
    pub(crate) fn has_url(&self, url: &str) -> (r: bool)
        ensures
            r == has_url(self@.items(), url@),
    {
        proof {
            reveal(App::model);
        }
        let v = &self.state.downloads;
        let ghost all = v.deep_view();
        let mut i: usize = 0;
        while i < v.len()
            invariant
                i <= v@.len(),
                all == v.deep_view(),
                all == self@.items(),
                forall|k: int| 0 <= k < i ==> (#[trigger] all[k]).url != url@,
            decreases v.len() - i,
        {
            assert(all[i as int] == v@[i as int]@);
            if same(&v[i].url, url) {
                assert(self@.items()[i as int].url == url@);
                return true;
            }
            i += 1;
        }
        false
    }

    pub(crate) fn edit_metalink(&mut self, id: DlId, name: String, info: MetalinkInfo)
        ensures
            final(self)@ == old(self)@.edit_item(id, to_metalink(name@, info@)),
    {
        let mut v = self.take_items();
        set_metalink(&mut v, id, name, info);
        self.put_items(v);
    }

    pub(crate) fn move_to(&mut self, id: DlId, dir: Option<String>)
        ensures
            final(self)@ == old(self)@.move_to(id, dir.deep_view()),
    {
        if let Some(p) = dir {
            self.edit_dir(id, p);
        }
    }

    fn add_batch_file(&mut self, f: &MetalinkFile, queue: &String, w: &BatchOrder, now: i64)
        ensures
            final(self)@ == old(self)@.add_batch_file(f@, queue@, w@, now),
    {
        proof {
            reveal(AppModel::add_batch_file);
        }
        if self.has_url(&f.primary) {
            return ;
        }
        let id = self.add_item(f.primary.clone(), None, Some(queue.clone()), now);
        let cat = match &w.category {
            Some(c) => Some(c.clone()),
            None => self.category(&f.name),
        };
        let dir = match &w.dir {
            Some(d) => Some(d.clone()),
            None => self.cat_dir_of(&cat),
        };
        self.edit_metalink(id, f.name.clone(), f.info.twin());
        self.edit_category(id, cat);
        self.move_to(id, dir);
        self.set_item_state(id, DlState::Queued);
    }

    fn add_batch_files(
        &mut self,
        files: &Vec<MetalinkFile>,
        queue: &String,
        w: &BatchOrder,
        now: i64,
    )
        ensures
            final(self)@ == old(self)@.add_batch_files(files.deep_view(), queue@, w@, now),
    {
        let ghost all = files.deep_view();
        let mut i: usize = 0;
        assert(all.take(0) =~= seq![]);
        while i < files.len()
            invariant
                i <= files@.len(),
                all == files.deep_view(),
                self@ == old(self)@.add_batch_files(all.take(i as int), queue@, w@, now),
            decreases files.len() - i,
        {
            proof {
                assert(all.take(i + 1).drop_last() =~= all.take(i as int));
                assert(all.take(i + 1).last() == files@[i as int]@);
            }
            self.add_batch_file(&files[i], queue, w, now);
            i += 1;
        }
        assert(all.take(i as int) =~= all);
    }

    fn name_row(&mut self, id: DlId, name: Option<String>)
        ensures
            final(self)@ == old(self)@.name_row(id, name.deep_view()),
    {
        let n = match name {
            Some(n) => n,
            None => return ,
        };
        if n.as_str().is_empty() {
            return ;
        }
        let cat = self.category(&n);
        let dir = self.cat_dir_of(&cat);
        self.edit_name(id, n);
        if cat.is_some() {
            self.edit_category(id, cat);
        }
        self.move_to(id, dir);
    }

    fn override_category(&mut self, id: DlId, cat: &Option<String>)
        ensures
            final(self)@ == old(self)@.override_category(id, cat.deep_view()),
    {
        if cat.is_none() {
            return ;
        }
        let dir = self.cat_dir_of(cat);
        self.edit_category(id, cat.twin());
        self.move_to(id, dir);
    }

    pub(crate) fn mark_stream(&mut self, id: DlId, si: Option<StreamInfo>)
        ensures
            final(self)@ == old(self)@.mark_stream(id, si.deep_view()),
    {
        if let Some(si) = si {
            let mut v = self.take_items();
            set_stream(&mut v, id, si);
            self.put_items(v);
        }
    }

    fn add_batch_link(
        &mut self,
        url: &String,
        name: Option<String>,
        queue: &String,
        w: &BatchOrder,
        now: i64,
    )
        ensures
            final(self)@ == old(self)@.add_batch_link(url@, name.deep_view(), queue@, w@, now),
    {
        proof {
            reveal(AppModel::add_batch_link);
        }
        let manifest = manifest_address(url);
        let stream = if manifest {
            Some(stream_for(url, w))
        } else {
            None
        };
        let name = if manifest {
            Some(stream_file_name(url, w.ts))
        } else {
            name
        };
        let id = self.add_item(url.clone(), None, Some(queue.clone()), now);
        self.mark_stream(id, stream);
        self.name_row(id, name);
        self.override_category(id, &w.category);
        self.move_to(id, w.dir.twin());
        self.set_item_state(id, DlState::Queued);
    }

    fn add_batch_row(&mut self, url: &String, b: &BatchState, queue: &String, now: i64)
        ensures
            final(self)@ == old(self)@.add_batch_row(url@, b@, queue@, now),
    {
        proof {
            reveal(AppModel::add_batch_row);
        }
        let w = wish_of(b);
        match find_kept(&b.metalinks, url) {
            Some(k) => self.add_batch_files(&b.metalinks[k].1.files, queue, &w, now),
            None => {
                let name = match find_kept(&b.names, url) {
                    Some(k) => Some(b.names[k].1.clone()),
                    None => None,
                };
                self.add_batch_link(url, name, queue, &w, now);
            },
        }
    }

    fn add_batch_rows(&mut self, urls: &Vec<String>, b: &BatchState, queue: &String, now: i64)
        ensures
            final(self)@ == old(self)@.add_batch_rows(views(urls@), b@, queue@, now),
    {
        let ghost all = views(urls@);
        let mut i: usize = 0;
        assert(all.take(0) =~= seq![]);
        while i < urls.len()
            invariant
                i <= urls@.len(),
                all == views(urls@),
                self@ == old(self)@.add_batch_rows(all.take(i as int), b@, queue@, now),
            decreases urls.len() - i,
        {
            proof {
                assert(all.take(i + 1).drop_last() =~= all.take(i as int));
                assert(all.take(i + 1).last() == urls@[i as int]@);
            }
            self.add_batch_row(&urls[i], b, queue, now);
            i += 1;
        }
        assert(all.take(i as int) =~= all);
    }

    pub(crate) fn batch_ok(&mut self, now: i64)
        ensures
            final(self)@ == old(self)@.batch_ok(now),
    {
        proof {
            reveal(AppModel::batch_ok);
        }
        self.parse_batch();
        let rows = self.batch_rows();
        let urls = urls_ticked(&rows);
        assert(views(urls@).len() == urls@.len());
        if urls.len() == 0 {
            self.ask(ConfirmKind::NoneChecked);
            return ;
        }
        let b = self.take_batch();
        let queue = "Main download queue".to_owned();
        self.add_batch_rows(&urls, &b, &queue, now);
        self.save_state();
        self.close_window(WinKind::Batch);
    }
}

} // verus!
