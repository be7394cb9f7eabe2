//! New rows: how they are filed, what the browser knew of them, and what a
//! probe finds out.
use crate::app::starting::or_else;
use crate::app::{App, AppModel};
use crate::downloads::{item_of, Items};
use crate::edits::{
    set_captured, set_category, set_dir, set_name, set_size, to_captured, to_category, to_dir,
    to_name, to_size,
};
use crate::engine::{file_name_from_url, provisional_name, Cmd, CmdModel};
use crate::model::{
    categorize, category_dir, category_folder, category_for, DlId, DlState, DownloadItem,
    DownloadItemModel, PowerAction, StateFileModel,
};
use crate::state::{FileInfoState, FileInfoStateModel, WinKind};
use crate::text::same;
use crate::twin::Twin;
use vstd::prelude::*;

verus! {

/// The next free place in a queue.
pub open spec fn next_order(v: Items, name: Seq<char>) -> u32
    decreases v.len(),
{
    if v.len() == 0 {
        0
    } else {
        let r = next_order(v.drop_last(), name);
        let d = v.last();
        let n: u32 = if d.q_order < u32::MAX {
            (d.q_order + 1) as u32
        } else {
            u32::MAX
        };
        if d.in_queue(name) && n > r {
            n
        } else {
            r
        }
    }
}

pub fn next_place(v: &Vec<DownloadItem>, name: &str) -> (r: u32)
    ensures
        r == next_order(v.deep_view(), name@),
{
    let ghost all = v.deep_view();
    let mut r: u32 = 0;
    let mut i: usize = 0;
    assert(all.take(0) =~= seq![]);
    while i < v.len()
        invariant
            i <= v@.len(),
            all == v.deep_view(),
            r == next_order(all.take(i as int), name@),
        decreases v.len() - i,
    {
        proof {
            assert(all.take(i + 1).drop_last() =~= all.take(i as int));
            assert(all.take(i + 1).last() == v@[i as int]@);
        }
        let n: u32 = v[i].q_order.saturating_add(1);
        if v[i].is_in_queue(name) && n > r {
            r = n;
        }
        i += 1;
    }
    assert(all.take(i as int) =~= all);
    r
}

/// A row as it enters the list.
pub open spec fn fresh_row(
    id: DlId,
    url: Seq<char>,
    file_name: Seq<char>,
    save_dir: Seq<char>,
    category: Option<Seq<char>>,
    auth: Option<(Seq<char>, Seq<char>)>,
    queue: Option<Seq<char>>,
    q_order: u32,
    now: i64,
) -> DownloadItemModel {
    DownloadItemModel {
        id,
        url,
        file_name,
        save_dir,
        category,
        description: seq![],
        size: None,
        downloaded: 0,
        state: DlState::Paused,
        error: None,
        resume: None,
        added: now,
        last_try: None,
        queue,
        q_order,
        auth,
        cookies: None,
        referer: None,
        speed_limit: None,
        limit_paused: false,
        held: seq![],
        part_path: None,
        rate_bits: 0,
        retries: 0,
        eta_secs: None,
        recorded_bits: None,
        conns: seq![],
        status_line: seq![],
        shutdown_after: false,
        shutdown_action: PowerAction::Shutdown,
        stream: None,
        metalink: None,
        name_locked: false,
    }
}

fn new_row(
    id: DlId,
    url: String,
    file_name: String,
    save_dir: String,
    category: Option<String>,
    auth: Option<(String, String)>,
    queue: Option<String>,
    q_order: u32,
    now: i64,
) -> (r: DownloadItem)
    ensures
        r@ == fresh_row(
            id,
            url@,
            file_name@,
            save_dir@,
            category.deep_view(),
            auth.deep_view(),
            queue.deep_view(),
            q_order,
            now,
        ),
{
    let r = DownloadItem {
        id,
        url,
        file_name,
        save_dir,
        category,
        description: String::new(),
        size: None,
        downloaded: 0,
        state: DlState::Paused,
        error: None,
        resume: None,
        added: now,
        last_try: None,
        queue,
        q_order,
        auth,
        cookies: None,
        referer: None,
        speed_limit: None,
        limit_paused: false,
        held: Vec::new(),
        part_path: None,
        rate_bits: 0,
        retries: 0,
        eta_secs: None,
        recorded_bits: None,
        conns: Vec::new(),
        status_line: String::new(),
        shutdown_after: false,
        shutdown_action: PowerAction::Shutdown,
        stream: None,
        metalink: None,
        name_locked: false,
    };
    assert(r.conns.deep_view() =~= seq![]);
    assert(r.held@ =~= seq![]);
    r
}

impl AppModel {
    /// Folder that a download filed under `cat` saves into; none where the
    /// named category is gone.
    #[verifier::opaque]
    pub open spec fn cat_dir(self, cat: Option<Seq<char>>) -> Option<Seq<char>> {
        category_folder(self.cfg.categories, cat, self.cfg.settings.on.no_category_dirs)
    }

    /// The same, falling back to the folder of the first category.
    pub open spec fn cat_dir_or(self, cat: Option<Seq<char>>) -> Option<Seq<char>> {
        or_else(self.cat_dir(cat), self.cat_dir(None))
    }

    /// The category of a file by its name.
    #[verifier::opaque]
    pub open spec fn category(self, name: Seq<char>) -> Option<Seq<char>> {
        category_for(name, self.cfg.categories)
    }

    /// The queue that new rows are filed under.
    pub open spec fn first_queue(self) -> Option<Seq<char>> {
        if self.queues().len() > 0 {
            Some(self.queues()[0].name)
        } else {
            None
        }
    }

    /// The row that a new address becomes.
    pub open spec fn row_for(
        self,
        url: Seq<char>,
        auth: Option<(Seq<char>, Seq<char>)>,
        queue: Option<Seq<char>>,
        now: i64,
    ) -> DownloadItemModel {
        let q = or_else(queue, self.first_queue());
        let name = provisional_name(url);
        let cat = self.category(name);
        fresh_row(
            self.state.next_id,
            url,
            name,
            match self.cat_dir_or(cat) {
                Some(d) => d,
                None => "."@,
            },
            cat,
            auth,
            q,
            match q {
                Some(n) => next_order(self.items(), n),
                None => 0,
            },
            now,
        )
    }

    /// The list with one more row, under the next number. (Numbers stay at the
    /// end of their range once they get there.)
    pub open spec fn push_row(self, d: DownloadItemModel) -> AppModel {
        AppModel {
            state: StateFileModel {
                downloads: self.state.downloads.push(d),
                next_id: if self.state.next_id < u64::MAX {
                    (self.state.next_id + 1) as u64
                } else {
                    u64::MAX
                },
                ..self.state
            },
            ..self
        }
    }

    #[verifier::opaque]
    pub open spec fn add_item(
        self,
        url: Seq<char>,
        auth: Option<(Seq<char>, Seq<char>)>,
        queue: Option<Seq<char>>,
        now: i64,
    ) -> AppModel {
        self.push_row(self.row_for(url, auth, queue, now)).save_state()
    }

    /// What the browser knew is attached. A name re-runs the filing, through
    /// the one accessor that honours "Do not create category folders".
    #[verifier::opaque]
    pub open spec fn apply_capture_extras(
        self,
        id: DlId,
        cookies: Option<Seq<char>>,
        name: Option<Seq<char>>,
        referer: Option<Seq<char>>,
    ) -> AppModel {
        if cookies is None && name is None && referer is None {
            self
        } else {
            let cat = match name {
                Some(n) => self.category(n),
                None => None,
            };
            let dir = match name {
                Some(n) => self.cat_dir(cat),
                None => None,
            };
            self.edit_item(id, to_captured(cookies, referer, name, cat, dir))
        }
    }
}

impl App {
    pub fn cat_dir(&self, cat: Option<&str>) -> (r: Option<String>)
        ensures
            r.deep_view() == self@.cat_dir(crate::i18n::opt_str(cat)),
    {
        proof {
            reveal(App::model);
            reveal(AppModel::cat_dir);
        }
        category_dir(&self.cfg.categories, cat, self.cfg.settings.on.no_category_dirs)
    }

    pub(crate) fn cat_dir_of(&self, cat: &Option<String>) -> (r: Option<String>)
        ensures
            r.deep_view() == self@.cat_dir(cat.deep_view()),
    {
        match cat {
            Some(c) => self.cat_dir(Some(c.as_str())),
            None => self.cat_dir(None),
        }
    }

    pub(crate) fn cat_dir_or(&self, cat: &Option<String>) -> (r: Option<String>)
        ensures
            r.deep_view() == self@.cat_dir_or(cat.deep_view()),
    {
        match self.cat_dir_of(cat) {
            Some(d) => Some(d),
            None => self.cat_dir(None),
        }
    }

    pub(crate) fn category(&self, name: &str) -> (r: Option<String>)
        ensures
            r.deep_view() == self@.category(name@),
    {
        proof {
            reveal(App::model);
            reveal(AppModel::category);
        }
        categorize(name, &self.cfg.categories)
    }

    pub(crate) fn first_queue(&self) -> (r: Option<String>)
        ensures
            r.deep_view() == self@.first_queue(),
    {
        proof {
            reveal(App::model);
        }
        if self.cfg.queues.len() > 0 {
            assert(self.cfg.queues.deep_view()[0] == self.cfg.queues@[0]@);
            Some(self.cfg.queues[0].name.clone())
        } else {
            None
        }
    }

    fn next_id(&self) -> (r: DlId)
        ensures
            r == self@.state.next_id,
    {
        proof {
            reveal(App::model);
        }
        self.state.next_id
    }

    pub(crate) fn next_place_in(&self, name: &str) -> (r: u32)
        ensures
            r == next_order(self@.items(), name@),
    {
        proof {
            reveal(App::model);
        }
        next_place(&self.state.downloads, name)
    }

    fn push_row(&mut self, d: DownloadItem)
        ensures
            final(self)@ == old(self)@.push_row(d@),
    {
        proof {
            reveal(App::model);
        }
        let ghost before = self.state.downloads.deep_view();
        self.state.next_id = self.state.next_id.saturating_add(1);
        self.state.downloads.push(d);
        assert(self.state.downloads.deep_view() =~= before.push(d@));
    }

    fn row_for(
        &self,
        url: String,
        auth: Option<(String, String)>,
        queue: Option<String>,
        now: i64,
    ) -> (r: DownloadItem)
        ensures
            r@ == self@.row_for(url@, auth.deep_view(), queue.deep_view(), now),
            r.id == self@.state.next_id,
    {
        let queue = match queue {
            Some(q) => Some(q),
            None => self.first_queue(),
        };
        let id = self.next_id();
        let name = file_name_from_url(&url);
        let cat = self.category(&name);
        let dir = match self.cat_dir_or(&cat) {
            Some(d) => d,
            None => ".".to_owned(),
        };
        let order: u32 = match &queue {
            Some(q) => self.next_place_in(q),
            None => 0,
        };
        new_row(id, url, name, dir, cat, auth, queue, order, now)
    }

    /// Create a new row for an address; returns its number. Every download
    /// belongs to a queue (the first one unless the caller names another), so
    /// that starting and stopping queues always governs the whole list.
    pub fn add_item(
        &mut self,
        url: String,
        auth: Option<(String, String)>,
        queue: Option<String>,
        now: i64,
    ) -> (r: DlId)
        ensures
            final(self)@ == old(self)@.add_item(url@, auth.deep_view(), queue.deep_view(), now),
            r == old(self)@.state.next_id,
    {
        proof {
            reveal(AppModel::add_item);
        }
        let d = self.row_for(url, auth, queue, now);
        let id = d.id;
        self.push_row(d);
        self.save_state();
        id
    }

    /// Attach what the browser knew that a new row cannot know: cookies, the
    /// page the file was linked from, and the name it had resolved. Must run
    /// before any start, so that the first request carries them.
    pub(crate) fn apply_capture_extras(
        &mut self,
        id: DlId,
        cookies: Option<String>,
        name: Option<String>,
        referer: Option<String>,
    )
        ensures
            final(self)@ == old(self)@.apply_capture_extras(
                id,
                cookies.deep_view(),
                name.deep_view(),
                referer.deep_view(),
            ),
    {
        proof {
            reveal(AppModel::apply_capture_extras);
        }
        if cookies.is_none() && name.is_none() && referer.is_none() {
            return ;
        }
        let (cat, dir) = match &name {
            Some(n) => {
                let cat = self.category(n);
                let dir = self.cat_dir_of(&cat);
                (cat, dir)
            },
            None => (None, None),
        };
        let mut v = self.take_items();
        set_captured(&mut v, id, cookies, referer, name, cat, dir);
        self.put_items(v);
    }
}

// ------------------------------------------------------------------- file info

impl AppModel {
    pub open spec fn with_file_info(self, fi: FileInfoStateModel) -> AppModel {
        AppModel { file_info: fi, ..self }
    }

    /// Whether the File Info dialog of this download is open.
    pub open spec fn shows_info_of(self, id: DlId) -> bool {
        self.file_info.dl == id && self.is_open(WinKind::FileInfo(id))
    }
}

impl App {
    pub(crate) fn file_info_copy(&self) -> (r: FileInfoState)
        ensures
            r@ == self@.file_info,
    {
        proof {
            reveal(App::model);
        }
        self.file_info.twin()
    }

    pub(crate) fn set_file_info(&mut self, fi: FileInfoState)
        ensures
            final(self)@ == old(self)@.with_file_info(fi@),
    {
        proof {
            reveal(App::model);
        }
        self.file_info = fi;
    }

    pub(crate) fn shows_info_of(&self, id: DlId) -> (r: bool)
        ensures
            r == self@.shows_info_of(id),
    {
        let dl = self.file_info_copy().dl;
        dl == id && self.is_open(WinKind::FileInfo(id))
    }
}

// --------------------------------------------------------------------- probes

/// The size of a row after a probe: a stream has no probe, only a projection
/// that gets better, so for a stream the newer number wins.
pub open spec fn probed_size(d: DownloadItemModel, size: Option<u64>) -> Option<u64> {
    if d.size is None || (d.stream is Some && size is Some) {
        size
    } else {
        d.size
    }
}

impl AppModel {
    /// The size that a probe found, and whether the name it found is taken over.
    pub open spec fn take_probe(self, id: DlId, name: Option<Seq<char>>, size: Option<u64>) -> AppModel {
        match item_of(self.items(), id) {
            Some(d) => {
                let s = self.edit_item(id, to_size(probed_size(d, size)));
                match name {
                    Some(n) if n.len() > 0 && d.nameable() => s.edit_item(id, to_name(n)),
                    _ => s,
                }
            },
            None => self,
        }
    }

    /// Whether a probe gives the file another name.
    pub open spec fn probe_renames(self, id: DlId, name: Option<Seq<char>>) -> bool {
        match (item_of(self.items(), id), name) {
            (Some(d), Some(n)) => n.len() > 0 && d.nameable() && d.file_name != n,
            _ => false,
        }
    }

    /// The dialog fills in the name, unless the user has edited it.
    pub open spec fn fill_name(self, name: Seq<char>) -> AppModel {
        if self.file_info.name_touched {
            self
        } else {
            self.with_file_info(FileInfoStateModel { file_name: name, ..self.file_info })
        }
    }

    /// The dialog and the row are filed under a category, and go into its
    /// folder where one is given.
    pub open spec fn file_under(self, id: DlId, cat: Seq<char>, dir: Option<Seq<char>>) -> AppModel {
        let fi = FileInfoStateModel {
            category: cat,
            save_dir: match dir {
                Some(p) => p,
                None => self.file_info.save_dir,
            },
            ..self.file_info
        };
        let s = self.with_file_info(fi).edit_item(id, to_category(Some(cat)));
        match dir {
            Some(p) => s.edit_item(id, to_dir(p)),
            None => s,
        }
    }

    /// The dialog and the row take over the category of the name, and its
    /// folder, unless the user has edited them.
    pub open spec fn fill_category(self, id: DlId, name: Seq<char>) -> AppModel {
        match self.category(name) {
            Some(cat) if !self.file_info.cat_touched => self.file_under(
                id,
                cat,
                if self.file_info.dir_touched {
                    None
                } else {
                    self.cat_dir(Some(cat))
                },
            ),
            _ => self,
        }
    }

    /// The open dialog of the download fills itself.
    pub open spec fn fill_info(self, id: DlId) -> AppModel {
        match item_of(self.items(), id) {
            Some(d) if self.shows_info_of(id) => self.fill_name(d.file_name).fill_category(
                id,
                d.file_name,
            ),
            _ => self,
        }
    }

    /// The running transfer is told where the file goes now.
    pub open spec fn aim(self, id: DlId) -> AppModel {
        match item_of(self.items(), id) {
            Some(d) => self.tell(CmdModel::SetFinalPath(id, d.full_path())),
            None => self,
        }
    }

    /// What a probe learned is taken over: the size, the name the object
    /// landed under, and with the name the category and the folder.
    #[verifier::opaque]
    pub open spec fn adopt_probed(
        self,
        id: DlId,
        name: Option<Seq<char>>,
        size: Option<u64>,
    ) -> AppModel {
        let s = self.take_probe(id, name, size).fill_info(id);
        (if self.probe_renames(id, name) {
            s.aim(id)
        } else {
            s
        }).save_state()
    }
}

impl App {
    fn edit_size(&mut self, id: DlId, size: Option<u64>)
        ensures
            final(self)@ == old(self)@.edit_item(id, to_size(size)),
    {
        let mut v = self.take_items();
        set_size(&mut v, id, size);
        self.put_items(v);
    }

    pub(crate) fn edit_name(&mut self, id: DlId, name: String)
        ensures
            final(self)@ == old(self)@.edit_item(id, to_name(name@)),
    {
        let mut v = self.take_items();
        set_name(&mut v, id, name);
        self.put_items(v);
    }

    pub(crate) fn edit_category(&mut self, id: DlId, cat: Option<String>)
        ensures
            final(self)@ == old(self)@.edit_item(id, to_category(cat.deep_view())),
    {
        let mut v = self.take_items();
        set_category(&mut v, id, cat);
        self.put_items(v);
    }

    pub(crate) fn edit_dir(&mut self, id: DlId, dir: String)
        ensures
            final(self)@ == old(self)@.edit_item(id, to_dir(dir@)),
    {
        let mut v = self.take_items();
        set_dir(&mut v, id, dir);
        self.put_items(v);
    }

    fn take_probe(&mut self, id: DlId, name: &Option<String>, size: Option<u64>) -> (r: bool)
        ensures
            final(self)@ == old(self)@.take_probe(id, name.deep_view(), size),
            r == old(self)@.probe_renames(id, name.deep_view()),
    {
        let d = match self.item_copy(id) {
            Some(d) => d,
            None => return false,
        };
        let found = if d.size.is_none() || (d.stream.is_some() && size.is_some()) {
            size
        } else {
            d.size
        };
        self.edit_size(id, found);
        match name {
            Some(n) => if !n.as_str().is_empty() && crate::downloads::may_adopt_name(&d) {
                self.edit_name(id, n.clone());
                !same(&d.file_name, n)
            } else {
                false
            },
            None => false,
        }
    }

    fn fill_name(&mut self, name: &String)
        ensures
            final(self)@ == old(self)@.fill_name(name@),
    {
        let mut fi = self.file_info_copy();
        if !fi.name_touched {
            fi.file_name = name.clone();
            self.set_file_info(fi);
        }
    }

    fn file_under(&mut self, id: DlId, cat: String, dir: Option<String>)
        ensures
            final(self)@ == old(self)@.file_under(id, cat@, dir.deep_view()),
    {
        let mut fi = self.file_info_copy();
        fi.category = cat.clone();
        if let Some(p) = &dir {
            fi.save_dir = p.clone();
        }
        self.set_file_info(fi);
        self.edit_category(id, Some(cat));
        if let Some(p) = dir {
            self.edit_dir(id, p);
        }
    }

    fn fill_category(&mut self, id: DlId, name: &String)
        ensures
            final(self)@ == old(self)@.fill_category(id, name@),
    {
        let fi = self.file_info_copy();
        let cat = match self.category(name) {
            Some(c) => c,
            None => return ,
        };
        if fi.cat_touched {
            return ;
        }
        let dir = if fi.dir_touched {
            None
        } else {
            self.cat_dir(Some(cat.as_str()))
        };
        self.file_under(id, cat, dir);
    }

    fn fill_info(&mut self, id: DlId)
        ensures
            final(self)@ == old(self)@.fill_info(id),
    {
        if !self.shows_info_of(id) {
            return ;
        }
        let name = match self.item(id) {
            Some(d) => d.file_name.clone(),
            None => return ,
        };
        self.fill_name(&name);
        self.fill_category(id, &name);
    }

    pub(crate) fn aim(&mut self, id: DlId)
        ensures
            final(self)@ == old(self)@.aim(id),
    {
        let path = match self.item(id) {
            Some(d) => d.full_path(),
            None => return ,
        };
        self.tell(Cmd::SetFinalPath(id, path));
    }

    /// Adopt what a probe learned about a download. Shared by the two places a
    /// probe can answer, because both must produce the same result: the
    /// running transfer, and the speculative probe of the File Info dialog.
    pub(crate) fn adopt_probed(&mut self, id: DlId, name: Option<String>, size: Option<u64>)
        ensures
            final(self)@ == old(self)@.adopt_probed(id, name.deep_view(), size),
    {
        proof {
            reveal(AppModel::adopt_probed);
        }
        let renamed = self.take_probe(id, &name, size);
        self.fill_info(id);
        if renamed {
            self.aim(id);
        }
        self.save_state();
    }
}

} // verus!
