//! Opening, closing and sizing windows.
use crate::app::{App, AppModel, EnvModel};
use crate::effect::{Effect, EffectModel};
use crate::notes::{Note, NoteModel};
use crate::rules::{host_blocked, site_blocked};
use crate::state::{Win, WinId, WinKind};
use crate::text::{trim, trimmed};
use vstd::prelude::*;

verus! {

// ------------------------------------------------------------------- sizes

/// Files the mirror-list panel lists before collapsing into a "+N" line. One
/// definition, read by both the drawing and the measuring.
pub const METALINK_PANEL_ROWS: usize = 3;

/// The height of the mirror-list panel: a heading, one line per file that it
/// shows, and a "+N" line when there are more.
pub open spec fn panel_height(probing: bool, files: Option<usize>) -> u32 {
    if probing {
        28
    } else {
        match files {
            None => 0,
            Some(n) => if n > METALINK_PANEL_ROWS {
                (34 + 24 * (METALINK_PANEL_ROWS + 1)) as u32
            } else {
                (34 + 24 * n) as u32
            },
        }
    }
}

/// Height the Add URL dialog must reserve for the mirror-list panel, in points.
pub fn metalink_panel_height(probing: bool, files: Option<usize>) -> (r: u32)
    ensures
        r == panel_height(probing, files),
        r <= 130,
{
    if probing {
        return 28;
    }
    match files {
        None => 0,
        Some(n) => {
            let rows: u32 = if n > METALINK_PANEL_ROWS {
                4
            } else {
                n as u32
            };
            34 + 24 * rows
        },
    }
}

impl AppModel {
    /// Whether the Add URL dialog shows a warning line.
    pub open spec fn add_url_warns(self) -> bool {
        self.add_url.error is Some || (trimmed(self.add_url.address).len() > 0 && host_blocked(
            trimmed(self.add_url.address),
            self.cfg.settings.dont_start_sites,
        ))
    }

    /// The height of the stream panel of the Add URL dialog.
    pub open spec fn stream_panel(self) -> u32 {
        if self.add_url.stream_probing {
            28
        } else {
            match self.add_url.stream {
                Some(p) => if p.drm is Some {
                    64
                } else if p.live {
                    104
                } else {
                    72
                },
                None => 0,
            }
        }
    }

    /// The size a window opens at, in points at the reference font; none for
    /// the main window, which reopens at whatever size it was left at.
    #[verifier::opaque]
    pub open spec fn window_size(self, kind: WinKind) -> Option<(u32, u32)> {
        match kind {
            WinKind::Main => None,
            WinKind::AddUrl => Some(
                (
                    760u32,
                    (130 + (if self.add_url_warns() {
                        40
                    } else {
                        0int
                    }) + self.stream_panel() + panel_height(
                        self.add_url.metalink_probing,
                        match self.add_url.metalink {
                            Some(m) => Some(m.files.len() as usize),
                            None => None,
                        },
                    )) as u32,
                ),
            ),
            WinKind::FileInfo(_) => Some(
                (
                    680u32,
                    if self.file_info.is_new {
                        300u32
                    } else {
                        410
                    },
                ),
            ),
            WinKind::Progress(id) => Some(
                (
                    680u32,
                    if !self.prog.contains_key(id) || self.prog[id].details {
                        582u32
                    } else {
                        352
                    },
                ),
            ),
            WinKind::Complete(_) => Some((600u32, 180u32)),
            WinKind::Options => Some((760u32, 700u32)),
            WinKind::Scheduler => Some((950u32, 660u32)),
            WinKind::Batch => Some((950u32, 700u32)),
            WinKind::About => Some((460u32, 225u32)),
            WinKind::Shortcuts => Some((520u32, 520u32)),
            WinKind::Confirm => Some((500u32, 200u32)),
            WinKind::Permissions => Some((640u32, 410u32)),
            WinKind::Update => Some((560u32, 520u32)),
            WinKind::Power => Some((500u32, 200u32)),
            WinKind::ZipPreview(_) => Some((640u32, 420u32)),
        }
    }
}

impl App {
    /// The size a window opens at, in points at the reference font.
    pub fn window_size(&self, kind: WinKind) -> (r: Option<(u32, u32)>)
        ensures
            r == self@.window_size(kind),
    {
        broadcast use vstd::std_specs::hash::group_hash_axioms;

        proof {
            reveal(App::model);
            reveal(AppModel::window_size);
        }
        match kind {
            WinKind::Main => None,
            WinKind::AddUrl => {
                let address = trim(&self.add_url.address);
                let warn = self.add_url.error.is_some() || (!address.as_str().is_empty()
                    && site_blocked(&address, &self.cfg.settings.dont_start_sites));
                let mut h: u32 = 130;
                if warn {
                    h = h + 40;
                }
                let stream: u32 = if self.add_url.stream_probing {
                    28
                } else {
                    match &self.add_url.stream {
                        Some(p) => if p.drm.is_some() {
                            64
                        } else if p.live {
                            104
                        } else {
                            72
                        },
                        None => 0,
                    }
                };
                let files = match &self.add_url.metalink {
                    Some(m) => Some(m.files.len()),
                    None => None,
                };
                Some((760, h + stream + metalink_panel_height(self.add_url.metalink_probing, files)))
            },
            WinKind::FileInfo(_) => if self.file_info.is_new {
                Some((680, 300))
            } else {
                Some((680, 410))
            },
            WinKind::Progress(id) => {
                let details = match self.prog.get(&id) {
                    Some(p) => p.details,
                    None => true,
                };
                Some(
                    (
                        680,
                        if details {
                            582
                        } else {
                            352
                        },
                    ),
                )
            },
            WinKind::Complete(_) => Some((600, 180)),
            WinKind::Options => Some((760, 700)),
            WinKind::Scheduler => Some((950, 660)),
            WinKind::Batch => Some((950, 700)),
            WinKind::About => Some((460, 225)),
            WinKind::Shortcuts => Some((520, 520)),
            WinKind::Confirm => Some((500, 200)),
            WinKind::Permissions => Some((640, 410)),
            WinKind::Update => Some((560, 520)),
            WinKind::Power => Some((500, 200)),
            WinKind::ZipPreview(_) => Some((640, 420)),
        }
    }
}

// ---------------------------------------------------------- open and close

/// `ws` without the windows of which `p` holds.
pub open spec fn windows_without(ws: Seq<Win>, p: spec_fn(Win) -> bool) -> Seq<Win>
    decreases ws.len(),
{
    if ws.len() == 0 {
        seq![]
    } else if p(ws.last()) {
        windows_without(ws.drop_last(), p)
    } else {
        windows_without(ws.drop_last(), p).push(ws.last())
    }
}

/// The closing of each of the windows of which `p` holds.
pub open spec fn closings(ws: Seq<Win>, p: spec_fn(Win) -> bool) -> Seq<EffectModel>
    decreases ws.len(),
{
    if ws.len() == 0 {
        seq![]
    } else if p(ws.last()) {
        closings(ws.drop_last(), p).push(EffectModel::CloseWindow(ws.last().id))
    } else {
        closings(ws.drop_last(), p)
    }
}

pub open spec fn is_win(id: WinId) -> spec_fn(Win) -> bool {
    |w: Win| w.id == id
}

/// The File Info dialogs and the listings that belong to them.
pub open spec fn of_file_info() -> spec_fn(Win) -> bool {
    |w: Win| w.kind is FileInfo || w.kind is ZipPreview
}

/// The window of a kind.
pub open spec fn id_of(ws: Seq<Win>, kind: WinKind) -> Option<WinId>
    decreases ws.len(),
{
    if ws.len() == 0 {
        None
    } else if ws.last().kind == kind {
        Some(ws.last().id)
    } else {
        id_of(ws.drop_last(), kind)
    }
}

/// What the window of a number shows.
pub open spec fn kind_of(ws: Seq<Win>, id: WinId) -> Option<WinKind>
    decreases ws.len(),
{
    if ws.len() == 0 {
        None
    } else if ws.last().id == id {
        Some(ws.last().kind)
    } else {
        kind_of(ws.drop_last(), id)
    }
}

/// The number after `n`, as long as there is one.
pub open spec fn number_after(n: u64) -> u64 {
    if n < u64::MAX {
        (n + 1) as u64
    } else {
        n
    }
}

/// `v` without `id`.
pub open spec fn ids_without(v: Seq<WinId>, id: WinId) -> Seq<WinId> {
    v.filter(|k: WinId| k != id)
}

impl AppModel {
    /// The open window of a kind.
    pub open spec fn win_of(self, kind: WinKind) -> Option<WinId> {
        id_of(self.windows, kind)
    }

    pub open spec fn is_open(self, kind: WinKind) -> bool {
        self.win_of(kind) is Some
    }

    /// What an open window shows.
    pub open spec fn kind_of(self, id: WinId) -> Option<WinKind> {
        kind_of(self.windows, id)
    }

    /// The windows of which `p` holds are forgotten.
    pub open spec fn forget_windows(self, p: spec_fn(Win) -> bool) -> AppModel {
        AppModel { windows: windows_without(self.windows, p), ..self }
    }

    /// The window is closed, if it is open.
    #[verifier::opaque]
    pub open spec fn close_window(self, kind: WinKind) -> AppModel {
        match self.win_of(kind) {
            Some(id) => self.forget_windows(is_win(id)).emit(EffectModel::CloseWindow(id)),
            None => self,
        }
    }

    /// Every File Info window is closed, and every listing that belongs to one.
    #[verifier::opaque]
    pub open spec fn close_file_info_windows(self) -> AppModel {
        self.forget_windows(of_file_info()).emit_all(closings(self.windows, of_file_info()))
    }

    /// A window that is not open yet opens.
    pub open spec fn open_new(self, kind: WinKind) -> AppModel {
        AppModel {
            windows: self.windows.push(Win { id: self.next_win, kind }),
            next_win: number_after(self.next_win),
            main_id: if kind == WinKind::Main {
                Some(self.next_win)
            } else {
                self.main_id
            },
            ..self
        }.emit(
            EffectModel::OpenWindow {
                id: self.next_win,
                kind,
                size: self.window_size(kind),
                resizable: kind == WinKind::Main || kind is Progress,
            },
        )
    }

    /// The window comes to the front, or opens. A File Info window takes the
    /// place of any other.
    #[verifier::opaque]
    pub open spec fn open_window(self, kind: WinKind) -> AppModel {
        match self.win_of(kind) {
            Some(id) => self.emit(EffectModel::FocusWindow(id)),
            None => {
                let s = if kind is FileInfo {
                    self.note_superseded().close_file_info_windows()
                } else {
                    self
                };
                s.open_new(kind)
            },
        }
    }

    /// Another File Info dialog that is open is about to go.
    pub open spec fn note_superseded(self) -> AppModel {
        if exists|i: int| 0 <= i < self.windows.len() && (#[trigger] self.windows[i]).kind is FileInfo {
            self.note(NoteModel::InfoSuperseded)
        } else {
            self
        }
    }

    /// A dialog that is open takes the size that now fits it.
    pub open spec fn resize_open(self, kind: WinKind) -> AppModel {
        match self.win_of(kind) {
            Some(id) => self.emit(
                EffectModel::ResizeWindow { id, size: self.window_size(kind) },
            ),
            None => self,
        }
    }

    /// The progress box of a download that is being started opens, minimized
    /// where the settings say so.
    #[verifier::opaque]
    pub open spec fn open_progress_window(self, dl: u64) -> AppModel {
        let kind = WinKind::Progress(dl);
        let s = self.open_window(kind);
        if self.is_open(kind) {
            s
        } else {
            s.minimize_when_opened(kind)
        }
    }

    /// The window of this kind goes down as soon as it is up, where the settings
    /// say so.
    pub open spec fn minimize_when_opened(self, kind: WinKind) -> AppModel {
        match self.win_of(kind) {
            Some(id) if self.cfg.settings.on.start_minimized && !self.minimize_on_open.contains(
                id,
            ) => AppModel { minimize_on_open: self.minimize_on_open.push(id), ..self },
            _ => self,
        }
    }

    /// The window that a dialog stays above, if it belongs to one.
    pub open spec fn parent_of(self, kind: WinKind) -> Option<WinId> {
        let main = self.win_of(WinKind::Main);
        match kind {
            WinKind::Main => None,
            WinKind::Progress(_) => None,
            WinKind::FileInfo(_) => None,
            WinKind::ZipPreview(dl) => match self.win_of(WinKind::FileInfo(dl)) {
                Some(id) => Some(id),
                None => main,
            },
            _ => main,
        }
    }
}

/// The window of a kind.
fn find_kind(ws: &Vec<Win>, kind: WinKind) -> (r: Option<WinId>)
    ensures
        r == id_of(ws@, kind),
{
    let mut i: usize = ws.len();
    assert(ws@.take(i as int) =~= ws@);
    while i > 0
        invariant
            i <= ws@.len(),
            id_of(ws@, kind) == id_of(ws@.take(i as int), kind),
        decreases i,
    {
        i -= 1;
        proof {
            assert(ws@.take(i + 1).drop_last() =~= ws@.take(i as int));
            assert(ws@.take(i + 1).last() == ws@[i as int]);
        }
        if ws[i].kind == kind {
            return Some(ws[i].id);
        }
    }
    None
}

/// What the window of a number shows.
fn find_win(ws: &Vec<Win>, id: WinId) -> (r: Option<WinKind>)
    ensures
        r == kind_of(ws@, id),
{
    let mut i: usize = ws.len();
    assert(ws@.take(i as int) =~= ws@);
    while i > 0
        invariant
            i <= ws@.len(),
            kind_of(ws@, id) == kind_of(ws@.take(i as int), id),
        decreases i,
    {
        i -= 1;
        proof {
            assert(ws@.take(i + 1).drop_last() =~= ws@.take(i as int));
            assert(ws@.take(i + 1).last() == ws@[i as int]);
        }
        if ws[i].id == id {
            return Some(ws[i].kind);
        }
    }
    None
}

/// Whether `id` is among the numbers.
pub(crate) fn has_id(v: &Vec<WinId>, id: WinId) -> (r: bool)
    ensures
        r == v@.contains(id),
{
    let mut i: usize = 0;
    while i < v.len()
        invariant
            i <= v@.len(),
            forall|k: int| 0 <= k < i ==> #[trigger] v@[k] != id,
        decreases v.len() - i,
    {
        if v[i] == id {
            return true;
        }
        i += 1;
    }
    false
}

/// The numbers other than `id`.
pub(crate) fn drop_id(v: &Vec<WinId>, id: WinId) -> (r: Vec<WinId>)
    ensures
        r@ == ids_without(v@, id),
{
    let mut r: Vec<WinId> = Vec::new();
    let mut i: usize = 0;
    proof {
        reveal(Seq::filter);
        assert(v@.take(0) =~= seq![]);
    }
    while i < v.len()
        invariant
            i <= v@.len(),
            r@ == ids_without(v@.take(i as int), id),
        decreases v.len() - i,
    {
        proof {
            reveal(Seq::filter);
            assert(v@.take(i + 1).drop_last() =~= v@.take(i as int));
            assert(v@.take(i + 1).last() == v@[i as int]);
        }
        if v[i] != id {
            r.push(v[i]);
        }
        i += 1;
    }
    assert(v@.take(i as int) =~= v@);
    r
}

/// Forgets one window.
fn forget_window(ws: &Vec<Win>, id: WinId) -> (r: Vec<Win>)
    ensures
        r@ == windows_without(ws@, is_win(id)),
{
    let mut r: Vec<Win> = Vec::new();
    let mut i: usize = 0;
    assert(ws@.take(0) =~= seq![]);
    while i < ws.len()
        invariant
            i <= ws@.len(),
            r@ == windows_without(ws@.take(i as int), is_win(id)),
        decreases ws.len() - i,
    {
        proof {
            assert(ws@.take(i + 1).drop_last() =~= ws@.take(i as int));
            assert(ws@.take(i + 1).last() == ws@[i as int]);
        }
        if ws[i].id != id {
            r.push(ws[i]);
        }
        i += 1;
    }
    assert(ws@.take(i as int) =~= ws@);
    r
}

fn shows_file_info(kind: WinKind) -> (r: bool)
    ensures
        r == (kind is FileInfo),
{
    match kind {
        WinKind::FileInfo(_) => true,
        _ => false,
    }
}

/// Only the main window and the progress boxes resize.
fn may_resize(kind: WinKind) -> (r: bool)
    ensures
        r == (kind == WinKind::Main || kind is Progress),
{
    match kind {
        WinKind::Main => true,
        WinKind::Progress(_) => true,
        _ => false,
    }
}

impl App {
    /// The open window of a kind.
    pub fn win_of(&self, kind: WinKind) -> (r: Option<WinId>)
        ensures
            r == self@.win_of(kind),
    {
        proof {
            reveal(App::model);
        }
        find_kind(&self.windows, kind)
    }

    /// Whether a window of this kind is open.
    pub fn is_open(&self, kind: WinKind) -> (r: bool)
        ensures
            r == self@.is_open(kind),
    {
        self.win_of(kind).is_some()
    }

    /// What an open window shows.
    pub fn kind_of(&self, id: WinId) -> (r: Option<WinKind>)
        ensures
            r == self@.kind_of(id),
    {
        proof {
            reveal(App::model);
        }
        find_win(&self.windows, id)
    }

    pub(crate) fn untrack_window(&mut self, id: WinId)
        ensures
            final(self)@ == old(self)@.forget_windows(is_win(id)),
    {
        proof {
            reveal(App::model);
        }
        self.windows = forget_window(&self.windows, id);
    }

    pub fn close_window(&mut self, kind: WinKind)
        ensures
            final(self)@ == old(self)@.close_window(kind),
    {
        proof {
            reveal(AppModel::close_window);
        }
        if let Some(id) = self.win_of(kind) {
            self.untrack_window(id);
            self.emit(Effect::CloseWindow(id));
        }
    }

    /// Close every File Info window, whichever download each one was opened
    /// for, and any listing, which belongs to one. The dialog's state is a
    /// single slot, so two of them could never be consistent.
    pub fn close_file_info_windows(&mut self)
        ensures
            final(self)@ == old(self)@.close_file_info_windows(),
    {
        proof {
            reveal(AppModel::close_file_info_windows);
        }
        let (kept, gone) = self.part_file_info();
        self.set_windows(kept);
        self.emit_all(gone);
    }

    /// The windows that stay when the File Info dialogs close, and the closings.
    fn part_file_info(&self) -> (r: (Vec<Win>, Vec<Effect>))
        ensures
            r.0@ == windows_without(self@.windows, of_file_info()),
            r.1.deep_view() == closings(self@.windows, of_file_info()),
    {
        proof {
            reveal(App::model);
        }
        let ws = &self.windows;
        let mut kept: Vec<Win> = Vec::new();
        let mut gone: Vec<Effect> = Vec::new();
        let mut i: usize = 0;
        assert(ws@.take(0) =~= seq![]);
        assert(gone.deep_view() =~= seq![]);
        while i < ws.len()
            invariant
                i <= ws@.len(),
                kept@ == windows_without(ws@.take(i as int), of_file_info()),
                gone.deep_view() == closings(ws@.take(i as int), of_file_info()),
            decreases ws.len() - i,
        {
            let w = ws[i];
            proof {
                assert(ws@.take(i + 1).drop_last() =~= ws@.take(i as int));
                assert(ws@.take(i + 1).last() == w);
            }
            let dialog = match w.kind {
                WinKind::FileInfo(_) => true,
                WinKind::ZipPreview(_) => true,
                _ => false,
            };
            if dialog {
                let ghost before = gone.deep_view();
                gone.push(Effect::CloseWindow(w.id));
                assert(gone.deep_view() =~= before.push(EffectModel::CloseWindow(w.id)));
            } else {
                kept.push(w);
            }
            i += 1;
        }
        assert(ws@.take(i as int) =~= ws@);
        (kept, gone)
    }

    fn set_windows(&mut self, ws: Vec<Win>)
        ensures
            final(self)@ == (AppModel { windows: ws@, ..old(self)@ }),
    {
        proof {
            reveal(App::model);
        }
        self.windows = ws;
    }

    /// Open a window, or bring it to the front. There is one File Info dialog
    /// at a time: the download behind a dismissed one is already in the list,
    /// so nothing is lost by closing its window.
    pub fn open_window(&mut self, kind: WinKind)
        ensures
            final(self)@ == old(self)@.open_window(kind),
    {
        proof {
            reveal(AppModel::open_window);
        }
        if let Some(id) = self.win_of(kind) {
            self.emit(Effect::FocusWindow(id));
            return;
        }
        if shows_file_info(kind) {
            self.note_superseded();
            self.close_file_info_windows();
        }
        self.open_new(kind);
    }

    fn file_info_open(&self) -> (r: bool)
        ensures
            r == exists|i: int|
                0 <= i < self@.windows.len() && (#[trigger] self@.windows[i]).kind is FileInfo,
    {
        proof {
            reveal(App::model);
        }
        let ghost all = self@.windows;
        let mut i: usize = 0;
        while i < self.windows.len()
            invariant
                i <= self.windows@.len(),
                all == self.windows@,
                all == self@.windows,
                forall|k: int| 0 <= k < i ==> (#[trigger] all[k]).kind !is FileInfo,
            decreases self.windows.len() - i,
        {
            if shows_file_info(self.windows[i].kind) {
                assert(all[i as int].kind is FileInfo);
                return true;
            }
            i += 1;
        }
        false
    }

    fn note_superseded(&mut self)
        ensures
            final(self)@ == old(self)@.note_superseded(),
    {
        if self.file_info_open() {
            self.note(Note::InfoSuperseded);
        }
    }

    fn open_new(&mut self, kind: WinKind)
        ensures
            final(self)@ == old(self)@.open_new(kind),
    {
        let size = self.window_size(kind);
        let id = self.track_window(kind);
        self.emit(Effect::OpenWindow { id, kind, size, resizable: may_resize(kind) });
    }

    fn track_window(&mut self, kind: WinKind) -> (r: WinId)
        ensures
            r == old(self)@.next_win,
            final(self)@ == (AppModel {
                windows: old(self)@.windows.push(Win { id: r, kind }),
                next_win: number_after(r),
                main_id: if kind == WinKind::Main {
                    Some(r)
                } else {
                    old(self)@.main_id
                },
                ..old(self)@
            }),
    {
        proof {
            reveal(App::model);
        }
        let id = self.next_win;
        self.next_win = id.saturating_add(1);
        if kind == WinKind::Main {
            self.main_id = Some(id);
        }
        self.windows.push(Win { id, kind });
        id
    }

    /// Re-fit a dialog that is open to what its window must now hold.
    pub fn resize_open(&mut self, kind: WinKind)
        ensures
            final(self)@ == old(self)@.resize_open(kind),
    {
        if let Some(id) = self.win_of(kind) {
            let size = self.window_size(kind);
            self.emit(Effect::ResizeWindow { id, size });
        }
    }

    /// Open a download's progress box as part of *starting* it, the only case
    /// that "Start download progress dialog minimized" covers.
    pub fn open_progress_window(&mut self, dl: u64)
        ensures
            final(self)@ == old(self)@.open_progress_window(dl),
    {
        proof {
            reveal(AppModel::open_progress_window);
        }
        let kind = WinKind::Progress(dl);
        let existed = self.is_open(kind);
        self.open_window(kind);
        if !existed {
            self.minimize_when_opened(kind);
        }
    }

    fn minimize_when_opened(&mut self, kind: WinKind)
        ensures
            final(self)@ == old(self)@.minimize_when_opened(kind),
    {
        if let Some(id) = self.win_of(kind) {
            proof {
                reveal(App::model);
            }
            if self.cfg.settings.on.start_minimized && !has_id(&self.minimize_on_open, id) {
                self.minimize_on_open.push(id);
            }
        }
    }

    /// The window that the dialog `kind` is to stay above. A progress box and
    /// a File Info dialog belong to their download and stay on their own.
    pub fn parent_of(&self, kind: WinKind) -> (r: Option<WinId>)
        ensures
            r == self@.parent_of(kind),
    {
        let main = self.win_of(WinKind::Main);
        match kind {
            WinKind::Main => None,
            WinKind::Progress(_) => None,
            WinKind::FileInfo(_) => None,
            WinKind::ZipPreview(dl) => match self.win_of(WinKind::FileInfo(dl)) {
                Some(id) => Some(id),
                None => main,
            },
            _ => main,
        }
    }
}

// ---------------------------------------------------------------------- laws

/// What a list of windows is like: no kind is there twice, no number is there
/// twice, and `next` is beyond every number given. Once the numbers have run out
/// nothing is claimed of them.
#[verifier::opaque]
pub open spec fn apart(ws: Seq<Win>, next: WinId) -> bool {
    &&& forall|i: int, j: int|
        0 <= i < j < ws.len() ==> (#[trigger] ws[i]).kind != (#[trigger] ws[j]).kind
    &&& next == u64::MAX || (forall|i: int| 0 <= i < ws.len() ==> (#[trigger] ws[i]).id < next)
    &&& next == u64::MAX || (forall|i: int, j: int|
        0 <= i < j < ws.len() ==> (#[trigger] ws[i]).id != (#[trigger] ws[j]).id)
}

/// A window that is listed is found by its kind, and one that is found is
/// listed.
proof fn lemma_id_of(ws: Seq<Win>, kind: WinKind)
    ensures
        match id_of(ws, kind) {
            Some(id) => exists|i: int|
                0 <= i < ws.len() && #[trigger] ws[i] == (Win { id, kind }),
            None => forall|i: int| 0 <= i < ws.len() ==> (#[trigger] ws[i]).kind != kind,
        },
    decreases ws.len(),
{
    if ws.len() > 0 {
        let t = ws.drop_last();
        lemma_id_of(t, kind);
        assert(ws.last() == ws[ws.len() - 1]);
        if ws.last().kind != kind {
            if let Some(id) = id_of(t, kind) {
                let i = choose|i: int| 0 <= i < t.len() && #[trigger] t[i] == (Win { id, kind });
                assert(ws[i] == t[i]);
            } else {
                assert forall|i: int| 0 <= i < ws.len() implies (#[trigger] ws[i]).kind != kind by {
                    if i < t.len() {
                        assert(t[i].kind != kind);
                    }
                }
            }
        } else {
            assert(ws[ws.len() - 1] == (Win { id: ws.last().id, kind }));
        }
    }
}

proof fn lemma_kind_of(ws: Seq<Win>, id: WinId)
    ensures
        match kind_of(ws, id) {
            Some(kind) => exists|i: int|
                0 <= i < ws.len() && #[trigger] ws[i] == (Win { id, kind }),
            None => forall|i: int| 0 <= i < ws.len() ==> (#[trigger] ws[i]).id != id,
        },
    decreases ws.len(),
{
    if ws.len() > 0 {
        let t = ws.drop_last();
        lemma_kind_of(t, id);
        assert(ws.last() == ws[ws.len() - 1]);
        if ws.last().id != id {
            if let Some(kind) = kind_of(t, id) {
                let i = choose|i: int| 0 <= i < t.len() && #[trigger] t[i] == (Win { id, kind });
                assert(ws[i] == t[i]);
            } else {
                assert forall|i: int| 0 <= i < ws.len() implies (#[trigger] ws[i]).id != id by {
                    if i < t.len() {
                        assert(t[i].id != id);
                    }
                }
            }
        } else {
            assert(ws[ws.len() - 1] == (Win { id, kind: ws.last().kind }));
        }
    }
}

/// Closing keeps some of the windows, in their order.
proof fn lemma_kept(ws: Seq<Win>, p: spec_fn(Win) -> bool, i: int) -> (k: int)
    requires
        0 <= i < windows_without(ws, p).len(),
    ensures
        i <= k < ws.len(),
        windows_without(ws, p)[i] == ws[k],
        !p(ws[k]),
    decreases ws.len(),
{
    let t = ws.drop_last();
    if p(ws.last()) {
        let k = lemma_kept(t, p, i);
        assert(t[k] == ws[k]);
        k
    } else if i == windows_without(t, p).len() {
        lemma_kept_len(t, p);
        ws.len() - 1
    } else {
        let k = lemma_kept(t, p, i);
        assert(t[k] == ws[k]);
        k
    }
}

proof fn lemma_kept_len(ws: Seq<Win>, p: spec_fn(Win) -> bool)
    ensures
        windows_without(ws, p).len() <= ws.len(),
    decreases ws.len(),
{
    if ws.len() > 0 {
        lemma_kept_len(ws.drop_last(), p);
    }
}

/// Closing windows keeps the rest apart.
pub broadcast proof fn closing_keeps_windows_apart(
    ws: Seq<Win>,
    p: spec_fn(Win) -> bool,
    next: WinId,
)
    requires
        apart(ws, next),
    ensures
        #[trigger] apart(windows_without(ws, p), next),
    decreases ws.len(),
{
    reveal(apart);
    if ws.len() > 0 {
        let t = ws.drop_last();
        assert(apart(t, next)) by {
            assert forall|i: int| 0 <= i < t.len() implies (#[trigger] t[i]) == ws[i] by {}
        }
        closing_keeps_windows_apart(t, p, next);
        if !p(ws.last()) {
            let w = windows_without(t, p);
            assert forall|i: int| 0 <= i < w.len() implies (#[trigger] w[i]).kind != ws.last().kind
                && (next == u64::MAX || w[i].id != ws.last().id) by {
                let k = lemma_kept(t, p, i);
                assert(t[k] == ws[k]);
                assert(ws[k].kind != ws[ws.len() - 1].kind);
            }
            assert(ws.last() == ws[ws.len() - 1]);
            assert(windows_without(ws, p) =~= w.push(ws.last()));
        }
    }
}

/// A window of a kind that is not open keeps the list apart.
proof fn opening_keeps_windows_apart(ws: Seq<Win>, kind: WinKind, next: WinId)
    requires
        apart(ws, next),
        id_of(ws, kind) is None,
    ensures
        apart(ws.push(Win { id: next, kind }), number_after(next)),
{
    reveal(apart);
    lemma_id_of(ws, kind);
}

/// The list of windows stays in order, whatever opens and closes.
pub proof fn windows_stay_apart(s: AppModel, kind: WinKind)
    requires
        apart(s.windows, s.next_win),
    ensures
        apart(s.open_window(kind).windows, s.open_window(kind).next_win),
        apart(s.close_window(kind).windows, s.close_window(kind).next_win),
        apart(s.close_file_info_windows().windows, s.close_file_info_windows().next_win),
        s.open_window(kind).is_open(kind),
{
    reveal(AppModel::open_window);
    reveal(AppModel::close_window);
    reveal(AppModel::close_file_info_windows);
    closing_keeps_windows_apart(s.windows, of_file_info(), s.next_win);
    if let Some(id) = s.win_of(kind) {
        closing_keeps_windows_apart(s.windows, is_win(id), s.next_win);
    } else {
        let t = if kind is FileInfo {
            s.note_superseded().close_file_info_windows()
        } else {
            s
        };
        assert(id_of(t.windows, kind) is None) by {
            lemma_gone(s.windows, of_file_info(), kind);
        }
        opening_keeps_windows_apart(t.windows, kind, t.next_win);
        assert(t.windows.push(Win { id: t.next_win, kind }).drop_last() =~= t.windows);
    }
}

/// A kind that was not open is not after some windows have gone.
proof fn lemma_gone(ws: Seq<Win>, p: spec_fn(Win) -> bool, kind: WinKind)
    requires
        id_of(ws, kind) is None,
    ensures
        id_of(windows_without(ws, p), kind) is None,
{
    lemma_id_of(ws, kind);
    let w = windows_without(ws, p);
    lemma_id_of(w, kind);
    if let Some(id) = id_of(w, kind) {
        let i = choose|i: int| 0 <= i < w.len() && #[trigger] w[i] == (Win { id, kind });
        let k = lemma_kept(ws, p, i);
        assert(ws[k].kind == kind);
    }
}

/// A window that was closed is open no more.
pub proof fn closed_windows_are_gone(s: AppModel, kind: WinKind)
    requires
        apart(s.windows, s.next_win),
    ensures
        !s.close_window(kind).is_open(kind),
{
    reveal(apart);
    reveal(AppModel::close_window);
    lemma_id_of(s.windows, kind);
    if let Some(id) = s.win_of(kind) {
        let ws = s.windows;
        let w = windows_without(ws, is_win(id));
        let n = choose|i: int| 0 <= i < ws.len() && #[trigger] ws[i] == (Win { id, kind });
        lemma_id_of(w, kind);
        if let Some(other) = id_of(w, kind) {
            let i = choose|i: int|
                0 <= i < w.len() && #[trigger] w[i] == (Win { id: other, kind });
            let k = lemma_kept(ws, is_win(id), i);
            assert(ws[k].kind == ws[n].kind);
            assert(k == n);
        }
    }
}

/// At most one File Info dialog is open: opening another one closes the first.
pub proof fn one_file_info_dialog_at_a_time(s: AppModel, dl: u64, other: u64)
    requires
        other != dl,
        !s.is_open(WinKind::FileInfo(dl)),
    ensures
        s.open_window(WinKind::FileInfo(dl)).is_open(WinKind::FileInfo(dl)),
        !s.open_window(WinKind::FileInfo(dl)).is_open(WinKind::FileInfo(other)),
{
    reveal(AppModel::open_window);
    reveal(AppModel::close_file_info_windows);
    let kind = WinKind::FileInfo(other);
    let t = s.note_superseded().close_file_info_windows();
    let w = t.windows;
    lemma_id_of(w, kind);
    if let Some(id) = id_of(w, kind) {
        let i = choose|i: int| 0 <= i < w.len() && #[trigger] w[i] == (Win { id, kind });
        let k = lemma_kept(s.windows, of_file_info(), i);
    }
    let new = Win { id: t.next_win, kind: WinKind::FileInfo(dl) };
    assert(w.push(new).drop_last() =~= w);
}

/// A closing that is reported late touches no later window: after a window was
/// closed and another one of its kind was opened, word that the first one is
/// gone only settles whether the program shows in the Dock.
pub proof fn late_closings_touch_no_later_window(s: AppModel, kind: WinKind, env: EnvModel)
    requires
        apart(s.windows, s.next_win),
        s.next_win < u64::MAX,
        s.is_open(kind),
    ensures
        ({
            let id = s.win_of(kind)->0;
            let t = s.close_window(kind).open_window(kind);
            t.window_closed(id, env) == t.sync_dock()
        }),
{
    reveal(AppModel::open_window);
    reveal(AppModel::close_window);
    reveal(AppModel::close_file_info_windows);
    reveal(AppModel::window_closed);
    reveal(apart);
    let id = s.win_of(kind)->0;
    let t = s.close_window(kind).open_window(kind);
    closed_windows_are_gone(s, kind);
    lemma_id_of(s.windows, kind);
    let a = s.close_window(kind);
    let b = if kind is FileInfo {
        a.note_superseded().close_file_info_windows()
    } else {
        a
    };
    let new = Win { id: s.next_win, kind };
    assert(t.windows == b.windows.push(new));
    assert forall|i: int| 0 <= i < t.windows.len() implies (#[trigger] t.windows[i]).id != id by {
        if i < b.windows.len() {
            assert(t.windows[i] == b.windows[i]);
            if kind is FileInfo {
                let k = lemma_kept(a.windows, of_file_info(), i);
                let m = lemma_kept(s.windows, is_win(id), k);
            } else {
                let m = lemma_kept(s.windows, is_win(id), i);
            }
        }
    }
    lemma_untouched(t.windows, id);
}

/// Nothing goes where the number is not there.
proof fn lemma_untouched(ws: Seq<Win>, id: WinId)
    requires
        forall|i: int| 0 <= i < ws.len() ==> (#[trigger] ws[i]).id != id,
    ensures
        windows_without(ws, is_win(id)) == ws,
        kind_of(ws, id) is None,
    decreases ws.len(),
{
    if ws.len() > 0 {
        let t = ws.drop_last();
        assert forall|i: int| 0 <= i < t.len() implies (#[trigger] t[i]).id != id by {
            assert(ws[i].id != id);
        }
        lemma_untouched(t, id);
        assert(ws[ws.len() - 1].id != id);
        assert(windows_without(ws, is_win(id)) =~= ws);
    } else {
        assert(windows_without(ws, is_win(id)) =~= ws);
    }
}

/// The mirror-list panel stops growing with the "+N" line, however many files
/// a document describes.
pub proof fn the_panel_stops_growing(n: usize)
    requires
        n > METALINK_PANEL_ROWS,
    ensures
        panel_height(false, Some(n)) == panel_height(false, Some((METALINK_PANEL_ROWS + 1) as usize)),
        panel_height(false, Some(n)) > panel_height(false, Some(METALINK_PANEL_ROWS)),
{
}

} // verus!
