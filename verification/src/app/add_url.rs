//! The Add URL dialog, captures from the clipboard and the browser, and the
//! question about duplicates.
use crate::app::batch::{has_url, stream_file, stream_file_name};
use crate::app::file_info::{copy_info, copy_info_of, new_info, new_info_of, or_text};
use crate::app::{App, AppModel, Env, EnvModel};
use crate::downloads::{free_name, item_of, unique_file_name, Items};
use crate::edits::{set_filed, set_locked_name, to_filed, to_locked_name};
use crate::effect::{Effect, EffectModel};
use crate::engine::{
    file_name_from_url, metalink_address, named_file, names_metalink, parse_url, provisional_name,
    url_file_name, url_parts, MetalinkFile, MetalinkFileModel, MetalinkProbe, MetalinkProbeModel,
    StreamProbe, StreamProbeModel, StreamQuality,
};
use crate::model::{DlId, DownloadItem, StreamInfo, StreamInfoModel};
use crate::names::{
    collision, collision_file, manifest_address, names_manifest, safe_name, sanitize_file_name,
};
use crate::notes::{Note, NoteModel};
use crate::rules::{downloadable, host_blocked, looks_downloadable, site_blocked};
use crate::state::{
    AddUrlState, AddUrlStateModel, ConfirmKind, ConfirmKindModel, PendingAdd, PendingAddModel,
    WinKind,
};
use crate::text::{
    ascii_lower, cat3, chars_of, is_digit, join, joined, lower, parse_number, same, spelled_up_to,
    split, split_text, trim, trimmed, views,
};
use crate::twin::Twin;
use vstd::prelude::*;

verus! {

// ------------------------------------------------------------------- the state

impl AppModel {
    pub open spec fn with_add_url(self, a: AddUrlStateModel) -> AppModel {
        AppModel { add_url: a, ..self }
    }

    pub open spec fn with_pending_add(self, p: Option<PendingAddModel>) -> AppModel {
        AppModel { pending_add: p, ..self }
    }

    pub open spec fn raise_capture(self) -> AppModel {
        AppModel { capture_raise: true, ..self }
    }
}

impl App {
    pub(crate) fn add_url_copy(&self) -> (r: AddUrlState)
        ensures
            r@ == self@.add_url,
    {
        proof {
            reveal(App::model);
        }
        self.add_url.twin()
    }

    pub(crate) fn set_add_url(&mut self, a: AddUrlState)
        ensures
            final(self)@ == old(self)@.with_add_url(a@),
    {
        proof {
            reveal(App::model);
        }
        self.add_url = a;
    }

    pub(crate) fn set_pending_add(&mut self, p: Option<PendingAdd>)
        ensures
            final(self)@ == old(self)@.with_pending_add(p.deep_view()),
    {
        proof {
            reveal(App::model);
        }
        self.pending_add = p;
    }

    fn take_pending_add(&mut self) -> (r: Option<PendingAdd>)
        ensures
            r.deep_view() == old(self)@.pending_add,
            final(self)@ == old(self)@.with_pending_add(None),
    {
        proof {
            reveal(App::model);
        }
        let mut r: Option<PendingAdd> = None;
        core::mem::swap(&mut r, &mut self.pending_add);
        r
    }

    pub(crate) fn raise_capture(&mut self)
        ensures
            final(self)@ == old(self)@.raise_capture(),
    {
        proof {
            reveal(App::model);
        }
        self.capture_raise = true;
    }
}

// --------------------------------------------------------------------- its boxes

/// The digits of a text, no more than `n`.
pub open spec fn digits_of(s: Seq<char>, n: int) -> Seq<char>
    decreases s.len(),
{
    if s.len() == 0 {
        seq![]
    } else {
        let r = digits_of(s.drop_last(), n);
        if is_digit(s.last()) && r.len() < n {
            r.push(s.last())
        } else {
            r
        }
    }
}

pub(crate) fn keep_digits(s: &str, n: usize) -> (r: String)
    ensures
        r@ == digits_of(s@, n as int),
{
    let c = chars_of(s);
    let mut r = String::new();
    let mut kept: usize = 0;
    let mut i: usize = 0;
    assert(s@.take(0) =~= seq![]);
    while i < c.len()
        invariant
            i <= c@.len(),
            c@ == s@,
            kept == r@.len(),
            kept <= i,
            r@ == digits_of(s@.take(i as int), n as int),
        decreases c.len() - i,
    {
        proof {
            assert(s@.take(i + 1).drop_last() =~= s@.take(i as int));
            assert(s@.take(i + 1).last() == s@[i as int]);
        }
        let x = c[i];
        if '0' <= x && x <= '9' && kept < n {
            r.push(x);
            kept += 1;
        }
        i += 1;
    }
    assert(s@.take(i as int) =~= s@);
    r
}

impl AddUrlStateModel {
    /// Another address: what was read of the old one no longer describes it.
    pub open spec fn changed(self, s: Seq<char>) -> AddUrlStateModel {
        let addr = trimmed(s);
        let a = AddUrlStateModel { address: s, error: None, ..self };
        let b = if a.stream_of != addr {
            AddUrlStateModel { stream: None, stream_error: None, quality: None, ..a }
        } else {
            a
        };
        if b.metalink_of != addr {
            AddUrlStateModel { metalink: None, metalink_error: None, ..b }
        } else {
            b
        }
    }

    /// Whether the address is to be read as a mirror list now.
    pub open spec fn wants_metalink(self) -> bool {
        let addr = trimmed(self.address);
        names_metalink(addr) && !self.metalink_probing && self.metalink_of != addr
    }

    /// Whether the address is to be read as a manifest now.
    pub open spec fn wants_stream(self) -> bool {
        let addr = trimmed(self.address);
        names_manifest(addr) && !self.stream_probing && self.stream_of != addr
    }

    /// A manifest has been read, or not. Someone who does not touch the picker
    /// means the best rendition.
    pub open spec fn stream_read(self, r: Result<StreamProbeModel, Seq<char>>) -> AddUrlStateModel {
        match r {
            Ok(p) => AddUrlStateModel {
                stream_probing: false,
                quality: if p.qualities.len() > 0 {
                    Some(p.qualities[0])
                } else {
                    None
                },
                container: "MP4"@,
                stream: Some(p),
                ..self
            },
            Err(e) => AddUrlStateModel {
                stream_probing: false,
                stream: None,
                stream_error: Some(e),
                ..self
            },
        }
    }

    /// A mirror list has been read, or not.
    pub open spec fn metalink_read(self, r: Result<MetalinkProbeModel, Seq<char>>) -> AddUrlStateModel {
        match r {
            Ok(d) => AddUrlStateModel { metalink_probing: false, metalink: Some(d), ..self },
            Err(e) => AddUrlStateModel {
                metalink_probing: false,
                metalink: None,
                metalink_error: Some(e),
                ..self
            },
        }
    }
}

pub open spec fn stream_result(r: Result<StreamProbe, String>) -> Result<
    StreamProbeModel,
    Seq<char>,
> {
    match r {
        Ok(p) => Ok(p@),
        Err(e) => Err(e@),
    }
}

pub open spec fn metalink_result(r: Result<MetalinkProbe, String>) -> Result<
    MetalinkProbeModel,
    Seq<char>,
> {
    match r {
        Ok(p) => Ok(p@),
        Err(e) => Err(e@),
    }
}

fn change_address(a: &mut AddUrlState, s: String)
    ensures
        final(a)@ == old(a)@.changed(s@),
{
    let addr = trim(&s);
    a.address = s;
    a.error = None;
    if !same(&a.stream_of, &addr) {
        a.stream = None;
        a.stream_error = None;
        a.quality = None;
    }
    if !same(&a.metalink_of, &addr) {
        a.metalink = None;
        a.metalink_error = None;
    }
}

fn read_stream(a: &mut AddUrlState, r: Result<StreamProbe, String>)
    ensures
        final(a)@ == old(a)@.stream_read(stream_result(r)),
{
    a.stream_probing = false;
    match r {
        Ok(p) => {
            a.quality = if p.qualities.len() > 0 {
                assert(p.qualities.deep_view()[0] == p.qualities@[0]@);
                Some(p.qualities[0].twin())
            } else {
                None
            };
            a.container = "MP4".to_owned();
            a.stream = Some(p);
        },
        Err(e) => {
            a.stream = None;
            a.stream_error = Some(e);
        },
    }
}

fn read_metalink(a: &mut AddUrlState, r: Result<MetalinkProbe, String>)
    ensures
        final(a)@ == old(a)@.metalink_read(metalink_result(r)),
{
    a.metalink_probing = false;
    match r {
        Ok(d) => {
            a.metalink = Some(d);
        },
        Err(e) => {
            a.metalink = None;
            a.metalink_error = Some(e);
        },
    }
}

impl AppModel {
    /// The manifest at the address is read.
    #[verifier::opaque]
    pub open spec fn probe_stream(self) -> AppModel {
        let url = trimmed(self.add_url.address);
        if url.len() == 0 || self.add_url.stream_probing {
            self
        } else {
            self.with_add_url(
                AddUrlStateModel {
                    stream_probing: true,
                    stream_error: None,
                    stream_of: url,
                    ..self.add_url
                },
            ).emit(
                EffectModel::ProbeStream {
                    url,
                    user_agent: self.cfg.settings.user_agent,
                    cookies: self.add_url.capture_cookies,
                },
            )
        }
    }

    /// The mirror list at the address is read.
    #[verifier::opaque]
    pub open spec fn probe_metalink(self) -> AppModel {
        let url = trimmed(self.add_url.address);
        if url.len() == 0 || self.add_url.metalink_probing {
            self
        } else {
            self.with_add_url(
                AddUrlStateModel {
                    metalink_probing: true,
                    metalink_error: None,
                    metalink_of: url,
                    ..self.add_url
                },
            ).emit(
                EffectModel::ProbeMetalink {
                    batch: false,
                    url,
                    user_agent: self.cfg.settings.user_agent,
                },
            )
        }
    }

    /// The address was edited. One that names a mirror list or a manifest is
    /// read by itself, so that the user sees what it offers before pressing OK.
    #[verifier::opaque]
    pub open spec fn addr_changed(self, text: Seq<char>) -> AppModel {
        let s = self.with_add_url(self.add_url.changed(text)).resize_open(WinKind::AddUrl);
        if self.add_url.changed(text).wants_metalink() {
            s.probe_metalink()
        } else if self.add_url.changed(text).wants_stream() {
            s.probe_stream()
        } else {
            s
        }
    }

    /// The clipboard pre-fills an empty address with a plausible link.
    #[verifier::opaque]
    pub open spec fn addr_prefill(self, text: Option<Seq<char>>) -> AppModel {
        match text {
            Some(t) if self.add_url.address.len() == 0 && !trimmed(t).contains('\n')
                && downloadable(trimmed(t), self.cfg.settings.auto_types) => self.with_add_url(
                AddUrlStateModel { address: trimmed(t), ..self.add_url },
            ),
            _ => self,
        }
    }

    #[verifier::opaque]
    pub open spec fn stream_probed(self, r: Result<StreamProbeModel, Seq<char>>) -> AppModel {
        self.with_add_url(self.add_url.stream_read(r)).resize_open(WinKind::AddUrl)
    }

    #[verifier::opaque]
    pub open spec fn metalink_probed(self, r: Result<MetalinkProbeModel, Seq<char>>) -> AppModel {
        self.with_add_url(self.add_url.metalink_read(r)).resize_open(WinKind::AddUrl)
    }
}

impl App {
    pub(crate) fn probe_stream(&mut self)
        ensures
            final(self)@ == old(self)@.probe_stream(),
    {
        proof {
            reveal(AppModel::probe_stream);
        }
        let mut a = self.add_url_copy();
        let url = trim(&a.address);
        if url.as_str().is_empty() || a.stream_probing {
            return ;
        }
        let user_agent = self.user_agent();
        let cookies = a.capture_cookies.twin();
        a.stream_probing = true;
        a.stream_error = None;
        a.stream_of = url.clone();
        self.set_add_url(a);
        self.emit(Effect::ProbeStream { url, user_agent, cookies });
    }

    pub(crate) fn probe_metalink(&mut self)
        ensures
            final(self)@ == old(self)@.probe_metalink(),
    {
        proof {
            reveal(AppModel::probe_metalink);
        }
        let mut a = self.add_url_copy();
        let url = trim(&a.address);
        if url.as_str().is_empty() || a.metalink_probing {
            return ;
        }
        let user_agent = self.user_agent();
        a.metalink_probing = true;
        a.metalink_error = None;
        a.metalink_of = url.clone();
        self.set_add_url(a);
        self.emit(Effect::ProbeMetalink { batch: false, url, user_agent });
    }

    pub(crate) fn addr_changed(&mut self, text: String)
        ensures
            final(self)@ == old(self)@.addr_changed(text@),
    {
        proof {
            reveal(AppModel::addr_changed);
        }
        let mut a = self.add_url_copy();
        change_address(&mut a, text);
        let addr = trim(&a.address);
        let metalink = metalink_address(&addr) && !a.metalink_probing && !same(
            &a.metalink_of,
            &addr,
        );
        let stream = manifest_address(&addr) && !a.stream_probing && !same(&a.stream_of, &addr);
        self.set_add_url(a);
        self.resize_open(WinKind::AddUrl);
        if metalink {
            self.probe_metalink();
        } else if stream {
            self.probe_stream();
        }
    }

    pub(crate) fn auto_types(&self) -> (r: String)
        ensures
            r@ == self@.cfg.settings.auto_types,
    {
        proof {
            reveal(App::model);
        }
        self.cfg.settings.auto_types.clone()
    }

    pub(crate) fn addr_prefill(&mut self, text: Option<String>)
        ensures
            final(self)@ == old(self)@.addr_prefill(text.deep_view()),
    {
        proof {
            reveal(AppModel::addr_prefill);
        }
        let mut a = self.add_url_copy();
        if !a.address.as_str().is_empty() {
            return ;
        }
        let t = match text {
            Some(t) => trim(&t),
            None => return ,
        };
        if !has_char(&t, '\n') && looks_downloadable(&t, &self.auto_types()) {
            a.address = t;
            self.set_add_url(a);
        }
    }

    pub(crate) fn stream_probed(&mut self, r: Result<StreamProbe, String>)
        ensures
            final(self)@ == old(self)@.stream_probed(stream_result(r)),
    {
        proof {
            reveal(AppModel::stream_probed);
        }
        let mut a = self.add_url_copy();
        read_stream(&mut a, r);
        self.set_add_url(a);
        self.resize_open(WinKind::AddUrl);
    }

    pub(crate) fn metalink_probed(&mut self, r: Result<MetalinkProbe, String>)
        ensures
            final(self)@ == old(self)@.metalink_probed(metalink_result(r)),
    {
        proof {
            reveal(AppModel::metalink_probed);
        }
        let mut a = self.add_url_copy();
        read_metalink(&mut a, r);
        self.set_add_url(a);
        self.resize_open(WinKind::AddUrl);
    }
}

fn has_char(s: &str, x: char) -> (r: bool)
    ensures
        r == s@.contains(x),
{
    let c = chars_of(s);
    let k = crate::text::find_from(&c, 0, x);
    assert(forall|i: int| 0 <= i < k ==> s@[i] != x);
    k < c.len()
}

// ------------------------------------------------------------------------- ok

pub open spec fn nonempty_text(t: Option<Seq<char>>) -> Option<Seq<char>> {
    match t {
        Some(s) if s.len() > 0 => Some(s),
        _ => None,
    }
}

fn filled(t: Option<String>) -> (r: Option<String>)
    ensures
        r.deep_view() == nonempty_text(t.deep_view()),
{
    match t {
        Some(s) => if s.as_str().is_empty() {
            None
        } else {
            Some(s)
        },
        None => None,
    }
}

impl AddUrlStateModel {
    pub open spec fn auth(self) -> Option<(Seq<char>, Seq<char>)> {
        if self.use_auth {
            Some((self.login, self.password))
        } else {
            None
        }
    }

    pub open spec fn saves_ts(self) -> bool {
        lower(self.container) == "ts"@
    }

    /// How long a live stream is to be recorded, in seconds.
    pub open spec fn record_seconds(self) -> u64 {
        let minutes = match spelled_up_to(self.record_minutes, u64::MAX as int) {
            Some(n) => n,
            None => 0,
        };
        if minutes * 60 <= u64::MAX {
            (minutes * 60) as u64
        } else {
            u64::MAX
        }
    }

    /// The stream that an inspected manifest becomes. One that is protected
    /// cannot be saved.
    pub open spec fn stream_info(self) -> Option<StreamInfoModel> {
        match self.stream {
            Some(p) if p.drm is None => Some(
                StreamInfoModel {
                    protocol: p.protocol,
                    variant_url: match self.quality {
                        Some(q) => q.url,
                        None => None,
                    },
                    height: match self.quality {
                        Some(q) => q.height,
                        None => None,
                    },
                    bandwidth: match self.quality {
                        Some(q) => q.bandwidth,
                        None => None,
                    },
                    container: if self.saves_ts() {
                        "TS"@
                    } else {
                        "MP4"@
                    },
                    referer: None,
                    user_agent: None,
                    live: p.live,
                    max_seconds: if p.live && self.record_seconds() > 0 {
                        Some(self.record_seconds())
                    } else {
                        None
                    },
                },
            ),
            _ => None,
        }
    }

    /// The name the file will be saved under, as far as it is known.
    pub open spec fn target_name(self, url: Seq<char>) -> Seq<char> {
        if self.stream_info() is Some {
            stream_file(url, self.saves_ts())
        } else {
            match nonempty_text(self.capture_name) {
                Some(n) => n,
                None => provisional_name(url),
            }
        }
    }

    /// Whether that name is the one the file will really be saved under.
    pub open spec fn is_named(self, url: Seq<char>) -> bool {
        nonempty_text(self.capture_name) is Some || self.stream_info() is Some || named_file(url)
            is Some
    }
}

fn seconds_of(a: &AddUrlState) -> (r: u64)
    ensures
        r == a@.record_seconds(),
{
    let minutes: u64 = match parse_number(&a.record_minutes, u64::MAX) {
        Some(n) => n,
        None => 0,
    };
    crate::downloads::capped_product(minutes, 60)
}

fn ts_wanted(a: &AddUrlState) -> (r: bool)
    ensures
        r == a@.saves_ts(),
{
    same(&ascii_lower(&a.container), "ts")
}

fn info_of_stream(a: &AddUrlState) -> (r: Option<StreamInfo>)
    ensures
        r.deep_view() == a@.stream_info(),
{
    let p = match &a.stream {
        Some(p) => p,
        None => return None,
    };
    if p.drm.is_some() {
        return None;
    }
    let (variant_url, height, bandwidth) = match &a.quality {
        Some(q) => (q.url.twin(), q.height, q.bandwidth),
        None => (None, None, None),
    };
    let secs = seconds_of(a);
    Some(
        StreamInfo {
            protocol: p.protocol.clone(),
            variant_url,
            height,
            bandwidth,
            container: if ts_wanted(a) {
                "TS".to_owned()
            } else {
                "MP4".to_owned()
            },
            referer: None,
            user_agent: None,
            live: p.live,
            max_seconds: if p.live && secs > 0 {
                Some(secs)
            } else {
                None
            },
        },
    )
}

fn name_for(a: &AddUrlState, url: &str) -> (r: String)
    ensures
        r@ == a@.target_name(url@),
{
    if info_of_stream(a).is_some() {
        stream_file_name(url, ts_wanted(a))
    } else {
        match filled(a.capture_name.twin()) {
            Some(n) => n,
            None => file_name_from_url(url),
        }
    }
}

fn is_name_known(a: &AddUrlState, url: &str) -> (r: bool)
    ensures
        r == a@.is_named(url@),
{
    filled(a.capture_name.twin()).is_some() || info_of_stream(a).is_some() || url_file_name(
        url,
    ).is_some()
}

/// The number of the first row with this address.
pub open spec fn row_with_url(v: Items, url: Seq<char>) -> Option<DlId>
    decreases v.len(),
{
    if v.len() == 0 {
        None
    } else if v[0].url == url {
        Some(v[0].id)
    } else {
        row_with_url(v.drop_first(), url)
    }
}

fn find_url(v: &Vec<DownloadItem>, url: &str) -> (r: Option<DlId>)
    ensures
        r == row_with_url(v.deep_view(), url@),
{
    let ghost all = v.deep_view();
    let mut i: usize = 0;
    assert(all.skip(0) =~= all);
    while i < v.len()
        invariant
            i <= v@.len(),
            all == v.deep_view(),
            row_with_url(all, url@) == row_with_url(all.skip(i as int), url@),
        decreases v.len() - i,
    {
        assert(all.skip(i as int)[0] == v@[i as int]@);
        if same(&v[i].url, url) {
            return Some(v[i].id);
        }
        assert(all.skip(i as int).drop_first() =~= all.skip(i + 1));
        i += 1;
    }
    None
}

impl AppModel {
    /// The file on disk that a new download would collide with.
    pub open spec fn add_collision(self, url: Seq<char>, env: EnvModel) -> Option<Seq<char>> {
        let a = self.add_url;
        let name = a.target_name(url);
        let dir = or_text(self.cat_dir_or(self.category(name)), seq![]);
        collision(dir, name, a.is_named(url), env.disk)
    }

    /// The address is in the list already, or its file on disk: the user is
    /// asked instead of downloading twice.
    pub open spec fn ask_duplicate(
        self,
        url: Seq<char>,
        existing: Option<DlId>,
        file: Option<Seq<char>>,
    ) -> AppModel {
        let a = self.add_url;
        AppModel {
            confirm: Some(ConfirmKindModel::Duplicate { existing, file }),
            ..self.with_pending_add(
                Some(
                    PendingAddModel {
                        url,
                        auth: a.auth(),
                        cookies: nonempty_text(a.capture_cookies),
                        name: nonempty_text(a.capture_name),
                        referer: nonempty_text(a.capture_referer),
                    },
                ),
            ).with_add_url(AddUrlStateModel::empty())
        }.close_window(WinKind::AddUrl).open_window(WinKind::Confirm)
    }

    /// The row becomes a stream, under the name that the choice gives it.
    pub open spec fn file_stream(
        self,
        id: DlId,
        name: Seq<char>,
        si: Option<StreamInfoModel>,
    ) -> AppModel {
        match si {
            Some(info) => {
                let cat = self.category(name);
                self.edit_item(
                    id,
                    to_filed(name, cat, or_text(self.cat_dir_or(cat), seq![])),
                ).mark_stream(id, Some(info))
            },
            None => self,
        }
    }

    /// The row of the address in the dialog is added.
    #[verifier::opaque]
    pub open spec fn add_from_dialog(self, url: Seq<char>, now: i64) -> AppModel {
        let a = self.add_url;
        let id = self.state.next_id;
        self.add_item(url, a.auth(), None, now).apply_capture_extras(
            id,
            nonempty_text(a.capture_cookies),
            nonempty_text(a.capture_name),
            nonempty_text(a.capture_referer),
        ).file_stream(id, a.target_name(url), a.stream_info()).with_add_url(
            AddUrlStateModel::empty(),
        ).close_window(WinKind::AddUrl)
    }

    /// The File Info dialog asks about a new row, with its transfer or a probe
    /// behind it.
    #[verifier::opaque]
    pub open spec fn ask_about(self, id: DlId, copy: bool, env: EnvModel) -> AppModel {
        match item_of(self.items(), id) {
            Some(d) => self.with_file_info(
                if copy {
                    copy_info_of(d, !self.may_auto_start(id))
                } else {
                    new_info_of(d, !self.may_auto_start(id))
                },
            ).file_info_prefetch(id, env).open_window(WinKind::FileInfo(id)),
            None => self,
        }
    }

    /// A new row from the dialog: asked about, left alone on a blocked site, or
    /// started.
    pub open spec fn after_add(self, id: DlId, env: EnvModel) -> AppModel {
        if self.cfg.settings.on.show_file_info_dialog {
            self.ask_about(id, false, env)
        } else if self.row_blocked(id) {
            self
        } else {
            self.start_download(id, true, env)
        }
    }

    #[verifier::opaque]
    pub open spec fn row_blocked(self, id: DlId) -> bool {
        match item_of(self.items(), id) {
            Some(d) => host_blocked(d.url, self.sites()),
            None => false,
        }
    }

    /// OK was pressed on an address that can be fetched.
    #[verifier::opaque]
    pub open spec fn add_address(self, url: Seq<char>, env: EnvModel) -> AppModel {
        let existing = row_with_url(self.items(), url);
        let file = self.add_collision(url, env);
        if existing is Some || file is Some {
            self.ask_duplicate(url, existing, file)
        } else {
            self.add_from_dialog(url, env.now).after_add(self.state.next_id, env)
        }
    }

    /// OK was pressed. A mirror list is a list of downloads; an address that
    /// cannot be fetched is refused.
    #[verifier::opaque]
    pub open spec fn add_url_ok(self, env: EnvModel) -> AppModel {
        let url = trimmed(self.add_url.address);
        if self.add_url.metalink is Some && self.add_url.metalink_of == url {
            self.add_metalink_items(env)
        } else {
            match url_parts(url) {
                Err(e) => self.with_add_url(
                    AddUrlStateModel { error: Some(e.words()), ..self.add_url },
                ).resize_open(WinKind::AddUrl),
                Ok(_) => self.add_address(url, env),
            }
        }
    }
}

impl App {
    fn row_with_url(&self, url: &str) -> (r: Option<DlId>)
        ensures
            r == row_with_url(self@.items(), url@),
    {
        proof {
            reveal(App::model);
        }
        find_url(&self.state.downloads, url)
    }

    fn add_collision(&self, url: &str, env: &Env) -> (r: Option<String>)
        ensures
            r.deep_view() == self@.add_collision(url@, env@),
    {
        let a = self.add_url_copy();
        let name = name_for(&a, url);
        let cat = self.category(&name);
        let dir = match self.cat_dir_or(&cat) {
            Some(d) => d,
            None => String::new(),
        };
        collision_file(&dir, &name, is_name_known(&a, url), &env.disk)
    }

    fn ask_duplicate(&mut self, url: String, existing: Option<DlId>, file: Option<String>)
        ensures
            final(self)@ == old(self)@.ask_duplicate(url@, existing, file.deep_view()),
    {
        let a = self.add_url_copy();
        let pending = pending_of(a, url);
        self.set_pending_add(Some(pending));
        self.set_add_url(AddUrlState::default());
        self.set_confirm(Some(ConfirmKind::Duplicate { existing, file }));
        self.close_window(WinKind::AddUrl);
        self.open_window(WinKind::Confirm);
    }

    pub(crate) fn edit_filed(&mut self, id: DlId, name: String, cat: Option<String>, dir: String)
        ensures
            final(self)@ == old(self)@.edit_item(id, to_filed(name@, cat.deep_view(), dir@)),
    {
        let mut v = self.take_items();
        set_filed(&mut v, id, name, cat, dir);
        self.put_items(v);
    }

    fn file_stream(&mut self, id: DlId, name: String, si: Option<StreamInfo>)
        ensures
            final(self)@ == old(self)@.file_stream(id, name@, si.deep_view()),
    {
        if si.is_none() {
            return ;
        }
        let cat = self.category(&name);
        let dir = match self.cat_dir_or(&cat) {
            Some(d) => d,
            None => String::new(),
        };
        self.edit_filed(id, name, cat, dir);
        self.mark_stream(id, si);
    }

    fn add_from_dialog(&mut self, url: String, now: i64) -> (r: DlId)
        ensures
            final(self)@ == old(self)@.add_from_dialog(url@, now),
            r == old(self)@.state.next_id,
    {
        proof {
            reveal(AppModel::add_from_dialog);
        }
        let a = self.add_url_copy();
        let name = name_for(&a, &url);
        let stream = info_of_stream(&a);
        let (auth, cookies, captured, referer) = extras_of(a);
        let id = self.add_item(url, auth, None, now);
        self.apply_capture_extras(id, cookies, captured, referer);
        self.file_stream(id, name, stream);
        self.set_add_url(AddUrlState::default());
        self.close_window(WinKind::AddUrl);
        id
    }

    fn ask_about(&mut self, id: DlId, copy: bool, env: &Env)
        ensures
            final(self)@ == old(self)@.ask_about(id, copy, env@),
    {
        proof {
            reveal(AppModel::ask_about);
        }
        let blocked = !self.may_auto_start(id);
        let fi = match self.item(id) {
            Some(d) => if copy {
                copy_info(d, blocked)
            } else {
                new_info(d, blocked)
            },
            None => return ,
        };
        self.set_file_info(fi);
        self.file_info_prefetch(id, env);
        self.open_window(WinKind::FileInfo(id));
    }

    fn row_blocked(&self, id: DlId) -> (r: bool)
        ensures
            r == self@.row_blocked(id),
    {
        proof {
            reveal(AppModel::row_blocked);
        }
        let sites = self.sites();
        match self.item(id) {
            Some(d) => site_blocked(&d.url, &sites),
            None => false,
        }
    }

    fn after_add(&mut self, id: DlId, env: &Env)
        ensures
            final(self)@ == old(self)@.after_add(id, env@),
    {
        if self.switches().show_file_info_dialog {
            self.ask_about(id, false, env);
        } else if !self.row_blocked(id) {
            self.start_download(id, true, env);
        }
    }

    fn add_address(&mut self, url: String, env: &Env)
        ensures
            final(self)@ == old(self)@.add_address(url@, env@),
    {
        proof {
            reveal(AppModel::add_address);
        }
        let existing = self.row_with_url(&url);
        let file = self.add_collision(&url, env);
        if existing.is_some() || file.is_some() {
            self.ask_duplicate(url, existing, file);
        } else {
            let id = self.add_from_dialog(url, env.now);
            self.after_add(id, env);
        }
    }

    pub(crate) fn add_url_ok(&mut self, env: &Env)
        ensures
            final(self)@ == old(self)@.add_url_ok(env@),
    {
        proof {
            reveal(AppModel::add_url_ok);
        }
        let mut a = self.add_url_copy();
        let url = trim(&a.address);
        if a.metalink.is_some() && same(&a.metalink_of, &url) {
            self.add_metalink_items(env);
            return ;
        }
        match parse_url(&url) {
            Err(e) => {
                a.error = Some(e.text());
                self.set_add_url(a);
                self.resize_open(WinKind::AddUrl);
            },
            Ok(_) => self.add_address(url, env),
        }
    }
}

fn extras_of(a: AddUrlState) -> (r: (
    Option<(String, String)>,
    Option<String>,
    Option<String>,
    Option<String>,
))
    ensures
        r.0.deep_view() == a@.auth(),
        r.1.deep_view() == nonempty_text(a@.capture_cookies),
        r.2.deep_view() == nonempty_text(a@.capture_name),
        r.3.deep_view() == nonempty_text(a@.capture_referer),
{
    let auth = if a.use_auth {
        Some((a.login, a.password))
    } else {
        None
    };
    (auth, filled(a.capture_cookies), filled(a.capture_name), filled(a.capture_referer))
}

fn pending_of(a: AddUrlState, url: String) -> (r: PendingAdd)
    ensures
        r@ == (PendingAddModel {
            url: url@,
            auth: a@.auth(),
            cookies: nonempty_text(a@.capture_cookies),
            name: nonempty_text(a@.capture_name),
            referer: nonempty_text(a@.capture_referer),
        }),
{
    let (auth, cookies, name, referer) = extras_of(a);
    PendingAdd { url, auth, cookies, name, referer }
}

// ------------------------------------------------------------------ mirror lists

impl AppModel {
    /// One file of the mirror list in the dialog is added, unless its address is
    /// in the list.
    #[verifier::opaque]
    pub open spec fn add_listed_file(
        self,
        f: MetalinkFileModel,
        auth: Option<(Seq<char>, Seq<char>)>,
        now: i64,
    ) -> AppModel {
        if has_url(self.items(), f.primary) {
            self
        } else {
            let id = self.state.next_id;
            let s = self.add_item(f.primary, auth, None, now);
            let cat = s.category(f.name);
            s.edit_item(
                id,
                to_filed(f.name, cat, or_text(s.cat_dir_or(cat), seq![])),
            ).edit_item(id, crate::edits::to_metalink(f.name, f.info)).note_signed(id, f)
        }
    }

    /// A signature that comes with a file is recorded, not verified.
    pub open spec fn note_signed(self, id: DlId, f: MetalinkFileModel) -> AppModel {
        if f.info.signed {
            self.note(NoteModel::Unverified { id, name: f.name })
        } else {
            self
        }
    }

    pub open spec fn add_listed_files(
        self,
        files: Seq<MetalinkFileModel>,
        auth: Option<(Seq<char>, Seq<char>)>,
        now: i64,
    ) -> AppModel
        decreases files.len(),
    {
        if files.len() == 0 {
            self
        } else {
            self.add_listed_files(files.drop_last(), auth, now).add_listed_file(
                files.last(),
                auth,
                now,
            )
        }
    }

    /// The downloads start in order; only the first shows its progress.
    pub open spec fn start_in_turn(self, ids: Seq<DlId>, env: EnvModel) -> AppModel
        decreases ids.len(),
    {
        if ids.len() == 0 {
            self
        } else {
            self.start_in_turn(ids.drop_last(), env).start_download(
                ids.last(),
                ids.len() == 1,
                env,
            )
        }
    }

    /// The numbers of the rows behind the first `n`.
    pub open spec fn ids_from(self, n: nat) -> Seq<DlId> {
        Seq::new(
            (if self.items().len() > n {
                self.items().len() - n
            } else {
                0
            }) as nat,
            |i: int| self.items()[n + i].id,
        )
    }

    /// Every file of the mirror list in the dialog becomes a row, and those that
    /// were added start.
    #[verifier::opaque]
    pub open spec fn add_metalink_items(self, env: EnvModel) -> AppModel {
        match self.add_url.metalink {
            Some(doc) => {
                let t = self.add_listed_files(doc.files, self.add_url.auth(), env.now);
                let ids = t.ids_from(self.items().len());
                let s = t.note(
                    NoteModel::MirrorList {
                        origin: doc.origin,
                        version: doc.version,
                        added: ids.len(),
                        files: doc.files.len(),
                    },
                ).with_add_url(AddUrlStateModel::empty()).close_window(WinKind::AddUrl);
                if ids.len() == 0 {
                    s
                } else {
                    s.start_in_turn(ids, env).save_state()
                }
            },
            None => self,
        }
    }
}

impl App {
    fn add_listed_file(&mut self, f: &MetalinkFile, auth: &Option<(String, String)>, now: i64)
        ensures
            final(self)@ == old(self)@.add_listed_file(f@, auth.deep_view(), now),
    {
        proof {
            reveal(AppModel::add_listed_file);
        }
        if self.has_url(&f.primary) {
            return ;
        }
        let id = self.add_item(f.primary.clone(), auth.twin(), None, now);
        let cat = self.category(&f.name);
        let dir = match self.cat_dir_or(&cat) {
            Some(d) => d,
            None => String::new(),
        };
        self.edit_filed(id, f.name.clone(), cat, dir);
        self.edit_metalink(id, f.name.clone(), f.info.twin());
        if f.info.signed {
            self.note(Note::Unverified { id, name: f.name.clone() });
        }
    }

    fn add_listed_files(
        &mut self,
        files: &Vec<MetalinkFile>,
        auth: &Option<(String, String)>,
        now: i64,
    )
        ensures
            final(self)@ == old(self)@.add_listed_files(files.deep_view(), auth.deep_view(), now),
    {
        let ghost all = files.deep_view();
        let mut i: usize = 0;
        assert(all.take(0) =~= seq![]);
        while i < files.len()
            invariant
                i <= files@.len(),
                all == files.deep_view(),
                self@ == old(self)@.add_listed_files(all.take(i as int), auth.deep_view(), now),
            decreases files.len() - i,
        {
            proof {
                assert(all.take(i + 1).drop_last() =~= all.take(i as int));
                assert(all.take(i + 1).last() == files@[i as int]@);
            }
            self.add_listed_file(&files[i], auth, now);
            i += 1;
        }
        assert(all.take(i as int) =~= all);
    }

    fn start_in_turn(&mut self, ids: &Vec<DlId>, env: &Env)
        ensures
            final(self)@ == old(self)@.start_in_turn(ids@, env@),
    {
        let mut i: usize = 0;
        assert(ids@.take(0) =~= seq![]);
        while i < ids.len()
            invariant
                i <= ids@.len(),
                self@ == old(self)@.start_in_turn(ids@.take(i as int), env@),
            decreases ids.len() - i,
        {
            proof {
                assert(ids@.take(i + 1).drop_last() =~= ids@.take(i as int));
                assert(ids@.take(i + 1).last() == ids@[i as int]);
            }
            self.start_download(ids[i], i == 0, env);
            i += 1;
        }
        assert(ids@.take(i as int) =~= ids@);
    }

    fn row_count(&self) -> (r: usize)
        ensures
            r == self@.items().len(),
    {
        proof {
            reveal(App::model);
        }
        self.state.downloads.len()
    }

    fn ids_from(&self, n: usize) -> (r: Vec<DlId>)
        ensures
            r@ == self@.ids_from(n as nat),
    {
        proof {
            reveal(App::model);
        }
        let v = &self.state.downloads;
        let ghost all = v.deep_view();
        let mut r: Vec<DlId> = Vec::new();
        let mut i: usize = n;
        while i < v.len()
            invariant
                n <= i,
                i <= v@.len() || i == n,
                all == v.deep_view(),
                r@.len() == i - n,
                forall|k: int| 0 <= k < r@.len() ==> #[trigger] r@[k] == all[n + k].id,
            decreases v.len() - i,
        {
            assert(all[i as int] == v@[i as int]@);
            r.push(v[i].id);
            i += 1;
        }
        assert(r@ =~= self@.ids_from(n as nat));
        r
    }

    /// Turn the mirror list in the dialog into rows: one per file, because one
    /// download fetches one object. They start in turn, not all at once: a
    /// mirror list is a list of volunteer machines.
    fn add_metalink_items(&mut self, env: &Env)
        ensures
            final(self)@ == old(self)@.add_metalink_items(env@),
    {
        proof {
            reveal(AppModel::add_metalink_items);
        }
        let a = self.add_url_copy();
        let auth = if a.use_auth {
            Some((a.login, a.password))
        } else {
            None
        };
        let doc = match a.metalink {
            Some(d) => d,
            None => return ,
        };
        let before = self.row_count();
        self.add_listed_files(&doc.files, &auth, env.now);
        let ids = self.ids_from(before);
        self.note(
            Note::MirrorList {
                origin: doc.origin,
                version: doc.version,
                added: ids.len(),
                files: doc.files.len(),
            },
        );
        self.set_add_url(AddUrlState::default());
        self.close_window(WinKind::AddUrl);
        if ids.len() == 0 {
            return ;
        }
        self.start_in_turn(&ids, env);
        self.save_state();
    }
}

// --------------------------------------------------------------------- captures

impl AppModel {
    /// Whether a line of the clipboard is a new link worth taking.
    pub open spec fn captures(self, line: Seq<char>) -> bool {
        downloadable(line, self.cfg.settings.auto_types) && !host_blocked(line, self.sites())
            && !has_url(self.items(), line)
    }

    /// The links worth taking among lines of text.
    pub open spec fn captured(self, lines: Seq<Seq<char>>) -> Seq<Seq<char>>
        decreases lines.len(),
    {
        if lines.len() == 0 {
            seq![]
        } else {
            let r = self.captured(lines.drop_last());
            let l = trimmed(lines.last());
            if self.captures(l) {
                r.push(l)
            } else {
                r
            }
        }
    }

    pub open spec fn note_clipboard(self, text: Seq<char>) -> AppModel {
        AppModel { last_clipboard: text, ..self }
    }

    /// The clipboard was looked at. New text with one link goes through the Add
    /// URL flow, with several into the batch dialog.
    #[verifier::opaque]
    pub open spec fn clipboard_seen(self, text: Option<Seq<char>>, env: EnvModel) -> AppModel {
        match text {
            Some(t0) => {
                let t = trimmed(t0);
                if t.len() == 0 || t == self.last_clipboard {
                    self
                } else {
                    let s = self.note_clipboard(t);
                    let urls = s.captured(split(t, '\n'));
                    if urls.len() == 0 {
                        s
                    } else if urls.len() == 1 {
                        s.note(NoteModel::ClipboardLink { url: urls[0] }).with_add_url(
                            AddUrlStateModel { address: urls[0], ..AddUrlStateModel::empty() },
                        ).add_url_ok(env)
                    } else {
                        s.note(NoteModel::ClipboardLinks { count: urls.len() }).new_batch(
                        ).batch_loaded(joined(urls, "\n"@))
                    }
                }
            },
            None => self,
        }
    }

    /// The first link worth taking among lines of text, whether or not it is in
    /// the list.
    pub open spec fn first_link(self, lines: Seq<Seq<char>>) -> Option<Seq<char>>
        decreases lines.len(),
    {
        if lines.len() == 0 {
            None
        } else {
            let l = trimmed(lines[0]);
            if downloadable(l, self.cfg.settings.auto_types) && !host_blocked(l, self.sites()) {
                Some(l)
            } else {
                self.first_link(lines.drop_first())
            }
        }
    }

    /// The first link of the clipboard is added and started, unless it is in the
    /// list.
    #[verifier::opaque]
    pub open spec fn clipboard_add(self, text: Option<Seq<char>>, env: EnvModel) -> AppModel {
        match text {
            Some(t) => match self.first_link(split(t, '\n')) {
                Some(url) if !has_url(self.items(), url) => self.add_item(
                    url,
                    None,
                    None,
                    env.now,
                ).start_download(self.state.next_id, true, env),
                _ => self,
            },
            None => self,
        }
    }
}

impl App {
    fn captures(&self, line: &str) -> (r: bool)
        ensures
            r == self@.captures(line@),
    {
        looks_downloadable(line, &self.auto_types()) && !site_blocked(line, &self.sites())
            && !self.has_url(line)
    }

    fn captured(&self, lines: &Vec<String>) -> (r: Vec<String>)
        ensures
            views(r@) == self@.captured(views(lines@)),
    {
        let ghost all = views(lines@);
        let mut r: Vec<String> = Vec::new();
        let mut i: usize = 0;
        assert(all.take(0) =~= seq![]);
        assert(views(r@) =~= seq![]);
        while i < lines.len()
            invariant
                i <= lines@.len(),
                all == views(lines@),
                views(r@) == self@.captured(all.take(i as int)),
            decreases lines.len() - i,
        {
            proof {
                assert(all.take(i + 1).drop_last() =~= all.take(i as int));
                assert(all.take(i + 1).last() == lines@[i as int]@);
            }
            let l = trim(&lines[i]);
            if self.captures(&l) {
                let ghost before = r@;
                r.push(l);
                assert(views(r@) =~= views(before).push(l@));
            }
            i += 1;
        }
        assert(all.take(i as int) =~= all);
        r
    }

    fn last_clipboard(&self) -> (r: String)
        ensures
            r@ == self@.last_clipboard,
    {
        proof {
            reveal(App::model);
        }
        self.last_clipboard.clone()
    }

    fn note_clipboard(&mut self, text: String)
        ensures
            final(self)@ == old(self)@.note_clipboard(text@),
    {
        proof {
            reveal(App::model);
        }
        self.last_clipboard = text;
    }

    fn take_address(&mut self, url: String, env: &Env)
        ensures
            final(self)@ == old(self)@.with_add_url(
                (AddUrlStateModel { address: url@, ..AddUrlStateModel::empty() }),
            ).add_url_ok(env@),
    {
        let mut a = AddUrlState::default();
        a.address = url;
        self.set_add_url(a);
        self.add_url_ok(env);
    }

    pub(crate) fn take_links(&mut self, urls: &Vec<String>)
        ensures
            final(self)@ == old(self)@.new_batch().batch_loaded(joined(views(urls@), "\n"@)),
    {
        let text = join(urls, "\n");
        self.new_batch();
        self.batch_loaded(text);
    }

    pub(crate) fn clipboard_seen(&mut self, text: Option<String>, env: &Env)
        ensures
            final(self)@ == old(self)@.clipboard_seen(text.deep_view(), env@),
    {
        proof {
            reveal(AppModel::clipboard_seen);
        }
        let t = match text {
            Some(t) => trim(&t),
            None => return ,
        };
        if t.as_str().is_empty() || same(&t, &self.last_clipboard()) {
            return ;
        }
        self.note_clipboard(t.clone());
        let lines = split_text(&t, '\n');
        let urls = self.captured(&lines);
        assert(views(urls@).len() == urls@.len());
        if urls.len() == 0 {
            return ;
        }
        if urls.len() == 1 {
            assert(views(urls@)[0] == urls@[0]@);
            self.note(Note::ClipboardLink { url: urls[0].clone() });
            self.take_address(urls[0].clone(), env);
        } else {
            self.note(Note::ClipboardLinks { count: urls.len() });
            self.take_links(&urls);
        }
    }

    fn first_link(&self, lines: &Vec<String>) -> (r: Option<String>)
        ensures
            r.deep_view() == self@.first_link(views(lines@)),
    {
        let ghost all = views(lines@);
        let types = self.auto_types();
        let sites = self.sites();
        let mut i: usize = 0;
        assert(all.skip(0) =~= all);
        while i < lines.len()
            invariant
                i <= lines@.len(),
                all == views(lines@),
                types@ == self@.cfg.settings.auto_types,
                sites@ == self@.sites(),
                self@.first_link(all) == self@.first_link(all.skip(i as int)),
            decreases lines.len() - i,
        {
            assert(all.skip(i as int)[0] == lines@[i as int]@);
            let l = trim(&lines[i]);
            if looks_downloadable(&l, &types) && !site_blocked(&l, &sites) {
                return Some(l);
            }
            assert(all.skip(i as int).drop_first() =~= all.skip(i + 1));
            i += 1;
        }
        None
    }

    pub(crate) fn clipboard_add(&mut self, text: Option<String>, env: &Env)
        ensures
            final(self)@ == old(self)@.clipboard_add(text.deep_view(), env@),
    {
        proof {
            reveal(AppModel::clipboard_add);
        }
        let t = match text {
            Some(t) => t,
            None => return ,
        };
        let lines = split_text(&t, '\n');
        let url = match self.first_link(&lines) {
            Some(u) => u,
            None => return ,
        };
        if self.has_url(&url) {
            return ;
        }
        let id = self.add_item(url, None, None, env.now);
        self.start_download(id, true, env);
    }
}

// ---------------------------------------------------------------------- browser

/// A file that the browser extension captured.
#[derive(Debug)]
pub struct ExtDownload {
    pub url: String,
    pub cookies: Option<String>,
    pub filename: Option<String>,
    pub referer: Option<String>,
}

/// A stream that the browser extension captured, with what it read out of the
/// manifest.
#[derive(Debug)]
pub struct ExtStream {
    pub url: String,
    pub filename: Option<String>,
    pub container: Option<String>,
    pub cookies: Option<String>,
    pub size: Option<u64>,
    pub protocol: Option<String>,
    pub variant_url: Option<String>,
    pub variant: Option<StreamQuality>,
    pub referer: Option<String>,
    pub tab_url: Option<String>,
    pub user_agent: Option<String>,
    pub live: bool,
}

/// What arrives from the browser extension.
#[derive(Debug)]
pub enum ExtEvent {
    Download(ExtDownload),
    Stream(ExtStream),
    Links(Vec<String>),
    Open,
    /// A newer build takes over.
    Shutdown,
}

/// The container a captured stream is saved in.
pub open spec fn ext_container(s: ExtStream) -> Seq<char> {
    or_text(s.container.deep_view(), "MP4"@)
}

/// The file name of a captured stream: the page's title, made safe.
pub open spec fn ext_file(s: ExtStream) -> Seq<char> {
    let base = match s.filename {
        Some(f) if safe_name(f@).len() > 0 => safe_name(f@),
        _ => "stream"@,
    };
    base + "."@ + if lower(ext_container(s)) == "ts"@ {
        "ts"@
    } else {
        "mp4"@
    }
}

/// The stream that the extension read out of its manifest.
pub open spec fn ext_info(s: ExtStream) -> StreamInfoModel {
    let v = s.variant.deep_view();
    StreamInfoModel {
        protocol: or_text(s.protocol.deep_view(), "hls"@),
        variant_url: crate::app::starting::or_else(
            s.variant_url.deep_view(),
            match v {
                Some(q) => q.url,
                None => None,
            },
        ),
        height: match v {
            Some(q) => q.height,
            None => None,
        },
        bandwidth: match v {
            Some(q) => q.bandwidth,
            None => None,
        },
        container: ext_container(s),
        referer: crate::app::starting::or_else(s.referer.deep_view(), s.tab_url.deep_view()),
        user_agent: s.user_agent.deep_view(),
        live: s.live,
        max_seconds: None,
    }
}

fn ext_file_name(s: &ExtStream) -> (r: String)
    ensures
        r@ == ext_file(*s),
{
    let base = match &s.filename {
        Some(f) => {
            let b = sanitize_file_name(f);
            if b.as_str().is_empty() {
                "stream".to_owned()
            } else {
                b
            }
        },
        None => "stream".to_owned(),
    };
    let container = match &s.container {
        Some(c) => c.clone(),
        None => "MP4".to_owned(),
    };
    cat3(
        &base,
        ".",
        if same(&ascii_lower(&container), "ts") {
            "ts"
        } else {
            "mp4"
        },
    )
}

fn ext_stream_info(s: &ExtStream) -> (r: StreamInfo)
    ensures
        r@ == ext_info(*s),
{
    let (vurl, height, bandwidth) = match &s.variant {
        Some(q) => (q.url.twin(), q.height, q.bandwidth),
        None => (None, None, None),
    };
    StreamInfo {
        protocol: match &s.protocol {
            Some(p) => p.clone(),
            None => "hls".to_owned(),
        },
        variant_url: match &s.variant_url {
            Some(u) => Some(u.clone()),
            None => vurl,
        },
        height,
        bandwidth,
        container: match &s.container {
            Some(c) => c.clone(),
            None => "MP4".to_owned(),
        },
        referer: match &s.referer {
            Some(r) => Some(r.clone()),
            None => s.tab_url.twin(),
        },
        user_agent: s.user_agent.twin(),
        live: s.live,
        max_seconds: None,
    }
}

impl AppModel {
    /// A captured file goes the way of a typed address.
    #[verifier::opaque]
    pub open spec fn ext_download(self, d: ExtDownload, env: EnvModel) -> AppModel {
        self.note(NoteModel::Capture { url: d.url@ }).raise_capture().with_add_url(
            AddUrlStateModel {
                address: d.url@,
                capture_cookies: d.cookies.deep_view(),
                capture_name: d.filename.deep_view(),
                capture_referer: d.referer.deep_view(),
                ..AddUrlStateModel::empty()
            },
        ).add_url_ok(env)
    }

    /// A captured stream is added and started: a manifest cannot be probed for a
    /// size or a name, so the row is built from what the extension read.
    #[verifier::opaque]
    pub open spec fn ext_stream(self, x: ExtStream, env: EnvModel) -> AppModel {
        let s = self.note(NoteModel::StreamCapture { url: x.url@ }).raise_capture();
        let cat = s.category(ext_file(x));
        let dir = or_text(s.cat_dir_or(cat), "."@);
        let id = s.state.next_id;
        s.add_item(x.url@, None, None, env.now).edit_item(
            id,
            to_filed(ext_file(x), cat, dir),
        ).edit_item(id, crate::edits::to_sent(x.cookies.deep_view(), x.size)).mark_stream(
            id,
            Some(ext_info(x)),
        ).start_download(id, true, env)
    }

    #[verifier::opaque]
    pub open spec fn on_ext(self, ev: ExtEvent, env: EnvModel) -> AppModel {
        match ev {
            ExtEvent::Download(d) => self.ext_download(d, env),
            ExtEvent::Stream(s) => self.ext_stream(s, env),
            ExtEvent::Links(urls) => self.raise_capture().new_batch().batch_loaded(
                joined(views(urls@), "\n"@),
            ),
            ExtEvent::Open => self.open_window(WinKind::Main),
            ExtEvent::Shutdown => self.note(NoteModel::ShutdownAsked).save_all().emit(
                EffectModel::Exit,
            ),
        }
    }
}

impl App {
    fn ext_download(&mut self, d: ExtDownload, env: &Env)
        ensures
            final(self)@ == old(self)@.ext_download(d, env@),
    {
        proof {
            reveal(AppModel::ext_download);
        }
        self.note(Note::Capture { url: d.url.clone() });
        let mut a = AddUrlState::default();
        a.address = d.url;
        a.capture_cookies = d.cookies;
        a.capture_name = d.filename;
        a.capture_referer = d.referer;
        self.raise_capture();
        self.set_add_url(a);
        self.add_url_ok(env);
    }

    fn edit_sent(&mut self, id: DlId, cookies: Option<String>, size: Option<u64>)
        ensures
            final(self)@ == old(self)@.edit_item(
                id,
                crate::edits::to_sent(cookies.deep_view(), size),
            ),
    {
        let mut v = self.take_items();
        crate::edits::set_sent(&mut v, id, cookies, size);
        self.put_items(v);
    }

    fn ext_stream(&mut self, x: ExtStream, env: &Env)
        ensures
            final(self)@ == old(self)@.ext_stream(x, env@),
    {
        proof {
            reveal(AppModel::ext_stream);
        }
        let name = ext_file_name(&x);
        let info = ext_stream_info(&x);
        self.note(Note::StreamCapture { url: x.url.clone() });
        self.raise_capture();
        let cat = self.category(&name);
        let dir = match self.cat_dir_or(&cat) {
            Some(d) => d,
            None => ".".to_owned(),
        };
        let id = self.add_item(x.url, None, None, env.now);
        self.edit_filed(id, name, cat, dir);
        self.edit_sent(id, x.cookies, x.size);
        self.mark_stream(id, Some(info));
        self.start_download(id, true, env);
    }

    pub fn on_ext(&mut self, ev: ExtEvent, env: &Env)
        ensures
            final(self)@ == old(self)@.on_ext(ev, env@),
    {
        proof {
            reveal(AppModel::on_ext);
        }
        match ev {
            ExtEvent::Download(d) => self.ext_download(d, env),
            ExtEvent::Stream(s) => self.ext_stream(s, env),
            ExtEvent::Links(urls) => {
                self.raise_capture();
                self.take_links(&urls);
            },
            ExtEvent::Open => self.open_window(WinKind::Main),
            ExtEvent::Shutdown => {
                self.note(Note::ShutdownAsked);
                self.save_all();
                self.emit(Effect::Exit);
            },
        }
    }
}

// ------------------------------------------------------------------- duplicates

impl AppModel {
    pub open spec fn clear_confirm(self) -> AppModel {
        AppModel { confirm: None, ..self }
    }

    /// The download that is in the list already is resumed.
    #[verifier::opaque]
    pub open spec fn dup_resume(self, env: EnvModel) -> AppModel {
        let existing = match self.confirm {
            Some(ConfirmKindModel::Duplicate { existing, file }) => existing,
            _ => None,
        };
        let s = self.clear_confirm().with_pending_add(None).close_window(WinKind::Confirm);
        match existing {
            Some(id) => s.with_list(
                crate::app::ListUiModel { selected: seq![id], ..s.list },
            ).start_download(id, true, env),
            None => s,
        }
    }

    /// The file that is on disk already is opened.
    #[verifier::opaque]
    pub open spec fn dup_open(self) -> AppModel {
        let file = match self.confirm {
            Some(ConfirmKindModel::Duplicate { existing, file }) => file,
            _ => None,
        };
        let s = self.clear_confirm();
        (match file {
            Some(f) => s.emit(EffectModel::OpenPath(f)),
            None => s,
        }).with_pending_add(None).close_window(WinKind::Confirm)
    }

    /// The row takes a name that collides with nothing, and keeps it.
    #[verifier::opaque]
    pub open spec fn name_copy(self, id: DlId, env: EnvModel) -> AppModel {
        match item_of(self.items(), id) {
            Some(d) => self.edit_item(
                id,
                to_locked_name(
                    free_name(self.items(), d.save_dir, d.file_name, id, env.disk),
                ),
            ),
            None => self,
        }
    }

    /// The download is added again, as a copy under another name.
    #[verifier::opaque]
    pub open spec fn dup_new(self, env: EnvModel) -> AppModel {
        let s = self.clear_confirm().close_window(WinKind::Confirm);
        match s.pending_add {
            Some(p) => s.with_pending_add(None).add_copy(p, env),
            None => s,
        }
    }

    pub open spec fn add_copy(self, p: PendingAddModel, env: EnvModel) -> AppModel {
        let id = self.state.next_id;
        let s = self.add_item(p.url, p.auth, None, env.now).apply_capture_extras(
            id,
            p.cookies,
            p.name,
            p.referer,
        ).name_copy(id, env).save_state();
        if s.cfg.settings.on.show_file_info_dialog {
            s.ask_about(id, true, env)
        } else {
            s.start_download(id, true, env)
        }
    }
}

impl App {
    pub(crate) fn take_confirm(&mut self) -> (r: Option<ConfirmKind>)
        ensures
            r.deep_view() == old(self)@.confirm,
            final(self)@ == old(self)@.clear_confirm(),
    {
        proof {
            reveal(App::model);
        }
        let mut r: Option<ConfirmKind> = None;
        core::mem::swap(&mut r, &mut self.confirm);
        r
    }

    fn select_only(&mut self, id: DlId)
        ensures
            final(self)@ == old(self)@.with_list(
                (crate::app::ListUiModel { selected: seq![id], ..old(self)@.list }),
            ),
    {
        let mut l = self.take_list();
        l.selected = crate::app::list::only(id);
        self.put_list(l);
    }

    pub(crate) fn dup_resume(&mut self, env: &Env)
        ensures
            final(self)@ == old(self)@.dup_resume(env@),
    {
        proof {
            reveal(AppModel::dup_resume);
        }
        let existing = match self.take_confirm() {
            Some(ConfirmKind::Duplicate { existing, file }) => existing,
            _ => None,
        };
        self.set_pending_add(None);
        self.close_window(WinKind::Confirm);
        if let Some(id) = existing {
            self.select_only(id);
            self.start_download(id, true, env);
        }
    }

    pub(crate) fn dup_open(&mut self)
        ensures
            final(self)@ == old(self)@.dup_open(),
    {
        proof {
            reveal(AppModel::dup_open);
        }
        let file = match self.take_confirm() {
            Some(ConfirmKind::Duplicate { existing, file }) => file,
            _ => None,
        };
        if let Some(f) = file {
            self.emit(Effect::OpenPath(f));
        }
        self.set_pending_add(None);
        self.close_window(WinKind::Confirm);
    }

    fn unique_name_of(&self, d: &DownloadItem, id: DlId, env: &Env) -> (r: String)
        ensures
            r@ == free_name(self@.items(), d@.save_dir, d@.file_name, id, env@.disk),
    {
        proof {
            reveal(App::model);
        }
        unique_file_name(&d.save_dir, &d.file_name, &self.state.downloads, id, &env.disk)
    }

    fn name_copy(&mut self, id: DlId, env: &Env)
        ensures
            final(self)@ == old(self)@.name_copy(id, env@),
    {
        proof {
            reveal(AppModel::name_copy);
        }
        let d = match self.item_copy(id) {
            Some(d) => d,
            None => return ,
        };
        let name = self.unique_name_of(&d, id, env);
        let mut v = self.take_items();
        set_locked_name(&mut v, id, name);
        self.put_items(v);
    }

    fn add_copy(&mut self, p: PendingAdd, env: &Env)
        ensures
            final(self)@ == old(self)@.add_copy(p@, env@),
    {
        let id = self.add_item(p.url, p.auth, None, env.now);
        self.apply_capture_extras(id, p.cookies, p.name, p.referer);
        self.name_copy(id, env);
        self.save_state();
        if self.switches().show_file_info_dialog {
            self.ask_about(id, true, env);
        } else {
            self.start_download(id, true, env);
        }
    }

    pub(crate) fn dup_new(&mut self, env: &Env)
        ensures
            final(self)@ == old(self)@.dup_new(env@),
    {
        proof {
            reveal(AppModel::dup_new);
        }
        self.set_confirm(None);
        self.close_window(WinKind::Confirm);
        if self.has_pending_add() {
            if let Some(p) = self.take_pending_add() {
                self.add_copy(p, env);
            }
        }
    }

    fn has_pending_add(&self) -> (r: bool)
        ensures
            r == (self@.pending_add is Some),
    {
        proof {
            reveal(App::model);
        }
        self.pending_add.is_some()
    }
}

} // verus!
