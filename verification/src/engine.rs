//! What the program asks of the transfer engine, and what it reads out of
//! addresses before it asks.
use crate::ext_info::{decoded, opt_text, percent_decode};
use crate::model::{
    ConnRow, DlId, MetalinkInfo, MetalinkInfoModel, Pieces, PiecesModel,
};
use crate::spans::Span;
use crate::text::{
    after_last, ascii_lower, before_either, behind_last, chars_of, ends, ends_with, find_from,
    find_text, first, first_text, is_char, lower, same, sub_text, up_to_either,
};
use crate::twin::{copy_spans, Twin};
use vstd::prelude::*;

verus! {

/// Why an address is no download link.
#[derive(Clone, Copy, PartialEq, Eq, Structural, Debug)]
pub enum UrlError {
    /// There is no `://` in it: a bare word, or a path on this machine.
    NoScheme,
    /// A scheme that the engine does not speak.
    Scheme,
    /// Nothing between the scheme and the path.
    NoHost,
}

impl UrlError {
    pub open spec fn words(self) -> Seq<char> {
        match self {
            UrlError::NoScheme => "not a download address"@,
            UrlError::Scheme => "unsupported scheme"@,
            UrlError::NoHost => "no host in the address"@,
        }
    }

    /// The sentence shown under the address.
    pub fn text(self) -> (r: String)
        ensures
            r@ == self.words(),
    {
        match self {
            UrlError::NoScheme => "not a download address".to_owned(),
            UrlError::Scheme => "unsupported scheme".to_owned(),
            UrlError::NoHost => "no host in the address".to_owned(),
        }
    }
}

/// The parts of an address that the program looks at.
#[derive(Debug)]
pub struct ParsedUrl {
    pub scheme: String,
    pub host: String,
    pub path: String,
}

/// The model of [`ParsedUrl`].
pub struct UrlParts {
    pub scheme: Seq<char>,
    pub host: Seq<char>,
    pub path: Seq<char>,
}

impl View for ParsedUrl {
    type V = UrlParts;

    open spec fn view(&self) -> UrlParts {
        UrlParts { scheme: self.scheme@, host: self.host@, path: self.path@ }
    }
}

pub open spec fn known_scheme(s: Seq<char>) -> bool {
    s == "http"@ || s == "https"@ || s == "ftp"@
}

/// What ends the authority of an address.
pub open spec fn authority_end() -> spec_fn(char) -> bool {
    |c: char| c == '/' || c == '?' || c == '#'
}

/// The host of an authority: without the user part and without the port.
pub open spec fn host_of(authority: Seq<char>) -> Seq<char> {
    let h = behind_last(authority, '@');
    if h.len() > 0 && h[0] == '[' {
        h.take(if first(h, is_char(']')) < h.len() {
            first(h, is_char(']')) + 1
        } else {
            h.len() as int
        })
    } else {
        h.take(first(h, is_char(':')))
    }
}

/// The parts of an address, or why it has none.
pub open spec fn url_parts(url: Seq<char>) -> Result<UrlParts, UrlError> {
    let i = first_text(url, "://"@, 0);
    if i > url.len() {
        Err(UrlError::NoScheme)
    } else {
        let scheme = lower(url.take(i));
        let rest = url.skip(i + 3);
        let e = first(rest, authority_end());
        let host = host_of(rest.take(e));
        if !known_scheme(scheme) {
            Err(UrlError::Scheme)
        } else if host.len() == 0 {
            Err(UrlError::NoHost)
        } else {
            Ok(UrlParts { scheme, host, path: up_to_either(rest.skip(e), '?', '#') })
        }
    }
}

pub open spec fn url_result(r: Result<ParsedUrl, UrlError>) -> Result<UrlParts, UrlError> {
    match r {
        Ok(p) => Ok(p@),
        Err(e) => Err(e),
    }
}

fn host_in(authority: &str) -> (r: String)
    ensures
        r@ == host_of(authority@),
{
    let h = after_last(authority, '@');
    let c = chars_of(&h);
    assert(c@.skip(0) =~= c@);
    let end: usize = if c.len() > 0 && c[0] == '[' {
        let k = find_from(&c, 0, ']');
        if k < c.len() {
            k + 1
        } else {
            c.len()
        }
    } else {
        find_from(&c, 0, ':')
    };
    let r = sub_text(&c, 0, end);
    assert(r@ =~= h@.take(end as int));
    r
}

/// Reads an address that the engine can fetch. Paths on this machine and
/// schemes that the engine does not speak are refused.
pub fn parse_url(url: &str) -> (r: Result<ParsedUrl, UrlError>)
    ensures
        url_result(r) == url_parts(url@),
{
    proof {
        reveal_strlit("://");
    }
    let c = chars_of(url);
    let mark = chars_of("://");
    let i = match find_text(&c, &mark, 0) {
        Some(i) => i,
        None => return Err(UrlError::NoScheme),
    };
    let head = sub_text(&c, 0, i);
    assert(head@ =~= url@.take(i as int));
    let scheme = ascii_lower(&head);
    let start: usize = i + 3;
    let ghost rest = url@.skip(start as int);
    let mut e: usize = start;
    while e < c.len() && c[e] != '/' && c[e] != '?' && c[e] != '#'
        invariant
            start <= e <= c@.len(),
            forall|k: int|
                start <= k < e ==> #[trigger] c@[k] != '/' && c@[k] != '?' && c@[k] != '#',
        decreases c.len() - e,
    {
        e += 1;
    }
    proof {
        assert forall|k: int| 0 <= k < e - start implies !authority_end()(#[trigger] rest[k]) by {
            assert(rest[k] == c@[k + start]);
        }
        crate::text::lemma_first_is(rest, authority_end(), e - start);
    }
    let authority = sub_text(&c, start, e);
    assert(authority@ =~= rest.take(e - start));
    let host = host_in(&authority);
    if !(same(&scheme, "http") || same(&scheme, "https") || same(&scheme, "ftp")) {
        return Err(UrlError::Scheme);
    }
    if host.as_str().is_empty() {
        return Err(UrlError::NoHost);
    }
    let tail = sub_text(&c, e, c.len());
    assert(tail@ =~= rest.skip(e - start));
    let path = before_either(&tail, '?', '#');
    Ok(ParsedUrl { scheme, host, path })
}

/// The path part of an address: without query and fragment, scheme and host.
pub open spec fn path_of(url: Seq<char>) -> Seq<char> {
    let bare = up_to_either(url, '?', '#');
    let i = first_text(bare, "://"@, 0);
    if i <= bare.len() {
        let rest = bare.skip(i + 3);
        rest.skip(first(rest, is_char('/')))
    } else {
        bare
    }
}

pub fn url_path(url: &str) -> (r: String)
    ensures
        r@ == path_of(url@),
{
    proof {
        reveal_strlit("://");
    }
    let bare = before_either(url, '?', '#');
    let c = chars_of(&bare);
    let mark = chars_of("://");
    match find_text(&c, &mark, 0) {
        Some(i) => {
            let j = find_from(&c, i + 3, '/');
            let r = sub_text(&c, j, c.len());
            assert(r@ =~= bare@.skip(i + 3).skip(j - (i + 3)));
            r
        },
        None => bare,
    }
}

/// The file name that an address itself carries, escapes decoded.
pub open spec fn named_file(url: Seq<char>) -> Option<Seq<char>> {
    let name = decoded(behind_last(path_of(url), '/'));
    if name.len() > 0 {
        Some(name)
    } else {
        None
    }
}

/// Where the bytes go until the server has named the file: the name in the
/// address, or `index.html` where it has none.
pub open spec fn provisional_name(url: Seq<char>) -> Seq<char> {
    match named_file(url) {
        Some(n) => n,
        None => "index.html"@,
    }
}

/// The file name that an address carries, if it carries one.
pub fn url_file_name(url: &str) -> (r: Option<String>)
    ensures
        opt_text(r) == named_file(url@),
{
    let path = url_path(url);
    let name = percent_decode(&after_last(&path, '/'));
    if name.as_str().is_empty() {
        None
    } else {
        Some(name)
    }
}

/// The name that a download starts under.
pub fn file_name_from_url(url: &str) -> (r: String)
    ensures
        r@ == provisional_name(url@),
{
    match url_file_name(url) {
        Some(n) => n,
        None => "index.html".to_owned(),
    }
}

/// Whether an address names a Metalink document.
pub open spec fn names_metalink(url: Seq<char>) -> bool {
    let bare = lower(up_to_either(url, '?', '#'));
    ends(bare, ".meta4"@) || ends(bare, ".metalink"@)
}

pub fn metalink_address(url: &str) -> (r: bool)
    ensures
        r == names_metalink(url@),
{
    let bare = ascii_lower(&before_either(url, '?', '#'));
    ends_with(&bare, ".meta4") || ends_with(&bare, ".metalink")
}

// ------------------------------------------------------------------- probes

/// One rendition that a manifest offers.
#[derive(Debug)]
pub struct StreamQuality {
    pub url: Option<String>,
    pub height: Option<u32>,
    pub bandwidth: Option<u64>,
}

/// The model of [`StreamQuality`].
#[verifier::ext_equal]
pub struct StreamQualityModel {
    pub url: Option<Seq<char>>,
    pub height: Option<u32>,
    pub bandwidth: Option<u64>,
}

impl View for StreamQuality {
    type V = StreamQualityModel;

    open spec fn view(&self) -> StreamQualityModel {
        StreamQualityModel {
            url: self.url.deep_view(),
            height: self.height,
            bandwidth: self.bandwidth,
        }
    }
}

impl DeepView for StreamQuality {
    type V = StreamQualityModel;

    open spec fn deep_view(&self) -> StreamQualityModel {
        self@
    }
}

impl Twin for StreamQuality {
    fn twin(&self) -> (r: Self) {
        StreamQuality {
            url: self.url.twin(),
            height: self.height,
            bandwidth: self.bandwidth,
        }
    }
}

/// What a manifest offers.
#[derive(Debug)]
pub struct StreamProbe {
    pub protocol: String,
    /// Best first.
    pub qualities: Vec<StreamQuality>,
    /// Why the stream cannot be saved, if it is protected.
    pub drm: Option<String>,
    pub live: bool,
}

/// The model of [`StreamProbe`].
#[verifier::ext_equal]
pub struct StreamProbeModel {
    pub protocol: Seq<char>,
    pub qualities: Seq<StreamQualityModel>,
    pub drm: Option<Seq<char>>,
    pub live: bool,
}

impl View for StreamProbe {
    type V = StreamProbeModel;

    open spec fn view(&self) -> StreamProbeModel {
        StreamProbeModel {
            protocol: self.protocol@,
            qualities: self.qualities.deep_view(),
            drm: self.drm.deep_view(),
            live: self.live,
        }
    }
}

impl DeepView for StreamProbe {
    type V = StreamProbeModel;

    open spec fn deep_view(&self) -> StreamProbeModel {
        self@
    }
}

impl Twin for StreamProbe {
    fn twin(&self) -> (r: Self) {
        StreamProbe {
            protocol: self.protocol.clone(),
            qualities: self.qualities.twin(),
            drm: self.drm.twin(),
            live: self.live,
        }
    }
}

/// One file of a mirror list.
#[derive(Debug)]
pub struct MetalinkFile {
    /// The address the download is filed under.
    pub primary: String,
    pub name: String,
    pub info: MetalinkInfo,
}

/// The model of [`MetalinkFile`].
#[verifier::ext_equal]
pub struct MetalinkFileModel {
    pub primary: Seq<char>,
    pub name: Seq<char>,
    pub info: MetalinkInfoModel,
}

impl View for MetalinkFile {
    type V = MetalinkFileModel;

    open spec fn view(&self) -> MetalinkFileModel {
        MetalinkFileModel {
            primary: self.primary@,
            name: self.name@,
            info: self.info@,
        }
    }
}

impl DeepView for MetalinkFile {
    type V = MetalinkFileModel;

    open spec fn deep_view(&self) -> MetalinkFileModel {
        self@
    }
}

impl Twin for MetalinkFile {
    fn twin(&self) -> (r: Self) {
        MetalinkFile {
            primary: self.primary.clone(),
            name: self.name.clone(),
            info: self.info.twin(),
        }
    }
}

/// What a mirror list describes.
#[derive(Debug)]
pub struct MetalinkProbe {
    pub origin: String,
    pub version: String,
    pub files: Vec<MetalinkFile>,
}

/// The model of [`MetalinkProbe`].
#[verifier::ext_equal]
pub struct MetalinkProbeModel {
    pub origin: Seq<char>,
    pub version: Seq<char>,
    pub files: Seq<MetalinkFileModel>,
}

impl View for MetalinkProbe {
    type V = MetalinkProbeModel;

    open spec fn view(&self) -> MetalinkProbeModel {
        MetalinkProbeModel {
            origin: self.origin@,
            version: self.version@,
            files: self.files.deep_view(),
        }
    }
}

impl DeepView for MetalinkProbe {
    type V = MetalinkProbeModel;

    open spec fn deep_view(&self) -> MetalinkProbeModel {
        self@
    }
}

impl Twin for MetalinkProbe {
    fn twin(&self) -> (r: Self) {
        MetalinkProbe {
            origin: self.origin.clone(),
            version: self.version.clone(),
            files: self.files.twin(),
        }
    }
}

/// What a probe learned about a link.
#[derive(Debug)]
pub struct LinkMeta {
    pub file_name: String,
    pub size: Option<u64>,
    pub is_metalink: bool,
}

/// The model of [`LinkMeta`].
#[verifier::ext_equal]
pub struct LinkMetaModel {
    pub file_name: Seq<char>,
    pub size: Option<u64>,
    pub is_metalink: bool,
}

impl View for LinkMeta {
    type V = LinkMetaModel;

    open spec fn view(&self) -> LinkMetaModel {
        LinkMetaModel {
            file_name: self.file_name@,
            size: self.size,
            is_metalink: self.is_metalink,
        }
    }
}

impl DeepView for LinkMeta {
    type V = LinkMetaModel;

    open spec fn deep_view(&self) -> LinkMetaModel {
        self@
    }
}

impl Twin for LinkMeta {
    fn twin(&self) -> (r: Self) {
        LinkMeta {
            file_name: self.file_name.clone(),
            size: self.size,
            is_metalink: self.is_metalink,
        }
    }
}

// ----------------------------------------------------------------- commands

/// Everything the engine needs to start a file transfer.
#[derive(Debug)]
pub struct StartSpec {
    pub id: DlId,
    pub url: String,
    pub auth: Option<(String, String)>,
    pub conns: usize,
    pub user_agent: String,
    pub temp_path: String,
    pub final_path: String,
    pub held: Vec<(u64, u64)>,
    pub expected_size: Option<u64>,
    pub cookies: Option<String>,
    pub referer: Option<String>,
    pub limit: Option<u64>,
    pub adaptive: bool,
    pub remote_time: bool,
    pub mirrors: Vec<String>,
    pub attested_size: Option<u64>,
    pub attested_digest: Option<String>,
    pub pieces: Option<Pieces>,
}

/// The model of [`StartSpec`].
#[verifier::ext_equal]
pub struct StartSpecModel {
    pub id: DlId,
    pub url: Seq<char>,
    pub auth: Option<(Seq<char>, Seq<char>)>,
    pub conns: usize,
    pub user_agent: Seq<char>,
    pub temp_path: Seq<char>,
    pub final_path: Seq<char>,
    pub held: Seq<Span>,
    pub expected_size: Option<u64>,
    pub cookies: Option<Seq<char>>,
    pub referer: Option<Seq<char>>,
    pub limit: Option<u64>,
    pub adaptive: bool,
    pub remote_time: bool,
    pub mirrors: Seq<Seq<char>>,
    pub attested_size: Option<u64>,
    pub attested_digest: Option<Seq<char>>,
    pub pieces: Option<PiecesModel>,
}

impl View for StartSpec {
    type V = StartSpecModel;

    open spec fn view(&self) -> StartSpecModel {
        StartSpecModel {
            id: self.id,
            url: self.url@,
            auth: self.auth.deep_view(),
            conns: self.conns,
            user_agent: self.user_agent@,
            temp_path: self.temp_path@,
            final_path: self.final_path@,
            held: self.held@,
            expected_size: self.expected_size,
            cookies: self.cookies.deep_view(),
            referer: self.referer.deep_view(),
            limit: self.limit,
            adaptive: self.adaptive,
            remote_time: self.remote_time,
            mirrors: self.mirrors.deep_view(),
            attested_size: self.attested_size,
            attested_digest: self.attested_digest.deep_view(),
            pieces: self.pieces.deep_view(),
        }
    }
}

impl DeepView for StartSpec {
    type V = StartSpecModel;

    open spec fn deep_view(&self) -> StartSpecModel {
        self@
    }
}

impl Twin for StartSpec {
    fn twin(&self) -> (r: Self) {
        StartSpec {
            id: self.id,
            url: self.url.clone(),
            auth: self.auth.twin(),
            conns: self.conns,
            user_agent: self.user_agent.clone(),
            temp_path: self.temp_path.clone(),
            final_path: self.final_path.clone(),
            held: copy_spans(&self.held),
            expected_size: self.expected_size,
            cookies: self.cookies.twin(),
            referer: self.referer.twin(),
            limit: self.limit,
            adaptive: self.adaptive,
            remote_time: self.remote_time,
            mirrors: self.mirrors.twin(),
            attested_size: self.attested_size,
            attested_digest: self.attested_digest.twin(),
            pieces: self.pieces.twin(),
        }
    }
}

/// Everything the engine needs to start a stream.
#[derive(Debug)]
pub struct StreamSpec {
    pub id: DlId,
    pub manifest: String,
    pub protocol: String,
    pub variant_url: Option<String>,
    pub height: Option<u32>,
    pub bandwidth: Option<u64>,
    pub container: String,
    pub cookies: Option<String>,
    pub referer: Option<String>,
    pub user_agent: String,
    pub temp_path: String,
    pub final_path: String,
    pub conns: usize,
    pub max_seconds: Option<u64>,
    pub limit: Option<u64>,
}

/// The model of [`StreamSpec`].
#[verifier::ext_equal]
pub struct StreamSpecModel {
    pub id: DlId,
    pub manifest: Seq<char>,
    pub protocol: Seq<char>,
    pub variant_url: Option<Seq<char>>,
    pub height: Option<u32>,
    pub bandwidth: Option<u64>,
    pub container: Seq<char>,
    pub cookies: Option<Seq<char>>,
    pub referer: Option<Seq<char>>,
    pub user_agent: Seq<char>,
    pub temp_path: Seq<char>,
    pub final_path: Seq<char>,
    pub conns: usize,
    pub max_seconds: Option<u64>,
    pub limit: Option<u64>,
}

impl View for StreamSpec {
    type V = StreamSpecModel;

    open spec fn view(&self) -> StreamSpecModel {
        StreamSpecModel {
            id: self.id,
            manifest: self.manifest@,
            protocol: self.protocol@,
            variant_url: self.variant_url.deep_view(),
            height: self.height,
            bandwidth: self.bandwidth,
            container: self.container@,
            cookies: self.cookies.deep_view(),
            referer: self.referer.deep_view(),
            user_agent: self.user_agent@,
            temp_path: self.temp_path@,
            final_path: self.final_path@,
            conns: self.conns,
            max_seconds: self.max_seconds,
            limit: self.limit,
        }
    }
}

impl DeepView for StreamSpec {
    type V = StreamSpecModel;

    open spec fn deep_view(&self) -> StreamSpecModel {
        self@
    }
}

impl Twin for StreamSpec {
    fn twin(&self) -> (r: Self) {
        StreamSpec {
            id: self.id,
            manifest: self.manifest.clone(),
            protocol: self.protocol.clone(),
            variant_url: self.variant_url.twin(),
            height: self.height,
            bandwidth: self.bandwidth,
            container: self.container.clone(),
            cookies: self.cookies.twin(),
            referer: self.referer.twin(),
            user_agent: self.user_agent.clone(),
            temp_path: self.temp_path.clone(),
            final_path: self.final_path.clone(),
            conns: self.conns,
            max_seconds: self.max_seconds,
            limit: self.limit,
        }
    }
}

/// What the engine is told.
#[derive(Debug)]
pub enum Cmd {
    Start(StartSpec),
    StartStream(StreamSpec),
    Stop(DlId),
    SetLimit(DlId, Option<u64>),
    SetFinalPath(DlId, String),
    SetPowerSave(bool),
}

/// The model of [`Cmd`].
#[verifier::ext_equal]
pub enum CmdModel {
    Start(StartSpecModel),
    StartStream(StreamSpecModel),
    Stop(DlId),
    SetLimit(DlId, Option<u64>),
    SetFinalPath(DlId, Seq<char>),
    SetPowerSave(bool),
}

impl View for Cmd {
    type V = CmdModel;

    open spec fn view(&self) -> CmdModel {
        match *self {
            Cmd::Start(a) => CmdModel::Start(a@),
            Cmd::StartStream(a) => CmdModel::StartStream(a@),
            Cmd::Stop(a) => CmdModel::Stop(a),
            Cmd::SetLimit(a, b) => CmdModel::SetLimit(a, b),
            Cmd::SetFinalPath(a, b) => CmdModel::SetFinalPath(a, b@),
            Cmd::SetPowerSave(a) => CmdModel::SetPowerSave(a),
        }
    }
}

impl DeepView for Cmd {
    type V = CmdModel;

    open spec fn deep_view(&self) -> CmdModel {
        self@
    }
}

impl Twin for Cmd {
    fn twin(&self) -> (r: Self) {
        match self {
            Cmd::Start(a) => Cmd::Start(a.twin()),
            Cmd::StartStream(a) => Cmd::StartStream(a.twin()),
            Cmd::Stop(a) => Cmd::Stop(*a),
            Cmd::SetLimit(a, b) => Cmd::SetLimit(*a, *b),
            Cmd::SetFinalPath(a, b) => Cmd::SetFinalPath(*a, b.clone()),
            Cmd::SetPowerSave(a) => Cmd::SetPowerSave(*a),
        }
    }
}

// ------------------------------------------------------------------- events

/// What the engine reports.
#[derive(Debug)]
pub enum Event {
    Probed { id: DlId, size: Option<u64>, ranges: bool, file_name: Option<String> },
    Status { id: DlId, line: String },
    Progress {
        id: DlId,
        done: u64,
        rate_bits: u64,
        recorded_bits: Option<u64>,
        eta: Option<u64>,
        conns: Vec<ConnRow>,
        held: Vec<Span>,
    },
    /// `tenths` counts the tenths of a second that the transfer took.
    Finished { id: DlId, len: u64, tenths: u64 },
    Stopped { id: DlId, done: u64, held: Vec<Span> },
    Failed { id: DlId, error: String, done: u64, held: Vec<Span>, permission_denied: bool },
}

} // verus!
