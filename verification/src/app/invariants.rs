//! What every message keeps.
//!
//! Rows and windows have numbers of their own, no window is open twice, and the
//! shortcuts stand in order. Each step of the program keeps that, and so does every
//! message.
use crate::actions::MenuActionModel;
use crate::app::add_url::{ExtDownload, ExtEvent, ExtStream};
use crate::app::batch::BatchOrderModel;
use crate::app::fields::{AddrField, BatchField, FiField};
use crate::app::options::OptField;
use crate::app::queues::{refiled, Finishing};
use crate::app::scheduler::{ranked, SchField};
use crate::app::transfers::items_without;
use crate::app::update::Message;
use crate::app::updates::Checked;
use crate::app::windows::{apart, closing_keeps_windows_apart, windows_stay_apart};
use crate::app::{AppModel, EnvModel, Mods};
use crate::downloads::{edit, item_at, lemma_item_at, promote_all, release_all, Items};
use crate::edits::{
    to_status, to_state, to_limited, to_started, to_held, to_downloaded, to_spans, to_resume,
    to_size, to_name, to_locked_name, to_dir, to_category, to_queue, to_queue_slot, to_order,
    to_speed_limit, to_progress, to_finished, to_failed, to_retry, to_granted, to_fresh, to_filed,
    to_stream, to_metalink, to_shutdown_after, to_shutdown_action, to_scanning, to_sent,
    to_captured, to_typed, to_saved, to_disconnected,
};
use crate::engine::{Event, LinkMetaModel, MetalinkFileModel, MetalinkProbeModel, StreamProbeModel};
use crate::i18n::Texts;
use crate::model::{
    ConnRowModel, DlId, DlState, DownloadItemModel, MetalinkInfoModel, PowerAction, StreamInfoModel,
    ThemeMode,
};
use crate::queues::{all_done, all_starts, all_works};
use crate::scan::{OutcomeModel, ScanEvent};
use crate::shortcuts::{binding_keeps_the_order, bound, in_order, Bindings, Key};
use crate::sounds;
use crate::spans::Span;
use crate::state::{
    BatchStateModel, FileInfoStateModel, MenuBarKind, OptTab, ProgTab, SchTab, TreeSelModel,
    WinId, WinKind, ZipPeekModel,
};
use crate::update::UpdateEvent;
use vstd::prelude::*;

verus! {

/// Every row has a number of its own, below the next one to be given. Once the
/// numbers have run out nothing is claimed.
#[verifier::opaque]
pub open spec fn numbered(v: Items, next: u64) -> bool {
    next == u64::MAX || ((forall|i: int| 0 <= i < v.len() ==> (#[trigger] v[i]).id < next) && (
    forall|i: int, j: int|
        0 <= i < j < v.len() ==> (#[trigger] v[i]).id != (#[trigger] v[j]).id))
}

/// The shortcuts are in the order of their actions, each once.
#[verifier::opaque]
pub open spec fn sorted(v: Bindings) -> bool {
    in_order(v)
}

/// A state as the program is in between two messages.
pub open spec fn sound(s: AppModel) -> bool {
    numbered(s.state.downloads, s.state.next_id) && apart(s.windows, s.next_win) && sorted(s.cfg.shortcuts)
}

/// A change that leaves a row its number.
#[verifier::opaque]
pub open spec fn keeps_number(f: spec_fn(DownloadItemModel) -> DownloadItemModel) -> bool {
    forall|d: DownloadItemModel| (#[trigger] f(d)).id == d.id
}

broadcast proof fn edits_keep_numbers(
    v: Items,
    id: DlId,
    f: spec_fn(DownloadItemModel) -> DownloadItemModel,
    next: u64,
)
    requires
        numbered(v, next),
        keeps_number(f),
    ensures
        #[trigger] numbered(edit(v, id, f), next),
{
    reveal(numbered);
    reveal(keeps_number);
    lemma_item_at(v, id);
    let k = item_at(v, id);
    assert(k < v.len() ==> f(v[k]).id == v[k].id);
    assert forall|i: int| 0 <= i < v.len() implies (#[trigger] edit(v, id, f)[i]).id == v[i].id by {}
}

/// A list whose rows have the numbers of another one.
proof fn lemma_same_numbers(v: Items, w: Items, next: u64)
    requires
        numbered(v, next),
        w.len() == v.len(),
        forall|i: int| 0 <= i < v.len() ==> (#[trigger] w[i]).id == v[i].id,
    ensures
        numbered(w, next),
{
    reveal(numbered);
}

broadcast proof fn promoting_keeps_numbers(v: Items, q: Seq<char>, next: u64)
    requires
        numbered(v, next),
    ensures
        #[trigger] numbered(promote_all(v, q), next),
{
    lemma_same_numbers(v, promote_all(v, q), next);
}

broadcast proof fn releasing_keeps_numbers(v: Items, next: u64)
    requires
        numbered(v, next),
    ensures
        #[trigger] numbered(release_all(v), next),
{
    lemma_same_numbers(v, release_all(v), next);
}

broadcast proof fn refiling_keeps_numbers(
    v: Items,
    name: Seq<char>,
    new: Option<Seq<char>>,
    next: u64,
)
    requires
        numbered(v, next),
    ensures
        #[trigger] numbered(refiled(v, name, new), next),
{
    lemma_same_numbers(v, refiled(v, name, new), next);
}

broadcast proof fn ranking_keeps_numbers(v: Items, order: Seq<DlId>, next: u64)
    requires
        numbered(v, next),
    ensures
        #[trigger] numbered(ranked(v, order), next),
{
    lemma_same_numbers(v, ranked(v, order), next);
}

/// What is left of a list after a row has gone was in it.
proof fn lemma_left(v: Items, id: DlId, i: int) -> (k: int)
    requires
        0 <= i < items_without(v, id).len(),
    ensures
        i <= k < v.len(),
        items_without(v, id)[i] == v[k],
    decreases v.len(),
{
    if v.last().id == id {
        lemma_left(v.drop_last(), id, i)
    } else if i == items_without(v.drop_last(), id).len() {
        lemma_left_len(v.drop_last(), id);
        v.len() - 1
    } else {
        lemma_left(v.drop_last(), id, i)
    }
}

proof fn lemma_left_len(v: Items, id: DlId)
    ensures
        items_without(v, id).len() <= v.len(),
    decreases v.len(),
{
    if v.len() > 0 {
        lemma_left_len(v.drop_last(), id);
    }
}

broadcast proof fn dropping_keeps_numbers(v: Items, id: DlId, next: u64)
    requires
        numbered(v, next),
    ensures
        #[trigger] numbered(items_without(v, id), next),
    decreases v.len(),
{
    reveal(numbered);
    if v.len() > 0 {
        let t = v.drop_last();
        assert(numbered(t, next)) by {
            assert forall|i: int| 0 <= i < t.len() implies (#[trigger] t[i]) == v[i] by {}
        }
        dropping_keeps_numbers(t, id, next);
        if v.last().id != id && next != u64::MAX {
            let w = items_without(t, id);
            assert forall|i: int| 0 <= i < w.len() implies (#[trigger] w[i]).id != v.last().id by {
                let k = lemma_left(t, id, i);
                assert(t[k] == v[k]);
                assert(v[k].id != v[v.len() - 1].id);
            }
            assert(v.last() == v[v.len() - 1]);
        }
    }
}

/// The number that a new row takes; the next one after it.
pub open spec fn after(next: u64) -> u64 {
    if next < u64::MAX {
        (next + 1) as u64
    } else {
        u64::MAX
    }
}

broadcast proof fn adding_keeps_numbers(v: Items, d: DownloadItemModel, next: u64)
    requires
        numbered(v, next),
        d.id == next,
    ensures
        #[trigger] numbered(v.push(d), after(next)),
{
    reveal(numbered);
}

broadcast proof fn binding_keeps_shortcuts_sorted(v: Bindings, action: Seq<char>, combo: Seq<char>)
    requires
        sorted(v),
    ensures
        #[trigger] sorted(bound(v, action, combo)),
{
    reveal(sorted);
    binding_keeps_the_order(v, action, combo);
}

broadcast proof fn change_status(line: Seq<char>)
    ensures
        keeps_number(#[trigger] to_status(line)),
{
    reveal(keeps_number);
}

broadcast proof fn change_state(st: DlState)
    ensures
        keeps_number(#[trigger] to_state(st)),
{
    reveal(keeps_number);
}

broadcast proof fn change_limited(line: Seq<char>)
    ensures
        keeps_number(#[trigger] to_limited(line)),
{
    reveal(keeps_number);
}

broadcast proof fn change_started(line: Seq<char>, now: i64, part: Seq<char>)
    ensures
        keeps_number(#[trigger] to_started(line, now, part)),
{
    reveal(keeps_number);
}

broadcast proof fn change_held(held: Seq<Span>, bytes: u64)
    ensures
        keeps_number(#[trigger] to_held(held, bytes)),
{
    reveal(keeps_number);
}

broadcast proof fn change_downloaded(bytes: u64)
    ensures
        keeps_number(#[trigger] to_downloaded(bytes)),
{
    reveal(keeps_number);
}

broadcast proof fn change_spans(held: Seq<Span>)
    ensures
        keeps_number(#[trigger] to_spans(held)),
{
    reveal(keeps_number);
}

broadcast proof fn change_resume(ranges: bool)
    ensures
        keeps_number(#[trigger] to_resume(ranges)),
{
    reveal(keeps_number);
}

broadcast proof fn change_size(size: Option<u64>)
    ensures
        keeps_number(#[trigger] to_size(size)),
{
    reveal(keeps_number);
}

broadcast proof fn change_name(name: Seq<char>)
    ensures
        keeps_number(#[trigger] to_name(name)),
{
    reveal(keeps_number);
}

broadcast proof fn change_locked_name(name: Seq<char>)
    ensures
        keeps_number(#[trigger] to_locked_name(name)),
{
    reveal(keeps_number);
}

broadcast proof fn change_dir(dir: Seq<char>)
    ensures
        keeps_number(#[trigger] to_dir(dir)),
{
    reveal(keeps_number);
}

broadcast proof fn change_category(cat: Option<Seq<char>>)
    ensures
        keeps_number(#[trigger] to_category(cat)),
{
    reveal(keeps_number);
}

broadcast proof fn change_queue(queue: Option<Seq<char>>)
    ensures
        keeps_number(#[trigger] to_queue(queue)),
{
    reveal(keeps_number);
}

broadcast proof fn change_queue_slot(queue: Option<Seq<char>>, order: u32)
    ensures
        keeps_number(#[trigger] to_queue_slot(queue, order)),
{
    reveal(keeps_number);
}

broadcast proof fn change_order(order: u32)
    ensures
        keeps_number(#[trigger] to_order(order)),
{
    reveal(keeps_number);
}

broadcast proof fn change_speed_limit(limit: Option<u64>)
    ensures
        keeps_number(#[trigger] to_speed_limit(limit)),
{
    reveal(keeps_number);
}

broadcast proof fn change_progress(
    bytes: u64,
    rate_bits: u64,
    eta: Option<u64>,
    conns: Seq<ConnRowModel>,
    held: Seq<Span>,
    recorded: Option<u64>,
)
    ensures
        keeps_number(#[trigger] to_progress(bytes, rate_bits, eta, conns, held, recorded)),
{
    reveal(keeps_number);
}

broadcast proof fn change_finished(len: u64, line: Seq<char>)
    ensures
        keeps_number(#[trigger] to_finished(len, line)),
{
    reveal(keeps_number);
}

broadcast proof fn change_failed(error: Seq<char>, line: Seq<char>)
    ensures
        keeps_number(#[trigger] to_failed(error, line)),
{
    reveal(keeps_number);
}

broadcast proof fn change_retry(n: u32)
    ensures
        keeps_number(#[trigger] to_retry(n)),
{
    reveal(keeps_number);
}

broadcast proof fn change_granted(dir: Seq<char>)
    ensures
        keeps_number(#[trigger] to_granted(dir)),
{
    reveal(keeps_number);
}

broadcast proof fn change_filed(name: Seq<char>, cat: Option<Seq<char>>, dir: Seq<char>)
    ensures
        keeps_number(#[trigger] to_filed(name, cat, dir)),
{
    reveal(keeps_number);
}

broadcast proof fn change_stream(info: StreamInfoModel)
    ensures
        keeps_number(#[trigger] to_stream(info)),
{
    reveal(keeps_number);
}

broadcast proof fn change_metalink(name: Seq<char>, info: MetalinkInfoModel)
    ensures
        keeps_number(#[trigger] to_metalink(name, info)),
{
    reveal(keeps_number);
}

broadcast proof fn change_shutdown_after(b: bool)
    ensures
        keeps_number(#[trigger] to_shutdown_after(b)),
{
    reveal(keeps_number);
}

broadcast proof fn change_shutdown_action(a: PowerAction)
    ensures
        keeps_number(#[trigger] to_shutdown_action(a)),
{
    reveal(keeps_number);
}

broadcast proof fn change_scanning(line: Seq<char>)
    ensures
        keeps_number(#[trigger] to_scanning(line)),
{
    reveal(keeps_number);
}

broadcast proof fn change_sent(cookies: Option<Seq<char>>, size: Option<u64>)
    ensures
        keeps_number(#[trigger] to_sent(cookies, size)),
{
    reveal(keeps_number);
}

broadcast proof fn change_captured(
    cookies: Option<Seq<char>>,
    referer: Option<Seq<char>>,
    name: Option<Seq<char>>,
    cat: Option<Seq<char>>,
    dir: Option<Seq<char>>,
)
    ensures
        keeps_number(#[trigger] to_captured(cookies, referer, name, cat, dir)),
{
    reveal(keeps_number);
}

broadcast proof fn change_typed(fi: FileInfoStateModel)
    ensures
        keeps_number(#[trigger] to_typed(fi)),
{
    reveal(keeps_number);
}

broadcast proof fn change_saved(fi: FileInfoStateModel, url_changed: bool)
    ensures
        keeps_number(#[trigger] to_saved(fi, url_changed)),
{
    reveal(keeps_number);
}

broadcast proof fn change_disconnected(line: Seq<char>)
    ensures
        keeps_number(#[trigger] to_disconnected(line)),
{
    reveal(keeps_number);
}

proof fn change_fresh()
    ensures
        keeps_number(to_fresh()),
{
    reveal(keeps_number);
}

broadcast group changes {
    change_status,
    change_state,
    change_limited,
    change_started,
    change_held,
    change_downloaded,
    change_spans,
    change_resume,
    change_size,
    change_name,
    change_locked_name,
    change_dir,
    change_category,
    change_queue,
    change_queue_slot,
    change_order,
    change_speed_limit,
    change_progress,
    change_finished,
    change_failed,
    change_retry,
    change_granted,
    change_filed,
    change_stream,
    change_metalink,
    change_shutdown_after,
    change_shutdown_action,
    change_scanning,
    change_sent,
    change_captured,
    change_typed,
    change_saved,
    change_disconnected,
    edits_keep_numbers,
    promoting_keeps_numbers,
    releasing_keeps_numbers,
    refiling_keeps_numbers,
    ranking_keeps_numbers,
    dropping_keeps_numbers,
    adding_keeps_numbers,
    closing_keeps_windows_apart,
    binding_keeps_shortcuts_sorted,
}

// ----------------------------------------------------------- what each step keeps

broadcast proof fn keeps_probe_stream(s: AppModel)
    requires
        sound(s),
    ensures
        sound(#[trigger] s.probe_stream()),
{

    reveal(AppModel::probe_stream);
}

broadcast proof fn keeps_probe_metalink(s: AppModel)
    requires
        sound(s),
    ensures
        sound(#[trigger] s.probe_metalink()),
{

    reveal(AppModel::probe_metalink);
}

broadcast proof fn keeps_addr_changed(s: AppModel, text: Seq<char>)
    requires
        sound(s),
    ensures
        sound(#[trigger] s.addr_changed(text)),
{
    broadcast use keeps_probe_metalink;
    broadcast use keeps_probe_stream;

    reveal(AppModel::addr_changed);
}

broadcast proof fn keeps_addr_prefill(s: AppModel, text: Option<Seq<char>>)
    requires
        sound(s),
    ensures
        sound(#[trigger] s.addr_prefill(text)),
{

    reveal(AppModel::addr_prefill);
}

broadcast proof fn keeps_stream_probed(s: AppModel, r: Result<StreamProbeModel, Seq<char>>)
    requires
        sound(s),
    ensures
        sound(#[trigger] s.stream_probed(r)),
{

    reveal(AppModel::stream_probed);
}

broadcast proof fn keeps_metalink_probed(s: AppModel, r: Result<MetalinkProbeModel, Seq<char>>)
    requires
        sound(s),
    ensures
        sound(#[trigger] s.metalink_probed(r)),
{

    reveal(AppModel::metalink_probed);
}

broadcast proof fn keeps_add_item(
    s: AppModel,
    url: Seq<char>,
    auth: Option<(Seq<char>, Seq<char>)>,
    queue: Option<Seq<char>>,
    now: i64,
)
    requires
        sound(s),
    ensures
        sound(#[trigger] s.add_item(url, auth, queue, now)),
{
    broadcast use changes;

    reveal(AppModel::add_item);
    adding_keeps_numbers(s.state.downloads, s.row_for(url, auth, queue, now), s.state.next_id);
}

broadcast proof fn keeps_apply_capture_extras(
    s: AppModel,
    id: DlId,
    cookies: Option<Seq<char>>,
    name: Option<Seq<char>>,
    referer: Option<Seq<char>>,
)
    requires
        sound(s),
    ensures
        sound(#[trigger] s.apply_capture_extras(id, cookies, name, referer)),
{
    broadcast use changes;

    reveal(AppModel::apply_capture_extras);
}

broadcast proof fn keeps_close_window(s: AppModel, kind: WinKind)
    requires
        sound(s),
    ensures
        sound(#[trigger] s.close_window(kind)),
{
    broadcast use changes;

    reveal(AppModel::close_window);
}

broadcast proof fn keeps_add_from_dialog(s: AppModel, url: Seq<char>, now: i64)
    requires
        sound(s),
    ensures
        sound(#[trigger] s.add_from_dialog(url, now)),
{
    broadcast use changes;
    broadcast use keeps_add_item;
    broadcast use keeps_apply_capture_extras;
    broadcast use keeps_close_window;

    reveal(AppModel::add_from_dialog);
}

broadcast proof fn keeps_close_file_info_windows(s: AppModel)
    requires
        sound(s),
    ensures
        sound(#[trigger] s.close_file_info_windows()),
{
    broadcast use changes;

    reveal(AppModel::close_file_info_windows);
}

broadcast proof fn keeps_open_window(s: AppModel, kind: WinKind)
    requires
        sound(s),
    ensures
        sound(#[trigger] s.open_window(kind)),
{
    broadcast use changes;
    broadcast use keeps_close_file_info_windows;

    reveal(AppModel::open_window);
    windows_stay_apart(s, kind);
    reveal(AppModel::close_file_info_windows);
}

broadcast proof fn keeps_open_progress_window(s: AppModel, dl: u64)
    requires
        sound(s),
    ensures
        sound(#[trigger] s.open_progress_window(dl)),
{
    broadcast use keeps_open_window;

    reveal(AppModel::open_progress_window);
}

broadcast proof fn keeps_start_download(s: AppModel, id: DlId, open_progress: bool, env: EnvModel)
    requires
        sound(s),
    ensures
        sound(#[trigger] s.start_download(id, open_progress, env)),
{
    broadcast use changes;
    broadcast use keeps_open_progress_window;

    reveal(AppModel::start_download);
}

broadcast proof fn keeps_file_info_prefetch(s: AppModel, id: DlId, env: EnvModel)
    requires
        sound(s),
    ensures
        sound(#[trigger] s.file_info_prefetch(id, env)),
{
    broadcast use keeps_start_download;

    reveal(AppModel::file_info_prefetch);
}

broadcast proof fn keeps_ask_about(s: AppModel, id: DlId, copy: bool, env: EnvModel)
    requires
        sound(s),
    ensures
        sound(#[trigger] s.ask_about(id, copy, env)),
{
    broadcast use keeps_file_info_prefetch;
    broadcast use keeps_open_window;

    reveal(AppModel::ask_about);
}

broadcast proof fn keeps_add_address(s: AppModel, url: Seq<char>, env: EnvModel)
    requires
        sound(s),
    ensures
        sound(#[trigger] s.add_address(url, env)),
{
    broadcast use keeps_add_from_dialog;
    broadcast use keeps_ask_about;
    broadcast use keeps_close_window;
    broadcast use keeps_open_window;
    broadcast use keeps_start_download;

    reveal(AppModel::add_address);
}

broadcast proof fn keeps_add_listed_file(
    s: AppModel,
    f: MetalinkFileModel,
    auth: Option<(Seq<char>, Seq<char>)>,
    now: i64,
)
    requires
        sound(s),
    ensures
        sound(#[trigger] s.add_listed_file(f, auth, now)),
{
    broadcast use changes;
    broadcast use keeps_add_item;

    reveal(AppModel::add_listed_file);
}

broadcast proof fn keeps_add_listed_files(
    s: AppModel,
    files: Seq<MetalinkFileModel>,
    auth: Option<(Seq<char>, Seq<char>)>,
    now: i64,
)
    requires
        sound(s),
    ensures
        sound(#[trigger] s.add_listed_files(files, auth, now)),
    decreases files.len(),
{
    broadcast use keeps_add_listed_file;

    if files.len() > 0 {
        keeps_add_listed_files(s, files.drop_last(), auth, now);
    }
}

broadcast proof fn keeps_start_in_turn(s: AppModel, ids: Seq<DlId>, env: EnvModel)
    requires
        sound(s),
    ensures
        sound(#[trigger] s.start_in_turn(ids, env)),
    decreases ids.len(),
{
    broadcast use keeps_start_download;

    if ids.len() > 0 {
        keeps_start_in_turn(s, ids.drop_last(), env);
    }
}

broadcast proof fn keeps_add_metalink_items(s: AppModel, env: EnvModel)
    requires
        sound(s),
    ensures
        sound(#[trigger] s.add_metalink_items(env)),
{
    broadcast use keeps_add_listed_files;
    broadcast use keeps_close_window;
    broadcast use keeps_start_in_turn;

    reveal(AppModel::add_metalink_items);
}

broadcast proof fn keeps_add_url_ok(s: AppModel, env: EnvModel)
    requires
        sound(s),
    ensures
        sound(#[trigger] s.add_url_ok(env)),
{
    broadcast use keeps_add_address;
    broadcast use keeps_add_metalink_items;

    reveal(AppModel::add_url_ok);
}

broadcast proof fn keeps_batch_edit(s: AppModel, text: Seq<char>)
    requires
        sound(s),
    ensures
        sound(#[trigger] s.batch_edit(text)),
{

    reveal(AppModel::batch_edit);
}

broadcast proof fn keeps_batch_loaded(s: AppModel, text: Seq<char>)
    requires
        sound(s),
    ensures
        sound(#[trigger] s.batch_loaded(text)),
{
    broadcast use keeps_batch_edit;

    reveal(AppModel::batch_loaded);
}

broadcast proof fn keeps_clipboard_seen(s: AppModel, text: Option<Seq<char>>, env: EnvModel)
    requires
        sound(s),
    ensures
        sound(#[trigger] s.clipboard_seen(text, env)),
{
    broadcast use keeps_add_url_ok;
    broadcast use keeps_batch_loaded;
    broadcast use keeps_open_window;

    reveal(AppModel::clipboard_seen);
}

broadcast proof fn keeps_clipboard_add(s: AppModel, text: Option<Seq<char>>, env: EnvModel)
    requires
        sound(s),
    ensures
        sound(#[trigger] s.clipboard_add(text, env)),
{
    broadcast use keeps_add_item;
    broadcast use keeps_start_download;

    reveal(AppModel::clipboard_add);
}

broadcast proof fn keeps_ext_download(s: AppModel, d: ExtDownload, env: EnvModel)
    requires
        sound(s),
    ensures
        sound(#[trigger] s.ext_download(d, env)),
{
    broadcast use keeps_add_url_ok;

    reveal(AppModel::ext_download);
}

broadcast proof fn keeps_ext_stream(s: AppModel, x: ExtStream, env: EnvModel)
    requires
        sound(s),
    ensures
        sound(#[trigger] s.ext_stream(x, env)),
{
    broadcast use changes;
    broadcast use keeps_add_item;
    broadcast use keeps_start_download;

    reveal(AppModel::ext_stream);
}

broadcast proof fn keeps_on_ext(s: AppModel, ev: ExtEvent, env: EnvModel)
    requires
        sound(s),
    ensures
        sound(#[trigger] s.on_ext(ev, env)),
{
    broadcast use keeps_batch_loaded;
    broadcast use keeps_ext_download;
    broadcast use keeps_ext_stream;
    broadcast use keeps_open_window;

    reveal(AppModel::on_ext);
}

broadcast proof fn keeps_dup_resume(s: AppModel, env: EnvModel)
    requires
        sound(s),
    ensures
        sound(#[trigger] s.dup_resume(env)),
{
    broadcast use keeps_close_window;
    broadcast use keeps_start_download;

    reveal(AppModel::dup_resume);
}

broadcast proof fn keeps_dup_open(s: AppModel)
    requires
        sound(s),
    ensures
        sound(#[trigger] s.dup_open()),
{
    broadcast use keeps_close_window;

    reveal(AppModel::dup_open);
}

broadcast proof fn keeps_name_copy(s: AppModel, id: DlId, env: EnvModel)
    requires
        sound(s),
    ensures
        sound(#[trigger] s.name_copy(id, env)),
{
    broadcast use changes;

    reveal(AppModel::name_copy);
}

broadcast proof fn keeps_dup_new(s: AppModel, env: EnvModel)
    requires
        sound(s),
    ensures
        sound(#[trigger] s.dup_new(env)),
{
    broadcast use keeps_add_item;
    broadcast use keeps_apply_capture_extras;
    broadcast use keeps_ask_about;
    broadcast use keeps_close_window;
    broadcast use keeps_name_copy;
    broadcast use keeps_start_download;

    reveal(AppModel::dup_new);
}

broadcast proof fn keeps_adopt_probed(
    s: AppModel,
    id: DlId,
    name: Option<Seq<char>>,
    size: Option<u64>,
)
    requires
        sound(s),
    ensures
        sound(#[trigger] s.adopt_probed(id, name, size)),
{
    broadcast use changes;

    reveal(AppModel::adopt_probed);
}

broadcast proof fn keeps_parse_batch(s: AppModel)
    requires
        sound(s),
    ensures
        sound(#[trigger] s.parse_batch()),
{

    reveal(AppModel::parse_batch);
}

broadcast proof fn keeps_batch_probed(s: AppModel, url: Seq<char>, meta: Option<LinkMetaModel>)
    requires
        sound(s),
    ensures
        sound(#[trigger] s.batch_probed(url, meta)),
{

    reveal(AppModel::batch_probed);
}

broadcast proof fn keeps_batch_metalink_probed(
    s: AppModel,
    url: Seq<char>,
    doc: Option<MetalinkProbeModel>,
)
    requires
        sound(s),
    ensures
        sound(#[trigger] s.batch_metalink_probed(url, doc)),
{

    reveal(AppModel::batch_metalink_probed);
}

broadcast proof fn keeps_batch_check(s: AppModel, i: int, b: bool)
    requires
        sound(s),
    ensures
        sound(#[trigger] s.batch_check(i, b)),
{

    reveal(AppModel::batch_check);
}

broadcast proof fn keeps_batch_check_all(s: AppModel, b: bool)
    requires
        sound(s),
    ensures
        sound(#[trigger] s.batch_check_all(b)),
{
    broadcast use keeps_parse_batch;

    reveal(AppModel::batch_check_all);
}

broadcast proof fn keeps_add_batch_file(
    s: AppModel,
    f: MetalinkFileModel,
    queue: Seq<char>,
    w: BatchOrderModel,
    now: i64,
)
    requires
        sound(s),
    ensures
        sound(#[trigger] s.add_batch_file(f, queue, w, now)),
{
    broadcast use changes;
    broadcast use keeps_add_item;

    reveal(AppModel::add_batch_file);
}

broadcast proof fn keeps_add_batch_files(
    s: AppModel,
    files: Seq<MetalinkFileModel>,
    queue: Seq<char>,
    w: BatchOrderModel,
    now: i64,
)
    requires
        sound(s),
    ensures
        sound(#[trigger] s.add_batch_files(files, queue, w, now)),
    decreases files.len(),
{
    broadcast use keeps_add_batch_file;

    if files.len() > 0 {
        keeps_add_batch_files(s, files.drop_last(), queue, w, now);
    }
}

broadcast proof fn keeps_add_batch_link(
    s: AppModel,
    url: Seq<char>,
    name: Option<Seq<char>>,
    queue: Seq<char>,
    w: BatchOrderModel,
    now: i64,
)
    requires
        sound(s),
    ensures
        sound(#[trigger] s.add_batch_link(url, name, queue, w, now)),
{
    broadcast use changes;
    broadcast use keeps_add_item;

    reveal(AppModel::add_batch_link);
}

broadcast proof fn keeps_add_batch_row(
    s: AppModel,
    url: Seq<char>,
    b: BatchStateModel,
    queue: Seq<char>,
    now: i64,
)
    requires
        sound(s),
    ensures
        sound(#[trigger] s.add_batch_row(url, b, queue, now)),
{
    broadcast use keeps_add_batch_files;
    broadcast use keeps_add_batch_link;

    reveal(AppModel::add_batch_row);
}

broadcast proof fn keeps_add_batch_rows(
    s: AppModel,
    urls: Seq<Seq<char>>,
    b: BatchStateModel,
    queue: Seq<char>,
    now: i64,
)
    requires
        sound(s),
    ensures
        sound(#[trigger] s.add_batch_rows(urls, b, queue, now)),
    decreases urls.len(),
{
    broadcast use keeps_add_batch_row;

    if urls.len() > 0 {
        keeps_add_batch_rows(s, urls.drop_last(), b, queue, now);
    }
}

broadcast proof fn keeps_batch_ok(s: AppModel, now: i64)
    requires
        sound(s),
    ensures
        sound(#[trigger] s.batch_ok(now)),
{
    broadcast use keeps_add_batch_rows;
    broadcast use keeps_close_window;
    broadcast use keeps_open_window;
    broadcast use keeps_parse_batch;

    reveal(AppModel::batch_ok);
}

broadcast proof fn keeps_remove_item_opts(s: AppModel, id: DlId, remove_file: bool)
    requires
        sound(s),
    ensures
        sound(#[trigger] s.remove_item_opts(id, remove_file)),
{
    broadcast use changes;

    reveal(AppModel::remove_item_opts);
}

broadcast proof fn keeps_delete_item_opts(s: AppModel, id: DlId, remove_file: bool, ms: u64)
    requires
        sound(s),
    ensures
        sound(#[trigger] s.delete_item_opts(id, remove_file, ms)),
{
    broadcast use keeps_close_window;
    broadcast use keeps_remove_item_opts;

    reveal(AppModel::delete_item_opts);
}

broadcast proof fn keeps_delete_each(s: AppModel, ids: Seq<DlId>, remove_file: bool, ms: u64)
    requires
        sound(s),
    ensures
        sound(#[trigger] s.delete_each(ids, remove_file, ms)),
    decreases ids.len(),
{
    broadcast use keeps_delete_item_opts;

    if ids.len() > 0 {
        keeps_delete_each(s, ids.drop_last(), remove_file, ms);
    }
}

broadcast proof fn keeps_remove_each(s: AppModel, ids: Seq<DlId>, remove_file: bool)
    requires
        sound(s),
    ensures
        sound(#[trigger] s.remove_each(ids, remove_file)),
    decreases ids.len(),
{
    broadcast use keeps_remove_item_opts;

    if ids.len() > 0 {
        keeps_remove_each(s, ids.drop_last(), remove_file);
    }
}

broadcast proof fn keeps_stop_download(s: AppModel, id: DlId)
    requires
        sound(s),
    ensures
        sound(#[trigger] s.stop_download(id)),
{
    broadcast use changes;

    reveal(AppModel::stop_download);
}

broadcast proof fn keeps_stop_each(s: AppModel, ids: Seq<DlId>)
    requires
        sound(s),
    ensures
        sound(#[trigger] s.stop_each(ids)),
    decreases ids.len(),
{
    broadcast use keeps_stop_download;

    if ids.len() > 0 {
        keeps_stop_each(s, ids.drop_last());
    }
}

broadcast proof fn keeps_confirm_yes(s: AppModel, ms: u64)
    requires
        sound(s),
    ensures
        sound(#[trigger] s.confirm_yes(ms)),
{
    broadcast use keeps_close_window;
    broadcast use keeps_delete_each;
    broadcast use keeps_remove_each;
    broadcast use keeps_stop_each;

    reveal(AppModel::confirm_yes);
}

broadcast proof fn keeps_confirm_closed(s: AppModel)
    requires
        sound(s),
    ensures
        sound(#[trigger] s.confirm_closed()),
{

    reveal(AppModel::confirm_closed);
}

broadcast proof fn keeps_main_closed(s: AppModel, env: EnvModel)
    requires
        sound(s),
    ensures
        sound(#[trigger] s.main_closed(env)),
{

    reveal(AppModel::main_closed);
}

broadcast proof fn keeps_listing_closed(s: AppModel, dl: DlId)
    requires
        sound(s),
    ensures
        sound(#[trigger] s.listing_closed(dl)),
{

    reveal(AppModel::listing_closed);
}

broadcast proof fn keeps_info_closed(s: AppModel, dl: DlId, ms: u64)
    requires
        sound(s),
    ensures
        sound(#[trigger] s.info_closed(dl, ms)),
{
    broadcast use keeps_delete_item_opts;

    reveal(AppModel::info_closed);
}

broadcast proof fn keeps_cancel_power_action(s: AppModel)
    requires
        sound(s),
    ensures
        sound(#[trigger] s.cancel_power_action()),
{
    broadcast use keeps_close_window;

    reveal(AppModel::cancel_power_action);
}

broadcast proof fn keeps_update_closed(s: AppModel)
    requires
        sound(s),
    ensures
        sound(#[trigger] s.update_closed()),
{

    reveal(AppModel::update_closed);
}

broadcast proof fn keeps_after_closed(s: AppModel, kind: WinKind, env: EnvModel)
    requires
        sound(s),
    ensures
        sound(#[trigger] s.after_closed(kind, env)),
{
    broadcast use keeps_cancel_power_action;
    broadcast use keeps_confirm_closed;
    broadcast use keeps_info_closed;
    broadcast use keeps_listing_closed;
    broadcast use keeps_main_closed;
    broadcast use keeps_remove_item_opts;
    broadcast use keeps_update_closed;

    reveal(AppModel::after_closed);
}

broadcast proof fn keeps_window_closed(s: AppModel, win: WinId, env: EnvModel)
    requires
        sound(s),
    ensures
        sound(#[trigger] s.window_closed(win, env)),
{
    broadcast use changes;
    broadcast use keeps_after_closed;

    reveal(AppModel::window_closed);
}

broadcast proof fn keeps_dress_window(s: AppModel, win: WinId)
    requires
        sound(s),
    ensures
        sound(#[trigger] s.dress_window(win)),
{

    reveal(AppModel::dress_window);
}

broadcast proof fn keeps_reveal_window(s: AppModel, win: WinId)
    requires
        sound(s),
    ensures
        sound(#[trigger] s.reveal_window(win)),
{
    broadcast use changes;

    reveal(AppModel::reveal_window);
}

broadcast proof fn keeps_window_opened(s: AppModel, win: WinId)
    requires
        sound(s),
    ensures
        sound(#[trigger] s.window_opened(win)),
{
    broadcast use keeps_dress_window;
    broadcast use keeps_reveal_window;

    reveal(AppModel::window_opened);
}

broadcast proof fn keeps_close_this(s: AppModel, win: WinId)
    requires
        sound(s),
    ensures
        sound(#[trigger] s.close_this(win)),
{
    broadcast use changes;
    broadcast use keeps_cancel_power_action;
    broadcast use keeps_confirm_closed;
    broadcast use keeps_listing_closed;
    broadcast use keeps_remove_item_opts;

    reveal(AppModel::close_this);
}

broadcast proof fn keeps_arm_power_action(s: AppModel, action: PowerAction, exit_after: bool)
    requires
        sound(s),
    ensures
        sound(#[trigger] s.arm_power_action(action, exit_after)),
{
    broadcast use keeps_open_window;

    reveal(AppModel::arm_power_action);
}

broadcast proof fn keeps_mark_worked(s: AppModel, names: Seq<Seq<char>>)
    requires
        sound(s),
    ensures
        sound(#[trigger] s.mark_worked(names)),
    decreases names.len(),
{

    if names.len() > 0 {
        keeps_mark_worked(s, names.drop_last());
    }
}

broadcast proof fn keeps_play(s: AppModel, i: int, event: sounds::Event)
    requires
        sound(s),
    ensures
        sound(#[trigger] s.play(i, event)),
{

    reveal(AppModel::play);
}

broadcast proof fn keeps_start_each(s: AppModel, ids: Seq<DlId>, open_progress: bool, env: EnvModel)
    requires
        sound(s),
    ensures
        sound(#[trigger] s.start_each(ids, open_progress, env)),
    decreases ids.len(),
{
    broadcast use keeps_start_download;

    if ids.len() > 0 {
        keeps_start_each(s, ids.drop_last(), open_progress, env);
    }
}

proof fn keeps_finish(f: Finishing, name: Seq<char>)
    requires
        sound(f.app),
    ensures
        sound(f.finish(name).app),
{
    broadcast use keeps_play;

    reveal(Finishing::finish);
}

proof fn keeps_finishing(f: Finishing, names: Seq<Seq<char>>)
    requires
        sound(f.app),
    ensures
        sound(f.finish_all(names).app),
    decreases names.len(),
{
    if names.len() > 0 {
        keeps_finishing(f, names.drop_last());
        keeps_finish(f.finish_all(names.drop_last()), names.last());
    }
}

broadcast proof fn keeps_queue_tick(s: AppModel, env: EnvModel)
    requires
        sound(s),
    ensures
        sound(#[trigger] s.queue_tick(env)),
{
    broadcast use keeps_arm_power_action;
    broadcast use keeps_mark_worked;
    broadcast use keeps_play;
    broadcast use keeps_start_each;

    reveal(AppModel::queue_tick);
    let t = s.mark_worked(all_works(s.items(), s.queues())).start_each(
        all_starts(s.items(), s.queues()),
        false,
        env,
    );
    let f = Finishing { app: t, exit: false, power: None };
    keeps_finishing(f, all_done(t.items(), t.queues()));
    let g = f.finish_all(all_done(t.items(), t.queues()));
    if g.power is Some {
        keeps_arm_power_action(g.app.save_all(), g.power->0, g.exit);
    }
}

broadcast proof fn keeps_park_each(s: AppModel, ids: Seq<DlId>)
    requires
        sound(s),
    ensures
        sound(#[trigger] s.park_each(ids)),
    decreases ids.len(),
{
    broadcast use changes;
    broadcast use keeps_stop_download;

    if ids.len() > 0 {
        keeps_park_each(s, ids.drop_last());
    }
}

broadcast proof fn keeps_quota_park(s: AppModel)
    requires
        sound(s),
    ensures
        sound(#[trigger] s.quota_park()),
{
    broadcast use keeps_park_each;

    reveal(AppModel::quota_park);
}

broadcast proof fn keeps_start_released(s: AppModel, v: Seq<(DlId, bool)>, env: EnvModel)
    requires
        sound(s),
    ensures
        sound(#[trigger] s.start_released(v, env)),
    decreases v.len(),
{
    broadcast use keeps_start_download;

    if v.len() > 0 {
        keeps_start_released(s, v.drop_last(), env);
    }
}

broadcast proof fn keeps_quota_release(s: AppModel, env: EnvModel)
    requires
        sound(s),
    ensures
        sound(#[trigger] s.quota_release(env)),
{
    broadcast use changes;
    broadcast use keeps_start_released;

    reveal(AppModel::quota_release);
}

broadcast proof fn keeps_quota_tick(s: AppModel, env: EnvModel)
    requires
        sound(s),
    ensures
        sound(#[trigger] s.quota_tick(env)),
{
    broadcast use keeps_quota_park;
    broadcast use keeps_quota_release;

    reveal(AppModel::quota_tick);
}

broadcast proof fn keeps_refresh_perm_status(s: AppModel)
    requires
        sound(s),
    ensures
        sound(#[trigger] s.refresh_perm_status()),
{

    reveal(AppModel::refresh_perm_status);
}

broadcast proof fn keeps_set_queue_running(s: AppModel, name: Seq<char>, run: bool)
    requires
        sound(s),
    ensures
        sound(#[trigger] s.set_queue_running(name, run)),
{
    broadcast use changes;
    broadcast use keeps_play;

    reveal(AppModel::set_queue_running);
}

broadcast proof fn keeps_start_queues(s: AppModel, names: Seq<Seq<char>>)
    requires
        sound(s),
    ensures
        sound(#[trigger] s.start_queues(names)),
    decreases names.len(),
{
    broadcast use keeps_set_queue_running;

    if names.len() > 0 {
        keeps_start_queues(s, names.drop_last());
    }
}

broadcast proof fn keeps_stop_queues(s: AppModel, names: Seq<Seq<char>>)
    requires
        sound(s),
    ensures
        sound(#[trigger] s.stop_queues(names)),
    decreases names.len(),
{
    broadcast use keeps_set_queue_running;

    if names.len() > 0 {
        keeps_stop_queues(s, names.drop_last());
    }
}

broadcast proof fn keeps_schedule_tick(s: AppModel, env: EnvModel)
    requires
        sound(s),
    ensures
        sound(#[trigger] s.schedule_tick(env)),
{
    broadcast use keeps_start_queues;
    broadcast use keeps_stop_queues;

    reveal(AppModel::schedule_tick);
}

broadcast proof fn keeps_honour_delete(s: AppModel, id: DlId)
    requires
        sound(s),
    ensures
        sound(#[trigger] s.honour_delete(id)),
{
    broadcast use keeps_remove_item_opts;

    reveal(AppModel::honour_delete);
}

broadcast proof fn keeps_honour_all(s: AppModel, ids: Seq<DlId>)
    requires
        sound(s),
    ensures
        sound(#[trigger] s.honour_all(ids)),
    decreases ids.len(),
{
    broadcast use keeps_honour_delete;

    if ids.len() > 0 {
        keeps_honour_all(s, ids.drop_last());
    }
}

broadcast proof fn keeps_sweep_pending_deletes(s: AppModel, ms: u64)
    requires
        sound(s),
    ensures
        sound(#[trigger] s.sweep_pending_deletes(ms)),
{
    broadcast use keeps_honour_all;

    reveal(AppModel::sweep_pending_deletes);
}

broadcast proof fn keeps_tick(s: AppModel, env: EnvModel)
    requires
        sound(s),
    ensures
        sound(#[trigger] s.tick(env)),
{
    broadcast use keeps_queue_tick;
    broadcast use keeps_quota_tick;
    broadcast use keeps_refresh_perm_status;
    broadcast use keeps_schedule_tick;
    broadcast use keeps_sweep_pending_deletes;

    reveal(AppModel::tick);
}

broadcast proof fn keeps_finish_completion(s: AppModel, id: DlId)
    requires
        sound(s),
    ensures
        sound(#[trigger] s.finish_completion(id)),
{
    broadcast use keeps_arm_power_action;
    broadcast use keeps_close_window;
    broadcast use keeps_open_window;
    broadcast use keeps_play;
    broadcast use keeps_remove_item_opts;

    reveal(AppModel::finish_completion);
}

broadcast proof fn keeps_start_scan(s: AppModel, id: DlId)
    requires
        sound(s),
    ensures
        sound(#[trigger] s.start_scan(id)),
{
    broadcast use changes;

    reveal(AppModel::start_scan);
}

broadcast proof fn keeps_on_probed(
    s: AppModel,
    id: DlId,
    size: Option<u64>,
    ranges: bool,
    file_name: Option<Seq<char>>,
)
    requires
        sound(s),
    ensures
        sound(#[trigger] s.on_probed(id, size, ranges, file_name)),
{
    broadcast use changes;
    broadcast use keeps_adopt_probed;

    reveal(AppModel::on_probed);
}

broadcast proof fn keeps_on_progress(
    s: AppModel,
    id: DlId,
    done: u64,
    rate_bits: u64,
    recorded: Option<u64>,
    eta: Option<u64>,
    conns: Seq<ConnRowModel>,
    held: Seq<Span>,
    now: i64,
)
    requires
        sound(s),
    ensures
        sound(#[trigger] s.on_progress(id, done, rate_bits, recorded, eta, conns, held, now)),
{
    broadcast use changes;
    broadcast use keeps_quota_park;

    reveal(AppModel::on_progress);
}

broadcast proof fn keeps_on_finished(s: AppModel, id: DlId, len: u64, tenths: u64, env: EnvModel)
    requires
        sound(s),
    ensures
        sound(#[trigger] s.on_finished(id, len, tenths, env)),
{
    broadcast use changes;
    broadcast use keeps_close_window;
    broadcast use keeps_finish_completion;
    broadcast use keeps_honour_delete;
    broadcast use keeps_queue_tick;
    broadcast use keeps_start_scan;

    reveal(AppModel::on_finished);
}

broadcast proof fn keeps_on_stopped(
    s: AppModel,
    id: DlId,
    done: u64,
    held: Seq<Span>,
    env: EnvModel,
)
    requires
        sound(s),
    ensures
        sound(#[trigger] s.on_stopped(id, done, held, env)),
{
    broadcast use changes;
    broadcast use keeps_honour_delete;
    broadcast use keeps_queue_tick;

    reveal(AppModel::on_stopped);
}

broadcast proof fn keeps_fail_row(
    s: AppModel,
    id: DlId,
    error: Seq<char>,
    done: u64,
    held: Seq<Span>,
    env: EnvModel,
)
    requires
        sound(s),
    ensures
        sound(#[trigger] s.fail_row(id, error, done, held, env)),
{
    broadcast use changes;
    broadcast use keeps_play;
    broadcast use keeps_queue_tick;

    reveal(AppModel::fail_row);
}

broadcast proof fn keeps_on_failed(
    s: AppModel,
    id: DlId,
    error: Seq<char>,
    done: u64,
    held: Seq<Span>,
    permission_denied: bool,
    env: EnvModel,
)
    requires
        sound(s),
    ensures
        sound(#[trigger] s.on_failed(id, error, done, held, permission_denied, env)),
{
    broadcast use changes;
    broadcast use keeps_fail_row;
    broadcast use keeps_honour_delete;
    broadcast use keeps_queue_tick;

    reveal(AppModel::on_failed);
}

broadcast proof fn keeps_on_granted(
    s: AppModel,
    id: DlId,
    picked: Option<Seq<char>>,
    error: Seq<char>,
    done: u64,
    held: Seq<Span>,
    env: EnvModel,
)
    requires
        sound(s),
    ensures
        sound(#[trigger] s.on_granted(id, picked, error, done, held, env)),
{
    broadcast use changes;
    broadcast use keeps_fail_row;
    broadcast use keeps_start_download;

    reveal(AppModel::on_granted);
}

broadcast proof fn keeps_on_engine(s: AppModel, ev: Event, env: EnvModel)
    requires
        sound(s),
    ensures
        sound(#[trigger] s.on_engine(ev, env)),
{
    broadcast use changes;
    broadcast use keeps_on_failed;
    broadcast use keeps_on_finished;
    broadcast use keeps_on_probed;
    broadcast use keeps_on_progress;
    broadcast use keeps_on_stopped;

    reveal(AppModel::on_engine);
}

broadcast proof fn keeps_menu_open(s: AppModel, kind: MenuBarKind)
    requires
        sound(s),
    ensures
        sound(#[trigger] s.menu_open(kind)),
{

    reveal(AppModel::menu_open);
}

broadcast proof fn keeps_menu_hover(s: AppModel, kind: MenuBarKind)
    requires
        sound(s),
    ensures
        sound(#[trigger] s.menu_hover(kind)),
{

    reveal(AppModel::menu_hover);
}

broadcast proof fn keeps_submenu_hover(s: AppModel, i: Option<usize>)
    requires
        sound(s),
    ensures
        sound(#[trigger] s.submenu_hover(i)),
{

    reveal(AppModel::submenu_hover);
}

broadcast proof fn keeps_queue_menu_open(s: AppModel, start: bool)
    requires
        sound(s),
    ensures
        sound(#[trigger] s.queue_menu_open(start)),
{

    reveal(AppModel::queue_menu_open);
}

broadcast proof fn keeps_row_right_click(s: AppModel, id: DlId)
    requires
        sound(s),
    ensures
        sound(#[trigger] s.row_right_click(id)),
{

    reveal(AppModel::row_right_click);
}

broadcast proof fn keeps_check_updates(s: AppModel)
    requires
        sound(s),
    ensures
        sound(#[trigger] s.check_updates()),
{
    broadcast use keeps_open_window;

    reveal(AppModel::check_updates);
}

broadcast proof fn keeps_open_permissions(s: AppModel)
    requires
        sound(s),
    ensures
        sound(#[trigger] s.open_permissions()),
{
    broadcast use keeps_close_window;
    broadcast use keeps_open_window;
    broadcast use keeps_refresh_perm_status;

    reveal(AppModel::open_permissions);
}

broadcast proof fn keeps_on_help(s: AppModel, action: MenuActionModel)
    requires
        sound(s),
    ensures
        sound(#[trigger] s.on_help(action)),
{
    broadcast use keeps_check_updates;
    broadcast use keeps_open_permissions;
    broadcast use keeps_open_window;

    reveal(AppModel::on_help);
}

broadcast proof fn keeps_enqueue(s: AppModel, id: DlId, q: Seq<char>)
    requires
        sound(s),
    ensures
        sound(#[trigger] s.enqueue(id, q)),
{
    broadcast use changes;

    reveal(AppModel::enqueue);
}

broadcast proof fn keeps_enqueue_each(s: AppModel, ids: Seq<DlId>, q: Seq<char>)
    requires
        sound(s),
    ensures
        sound(#[trigger] s.enqueue_each(ids, q)),
    decreases ids.len(),
{
    broadcast use keeps_enqueue;

    if ids.len() > 0 {
        keeps_enqueue_each(s, ids.drop_last(), q);
    }
}

broadcast proof fn keeps_unqueue(s: AppModel, id: DlId)
    requires
        sound(s),
    ensures
        sound(#[trigger] s.unqueue(id)),
{
    broadcast use changes;

    reveal(AppModel::unqueue);
}

broadcast proof fn keeps_unqueue_each(s: AppModel, ids: Seq<DlId>)
    requires
        sound(s),
    ensures
        sound(#[trigger] s.unqueue_each(ids)),
    decreases ids.len(),
{
    broadcast use keeps_unqueue;

    if ids.len() > 0 {
        keeps_unqueue_each(s, ids.drop_last());
    }
}

broadcast proof fn keeps_on_queues(s: AppModel, action: MenuActionModel, env: EnvModel)
    requires
        sound(s),
    ensures
        sound(#[trigger] s.on_queues(action, env)),
{
    broadcast use keeps_enqueue_each;
    broadcast use keeps_queue_tick;
    broadcast use keeps_set_queue_running;
    broadcast use keeps_unqueue_each;

    reveal(AppModel::on_queues);
}

broadcast proof fn keeps_delete_all_completed(s: AppModel)
    requires
        sound(s),
    ensures
        sound(#[trigger] s.delete_all_completed()),
{
    broadcast use keeps_open_window;

    reveal(AppModel::delete_all_completed);
}

broadcast proof fn keeps_open_selected(s: AppModel, folder: bool)
    requires
        sound(s),
    ensures
        sound(#[trigger] s.open_selected(folder)),
{

    reveal(AppModel::open_selected);
}

broadcast proof fn keeps_redownload(s: AppModel, id: DlId, show: bool, env: EnvModel)
    requires
        sound(s),
    ensures
        sound(#[trigger] s.redownload(id, show, env)),
{
    broadcast use changes;
    broadcast use keeps_start_download;

    reveal(AppModel::redownload);
    change_fresh();
}

broadcast proof fn keeps_redownload_each(s: AppModel, ids: Seq<DlId>, show: bool, env: EnvModel)
    requires
        sound(s),
    ensures
        sound(#[trigger] s.redownload_each(ids, show, env)),
    decreases ids.len(),
{
    broadcast use keeps_redownload;

    if ids.len() > 0 {
        keeps_redownload_each(s, ids.drop_last(), show, env);
    }
}

broadcast proof fn keeps_show_properties(s: AppModel)
    requires
        sound(s),
    ensures
        sound(#[trigger] s.show_properties()),
{
    broadcast use keeps_open_window;

    reveal(AppModel::show_properties);
}

broadcast proof fn keeps_stop_ids_confirming(s: AppModel, ids: Seq<DlId>, stop_queues: bool)
    requires
        sound(s),
    ensures
        sound(#[trigger] s.stop_ids_confirming(ids, stop_queues)),
{
    broadcast use keeps_open_window;
    broadcast use keeps_stop_each;

    reveal(AppModel::stop_ids_confirming);
}

broadcast proof fn keeps_toolbar_delete(s: AppModel)
    requires
        sound(s),
    ensures
        sound(#[trigger] s.toolbar_delete()),
{
    broadcast use keeps_open_window;

    reveal(AppModel::toolbar_delete);
}

broadcast proof fn keeps_on_rows(s: AppModel, action: MenuActionModel, env: EnvModel)
    requires
        sound(s),
    ensures
        sound(#[trigger] s.on_rows(action, env)),
{
    broadcast use keeps_delete_all_completed;
    broadcast use keeps_open_selected;
    broadcast use keeps_redownload_each;
    broadcast use keeps_show_properties;
    broadcast use keeps_start_each;
    broadcast use keeps_stop_ids_confirming;
    broadcast use keeps_toolbar_delete;

    reveal(AppModel::on_rows);
}

broadcast proof fn keeps_choose_language(s: AppModel, tag: Seq<char>)
    requires
        sound(s),
    ensures
        sound(#[trigger] s.choose_language(tag)),
{

    reveal(AppModel::choose_language);
}

broadcast proof fn keeps_hide_categories(s: AppModel)
    requires
        sound(s),
    ensures
        sound(#[trigger] s.hide_categories()),
{

    reveal(AppModel::hide_categories);
}

broadcast proof fn keeps_open_options(s: AppModel, tab: Option<OptTab>)
    requires
        sound(s),
    ensures
        sound(#[trigger] s.open_options(tab)),
{
    broadcast use keeps_open_window;

    reveal(AppModel::open_options);
}

broadcast proof fn keeps_open_scheduler(s: AppModel)
    requires
        sound(s),
    ensures
        sound(#[trigger] s.open_scheduler()),
{
    broadcast use keeps_open_window;

    reveal(AppModel::open_scheduler);
}

broadcast proof fn keeps_set_font(s: AppModel, size: u16)
    requires
        sound(s),
    ensures
        sound(#[trigger] s.set_font(size)),
{

    reveal(AppModel::set_font);
}

broadcast proof fn keeps_set_theme(s: AppModel, mode: ThemeMode)
    requires
        sound(s),
    ensures
        sound(#[trigger] s.set_theme(mode)),
{

    reveal(AppModel::set_theme);
}

broadcast proof fn keeps_toggle_limiter(s: AppModel)
    requires
        sound(s),
    ensures
        sound(#[trigger] s.toggle_limiter()),
{

    reveal(AppModel::toggle_limiter);
}

broadcast proof fn keeps_toggle_power_save(s: AppModel)
    requires
        sound(s),
    ensures
        sound(#[trigger] s.toggle_power_save()),
{

    reveal(AppModel::toggle_power_save);
}

broadcast proof fn keeps_on_settings(s: AppModel, action: MenuActionModel)
    requires
        sound(s),
    ensures
        sound(#[trigger] s.on_settings(action)),
{
    broadcast use keeps_choose_language;
    broadcast use keeps_hide_categories;
    broadcast use keeps_open_options;
    broadcast use keeps_open_scheduler;
    broadcast use keeps_set_font;
    broadcast use keeps_set_theme;
    broadcast use keeps_toggle_limiter;
    broadcast use keeps_toggle_power_save;

    reveal(AppModel::on_settings);
}

broadcast proof fn keeps_add_new_download(s: AppModel)
    requires
        sound(s),
    ensures
        sound(#[trigger] s.add_new_download()),
{
    broadcast use keeps_open_window;

    reveal(AppModel::add_new_download);
}

broadcast proof fn keeps_export_list(s: AppModel)
    requires
        sound(s),
    ensures
        sound(#[trigger] s.export_list()),
{

    reveal(AppModel::export_list);
}

broadcast proof fn keeps_quit(s: AppModel)
    requires
        sound(s),
    ensures
        sound(#[trigger] s.quit()),
{

    reveal(AppModel::quit);
}

broadcast proof fn keeps_on_tasks(s: AppModel, action: MenuActionModel)
    requires
        sound(s),
    ensures
        sound(#[trigger] s.on_tasks(action)),
{
    broadcast use keeps_add_new_download;
    broadcast use keeps_export_list;
    broadcast use keeps_open_window;
    broadcast use keeps_quit;

    reveal(AppModel::on_tasks);
}

broadcast proof fn keeps_on_menu(s: AppModel, action: MenuActionModel, env: EnvModel)
    requires
        sound(s),
    ensures
        sound(#[trigger] s.on_menu(action, env)),
{
    broadcast use keeps_on_help;
    broadcast use keeps_on_queues;
    broadcast use keeps_on_rows;
    broadcast use keeps_on_settings;
    broadcast use keeps_on_tasks;

    reveal(AppModel::on_menu);
}

broadcast proof fn keeps_menu(s: AppModel, action: MenuActionModel, env: EnvModel)
    requires
        sound(s),
    ensures
        sound(#[trigger] s.menu(action, env)),
{
    broadcast use keeps_on_menu;

    reveal(AppModel::menu);
}

broadcast proof fn keeps_native_menu(s: AppModel, id: Seq<char>, env: EnvModel)
    requires
        sound(s),
    ensures
        sound(#[trigger] s.native_menu(id, env)),
{
    broadcast use keeps_menu;
    broadcast use keeps_open_window;

    reveal(AppModel::native_menu);
}

broadcast proof fn keeps_system_theme(s: AppModel, dark: Option<bool>)
    requires
        sound(s),
    ensures
        sound(#[trigger] s.system_theme(dark)),
{

    reveal(AppModel::system_theme);
}

broadcast proof fn keeps_set_mods(s: AppModel, mods: Mods)
    requires
        sound(s),
    ensures
        sound(#[trigger] s.set_mods(mods)),
{

    reveal(AppModel::set_mods);
}

broadcast proof fn keeps_locale_loaded(s: AppModel, lang: Texts)
    requires
        sound(s),
    ensures
        sound(#[trigger] s.locale_loaded(lang)),
{

    reveal(AppModel::locale_loaded);
}

broadcast proof fn keeps_addr_edit(s: AppModel, f: AddrField)
    requires
        sound(s),
    ensures
        sound(#[trigger] s.addr_edit(f)),
{

    reveal(AppModel::addr_edit);
}

broadcast proof fn keeps_fi_edit(s: AppModel, f: FiField)
    requires
        sound(s),
    ensures
        sound(#[trigger] s.fi_edit(f)),
{

    reveal(AppModel::fi_edit);
}

broadcast proof fn keeps_fi_browse(s: AppModel)
    requires
        sound(s),
    ensures
        sound(#[trigger] s.fi_browse()),
{

    reveal(AppModel::fi_browse);
}

broadcast proof fn keeps_info_probed(s: AppModel, id: DlId, meta: Option<LinkMetaModel>)
    requires
        sound(s),
    ensures
        sound(#[trigger] s.info_probed(id, meta)),
{
    broadcast use keeps_adopt_probed;

    reveal(AppModel::info_probed);
}

broadcast proof fn keeps_opt_tab_set(s: AppModel, tab: OptTab)
    requires
        sound(s),
    ensures
        sound(#[trigger] s.opt_tab_set(tab)),
{

    reveal(AppModel::opt_tab_set);
}

broadcast proof fn keeps_sch_name_draft(s: AppModel, v: Seq<char>)
    requires
        sound(s),
    ensures
        sound(#[trigger] s.sch_name_draft(v)),
{

    reveal(AppModel::sch_name_draft);
}

broadcast proof fn keeps_sch_tab_set(s: AppModel, tab: SchTab)
    requires
        sound(s),
    ensures
        sound(#[trigger] s.sch_tab_set(tab)),
{

    reveal(AppModel::sch_tab_set);
}

broadcast proof fn keeps_sch_run(s: AppModel, run: bool, env: EnvModel)
    requires
        sound(s),
    ensures
        sound(#[trigger] s.sch_run(run, env)),
{
    broadcast use keeps_queue_tick;
    broadcast use keeps_set_queue_running;

    reveal(AppModel::sch_run);
}

broadcast proof fn keeps_sch_drag_start(s: AppModel, id: DlId)
    requires
        sound(s),
    ensures
        sound(#[trigger] s.sch_drag_start(id)),
{

    reveal(AppModel::sch_drag_start);
}

broadcast proof fn keeps_batch_field(s: AppModel, f: BatchField)
    requires
        sound(s),
    ensures
        sound(#[trigger] s.batch_field(f)),
{

    reveal(AppModel::batch_field);
}

broadcast proof fn keeps_batch_file(s: AppModel, text: Option<Seq<char>>, from: usize, to: usize)
    requires
        sound(s),
    ensures
        sound(#[trigger] s.batch_file(text, from, to)),
{
    broadcast use keeps_batch_loaded;

    reveal(AppModel::batch_file);
}

broadcast proof fn keeps_confirm_remove(s: AppModel, b: bool)
    requires
        sound(s),
    ensures
        sound(#[trigger] s.confirm_remove(b)),
{

    reveal(AppModel::confirm_remove);
}

broadcast proof fn keeps_fi_category(s: AppModel, c: Seq<char>)
    requires
        sound(s),
    ensures
        sound(#[trigger] s.fi_category(c)),
{

    reveal(AppModel::fi_category);
}

broadcast proof fn keeps_set_bg_download(s: AppModel, b: bool)
    requires
        sound(s),
    ensures
        sound(#[trigger] s.set_bg_download(b)),
{

    reveal(AppModel::set_bg_download);
}

broadcast proof fn keeps_fi_bg_toggle(s: AppModel, b: bool, env: EnvModel)
    requires
        sound(s),
    ensures
        sound(#[trigger] s.fi_bg_toggle(b, env)),
{
    broadcast use keeps_set_bg_download;
    broadcast use keeps_start_download;
    broadcast use keeps_stop_download;

    reveal(AppModel::fi_bg_toggle);
}

broadcast proof fn keeps_store_info(s: AppModel, fi: FileInfoStateModel)
    requires
        sound(s),
    ensures
        sound(#[trigger] s.store_info(fi)),
{
    broadcast use changes;
    broadcast use keeps_close_file_info_windows;

    reveal(AppModel::store_info);
}

broadcast proof fn keeps_fi_start(s: AppModel, env: EnvModel)
    requires
        sound(s),
    ensures
        sound(#[trigger] s.fi_start(env)),
{
    broadcast use keeps_open_progress_window;
    broadcast use keeps_start_download;
    broadcast use keeps_store_info;

    reveal(AppModel::fi_start);
}

broadcast proof fn keeps_fi_later(s: AppModel)
    requires
        sound(s),
    ensures
        sound(#[trigger] s.fi_later()),
{
    broadcast use changes;
    broadcast use keeps_stop_download;
    broadcast use keeps_store_info;

    reveal(AppModel::fi_later);
}

broadcast proof fn keeps_fi_cancel(s: AppModel, ms: u64)
    requires
        sound(s),
    ensures
        sound(#[trigger] s.fi_cancel(ms)),
{
    broadcast use keeps_close_file_info_windows;
    broadcast use keeps_delete_item_opts;

    reveal(AppModel::fi_cancel);
}

broadcast proof fn keeps_fi_preview(s: AppModel)
    requires
        sound(s),
    ensures
        sound(#[trigger] s.fi_preview()),
{
    broadcast use keeps_open_window;

    reveal(AppModel::fi_preview);
}

broadcast proof fn keeps_zip_peeked(s: AppModel, dl: DlId, result: ZipPeekModel)
    requires
        sound(s),
    ensures
        sound(#[trigger] s.zip_peeked(dl, result)),
{

    reveal(AppModel::zip_peeked);
}

broadcast proof fn keeps_toolbar_resume(s: AppModel, env: EnvModel)
    requires
        sound(s),
    ensures
        sound(#[trigger] s.toolbar_resume(env)),
{
    broadcast use keeps_start_each;

    reveal(AppModel::toolbar_resume);
}

broadcast proof fn keeps_toolbar_stop(s: AppModel)
    requires
        sound(s),
    ensures
        sound(#[trigger] s.toolbar_stop()),
{
    broadcast use keeps_stop_ids_confirming;

    reveal(AppModel::toolbar_stop);
}

broadcast proof fn keeps_shortcut_edit(s: AppModel, action: Seq<char>, combo: Seq<char>)
    requires
        sound(s),
    ensures
        sound(#[trigger] s.shortcut_edit(action, combo)),
{
    broadcast use changes;

    reveal(AppModel::shortcut_edit);
}

broadcast proof fn keeps_resume_last(s: AppModel, env: EnvModel)
    requires
        sound(s),
    ensures
        sound(#[trigger] s.resume_last(env)),
{
    broadcast use keeps_start_download;

    reveal(AppModel::resume_last);
}

broadcast proof fn keeps_stop_last(s: AppModel)
    requires
        sound(s),
    ensures
        sound(#[trigger] s.stop_last()),
{
    broadcast use keeps_stop_download;

    reveal(AppModel::stop_last);
}

broadcast proof fn keeps_run_main_queue(s: AppModel, run: bool, env: EnvModel)
    requires
        sound(s),
    ensures
        sound(#[trigger] s.run_main_queue(run, env)),
{
    broadcast use keeps_queue_tick;
    broadcast use keeps_set_queue_running;

    reveal(AppModel::run_main_queue);
}

broadcast proof fn keeps_select_all(s: AppModel)
    requires
        sound(s),
    ensures
        sound(#[trigger] s.select_all()),
{

    reveal(AppModel::select_all);
}

broadcast proof fn keeps_run_shortcut(s: AppModel, action: Seq<char>, win: WinId, env: EnvModel)
    requires
        sound(s),
    ensures
        sound(#[trigger] s.run_shortcut(action, win, env)),
{
    broadcast use keeps_menu;
    broadcast use keeps_resume_last;
    broadcast use keeps_run_main_queue;
    broadcast use keeps_select_all;
    broadcast use keeps_stop_last;
    broadcast use keeps_toolbar_delete;

    reveal(AppModel::run_shortcut);
}

broadcast proof fn keeps_tree_rename_drop(s: AppModel)
    requires
        sound(s),
    ensures
        sound(#[trigger] s.tree_rename_drop()),
{

    reveal(AppModel::tree_rename_drop);
}

broadcast proof fn keeps_raw_key(s: AppModel, key: Key, mods: Mods, win: WinId, env: EnvModel)
    requires
        sound(s),
    ensures
        sound(#[trigger] s.raw_key(key, mods, win, env)),
{
    broadcast use changes;
    broadcast use keeps_menu;
    broadcast use keeps_run_shortcut;
    broadcast use keeps_tree_rename_drop;

    reveal(AppModel::raw_key);
}

broadcast proof fn keeps_row_click(s: AppModel, id: DlId, ms: u64)
    requires
        sound(s),
    ensures
        sound(#[trigger] s.row_click(id, ms)),
{
    broadcast use keeps_open_window;
    broadcast use keeps_show_properties;

    reveal(AppModel::row_click);
}

broadcast proof fn keeps_empty_press(s: AppModel)
    requires
        sound(s),
    ensures
        sound(#[trigger] s.empty_press()),
{

    reveal(AppModel::empty_press);
}

broadcast proof fn keeps_mouse_up(s: AppModel)
    requires
        sound(s),
    ensures
        sound(#[trigger] s.mouse_up()),
{

    reveal(AppModel::mouse_up);
}

broadcast proof fn keeps_add_each(s: AppModel, urls: Seq<Seq<char>>, now: i64)
    requires
        sound(s),
    ensures
        sound(#[trigger] s.add_each(urls, now)),
    decreases urls.len(),
{
    broadcast use keeps_add_item;

    if urls.len() > 0 {
        keeps_add_each(s, urls.drop_last(), now);
    }
}

broadcast proof fn keeps_export_read(s: AppModel, text: Option<Seq<char>>, now: i64)
    requires
        sound(s),
    ensures
        sound(#[trigger] s.export_read(text, now)),
{
    broadcast use keeps_add_each;

    reveal(AppModel::export_read);
}

broadcast proof fn keeps_check_folder_access(s: AppModel, writable: bool)
    requires
        sound(s),
    ensures
        sound(#[trigger] s.check_folder_access(writable)),
{
    broadcast use keeps_open_window;

    reveal(AppModel::check_folder_access);
}

broadcast proof fn keeps_on_opt_field(s: AppModel, f: OptField)
    requires
        sound(s),
    ensures
        sound(#[trigger] s.on_opt_field(f)),
{

    reveal(AppModel::on_opt_field);
}

broadcast proof fn keeps_opt_ok(s: AppModel)
    requires
        sound(s),
    ensures
        sound(#[trigger] s.opt_ok()),
{
    broadcast use keeps_close_window;

    reveal(AppModel::opt_ok);
}

broadcast proof fn keeps_fire_power_action(s: AppModel)
    requires
        sound(s),
    ensures
        sound(#[trigger] s.fire_power_action()),
{
    broadcast use keeps_close_window;

    reveal(AppModel::fire_power_action);
}

broadcast proof fn keeps_power_tick(s: AppModel)
    requires
        sound(s),
    ensures
        sound(#[trigger] s.power_tick()),
{
    broadcast use keeps_fire_power_action;

    reveal(AppModel::power_tick);
}

broadcast proof fn keeps_prog_tab_set(s: AppModel, id: DlId, tab: ProgTab)
    requires
        sound(s),
    ensures
        sound(#[trigger] s.prog_tab_set(id, tab)),
{

    reveal(AppModel::prog_tab_set);
}

broadcast proof fn keeps_prog_toggle_details(s: AppModel, id: DlId)
    requires
        sound(s),
    ensures
        sound(#[trigger] s.prog_toggle_details(id)),
{

    reveal(AppModel::prog_toggle_details);
}

broadcast proof fn keeps_prog_pause_resume(s: AppModel, id: DlId, env: EnvModel)
    requires
        sound(s),
    ensures
        sound(#[trigger] s.prog_pause_resume(id, env)),
{
    broadcast use keeps_start_download;
    broadcast use keeps_stop_download;

    reveal(AppModel::prog_pause_resume);
}

broadcast proof fn keeps_prog_cancel(s: AppModel, id: DlId)
    requires
        sound(s),
    ensures
        sound(#[trigger] s.prog_cancel(id)),
{
    broadcast use keeps_close_window;
    broadcast use keeps_stop_download;

    reveal(AppModel::prog_cancel);
}

broadcast proof fn keeps_prog_hide_tab(s: AppModel, id: DlId, speed: bool)
    requires
        sound(s),
    ensures
        sound(#[trigger] s.prog_hide_tab(id, speed)),
{
    broadcast use keeps_prog_tab_set;

    reveal(AppModel::prog_hide_tab);
}

broadcast proof fn keeps_prog_limit_remember(s: AppModel, id: DlId, b: bool)
    requires
        sound(s),
    ensures
        sound(#[trigger] s.prog_limit_remember(id, b)),
{

    reveal(AppModel::prog_limit_remember);
}

broadcast proof fn keeps_prog_limit_on(s: AppModel, id: DlId, on: bool)
    requires
        sound(s),
    ensures
        sound(#[trigger] s.prog_limit_on(id, on)),
{
    broadcast use changes;

    reveal(AppModel::prog_limit_on);
}

broadcast proof fn keeps_prog_limit_kb(s: AppModel, id: DlId, text: Seq<char>)
    requires
        sound(s),
    ensures
        sound(#[trigger] s.prog_limit_kb(id, text)),
{
    broadcast use changes;

    reveal(AppModel::prog_limit_kb);
}

broadcast proof fn keeps_prog_shutdown_after(s: AppModel, id: DlId, b: bool)
    requires
        sound(s),
    ensures
        sound(#[trigger] s.prog_shutdown_after(id, b)),
{
    broadcast use changes;

    reveal(AppModel::prog_shutdown_after);
}

broadcast proof fn keeps_prog_shutdown_action(s: AppModel, id: DlId, a: PowerAction)
    requires
        sound(s),
    ensures
        sound(#[trigger] s.prog_shutdown_action(id, a)),
{
    broadcast use changes;

    reveal(AppModel::prog_shutdown_action);
}

broadcast proof fn keeps_prog_remove_completed(s: AppModel, b: bool)
    requires
        sound(s),
    ensures
        sound(#[trigger] s.prog_remove_completed(b)),
{

    reveal(AppModel::prog_remove_completed);
}

broadcast proof fn keeps_open_finished(s: AppModel, id: DlId, folder: bool)
    requires
        sound(s),
    ensures
        sound(#[trigger] s.open_finished(id, folder)),
{
    broadcast use keeps_close_window;
    broadcast use keeps_remove_item_opts;

    reveal(AppModel::open_finished);
}

broadcast proof fn keeps_scan_skip(s: AppModel, id: DlId)
    requires
        sound(s),
    ensures
        sound(#[trigger] s.scan_skip(id)),
{
    broadcast use changes;
    broadcast use keeps_finish_completion;

    reveal(AppModel::scan_skip);
}

broadcast proof fn keeps_scan_keep(s: AppModel, id: DlId)
    requires
        sound(s),
    ensures
        sound(#[trigger] s.scan_keep(id)),
{
    broadcast use keeps_close_window;

    reveal(AppModel::scan_keep);
}

broadcast proof fn keeps_scan_delete(s: AppModel, id: DlId)
    requires
        sound(s),
    ensures
        sound(#[trigger] s.scan_delete(id)),
{
    broadcast use keeps_close_window;
    broadcast use keeps_remove_item_opts;

    reveal(AppModel::scan_delete);
}

broadcast proof fn keeps_scan_line(s: AppModel, id: DlId, text: Seq<char>, redraw: bool)
    requires
        sound(s),
    ensures
        sound(#[trigger] s.scan_line(id, text, redraw)),
{

    reveal(AppModel::scan_line);
}

broadcast proof fn keeps_scan_done(s: AppModel, id: DlId, o: OutcomeModel)
    requires
        sound(s),
    ensures
        sound(#[trigger] s.scan_done(id, o)),
{
    broadcast use changes;
    broadcast use keeps_finish_completion;

    reveal(AppModel::scan_done);
}

broadcast proof fn keeps_on_scan(s: AppModel, ev: ScanEvent)
    requires
        sound(s),
    ensures
        sound(#[trigger] s.on_scan(ev)),
{
    broadcast use keeps_scan_done;
    broadcast use keeps_scan_line;

    reveal(AppModel::on_scan);
}

broadcast proof fn keeps_rename_queue(s: AppModel, old: Seq<char>, new: Seq<char>)
    requires
        sound(s),
    ensures
        sound(#[trigger] s.rename_queue(old, new)),
{
    broadcast use changes;

    reveal(AppModel::rename_queue);
}

broadcast proof fn keeps_sch_field(s: AppModel, f: SchField)
    requires
        sound(s),
    ensures
        sound(#[trigger] s.sch_field(f)),
{

    reveal(AppModel::sch_field);
}

broadcast proof fn keeps_sch_name_edit(s: AppModel)
    requires
        sound(s),
    ensures
        sound(#[trigger] s.sch_name_edit()),
{

    reveal(AppModel::sch_name_edit);
}

broadcast proof fn keeps_sch_queue(s: AppModel, q: Seq<char>, ms: u64)
    requires
        sound(s),
    ensures
        sound(#[trigger] s.sch_queue(q, ms)),
{
    broadcast use keeps_sch_name_edit;

    reveal(AppModel::sch_queue);
}

broadcast proof fn keeps_sch_name_commit(s: AppModel)
    requires
        sound(s),
    ensures
        sound(#[trigger] s.sch_name_commit()),
{
    broadcast use keeps_rename_queue;

    reveal(AppModel::sch_name_commit);
}

broadcast proof fn keeps_sch_new_queue(s: AppModel)
    requires
        sound(s),
    ensures
        sound(#[trigger] s.sch_new_queue()),
{

    reveal(AppModel::sch_new_queue);
}

broadcast proof fn keeps_sch_delete_queue(s: AppModel)
    requires
        sound(s),
    ensures
        sound(#[trigger] s.sch_delete_queue()),
{
    broadcast use changes;

    reveal(AppModel::sch_delete_queue);
}

broadcast proof fn keeps_sch_drag_over(s: AppModel, target: DlId)
    requires
        sound(s),
    ensures
        sound(#[trigger] s.sch_drag_over(target)),
{
    broadcast use changes;

    reveal(AppModel::sch_drag_over);
}

broadcast proof fn keeps_sch_file_move(s: AppModel, up: bool)
    requires
        sound(s),
    ensures
        sound(#[trigger] s.sch_file_move(up)),
{
    broadcast use changes;

    reveal(AppModel::sch_file_move);
}

broadcast proof fn keeps_sch_file_remove(s: AppModel)
    requires
        sound(s),
    ensures
        sound(#[trigger] s.sch_file_remove()),
{
    broadcast use keeps_unqueue;

    reveal(AppModel::sch_file_remove);
}

broadcast proof fn keeps_tree_rename_start(s: AppModel, name: Seq<char>)
    requires
        sound(s),
    ensures
        sound(#[trigger] s.tree_rename_start(name)),
{

    reveal(AppModel::tree_rename_start);
}

broadcast proof fn keeps_tree_select(s: AppModel, sel: TreeSelModel, ms: u64)
    requires
        sound(s),
    ensures
        sound(#[trigger] s.tree_select(sel, ms)),
{
    broadcast use keeps_tree_rename_start;

    reveal(AppModel::tree_select);
}

broadcast proof fn keeps_tree_rename_draft(s: AppModel, v: Seq<char>)
    requires
        sound(s),
    ensures
        sound(#[trigger] s.tree_rename_draft(v)),
{

    reveal(AppModel::tree_rename_draft);
}

broadcast proof fn keeps_tree_rename_commit(s: AppModel)
    requires
        sound(s),
    ensures
        sound(#[trigger] s.tree_rename_commit()),
{
    broadcast use keeps_rename_queue;

    reveal(AppModel::tree_rename_commit);
}

broadcast proof fn keeps_tree_toggle(s: AppModel, i: u8)
    requires
        sound(s),
    ensures
        sound(#[trigger] s.tree_toggle(i)),
{

    reveal(AppModel::tree_toggle);
}

broadcast proof fn keeps_update_frame(s: AppModel, m: Message, env: EnvModel)
    requires
        sound(s),
    ensures
        sound(#[trigger] s.update_frame(m, env)),
{
    broadcast use keeps_cancel_power_action;
    broadcast use keeps_check_folder_access;
    broadcast use keeps_clipboard_add;
    broadcast use keeps_clipboard_seen;
    broadcast use keeps_export_read;
    broadcast use keeps_fire_power_action;
    broadcast use keeps_locale_loaded;
    broadcast use keeps_native_menu;
    broadcast use keeps_on_engine;
    broadcast use keeps_on_ext;
    broadcast use keeps_on_granted;
    broadcast use keeps_power_tick;
    broadcast use keeps_system_theme;
    broadcast use keeps_tick;
    broadcast use keeps_window_closed;
    broadcast use keeps_window_opened;

    reveal(AppModel::update_frame);
}

broadcast proof fn keeps_update_chrome(s: AppModel, m: Message, env: EnvModel)
    requires
        sound(s),
    ensures
        sound(#[trigger] s.update_chrome(m, env)),
{
    broadcast use keeps_menu;
    broadcast use keeps_menu_hover;
    broadcast use keeps_menu_open;
    broadcast use keeps_queue_menu_open;
    broadcast use keeps_raw_key;
    broadcast use keeps_set_mods;
    broadcast use keeps_shortcut_edit;
    broadcast use keeps_submenu_hover;
    broadcast use keeps_toolbar_delete;
    broadcast use keeps_toolbar_resume;
    broadcast use keeps_toolbar_stop;
    broadcast use keeps_tree_rename_commit;
    broadcast use keeps_tree_rename_draft;
    broadcast use keeps_tree_rename_start;
    broadcast use keeps_tree_select;
    broadcast use keeps_tree_toggle;

    reveal(AppModel::update_chrome);
}

broadcast proof fn keeps_update_table(s: AppModel, m: Message, env: EnvModel)
    requires
        sound(s),
    ensures
        sound(#[trigger] s.update_table(m, env)),
{
    broadcast use keeps_empty_press;
    broadcast use keeps_mouse_up;
    broadcast use keeps_row_click;
    broadcast use keeps_row_right_click;
    broadcast use keeps_select_all;

    reveal(AppModel::update_table);
}

broadcast proof fn keeps_update_adding(s: AppModel, m: Message, env: EnvModel)
    requires
        sound(s),
    ensures
        sound(#[trigger] s.update_adding(m, env)),
{
    broadcast use keeps_add_url_ok;
    broadcast use keeps_addr_changed;
    broadcast use keeps_addr_edit;
    broadcast use keeps_addr_prefill;
    broadcast use keeps_fi_bg_toggle;
    broadcast use keeps_fi_browse;
    broadcast use keeps_fi_cancel;
    broadcast use keeps_fi_category;
    broadcast use keeps_fi_edit;
    broadcast use keeps_fi_later;
    broadcast use keeps_fi_preview;
    broadcast use keeps_fi_start;
    broadcast use keeps_info_probed;
    broadcast use keeps_metalink_probed;
    broadcast use keeps_probe_metalink;
    broadcast use keeps_probe_stream;
    broadcast use keeps_stream_probed;
    broadcast use keeps_zip_peeked;

    reveal(AppModel::update_adding);
}

broadcast proof fn keeps_update_running(s: AppModel, m: Message, env: EnvModel)
    requires
        sound(s),
    ensures
        sound(#[trigger] s.update_running(m, env)),
{
    broadcast use keeps_on_scan;
    broadcast use keeps_open_finished;
    broadcast use keeps_prog_cancel;
    broadcast use keeps_prog_hide_tab;
    broadcast use keeps_prog_limit_kb;
    broadcast use keeps_prog_limit_on;
    broadcast use keeps_prog_limit_remember;
    broadcast use keeps_prog_pause_resume;
    broadcast use keeps_prog_remove_completed;
    broadcast use keeps_prog_shutdown_action;
    broadcast use keeps_prog_shutdown_after;
    broadcast use keeps_prog_tab_set;
    broadcast use keeps_prog_toggle_details;
    broadcast use keeps_scan_delete;
    broadcast use keeps_scan_keep;
    broadcast use keeps_scan_skip;

    reveal(AppModel::update_running);
}

broadcast proof fn keeps_forget_update(s: AppModel)
    requires
        sound(s),
    ensures
        sound(#[trigger] s.forget_update()),
{
    broadcast use keeps_close_window;

    reveal(AppModel::forget_update);
}

broadcast proof fn keeps_on_update(s: AppModel, ev: UpdateEvent)
    requires
        sound(s),
    ensures
        sound(#[trigger] s.on_update(ev)),
{
    broadcast use keeps_forget_update;

    reveal(AppModel::on_update);
}

broadcast proof fn keeps_update_cancel(s: AppModel)
    requires
        sound(s),
    ensures
        sound(#[trigger] s.update_cancel()),
{
    broadcast use keeps_forget_update;

    reveal(AppModel::update_cancel);
}

broadcast proof fn keeps_update_checked(s: AppModel, res: Checked)
    requires
        sound(s),
    ensures
        sound(#[trigger] s.update_checked(res)),
{
    broadcast use keeps_open_window;

    reveal(AppModel::update_checked);
}

broadcast proof fn keeps_update_now(s: AppModel)
    requires
        sound(s),
    ensures
        sound(#[trigger] s.update_now()),
{

    reveal(AppModel::update_now);
}

broadcast proof fn keeps_update_open_page(s: AppModel)
    requires
        sound(s),
    ensures
        sound(#[trigger] s.update_open_page()),
{

    reveal(AppModel::update_open_page);
}

broadcast proof fn keeps_update_open_url(s: AppModel, url: Seq<char>)
    requires
        sound(s),
    ensures
        sound(#[trigger] s.update_open_url(url)),
{

    reveal(AppModel::update_open_url);
}

broadcast proof fn keeps_update_setup(s: AppModel, m: Message, env: EnvModel)
    requires
        sound(s),
    ensures
        sound(#[trigger] s.update_setup(m, env)),
{
    broadcast use keeps_on_opt_field;
    broadcast use keeps_on_update;
    broadcast use keeps_opt_ok;
    broadcast use keeps_opt_tab_set;
    broadcast use keeps_sch_delete_queue;
    broadcast use keeps_sch_drag_over;
    broadcast use keeps_sch_drag_start;
    broadcast use keeps_sch_field;
    broadcast use keeps_sch_file_move;
    broadcast use keeps_sch_file_remove;
    broadcast use keeps_sch_name_commit;
    broadcast use keeps_sch_name_draft;
    broadcast use keeps_sch_name_edit;
    broadcast use keeps_sch_new_queue;
    broadcast use keeps_sch_queue;
    broadcast use keeps_sch_run;
    broadcast use keeps_sch_tab_set;
    broadcast use keeps_update_cancel;
    broadcast use keeps_update_checked;
    broadcast use keeps_update_now;
    broadcast use keeps_update_open_page;
    broadcast use keeps_update_open_url;

    reveal(AppModel::update_setup);
}

broadcast proof fn keeps_update_asking(s: AppModel, m: Message, env: EnvModel)
    requires
        sound(s),
    ensures
        sound(#[trigger] s.update_asking(m, env)),
{
    broadcast use keeps_batch_check;
    broadcast use keeps_batch_check_all;
    broadcast use keeps_batch_edit;
    broadcast use keeps_batch_field;
    broadcast use keeps_batch_file;
    broadcast use keeps_batch_metalink_probed;
    broadcast use keeps_batch_ok;
    broadcast use keeps_batch_probed;
    broadcast use keeps_close_this;
    broadcast use keeps_confirm_remove;
    broadcast use keeps_confirm_yes;
    broadcast use keeps_dup_new;
    broadcast use keeps_dup_open;
    broadcast use keeps_dup_resume;
    broadcast use keeps_open_permissions;
    broadcast use keeps_refresh_perm_status;

    reveal(AppModel::update_asking);
}

broadcast proof fn keeps_update(s: AppModel, m: Message, env: EnvModel)
    requires
        sound(s),
    ensures
        sound(#[trigger] s.update(m, env)),
{
    broadcast use keeps_update_adding;
    broadcast use keeps_update_asking;
    broadcast use keeps_update_chrome;
    broadcast use keeps_update_frame;
    broadcast use keeps_update_running;
    broadcast use keeps_update_setup;
    broadcast use keeps_update_table;

    reveal(AppModel::update);
}

broadcast proof fn keeps_run_queues(s: AppModel, names: Seq<Seq<char>>)
    requires
        sound(s),
    ensures
        sound(#[trigger] s.run_queues(names)),
    decreases names.len(),
{
    broadcast use keeps_set_queue_running;

    if names.len() > 0 {
        keeps_run_queues(s, names.drop_last());
    }
}

broadcast proof fn keeps_boot(s: AppModel, minimized: bool)
    requires
        sound(s),
    ensures
        sound(#[trigger] s.boot(minimized)),
{
    broadcast use keeps_run_queues;

    reveal(AppModel::boot);
}

broadcast proof fn keeps_come_up(s: AppModel, minimized: bool, tray: bool)
    requires
        sound(s),
    ensures
        sound(#[trigger] s.come_up(minimized, tray)),
{
    broadcast use keeps_open_window;

    reveal(AppModel::come_up);
}

// ------------------------------------------------------------------------- laws

/// Every message keeps the state sound: rows have numbers of their own, no
/// window is open twice, and the shortcuts stand in order.
pub proof fn every_message_keeps_the_state_sound(s: AppModel, m: Message, env: EnvModel)
    requires
        sound(s),
    ensures
        sound(s.update(m, env)),
{
    keeps_update(s, m, env);
}

/// A program that starts on sound files starts in a sound state, and is still in
/// one when it has come up.
pub proof fn a_fresh_program_is_sound(
    cfg: crate::model::ConfigFileModel,
    state: crate::model::StateFileModel,
    lang: Texts,
    columns: usize,
    dark: bool,
    minimized: bool,
    tray: bool,
)
    requires
        numbered(state.downloads, state.next_id),
        sorted(cfg.shortcuts),
    ensures
        sound(AppModel::initial(cfg, state, lang, columns, dark)),
        sound(AppModel::initial(cfg, state, lang, columns, dark).boot(minimized)),
        sound(
            AppModel::initial(cfg, state, lang, columns, dark).boot(minimized).come_up(
                minimized,
                tray,
            ),
        ),
{
    reveal(apart);
    let s = AppModel::initial(cfg, state, lang, columns, dark);
    keeps_boot(s, minimized);
    keeps_come_up(s.boot(minimized), minimized, tray);
}

} // verus!
