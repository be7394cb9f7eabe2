//! One change to one row of the download list at a time.
use crate::downloads::{edit, find_item};
use crate::model::{
    ConnRow, ConnRowModel, DlId, DlState, DownloadItem, DownloadItemModel, MetalinkInfo,
    MetalinkInfoModel, PowerAction, StreamInfo, StreamInfoModel,
};
use crate::spans::Span;
use crate::state::{FileInfoState, FileInfoStateModel};
use crate::text::{trim, trimmed};
use crate::twin::Twin;
use vstd::prelude::*;

verus! {

/// A change to a row.
pub type Change = spec_fn(DownloadItemModel) -> DownloadItemModel;

/// The range that covers a whole file.
fn whole(len: u64) -> (r: Vec<Span>)
    ensures
        r@ == seq![(0u64, len)],
{
    let mut r: Vec<Span> = Vec::new();
    r.push((0, len));
    assert(r@ =~= seq![(0u64, len)]);
    r
}

/// The status line says something new.
pub open spec fn to_status(line: Seq<char>) -> Change {
    |d: DownloadItemModel|
        DownloadItemModel {
            status_line: line,
            ..d
        }
}

pub fn set_status(v: &mut Vec<DownloadItem>, id: DlId, line: String)
    ensures
        final(v).deep_view() == edit(old(v).deep_view(), id, to_status(line@)),
{
    let ghost before = v.deep_view();
    if let Some(i) = find_item(v, id) {
        v[i].status_line = line;
        let ghost change = to_status(line@);
        assert(v@[i as int]@ =~= change(before[i as int]));
        assert(v.deep_view() =~= before.update(i as int, change(before[i as int])));
    }
}

/// The row is in another state.
pub open spec fn to_state(st: DlState) -> Change {
    |d: DownloadItemModel|
        DownloadItemModel {
            state: st,
            ..d
        }
}

pub fn set_state(v: &mut Vec<DownloadItem>, id: DlId, st: DlState)
    ensures
        final(v).deep_view() == edit(old(v).deep_view(), id, to_state(st)),
{
    let ghost before = v.deep_view();
    if let Some(i) = find_item(v, id) {
        v[i].state = st;
        let ghost change = to_state(st);
        assert(v@[i as int]@ =~= change(before[i as int]));
        assert(v.deep_view() =~= before.update(i as int, change(before[i as int])));
    }
}

/// The download limit has a say over the row.
pub open spec fn to_limited(line: Seq<char>) -> Change {
    |d: DownloadItemModel|
        DownloadItemModel {
            limit_paused: true,
            status_line: line,
            ..d
        }
}

pub fn set_limited(v: &mut Vec<DownloadItem>, id: DlId, line: String)
    ensures
        final(v).deep_view() == edit(old(v).deep_view(), id, to_limited(line@)),
{
    let ghost before = v.deep_view();
    if let Some(i) = find_item(v, id) {
        v[i].limit_paused = true;
        v[i].status_line = line;
        let ghost change = to_limited(line@);
        assert(v@[i as int]@ =~= change(before[i as int]));
        assert(v.deep_view() =~= before.update(i as int, change(before[i as int])));
    }
}

/// A transfer has been asked for.
pub open spec fn to_started(line: Seq<char>, now: i64, part: Seq<char>) -> Change {
    |d: DownloadItemModel|
        DownloadItemModel {
            state: DlState::Connecting,
            limit_paused: false,
            status_line: line,
            last_try: Some(now),
            conns: seq![],
            part_path: Some(part),
            ..d
        }
}

pub fn set_started(v: &mut Vec<DownloadItem>, id: DlId, line: String, now: i64, part: String)
    ensures
        final(v).deep_view() == edit(old(v).deep_view(), id, to_started(line@, now, part@)),
{
    let ghost before = v.deep_view();
    if let Some(i) = find_item(v, id) {
        v[i].state = DlState::Connecting;
        v[i].limit_paused = false;
        v[i].status_line = line;
        v[i].last_try = Some(now);
        v[i].conns = Vec::new();
        v[i].part_path = Some(part);
        assert(v@[i as int].conns.deep_view() =~= seq![]);
        let ghost change = to_started(line@, now, part@);
        assert(v@[i as int]@ =~= change(before[i as int]));
        assert(v.deep_view() =~= before.update(i as int, change(before[i as int])));
    }
}

/// What is on disk, and how much that is.
pub open spec fn to_held(held: Seq<Span>, bytes: u64) -> Change {
    |d: DownloadItemModel|
        DownloadItemModel {
            held: held,
            downloaded: bytes,
            ..d
        }
}

pub fn set_held(v: &mut Vec<DownloadItem>, id: DlId, held: Vec<Span>, bytes: u64)
    ensures
        final(v).deep_view() == edit(old(v).deep_view(), id, to_held(held@, bytes)),
{
    let ghost before = v.deep_view();
    if let Some(i) = find_item(v, id) {
        v[i].held = held;
        v[i].downloaded = bytes;
        let ghost change = to_held(held@, bytes);
        assert(v@[i as int]@ =~= change(before[i as int]));
        assert(v.deep_view() =~= before.update(i as int, change(before[i as int])));
    }
}

/// How much is on disk.
pub open spec fn to_downloaded(bytes: u64) -> Change {
    |d: DownloadItemModel|
        DownloadItemModel {
            downloaded: bytes,
            ..d
        }
}

pub fn set_downloaded(v: &mut Vec<DownloadItem>, id: DlId, bytes: u64)
    ensures
        final(v).deep_view() == edit(old(v).deep_view(), id, to_downloaded(bytes)),
{
    let ghost before = v.deep_view();
    if let Some(i) = find_item(v, id) {
        v[i].downloaded = bytes;
        let ghost change = to_downloaded(bytes);
        assert(v@[i as int]@ =~= change(before[i as int]));
        assert(v.deep_view() =~= before.update(i as int, change(before[i as int])));
    }
}

/// What is on disk.
pub open spec fn to_spans(held: Seq<Span>) -> Change {
    |d: DownloadItemModel|
        DownloadItemModel {
            held: held,
            ..d
        }
}

pub fn set_spans(v: &mut Vec<DownloadItem>, id: DlId, held: Vec<Span>)
    ensures
        final(v).deep_view() == edit(old(v).deep_view(), id, to_spans(held@)),
{
    let ghost before = v.deep_view();
    if let Some(i) = find_item(v, id) {
        v[i].held = held;
        let ghost change = to_spans(held@);
        assert(v@[i as int]@ =~= change(before[i as int]));
        assert(v.deep_view() =~= before.update(i as int, change(before[i as int])));
    }
}

/// Whether the server takes ranges is known.
pub open spec fn to_resume(ranges: bool) -> Change {
    |d: DownloadItemModel|
        DownloadItemModel {
            resume: Some(ranges),
            ..d
        }
}

pub fn set_resume(v: &mut Vec<DownloadItem>, id: DlId, ranges: bool)
    ensures
        final(v).deep_view() == edit(old(v).deep_view(), id, to_resume(ranges)),
{
    let ghost before = v.deep_view();
    if let Some(i) = find_item(v, id) {
        v[i].resume = Some(ranges);
        let ghost change = to_resume(ranges);
        assert(v@[i as int]@ =~= change(before[i as int]));
        assert(v.deep_view() =~= before.update(i as int, change(before[i as int])));
    }
}

/// The size is known.
pub open spec fn to_size(size: Option<u64>) -> Change {
    |d: DownloadItemModel|
        DownloadItemModel {
            size: size,
            ..d
        }
}

pub fn set_size(v: &mut Vec<DownloadItem>, id: DlId, size: Option<u64>)
    ensures
        final(v).deep_view() == edit(old(v).deep_view(), id, to_size(size)),
{
    let ghost before = v.deep_view();
    if let Some(i) = find_item(v, id) {
        v[i].size = size;
        let ghost change = to_size(size);
        assert(v@[i as int]@ =~= change(before[i as int]));
        assert(v.deep_view() =~= before.update(i as int, change(before[i as int])));
    }
}

/// The file has another name.
pub open spec fn to_name(name: Seq<char>) -> Change {
    |d: DownloadItemModel|
        DownloadItemModel {
            file_name: name,
            ..d
        }
}

pub fn set_name(v: &mut Vec<DownloadItem>, id: DlId, name: String)
    ensures
        final(v).deep_view() == edit(old(v).deep_view(), id, to_name(name@)),
{
    let ghost before = v.deep_view();
    if let Some(i) = find_item(v, id) {
        v[i].file_name = name;
        let ghost change = to_name(name@);
        assert(v@[i as int]@ =~= change(before[i as int]));
        assert(v.deep_view() =~= before.update(i as int, change(before[i as int])));
    }
}

/// The file has a name that stays.
pub open spec fn to_locked_name(name: Seq<char>) -> Change {
    |d: DownloadItemModel|
        DownloadItemModel {
            file_name: name,
            name_locked: true,
            ..d
        }
}

pub fn set_locked_name(v: &mut Vec<DownloadItem>, id: DlId, name: String)
    ensures
        final(v).deep_view() == edit(old(v).deep_view(), id, to_locked_name(name@)),
{
    let ghost before = v.deep_view();
    if let Some(i) = find_item(v, id) {
        v[i].file_name = name;
        v[i].name_locked = true;
        let ghost change = to_locked_name(name@);
        assert(v@[i as int]@ =~= change(before[i as int]));
        assert(v.deep_view() =~= before.update(i as int, change(before[i as int])));
    }
}

/// The file goes into another folder.
pub open spec fn to_dir(dir: Seq<char>) -> Change {
    |d: DownloadItemModel|
        DownloadItemModel {
            save_dir: dir,
            ..d
        }
}

pub fn set_dir(v: &mut Vec<DownloadItem>, id: DlId, dir: String)
    ensures
        final(v).deep_view() == edit(old(v).deep_view(), id, to_dir(dir@)),
{
    let ghost before = v.deep_view();
    if let Some(i) = find_item(v, id) {
        v[i].save_dir = dir;
        let ghost change = to_dir(dir@);
        assert(v@[i as int]@ =~= change(before[i as int]));
        assert(v.deep_view() =~= before.update(i as int, change(before[i as int])));
    }
}

/// The row is filed under another category.
pub open spec fn to_category(cat: Option<Seq<char>>) -> Change {
    |d: DownloadItemModel|
        DownloadItemModel {
            category: cat,
            ..d
        }
}

pub fn set_category(v: &mut Vec<DownloadItem>, id: DlId, cat: Option<String>)
    ensures
        final(v).deep_view() == edit(old(v).deep_view(), id, to_category(cat.deep_view())),
{
    let ghost before = v.deep_view();
    if let Some(i) = find_item(v, id) {
        v[i].category = cat;
        let ghost change = to_category(cat.deep_view());
        assert(v@[i as int]@ =~= change(before[i as int]));
        assert(v.deep_view() =~= before.update(i as int, change(before[i as int])));
    }
}

/// The row is filed under another queue, or none.
pub open spec fn to_queue(queue: Option<Seq<char>>) -> Change {
    |d: DownloadItemModel|
        DownloadItemModel {
            queue: queue,
            ..d
        }
}

pub fn set_queue(v: &mut Vec<DownloadItem>, id: DlId, queue: Option<String>)
    ensures
        final(v).deep_view() == edit(old(v).deep_view(), id, to_queue(queue.deep_view())),
{
    let ghost before = v.deep_view();
    if let Some(i) = find_item(v, id) {
        v[i].queue = queue;
        let ghost change = to_queue(queue.deep_view());
        assert(v@[i as int]@ =~= change(before[i as int]));
        assert(v.deep_view() =~= before.update(i as int, change(before[i as int])));
    }
}

/// The row is filed under a queue, at a place in it.
pub open spec fn to_queue_slot(queue: Option<Seq<char>>, order: u32) -> Change {
    |d: DownloadItemModel|
        DownloadItemModel {
            queue: queue,
            q_order: order,
            ..d
        }
}

pub fn set_queue_slot(v: &mut Vec<DownloadItem>, id: DlId, queue: Option<String>, order: u32)
    ensures
        final(v).deep_view() == edit(old(v).deep_view(), id, to_queue_slot(queue.deep_view(), order)),
{
    let ghost before = v.deep_view();
    if let Some(i) = find_item(v, id) {
        v[i].queue = queue;
        v[i].q_order = order;
        let ghost change = to_queue_slot(queue.deep_view(), order);
        assert(v@[i as int]@ =~= change(before[i as int]));
        assert(v.deep_view() =~= before.update(i as int, change(before[i as int])));
    }
}

/// The row has another place in its queue.
pub open spec fn to_order(order: u32) -> Change {
    |d: DownloadItemModel|
        DownloadItemModel {
            q_order: order,
            ..d
        }
}

pub fn set_order(v: &mut Vec<DownloadItem>, id: DlId, order: u32)
    ensures
        final(v).deep_view() == edit(old(v).deep_view(), id, to_order(order)),
{
    let ghost before = v.deep_view();
    if let Some(i) = find_item(v, id) {
        v[i].q_order = order;
        let ghost change = to_order(order);
        assert(v@[i as int]@ =~= change(before[i as int]));
        assert(v.deep_view() =~= before.update(i as int, change(before[i as int])));
    }
}

/// The row has another cap of its own.
pub open spec fn to_speed_limit(limit: Option<u64>) -> Change {
    |d: DownloadItemModel|
        DownloadItemModel {
            speed_limit: limit,
            ..d
        }
}

pub fn set_speed_limit(v: &mut Vec<DownloadItem>, id: DlId, limit: Option<u64>)
    ensures
        final(v).deep_view() == edit(old(v).deep_view(), id, to_speed_limit(limit)),
{
    let ghost before = v.deep_view();
    if let Some(i) = find_item(v, id) {
        v[i].speed_limit = limit;
        let ghost change = to_speed_limit(limit);
        assert(v@[i as int]@ =~= change(before[i as int]));
        assert(v.deep_view() =~= before.update(i as int, change(before[i as int])));
    }
}

/// Bytes have arrived.
pub open spec fn to_progress(
    bytes: u64,
    rate_bits: u64,
    eta: Option<u64>,
    conns: Seq<ConnRowModel>,
    held: Seq<Span>,
    recorded: Option<u64>,
) -> Change {
    |d: DownloadItemModel|
        DownloadItemModel {
            downloaded: bytes,
            rate_bits: rate_bits,
            eta_secs: eta,
            conns: conns,
            held: held,
            recorded_bits: recorded,
            ..d
        }
}

pub fn set_progress(
    v: &mut Vec<DownloadItem>,
    id: DlId,
    bytes: u64,
    rate_bits: u64,
    eta: Option<u64>,
    conns: Vec<ConnRow>,
    held: Vec<Span>,
    recorded: Option<u64>,
)
    ensures
        final(v).deep_view() == edit(
            old(v).deep_view(),
            id,
            to_progress(bytes, rate_bits, eta, conns.deep_view(), held@, recorded),
        ),
{
    let ghost before = v.deep_view();
    if let Some(i) = find_item(v, id) {
        v[i].downloaded = bytes;
        v[i].rate_bits = rate_bits;
        v[i].eta_secs = eta;
        v[i].conns = conns;
        v[i].held = held;
        v[i].recorded_bits = recorded;
        let ghost change = to_progress(bytes, rate_bits, eta, conns.deep_view(), held@, recorded);
        assert(v@[i as int]@ =~= change(before[i as int]));
        assert(v.deep_view() =~= before.update(i as int, change(before[i as int])));
    }
}

/// Every byte has arrived. A finished file leaves its queue.
pub open spec fn to_finished(len: u64, line: Seq<char>) -> Change {
    |d: DownloadItemModel|
        DownloadItemModel {
            state: DlState::Complete,
            downloaded: len,
            size: Some(len),
            rate_bits: 0,
            eta_secs: None,
            held: seq![(0u64, len)],
            part_path: None,
            queue: None,
            status_line: line,
            ..d
        }
}

pub fn set_finished(v: &mut Vec<DownloadItem>, id: DlId, len: u64, line: String)
    ensures
        final(v).deep_view() == edit(old(v).deep_view(), id, to_finished(len, line@)),
{
    let ghost before = v.deep_view();
    if let Some(i) = find_item(v, id) {
        v[i].state = DlState::Complete;
        v[i].downloaded = len;
        v[i].size = Some(len);
        v[i].rate_bits = 0;
        v[i].eta_secs = None;
        v[i].held = whole(len);
        v[i].part_path = None;
        v[i].queue = None;
        v[i].status_line = line;
        let ghost change = to_finished(len, line@);
        assert(v@[i as int]@ =~= change(before[i as int]));
        assert(v.deep_view() =~= before.update(i as int, change(before[i as int])));
    }
}

/// The transfer has failed.
pub open spec fn to_failed(error: Seq<char>, line: Seq<char>) -> Change {
    |d: DownloadItemModel|
        DownloadItemModel {
            state: DlState::Error,
            error: Some(error),
            status_line: line,
            ..d
        }
}

pub fn set_failed(v: &mut Vec<DownloadItem>, id: DlId, error: String, line: String)
    ensures
        final(v).deep_view() == edit(old(v).deep_view(), id, to_failed(error@, line@)),
{
    let ghost before = v.deep_view();
    if let Some(i) = find_item(v, id) {
        v[i].state = DlState::Error;
        v[i].error = Some(error);
        v[i].status_line = line;
        let ghost change = to_failed(error@, line@);
        assert(v@[i as int]@ =~= change(before[i as int]));
        assert(v.deep_view() =~= before.update(i as int, change(before[i as int])));
    }
}

/// The transfer is to be tried again.
pub open spec fn to_retry(n: u32) -> Change {
    |d: DownloadItemModel|
        DownloadItemModel {
            retries: n,
            state: DlState::Queued,
            ..d
        }
}

pub fn set_retry(v: &mut Vec<DownloadItem>, id: DlId, n: u32)
    ensures
        final(v).deep_view() == edit(old(v).deep_view(), id, to_retry(n)),
{
    let ghost before = v.deep_view();
    if let Some(i) = find_item(v, id) {
        v[i].retries = n;
        v[i].state = DlState::Queued;
        let ghost change = to_retry(n);
        assert(v@[i as int]@ =~= change(before[i as int]));
        assert(v.deep_view() =~= before.update(i as int, change(before[i as int])));
    }
}

/// The row has a folder that may be written into.
pub open spec fn to_granted(dir: Seq<char>) -> Change {
    |d: DownloadItemModel|
        DownloadItemModel {
            save_dir: dir,
            part_path: None,
            state: DlState::Paused,
            ..d
        }
}

pub fn set_granted(v: &mut Vec<DownloadItem>, id: DlId, dir: String)
    ensures
        final(v).deep_view() == edit(old(v).deep_view(), id, to_granted(dir@)),
{
    let ghost before = v.deep_view();
    if let Some(i) = find_item(v, id) {
        v[i].save_dir = dir;
        v[i].part_path = None;
        v[i].state = DlState::Paused;
        let ghost change = to_granted(dir@);
        assert(v@[i as int]@ =~= change(before[i as int]));
        assert(v.deep_view() =~= before.update(i as int, change(before[i as int])));
    }
}

/// Nothing of the file counts as fetched any more.
pub open spec fn to_fresh() -> Change {
    |d: DownloadItemModel|
        DownloadItemModel {
            held: seq![],
            downloaded: 0,
            state: DlState::Paused,
            part_path: None,
            error: None,
            ..d
        }
}

pub fn set_fresh(v: &mut Vec<DownloadItem>, id: DlId)
    ensures
        final(v).deep_view() == edit(old(v).deep_view(), id, to_fresh()),
{
    let ghost before = v.deep_view();
    if let Some(i) = find_item(v, id) {
        v[i].held = Vec::new();
        v[i].downloaded = 0;
        v[i].state = DlState::Paused;
        v[i].part_path = None;
        v[i].error = None;
        assert(v@[i as int].held@ =~= seq![]);
        let ghost change = to_fresh();
        assert(v@[i as int]@ =~= change(before[i as int]));
        assert(v.deep_view() =~= before.update(i as int, change(before[i as int])));
    }
}

/// The file has a name, a category and a folder.
pub open spec fn to_filed(name: Seq<char>, cat: Option<Seq<char>>, dir: Seq<char>) -> Change {
    |d: DownloadItemModel|
        DownloadItemModel {
            file_name: name,
            category: cat,
            save_dir: dir,
            ..d
        }
}

pub fn set_filed(v: &mut Vec<DownloadItem>, id: DlId, name: String, cat: Option<String>, dir: String)
    ensures
        final(v).deep_view() == edit(old(v).deep_view(), id, to_filed(name@, cat.deep_view(), dir@)),
{
    let ghost before = v.deep_view();
    if let Some(i) = find_item(v, id) {
        v[i].file_name = name;
        v[i].category = cat;
        v[i].save_dir = dir;
        let ghost change = to_filed(name@, cat.deep_view(), dir@);
        assert(v@[i as int]@ =~= change(before[i as int]));
        assert(v.deep_view() =~= before.update(i as int, change(before[i as int])));
    }
}

/// The row is a stream: resumable by whole segments.
pub open spec fn to_stream(info: StreamInfoModel) -> Change {
    |d: DownloadItemModel|
        DownloadItemModel {
            resume: Some(true),
            stream: Some(info),
            ..d
        }
}

pub fn set_stream(v: &mut Vec<DownloadItem>, id: DlId, info: StreamInfo)
    ensures
        final(v).deep_view() == edit(old(v).deep_view(), id, to_stream(info@)),
{
    let ghost before = v.deep_view();
    if let Some(i) = find_item(v, id) {
        v[i].resume = Some(true);
        v[i].stream = Some(info);
        let ghost change = to_stream(info@);
        assert(v@[i as int]@ =~= change(before[i as int]));
        assert(v.deep_view() =~= before.update(i as int, change(before[i as int])));
    }
}

/// The row is a file of a mirror list, which names it and sizes it.
pub open spec fn to_metalink(name: Seq<char>, info: MetalinkInfoModel) -> Change {
    |d: DownloadItemModel|
        DownloadItemModel {
            file_name: name,
            name_locked: true,
            size: info.size,
            resume: Some(true),
            metalink: Some(info),
            ..d
        }
}

pub fn set_metalink(v: &mut Vec<DownloadItem>, id: DlId, name: String, info: MetalinkInfo)
    ensures
        final(v).deep_view() == edit(old(v).deep_view(), id, to_metalink(name@, info@)),
{
    let ghost before = v.deep_view();
    if let Some(i) = find_item(v, id) {
        v[i].file_name = name;
        v[i].name_locked = true;
        v[i].size = info.size;
        v[i].resume = Some(true);
        v[i].metalink = Some(info);
        let ghost change = to_metalink(name@, info@);
        assert(v@[i as int]@ =~= change(before[i as int]));
        assert(v.deep_view() =~= before.update(i as int, change(before[i as int])));
    }
}

/// Whether the machine is shut down behind this file.
pub open spec fn to_shutdown_after(b: bool) -> Change {
    |d: DownloadItemModel|
        DownloadItemModel {
            shutdown_after: b,
            ..d
        }
}

pub fn set_shutdown_after(v: &mut Vec<DownloadItem>, id: DlId, b: bool)
    ensures
        final(v).deep_view() == edit(old(v).deep_view(), id, to_shutdown_after(b)),
{
    let ghost before = v.deep_view();
    if let Some(i) = find_item(v, id) {
        v[i].shutdown_after = b;
        let ghost change = to_shutdown_after(b);
        assert(v@[i as int]@ =~= change(before[i as int]));
        assert(v.deep_view() =~= before.update(i as int, change(before[i as int])));
    }
}

/// What happens to the machine behind this file.
pub open spec fn to_shutdown_action(a: PowerAction) -> Change {
    |d: DownloadItemModel|
        DownloadItemModel {
            shutdown_action: a,
            ..d
        }
}

pub fn set_shutdown_action(v: &mut Vec<DownloadItem>, id: DlId, a: PowerAction)
    ensures
        final(v).deep_view() == edit(old(v).deep_view(), id, to_shutdown_action(a)),
{
    let ghost before = v.deep_view();
    if let Some(i) = find_item(v, id) {
        v[i].shutdown_action = a;
        let ghost change = to_shutdown_action(a);
        assert(v@[i as int]@ =~= change(before[i as int]));
        assert(v.deep_view() =~= before.update(i as int, change(before[i as int])));
    }
}

/// The file is being scanned.
pub open spec fn to_scanning(line: Seq<char>) -> Change {
    |d: DownloadItemModel|
        DownloadItemModel {
            status_line: line,
            conns: seq![],
            ..d
        }
}

pub fn set_scanning(v: &mut Vec<DownloadItem>, id: DlId, line: String)
    ensures
        final(v).deep_view() == edit(old(v).deep_view(), id, to_scanning(line@)),
{
    let ghost before = v.deep_view();
    if let Some(i) = find_item(v, id) {
        v[i].status_line = line;
        v[i].conns = Vec::new();
        assert(v@[i as int].conns.deep_view() =~= seq![]);
        let ghost change = to_scanning(line@);
        assert(v@[i as int]@ =~= change(before[i as int]));
        assert(v.deep_view() =~= before.update(i as int, change(before[i as int])));
    }
}

/// What came with a captured stream.
pub open spec fn to_sent(cookies: Option<Seq<char>>, size: Option<u64>) -> Change {
    |d: DownloadItemModel|
        DownloadItemModel {
            cookies: cookies,
            size: size,
            ..d
        }
}

pub fn set_sent(v: &mut Vec<DownloadItem>, id: DlId, cookies: Option<String>, size: Option<u64>)
    ensures
        final(v).deep_view() == edit(old(v).deep_view(), id, to_sent(cookies.deep_view(), size)),
{
    let ghost before = v.deep_view();
    if let Some(i) = find_item(v, id) {
        v[i].cookies = cookies;
        v[i].size = size;
        let ghost change = to_sent(cookies.deep_view(), size);
        assert(v@[i as int]@ =~= change(before[i as int]));
        assert(v.deep_view() =~= before.update(i as int, change(before[i as int])));
    }
}

/// What the browser knew of the file: its cookies, the page it was linked from,
/// and the name it had resolved, which decides the category and the folder.
pub open spec fn to_captured(
    cookies: Option<Seq<char>>,
    referer: Option<Seq<char>>,
    name: Option<Seq<char>>,
    cat: Option<Seq<char>>,
    dir: Option<Seq<char>>,
) -> Change {
    |d: DownloadItemModel|
        DownloadItemModel {
            cookies: if cookies is Some {
                cookies
            } else {
                d.cookies
            },
            referer: if referer is Some {
                referer
            } else {
                d.referer
            },
            file_name: match name {
                Some(n) => n,
                None => d.file_name,
            },
            category: if name is Some {
                cat
            } else {
                d.category
            },
            save_dir: match dir {
                Some(p) if name is Some => p,
                _ => d.save_dir,
            },
            ..d
        }
}

pub fn set_captured(
    v: &mut Vec<DownloadItem>,
    id: DlId,
    cookies: Option<String>,
    referer: Option<String>,
    name: Option<String>,
    cat: Option<String>,
    dir: Option<String>,
)
    ensures
        final(v).deep_view() == edit(
            old(v).deep_view(),
            id,
            to_captured(
                cookies.deep_view(),
                referer.deep_view(),
                name.deep_view(),
                cat.deep_view(),
                dir.deep_view(),
            ),
        ),
{
    let ghost before = v.deep_view();
    let ghost change = to_captured(
        cookies.deep_view(),
        referer.deep_view(),
        name.deep_view(),
        cat.deep_view(),
        dir.deep_view(),
    );
    if let Some(i) = find_item(v, id) {
        if cookies.is_some() {
            v[i].cookies = cookies;
        }
        if referer.is_some() {
            v[i].referer = referer;
        }
        if let Some(n) = name {
            v[i].file_name = n;
            v[i].category = cat;
            if let Some(p) = dir {
                v[i].save_dir = p;
            }
        }
        assert(v@[i as int]@ =~= change(before[i as int]));
        assert(v.deep_view() =~= before.update(i as int, change(before[i as int])));
    }
}

/// What was typed into a File Info dialog that was still open: only what the
/// person touched, and a description where one was written.
pub open spec fn to_typed(fi: FileInfoStateModel) -> Change {
    |d: DownloadItemModel|
        {
            let named = fi.name_touched && trimmed(fi.file_name).len() > 0;
            DownloadItemModel {
                file_name: if named {
                    trimmed(fi.file_name)
                } else {
                    d.file_name
                },
                name_locked: d.name_locked || named,
                save_dir: if fi.dir_touched && trimmed(fi.save_dir).len() > 0 {
                    fi.save_dir
                } else {
                    d.save_dir
                },
                category: if fi.cat_touched {
                    Some(fi.category)
                } else {
                    d.category
                },
                description: if trimmed(fi.description).len() > 0 {
                    fi.description
                } else {
                    d.description
                },
                ..d
            }
        }
}

/// Carry the edits typed into a still-open File Info dialog onto its row. Only
/// fields that the person actually touched are applied; the rest are what the
/// probe filled in and already match.
pub fn adopt_typed(d: &mut DownloadItem, fi: &FileInfoState)
    ensures
        final(d)@ == to_typed(fi@)(old(d)@),
{
    let name = trim(&fi.file_name);
    if fi.name_touched && !name.as_str().is_empty() {
        d.file_name = name;
        d.name_locked = true;
    }
    if fi.dir_touched && !trim(&fi.save_dir).as_str().is_empty() {
        d.save_dir = fi.save_dir.clone();
    }
    if fi.cat_touched {
        d.category = Some(fi.category.clone());
    }
    if !trim(&fi.description).as_str().is_empty() {
        d.description = fi.description.clone();
    }
}

pub fn set_typed(v: &mut Vec<DownloadItem>, id: DlId, fi: &FileInfoState)
    ensures
        final(v).deep_view() == edit(old(v).deep_view(), id, to_typed(fi@)),
{
    let ghost before = v.deep_view();
    if let Some(i) = find_item(v, id) {
        let mut d = v[i].twin();
        adopt_typed(&mut d, fi);
        v.set(i, d);
        assert(v.deep_view() =~= before.update(i as int, to_typed(fi@)(before[i as int])));
    }
}

/// What the File Info dialog says of the row. Another address continues the
/// same bytes from another mirror.
pub open spec fn to_saved(fi: FileInfoStateModel, url_changed: bool) -> Change {
    |d: DownloadItemModel|
        {
            let name = trimmed(fi.file_name);
            DownloadItemModel {
                category: Some(fi.category),
                save_dir: fi.save_dir,
                file_name: if name.len() > 0 {
                    name
                } else {
                    d.file_name
                },
                name_locked: d.name_locked || (name.len() > 0 && fi.name_touched),
                description: fi.description,
                url: if url_changed {
                    trimmed(fi.url)
                } else {
                    d.url
                },
                state: if url_changed {
                    DlState::Paused
                } else {
                    d.state
                },
                error: if url_changed {
                    None
                } else {
                    d.error
                },
                auth: if fi.login.len() > 0 {
                    Some((fi.login, fi.password))
                } else {
                    None
                },
                cookies: if trimmed(fi.cookies).len() > 0 {
                    Some(trimmed(fi.cookies))
                } else {
                    None
                },
                ..d
            }
        }
}

fn take_saved(d: &mut DownloadItem, fi: &FileInfoState, url_changed: bool)
    ensures
        final(d)@ == to_saved(fi@, url_changed)(old(d)@),
{
    let name = trim(&fi.file_name);
    let cookies = trim(&fi.cookies);
    d.category = Some(fi.category.clone());
    d.save_dir = fi.save_dir.clone();
    if !name.as_str().is_empty() {
        d.file_name = name;
        d.name_locked = d.name_locked || fi.name_touched;
    }
    d.description = fi.description.clone();
    if url_changed {
        d.url = trim(&fi.url);
        d.state = DlState::Paused;
        d.error = None;
    }
    d.auth = if fi.login.as_str().is_empty() {
        None
    } else {
        Some((fi.login.clone(), fi.password.clone()))
    };
    d.cookies = if cookies.as_str().is_empty() {
        None
    } else {
        Some(cookies)
    };
}

pub fn set_saved(v: &mut Vec<DownloadItem>, id: DlId, fi: &FileInfoState, url_changed: bool)
    ensures
        final(v).deep_view() == edit(old(v).deep_view(), id, to_saved(fi@, url_changed)),
{
    let ghost before = v.deep_view();
    if let Some(i) = find_item(v, id) {
        let mut d = v[i].twin();
        take_saved(&mut d, fi, url_changed);
        v.set(i, d);
        assert(v.deep_view() =~= before.update(
            i as int,
            to_saved(fi@, url_changed)(before[i as int]),
        ));
    }
}

/// Every connection of the row says `line`.
pub open spec fn to_disconnected(line: Seq<char>) -> Change {
    |d: DownloadItemModel|
        DownloadItemModel {
            conns: d.conns.map_values(|c: ConnRowModel| ConnRowModel { info: line, ..c }),
            ..d
        }
}

pub fn set_disconnected(v: &mut Vec<DownloadItem>, id: DlId, line: &String)
    ensures
        final(v).deep_view() == edit(old(v).deep_view(), id, to_disconnected(line@)),
{
    let ghost before = v.deep_view();
    if let Some(i) = find_item(v, id) {
        let ghost all = v@[i as int].conns.deep_view();
        let ghost f = |c: ConnRowModel| ConnRowModel { info: line@, ..c };
        let mut rows: Vec<ConnRow> = Vec::new();
        let mut k: usize = 0;
        while k < v[i].conns.len()
            invariant
                i < v@.len(),
                all == v@[i as int].conns.deep_view(),
                k <= all.len(),
                all.len() == v@[i as int].conns@.len(),
                rows@.len() == k,
                f == (|c: ConnRowModel| ConnRowModel { info: line@, ..c }),
                forall|j: int| 0 <= j < k ==> (#[trigger] rows@[j])@ == f(all[j]),
            decreases all.len() - k,
        {
            assert(all[k as int] == v@[i as int].conns@[k as int]@);
            rows.push(ConnRow { downloaded: v[i].conns[k].downloaded, info: line.clone() });
            k += 1;
        }
        v[i].conns = rows;
        assert(v@[i as int].conns.deep_view() =~= all.map_values(f));
        assert(v@[i as int]@ =~= to_disconnected(line@)(before[i as int]));
        assert(v.deep_view() =~= before.update(i as int, to_disconnected(line@)(before[i as int])));
    }
}

} // verus!
