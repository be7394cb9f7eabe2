//! The download list: finding rows, what the download limit parks and gives
//! back, and names that no other row saves under.
use crate::model::{
    DlId, DlQuota, DlState, DownloadItem, DownloadItemModel, Schedule, ScheduleModel, Settings,
    SettingsModel,
};
use crate::names::{
    candidate, candidate_name, candidate_paths_differ, candidates_differ, dir_place, join_path,
    lemma_entries_finite, path_in, same_place, Disk, DiskModel, Found,
};
use crate::spans::{counted, sum_spans, Span};
use crate::text::same;
use vstd::prelude::*;

verus! {

pub type Items = Seq<DownloadItemModel>;

/// The place of the first row numbered `id`; the length where there is none.
pub open spec fn item_at(v: Items, id: DlId) -> int
    decreases v.len(),
{
    if v.len() == 0 || v[0].id == id {
        0
    } else {
        1 + item_at(v.drop_first(), id)
    }
}

pub open spec fn has_item(v: Items, id: DlId) -> bool {
    item_at(v, id) < v.len()
}

/// The row numbered `id`, if there is one.
pub open spec fn item_of(v: Items, id: DlId) -> Option<DownloadItemModel> {
    if has_item(v, id) {
        Some(v[item_at(v, id)])
    } else {
        None
    }
}

/// The list with the row numbered `id` changed by `f`, if there is one.
pub open spec fn edit(
    v: Items,
    id: DlId,
    f: spec_fn(DownloadItemModel) -> DownloadItemModel,
) -> Items {
    if has_item(v, id) {
        v.update(item_at(v, id), f(v[item_at(v, id)]))
    } else {
        v
    }
}

/// The numbers of the rows of which `p` holds, in the order of the list.
pub open spec fn ids_where(v: Items, p: spec_fn(DownloadItemModel) -> bool) -> Seq<DlId>
    decreases v.len(),
{
    if v.len() == 0 {
        seq![]
    } else {
        let r = ids_where(v.drop_last(), p);
        if p(v.last()) {
            r.push(v.last().id)
        } else {
            r
        }
    }
}

pub proof fn lemma_item_at_is(v: Items, id: DlId, k: int)
    requires
        0 <= k <= v.len(),
        forall|i: int| 0 <= i < k ==> (#[trigger] v[i]).id != id,
        k < v.len() ==> v[k].id == id,
    ensures
        item_at(v, id) == k,
    decreases v.len(),
{
    if v.len() > 0 && v[0].id != id {
        let t = v.drop_first();
        assert forall|i: int| 0 <= i < k - 1 implies (#[trigger] t[i]).id != id by {
            assert(t[i] == v[i + 1]);
        }
        lemma_item_at_is(t, id, k - 1);
    }
}

pub proof fn lemma_item_at(v: Items, id: DlId)
    ensures
        0 <= item_at(v, id) <= v.len(),
        forall|i: int| 0 <= i < item_at(v, id) ==> (#[trigger] v[i]).id != id,
        item_at(v, id) < v.len() ==> v[item_at(v, id)].id == id,
    decreases v.len(),
{
    if v.len() > 0 && v[0].id != id {
        let t = v.drop_first();
        lemma_item_at(t, id);
        assert forall|i: int| 0 <= i < item_at(v, id) implies (#[trigger] v[i]).id != id by {
            if i > 0 {
                assert(t[i - 1] == v[i]);
            }
        }
    }
}

/// The place of the row numbered `id`.
pub fn find_item(v: &Vec<DownloadItem>, id: DlId) -> (r: Option<usize>)
    ensures
        match r {
            Some(i) => i < v@.len() && i == item_at(v.deep_view(), id) && v@[i as int].id == id
                && has_item(v.deep_view(), id) && v.deep_view()[i as int] == v@[i as int]@,
            None => !has_item(v.deep_view(), id) && item_at(v.deep_view(), id) == v@.len(),
        },
{
    let ghost all = v.deep_view();
    let mut i: usize = 0;
    while i < v.len()
        invariant
            i <= v@.len(),
            all == v.deep_view(),
            forall|k: int| 0 <= k < i ==> (#[trigger] all[k]).id != id,
        decreases v.len() - i,
    {
        assert(all[i as int] == v@[i as int]@);
        if v[i].id == id {
            proof {
                lemma_item_at_is(all, id, i as int);
            }
            return Some(i);
        }
        i += 1;
    }
    proof {
        lemma_item_at_is(all, id, i as int);
    }
    None
}

// ------------------------------------------------------------------- probes

/// May a probe's name replace the one the item carries?
///
/// A probe belongs to the transfer that issued it, so its answer arrives while
/// no byte has landed, which is after the user named the file. `name_locked`
/// is what tells that case from a fresh item.
pub fn may_adopt_name(d: &DownloadItem) -> (r: bool)
    ensures
        r == d@.nameable(),
{
    !d.name_locked && d.downloaded == 0 && d.held.len() == 0
}

// ----------------------------------------------------------- download limit

pub open spec fn cap_of(s: SettingsModel) -> Option<u64> {
    if s.dl_limit_enabled {
        let c = s.dl_limit_mb * 1048576;
        Some(if c <= u64::MAX {
            c as u64
        } else {
            u64::MAX
        })
    } else {
        None
    }
}

/// Bytes the download limit allows per window, or none while it is switched off.
pub fn quota_cap(s: &Settings) -> (r: Option<u64>)
    ensures
        r == cap_of(s@),
{
    if s.dl_limit_enabled {
        let c: u128 = (s.dl_limit_mb as u128) * 1048576;
        Some(
            if c <= u64::MAX as u128 {
                c as u64
            } else {
                u64::MAX
            },
        )
    } else {
        None
    }
}

pub open spec fn window_len(s: SettingsModel) -> int {
    let hours = if s.dl_limit_hours == 0 {
        1
    } else {
        s.dl_limit_hours as int
    };
    if hours * 3600 > i64::MAX {
        i64::MAX as int
    } else {
        hours * 3600
    }
}

/// Window length in seconds. Zero hours would describe a window that never
/// rolls, so it floors at one.
pub fn quota_window_secs(s: &Settings) -> (r: i64)
    ensures
        r == window_len(s@),
{
    let hours: u64 = if s.dl_limit_hours == 0 {
        1
    } else {
        s.dl_limit_hours
    };
    let secs: i128 = hours as i128 * 3600;
    if secs > i64::MAX as i128 {
        i64::MAX
    } else {
        secs as i64
    }
}

pub open spec fn over_cap(s: SettingsModel, q: DlQuota) -> bool {
    cap_of(s) matches Some(cap) && q.used >= cap
}

/// Is the cap reached? False whenever the limit is off.
pub fn quota_over_cap(s: &Settings, q: &DlQuota) -> (r: bool)
    ensures
        r == over_cap(s@, *q),
{
    match quota_cap(s) {
        Some(cap) => q.used >= cap,
        None => false,
    }
}

pub open spec fn window_over(s: SettingsModel, q: DlQuota, now: i64) -> bool {
    q.window_start > 0 && (if now - q.window_start < i64::MIN {
        i64::MIN as int
    } else {
        now - q.window_start
    }) >= window_len(s)
}

/// Has the running window aged out? A window that never opened has nothing to
/// roll.
pub fn quota_window_elapsed(s: &Settings, q: &DlQuota, now: i64) -> (r: bool)
    ensures
        r == window_over(s@, *q, now),
{
    if q.window_start <= 0 {
        return false;
    }
    let age: i128 = now as i128 - q.window_start as i128;
    let age: i128 = if age < i64::MIN as i128 {
        i64::MIN as i128
    } else {
        age
    };
    age >= quota_window_secs(s) as i128
}

/// The predicate that holds of what the download limit must park.
pub open spec fn moving() -> spec_fn(DownloadItemModel) -> bool {
    |d: DownloadItemModel| d.state.active() || d.state == DlState::Queued
}

/// Everything the download limit must park: whatever is transferring, and what
/// is merely waiting for a slot.
pub fn quota_park_targets(downloads: &Vec<DownloadItem>) -> (r: Vec<DlId>)
    ensures
        r@ == ids_where(downloads.deep_view(), moving()),
{
    let ghost all = downloads.deep_view();
    let mut r: Vec<DlId> = Vec::new();
    let mut i: usize = 0;
    assert(all.take(0) =~= seq![]);
    while i < downloads.len()
        invariant
            i <= downloads@.len(),
            all == downloads.deep_view(),
            r@ == ids_where(all.take(i as int), moving()),
        decreases downloads.len() - i,
    {
        let d = &downloads[i];
        proof {
            assert(all.take(i + 1).drop_last() =~= all.take(i as int));
            assert(all.take(i + 1).last() == d@);
        }
        if d.state.is_active() || d.state == DlState::Queued {
            r.push(d.id);
        }
        i += 1;
    }
    assert(all.take(i as int) =~= all);
    r
}

/// A row after the limiter has given it back; a row that it did not park is
/// left alone.
pub open spec fn released(d: DownloadItemModel) -> DownloadItemModel {
    if d.limit_paused {
        DownloadItemModel {
            limit_paused: false,
            status_line: seq![],
            state: if d.queue is Some {
                DlState::Queued
            } else {
                d.state
            },
            ..d
        }
    } else {
        d
    }
}

/// The rows the limiter had parked, each with whether its queue takes it back.
pub open spec fn released_ids(v: Items) -> Seq<(DlId, bool)>
    decreases v.len(),
{
    if v.len() == 0 {
        seq![]
    } else {
        let r = released_ids(v.drop_last());
        if v.last().limit_paused {
            r.push((v.last().id, v.last().queue is Some))
        } else {
            r
        }
    }
}

pub open spec fn release_all(v: Items) -> Items {
    v.map_values(|d: DownloadItemModel| released(d))
}

/// Hand back what the limiter parked, and only that. Members of a queue go
/// back to `Queued` so that their queue paces them; every released row is
/// returned with whether the queue took it back.
pub fn quota_release_targets(downloads: &mut Vec<DownloadItem>) -> (r: Vec<(DlId, bool)>)
    ensures
        r@ == released_ids(old(downloads).deep_view()),
        final(downloads).deep_view() == release_all(old(downloads).deep_view()),
{
    let ghost all = downloads.deep_view();
    let ghost f = |d: DownloadItemModel| released(d);
    let mut out: Vec<(DlId, bool)> = Vec::new();
    let mut i: usize = 0;
    assert(all.take(0) =~= seq![]);
    while i < downloads.len()
        invariant
            i <= downloads@.len(),
            all == old(downloads).deep_view(),
            downloads@.len() == all.len(),
            f == (|d: DownloadItemModel| released(d)),
            forall|k: int| 0 <= k < i ==> (#[trigger] downloads@[k])@ == released(all[k]),
            forall|k: int| i <= k < all.len() ==> (#[trigger] downloads@[k])@ == all[k],
            out@ == released_ids(all.take(i as int)),
        decreases downloads.len() - i,
    {
        proof {
            assert(downloads@[i as int]@ == all[i as int]);
            assert(all.take(i + 1).drop_last() =~= all.take(i as int));
            assert(all.take(i + 1).last() == all[i as int]);
        }
        if downloads[i].limit_paused {
            let requeued = downloads[i].queue.is_some();
            out.push((downloads[i].id, requeued));
            downloads[i].limit_paused = false;
            downloads[i].status_line.clear();
            if requeued {
                downloads[i].state = DlState::Queued;
            }
            assert(downloads@[i as int]@ =~= released(all[i as int]));
        }
        i += 1;
    }
    assert(all.take(i as int) =~= all);
    assert(downloads.deep_view() =~= release_all(all));
    out
}

// ------------------------------------------------------------------- queues

/// A row of the queue called `queue` after the queue was told to start.
pub open spec fn promoted(d: DownloadItemModel, queue: Seq<char>) -> DownloadItemModel {
    if d.in_queue(queue) && (d.state == DlState::Paused || d.state == DlState::Error) {
        DownloadItemModel { state: DlState::Queued, retries: 0, ..d }
    } else {
        d
    }
}

pub open spec fn promote_all(v: Items, queue: Seq<char>) -> Items {
    v.map_values(|d: DownloadItemModel| promoted(d, queue))
}

/// Put a queue's paused and failed members back to `Queued` with a fresh retry
/// budget.
pub fn promote_queue_members(downloads: &mut Vec<DownloadItem>, queue: &str)
    ensures
        final(downloads).deep_view() == promote_all(old(downloads).deep_view(), queue@),
{
    let ghost all = downloads.deep_view();
    let mut i: usize = 0;
    while i < downloads.len()
        invariant
            i <= downloads@.len(),
            all == old(downloads).deep_view(),
            downloads@.len() == all.len(),
            forall|k: int| 0 <= k < i ==> (#[trigger] downloads@[k])@ == promoted(all[k], queue@),
            forall|k: int| i <= k < all.len() ==> (#[trigger] downloads@[k])@ == all[k],
        decreases downloads.len() - i,
    {
        assert(downloads@[i as int]@ == all[i as int]);
        let st = downloads[i].state;
        if downloads[i].is_in_queue(queue) && (st == DlState::Paused || st == DlState::Error) {
            downloads[i].state = DlState::Queued;
            downloads[i].retries = 0;
            assert(downloads@[i as int]@ =~= promoted(all[i as int], queue@));
        }
        i += 1;
    }
    assert(downloads.deep_view() =~= promote_all(all, queue@));
}

/// Whether a queue's scheduled start is due this minute.
pub open spec fn start_due(s: ScheduleModel, hhmm: Seq<char>, weekday: int, running: bool) -> bool {
    s.start_enabled && s.start_at == hhmm && !running && (s.once || (0 <= weekday < s.days.len()
        && s.days[weekday]))
}

/// Is a queue's scheduled start due this minute? "Once" fires at the next
/// matching minute whatever the ticked days (the caller disarms it
/// afterwards), "Daily" only on ticked days.
pub fn schedule_start_due(s: &Schedule, hhmm: &str, weekday: usize, running: bool) -> (r: bool)
    ensures
        r == start_due(s@, hhmm@, weekday as int, running),
{
    if !s.start_enabled || !same(&s.start_at, hhmm) || running {
        return false;
    }
    s.once || (weekday < 7 && s.days[weekday])
}

// ------------------------------------------------------------ staging files

/// Whether what was found at the staging path plausibly holds the recorded
/// ranges: a length that is not zero and matches the size, and no fewer
/// allocated blocks than the ranges claim, with two blocks of 4096 bytes to
/// spare for each range and one more.
pub open spec fn staged(found: Option<Found>, size: Option<u64>, held: Seq<Span>) -> bool {
    match found {
        None => false,
        Some(f) => f.len != 0 && (size matches Some(s) ==> f.len == s) && (f.blocks matches Some(
            b,
        ) ==> counter(counter(b * 512) + counter((held.len() as int + 1) * 8192)) >= counted(held)),
    }
}

/// A number as a 64-bit counter shows it.
pub open spec fn counter(n: int) -> int {
    if n > u64::MAX {
        u64::MAX as int
    } else {
        n
    }
}

/// The product, which stays at the counter's end where it would run past it.
pub fn capped_product(a: u64, b: u64) -> (r: u64)
    ensures
        r == counter(a * b),
{
    assert(a * b <= u64::MAX * u64::MAX) by (nonlinear_arith)
        requires
            a <= u64::MAX,
            b <= u64::MAX,
    ;
    let p: u128 = (a as u128) * (b as u128);
    if p > u64::MAX as u128 {
        u64::MAX
    } else {
        p as u64
    }
}

/// Does the staging file plausibly contain the recorded ranges? Length alone
/// says nothing about completeness, since the file is sized before the first
/// byte; where the file system tells how many blocks are allocated, they are
/// checked against the bytes the ranges claim.
pub fn part_matches(part: &str, size: Option<u64>, held: &Vec<Span>, disk: &Disk) -> (r: bool)
    ensures
        r == staged(disk@.found(part@), size, held@),
{
    let (len, blocks) = match disk.look(part) {
        Some((_, len, blocks)) => (len, blocks),
        None => return false,
    };
    if len == 0 {
        return false;
    }
    if let Some(s) = size {
        if len != s {
            return false;
        }
    }
    if let Some(b) = blocks {
        let allocated: u64 = capped_product(b, 512);
        let claimed: u64 = sum_spans(held.as_slice());
        let n: u64 = held.len() as u64;
        let slop: u64 = capped_product(n.saturating_add(1), 8192);
        if allocated.saturating_add(slop) < claimed {
            return false;
        }
    }
    true
}

// ------------------------------------------------------------- unique names

/// Whether another row saves a file called `name` into the folder `dir`.
pub open spec fn listed_in(
    v: Items,
    dir: Seq<char>,
    name: Seq<char>,
    skip: DlId,
    disk: DiskModel,
) -> bool {
    exists|i: int|
        0 <= i < v.len() && (#[trigger] v[i]).id != skip && dir_place(
            v[i].save_dir,
            disk.real_of(v[i].save_dir),
        ) == dir_place(dir, disk.real_of(dir)) && v[i].file_name == name
}

/// Whether a name is taken, on disk or by another row.
pub open spec fn taken(
    v: Items,
    dir: Seq<char>,
    name: Seq<char>,
    skip: DlId,
    disk: DiskModel,
) -> bool {
    disk.found(path_in(dir, name)) is Some || listed_in(v, dir, name, skip, disk)
}

/// Whether the `n`-th candidate is the first that is free.
pub open spec fn first_free(
    v: Items,
    dir: Seq<char>,
    name: Seq<char>,
    skip: DlId,
    disk: DiskModel,
    n: nat,
) -> bool {
    &&& !taken(v, dir, candidate(name, n), skip, disk)
    &&& forall|m: nat| m < n ==> taken(v, dir, #[trigger] candidate(name, m), skip, disk)
}

/// The first candidate that is free.
pub open spec fn free_name(
    v: Items,
    dir: Seq<char>,
    name: Seq<char>,
    skip: DlId,
    disk: DiskModel,
) -> Seq<char> {
    candidate(name, choose|n: nat| first_free(v, dir, name, skip, disk, n))
}

/// What can take a name: the names of the rows, and the paths on disk.
spec fn takers(v: Items, disk: DiskModel) -> Set<(bool, Seq<char>)> {
    v.map_values(|d: DownloadItemModel| (false, d.file_name)).to_set().union(
        disk.entries.dom().map(|p: Seq<char>| (true, p)),
    )
}

/// What takes the `n`-th candidate, where it is taken.
spec fn taker(dir: Seq<char>, name: Seq<char>, disk: DiskModel, n: nat) -> (bool, Seq<char>) {
    if disk.found(path_in(dir, candidate(name, n))) is Some {
        (true, path_in(dir, candidate(name, n)))
    } else {
        (false, candidate(name, n))
    }
}

proof fn lemma_takers(v: Items, disk: DiskModel)
    requires
        disk.entries.dom().finite(),
    ensures
        takers(v, disk).finite(),
        takers(v, disk).len() <= v.len() + disk.entries.dom().len(),
{
    let names = v.map_values(|d: DownloadItemModel| (false, d.file_name));
    let f = |p: Seq<char>| (true, p);
    let paths = disk.entries.dom().map(f);
    names.lemma_cardinality_of_set();
    vstd::seq_lib::seq_to_set_is_finite(names);
    disk.entries.dom().lemma_map_finite(f);
    vstd::set_lib::lemma_map_size_bound(disk.entries.dom(), paths, f);
    vstd::set_lib::lemma_len_union(names.to_set(), paths);
}

proof fn lemma_taken_by(
    v: Items,
    dir: Seq<char>,
    name: Seq<char>,
    skip: DlId,
    disk: DiskModel,
    n: nat,
)
    requires
        taken(v, dir, candidate(name, n), skip, disk),
    ensures
        takers(v, disk).contains(taker(dir, name, disk, n)),
{
    let c = candidate(name, n);
    let p = path_in(dir, c);
    let f = |p: Seq<char>| (true, p);
    if disk.found(p) is Some {
        assert(disk.entries.dom().map(f).contains(f(p)));
    } else {
        let names = v.map_values(|d: DownloadItemModel| (false, d.file_name));
        let i = choose|i: int|
            0 <= i < v.len() && (#[trigger] v[i]).id != skip && dir_place(
                v[i].save_dir,
                disk.real_of(v[i].save_dir),
            ) == dir_place(dir, disk.real_of(dir)) && v[i].file_name == c;
        assert(names[i] == (false, c));
        assert(names.to_set().contains((false, c)));
    }
}

/// A candidate that a row or a file takes leaves the others to other rows and
/// files.
proof fn lemma_taken_run(
    dir: Seq<char>,
    name: Seq<char>,
    disk: DiskModel,
    n: nat,
    s: Set<(bool, Seq<char>)>,
)
    requires
        s.finite(),
        forall|m: nat| m < n ==> s.contains(#[trigger] taker(dir, name, disk, m)),
    ensures
        n <= s.len(),
    decreases n,
{
    if n > 0 {
        let k = (n - 1) as nat;
        let t = taker(dir, name, disk, k);
        assert forall|m: nat| m < k implies s.remove(t).contains(
            #[trigger] taker(dir, name, disk, m),
        ) by {
            candidates_differ(name, m, k);
            candidate_paths_differ(dir, name, m, k);
        }
        lemma_taken_run(dir, name, disk, k, s.remove(t));
    }
}

/// No more candidates are taken in a row than there are rows and files.
proof fn lemma_taken_bound(
    v: Items,
    dir: Seq<char>,
    name: Seq<char>,
    skip: DlId,
    disk: DiskModel,
    n: nat,
)
    requires
        disk.entries.dom().finite(),
        forall|m: nat| m < n ==> taken(v, dir, #[trigger] candidate(name, m), skip, disk),
    ensures
        n <= v.len() + disk.entries.dom().len(),
{
    lemma_takers(v, disk);
    assert forall|m: nat| m < n implies takers(v, disk).contains(
        #[trigger] taker(dir, name, disk, m),
    ) by {
        assert(taken(v, dir, candidate(name, m), skip, disk));
        lemma_taken_by(v, dir, name, skip, disk, m);
    }
    lemma_taken_run(dir, name, disk, n, takers(v, disk));
}

/// There is one first free candidate at most.
proof fn lemma_first_free(
    v: Items,
    dir: Seq<char>,
    name: Seq<char>,
    skip: DlId,
    disk: DiskModel,
    n: nat,
)
    requires
        first_free(v, dir, name, skip, disk, n),
    ensures
        free_name(v, dir, name, skip, disk) == candidate(name, n),
{
    let m = choose|m: nat| first_free(v, dir, name, skip, disk, m);
    assert(first_free(v, dir, name, skip, disk, m));
    if m < n {
        assert(taken(v, dir, candidate(name, m), skip, disk));
    } else if n < m {
        assert(taken(v, dir, candidate(name, n), skip, disk));
    }
}

/// While the candidates from the first on are taken, one further on is free.
proof fn lemma_some_free(
    v: Items,
    dir: Seq<char>,
    name: Seq<char>,
    skip: DlId,
    disk: DiskModel,
    n: nat,
) -> (k: nat)
    requires
        disk.entries.dom().finite(),
        forall|m: nat| m < n ==> taken(v, dir, #[trigger] candidate(name, m), skip, disk),
    ensures
        first_free(v, dir, name, skip, disk, k),
    decreases v.len() + disk.entries.dom().len() - n,
{
    lemma_taken_bound(v, dir, name, skip, disk, n);
    if taken(v, dir, candidate(name, n), skip, disk) {
        assert forall|m: nat| m < n + 1 implies taken(
            v,
            dir,
            #[trigger] candidate(name, m),
            skip,
            disk,
        ) by {
            if m < n {
                assert(taken(v, dir, candidate(name, m), skip, disk));
            }
        }
        lemma_taken_bound(v, dir, name, skip, disk, n + 1);
        lemma_some_free(v, dir, name, skip, disk, n + 1)
    } else {
        n
    }
}

fn is_listed_in(
    v: &Vec<DownloadItem>,
    dir: &str,
    name: &str,
    skip: DlId,
    disk: &Disk,
) -> (r: bool)
    ensures
        r == listed_in(v.deep_view(), dir@, name@, skip, disk@),
{
    let here = disk.place(dir);
    let ghost all = v.deep_view();
    let mut i: usize = 0;
    while i < v.len()
        invariant
            i <= v@.len(),
            all == v.deep_view(),
            here@ == dir_place(dir@, disk@.real_of(dir@)),
            forall|k: int|
                0 <= k < i ==> !((#[trigger] all[k]).id != skip && dir_place(
                    all[k].save_dir,
                    disk@.real_of(all[k].save_dir),
                ) == dir_place(dir@, disk@.real_of(dir@)) && all[k].file_name == name@),
        decreases v.len() - i,
    {
        assert(all[i as int] == v@[i as int]@);
        if v[i].id != skip && same(&v[i].file_name, name) && same_place(
            &disk.place(&v[i].save_dir),
            &here,
        ) {
            return true;
        }
        i += 1;
    }
    false
}

/// The first of `name.ext`, `name_1.ext`, `name_2.ext`, ... that exists
/// neither on disk in `dir` nor as another row saving there. There is always
/// one, since the disk and the list are finite.
pub fn unique_file_name(
    dir: &str,
    name: &str,
    downloads: &Vec<DownloadItem>,
    skip_id: DlId,
    disk: &Disk,
) -> (r: String)
    ensures
        r@ == free_name(downloads.deep_view(), dir@, name@, skip_id, disk@),
        !taken(downloads.deep_view(), dir@, r@, skip_id, disk@),
        exists|n: nat| r@ == #[trigger] candidate(name@, n),
{
    let ghost all = downloads.deep_view();
    let most: u128 = downloads.len() as u128 + disk.entries.len() as u128;
    proof {
        lemma_entries_finite(disk.entries@);
    }
    let mut n: u128 = 0;
    loop
        invariant
            all == downloads.deep_view(),
            all.len() == downloads@.len(),
            most == downloads@.len() + disk.entries@.len(),
            n <= most,
            disk@.entries.dom().finite(),
            disk@.entries.dom().len() <= disk.entries@.len(),
            forall|m: nat|
                m < n ==> taken(all, dir@, #[trigger] candidate(name@, m), skip_id, disk@),
        decreases most - n,
    {
        let c = candidate_name(name, n);
        if disk.look(&join_path(dir, &c)).is_none() && !is_listed_in(
            downloads,
            dir,
            &c,
            skip_id,
            disk,
        ) {
            proof {
                assert(first_free(all, dir@, name@, skip_id, disk@, n as nat));
                lemma_first_free(all, dir@, name@, skip_id, disk@, n as nat);
            }
            return c;
        }
        proof {
            assert forall|m: nat| m < n + 1 implies taken(
                all,
                dir@,
                #[trigger] candidate(name@, m),
                skip_id,
                disk@,
            ) by {
                if m < n {
                    assert(taken(all, dir@, candidate(name@, m), skip_id, disk@));
                }
            }
            lemma_taken_bound(all, dir@, name@, skip_id, disk@, (n + 1) as nat);
        }
        n += 1;
    }
}

// ---------------------------------------------------------------------- laws

/// While the limit is off nothing is over the cap, whatever an earlier window
/// has counted.
pub proof fn an_idle_limit_blocks_nothing(s: SettingsModel, q: DlQuota)
    requires
        !s.dl_limit_enabled,
    ensures
        !over_cap(s, q),
{
}

/// The limit blocks at its cap and not before.
pub proof fn the_limit_blocks_at_the_cap(s: SettingsModel, q: DlQuota)
    requires
        s.dl_limit_enabled,
        s.dl_limit_mb * 1048576 <= u64::MAX,
    ensures
        over_cap(s, q) <==> q.used >= s.dl_limit_mb * 1048576,
{
}

/// A window is never shorter than an hour, and it rolls once it is over: the cap
/// can never become a permanent block.
pub proof fn a_window_always_rolls(s: SettingsModel, q: DlQuota, now: i64)
    ensures
        window_len(s) >= 3600,
        q.window_start > 0 && now - q.window_start >= window_len(s) ==> window_over(s, q, now),
{
}

proof fn lemma_nothing_parked(v: Items)
    requires
        forall|i: int| 0 <= i < v.len() ==> !(#[trigger] v[i]).limit_paused,
    ensures
        released_ids(v) == Seq::<(DlId, bool)>::empty(),
    decreases v.len(),
{
    if v.len() > 0 {
        let t = v.drop_last();
        assert forall|i: int| 0 <= i < t.len() implies !(#[trigger] t[i]).limit_paused by {
            assert(t[i] == v[i]);
        }
        lemma_nothing_parked(t);
        assert(!v[v.len() - 1].limit_paused);
    }
}

/// Giving back is idempotent: a second time there is nothing to give back, and
/// the list stays as it is.
pub proof fn giving_back_twice_gives_back_once(v: Items)
    ensures
        released_ids(release_all(v)) == Seq::<(DlId, bool)>::empty(),
        release_all(release_all(v)) == release_all(v),
{
    let r = release_all(v);
    assert forall|i: int| 0 <= i < r.len() implies !(#[trigger] r[i]).limit_paused by {
        assert(r[i] == released(v[i]));
    }
    lemma_nothing_parked(r);
    assert(release_all(r) =~= r);
}

/// A download paused by hand is left alone when the window opens again.
pub proof fn a_pause_by_hand_is_kept(v: Items, i: int)
    requires
        0 <= i < v.len(),
        !v[i].limit_paused,
    ensures
        release_all(v)[i] == v[i],
{
}

/// Starting a queue touches its own paused and failed members only.
pub proof fn starting_a_queue_touches_its_own(v: Items, queue: Seq<char>, i: int)
    requires
        0 <= i < v.len(),
    ensures
        promote_all(v, queue).len() == v.len(),
        promote_all(v, queue)[i] != v[i] ==> v[i].in_queue(queue) && (v[i].state
            == DlState::Paused || v[i].state == DlState::Error),
        promote_all(v, queue)[i].id == v[i].id,
{
}

/// A staging file never vouches for more than its allocated blocks can hold.
pub proof fn holes_do_not_pass_for_bytes(len: u64, blocks: u64, size: Option<u64>, held: Seq<Span>)
    requires
        blocks * 512 + (held.len() + 1) * 8192 < counted(held),
    ensures
        !staged(Some(Found { is_file: true, len, blocks: Some(blocks) }), size, held),
{
}

/// The name that is picked is free, and every one before it is taken.
pub proof fn the_picked_name_is_free(
    v: Items,
    dir: Seq<char>,
    name: Seq<char>,
    skip: DlId,
    disk: DiskModel,
)
    requires
        disk.entries.dom().finite(),
    ensures
        !taken(v, dir, free_name(v, dir, name, skip, disk), skip, disk),
        exists|n: nat|
            free_name(v, dir, name, skip, disk) == candidate(name, n) && #[trigger] first_free(
                v,
                dir,
                name,
                skip,
                disk,
                n,
            ),
{
    let n = lemma_some_free(v, dir, name, skip, disk, 0);
    lemma_first_free(v, dir, name, skip, disk, n);
}

/// A name that collides with nothing is kept.
pub proof fn a_free_name_is_kept(
    v: Items,
    dir: Seq<char>,
    name: Seq<char>,
    skip: DlId,
    disk: DiskModel,
)
    requires
        !taken(v, dir, candidate(name, 0), skip, disk),
    ensures
        free_name(v, dir, name, skip, disk) == candidate(name, 0),
{
    assert(first_free(v, dir, name, skip, disk, 0));
    lemma_first_free(v, dir, name, skip, disk, 0);
}

} // verus!
