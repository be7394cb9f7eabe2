//! Rows, spans, the download limit, schedules, and the batch table.
use hydra_gui::assoc::keep;
use hydra_gui::batch::{batch_rows, name_of_link, parse_links};
use hydra_gui::downloads::{
    may_adopt_name, part_matches, promote_queue_members, quota_cap, quota_over_cap,
    quota_park_targets, quota_release_targets, quota_window_elapsed, quota_window_secs,
    schedule_start_due, unique_file_name,
};
use hydra_gui::engine::{
    file_name_from_url, metalink_address, parse_url, url_file_name, UrlError,
};
use hydra_gui::i18n::Catalogue;
use hydra_gui::model::{DlQuota, DlState, DownloadItem, PowerAction, Schedule, Settings};
use hydra_gui::names::{Disk, DiskEntry};
use hydra_gui::order::{key_of_text, sort_keyed};
use hydra_gui::progress::{live_progress, progress};
use hydra_gui::spans::{sanitize_spans, sum_spans};
use hydra_gui::state::{prog_state_seed, BatchSortKey, BatchState};

fn item(id: u64, dir: &str, name: &str, queue: Option<&str>, state: DlState) -> DownloadItem {
    DownloadItem {
        id,
        url: format!("https://example.com/{name}"),
        file_name: name.into(),
        save_dir: dir.into(),
        category: None,
        description: String::new(),
        size: None,
        downloaded: 0,
        state,
        error: None,
        resume: None,
        added: 0,
        last_try: None,
        queue: queue.map(str::to_string),
        q_order: 0,
        auth: None,
        cookies: None,
        referer: None,
        speed_limit: None,
        limit_paused: false,
        held: vec![],
        part_path: None,
        rate_bits: 0,
        retries: 3,
        eta_secs: None,
        recorded_bits: None,
        conns: vec![],
        status_line: String::new(),
        shutdown_after: false,
        shutdown_action: PowerAction::default(),
        stream: None,
        metalink: None,
        name_locked: false,
    }
}

fn batch_with(urls: &[&str]) -> BatchState {
    BatchState {
        checks: urls.iter().map(|u| (u.to_string(), true)).collect(),
        ..Default::default()
    }
}

fn shown(st: &BatchState) -> Vec<usize> {
    let dirs = vec!["d".to_string(); st.checks.len()];
    let blocked = vec![false; st.checks.len()];
    batch_rows(st, &dirs, &blocked, &Catalogue::english())
        .iter()
        .map(|r| r.idx)
        .collect()
}

#[test]
fn batch_rows_hide_duplicates_and_web_pages() {
    let mut st = batch_with(&[
        "https://a.b/x.zip",
        "https://a.b/index.html",
        "https://a.b/x.zip",
        "https://a.b/y.iso",
    ]);
    assert_eq!(shown(&st), vec![0, 1, 3]);
    st.hide_html = true;
    assert_eq!(shown(&st), vec![0, 3]);
    st.hide_dups = false;
    st.hide_html = false;
    assert_eq!(shown(&st), vec![0, 1, 2, 3]);
    st.hide_html = true;
    keep(&mut st.names, "https://a.b/y.iso".into(), "page.php".to_string());
    assert_eq!(shown(&st), vec![0, 2]);
}

#[test]
fn batch_rows_sort_keeps_unknown_sizes_last() {
    let mut st = batch_with(&[
        "https://a.b/big.zip",
        "https://a.b/none.zip",
        "https://a.b/small.zip",
    ]);
    keep(&mut st.sizes, "https://a.b/big.zip".into(), 100);
    keep(&mut st.sizes, "https://a.b/small.zip".into(), 1);
    st.sort = Some((BatchSortKey::Size, true));
    assert_eq!(shown(&st), vec![2, 0, 1]);
    st.sort = Some((BatchSortKey::Size, false));
    assert_eq!(shown(&st), vec![0, 2, 1]);
    st.sort = Some((BatchSortKey::Name, false));
    assert_eq!(shown(&st), vec![2, 1, 0]);
    let dirs: Vec<String> = st
        .checks
        .iter()
        .map(|(u, _)| format!("/dl/{}", name_of_link(&st, u)))
        .collect();
    let blocked: Vec<bool> = st.checks.iter().map(|(u, _)| u.contains("none")).collect();
    let rows = batch_rows(&st, &dirs, &blocked, &Catalogue::english());
    assert_eq!(rows[1].save_to, "/dl/none.zip");
    assert!(rows[1].blocked && !rows[0].blocked);
    assert_eq!(rows[0].kind, "ZIP archive");
}

#[test]
fn pasted_links_are_trimmed_and_blocked_hosts_start_unticked() {
    let links = parse_links(
        "  https://a.b/x.zip \nnonsense\n\nhttps://c.d/y.zip",
        &vec![],
        "c.d",
    );
    assert_eq!(
        links,
        vec![
            ("https://a.b/x.zip".to_string(), true),
            ("https://c.d/y.zip".to_string(), false),
        ]
    );
    // A tick that was set before survives the next reading.
    let again = parse_links(
        "https://c.d/y.zip",
        &vec![("https://c.d/y.zip".to_string(), true)],
        "c.d",
    );
    assert_eq!(again, vec![("https://c.d/y.zip".to_string(), true)]);
}

#[test]
fn progress_never_draws_past_a_full_bar() {
    let fraction = |d: u64, s: Option<u64>| f64::from(progress(d, s)) / 1e6;
    assert_eq!(fraction(1_200, Some(1_000)), 1.0);
    assert_eq!(fraction(250, Some(1_000)), 0.25);
    assert_eq!(fraction(250, None), 0.0);
    assert_eq!(fraction(250, Some(0)), 0.0);
}

#[test]
fn a_timed_recording_has_a_real_progress_bar() {
    let fraction = |limit: Option<u64>, secs: Option<f64>| {
        f64::from(live_progress(limit, secs.map(|s| (s * 1000.0) as u64))) / 1e6
    };
    assert!((fraction(Some(300), Some(150.0)) - 0.5).abs() < 1e-6);
    assert!((fraction(Some(300), Some(400.0)) - 1.0).abs() < 1e-6);
    assert_eq!(fraction(None, Some(150.0)), 0.0);
    assert_eq!(fraction(Some(300), None), 0.0);
    assert_eq!(fraction(Some(0), Some(10.0)), 0.0);
}

#[test]
fn sanitize_spans_merges_clamps_and_drops() {
    assert_eq!(
        sanitize_spans(&[(50, 80), (0, 60), (80, 90)], Some(100)),
        vec![(0, 90)]
    );
    assert_eq!(
        sanitize_spans(&[(30, 10), (5, 5), (90, 500)], Some(100)),
        vec![(90, 100)]
    );
    assert_eq!(sanitize_spans(&[(200, 300)], Some(100)), vec![]);
    assert_eq!(sanitize_spans(&[(10, 20), (0, 15)], None), vec![(0, 20)]);
    assert_eq!(sum_spans(&[(0, 90), (100, 110)]), 100);
}

#[test]
fn cleaning_spans_twice_changes_nothing_more() {
    let once = sanitize_spans(&[(7, 3), (20, 40), (10, 25), (90, 200)], Some(100));
    assert_eq!(once, vec![(10, 40), (90, 100)]);
    assert_eq!(sanitize_spans(&once, Some(100)), once);
}

#[test]
fn a_probe_may_not_take_a_name_the_user_chose() {
    let mut d = item(1, "/dl", "index.html", None, DlState::Paused);
    assert!(may_adopt_name(&d));
    d.file_name = "MyName.zip".into();
    d.name_locked = true;
    assert!(!may_adopt_name(&d));
    d.state = DlState::Connecting;
    assert!(!may_adopt_name(&d));
    let mut unlocked = item(2, "/dl", "setup.exe", None, DlState::Receiving);
    unlocked.held = vec![(0, 4096)];
    assert!(!may_adopt_name(&unlocked));
}

fn on_disk(path: &str, len: u64, blocks: Option<u64>) -> Disk {
    Disk {
        entries: vec![DiskEntry {
            path: path.into(),
            is_file: true,
            len,
            blocks,
        }],
        canonical: vec![],
    }
}

#[test]
fn part_verification_rejects_holes_and_wrong_length() {
    let path = "/tmp/x.part";
    assert!(!part_matches(path, Some(1000), &vec![(0, 1000)], &Disk::unknown()));
    // Nothing allocated: the length alone proves nothing.
    let sparse = on_disk(path, 1_000_000, Some(0));
    assert!(!part_matches(path, Some(1_000_000), &vec![(0, 1_000_000)], &sparse));
    assert!(part_matches(path, Some(1_000_000), &vec![], &sparse));
    let written = on_disk(path, 1_000_000, Some(1_954));
    assert!(part_matches(path, Some(1_000_000), &vec![(0, 1_000_000)], &written));
    assert!(!part_matches(path, Some(2_000_000), &vec![(0, 1_000_000)], &written));
}

#[test]
fn schedule_once_ignores_days_daily_honours_them() {
    let mut s = Schedule {
        start_enabled: true,
        start_at: "23:00".into(),
        ..Schedule::default()
    };
    s.days = [false; 7];
    s.once = false;
    assert!(!schedule_start_due(&s, "23:00", 3, false));
    s.days[3] = true;
    assert!(schedule_start_due(&s, "23:00", 3, false));
    assert!(!schedule_start_due(&s, "23:00", 4, false));
    s.once = true;
    s.days = [false; 7];
    assert!(schedule_start_due(&s, "23:00", 0, false));
    assert!(!schedule_start_due(&s, "22:59", 0, false));
    assert!(!schedule_start_due(&s, "23:00", 0, true));
    s.start_enabled = false;
    assert!(!schedule_start_due(&s, "23:00", 0, false));
}

fn limit_settings(mb: u64, hours: u64) -> Settings {
    Settings {
        dl_limit_enabled: true,
        dl_limit_mb: mb,
        dl_limit_hours: hours,
        ..Settings::default()
    }
}

#[test]
fn quota_counts_only_while_the_limit_is_on() {
    let mut off = limit_settings(2, 5);
    off.dl_limit_enabled = false;
    assert_eq!(quota_cap(&off), None);
    let stale = DlQuota {
        used: 999 * 1024 * 1024,
        window_start: 1,
    };
    assert!(!quota_over_cap(&off, &stale));
    assert_eq!(quota_cap(&limit_settings(2, 5)), Some(2 * 1024 * 1024));
}

#[test]
fn quota_blocks_at_the_cap_not_before() {
    let s = limit_settings(2, 5);
    let cap = 2 * 1024 * 1024;
    let under = DlQuota {
        used: cap - 1,
        window_start: 100,
    };
    let at = DlQuota {
        used: cap,
        window_start: 100,
    };
    assert!(!quota_over_cap(&s, &under));
    assert!(quota_over_cap(&s, &at));
}

#[test]
fn quota_window_rolls_on_the_hour_it_was_given() {
    let s = limit_settings(2, 5);
    let q = DlQuota {
        used: 10,
        window_start: 1000,
    };
    assert!(!quota_window_elapsed(&s, &q, 1000 + 5 * 3600 - 1));
    assert!(quota_window_elapsed(&s, &q, 1000 + 5 * 3600));
    let never = DlQuota {
        used: 0,
        window_start: 0,
    };
    assert!(!quota_window_elapsed(&s, &never, 9_999_999));
    assert_eq!(quota_window_secs(&limit_settings(2, 0)), 3600);
    assert_eq!(quota_window_secs(&limit_settings(2, u64::MAX)), i64::MAX);
}

#[test]
fn quota_parks_running_and_waiting_work_only() {
    let downloads = vec![
        item(1, "/d", "a.zip", None, DlState::Receiving),
        item(2, "/d", "b.zip", None, DlState::Connecting),
        item(3, "/d", "c.zip", Some("Q"), DlState::Queued),
        item(4, "/d", "d.zip", None, DlState::Paused),
        item(5, "/d", "e.zip", None, DlState::Complete),
        item(6, "/d", "f.zip", None, DlState::Error),
    ];
    assert_eq!(quota_park_targets(&downloads), vec![1, 2, 3]);
}

#[test]
fn quota_releases_only_what_it_parked() {
    let mut downloads = vec![
        item(1, "/d", "a.zip", None, DlState::Paused),
        item(2, "/d", "b.zip", Some("Q"), DlState::Paused),
        item(3, "/d", "c.zip", None, DlState::Paused),
    ];
    downloads[0].limit_paused = true;
    downloads[1].limit_paused = true;
    downloads[1].status_line = "Download limit reached".into();
    let released = quota_release_targets(&mut downloads);
    assert_eq!(released, vec![(1, false), (2, true)]);
    assert_eq!(downloads[1].state, DlState::Queued);
    assert!(downloads[1].status_line.is_empty());
    assert_eq!(downloads[0].state, DlState::Paused);
    assert!(!downloads[0].limit_paused && !downloads[1].limit_paused);
    assert_eq!(downloads[2].state, DlState::Paused);
    assert!(quota_release_targets(&mut downloads).is_empty());
}

#[test]
fn promote_resets_paused_and_errored_members_only() {
    let mut downloads = vec![
        item(1, "/d", "a.zip", Some("Q"), DlState::Paused),
        item(2, "/d", "b.zip", Some("Q"), DlState::Error),
        item(3, "/d", "c.zip", Some("Q"), DlState::Complete),
        item(4, "/d", "d.zip", Some("Q"), DlState::Receiving),
        item(5, "/d", "e.zip", Some("Other"), DlState::Paused),
        item(6, "/d", "f.zip", None, DlState::Paused),
    ];
    promote_queue_members(&mut downloads, "Q");
    assert_eq!(downloads[0].state, DlState::Queued);
    assert_eq!(downloads[0].retries, 0);
    assert_eq!(downloads[1].state, DlState::Queued);
    assert_eq!(downloads[1].retries, 0);
    assert_eq!(downloads[2].state, DlState::Complete);
    assert_eq!(downloads[3].state, DlState::Receiving);
    assert_eq!(downloads[4].state, DlState::Paused);
    assert_eq!(downloads[5].state, DlState::Paused);
}

#[test]
fn unique_file_name_sees_through_dir_spelling() {
    let dir = "/nonexistent-hydra-test/downloads";
    let disk = Disk::unknown();
    let listed = item(
        1,
        "/nonexistent-hydra-test/./downloads/",
        "a.zip",
        None,
        DlState::Paused,
    );
    assert_eq!(
        unique_file_name(dir, "a.zip", &vec![listed], 99, &disk),
        "a_1.zip"
    );
    let other = item(
        1,
        "/nonexistent-hydra-test/elsewhere",
        "a.zip",
        None,
        DlState::Paused,
    );
    assert_eq!(unique_file_name(dir, "a.zip", &vec![other], 99, &disk), "a.zip");
    let me = item(7, dir, "a.zip", None, DlState::Paused);
    assert_eq!(unique_file_name(dir, "a.zip", &vec![me], 7, &disk), "a.zip");
}

#[test]
fn a_name_on_disk_is_not_taken_again() {
    let disk = on_disk("/dl/a.zip", 3, None);
    assert_eq!(unique_file_name("/dl", "a.zip", &vec![], 1, &disk), "a_1.zip");
}

#[test]
fn the_search_for_a_free_name_has_no_end_but_a_free_name() {
    let mut rows = vec![item(1, "/dl", "a.zip", None, DlState::Paused)];
    for n in 1..=1200u64 {
        rows.push(item(n + 1, "/dl", &format!("a_{n}.zip"), None, DlState::Paused));
    }
    let disk = on_disk("/dl/a_1201.zip", 3, None);
    assert_eq!(unique_file_name("/dl", "a.zip", &rows, 9999, &disk), "a_1202.zip");
}

#[test]
fn prog_state_seed_reflects_persisted_limit() {
    let p = prog_state_seed(Some(512 * 1024));
    assert!(p.limit_on);
    assert!(p.remember_limit);
    assert_eq!(p.limit_kb, "512");
    let p = prog_state_seed(None);
    assert!(!p.limit_on);
    assert!(!p.remember_limit);
    assert_eq!(p.limit_kb, "10");
}

#[test]
fn a_stable_sort_keeps_ties_in_both_directions() {
    let keys: Vec<Vec<u64>> = ["b", "a", "b", "a"].iter().map(|s| key_of_text(s)).collect();
    assert_eq!(sort_keyed(&keys, true), vec![1, 3, 0, 2]);
    assert_eq!(sort_keyed(&keys, false), vec![0, 2, 1, 3]);
}

#[test]
fn addresses_are_read_or_refused() {
    assert!(parse_url("https://a.b/x").is_ok());
    assert!(matches!(parse_url("word"), Err(UrlError::NoScheme)));
    assert!(matches!(parse_url("gopher://a.b/x"), Err(UrlError::Scheme)));
    assert!(matches!(parse_url("https:///x"), Err(UrlError::NoHost)));
    assert_eq!(url_file_name("https://a.b/dir/x.zip?q=1"), Some("x.zip".into()));
    assert_eq!(url_file_name("https://a.b/"), None);
    assert_eq!(file_name_from_url("https://a.b/"), "index.html");
    assert!(metalink_address("https://a.b/x.meta4"));
    assert!(!metalink_address("https://a.b/x.zip"));
}
