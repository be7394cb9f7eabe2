//! What holds across steps, on concrete values.
use hydra_gui::actions::MenuAction;
use hydra_gui::app::update::Message;
use hydra_gui::app::{App, Env, Mods};
use hydra_gui::effect::Effect;
use hydra_gui::engine::{Cmd, Event};
use hydra_gui::ext_info::percent_decode;
use hydra_gui::i18n::Catalogue;
use hydra_gui::model::{
    CategoryDef, ConfigFile, DlQuota, DlState, QueueDef, Schedule, Settings, StateFile,
};
use hydra_gui::names::{join_path, split_save_as, Disk};
use hydra_gui::progress::progress;
use hydra_gui::scan::{Console, LineSplitter, Pipe, MAX_LINES};
use hydra_gui::state::{SortKey, WinKind};
use std::collections::BTreeSet;

fn app() -> App {
    let mut settings = Settings::default();
    settings.on.show_file_info_dialog = false;
    let queue = |name: &str, builtin: bool| QueueDef {
        name: name.into(),
        files_at_once: 2,
        schedule: Schedule::default(),
        builtin,
        color: None,
        running: false,
        did_work: false,
    };
    let cfg = ConfigFile {
        settings,
        categories: vec![CategoryDef {
            name: "General".into(),
            dir: "/dl".into(),
            types: String::new(),
        }],
        queues: vec![queue("Main", true), queue("Night", false)],
        language: None,
        log_level: None,
        shortcuts: vec![],
    };
    let state = StateFile {
        downloads: vec![],
        next_id: 1,
        dl_quota: DlQuota {
            used: 0,
            window_start: 0,
        },
    };
    App::new(cfg, state, Catalogue::english(), 8, false)
}

fn env() -> Env {
    Env {
        now: 1_000_000,
        ms: 5_000,
        hhmm: "12:00".into(),
        weekday: 3,
        tray_active: true,
        disk: Disk::unknown(),
    }
}

fn send(a: &mut App, m: Message) -> Vec<Effect> {
    a.update(m, &env());
    let ids: BTreeSet<u64> = a.state.downloads.iter().map(|d| d.id).collect();
    assert_eq!(ids.len(), a.state.downloads.len(), "a number was given twice");
    assert!(ids.iter().all(|id| *id < a.state.next_id));
    let names: Vec<String> = a.windows.iter().map(|w| format!("{:?}", w.kind)).collect();
    let kinds: BTreeSet<&String> = names.iter().collect();
    assert_eq!(kinds.len(), names.len(), "a window is open twice");
    let wins: BTreeSet<u64> = a.windows.iter().map(|w| w.id).collect();
    assert_eq!(wins.len(), a.windows.len());
    assert!(wins.iter().all(|w| *w < a.next_win));
    a.take_effects()
}

fn add(a: &mut App, name: &str) {
    send(a, Message::AddrChanged(format!("https://ex.com/{name}")));
    send(a, Message::AddUrlOk);
}

fn finish(a: &mut App, id: u64) -> Vec<Effect> {
    send(a, Message::Engine(Event::Finished { id, len: 1, tenths: 0 }))
}

#[test]
fn numbers_and_windows_stay_apart_whatever_happens() {
    let mut a = app();
    for n in ["a.zip", "b.zip", "a.zip", "c.zip"] {
        add(&mut a, n);
        send(&mut a, Message::DupNew);
        send(&mut a, Message::Menu(MenuAction::About));
        send(&mut a, Message::Menu(MenuAction::Options));
    }
    send(&mut a, Message::SelectAll);
    send(&mut a, Message::Menu(MenuAction::MoveToQueue("Night".into())));
    send(&mut a, Message::Menu(MenuAction::StartQueue("Night".into())));
    finish(&mut a, 1);
    send(&mut a, Message::ToolbarDelete);
    send(&mut a, Message::ConfirmYes);
    send(&mut a, Message::Tick);
    add(&mut a, "d.zip");
    send(&mut a, Message::Menu(MenuAction::About));
    assert!(a.is_open(WinKind::About));
}

#[test]
fn a_removed_row_leaves_nothing_behind() {
    let mut a = app();
    add(&mut a, "a.zip");
    finish(&mut a, 1);
    a.list.selected = vec![1];
    send(&mut a, Message::ToolbarDelete);
    let out = send(&mut a, Message::ConfirmYes);
    assert!(a.item(1).is_none());
    assert!(a.list.selected.is_empty());
    assert!(!a.prog.contains_key(&1));
    // A finished file is kept unless the box was ticked.
    assert!(!out.iter().any(|e| matches!(e, Effect::RemoveFile(_))));
}

#[test]
fn a_finished_file_goes_where_that_was_asked_for() {
    let mut a = app();
    add(&mut a, "a.zip");
    finish(&mut a, 1);
    send(&mut a, Message::Menu(MenuAction::DeleteAllCompleted));
    send(&mut a, Message::ConfirmRemoveFile(true));
    let out = send(&mut a, Message::ConfirmYes);
    assert!(out.iter().any(|e| matches!(e, Effect::RemoveFile(p) if p == "/dl/a.zip")));
    assert!(a.state.downloads.is_empty());
}

#[test]
fn a_locked_name_survives_the_probe() {
    let mut a = app();
    add(&mut a, "a.zip");
    a.state.downloads[0].name_locked = true;
    send(
        &mut a,
        Message::Engine(Event::Probed {
            id: 1,
            size: Some(7),
            ranges: true,
            file_name: Some("other.zip".into()),
        }),
    );
    assert_eq!(a.item(1).unwrap().file_name, "a.zip");
    assert_eq!(a.item(1).unwrap().size, Some(7));
}

#[test]
fn a_running_row_is_started_once() {
    let mut a = app();
    add(&mut a, "a.zip");
    assert_eq!(a.item(1).unwrap().state, DlState::Connecting);
    a.list.selected = vec![1];
    let out = send(&mut a, Message::Menu(MenuAction::DownloadNow));
    assert!(!out.iter().any(|e| matches!(e, Effect::Engine(Cmd::Start(_)))));
}

#[test]
fn selections_and_orders_turn_back() {
    let mut a = app();
    add(&mut a, "a.zip");
    add(&mut a, "b.zip");
    let cmd = Mods {
        command: true,
        control: false,
        shift: false,
        alt: false,
    };
    a.list.selected = vec![2];
    send(&mut a, Message::Mods(cmd));
    send(&mut a, Message::RowClick(1));
    send(&mut a, Message::RowClick(1));
    assert_eq!(a.list.selected, vec![2]);
    send(&mut a, Message::SortBy(SortKey::Size));
    send(&mut a, Message::SortBy(SortKey::Size));
    send(&mut a, Message::SortBy(SortKey::Size));
    assert_eq!(a.list.sort, (SortKey::Size, true));
}

#[test]
fn confirming_untouched_options_changes_nothing() {
    let mut a = app();
    let before = format!("{:?}", a.cfg.settings);
    send(&mut a, Message::Menu(MenuAction::Options));
    send(&mut a, Message::OptOk);
    assert_eq!(format!("{:?}", a.cfg.settings), before);
}

#[test]
fn one_file_info_dialog_is_open_at_a_time() {
    let mut a = app();
    add(&mut a, "a.zip");
    add(&mut a, "b.zip");
    for id in [1, 2] {
        a.list.selected = vec![id];
        send(&mut a, Message::Menu(MenuAction::Properties));
    }
    assert!(a.is_open(WinKind::FileInfo(2)) && !a.is_open(WinKind::FileInfo(1)));
}

#[test]
fn stock_queues_are_not_renamed() {
    let mut a = app();
    send(&mut a, Message::TreeQueueRenameStart("Main".into()));
    assert!(a.tree.renaming.is_none());
    send(&mut a, Message::SchQueue("Main".into()));
    send(&mut a, Message::SchNameDraft("Other".into()));
    send(&mut a, Message::SchNameCommit);
    assert_eq!(a.cfg.queues[0].name, "Main");
}

#[test]
fn an_idle_program_keeps_one_clock() {
    let mut a = app();
    let c = a.clocks();
    assert!(c.tick_secs == 1 && !c.power && !c.animation && c.drag_ms.is_none());
    add(&mut a, "a.zip");
    assert!(a.clocks().animation);
    send(&mut a, Message::EmptyPress);
    assert_eq!(a.clocks().drag_ms, Some(16));
}

#[test]
fn console_output_splits_the_same_however_it_arrives() {
    let bytes = b"one\rtwo\r\nthree\nfour";
    let mut whole = LineSplitter::new();
    let mut want = whole.feed(bytes);
    want.extend(whole.finish());
    for cut in 0..=bytes.len() {
        let mut s = LineSplitter::new();
        let mut got = s.feed(&bytes[..cut]);
        got.extend(s.feed(&bytes[cut..]));
        got.extend(s.finish());
        assert_eq!(got, want, "cut at {cut}");
    }
}

#[test]
fn a_scan_is_capped_as_a_whole() {
    let mut c = Console::new();
    let many = "x\n".repeat(1500);
    assert_eq!(c.feed(Pipe::Output, many.as_bytes()).len(), 1500);
    assert_eq!(c.feed(Pipe::Errors, many.as_bytes()).len(), MAX_LINES - 1500);
    assert_eq!(c.found(), None);
    // Past the cap a hit still counts.
    assert!(c.feed(Pipe::Output, b"/d/f: Eicar FOUND").is_empty());
    assert!(c.finish(Pipe::Output).is_empty());
    assert_eq!(c.found().as_deref(), Some("Eicar"));
    assert!(c.feed(Pipe::Errors, b"/d/f: Other FOUND\n").is_empty());
    assert_eq!(c.found().as_deref(), Some("Other"));
}

#[test]
fn a_path_is_put_together_again() {
    for p in ["/tmp/a.zip", "/a.zip", "a.zip"] {
        let (dir, name) = split_save_as(p);
        assert_eq!(join_path(&dir, &name), p);
    }
}

#[test]
fn decoding_keeps_plain_text_and_never_lengthens() {
    assert_eq!(percent_decode("plain-text_1.zip"), "plain-text_1.zip");
    assert!(percent_decode("%41%42").len() <= "%41%42".len());
}

#[test]
fn bars_only_grow() {
    let mut last = 0;
    for done in 0..=120 {
        let p = progress(done, Some(100));
        assert!(p >= last && p <= 1_000_000);
        last = p;
    }
}
