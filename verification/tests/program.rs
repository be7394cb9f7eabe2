//! The program as a whole: messages in, state and effects out.
use hydra_gui::actions::MenuAction;
use hydra_gui::app::add_url::{ExtDownload, ExtEvent};
use hydra_gui::app::batch::paste;
use hydra_gui::app::fields::{AddrField, BatchField, FiField};
use hydra_gui::app::options::OptField;
use hydra_gui::app::scheduler::SchField;
use hydra_gui::app::update::Message;
use hydra_gui::app::windows::metalink_panel_height;
use hydra_gui::app::{App, Env, Mods};
use hydra_gui::effect::{ClipboardUse, Effect};
use hydra_gui::engine::{Cmd, Event};
use hydra_gui::i18n::{set_locale, Catalogue};
use hydra_gui::log::Level;
use hydra_gui::model::{
    CategoryDef, ConfigFile, DlQuota, DlState, PowerAction, QueueDef, Schedule, Settings, StateFile,
    ThemeMode,
};
use hydra_gui::names::{Disk, DiskEntry};
use hydra_gui::scan::{Outcome, ScanEvent};
use hydra_gui::shortcuts::Key;
use hydra_gui::state::{
    ConfirmKind, FileInfoState, PowerPrompt, SortKey, TreeSel, UpdatePhase, Win, WinKind, ZipPeek,
};
use hydra_gui::update::{UpdateEvent, UpdateInfo};

fn queue(name: &str, builtin: bool) -> QueueDef {
    QueueDef {
        name: name.into(),
        files_at_once: 1,
        schedule: Schedule::default(),
        builtin,
        color: None,
        running: false,
        did_work: false,
    }
}

fn app() -> App {
    let mut settings = Settings::default();
    settings.on.show_file_info_dialog = false;
    settings.auto_types = "zip".into();
    let cfg = ConfigFile {
        settings,
        categories: vec![CategoryDef {
            name: "General".into(),
            dir: "/dl".into(),
            types: String::new(),
        }],
        queues: vec![queue("Main", true), queue("Night", false)],
        language: None,
        log_level: None,
        shortcuts: vec![],
    };
    let state = StateFile {
        downloads: vec![],
        next_id: 1,
        dl_quota: DlQuota {
            used: 0,
            window_start: 0,
        },
    };
    App::new(cfg, state, Catalogue::english(), 8, false)
}

fn env() -> Env {
    Env {
        now: 1_000_000,
        ms: 5_000,
        hhmm: "12:00".into(),
        weekday: 3,
        tray_active: true,
        disk: Disk::unknown(),
    }
}

fn logged(out: &[Effect]) -> Vec<&str> {
    out.iter()
        .filter_map(|e| match e {
            Effect::Log(_, line) => Some(line.as_str()),
            _ => None,
        })
        .collect()
}

fn with_file(path: &str) -> Env {
    let mut e = env();
    e.disk = Disk {
        entries: vec![DiskEntry {
            path: path.into(),
            is_file: true,
            len: 5,
            blocks: None,
        }],
        canonical: vec![],
    };
    e
}

fn send(a: &mut App, m: Message) -> Vec<Effect> {
    a.update(m, &env());
    a.take_effects()
}

fn add(a: &mut App, url: &str) -> Vec<Effect> {
    send(a, Message::AddrChanged(url.into()));
    send(a, Message::AddUrlOk)
}

fn starts(effects: &[Effect]) -> Vec<u64> {
    effects
        .iter()
        .filter_map(|e| match e {
            Effect::Engine(Cmd::Start(s)) => Some(s.id),
            _ => None,
        })
        .collect()
}

fn stops(effects: &[Effect]) -> Vec<u64> {
    effects
        .iter()
        .filter_map(|e| match e {
            Effect::Engine(Cmd::Stop(id)) => Some(*id),
            _ => None,
        })
        .collect()
}

#[test]
fn an_address_becomes_a_row_and_starts() {
    let mut a = app();
    let out = add(&mut a, " https://ex.com/a.zip ");
    assert_eq!(starts(&out), vec![1]);
    let d = a.item(1).unwrap();
    assert_eq!(d.url, "https://ex.com/a.zip");
    assert_eq!(d.file_name, "a.zip");
    assert_eq!(d.save_dir, "/dl");
    assert_eq!(d.state, DlState::Connecting);
    assert_eq!(a.state.next_id, 2);
    // Numbers are not given twice.
    add(&mut a, "https://ex.com/b.zip");
    assert_eq!(a.item(2).unwrap().file_name, "b.zip");
}

#[test]
fn what_is_no_address_is_refused() {
    let mut a = app();
    add(&mut a, "nonsense");
    assert!(a.state.downloads.is_empty());
    assert!(a.add_url.error.is_some());
}

#[test]
fn a_second_copy_is_asked_about() {
    let mut a = app();
    add(&mut a, "https://ex.com/a.zip");
    add(&mut a, "https://ex.com/a.zip");
    assert_eq!(a.state.downloads.len(), 1);
    assert!(matches!(
        a.confirm,
        Some(ConfirmKind::Duplicate { existing: Some(1), .. })
    ));
    // As a new file it gets a name of its own, which no probe may take.
    send(&mut a, Message::DupNew);
    assert_eq!(a.state.downloads.len(), 2);
    assert_eq!(a.state.downloads[1].file_name, "a_1.zip");
    assert!(a.state.downloads[1].name_locked);
}

#[test]
fn a_dismissed_question_parks_nothing() {
    let mut a = app();
    add(&mut a, "https://ex.com/a.zip");
    add(&mut a, "https://ex.com/a.zip");
    assert!(a.pending_add.is_some());
    let dialog = a.win_of(WinKind::Confirm).unwrap();
    send(&mut a, Message::WindowClosed(dialog));
    assert!(a.pending_add.is_none() && a.confirm.is_none());
    send(&mut a, Message::DupNew);
    assert_eq!(a.state.downloads.len(), 1);
}

#[test]
fn the_download_limit_parks_a_start() {
    let mut a = app();
    a.cfg.settings.dl_limit_enabled = true;
    a.cfg.settings.dl_limit_mb = 1;
    a.state.dl_quota = DlQuota {
        used: 1 << 20,
        window_start: 999_000,
    };
    let out = add(&mut a, "https://ex.com/a.zip");
    assert!(starts(&out).is_empty());
    let d = a.item(1).unwrap();
    assert!(d.limit_paused && d.state == DlState::Paused);
    // Once the window has rolled, a row outside any queue starts again.
    a.state.downloads[0].queue = None;
    a.state.dl_quota.window_start = 1;
    let out = send(&mut a, Message::Tick);
    assert_eq!(starts(&out), vec![1]);
    assert_eq!(a.state.dl_quota.used, 0);
}

#[test]
fn a_queue_runs_as_many_files_as_it_may() {
    let mut a = app();
    for n in ["a", "b", "c"] {
        let url = format!("https://ex.com/{n}.zip");
        add(&mut a, &url);
    }
    for d in &mut a.state.downloads {
        d.state = DlState::Paused;
    }
    a.list.selected = vec![1, 2, 3];
    send(&mut a, Message::Menu(MenuAction::MoveToQueue("Night".into())));
    assert!(a.state.downloads.iter().all(|d| d.state == DlState::Queued));
    let out = send(&mut a, Message::Menu(MenuAction::StartQueue("Night".into())));
    assert_eq!(starts(&out), vec![1]);
    // The next one follows when the first is done.
    let out = send(&mut a, Message::Engine(Event::Finished { id: 1, len: 10, tenths: 0 }));
    assert_eq!(starts(&out), vec![2]);
    assert_eq!(a.item(1).unwrap().state, DlState::Complete);
    // Stopping the queue tells the engine.
    let out = send(&mut a, Message::Menu(MenuAction::StopQueue("Night".into())));
    assert_eq!(stops(&out), vec![2]);
}

#[test]
fn a_schedule_starts_its_queue_on_the_minute() {
    let mut a = app();
    add(&mut a, "https://ex.com/a.zip");
    a.state.downloads[0].state = DlState::Queued;
    a.state.downloads[0].queue = Some("Night".into());
    send(&mut a, Message::SchQueue("Night".into()));
    send(&mut a, Message::SchField(SchField::StartEnabled(true)));
    send(&mut a, Message::SchField(SchField::StartAt("12:00".into())));
    send(&mut a, Message::SchField(SchField::FilesAtOnce("99".into())));
    assert_eq!(a.cfg.queues[1].files_at_once, 16);
    let out = send(&mut a, Message::Tick);
    assert_eq!(starts(&out), vec![1]);
    assert!(a.cfg.queues[1].running);
    // Once means once.
    assert!(!a.cfg.queues[1].schedule.start_enabled);
}

#[test]
fn rows_of_a_queue_change_places() {
    let mut a = app();
    for n in ["a", "b", "c"] {
        let url = format!("https://ex.com/{n}.zip");
        add(&mut a, &url);
    }
    a.list.selected = vec![1, 2, 3];
    send(&mut a, Message::Menu(MenuAction::MoveToQueue("Night".into())));
    send(&mut a, Message::SchQueue("Night".into()));
    send(&mut a, Message::SchDragStart(3));
    send(&mut a, Message::SchDragOver(1));
    let places = |a: &App| -> Vec<u32> { a.state.downloads.iter().map(|d| d.q_order).collect() };
    assert_eq!(places(&a), vec![1, 2, 0]);
    send(&mut a, Message::SchFileDown);
    assert_eq!(places(&a), vec![0, 2, 1]);
    send(&mut a, Message::SchFileRemove);
    assert_eq!(a.item(3).unwrap().queue, None);
}

#[test]
fn queues_are_named_renamed_and_deleted() {
    let mut a = app();
    send(&mut a, Message::SchNewQueue);
    assert_eq!(a.cfg.queues[2].name, "Queue 3");
    send(&mut a, Message::SchNameDraft("  Weekend ".into()));
    send(&mut a, Message::SchNameCommit);
    assert_eq!(a.cfg.queues[2].name, "Weekend");
    assert_eq!(a.sch.queue, "Weekend");
    // A name that is taken is refused.
    send(&mut a, Message::SchNameDraft("Main".into()));
    send(&mut a, Message::SchNameCommit);
    assert_eq!(a.cfg.queues[2].name, "Weekend");
    assert_eq!(a.sch.rename_draft, "Weekend");
    send(&mut a, Message::SchDeleteQueue);
    assert_eq!(a.cfg.queues.len(), 2);
    // A stock queue stays.
    send(&mut a, Message::SchQueue("Main".into()));
    send(&mut a, Message::SchDeleteQueue);
    assert_eq!(a.cfg.queues.len(), 2);
}

#[test]
fn the_tree_renames_by_double_click_and_keeps_its_selection() {
    let mut a = app();
    let pick = || Message::TreeSelect(TreeSel::Queue("Night".into()));
    send(&mut a, pick());
    assert!(a.tree.renaming.is_none());
    send(&mut a, pick());
    assert_eq!(a.tree.renaming.as_deref(), Some("Night"));
    send(&mut a, Message::TreeQueueRenameDraft(" Day ".into()));
    send(&mut a, Message::TreeQueueRenameCommit);
    assert_eq!(a.cfg.queues[1].name, "Day");
    assert!(matches!(&a.tree.sel, TreeSel::Queue(q) if q == "Day"));
    // Escape leaves the name.
    send(&mut a, Message::TreeQueueRenameStart("Day".into()));
    let none = Mods {
        command: false,
        control: false,
        shift: false,
        alt: false,
    };
    send(&mut a, Message::RawKey(Key::Escape, none, 0));
    assert!(a.tree.renaming.is_none());
    send(&mut a, Message::TreeToggle(3));
    assert!(a.tree.open[3]);
    assert_eq!(a.tree_rows().len(), 6);
}

#[test]
fn deleting_asks_and_waits_for_the_engine() {
    let mut a = app();
    add(&mut a, "https://ex.com/a.zip");
    a.list.selected = vec![1];
    send(&mut a, Message::ToolbarDelete);
    assert!(matches!(&a.confirm, Some(ConfirmKind::DeleteItems(v)) if v == &vec![1]));
    let out = send(&mut a, Message::ConfirmYes);
    assert_eq!(stops(&out), vec![1]);
    assert_eq!(a.state.downloads.len(), 1);
    let out = send(
        &mut a,
        Message::Engine(Event::Stopped {
            id: 1,
            done: 0,
            held: vec![],
        }),
    );
    assert!(a.state.downloads.is_empty());
    assert!(out.iter().any(|e| matches!(e, Effect::RemoveFile(p) if p.ends_with(".part"))));
}

#[test]
fn a_lost_stop_is_swept_after_five_seconds() {
    let mut a = app();
    add(&mut a, "https://ex.com/a.zip");
    a.list.selected = vec![1];
    send(&mut a, Message::ToolbarDelete);
    send(&mut a, Message::ConfirmYes);
    let mut late = env();
    late.ms += 4_999;
    a.update(Message::Tick, &late);
    assert_eq!(a.state.downloads.len(), 1);
    late.ms += 1;
    a.update(Message::Tick, &late);
    assert!(a.state.downloads.is_empty());
}

#[test]
fn stopping_warns_where_the_settings_say_so() {
    let mut a = app();
    a.cfg.settings.on.warn_before_stop = true;
    add(&mut a, "https://ex.com/a.zip");
    let out = send(&mut a, Message::Menu(MenuAction::StopAll));
    assert!(stops(&out).is_empty());
    assert!(matches!(
        a.confirm,
        Some(ConfirmKind::StopWarn { stop_queues: true, .. })
    ));
    let out = send(&mut a, Message::ConfirmYes);
    assert_eq!(stops(&out), vec![1]);
}

#[test]
fn edits_typed_before_a_fast_finish_are_applied_to_the_finished_file() {
    let mut a = app();
    add(&mut a, "https://ex.com/archive_1.zip");
    a.file_info = FileInfoState {
        dl: 1,
        file_name: "archive_1 کلم بروکلی.zip".into(),
        name_touched: true,
        save_dir: "/dl".into(),
        is_new: true,
        ..FileInfoState::default()
    };
    a.windows.push(Win { id: 900, kind: WinKind::FileInfo(1) });
    a.update(
        Message::Engine(Event::Finished { id: 1, len: 5, tenths: 0 }),
        &with_file("/dl/archive_1.zip"),
    );
    let out = a.take_effects();
    let d = a.item(1).unwrap();
    assert_eq!(d.file_name, "archive_1 کلم بروکلی.zip");
    assert!(d.name_locked, "a name the person typed is theirs to keep");
    assert!(out.iter().any(|e| matches!(
        e,
        Effect::MoveFile { from, to, provisional: Some(1) }
            if from == "/dl/archive_1.zip" && to == "/dl/archive_1 کلم بروکلی.zip"
    )));
    // Untouched fields are left alone, and nothing moves.
    let mut a = app();
    add(&mut a, "https://ex.com/keep.zip");
    a.file_info = FileInfoState {
        dl: 1,
        file_name: "ignored.zip".into(),
        name_touched: false,
        save_dir: "/dl".into(),
        is_new: true,
        ..FileInfoState::default()
    };
    a.windows.push(Win { id: 900, kind: WinKind::FileInfo(1) });
    a.update(
        Message::Engine(Event::Finished { id: 1, len: 5, tenths: 0 }),
        &with_file("/dl/keep.zip"),
    );
    let out = a.take_effects();
    assert_eq!(a.item(1).unwrap().file_name, "keep.zip");
    assert!(!out.iter().any(|e| matches!(e, Effect::MoveFile { .. })));
}

#[test]
fn the_mirror_list_panel_is_measured_by_what_it_actually_draws() {
    assert_eq!(metalink_panel_height(false, None), 0, "no panel, no space");
    assert!(metalink_panel_height(true, None) > 0, "the probing line");
    let one = metalink_panel_height(false, Some(1));
    let three = metalink_panel_height(false, Some(3));
    assert!(three > one, "each file adds a row");
    let four = metalink_panel_height(false, Some(4));
    assert!(four > three, "the \"+N\" row is drawn and must be reserved");
    assert_eq!(
        metalink_panel_height(false, Some(40)),
        four,
        "a forty-file document draws the same four rows as a four-file one"
    );
}

#[test]
fn held_bytes_follow_what_the_engine_reports() {
    let mut a = app();
    add(&mut a, "https://ex.com/a.zip");
    send(
        &mut a,
        Message::Engine(Event::Probed {
            id: 1,
            size: Some(100),
            ranges: true,
            file_name: Some("real.zip".into()),
        }),
    );
    assert_eq!(a.item(1).unwrap().file_name, "real.zip");
    assert_eq!(a.item(1).unwrap().size, Some(100));
    send(
        &mut a,
        Message::Engine(Event::Stopped {
            id: 1,
            done: 30,
            held: vec![(20, 30), (0, 20)],
        }),
    );
    let d = a.item(1).unwrap();
    assert_eq!(d.state, DlState::Paused);
    assert_eq!(d.downloaded, 30);
    assert_eq!(d.held, vec![(20, 30), (0, 20)]);
}

#[test]
fn a_failed_row_of_a_running_queue_is_tried_again() {
    let mut a = app();
    add(&mut a, "https://ex.com/a.zip");
    a.state.downloads[0].queue = Some("Night".into());
    a.cfg.queues[1].running = true;
    a.cfg.queues[1].schedule.retries_enabled = true;
    a.cfg.queues[1].schedule.retries = 1;
    let fail = || {
        Message::Engine(Event::Failed {
            id: 1,
            error: "no route".into(),
            done: 0,
            held: vec![],
            permission_denied: false,
        })
    };
    let out = send(&mut a, fail());
    assert_eq!(starts(&out), vec![1]);
    send(&mut a, fail());
    let d = a.item(1).unwrap();
    assert_eq!(d.state, DlState::Error);
    assert_eq!(d.error.as_deref(), Some("no route"));
}

#[test]
fn a_power_action_can_be_called_off() {
    let mut a = app();
    add(&mut a, "https://ex.com/a.zip");
    send(&mut a, Message::ProgShutdownAfter(1, true));
    send(&mut a, Message::ProgShutdownAction(1, PowerAction::Sleep));
    send(&mut a, Message::Engine(Event::Finished { id: 1, len: 1, tenths: 0 }));
    assert_eq!(a.power.unwrap().secs, 10);
    let out = send(&mut a, Message::PowerTick);
    assert!(!out.iter().any(|e| matches!(e, Effect::Power(_))));
    send(&mut a, Message::PowerCancel);
    assert!(a.power.is_none());
    // "Exit when done" still stands, and leaves nothing unsaved.
    a.power = Some(PowerPrompt {
        action: PowerAction::Sleep,
        secs: 3,
        exit_after: true,
    });
    let out = send(&mut a, Message::PowerCancel);
    assert!(!out.iter().any(|e| matches!(e, Effect::Power(_))));
    assert!(matches!(
        &out[out.len() - 3..],
        [Effect::SaveState, Effect::SaveConfig, Effect::Exit]
    ));
}

#[test]
fn a_countdown_ends_in_the_action() {
    let mut a = app();
    add(&mut a, "https://ex.com/a.zip");
    send(&mut a, Message::ProgShutdownAfter(1, true));
    send(&mut a, Message::Engine(Event::Finished { id: 1, len: 1, tenths: 0 }));
    let mut fired = 0;
    for _ in 0..12 {
        fired += send(&mut a, Message::PowerTick)
            .iter()
            .filter(|e| matches!(e, Effect::Power(_)))
            .count();
    }
    assert_eq!(fired, 1);
}

#[test]
fn closing_the_main_window_needs_a_tray_to_live_on() {
    let mut a = app();
    send(&mut a, Message::NativeMenu("show_main".into()));
    assert!(a.is_open(WinKind::Main));
    let main = a.win_of(WinKind::Main).unwrap();
    assert_eq!(a.main_id, Some(main));
    let out = send(&mut a, Message::WindowClosed(main));
    assert_eq!(a.main_id, None);
    assert!(!out.iter().any(|e| matches!(e, Effect::Exit)));
    let mut a = app();
    send(&mut a, Message::NativeMenu("show_main".into()));
    let mut no_tray = env();
    no_tray.tray_active = false;
    let main = a.win_of(WinKind::Main).unwrap();
    a.update(Message::WindowClosed(main), &no_tray);
    let out = a.take_effects();
    assert!(matches!(out.last(), Some(Effect::Exit)));
    assert!(out.iter().any(|e| matches!(e, Effect::SaveState)));
}

#[test]
fn a_closing_reported_late_touches_no_later_window() {
    let mut a = app();
    a.cfg.settings.on.hide_from_taskbar = true;
    send(&mut a, Message::Menu(MenuAction::Options));
    let first = a.win_of(WinKind::Options).unwrap();
    let out = send(&mut a, Message::CloseThis(first));
    assert!(matches!(out.last(), Some(Effect::CloseWindow(w)) if *w == first));
    send(&mut a, Message::Menu(MenuAction::Options));
    let second = a.win_of(WinKind::Options).unwrap();
    assert_ne!(first, second);
    let out = send(&mut a, Message::WindowClosed(first));
    assert_eq!(a.win_of(WinKind::Options), Some(second));
    assert!(matches!(
        out[..],
        [Effect::DockSync { hide: true, windows: true }]
    ));
    // The last window that the program closes itself takes it off the Dock.
    send(&mut a, Message::CloseThis(second));
    let out = send(&mut a, Message::WindowClosed(second));
    assert!(matches!(
        out[..],
        [Effect::DockSync { hide: true, windows: false }]
    ));
}

#[test]
fn a_progress_box_may_start_minimized() {
    let mut a = app();
    a.cfg.settings.on.start_minimized = true;
    add(&mut a, "https://ex.com/a.zip");
    let first = a.win_of(WinKind::Progress(1)).unwrap();
    let out = send(&mut a, Message::WindowOpened(first));
    assert!(matches!(out.last(), Some(Effect::MinimizeWindow(w)) if *w == first));
    let out = send(&mut a, Message::WindowOpened(first));
    assert!(matches!(out.last(), Some(Effect::FocusWindow(w)) if *w == first));
}

#[test]
fn a_captured_dialog_comes_up_above_the_browser() {
    let mut a = app();
    a.cfg.settings.on.show_file_info_dialog = true;
    send(
        &mut a,
        Message::Ext(ExtEvent::Download(ExtDownload {
            url: "https://ex.com/a.zip".into(),
            cookies: Some("k=v".into()),
            filename: Some("named.zip".into()),
            referer: None,
        })),
    );
    let d = a.item(1).unwrap();
    assert_eq!(d.file_name, "named.zip");
    assert_eq!(d.cookies.as_deref(), Some("k=v"));
    assert!(a.is_open(WinKind::FileInfo(1)));
    let dialog = a.win_of(WinKind::FileInfo(1)).unwrap();
    let out = send(&mut a, Message::WindowOpened(dialog));
    assert!(matches!(out.last(), Some(Effect::RaiseWindow(w)) if *w == dialog));
    // Closing the dialog is Cancel.
    send(&mut a, Message::FiEdit(FiField::Remember(true)));
    send(&mut a, Message::FiCancel);
    let stopped = Message::Engine(Event::Stopped {
        id: 1,
        done: 0,
        held: vec![],
    });
    send(&mut a, stopped);
    assert!(a.state.downloads.is_empty());
}

#[test]
fn starting_from_the_dialog_takes_what_was_typed() {
    let mut a = app();
    a.cfg.settings.on.show_file_info_dialog = true;
    a.cfg.settings.on.bg_download = false;
    add(&mut a, "https://ex.com/a.zip");
    send(&mut a, Message::FiEdit(FiField::SaveAs("/other/b.zip".into())));
    send(&mut a, Message::FiEdit(FiField::Login("me".into())));
    let out = send(&mut a, Message::FiStartDownload);
    assert_eq!(starts(&out), vec![1]);
    let d = a.item(1).unwrap();
    assert_eq!((d.save_dir.as_str(), d.file_name.as_str()), ("/other", "b.zip"));
    assert!(d.name_locked);
    assert_eq!(d.auth.as_ref().map(|p| p.0.as_str()), Some("me"));
}

#[test]
fn selections_follow_the_modifiers() {
    let mut a = app();
    for n in ["a", "b", "c"] {
        let url = format!("https://ex.com/{n}.zip");
        add(&mut a, &url);
    }
    send(&mut a, Message::SortBy(SortKey::Name));
    assert_eq!(a.visible_ids(), vec![1, 2, 3]);
    send(&mut a, Message::SortBy(SortKey::Name));
    assert_eq!(a.visible_ids(), vec![3, 2, 1]);
    send(&mut a, Message::RowClick(3));
    let shift = Mods {
        command: false,
        control: false,
        shift: true,
        alt: false,
    };
    send(&mut a, Message::Mods(shift));
    send(&mut a, Message::RowClick(1));
    assert_eq!(a.list.selected, vec![3, 2, 1]);
    send(&mut a, Message::MouseUp);
    let cmd = Mods {
        command: true,
        control: false,
        shift: false,
        alt: false,
    };
    send(&mut a, Message::Mods(cmd));
    send(&mut a, Message::RowClick(2));
    assert_eq!(a.list.selected, vec![3, 1]);
    assert!(a.tools().stop && a.tools().delete && !a.tools().resume);
}

#[test]
fn shortcuts_run_commands() {
    let mut a = app();
    send(&mut a, Message::ShortcutEdit("quit".into(), " CMD+Q".into()));
    let cmd = Mods {
        command: true,
        control: false,
        shift: false,
        alt: false,
    };
    let out = send(
        &mut a,
        Message::RawKey(Key::Character("q".into()), cmd, 0),
    );
    assert!(matches!(out.last(), Some(Effect::Exit)));
    let alt = Mods {
        command: false,
        control: false,
        shift: false,
        alt: true,
    };
    let out = send(&mut a, Message::RawKey(Key::F4, alt, 0));
    assert!(matches!(out.last(), Some(Effect::Exit)));
    let out = send(
        &mut a,
        Message::RawKey(Key::Character("x".into()), cmd, 0),
    );
    assert!(out.is_empty());
}

#[test]
fn a_scan_decides_when_a_download_is_complete() {
    let mut a = app();
    a.cfg.settings.virus_scanner = "/bin/scan".into();
    a.cfg.settings.virus_args = "-q".into();
    add(&mut a, "https://ex.com/a.zip");
    a.update(
        Message::Engine(Event::Finished { id: 1, len: 1, tenths: 0 }),
        &with_file("/bin/scan"),
    );
    let out = a.take_effects();
    assert!(out.iter().any(|x| matches!(
        x,
        Effect::StartScan { id: 1, program, args }
            if program == "/bin/scan" && args == &vec!["-q".to_string(), "/dl/a.zip".to_string()]
    )));
    assert!(a.scanning());
    send(
        &mut a,
        Message::Scan(ScanEvent::Line {
            id: 1,
            text: "reading".into(),
            redraw: false,
        }),
    );
    send(
        &mut a,
        Message::Scan(ScanEvent::Done(1, Outcome::Infected("Eicar".into()))),
    );
    // Nothing is deleted behind the user's back.
    assert_eq!(a.item(1).unwrap().status_line, "Virus detected: Eicar");
    let out = send(&mut a, Message::ProgScanDelete(1));
    assert!(a.state.downloads.is_empty());
    assert!(out.iter().any(|x| matches!(x, Effect::RemoveFile(p) if p == "/dl/a.zip")));
}

#[test]
fn exported_addresses_come_back() {
    let mut a = app();
    add(&mut a, "https://ex.com/a.zip");
    add(&mut a, "https://ex.com/b.zip");
    let out = send(&mut a, Message::Menu(MenuAction::ExportList));
    let text = out
        .iter()
        .find_map(|e| match e {
            Effect::WriteExport(t) => Some(t.clone()),
            _ => None,
        })
        .unwrap();
    assert_eq!(text, "https://ex.com/a.zip\nhttps://ex.com/b.zip");
    let mut b = app();
    send(&mut b, Message::ExportRead(Some(text)));
    assert_eq!(b.state.downloads.len(), 2);
    assert_eq!(b.state.downloads[1].url, "https://ex.com/b.zip");
}

#[test]
fn a_batch_adds_what_is_ticked() {
    let mut a = app();
    send(&mut a, Message::Menu(MenuAction::AddBatch));
    send(
        &mut a,
        Message::BatchLoaded(Some("https://ex.com/a.zip\nhttps://ex.com/b.zip".into()), 0, 0),
    );
    send(&mut a, Message::BatchCheck(0, false));
    send(&mut a, Message::BatchField(BatchField::Dir("/else".into())));
    send(&mut a, Message::BatchField(BatchField::SaveMode(2)));
    assert_eq!(a.batch_rows().len(), 2);
    send(&mut a, Message::BatchOk);
    assert_eq!(a.state.downloads.len(), 1);
    assert_eq!(a.state.downloads[0].url, "https://ex.com/b.zip");
    assert_eq!(a.state.downloads[0].save_dir, "/else");
    assert_eq!(a.state.downloads[0].state, DlState::Queued);
    // Nothing ticked is told.
    send(&mut a, Message::Menu(MenuAction::AddBatch));
    send(&mut a, Message::BatchOk);
    assert!(matches!(a.confirm, Some(ConfirmKind::NoneChecked)));
}

#[test]
fn the_clipboard_is_watched_for_new_links() {
    let mut a = app();
    a.cfg.settings.on.monitor_clipboard = true;
    let out = send(&mut a, Message::Tick);
    assert!(out
        .iter()
        .any(|e| matches!(e, Effect::ReadClipboard(ClipboardUse::Watch))));
    let out = send(&mut a, Message::ClipboardSeen(Some("https://ex.com/a.zip".into())));
    assert_eq!(starts(&out), vec![1]);
    // The same text again is not taken twice.
    let out = send(&mut a, Message::ClipboardSeen(Some("https://ex.com/a.zip".into())));
    assert!(out.is_empty());
}

#[test]
fn options_take_effect_on_ok_only() {
    let mut a = app();
    send(&mut a, Message::Menu(MenuAction::Options));
    send(&mut a, Message::OptDraft(OptField::PowerSave(true)));
    send(&mut a, Message::OptDraft(OptField::UserAgent("x/1".into())));
    assert!(!a.cfg.settings.on.power_save);
    send(&mut a, Message::OptOk);
    assert!(a.cfg.settings.on.power_save);
    assert_eq!(a.cfg.settings.user_agent, "x/1");
    assert!(!a.is_open(WinKind::Options));
    assert_eq!(a.clocks().tick_secs, 3);
}

#[test]
fn the_view_menu_changes_the_looks() {
    let mut a = app();
    send(&mut a, Message::SystemTheme(Some(true)));
    assert!(a.is_dark());
    send(&mut a, Message::Menu(MenuAction::SetTheme(ThemeMode::Light)));
    assert!(!a.is_dark());
    let out = send(&mut a, Message::Menu(MenuAction::Language("fr".into())));
    assert!(out.iter().any(|e| matches!(e, Effect::LoadLocale(l) if l == "fr")));
    assert!(!out.iter().any(|e| matches!(e, Effect::RefreshMenu | Effect::ReinstallTray)));
    assert_eq!(a.native_menu_state().language, "fr");
    // The native menus are built again once the new texts are there.
    let fr = set_locale("fr", Some(br#"{"Stop": "Arreter"}"#), None);
    let out = send(&mut a, Message::LocaleLoaded(fr));
    assert!(matches!(&out[..], [Effect::RefreshMenu, Effect::ReinstallTray]));
    assert_eq!(a.lang.current_locale(), "fr");
    send(&mut a, Message::Menu(MenuAction::SpeedLimiterToggle));
    assert!(a.cfg.settings.speed_limiter_on);
    assert_eq!(a.cfg.settings.global_speed_limit, Some(128 * 1024));
}

#[test]
fn redownloading_forgets_what_was_on_disk() {
    let mut a = app();
    add(&mut a, "https://ex.com/a.zip");
    send(&mut a, Message::Engine(Event::Finished { id: 1, len: 9, tenths: 0 }));
    a.list.selected = vec![1];
    let out = send(&mut a, Message::Menu(MenuAction::Redownload));
    assert!(out.iter().any(|e| matches!(e, Effect::RemoveFile(_))));
    assert_eq!(starts(&out), vec![1]);
    assert_eq!(a.item(1).unwrap().downloaded, 0);
    // A running one is left alone.
    let out = send(&mut a, Message::Menu(MenuAction::Redownload));
    assert!(out.is_empty());
}

#[test]
fn a_cap_on_one_row_reaches_the_engine() {
    let mut a = app();
    add(&mut a, "https://ex.com/a.zip");
    send(&mut a, Message::ProgLimitKb(1, "20".into()));
    let out = send(&mut a, Message::ProgLimitOn(1, true));
    assert!(matches!(
        out.last(),
        Some(Effect::Engine(Cmd::SetLimit(1, Some(20480))))
    ));
    let out = send(&mut a, Message::ProgLimitKb(1, "x".into()));
    assert!(out.is_empty());
}

fn offer(in_place: bool) -> UpdateInfo {
    UpdateInfo {
        version: "2.0".into(),
        notes: String::new(),
        html_url: "https://r".into(),
        asset_name: "a".into(),
        asset_url: "https://r/a".into(),
        size: 9,
        sums_url: None,
        in_place,
        needs_auth: false,
        package: None,
    }
}

#[test]
fn updates_are_offered_and_run() {
    let mut a = app();
    send(&mut a, Message::UpdateChecked(Ok(None)));
    assert!(a.confirm.is_none());
    send(&mut a, Message::Menu(MenuAction::CheckUpdates));
    send(&mut a, Message::UpdateChecked(Err("offline".into())));
    assert!(matches!(&a.confirm, Some(ConfirmKind::UpdateCheckFailed(e)) if e == "offline"));
    send(&mut a, Message::UpdateChecked(Ok(Some(offer(true)))));
    assert!(a.is_open(WinKind::Update));
    let out = send(&mut a, Message::UpdateNow);
    assert!(matches!(out.last(), Some(Effect::RunUpdate(_))));
    send(&mut a, Message::UpdateEvent(UpdateEvent::Progress(4, None)));
    assert!(matches!(
        a.updater.phase,
        UpdatePhase::Downloading { got: 4, total: Some(9) }
    ));
    let out = send(&mut a, Message::UpdateCancel);
    assert!(matches!(out.last(), Some(Effect::CancelUpdate)));
    send(&mut a, Message::UpdateEvent(UpdateEvent::Failed("x".into())));
    assert!(matches!(a.updater.phase, UpdatePhase::Failed(_)));
    let out = send(&mut a, Message::UpdateEvent(UpdateEvent::ReadyToRestart));
    assert!(matches!(out.last(), Some(Effect::Exit)));
    // A packaged install is left to its package manager.
    let mut b = app();
    send(&mut b, Message::UpdateChecked(Ok(Some(offer(false)))));
    assert_eq!(
        logged(&send(&mut b, Message::UpdateNow)),
        vec!["update: user chose Update Now for 2.0"]
    );
    assert!(!b.updater.running);
}

#[test]
fn a_start_brings_the_marked_queues_up() {
    let mut a = app();
    a.cfg.queues[1].schedule.start_on_startup = true;
    a.cfg.settings.on.power_save = true;
    a.boot(false);
    assert!(a.cfg.queues[1].running && !a.cfg.queues[0].running);
    let out = a.take_effects();
    assert!(matches!(&out[0], Effect::Engine(Cmd::SetPowerSave(true))));
    assert!(matches!(&out[1], Effect::PublishConfig));
    assert!(!out.iter().any(|e| matches!(e, Effect::InstallTray)));
    a.come_up(false, false);
    let out = a.take_effects();
    assert!(a.is_open(WinKind::Main));
    assert!(out.iter().any(|e| matches!(e, Effect::ProbeFolder(d) if d == "/dl")));
    assert!(out.iter().any(|e| matches!(e, Effect::CheckUpdate { beta: false })));
    send(&mut a, Message::FolderProbed(false));
    assert!(matches!(&a.confirm, Some(ConfirmKind::PermissionWarn { dir }) if dir == "/dl"));
}

#[test]
fn a_minimized_start_needs_a_tray() {
    let mut a = app();
    a.boot(true);
    assert!(a.take_effects().iter().any(|e| matches!(e, Effect::InstallTray)));
    a.come_up(true, true);
    assert!(a.windows.is_empty());
    assert_eq!(logged(&a.take_effects()), vec!["started minimized to tray"]);
    let mut a = app();
    a.boot(true);
    a.take_effects();
    a.come_up(true, false);
    assert!(a.is_open(WinKind::Main));
    assert_eq!(
        logged(&a.take_effects()),
        vec!["no system tray available; opening the main window instead"]
    );
}

#[test]
fn the_log_is_told_what_happens() {
    let mut a = app();
    add(&mut a, "https://ex.com/a.zip");
    let out = send(
        &mut a,
        Message::Engine(Event::Finished { id: 1, len: 10, tenths: 25 }),
    );
    assert_eq!(logged(&out)[0], "#1 complete: 10 bytes in 2.5s");
    // An address is logged without what its query holds.
    let out = send(
        &mut a,
        Message::ClipboardSeen(Some("https://ex.com/b.zip?key=secret".into())),
    );
    assert_eq!(
        logged(&out)[0],
        "clipboard capture: https://ex.com/b.zip?<10 chars elided>"
    );
    let out = send(&mut a, Message::Menu(MenuAction::PowerSaveToggle));
    assert_eq!(logged(&out), vec!["power save: true"]);
    let out = send(&mut a, Message::UpdateChecked(Err("offline".into())));
    assert!(matches!(
        &out[..],
        [Effect::Log(Level::Warn, line)] if line == "update check failed: offline"
    ));
    let out = send(&mut a, Message::FolderProbed(false));
    assert_eq!(logged(&out), vec!["no write access to /dl"]);
}

#[test]
fn a_text_file_is_pasted_into_what_the_box_holds() {
    let mut a = app();
    send(&mut a, Message::Menu(MenuAction::AddBatchFile));
    send(&mut a, Message::BatchEdit("https://ex.com/a.zip\n".into()));
    send(
        &mut a,
        Message::BatchLoaded(Some("https://ex.com/b.zip".into()), 21, 21),
    );
    assert_eq!(a.batch.text, "https://ex.com/a.zip\nhttps://ex.com/b.zip");
    assert_eq!(a.batch_rows().len(), 2);
    send(&mut a, Message::BatchLoaded(None, 0, 0));
    assert_eq!(a.batch.text, "https://ex.com/a.zip\nhttps://ex.com/b.zip");
    assert_eq!(paste("abcd", 1, 3, "X"), "aXd");
    assert_eq!(paste("ab", 9, 0, "X"), "abX");
}

#[test]
fn minutes_to_record_are_digits() {
    let mut a = app();
    send(
        &mut a,
        Message::AddrEdit(AddrField::RecordMinutes("1a2b3c4d5e6".into())),
    );
    assert_eq!(a.add_url.record_minutes, "12345");
}

#[test]
fn a_listing_for_a_closed_window_is_dropped() {
    let mut a = app();
    send(&mut a, Message::ZipPeeked(1, ZipPeek::Failed("x".into())));
    assert!(matches!(a.zip_preview.result, ZipPeek::Loading));
}
