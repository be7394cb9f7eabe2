//! The log, the browsers, the login item, the command line, menus, pictures and
//! sounds.
use hydra_gui::actions::MenuAction;
use hydra_gui::autostart::{
    apply, entry_path, exe, exe_note, installed_candidates, is_registered, registered_exe, settled,
    stable_bundle_exe, Desktop, LoginItem,
};
use hydra_gui::i18n::Catalogue;
use hydra_gui::icons::{
    add_url, box_downscale, cat_icon, expander, folder_music, image_rgba, logo_mono_rgba,
    logo_rgba, mono_rgba, pixmaps, queue_folder, queues, to_argb, to_rgba, RawImage,
};
use hydra_gui::launch::{config_dir_arg, in_dock, skip_message, title, wants_tray};
use hydra_gui::log::{banner, mac_release, os_release, panic_line, path, redact, Level, Log, Machine};
use hydra_gui::menus::{
    bar, context_entries, entries, open_flyout, press, scrolls, Entry, MenuFacts, Press,
};
use hydra_gui::model::{DlState, ThemeMode};
use hydra_gui::names::{Disk, DiskEntry};
use hydra_gui::nmhost::{
    ensure_registered, host_binary, json_str, manifest, may_register, targets, targets_mac,
    windows_entries, windows_manifest, write_manifest, Found,
};
use hydra_gui::shortcuts::{action_for, bind, combo_string, typed_combo, Key};
use hydra_gui::sounds::{wav_file, Event};
use hydra_gui::state::{MenuBarKind, SortKey, WinKind};
use hydra_gui::theme::{
    btn, btn_menu, btn_primary, btn_tab, channels, check, chunk_on, input, progress, row_cell,
    scan_block, scan_track, ui_scale, window, window_bg, ButtonStatus, FieldStatus,
};
use hydra_gui::tray::{self, wait_step, MenuState, WaitStep};
use hydra_gui::update::{
    self, finisher_args, finisher_candidates, offer, pick_finisher, user_agent, verdict, Install,
    Package, Release, Run, Step, StepDone, UpdateEvent, UpdateMethod, UpdatePaths, Verdict,
};

#[test]
fn the_os_version_is_actually_discoverable_here() {
    let text = "NAME=\"Ubuntu\"\nPRETTY_NAME=\"Ubuntu 24.04.1 LTS\"\nID=ubuntu\n";
    let r = os_release(text).expect("this platform should report a release");
    assert!(!r.trim().is_empty(), "empty release string");
    assert_eq!(r, "Ubuntu 24.04.1 LTS");
    assert_eq!(os_release("NAME=x\r\nPRETTY_NAME=y\r\n"), Some("y".into()));
    assert_eq!(os_release("NAME=x\n"), None);
    let plist = "<key>ProductVersion</key>\n<string>15.1</string>";
    assert_eq!(mac_release(plist), Some("macOS 15.1".into()));
    assert_eq!(mac_release("<string>15.1</string>"), None);
}

#[test]
fn a_signed_url_loses_its_credentials_but_stays_diagnosable() {
    let signed = "https://cdn.example/hls/seg1.ts\
                  ?Expires=1750000000&Signature=abc123DEF&Key-Pair-Id=APKAIOSFODNN7";
    let out = redact(signed);
    assert!(!out.contains("abc123DEF"), "signature survived: {out}");
    assert!(!out.contains("APKAIOSFODNN7"), "key id survived: {out}");
    assert!(!out.contains("Expires"), "query survived: {out}");
    assert!(out.starts_with("https://cdn.example/hls/seg1.ts?"));
    assert!(out.contains("elided"));
}

#[test]
fn a_plain_url_is_left_alone() {
    let plain = "https://cdn.example/hls/seg1.ts";
    assert_eq!(redact(plain), plain);
}

#[test]
fn a_query_is_measured_in_bytes() {
    let q = "aé日😀";
    assert_eq!(redact(&format!("u?{q}")), format!("u?<{} chars elided>", q.len()));
}

#[test]
fn the_log_is_filtered_by_level() {
    let mut log = Log::new();
    assert_eq!(log.debug("T", "x"), None);
    assert_eq!(log.info("T", "x"), Some("[T] [INFO ] x\n".into()));
    log.set_level("WARNING");
    assert_eq!(log.log("T", "x"), None);
    assert_eq!(log.warn("T", "x"), Some("[T] [WARN ] x\n".into()));
    assert_eq!(log.error("T", "x"), Some("[T] [ERROR] x\n".into()));
    log.init(Some("error"), Some("trace"));
    assert_eq!(log.debug("T", "x"), Some("[T] [DEBUG] x\n".into()));
    assert_eq!(path("/app"), "/app/logs/gui.log");
    assert_eq!(
        panic_line(None, Some("boom"), "trace"),
        "panic at unknown location: boom\ntrace"
    );
    let m = Machine {
        version: "1.0".into(),
        os: "linux".into(),
        arch: "x86_64".into(),
        release: None,
        cores: 8,
        ffmpeg: None,
    };
    assert_eq!(
        banner(&m, "/app")[0],
        "hydra-gui 1.0 | linux x86_64 | unknown release | 8 core(s) | ffmpeg: not found"
    );
}

const CHROME_EXT_ID: &str = "jpnonmbbkjdpeebdhkjoliklfhkdcomj";
const FIREFOX_EXT_ID: &str = "playdl@leeymxz.github.io";

#[test]
fn chromium_manifest_allow_lists_the_extension_origin() {
    let m = manifest("/opt/playdl/playdl-host", false);
    assert!(m.contains(&format!("chrome-extension://{CHROME_EXT_ID}/")));
    assert!(m.contains("\"allowed_origins\""));
    assert!(m.contains("\"path\": \"/opt/playdl/playdl-host\""));
    assert!(!m.contains("allowed_extensions"));
    serde_json::from_str::<serde_json::Value>(&m).unwrap();
}

#[test]
fn firefox_manifest_allow_lists_the_addon_id() {
    let m = manifest("/opt/playdl/playdl-host", true);
    assert!(m.contains(FIREFOX_EXT_ID));
    assert!(m.contains("\"allowed_extensions\""));
    assert!(!m.contains("allowed_origins"));
    serde_json::from_str::<serde_json::Value>(&m).unwrap();
}

#[test]
fn windows_paths_survive_json_escaping() {
    let m = manifest(r"C:\Program Files\PlayDL\playdl-host.exe", false);
    let v: serde_json::Value = serde_json::from_str(&m).unwrap();
    assert_eq!(
        v["path"].as_str().unwrap(),
        r"C:\Program Files\PlayDL\playdl-host.exe"
    );
}

#[test]
fn quoted_text_reads_back_with_a_json_reader() {
    let s = "a\"b\\c\n\r\t\u{1}\u{1f}é日😀";
    let v: String = serde_json::from_str(&json_str(s)).unwrap();
    assert_eq!(v, s);
    assert_eq!(json_str("\u{1b}"), "\"\\u001b\"");
}

#[test]
fn linux_covers_snap_and_flatpak_browsers() {
    let dirs: Vec<String> = targets("/home/tester").into_iter().map(|t| t.dir).collect();
    let has = |p: &str| dirs.iter().any(|d| d == p);
    assert!(
        has("/home/tester/snap/firefox/common/.mozilla/native-messaging-hosts"),
        "snap Firefox — the Ubuntu default — is not covered"
    );
    assert!(has(
        "/home/tester/.var/app/org.mozilla.firefox/.mozilla/native-messaging-hosts"
    ));
    assert!(has(
        "/home/tester/snap/chromium/common/chromium/NativeMessagingHosts"
    ));
    assert!(has(
        "/home/tester/.var/app/com.google.Chrome/config/google-chrome/NativeMessagingHosts"
    ));
    assert!(has("/home/tester/.mozilla/native-messaging-hosts"));
    assert!(has("/home/tester/.config/google-chrome/NativeMessagingHosts"));
    assert_eq!(targets_mac("/Users/t").len(), 10);
}

#[test]
fn nothing_is_written_where_the_browser_is_absent() {
    let absent = Found {
        installed: false,
        current: None,
    };
    assert!(write_manifest("/x/NativeMessagingHosts", &absent, "{}").is_none());
}

#[test]
fn an_unchanged_manifest_is_not_rewritten() {
    let dir = "/x/NativeMessagingHosts";
    let body = manifest("/opt/playdl/playdl-host", false);
    let fresh = Found {
        installed: true,
        current: None,
    };
    assert_eq!(
        write_manifest(dir, &fresh, &body),
        Some("/x/NativeMessagingHosts/com.playdl.host.json".into())
    );
    let same = Found {
        installed: true,
        current: Some(body.clone()),
    };
    assert!(write_manifest(dir, &same, &body).is_none());
    let moved = manifest("/usr/local/bin/playdl-host", false);
    assert!(write_manifest(dir, &same, &moved).is_some());
}

#[test]
fn registration_writes_each_dialect_where_it_belongs() {
    let all = targets("/h");
    let found: Vec<Found> = all
        .iter()
        .map(|t| Found {
            installed: t.root.ends_with("opera") || t.root.ends_with(".mozilla"),
            current: None,
        })
        .collect();
    let host = host_binary("/opt", false);
    assert_eq!(host, "/opt/playdl-host");
    assert_eq!(host_binary("C:\\Hydra", true), "C:\\Hydra\\playdl-host.exe");
    assert_eq!(host_binary("C:\\", true), "C:\\playdl-host.exe");
    assert_eq!(host_binary("C:", true), "C:playdl-host.exe");
    assert_eq!(host_binary("", true), "playdl-host.exe");
    let w = ensure_registered(&host, &all, &found, false);
    assert_eq!(w.len(), 4);
    assert!(w[0].0.contains("opera") && w[0].1.contains("allowed_origins"));
    assert!(w[1].1.contains("allowed_extensions"));
    assert!(ensure_registered(&host, &all, &found, true).is_empty());
}

#[test]
fn windows_browsers_are_told_by_their_keys() {
    let keys = windows_entries("C:\\Hydra");
    assert_eq!(keys.len(), 7);
    assert_eq!(
        keys[0].0,
        "Software\\Google\\Chrome\\NativeMessagingHosts\\com.playdl.host"
    );
    assert_eq!(keys[0].1, "C:\\Hydra\\com.playdl.host.json");
    assert_eq!(keys[6].1, "C:\\Hydra\\com.playdl.host.firefox.json");
    let (file, body) = windows_manifest("d", "h", true, None).unwrap();
    assert_eq!(file, "d\\com.playdl.host.firefox.json");
    assert!(windows_manifest("d", "h", true, Some(&body)).is_none());
    assert!(windows_manifest("d", "h", false, Some(&body)).is_some());
}

#[test]
fn installed_paths_pass_through() {
    let p = "/Applications/Hydra Download Manager.app/Contents/MacOS/Hydra Download Manager";
    assert_eq!(
        stable_bundle_exe(p, Some("/Users/t"), &Disk::unknown()),
        Some(p.to_string())
    );
}

#[test]
fn transient_paths_without_an_installed_copy_are_rejected() {
    for p in [
        "/private/var/folders/ab/xyz/T/AppTranslocation/1234/d/NoSuchHydra.app/Contents/MacOS/NoSuchHydra",
        "/Volumes/Hydra/NoSuchHydra.app/Contents/MacOS/NoSuchHydra",
    ] {
        assert_eq!(stable_bundle_exe(p, Some("/Users/t"), &Disk::unknown()), None, "{p}");
    }
}

#[test]
fn a_transient_copy_leads_to_the_installed_one() {
    let disk = Disk {
        entries: vec![DiskEntry {
            path: "/Users/t/Applications/H.app/Contents/MacOS/H".into(),
            is_file: true,
            len: 1,
            blocks: None,
        }],
        canonical: vec![],
    };
    assert_eq!(
        stable_bundle_exe("/Volumes/D/H.app/Contents/MacOS/H", Some("/Users/t"), &disk),
        Some("/Users/t/Applications/H.app/Contents/MacOS/H".into())
    );
    // Parts that name nothing do not count.
    let odd = "/Volumes//D/./H.app//Contents/./MacOS/H";
    assert_eq!(
        stable_bundle_exe(odd, Some("/Users/t"), &disk),
        Some("/Users/t/Applications/H.app/Contents/MacOS/H".into())
    );
    assert_eq!(
        installed_candidates("/Volumes/D/H.app", Some("/Users/t")),
        vec!["/Applications/H.app/", "/Users/t/Applications/H.app/"]
    );
    assert!(installed_candidates("/Volumes/D/h", None).is_empty());
    assert!(installed_candidates("/opt/H.app/h", None).is_empty());
}

#[test]
fn a_login_item_launches_what_will_still_be_there() {
    let none = Disk::unknown();
    let image = Some("/home/u/H.AppImage".to_string());
    let mounted = Some("/tmp/.mount/hydra".to_string());
    assert_eq!(
        exe(Desktop::Linux, image.clone(), mounted, None, &none),
        image
    );
    let here = Some("/Volumes/D/H.app/h".to_string());
    assert_eq!(exe(Desktop::Mac, None, here.clone(), None, &none), None);
    assert_eq!(exe(Desktop::Linux, None, here.clone(), None, &none), here);
    assert_eq!(exe(Desktop::Linux, None, None, None, &none), None);
}

#[test]
fn the_log_tells_what_became_of_the_login_item() {
    let told = |item: LoginItem, desktop, on, profile, error| {
        settled(&item, desktop, on, profile, "/h/e", "/opt/h", error).map(|n| (n.level(), n.text()))
    };
    let write = || LoginItem::Write("c".into());
    assert_eq!(
        told(LoginItem::Leave, Desktop::Linux, true, Some("/p"), None),
        Some((
            Level::Info,
            "login item: --config /p \u{2014} left to the default profile".into()
        ))
    );
    assert_eq!(told(LoginItem::Leave, Desktop::Linux, true, None, None), None);
    assert_eq!(
        told(write(), Desktop::Linux, true, None, None).unwrap().1,
        "login item written: /h/e -> /opt/h"
    );
    assert_eq!(
        told(write(), Desktop::Windows, true, None, None).unwrap().1,
        "login item written: HKCU\\Software\\Microsoft\\Windows\\CurrentVersion\\Run\\\
         Hydra Download Manager = c"
    );
    assert_eq!(
        told(write(), Desktop::Linux, false, None, None).unwrap().1,
        "login item disabled (Hidden=true entry written)"
    );
    assert_eq!(
        told(write(), Desktop::Linux, false, None, Some("no")),
        Some((Level::Warn, "login item disable failed: no".into()))
    );
    assert_eq!(
        told(write(), Desktop::Mac, true, None, Some("no")).unwrap().1,
        "login item write failed: no"
    );
    assert_eq!(
        told(LoginItem::Remove, Desktop::Mac, false, None, Some("no")).unwrap().1,
        "login item removed"
    );
    assert_eq!(
        told(LoginItem::Remove, Desktop::Windows, false, None, Some("no")).unwrap().1,
        "login item remove failed: no"
    );
    let here = Some("/Volumes/D/H.app/h".to_string());
    let lost = exe_note(Desktop::Mac, &None, &here, None, &Disk::unknown()).unwrap();
    assert_eq!(
        lost.text(),
        "login item: running from transient /Volumes/D/H.app/h and no installed copy found; \
         entry left as is"
    );
    assert!(exe_note(Desktop::Linux, &None, &here, None, &Disk::unknown()).is_none());
}

#[test]
fn the_log_tells_why_no_browser_is_registered() {
    let told = |p, host, home, win| may_register(p, host, home, win).map(|n| n.text());
    assert_eq!(told(None, true, true, false), None);
    assert_eq!(told(None, true, false, true), None);
    assert_eq!(told(None, true, false, false).unwrap(), "nmhost: no home directory");
    assert_eq!(
        told(None, false, false, false).unwrap(),
        "nmhost: playdl-host is not next to the app; browser capture cannot launch PlayDL"
    );
    assert_eq!(
        told(Some("/p"), false, true, false).unwrap(),
        "nmhost: --config /p \u{2014} browser registration left to the default profile"
    );
}

#[test]
fn the_login_item_follows_the_settings() {
    let exe = Some("/opt/hydra".to_string());
    match apply(Desktop::Linux, true, true, false, exe.clone(), None) {
        LoginItem::Write(s) => {
            assert!(s.contains("Exec=\"/opt/hydra\" --minimized\n"));
            // Written once, it is left alone.
            assert!(matches!(
                apply(Desktop::Linux, true, true, false, exe.clone(), Some(s)),
                LoginItem::Leave
            ));
        }
        other => panic!("{other:?}"),
    }
    match apply(Desktop::Linux, false, true, false, exe.clone(), None) {
        LoginItem::Write(s) => assert!(s.ends_with("Hidden=true\n")),
        other => panic!("{other:?}"),
    }
    assert!(matches!(
        apply(Desktop::Mac, false, true, false, exe.clone(), Some("x".into())),
        LoginItem::Remove
    ));
    match apply(Desktop::Windows, true, false, false, exe.clone(), None) {
        LoginItem::Write(s) => assert_eq!(s, "\"/opt/hydra\""),
        other => panic!("{other:?}"),
    }
    assert!(matches!(
        apply(Desktop::Mac, true, false, true, exe.clone(), None),
        LoginItem::Leave
    ));
    match apply(Desktop::Mac, true, true, false, exe, None) {
        LoginItem::Write(s) => {
            assert_eq!(registered_exe(&s), Some("/opt/hydra".into()));
            assert!(!is_registered(Some(&s), &Disk::unknown()));
        }
        other => panic!("{other:?}"),
    }
    assert_eq!(
        entry_path("/home/t", Desktop::Linux),
        Some("/home/t/.config/autostart/hydra.desktop".into())
    );
    assert_eq!(entry_path("/home/t", Desktop::Windows), None);
}

fn parse(argv: &[&str]) -> Result<Option<String>, String> {
    config_dir_arg(&argv.iter().map(|s| s.to_string()).collect())
}

#[test]
fn no_flag_means_the_platform_directory() {
    assert_eq!(parse(&["hydra-gui", "--minimized"]), Ok(None));
    assert!(wants_tray(&vec!["hydra-gui".into(), "--minimized".into()]));
    assert!(!wants_tray(&vec!["hydra-gui".into()]));
}

#[test]
fn both_spellings_are_accepted() {
    let want = Ok(Some("./here".to_string()));
    assert_eq!(parse(&["hydra-gui", "--config", "./here"]), want);
    assert_eq!(parse(&["hydra-gui", "--config=./here"]), want);
    assert_eq!(
        parse(&["hydra-gui", "--minimized", "--config", "./here"]),
        want
    );
}

#[test]
fn a_missing_or_empty_directory_is_an_error() {
    assert!(parse(&["hydra-gui", "--config"]).is_err());
    assert!(parse(&["hydra-gui", "--config", ""]).is_err());
    assert!(parse(&["hydra-gui", "--config="]).is_err());
}

#[test]
fn the_executable_path_is_never_read_as_a_flag() {
    assert_eq!(parse(&["/opt/--config=oops/hydra-gui"]), Ok(None));
}

#[test]
fn font_choices_scale_by_their_ratio() {
    let scale = |n: u16| ui_scale(n) as f32 / 26.0;
    assert_eq!(scale(13), 1.0);
    assert!((scale(12) - 12.0 / 13.0).abs() < f32::EPSILON);
    assert!((scale(15) - 15.0 / 13.0).abs() < f32::EPSILON);
    assert_eq!(scale(0), 1.0);
    assert_eq!(scale(2), 0.5);
    assert_eq!(scale(400), 2.0);
}

#[test]
fn colours_follow_the_theme() {
    assert_eq!(channels(window_bg(true)), (0x2b, 0x2b, 0x2b));
    assert_eq!(window_bg(false), 0xF0F0F0);
    assert_eq!(row_cell(false, true, true), Some(0xCCE8FF));
    assert_eq!(row_cell(true, false, false), None);
    assert_eq!(btn(false, ButtonStatus::Active).0, 0xFFFFFF);
    assert_eq!(btn_primary(false, ButtonStatus::Active).1, 0x0067C0);
    assert_eq!(btn_primary(false, ButtonStatus::Disabled).1, 0xDCDCDC);
    assert_eq!(btn_menu(true, ButtonStatus::Pressed), (Some(0x094771), 0xE6E6E6));
    assert_eq!(btn_menu(true, ButtonStatus::Disabled), (None, 0x6D6D6D));
    assert_eq!(btn_tab(false, false, ButtonStatus::Hovered), 0xE8E8E8);
    assert_eq!(input(false, FieldStatus::Focused), 0x0067C0);
    assert_eq!(check(false, true, true), (0xFFFFFF, 0xDCDCDC, 0x6D6D6D));
}

fn facts(sel: Option<DlState>) -> MenuFacts {
    MenuFacts {
        sel,
        sel_queued: false,
        any_active: false,
        queues: vec!["Main".into()],
        limiter: true,
        categories: true,
        theme: ThemeMode::Dark,
        font: 13,
        language: "fr".into(),
        languages: vec!["en".into(), "fr".into()],
    }
}

fn find<'a>(v: &'a [Entry], label: &str) -> &'a Entry {
    v.iter().find(|e| e.label == label).unwrap()
}

#[test]
fn menus_offer_what_can_be_done() {
    let en = Catalogue::english();
    let running = facts(Some(DlState::Receiving));
    let file = entries(MenuBarKind::File, &running, &en);
    assert!(find(&file, "Stop Download").enabled);
    assert!(!find(&file, "Download Now").enabled);
    let view = entries(MenuBarKind::View, &running, &en);
    let ticked: Vec<&str> = find(&view, "Theme")
        .submenu
        .iter()
        .filter(|e| e.checked)
        .map(|e| e.label.as_str())
        .collect();
    assert_eq!(ticked, vec!["Dark"]);
    assert!(find(&view, "Language").submenu[1].checked);
    assert!(find(&entries(MenuBarKind::Downloads, &running, &en), "Speed Limiter").checked);
    assert_eq!(entries(MenuBarKind::Tasks, &running, &en).len(), 9);
    assert_eq!(entries(MenuBarKind::Help, &running, &en).len(), 8);
    assert_eq!(bar()[4].1, "Help");
    assert!(context_entries(&facts(None), &en).is_empty());
    let done = context_entries(&facts(Some(DlState::Complete)), &en);
    assert_eq!(done[0].label, "Open");
    assert_eq!(done.len(), 9);
    assert!(!find(&done, "Remove from queue").enabled);
    let off = Entry::plain("x".into(), MenuAction::Exit, false);
    assert!(matches!(press(&off, 0), Press::Nothing));
    assert!(matches!(press(&done[0], 0), Press::Command(MenuAction::OpenSel)));
    assert!(matches!(press(&view[1], 1), Press::Flyout(1)));
    assert_eq!(open_flyout(&view, Some(1)), Some(1));
    assert_eq!(open_flyout(&view, Some(0)), None);
    assert!(!scrolls(&view[1]));
}

#[test]
fn menu_names_are_found_again() {
    for a in [
        MenuAction::Exit,
        MenuAction::StartQueue("a:b".into()),
        MenuAction::FontSize(15),
        MenuAction::SetTheme(ThemeMode::Light),
        MenuAction::Language("fr".into()),
        MenuAction::ArrangeBy(SortKey::Queue),
    ] {
        let id = a.id();
        let back = MenuAction::from_id(&id).unwrap();
        assert_eq!(back.id(), id);
    }
    assert!(matches!(
        MenuAction::from_id("arrange:Queue"),
        Some(MenuAction::ArrangeBy(SortKey::Queue))
    ));
    assert!(MenuAction::from_id("no such thing").is_none());
    assert!(MenuAction::from_id("font:70000").is_none());
}

#[test]
fn the_tray_lists_the_queues() {
    let en = Catalogue::english();
    let m = tray::model(&vec!["my_queue".into()], true, &en);
    assert_eq!(m.len(), 11);
    match &m[0] {
        tray::Entry::Item { id, label } => {
            assert_eq!(id, "show_main");
            assert_eq!(label, "Show PlayDL");
        }
        other => panic!("{other:?}"),
    }
    match &m[3] {
        tray::Entry::Sub { items, .. } => match &items[0] {
            tray::Leaf::Item { id, label } => {
                assert_eq!(id, "start_queue:my_queue");
                assert_eq!(tray::escape(label), "my__queue");
            }
            other => panic!("{other:?}"),
        },
        other => panic!("{other:?}"),
    }
    assert!(tray::panel_wants_white("ubuntu:GNOME", false));
    assert!(!tray::panel_wants_white("KDE", false));
    assert!(tray::panel_wants_white("KDE", true));
}

#[test]
fn the_menu_bar_of_a_mac_is_ticked_from_the_settings() {
    let en = Catalogue::english();
    let st = MenuState {
        theme_mode: ThemeMode::Light,
        show_categories: false,
        font_size: 12,
        language: "fr".into(),
        speed_limiter: true,
    };
    let b = tray::bar(&st, &vec!["Main".into()], &vec!["en".into(), "fr".into()], &en);
    assert_eq!(b.len(), 6);
    assert_eq!(b[0].label, "PlayDL");
    assert!(matches!(b[0].entries[6], tray::Entry::Accel { .. }));
    assert_eq!(tray::sync(&st, &MenuAction::HideCategories), Some(true));
    assert_eq!(tray::sync(&st, &MenuAction::FontSize(13)), Some(false));
    assert_eq!(tray::sync(&st, &MenuAction::SetTheme(ThemeMode::Light)), Some(true));
    assert_eq!(tray::sync(&st, &MenuAction::Exit), None);
}

fn png_bytes(color: png::ColorType, w: u32, h: u32, data: &[u8]) -> Vec<u8> {
    let mut out = Vec::new();
    let mut e = png::Encoder::new(&mut out, w, h);
    e.set_color(color);
    e.set_depth(png::BitDepth::Eight);
    let mut wr = e.write_header().unwrap();
    wr.write_image_data(data).unwrap();
    drop(wr);
    out
}

#[test]
fn pictures_of_every_kind_become_straight_colours() {
    let rgb = png_bytes(png::ColorType::Rgb, 1, 1, &[1, 2, 3]);
    assert_eq!(logo_rgba(&rgb), Some((vec![1, 2, 3, 255], 1, 1)));
    let rgba = png_bytes(png::ColorType::Rgba, 1, 1, &[1, 2, 3, 4]);
    assert_eq!(logo_rgba(&rgba), Some((vec![1, 2, 3, 4], 1, 1)));
    let grey = png_bytes(png::ColorType::Grayscale, 2, 1, &[9, 8]);
    assert_eq!(logo_rgba(&grey), Some((vec![9, 9, 9, 255, 8, 8, 8, 255], 2, 1)));
    let ga = png_bytes(png::ColorType::GrayscaleAlpha, 1, 1, &[9, 7]);
    assert_eq!(logo_rgba(&ga), Some((vec![9, 9, 9, 7], 1, 1)));
    assert_eq!(logo_rgba(b"no picture"), None);
    assert_eq!(
        image_rgba(Some(RawImage {
            samples: vec![1],
            color: 3,
            width: 1,
            height: 1
        })),
        None
    );
    assert_eq!(to_rgba(vec![5], 0), vec![5, 5, 5, 255]);
}

#[test]
fn the_silhouette_cuts_white_out() {
    let file = png_bytes(
        png::ColorType::Rgba,
        2,
        1,
        &[10, 20, 30, 200, 255, 255, 255, 255],
    );
    assert_eq!(
        logo_mono_rgba(&file, true),
        Some((vec![255, 255, 255, 200, 255, 255, 255, 0], 2, 1))
    );
    assert_eq!(mono_rgba(&vec![221, 221, 221, 9], false), vec![0, 0, 0, 0]);
    assert_eq!(mono_rgba(&vec![220, 221, 221, 9], false), vec![0, 0, 0, 9]);
}

#[test]
fn blocks_are_averaged_by_their_alpha() {
    // Red at full alpha, green at none: no green bleeds in.
    let px = vec![
        255, 0, 0, 255, 0, 255, 0, 0, //
        255, 0, 0, 255, 0, 255, 0, 0,
    ];
    assert_eq!(box_downscale(&px, 2, 2, 2), vec![255, 0, 0, 127]);
    assert_eq!(box_downscale(&vec![7; 16].iter().map(|_| 0).collect(), 2, 2, 2), vec![0, 0, 0, 0]);
    assert_eq!(to_argb(&vec![1, 2, 3, 4]), vec![4, 1, 2, 3]);
    let maps = pixmaps(&vec![0; 8 * 4 * 4], 8, 4);
    // Four goes into both sides, eight does not.
    assert_eq!(maps.len(), 2);
    assert_eq!((maps[0].width, maps[0].height), (2, 1));
    assert_eq!((maps[1].width, maps[1].height), (8, 4));
}

#[test]
fn icons_are_drawn_as_text() {
    assert!(add_url(true).contains("stroke=\"url(#g)\""));
    assert!(add_url(false).contains("stroke=\"#B0B0B0\""));
    assert_eq!(queue_folder(None), queues());
    let f = queue_folder(Some(0x102030));
    assert!(f.contains("fill=\"#102030\""));
    assert!(f.contains("stroke=\"#0A141F\""));
    assert!(f.contains("fill=\"#7B848D\""));
    assert_eq!(cat_icon("Music"), folder_music());
    assert!(expander(true).len() < expander(false).len());
}

#[test]
fn a_chime_is_a_sound_file() {
    let w = wav_file(&vec![0, 1, -1]);
    assert_eq!(&w[0..4], b"RIFF");
    assert_eq!(w[4..8], 42u32.to_le_bytes());
    assert_eq!(&w[8..16], b"WAVEfmt ");
    assert_eq!(w[24..28], 44_100u32.to_le_bytes());
    assert_eq!(w[28..32], 88_200u32.to_le_bytes());
    assert_eq!(&w[36..40], b"data");
    assert_eq!(w[40..44], 6u32.to_le_bytes());
    assert_eq!(w[44..], [0, 0, 1, 0, 255, 255]);
    assert_eq!(Event::from_index(2), Event::QueueStarted);
    assert_eq!(Event::from_index(9), Event::DownloadComplete);
}

#[test]
fn windows_have_titles() {
    let en = Catalogue::english();
    assert_eq!(title(Some(WinKind::Main), &en, ""), "Hydra Download Manager");
    assert_eq!(title(Some(WinKind::Progress(3)), &en, "42% a.zip"), "42% a.zip");
    assert_eq!(title(None, &en, ""), "Hydra");
    assert!(in_dock(true, true));
    assert!(!in_dock(true, false));
    assert_eq!(skip_message(true, 7, 8), [1, 7, 8, 1, 0]);
}

fn mods(command: bool, shift: bool, alt: bool) -> hydra_gui::app::Mods {
    hydra_gui::app::Mods {
        command,
        control: false,
        shift,
        alt,
    }
}

#[test]
fn a_key_press_reads_as_a_combination() {
    let v = Key::Character("V".into());
    assert_eq!(combo_string(&v, mods(true, true, false)), Some("cmd+shift+v".into()));
    assert_eq!(combo_string(&v, mods(true, true, true)), Some("cmd+shift+alt+v".into()));
    assert_eq!(combo_string(&v, mods(false, true, false)), None);
    assert_eq!(combo_string(&Key::Escape, mods(true, false, false)), None);
}

#[test]
fn shortcuts_stay_in_order() {
    let mut v = Vec::new();
    bind(&mut v, "quit".into(), "cmd+q".into());
    bind(&mut v, "add_url".into(), "cmd+n".into());
    bind(&mut v, "options".into(), typed_combo("  CMD+O "));
    bind(&mut v, "quit".into(), "cmd+x".into());
    let names: Vec<&str> = v.iter().map(|p| p.0.as_str()).collect();
    assert_eq!(names, vec!["add_url", "options", "quit"]);
    assert_eq!(action_for(&v, "cmd+x"), Some("quit".into()));
    assert_eq!(action_for(&v, "cmd+o"), Some("options".into()));
    assert_eq!(action_for(&v, "cmd+q"), None);
}

fn package(name: &str) -> Package {
    Package {
        name: name.into(),
        url: format!("https://r/{name}"),
        size: 11,
    }
}

fn release(newer: bool) -> Release {
    Release {
        version: "2.0".into(),
        notes: "n".into(),
        html_url: "h".into(),
        newer,
        bundle: Some(package("a.tar.gz")),
        image: Some(package("a.AppImage")),
        sums_url: None,
        package: Some(package("a.deb")),
    }
}

fn install(method: UpdateMethod) -> Install {
    Install {
        image: None,
        dir: Some("/opt/hydra".into()),
        method,
        image_auth: false,
        os: "linux".into(),
        arch: "amd64".into(),
        image_arch: "x86_64".into(),
    }
}

fn image_install(image_auth: bool) -> Install {
    Install {
        image: Some("/home/u/Hydra.AppImage".into()),
        image_auth,
        ..install(UpdateMethod::AppImage)
    }
}

#[test]
fn an_offer_is_made_only_of_what_can_be_installed() {
    assert!(offer(&release(false), &install(UpdateMethod::InPlace)).is_none());
    let mut bare = release(true);
    bare.bundle = None;
    assert!(offer(&bare, &install(UpdateMethod::InPlace)).is_none());
    let own = offer(&release(true), &install(UpdateMethod::Elevated)).unwrap();
    assert!(own.in_place && own.needs_auth && own.package.is_none());
    assert_eq!(own.asset_name, "a.tar.gz");
    let pkg = offer(&release(true), &install(UpdateMethod::Package)).unwrap();
    assert!(!pkg.in_place && !pkg.needs_auth);
    assert_eq!(pkg.package.unwrap().name, "a.deb");
    let image = offer(&release(true), &image_install(true)).unwrap();
    assert!(image.needs_auth);
    assert_eq!(image.asset_name, "a.AppImage");
    assert!(!offer(&release(true), &image_install(false)).unwrap().needs_auth);
    // The folder is not known: nothing may be replaced.
    let lost = Install { dir: None, ..install(UpdateMethod::InPlace) };
    assert!(!offer(&release(true), &lost).unwrap().in_place);
    assert_eq!(user_agent("1.2"), "hydra-gui/1.2");
}

#[test]
fn the_log_tells_the_outcomes_of_a_check_apart() {
    let told = |rel: &Release, at: &Install| {
        update::check(rel, at).1.map(|n| (n.level(), n.text()))
    };
    let own = install(UpdateMethod::InPlace);
    assert_eq!(verdict(&release(false), &own), Verdict::UpToDate);
    assert_eq!(told(&release(false), &own), None);
    let mut bare = release(true);
    bare.bundle = None;
    assert_eq!(verdict(&bare, &own), Verdict::NoBundle);
    assert_eq!(
        told(&bare, &own),
        Some((Level::Warn, "update 2.0 available but has no linux-amd64 bundle".into()))
    );
    bare.image = None;
    assert_eq!(
        told(&bare, &image_install(false)),
        Some((Level::Warn, "update 2.0 available but has no x86_64.AppImage bundle".into()))
    );
    let owned = install(UpdateMethod::Package);
    assert_eq!(verdict(&release(true), &owned), Verdict::Packaged);
    assert_eq!(
        told(&release(true), &owned),
        Some((
            Level::Info,
            "update 2.0 available but /opt/hydra is owned by a package manager; \
             offering the installer instead"
                .into()
        ))
    );
    let lost = Install { dir: None, ..install(UpdateMethod::InPlace) };
    assert_eq!(
        told(&release(true), &lost).unwrap().1,
        "update 2.0 available but the install directory is owned by a package manager; \
         offering the installer instead"
    );
    assert_eq!(
        verdict(&release(true), &own),
        Verdict::Updates(UpdateMethod::InPlace)
    );
    assert_eq!(
        told(&release(true), &own).unwrap().1,
        "update 2.0 available; /opt/hydra updates in place"
    );
    assert_eq!(
        told(&release(true), &install(UpdateMethod::Elevated)).unwrap().1,
        "update 2.0 available; /opt/hydra updates in place, after authorisation"
    );
    assert_eq!(
        told(&release(true), &image_install(false)).unwrap().1,
        "update 2.0 available; /home/u/Hydra.AppImage updates by replacing the image file"
    );
    assert!(update::check(&release(true), &own).0.unwrap().in_place);
}

#[test]
fn the_log_is_told_how_an_update_ended() {
    let told = |e: UpdateEvent| e.note("2.0").map(|n| (n.level(), n.text()));
    assert_eq!(
        told(UpdateEvent::Failed("no space".into())),
        Some((Level::Error, "update failed: no space".into()))
    );
    assert_eq!(
        told(UpdateEvent::ReadyToRestart),
        Some((
            Level::Info,
            "update 2.0 downloaded; finisher started, exiting to let it swap files".into()
        ))
    );
    assert_eq!(told(UpdateEvent::Cancelled), None);
    assert_eq!(told(UpdateEvent::Verifying), None);
}

#[test]
fn a_start_without_a_window_waits_for_the_tray() {
    assert_eq!(wait_step(true, 0), WaitStep::Ready);
    assert_eq!(wait_step(true, 9000), WaitStep::Ready);
    assert_eq!(wait_step(false, 0), WaitStep::WaitMs(100));
    assert_eq!(wait_step(false, 4999), WaitStep::WaitMs(100));
    assert_eq!(wait_step(false, 5000), WaitStep::GiveUp);
}

#[test]
fn a_scan_is_drawn_in_the_well_of_a_progress_bar() {
    for dark in [false, true] {
        let (well, edge, bar) = progress(dark);
        assert_eq!(scan_track(dark), (well, edge));
        assert_eq!(scan_block(), bar);
    }
    assert_eq!(scan_track(false), (0xE0E0E0, 0xC8C8C8));
    assert_eq!(scan_block(), 0x3A9E3A);
    assert_eq!(window(true), (0x2B2B2B, 0xE6E6E6));
    assert_eq!(chunk_on(), 0x3B6FD4);
}

#[test]
fn an_update_checks_what_it_downloaded() {
    let mut r = Run::new(true, false);
    assert!(matches!(r.advance(StepDone::Downloaded), Some(UpdateEvent::Verifying)));
    assert!(r.advance(StepDone::Published(Some("abc".into()))).is_none());
    match r.advance(StepDone::Hashed("abd".into())) {
        Some(UpdateEvent::Failed(e)) => assert!(e.starts_with("checksum mismatch")),
        other => panic!("{other:?}"),
    }
    assert!(r.discard && r.step == Step::End);

    let mut r = Run::new(true, false);
    r.advance(StepDone::Downloaded);
    r.advance(StepDone::Published(Some("abc".into())));
    assert!(matches!(
        r.advance(StepDone::Hashed("abc".into())),
        Some(UpdateEvent::Preparing)
    ));
    assert_eq!(r.step, Step::Unpack);
    assert!(r.advance(StepDone::Unpacked).is_none());
    assert!(matches!(
        r.advance(StepDone::Started),
        Some(UpdateEvent::ReadyToRestart)
    ));

    let mut r = Run::new(false, true);
    assert!(matches!(r.advance(StepDone::Downloaded), Some(UpdateEvent::Preparing)));
    assert_eq!(r.step, Step::Finish);
    let mut r = Run::new(false, true);
    assert!(matches!(r.advance(StepDone::Interrupted), Some(UpdateEvent::Cancelled)));
}

#[test]
fn the_finisher_is_the_first_that_is_there() {
    let file = |path: &str| DiskEntry {
        path: path.into(),
        is_file: true,
        len: 1,
        blocks: None,
    };
    let bundle = Some("/t/u".to_string());
    let pick = |disk: &Disk| pick_finisher(&bundle, "/o", false, "/t/a", disk);
    let mut disk = Disk::unknown();
    assert_eq!(
        pick(&disk).unwrap_err(),
        "no hydra-updater in the release bundle or next to the app; \
         the downloaded update is at /t/a"
    );
    disk.entries.push(file("/o/hydra-updater"));
    assert_eq!(pick(&disk).unwrap(), "/o/hydra-updater");
    disk.entries.push(file("/t/u/hydra-updater"));
    assert_eq!(pick(&disk).unwrap(), "/t/u/hydra-updater");
}

#[test]
fn the_finisher_replaces_what_was_launched() {
    let mut p = UpdatePaths {
        archive: "/t/a".into(),
        image: Some("/o/H.AppImage".into()),
        bundle: None,
        install_dir: "/o".into(),
        exe: "/o/h".into(),
        profile: Some("/p".into()),
    };
    assert_eq!(
        finisher_args(&p, "2.0").unwrap(),
        vec![
            "--src-file", "/t/a", "--appimage", "/o/H.AppImage", "--relaunch", "/o/H.AppImage",
            "--relaunch-arg", "--config", "--relaunch-arg", "/p",
        ]
    );
    p.image = None;
    assert_eq!(
        finisher_args(&p, "2.0").unwrap_err(),
        "nothing was extracted to install"
    );
    p.bundle = Some("/t/u".into());
    p.profile = None;
    assert_eq!(
        finisher_args(&p, "2.0").unwrap(),
        vec![
            "--src-dir", "/t/u", "--install-dir", "/o", "--app-version", "2.0", "--relaunch",
            "/o/h",
        ]
    );
    assert_eq!(
        finisher_candidates(&p.bundle, "/o", false),
        vec!["/t/u/hydra-updater", "/o/hydra-updater"]
    );
    assert_eq!(
        finisher_candidates(&Some("D:\\t".into()), "C:\\o", true),
        vec!["D:\\t\\hydra-updater.exe", "C:\\o\\hydra-updater.exe"]
    );
}
