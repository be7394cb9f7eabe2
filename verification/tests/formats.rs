//! Sizes, times, languages and the virus scanner's output.
use chrono::{Datelike, TimeZone};
use hydra_gui::fmt::{date, eta, hhmm, or_blank, pct, size2, size3, weekday};
use hydra_gui::i18n::{
    available, detect_system_locale, display_name, map_os_locale, preferred_languages, set_locale,
    Catalogue,
};
use hydra_gui::scan::{argv, outcome_of, signature, split_args, LineSplitter, Outcome};

fn plain_size(bytes: u64, prec: usize) -> String {
    let b = bytes as f64;
    if b >= 1024.0 * 1024.0 * 1024.0 {
        format!("{:.*} GB", prec, b / (1024.0 * 1024.0 * 1024.0))
    } else if b >= 1024.0 * 1024.0 {
        format!("{:.*} MB", prec, b / (1024.0 * 1024.0))
    } else if b >= 1024.0 {
        format!("{:.*} KB", prec, b / 1024.0)
    } else {
        format!("{bytes} B")
    }
}

#[test]
fn sizes_round_as_floating_point_does() {
    let mut n: u64 = 1;
    for i in 0..4000u64 {
        n = n.wrapping_mul(6364136223846793005).wrapping_add(1442695040888963407);
        let v = n >> (i % 60);
        assert_eq!(size2(v), plain_size(v, 2), "{v}");
        assert_eq!(size3(v), plain_size(v, 3), "{v}");
    }
    for v in [0, 1, 1023, 1024, 1_048_575, 1_048_576, u64::MAX] {
        assert_eq!(size2(v), plain_size(v, 2));
    }
}

#[test]
fn shares_round_as_floating_point_does() {
    let mut n: u64 = 7;
    for i in 0..4000u64 {
        n = n.wrapping_mul(6364136223846793005).wrapping_add(1442695040888963407);
        let done = n >> (i % 60);
        let size = (n.rotate_left(17) >> (i % 53)).max(1);
        assert_eq!(
            pct(done, size),
            format!("{:.2}%", done as f64 * 100.0 / size as f64),
            "{done} of {size}"
        );
    }
    assert_eq!(pct(5, 0), "");
    assert_eq!(pct(58, 1000), "5.80%");
}

#[test]
fn durations_have_two_units_at_most() {
    assert_eq!(eta(45), "45 sec");
    assert_eq!(eta(212), "3 min 32 sec");
    assert_eq!(eta(4320), "1 hr 12 min");
}

#[test]
fn moments_are_spelled_for_their_offset() {
    // 2026-08-17 15:48:32 UTC.
    let t = 1_786_981_712;
    assert_eq!(date(t, 0), "Aug 17 15:48:32 2026");
    assert_eq!(hhmm(t, 0), "15:48");
    assert_eq!(date(t, 3600), "Aug 17 16:48:32 2026");
    assert_eq!(hhmm(t, -3600), "14:48");
    assert_eq!(or_blank(None), "");
    assert_eq!(or_blank(Some("x".into())), "x");
}

#[test]
fn weekday_maps_sunday_to_zero() {
    // 2026-08-16 is a Sunday.
    for (day, want) in [(16, 0), (17, 1), (22, 6)] {
        let t = chrono::Utc.with_ymd_and_hms(2026, 8, day, 12, 0, 0).unwrap();
        assert_eq!(weekday(t.timestamp(), 0), want);
    }
}

#[test]
fn minutes_and_days_are_those_of_the_calendar() {
    for unix in [0, 59, 86_399, 86_400, -1, -86_401, 1_786_981_712, -2_208_988_800] {
        for offset in [0, 3600, -3600, 20_700, -43_200] {
            let zone = chrono::FixedOffset::east_opt(offset).unwrap();
            let t = zone.timestamp_opt(unix, 0).unwrap();
            assert_eq!(hhmm(unix, offset), t.format("%H:%M").to_string());
            let day = t.weekday().num_days_from_sunday() as usize;
            assert_eq!(weekday(unix, offset), day);
        }
    }
    assert!(weekday(i64::MIN, i32::MIN) < 7);
    assert_eq!(hhmm(i64::MAX, 0), "15:30");
}

#[test]
fn languages_fall_back_to_english() {
    let en = Catalogue::english();
    assert_eq!(en.tr("Stop"), "Stop");
    assert_eq!(en.current_locale(), "en");
    let fr = set_locale(
        "fr",
        Some(br#"{"Stop": "Arreter", "Open": "Ouvrir"}"#),
        Some(br#"{"Stop": "Halte"}"#),
    );
    // What the user put on disk wins over what ships with the program.
    assert_eq!(fr.tr("Stop"), "Halte");
    assert_eq!(fr.tr("Open"), "Ouvrir");
    assert_eq!(fr.tr("Close"), "Close");
    assert_eq!(fr.current_locale(), "fr");
    // A file that is no catalogue changes nothing.
    let broken = set_locale("fr", Some(b"[1, 2]"), None);
    assert_eq!(broken.tr("Stop"), "Stop");
    assert_eq!(broken.current_locale(), "en");
    // English needs no catalogue.
    let en = set_locale("en", Some(br#"{"Stop": "x"}"#), None);
    assert_eq!(en.tr("Stop"), "Stop");
}

#[test]
fn the_system_language_is_the_first_foreign_one() {
    assert_eq!(map_os_locale("de_DE.UTF-8"), "de");
    assert_eq!(map_os_locale("DE-de"), "de");
    // A tag that is built in as a whole is closer than its language.
    assert_eq!(map_os_locale("pt-BR"), "pt-BR");
    assert_eq!(map_os_locale("pt_br.UTF-8"), "pt-BR");
    assert_eq!(map_os_locale("pt_PT"), "pt");
    assert_eq!(map_os_locale("zh-cn"), "zh");
    assert_eq!(map_os_locale("zh_CN.UTF-8"), "zh");
    assert_eq!(map_os_locale("zh_TW"), "zh-Hant");
    assert_eq!(map_os_locale("zh-Hant"), "zh-Hant");
    // A language that does not come with the program is English.
    assert_eq!(map_os_locale("sk_SK"), "en");
    assert_eq!(map_os_locale("sr"), "en");
    assert_eq!(map_os_locale(""), "en");
    assert_eq!(
        detect_system_locale(&vec!["C".to_string(), "fr_FR".to_string()]),
        "fr"
    );
    assert_eq!(display_name("no-such-tag"), "no-such-tag");
    assert_eq!(display_name("de"), "Deutsch");
    assert!(available(&vec!["xx.json".to_string()]).contains(&"en".to_string()));
    assert_eq!(preferred_languages("fr;en"), vec!["fr", "en"]);
}

#[test]
fn argv_appends_the_path_when_there_is_no_placeholder() {
    assert_eq!(argv("", "/a/b.zip"), vec!["/a/b.zip"]);
    assert_eq!(
        argv("--no-summary -i", "/a/b.zip"),
        vec!["--no-summary", "-i", "/a/b.zip"]
    );
}

#[test]
fn argv_substitutes_the_placeholder_in_place() {
    assert_eq!(
        argv("--scan %1 --verbose", "/a/b.zip"),
        vec!["--scan", "/a/b.zip", "--verbose"]
    );
}

#[test]
fn quoted_arguments_stay_one_token() {
    assert_eq!(
        argv("--db \"/opt/my defs\"", "/a/b.zip"),
        vec!["--db", "/opt/my defs", "/a/b.zip"]
    );
    assert_eq!(split_args("a  \"b c\" d"), vec!["a", "b c", "d"]);
}

#[test]
fn signature_reads_the_clamscan_hit_line() {
    assert_eq!(
        signature("/Users/j/Downloads/x.zip: Eicar-Test-Signature FOUND").as_deref(),
        Some("Eicar-Test-Signature")
    );
    assert_eq!(signature("/Users/j/Downloads/x.zip: OK"), None);
}

#[test]
fn a_scanner_streams_its_console_and_its_verdict() {
    let mut s = LineSplitter::new();
    let mut lines = s.feed(b"load\rdone\n/tmp/x.zip: OK\n");
    lines.extend(s.finish());
    assert_eq!(
        lines,
        vec![
            ("load".to_string(), true),
            ("done".to_string(), false),
            ("/tmp/x.zip: OK".to_string(), false),
        ]
    );
    assert!(matches!(outcome_of(Some(0), None), Outcome::Clean));
    let mut s = LineSplitter::new();
    let lines = s.feed(b"/tmp/x.zip: Eicar-Test-Signature FOUND\n");
    assert_eq!(
        lines,
        vec![("/tmp/x.zip: Eicar-Test-Signature FOUND".to_string(), false)]
    );
    match outcome_of(Some(1), signature(&lines[0].0)) {
        Outcome::Infected(sig) => assert_eq!(sig, "Eicar-Test-Signature"),
        other => panic!("expected an infected verdict, got {other:?}"),
    }
    assert!(matches!(outcome_of(Some(2), None), Outcome::Failed(_)));
    assert!(matches!(outcome_of(None, None), Outcome::Failed(_)));
}
