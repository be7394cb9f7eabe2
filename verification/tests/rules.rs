//! Addresses, sites, logins, clicks, names and file kinds.
use hydra_gui::ext_info::{hint_for_url, is_web_page, kind_for_name, percent_decode, url_ext};
use hydra_gui::i18n::Catalogue;
use hydra_gui::model::SiteLogin;
use hydra_gui::names::{
    collision_file, manifest_address, sanitize_file_name, split_save_as, stream_base_name, Disk,
    DiskEntry,
};
use hydra_gui::rules::{
    auto_start_type, double_click, find_login, looks_downloadable, site_blocked, type_listed,
};
use hydra_gui::state::FileInfoState;
use hydra_gui::text::is_whitespace;

fn pair(a: &str, b: &str) -> (String, String) {
    (a.to_string(), b.to_string())
}

#[test]
fn save_as_splits_folder_and_name() {
    assert_eq!(split_save_as("/tmp/dl/a.zip"), pair("/tmp/dl", "a.zip"));
    assert_eq!(
        split_save_as("C:\\Users\\me\\a.zip"),
        pair("C:\\Users\\me", "a.zip")
    );
    assert_eq!(split_save_as("/a.zip"), pair("/", "a.zip"));
    assert_eq!(split_save_as("a.zip"), pair("", "a.zip"));
    assert_eq!(split_save_as("/tmp/dl/"), pair("/tmp/dl", ""));
}

#[test]
fn save_as_edit_marks_only_changed_part() {
    let mut fi = FileInfoState {
        save_dir: "/tmp/dl".into(),
        file_name: "a.zip".into(),
        ..Default::default()
    };
    assert_eq!(fi.save_as(), "/tmp/dl/a.zip");
    fi.set_save_as("/tmp/dl/b.zip");
    assert!(fi.name_touched && !fi.dir_touched);
    fi.set_save_as("/var/x/b.zip");
    assert!(fi.dir_touched);
    assert_eq!(fi.save_dir, "/var/x");
}

#[test]
fn auto_start_type_follows_the_file_types_list() {
    const TYPES: &str = "ZIP, EXE MP4\nISO";
    assert!(auto_start_type("setup.exe", "https://ex.com/setup.exe", TYPES));
    assert!(auto_start_type("disk.ISO", "https://ex.com/disk.ISO", TYPES));
    assert!(!auto_start_type(
        "IObit.Smart.Defrag.12.0.0.536.rar",
        "https://dl.ex.com/soft/i/IObit.rar?123",
        TYPES
    ));
    assert!(!auto_start_type("archive.rar", "https://ex.com/download.zip", TYPES));
    assert!(auto_start_type("download", "https://ex.com/download", TYPES));
}

#[test]
fn site_blocked_matches_hosts_and_subdomains() {
    const SITES: &str = "*.update.microsoft.com download.windowsupdate.com, *.example.com";
    assert!(site_blocked("https://sub.update.microsoft.com/x.exe", SITES));
    assert!(site_blocked("https://update.microsoft.com/x.exe", SITES));
    assert!(site_blocked("https://download.windowsupdate.com/x.exe", SITES));
    assert!(!site_blocked("https://example.org/x.exe", SITES));
    assert!(!site_blocked("https://evilexample.com/x.exe", SITES));
}

#[test]
fn site_blocked_example_com_patterns() {
    const BARE: &str = "example.com";
    assert!(site_blocked("https://example.com/x.exe", BARE));
    assert!(site_blocked("http://EXAMPLE.COM/x.exe", BARE));
    assert!(site_blocked("https://www.example.com/x.exe", BARE));
    assert!(site_blocked("https://a.b.example.com/x.exe", BARE));
    assert!(site_blocked("ftp://example.com/x.exe", BARE));
    assert!(!site_blocked("https://notexample.com/x.exe", BARE));
    assert!(!site_blocked("https://example.com.evil.net/x.exe", BARE));
    assert!(!site_blocked("https://example.org/x.exe", BARE));

    const WILDCARD: &str = "*.example.com";
    assert!(site_blocked("https://example.com/x.exe", WILDCARD));
    assert!(site_blocked("https://sub.example.com/x.exe", WILDCARD));
    assert!(site_blocked("https://deep.sub.example.com/x.exe", WILDCARD));
    assert!(!site_blocked("https://example.co/x.exe", WILDCARD));

    const MIXED: &str = "example.com, *.example.net\texample.org";
    assert!(site_blocked("https://example.com/x.exe", MIXED));
    assert!(site_blocked("https://cdn.example.net/x.exe", MIXED));
    assert!(site_blocked("https://example.org/x.exe", MIXED));
    assert!(!site_blocked("https://example.io/x.exe", MIXED));

    assert!(!site_blocked("https://example.com/x.exe", ""));
    assert!(!site_blocked("https://example.com/x.exe", "   "));
}

#[test]
fn double_click_pairs_only_consecutive_clicks_on_one_row() {
    let mut last = None;
    assert!(!double_click(&mut last, Some("Queue 3"), 1000));
    assert!(double_click(&mut last, Some("Queue 3"), 1001));
    assert!(!double_click(&mut last, Some("Queue 3"), 1002));
    assert!(double_click(&mut last, Some("Queue 3"), 1003));

    let mut last = None;
    assert!(!double_click(&mut last, Some("Queue 3"), 1000));
    assert!(!double_click(&mut last, Some("Queue 4"), 1001));
    assert!(!double_click(&mut last, Some("Queue 3"), 1002));

    let mut last = None;
    assert!(!double_click(&mut last, Some("Queue 3"), 1000));
    assert!(!double_click(&mut last, None, 1001));
    assert!(last.is_none());
    assert!(!double_click(&mut last, Some("Queue 3"), 1002));

    let mut last = Some(("Queue 3".to_string(), 1000));
    assert!(!double_click(&mut last, Some("Queue 3"), 1600));
}

#[test]
fn the_second_click_has_four_tenths_of_a_second() {
    let mut last = Some(("Q".to_string(), 1000));
    assert!(double_click(&mut last, Some("Q"), 1399));
    let mut last = Some(("Q".to_string(), 1000));
    assert!(!double_click(&mut last, Some("Q"), 1400));
}

fn login(site: &str, user: &str, pass: &str) -> SiteLogin {
    SiteLogin {
        site: site.into(),
        user: user.into(),
        pass: pass.into(),
    }
}

#[test]
fn find_login_matches_host_and_prefers_the_most_specific_path() {
    let logins = vec![
        login("example.com", "site-user", "site-pass"),
        login("example.com/private", "private-user", "private-pass"),
        login("*.ftp.example.org", "ftp-user", "ftp-pass"),
    ];
    assert_eq!(
        find_login("https://example.com/public/x.zip", &logins).map(|l| l.user.as_str()),
        Some("site-user")
    );
    assert_eq!(
        find_login("https://example.com/private/x.zip", &logins).map(|l| l.user.as_str()),
        Some("private-user")
    );
    assert_eq!(
        find_login("ftp://files.ftp.example.org/x.zip", &logins).map(|l| l.user.as_str()),
        Some("ftp-user")
    );
    assert!(find_login("https://unrelated.com/x.zip", &logins).is_none());
}

#[test]
fn a_stream_is_named_after_its_asset_not_its_manifest() {
    assert_eq!(
        stream_base_name("https://hls.ex/live_cdn/abc/emcQJ0pGpremocy/index.m3u8"),
        "emcQJ0pGpremocy"
    );
    assert_eq!(stream_base_name("https://cdn.ex/a/master.m3u8"), "a");
    assert_eq!(stream_base_name("https://cdn.ex/x/mono.m3u8"), "x");
    assert_eq!(stream_base_name("https://cdn.ex/a/bbb_30fps.mpd"), "bbb_30fps");
    assert_eq!(stream_base_name("https://cdn.ex/a/show.m3u8?t=1"), "show");
    assert_eq!(stream_base_name("https://cdn.ex/"), "stream");
    assert!(!stream_base_name("https://e/a/../../etc/passwd.m3u8").contains('/'));
}

#[test]
fn only_manifest_addresses_are_inspected() {
    assert!(manifest_address("https://cdn.ex/a/index.m3u8"));
    assert!(manifest_address("http://cdn.ex/a/x.mpd"));
    assert!(manifest_address("https://cdn.ex/a/x.m3u8?token=abc"));
    assert!(manifest_address("https://cdn.ex/A/INDEX.M3U8"));
    assert!(!manifest_address("https://cdn.ex/a/video.mp4"));
    assert!(!manifest_address("https://cdn.ex/a/"));
    assert!(!manifest_address("cdn.ex/a/index.m3u8"));
    assert!(!manifest_address("ftp://cdn.ex/a/index.m3u8"));
    assert!(!manifest_address(""));
}

#[test]
fn a_page_title_cannot_escape_the_save_directory() {
    assert_eq!(sanitize_file_name("../../etc/passwd"), "etc passwd");
    assert_eq!(
        sanitize_file_name("a/b\\c:d*e?f\"g<h>i|j"),
        "a b c d e f g h i j"
    );
    assert_eq!(sanitize_file_name("  ..  "), "");
    assert_eq!(sanitize_file_name(".hidden"), "hidden");
    assert_eq!(
        sanitize_file_name("Free HLS Player - Online M3U8 Player & Stream Tester | Castr"),
        "Free HLS Player - Online M3U8 Player & Stream Tester Castr"
    );
    assert_eq!(sanitize_file_name("a\u{0}b\nc"), "a b c");
    assert!(sanitize_file_name(&"x".repeat(400)).chars().count() <= 120);
    let title = "설치프로그램".repeat(60);
    let korean = sanitize_file_name(&title);
    assert!(
        korean.len() <= 250,
        "{} bytes is past what a filesystem takes",
        korean.len()
    );
    assert!(title.starts_with(&korean));
    assert!(!korean.is_empty());
}

fn file(path: &str, len: u64) -> DiskEntry {
    DiskEntry {
        path: path.into(),
        is_file: true,
        len,
        blocks: None,
    }
}

#[test]
fn the_duplicate_warning_needs_a_real_file_under_the_real_name() {
    let dir = "/dl";
    assert_eq!(collision_file(dir, "setup.exe", true, &Disk::unknown()), None);
    let disk = Disk {
        entries: vec![
            file("/dl/setup.exe", 3),
            DiskEntry {
                path: "/dl/Programs".into(),
                is_file: false,
                len: 0,
                blocks: None,
            },
        ],
        canonical: vec![],
    };
    assert_eq!(
        collision_file(dir, "setup.exe", true, &disk),
        Some("/dl/setup.exe".to_string())
    );
    assert_eq!(collision_file(dir, "setup.exe", false, &disk), None);
    assert_eq!(collision_file(dir, "Programs", true, &disk), None);
}

#[test]
fn plain_and_encoded_urls() {
    assert_eq!(
        url_ext("https://cdn.mozilla.net/pub/firefox/Firefox%20153.0.4.dmg"),
        Some("dmg".into())
    );
    assert_eq!(
        url_ext("https://x.y/a/b/tool-v1.2.3.tar.gz?token=abc#frag"),
        Some("tar.gz".into())
    );
    assert_eq!(url_ext("https://x.y/archive.ZIP"), Some("zip".into()));
}

#[test]
fn kinds_and_web_pages() {
    let en = Catalogue::english();
    assert_eq!(kind_for_name("setup.tar.gz", &en), "gzip-compressed tar archive");
    assert_eq!(kind_for_name("weird.xyz", &en), "XYZ file");
    assert_eq!(kind_for_name("meilisearch-linux-aarch64", &en), "File");
    assert_eq!(kind_for_name("tool-v1.2.3", &en), "File");
    assert!(is_web_page("index.html"));
    assert!(is_web_page("download.php"));
    assert!(!is_web_page("archive.zip"));
    for name in ["index.html", "a.PHP", "b.asp", "c.zip", "d.xyz", "e", "f.tar.gz"] {
        let kind = kind_for_name(name, &en);
        assert_eq!(
            is_web_page(name),
            kind == "HTML web page" || kind == "Server web page"
        );
    }
    assert!(!is_web_page("readme"));
}

#[test]
fn unknown_or_absent_extension() {
    let en = Catalogue::english();
    assert_eq!(url_ext("https://x.y/meilisearch-linux-aarch64"), None);
    assert_eq!(hint_for_url("https://x.y/page.html5up", &en), None);
    assert_eq!(url_ext("https://x.y/"), None);
    assert_eq!(hint_for_url("https://x.y/v1.2.3", &en), None);
}

#[test]
fn hint_spelling() {
    let en = Catalogue::english();
    assert_eq!(
        hint_for_url("https://x.y/Firefox%20153.0.4.dmg", &en),
        Some("DMG — Apple Disk Image (macOS)".into())
    );
    assert_eq!(hint_for_url("https://x.y/meilisearch-linux-aarch64", &en), None);
}

#[test]
fn escapes_decode_to_bytes_that_make_up_text() {
    assert_eq!(percent_decode("a%20b"), "a b");
    assert_eq!(percent_decode("caf%C3%A9"), "café");
    assert_eq!(percent_decode("100%"), "100%");
    assert_eq!(percent_decode("%zz"), "%zz");
    // Bytes that are no text are replaced.
    assert_eq!(percent_decode("%FF"), "\u{fffd}");
}

#[test]
fn clipboard_links_need_a_listed_type_or_a_known_host() {
    assert!(looks_downloadable("https://ex.com/a.zip", "zip"));
    assert!(!looks_downloadable("https://ex.com/a.zip", "exe"));
    assert!(!looks_downloadable("not an address", "zip"));
    assert!(type_listed("ZIP", "exe, zip"));
    assert!(!type_listed("zi", "exe, zip"));
}

#[test]
fn whitespace_is_what_the_standard_says_it_is() {
    for n in 0..=0x10ffff_u32 {
        if let Some(c) = char::from_u32(n) {
            assert_eq!(is_whitespace(c), c.is_whitespace(), "{n:x}");
        }
    }
}
