//! Registration with the browsers.
//!
//! A browser talks to the native-messaging host only if it finds a manifest
//! that names its binary, each browser in a directory of its own. Only
//! browsers that are present are touched, and a manifest that is already right
//! is left alone.
use crate::i18n::opt_str;
use crate::names::{file_in, join_file, join_path, path_in};
use crate::notes::{Note, NoteModel};
use crate::text::{cat, cat3, chars_of, same};
use vstd::prelude::*;

verus! {

/// A native-messaging host's name.
pub open spec fn host_name() -> Seq<char> {
    "com.playdl.host"@
}

/// The id of the Chromium extension.
pub open spec fn chrome_id() -> Seq<char> {
    "jpnonmbbkjdpeebdhkjoliklfhkdcomj"@
}

/// The id of the Firefox add-on.
pub open spec fn firefox_id() -> Seq<char> {
    "playdl@leeymxz.github.io"@
}

// ---------------------------------------------------------------- JSON strings

/// A hexadecimal digit in lower case.
pub open spec fn hex_digit(n: int) -> char {
    if n < 10 {
        ('0' as int + n) as char
    } else {
        ('a' as int + (n - 10)) as char
    }
}

/// A character as it stands in a JSON string.
pub open spec fn json_char(c: char) -> Seq<char> {
    if c == '"' {
        seq!['\\', '"']
    } else if c == '\\' {
        seq!['\\', '\\']
    } else if c == '\n' {
        seq!['\\', 'n']
    } else if c == '\r' {
        seq!['\\', 'r']
    } else if c == '\t' {
        seq!['\\', 't']
    } else if c <= '\u{1f}' {
        seq!['\\', 'u', '0', '0', hex_digit(c as int / 16), hex_digit(c as int % 16)]
    } else {
        seq![c]
    }
}

pub open spec fn json_body(s: Seq<char>) -> Seq<char>
    decreases s.len(),
{
    if s.len() == 0 {
        seq![]
    } else {
        json_body(s.drop_last()) + json_char(s.last())
    }
}

/// A text as a JSON string.
pub open spec fn quoted(s: Seq<char>) -> Seq<char> {
    seq!['"'] + json_body(s) + seq!['"']
}

fn hex(n: u32) -> (r: char)
    requires
        n < 16,
    ensures
        r == hex_digit(n as int),
{
    match n {
        0 => '0',
        1 => '1',
        2 => '2',
        3 => '3',
        4 => '4',
        5 => '5',
        6 => '6',
        7 => '7',
        8 => '8',
        9 => '9',
        10 => 'a',
        11 => 'b',
        12 => 'c',
        13 => 'd',
        14 => 'e',
        _ => 'f',
    }
}

fn push_json(out: &mut String, c: char)
    ensures
        final(out)@ == old(out)@ + json_char(c),
{
    let ghost before = out@;
    if c == '"' {
        out.push('\\');
        out.push('"');
    } else if c == '\\' {
        out.push('\\');
        out.push('\\');
    } else if c == '\n' {
        out.push('\\');
        out.push('n');
    } else if c == '\r' {
        out.push('\\');
        out.push('r');
    } else if c == '\t' {
        out.push('\\');
        out.push('t');
    } else if c <= '\u{1f}' {
        let n = c as u32;
        out.push('\\');
        out.push('u');
        out.push('0');
        out.push('0');
        out.push(hex(n / 16));
        out.push(hex(n % 16));
    } else {
        out.push(c);
    }
    assert(out@ =~= before + json_char(c));
}

/// A text as a JSON string.
pub fn json_str(s: &str) -> (r: String)
    ensures
        r@ == quoted(s@),
{
    let c = chars_of(s);
    let mut out = String::new();
    out.push('"');
    let mut i: usize = 0;
    assert(s@.take(0) =~= seq![]);
    assert(out@ =~= seq!['"'] + json_body(s@.take(0)));
    while i < c.len()
        invariant
            i <= c@.len(),
            c@ == s@,
            out@ == seq!['"'] + json_body(s@.take(i as int)),
        decreases c.len() - i,
    {
        proof {
            assert(s@.take(i + 1).drop_last() =~= s@.take(i as int));
            assert(s@.take(i + 1).last() == c@[i as int]);
        }
        push_json(&mut out, c[i]);
        assert(out@ =~= seq!['"'] + json_body(s@.take(i + 1)));
        i += 1;
    }
    assert(s@.take(i as int) =~= s@);
    out.push('"');
    assert(out@ =~= quoted(s@));
    out
}

// -------------------------------------------------------------------- manifests

/// Who may talk to the host. Chromium lists an extension's origin, Firefox an
/// add-on's id.
pub open spec fn allowance(gecko: bool) -> Seq<char> {
    if gecko {
        "\"allowed_extensions\": ["@ + quoted(firefox_id()) + "]"@
    } else {
        "\"allowed_origins\": ["@ + quoted("chrome-extension://"@ + chrome_id() + "/"@) + "]"@
    }
}

/// The manifest of the host at `path`.
pub open spec fn manifest_text(path: Seq<char>, gecko: bool) -> Seq<char> {
    "{\n  \"name\": "@ + quoted(host_name())
        + ",\n  \"description\": \"PlayDL Download Manager native host\",\n  \"path\": "@ + quoted(
        path,
    ) + ",\n  \"type\": \"stdio\",\n  "@ + allowance(gecko) + "\n}\n"@
}

fn allow(gecko: bool) -> (r: String)
    ensures
        r@ == allowance(gecko),
{
    if gecko {
        cat3("\"allowed_extensions\": [", &json_str("playdl@leeymxz.github.io"), "]")
    } else {
        cat3(
            "\"allowed_origins\": [",
            &json_str(&cat3("chrome-extension://", "jpnonmbbkjdpeebdhkjoliklfhkdcomj", "/")),
            "]",
        )
    }
}

/// The manifest that tells a browser where the host is and who may talk to it.
pub fn manifest(path: &str, gecko: bool) -> (r: String)
    ensures
        r@ == manifest_text(path@, gecko),
{
    let head = cat3(
        "{\n  \"name\": ",
        &json_str("com.playdl.host"),
        ",\n  \"description\": \"PlayDL Download Manager native host\",\n  \"path\": ",
    );
    let body = cat3(&head, &json_str(path), ",\n  \"type\": \"stdio\",\n  ");
    cat3(&body, &allow(gecko), "\n}\n")
}

/// Where the host's binary is: beside the program.
pub fn host_binary(dir: &str, windows: bool) -> (r: String)
    ensures
        r@ == file_in(
            dir@,
            if windows {
                "playdl-host.exe"@
            } else {
                "playdl-host"@
            },
            windows,
        ),
{
    let name = if windows {
        "playdl-host.exe"
    } else {
        "playdl-host"
    };
    join_file(dir, name, windows)
}

// --------------------------------------------------------------------- browsers

/// A browser: the directory whose presence tells that it is installed, the
/// directory of its manifests, and which dialect it reads.
#[derive(Debug)]
pub struct Target {
    pub root: String,
    pub dir: String,
    pub gecko: bool,
}

/// The model of [`Target`].
#[verifier::ext_equal]
pub struct TargetModel {
    pub root: Seq<char>,
    pub dir: Seq<char>,
    pub gecko: bool,
}

impl View for Target {
    type V = TargetModel;

    open spec fn view(&self) -> TargetModel {
        TargetModel { root: self.root@, dir: self.dir@, gecko: self.gecko }
    }
}

impl DeepView for Target {
    type V = TargetModel;

    open spec fn deep_view(&self) -> TargetModel {
        self@
    }
}

/// A Chromium browser keeps its manifests inside its own root.
pub open spec fn chromium_at(root: Seq<char>) -> TargetModel {
    TargetModel { root, dir: path_in(root, "NativeMessagingHosts"@), gecko: false }
}

/// A Mozilla browser.
pub open spec fn gecko_at(root: Seq<char>, dir: Seq<char>) -> TargetModel {
    TargetModel { root, dir, gecko: true }
}

fn chromium(root: String) -> (r: Target)
    ensures
        r@ == chromium_at(root@),
{
    let dir = join_path(&root, "NativeMessagingHosts");
    Target { root, dir, gecko: false }
}

fn gecko(base: &str, root: &str, dir: &str) -> (r: Target)
    ensures
        r@ == gecko_at(path_in(base@, root@), path_in(base@, dir@)),
{
    Target { root: join_path(base, root), dir: join_path(base, dir), gecko: true }
}

fn push_chromium(v: &mut Vec<Target>, base: &str, sub: &str)
    ensures
        final(v).deep_view() == old(v).deep_view().push(chromium_at(path_in(base@, sub@))),
{
    let ghost before = v.deep_view();
    let t = chromium(join_path(base, sub));
    v.push(t);
    assert(v.deep_view() =~= before.push(t@));
}

fn push_gecko(v: &mut Vec<Target>, base: &str, root: &str, dir: &str)
    ensures
        final(v).deep_view() == old(v).deep_view().push(
            gecko_at(path_in(base@, root@), path_in(base@, dir@)),
        ),
{
    let ghost before = v.deep_view();
    let t = gecko(base, root, dir);
    v.push(t);
    assert(v.deep_view() =~= before.push(t@));
}

/// The browsers of a Linux machine. Those that came as a snap or a flatpak keep
/// everything in a tree of their own.
pub open spec fn linux_targets(home: Seq<char>) -> Seq<TargetModel> {
    let cfg = path_in(home, ".config"@);
    let snap = path_in(home, "snap"@);
    let flat = path_in(home, ".var/app"@);
    seq![
        chromium_at(path_in(cfg, "google-chrome"@)),
        chromium_at(path_in(cfg, "google-chrome-beta"@)),
        chromium_at(path_in(cfg, "chromium"@)),
        chromium_at(path_in(cfg, "microsoft-edge"@)),
        chromium_at(path_in(cfg, "BraveSoftware/Brave-Browser"@)),
        chromium_at(path_in(cfg, "vivaldi"@)),
        chromium_at(path_in(cfg, "opera"@)),
        chromium_at(path_in(snap, "chromium/common/chromium"@)),
        chromium_at(path_in(flat, "com.google.Chrome/config/google-chrome"@)),
        chromium_at(path_in(flat, "org.chromium.Chromium/config/chromium"@)),
        chromium_at(path_in(flat, "com.brave.Browser/config/BraveSoftware/Brave-Browser"@)),
        chromium_at(path_in(flat, "com.microsoft.Edge/config/microsoft-edge"@)),
        gecko_at(path_in(home, ".mozilla"@), path_in(home, ".mozilla/native-messaging-hosts"@)),
        gecko_at(path_in(home, ".librewolf"@), path_in(home, ".librewolf/native-messaging-hosts"@)),
        gecko_at(
            path_in(snap, "firefox/common/.mozilla"@),
            path_in(snap, "firefox/common/.mozilla/native-messaging-hosts"@),
        ),
        gecko_at(
            path_in(flat, "org.mozilla.firefox/.mozilla"@),
            path_in(flat, "org.mozilla.firefox/.mozilla/native-messaging-hosts"@),
        ),
        gecko_at(
            path_in(flat, "io.gitlab.librewolf-community/.librewolf"@),
            path_in(flat, "io.gitlab.librewolf-community/.librewolf/native-messaging-hosts"@),
        ),
    ]
}

/// The browsers of a Mac.
pub open spec fn mac_targets(home: Seq<char>) -> Seq<TargetModel> {
    let sup = path_in(home, "Library/Application Support"@);
    seq![
        chromium_at(path_in(sup, "Google/Chrome"@)),
        chromium_at(path_in(sup, "Google/Chrome Beta"@)),
        chromium_at(path_in(sup, "Chromium"@)),
        chromium_at(path_in(sup, "Microsoft Edge"@)),
        chromium_at(path_in(sup, "BraveSoftware/Brave-Browser"@)),
        chromium_at(path_in(sup, "Vivaldi"@)),
        chromium_at(path_in(sup, "com.operasoftware.Opera"@)),
        chromium_at(path_in(sup, "Arc/User Data"@)),
        gecko_at(path_in(sup, "Firefox"@), path_in(sup, "Mozilla/NativeMessagingHosts"@)),
        gecko_at(path_in(sup, "LibreWolf"@), path_in(sup, "LibreWolf/NativeMessagingHosts"@)),
    ]
}

/// The browsers that may be on a Linux machine of the user with this home.
pub fn targets(home: &str) -> (r: Vec<Target>)
    ensures
        r.deep_view() == linux_targets(home@),
{
    let cfg = join_path(home, ".config");
    let snap = join_path(home, "snap");
    let flat = join_path(home, ".var/app");
    let mut v: Vec<Target> = Vec::new();
    assert(v.deep_view() =~= seq![]);
    push_chromium(&mut v, &cfg, "google-chrome");
    push_chromium(&mut v, &cfg, "google-chrome-beta");
    push_chromium(&mut v, &cfg, "chromium");
    push_chromium(&mut v, &cfg, "microsoft-edge");
    push_chromium(&mut v, &cfg, "BraveSoftware/Brave-Browser");
    push_chromium(&mut v, &cfg, "vivaldi");
    push_chromium(&mut v, &cfg, "opera");
    push_chromium(&mut v, &snap, "chromium/common/chromium");
    push_chromium(&mut v, &flat, "com.google.Chrome/config/google-chrome");
    push_chromium(&mut v, &flat, "org.chromium.Chromium/config/chromium");
    push_chromium(&mut v, &flat, "com.brave.Browser/config/BraveSoftware/Brave-Browser");
    push_chromium(&mut v, &flat, "com.microsoft.Edge/config/microsoft-edge");
    push_gecko(&mut v, home, ".mozilla", ".mozilla/native-messaging-hosts");
    push_gecko(&mut v, home, ".librewolf", ".librewolf/native-messaging-hosts");
    push_gecko(
        &mut v,
        &snap,
        "firefox/common/.mozilla",
        "firefox/common/.mozilla/native-messaging-hosts",
    );
    push_gecko(
        &mut v,
        &flat,
        "org.mozilla.firefox/.mozilla",
        "org.mozilla.firefox/.mozilla/native-messaging-hosts",
    );
    push_gecko(
        &mut v,
        &flat,
        "io.gitlab.librewolf-community/.librewolf",
        "io.gitlab.librewolf-community/.librewolf/native-messaging-hosts",
    );
    assert(v.deep_view() =~= linux_targets(home@));
    v
}

/// The browsers that may be on a Mac.
pub fn targets_mac(home: &str) -> (r: Vec<Target>)
    ensures
        r.deep_view() == mac_targets(home@),
{
    let sup = join_path(home, "Library/Application Support");
    let mut v: Vec<Target> = Vec::new();
    assert(v.deep_view() =~= seq![]);
    push_chromium(&mut v, &sup, "Google/Chrome");
    push_chromium(&mut v, &sup, "Google/Chrome Beta");
    push_chromium(&mut v, &sup, "Chromium");
    push_chromium(&mut v, &sup, "Microsoft Edge");
    push_chromium(&mut v, &sup, "BraveSoftware/Brave-Browser");
    push_chromium(&mut v, &sup, "Vivaldi");
    push_chromium(&mut v, &sup, "com.operasoftware.Opera");
    push_chromium(&mut v, &sup, "Arc/User Data");
    push_gecko(&mut v, &sup, "Firefox", "Mozilla/NativeMessagingHosts");
    push_gecko(&mut v, &sup, "LibreWolf", "LibreWolf/NativeMessagingHosts");
    assert(v.deep_view() =~= mac_targets(home@));
    v
}

// ---------------------------------------------------------------- what to write

/// What was found where a browser keeps its manifests.
#[derive(Debug)]
pub struct Found {
    /// The browser is installed.
    pub installed: bool,
    /// What its manifest says now.
    pub current: Option<String>,
}

/// Where a browser's manifest lies.
pub open spec fn manifest_file(dir: Seq<char>) -> Seq<char> {
    path_in(dir, host_name() + ".json"@)
}

/// The file to write, if there is any: none for a browser that is absent, and
/// none where the manifest already says the same.
pub open spec fn to_write(dir: Seq<char>, found: Found, body: Seq<char>) -> Option<Seq<char>> {
    if !found.installed {
        None
    } else if found.current is Some && found.current->0@ == body {
        None
    } else {
        Some(manifest_file(dir))
    }
}

/// Decides whether a manifest is to be written, and where.
pub fn write_manifest(dir: &str, found: &Found, body: &str) -> (r: Option<String>)
    ensures
        r.deep_view() == to_write(dir@, *found, body@),
{
    if !found.installed {
        return None;
    }
    if let Some(cur) = &found.current {
        if same(cur, body) {
            return None;
        }
    }
    Some(join_path(dir, &cat("com.playdl.host", ".json")))
}

/// The manifests to write for the host at `host`.
pub open spec fn writes(host: Seq<char>, v: Seq<TargetModel>, found: Seq<Found>) -> Seq<
    (Seq<char>, Seq<char>),
>
    decreases v.len(),
{
    if v.len() == 0 {
        seq![]
    } else {
        let r = writes(host, v.drop_last(), found);
        let t = v.last();
        let i = v.len() - 1;
        if i < found.len() {
            match to_write(t.dir, found[i], manifest_text(host, t.gecko)) {
                Some(file) => r.push((file, manifest_text(host, t.gecko))),
                None => r,
            }
        } else {
            r
        }
    }
}

/// Registers the host with every browser that is there: the files to write, each
/// with what to write into it. `found` goes along with the targets; a target
/// that nothing was found out about is left alone. A profile of its own
/// registers nothing, because the manifest would lead every browser to the
/// ordinary install.
pub fn ensure_registered(
    host: &str,
    targets: &Vec<Target>,
    found: &Vec<Found>,
    own_profile: bool,
) -> (r: Vec<(String, String)>)
    ensures
        r.deep_view() == (if own_profile {
            seq![]
        } else {
            writes(host@, targets.deep_view(), found@)
        }),
{
    let mut r: Vec<(String, String)> = Vec::new();
    assert(r.deep_view() =~= seq![]);
    if own_profile {
        return r;
    }
    let ghost all = targets.deep_view();
    let mut i: usize = 0;
    assert(all.take(0) =~= seq![]);
    while i < targets.len()
        invariant
            i <= targets@.len(),
            all == targets.deep_view(),
            r.deep_view() == writes(host@, all.take(i as int), found@),
        decreases targets.len() - i,
    {
        proof {
            assert(all.take(i + 1).drop_last() =~= all.take(i as int));
            assert(all.take(i + 1).last() == targets@[i as int]@);
        }
        if i < found.len() {
            let body = manifest(host, targets[i].gecko);
            if let Some(file) = write_manifest(&targets[i].dir, &found[i], &body) {
                let ghost before = r.deep_view();
                let w = (file, body);
                r.push(w);
                assert(r.deep_view() =~= before.push((w.0@, w.1@)));
            }
        }
        i += 1;
    }
    assert(all.take(i as int) =~= all);
    r
}

/// Why nothing is registered, where nothing is: the browsers belong to the
/// default profile, the host is not there, or nobody knows whose browsers they
/// are, which Windows does not ask.
pub open spec fn refusal(profile: Option<Seq<char>>, host: bool, home: bool, windows: bool) -> Option<
    NoteModel,
> {
    match profile {
        Some(dir) => Some(NoteModel::BrowsersElsewhere { dir }),
        None => if !host {
            Some(NoteModel::NoHost)
        } else if !home && !windows {
            Some(NoteModel::NoHome)
        } else {
            None
        },
    }
}

/// Why nothing is registered, for the log. `profile` is the folder of a profile
/// of its own; `host` and `home` tell whether the host and the user's folder were
/// found.
pub fn may_register(profile: Option<&str>, host: bool, home: bool, windows: bool) -> (r: Option<Note>)
    ensures
        r.deep_view() == refusal(opt_str(profile), host, home, windows),
{
    if let Some(dir) = profile {
        return Some(Note::BrowsersElsewhere { dir: dir.to_owned() });
    }
    if !host {
        Some(Note::NoHost)
    } else if !home && !windows {
        Some(Note::NoHome)
    } else {
        None
    }
}

// ---------------------------------------------------------------------- Windows

/// The key of a browser under the user's registry, and whether it is a Mozilla
/// one.
pub open spec fn registry_keys() -> Seq<(Seq<char>, bool)> {
    seq![
        ("Software\\Google\\Chrome\\NativeMessagingHosts"@, false),
        ("Software\\Chromium\\NativeMessagingHosts"@, false),
        ("Software\\Microsoft\\Edge\\NativeMessagingHosts"@, false),
        ("Software\\BraveSoftware\\Brave-Browser\\NativeMessagingHosts"@, false),
        ("Software\\Vivaldi\\NativeMessagingHosts"@, false),
        ("Software\\Opera Software\\NativeMessagingHosts"@, false),
        ("Software\\Mozilla\\NativeMessagingHosts"@, true),
    ]
}

/// The manifest of a dialect in the program's own directory.
pub open spec fn own_manifest(dir: Seq<char>, gecko: bool) -> Seq<char> {
    file_in(
        dir,
        host_name() + (if gecko {
            ".firefox.json"@
        } else {
            ".json"@
        }),
        true,
    )
}

/// Each browser's key, with the manifest that it has to name.
pub open spec fn registry_entries(dir: Seq<char>) -> Seq<(Seq<char>, Seq<char>)> {
    registry_keys().map_values(
        |k: (Seq<char>, bool)| (k.0 + "\\"@ + host_name(), own_manifest(dir, k.1)),
    )
}

fn manifest_here(dir: &str, gecko: bool) -> (r: String)
    ensures
        r@ == own_manifest(dir@, gecko),
{
    join_file(
        dir,
        &cat(
            "com.playdl.host",
            if gecko {
                ".firefox.json"
            } else {
                ".json"
            },
        ),
        true,
    )
}

fn put_key(v: &mut Vec<(String, String)>, key: &str, gecko: bool, dir: &str)
    ensures
        final(v).deep_view() == old(v).deep_view().push(
            (key@ + "\\"@ + host_name(), own_manifest(dir@, gecko)),
        ),
{
    let ghost before = v.deep_view();
    let e = (cat3(key, "\\", "com.playdl.host"), manifest_here(dir, gecko));
    v.push(e);
    assert(v.deep_view() =~= before.push((e.0@, e.1@)));
}

/// The keys to set on Windows, where a browser is told where its manifest is.
/// Setting one for a browser that is not there does no harm, and serves one that
/// is installed later.
pub fn windows_entries(dir: &str) -> (r: Vec<(String, String)>)
    ensures
        r.deep_view() == registry_entries(dir@),
{
    let mut v: Vec<(String, String)> = Vec::new();
    assert(v.deep_view() =~= seq![]);
    put_key(&mut v, "Software\\Google\\Chrome\\NativeMessagingHosts", false, dir);
    put_key(&mut v, "Software\\Chromium\\NativeMessagingHosts", false, dir);
    put_key(&mut v, "Software\\Microsoft\\Edge\\NativeMessagingHosts", false, dir);
    put_key(&mut v, "Software\\BraveSoftware\\Brave-Browser\\NativeMessagingHosts", false, dir);
    put_key(&mut v, "Software\\Vivaldi\\NativeMessagingHosts", false, dir);
    put_key(&mut v, "Software\\Opera Software\\NativeMessagingHosts", false, dir);
    put_key(&mut v, "Software\\Mozilla\\NativeMessagingHosts", true, dir);
    assert(v.deep_view() =~= registry_entries(dir@));
    v
}

/// The manifest of one dialect to write on Windows, unless it is there already:
/// its file and its text.
pub fn windows_manifest(dir: &str, host: &str, gecko: bool, current: Option<&str>) -> (r: Option<
    (String, String),
>)
    ensures
        r.deep_view() == (if current is Some && current->0@ == manifest_text(host@, gecko) {
            None
        } else {
            Some((own_manifest(dir@, gecko), manifest_text(host@, gecko)))
        }),
{
    let body = manifest(host, gecko);
    if let Some(cur) = current {
        if same(cur, &body) {
            return None;
        }
    }
    Some((manifest_here(dir, gecko), body))
}

// ------------------------------------------------------------------------- laws

/// A hexadecimal digit's value.
pub open spec fn hex_value(c: char) -> int {
    if c <= '9' {
        c as int - '0' as int
    } else {
        c as int - 'a' as int + 10
    }
}

/// What the inside of a JSON string stands for, for the escapes that are
/// written here.
pub open spec fn json_read(s: Seq<char>) -> Seq<char>
    decreases s.len(),
{
    if s.len() == 0 {
        seq![]
    } else if s[0] != '\\' {
        seq![s[0]] + json_read(s.skip(1))
    } else if s.len() < 2 {
        seq![]
    } else if s[1] == 'u' {
        if s.len() < 6 {
            seq![]
        } else {
            seq![(hex_value(s[4]) * 16 + hex_value(s[5])) as char] + json_read(s.skip(6))
        }
    } else {
        let c = if s[1] == 'n' {
            '\n'
        } else if s[1] == 'r' {
            '\r'
        } else if s[1] == 't' {
            '\t'
        } else {
            s[1]
        };
        seq![c] + json_read(s.skip(2))
    }
}

/// The body of a JSON string, from the front.
proof fn lemma_body_front(s: Seq<char>)
    requires
        s.len() > 0,
    ensures
        json_body(s) == json_char(s[0]) + json_body(s.skip(1)),
    decreases s.len(),
{
    if s.len() == 1 {
        assert(s.drop_last() =~= seq![]);
        assert(s.skip(1) =~= seq![]);
        assert(json_body(s.drop_last()) =~= seq![]);
        assert(json_body(s.skip(1)) =~= seq![]);
        assert(json_body(s) =~= json_char(s[0]) + json_body(s.skip(1)));
    } else {
        let t = s.drop_last();
        lemma_body_front(t);
        assert(t.skip(1) =~= s.skip(1).drop_last());
        assert(s.skip(1).last() == s.last());
        assert(json_body(s) =~= json_char(s[0]) + (json_body(t.skip(1)) + json_char(s.last())));
    }
}

proof fn lemma_read_one(c: char, rest: Seq<char>)
    ensures
        json_read(json_char(c) + rest) == seq![c] + json_read(rest),
{
    let s = json_char(c) + rest;
    let n = json_char(c).len() as int;
    assert(s.skip(n) =~= rest);
    assert forall|i: int| 0 <= i < n implies s[i] == json_char(c)[i] by {}
    if c != '"' && c != '\\' && c != '\n' && c != '\r' && c != '\t' && c <= '\u{1f}' {
        let v = c as int;
        assert(0 <= v <= 31);
        assert(s[4] == hex_digit(v / 16));
        assert(s[5] == hex_digit(v % 16));
        assert(hex_value(hex_digit(v / 16)) == v / 16);
        assert(hex_value(hex_digit(v % 16)) == v % 16);
        assert((v / 16) * 16 + v % 16 == v);
    }
}

/// What was quoted reads back as it was, whatever it holds.
pub proof fn quoting_is_undone_by_reading(s: Seq<char>)
    ensures
        json_read(json_body(s)) == s,
    decreases s.len(),
{
    if s.len() == 0 {
        assert(json_body(s) =~= seq![]);
        assert(json_read(json_body(s)) =~= s);
    } else {
        lemma_body_front(s);
        lemma_read_one(s[0], json_body(s.skip(1)));
        quoting_is_undone_by_reading(s.skip(1));
        assert(seq![s[0]] + s.skip(1) =~= s);
    }
}

/// Writing what was decided, and deciding again, writes nothing.
pub proof fn registering_twice_writes_once(dir: Seq<char>, body: String)
    ensures
        to_write(dir, Found { installed: true, current: Some(body) }, body@) is None,
{
}

/// Nothing is written for a browser that is absent.
pub proof fn absent_browsers_are_left_alone(dir: Seq<char>, current: Option<String>, body: Seq<char>)
    ensures
        to_write(dir, Found { installed: false, current }, body) is None,
{
}

} // verus!
