//! "Launch on startup": the login item, in the form each desktop wants it.
//!
//! A Mac has a launch agent, Linux an autostart entry, Windows a command
//! under the Run key. A minimized start comes up in the tray.
use crate::i18n::opt_str;
use crate::log::{between, text_between};
use crate::names::{first_file, join_path, path_in, pick_file, Disk, DiskModel};
use crate::notes::{Note, NoteModel};
use crate::text::{
    begins, cat3, chars_of, contains, ends, ends_with, find_text, first_text, has, joined, same,
    segments, split_segments, starts_with, views,
};
use vstd::prelude::*;

verus! {

/// The desktop a login item is written for.
#[derive(Clone, Copy, PartialEq, Eq, Structural, Debug)]
pub enum Desktop {
    Mac,
    Linux,
    Windows,
}

/// The file of the login item; Windows has none.
pub open spec fn entry_file(home: Seq<char>, desktop: Desktop) -> Option<Seq<char>> {
    match desktop {
        Desktop::Mac => Some(
            path_in(home, "Library/LaunchAgents/io.github.ja7ad.hydra.plist"@),
        ),
        Desktop::Linux => Some(path_in(home, ".config/autostart/hydra.desktop"@)),
        Desktop::Windows => None,
    }
}

pub fn entry_path(home: &str, desktop: Desktop) -> (r: Option<String>)
    ensures
        r.deep_view() == entry_file(home@, desktop),
{
    match desktop {
        Desktop::Mac => Some(join_path(home, "Library/LaunchAgents/io.github.ja7ad.hydra.plist")),
        Desktop::Linux => Some(join_path(home, ".config/autostart/hydra.desktop")),
        Desktop::Windows => None,
    }
}

/// The launch agent of a Mac.
pub open spec fn agent_text(exe: Seq<char>, minimized: bool) -> Seq<char> {
    "<?xml version=\"1.0\" encoding=\"UTF-8\"?>\n<!DOCTYPE plist PUBLIC \"-//Apple//DTD PLIST 1.0//EN\" \"http://www.apple.com/DTDs/PropertyList-1.0.dtd\">\n<plist version=\"1.0\">\n<dict>\n    <key>Label</key>\n    <string>io.github.ja7ad.hydra</string>\n    <key>ProgramArguments</key>\n    <array>\n        <string>"@
        + exe + "</string>\n"@ + (if minimized {
        "        <string>--minimized</string>\n"@
    } else {
        ""@
    }) + "    </array>\n    <key>RunAtLoad</key>\n    <true/>\n</dict>\n</plist>\n"@
}

fn agent(exe: &str, minimized: bool) -> (r: String)
    ensures
        r@ == agent_text(exe@, minimized),
{
    let arg = if minimized {
        "        <string>--minimized</string>\n"
    } else {
        ""
    };
    let head = cat3(
        "<?xml version=\"1.0\" encoding=\"UTF-8\"?>\n<!DOCTYPE plist PUBLIC \"-//Apple//DTD PLIST 1.0//EN\" \"http://www.apple.com/DTDs/PropertyList-1.0.dtd\">\n<plist version=\"1.0\">\n<dict>\n    <key>Label</key>\n    <string>io.github.ja7ad.hydra</string>\n    <key>ProgramArguments</key>\n    <array>\n        <string>",
        exe,
        "</string>\n",
    );
    cat3(
        &head,
        arg,
        "    </array>\n    <key>RunAtLoad</key>\n    <true/>\n</dict>\n</plist>\n",
    )
}

/// The autostart entry of a Linux desktop.
pub open spec fn desktop_text(exe: Seq<char>, minimized: bool) -> Seq<char> {
    "[Desktop Entry]\nType=Application\nName=Hydra Download Manager\nExec=\""@ + exe + "\" "@ + (
    if minimized {
        "--minimized"@
    } else {
        ""@
    }) + "\nX-GNOME-Autostart-enabled=true\n"@
}

fn desktop_entry(exe: &str, minimized: bool) -> (r: String)
    ensures
        r@ == desktop_text(exe@, minimized),
{
    let arg = if minimized {
        "--minimized"
    } else {
        ""
    };
    let head = cat3(
        "[Desktop Entry]\nType=Application\nName=Hydra Download Manager\nExec=\"",
        exe,
        "\" ",
    );
    cat3(&head, arg, "\nX-GNOME-Autostart-enabled=true\n")
}

/// The entry that hides one that a package has put in place for all users.
pub open spec fn masked_text() -> Seq<char> {
    "[Desktop Entry]\nType=Application\nName=Hydra Download Manager\nHidden=true\n"@
}

/// The command under the Run key of Windows.
pub open spec fn run_text(exe: Seq<char>, minimized: bool) -> Seq<char> {
    "\""@ + exe + (if minimized {
        "\" --minimized"@
    } else {
        "\""@
    })
}

fn run_command(exe: &str, minimized: bool) -> (r: String)
    ensures
        r@ == run_text(exe@, minimized),
{
    cat3(
        "\"",
        exe,
        if minimized {
            "\" --minimized"
        } else {
            "\""
        },
    )
}

/// What has to be done to the login item.
#[derive(Debug)]
pub enum LoginItem {
    /// It is as it should be, or not this program's to change.
    Leave,
    /// Write it: the file's content, or the command.
    Write(String),
    /// Take it away.
    Remove,
}

/// The model of [`LoginItem`].
pub enum LoginItemModel {
    Leave,
    Write(Seq<char>),
    Remove,
}

impl View for LoginItem {
    type V = LoginItemModel;

    open spec fn view(&self) -> LoginItemModel {
        match *self {
            LoginItem::Leave => LoginItemModel::Leave,
            LoginItem::Write(s) => LoginItemModel::Write(s@),
            LoginItem::Remove => LoginItemModel::Remove,
        }
    }
}

/// The item that launches `exe`.
pub open spec fn item_text(desktop: Desktop, exe: Seq<char>, minimized: bool) -> Seq<char> {
    match desktop {
        Desktop::Mac => agent_text(exe, minimized),
        Desktop::Linux => desktop_text(exe, minimized),
        Desktop::Windows => run_text(exe, minimized),
    }
}

/// What the settings ask of the login item, given what it says now and the
/// executable it should launch, where that is known.
pub open spec fn login_item(
    desktop: Desktop,
    enabled: bool,
    minimized: bool,
    own_profile: bool,
    exe: Option<Seq<char>>,
    current: Option<Seq<char>>,
) -> LoginItemModel {
    if own_profile {
        LoginItemModel::Leave
    } else if !enabled {
        if desktop == Desktop::Linux {
            LoginItemModel::Write(masked_text())
        } else if current is Some {
            LoginItemModel::Remove
        } else {
            LoginItemModel::Leave
        }
    } else {
        match exe {
            Some(e) => if current == Some(item_text(desktop, e, minimized)) {
                LoginItemModel::Leave
            } else {
                LoginItemModel::Write(item_text(desktop, e, minimized))
            },
            None => LoginItemModel::Leave,
        }
    }
}

fn item(desktop: Desktop, exe: &str, minimized: bool) -> (r: String)
    ensures
        r@ == item_text(desktop, exe@, minimized),
{
    match desktop {
        Desktop::Mac => agent(exe, minimized),
        Desktop::Linux => desktop_entry(exe, minimized),
        Desktop::Windows => run_command(exe, minimized),
    }
}

/// Brings the login item in line with the settings. A profile of its own leaves
/// it alone: there is one per user, and the ordinary install owns it. On Linux a
/// switched-off item is masked rather than removed, because removing it would
/// let an entry of all users apply again.
pub fn apply(
    desktop: Desktop,
    enabled: bool,
    minimized: bool,
    own_profile: bool,
    exe: Option<String>,
    current: Option<String>,
) -> (r: LoginItem)
    ensures
        r@ == login_item(
            desktop,
            enabled,
            minimized,
            own_profile,
            exe.deep_view(),
            current.deep_view(),
        ),
{
    if own_profile {
        return LoginItem::Leave;
    }
    if !enabled {
        if desktop == Desktop::Linux {
            return LoginItem::Write(
                "[Desktop Entry]\nType=Application\nName=Hydra Download Manager\nHidden=true\n".to_owned(),
            );
        }
        return if current.is_some() {
            LoginItem::Remove
        } else {
            LoginItem::Leave
        };
    }
    let e = match exe {
        Some(e) => e,
        None => return LoginItem::Leave,
    };
    let content = item(desktop, &e, minimized);
    if let Some(cur) = &current {
        if same(cur, &content) {
            return LoginItem::Leave;
        }
    }
    LoginItem::Write(content)
}

// ------------------------------------------------------------ transient copies

/// A path that is gone by the next login: a copy that macOS translocated, or one
/// run straight out of a disk image.
pub open spec fn transient(path: Seq<char>) -> bool {
    contains(path, "/AppTranslocation/"@) || begins(path, "/Volumes/"@) || begins(
        path,
        "/private/var/folders/"@,
    ) || begins(path, "/var/folders/"@)
}

/// The place of the last bundle among the parts of a path; -1 without one.
pub open spec fn bundle_at(parts: Seq<Seq<char>>) -> int
    decreases parts.len(),
{
    if parts.len() == 0 {
        -1
    } else if ends(parts.last(), ".app"@) {
        parts.len() - 1
    } else {
        bundle_at(parts.drop_last())
    }
}

/// The parts of a path that name something.
pub open spec fn path_parts(path: Seq<char>) -> Seq<Seq<char>> {
    segments(path, '/').filter(|p: Seq<char>| p != "."@)
}

/// The same bundle under the folders that hold installed programs.
pub open spec fn installed_places(path: Seq<char>, home: Option<Seq<char>>) -> Seq<Seq<char>> {
    let parts = path_parts(path);
    let i = bundle_at(parts);
    if i < 0 {
        seq![]
    } else {
        let inner = joined(parts.skip(i + 1), "/"@);
        match home {
            Some(h) => seq![
                path_in(path_in("/Applications"@, parts[i]), inner),
                path_in(path_in(path_in(h, "Applications"@), parts[i]), inner),
            ],
            None => seq![path_in(path_in("/Applications"@, parts[i]), inner)],
        }
    }
}

/// The executable that a login item may name: the one that runs, or the
/// installed copy of one that will be gone.
pub open spec fn stable_exe(path: Seq<char>, home: Option<Seq<char>>, disk: DiskModel) -> Option<
    Seq<char>,
> {
    if transient(path) {
        first_file(installed_places(path, home), disk)
    } else {
        Some(path)
    }
}

fn named_parts(path: &str) -> (r: Vec<String>)
    ensures
        views(r@) == path_parts(path@),
{
    let all = split_segments(path, '/');
    let ghost named = |p: Seq<char>| p != "."@;
    let ghost parts = views(all@);
    let mut r: Vec<String> = Vec::new();
    let mut i: usize = 0;
    proof {
        reveal(Seq::filter);
        assert(parts.take(0) =~= seq![]);
        assert(views(r@) =~= seq![]);
    }
    while i < all.len()
        invariant
            i <= all@.len(),
            parts == views(all@),
            named == |p: Seq<char>| p != "."@,
            views(r@) == parts.take(i as int).filter(named),
        decreases all.len() - i,
    {
        proof {
            reveal(Seq::filter);
            assert(parts.take(i + 1).drop_last() =~= parts.take(i as int));
            assert(parts.take(i + 1).last() == all@[i as int]@);
        }
        if !same(&all[i], ".") {
            let ghost before = r@;
            r.push(all[i].clone());
            assert(views(r@) =~= views(before).push(all@[i as int]@));
        }
        i += 1;
    }
    assert(parts.take(i as int) =~= parts);
    r
}

fn find_bundle(parts: &Vec<String>) -> (r: Option<usize>)
    ensures
        match r {
            Some(i) => i < parts@.len() && i == bundle_at(views(parts@)),
            None => bundle_at(views(parts@)) < 0,
        },
{
    let ghost all = views(parts@);
    let mut n: usize = parts.len();
    assert(all.take(n as int) =~= all);
    while n > 0
        invariant
            n <= parts@.len(),
            all == views(parts@),
            bundle_at(all) == bundle_at(all.take(n as int)),
        decreases n,
    {
        proof {
            assert(all.take(n as int).drop_last() =~= all.take(n - 1));
            assert(all.take(n as int).last() == parts@[n - 1]@);
        }
        if ends_with(&parts[n - 1], ".app") {
            return Some(n - 1);
        }
        n -= 1;
    }
    None
}

fn tail_path(parts: &Vec<String>, i: usize) -> (r: String)
    requires
        i <= parts@.len(),
    ensures
        r@ == joined(views(parts@).skip(i as int), "/"@),
{
    let mut v: Vec<String> = Vec::new();
    let mut k: usize = i;
    while k < parts.len()
        invariant
            i <= k <= parts@.len(),
            v@.len() == k - i,
            forall|j: int| 0 <= j < v@.len() ==> (#[trigger] v@[j])@ == parts@[i + j]@,
        decreases parts.len() - k,
    {
        v.push(parts[k].clone());
        k += 1;
    }
    assert(views(v@) =~= views(parts@).skip(i as int));
    crate::text::join(&v, "/")
}

/// The places where a bundle that runs from a transient place may be installed;
/// none for a program that will still be there.
pub fn installed_candidates(path: &str, home: Option<&str>) -> (r: Vec<String>)
    ensures
        r.deep_view() == (if transient(path@) {
            installed_places(path@, opt_str(home))
        } else {
            seq![]
        }),
{
    let mut r: Vec<String> = Vec::new();
    assert(r.deep_view() =~= seq![]);
    if !is_transient(path) {
        return r;
    }
    let parts = named_parts(path);
    let i = match find_bundle(&parts) {
        Some(i) => i,
        None => {
            return r;
        },
    };
    let inner = tail_path(&parts, i + 1);
    r.push(join_path(&join_path("/Applications", &parts[i]), &inner));
    if let Some(h) = home {
        let root = join_path(h, "Applications");
        r.push(join_path(&join_path(&root, &parts[i]), &inner));
    }
    assert(r.deep_view() =~= installed_places(path@, opt_str(home)));
    r
}

fn is_transient(path: &str) -> (r: bool)
    ensures
        r == transient(path@),
{
    has(path, "/AppTranslocation/") || starts_with(path, "/Volumes/") || starts_with(
        path,
        "/private/var/folders/",
    ) || starts_with(path, "/var/folders/")
}

/// The executable to name in place of `path`, if there is one.
pub fn stable_bundle_exe(path: &str, home: Option<&str>, disk: &Disk) -> (r: Option<String>)
    ensures
        r.deep_view() == stable_exe(path@, opt_str(home), disk@),
{
    if is_transient(path) {
        pick_file(&installed_candidates(path, home), disk)
    } else {
        Some(path.to_owned())
    }
}

/// What a login item should launch: the image file that the program runs from,
/// whose contents are at another place at every start; else the executable, on a
/// Mac one that will still be there.
pub open spec fn launched(
    desktop: Desktop,
    image: Option<Seq<char>>,
    exe: Option<Seq<char>>,
    home: Option<Seq<char>>,
    disk: DiskModel,
) -> Option<Seq<char>> {
    match (image, exe) {
        (Some(img), _) => Some(img),
        (None, Some(e)) => if desktop == Desktop::Mac {
            stable_exe(e, home, disk)
        } else {
            Some(e)
        },
        (None, None) => None,
    }
}

/// What a login item should launch, where that is known.
pub fn exe(
    desktop: Desktop,
    image: Option<String>,
    current: Option<String>,
    home: Option<&str>,
    disk: &Disk,
) -> (r: Option<String>)
    ensures
        r.deep_view() == launched(
            desktop,
            image.deep_view(),
            current.deep_view(),
            opt_str(home),
            disk@,
        ),
{
    if image.is_some() {
        return image;
    }
    match current {
        Some(e) => if desktop == Desktop::Mac {
            stable_bundle_exe(&e, home, disk)
        } else {
            Some(e)
        },
        None => None,
    }
}

/// What the log is told of the executable: that of an image, and one that will
/// still be there, tell nothing.
pub open spec fn launched_note(
    desktop: Desktop,
    image: Option<Seq<char>>,
    exe: Option<Seq<char>>,
    home: Option<Seq<char>>,
    disk: DiskModel,
) -> Option<NoteModel> {
    match exe {
        Some(from) if image is None && desktop == Desktop::Mac && transient(from) && bundle_at(
            path_parts(from),
        ) >= 0 => match stable_exe(from, home, disk) {
            Some(to) => Some(NoteModel::LoginMoved { from, to }),
            None => Some(NoteModel::LoginLost { from }),
        },
        _ => None,
    }
}

/// What the log is told of the executable that a login item should launch.
pub fn exe_note(
    desktop: Desktop,
    image: &Option<String>,
    current: &Option<String>,
    home: Option<&str>,
    disk: &Disk,
) -> (r: Option<Note>)
    ensures
        r.deep_view() == launched_note(
            desktop,
            image.deep_view(),
            current.deep_view(),
            opt_str(home),
            disk@,
        ),
{
    let from = match current {
        Some(e) => e,
        None => return None,
    };
    if image.is_some() || desktop != Desktop::Mac || !is_transient(from) {
        return None;
    }
    if find_bundle(&named_parts(from)).is_none() {
        return None;
    }
    Some(
        match stable_bundle_exe(from, home, disk) {
            Some(to) => Note::LoginMoved { from: from.clone(), to },
            None => Note::LoginLost { from: from.clone() },
        },
    )
}

/// What the log is told once the login item has been seen to; `error` is what
/// went wrong. Removing the agent of a Mac counts as done either way.
pub open spec fn settled_note(
    item: LoginItemModel,
    desktop: Desktop,
    enabled: bool,
    profile: Option<Seq<char>>,
    path: Seq<char>,
    exe: Seq<char>,
    error: Option<Seq<char>>,
) -> Option<NoteModel> {
    match profile {
        Some(dir) => Some(NoteModel::LoginElsewhere { dir }),
        None => match (item, error) {
            (LoginItemModel::Leave, _) => None,
            (LoginItemModel::Remove, Some(error)) if desktop != Desktop::Mac => Some(
                NoteModel::LoginNotRemoved { error },
            ),
            (LoginItemModel::Remove, _) => Some(NoteModel::LoginRemoved),
            (LoginItemModel::Write(_), Some(error)) => Some(
                if enabled {
                    NoteModel::LoginNotWritten { error }
                } else {
                    NoteModel::LoginNotMasked { error }
                },
            ),
            (LoginItemModel::Write(command), None) => Some(
                if !enabled {
                    NoteModel::LoginMasked
                } else if desktop == Desktop::Windows {
                    NoteModel::RunKeyWritten { command }
                } else {
                    NoteModel::LoginWritten { path, exe }
                },
            ),
        },
    }
}

/// What the log is told once the login item has been seen to. `profile` is the
/// folder of a profile of its own, `path` that of the item's file.
pub fn settled(
    item: &LoginItem,
    desktop: Desktop,
    enabled: bool,
    profile: Option<&str>,
    path: &str,
    exe: &str,
    error: Option<&str>,
) -> (r: Option<Note>)
    ensures
        r.deep_view() == settled_note(
            item@,
            desktop,
            enabled,
            opt_str(profile),
            path@,
            exe@,
            opt_str(error),
        ),
{
    if let Some(dir) = profile {
        return Some(Note::LoginElsewhere { dir: dir.to_owned() });
    }
    match (item, error) {
        (LoginItem::Leave, _) => None,
        (LoginItem::Remove, None) => Some(Note::LoginRemoved),
        (LoginItem::Remove, Some(e)) => if desktop == Desktop::Mac {
            Some(Note::LoginRemoved)
        } else {
            Some(Note::LoginNotRemoved { error: e.to_owned() })
        },
        (LoginItem::Write(_), Some(e)) => if enabled {
            Some(Note::LoginNotWritten { error: e.to_owned() })
        } else {
            Some(Note::LoginNotMasked { error: e.to_owned() })
        },
        (LoginItem::Write(command), None) => if !enabled {
            Some(Note::LoginMasked)
        } else if desktop == Desktop::Windows {
            Some(Note::RunKeyWritten { command: command.clone() })
        } else {
            Some(Note::LoginWritten { path: path.to_owned(), exe: exe.to_owned() })
        },
    }
}

/// The executable that a launch agent names: what its first argument holds.
pub open spec fn agent_exe(plist: Seq<char>) -> Option<Seq<char>> {
    let i = first_text(plist, "<array>"@, 0);
    if i > plist.len() {
        None
    } else {
        between(plist, "<string>"@, "</string>"@, i)
    }
}

/// The executable that a launch agent names. The item is registered where that
/// is a file.
pub fn registered_exe(plist: &str) -> (r: Option<String>)
    ensures
        r.deep_view() == agent_exe(plist@),
{
    let c = chars_of(plist);
    let mark = chars_of("<array>");
    match find_text(&c, &mark, 0) {
        Some(i) => text_between(&c, "<string>", "</string>", i),
        None => None,
    }
}

/// Whether the login item of a Mac names an executable that still exists.
pub fn is_registered(plist: Option<&str>, disk: &Disk) -> (r: bool)
    ensures
        r == (match plist {
            Some(p) => match agent_exe(p@) {
                Some(e) => disk@.is_file(e),
                None => false,
            },
            None => false,
        }),
{
    match plist {
        Some(p) => match registered_exe(p) {
            Some(e) => disk.is_file(&e),
            None => false,
        },
        None => false,
    }
}

// ------------------------------------------------------------------------- laws

/// Once the item is written as asked, nothing is left to do.
pub proof fn applying_twice_writes_once(desktop: Desktop, minimized: bool, exe: Seq<char>)
    ensures
        login_item(
            desktop,
            true,
            minimized,
            false,
            Some(exe),
            Some(item_text(desktop, exe, minimized)),
        ) is Leave,
{
}

/// A profile of its own never touches the login item.
pub proof fn own_profiles_leave_the_login_item(
    desktop: Desktop,
    enabled: bool,
    minimized: bool,
    exe: Option<Seq<char>>,
    current: Option<Seq<char>>,
)
    ensures
        login_item(desktop, enabled, minimized, true, exe, current) is Leave,
{
}

} // verus!
