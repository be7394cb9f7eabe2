//! The session log: which lines are written, what a record looks like, and
//! what is safe to write.
//!
//! A record reads `[2026-08-18 06:36:12.000] [INFO ] start #3`. The level
//! comes from the configuration or from the environment, which wins.
use crate::names::{join_path, path_in};
use crate::text::{
    ascii_lower, begins, cat, cat3, chars_of, decimal, find_text, first_text, is_char,
    lemma_first_is, lemma_last_is, lower, none_of, number, same, split, split_first, split_once,
    split_text, strip_back, strip_front, strip_prefix, sub_text, trim_start_char, views,
    wide_number,
};
use vstd::prelude::*;

verus! {

/// How much a line matters.
#[derive(Clone, Copy, PartialEq, Eq, Structural, Debug)]
pub enum Level {
    Debug,
    Info,
    Warn,
    Error,
}

impl Level {
    pub open spec fn weight(self) -> int {
        match self {
            Level::Debug => 0,
            Level::Info => 1,
            Level::Warn => 2,
            Level::Error => 3,
        }
    }

    /// The level's mark in a record, five characters wide.
    pub open spec fn mark(self) -> Seq<char> {
        match self {
            Level::Debug => "DEBUG"@,
            Level::Info => "INFO "@,
            Level::Warn => "WARN "@,
            Level::Error => "ERROR"@,
        }
    }

    fn rank(self) -> (r: u8)
        ensures
            r == self.weight(),
    {
        match self {
            Level::Debug => 0,
            Level::Info => 1,
            Level::Warn => 2,
            Level::Error => 3,
        }
    }

    fn tag(self) -> (r: &'static str)
        ensures
            r@ == self.mark(),
    {
        match self {
            Level::Debug => "DEBUG",
            Level::Info => "INFO ",
            Level::Warn => "WARN ",
            Level::Error => "ERROR",
        }
    }
}

/// The level that a name stands for, in any case; an unknown name is `info`.
pub open spec fn level_named(name: Seq<char>) -> Level {
    let n = lower(name);
    if n == "debug"@ || n == "trace"@ || n == "verbose"@ {
        Level::Debug
    } else if n == "warn"@ || n == "warning"@ {
        Level::Warn
    } else if n == "error"@ {
        Level::Error
    } else {
        Level::Info
    }
}

/// A record, as it is appended to the log.
pub open spec fn record_text(level: Level, stamp: Seq<char>, line: Seq<char>) -> Seq<char> {
    "["@ + stamp + "] ["@ + level.mark() + "] "@ + line + "\n"@
}

/// What a line adds to a log that is filtered at `filter`.
pub open spec fn logged(filter: Level, level: Level, stamp: Seq<char>, line: Seq<char>) -> Option<
    Seq<char>,
> {
    if level.weight() < filter.weight() {
        None
    } else {
        Some(record_text(level, stamp, line))
    }
}

/// The log's filter.
#[derive(Clone, Copy, PartialEq, Eq, Structural, Debug)]
pub struct Log {
    pub filter: Level,
}

impl Log {
    /// A log that leaves out debugging.
    pub fn new() -> (r: Log)
        ensures
            r.filter == Level::Info,
    {
        Log { filter: Level::Info }
    }

    pub fn set_level(&mut self, name: &str)
        ensures
            final(self).filter == level_named(name@),
    {
        let n = ascii_lower(name);
        self.filter = if same(&n, "debug") || same(&n, "trace") || same(&n, "verbose") {
            Level::Debug
        } else if same(&n, "warn") || same(&n, "warning") {
            Level::Warn
        } else if same(&n, "error") {
            Level::Error
        } else {
            Level::Info
        };
    }

    /// Applies the configured level, then lets the environment override it.
    pub fn init(&mut self, config_level: Option<&str>, env_level: Option<&str>)
        ensures
            final(self).filter == (match (env_level, config_level) {
                (Some(e), _) => level_named(e@),
                (None, Some(c)) => level_named(c@),
                (None, None) => old(self).filter,
            }),
    {
        if let Some(l) = config_level {
            self.set_level(l);
        }
        if let Some(l) = env_level {
            self.set_level(l);
        }
    }

    /// The record of a line that is to be written, in one piece: fragments
    /// written by several threads would interleave.
    fn write(&self, level: Level, stamp: &str, line: &str) -> (r: Option<String>)
        ensures
            r.deep_view() == logged(self.filter, level, stamp@, line@),
    {
        if level.rank() < self.filter.rank() {
            return None;
        }
        let head = cat3("[", stamp, "] [");
        Some(cat3(&cat3(&head, level.tag(), "] "), line, "\n"))
    }

    pub fn debug(&self, stamp: &str, line: &str) -> (r: Option<String>)
        ensures
            r.deep_view() == logged(self.filter, Level::Debug, stamp@, line@),
    {
        self.write(Level::Debug, stamp, line)
    }

    pub fn info(&self, stamp: &str, line: &str) -> (r: Option<String>)
        ensures
            r.deep_view() == logged(self.filter, Level::Info, stamp@, line@),
    {
        self.write(Level::Info, stamp, line)
    }

    pub fn warn(&self, stamp: &str, line: &str) -> (r: Option<String>)
        ensures
            r.deep_view() == logged(self.filter, Level::Warn, stamp@, line@),
    {
        self.write(Level::Warn, stamp, line)
    }

    pub fn error(&self, stamp: &str, line: &str) -> (r: Option<String>)
        ensures
            r.deep_view() == logged(self.filter, Level::Error, stamp@, line@),
    {
        self.write(Level::Error, stamp, line)
    }

    /// A line at the usual level.
    pub fn log(&self, stamp: &str, line: &str) -> (r: Option<String>)
        ensures
            r.deep_view() == logged(self.filter, Level::Info, stamp@, line@),
    {
        self.info(stamp, line)
    }
}

/// Where the log of the program in `app_dir` lives.
pub fn path(app_dir: &str) -> (r: String)
    ensures
        r@ == path_in(path_in(app_dir@, "logs"@), "gui.log"@),
{
    join_path(&join_path(app_dir, "logs"), "gui.log")
}

// ------------------------------------------------------------------------ panics

/// What is written of a panic.
pub fn panic_line(place: Option<&str>, payload: Option<&str>, trace: &str) -> (r: String)
    ensures
        r@ == "panic at "@ + (match place {
            Some(p) => p@,
            None => "unknown location"@,
        }) + ": "@ + (match payload {
            Some(p) => p@,
            None => "<non-string payload>"@,
        }) + "\n"@ + trace@,
{
    let p = match place {
        Some(p) => p,
        None => "unknown location",
    };
    let what = match payload {
        Some(p) => p,
        None => "<non-string payload>",
    };
    cat(&cat3(&cat3("panic at ", p, ": "), what, "\n"), trace)
}

// ------------------------------------------------------------------------ banner

/// The machine, as the log introduces it.
#[derive(Debug)]
pub struct Machine {
    pub version: String,
    pub os: String,
    pub arch: String,
    pub release: Option<String>,
    pub cores: u64,
    pub ffmpeg: Option<String>,
}

pub open spec fn banner_text(m: Machine) -> Seq<char> {
    "hydra-gui "@ + m.version@ + " | "@ + m.os@ + " "@ + m.arch@ + " | "@ + (match m.release {
        Some(r) => r@,
        None => "unknown release"@,
    }) + " | "@ + decimal(m.cores as nat) + " core(s) | ffmpeg: "@ + (match m.ffmpeg {
        Some(f) => f@,
        None => "not found"@,
    })
}

/// The lines a session begins with: the machine on one line, then the paths.
pub fn banner(m: &Machine, app_dir: &str) -> (r: Vec<String>)
    ensures
        views(r@) == seq![
            banner_text(*m),
            "log: "@ + path_in(path_in(app_dir@, "logs"@), "gui.log"@),
            "data: "@ + app_dir@,
        ],
{
    let release = match &m.release {
        Some(r) => r.as_str(),
        None => "unknown release",
    };
    let ffmpeg = match &m.ffmpeg {
        Some(f) => f.as_str(),
        None => "not found",
    };
    let a = cat3("hydra-gui ", &m.version, " | ");
    let b = cat3(&cat3(&a, &m.os, " "), &m.arch, " | ");
    let c = cat3(&b, release, " | ");
    let d = cat3(&c, &number(m.cores), " core(s) | ffmpeg: ");
    let first_line = cat(&d, ffmpeg);
    proof {
        assert(first_line@ =~= banner_text(*m));
    }
    let mut r: Vec<String> = Vec::new();
    r.push(first_line);
    r.push(cat("log: ", &path(app_dir)));
    r.push(cat("data: ", app_dir));
    assert(views(r@) =~= seq![
        banner_text(*m),
        "log: "@ + path_in(path_in(app_dir@, "logs"@), "gui.log"@),
        "data: "@ + app_dir@,
    ]);
    r
}

// ------------------------------------------------------------------- the release

/// The release that the lines of an `os-release` file name: what stands behind
/// the first `PRETTY_NAME=`, without quotes around it.
pub open spec fn pretty_name(lines: Seq<Seq<char>>) -> Option<Seq<char>>
    decreases lines.len(),
{
    if lines.len() == 0 {
        None
    } else {
        let l = file_line(lines[0]);
        if begins(l, "PRETTY_NAME="@) {
            Some(
                strip_back(
                    strip_front(l.skip("PRETTY_NAME="@.len() as int), is_char('"')),
                    is_char('"'),
                ),
            )
        } else {
            pretty_name(lines.skip(1))
        }
    }
}

/// A line of a file without the carriage return that may end it.
pub open spec fn file_line(l: Seq<char>) -> Seq<char> {
    if l.len() > 0 && l.last() == '\r' {
        l.drop_last()
    } else {
        l
    }
}

fn line_of(l: &str) -> (r: String)
    ensures
        r@ == file_line(l@),
{
    let c = chars_of(l);
    let n = c.len();
    if n > 0 && c[n - 1] == '\r' {
        let r = sub_text(&c, 0, n - 1);
        assert(r@ =~= l@.drop_last());
        r
    } else {
        l.to_owned()
    }
}

fn unquoted(s: &str) -> (r: String)
    ensures
        r@ == strip_back(strip_front(s@, is_char('"')), is_char('"')),
{
    let front = trim_start_char(s, '"');
    let c = chars_of(&front);
    let mut n: usize = c.len();
    let ghost p = is_char('"');
    while n > 0 && c[n - 1] == '"'
        invariant
            n <= c@.len(),
            c@ == front@,
            p == is_char('"'),
            forall|i: int| n <= i < c@.len() ==> p(#[trigger] c@[i]),
        decreases n,
    {
        n -= 1;
    }
    let r = sub_text(&c, 0, n);
    proof {
        lemma_last_is(front@, none_of(p), n - 1);
        assert(r@ =~= strip_back(front@, p));
    }
    r
}

/// The release of a Linux machine, from its `os-release` file.
pub fn os_release(text: &str) -> (r: Option<String>)
    ensures
        r.deep_view() == pretty_name(split(text@, '\n')),
{
    let lines = split_text(text, '\n');
    let ghost all = views(lines@);
    let mut i: usize = 0;
    assert(all.skip(0) =~= all);
    while i < lines.len()
        invariant
            i <= lines@.len(),
            all == views(lines@),
            all == split(text@, '\n'),
            pretty_name(all) == pretty_name(all.skip(i as int)),
        decreases lines.len() - i,
    {
        proof {
            assert(all.skip(i as int)[0] == lines@[i as int]@);
            assert(all.skip(i as int).skip(1) =~= all.skip(i + 1));
        }
        let l = line_of(&lines[i]);
        if let Some(v) = strip_prefix(&l, "PRETTY_NAME=") {
            assert(v@ =~= l@.skip("PRETTY_NAME="@.len() as int));
            return Some(unquoted(&v));
        }
        i += 1;
    }
    None
}

/// What stands between the first `a` at or behind `from` and the next `b`.
pub open spec fn between(s: Seq<char>, a: Seq<char>, b: Seq<char>, from: int) -> Option<Seq<char>> {
    let i = first_text(s, a, from);
    let j = first_text(s, b, i + a.len());
    if i > s.len() || j > s.len() {
        None
    } else {
        Some(s.subrange(i + a.len(), j))
    }
}

pub(crate) fn text_between(c: &Vec<char>, a: &str, b: &str, from: usize) -> (r: Option<String>)
    requires
        from <= c@.len(),
    ensures
        r.deep_view() == between(c@, a@, b@, from as int),
{
    let x = chars_of(a);
    let y = chars_of(b);
    let i = match find_text(c, &x, from) {
        Some(i) => i,
        None => return None,
    };
    match find_text(c, &y, i + x.len()) {
        Some(j) => Some(sub_text(c, i + x.len(), j)),
        None => None,
    }
}

/// The release that a version file of macOS names.
pub open spec fn mac_version(s: Seq<char>) -> Option<Seq<char>> {
    let i = first_text(s, "<key>ProductVersion</key>"@, 0);
    if i > s.len() {
        None
    } else {
        match between(s, "<string>"@, "</string>"@, i) {
            Some(v) => Some("macOS "@ + v),
            None => None,
        }
    }
}

/// The release of a Mac, from its version file.
pub fn mac_release(plist: &str) -> (r: Option<String>)
    ensures
        r.deep_view() == mac_version(plist@),
{
    let c = chars_of(plist);
    let key = chars_of("<key>ProductVersion</key>");
    match find_text(&c, &key, 0) {
        Some(i) => match text_between(&c, "<string>", "</string>", i) {
            Some(v) => Some(cat("macOS ", &v)),
            None => None,
        },
        None => None,
    }
}

// ------------------------------------------------------------------- redaction

/// How many bytes a character takes in a file.
pub open spec fn char_bytes(c: char) -> nat {
    if c <= '\u{7f}' {
        1
    } else if c <= '\u{7ff}' {
        2
    } else if c <= '\u{ffff}' {
        3
    } else {
        4
    }
}

pub open spec fn text_bytes(s: Seq<char>) -> nat
    decreases s.len(),
{
    if s.len() == 0 {
        0
    } else {
        text_bytes(s.drop_last()) + char_bytes(s.last())
    }
}

fn count_bytes(s: &str) -> (r: u128)
    ensures
        r == text_bytes(s@),
{
    let c = chars_of(s);
    let mut n: u128 = 0;
    let mut i: usize = 0;
    assert(s@.take(0) =~= seq![]);
    while i < c.len()
        invariant
            i <= c.len(),
            c@ == s@,
            n == text_bytes(s@.take(i as int)),
            n <= 4 * (i as int),
        decreases c.len() - i,
    {
        proof {
            assert(s@.take(i + 1).drop_last() =~= s@.take(i as int));
            assert(s@.take(i + 1).last() == c@[i as int]);
        }
        let w: u128 = if c[i] <= '\u{7f}' {
            1
        } else if c[i] <= '\u{7ff}' {
            2
        } else if c[i] <= '\u{ffff}' {
            3
        } else {
            4
        };
        n = n + w;
        i += 1;
    }
    assert(s@.take(i as int) =~= s@);
    n
}

/// A URL safe to write into a file that the user is invited to hand to someone:
/// signed addresses carry credentials in the query, so the query goes, and only
/// its length stays.
pub open spec fn redacted(url: Seq<char>) -> Seq<char> {
    match split_first(url, '?') {
        Some((head, query)) => head + "?<"@ + decimal(text_bytes(query)) + " chars elided>"@,
        None => url,
    }
}

pub fn redact(url: &str) -> (r: String)
    ensures
        r@ == redacted(url@),
{
    match split_once(url, '?') {
        Some((head, query)) => cat3(
            &cat(&head, "?<"),
            &wide_number(count_bytes(&query)),
            " chars elided>",
        ),
        None => url.to_owned(),
    }
}

// ------------------------------------------------------------------------- laws

/// Two addresses that differ only in a query of the same length look the same
/// in the log: nothing of what the query held is left.
pub proof fn queries_leave_no_trace(head: Seq<char>, q1: Seq<char>, q2: Seq<char>)
    requires
        !head.contains('?'),
        text_bytes(q1) == text_bytes(q2),
    ensures
        redacted(head + seq!['?'] + q1) == redacted(head + seq!['?'] + q2),
{
    lemma_split_at(head, q1);
    lemma_split_at(head, q2);
}

proof fn lemma_split_at(head: Seq<char>, q: Seq<char>)
    requires
        !head.contains('?'),
    ensures
        split_first(head + seq!['?'] + q, '?') == Some((head, q)),
{
    let s = head + seq!['?'] + q;
    let n = head.len() as int;
    assert(s[n] == '?');
    assert forall|i: int| 0 <= i < n implies !is_char('?')(#[trigger] s[i]) by {
        assert(head.contains(head[i]));
    }
    lemma_first_is(s, is_char('?'), n);
    assert(s.take(n) =~= head);
    assert(s.subrange(0, n) =~= head);
    assert(s.skip(n + 1) =~= q);
    assert(s.subrange(n + 1, s.len() as int) =~= q);
}

/// An address without a query is written as it is.
pub proof fn plain_addresses_are_left_alone(url: Seq<char>)
    requires
        !url.contains('?'),
    ensures
        redacted(url) == url,
{
    assert forall|i: int| 0 <= i < url.len() implies !is_char('?')(#[trigger] url[i]) by {
        assert(url.contains(url[i]));
    }
    lemma_first_is(url, is_char('?'), url.len() as int);
}

/// Errors are always written.
pub proof fn errors_are_always_logged(filter: Level, stamp: Seq<char>, line: Seq<char>)
    ensures
        logged(filter, Level::Error, stamp, line) is Some,
{
}

} // verus!
