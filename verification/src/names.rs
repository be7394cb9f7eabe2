//! File names and places: splitting typed paths, names that are safe to
//! write, names that collide with nothing, and names for streams.
use crate::engine::{path_of, url_path};
use crate::ext_info::opt_text;
use crate::text::{
    ascii_lower, before_either, begins, cat, cat3, chars_of, decimal, either, ends, ends_with,
    first, is_white, join, joined, last, lemma_decimal_spells, lemma_first_is, lemma_last,
    lemma_last_is, lower, none_of, nonempty, rsplit_once, same, segments, split_last, split_on, split_segments,
    split_whitespace, starts_with, strip_back, strip_front, sub_text, trim, trimmed, up_to_either,
    views, white, wide_number, words,
};
use vstd::prelude::*;
use vstd::utf8::encode_utf8;

verus! {

// ------------------------------------------------------------------- paths

/// `name` in the folder `dir`, with the separator of a Unix system, which every
/// other one reads too: an absolute name stands for itself, and so does any name
/// where there is no folder.
pub open spec fn path_in(dir: Seq<char>, name: Seq<char>) -> Seq<char> {
    if dir.len() == 0 || begins(name, "/"@) {
        name
    } else if ends(dir, "/"@) {
        dir + name
    } else {
        dir + "/"@ + name
    }
}

pub fn join_path(dir: &str, name: &str) -> (r: String)
    ensures
        r@ == path_in(dir@, name@),
{
    if dir.is_empty() || starts_with(name, "/") {
        name.to_owned()
    } else if ends_with(dir, "/") {
        cat(dir, name)
    } else {
        cat3(dir, "/", name)
    }
}

/// A drive of Windows by its letter alone, such as `C:`.
pub open spec fn bare_drive(dir: Seq<char>) -> bool {
    dir.len() == 2 && dir[1] == ':' && ('a' <= dir[0] <= 'z' || 'A' <= dir[0] <= 'Z')
}

/// A file in the folder `dir` of a machine that may run Windows, where a
/// backslash stands before the name. None does after a separator, nor after a
/// bare drive, whose current folder is meant.
pub open spec fn file_in(dir: Seq<char>, name: Seq<char>, windows: bool) -> Seq<char> {
    if !windows {
        path_in(dir, name)
    } else if dir.len() == 0 || ends(dir, "\\"@) || ends(dir, "/"@) || bare_drive(dir) {
        dir + name
    } else {
        dir + "\\"@ + name
    }
}

fn is_bare_drive(dir: &str) -> (r: bool)
    ensures
        r == bare_drive(dir@),
{
    let c = chars_of(dir);
    c.len() == 2 && c[1] == ':' && ('a' <= c[0] && c[0] <= 'z' || 'A' <= c[0] && c[0] <= 'Z')
}

/// The file of a plain name in a folder.
pub fn join_file(dir: &str, name: &str, windows: bool) -> (r: String)
    ensures
        r@ == file_in(dir@, name@, windows),
{
    if !windows {
        join_path(dir, name)
    } else if dir.is_empty() || ends_with(dir, "\\") || ends_with(dir, "/") || is_bare_drive(dir) {
        cat(dir, name)
    } else {
        cat3(dir, "\\", name)
    }
}

/// The folder and the file name of a typed path. Without a separator the
/// folder is empty; a separator at the very front is the folder itself.
pub open spec fn save_as_parts(path: Seq<char>) -> (Seq<char>, Seq<char>) {
    let i = last(path, either('/', '\\'));
    if i < 0 {
        (seq![], path)
    } else if i == 0 {
        (path.take(1), path.skip(1))
    } else {
        (path.take(i), path.skip(i + 1))
    }
}

/// `(folder, file name)` of a typed path. No separator means that the user
/// typed a bare file name: the folder is empty, and whoever starts the
/// download falls back to the category folder.
pub fn split_save_as(path: &str) -> (r: (String, String))
    ensures
        (r.0@, r.1@) == save_as_parts(path@),
{
    let c = chars_of(path);
    let mut k: usize = c.len();
    while k > 0 && c[k - 1] != '/' && c[k - 1] != '\\'
        invariant
            k <= c@.len(),
            forall|i: int| k <= i < c@.len() ==> #[trigger] c@[i] != '/' && c@[i] != '\\',
        decreases k,
    {
        k -= 1;
    }
    proof {
        lemma_last_is(c@, either('/', '\\'), k - 1);
    }
    if k == 0 {
        (String::new(), path.to_owned())
    } else {
        let cut: usize = if k == 1 {
            1
        } else {
            k - 1
        };
        let dir = sub_text(&c, 0, cut);
        let name = sub_text(&c, k, c.len());
        assert(dir@ =~= path@.take(cut as int));
        assert(name@ =~= path@.skip(k as int));
        (dir, name)
    }
}

// ------------------------------------------------------------- directories

/// A place in the file system with every `.` and `..` resolved.
#[derive(Debug)]
pub struct Place {
    pub rooted: bool,
    pub names: Vec<String>,
}

/// The model of [`Place`].
pub struct PlaceModel {
    pub rooted: bool,
    pub names: Seq<Seq<char>>,
}

impl View for Place {
    type V = PlaceModel;

    open spec fn view(&self) -> PlaceModel {
        PlaceModel { rooted: self.rooted, names: views(self.names@) }
    }
}

/// One step along a path: `.` stays, `..` goes up where there is an up.
pub open spec fn step(names: Seq<Seq<char>>, part: Seq<char>) -> Seq<Seq<char>> {
    if part == "."@ {
        names
    } else if part == ".."@ {
        if names.len() > 0 {
            names.drop_last()
        } else {
            names
        }
    } else {
        names.push(part)
    }
}

pub open spec fn walk(parts: Seq<Seq<char>>) -> Seq<Seq<char>>
    decreases parts.len(),
{
    if parts.len() == 0 {
        seq![]
    } else {
        step(walk(parts.drop_last()), parts.last())
    }
}

/// Where a path leads, by its spelling alone.
pub open spec fn place_of(path: Seq<char>) -> PlaceModel {
    PlaceModel { rooted: begins(path, "/"@), names: walk(segments(path, '/')) }
}

/// Where a folder is: where the file system says, if it knows the folder, and
/// where its spelling leads otherwise.
pub open spec fn dir_place(p: Seq<char>, canonical: Option<Seq<char>>) -> PlaceModel {
    match canonical {
        Some(r) => place_of(r),
        None => place_of(p),
    }
}

/// Folder comparison for collision checks: `/a/b` and `/a/b/` (or a `..`
/// variant) are the same place on disk and must compare equal. `canonical` is the
/// canonical path of a folder that exists; a folder that is not on disk yet
/// falls back to its spelling.
pub fn normalize_dir(p: &str, canonical: Option<&str>) -> (r: Place)
    ensures
        r@ == dir_place(p@, crate::i18n::opt_str(canonical)),
{
    let path = match canonical {
        Some(r) => r,
        None => p,
    };
    let parts = split_segments(path, '/');
    let mut names: Vec<String> = Vec::new();
    let mut i: usize = 0;
    assert(views(parts@).take(0) =~= seq![]);
    assert(views(names@) =~= seq![]);
    while i < parts.len()
        invariant
            i <= parts@.len(),
            views(names@) == walk(views(parts@).take(i as int)),
        decreases parts.len() - i,
    {
        let ghost before = names@;
        if same(&parts[i], ".") {
        } else if same(&parts[i], "..") {
            let gone = names.pop();
            assert(before.len() > 0 ==> views(names@) =~= views(before).drop_last());
        } else {
            names.push(parts[i].clone());
            assert(views(names@) =~= views(before).push(parts@[i as int]@));
        }
        i += 1;
        proof {
            let all = views(parts@);
            assert(all.take(i as int).drop_last() =~= all.take(i - 1));
            assert(all.take(i as int).last() == parts@[i - 1]@);
        }
    }
    assert(views(parts@).take(i as int) =~= views(parts@));
    Place { rooted: starts_with(path, "/"), names }
}

pub fn same_place(a: &Place, b: &Place) -> (r: bool)
    ensures
        r == (a@ == b@),
{
    if a.rooted != b.rooted || a.names.len() != b.names.len() {
        assert(views(a.names@).len() == a.names@.len());
        assert(views(b.names@).len() == b.names@.len());
        return false;
    }
    let mut i: usize = 0;
    while i < a.names.len()
        invariant
            i <= a.names@.len(),
            a.names@.len() == b.names@.len(),
            forall|k: int| 0 <= k < i ==> (#[trigger] a.names@[k])@ == b.names@[k]@,
        decreases a.names.len() - i,
    {
        if !same(&a.names[i], &b.names[i]) {
            assert(views(a.names@)[i as int] != views(b.names@)[i as int]);
            return false;
        }
        i += 1;
    }
    assert(views(a.names@) =~= views(b.names@));
    true
}

// --------------------------------------------------- what the disk was like

/// Something found on disk.
#[derive(Debug)]
pub struct DiskEntry {
    pub path: String,
    pub is_file: bool,
    pub len: u64,
    /// Allocated blocks of 512 bytes, where the file system tells.
    pub blocks: Option<u64>,
}

/// The model of [`DiskEntry`], without its path.
pub struct Found {
    pub is_file: bool,
    pub len: u64,
    pub blocks: Option<u64>,
}

/// What the program looked up on disk before it began to decide: the entries
/// it found, and the canonical paths of the folders it knows.
#[derive(Debug)]
pub struct Disk {
    pub entries: Vec<DiskEntry>,
    pub canonical: Vec<(String, String)>,
}

/// The model of [`Disk`].
pub struct DiskModel {
    pub entries: Map<Seq<char>, Found>,
    pub canonical: Map<Seq<char>, Seq<char>>,
}

pub open spec fn entry_map(v: Seq<DiskEntry>) -> Map<Seq<char>, Found>
    decreases v.len(),
{
    if v.len() == 0 {
        Map::empty()
    } else {
        let e = v.last();
        entry_map(v.drop_last()).insert(
            e.path@,
            Found { is_file: e.is_file, len: e.len, blocks: e.blocks },
        )
    }
}

impl View for Disk {
    type V = DiskModel;

    open spec fn view(&self) -> DiskModel {
        DiskModel {
            entries: entry_map(self.entries@),
            canonical: crate::i18n::texts_of(crate::i18n::pair_seq(self.canonical@)),
        }
    }
}

impl DiskModel {
    pub open spec fn found(self, path: Seq<char>) -> Option<Found> {
        if self.entries.contains_key(path) {
            Some(self.entries[path])
        } else {
            None
        }
    }

    pub open spec fn real_of(self, dir: Seq<char>) -> Option<Seq<char>> {
        if self.canonical.contains_key(dir) {
            Some(self.canonical[dir])
        } else {
            None
        }
    }

    pub open spec fn is_file(self, path: Seq<char>) -> bool {
        self.found(path) matches Some(f) && f.is_file
    }
}

/// A disk of which a list of entries is known holds no more paths than that.
pub proof fn lemma_entries_finite(v: Seq<DiskEntry>)
    ensures
        entry_map(v).dom().finite(),
        entry_map(v).dom().len() <= v.len(),
    decreases v.len(),
{
    if v.len() > 0 {
        lemma_entries_finite(v.drop_last());
    }
}

proof fn lemma_entry_skip(v: Seq<DiskEntry>, k: int, path: Seq<char>)
    requires
        0 <= k <= v.len(),
        forall|i: int| k <= i < v.len() ==> (#[trigger] v[i]).path@ != path,
    ensures
        entry_map(v).contains_key(path) == entry_map(v.take(k)).contains_key(path),
        entry_map(v).contains_key(path) ==> entry_map(v)[path] == entry_map(v.take(k))[path],
    decreases v.len() - k,
{
    if k < v.len() {
        let t = v.drop_last();
        assert forall|i: int| k <= i < t.len() implies (#[trigger] t[i]).path@ != path by {
            assert(t[i] == v[i]);
        }
        lemma_entry_skip(t, k, path);
        assert(t.take(k) =~= v.take(k));
        assert(v[v.len() - 1] == v.last());
    } else {
        assert(v.take(k) =~= v);
    }
}

impl Disk {
    /// A disk of which nothing is known.
    pub fn unknown() -> (r: Disk)
        ensures
            r@.entries == Map::<Seq<char>, Found>::empty(),
            r@.canonical == Map::<Seq<char>, Seq<char>>::empty(),
    {
        let r = Disk { entries: Vec::new(), canonical: Vec::new() };
        assert(crate::i18n::pair_seq(r.canonical@) =~= seq![]);
        r
    }

    /// What was found at `path`.
    pub fn look(&self, path: &str) -> (r: Option<(bool, u64, Option<u64>)>)
        ensures
            self@.found(path@) == (match r {
                Some((is_file, len, blocks)) => Some((Found { is_file, len, blocks })),
                None => None,
            }),
    {
        let mut k: usize = self.entries.len();
        while k > 0
            invariant
                k <= self.entries@.len(),
                forall|i: int|
                    k <= i < self.entries@.len() ==> (#[trigger] self.entries@[i]).path@ != path@,
            decreases k,
        {
            let e = &self.entries[k - 1];
            if same(&e.path, path) {
                proof {
                    lemma_entry_skip(self.entries@, k as int, path@);
                    assert(self.entries@.take(k as int).last() == self.entries@[k - 1]);
                }
                return Some((e.is_file, e.len, e.blocks));
            }
            k -= 1;
        }
        proof {
            lemma_entry_skip(self.entries@, 0, path@);
            assert(self.entries@.take(0) =~= seq![]);
        }
        None
    }

    pub fn is_file(&self, path: &str) -> (r: bool)
        ensures
            r == self@.is_file(path@),
    {
        match self.look(path) {
            Some((f, _, _)) => f,
            None => false,
        }
    }

    /// The canonical path of a folder, where the disk knows it.
    pub fn real_dir(&self, dir: &str) -> (r: Option<String>)
        ensures
            opt_text(r) == self@.real_of(dir@),
    {
        crate::i18n::lookup(&self.canonical, dir)
    }

    /// Where a folder is.
    pub fn place(&self, dir: &str) -> (r: Place)
        ensures
            r@ == dir_place(dir@, self@.real_of(dir@)),
    {
        match self.real_dir(dir) {
            Some(canonical) => normalize_dir(dir, Some(canonical.as_str())),
            None => normalize_dir(dir, None),
        }
    }
}

/// The first of `places` that is a file.
pub open spec fn first_file(places: Seq<Seq<char>>, disk: DiskModel) -> Option<Seq<char>>
    decreases places.len(),
{
    if places.len() == 0 {
        None
    } else if disk.is_file(places[0]) {
        Some(places[0])
    } else {
        first_file(places.drop_first(), disk)
    }
}

/// The first of `places` that is a file.
pub fn pick_file(places: &Vec<String>, disk: &Disk) -> (r: Option<String>)
    ensures
        r.deep_view() == first_file(places.deep_view(), disk@),
{
    let ghost all = places.deep_view();
    let mut i: usize = 0;
    assert(all.skip(0) =~= all);
    while i < places.len()
        invariant
            i <= places@.len(),
            all == places.deep_view(),
            first_file(all, disk@) == first_file(all.skip(i as int), disk@),
        decreases places.len() - i,
    {
        assert(all.skip(i as int)[0] == places@[i as int]@);
        if disk.is_file(&places[i]) {
            return Some(places[i].clone());
        }
        assert(all.skip(i as int).drop_first() =~= all.skip(i + 1));
        i += 1;
    }
    None
}

// --------------------------------------------------------------- collisions

/// The file that a warning about a name already taken should show, if any.
pub open spec fn collision(dir: Seq<char>, name: Seq<char>, named: bool, disk: DiskModel) -> Option<
    Seq<char>,
> {
    if named && disk.is_file(path_in(dir, name)) {
        Some(path_in(dir, name))
    } else {
        None
    }
}

/// The file the duplicate dialog should warn about, if any.
///
/// `named` says whether `name` is the name this download will really be saved
/// under; a placeholder name warns about nothing. A directory of that name is
/// no file to open.
pub fn collision_file(dir: &str, name: &str, named: bool, disk: &Disk) -> (r: Option<String>)
    ensures
        opt_text(r) == collision(dir@, name@, named, disk@),
{
    if !named {
        return None;
    }
    let path = join_path(dir, name);
    if disk.is_file(&path) {
        Some(path)
    } else {
        None
    }
}

/// The stem and the extension of a file name; a leading dot starts no extension.
pub open spec fn stem_and_ext(name: Seq<char>) -> (Seq<char>, Option<Seq<char>>) {
    match split_last(name, '.') {
        Some((s, e)) if s.len() > 0 => (s, Some(e)),
        _ => (name, None),
    }
}

/// The `n`-th name to try: `name.ext`, `name_1.ext`, `name_2.ext`, ...
pub open spec fn candidate(name: Seq<char>, n: nat) -> Seq<char> {
    let (stem, ext) = stem_and_ext(name);
    let s = if n == 0 {
        stem
    } else {
        stem + "_"@ + decimal(n)
    };
    match ext {
        Some(e) => s + "."@ + e,
        None => s,
    }
}

pub fn candidate_name(name: &str, n: u128) -> (r: String)
    ensures
        r@ == candidate(name@, n as nat),
{
    let (stem, ext): (String, Option<String>) = match rsplit_once(name, '.') {
        Some((s, e)) => if s.as_str().is_empty() {
            (name.to_owned(), None)
        } else {
            (s, Some(e))
        },
        None => (name.to_owned(), None),
    };
    let s = if n == 0 {
        stem
    } else {
        cat3(&stem, "_", &wide_number(n))
    };
    match ext {
        Some(e) => cat3(&s, ".", &e),
        None => s,
    }
}

/// Different numbers make different names to try.
pub proof fn candidates_differ(name: Seq<char>, n: nat, m: nat)
    requires
        n != m,
    ensures
        candidate(name, n) != candidate(name, m),
{
    let (stem, ext) = stem_and_ext(name);
    reveal_strlit("_");
    lemma_decimal_spells(n);
    lemma_decimal_spells(m);
    let a = candidate(name, n);
    let b = candidate(name, m);
    if a == b {
        let tail: int = match ext {
            Some(e) => ("."@.len() + e.len()) as int,
            None => 0,
        };
        let from = stem.len() as int + 1;
        if n > 0 && m > 0 {
            assert(a.subrange(from, a.len() - tail) =~= decimal(n));
            assert(b.subrange(from, b.len() - tail) =~= decimal(m));
        } else {
            assert(a.len() != b.len());
        }
    }
}

/// Different numbers lead to different paths in a folder.
pub proof fn candidate_paths_differ(dir: Seq<char>, name: Seq<char>, n: nat, m: nat)
    requires
        n != m,
    ensures
        path_in(dir, candidate(name, n)) != path_in(dir, candidate(name, m)),
{
    candidates_differ(name, n, m);
    lemma_candidate_front(name, n);
    lemma_candidate_front(name, m);
    let a = candidate(name, n);
    let b = candidate(name, m);
    let p = path_in(dir, a);
    let q = path_in(dir, b);
    if p == q {
        assert(p.skip(p.len() - a.len()) =~= a);
        assert(q.skip(q.len() - b.len()) =~= b);
        assert(a.len() == b.len());
    }
}

proof fn lemma_candidate_front(name: Seq<char>, n: nat)
    ensures
        begins(candidate(name, n), "/"@) == begins(name, "/"@),
{
    reveal_strlit("/");
    reveal_strlit("_");
    let c = candidate(name, n);
    let (stem, ext) = stem_and_ext(name);
    lemma_last(name, crate::text::is_char('.'));
    if stem.len() > 0 {
        assert(stem[0] == name[0]);
        assert(c[0] == name[0]);
    } else {
        assert(name.len() == 0);
        assert(c.len() > 0 ==> c[0] == '_');
    }
    assert(begins(c, "/"@) ==> c.subrange(0, 1)[0] == c[0]);
    assert(begins(name, "/"@) ==> name.subrange(0, 1)[0] == name[0]);
    if c.len() > 0 && c[0] == '/' {
        assert(c.subrange(0, 1) =~= "/"@);
    }
    if name.len() > 0 && name[0] == '/' {
        assert(name.subrange(0, 1) =~= "/"@);
    }
}

// -------------------------------------------------------------- safe names

/// What a character of a page title becomes in a file name.
pub open spec fn safe_char(c: char) -> char {
    if c == '/' || c == '\\' || c == ':' || c == '*' || c == '?' || c == '"' || c == '<' || c == '>'
        || c == '|' || (c as u32) < 0x20 {
        ' '
    } else {
        c
    }
}

pub open spec fn dot_or_space() -> spec_fn(char) -> bool {
    either('.', ' ')
}

/// The longest prefix of `s` that takes at most `max` bytes.
pub open spec fn fit(s: Seq<char>, max: int) -> Seq<char>
    decreases s.len(),
{
    if s.len() == 0 || encode_utf8(s).len() <= max {
        s
    } else {
        fit(s.drop_last(), max)
    }
}

/// A page title before it is cut to length.
pub open spec fn tidy(raw: Seq<char>) -> Seq<char> {
    let collapsed = joined(words(raw.map_values(|c: char| safe_char(c))), " "@);
    strip_back(strip_front(collapsed, dot_or_space()), dot_or_space())
}

pub open spec fn at_most(s: Seq<char>, n: int) -> Seq<char> {
    if s.len() > n {
        s.take(n)
    } else {
        s
    }
}

/// A page title made safe to be a file name: separators and control
/// characters become spaces, runs of white space one space, dots and spaces
/// at the ends go, and what is left is cut to 120 characters and 250 bytes.
pub open spec fn safe_name(raw: Seq<char>) -> Seq<char> {
    trimmed(fit(at_most(tidy(raw), 120), 250))
}

/// Bytes that one character takes.
fn char_bytes(c: char) -> (r: usize)
    ensures
        r == vstd::utf8::encode_scalar(c as u32).len(),
        1 <= r <= 4,
{
    let n: u32 = c as u32;
    if n <= 0x7f {
        1
    } else if n <= 0x7ff {
        2
    } else if n <= 0xffff {
        3
    } else {
        4
    }
}

proof fn lemma_encode_push(s: Seq<char>, c: char)
    ensures
        encode_utf8(s.push(c)).len() == encode_utf8(s).len() + vstd::utf8::encode_scalar(
            c as u32,
        ).len(),
    decreases s.len(),
{
    if s.len() == 0 {
        assert(s.push(c).drop_first() =~= seq![]);
        assert(encode_utf8(s.push(c).drop_first()) =~= seq![]);
    } else {
        assert(s.push(c).drop_first() =~= s.drop_first().push(c));
        lemma_encode_push(s.drop_first(), c);
    }
}

proof fn lemma_encode_grows(s: Seq<char>, k: int)
    requires
        0 <= k <= s.len(),
    ensures
        encode_utf8(s.take(k)).len() <= encode_utf8(s).len(),
    decreases s.len() - k,
{
    if k < s.len() {
        lemma_encode_grows(s, k + 1);
        assert(s.take(k + 1) =~= s.take(k).push(s[k]));
        lemma_encode_push(s.take(k), s[k]);
    } else {
        assert(s.take(k) =~= s);
    }
}

proof fn lemma_fit_is(s: Seq<char>, max: int, k: int)
    requires
        0 <= k <= s.len(),
        max >= 0,
        encode_utf8(s.take(k)).len() <= max,
        k < s.len() ==> encode_utf8(s.take(k + 1)).len() > max,
    ensures
        fit(s, max) == s.take(k),
    decreases s.len(),
{
    if k == s.len() {
        assert(s.take(k) =~= s);
    } else {
        lemma_encode_grows(s, k + 1);
        let t = s.drop_last();
        assert(t.take(k) =~= s.take(k));
        if k < t.len() {
            assert(t.take(k + 1) =~= s.take(k + 1));
        }
        lemma_fit_is(t, max, k);
    }
}

proof fn lemma_fit_bounds(s: Seq<char>, max: int)
    requires
        max >= 0,
    ensures
        encode_utf8(fit(s, max)).len() <= max,
        fit(s, max).len() <= s.len(),
        fit(s, max) == s.take(fit(s, max).len() as int),
    decreases s.len(),
{
    if s.len() == 0 || encode_utf8(s).len() <= max {
        assert(s.take(s.len() as int) =~= s);
    } else {
        lemma_fit_bounds(s.drop_last(), max);
        let n = fit(s, max).len() as int;
        assert(s.drop_last().take(n) =~= s.take(n));
    }
}

fn fitting(c: &Vec<char>, chars: usize, max: usize) -> (r: String)
    requires
        max <= 1000,
    ensures
        r@ == fit(at_most(c@, chars as int), max as int),
{
    let n: usize = if c.len() > chars {
        chars
    } else {
        c.len()
    };
    let ghost s = at_most(c@, chars as int);
    assert(s =~= c@.take(n as int));
    let mut k: usize = 0;
    let mut used: usize = 0;
    while k < n && used + char_bytes(c[k]) <= max
        invariant
            k <= n <= c@.len(),
            n <= c.len(),
            used <= max <= 1000,
            s == c@.take(n as int),
            used == encode_utf8(s.take(k as int)).len(),
        decreases n - k,
    {
        proof {
            assert(s.take(k + 1) =~= s.take(k as int).push(c@[k as int]));
            lemma_encode_push(s.take(k as int), c@[k as int]);
        }
        used = used + char_bytes(c[k]);
        k += 1;
    }
    proof {
        if k < n {
            assert(s.take(k + 1) =~= s.take(k as int).push(c@[k as int]));
            lemma_encode_push(s.take(k as int), c@[k as int]);
        }
        lemma_fit_is(s, max as int, k as int);
    }
    let r = sub_text(c, 0, k);
    assert(r@ =~= s.take(k as int));
    r
}

/// `c` without dots and spaces at its ends.
fn trim_dots(c: &Vec<char>) -> (r: Vec<char>)
    ensures
        r@ == strip_back(strip_front(c@, dot_or_space()), dot_or_space()),
{
    let mut i: usize = 0;
    while i < c.len() && (c[i] == '.' || c[i] == ' ')
        invariant
            i <= c@.len(),
            forall|k: int| 0 <= k < i ==> #[trigger] c@[k] == '.' || c@[k] == ' ',
        decreases c.len() - i,
    {
        i += 1;
    }
    let mut j: usize = c.len();
    while j > i && (c[j - 1] == '.' || c[j - 1] == ' ')
        invariant
            i <= j <= c@.len(),
            forall|k: int| j <= k < c@.len() ==> #[trigger] c@[k] == '.' || c@[k] == ' ',
        decreases j,
    {
        j -= 1;
    }
    proof {
        let np = none_of(dot_or_space());
        lemma_first_is(c@, np, i as int);
        let t = c@.skip(i as int);
        assert forall|k: int| j - i - 1 < k < t.len() implies !np(#[trigger] t[k]) by {
            assert(t[k] == c@[k + i]);
        }
        lemma_last_is(t, np, j - i - 1);
        assert(t.take(j - i) =~= c@.subrange(i as int, j as int));
    }
    let mut r: Vec<char> = Vec::new();
    let mut k: usize = i;
    while k < j
        invariant
            i <= k <= j <= c@.len(),
            r@ == c@.subrange(i as int, k as int),
        decreases j - k,
    {
        r.push(c[k]);
        k += 1;
        assert(c@.subrange(i as int, k as int) =~= c@.subrange(i as int, k - 1).push(c@[k - 1]));
    }
    r
}

/// A page title made safe to be a file name on any platform. The name arrives
/// from a web page and must never be trusted to be a leaf name: a `/` or a
/// `..` in it would place the finished file outside the folder it belongs in.
pub fn sanitize_file_name(raw: &str) -> (r: String)
    ensures
        r@ == safe_name(raw@),
{
    let c = chars_of(raw);
    let mut cleaned = String::new();
    let mut i: usize = 0;
    let ghost f = |c: char| safe_char(c);
    while i < c.len()
        invariant
            i <= c@.len(),
            c@ == raw@,
            f == (|c: char| safe_char(c)),
            cleaned@ == raw@.take(i as int).map_values(f),
        decreases c.len() - i,
    {
        let x = c[i];
        let y = if x == '/' || x == '\\' || x == ':' || x == '*' || x == '?' || x == '"' || x == '<'
            || x == '>' || x == '|' || (x as u32) < 0x20 {
            ' '
        } else {
            x
        };
        cleaned.push(y);
        i += 1;
        assert(raw@.take(i as int).map_values(f) =~= raw@.take(i - 1).map_values(f).push(
            safe_char(raw@[i - 1]),
        ));
    }
    assert(raw@.take(i as int) =~= raw@);
    assert(cleaned@ =~= raw@.map_values(|c: char| safe_char(c)));
    let parts = split_whitespace(&cleaned);
    let collapsed = join(&parts, " ");
    let t = trim_dots(&chars_of(&collapsed));
    let cut = fitting(&t, 120, 250);
    trim(&cut)
}

// ------------------------------------------------------------------ streams

/// Stems that name the manifest rather than the asset.
pub open spec fn generic_stem(s: Seq<char>) -> bool {
    ||| s == "index"@
    ||| s == "master"@
    ||| s == "manifest"@
    ||| s == "playlist"@
    ||| s == "mono"@
    ||| s == "stream"@
    ||| s == "media"@
    ||| s == "video"@
    ||| s == "main"@
}

fn is_generic_stem(s: &str) -> (r: bool)
    ensures
        r == generic_stem(s@),
{
    same(s, "index") || same(s, "master") || same(s, "manifest") || same(s, "playlist") || same(
        s,
        "mono",
    ) || same(s, "stream") || same(s, "media") || same(s, "video") || same(s, "main")
}

/// What an address calls its stream: the stem of its last segment, or the
/// segment above where that stem only names the manifest.
pub open spec fn stream_label(url: Seq<char>) -> Seq<char> {
    let segs = segments(path_of(url), '/');
    let file = if segs.len() > 0 {
        segs.last()
    } else {
        "stream"@
    };
    let stem = match split_last(file, '.') {
        Some((s, _)) => s,
        None => file,
    };
    if generic_stem(lower(stem)) && segs.len() > 1 {
        segs[segs.len() - 2]
    } else {
        stem
    }
}

/// The file name for a stream, from its manifest's address.
pub open spec fn stream_name(url: Seq<char>) -> Seq<char> {
    let cleaned = safe_name(stream_label(url));
    if cleaned.len() == 0 {
        "stream"@
    } else {
        cleaned
    }
}

/// A file name for a stream, from its manifest's address. Manifests are
/// called `index.m3u8` or `master.mpd` almost everywhere, so the folder above
/// is what actually names the asset.
pub fn stream_base_name(url: &str) -> (r: String)
    ensures
        r@ == stream_name(url@),
{
    let path = url_path(url);
    let segs = split_segments(&path, '/');
    let n = segs.len();
    let ghost vs = views(segs@);
    let file = if n > 0 {
        segs[n - 1].clone()
    } else {
        "stream".to_owned()
    };
    assert(n > 0 ==> vs.last() == segs@[n - 1]@);
    let stem = match rsplit_once(&file, '.') {
        Some((s, _)) => s,
        None => file,
    };
    let picked = if is_generic_stem(&ascii_lower(&stem)) && n > 1 {
        assert(vs[vs.len() - 2] == segs@[n - 2]@);
        segs[n - 2].clone()
    } else {
        stem
    };
    let cleaned = sanitize_file_name(&picked);
    if cleaned.as_str().is_empty() {
        "stream".to_owned()
    } else {
        cleaned
    }
}

/// Whether an address is worth reading as a manifest.
pub open spec fn names_manifest(url: Seq<char>) -> bool {
    let bare = lower(up_to_either(url, '?', '#'));
    (begins(bare, "http://"@) || begins(bare, "https://"@)) && (ends(bare, ".m3u8"@) || ends(
        bare,
        ".m3u"@,
    ) || ends(bare, ".mpd"@))
}

/// Whether an address is worth reading as a manifest. The body decides in the
/// end; the extension is the cheap filter.
pub fn manifest_address(url: &str) -> (r: bool)
    ensures
        r == names_manifest(url@),
{
    let bare = ascii_lower(&before_either(url, '?', '#'));
    (starts_with(&bare, "http://") || starts_with(&bare, "https://")) && (ends_with(&bare, ".m3u8")
        || ends_with(&bare, ".m3u") || ends_with(&bare, ".mpd"))
}

// ---------------------------------------------------------------------- laws

/// A character that may stand in a file name, with a plain space as the only
/// white space.
pub open spec fn name_char(c: char) -> bool {
    safe_char(c) == c && (c as u32) >= 0x20 && (c == ' ' || !is_white(c))
}

pub open spec fn name_chars(s: Seq<char>) -> bool {
    forall|i: int| 0 <= i < s.len() ==> name_char(#[trigger] s[i])
}

proof fn lemma_split_pieces(s: Seq<char>, p: spec_fn(char) -> bool, k: int, i: int)
    requires
        0 <= k < split_on(s, p).len(),
        0 <= i < split_on(s, p)[k].len(),
    ensures
        !p(split_on(s, p)[k][i]),
        s.contains(split_on(s, p)[k][i]),
    decreases s.len(),
{
    crate::text::lemma_first(s, p);
    let j = first(s, p);
    if j >= s.len() {
        assert(split_on(s, p)[k] == s);
        assert(s.contains(s[i]));
    } else {
        let rest = s.skip(j + 1);
        if k == 0 {
            assert(split_on(s, p)[0] == s.take(j));
            assert(s.take(j)[i] == s[i]);
        } else {
            assert(split_on(s, p)[k] == split_on(rest, p)[k - 1]);
            lemma_split_pieces(rest, p, k - 1, i);
            let c = split_on(rest, p)[k - 1][i];
            let m = choose|m: int| 0 <= m < rest.len() && rest[m] == c;
            assert(s[m + j + 1] == c);
        }
    }
}

proof fn lemma_words_are_names(s: Seq<char>)
    requires
        forall|i: int| 0 <= i < s.len() ==> safe_char(#[trigger] s[i]) == s[i] && s[i] as u32
            >= 0x20,
    ensures
        forall|k: int| 0 <= k < words(s).len() ==> name_chars(#[trigger] words(s)[k]),
{
    let all = split_on(s, white());
    assert forall|k: int| 0 <= k < words(s).len() implies name_chars(#[trigger] words(s)[k]) by {
        let w = words(s)[k];
        assert(all.contains(w)) by {
            all.lemma_filter_contains_rev(nonempty(), w);
        }
        let m = choose|m: int| 0 <= m < all.len() && all[m] == w;
        assert forall|i: int| 0 <= i < w.len() implies name_char(#[trigger] w[i]) by {
            lemma_split_pieces(s, white(), m, i);
            let x = choose|x: int| 0 <= x < s.len() && s[x] == w[i];
            assert(safe_char(s[x]) == s[x]);
        }
    }
}

proof fn lemma_joined_names(v: Seq<Seq<char>>)
    requires
        forall|k: int| 0 <= k < v.len() ==> name_chars(#[trigger] v[k]),
    ensures
        name_chars(joined(v, " "@)),
    decreases v.len(),
{
    reveal_strlit(" ");
    if v.len() > 1 {
        let t = v.drop_last();
        assert forall|k: int| 0 <= k < t.len() implies name_chars(#[trigger] t[k]) by {
            assert(t[k] == v[k]);
        }
        lemma_joined_names(t);
        assert(name_chars(v[v.len() - 1]));
        let a = joined(t, " "@);
        let r = a + " "@ + v.last();
        assert forall|i: int| 0 <= i < r.len() implies name_char(#[trigger] r[i]) by {
            if i < a.len() {
                assert(r[i] == a[i]);
            } else if i == a.len() {
                assert(r[i] == ' ');
            } else {
                assert(r[i] == v.last()[i - a.len() - 1]);
            }
        }
    } else if v.len() == 1 {
        assert(name_chars(v[0]));
    }
}

proof fn lemma_tidy_is_a_name(raw: Seq<char>)
    ensures
        name_chars(tidy(raw)),
        tidy(raw).len() > 0 ==> tidy(raw)[0] != '.' && tidy(raw)[0] != ' ',
{
    let f = |c: char| safe_char(c);
    let clean = raw.map_values(f);
    assert forall|i: int| 0 <= i < clean.len() implies safe_char(#[trigger] clean[i]) == clean[i]
        && clean[i] as u32 >= 0x20 by {
        assert(clean[i] == safe_char(raw[i]));
    }
    lemma_words_are_names(clean);
    let v = words(clean);
    lemma_joined_names(v);
    let c = joined(v, " "@);
    let np = none_of(dot_or_space());
    crate::text::lemma_first(c, np);
    let a = c.skip(first(c, np));
    lemma_last(a, np);
    let r = a.take(last(a, np) + 1);
    assert forall|i: int| 0 <= i < r.len() implies name_char(#[trigger] r[i]) by {
        assert(r[i] == c[i + first(c, np)]);
    }
    if r.len() > 0 {
        assert(r[0] == c[first(c, np)]);
        assert(np(c[first(c, np)]));
    }
}

/// A title made into a file name holds no separator and no control character,
/// does not begin with a dot, and is at most 120 characters and 250 bytes
/// long: it can neither leave its folder nor be too long to store.
pub proof fn safe_names_stay_in_their_folder(raw: Seq<char>)
    ensures
        name_chars(safe_name(raw)),
        !safe_name(raw).contains('/'),
        !safe_name(raw).contains('\\'),
        safe_name(raw).len() > 0 ==> safe_name(raw)[0] != '.',
        safe_name(raw).len() <= 120,
        encode_utf8(safe_name(raw)).len() <= 250,
{
    lemma_tidy_is_a_name(raw);
    let t = at_most(tidy(raw), 120);
    lemma_fit_bounds(t, 250);
    let f = fit(t, 250);
    assert forall|i: int| 0 <= i < f.len() implies name_char(#[trigger] f[i]) && f[i] == tidy(
        raw,
    )[i] by {
        assert(f[i] == t[i]);
        assert(t[i] == tidy(raw)[i]);
    }
    let np = none_of(white());
    crate::text::lemma_first(f, np);
    if f.len() > 0 {
        assert(name_char(f[0]));
        assert(f[0] == tidy(raw)[0]);
        assert(np(f[0]));
        assert(first(f, np) == 0);
    }
    let a = f.skip(first(f, np));
    assert(f.len() > 0 ==> a =~= f);
    lemma_last(a, np);
    let r = a.take(last(a, np) + 1);
    assert(r == safe_name(raw));
    assert(r =~= f.take(r.len() as int));
    lemma_encode_grows(f, r.len() as int);
    assert forall|i: int| 0 <= i < r.len() implies name_char(#[trigger] r[i]) by {
        assert(r[i] == f[i]);
    }
    if r.contains('/') {
        let i = choose|i: int| 0 <= i < r.len() && r[i] == '/';
        assert(name_char(r[i]));
    }
    if r.contains('\\') {
        let i = choose|i: int| 0 <= i < r.len() && r[i] == '\\';
        assert(name_char(r[i]));
    }
}

/// A stream always gets a file name, never a path and never a hidden one.
pub proof fn streams_always_have_a_name(url: Seq<char>)
    ensures
        stream_name(url).len() > 0,
        name_chars(stream_name(url)),
        !stream_name(url).contains('/'),
        !stream_name(url).contains('\\'),
        !stream_name(url).contains(':'),
        stream_name(url)[0] != '.',
{
    safe_names_stay_in_their_folder(stream_label(url));
    reveal_strlit("stream");
    assert("stream"@.len() == 6);
    assert("stream"@ =~= seq!['s', 't', 'r', 'e', 'a', 'm']);
    let n = stream_name(url);
    assert forall|i: int| 0 <= i < n.len() implies name_char(#[trigger] n[i]) by {
    }
    if n.contains(':') {
        let i = choose|i: int| 0 <= i < n.len() && n[i] == ':';
        assert(name_char(n[i]));
    }
}

/// Splitting a path and joining the two parts again gives the path back,
/// where its last separator is a slash and the part behind it is not itself
/// absolute.
pub proof fn save_as_parts_join_again(path: Seq<char>)
    requires
        last(path, either('/', '\\')) >= 0 ==> path[last(path, either('/', '\\'))] == '/',
        last(path, either('/', '\\')) > 0 ==> path[last(path, either('/', '\\')) - 1] != '/',
    ensures
        path_in(save_as_parts(path).0, save_as_parts(path).1) == path,
{
    reveal_strlit("/");
    let p = either('/', '\\');
    lemma_last(path, p);
    let i = last(path, p);
    let (dir, name) = save_as_parts(path);
    assert("/"@ =~= seq!['/']);
    if i >= 0 {
        if name.len() > 0 {
            assert(name[0] == path[i + 1]);
            assert(!p(path[i + 1]));
        }
        if begins(name, "/"@) {
            assert(name.subrange(0, 1)[0] == name[0]);
        }
        if i == 0 {
            assert(dir =~= "/"@);
            assert(dir.subrange(0, 1) =~= dir);
            assert(ends(dir, "/"@));
            assert(dir + name =~= path);
        } else {
            assert(dir.len() == i);
            if ends(dir, "/"@) {
                assert(dir.subrange(dir.len() - 1, dir.len() as int)[0] == path[i - 1]);
            }
            assert(dir + "/"@ + name =~= path);
        }
    } else {
        assert(dir.len() == 0);
    }
}

} // verus!
