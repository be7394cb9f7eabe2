//! Translation: the message id is the English string itself.
//!
//! A missing entry falls back to the English text, so it can never render as
//! an identifier. Catalogues are flat JSON maps; an entry of a catalogue on
//! disk wins over the built-in one for the same language.
use crate::text::{
    ascii_lower, contains, first, has, lower, lower_char, same, split_on, split_text, to_lowercase,
    trim, trimmed, unicode_lowercase, up_to_either, views,
};
use std::collections::BTreeMap;
use vstd::prelude::*;

verus! {

/// The texts of one language, later pairs winning over earlier ones. Without
/// any pair it is English.
#[derive(Debug)]
pub struct Catalogue {
    pub tag: String,
    pub pairs: Vec<(String, String)>,
}

/// The model of [`Catalogue`].
#[verifier::ext_equal]
pub struct Texts {
    pub tag: Seq<char>,
    pub map: Map<Seq<char>, Seq<char>>,
}

pub open spec fn pair_texts(p: (String, String)) -> (Seq<char>, Seq<char>) {
    (p.0@, p.1@)
}

pub open spec fn pair_seq(v: Seq<(String, String)>) -> Seq<(Seq<char>, Seq<char>)> {
    v.map_values(|p: (String, String)| pair_texts(p))
}

/// The map that the pairs make up, later pairs winning.
pub open spec fn texts_of(v: Seq<(Seq<char>, Seq<char>)>) -> Map<Seq<char>, Seq<char>>
    decreases v.len(),
{
    if v.len() == 0 {
        Map::empty()
    } else {
        texts_of(v.drop_last()).insert(v.last().0, v.last().1)
    }
}

impl View for Catalogue {
    type V = Texts;

    open spec fn view(&self) -> Texts {
        Texts { tag: self.tag@, map: texts_of(pair_seq(self.pairs@)) }
    }
}

/// Plain English: nothing to translate.
pub open spec fn english() -> Texts {
    Texts { tag: "en"@, map: Map::empty() }
}

/// The text for `msgid` in a language.
pub open spec fn translated(t: Texts, msgid: Seq<char>) -> Seq<char> {
    if t.map.contains_key(msgid) {
        t.map[msgid]
    } else {
        msgid
    }
}

/// The language in effect: English where nothing is loaded.
pub open spec fn in_effect(t: Texts) -> Seq<char> {
    if t.map == Map::<Seq<char>, Seq<char>>::empty() {
        "en"@
    } else {
        t.tag
    }
}

proof fn lemma_texts_skip(v: Seq<(Seq<char>, Seq<char>)>, k: int, id: Seq<char>)
    requires
        0 <= k <= v.len(),
        forall|i: int| k <= i < v.len() ==> (#[trigger] v[i]).0 != id,
    ensures
        texts_of(v).contains_key(id) == texts_of(v.take(k)).contains_key(id),
        texts_of(v).contains_key(id) ==> texts_of(v)[id] == texts_of(v.take(k))[id],
    decreases v.len() - k,
{
    if k < v.len() {
        let t = v.drop_last();
        assert forall|i: int| k <= i < t.len() implies (#[trigger] t[i]).0 != id by {
            assert(t[i] == v[i]);
        }
        lemma_texts_skip(t, k, id);
        assert(t.take(k) =~= v.take(k));
        assert(v[v.len() - 1] == v.last());
    } else {
        assert(v.take(k) =~= v);
    }
}

proof fn lemma_texts_concat(a: Seq<(Seq<char>, Seq<char>)>, b: Seq<(Seq<char>, Seq<char>)>)
    ensures
        texts_of(a + b) == texts_of(a).union_prefer_right(texts_of(b)),
    decreases b.len(),
{
    if b.len() == 0 {
        assert(a + b =~= a);
        assert(texts_of(a) =~= texts_of(a).union_prefer_right(texts_of(b)));
    } else {
        lemma_texts_concat(a, b.drop_last());
        assert((a + b).drop_last() =~= a + b.drop_last());
        assert(texts_of(a + b) =~= texts_of(a).union_prefer_right(texts_of(b)));
    }
}

proof fn lemma_texts_empty(v: Seq<(Seq<char>, Seq<char>)>)
    ensures
        texts_of(v) == Map::<Seq<char>, Seq<char>>::empty() <==> v.len() == 0,
{
    if v.len() > 0 {
        assert(texts_of(v).contains_key(v.last().0));
    }
}

/// The text of the last of `pairs` whose key is `key`.
pub fn lookup(pairs: &Vec<(String, String)>, key: &str) -> (r: Option<String>)
    ensures
        crate::ext_info::opt_text(r) == (if texts_of(pair_seq(pairs@)).contains_key(key@) {
            Some(texts_of(pair_seq(pairs@))[key@])
        } else {
            None
        }),
{
    let ghost v = pair_seq(pairs@);
    let mut k: usize = pairs.len();
    while k > 0
        invariant
            k <= pairs@.len(),
            v == pair_seq(pairs@),
            forall|i: int| k <= i < v.len() ==> (#[trigger] v[i]).0 != key@,
        decreases k,
    {
        let p = &pairs[k - 1];
        assert(v[k - 1] == (p.0@, p.1@));
        if same(&p.0, key) {
            proof {
                lemma_texts_skip(v, k as int, key@);
                assert(v.take(k as int).last() == v[k - 1]);
            }
            return Some(p.1.clone());
        }
        k -= 1;
    }
    proof {
        lemma_texts_skip(v, 0, key@);
        assert(v.take(0) =~= seq![]);
    }
    None
}

impl Catalogue {
    /// Plain English: nothing to translate.
    pub fn english() -> (r: Catalogue)
        ensures
            r@ == english(),
    {
        let r = Catalogue { tag: "en".to_owned(), pairs: Vec::new() };
        assert(pair_seq(r.pairs@) =~= seq![]);
        r
    }

    /// Translate one text of the interface.
    pub fn tr(&self, msgid: &str) -> (r: String)
        ensures
            r@ == translated(self@, msgid@),
    {
        match lookup(&self.pairs, msgid) {
            Some(t) => t,
            None => msgid.to_owned(),
        }
    }

    /// The language in effect, for menus and display.
    pub fn current_locale(&self) -> (r: String)
        ensures
            r@ == in_effect(self@),
    {
        proof {
            lemma_texts_empty(pair_seq(self.pairs@));
        }
        if self.pairs.len() == 0 {
            "en".to_owned()
        } else {
            self.tag.clone()
        }
    }
}

/// The string pairs of a JSON object, in the order of their keys, as
/// `serde_json::from_slice` reads it into a sorted map of strings; nothing
/// where it refuses the text.
pub uninterp spec fn json_pairs(text: Seq<u8>) -> Option<Seq<(Seq<char>, Seq<char>)>>;

pub open spec fn pairs_view(v: Option<Vec<(String, String)>>) -> Option<
    Seq<(Seq<char>, Seq<char>)>,
> {
    match v {
        Some(v) => Some(pair_seq(v@)),
        None => None,
    }
}

/// `serde_json::from_slice` into a `BTreeMap<String, String>`, handed on as
/// its pairs. Which pairs come out is a function of the bytes alone.
#[verifier::external_body]
fn parse_pairs(text: &[u8]) -> (r: Option<Vec<(String, String)>>)
    ensures
        pairs_view(r) == json_pairs(text@),
{
    match serde_json::from_slice::<BTreeMap<String, String>>(text) {
        Ok(map) => Some(map.into_iter().collect()),
        Err(_) => None,
    }
}

pub open spec fn is_english(tag: Seq<char>) -> bool {
    tag == "en"@ || tag == "English"@
}

/// The texts of `tag`: the built-in ones overlaid with those from disk.
pub open spec fn overlaid(
    builtin: Option<Seq<(Seq<char>, Seq<char>)>>,
    disk: Option<Seq<(Seq<char>, Seq<char>)>>,
) -> Map<Seq<char>, Seq<char>> {
    let base = if builtin is Some {
        texts_of(builtin->0)
    } else {
        Map::empty()
    };
    if disk is Some {
        base.union_prefer_right(texts_of(disk->0))
    } else {
        base
    }
}

/// The language that asking for `tag` puts into effect: that of the tag with
/// its texts, and English where it is English or has none.
pub open spec fn locale_texts(
    tag: Seq<char>,
    builtin: Option<Seq<(Seq<char>, Seq<char>)>>,
    disk: Option<Seq<(Seq<char>, Seq<char>)>>,
) -> Texts {
    let map = overlaid(builtin, disk);
    if is_english(tag) || map == Map::<Seq<char>, Seq<char>>::empty() {
        english()
    } else {
        Texts { tag, map }
    }
}

/// The catalogue of `tag` from its built-in and its on-disk pairs.
pub fn merged_catalogue(
    tag: &str,
    builtin: Option<Vec<(String, String)>>,
    disk: Option<Vec<(String, String)>>,
) -> (r: Catalogue)
    ensures
        r@ == locale_texts(tag@, pairs_view(builtin), pairs_view(disk)),
{
    if same(tag, "en") || same(tag, "English") {
        return Catalogue::english();
    }
    let mut pairs: Vec<(String, String)> = match builtin {
        Some(b) => b,
        None => Vec::new(),
    };
    let ghost base = pairs@;
    assert(builtin is None ==> pair_seq(base) =~= seq![]);
    match disk {
        Some(d) => {
            let mut d = d;
            let ghost dv = d@;
            pairs.append(&mut d);
            proof {
                assert(pair_seq(pairs@) =~= pair_seq(base) + pair_seq(dv));
                lemma_texts_concat(pair_seq(base), pair_seq(dv));
            }
        },
        None => {},
    }
    assert(texts_of(pair_seq(pairs@)) == overlaid(pairs_view(builtin), pairs_view(disk)));
    proof {
        lemma_texts_empty(pair_seq(pairs@));
    }
    if pairs.len() == 0 {
        return Catalogue::english();
    }
    Catalogue { tag: tag.to_owned(), pairs }
}

/// Switch language. English (or the older spelling `English`) clears back to
/// the built-in base; an unknown or broken catalogue falls back to it too.
/// `builtin` is the catalogue that ships with the program, `disk` the one
/// that the user put into the program's folder.
pub fn set_locale(tag: &str, builtin: Option<&[u8]>, disk: Option<&[u8]>) -> (r: Catalogue)
    ensures
        r@ == locale_texts(
            tag@,
            match builtin {
                Some(b) => json_pairs(b@),
                None => None,
            },
            match disk {
                Some(d) => json_pairs(d@),
                None => None,
            },
        ),
{
    let b = match builtin {
        Some(b) => parse_pairs(b),
        None => None,
    };
    let d = match disk {
        Some(d) => parse_pairs(d),
        None => None,
    };
    merged_catalogue(tag, b, d)
}

// ---------------------------------------------------------------- languages

/// The name of a built-in language in that language.
pub open spec fn native_name(tag: Seq<char>) -> Option<Seq<char>> {
    if tag == "ar"@ {
        Some("العربية"@)
    } else if tag == "cs"@ {
        Some("Čeština"@)
    } else if tag == "da"@ {
        Some("Dansk"@)
    } else if tag == "de"@ {
        Some("Deutsch"@)
    } else if tag == "el"@ {
        Some("Ελληνικά"@)
    } else if tag == "en"@ {
        Some("English"@)
    } else if tag == "es"@ {
        Some("Español"@)
    } else if tag == "fa"@ {
        Some("فارسی"@)
    } else if tag == "fi"@ {
        Some("Suomi"@)
    } else if tag == "fr"@ {
        Some("Français"@)
    } else if tag == "he"@ {
        Some("עברית"@)
    } else if tag == "hi"@ {
        Some("हिन्दी"@)
    } else if tag == "hu"@ {
        Some("Magyar"@)
    } else if tag == "id"@ {
        Some("Bahasa Indonesia"@)
    } else if tag == "it"@ {
        Some("Italiano"@)
    } else if tag == "ja"@ {
        Some("日本語"@)
    } else if tag == "ko"@ {
        Some("한국어"@)
    } else if tag == "nl"@ {
        Some("Nederlands"@)
    } else if tag == "pl"@ {
        Some("Polski"@)
    } else if tag == "pt"@ {
        Some("Português"@)
    } else if tag == "pt-BR"@ {
        Some("Português (Brasil)"@)
    } else if tag == "ro"@ {
        Some("Română"@)
    } else if tag == "ru"@ {
        Some("Русский"@)
    } else if tag == "sv"@ {
        Some("Svenska"@)
    } else if tag == "th"@ {
        Some("ไทย"@)
    } else if tag == "tr"@ {
        Some("Türkçe"@)
    } else if tag == "uk"@ {
        Some("Українська"@)
    } else if tag == "vi"@ {
        Some("Tiếng Việt"@)
    } else if tag == "zh"@ {
        Some("简体中文"@)
    } else if tag == "zh-Hant"@ {
        Some("繁體中文"@)
    } else {
        None
    }
}

pub open spec fn opt_str(s: Option<&str>) -> Option<Seq<char>> {
    match s {
        Some(s) => Some(s@),
        None => None,
    }
}

fn builtin_name(tag: &str) -> (r: Option<&'static str>)
    ensures
        opt_str(r) == native_name(tag@),
{
    if same(tag, "ar") {
        return Some("العربية");
    }
    if same(tag, "cs") {
        return Some("Čeština");
    }
    if same(tag, "da") {
        return Some("Dansk");
    }
    if same(tag, "de") {
        return Some("Deutsch");
    }
    if same(tag, "el") {
        return Some("Ελληνικά");
    }
    if same(tag, "en") {
        return Some("English");
    }
    if same(tag, "es") {
        return Some("Español");
    }
    if same(tag, "fa") {
        return Some("فارسی");
    }
    if same(tag, "fi") {
        return Some("Suomi");
    }
    if same(tag, "fr") {
        return Some("Français");
    }
    if same(tag, "he") {
        return Some("עברית");
    }
    if same(tag, "hi") {
        return Some("हिन्दी");
    }
    if same(tag, "hu") {
        return Some("Magyar");
    }
    if same(tag, "id") {
        return Some("Bahasa Indonesia");
    }
    if same(tag, "it") {
        return Some("Italiano");
    }
    if same(tag, "ja") {
        return Some("日本語");
    }
    if same(tag, "ko") {
        return Some("한국어");
    }
    if same(tag, "nl") {
        return Some("Nederlands");
    }
    if same(tag, "pl") {
        return Some("Polski");
    }
    if same(tag, "pt") {
        return Some("Português");
    }
    if same(tag, "pt-BR") {
        return Some("Português (Brasil)");
    }
    if same(tag, "ro") {
        return Some("Română");
    }
    if same(tag, "ru") {
        return Some("Русский");
    }
    if same(tag, "sv") {
        return Some("Svenska");
    }
    if same(tag, "th") {
        return Some("ไทย");
    }
    if same(tag, "tr") {
        return Some("Türkçe");
    }
    if same(tag, "uk") {
        return Some("Українська");
    }
    if same(tag, "vi") {
        return Some("Tiếng Việt");
    }
    if same(tag, "zh") {
        return Some("简体中文");
    }
    if same(tag, "zh-Hant") {
        return Some("繁體中文");
    }
    None
}

/// Native display name for a tag; the tag itself where it is not built in.
pub fn display_name(tag: &str) -> (r: String)
    ensures
        r@ == (match native_name(tag@) {
            Some(n) => n,
            None => tag@,
        }),
{
    match builtin_name(tag) {
        Some(n) => n.to_owned(),
        None => tag.to_owned(),
    }
}

/// The tags of the built-in languages, in the order of the menu.
pub open spec fn builtin_tags() -> Seq<Seq<char>> {
    seq![
        "ar"@,
        "cs"@,
        "da"@,
        "de"@,
        "el"@,
        "en"@,
        "es"@,
        "fa"@,
        "fi"@,
        "fr"@,
        "he"@,
        "hi"@,
        "hu"@,
        "id"@,
        "it"@,
        "ja"@,
        "ko"@,
        "nl"@,
        "pl"@,
        "pt"@,
        "pt-BR"@,
        "ro"@,
        "ru"@,
        "sv"@,
        "th"@,
        "tr"@,
        "uk"@,
        "vi"@,
        "zh"@,
        "zh-Hant"@,
    ]
}

fn builtin_list() -> (r: Vec<String>)
    ensures
        views(r@) == builtin_tags(),
{
    let mut tags: Vec<String> = Vec::new();
    tags.push("ar".to_owned());
    tags.push("cs".to_owned());
    tags.push("da".to_owned());
    tags.push("de".to_owned());
    tags.push("el".to_owned());
    tags.push("en".to_owned());
    tags.push("es".to_owned());
    tags.push("fa".to_owned());
    tags.push("fi".to_owned());
    tags.push("fr".to_owned());
    tags.push("he".to_owned());
    tags.push("hi".to_owned());
    tags.push("hu".to_owned());
    tags.push("id".to_owned());
    tags.push("it".to_owned());
    tags.push("ja".to_owned());
    tags.push("ko".to_owned());
    tags.push("nl".to_owned());
    tags.push("pl".to_owned());
    tags.push("pt".to_owned());
    tags.push("pt-BR".to_owned());
    tags.push("ro".to_owned());
    tags.push("ru".to_owned());
    tags.push("sv".to_owned());
    tags.push("th".to_owned());
    tags.push("tr".to_owned());
    tags.push("uk".to_owned());
    tags.push("vi".to_owned());
    tags.push("zh".to_owned());
    tags.push("zh-Hant".to_owned());
    assert(views(tags@) =~= builtin_tags());
    tags
}

/// `tags` with the tag of one file of the catalogue folder, where the file is
/// a catalogue whose tag is not listed yet.
pub open spec fn with_file(tags: Seq<Seq<char>>, file: Seq<char>) -> Seq<Seq<char>> {
    if crate::text::ends(file, ".json"@) {
        let tag = file.take(file.len() - ".json"@.len());
        if tags.contains(tag) {
            tags
        } else {
            tags.push(tag)
        }
    } else {
        tags
    }
}

/// `tags` with the tags of all `files` in turn.
pub open spec fn with_files(tags: Seq<Seq<char>>, files: Seq<Seq<char>>) -> Seq<Seq<char>>
    decreases files.len(),
{
    if files.len() == 0 {
        tags
    } else {
        with_file(with_files(tags, files.drop_last()), files.last())
    }
}

/// The languages on offer: the built-in ones and then those of the files in
/// the catalogue folder, each once.
pub fn available(files: &Vec<String>) -> (r: Vec<String>)
    ensures
        views(r@) == with_files(builtin_tags(), views(files@)),
{
    let mut tags = builtin_list();
    let mut i: usize = 0;
    assert(views(files@).take(0) =~= seq![]);
    while i < files.len()
        invariant
            i <= files@.len(),
            views(tags@) == with_files(builtin_tags(), views(files@).take(i as int)),
        decreases files.len() - i,
    {
        let f = &files[i];
        let ghost seen = views(tags@);
        if crate::text::ends_with(f, ".json") {
            let c = crate::text::chars_of(f);
            let suffix = crate::text::chars_of(".json");
            let tag = crate::text::sub_text(&c, 0, c.len() - suffix.len());
            assert(tag@ =~= f@.take(f@.len() - ".json"@.len()));
            if !listed(&tags, &tag) {
                let ghost before = tags@;
                tags.push(tag);
                assert(views(tags@) =~= views(before).push(tag@));
            }
        }
        assert(views(tags@) == with_file(seen, f@));
        i += 1;
        proof {
            let vf = views(files@);
            assert(vf.take(i as int).drop_last() =~= vf.take(i - 1));
            assert(vf.take(i as int).last() == f@);
        }
    }
    assert(views(files@).take(i as int) =~= views(files@));
    tags
}

/// Whether `x` is one of the strings of `v`.
pub fn listed(v: &Vec<String>, x: &str) -> (r: bool)
    ensures
        r == views(v@).contains(x@),
{
    let mut i: usize = 0;
    while i < v.len()
        invariant
            i <= v@.len(),
            forall|k: int| 0 <= k < i ==> (#[trigger] v@[k])@ != x@,
        decreases v.len() - i,
    {
        if same(&v[i], x) {
            assert(views(v@)[i as int] == x@);
            return true;
        }
        i += 1;
    }
    assert forall|k: int| 0 <= k < views(v@).len() implies views(v@)[k] != x@ by {
        assert(v@[k]@ != x@);
    }
    false
}

// ---------------------------------------------------------- system language

pub open spec fn locale_gap() -> spec_fn(char) -> bool {
    |c: char| c == '_' || c == '.' || c == '-'
}

/// The built-in tag closest to an operating system's locale.
pub open spec fn os_tag(locale: Seq<char>) -> Seq<char> {
    let l = unicode_lowercase(locale);
    os_tag_of(l)
}

/// The whole tag of a locale: what stands before an encoding or a modifier,
/// with its parts joined by hyphens.
pub open spec fn whole_tag(l: Seq<char>) -> Seq<char> {
    trimmed(up_to_either(l, '.', '@')).map_values(
        |c: char|
            if c == '_' {
                '-'
            } else {
                c
            },
    )
}

/// The first of `tags` that is spelled `name`, letter case aside.
pub open spec fn tag_spelled(tags: Seq<Seq<char>>, name: Seq<char>) -> Option<Seq<char>>
    decreases tags.len(),
{
    if tags.len() == 0 {
        None
    } else if lower(tags[0]) == name {
        Some(tags[0])
    } else {
        tag_spelled(tags.drop_first(), name)
    }
}

/// Whether a locale is of the Chinese that is written in traditional
/// characters.
pub open spec fn traditional(l: Seq<char>) -> bool {
    contains(l, "tw"@) || contains(l, "hk"@) || contains(l, "mo"@) || contains(l, "hant"@)
}

/// The built-in tag closest to a locale that is already in lower case: the tag
/// that it spells as a whole, or the one of its language alone. Chinese has two,
/// and the place tells them apart.
pub open spec fn os_tag_of(l: Seq<char>) -> Seq<char> {
    let base = trimmed(l.take(first(l, locale_gap())));
    if base == "zh"@ {
        if traditional(l) {
            "zh-Hant"@
        } else {
            "zh"@
        }
    } else {
        match tag_spelled(builtin_tags(), whole_tag(l)) {
            Some(tag) => tag,
            None => if builtin_tags().contains(base) {
                base
            } else {
                "en"@
            },
        }
    }
}

proof fn lemma_tag_spelled(tags: Seq<Seq<char>>, name: Seq<char>)
    ensures
        tag_spelled(tags, name) matches Some(t) ==> tags.contains(t) && lower(t) == name,
        tag_spelled(tags, name) is None ==> forall|i: int|
            0 <= i < tags.len() ==> lower(#[trigger] tags[i]) != name,
    decreases tags.len(),
{
    if tags.len() > 0 {
        let rest = tags.drop_first();
        lemma_tag_spelled(rest, name);
        if lower(tags[0]) == name {
            assert(tags.contains(tags[0]));
        } else {
            if let Some(t) = tag_spelled(rest, name) {
                let k = choose|k: int| 0 <= k < rest.len() && rest[k] == t;
                assert(tags[k + 1] == t);
            }
            assert forall|i: int| 0 <= i < tags.len() && tag_spelled(rest, name) is None implies lower(
                #[trigger] tags[i],
            ) != name by {
                if i > 0 {
                    assert(rest[i - 1] == tags[i]);
                }
            }
        }
    }
}

fn find_tag(tags: &Vec<String>, name: &str) -> (r: Option<String>)
    ensures
        crate::ext_info::opt_text(r) == tag_spelled(views(tags@), name@),
{
    let ghost all = views(tags@);
    let mut i: usize = 0;
    assert(all.skip(0) =~= all);
    while i < tags.len()
        invariant
            i <= tags@.len(),
            all == views(tags@),
            tag_spelled(all, name@) == tag_spelled(all.skip(i as int), name@),
        decreases tags.len() - i,
    {
        assert(all.skip(i as int)[0] == tags@[i as int]@);
        if same(&ascii_lower(&tags[i]), name) {
            return Some(tags[i].clone());
        }
        assert(all.skip(i as int).drop_first() =~= all.skip(i + 1));
        i += 1;
    }
    None
}

fn whole_name(l: &str) -> (r: String)
    ensures
        r@ == whole_tag(l@),
{
    let t = trim(&crate::text::before_either(l, '.', '@'));
    let c = crate::text::chars_of(&t);
    let mut r = String::new();
    let mut i: usize = 0;
    assert(r@ =~= seq![]);
    while i < c.len()
        invariant
            i <= c@.len(),
            c@ == t@,
            r@.len() == i,
            forall|k: int|
                0 <= k < i ==> #[trigger] r@[k] == (if c@[k] == '_' {
                    '-'
                } else {
                    c@[k]
                }),
        decreases c.len() - i,
    {
        if c[i] == '_' {
            r.push('-');
        } else {
            r.push(c[i]);
        }
        i += 1;
    }
    assert(r@ =~= whole_tag(l@));
    r
}

/// The built-in tag closest to a locale that is already in lower case.
pub fn tag_for_lowercase(l: &str) -> (r: String)
    ensures
        r@ == os_tag_of(l@),
        builtin_tags().contains(r@),
{
    let c = crate::text::chars_of(l);
    let mut i: usize = 0;
    while i < c.len() && c[i] != '_' && c[i] != '.' && c[i] != '-'
        invariant
            i <= c@.len(),
            forall|k: int| 0 <= k < i ==> #[trigger] c@[k] != '_' && c@[k] != '.' && c@[k] != '-',
        decreases c.len() - i,
    {
        i += 1;
    }
    proof {
        crate::text::lemma_first_is(c@, locale_gap(), i as int);
        a_locale_always_has_a_built_in_tag(l@);
    }
    let head = crate::text::sub_text(&c, 0, i);
    assert(head@ =~= l@.take(i as int));
    let base = trim(&head);
    if same(&base, "zh") {
        if has(l, "tw") || has(l, "hk") || has(l, "mo") || has(l, "hant") {
            return "zh-Hant".to_owned();
        }
        return "zh".to_owned();
    }
    let tags = builtin_list();
    match find_tag(&tags, &whole_name(l)) {
        Some(tag) => tag,
        None => if listed(&tags, &base) {
            base
        } else {
            "en".to_owned()
        },
    }
}

/// Map an operating system's locale (`zh-cn`, `zh_CN.UTF-8`, `pt-BR`) to the
/// closest built-in tag.
pub fn map_os_locale(locale: &str) -> (r: String)
    ensures
        r@ == os_tag(locale@),
        builtin_tags().contains(r@),
{
    let l = to_lowercase(locale);
    tag_for_lowercase(&l)
}

/// The first tag other than English among those of the candidates; English
/// where there is none.
pub open spec fn first_foreign(tags: Seq<Seq<char>>) -> Seq<char>
    decreases tags.len(),
{
    if tags.len() == 0 {
        "en"@
    } else if tags[0] != "en"@ {
        tags[0]
    } else {
        first_foreign(tags.drop_first())
    }
}

/// The user's preferred language out of the locales that the operating system
/// names, the most telling first; English where none of them maps to another
/// built-in language. Used while no language has been configured.
pub fn detect_system_locale(locales: &Vec<String>) -> (r: String)
    ensures
        r@ == first_foreign(views(locales@).map_values(|l: Seq<char>| os_tag(unicode_lowercase(l)))),
        builtin_tags().contains(r@),
{
    assert(builtin_tags()[5] == "en"@);
    let ghost tags = views(locales@).map_values(|l: Seq<char>| os_tag(unicode_lowercase(l)));
    let mut i: usize = 0;
    assert(tags.skip(0) =~= tags);
    while i < locales.len()
        invariant
            i <= locales@.len(),
            tags == views(locales@).map_values(|l: Seq<char>| os_tag(unicode_lowercase(l))),
            first_foreign(tags) == first_foreign(tags.skip(i as int)),
        decreases locales.len() - i,
    {
        let l = to_lowercase(&locales[i]);
        let tag = map_os_locale(&l);
        assert(tags[i as int] == tag@);
        assert(tags.skip(i as int)[0] == tags[i as int]);
        if !same(&tag, "en") {
            return tag;
        }
        assert(tags.skip(i as int).drop_first() =~= tags.skip(i + 1));
        i += 1;
    }
    "en".to_owned()
}

/// The locales named in a semicolon-separated list of preferred languages,
/// blank entries left out.
pub fn preferred_languages(list: &str) -> (r: Vec<String>)
    ensures
        views(r@) == split_on(list@, crate::text::is_char(';')).map_values(
            |l: Seq<char>| trimmed(l),
        ).filter(crate::text::nonempty()),
{
    let parts = split_text(list, ';');
    let mut r: Vec<String> = Vec::new();
    let mut i: usize = 0;
    let ghost all = views(parts@).map_values(|l: Seq<char>| trimmed(l));
    assert(all.take(0) =~= seq![]);
    proof {
        reveal(Seq::filter);
    }
    while i < parts.len()
        invariant
            i <= parts@.len(),
            all == views(parts@).map_values(|l: Seq<char>| trimmed(l)),
            views(r@) == all.take(i as int).filter(crate::text::nonempty()),
        decreases parts.len() - i,
    {
        let t = trim(&parts[i]);
        assert(all[i as int] == t@);
        proof {
            reveal(Seq::filter);
            assert(all.take(i + 1).drop_last() =~= all.take(i as int));
            assert(all.take(i + 1).last() == t@);
        }
        if !t.as_str().is_empty() {
            let ghost before = r@;
            r.push(t);
            assert(views(r@) =~= views(before).push(t@));
        }
        i += 1;
    }
    assert(all.take(i as int) =~= all);
    r
}

// ---------------------------------------------------------------------- laws

/// In English, and for a text without a translation, the text stands for itself.
pub proof fn untranslated_texts_stand_for_themselves(t: Texts, msgid: Seq<char>)
    requires
        !t.map.contains_key(msgid),
    ensures
        translated(t, msgid) == msgid,
{
}

/// An entry from disk wins over the built-in one for the same language.
pub proof fn disk_entries_win(
    tag: Seq<char>,
    builtin: Option<Seq<(Seq<char>, Seq<char>)>>,
    disk: Seq<(Seq<char>, Seq<char>)>,
    msgid: Seq<char>,
)
    requires
        !is_english(tag),
        texts_of(disk).contains_key(msgid),
    ensures
        translated(locale_texts(tag, builtin, Some(disk)), msgid) == texts_of(disk)[msgid],
{
    assert(overlaid(builtin, Some(disk)).contains_key(msgid));
}

/// The language that was asked for is in effect; English is where there are no
/// texts for it.
pub proof fn the_chosen_language_is_in_effect(
    tag: Seq<char>,
    builtin: Option<Seq<(Seq<char>, Seq<char>)>>,
    disk: Option<Seq<(Seq<char>, Seq<char>)>>,
)
    ensures
        in_effect(locale_texts(tag, builtin, disk)) == (if is_english(tag) || overlaid(
            builtin,
            disk,
        ) == Map::<Seq<char>, Seq<char>>::empty() {
            "en"@
        } else {
            tag
        }),
{
}

/// Whatever the operating system names, the answer is a built-in language.
pub proof fn a_locale_always_has_a_built_in_tag(l: Seq<char>)
    ensures
        builtin_tags().contains(os_tag_of(l)),
{
    lemma_tag_spelled(builtin_tags(), whole_tag(l));
    assert(builtin_tags()[5] == "en"@);
    assert(builtin_tags()[28] == "zh"@);
    assert(builtin_tags()[29] == "zh-Hant"@);
}

/// A number by which the spelling of a built-in tag is told from the others.
spec fn tag_mark(s: Seq<char>) -> int {
    (s[0] as int * 128 + s[1] as int) * 16 + s.len()
}

proof fn lemma_tag_marks(k: int)
    requires
        0 <= k < builtin_tags().len() - 1,
    ensures
        tag_mark(lower(builtin_tags()[k])) < tag_mark(lower(builtin_tags()[k + 1])),
{
    lemma_tag_letters(k);
    lemma_tag_letters(k + 1);
}

/// The built-in tags stand in the order of their marks.
proof fn lemma_tags_ordered(a: int, b: int)
    requires
        0 <= a < b < builtin_tags().len(),
    ensures
        tag_mark(lower(builtin_tags()[a])) < tag_mark(lower(builtin_tags()[b])),
    decreases b - a,
{
    lemma_tag_marks(b - 1);
    if a < b - 1 {
        lemma_tags_ordered(a, b - 1);
    }
}

/// The mark of the `k`-th built-in tag.
spec fn letters_at(k: int) -> int {
    if k == 0 {
        200482
    } else if k == 1 {
        204594
    } else if k == 2 {
        206354
    } else if k == 3 {
        206418
    } else if k == 4 {
        208578
    } else if k == 5 {
        208610
    } else if k == 6 {
        208690
    } else if k == 7 {
        210450
    } else if k == 8 {
        210578
    } else if k == 9 {
        210722
    } else if k == 10 {
        214610
    } else if k == 11 {
        214674
    } else if k == 12 {
        214866
    } else if k == 13 {
        216642
    } else if k == 14 {
        216898
    } else if k == 15 {
        218642
    } else if k == 16 {
        220914
    } else if k == 17 {
        227010
    } else if k == 18 {
        231106
    } else if k == 19 {
        231234
    } else if k == 20 {
        231237
    } else if k == 21 {
        235250
    } else if k == 22 {
        235346
    } else if k == 23 {
        237410
    } else if k == 24 {
        239234
    } else if k == 25 {
        239394
    } else if k == 26 {
        241330
    } else if k == 27 {
        243346
    } else if k == 28 {
        251522
    } else if k == 29 {
        251527
    } else {
        0
    }
}

proof fn lemma_tag_letters(k: int)
    requires
        0 <= k < builtin_tags().len(),
    ensures
        builtin_tags()[k].len() >= 2,
        tag_mark(lower(builtin_tags()[k])) == letters_at(k),
{
    let t = builtin_tags()[k];
    if k == 0 {
        reveal_strlit("ar");
    } else if k == 1 {
        reveal_strlit("cs");
    } else if k == 2 {
        reveal_strlit("da");
    } else if k == 3 {
        reveal_strlit("de");
    } else if k == 4 {
        reveal_strlit("el");
    } else if k == 5 {
        reveal_strlit("en");
    } else if k == 6 {
        reveal_strlit("es");
    } else if k == 7 {
        reveal_strlit("fa");
    } else if k == 8 {
        reveal_strlit("fi");
    } else if k == 9 {
        reveal_strlit("fr");
    } else if k == 10 {
        reveal_strlit("he");
    } else if k == 11 {
        reveal_strlit("hi");
    } else if k == 12 {
        reveal_strlit("hu");
    } else if k == 13 {
        reveal_strlit("id");
    } else if k == 14 {
        reveal_strlit("it");
    } else if k == 15 {
        reveal_strlit("ja");
    } else if k == 16 {
        reveal_strlit("ko");
    } else if k == 17 {
        reveal_strlit("nl");
    } else if k == 18 {
        reveal_strlit("pl");
    } else if k == 19 {
        reveal_strlit("pt");
    } else if k == 20 {
        reveal_strlit("pt-BR");
    } else if k == 21 {
        reveal_strlit("ro");
    } else if k == 22 {
        reveal_strlit("ru");
    } else if k == 23 {
        reveal_strlit("sv");
    } else if k == 24 {
        reveal_strlit("th");
    } else if k == 25 {
        reveal_strlit("tr");
    } else if k == 26 {
        reveal_strlit("uk");
    } else if k == 27 {
        reveal_strlit("vi");
    } else if k == 28 {
        reveal_strlit("zh");
    } else if k == 29 {
        reveal_strlit("zh-Hant");
    }
    assert(t.len() >= 2);
    assert(lower(t)[0] == lower_char(t[0]) && lower(t)[1] == lower_char(t[1]));
}

/// A locale that spells a built-in tag as a whole, letter case and an encoding
/// aside, is mapped to that tag. For Chinese the place decides.
pub proof fn a_whole_tag_is_its_own_closest(l: Seq<char>, i: int)
    requires
        0 <= i < builtin_tags().len(),
        whole_tag(l) == lower(builtin_tags()[i]),
        trimmed(l.take(first(l, locale_gap()))) != "zh"@,
    ensures
        os_tag_of(l) == builtin_tags()[i],
{
    let name = whole_tag(l);
    lemma_tag_spelled(builtin_tags(), name);
    assert(lower(builtin_tags()[i]) == name);
    let t = tag_spelled(builtin_tags(), name)->0;
    let k = choose|k: int| 0 <= k < builtin_tags().len() && builtin_tags()[k] == t;
    if k < i {
        lemma_tags_ordered(k, i);
    } else if i < k {
        lemma_tags_ordered(i, k);
    }
}

} // verus!
