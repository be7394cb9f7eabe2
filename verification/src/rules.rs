//! The rules that typed lists and saved entries follow: file types, sites,
//! logins, and clicks that make a pair.
use crate::engine::{file_name_from_url, parse_url, provisional_name, url_parts};
use crate::model::{SiteLogin, SiteLoginModel};
use crate::text::{
    ascii_lower, begins, cat, contains, ends, ends_with, entries, has, is_char, lower, rsplit_once,
    same, split_entries, split_first, split_last, split_once, starts_with, strip_all, strip_front,
    strip_prefix, trim, trim_start_char, trim_start_text, trimmed, views,
};
use vstd::utf8::encode_utf8;
use vstd::prelude::*;

verus! {

/// Whether an extension is one of the types of a typed list, whatever its case.
pub open spec fn listed_type(ext: Seq<char>, types: Seq<char>) -> bool {
    exists|i: int|
        0 <= i < entries(types).len() && lower(#[trigger] entries(types)[i]) == lower(ext)
}

/// Is this extension one of the types in Options > File types? The list
/// accepts commas, spaces or newlines as separators.
pub fn type_listed(ext: &str, auto_types: &str) -> (r: bool)
    ensures
        r == listed_type(ext@, auto_types@),
{
    let want = ascii_lower(ext);
    let list = split_entries(auto_types);
    let ghost all = entries(auto_types@);
    let mut i: usize = 0;
    while i < list.len()
        invariant
            i <= list@.len(),
            all == views(list@),
            all == entries(auto_types@),
            want@ == lower(ext@),
            forall|k: int| 0 <= k < i ==> lower(#[trigger] all[k]) != lower(ext@),
        decreases list.len() - i,
    {
        let have = ascii_lower(&list[i]);
        assert(all[i as int] == list@[i as int]@);
        if same(&have, &want) {
            return true;
        }
        i += 1;
    }
    false
}

/// The marks of download hosts whose links carry no extension.
pub open spec fn download_host(url: Seq<char>) -> bool {
    ||| contains(url, "/releases/download/"@)
    ||| contains(url, "githubusercontent.com/"@)
    ||| contains(url, "/-/releases/"@)
    ||| contains(url, "sourceforge.net/projects/"@)
    ||| contains(url, "/files/download"@)
    ||| contains(url, "dl.google.com/"@)
}

/// The extension of a file name, whatever it is.
pub open spec fn tail_ext(name: Seq<char>) -> Option<Seq<char>> {
    match split_last(name, '.') {
        Some((_, e)) => Some(e),
        None => None,
    }
}

/// Whether a line of text looks like a download link.
pub open spec fn downloadable(url: Seq<char>, types: Seq<char>) -> bool {
    url_parts(url) is Ok && ((match tail_ext(provisional_name(url)) {
        Some(e) => listed_type(e, types),
        None => false,
    }) || download_host(url))
}

/// Does this clipboard line look like a download link? Two signals, either
/// suffices: the file extension is in the Options > File types list, or the
/// address matches a known download host whose links carry no extension.
pub fn looks_downloadable(url: &str, auto_types: &str) -> (r: bool)
    ensures
        r == downloadable(url@, auto_types@),
{
    if parse_url(url).is_err() {
        return false;
    }
    let name = file_name_from_url(url);
    if let Some((_, ext)) = rsplit_once(&name, '.') {
        if type_listed(&ext, auto_types) {
            return true;
        }
    }
    has(url, "/releases/download/") || has(url, "githubusercontent.com/") || has(
        url,
        "/-/releases/",
    ) || has(url, "sourceforge.net/projects/") || has(url, "/files/download") || has(
        url,
        "dl.google.com/",
    )
}

/// Whether a new download may pull bytes on its own, by its type.
pub open spec fn type_may_start(file_name: Seq<char>, url: Seq<char>, types: Seq<char>) -> bool {
    let ext = match tail_ext(file_name) {
        Some(e) => Some(e),
        None => tail_ext(provisional_name(url)),
    };
    match ext {
        Some(e) => listed_type(e, types),
        None => true,
    }
}

/// Auto-start policy for the "Download File Info" dialog. A type that the
/// user removed from Options > File types must not pull bytes on its own. A
/// name that carries no extension at all cannot be judged by the list and
/// stays allowed.
pub fn auto_start_type(file_name: &str, url: &str, auto_types: &str) -> (r: bool)
    ensures
        r == type_may_start(file_name@, url@, auto_types@),
{
    match rsplit_once(file_name, '.') {
        Some((_, e)) => type_listed(&e, auto_types),
        None => match rsplit_once(&file_name_from_url(url), '.') {
            Some((_, e)) => type_listed(&e, auto_types),
            None => true,
        },
    }
}

/// Whether `host` is `dom` or one of its subdomains.
pub open spec fn in_domain(host: Seq<char>, dom: Seq<char>) -> bool {
    host == dom || ends(host, "."@ + dom)
}

fn is_in_domain(host: &str, dom: &str) -> (r: bool)
    ensures
        r == in_domain(host@, dom@),
{
    same(host, dom) || ends_with(host, &cat(".", dom))
}

/// The domain that an entry of the sites list stands for.
pub open spec fn site_domain(pat: Seq<char>) -> Seq<char> {
    let p = lower(pat);
    if begins(p, "*."@) {
        p.skip("*."@.len() as int)
    } else {
        p
    }
}

/// Whether an address's host is on a list of sites.
pub open spec fn host_blocked(url: Seq<char>, sites: Seq<char>) -> bool {
    match url_parts(url) {
        Ok(p) => exists|i: int|
            0 <= i < entries(sites).len() && in_domain(
                lower(p.host),
                site_domain(#[trigger] entries(sites)[i]),
            ),
        Err(_) => false,
    }
}

/// Does this address's host match an entry in the "Don't start downloading
/// automatically from the following sites" list? Entries are separated by
/// white space or commas; a host matches an entry when it equals it or is one
/// of its subdomains, and the optional `*.` in front is cosmetic.
pub fn site_blocked(url: &str, dont_start_sites: &str) -> (r: bool)
    ensures
        r == host_blocked(url@, dont_start_sites@),
{
    let host = match parse_url(url) {
        Ok(p) => ascii_lower(&p.host),
        Err(_) => return false,
    };
    let list = split_entries(dont_start_sites);
    let ghost all = entries(dont_start_sites@);
    let mut i: usize = 0;
    while i < list.len()
        invariant
            i <= list@.len(),
            all == views(list@),
            all == entries(dont_start_sites@),
            url_parts(url@) is Ok,
            host@ == lower((url_parts(url@)->Ok_0).host),
            forall|k: int| 0 <= k < i ==> !in_domain(host@, site_domain(#[trigger] all[k])),
        decreases list.len() - i,
    {
        assert(all[i as int] == list@[i as int]@);
        let pat = ascii_lower(&list[i]);
        let dom = match strip_prefix(&pat, "*.") {
            Some(d) => d,
            None => pat,
        };
        if is_in_domain(&host, &dom) {
            return true;
        }
        i += 1;
    }
    false
}

// ------------------------------------------------------------------- logins

/// The host and the path that a saved site stands for.
pub open spec fn site_scope(site: Seq<char>) -> (Seq<char>, Seq<char>) {
    let s = strip_all(
        strip_all(strip_all(lower(trimmed(site)), "https://"@), "http://"@),
        "ftp://"@,
    );
    let (h, p) = match split_first(s, '/') {
        Some((h, p)) => (h, p),
        None => (s, seq![]),
    };
    (strip_all(h, "*."@), p)
}

/// Whether a saved site applies to a host and a path, both in lower case.
pub open spec fn login_applies(site: Seq<char>, host: Seq<char>, path: Seq<char>) -> bool {
    let (h, p) = site_scope(site);
    h.len() > 0 && in_domain(host, h) && (p.len() == 0 || begins(path, p))
}

fn applies(site: &str, host: &str, path: &str) -> (r: bool)
    ensures
        r == login_applies(site@, host@, path@),
{
    let s = ascii_lower(&trim(site));
    let s = trim_start_text(&s, "https://");
    let s = trim_start_text(&s, "http://");
    let s = trim_start_text(&s, "ftp://");
    let (h, p) = match split_once(&s, '/') {
        Some((h, p)) => (h, p),
        None => (s, String::new()),
    };
    let h = trim_start_text(&h, "*.");
    !h.as_str().is_empty() && is_in_domain(host, &h) && (p.as_str().is_empty() || starts_with(
        path,
        &p,
    ))
}

/// The length of a site as it is compared: the longer, the more specific.
pub open spec fn site_weight(l: SiteLoginModel) -> usize {
    encode_utf8(l.site).len() as usize
}

/// The place of the login that applies: of several the longest, and of equally
/// long ones the last; -1 where none applies.
pub open spec fn best_login(logins: Seq<SiteLoginModel>, host: Seq<char>, path: Seq<char>) -> int
    decreases logins.len(),
{
    if logins.len() == 0 {
        -1
    } else {
        let k = best_login(logins.drop_last(), host, path);
        if login_applies(logins.last().site, host, path) && (k < 0 || site_weight(logins[k])
            <= site_weight(logins.last())) {
            logins.len() - 1
        } else {
            k
        }
    }
}

/// The place of the login for an address; -1 where none applies.
pub open spec fn login_for(url: Seq<char>, logins: Seq<SiteLoginModel>) -> int {
    match url_parts(url) {
        Ok(p) => best_login(logins, lower(p.host), lower(strip_front(p.path, is_char('/')))),
        Err(_) => -1,
    }
}

proof fn lemma_best_login_range(logins: Seq<SiteLoginModel>, host: Seq<char>, path: Seq<char>)
    ensures
        -1 <= best_login(logins, host, path) < logins.len(),
    decreases logins.len(),
{
    if logins.len() > 0 {
        lemma_best_login_range(logins.drop_last(), host, path);
    }
}

/// Which Options > Sites Logins entry, if any, applies to this address. A
/// site matches by host (or subdomain), optionally scoped to a path prefix;
/// when several match, the longest wins, since it is the most specific.
pub fn find_login<'a>(url: &str, logins: &'a Vec<SiteLogin>) -> (r: Option<&'a SiteLogin>)
    ensures
        match r {
            Some(l) => 0 <= login_for(url@, logins.deep_view()) < logins@.len() && *l
                == logins@[login_for(url@, logins.deep_view())],
            None => login_for(url@, logins.deep_view()) == -1,
        },
{
    let parsed = match parse_url(url) {
        Ok(p) => p,
        Err(_) => return None,
    };
    let host = ascii_lower(&parsed.host);
    let path = ascii_lower(&trim_start_char(&parsed.path, '/'));
    let ghost all = logins.deep_view();
    let mut best: Option<usize> = None;
    let mut i: usize = 0;
    assert(all.take(0) =~= seq![]);
    while i < logins.len()
        invariant
            i <= logins@.len(),
            all == logins.deep_view(),
            match best {
                Some(k) => k < i && k == best_login(all.take(i as int), host@, path@),
                None => best_login(all.take(i as int), host@, path@) == -1,
            },
        decreases logins.len() - i,
    {
        proof {
            assert(all.take(i + 1).drop_last() =~= all.take(i as int));
            assert(all.take(i + 1).last() == logins@[i as int]@);
            lemma_best_login_range(all.take(i as int), host@, path@);
        }
        if applies(&logins[i].site, &host, &path) {
            match best {
                None => {
                    best = Some(i);
                },
                Some(k) => {
                    assert(all.take(i + 1)[k as int] == logins@[k as int]@);
                    if logins[k].site.as_str().len() <= logins[i].site.as_str().len() {
                        best = Some(i);
                    }
                },
            }
        }
        i += 1;
    }
    assert(all.take(i as int) =~= all);
    match best {
        Some(k) => Some(&logins[k]),
        None => None,
    }
}

// ------------------------------------------------------------- double clicks

/// Milliseconds within which two clicks on one row are a double click.
pub const DOUBLE_CLICK_MS: u64 = 400;

/// Whether a click at `now` on `name` closes a pair with the click before.
pub open spec fn closes_pair(
    last: Option<(Seq<char>, u64)>,
    name: Option<Seq<char>>,
    now: u64,
) -> bool {
    match (last, name) {
        (Some((prev, at)), Some(n)) => prev == n && (now <= at || now - at < DOUBLE_CLICK_MS),
        _ => false,
    }
}

/// What is remembered after a click.
pub open spec fn click_after(
    last: Option<(Seq<char>, u64)>,
    name: Option<Seq<char>>,
    now: u64,
) -> Option<(Seq<char>, u64)> {
    match name {
        Some(n) if !closes_pair(last, name, now) => Some((n, now)),
        _ => None,
    }
}

/// Times a click against the one before it. Two clicks on the same `name`
/// within 400 ms read as a double; a click on a different target, or on none
/// at all, restarts the count, and a completed pair ends the sequence.
/// Clicks are timed in milliseconds of a clock that does not run backwards.
pub fn double_click(last: &mut Option<(String, u64)>, name: Option<&str>, now: u64) -> (r: bool)
    ensures
        r == closes_pair(old(last).deep_view(), crate::i18n::opt_str(name), now),
        final(last).deep_view() == click_after(
            old(last).deep_view(),
            crate::i18n::opt_str(name),
            now,
        ),
{
    let name = match name {
        Some(n) => n,
        None => {
            *last = None;
            return false;
        },
    };
    let double = match &*last {
        Some((prev, at)) => same(prev, name) && now.saturating_sub(*at) < DOUBLE_CLICK_MS,
        None => false,
    };
    if double {
        *last = None;
    } else {
        *last = Some((name.to_owned(), now));
    }
    double
}

// ---------------------------------------------------------------------- laws

/// A pair is consumed: the click right behind a double click never makes
/// another one.
pub proof fn a_pair_is_consumed(
    last: Option<(Seq<char>, u64)>,
    name: Option<Seq<char>>,
    now: u64,
    next: Option<Seq<char>>,
    later: u64,
)
    requires
        closes_pair(last, name, now),
    ensures
        !closes_pair(click_after(last, name, now), next, later),
{
}

/// Only consecutive clicks on one row pair up: a detour through another row,
/// or through none, breaks the pair.
pub proof fn a_detour_breaks_the_pair(
    last: Option<(Seq<char>, u64)>,
    row: Seq<char>,
    detour: Option<Seq<char>>,
    t1: u64,
    t2: u64,
)
    requires
        detour != Some(row),
    ensures
        !closes_pair(click_after(last, detour, t1), Some(row), t2),
{
}

/// The wildcard in front of a site is cosmetic: with or without it an entry
/// stands for the same domain, unless the rest begins with a wildcard itself.
pub proof fn the_wildcard_is_cosmetic(dom: Seq<char>)
    requires
        !begins(lower(dom), "*."@),
    ensures
        site_domain("*."@ + dom) == site_domain(dom),
{
    reveal_strlit("*.");
    let p = lower("*."@ + dom);
    assert(p.subrange(0, 2) =~= "*."@);
    assert(p.skip(2) =~= lower(dom));
}

/// A site that is blocked stays blocked for each of its subdomains.
pub proof fn subdomains_are_in_the_domain(host: Seq<char>, dom: Seq<char>, sub: Seq<char>)
    requires
        in_domain(host, dom),
    ensures
        in_domain(sub + "."@ + host, dom),
{
    reveal_strlit(".");
    let h = sub + "."@ + host;
    let d = "."@ + dom;
    if host == dom {
        assert(h.subrange(h.len() - d.len(), h.len() as int) =~= d);
    } else {
        assert(host.subrange(host.len() - d.len(), host.len() as int) == d);
        assert(h.subrange(h.len() - d.len(), h.len() as int) =~= host.subrange(
            host.len() - d.len(),
            host.len() as int,
        ));
    }
}

/// The login that is found applies to the address, and no other login that
/// applies is longer.
pub proof fn the_most_specific_login_wins(
    logins: Seq<SiteLoginModel>,
    host: Seq<char>,
    path: Seq<char>,
    other: int,
)
    requires
        0 <= other < logins.len(),
        login_applies(logins[other].site, host, path),
    ensures
        0 <= best_login(logins, host, path) < logins.len(),
        login_applies(logins[best_login(logins, host, path)].site, host, path),
        site_weight(logins[other]) <= site_weight(logins[best_login(logins, host, path)]),
    decreases logins.len(),
{
    let t = logins.drop_last();
    lemma_best_login_range(t, host, path);
    if other < t.len() {
        assert(t[other] == logins[other]);
        the_most_specific_login_wins(t, host, path, other);
    } else {
        lemma_best_login_applies(t, host, path);
    }
}

proof fn lemma_best_login_applies(logins: Seq<SiteLoginModel>, host: Seq<char>, path: Seq<char>)
    ensures
        best_login(logins, host, path) >= 0 ==> best_login(logins, host, path) < logins.len()
            && login_applies(logins[best_login(logins, host, path)].site, host, path),
    decreases logins.len(),
{
    if logins.len() > 0 {
        lemma_best_login_applies(logins.drop_last(), host, path);
    }
}

} // verus!
