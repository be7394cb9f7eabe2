//! Addresses taken apart, and the lists that speak of them.
use crate::engine::{
    authority_end, host_of, named_file, path_of, provisional_name, url_parts, UrlError, UrlParts,
};
use crate::ext_info::decoded;
use crate::rules::{best_login, login_applies, site_scope};
use crate::text::{
    behind_last, either, first_text, is_char, lemma_first_is, lemma_first_text_skip,
    lemma_last_is, lower, occurs_at, up_to_either,
};
use vstd::prelude::*;

verus! {

/// None of these characters stands in the text.
pub open spec fn free_of(s: Seq<char>, marks: Seq<char>) -> bool {
    forall|i: int| 0 <= i < s.len() ==> !marks.contains(#[trigger] s[i])
}

/// A host as it is plainly written.
pub open spec fn plain_host(h: Seq<char>) -> bool {
    &&& h.len() > 0
    &&& h[0] != '['
    &&& free_of(h, seq!['/', '?', '#', '@', ':'])
}

/// Nothing, or a port behind a colon.
pub open spec fn plain_port(p: Seq<char>) -> bool {
    p.len() == 0 || (p[0] == ':' && free_of(p, seq!['/', '?', '#', '@']))
}

/// Nothing, or a user part that ends in its at sign.
pub open spec fn plain_user(u: Seq<char>) -> bool {
    u.len() == 0 || (u.last() == '@' && free_of(u, seq!['/', '?', '#']))
}

/// Nothing, or a path.
pub open spec fn plain_path(p: Seq<char>) -> bool {
    p.len() == 0 || (p[0] == '/' && free_of(p, seq!['?', '#']))
}

/// Nothing, or what stands behind a question mark or a hash.
pub open spec fn plain_query(q: Seq<char>) -> bool {
    q.len() == 0 || q[0] == '?' || q[0] == '#'
}

proof fn lemma_free(s: Seq<char>, marks: Seq<char>, k: int, i: int)
    requires
        free_of(s, marks),
        0 <= i < s.len(),
        0 <= k < marks.len(),
    ensures
        s[i] != marks[k],
{
    assert(!marks.contains(s[i]));
    if s[i] == marks[k] {
        assert(marks.contains(s[i]));
    }
}

/// The host of an authority is what stands between the user part and the port.
pub proof fn the_host_stands_alone(u: Seq<char>, h: Seq<char>, p: Seq<char>)
    requires
        plain_user(u),
        plain_host(h),
        plain_port(p),
    ensures
        host_of(u + h + p) == h,
{
    let a = u + h + p;
    let hm = seq!['/', '?', '#', '@', ':'];
    let pm = seq!['/', '?', '#', '@'];
    assert forall|i: int| u.len() <= i < a.len() implies !is_char('@')(#[trigger] a[i]) by {
        if i < u.len() + h.len() {
            lemma_free(h, hm, 3, i - u.len());
        } else {
            lemma_free(p, pm, 3, i - u.len() - h.len());
        }
    }
    lemma_last_is(a, is_char('@'), u.len() - 1);
    let t = behind_last(a, '@');
    assert(t =~= h + p);
    assert forall|i: int| 0 <= i < h.len() implies !is_char(':')(#[trigger] t[i]) by {
        lemma_free(h, hm, 4, i);
    }
    lemma_first_is(t, is_char(':'), h.len() as int);
    assert(t.take(h.len() as int) =~= h);
    assert(t[0] == h[0]);
}

/// The mark behind the scheme is the first one.
proof fn lemma_scheme(scheme: Seq<char>, rest: Seq<char>)
    requires
        free_of(scheme, seq![':']),
    ensures
        first_text(scheme + "://"@ + rest, "://"@, 0) == scheme.len(),
{
    reveal_strlit("://");
    let s = scheme + "://"@ + rest;
    assert forall|j: int| 0 <= j < scheme.len() implies !occurs_at(s, "://"@, j) by {
        if occurs_at(s, "://"@, j) {
            assert(s.subrange(j, j + 3)[0] == ':');
            assert(s[j] == scheme[j]);
            lemma_free(scheme, seq![':'], 0, j);
        }
    }
    lemma_first_text_skip(s, "://"@, 0, scheme.len() as int);
    assert(s.subrange(scheme.len() as int, scheme.len() as int + 3) =~= "://"@);
}

/// An address that is put together from its parts is taken apart into them: the
/// scheme in lower case, the host without user and port, the path without the
/// query. A scheme that is none of the three is refused.
pub proof fn an_address_comes_apart_again(
    scheme: Seq<char>,
    u: Seq<char>,
    h: Seq<char>,
    p: Seq<char>,
    path: Seq<char>,
    q: Seq<char>,
)
    requires
        free_of(scheme, seq![':']),
        plain_user(u),
        plain_host(h),
        plain_port(p),
        plain_path(path),
        plain_query(q),
    ensures
        ({
            let url = scheme + "://"@ + (u + h + p + path + q);
            let known = lower(scheme) == "http"@ || lower(scheme) == "https"@ || lower(scheme)
                == "ftp"@;
            &&& known ==> url_parts(url) == Ok::<UrlParts, UrlError>(
                UrlParts { scheme: lower(scheme), host: h, path },
            )
            &&& !known ==> url_parts(url) == Err::<UrlParts, UrlError>(UrlError::Scheme)
        }),
{
    reveal_strlit("://");
    let rest = u + h + p + path + q;
    let url = scheme + "://"@ + rest;
    let a = u + h + p;
    lemma_scheme(scheme, rest);
    assert(url.take(scheme.len() as int) =~= scheme);
    assert(url.skip(scheme.len() as int + 3) =~= rest);
    let m3 = seq!['/', '?', '#'];
    assert forall|i: int| 0 <= i < a.len() implies !authority_end()(#[trigger] rest[i]) by {
        if i < u.len() {
            lemma_free(u, m3, 0, i);
            lemma_free(u, m3, 1, i);
            lemma_free(u, m3, 2, i);
        } else if i < u.len() + h.len() {
            let hm = seq!['/', '?', '#', '@', ':'];
            lemma_free(h, hm, 0, i - u.len());
            lemma_free(h, hm, 1, i - u.len());
            lemma_free(h, hm, 2, i - u.len());
        } else {
            let pm = seq!['/', '?', '#', '@'];
            lemma_free(p, pm, 0, i - u.len() - h.len());
            lemma_free(p, pm, 1, i - u.len() - h.len());
            lemma_free(p, pm, 2, i - u.len() - h.len());
        }
    }
    if a.len() < rest.len() {
        if path.len() > 0 {
            assert(rest[a.len() as int] == path[0]);
        } else {
            assert(rest[a.len() as int] == q[0]);
        }
    }
    lemma_first_is(rest, authority_end(), a.len() as int);
    assert(rest.take(a.len() as int) =~= a);
    the_host_stands_alone(u, h, p);
    let tail = rest.skip(a.len() as int);
    assert(tail =~= path + q);
    assert forall|i: int| 0 <= i < path.len() implies !either('?', '#')(#[trigger] tail[i]) by {
        lemma_free(path, seq!['?', '#'], 0, i);
        lemma_free(path, seq!['?', '#'], 1, i);
    }
    if path.len() < tail.len() {
        assert(tail[path.len() as int] == q[0]);
    }
    lemma_first_is(tail, either('?', '#'), path.len() as int);
    assert(tail.take(path.len() as int) =~= path);
}

/// A text without a scheme is no address.
pub proof fn without_a_scheme_there_is_no_address(s: Seq<char>)
    requires
        free_of(s, seq![':']),
    ensures
        url_parts(s) == Err::<UrlParts, UrlError>(UrlError::NoScheme),
{
    reveal_strlit("://");
    assert forall|j: int| 0 <= j < s.len() + 1 implies !occurs_at(s, "://"@, j) by {
        if occurs_at(s, "://"@, j) {
            assert(s.subrange(j, j + 3)[0] == ':');
            lemma_free(s, seq![':'], 0, j);
        }
    }
    lemma_first_text_skip(s, "://"@, 0, s.len() as int + 1);
}

/// Nothing behind a question mark or a hash has a say in what a file is called.
pub proof fn queries_name_no_file(url: Seq<char>, q: Seq<char>)
    requires
        free_of(url, seq!['?', '#']),
        plain_query(q),
    ensures
        path_of(url + q) == path_of(url),
        named_file(url + q) == named_file(url),
        provisional_name(url + q) == provisional_name(url),
{
    let s = url + q;
    assert forall|i: int| 0 <= i < url.len() implies !either('?', '#')(#[trigger] s[i]) by {
        lemma_free(url, seq!['?', '#'], 0, i);
        lemma_free(url, seq!['?', '#'], 1, i);
        assert(s[i] == url[i]);
    }
    assert forall|i: int| 0 <= i < url.len() implies !either('?', '#')(#[trigger] url[i]) by {
        assert(!either('?', '#')(s[i]));
    }
    if url.len() < s.len() {
        assert(s[url.len() as int] == q[0]);
    }
    lemma_first_is(s, either('?', '#'), url.len() as int);
    lemma_first_is(url, either('?', '#'), url.len() as int);
    assert(s.take(url.len() as int) =~= url);
    assert(url.take(url.len() as int) =~= url);
}

/// A file is named by what stands behind the last slash of its address, escapes
/// decoded; an address that ends in a slash names none, and starts out as
/// `index.html`.
pub proof fn files_are_named_by_the_end_of_the_path(
    scheme: Seq<char>,
    h: Seq<char>,
    dir: Seq<char>,
    name: Seq<char>,
)
    requires
        free_of(scheme, seq![':', '?', '#']),
        free_of(h, seq!['/', '?', '#']),
        free_of(dir, seq!['?', '#']),
        free_of(name, seq!['/', '?', '#']),
    ensures
        ({
            let url = scheme + "://"@ + (h + "/"@ + dir + "/"@ + name);
            &&& decoded(name).len() > 0 ==> named_file(url) == Some(decoded(name))
                && provisional_name(url) == decoded(name)
            &&& decoded(name).len() == 0 ==> named_file(url) is None && provisional_name(url)
                == "index.html"@
        }),
{
    reveal_strlit("://");
    reveal_strlit("/");
    let rest = h + "/"@ + dir + "/"@ + name;
    let url = scheme + "://"@ + rest;
    assert forall|i: int| 0 <= i < url.len() implies !either('?', '#')(#[trigger] url[i]) by {
        let n = scheme.len() as int;
        if i < n {
            lemma_free(scheme, seq![':', '?', '#'], 1, i);
            lemma_free(scheme, seq![':', '?', '#'], 2, i);
        } else if i < n + 3 {
            assert(url[i] == "://"@[i - n]);
        } else {
            let j = i - n - 3;
            assert(url[i] == rest[j]);
            if j < h.len() {
                lemma_free(h, seq!['/', '?', '#'], 1, j);
                lemma_free(h, seq!['/', '?', '#'], 2, j);
            } else if j == h.len() {
            } else if j < h.len() + 1 + dir.len() {
                lemma_free(dir, seq!['?', '#'], 0, j - h.len() - 1);
                lemma_free(dir, seq!['?', '#'], 1, j - h.len() - 1);
            } else if j == h.len() + 1 + dir.len() {
            } else {
                let k = j - h.len() - dir.len() - 2;
                lemma_free(name, seq!['/', '?', '#'], 1, k);
                lemma_free(name, seq!['/', '?', '#'], 2, k);
            }
        }
    }
    lemma_first_is(url, either('?', '#'), url.len() as int);
    assert(up_to_either(url, '?', '#') =~= url);
    assert(free_of(scheme, seq![':'])) by {
        assert forall|i: int| 0 <= i < scheme.len() implies !seq![':'].contains(#[trigger] scheme[i]) by {
            lemma_free(scheme, seq![':', '?', '#'], 0, i);
        }
    }
    lemma_scheme(scheme, rest);
    assert(url.skip(scheme.len() as int + 3) =~= rest);
    assert forall|i: int| 0 <= i < h.len() implies !is_char('/')(#[trigger] rest[i]) by {
        lemma_free(h, seq!['/', '?', '#'], 0, i);
        assert(rest[i] == h[i]);
    }
    assert(rest[h.len() as int] == '/');
    lemma_first_is(rest, is_char('/'), h.len() as int);
    let path = rest.skip(h.len() as int);
    assert(path_of(url) == path);
    let k = 1 + dir.len();
    assert(path[k as int] == '/');
    assert forall|i: int| k < i < path.len() implies !is_char('/')(#[trigger] path[i]) by {
        lemma_free(name, seq!['/', '?', '#'], 0, i - k - 1);
        assert(path[i] == name[i - k - 1]);
    }
    lemma_last_is(path, is_char('/'), k as int);
    assert(behind_last(path, '/') =~= name);
}

/// A saved login is used only for its own site and the hosts below it, and where
/// it names a path only below that path.
pub proof fn logins_stay_at_their_site(
    logins: Seq<crate::model::SiteLoginModel>,
    host: Seq<char>,
    path: Seq<char>,
)
    ensures
        best_login(logins, host, path) >= 0 ==> {
            let (h, p) = site_scope(logins[best_login(logins, host, path)].site);
            &&& best_login(logins, host, path) < logins.len()
            &&& h.len() > 0
            &&& host == h || crate::text::ends(host, "."@ + h)
            &&& p.len() == 0 || crate::text::begins(path, p)
        },
        (forall|i: int|
            0 <= i < logins.len() ==> !login_applies((#[trigger] logins[i]).site, host, path))
            ==> best_login(logins, host, path) < 0,
    decreases logins.len(),
{
    if logins.len() > 0 {
        let u = logins.drop_last();
        logins_stay_at_their_site(u, host, path);
        if forall|i: int|
            0 <= i < logins.len() ==> !login_applies((#[trigger] logins[i]).site, host, path) {
            assert forall|i: int| 0 <= i < u.len() implies !login_applies(
                (#[trigger] u[i]).site,
                host,
                path,
            ) by {
                assert(u[i] == logins[i]);
            }
            assert(!login_applies(logins[logins.len() - 1].site, host, path));
        }
    }
}

} // verus!
