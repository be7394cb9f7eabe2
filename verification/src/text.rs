//! Text as sequences of characters: searching, splitting, trimming, case and numbers.
use vstd::prelude::*;

verus! {

/// `String::push` appends one character.
pub assume_specification[ String::push ](s: &mut String, c: char)
    ensures
        final(s)@ == old(s)@.push(c),
;

/// `String::push_str` appends a whole string.
pub assume_specification[ String::push_str ](s: &mut String, t: &str)
    ensures
        final(s)@ == old(s)@ + t@,
;

/// `String::clear` empties the string.
pub assume_specification[ String::clear ](s: &mut String)
    ensures
        final(s)@ == Seq::<char>::empty(),
;

/// `str`'s `==` holds of two strings exactly when they have the same characters.
pub assume_specification[ <str as PartialEq>::eq ](a: &str, b: &str) -> (r: bool)
    ensures
        r == (a@ == b@),
;

/// The characters of `s`, in order.
pub fn chars_of(s: &str) -> (r: Vec<char>)
    ensures
        r@ == s@,
{
    let mut r: Vec<char> = Vec::new();
    for c in it: s.chars()
        invariant
            r@ == it.seq().take(it.index()),
            it.seq() == s@,
    {
        r.push(c);
    }
    r
}

/// The string made of the characters of `c` from `i` up to `j`.
pub fn sub_text(c: &Vec<char>, i: usize, j: usize) -> (r: String)
    requires
        i <= j <= c@.len(),
    ensures
        r@ == c@.subrange(i as int, j as int),
{
    let mut r = String::new();
    let mut k: usize = i;
    while k < j
        invariant
            i <= k <= j <= c@.len(),
            r@ == c@.subrange(i as int, k as int),
        decreases j - k,
    {
        r.push(c[k]);
        k += 1;
        assert(c@.subrange(i as int, k as int) =~= c@.subrange(i as int, k - 1).push(c@[k - 1]));
    }
    r
}

/// Whether two strings hold the same characters.
pub fn same(a: &str, b: &str) -> (r: bool)
    ensures
        r == (a@ == b@),
{
    *a == *b
}

/// The string `a` followed by `b`.
pub fn cat(a: &str, b: &str) -> (r: String)
    ensures
        r@ == a@ + b@,
{
    let mut r = a.to_owned();
    r.push_str(b);
    r
}

/// The string `a`, `b` and `c` one after the other.
pub fn cat3(a: &str, b: &str, c: &str) -> (r: String)
    ensures
        r@ == a@ + b@ + c@,
{
    let mut r = a.to_owned();
    r.push_str(b);
    r.push_str(c);
    r
}

// ------------------------------------------------------------- ASCII case

pub open spec fn lower_char(c: char) -> char {
    if 'A' <= c && c <= 'Z' {
        (((c as u8) + 32) as u8) as char
    } else {
        c
    }
}

/// `s` with the letters `A` to `Z` in lower case.
pub open spec fn lower(s: Seq<char>) -> Seq<char> {
    s.map_values(|c: char| lower_char(c))
}

pub fn ascii_lower_char(c: char) -> (r: char)
    ensures
        r == lower_char(c),
{
    if 'A' <= c && c <= 'Z' {
        ((c as u8) + 32) as char
    } else {
        c
    }
}

pub fn ascii_lower(s: &str) -> (r: String)
    ensures
        r@ == lower(s@),
{
    let c = chars_of(s);
    let mut r = String::new();
    let mut i: usize = 0;
    while i < c.len()
        invariant
            i <= c@.len(),
            c@ == s@,
            r@ == lower(s@.take(i as int)),
        decreases c.len() - i,
    {
        r.push(ascii_lower_char(c[i]));
        i += 1;
        assert(lower(s@.take(i as int)) =~= lower(s@.take(i - 1)).push(lower_char(s@[i - 1])));
    }
    assert(s@.take(i as int) =~= s@);
    r
}

pub open spec fn upper_char(c: char) -> char {
    if 'a' <= c && c <= 'z' {
        (((c as u8) - 32) as u8) as char
    } else {
        c
    }
}

/// `s` with the letters `a` to `z` in upper case.
pub open spec fn upper(s: Seq<char>) -> Seq<char> {
    s.map_values(|c: char| upper_char(c))
}

pub fn ascii_upper(s: &str) -> (r: String)
    ensures
        r@ == upper(s@),
{
    let c = chars_of(s);
    let mut r = String::new();
    let mut i: usize = 0;
    while i < c.len()
        invariant
            i <= c@.len(),
            c@ == s@,
            r@ == upper(s@.take(i as int)),
        decreases c.len() - i,
    {
        let x = c[i];
        r.push(
            if 'a' <= x && x <= 'z' {
                ((x as u8) - 32) as char
            } else {
                x
            },
        );
        i += 1;
        assert(upper(s@.take(i as int)) =~= upper(s@.take(i - 1)).push(upper_char(s@[i - 1])));
    }
    assert(s@.take(i as int) =~= s@);
    r
}

// ---------------------------------------------------------- Unicode facts

/// The characters with the Unicode property White_Space.
pub open spec fn is_white(c: char) -> bool {
    let n = c as u32;
    ||| 0x9 <= n <= 0xd
    ||| n == 0x20
    ||| n == 0x85
    ||| n == 0xa0
    ||| n == 0x1680
    ||| 0x2000 <= n <= 0x200a
    ||| n == 0x2028
    ||| n == 0x2029
    ||| n == 0x202f
    ||| n == 0x205f
    ||| n == 0x3000
}

pub fn is_whitespace(c: char) -> (r: bool)
    ensures
        r == is_white(c),
{
    let n: u32 = c as u32;
    (0x9 <= n && n <= 0xd) || n == 0x20 || n == 0x85 || n == 0xa0 || n == 0x1680 || (0x2000 <= n
        && n <= 0x200a) || n == 0x2028 || n == 0x2029 || n == 0x202f || n == 0x205f || n == 0x3000
}

/// What `str::to_lowercase` makes of a string.
pub uninterp spec fn unicode_lowercase(s: Seq<char>) -> Seq<char>;

/// `str::to_lowercase`: the Unicode lower case of `s`, a function of `s` alone.
#[verifier::external_body]
pub(crate) fn to_lowercase(s: &str) -> (r: String)
    ensures
        r@ == unicode_lowercase(s@),
{
    s.to_lowercase()
}

// --------------------------------------------------------------- searching

/// The predicate that holds of `x` alone.
pub open spec fn is_char(x: char) -> spec_fn(char) -> bool {
    |c: char| c == x
}

/// The predicate that holds of `x` and of `y`.
pub open spec fn either(x: char, y: char) -> spec_fn(char) -> bool {
    |c: char| c == x || c == y
}

/// The predicate that holds of white space.
pub open spec fn white() -> spec_fn(char) -> bool {
    |c: char| is_white(c)
}

/// The predicate that holds of what `p` does not hold of.
pub open spec fn none_of(p: spec_fn(char) -> bool) -> spec_fn(char) -> bool {
    |c: char| !p(c)
}

/// The place of the first character of `s` that satisfies `p`; the length of
/// `s` where none does.
pub open spec fn first(s: Seq<char>, p: spec_fn(char) -> bool) -> int
    decreases s.len(),
{
    if s.len() == 0 || p(s[0]) {
        0
    } else {
        1 + first(s.drop_first(), p)
    }
}

/// The place of the last character of `s` that satisfies `p`; -1 where none does.
pub open spec fn last(s: Seq<char>, p: spec_fn(char) -> bool) -> int
    decreases s.len(),
{
    if s.len() == 0 {
        -1
    } else if p(s.last()) {
        s.len() - 1
    } else {
        last(s.drop_last(), p)
    }
}

pub proof fn lemma_first_is(s: Seq<char>, p: spec_fn(char) -> bool, k: int)
    requires
        0 <= k <= s.len(),
        forall|i: int| 0 <= i < k ==> !p(#[trigger] s[i]),
        k < s.len() ==> p(s[k]),
    ensures
        first(s, p) == k,
    decreases s.len(),
{
    if s.len() > 0 && !p(s[0]) {
        let t = s.drop_first();
        assert forall|i: int| 0 <= i < k - 1 implies !p(#[trigger] t[i]) by {
            assert(t[i] == s[i + 1]);
        }
        lemma_first_is(t, p, k - 1);
    }
}

pub proof fn lemma_first(s: Seq<char>, p: spec_fn(char) -> bool)
    ensures
        0 <= first(s, p) <= s.len(),
        forall|i: int| 0 <= i < first(s, p) ==> !p(#[trigger] s[i]),
        first(s, p) < s.len() ==> p(s[first(s, p)]),
    decreases s.len(),
{
    if s.len() > 0 && !p(s[0]) {
        let t = s.drop_first();
        lemma_first(t, p);
        assert forall|i: int| 0 <= i < first(s, p) implies !p(#[trigger] s[i]) by {
            if i > 0 {
                assert(t[i - 1] == s[i]);
            }
        }
    }
}

pub proof fn lemma_last_is(s: Seq<char>, p: spec_fn(char) -> bool, k: int)
    requires
        -1 <= k < s.len(),
        forall|i: int| k < i < s.len() ==> !p(#[trigger] s[i]),
        k >= 0 ==> p(s[k]),
    ensures
        last(s, p) == k,
    decreases s.len(),
{
    if s.len() > 0 && !p(s.last()) {
        assert forall|i: int| k < i < s.drop_last().len() implies !p(#[trigger] s.drop_last()[i]) by {
            assert(s.drop_last()[i] == s[i]);
        }
        lemma_last_is(s.drop_last(), p, k);
    }
}

pub proof fn lemma_last(s: Seq<char>, p: spec_fn(char) -> bool)
    ensures
        -1 <= last(s, p) < s.len(),
        forall|i: int| last(s, p) < i < s.len() ==> !p(#[trigger] s[i]),
        last(s, p) >= 0 ==> p(s[last(s, p)]),
    decreases s.len(),
{
    if s.len() > 0 && !p(s.last()) {
        let t = s.drop_last();
        lemma_last(t, p);
        assert forall|i: int| last(s, p) < i < s.len() implies !p(#[trigger] s[i]) by {
            if i < t.len() {
                assert(t[i] == s[i]);
            }
        }
    }
}

/// The place of the first `x` in `c` at or behind `from`; `c.len()` where there is none.
pub fn find_from(c: &Vec<char>, from: usize, x: char) -> (r: usize)
    requires
        from <= c@.len(),
    ensures
        from <= r <= c@.len(),
        forall|i: int| from <= i < r ==> #[trigger] c@[i] != x,
        r < c@.len() ==> c@[r as int] == x,
        r == from + first(c@.skip(from as int), is_char(x)),
{
    let mut k: usize = from;
    while k < c.len() && c[k] != x
        invariant
            from <= k <= c@.len(),
            forall|i: int| from <= i < k ==> #[trigger] c@[i] != x,
        decreases c.len() - k,
    {
        k += 1;
    }
    proof {
        lemma_first_is(c@.skip(from as int), is_char(x), k - from);
    }
    k
}

/// The place of the last `x` in `c`, if any.
pub fn rfind(c: &Vec<char>, x: char) -> (r: Option<usize>)
    ensures
        r is Some ==> r->0 < c.len() && r->0 == last(c@, is_char(x)),
        r is None ==> last(c@, is_char(x)) == -1,
{
    let mut k: usize = c.len();
    while k > 0 && c[k - 1] != x
        invariant
            k <= c@.len(),
            forall|i: int| k <= i < c@.len() ==> #[trigger] c@[i] != x,
        decreases k,
    {
        k -= 1;
    }
    proof {
        lemma_last_is(c@, is_char(x), k - 1);
    }
    if k > 0 {
        Some(k - 1)
    } else {
        None
    }
}

/// Whether `t` stands in `s` at place `i`.
pub open spec fn occurs_at(s: Seq<char>, t: Seq<char>, i: int) -> bool {
    0 <= i && i + t.len() <= s.len() && s.subrange(i, i + t.len()) == t
}

/// Whether `t` stands somewhere in `s`.
pub open spec fn contains(s: Seq<char>, t: Seq<char>) -> bool {
    exists|i: int| occurs_at(s, t, i)
}

/// Whether `s` begins with `t`.
pub open spec fn begins(s: Seq<char>, t: Seq<char>) -> bool {
    occurs_at(s, t, 0)
}

/// Whether `s` ends with `t`.
pub open spec fn ends(s: Seq<char>, t: Seq<char>) -> bool {
    occurs_at(s, t, s.len() - t.len())
}

/// The place of the first `t` in `s` at or behind `i`; `s.len() + 1` where there is none.
pub open spec fn first_text(s: Seq<char>, t: Seq<char>, i: int) -> int
    decreases s.len() + 1 - i,
{
    if i > s.len() || i < 0 {
        s.len() as int + 1
    } else if occurs_at(s, t, i) {
        i
    } else {
        first_text(s, t, i + 1)
    }
}

pub proof fn lemma_first_text_skip(s: Seq<char>, t: Seq<char>, i: int, k: int)
    requires
        0 <= i <= k <= s.len() + 1,
        forall|j: int| i <= j < k ==> !occurs_at(s, t, j),
    ensures
        first_text(s, t, i) == first_text(s, t, k),
    decreases k - i,
{
    if i < k {
        lemma_first_text_skip(s, t, i + 1, k);
    }
}

/// Whether `t` stands in `c` at place `i`.
pub fn matches_at(c: &Vec<char>, t: &Vec<char>, i: usize) -> (r: bool)
    ensures
        r == occurs_at(c@, t@, i as int),
{
    if i > c.len() || t.len() > c.len() - i {
        return false;
    }
    let mut k: usize = 0;
    while k < t.len()
        invariant
            k <= t@.len(),
            i + t.len() <= c.len(),
            forall|j: int| 0 <= j < k ==> c@[i + j] == #[trigger] t@[j],
        decreases t.len() - k,
    {
        if c[i + k] != t[k] {
            assert(c@.subrange(i as int, i + t@.len())[k as int] == c@[i + k]);
            return false;
        }
        k += 1;
    }
    assert(c@.subrange(i as int, i + t@.len()) =~= t@);
    true
}

/// The place of the first `t` in `c` at or behind `from`, if any.
pub fn find_text(c: &Vec<char>, t: &Vec<char>, from: usize) -> (r: Option<usize>)
    requires
        from <= c@.len(),
    ensures
        r is Some ==> r->0 == first_text(c@, t@, from as int) && from <= r->0 && r->0 + t@.len()
            <= c.len() && occurs_at(c@, t@, r->0 as int),
        r is None ==> first_text(c@, t@, from as int) == c@.len() + 1 && forall|i: int|
            from <= i ==> !occurs_at(c@, t@, i),
{
    let mut k: usize = from;
    while k < c.len() && !matches_at(c, t, k)
        invariant
            from <= k <= c@.len(),
            forall|j: int| from <= j < k ==> !occurs_at(c@, t@, j),
        decreases c.len() - k,
    {
        k += 1;
    }
    proof {
        lemma_first_text_skip(c@, t@, from as int, k as int);
    }
    if matches_at(c, t, k) {
        Some(k)
    } else {
        assert(first_text(c@, t@, k + 1) == c@.len() + 1);
        None
    }
}

pub fn has(s: &str, t: &str) -> (r: bool)
    ensures
        r == contains(s@, t@),
{
    let c = chars_of(s);
    let d = chars_of(t);
    find_text(&c, &d, 0).is_some()
}

pub fn starts_with(s: &str, t: &str) -> (r: bool)
    ensures
        r == begins(s@, t@),
{
    let c = chars_of(s);
    let d = chars_of(t);
    matches_at(&c, &d, 0)
}

pub fn ends_with(s: &str, t: &str) -> (r: bool)
    ensures
        r == ends(s@, t@),
{
    let c = chars_of(s);
    let d = chars_of(t);
    if d.len() > c.len() {
        return false;
    }
    matches_at(&c, &d, c.len() - d.len())
}

/// What of `s` stands behind the prefix `t`, if `s` begins with it.
pub fn strip_prefix(s: &str, t: &str) -> (r: Option<String>)
    ensures
        r is Some <==> begins(s@, t@),
        r is Some ==> r->0@ == s@.skip(t@.len() as int),
{
    let c = chars_of(s);
    let d = chars_of(t);
    if matches_at(&c, &d, 0) {
        let r = sub_text(&c, d.len(), c.len());
        assert(r@ =~= s@.skip(t@.len() as int));
        Some(r)
    } else {
        None
    }
}

// ---------------------------------------------------------------- trimming

/// `s` without the leading characters that satisfy `p`.
pub open spec fn strip_front(s: Seq<char>, p: spec_fn(char) -> bool) -> Seq<char> {
    s.skip(first(s, none_of(p)))
}

/// `s` without the trailing characters that satisfy `p`.
pub open spec fn strip_back(s: Seq<char>, p: spec_fn(char) -> bool) -> Seq<char> {
    s.take(last(s, none_of(p)) + 1)
}

/// `s` without leading and trailing white space.
pub open spec fn trimmed(s: Seq<char>) -> Seq<char> {
    strip_back(strip_front(s, white()), white())
}

pub fn trim(s: &str) -> (r: String)
    ensures
        r@ == trimmed(s@),
{
    let c = chars_of(s);
    let mut i: usize = 0;
    while i < c.len() && is_whitespace(c[i])
        invariant
            i <= c@.len(),
            forall|k: int| 0 <= k < i ==> is_white(#[trigger] c@[k]),
        decreases c.len() - i,
    {
        i += 1;
    }
    let mut j: usize = c.len();
    while j > i && is_whitespace(c[j - 1])
        invariant
            i <= j <= c@.len(),
            forall|k: int| j <= k < c@.len() ==> is_white(#[trigger] c@[k]),
        decreases j,
    {
        j -= 1;
    }
    proof {
        let np = none_of(white());
        lemma_first_is(c@, np, i as int);
        let t = c@.skip(i as int);
        assert forall|k: int| j - i - 1 < k < t.len() implies !np(#[trigger] t[k]) by {
            assert(t[k] == c@[k + i]);
        }
        lemma_last_is(t, np, j - i - 1);
        assert(t.take(j - i) =~= c@.subrange(i as int, j as int));
    }
    sub_text(&c, i, j)
}

/// `s` without trailing white space.
pub fn trim_end(s: &str) -> (r: String)
    ensures
        r@ == strip_back(s@, white()),
{
    let c = chars_of(s);
    let mut j: usize = c.len();
    while j > 0 && is_whitespace(c[j - 1])
        invariant
            j <= c@.len(),
            forall|k: int| j <= k < c@.len() ==> is_white(#[trigger] c@[k]),
        decreases j,
    {
        j -= 1;
    }
    proof {
        lemma_last_is(c@, none_of(white()), j - 1);
    }
    let r = sub_text(&c, 0, j);
    assert(r@ =~= s@.take(j as int));
    r
}

/// `s` without leading characters `x`.
pub fn trim_start_char(s: &str, x: char) -> (r: String)
    ensures
        r@ == strip_front(s@, is_char(x)),
{
    let c = chars_of(s);
    let mut i: usize = 0;
    while i < c.len() && c[i] == x
        invariant
            i <= c@.len(),
            forall|k: int| 0 <= k < i ==> #[trigger] c@[k] == x,
        decreases c.len() - i,
    {
        i += 1;
    }
    proof {
        lemma_first_is(c@, none_of(is_char(x)), i as int);
    }
    let r = sub_text(&c, i, c.len());
    assert(r@ =~= s@.skip(i as int));
    r
}

/// `s` without any number of copies of `t` at its front.
pub open spec fn strip_all(s: Seq<char>, t: Seq<char>) -> Seq<char>
    decreases s.len(),
{
    if t.len() > 0 && begins(s, t) {
        strip_all(s.skip(t.len() as int), t)
    } else {
        s
    }
}

pub fn trim_start_text(s: &str, t: &str) -> (r: String)
    ensures
        r@ == strip_all(s@, t@),
    decreases s@.len(),
{
    if !t.is_empty() && starts_with(s, t) {
        match strip_prefix(s, t) {
            Some(rest) => trim_start_text(&rest, t),
            None => s.to_owned(),
        }
    } else {
        s.to_owned()
    }
}

// --------------------------------------------------------------- splitting

/// The pieces of `s` between the characters that satisfy `p`.
pub open spec fn split_on(s: Seq<char>, p: spec_fn(char) -> bool) -> Seq<Seq<char>>
    decreases s.len(),
    via split_on_shrinks
{
    let i = first(s, p);
    if i >= s.len() {
        seq![s]
    } else {
        seq![s.take(i)] + split_on(s.skip(i + 1), p)
    }
}

#[via_fn]
proof fn split_on_shrinks(s: Seq<char>, p: spec_fn(char) -> bool) {
    lemma_first(s, p);
}

pub open spec fn views(v: Seq<String>) -> Seq<Seq<char>> {
    v.map_values(|s: String| s@)
}

pub proof fn lemma_split_step(s: Seq<char>, p: spec_fn(char) -> bool, a: int, k: int)
    requires
        0 <= a <= k < s.len(),
        forall|i: int| a <= i < k ==> !p(#[trigger] s[i]),
        p(s[k]),
    ensures
        split_on(s.skip(a), p) == seq![s.subrange(a, k)] + split_on(s.skip(k + 1), p),
{
    let t = s.skip(a);
    lemma_first_is(t, p, k - a);
    assert(t.take(k - a) =~= s.subrange(a, k));
    assert(t.skip(k - a + 1) =~= s.skip(k + 1));
}

pub proof fn lemma_split_end(s: Seq<char>, p: spec_fn(char) -> bool, a: int)
    requires
        0 <= a <= s.len(),
        forall|i: int| a <= i < s.len() ==> !p(#[trigger] s[i]),
    ensures
        split_on(s.skip(a), p) == seq![s.skip(a)],
{
    lemma_first_is(s.skip(a), p, s.len() - a);
}

/// The pieces of `s` between the characters `x`.
pub open spec fn split(s: Seq<char>, x: char) -> Seq<Seq<char>> {
    split_on(s, is_char(x))
}

pub fn split_text(s: &str, x: char) -> (r: Vec<String>)
    ensures
        views(r@) == split(s@, x),
{
    let c = chars_of(s);
    let mut r: Vec<String> = Vec::new();
    let mut a: usize = 0;
    let mut k: usize = 0;
    let ghost p = is_char(x);
    assert(s@.skip(0) =~= s@);
    while k < c.len()
        invariant
            a <= k <= c@.len(),
            c@ == s@,
            p == is_char(x),
            forall|i: int| a <= i < k ==> !p(#[trigger] c@[i]),
            views(r@) + split_on(c@.skip(a as int), p) == split_on(s@, p),
        decreases c.len() - k,
    {
        if c[k] == x {
            let ghost before = r@;
            r.push(sub_text(&c, a, k));
            proof {
                lemma_split_step(c@, p, a as int, k as int);
                assert(views(r@) =~= views(before).push(c@.subrange(a as int, k as int)));
                assert(views(before) + (seq![c@.subrange(a as int, k as int)] + split_on(
                    c@.skip(k + 1),
                    p,
                )) =~= views(r@) + split_on(c@.skip(k + 1), p));
            }
            a = k + 1;
        }
        k += 1;
    }
    let ghost before = r@;
    r.push(sub_text(&c, a, c.len()));
    proof {
        lemma_split_end(c@, p, a as int);
        assert(c@.skip(a as int) =~= c@.subrange(a as int, c@.len() as int));
        assert(views(r@) =~= views(before) + seq![c@.skip(a as int)]);
    }
    r
}

/// What parts the entries of a list typed by a person.
pub open spec fn entry_gap() -> spec_fn(char) -> bool {
    |c: char| is_white(c) || c == ','
}

pub open spec fn nonempty() -> spec_fn(Seq<char>) -> bool {
    |t: Seq<char>| t.len() > 0
}

/// The entries of a list typed by a person: what stands between white space
/// and commas, empty pieces left out.
pub open spec fn entries(s: Seq<char>) -> Seq<Seq<char>> {
    split_on(s, entry_gap()).filter(nonempty())
}

/// The words of `s`: what stands between white space.
pub open spec fn words(s: Seq<char>) -> Seq<Seq<char>> {
    split_on(s, white()).filter(nonempty())
}

proof fn lemma_filter_nonempty_push(a: Seq<Seq<char>>, x: Seq<char>, b: Seq<Seq<char>>)
    ensures
        (a + (seq![x] + b)).filter(nonempty()) == a.filter(nonempty()) + (if x.len() > 0 {
            seq![x]
        } else {
            seq![]
        }) + b.filter(nonempty()),
{
    let f = nonempty();
    Seq::filter_distributes_over_add(a, seq![x] + b, f);
    Seq::filter_distributes_over_add(seq![x], b, f);
    reveal(Seq::filter);
    assert(seq![x].drop_last() =~= seq![]);
    assert(seq![x].drop_last().filter(f) =~= seq![]);
    assert(seq![x].filter(f) =~= (if x.len() > 0 {
        seq![x]
    } else {
        seq![]
    }));
    assert(a.filter(f) + (seq![x].filter(f) + b.filter(f)) =~= a.filter(f) + seq![x].filter(f)
        + b.filter(f));
}

/// The pieces of `s` between the characters `x`, empty ones left out.
pub open spec fn segments(s: Seq<char>, x: char) -> Seq<Seq<char>> {
    split_on(s, is_char(x)).filter(nonempty())
}

/// What parts the pieces of a text.
enum Gap {
    White,
    Entry,
    Char(char),
}

impl Gap {
    spec fn holds(self) -> spec_fn(char) -> bool {
        match self {
            Gap::White => white(),
            Gap::Entry => entry_gap(),
            Gap::Char(x) => is_char(x),
        }
    }

    fn at(&self, c: char) -> (r: bool)
        ensures
            r == (self.holds())(c),
    {
        match self {
            Gap::White => is_whitespace(c),
            Gap::Entry => is_whitespace(c) || c == ',',
            Gap::Char(x) => c == *x,
        }
    }
}

fn split_nonempty(s: &str, gap: &Gap) -> (r: Vec<String>)
    ensures
        views(r@) == split_on(s@, gap.holds()).filter(nonempty()),
{
    let c = chars_of(s);
    let mut r: Vec<String> = Vec::new();
    let mut a: usize = 0;
    let mut k: usize = 0;
    let ghost p = gap.holds();
    let ghost f = nonempty();
    assert(s@.skip(0) =~= s@);
    while k < c.len()
        invariant
            a <= k <= c@.len(),
            c@ == s@,
            f == nonempty(),
            p == gap.holds(),
            forall|i: int| a <= i < k ==> !p(#[trigger] c@[i]),
            views(r@) + split_on(c@.skip(a as int), p).filter(f) == split_on(s@, p).filter(f),
        decreases c.len() - k,
    {
        if gap.at(c[k]) {
            let ghost before = r@;
            let ghost piece = c@.subrange(a as int, k as int);
            let ghost rest = split_on(c@.skip(k + 1), p);
            proof {
                assert(p(c@[k as int]));
                lemma_split_step(c@, p, a as int, k as int);
                lemma_filter_nonempty_push(Seq::empty(), piece, rest);
                assert(Seq::<Seq<char>>::empty() + (seq![piece] + rest) =~= seq![piece] + rest);
                assert(Seq::<Seq<char>>::empty().filter(f) =~= Seq::<Seq<char>>::empty()) by {
                    reveal(Seq::filter);
                }
            }
            if k > a {
                r.push(sub_text(&c, a, k));
                assert(views(r@) =~= views(before).push(piece));
                assert(views(before) + (seq![piece] + rest.filter(f)) =~= views(r@) + rest.filter(
                    f,
                ));
            } else {
                assert(rest.filter(f) =~= seq![] + rest.filter(f));
            }
            assert(Seq::<Seq<char>>::empty() + (if piece.len() > 0 {
                seq![piece]
            } else {
                seq![]
            }) + rest.filter(f) =~= (if piece.len() > 0 {
                seq![piece] + rest.filter(f)
            } else {
                rest.filter(f)
            }));
            a = k + 1;
        }
        k += 1;
    }
    let ghost before = r@;
    proof {
        lemma_split_end(c@, p, a as int);
        assert(c@.skip(a as int) =~= c@.subrange(a as int, c@.len() as int));
        reveal(Seq::filter);
        let one = seq![c@.skip(a as int)];
        assert(one.drop_last() =~= seq![]);
        assert(one.drop_last().filter(f) =~= seq![]);
        assert(one.filter(f) =~= (if c@.skip(a as int).len() > 0 {
            one
        } else {
            seq![]
        }));
    }
    if a < c.len() {
        r.push(sub_text(&c, a, c.len()));
        assert(views(r@) =~= views(before) + seq![c@.skip(a as int)]);
    } else {
        assert(views(r@) =~= views(before) + seq![]);
    }
    r
}

pub fn split_entries(s: &str) -> (r: Vec<String>)
    ensures
        views(r@) == entries(s@),
{
    split_nonempty(s, &Gap::Entry)
}

pub fn split_whitespace(s: &str) -> (r: Vec<String>)
    ensures
        views(r@) == words(s@),
{
    split_nonempty(s, &Gap::White)
}

pub fn split_segments(s: &str, x: char) -> (r: Vec<String>)
    ensures
        views(r@) == segments(s@, x),
{
    split_nonempty(s, &Gap::Char(x))
}

/// The texts of `v` one after the other with `gap` between neighbours.
pub open spec fn joined(v: Seq<Seq<char>>, gap: Seq<char>) -> Seq<char>
    decreases v.len(),
{
    if v.len() == 0 {
        seq![]
    } else if v.len() == 1 {
        v[0]
    } else {
        joined(v.drop_last(), gap) + gap + v.last()
    }
}

/// Joining from the front.
pub proof fn lemma_joined_front(v: Seq<Seq<char>>, gap: Seq<char>)
    requires
        v.len() >= 2,
    ensures
        joined(v, gap) == v[0] + gap + joined(v.skip(1), gap),
    decreases v.len(),
{
    if v.len() == 2 {
        assert(v.drop_last()[0] == v[0]);
        assert(v.skip(1)[0] == v.last());
        assert(joined(v.drop_last(), gap) == v[0]);
        assert(joined(v.skip(1), gap) == v.last());
    } else {
        let w = v.drop_last();
        lemma_joined_front(w, gap);
        assert(w.skip(1) =~= v.skip(1).drop_last());
        assert(v.skip(1).last() == v.last());
        assert(joined(v, gap) =~= v[0] + gap + (joined(w.skip(1), gap) + gap + v.last()));
    }
}

/// Splitting undoes joining, where no part holds the separator.
pub proof fn lemma_split_of_joined(v: Seq<Seq<char>>, x: char)
    requires
        v.len() > 0,
        forall|i: int| 0 <= i < v.len() ==> !(#[trigger] v[i]).contains(x),
    ensures
        split(joined(v, seq![x]), x) == v,
    decreases v.len(),
{
    let j = joined(v, seq![x]);
    let p = is_char(x);
    let n = v[0].len() as int;
    assert(j.skip(0) =~= j);
    if v.len() == 1 {
        assert forall|i: int| 0 <= i < j.len() implies !p(#[trigger] j[i]) by {
            assert(v[0].contains(v[0][i]));
        }
        lemma_split_end(j, p, 0);
        assert(v =~= seq![v[0]]);
    } else {
        let t = v.skip(1);
        lemma_joined_front(v, seq![x]);
        assert(j =~= v[0] + seq![x] + joined(t, seq![x]));
        assert forall|i: int| 0 <= i < n implies !p(#[trigger] j[i]) by {
            assert(j[i] == v[0][i]);
            assert(v[0].contains(v[0][i]));
        }
        assert(j[n] == x);
        lemma_split_step(j, p, 0, n);
        assert(j.subrange(0, n) =~= v[0]);
        assert(j.skip(n + 1) =~= joined(t, seq![x]));
        assert forall|i: int| 0 <= i < t.len() implies !(#[trigger] t[i]).contains(x) by {
            assert(t[i] == v[i + 1]);
        }
        lemma_split_of_joined(t, x);
        assert(v =~= seq![v[0]] + t);
    }
}

pub fn join(v: &Vec<String>, gap: &str) -> (r: String)
    ensures
        r@ == joined(views(v@), gap@),
{
    let mut r = String::new();
    let mut i: usize = 0;
    assert(views(v@).take(0) =~= seq![]);
    while i < v.len()
        invariant
            i <= v@.len(),
            r@ == joined(views(v@).take(i as int), gap@),
        decreases v.len() - i,
    {
        let ghost all = views(v@);
        proof {
            assert(all.take(i + 1).drop_last() =~= all.take(i as int));
            assert(all.take(i + 1).last() == v@[i as int]@);
            assert(i == 0 ==> seq![] + v@[0]@ =~= v@[0]@);
            assert(i == 0 ==> all.take(1)[0] == v@[0]@);
        }
        if i > 0 {
            r.push_str(gap);
        }
        r.push_str(&v[i]);
        assert(i == 0 ==> r@ =~= v@[0]@);
        i += 1;
    }
    assert(views(v@).take(i as int) =~= views(v@));
    r
}

/// `s` with every `t` in it, from the left, replaced by `by`.
pub open spec fn replaced(s: Seq<char>, t: Seq<char>, by: Seq<char>) -> Seq<char>
    decreases s.len(),
    via replaced_shrinks
{
    let i = first_text(s, t, 0);
    if t.len() == 0 || i > s.len() {
        s
    } else {
        s.take(i) + by + replaced(s.skip(i + t.len()), t, by)
    }
}

#[via_fn]
proof fn replaced_shrinks(s: Seq<char>, t: Seq<char>, by: Seq<char>) {
    lemma_first_text(s, t, 0);
}

pub proof fn lemma_first_text(s: Seq<char>, t: Seq<char>, i: int)
    requires
        0 <= i,
    ensures
        i <= first_text(s, t, i) || first_text(s, t, i) == s.len() + 1,
        first_text(s, t, i) <= s.len() + 1,
        first_text(s, t, i) <= s.len() ==> occurs_at(s, t, first_text(s, t, i)),
    decreases s.len() + 1 - i,
{
    if i <= s.len() && !occurs_at(s, t, i) {
        lemma_first_text(s, t, i + 1);
    }
}

pub fn replace(s: &str, t: &str, by: &str) -> (r: String)
    ensures
        r@ == replaced(s@, t@, by@),
    decreases s@.len(),
{
    let c = chars_of(s);
    let d = chars_of(t);
    if d.len() == 0 {
        return s.to_owned();
    }
    match find_text(&c, &d, 0) {
        Some(i) => {
            let head = sub_text(&c, 0, i);
            let tail = sub_text(&c, i + d.len(), c.len());
            assert(head@ =~= s@.take(i as int));
            assert(tail@ =~= s@.skip(i + t@.len()));
            let rest = replace(&tail, t, by);
            cat3(&head, by, &rest)
        },
        None => s.to_owned(),
    }
}

/// What of `s` stands before and behind its first `x`, if it has one.
pub open spec fn split_first(s: Seq<char>, x: char) -> Option<(Seq<char>, Seq<char>)> {
    let i = first(s, is_char(x));
    if i < s.len() {
        Some((s.take(i), s.skip(i + 1)))
    } else {
        None
    }
}

/// What of `s` stands before and behind its last `x`, if it has one.
pub open spec fn split_last(s: Seq<char>, x: char) -> Option<(Seq<char>, Seq<char>)> {
    let i = last(s, is_char(x));
    if i >= 0 {
        Some((s.take(i), s.skip(i + 1)))
    } else {
        None
    }
}

pub open spec fn pair_view(p: Option<(String, String)>) -> Option<(Seq<char>, Seq<char>)> {
    match p {
        Some((a, b)) => Some((a@, b@)),
        None => None,
    }
}

pub fn split_once(s: &str, x: char) -> (r: Option<(String, String)>)
    ensures
        pair_view(r) == split_first(s@, x),
{
    let c = chars_of(s);
    let i = find_from(&c, 0, x);
    assert(c@.skip(0) =~= c@);
    if i < c.len() {
        let a = sub_text(&c, 0, i);
        let b = sub_text(&c, i + 1, c.len());
        assert(a@ =~= s@.take(i as int));
        assert(b@ =~= s@.skip(i + 1));
        Some((a, b))
    } else {
        None
    }
}

pub fn rsplit_once(s: &str, x: char) -> (r: Option<(String, String)>)
    ensures
        pair_view(r) == split_last(s@, x),
{
    let c = chars_of(s);
    match rfind(&c, x) {
        Some(i) => {
            let a = sub_text(&c, 0, i);
            let b = sub_text(&c, i + 1, c.len());
            assert(a@ =~= s@.take(i as int));
            assert(b@ =~= s@.skip(i + 1));
            Some((a, b))
        },
        None => None,
    }
}

/// `s` up to its first `a` or `b`.
pub open spec fn up_to_either(s: Seq<char>, a: char, b: char) -> Seq<char> {
    s.take(first(s, either(a, b)))
}

pub fn before_either(s: &str, a: char, b: char) -> (r: String)
    ensures
        r@ == up_to_either(s@, a, b),
{
    let c = chars_of(s);
    let mut i: usize = 0;
    while i < c.len() && c[i] != a && c[i] != b
        invariant
            i <= c@.len(),
            forall|k: int| 0 <= k < i ==> #[trigger] c@[k] != a && c@[k] != b,
        decreases c.len() - i,
    {
        i += 1;
    }
    proof {
        lemma_first_is(c@, either(a, b), i as int);
    }
    let r = sub_text(&c, 0, i);
    assert(r@ =~= s@.take(i as int));
    r
}

/// `s` behind its last `x`; the whole of `s` where it has none.
pub open spec fn behind_last(s: Seq<char>, x: char) -> Seq<char> {
    s.skip(last(s, is_char(x)) + 1)
}

pub fn after_last(s: &str, x: char) -> (r: String)
    ensures
        r@ == behind_last(s@, x),
{
    let c = chars_of(s);
    let i: usize = match rfind(&c, x) {
        Some(i) => i + 1,
        None => 0,
    };
    let r = sub_text(&c, i, c.len());
    assert(r@ =~= s@.skip(i as int));
    r
}

// ----------------------------------------------------------------- numbers

/// The decimal digit of weight one in `n`.
pub open spec fn digit_char(n: nat) -> char {
    ((48 + n % 10) as u8) as char
}

/// `n` in decimal.
pub open spec fn decimal(n: nat) -> Seq<char>
    decreases n,
{
    if n < 10 {
        seq![digit_char(n)]
    } else {
        decimal(n / 10).push(digit_char(n))
    }
}

pub fn number(n: u64) -> (r: String)
    ensures
        r@ == decimal(n as nat),
{
    wide_number(n as u128)
}

/// `n` in decimal.
pub fn wide_number(n: u128) -> (r: String)
    ensures
        r@ == decimal(n as nat),
    decreases n,
{
    let d: u8 = (n % 10) as u8;
    let c = (48u8 + d) as char;
    if n < 10 {
        let mut r = String::new();
        r.push(c);
        assert(r@ =~= seq![digit_char(n as nat)]);
        r
    } else {
        let mut r = wide_number(n / 10);
        r.push(c);
        r
    }
}

/// `n` in decimal, with a minus sign where it is negative.
pub open spec fn signed_decimal(n: int) -> Seq<char> {
    if n < 0 {
        "-"@ + decimal((-n) as nat)
    } else {
        decimal(n as nat)
    }
}

pub fn signed_number(n: i64) -> (r: String)
    ensures
        r@ == signed_decimal(n as int),
{
    if n < 0 {
        let m: u64 = (-(n as i128)) as u64;
        cat("-", &number(m))
    } else {
        number(n as u64)
    }
}

pub open spec fn is_digit(c: char) -> bool {
    '0' <= c && c <= '9'
}

/// The value of a sequence of decimal digits.
pub open spec fn decimal_value(s: Seq<char>) -> nat
    decreases s.len(),
{
    if s.len() == 0 {
        0
    } else {
        (10 * decimal_value(s.drop_last()) + (s.last() as u32 - 48)) as nat
    }
}

/// A number in decimal is made of digits, and their value is the number.
pub proof fn lemma_decimal_spells(n: nat)
    ensures
        decimal(n).len() > 0,
        forall|i: int| 0 <= i < decimal(n).len() ==> is_digit(#[trigger] decimal(n)[i]),
        decimal_value(decimal(n)) == n,
    decreases n,
{
    let d = digit_char(n);
    assert(is_digit(d));
    assert(d as u32 - 48 == n % 10);
    if n < 10 {
        assert(decimal(n).drop_last() =~= seq![]);
        assert(decimal_value(decimal(n).drop_last()) == 0);
        assert(decimal(n).last() == d);
    } else {
        lemma_decimal_spells(n / 10);
        assert(decimal(n).drop_last() =~= decimal(n / 10));
        assert(decimal(n).last() == d);
    }
}

/// `s` without one leading plus sign.
pub open spec fn unsigned(s: Seq<char>) -> Seq<char> {
    if s.len() > 0 && s[0] == '+' {
        s.skip(1)
    } else {
        s
    }
}

/// The number that `s` spells, where it is an optional plus sign and digits.
pub open spec fn spelled(s: Seq<char>) -> Option<nat> {
    let d = unsigned(s);
    if d.len() > 0 && (forall|i: int| 0 <= i < d.len() ==> is_digit(#[trigger] d[i])) {
        Some(decimal_value(d))
    } else {
        None
    }
}

/// The number that `s` spells, where it is at most `max`.
pub open spec fn spelled_up_to(s: Seq<char>, max: int) -> Option<u64> {
    match spelled(s) {
        Some(n) => if n <= max {
            Some(n as u64)
        } else {
            None
        },
        None => None,
    }
}

proof fn lemma_decimal_value_grows(s: Seq<char>, k: int)
    requires
        0 <= k <= s.len(),
        forall|i: int| 0 <= i < s.len() ==> is_digit(#[trigger] s[i]),
    ensures
        decimal_value(s.take(k)) <= decimal_value(s),
    decreases s.len() - k,
{
    if k < s.len() {
        lemma_decimal_value_grows(s, k + 1);
        assert(s.take(k + 1).drop_last() =~= s.take(k));
        assert(is_digit(s[k]));
    } else {
        assert(s.take(k) =~= s);
    }
}

/// Reads an unsigned decimal number no larger than `max`, as `str::parse` reads one.
pub fn parse_number(s: &str, max: u64) -> (r: Option<u64>)
    ensures
        r == spelled_up_to(s@, max as int),
{
    let c = chars_of(s);
    let start: usize = if c.len() > 0 && c[0] == '+' {
        1
    } else {
        0
    };
    let ghost d = unsigned(s@);
    assert(d =~= s@.skip(start as int));
    if start == c.len() {
        return None;
    }
    let mut v: u64 = 0;
    let mut over: bool = false;
    let mut k: usize = start;
    while k < c.len()
        invariant
            start <= k <= c@.len(),
            start <= 1,
            c@ == s@,
            d == s@.skip(start as int),
            d.len() > 0,
            d == unsigned(s@),
            forall|i: int| 0 <= i < k - start ==> is_digit(#[trigger] d[i]),
            !over ==> v == decimal_value(d.take(k - start)) && v <= max,
            over ==> decimal_value(d.take(k - start)) > max,
        decreases c.len() - k,
    {
        let x = c[k];
        assert(d[k - start] == x);
        if x < '0' || x > '9' {
            assert(!is_digit(d[k - start]));
            return None;
        }
        let dv: u64 = (x as u32 - 48) as u64;
        let ghost kk = k - start;
        assert(d.take(kk + 1).drop_last() =~= d.take(kk));
        assert(decimal_value(d.take(kk + 1)) == 10 * decimal_value(d.take(kk)) + dv);
        if !over {
            let w: u128 = (v as u128) * 10 + (dv as u128);
            if w > max as u128 {
                over = true;
            } else {
                v = w as u64;
            }
        }
        k += 1;
    }
    assert(d.take(k - start) =~= d);
    if over {
        None
    } else {
        Some(v)
    }
}

} // verus!
