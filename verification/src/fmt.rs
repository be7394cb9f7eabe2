//! Human formatting: `121.66 MB`, `3 min 32 sec`, `5.80%`,
//! `Aug 17 15:48:32 2026`.
//!
//! Sizes and percentages are printed as a double-precision computation would
//! print them: every step is rounded to the nearest number with 53 significant
//! bits, ties going to the even one, and the decimals are those of that number.
use crate::ext_info::opt_text;
use crate::text::{cat, cat3, decimal, number, wide_number};
use chrono::TimeZone;
use vstd::prelude::*;

verus! {

// ------------------------------------------------------------------ rounding

/// The integer nearest to `n / d`; of two equally near ones the even one.
pub open spec fn nearest(n: nat, d: nat) -> nat {
    let q = n / d;
    let r = n % d;
    if 2 * r < d {
        q
    } else if 2 * r > d || q % 2 == 1 {
        q + 1
    } else {
        q
    }
}

/// Two to the power of 53.
pub open spec fn mantissa() -> nat {
    0x20_0000_0000_0000
}

/// The smallest power of two, from `p` on, in units of which `n` has at most
/// 53 bits.
pub open spec fn unit_of(n: nat, p: nat) -> nat
    decreases n - p,
{
    if p == 0 || n < p * mantissa() {
        p
    } else {
        unit_of(n, 2 * p)
    }
}

/// The number with 53 significant bits nearest to `n`.
pub open spec fn double_of(n: nat) -> nat {
    nearest(n, unit_of(n, 1)) * unit_of(n, 1)
}

/// A power of two.
pub open spec fn two_to(k: nat) -> nat
    decreases k,
{
    if k == 0 {
        1
    } else {
        2 * two_to((k - 1) as nat)
    }
}

fn nearest_of(n: u128, d: u128) -> (r: u128)
    requires
        0 < d <= 0x8000_0000_0000_0000_0000_0000_0000_0000,
    ensures
        r == nearest(n as nat, d as nat),
{
    let q: u128 = n / d;
    let rem: u128 = n % d;
    assert(q <= n) by (nonlinear_arith)
        requires
            q == n / d,
            d > 0,
    ;
    if rem < d - rem {
        q
    } else if rem > d - rem || q % 2 == 1 {
        assert(q < u128::MAX) by (nonlinear_arith)
            requires
                q == n / d,
                rem == n % d,
                d > 0,
                rem >= d - rem,
                n <= u128::MAX,
        ;
        q + 1
    } else {
        q
    }
}

/// The unit for a number below two to the 72.
fn unit(n: u128) -> (r: u128)
    requires
        n < 0x100_0000_0000_0000_0000,
    ensures
        r == unit_of(n as nat, 1),
        0 < r <= 0x10_0000,
        n < r * 0x20_0000_0000_0000,
{
    let mut p: u128 = 1;
    while n >= p * 0x20_0000_0000_0000
        invariant
            0 < p <= 0x10_0000,
            n < 0x100_0000_0000_0000_0000,
            unit_of(n as nat, 1) == unit_of(n as nat, p as nat),
        decreases n - p,
    {
        assert(p < 0x8_0001);
        p = 2 * p;
    }
    p
}

proof fn lemma_double_bound(n: nat, p: nat)
    requires
        0 < p,
        n < p * mantissa(),
    ensures
        nearest(n, p) <= mantissa(),
{
    assert(n / p < mantissa()) by (nonlinear_arith)
        requires
            n < p * mantissa(),
            0 < p,
    ;
}

fn to_double(n: u128) -> (r: u128)
    requires
        n < 0x100_0000_0000_0000_0000,
    ensures
        r == double_of(n as nat),
        r <= 0x200_0000_0000_0000_0000,
{
    let u = unit(n);
    let m = nearest_of(n, u);
    proof {
        lemma_double_bound(n as nat, u as nat);
        assert(m * u <= mantissa() * 0x10_0000) by (nonlinear_arith)
            requires
                m <= mantissa(),
                u <= 0x10_0000,
        ;
    }
    m * u
}

// --------------------------------------------------------------- fixed point

/// `n` in decimal, padded with zeros in front to `w` digits.
pub open spec fn padded(n: nat, w: nat) -> Seq<char>
    decreases w,
{
    if w == 0 {
        seq![]
    } else {
        padded(n / 10, (w - 1) as nat).push(crate::text::digit_char(n))
    }
}

fn pad(n: u64, w: u32) -> (r: String)
    ensures
        r@ == padded(n as nat, w as nat),
    decreases w,
{
    if w == 0 {
        String::new()
    } else {
        let mut r = pad(n / 10, w - 1);
        r.push((48u8 + (n % 10) as u8) as char);
        r
    }
}

pub open spec fn ten_to(k: nat) -> nat
    decreases k,
{
    if k == 0 {
        1
    } else {
        10 * ten_to((k - 1) as nat)
    }
}

/// `v` units of the last of `prec` decimals.
pub open spec fn fixed(v: nat, prec: nat) -> Seq<char> {
    decimal(v / ten_to(prec)) + "."@ + padded(v % ten_to(prec), prec)
}

/// `v` hundredths or thousandths.
fn fixed_text(v: u64, thousandths: bool) -> (r: String)
    ensures
        r@ == fixed(
            v as nat,
            if thousandths {
                3
            } else {
                2
            },
        ),
{
    proof {
        reveal_with_fuel(ten_to, 4);
    }
    if thousandths {
        cat3(&number(v / 1000), ".", &pad(v % 1000, 3))
    } else {
        cat3(&number(v / 100), ".", &pad(v % 100, 2))
    }
}

// --------------------------------------------------------------------- sizes

/// A size with the given number of decimals, in the largest unit it reaches.
pub open spec fn size_text(bytes: nat, prec: nat) -> Seq<char> {
    let b = double_of(bytes);
    if b >= 1073741824 {
        fixed(nearest(b * ten_to(prec), 1073741824), prec) + " GB"@
    } else if b >= 1048576 {
        fixed(nearest(b * ten_to(prec), 1048576), prec) + " MB"@
    } else if b >= 1024 {
        fixed(nearest(b * ten_to(prec), 1024), prec) + " KB"@
    } else {
        decimal(bytes) + " B"@
    }
}

proof fn lemma_nearest_at_most(n: nat, d: nat)
    requires
        0 < d,
    ensures
        nearest(n, d) <= n / d + 1,
{
}

/// A size with two decimals, or three.
fn size_n(bytes: u64, thousandths: bool) -> (r: String)
    ensures
        r@ == size_text(
            bytes as nat,
            if thousandths {
                3
            } else {
                2
            },
        ),
{
    proof {
        reveal_with_fuel(ten_to, 4);
    }
    let b = to_double(bytes as u128);
    let scale: u128 = if thousandths {
        1000
    } else {
        100
    };
    let (d, name): (u128, &str) = if b >= 1073741824 {
        (1073741824, " GB")
    } else if b >= 1048576 {
        (1048576, " MB")
    } else if b >= 1024 {
        (1024, " KB")
    } else {
        return cat(&number(bytes), " B");
    };
    proof {
        lemma_size_bound(bytes as nat);
    }
    let v = nearest_of(b * scale, d);
    proof {
        lemma_nearest_at_most((b * scale) as nat, d as nat);
        if d == 1073741824 {
            assert((b * scale) / (d as int) <= 0x100_0000_0000_0000) by (nonlinear_arith)
                requires
                    b <= 0x1_0000_0000_0000_0000,
                    scale <= 1000,
                    d == 1073741824,
            ;
        } else if d == 1048576 {
            assert(b < 1073741824);
        }
        assert(v <= u64::MAX);
    }
    cat(&fixed_text(v as u64, thousandths), name)
}

proof fn lemma_size_bound(n: nat)
    requires
        n <= u64::MAX,
    ensures
        double_of(n) <= 0x1_0000_0000_0000_0000,
{
    lemma_unit_of(n, 1, 0);
    let u = unit_of(n, 1);
    lemma_unit_small(n, 1);
    lemma_double_bound(n, u);
    assert(nearest(n, u) * u <= mantissa() * 2048) by (nonlinear_arith)
        requires
            nearest(n, u) <= mantissa(),
            u <= 2048,
    ;
}

proof fn lemma_unit_of(n: nat, p: nat, k: nat)
    requires
        0 < p,
    ensures
        n < unit_of(n, p) * mantissa(),
        0 < unit_of(n, p),
    decreases n - p,
{
    if n >= p * mantissa() {
        lemma_unit_of(n, 2 * p, k);
    }
}

proof fn lemma_unit_small(n: nat, p: nat)
    requires
        0 < p <= 2048,
        n <= u64::MAX,
        p == 1 || p == 2 || p == 4 || p == 8 || p == 16 || p == 32 || p == 64 || p == 128 || p
            == 256 || p == 512 || p == 1024 || p == 2048,
    ensures
        unit_of(n, p) <= 2048,
    decreases 4096 - p,
{
    if n >= p * mantissa() {
        assert(p < 2048);
        lemma_unit_small(n, 2 * p);
    }
}

/// `121.66 MB` (two decimals: the download list's spelling).
pub fn size2(bytes: u64) -> (r: String)
    ensures
        r@ == size_text(bytes as nat, 2),
{
    size_n(bytes, false)
}

/// `121.665 MB` (three decimals: the progress dialog's spelling).
pub fn size3(bytes: u64) -> (r: String)
    ensures
        r@ == size_text(bytes as nat, 3),
{
    size_n(bytes, true)
}

// ---------------------------------------------------------------------- time

/// A duration in its two largest units.
pub open spec fn eta_text(secs: nat) -> Seq<char> {
    if secs >= 3600 {
        decimal(secs / 3600) + " hr "@ + decimal((secs % 3600) / 60) + " min"@
    } else if secs >= 60 {
        decimal(secs / 60) + " min "@ + decimal(secs % 60) + " sec"@
    } else {
        decimal(secs) + " sec"@
    }
}

/// `3 min 32 sec`, `1 hr 12 min`, `45 sec`.
pub fn eta(secs: u64) -> (r: String)
    ensures
        r@ == eta_text(secs as nat),
{
    if secs >= 3600 {
        cat(&cat3(&number(secs / 3600), " hr ", &number((secs % 3600) / 60)), " min")
    } else if secs >= 60 {
        cat(&cat3(&number(secs / 60), " min ", &number(secs % 60)), " sec")
    } else {
        cat(&number(secs), " sec")
    }
}

// ------------------------------------------------------------------- percent

/// A quotient with 53 significant bits: `m` over two to the `k`, or times two
/// to the `-k`.
pub struct Quotient {
    pub m: nat,
    pub k: int,
}

/// The number with 53 significant bits nearest to `n / d` over two to the `k`.
pub open spec fn quotient(n: nat, d: nat, k: int) -> Quotient
    decreases
            (if n >= d * mantissa() {
                n - d
            } else {
                0
            }),
            (if n < d * (mantissa() / 2) {
                d * mantissa() - n
            } else {
                0
            }),
    via quotient_ends
{
    if n == 0 || d == 0 {
        Quotient { m: 0, k: 0 }
    } else if n >= d * mantissa() {
        quotient(n, 2 * d, k - 1)
    } else if n < d * (mantissa() / 2) {
        quotient(2 * n, d, k + 1)
    } else {
        Quotient { m: nearest(n, d), k }
    }
}

#[via_fn]
proof fn quotient_ends(n: nat, d: nat, k: int) {
    assert(mantissa() / 2 == 0x10_0000_0000_0000);
    if n > 0 && d > 0 && n < d * (mantissa() / 2) {
        assert(d * mantissa() == 2 * (d * (mantissa() / 2))) by (nonlinear_arith)
            requires
                mantissa() == 2 * (mantissa() / 2),
        ;
    }
    if n > 0 && d > 0 && n >= d * mantissa() {
        assert(d * mantissa() >= 2 * d) by (nonlinear_arith)
            requires
                mantissa() >= 2,
                d > 0,
        ;
    }
}

/// A quotient in hundredths.
pub open spec fn hundredths(q: Quotient) -> nat {
    if q.k >= 0 {
        nearest(q.m * 100, two_to(q.k as nat))
    } else {
        q.m * two_to((-q.k) as nat) * 100
    }
}

/// The percentage that `done` is of `size`, with two decimals.
pub open spec fn percent(done: nat, size: nat) -> Seq<char> {
    if size == 0 {
        seq![]
    } else {
        fixed(
            hundredths(quotient(double_of(double_of(done) * 100), double_of(size), 0)),
            2,
        ) + "%"@
    }
}

proof fn lemma_two_to(k: nat)
    ensures
        two_to(k) > 0,
    decreases k,
{
    if k > 0 {
        lemma_two_to((k - 1) as nat);
    }
}

/// The quotient of numbers below two to the 73 and two to the 65, in hundredths.
fn quotient_hundredths(n0: u128, d0: u128) -> (r: u128)
    requires
        n0 <= 0x200_0000_0000_0000_0000,
        0 < d0 <= 0x1_0000_0000_0000_0000,
    ensures
        r == hundredths(quotient(n0 as nat, d0 as nat, 0)),
{
    if n0 == 0 {
        proof {
            reveal_with_fuel(two_to, 2);
        }
        return 0;
    }
    let mut n: u128 = n0;
    let mut d: u128 = d0;
    let mut up: u128 = 1;
    let ghost mut k: int = 0;
    proof {
        reveal_with_fuel(two_to, 2);
        assert(mantissa() / 2 == 0x10_0000_0000_0000);
    }
    // Down: the quotient has more than 53 bits.
    while n >= d * 0x20_0000_0000_0000
        invariant
            n == n0,
            0 < n <= 0x200_0000_0000_0000_0000,
            0 < d <= 0x1_0000_0000_0000_0000,
            k <= 0,
            up == two_to((-k) as nat),
            0 < up <= d,
            up > 1 <==> k < 0,
            k < 0 ==> n >= d * 0x10_0000_0000_0000,
            mantissa() / 2 == 0x10_0000_0000_0000,
            quotient(n0 as nat, d0 as nat, 0) == quotient(n as nat, d as nat, k),
        decreases n - d,
    {
        assert(d <= 0x10_0000);
        proof {
            k = k - 1;
        }
        d = 2 * d;
        up = 2 * up;
    }
    if up > 1 {
        // At least 52 bits are left, and no more than 53.
        assert(n >= d * 0x10_0000_0000_0000);
        let m = nearest_of(n, d);
        proof {
            lemma_double_bound(n as nat, d as nat);
            assert(m * up <= mantissa() * 0x1_0000_0000_0000_0000) by (nonlinear_arith)
                requires
                    m <= mantissa(),
                    up <= 0x1_0000_0000_0000_0000,
            ;
        }
        return m * up * 100;
    }
    let mut down: u128 = 1;
    // Up: the quotient has fewer than 53 bits.
    while n < d * 0x10_0000_0000_0000
        invariant
            0 < n < d * 0x20_0000_0000_0000,
            0 < d <= 0x1_0000_0000_0000_0000,
            k >= 0,
            down == two_to(k as nat),
            0 < down <= n,
            mantissa() / 2 == 0x10_0000_0000_0000,
            quotient(n0 as nat, d0 as nat, 0) == quotient(n as nat, d as nat, k),
        decreases d * 0x20_0000_0000_0000 - n,
    {
        proof {
            k = k + 1;
        }
        n = 2 * n;
        down = 2 * down;
    }
    let m = nearest_of(n, d);
    proof {
        lemma_double_bound(n as nat, d as nat);
    }
    nearest_of(m * 100, down)
}

/// `5.80%`: the Status column while a transfer runs.
pub fn pct(done: u64, size: u64) -> (r: String)
    ensures
        r@ == percent(done as nat, size as nat),
{
    if size == 0 {
        return String::new();
    }
    proof {
        lemma_size_bound(done as nat);
        lemma_size_bound(size as nat);
    }
    let x = to_double(done as u128);
    let s = to_double(size as u128);
    proof {
        lemma_double_positive(size as nat);
    }
    let y = to_double(x * 100);
    let v = quotient_hundredths(y, s);
    cat(&fixed_wide(v), "%")
}

proof fn lemma_double_positive(n: nat)
    requires
        n > 0,
    ensures
        double_of(n) > 0,
{
    lemma_unit_of(n, 1, 0);
    let u = unit_of(n, 1);
    lemma_unit_at_most(n, 1);
    assert(n / u >= 1) by (nonlinear_arith)
        requires
            n >= u,
            u > 0,
    ;
    assert(nearest(n, u) * u > 0) by (nonlinear_arith)
        requires
            nearest(n, u) >= 1,
            u > 0,
    ;
}

proof fn lemma_unit_at_most(n: nat, p: nat)
    requires
        0 < p <= n,
    ensures
        unit_of(n, p) <= n,
    decreases n - p,
{
    if n >= p * mantissa() {
        lemma_unit_at_most(n, 2 * p);
    }
}

/// A wide number of hundredths.
fn fixed_wide(v: u128) -> (r: String)
    ensures
        r@ == fixed(v as nat, 2),
{
    proof {
        reveal_with_fuel(ten_to, 3);
    }
    cat3(&wide_number(v / 100), ".", &pad((v % 100) as u64, 2))
}

// ---------------------------------------------------------------------- dates

/// Seconds since midnight of a time at an offset from UTC.
pub open spec fn second_of_day(unix: i64, offset: i32) -> int {
    (unix + offset) % 86400
}

/// The day of the week of a time at an offset from UTC; Sunday is 0.
pub open spec fn day_of_week(unix: i64, offset: i32) -> int {
    ((unix + offset) / 86400 + 4) % 7
}

/// Times up to the end of the year 9999, at offsets that a clock can have.
pub open spec fn ordinary(unix: i64, offset: i32) -> bool {
    0 <= unix <= 253402300799 && -86400 < offset < 86400
}

/// `HH:MM` of a time at an offset from UTC.
pub open spec fn minute_text(unix: i64, offset: i32) -> Seq<char> {
    padded((second_of_day(unix, offset) / 3600) as nat, 2) + ":"@ + padded(
        ((second_of_day(unix, offset) / 60) % 60) as nat,
        2,
    )
}

/// What chrono's `FixedOffset::timestamp_opt` and `DateTime::format` with
/// `%b %d %H:%M:%S %Y` print of a time; nothing for a time or an offset out of
/// range.
pub uninterp spec fn stamp(unix: i64, offset: i32) -> Option<Seq<char>>;

/// chrono's `FixedOffset::east_opt`, `TimeZone::timestamp_opt` and
/// `DateTime::format`: the time as `Aug 17 15:48:32 2026`. A time up to the year
/// 9999 at an offset of less than a day always has such a text.
#[verifier::external_body]
fn zoned_stamp(unix: i64, offset: i32) -> (r: Option<String>)
    ensures
        opt_text(r) == stamp(unix, offset),
        ordinary(unix, offset) ==> r is Some,
{
    let zone = chrono::FixedOffset::east_opt(offset)?;
    let time = zone.timestamp_opt(unix, 0).single()?;
    Some(time.format("%b %d %H:%M:%S %Y").to_string())
}

/// `Aug 17 15:48:32 2026`: the Last Try Date column, for a clock `offset`
/// seconds ahead of UTC. Empty for a time that has no date.
pub fn date(unix: i64, offset: i32) -> (r: String)
    ensures
        r@ == date_text(stamp(unix, offset)),
{
    or_blank(zoned_stamp(unix, offset))
}

pub open spec fn date_text(t: Option<Seq<char>>) -> Seq<char> {
    match t {
        Some(t) => t,
        None => seq![],
    }
}

/// The text, or nothing where there is none.
pub fn or_blank(t: Option<String>) -> (r: String)
    ensures
        r@ == date_text(opt_text(t)),
{
    match t {
        Some(t) => t,
        None => String::new(),
    }
}

/// Whole weeks, and more of them than any time lies before 1970.
const WEEKS: i128 = 21279508239325593600;

/// The time at the offset, with weeks added that keep it from being negative.
fn shifted(unix: i64, offset: i32) -> (r: u128)
    ensures
        r == unix + offset + WEEKS,
        r % 86400 == second_of_day(unix, offset),
        (r / 86400 + 4) % 7 == day_of_week(unix, offset),
{
    assert(WEEKS == 86400 * 246290604621824);
    assert(246290604621824 == 7 * 35184372088832);
    (unix as i128 + offset as i128 + WEEKS) as u128
}

/// `15:48` for the scheduler's time fields, for a clock `offset` seconds ahead
/// of UTC.
pub fn hhmm(unix: i64, offset: i32) -> (r: String)
    ensures
        r@ == minute_text(unix, offset),
{
    let second: u64 = (shifted(unix, offset) % 86400) as u64;
    cat3(&pad(second / 3600, 2), ":", &pad((second / 60) % 60, 2))
}

/// The day of the week, Sunday being 0, as the scheduler's day boxes count.
pub fn weekday(unix: i64, offset: i32) -> (r: usize)
    ensures
        r == day_of_week(unix, offset),
        r < 7,
{
    ((shifted(unix, offset) / 86400 + 4) % 7) as usize
}

// ---------------------------------------------------------------------- laws

/// Whole numbers below two to the 53 lose nothing.
pub proof fn small_numbers_are_exact(n: nat)
    requires
        n < mantissa(),
    ensures
        double_of(n) == n,
{
    assert(unit_of(n, 1) == 1);
}

/// A day of the week is one of seven.
pub proof fn a_week_has_seven_days(unix: i64, offset: i32)
    ensures
        0 <= day_of_week(unix, offset) < 7,
{
}

} // verus!
