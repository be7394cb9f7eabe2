//! Numbers, times and addresses as the user reads and writes them.
use crate::fmt::{
    day_of_week, eta_text, fixed, minute_text, nearest, padded, second_of_day,
    size_text, small_numbers_are_exact, ten_to,
};
use crate::names::{collision, path_in, DiskModel};
use crate::rules::in_domain;
use crate::text::{decimal, ends};
use vstd::prelude::*;

verus! {

/// A time left reads in hours and minutes from one hour on, in minutes and
/// seconds from one minute on, and in seconds below that.
pub proof fn a_time_left_reads_back(h: nat, m: nat, x: nat)
    requires
        m < 60,
        x < 60,
    ensures
        h > 0 ==> eta_text(h * 3600 + m * 60 + x) == decimal(h) + " hr "@ + decimal(m) + " min"@,
        h == 0 && m > 0 ==> eta_text(h * 3600 + m * 60 + x) == decimal(m) + " min "@ + decimal(x)
            + " sec"@,
        h == 0 && m == 0 ==> eta_text(h * 3600 + m * 60 + x) == decimal(x) + " sec"@,
{
}

/// A size of whole units reads as that many of the largest unit that it fills.
pub proof fn whole_sizes_read_back(k: nat, prec: nat)
    requires
        1 <= k < 1024,
        prec == 2 || prec == 3,
    ensures
        size_text(k, prec) == decimal(k) + " B"@,
        size_text(k * 1024, prec) == decimal(k) + "."@ + padded(0, prec) + " KB"@,
        size_text(k * 1048576, prec) == decimal(k) + "."@ + padded(0, prec) + " MB"@,
        size_text(k * 1073741824, prec) == decimal(k) + "."@ + padded(0, prec) + " GB"@,
{
    reveal_with_fuel(ten_to, 4);
    let t = ten_to(prec);
    small_numbers_are_exact(k);
    small_numbers_are_exact(k * 1024);
    small_numbers_are_exact(k * 1048576);
    small_numbers_are_exact(k * 1073741824);
    lemma_whole(k, 1024, t);
    lemma_whole(k, 1048576, t);
    lemma_whole(k, 1073741824, t);
    assert(fixed(k * t, prec) == decimal(k) + "."@ + padded(0, prec)) by {
        assert((k * t) / t == k) by (nonlinear_arith)
            requires
                t > 0,
        ;
        assert((k * t) % t == 0) by (nonlinear_arith)
            requires
                t > 0,
        ;
    }
}

proof fn lemma_whole(k: nat, unit: nat, t: nat)
    requires
        unit > 0,
    ensures
        nearest((k * unit) * t, unit) == k * t,
{
    assert((k * unit) * t == (k * t) * unit) by (nonlinear_arith);
    assert(((k * t) * unit) / unit == k * t) by (nonlinear_arith)
        requires
            unit > 0,
    ;
    assert(((k * t) * unit) % unit == 0) by (nonlinear_arith)
        requires
            unit > 0,
    ;
}

/// The clock reads the hour and the minute of the day, on every day, and an
/// offset moves it by so many seconds.
pub proof fn the_clock_reads_the_time_of_day(d: int, h: int, m: int, x: int, offset: i32)
    requires
        0 <= h < 24,
        0 <= m < 60,
        0 <= x < 60,
        i64::MIN <= d * 86400 + h * 3600 + m * 60 + x - offset <= i64::MAX,
    ensures
        minute_text((d * 86400 + h * 3600 + m * 60 + x - offset) as i64, offset) == padded(
            h as nat,
            2,
        ) + ":"@ + padded(m as nat, 2),
{
    let unix = (d * 86400 + h * 3600 + m * 60 + x - offset) as i64;
    let r = h * 3600 + m * 60 + x;
    assert((d * 86400 + r) % 86400 == r) by (nonlinear_arith)
        requires
            0 <= r < 86400,
    ;
    assert(second_of_day(unix, offset) == r);
    assert(r / 3600 == h);
    assert((r / 60) % 60 == m);
}

/// The days of the week follow one another; the first of January 1970 was a
/// Thursday.
pub proof fn days_follow_one_another(unix: i64, offset: i32)
    requires
        unix + 86400 <= i64::MAX,
    ensures
        day_of_week((unix + 86400) as i64, offset) == (day_of_week(unix, offset) + 1) % 7,
        0 <= unix + offset < 86400 ==> day_of_week(unix, offset) == 4,
{
    let a = unix + offset;
    assert((a + 86400) / 86400 == a / 86400 + 1);
}

/// The file that an address would overwrite is one that lies there already, and
/// is looked for only under a name that the download will really have.
pub proof fn only_real_files_collide(
    dir: Seq<char>,
    name: Seq<char>,
    named: bool,
    disk: DiskModel,
)
    ensures
        collision(dir, name, named, disk) matches Some(p) ==> p == path_in(dir, name)
            && disk.entries.contains_key(p) && disk.entries[p].is_file,
        collision(dir, name, named, disk) is Some <==> named && disk.entries.contains_key(
            path_in(dir, name),
        ) && disk.entries[path_in(dir, name)].is_file,
{
}

/// A domain holds no host that merely ends like it.
pub proof fn other_domains_are_not_in_the_domain(x: Seq<char>, dom: Seq<char>)
    requires
        x.len() > 0,
        x.last() != '.',
    ensures
        !in_domain(x + dom, dom),
        in_domain(dom, dom),
        in_domain(x + "."@ + dom, dom),
{
    reveal_strlit(".");
    let h = x + dom;
    let d = "."@ + dom;
    if ends(h, d) {
        let t = h.subrange(h.len() - d.len(), h.len() as int);
        assert(t[0] == '.');
        assert(h[h.len() - d.len()] == x[x.len() - 1]);
    }
    assert(h.len() != dom.len());
    let g = x + "."@ + dom;
    assert(g.subrange(g.len() - d.len(), g.len() as int) =~= d);
}

} // verus!
