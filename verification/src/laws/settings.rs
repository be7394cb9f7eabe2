//! Settings typed and switched, sounds, the login item, and bars.
use crate::app::add_url::digits_of;
use crate::app::AppModel;
use crate::autostart::{item_text, login_item, Desktop, LoginItemModel};
use crate::effect::EffectModel;
use crate::ext_info::{hex_value, is_hex, unescaped};
use crate::progress::{share, WHOLE};
use crate::sounds;
use crate::state::OptionsStateModel;
use crate::text::{decimal, is_digit, lemma_decimal_spells, trimmed};
use crate::theme::scale_of;
use vstd::prelude::*;

verus! {

// --------------------------------------------------------------- download limit

proof fn lemma_digits_kept(s: Seq<char>, n: int)
    requires
        s.len() <= n,
        forall|i: int| 0 <= i < s.len() ==> is_digit(#[trigger] s[i]),
    ensures
        digits_of(s, n) == s,
    decreases s.len(),
{
    if s.len() > 0 {
        let t = s.drop_last();
        assert forall|i: int| 0 <= i < t.len() implies is_digit(#[trigger] t[i]) by {
            assert(t[i] == s[i]);
        }
        lemma_digits_kept(t, n);
        assert(is_digit(s[s.len() - 1]));
        assert(t.push(s.last()) =~= s);
    }
}

/// A number that is typed into the box of the download limit is the limit of the
/// draft, in megabytes or in hours, and the other one stays.
pub proof fn a_typed_limit_is_taken(o: OptionsStateModel, n: nat)
    requires
        n <= u64::MAX,
    ensures
        decimal(n).len() <= 9 ==> o.type_limit(decimal(n), false).draft.dl_limit_mb == n
            && o.type_limit(decimal(n), false).draft.dl_limit_hours == o.draft.dl_limit_hours,
        decimal(n).len() <= 5 ==> o.type_limit(decimal(n), true).draft.dl_limit_hours == n
            && o.type_limit(decimal(n), true).draft.dl_limit_mb == o.draft.dl_limit_mb,
        o.type_limit(decimal(n), false).draft.dl_limit_enabled == o.draft.dl_limit_enabled,
{
    lemma_decimal_spells(n);
    crate::actions::numbers_read_back(n, u64::MAX as int);
    if decimal(n).len() <= 9 {
        lemma_digits_kept(decimal(n), 9);
    }
    if decimal(n).len() <= 5 {
        lemma_digits_kept(decimal(n), 5);
    }
}

/// A login that is added comes last, for the site without the space around it;
/// one without a site is not added. The selected one is the one that is removed.
pub proof fn logins_come_and_go(o: OptionsStateModel)
    ensures
        trimmed(o.login_site).len() == 0 ==> o.add_login() == o,
        trimmed(o.login_site).len() > 0 ==> {
            let v = o.add_login().draft.logins;
            &&& v.len() == o.draft.logins.len() + 1
            &&& v.drop_last() =~= o.draft.logins
            &&& v.last().site == trimmed(o.login_site)
            &&& v.last().user == o.login_user
            &&& v.last().pass == o.login_pass
        },
        o.sel_login is Some && o.sel_login->0 < o.draft.logins.len()
            ==> o.remove_login().draft.logins == o.draft.logins.remove(o.sel_login->0 as int)
            && o.remove_login().sel_login is None,
        o.sel_login is None ==> o.remove_login().draft.logins == o.draft.logins,
{
}

// ---------------------------------------------------------------------- sounds

/// A sound plays exactly if its row is there and switched on: the file of the
/// row, or the built-in one where it names none.
pub proof fn sounds_play_where_switched_on(s: AppModel, i: int, e: sounds::Event)
    ensures
        ({
            let v = s.cfg.settings.sounds;
            let t = s.play(i, e);
            &&& !(0 <= i < v.len() && v[i].enabled) ==> t == s
            &&& 0 <= i < v.len() && v[i].enabled ==> t.out.len() == s.out.len() + 1 && (
            t.out.last() matches EffectModel::Play { file, event } && event == e && (
            if v[i].file.len() == 0 {
                file is None
            } else {
                file == Some(v[i].file)
            }))
        }),
{
    reveal(AppModel::play);
}

// ------------------------------------------------------------------ login item

/// What the login item says once it has been seen to.
pub open spec fn seen_to(now: Option<Seq<char>>, what: LoginItemModel) -> Option<Seq<char>> {
    match what {
        LoginItemModel::Leave => now,
        LoginItemModel::Write(s) => Some(s),
        LoginItemModel::Remove => None,
    }
}

/// Whatever the login item said before: switched on it launches this program, and
/// switched off it is gone, or says on Linux what it says for no program.
pub proof fn the_login_item_follows_the_switch(
    desktop: Desktop,
    minimized: bool,
    exe: Seq<char>,
    other: Seq<char>,
    before: Option<Seq<char>>,
    after: Option<Seq<char>>,
)
    ensures
        seen_to(before, login_item(desktop, true, minimized, false, Some(exe), before)) == Some(
            item_text(desktop, exe, minimized),
        ),
        desktop != Desktop::Linux ==> seen_to(
            before,
            login_item(desktop, false, minimized, false, Some(exe), before),
        ) is None,
        desktop == Desktop::Linux ==> seen_to(
            before,
            login_item(desktop, false, minimized, false, Some(exe), before),
        ) == seen_to(after, login_item(desktop, false, !minimized, false, Some(other), after)),
        item_text(desktop, exe, true) != item_text(desktop, exe, false),
{
    reveal_strlit("        <string>--minimized</string>\n");
    reveal_strlit("--minimized");
    reveal_strlit("");
    reveal_strlit("\" --minimized");
    reveal_strlit("\"");
    let a = item_text(desktop, exe, true);
    let b = item_text(desktop, exe, false);
    assert(a.len() > b.len());
}

// --------------------------------------------------------------------- escapes

/// A hexadecimal digit of a number below sixteen.
pub open spec fn digit_of(n: int, upper: bool) -> u8 {
    (if n < 10 {
        0x30 + n
    } else if upper {
        0x41 + n - 10
    } else {
        0x61 + n - 10
    }) as u8
}

/// Each byte is read back from its escape, in either letter case.
pub proof fn escapes_read_back(v: u8, upper: bool, rest: Seq<u8>)
    ensures
        unescaped(
            seq![0x25u8, digit_of(v as int / 16, upper), digit_of(v as int % 16, upper)] + rest,
        ) == seq![v] + unescaped(rest),
{
    let hi = digit_of(v as int / 16, upper);
    let lo = digit_of(v as int % 16, upper);
    let b = seq![0x25u8, hi, lo] + rest;
    assert(b[0] == 0x25 && b[1] == hi && b[2] == lo);
    assert(is_hex(hi) && is_hex(lo));
    assert(hex_value(hi) == v as int / 16 && hex_value(lo) == v as int % 16);
    assert(b.skip(3) =~= rest);
}

// ------------------------------------------------------------------------ bars

/// A bar is empty at nothing, full at everything, and at one half in between.
pub proof fn bars_show_the_share(all: nat)
    requires
        all > 0,
    ensures
        share(0, all) == 0,
        share(all, all) == WHOLE,
        2 * share(all, 2 * all) == WHOLE,
{
    assert(0 * 1_000_000 / all == 0) by (nonlinear_arith)
        requires
            all > 0,
    ;
    assert(all * 1_000_000 / (2 * all) == 500_000) by (nonlinear_arith)
        requires
            all > 0,
    ;
}

/// A larger font never makes the interface smaller.
pub proof fn larger_fonts_never_shrink(a: u16, b: u16)
    requires
        0 < a <= b,
    ensures
        scale_of(a) <= scale_of(b),
        scale_of(13) == 26,
{
}

} // verus!
