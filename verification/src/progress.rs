//! How far a download is, in millionths of the whole.
use vstd::prelude::*;

verus! {

/// A full bar.
pub const WHOLE: u32 = 1_000_000;

/// The share of `done` in `all`, never more than the whole.
pub open spec fn share(done: nat, all: nat) -> nat {
    if all == 0 {
        0
    } else if done >= all {
        WHOLE as nat
    } else {
        done * (WHOLE as nat) / all
    }
}

fn share_of(done: u64, all: u64) -> (r: u32)
    ensures
        r == share(done as nat, all as nat),
{
    if all == 0 {
        return 0;
    }
    if done >= all {
        return WHOLE;
    }
    let n = (done as u128) * 1_000_000 / (all as u128);
    proof {
        assert((done as int) * 1_000_000 / (all as int) <= 1_000_000) by (nonlinear_arith)
            requires
                0 <= done < all,
        ;
    }
    n as u32
}

/// How far a download is. A stream's size is a guess that the bytes may have
/// overtaken, and the bar stays full then; without a size there is no progress.
pub fn progress(downloaded: u64, size: Option<u64>) -> (r: u32)
    ensures
        r == (match size {
            Some(s) => share(downloaded as nat, s as nat),
            None => 0,
        }),
{
    match size {
        Some(s) => share_of(downloaded, s),
        None => 0,
    }
}

/// How far a timed recording is: its milliseconds against the seconds it was
/// asked for. Without a limit, or with nothing recorded, there is no share to
/// show.
pub fn live_progress(limit_secs: Option<u64>, recorded_ms: Option<u64>) -> (r: u32)
    ensures
        r == (match (limit_secs, recorded_ms) {
            (Some(l), Some(m)) => share(m as nat, l as nat * 1000),
            _ => 0,
        }),
{
    match (limit_secs, recorded_ms) {
        (Some(l), Some(m)) => {
            if l > 18_446_744_073_709_551 {
                let n = (m as u128) * 1_000_000 / ((l as u128) * 1000);
                proof {
                    assert(m < l * 1000);
                    assert((m as int) * 1_000_000 / (l as int * 1000) <= 1_000_000)
                        by (nonlinear_arith)
                        requires
                            0 <= m < l * 1000,
                    ;
                }
                return n as u32;
            }
            share_of(m, l * 1000)
        },
        _ => 0,
    }
}

// ------------------------------------------------------------------------- laws

/// No bar is drawn past its end.
pub proof fn a_bar_is_never_more_than_full(done: nat, all: nat)
    ensures
        share(done, all) <= WHOLE,
{
    if 0 < all && done < all {
        assert(done * 1_000_000 / all <= 1_000_000) by (nonlinear_arith)
            requires
                0 <= done < all,
        ;
    }
}

/// A bar does not go back while bytes arrive.
pub proof fn more_bytes_never_shorten_a_bar(a: nat, b: nat, all: nat)
    requires
        a <= b,
    ensures
        share(a, all) <= share(b, all),
{
    a_bar_is_never_more_than_full(a, all);
    if 0 < all && b < all {
        assert(a * 1_000_000 / all <= b * 1_000_000 / all) by (nonlinear_arith)
            requires
                0 <= a <= b,
                all > 0,
        ;
    }
}

} // verus!
