//! An author's share of all contributions, in hundredths of a percent,
//! and its text with two decimal places.

use vstd::prelude::*;
use crate::ledger::{sum_contributions, Tally};
use crate::models::AuthorStats;
use crate::text::{decimal, digit_char, digit_text, push_decimal};

verus! {

/// The hundredths of a percent in one whole.
pub const WHOLE: u128 = 10000;

/// The quotient `n / d` rounded to the nearest integer; a quotient half way
/// between two integers goes to the even one.
pub open spec fn round_half_even(n: nat, d: nat) -> nat
    recommends
        d > 0,
{
    let q = n / d;
    let r = n % d;
    if 2 * r < d || (2 * r == d && q % 2 == 0) {
        q
    } else {
        q + 1
    }
}

/// The share of `part` in `total`, in hundredths of a percent, rounded to
/// the nearest. The share in a total of zero is zero.
pub open spec fn share_hundredths(part: nat, total: nat) -> nat {
    if total == 0 {
        0
    } else {
        round_half_even(part * WHOLE as nat, total)
    }
}

/// The text of a share: the percent, a point, two decimal places, a
/// percent sign.
pub open spec fn percent_text(hundredths: nat) -> Seq<char> {
    decimal(hundredths / 100) + seq!['.', digit_char(hundredths / 10 % 10), digit_char(hundredths % 10), '%']
}

/// The shares of all tallies in `total`, added up.
pub open spec fn sum_shares(tallies: Seq<Tally>, total: nat) -> nat
    decreases tallies.len(),
{
    if tallies.len() == 0 {
        0
    } else {
        sum_shares(tallies.drop_last(), total) + share_hundredths(
            tallies.last().lines_added + tallies.last().lines_deleted,
            total,
        )
    }
}

/// A share is off the exact quotient by half a hundredth at most.
pub proof fn share_is_nearest(part: nat, total: nat)
    requires
        total > 0,
    ensures
        -(total as int) <= 2 * (share_hundredths(part, total) * total - part * WHOLE) <= total,
{
    let n = part * (WHOLE as nat);
    let q = n / total;
    let r = n % total;
    assert(n == q * total + r && 0 <= r < total) by (nonlinear_arith)
        requires
            q == n / total,
            r == n % total,
            total > 0,
    ;
    assert((q + 1) * total == q * total + total) by (nonlinear_arith);
}

/// When nothing was contributed at all, every share reads "0.00%".
pub proof fn share_of_nothing(part: nat)
    ensures
        percent_text(share_hundredths(part, 0)) == "0.00%"@,
{
    reveal_strlit("0.00%");
}

/// The shares of all authors add up to a whole, within half a hundredth
/// for each author.
pub proof fn shares_add_up(tallies: Seq<Tally>)
    requires
        sum_contributions(tallies) > 0,
    ensures
        -(tallies.len() as int) <= 2 * (sum_shares(tallies, sum_contributions(tallies)) - WHOLE)
            <= tallies.len(),
{
    let total = sum_contributions(tallies);
    shares_stay_close(tallies, total);
    let s = sum_shares(tallies, total) as int;
    let n = tallies.len() as int;
    let t = total as int;
    assert(-n <= 2 * (s - 10000) <= n) by (nonlinear_arith)
        requires
            t > 0,
            -(n * t) <= 2 * (s * t - t * 10000) <= n * t,
    ;
}

proof fn shares_stay_close(tallies: Seq<Tally>, total: nat)
    requires
        total > 0,
    ensures
        -(tallies.len() * total) <= 2 * (sum_shares(tallies, total) * total - sum_contributions(
            tallies,
        ) * WHOLE) <= tallies.len() * total,
    decreases tallies.len(),
{
    if tallies.len() > 0 {
        let rest = tallies.drop_last();
        let part = tallies.last().lines_added + tallies.last().lines_deleted;
        let h = share_hundredths(part, total) as int;
        shares_stay_close(rest, total);
        share_is_nearest(part, total);
        let s = sum_shares(rest, total) as int;
        let n = rest.len() as int;
        let t = total as int;
        assert((s + h) * t == s * t + h * t) by (nonlinear_arith);
        assert((n + 1) * t == n * t + t) by (nonlinear_arith);
    } else {
        assert(tallies.len() * total == 0) by (nonlinear_arith)
            requires
                tallies.len() == 0,
        ;
    }
}

/// The largest part that `rounded_share` takes: twice the largest count.
const WIDEST_PART: u128 = 0x2_0000_0000_0000_0000;

fn rounded_share(part: u128, total: u128) -> (hundredths: u128)
    requires
        part <= WIDEST_PART,
    ensures
        hundredths == share_hundredths(part as nat, total as nat),
{
    if total == 0 {
        return 0;
    }
    let n: u128 = part * WHOLE;
    let q: u128 = n / total;
    let r: u128 = n % total;
    assert(q <= n) by (nonlinear_arith)
        requires
            q == n / total,
            total > 0,
    ;
    if r < total - r || (r == total - r && q % 2 == 0) {
        q
    } else {
        q + 1
    }
}

/// The share of `part` in `total`, in hundredths of a percent.
pub fn share_of(part: usize, total: usize) -> (hundredths: u128)
    ensures
        hundredths == share_hundredths(part as nat, total as nat),
{
    rounded_share(part as u128, total as u128)
}

/// The share of an author's lines, added and deleted, in `total`.
pub fn contribution_share(stats: &AuthorStats, total: usize) -> (hundredths: u128)
    ensures
        hundredths == share_hundredths(stats.contribution(), total as nat),
{
    rounded_share(stats.lines_added as u128 + stats.lines_deleted as u128, total as u128)
}

/// Appends the text of a share to `out`.
pub fn push_percent(out: &mut String, hundredths: u128)
    ensures
        final(out)@ == old(out)@ + percent_text(hundredths as nat),
{
    proof {
        reveal_strlit(".");
        reveal_strlit("%");
    }
    push_decimal(out, hundredths / 100);
    out.append(".");
    out.append(digit_text((hundredths / 10 % 10) as u8));
    out.append(digit_text((hundredths % 10) as u8));
    out.append("%");
}

/// The text of the share of `part` in `total`.
pub fn percentage(part: usize, total: usize) -> (text: String)
    ensures
        text@ == percent_text(share_hundredths(part as nat, total as nat)),
{
    let mut text = String::new();
    push_percent(&mut text, share_of(part, total));
    text
}

/// The text of the share of an author's lines in `total`.
pub fn contribution_percentage(stats: &AuthorStats, total: usize) -> (text: String)
    ensures
        text@ == percent_text(share_hundredths(stats.contribution(), total as nat)),
{
    let mut text = String::new();
    push_percent(&mut text, contribution_share(stats, total));
    text
}

} // verus!
