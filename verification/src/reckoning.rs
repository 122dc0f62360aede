//! What the parts into which an amount is divided have to satisfy.

use crate::relations::{part_to_the_nearest, share_rounded_down};
use crate::splits::{
    bps_split_refusal, client_first, freelancer_first, lemma_refund_conserves,
    lemma_split_conserves, refund_by_bps, refund_refusal, split_at, split_refusal,
};
use crate::types::Error;
use vstd::arithmetic::div_mod::lemma_fundamental_div_mod;
use vstd::prelude::*;

verus! {

/// A quotient is the largest integer that times the divisor stays within the
/// dividend.
pub proof fn lemma_floor(dividend: int, divisor: int)
    requires
        divisor > 0,
    ensures
        dividend / divisor * divisor <= dividend < (dividend / divisor + 1) * divisor,
{
    let q = dividend / divisor;
    lemma_fundamental_div_mod(dividend, divisor);
    assert(q * divisor <= dividend < (q + 1) * divisor) by (nonlinear_arith)
        requires
            dividend == divisor * q + dividend % divisor,
            0 <= dividend % divisor < divisor,
    ;
}

/// The first part of a division is the exact share to the nearest unit, a half
/// rounded up; the second part is the rest.
pub proof fn lemma_split_is_to_the_nearest(total: int, numerator: int, denominator: int)
    requires
        total <= i128::MAX,
        split_refusal(total, numerator, denominator) is None,
    ensures
        part_to_the_nearest(
            split_at(total, numerator, denominator).first as int,
            total,
            numerator,
            denominator,
        ),
        split_at(total, numerator, denominator).second == total - split_at(
            total,
            numerator,
            denominator,
        ).first,
{
    lemma_split_conserves(total, numerator, denominator);
    let first = split_at(total, numerator, denominator).first as int;
    let half = denominator / 2;
    let scaled = total * numerator + half;
    lemma_floor(scaled, denominator);
    let exact = total * numerator;
    assert(2 * total * numerator == 2 * exact) by (nonlinear_arith)
        requires
            exact == total * numerator,
    ;
    let whole = first * denominator;
    assert((first + 1) * denominator == whole + denominator) by (nonlinear_arith)
        requires
            whole == first * denominator,
    ;
    assert(2 * first * denominator == 2 * whole) by (nonlinear_arith)
        requires
            whole == first * denominator,
    ;
}

/// An amount can be divided where it is not negative, the share is from nothing to
/// everything, and the product that is rounded is in range.
pub proof fn lemma_split_refusals(total: int, numerator: int, denominator: int)
    ensures
        match split_refusal(total, numerator, denominator) {
            None => {
                &&& total >= 0
                &&& 0 <= numerator <= denominator
                &&& denominator > 0
                &&& total * numerator + denominator / 2 <= i128::MAX
            },
            Some(Error::InvalidRatio) => total < 0 || numerator < 0 || denominator <= 0 || numerator
                > denominator,
            Some(Error::InvalidAmount) => total * numerator + denominator / 2 > i128::MAX,
            _ => false,
        },
{
}

/// A division by basis points is a division by ten thousandths.
pub proof fn lemma_bps_split_refusals(total: int, first_bps: u32, second_bps: u32)
    ensures
        match bps_split_refusal(total, first_bps, second_bps) {
            None => {
                &&& total >= 0
                &&& first_bps + second_bps == 10_000
                &&& total * first_bps + 5_000 <= i128::MAX
            },
            Some(Error::InvalidRatio) => total < 0 || first_bps + second_bps != 10_000,
            Some(Error::InvalidAmount) => total * first_bps + 5_000 > i128::MAX,
            _ => false,
        },
{
}

/// Where the client's share is given first it is exact to the nearest unit, and the
/// freelancer's is the rest.
pub proof fn lemma_client_first(total: int, client_bps: u32, freelancer_bps: u32)
    requires
        total <= i128::MAX,
        bps_split_refusal(total, client_bps, freelancer_bps) is None,
    ensures
        ({
            let parts = client_first(total, client_bps, freelancer_bps);
            &&& part_to_the_nearest(parts.client_refund as int, total, client_bps as int, 10_000)
            &&& parts.client_refund + parts.freelancer_payout == total
            &&& parts.client_refund_bps == client_bps
            &&& parts.freelancer_payout_bps == freelancer_bps
        }),
{
    lemma_split_is_to_the_nearest(total, client_bps as int, 10_000);
}

/// Where the freelancer's share is given it is exact to the nearest unit, and the
/// client's is the rest.
pub proof fn lemma_freelancer_first(total: int, freelancer_bps: u32)
    requires
        total <= i128::MAX,
        split_refusal(total, freelancer_bps as int, 10_000) is None,
    ensures
        ({
            let parts = freelancer_first(total, freelancer_bps);
            &&& part_to_the_nearest(
                parts.freelancer_payout as int,
                total,
                freelancer_bps as int,
                10_000,
            )
            &&& parts.client_refund + parts.freelancer_payout == total
            &&& parts.freelancer_payout_bps == freelancer_bps
            &&& parts.client_refund_bps + parts.freelancer_payout_bps == 10_000
        }),
{
    lemma_split_is_to_the_nearest(total, freelancer_bps as int, 10_000);
}

/// A disputed amount can be divided where it is not negative, the share is at most
/// everything, and the product that is rounded is in range.
pub proof fn lemma_refund_refusals(total: int, client_bps: u32)
    ensures
        match refund_refusal(total, client_bps) {
            None => {
                &&& total >= 0
                &&& client_bps <= 10_000
                &&& total * client_bps <= i128::MAX
            },
            Some(Error::InvalidRatio) => client_bps > 10_000,
            Some(Error::InvalidAmount) => total < 0 || total * client_bps > i128::MAX,
            _ => false,
        },
{
}

/// The client's part of a disputed amount is the largest within their share, and the
/// freelancer's is the rest.
pub proof fn lemma_refund_is_the_share(total: int, client_bps: u32)
    requires
        total <= i128::MAX,
        refund_refusal(total, client_bps) is None,
    ensures
        ({
            let parts = refund_by_bps(total, client_bps);
            &&& parts.client_refund * 10_000 <= total * client_bps < (parts.client_refund + 1)
                * 10_000
            &&& parts.client_refund + parts.freelancer_payout == total
            &&& parts.client_refund_bps == client_bps
            &&& parts.client_refund_bps + parts.freelancer_payout_bps == 10_000
            &&& share_rounded_down(parts.client_refund as int, total, client_bps as int)
        }),
{
    lemma_refund_conserves(total, client_bps);
    lemma_floor(total * client_bps, 10_000);
}

/// A larger share of the same disputed amount never gives the client less, and one
/// that is larger by a basis point gives them the same share of the amount more, to a
/// unit.
pub proof fn lemma_refund_grows_with_the_share(total: int, less: u32, more: u32)
    requires
        total <= i128::MAX,
        less <= more,
        refund_refusal(total, more) is None,
        refund_refusal(total, less) is None,
    ensures
        ({
            let gain = refund_by_bps(total, more).client_refund - refund_by_bps(
                total,
                less,
            ).client_refund;
            &&& gain >= 0
            &&& (gain - 1) * 10_000 < total * (more - less) < (gain + 1) * 10_000
        }),
{
    lemma_refund_is_the_share(total, less);
    lemma_refund_is_the_share(total, more);
    assert(total * (more - less) == total * more - total * less) by (nonlinear_arith);
    assert(total * (more - less) >= 0) by (nonlinear_arith)
        requires
            total >= 0,
            less <= more,
    ;
}

} // verus!
