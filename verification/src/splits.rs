//! Dividing an amount in two.

use crate::ledger::Env;
use crate::types::{Error, MilestoneEscrow, RatioSplit, RefundAllocation, BPS_SCALE};
use vstd::arithmetic::div_mod::lemma_fundamental_div_mod;
use vstd::prelude::*;

verus! {

/// `total * numerator / denominator`, rounded to the nearest unit; a half is
/// rounded up.
pub open spec fn nearest(total: int, numerator: int, denominator: int) -> int {
    (total * numerator + denominator / 2) / denominator
}

/// Why an amount cannot be divided at `numerator / denominator`.
pub open spec fn split_refusal(total: int, numerator: int, denominator: int) -> Option<Error> {
    if total < 0 || denominator <= 0 || numerator < 0 || numerator > denominator {
        Some(Error::InvalidRatio)
    } else if total * numerator + denominator / 2 > i128::MAX {
        Some(Error::InvalidAmount)
    } else {
        None
    }
}

/// `total` divided at `numerator / denominator`.
pub open spec fn split_at(total: int, numerator: int, denominator: int) -> RatioSplit {
    RatioSplit {
        first: nearest(total, numerator, denominator) as i128,
        second: (total - nearest(total, numerator, denominator)) as i128,
    }
}

/// The first part of a division is within the total.
proof fn lemma_nearest_within(total: int, numerator: int, denominator: int)
    requires
        0 <= total,
        0 <= numerator <= denominator,
        0 < denominator,
    ensures
        0 <= nearest(total, numerator, denominator) <= total,
        0 <= total * numerator,
{
    let half = denominator / 2;
    let scaled = total * numerator + half;
    let first = nearest(total, numerator, denominator);
    assert(0 <= total * numerator <= total * denominator) by (nonlinear_arith)
        requires
            0 <= total,
            0 <= numerator <= denominator,
    ;
    lemma_fundamental_div_mod(scaled, denominator);
    assert(0 <= first <= total) by (nonlinear_arith)
        requires
            scaled == denominator * first + scaled % denominator,
            0 <= scaled % denominator < denominator,
            0 <= scaled <= total * denominator + half,
            0 <= half < denominator,
    ;
}

/// Both parts of a division are not negative, and together they are the whole.
pub proof fn lemma_split_conserves(total: int, numerator: int, denominator: int)
    requires
        total <= i128::MAX,
        split_refusal(total, numerator, denominator) is None,
    ensures
        split_at(total, numerator, denominator).first >= 0,
        split_at(total, numerator, denominator).second >= 0,
        split_at(total, numerator, denominator).first + split_at(
            total,
            numerator,
            denominator,
        ).second == total,
{
    lemma_nearest_within(total, numerator, denominator);
}

/// The first part of a division is at most half a unit away from the exact
/// share `total * numerator / denominator`.
pub proof fn lemma_split_rounds_to_nearest(total: int, numerator: int, denominator: int)
    requires
        denominator > 0,
    ensures
        total * numerator * 2 - denominator <= nearest(total, numerator, denominator) * denominator
            * 2 <= total * numerator * 2 + denominator,
{
    let scaled = total * numerator + denominator / 2;
    let first = nearest(total, numerator, denominator);
    lemma_fundamental_div_mod(scaled, denominator);
    assert(denominator * first == first * denominator) by (nonlinear_arith);
}

/// A larger numerator never yields a smaller first part: consecutive divisions
/// share their boundaries.
pub proof fn lemma_split_is_monotonic(total: int, less: int, more: int, denominator: int)
    requires
        total >= 0,
        denominator > 0,
        less <= more,
    ensures
        nearest(total, less, denominator) <= nearest(total, more, denominator),
{
    let a = total * less + denominator / 2;
    let b = total * more + denominator / 2;
    assert(a <= b) by (nonlinear_arith)
        requires
            total >= 0,
            less <= more,
            a == total * less + denominator / 2,
            b == total * more + denominator / 2,
    ;
    lemma_fundamental_div_mod(a, denominator);
    lemma_fundamental_div_mod(b, denominator);
    let p = a / denominator;
    let q = b / denominator;
    assert(p <= q) by (nonlinear_arith)
        requires
            a == denominator * p + a % denominator,
            b == denominator * q + b % denominator,
            0 <= a % denominator < denominator,
            0 <= b % denominator < denominator,
            a <= b,
            denominator > 0,
    ;
}

/// At the two ends one part is everything and the other nothing.
pub proof fn lemma_split_ends(total: int, denominator: int)
    requires
        total >= 0,
        denominator > 0,
    ensures
        nearest(total, 0, denominator) == 0,
        nearest(total, denominator, denominator) == total,
{
    let half = denominator / 2;
    assert(total * 0 == 0) by (nonlinear_arith);
    lemma_fundamental_div_mod(half, denominator);
    let p = half / denominator;
    assert(p == 0) by (nonlinear_arith)
        requires
            half == denominator * p + half % denominator,
            0 <= half % denominator < denominator,
            0 <= half < denominator,
    ;
    let b = total * denominator + half;
    lemma_fundamental_div_mod(b, denominator);
    let q = b / denominator;
    assert(q == total) by (nonlinear_arith)
        requires
            b == denominator * q + b % denominator,
            b == total * denominator + half,
            0 <= b % denominator < denominator,
            0 <= half < denominator,
    ;
}

/// Why an amount cannot be divided by two shares in basis points.
pub open spec fn bps_split_refusal(total: int, first_bps: u32, second_bps: u32) -> Option<Error> {
    if first_bps + second_bps != BPS_SCALE {
        Some(Error::InvalidRatio)
    } else {
        split_refusal(total, first_bps as int, BPS_SCALE as int)
    }
}

/// `total` divided so that the client receives `client_bps`, rounded to the
/// nearest unit, and the freelancer the rest.
pub open spec fn client_first(
    total: int,
    client_bps: u32,
    freelancer_bps: u32,
) -> RefundAllocation {
    let split = split_at(total, client_bps as int, BPS_SCALE as int);
    RefundAllocation {
        client_refund: split.first,
        freelancer_payout: split.second,
        client_refund_bps: client_bps,
        freelancer_payout_bps: freelancer_bps,
    }
}

/// `total` divided so that the freelancer receives `freelancer_bps`, rounded to
/// the nearest unit, and the client the rest.
pub open spec fn freelancer_first(total: int, freelancer_bps: u32) -> RefundAllocation {
    let split = split_at(total, freelancer_bps as int, BPS_SCALE as int);
    RefundAllocation {
        client_refund: split.second,
        freelancer_payout: split.first,
        client_refund_bps: (BPS_SCALE - freelancer_bps) as u32,
        freelancer_payout_bps: freelancer_bps,
    }
}

/// Why a disputed amount cannot be divided by the client's share.
pub open spec fn refund_refusal(total: int, client_bps: u32) -> Option<Error> {
    if total < 0 {
        Some(Error::InvalidAmount)
    } else if client_bps > BPS_SCALE {
        Some(Error::InvalidRatio)
    } else if total * client_bps > i128::MAX {
        Some(Error::InvalidAmount)
    } else {
        None
    }
}

/// A disputed amount divided so that the client receives `client_bps`, rounded
/// down, and the freelancer the rest.
pub open spec fn refund_by_bps(total: int, client_bps: u32) -> RefundAllocation {
    let client_refund = total * client_bps / (BPS_SCALE as int);
    RefundAllocation {
        client_refund: client_refund as i128,
        freelancer_payout: (total - client_refund) as i128,
        client_refund_bps: client_bps,
        freelancer_payout_bps: (BPS_SCALE - client_bps) as u32,
    }
}

/// The client's part of a disputed amount is within that amount.
pub proof fn lemma_refund_conserves(total: int, client_bps: u32)
    requires
        total <= i128::MAX,
        refund_refusal(total, client_bps) is None,
    ensures
        refund_by_bps(total, client_bps).client_refund >= 0,
        refund_by_bps(total, client_bps).freelancer_payout >= 0,
        refund_by_bps(total, client_bps).client_refund + refund_by_bps(
            total,
            client_bps,
        ).freelancer_payout == total,
        refund_by_bps(total, client_bps).client_refund_bps + refund_by_bps(
            total,
            client_bps,
        ).freelancer_payout_bps == BPS_SCALE,
{
    assert(0 <= total * client_bps <= total * BPS_SCALE) by (nonlinear_arith)
        requires
            0 <= total,
            0 <= client_bps <= BPS_SCALE,
    ;
}

/// The shares of two parties always make the whole, in units and in basis
/// points, whichever of the two is rounded.
pub proof fn lemma_bps_splits_conserve(total: int, client_bps: u32, freelancer_bps: u32)
    requires
        total <= i128::MAX,
        bps_split_refusal(total, client_bps, freelancer_bps) is None,
    ensures
        client_first(total, client_bps, freelancer_bps).client_refund + client_first(
            total,
            client_bps,
            freelancer_bps,
        ).freelancer_payout == total,
        split_refusal(total, freelancer_bps as int, BPS_SCALE as int) is None ==> freelancer_first(
            total,
            freelancer_bps,
        ).client_refund + freelancer_first(total, freelancer_bps).freelancer_payout == total,
        freelancer_first(total, freelancer_bps).client_refund_bps == client_bps,
{
    lemma_split_conserves(total, client_bps as int, BPS_SCALE as int);
    if split_refusal(total, freelancer_bps as int, BPS_SCALE as int) is None {
        lemma_split_conserves(total, freelancer_bps as int, BPS_SCALE as int);
    }
}

impl MilestoneEscrow {
    /// Divides `total` at `numerator / denominator`.
    pub fn split_round_nearest(
        total: i128,
        numerator: i128,
        denominator: i128,
    ) -> (r: Result<RatioSplit, Error>)
        ensures
            r == match split_refusal(total as int, numerator as int, denominator as int) {
                Some(error) => Err(error),
                None => Ok(split_at(total as int, numerator as int, denominator as int)),
            },
    {
        if total < 0 || numerator < 0 || denominator <= 0 || numerator > denominator {
            return Err(Error::InvalidRatio);
        }
        proof {
            lemma_nearest_within(total as int, numerator as int, denominator as int);
        }
        let scaled: i128 = match total.checked_mul(numerator) {
            Some(scaled) => scaled,
            None => {
                return Err(Error::InvalidAmount);
            },
        };
        let half: i128 = denominator / 2;
        let raised: i128 = match scaled.checked_add(half) {
            Some(raised) => raised,
            None => {
                return Err(Error::InvalidAmount);
            },
        };
        let rounded: i128 = raised / denominator;
        Ok(RatioSplit { first: rounded, second: total - rounded })
    }

    /// Divides a disputed amount: the client's share is rounded down, and the
    /// freelancer receives the rest.
    pub fn allocate_refund_by_bps(
        total_amount: i128,
        client_refund_bps: u32,
    ) -> (r: Result<RefundAllocation, Error>)
        ensures
            r == match refund_refusal(total_amount as int, client_refund_bps) {
                Some(error) => Err(error),
                None => Ok(refund_by_bps(total_amount as int, client_refund_bps)),
            },
    {
        if total_amount < 0 {
            return Err(Error::InvalidAmount);
        }
        if client_refund_bps > BPS_SCALE {
            return Err(Error::InvalidRatio);
        }
        proof {
            assert(0 <= total_amount * client_refund_bps <= total_amount * BPS_SCALE)
                by (nonlinear_arith)
                requires
                    0 <= total_amount,
                    0 <= client_refund_bps <= BPS_SCALE,
            ;
        }
        let weighted: i128 = match total_amount.checked_mul(client_refund_bps as i128) {
            Some(weighted) => weighted,
            None => {
                return Err(Error::InvalidAmount);
            },
        };
        let client_refund: i128 = weighted / (BPS_SCALE as i128);
        Ok(
            RefundAllocation {
                client_refund,
                freelancer_payout: total_amount - client_refund,
                client_refund_bps,
                freelancer_payout_bps: BPS_SCALE - client_refund_bps,
            },
        )
    }

    /// Divides `total_amount` by two shares in basis points; the client's is
    /// rounded to the nearest unit.
    pub(crate) fn split_client_first(
        total_amount: i128,
        client_refund_bps: u32,
        freelancer_payout_bps: u32,
    ) -> (r: Result<RefundAllocation, Error>)
        ensures
            r == match bps_split_refusal(
                total_amount as int,
                client_refund_bps,
                freelancer_payout_bps,
            ) {
                Some(error) => Err(error),
                None => Ok(
                    client_first(total_amount as int, client_refund_bps, freelancer_payout_bps),
                ),
            },
    {
        match client_refund_bps.checked_add(freelancer_payout_bps) {
            Some(total_bps) => {
                if total_bps != BPS_SCALE {
                    return Err(Error::InvalidRatio);
                }
            },
            None => {
                return Err(Error::InvalidRatio);
            },
        }
        match Self::split_round_nearest(
            total_amount,
            client_refund_bps as i128,
            BPS_SCALE as i128,
        ) {
            Ok(split) => Ok(
                RefundAllocation {
                    client_refund: split.first,
                    freelancer_payout: split.second,
                    client_refund_bps,
                    freelancer_payout_bps,
                },
            ),
            Err(error) => Err(error),
        }
    }

    /// What an arbiter's award of `freelancer_bps` comes to. The freelancer's
    /// share is rounded to the nearest unit, and the client receives the rest.
    pub fn dispute_arbitration_split(
        _env: &Env,
        total_amount: i128,
        freelancer_bps: u32,
    ) -> (r: Result<RefundAllocation, Error>)
        ensures
            r == if total_amount < 0 {
                Err::<RefundAllocation, Error>(Error::InvalidAmount)
            } else {
                match split_refusal(total_amount as int, freelancer_bps as int, BPS_SCALE as int) {
                    Some(error) => Err(error),
                    None => Ok(freelancer_first(total_amount as int, freelancer_bps)),
                }
            },
    {
        if total_amount < 0 {
            return Err(Error::InvalidAmount);
        }
        if freelancer_bps > BPS_SCALE {
            return Err(Error::InvalidRatio);
        }
        match Self::split_round_nearest(total_amount, freelancer_bps as i128, BPS_SCALE as i128) {
            Ok(split) => Ok(
                RefundAllocation {
                    client_refund: split.second,
                    freelancer_payout: split.first,
                    client_refund_bps: BPS_SCALE - freelancer_bps,
                    freelancer_payout_bps: freelancer_bps,
                },
            ),
            Err(error) => Err(error),
        }
    }

    /// What a cancellation by two shares in basis points comes to. The client's
    /// share is rounded to the nearest unit, and the freelancer receives the
    /// rest.
    pub fn cancel_escrow_split_refund(
        _env: &Env,
        total_amount: i128,
        client_refund_bps: u32,
        freelancer_payout_bps: u32,
    ) -> (r: Result<RefundAllocation, Error>)
        ensures
            r == if total_amount < 0 {
                Err::<RefundAllocation, Error>(Error::InvalidAmount)
            } else {
                match bps_split_refusal(
                    total_amount as int,
                    client_refund_bps,
                    freelancer_payout_bps,
                ) {
                    Some(error) => Err(error),
                    None => Ok(
                        client_first(total_amount as int, client_refund_bps, freelancer_payout_bps),
                    ),
                }
            },
    {
        if total_amount < 0 {
            return Err(Error::InvalidAmount);
        }
        Self::split_client_first(total_amount, client_refund_bps, freelancer_payout_bps)
    }
}

} // verus!
