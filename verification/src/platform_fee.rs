//! The shares of the platform fee, and dividing an amount by them.

use crate::address::Address;
use crate::allocation::{
    allocation, floor_shares, lemma_allocation_conserves, lemma_allocation_error_is_bounded,
    lemma_residue_bound, lost_shares, sum, sum_to, weights_valid, lemma_serve_next, lemma_served,
    lemma_somebody_left, lemma_start, lemma_unserved, lemma_up_to_three, rank, rank_among,
    served_before, served_first,
};
use crate::guards::{admin_refusal, after, outcome};
use crate::ledger::{raised, Env, Instance, Ledger};
use crate::types::{
    Error, MilestoneEscrow, PlatformFeeAllocation, PlatformFeeDistribution, BPS_SCALE,
};
use vstd::prelude::*;

verus! {

/// The three shares make the whole.
pub open spec fn fee_shares_valid(client_bps: u32, freelancer_bps: u32, treasury_bps: u32) -> bool {
    client_bps + freelancer_bps + treasury_bps == BPS_SCALE
}

/// The three shares of an allocation, in the order of its fields.
pub open spec fn fee_shares(shares: PlatformFeeAllocation) -> Seq<int> {
    seq![shares.client_bps as int, shares.freelancer_bps as int, shares.treasury_bps as int]
}

/// Each part of `total`, rounded down.
pub open spec fn fee_floors(total: int, shares: PlatformFeeAllocation) -> Seq<int> {
    Seq::new(3, |i: int| total * fee_shares(shares)[i] / (BPS_SCALE as int))
}

/// What rounding took from each part, in ten-thousandths of a unit.
pub open spec fn fee_lost(total: int, shares: PlatformFeeAllocation) -> Seq<int> {
    Seq::new(3, |i: int| total * fee_shares(shares)[i] % (BPS_SCALE as int))
}

/// The sum of three numbers.
pub open spec fn sum3(s: Seq<int>) -> int {
    s[0] + s[1] + s[2]
}

/// The units that are left when each part is rounded down. There are none, or
/// fewer than none, where the shares make more than the whole.
pub open spec fn fee_left(total: int, shares: PlatformFeeAllocation) -> int {
    total - sum3(fee_floors(total, shares))
}

/// How many of `left` units part `i` receives: the first three go to the three
/// parts in the order of what rounding took from them, all others to the first
/// part.
pub open spec fn units_for(lost: Seq<int>, left: int, i: int) -> int {
    (if rank(lost, i) < left {
        1int
    } else {
        0int
    }) + (if i == 0 && left > 3 {
        left - 3
    } else {
        0int
    })
}

/// The three parts of `total`.
pub open spec fn fee_parts(total: int, shares: PlatformFeeAllocation) -> Seq<int> {
    Seq::new(
        3,
        |i: int|
            fee_floors(total, shares)[i] + units_for(
                fee_lost(total, shares),
                fee_left(total, shares),
                i,
            ),
    )
}

/// Why an amount cannot be divided by the shares.
pub open spec fn fee_refusal(total: int, shares: PlatformFeeAllocation) -> Option<Error> {
    if total < 0 || (exists|i: int|
        0 <= i < 3 && total * #[trigger] fee_shares(shares)[i] > i128::MAX) || sum3(
        fee_floors(total, shares),
    ) > i128::MAX {
        Some(Error::InvalidAmount)
    } else {
        None
    }
}

/// An amount divided by the shares.
pub open spec fn fee_distribution(
    total: int,
    shares: PlatformFeeAllocation,
) -> PlatformFeeDistribution {
    let parts = fee_parts(total, shares);
    PlatformFeeDistribution {
        client_amount: parts[0] as i128,
        freelancer_amount: parts[1] as i128,
        treasury_amount: parts[2] as i128,
    }
}

proof fn lemma_product_not_negative(total: int, share: int)
    requires
        total >= 0,
        share >= 0,
    ensures
        total * share >= 0,
{
    assert(total * share >= 0) by (nonlinear_arith)
        requires
            total >= 0,
            share >= 0,
    ;
}

/// Which of three remainders is the first of the largest.
fn largest_of_three(remainders: &[i128; 3]) -> (best: usize)
    ensures
        best < 3,
        forall|i: int| 0 <= i < 3 ==> remainders@[i] <= remainders@[best as int],
        forall|i: int| 0 <= i < best ==> remainders@[i] < remainders@[best as int],
{
    let mut best: usize = 0;
    if remainders[1] > remainders[best] {
        best = 1;
    }
    if remainders[2] > remainders[best] {
        best = 2;
    }
    best
}

impl MilestoneEscrow {
    /// The three shares make the whole.
    pub fn validate_fee_allocation(
        client_bps: u32,
        freelancer_bps: u32,
        treasury_bps: u32,
    ) -> (r: Result<(), Error>)
        ensures
            r == if fee_shares_valid(client_bps, freelancer_bps, treasury_bps) {
                Ok::<(), Error>(())
            } else {
                Err(Error::InvalidRatio)
            },
    {
        let both: u32 = match client_bps.checked_add(freelancer_bps) {
            Some(both) => both,
            None => {
                return Err(Error::InvalidRatio);
            },
        };
        match both.checked_add(treasury_bps) {
            Some(total) => {
                if total != BPS_SCALE {
                    return Err(Error::InvalidRatio);
                }
                Ok(())
            },
            None => Err(Error::InvalidRatio),
        }
    }

    /// Divides `total_amount` by the shares of `allocation`.
    pub fn allocate_platform_fee(
        total_amount: i128,
        allocation: &PlatformFeeAllocation,
    ) -> (r: Result<PlatformFeeDistribution, Error>)
        ensures
            r == outcome(
                fee_refusal(total_amount as int, *allocation),
                fee_distribution(total_amount as int, *allocation),
            ),
    {
        if total_amount < 0 {
            return Err(Error::InvalidAmount);
        }
        let ghost total = total_amount as int;
        let ghost shares = fee_shares(*allocation);
        let ghost floors = fee_floors(total, *allocation);
        let ghost lost = fee_lost(total, *allocation);
        let scale: i128 = BPS_SCALE as i128;
        let ratios: [i128; 3] = [
            allocation.client_bps as i128,
            allocation.freelancer_bps as i128,
            allocation.treasury_bps as i128,
        ];
        let mut amounts: [i128; 3] = [0, 0, 0];
        let mut remainders: [i128; 3] = [0, 0, 0];
        let mut allocated: i128 = 0;
        let mut index: usize = 0;
        while index < 3
            invariant
                index <= 3,
                total == total_amount >= 0,
                shares == fee_shares(*allocation),
                floors == fee_floors(total, *allocation),
                lost == fee_lost(total, *allocation),
                scale == BPS_SCALE,
                forall|i: int| 0 <= i < 3 ==> #[trigger] ratios@[i] == shares[i] && shares[i] >= 0,
                forall|i: int| 0 <= i < index ==> #[trigger] amounts@[i] == floors[i],
                forall|i: int| 0 <= i < index ==> #[trigger] remainders@[i] == lost[i],
                forall|i: int| 0 <= i < index ==> total * #[trigger] shares[i] <= i128::MAX,
                allocated == (if index > 0 { floors[0] } else { 0 }) + (if index > 1 {
                    floors[1]
                } else {
                    0
                }) + (if index > 2 { floors[2] } else { 0 }),
                allocated >= 0,
                index > 0 ==> floors[0] >= 0,
                index > 1 ==> floors[1] >= 0,
                index > 2 ==> floors[2] >= 0,
            decreases 3 - index,
        {
            let ratio: i128 = ratios[index];
            assert(ratio == shares[index as int]);
            proof {
                lemma_product_not_negative(total, shares[0]);
                lemma_product_not_negative(total, shares[1]);
                lemma_product_not_negative(total, shares[2]);
            }
            let weighted: i128 = match total_amount.checked_mul(ratio) {
                Some(weighted) => weighted,
                None => {
                    return Err(Error::InvalidAmount);
                },
            };
            amounts[index] = weighted / scale;
            remainders[index] = weighted % scale;
            allocated = match allocated.checked_add(weighted / scale) {
                Some(more) => more,
                None => {
                    return Err(Error::InvalidAmount);
                },
            };
            index = index + 1;
        }
        let mut remaining: i128 = total_amount - allocated;
        let ghost left = remaining as int;
        let ghost mut taken = seq![false, false, false];
        let ghost mut given: nat = 0;
        proof {
            lemma_start(lost, taken);
            assert(left == fee_left(total, *allocation));
        }
        while remaining > 0
            invariant
                total == total_amount >= 0,
                lost.len() == 3,
                floors.len() == 3,
                forall|i: int| 0 <= i < 3 ==> 0 <= #[trigger] floors[i],
                forall|i: int| 0 <= i < 3 ==> 0 <= #[trigger] lost[i],
                left == total - sum3(floors),
                left <= 0 ==> remaining == left && given == 0,
                left > 0 ==> remaining >= 0 && given == left - remaining,
                served_first(lost, taken, if given < 3 { given } else { 3 }),
                forall|i: int|
                    0 <= i < 3 ==> #[trigger] amounts@[i] == floors[i] + (if taken[i] {
                        1int
                    } else {
                        0int
                    }) + (if i == 0 && given > 3 { given - 3 } else { 0int }),
                forall|i: int|
                    0 <= i < 3 ==> #[trigger] remainders@[i] == if taken[i] {
                        -1int
                    } else {
                        lost[i]
                    },
            decreases remaining,
        {
            let best: usize = largest_of_three(&remainders);
            proof {
                let served: nat = if given < 3 { given } else { 3 };
                lemma_somebody_left(lost, taken, served);
                if given < 3 {
                    let free = choose|i: int| 0 <= i < taken.len() && !(#[trigger] taken[i]);
                    assert(remainders@[free] <= remainders@[best as int]);
                    assert forall|i: int|
                        0 <= i < taken.len() && !(#[trigger] taken[i]) && i != best implies
                        served_before(lost, best as int, i) by {
                        assert(remainders@[i] <= remainders@[best as int]);
                    }
                    lemma_serve_next(lost, taken, served, best as int);
                } else {
                    assert(taken[0] && taken[1] && taken[2]);
                    assert(remainders@[0] == -1 && remainders@[1] == -1 && remainders@[2] == -1);
                    assert(best == 0);
                    assert(taken.update(0, true) =~= taken);
                }
                assert(amounts@[0] + amounts@[1] + amounts@[2] <= total - remaining) by {
                    lemma_up_to_three(taken, served);
                }
            }
            amounts[best] = amounts[best] + 1;
            remainders[best] = -1;
            proof {
                taken = taken.update(best as int, true);
                given = given + 1;
            }
            remaining = remaining - 1;
        }
        proof {
            let served: nat = if given < 3 { given } else { 3 };
            lemma_somebody_left(lost, taken, served);
            assert forall|i: int| 0 <= i < 3 implies amounts@[i] == fee_parts(
                total,
                *allocation,
            )[i] by {
                assert(amounts@[i] == amounts@[i]);
                if taken[i] {
                    lemma_served(lost, taken, served, i);
                } else {
                    lemma_unserved(lost, taken, served, i);
                }
            }
        }
        Ok(
            PlatformFeeDistribution {
                client_amount: amounts[0],
                freelancer_amount: amounts[1],
                treasury_amount: amounts[2],
            },
        )
    }
}

/// Where the shares make the whole, an amount is divided as among any weighted
/// parties.
proof fn lemma_fee_is_an_allocation(total: int, shares: PlatformFeeAllocation)
    requires
        total >= 0,
        fee_shares_valid(shares.client_bps, shares.freelancer_bps, shares.treasury_bps),
    ensures
        weights_valid(fee_shares(shares)),
        fee_parts(total, shares) == allocation(total, fee_shares(shares)),
{
    let weights = fee_shares(shares);
    reveal_with_fuel(sum_to, 4);
    assert(sum(weights) == BPS_SCALE);
    assert(fee_floors(total, shares) =~= floor_shares(total, weights));
    assert(fee_lost(total, shares) =~= lost_shares(total, weights));
    lemma_residue_bound(total, weights);
    assert(fee_parts(total, shares) =~= allocation(total, weights));
}

/// Conservation: where the shares make the whole, the three parts sum to the
/// amount, none is negative, and each is less than one unit away from its exact
/// share.
pub proof fn lemma_fee_conserves(total: int, shares: PlatformFeeAllocation)
    requires
        total >= 0,
        fee_shares_valid(shares.client_bps, shares.freelancer_bps, shares.treasury_bps),
    ensures
        sum3(fee_parts(total, shares)) == total,
        forall|i: int|
            0 <= i < 3 ==> {
                let part = #[trigger] fee_parts(total, shares)[i];
                let exact = total * fee_shares(shares)[i];
                &&& part >= 0
                &&& exact - BPS_SCALE < part * BPS_SCALE < exact + BPS_SCALE
            },
{
    let weights = fee_shares(shares);
    lemma_fee_is_an_allocation(total, shares);
    lemma_allocation_conserves(total, weights);
    reveal_with_fuel(sum_to, 4);
    lemma_allocation_error_is_bounded(total, weights, 0);
    lemma_allocation_error_is_bounded(total, weights, 1);
    lemma_allocation_error_is_bounded(total, weights, 2);
}

/// The three parts of a fee: each is the exact share rounded down, and what is left
/// of the whole goes out by a unit, first to those to whom rounding cost most and, of
/// two to whom it cost the same, to the one that comes first. The client takes what
/// three units do not settle.
pub proof fn lemma_fee_parts(total: int, shares: PlatformFeeAllocation)
    requires
        total <= i128::MAX,
        fee_refusal(total, shares) is None,
    ensures
        ({
            let exact = seq![
                total * shares.client_bps,
                total * shares.freelancer_bps,
                total * shares.treasury_bps,
            ];
            let fee = fee_distribution(total, shares);
            let parts = seq![
                fee.client_amount as int,
                fee.freelancer_amount as int,
                fee.treasury_amount as int,
            ];
            let left = total - exact[0] / 10_000 - exact[1] / 10_000 - exact[2] / 10_000;
            &&& left >= 0 ==> parts[0] + parts[1] + parts[2] == total
            &&& forall|i: int|
                #![trigger parts[i]]
                0 <= i < 3 ==> {
                    &&& exact[i] / 10_000 <= parts[i]
                    &&& left <= 0 ==> parts[i] == exact[i] / 10_000
                    &&& i > 0 || left <= 3 ==> parts[i] <= exact[i] / 10_000 + 1
                }
            &&& forall|i: int, j: int|
                #![trigger parts[i], parts[j]]
                0 <= i < 3 && 0 <= j < 3 && parts[i] > exact[i] / 10_000 && parts[j] == exact[j]
                    / 10_000 ==> exact[j] % 10_000 <= exact[i] % 10_000 && (exact[j] % 10_000
                    == exact[i] % 10_000 ==> i < j)
        }),
{
    reveal_with_fuel(rank_among, 4);
    lemma_product_not_negative(total, shares.client_bps as int);
    lemma_product_not_negative(total, shares.freelancer_bps as int);
    lemma_product_not_negative(total, shares.treasury_bps as int);
    let floors = fee_floors(total, shares);
    let parts = fee_parts(total, shares);
    let lost = fee_lost(total, shares);
    assert(fee_shares(shares)[0] == shares.client_bps);
    assert(fee_shares(shares)[1] == shares.freelancer_bps);
    assert(fee_shares(shares)[2] == shares.treasury_bps);
    assert(floors[0] >= 0 && floors[1] >= 0 && floors[2] >= 0);
    assert(lost.len() == 3);
    assert(fee_left(total, shares) >= 0 ==> sum3(parts) == total);
    assert(forall|i: int| 0 <= i < 3 ==> 0 <= #[trigger] parts[i] <= i128::MAX);
}

/// A fee can be divided where it is not negative and neither a product nor the sum of
/// the parts rounded down is out of range.
pub proof fn lemma_fee_refusals(total: int, shares: PlatformFeeAllocation)
    ensures
        ({
            let exact = seq![
                total * shares.client_bps,
                total * shares.freelancer_bps,
                total * shares.treasury_bps,
            ];
            fee_refusal(total, shares) == if total >= 0 && exact[0] <= i128::MAX && exact[1]
                <= i128::MAX && exact[2] <= i128::MAX && exact[0] / 10_000 + exact[1] / 10_000
                + exact[2] / 10_000 <= i128::MAX {
                None::<Error>
            } else {
                Some(Error::InvalidAmount)
            }
        }),
{
    assert(fee_shares(shares)[0] == shares.client_bps);
    assert(fee_shares(shares)[1] == shares.freelancer_bps);
    assert(fee_shares(shares)[2] == shares.treasury_bps);
}

// ── the stored shares ────────────────────────────────────────────────────────

/// Neither the fee nor the emergency pause is being changed.
pub open spec fn fee_busy_refusal(l: Ledger) -> Option<Error> {
    if raised(l.instance.platform_fee_lock) {
        Some(Error::PlatformFeeAllocationInProgress)
    } else if raised(l.instance.emergency_pause_lock) {
        Some(Error::EmergencyPauseInProgress)
    } else {
        None
    }
}

/// The ledger with other shares of the fee, the change being over.
pub open spec fn fee_changed(l: Ledger, shares: PlatformFeeAllocation) -> Ledger {
    l.with_instance(
        Instance { platform_fee: Some(shares), platform_fee_lock: Some(false), ..l.instance },
    )
}

/// Why `set_platform_fee_allocation` is refused, if it is.
pub open spec fn set_platform_fee_allocation_refusal(
    l: Ledger,
    admin: Address,
    client_bps: u32,
    freelancer_bps: u32,
    treasury_bps: u32,
) -> Option<Error> {
    if admin_refusal(l, admin) is Some {
        admin_refusal(l, admin)
    } else if fee_busy_refusal(l) is Some {
        fee_busy_refusal(l)
    } else if !fee_shares_valid(client_bps, freelancer_bps, treasury_bps) {
        Some(Error::InvalidRatio)
    } else if l.instance.platform_fee is None {
        Some(Error::NotInitialized)
    } else if l.instance.platform_fee->0.locked {
        Some(Error::InvalidStatus)
    } else {
        None
    }
}

/// What `set_platform_fee_allocation` makes of the ledger.
pub open spec fn set_platform_fee_allocation_step(
    l: Ledger,
    admin: Address,
    client_bps: u32,
    freelancer_bps: u32,
    treasury_bps: u32,
) -> Ledger {
    after(
        set_platform_fee_allocation_refusal(l, admin, client_bps, freelancer_bps, treasury_bps),
        l.asked(admin),
        fee_changed(
            l.asked(admin),
            PlatformFeeAllocation { client_bps, freelancer_bps, treasury_bps, locked: false },
        ),
    )
}

/// Why `lock_platform_fee_allocation` is refused, if it is.
pub open spec fn lock_platform_fee_allocation_refusal(l: Ledger, admin: Address) -> Option<Error> {
    if admin_refusal(l, admin) is Some {
        admin_refusal(l, admin)
    } else if fee_busy_refusal(l) is Some {
        fee_busy_refusal(l)
    } else if l.instance.platform_fee is None {
        Some(Error::NotInitialized)
    } else {
        None
    }
}

/// What `lock_platform_fee_allocation` makes of the ledger.
pub open spec fn lock_platform_fee_allocation_step(l: Ledger, admin: Address) -> Ledger {
    after(
        lock_platform_fee_allocation_refusal(l, admin),
        l.asked(admin),
        fee_changed(
            l.asked(admin),
            PlatformFeeAllocation { locked: true, ..l.instance.platform_fee->0 },
        ),
    )
}

/// Why `pf_alloc_admin_override` is refused, if it is.
pub open spec fn pf_alloc_admin_override_refusal(
    l: Ledger,
    admin: Address,
    client_bps: u32,
    freelancer_bps: u32,
    treasury_bps: u32,
) -> Option<Error> {
    if admin_refusal(l, admin) is Some {
        admin_refusal(l, admin)
    } else if l.instance.platform_fee is None {
        Some(Error::NotInitialized)
    } else if !l.instance.platform_fee->0.locked {
        Some(Error::InvalidStatus)
    } else if fee_busy_refusal(l) is Some {
        fee_busy_refusal(l)
    } else if !fee_shares_valid(client_bps, freelancer_bps, treasury_bps) {
        Some(Error::InvalidRatio)
    } else {
        None
    }
}

/// What `pf_alloc_admin_override` makes of the ledger.
pub open spec fn pf_alloc_admin_override_step(
    l: Ledger,
    admin: Address,
    client_bps: u32,
    freelancer_bps: u32,
    treasury_bps: u32,
) -> Ledger {
    after(
        pf_alloc_admin_override_refusal(l, admin, client_bps, freelancer_bps, treasury_bps),
        l.asked(admin),
        fee_changed(
            l.asked(admin),
            PlatformFeeAllocation { client_bps, freelancer_bps, treasury_bps, locked: false },
        ),
    )
}

impl MilestoneEscrow {
    fn assert_fee_not_busy(env: &Env) -> (r: Result<(), Error>)
        ensures
            r == outcome(fee_busy_refusal(env@), ()),
    {
        Self::assert_platform_fee_allocation_not_locked(env)?;
        Self::assert_emergency_pause_not_locked(env)
    }

    /// The admin sets the shares of the fee, unless they are locked.
    pub fn set_platform_fee_allocation(
        env: &mut Env,
        admin: Address,
        client_bps: u32,
        freelancer_bps: u32,
        treasury_bps: u32,
    ) -> (r: Result<(), Error>)
        ensures
            r == outcome(
                set_platform_fee_allocation_refusal(
                    old(env)@,
                    admin,
                    client_bps,
                    freelancer_bps,
                    treasury_bps,
                ),
                (),
            ),
            final(env)@ == set_platform_fee_allocation_step(
                old(env)@,
                admin,
                client_bps,
                freelancer_bps,
                treasury_bps,
            ),
    {
        Self::require_admin(env, admin)?;
        Self::assert_fee_not_busy(env)?;
        Self::validate_fee_allocation(client_bps, freelancer_bps, treasury_bps)?;
        let current = Self::get_platform_fee_allocation(env)?;
        if current.locked {
            return Err(Error::InvalidStatus);
        }
        env.platform_fee = Some(
            PlatformFeeAllocation { client_bps, freelancer_bps, treasury_bps, locked: false },
        );
        env.platform_fee_lock = Some(false);
        Ok(())
    }

    /// The admin locks the shares of the fee.
    pub fn lock_platform_fee_allocation(env: &mut Env, admin: Address) -> (r: Result<(), Error>)
        ensures
            r == outcome(lock_platform_fee_allocation_refusal(old(env)@, admin), ()),
            final(env)@ == lock_platform_fee_allocation_step(old(env)@, admin),
    {
        Self::require_admin(env, admin)?;
        Self::assert_fee_not_busy(env)?;
        let mut current = Self::get_platform_fee_allocation(env)?;
        current.locked = true;
        env.platform_fee = Some(current);
        env.platform_fee_lock = Some(false);
        Ok(())
    }

    /// The admin replaces locked shares of the fee, which unlocks them.
    pub fn pf_alloc_admin_override(
        env: &mut Env,
        admin: Address,
        client_bps: u32,
        freelancer_bps: u32,
        treasury_bps: u32,
    ) -> (r: Result<(), Error>)
        ensures
            r == outcome(
                pf_alloc_admin_override_refusal(
                    old(env)@,
                    admin,
                    client_bps,
                    freelancer_bps,
                    treasury_bps,
                ),
                (),
            ),
            final(env)@ == pf_alloc_admin_override_step(
                old(env)@,
                admin,
                client_bps,
                freelancer_bps,
                treasury_bps,
            ),
    {
        Self::require_admin(env, admin)?;
        let current = Self::get_platform_fee_allocation(env)?;
        if !current.locked {
            return Err(Error::InvalidStatus);
        }
        Self::assert_fee_not_busy(env)?;
        Self::validate_fee_allocation(client_bps, freelancer_bps, treasury_bps)?;
        env.platform_fee = Some(
            PlatformFeeAllocation { client_bps, freelancer_bps, treasury_bps, locked: false },
        );
        env.platform_fee_lock = Some(false);
        Ok(())
    }

    /// The shares of the fee.
    pub fn get_platform_fee_allocation(env: &Env) -> (r: Result<PlatformFeeAllocation, Error>)
        ensures
            r == match env@.instance.platform_fee {
                Some(shares) => Ok::<PlatformFeeAllocation, Error>(shares),
                None => Err(Error::NotInitialized),
            },
    {
        match env.platform_fee {
            Some(shares) => Ok(shares),
            None => Err(Error::NotInitialized),
        }
    }

    /// Divides an amount by the shares of the fee.
    pub fn calculate_platform_fee_split(
        env: &Env,
        total_amount: i128,
    ) -> (r: Result<PlatformFeeDistribution, Error>)
        ensures
            r == match env@.instance.platform_fee {
                Some(shares) => outcome(
                    fee_refusal(total_amount as int, shares),
                    fee_distribution(total_amount as int, shares),
                ),
                None => Err(Error::NotInitialized),
            },
    {
        let shares = Self::get_platform_fee_allocation(env)?;
        Self::allocate_platform_fee(total_amount, &shares)
    }
}

} // verus!
