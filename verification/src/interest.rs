//! Yield on what the escrow holds: estimating it, sharing it, booking it.

use crate::address::Address;
use crate::events::{
    EscrowInterestYieldConsentSetEvent, Event, YieldAccruedEvent, YieldRateSetEvent,
};
use crate::guards::{admin_refusal, after, either, outcome};
use crate::ledger::{or_default, raised, Env, Instance, Ledger, Persistent};
use crate::streaming::consent_asked;
use crate::types::{
    EscrowInterestYieldState, Error, MilestoneEscrow, BPS_DENOMINATOR, BPS_SCALE,
    SECONDS_PER_YEAR,
};
use vstd::prelude::*;

verus! {

// ── the estimate ─────────────────────────────────────────────────────────────

/// Why the yield on a balance cannot be estimated from these figures.
pub open spec fn estimate_input_refusal(
    principal: i128,
    annual_rate_bps: i128,
    duration_seconds: i128,
) -> Option<Error> {
    if principal <= 0 || annual_rate_bps <= 0 {
        Some(Error::InvalidAmount)
    } else if annual_rate_bps > BPS_DENOMINATOR {
        Some(Error::InvalidRatio)
    } else if duration_seconds <= 0 {
        Some(Error::InvalidAmount)
    } else {
        None
    }
}

/// The same, and the product of the three must be in range.
pub open spec fn estimate_refusal(
    principal: i128,
    annual_rate_bps: i128,
    duration_seconds: i128,
) -> Option<Error> {
    if estimate_input_refusal(principal, annual_rate_bps, duration_seconds) is Some {
        estimate_input_refusal(principal, annual_rate_bps, duration_seconds)
    } else if principal * annual_rate_bps * duration_seconds > i128::MAX {
        Some(Error::InvalidAmount)
    } else {
        None
    }
}

/// Simple interest on `principal`, rounded down.
pub open spec fn simple_interest(
    principal: i128,
    annual_rate_bps: i128,
    duration_seconds: i128,
) -> int {
    principal * annual_rate_bps * duration_seconds / (BPS_DENOMINATOR * SECONDS_PER_YEAR)
}

/// An estimate is the largest number of units within a year's interest, pro rata: a
/// year has 365 days, and a rate of ten thousand is the principal.
pub proof fn lemma_yield_is_pro_rata(
    principal: i128,
    annual_rate_bps: i128,
    duration_seconds: i128,
)
    ensures
        match estimate_refusal(principal, annual_rate_bps, duration_seconds) {
            None => {
                &&& principal > 0
                &&& 0 < annual_rate_bps <= 10_000
                &&& duration_seconds > 0
                &&& principal * annual_rate_bps * duration_seconds <= i128::MAX
            },
            Some(Error::InvalidRatio) => annual_rate_bps > 10_000,
            Some(Error::InvalidAmount) => principal <= 0 || annual_rate_bps <= 0 || duration_seconds
                <= 0 || principal * annual_rate_bps * duration_seconds > i128::MAX,
            _ => false,
        },
        match estimate_input_refusal(principal, annual_rate_bps, duration_seconds) {
            None => principal > 0 && 0 < annual_rate_bps <= 10_000 && duration_seconds > 0,
            Some(Error::InvalidRatio) => annual_rate_bps > 10_000,
            Some(Error::InvalidAmount) => principal <= 0 || annual_rate_bps <= 0 || duration_seconds
                <= 0,
            _ => false,
        },
        ({
            let estimate = simple_interest(principal, annual_rate_bps, duration_seconds);
            estimate * 315_360_000_000 <= principal * annual_rate_bps * duration_seconds < (estimate
                + 1) * 315_360_000_000
        }),
{
}

/// For no longer than a year, the yield is never more than the balance.
pub proof fn lemma_yield_of_a_year_is_within_principal(
    principal: i128,
    annual_rate_bps: i128,
    duration_seconds: i128,
)
    requires
        estimate_refusal(principal, annual_rate_bps, duration_seconds) is None,
        duration_seconds <= SECONDS_PER_YEAR,
    ensures
        0 <= simple_interest(principal, annual_rate_bps, duration_seconds) <= principal,
{
    let p = principal as int;
    let year = 315_360_000_000int;
    assert(0 <= p * annual_rate_bps * duration_seconds <= p * year) by (nonlinear_arith)
        requires
            p > 0,
            0 < annual_rate_bps <= 10_000,
            0 < duration_seconds <= 31_536_000,
            year == 315_360_000_000int,
    ;
    assert(BPS_DENOMINATOR * SECONDS_PER_YEAR == year);
}

// ── the shares ───────────────────────────────────────────────────────────────

/// The two shares make the whole.
pub open spec fn yield_shares_valid(client_share_bps: u32, freelancer_share_bps: u32) -> bool {
    client_share_bps + freelancer_share_bps == BPS_SCALE
}

/// The shares must make the whole, and must not be locked.
pub open spec fn yield_shares_refusal(
    l: Ledger,
    client_share_bps: u32,
    freelancer_share_bps: u32,
) -> Option<Error> {
    if !yield_shares_valid(client_share_bps, freelancer_share_bps) {
        Some(Error::InvalidRatio)
    } else if l.instance.interest_yield matches Some(state) && state.locked {
        Some(Error::EscrowLocked)
    } else {
        None
    }
}

/// The ledger with other shares of the yield, unlocked.
pub open spec fn yield_shared(
    l: Ledger,
    client_share_bps: u32,
    freelancer_share_bps: u32,
) -> Ledger {
    l.with_instance(Instance { interest_yield: Some(
            EscrowInterestYieldState { client_share_bps, freelancer_share_bps, locked: false },
        ), ..l.instance })
}

/// Why `set_escrow_interest_yield` is refused, if it is.
pub open spec fn set_escrow_interest_yield_refusal(
    l: Ledger,
    admin: Address,
    client_share_bps: u32,
    freelancer_share_bps: u32,
) -> Option<Error> {
    either(
        admin_refusal(l, admin),
        yield_shares_refusal(l, client_share_bps, freelancer_share_bps),
    )
}

/// What `set_escrow_interest_yield` makes of the ledger.
pub open spec fn set_escrow_interest_yield_step(
    l: Ledger,
    admin: Address,
    client_share_bps: u32,
    freelancer_share_bps: u32,
) -> Ledger {
    after(
        set_escrow_interest_yield_refusal(l, admin, client_share_bps, freelancer_share_bps),
        l.asked(admin),
        yield_shared(l.asked(admin), client_share_bps, freelancer_share_bps),
    )
}

/// Why `set_interest_yield_consent` is refused, if it is.
pub open spec fn set_interest_yield_consent_refusal(
    l: Ledger,
    admin: Address,
    client_share_bps: u32,
    freelancer_share_bps: u32,
) -> Option<Error> {
    if admin_refusal(l, admin) is Some {
        admin_refusal(l, admin)
    } else if l.instance.job is None {
        Some(Error::NotInitialized)
    } else {
        yield_shares_refusal(l, client_share_bps, freelancer_share_bps)
    }
}

/// What `set_interest_yield_consent` makes of the ledger.
pub open spec fn set_interest_yield_consent_step(
    l: Ledger,
    admin: Address,
    client_share_bps: u32,
    freelancer_share_bps: u32,
) -> Ledger {
    after(
        set_interest_yield_consent_refusal(l, admin, client_share_bps, freelancer_share_bps),
        if admin_refusal(l, admin) is Some {
            l.asked(admin)
        } else {
            consent_asked(l.asked(admin))
        },
        yield_shared(
            consent_asked(l.asked(admin)),
            client_share_bps,
            freelancer_share_bps,
        ).announced(
            Event::EscrowInterestYieldConsentSet(
                EscrowInterestYieldConsentSetEvent {
                    admin,
                    client: l.instance.job->0.client,
                    freelancer: l.instance.job->0.freelancer,
                    client_share_bps,
                    freelancer_share_bps,
                },
            ),
        ),
    )
}

/// Only the admin may lock or unlock the shares, and only where there are any.
pub open spec fn yield_lock_refusal(l: Ledger, admin: Address) -> Option<Error> {
    if admin_refusal(l, admin) is Some {
        admin_refusal(l, admin)
    } else if l.instance.interest_yield is None {
        Some(Error::NotInitialized)
    } else {
        None
    }
}

/// The shares are locked or unlocked.
pub open spec fn yield_lock_step(l: Ledger, admin: Address, locked: bool) -> Ledger {
    after(
        yield_lock_refusal(l, admin),
        l.asked(admin),
        l.asked(admin).with_instance(
            Instance {
                interest_yield: Some(
                    EscrowInterestYieldState { locked, ..l.instance.interest_yield->0 },
                ),
                ..l.instance
            },
        ),
    )
}

// ── the rate and the books ───────────────────────────────────────────────────

/// Why `admin_set_yield_rate` is refused, if it is.
pub open spec fn admin_set_yield_rate_refusal(
    l: Ledger,
    admin: Address,
    rate_bps: u32,
) -> Option<Error> {
    if admin_refusal(l, admin) is Some {
        admin_refusal(l, admin)
    } else if rate_bps > BPS_SCALE {
        Some(Error::InvalidRatio)
    } else {
        None
    }
}

/// What `admin_set_yield_rate` makes of the ledger.
pub open spec fn admin_set_yield_rate_step(l: Ledger, admin: Address, rate_bps: u32) -> Ledger {
    after(
        admin_set_yield_rate_refusal(l, admin, rate_bps),
        l.asked(admin),
        l.asked(admin).with_persistent(
            Persistent { yield_rate_bps: Some(rate_bps), ..l.persistent },
        ).announced(
            Event::YieldRateSet(
                YieldRateSetEvent {
                    admin,
                    old_rate_bps: or_default(l.persistent.yield_rate_bps, 0),
                    new_rate_bps: rate_bps,
                },
            ),
        ),
    )
}

/// Why `admin_accrue_yield` is refused, if it is.
pub open spec fn admin_accrue_yield_refusal(
    l: Ledger,
    admin: Address,
    milestone_index: u32,
    accrued_amount: i128,
) -> Option<Error> {
    if admin_refusal(l, admin) is Some {
        admin_refusal(l, admin)
    } else if l.instance.job is None {
        Some(Error::NotInitialized)
    } else if milestone_index >= l.instance.job->0.milestone_count {
        Some(Error::InvalidMilestone)
    } else if accrued_amount <= 0 || or_default(
        l.persistent.yield_accrued,
        0,
    ) + accrued_amount > i128::MAX {
        Some(Error::InvalidAmount)
    } else {
        None
    }
}

/// What `admin_accrue_yield` makes of the ledger.
pub open spec fn admin_accrue_yield_step(
    l: Ledger,
    admin: Address,
    milestone_index: u32,
    accrued_amount: i128,
) -> Ledger {
    let total = (or_default(l.persistent.yield_accrued, 0) + accrued_amount) as i128;
    after(
        admin_accrue_yield_refusal(l, admin, milestone_index, accrued_amount),
        l.asked(admin),
        l.asked(admin).with_persistent(
            Persistent { yield_accrued: Some(total), ..l.persistent },
        ).announced(
            Event::YieldAccrued(
                YieldAccruedEvent { admin, milestone_index, accrued_amount, total_accrued: total },
            ),
        ),
    )
}

impl MilestoneEscrow {
    /// The figures of an estimate.
    pub fn validate_interest_yield_params(
        principal: i128,
        annual_rate_bps: i128,
        duration_seconds: i128,
    ) -> (r: Result<(), Error>)
        ensures
            r == outcome(
                estimate_input_refusal(principal, annual_rate_bps, duration_seconds),
                (),
            ),
    {
        if principal <= 0 {
            return Err(Error::InvalidAmount);
        }
        if annual_rate_bps <= 0 {
            return Err(Error::InvalidAmount);
        }
        if annual_rate_bps > BPS_DENOMINATOR {
            return Err(Error::InvalidRatio);
        }
        if duration_seconds <= 0 {
            return Err(Error::InvalidAmount);
        }
        Ok(())
    }

    /// The two shares make the whole.
    pub fn validate_interest_yield_share_config(
        client_share_bps: u32,
        freelancer_share_bps: u32,
    ) -> (r: Result<(), Error>)
        ensures
            r == if yield_shares_valid(client_share_bps, freelancer_share_bps) {
                Ok::<(), Error>(())
            } else {
                Err(Error::InvalidRatio)
            },
    {
        match client_share_bps.checked_add(freelancer_share_bps) {
            Some(total) => {
                if total != BPS_SCALE {
                    return Err(Error::InvalidRatio);
                }
                Ok(())
            },
            None => Err(Error::InvalidRatio),
        }
    }

    /// An annual rate of at most the whole; 0 means no yield.
    pub fn validate_yield_rate_bps(rate_bps: u32) -> (r: Result<(), Error>)
        ensures
            r == if rate_bps > BPS_SCALE {
                Err::<(), Error>(Error::InvalidRatio)
            } else {
                Ok(())
            },
    {
        if rate_bps > BPS_SCALE {
            return Err(Error::InvalidRatio);
        }
        Ok(())
    }

    /// The simple interest on `principal` over `duration_seconds`.
    pub fn escrow_interest_yield(
        _env: &Env,
        principal: i128,
        annual_rate_bps: i128,
        duration_seconds: i128,
    ) -> (r: Result<i128, Error>)
        ensures
            r == outcome(
                estimate_refusal(principal, annual_rate_bps, duration_seconds),
                simple_interest(principal, annual_rate_bps, duration_seconds) as i128,
            ),
            r matches Ok(estimate) ==> estimate == simple_interest(
                principal,
                annual_rate_bps,
                duration_seconds,
            ),
    {
        Self::validate_interest_yield_params(principal, annual_rate_bps, duration_seconds)?;
        proof {
            let yearly = principal * annual_rate_bps;
            assert(yearly >= 0) by (nonlinear_arith)
                requires
                    principal > 0,
                    annual_rate_bps > 0,
                    yearly == principal * annual_rate_bps,
            ;
            assert(yearly * duration_seconds >= yearly) by (nonlinear_arith)
                requires
                    yearly >= 0,
                    duration_seconds >= 1,
            ;
        }
        let yearly: i128 = match principal.checked_mul(annual_rate_bps) {
            Some(yearly) => yearly,
            None => {
                return Err(Error::InvalidAmount);
            },
        };
        let numerator: i128 = match yearly.checked_mul(duration_seconds) {
            Some(numerator) => numerator,
            None => {
                return Err(Error::InvalidAmount);
            },
        };
        let denominator: i128 = BPS_DENOMINATOR * SECONDS_PER_YEAR;
        Ok(numerator / denominator)
    }

    /// The shares may be changed to these.
    fn check_yield_shares(
        env: &Env,
        client_share_bps: u32,
        freelancer_share_bps: u32,
    ) -> (r: Result<(), Error>)
        ensures
            r == outcome(
                yield_shares_refusal(env@, client_share_bps, freelancer_share_bps),
                (),
            ),
    {
        Self::validate_interest_yield_share_config(client_share_bps, freelancer_share_bps)?;
        match env.interest_yield {
            Some(state) => {
                if state.locked {
                    return Err(Error::EscrowLocked);
                }
            },
            None => {},
        }
        Ok(())
    }

    /// The admin sets the shares of the yield, unless they are locked.
    pub fn set_escrow_interest_yield(
        env: &mut Env,
        admin: Address,
        client_share_bps: u32,
        freelancer_share_bps: u32,
    ) -> (r: Result<(), Error>)
        ensures
            r == outcome(
                set_escrow_interest_yield_refusal(
                    old(env)@,
                    admin,
                    client_share_bps,
                    freelancer_share_bps,
                ),
                (),
            ),
            final(env)@ == set_escrow_interest_yield_step(
                old(env)@,
                admin,
                client_share_bps,
                freelancer_share_bps,
            ),
    {
        Self::require_admin(env, admin)?;
        Self::check_yield_shares(env, client_share_bps, freelancer_share_bps)?;
        env.interest_yield = Some(
            EscrowInterestYieldState { client_share_bps, freelancer_share_bps, locked: false },
        );
        Ok(())
    }

    /// The shares of the yield are set by the admin and both parties together,
    /// unless they are locked.
    pub fn set_interest_yield_consent(
        env: &mut Env,
        admin: Address,
        client_share_bps: u32,
        freelancer_share_bps: u32,
    ) -> (r: Result<(), Error>)
        ensures
            r == outcome(
                set_interest_yield_consent_refusal(
                    old(env)@,
                    admin,
                    client_share_bps,
                    freelancer_share_bps,
                ),
                (),
            ),
            final(env)@ == set_interest_yield_consent_step(
                old(env)@,
                admin,
                client_share_bps,
                freelancer_share_bps,
            ),
    {
        Self::require_admin(env, admin)?;
        let meta = Self::require_client_and_freelancer_consent(env)?;
        Self::check_yield_shares(env, client_share_bps, freelancer_share_bps)?;
        env.interest_yield = Some(
            EscrowInterestYieldState { client_share_bps, freelancer_share_bps, locked: false },
        );
        env.publish(
            Event::EscrowInterestYieldConsentSet(
                EscrowInterestYieldConsentSetEvent {
                    admin,
                    client: meta.client,
                    freelancer: meta.freelancer,
                    client_share_bps,
                    freelancer_share_bps,
                },
            ),
        );
        Ok(())
    }

    /// The admin locks the shares of the yield.
    pub fn lock_escrow_interest_yield(env: &mut Env, admin: Address) -> (r: Result<(), Error>)
        ensures
            r == outcome(yield_lock_refusal(old(env)@, admin), ()),
            final(env)@ == yield_lock_step(old(env)@, admin, true),
    {
        Self::require_admin(env, admin)?;
        let mut state = Self::get_escrow_interest_yield(env)?;
        state.locked = true;
        env.interest_yield = Some(state);
        Ok(())
    }

    /// The admin unlocks the shares of the yield.
    pub fn unlock_escrow_interest_yield(env: &mut Env, admin: Address) -> (r: Result<(), Error>)
        ensures
            r == outcome(yield_lock_refusal(old(env)@, admin), ()),
            final(env)@ == yield_lock_step(old(env)@, admin, false),
    {
        Self::require_admin(env, admin)?;
        let mut state = Self::get_escrow_interest_yield(env)?;
        state.locked = false;
        env.interest_yield = Some(state);
        Ok(())
    }

    /// Whether the shares of the yield are locked.
    pub fn is_escrow_interest_yield_locked(env: &Env) -> (r: Result<bool, Error>)
        ensures
            r == match env@.instance.interest_yield {
                Some(state) => Ok::<bool, Error>(state.locked),
                None => Err(Error::NotInitialized),
            },
    {
        let state = Self::get_escrow_interest_yield(env)?;
        Ok(state.locked)
    }

    /// The shares of the yield.
    pub fn get_escrow_interest_yield(env: &Env) -> (r: Result<EscrowInterestYieldState, Error>)
        ensures
            r == match env@.instance.interest_yield {
                Some(state) => Ok::<EscrowInterestYieldState, Error>(state),
                None => Err(Error::NotInitialized),
            },
    {
        match env.interest_yield {
            Some(state) => Ok(state),
            None => Err(Error::NotInitialized),
        }
    }

    /// The admin sets the annual yield rate.
    pub fn admin_set_yield_rate(
        env: &mut Env,
        admin: Address,
        rate_bps: u32,
    ) -> (r: Result<(), Error>)
        ensures
            r == outcome(admin_set_yield_rate_refusal(old(env)@, admin, rate_bps), ()),
            final(env)@ == admin_set_yield_rate_step(old(env)@, admin, rate_bps),
    {
        Self::require_admin(env, admin)?;
        Self::validate_yield_rate_bps(rate_bps)?;
        let old_rate_bps: u32 = match env.yield_rate_bps {
            Some(rate) => rate,
            None => 0,
        };
        env.yield_rate_bps = Some(rate_bps);
        env.publish(
            Event::YieldRateSet(YieldRateSetEvent { admin, old_rate_bps, new_rate_bps: rate_bps }),
        );
        Ok(())
    }

    /// The admin books yield on a milestone.
    pub fn admin_accrue_yield(
        env: &mut Env,
        admin: Address,
        milestone_index: u32,
        accrued_amount: i128,
    ) -> (r: Result<(), Error>)
        ensures
            r == outcome(
                admin_accrue_yield_refusal(old(env)@, admin, milestone_index, accrued_amount),
                (),
            ),
            final(env)@ == admin_accrue_yield_step(
                old(env)@,
                admin,
                milestone_index,
                accrued_amount,
            ),
    {
        Self::require_admin(env, admin)?;
        let meta = Self::load_job_meta(env)?;
        if milestone_index >= meta.milestone_count {
            return Err(Error::InvalidMilestone);
        }
        if accrued_amount <= 0 {
            return Err(Error::InvalidAmount);
        }
        let current_total: i128 = match env.yield_accrued {
            Some(total) => total,
            None => 0,
        };
        let total_accrued: i128 = match current_total.checked_add(accrued_amount) {
            Some(total) => total,
            None => {
                return Err(Error::InvalidAmount);
            },
        };
        env.yield_accrued = Some(total_accrued);
        env.publish(
            Event::YieldAccrued(
                YieldAccruedEvent { admin, milestone_index, accrued_amount, total_accrued },
            ),
        );
        Ok(())
    }

    /// The annual rate, the yield booked so far, and whether the everyday
    /// requests are paused.
    pub fn get_yield_info(env: &Env) -> (r: Result<(u32, i128, bool), Error>)
        ensures
            r == match env@.instance.job {
                Some(_) => Ok::<(u32, i128, bool), Error>(
                    (
                        or_default(env@.persistent.yield_rate_bps, 0),
                        or_default(env@.persistent.yield_accrued, 0),
                        raised(env@.instance.paused),
                    ),
                ),
                None => Err(Error::NotInitialized),
            },
    {
        Self::load_job_meta(env)?;
        let rate_bps: u32 = match env.yield_rate_bps {
            Some(rate) => rate,
            None => 0,
        };
        let total_accrued: i128 = match env.yield_accrued {
            Some(total) => total,
            None => 0,
        };
        Ok((rate_bps, total_accrued, Self::is_raised(env.paused)))
    }
}

} // verus!
