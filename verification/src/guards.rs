//! Conditions that many requests share, and how entries are read and written.

use crate::address::{is_zero, Address};
use crate::ledger::{raised, Env, Ledger};
use crate::types::{Error, JobMeta, Milestone, MilestoneEscrow, MilestoneStatus};
use vstd::prelude::*;

verus! {

/// The answer to a request: `value`, unless there is a reason to refuse it.
pub open spec fn outcome<T>(refusal: Option<Error>, value: T) -> Result<T, Error> {
    match refusal {
        Some(error) => Err(error),
        None => Ok(value),
    }
}

/// The ledger after a request: `refused` where there is a reason to refuse it,
/// `done` otherwise.
pub open spec fn after(refusal: Option<Error>, refused: Ledger, done: Ledger) -> Ledger {
    if refusal is Some {
        refused
    } else {
        done
    }
}

/// The first of two reasons to refuse a request.
pub open spec fn either(first: Option<Error>, second: Option<Error>) -> Option<Error> {
    if first is Some {
        first
    } else {
        second
    }
}

/// Only the admin may do this.
pub open spec fn admin_refusal(l: Ledger, admin: Address) -> Option<Error> {
    if l.persistent.admin is None {
        Some(Error::NotInitialized)
    } else if l.persistent.admin != Some(admin) {
        Some(Error::Unauthorized)
    } else {
        None
    }
}

/// This is not done while the admin has paused the everyday requests.
pub open spec fn suspended_refusal(l: Ledger) -> Option<Error> {
    if raised(l.instance.paused) {
        Some(Error::Paused)
    } else {
        None
    }
}

/// This is not done while the escrow is being cancelled.
pub open spec fn cancelling_refusal(l: Ledger) -> Option<Error> {
    if raised(l.instance.cancel_lock) {
        Some(Error::EscrowLocked)
    } else {
        None
    }
}

/// This is not done while the escrow is frozen or being cancelled.
pub open spec fn frozen_refusal(l: Ledger) -> Option<Error> {
    if raised(l.instance.emergency_paused) {
        Some(Error::Paused)
    } else {
        cancelling_refusal(l)
    }
}

/// This is not done while an admin operation is running.
pub open spec fn busy_refusal(l: Ledger) -> Option<Error> {
    if raised(l.instance.tax_execution_lock) {
        Some(Error::TaxWithholdingInProgress)
    } else if raised(l.instance.platform_fee_lock) {
        Some(Error::PlatformFeeAllocationInProgress)
    } else if raised(l.instance.emergency_pause_lock) {
        Some(Error::EmergencyPauseInProgress)
    } else {
        None
    }
}

/// What the everyday requests of the parties wait for.
pub open spec fn everyday_refusal(l: Ledger) -> Option<Error> {
    either(suspended_refusal(l), either(frozen_refusal(l), busy_refusal(l)))
}

/// The milestone is settled: no more is paid for it.
pub open spec fn is_terminal(status: MilestoneStatus) -> bool {
    status == MilestoneStatus::Released || status == MilestoneStatus::Refunded
}

/// What is still owed for a milestone.
pub open spec fn owed(milestone: Milestone) -> int {
    milestone.amount - milestone.released_amount
}

/// Something is owed for the milestone, and the amount is in range.
pub open spec fn has_balance(milestone: Milestone) -> bool {
    0 < owed(milestone) <= i128::MAX
}

impl MilestoneEscrow {
    /// The admin.
    pub(crate) fn load_admin(env: &Env) -> (r: Result<Address, Error>)
        ensures
            r == match env@.persistent.admin {
                Some(admin) => Ok::<Address, Error>(admin),
                None => Err(Error::NotInitialized),
            },
    {
        match env.admin {
            Some(admin) => Ok(admin),
            None => Err(Error::NotInitialized),
        }
    }

    /// Demands that `admin` has signed and is the admin.
    pub(crate) fn require_admin(env: &mut Env, admin: Address) -> (r: Result<(), Error>)
        ensures
            r == outcome(admin_refusal(old(env)@, admin), ()),
            final(env)@ == old(env)@.asked(admin),
    {
        env.require_auth(admin);
        let stored = Self::load_admin(env)?;
        if stored != admin {
            return Err(Error::Unauthorized);
        }
        Ok(())
    }

    /// Whether `flag` is up.
    pub(crate) fn is_raised(flag: Option<bool>) -> (r: bool)
        ensures
            r == raised(flag),
    {
        match flag {
            Some(up) => up,
            None => false,
        }
    }

    /// The admin has not paused the everyday requests.
    pub(crate) fn assert_not_paused(env: &Env) -> (r: Result<(), Error>)
        ensures
            r == outcome(suspended_refusal(env@), ()),
    {
        if Self::is_raised(env.paused) {
            return Err(Error::Paused);
        }
        Ok(())
    }

    /// The escrow is not being cancelled.
    pub(crate) fn assert_not_cancelling(env: &Env) -> (r: Result<(), Error>)
        ensures
            r == outcome(cancelling_refusal(env@), ()),
    {
        if Self::is_raised(env.cancel_lock) {
            return Err(Error::EscrowLocked);
        }
        Ok(())
    }

    /// The escrow is neither frozen nor being cancelled.
    pub(crate) fn ensure_not_paused(env: &Env) -> (r: Result<(), Error>)
        ensures
            r == outcome(frozen_refusal(env@), ()),
    {
        if Self::is_raised(env.emergency_paused) {
            return Err(Error::Paused);
        }
        Self::assert_not_cancelling(env)
    }

    /// No tax calculation is running.
    pub(crate) fn assert_tax_withholding_not_locked(env: &Env) -> (r: Result<(), Error>)
        ensures
            r == if raised(env@.instance.tax_execution_lock) {
                Err::<(), Error>(Error::TaxWithholdingInProgress)
            } else {
                Ok(())
            },
    {
        if Self::is_raised(env.tax_execution_lock) {
            return Err(Error::TaxWithholdingInProgress);
        }
        Ok(())
    }

    /// No change of the platform fee is running.
    pub(crate) fn assert_platform_fee_allocation_not_locked(env: &Env) -> (r: Result<(), Error>)
        ensures
            r == if raised(env@.instance.platform_fee_lock) {
                Err::<(), Error>(Error::PlatformFeeAllocationInProgress)
            } else {
                Ok(())
            },
    {
        if Self::is_raised(env.platform_fee_lock) {
            return Err(Error::PlatformFeeAllocationInProgress);
        }
        Ok(())
    }

    /// No change of the emergency pause is running.
    pub(crate) fn assert_emergency_pause_not_locked(env: &Env) -> (r: Result<(), Error>)
        ensures
            r == if raised(env@.instance.emergency_pause_lock) {
                Err::<(), Error>(Error::EmergencyPauseInProgress)
            } else {
                Ok(())
            },
    {
        if Self::is_raised(env.emergency_pause_lock) {
            return Err(Error::EmergencyPauseInProgress);
        }
        Ok(())
    }

    /// No admin operation is running.
    pub(crate) fn assert_not_busy(env: &Env) -> (r: Result<(), Error>)
        ensures
            r == outcome(busy_refusal(env@), ()),
    {
        Self::assert_tax_withholding_not_locked(env)?;
        Self::assert_platform_fee_allocation_not_locked(env)?;
        Self::assert_emergency_pause_not_locked(env)?;
        Ok(())
    }

    /// The everyday requests are open.
    pub(crate) fn assert_open_for_business(env: &Env) -> (r: Result<(), Error>)
        ensures
            r == outcome(everyday_refusal(env@), ()),
    {
        Self::assert_not_paused(env)?;
        Self::ensure_not_paused(env)?;
        Self::assert_not_busy(env)
    }

    /// The job, without its milestones.
    pub(crate) fn load_job_meta(env: &Env) -> (r: Result<JobMeta, Error>)
        ensures
            r == match env@.instance.job {
                Some(job) => Ok::<JobMeta, Error>(job),
                None => Err(Error::NotInitialized),
            },
    {
        match env.job {
            Some(job) => Ok(job),
            None => Err(Error::NotInitialized),
        }
    }

    /// The milestone at `index`.
    pub(crate) fn load_milestone(env: &Env, index: u32) -> (r: Result<Milestone, Error>)
        ensures
            r == match env@.milestone(index) {
                Some(milestone) => Ok::<Milestone, Error>(milestone),
                None => Err(Error::InvalidMilestone),
            },
    {
        match env.milestones.get(index) {
            Some(milestone) => Ok(milestone),
            None => Err(Error::InvalidMilestone),
        }
    }

    /// Writes the milestone at `index`.
    pub(crate) fn store_milestone(env: &mut Env, index: u32, milestone: Milestone)
        ensures
            final(env)@ == old(env)@.with_milestone(index, milestone),
    {
        env.milestones.set(index, milestone);
    }

    /// How long the automatic release of a milestone was put off.
    pub(crate) fn load_time_extension(env: &Env, index: u32) -> (r: u64)
        ensures
            r == env@.extension(index),
    {
        match env.time_extensions.get(index) {
            Some(seconds) => seconds,
            None => 0,
        }
    }

    /// What is owed for a milestone, or an error where that is nothing.
    pub(crate) fn balance_of(milestone: &Milestone) -> (r: Result<i128, Error>)
        ensures
            r == if has_balance(*milestone) {
                Ok(owed(*milestone) as i128)
            } else {
                Err(Error::InvalidAmount)
            },
    {
        match milestone.amount.checked_sub(milestone.released_amount) {
            Some(remaining) => {
                if remaining <= 0 {
                    return Err(Error::InvalidAmount);
                }
                Ok(remaining)
            },
            None => Err(Error::InvalidAmount),
        }
    }

    /// Whether a milestone is settled.
    pub(crate) fn is_settled(status: MilestoneStatus) -> (r: bool)
        ensures
            r == is_terminal(status),
    {
        status == MilestoneStatus::Released || status == MilestoneStatus::Refunded
    }

    /// One more point of reputation for `address`.
    pub(crate) fn increment_reputation(env: &mut Env, address: Address)
        requires
            old(env)@.reputation_of(address) < u32::MAX,
        ensures
            final(env)@ == old(env)@.rewarded(address),
    {
        let current: u32 = match env.reputation.get(address) {
            Some(points) => points,
            None => 0,
        };
        env.reputation.set(address, current + 1);
    }

    /// One more point of reputation for the client and the freelancer.
    pub(crate) fn reward_both(env: &mut Env, job: &JobMeta)
        requires
            old(env)@.can_reward(*job),
        ensures
            final(env)@ == old(env)@.both_rewarded(*job),
    {
        Self::increment_reputation(env, job.client);
        Self::increment_reputation(env, job.freelancer);
    }

    /// `total + amount`, where `amount` is positive and the sum is in range.
    pub fn checked_add_amount(total: i128, amount: i128) -> (r: Result<i128, Error>)
        ensures
            r == if amount > 0 && total + amount <= i128::MAX {
                Ok((total + amount) as i128)
            } else {
                Err(Error::InvalidAmount)
            },
    {
        if amount <= 0 {
            return Err(Error::InvalidAmount);
        }
        match total.checked_add(amount) {
            Some(sum) => Ok(sum),
            None => Err(Error::InvalidAmount),
        }
    }

    /// `address` is neither zero nor the contract itself.
    pub(crate) fn validate_address(env: &Env, address: Address) -> (r: Result<(), Error>)
        ensures
            r == if is_zero(address) || address == env@.contract {
                Err::<(), Error>(Error::InvalidAddress)
            } else {
                Ok(())
            },
    {
        if address.is_zero() || address == env.contract {
            return Err(Error::InvalidAddress);
        }
        Ok(())
    }
}

} // verus!
