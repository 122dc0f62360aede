//! The admin settles single milestones.

use crate::address::Address;
use crate::cancellation::closed_as;
use crate::events::{
    AdminOverrideRefundEvent, AdminOverrideReleaseEvent, Event, MultisigAdminOverrideRefundEvent,
    MultisigAdminOverrideReleaseEvent,
};
use crate::guards::{admin_refusal, after, either, has_balance, is_terminal, outcome, owed};
use crate::ledger::{raised, Env, Instance, Ledger, Temporary};
use crate::milestones::milestone_refusal;
use crate::types::{Error, JobMeta, Milestone, MilestoneEscrow, MilestoneStatus};
use vstd::prelude::*;

verus! {

/// A milestone of a funded job that is not settled, and for which something is
/// owed.
pub open spec fn unsettled_refusal(l: Ledger, milestone_index: u32) -> Option<Error> {
    let milestone = l.milestone(milestone_index)->0;
    if l.instance.job is None {
        Some(Error::NotInitialized)
    } else if !l.instance.job->0.funded {
        Some(Error::NotFunded)
    } else if milestone_refusal(l, l.instance.job->0, milestone_index) is Some {
        milestone_refusal(l, l.instance.job->0, milestone_index)
    } else if is_terminal(milestone.status) {
        Some(Error::InvalidStatus)
    } else if !has_balance(milestone) {
        Some(Error::InvalidAmount)
    } else {
        None
    }
}

/// The milestone at `index` is marked as released.
pub open spec fn flagged_released(l: Ledger, index: u32) -> Ledger {
    l.with_temporary(
        Temporary {
            milestone_released: l.temporary.milestone_released.insert(index, true),
            ..l.temporary
        },
    )
}

/// Why `admin_override_release`, `admin_override_refund` and
/// `multisig_admin_override_release` are refused, if they are.
pub open spec fn admin_override_refusal(
    l: Ledger,
    admin: Address,
    milestone_index: u32,
) -> Option<Error> {
    either(admin_refusal(l, admin), unsettled_refusal(l, milestone_index))
}

/// What `admin_override_release` makes of the ledger.
pub open spec fn admin_override_release_step(
    l: Ledger,
    admin: Address,
    milestone_index: u32,
) -> Ledger {
    let job = l.instance.job->0;
    let milestone = l.milestone(milestone_index)->0;
    after(
        admin_override_refusal(l, admin, milestone_index),
        l.asked(admin),
        flagged_released(
            l.asked(admin).with_milestone(
                milestone_index,
                closed_as(milestone, MilestoneStatus::Released),
            ),
            milestone_index,
        ).yield_reset().paid(job.token, job.freelancer, owed(milestone)).announced(
            Event::AdminOverrideRelease(
                AdminOverrideReleaseEvent {
                    admin,
                    contract_id: l.contract,
                    milestone_index,
                    freelancer: job.freelancer,
                    token: job.token,
                    amount: owed(milestone) as i128,
                },
            ),
        ),
    )
}

/// What `admin_override_refund` makes of the ledger.
pub open spec fn admin_override_refund_step(
    l: Ledger,
    admin: Address,
    milestone_index: u32,
) -> Ledger {
    let job = l.instance.job->0;
    let milestone = l.milestone(milestone_index)->0;
    after(
        admin_override_refusal(l, admin, milestone_index),
        l.asked(admin),
        l.asked(admin).with_milestone(
            milestone_index,
            closed_as(milestone, MilestoneStatus::Refunded),
        ).yield_reset().paid(job.token, job.client, owed(milestone)).announced(
            Event::AdminOverrideRefund(
                AdminOverrideRefundEvent {
                    admin,
                    contract_id: l.contract,
                    milestone_index,
                    client: job.client,
                    token: job.token,
                    amount: owed(milestone) as i128,
                },
            ),
        ),
    )
}

/// What `multisig_admin_override_release` makes of the ledger.
pub open spec fn multisig_admin_override_release_step(
    l: Ledger,
    admin: Address,
    milestone_index: u32,
) -> Ledger {
    let job = l.instance.job->0;
    let milestone = l.milestone(milestone_index)->0;
    after(
        admin_override_refusal(l, admin, milestone_index),
        l.asked(admin),
        flagged_released(
            l.asked(admin).with_milestone(
                milestone_index,
                closed_as(milestone, MilestoneStatus::Released),
            ),
            milestone_index,
        ).with_instance(
            Instance { multisig_locked: Some(false), ..l.instance },
        ).paid(job.token, job.freelancer, owed(milestone)).announced(
            Event::MultisigAdminOverrideRelease(
                MultisigAdminOverrideReleaseEvent {
                    admin,
                    contract_id: l.contract,
                    milestone_index,
                    freelancer: job.freelancer,
                    token: job.token,
                    amount: owed(milestone) as i128,
                },
            ),
        ),
    )
}

/// A multisig refund is for a workflow that is locked.
pub open spec fn multisig_admin_override_refund_refusal(
    l: Ledger,
    admin: Address,
    milestone_index: u32,
) -> Option<Error> {
    if admin_refusal(l, admin) is Some {
        admin_refusal(l, admin)
    } else if !raised(l.instance.multisig_locked) {
        Some(Error::InvalidStatus)
    } else {
        unsettled_refusal(l, milestone_index)
    }
}

/// What `multisig_admin_override_refund` makes of the ledger.
pub open spec fn multisig_admin_override_refund_step(
    l: Ledger,
    admin: Address,
    milestone_index: u32,
) -> Ledger {
    let job = l.instance.job->0;
    let milestone = l.milestone(milestone_index)->0;
    after(
        multisig_admin_override_refund_refusal(l, admin, milestone_index),
        l.asked(admin),
        l.asked(admin).with_milestone(
            milestone_index,
            closed_as(milestone, MilestoneStatus::Refunded),
        ).with_instance(
            Instance { multisig_locked: Some(false), ..l.instance },
        ).paid(job.token, job.client, owed(milestone)).announced(
            Event::MultisigAdminOverrideRefund(
                MultisigAdminOverrideRefundEvent {
                    admin,
                    contract_id: l.contract,
                    milestone_index,
                    client: job.client,
                    token: job.token,
                    amount: owed(milestone) as i128,
                },
            ),
        ),
    )
}

impl MilestoneEscrow {
    /// The job, a milestone of it that is not settled, and what is owed.
    fn unsettled(env: &Env, milestone_index: u32) -> (r: Result<(JobMeta, Milestone, i128), Error>)
        ensures
            r == outcome(
                unsettled_refusal(env@, milestone_index),
                (
                    env@.instance.job->0,
                    env@.milestone(milestone_index)->0,
                    owed(env@.milestone(milestone_index)->0) as i128,
                ),
            ),
    {
        let meta = Self::load_job_meta(env)?;
        if !meta.funded {
            return Err(Error::NotFunded);
        }
        let milestone = Self::job_milestone(env, &meta, milestone_index)?;
        if Self::is_settled(milestone.status) {
            return Err(Error::InvalidStatus);
        }
        let remaining: i128 = Self::balance_of(&milestone)?;
        Ok((meta, milestone, remaining))
    }

    /// Writes a milestone as settled in full.
    pub(crate) fn close_milestone(
        env: &mut Env,
        milestone_index: u32,
        milestone: Milestone,
        status: MilestoneStatus,
    )
        ensures
            final(env)@ == old(env)@.with_milestone(milestone_index, closed_as(milestone, status)),
    {
        let mut milestone = milestone;
        milestone.released_amount = milestone.amount;
        milestone.status = status;
        Self::store_milestone(env, milestone_index, milestone);
    }

    /// The admin releases a milestone to the freelancer.
    pub fn admin_override_release(
        env: &mut Env,
        admin: Address,
        milestone_index: u32,
    ) -> (r: Result<(), Error>)
        ensures
            r == outcome(admin_override_refusal(old(env)@, admin, milestone_index), ()),
            final(env)@ == admin_override_release_step(old(env)@, admin, milestone_index),
    {
        Self::require_admin(env, admin)?;
        let (meta, milestone, remaining) = Self::unsettled(env, milestone_index)?;
        Self::close_milestone(env, milestone_index, milestone, MilestoneStatus::Released);
        env.milestone_released.set(milestone_index, true);
        env.yield_accrued = Some(0);
        env.pay(meta.token, meta.freelancer, remaining);
        let contract_id = env.contract;
        env.publish(
            Event::AdminOverrideRelease(
                AdminOverrideReleaseEvent {
                    admin,
                    contract_id,
                    milestone_index,
                    freelancer: meta.freelancer,
                    token: meta.token,
                    amount: remaining,
                },
            ),
        );
        Ok(())
    }

    /// The admin refunds a milestone to the client.
    pub fn admin_override_refund(
        env: &mut Env,
        admin: Address,
        milestone_index: u32,
    ) -> (r: Result<(), Error>)
        ensures
            r == outcome(admin_override_refusal(old(env)@, admin, milestone_index), ()),
            final(env)@ == admin_override_refund_step(old(env)@, admin, milestone_index),
    {
        Self::require_admin(env, admin)?;
        let (meta, milestone, remaining) = Self::unsettled(env, milestone_index)?;
        Self::close_milestone(env, milestone_index, milestone, MilestoneStatus::Refunded);
        env.yield_accrued = Some(0);
        env.pay(meta.token, meta.client, remaining);
        let contract_id = env.contract;
        env.publish(
            Event::AdminOverrideRefund(
                AdminOverrideRefundEvent {
                    admin,
                    contract_id,
                    milestone_index,
                    client: meta.client,
                    token: meta.token,
                    amount: remaining,
                },
            ),
        );
        Ok(())
    }

    /// The admin releases a milestone to the freelancer and unlocks the
    /// multisig workflow.
    pub fn multisig_admin_override_release(
        env: &mut Env,
        admin: Address,
        milestone_index: u32,
    ) -> (r: Result<(), Error>)
        ensures
            r == outcome(admin_override_refusal(old(env)@, admin, milestone_index), ()),
            final(env)@ == multisig_admin_override_release_step(old(env)@, admin, milestone_index),
    {
        Self::require_admin(env, admin)?;
        let (meta, milestone, remaining) = Self::unsettled(env, milestone_index)?;
        Self::close_milestone(env, milestone_index, milestone, MilestoneStatus::Released);
        env.milestone_released.set(milestone_index, true);
        env.multisig_locked = Some(false);
        env.pay(meta.token, meta.freelancer, remaining);
        let contract_id = env.contract;
        env.publish(
            Event::MultisigAdminOverrideRelease(
                MultisigAdminOverrideReleaseEvent {
                    admin,
                    contract_id,
                    milestone_index,
                    freelancer: meta.freelancer,
                    token: meta.token,
                    amount: remaining,
                },
            ),
        );
        Ok(())
    }

    /// The admin refunds a milestone to the client and unlocks the multisig
    /// workflow, which must be locked.
    pub fn multisig_admin_override_refund(
        env: &mut Env,
        admin: Address,
        milestone_index: u32,
    ) -> (r: Result<(), Error>)
        ensures
            r == outcome(
                multisig_admin_override_refund_refusal(old(env)@, admin, milestone_index),
                (),
            ),
            final(env)@ == multisig_admin_override_refund_step(old(env)@, admin, milestone_index),
    {
        Self::require_admin(env, admin)?;
        if !Self::is_raised(env.multisig_locked) {
            return Err(Error::InvalidStatus);
        }
        let (meta, milestone, remaining) = Self::unsettled(env, milestone_index)?;
        Self::close_milestone(env, milestone_index, milestone, MilestoneStatus::Refunded);
        env.multisig_locked = Some(false);
        env.pay(meta.token, meta.client, remaining);
        let contract_id = env.contract;
        env.publish(
            Event::MultisigAdminOverrideRefund(
                MultisigAdminOverrideRefundEvent {
                    admin,
                    contract_id,
                    milestone_index,
                    client: meta.client,
                    token: meta.token,
                    amount: remaining,
                },
            ),
        );
        Ok(())
    }
}

} // verus!
