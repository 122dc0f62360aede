//! Cancelling a job, and how the admin settles a cancellation.

use crate::address::{is_zero, Address};
use crate::events::{
    AdminCancelOverrideRefundEvent, AdminCancelOverrideReleaseEvent, CancelEscrowInitiatedEvent,
    Event,
};
use crate::guards::{admin_refusal, after, either, is_terminal, outcome, owed};
use crate::ledger::{raised, Env, Instance, Ledger, Persistent};
use crate::tables::lookup;
use crate::types::{Error, Milestone, MilestoneEscrow, MilestoneStatus};
use vstd::prelude::*;

verus! {

// ── asking for cancellation ──────────────────────────────────────────────────

/// Why `cancel_escrow` is refused, if it is.
pub open spec fn cancel_escrow_refusal(l: Ledger, caller: Address) -> Option<Error> {
    if is_zero(caller) {
        Some(Error::InvalidAddress)
    } else if l.instance.job is None {
        Some(Error::NotInitialized)
    } else if caller != l.instance.job->0.client && caller != l.instance.job->0.freelancer {
        Some(Error::Unauthorized)
    } else if !l.instance.job->0.funded {
        Some(Error::NotFunded)
    } else if l.token_balance <= 0 {
        Some(Error::InvalidAmount)
    } else {
        None
    }
}

/// What `cancel_escrow` makes of the ledger.
pub open spec fn cancel_escrow_step(l: Ledger, caller: Address) -> Ledger {
    after(
        cancel_escrow_refusal(l, caller),
        if is_zero(caller) {
            l
        } else {
            l.asked(caller)
        },
        l.asked(caller).with_instance(Instance { cancel_lock: Some(true), ..l.instance }).announced(
            Event::CancelEscrowInitiated(
                CancelEscrowInitiatedEvent { contract_id: l.contract, caller },
            ),
        ),
    )
}

// ── settling everything at once ──────────────────────────────────────────────

/// A milestone that is not settled and for which something is owed.
pub open spec fn is_open(milestone: Milestone) -> bool {
    !is_terminal(milestone.status) && owed(milestone) > 0
}

/// A milestone that is settled, or for which the amount owed is in range.
spec fn can_be_added(milestone: Milestone) -> bool {
    is_terminal(milestone.status) || i128::MIN <= owed(milestone) <= i128::MAX
}

/// What is owed for the first `n` milestones that are not settled, added up;
/// or what is wrong with the first of them that cannot be added. Where
/// `guarded`, a negative price or a negative released amount is wrong too.
pub open spec fn all_owed(milestones: Map<u32, Milestone>, n: u32, guarded: bool) -> Result<
    int,
    Error,
>
    decreases n,
{
    if n == 0 {
        Ok(0)
    } else {
        match all_owed(milestones, (n - 1) as u32, guarded) {
            Err(error) => Err(error),
            Ok(total) => match lookup(milestones, (n - 1) as u32) {
                None => Err(Error::InvalidMilestone),
                Some(milestone) => if is_terminal(milestone.status) {
                    Ok(total)
                } else if guarded && (milestone.amount < 0 || milestone.released_amount < 0) {
                    Err(Error::InvalidAmount)
                } else if !(i128::MIN <= owed(milestone) <= i128::MAX) {
                    Err(Error::InvalidAmount)
                } else if owed(milestone) <= 0 {
                    Ok(total)
                } else if total + owed(milestone) > i128::MAX {
                    Err(Error::InvalidAmount)
                } else {
                    Ok(total + owed(milestone))
                },
            },
        }
    }
}

/// What is owed for all milestones is not negative and stays in range.
pub proof fn lemma_all_owed_fits(milestones: Map<u32, Milestone>, n: u32, guarded: bool)
    ensures
        all_owed(milestones, n, guarded) matches Ok(total) ==> 0 <= total <= i128::MAX,
    decreases n,
{
    if n > 0 {
        lemma_all_owed_fits(milestones, (n - 1) as u32, guarded);
    }
}

/// A milestone that an override settles in full, for one party or the other.
pub open spec fn closed_as(milestone: Milestone, status: MilestoneStatus) -> Milestone {
    Milestone { released_amount: milestone.amount, status, ..milestone }
}

/// The milestones, the open ones among the first `n` settled.
pub open spec fn all_closed(
    milestones: Map<u32, Milestone>,
    n: u32,
    status: MilestoneStatus,
) -> Map<u32, Milestone> {
    Map::new(
        |i: u32| milestones.contains_key(i),
        |i: u32|
            if i < n && is_open(milestones[i]) {
                closed_as(milestones[i], status)
            } else {
                milestones[i]
            },
    )
}

/// Only a funded job that is being cancelled can be settled, and only where
/// something is owed.
pub open spec fn settling_refusal(l: Ledger, guarded: bool) -> Option<Error> {
    if l.instance.job is None {
        Some(Error::NotInitialized)
    } else if !l.instance.job->0.funded {
        Some(Error::NotFunded)
    } else if !raised(l.instance.cancel_lock) {
        Some(Error::InvalidStatus)
    } else {
        match all_owed(l.persistent.milestones, l.instance.job->0.milestone_count, guarded) {
            Err(error) => Some(error),
            Ok(total) => if total <= 0 {
                Some(Error::InvalidAmount)
            } else {
                None
            },
        }
    }
}

/// Only the admin may settle a cancellation.
pub open spec fn cancel_override_refusal(
    l: Ledger,
    admin: Address,
    guarded: bool,
) -> Option<Error> {
    either(admin_refusal(l, admin), settling_refusal(l, guarded))
}

/// What is owed for all milestones.
pub open spec fn cancel_total(l: Ledger, guarded: bool) -> int {
    all_owed(l.persistent.milestones, l.instance.job->0.milestone_count, guarded)->Ok_0
}

/// Every open milestone is settled, the cancellation is over, and no yield is
/// booked any more.
pub open spec fn cancellation_settled(l: Ledger, status: MilestoneStatus) -> Ledger {
    l.with_persistent(
        Persistent {
            milestones: all_closed(
                l.persistent.milestones,
                l.instance.job->0.milestone_count,
                status,
            ),
            yield_accrued: Some(0),
            ..l.persistent
        },
    ).with_instance(Instance { cancel_lock: Some(false), ..l.instance })
}

/// What `admin_override_cancel_release` makes of the ledger.
pub open spec fn admin_override_cancel_release_step(l: Ledger, admin: Address) -> Ledger {
    let job = l.instance.job->0;
    let total = cancel_total(l, false);
    after(
        cancel_override_refusal(l, admin, false),
        l.asked(admin),
        cancellation_settled(l.asked(admin), MilestoneStatus::Released).paid(
            job.token,
            job.freelancer,
            total,
        ).announced(
            Event::AdminCancelOverrideRelease(
                AdminCancelOverrideReleaseEvent {
                    admin,
                    contract_id: l.contract,
                    freelancer: job.freelancer,
                    token: job.token,
                    total_released: total as i128,
                },
            ),
        ),
    )
}

/// What `admin_override_cancel_refund` makes of the ledger.
pub open spec fn admin_override_cancel_refund_step(l: Ledger, admin: Address) -> Ledger {
    let job = l.instance.job->0;
    let total = cancel_total(l, true);
    after(
        cancel_override_refusal(l, admin, true),
        l.asked_both(admin, admin),
        cancellation_settled(l.asked_both(admin, admin), MilestoneStatus::Refunded).paid(
            job.token,
            job.client,
            total,
        ).announced(
            Event::AdminCancelOverrideRefund(
                AdminCancelOverrideRefundEvent {
                    admin,
                    contract_id: l.contract,
                    client: job.client,
                    token: job.token,
                    total_refunded: total as i128,
                },
            ),
        ),
    )
}

proof fn lemma_all_owed_stays_wrong(milestones: Map<u32, Milestone>, n: u32, m: u32, guarded: bool)
    requires
        n <= m,
        all_owed(milestones, n, guarded) is Err,
    ensures
        all_owed(milestones, m, guarded) == all_owed(milestones, n, guarded),
    decreases m,
{
    if n < m {
        lemma_all_owed_stays_wrong(milestones, n, (m - 1) as u32, guarded);
    }
}

impl MilestoneEscrow {
    /// The client or the freelancer asks for cancellation. The everyday
    /// requests then wait until the admin settles it. No funds move yet.
    pub fn cancel_escrow(env: &mut Env, caller: Address) -> (r: Result<(), Error>)
        ensures
            r == outcome(cancel_escrow_refusal(old(env)@, caller), ()),
            final(env)@ == cancel_escrow_step(old(env)@, caller),
    {
        if caller.is_zero() {
            return Err(Error::InvalidAddress);
        }
        env.require_auth(caller);
        let meta = Self::load_job_meta(env)?;
        if caller != meta.client && caller != meta.freelancer {
            return Err(Error::Unauthorized);
        }
        if !meta.funded {
            return Err(Error::NotFunded);
        }
        if env.token_balance <= 0 {
            return Err(Error::InvalidAmount);
        }
        env.cancel_lock = Some(true);
        let contract_id = env.contract;
        env.publish(
            Event::CancelEscrowInitiated(CancelEscrowInitiatedEvent { contract_id, caller }),
        );
        Ok(())
    }

    /// What is owed for all milestones of the job.
    fn add_all_owed(env: &Env, count: u32, guarded: bool) -> (r: Result<i128, Error>)
        ensures
            r == match all_owed(env@.persistent.milestones, count, guarded) {
                Ok(total) => Ok::<i128, Error>(total as i128),
                Err(error) => Err(error),
            },
            r matches Ok(total) ==> total == all_owed(
                env@.persistent.milestones,
                count,
                guarded,
            )->Ok_0,
    {
        let mut total: i128 = 0;
        let mut index: u32 = 0;
        while index < count
            invariant
                index <= count,
                all_owed(
                    env@.persistent.milestones,
                    index,
                    guarded,
                ) == Ok::<int, Error>(total as int),
                total >= 0,
            decreases count - index,
        {
            proof {
                if all_owed(env@.persistent.milestones, (index + 1) as u32, guarded) is Err {
                    lemma_all_owed_stays_wrong(
                        env@.persistent.milestones,
                        (index + 1) as u32,
                        count,
                        guarded,
                    );
                }
            }
            let milestone = Self::load_milestone(env, index)?;
            if !Self::is_settled(milestone.status) {
                if guarded && (milestone.amount < 0 || milestone.released_amount < 0) {
                    return Err(Error::InvalidAmount);
                }
                let remaining: i128 = match milestone.amount.checked_sub(
                    milestone.released_amount,
                ) {
                    Some(remaining) => remaining,
                    None => {
                        return Err(Error::InvalidAmount);
                    },
                };
                if remaining > 0 {
                    total = match total.checked_add(remaining) {
                        Some(more) => more,
                        None => {
                            return Err(Error::InvalidAmount);
                        },
                    };
                }
            }
            index = index + 1;
        }
        Ok(total)
    }

    /// Settles every open milestone of the job.
    fn close_all(env: &mut Env, count: u32, status: MilestoneStatus)
        requires
            forall|i: u32| i < count ==> #[trigger] old(env)@.persistent.milestones.contains_key(i),
            forall|i: u32|
                i < count ==> can_be_added(#[trigger] old(env)@.persistent.milestones[i]),
        ensures
            final(env)@ == (
                old(env)@.with_persistent(
                    Persistent {
                        milestones: all_closed(old(env)@.persistent.milestones, count, status),
                        ..old(env)@.persistent
                    },
                )
            ),
    {
        let ghost start = env@;
        let mut index: u32 = 0;
        assert(start.persistent.milestones =~= all_closed(start.persistent.milestones, 0, status));
        while index < count
            invariant
                index <= count,
                forall|i: u32| i < count ==> #[trigger] start.persistent.milestones.contains_key(i),
                forall|i: u32|
                    i < count ==> can_be_added(#[trigger] start.persistent.milestones[i]),
                env@ == (
                    start.with_persistent(
                        Persistent {
                            milestones: all_closed(start.persistent.milestones, index, status),
                            ..start.persistent
                        },
                    )
                ),
            decreases count - index,
        {
            assert(start.persistent.milestones.contains_key(index));
            if let Some(milestone) = env.milestones.get(index) {
                assert(milestone == start.persistent.milestones[index]);
                if !Self::is_settled(milestone.status) && milestone.amount
                    - milestone.released_amount > 0 {
                    let mut milestone = milestone;
                    milestone.released_amount = milestone.amount;
                    milestone.status = status;
                    Self::store_milestone(env, index, milestone);
                }
            }
            assert(
                env@.persistent.milestones =~= all_closed(
                    start.persistent.milestones,
                    (index + 1) as u32,
                    status,
                )
            );
            index = index + 1;
        }
    }

    /// Settles a cancellation. The result is what is to be paid out.
    fn settle_cancellation(
        env: &mut Env,
        guarded: bool,
        status: MilestoneStatus,
    ) -> (r: Result<i128, Error>)
        ensures
            r == outcome(settling_refusal(old(env)@, guarded), cancel_total(
                old(env)@,
                guarded,
            ) as i128),
            r matches Ok(total) ==> total == cancel_total(old(env)@, guarded),
            final(env)@ == after(
                settling_refusal(old(env)@, guarded),
                old(env)@,
                cancellation_settled(old(env)@, status),
            ),
    {
        let meta = Self::load_job_meta(env)?;
        if !meta.funded {
            return Err(Error::NotFunded);
        }
        if !Self::is_raised(env.cancel_lock) {
            return Err(Error::InvalidStatus);
        }
        let total: i128 = Self::add_all_owed(env, meta.milestone_count, guarded)?;
        if total <= 0 {
            return Err(Error::InvalidAmount);
        }
        proof {
            assert forall|i: u32| i < meta.milestone_count implies
                #[trigger] env@.persistent.milestones.contains_key(i) by {
                lemma_all_owed_in_range(
                    env@.persistent.milestones,
                    meta.milestone_count,
                    i,
                    guarded,
                );
            }
            assert forall|i: u32| i < meta.milestone_count implies can_be_added(
                #[trigger] env@.persistent.milestones[i],
            ) by {
                lemma_all_owed_in_range(
                    env@.persistent.milestones,
                    meta.milestone_count,
                    i,
                    guarded,
                );
            }
        }
        Self::close_all(env, meta.milestone_count, status);
        env.cancel_lock = Some(false);
        env.yield_accrued = Some(0);
        Ok(total)
    }

    /// The admin settles a cancellation in favour of the freelancer: every open
    /// milestone is released, in one transfer.
    pub fn admin_override_cancel_release(env: &mut Env, admin: Address) -> (r: Result<(), Error>)
        ensures
            r == outcome(cancel_override_refusal(old(env)@, admin, false), ()),
            final(env)@ == admin_override_cancel_release_step(old(env)@, admin),
    {
        Self::require_admin(env, admin)?;
        let total_released: i128 = Self::settle_cancellation(
            env,
            false,
            MilestoneStatus::Released,
        )?;
        let meta = Self::load_job_meta(env)?;
        env.pay(meta.token, meta.freelancer, total_released);
        let contract_id = env.contract;
        env.publish(
            Event::AdminCancelOverrideRelease(
                AdminCancelOverrideReleaseEvent {
                    admin,
                    contract_id,
                    freelancer: meta.freelancer,
                    token: meta.token,
                    total_released,
                },
            ),
        );
        Ok(())
    }

    /// The admin settles a cancellation in favour of the client: every open
    /// milestone is refunded, in one transfer. The admin's signature is
    /// demanded twice. A negative price or released amount is refused.
    pub fn admin_override_cancel_refund(env: &mut Env, admin: Address) -> (r: Result<(), Error>)
        ensures
            r == outcome(cancel_override_refusal(old(env)@, admin, true), ()),
            final(env)@ == admin_override_cancel_refund_step(old(env)@, admin),
    {
        env.require_auth(admin);
        Self::require_admin(env, admin)?;
        let total_refunded: i128 = Self::settle_cancellation(
            env,
            true,
            MilestoneStatus::Refunded,
        )?;
        let meta = Self::load_job_meta(env)?;
        env.pay(meta.token, meta.client, total_refunded);
        let contract_id = env.contract;
        env.publish(
            Event::AdminCancelOverrideRefund(
                AdminCancelOverrideRefundEvent {
                    admin,
                    contract_id,
                    client: meta.client,
                    token: meta.token,
                    total_refunded,
                },
            ),
        );
        Ok(())
    }
}

proof fn lemma_all_owed_in_range(milestones: Map<u32, Milestone>, n: u32, i: u32, guarded: bool)
    requires
        i < n,
        all_owed(milestones, n, guarded) is Ok,
    ensures
        milestones.contains_key(i),
        can_be_added(milestones[i]),
    decreases n,
{
    if i < n - 1 {
        lemma_all_owed_in_range(milestones, (n - 1) as u32, i, guarded);
    }
}

} // verus!
