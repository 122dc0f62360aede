//! Disputes over milestones and how an arbiter settles them.

use crate::address::{is_zero, Address};
use crate::events::{DisputeRaisedEvent, DisputeResolvedEvent, Event};
use crate::guards::{
    after, either, everyday_refusal, frozen_refusal, has_balance, outcome, owed, suspended_refusal,
};
use crate::ledger::{raised, Env, Ledger, Temporary};
use crate::milestones::{completed, milestone_refusal};
use crate::splits::{lemma_refund_conserves, refund_by_bps, refund_refusal};
use crate::tables::lookup;
use crate::types::{
    Error, JobMeta, Milestone, MilestoneEscrow, MilestoneStatus, RefundAllocation,
};
use vstd::prelude::*;

verus! {

// ── raising ──────────────────────────────────────────────────────────────────

/// A milestone in this status can be disputed.
pub open spec fn is_disputable(status: MilestoneStatus) -> bool {
    status == MilestoneStatus::Pending || status == MilestoneStatus::Delivered || status
        == MilestoneStatus::PartiallyReleased
}

/// This is not done while another request holds the milestone's dispute lock.
pub open spec fn contested_refusal(l: Ledger, milestone_index: u32) -> Option<Error> {
    if l.temporary.dispute_lock.contains_key(milestone_index) {
        Some(Error::DisputeAlreadyRaised)
    } else {
        None
    }
}

/// What refuses a dispute before the signature is demanded.
pub open spec fn raise_dispute_gate(
    l: Ledger,
    caller: Address,
    milestone_index: u32,
) -> Option<Error> {
    if suspended_refusal(l) is Some {
        suspended_refusal(l)
    } else if frozen_refusal(l) is Some {
        frozen_refusal(l)
    } else if contested_refusal(l, milestone_index) is Some {
        contested_refusal(l, milestone_index)
    } else if is_zero(caller) {
        Some(Error::InvalidAddress)
    } else {
        None
    }
}

/// Why `raise_dispute` is refused, if it is.
pub open spec fn raise_dispute_refusal(
    l: Ledger,
    caller: Address,
    milestone_index: u32,
) -> Option<Error> {
    let job = l.instance.job->0;
    let milestone = l.milestone(milestone_index)->0;
    if raise_dispute_gate(l, caller, milestone_index) is Some {
        raise_dispute_gate(l, caller, milestone_index)
    } else if l.instance.job is None {
        Some(Error::NotInitialized)
    } else if job.client != caller && job.freelancer != caller {
        Some(Error::Unauthorized)
    } else if !job.funded {
        Some(Error::NotFunded)
    } else if milestone_refusal(l, job, milestone_index) is Some {
        milestone_refusal(l, job, milestone_index)
    } else if milestone.amount <= 0 {
        Some(Error::InvalidAmount)
    } else if !is_disputable(milestone.status) {
        Some(Error::InvalidStatus)
    } else {
        None
    }
}

/// What `raise_dispute` makes of the ledger.
pub open spec fn raise_dispute_step(l: Ledger, caller: Address, milestone_index: u32) -> Ledger {
    let milestone = l.milestone(milestone_index)->0;
    after(
        raise_dispute_refusal(l, caller, milestone_index),
        if raise_dispute_gate(l, caller, milestone_index) is Some {
            l
        } else {
            l.asked(caller)
        },
        l.asked(caller).with_milestone(
            milestone_index,
            Milestone { status: MilestoneStatus::Disputed, ..milestone },
        ).with_temporary(
            Temporary {
                dispute_flag: l.temporary.dispute_flag.insert(milestone_index, true),
                ..l.temporary
            },
        ).announced(Event::DisputeRaised(DisputeRaisedEvent { milestone_index, caller })),
    )
}

// ── settling ─────────────────────────────────────────────────────────────────

/// An arbiter is neither zero nor the contract itself.
pub open spec fn arbiter_address_refusal(l: Ledger, arbiter: Address) -> Option<Error> {
    if is_zero(arbiter) || arbiter == l.contract {
        Some(Error::InvalidAddress)
    } else {
        None
    }
}

/// Only the arbiter may settle, only a disputed milestone of a funded job, and
/// only where something is owed.
pub open spec fn settlement_refusal(
    l: Ledger,
    arbiter: Address,
    milestone_index: u32,
) -> Option<Error> {
    let milestone = l.milestone(milestone_index)->0;
    if l.instance.job is None {
        Some(Error::NotInitialized)
    } else if l.instance.job->0.arbiter != arbiter {
        Some(Error::Unauthorized)
    } else if !l.instance.job->0.funded {
        Some(Error::NotFunded)
    } else if l.milestone(milestone_index) is None {
        Some(Error::InvalidMilestone)
    } else if milestone.status != MilestoneStatus::Disputed {
        Some(Error::InvalidStatus)
    } else if !has_balance(milestone) {
        Some(Error::InvalidAmount)
    } else {
        None
    }
}

/// The smaller of two numbers.
pub open spec fn smaller(a: int, b: int) -> int {
    if a <= b {
        a
    } else {
        b
    }
}

/// What refuses a settlement before the signature is demanded.
pub open spec fn resolve_dispute_gate(l: Ledger, arbiter: Address) -> Option<Error> {
    either(everyday_refusal(l), arbiter_address_refusal(l, arbiter))
}

/// Why `resolve_dispute` is refused, if it is.
pub open spec fn resolve_dispute_refusal(
    l: Ledger,
    arbiter: Address,
    milestone_index: u32,
) -> Option<Error> {
    if resolve_dispute_gate(l, arbiter) is Some {
        resolve_dispute_gate(l, arbiter)
    } else if settlement_refusal(l, arbiter, milestone_index) is Some {
        settlement_refusal(l, arbiter, milestone_index)
    } else if l.token_balance <= 0 {
        Some(Error::InvalidAmount)
    } else {
        None
    }
}

/// What is announced when a dispute is settled.
pub open spec fn resolution(
    l: Ledger,
    milestone_index: u32,
    amount: int,
    paid_amount: int,
    released_to_freelancer: bool,
    status: MilestoneStatus,
) -> Event {
    let job = l.instance.job->0;
    Event::DisputeResolved(
        DisputeResolvedEvent {
            contract_id: l.contract,
            milestone_index,
            arbiter: job.arbiter,
            client: job.client,
            freelancer: job.freelancer,
            token: job.token,
            amount: amount as i128,
            paid_amount: paid_amount as i128,
            released_to_freelancer,
            status,
        },
    )
}

/// What `resolve_dispute` makes of the ledger.
pub open spec fn resolve_dispute_step(
    l: Ledger,
    arbiter: Address,
    milestone_index: u32,
    release_to_freelancer: bool,
) -> Ledger {
    let job = l.instance.job->0;
    let milestone = l.milestone(milestone_index)->0;
    let payout = smaller(owed(milestone), l.token_balance as int);
    after(
        resolve_dispute_refusal(l, arbiter, milestone_index),
        if resolve_dispute_gate(l, arbiter) is Some {
            l
        } else {
            l.asked(arbiter)
        },
        if release_to_freelancer {
            l.asked(arbiter).with_milestone(
                milestone_index,
                Milestone {
                    released_amount: (milestone.released_amount + payout) as i128,
                    status: MilestoneStatus::Released,
                    ..milestone
                },
            ).paid(job.token, job.freelancer, payout).both_rewarded(job).announced(
                resolution(
                    l,
                    milestone_index,
                    owed(milestone),
                    payout,
                    true,
                    MilestoneStatus::Released,
                ),
            )
        } else {
            l.asked(arbiter).with_milestone(
                milestone_index,
                Milestone { status: MilestoneStatus::Refunded, ..milestone },
            ).paid(job.token, job.client, payout).announced(
                resolution(
                    l,
                    milestone_index,
                    owed(milestone),
                    payout,
                    false,
                    MilestoneStatus::Refunded,
                ),
            )
        },
    )
}

/// What refuses an award before the signature is demanded.
pub open spec fn award_gate(l: Ledger, arbiter: Address, milestone_index: u32) -> Option<Error> {
    either(
        frozen_refusal(l),
        either(contested_refusal(l, milestone_index), arbiter_address_refusal(l, arbiter)),
    )
}

/// Why `apply_dispute_arbitration_split` is refused, if it is.
pub open spec fn apply_dispute_arbitration_split_refusal(
    l: Ledger,
    arbiter: Address,
    milestone_index: u32,
    client_refund_bps: u32,
) -> Option<Error> {
    let milestone = l.milestone(milestone_index)->0;
    if award_gate(l, arbiter, milestone_index) is Some {
        award_gate(l, arbiter, milestone_index)
    } else if settlement_refusal(l, arbiter, milestone_index) is Some {
        settlement_refusal(l, arbiter, milestone_index)
    } else if refund_refusal(owed(milestone), client_refund_bps) is Some {
        refund_refusal(owed(milestone), client_refund_bps)
    } else if l.token_balance <= 0 {
        Some(Error::InvalidAmount)
    } else {
        None
    }
}

/// What the contract can pay to the client of `refund`, and to the freelancer
/// of `payout`, out of `balance`: the client is served first.
pub open spec fn capped(refund: int, payout: int, balance: int) -> (int, int) {
    let client = smaller(refund, balance);
    (client, smaller(payout, balance - client))
}

/// What an award comes to.
pub open spec fn award(
    l: Ledger,
    milestone_index: u32,
    client_refund_bps: u32,
) -> RefundAllocation {
    let allocation = refund_by_bps(owed(l.milestone(milestone_index)->0), client_refund_bps);
    let parts = capped(
        allocation.client_refund as int,
        allocation.freelancer_payout as int,
        l.token_balance as int,
    );
    RefundAllocation {
        client_refund: parts.0 as i128,
        freelancer_payout: parts.1 as i128,
        ..allocation
    }
}

/// A disputed milestone that was divided: it counts as released where the
/// freelancer receives anything.
pub open spec fn divided(milestone: Milestone, freelancer_payout: int) -> Milestone {
    Milestone {
        released_amount: (milestone.released_amount + freelancer_payout) as i128,
        status: if freelancer_payout == 0 {
            MilestoneStatus::Refunded
        } else {
            MilestoneStatus::Released
        },
        ..milestone
    }
}

/// The two parties are paid their parts of a milestone, and the milestone is
/// settled.
pub open spec fn divided_up(
    l: Ledger,
    job: JobMeta,
    milestone_index: u32,
    client_refund: int,
    freelancer_payout: int,
) -> Ledger {
    let paid = l.paid_if_positive(job.token, job.client, client_refund).paid_if_positive(
        job.token,
        job.freelancer,
        freelancer_payout,
    );
    (if freelancer_payout == 0 {
        paid
    } else {
        completed(paid, milestone_index, job)
    }).with_milestone(
        milestone_index,
        divided(l.milestone(milestone_index)->0, freelancer_payout),
    )
}

/// What `apply_dispute_arbitration_split` makes of the ledger.
pub open spec fn apply_dispute_arbitration_split_step(
    l: Ledger,
    arbiter: Address,
    milestone_index: u32,
    client_refund_bps: u32,
) -> Ledger {
    let job = l.instance.job->0;
    let milestone = l.milestone(milestone_index)->0;
    let parts = award(l, milestone_index, client_refund_bps);
    after(
        apply_dispute_arbitration_split_refusal(l, arbiter, milestone_index, client_refund_bps),
        if award_gate(l, arbiter, milestone_index) is Some {
            l
        } else {
            l.asked(arbiter)
        },
        divided_up(
            l.asked(arbiter),
            job,
            milestone_index,
            parts.client_refund as int,
            parts.freelancer_payout as int,
        ).with_split_bps(milestone_index, client_refund_bps).announced(
            resolution(
                l,
                milestone_index,
                owed(milestone),
                parts.client_refund + parts.freelancer_payout,
                parts.freelancer_payout > 0,
                divided(milestone, parts.freelancer_payout as int).status,
            ),
        ),
    )
}

impl MilestoneEscrow {
    /// No other request holds the milestone's dispute lock.
    fn assert_not_contested(env: &Env, milestone_index: u32) -> (r: Result<(), Error>)
        ensures
            r == outcome(contested_refusal(env@, milestone_index), ()),
    {
        if env.dispute_lock.get(milestone_index).is_some() {
            return Err(Error::DisputeAlreadyRaised);
        }
        Ok(())
    }

    /// Whether the short-lived note says that the milestone was disputed: not
    /// where it was never written or has been evicted.
    pub fn is_dispute_flag(env: &Env, index: u32) -> (r: bool)
        ensures
            r == raised(lookup(env@.temporary.dispute_flag, index)),
    {
        Self::is_raised(env.dispute_flag.get(index))
    }

    /// The client's share of an award that was applied to the milestone, where
    /// the short-lived note of it is still there.
    pub fn load_arbitration_split_bps(env: &Env, index: u32) -> (r: Option<u32>)
        ensures
            r == lookup(env@.temporary.arbitration_split_bps, index),
    {
        env.arbitration_split_bps.get(index)
    }

    /// Whether the short-lived note says that an award was applied to the
    /// milestone.
    pub fn is_arbitration_split_applied(env: &Env, index: u32) -> (r: bool)
        ensures
            r == env@.temporary.arbitration_split_bps.contains_key(index),
    {
        Self::load_arbitration_split_bps(env, index).is_some()
    }

    /// The caller must be the client or the freelancer, and have signed.
    fn require_dispute_party(env: &mut Env, caller: Address) -> (r: Result<JobMeta, Error>)
        ensures
            r == match old(env)@.instance.job {
                None => Err(Error::NotInitialized),
                Some(job) => if job.client != caller && job.freelancer != caller {
                    Err(Error::Unauthorized)
                } else {
                    Ok(job)
                },
            },
            final(env)@ == old(env)@.asked(caller),
    {
        env.require_auth(caller);
        let meta = Self::load_job_meta(env)?;
        if meta.client != caller && meta.freelancer != caller {
            return Err(Error::Unauthorized);
        }
        Ok(meta)
    }

    /// The client or the freelancer disputes a milestone, which then waits for
    /// a settlement.
    pub fn raise_dispute(
        env: &mut Env,
        caller: Address,
        milestone_index: u32,
    ) -> (r: Result<(), Error>)
        ensures
            r == outcome(raise_dispute_refusal(old(env)@, caller, milestone_index), ()),
            final(env)@ == raise_dispute_step(old(env)@, caller, milestone_index),
    {
        Self::assert_not_paused(env)?;
        Self::ensure_not_paused(env)?;
        Self::assert_not_contested(env, milestone_index)?;
        Self::raise_dispute_inner(env, caller, milestone_index)
    }

    fn raise_dispute_inner(
        env: &mut Env,
        caller: Address,
        milestone_index: u32,
    ) -> (r: Result<(), Error>)
        requires
            raise_dispute_gate(old(env)@, caller, milestone_index) is None || (raise_dispute_gate(
                old(env)@,
                caller,
                milestone_index,
            ) == Some(Error::InvalidAddress) && is_zero(caller)),
        ensures
            r == outcome(raise_dispute_refusal(old(env)@, caller, milestone_index), ()),
            final(env)@ == raise_dispute_step(old(env)@, caller, milestone_index),
    {
        if caller.is_zero() {
            return Err(Error::InvalidAddress);
        }
        let meta = Self::require_dispute_party(env, caller)?;
        if !meta.funded {
            return Err(Error::NotFunded);
        }
        let mut milestone = Self::job_milestone(env, &meta, milestone_index)?;
        if milestone.amount <= 0 {
            return Err(Error::InvalidAmount);
        }
        match milestone.status {
            MilestoneStatus::Pending
            | MilestoneStatus::Delivered
            | MilestoneStatus::PartiallyReleased => {},
            _ => {
                return Err(Error::InvalidStatus);
            },
        }
        milestone.status = MilestoneStatus::Disputed;
        Self::store_milestone(env, milestone_index, milestone);
        env.dispute_flag.set(milestone_index, true);
        env.publish(Event::DisputeRaised(DisputeRaisedEvent { milestone_index, caller }));
        Ok(())
    }

    /// The disputed milestone and the job, where the arbiter may settle it.
    fn settlement(
        env: &Env,
        arbiter: Address,
        milestone_index: u32,
    ) -> (r: Result<(JobMeta, Milestone, i128), Error>)
        ensures
            r == outcome(
                settlement_refusal(env@, arbiter, milestone_index),
                (
                    env@.instance.job->0,
                    env@.milestone(milestone_index)->0,
                    owed(env@.milestone(milestone_index)->0) as i128,
                ),
            ),
    {
        let meta = Self::load_job_meta(env)?;
        if meta.arbiter != arbiter {
            return Err(Error::Unauthorized);
        }
        if !meta.funded {
            return Err(Error::NotFunded);
        }
        let milestone = Self::load_milestone(env, milestone_index)?;
        if milestone.status != MilestoneStatus::Disputed {
            return Err(Error::InvalidStatus);
        }
        let remaining: i128 = Self::balance_of(&milestone)?;
        Ok((meta, milestone, remaining))
    }

    /// Announces that a dispute is settled.
    fn publish_resolution(
        env: &mut Env,
        meta: &JobMeta,
        milestone_index: u32,
        amount: i128,
        paid_amount: i128,
        released_to_freelancer: bool,
        status: MilestoneStatus,
    )
        requires
            old(env)@.instance.job == Some(*meta),
        ensures
            final(env)@ == old(env)@.announced(
                resolution(
                    old(env)@,
                    milestone_index,
                    amount as int,
                    paid_amount as int,
                    released_to_freelancer,
                    status,
                ),
            ),
    {
        let contract_id = env.contract;
        env.publish(
            Event::DisputeResolved(
                DisputeResolvedEvent {
                    contract_id,
                    milestone_index,
                    arbiter: meta.arbiter,
                    client: meta.client,
                    freelancer: meta.freelancer,
                    token: meta.token,
                    amount,
                    paid_amount,
                    released_to_freelancer,
                    status,
                },
            ),
        );
    }

    /// The arbiter awards all that is owed for a disputed milestone to one of
    /// the parties. No more is paid than the contract holds.
    pub fn resolve_dispute(
        env: &mut Env,
        arbiter: Address,
        milestone_index: u32,
        release_to_freelancer: bool,
    ) -> (r: Result<(), Error>)
        requires
            resolve_dispute_refusal(old(env)@, arbiter, milestone_index) is None
                && release_to_freelancer ==> old(env)@.can_reward(old(env)@.instance.job->0),
        ensures
            r == outcome(resolve_dispute_refusal(old(env)@, arbiter, milestone_index), ()),
            final(env)@ == resolve_dispute_step(
                old(env)@,
                arbiter,
                milestone_index,
                release_to_freelancer,
            ),
    {
        Self::assert_open_for_business(env)?;
        Self::validate_address(env, arbiter)?;
        env.require_auth(arbiter);
        let (meta, mut milestone, remaining) = Self::settlement(env, arbiter, milestone_index)?;
        let contract_balance: i128 = env.token_balance;
        if contract_balance <= 0 {
            return Err(Error::InvalidAmount);
        }
        let payout: i128 = if remaining <= contract_balance {
            remaining
        } else {
            contract_balance
        };
        if release_to_freelancer {
            milestone.released_amount = milestone.released_amount + payout;
            milestone.status = MilestoneStatus::Released;
            Self::store_milestone(env, milestone_index, milestone);
            env.pay(meta.token, meta.freelancer, payout);
            Self::reward_both(env, &meta);
        } else {
            milestone.status = MilestoneStatus::Refunded;
            Self::store_milestone(env, milestone_index, milestone);
            env.pay(meta.token, meta.client, payout);
        }
        Self::publish_resolution(
            env,
            &meta,
            milestone_index,
            remaining,
            payout,
            release_to_freelancer,
            milestone.status,
        );
        Ok(())
    }

    /// Pays the two parties their parts of a milestone and settles it.
    pub(crate) fn divide_up(
        env: &mut Env,
        meta: &JobMeta,
        milestone_index: u32,
        milestone: Milestone,
        client_refund: i128,
        freelancer_payout: i128,
    ) -> (r: Milestone)
        requires
            old(env)@.milestone(milestone_index) == Some(milestone),
            milestone.released_amount + freelancer_payout <= i128::MAX,
            freelancer_payout >= 0,
            freelancer_payout != 0 ==> old(env)@.can_reward(*meta),
        ensures
            r == divided(milestone, freelancer_payout as int),
            final(env)@ == divided_up(
                old(env)@,
                *meta,
                milestone_index,
                client_refund as int,
                freelancer_payout as int,
            ),
    {
        let mut milestone = milestone;
        if client_refund > 0 {
            env.pay(meta.token, meta.client, client_refund);
        }
        if freelancer_payout > 0 {
            env.pay(meta.token, meta.freelancer, freelancer_payout);
        }
        milestone.released_amount = milestone.released_amount + freelancer_payout;
        if freelancer_payout == 0 {
            milestone.status = MilestoneStatus::Refunded;
        } else {
            milestone.status = MilestoneStatus::Released;
            env.milestone_released.set(milestone_index, true);
            Self::reward_both(env, meta);
        }
        Self::store_milestone(env, milestone_index, milestone);
        milestone
    }

    /// The smaller of two amounts.
    pub(crate) fn smaller_of(a: i128, b: i128) -> (r: i128)
        ensures
            r == smaller(a as int, b as int),
    {
        if a <= b {
            a
        } else {
            b
        }
    }

    /// The arbiter divides what is owed for a disputed milestone: the client
    /// receives `client_refund_bps` of it, and the freelancer the rest. No more
    /// is paid than the contract holds; the client is served first.
    pub fn apply_dispute_arbitration_split(
        env: &mut Env,
        arbiter: Address,
        milestone_index: u32,
        client_refund_bps: u32,
    ) -> (r: Result<RefundAllocation, Error>)
        requires
            apply_dispute_arbitration_split_refusal(
                old(env)@,
                arbiter,
                milestone_index,
                client_refund_bps,
            ) is None && award(old(env)@, milestone_index, client_refund_bps).freelancer_payout
                != 0 ==> old(env)@.can_reward(old(env)@.instance.job->0),
        ensures
            r == outcome(
                apply_dispute_arbitration_split_refusal(
                    old(env)@,
                    arbiter,
                    milestone_index,
                    client_refund_bps,
                ),
                award(old(env)@, milestone_index, client_refund_bps),
            ),
            final(env)@ == apply_dispute_arbitration_split_step(
                old(env)@,
                arbiter,
                milestone_index,
                client_refund_bps,
            ),
    {
        Self::ensure_not_paused(env)?;
        Self::assert_not_contested(env, milestone_index)?;
        Self::validate_address(env, arbiter)?;
        env.require_auth(arbiter);
        let (meta, milestone, remaining) = Self::settlement(env, arbiter, milestone_index)?;
        let allocation = Self::allocate_refund_by_bps(remaining, client_refund_bps)?;
        proof {
            lemma_refund_conserves(remaining as int, client_refund_bps);
        }
        let contract_balance: i128 = env.token_balance;
        if contract_balance <= 0 {
            return Err(Error::InvalidAmount);
        }
        let client_refund: i128 = Self::smaller_of(allocation.client_refund, contract_balance);
        let freelancer_payout: i128 = Self::smaller_of(
            allocation.freelancer_payout,
            contract_balance - client_refund,
        );
        let settled = Self::divide_up(
            env,
            &meta,
            milestone_index,
            milestone,
            client_refund,
            freelancer_payout,
        );
        env.arbitration_split_bps.set(milestone_index, client_refund_bps);
        Self::publish_resolution(
            env,
            &meta,
            milestone_index,
            remaining,
            client_refund + freelancer_payout,
            freelancer_payout > 0,
            settled.status,
        );
        Ok(
            RefundAllocation {
                client_refund,
                freelancer_payout,
                client_refund_bps: allocation.client_refund_bps,
                freelancer_payout_bps: allocation.freelancer_payout_bps,
            },
        )
    }
}

} // verus!
