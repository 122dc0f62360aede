//! The life of a milestone: delivery, approval, and release by deadline.

use crate::address::{is_zero, Address};
use crate::events::{
    ApprovedEvent, ClaimedEvent, DeadlineExtendedEvent, DeliveredEvent, Event,
};
use crate::guards::{
    after, busy_refusal, cancelling_refusal, either, everyday_refusal, has_balance, outcome, owed,
    suspended_refusal,
};
use crate::ledger::{or_default, raised, Env, Ledger, Persistent, Temporary};
use crate::tables::lookup;
use crate::types::{Error, JobMeta, Milestone, MilestoneEscrow, MilestoneStatus};
use vstd::prelude::*;

verus! {

/// The milestone must be one of the job's, and stored.
pub open spec fn milestone_refusal(l: Ledger, job: JobMeta, index: u32) -> Option<Error> {
    if index >= job.milestone_count || l.milestone(index) is None {
        Some(Error::InvalidMilestone)
    } else {
        None
    }
}

/// Work on this milestone was delivered and is not settled or disputed.
pub open spec fn is_payable(status: MilestoneStatus) -> bool {
    status == MilestoneStatus::Delivered || status == MilestoneStatus::PartiallyReleased
}

// ── delivery ─────────────────────────────────────────────────────────────────

/// What refuses a freelancer's request before the signature is demanded.
pub open spec fn freelancer_gate(l: Ledger, freelancer: Address) -> Option<Error> {
    if everyday_refusal(l) is Some {
        everyday_refusal(l)
    } else if is_zero(freelancer) {
        Some(Error::InvalidAddress)
    } else {
        None
    }
}

/// Why `mark_delivered` is refused, if it is.
pub open spec fn mark_delivered_refusal(
    l: Ledger,
    freelancer: Address,
    milestone_index: u32,
) -> Option<Error> {
    let job = l.instance.job->0;
    let milestone = l.milestone(milestone_index)->0;
    if freelancer_gate(l, freelancer) is Some {
        freelancer_gate(l, freelancer)
    } else if l.instance.job is None {
        Some(Error::NotInitialized)
    } else if job.freelancer != freelancer {
        Some(Error::Unauthorized)
    } else if !job.funded {
        Some(Error::NotFunded)
    } else if milestone_refusal(l, job, milestone_index) is Some {
        milestone_refusal(l, job, milestone_index)
    } else if milestone.amount <= 0 {
        Some(Error::InvalidAmount)
    } else if milestone.status != MilestoneStatus::Pending {
        Some(Error::InvalidStatus)
    } else {
        None
    }
}

/// What `mark_delivered` makes of the ledger.
pub open spec fn mark_delivered_step(
    l: Ledger,
    freelancer: Address,
    milestone_index: u32,
) -> Ledger {
    let job = l.instance.job->0;
    let milestone = l.milestone(milestone_index)->0;
    after(
        mark_delivered_refusal(l, freelancer, milestone_index),
        if freelancer_gate(l, freelancer) is Some {
            l
        } else {
            l.asked(freelancer)
        },
        l.asked(freelancer).with_milestone(
            milestone_index,
            Milestone {
                status: MilestoneStatus::Delivered,
                delivered_at: l.timestamp,
                ..milestone
            },
        ).with_temporary(
            Temporary {
                delivered_at: l.temporary.delivered_at.insert(milestone_index, l.timestamp),
                ..l.temporary
            },
        ).announced(
            Event::Delivered(
                DeliveredEvent {
                    contract_id: l.contract,
                    milestone_index,
                    freelancer: job.freelancer,
                    client: job.client,
                    delivered_at: l.timestamp,
                    status: MilestoneStatus::Delivered,
                    amount: milestone.amount,
                },
            ),
        ),
    )
}

// ── the deadline ─────────────────────────────────────────────────────────────

/// What refuses an extension before the signature is demanded.
pub open spec fn extend_gate(l: Ledger) -> Option<Error> {
    either(suspended_refusal(l), either(cancelling_refusal(l), busy_refusal(l)))
}

/// Why `extend_milestone_deadline` is refused, if it is.
pub open spec fn extend_milestone_deadline_refusal(
    l: Ledger,
    client: Address,
    milestone_index: u32,
    extra_seconds: u64,
) -> Option<Error> {
    let job = l.instance.job->0;
    if extend_gate(l) is Some {
        extend_gate(l)
    } else if l.instance.job is None {
        Some(Error::NotInitialized)
    } else if job.client != client {
        Some(Error::Unauthorized)
    } else if milestone_refusal(l, job, milestone_index) is Some {
        milestone_refusal(l, job, milestone_index)
    } else if !is_payable(l.milestone(milestone_index)->0.status) {
        Some(Error::InvalidStatus)
    } else if extra_seconds == 0 || l.extension(milestone_index) + extra_seconds > u64::MAX {
        Some(Error::InvalidExtension)
    } else {
        None
    }
}

/// What `extend_milestone_deadline` makes of the ledger.
pub open spec fn extend_milestone_deadline_step(
    l: Ledger,
    client: Address,
    milestone_index: u32,
    extra_seconds: u64,
) -> Ledger {
    let new_extension = (l.extension(milestone_index) + extra_seconds) as u64;
    after(
        extend_milestone_deadline_refusal(l, client, milestone_index, extra_seconds),
        if extend_gate(l) is Some {
            l
        } else {
            l.asked(client)
        },
        l.asked(client).with_persistent(
            Persistent {
                time_extensions: l.persistent.time_extensions.insert(
                    milestone_index,
                    new_extension,
                ),
                ..l.persistent
            },
        ).announced(
            Event::DeadlineExtended(
                DeadlineExtendedEvent {
                    contract_id: l.contract,
                    milestone_index,
                    client,
                    extra_seconds,
                    new_extension,
                },
            ),
        ),
    )
}

/// When the milestone was delivered: the short-lived entry where it is still
/// there, what the milestone itself says otherwise.
pub open spec fn delivery_time(l: Ledger, index: u32) -> u64 {
    or_default(lookup(l.temporary.delivered_at, index), l.milestone(index)->0.delivered_at)
}

/// From when on a delivered milestone can be claimed.
pub open spec fn release_time(l: Ledger, index: u32) -> int {
    delivery_time(l, index) + l.instance.job->0.auto_release_seconds + l.extension(index)
}

/// Why `claim_auto_release` is refused, if it is.
pub open spec fn claim_auto_release_refusal(
    l: Ledger,
    freelancer: Address,
    milestone_index: u32,
) -> Option<Error> {
    let job = l.instance.job->0;
    let milestone = l.milestone(milestone_index)->0;
    if freelancer_gate(l, freelancer) is Some {
        freelancer_gate(l, freelancer)
    } else if l.instance.job is None {
        Some(Error::NotInitialized)
    } else if job.freelancer != freelancer {
        Some(Error::Unauthorized)
    } else if milestone_refusal(l, job, milestone_index) is Some {
        milestone_refusal(l, job, milestone_index)
    } else if milestone.status != MilestoneStatus::Delivered {
        Some(Error::InvalidStatus)
    } else if job.auto_release_seconds == 0 || release_time(l, milestone_index) > u64::MAX {
        Some(Error::InvalidAmount)
    } else if l.timestamp < release_time(l, milestone_index) {
        Some(Error::DeadlineNotPassed)
    } else if !has_balance(milestone) {
        Some(Error::InvalidAmount)
    } else {
        None
    }
}

/// What `claim_auto_release` makes of the ledger.
pub open spec fn claim_auto_release_step(
    l: Ledger,
    freelancer: Address,
    milestone_index: u32,
) -> Ledger {
    let job = l.instance.job->0;
    let milestone = l.milestone(milestone_index)->0;
    after(
        claim_auto_release_refusal(l, freelancer, milestone_index),
        if freelancer_gate(l, freelancer) is Some {
            l
        } else {
            l.asked(freelancer)
        },
        l.asked(freelancer).with_milestone(
            milestone_index,
            settled_in_full(milestone),
        ).both_rewarded(
            job,
        ).paid(job.token, job.freelancer, owed(milestone)).announced(
            Event::Claimed(
                ClaimedEvent {
                    contract_id: l.contract,
                    milestone_index,
                    freelancer: job.freelancer,
                    token: job.token,
                    amount: owed(milestone) as i128,
                },
            ),
        ),
    )
}

/// A 64 bit number read as a signed one.
pub open spec fn as_signed(n: int) -> int {
    if n <= i64::MAX {
        n
    } else {
        n - 0x1_0000_0000_0000_0000
    }
}

// ── approval ─────────────────────────────────────────────────────────────────

/// A milestone whose price is paid in full to the freelancer.
pub open spec fn settled_in_full(milestone: Milestone) -> Milestone {
    Milestone {
        released_amount: milestone.amount,
        status: MilestoneStatus::Released,
        ..milestone
    }
}

/// What refuses a partial approval before the signature is demanded.
pub open spec fn approve_partial_gate(l: Ledger, client: Address) -> Option<Error> {
    if everyday_refusal(l) is Some {
        everyday_refusal(l)
    } else if is_zero(client) || client == l.contract {
        Some(Error::InvalidAddress)
    } else {
        None
    }
}

/// What refuses a full approval before the signature is demanded.
pub open spec fn approve_milestone_gate(l: Ledger, client: Address) -> Option<Error> {
    if everyday_refusal(l) is Some {
        everyday_refusal(l)
    } else if is_zero(client) {
        Some(Error::InvalidAddress)
    } else {
        None
    }
}

/// Only the client may approve, once the job is funded.
pub open spec fn client_refusal(l: Ledger, client: Address) -> Option<Error> {
    if l.instance.job is None {
        Some(Error::NotInitialized)
    } else if l.instance.job->0.client != client {
        Some(Error::Unauthorized)
    } else if !l.instance.job->0.funded {
        Some(Error::NotFunded)
    } else {
        None
    }
}

/// Why `approve_partial` is refused, if it is.
pub open spec fn approve_partial_refusal(
    l: Ledger,
    client: Address,
    milestone_index: u32,
    amount: i128,
) -> Option<Error> {
    let milestone = l.milestone(milestone_index)->0;
    if approve_partial_gate(l, client) is Some {
        approve_partial_gate(l, client)
    } else if client_refusal(l, client) is Some {
        client_refusal(l, client)
    } else if milestone_refusal(l, l.instance.job->0, milestone_index) is Some {
        milestone_refusal(l, l.instance.job->0, milestone_index)
    } else if !is_payable(milestone.status) {
        Some(Error::InvalidStatus)
    } else if !(0 < amount <= owed(milestone) <= i128::MAX) {
        Some(Error::InvalidAmount)
    } else {
        None
    }
}

/// A milestone of which `amount` more is paid.
pub open spec fn paid_in_part(milestone: Milestone, amount: int) -> Milestone {
    Milestone {
        released_amount: (milestone.released_amount + amount) as i128,
        status: if amount == owed(milestone) {
            MilestoneStatus::Released
        } else {
            MilestoneStatus::PartiallyReleased
        },
        ..milestone
    }
}

/// What is announced when the client has approved; `milestone` is as it stands
/// after the approval.
pub open spec fn approval(l: Ledger, index: u32, milestone: Milestone) -> Event {
    let job = l.instance.job->0;
    Event::Approved(
        ApprovedEvent {
            contract_id: l.contract,
            milestone_index: index,
            client: job.client,
            freelancer: job.freelancer,
            arbiter: job.arbiter,
            token: job.token,
            amount: milestone.amount,
            released_amount: milestone.released_amount,
            remaining: owed(milestone) as i128,
            status: milestone.status,
            milestone_count: job.milestone_count,
            total_amount: job.total_amount,
            auto_release_seconds: job.auto_release_seconds,
        },
    )
}

/// The milestone at `index` is marked as released, and both parties gain
/// reputation.
pub open spec fn completed(l: Ledger, index: u32, job: JobMeta) -> Ledger {
    l.with_temporary(
        Temporary {
            milestone_released: l.temporary.milestone_released.insert(index, true),
            ..l.temporary
        },
    ).both_rewarded(job)
}

/// What `approve_partial` makes of the ledger.
pub open spec fn approve_partial_step(
    l: Ledger,
    client: Address,
    milestone_index: u32,
    amount: i128,
) -> Ledger {
    let job = l.instance.job->0;
    let milestone = l.milestone(milestone_index)->0;
    let updated = paid_in_part(milestone, amount as int);
    let paid = l.asked(client).paid(job.token, job.freelancer, amount as int);
    after(
        approve_partial_refusal(l, client, milestone_index, amount),
        if approve_partial_gate(l, client) is Some {
            l
        } else {
            l.asked(client)
        },
        (if amount == owed(milestone) {
            completed(paid, milestone_index, job)
            } else {
                paid
        }).with_milestone(milestone_index, updated).announced(
            approval(l, milestone_index, updated),
        ),
    )
}

/// Why `approve_milestone` is refused, if it is.
pub open spec fn approve_milestone_refusal(
    l: Ledger,
    client: Address,
    milestone_index: u32,
) -> Option<Error> {
    let milestone = l.milestone(milestone_index)->0;
    if approve_milestone_gate(l, client) is Some {
        approve_milestone_gate(l, client)
    } else if client_refusal(l, client) is Some {
        client_refusal(l, client)
    } else if milestone_refusal(l, l.instance.job->0, milestone_index) is Some {
        milestone_refusal(l, l.instance.job->0, milestone_index)
    } else if milestone.status != MilestoneStatus::Delivered {
        Some(Error::InvalidStatus)
    } else if !has_balance(milestone) {
        Some(Error::InvalidAmount)
    } else {
        None
    }
}

/// What `approve_milestone` makes of the ledger.
pub open spec fn approve_milestone_step(
    l: Ledger,
    client: Address,
    milestone_index: u32,
) -> Ledger {
    let job = l.instance.job->0;
    let milestone = l.milestone(milestone_index)->0;
    let updated = settled_in_full(milestone);
    after(
        approve_milestone_refusal(l, client, milestone_index),
        if approve_milestone_gate(l, client) is Some {
            l
        } else {
            l.asked(client)
        },
        completed(
            l.asked(client).paid(job.token, job.freelancer, owed(milestone)).with_milestone(
                milestone_index,
                updated,
            ),
            milestone_index,
            job,
        ).announced(approval(l, milestone_index, updated)),
    )
}

impl MilestoneEscrow {
    /// Whether the short-lived note says that the milestone was paid in full: not
    /// where it was never written or has been evicted.
    pub fn is_milestone_released_flag(env: &Env, index: u32) -> (r: bool)
        ensures
            r == raised(lookup(env@.temporary.milestone_released, index)),
    {
        Self::is_raised(env.milestone_released.get(index))
    }

    /// The milestone at `index`, which must be one of the job's.
    pub(crate) fn job_milestone(
        env: &Env,
        meta: &JobMeta,
        index: u32,
    ) -> (r: Result<Milestone, Error>)
        ensures
            r == outcome(milestone_refusal(env@, *meta, index), env@.milestone(index)->0),
    {
        if index >= meta.milestone_count {
            return Err(Error::InvalidMilestone);
        }
        Self::load_milestone(env, index)
    }

    /// The freelancer delivers a milestone, which starts the clock for its
    /// release by deadline.
    pub fn mark_delivered(
        env: &mut Env,
        freelancer: Address,
        milestone_index: u32,
    ) -> (r: Result<(), Error>)
        ensures
            r == outcome(mark_delivered_refusal(old(env)@, freelancer, milestone_index), ()),
            final(env)@ == mark_delivered_step(old(env)@, freelancer, milestone_index),
    {
        Self::assert_open_for_business(env)?;
        if freelancer.is_zero() {
            return Err(Error::InvalidAddress);
        }
        env.require_auth(freelancer);
        let meta = Self::load_job_meta(env)?;
        if meta.freelancer != freelancer {
            return Err(Error::Unauthorized);
        }
        if !meta.funded {
            return Err(Error::NotFunded);
        }
        let mut milestone = Self::job_milestone(env, &meta, milestone_index)?;
        if milestone.amount <= 0 {
            return Err(Error::InvalidAmount);
        }
        if milestone.status != MilestoneStatus::Pending {
            return Err(Error::InvalidStatus);
        }
        let delivered_at: u64 = env.timestamp;
        milestone.status = MilestoneStatus::Delivered;
        milestone.delivered_at = delivered_at;
        Self::store_milestone(env, milestone_index, milestone);
        env.delivered_at.set(milestone_index, delivered_at);
        let contract_id = env.contract;
        env.publish(
            Event::Delivered(
                DeliveredEvent {
                    contract_id,
                    milestone_index,
                    freelancer: meta.freelancer,
                    client: meta.client,
                    delivered_at,
                    status: MilestoneStatus::Delivered,
                    amount: milestone.amount,
                },
            ),
        );
        Ok(())
    }

    /// The client puts off the release of a delivered milestone, unless the escrow
    /// is paused or being cancelled.
    pub fn extend_milestone_deadline(
        env: &mut Env,
        client: Address,
        milestone_index: u32,
        extra_seconds: u64,
    ) -> (r: Result<(), Error>)
        ensures
            r == outcome(
                extend_milestone_deadline_refusal(
                    old(env)@,
                    client,
                    milestone_index,
                    extra_seconds,
                ),
                (),
            ),
            final(env)@ == extend_milestone_deadline_step(
                old(env)@,
                client,
                milestone_index,
                extra_seconds,
            ),
    {
        Self::assert_not_paused(env)?;
        Self::assert_not_cancelling(env)?;
        Self::assert_not_busy(env)?;
        env.require_auth(client);
        let meta = Self::load_job_meta(env)?;
        if meta.client != client {
            return Err(Error::Unauthorized);
        }
        let milestone = Self::job_milestone(env, &meta, milestone_index)?;
        if milestone.status != MilestoneStatus::Delivered && milestone.status
            != MilestoneStatus::PartiallyReleased {
            return Err(Error::InvalidStatus);
        }
        if extra_seconds == 0 {
            return Err(Error::InvalidExtension);
        }
        let current_extension: u64 = Self::load_time_extension(env, milestone_index);
        let new_extension: u64 = match current_extension.checked_add(extra_seconds) {
            Some(new_extension) => new_extension,
            None => {
                return Err(Error::InvalidExtension);
            },
        };
        env.time_extensions.set(milestone_index, new_extension);
        let contract_id = env.contract;
        env.publish(
            Event::DeadlineExtended(
                DeadlineExtendedEvent {
                    contract_id,
                    milestone_index,
                    client,
                    extra_seconds,
                    new_extension,
                },
            ),
        );
        Ok(())
    }

    /// When the milestone was delivered.
    fn delivery_time_of(env: &Env, index: u32, milestone: &Milestone) -> (r: u64)
        requires
            env@.milestone(index) == Some(*milestone),
        ensures
            r == delivery_time(env@, index),
    {
        match env.delivered_at.get(index) {
            Some(timestamp) => timestamp,
            None => milestone.delivered_at,
        }
    }

    /// The freelancer claims a delivered milestone whose deadline has passed.
    pub fn claim_auto_release(
        env: &mut Env,
        freelancer: Address,
        milestone_index: u32,
    ) -> (r: Result<(), Error>)
        requires
            claim_auto_release_refusal(old(env)@, freelancer, milestone_index) is None ==> old(
                env,
            )@.can_reward(old(env)@.instance.job->0),
        ensures
            r == outcome(claim_auto_release_refusal(old(env)@, freelancer, milestone_index), ()),
            final(env)@ == claim_auto_release_step(old(env)@, freelancer, milestone_index),
    {
        Self::assert_open_for_business(env)?;
        if freelancer.is_zero() {
            return Err(Error::InvalidAddress);
        }
        env.require_auth(freelancer);
        let meta = Self::load_job_meta(env)?;
        if meta.freelancer != freelancer {
            return Err(Error::Unauthorized);
        }
        let mut milestone = Self::job_milestone(env, &meta, milestone_index)?;
        if milestone.status != MilestoneStatus::Delivered {
            return Err(Error::InvalidStatus);
        }
        if meta.auto_release_seconds == 0 {
            return Err(Error::InvalidAmount);
        }
        let delivered_at: u64 = Self::delivery_time_of(env, milestone_index, &milestone);
        let extension: u64 = Self::load_time_extension(env, milestone_index);
        let regular: u64 = match delivered_at.checked_add(meta.auto_release_seconds) {
            Some(regular) => regular,
            None => {
                return Err(Error::InvalidAmount);
            },
        };
        let deadline: u64 = match regular.checked_add(extension) {
            Some(deadline) => deadline,
            None => {
                return Err(Error::InvalidAmount);
            },
        };
        if env.timestamp < deadline {
            return Err(Error::DeadlineNotPassed);
        }
        let remaining: i128 = Self::balance_of(&milestone)?;
        milestone.released_amount = milestone.amount;
        milestone.status = MilestoneStatus::Released;
        Self::store_milestone(env, milestone_index, milestone);
        Self::reward_both(env, &meta);
        env.pay(meta.token, meta.freelancer, remaining);
        let contract_id = env.contract;
        env.publish(
            Event::Claimed(
                ClaimedEvent {
                    contract_id,
                    milestone_index,
                    freelancer: meta.freelancer,
                    token: meta.token,
                    amount: remaining,
                },
            ),
        );
        Ok(())
    }

    /// How many seconds are left until a milestone can be claimed; negative
    /// once that time has passed.
    pub fn time_until_auto_release(env: &Env, milestone_index: u32) -> (r: i64)
        requires
            env@.instance.job is Some,
            env@.milestone(milestone_index) is Some,
            release_time(env@, milestone_index) <= u64::MAX,
            i64::MIN <= as_signed(release_time(env@, milestone_index)) - as_signed(
                env@.timestamp as int,
            ) <= i64::MAX,
        ensures
            r == as_signed(release_time(env@, milestone_index)) - as_signed(env@.timestamp as int),
    {
        let mut seconds: u64 = 0;
        if let (Some(meta), Some(milestone)) = (env.job, env.milestones.get(milestone_index)) {
            let delivered_at: u64 = Self::delivery_time_of(env, milestone_index, &milestone);
            let extension: u64 = Self::load_time_extension(env, milestone_index);
            seconds = delivered_at + meta.auto_release_seconds + extension;
        }
        let deadline: u64 = seconds;
        let current: u64 = env.timestamp;
        proof {
            lemma_signed(deadline);
            lemma_signed(current);
        }
        (deadline as i64) - (current as i64)
    }

    /// The client releases a part of a delivered milestone. The milestone is
    /// settled when its whole price is released.
    pub fn approve_partial(
        env: &mut Env,
        client: Address,
        milestone_index: u32,
        amount: i128,
    ) -> (r: Result<(), Error>)
        requires
            approve_partial_refusal(old(env)@, client, milestone_index, amount) is None && amount
                == owed(old(env)@.milestone(milestone_index)->0) ==> old(env)@.can_reward(
                old(env)@.instance.job->0,
            ),
        ensures
            r == outcome(approve_partial_refusal(old(env)@, client, milestone_index, amount), ()),
            final(env)@ == approve_partial_step(old(env)@, client, milestone_index, amount),
    {
        Self::assert_open_for_business(env)?;
        Self::validate_address(env, client)?;
        env.require_auth(client);
        let meta = Self::load_job_meta(env)?;
        if meta.client != client {
            return Err(Error::Unauthorized);
        }
        if !meta.funded {
            return Err(Error::NotFunded);
        }
        let mut milestone = Self::job_milestone(env, &meta, milestone_index)?;
        if milestone.status != MilestoneStatus::Delivered && milestone.status
            != MilestoneStatus::PartiallyReleased {
            return Err(Error::InvalidStatus);
        }
        if amount <= 0 {
            return Err(Error::InvalidAmount);
        }
        let remaining: i128 = Self::balance_of(&milestone)?;
        if amount > remaining {
            return Err(Error::InvalidAmount);
        }
        env.pay(meta.token, meta.freelancer, amount);
        milestone.released_amount = milestone.released_amount + amount;
        if milestone.released_amount == milestone.amount {
            milestone.status = MilestoneStatus::Released;
            env.milestone_released.set(milestone_index, true);
            Self::reward_both(env, &meta);
        } else {
            milestone.status = MilestoneStatus::PartiallyReleased;
        }
        Self::store_milestone(env, milestone_index, milestone);
        Self::publish_approval(env, &meta, milestone_index, &milestone);
        Ok(())
    }

    /// Announces an approval.
    fn publish_approval(env: &mut Env, meta: &JobMeta, milestone_index: u32, milestone: &Milestone)
        requires
            old(env)@.instance.job == Some(*meta),
            i128::MIN <= owed(*milestone) <= i128::MAX,
        ensures
            final(env)@ == old(env)@.announced(approval(old(env)@, milestone_index, *milestone)),
    {
        let contract_id = env.contract;
        env.publish(
            Event::Approved(
                ApprovedEvent {
                    contract_id,
                    milestone_index,
                    client: meta.client,
                    freelancer: meta.freelancer,
                    arbiter: meta.arbiter,
                    token: meta.token,
                    amount: milestone.amount,
                    released_amount: milestone.released_amount,
                    remaining: milestone.amount - milestone.released_amount,
                    status: milestone.status,
                    milestone_count: meta.milestone_count,
                    total_amount: meta.total_amount,
                    auto_release_seconds: meta.auto_release_seconds,
                },
            ),
        );
    }

    /// The client releases all that is owed for a delivered milestone.
    pub fn approve_milestone(
        env: &mut Env,
        client: Address,
        milestone_index: u32,
    ) -> (r: Result<(), Error>)
        requires
            approve_milestone_refusal(old(env)@, client, milestone_index) is None ==> old(
                env,
            )@.can_reward(old(env)@.instance.job->0),
        ensures
            r == outcome(approve_milestone_refusal(old(env)@, client, milestone_index), ()),
            final(env)@ == approve_milestone_step(old(env)@, client, milestone_index),
    {
        Self::assert_open_for_business(env)?;
        if client.is_zero() {
            return Err(Error::InvalidAddress);
        }
        env.require_auth(client);
        let meta = Self::load_job_meta(env)?;
        if meta.client != client {
            return Err(Error::Unauthorized);
        }
        if !meta.funded {
            return Err(Error::NotFunded);
        }
        let mut milestone = Self::job_milestone(env, &meta, milestone_index)?;
        if milestone.status != MilestoneStatus::Delivered {
            return Err(Error::InvalidStatus);
        }
        let remaining: i128 = Self::balance_of(&milestone)?;
        env.pay(meta.token, meta.freelancer, remaining);
        milestone.released_amount = milestone.amount;
        milestone.status = MilestoneStatus::Released;
        Self::store_milestone(env, milestone_index, milestone);
        env.milestone_released.set(milestone_index, true);
        Self::reward_both(env, &meta);
        Self::publish_approval(env, &meta, milestone_index, &milestone);
        Ok(())
    }
}

proof fn lemma_signed(n: u64)
    ensures
        (n as i64) == as_signed(n as int),
{
    assert(n <= 0x7fff_ffff_ffff_ffffu64 ==> (n as i64) == n) by (bit_vector);
    assert(n > 0x7fff_ffff_ffff_ffffu64 ==> (n as i64) == n - 0x1_0000_0000_0000_0000)
        by (bit_vector);
}

} // verus!
