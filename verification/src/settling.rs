//! What becomes of a milestone and of the money for it: for each request when it is
//! granted, what each refusal means, what it asks of the host and what it changes.

use crate::address::{is_zero, Address};
use crate::disputes::{
    apply_dispute_arbitration_split_refusal, apply_dispute_arbitration_split_step, award,
    raise_dispute_refusal, raise_dispute_step, resolve_dispute_refusal, resolve_dispute_step,
};
use crate::events::{
    AdminOverrideRefundEvent, AdminOverrideReleaseEvent, AdminOverrideStreamingReleaseEvent,
    ApprovedEvent, ClaimedEvent, DeadlineExtendedEvent, DeliveredEvent, DisputeRaisedEvent,
    DisputeResolvedEvent, Event, MilestoneTimeExtensionEvent, MultisigAdminOverrideRefundEvent,
    MultisigAdminOverrideReleaseEvent,
};
use crate::ledger::{EffectView, Instance, Ledger, Persistent, Temporary};
use crate::milestones::{
    approve_milestone_refusal, approve_milestone_step, approve_partial_refusal,
    approve_partial_step, claim_auto_release_refusal, claim_auto_release_step,
    extend_milestone_deadline_refusal, extend_milestone_deadline_step, mark_delivered_refusal,
    mark_delivered_step,
};
use crate::overrides::{
    admin_override_refund_step, admin_override_refusal, admin_override_release_step,
    multisig_admin_override_refund_refusal, multisig_admin_override_refund_step,
    multisig_admin_override_release_step,
};
use crate::readings::lemma_reputation_is_points;
use crate::reckoning::{lemma_refund_is_the_share, lemma_split_is_to_the_nearest};
use crate::relations::{
    asks, awaits_approval, delivered, follows, has_milestone, kept, one_point_each,
    open_for_business, part_to_the_nearest, payment_if_any, put_off, room_for_points,
    share_rounded_down, something_owed, told, unsettled, up,
};
use crate::splits::{lemma_refund_conserves, lemma_split_conserves, split_at};
use crate::streaming::{
    admin_override_streaming_release_refusal, admin_override_streaming_release_step,
    streaming_release,
};
use crate::types::{Error, Milestone, MilestoneStatus, RefundAllocation};
use vstd::prelude::*;

verus! {

/// A freelancer delivers a pending milestone of a funded job, now.
pub proof fn lemma_delivery(
    l: Ledger,
    freelancer: Address,
    milestone_index: u32,
)
    ensures
        ({
            let job = l.instance.job->0;
            let m = l.persistent.milestones[milestone_index];
            match mark_delivered_refusal(l, freelancer, milestone_index) {
                None => {
                    &&& open_for_business(l)
                    &&& !is_zero(freelancer)
                    &&& l.instance.job is Some
                    &&& job.freelancer == freelancer
                    &&& job.funded
                    &&& has_milestone(l, job, milestone_index)
                    &&& m.amount > 0
                    &&& m.status == MilestoneStatus::Pending
                },
                Some(Error::Paused) => up(l.instance.paused) || up(l.instance.emergency_paused),
                Some(Error::EscrowLocked) => up(l.instance.cancel_lock),
                Some(Error::TaxWithholdingInProgress) => up(l.instance.tax_execution_lock),
                Some(Error::PlatformFeeAllocationInProgress) => up(l.instance.platform_fee_lock),
                Some(Error::EmergencyPauseInProgress) => up(l.instance.emergency_pause_lock),
                Some(Error::InvalidAddress) => is_zero(freelancer),
                Some(Error::NotInitialized) => l.instance.job is None,
                Some(Error::Unauthorized) => job.freelancer != freelancer,
                Some(Error::NotFunded) => !job.funded,
                Some(Error::InvalidMilestone) => !has_milestone(l, job, milestone_index),
                Some(Error::InvalidAmount) => m.amount <= 0,
                Some(Error::InvalidStatus) => m.status != MilestoneStatus::Pending,
                _ => false,
            }
        }),
        mark_delivered_refusal(l, freelancer, milestone_index) is None ==> ({
            let job = l.instance.job->0;
            let m = l.persistent.milestones[milestone_index];
            let next = mark_delivered_step(l, freelancer, milestone_index);
            &&& follows(l, next)
            &&& asks(l, next) == seq![
                EffectView::RequireAuth(freelancer),
                told(
                    Event::Delivered(
                        DeliveredEvent {
                            contract_id: l.contract,
                            milestone_index,
                            freelancer: job.freelancer,
                            client: job.client,
                            delivered_at: l.timestamp,
                            status: MilestoneStatus::Delivered,
                            amount: m.amount,
                        },
                    ),
                ),
            ]
            &&& next.persistent.milestones[milestone_index] == (Milestone {
                amount: m.amount,
                released_amount: m.released_amount,
                status: MilestoneStatus::Delivered,
                delivered_at: l.timestamp,
            })
            &&& next.persistent == (Persistent {
                milestones: l.persistent.milestones.insert(
                    milestone_index,
                    next.persistent.milestones[milestone_index],
                ),
                ..l.persistent
            })
            &&& next.temporary == (Temporary {
                delivered_at: l.temporary.delivered_at.insert(milestone_index, l.timestamp),
                ..l.temporary
            })
            &&& next.instance == l.instance
        }),
        mark_delivered_refusal(l, freelancer, milestone_index) is Some ==> kept(
            l,
            mark_delivered_step(l, freelancer, milestone_index),
        ),
{
}

/// A client puts the release of a delivered milestone off by the extra seconds.
pub proof fn lemma_extension(
    l: Ledger,
    client: Address,
    milestone_index: u32,
    extra_seconds: u64,
)
    ensures
        ({
            let job = l.instance.job->0;
            let m = l.persistent.milestones[milestone_index];
            match extend_milestone_deadline_refusal(
                l,
                client,
                milestone_index,
                extra_seconds,
            ) {
                None => {
                    &&& !up(l.instance.paused)
                    &&& !up(l.instance.cancel_lock)
                    &&& !up(l.instance.tax_execution_lock)
                    &&& !up(l.instance.platform_fee_lock)
                    &&& !up(l.instance.emergency_pause_lock)
                    &&& l.instance.job is Some
                    &&& job.client == client
                    &&& has_milestone(l, job, milestone_index)
                    &&& awaits_approval(m)
                    &&& 0 < extra_seconds
                    &&& put_off(l, milestone_index) + extra_seconds <= u64::MAX
                },
                Some(Error::Paused) => up(l.instance.paused),
                Some(Error::EscrowLocked) => up(l.instance.cancel_lock),
                Some(Error::TaxWithholdingInProgress) => up(l.instance.tax_execution_lock),
                Some(Error::PlatformFeeAllocationInProgress) => up(l.instance.platform_fee_lock),
                Some(Error::EmergencyPauseInProgress) => up(l.instance.emergency_pause_lock),
                Some(Error::NotInitialized) => l.instance.job is None,
                Some(Error::Unauthorized) => job.client != client,
                Some(Error::InvalidMilestone) => !has_milestone(l, job, milestone_index),
                Some(Error::InvalidStatus) => !awaits_approval(m),
                Some(Error::InvalidExtension) => {
                    ||| extra_seconds == 0
                    ||| put_off(l, milestone_index) + extra_seconds > u64::MAX
                },
                _ => false,
            }
        }),
        extend_milestone_deadline_refusal(
            l,
            client,
            milestone_index,
            extra_seconds,
        ) is None ==> ({
            let job = l.instance.job->0;
            let m = l.persistent.milestones[milestone_index];
            let next = extend_milestone_deadline_step(
                l,
                client,
                milestone_index,
                extra_seconds,
            );
            &&& follows(l, next)
            &&& asks(l, next) == seq![
                EffectView::RequireAuth(client),
                told(
                    Event::DeadlineExtended(
                        DeadlineExtendedEvent {
                            contract_id: l.contract,
                            milestone_index,
                            client,
                            extra_seconds,
                            new_extension: (put_off(l, milestone_index) + extra_seconds) as u64,
                        },
                    ),
                ),
            ]
            &&& put_off(next, milestone_index) == put_off(l, milestone_index) + extra_seconds
            &&& next.persistent == (Persistent {
                time_extensions: l.persistent.time_extensions.insert(
                    milestone_index,
                    next.persistent.time_extensions[milestone_index],
                ),
                ..l.persistent
            })
            &&& next.instance == l.instance
            &&& next.temporary == l.temporary
        }),
        extend_milestone_deadline_refusal(
            l,
            client,
            milestone_index,
            extra_seconds,
        ) is Some ==> kept(
            l,
            extend_milestone_deadline_step(
                l,
                client,
                milestone_index,
                extra_seconds,
            ),
        ),
{
}

/// A freelancer claims a delivered milestone once the waiting time of the job and all
/// extensions have passed since its delivery: all that is owed is paid to them, and
/// both parties earn a point.
pub proof fn lemma_claim(
    l: Ledger,
    freelancer: Address,
    milestone_index: u32,
)
    ensures
        ({
            let job = l.instance.job->0;
            let m = l.persistent.milestones[milestone_index];
            let due = delivered(l, milestone_index) + job.auto_release_seconds + put_off(
                l,
                milestone_index,
            );
            match claim_auto_release_refusal(l, freelancer, milestone_index) {
                None => {
                    &&& open_for_business(l)
                    &&& !is_zero(freelancer)
                    &&& l.instance.job is Some
                    &&& job.freelancer == freelancer
                    &&& has_milestone(l, job, milestone_index)
                    &&& m.status == MilestoneStatus::Delivered
                    &&& job.auto_release_seconds > 0
                    &&& due <= l.timestamp
                    &&& something_owed(m)
                },
                Some(Error::Paused) => up(l.instance.paused) || up(l.instance.emergency_paused),
                Some(Error::EscrowLocked) => up(l.instance.cancel_lock),
                Some(Error::TaxWithholdingInProgress) => up(l.instance.tax_execution_lock),
                Some(Error::PlatformFeeAllocationInProgress) => up(l.instance.platform_fee_lock),
                Some(Error::EmergencyPauseInProgress) => up(l.instance.emergency_pause_lock),
                Some(Error::InvalidAddress) => is_zero(freelancer),
                Some(Error::NotInitialized) => l.instance.job is None,
                Some(Error::Unauthorized) => job.freelancer != freelancer,
                Some(Error::InvalidMilestone) => !has_milestone(l, job, milestone_index),
                Some(Error::InvalidStatus) => m.status != MilestoneStatus::Delivered,
                Some(Error::DeadlineNotPassed) => l.timestamp < due,
                Some(Error::InvalidAmount) => {
                    ||| job.auto_release_seconds == 0
                    ||| due > u64::MAX
                    ||| !something_owed(m)
                },
                _ => false,
            }
        }),
        claim_auto_release_refusal(l, freelancer, milestone_index) is None ==> ({
            let job = l.instance.job->0;
            let m = l.persistent.milestones[milestone_index];
            let due = delivered(l, milestone_index) + job.auto_release_seconds + put_off(
                l,
                milestone_index,
            );
            let next = claim_auto_release_step(l, freelancer, milestone_index);
            &&& follows(l, next)
            &&& asks(l, next) == seq![
                EffectView::RequireAuth(freelancer),
                EffectView::Transfer {
                    token: job.token,
                    from: l.contract,
                    to: job.freelancer,
                    amount: (m.amount - m.released_amount) as i128,
                },
                told(
                    Event::Claimed(
                        ClaimedEvent {
                            contract_id: l.contract,
                            milestone_index,
                            freelancer: job.freelancer,
                            token: job.token,
                            amount: (m.amount - m.released_amount) as i128,
                        },
                    ),
                ),
            ]
            &&& next.persistent.milestones[milestone_index] == (Milestone {
                amount: m.amount,
                released_amount: m.amount,
                status: MilestoneStatus::Released,
                delivered_at: m.delivered_at,
            })
            &&& next.persistent == (Persistent {
                milestones: l.persistent.milestones.insert(
                    milestone_index,
                    next.persistent.milestones[milestone_index],
                ),
                reputation: next.persistent.reputation,
                ..l.persistent
            })
            &&& room_for_points(l, job) ==> one_point_each(l, next, job)
            &&& next.instance == l.instance
            &&& next.temporary == l.temporary
        }),
        claim_auto_release_refusal(l, freelancer, milestone_index) is Some ==> kept(
            l,
            claim_auto_release_step(l, freelancer, milestone_index),
        ),
{
}

/// A client releases a part of what is owed for a delivered milestone: that part is
/// paid to the freelancer. The part that completes the price settles the milestone
/// and earns both parties a point; any other does neither.
pub proof fn lemma_partial_approval(
    l: Ledger,
    client: Address,
    milestone_index: u32,
    amount: i128,
)
    ensures
        ({
            let job = l.instance.job->0;
            let m = l.persistent.milestones[milestone_index];
            let released = (m.released_amount + amount) as i128;
            let complete = m.released_amount + amount == m.amount;
            let status = if complete {
                MilestoneStatus::Released
            } else {
                MilestoneStatus::PartiallyReleased
            };
            match approve_partial_refusal(l, client, milestone_index, amount) {
                None => {
                    &&& open_for_business(l)
                    &&& !is_zero(client) && client != l.contract
                    &&& l.instance.job is Some
                    &&& job.client == client
                    &&& job.funded
                    &&& has_milestone(l, job, milestone_index)
                    &&& awaits_approval(m)
                    &&& 0 < amount <= m.amount - m.released_amount <= i128::MAX
                },
                Some(Error::Paused) => up(l.instance.paused) || up(l.instance.emergency_paused),
                Some(Error::EscrowLocked) => up(l.instance.cancel_lock),
                Some(Error::TaxWithholdingInProgress) => up(l.instance.tax_execution_lock),
                Some(Error::PlatformFeeAllocationInProgress) => up(l.instance.platform_fee_lock),
                Some(Error::EmergencyPauseInProgress) => up(l.instance.emergency_pause_lock),
                Some(Error::InvalidAddress) => is_zero(client) || client == l.contract,
                Some(Error::NotInitialized) => l.instance.job is None,
                Some(Error::Unauthorized) => job.client != client,
                Some(Error::NotFunded) => !job.funded,
                Some(Error::InvalidMilestone) => !has_milestone(l, job, milestone_index),
                Some(Error::InvalidStatus) => !awaits_approval(m),
                Some(Error::InvalidAmount) => {
                    !(0 < amount <= m.amount - m.released_amount <= i128::MAX)
                },
                _ => false,
            }
        }),
        approve_partial_refusal(l, client, milestone_index, amount) is None ==> ({
            let job = l.instance.job->0;
            let m = l.persistent.milestones[milestone_index];
            let released = (m.released_amount + amount) as i128;
            let complete = m.released_amount + amount == m.amount;
            let status = if complete {
                MilestoneStatus::Released
            } else {
                MilestoneStatus::PartiallyReleased
            };
            let next = approve_partial_step(l, client, milestone_index, amount);
            &&& follows(l, next)
            &&& asks(l, next) == seq![
                EffectView::RequireAuth(client),
                EffectView::Transfer {
                    token: job.token,
                    from: l.contract,
                    to: job.freelancer,
                    amount: amount,
                },
                told(
                    Event::Approved(
                        ApprovedEvent {
                            contract_id: l.contract,
                            milestone_index,
                            client: job.client,
                            freelancer: job.freelancer,
                            arbiter: job.arbiter,
                            token: job.token,
                            amount: m.amount,
                            released_amount: released,
                            remaining: (m.amount - released) as i128,
                            status,
                            milestone_count: job.milestone_count,
                            total_amount: job.total_amount,
                            auto_release_seconds: job.auto_release_seconds,
                        },
                    ),
                ),
            ]
            &&& next.persistent.milestones[milestone_index] == (Milestone {
                amount: m.amount,
                released_amount: released,
                status,
                delivered_at: m.delivered_at,
            })
            &&& next.persistent == (Persistent {
                milestones: l.persistent.milestones.insert(
                    milestone_index,
                    next.persistent.milestones[milestone_index],
                ),
                reputation: next.persistent.reputation,
                ..l.persistent
            })
            &&& complete ==> (room_for_points(l, job) ==> one_point_each(l, next, job))
            &&& !complete ==> next.persistent.reputation == l.persistent.reputation
            &&& next.temporary.milestone_released == if complete {
                l.temporary.milestone_released.insert(milestone_index, true)
            } else {
                l.temporary.milestone_released
            }
            &&& next.temporary == (Temporary {
                milestone_released: next.temporary.milestone_released,
                ..l.temporary
            })
            &&& next.instance == l.instance
        }),
        approve_partial_refusal(l, client, milestone_index, amount) is Some ==> kept(
            l,
            approve_partial_step(l, client, milestone_index, amount),
        ),
{
}

/// A client approves a delivered milestone: all that is owed is paid to the
/// freelancer, and both parties earn a point.
pub proof fn lemma_full_approval(
    l: Ledger,
    client: Address,
    milestone_index: u32,
)
    ensures
        ({
            let job = l.instance.job->0;
            let m = l.persistent.milestones[milestone_index];
            match approve_milestone_refusal(l, client, milestone_index) {
                None => {
                    &&& open_for_business(l)
                    &&& !is_zero(client)
                    &&& l.instance.job is Some
                    &&& job.client == client
                    &&& job.funded
                    &&& has_milestone(l, job, milestone_index)
                    &&& m.status == MilestoneStatus::Delivered
                    &&& something_owed(m)
                },
                Some(Error::Paused) => up(l.instance.paused) || up(l.instance.emergency_paused),
                Some(Error::EscrowLocked) => up(l.instance.cancel_lock),
                Some(Error::TaxWithholdingInProgress) => up(l.instance.tax_execution_lock),
                Some(Error::PlatformFeeAllocationInProgress) => up(l.instance.platform_fee_lock),
                Some(Error::EmergencyPauseInProgress) => up(l.instance.emergency_pause_lock),
                Some(Error::InvalidAddress) => is_zero(client),
                Some(Error::NotInitialized) => l.instance.job is None,
                Some(Error::Unauthorized) => job.client != client,
                Some(Error::NotFunded) => !job.funded,
                Some(Error::InvalidMilestone) => !has_milestone(l, job, milestone_index),
                Some(Error::InvalidStatus) => m.status != MilestoneStatus::Delivered,
                Some(Error::InvalidAmount) => !something_owed(m),
                _ => false,
            }
        }),
        approve_milestone_refusal(l, client, milestone_index) is None ==> ({
            let job = l.instance.job->0;
            let m = l.persistent.milestones[milestone_index];
            let next = approve_milestone_step(l, client, milestone_index);
            &&& follows(l, next)
            &&& asks(l, next) == seq![
                EffectView::RequireAuth(client),
                EffectView::Transfer {
                    token: job.token,
                    from: l.contract,
                    to: job.freelancer,
                    amount: (m.amount - m.released_amount) as i128,
                },
                told(
                    Event::Approved(
                        ApprovedEvent {
                            contract_id: l.contract,
                            milestone_index,
                            client: job.client,
                            freelancer: job.freelancer,
                            arbiter: job.arbiter,
                            token: job.token,
                            amount: m.amount,
                            released_amount: m.amount,
                            remaining: (m.amount - m.amount) as i128,
                            status: MilestoneStatus::Released,
                            milestone_count: job.milestone_count,
                            total_amount: job.total_amount,
                            auto_release_seconds: job.auto_release_seconds,
                        },
                    ),
                ),
            ]
            &&& next.persistent.milestones[milestone_index] == (Milestone {
                amount: m.amount,
                released_amount: m.amount,
                status: MilestoneStatus::Released,
                delivered_at: m.delivered_at,
            })
            &&& next.persistent == (Persistent {
                milestones: l.persistent.milestones.insert(
                    milestone_index,
                    next.persistent.milestones[milestone_index],
                ),
                reputation: next.persistent.reputation,
                ..l.persistent
            })
            &&& room_for_points(l, job) ==> one_point_each(l, next, job)
            &&& next.temporary == (Temporary {
                milestone_released: l.temporary.milestone_released.insert(milestone_index, true),
                ..l.temporary
            })
            &&& next.instance == l.instance
        }),
        approve_milestone_refusal(l, client, milestone_index) is Some ==> kept(
            l,
            approve_milestone_step(l, client, milestone_index),
        ),
{
}

/// A party disputes a milestone that is not settled; nothing is paid.
pub proof fn lemma_dispute(
    l: Ledger,
    caller: Address,
    milestone_index: u32,
)
    ensures
        ({
            let job = l.instance.job->0;
            let m = l.persistent.milestones[milestone_index];
            match raise_dispute_refusal(l, caller, milestone_index) {
                None => {
                    &&& !up(l.instance.paused)
                    &&& !up(l.instance.emergency_paused)
                    &&& !up(l.instance.cancel_lock)
                    &&& !l.temporary.dispute_lock.contains_key(milestone_index)
                    &&& !is_zero(caller)
                    &&& l.instance.job is Some
                    &&& caller == job.client || caller == job.freelancer
                    &&& job.funded
                    &&& has_milestone(l, job, milestone_index)
                    &&& m.amount > 0
                    &&& unsettled(m) && m.status != MilestoneStatus::Disputed
                },
                Some(Error::Paused) => up(l.instance.paused) || up(l.instance.emergency_paused),
                Some(Error::EscrowLocked) => up(l.instance.cancel_lock),
                Some(Error::DisputeAlreadyRaised) => {
                    l.temporary.dispute_lock.contains_key(milestone_index)
                },
                Some(Error::InvalidAddress) => is_zero(caller),
                Some(Error::NotInitialized) => l.instance.job is None,
                Some(Error::Unauthorized) => caller != job.client && caller != job.freelancer,
                Some(Error::NotFunded) => !job.funded,
                Some(Error::InvalidMilestone) => !has_milestone(l, job, milestone_index),
                Some(Error::InvalidAmount) => m.amount <= 0,
                Some(Error::InvalidStatus) => {
                    ||| m.status == MilestoneStatus::Disputed
                    ||| !unsettled(m)
                },
                _ => false,
            }
        }),
        raise_dispute_refusal(l, caller, milestone_index) is None ==> ({
            let job = l.instance.job->0;
            let m = l.persistent.milestones[milestone_index];
            let next = raise_dispute_step(l, caller, milestone_index);
            &&& follows(l, next)
            &&& asks(l, next) == seq![
                EffectView::RequireAuth(caller),
                told(
                    Event::DisputeRaised(
                        DisputeRaisedEvent {
                            milestone_index,
                            caller,
                        },
                    ),
                ),
            ]
            &&& next.persistent.milestones[milestone_index] == (Milestone {
                amount: m.amount,
                released_amount: m.released_amount,
                status: MilestoneStatus::Disputed,
                delivered_at: m.delivered_at,
            })
            &&& next.persistent == (Persistent {
                milestones: l.persistent.milestones.insert(
                    milestone_index,
                    next.persistent.milestones[milestone_index],
                ),
                ..l.persistent
            })
            &&& next.temporary == (Temporary {
                dispute_flag: l.temporary.dispute_flag.insert(milestone_index, true),
                ..l.temporary
            })
            &&& next.instance == l.instance
        }),
        raise_dispute_refusal(l, caller, milestone_index) is Some ==> kept(
            l,
            raise_dispute_step(l, caller, milestone_index),
        ),
{
}

/// The arbiter settles a disputed milestone for one party: that party alone is paid, all
/// that is owed or, where the contract holds less, all that it holds. Only a release
/// counts as released and earns both parties a point.
pub proof fn lemma_resolution(
    l: Ledger,
    arbiter: Address,
    milestone_index: u32,
    release_to_freelancer: bool,
)
    ensures
        ({
            let job = l.instance.job->0;
            let m = l.persistent.milestones[milestone_index];
            let paid = if l.token_balance < m.amount - m.released_amount {
                l.token_balance
            } else {
                (m.amount - m.released_amount) as i128
            };
            let status = if release_to_freelancer {
                MilestoneStatus::Released
            } else {
                MilestoneStatus::Refunded
            };
            match resolve_dispute_refusal(l, arbiter, milestone_index) {
                None => {
                    &&& open_for_business(l)
                    &&& !is_zero(arbiter) && arbiter != l.contract
                    &&& l.instance.job is Some
                    &&& job.arbiter == arbiter
                    &&& job.funded
                    &&& l.persistent.milestones.contains_key(milestone_index)
                    &&& m.status == MilestoneStatus::Disputed
                    &&& something_owed(m)
                    &&& l.token_balance > 0
                },
                Some(Error::Paused) => up(l.instance.paused) || up(l.instance.emergency_paused),
                Some(Error::EscrowLocked) => up(l.instance.cancel_lock),
                Some(Error::TaxWithholdingInProgress) => up(l.instance.tax_execution_lock),
                Some(Error::PlatformFeeAllocationInProgress) => up(l.instance.platform_fee_lock),
                Some(Error::EmergencyPauseInProgress) => up(l.instance.emergency_pause_lock),
                Some(Error::InvalidAddress) => is_zero(arbiter) || arbiter == l.contract,
                Some(Error::NotInitialized) => l.instance.job is None,
                Some(Error::Unauthorized) => job.arbiter != arbiter,
                Some(Error::NotFunded) => !job.funded,
                Some(Error::InvalidMilestone) => {
                    !l.persistent.milestones.contains_key(milestone_index)
                },
                Some(Error::InvalidStatus) => m.status != MilestoneStatus::Disputed,
                Some(Error::InvalidAmount) => !something_owed(m) || l.token_balance <= 0,
                _ => false,
            }
        }),
        resolve_dispute_refusal(l, arbiter, milestone_index) is None ==> ({
            let job = l.instance.job->0;
            let m = l.persistent.milestones[milestone_index];
            let paid = if l.token_balance < m.amount - m.released_amount {
                l.token_balance
            } else {
                (m.amount - m.released_amount) as i128
            };
            let status = if release_to_freelancer {
                MilestoneStatus::Released
            } else {
                MilestoneStatus::Refunded
            };
            let next = resolve_dispute_step(
                l,
                arbiter,
                milestone_index,
                release_to_freelancer,
            );
            &&& follows(l, next)
            &&& asks(l, next) == seq![
                EffectView::RequireAuth(arbiter),
                EffectView::Transfer {
                    token: job.token,
                    from: l.contract,
                    to: if release_to_freelancer {
                        job.freelancer
                    } else {
                        job.client
                    },
                    amount: paid,
                },
                told(
                    Event::DisputeResolved(
                        DisputeResolvedEvent {
                            contract_id: l.contract,
                            milestone_index,
                            arbiter: job.arbiter,
                            client: job.client,
                            freelancer: job.freelancer,
                            token: job.token,
                            amount: (m.amount - m.released_amount) as i128,
                            paid_amount: paid,
                            released_to_freelancer: release_to_freelancer,
                            status,
                        },
                    ),
                ),
            ]
            &&& l.token_balance >= m.amount - m.released_amount ==> paid == m.amount
                - m.released_amount
            &&& l.token_balance < m.amount - m.released_amount ==> paid == l.token_balance
            &&& next.persistent.milestones[milestone_index] == (Milestone {
                amount: m.amount,
                released_amount: if release_to_freelancer {
                    (m.released_amount + paid) as i128
                } else {
                    m.released_amount
                },
                status,
                delivered_at: m.delivered_at,
            })
            &&& next.persistent == (Persistent {
                milestones: l.persistent.milestones.insert(
                    milestone_index,
                    next.persistent.milestones[milestone_index],
                ),
                reputation: next.persistent.reputation,
                ..l.persistent
            })
            &&& release_to_freelancer ==> (room_for_points(l, job) ==> one_point_each(l, next, job))
            &&& !release_to_freelancer ==> next.persistent.reputation == l.persistent.reputation
            &&& next.instance == l.instance
            &&& next.temporary == l.temporary
        }),
        resolve_dispute_refusal(l, arbiter, milestone_index) is Some ==> kept(
            l,
            resolve_dispute_step(
                l,
                arbiter,
                milestone_index,
                release_to_freelancer,
            ),
        ),
{
}

/// The arbiter divides what is owed for a disputed milestone: the client is owed the
/// given share of it, rounded down, and the freelancer the rest. Where the contract
/// holds less the client is served first. The milestone counts as released where the
/// freelancer receives anything, and only then both parties earn a point.
pub proof fn lemma_award(
    l: Ledger,
    arbiter: Address,
    milestone_index: u32,
    client_refund_bps: u32,
)
    ensures
        ({
            let job = l.instance.job->0;
            let m = l.persistent.milestones[milestone_index];
            let owing = m.amount - m.released_amount;
            let to_client = award(l, milestone_index, client_refund_bps).client_refund;
            let to_freelancer = award(l, milestone_index, client_refund_bps).freelancer_payout;
            match apply_dispute_arbitration_split_refusal(
                l,
                arbiter,
                milestone_index,
                client_refund_bps,
            ) {
                None => {
                    &&& !up(l.instance.emergency_paused)
                    &&& !up(l.instance.cancel_lock)
                    &&& !l.temporary.dispute_lock.contains_key(milestone_index)
                    &&& !is_zero(arbiter) && arbiter != l.contract
                    &&& l.instance.job is Some
                    &&& job.arbiter == arbiter
                    &&& job.funded
                    &&& l.persistent.milestones.contains_key(milestone_index)
                    &&& m.status == MilestoneStatus::Disputed
                    &&& something_owed(m)
                    &&& l.token_balance > 0
                    &&& client_refund_bps <= 10_000
                    &&& (m.amount - m.released_amount) * client_refund_bps <= i128::MAX
                },
                Some(Error::Paused) => up(l.instance.emergency_paused),
                Some(Error::EscrowLocked) => up(l.instance.cancel_lock),
                Some(Error::DisputeAlreadyRaised) => {
                    l.temporary.dispute_lock.contains_key(milestone_index)
                },
                Some(Error::InvalidAddress) => is_zero(arbiter) || arbiter == l.contract,
                Some(Error::NotInitialized) => l.instance.job is None,
                Some(Error::Unauthorized) => job.arbiter != arbiter,
                Some(Error::NotFunded) => !job.funded,
                Some(Error::InvalidMilestone) => {
                    !l.persistent.milestones.contains_key(milestone_index)
                },
                Some(Error::InvalidStatus) => m.status != MilestoneStatus::Disputed,
                Some(Error::InvalidRatio) => client_refund_bps > 10_000,
                Some(Error::InvalidAmount) => {
                    ||| !something_owed(m)
                    ||| l.token_balance <= 0
                    ||| (m.amount - m.released_amount) * client_refund_bps > i128::MAX
                },
                _ => false,
            }
        }),
        apply_dispute_arbitration_split_refusal(
            l,
            arbiter,
            milestone_index,
            client_refund_bps,
        ) is None ==> ({
            let job = l.instance.job->0;
            let m = l.persistent.milestones[milestone_index];
            let owing = m.amount - m.released_amount;
            let to_client = award(l, milestone_index, client_refund_bps).client_refund;
            let to_freelancer = award(l, milestone_index, client_refund_bps).freelancer_payout;
            let next = apply_dispute_arbitration_split_step(
                l,
                arbiter,
                milestone_index,
                client_refund_bps,
            );
            &&& follows(l, next)
            &&& award(l, milestone_index, client_refund_bps) == (RefundAllocation {
                client_refund: to_client,
                freelancer_payout: to_freelancer,
                client_refund_bps,
                freelancer_payout_bps: (10_000 - client_refund_bps) as u32,
            })
            &&& l.token_balance >= owing ==> share_rounded_down(
                to_client as int,
                owing,
                client_refund_bps as int,
            )
            &&& to_client >= 0 && to_freelancer >= 0
            &&& l.token_balance >= owing ==> to_client + to_freelancer == owing
            &&& l.token_balance < owing ==> to_client + to_freelancer == l.token_balance
            &&& to_client * 10_000 <= owing * client_refund_bps
            &&& l.token_balance < owing ==> (to_freelancer == 0 || share_rounded_down(
                to_client as int,
                owing,
                client_refund_bps as int,
            ))
            &&& asks(l, next) == seq![EffectView::RequireAuth(arbiter)] + payment_if_any(
                l,
                job.client,
                to_client,
            ) + payment_if_any(
                l,
                job.freelancer,
                to_freelancer,
            ) + seq![
                told(
                    Event::DisputeResolved(
                        DisputeResolvedEvent {
                            contract_id: l.contract,
                            milestone_index,
                            arbiter: job.arbiter,
                            client: job.client,
                            freelancer: job.freelancer,
                            token: job.token,
                            amount: (m.amount - m.released_amount) as i128,
                            paid_amount: (to_client + to_freelancer) as i128,
                            released_to_freelancer: to_freelancer > 0,
                            status: next.persistent.milestones[milestone_index].status,
                        },
                    ),
                ),
            ]
            &&& next.persistent.milestones[milestone_index] == (Milestone {
                amount: m.amount,
                released_amount: (m.released_amount + to_freelancer) as i128,
                status: if to_freelancer == 0 {
                    MilestoneStatus::Refunded
                } else {
                    MilestoneStatus::Released
                },
                delivered_at: m.delivered_at,
            })
            &&& next.persistent == (Persistent {
                milestones: l.persistent.milestones.insert(
                    milestone_index,
                    next.persistent.milestones[milestone_index],
                ),
                reputation: next.persistent.reputation,
                ..l.persistent
            })
            &&& to_freelancer != 0 ==> (room_for_points(l, job) ==> one_point_each(l, next, job))
            &&& to_freelancer == 0 ==> next.persistent.reputation == l.persistent.reputation
            &&& next.temporary.milestone_released == if to_freelancer == 0 {
                l.temporary.milestone_released
            } else {
                l.temporary.milestone_released.insert(milestone_index, true)
            }
            &&& next.instance == l.instance
            &&& next.temporary == (Temporary {
                milestone_released: next.temporary.milestone_released,
                arbitration_split_bps: l.temporary.arbitration_split_bps.insert(
                    milestone_index,
                    client_refund_bps,
                ),
                ..l.temporary
            })
        }),
        apply_dispute_arbitration_split_refusal(
            l,
            arbiter,
            milestone_index,
            client_refund_bps,
        ) is Some ==> kept(
            l,
            apply_dispute_arbitration_split_step(
                l,
                arbiter,
                milestone_index,
                client_refund_bps,
            ),
        ),
{
    let m = l.persistent.milestones[milestone_index];
    let owing = m.amount - m.released_amount;
    if apply_dispute_arbitration_split_refusal(l, arbiter, milestone_index, client_refund_bps)
        is None {
        lemma_refund_is_the_share(owing, client_refund_bps);
        lemma_refund_conserves(owing, client_refund_bps);
    }
}

/// The admin releases a milestone that is not settled: all that is owed is paid to the
/// freelancer, and no yield is booked any more.
pub proof fn lemma_release_override(
    l: Ledger,
    admin: Address,
    milestone_index: u32,
)
    ensures
        ({
            let job = l.instance.job->0;
            let m = l.persistent.milestones[milestone_index];
            match admin_override_refusal(l, admin, milestone_index) {
                None => {
                    &&& l.persistent.admin == Some(admin)
                    &&& l.instance.job is Some
                    &&& job.funded
                    &&& has_milestone(l, job, milestone_index)
                    &&& unsettled(m)
                    &&& something_owed(m)
                },
                Some(Error::NotInitialized) => l.persistent.admin is None || l.instance.job is None,
                Some(Error::Unauthorized) => {
                    l.persistent.admin is Some && l.persistent.admin != Some(admin)
                },
                Some(Error::NotFunded) => !job.funded,
                Some(Error::InvalidMilestone) => !has_milestone(l, job, milestone_index),
                Some(Error::InvalidStatus) => !unsettled(m),
                Some(Error::InvalidAmount) => !something_owed(m),
                _ => false,
            }
        }),
        admin_override_refusal(l, admin, milestone_index) is None ==> ({
            let job = l.instance.job->0;
            let m = l.persistent.milestones[milestone_index];
            let next = admin_override_release_step(l, admin, milestone_index);
            &&& follows(l, next)
            &&& asks(l, next) == seq![
                EffectView::RequireAuth(admin),
                EffectView::Transfer {
                    token: job.token,
                    from: l.contract,
                    to: job.freelancer,
                    amount: (m.amount - m.released_amount) as i128,
                },
                told(
                    Event::AdminOverrideRelease(
                        AdminOverrideReleaseEvent {
                            admin,
                            contract_id: l.contract,
                            milestone_index,
                            freelancer: job.freelancer,
                            token: job.token,
                            amount: (m.amount - m.released_amount) as i128,
                        },
                    ),
                ),
            ]
            &&& next.persistent.milestones[milestone_index] == (Milestone {
                amount: m.amount,
                released_amount: m.amount,
                status: MilestoneStatus::Released,
                delivered_at: m.delivered_at,
            })
            &&& next.persistent == (Persistent {
                milestones: l.persistent.milestones.insert(
                    milestone_index,
                    next.persistent.milestones[milestone_index],
                ),
                yield_accrued: Some(0),
                ..l.persistent
            })
            &&& next.temporary == (Temporary {
                milestone_released: l.temporary.milestone_released.insert(milestone_index, true),
                ..l.temporary
            })
            &&& next.instance == l.instance
        }),
        admin_override_refusal(l, admin, milestone_index) is Some ==> kept(
            l,
            admin_override_release_step(l, admin, milestone_index),
        ),
{
}

/// The admin refunds a milestone that is not settled: all that is owed is paid to the
/// client, and no yield is booked any more.
pub proof fn lemma_refund_override(
    l: Ledger,
    admin: Address,
    milestone_index: u32,
)
    ensures
        ({
            let job = l.instance.job->0;
            let m = l.persistent.milestones[milestone_index];
            match admin_override_refusal(l, admin, milestone_index) {
                None => {
                    &&& l.persistent.admin == Some(admin)
                    &&& l.instance.job is Some
                    &&& job.funded
                    &&& has_milestone(l, job, milestone_index)
                    &&& unsettled(m)
                    &&& something_owed(m)
                },
                Some(Error::NotInitialized) => l.persistent.admin is None || l.instance.job is None,
                Some(Error::Unauthorized) => {
                    l.persistent.admin is Some && l.persistent.admin != Some(admin)
                },
                Some(Error::NotFunded) => !job.funded,
                Some(Error::InvalidMilestone) => !has_milestone(l, job, milestone_index),
                Some(Error::InvalidStatus) => !unsettled(m),
                Some(Error::InvalidAmount) => !something_owed(m),
                _ => false,
            }
        }),
        admin_override_refusal(l, admin, milestone_index) is None ==> ({
            let job = l.instance.job->0;
            let m = l.persistent.milestones[milestone_index];
            let next = admin_override_refund_step(l, admin, milestone_index);
            &&& follows(l, next)
            &&& asks(l, next) == seq![
                EffectView::RequireAuth(admin),
                EffectView::Transfer {
                    token: job.token,
                    from: l.contract,
                    to: job.client,
                    amount: (m.amount - m.released_amount) as i128,
                },
                told(
                    Event::AdminOverrideRefund(
                        AdminOverrideRefundEvent {
                            admin,
                            contract_id: l.contract,
                            milestone_index,
                            client: job.client,
                            token: job.token,
                            amount: (m.amount - m.released_amount) as i128,
                        },
                    ),
                ),
            ]
            &&& next.persistent.milestones[milestone_index] == (Milestone {
                amount: m.amount,
                released_amount: m.amount,
                status: MilestoneStatus::Refunded,
                delivered_at: m.delivered_at,
            })
            &&& next.persistent == (Persistent {
                milestones: l.persistent.milestones.insert(
                    milestone_index,
                    next.persistent.milestones[milestone_index],
                ),
                yield_accrued: Some(0),
                ..l.persistent
            })
            &&& next.instance == l.instance
            &&& next.temporary == l.temporary
        }),
        admin_override_refusal(l, admin, milestone_index) is Some ==> kept(
            l,
            admin_override_refund_step(l, admin, milestone_index),
        ),
{
}

/// The admin releases a milestone and ends the lock of the approvals.
pub proof fn lemma_multisig_release_override(
    l: Ledger,
    admin: Address,
    milestone_index: u32,
)
    ensures
        ({
            let job = l.instance.job->0;
            let m = l.persistent.milestones[milestone_index];
            match admin_override_refusal(l, admin, milestone_index) {
                None => {
                    &&& l.persistent.admin == Some(admin)
                    &&& l.instance.job is Some
                    &&& job.funded
                    &&& has_milestone(l, job, milestone_index)
                    &&& unsettled(m)
                    &&& something_owed(m)
                },
                Some(Error::NotInitialized) => l.persistent.admin is None || l.instance.job is None,
                Some(Error::Unauthorized) => {
                    l.persistent.admin is Some && l.persistent.admin != Some(admin)
                },
                Some(Error::NotFunded) => !job.funded,
                Some(Error::InvalidMilestone) => !has_milestone(l, job, milestone_index),
                Some(Error::InvalidStatus) => !unsettled(m),
                Some(Error::InvalidAmount) => !something_owed(m),
                _ => false,
            }
        }),
        admin_override_refusal(l, admin, milestone_index) is None ==> ({
            let job = l.instance.job->0;
            let m = l.persistent.milestones[milestone_index];
            let next = multisig_admin_override_release_step(l, admin, milestone_index);
            &&& follows(l, next)
            &&& asks(l, next) == seq![
                EffectView::RequireAuth(admin),
                EffectView::Transfer {
                    token: job.token,
                    from: l.contract,
                    to: job.freelancer,
                    amount: (m.amount - m.released_amount) as i128,
                },
                told(
                    Event::MultisigAdminOverrideRelease(
                        MultisigAdminOverrideReleaseEvent {
                            admin,
                            contract_id: l.contract,
                            milestone_index,
                            freelancer: job.freelancer,
                            token: job.token,
                            amount: (m.amount - m.released_amount) as i128,
                        },
                    ),
                ),
            ]
            &&& next.persistent.milestones[milestone_index] == (Milestone {
                amount: m.amount,
                released_amount: m.amount,
                status: MilestoneStatus::Released,
                delivered_at: m.delivered_at,
            })
            &&& next.persistent == (Persistent {
                milestones: l.persistent.milestones.insert(
                    milestone_index,
                    next.persistent.milestones[milestone_index],
                ),
                ..l.persistent
            })
            &&& next.temporary == (Temporary {
                milestone_released: l.temporary.milestone_released.insert(milestone_index, true),
                ..l.temporary
            })
            &&& next.instance == (Instance { multisig_locked: Some(false), ..l.instance })
        }),
        admin_override_refusal(l, admin, milestone_index) is Some ==> kept(
            l,
            multisig_admin_override_release_step(l, admin, milestone_index),
        ),
{
}

/// While the approvals are locked the admin refunds a milestone and ends the lock.
pub proof fn lemma_multisig_refund_override(
    l: Ledger,
    admin: Address,
    milestone_index: u32,
)
    ensures
        ({
            let job = l.instance.job->0;
            let m = l.persistent.milestones[milestone_index];
            match multisig_admin_override_refund_refusal(
                l,
                admin,
                milestone_index,
            ) {
                None => {
                    &&& l.persistent.admin == Some(admin)
                    &&& l.instance.job is Some
                    &&& job.funded
                    &&& has_milestone(l, job, milestone_index)
                    &&& unsettled(m)
                    &&& something_owed(m)
                    &&& up(l.instance.multisig_locked)
                },
                Some(Error::NotInitialized) => l.persistent.admin is None || l.instance.job is None,
                Some(Error::Unauthorized) => {
                    l.persistent.admin is Some && l.persistent.admin != Some(admin)
                },
                Some(Error::NotFunded) => !job.funded,
                Some(Error::InvalidMilestone) => !has_milestone(l, job, milestone_index),
                Some(Error::InvalidStatus) => !unsettled(m) || !up(l.instance.multisig_locked),
                Some(Error::InvalidAmount) => !something_owed(m),
                _ => false,
            }
        }),
        multisig_admin_override_refund_refusal(l, admin, milestone_index) is None ==> ({
            let job = l.instance.job->0;
            let m = l.persistent.milestones[milestone_index];
            let next = multisig_admin_override_refund_step(l, admin, milestone_index);
            &&& follows(l, next)
            &&& asks(l, next) == seq![
                EffectView::RequireAuth(admin),
                EffectView::Transfer {
                    token: job.token,
                    from: l.contract,
                    to: job.client,
                    amount: (m.amount - m.released_amount) as i128,
                },
                told(
                    Event::MultisigAdminOverrideRefund(
                        MultisigAdminOverrideRefundEvent {
                            admin,
                            contract_id: l.contract,
                            milestone_index,
                            client: job.client,
                            token: job.token,
                            amount: (m.amount - m.released_amount) as i128,
                        },
                    ),
                ),
            ]
            &&& next.persistent.milestones[milestone_index] == (Milestone {
                amount: m.amount,
                released_amount: m.amount,
                status: MilestoneStatus::Refunded,
                delivered_at: m.delivered_at,
            })
            &&& next.persistent == (Persistent {
                milestones: l.persistent.milestones.insert(
                    milestone_index,
                    next.persistent.milestones[milestone_index],
                ),
                ..l.persistent
            })
            &&& next.temporary == l.temporary
            &&& next.instance == (Instance { multisig_locked: Some(false), ..l.instance })
        }),
        multisig_admin_override_refund_refusal(l, admin, milestone_index) is Some ==> kept(
            l,
            multisig_admin_override_refund_step(l, admin, milestone_index),
        ),
{
}

/// The admin divides what is owed for a disputed milestone by elapsed time, rounded to
/// the nearest unit: the freelancer is owed that part and the client the rest. Where
/// the contract holds less the client is served first.
pub proof fn lemma_streaming_override(
    l: Ledger,
    admin: Address,
    milestone_index: u32,
    elapsed_seconds: i128,
    total_seconds: i128,
)
    ensures
        ({
            let job = l.instance.job->0;
            let m = l.persistent.milestones[milestone_index];
            let owing = m.amount - m.released_amount;
            let parts = streaming_release(l, milestone_index, elapsed_seconds, total_seconds);
            let to_client = parts.second;
            let to_freelancer = parts.first;
            match admin_override_streaming_release_refusal(
                l,
                admin,
                milestone_index,
                elapsed_seconds,
                total_seconds,
            ) {
                None => {
                    &&& l.persistent.admin == Some(admin)
                    &&& l.instance.job is Some
                    &&& job.funded
                    &&& has_milestone(l, job, milestone_index)
                    &&& m.status == MilestoneStatus::Disputed
                    &&& something_owed(m)
                    &&& 0 <= elapsed_seconds <= total_seconds
                    &&& 0 < total_seconds
                    &&& owing * elapsed_seconds + total_seconds / 2 <= i128::MAX
                    &&& l.token_balance > 0
                },
                Some(Error::NotInitialized) => l.persistent.admin is None || l.instance.job is None,
                Some(Error::Unauthorized) => {
                    l.persistent.admin is Some && l.persistent.admin != Some(admin)
                },
                Some(Error::NotFunded) => !job.funded,
                Some(Error::InvalidMilestone) => !has_milestone(l, job, milestone_index),
                Some(Error::InvalidStatus) => m.status != MilestoneStatus::Disputed,
                Some(Error::InvalidRatio) => {
                    ||| !(0 <= elapsed_seconds <= total_seconds)
                    ||| total_seconds <= 0
                },
                Some(Error::InvalidAmount) => {
                    ||| !something_owed(m)
                    ||| l.token_balance <= 0
                    ||| owing * elapsed_seconds + total_seconds / 2 > i128::MAX
                },
                _ => false,
            }
        }),
        admin_override_streaming_release_refusal(
            l,
            admin,
            milestone_index,
            elapsed_seconds,
            total_seconds,
        ) is None ==> ({
            let job = l.instance.job->0;
            let m = l.persistent.milestones[milestone_index];
            let owing = m.amount - m.released_amount;
            let parts = streaming_release(l, milestone_index, elapsed_seconds, total_seconds);
            let to_client = parts.second;
            let to_freelancer = parts.first;
            let next = admin_override_streaming_release_step(
                l,
                admin,
                milestone_index,
                elapsed_seconds,
                total_seconds,
            );
            &&& follows(l, next)
            &&& l.token_balance >= owing ==> part_to_the_nearest(
                to_freelancer as int,
                owing,
                elapsed_seconds as int,
                total_seconds as int,
            )
            &&& to_client >= 0 && to_freelancer >= 0
            &&& l.token_balance >= owing ==> to_client + to_freelancer == owing
            &&& l.token_balance < owing ==> to_client + to_freelancer == l.token_balance
            &&& l.token_balance < owing ==> (to_freelancer == 0 || part_to_the_nearest(
                owing - to_client,
                owing,
                elapsed_seconds as int,
                total_seconds as int,
            ))
            &&& exists|share: int|
                part_to_the_nearest(share, owing, elapsed_seconds as int, total_seconds as int)
                    && to_client <= owing - share && asks(l, next) == seq![
                    EffectView::RequireAuth(admin),
                    told(
                        Event::MilestoneTimeExtension(
                            MilestoneTimeExtensionEvent {
                                amount: owing as i128,
                                elapsed_seconds,
                                total_seconds,
                                freelancer_share: share as i128,
                                client_refund: (owing - share) as i128,
                            },
                        ),
                    ),
                ] + payment_if_any(l, job.client, to_client) + payment_if_any(
                    l,
                    job.freelancer,
                    to_freelancer,
                ) + seq![
                    told(
                    Event::AdminOverrideStreamingRelease(
                        AdminOverrideStreamingReleaseEvent {
                            admin,
                            contract_id: l.contract,
                            milestone_index,
                            client: job.client,
                            freelancer: job.freelancer,
                            token: job.token,
                            client_refund: to_client,
                            freelancer_payout: to_freelancer,
                        },
                    ),
                ),
                ]
            &&& next.persistent.milestones[milestone_index] == (Milestone {
                amount: m.amount,
                released_amount: (m.released_amount + to_freelancer) as i128,
                status: if to_freelancer == 0 {
                    MilestoneStatus::Refunded
                } else {
                    MilestoneStatus::Released
                },
                delivered_at: m.delivered_at,
            })
            &&& next.persistent == (Persistent {
                milestones: l.persistent.milestones.insert(
                    milestone_index,
                    next.persistent.milestones[milestone_index],
                ),
                reputation: next.persistent.reputation,
                ..l.persistent
            })
            &&& to_freelancer != 0 ==> (room_for_points(l, job) ==> one_point_each(l, next, job))
            &&& to_freelancer == 0 ==> next.persistent.reputation == l.persistent.reputation
            &&& next.temporary.milestone_released == if to_freelancer == 0 {
                l.temporary.milestone_released
            } else {
                l.temporary.milestone_released.insert(milestone_index, true)
            }
            &&& next.instance == l.instance
            &&& next.temporary == (Temporary {
                milestone_released: next.temporary.milestone_released,
                ..l.temporary
            })
        }),
        admin_override_streaming_release_refusal(
            l,
            admin,
            milestone_index,
            elapsed_seconds,
            total_seconds,
        ) is Some ==> kept(
            l,
            admin_override_streaming_release_step(
                l,
                admin,
                milestone_index,
                elapsed_seconds,
                total_seconds,
            ),
        ),
{
    let job = l.instance.job->0;
    let m = l.persistent.milestones[milestone_index];
    let owing = m.amount - m.released_amount;
    if admin_override_streaming_release_refusal(
        l,
        admin,
        milestone_index,
        elapsed_seconds,
        total_seconds,
    ) is None {
        let e = elapsed_seconds as int;
        let t = total_seconds as int;
        lemma_split_is_to_the_nearest(owing, e, t);
        lemma_split_conserves(owing, e, t);
        let share = split_at(owing, e, t).first as int;
        let parts = streaming_release(l, milestone_index, elapsed_seconds, total_seconds);
        let next = admin_override_streaming_release_step(
            l,
            admin,
            milestone_index,
            elapsed_seconds,
            total_seconds,
        );
        assert(part_to_the_nearest(share, owing, e, t));
        assert(parts.second <= owing - share);
        assert(asks(l, next) =~= seq![
            EffectView::RequireAuth(admin),
            told(
                Event::MilestoneTimeExtension(
                    MilestoneTimeExtensionEvent {
                        amount: owing as i128,
                        elapsed_seconds,
                        total_seconds,
                        freelancer_share: share as i128,
                        client_refund: (owing - share) as i128,
                    },
                ),
            ),
        ] + payment_if_any(l, job.client, parts.second) + payment_if_any(
            l,
            job.freelancer,
            parts.first,
        ) + seq![
            told(
                Event::AdminOverrideStreamingRelease(
                    AdminOverrideStreamingReleaseEvent {
                        admin,
                        contract_id: l.contract,
                        milestone_index,
                        client: job.client,
                        freelancer: job.freelancer,
                        token: job.token,
                        client_refund: parts.second,
                        freelancer_payout: parts.first,
                    },
                ),
            ),
        ]);
    }
}

/// Where the client approves a milestone and is not the freelancer, the reputation of
/// each of the two is one more than it was, and nobody else's changes.
pub proof fn lemma_approval_earns_a_point(
    l: Ledger,
    client: Address,
    milestone_index: u32,
    who: Address,
)
    requires
        approve_milestone_refusal(l, client, milestone_index) is None,
        l.can_reward(l.instance.job->0),
        l.instance.job->0.client != l.instance.job->0.freelancer,
    ensures
        ({
            let job = l.instance.job->0;
            let next = approve_milestone_step(l, client, milestone_index);
            next.reputation_of(who) - l.reputation_of(who) == if who == job.client || who
                == job.freelancer {
                1int
            } else {
                0
            }
        }),
{
    let job = l.instance.job->0;
    let next = approve_milestone_step(l, client, milestone_index);
    lemma_full_approval(l, client, milestone_index);
    lemma_reputation_is_points(l, who, job);
    lemma_reputation_is_points(next, who, job);
}

/// Where the contract holds what is owed, the one payment with which the arbiter settles
/// a dispute is of the price less what was released before, and a milestone that is
/// released is released to its price.
pub proof fn lemma_resolution_pays_what_is_owed(
    l: Ledger,
    arbiter: Address,
    milestone_index: u32,
    release_to_freelancer: bool,
)
    requires
        resolve_dispute_refusal(l, arbiter, milestone_index) is None,
        l.token_balance >= l.persistent.milestones[milestone_index].amount
            - l.persistent.milestones[milestone_index].released_amount,
    ensures
        ({
            let job = l.instance.job->0;
            let m = l.persistent.milestones[milestone_index];
            let next = resolve_dispute_step(l, arbiter, milestone_index, release_to_freelancer);
            let n = next.persistent.milestones[milestone_index];
            &&& asks(l, next).len() == 3
            &&& asks(l, next)[0] == EffectView::RequireAuth(arbiter)
            &&& asks(l, next)[1] matches EffectView::Transfer { token, from, to, amount }
                && token == job.token && from == l.contract && to == (if release_to_freelancer {
                job.freelancer
            } else {
                job.client
            }) && amount + m.released_amount == m.amount
            &&& asks(l, next)[2] is Publish
            &&& release_to_freelancer ==> n.status == MilestoneStatus::Released
                && n.released_amount == n.amount == m.amount
            &&& !release_to_freelancer ==> n.status == MilestoneStatus::Refunded
                && n.released_amount == m.released_amount && n.amount == m.amount
        }),
{
    lemma_resolution(l, arbiter, milestone_index, release_to_freelancer);
}

} // verus!
