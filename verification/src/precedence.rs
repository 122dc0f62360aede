//! Of several reasons to refuse a request, which one is given.

use crate::address::{Address, is_zero};
use crate::admin::{
    cancel_admin_transfer_proposal_refusal, execute_admin_transfer_refusal,
    propose_admin_transfer_refusal,
};
use crate::allocation::{ints, lemma_total_is_the_sum};
use crate::cancellation::{cancel_escrow_refusal, cancel_override_refusal};
use crate::disputes::{
    apply_dispute_arbitration_split_refusal, raise_dispute_refusal, resolve_dispute_refusal,
};
use crate::governing::{approvals_for, first_at, lemma_first_position};
use crate::guards::admin_refusal;
use crate::interest::{
    admin_accrue_yield_refusal, admin_set_yield_rate_refusal, estimate_refusal,
    set_escrow_interest_yield_refusal, set_interest_yield_consent_refusal, yield_lock_refusal,
};
use crate::job::{fund_refusal, initialize_refusal};
use crate::ledger::Ledger;
use crate::milestones::{
    approve_milestone_refusal, approve_partial_refusal, claim_auto_release_refusal,
    extend_milestone_deadline_refusal, mark_delivered_refusal,
};
use crate::multisig::{
    approvals_in, multisig_approval_init_refusal, multisig_approve_refusal,
    multisig_split_refund_refusal, multisig_transfer_admin_refusal, position,
};
use crate::overrides::{admin_override_refusal, multisig_admin_override_refund_refusal};
use crate::pause::{
    emergency_pause_admin_override_refusal, emergency_pause_allocation_refusal,
    emergency_pause_claim_refund_refusal, emergency_pause_refusal, emergency_unpause_refusal,
    positive_split_refusal,
};
use crate::platform_fee::{
    lock_platform_fee_allocation_refusal, pf_alloc_admin_override_refusal,
    set_platform_fee_allocation_refusal,
};
use crate::relations::{
    awaits_approval, delivered, has_milestone, put_off, something_owed, total_of, unsettled, up,
};
use crate::splits::{bps_split_refusal, refund_refusal, split_refusal};
use crate::streaming::{
    admin_override_streaming_release_refusal, payment_streaming_consent_refusal, streaming_refusal,
};
use crate::tax::{
    admin_override_tax_refund_refusal, admin_override_tax_release_refusal,
    admin_tax_withholding_deductions_refusal, tax_withholding_deductions_refusal,
};
use crate::types::{Error, MilestoneStatus};
use crate::undertaking::{lemma_all_unpaid, lemma_tally};
use crate::whitelist::{add_whitelisted_token_refusal, remove_whitelisted_token_refusal};
use vstd::prelude::*;

verus! {

/// The error of the first of `reasons`, from `from` on, that holds.
pub open spec fn first_from(reasons: Seq<(bool, Error)>, from: nat) -> Option<Error>
    decreases reasons.len() - from,
{
    if from >= reasons.len() {
        None
    } else if reasons[from as int].0 {
        Some(reasons[from as int].1)
    } else {
        first_from(reasons, from + 1)
    }
}

/// The error of the first of `reasons` that holds.
pub open spec fn first_of(reasons: Seq<(bool, Error)>) -> Option<Error> {
    first_from(reasons, 0)
}

/// Only the admin may do what the admin does, and there must be one.
pub proof fn lemma_admin_order(l: Ledger, admin: Address)
    ensures
        admin_refusal(l, admin) == first_of(
            seq![
                (l.persistent.admin is None, Error::NotInitialized),
                (l.persistent.admin != Some(admin), Error::Unauthorized),
            ],
        ),
{
    reveal_with_fuel(first_from, 3);
}

/// Why `mark_delivered` is refused, in this order.
pub proof fn lemma_mark_delivered_order(l: Ledger, freelancer: Address, milestone_index: u32)
    ensures
        ({
            let job = l.instance.job->0;
            let m = l.persistent.milestones[milestone_index];
            mark_delivered_refusal(l, freelancer, milestone_index) == first_of(
                seq![
                    (up(l.instance.paused), Error::Paused),
                    (up(l.instance.emergency_paused), Error::Paused),
                    (up(l.instance.cancel_lock), Error::EscrowLocked),
                    (up(l.instance.tax_execution_lock), Error::TaxWithholdingInProgress),
                    (up(l.instance.platform_fee_lock), Error::PlatformFeeAllocationInProgress),
                    (up(l.instance.emergency_pause_lock), Error::EmergencyPauseInProgress),
                    (is_zero(freelancer), Error::InvalidAddress),
                    (l.instance.job is None, Error::NotInitialized),
                    (job.freelancer != freelancer, Error::Unauthorized),
                    (!job.funded, Error::NotFunded),
                    (!has_milestone(l, job, milestone_index), Error::InvalidMilestone),
                    (m.amount <= 0, Error::InvalidAmount),
                    (m.status != MilestoneStatus::Pending, Error::InvalidStatus),
                ],
            )
        }),
{
    reveal_with_fuel(first_from, 14);
}

/// Why `extend_milestone_deadline` is refused, in this order.
pub proof fn lemma_extend_milestone_deadline_order(
    l: Ledger,
    client: Address,
    milestone_index: u32,
    extra_seconds: u64,
)
    ensures
        ({
            let job = l.instance.job->0;
            let m = l.persistent.milestones[milestone_index];
            extend_milestone_deadline_refusal(
                l,
                client,
                milestone_index,
                extra_seconds,
            ) == first_of(
                seq![
                    (up(l.instance.paused), Error::Paused),
                    (up(l.instance.cancel_lock), Error::EscrowLocked),
                    (up(l.instance.tax_execution_lock), Error::TaxWithholdingInProgress),
                    (up(l.instance.platform_fee_lock), Error::PlatformFeeAllocationInProgress),
                    (up(l.instance.emergency_pause_lock), Error::EmergencyPauseInProgress),
                    (l.instance.job is None, Error::NotInitialized),
                    (job.client != client, Error::Unauthorized),
                    (!has_milestone(l, job, milestone_index), Error::InvalidMilestone),
                    (!awaits_approval(m), Error::InvalidStatus),
                    (extra_seconds == 0, Error::InvalidExtension),
                    (
                        put_off(l, milestone_index) + extra_seconds > u64::MAX,
                        Error::InvalidExtension,
                    ),
                ],
            )
        }),
{
    reveal_with_fuel(first_from, 12);
}

/// Why `claim_auto_release` is refused, in this order.
pub proof fn lemma_claim_auto_release_order(l: Ledger, freelancer: Address, milestone_index: u32)
    ensures
        ({
            let job = l.instance.job->0;
            let m = l.persistent.milestones[milestone_index];
            let due = delivered(l, milestone_index) + job.auto_release_seconds + put_off(
                l,
                milestone_index,
            );
            claim_auto_release_refusal(l, freelancer, milestone_index) == first_of(
                seq![
                    (up(l.instance.paused), Error::Paused),
                    (up(l.instance.emergency_paused), Error::Paused),
                    (up(l.instance.cancel_lock), Error::EscrowLocked),
                    (up(l.instance.tax_execution_lock), Error::TaxWithholdingInProgress),
                    (up(l.instance.platform_fee_lock), Error::PlatformFeeAllocationInProgress),
                    (up(l.instance.emergency_pause_lock), Error::EmergencyPauseInProgress),
                    (is_zero(freelancer), Error::InvalidAddress),
                    (l.instance.job is None, Error::NotInitialized),
                    (job.freelancer != freelancer, Error::Unauthorized),
                    (!has_milestone(l, job, milestone_index), Error::InvalidMilestone),
                    (m.status != MilestoneStatus::Delivered, Error::InvalidStatus),
                    (job.auto_release_seconds == 0, Error::InvalidAmount),
                    (due > u64::MAX, Error::InvalidAmount),
                    (l.timestamp < due, Error::DeadlineNotPassed),
                    (!something_owed(m), Error::InvalidAmount),
                ],
            )
        }),
{
    reveal_with_fuel(first_from, 16);
}

/// Why `approve_partial` is refused, in this order.
pub proof fn lemma_approve_partial_order(
    l: Ledger,
    client: Address,
    milestone_index: u32,
    amount: i128,
)
    ensures
        ({
            let job = l.instance.job->0;
            let m = l.persistent.milestones[milestone_index];
            approve_partial_refusal(l, client, milestone_index, amount) == first_of(
                seq![
                    (up(l.instance.paused), Error::Paused),
                    (up(l.instance.emergency_paused), Error::Paused),
                    (up(l.instance.cancel_lock), Error::EscrowLocked),
                    (up(l.instance.tax_execution_lock), Error::TaxWithholdingInProgress),
                    (up(l.instance.platform_fee_lock), Error::PlatformFeeAllocationInProgress),
                    (up(l.instance.emergency_pause_lock), Error::EmergencyPauseInProgress),
                    (is_zero(client) || client == l.contract, Error::InvalidAddress),
                    (l.instance.job is None, Error::NotInitialized),
                    (job.client != client, Error::Unauthorized),
                    (!job.funded, Error::NotFunded),
                    (!has_milestone(l, job, milestone_index), Error::InvalidMilestone),
                    (!awaits_approval(m), Error::InvalidStatus),
                    (amount <= 0, Error::InvalidAmount),
                    (!something_owed(m), Error::InvalidAmount),
                    (amount > m.amount - m.released_amount, Error::InvalidAmount),
                ],
            )
        }),
{
    reveal_with_fuel(first_from, 16);
}

/// Why `approve_milestone` is refused, in this order.
pub proof fn lemma_approve_milestone_order(l: Ledger, client: Address, milestone_index: u32)
    ensures
        ({
            let job = l.instance.job->0;
            let m = l.persistent.milestones[milestone_index];
            approve_milestone_refusal(l, client, milestone_index) == first_of(
                seq![
                    (up(l.instance.paused), Error::Paused),
                    (up(l.instance.emergency_paused), Error::Paused),
                    (up(l.instance.cancel_lock), Error::EscrowLocked),
                    (up(l.instance.tax_execution_lock), Error::TaxWithholdingInProgress),
                    (up(l.instance.platform_fee_lock), Error::PlatformFeeAllocationInProgress),
                    (up(l.instance.emergency_pause_lock), Error::EmergencyPauseInProgress),
                    (is_zero(client), Error::InvalidAddress),
                    (l.instance.job is None, Error::NotInitialized),
                    (job.client != client, Error::Unauthorized),
                    (!job.funded, Error::NotFunded),
                    (!has_milestone(l, job, milestone_index), Error::InvalidMilestone),
                    (m.status != MilestoneStatus::Delivered, Error::InvalidStatus),
                    (!something_owed(m), Error::InvalidAmount),
                ],
            )
        }),
{
    reveal_with_fuel(first_from, 14);
}

/// Why `raise_dispute` is refused, in this order.
pub proof fn lemma_raise_dispute_order(l: Ledger, caller: Address, milestone_index: u32)
    ensures
        ({
            let job = l.instance.job->0;
            let m = l.persistent.milestones[milestone_index];
            raise_dispute_refusal(l, caller, milestone_index) == first_of(
                seq![
                    (up(l.instance.paused), Error::Paused),
                    (up(l.instance.emergency_paused), Error::Paused),
                    (up(l.instance.cancel_lock), Error::EscrowLocked),
                    (
                        l.temporary.dispute_lock.contains_key(milestone_index),
                        Error::DisputeAlreadyRaised,
                    ),
                    (is_zero(caller), Error::InvalidAddress),
                    (l.instance.job is None, Error::NotInitialized),
                    (job.client != caller && job.freelancer != caller, Error::Unauthorized),
                    (!job.funded, Error::NotFunded),
                    (!has_milestone(l, job, milestone_index), Error::InvalidMilestone),
                    (m.amount <= 0, Error::InvalidAmount),
                    (m.status == MilestoneStatus::Disputed, Error::InvalidStatus),
                    (!unsettled(m), Error::InvalidStatus),
                ],
            )
        }),
{
    reveal_with_fuel(first_from, 13);
}

/// Why `resolve_dispute` is refused, in this order.
pub proof fn lemma_resolve_dispute_order(l: Ledger, arbiter: Address, milestone_index: u32)
    ensures
        ({
            let job = l.instance.job->0;
            let m = l.persistent.milestones[milestone_index];
            resolve_dispute_refusal(l, arbiter, milestone_index) == first_of(
                seq![
                    (up(l.instance.paused), Error::Paused),
                    (up(l.instance.emergency_paused), Error::Paused),
                    (up(l.instance.cancel_lock), Error::EscrowLocked),
                    (up(l.instance.tax_execution_lock), Error::TaxWithholdingInProgress),
                    (up(l.instance.platform_fee_lock), Error::PlatformFeeAllocationInProgress),
                    (up(l.instance.emergency_pause_lock), Error::EmergencyPauseInProgress),
                    (is_zero(arbiter) || arbiter == l.contract, Error::InvalidAddress),
                    (l.instance.job is None, Error::NotInitialized),
                    (job.arbiter != arbiter, Error::Unauthorized),
                    (!job.funded, Error::NotFunded),
                    (
                        !l.persistent.milestones.contains_key(milestone_index),
                        Error::InvalidMilestone,
                    ),
                    (m.status != MilestoneStatus::Disputed, Error::InvalidStatus),
                    (!something_owed(m), Error::InvalidAmount),
                    (l.token_balance <= 0, Error::InvalidAmount),
                ],
            )
        }),
{
    reveal_with_fuel(first_from, 15);
}

/// Why `apply_dispute_arbitration_split` is refused, in this order.
pub proof fn lemma_apply_dispute_arbitration_split_order(
    l: Ledger,
    arbiter: Address,
    milestone_index: u32,
    client_refund_bps: u32,
)
    ensures
        ({
            let job = l.instance.job->0;
            let m = l.persistent.milestones[milestone_index];
            apply_dispute_arbitration_split_refusal(
                l,
                arbiter,
                milestone_index,
                client_refund_bps,
            ) == first_of(
                seq![
                    (up(l.instance.emergency_paused), Error::Paused),
                    (up(l.instance.cancel_lock), Error::EscrowLocked),
                    (
                        l.temporary.dispute_lock.contains_key(milestone_index),
                        Error::DisputeAlreadyRaised,
                    ),
                    (is_zero(arbiter) || arbiter == l.contract, Error::InvalidAddress),
                    (l.instance.job is None, Error::NotInitialized),
                    (job.arbiter != arbiter, Error::Unauthorized),
                    (!job.funded, Error::NotFunded),
                    (
                        !l.persistent.milestones.contains_key(milestone_index),
                        Error::InvalidMilestone,
                    ),
                    (m.status != MilestoneStatus::Disputed, Error::InvalidStatus),
                    (!something_owed(m), Error::InvalidAmount),
                    (client_refund_bps > 10_000, Error::InvalidRatio),
                    (
                        (m.amount - m.released_amount) * client_refund_bps > i128::MAX,
                        Error::InvalidAmount,
                    ),
                    (l.token_balance <= 0, Error::InvalidAmount),
                ],
            )
        }),
{
    reveal_with_fuel(first_from, 14);
}

/// Why a milestone can be neither released nor refunded by the admin, in this order.
pub proof fn lemma_admin_override_order(l: Ledger, admin: Address, milestone_index: u32)
    ensures
        ({
            let job = l.instance.job->0;
            let m = l.persistent.milestones[milestone_index];
            admin_override_refusal(l, admin, milestone_index) == first_of(
                seq![
                    (l.persistent.admin is None, Error::NotInitialized),
                    (l.persistent.admin != Some(admin), Error::Unauthorized),
                    (l.instance.job is None, Error::NotInitialized),
                    (!job.funded, Error::NotFunded),
                    (!has_milestone(l, job, milestone_index), Error::InvalidMilestone),
                    (!unsettled(m), Error::InvalidStatus),
                    (!something_owed(m), Error::InvalidAmount),
                ],
            )
        }),
{
    reveal_with_fuel(first_from, 8);
}

/// Why `multisig_admin_override_refund` is refused, in this order.
pub proof fn lemma_multisig_admin_override_refund_order(
    l: Ledger,
    admin: Address,
    milestone_index: u32,
)
    ensures
        ({
            let job = l.instance.job->0;
            let m = l.persistent.milestones[milestone_index];
            multisig_admin_override_refund_refusal(l, admin, milestone_index) == first_of(
                seq![
                    (l.persistent.admin is None, Error::NotInitialized),
                    (l.persistent.admin != Some(admin), Error::Unauthorized),
                    (!up(l.instance.multisig_locked), Error::InvalidStatus),
                    (l.instance.job is None, Error::NotInitialized),
                    (!job.funded, Error::NotFunded),
                    (!has_milestone(l, job, milestone_index), Error::InvalidMilestone),
                    (!unsettled(m), Error::InvalidStatus),
                    (!something_owed(m), Error::InvalidAmount),
                ],
            )
        }),
{
    reveal_with_fuel(first_from, 9);
}

/// Why `admin_override_streaming_release` is refused, in this order.
pub proof fn lemma_admin_override_streaming_release_order(
    l: Ledger,
    admin: Address,
    milestone_index: u32,
    elapsed_seconds: i128,
    total_seconds: i128,
)
    ensures
        ({
            let job = l.instance.job->0;
            let m = l.persistent.milestones[milestone_index];
            let owing = m.amount - m.released_amount;
            admin_override_streaming_release_refusal(
                l,
                admin,
                milestone_index,
                elapsed_seconds,
                total_seconds,
            ) == first_of(
                seq![
                    (l.persistent.admin is None, Error::NotInitialized),
                    (l.persistent.admin != Some(admin), Error::Unauthorized),
                    (l.instance.job is None, Error::NotInitialized),
                    (!job.funded, Error::NotFunded),
                    (!has_milestone(l, job, milestone_index), Error::InvalidMilestone),
                    (m.status != MilestoneStatus::Disputed, Error::InvalidStatus),
                    (!something_owed(m), Error::InvalidAmount),
                    (total_seconds <= 0, Error::InvalidRatio),
                    (!(0 <= elapsed_seconds <= total_seconds), Error::InvalidRatio),
                    (owing * elapsed_seconds + total_seconds / 2 > i128::MAX, Error::InvalidAmount),
                    (l.token_balance <= 0, Error::InvalidAmount),
                ],
            )
        }),
{
    reveal_with_fuel(first_from, 12);
}

/// Why `tax_withholding_deductions` is refused, in this order.
pub proof fn lemma_tax_withholding_deductions_order(
    l: Ledger,
    milestone_index: u32,
    tax_rate_bps: u32,
)
    ensures
        ({
            let job = l.instance.job->0;
            let m = l.persistent.milestones[milestone_index];
            tax_withholding_deductions_refusal(l, milestone_index, tax_rate_bps) == first_of(
                seq![
                    (l.instance.job is None, Error::NotInitialized),
                    (!job.funded, Error::NotFunded),
                    (milestone_index >= job.milestone_count, Error::InvalidMilestone),
                    (tax_rate_bps > 10_000, Error::InvalidRatio),
                    (
                        !l.persistent.milestones.contains_key(milestone_index),
                        Error::InvalidMilestone,
                    ),
                    (!unsettled(m), Error::InvalidStatus),
                    (l.token_balance <= 0, Error::InvalidAmount),
                    (!something_owed(m), Error::InvalidAmount),
                    (
                        (m.amount - m.released_amount) * tax_rate_bps + 5_000 > i128::MAX,
                        Error::InvalidAmount,
                    ),
                ],
            )
        }),
{
    reveal_with_fuel(first_from, 10);
}

/// Why `admin_tax_withholding_deductions` is refused, in this order.
pub proof fn lemma_admin_tax_withholding_deductions_order(
    l: Ledger,
    admin: Address,
    milestone_index: u32,
    tax_rate_bps: u32,
)
    ensures
        ({
            let job = l.instance.job->0;
            let m = l.persistent.milestones[milestone_index];
            admin_tax_withholding_deductions_refusal(
                l,
                admin,
                milestone_index,
                tax_rate_bps,
            ) == first_of(
                seq![
                    (l.persistent.admin is None, Error::NotInitialized),
                    (l.persistent.admin != Some(admin), Error::Unauthorized),
                    (l.instance.job is None, Error::NotInitialized),
                    (!job.funded, Error::NotFunded),
                    (l.token_balance <= 0, Error::InvalidAmount),
                    (!has_milestone(l, job, milestone_index), Error::InvalidMilestone),
                    (m.amount <= 0, Error::InvalidAmount),
                    (tax_rate_bps > 10_000, Error::InvalidRatio),
                    (m.amount * tax_rate_bps > i128::MAX, Error::InvalidAmount),
                ],
            )
        }),
{
    reveal_with_fuel(first_from, 10);
}

/// Why `admin_override_tax_release` is refused, in this order.
pub proof fn lemma_admin_override_tax_release_order(l: Ledger, admin: Address, milestone_index: u32)
    ensures
        ({
            let job = l.instance.job->0;
            let m = l.persistent.milestones[milestone_index];
            let record = l.persistent.tax_records[milestone_index];
            admin_override_tax_release_refusal(l, admin, milestone_index) == first_of(
                seq![
                    (l.persistent.admin is None, Error::NotInitialized),
                    (l.persistent.admin != Some(admin), Error::Unauthorized),
                    (l.instance.job is None, Error::NotInitialized),
                    (!job.funded, Error::NotFunded),
                    (milestone_index >= job.milestone_count, Error::InvalidMilestone),
                    (!l.persistent.tax_records.contains_key(milestone_index), Error::InvalidStatus),
                    (
                        !l.persistent.milestones.contains_key(milestone_index),
                        Error::InvalidMilestone,
                    ),
                    (!unsettled(m), Error::InvalidStatus),
                    (record.net_amount <= 0, Error::InvalidAmount),
                ],
            )
        }),
{
    reveal_with_fuel(first_from, 10);
}

/// Why `admin_override_tax_refund` is refused, in this order.
pub proof fn lemma_admin_override_tax_refund_order(l: Ledger, admin: Address, milestone_index: u32)
    ensures
        ({
            let job = l.instance.job->0;
            let m = l.persistent.milestones[milestone_index];
            let record = l.persistent.tax_records[milestone_index];
            admin_override_tax_refund_refusal(l, admin, milestone_index) == first_of(
                seq![
                    (l.persistent.admin is None, Error::NotInitialized),
                    (l.persistent.admin != Some(admin), Error::Unauthorized),
                    (!l.persistent.tax_records.contains_key(milestone_index), Error::InvalidStatus),
                    (l.instance.job is None, Error::NotInitialized),
                    (!job.funded, Error::NotFunded),
                    (!has_milestone(l, job, milestone_index), Error::InvalidMilestone),
                    (!unsettled(m), Error::InvalidStatus),
                    (record.gross_amount <= 0, Error::InvalidAmount),
                ],
            )
        }),
{
    reveal_with_fuel(first_from, 9);
}

/// Why `propose_admin_transfer` is refused, in this order.
pub proof fn lemma_propose_admin_transfer_order(l: Ledger, admin: Address, new_admin: Address)
    ensures
        ({
            propose_admin_transfer_refusal(l, admin, new_admin) == first_of(
                seq![
                    (l.persistent.admin is None, Error::NotInitialized),
                    (l.persistent.admin != Some(admin), Error::Unauthorized),
                    (is_zero(new_admin), Error::InvalidAddress),
                    (l.persistent.pending_admin_transfer is Some, Error::AdminTransferPending),
                ],
            )
        }),
{
    reveal_with_fuel(first_from, 5);
}

/// Why `execute_admin_transfer` is refused, in this order.
pub proof fn lemma_execute_admin_transfer_order(l: Ledger)
    ensures
        ({
            let pending = l.persistent.pending_admin_transfer->0;
            let approvals = approvals_in(approvals_for(l, pending.proposal_id));
            execute_admin_transfer_refusal(l) == first_of(
                seq![
                    (l.persistent.pending_admin_transfer is None, Error::NoPendingAdminTransfer),
                    (l.instance.multisig_threshold is None, Error::NotInitialized),
                    (approvals < l.instance.multisig_threshold->0, Error::MultiSigThresholdNotMet),
                    (l.persistent.admin is None, Error::NotInitialized),
                ],
            )
        }),
{
    reveal_with_fuel(first_from, 5);
}

/// Why `cancel_admin_transfer_proposal` is refused, in this order.
pub proof fn lemma_cancel_admin_transfer_proposal_order(l: Ledger, admin: Address)
    ensures
        ({
            cancel_admin_transfer_proposal_refusal(l, admin) == first_of(
                seq![
                    (l.persistent.admin is None, Error::NotInitialized),
                    (l.persistent.admin != Some(admin), Error::Unauthorized),
                    (l.persistent.pending_admin_transfer is None, Error::NoPendingAdminTransfer),
                ],
            )
        }),
{
    reveal_with_fuel(first_from, 4);
}

/// Why `emergency_pause` is refused, in this order.
pub proof fn lemma_emergency_pause_order(l: Ledger, admin: Address)
    ensures
        ({
            emergency_pause_refusal(l, admin) == first_of(
                seq![
                    (l.persistent.admin is None, Error::NotInitialized),
                    (l.persistent.admin != Some(admin), Error::Unauthorized),
                    (up(l.instance.emergency_pause_lock), Error::EmergencyPauseInProgress),
                    (up(l.instance.emergency_paused), Error::AlreadyPaused),
                ],
            )
        }),
{
    reveal_with_fuel(first_from, 5);
}

/// Why `emergency_unpause` is refused, in this order.
pub proof fn lemma_emergency_unpause_order(l: Ledger, admin: Address)
    ensures
        ({
            emergency_unpause_refusal(l, admin) == first_of(
                seq![
                    (l.persistent.admin is None, Error::NotInitialized),
                    (l.persistent.admin != Some(admin), Error::Unauthorized),
                    (up(l.instance.emergency_pause_lock), Error::EmergencyPauseInProgress),
                    (!up(l.instance.emergency_paused), Error::NotPaused),
                ],
            )
        }),
{
    reveal_with_fuel(first_from, 5);
}

/// Why `emergency_pause_admin_override` is refused, in this order.
pub proof fn lemma_emergency_pause_admin_override_order(l: Ledger, admin: Address, paused: bool)
    ensures
        ({
            emergency_pause_admin_override_refusal(l, admin, paused) == first_of(
                seq![
                    (l.persistent.admin is None, Error::NotInitialized),
                    (l.persistent.admin != Some(admin), Error::Unauthorized),
                    (up(l.instance.emergency_paused) == paused, Error::InvalidStatus),
                    (up(l.instance.emergency_pause_lock), Error::EmergencyPauseInProgress),
                ],
            )
        }),
{
    reveal_with_fuel(first_from, 5);
}

/// Why `emergency_pause_split_refund` is refused, in this order.
pub proof fn lemma_emergency_pause_split_refund_order(
    total_amount: i128,
    client_refund_bps: u32,
    freelancer_payout_bps: u32,
)
    ensures
        ({
            positive_split_refusal(
                total_amount,
                client_refund_bps,
                freelancer_payout_bps,
            ) == first_of(
                seq![
                    (total_amount <= 0, Error::InvalidAmount),
                    (client_refund_bps + freelancer_payout_bps != 10_000, Error::InvalidRatio),
                    (total_amount * client_refund_bps + 5_000 > i128::MAX, Error::InvalidAmount),
                ],
            )
        }),
{
    reveal_with_fuel(first_from, 4);
}

/// Why `emergency_pause_claim_refund` is refused, in this order.
pub proof fn lemma_emergency_pause_claim_refund_order(
    l: Ledger,
    admin: Address,
    total_amount: i128,
    client_refund_bps: u32,
    freelancer_payout_bps: u32,
)
    ensures
        ({
            emergency_pause_claim_refund_refusal(
                l,
                admin,
                total_amount,
                client_refund_bps,
                freelancer_payout_bps,
            ) == first_of(
                seq![
                    (l.persistent.admin is None, Error::NotInitialized),
                    (l.persistent.admin != Some(admin), Error::Unauthorized),
                    (up(l.instance.emergency_pause_lock), Error::EmergencyPauseInProgress),
                    (!up(l.instance.emergency_paused), Error::NotPaused),
                    (total_amount <= 0, Error::InvalidAmount),
                    (client_refund_bps + freelancer_payout_bps != 10_000, Error::InvalidRatio),
                    (total_amount * client_refund_bps + 5_000 > i128::MAX, Error::InvalidAmount),
                ],
            )
        }),
{
    reveal_with_fuel(first_from, 8);
}

/// Why `multisig_split_refund` is refused, in this order.
pub proof fn lemma_multisig_split_refund_order(
    l: Ledger,
    admin: Address,
    total_amount: i128,
    client_refund_bps: u32,
    freelancer_payout_bps: u32,
)
    ensures
        ({
            multisig_split_refund_refusal(
                l,
                admin,
                total_amount,
                client_refund_bps,
                freelancer_payout_bps,
            ) == first_of(
                seq![
                    (l.persistent.admin is None, Error::NotInitialized),
                    (l.persistent.admin != Some(admin), Error::Unauthorized),
                    (!up(l.instance.multisig_locked), Error::InvalidStatus),
                    (total_amount <= 0, Error::InvalidAmount),
                    (client_refund_bps + freelancer_payout_bps != 10_000, Error::InvalidRatio),
                    (total_amount * client_refund_bps + 5_000 > i128::MAX, Error::InvalidAmount),
                ],
            )
        }),
{
    reveal_with_fuel(first_from, 7);
}

/// Why `emergency_pause_allocation` is refused, in this order.
pub proof fn lemma_emergency_pause_allocation_order(total_amount: i128, weights: Seq<i128>)
    ensures
        ({
            let whole = total_of(weights);
            emergency_pause_allocation_refusal(total_amount, weights) == first_of(
                seq![
                    (total_amount <= 0, Error::InvalidAmount),
                    (weights.len() == 0, Error::InvalidAllocationWeights),
                    (weights.len() > 255, Error::InvalidAllocationWeights),
                    (
                        exists|i: int| 0 <= i < weights.len() && (#[trigger] weights[i]) < 0,
                        Error::InvalidAllocationWeights,
                    ),
                    (whole <= 0, Error::InvalidAllocationWeights),
                    (whole > i128::MAX, Error::InvalidAmount),
                    (
                        exists|i: int|
                        0 <= i < weights.len() && total_amount * (#[trigger] weights[i])
                            > i128::MAX,
                        Error::InvalidAmount,
                    ),
                ],
            )
        }),
{
    reveal_with_fuel(first_from, 8);
    lemma_total_is_the_sum(weights);
    let w = ints(weights);
    assert(forall|i: int| 0 <= i < weights.len() ==> (#[trigger] weights[i]) == w[i]);
    assert(forall|i: int| 0 <= i < w.len() ==> (#[trigger] w[i]) == weights[i]);
}

/// Why `multisig_transfer_admin` is refused, in this order.
pub proof fn lemma_multisig_transfer_admin_order(
    l: Ledger,
    admin: Address,
    total_amount: i128,
    weights: Seq<i128>,
)
    ensures
        ({
            let whole = total_of(weights);
            multisig_transfer_admin_refusal(l, admin, total_amount, weights) == first_of(
                seq![
                    (l.persistent.admin is None, Error::NotInitialized),
                    (l.persistent.admin != Some(admin), Error::Unauthorized),
                    (total_amount <= 0, Error::InvalidAmount),
                    (weights.len() == 0, Error::InvalidRatio),
                    (weights.len() > 255, Error::InvalidAmount),
                    (
                        exists|i: int| 0 <= i < weights.len() && (#[trigger] weights[i]) < 0,
                        Error::InvalidRatio,
                    ),
                    (whole <= 0, Error::InvalidRatio),
                    (whole > i128::MAX, Error::InvalidRatio),
                    (
                        exists|i: int|
                        0 <= i < weights.len() && total_amount * (#[trigger] weights[i])
                            > i128::MAX,
                        Error::InvalidAmount,
                    ),
                ],
            )
        }),
{
    reveal_with_fuel(first_from, 10);
    lemma_total_is_the_sum(weights);
    let w = ints(weights);
    assert(forall|i: int| 0 <= i < weights.len() ==> (#[trigger] weights[i]) == w[i]);
    assert(forall|i: int| 0 <= i < w.len() ==> (#[trigger] w[i]) == weights[i]);
}

/// Why `set_platform_fee_allocation` is refused, in this order.
pub proof fn lemma_set_platform_fee_allocation_order(
    l: Ledger,
    admin: Address,
    client_bps: u32,
    freelancer_bps: u32,
    treasury_bps: u32,
)
    ensures
        ({
            set_platform_fee_allocation_refusal(
                l,
                admin,
                client_bps,
                freelancer_bps,
                treasury_bps,
            ) == first_of(
                seq![
                    (l.persistent.admin is None, Error::NotInitialized),
                    (l.persistent.admin != Some(admin), Error::Unauthorized),
                    (up(l.instance.platform_fee_lock), Error::PlatformFeeAllocationInProgress),
                    (up(l.instance.emergency_pause_lock), Error::EmergencyPauseInProgress),
                    (client_bps + freelancer_bps + treasury_bps != 10_000, Error::InvalidRatio),
                    (l.instance.platform_fee is None, Error::NotInitialized),
                    (l.instance.platform_fee->0.locked, Error::InvalidStatus),
                ],
            )
        }),
{
    reveal_with_fuel(first_from, 8);
}

/// Why `lock_platform_fee_allocation` is refused, in this order.
pub proof fn lemma_lock_platform_fee_allocation_order(l: Ledger, admin: Address)
    ensures
        ({
            lock_platform_fee_allocation_refusal(l, admin) == first_of(
                seq![
                    (l.persistent.admin is None, Error::NotInitialized),
                    (l.persistent.admin != Some(admin), Error::Unauthorized),
                    (up(l.instance.platform_fee_lock), Error::PlatformFeeAllocationInProgress),
                    (up(l.instance.emergency_pause_lock), Error::EmergencyPauseInProgress),
                    (l.instance.platform_fee is None, Error::NotInitialized),
                ],
            )
        }),
{
    reveal_with_fuel(first_from, 6);
}

/// Why `pf_alloc_admin_override` is refused, in this order.
pub proof fn lemma_pf_alloc_admin_override_order(
    l: Ledger,
    admin: Address,
    client_bps: u32,
    freelancer_bps: u32,
    treasury_bps: u32,
)
    ensures
        ({
            pf_alloc_admin_override_refusal(
                l,
                admin,
                client_bps,
                freelancer_bps,
                treasury_bps,
            ) == first_of(
                seq![
                    (l.persistent.admin is None, Error::NotInitialized),
                    (l.persistent.admin != Some(admin), Error::Unauthorized),
                    (l.instance.platform_fee is None, Error::NotInitialized),
                    (!l.instance.platform_fee->0.locked, Error::InvalidStatus),
                    (up(l.instance.platform_fee_lock), Error::PlatformFeeAllocationInProgress),
                    (up(l.instance.emergency_pause_lock), Error::EmergencyPauseInProgress),
                    (client_bps + freelancer_bps + treasury_bps != 10_000, Error::InvalidRatio),
                ],
            )
        }),
{
    reveal_with_fuel(first_from, 8);
}

/// Why `set_escrow_interest_yield` is refused, in this order.
pub proof fn lemma_set_escrow_interest_yield_order(
    l: Ledger,
    admin: Address,
    client_share_bps: u32,
    freelancer_share_bps: u32,
)
    ensures
        ({
            set_escrow_interest_yield_refusal(
                l,
                admin,
                client_share_bps,
                freelancer_share_bps,
            ) == first_of(
                seq![
                    (l.persistent.admin is None, Error::NotInitialized),
                    (l.persistent.admin != Some(admin), Error::Unauthorized),
                    (client_share_bps + freelancer_share_bps != 10_000, Error::InvalidRatio),
                    (
                        l.instance.interest_yield is Some && l.instance.interest_yield->0.locked,
                        Error::EscrowLocked,
                    ),
                ],
            )
        }),
{
    reveal_with_fuel(first_from, 5);
}

/// Why `set_interest_yield_consent` is refused, in this order.
pub proof fn lemma_set_interest_yield_consent_order(
    l: Ledger,
    admin: Address,
    client_share_bps: u32,
    freelancer_share_bps: u32,
)
    ensures
        ({
            set_interest_yield_consent_refusal(
                l,
                admin,
                client_share_bps,
                freelancer_share_bps,
            ) == first_of(
                seq![
                    (l.persistent.admin is None, Error::NotInitialized),
                    (l.persistent.admin != Some(admin), Error::Unauthorized),
                    (l.instance.job is None, Error::NotInitialized),
                    (client_share_bps + freelancer_share_bps != 10_000, Error::InvalidRatio),
                    (
                        l.instance.interest_yield is Some && l.instance.interest_yield->0.locked,
                        Error::EscrowLocked,
                    ),
                ],
            )
        }),
{
    reveal_with_fuel(first_from, 6);
}

/// Why `admin_accrue_yield` is refused, in this order.
pub proof fn lemma_admin_accrue_yield_order(
    l: Ledger,
    admin: Address,
    milestone_index: u32,
    accrued_amount: i128,
)
    ensures
        ({
            let job = l.instance.job->0;
            let before = match l.persistent.yield_accrued {
                Some(booked) => booked as int,
                None => 0,
            };
            admin_accrue_yield_refusal(l, admin, milestone_index, accrued_amount) == first_of(
                seq![
                    (l.persistent.admin is None, Error::NotInitialized),
                    (l.persistent.admin != Some(admin), Error::Unauthorized),
                    (l.instance.job is None, Error::NotInitialized),
                    (milestone_index >= job.milestone_count, Error::InvalidMilestone),
                    (accrued_amount <= 0, Error::InvalidAmount),
                    (before + accrued_amount > i128::MAX, Error::InvalidAmount),
                ],
            )
        }),
{
    reveal_with_fuel(first_from, 7);
}

/// Why the streamed part of an amount cannot be computed, in this order.
pub proof fn lemma_payment_streaming_milestones_order(
    total_amount: i128,
    numerator: i128,
    denominator: i128,
)
    ensures
        ({
            streaming_refusal(total_amount, numerator, denominator) == first_of(
                seq![
                    (total_amount <= 0, Error::InvalidAmount),
                    (denominator <= 0, Error::InvalidRatio),
                    (!(0 <= numerator <= denominator), Error::InvalidRatio),
                    (total_amount * numerator + denominator / 2 > i128::MAX, Error::InvalidAmount),
                ],
            )
        }),
{
    reveal_with_fuel(first_from, 5);
}

/// Why `payment_streaming_consent` is refused, in this order.
pub proof fn lemma_payment_streaming_consent_order(
    l: Ledger,
    total_amount: i128,
    numerator: i128,
    denominator: i128,
)
    ensures
        ({
            payment_streaming_consent_refusal(l, total_amount, numerator, denominator) == first_of(
                seq![
                    (l.instance.job is None, Error::NotInitialized),
                    (total_amount <= 0, Error::InvalidAmount),
                    (denominator <= 0, Error::InvalidRatio),
                    (!(0 <= numerator <= denominator), Error::InvalidRatio),
                    (total_amount * numerator + denominator / 2 > i128::MAX, Error::InvalidAmount),
                ],
            )
        }),
{
    reveal_with_fuel(first_from, 6);
}

/// Why `multisig_approval_init` is refused, in this order.
pub proof fn lemma_multisig_approval_init_order(
    l: Ledger,
    admin: Address,
    signers: Seq<Address>,
    threshold: u32,
)
    ensures
        ({
            multisig_approval_init_refusal(l, admin, signers, threshold) == first_of(
                seq![
                    (l.persistent.admin is None, Error::NotInitialized),
                    (l.persistent.admin != Some(admin), Error::Unauthorized),
                    (l.instance.multisig_signers is Some, Error::AlreadyInitialized),
                    (signers.len() == 0, Error::MultiSigNoSigners),
                    (signers.len() > 32, Error::MultiSigTooManySigners),
                    (threshold == 0, Error::MultiSigInvalidThreshold),
                    (threshold > signers.len(), Error::MultiSigInvalidThreshold),
                    (!signers.no_duplicates(), Error::MultiSigDuplicateSigner),
                ],
            )
        }),
{
    reveal_with_fuel(first_from, 9);
}

/// Why `multisig_approve` is refused, in this order.
pub proof fn lemma_multisig_approve_order(l: Ledger, signer: Address)
    ensures
        ({
            let signers = l.instance.multisig_signers->0;
            multisig_approve_refusal(l, signer) == first_of(
                seq![
                    (l.instance.job is None, Error::NotInitialized),
                    (up(l.instance.multisig_locked), Error::EscrowLocked),
                    (l.token_balance <= 0, Error::MultiSigEmptyBalance),
                    (l.instance.multisig_signers is None, Error::NotInitialized),
                    (l.instance.multisig_threshold is None, Error::NotInitialized),
                    (!signers.contains(signer), Error::Unauthorized),
                    (
                        !(exists|at: u32| at < 32 && #[trigger] first_at(signers, signer, at)),
                        Error::InvalidAmount,
                    ),
                ],
            )
        }),
{
    reveal_with_fuel(first_from, 8);
    let signers = l.instance.multisig_signers->0;
    lemma_first_position(signers, signer, 0);
    match position(signers, signer) {
        Some(at) => {
            if at < 32 {
                assert(first_at(signers, signer, at as u32));
            }
        },
        None => {},
    }
}

/// Why `add_whitelisted_token` is refused, in this order.
pub proof fn lemma_add_whitelisted_token_order(l: Ledger, admin: Address, token: Address)
    ensures
        ({
            let job = l.instance.job->0;
            let list = l.instance.whitelist->0;
            add_whitelisted_token_refusal(l, admin, token) == first_of(
                seq![
                    (l.persistent.admin is None, Error::NotInitialized),
                    (l.persistent.admin != Some(admin), Error::Unauthorized),
                    (is_zero(token) || token == l.contract, Error::InvalidAddress),
                    (l.instance.job is None, Error::NotInitialized),
                    (job.funded, Error::AlreadyFunded),
                    (l.instance.whitelist is None, Error::NotInitialized),
                    (list.contains(token), Error::TokenAlreadyWhitelisted),
                    (list.len() >= 50, Error::InvalidAmount),
                ],
            )
        }),
{
    reveal_with_fuel(first_from, 9);
}

/// Why `remove_whitelisted_token` is refused, in this order.
pub proof fn lemma_remove_whitelisted_token_order(l: Ledger, admin: Address, token: Address)
    ensures
        ({
            let job = l.instance.job->0;
            let list = l.instance.whitelist->0;
            remove_whitelisted_token_refusal(l, admin, token) == first_of(
                seq![
                    (l.persistent.admin is None, Error::NotInitialized),
                    (l.persistent.admin != Some(admin), Error::Unauthorized),
                    (l.instance.job is None, Error::NotInitialized),
                    (job.funded, Error::AlreadyFunded),
                    (is_zero(token), Error::InvalidAddress),
                    (l.instance.whitelist is None, Error::NotInitialized),
                    (list.len() == 0, Error::TokenNotWhitelisted),
                    (list.len() == 1, Error::InvalidAmount),
                    (!list.contains(token), Error::TokenNotWhitelisted),
                ],
            )
        }),
{
    reveal_with_fuel(first_from, 10);
}

/// Why `cancel_escrow` is refused, in this order.
pub proof fn lemma_cancel_escrow_order(l: Ledger, caller: Address)
    ensures
        ({
            let job = l.instance.job->0;
            cancel_escrow_refusal(l, caller) == first_of(
                seq![
                    (is_zero(caller), Error::InvalidAddress),
                    (l.instance.job is None, Error::NotInitialized),
                    (caller != job.client && caller != job.freelancer, Error::Unauthorized),
                    (!job.funded, Error::NotFunded),
                    (l.token_balance <= 0, Error::InvalidAmount),
                ],
            )
        }),
{
    reveal_with_fuel(first_from, 6);
}

/// Why a cancellation cannot be settled, in this order, before the milestones are added up.
pub proof fn lemma_cancel_override_order(l: Ledger, admin: Address, guarded: bool)
    ensures
        ({
            let job = l.instance.job->0;
            let reason = first_of(
                seq![
                    (l.persistent.admin is None, Error::NotInitialized),
                    (l.persistent.admin != Some(admin), Error::Unauthorized),
                    (l.instance.job is None, Error::NotInitialized),
                    (!job.funded, Error::NotFunded),
                    (!up(l.instance.cancel_lock), Error::InvalidStatus),
                ],
            );
            let refusal = cancel_override_refusal(l, admin, guarded);
            &&& reason is Some ==> refusal == reason
            &&& reason is None ==> {
                ||| refusal is None
                ||| refusal == Some(Error::InvalidMilestone)
                ||| refusal == Some(Error::InvalidAmount)
            }
        }),
{
    reveal_with_fuel(first_from, 6);
    lemma_all_unpaid(l.persistent.milestones, l.instance.job->0.milestone_count, guarded);
}

/// Why `fund` is refused, in this order, before the milestones are added up.
pub proof fn lemma_fund_order(l: Ledger, client: Address)
    ensures
        ({
            let job = l.instance.job->0;
            let reason = first_of(
                seq![
                    (up(l.instance.paused), Error::Paused),
                    (up(l.instance.emergency_paused), Error::Paused),
                    (up(l.instance.cancel_lock), Error::EscrowLocked),
                    (up(l.instance.tax_execution_lock), Error::TaxWithholdingInProgress),
                    (up(l.instance.platform_fee_lock), Error::PlatformFeeAllocationInProgress),
                    (up(l.instance.emergency_pause_lock), Error::EmergencyPauseInProgress),
                    (is_zero(client) || client == l.contract, Error::InvalidAddress),
                    (l.instance.job is None, Error::NotInitialized),
                    (job.funded, Error::AlreadyFunded),
                    (job.client != client, Error::Unauthorized),
                ],
            );
            let refusal = fund_refusal(l, client);
            &&& reason is Some ==> refusal == reason
            &&& reason is None ==> {
                ||| refusal is None
                ||| refusal == Some(Error::InvalidMilestone)
                ||| refusal == Some(Error::InvalidAmount)
            }
        }),
{
    reveal_with_fuel(first_from, 11);
    lemma_tally(l.persistent.milestones, l.instance.job->0.milestone_count);
}

/// Why `admin_set_yield_rate` is refused, in this order.
pub proof fn lemma_admin_set_yield_rate_order(l: Ledger, admin: Address, rate_bps: u32)
    ensures
        ({
            admin_set_yield_rate_refusal(l, admin, rate_bps) == first_of(
                seq![
                    (l.persistent.admin is None, Error::NotInitialized),
                    (l.persistent.admin != Some(admin), Error::Unauthorized),
                    (rate_bps > 10_000, Error::InvalidRatio),
                ],
            )
        }),
{
    reveal_with_fuel(first_from, 4);
}

/// Why the shares of the yield can be neither locked nor unlocked, in this order.
pub proof fn lemma_yield_lock_order(l: Ledger, admin: Address)
    ensures
        ({
            yield_lock_refusal(l, admin) == first_of(
                seq![
                    (l.persistent.admin is None, Error::NotInitialized),
                    (l.persistent.admin != Some(admin), Error::Unauthorized),
                    (l.instance.interest_yield is None, Error::NotInitialized),
                ],
            )
        }),
{
    reveal_with_fuel(first_from, 4);
}

/// Why `escrow_interest_yield` is refused, in this order.
pub proof fn lemma_escrow_interest_yield_order(
    principal: i128,
    annual_rate_bps: i128,
    duration_seconds: i128,
)
    ensures
        ({
            estimate_refusal(principal, annual_rate_bps, duration_seconds) == first_of(
                seq![
                    (principal <= 0, Error::InvalidAmount),
                    (annual_rate_bps <= 0, Error::InvalidAmount),
                    (annual_rate_bps > 10_000, Error::InvalidRatio),
                    (duration_seconds <= 0, Error::InvalidAmount),
                    (
                        principal * annual_rate_bps * duration_seconds > i128::MAX,
                        Error::InvalidAmount,
                    ),
                ],
            )
        }),
{
    reveal_with_fuel(first_from, 6);
}

/// Why `split_round_nearest` is refused, in this order.
pub proof fn lemma_split_round_nearest_order(total: int, numerator: int, denominator: int)
    ensures
        ({
            split_refusal(total, numerator, denominator) == first_of(
                seq![
                    (total < 0, Error::InvalidRatio),
                    (denominator <= 0, Error::InvalidRatio),
                    (!(0 <= numerator <= denominator), Error::InvalidRatio),
                    (total * numerator + denominator / 2 > i128::MAX, Error::InvalidAmount),
                ],
            )
        }),
{
    reveal_with_fuel(first_from, 5);
}

/// Why an amount cannot be divided by two shares in basis points, in this order.
pub proof fn lemma_two_shares_order(total: int, first_bps: u32, second_bps: u32)
    ensures
        ({
            bps_split_refusal(total, first_bps, second_bps) == first_of(
                seq![
                    (first_bps + second_bps != 10_000, Error::InvalidRatio),
                    (total < 0, Error::InvalidRatio),
                    (total * first_bps + 5_000 > i128::MAX, Error::InvalidAmount),
                ],
            )
        }),
{
    reveal_with_fuel(first_from, 4);
}

/// Why `allocate_refund_by_bps` is refused, in this order.
pub proof fn lemma_allocate_refund_by_bps_order(total: int, client_bps: u32)
    ensures
        ({
            refund_refusal(total, client_bps) == first_of(
                seq![
                    (total < 0, Error::InvalidAmount),
                    (client_bps > 10_000, Error::InvalidRatio),
                    (total * client_bps > i128::MAX, Error::InvalidAmount),
                ],
            )
        }),
{
    reveal_with_fuel(first_from, 4);
}

/// Why `initialize` is refused, in this order.
pub proof fn lemma_initialize_order(
    l: Ledger,
    admin: Address,
    client: Address,
    freelancer: Address,
    arbiter: Address,
    token: Address,
    auto_release_seconds: u64,
    amounts: Seq<i128>,
)
    ensures
        ({
            initialize_refusal(
                l,
                admin,
                client,
                freelancer,
                arbiter,
                token,
                auto_release_seconds,
                amounts,
            ) == first_of(
                seq![
                    (l.instance.job is Some, Error::AlreadyInitialized),
                    (is_zero(admin) || admin == l.contract, Error::InvalidAddress),
                    (is_zero(client) || client == l.contract, Error::InvalidAddress),
                    (is_zero(freelancer) || freelancer == l.contract, Error::InvalidAddress),
                    (is_zero(arbiter) || arbiter == l.contract, Error::InvalidAddress),
                    (is_zero(token) || token == l.contract, Error::InvalidAddress),
                    (amounts.len() == 0, Error::InvalidAmount),
                    (
                        exists|i: int| 0 <= i < amounts.len() && (#[trigger] amounts[i]) <= 0,
                        Error::InvalidAmount,
                    ),
                    (total_of(amounts) > i128::MAX, Error::InvalidAmount),
                    (auto_release_seconds == 0, Error::InvalidAmount),
                ],
            )
        }),
{
    reveal_with_fuel(first_from, 11);
    lemma_total_is_the_sum(amounts);
}

} // verus!
