//! All requests that can change the ledger, as one.

use crate::address::Address;
use crate::ledger::{or_default, Ledger};
use crate::types::Error;
use crate::{
    admin, cancellation, disputes, guards, interest, job, milestones, multisig, overrides, pause,
    platform_fee, streaming, tax, whitelist,
};
use vstd::prelude::*;

verus! {

/// A request that can change the ledger, with its arguments.
pub enum Request {
    Initialize {
        admin: Address,
        client: Address,
        freelancer: Address,
        arbiter: Address,
        token: Address,
        auto_release_seconds: u64,
        milestone_amounts: Seq<i128>,
    },
    TransferAdmin { current_admin: Address, new_admin: Address },
    AddWhitelistedToken { admin: Address, token: Address },
    RemoveWhitelistedToken { admin: Address, token: Address },
    Fund { client: Address },
    MarkDelivered { freelancer: Address, milestone_index: u32 },
    ExtendMilestoneDeadline { client: Address, milestone_index: u32, extra_seconds: u64 },
    ClaimAutoRelease { freelancer: Address, milestone_index: u32 },
    ApprovePartial { client: Address, milestone_index: u32, amount: i128 },
    ApproveMilestone { client: Address, milestone_index: u32 },
    RaiseDispute { caller: Address, milestone_index: u32 },
    ResolveDispute { arbiter: Address, milestone_index: u32, release_to_freelancer: bool },
    ApplyDisputeArbitrationSplit { arbiter: Address, milestone_index: u32, client_refund_bps: u32 },
    CancelEscrow { caller: Address },
    AdminOverrideCancelRelease { admin: Address },
    AdminOverrideCancelRefund { admin: Address },
    Upgrade { admin: Address, new_wasm_hash: Seq<u8> },
    EmergencyPause { admin: Address },
    EmergencyUnpause { admin: Address },
    EmergencyPauseAdminOverride { admin: Address, paused: bool },
    SetPlatformFeeAllocation {
        admin: Address,
        client_bps: u32,
        freelancer_bps: u32,
        treasury_bps: u32,
    },
    LockPlatformFeeAllocation { admin: Address },
    PfAllocAdminOverride {
        admin: Address,
        client_bps: u32,
        freelancer_bps: u32,
        treasury_bps: u32,
    },
    PaymentStreamingMilestones { total_amount: i128, numerator: i128, denominator: i128 },
    PaymentStreamingConsent { total_amount: i128, numerator: i128, denominator: i128 },
    MilestoneTimeExtensions { amount: i128, elapsed_seconds: i128, total_seconds: i128 },
    MultisigTransferAdmin { admin: Address, total_amount: i128, ratios: Seq<i128> },
    MultisigApprovalInit { admin: Address, signers: Seq<Address>, threshold: u32 },
    MultisigApprove { signer: Address, proposal_id: u32 },
    ProposeAdminTransfer { admin: Address, new_admin: Address, proposal_id: u32 },
    ExecuteAdminTransfer,
    CancelAdminTransferProposal { admin: Address },
    SetEscrowInterestYield { admin: Address, client_share_bps: u32, freelancer_share_bps: u32 },
    SetInterestYieldConsent { admin: Address, client_share_bps: u32, freelancer_share_bps: u32 },
    LockEscrowInterestYield { admin: Address },
    UnlockEscrowInterestYield { admin: Address },
    AdminSetYieldRate { admin: Address, rate_bps: u32 },
    AdminAccrueYield { admin: Address, milestone_index: u32, accrued_amount: i128 },
    AdminOverrideRelease { admin: Address, milestone_index: u32 },
    AdminOverrideRefund { admin: Address, milestone_index: u32 },
    AdminOverrideStreamingRelease {
        admin: Address,
        milestone_index: u32,
        elapsed_seconds: i128,
        total_seconds: i128,
    },
    AdminPauseEscrow { admin: Address },
    AdminResumeEscrow { admin: Address },
    TaxWithholdingDeductions { milestone_index: u32, tax_rate_bps: u32 },
    AdminOverrideTaxRelease { admin: Address, milestone_index: u32 },
    AdminOverrideTaxRefund { admin: Address, milestone_index: u32 },
    AdminTaxWithholdingDeductions { admin: Address, milestone_index: u32, tax_rate_bps: u32 },
    MultisigAdminOverrideRelease { admin: Address, milestone_index: u32 },
    MultisigAdminOverrideRefund { admin: Address, milestone_index: u32 },
    MultisigSplitRefund {
        admin: Address,
        total_amount: i128,
        client_refund_bps: u32,
        freelancer_payout_bps: u32,
    },
    EmergencyPauseSplitRefund {
        total_amount: i128,
        client_refund_bps: u32,
        freelancer_payout_bps: u32,
    },
    EmergencyPauseClaimRefund {
        admin: Address,
        total_amount: i128,
        client_refund_bps: u32,
        freelancer_payout_bps: u32,
    },
    EmergencyPauseAllocation { total_amount: i128, weights: Seq<i128> },
    MultisigLock { admin: Address },
}

/// Why `request` is refused, if it is.
#[verifier::opaque]
pub open spec fn refusal(l: Ledger, request: Request) -> Option<Error> {
    match request {
        Request::Initialize {
            admin,
            client,
            freelancer,
            arbiter,
            token,
            auto_release_seconds,
            milestone_amounts,
        } => job::initialize_refusal(
            l,
            admin,
            client,
            freelancer,
            arbiter,
            token,
            auto_release_seconds,
            milestone_amounts,
        ),
        Request::TransferAdmin { current_admin, .. } => guards::admin_refusal(l, current_admin),
        Request::AddWhitelistedToken { admin, token } => whitelist::add_whitelisted_token_refusal(
            l,
            admin,
            token,
        ),
        Request::RemoveWhitelistedToken { admin, token } => {
            whitelist::remove_whitelisted_token_refusal(l, admin, token)
        },
        Request::Fund { client } => job::fund_refusal(l, client),
        Request::MarkDelivered { freelancer, milestone_index } => {
            milestones::mark_delivered_refusal(l, freelancer, milestone_index)
        },
        Request::ExtendMilestoneDeadline {
            client,
            milestone_index,
            extra_seconds,
        } => milestones::extend_milestone_deadline_refusal(
            l,
            client,
            milestone_index,
            extra_seconds,
        ),
        Request::ClaimAutoRelease { freelancer, milestone_index } => {
            milestones::claim_auto_release_refusal(l, freelancer, milestone_index)
        },
        Request::ApprovePartial { client, milestone_index, amount } => {
            milestones::approve_partial_refusal(l, client, milestone_index, amount)
        },
        Request::ApproveMilestone { client, milestone_index } => {
            milestones::approve_milestone_refusal(l, client, milestone_index)
        },
        Request::RaiseDispute { caller, milestone_index } => disputes::raise_dispute_refusal(
            l,
            caller,
            milestone_index,
        ),
        Request::ResolveDispute {
            arbiter,
            milestone_index,
            ..
        } => disputes::resolve_dispute_refusal(l, arbiter, milestone_index),
        Request::ApplyDisputeArbitrationSplit {
            arbiter,
            milestone_index,
            client_refund_bps,
        } => disputes::apply_dispute_arbitration_split_refusal(
            l,
            arbiter,
            milestone_index,
            client_refund_bps,
        ),
        Request::CancelEscrow { caller } => cancellation::cancel_escrow_refusal(l, caller),
        Request::AdminOverrideCancelRelease { admin } => cancellation::cancel_override_refusal(
            l,
            admin,
            false,
        ),
        Request::AdminOverrideCancelRefund { admin } => cancellation::cancel_override_refusal(
            l,
            admin,
            true,
        ),
        Request::Upgrade { admin, .. } => guards::admin_refusal(l, admin),
        Request::EmergencyPause { admin } => pause::emergency_pause_refusal(l, admin),
        Request::EmergencyUnpause { admin } => pause::emergency_unpause_refusal(l, admin),
        Request::EmergencyPauseAdminOverride { admin, paused } => {
            pause::emergency_pause_admin_override_refusal(l, admin, paused)
        },
        Request::SetPlatformFeeAllocation {
            admin,
            client_bps,
            freelancer_bps,
            treasury_bps,
        } => platform_fee::set_platform_fee_allocation_refusal(
            l,
            admin,
            client_bps,
            freelancer_bps,
            treasury_bps,
        ),
        Request::LockPlatformFeeAllocation { admin } => {
            platform_fee::lock_platform_fee_allocation_refusal(l, admin)
        },
        Request::PfAllocAdminOverride {
            admin,
            client_bps,
            freelancer_bps,
            treasury_bps,
        } => platform_fee::pf_alloc_admin_override_refusal(
            l,
            admin,
            client_bps,
            freelancer_bps,
            treasury_bps,
        ),
        Request::PaymentStreamingMilestones {
            total_amount,
            numerator,
            denominator,
        } => streaming::streaming_refusal(total_amount, numerator, denominator),
        Request::PaymentStreamingConsent {
            total_amount,
            numerator,
            denominator,
        } => streaming::payment_streaming_consent_refusal(
            l,
            total_amount,
            numerator,
            denominator,
        ),
        Request::MilestoneTimeExtensions {
            amount,
            elapsed_seconds,
            total_seconds,
        } => streaming::streaming_refusal(amount, elapsed_seconds, total_seconds),
        Request::MultisigTransferAdmin { admin, total_amount, ratios } => {
            multisig::multisig_transfer_admin_refusal(l, admin, total_amount, ratios)
        },
        Request::MultisigApprovalInit { admin, signers, threshold } => {
            multisig::multisig_approval_init_refusal(l, admin, signers, threshold)
        },
        Request::MultisigApprove { signer, .. } => multisig::multisig_approve_refusal(l, signer),
        Request::ProposeAdminTransfer {
            admin,
            new_admin,
            ..
        } => admin::propose_admin_transfer_refusal(l, admin, new_admin),
        Request::ExecuteAdminTransfer => admin::execute_admin_transfer_refusal(l),
        Request::CancelAdminTransferProposal { admin } => {
            admin::cancel_admin_transfer_proposal_refusal(l, admin)
        },
        Request::SetEscrowInterestYield {
            admin,
            client_share_bps,
            freelancer_share_bps,
        } => interest::set_escrow_interest_yield_refusal(
            l,
            admin,
            client_share_bps,
            freelancer_share_bps,
        ),
        Request::SetInterestYieldConsent {
            admin,
            client_share_bps,
            freelancer_share_bps,
        } => interest::set_interest_yield_consent_refusal(
            l,
            admin,
            client_share_bps,
            freelancer_share_bps,
        ),
        Request::LockEscrowInterestYield { admin } => interest::yield_lock_refusal(l, admin),
        Request::UnlockEscrowInterestYield { admin } => interest::yield_lock_refusal(l, admin),
        Request::AdminSetYieldRate { admin, rate_bps } => interest::admin_set_yield_rate_refusal(
            l,
            admin,
            rate_bps,
        ),
        Request::AdminAccrueYield { admin, milestone_index, accrued_amount } => {
            interest::admin_accrue_yield_refusal(l, admin, milestone_index, accrued_amount)
        },
        Request::AdminOverrideRelease { admin, milestone_index } => {
            overrides::admin_override_refusal(l, admin, milestone_index)
        },
        Request::AdminOverrideRefund { admin, milestone_index } => {
            overrides::admin_override_refusal(l, admin, milestone_index)
        },
        Request::AdminOverrideStreamingRelease {
            admin,
            milestone_index,
            elapsed_seconds,
            total_seconds,
        } => streaming::admin_override_streaming_release_refusal(
            l,
            admin,
            milestone_index,
            elapsed_seconds,
            total_seconds,
        ),
        Request::AdminPauseEscrow { admin } => guards::admin_refusal(l, admin),
        Request::AdminResumeEscrow { admin } => guards::admin_refusal(l, admin),
        Request::TaxWithholdingDeductions { milestone_index, tax_rate_bps } => {
            tax::tax_withholding_deductions_refusal(l, milestone_index, tax_rate_bps)
        },
        Request::AdminOverrideTaxRelease { admin, milestone_index } => {
            tax::admin_override_tax_release_refusal(l, admin, milestone_index)
        },
        Request::AdminOverrideTaxRefund { admin, milestone_index } => {
            tax::admin_override_tax_refund_refusal(l, admin, milestone_index)
        },
        Request::AdminTaxWithholdingDeductions {
            admin,
            milestone_index,
            tax_rate_bps,
        } => tax::admin_tax_withholding_deductions_refusal(
            l,
            admin,
            milestone_index,
            tax_rate_bps,
        ),
        Request::MultisigAdminOverrideRelease { admin, milestone_index } => {
            overrides::admin_override_refusal(l, admin, milestone_index)
        },
        Request::MultisigAdminOverrideRefund { admin, milestone_index } => {
            overrides::multisig_admin_override_refund_refusal(l, admin, milestone_index)
        },
        Request::MultisigSplitRefund {
            admin,
            total_amount,
            client_refund_bps,
            freelancer_payout_bps,
        } => multisig::multisig_split_refund_refusal(
            l,
            admin,
            total_amount,
            client_refund_bps,
            freelancer_payout_bps,
        ),
        Request::EmergencyPauseSplitRefund {
            total_amount,
            client_refund_bps,
            freelancer_payout_bps,
        } => pause::positive_split_refusal(
            total_amount,
            client_refund_bps,
            freelancer_payout_bps,
        ),
        Request::EmergencyPauseClaimRefund {
            admin,
            total_amount,
            client_refund_bps,
            freelancer_payout_bps,
        } => pause::emergency_pause_claim_refund_refusal(
            l,
            admin,
            total_amount,
            client_refund_bps,
            freelancer_payout_bps,
        ),
        Request::EmergencyPauseAllocation {
            total_amount,
            weights,
        } => pause::emergency_pause_allocation_refusal(total_amount, weights),
        Request::MultisigLock { admin } => guards::admin_refusal(l, admin),
    }
}

/// The ledger after `request`.
#[verifier::opaque]
pub open spec fn step(l: Ledger, request: Request) -> Ledger {
    match request {
        Request::Initialize {
            admin,
            client,
            freelancer,
            arbiter,
            token,
            auto_release_seconds,
            milestone_amounts,
        } => job::initialize_step(
            l,
            admin,
            client,
            freelancer,
            arbiter,
            token,
            auto_release_seconds,
            milestone_amounts,
        ),
        Request::TransferAdmin { current_admin, new_admin } => admin::transfer_admin_step(
            l,
            current_admin,
            new_admin,
        ),
        Request::AddWhitelistedToken { admin, token } => whitelist::add_whitelisted_token_step(
            l,
            admin,
            token,
        ),
        Request::RemoveWhitelistedToken { admin, token } => {
            whitelist::remove_whitelisted_token_step(l, admin, token)
        },
        Request::Fund { client } => job::fund_step(l, client),
        Request::MarkDelivered { freelancer, milestone_index } => milestones::mark_delivered_step(
            l,
            freelancer,
            milestone_index,
        ),
        Request::ExtendMilestoneDeadline {
            client,
            milestone_index,
            extra_seconds,
        } => milestones::extend_milestone_deadline_step(
            l,
            client,
            milestone_index,
            extra_seconds,
        ),
        Request::ClaimAutoRelease { freelancer, milestone_index } => {
            milestones::claim_auto_release_step(l, freelancer, milestone_index)
        },
        Request::ApprovePartial { client, milestone_index, amount } => {
            milestones::approve_partial_step(l, client, milestone_index, amount)
        },
        Request::ApproveMilestone { client, milestone_index } => milestones::approve_milestone_step(
            l,
            client,
            milestone_index,
        ),
        Request::RaiseDispute { caller, milestone_index } => disputes::raise_dispute_step(
            l,
            caller,
            milestone_index,
        ),
        Request::ResolveDispute { arbiter, milestone_index, release_to_freelancer } => {
            disputes::resolve_dispute_step(l, arbiter, milestone_index, release_to_freelancer)
        },
        Request::ApplyDisputeArbitrationSplit {
            arbiter,
            milestone_index,
            client_refund_bps,
        } => disputes::apply_dispute_arbitration_split_step(
            l,
            arbiter,
            milestone_index,
            client_refund_bps,
        ),
        Request::CancelEscrow { caller } => cancellation::cancel_escrow_step(l, caller),
        Request::AdminOverrideCancelRelease { admin } => {
            cancellation::admin_override_cancel_release_step(l, admin)
        },
        Request::AdminOverrideCancelRefund { admin } => {
            cancellation::admin_override_cancel_refund_step(l, admin)
        },
        Request::Upgrade { admin, new_wasm_hash } => admin::upgrade_step(l, admin, new_wasm_hash),
        Request::EmergencyPause { admin } => pause::emergency_pause_step(l, admin),
        Request::EmergencyUnpause { admin } => pause::emergency_unpause_step(l, admin),
        Request::EmergencyPauseAdminOverride { admin, paused } => {
            pause::emergency_pause_admin_override_step(l, admin, paused)
        },
        Request::SetPlatformFeeAllocation {
            admin,
            client_bps,
            freelancer_bps,
            treasury_bps,
        } => platform_fee::set_platform_fee_allocation_step(
            l,
            admin,
            client_bps,
            freelancer_bps,
            treasury_bps,
        ),
        Request::LockPlatformFeeAllocation { admin } => {
            platform_fee::lock_platform_fee_allocation_step(l, admin)
        },
        Request::PfAllocAdminOverride {
            admin,
            client_bps,
            freelancer_bps,
            treasury_bps,
        } => platform_fee::pf_alloc_admin_override_step(
            l,
            admin,
            client_bps,
            freelancer_bps,
            treasury_bps,
        ),
        Request::PaymentStreamingMilestones {
            total_amount,
            numerator,
            denominator,
        } => streaming::payment_streaming_milestones_step(
            l,
            total_amount,
            numerator,
            denominator,
        ),
        Request::PaymentStreamingConsent { total_amount, numerator, denominator } => {
            streaming::payment_streaming_consent_step(l, total_amount, numerator, denominator)
        },
        Request::MilestoneTimeExtensions { amount, elapsed_seconds, total_seconds } => {
            streaming::milestone_time_extensions_step(l, amount, elapsed_seconds, total_seconds)
        },
        Request::MultisigTransferAdmin { admin, total_amount, ratios } => {
            multisig::multisig_transfer_admin_step(l, admin, total_amount, ratios)
        },
        Request::MultisigApprovalInit { admin, signers, threshold } => {
            multisig::multisig_approval_init_step(l, admin, signers, threshold)
        },
        Request::MultisigApprove { signer, proposal_id } => multisig::multisig_approve_step(
            l,
            signer,
            proposal_id,
        ),
        Request::ProposeAdminTransfer { admin, new_admin, proposal_id } => {
            admin::propose_admin_transfer_step(l, admin, new_admin, proposal_id)
        },
        Request::ExecuteAdminTransfer => admin::execute_admin_transfer_step(l),
        Request::CancelAdminTransferProposal { admin } => {
            admin::cancel_admin_transfer_proposal_step(l, admin)
        },
        Request::SetEscrowInterestYield {
            admin,
            client_share_bps,
            freelancer_share_bps,
        } => interest::set_escrow_interest_yield_step(
            l,
            admin,
            client_share_bps,
            freelancer_share_bps,
        ),
        Request::SetInterestYieldConsent {
            admin,
            client_share_bps,
            freelancer_share_bps,
        } => interest::set_interest_yield_consent_step(
            l,
            admin,
            client_share_bps,
            freelancer_share_bps,
        ),
        Request::LockEscrowInterestYield { admin } => interest::yield_lock_step(l, admin, true),
        Request::UnlockEscrowInterestYield { admin } => interest::yield_lock_step(l, admin, false),
        Request::AdminSetYieldRate { admin, rate_bps } => interest::admin_set_yield_rate_step(
            l,
            admin,
            rate_bps,
        ),
        Request::AdminAccrueYield { admin, milestone_index, accrued_amount } => {
            interest::admin_accrue_yield_step(l, admin, milestone_index, accrued_amount)
        },
        Request::AdminOverrideRelease { admin, milestone_index } => {
            overrides::admin_override_release_step(l, admin, milestone_index)
        },
        Request::AdminOverrideRefund { admin, milestone_index } => {
            overrides::admin_override_refund_step(l, admin, milestone_index)
        },
        Request::AdminOverrideStreamingRelease {
            admin,
            milestone_index,
            elapsed_seconds,
            total_seconds,
        } => streaming::admin_override_streaming_release_step(
            l,
            admin,
            milestone_index,
            elapsed_seconds,
            total_seconds,
        ),
        Request::AdminPauseEscrow { admin } => pause::admin_pause_escrow_step(l, admin),
        Request::AdminResumeEscrow { admin } => pause::admin_resume_escrow_step(l, admin),
        Request::TaxWithholdingDeductions { milestone_index, tax_rate_bps } => {
            tax::tax_withholding_deductions_step(l, milestone_index, tax_rate_bps)
        },
        Request::AdminOverrideTaxRelease { admin, milestone_index } => {
            tax::admin_override_tax_release_step(l, admin, milestone_index)
        },
        Request::AdminOverrideTaxRefund { admin, milestone_index } => {
            tax::admin_override_tax_refund_step(l, admin, milestone_index)
        },
        Request::AdminTaxWithholdingDeductions { admin, milestone_index, tax_rate_bps } => {
            tax::admin_tax_withholding_deductions_step(l, admin, milestone_index, tax_rate_bps)
        },
        Request::MultisigAdminOverrideRelease { admin, milestone_index } => {
            overrides::multisig_admin_override_release_step(l, admin, milestone_index)
        },
        Request::MultisigAdminOverrideRefund { admin, milestone_index } => {
            overrides::multisig_admin_override_refund_step(l, admin, milestone_index)
        },
        Request::MultisigSplitRefund {
            admin,
            total_amount,
            client_refund_bps,
            freelancer_payout_bps,
        } => multisig::multisig_split_refund_step(
            l,
            admin,
            total_amount,
            client_refund_bps,
            freelancer_payout_bps,
        ),
        Request::EmergencyPauseSplitRefund {
            total_amount,
            client_refund_bps,
            freelancer_payout_bps,
        } => pause::emergency_pause_split_refund_step(
            l,
            total_amount,
            client_refund_bps,
            freelancer_payout_bps,
        ),
        Request::EmergencyPauseClaimRefund {
            admin,
            total_amount,
            client_refund_bps,
            freelancer_payout_bps,
        } => pause::emergency_pause_claim_refund_step(
            l,
            admin,
            total_amount,
            client_refund_bps,
            freelancer_payout_bps,
        ),
        Request::EmergencyPauseAllocation { total_amount, weights } => {
            pause::emergency_pause_allocation_step(l, total_amount, weights)
        },
        Request::MultisigLock { admin } => multisig::multisig_lock_step(l, admin),
    }
}

/// What a caller of `request` must see to, because a counter could otherwise
/// leave its range or a list could be longer than the host allows.
pub open spec fn admissible(l: Ledger, request: Request) -> bool {
    match request {
        Request::Initialize { milestone_amounts, .. } => milestone_amounts.len() <= u32::MAX,
        Request::MultisigTransferAdmin { ratios, .. } => ratios.len() <= u32::MAX,
        Request::EmergencyPauseAllocation { weights, .. } => weights.len() <= u32::MAX,
        Request::Upgrade { .. } => refusal(l, request) is None ==> or_default(l.instance.version, 1)
            < u32::MAX,
        Request::ClaimAutoRelease { .. }
        | Request::ApproveMilestone { .. }
        | Request::ApprovePartial { .. }
        | Request::ResolveDispute { .. }
        | Request::ApplyDisputeArbitrationSplit { .. }
        | Request::AdminOverrideStreamingRelease { .. } => refusal(l, request) is None
            ==> l.can_reward(l.instance.job->0),
        _ => true,
    }
}

} // verus!
