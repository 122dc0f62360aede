//! What the escrow announces.

use crate::address::Address;
use crate::amounts::Amounts;
use crate::types::MilestoneStatus;
use vstd::prelude::*;

verus! {

/// The job was set up.
#[derive(Clone, Debug, PartialEq, Eq)]
pub struct InitializedEvent {
    pub client: Address,
    pub freelancer: Address,
    pub arbiter: Address,
    pub token: Address,
    pub auto_release_seconds: u64,
    pub milestone_amounts: Amounts,
    pub total_amount: i128,
    pub milestone_count: u32,
}

/// The client deposited the price of all milestones.
#[derive(Clone, Copy, Debug, PartialEq, Eq, Structural)]
pub struct FundedEvent {
    pub contract_id: Address,
    pub client: Address,
    pub freelancer: Address,
    pub arbiter: Address,
    pub token: Address,
    pub total_amount: i128,
    pub milestone_count: u32,
    pub auto_release_seconds: u64,
    pub funded: bool,
}

/// The freelancer delivered a milestone.
#[derive(Clone, Copy, Debug, PartialEq, Eq, Structural)]
pub struct DeliveredEvent {
    pub contract_id: Address,
    pub milestone_index: u32,
    pub freelancer: Address,
    pub client: Address,
    pub delivered_at: u64,
    pub status: MilestoneStatus,
    pub amount: i128,
}

/// The client moved the automatic release of a milestone further away.
#[derive(Clone, Copy, Debug, PartialEq, Eq, Structural)]
pub struct DeadlineExtendedEvent {
    pub contract_id: Address,
    pub milestone_index: u32,
    pub client: Address,
    pub extra_seconds: u64,
    pub new_extension: u64,
}

/// The client released a milestone, in part or in full.
#[derive(Clone, Copy, Debug, PartialEq, Eq, Structural)]
pub struct ApprovedEvent {
    pub contract_id: Address,
    pub milestone_index: u32,
    pub client: Address,
    pub freelancer: Address,
    pub arbiter: Address,
    pub token: Address,
    /// The price of the milestone, before any release.
    pub amount: i128,
    /// What has been released, this approval counted.
    pub released_amount: i128,
    /// What is left after this approval.
    pub remaining: i128,
    pub status: MilestoneStatus,
    pub milestone_count: u32,
    pub total_amount: i128,
    pub auto_release_seconds: u64,
}

/// The client or the freelancer disputed a milestone.
#[derive(Clone, Copy, Debug, PartialEq, Eq, Structural)]
pub struct DisputeRaisedEvent {
    pub milestone_index: u32,
    pub caller: Address,
}

/// The arbiter settled a disputed milestone.
#[derive(Clone, Copy, Debug, PartialEq, Eq, Structural)]
pub struct DisputeResolvedEvent {
    pub contract_id: Address,
    pub milestone_index: u32,
    pub arbiter: Address,
    pub client: Address,
    pub freelancer: Address,
    pub token: Address,
    /// What was owed before the settlement.
    pub amount: i128,
    /// What was paid: less than `amount` where the contract holds less.
    pub paid_amount: i128,
    pub released_to_freelancer: bool,
    pub status: MilestoneStatus,
}

/// The admin computed the tax on a milestone.
#[derive(Clone, Copy, Debug, PartialEq, Eq, Structural)]
pub struct TaxWithholdingDeductionsEvent {
    pub admin: Address,
    pub contract_id: Address,
    pub milestone_index: u32,
    pub gross_amount: i128,
    pub tax_amount: i128,
    pub net_amount: i128,
    pub tax_rate_bps: u32,
}

/// A milestone was released because its deadline had passed.
#[derive(Clone, Copy, Debug, PartialEq, Eq, Structural)]
pub struct AutoReleasedEvent {
    pub contract_id: Address,
    pub milestone_index: u32,
    pub freelancer: Address,
    pub client: Address,
    pub token: Address,
    pub amount: i128,
    pub delivered_at: u64,
    pub released_at: u64,
    pub auto_release_seconds: u64,
}

/// The admin handed the role over.
#[derive(Clone, Copy, Debug, PartialEq, Eq, Structural)]
pub struct TransferAdminEvent {
    pub old_admin: Address,
    pub new_admin: Address,
}

/// The admin accepted a token.
#[derive(Clone, Copy, Debug, PartialEq, Eq, Structural)]
pub struct TokenWhitelistedEvent {
    pub admin: Address,
    pub token: Address,
}

/// The admin withdrew a token.
#[derive(Clone, Copy, Debug, PartialEq, Eq, Structural)]
pub struct TokenRemovedEvent {
    pub admin: Address,
    pub token: Address,
}

/// The freelancer claimed a milestone after its deadline.
#[derive(Clone, Copy, Debug, PartialEq, Eq, Structural)]
pub struct ClaimedEvent {
    pub contract_id: Address,
    pub milestone_index: u32,
    pub freelancer: Address,
    pub token: Address,
    pub amount: i128,
}

/// The client or the freelancer asked for cancellation.
#[derive(Clone, Copy, Debug, PartialEq, Eq, Structural)]
pub struct CancelEscrowInitiatedEvent {
    pub contract_id: Address,
    pub caller: Address,
}

/// The admin settled a cancellation in favour of the freelancer.
#[derive(Clone, Copy, Debug, PartialEq, Eq, Structural)]
pub struct AdminCancelOverrideReleaseEvent {
    pub admin: Address,
    pub contract_id: Address,
    pub freelancer: Address,
    pub token: Address,
    pub total_released: i128,
}

/// The admin settled a cancellation in favour of the client.
#[derive(Clone, Copy, Debug, PartialEq, Eq, Structural)]
pub struct AdminCancelOverrideRefundEvent {
    pub admin: Address,
    pub contract_id: Address,
    pub client: Address,
    pub token: Address,
    pub total_refunded: i128,
}

/// The admin froze the escrow.
#[derive(Clone, Copy, Debug, PartialEq, Eq, Structural)]
pub struct EmergencyPausedEvent {
    pub admin: Address,
    pub contract_id: Address,
}

/// The admin lifted the freeze.
#[derive(Clone, Copy, Debug, PartialEq, Eq, Structural)]
pub struct EmergencyUnpausedEvent {
    pub admin: Address,
    pub contract_id: Address,
}

/// The admin set the freeze to the given value.
#[derive(Clone, Copy, Debug, PartialEq, Eq, Structural)]
pub struct EmergencyPauseAdminOverrideEvent {
    pub admin: Address,
    pub contract_id: Address,
    pub paused: bool,
}

/// The tax on a milestone was computed and recorded.
#[derive(Clone, Copy, Debug, PartialEq, Eq, Structural)]
pub struct TaxWithholdingAppliedEvent {
    pub contract_id: Address,
    pub milestone_index: u32,
    pub gross_amount: i128,
    pub tax_amount: i128,
    pub net_amount: i128,
    pub tax_rate_bps: u32,
}

/// The admin paid a taxed milestone out, net of the tax.
#[derive(Clone, Copy, Debug, PartialEq, Eq, Structural)]
pub struct AdminOverrideTaxReleaseEvent {
    pub admin: Address,
    pub contract_id: Address,
    pub milestone_index: u32,
    pub freelancer: Address,
    pub token: Address,
    pub net_amount: i128,
    pub tax_amount: i128,
}

/// The admin refunded a taxed milestone, gross of the tax.
#[derive(Clone, Copy, Debug, PartialEq, Eq, Structural)]
pub struct AdminOverrideTaxRefundEvent {
    pub admin: Address,
    pub contract_id: Address,
    pub milestone_index: u32,
    pub client: Address,
    pub token: Address,
    pub gross_amount: i128,
}

/// The admin changed the annual yield rate.
#[derive(Clone, Copy, Debug, PartialEq, Eq, Structural)]
pub struct YieldRateSetEvent {
    pub admin: Address,
    pub old_rate_bps: u32,
    pub new_rate_bps: u32,
}

/// The admin booked yield.
#[derive(Clone, Copy, Debug, PartialEq, Eq, Structural)]
pub struct YieldAccruedEvent {
    pub admin: Address,
    pub milestone_index: u32,
    pub accrued_amount: i128,
    pub total_accrued: i128,
}

/// The admin released a milestone to the freelancer.
#[derive(Clone, Copy, Debug, PartialEq, Eq, Structural)]
pub struct AdminOverrideReleaseEvent {
    pub admin: Address,
    pub contract_id: Address,
    pub milestone_index: u32,
    pub freelancer: Address,
    pub token: Address,
    pub amount: i128,
}

/// The admin refunded a milestone to the client.
#[derive(Clone, Copy, Debug, PartialEq, Eq, Structural)]
pub struct AdminOverrideRefundEvent {
    pub admin: Address,
    pub contract_id: Address,
    pub milestone_index: u32,
    pub client: Address,
    pub token: Address,
    pub amount: i128,
}

/// The yield shares were changed with the consent of both parties.
#[derive(Clone, Copy, Debug, PartialEq, Eq, Structural)]
pub struct EscrowInterestYieldConsentSetEvent {
    pub admin: Address,
    pub client: Address,
    pub freelancer: Address,
    pub client_share_bps: u32,
    pub freelancer_share_bps: u32,
}

/// The admin divided a disputed milestone by elapsed time.
#[derive(Clone, Copy, Debug, PartialEq, Eq, Structural)]
pub struct AdminOverrideStreamingReleaseEvent {
    pub admin: Address,
    pub contract_id: Address,
    pub milestone_index: u32,
    pub client: Address,
    pub freelancer: Address,
    pub token: Address,
    pub client_refund: i128,
    pub freelancer_payout: i128,
}

/// A signer approved a proposal.
#[derive(Clone, Copy, Debug, PartialEq, Eq, Structural)]
pub struct MultiSigApprovedEvent {
    pub proposal_id: u32,
    pub signer: Address,
    pub approvals: u32,
    pub threshold: u32,
    pub approved: bool,
    pub bitmap: u32,
}

/// A transfer of the admin role was proposed.
#[derive(Clone, Copy, Debug, PartialEq, Eq, Structural)]
pub struct AdminTransferProposedEvent {
    pub admin: Address,
    pub new_admin: Address,
    pub proposal_id: u32,
}

/// A proposed transfer of the admin role took effect.
#[derive(Clone, Copy, Debug, PartialEq, Eq, Structural)]
pub struct AdminTransferExecutedEvent {
    pub old_admin: Address,
    pub new_admin: Address,
    pub proposal_id: u32,
}

/// A proposed transfer of the admin role was withdrawn.
#[derive(Clone, Copy, Debug, PartialEq, Eq, Structural)]
pub struct AdminTransferCancelledEvent {
    pub admin: Address,
    pub proposal_id: u32,
}

/// The admin paused the everyday requests.
#[derive(Clone, Copy, Debug, PartialEq, Eq, Structural)]
pub struct EscrowPausedEvent {
    pub admin: Address,
    pub contract_id: Address,
}

/// The admin resumed the everyday requests.
#[derive(Clone, Copy, Debug, PartialEq, Eq, Structural)]
pub struct EscrowResumedEvent {
    pub admin: Address,
    pub contract_id: Address,
}

/// A token was accepted.
#[derive(Clone, Copy, Debug, PartialEq, Eq, Structural)]
pub struct WhitelistedTokenAddedEvent {
    pub token: Address,
}

/// A token was withdrawn.
#[derive(Clone, Copy, Debug, PartialEq, Eq, Structural)]
pub struct WhitelistedTokenRemovedEvent {
    pub token: Address,
}

/// A part of a milestone was released.
#[derive(Clone, Copy, Debug, PartialEq, Eq, Structural)]
pub struct PartialReleaseApprovedEvent {
    pub milestone_index: u32,
    pub amount: i128,
}

/// A milestone was claimed after its deadline.
#[derive(Clone, Copy, Debug, PartialEq, Eq, Structural)]
pub struct AutoReleaseClaimedEvent {
    pub milestone_index: u32,
    pub amount: i128,
}

/// An amount was divided by elapsed time.
#[derive(Clone, Copy, Debug, PartialEq, Eq, Structural)]
pub struct MilestoneTimeExtensionEvent {
    pub amount: i128,
    pub elapsed_seconds: i128,
    pub total_seconds: i128,
    pub freelancer_share: i128,
    pub client_refund: i128,
}

/// An amount was divided by a streaming ratio.
#[derive(Clone, Copy, Debug, PartialEq, Eq, Structural)]
pub struct PaymentStreamingEvent {
    pub total_amount: i128,
    pub numerator: i128,
    pub denominator: i128,
    pub streamed_payout: i128,
    pub client_refund: i128,
}

/// An amount was divided by a streaming ratio that both parties signed.
#[derive(Clone, Copy, Debug, PartialEq, Eq, Structural)]
pub struct PaymentStreamingConsentEvent {
    pub client: Address,
    pub freelancer: Address,
    pub total_amount: i128,
    pub numerator: i128,
    pub denominator: i128,
    pub streamed_payout: i128,
    pub client_refund: i128,
}

/// A frozen amount was divided among weighted parties.
#[derive(Clone, Debug, PartialEq, Eq)]
pub struct EmergencyPauseAllocationEvent {
    pub total_amount: i128,
    pub num_parties: u32,
    /// What each party receives; sums to `total_amount`.
    pub allocations: Amounts,
}

/// The admin released a milestone that the multisig workflow had locked.
#[derive(Clone, Copy, Debug, PartialEq, Eq, Structural)]
pub struct MultisigAdminOverrideReleaseEvent {
    pub admin: Address,
    pub contract_id: Address,
    pub milestone_index: u32,
    pub freelancer: Address,
    pub token: Address,
    pub amount: i128,
}

/// The admin refunded a milestone that the multisig workflow had locked.
#[derive(Clone, Copy, Debug, PartialEq, Eq, Structural)]
pub struct MultisigAdminOverrideRefundEvent {
    pub admin: Address,
    pub contract_id: Address,
    pub milestone_index: u32,
    pub client: Address,
    pub token: Address,
    pub amount: i128,
}

/// An amount was divided between the client and the freelancer.
#[derive(Clone, Copy, Debug, PartialEq, Eq, Structural)]
pub struct SplitRefundCalculatedEvent {
    pub client_refund: i128,
    pub freelancer_payout: i128,
    pub client_refund_bps: u32,
    pub freelancer_payout_bps: u32,
}

/// The admin divided an amount among weighted parties.
#[derive(Clone, Debug, PartialEq, Eq)]
pub struct MultiSigTransferAdminEvent {
    pub total_amount: i128,
    pub num_parties: u32,
    /// What each party receives; sums to `total_amount`.
    pub allocations: Amounts,
}

/// One announcement, with the payload that its topic carries.
#[derive(Clone, Debug, PartialEq, Eq)]
pub enum Event {
    Initialized(InitializedEvent),
    TransferAdmin(TransferAdminEvent),
    TokenWhitelisted(TokenWhitelistedEvent),
    TokenRemoved(TokenRemovedEvent),
    Funded(FundedEvent),
    Delivered(DeliveredEvent),
    DeadlineExtended(DeadlineExtendedEvent),
    Claimed(ClaimedEvent),
    Approved(ApprovedEvent),
    DisputeRaised(DisputeRaisedEvent),
    DisputeResolved(DisputeResolvedEvent),
    CancelEscrowInitiated(CancelEscrowInitiatedEvent),
    AdminCancelOverrideRelease(AdminCancelOverrideReleaseEvent),
    AdminCancelOverrideRefund(AdminCancelOverrideRefundEvent),
    EmergencyPaused(EmergencyPausedEvent),
    EmergencyUnpaused(EmergencyUnpausedEvent),
    EmergencyPauseAdminOverride(EmergencyPauseAdminOverrideEvent),
    PaymentStreaming(PaymentStreamingEvent),
    PaymentStreamingConsent(PaymentStreamingConsentEvent),
    MilestoneTimeExtension(MilestoneTimeExtensionEvent),
    MultiSigTransferAdmin(MultiSigTransferAdminEvent),
    MultiSigApproved(MultiSigApprovedEvent),
    AdminTransferProposed(AdminTransferProposedEvent),
    AdminTransferExecuted(AdminTransferExecutedEvent),
    AdminTransferCancelled(AdminTransferCancelledEvent),
    EscrowInterestYieldConsentSet(EscrowInterestYieldConsentSetEvent),
    YieldRateSet(YieldRateSetEvent),
    YieldAccrued(YieldAccruedEvent),
    AdminOverrideRelease(AdminOverrideReleaseEvent),
    AdminOverrideRefund(AdminOverrideRefundEvent),
    AdminOverrideStreamingRelease(AdminOverrideStreamingReleaseEvent),
    EscrowPaused(EscrowPausedEvent),
    EscrowResumed(EscrowResumedEvent),
    TaxWithholdingApplied(TaxWithholdingAppliedEvent),
    AdminOverrideTaxRelease(AdminOverrideTaxReleaseEvent),
    AdminOverrideTaxRefund(AdminOverrideTaxRefundEvent),
    TaxWithholdingDeductions(TaxWithholdingDeductionsEvent),
    MultisigAdminOverrideRelease(MultisigAdminOverrideReleaseEvent),
    MultisigAdminOverrideRefund(MultisigAdminOverrideRefundEvent),
    MultisigSplitRefund(SplitRefundCalculatedEvent),
    EmergencyPauseSplitRefund(SplitRefundCalculatedEvent),
    EmergencyPauseAllocation(EmergencyPauseAllocationEvent),
}

/// The topic under which `event` is published.
pub open spec fn topic_of(event: Event) -> Seq<char> {
    match event {
        Event::Initialized(_) => "init"@,
        Event::TransferAdmin(_) => "admin"@,
        Event::TokenWhitelisted(_) => "wtok"@,
        Event::TokenRemoved(_) => "wldel"@,
        Event::Funded(_) => "fund"@,
        Event::Delivered(_) => "deliver"@,
        Event::DeadlineExtended(_) => "extend"@,
        Event::Claimed(_) => "claim"@,
        Event::Approved(_) => "approve"@,
        Event::DisputeRaised(_) => "dispute"@,
        Event::DisputeResolved(_) => "resolve"@,
        Event::CancelEscrowInitiated(_) => "cancel"@,
        Event::AdminCancelOverrideRelease(_) => "adcovls"@,
        Event::AdminCancelOverrideRefund(_) => "adcovrf"@,
        Event::EmergencyPaused(_) => "empause"@,
        Event::EmergencyUnpaused(_) => "emunpause"@,
        Event::EmergencyPauseAdminOverride(_) => "emoverrid"@,
        Event::PaymentStreaming(_) => "p_stream"@,
        Event::PaymentStreamingConsent(_) => "p_strcns"@,
        Event::MilestoneTimeExtension(_) => "m_ext"@,
        Event::MultiSigTransferAdmin(_) => "msigtrx"@,
        Event::MultiSigApproved(_) => "msigappr"@,
        Event::AdminTransferProposed(_) => "adminprp"@,
        Event::AdminTransferExecuted(_) => "adminexc"@,
        Event::AdminTransferCancelled(_) => "admincxl"@,
        Event::EscrowInterestYieldConsentSet(_) => "yldcons"@,
        Event::YieldRateSet(_) => "yldrate"@,
        Event::YieldAccrued(_) => "yldacc"@,
        Event::AdminOverrideRelease(_) => "admovrls"@,
        Event::AdminOverrideRefund(_) => "admovrf"@,
        Event::AdminOverrideStreamingRelease(_) => "admstrm"@,
        Event::EscrowPaused(_) => "pause"@,
        Event::EscrowResumed(_) => "resume"@,
        Event::TaxWithholdingApplied(_) => "taxwith"@,
        Event::AdminOverrideTaxRelease(_) => "adtxrls"@,
        Event::AdminOverrideTaxRefund(_) => "adtxrfd"@,
        Event::TaxWithholdingDeductions(_) => "taxwh"@,
        Event::MultisigAdminOverrideRelease(_) => "msadmrel"@,
        Event::MultisigAdminOverrideRefund(_) => "msadmref"@,
        Event::MultisigSplitRefund(_) => "splitref"@,
        Event::EmergencyPauseSplitRefund(_) => "epspltref"@,
        Event::EmergencyPauseAllocation(_) => "epalloc"@,
    }
}

impl Event {
    /// The topic under which this event is published.
    pub fn topic(&self) -> (r: &'static str)
        ensures
            r@ == topic_of(*self),
    {
        match self {
            Event::Initialized(_) => "init",
            Event::TransferAdmin(_) => "admin",
            Event::TokenWhitelisted(_) => "wtok",
            Event::TokenRemoved(_) => "wldel",
            Event::Funded(_) => "fund",
            Event::Delivered(_) => "deliver",
            Event::DeadlineExtended(_) => "extend",
            Event::Claimed(_) => "claim",
            Event::Approved(_) => "approve",
            Event::DisputeRaised(_) => "dispute",
            Event::DisputeResolved(_) => "resolve",
            Event::CancelEscrowInitiated(_) => "cancel",
            Event::AdminCancelOverrideRelease(_) => "adcovls",
            Event::AdminCancelOverrideRefund(_) => "adcovrf",
            Event::EmergencyPaused(_) => "empause",
            Event::EmergencyUnpaused(_) => "emunpause",
            Event::EmergencyPauseAdminOverride(_) => "emoverrid",
            Event::PaymentStreaming(_) => "p_stream",
            Event::PaymentStreamingConsent(_) => "p_strcns",
            Event::MilestoneTimeExtension(_) => "m_ext",
            Event::MultiSigTransferAdmin(_) => "msigtrx",
            Event::MultiSigApproved(_) => "msigappr",
            Event::AdminTransferProposed(_) => "adminprp",
            Event::AdminTransferExecuted(_) => "adminexc",
            Event::AdminTransferCancelled(_) => "admincxl",
            Event::EscrowInterestYieldConsentSet(_) => "yldcons",
            Event::YieldRateSet(_) => "yldrate",
            Event::YieldAccrued(_) => "yldacc",
            Event::AdminOverrideRelease(_) => "admovrls",
            Event::AdminOverrideRefund(_) => "admovrf",
            Event::AdminOverrideStreamingRelease(_) => "admstrm",
            Event::EscrowPaused(_) => "pause",
            Event::EscrowResumed(_) => "resume",
            Event::TaxWithholdingApplied(_) => "taxwith",
            Event::AdminOverrideTaxRelease(_) => "adtxrls",
            Event::AdminOverrideTaxRefund(_) => "adtxrfd",
            Event::TaxWithholdingDeductions(_) => "taxwh",
            Event::MultisigAdminOverrideRelease(_) => "msadmrel",
            Event::MultisigAdminOverrideRefund(_) => "msadmref",
            Event::MultisigSplitRefund(_) => "splitref",
            Event::EmergencyPauseSplitRefund(_) => "epspltref",
            Event::EmergencyPauseAllocation(_) => "epalloc",
        }
    }
}

/// An event as mathematics sees it: payloads that hold a list are given by the
/// sequence of its elements, every other event by itself.
pub enum EventView {
    Plain(Event),
    Initialized {
        client: Address,
        freelancer: Address,
        arbiter: Address,
        token: Address,
        auto_release_seconds: u64,
        milestone_amounts: Seq<i128>,
        total_amount: i128,
        milestone_count: u32,
    },
    EmergencyPauseAllocation {
        total_amount: i128,
        num_parties: u32,
        allocations: Seq<i128>,
    },
    MultiSigTransferAdmin {
        total_amount: i128,
        num_parties: u32,
        allocations: Seq<i128>,
    },
}

impl View for Event {
    type V = EventView;

    open spec fn view(&self) -> EventView {
        match *self {
            Event::Initialized(e) => EventView::Initialized {
                client: e.client,
                freelancer: e.freelancer,
                arbiter: e.arbiter,
                token: e.token,
                auto_release_seconds: e.auto_release_seconds,
                milestone_amounts: e.milestone_amounts@,
                total_amount: e.total_amount,
                milestone_count: e.milestone_count,
            },
            Event::EmergencyPauseAllocation(e) => EventView::EmergencyPauseAllocation {
                total_amount: e.total_amount,
                num_parties: e.num_parties,
                allocations: e.allocations@,
            },
            Event::MultiSigTransferAdmin(e) => EventView::MultiSigTransferAdmin {
                total_amount: e.total_amount,
                num_parties: e.num_parties,
                allocations: e.allocations@,
            },
            _ => EventView::Plain(*self),
        }
    }
}

} // verus!
