//! What a single request can do to the ledger.

use crate::address::Address;
use crate::cancellation::{all_closed, all_owed, lemma_all_owed_fits};
use crate::guards::{is_terminal, owed};
use crate::ledger::{EffectView, Ledger};
use crate::requests::{admissible, refusal, step, Request};
use crate::soundness::{is_untouched, milestone_sound, settings_sound, tax_records_sound};
use crate::splits::{lemma_refund_conserves, lemma_split_conserves};
use crate::types::{JobMeta, Milestone, MilestoneStatus, BPS_SCALE};
use crate::whitelist::{lemma_position_iff_contains, lemma_without};
use vstd::prelude::*;

verus! {

// ── refused requests ─────────────────────────────────────────────────────────

/// The stored entries and what the host reports are the same.
pub open spec fn same_entries(a: Ledger, b: Ledger) -> bool {
    b == (Ledger { effects: b.effects, ..a })
}

/// `after` asks for all that `before` asks for, in the same order, and perhaps
/// for more.
pub open spec fn extends(before: Seq<EffectView>, after: Seq<EffectView>) -> bool {
    &&& before.len() <= after.len()
    &&& forall|i: int| 0 <= i < before.len() ==> #[trigger] after[i] == before[i]
}

/// `after` asks for nothing more than `before`, apart from signatures.
pub open spec fn only_signatures_more(before: Seq<EffectView>, after: Seq<EffectView>) -> bool {
    forall|i: int| before.len() <= i < after.len() ==> (#[trigger] after[i]) is RequireAuth
}

// ── milestones ───────────────────────────────────────────────────────────────

/// The milestone that `request` is about, where it can change a single one.
pub open spec fn target(request: Request) -> Option<u32> {
    match request {
        Request::MarkDelivered { milestone_index, .. }
        | Request::ClaimAutoRelease { milestone_index, .. }
        | Request::ApprovePartial { milestone_index, .. }
        | Request::ApproveMilestone { milestone_index, .. }
        | Request::RaiseDispute { milestone_index, .. }
        | Request::ResolveDispute { milestone_index, .. }
        | Request::ApplyDisputeArbitrationSplit { milestone_index, .. }
        | Request::AdminOverrideRelease { milestone_index, .. }
        | Request::AdminOverrideRefund { milestone_index, .. }
        | Request::AdminOverrideStreamingRelease { milestone_index, .. }
        | Request::AdminOverrideTaxRelease { milestone_index, .. }
        | Request::AdminOverrideTaxRefund { milestone_index, .. }
        | Request::MultisigAdminOverrideRelease { milestone_index, .. }
        | Request::MultisigAdminOverrideRefund { milestone_index, .. } => Some(milestone_index),
        _ => None,
    }
}

/// `request` settles all milestones at once.
pub open spec fn settles_all(request: Request) -> bool {
    request is AdminOverrideCancelRelease || request is AdminOverrideCancelRefund
}

/// A milestone can pass from the one status to the other by a single request.
pub open spec fn can_become(from: MilestoneStatus, to: MilestoneStatus) -> bool {
    match from {
        MilestoneStatus::Pending => to != MilestoneStatus::Pending && to
            != MilestoneStatus::PartiallyReleased,
        MilestoneStatus::Delivered => to != MilestoneStatus::Pending && to
            != MilestoneStatus::Delivered,
        MilestoneStatus::PartiallyReleased => to != MilestoneStatus::Pending && to
            != MilestoneStatus::Delivered,
        MilestoneStatus::Disputed => is_terminal(to),
        MilestoneStatus::Released | MilestoneStatus::Refunded => false,
    }
}

/// What is to be paid for a milestone until it is settled.
pub open spec fn due(milestone: Milestone) -> int {
    if is_terminal(milestone.status) {
        0
    } else {
        owed(milestone)
    }
}

/// Where `request` settles a taxed milestone, the tax was computed on no more
/// than is owed by now.
pub open spec fn tax_is_current(l: Ledger, request: Request) -> bool {
    match request {
        Request::AdminOverrideTaxRelease { milestone_index, .. }
        | Request::AdminOverrideTaxRefund { milestone_index, .. } => {
            let record = l.persistent.tax_records[milestone_index];
            0 <= record.net_amount <= record.gross_amount <= owed(
                l.persistent.milestones[milestone_index],
            )
        },
        _ => true,
    }
}

/// What `effect` takes out of the contract's balance.
pub open spec fn taken_by(effect: EffectView, contract: Address) -> int {
    match effect {
        EffectView::Transfer { from, amount, .. } => if from == contract {
            amount as int
        } else {
            0
        },
        _ => 0,
    }
}

/// What `effects` take out of the contract's balance together.
pub open spec fn paid_out(effects: Seq<EffectView>, contract: Address) -> int
    decreases effects.len(),
{
    if effects.len() == 0 {
        0
    } else {
        paid_out(effects.drop_last(), contract) + taken_by(effects.last(), contract)
    }
}

/// One more effect takes what it takes.
pub broadcast proof fn lemma_paid_push(
    effects: Seq<EffectView>,
    effect: EffectView,
    contract: Address,
)
    ensures
        #[trigger] paid_out(effects.push(effect), contract) == paid_out(effects, contract)
            + taken_by(effect, contract),
{
    assert(effects.push(effect).drop_last() =~= effects);
}

/// What `effect` brings into the contract's balance from elsewhere.
pub open spec fn brought_by(effect: EffectView, contract: Address) -> int {
    match effect {
        EffectView::Transfer { from, to, amount, .. } => if to == contract && from != contract {
            amount as int
        } else {
            0
        },
        _ => 0,
    }
}

/// What `effects` bring into the contract's balance together.
pub open spec fn brought_in(effects: Seq<EffectView>, contract: Address) -> int
    decreases effects.len(),
{
    if effects.len() == 0 {
        0
    } else {
        brought_in(effects.drop_last(), contract) + brought_by(effects.last(), contract)
    }
}

/// One more effect brings what it brings.
pub broadcast proof fn lemma_brought_push(
    effects: Seq<EffectView>,
    effect: EffectView,
    contract: Address,
)
    ensures
        #[trigger] brought_in(effects.push(effect), contract) == brought_in(effects, contract)
            + brought_by(effect, contract),
{
    assert(effects.push(effect).drop_last() =~= effects);
}

/// Beyond what `l` asks for, `next` moves the job's token only: out of the
/// contract to the client or the freelancer, or in from the client.
pub open spec fn only_the_parties_trade(l: Ledger, next: Ledger) -> bool {
    forall|i: int|
        l.effects.len() <= i < next.effects.len() ==> match #[trigger] next.effects[i] {
            EffectView::Transfer { token, from, to, .. } => {
                &&& l.instance.job matches Some(job)
                &&& token == job.token
                &&& (from == l.contract && (to == job.client || to == job.freelancer)) || (from
                    == job.client && to == l.contract)
            },
            _ => true,
        }
}

/// What `request` does to the milestone that it is about: the milestone stays
/// sound and keeps its price, it was not settled before, what was released is
/// not taken back, and no more is paid than the milestone is due. While the job
/// is not funded, no fresh milestone changes.
pub open spec fn lawful_for_target(l: Ledger, next: Ledger, request: Request, index: u32) -> bool {
    let old_milestone = l.persistent.milestones[index];
    let new_milestone = next.persistent.milestones[index];
    &&& l.persistent.milestones.contains_key(index)
    &&& l.instance.job matches Some(job) && (job.funded || old_milestone.status
        != MilestoneStatus::Pending)
    &&& next.persistent.milestones == l.persistent.milestones.insert(index, new_milestone)
    &&& milestone_sound(old_milestone) ==> {
        &&& milestone_sound(new_milestone)
        &&& new_milestone.amount == old_milestone.amount
        &&& new_milestone.released_amount >= old_milestone.released_amount
        &&& can_become(old_milestone.status, new_milestone.status)
        &&& tax_is_current(l, request) ==> paid_out(next.effects, l.contract) - paid_out(
            l.effects,
            l.contract,
        ) <= due(old_milestone) - due(new_milestone)
    }
}

/// What `request` does to the milestones.
pub open spec fn lawful_for_milestones(l: Ledger, next: Ledger, request: Request) -> bool {
    if request is Initialize {
        paid_out(next.effects, l.contract) == paid_out(l.effects, l.contract)
    } else if settles_all(request) {
        let release = request is AdminOverrideCancelRelease;
        &&& l.instance.job matches Some(job) && job.funded
        &&& next.persistent.milestones == all_closed(
            l.persistent.milestones,
            l.instance.job->0.milestone_count,
            if release {
                MilestoneStatus::Released
            } else {
                MilestoneStatus::Refunded
            },
        )
        &&& all_owed(
            l.persistent.milestones,
            l.instance.job->0.milestone_count,
            !release,
        ) matches Ok(total) && paid_out(next.effects, l.contract) == paid_out(
            l.effects,
            l.contract,
        ) + total
    } else {
        match target(request) {
            Some(index) => lawful_for_target(l, next, request, index),
            None => {
                &&& next.persistent.milestones == l.persistent.milestones
                &&& paid_out(next.effects, l.contract) == paid_out(l.effects, l.contract)
            },
        }
    }
}

// ── authority ────────────────────────────────────────────────────────────────

/// The first signature that `next` demands beyond those of `l` is `who`'s.
pub open spec fn signed_by(l: Ledger, next: Ledger, who: Address) -> bool {
    &&& next.effects.len() > l.effects.len()
    &&& next.effects[l.effects.len() as int] == EffectView::RequireAuth(who)
}

/// Both parties of the job must sign, in the order client, freelancer, after
/// `skipped` other signatures.
pub open spec fn signed_by_both(l: Ledger, next: Ledger, skipped: int) -> bool {
    let at = l.effects.len() + skipped;
    &&& l.instance.job matches Some(job)
    &&& next.effects.len() > at + 1
    &&& next.effects[at] == EffectView::RequireAuth(job.client)
    &&& next.effects[at + 1] == EffectView::RequireAuth(job.freelancer)
}

/// Whoever makes a request that is granted is entitled to, and must sign.
pub open spec fn authorized(l: Ledger, next: Ledger, request: Request) -> bool {
    match request {
        Request::Initialize { admin, .. } => signed_by(l, next, admin),
        Request::Fund { client }
        | Request::ExtendMilestoneDeadline { client, .. }
        | Request::ApprovePartial { client, .. }
        | Request::ApproveMilestone { client, .. } => {
            &&& l.instance.job matches Some(job) && job.client == client
            &&& signed_by(l, next, client)
        },
        Request::MarkDelivered { freelancer, .. }
        | Request::ClaimAutoRelease { freelancer, .. } => {
            &&& l.instance.job matches Some(job) && job.freelancer == freelancer
            &&& signed_by(l, next, freelancer)
        },
        Request::RaiseDispute { caller, .. } | Request::CancelEscrow { caller } => {
            &&& l.instance.job matches Some(job) && (job.client == caller || job.freelancer
                == caller)
            &&& signed_by(l, next, caller)
        },
        Request::ResolveDispute { arbiter, .. }
        | Request::ApplyDisputeArbitrationSplit { arbiter, .. } => {
            &&& l.instance.job matches Some(job) && job.arbiter == arbiter
            &&& signed_by(l, next, arbiter)
        },
        Request::MultisigApprove { signer, .. } => {
            &&& l.instance.multisig_signers matches Some(signers) && signers.contains(signer)
            &&& signed_by(l, next, signer)
        },
        Request::PaymentStreamingConsent { .. } | Request::TaxWithholdingDeductions { .. } => {
            signed_by_both(l, next, 0)
        },
        Request::SetInterestYieldConsent { admin, .. } => {
            &&& l.persistent.admin == Some(admin)
            &&& signed_by(l, next, admin)
            &&& signed_by_both(l, next, 1)
        },
        Request::PaymentStreamingMilestones { .. }
        | Request::MilestoneTimeExtensions { .. }
        | Request::EmergencyPauseSplitRefund { .. }
        | Request::EmergencyPauseAllocation { .. }
        | Request::ExecuteAdminTransfer => true,
        Request::TransferAdmin { current_admin: admin, .. }
        | Request::AddWhitelistedToken { admin, .. }
        | Request::RemoveWhitelistedToken { admin, .. }
        | Request::AdminOverrideCancelRelease { admin }
        | Request::AdminOverrideCancelRefund { admin }
        | Request::Upgrade { admin, .. }
        | Request::EmergencyPause { admin }
        | Request::EmergencyUnpause { admin }
        | Request::EmergencyPauseAdminOverride { admin, .. }
        | Request::SetPlatformFeeAllocation { admin, .. }
        | Request::LockPlatformFeeAllocation { admin }
        | Request::PfAllocAdminOverride { admin, .. }
        | Request::MultisigTransferAdmin { admin, .. }
        | Request::MultisigApprovalInit { admin, .. }
        | Request::ProposeAdminTransfer { admin, .. }
        | Request::CancelAdminTransferProposal { admin }
        | Request::SetEscrowInterestYield { admin, .. }
        | Request::LockEscrowInterestYield { admin }
        | Request::UnlockEscrowInterestYield { admin }
        | Request::AdminSetYieldRate { admin, .. }
        | Request::AdminAccrueYield { admin, .. }
        | Request::AdminOverrideRelease { admin, .. }
        | Request::AdminOverrideRefund { admin, .. }
        | Request::AdminOverrideStreamingRelease { admin, .. }
        | Request::AdminPauseEscrow { admin }
        | Request::AdminResumeEscrow { admin }
        | Request::AdminOverrideTaxRelease { admin, .. }
        | Request::AdminOverrideTaxRefund { admin, .. }
        | Request::AdminTaxWithholdingDeductions { admin, .. }
        | Request::MultisigAdminOverrideRelease { admin, .. }
        | Request::MultisigAdminOverrideRefund { admin, .. }
        | Request::MultisigSplitRefund { admin, .. }
        | Request::EmergencyPauseClaimRefund { admin, .. }
        | Request::MultisigLock { admin } => {
            &&& l.persistent.admin == Some(admin)
            &&& signed_by(l, next, admin)
        },
    }
}

// ── all of it ────────────────────────────────────────────────────────────────

/// What holds of a request that is granted.
pub open spec fn lawful_when_granted(l: Ledger, next: Ledger, request: Request) -> bool {
    &&& l.contract == next.contract
    &&& l.timestamp == next.timestamp
    &&& l.token_balance == next.token_balance
    &&& extends(l.effects, next.effects)
    &&& authorized(l, next, request)
    &&& lawful_for_milestones(l, next, request)
    &&& only_the_parties_trade(l, next)
    &&& brought_in(next.effects, l.contract) == brought_in(l.effects, l.contract) + if request
        is Fund {
        l.instance.job->0.total_amount as int
    } else {
        0
    }
    &&& l.instance.job matches Some(job) ==> next.instance.job == Some(
        JobMeta { funded: job.funded || request is Fund, ..job },
    )
    &&& l.instance.job is Some && settings_sound(l) ==> settings_sound(next)
    &&& l.instance.job matches Some(job) ==> (tax_records_sound(l, job) ==> tax_records_sound(
        next,
        job,
    ))
    &&& is_untouched(l) && !(request is Initialize) ==> is_untouched(next)
    &&& admissible(l, request) ==> forall|who: Address|
        next.reputation_of(who) >= #[trigger] l.reputation_of(who)
}

/// What holds of every request.
pub open spec fn lawful(l: Ledger, request: Request) -> bool {
    let next = step(l, request);
    if refusal(l, request) is Some {
        &&& same_entries(l, next)
        &&& extends(l.effects, next.effects)
        &&& only_signatures_more(l.effects, next.effects)
    } else {
        lawful_when_granted(l, next, request)
    }
}

proof fn lemma_initialize(
    l: Ledger,
    admin: Address,
    client: Address,
    freelancer: Address,
    arbiter: Address,
    token: Address,
    auto_release_seconds: u64,
    milestone_amounts: Seq<i128>,
)
    ensures
        lawful(
            l,
            Request::Initialize {
                admin,
                client,
                freelancer,
                arbiter,
                token,
                auto_release_seconds,
                milestone_amounts,
            },
        ),
{
    broadcast use {lemma_paid_push, lemma_brought_push};

    reveal(refusal);
    reveal(step);
}

proof fn lemma_transfer_admin(l: Ledger, current_admin: Address, new_admin: Address)
    ensures
        lawful(l, Request::TransferAdmin { current_admin, new_admin }),
{
    broadcast use {lemma_paid_push, lemma_brought_push};

    reveal(refusal);
    reveal(step);
}

proof fn lemma_add_whitelisted_token(l: Ledger, admin: Address, token: Address)
    ensures
        lawful(l, Request::AddWhitelistedToken { admin, token }),
{
    broadcast use {lemma_paid_push, lemma_brought_push};

    reveal(refusal);
    reveal(step);
}

proof fn lemma_remove_whitelisted_token(l: Ledger, admin: Address, token: Address)
    ensures
        lawful(l, Request::RemoveWhitelistedToken { admin, token }),
{
    broadcast use {lemma_paid_push, lemma_brought_push};

    reveal(refusal);
    reveal(step);
    let request = Request::RemoveWhitelistedToken { admin, token };
    if refusal(l, request) is None && settings_sound(l) {
        lemma_without(l.instance.whitelist->0, token);
    }
}

proof fn lemma_fund(l: Ledger, client: Address)
    ensures
        lawful(l, Request::Fund { client }),
{
    broadcast use {lemma_paid_push, lemma_brought_push};

    reveal(refusal);
    reveal(step);
}

proof fn lemma_mark_delivered(l: Ledger, freelancer: Address, milestone_index: u32)
    ensures
        lawful(l, Request::MarkDelivered { freelancer, milestone_index }),
{
    broadcast use {lemma_paid_push, lemma_brought_push};

    reveal(refusal);
    reveal(step);
}

proof fn lemma_extend_milestone_deadline(
    l: Ledger,
    client: Address,
    milestone_index: u32,
    extra_seconds: u64,
)
    ensures
        lawful(l, Request::ExtendMilestoneDeadline { client, milestone_index, extra_seconds }),
{
    broadcast use {lemma_paid_push, lemma_brought_push};

    reveal(refusal);
    reveal(step);
}

proof fn lemma_claim_auto_release(l: Ledger, freelancer: Address, milestone_index: u32)
    ensures
        lawful(l, Request::ClaimAutoRelease { freelancer, milestone_index }),
{
    broadcast use {lemma_paid_push, lemma_brought_push};

    reveal(refusal);
    reveal(step);
}

proof fn lemma_approve_partial(l: Ledger, client: Address, milestone_index: u32, amount: i128)
    ensures
        lawful(l, Request::ApprovePartial { client, milestone_index, amount }),
{
    broadcast use {lemma_paid_push, lemma_brought_push};

    reveal(refusal);
    reveal(step);
}

proof fn lemma_approve_milestone(l: Ledger, client: Address, milestone_index: u32)
    ensures
        lawful(l, Request::ApproveMilestone { client, milestone_index }),
{
    broadcast use {lemma_paid_push, lemma_brought_push};

    reveal(refusal);
    reveal(step);
}

proof fn lemma_raise_dispute(l: Ledger, caller: Address, milestone_index: u32)
    ensures
        lawful(l, Request::RaiseDispute { caller, milestone_index }),
{
    broadcast use {lemma_paid_push, lemma_brought_push};

    reveal(refusal);
    reveal(step);
}

proof fn lemma_resolve_dispute(
    l: Ledger,
    arbiter: Address,
    milestone_index: u32,
    release_to_freelancer: bool,
)
    ensures
        lawful(l, Request::ResolveDispute { arbiter, milestone_index, release_to_freelancer }),
{
    broadcast use {lemma_paid_push, lemma_brought_push};

    reveal(refusal);
    reveal(step);
}

proof fn lemma_apply_dispute_arbitration_split(
    l: Ledger,
    arbiter: Address,
    milestone_index: u32,
    client_refund_bps: u32,
)
    ensures
        lawful(
            l,
            Request::ApplyDisputeArbitrationSplit {
                arbiter,
                milestone_index,
                client_refund_bps,
            },
        ),
{
    broadcast use {lemma_paid_push, lemma_brought_push};

    reveal(refusal);
    reveal(step);
    let request = Request::ApplyDisputeArbitrationSplit {
        arbiter,
        milestone_index,
        client_refund_bps,
    };
    if refusal(l, request) is None {
        lemma_refund_conserves(
            owed(l.persistent.milestones[milestone_index]),
            client_refund_bps,
        );
    }
}

proof fn lemma_cancel_escrow(l: Ledger, caller: Address)
    ensures
        lawful(l, Request::CancelEscrow { caller }),
{
    broadcast use {lemma_paid_push, lemma_brought_push};

    reveal(refusal);
    reveal(step);
}

proof fn lemma_admin_override_cancel_release(l: Ledger, admin: Address)
    ensures
        lawful(l, Request::AdminOverrideCancelRelease { admin }),
{
    broadcast use {lemma_paid_push, lemma_brought_push};

    reveal(refusal);
    reveal(step);
    lemma_all_owed_fits(l.persistent.milestones, l.instance.job->0.milestone_count, false);
}

proof fn lemma_admin_override_cancel_refund(l: Ledger, admin: Address)
    ensures
        lawful(l, Request::AdminOverrideCancelRefund { admin }),
{
    broadcast use {lemma_paid_push, lemma_brought_push};

    reveal(refusal);
    reveal(step);
    lemma_all_owed_fits(l.persistent.milestones, l.instance.job->0.milestone_count, true);
}

proof fn lemma_upgrade(l: Ledger, admin: Address, new_wasm_hash: Seq<u8>)
    ensures
        lawful(l, Request::Upgrade { admin, new_wasm_hash }),
{
    broadcast use {lemma_paid_push, lemma_brought_push};

    reveal(refusal);
    reveal(step);
}

proof fn lemma_emergency_pause(l: Ledger, admin: Address)
    ensures
        lawful(l, Request::EmergencyPause { admin }),
{
    broadcast use {lemma_paid_push, lemma_brought_push};

    reveal(refusal);
    reveal(step);
}

proof fn lemma_emergency_unpause(l: Ledger, admin: Address)
    ensures
        lawful(l, Request::EmergencyUnpause { admin }),
{
    broadcast use {lemma_paid_push, lemma_brought_push};

    reveal(refusal);
    reveal(step);
}

proof fn lemma_emergency_pause_admin_override(l: Ledger, admin: Address, paused: bool)
    ensures
        lawful(l, Request::EmergencyPauseAdminOverride { admin, paused }),
{
    broadcast use {lemma_paid_push, lemma_brought_push};

    reveal(refusal);
    reveal(step);
}

proof fn lemma_set_platform_fee_allocation(
    l: Ledger,
    admin: Address,
    client_bps: u32,
    freelancer_bps: u32,
    treasury_bps: u32,
)
    ensures
        lawful(
            l,
            Request::SetPlatformFeeAllocation {
                admin,
                client_bps,
                freelancer_bps,
                treasury_bps,
            },
        ),
{
    broadcast use {lemma_paid_push, lemma_brought_push};

    reveal(refusal);
    reveal(step);
}

proof fn lemma_lock_platform_fee_allocation(l: Ledger, admin: Address)
    ensures
        lawful(l, Request::LockPlatformFeeAllocation { admin }),
{
    broadcast use {lemma_paid_push, lemma_brought_push};

    reveal(refusal);
    reveal(step);
}

proof fn lemma_pf_alloc_admin_override(
    l: Ledger,
    admin: Address,
    client_bps: u32,
    freelancer_bps: u32,
    treasury_bps: u32,
)
    ensures
        lawful(
            l,
            Request::PfAllocAdminOverride {
                admin,
                client_bps,
                freelancer_bps,
                treasury_bps,
            },
        ),
{
    broadcast use {lemma_paid_push, lemma_brought_push};

    reveal(refusal);
    reveal(step);
}

proof fn lemma_payment_streaming_milestones(
    l: Ledger,
    total_amount: i128,
    numerator: i128,
    denominator: i128,
)
    ensures
        lawful(l, Request::PaymentStreamingMilestones { total_amount, numerator, denominator }),
{
    broadcast use {lemma_paid_push, lemma_brought_push};

    reveal(refusal);
    reveal(step);
}

proof fn lemma_payment_streaming_consent(
    l: Ledger,
    total_amount: i128,
    numerator: i128,
    denominator: i128,
)
    ensures
        lawful(l, Request::PaymentStreamingConsent { total_amount, numerator, denominator }),
{
    broadcast use {lemma_paid_push, lemma_brought_push};

    reveal(refusal);
    reveal(step);
}

proof fn lemma_milestone_time_extensions(
    l: Ledger,
    amount: i128,
    elapsed_seconds: i128,
    total_seconds: i128,
)
    ensures
        lawful(l, Request::MilestoneTimeExtensions { amount, elapsed_seconds, total_seconds }),
{
    broadcast use {lemma_paid_push, lemma_brought_push};

    reveal(refusal);
    reveal(step);
}

proof fn lemma_multisig_transfer_admin(
    l: Ledger,
    admin: Address,
    total_amount: i128,
    ratios: Seq<i128>,
)
    ensures
        lawful(l, Request::MultisigTransferAdmin { admin, total_amount, ratios }),
{
    broadcast use {lemma_paid_push, lemma_brought_push};

    reveal(refusal);
    reveal(step);
}

proof fn lemma_multisig_approval_init(
    l: Ledger,
    admin: Address,
    signers: Seq<Address>,
    threshold: u32,
)
    ensures
        lawful(l, Request::MultisigApprovalInit { admin, signers, threshold }),
{
    broadcast use {lemma_paid_push, lemma_brought_push};

    reveal(refusal);
    reveal(step);
}

proof fn lemma_multisig_approve(l: Ledger, signer: Address, proposal_id: u32)
    ensures
        lawful(l, Request::MultisigApprove { signer, proposal_id }),
{
    broadcast use {lemma_paid_push, lemma_brought_push};

    reveal(refusal);
    reveal(step);
    let request = Request::MultisigApprove { signer, proposal_id };
    if refusal(l, request) is None {
        lemma_position_iff_contains(l.instance.multisig_signers->0, signer, 0);
    }
}

proof fn lemma_propose_admin_transfer(
    l: Ledger,
    admin: Address,
    new_admin: Address,
    proposal_id: u32,
)
    ensures
        lawful(l, Request::ProposeAdminTransfer { admin, new_admin, proposal_id }),
{
    broadcast use {lemma_paid_push, lemma_brought_push};

    reveal(refusal);
    reveal(step);
}

proof fn lemma_execute_admin_transfer(l: Ledger)
    ensures
        lawful(l, Request::ExecuteAdminTransfer),
{
    broadcast use {lemma_paid_push, lemma_brought_push};

    reveal(refusal);
    reveal(step);
}

proof fn lemma_cancel_admin_transfer_proposal(l: Ledger, admin: Address)
    ensures
        lawful(l, Request::CancelAdminTransferProposal { admin }),
{
    broadcast use {lemma_paid_push, lemma_brought_push};

    reveal(refusal);
    reveal(step);
}

proof fn lemma_set_escrow_interest_yield(
    l: Ledger,
    admin: Address,
    client_share_bps: u32,
    freelancer_share_bps: u32,
)
    ensures
        lawful(
            l,
            Request::SetEscrowInterestYield {
                admin,
                client_share_bps,
                freelancer_share_bps,
            },
        ),
{
    broadcast use {lemma_paid_push, lemma_brought_push};

    reveal(refusal);
    reveal(step);
}

proof fn lemma_set_interest_yield_consent(
    l: Ledger,
    admin: Address,
    client_share_bps: u32,
    freelancer_share_bps: u32,
)
    ensures
        lawful(
            l,
            Request::SetInterestYieldConsent {
                admin,
                client_share_bps,
                freelancer_share_bps,
            },
        ),
{
    broadcast use {lemma_paid_push, lemma_brought_push};

    reveal(refusal);
    reveal(step);
}

proof fn lemma_lock_escrow_interest_yield(l: Ledger, admin: Address)
    ensures
        lawful(l, Request::LockEscrowInterestYield { admin }),
{
    broadcast use {lemma_paid_push, lemma_brought_push};

    reveal(refusal);
    reveal(step);
}

proof fn lemma_unlock_escrow_interest_yield(l: Ledger, admin: Address)
    ensures
        lawful(l, Request::UnlockEscrowInterestYield { admin }),
{
    broadcast use {lemma_paid_push, lemma_brought_push};

    reveal(refusal);
    reveal(step);
}

proof fn lemma_admin_set_yield_rate(l: Ledger, admin: Address, rate_bps: u32)
    ensures
        lawful(l, Request::AdminSetYieldRate { admin, rate_bps }),
{
    broadcast use {lemma_paid_push, lemma_brought_push};

    reveal(refusal);
    reveal(step);
}

proof fn lemma_admin_accrue_yield(
    l: Ledger,
    admin: Address,
    milestone_index: u32,
    accrued_amount: i128,
)
    ensures
        lawful(l, Request::AdminAccrueYield { admin, milestone_index, accrued_amount }),
{
    broadcast use {lemma_paid_push, lemma_brought_push};

    reveal(refusal);
    reveal(step);
}

proof fn lemma_admin_override_release(l: Ledger, admin: Address, milestone_index: u32)
    ensures
        lawful(l, Request::AdminOverrideRelease { admin, milestone_index }),
{
    broadcast use {lemma_paid_push, lemma_brought_push};

    reveal(refusal);
    reveal(step);
}

proof fn lemma_admin_override_refund(l: Ledger, admin: Address, milestone_index: u32)
    ensures
        lawful(l, Request::AdminOverrideRefund { admin, milestone_index }),
{
    broadcast use {lemma_paid_push, lemma_brought_push};

    reveal(refusal);
    reveal(step);
}

proof fn lemma_admin_override_streaming_release(
    l: Ledger,
    admin: Address,
    milestone_index: u32,
    elapsed_seconds: i128,
    total_seconds: i128,
)
    ensures
        lawful(
            l,
            Request::AdminOverrideStreamingRelease {
                admin,
                milestone_index,
                elapsed_seconds,
                total_seconds,
            },
        ),
{
    broadcast use {lemma_paid_push, lemma_brought_push};

    reveal(refusal);
    reveal(step);
    let request = Request::AdminOverrideStreamingRelease {
        admin,
        milestone_index,
        elapsed_seconds,
        total_seconds,
    };
    if refusal(l, request) is None {
        lemma_split_conserves(
            owed(l.persistent.milestones[milestone_index]),
            elapsed_seconds as int,
            total_seconds as int,
        );
    }
}

proof fn lemma_admin_pause_escrow(l: Ledger, admin: Address)
    ensures
        lawful(l, Request::AdminPauseEscrow { admin }),
{
    broadcast use {lemma_paid_push, lemma_brought_push};

    reveal(refusal);
    reveal(step);
}

proof fn lemma_admin_resume_escrow(l: Ledger, admin: Address)
    ensures
        lawful(l, Request::AdminResumeEscrow { admin }),
{
    broadcast use {lemma_paid_push, lemma_brought_push};

    reveal(refusal);
    reveal(step);
}

proof fn lemma_tax_withholding_deductions(l: Ledger, milestone_index: u32, tax_rate_bps: u32)
    ensures
        lawful(l, Request::TaxWithholdingDeductions { milestone_index, tax_rate_bps }),
{
    broadcast use {lemma_paid_push, lemma_brought_push};

    reveal(refusal);
    reveal(step);
    let request = Request::TaxWithholdingDeductions { milestone_index, tax_rate_bps };
    if refusal(l, request) is None {
        lemma_split_conserves(
            owed(l.persistent.milestones[milestone_index]),
            tax_rate_bps as int,
            BPS_SCALE as int,
        );
    }
}

proof fn lemma_admin_override_tax_release(l: Ledger, admin: Address, milestone_index: u32)
    ensures
        lawful(l, Request::AdminOverrideTaxRelease { admin, milestone_index }),
{
    broadcast use {lemma_paid_push, lemma_brought_push};

    reveal(refusal);
    reveal(step);
}

proof fn lemma_admin_override_tax_refund(l: Ledger, admin: Address, milestone_index: u32)
    ensures
        lawful(l, Request::AdminOverrideTaxRefund { admin, milestone_index }),
{
    broadcast use {lemma_paid_push, lemma_brought_push};

    reveal(refusal);
    reveal(step);
}

proof fn lemma_admin_tax_withholding_deductions(
    l: Ledger,
    admin: Address,
    milestone_index: u32,
    tax_rate_bps: u32,
)
    ensures
        lawful(l, Request::AdminTaxWithholdingDeductions { admin, milestone_index, tax_rate_bps }),
{
    broadcast use {lemma_paid_push, lemma_brought_push};

    reveal(refusal);
    reveal(step);
}

proof fn lemma_multisig_admin_override_release(l: Ledger, admin: Address, milestone_index: u32)
    ensures
        lawful(l, Request::MultisigAdminOverrideRelease { admin, milestone_index }),
{
    broadcast use {lemma_paid_push, lemma_brought_push};

    reveal(refusal);
    reveal(step);
}

proof fn lemma_multisig_admin_override_refund(l: Ledger, admin: Address, milestone_index: u32)
    ensures
        lawful(l, Request::MultisigAdminOverrideRefund { admin, milestone_index }),
{
    broadcast use {lemma_paid_push, lemma_brought_push};

    reveal(refusal);
    reveal(step);
}

proof fn lemma_multisig_split_refund(
    l: Ledger,
    admin: Address,
    total_amount: i128,
    client_refund_bps: u32,
    freelancer_payout_bps: u32,
)
    ensures
        lawful(
            l,
            Request::MultisigSplitRefund {
                admin,
                total_amount,
                client_refund_bps,
                freelancer_payout_bps,
            },
        ),
{
    broadcast use {lemma_paid_push, lemma_brought_push};

    reveal(refusal);
    reveal(step);
}

proof fn lemma_emergency_pause_split_refund(
    l: Ledger,
    total_amount: i128,
    client_refund_bps: u32,
    freelancer_payout_bps: u32,
)
    ensures
        lawful(
            l,
            Request::EmergencyPauseSplitRefund {
                total_amount,
                client_refund_bps,
                freelancer_payout_bps,
            },
        ),
{
    broadcast use {lemma_paid_push, lemma_brought_push};

    reveal(refusal);
    reveal(step);
}

proof fn lemma_emergency_pause_claim_refund(
    l: Ledger,
    admin: Address,
    total_amount: i128,
    client_refund_bps: u32,
    freelancer_payout_bps: u32,
)
    ensures
        lawful(
            l,
            Request::EmergencyPauseClaimRefund {
                admin,
                total_amount,
                client_refund_bps,
                freelancer_payout_bps,
            },
        ),
{
    broadcast use {lemma_paid_push, lemma_brought_push};

    reveal(refusal);
    reveal(step);
}

proof fn lemma_emergency_pause_allocation(l: Ledger, total_amount: i128, weights: Seq<i128>)
    ensures
        lawful(l, Request::EmergencyPauseAllocation { total_amount, weights }),
{
    broadcast use {lemma_paid_push, lemma_brought_push};

    reveal(refusal);
    reveal(step);
}

proof fn lemma_multisig_lock(l: Ledger, admin: Address)
    ensures
        lawful(l, Request::MultisigLock { admin }),
{
    broadcast use {lemma_paid_push, lemma_brought_push};

    reveal(refusal);
    reveal(step);
}

/// Every request is lawful.
pub proof fn lemma_every_request_is_lawful(l: Ledger, request: Request)
    ensures
        lawful(l, request),
{
    match request {
        Request::Initialize {
            admin,
            client,
            freelancer,
            arbiter,
            token,
            auto_release_seconds,
            milestone_amounts,
        } => {
            lemma_initialize(
                l,
                admin,
                client,
                freelancer,
                arbiter,
                token,
                auto_release_seconds,
                milestone_amounts,
            );
        },
        Request::TransferAdmin { current_admin, new_admin } => {
            lemma_transfer_admin(l, current_admin, new_admin);
        },
        Request::AddWhitelistedToken { admin, token } => {
            lemma_add_whitelisted_token(l, admin, token);
        },
        Request::RemoveWhitelistedToken { admin, token } => {
            lemma_remove_whitelisted_token(l, admin, token);
        },
        Request::Fund { client } => {
            lemma_fund(l, client);
        },
        Request::MarkDelivered { freelancer, milestone_index } => {
            lemma_mark_delivered(l, freelancer, milestone_index);
        },
        Request::ExtendMilestoneDeadline { client, milestone_index, extra_seconds } => {
            lemma_extend_milestone_deadline(l, client, milestone_index, extra_seconds);
        },
        Request::ClaimAutoRelease { freelancer, milestone_index } => {
            lemma_claim_auto_release(l, freelancer, milestone_index);
        },
        Request::ApprovePartial { client, milestone_index, amount } => {
            lemma_approve_partial(l, client, milestone_index, amount);
        },
        Request::ApproveMilestone { client, milestone_index } => {
            lemma_approve_milestone(l, client, milestone_index);
        },
        Request::RaiseDispute { caller, milestone_index } => {
            lemma_raise_dispute(l, caller, milestone_index);
        },
        Request::ResolveDispute { arbiter, milestone_index, release_to_freelancer } => {
            lemma_resolve_dispute(l, arbiter, milestone_index, release_to_freelancer);
        },
        Request::ApplyDisputeArbitrationSplit { arbiter, milestone_index, client_refund_bps } => {
            lemma_apply_dispute_arbitration_split(l, arbiter, milestone_index, client_refund_bps);
        },
        Request::CancelEscrow { caller } => {
            lemma_cancel_escrow(l, caller);
        },
        Request::AdminOverrideCancelRelease { admin } => {
            lemma_admin_override_cancel_release(l, admin);
        },
        Request::AdminOverrideCancelRefund { admin } => {
            lemma_admin_override_cancel_refund(l, admin);
        },
        Request::Upgrade { admin, new_wasm_hash } => {
            lemma_upgrade(l, admin, new_wasm_hash);
        },
        Request::EmergencyPause { admin } => {
            lemma_emergency_pause(l, admin);
        },
        Request::EmergencyUnpause { admin } => {
            lemma_emergency_unpause(l, admin);
        },
        Request::EmergencyPauseAdminOverride { admin, paused } => {
            lemma_emergency_pause_admin_override(l, admin, paused);
        },
        Request::SetPlatformFeeAllocation { admin, client_bps, freelancer_bps, treasury_bps } => {
            lemma_set_platform_fee_allocation(l, admin, client_bps, freelancer_bps, treasury_bps);
        },
        Request::LockPlatformFeeAllocation { admin } => {
            lemma_lock_platform_fee_allocation(l, admin);
        },
        Request::PfAllocAdminOverride { admin, client_bps, freelancer_bps, treasury_bps } => {
            lemma_pf_alloc_admin_override(l, admin, client_bps, freelancer_bps, treasury_bps);
        },
        Request::PaymentStreamingMilestones { total_amount, numerator, denominator } => {
            lemma_payment_streaming_milestones(l, total_amount, numerator, denominator);
        },
        Request::PaymentStreamingConsent { total_amount, numerator, denominator } => {
            lemma_payment_streaming_consent(l, total_amount, numerator, denominator);
        },
        Request::MilestoneTimeExtensions { amount, elapsed_seconds, total_seconds } => {
            lemma_milestone_time_extensions(l, amount, elapsed_seconds, total_seconds);
        },
        Request::MultisigTransferAdmin { admin, total_amount, ratios } => {
            lemma_multisig_transfer_admin(l, admin, total_amount, ratios);
        },
        Request::MultisigApprovalInit { admin, signers, threshold } => {
            lemma_multisig_approval_init(l, admin, signers, threshold);
        },
        Request::MultisigApprove { signer, proposal_id } => {
            lemma_multisig_approve(l, signer, proposal_id);
        },
        Request::ProposeAdminTransfer { admin, new_admin, proposal_id } => {
            lemma_propose_admin_transfer(l, admin, new_admin, proposal_id);
        },
        Request::ExecuteAdminTransfer => {
            lemma_execute_admin_transfer(l);
        },
        Request::CancelAdminTransferProposal { admin } => {
            lemma_cancel_admin_transfer_proposal(l, admin);
        },
        Request::SetEscrowInterestYield { admin, client_share_bps, freelancer_share_bps } => {
            lemma_set_escrow_interest_yield(l, admin, client_share_bps, freelancer_share_bps);
        },
        Request::SetInterestYieldConsent { admin, client_share_bps, freelancer_share_bps } => {
            lemma_set_interest_yield_consent(l, admin, client_share_bps, freelancer_share_bps);
        },
        Request::LockEscrowInterestYield { admin } => {
            lemma_lock_escrow_interest_yield(l, admin);
        },
        Request::UnlockEscrowInterestYield { admin } => {
            lemma_unlock_escrow_interest_yield(l, admin);
        },
        Request::AdminSetYieldRate { admin, rate_bps } => {
            lemma_admin_set_yield_rate(l, admin, rate_bps);
        },
        Request::AdminAccrueYield { admin, milestone_index, accrued_amount } => {
            lemma_admin_accrue_yield(l, admin, milestone_index, accrued_amount);
        },
        Request::AdminOverrideRelease { admin, milestone_index } => {
            lemma_admin_override_release(l, admin, milestone_index);
        },
        Request::AdminOverrideRefund { admin, milestone_index } => {
            lemma_admin_override_refund(l, admin, milestone_index);
        },
        Request::AdminOverrideStreamingRelease {
            admin,
            milestone_index,
            elapsed_seconds,
            total_seconds,
        } => {
            lemma_admin_override_streaming_release(
                l,
                admin,
                milestone_index,
                elapsed_seconds,
                total_seconds,
            );
        },
        Request::AdminPauseEscrow { admin } => {
            lemma_admin_pause_escrow(l, admin);
        },
        Request::AdminResumeEscrow { admin } => {
            lemma_admin_resume_escrow(l, admin);
        },
        Request::TaxWithholdingDeductions { milestone_index, tax_rate_bps } => {
            lemma_tax_withholding_deductions(l, milestone_index, tax_rate_bps);
        },
        Request::AdminOverrideTaxRelease { admin, milestone_index } => {
            lemma_admin_override_tax_release(l, admin, milestone_index);
        },
        Request::AdminOverrideTaxRefund { admin, milestone_index } => {
            lemma_admin_override_tax_refund(l, admin, milestone_index);
        },
        Request::AdminTaxWithholdingDeductions { admin, milestone_index, tax_rate_bps } => {
            lemma_admin_tax_withholding_deductions(l, admin, milestone_index, tax_rate_bps);
        },
        Request::MultisigAdminOverrideRelease { admin, milestone_index } => {
            lemma_multisig_admin_override_release(l, admin, milestone_index);
        },
        Request::MultisigAdminOverrideRefund { admin, milestone_index } => {
            lemma_multisig_admin_override_refund(l, admin, milestone_index);
        },
        Request::MultisigSplitRefund {
            admin,
            total_amount,
            client_refund_bps,
            freelancer_payout_bps,
        } => {
            lemma_multisig_split_refund(
                l,
                admin,
                total_amount,
                client_refund_bps,
                freelancer_payout_bps,
            );
        },
        Request::EmergencyPauseSplitRefund {
            total_amount,
            client_refund_bps,
            freelancer_payout_bps,
        } => {
            lemma_emergency_pause_split_refund(
                l,
                total_amount,
                client_refund_bps,
                freelancer_payout_bps,
            );
        },
        Request::EmergencyPauseClaimRefund {
            admin,
            total_amount,
            client_refund_bps,
            freelancer_payout_bps,
        } => {
            lemma_emergency_pause_claim_refund(
                l,
                admin,
                total_amount,
                client_refund_bps,
                freelancer_payout_bps,
            );
        },
        Request::EmergencyPauseAllocation { total_amount, weights } => {
            lemma_emergency_pause_allocation(l, total_amount, weights);
        },
        Request::MultisigLock { admin } => {
            lemma_multisig_lock(l, admin);
        },
    }
}

} // verus!
