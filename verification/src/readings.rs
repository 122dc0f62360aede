//! What the entries of a ledger, an error and an event mean to who reads them.

use crate::address::{ascii, is_zero, lemma_zero_strkeys, packed, Address};
use crate::amounts::{all_amounts, amounts_in};
use crate::events::{topic_of, Event};
use crate::governing::approvals_for;
use crate::interest::yield_shares_valid;
use crate::job::{all_present, milestones_upto};
use crate::ledger::{or_default, raised, untouched, Instance, Ledger};
use crate::milestones::{as_signed, release_time};
use crate::multisig::{approval_state, approvals_among, approvals_in, bitmap_of, has_approved};
use crate::platform_fee::fee_shares_valid;
use crate::relations::{delivered, points, put_off, room_for_points, up};
use crate::tables::lookup;
use crate::types::{error_code, Error, JobMeta, Milestone};
use vstd::prelude::*;

verus! {

/// A flag that was never set is down, and so is a note that is not there.
pub proof fn lemma_flags(flag: Option<bool>, notes: Map<u32, bool>, index: u32)
    ensures
        raised(flag) == up(flag),
        raised(lookup(notes, index)) <==> notes.contains_key(index) && notes[index],
{
}

/// A reader gets what is kept under a key; what was never written reads as the default.
pub proof fn lemma_entries<T>(entry: Option<T>, table: Map<u32, T>, key: u32, default: T)
    ensures
        entry is Some ==> or_default(entry, default) == entry->0,
        entry is None ==> or_default(entry, default) == default,
        table.contains_key(key) ==> lookup(table, key) == Some(table[key]),
        !table.contains_key(key) ==> lookup(table, key) is None,
{
}

/// On a contract on which no request was ever made nothing is kept and nothing asked.
pub proof fn lemma_untouched(contract: Address, timestamp: u64, token_balance: i128)
    ensures
        ({
            let l = untouched(contract, timestamp, token_balance);
            &&& l.contract == contract
            &&& l.timestamp == timestamp
            &&& l.token_balance == token_balance
            &&& l.effects.len() == 0
            &&& l.instance == (Instance {
                job: None,
                instance_admin: None,
                version: None,
                whitelist: None,
                emergency_paused: None,
                platform_fee: None,
                interest_yield: None,
                paused: None,
                multisig_locked: None,
                cancel_lock: None,
                multisig_signers: None,
                multisig_threshold: None,
                tax_execution_lock: None,
                platform_fee_lock: None,
                emergency_pause_lock: None,
            })
            &&& l.persistent.admin is None
            &&& l.persistent.yield_rate_bps is None
            &&& l.persistent.yield_accrued is None
            &&& l.persistent.pending_admin_transfer is None
            &&& forall|who: Address| #[trigger] points(l, who) == 0
            &&& forall|i: u32|
                #![auto]
                {
                    &&& !l.persistent.milestones.contains_key(i)
                    &&& !l.persistent.time_extensions.contains_key(i)
                    &&& !l.persistent.tax_records.contains_key(i)
                    &&& !l.temporary.delivered_at.contains_key(i)
                    &&& !l.temporary.milestone_released.contains_key(i)
                    &&& !l.temporary.dispute_lock.contains_key(i)
                    &&& !l.temporary.dispute_flag.contains_key(i)
                    &&& !l.temporary.multisig_approvals.contains_key(i)
                    &&& !l.temporary.arbitration_split_bps.contains_key(i)
                }
        }),
{
}

/// A list can be read where every item is an amount, and is then read item by item.
pub proof fn lemma_lists_are_read_item_by_item(items: Seq<Option<i128>>)
    ensures
        all_amounts(items) <==> forall|i: int|
            0 <= i < items.len() ==> (#[trigger] items[i]) is Some,
        amounts_in(items).len() == items.len(),
        all_amounts(items) ==> forall|i: int|
            0 <= i < items.len() ==> Some(amounts_in(items)[i]) == #[trigger] items[i],
{
}

/// Reputation is the number of points earned, and both parties can be rewarded as long
/// as neither number would leave its range.
pub proof fn lemma_reputation_is_points(l: Ledger, who: Address, job: JobMeta)
    ensures
        l.reputation_of(who) == points(l, who),
        l.can_reward(job) <==> room_for_points(l, job),
{
}

/// A milestone is released by itself when the waiting time of the job and every
/// extension have passed since its delivery.
pub proof fn lemma_release_is_after_delivery(l: Ledger, index: u32)
    requires
        l.instance.job is Some,
        l.persistent.milestones.contains_key(index),
    ensures
        release_time(l, index) == delivered(l, index) + l.instance.job->0.auto_release_seconds
            + put_off(l, index),
{
}

/// A time as a signed number is the same time up to multiples of two to the 64th, and
/// in range.
pub proof fn lemma_signed_times(n: u64)
    ensures
        i64::MIN <= as_signed(n as int) <= i64::MAX,
        (n - as_signed(n as int)) % 0x1_0000_0000_0000_0000 == 0,
{
}

/// A job is read with all its milestones, in order.
pub proof fn lemma_milestones_in_order(milestones: Map<u32, Milestone>, n: u32)
    ensures
        milestones_upto(milestones, n).len() == n,
        forall|i: u32| #![auto] i < n ==> milestones_upto(milestones, n)[i as int] == milestones[i],
        all_present(milestones, n) <==> forall|i: u32|
            #![auto]
            i < n ==> milestones.contains_key(i),
{
}

/// The shares of a fee, and those of a yield, are everything together.
pub proof fn lemma_shares_are_everything(client: u32, freelancer: u32, treasury: u32)
    ensures
        fee_shares_valid(
            client,
            freelancer,
            treasury,
        ) <==> client + freelancer + treasury == 10_000,
        yield_shares_valid(client, freelancer) <==> client + freelancer == 10_000,
{
}

/// Nobody is whom either all-zero strkey names, and there is no other nobody.
pub proof fn lemma_nobody(address: Address)
    ensures
        is_zero(address) <==> address == packed(
            ascii("GAAAAAAAAAAAAAAAAAAAAAAAAAAAAAAAAAAAAAAAAAAAAAAAAAAAAWHF"@),
        ) || address == packed(
            ascii("CAAAAAAAAAAAAAAAAAAAAAAAAAAAAAAAAAAAAAAAAAAAAAAAAAAABSC4"@),
        ),
{
    lemma_zero_strkeys();
}

/// The places of the first `n` signers that have approved.
pub open spec fn approving(bitmap: u32, n: u32) -> Set<u32> {
    Set::new(|i: u32| i < n && bitmap & (1u32 << i) != 0)
}

proof fn lemma_approvals_counted(bitmap: u32, n: u32)
    requires
        n <= 32,
    ensures
        approving(bitmap, n).finite(),
        approvals_among(bitmap, n) == approving(bitmap, n).len(),
        approving(bitmap, n).len() <= n,
    decreases n,
{
    if n == 0 {
        assert(approving(bitmap, 0) =~= Set::empty());
    } else {
        let last = (n - 1) as u32;
        lemma_approvals_counted(bitmap, last);
        lemma_bit(bitmap, last);
        if has_approved(bitmap, last) {
            assert(approving(bitmap, n) =~= approving(bitmap, last).insert(last));
        } else {
            assert(approving(bitmap, n) =~= approving(bitmap, last));
        }
    }
}

proof fn lemma_bit(bitmap: u32, i: u32)
    requires
        i < 32,
    ensures
        has_approved(bitmap, i) <==> bitmap & (1u32 << i) != 0,
{
    assert((bitmap >> i) & 1 == 1 <==> bitmap & (1u32 << i) != 0) by (bit_vector)
        requires
            i < 32,
    ;
}

/// A proposal has as many approvals as bits of its bitmap are up, one for each signer
/// that has approved, and is approved when they reach the threshold.
pub proof fn lemma_approvals_are_bits(l: Ledger, proposal_id: u32, threshold: u32)
    ensures
        ({
            let bitmap = approvals_for(l, proposal_id);
            let state = approval_state(bitmap_of(l, proposal_id), threshold);
            &&& state.bitmap == bitmap
            &&& state.threshold == threshold
            &&& state.approvals == approving(bitmap, 32).len()
            &&& state.approved <==> approving(bitmap, 32).len() >= threshold
            &&& approvals_in(bitmap) == approving(bitmap, 32).len()
        }),
        forall|i: u32|
            i < 32 ==> (#[trigger] has_approved(approvals_for(l, proposal_id), i) <==> approving(
                approvals_for(l, proposal_id),
                32,
            ).contains(i)),
{
    let bitmap = approvals_for(l, proposal_id);
    lemma_approvals_counted(bitmap, 32);
    assert forall|i: u32| i < 32 implies (#[trigger] has_approved(bitmap, i) <==> approving(
        bitmap,
        32,
    ).contains(i)) by {
        lemma_bit(bitmap, i);
    }
}

/// The errors in the order of their numbers.
pub open spec fn errors_in_order() -> Seq<Error> {
    seq![
        Error::AlreadyInitialized,
        Error::NotInitialized,
        Error::AlreadyFunded,
        Error::NotFunded,
        Error::Unauthorized,
        Error::InvalidMilestone,
        Error::InvalidStatus,
        Error::TokenNotWhitelisted,
        Error::TokenAlreadyWhitelisted,
        Error::InvalidAmount,
        Error::DeadlineNotPassed,
        Error::InvalidAddress,
        Error::Paused,
        Error::InvalidRatio,
        Error::InvalidExtension,
        Error::EscrowLocked,
        Error::MultiSigNoSigners,
        Error::MultiSigTooManySigners,
        Error::MultiSigInvalidThreshold,
        Error::MultiSigDuplicateSigner,
        Error::AdminTransferPending,
        Error::NoPendingAdminTransfer,
        Error::MultiSigThresholdNotMet,
        Error::DisputeAlreadyRaised,
        Error::MultiSigEmptyBalance,
        Error::TaxWithholdingInProgress,
        Error::PlatformFeeAllocationInProgress,
        Error::EmergencyPauseInProgress,
        Error::AlreadyPaused,
        Error::NotPaused,
        Error::InvalidAllocationWeights,
    ]
}

/// Errors are numbered from one, in order and without gaps.
pub proof fn lemma_errors_are_numbered(error: Error)
    ensures
        1 <= error_code(error) <= errors_in_order().len(),
        errors_in_order()[error_code(error) - 1] == error,
{
}

/// Every kind of event has its topic.
pub proof fn lemma_topics(event: Event)
    ensures
        event is Initialized ==> topic_of(event) == "init"@,
        event is TransferAdmin ==> topic_of(event) == "admin"@,
        event is TokenWhitelisted ==> topic_of(event) == "wtok"@,
        event is TokenRemoved ==> topic_of(event) == "wldel"@,
        event is Funded ==> topic_of(event) == "fund"@,
        event is Delivered ==> topic_of(event) == "deliver"@,
        event is DeadlineExtended ==> topic_of(event) == "extend"@,
        event is Claimed ==> topic_of(event) == "claim"@,
        event is Approved ==> topic_of(event) == "approve"@,
        event is DisputeRaised ==> topic_of(event) == "dispute"@,
        event is DisputeResolved ==> topic_of(event) == "resolve"@,
        event is CancelEscrowInitiated ==> topic_of(event) == "cancel"@,
        event is AdminCancelOverrideRelease ==> topic_of(event) == "adcovls"@,
        event is AdminCancelOverrideRefund ==> topic_of(event) == "adcovrf"@,
        event is EmergencyPaused ==> topic_of(event) == "empause"@,
        event is EmergencyUnpaused ==> topic_of(event) == "emunpause"@,
        event is EmergencyPauseAdminOverride ==> topic_of(event) == "emoverrid"@,
        event is PaymentStreaming ==> topic_of(event) == "p_stream"@,
        event is PaymentStreamingConsent ==> topic_of(event) == "p_strcns"@,
        event is MilestoneTimeExtension ==> topic_of(event) == "m_ext"@,
        event is MultiSigTransferAdmin ==> topic_of(event) == "msigtrx"@,
        event is MultiSigApproved ==> topic_of(event) == "msigappr"@,
        event is AdminTransferProposed ==> topic_of(event) == "adminprp"@,
        event is AdminTransferExecuted ==> topic_of(event) == "adminexc"@,
        event is AdminTransferCancelled ==> topic_of(event) == "admincxl"@,
        event is EscrowInterestYieldConsentSet ==> topic_of(event) == "yldcons"@,
        event is YieldRateSet ==> topic_of(event) == "yldrate"@,
        event is YieldAccrued ==> topic_of(event) == "yldacc"@,
        event is AdminOverrideRelease ==> topic_of(event) == "admovrls"@,
        event is AdminOverrideRefund ==> topic_of(event) == "admovrf"@,
        event is AdminOverrideStreamingRelease ==> topic_of(event) == "admstrm"@,
        event is EscrowPaused ==> topic_of(event) == "pause"@,
        event is EscrowResumed ==> topic_of(event) == "resume"@,
        event is TaxWithholdingApplied ==> topic_of(event) == "taxwith"@,
        event is AdminOverrideTaxRelease ==> topic_of(event) == "adtxrls"@,
        event is AdminOverrideTaxRefund ==> topic_of(event) == "adtxrfd"@,
        event is TaxWithholdingDeductions ==> topic_of(event) == "taxwh"@,
        event is MultisigAdminOverrideRelease ==> topic_of(event) == "msadmrel"@,
        event is MultisigAdminOverrideRefund ==> topic_of(event) == "msadmref"@,
        event is MultisigSplitRefund ==> topic_of(event) == "splitref"@,
        event is EmergencyPauseSplitRefund ==> topic_of(event) == "epspltref"@,
        event is EmergencyPauseAllocation ==> topic_of(event) == "epalloc"@,
{
}

} // verus!
