//! What is true of the ledger at all times.

use crate::address::Address;
use crate::interest::yield_shares_valid;
use crate::job::tally;
use crate::ledger::{or_default, untouched, Ledger};
use crate::multisig::setup_refusal;
use crate::platform_fee::fee_shares_valid;
use crate::types::{
    Error, JobMeta, Milestone, MilestoneStatus, TaxWithholdingRecord, BPS_SCALE,
    MAX_WHITELIST_SIZE,
};
use vstd::prelude::*;

verus! {

/// A milestone as it can occur: the price is positive, no more than the price
/// was released, and the status says whether anything was released and whether
/// anything is owed.
pub open spec fn milestone_sound(milestone: Milestone) -> bool {
    &&& milestone.amount > 0
    &&& 0 <= milestone.released_amount <= milestone.amount
    &&& match milestone.status {
        MilestoneStatus::Pending | MilestoneStatus::Delivered => milestone.released_amount == 0,
        MilestoneStatus::PartiallyReleased => 0 < milestone.released_amount < milestone.amount,
        MilestoneStatus::Disputed => milestone.released_amount < milestone.amount,
        MilestoneStatus::Released | MilestoneStatus::Refunded => true,
    }
}

/// The job has its milestones and no others, each of them sound, and their
/// prices sum to the job's total. Until the job is funded nothing happens to
/// them.
pub open spec fn milestones_sound(milestones: Map<u32, Milestone>, job: JobMeta) -> bool {
    &&& job.milestone_count > 0
    &&& job.auto_release_seconds > 0
    &&& forall|i: u32| #[trigger] milestones.contains_key(i) <==> i < job.milestone_count
    &&& forall|i: u32| i < job.milestone_count ==> milestone_sound(#[trigger] milestones[i])
    &&& !job.funded ==> forall|i: u32|
        i < job.milestone_count ==> (#[trigger] milestones[i]).status == MilestoneStatus::Pending
    &&& tally(milestones, job.milestone_count) == Ok::<int, Error>(job.total_amount as int)
}

/// The accepted tokens: between one and the maximum, each of them once.
pub open spec fn whitelist_sound(list: Seq<Address>) -> bool {
    1 <= list.len() <= MAX_WHITELIST_SIZE && list.no_duplicates()
}

/// A tax record divides the gross amount into the tax and the net amount.
pub open spec fn tax_record_sound(record: TaxWithholdingRecord) -> bool {
    &&& record.gross_amount > 0
    &&& record.tax_amount >= 0
    &&& record.net_amount >= 0
    &&& record.tax_amount + record.net_amount == record.gross_amount
    &&& record.tax_rate_bps <= BPS_SCALE
}

/// The settings of a job: there is an admin, the accepted tokens are in order,
/// all shares make the whole, the yield rate is at most the whole, no negative
/// yield is booked, and the signers could be registered.
pub open spec fn settings_sound(l: Ledger) -> bool {
    &&& l.persistent.admin is Some
    &&& l.instance.whitelist matches Some(list) && whitelist_sound(list)
    &&& l.instance.platform_fee matches Some(shares) && fee_shares_valid(
        shares.client_bps,
        shares.freelancer_bps,
        shares.treasury_bps,
    )
    &&& l.instance.interest_yield matches Some(state) ==> yield_shares_valid(
        state.client_share_bps,
        state.freelancer_share_bps,
    )
    &&& or_default(l.persistent.yield_rate_bps, 0) <= BPS_SCALE
    &&& or_default(l.persistent.yield_accrued, 0) >= 0
    &&& l.instance.multisig_signers is Some <==> l.instance.multisig_threshold is Some
    &&& l.instance.multisig_signers matches Some(signers) ==> setup_refusal(
        signers,
        l.instance.multisig_threshold->0,
    ) is None
}

/// Every tax record is sound and belongs to a milestone of the job.
pub open spec fn tax_records_sound(l: Ledger, job: JobMeta) -> bool {
    forall|i: u32| #[trigger]
        l.persistent.tax_records.contains_key(i) ==> i < job.milestone_count && tax_record_sound(
            l.persistent.tax_records[i],
        )
}

/// Nothing was ever written.
pub open spec fn is_untouched(l: Ledger) -> bool {
    l == (Ledger {
        effects: l.effects,
        ..untouched(l.contract, l.timestamp, l.token_balance)
    })
}

/// The ledger of an escrow on which only requests were made: before a job is
/// set up nothing is written, and afterwards the job is in order.
pub open spec fn sound(l: Ledger) -> bool {
    match l.instance.job {
        None => is_untouched(l),
        Some(job) => {
            &&& milestones_sound(l.persistent.milestones, job)
            &&& settings_sound(l)
            &&& tax_records_sound(l, job)
        },
    }
}

} // verus!
