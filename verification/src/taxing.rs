//! What becomes of a taxed milestone.

use crate::address::Address;
use crate::events::{
    AdminOverrideTaxRefundEvent, AdminOverrideTaxReleaseEvent, Event, TaxWithholdingAppliedEvent,
    TaxWithholdingDeductionsEvent,
};
use crate::ledger::{EffectView, Instance, Ledger, Persistent, Temporary};
use crate::reckoning::{lemma_floor, lemma_split_is_to_the_nearest};
use crate::relations::{
    asks, follows, has_milestone, kept, part_to_the_nearest, share_rounded_down, something_owed,
    told, unsettled,
};
use crate::splits::lemma_split_conserves;
use crate::tax::{
    admin_override_tax_refund_refusal, admin_override_tax_refund_step,
    admin_override_tax_release_refusal, admin_override_tax_release_step,
    admin_tax_withholding_deductions_refusal, admin_tax_withholding_deductions_step,
    lemma_taxed_down_conserves, tax_withholding_deductions_refusal,
    tax_withholding_deductions_step, taxed, taxed_down,
};
use crate::types::{Error, Milestone, MilestoneStatus};
use vstd::prelude::*;

verus! {

/// With the consent of both parties the tax on what is still owed for a milestone is
/// computed, rounded to the nearest unit, and recorded.
pub proof fn lemma_taxing(
    l: Ledger,
    milestone_index: u32,
    tax_rate_bps: u32,
)
    ensures
        ({
            let job = l.instance.job->0;
            let m = l.persistent.milestones[milestone_index];
            let record = tax_withholding_deductions_step(
                l,
                milestone_index,
                tax_rate_bps,
            ).persistent.tax_records[milestone_index];
            match tax_withholding_deductions_refusal(
                l,
                milestone_index,
                tax_rate_bps,
            ) {
                None => {
                    &&& l.instance.job is Some
                    &&& job.funded
                    &&& has_milestone(l, job, milestone_index)
                    &&& tax_rate_bps <= 10_000
                    &&& unsettled(m)
                    &&& something_owed(m)
                    &&& l.token_balance > 0
                    &&& (m.amount - m.released_amount) * tax_rate_bps + 5_000 <= i128::MAX
                },
                Some(Error::NotInitialized) => l.instance.job is None,
                Some(Error::NotFunded) => !job.funded,
                Some(Error::InvalidMilestone) => !has_milestone(l, job, milestone_index),
                Some(Error::InvalidRatio) => tax_rate_bps > 10_000,
                Some(Error::InvalidStatus) => !unsettled(m),
                Some(Error::InvalidAmount) => {
                    ||| !something_owed(m)
                    ||| l.token_balance <= 0
                    ||| (m.amount - m.released_amount) * tax_rate_bps + 5_000 > i128::MAX
                },
                _ => false,
            }
        }),
        tax_withholding_deductions_refusal(l, milestone_index, tax_rate_bps) is None ==> ({
            let job = l.instance.job->0;
            let m = l.persistent.milestones[milestone_index];
            let record = tax_withholding_deductions_step(
                l,
                milestone_index,
                tax_rate_bps,
            ).persistent.tax_records[milestone_index];
            let next = tax_withholding_deductions_step(
                l,
                milestone_index,
                tax_rate_bps,
            );
            &&& follows(l, next)
            &&& record == taxed(m, tax_rate_bps)
            &&& record.gross_amount == m.amount - m.released_amount
            &&& part_to_the_nearest(
                record.tax_amount as int,
                m.amount - m.released_amount,
                tax_rate_bps as int,
                10_000,
            )
            &&& record.tax_amount + record.net_amount == m.amount - m.released_amount
            &&& record.tax_rate_bps == tax_rate_bps
            &&& next.persistent == (Persistent {
                tax_records: l.persistent.tax_records.insert(milestone_index, record),
                ..l.persistent
            })
            &&& asks(l, next) == seq![
                EffectView::RequireAuth(job.client),
                EffectView::RequireAuth(job.freelancer),
                told(
                    Event::TaxWithholdingApplied(
                        TaxWithholdingAppliedEvent {
                            contract_id: l.contract,
                            milestone_index,
                            gross_amount: record.gross_amount,
                            tax_amount: record.tax_amount,
                            net_amount: record.net_amount,
                            tax_rate_bps,
                        },
                    ),
                ),
            ]
            &&& next.instance == l.instance
            &&& next.temporary == l.temporary
        }),
        tax_withholding_deductions_refusal(l, milestone_index, tax_rate_bps) is Some ==> kept(
            l,
            tax_withholding_deductions_step(
                l,
                milestone_index,
                tax_rate_bps,
            ),
        ),
{
    let m = l.persistent.milestones[milestone_index];
    if tax_withholding_deductions_refusal(l, milestone_index, tax_rate_bps) is None {
        lemma_split_is_to_the_nearest(m.amount - m.released_amount, tax_rate_bps as int, 10_000);
        lemma_split_conserves(m.amount - m.released_amount, tax_rate_bps as int, 10_000);
    }
}

/// The admin has the tax on the price of a milestone computed, rounded down; nothing is
/// recorded.
pub proof fn lemma_admin_taxing(
    l: Ledger,
    admin: Address,
    milestone_index: u32,
    tax_rate_bps: u32,
)
    ensures
        ({
            let job = l.instance.job->0;
            let m = l.persistent.milestones[milestone_index];
            let parts = taxed_down(m, tax_rate_bps);
            match admin_tax_withholding_deductions_refusal(
                l,
                admin,
                milestone_index,
                tax_rate_bps,
            ) {
                None => {
                    &&& l.persistent.admin == Some(admin)
                    &&& l.instance.job is Some
                    &&& job.funded
                    &&& l.token_balance > 0
                    &&& has_milestone(l, job, milestone_index)
                    &&& m.amount > 0
                    &&& tax_rate_bps <= 10_000
                    &&& m.amount * tax_rate_bps <= i128::MAX
                },
                Some(Error::NotInitialized) => l.persistent.admin is None || l.instance.job is None,
                Some(Error::Unauthorized) => {
                    l.persistent.admin is Some && l.persistent.admin != Some(admin)
                },
                Some(Error::NotFunded) => !job.funded,
                Some(Error::InvalidMilestone) => !has_milestone(l, job, milestone_index),
                Some(Error::InvalidRatio) => tax_rate_bps > 10_000,
                Some(Error::InvalidAmount) => {
                    ||| l.token_balance <= 0
                    ||| m.amount <= 0
                    ||| m.amount * tax_rate_bps > i128::MAX
                },
                _ => false,
            }
        }),
        admin_tax_withholding_deductions_refusal(
            l,
            admin,
            milestone_index,
            tax_rate_bps,
        ) is None ==> ({
            let job = l.instance.job->0;
            let m = l.persistent.milestones[milestone_index];
            let parts = taxed_down(m, tax_rate_bps);
            let next = admin_tax_withholding_deductions_step(
                l,
                admin,
                milestone_index,
                tax_rate_bps,
            );
            &&& follows(l, next)
            &&& parts.0 == m.amount
            &&& share_rounded_down(parts.1 as int, m.amount as int, tax_rate_bps as int)
            &&& parts.1 + parts.2 == m.amount
            &&& asks(l, next) == seq![
                EffectView::RequireAuth(admin),
                told(
                    Event::TaxWithholdingDeductions(
                        TaxWithholdingDeductionsEvent {
                            admin,
                            contract_id: l.contract,
                            milestone_index,
                            gross_amount: parts.0,
                            tax_amount: parts.1,
                            net_amount: parts.2,
                            tax_rate_bps,
                        },
                    ),
                ),
            ]
            &&& next.instance == (Instance { tax_execution_lock: None, ..l.instance })
            &&& next.persistent == l.persistent
            &&& next.temporary == l.temporary
        }),
        admin_tax_withholding_deductions_refusal(
            l,
            admin,
            milestone_index,
            tax_rate_bps,
        ) is Some ==> kept(
            l,
            admin_tax_withholding_deductions_step(
                l,
                admin,
                milestone_index,
                tax_rate_bps,
            ),
        ),
{
    let m = l.persistent.milestones[milestone_index];
    if admin_tax_withholding_deductions_refusal(
        l,
        admin,
        milestone_index,
        tax_rate_bps,
    ) is None {
        lemma_floor(m.amount * tax_rate_bps, 10_000);
        lemma_taxed_down_conserves(m, tax_rate_bps);
    }
}

/// The admin releases a taxed milestone: the net amount of the record is paid to the
/// freelancer, and the record is gone.
pub proof fn lemma_tax_release(
    l: Ledger,
    admin: Address,
    milestone_index: u32,
)
    ensures
        ({
            let job = l.instance.job->0;
            let m = l.persistent.milestones[milestone_index];
            let record = l.persistent.tax_records[milestone_index];
            match admin_override_tax_release_refusal(l, admin, milestone_index) {
                None => {
                    &&& l.persistent.admin == Some(admin)
                    &&& l.instance.job is Some
                    &&& job.funded
                    &&& has_milestone(l, job, milestone_index)
                    &&& l.persistent.tax_records.contains_key(milestone_index)
                    &&& unsettled(m)
                    &&& record.net_amount > 0
                },
                Some(Error::NotInitialized) => l.persistent.admin is None || l.instance.job is None,
                Some(Error::Unauthorized) => {
                    l.persistent.admin is Some && l.persistent.admin != Some(admin)
                },
                Some(Error::NotFunded) => !job.funded,
                Some(Error::InvalidMilestone) => !has_milestone(l, job, milestone_index),
                Some(Error::InvalidStatus) => {
                    ||| !l.persistent.tax_records.contains_key(milestone_index)
                    ||| !unsettled(m)
                },
                Some(Error::InvalidAmount) => record.net_amount <= 0,
                _ => false,
            }
        }),
        admin_override_tax_release_refusal(l, admin, milestone_index) is None ==> ({
            let job = l.instance.job->0;
            let m = l.persistent.milestones[milestone_index];
            let record = l.persistent.tax_records[milestone_index];
            let next = admin_override_tax_release_step(l, admin, milestone_index);
            &&& follows(l, next)
            &&& asks(l, next) == seq![
                EffectView::RequireAuth(admin),
                EffectView::Transfer {
                    token: job.token,
                    from: l.contract,
                    to: job.freelancer,
                    amount: record.net_amount,
                },
                told(
                    Event::AdminOverrideTaxRelease(
                        AdminOverrideTaxReleaseEvent {
                            admin,
                            contract_id: l.contract,
                            milestone_index,
                            freelancer: job.freelancer,
                            token: job.token,
                            net_amount: record.net_amount,
                            tax_amount: record.tax_amount,
                        },
                    ),
                ),
            ]
            &&& next.persistent.milestones[milestone_index] == (Milestone {
                amount: m.amount,
                released_amount: m.amount,
                status: MilestoneStatus::Released,
                delivered_at: m.delivered_at,
            })
            &&& next.persistent == (Persistent {
                milestones: l.persistent.milestones.insert(
                    milestone_index,
                    next.persistent.milestones[milestone_index],
                ),
                tax_records: l.persistent.tax_records.remove(milestone_index),
                ..l.persistent
            })
            &&& next.temporary == (Temporary {
                milestone_released: l.temporary.milestone_released.insert(milestone_index, true),
                ..l.temporary
            })
            &&& next.instance == l.instance
        }),
        admin_override_tax_release_refusal(l, admin, milestone_index) is Some ==> kept(
            l,
            admin_override_tax_release_step(l, admin, milestone_index),
        ),
{
}

/// The admin refunds a taxed milestone: the gross amount of the record is paid to the
/// client, and the record is gone.
pub proof fn lemma_tax_refund(
    l: Ledger,
    admin: Address,
    milestone_index: u32,
)
    ensures
        ({
            let job = l.instance.job->0;
            let m = l.persistent.milestones[milestone_index];
            let record = l.persistent.tax_records[milestone_index];
            match admin_override_tax_refund_refusal(l, admin, milestone_index) {
                None => {
                    &&& l.persistent.admin == Some(admin)
                    &&& l.instance.job is Some
                    &&& job.funded
                    &&& has_milestone(l, job, milestone_index)
                    &&& l.persistent.tax_records.contains_key(milestone_index)
                    &&& unsettled(m)
                    &&& record.gross_amount > 0
                },
                Some(Error::NotInitialized) => l.persistent.admin is None || l.instance.job is None,
                Some(Error::Unauthorized) => {
                    l.persistent.admin is Some && l.persistent.admin != Some(admin)
                },
                Some(Error::NotFunded) => !job.funded,
                Some(Error::InvalidMilestone) => !has_milestone(l, job, milestone_index),
                Some(Error::InvalidStatus) => {
                    ||| !l.persistent.tax_records.contains_key(milestone_index)
                    ||| !unsettled(m)
                },
                Some(Error::InvalidAmount) => record.gross_amount <= 0,
                _ => false,
            }
        }),
        admin_override_tax_refund_refusal(l, admin, milestone_index) is None ==> ({
            let job = l.instance.job->0;
            let m = l.persistent.milestones[milestone_index];
            let record = l.persistent.tax_records[milestone_index];
            let next = admin_override_tax_refund_step(l, admin, milestone_index);
            &&& follows(l, next)
            &&& asks(l, next) == seq![
                EffectView::RequireAuth(admin),
                EffectView::Transfer {
                    token: job.token,
                    from: l.contract,
                    to: job.client,
                    amount: record.gross_amount,
                },
                told(
                    Event::AdminOverrideTaxRefund(
                        AdminOverrideTaxRefundEvent {
                            admin,
                            contract_id: l.contract,
                            milestone_index,
                            client: job.client,
                            token: job.token,
                            gross_amount: record.gross_amount,
                        },
                    ),
                ),
            ]
            &&& next.persistent.milestones[milestone_index] == (Milestone {
                amount: m.amount,
                released_amount: m.amount,
                status: MilestoneStatus::Refunded,
                delivered_at: m.delivered_at,
            })
            &&& next.persistent == (Persistent {
                milestones: l.persistent.milestones.insert(
                    milestone_index,
                    next.persistent.milestones[milestone_index],
                ),
                tax_records: l.persistent.tax_records.remove(milestone_index),
                ..l.persistent
            })
            &&& next.instance == l.instance
            &&& next.temporary == l.temporary
        }),
        admin_override_tax_refund_refusal(l, admin, milestone_index) is Some ==> kept(
            l,
            admin_override_tax_refund_step(l, admin, milestone_index),
        ),
{
}

/// A record is current when it is stored: its gross amount is what is then owed for the
/// milestone, and tax and net amount divide exactly that.
pub proof fn lemma_new_record_is_current(l: Ledger, milestone_index: u32, tax_rate_bps: u32)
    requires
        tax_withholding_deductions_refusal(l, milestone_index, tax_rate_bps) is None,
    ensures
        ({
            let next = tax_withholding_deductions_step(l, milestone_index, tax_rate_bps);
            let m = next.persistent.milestones[milestone_index];
            let record = next.persistent.tax_records[milestone_index];
            &&& m == l.persistent.milestones[milestone_index]
            &&& next.persistent.tax_records.contains_key(milestone_index)
            &&& m.released_amount + record.gross_amount == m.amount
            &&& record.tax_amount >= 0
            &&& record.net_amount >= 0
            &&& m.released_amount + record.tax_amount + record.net_amount == m.amount
        }),
{
    let m = l.persistent.milestones[milestone_index];
    lemma_taxing(l, milestone_index, tax_rate_bps);
    lemma_split_conserves(m.amount - m.released_amount, tax_rate_bps as int, 10_000);
}

} // verus!
