//! Withholding tax from milestones.

use crate::address::Address;
use crate::cancellation::closed_as;
use crate::events::{
    AdminOverrideTaxRefundEvent, AdminOverrideTaxReleaseEvent, Event, TaxWithholdingAppliedEvent,
    TaxWithholdingDeductionsEvent,
};
use crate::guards::{admin_refusal, after, either, has_balance, is_terminal, outcome, owed};
use crate::ledger::{Env, Instance, Ledger, Persistent};
use crate::milestones::milestone_refusal;
use crate::overrides::flagged_released;
use crate::splits::{split_at, split_refusal};
use crate::streaming::consent_asked;
use crate::tables::lookup;
use crate::types::{
    Error, Milestone, MilestoneEscrow, MilestoneStatus, TaxWithholdingRecord, BPS_SCALE,
};
use vstd::prelude::*;

verus! {

// ── computing and recording ──────────────────────────────────────────────────

/// Why `tax_withholding_deductions` is refused, if it is.
pub open spec fn tax_withholding_deductions_refusal(
    l: Ledger,
    milestone_index: u32,
    tax_rate_bps: u32,
) -> Option<Error> {
    let job = l.instance.job->0;
    let milestone = l.milestone(milestone_index)->0;
    if l.instance.job is None {
        Some(Error::NotInitialized)
    } else if !job.funded {
        Some(Error::NotFunded)
    } else if milestone_index >= job.milestone_count {
        Some(Error::InvalidMilestone)
    } else if tax_rate_bps > BPS_SCALE {
        Some(Error::InvalidRatio)
    } else if l.milestone(milestone_index) is None {
        Some(Error::InvalidMilestone)
    } else if is_terminal(milestone.status) {
        Some(Error::InvalidStatus)
    } else if l.token_balance <= 0 || !has_balance(milestone) {
        Some(Error::InvalidAmount)
    } else {
        split_refusal(owed(milestone), tax_rate_bps as int, BPS_SCALE as int)
    }
}

/// The tax on what is owed for a milestone, rounded to the nearest unit.
pub open spec fn taxed(milestone: Milestone, tax_rate_bps: u32) -> TaxWithholdingRecord {
    let split = split_at(owed(milestone), tax_rate_bps as int, BPS_SCALE as int);
    TaxWithholdingRecord {
        gross_amount: owed(milestone) as i128,
        tax_amount: split.first,
        net_amount: split.second,
        tax_rate_bps,
    }
}

/// What `tax_withholding_deductions` makes of the ledger.
pub open spec fn tax_withholding_deductions_step(
    l: Ledger,
    milestone_index: u32,
    tax_rate_bps: u32,
) -> Ledger {
    let record = taxed(l.milestone(milestone_index)->0, tax_rate_bps);
    after(
        tax_withholding_deductions_refusal(l, milestone_index, tax_rate_bps),
        consent_asked(l),
        consent_asked(l).with_persistent(
            Persistent {
                tax_records: l.persistent.tax_records.insert(milestone_index, record),
                ..l.persistent
            },
        ).announced(
            Event::TaxWithholdingApplied(
                TaxWithholdingAppliedEvent {
                    contract_id: l.contract,
                    milestone_index,
                    gross_amount: record.gross_amount,
                    tax_amount: record.tax_amount,
                    net_amount: record.net_amount,
                    tax_rate_bps,
                },
            ),
        ),
    )
}

/// Why `admin_tax_withholding_deductions` is refused, if it is.
pub open spec fn admin_tax_withholding_deductions_refusal(
    l: Ledger,
    admin: Address,
    milestone_index: u32,
    tax_rate_bps: u32,
) -> Option<Error> {
    let job = l.instance.job->0;
    let milestone = l.milestone(milestone_index)->0;
    if admin_refusal(l, admin) is Some {
        admin_refusal(l, admin)
    } else if l.instance.job is None {
        Some(Error::NotInitialized)
    } else if !job.funded {
        Some(Error::NotFunded)
    } else if l.token_balance <= 0 {
        Some(Error::InvalidAmount)
    } else if milestone_refusal(l, job, milestone_index) is Some {
        milestone_refusal(l, job, milestone_index)
    } else if milestone.amount <= 0 {
        Some(Error::InvalidAmount)
    } else if tax_rate_bps > BPS_SCALE {
        Some(Error::InvalidRatio)
    } else if milestone.amount * tax_rate_bps > i128::MAX {
        Some(Error::InvalidAmount)
    } else {
        None
    }
}

/// The price of a milestone, the tax on it rounded down, and what is left.
pub open spec fn taxed_down(milestone: Milestone, tax_rate_bps: u32) -> (i128, i128, i128) {
    let tax = milestone.amount * tax_rate_bps / (BPS_SCALE as int);
    (milestone.amount, tax as i128, (milestone.amount - tax) as i128)
}

/// What `admin_tax_withholding_deductions` makes of the ledger.
pub open spec fn admin_tax_withholding_deductions_step(
    l: Ledger,
    admin: Address,
    milestone_index: u32,
    tax_rate_bps: u32,
) -> Ledger {
    let parts = taxed_down(l.milestone(milestone_index)->0, tax_rate_bps);
    after(
        admin_tax_withholding_deductions_refusal(l, admin, milestone_index, tax_rate_bps),
        l.asked(admin),
        l.asked(admin).with_instance(Instance { tax_execution_lock: None, ..l.instance }).announced(
            Event::TaxWithholdingDeductions(
                TaxWithholdingDeductionsEvent {
                    admin,
                    contract_id: l.contract,
                    milestone_index,
                    gross_amount: parts.0,
                    tax_amount: parts.1,
                    net_amount: parts.2,
                    tax_rate_bps,
                },
            ),
        ),
    )
}

/// The tax and what is left make the price, and neither is negative.
pub proof fn lemma_taxed_down_conserves(milestone: Milestone, tax_rate_bps: u32)
    requires
        milestone.amount >= 0,
        tax_rate_bps <= BPS_SCALE,
    ensures
        taxed_down(milestone, tax_rate_bps).1 >= 0,
        taxed_down(milestone, tax_rate_bps).2 >= 0,
        taxed_down(milestone, tax_rate_bps).1 + taxed_down(milestone, tax_rate_bps).2
            == milestone.amount,
{
    let amount = milestone.amount as int;
    assert(0 <= amount * tax_rate_bps <= amount * BPS_SCALE) by (nonlinear_arith)
        requires
            0 <= amount,
            0 <= tax_rate_bps <= BPS_SCALE,
    ;
}

// ── settling a taxed milestone ───────────────────────────────────────────────

/// A milestone of the job with a tax record that is not settled.
pub open spec fn tax_release_refusal(l: Ledger, milestone_index: u32) -> Option<Error> {
    let job = l.instance.job->0;
    let record = lookup(l.persistent.tax_records, milestone_index);
    if l.instance.job is None {
        Some(Error::NotInitialized)
    } else if !job.funded {
        Some(Error::NotFunded)
    } else if milestone_index >= job.milestone_count {
        Some(Error::InvalidMilestone)
    } else if record is None {
        Some(Error::InvalidStatus)
    } else if l.milestone(milestone_index) is None {
        Some(Error::InvalidMilestone)
    } else if is_terminal(l.milestone(milestone_index)->0.status) {
        Some(Error::InvalidStatus)
    } else if record->0.net_amount <= 0 {
        Some(Error::InvalidAmount)
    } else {
        None
    }
}

/// Why `admin_override_tax_release` is refused, if it is.
pub open spec fn admin_override_tax_release_refusal(
    l: Ledger,
    admin: Address,
    milestone_index: u32,
) -> Option<Error> {
    either(admin_refusal(l, admin), tax_release_refusal(l, milestone_index))
}

/// The milestone at `index` has no tax record any more.
pub open spec fn untaxed(l: Ledger, index: u32) -> Ledger {
    l.with_persistent(
        Persistent { tax_records: l.persistent.tax_records.remove(index), ..l.persistent },
    )
}

/// What `admin_override_tax_release` makes of the ledger.
pub open spec fn admin_override_tax_release_step(
    l: Ledger,
    admin: Address,
    milestone_index: u32,
) -> Ledger {
    let job = l.instance.job->0;
    let record = l.persistent.tax_records[milestone_index];
    after(
        admin_override_tax_release_refusal(l, admin, milestone_index),
        if l.persistent.admin is None {
            l
        } else {
            l.asked(admin)
        },
        untaxed(
            flagged_released(
                l.asked(admin).with_milestone(
                    milestone_index,
                    closed_as(l.milestone(milestone_index)->0, MilestoneStatus::Released),
                ),
                milestone_index,
            ),
            milestone_index,
        ).paid(job.token, job.freelancer, record.net_amount as int).announced(
            Event::AdminOverrideTaxRelease(
                AdminOverrideTaxReleaseEvent {
                    admin,
                    contract_id: l.contract,
                    milestone_index,
                    freelancer: job.freelancer,
                    token: job.token,
                    net_amount: record.net_amount,
                    tax_amount: record.tax_amount,
                },
            ),
        ),
    )
}

/// Why `admin_override_tax_refund` is refused, if it is.
pub open spec fn admin_override_tax_refund_refusal(
    l: Ledger,
    admin: Address,
    milestone_index: u32,
) -> Option<Error> {
    let job = l.instance.job->0;
    let record = lookup(l.persistent.tax_records, milestone_index);
    if admin_refusal(l, admin) is Some {
        admin_refusal(l, admin)
    } else if record is None {
        Some(Error::InvalidStatus)
    } else if l.instance.job is None {
        Some(Error::NotInitialized)
    } else if !job.funded {
        Some(Error::NotFunded)
    } else if milestone_refusal(l, job, milestone_index) is Some {
        milestone_refusal(l, job, milestone_index)
    } else if is_terminal(l.milestone(milestone_index)->0.status) {
        Some(Error::InvalidStatus)
    } else if record->0.gross_amount <= 0 {
        Some(Error::InvalidAmount)
    } else {
        None
    }
}

/// What `admin_override_tax_refund` makes of the ledger.
pub open spec fn admin_override_tax_refund_step(
    l: Ledger,
    admin: Address,
    milestone_index: u32,
) -> Ledger {
    let job = l.instance.job->0;
    let record = l.persistent.tax_records[milestone_index];
    after(
        admin_override_tax_refund_refusal(l, admin, milestone_index),
        l.asked(admin),
        untaxed(
            l.asked(admin).with_milestone(
                milestone_index,
                closed_as(l.milestone(milestone_index)->0, MilestoneStatus::Refunded),
            ),
            milestone_index,
        ).paid(job.token, job.client, record.gross_amount as int).announced(
            Event::AdminOverrideTaxRefund(
                AdminOverrideTaxRefundEvent {
                    admin,
                    contract_id: l.contract,
                    milestone_index,
                    client: job.client,
                    token: job.token,
                    gross_amount: record.gross_amount,
                },
            ),
        ),
    )
}

impl MilestoneEscrow {
    /// Computes the tax on what is owed for a milestone and records it. Both
    /// parties must sign.
    pub fn tax_withholding_deductions(
        env: &mut Env,
        milestone_index: u32,
        tax_rate_bps: u32,
    ) -> (r: Result<TaxWithholdingRecord, Error>)
        ensures
            r == outcome(
                tax_withholding_deductions_refusal(old(env)@, milestone_index, tax_rate_bps),
                taxed(old(env)@.milestone(milestone_index)->0, tax_rate_bps),
            ),
            final(env)@ == tax_withholding_deductions_step(
                old(env)@,
                milestone_index,
                tax_rate_bps,
            ),
    {
        let meta = Self::require_client_and_freelancer_consent(env)?;
        if !meta.funded {
            return Err(Error::NotFunded);
        }
        if milestone_index >= meta.milestone_count {
            return Err(Error::InvalidMilestone);
        }
        if tax_rate_bps > BPS_SCALE {
            return Err(Error::InvalidRatio);
        }
        let milestone = Self::load_milestone(env, milestone_index)?;
        if Self::is_settled(milestone.status) {
            return Err(Error::InvalidStatus);
        }
        if env.token_balance <= 0 {
            return Err(Error::InvalidAmount);
        }
        let gross_amount: i128 = Self::balance_of(&milestone)?;
        let split = Self::split_round_nearest(
            gross_amount,
            tax_rate_bps as i128,
            BPS_SCALE as i128,
        )?;
        let record = TaxWithholdingRecord {
            gross_amount,
            tax_amount: split.first,
            net_amount: split.second,
            tax_rate_bps,
        };
        env.tax_records.set(milestone_index, record);
        let contract_id = env.contract;
        env.publish(
            Event::TaxWithholdingApplied(
                TaxWithholdingAppliedEvent {
                    contract_id,
                    milestone_index,
                    gross_amount,
                    tax_amount: split.first,
                    net_amount: split.second,
                    tax_rate_bps,
                },
            ),
        );
        Ok(record)
    }

    /// The admin computes the tax on the price of a milestone: the price, the
    /// tax, and what is left. Nothing is recorded.
    pub fn admin_tax_withholding_deductions(
        env: &mut Env,
        admin: Address,
        milestone_index: u32,
        tax_rate_bps: u32,
    ) -> (r: Result<(i128, i128, i128), Error>)
        ensures
            r == outcome(
                admin_tax_withholding_deductions_refusal(
                    old(env)@,
                    admin,
                    milestone_index,
                    tax_rate_bps,
                ),
                taxed_down(old(env)@.milestone(milestone_index)->0, tax_rate_bps),
            ),
            final(env)@ == admin_tax_withholding_deductions_step(
                old(env)@,
                admin,
                milestone_index,
                tax_rate_bps,
            ),
    {
        Self::require_admin(env, admin)?;
        let meta = Self::load_job_meta(env)?;
        if !meta.funded {
            return Err(Error::NotFunded);
        }
        if env.token_balance <= 0 {
            return Err(Error::InvalidAmount);
        }
        let milestone = Self::job_milestone(env, &meta, milestone_index)?;
        let gross_amount: i128 = milestone.amount;
        if gross_amount <= 0 {
            return Err(Error::InvalidAmount);
        }
        if tax_rate_bps > BPS_SCALE {
            return Err(Error::InvalidRatio);
        }
        proof {
            lemma_taxed_down_conserves(milestone, tax_rate_bps);
            assert(gross_amount * tax_rate_bps >= 0) by (nonlinear_arith)
                requires
                    gross_amount > 0,
                    tax_rate_bps >= 0,
            ;
        }
        let weighted: i128 = match gross_amount.checked_mul(tax_rate_bps as i128) {
            Some(weighted) => weighted,
            None => {
                return Err(Error::InvalidAmount);
            },
        };
        let tax_amount: i128 = weighted / (BPS_SCALE as i128);
        let net_amount: i128 = gross_amount - tax_amount;
        env.tax_execution_lock = None;
        let contract_id = env.contract;
        env.publish(
            Event::TaxWithholdingDeductions(
                TaxWithholdingDeductionsEvent {
                    admin,
                    contract_id,
                    milestone_index,
                    gross_amount,
                    tax_amount,
                    net_amount,
                    tax_rate_bps,
                },
            ),
        );
        Ok((gross_amount, tax_amount, net_amount))
    }

    /// The tax record of a milestone.
    fn load_tax_record(env: &Env, milestone_index: u32) -> (r: Result<TaxWithholdingRecord, Error>)
        ensures
            r == match lookup(env@.persistent.tax_records, milestone_index) {
                Some(record) => Ok::<TaxWithholdingRecord, Error>(record),
                None => Err(Error::InvalidStatus),
            },
    {
        match env.tax_records.get(milestone_index) {
            Some(record) => Ok(record),
            None => Err(Error::InvalidStatus),
        }
    }

    /// The admin pays a taxed milestone out to the freelancer, net of the tax.
    pub fn admin_override_tax_release(
        env: &mut Env,
        admin: Address,
        milestone_index: u32,
    ) -> (r: Result<(), Error>)
        ensures
            r == outcome(
                admin_override_tax_release_refusal(old(env)@, admin, milestone_index),
                (),
            ),
            final(env)@ == admin_override_tax_release_step(old(env)@, admin, milestone_index),
    {
        if env.admin.is_none() {
            return Err(Error::NotInitialized);
        }
        Self::require_admin(env, admin)?;
        let meta = Self::load_job_meta(env)?;
        if !meta.funded {
            return Err(Error::NotFunded);
        }
        if milestone_index >= meta.milestone_count {
            return Err(Error::InvalidMilestone);
        }
        let record = Self::load_tax_record(env, milestone_index)?;
        let milestone = Self::load_milestone(env, milestone_index)?;
        if Self::is_settled(milestone.status) {
            return Err(Error::InvalidStatus);
        }
        if record.net_amount <= 0 {
            return Err(Error::InvalidAmount);
        }
        Self::close_milestone(env, milestone_index, milestone, MilestoneStatus::Released);
        env.milestone_released.set(milestone_index, true);
        env.tax_records.remove(milestone_index);
        env.pay(meta.token, meta.freelancer, record.net_amount);
        let contract_id = env.contract;
        env.publish(
            Event::AdminOverrideTaxRelease(
                AdminOverrideTaxReleaseEvent {
                    admin,
                    contract_id,
                    milestone_index,
                    freelancer: meta.freelancer,
                    token: meta.token,
                    net_amount: record.net_amount,
                    tax_amount: record.tax_amount,
                },
            ),
        );
        Ok(())
    }

    /// The admin refunds a taxed milestone to the client, gross of the tax.
    pub fn admin_override_tax_refund(
        env: &mut Env,
        admin: Address,
        milestone_index: u32,
    ) -> (r: Result<(), Error>)
        ensures
            r == outcome(
                admin_override_tax_refund_refusal(old(env)@, admin, milestone_index),
                (),
            ),
            final(env)@ == admin_override_tax_refund_step(old(env)@, admin, milestone_index),
    {
        Self::require_admin(env, admin)?;
        let record = Self::load_tax_record(env, milestone_index)?;
        let meta = Self::load_job_meta(env)?;
        if !meta.funded {
            return Err(Error::NotFunded);
        }
        let milestone = Self::job_milestone(env, &meta, milestone_index)?;
        if Self::is_settled(milestone.status) {
            return Err(Error::InvalidStatus);
        }
        if record.gross_amount <= 0 {
            return Err(Error::InvalidAmount);
        }
        Self::close_milestone(env, milestone_index, milestone, MilestoneStatus::Refunded);
        env.tax_records.remove(milestone_index);
        env.pay(meta.token, meta.client, record.gross_amount);
        let contract_id = env.contract;
        env.publish(
            Event::AdminOverrideTaxRefund(
                AdminOverrideTaxRefundEvent {
                    admin,
                    contract_id,
                    milestone_index,
                    client: meta.client,
                    token: meta.token,
                    gross_amount: record.gross_amount,
                },
            ),
        );
        Ok(())
    }
}

} // verus!
