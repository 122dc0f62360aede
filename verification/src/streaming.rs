//! Dividing amounts by elapsed time or by a streaming ratio.

use crate::address::Address;
use crate::disputes::{capped, divided_up};
use crate::events::{
    AdminOverrideStreamingReleaseEvent, Event, MilestoneTimeExtensionEvent,
    PaymentStreamingConsentEvent, PaymentStreamingEvent,
};
use crate::guards::{admin_refusal, after, has_balance, outcome, owed};
use crate::ledger::{Env, Ledger};
use crate::milestones::milestone_refusal;
use crate::splits::{lemma_split_conserves, split_at, split_refusal};
use crate::types::{Error, JobMeta, MilestoneEscrow, MilestoneStatus, RatioSplit};
use vstd::prelude::*;

verus! {

/// A positive amount, and a ratio between nothing and everything.
pub open spec fn streaming_refusal(
    total_amount: i128,
    numerator: i128,
    denominator: i128,
) -> Option<Error> {
    if total_amount <= 0 {
        Some(Error::InvalidAmount)
    } else {
        split_refusal(total_amount as int, numerator as int, denominator as int)
    }
}

/// A positive amount divided by a ratio.
pub open spec fn streamed(total_amount: i128, numerator: i128, denominator: i128) -> RatioSplit {
    split_at(total_amount as int, numerator as int, denominator as int)
}

/// What `payment_streaming_milestones` makes of the ledger.
pub open spec fn payment_streaming_milestones_step(
    l: Ledger,
    total_amount: i128,
    numerator: i128,
    denominator: i128,
) -> Ledger {
    let split = streamed(total_amount, numerator, denominator);
    after(
        streaming_refusal(total_amount, numerator, denominator),
        l,
        l.announced(
            Event::PaymentStreaming(
                PaymentStreamingEvent {
                    total_amount,
                    numerator,
                    denominator,
                    streamed_payout: split.first,
                    client_refund: split.second,
                },
            ),
        ),
    )
}

/// Why `payment_streaming_consent` is refused, if it is.
pub open spec fn payment_streaming_consent_refusal(
    l: Ledger,
    total_amount: i128,
    numerator: i128,
    denominator: i128,
) -> Option<Error> {
    if l.instance.job is None {
        Some(Error::NotInitialized)
    } else {
        streaming_refusal(total_amount, numerator, denominator)
    }
}

/// Both parties of the job must have signed; nobody where there is no job.
pub open spec fn consent_asked(l: Ledger) -> Ledger {
    match l.instance.job {
        Some(job) => l.asked_both(job.client, job.freelancer),
        None => l,
    }
}

/// What `payment_streaming_consent` makes of the ledger.
pub open spec fn payment_streaming_consent_step(
    l: Ledger,
    total_amount: i128,
    numerator: i128,
    denominator: i128,
) -> Ledger {
    let split = streamed(total_amount, numerator, denominator);
    after(
        payment_streaming_consent_refusal(l, total_amount, numerator, denominator),
        consent_asked(l),
        consent_asked(l).announced(
            Event::PaymentStreamingConsent(
                PaymentStreamingConsentEvent {
                    client: l.instance.job->0.client,
                    freelancer: l.instance.job->0.freelancer,
                    total_amount,
                    numerator,
                    denominator,
                    streamed_payout: split.first,
                    client_refund: split.second,
                },
            ),
        ),
    )
}

/// A division by elapsed time, as it is announced.
pub open spec fn time_extension(amount: i128, elapsed_seconds: i128, total_seconds: i128) -> Event {
    let split = streamed(amount, elapsed_seconds, total_seconds);
    Event::MilestoneTimeExtension(
        MilestoneTimeExtensionEvent {
            amount,
            elapsed_seconds,
            total_seconds,
            freelancer_share: split.first,
            client_refund: split.second,
        },
    )
}

/// What `milestone_time_extensions` makes of the ledger.
pub open spec fn milestone_time_extensions_step(
    l: Ledger,
    amount: i128,
    elapsed_seconds: i128,
    total_seconds: i128,
) -> Ledger {
    after(
        streaming_refusal(amount, elapsed_seconds, total_seconds),
        l,
        l.announced(time_extension(amount, elapsed_seconds, total_seconds)),
    )
}

/// Why `admin_override_streaming_release` is refused, if it is.
pub open spec fn admin_override_streaming_release_refusal(
    l: Ledger,
    admin: Address,
    milestone_index: u32,
    elapsed_seconds: i128,
    total_seconds: i128,
) -> Option<Error> {
    let job = l.instance.job->0;
    let milestone = l.milestone(milestone_index)->0;
    let amount = owed(milestone) as i128;
    if admin_refusal(l, admin) is Some {
        admin_refusal(l, admin)
    } else if l.instance.job is None {
        Some(Error::NotInitialized)
    } else if !job.funded {
        Some(Error::NotFunded)
    } else if milestone_refusal(l, job, milestone_index) is Some {
        milestone_refusal(l, job, milestone_index)
    } else if milestone.status != MilestoneStatus::Disputed {
        Some(Error::InvalidStatus)
    } else if !has_balance(milestone) {
        Some(Error::InvalidAmount)
    } else if streaming_refusal(amount, elapsed_seconds, total_seconds) is Some {
        streaming_refusal(amount, elapsed_seconds, total_seconds)
    } else if l.token_balance <= 0 {
        Some(Error::InvalidAmount)
    } else {
        None
    }
}

/// What the freelancer and the client receive of a milestone that is divided by
/// elapsed time. No more is paid than the contract holds; the client is served
/// first.
pub open spec fn streaming_release(
    l: Ledger,
    milestone_index: u32,
    elapsed_seconds: i128,
    total_seconds: i128,
) -> RatioSplit {
    let split = streamed(
        owed(l.milestone(milestone_index)->0) as i128,
        elapsed_seconds,
        total_seconds,
    );
    let parts = capped(split.second as int, split.first as int, l.token_balance as int);
    RatioSplit { first: parts.1 as i128, second: parts.0 as i128 }
}

/// What `admin_override_streaming_release` makes of the ledger.
pub open spec fn admin_override_streaming_release_step(
    l: Ledger,
    admin: Address,
    milestone_index: u32,
    elapsed_seconds: i128,
    total_seconds: i128,
) -> Ledger {
    let job = l.instance.job->0;
    let amount = owed(l.milestone(milestone_index)->0) as i128;
    let parts = streaming_release(l, milestone_index, elapsed_seconds, total_seconds);
    after(
        admin_override_streaming_release_refusal(
            l,
            admin,
            milestone_index,
            elapsed_seconds,
            total_seconds,
        ),
        l.asked(admin),
        divided_up(
            l.asked(admin).announced(time_extension(amount, elapsed_seconds, total_seconds)),
            job,
            milestone_index,
            parts.second as int,
            parts.first as int,
        ).announced(
            Event::AdminOverrideStreamingRelease(
                AdminOverrideStreamingReleaseEvent {
                    admin,
                    contract_id: l.contract,
                    milestone_index,
                    client: job.client,
                    freelancer: job.freelancer,
                    token: job.token,
                    client_refund: parts.second,
                    freelancer_payout: parts.first,
                },
            ),
        ),
    )
}

impl MilestoneEscrow {
    /// Divides a positive amount by a ratio.
    fn stream(
        total_amount: i128,
        numerator: i128,
        denominator: i128,
    ) -> (r: Result<RatioSplit, Error>)
        ensures
            r == outcome(
                streaming_refusal(total_amount, numerator, denominator),
                streamed(total_amount, numerator, denominator),
            ),
    {
        if total_amount <= 0 {
            return Err(Error::InvalidAmount);
        }
        Self::split_round_nearest(total_amount, numerator, denominator)
    }

    /// What a streaming ratio comes to: the first part is what has been
    /// streamed, the second what the client gets back. Anybody may ask.
    pub fn payment_streaming_milestones(
        env: &mut Env,
        total_amount: i128,
        numerator: i128,
        denominator: i128,
    ) -> (r: Result<RatioSplit, Error>)
        ensures
            r == outcome(
                streaming_refusal(total_amount, numerator, denominator),
                streamed(total_amount, numerator, denominator),
            ),
            final(env)@ == payment_streaming_milestones_step(
                old(env)@,
                total_amount,
                numerator,
                denominator,
            ),
    {
        let split = Self::stream(total_amount, numerator, denominator)?;
        env.publish(
            Event::PaymentStreaming(
                PaymentStreamingEvent {
                    total_amount,
                    numerator,
                    denominator,
                    streamed_payout: split.first,
                    client_refund: split.second,
                },
            ),
        );
        Ok(split)
    }

    /// Demands that both parties of the job have signed.
    pub(crate) fn require_client_and_freelancer_consent(
        env: &mut Env,
    ) -> (r: Result<JobMeta, Error>)
        ensures
            r == match old(env)@.instance.job {
                Some(job) => Ok::<JobMeta, Error>(job),
                None => Err(Error::NotInitialized),
            },
            final(env)@ == consent_asked(old(env)@),
    {
        let meta = Self::load_job_meta(env)?;
        env.require_auth(meta.client);
        env.require_auth(meta.freelancer);
        Ok(meta)
    }

    /// What a streaming ratio comes to, signed by both parties.
    pub fn payment_streaming_consent(
        env: &mut Env,
        total_amount: i128,
        numerator: i128,
        denominator: i128,
    ) -> (r: Result<RatioSplit, Error>)
        ensures
            r == outcome(
                payment_streaming_consent_refusal(
                    old(env)@,
                    total_amount,
                    numerator,
                    denominator,
                ),
                streamed(total_amount, numerator, denominator),
            ),
            final(env)@ == payment_streaming_consent_step(
                old(env)@,
                total_amount,
                numerator,
                denominator,
            ),
    {
        let meta = Self::require_client_and_freelancer_consent(env)?;
        let split = Self::stream(total_amount, numerator, denominator)?;
        env.publish(
            Event::PaymentStreamingConsent(
                PaymentStreamingConsentEvent {
                    client: meta.client,
                    freelancer: meta.freelancer,
                    total_amount,
                    numerator,
                    denominator,
                    streamed_payout: split.first,
                    client_refund: split.second,
                },
            ),
        );
        Ok(split)
    }

    /// Announces a division by elapsed time.
    fn publish_time_extension(
        env: &mut Env,
        amount: i128,
        elapsed_seconds: i128,
        total_seconds: i128,
        split: &RatioSplit,
    )
        requires
            *split == streamed(amount, elapsed_seconds, total_seconds),
        ensures
            final(env)@ == old(env)@.announced(
                time_extension(amount, elapsed_seconds, total_seconds),
            ),
    {
        env.publish(
            Event::MilestoneTimeExtension(
                MilestoneTimeExtensionEvent {
                    amount,
                    elapsed_seconds,
                    total_seconds,
                    freelancer_share: split.first,
                    client_refund: split.second,
                },
            ),
        );
    }

    /// What an amount comes to when `elapsed_seconds` of `total_seconds` have
    /// passed: the first part is the freelancer's, the second the client's.
    /// Anybody may ask.
    pub fn milestone_time_extensions(
        env: &mut Env,
        amount: i128,
        elapsed_seconds: i128,
        total_seconds: i128,
    ) -> (r: Result<RatioSplit, Error>)
        ensures
            r == outcome(
                streaming_refusal(amount, elapsed_seconds, total_seconds),
                streamed(amount, elapsed_seconds, total_seconds),
            ),
            final(env)@ == milestone_time_extensions_step(
                old(env)@,
                amount,
                elapsed_seconds,
                total_seconds,
            ),
    {
        let split = Self::stream(amount, elapsed_seconds, total_seconds)?;
        Self::publish_time_extension(env, amount, elapsed_seconds, total_seconds, &split);
        Ok(split)
    }

    /// The admin divides what is owed for a disputed milestone by elapsed time.
    pub fn admin_override_streaming_release(
        env: &mut Env,
        admin: Address,
        milestone_index: u32,
        elapsed_seconds: i128,
        total_seconds: i128,
    ) -> (r: Result<RatioSplit, Error>)
        requires
            admin_override_streaming_release_refusal(
                old(env)@,
                admin,
                milestone_index,
                elapsed_seconds,
                total_seconds,
            ) is None && streaming_release(
                old(env)@,
                milestone_index,
                elapsed_seconds,
                total_seconds,
            ).first != 0 ==> old(env)@.can_reward(old(env)@.instance.job->0),
        ensures
            r == outcome(
                admin_override_streaming_release_refusal(
                    old(env)@,
                    admin,
                    milestone_index,
                    elapsed_seconds,
                    total_seconds,
                ),
                streaming_release(old(env)@, milestone_index, elapsed_seconds, total_seconds),
            ),
            final(env)@ == admin_override_streaming_release_step(
                old(env)@,
                admin,
                milestone_index,
                elapsed_seconds,
                total_seconds,
            ),
    {
        Self::require_admin(env, admin)?;
        let meta = Self::load_job_meta(env)?;
        if !meta.funded {
            return Err(Error::NotFunded);
        }
        let milestone = Self::job_milestone(env, &meta, milestone_index)?;
        if milestone.status != MilestoneStatus::Disputed {
            return Err(Error::InvalidStatus);
        }
        let remaining: i128 = Self::balance_of(&milestone)?;
        let split = Self::stream(remaining, elapsed_seconds, total_seconds)?;
        proof {
            lemma_split_conserves(remaining as int, elapsed_seconds as int, total_seconds as int);
        }
        let contract_balance: i128 = env.token_balance;
        if contract_balance <= 0 {
            return Err(Error::InvalidAmount);
        }
        Self::publish_time_extension(env, remaining, elapsed_seconds, total_seconds, &split);
        let client_refund: i128 = Self::smaller_of(split.second, contract_balance);
        let freelancer_payout: i128 = Self::smaller_of(
            split.first,
            contract_balance - client_refund,
        );
        Self::divide_up(
            env,
            &meta,
            milestone_index,
            milestone,
            client_refund,
            freelancer_payout,
        );
        let contract_id = env.contract;
        env.publish(
            Event::AdminOverrideStreamingRelease(
                AdminOverrideStreamingReleaseEvent {
                    admin,
                    contract_id,
                    milestone_index,
                    client: meta.client,
                    freelancer: meta.freelancer,
                    token: meta.token,
                    client_refund,
                    freelancer_payout,
                },
            ),
        );
        Ok(RatioSplit { first: freelancer_payout, second: client_refund })
    }
}

} // verus!
