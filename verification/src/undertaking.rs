//! Opening, funding and cancelling an escrow.

use crate::address::{Address, is_zero};
use crate::allocation::lemma_total_is_the_sum;
use crate::cancellation::{
    admin_override_cancel_refund_step, admin_override_cancel_release_step, all_owed,
    cancel_escrow_refusal, cancel_escrow_step, cancel_override_refusal,
};
use crate::events::{
    AdminCancelOverrideRefundEvent, AdminCancelOverrideReleaseEvent, CancelEscrowInitiatedEvent,
    Event, EventView, FundedEvent,
};
use crate::job::{fund_refusal, fund_step, initialize_refusal, initialize_step, tally};
use crate::ledger::{EffectView, Instance, Ledger, Persistent};
use crate::relations::{asks, follows, kept, open_for_business, told, total_of, unsettled, up};
use crate::types::{Error, JobMeta, Milestone, MilestoneStatus, PlatformFeeAllocation};
use vstd::prelude::*;

verus! {

/// The first `n` milestones are there, and each has a price.
pub open spec fn all_priced(milestones: Map<u32, Milestone>, n: u32) -> bool {
    forall|i: u32| i < n ==> #[trigger] milestones.contains_key(i) && milestones[i].amount > 0
}

/// The first `n` milestones are there.
pub open spec fn none_missing(milestones: Map<u32, Milestone>, n: u32) -> bool {
    forall|i: u32| i < n ==> #[trigger] milestones.contains_key(i)
}

/// What the first `n` milestones cost.
pub open spec fn prices(milestones: Map<u32, Milestone>, n: u32) -> int
    decreases n,
{
    if n == 0 {
        0
    } else {
        prices(milestones, (n - 1) as u32) + milestones[(n - 1) as u32].amount
    }
}

/// What is owed for those of the first `n` milestones that are not settled.
pub open spec fn unpaid(milestones: Map<u32, Milestone>, n: u32) -> int
    decreases n,
{
    if n == 0 {
        0
    } else {
        let milestone = milestones[(n - 1) as u32];
        unpaid(milestones, (n - 1) as u32) + if unsettled(milestone) && milestone.released_amount
            < milestone.amount {
            milestone.amount - milestone.released_amount
        } else {
            0
        }
    }
}

/// The milestones are added up as long as each is there and has a price.
pub proof fn lemma_tally(milestones: Map<u32, Milestone>, n: u32)
    ensures
        match tally(milestones, n) {
            Ok(total) => {
                &&& total == prices(milestones, n)
                &&& 0 <= total <= i128::MAX
                &&& all_priced(milestones, n)
            },
            Err(Error::InvalidMilestone) => !none_missing(milestones, n),
            Err(Error::InvalidAmount) => prices(milestones, n) > i128::MAX || !all_priced(
                milestones,
                n,
            ),
            Err(_) => false,
        },
    decreases n,
{
    if n > 0 {
        let last = (n - 1) as u32;
        lemma_tally(milestones, last);
        assert(milestones.contains_key(last) || !milestones.contains_key(last));
        assert(prices(milestones, n) == prices(milestones, last) + milestones[last].amount);
    }
}

/// What is owed is added up as long as each milestone is there and, where `guarded`, no
/// amount of an unsettled one is negative.
pub proof fn lemma_all_unpaid(milestones: Map<u32, Milestone>, n: u32, guarded: bool)
    ensures
        match all_owed(milestones, n, guarded) {
            Ok(total) => {
                &&& total == unpaid(milestones, n)
                &&& 0 <= total <= i128::MAX
                &&& none_missing(milestones, n)
                &&& !guarded ==> forall|i: u32|
                    i < n && #[trigger] milestones.contains_key(i) && unsettled(milestones[i])
                        ==> milestones[i].amount - milestones[i].released_amount >= i128::MIN
                &&& guarded ==> forall|i: u32|
                    i < n && #[trigger] milestones.contains_key(i) && unsettled(milestones[i])
                        ==> milestones[i].amount >= 0 && milestones[i].released_amount >= 0
            },
            Err(Error::InvalidMilestone) => !none_missing(milestones, n),
            Err(Error::InvalidAmount) => unpaid(milestones, n) > i128::MAX || (exists|i: u32|
                i < n && #[trigger] milestones.contains_key(i) && unsettled(milestones[i])
                    && if guarded {
                    milestones[i].amount < 0 || milestones[i].released_amount < 0
                } else {
                    milestones[i].amount - milestones[i].released_amount < i128::MIN
                }),
            Err(_) => false,
        },
        unpaid(milestones, n) >= 0,
    decreases n,
{
    if n > 0 {
        let last = (n - 1) as u32;
        lemma_all_unpaid(milestones, last, guarded);
        assert(milestones.contains_key(last) || !milestones.contains_key(last));
    }
}

/// The client pays the price of all milestones in, once: every milestone is there, has a
/// price, and together the prices are the total.
pub proof fn lemma_funding(
    l: Ledger,
    client: Address,
)
    ensures
        ({
            let job = l.instance.job->0;
            let milestones = l.persistent.milestones;
            match fund_refusal(l, client) {
                None => {
                    &&& open_for_business(l)
                    &&& !is_zero(client) && client != l.contract
                    &&& l.instance.job is Some
                    &&& !job.funded
                    &&& job.client == client
                    &&& all_priced(milestones, job.milestone_count)
                    &&& prices(milestones, job.milestone_count) == job.total_amount
                    &&& job.total_amount > 0
                },
                Some(Error::Paused) => up(l.instance.paused) || up(l.instance.emergency_paused),
                Some(Error::EscrowLocked) => up(l.instance.cancel_lock),
                Some(Error::TaxWithholdingInProgress) => up(l.instance.tax_execution_lock),
                Some(Error::PlatformFeeAllocationInProgress) => up(l.instance.platform_fee_lock),
                Some(Error::EmergencyPauseInProgress) => up(l.instance.emergency_pause_lock),
                Some(Error::InvalidAddress) => is_zero(client) || client == l.contract,
                Some(Error::NotInitialized) => l.instance.job is None,
                Some(Error::AlreadyFunded) => job.funded,
                Some(Error::Unauthorized) => job.client != client,
                Some(Error::InvalidMilestone) => !none_missing(milestones, job.milestone_count),
                Some(Error::InvalidAmount) => {
                    ||| job.total_amount <= 0
                    ||| prices(milestones, job.milestone_count) != job.total_amount
                    ||| !all_priced(milestones, job.milestone_count)
                },
                _ => false,
            }
        }),
        fund_refusal(l, client) is None ==> ({
            let job = l.instance.job->0;
            let milestones = l.persistent.milestones;
            let next = fund_step(l, client);
            &&& follows(l, next)
            &&& asks(l, next) == seq![
                EffectView::RequireAuth(client),
                EffectView::Transfer {
                    token: job.token,
                    from: client,
                    to: l.contract,
                    amount: job.total_amount,
                },
                told(
                    Event::Funded(
                        FundedEvent {
                            contract_id: l.contract,
                            client,
                            freelancer: job.freelancer,
                            arbiter: job.arbiter,
                            token: job.token,
                            total_amount: job.total_amount,
                            milestone_count: job.milestone_count,
                            auto_release_seconds: job.auto_release_seconds,
                            funded: true,
                        },
                    ),
                ),
            ]
            &&& next.instance == (Instance {
                job: Some(JobMeta { funded: true, ..job }),
                ..l.instance
            })
            &&& next.persistent == l.persistent
            &&& next.temporary == l.temporary
        }),
        fund_refusal(l, client) is Some ==> kept(l, fund_step(l, client)),
{
    let job = l.instance.job->0;
    let milestones = l.persistent.milestones;
    lemma_tally(milestones, job.milestone_count);
}

/// An escrow is opened once, between parties that are neither nobody nor the contract
/// itself, with a price for every milestone and a waiting time.
pub proof fn lemma_opening(
    l: Ledger,
    admin: Address,
    client: Address,
    freelancer: Address,
    arbiter: Address,
    token: Address,
    auto_release_seconds: u64,
    amounts: Seq<i128>,
)
    requires
        amounts.len() <= u32::MAX,
    ensures
        ({
            match initialize_refusal(
                l,
                admin,
                client,
                freelancer,
                arbiter,
                token,
                auto_release_seconds,
                amounts,
            ) {
                None => {
                    &&& l.instance.job is None
                    &&& !is_zero(admin) && admin != l.contract
                    &&& !is_zero(client) && client != l.contract
                    &&& !is_zero(freelancer) && freelancer != l.contract
                    &&& !is_zero(arbiter) && arbiter != l.contract
                    &&& !is_zero(token) && token != l.contract
                    &&& auto_release_seconds > 0
                    &&& amounts.len() > 0
                    &&& forall|i: int| 0 <= i < amounts.len() ==> (#[trigger] amounts[i]) > 0
                    &&& total_of(amounts) <= i128::MAX
                },
                Some(Error::AlreadyInitialized) => l.instance.job is Some,
                Some(Error::InvalidAddress) => {
                    ||| is_zero(admin)
                    ||| admin == l.contract
                    ||| is_zero(client)
                    ||| client == l.contract
                    ||| is_zero(freelancer)
                    ||| freelancer == l.contract
                    ||| is_zero(arbiter)
                    ||| arbiter == l.contract
                    ||| is_zero(token)
                    ||| token == l.contract
                },
                Some(Error::InvalidAmount) => {
                    ||| auto_release_seconds == 0
                    ||| amounts.len() == 0
                    ||| exists|i: int|
                    0 <= i < amounts.len() && (#[trigger] amounts[i]) <= 0
                    ||| total_of(amounts)
                    > i128::MAX
                },
                _ => false,
            }
        }),
        initialize_refusal(
            l,
            admin,
            client,
            freelancer,
            arbiter,
            token,
            auto_release_seconds,
            amounts,
        ) is None ==> ({
            let next = initialize_step(
                l,
                admin,
                client,
                freelancer,
                arbiter,
                token,
                auto_release_seconds,
                amounts,
            );
            &&& follows(l, next)
            &&& asks(l, next) == seq![
                EffectView::RequireAuth(admin),
                EffectView::Publish(
                    EventView::Initialized {
                        client,
                        freelancer,
                        arbiter,
                        token,
                        auto_release_seconds,
                        milestone_amounts: amounts,
                        total_amount: total_of(amounts) as i128,
                        milestone_count: amounts.len() as u32,
                    },
                ),
            ]
            &&& next.instance == (Instance {
                job: Some(
                    JobMeta {
                        client,
                        freelancer,
                        arbiter,
                        token,
                        funded: false,
                        auto_release_seconds,
                        milestone_count: amounts.len() as u32,
                        total_amount: total_of(amounts) as i128,
                    },
                ),
                instance_admin: Some(admin),
                version: Some(1),
                whitelist: Some(seq![token]),
                emergency_paused: Some(false),
                platform_fee: Some(
                    PlatformFeeAllocation {
                        client_bps: 0,
                        freelancer_bps: 10_000,
                        treasury_bps: 0,
                        locked: false,
                    },
                ),
                ..l.instance
            })
            &&& forall|i: u32|
                #![trigger next.persistent.milestones[i]]
                i < amounts.len() ==> next.persistent.milestones.contains_key(i)
                    && next.persistent.milestones[i] == (Milestone {
                    amount: amounts[i as int],
                    released_amount: 0,
                    status: MilestoneStatus::Pending,
                    delivered_at: 0,
                })
            &&& forall|i: u32|
                #![trigger next.persistent.milestones[i]]
                #![trigger next.persistent.milestones.contains_key(i)]
                i >= amounts.len() ==> next.persistent.milestones.contains_key(i)
                    == l.persistent.milestones.contains_key(i) && (
                l.persistent.milestones.contains_key(i) ==> next.persistent.milestones[i]
                    == l.persistent.milestones[i])
            &&& next.persistent == (Persistent {
                admin: Some(admin),
                milestones: next.persistent.milestones,
                ..l.persistent
            })
            &&& next.temporary == l.temporary
        }),
        initialize_refusal(
            l,
            admin,
            client,
            freelancer,
            arbiter,
            token,
            auto_release_seconds,
            amounts,
        ) is Some ==> kept(
            l,
            initialize_step(
                l,
                admin,
                client,
                freelancer,
                arbiter,
                token,
                auto_release_seconds,
                amounts,
            ),
        ),
{
    lemma_total_is_the_sum(amounts);
}

/// A party has a funded escrow cancelled while the contract holds anything.
pub proof fn lemma_cancelling(
    l: Ledger,
    caller: Address,
)
    ensures
        ({
            let job = l.instance.job->0;
            match cancel_escrow_refusal(l, caller) {
                None => {
                    &&& !is_zero(caller)
                    &&& l.instance.job is Some
                    &&& caller == job.client || caller == job.freelancer
                    &&& job.funded
                    &&& l.token_balance > 0
                },
                Some(Error::InvalidAddress) => is_zero(caller),
                Some(Error::NotInitialized) => l.instance.job is None,
                Some(Error::Unauthorized) => caller != job.client && caller != job.freelancer,
                Some(Error::NotFunded) => !job.funded,
                Some(Error::InvalidAmount) => l.token_balance <= 0,
                _ => false,
            }
        }),
        cancel_escrow_refusal(l, caller) is None ==> ({
            let job = l.instance.job->0;
            let next = cancel_escrow_step(l, caller);
            &&& follows(l, next)
            &&& asks(l, next) == seq![
                EffectView::RequireAuth(caller),
                told(
                    Event::CancelEscrowInitiated(
                        CancelEscrowInitiatedEvent {
                            contract_id: l.contract,
                            caller,
                        },
                    ),
                ),
            ]
            &&& next.instance == (Instance {
                cancel_lock: Some(true),
                ..l.instance
            })
            &&& next.persistent == l.persistent
            &&& next.temporary == l.temporary
        }),
        cancel_escrow_refusal(l, caller) is Some ==> kept(l, cancel_escrow_step(l, caller)),
{
}

/// The admin settles a cancellation for the freelancer: in one payment they receive all
/// that is owed for milestones that are not settled.
pub proof fn lemma_cancelled_for_the_freelancer(
    l: Ledger,
    admin: Address,
)
    ensures
        ({
            let job = l.instance.job->0;
            let milestones = l.persistent.milestones;
            match cancel_override_refusal(l, admin, false) {
                None => {
                    &&& l.persistent.admin == Some(admin)
                    &&& l.instance.job is Some
                    &&& job.funded
                    &&& up(l.instance.cancel_lock)
                    &&& none_missing(milestones, job.milestone_count)
                    &&& 0 < unpaid(milestones, job.milestone_count) <= i128::MAX
                    &&& forall|i: u32|
                        i < job.milestone_count && #[trigger] milestones.contains_key(i)
                            && unsettled(milestones[i]) ==> milestones[i].amount
                            - milestones[i].released_amount >= i128::MIN
                },
                Some(Error::NotInitialized) => l.persistent.admin is None || l.instance.job is None,
                Some(Error::Unauthorized) => {
                    l.persistent.admin is Some && l.persistent.admin != Some(admin)
                },
                Some(Error::NotFunded) => !job.funded,
                Some(Error::InvalidStatus) => !up(l.instance.cancel_lock),
                Some(Error::InvalidMilestone) => !none_missing(milestones, job.milestone_count),
                Some(Error::InvalidAmount) => {
                    ||| unpaid(milestones, job.milestone_count) <= 0
                    ||| unpaid(
                    milestones,
                    job.milestone_count,
                ) > i128::MAX
                    ||| exists|i: u32|
                    i < job.milestone_count && #[trigger] milestones.contains_key(i)
                        && unsettled(milestones[i]) && milestones[i].amount
                        - milestones[i].released_amount < i128::MIN
                },
                _ => false,
            }
        }),
        cancel_override_refusal(l, admin, false) is None ==> ({
            let job = l.instance.job->0;
            let milestones = l.persistent.milestones;
            let next = admin_override_cancel_release_step(l, admin);
            &&& follows(l, next)
            &&& asks(l, next) == seq![
                EffectView::RequireAuth(admin),
                EffectView::Transfer {
                    token: job.token,
                    from: l.contract,
                    to: job.freelancer,
                    amount: unpaid(milestones, job.milestone_count) as i128,
                },
                told(
                    Event::AdminCancelOverrideRelease(
                        AdminCancelOverrideReleaseEvent {
                            admin,
                            contract_id: l.contract,
                            freelancer: job.freelancer,
                            token: job.token,
                            total_released: unpaid(milestones, job.milestone_count) as i128,
                        },
                    ),
                ),
            ]
            &&& forall|i: u32|
                #![trigger next.persistent.milestones[i]]
                #![trigger next.persistent.milestones.contains_key(i)]
                milestones.contains_key(i) == next.persistent.milestones.contains_key(i) && (
                milestones.contains_key(i) ==> next.persistent.milestones[i] == if i
                    < job.milestone_count && unsettled(milestones[i])
                    && milestones[i].released_amount < milestones[i].amount {
                    Milestone {
                        amount: milestones[i].amount,
                        released_amount: milestones[i].amount,
                        status: MilestoneStatus::Released,
                        delivered_at: milestones[i].delivered_at,
                    }
                } else {
                    milestones[i]
                })
            &&& next.instance == (Instance {
                cancel_lock: Some(false),
                ..l.instance
            })
            &&& next.persistent == (Persistent {
                milestones: next.persistent.milestones,
                yield_accrued: Some(0),
                ..l.persistent
            })
            &&& next.temporary == l.temporary
        }),
        cancel_override_refusal(l, admin, false) is Some ==> kept(
            l,
            admin_override_cancel_release_step(l, admin),
        ),
{
    lemma_all_unpaid(l.persistent.milestones, l.instance.job->0.milestone_count, false);
}

/// The admin settles a cancellation for the client: in one payment they receive all that
/// is owed for milestones that are not settled.
pub proof fn lemma_cancelled_for_the_client(
    l: Ledger,
    admin: Address,
)
    ensures
        ({
            let job = l.instance.job->0;
            let milestones = l.persistent.milestones;
            match cancel_override_refusal(l, admin, true) {
                None => {
                    &&& l.persistent.admin == Some(admin)
                    &&& l.instance.job is Some
                    &&& job.funded
                    &&& up(l.instance.cancel_lock)
                    &&& none_missing(milestones, job.milestone_count)
                    &&& 0 < unpaid(milestones, job.milestone_count) <= i128::MAX
                    &&& forall|i: u32|
                        i < job.milestone_count && #[trigger] milestones.contains_key(i)
                            && unsettled(milestones[i]) ==> milestones[i].amount >= 0
                            && milestones[i].released_amount >= 0
                },
                Some(Error::NotInitialized) => l.persistent.admin is None || l.instance.job is None,
                Some(Error::Unauthorized) => {
                    l.persistent.admin is Some && l.persistent.admin != Some(admin)
                },
                Some(Error::NotFunded) => !job.funded,
                Some(Error::InvalidStatus) => !up(l.instance.cancel_lock),
                Some(Error::InvalidMilestone) => !none_missing(milestones, job.milestone_count),
                Some(Error::InvalidAmount) => {
                    ||| unpaid(milestones, job.milestone_count) <= 0
                    ||| unpaid(
                    milestones,
                    job.milestone_count,
                ) > i128::MAX
                    ||| exists|i: u32|
                    i < job.milestone_count && #[trigger] milestones.contains_key(i)
                        && unsettled(milestones[i]) && (milestones[i].amount < 0
                        || milestones[i].released_amount < 0)
                },
                _ => false,
            }
        }),
        cancel_override_refusal(l, admin, true) is None ==> ({
            let job = l.instance.job->0;
            let milestones = l.persistent.milestones;
            let next = admin_override_cancel_refund_step(l, admin);
            &&& follows(l, next)
            &&& asks(l, next) == seq![
                EffectView::RequireAuth(admin),
                EffectView::RequireAuth(admin),
                EffectView::Transfer {
                    token: job.token,
                    from: l.contract,
                    to: job.client,
                    amount: unpaid(milestones, job.milestone_count) as i128,
                },
                told(
                    Event::AdminCancelOverrideRefund(
                        AdminCancelOverrideRefundEvent {
                            admin,
                            contract_id: l.contract,
                            client: job.client,
                            token: job.token,
                            total_refunded: unpaid(milestones, job.milestone_count) as i128,
                        },
                    ),
                ),
            ]
            &&& forall|i: u32|
                #![trigger next.persistent.milestones[i]]
                #![trigger next.persistent.milestones.contains_key(i)]
                milestones.contains_key(i) == next.persistent.milestones.contains_key(i) && (
                milestones.contains_key(i) ==> next.persistent.milestones[i] == if i
                    < job.milestone_count && unsettled(milestones[i])
                    && milestones[i].released_amount < milestones[i].amount {
                    Milestone {
                        amount: milestones[i].amount,
                        released_amount: milestones[i].amount,
                        status: MilestoneStatus::Refunded,
                        delivered_at: milestones[i].delivered_at,
                    }
                } else {
                    milestones[i]
                })
            &&& next.instance == (Instance {
                cancel_lock: Some(false),
                ..l.instance
            })
            &&& next.persistent == (Persistent {
                milestones: next.persistent.milestones,
                yield_accrued: Some(0),
                ..l.persistent
            })
            &&& next.temporary == l.temporary
        }),
        cancel_override_refusal(l, admin, true) is Some ==> kept(
            l,
            admin_override_cancel_refund_step(l, admin),
        ),
{
    lemma_all_unpaid(l.persistent.milestones, l.instance.job->0.milestone_count, true);
}

} // verus!
