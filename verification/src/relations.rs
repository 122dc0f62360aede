//! How two ledgers, or an amount and a share of it, relate: the words in which
//! the outcome of a request is stated.

use crate::address::Address;
use crate::events::{Event, EventView};
use crate::ledger::{EffectView, Ledger};
use crate::types::{JobMeta, Milestone, MilestoneStatus};
use vstd::prelude::*;

verus! {

/// `flag` was set and is up.
pub open spec fn up(flag: Option<bool>) -> bool {
    flag == Some(true)
}

/// Nothing keeps the parties from their everyday requests: no pause, no freeze,
/// no cancellation, no operation of the admin under way.
pub open spec fn open_for_business(l: Ledger) -> bool {
    &&& !up(l.instance.paused)
    &&& !up(l.instance.emergency_paused)
    &&& !up(l.instance.cancel_lock)
    &&& !up(l.instance.tax_execution_lock)
    &&& !up(l.instance.platform_fee_lock)
    &&& !up(l.instance.emergency_pause_lock)
}

/// What `next` asks of the host beyond what `l` asks.
pub open spec fn asks(l: Ledger, next: Ledger) -> Seq<EffectView> {
    next.effects.skip(l.effects.len() as int)
}

/// `next` is `l` at the same time and place, with no earlier effect lost.
pub open spec fn follows(l: Ledger, next: Ledger) -> bool {
    &&& next.contract == l.contract
    &&& next.timestamp == l.timestamp
    &&& next.token_balance == l.token_balance
    &&& l.effects.len() <= next.effects.len()
    &&& next.effects.take(l.effects.len() as int) =~= l.effects
}

/// `next` keeps every entry of `l`, and asks for no more than signatures.
pub open spec fn kept(l: Ledger, next: Ledger) -> bool {
    &&& follows(l, next)
    &&& next.instance == l.instance
    &&& next.persistent == l.persistent
    &&& next.temporary == l.temporary
    &&& forall|k: int|
        0 <= k < asks(l, next).len() ==> (#[trigger] asks(l, next)[k]) is RequireAuth
}

/// The effect of publishing `event`.
pub open spec fn told(event: Event) -> EffectView {
    EffectView::Publish(EventView::Plain(event))
}

/// The payment of `amount` out of the contract, or none where it is not positive.
pub open spec fn payment_if_any(l: Ledger, to: Address, amount: i128) -> Seq<EffectView> {
    if amount > 0 {
        seq![
            EffectView::Transfer {
                token: l.instance.job->0.token,
                from: l.contract,
                to,
                amount,
            },
        ]
    } else {
        seq![]
    }
}

/// The job has a milestone of that number.
pub open spec fn has_milestone(l: Ledger, job: JobMeta, milestone_index: u32) -> bool {
    milestone_index < job.milestone_count && l.persistent.milestones.contains_key(milestone_index)
}

/// The milestone is neither released nor refunded.
pub open spec fn unsettled(m: Milestone) -> bool {
    m.status != MilestoneStatus::Released && m.status != MilestoneStatus::Refunded
}

/// The milestone was delivered, and at most a part of it is released.
pub open spec fn awaits_approval(m: Milestone) -> bool {
    m.status == MilestoneStatus::Delivered || m.status == MilestoneStatus::PartiallyReleased
}

/// Not all of the price is released, and what is not is an amount in range.
pub open spec fn something_owed(m: Milestone) -> bool {
    0 < m.amount - m.released_amount <= i128::MAX
}

/// The points that `who` has earned.
pub open spec fn points(l: Ledger, who: Address) -> int {
    if l.persistent.reputation.contains_key(who) {
        l.persistent.reputation[who] as int
    } else {
        0
    }
}

/// Neither party is at the largest number of points.
pub open spec fn room_for_points(l: Ledger, job: JobMeta) -> bool {
    &&& points(l, job.client) < u32::MAX
    &&& points(l, job.freelancer) < u32::MAX
    &&& job.client == job.freelancer ==> points(l, job.client) + 1 < u32::MAX
}

/// From `l` to `next` the client and the freelancer have earned one point each, and
/// nobody else has earned or lost any.
pub open spec fn one_point_each(l: Ledger, next: Ledger, job: JobMeta) -> bool {
    forall|who: Address|
        #![trigger points(next, who)]
        points(next, who) == points(l, who) + (if who == job.client {
            1int
        } else {
            0
        }) + (if who == job.freelancer {
            1int
        } else {
            0
        })
}

/// The seconds by which the release of a milestone has been put off.
pub open spec fn put_off(l: Ledger, milestone_index: u32) -> int {
    if l.persistent.time_extensions.contains_key(milestone_index) {
        l.persistent.time_extensions[milestone_index] as int
    } else {
        0
    }
}

/// When a milestone was delivered.
pub open spec fn delivered(l: Ledger, milestone_index: u32) -> int {
    if l.temporary.delivered_at.contains_key(milestone_index) {
        l.temporary.delivered_at[milestone_index] as int
    } else {
        l.persistent.milestones[milestone_index].delivered_at as int
    }
}

/// `part` is the largest number of units within `bps` basis points of `total`.
pub open spec fn share_rounded_down(part: int, total: int, bps: int) -> bool {
    part * 10_000 <= total * bps < (part + 1) * 10_000
}

/// `part` is the number of units nearest to `numerator / denominator` of `total`; of
/// two that are equally near it is the larger.
pub open spec fn part_to_the_nearest(
    part: int,
    total: int,
    numerator: int,
    denominator: int,
) -> bool {
    2 * part * denominator - denominator <= 2 * total * numerator < 2 * part * denominator
        + denominator
}

/// What some amounts make together.
pub open spec fn total_of(amounts: Seq<i128>) -> int
    decreases amounts.len(),
{
    if amounts.len() == 0 {
        0
    } else {
        total_of(amounts.drop_last()) + amounts.last()
    }
}

/// `shares` divide all of `total` by `weights`: everybody's share is the exact one,
/// rounded up or down, and rounded up first for those to whom rounding down would
/// cost most; of two to whom it would cost the same, for the one that comes first.
pub open spec fn fair_shares(shares: Seq<i128>, total: int, weights: Seq<i128>) -> bool {
    let whole = total_of(weights);
    &&& shares.len() == weights.len()
    &&& total_of(shares) == total
    &&& forall|i: int|
        0 <= i < weights.len() ==> total * weights[i] - whole < (
            #[trigger] shares[i]
        ) * whole < total
            * weights[i] + whole
    &&& forall|i: int, j: int|
        #![trigger shares[i], shares[j]]
        0 <= i < weights.len() && 0 <= j < weights.len() && shares[i] * whole > total * weights[i]
            && shares[j] * whole < total * weights[j] ==> (total * weights[j]) % whole <= (total
            * weights[i]) % whole && ((total * weights[j]) % whole == (total * weights[i]) % whole
            ==> i < j)
}

} // verus!
