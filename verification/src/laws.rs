//! What holds of every request, and of several requests together.

use crate::address::Address;
use crate::allocation::{ints, sum_to};
use crate::cancellation::{all_closed, all_owed};
use crate::guards::is_terminal;
use crate::job::{fresh_milestones, lemma_prefix_of_positive, prices_valid, tally};
use crate::ledger::{untouched, EffectView, Ledger};
use crate::requests::{admissible, refusal, step, Request};
use crate::soundness::{
    is_untouched, milestone_sound, milestones_sound, sound,
};
use crate::steps::{
    authorized, brought_in, can_become, due, extends, lemma_every_request_is_lawful,
    only_signatures_more, only_the_parties_trade, paid_out, same_entries, settles_all, target,
    tax_is_current,
};
use crate::types::{Error, JobMeta, Milestone, MilestoneStatus};
use vstd::prelude::*;

verus! {

// ── refused requests ─────────────────────────────────────────────────────────

/// A refused request changes no entry, moves no funds and announces nothing; it
/// has at most demanded signatures.
pub proof fn lemma_refused_requests_change_nothing(l: Ledger, request: Request)
    requires
        refusal(l, request) is Some,
    ensures
        same_entries(l, step(l, request)),
        extends(l.effects, step(l, request).effects),
        only_signatures_more(l.effects, step(l, request).effects),
{
    lemma_every_request_is_lawful(l, request);
}

/// Whoever makes a request that is granted is entitled to, and must sign.
pub proof fn lemma_only_the_entitled_succeed(l: Ledger, request: Request)
    requires
        refusal(l, request) is None,
    ensures
        authorized(l, step(l, request), request),
{
    lemma_every_request_is_lawful(l, request);
}

// ── the job ──────────────────────────────────────────────────────────────────

/// Once set up, the terms of a job never change, and once funded it stays
/// funded.
pub proof fn lemma_terms_never_change(l: Ledger, request: Request)
    requires
        l.instance.job is Some,
    ensures
        step(l, request).instance.job == Some(
            JobMeta {
                funded: l.instance.job->0.funded || (request is Fund && refusal(l, request)
                    is None),
                ..l.instance.job->0
            },
        ),
{
    lemma_every_request_is_lawful(l, request);
}

/// A job is set up once and funded once.
pub proof fn lemma_set_up_and_funded_once(l: Ledger, request: Request)
    requires
        l.instance.job is Some,
    ensures
        request is Initialize ==> refusal(l, request) == Some(Error::AlreadyInitialized),
        request is Fund && l.instance.job->0.funded ==> refusal(l, request) is Some,
{
    match request {
        Request::Initialize {
            admin,
            client,
            freelancer,
            arbiter,
            token,
            auto_release_seconds,
            milestone_amounts,
        } => {
            lemma_second_set_up(
                l,
                admin,
                client,
                freelancer,
                arbiter,
                token,
                auto_release_seconds,
                milestone_amounts,
            );
        },
        Request::Fund { client } => {
            if l.instance.job->0.funded {
                lemma_second_deposit(l, client);
            }
        },
        _ => {},
    }
}

proof fn lemma_second_set_up(
    l: Ledger,
    admin: Address,
    client: Address,
    freelancer: Address,
    arbiter: Address,
    token: Address,
    auto_release_seconds: u64,
    milestone_amounts: Seq<i128>,
)
    requires
        l.instance.job is Some,
    ensures
        refusal(
            l,
            Request::Initialize {
                admin,
                client,
                freelancer,
                arbiter,
                token,
                auto_release_seconds,
                milestone_amounts,
            },
        ) == Some(Error::AlreadyInitialized),
{
    reveal(refusal);
}

proof fn lemma_second_deposit(l: Ledger, client: Address)
    requires
        l.instance.job is Some,
        l.instance.job->0.funded,
    ensures
        refusal(l, Request::Fund { client }) is Some,
{
    reveal(refusal);
}

// ── milestones ───────────────────────────────────────────────────────────────

/// A request changes at most the milestone that it is about; only setting the
/// job up and settling a cancellation reach further.
pub proof fn lemma_other_milestones_are_untouched(l: Ledger, request: Request, other: u32)
    requires
        !(request is Initialize),
        !settles_all(request),
        target(request) != Some(other),
    ensures
        step(l, request).milestone(other) == l.milestone(other),
{
    lemma_every_request_is_lawful(l, request);
}

/// No request changes a settled milestone: it is never paid for again.
pub proof fn lemma_settled_milestones_stay_settled(l: Ledger, request: Request, index: u32)
    requires
        sound(l),
        l.milestone(index) is Some,
        is_terminal(l.milestone(index)->0.status),
    ensures
        step(l, request).milestone(index) == l.milestone(index),
{
    lemma_every_request_is_lawful(l, request);
    if request is Initialize {
        lemma_set_up_and_funded_once(l, request);
    }
}

/// Every request leaves a milestone as it is, or moves its status forward. The
/// price stays the same, and what was released is not taken back.
pub proof fn lemma_milestones_move_forward(l: Ledger, request: Request, index: u32)
    requires
        sound(l),
        l.milestone(index) is Some,
    ensures
        step(l, request).milestone(index) matches Some(new) && {
            let old_milestone = l.milestone(index)->0;
            &&& new.amount == old_milestone.amount
            &&& new.released_amount >= old_milestone.released_amount
            &&& new == old_milestone || can_become(old_milestone.status, new.status)
        },
{
    lemma_every_request_is_lawful(l, request);
    if request is Initialize {
        lemma_set_up_and_funded_once(l, request);
    }
    assert(milestone_sound(l.persistent.milestones[index]));
}

/// Reputation is never lost.
pub proof fn lemma_reputation_never_falls(l: Ledger, request: Request, who: Address)
    requires
        admissible(l, request),
    ensures
        step(l, request).reputation_of(who) >= l.reputation_of(who),
{
    lemma_every_request_is_lawful(l, request);
}

// ── soundness ────────────────────────────────────────────────────────────────

/// A contract on which no request was made is sound.
pub proof fn lemma_untouched_is_sound(contract: Address, timestamp: u64, token_balance: i128)
    ensures
        sound(untouched(contract, timestamp, token_balance)),
{
}

proof fn lemma_tally_by_prices(a: Map<u32, Milestone>, b: Map<u32, Milestone>, n: u32)
    requires
        forall|i: u32|
            i < n ==> #[trigger] a.contains_key(i) && b.contains_key(i) && a[i].amount
                == b[i].amount,
    ensures
        tally(a, n) == tally(b, n),
    decreases n,
{
    if n > 0 {
        lemma_tally_by_prices(a, b, (n - 1) as u32);
        assert(a.contains_key((n - 1) as u32));
    }
}

proof fn lemma_fresh_tally(milestones: Map<u32, Milestone>, prices: Seq<i128>, n: u32)
    requires
        prices_valid(prices),
        n <= prices.len(),
        forall|i: u32|
            i < n ==> #[trigger] milestones.contains_key(i) && milestones[i].amount
                == prices[i as int],
    ensures
        tally(milestones, n) == Ok::<int, Error>(sum_to(ints(prices), n as nat)),
    decreases n,
{
    lemma_prefix_of_positive(prices, n as nat, prices.len());
    if n > 0 {
        lemma_fresh_tally(milestones, prices, (n - 1) as u32);
        assert(milestones.contains_key((n - 1) as u32));
    }
}

/// A milestone is replaced by a sound one with the same price.
proof fn lemma_replaced(milestones: Map<u32, Milestone>, job: JobMeta, index: u32, new: Milestone)
    requires
        milestones_sound(milestones, job),
        milestones.contains_key(index),
        job.funded || milestones[index].status != MilestoneStatus::Pending,
        milestone_sound(new),
        new.amount == milestones[index].amount,
    ensures
        milestones_sound(milestones.insert(index, new), job),
{
    let replaced = milestones.insert(index, new);
    assert forall|i: u32| i < job.milestone_count implies
        #[trigger] milestones.contains_key(i) && replaced.contains_key(i) && milestones[i].amount
        == replaced[i].amount by {}
    lemma_tally_by_prices(milestones, replaced, job.milestone_count);
}

/// The milestones stay in order when a cancellation is settled.
proof fn lemma_all_closed_stay_sound(
    milestones: Map<u32, Milestone>,
    job: JobMeta,
    status: MilestoneStatus,
)
    requires
        milestones_sound(milestones, job),
        job.funded,
        is_terminal(status),
    ensures
        milestones_sound(all_closed(milestones, job.milestone_count, status), job),
{
    let closed = all_closed(milestones, job.milestone_count, status);
    assert forall|i: u32| i < job.milestone_count implies
        #[trigger] milestones.contains_key(i) && closed.contains_key(i) && milestones[i].amount
        == closed[i].amount by {}
    lemma_tally_by_prices(milestones, closed, job.milestone_count);
}

/// Setting a job up leaves it in order.
proof fn lemma_set_up_is_sound(
    l: Ledger,
    admin: Address,
    client: Address,
    freelancer: Address,
    arbiter: Address,
    token: Address,
    auto_release_seconds: u64,
    milestone_amounts: Seq<i128>,
)
    requires
        is_untouched(l),
        milestone_amounts.len() <= u32::MAX,
    ensures
        sound(
            step(
                l,
                Request::Initialize {
                    admin,
                    client,
                    freelancer,
                    arbiter,
                    token,
                    auto_release_seconds,
                    milestone_amounts,
                },
            ),
        ),
{
    reveal(step);
    if prices_valid(milestone_amounts) {
        let count = milestone_amounts.len() as u32;
        let fresh = l.persistent.milestones.union_prefer_right(
            fresh_milestones(milestone_amounts, milestone_amounts.len()),
        );
        lemma_prefix_of_positive(milestone_amounts, 0, milestone_amounts.len());
        lemma_fresh_tally(fresh, milestone_amounts, count);
    }
}

/// Whatever is requested, the ledger stays sound.
pub proof fn lemma_every_request_keeps_soundness(l: Ledger, request: Request)
    requires
        sound(l),
        admissible(l, request),
    ensures
        sound(step(l, request)),
{
    let next = step(l, request);
    lemma_every_request_is_lawful(l, request);
    if refusal(l, request) is Some {
        assert(sound(next));
    } else if l.instance.job is None {
        match request {
            Request::Initialize {
                admin,
                client,
                freelancer,
                arbiter,
                token,
                auto_release_seconds,
                milestone_amounts,
            } => {
                lemma_set_up_is_sound(
                    l,
                    admin,
                    client,
                    freelancer,
                    arbiter,
                    token,
                    auto_release_seconds,
                    milestone_amounts,
                );
            },
            _ => {},
        }
    } else {
        let job = l.instance.job->0;
        if request is Initialize {
            lemma_set_up_and_funded_once(l, request);
        } else if settles_all(request) {
            lemma_all_closed_stay_sound(l.persistent.milestones, job, MilestoneStatus::Released);
            lemma_all_closed_stay_sound(l.persistent.milestones, job, MilestoneStatus::Refunded);
        } else if target(request) is Some {
            let index = target(request)->0;
            lemma_replaced(
                l.persistent.milestones,
                job,
                index,
                next.persistent.milestones[index],
            );
        }
        lemma_same_terms(next.persistent.milestones, job, next.instance.job->0);
    }
}

/// The milestones stay in order when the job is funded.
proof fn lemma_same_terms(milestones: Map<u32, Milestone>, a: JobMeta, b: JobMeta)
    requires
        milestones_sound(milestones, a),
        b == (JobMeta { funded: b.funded, ..a }),
        a.funded ==> b.funded,
    ensures
        milestones_sound(milestones, b),
{
}

// ── what is paid ─────────────────────────────────────────────────────────────

/// What is due for the first `n` milestones together.
pub open spec fn due_for(milestones: Map<u32, Milestone>, n: u32) -> int
    decreases n,
{
    if n == 0 {
        0
    } else {
        due_for(milestones, (n - 1) as u32) + due(milestones[(n - 1) as u32])
    }
}

/// What is due for all milestones: nothing until the job is funded.
pub open spec fn all_due(l: Ledger) -> int {
    match l.instance.job {
        Some(job) => if job.funded {
            due_for(l.persistent.milestones, job.milestone_count)
        } else {
            0
        },
        None => 0,
    }
}

/// Replacing one milestone changes what is due by what is due for it.
proof fn lemma_due_replaced(milestones: Map<u32, Milestone>, n: u32, index: u32, new: Milestone)
    ensures
        due_for(milestones.insert(index, new), n) == due_for(milestones, n) + if index < n {
            due(new) - due(milestones[index])
        } else {
            0
        },
    decreases n,
{
    if n > 0 {
        lemma_due_replaced(milestones, (n - 1) as u32, index, new);
    }
}

/// What is due is what a cancellation settles, and nothing is due afterwards.
proof fn lemma_due_settled(
    milestones: Map<u32, Milestone>,
    job: JobMeta,
    n: u32,
    guarded: bool,
    status: MilestoneStatus,
)
    requires
        milestones_sound(milestones, job),
        n <= job.milestone_count,
        is_terminal(status),
        all_owed(milestones, n, guarded) is Ok,
    ensures
        all_owed(milestones, n, guarded)->Ok_0 == due_for(milestones, n),
        due_for(all_closed(milestones, job.milestone_count, status), n) == 0,
    decreases n,
{
    if n > 0 {
        lemma_due_settled(milestones, job, (n - 1) as u32, guarded, status);
        let last = (n - 1) as u32;
        assert(milestones.contains_key(last));
        assert(milestone_sound(milestones[last]));
    }
}

/// What is due for some milestones is at most what they cost.
proof fn lemma_due_within_prices(milestones: Map<u32, Milestone>, job: JobMeta, n: u32)
    requires
        milestones_sound(milestones, job),
        n <= job.milestone_count,
        tally(milestones, n) is Ok,
    ensures
        0 <= due_for(milestones, n) <= tally(milestones, n)->Ok_0,
    decreases n,
{
    if n > 0 {
        lemma_due_within_prices(milestones, job, (n - 1) as u32);
        assert(milestone_sound(milestones[(n - 1) as u32]));
    }
}

/// Signatures cost nothing and bring nothing.
proof fn lemma_signatures_are_free(
    before: Seq<EffectView>,
    after: Seq<EffectView>,
    contract: Address,
)
    requires
        extends(before, after),
        only_signatures_more(before, after),
    ensures
        paid_out(after, contract) == paid_out(before, contract),
        brought_in(after, contract) == brought_in(before, contract),
    decreases after.len(),
{
    if after.len() == before.len() {
        assert(after =~= before);
    } else {
        assert(after.last() is RequireAuth);
        lemma_signatures_are_free(before, after.drop_last(), contract);
    }
}

/// Whatever is requested, tokens move only between the contract and the parties
/// of the job, and only the token of the job.
pub proof fn lemma_only_the_parties_are_paid(l: Ledger, request: Request)
    ensures
        only_the_parties_trade(l, step(l, request)),
{
    lemma_every_request_is_lawful(l, request);
}

/// What a request pays out of the balance was due for a milestone, and is due no
/// more; funding the job makes no more due than it brings in. The one exception
/// is the settlement of a taxed milestone for which something was paid after
/// the tax was computed.
pub proof fn lemma_payments_are_covered(l: Ledger, request: Request)
    requires
        sound(l),
        tax_is_current(l, request),
    ensures
        paid_out(step(l, request).effects, l.contract) + all_due(step(l, request)) - brought_in(
            step(l, request).effects,
            l.contract,
        ) <= paid_out(l.effects, l.contract) + all_due(l) - brought_in(l.effects, l.contract),
{
    let next = step(l, request);
    lemma_every_request_is_lawful(l, request);
    if refusal(l, request) is Some {
        lemma_signatures_are_free(l.effects, next.effects, l.contract);
    } else if l.instance.job is None {
        if request is Initialize {
            lemma_set_up_is_not_funded(l, request);
        }
    } else {
        let job = l.instance.job->0;
        let milestones = l.persistent.milestones;
        if request is Initialize {
            lemma_set_up_and_funded_once(l, request);
        } else if settles_all(request) {
            lemma_due_settled(
                milestones,
                job,
                job.milestone_count,
                !(request is AdminOverrideCancelRelease),
                if request is AdminOverrideCancelRelease {
                    MilestoneStatus::Released
                } else {
                    MilestoneStatus::Refunded
                },
            );
        } else if target(request) is Some {
            let index = target(request)->0;
            assert(milestones.contains_key(index));
            assert(milestone_sound(milestones[index]));
            lemma_due_replaced(
                milestones,
                job.milestone_count,
                index,
                next.persistent.milestones[index],
            );
        } else if request is Fund {
            lemma_set_up_and_funded_once(l, request);
            lemma_due_within_prices(milestones, job, job.milestone_count);
        }
    }
}

/// A job that was just set up is not funded.
proof fn lemma_set_up_is_not_funded(l: Ledger, request: Request)
    requires
        request is Initialize,
        refusal(l, request) is None,
    ensures
        step(l, request).instance.job matches Some(job) && !job.funded,
{
    reveal(refusal);
    reveal(step);
}

/// One request in the life of an escrow, and what the host reports when it is
/// made.
pub struct Turn {
    pub timestamp: u64,
    pub token_balance: i128,
    pub request: Request,
}

/// The ledger as the request of `turn` finds it.
pub open spec fn at_turn(l: Ledger, turn: Turn) -> Ledger {
    Ledger { timestamp: turn.timestamp, token_balance: turn.token_balance, ..l }
}

/// The ledger after `turns`, with all that was asked of the host on the way.
pub open spec fn after_turns(start: Ledger, turns: Seq<Turn>) -> Ledger
    decreases turns.len(),
{
    if turns.len() == 0 {
        start
    } else {
        let l = after_turns(start, turns.drop_last());
        step(at_turn(l, turns.last()), turns.last().request)
    }
}

/// Every request in `turns` is within the limits of the machine.
pub open spec fn turns_admissible(start: Ledger, turns: Seq<Turn>) -> bool {
    forall|n: int|
        #![trigger turns[n]]
        0 <= n < turns.len() ==> admissible(
            at_turn(after_turns(start, turns.take(n)), turns[n]),
            turns[n].request,
        )
}

/// Every settlement of a taxed milestone in `turns` is by a current record.
pub open spec fn taxes_current(start: Ledger, turns: Seq<Turn>) -> bool {
    forall|n: int|
        #![trigger turns[n]]
        0 <= n < turns.len() ==> tax_is_current(
            at_turn(after_turns(start, turns.take(n)), turns[n]),
            turns[n].request,
        )
}

/// Whatever is requested in whatever order, the ledger is sound.
pub proof fn lemma_always_sound(start: Ledger, turns: Seq<Turn>)
    requires
        is_untouched(start),
        turns_admissible(start, turns),
    ensures
        sound(after_turns(start, turns)),
        after_turns(start, turns).contract == start.contract,
    decreases turns.len(),
{
    if turns.len() > 0 {
        let earlier = turns.drop_last();
        let turn = turns.last();
        assert forall|n: int| #![trigger earlier[n]] 0 <= n < earlier.len() implies admissible(
            at_turn(after_turns(start, earlier.take(n)), earlier[n]),
            earlier[n].request,
        ) by {
            assert(earlier.take(n) =~= turns.take(n));
            assert(earlier[n] == turns[n]);
        }
        lemma_always_sound(start, earlier);
        assert(turns.take(turns.len() - 1) =~= earlier);
        assert(turns[turns.len() - 1] == turn);
        let l = at_turn(after_turns(start, earlier), turn);
        assert(sound(l));
        lemma_every_request_keeps_soundness(l, turn.request);
        lemma_every_request_is_lawful(l, turn.request);
    }
}

/// The escrow never pays out more than was paid in, and what is paid in and not
/// yet paid out covers what is still due. This holds where no taxed milestone
/// is settled by a record that is out of date.
pub proof fn lemma_escrow_stays_solvent(start: Ledger, turns: Seq<Turn>)
    requires
        is_untouched(start),
        start.effects.len() == 0,
        turns_admissible(start, turns),
        taxes_current(start, turns),
    ensures
        ({
            let l = after_turns(start, turns);
            let contract = start.contract;
            0 <= all_due(l) <= brought_in(l.effects, contract) - paid_out(l.effects, contract)
        }),
    decreases turns.len(),
{
    lemma_always_sound(start, turns);
    let l = after_turns(start, turns);
    if l.instance.job is Some {
        let job = l.instance.job->0;
        lemma_due_within_prices(l.persistent.milestones, job, job.milestone_count);
    }
    if turns.len() > 0 {
        let earlier = turns.drop_last();
        let turn = turns.last();
        assert forall|n: int| #![trigger earlier[n]] 0 <= n < earlier.len() implies admissible(
            at_turn(after_turns(start, earlier.take(n)), earlier[n]),
            earlier[n].request,
        ) && tax_is_current(
            at_turn(after_turns(start, earlier.take(n)), earlier[n]),
            earlier[n].request,
        ) by {
            assert(earlier.take(n) =~= turns.take(n));
            assert(earlier[n] == turns[n]);
        }
        lemma_escrow_stays_solvent(start, earlier);
        lemma_always_sound(start, earlier);
        assert(turns.take(turns.len() - 1) =~= earlier);
        assert(turns[turns.len() - 1] == turn);
        let before = at_turn(after_turns(start, earlier), turn);
        assert(sound(before));
        lemma_payments_are_covered(before, turn.request);
    }
}

} // verus!
