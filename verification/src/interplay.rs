//! How requests bear on one another.

use crate::address::Address;
use crate::admin::{
    cancel_admin_transfer_proposal_refusal, cancel_admin_transfer_proposal_step,
    execute_admin_transfer_refusal, execute_admin_transfer_step, propose_admin_transfer_refusal,
    propose_admin_transfer_step, transfer_admin_step, upgrade_step,
};
use crate::cancellation::{
    admin_override_cancel_refund_step, admin_override_cancel_release_step,
    cancel_escrow_refusal, cancel_escrow_step, cancel_override_refusal,
};
use crate::disputes::{
    apply_dispute_arbitration_split_refusal, raise_dispute_refusal, raise_dispute_step,
    resolve_dispute_refusal,
};
use crate::guards::{admin_refusal, is_terminal};
use crate::interest::{
    set_escrow_interest_yield_refusal, set_interest_yield_consent_refusal, yield_lock_refusal,
    yield_lock_step,
};
use crate::job::{fund_refusal, fund_step, tally};
use crate::ledger::{or_default, raised, EffectView, Instance, Ledger};
use crate::milestones::{
    approve_milestone_refusal, approve_partial_refusal, as_signed, claim_auto_release_refusal,
    extend_milestone_deadline_refusal, extend_milestone_deadline_step, mark_delivered_refusal,
    mark_delivered_step, release_time,
};
use crate::multisig::{
    approvals_in, bitmap_of, has_approved, lemma_approval_is_idempotent,
    lemma_approval_is_recorded, lemma_approvals_count_signers, multisig_approval_init_refusal,
    multisig_approval_init_step, multisig_approve_refusal, multisig_approve_step,
    multisig_lock_step, position,
};
use crate::overrides::{
    admin_override_refund_step, admin_override_refusal, admin_override_release_step,
    multisig_admin_override_refund_refusal, multisig_admin_override_refund_step,
    multisig_admin_override_release_step,
};
use crate::pause::{
    admin_pause_escrow_step, admin_resume_escrow_step, emergency_pause_refusal,
    emergency_pause_step, emergency_unpause_refusal, emergency_unpause_step,
};
use crate::platform_fee::{
    fee_parts, fee_shares_valid, lemma_fee_conserves, lock_platform_fee_allocation_refusal,
    lock_platform_fee_allocation_step, pf_alloc_admin_override_refusal,
    pf_alloc_admin_override_step, set_platform_fee_allocation_refusal, sum3,
};
use crate::requests::{refusal, Request};
use crate::soundness::{milestone_sound, sound};
use crate::steps::{lemma_every_request_is_lawful, same_entries, target};
use crate::types::{Error, MilestoneStatus, PlatformFeeAllocation};
use crate::whitelist::{
    add_whitelisted_token_refusal, add_whitelisted_token_step, lemma_position_iff_contains,
    lemma_without, remove_whitelisted_token_refusal, remove_whitelisted_token_step,
};
use vstd::prelude::*;

verus! {

// ── what stops everyday requests ─────────────────────────────────────────────

/// While the admin has paused the escrow, or it is frozen, every everyday
/// request is refused as paused.
pub proof fn lemma_pauses_stop_everyday_requests(
    l: Ledger,
    who: Address,
    index: u32,
    amount: i128,
)
    requires
        raised(l.instance.paused) || raised(l.instance.emergency_paused),
    ensures
        fund_refusal(l, who) == Some(Error::Paused),
        mark_delivered_refusal(l, who, index) == Some(Error::Paused),
        approve_milestone_refusal(l, who, index) == Some(Error::Paused),
        approve_partial_refusal(l, who, index, amount) == Some(Error::Paused),
        claim_auto_release_refusal(l, who, index) == Some(Error::Paused),
        raise_dispute_refusal(l, who, index) == Some(Error::Paused),
        resolve_dispute_refusal(l, who, index) == Some(Error::Paused),
{
}

/// While the admin has paused the escrow, no deadline is moved.
pub proof fn lemma_pause_stops_extensions(l: Ledger, who: Address, index: u32, extra_seconds: u64)
    requires
        raised(l.instance.paused),
    ensures
        extend_milestone_deadline_refusal(l, who, index, extra_seconds) == Some(Error::Paused),
{
}

/// Once a party has asked for cancellation, every everyday request is refused
/// until the admin has settled it.
pub proof fn lemma_cancellation_stops_everyday_requests(
    l: Ledger,
    caller: Address,
    who: Address,
    index: u32,
    amount: i128,
    client_refund_bps: u32,
    extra_seconds: u64,
)
    requires
        cancel_escrow_refusal(l, caller) is None,
        !raised(l.instance.paused),
        !raised(l.instance.emergency_paused),
    ensures
        ({
            let next = cancel_escrow_step(l, caller);
            &&& fund_refusal(next, who) == Some(Error::EscrowLocked)
            &&& mark_delivered_refusal(next, who, index) == Some(Error::EscrowLocked)
            &&& approve_milestone_refusal(next, who, index) == Some(Error::EscrowLocked)
            &&& approve_partial_refusal(next, who, index, amount) == Some(Error::EscrowLocked)
            &&& claim_auto_release_refusal(next, who, index) == Some(Error::EscrowLocked)
            &&& raise_dispute_refusal(next, who, index) == Some(Error::EscrowLocked)
            &&& resolve_dispute_refusal(next, who, index) == Some(Error::EscrowLocked)
            &&& apply_dispute_arbitration_split_refusal(next, who, index, client_refund_bps)
                == Some(Error::EscrowLocked)
            &&& extend_milestone_deadline_refusal(next, who, index, extra_seconds) == Some(
                Error::EscrowLocked,
            )
        }),
{
}

/// A cancellation must be asked for before the admin can settle it, and is over
/// once it is settled.
pub proof fn lemma_cancellation_is_settled_once(l: Ledger, admin: Address, guarded: bool)
    requires
        sound(l),
    ensures
        !raised(l.instance.cancel_lock) ==> cancel_override_refusal(l, admin, guarded) is Some,
        cancel_override_refusal(l, admin, false) is None ==> !raised(
            admin_override_cancel_release_step(l, admin).instance.cancel_lock,
        ),
        cancel_override_refusal(l, admin, true) is None ==> !raised(
            admin_override_cancel_refund_step(l, admin).instance.cancel_lock,
        ),
{
}

/// Settling a cancellation settles every milestone, in the way of the override
/// where it was not settled before.
pub proof fn lemma_cancellation_settles_everything(l: Ledger, admin: Address, index: u32)
    requires
        sound(l),
        l.milestone(index) is Some,
    ensures
        ({
            let was_settled = is_terminal(l.milestone(index)->0.status);
            let released = admin_override_cancel_release_step(l, admin).milestone(index)->0;
            let refunded = admin_override_cancel_refund_step(l, admin).milestone(index)->0;
            &&& cancel_override_refusal(l, admin, false) is None && !was_settled
                ==> released.status == MilestoneStatus::Released && released.released_amount
                == released.amount
            &&& cancel_override_refusal(l, admin, true) is None && !was_settled ==> refunded.status
                == MilestoneStatus::Refunded && refunded.released_amount == refunded.amount
            &&& was_settled ==> released == l.milestone(index)->0 && refunded == l.milestone(
                index,
            )->0
        }),
{
    assert(milestone_sound(l.persistent.milestones[index]));
    assert(l.persistent.milestones.contains_key(index));
}

// ── milestones ───────────────────────────────────────────────────────────────

/// Every request about a settled milestone is refused.
pub proof fn lemma_settled_milestones_refuse_requests(l: Ledger, request: Request, index: u32)
    requires
        sound(l),
        target(request) == Some(index),
        l.milestone(index) is Some,
        is_terminal(l.milestone(index)->0.status),
    ensures
        refusal(l, request) is Some,
{
    lemma_every_request_is_lawful(l, request);
    assert(milestone_sound(l.persistent.milestones[index]));
}

/// A milestone that is disputed can be neither approved, claimed, extended nor
/// disputed again: only the arbiter or the admin settles it.
pub proof fn lemma_disputes_stop_the_parties(
    l: Ledger,
    caller: Address,
    who: Address,
    index: u32,
    amount: i128,
    extra_seconds: u64,
)
    requires
        raise_dispute_refusal(l, caller, index) is None,
    ensures
        ({
            let next = raise_dispute_step(l, caller, index);
            &&& approve_milestone_refusal(next, who, index) is Some
            &&& approve_partial_refusal(next, who, index, amount) is Some
            &&& claim_auto_release_refusal(next, who, index) is Some
            &&& extend_milestone_deadline_refusal(next, who, index, extra_seconds) is Some
            &&& mark_delivered_refusal(next, who, index) is Some
            &&& raise_dispute_refusal(next, who, index) is Some
        }),
{
}

/// While the dispute lock of a milestone is held, no dispute over it is raised and
/// no award is made.
pub proof fn lemma_dispute_lock_stops_disputes(
    l: Ledger,
    who: Address,
    index: u32,
    client_refund_bps: u32,
)
    requires
        l.temporary.dispute_lock.contains_key(index),
        !raised(l.instance.paused),
        !raised(l.instance.emergency_paused),
        !raised(l.instance.cancel_lock),
    ensures
        raise_dispute_refusal(l, who, index) == Some(Error::DisputeAlreadyRaised),
        apply_dispute_arbitration_split_refusal(l, who, index, client_refund_bps) == Some(
            Error::DisputeAlreadyRaised,
        ),
{
}

/// A delivered milestone can be claimed only from its release time on.
pub proof fn lemma_claims_wait_for_the_release_time(l: Ledger, freelancer: Address, index: u32)
    requires
        l.timestamp < release_time(l, index),
    ensures
        claim_auto_release_refusal(l, freelancer, index) is Some,
{
}

/// The countdown to the release time has run out exactly when a claim need not
/// wait any longer.
pub proof fn lemma_countdown_ends_at_the_release_time(l: Ledger, index: u32)
    requires
        release_time(l, index) <= i64::MAX,
        l.timestamp <= i64::MAX,
    ensures
        as_signed(release_time(l, index)) - as_signed(l.timestamp as int) <= 0 <==> l.timestamp
            >= release_time(l, index),
{
}

/// The release time of a milestone that is delivered now is now, plus the waiting
/// time of the job and the extensions granted so far.
pub proof fn lemma_delivery_starts_the_clock(l: Ledger, freelancer: Address, index: u32)
    requires
        mark_delivered_refusal(l, freelancer, index) is None,
    ensures
        release_time(mark_delivered_step(l, freelancer, index), index) == l.timestamp
            + l.instance.job->0.auto_release_seconds + l.extension(index),
{
}

/// An extension puts the release time off by exactly the extra seconds, and that
/// of no other milestone.
pub proof fn lemma_extensions_add_up(
    l: Ledger,
    client: Address,
    index: u32,
    extra_seconds: u64,
    other: u32,
)
    requires
        extend_milestone_deadline_refusal(l, client, index, extra_seconds) is None,
    ensures
        release_time(extend_milestone_deadline_step(l, client, index, extra_seconds), other)
            == release_time(l, other) + if other == index {
            extra_seconds as int
        } else {
            0
        },
{
}

/// Funding moves the sum of all prices from the client into the contract.
pub proof fn lemma_funding_moves_the_sum_of_prices(l: Ledger, client: Address)
    requires
        sound(l),
        fund_refusal(l, client) is None,
    ensures
        ({
            let job = l.instance.job->0;
            &&& fund_step(l, client).effects[l.effects.len() as int + 1] == EffectView::Transfer {
                token: job.token,
                from: client,
                to: l.contract,
                amount: job.total_amount,
            }
            &&& tally(l.persistent.milestones, job.milestone_count) == Ok::<int, Error>(
                job.total_amount as int,
            )
        }),
{
}

/// The stored shares divide every fee without a remainder.
pub proof fn lemma_stored_shares_divide_everything(l: Ledger, total: i128)
    requires
        sound(l),
        l.instance.job is Some,
        total >= 0,
    ensures
        l.instance.platform_fee matches Some(shares) && sum3(fee_parts(total as int, shares))
            == total,
{
    lemma_fee_conserves(total as int, l.instance.platform_fee->0);
}

// ── pausing ──────────────────────────────────────────────────────────────────

/// Pausing and resuming leaves the entries as they were, with both flags down.
pub proof fn lemma_pause_and_resume(l: Ledger, admin: Address)
    requires
        admin_refusal(l, admin) is None,
    ensures
        ({
            let paused = admin_pause_escrow_step(l, admin);
            let resumed = admin_resume_escrow_step(paused, admin);
            &&& raised(paused.instance.paused)
            &&& !raised(resumed.instance.paused)
            &&& same_entries(
                l.with_instance(
                    Instance {
                        paused: Some(false),
                        emergency_pause_lock: Some(false),
                        ..l.instance
                    },
                ),
                resumed,
            )
        }),
{
}

/// Pausing twice is pausing once, and only the first time is announced.
pub proof fn lemma_pausing_twice(l: Ledger, admin: Address)
    requires
        admin_refusal(l, admin) is None,
    ensures
        ({
            let once = admin_pause_escrow_step(l, admin);
            admin_pause_escrow_step(once, admin) == once.asked(admin)
        }),
{
}

/// A frozen escrow cannot be frozen again, and one that is not frozen cannot be
/// thawed; thawing undoes freezing.
pub proof fn lemma_freeze_and_thaw(l: Ledger, admin: Address)
    requires
        emergency_pause_refusal(l, admin) is None,
    ensures
        ({
            let frozen = emergency_pause_step(l, admin);
            let thawed = emergency_unpause_step(frozen, admin);
            &&& raised(frozen.instance.emergency_paused)
            &&& emergency_pause_refusal(frozen, admin) == Some(Error::AlreadyPaused)
            &&& emergency_unpause_refusal(l, admin) == Some(Error::NotPaused)
            &&& emergency_unpause_refusal(frozen, admin) is None
            &&& same_entries(
                l.with_instance(
                    Instance {
                        emergency_paused: Some(false),
                        emergency_pause_lock: Some(false),
                        ..l.instance
                    },
                ),
                thawed,
            )
        }),
{
}

// ── shares of the yield ──────────────────────────────────────────────────────

/// Locked shares cannot be replaced, by the admin alone or with the consent of
/// the parties; unlocking gives back what was locked.
pub proof fn lemma_locked_shares_stay(
    l: Ledger,
    admin: Address,
    client_share_bps: u32,
    freelancer_share_bps: u32,
)
    requires
        yield_lock_refusal(l, admin) is None,
    ensures
        ({
            let locked = yield_lock_step(l, admin, true);
            let unlocked = yield_lock_step(locked, admin, false);
            let shares = l.instance.interest_yield->0;
            &&& set_escrow_interest_yield_refusal(
                locked,
                admin,
                client_share_bps,
                freelancer_share_bps,
            ) is Some
            &&& set_interest_yield_consent_refusal(
                locked,
                admin,
                client_share_bps,
                freelancer_share_bps,
            ) is Some
            &&& unlocked.instance.interest_yield matches Some(state) && state.client_share_bps
                == shares.client_share_bps && state.freelancer_share_bps
                == shares.freelancer_share_bps && !state.locked
        }),
{
}

/// Every override that pays out clears the yield that was booked.
pub proof fn lemma_overrides_clear_the_yield(l: Ledger, admin: Address, index: u32)
    ensures
        admin_override_refusal(l, admin, index) is None ==> {
            &&& admin_override_release_step(l, admin, index).persistent.yield_accrued == Some(0i128)
            &&& admin_override_refund_step(l, admin, index).persistent.yield_accrued == Some(0i128)
        },
        cancel_override_refusal(l, admin, false) is None ==> admin_override_cancel_release_step(
            l,
            admin,
        ).persistent.yield_accrued == Some(0i128),
        cancel_override_refusal(l, admin, true) is None ==> admin_override_cancel_refund_step(
            l,
            admin,
        ).persistent.yield_accrued == Some(0i128),
{
}

// ── shares of the fee ────────────────────────────────────────────────────────

/// Locked shares of the fee can be replaced by the override alone, which unlocks
/// them; the override replaces no shares that are not locked.
pub proof fn lemma_locked_fee_takes_an_override(
    l: Ledger,
    admin: Address,
    client_bps: u32,
    freelancer_bps: u32,
    treasury_bps: u32,
)
    requires
        lock_platform_fee_allocation_refusal(l, admin) is None,
        fee_shares_valid(client_bps, freelancer_bps, treasury_bps),
    ensures
        ({
            let locked = lock_platform_fee_allocation_step(l, admin);
            let replaced = pf_alloc_admin_override_step(
                locked,
                admin,
                client_bps,
                freelancer_bps,
                treasury_bps,
            );
            &&& set_platform_fee_allocation_refusal(
                locked,
                admin,
                client_bps,
                freelancer_bps,
                treasury_bps,
            ) == Some(Error::InvalidStatus)
            &&& pf_alloc_admin_override_refusal(
                locked,
                admin,
                client_bps,
                freelancer_bps,
                treasury_bps,
            ) is None
            &&& replaced.instance.platform_fee == Some(
                PlatformFeeAllocation { client_bps, freelancer_bps, treasury_bps, locked: false },
            )
            &&& pf_alloc_admin_override_refusal(
                replaced,
                admin,
                client_bps,
                freelancer_bps,
                treasury_bps,
            ) == Some(Error::InvalidStatus)
        }),
{
}

// ── accepted tokens ──────────────────────────────────────────────────────────

/// A token that was added is accepted, cannot be added again, and leaves the
/// list as it was when it is taken out.
pub proof fn lemma_add_and_remove_token(l: Ledger, admin: Address, token: Address)
    requires
        sound(l),
        add_whitelisted_token_refusal(l, admin, token) is None,
    ensures
        ({
            let added = add_whitelisted_token_step(l, admin, token);
            let removed = remove_whitelisted_token_step(added, admin, token);
            &&& added.instance.whitelist->0.contains(token)
            &&& add_whitelisted_token_refusal(added, admin, token) == Some(
                Error::TokenAlreadyWhitelisted,
            )
            &&& remove_whitelisted_token_refusal(added, admin, token) is None
            &&& same_entries(l, removed)
        }),
{
    let list = l.instance.whitelist->0;
    let longer = list.push(token);
    assert(longer[list.len() as int] == token);
    assert(longer.contains(token));
    lemma_position_iff_contains(longer, token, 0);
    let removed = remove_whitelisted_token_step(
        add_whitelisted_token_step(l, admin, token),
        admin,
        token,
    );
    assert(removed.instance.whitelist->0 =~= list);
    assert(removed.instance =~= l.instance);
}

/// A token that was taken out is no longer accepted, all others still are, and
/// it cannot be taken out again.
pub proof fn lemma_removed_token_is_gone(l: Ledger, admin: Address, token: Address, other: Address)
    requires
        sound(l),
        remove_whitelisted_token_refusal(l, admin, token) is None,
    ensures
        ({
            let removed = remove_whitelisted_token_step(l, admin, token);
            &&& !removed.instance.whitelist->0.contains(token)
            &&& other != token ==> removed.instance.whitelist->0.contains(other)
                == l.instance.whitelist->0.contains(other)
            &&& remove_whitelisted_token_refusal(removed, admin, token) is Some
        }),
{
    lemma_without(l.instance.whitelist->0, token);
}

// ── the admin ────────────────────────────────────────────────────────────────

/// Once the role is handed over, the new admin is accepted and every other
/// address is refused.
pub proof fn lemma_admin_hands_over(
    l: Ledger,
    admin: Address,
    new_admin: Address,
    other: Address,
)
    requires
        admin_refusal(l, admin) is None,
    ensures
        ({
            let next = transfer_admin_step(l, admin, new_admin);
            &&& admin_refusal(next, new_admin) is None
            &&& other != new_admin ==> admin_refusal(next, other) == Some(Error::Unauthorized)
        }),
{
}

/// While a transfer of the role is proposed no other can be; once the proposal is
/// withdrawn another can be made.
pub proof fn lemma_one_proposal_at_a_time(
    l: Ledger,
    admin: Address,
    new_admin: Address,
    proposal_id: u32,
    other: Address,
)
    requires
        propose_admin_transfer_refusal(l, admin, new_admin) is None,
    ensures
        ({
            let proposed = propose_admin_transfer_step(l, admin, new_admin, proposal_id);
            let withdrawn = cancel_admin_transfer_proposal_step(proposed, admin);
            &&& propose_admin_transfer_refusal(proposed, admin, other) is Some
            &&& cancel_admin_transfer_proposal_refusal(proposed, admin) is None
            &&& propose_admin_transfer_refusal(withdrawn, admin, new_admin) is None
            &&& same_entries(l, withdrawn)
        }),
{
}

/// A proposed transfer is carried out exactly where enough signers approved it,
/// makes the proposed address the admin, and cannot be carried out again.
pub proof fn lemma_transfer_takes_enough_approvals(
    l: Ledger,
    admin: Address,
    new_admin: Address,
    proposal_id: u32,
)
    requires
        sound(l),
        propose_admin_transfer_refusal(l, admin, new_admin) is None,
        l.instance.multisig_threshold is Some,
    ensures
        ({
            let proposed = propose_admin_transfer_step(l, admin, new_admin, proposal_id);
            let done = execute_admin_transfer_step(proposed);
            let enough = approvals_in(bitmap_of(l, proposal_id))
                >= l.instance.multisig_threshold->0;
            &&& execute_admin_transfer_refusal(proposed) == if enough {
                None::<Error>
            } else {
                Some(Error::MultiSigThresholdNotMet)
            }
            &&& enough ==> admin_refusal(done, new_admin) is None
            &&& enough ==> execute_admin_transfer_refusal(done) == Some(
                Error::NoPendingAdminTransfer,
            )
        }),
{
}

/// An upgrade raises the version by one.
pub proof fn lemma_upgrades_count(l: Ledger, admin: Address, new_wasm_hash: Seq<u8>)
    requires
        admin_refusal(l, admin) is None,
        or_default(l.instance.version, 1) < u32::MAX,
    ensures
        or_default(upgrade_step(l, admin, new_wasm_hash).instance.version, 1) == or_default(
            l.instance.version,
            1,
        ) + 1,
{
}

// ── approvals ────────────────────────────────────────────────────────────────

/// Signers are registered once.
pub proof fn lemma_signers_are_registered_once(
    l: Ledger,
    admin: Address,
    signers: Seq<Address>,
    threshold: u32,
    others: Seq<Address>,
    other_threshold: u32,
)
    requires
        multisig_approval_init_refusal(l, admin, signers, threshold) is None,
    ensures
        multisig_approval_init_refusal(
            multisig_approval_init_step(l, admin, signers, threshold),
            admin,
            others,
            other_threshold,
        ) == Some(Error::AlreadyInitialized),
{
}

/// Once the admin has locked the approvals of a job, none is given until an
/// override has settled a milestone, which opens them again.
pub proof fn lemma_multisig_lock_stops_approvals(
    l: Ledger,
    admin: Address,
    signer: Address,
    index: u32,
)
    requires
        l.instance.job is Some,
        admin_refusal(l, admin) is None,
    ensures
        ({
            let locked = multisig_lock_step(l, admin);
            &&& multisig_approve_refusal(locked, signer) == Some(Error::EscrowLocked)
            &&& admin_override_refusal(locked, admin, index) is None ==> !raised(
                multisig_admin_override_release_step(locked, admin, index).instance.multisig_locked,
            )
            &&& multisig_admin_override_refund_refusal(locked, admin, index) is None ==> !raised(
                multisig_admin_override_refund_step(locked, admin, index).instance.multisig_locked,
            )
        }),
{
}

/// An approval is recorded, counts once, and bears on no other proposal.
pub proof fn lemma_approvals_count_once(
    l: Ledger,
    signer: Address,
    proposal_id: u32,
    other_id: u32,
)
    requires
        multisig_approve_refusal(l, signer) is None,
    ensures
        ({
            let once = multisig_approve_step(l, signer, proposal_id);
            let twice = multisig_approve_step(once, signer, proposal_id);
            let at = position(l.instance.multisig_signers->0, signer)->0 as u32;
            let before = bitmap_of(l, proposal_id);
            &&& has_approved(bitmap_of(once, proposal_id), at)
            &&& approvals_in(bitmap_of(once, proposal_id)) == approvals_in(before)
                + if has_approved(before, at) {
                0int
            } else {
                1
            }
            &&& other_id != proposal_id ==> bitmap_of(once, other_id) == bitmap_of(l, other_id)
            &&& same_entries(once, twice)
        }),
{
    let at = position(l.instance.multisig_signers->0, signer)->0 as u32;
    let before = bitmap_of(l, proposal_id);
    lemma_approval_is_recorded(before, at, at);
    lemma_approval_is_idempotent(before, at);
    lemma_approvals_count_signers(before, at);
    let once = multisig_approve_step(l, signer, proposal_id);
    let twice = multisig_approve_step(once, signer, proposal_id);
    assert(twice.temporary.multisig_approvals =~= once.temporary.multisig_approvals);
}

} // verus!
