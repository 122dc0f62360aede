//! What the admin and the signers do to the escrow, and what anybody may have
//! computed: for each request when it is granted, what each refusal means, what it asks
//! of the host and what it changes.

use crate::address::{Address, is_zero};
use crate::admin::{
    cancel_admin_transfer_proposal_refusal, cancel_admin_transfer_proposal_step,
    execute_admin_transfer_refusal, execute_admin_transfer_step, propose_admin_transfer_refusal,
    propose_admin_transfer_step, transfer_admin_step, upgrade_step,
};
use crate::allocation::{
    allocation, as_amounts, ints, lemma_allocation_is_fair, lemma_total_is_the_sum,
};
use crate::events::{
    AdminTransferCancelledEvent, AdminTransferExecutedEvent, AdminTransferProposedEvent,
    EmergencyPauseAdminOverrideEvent, EmergencyPausedEvent, EmergencyUnpausedEvent,
    EscrowInterestYieldConsentSetEvent, EscrowPausedEvent, EscrowResumedEvent, Event, EventView,
    MilestoneTimeExtensionEvent, MultiSigApprovedEvent, PaymentStreamingConsentEvent,
    PaymentStreamingEvent, SplitRefundCalculatedEvent, TokenRemovedEvent, TokenWhitelistedEvent,
    TransferAdminEvent, YieldAccruedEvent, YieldRateSetEvent,
};
use crate::guards::admin_refusal;
use crate::interest::{
    admin_accrue_yield_refusal, admin_accrue_yield_step, admin_set_yield_rate_refusal,
    admin_set_yield_rate_step, set_escrow_interest_yield_refusal, set_escrow_interest_yield_step,
    set_interest_yield_consent_refusal, set_interest_yield_consent_step, yield_lock_refusal,
    yield_lock_step,
};
use crate::ledger::{EffectView, Instance, Ledger, Persistent, Temporary};
use crate::multisig::{
    approvals_in, approved_state, multisig_approval_init_refusal, multisig_approval_init_step,
    multisig_approve_refusal, multisig_approve_step, multisig_lock_step,
    multisig_split_refund_refusal, multisig_split_refund_step, multisig_transfer_admin_refusal,
    multisig_transfer_admin_step, position, position_from,
};
use crate::pause::{
    admin_pause_escrow_step, admin_resume_escrow_step, emergency_pause_admin_override_refusal,
    emergency_pause_admin_override_step, emergency_pause_allocation_refusal,
    emergency_pause_allocation_step, emergency_pause_claim_refund_refusal,
    emergency_pause_claim_refund_step, emergency_pause_refusal, emergency_pause_split_refund_step,
    emergency_pause_step, emergency_unpause_refusal, emergency_unpause_step, positive_split_refusal,
};
use crate::platform_fee::{
    lock_platform_fee_allocation_refusal, lock_platform_fee_allocation_step,
    pf_alloc_admin_override_refusal, pf_alloc_admin_override_step,
    set_platform_fee_allocation_refusal, set_platform_fee_allocation_step,
};
use crate::reckoning::{lemma_client_first, lemma_split_is_to_the_nearest};
use crate::relations::{asks, fair_shares, follows, kept, part_to_the_nearest, told, total_of, up};
use crate::splits::client_first;
use crate::streaming::{
    milestone_time_extensions_step, payment_streaming_consent_refusal,
    payment_streaming_consent_step, payment_streaming_milestones_step, streamed, streaming_refusal,
};
use crate::types::{
    Error, EscrowInterestYieldState, MultiSigApprovalState, PendingAdminTransfer,
    PlatformFeeAllocation,
};
use crate::whitelist::{
    add_whitelisted_token_refusal, add_whitelisted_token_step, remove_whitelisted_token_refusal,
    remove_whitelisted_token_step,
};
use vstd::prelude::*;

verus! {

/// `at` is the first place of `who` in `list`.
pub open spec fn first_at(list: Seq<Address>, who: Address, at: u32) -> bool {
    &&& at < list.len()
    &&& list[at as int] == who
    &&& forall|i: int| 0 <= i < at ==> list[i] != who
}

/// The signers that have approved a proposal, one bit each.
pub open spec fn approvals_for(l: Ledger, proposal_id: u32) -> u32 {
    if l.temporary.multisig_approvals.contains_key(proposal_id) {
        l.temporary.multisig_approvals[proposal_id]
    } else {
        0
    }
}

/// A position is the first at which somebody is found.
pub proof fn lemma_first_position(list: Seq<Address>, who: Address, from: nat)
    ensures
        match position_from(list, who, from) {
            Some(at) => {
                &&& from <= at < list.len()
                &&& list[at as int] == who
                &&& forall|i: int| from <= i < at ==> list[i] != who
            },
            None => forall|i: int| from <= i < list.len() ==> list[i] != who,
        },
    decreases list.len() - from,
{
    if from < list.len() && list[from as int] != who {
        lemma_first_position(list, who, from + 1);
    }
}

/// The admin hands the office over at once.
pub proof fn lemma_transfer_admin(
    l: Ledger,
    admin: Address,
    new_admin: Address,
)
    ensures
        ({
            match admin_refusal(l, admin) {
                None => {
                    &&& l.persistent.admin == Some(admin)
                },
                Some(Error::NotInitialized) => l.persistent.admin is None,
                Some(Error::Unauthorized) => {
                    l.persistent.admin is Some && l.persistent.admin != Some(admin)
                },
                _ => false,
            }
        }),
        admin_refusal(l, admin) is None ==> ({
            let next = transfer_admin_step(l, admin, new_admin);
            &&& follows(l, next)
            &&& asks(l, next) == seq![
                EffectView::RequireAuth(admin),
                told(
                    Event::TransferAdmin(
                        TransferAdminEvent {
                            old_admin: admin,
                            new_admin,
                        },
                    ),
                ),
            ]
            &&& next.persistent == (Persistent {
                admin: Some(new_admin),
                ..l.persistent
            })
            &&& next.instance == l.instance
            &&& next.temporary == l.temporary
        }),
        admin_refusal(l, admin) is Some ==> kept(l, transfer_admin_step(l, admin, new_admin)),
{
}

/// The admin replaces the code, and the version goes up by one; it counts from one.
pub proof fn lemma_upgrade(
    l: Ledger,
    admin: Address,
    new_wasm_hash: Seq<u8>,
)
    requires
        l.instance.version != Some(u32::MAX),
    ensures
        ({
            match admin_refusal(l, admin) {
                None => {
                    &&& l.persistent.admin == Some(admin)
                },
                Some(Error::NotInitialized) => l.persistent.admin is None,
                Some(Error::Unauthorized) => {
                    l.persistent.admin is Some && l.persistent.admin != Some(admin)
                },
                _ => false,
            }
        }),
        admin_refusal(l, admin) is None ==> ({
            let next = upgrade_step(l, admin, new_wasm_hash);
            &&& follows(l, next)
            &&& asks(l, next) == seq![
                EffectView::RequireAuth(admin),
                EffectView::UpdateWasm(new_wasm_hash),
            ]
            &&& l.instance.version is None ==> next.instance.version == Some(2u32)
            &&& l.instance.version is Some ==> next.instance.version is Some
                && next.instance.version->0 == l.instance.version->0 + 1
            &&& next.instance == (Instance {
                version: next.instance.version,
                ..l.instance
            })
            &&& next.persistent == l.persistent
            &&& next.temporary == l.temporary
        }),
        admin_refusal(l, admin) is Some ==> kept(l, upgrade_step(l, admin, new_wasm_hash)),
{
}

/// The admin proposes a successor; one proposal at a time.
pub proof fn lemma_propose(
    l: Ledger,
    admin: Address,
    new_admin: Address,
    proposal_id: u32,
)
    ensures
        ({
            match propose_admin_transfer_refusal(l, admin, new_admin) {
                None => {
                    &&& l.persistent.admin == Some(admin)
                    &&& !is_zero(new_admin)
                    &&& l.persistent.pending_admin_transfer is None
                },
                Some(Error::NotInitialized) => l.persistent.admin is None,
                Some(Error::Unauthorized) => {
                    l.persistent.admin is Some && l.persistent.admin != Some(admin)
                },
                Some(Error::InvalidAddress) => is_zero(new_admin),
                Some(Error::AdminTransferPending) => l.persistent.pending_admin_transfer is Some,
                _ => false,
            }
        }),
        propose_admin_transfer_refusal(l, admin, new_admin) is None ==> ({
            let next = propose_admin_transfer_step(l, admin, new_admin, proposal_id);
            &&& follows(l, next)
            &&& asks(l, next) == seq![
                EffectView::RequireAuth(admin),
                told(
                    Event::AdminTransferProposed(
                        AdminTransferProposedEvent {
                            admin,
                            new_admin,
                            proposal_id,
                        },
                    ),
                ),
            ]
            &&& next.persistent == (Persistent {
                pending_admin_transfer: Some(PendingAdminTransfer { new_admin, proposal_id }),
                ..l.persistent
            })
            &&& next.instance == l.instance
            &&& next.temporary == l.temporary
        }),
        propose_admin_transfer_refusal(l, admin, new_admin) is Some ==> kept(
            l,
            propose_admin_transfer_step(l, admin, new_admin, proposal_id),
        ),
{
}

/// Once enough signers have approved it, anybody puts a proposal into effect: who was
/// proposed is the admin, and the proposal is gone.
pub proof fn lemma_execute(
    l: Ledger,
)
    ensures
        ({
            let pending = l.persistent.pending_admin_transfer->0;
            let approvals = approvals_in(approvals_for(l, pending.proposal_id));
            match execute_admin_transfer_refusal(l) {
                None => {
                    &&& l.persistent.pending_admin_transfer is Some
                    &&& l.persistent.admin is Some
                    &&& l.instance.multisig_threshold is Some
                    &&& approvals >= l.instance.multisig_threshold->0
                },
                Some(Error::NoPendingAdminTransfer) => l.persistent.pending_admin_transfer is None,
                Some(Error::NotInitialized) => {
                    ||| l.instance.multisig_threshold is None
                    ||| l.persistent.admin is None
                },
                Some(Error::MultiSigThresholdNotMet) => {
                    approvals < l.instance.multisig_threshold->0
                },
                _ => false,
            }
        }),
        execute_admin_transfer_refusal(l) is None ==> ({
            let pending = l.persistent.pending_admin_transfer->0;
            let approvals = approvals_in(approvals_for(l, pending.proposal_id));
            let next = execute_admin_transfer_step(l);
            &&& follows(l, next)
            &&& asks(l, next) == seq![
                told(
                    Event::AdminTransferExecuted(
                        AdminTransferExecutedEvent {
                            old_admin: l.persistent.admin->0,
                            new_admin: pending.new_admin,
                            proposal_id: pending.proposal_id,
                        },
                    ),
                ),
            ]
            &&& next.persistent == (Persistent {
                admin: Some(pending.new_admin),
                pending_admin_transfer: None,
                ..l.persistent
            })
            &&& next.instance == l.instance
            &&& next.temporary == l.temporary
        }),
        execute_admin_transfer_refusal(l) is Some ==> kept(l, execute_admin_transfer_step(l)),
{
}

/// The admin withdraws a proposal.
pub proof fn lemma_withdraw(
    l: Ledger,
    admin: Address,
)
    ensures
        ({
            match cancel_admin_transfer_proposal_refusal(l, admin) {
                None => {
                    &&& l.persistent.admin == Some(admin)
                    &&& l.persistent.pending_admin_transfer is Some
                },
                Some(Error::NotInitialized) => l.persistent.admin is None,
                Some(Error::Unauthorized) => {
                    l.persistent.admin is Some && l.persistent.admin != Some(admin)
                },
                Some(Error::NoPendingAdminTransfer) => l.persistent.pending_admin_transfer is None,
                _ => false,
            }
        }),
        cancel_admin_transfer_proposal_refusal(l, admin) is None ==> ({
            let next = cancel_admin_transfer_proposal_step(l, admin);
            &&& follows(l, next)
            &&& asks(l, next) == seq![
                EffectView::RequireAuth(admin),
                told(
                    Event::AdminTransferCancelled(
                        AdminTransferCancelledEvent {
                            admin,
                            proposal_id: l.persistent.pending_admin_transfer->0.proposal_id,
                        },
                    ),
                ),
            ]
            &&& next.persistent == (Persistent {
                pending_admin_transfer: None,
                ..l.persistent
            })
            &&& next.instance == l.instance
            &&& next.temporary == l.temporary
        }),
        cancel_admin_transfer_proposal_refusal(l, admin) is Some ==> kept(
            l,
            cancel_admin_transfer_proposal_step(l, admin),
        ),
{
}

/// The admin freezes an escrow that is not frozen.
pub proof fn lemma_freeze(
    l: Ledger,
    admin: Address,
)
    ensures
        ({
            match emergency_pause_refusal(l, admin) {
                None => {
                    &&& l.persistent.admin == Some(admin)
                    &&& !up(l.instance.emergency_pause_lock)
                    &&& !up(l.instance.emergency_paused)
                },
                Some(Error::NotInitialized) => l.persistent.admin is None,
                Some(Error::Unauthorized) => {
                    l.persistent.admin is Some && l.persistent.admin != Some(admin)
                },
                Some(Error::EmergencyPauseInProgress) => up(l.instance.emergency_pause_lock),
                Some(Error::AlreadyPaused) => up(l.instance.emergency_paused),
                _ => false,
            }
        }),
        emergency_pause_refusal(l, admin) is None ==> ({
            let next = emergency_pause_step(l, admin);
            &&& follows(l, next)
            &&& asks(l, next) == seq![
                EffectView::RequireAuth(admin),
                told(
                    Event::EmergencyPaused(
                        EmergencyPausedEvent {
                            admin,
                            contract_id: l.contract,
                        },
                    ),
                ),
            ]
            &&& next.instance == (Instance {
                emergency_paused: Some(true),
                emergency_pause_lock: Some(false),
                ..l.instance
            })
            &&& next.persistent == l.persistent
            &&& next.temporary == l.temporary
        }),
        emergency_pause_refusal(l, admin) is Some ==> kept(l, emergency_pause_step(l, admin)),
{
}

/// The admin thaws an escrow that is frozen.
pub proof fn lemma_thaw(
    l: Ledger,
    admin: Address,
)
    ensures
        ({
            match emergency_unpause_refusal(l, admin) {
                None => {
                    &&& l.persistent.admin == Some(admin)
                    &&& !up(l.instance.emergency_pause_lock)
                    &&& up(l.instance.emergency_paused)
                },
                Some(Error::NotInitialized) => l.persistent.admin is None,
                Some(Error::Unauthorized) => {
                    l.persistent.admin is Some && l.persistent.admin != Some(admin)
                },
                Some(Error::EmergencyPauseInProgress) => up(l.instance.emergency_pause_lock),
                Some(Error::NotPaused) => !up(l.instance.emergency_paused),
                _ => false,
            }
        }),
        emergency_unpause_refusal(l, admin) is None ==> ({
            let next = emergency_unpause_step(l, admin);
            &&& follows(l, next)
            &&& asks(l, next) == seq![
                EffectView::RequireAuth(admin),
                told(
                    Event::EmergencyUnpaused(
                        EmergencyUnpausedEvent {
                            admin,
                            contract_id: l.contract,
                        },
                    ),
                ),
            ]
            &&& next.instance == (Instance {
                emergency_paused: Some(false),
                emergency_pause_lock: Some(false),
                ..l.instance
            })
            &&& next.persistent == l.persistent
            &&& next.temporary == l.temporary
        }),
        emergency_unpause_refusal(l, admin) is Some ==> kept(l, emergency_unpause_step(l, admin)),
{
}

/// The admin freezes or thaws an escrow that is not so already.
pub proof fn lemma_freeze_override(
    l: Ledger,
    admin: Address,
    paused: bool,
)
    ensures
        ({
            match emergency_pause_admin_override_refusal(l, admin, paused) {
                None => {
                    &&& l.persistent.admin == Some(admin)
                    &&& !up(l.instance.emergency_pause_lock)
                    &&& up(l.instance.emergency_paused) != paused
                },
                Some(Error::NotInitialized) => l.persistent.admin is None,
                Some(Error::Unauthorized) => {
                    l.persistent.admin is Some && l.persistent.admin != Some(admin)
                },
                Some(Error::EmergencyPauseInProgress) => up(l.instance.emergency_pause_lock),
                Some(Error::InvalidStatus) => up(l.instance.emergency_paused) == paused,
                _ => false,
            }
        }),
        emergency_pause_admin_override_refusal(l, admin, paused) is None ==> ({
            let next = emergency_pause_admin_override_step(l, admin, paused);
            &&& follows(l, next)
            &&& asks(l, next) == seq![
                EffectView::RequireAuth(admin),
                told(
                    Event::EmergencyPauseAdminOverride(
                        EmergencyPauseAdminOverrideEvent {
                            admin,
                            contract_id: l.contract,
                            paused,
                        },
                    ),
                ),
            ]
            &&& next.instance == (Instance {
                emergency_paused: Some(paused),
                emergency_pause_lock: Some(false),
                ..l.instance
            })
            &&& next.persistent == l.persistent
            &&& next.temporary == l.temporary
        }),
        emergency_pause_admin_override_refusal(l, admin, paused) is Some ==> kept(
            l,
            emergency_pause_admin_override_step(l, admin, paused),
        ),
{
}

/// The admin pauses the everyday requests; that is told where they were not paused.
pub proof fn lemma_pause(
    l: Ledger,
    admin: Address,
)
    ensures
        ({
            match admin_refusal(l, admin) {
                None => {
                    &&& l.persistent.admin == Some(admin)
                },
                Some(Error::NotInitialized) => l.persistent.admin is None,
                Some(Error::Unauthorized) => {
                    l.persistent.admin is Some && l.persistent.admin != Some(admin)
                },
                _ => false,
            }
        }),
        admin_refusal(l, admin) is None ==> ({
            let next = admin_pause_escrow_step(l, admin);
            &&& follows(l, next)
            &&& asks(l, next) == seq![EffectView::RequireAuth(admin)] + if !up(l.instance.paused) {
                seq![
                    told(
                    Event::EscrowPaused(
                        EscrowPausedEvent {
                            admin,
                            contract_id: l.contract,
                        },
                    ),
                ),
                ]
            } else {
                seq![]
            }
            &&& next.instance == (Instance {
                paused: Some(true),
                emergency_pause_lock: Some(false),
                ..l.instance
            })
            &&& next.persistent == l.persistent
            &&& next.temporary == l.temporary
        }),
        admin_refusal(l, admin) is Some ==> kept(l, admin_pause_escrow_step(l, admin)),
{
}

/// The admin resumes the everyday requests; that is told where they were paused.
pub proof fn lemma_resume(
    l: Ledger,
    admin: Address,
)
    ensures
        ({
            match admin_refusal(l, admin) {
                None => {
                    &&& l.persistent.admin == Some(admin)
                },
                Some(Error::NotInitialized) => l.persistent.admin is None,
                Some(Error::Unauthorized) => {
                    l.persistent.admin is Some && l.persistent.admin != Some(admin)
                },
                _ => false,
            }
        }),
        admin_refusal(l, admin) is None ==> ({
            let next = admin_resume_escrow_step(l, admin);
            &&& follows(l, next)
            &&& asks(l, next) == seq![EffectView::RequireAuth(admin)] + if up(l.instance.paused) {
                seq![
                    told(
                    Event::EscrowResumed(
                        EscrowResumedEvent {
                            admin,
                            contract_id: l.contract,
                        },
                    ),
                ),
                ]
            } else {
                seq![]
            }
            &&& next.instance == (Instance {
                paused: Some(false),
                emergency_pause_lock: Some(false),
                ..l.instance
            })
            &&& next.persistent == l.persistent
            &&& next.temporary == l.temporary
        }),
        admin_refusal(l, admin) is Some ==> kept(l, admin_resume_escrow_step(l, admin)),
{
}

/// Anybody has a division computed: the client's part to the nearest unit, the
/// freelancer's the rest; nothing is paid.
pub proof fn lemma_split_of_a_frozen_escrow(
    l: Ledger,
    total_amount: i128,
    client_refund_bps: u32,
    freelancer_payout_bps: u32,
)
    ensures
        ({
            let parts = client_first(
                total_amount as int,
                client_refund_bps,
                freelancer_payout_bps,
            );
            match positive_split_refusal(
                total_amount,
                client_refund_bps,
                freelancer_payout_bps,
            ) {
                None => {
                    &&& total_amount > 0
                    &&& client_refund_bps + freelancer_payout_bps == 10_000
                    &&& total_amount * client_refund_bps + 5_000 <= i128::MAX
                },
                Some(Error::InvalidAmount) => {
                    ||| total_amount <= 0
                    ||| total_amount * client_refund_bps + 5_000 > i128::MAX
                },
                Some(Error::InvalidRatio) => client_refund_bps + freelancer_payout_bps != 10_000,
                _ => false,
            }
        }),
        positive_split_refusal(
            total_amount,
            client_refund_bps,
            freelancer_payout_bps,
        ) is None ==> ({
            let parts = client_first(
                total_amount as int,
                client_refund_bps,
                freelancer_payout_bps,
            );
            let next = emergency_pause_split_refund_step(
                l,
                total_amount,
                client_refund_bps,
                freelancer_payout_bps,
            );
            &&& follows(l, next)
            &&& part_to_the_nearest(
                parts.client_refund as int,
                total_amount as int,
                client_refund_bps as int,
                10_000,
            )
            &&& parts.client_refund + parts.freelancer_payout == total_amount
            &&& parts.client_refund_bps == client_refund_bps
            &&& parts.freelancer_payout_bps == freelancer_payout_bps
            &&& asks(l, next) == seq![
                told(
                    Event::EmergencyPauseSplitRefund(
                        SplitRefundCalculatedEvent {
                            client_refund: parts.client_refund,
                            freelancer_payout: parts.freelancer_payout,
                            client_refund_bps,
                            freelancer_payout_bps,
                        },
                    ),
                ),
            ]
            &&& next.instance == l.instance
            &&& next.persistent == l.persistent
            &&& next.temporary == l.temporary
        }),
        positive_split_refusal(
            total_amount,
            client_refund_bps,
            freelancer_payout_bps,
        ) is Some ==> kept(
            l,
            emergency_pause_split_refund_step(
                l,
                total_amount,
                client_refund_bps,
                freelancer_payout_bps,
            ),
        ),
{
    if positive_split_refusal(
        total_amount,
        client_refund_bps,
        freelancer_payout_bps,
    ) is None {
        lemma_client_first(total_amount as int, client_refund_bps, freelancer_payout_bps);
    }
}

/// While the escrow is frozen the admin has a division computed; nothing is paid.
pub proof fn lemma_refund_of_a_frozen_escrow(
    l: Ledger,
    admin: Address,
    total_amount: i128,
    client_refund_bps: u32,
    freelancer_payout_bps: u32,
)
    ensures
        ({
            let parts = client_first(
                total_amount as int,
                client_refund_bps,
                freelancer_payout_bps,
            );
            match emergency_pause_claim_refund_refusal(
                l,
                admin,
                total_amount,
                client_refund_bps,
                freelancer_payout_bps,
            ) {
                None => {
                    &&& l.persistent.admin == Some(admin)
                    &&& !up(l.instance.emergency_pause_lock)
                    &&& up(l.instance.emergency_paused)
                    &&& total_amount > 0
                    &&& client_refund_bps + freelancer_payout_bps == 10_000
                    &&& total_amount * client_refund_bps + 5_000 <= i128::MAX
                },
                Some(Error::NotInitialized) => l.persistent.admin is None,
                Some(Error::Unauthorized) => {
                    l.persistent.admin is Some && l.persistent.admin != Some(admin)
                },
                Some(Error::EmergencyPauseInProgress) => up(l.instance.emergency_pause_lock),
                Some(Error::NotPaused) => !up(l.instance.emergency_paused),
                Some(Error::InvalidAmount) => {
                    ||| total_amount <= 0
                    ||| total_amount * client_refund_bps + 5_000 > i128::MAX
                },
                Some(Error::InvalidRatio) => client_refund_bps + freelancer_payout_bps != 10_000,
                _ => false,
            }
        }),
        emergency_pause_claim_refund_refusal(
            l,
            admin,
            total_amount,
            client_refund_bps,
            freelancer_payout_bps,
        ) is None ==> ({
            let parts = client_first(
                total_amount as int,
                client_refund_bps,
                freelancer_payout_bps,
            );
            let next = emergency_pause_claim_refund_step(
                l,
                admin,
                total_amount,
                client_refund_bps,
                freelancer_payout_bps,
            );
            &&& follows(l, next)
            &&& part_to_the_nearest(
                parts.client_refund as int,
                total_amount as int,
                client_refund_bps as int,
                10_000,
            )
            &&& parts.client_refund + parts.freelancer_payout == total_amount
            &&& parts.client_refund_bps == client_refund_bps
            &&& parts.freelancer_payout_bps == freelancer_payout_bps
            &&& asks(l, next) == seq![
                EffectView::RequireAuth(admin),
                told(
                    Event::EmergencyPauseSplitRefund(
                        SplitRefundCalculatedEvent {
                            client_refund: parts.client_refund,
                            freelancer_payout: parts.freelancer_payout,
                            client_refund_bps,
                            freelancer_payout_bps,
                        },
                    ),
                ),
            ]
            &&& next.instance == l.instance
            &&& next.persistent == l.persistent
            &&& next.temporary == l.temporary
        }),
        emergency_pause_claim_refund_refusal(
            l,
            admin,
            total_amount,
            client_refund_bps,
            freelancer_payout_bps,
        ) is Some ==> kept(
            l,
            emergency_pause_claim_refund_step(
                l,
                admin,
                total_amount,
                client_refund_bps,
                freelancer_payout_bps,
            ),
        ),
{
    if emergency_pause_claim_refund_refusal(
        l,
        admin,
        total_amount,
        client_refund_bps,
        freelancer_payout_bps,
    ) is None {
        lemma_client_first(total_amount as int, client_refund_bps, freelancer_payout_bps);
    }
}

/// While the approvals are locked the admin has a division computed; nothing is paid.
pub proof fn lemma_split_of_a_locked_escrow(
    l: Ledger,
    admin: Address,
    total_amount: i128,
    client_refund_bps: u32,
    freelancer_payout_bps: u32,
)
    ensures
        ({
            let parts = client_first(
                total_amount as int,
                client_refund_bps,
                freelancer_payout_bps,
            );
            match multisig_split_refund_refusal(
                l,
                admin,
                total_amount,
                client_refund_bps,
                freelancer_payout_bps,
            ) {
                None => {
                    &&& l.persistent.admin == Some(admin)
                    &&& up(l.instance.multisig_locked)
                    &&& total_amount > 0
                    &&& client_refund_bps + freelancer_payout_bps == 10_000
                    &&& total_amount * client_refund_bps + 5_000 <= i128::MAX
                },
                Some(Error::NotInitialized) => l.persistent.admin is None,
                Some(Error::Unauthorized) => {
                    l.persistent.admin is Some && l.persistent.admin != Some(admin)
                },
                Some(Error::InvalidStatus) => !up(l.instance.multisig_locked),
                Some(Error::InvalidAmount) => {
                    ||| total_amount <= 0
                    ||| total_amount * client_refund_bps + 5_000 > i128::MAX
                },
                Some(Error::InvalidRatio) => client_refund_bps + freelancer_payout_bps != 10_000,
                _ => false,
            }
        }),
        multisig_split_refund_refusal(
            l,
            admin,
            total_amount,
            client_refund_bps,
            freelancer_payout_bps,
        ) is None ==> ({
            let parts = client_first(
                total_amount as int,
                client_refund_bps,
                freelancer_payout_bps,
            );
            let next = multisig_split_refund_step(
                l,
                admin,
                total_amount,
                client_refund_bps,
                freelancer_payout_bps,
            );
            &&& follows(l, next)
            &&& part_to_the_nearest(
                parts.client_refund as int,
                total_amount as int,
                client_refund_bps as int,
                10_000,
            )
            &&& parts.client_refund + parts.freelancer_payout == total_amount
            &&& parts.client_refund_bps == client_refund_bps
            &&& parts.freelancer_payout_bps == freelancer_payout_bps
            &&& asks(l, next) == seq![
                EffectView::RequireAuth(admin),
                told(
                    Event::MultisigSplitRefund(
                        SplitRefundCalculatedEvent {
                            client_refund: parts.client_refund,
                            freelancer_payout: parts.freelancer_payout,
                            client_refund_bps,
                            freelancer_payout_bps,
                        },
                    ),
                ),
            ]
            &&& next.instance == l.instance
            &&& next.persistent == l.persistent
            &&& next.temporary == l.temporary
        }),
        multisig_split_refund_refusal(
            l,
            admin,
            total_amount,
            client_refund_bps,
            freelancer_payout_bps,
        ) is Some ==> kept(
            l,
            multisig_split_refund_step(
                l,
                admin,
                total_amount,
                client_refund_bps,
                freelancer_payout_bps,
            ),
        ),
{
    if multisig_split_refund_refusal(
        l,
        admin,
        total_amount,
        client_refund_bps,
        freelancer_payout_bps,
    ) is None {
        lemma_client_first(total_amount as int, client_refund_bps, freelancer_payout_bps);
    }
}

/// Anybody has an amount divided fairly among at most 255 weighted parties; nothing is
/// paid.
pub proof fn lemma_allocation_of_a_frozen_escrow(
    l: Ledger,
    total_amount: i128,
    weights: Seq<i128>,
)
    ensures
        ({
            let whole = total_of(weights);
            let shares = as_amounts(allocation(total_amount as int, ints(weights)));
            match emergency_pause_allocation_refusal(total_amount, weights) {
                None => {
                    &&& total_amount > 0
                    &&& 0 < weights.len() <= 255
                    &&& forall|i: int| 0 <= i < weights.len() ==> (#[trigger] weights[i]) >= 0
                    &&& 0 < whole <= i128::MAX
                    &&& forall|i: int|
                        0 <= i < weights.len() ==> total_amount * (#[trigger] weights[i])
                            <= i128::MAX
                },
                Some(Error::InvalidAllocationWeights) => {
                    ||| weights.len() == 0
                    ||| weights.len() > 255
                    ||| exists|i: int| 0 <= i < weights.len() && (#[trigger] weights[i]) < 0
                    ||| whole <= 0
                },
                Some(Error::InvalidAmount) => {
                    ||| total_amount <= 0
                    ||| whole > i128::MAX
                    ||| exists|i: int|
                    0 <= i < weights.len() && total_amount * (#[trigger] weights[i]) > i128::MAX
                },
                _ => false,
            }
        }),
        emergency_pause_allocation_refusal(total_amount, weights) is None ==> ({
            let whole = total_of(weights);
            let shares = as_amounts(allocation(total_amount as int, ints(weights)));
            let next = emergency_pause_allocation_step(l, total_amount, weights);
            &&& follows(l, next)
            &&& fair_shares(shares, total_amount as int, weights)
            &&& asks(l, next) == seq![
                EffectView::Publish(
                    EventView::EmergencyPauseAllocation {
                        total_amount,
                        num_parties: weights.len() as u32,
                        allocations: shares,
                    },
                ),
            ]
            &&& next.instance == l.instance
            &&& next.persistent == l.persistent
            &&& next.temporary == l.temporary
        }),
        emergency_pause_allocation_refusal(total_amount, weights) is Some ==> kept(
            l,
            emergency_pause_allocation_step(l, total_amount, weights),
        ),
{
    lemma_total_is_the_sum(weights);
    let w = ints(weights);
    assert(forall|i: int| 0 <= i < weights.len() ==> (#[trigger] weights[i]) == w[i]);
    assert(forall|i: int| 0 <= i < w.len() ==> (#[trigger] w[i]) == weights[i]);
    if emergency_pause_allocation_refusal(total_amount, weights) is None {
        lemma_allocation_is_fair(total_amount, weights);
    }
}

/// The admin has an amount divided fairly among at most 255 weighted parties; nothing is
/// paid.
pub proof fn lemma_allocation_among_signers(
    l: Ledger,
    admin: Address,
    total_amount: i128,
    weights: Seq<i128>,
)
    ensures
        ({
            let whole = total_of(weights);
            let shares = as_amounts(allocation(total_amount as int, ints(weights)));
            match multisig_transfer_admin_refusal(l, admin, total_amount, weights) {
                None => {
                    &&& l.persistent.admin == Some(admin)
                    &&& total_amount > 0
                    &&& 0 < weights.len() <= 255
                    &&& forall|i: int| 0 <= i < weights.len() ==> (#[trigger] weights[i]) >= 0
                    &&& 0 < whole <= i128::MAX
                    &&& forall|i: int|
                        0 <= i < weights.len() ==> total_amount * (#[trigger] weights[i])
                            <= i128::MAX
                },
                Some(Error::NotInitialized) => l.persistent.admin is None,
                Some(Error::Unauthorized) => {
                    l.persistent.admin is Some && l.persistent.admin != Some(admin)
                },
                Some(Error::InvalidRatio) => {
                    ||| weights.len() == 0
                    ||| whole > i128::MAX
                    ||| exists|i: int| 0 <= i < weights.len() && (#[trigger] weights[i]) < 0
                    ||| whole <= 0
                },
                Some(Error::InvalidAmount) => {
                    ||| total_amount <= 0
                    ||| weights.len() > 255
                    ||| exists|i: int|
                    0 <= i < weights.len() && total_amount * (#[trigger] weights[i]) > i128::MAX
                },
                _ => false,
            }
        }),
        multisig_transfer_admin_refusal(l, admin, total_amount, weights) is None ==> ({
            let whole = total_of(weights);
            let shares = as_amounts(allocation(total_amount as int, ints(weights)));
            let next = multisig_transfer_admin_step(l, admin, total_amount, weights);
            &&& follows(l, next)
            &&& fair_shares(shares, total_amount as int, weights)
            &&& asks(l, next) == seq![
                EffectView::RequireAuth(admin),
                EffectView::Publish(
                    EventView::MultiSigTransferAdmin {
                        total_amount,
                        num_parties: weights.len() as u32,
                        allocations: shares,
                    },
                ),
            ]
            &&& next.instance == l.instance
            &&& next.persistent == l.persistent
            &&& next.temporary == l.temporary
        }),
        multisig_transfer_admin_refusal(l, admin, total_amount, weights) is Some ==> kept(
            l,
            multisig_transfer_admin_step(l, admin, total_amount, weights),
        ),
{
    lemma_total_is_the_sum(weights);
    let w = ints(weights);
    assert(forall|i: int| 0 <= i < weights.len() ==> (#[trigger] weights[i]) == w[i]);
    assert(forall|i: int| 0 <= i < w.len() ==> (#[trigger] w[i]) == weights[i]);
    if multisig_transfer_admin_refusal(l, admin, total_amount, weights) is None {
        lemma_allocation_is_fair(total_amount, weights);
    }
}

/// The admin sets the shares of a fee that is not locked; together they are everything.
pub proof fn lemma_set_fee(
    l: Ledger,
    admin: Address,
    client_bps: u32,
    freelancer_bps: u32,
    treasury_bps: u32,
)
    ensures
        ({
            match set_platform_fee_allocation_refusal(
                l,
                admin,
                client_bps,
                freelancer_bps,
                treasury_bps,
            ) {
                None => {
                    &&& l.persistent.admin == Some(admin)
                    &&& !up(l.instance.platform_fee_lock)
                    &&& !up(l.instance.emergency_pause_lock)
                    &&& l.instance.platform_fee is Some
                    &&& client_bps + freelancer_bps + treasury_bps == 10_000
                    &&& !l.instance.platform_fee->0.locked
                },
                Some(Error::NotInitialized) => {
                    ||| l.persistent.admin is None
                    ||| l.instance.platform_fee is None
                },
                Some(Error::Unauthorized) => {
                    l.persistent.admin is Some && l.persistent.admin != Some(admin)
                },
                Some(Error::PlatformFeeAllocationInProgress) => up(l.instance.platform_fee_lock),
                Some(Error::EmergencyPauseInProgress) => up(l.instance.emergency_pause_lock),
                Some(Error::InvalidRatio) => client_bps + freelancer_bps + treasury_bps != 10_000,
                Some(Error::InvalidStatus) => l.instance.platform_fee->0.locked,
                _ => false,
            }
        }),
        set_platform_fee_allocation_refusal(
            l,
            admin,
            client_bps,
            freelancer_bps,
            treasury_bps,
        ) is None ==> ({
            let next = set_platform_fee_allocation_step(
                l,
                admin,
                client_bps,
                freelancer_bps,
                treasury_bps,
            );
            &&& follows(l, next)
            &&& asks(l, next) == seq![
                EffectView::RequireAuth(admin),
            ]
            &&& next.instance == (Instance {
                platform_fee: Some(
                    PlatformFeeAllocation {
                        client_bps,
                        freelancer_bps,
                        treasury_bps,
                        locked: false,
                    },
                ),
                platform_fee_lock: Some(false),
                ..l.instance
            })
            &&& next.persistent == l.persistent
            &&& next.temporary == l.temporary
        }),
        set_platform_fee_allocation_refusal(
            l,
            admin,
            client_bps,
            freelancer_bps,
            treasury_bps,
        ) is Some ==> kept(
            l,
            set_platform_fee_allocation_step(
                l,
                admin,
                client_bps,
                freelancer_bps,
                treasury_bps,
            ),
        ),
{
}

/// The admin locks the shares of the fee as they are.
pub proof fn lemma_lock_fee(
    l: Ledger,
    admin: Address,
)
    ensures
        ({
            let fee = l.instance.platform_fee->0;
            match lock_platform_fee_allocation_refusal(l, admin) {
                None => {
                    &&& l.persistent.admin == Some(admin)
                    &&& !up(l.instance.platform_fee_lock)
                    &&& !up(l.instance.emergency_pause_lock)
                    &&& l.instance.platform_fee is Some
                },
                Some(Error::NotInitialized) => {
                    ||| l.persistent.admin is None
                    ||| l.instance.platform_fee is None
                },
                Some(Error::Unauthorized) => {
                    l.persistent.admin is Some && l.persistent.admin != Some(admin)
                },
                Some(Error::PlatformFeeAllocationInProgress) => up(l.instance.platform_fee_lock),
                Some(Error::EmergencyPauseInProgress) => up(l.instance.emergency_pause_lock),
                _ => false,
            }
        }),
        lock_platform_fee_allocation_refusal(l, admin) is None ==> ({
            let fee = l.instance.platform_fee->0;
            let next = lock_platform_fee_allocation_step(l, admin);
            &&& follows(l, next)
            &&& asks(l, next) == seq![
                EffectView::RequireAuth(admin),
            ]
            &&& next.instance.platform_fee == Some(
                PlatformFeeAllocation {
                    client_bps: fee.client_bps,
                    freelancer_bps: fee.freelancer_bps,
                    treasury_bps: fee.treasury_bps,
                    locked: true,
                },
            )
            &&& next.instance == (Instance {
                platform_fee: next.instance.platform_fee,
                platform_fee_lock: Some(false),
                ..l.instance
            })
            &&& next.persistent == l.persistent
            &&& next.temporary == l.temporary
        }),
        lock_platform_fee_allocation_refusal(l, admin) is Some ==> kept(
            l,
            lock_platform_fee_allocation_step(l, admin),
        ),
{
}

/// The admin replaces the shares of a locked fee and unlocks it.
pub proof fn lemma_fee_override(
    l: Ledger,
    admin: Address,
    client_bps: u32,
    freelancer_bps: u32,
    treasury_bps: u32,
)
    ensures
        ({
            match pf_alloc_admin_override_refusal(
                l,
                admin,
                client_bps,
                freelancer_bps,
                treasury_bps,
            ) {
                None => {
                    &&& l.persistent.admin == Some(admin)
                    &&& !up(l.instance.platform_fee_lock)
                    &&& !up(l.instance.emergency_pause_lock)
                    &&& l.instance.platform_fee is Some
                    &&& client_bps + freelancer_bps + treasury_bps == 10_000
                    &&& l.instance.platform_fee->0.locked
                },
                Some(Error::NotInitialized) => {
                    ||| l.persistent.admin is None
                    ||| l.instance.platform_fee is None
                },
                Some(Error::Unauthorized) => {
                    l.persistent.admin is Some && l.persistent.admin != Some(admin)
                },
                Some(Error::PlatformFeeAllocationInProgress) => up(l.instance.platform_fee_lock),
                Some(Error::EmergencyPauseInProgress) => up(l.instance.emergency_pause_lock),
                Some(Error::InvalidRatio) => client_bps + freelancer_bps + treasury_bps != 10_000,
                Some(Error::InvalidStatus) => !l.instance.platform_fee->0.locked,
                _ => false,
            }
        }),
        pf_alloc_admin_override_refusal(
            l,
            admin,
            client_bps,
            freelancer_bps,
            treasury_bps,
        ) is None ==> ({
            let next = pf_alloc_admin_override_step(
                l,
                admin,
                client_bps,
                freelancer_bps,
                treasury_bps,
            );
            &&& follows(l, next)
            &&& asks(l, next) == seq![
                EffectView::RequireAuth(admin),
            ]
            &&& next.instance == (Instance {
                platform_fee: Some(
                    PlatformFeeAllocation {
                        client_bps,
                        freelancer_bps,
                        treasury_bps,
                        locked: false,
                    },
                ),
                platform_fee_lock: Some(false),
                ..l.instance
            })
            &&& next.persistent == l.persistent
            &&& next.temporary == l.temporary
        }),
        pf_alloc_admin_override_refusal(
            l,
            admin,
            client_bps,
            freelancer_bps,
            treasury_bps,
        ) is Some ==> kept(
            l,
            pf_alloc_admin_override_step(
                l,
                admin,
                client_bps,
                freelancer_bps,
                treasury_bps,
            ),
        ),
{
}

/// The admin sets the shares of the yield unless they are locked; together they are
/// everything.
pub proof fn lemma_share_yield(
    l: Ledger,
    admin: Address,
    client_share_bps: u32,
    freelancer_share_bps: u32,
)
    ensures
        ({
            match set_escrow_interest_yield_refusal(
                l,
                admin,
                client_share_bps,
                freelancer_share_bps,
            ) {
                None => {
                    &&& l.persistent.admin == Some(admin)
                    &&& client_share_bps + freelancer_share_bps == 10_000
                    &&& !(l.instance.interest_yield is Some && l.instance.interest_yield->0.locked)
                },
                Some(Error::NotInitialized) => l.persistent.admin is None,
                Some(Error::Unauthorized) => {
                    l.persistent.admin is Some && l.persistent.admin != Some(admin)
                },
                Some(Error::InvalidRatio) => client_share_bps + freelancer_share_bps != 10_000,
                Some(Error::EscrowLocked) => {
                    l.instance.interest_yield is Some && l.instance.interest_yield->0.locked
                },
                _ => false,
            }
        }),
        set_escrow_interest_yield_refusal(
            l,
            admin,
            client_share_bps,
            freelancer_share_bps,
        ) is None ==> ({
            let next = set_escrow_interest_yield_step(
                l,
                admin,
                client_share_bps,
                freelancer_share_bps,
            );
            &&& follows(l, next)
            &&& asks(l, next) == seq![
                EffectView::RequireAuth(admin),
            ]
            &&& next.instance == (Instance {
                interest_yield: Some(
                    EscrowInterestYieldState {
                        client_share_bps,
                        freelancer_share_bps,
                        locked: false,
                    },
                ),
                ..l.instance
            })
            &&& next.persistent == l.persistent
            &&& next.temporary == l.temporary
        }),
        set_escrow_interest_yield_refusal(
            l,
            admin,
            client_share_bps,
            freelancer_share_bps,
        ) is Some ==> kept(
            l,
            set_escrow_interest_yield_step(
                l,
                admin,
                client_share_bps,
                freelancer_share_bps,
            ),
        ),
{
}

/// The admin sets the shares of the yield with the consent of both parties.
pub proof fn lemma_share_yield_by_consent(
    l: Ledger,
    admin: Address,
    client_share_bps: u32,
    freelancer_share_bps: u32,
)
    ensures
        ({
            let job = l.instance.job->0;
            match set_interest_yield_consent_refusal(
                l,
                admin,
                client_share_bps,
                freelancer_share_bps,
            ) {
                None => {
                    &&& l.persistent.admin == Some(admin)
                    &&& l.instance.job is Some
                    &&& client_share_bps + freelancer_share_bps == 10_000
                    &&& !(l.instance.interest_yield is Some && l.instance.interest_yield->0.locked)
                },
                Some(Error::NotInitialized) => l.persistent.admin is None || l.instance.job is None,
                Some(Error::Unauthorized) => {
                    l.persistent.admin is Some && l.persistent.admin != Some(admin)
                },
                Some(Error::InvalidRatio) => client_share_bps + freelancer_share_bps != 10_000,
                Some(Error::EscrowLocked) => {
                    l.instance.interest_yield is Some && l.instance.interest_yield->0.locked
                },
                _ => false,
            }
        }),
        set_interest_yield_consent_refusal(
            l,
            admin,
            client_share_bps,
            freelancer_share_bps,
        ) is None ==> ({
            let job = l.instance.job->0;
            let next = set_interest_yield_consent_step(
                l,
                admin,
                client_share_bps,
                freelancer_share_bps,
            );
            &&& follows(l, next)
            &&& asks(l, next) == seq![
                EffectView::RequireAuth(admin),
                EffectView::RequireAuth(job.client),
                EffectView::RequireAuth(job.freelancer),
                told(
                    Event::EscrowInterestYieldConsentSet(
                        EscrowInterestYieldConsentSetEvent {
                            admin,
                            client: job.client,
                            freelancer: job.freelancer,
                            client_share_bps,
                            freelancer_share_bps,
                        },
                    ),
                ),
            ]
            &&& next.instance == (Instance {
                interest_yield: Some(
                    EscrowInterestYieldState {
                        client_share_bps,
                        freelancer_share_bps,
                        locked: false,
                    },
                ),
                ..l.instance
            })
            &&& next.persistent == l.persistent
            &&& next.temporary == l.temporary
        }),
        set_interest_yield_consent_refusal(
            l,
            admin,
            client_share_bps,
            freelancer_share_bps,
        ) is Some ==> kept(
            l,
            set_interest_yield_consent_step(
                l,
                admin,
                client_share_bps,
                freelancer_share_bps,
            ),
        ),
{
}

/// The admin locks or unlocks the shares of the yield as they are.
pub proof fn lemma_lock_yield(
    l: Ledger,
    admin: Address,
    locked: bool,
)
    ensures
        ({
            let shares = l.instance.interest_yield->0;
            match yield_lock_refusal(l, admin) {
                None => {
                    &&& l.persistent.admin == Some(admin)
                    &&& l.instance.interest_yield is Some
                },
                Some(Error::NotInitialized) => {
                    ||| l.persistent.admin is None
                    ||| l.instance.interest_yield is None
                },
                Some(Error::Unauthorized) => {
                    l.persistent.admin is Some && l.persistent.admin != Some(admin)
                },
                _ => false,
            }
        }),
        yield_lock_refusal(l, admin) is None ==> ({
            let shares = l.instance.interest_yield->0;
            let next = yield_lock_step(l, admin, locked);
            &&& follows(l, next)
            &&& asks(l, next) == seq![
                EffectView::RequireAuth(admin),
            ]
            &&& next.instance.interest_yield == Some(
                EscrowInterestYieldState {
                    client_share_bps: shares.client_share_bps,
                    freelancer_share_bps: shares.freelancer_share_bps,
                    locked,
                },
            )
            &&& next.instance == (Instance {
                interest_yield: next.instance.interest_yield,
                ..l.instance
            })
            &&& next.persistent == l.persistent
            &&& next.temporary == l.temporary
        }),
        yield_lock_refusal(l, admin) is Some ==> kept(l, yield_lock_step(l, admin, locked)),
{
}

/// The admin sets the rate of the yield, at most everything; the old rate is told with
/// it.
pub proof fn lemma_rate_yield(
    l: Ledger,
    admin: Address,
    rate_bps: u32,
)
    ensures
        ({
            match admin_set_yield_rate_refusal(l, admin, rate_bps) {
                None => {
                    &&& l.persistent.admin == Some(admin)
                    &&& rate_bps <= 10_000
                },
                Some(Error::NotInitialized) => l.persistent.admin is None,
                Some(Error::Unauthorized) => {
                    l.persistent.admin is Some && l.persistent.admin != Some(admin)
                },
                Some(Error::InvalidRatio) => rate_bps > 10_000,
                _ => false,
            }
        }),
        admin_set_yield_rate_refusal(l, admin, rate_bps) is None ==> ({
            let next = admin_set_yield_rate_step(l, admin, rate_bps);
            &&& follows(l, next)
            &&& asks(l, next) == seq![
                EffectView::RequireAuth(admin),
                told(
                    Event::YieldRateSet(
                        YieldRateSetEvent {
                            admin,
                            old_rate_bps: match l.persistent.yield_rate_bps {
                                Some(rate) => rate,
                                None => 0,
                            },
                            new_rate_bps: rate_bps,
                        },
                    ),
                ),
            ]
            &&& next.persistent == (Persistent {
                yield_rate_bps: Some(rate_bps),
                ..l.persistent
            })
            &&& next.instance == l.instance
            &&& next.temporary == l.temporary
        }),
        admin_set_yield_rate_refusal(l, admin, rate_bps) is Some ==> kept(
            l,
            admin_set_yield_rate_step(l, admin, rate_bps),
        ),
{
}

/// The admin books yield: the amount is added to what was booked before.
pub proof fn lemma_accrue_yield(
    l: Ledger,
    admin: Address,
    milestone_index: u32,
    accrued_amount: i128,
)
    ensures
        ({
            let job = l.instance.job->0;
            let before = match l.persistent.yield_accrued {
                Some(booked) => booked as int,
                None => 0,
            };
            match admin_accrue_yield_refusal(
                l,
                admin,
                milestone_index,
                accrued_amount,
            ) {
                None => {
                    &&& l.persistent.admin == Some(admin)
                    &&& l.instance.job is Some
                    &&& milestone_index < job.milestone_count
                    &&& accrued_amount > 0
                    &&& before + accrued_amount <= i128::MAX
                },
                Some(Error::NotInitialized) => l.persistent.admin is None || l.instance.job is None,
                Some(Error::Unauthorized) => {
                    l.persistent.admin is Some && l.persistent.admin != Some(admin)
                },
                Some(Error::InvalidMilestone) => milestone_index >= job.milestone_count,
                Some(Error::InvalidAmount) => {
                    ||| accrued_amount <= 0
                    ||| before + accrued_amount > i128::MAX
                },
                _ => false,
            }
        }),
        admin_accrue_yield_refusal(
            l,
            admin,
            milestone_index,
            accrued_amount,
        ) is None ==> ({
            let job = l.instance.job->0;
            let before = match l.persistent.yield_accrued {
                Some(booked) => booked as int,
                None => 0,
            };
            let next = admin_accrue_yield_step(
                l,
                admin,
                milestone_index,
                accrued_amount,
            );
            &&& follows(l, next)
            &&& next.persistent.yield_accrued is Some
            &&& next.persistent.yield_accrued->0 == before + accrued_amount
            &&& asks(l, next) == seq![
                EffectView::RequireAuth(admin),
                told(
                    Event::YieldAccrued(
                        YieldAccruedEvent {
                            admin,
                            milestone_index,
                            accrued_amount,
                            total_accrued: next.persistent.yield_accrued->0,
                        },
                    ),
                ),
            ]
            &&& next.persistent == (Persistent {
                yield_accrued: next.persistent.yield_accrued,
                ..l.persistent
            })
            &&& next.instance == l.instance
            &&& next.temporary == l.temporary
        }),
        admin_accrue_yield_refusal(
            l,
            admin,
            milestone_index,
            accrued_amount,
        ) is Some ==> kept(
            l,
            admin_accrue_yield_step(
                l,
                admin,
                milestone_index,
                accrued_amount,
            ),
        ),
{
}

/// Anybody has the streamed part of an amount computed to the nearest unit, with the
/// rest; nothing is paid.
pub proof fn lemma_stream(
    l: Ledger,
    total_amount: i128,
    numerator: i128,
    denominator: i128,
)
    ensures
        ({
            let parts = streamed(total_amount, numerator, denominator);
            match streaming_refusal(total_amount, numerator, denominator) {
                None => {
                    &&& total_amount > 0
                    &&& 0 <= numerator <= denominator
                    &&& denominator > 0
                    &&& total_amount * numerator + denominator / 2 <= i128::MAX
                },
                Some(Error::InvalidAmount) => {
                    ||| total_amount <= 0
                    ||| total_amount * numerator + denominator / 2 > i128::MAX
                },
                Some(Error::InvalidRatio) => !(0 <= numerator <= denominator) || denominator <= 0,
                _ => false,
            }
        }),
        streaming_refusal(total_amount, numerator, denominator) is None ==> ({
            let parts = streamed(total_amount, numerator, denominator);
            let next = payment_streaming_milestones_step(
                l,
                total_amount,
                numerator,
                denominator,
            );
            &&& follows(l, next)
            &&& part_to_the_nearest(
                parts.first as int,
                total_amount as int,
                numerator as int,
                denominator as int,
            )
            &&& parts.first + parts.second == total_amount
            &&& asks(l, next) == seq![
                told(
                    Event::PaymentStreaming(
                        PaymentStreamingEvent {
                            total_amount,
                            numerator,
                            denominator,
                            streamed_payout: parts.first,
                            client_refund: parts.second,
                        },
                    ),
                ),
            ]
            &&& next.instance == l.instance
            &&& next.persistent == l.persistent
            &&& next.temporary == l.temporary
        }),
        streaming_refusal(total_amount, numerator, denominator) is Some ==> kept(
            l,
            payment_streaming_milestones_step(
                l,
                total_amount,
                numerator,
                denominator,
            ),
        ),
{
    if streaming_refusal(total_amount, numerator, denominator) is None {
        lemma_split_is_to_the_nearest(total_amount as int, numerator as int, denominator as int);
    }
}

/// Anybody has the part of an amount computed that the elapsed time has earned, with
/// the rest; nothing is paid.
pub proof fn lemma_stream_of_time(
    l: Ledger,
    total_amount: i128,
    numerator: i128,
    denominator: i128,
)
    ensures
        ({
            let parts = streamed(total_amount, numerator, denominator);
            match streaming_refusal(total_amount, numerator, denominator) {
                None => {
                    &&& total_amount > 0
                    &&& 0 <= numerator <= denominator
                    &&& denominator > 0
                    &&& total_amount * numerator + denominator / 2 <= i128::MAX
                },
                Some(Error::InvalidAmount) => {
                    ||| total_amount <= 0
                    ||| total_amount * numerator + denominator / 2 > i128::MAX
                },
                Some(Error::InvalidRatio) => !(0 <= numerator <= denominator) || denominator <= 0,
                _ => false,
            }
        }),
        streaming_refusal(total_amount, numerator, denominator) is None ==> ({
            let parts = streamed(total_amount, numerator, denominator);
            let next = milestone_time_extensions_step(
                l,
                total_amount,
                numerator,
                denominator,
            );
            &&& follows(l, next)
            &&& part_to_the_nearest(
                parts.first as int,
                total_amount as int,
                numerator as int,
                denominator as int,
            )
            &&& parts.first + parts.second == total_amount
            &&& asks(l, next) == seq![
                told(
                    Event::MilestoneTimeExtension(
                        MilestoneTimeExtensionEvent {
                            amount: total_amount,
                            elapsed_seconds: numerator,
                            total_seconds: denominator,
                            freelancer_share: parts.first,
                            client_refund: parts.second,
                        },
                    ),
                ),
            ]
            &&& next.instance == l.instance
            &&& next.persistent == l.persistent
            &&& next.temporary == l.temporary
        }),
        streaming_refusal(total_amount, numerator, denominator) is Some ==> kept(
            l,
            milestone_time_extensions_step(
                l,
                total_amount,
                numerator,
                denominator,
            ),
        ),
{
    if streaming_refusal(total_amount, numerator, denominator) is None {
        lemma_split_is_to_the_nearest(total_amount as int, numerator as int, denominator as int);
    }
}

/// With the consent of both parties the streamed part of an amount is computed; nothing
/// is paid.
pub proof fn lemma_stream_by_consent(
    l: Ledger,
    total_amount: i128,
    numerator: i128,
    denominator: i128,
)
    ensures
        ({
            let job = l.instance.job->0;
            let parts = streamed(total_amount, numerator, denominator);
            match payment_streaming_consent_refusal(
                l,
                total_amount,
                numerator,
                denominator,
            ) {
                None => {
                    &&& l.instance.job is Some
                    &&& total_amount > 0
                    &&& 0 <= numerator <= denominator
                    &&& denominator > 0
                    &&& total_amount * numerator + denominator / 2 <= i128::MAX
                },
                Some(Error::NotInitialized) => l.instance.job is None,
                Some(Error::InvalidAmount) => {
                    ||| total_amount <= 0
                    ||| total_amount * numerator + denominator / 2 > i128::MAX
                },
                Some(Error::InvalidRatio) => !(0 <= numerator <= denominator) || denominator <= 0,
                _ => false,
            }
        }),
        payment_streaming_consent_refusal(
            l,
            total_amount,
            numerator,
            denominator,
        ) is None ==> ({
            let job = l.instance.job->0;
            let parts = streamed(total_amount, numerator, denominator);
            let next = payment_streaming_consent_step(
                l,
                total_amount,
                numerator,
                denominator,
            );
            &&& follows(l, next)
            &&& part_to_the_nearest(
                parts.first as int,
                total_amount as int,
                numerator as int,
                denominator as int,
            )
            &&& parts.first + parts.second == total_amount
            &&& asks(l, next) == seq![
                EffectView::RequireAuth(job.client),
                EffectView::RequireAuth(job.freelancer),
                told(
                    Event::PaymentStreamingConsent(
                        PaymentStreamingConsentEvent {
                            client: job.client,
                            freelancer: job.freelancer,
                            total_amount,
                            numerator,
                            denominator,
                            streamed_payout: parts.first,
                            client_refund: parts.second,
                        },
                    ),
                ),
            ]
            &&& next.instance == l.instance
            &&& next.persistent == l.persistent
            &&& next.temporary == l.temporary
        }),
        payment_streaming_consent_refusal(
            l,
            total_amount,
            numerator,
            denominator,
        ) is Some ==> kept(
            l,
            payment_streaming_consent_step(
                l,
                total_amount,
                numerator,
                denominator,
            ),
        ),
{
    if payment_streaming_consent_refusal(
        l,
        total_amount,
        numerator,
        denominator,
    ) is None {
        lemma_split_is_to_the_nearest(total_amount as int, numerator as int, denominator as int);
    }
}

/// The admin names the signers and how many of them have to approve, once: from one to 32
/// signers, all different, and a threshold from one to their number.
pub proof fn lemma_name_signers(
    l: Ledger,
    admin: Address,
    signers: Seq<Address>,
    threshold: u32,
)
    ensures
        ({
            match multisig_approval_init_refusal(l, admin, signers, threshold) {
                None => {
                    &&& l.persistent.admin == Some(admin)
                    &&& l.instance.multisig_signers is None
                    &&& 0 < signers.len() <= 32
                    &&& 0 < threshold <= signers.len()
                    &&& forall|i: int, j: int|
                        0 <= i < j < signers.len() ==> (#[trigger] signers[i]) != (
                        #[trigger] signers[j])
                },
                Some(Error::NotInitialized) => l.persistent.admin is None,
                Some(Error::Unauthorized) => {
                    l.persistent.admin is Some && l.persistent.admin != Some(admin)
                },
                Some(Error::AlreadyInitialized) => l.instance.multisig_signers is Some,
                Some(Error::MultiSigNoSigners) => signers.len() == 0,
                Some(Error::MultiSigTooManySigners) => signers.len() > 32,
                Some(Error::MultiSigInvalidThreshold) => {
                    ||| threshold == 0
                    ||| threshold > signers.len()
                },
                Some(Error::MultiSigDuplicateSigner) => {
                    exists|i: int, j: int|
                    0 <= i < j < signers.len() && (#[trigger] signers[i]) == (#[trigger] signers[j])
                },
                _ => false,
            }
        }),
        multisig_approval_init_refusal(l, admin, signers, threshold) is None ==> ({
            let next = multisig_approval_init_step(l, admin, signers, threshold);
            &&& follows(l, next)
            &&& asks(l, next) == seq![
                EffectView::RequireAuth(admin),
            ]
            &&& next.instance == (Instance {
                multisig_signers: Some(signers),
                multisig_threshold: Some(threshold),
                ..l.instance
            })
            &&& next.persistent == l.persistent
            &&& next.temporary == l.temporary
        }),
        multisig_approval_init_refusal(l, admin, signers, threshold) is Some ==> kept(
            l,
            multisig_approval_init_step(l, admin, signers, threshold),
        ),
{
    if !signers.no_duplicates() {
        let (i, j) = choose|i: int, j: int|
            0 <= i < signers.len() && 0 <= j < signers.len() && i != j && signers[i] == signers[j];
        if i < j {
            assert(signers[i] == signers[j]);
        } else {
            assert(signers[j] == signers[i]);
        }
    }
}

/// A signer approves a proposal: in its bitmap the bit of the signer's place among the
/// signers goes up, and no other changes.
pub proof fn lemma_approve_proposal(
    l: Ledger,
    signer: Address,
    proposal_id: u32,
)
    ensures
        ({
            let signers = l.instance.multisig_signers->0;
            let threshold = l.instance.multisig_threshold->0;
            let bitmap = approvals_for(multisig_approve_step(l, signer, proposal_id), proposal_id);
            match multisig_approve_refusal(l, signer) {
                None => {
                    &&& l.instance.job is Some
                    &&& !up(l.instance.multisig_locked)
                    &&& l.token_balance > 0
                    &&& l.instance.multisig_signers is Some
                    &&& l.instance.multisig_threshold is Some
                    &&& exists|at: u32| at < 32 && #[trigger] first_at(signers, signer, at)
                },
                Some(Error::NotInitialized) => {
                    ||| l.instance.job is None
                    ||| l.instance.multisig_signers is None
                    ||| l.instance.multisig_threshold is None
                },
                Some(Error::EscrowLocked) => up(l.instance.multisig_locked),
                Some(Error::MultiSigEmptyBalance) => l.token_balance <= 0,
                Some(Error::Unauthorized) => !signers.contains(signer),
                Some(Error::InvalidAmount) => {
                    forall|at: u32| #[trigger] first_at(signers, signer, at) ==> at >= 32
                },
                _ => false,
            }
        }),
        multisig_approve_refusal(l, signer) is None ==> ({
            let signers = l.instance.multisig_signers->0;
            let threshold = l.instance.multisig_threshold->0;
            let bitmap = approvals_for(multisig_approve_step(l, signer, proposal_id), proposal_id);
            let next = multisig_approve_step(l, signer, proposal_id);
            &&& follows(l, next)
            &&& forall|at: u32| #[trigger]
                first_at(signers, signer, at) ==> bitmap == approvals_for(l, proposal_id) | (1u32
                << at)
            &&& next.temporary == (Temporary {
                multisig_approvals: l.temporary.multisig_approvals.insert(proposal_id, bitmap),
                ..l.temporary
            })
            &&& approved_state(l, signer, proposal_id) == (MultiSigApprovalState {
                approved: approvals_in(bitmap) >= threshold,
                approvals: approvals_in(bitmap),
                threshold,
                bitmap,
            })
            &&& asks(l, next) == seq![
                EffectView::RequireAuth(signer),
                told(
                    Event::MultiSigApproved(
                        MultiSigApprovedEvent {
                            proposal_id,
                            signer,
                            approvals: approvals_in(bitmap),
                            threshold,
                            approved: approvals_in(bitmap) >= threshold,
                            bitmap,
                        },
                    ),
                ),
            ]
            &&& next.instance == l.instance
            &&& next.persistent == l.persistent
        }),
        multisig_approve_refusal(l, signer) is Some ==> kept(
            l,
            multisig_approve_step(l, signer, proposal_id),
        ),
{
    let signers = l.instance.multisig_signers->0;
    lemma_first_position(signers, signer, 0);
    match position(signers, signer) {
        Some(at) => {
            if at < 32 {
                assert(first_at(signers, signer, at as u32));
            }
        },
        None => {},
    }
}

/// The admin locks the approvals.
pub proof fn lemma_lock_approvals(
    l: Ledger,
    admin: Address,
)
    ensures
        ({
            match admin_refusal(l, admin) {
                None => {
                    &&& l.persistent.admin == Some(admin)
                },
                Some(Error::NotInitialized) => l.persistent.admin is None,
                Some(Error::Unauthorized) => {
                    l.persistent.admin is Some && l.persistent.admin != Some(admin)
                },
                _ => false,
            }
        }),
        admin_refusal(l, admin) is None ==> ({
            let next = multisig_lock_step(l, admin);
            &&& follows(l, next)
            &&& asks(l, next) == seq![
                EffectView::RequireAuth(admin),
            ]
            &&& next.instance == (Instance {
                multisig_locked: Some(true),
                ..l.instance
            })
            &&& next.persistent == l.persistent
            &&& next.temporary == l.temporary
        }),
        admin_refusal(l, admin) is Some ==> kept(l, multisig_lock_step(l, admin)),
{
}

/// Before the job is funded the admin puts a token at the end of the list, which holds
/// it once and no more than 50 in all.
pub proof fn lemma_list_token(
    l: Ledger,
    admin: Address,
    token: Address,
)
    ensures
        ({
            let job = l.instance.job->0;
            let list = l.instance.whitelist->0;
            match add_whitelisted_token_refusal(l, admin, token) {
                None => {
                    &&& l.persistent.admin == Some(admin)
                    &&& !is_zero(token) && token != l.contract
                    &&& l.instance.job is Some
                    &&& !job.funded
                    &&& l.instance.whitelist is Some
                    &&& !list.contains(token)
                    &&& list.len() < 50
                },
                Some(Error::NotInitialized) => {
                    ||| l.persistent.admin is None
                    ||| l.instance.job is None
                    ||| l.instance.whitelist is None
                },
                Some(Error::Unauthorized) => {
                    l.persistent.admin is Some && l.persistent.admin != Some(admin)
                },
                Some(Error::InvalidAddress) => is_zero(token) || token == l.contract,
                Some(Error::AlreadyFunded) => job.funded,
                Some(Error::TokenAlreadyWhitelisted) => list.contains(token),
                Some(Error::InvalidAmount) => list.len() >= 50,
                _ => false,
            }
        }),
        add_whitelisted_token_refusal(l, admin, token) is None ==> ({
            let job = l.instance.job->0;
            let list = l.instance.whitelist->0;
            let next = add_whitelisted_token_step(l, admin, token);
            &&& follows(l, next)
            &&& asks(l, next) == seq![
                EffectView::RequireAuth(admin),
                told(
                    Event::TokenWhitelisted(
                        TokenWhitelistedEvent {
                            admin,
                            token,
                        },
                    ),
                ),
            ]
            &&& next.instance == (Instance {
                whitelist: Some(list + seq![token]),
                ..l.instance
            })
            &&& next.persistent == l.persistent
            &&& next.temporary == l.temporary
        }),
        add_whitelisted_token_refusal(l, admin, token) is Some ==> kept(
            l,
            add_whitelisted_token_step(l, admin, token),
        ),
{
}

/// Before the job is funded the admin takes a token from the list, which keeps at least
/// one: the last token takes its place, and every other keeps its own.
pub proof fn lemma_unlist_token(
    l: Ledger,
    admin: Address,
    token: Address,
)
    ensures
        ({
            let job = l.instance.job->0;
            let list = l.instance.whitelist->0;
            let rest = remove_whitelisted_token_step(l, admin, token).instance.whitelist->0;
            match remove_whitelisted_token_refusal(l, admin, token) {
                None => {
                    &&& l.persistent.admin == Some(admin)
                    &&& !is_zero(token)
                    &&& l.instance.job is Some
                    &&& !job.funded
                    &&& l.instance.whitelist is Some
                    &&& list.contains(token)
                    &&& list.len() > 1
                },
                Some(Error::NotInitialized) => {
                    ||| l.persistent.admin is None
                    ||| l.instance.job is None
                    ||| l.instance.whitelist is None
                },
                Some(Error::Unauthorized) => {
                    l.persistent.admin is Some && l.persistent.admin != Some(admin)
                },
                Some(Error::InvalidAddress) => is_zero(token),
                Some(Error::AlreadyFunded) => job.funded,
                Some(Error::TokenNotWhitelisted) => !list.contains(token),
                Some(Error::InvalidAmount) => list.len() == 1,
                _ => false,
            }
        }),
        remove_whitelisted_token_refusal(l, admin, token) is None ==> ({
            let job = l.instance.job->0;
            let list = l.instance.whitelist->0;
            let rest = remove_whitelisted_token_step(l, admin, token).instance.whitelist->0;
            let next = remove_whitelisted_token_step(l, admin, token);
            &&& follows(l, next)
            &&& rest.len() == list.len() - 1
            &&& forall|at: u32, i: int|
                #![trigger first_at(list, token, at), rest[i]]
                first_at(list, token, at) && 0 <= i < rest.len() ==> rest[i] == if i == at {
                    list.last()
                } else {
                    list[i]
                }
            &&& asks(l, next) == seq![
                EffectView::RequireAuth(admin),
                told(
                    Event::TokenRemoved(
                        TokenRemovedEvent {
                            admin,
                            token,
                        },
                    ),
                ),
            ]
            &&& next.instance == (Instance {
                whitelist: Some(rest),
                ..l.instance
            })
            &&& next.persistent == l.persistent
            &&& next.temporary == l.temporary
        }),
        remove_whitelisted_token_refusal(l, admin, token) is Some ==> kept(
            l,
            remove_whitelisted_token_step(l, admin, token),
        ),
{
    lemma_first_position(l.instance.whitelist->0, token, 0);
}

} // verus!
