//! The admin role, and replacing the contract's code.

use crate::address::{is_zero, Address};
use crate::events::{
    AdminTransferCancelledEvent, AdminTransferExecutedEvent, AdminTransferProposedEvent, Event,
    TransferAdminEvent,
};
use crate::guards::{admin_refusal, after, outcome};
use crate::ledger::{or_default, EffectView, Env, Instance, Ledger, Persistent};
use crate::multisig::{approval_state, bitmap_of};
use crate::types::{Error, MilestoneEscrow, PendingAdminTransfer};
use vstd::prelude::*;

verus! {

/// What `transfer_admin` makes of the ledger.
pub open spec fn transfer_admin_step(
    l: Ledger,
    current_admin: Address,
    new_admin: Address,
) -> Ledger {
    after(
        admin_refusal(l, current_admin),
        l.asked(current_admin),
        l.asked(current_admin).with_persistent(
            Persistent { admin: Some(new_admin), ..l.persistent },
        ).announced(
            Event::TransferAdmin(TransferAdminEvent { old_admin: current_admin, new_admin }),
        ),
    )
}

/// What `upgrade` makes of the ledger.
pub open spec fn upgrade_step(l: Ledger, admin: Address, new_wasm_hash: Seq<u8>) -> Ledger {
    after(
        admin_refusal(l, admin),
        l.asked(admin),
        l.asked(admin).with(EffectView::UpdateWasm(new_wasm_hash)).with_instance(
            Instance {
                version: Some((or_default(l.instance.version, 1) + 1) as u32),
                ..l.instance
            },
        ),
    )
}

/// Why `propose_admin_transfer` is refused, if it is.
pub open spec fn propose_admin_transfer_refusal(
    l: Ledger,
    admin: Address,
    new_admin: Address,
) -> Option<Error> {
    if admin_refusal(l, admin) is Some {
        admin_refusal(l, admin)
    } else if is_zero(new_admin) {
        Some(Error::InvalidAddress)
    } else if l.persistent.pending_admin_transfer is Some {
        Some(Error::AdminTransferPending)
    } else {
        None
    }
}

/// What `propose_admin_transfer` makes of the ledger.
pub open spec fn propose_admin_transfer_step(
    l: Ledger,
    admin: Address,
    new_admin: Address,
    proposal_id: u32,
) -> Ledger {
    after(
        propose_admin_transfer_refusal(l, admin, new_admin),
        l.asked(admin),
        l.asked(admin).with_persistent(
            Persistent {
                pending_admin_transfer: Some(PendingAdminTransfer { new_admin, proposal_id }),
                ..l.persistent
            },
        ).announced(
            Event::AdminTransferProposed(
                AdminTransferProposedEvent { admin, new_admin, proposal_id },
            ),
        ),
    )
}

/// Why `execute_admin_transfer` is refused, if it is.
pub open spec fn execute_admin_transfer_refusal(l: Ledger) -> Option<Error> {
    if l.persistent.pending_admin_transfer is None {
        Some(Error::NoPendingAdminTransfer)
    } else if l.instance.multisig_threshold is None {
        Some(Error::NotInitialized)
    } else if !approval_state(
        bitmap_of(l, l.persistent.pending_admin_transfer->0.proposal_id),
        l.instance.multisig_threshold->0,
    ).approved {
        Some(Error::MultiSigThresholdNotMet)
    } else if l.persistent.admin is None {
        Some(Error::NotInitialized)
    } else {
        None
    }
}

/// What `execute_admin_transfer` makes of the ledger.
pub open spec fn execute_admin_transfer_step(l: Ledger) -> Ledger {
    let pending = l.persistent.pending_admin_transfer->0;
    after(
        execute_admin_transfer_refusal(l),
        l,
        l.with_persistent(
            Persistent {
                admin: Some(pending.new_admin),
                pending_admin_transfer: None,
                ..l.persistent
            },
        ).announced(
            Event::AdminTransferExecuted(
                AdminTransferExecutedEvent {
                    old_admin: l.persistent.admin->0,
                    new_admin: pending.new_admin,
                    proposal_id: pending.proposal_id,
                },
            ),
        ),
    )
}

/// Why `cancel_admin_transfer_proposal` is refused, if it is.
pub open spec fn cancel_admin_transfer_proposal_refusal(
    l: Ledger,
    admin: Address,
) -> Option<Error> {
    if admin_refusal(l, admin) is Some {
        admin_refusal(l, admin)
    } else if l.persistent.pending_admin_transfer is None {
        Some(Error::NoPendingAdminTransfer)
    } else {
        None
    }
}

/// What `cancel_admin_transfer_proposal` makes of the ledger.
pub open spec fn cancel_admin_transfer_proposal_step(l: Ledger, admin: Address) -> Ledger {
    after(
        cancel_admin_transfer_proposal_refusal(l, admin),
        l.asked(admin),
        l.asked(admin).with_persistent(
            Persistent { pending_admin_transfer: None, ..l.persistent },
        ).announced(
            Event::AdminTransferCancelled(
                AdminTransferCancelledEvent {
                    admin,
                    proposal_id: l.persistent.pending_admin_transfer->0.proposal_id,
                },
            ),
        ),
    )
}

impl MilestoneEscrow {
    /// The admin hands the role over at once.
    pub fn transfer_admin(
        env: &mut Env,
        current_admin: Address,
        new_admin: Address,
    ) -> (r: Result<(), Error>)
        ensures
            r == outcome(admin_refusal(old(env)@, current_admin), ()),
            final(env)@ == transfer_admin_step(old(env)@, current_admin, new_admin),
    {
        Self::require_admin(env, current_admin)?;
        env.admin = Some(new_admin);
        env.publish(
            Event::TransferAdmin(TransferAdminEvent { old_admin: current_admin, new_admin }),
        );
        Ok(())
    }

    /// The admin replaces the contract's code, which counts as a new version.
    pub fn upgrade(env: &mut Env, admin: Address, new_wasm_hash: [u8; 32]) -> (r: Result<(), Error>)
        requires
            admin_refusal(old(env)@, admin) is None ==> or_default(old(env)@.instance.version, 1)
                < u32::MAX,
        ensures
            r == outcome(admin_refusal(old(env)@, admin), ()),
            final(env)@ == upgrade_step(old(env)@, admin, new_wasm_hash@),
    {
        Self::require_admin(env, admin)?;
        env.update_current_contract_wasm(new_wasm_hash);
        let current: u32 = Self::version(env);
        env.version = Some(current + 1);
        Ok(())
    }

    /// The admin proposes to hand the role over once the signers have approved
    /// the proposal. Only one such proposal can be pending.
    pub fn propose_admin_transfer(
        env: &mut Env,
        admin: Address,
        new_admin: Address,
        proposal_id: u32,
    ) -> (r: Result<(), Error>)
        ensures
            r == outcome(propose_admin_transfer_refusal(old(env)@, admin, new_admin), ()),
            final(env)@ == propose_admin_transfer_step(old(env)@, admin, new_admin, proposal_id),
    {
        Self::require_admin(env, admin)?;
        if new_admin.is_zero() {
            return Err(Error::InvalidAddress);
        }
        if env.pending_admin_transfer.is_some() {
            return Err(Error::AdminTransferPending);
        }
        env.pending_admin_transfer = Some(PendingAdminTransfer { new_admin, proposal_id });
        env.publish(
            Event::AdminTransferProposed(
                AdminTransferProposedEvent { admin, new_admin, proposal_id },
            ),
        );
        Ok(())
    }

    /// Hands the role over as proposed, where enough signers have approved.
    /// Anybody may ask for it.
    pub fn execute_admin_transfer(env: &mut Env) -> (r: Result<(), Error>)
        ensures
            r == outcome(execute_admin_transfer_refusal(old(env)@), ()),
            final(env)@ == execute_admin_transfer_step(old(env)@),
    {
        let pending: PendingAdminTransfer = match env.pending_admin_transfer {
            Some(pending) => pending,
            None => {
                return Err(Error::NoPendingAdminTransfer);
            },
        };
        let state = Self::is_multisig_approved(env, pending.proposal_id)?;
        if !state.approved {
            return Err(Error::MultiSigThresholdNotMet);
        }
        let old_admin = Self::load_admin(env)?;
        env.admin = Some(pending.new_admin);
        env.pending_admin_transfer = None;
        env.publish(
            Event::AdminTransferExecuted(
                AdminTransferExecutedEvent {
                    old_admin,
                    new_admin: pending.new_admin,
                    proposal_id: pending.proposal_id,
                },
            ),
        );
        Ok(())
    }

    /// The admin withdraws a pending proposal.
    pub fn cancel_admin_transfer_proposal(env: &mut Env, admin: Address) -> (r: Result<(), Error>)
        ensures
            r == outcome(cancel_admin_transfer_proposal_refusal(old(env)@, admin), ()),
            final(env)@ == cancel_admin_transfer_proposal_step(old(env)@, admin),
    {
        Self::require_admin(env, admin)?;
        let pending: PendingAdminTransfer = match env.pending_admin_transfer {
            Some(pending) => pending,
            None => {
                return Err(Error::NoPendingAdminTransfer);
            },
        };
        env.pending_admin_transfer = None;
        env.publish(
            Event::AdminTransferCancelled(
                AdminTransferCancelledEvent { admin, proposal_id: pending.proposal_id },
            ),
        );
        Ok(())
    }

    /// The proposal that is pending, if there is one.
    pub fn get_pending_admin_transfer(env: &Env) -> (r: Option<PendingAdminTransfer>)
        ensures
            r == env@.persistent.pending_admin_transfer,
    {
        env.pending_admin_transfer
    }
}

} // verus!
