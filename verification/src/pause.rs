//! Freezing the escrow, pausing it, and dividing what it holds while frozen.

use crate::address::Address;
use crate::allocation::{allocation, allocation_refusal, as_amounts, ints};
use crate::amounts::Amounts;
use crate::events::{
    EmergencyPauseAdminOverrideEvent, EmergencyPauseAllocationEvent, EmergencyPausedEvent,
    EmergencyUnpausedEvent, EscrowPausedEvent, EscrowResumedEvent, Event, EventView,
    SplitRefundCalculatedEvent,
};
use crate::guards::{admin_refusal, after, outcome};
use crate::ledger::{raised, EffectView, Env, Instance, Ledger};
use crate::splits::{bps_split_refusal, client_first};
use crate::types::{
    Error, MilestoneEscrow, RefundAllocation, MAX_EMERGENCY_ALLOCATION_PARTIES,
};
use vstd::prelude::*;

verus! {

// ── the emergency freeze ─────────────────────────────────────────────────────

/// The freeze is set to `frozen`, and the change is over.
pub open spec fn freeze_set(l: Ledger, frozen: bool) -> Ledger {
    l.with_instance(
        Instance {
            emergency_paused: Some(frozen),
            emergency_pause_lock: Some(false),
            ..l.instance
        },
    )
}

/// Why `emergency_pause` is refused, if it is.
pub open spec fn emergency_pause_refusal(l: Ledger, admin: Address) -> Option<Error> {
    if admin_refusal(l, admin) is Some {
        admin_refusal(l, admin)
    } else if raised(l.instance.emergency_pause_lock) {
        Some(Error::EmergencyPauseInProgress)
    } else if raised(l.instance.emergency_paused) {
        Some(Error::AlreadyPaused)
    } else {
        None
    }
}

/// What `emergency_pause` makes of the ledger.
pub open spec fn emergency_pause_step(l: Ledger, admin: Address) -> Ledger {
    after(
        emergency_pause_refusal(l, admin),
        l.asked(admin),
        freeze_set(l.asked(admin), true).announced(
            Event::EmergencyPaused(EmergencyPausedEvent { admin, contract_id: l.contract }),
        ),
    )
}

/// Why `emergency_unpause` is refused, if it is.
pub open spec fn emergency_unpause_refusal(l: Ledger, admin: Address) -> Option<Error> {
    if admin_refusal(l, admin) is Some {
        admin_refusal(l, admin)
    } else if raised(l.instance.emergency_pause_lock) {
        Some(Error::EmergencyPauseInProgress)
    } else if !raised(l.instance.emergency_paused) {
        Some(Error::NotPaused)
    } else {
        None
    }
}

/// What `emergency_unpause` makes of the ledger.
pub open spec fn emergency_unpause_step(l: Ledger, admin: Address) -> Ledger {
    after(
        emergency_unpause_refusal(l, admin),
        l.asked(admin),
        freeze_set(l.asked(admin), false).announced(
            Event::EmergencyUnpaused(EmergencyUnpausedEvent { admin, contract_id: l.contract }),
        ),
    )
}

/// Why `emergency_pause_admin_override` is refused, if it is.
pub open spec fn emergency_pause_admin_override_refusal(
    l: Ledger,
    admin: Address,
    paused: bool,
) -> Option<Error> {
    if admin_refusal(l, admin) is Some {
        admin_refusal(l, admin)
    } else if raised(l.instance.emergency_paused) == paused {
        Some(Error::InvalidStatus)
    } else if raised(l.instance.emergency_pause_lock) {
        Some(Error::EmergencyPauseInProgress)
    } else {
        None
    }
}

/// What `emergency_pause_admin_override` makes of the ledger.
pub open spec fn emergency_pause_admin_override_step(
    l: Ledger,
    admin: Address,
    paused: bool,
) -> Ledger {
    after(
        emergency_pause_admin_override_refusal(l, admin, paused),
        l.asked(admin),
        freeze_set(l.asked(admin), paused).announced(
            Event::EmergencyPauseAdminOverride(
                EmergencyPauseAdminOverrideEvent { admin, contract_id: l.contract, paused },
            ),
        ),
    )
}

// ── the everyday pause ───────────────────────────────────────────────────────

/// What `admin_pause_escrow` makes of the ledger.
pub open spec fn admin_pause_escrow_step(l: Ledger, admin: Address) -> Ledger {
    let paused = l.asked(admin).with_instance(
        Instance { paused: Some(true), emergency_pause_lock: Some(false), ..l.instance },
    );
    after(
        admin_refusal(l, admin),
        l.asked(admin),
        if raised(l.instance.paused) {
            paused
        } else {
            paused.announced(
                Event::EscrowPaused(EscrowPausedEvent { admin, contract_id: l.contract }),
            )
        },
    )
}

/// What `admin_resume_escrow` makes of the ledger.
pub open spec fn admin_resume_escrow_step(l: Ledger, admin: Address) -> Ledger {
    let resumed = l.asked(admin).with_instance(
        Instance { paused: Some(false), emergency_pause_lock: Some(false), ..l.instance },
    );
    after(
        admin_refusal(l, admin),
        l.asked(admin),
        if raised(l.instance.paused) {
            resumed.announced(
                Event::EscrowResumed(EscrowResumedEvent { admin, contract_id: l.contract }),
            )
        } else {
            resumed
        },
    )
}

// ── dividing a frozen amount ─────────────────────────────────────────────────

/// A positive amount and two shares that make the whole.
pub open spec fn positive_split_refusal(
    total_amount: i128,
    client_refund_bps: u32,
    freelancer_payout_bps: u32,
) -> Option<Error> {
    if total_amount <= 0 {
        Some(Error::InvalidAmount)
    } else {
        bps_split_refusal(total_amount as int, client_refund_bps, freelancer_payout_bps)
    }
}

/// A division between the client and the freelancer, as it is announced.
pub open spec fn calculated(allocation: RefundAllocation) -> SplitRefundCalculatedEvent {
    SplitRefundCalculatedEvent {
        client_refund: allocation.client_refund,
        freelancer_payout: allocation.freelancer_payout,
        client_refund_bps: allocation.client_refund_bps,
        freelancer_payout_bps: allocation.freelancer_payout_bps,
    }
}

/// What `emergency_pause_split_refund` makes of the ledger.
pub open spec fn emergency_pause_split_refund_step(
    l: Ledger,
    total_amount: i128,
    client_refund_bps: u32,
    freelancer_payout_bps: u32,
) -> Ledger {
    after(
        positive_split_refusal(total_amount, client_refund_bps, freelancer_payout_bps),
        l,
        l.announced(
            Event::EmergencyPauseSplitRefund(
                calculated(
                    client_first(total_amount as int, client_refund_bps, freelancer_payout_bps),
                ),
            ),
        ),
    )
}

/// Why `emergency_pause_claim_refund` is refused, if it is.
pub open spec fn emergency_pause_claim_refund_refusal(
    l: Ledger,
    admin: Address,
    total_amount: i128,
    client_refund_bps: u32,
    freelancer_payout_bps: u32,
) -> Option<Error> {
    if emergency_unpause_refusal(l, admin) is Some {
        emergency_unpause_refusal(l, admin)
    } else {
        positive_split_refusal(total_amount, client_refund_bps, freelancer_payout_bps)
    }
}

/// What `emergency_pause_claim_refund` makes of the ledger.
pub open spec fn emergency_pause_claim_refund_step(
    l: Ledger,
    admin: Address,
    total_amount: i128,
    client_refund_bps: u32,
    freelancer_payout_bps: u32,
) -> Ledger {
    after(
        emergency_unpause_refusal(l, admin),
        l.asked(admin),
        emergency_pause_split_refund_step(
            l.asked(admin),
            total_amount,
            client_refund_bps,
            freelancer_payout_bps,
        ),
    )
}

/// Why `emergency_pause_allocation` is refused, if it is.
pub open spec fn emergency_pause_allocation_refusal(
    total_amount: i128,
    weights: Seq<i128>,
) -> Option<Error> {
    if total_amount <= 0 {
        Some(Error::InvalidAmount)
    } else if weights.len() == 0 || weights.len() > MAX_EMERGENCY_ALLOCATION_PARTIES {
        Some(Error::InvalidAllocationWeights)
    } else {
        allocation_refusal(
            total_amount as int,
            ints(weights),
            Error::InvalidAllocationWeights,
            Error::InvalidAmount,
        )
    }
}

/// What `emergency_pause_allocation` makes of the ledger.
pub open spec fn emergency_pause_allocation_step(
    l: Ledger,
    total_amount: i128,
    weights: Seq<i128>,
) -> Ledger {
    after(
        emergency_pause_allocation_refusal(total_amount, weights),
        l,
        l.with(
            EffectView::Publish(
                EventView::EmergencyPauseAllocation {
                    total_amount,
                    num_parties: weights.len() as u32,
                    allocations: as_amounts(allocation(total_amount as int, ints(weights))),
                },
            ),
        ),
    )
}

impl MilestoneEscrow {
    /// The admin freezes the escrow.
    pub fn emergency_pause(env: &mut Env, admin: Address) -> (r: Result<(), Error>)
        ensures
            r == outcome(emergency_pause_refusal(old(env)@, admin), ()),
            final(env)@ == emergency_pause_step(old(env)@, admin),
    {
        Self::require_admin(env, admin)?;
        Self::assert_emergency_pause_not_locked(env)?;
        if Self::is_emergency_paused(env) {
            return Err(Error::AlreadyPaused);
        }
        Self::set_freeze(env, true);
        let contract_id = env.contract;
        env.publish(Event::EmergencyPaused(EmergencyPausedEvent { admin, contract_id }));
        Ok(())
    }

    /// The admin lifts the freeze.
    pub fn emergency_unpause(env: &mut Env, admin: Address) -> (r: Result<(), Error>)
        ensures
            r == outcome(emergency_unpause_refusal(old(env)@, admin), ()),
            final(env)@ == emergency_unpause_step(old(env)@, admin),
    {
        Self::require_admin(env, admin)?;
        Self::assert_emergency_pause_not_locked(env)?;
        if !Self::is_emergency_paused(env) {
            return Err(Error::NotPaused);
        }
        Self::set_freeze(env, false);
        let contract_id = env.contract;
        env.publish(Event::EmergencyUnpaused(EmergencyUnpausedEvent { admin, contract_id }));
        Ok(())
    }

    /// The admin changes the freeze to the given value.
    pub fn emergency_pause_admin_override(
        env: &mut Env,
        admin: Address,
        paused: bool,
    ) -> (r: Result<(), Error>)
        ensures
            r == outcome(emergency_pause_admin_override_refusal(old(env)@, admin, paused), ()),
            final(env)@ == emergency_pause_admin_override_step(old(env)@, admin, paused),
    {
        Self::require_admin(env, admin)?;
        if Self::is_emergency_paused(env) == paused {
            return Err(Error::InvalidStatus);
        }
        Self::assert_emergency_pause_not_locked(env)?;
        Self::set_freeze(env, paused);
        let contract_id = env.contract;
        env.publish(
            Event::EmergencyPauseAdminOverride(
                EmergencyPauseAdminOverrideEvent { admin, contract_id, paused },
            ),
        );
        Ok(())
    }

    fn set_freeze(env: &mut Env, frozen: bool)
        ensures
            final(env)@ == freeze_set(old(env)@, frozen),
    {
        env.emergency_paused = Some(frozen);
        env.emergency_pause_lock = Some(false);
    }

    /// Whether the escrow is frozen.
    pub fn is_emergency_paused(env: &Env) -> (r: bool)
        ensures
            r == raised(env@.instance.emergency_paused),
    {
        Self::is_raised(env.emergency_paused)
    }

    /// The admin pauses the everyday requests. Doing so twice does no harm, and
    /// is announced once.
    pub fn admin_pause_escrow(env: &mut Env, admin: Address) -> (r: Result<(), Error>)
        ensures
            r == outcome(admin_refusal(old(env)@, admin), ()),
            final(env)@ == admin_pause_escrow_step(old(env)@, admin),
    {
        Self::require_admin(env, admin)?;
        let already_paused = Self::is_raised(env.paused);
        env.paused = Some(true);
        env.emergency_pause_lock = Some(false);
        if !already_paused {
            let contract_id = env.contract;
            env.publish(Event::EscrowPaused(EscrowPausedEvent { admin, contract_id }));
        }
        Ok(())
    }

    /// The admin resumes the everyday requests. Doing so twice does no harm,
    /// and is announced once.
    pub fn admin_resume_escrow(env: &mut Env, admin: Address) -> (r: Result<(), Error>)
        ensures
            r == outcome(admin_refusal(old(env)@, admin), ()),
            final(env)@ == admin_resume_escrow_step(old(env)@, admin),
    {
        Self::require_admin(env, admin)?;
        let currently_paused = Self::is_raised(env.paused);
        env.paused = Some(false);
        env.emergency_pause_lock = Some(false);
        if currently_paused {
            let contract_id = env.contract;
            env.publish(Event::EscrowResumed(EscrowResumedEvent { admin, contract_id }));
        }
        Ok(())
    }

    /// What a refund by two shares in basis points comes to. Anybody may ask.
    pub fn emergency_pause_split_refund(
        env: &mut Env,
        total_amount: i128,
        client_refund_bps: u32,
        freelancer_payout_bps: u32,
    ) -> (r: Result<RefundAllocation, Error>)
        ensures
            r == outcome(
                positive_split_refusal(total_amount, client_refund_bps, freelancer_payout_bps),
                client_first(total_amount as int, client_refund_bps, freelancer_payout_bps),
            ),
            final(env)@ == emergency_pause_split_refund_step(
                old(env)@,
                total_amount,
                client_refund_bps,
                freelancer_payout_bps,
            ),
    {
        if total_amount <= 0 {
            return Err(Error::InvalidAmount);
        }
        let allocation = Self::split_client_first(
            total_amount,
            client_refund_bps,
            freelancer_payout_bps,
        )?;
        env.publish(Event::EmergencyPauseSplitRefund(Self::as_calculated(&allocation)));
        Ok(allocation)
    }

    /// A division as it is announced.
    pub(crate) fn as_calculated(allocation: &RefundAllocation) -> (r: SplitRefundCalculatedEvent)
        ensures
            r == calculated(*allocation),
    {
        SplitRefundCalculatedEvent {
            client_refund: allocation.client_refund,
            freelancer_payout: allocation.freelancer_payout,
            client_refund_bps: allocation.client_refund_bps,
            freelancer_payout_bps: allocation.freelancer_payout_bps,
        }
    }

    /// The admin claims a refund by two shares in basis points, while the
    /// escrow is frozen.
    pub fn emergency_pause_claim_refund(
        env: &mut Env,
        admin: Address,
        total_amount: i128,
        client_refund_bps: u32,
        freelancer_payout_bps: u32,
    ) -> (r: Result<RefundAllocation, Error>)
        ensures
            r == outcome(
                emergency_pause_claim_refund_refusal(
                    old(env)@,
                    admin,
                    total_amount,
                    client_refund_bps,
                    freelancer_payout_bps,
                ),
                client_first(total_amount as int, client_refund_bps, freelancer_payout_bps),
            ),
            final(env)@ == emergency_pause_claim_refund_step(
                old(env)@,
                admin,
                total_amount,
                client_refund_bps,
                freelancer_payout_bps,
            ),
    {
        Self::require_admin(env, admin)?;
        Self::assert_emergency_pause_not_locked(env)?;
        if !Self::is_emergency_paused(env) {
            return Err(Error::NotPaused);
        }
        Self::emergency_pause_split_refund(
            env,
            total_amount,
            client_refund_bps,
            freelancer_payout_bps,
        )
    }

    /// Divides a frozen amount among weighted parties by largest remainder. Only the
    /// ratios of the weights matter.
    pub fn emergency_pause_allocation(
        env: &mut Env,
        total_amount: i128,
        weights: Amounts,
    ) -> (r: Result<Amounts, Error>)
        ensures
            match r {
                Ok(allocations) => {
                    &&& emergency_pause_allocation_refusal(total_amount, weights@) is None
                    &&& ints(allocations@) == allocation(total_amount as int, ints(weights@))
                },
                Err(error) => emergency_pause_allocation_refusal(total_amount, weights@) == Some(
                    error,
                ),
            },
            final(env)@ == emergency_pause_allocation_step(old(env)@, total_amount, weights@),
    {
        if total_amount <= 0 {
            return Err(Error::InvalidAmount);
        }
        if weights.len() == 0 || weights.len() > MAX_EMERGENCY_ALLOCATION_PARTIES {
            return Err(Error::InvalidAllocationWeights);
        }
        let allocations = Self::allocate_by_weights(
            total_amount,
            &weights,
            Error::InvalidAllocationWeights,
            Error::InvalidAmount,
        )?;
        let num_parties: u32 = allocations.len();
        let announced = allocations.clone();
        env.publish(
            Event::EmergencyPauseAllocation(
                EmergencyPauseAllocationEvent { total_amount, num_parties, allocations: announced },
            ),
        );
        Ok(allocations)
    }
}

} // verus!
