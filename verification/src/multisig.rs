//! Decisions by several signers.

use crate::address::Address;
use crate::allocation::{allocation, allocation_refusal, as_amounts, ints};
use crate::amounts::Amounts;
use crate::events::{Event, EventView, MultiSigApprovedEvent, MultiSigTransferAdminEvent};
use crate::guards::{admin_refusal, after, outcome};
use crate::ledger::{or_default, raised, EffectView, Env, Instance, Ledger, Temporary};
use crate::pause::{calculated, positive_split_refusal};
use crate::splits::client_first;
use crate::tables::lookup;
use crate::types::{
    Error, MilestoneEscrow, MultiSigApprovalState, RefundAllocation, MAX_MULTISIG_RATIO_COUNT,
    MAX_MULTISIG_SIGNERS,
};
use vstd::prelude::*;

verus! {

// ── the approval map ─────────────────────────────────────────────────────────

/// Signer `i` has approved.
pub open spec fn has_approved(bitmap: u32, i: u32) -> bool {
    (bitmap >> i) & 1 == 1
}

/// How many of the first `n` signers have approved.
pub open spec fn approvals_among(bitmap: u32, n: u32) -> u32
    decreases n,
{
    if n == 0 {
        0
    } else {
        (approvals_among(bitmap, (n - 1) as u32) + if has_approved(bitmap, (n - 1) as u32) {
            1int
        } else {
            0int
        }) as u32
    }
}

/// How many signers have approved.
pub open spec fn approvals_in(bitmap: u32) -> u32 {
    approvals_among(bitmap, 32)
}

/// The map in which signer `i` has approved too.
pub open spec fn with_approval(bitmap: u32, i: u32) -> u32 {
    bitmap | (1u32 << i)
}

proof fn lemma_approvals_bound(bitmap: u32, n: u32)
    ensures
        approvals_among(bitmap, n) <= n,
    decreases n,
{
    if n > 0 {
        lemma_approvals_bound(bitmap, (n - 1) as u32);
    }
}

/// An approval is recorded, and nobody else's is touched.
pub proof fn lemma_approval_is_recorded(bitmap: u32, i: u32, j: u32)
    requires
        i < 32,
        j < 32,
    ensures
        has_approved(with_approval(bitmap, i), i),
        j != i ==> has_approved(with_approval(bitmap, i), j) == has_approved(bitmap, j),
{
    assert(((bitmap | (1u32 << i)) >> i) & 1 == 1) by (bit_vector)
        requires
            i < 32,
    ;
    assert(j != i ==> ((bitmap | (1u32 << i)) >> j) & 1 == (bitmap >> j) & 1) by (bit_vector)
        requires
            i < 32,
            j < 32,
    ;
}

/// A signer who has approved already changes nothing by approving again.
pub proof fn lemma_approval_is_idempotent(bitmap: u32, i: u32)
    requires
        i < 32,
    ensures
        with_approval(with_approval(bitmap, i), i) == with_approval(bitmap, i),
        has_approved(bitmap, i) ==> with_approval(bitmap, i) == bitmap,
{
    assert((bitmap | (1u32 << i)) | (1u32 << i) == bitmap | (1u32 << i)) by (bit_vector);
    assert((bitmap >> i) & 1 == 1 ==> bitmap | (1u32 << i) == bitmap) by (bit_vector)
        requires
            i < 32,
    ;
}

proof fn lemma_approvals_grow(bitmap: u32, i: u32, n: u32)
    requires
        i < 32,
        n <= 32,
    ensures
        approvals_among(with_approval(bitmap, i), n) == approvals_among(bitmap, n) + if i < n
            && !has_approved(bitmap, i) {
            1int
        } else {
            0int
        },
    decreases n,
{
    if n > 0 {
        lemma_approvals_grow(bitmap, i, (n - 1) as u32);
        lemma_approval_is_recorded(bitmap, i, (n - 1) as u32);
        lemma_approvals_bound(bitmap, (n - 1) as u32);
        lemma_approvals_bound(with_approval(bitmap, i), (n - 1) as u32);
    }
}

/// An approval counts once: a signer's first approval adds one, every further
/// one adds nothing.
pub proof fn lemma_approvals_count_signers(bitmap: u32, i: u32)
    requires
        i < 32,
    ensures
        approvals_in(with_approval(bitmap, i)) == approvals_in(bitmap) + if has_approved(
            bitmap,
            i,
        ) {
            0int
        } else {
            1int
        },
        approvals_in(bitmap) <= 32,
{
    lemma_approvals_grow(bitmap, i, 32);
    lemma_approvals_bound(bitmap, 32);
}

proof fn lemma_no_approvals(n: u32)
    requires
        n <= 32,
    ensures
        approvals_among(0, n) == 0,
    decreases n,
{
    if n > 0 {
        lemma_no_approvals((n - 1) as u32);
        let i = (n - 1) as u32;
        assert((0u32 >> i) & 1 == 0) by (bit_vector);
    }
}

/// Before anybody has approved there are no approvals.
pub proof fn lemma_nobody_has_approved()
    ensures
        approvals_in(0) == 0,
{
    lemma_no_approvals(32);
}

// ── setting the signers up ───────────────────────────────────────────────────

/// Why signers and a threshold cannot be registered.
pub open spec fn setup_refusal(signers: Seq<Address>, threshold: u32) -> Option<Error> {
    if signers.len() == 0 {
        Some(Error::MultiSigNoSigners)
    } else if signers.len() > MAX_MULTISIG_SIGNERS {
        Some(Error::MultiSigTooManySigners)
    } else if threshold == 0 || threshold > signers.len() {
        Some(Error::MultiSigInvalidThreshold)
    } else if !signers.no_duplicates() {
        Some(Error::MultiSigDuplicateSigner)
    } else {
        None
    }
}

/// Why `multisig_approval_init` is refused, if it is.
pub open spec fn multisig_approval_init_refusal(
    l: Ledger,
    admin: Address,
    signers: Seq<Address>,
    threshold: u32,
) -> Option<Error> {
    if admin_refusal(l, admin) is Some {
        admin_refusal(l, admin)
    } else if l.instance.multisig_signers is Some {
        Some(Error::AlreadyInitialized)
    } else {
        setup_refusal(signers, threshold)
    }
}

/// What `multisig_approval_init` makes of the ledger.
pub open spec fn multisig_approval_init_step(
    l: Ledger,
    admin: Address,
    signers: Seq<Address>,
    threshold: u32,
) -> Ledger {
    after(
        multisig_approval_init_refusal(l, admin, signers, threshold),
        l.asked(admin),
        l.asked(admin).with_instance(
            Instance {
                multisig_signers: Some(signers),
                multisig_threshold: Some(threshold),
                ..l.instance
            },
        ),
    )
}

// ── approving ────────────────────────────────────────────────────────────────

/// Where `who` first occurs in `signers`, from position `from` on.
pub open spec fn position_from(signers: Seq<Address>, who: Address, from: nat) -> Option<nat>
    decreases signers.len() - from,
{
    if from >= signers.len() {
        None
    } else if signers[from as int] == who {
        Some(from)
    } else {
        position_from(signers, who, from + 1)
    }
}

/// Where `who` first occurs in `signers`.
pub open spec fn position(signers: Seq<Address>, who: Address) -> Option<nat> {
    position_from(signers, who, 0)
}

/// The approvals of a proposal: nobody's where none were recorded.
pub open spec fn bitmap_of(l: Ledger, proposal_id: u32) -> u32 {
    or_default(lookup(l.temporary.multisig_approvals, proposal_id), 0)
}

/// The state of a proposal with the given approvals.
pub open spec fn approval_state(bitmap: u32, threshold: u32) -> MultiSigApprovalState {
    MultiSigApprovalState {
        approved: approvals_in(bitmap) >= threshold,
        approvals: approvals_in(bitmap),
        threshold,
        bitmap,
    }
}

/// Why `multisig_approve` is refused, if it is.
pub open spec fn multisig_approve_refusal(l: Ledger, signer: Address) -> Option<Error> {
    if l.instance.job is None {
        Some(Error::NotInitialized)
    } else if raised(l.instance.multisig_locked) {
        Some(Error::EscrowLocked)
    } else if l.token_balance <= 0 {
        Some(Error::MultiSigEmptyBalance)
    } else if l.instance.multisig_signers is None || l.instance.multisig_threshold is None {
        Some(Error::NotInitialized)
    } else {
        match position(l.instance.multisig_signers->0, signer) {
            None => Some(Error::Unauthorized),
            Some(at) => if at >= 32 {
                Some(Error::InvalidAmount)
            } else {
                None
            },
        }
    }
}

/// The state of a proposal after `signer` has approved it.
pub open spec fn approved_state(
    l: Ledger,
    signer: Address,
    proposal_id: u32,
) -> MultiSigApprovalState {
    approval_state(
        with_approval(
            bitmap_of(l, proposal_id),
            position(l.instance.multisig_signers->0, signer)->0 as u32,
        ),
        l.instance.multisig_threshold->0,
    )
}

/// What `multisig_approve` makes of the ledger.
pub open spec fn multisig_approve_step(l: Ledger, signer: Address, proposal_id: u32) -> Ledger {
    let state = approved_state(l, signer, proposal_id);
    after(
        multisig_approve_refusal(l, signer),
        l.asked(signer),
        l.asked(signer).with_temporary(
            Temporary {
                multisig_approvals: l.temporary.multisig_approvals.insert(
                    proposal_id,
                    state.bitmap,
                ),
                ..l.temporary
            },
        ).announced(
            Event::MultiSigApproved(
                MultiSigApprovedEvent {
                    proposal_id,
                    signer,
                    approvals: state.approvals,
                    threshold: state.threshold,
                    approved: state.approved,
                    bitmap: state.bitmap,
                },
            ),
        ),
    )
}

// ── dividing and locking ─────────────────────────────────────────────────────

/// Why `multisig_transfer_admin` is refused, if it is.
pub open spec fn multisig_transfer_admin_refusal(
    l: Ledger,
    admin: Address,
    total_amount: i128,
    ratios: Seq<i128>,
) -> Option<Error> {
    if admin_refusal(l, admin) is Some {
        admin_refusal(l, admin)
    } else if total_amount <= 0 {
        Some(Error::InvalidAmount)
    } else if ratios.len() == 0 {
        Some(Error::InvalidRatio)
    } else if ratios.len() > MAX_MULTISIG_RATIO_COUNT {
        Some(Error::InvalidAmount)
    } else {
        allocation_refusal(
            total_amount as int,
            ints(ratios),
            Error::InvalidRatio,
            Error::InvalidRatio,
        )
    }
}

/// What `multisig_transfer_admin` makes of the ledger.
pub open spec fn multisig_transfer_admin_step(
    l: Ledger,
    admin: Address,
    total_amount: i128,
    ratios: Seq<i128>,
) -> Ledger {
    after(
        multisig_transfer_admin_refusal(l, admin, total_amount, ratios),
        l.asked(admin),
        l.asked(admin).with(
            EffectView::Publish(
                EventView::MultiSigTransferAdmin {
                    total_amount,
                    num_parties: ratios.len() as u32,
                    allocations: as_amounts(allocation(total_amount as int, ints(ratios))),
                },
            ),
        ),
    )
}

/// Why `multisig_split_refund` is refused, if it is.
pub open spec fn multisig_split_refund_refusal(
    l: Ledger,
    admin: Address,
    total_amount: i128,
    client_refund_bps: u32,
    freelancer_payout_bps: u32,
) -> Option<Error> {
    if admin_refusal(l, admin) is Some {
        admin_refusal(l, admin)
    } else if !raised(l.instance.multisig_locked) {
        Some(Error::InvalidStatus)
    } else {
        positive_split_refusal(total_amount, client_refund_bps, freelancer_payout_bps)
    }
}

/// What `multisig_split_refund` makes of the ledger.
pub open spec fn multisig_split_refund_step(
    l: Ledger,
    admin: Address,
    total_amount: i128,
    client_refund_bps: u32,
    freelancer_payout_bps: u32,
) -> Ledger {
    after(
        multisig_split_refund_refusal(
            l,
            admin,
            total_amount,
            client_refund_bps,
            freelancer_payout_bps,
        ),
        l.asked(admin),
        l.asked(admin).announced(
            Event::MultisigSplitRefund(
                calculated(
                    client_first(total_amount as int, client_refund_bps, freelancer_payout_bps),
                ),
            ),
        ),
    )
}

/// What `multisig_lock` makes of the ledger.
pub open spec fn multisig_lock_step(l: Ledger, admin: Address) -> Ledger {
    after(
        admin_refusal(l, admin),
        l.asked(admin),
        l.asked(admin).with_instance(Instance { multisig_locked: Some(true), ..l.instance }),
    )
}

proof fn lemma_position_from(signers: Seq<Address>, who: Address, from: nat, at: nat)
    requires
        from <= at <= signers.len(),
        forall|i: int| from <= i < at ==> signers[i] != who,
        at < signers.len() ==> signers[at as int] == who,
    ensures
        position_from(signers, who, from) == if at < signers.len() {
            Some(at)
        } else {
            None
        },
    decreases at - from,
{
    if from < at {
        lemma_position_from(signers, who, from + 1, at);
    }
}

impl MilestoneEscrow {
    /// Signers and a threshold that can be registered.
    fn validate_multisig_setup(signers: &Vec<Address>, threshold: u32) -> (r: Result<(), Error>)
        ensures
            r == outcome(setup_refusal(signers@, threshold), ()),
    {
        let count: usize = signers.len();
        if count == 0 {
            return Err(Error::MultiSigNoSigners);
        }
        if count > MAX_MULTISIG_SIGNERS as usize {
            return Err(Error::MultiSigTooManySigners);
        }
        if threshold == 0 || threshold as usize > count {
            return Err(Error::MultiSigInvalidThreshold);
        }
        let mut i: usize = 0;
        while i < count
            invariant
                i <= count == signers@.len(),
                count <= 32,
                0 < threshold <= count,
                forall|a: int, b: int|
                    0 <= a < i && a < b < count ==> signers@[a] != signers@[b],
            decreases count - i,
        {
            let mut j: usize = i + 1;
            while j < count
                invariant
                    i < j <= count == signers@.len(),
                    count <= 32,
                    0 < threshold <= count,
                    forall|b: int| i < b < j ==> signers@[i as int] != signers@[b],
                decreases count - j,
            {
                if signers[i] == signers[j] {
                    assert(!signers@.no_duplicates());
                    return Err(Error::MultiSigDuplicateSigner);
                }
                j = j + 1;
            }
            i = i + 1;
        }
        assert(signers@.no_duplicates()) by {
            assert forall|a: int, b: int|
                0 <= a < signers@.len() && 0 <= b < signers@.len() && a != b implies signers@[a]
                != signers@[b] by {
                if a < b {
                    assert(signers@[a] != signers@[b]);
                } else {
                    assert(signers@[b] != signers@[a]);
                }
            }
        }
        Ok(())
    }

    /// The admin registers the signers and how many of them must approve. This
    /// can be done once.
    pub fn multisig_approval_init(
        env: &mut Env,
        admin: Address,
        signers: Vec<Address>,
        threshold: u32,
    ) -> (r: Result<(), Error>)
        ensures
            r == outcome(
                multisig_approval_init_refusal(old(env)@, admin, signers@, threshold),
                (),
            ),
            final(env)@ == multisig_approval_init_step(old(env)@, admin, signers@, threshold),
    {
        Self::require_admin(env, admin)?;
        if env.multisig_signers.is_some() {
            return Err(Error::AlreadyInitialized);
        }
        Self::validate_multisig_setup(&signers, threshold)?;
        env.multisig_signers = Some(signers);
        env.multisig_threshold = Some(threshold);
        Ok(())
    }

    /// How many signers have approved.
    fn count_approvals(bitmap: u32) -> (r: u32)
        ensures
            r == approvals_in(bitmap),
    {
        let mut count: u32 = 0;
        let mut i: u32 = 0;
        while i < 32
            invariant
                i <= 32,
                count == approvals_among(bitmap, i),
                count <= i,
            decreases 32 - i,
        {
            proof {
                lemma_approvals_bound(bitmap, (i + 1) as u32);
            }
            if (bitmap >> i) & 1 == 1 {
                count = count + 1;
            }
            i = i + 1;
        }
        count
    }

    /// The state of a proposal with the given approvals.
    fn state_of(bitmap: u32, threshold: u32) -> (r: MultiSigApprovalState)
        ensures
            r == approval_state(bitmap, threshold),
    {
        let approvals: u32 = Self::count_approvals(bitmap);
        MultiSigApprovalState { approved: approvals >= threshold, approvals, threshold, bitmap }
    }

    /// The approvals of a proposal.
    fn load_bitmap(env: &Env, proposal_id: u32) -> (r: u32)
        ensures
            r == bitmap_of(env@, proposal_id),
    {
        match env.multisig_approvals.get(proposal_id) {
            Some(bitmap) => bitmap,
            None => 0,
        }
    }

    /// Where `signer` is registered.
    pub(crate) fn position_of(signers: &Vec<Address>, signer: Address) -> (r: Option<usize>)
        ensures
            match r {
                Some(at) => position(signers@, signer) == Some(at as nat),
                None => position(signers@, signer) is None,
            },
    {
        let mut at: usize = 0;
        while at < signers.len()
            invariant
                at <= signers@.len(),
                forall|i: int| 0 <= i < at ==> signers@[i] != signer,
            decreases signers@.len() - at,
        {
            if signers[at] == signer {
                proof {
                    lemma_position_from(signers@, signer, 0, at as nat);
                }
                return Some(at);
            }
            at = at + 1;
        }
        proof {
            lemma_position_from(signers@, signer, 0, at as nat);
        }
        None
    }

    /// A registered signer approves a proposal. Approving twice is no error and
    /// changes nothing. While the multisig workflow is locked nobody approves.
    pub fn multisig_approve(
        env: &mut Env,
        signer: Address,
        proposal_id: u32,
    ) -> (r: Result<MultiSigApprovalState, Error>)
        ensures
            r == outcome(
                multisig_approve_refusal(old(env)@, signer),
                approved_state(old(env)@, signer, proposal_id),
            ),
            final(env)@ == multisig_approve_step(old(env)@, signer, proposal_id),
    {
        env.require_auth(signer);
        if env.job.is_none() {
            return Err(Error::NotInitialized);
        }
        if Self::is_raised(env.multisig_locked) {
            return Err(Error::EscrowLocked);
        }
        if env.token_balance <= 0 {
            return Err(Error::MultiSigEmptyBalance);
        }
        let at: Option<usize> = match &env.multisig_signers {
            Some(signers) => Self::position_of(signers, signer),
            None => {
                return Err(Error::NotInitialized);
            },
        };
        let threshold: u32 = match env.multisig_threshold {
            Some(threshold) => threshold,
            None => {
                return Err(Error::NotInitialized);
            },
        };
        let index: u32 = match at {
            Some(at) => {
                if at >= 32 {
                    return Err(Error::InvalidAmount);
                }
                at as u32
            },
            None => {
                return Err(Error::Unauthorized);
            },
        };
        let bitmap: u32 = Self::load_bitmap(env, proposal_id) | (1u32 << index);
        env.multisig_approvals.set(proposal_id, bitmap);
        let state = Self::state_of(bitmap, threshold);
        env.publish(
            Event::MultiSigApproved(
                MultiSigApprovedEvent {
                    proposal_id,
                    signer,
                    approvals: state.approvals,
                    threshold: state.threshold,
                    approved: state.approved,
                    bitmap: state.bitmap,
                },
            ),
        );
        Ok(state)
    }

    /// Whether a proposal has been approved, and by how many.
    pub fn is_multisig_approved(
        env: &Env,
        proposal_id: u32,
    ) -> (r: Result<MultiSigApprovalState, Error>)
        ensures
            r == match env@.instance.multisig_threshold {
                Some(threshold) => Ok(approval_state(bitmap_of(env@, proposal_id), threshold)),
                None => Err(Error::NotInitialized),
            },
    {
        match env.multisig_threshold {
            Some(threshold) => Ok(Self::state_of(Self::load_bitmap(env, proposal_id), threshold)),
            None => Err(Error::NotInitialized),
        }
    }

    /// The admin divides an amount among weighted parties by largest remainder.
    pub fn multisig_transfer_admin(
        env: &mut Env,
        admin: Address,
        total_amount: i128,
        ratios: Amounts,
    ) -> (r: Result<Amounts, Error>)
        ensures
            match r {
                Ok(allocations) => {
                    &&& multisig_transfer_admin_refusal(
                        old(env)@,
                        admin,
                        total_amount,
                        ratios@,
                    ) is None
                    &&& ints(allocations@) == allocation(total_amount as int, ints(ratios@))
                },
                Err(error) => multisig_transfer_admin_refusal(
                    old(env)@,
                    admin,
                    total_amount,
                    ratios@,
                ) == Some(error),
            },
            final(env)@ == multisig_transfer_admin_step(
                old(env)@,
                admin,
                total_amount,
                ratios@,
            ),
    {
        Self::require_admin(env, admin)?;
        if total_amount <= 0 {
            return Err(Error::InvalidAmount);
        }
        if ratios.len() == 0 {
            return Err(Error::InvalidRatio);
        }
        if ratios.len() > MAX_MULTISIG_RATIO_COUNT {
            return Err(Error::InvalidAmount);
        }
        let allocations = Self::allocate_by_weights(
            total_amount,
            &ratios,
            Error::InvalidRatio,
            Error::InvalidRatio,
        )?;
        let num_parties: u32 = allocations.len();
        let announced = allocations.clone();
        env.publish(
            Event::MultiSigTransferAdmin(
                MultiSigTransferAdminEvent { total_amount, num_parties, allocations: announced },
            ),
        );
        Ok(allocations)
    }

    /// What a refund by two shares in basis points comes to, for a workflow
    /// that is locked.
    pub fn multisig_split_refund(
        env: &mut Env,
        admin: Address,
        total_amount: i128,
        client_refund_bps: u32,
        freelancer_payout_bps: u32,
    ) -> (r: Result<RefundAllocation, Error>)
        ensures
            r == outcome(
                multisig_split_refund_refusal(
                    old(env)@,
                    admin,
                    total_amount,
                    client_refund_bps,
                    freelancer_payout_bps,
                ),
                client_first(total_amount as int, client_refund_bps, freelancer_payout_bps),
            ),
            final(env)@ == multisig_split_refund_step(
                old(env)@,
                admin,
                total_amount,
                client_refund_bps,
                freelancer_payout_bps,
            ),
    {
        Self::require_admin(env, admin)?;
        if !Self::is_raised(env.multisig_locked) {
            return Err(Error::InvalidStatus);
        }
        if total_amount <= 0 {
            return Err(Error::InvalidAmount);
        }
        let allocation = Self::split_client_first(
            total_amount,
            client_refund_bps,
            freelancer_payout_bps,
        )?;
        env.publish(Event::MultisigSplitRefund(Self::as_calculated(&allocation)));
        Ok(allocation)
    }

    /// The admin locks the multisig workflow until an override unlocks it.
    pub fn multisig_lock(env: &mut Env, admin: Address) -> (r: Result<(), Error>)
        ensures
            r == outcome(admin_refusal(old(env)@, admin), ()),
            final(env)@ == multisig_lock_step(old(env)@, admin),
    {
        Self::require_admin(env, admin)?;
        env.multisig_locked = Some(true);
        Ok(())
    }

    /// Whether the multisig workflow is locked.
    pub fn is_multisig_locked(env: &Env) -> (r: bool)
        ensures
            r == raised(env@.instance.multisig_locked),
    {
        Self::is_raised(env.multisig_locked)
    }
}

} // verus!
