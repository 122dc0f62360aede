//! The state that the escrow reads and changes, and what it asks of the host.

use crate::address::Address;
use crate::events::{Event, EventView};
use crate::tables::{lookup, Scores, Slots};
use crate::types::{
    EscrowInterestYieldState, JobMeta, Milestone, PendingAdminTransfer, PlatformFeeAllocation,
    TaxWithholdingRecord,
};
use vstd::prelude::*;

verus! {

/// Something that the host does for the escrow. The host does these in order;
/// where one of them fails, the whole request fails and leaves no trace.
#[derive(Clone, Debug, PartialEq, Eq)]
pub enum Effect {
    /// The address must have signed the request.
    RequireAuth(Address),
    /// Tokens change hands.
    Transfer { token: Address, from: Address, to: Address, amount: i128 },
    /// An event is published under its topic.
    Publish(Event),
    /// The code of the contract is replaced by the code with this hash.
    UpdateWasm([u8; 32]),
}

/// An [`Effect`] as mathematics sees it.
pub enum EffectView {
    RequireAuth(Address),
    Transfer { token: Address, from: Address, to: Address, amount: i128 },
    Publish(EventView),
    UpdateWasm(Seq<u8>),
}

impl View for Effect {
    type V = EffectView;

    open spec fn view(&self) -> EffectView {
        match *self {
            Effect::RequireAuth(who) => EffectView::RequireAuth(who),
            Effect::Transfer { token, from, to, amount } => EffectView::Transfer {
                token,
                from,
                to,
                amount,
            },
            Effect::Publish(event) => EffectView::Publish(event@),
            Effect::UpdateWasm(hash) => EffectView::UpdateWasm(hash@),
        }
    }
}

/// The effects in a list.
pub open spec fn effects_in(effects: Seq<Effect>) -> Seq<EffectView> {
    Seq::new(effects.len(), |i: int| effects[i]@)
}

/// One request's view of the ledger: what the host reports, the contract's
/// stored entries, and the effects that the request has asked for.
///
/// A stored entry is `None`, or missing from its table, where nothing was ever
/// written under its key or the entry was removed or evicted.
#[derive(Clone, Debug)]
pub struct Env {
    /// The contract's own address.
    pub contract: Address,
    /// The time of the current ledger, in seconds.
    pub timestamp: u64,
    /// What the job's token reports as the contract's balance.
    pub token_balance: i128,
    // Instance entries.
    pub job: Option<JobMeta>,
    pub instance_admin: Option<Address>,
    pub version: Option<u32>,
    pub whitelist: Option<Vec<Address>>,
    pub emergency_paused: Option<bool>,
    pub platform_fee: Option<PlatformFeeAllocation>,
    pub interest_yield: Option<EscrowInterestYieldState>,
    pub paused: Option<bool>,
    pub multisig_locked: Option<bool>,
    pub cancel_lock: Option<bool>,
    pub multisig_signers: Option<Vec<Address>>,
    pub multisig_threshold: Option<u32>,
    pub tax_execution_lock: Option<bool>,
    pub platform_fee_lock: Option<bool>,
    pub emergency_pause_lock: Option<bool>,
    // Persistent entries.
    pub admin: Option<Address>,
    pub milestones: Slots<Milestone>,
    pub reputation: Scores,
    pub yield_rate_bps: Option<u32>,
    pub yield_accrued: Option<i128>,
    pub time_extensions: Slots<u64>,
    pub tax_records: Slots<TaxWithholdingRecord>,
    pub pending_admin_transfer: Option<PendingAdminTransfer>,
    // Temporary entries.
    pub delivered_at: Slots<u64>,
    pub milestone_released: Slots<bool>,
    pub dispute_lock: Slots<bool>,
    pub dispute_flag: Slots<bool>,
    pub multisig_approvals: Slots<u32>,
    pub arbitration_split_bps: Slots<u32>,
    /// What the host is asked to do.
    pub effects: Vec<Effect>,
}

/// The contents of an optional list.
pub open spec fn list_of(list: Option<Vec<Address>>) -> Option<Seq<Address>> {
    match list {
        Some(items) => Some(items@),
        None => None,
    }
}

/// The entries that live as long as the contract.
#[verifier::ext_equal]
pub struct Instance {
    pub job: Option<JobMeta>,
    pub instance_admin: Option<Address>,
    pub version: Option<u32>,
    pub whitelist: Option<Seq<Address>>,
    pub emergency_paused: Option<bool>,
    pub platform_fee: Option<PlatformFeeAllocation>,
    pub interest_yield: Option<EscrowInterestYieldState>,
    pub paused: Option<bool>,
    pub multisig_locked: Option<bool>,
    pub cancel_lock: Option<bool>,
    pub multisig_signers: Option<Seq<Address>>,
    pub multisig_threshold: Option<u32>,
    pub tax_execution_lock: Option<bool>,
    pub platform_fee_lock: Option<bool>,
    pub emergency_pause_lock: Option<bool>,
}

/// The entries that live on their own.
#[verifier::ext_equal]
pub struct Persistent {
    pub admin: Option<Address>,
    pub milestones: Map<u32, Milestone>,
    pub reputation: Map<Address, u32>,
    pub yield_rate_bps: Option<u32>,
    pub yield_accrued: Option<i128>,
    pub time_extensions: Map<u32, u64>,
    pub tax_records: Map<u32, TaxWithholdingRecord>,
    pub pending_admin_transfer: Option<PendingAdminTransfer>,
}

/// The short-lived entries.
#[verifier::ext_equal]
pub struct Temporary {
    pub delivered_at: Map<u32, u64>,
    pub milestone_released: Map<u32, bool>,
    pub dispute_lock: Map<u32, bool>,
    pub dispute_flag: Map<u32, bool>,
    pub multisig_approvals: Map<u32, u32>,
    pub arbitration_split_bps: Map<u32, u32>,
}

/// An [`Env`] as mathematics sees it, with the entries of each tier together.
#[verifier::ext_equal]
pub struct Ledger {
    pub contract: Address,
    pub timestamp: u64,
    pub token_balance: i128,
    pub instance: Instance,
    pub persistent: Persistent,
    pub temporary: Temporary,
    pub effects: Seq<EffectView>,
}

impl View for Env {
    type V = Ledger;

    open spec fn view(&self) -> Ledger {
        Ledger {
            contract: self.contract,
            timestamp: self.timestamp,
            token_balance: self.token_balance,
            instance: Instance {
                job: self.job,
                instance_admin: self.instance_admin,
                version: self.version,
                whitelist: list_of(self.whitelist),
                emergency_paused: self.emergency_paused,
                platform_fee: self.platform_fee,
                interest_yield: self.interest_yield,
                paused: self.paused,
                multisig_locked: self.multisig_locked,
                cancel_lock: self.cancel_lock,
                multisig_signers: list_of(self.multisig_signers),
                multisig_threshold: self.multisig_threshold,
                tax_execution_lock: self.tax_execution_lock,
                platform_fee_lock: self.platform_fee_lock,
                emergency_pause_lock: self.emergency_pause_lock,
            },
            persistent: Persistent {
                admin: self.admin,
                milestones: self.milestones@,
                reputation: self.reputation@,
                yield_rate_bps: self.yield_rate_bps,
                yield_accrued: self.yield_accrued,
                time_extensions: self.time_extensions@,
                tax_records: self.tax_records@,
                pending_admin_transfer: self.pending_admin_transfer,
            },
            temporary: Temporary {
                delivered_at: self.delivered_at@,
                milestone_released: self.milestone_released@,
                dispute_lock: self.dispute_lock@,
                dispute_flag: self.dispute_flag@,
                multisig_approvals: self.multisig_approvals@,
                arbitration_split_bps: self.arbitration_split_bps@,
            },
            effects: effects_in(self.effects@),
        }
    }
}

/// The ledger entries of a contract on which no request was ever made.
pub open spec fn untouched(contract: Address, timestamp: u64, token_balance: i128) -> Ledger {
    Ledger {
        contract,
        timestamp,
        token_balance,
        instance: Instance {
            job: None,
            instance_admin: None,
            version: None,
            whitelist: None,
            emergency_paused: None,
            platform_fee: None,
            interest_yield: None,
            paused: None,
            multisig_locked: None,
            cancel_lock: None,
            multisig_signers: None,
            multisig_threshold: None,
            tax_execution_lock: None,
            platform_fee_lock: None,
            emergency_pause_lock: None,
        },
        persistent: Persistent {
            admin: None,
            milestones: Map::empty(),
            reputation: Map::empty(),
            yield_rate_bps: None,
            yield_accrued: None,
            time_extensions: Map::empty(),
            tax_records: Map::empty(),
            pending_admin_transfer: None,
        },
        temporary: Temporary {
            delivered_at: Map::empty(),
            milestone_released: Map::empty(),
            dispute_lock: Map::empty(),
            dispute_flag: Map::empty(),
            multisig_approvals: Map::empty(),
            arbitration_split_bps: Map::empty(),
        },
        effects: Seq::empty(),
    }
}

/// What a flag says: one that is absent is down.
pub open spec fn raised(flag: Option<bool>) -> bool {
    flag == Some(true)
}

/// The number in an entry, or `default` where there is none.
pub open spec fn or_default<T>(entry: Option<T>, default: T) -> T {
    match entry {
        Some(value) => value,
        None => default,
    }
}

impl Ledger {
    /// The same ledger with other instance entries.
    pub open spec fn with_instance(self, instance: Instance) -> Ledger {
        Ledger { instance, ..self }
    }

    /// The same ledger with other persistent entries.
    pub open spec fn with_persistent(self, persistent: Persistent) -> Ledger {
        Ledger { persistent, ..self }
    }

    /// The same ledger with other temporary entries.
    pub open spec fn with_temporary(self, temporary: Temporary) -> Ledger {
        Ledger { temporary, ..self }
    }

    /// The same ledger with no yield booked.
    pub open spec fn yield_reset(self) -> Ledger {
        self.with_persistent(Persistent { yield_accrued: Some(0), ..self.persistent })
    }

    /// The same ledger with the client's share of an award noted.
    pub open spec fn with_split_bps(self, index: u32, client_refund_bps: u32) -> Ledger {
        self.with_temporary(
            Temporary {
                arbitration_split_bps: self.temporary.arbitration_split_bps.insert(
                    index,
                    client_refund_bps,
                ),
                ..self.temporary
            },
        )
    }

    /// The same ledger with one more effect asked for.
    pub open spec fn with(self, effect: EffectView) -> Ledger {
        Ledger { effects: self.effects.push(effect), ..self }
    }

    /// `who` must have signed.
    pub open spec fn asked(self, who: Address) -> Ledger {
        self.with(EffectView::RequireAuth(who))
    }

    /// Both `first` and `second` must have signed.
    pub open spec fn asked_both(self, first: Address, second: Address) -> Ledger {
        self.asked(first).asked(second)
    }

    /// The contract pays `amount` of the job's token to `to`.
    pub open spec fn paid(self, token: Address, to: Address, amount: int) -> Ledger {
        self.with(
            EffectView::Transfer { token, from: self.contract, to, amount: amount as i128 },
        )
    }

    /// The contract pays `amount` to `to` where there is anything to pay.
    pub open spec fn paid_if_positive(self, token: Address, to: Address, amount: int) -> Ledger {
        if amount > 0 {
            self.paid(token, to, amount)
        } else {
            self
        }
    }

    /// `event` is published.
    pub open spec fn announced(self, event: Event) -> Ledger {
        self.with(EffectView::Publish(event@))
    }

    /// The milestone at `index`, if there is one.
    pub open spec fn milestone(self, index: u32) -> Option<Milestone> {
        lookup(self.persistent.milestones, index)
    }

    /// The same ledger with another milestone at `index`.
    pub open spec fn with_milestone(self, index: u32, milestone: Milestone) -> Ledger {
        self.with_persistent(
            Persistent {
                milestones: self.persistent.milestones.insert(index, milestone),
                ..self.persistent
            },
        )
    }

    /// The reputation of `who`: 0 where none was earned.
    pub open spec fn reputation_of(self, who: Address) -> u32 {
        or_default(lookup(self.persistent.reputation, who), 0)
    }

    /// The same ledger with one more point of reputation for `who`.
    pub open spec fn rewarded(self, who: Address) -> Ledger {
        self.with_persistent(
            Persistent {
                reputation: self.persistent.reputation.insert(
                    who,
                    (self.reputation_of(who) + 1) as u32,
                ),
                ..self.persistent
            },
        )
    }

    /// The same ledger with one more point for the client and the freelancer.
    pub open spec fn both_rewarded(self, job: JobMeta) -> Ledger {
        self.rewarded(job.client).rewarded(job.freelancer)
    }

    /// Neither counter of the two parties is at the end of its range.
    pub open spec fn can_reward(self, job: JobMeta) -> bool {
        &&& self.reputation_of(job.client) < u32::MAX
        &&& self.rewarded(job.client).reputation_of(job.freelancer) < u32::MAX
    }

    /// How many seconds the automatic release of a milestone was put off.
    pub open spec fn extension(self, index: u32) -> u64 {
        or_default(lookup(self.persistent.time_extensions, index), 0)
    }
}

impl Env {
    /// The environment of a contract on which no request was ever made.
    pub fn new(contract: Address, timestamp: u64, token_balance: i128) -> (r: Env)
        ensures
            r@ == untouched(contract, timestamp, token_balance),
    {
        let env = Env {
            contract,
            timestamp,
            token_balance,
            job: None,
            instance_admin: None,
            version: None,
            whitelist: None,
            emergency_paused: None,
            platform_fee: None,
            interest_yield: None,
            paused: None,
            multisig_locked: None,
            cancel_lock: None,
            multisig_signers: None,
            multisig_threshold: None,
            tax_execution_lock: None,
            platform_fee_lock: None,
            emergency_pause_lock: None,
            admin: None,
            milestones: Slots::new(),
            reputation: Scores::new(),
            yield_rate_bps: None,
            yield_accrued: None,
            time_extensions: Slots::new(),
            tax_records: Slots::new(),
            pending_admin_transfer: None,
            delivered_at: Slots::new(),
            milestone_released: Slots::new(),
            dispute_lock: Slots::new(),
            dispute_flag: Slots::new(),
            multisig_approvals: Slots::new(),
            arbitration_split_bps: Slots::new(),
            effects: Vec::new(),
        };
        assert(env@ =~= untouched(contract, timestamp, token_balance));
        env
    }

    fn push(&mut self, effect: Effect)
        ensures
            final(self)@ == old(self)@.with(effect@),
    {
        self.effects.push(effect);
        assert(self@ =~= old(self)@.with(effect@));
    }

    /// Demands that `who` has signed.
    pub fn require_auth(&mut self, who: Address)
        ensures
            final(self)@ == old(self)@.asked(who),
    {
        self.push(Effect::RequireAuth(who));
    }

    /// Publishes `event`.
    pub fn publish(&mut self, event: Event)
        ensures
            final(self)@ == old(self)@.announced(event),
    {
        self.push(Effect::Publish(event));
    }

    /// Pays `amount` of `token` to `to`, out of the contract's balance.
    pub fn pay(&mut self, token: Address, to: Address, amount: i128)
        ensures
            final(self)@ == old(self)@.paid(token, to, amount as int),
    {
        let from = self.contract;
        self.push(Effect::Transfer { token, from, to, amount });
    }

    /// Takes `amount` of `token` from `from` into the contract's balance.
    pub fn deposit(&mut self, token: Address, from: Address, amount: i128)
        ensures
            final(self)@ == old(self)@.with(
                EffectView::Transfer { token, from, to: old(self)@.contract, amount },
            ),
    {
        let to = self.contract;
        self.push(Effect::Transfer { token, from, to, amount });
    }

    /// Replaces the code of the contract.
    pub fn update_current_contract_wasm(&mut self, new_wasm_hash: [u8; 32])
        ensures
            final(self)@ == old(self)@.with(EffectView::UpdateWasm(new_wasm_hash@)),
    {
        self.push(Effect::UpdateWasm(new_wasm_hash));
    }
}

} // verus!
