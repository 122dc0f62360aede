//! The escrow as its users meet it: through a host that keeps the ledger,
//! checks signatures, moves tokens and collects events.

#![allow(unused_variables)]

use milestone_escrow::{
    Address, Amounts, CancelEscrowInitiatedEvent, DataKey, DisputeResolvedEvent, Effect,
    Env as Escrow, Error, EscrowInterestYieldState, Event, FundedEvent, Job, Milestone,
    MilestoneEscrow, MilestoneStatus, MilestoneTimeExtensionEvent, MultiSigApprovalState,
    MultiSigApprovedEvent, MultisigAdminOverrideRefundEvent, MultisigAdminOverrideReleaseEvent,
    PaymentStreamingEvent, PlatformFeeAllocation, PlatformFeeDistribution, RatioSplit,
    RefundAllocation, TaxWithholdingRecord, TokenWhitelistedEvent,
};
use soroban_sdk::testutils::{Address as _, EnvTestConfig};
use std::cell::RefCell;
use std::convert::Infallible;
use std::marker::PhantomData;
use std::rc::Rc;

// ── the host ─────────────────────────────────────────────────────────────────

/// A request that the host gave up on: a signature is missing, or a call into
/// another contract failed.
#[derive(Clone, Copy, Debug, PartialEq, Eq)]
struct Abort;

/// What a client learns of a request.
type Tried<T> = Result<Result<T, Infallible>, Result<Error, Abort>>;

/// Who has signed.
#[derive(Clone)]
enum Signatures {
    Everybody,
    Only(Vec<Address>),
}

impl Signatures {
    fn cover(&self, who: &Address) -> bool {
        match self {
            Signatures::Everybody => true,
            Signatures::Only(signers) => signers.contains(who),
        }
    }
}

/// How a token treats a transfer.
#[derive(Clone, Copy, PartialEq, Eq)]
enum Manners {
    /// Fails where the balance does not suffice.
    Strict,
    /// Does nothing where the balance does not suffice.
    Lenient,
    /// Calls back into both parties of the transfer before it moves anything.
    Reentrant,
}

#[derive(Clone)]
struct Token {
    id: Address,
    manners: Manners,
    balances: Vec<(Address, i128)>,
    /// Whether it has called back, and whether a call back was ever let in.
    called_back: bool,
    let_in: bool,
}

impl Token {
    fn balance(&self, who: &Address) -> i128 {
        self.balances.iter().find(|(holder, _)| holder == who).map_or(0, |(_, amount)| *amount)
    }

    fn set_balance(&mut self, who: &Address, amount: i128) {
        self.balances.retain(|(holder, _)| holder != who);
        self.balances.push((*who, amount));
    }

    fn transfer(&mut self, from: &Address, to: &Address, amount: i128) -> Result<(), Abort> {
        match self.manners {
            Manners::Strict => {
                if amount < 0 || self.balance(from) < amount {
                    return Err(Abort);
                }
            }
            Manners::Lenient => {
                if amount <= 0 || self.balance(from) < amount {
                    return Ok(());
                }
            }
            Manners::Reentrant => {}
        }
        self.set_balance(from, self.balance(from) - amount);
        self.set_balance(to, self.balance(to) + amount);
        Ok(())
    }
}

struct Host {
    sdk: soroban_sdk::Env,
    timestamp: u64,
    signatures: Signatures,
    escrows: Vec<Escrow>,
    tokens: Vec<Token>,
    events: Vec<(Address, Topics, Event)>,
    running: Option<Address>,
    /// The contracts that are running, the innermost last.
    entered: Vec<Address>,
}

impl Host {
    fn new_address(&self) -> Address {
        let address = soroban_sdk::Address::generate(&self.sdk).to_string();
        let mut strkey = [0u8; 56];
        address.copy_into_slice(&mut strkey);
        Address::from_strkey(&strkey)
    }

    fn token(&mut self, id: &Address) -> Result<&mut Token, Abort> {
        self.tokens.iter_mut().find(|token| token.id == *id).ok_or(Abort)
    }

    fn escrow(&mut self, id: &Address) -> &mut Escrow {
        self.escrows.iter_mut().find(|escrow| escrow.contract == *id).expect("not an escrow")
    }

    /// The ledger as a request to `id` finds it.
    fn ledger_of(&mut self, id: &Address) -> Escrow {
        let mut ledger = self.escrow(id).clone();
        ledger.timestamp = self.timestamp;
        ledger.token_balance = match ledger.job {
            Some(job) => self.token(&job.token).map_or(0, |token| token.balance(id)),
            None => 0,
        };
        ledger
    }

    /// Does what the request asks for, in order.
    fn perform(&mut self, effects: &[Effect], signatures: &Signatures) -> Result<(), Abort> {
        for effect in effects {
            match effect {
                Effect::RequireAuth(who) => {
                    if !signatures.cover(who) {
                        return Err(Abort);
                    }
                }
                Effect::Transfer { token, from, to, amount } => {
                    if self.token(token)?.manners == Manners::Reentrant {
                        self.call_back(token, to);
                        self.call_back(token, from);
                    }
                    self.token(token)?.transfer(from, to, *amount)?;
                }
                Effect::Publish(event) => {
                    let topics = Topics(vec![Val(event.topic())]);
                    self.events.push((self.running.unwrap(), topics, event.clone()));
                }
                // No code was ever uploaded, so there is none to change to.
                Effect::UpdateWasm(_) => return Err(Abort),
            }
        }
        Ok(())
    }

    /// The token tries to have the escrow `id` divide its first milestone while
    /// a transfer is under way.
    fn call_back(&mut self, token: &Address, id: &Address) {
        if !self.escrows.iter().any(|escrow| escrow.contract == *id) {
            return;
        }
        let signatures = self.signatures.clone();
        let job = self.request(id, &signatures, |ledger| MilestoneEscrow::get_job(ledger));
        let let_in = job.is_ok();
        if let Ok(Ok(job)) = job {
            let _ = self.request(id, &signatures, |ledger| {
                MilestoneEscrow::apply_dispute_arbitration_split(ledger, job.arbiter, 0, 5_000)
            });
        }
        let token = self.token(token).unwrap();
        token.called_back = true;
        token.let_in |= let_in;
    }

    /// Makes a request: all of it happens, or nothing does. A contract that is
    /// running cannot be entered again.
    fn request<T>(
        &mut self,
        id: &Address,
        signatures: &Signatures,
        request: impl FnOnce(&mut Escrow) -> Result<T, Error>,
    ) -> Tried<T> {
        if self.entered.contains(id) {
            return Err(Err(Abort));
        }
        let tokens = self.tokens.clone();
        let mut ledger = self.ledger_of(id);
        self.events.clear();
        self.running = Some(*id);
        let reply = request(&mut ledger);
        let effects = std::mem::take(&mut ledger.effects);
        self.entered.push(*id);
        let performed = self.perform(&effects, signatures);
        self.entered.pop();
        match (performed, reply) {
            (Ok(()), Ok(value)) => {
                *self.escrow(id) = ledger;
                Ok(Ok(value))
            }
            (performed, reply) => {
                self.tokens = tokens;
                self.events.clear();
                match (performed, reply) {
                    (Ok(()), Err(error)) => Err(Ok(error)),
                    _ => Err(Err(Abort)),
                }
            }
        }
    }
}

/// A handle on the host.
#[derive(Clone)]
struct Env(Rc<RefCell<Host>>);

impl Default for Env {
    fn default() -> Env {
        let config = EnvTestConfig { capture_snapshot_at_drop: false };
        Env(Rc::new(RefCell::new(Host {
            sdk: soroban_sdk::Env::new_with_config(config),
            timestamp: 0,
            signatures: Signatures::Only(Vec::new()),
            escrows: Vec::new(),
            tokens: Vec::new(),
            events: Vec::new(),
            running: None,
            entered: Vec::new(),
        })))
    }
}

struct LedgerInfo {
    timestamp: u64,
}

struct LedgerHandle(Env);

impl LedgerHandle {
    fn with_mut(&self, change: impl FnOnce(&mut LedgerInfo)) {
        let mut host = self.0 .0.borrow_mut();
        let mut info = LedgerInfo { timestamp: host.timestamp };
        change(&mut info);
        host.timestamp = info.timestamp;
    }
}

struct EventsHandle(Env);

impl EventsHandle {
    fn all(&self) -> Vec<(Address, Topics, Event)> {
        self.0 .0.borrow().events.clone()
    }
}

impl Env {
    fn sdk(&self) -> soroban_sdk::Env {
        self.0.borrow().sdk.clone()
    }

    fn mock_all_auths(&self) {
        self.0.borrow_mut().signatures = Signatures::Everybody;
    }

    fn set_auths(&self, signers: &[Address]) {
        self.0.borrow_mut().signatures = Signatures::Only(signers.to_vec());
    }

    fn ledger(&self) -> LedgerHandle {
        LedgerHandle(self.clone())
    }

    fn events(&self) -> EventsHandle {
        EventsHandle(self.clone())
    }

    fn storage(&self) -> Storage {
        Storage(self.clone())
    }

    fn register<C: Registered>(&self, contract: C, (): ()) -> Address {
        contract.register(self)
    }

    fn register_token(&self, manners: Manners) -> Address {
        let mut host = self.0.borrow_mut();
        let id = host.new_address();
        host.tokens.push(
            Token { id, manners, balances: Vec::new(), called_back: false, let_in: false },
        );
        id
    }

    fn register_stellar_asset_contract_v2(&self, _issuer: Address) -> StellarAsset {
        StellarAsset(self.register_token(Manners::Strict))
    }

    fn as_contract<T>(&self, id: &Address, inside: impl FnOnce() -> T) -> T {
        self.0.borrow_mut().running = Some(*id);
        inside()
    }
}

struct StellarAsset(Address);

impl StellarAsset {
    fn address(&self) -> Address {
        self.0
    }
}

trait Registered {
    fn register(self, env: &Env) -> Address;
}

impl Registered for MilestoneEscrow {
    fn register(self, env: &Env) -> Address {
        let mut host = env.0.borrow_mut();
        let id = host.new_address();
        host.escrows.push(Escrow::new(id, 0, 0));
        id
    }
}

struct MockToken;

impl Registered for MockToken {
    fn register(self, env: &Env) -> Address {
        env.register_token(Manners::Lenient)
    }
}

struct ReentrantToken;

impl Registered for ReentrantToken {
    fn register(self, env: &Env) -> Address {
        env.register_token(Manners::Reentrant)
    }
}

/// Addresses out of the blue, and from their strkeys.
trait Addresses {
    fn generate(env: &Env) -> Address;
    fn from_str(env: &Env, strkey: &str) -> Address;
}

impl Addresses for Address {
    fn generate(env: &Env) -> Address {
        env.0.borrow().new_address()
    }

    fn from_str(env: &Env, strkey: &str) -> Address {
        let address = soroban_sdk::Address::from_str(&env.sdk(), strkey).to_string();
        let mut bytes = [0u8; 56];
        address.copy_into_slice(&mut bytes);
        Address::from_strkey(&bytes)
    }
}

/// What can stand in a list.
trait Listed: Sized {
    type List;
    fn list(env: &Env, items: Vec<Self>) -> Self::List;
}

impl Listed for i128 {
    type List = soroban_sdk::Vec<i128>;

    fn list(env: &Env, items: Vec<i128>) -> soroban_sdk::Vec<i128> {
        soroban_sdk::Vec::from_slice(&env.sdk(), &items)
    }
}

impl Listed for Address {
    type List = Vec<Address>;

    fn list(_env: &Env, items: Vec<Address>) -> Vec<Address> {
        items
    }
}

fn list<T: Listed, const N: usize>(env: &Env, items: [T; N]) -> T::List {
    T::list(env, Vec::from(items))
}

fn no_amounts(env: &Env) -> soroban_sdk::Vec<i128> {
    soroban_sdk::Vec::new(&env.sdk())
}

// ── stored entries ───────────────────────────────────────────────────────────

struct Storage(Env);

impl Storage {
    fn instance(&self) -> Tier {
        Tier(self.0.clone())
    }

    fn persistent(&self) -> Tier {
        Tier(self.0.clone())
    }

    fn temporary(&self) -> Tier {
        Tier(self.0.clone())
    }
}

struct Tier(Env);

impl Tier {
    fn get<K: Named, V: Entry>(&self, key: &K) -> Option<V> {
        let mut host = self.0 .0.borrow_mut();
        let id = host.running.unwrap();
        V::read(host.escrow(&id), key.name())
    }

    fn set<K: Named, V: Entry>(&self, key: &K, value: &V) {
        let mut host = self.0 .0.borrow_mut();
        let id = host.running.unwrap();
        value.write(host.escrow(&id), key.name());
    }

    fn has(&self, key: &DataKey) -> bool {
        let entry: Option<Milestone> = self.get(key);
        entry.is_some()
    }

    fn remove(&self, key: &DataKey) {
        let mut host = self.0 .0.borrow_mut();
        let id = host.running.unwrap();
        match key {
            DataKey::Milestone(index) => host.escrow(&id).milestones.remove(*index),
            _ => unreachable!(),
        }
    }
}

trait Named {
    fn name(&self) -> DataKey;
}

impl Named for DataKey {
    fn name(&self) -> DataKey {
        *self
    }
}

/// A value that is stored under a key.
trait Entry: Sized {
    fn read(ledger: &Escrow, key: DataKey) -> Option<Self>;
    fn write(&self, ledger: &mut Escrow, key: DataKey);
}

impl Entry for Milestone {
    fn read(ledger: &Escrow, key: DataKey) -> Option<Milestone> {
        match key {
            DataKey::Milestone(index) => ledger.milestones.get(index),
            _ => unreachable!(),
        }
    }

    fn write(&self, ledger: &mut Escrow, key: DataKey) {
        match key {
            DataKey::Milestone(index) => ledger.milestones.set(index, *self),
            _ => unreachable!(),
        }
    }
}

impl Entry for bool {
    fn read(ledger: &Escrow, key: DataKey) -> Option<bool> {
        match key {
            DataKey::MilestoneReleased(index) => ledger.milestone_released.get(index),
            DataKey::DisputeFlag(index) => ledger.dispute_flag.get(index),
            DataKey::CancelLock => ledger.cancel_lock,
            _ => unreachable!(),
        }
    }

    fn write(&self, ledger: &mut Escrow, key: DataKey) {
        match key {
            DataKey::CancelLock => ledger.cancel_lock = Some(*self),
            _ => unreachable!(),
        }
    }
}

impl Entry for i128 {
    fn read(ledger: &Escrow, key: DataKey) -> Option<i128> {
        match key {
            DataKey::YieldAccrued => ledger.yield_accrued,
            _ => unreachable!(),
        }
    }

    fn write(&self, ledger: &mut Escrow, key: DataKey) {
        match key {
            DataKey::YieldAccrued => ledger.yield_accrued = Some(*self),
            _ => unreachable!(),
        }
    }
}

// ── events ───────────────────────────────────────────────────────────────────

#[derive(Clone, Copy, Debug, PartialEq, Eq)]
struct Val(&'static str);

impl Val {
    fn get_payload(&self) -> &'static str {
        self.0
    }

    fn try_into_val(&self, _env: &Env) -> Result<Symbol, Infallible> {
        Ok(Symbol(self.0))
    }
}

#[derive(Clone, Copy, Debug, PartialEq, Eq)]
struct Symbol(&'static str);

impl Symbol {
    fn new(_env: &Env, name: &'static str) -> Symbol {
        Symbol(name)
    }

    fn into_val(self, _env: &Env) -> Val {
        Val(self.0)
    }
}

#[derive(Clone, Debug)]
struct Topics(Vec<Val>);

impl Topics {
    fn get(&self, index: usize) -> Option<Val> {
        self.0.get(index).copied()
    }

    fn len(&self) -> usize {
        self.0.len()
    }
}

/// The payload of an event.
trait FromVal {
    fn from_val(env: &Env, event: &Event) -> Self;
}

impl FromVal for CancelEscrowInitiatedEvent {
    fn from_val(_env: &Env, event: &Event) -> CancelEscrowInitiatedEvent {
        match event {
            Event::CancelEscrowInitiated(payload) => *payload,
            _ => unreachable!(),
        }
    }
}

impl FromVal for DisputeResolvedEvent {
    fn from_val(_env: &Env, event: &Event) -> DisputeResolvedEvent {
        match event {
            Event::DisputeResolved(payload) => *payload,
            _ => unreachable!(),
        }
    }
}

impl FromVal for FundedEvent {
    fn from_val(_env: &Env, event: &Event) -> FundedEvent {
        match event {
            Event::Funded(payload) => *payload,
            _ => unreachable!(),
        }
    }
}

impl FromVal for MilestoneTimeExtensionEvent {
    fn from_val(_env: &Env, event: &Event) -> MilestoneTimeExtensionEvent {
        match event {
            Event::MilestoneTimeExtension(payload) => *payload,
            _ => unreachable!(),
        }
    }
}

impl FromVal for MultiSigApprovedEvent {
    fn from_val(_env: &Env, event: &Event) -> MultiSigApprovedEvent {
        match event {
            Event::MultiSigApproved(payload) => *payload,
            _ => unreachable!(),
        }
    }
}

impl FromVal for MultisigAdminOverrideRefundEvent {
    fn from_val(_env: &Env, event: &Event) -> MultisigAdminOverrideRefundEvent {
        match event {
            Event::MultisigAdminOverrideRefund(payload) => *payload,
            _ => unreachable!(),
        }
    }
}

impl FromVal for MultisigAdminOverrideReleaseEvent {
    fn from_val(_env: &Env, event: &Event) -> MultisigAdminOverrideReleaseEvent {
        match event {
            Event::MultisigAdminOverrideRelease(payload) => *payload,
            _ => unreachable!(),
        }
    }
}

impl FromVal for PaymentStreamingEvent {
    fn from_val(_env: &Env, event: &Event) -> PaymentStreamingEvent {
        match event {
            Event::PaymentStreaming(payload) => *payload,
            _ => unreachable!(),
        }
    }
}

impl FromVal for TokenWhitelistedEvent {
    fn from_val(_env: &Env, event: &Event) -> TokenWhitelistedEvent {
        match event {
            Event::TokenWhitelisted(payload) => *payload,
            _ => unreachable!(),
        }
    }
}

// ── clients ──────────────────────────────────────────────────────────────────

struct TokenClient<'a> {
    env: Env,
    id: Address,
    borrowed: PhantomData<&'a Env>,
}

type StellarAssetClient<'a> = TokenClient<'a>;
type MockTokenClient<'a> = TokenClient<'a>;
type ReentrantTokenClient<'a> = TokenClient<'a>;

impl<'a> TokenClient<'a> {
    fn new(env: &'a Env, id: &Address) -> TokenClient<'a> {
        TokenClient { env: env.clone(), id: *id, borrowed: PhantomData }
    }

    fn mint(&self, to: &Address, amount: &i128) {
        let mut host = self.env.0.borrow_mut();
        let token = host.token(&self.id).unwrap();
        token.set_balance(to, token.balance(to) + amount);
    }

    fn balance(&self, who: &Address) -> i128 {
        self.env.0.borrow_mut().token(&self.id).unwrap().balance(who)
    }

    fn transfer(&self, from: &Address, to: &Address, amount: &i128) {
        self.env.0.borrow_mut().token(&self.id).unwrap().transfer(from, to, *amount).unwrap();
    }

    fn callback_attempted(&self) -> bool {
        self.env.0.borrow_mut().token(&self.id).unwrap().called_back
    }

    fn callback_let_in(&self) -> bool {
        self.env.0.borrow_mut().token(&self.id).unwrap().let_in
    }
}

struct MilestoneEscrowClient<'a> {
    env: Env,
    address: Address,
    signatures: Option<Signatures>,
    borrowed: PhantomData<&'a Env>,
}

fn granted<T>(tried: Tried<T>) -> T {
    match tried {
        Ok(Ok(value)) => value,
        Ok(Err(never)) => match never {},
        Err(refused) => panic!("the request failed: {:?}", refused),
    }
}

fn amounts(list: &soroban_sdk::Vec<i128>) -> Amounts {
    Amounts::read(list.clone()).expect("every item is an amount")
}

impl<'a> MilestoneEscrowClient<'a> {
    fn new(env: &'a Env, id: &Address) -> MilestoneEscrowClient<'a> {
        MilestoneEscrowClient {
            env: env.clone(),
            address: *id,
            signatures: None,
            borrowed: PhantomData,
        }
    }

    /// The same client, with no signature but that of `who`.
    fn signed_by(&self, who: &Address) -> MilestoneEscrowClient<'a> {
        MilestoneEscrowClient {
            env: self.env.clone(),
            address: self.address,
            signatures: Some(Signatures::Only(vec![*who])),
            borrowed: PhantomData,
        }
    }

    fn request<T>(&self, request: impl FnOnce(&mut Escrow) -> Result<T, Error>) -> Tried<T> {
        let mut host = self.env.0.borrow_mut();
        let signatures = self.signatures.clone().unwrap_or(host.signatures.clone());
        host.request(&self.address, &signatures, request)
    }

    fn transfer_admin(&self, current_admin: &Address, new_admin: &Address) {
        granted(
            self.request(
                |ledger| MilestoneEscrow::transfer_admin(ledger, *current_admin, *new_admin),
            ),
        )
    }

    fn try_upgrade(&self, admin: &Address, new_wasm_hash: &[u8; 32]) -> Tried<()> {
        self.request(|ledger| MilestoneEscrow::upgrade(ledger, *admin, *new_wasm_hash))
    }

    fn try_cancel_escrow(&self, caller: &Address) -> Tried<()> {
        self.request(|ledger| MilestoneEscrow::cancel_escrow(ledger, *caller))
    }

    fn cancel_escrow(&self, caller: &Address) {
        granted(self.try_cancel_escrow(caller))
    }

    fn try_admin_override_cancel_release(&self, admin: &Address) -> Tried<()> {
        self.request(|ledger| MilestoneEscrow::admin_override_cancel_release(ledger, *admin))
    }

    fn admin_override_cancel_release(&self, admin: &Address) {
        granted(self.try_admin_override_cancel_release(admin))
    }

    fn try_raise_dispute(&self, caller: &Address, milestone_index: &u32) -> Tried<()> {
        self.request(|ledger| MilestoneEscrow::raise_dispute(ledger, *caller, *milestone_index))
    }

    fn raise_dispute(&self, caller: &Address, milestone_index: &u32) {
        granted(self.try_raise_dispute(caller, milestone_index))
    }

    fn try_resolve_dispute(
        &self,
        arbiter: &Address,
        milestone_index: &u32,
        release_to_freelancer: &bool,
    ) -> Tried<()> {
        self.request(
            |ledger| MilestoneEscrow::resolve_dispute(
                ledger,
                *arbiter,
                *milestone_index,
                *release_to_freelancer,
            ),
        )
    }

    fn resolve_dispute(
        &self,
        arbiter: &Address,
        milestone_index: &u32,
        release_to_freelancer: &bool,
    ) {
        granted(self.try_resolve_dispute(arbiter, milestone_index, release_to_freelancer))
    }

    fn try_apply_dispute_arbitration_split(
        &self,
        arbiter: &Address,
        milestone_index: &u32,
        client_refund_bps: &u32,
    ) -> Tried<RefundAllocation> {
        self.request(
            |ledger| MilestoneEscrow::apply_dispute_arbitration_split(
                ledger,
                *arbiter,
                *milestone_index,
                *client_refund_bps,
            ),
        )
    }

    fn apply_dispute_arbitration_split(
        &self,
        arbiter: &Address,
        milestone_index: &u32,
        client_refund_bps: &u32,
    ) -> RefundAllocation {
        granted(
            self.try_apply_dispute_arbitration_split(arbiter, milestone_index, client_refund_bps),
        )
    }

    fn try_escrow_interest_yield(
        &self,
        principal: &i128,
        annual_rate_bps: &i128,
        duration_seconds: &i128,
    ) -> Tried<i128> {
        self.request(
            |ledger| MilestoneEscrow::escrow_interest_yield(
                ledger,
                *principal,
                *annual_rate_bps,
                *duration_seconds,
            ),
        )
    }

    fn escrow_interest_yield(
        &self,
        principal: &i128,
        annual_rate_bps: &i128,
        duration_seconds: &i128,
    ) -> i128 {
        granted(self.try_escrow_interest_yield(principal, annual_rate_bps, duration_seconds))
    }

    fn try_set_escrow_interest_yield(
        &self,
        admin: &Address,
        client_share_bps: &u32,
        freelancer_share_bps: &u32,
    ) -> Tried<()> {
        self.request(
            |ledger| MilestoneEscrow::set_escrow_interest_yield(
                ledger,
                *admin,
                *client_share_bps,
                *freelancer_share_bps,
            ),
        )
    }

    fn set_escrow_interest_yield(
        &self,
        admin: &Address,
        client_share_bps: &u32,
        freelancer_share_bps: &u32,
    ) {
        granted(self.try_set_escrow_interest_yield(admin, client_share_bps, freelancer_share_bps))
    }

    fn lock_escrow_interest_yield(&self, admin: &Address) {
        granted(self.request(|ledger| MilestoneEscrow::lock_escrow_interest_yield(ledger, *admin)))
    }

    fn unlock_escrow_interest_yield(&self, admin: &Address) {
        granted(
            self.request(|ledger| MilestoneEscrow::unlock_escrow_interest_yield(ledger, *admin)),
        )
    }

    fn is_escrow_interest_yield_locked(&self) -> bool {
        granted(self.request(|ledger| MilestoneEscrow::is_escrow_interest_yield_locked(ledger)))
    }

    fn try_get_escrow_interest_yield(&self) -> Tried<EscrowInterestYieldState> {
        self.request(|ledger| MilestoneEscrow::get_escrow_interest_yield(ledger))
    }

    fn get_escrow_interest_yield(&self) -> EscrowInterestYieldState {
        granted(self.try_get_escrow_interest_yield())
    }

    fn try_initialize(
        &self,
        admin: &Address,
        client: &Address,
        freelancer: &Address,
        arbiter: &Address,
        token: &Address,
        auto_release_seconds: &u64,
        milestone_amounts: &soroban_sdk::Vec<i128>,
    ) -> Tried<()> {
        self.request(
            |ledger| MilestoneEscrow::initialize(
                ledger,
                *admin,
                *client,
                *freelancer,
                *arbiter,
                *token,
                *auto_release_seconds,
                amounts(milestone_amounts),
            ),
        )
    }

    fn initialize(
        &self,
        admin: &Address,
        client: &Address,
        freelancer: &Address,
        arbiter: &Address,
        token: &Address,
        auto_release_seconds: &u64,
        milestone_amounts: &soroban_sdk::Vec<i128>,
    ) {
        granted(
            self.try_initialize(
                admin,
                client,
                freelancer,
                arbiter,
                token,
                auto_release_seconds,
                milestone_amounts,
            ),
        )
    }

    fn try_fund(&self, client: &Address) -> Tried<()> {
        self.request(|ledger| MilestoneEscrow::fund(ledger, *client))
    }

    fn fund(&self, client: &Address) {
        granted(self.try_fund(client))
    }

    fn get_job(&self) -> Job {
        granted(self.request(|ledger| MilestoneEscrow::get_job(ledger)))
    }

    fn version(&self) -> u32 {
        granted(self.request(|ledger| Ok(MilestoneEscrow::version(ledger))))
    }

    fn try_mark_delivered(&self, freelancer: &Address, milestone_index: &u32) -> Tried<()> {
        self.request(
            |ledger| MilestoneEscrow::mark_delivered(ledger, *freelancer, *milestone_index),
        )
    }

    fn mark_delivered(&self, freelancer: &Address, milestone_index: &u32) {
        granted(self.try_mark_delivered(freelancer, milestone_index))
    }

    fn try_extend_milestone_deadline(
        &self,
        client: &Address,
        milestone_index: &u32,
        extra_seconds: &u64,
    ) -> Tried<()> {
        self.request(
            |ledger| MilestoneEscrow::extend_milestone_deadline(
                ledger,
                *client,
                *milestone_index,
                *extra_seconds,
            ),
        )
    }

    fn extend_milestone_deadline(
        &self,
        client: &Address,
        milestone_index: &u32,
        extra_seconds: &u64,
    ) {
        granted(self.try_extend_milestone_deadline(client, milestone_index, extra_seconds))
    }

    fn try_claim_auto_release(&self, freelancer: &Address, milestone_index: &u32) -> Tried<()> {
        self.request(
            |ledger| MilestoneEscrow::claim_auto_release(ledger, *freelancer, *milestone_index),
        )
    }

    fn claim_auto_release(&self, freelancer: &Address, milestone_index: &u32) {
        granted(self.try_claim_auto_release(freelancer, milestone_index))
    }

    fn time_until_auto_release(&self, milestone_index: &u32) -> i64 {
        granted(
            self.request(
                |ledger| Ok(MilestoneEscrow::time_until_auto_release(ledger, *milestone_index)),
            ),
        )
    }

    fn try_approve_partial(
        &self,
        client: &Address,
        milestone_index: &u32,
        amount: &i128,
    ) -> Tried<()> {
        self.request(
            |ledger| MilestoneEscrow::approve_partial(ledger, *client, *milestone_index, *amount),
        )
    }

    fn approve_partial(&self, client: &Address, milestone_index: &u32, amount: &i128) {
        granted(self.try_approve_partial(client, milestone_index, amount))
    }

    fn try_approve_milestone(&self, client: &Address, milestone_index: &u32) -> Tried<()> {
        self.request(|ledger| MilestoneEscrow::approve_milestone(ledger, *client, *milestone_index))
    }

    fn approve_milestone(&self, client: &Address, milestone_index: &u32) {
        granted(self.try_approve_milestone(client, milestone_index))
    }

    fn try_multisig_approval_init(
        &self,
        admin: &Address,
        signers: &Vec<Address>,
        threshold: &u32,
    ) -> Tried<()> {
        self.request(
            |ledger| MilestoneEscrow::multisig_approval_init(
                ledger,
                *admin,
                signers.clone(),
                *threshold,
            ),
        )
    }

    fn multisig_approval_init(&self, admin: &Address, signers: &Vec<Address>, threshold: &u32) {
        granted(self.try_multisig_approval_init(admin, signers, threshold))
    }

    fn try_multisig_approve(
        &self,
        signer: &Address,
        proposal_id: &u32,
    ) -> Tried<MultiSigApprovalState> {
        self.request(|ledger| MilestoneEscrow::multisig_approve(ledger, *signer, *proposal_id))
    }

    fn multisig_approve(&self, signer: &Address, proposal_id: &u32) -> MultiSigApprovalState {
        granted(self.try_multisig_approve(signer, proposal_id))
    }

    fn try_is_multisig_approved(&self, proposal_id: &u32) -> Tried<MultiSigApprovalState> {
        self.request(|ledger| MilestoneEscrow::is_multisig_approved(ledger, *proposal_id))
    }

    fn is_multisig_approved(&self, proposal_id: &u32) -> MultiSigApprovalState {
        granted(self.try_is_multisig_approved(proposal_id))
    }

    fn try_multisig_transfer_admin(
        &self,
        admin: &Address,
        total_amount: &i128,
        ratios: &soroban_sdk::Vec<i128>,
    ) -> Tried<soroban_sdk::Vec<i128>> {
        self.request(
            |ledger| MilestoneEscrow::multisig_transfer_admin(
                ledger,
                *admin,
                *total_amount,
                amounts(ratios),
            ).map(Amounts::into_list),
        )
    }

    fn multisig_transfer_admin(
        &self,
        admin: &Address,
        total_amount: &i128,
        ratios: &soroban_sdk::Vec<i128>,
    ) -> soroban_sdk::Vec<i128> {
        granted(self.try_multisig_transfer_admin(admin, total_amount, ratios))
    }

    fn try_multisig_split_refund(
        &self,
        admin: &Address,
        total_amount: &i128,
        client_refund_bps: &u32,
        freelancer_payout_bps: &u32,
    ) -> Tried<RefundAllocation> {
        self.request(
            |ledger| MilestoneEscrow::multisig_split_refund(
                ledger,
                *admin,
                *total_amount,
                *client_refund_bps,
                *freelancer_payout_bps,
            ),
        )
    }

    fn multisig_split_refund(
        &self,
        admin: &Address,
        total_amount: &i128,
        client_refund_bps: &u32,
        freelancer_payout_bps: &u32,
    ) -> RefundAllocation {
        granted(
            self.try_multisig_split_refund(
                admin,
                total_amount,
                client_refund_bps,
                freelancer_payout_bps,
            ),
        )
    }

    fn try_multisig_lock(&self, admin: &Address) -> Tried<()> {
        self.request(|ledger| MilestoneEscrow::multisig_lock(ledger, *admin))
    }

    fn multisig_lock(&self, admin: &Address) {
        granted(self.try_multisig_lock(admin))
    }

    fn is_multisig_locked(&self) -> bool {
        granted(self.request(|ledger| Ok(MilestoneEscrow::is_multisig_locked(ledger))))
    }

    fn try_multisig_admin_override_release(
        &self,
        admin: &Address,
        milestone_index: &u32,
    ) -> Tried<()> {
        self.request(
            |ledger| MilestoneEscrow::multisig_admin_override_release(
                ledger,
                *admin,
                *milestone_index,
            ),
        )
    }

    fn multisig_admin_override_release(&self, admin: &Address, milestone_index: &u32) {
        granted(self.try_multisig_admin_override_release(admin, milestone_index))
    }

    fn try_multisig_admin_override_refund(
        &self,
        admin: &Address,
        milestone_index: &u32,
    ) -> Tried<()> {
        self.request(
            |ledger| MilestoneEscrow::multisig_admin_override_refund(
                ledger,
                *admin,
                *milestone_index,
            ),
        )
    }

    fn multisig_admin_override_refund(&self, admin: &Address, milestone_index: &u32) {
        granted(self.try_multisig_admin_override_refund(admin, milestone_index))
    }

    fn try_emergency_pause_split_refund(
        &self,
        total_amount: &i128,
        client_refund_bps: &u32,
        freelancer_payout_bps: &u32,
    ) -> Tried<RefundAllocation> {
        self.request(
            |ledger| MilestoneEscrow::emergency_pause_split_refund(
                ledger,
                *total_amount,
                *client_refund_bps,
                *freelancer_payout_bps,
            ),
        )
    }

    fn emergency_pause_split_refund(
        &self,
        total_amount: &i128,
        client_refund_bps: &u32,
        freelancer_payout_bps: &u32,
    ) -> RefundAllocation {
        granted(
            self.try_emergency_pause_split_refund(
                total_amount,
                client_refund_bps,
                freelancer_payout_bps,
            ),
        )
    }

    fn try_set_platform_fee_allocation(
        &self,
        admin: &Address,
        client_bps: &u32,
        freelancer_bps: &u32,
        treasury_bps: &u32,
    ) -> Tried<()> {
        self.request(
            |ledger| MilestoneEscrow::set_platform_fee_allocation(
                ledger,
                *admin,
                *client_bps,
                *freelancer_bps,
                *treasury_bps,
            ),
        )
    }

    fn set_platform_fee_allocation(
        &self,
        admin: &Address,
        client_bps: &u32,
        freelancer_bps: &u32,
        treasury_bps: &u32,
    ) {
        granted(
            self.try_set_platform_fee_allocation(admin, client_bps, freelancer_bps, treasury_bps),
        )
    }

    fn lock_platform_fee_allocation(&self, admin: &Address) {
        granted(
            self.request(|ledger| MilestoneEscrow::lock_platform_fee_allocation(ledger, *admin)),
        )
    }

    fn try_pf_alloc_admin_override(
        &self,
        admin: &Address,
        client_bps: &u32,
        freelancer_bps: &u32,
        treasury_bps: &u32,
    ) -> Tried<()> {
        self.request(
            |ledger| MilestoneEscrow::pf_alloc_admin_override(
                ledger,
                *admin,
                *client_bps,
                *freelancer_bps,
                *treasury_bps,
            ),
        )
    }

    fn pf_alloc_admin_override(
        &self,
        admin: &Address,
        client_bps: &u32,
        freelancer_bps: &u32,
        treasury_bps: &u32,
    ) {
        granted(self.try_pf_alloc_admin_override(admin, client_bps, freelancer_bps, treasury_bps))
    }

    fn get_platform_fee_allocation(&self) -> PlatformFeeAllocation {
        granted(self.request(|ledger| MilestoneEscrow::get_platform_fee_allocation(ledger)))
    }

    fn try_calculate_platform_fee_split(
        &self,
        total_amount: &i128,
    ) -> Tried<PlatformFeeDistribution> {
        self.request(|ledger| MilestoneEscrow::calculate_platform_fee_split(ledger, *total_amount))
    }

    fn calculate_platform_fee_split(&self, total_amount: &i128) -> PlatformFeeDistribution {
        granted(self.try_calculate_platform_fee_split(total_amount))
    }

    fn try_dispute_arbitration_split(
        &self,
        total_amount: &i128,
        freelancer_bps: &u32,
    ) -> Tried<RefundAllocation> {
        self.request(
            |ledger| MilestoneEscrow::dispute_arbitration_split(
                ledger,
                *total_amount,
                *freelancer_bps,
            ),
        )
    }

    fn dispute_arbitration_split(
        &self,
        total_amount: &i128,
        freelancer_bps: &u32,
    ) -> RefundAllocation {
        granted(self.try_dispute_arbitration_split(total_amount, freelancer_bps))
    }

    fn try_payment_streaming_milestones(
        &self,
        total_amount: &i128,
        numerator: &i128,
        denominator: &i128,
    ) -> Tried<RatioSplit> {
        self.request(
            |ledger| MilestoneEscrow::payment_streaming_milestones(
                ledger,
                *total_amount,
                *numerator,
                *denominator,
            ),
        )
    }

    fn payment_streaming_milestones(
        &self,
        total_amount: &i128,
        numerator: &i128,
        denominator: &i128,
    ) -> RatioSplit {
        granted(self.try_payment_streaming_milestones(total_amount, numerator, denominator))
    }

    fn try_milestone_time_extensions(
        &self,
        amount: &i128,
        elapsed_seconds: &i128,
        total_seconds: &i128,
    ) -> Tried<RatioSplit> {
        self.request(
            |ledger| MilestoneEscrow::milestone_time_extensions(
                ledger,
                *amount,
                *elapsed_seconds,
                *total_seconds,
            ),
        )
    }

    fn milestone_time_extensions(
        &self,
        amount: &i128,
        elapsed_seconds: &i128,
        total_seconds: &i128,
    ) -> RatioSplit {
        granted(self.try_milestone_time_extensions(amount, elapsed_seconds, total_seconds))
    }

    fn try_tax_withholding_deductions(
        &self,
        milestone_index: &u32,
        tax_rate_bps: &u32,
    ) -> Tried<TaxWithholdingRecord> {
        self.request(
            |ledger| MilestoneEscrow::tax_withholding_deductions(
                ledger,
                *milestone_index,
                *tax_rate_bps,
            ),
        )
    }

    fn tax_withholding_deductions(
        &self,
        milestone_index: &u32,
        tax_rate_bps: &u32,
    ) -> TaxWithholdingRecord {
        granted(self.try_tax_withholding_deductions(milestone_index, tax_rate_bps))
    }

    fn try_admin_tax_withholding_deductions(
        &self,
        admin: &Address,
        milestone_index: &u32,
        tax_rate_bps: &u32,
    ) -> Tried<(i128, i128, i128)> {
        self.request(
            |ledger| MilestoneEscrow::admin_tax_withholding_deductions(
                ledger,
                *admin,
                *milestone_index,
                *tax_rate_bps,
            ),
        )
    }

    fn try_admin_override_tax_release(&self, admin: &Address, milestone_index: &u32) -> Tried<()> {
        self.request(
            |ledger| MilestoneEscrow::admin_override_tax_release(ledger, *admin, *milestone_index),
        )
    }

    fn admin_override_tax_release(&self, admin: &Address, milestone_index: &u32) {
        granted(self.try_admin_override_tax_release(admin, milestone_index))
    }

    fn try_admin_override_tax_refund(&self, admin: &Address, milestone_index: &u32) -> Tried<()> {
        self.request(
            |ledger| MilestoneEscrow::admin_override_tax_refund(ledger, *admin, *milestone_index),
        )
    }

    fn admin_override_tax_refund(&self, admin: &Address, milestone_index: &u32) {
        granted(self.try_admin_override_tax_refund(admin, milestone_index))
    }

    fn try_add_whitelisted_token(&self, admin: &Address, token: &Address) -> Tried<()> {
        self.request(|ledger| MilestoneEscrow::add_whitelisted_token(ledger, *admin, *token))
    }

    fn add_whitelisted_token(&self, admin: &Address, token: &Address) {
        granted(self.try_add_whitelisted_token(admin, token))
    }

    fn try_remove_whitelisted_token(&self, admin: &Address, token: &Address) -> Tried<()> {
        self.request(|ledger| MilestoneEscrow::remove_whitelisted_token(ledger, *admin, *token))
    }

    fn remove_whitelisted_token(&self, admin: &Address, token: &Address) {
        granted(self.try_remove_whitelisted_token(admin, token))
    }

    fn is_token_whitelisted(&self, token: &Address) -> bool {
        granted(self.request(|ledger| Ok(MilestoneEscrow::is_token_whitelisted(ledger, *token))))
    }

    fn get_whitelisted_tokens(&self) -> Vec<Address> {
        granted(self.request(|ledger| MilestoneEscrow::get_whitelisted_tokens(ledger)))
    }
}

// ── re-entry ─────────────────────────────────────────────────────────────────

#[test]
fn a_running_escrow_is_not_entered_again() {
    let env = Env::default();
    env.mock_all_auths();
    let token_id = env.register(ReentrantToken, ());
    let token = ReentrantTokenClient::new(&env, &token_id);
    let client_addr = Address::generate(&env);
    let freelancer_addr = Address::generate(&env);
    let arbiter_addr = Address::generate(&env);
    let admin_addr = Address::generate(&env);
    token.mint(&client_addr, &2_000);
    let contract_id = env.register(MilestoneEscrow, ());
    let client = MilestoneEscrowClient::new(&env, &contract_id);
    client.initialize(
        &admin_addr,
        &client_addr,
        &freelancer_addr,
        &arbiter_addr,
        &token_id,
        &604800,
        &list(&env, [1_000_i128, 1_000_i128]),
    );
    client.fund(&client_addr);
    client.mark_delivered(&freelancer_addr, &0u32);
    client.mark_delivered(&freelancer_addr, &1u32);
    client.raise_dispute(&client_addr, &0u32);
    client.approve_milestone(&client_addr, &1u32);
    assert!(token.callback_attempted());
    assert!(!token.callback_let_in());
    assert_eq!(client.get_job().milestones.get(0).unwrap().status, MilestoneStatus::Disputed);
    assert_eq!(token.balance(&contract_id), 1_000);
    assert_eq!(token.balance(&freelancer_addr), 1_000);
}

// ── scenarios ────────────────────────────────────────────────────────────────

fn setup_funded_escrow(
    env: &Env,
    milestone_amounts: soroban_sdk::Vec<i128>,
) -> (
    Address,
    Address,
    Address,
    Address,
    Address,
    Address,
    MilestoneEscrowClient<'_>,
) {
    let client_addr = Address::generate(env);
    let freelancer_addr = Address::generate(env);
    let arbiter_addr = Address::generate(env);
    let admin_addr = Address::generate(env);

    let token_contract_id = env
        .register_stellar_asset_contract_v2(admin_addr.clone())
        .address();
    let token_admin = StellarAssetClient::new(env, &token_contract_id);
    let total: i128 = milestone_amounts.iter().sum();
    token_admin.mint(&client_addr, &total);

    let contract_id = env.register(MilestoneEscrow, ());
    let client = MilestoneEscrowClient::new(env, &contract_id);

    client.initialize(
        &admin_addr,
        &client_addr,
        &freelancer_addr,
        &arbiter_addr,
        &token_contract_id,
        &604800,
        &milestone_amounts,
    );
    client.fund(&client_addr);

    (
        client_addr,
        freelancer_addr,
        arbiter_addr,
        admin_addr,
        token_contract_id,
        contract_id,
        client,
    )
}

#[test]
fn test_full_happy_path() {
    let env = Env::default();
    env.mock_all_auths();

    let client_addr = Address::generate(&env);
    let freelancer_addr = Address::generate(&env);
    let arbiter_addr = Address::generate(&env);
    let admin_addr = Address::generate(&env);

    let token_contract_id = env
        .register_stellar_asset_contract_v2(admin_addr.clone())
        .address();
    let token = TokenClient::new(&env, &token_contract_id);
    let token_admin = StellarAssetClient::new(&env, &token_contract_id);
    token_admin.mint(&client_addr, &10_000);

    let contract_id = env.register(MilestoneEscrow, ());
    let client = MilestoneEscrowClient::new(&env, &contract_id);

    let amounts = list(&env, [3_000_i128, 7_000_i128]);
    client.initialize(
        &admin_addr,
        &client_addr,
        &freelancer_addr,
        &arbiter_addr,
        &token_contract_id,
        &604800,
        &amounts,
    );

    assert_eq!(token.balance(&client_addr), 10_000);

    client.fund(&client_addr);
    assert_eq!(token.balance(&client_addr), 0);
    assert_eq!(token.balance(&contract_id), 10_000);

    client.mark_delivered(&freelancer_addr, &0u32);

    client.approve_milestone(&client_addr, &0u32);
    assert_eq!(token.balance(&freelancer_addr), 3_000);
    assert_eq!(token.balance(&contract_id), 7_000);

    client.mark_delivered(&freelancer_addr, &1u32);
    client.approve_milestone(&client_addr, &1u32);
    assert_eq!(token.balance(&freelancer_addr), 10_000);
    assert_eq!(token.balance(&contract_id), 0);
}

#[test]
fn test_dispute_release_to_freelancer() {
    let env = Env::default();
    env.mock_all_auths();

    let client_addr = Address::generate(&env);
    let freelancer_addr = Address::generate(&env);
    let arbiter_addr = Address::generate(&env);
    let admin_addr = Address::generate(&env);

    let token_contract_id = env
        .register_stellar_asset_contract_v2(admin_addr.clone())
        .address();
    let token = TokenClient::new(&env, &token_contract_id);
    let token_admin = StellarAssetClient::new(&env, &token_contract_id);
    token_admin.mint(&client_addr, &5_000);

    let contract_id = env.register(MilestoneEscrow, ());
    let client = MilestoneEscrowClient::new(&env, &contract_id);

    let amounts = list(&env, [5_000_i128]);
    client.initialize(
        &admin_addr,
        &client_addr,
        &freelancer_addr,
        &arbiter_addr,
        &token_contract_id,
        &604800,
        &amounts,
    );
    client.fund(&client_addr);
    client.mark_delivered(&freelancer_addr, &0u32);
    client.raise_dispute(&client_addr, &0u32);
    client.resolve_dispute(&arbiter_addr, &0u32, &true);

    assert_eq!(token.balance(&freelancer_addr), 5_000);
}

#[test]
fn test_dispute_refund_to_client() {
    let env = Env::default();
    env.mock_all_auths();

    let client_addr = Address::generate(&env);
    let freelancer_addr = Address::generate(&env);
    let arbiter_addr = Address::generate(&env);
    let admin_addr = Address::generate(&env);

    let token_contract_id = env
        .register_stellar_asset_contract_v2(admin_addr.clone())
        .address();
    let token = TokenClient::new(&env, &token_contract_id);
    let token_admin = StellarAssetClient::new(&env, &token_contract_id);
    token_admin.mint(&client_addr, &5_000);

    let contract_id = env.register(MilestoneEscrow, ());
    let client = MilestoneEscrowClient::new(&env, &contract_id);

    let amounts = list(&env, [5_000_i128]);
    client.initialize(
        &admin_addr,
        &client_addr,
        &freelancer_addr,
        &arbiter_addr,
        &token_contract_id,
        &604800,
        &amounts,
    );
    client.fund(&client_addr);
    client.raise_dispute(&client_addr, &0u32);
    client.resolve_dispute(&arbiter_addr, &0u32, &false);

    assert_eq!(token.balance(&client_addr), 5_000);
}

#[test]
fn test_apply_dispute_arbitration_split_transfers_percentages() {
    let env = Env::default();
    env.mock_all_auths();

    let client_addr = Address::generate(&env);
    let freelancer_addr = Address::generate(&env);
    let arbiter_addr = Address::generate(&env);
    let admin_addr = Address::generate(&env);

    let token_contract_id = env.register(ReentrantToken, ());
    let token_client = ReentrantTokenClient::new(&env, &token_contract_id);

    let total: i128 = 10_000;
    token_client.mint(&client_addr, &total);

    let contract_id = env.register(MilestoneEscrow, ());
    let client = MilestoneEscrowClient::new(&env, &contract_id);

    let amounts = list(&env, [10_000_i128]);
    client.initialize(
        &admin_addr,
        &client_addr,
        &freelancer_addr,
        &arbiter_addr,
        &token_contract_id,
        &604800u64,
        &amounts,
    );
    client.fund(&client_addr);

    // Move milestone into disputed state
    client.mark_delivered(&freelancer_addr, &0u32);
    client.raise_dispute(&client_addr, &0u32);

    // Apply a 30% refund to client (3000 bps). During transfers the token
    // will attempt a reentrant call which should be blocked by the lock.
    let alloc: RefundAllocation =
        client.apply_dispute_arbitration_split(&arbiter_addr, &0u32, &3000u32);

    assert_eq!(alloc.client_refund, 3_000);
    assert_eq!(alloc.freelancer_payout, 7_000);
    assert_eq!(token_client.balance(&client_addr), 3_000);
    assert_eq!(token_client.balance(&freelancer_addr), 7_000);
    assert!(token_client.callback_attempted());
}

#[test]
fn test_apply_dispute_arbitration_split_full_refund_status() {
    let env = Env::default();
    env.mock_all_auths();

    let amounts = list(&env, [10_000_i128]);
    let (
        client_addr,
        _freelancer_addr,
        arbiter_addr,
        _admin_addr,
        token_contract_id,
        contract_id,
        client,
    ) = setup_funded_escrow(&env, amounts.clone());

    // Move milestone into disputed state
    client.raise_dispute(&client_addr, &0u32);

    // Apply 100% refund to client
    let alloc: RefundAllocation =
        client.apply_dispute_arbitration_split(&arbiter_addr, &0u32, &10000u32);

    assert_eq!(alloc.client_refund, 10_000);
    assert_eq!(alloc.freelancer_payout, 0);
    // After full refund, milestone status should be Refunded
    // Read job and assert milestone status
    let job: Job = client.get_job();
    let ms = job.milestones.get(0).unwrap();
    assert_eq!(ms.status, MilestoneStatus::Refunded);
}

#[test]
fn test_apply_dispute_arbitration_split_odd_amounts() {
    let env = Env::default();
    env.mock_all_auths();

    let amounts = list(&env, [1_i128]);
    let (
        client_addr,
        freelancer_addr,
        arbiter_addr,
        _admin_addr,
        token_contract_id,
        contract_id,
        client,
    ) = setup_funded_escrow(&env, amounts.clone());

    // Raise dispute on tiny amount and apply 50/50 split
    client.raise_dispute(&client_addr, &0u32);
    let alloc: RefundAllocation =
        client.apply_dispute_arbitration_split(&arbiter_addr, &0u32, &5000u32);

    // Using nearest rounding the single unit should go to client (ties round up)
    assert_eq!(alloc.client_refund + alloc.freelancer_payout, 1_i128);
}

#[test]
fn test_apply_dispute_arbitration_split_unauthorized_fails() {
    let env = Env::default();
    env.mock_all_auths();

    let amounts = list(&env, [1_i128]);
    let (
        client_addr,
        _freelancer_addr,
        _arbiter_addr,
        _admin_addr,
        token_contract_id,
        contract_id,
        client,
    ) = setup_funded_escrow(&env, amounts.clone());

    // A non-arbiter should not be able to apply split
    let bad_actor = Address::generate(&env);
    client.raise_dispute(&client_addr, &0u32);
    let result = client.try_apply_dispute_arbitration_split(&bad_actor, &0u32, &5000u32);
    assert!(result.is_err());
}

#[test]
fn test_resolve_dispute_double_execution_fails() {
    let env = Env::default();
    env.mock_all_auths();

    let amounts = list(&env, [5_000_i128]);
    let (
        client_addr,
        freelancer_addr,
        arbiter_addr,
        _admin_addr,
        token_contract_id,
        contract_id,
        client,
    ) = setup_funded_escrow(&env, amounts.clone());

    // Move milestone into disputed state
    client.mark_delivered(&freelancer_addr, &0u32);
    client.raise_dispute(&client_addr, &0u32);

    // First resolution succeeds
    client.resolve_dispute(&arbiter_addr, &0u32, &true);

    // Second resolution should fail because status is no longer Disputed
    let result = client.try_resolve_dispute(&arbiter_addr, &0u32, &true);
    assert!(result.is_err());
}

#[test]
fn test_double_initialize_fails() {
    let env = Env::default();
    env.mock_all_auths();

    let client_addr = Address::generate(&env);
    let freelancer_addr = Address::generate(&env);
    let arbiter_addr = Address::generate(&env);
    let admin_addr = Address::generate(&env);
    let token_contract_id = env
        .register_stellar_asset_contract_v2(admin_addr.clone())
        .address();

    let contract_id = env.register(MilestoneEscrow, ());
    let client = MilestoneEscrowClient::new(&env, &contract_id);

    let amounts = list(&env, [1_000_i128]);
    client.initialize(
        &admin_addr,
        &client_addr,
        &freelancer_addr,
        &arbiter_addr,
        &token_contract_id,
        &604800,
        &amounts,
    );

    let result = client.try_initialize(
        &admin_addr,
        &client_addr,
        &freelancer_addr,
        &arbiter_addr,
        &token_contract_id,
        &604800,
        &amounts,
    );
    assert!(result.is_err());
}

#[test]
fn test_unauthorized_fund_fails() {
    let env = Env::default();
    env.mock_all_auths();

    let client_addr = Address::generate(&env);
    let freelancer_addr = Address::generate(&env);
    let arbiter_addr = Address::generate(&env);
    let admin_addr = Address::generate(&env);
    let bad_actor = Address::generate(&env);
    let token_contract_id = env
        .register_stellar_asset_contract_v2(admin_addr.clone())
        .address();

    let contract_id = env.register(MilestoneEscrow, ());
    let client = MilestoneEscrowClient::new(&env, &contract_id);

    let amounts = list(&env, [1_000_i128]);
    client.initialize(
        &admin_addr,
        &client_addr,
        &freelancer_addr,
        &arbiter_addr,
        &token_contract_id,
        &604800,
        &amounts,
    );

    let result = client.try_fund(&bad_actor);
    assert_eq!(result, Err(Ok(Error::Unauthorized)));
}

#[test]
fn test_invalid_milestone_index_fails() {
    let env = Env::default();
    env.mock_all_auths();

    let client_addr = Address::generate(&env);
    let freelancer_addr = Address::generate(&env);
    let arbiter_addr = Address::generate(&env);
    let admin_addr = Address::generate(&env);
    let token_contract_id = env
        .register_stellar_asset_contract_v2(admin_addr.clone())
        .address();
    let token_admin = StellarAssetClient::new(&env, &token_contract_id);
    token_admin.mint(&client_addr, &1_000);

    let contract_id = env.register(MilestoneEscrow, ());
    let client = MilestoneEscrowClient::new(&env, &contract_id);

    let amounts = list(&env, [1_000_i128]);
    client.initialize(
        &admin_addr,
        &client_addr,
        &freelancer_addr,
        &arbiter_addr,
        &token_contract_id,
        &604800,
        &amounts,
    );
    client.fund(&client_addr);

    let result = client.try_mark_delivered(&freelancer_addr, &1u32);
    assert_eq!(result, Err(Ok(Error::InvalidMilestone)));
}

#[test]
fn test_mark_delivered_zero_address_fails() {
    let env = Env::default();
    env.mock_all_auths();

    let client_addr = Address::generate(&env);
    let freelancer_addr = Address::generate(&env);
    let arbiter_addr = Address::generate(&env);
    let admin_addr = Address::generate(&env);
    let token_contract_id = env
        .register_stellar_asset_contract_v2(admin_addr.clone())
        .address();
    let token_admin = StellarAssetClient::new(&env, &token_contract_id);
    token_admin.mint(&client_addr, &1_000);

    let contract_id = env.register(MilestoneEscrow, ());
    let client = MilestoneEscrowClient::new(&env, &contract_id);

    let amounts = list(&env, [1_000_i128]);
    client.initialize(
        &admin_addr,
        &client_addr,
        &freelancer_addr,
        &arbiter_addr,
        &token_contract_id,
        &604800,
        &amounts,
    );
    client.fund(&client_addr);

    let zero_account = Address::from_str(
        &env,
        "GAAAAAAAAAAAAAAAAAAAAAAAAAAAAAAAAAAAAAAAAAAAAAAAAAAAAWHF",
    );
    let result = client.try_mark_delivered(&zero_account, &0u32);
    assert_eq!(result, Err(Ok(Error::InvalidAddress)));
}

#[test]
fn test_mark_delivered_invalid_amount_fails() {
    let env = Env::default();
    env.mock_all_auths();

    let client_addr = Address::generate(&env);
    let freelancer_addr = Address::generate(&env);
    let arbiter_addr = Address::generate(&env);
    let admin_addr = Address::generate(&env);
    let token_contract_id = env
        .register_stellar_asset_contract_v2(admin_addr.clone())
        .address();
    let token_admin = StellarAssetClient::new(&env, &token_contract_id);
    token_admin.mint(&client_addr, &1_000);

    let contract_id = env.register(MilestoneEscrow, ());
    let client = MilestoneEscrowClient::new(&env, &contract_id);

    let amounts = list(&env, [1_000_i128]);
    client.initialize(
        &admin_addr,
        &client_addr,
        &freelancer_addr,
        &arbiter_addr,
        &token_contract_id,
        &604800,
        &amounts,
    );
    client.fund(&client_addr);

    // Mock storage to change milestone amount to 0
    let milestone = Milestone {
        amount: 0,
        released_amount: 0,
        status: MilestoneStatus::Pending,
        delivered_at: 0,
    };
    env.as_contract(&contract_id, || {
        env.storage()
            .persistent()
            .set(&DataKey::Milestone(0u32), &milestone);
    });

    let result = client.try_mark_delivered(&freelancer_addr, &0u32);
    assert_eq!(result, Err(Ok(Error::InvalidAmount)));
}

#[test]
fn test_mark_delivered_wrong_status_fails() {
    let env = Env::default();
    env.mock_all_auths();

    let client_addr = Address::generate(&env);
    let freelancer_addr = Address::generate(&env);
    let arbiter_addr = Address::generate(&env);
    let admin_addr = Address::generate(&env);
    let token_contract_id = env
        .register_stellar_asset_contract_v2(admin_addr.clone())
        .address();
    let token_admin = StellarAssetClient::new(&env, &token_contract_id);
    token_admin.mint(&client_addr, &1_000);

    let contract_id = env.register(MilestoneEscrow, ());
    let client = MilestoneEscrowClient::new(&env, &contract_id);

    let amounts = list(&env, [1_000_i128]);
    client.initialize(
        &admin_addr,
        &client_addr,
        &freelancer_addr,
        &arbiter_addr,
        &token_contract_id,
        &604800,
        &amounts,
    );
    client.fund(&client_addr);
    client.mark_delivered(&freelancer_addr, &0u32);

    // Double-deliver must return the exact InvalidStatus error.
    let result = client.try_mark_delivered(&freelancer_addr, &0u32);
    assert_eq!(result, Err(Ok(Error::InvalidStatus)));
}

#[test]
fn test_mark_delivered_after_released_fails() {
    let env = Env::default();
    env.mock_all_auths();

    let (client_addr, freelancer_addr, _, _, _, _, client) =
        setup_funded_escrow(&env, list(&env, [1_000_i128]));

    client.mark_delivered(&freelancer_addr, &0u32);
    client.approve_milestone(&client_addr, &0u32);

    let result = client.try_mark_delivered(&freelancer_addr, &0u32);
    assert_eq!(result, Err(Ok(Error::InvalidStatus)));
}

#[test]
fn test_mark_delivered_after_disputed_fails() {
    let env = Env::default();
    env.mock_all_auths();

    let (client_addr, freelancer_addr, _, _, _, _, client) =
        setup_funded_escrow(&env, list(&env, [1_000_i128]));

    client.mark_delivered(&freelancer_addr, &0u32);
    client.raise_dispute(&client_addr, &0u32);

    let result = client.try_mark_delivered(&freelancer_addr, &0u32);
    assert_eq!(result, Err(Ok(Error::InvalidStatus)));
}

#[test]
fn test_mark_delivered_after_refunded_fails() {
    let env = Env::default();
    env.mock_all_auths();

    let (client_addr, freelancer_addr, arbiter_addr, _, _, _, client) =
        setup_funded_escrow(&env, list(&env, [1_000_i128]));

    client.mark_delivered(&freelancer_addr, &0u32);
    client.raise_dispute(&client_addr, &0u32);
    client.resolve_dispute(&arbiter_addr, &0u32, &false);

    let result = client.try_mark_delivered(&freelancer_addr, &0u32);
    assert_eq!(result, Err(Ok(Error::InvalidStatus)));
}

#[test]
fn test_raise_dispute_status_transition_to_disputed() {
    let env = Env::default();
    env.mock_all_auths();

    let (client_addr, freelancer_addr, _, _, _, _, client) =
        setup_funded_escrow(&env, list(&env, [1_000_i128]));

    client.mark_delivered(&freelancer_addr, &0u32);
    client.raise_dispute(&client_addr, &0u32);

    let job = client.get_job();
    let milestone = job.milestones.get(0).unwrap();
    assert_eq!(milestone.status, MilestoneStatus::Disputed);
}

#[test]
fn test_mark_delivered_after_partially_released_fails() {
    let env = Env::default();
    env.mock_all_auths();

    let (client_addr, freelancer_addr, _, _, _, _, client) =
        setup_funded_escrow(&env, list(&env, [1_000_i128]));

    client.mark_delivered(&freelancer_addr, &0u32);
    client.approve_partial(&client_addr, &0u32, &400_i128);

    let result = client.try_mark_delivered(&freelancer_addr, &0u32);
    assert_eq!(result, Err(Ok(Error::InvalidStatus)));
}

#[test]
fn test_approve_milestone_zero_account_address_fails() {
    let env = Env::default();
    env.mock_all_auths();

    let admin_addr = Address::generate(&env);
    let client_addr = Address::generate(&env);
    let freelancer_addr = Address::generate(&env);
    let arbiter_addr = Address::generate(&env);
    let token_contract_id = env
        .register_stellar_asset_contract_v2(admin_addr.clone())
        .address();
    let token_admin = StellarAssetClient::new(&env, &token_contract_id);
    token_admin.mint(&client_addr, &1_000);

    let contract_id = env.register(MilestoneEscrow, ());
    let client = MilestoneEscrowClient::new(&env, &contract_id);

    client.initialize(
        &admin_addr,
        &client_addr,
        &freelancer_addr,
        &arbiter_addr,
        &token_contract_id,
        &604800,
        &list(&env, [1_000_i128]),
    );
    client.fund(&client_addr);
    client.mark_delivered(&freelancer_addr, &0u32);

    let zero_account = Address::from_str(
        &env,
        "GAAAAAAAAAAAAAAAAAAAAAAAAAAAAAAAAAAAAAAAAAAAAAAAAAAAAWHF",
    );
    let result = client.try_approve_milestone(&zero_account, &0u32);
    assert_eq!(result, Err(Ok(Error::InvalidAddress)));
}

#[test]
fn test_approve_milestone_zero_contract_address_fails() {
    let env = Env::default();
    env.mock_all_auths();

    let admin_addr = Address::generate(&env);
    let client_addr = Address::generate(&env);
    let freelancer_addr = Address::generate(&env);
    let arbiter_addr = Address::generate(&env);
    let token_contract_id = env
        .register_stellar_asset_contract_v2(admin_addr.clone())
        .address();
    let token_admin = StellarAssetClient::new(&env, &token_contract_id);
    token_admin.mint(&client_addr, &1_000);

    let contract_id = env.register(MilestoneEscrow, ());
    let client = MilestoneEscrowClient::new(&env, &contract_id);

    client.initialize(
        &admin_addr,
        &client_addr,
        &freelancer_addr,
        &arbiter_addr,
        &token_contract_id,
        &604800,
        &list(&env, [1_000_i128]),
    );
    client.fund(&client_addr);
    client.mark_delivered(&freelancer_addr, &0u32);

    let zero_contract = Address::from_str(
        &env,
        "CAAAAAAAAAAAAAAAAAAAAAAAAAAAAAAAAAAAAAAAAAAAAAAAAAAABSC4",
    );
    let result = client.try_approve_milestone(&zero_contract, &0u32);
    assert_eq!(result, Err(Ok(Error::InvalidAddress)));
}

#[test]
fn test_approve_milestone_wrong_status_fails() {
    let env = Env::default();
    env.mock_all_auths();

    let client_addr = Address::generate(&env);
    let freelancer_addr = Address::generate(&env);
    let arbiter_addr = Address::generate(&env);
    let admin_addr = Address::generate(&env);
    let token_contract_id = env
        .register_stellar_asset_contract_v2(admin_addr.clone())
        .address();
    let token_admin = StellarAssetClient::new(&env, &token_contract_id);
    token_admin.mint(&client_addr, &1_000);

    let contract_id = env.register(MilestoneEscrow, ());
    let client = MilestoneEscrowClient::new(&env, &contract_id);

    let amounts = list(&env, [1_000_i128]);
    client.initialize(
        &admin_addr,
        &client_addr,
        &freelancer_addr,
        &arbiter_addr,
        &token_contract_id,
        &604800,
        &amounts,
    );
    client.fund(&client_addr);

    let result = client.try_approve_milestone(&client_addr, &0u32);
    assert_eq!(result, Err(Ok(Error::InvalidStatus)));
}

#[test]
fn test_approve_milestone_invalid_index_fails() {
    let env = Env::default();
    env.mock_all_auths();

    let client_addr = Address::generate(&env);
    let freelancer_addr = Address::generate(&env);
    let arbiter_addr = Address::generate(&env);
    let admin_addr = Address::generate(&env);

    let token_contract_id = env
        .register_stellar_asset_contract_v2(admin_addr.clone())
        .address();
    let token_admin = StellarAssetClient::new(&env, &token_contract_id);
    token_admin.mint(&client_addr, &10_000);

    let contract_id = env.register(MilestoneEscrow, ());
    let client = MilestoneEscrowClient::new(&env, &contract_id);

    let amounts = list(&env, [10_000_i128]);
    client.initialize(
        &admin_addr,
        &client_addr,
        &freelancer_addr,
        &arbiter_addr,
        &token_contract_id,
        &604800,
        &amounts,
    );
    client.fund(&client_addr);
    client.mark_delivered(&freelancer_addr, &0u32);

    // Try to approve milestone at non-existent index
    let result = client.try_approve_milestone(&client_addr, &1u32);
    assert_eq!(result, Err(Ok(Error::InvalidMilestone)));
}

#[test]
fn test_approve_milestone_zero_amount_fails() {
    let env = Env::default();
    env.mock_all_auths();

    let client_addr = Address::generate(&env);
    let freelancer_addr = Address::generate(&env);
    let arbiter_addr = Address::generate(&env);
    let admin_addr = Address::generate(&env);

    let token_contract_id = env
        .register_stellar_asset_contract_v2(admin_addr.clone())
        .address();
    let token_admin = StellarAssetClient::new(&env, &token_contract_id);
    token_admin.mint(&client_addr, &10_000);

    let contract_id = env.register(MilestoneEscrow, ());
    let client = MilestoneEscrowClient::new(&env, &contract_id);

    // Milestone with zero amount should be rejected before state is written.
    let amounts = list(&env, [0_i128]);
    let result = client.try_initialize(
        &admin_addr,
        &client_addr,
        &freelancer_addr,
        &arbiter_addr,
        &token_contract_id,
        &604800,
        &amounts,
    );
    assert_eq!(result, Err(Ok(Error::InvalidAmount)));
}

#[test]
fn test_raise_dispute_unauthorized_fails() {
    let env = Env::default();
    env.mock_all_auths();

    let client_addr = Address::generate(&env);
    let freelancer_addr = Address::generate(&env);
    let arbiter_addr = Address::generate(&env);
    let admin_addr = Address::generate(&env);
    let bad_actor = Address::generate(&env);
    let token_contract_id = env
        .register_stellar_asset_contract_v2(admin_addr.clone())
        .address();
    let token_admin = StellarAssetClient::new(&env, &token_contract_id);
    token_admin.mint(&client_addr, &1_000);

    let contract_id = env.register(MilestoneEscrow, ());
    let client = MilestoneEscrowClient::new(&env, &contract_id);

    let amounts = list(&env, [1_000_i128]);
    client.initialize(
        &admin_addr,
        &client_addr,
        &freelancer_addr,
        &arbiter_addr,
        &token_contract_id,
        &604800,
        &amounts,
    );
    client.fund(&client_addr);

    let result = client.try_raise_dispute(&bad_actor, &0u32);
    assert!(result.is_err());
}

#[test]
fn test_raise_dispute_wrong_status_fails() {
    let env = Env::default();
    env.mock_all_auths();

    let client_addr = Address::generate(&env);
    let freelancer_addr = Address::generate(&env);
    let arbiter_addr = Address::generate(&env);
    let admin_addr = Address::generate(&env);
    let token_contract_id = env
        .register_stellar_asset_contract_v2(admin_addr.clone())
        .address();
    let token_admin = StellarAssetClient::new(&env, &token_contract_id);
    token_admin.mint(&client_addr, &1_000);

    let contract_id = env.register(MilestoneEscrow, ());
    let client = MilestoneEscrowClient::new(&env, &contract_id);

    let amounts = list(&env, [1_000_i128]);
    client.initialize(
        &admin_addr,
        &client_addr,
        &freelancer_addr,
        &arbiter_addr,
        &token_contract_id,
        &604800,
        &amounts,
    );
    client.fund(&client_addr);
    client.mark_delivered(&freelancer_addr, &0u32);
    client.approve_milestone(&client_addr, &0u32);

    let result = client.try_raise_dispute(&client_addr, &0u32);
    assert!(result.is_err());
}

#[test]
fn test_resolve_dispute_unauthorized_fails() {
    let env = Env::default();
    env.mock_all_auths();

    let client_addr = Address::generate(&env);
    let freelancer_addr = Address::generate(&env);
    let arbiter_addr = Address::generate(&env);
    let admin_addr = Address::generate(&env);
    let bad_actor = Address::generate(&env);
    let token_contract_id = env
        .register_stellar_asset_contract_v2(admin_addr.clone())
        .address();
    let token_admin = StellarAssetClient::new(&env, &token_contract_id);
    token_admin.mint(&client_addr, &1_000);

    let contract_id = env.register(MilestoneEscrow, ());
    let client = MilestoneEscrowClient::new(&env, &contract_id);

    let amounts = list(&env, [1_000_i128]);
    client.initialize(
        &admin_addr,
        &client_addr,
        &freelancer_addr,
        &arbiter_addr,
        &token_contract_id,
        &604800,
        &amounts,
    );
    client.fund(&client_addr);
    client.raise_dispute(&client_addr, &0u32);

    let result = client.try_resolve_dispute(&bad_actor, &0u32, &true);
    assert_eq!(result, Err(Ok(Error::Unauthorized)));
}

#[test]
fn test_resolve_dispute_wrong_status_fails() {
    let env = Env::default();
    env.mock_all_auths();

    let client_addr = Address::generate(&env);
    let freelancer_addr = Address::generate(&env);
    let arbiter_addr = Address::generate(&env);
    let admin_addr = Address::generate(&env);
    let token_contract_id = env
        .register_stellar_asset_contract_v2(admin_addr.clone())
        .address();
    let token_admin = StellarAssetClient::new(&env, &token_contract_id);
    token_admin.mint(&client_addr, &1_000);

    let contract_id = env.register(MilestoneEscrow, ());
    let client = MilestoneEscrowClient::new(&env, &contract_id);

    let amounts = list(&env, [1_000_i128]);
    client.initialize(
        &admin_addr,
        &client_addr,
        &freelancer_addr,
        &arbiter_addr,
        &token_contract_id,
        &604800,
        &amounts,
    );
    client.fund(&client_addr);

    let result = client.try_resolve_dispute(&arbiter_addr, &0u32, &true);
    assert_eq!(result, Err(Ok(Error::InvalidStatus)));
}

#[test]
fn test_resolve_dispute_reverts_when_contract_balance_is_empty() {
    let env = Env::default();
    env.mock_all_auths();

    let client_addr = Address::generate(&env);
    let freelancer_addr = Address::generate(&env);
    let arbiter_addr = Address::generate(&env);
    let admin_addr = Address::generate(&env);
    let token_contract_id = env.register(MockToken, ());
    let token = MockTokenClient::new(&env, &token_contract_id);
    token.mint(&client_addr, &1_000_i128);

    let contract_id = env.register(MilestoneEscrow, ());
    let client = MilestoneEscrowClient::new(&env, &contract_id);

    let amounts = list(&env, [1_000_i128]);
    client.initialize(
        &admin_addr,
        &client_addr,
        &freelancer_addr,
        &arbiter_addr,
        &token_contract_id,
        &604800,
        &amounts,
    );
    client.fund(&client_addr);
    client.mark_delivered(&freelancer_addr, &0u32);
    client.raise_dispute(&client_addr, &0u32);

    let token = MockTokenClient::new(&env, &token_contract_id);
    token.transfer(&contract_id, &client_addr, &1_000_i128);

    let result = client.try_resolve_dispute(&arbiter_addr, &0u32, &true);
    assert_eq!(result, Err(Ok(Error::InvalidAmount)));
}

#[test]
fn test_resolve_dispute_emits_structured_event() {
    let env = Env::default();
    env.mock_all_auths();

    let client_addr = Address::generate(&env);
    let freelancer_addr = Address::generate(&env);
    let arbiter_addr = Address::generate(&env);
    let admin_addr = Address::generate(&env);
    let token_contract_id = env.register(MockToken, ());
    let token = MockTokenClient::new(&env, &token_contract_id);
    token.mint(&client_addr, &1_000_i128);

    let contract_id = env.register(MilestoneEscrow, ());
    let client = MilestoneEscrowClient::new(&env, &contract_id);

    let amounts = list(&env, [1_000_i128]);
    client.initialize(
        &admin_addr,
        &client_addr,
        &freelancer_addr,
        &arbiter_addr,
        &token_contract_id,
        &604800,
        &amounts,
    );
    client.fund(&client_addr);
    client.mark_delivered(&freelancer_addr, &0u32);
    client.raise_dispute(&client_addr, &0u32);
    client.resolve_dispute(&arbiter_addr, &0u32, &true);

    let resolve_topic: Symbol = Symbol("resolve");
    let resolve_topic_val: Val = resolve_topic.into_val(&env);
    let mut resolve_events = 0u32;
    for event in env.events().all().iter() {
        if let Some(topic) = event.1.get(0) {
            if topic.get_payload() == resolve_topic_val.get_payload() {
                resolve_events += 1;
                assert_eq!(event.1.len(), 1);
                assert_eq!(
                    DisputeResolvedEvent::from_val(&env, &event.2),
                    DisputeResolvedEvent {
                        contract_id: contract_id.clone(),
                        milestone_index: 0,
                        arbiter: arbiter_addr.clone(),
                        client: client_addr.clone(),
                        freelancer: freelancer_addr.clone(),
                        token: token_contract_id.clone(),
                        amount: 1_000,
                        paid_amount: 1_000,
                        released_to_freelancer: true,
                        status: MilestoneStatus::Released,
                    }
                );
            }
        }
    }

    assert_eq!(resolve_events, 1);
}

#[test]
fn test_resolve_dispute_paid_amount_reflects_capped_transfer() {
    let env = Env::default();
    env.mock_all_auths();

    let client_addr = Address::generate(&env);
    let freelancer_addr = Address::generate(&env);
    let arbiter_addr = Address::generate(&env);
    let admin_addr = Address::generate(&env);
    let token_contract_id = env.register(MockToken, ());
    let token = MockTokenClient::new(&env, &token_contract_id);
    token.mint(&client_addr, &1_000_i128);

    let contract_id = env.register(MilestoneEscrow, ());
    let client = MilestoneEscrowClient::new(&env, &contract_id);

    let amounts = list(&env, [1_000_i128]);
    client.initialize(
        &admin_addr,
        &client_addr,
        &freelancer_addr,
        &arbiter_addr,
        &token_contract_id,
        &604800,
        &amounts,
    );
    client.fund(&client_addr);
    client.mark_delivered(&freelancer_addr, &0u32);
    client.raise_dispute(&client_addr, &0u32);

    // Drain most of the contract's balance externally, leaving less than
    // the milestone's owed amount available to pay out.
    let token = MockTokenClient::new(&env, &token_contract_id);
    token.transfer(&contract_id, &client_addr, &700_i128);

    client.resolve_dispute(&arbiter_addr, &0u32, &true);

    let resolve_topic: Symbol = Symbol("resolve");
    let resolve_topic_val: Val = resolve_topic.into_val(&env);
    let mut matched = 0u32;
    for event in env.events().all().iter() {
        if let Some(topic) = event.1.get(0) {
            if topic.get_payload() == resolve_topic_val.get_payload() {
                matched += 1;
                let decoded = DisputeResolvedEvent::from_val(&env, &event.2);
                assert_eq!(decoded.amount, 1_000);
                assert_eq!(decoded.paid_amount, 300);
            }
        }
    }
    assert_eq!(matched, 1);
}

#[test]
fn test_fund_before_initialized_fails() {
    let env = Env::default();
    env.mock_all_auths();

    let client_addr = Address::generate(&env);
    let contract_id = env.register(MilestoneEscrow, ());
    let client = MilestoneEscrowClient::new(&env, &contract_id);

    let result = client.try_fund(&client_addr);
    assert_eq!(result, Err(Ok(Error::NotInitialized)));
}

#[test]
fn test_double_fund_fails() {
    let env = Env::default();
    env.mock_all_auths();

    let client_addr = Address::generate(&env);
    let freelancer_addr = Address::generate(&env);
    let arbiter_addr = Address::generate(&env);
    let admin_addr = Address::generate(&env);
    let token_contract_id = env
        .register_stellar_asset_contract_v2(admin_addr.clone())
        .address();
    let token_admin = StellarAssetClient::new(&env, &token_contract_id);
    token_admin.mint(&client_addr, &2_000);

    let contract_id = env.register(MilestoneEscrow, ());
    let client = MilestoneEscrowClient::new(&env, &contract_id);

    let amounts = list(&env, [1_000_i128]);
    client.initialize(
        &admin_addr,
        &client_addr,
        &freelancer_addr,
        &arbiter_addr,
        &token_contract_id,
        &604800,
        &amounts,
    );
    client.fund(&client_addr);

    let result = client.try_fund(&client_addr);
    assert_eq!(result, Err(Ok(Error::AlreadyFunded)));
}

#[test]
fn test_fund_reentrancy_guard_blocks_callback_fund() {
    let env = Env::default();
    env.mock_all_auths();

    let client_addr = Address::generate(&env);
    let freelancer_addr = Address::generate(&env);
    let arbiter_addr = Address::generate(&env);
    let admin_addr = Address::generate(&env);

    let token_contract_id = env.register(ReentrantToken, ());
    let contract_id = env.register(MilestoneEscrow, ());
    let client = MilestoneEscrowClient::new(&env, &contract_id);
    let token = ReentrantTokenClient::new(&env, &token_contract_id);

    let amounts = list(&env, [1_000_i128]);
    client.initialize(
        &admin_addr,
        &client_addr,
        &freelancer_addr,
        &arbiter_addr,
        &token_contract_id,
        &604800,
        &amounts,
    );

    client.fund(&client_addr);

    assert!(token.callback_attempted());
    let job = client.get_job();
    assert!(job.funded);
    assert_eq!(job.milestones.len(), 1);

    let result = client.try_fund(&client_addr);
    assert_eq!(result, Err(Ok(Error::AlreadyFunded)));
}

#[test]
fn test_fund_emits_structured_event() {
    let env = Env::default();
    env.mock_all_auths();

    let client_addr = Address::generate(&env);
    let freelancer_addr = Address::generate(&env);
    let arbiter_addr = Address::generate(&env);
    let admin_addr = Address::generate(&env);
    let token_contract_id = env
        .register_stellar_asset_contract_v2(admin_addr.clone())
        .address();
    let token_admin = StellarAssetClient::new(&env, &token_contract_id);
    token_admin.mint(&client_addr, &3_000);

    let contract_id = env.register(MilestoneEscrow, ());
    let client = MilestoneEscrowClient::new(&env, &contract_id);

    let amounts = list(&env, [1_000_i128, 2_000_i128]);
    client.initialize(
        &admin_addr,
        &client_addr,
        &freelancer_addr,
        &arbiter_addr,
        &token_contract_id,
        &604800,
        &amounts,
    );
    client.fund(&client_addr);

    let fund_topic_val: Val = Symbol("fund").into_val(&env);
    let mut fund_events = 0u32;
    for event in env.events().all().iter() {
        if let Some(topic) = event.1.get(0) {
            if topic.get_payload() == fund_topic_val.get_payload() {
                fund_events += 1;
                assert_eq!(event.1.len(), 1);
                assert_eq!(
                    FundedEvent::from_val(&env, &event.2),
                    FundedEvent {
                        contract_id: contract_id.clone(),
                        client: client_addr.clone(),
                        freelancer: freelancer_addr.clone(),
                        arbiter: arbiter_addr.clone(),
                        token: token_contract_id.clone(),
                        total_amount: 3_000,
                        milestone_count: 2,
                        auto_release_seconds: 604800,
                        funded: true,
                    }
                );
            }
        }
    }

    assert_eq!(fund_events, 1);
}

#[test]
fn test_failed_fund_does_not_emit_fund_event() {
    let env = Env::default();
    env.mock_all_auths();

    let client_addr = Address::generate(&env);
    let wrong_client = Address::generate(&env);
    let freelancer_addr = Address::generate(&env);
    let arbiter_addr = Address::generate(&env);
    let admin_addr = Address::generate(&env);
    let token_contract_id = env
        .register_stellar_asset_contract_v2(admin_addr.clone())
        .address();

    let contract_id = env.register(MilestoneEscrow, ());
    let client = MilestoneEscrowClient::new(&env, &contract_id);

    let amounts = list(&env, [1_000_i128]);
    client.initialize(
        &admin_addr,
        &client_addr,
        &freelancer_addr,
        &arbiter_addr,
        &token_contract_id,
        &604800,
        &amounts,
    );

    let result = client.try_fund(&wrong_client);
    assert_eq!(result, Err(Ok(Error::Unauthorized)));

    let fund_topic_val: Val = Symbol("fund").into_val(&env);
    let fund_events = env.events().all().iter().fold(0u32, |acc, event| {
        if let Some(topic) = event.1.get(0) {
            if topic.get_payload() == fund_topic_val.get_payload() {
                return acc + 1;
            }
        }
        acc
    });
    assert_eq!(fund_events, 0);
}

#[test]
fn test_fund_before_initialize_fails() {
    let env = Env::default();
    env.mock_all_auths();

    let client_addr = Address::generate(&env);
    let contract_id = env.register(MilestoneEscrow, ());
    let client = MilestoneEscrowClient::new(&env, &contract_id);

    let result = client.try_fund(&client_addr);
    assert_eq!(result, Err(Ok(Error::NotInitialized)));
}

#[test]
fn test_fund_rejects_contract_address() {
    let env = Env::default();
    env.mock_all_auths();

    let contract_id = env.register(MilestoneEscrow, ());
    let client = MilestoneEscrowClient::new(&env, &contract_id);

    let result = client.try_fund(&contract_id);
    assert_eq!(result, Err(Ok(Error::InvalidAddress)));
}

#[test]
fn test_fund_rejects_wrong_client() {
    let env = Env::default();
    env.mock_all_auths();

    let client_addr = Address::generate(&env);
    let wrong_client = Address::generate(&env);
    let freelancer_addr = Address::generate(&env);
    let arbiter_addr = Address::generate(&env);
    let admin_addr = Address::generate(&env);
    let token_contract_id = env
        .register_stellar_asset_contract_v2(admin_addr.clone())
        .address();

    let contract_id = env.register(MilestoneEscrow, ());
    let client = MilestoneEscrowClient::new(&env, &contract_id);

    let amounts = list(&env, [1_000_i128]);
    client.initialize(
        &admin_addr,
        &client_addr,
        &freelancer_addr,
        &arbiter_addr,
        &token_contract_id,
        &604800,
        &amounts,
    );

    let result = client.try_fund(&wrong_client);
    assert_eq!(result, Err(Ok(Error::Unauthorized)));
}

#[test]
fn test_fund_fails_without_balance() {
    let env = Env::default();
    env.mock_all_auths();

    let client_addr = Address::generate(&env);
    let freelancer_addr = Address::generate(&env);
    let arbiter_addr = Address::generate(&env);
    let admin_addr = Address::generate(&env);

    let token_contract_id = env
        .register_stellar_asset_contract_v2(admin_addr.clone())
        .address();

    let contract_id = env.register(MilestoneEscrow, ());
    let client = MilestoneEscrowClient::new(&env, &contract_id);

    let amounts = list(&env, [1_000_i128]);
    client.initialize(
        &admin_addr,
        &client_addr,
        &freelancer_addr,
        &arbiter_addr,
        &token_contract_id,
        &604800,
        &amounts,
    );

    let result = client.try_fund(&client_addr);
    assert!(result.is_err());
}

#[test]
fn test_fund_uses_cached_total_for_many_milestones() {
    let env = Env::default();
    env.mock_all_auths();

    let client_addr = Address::generate(&env);
    let freelancer_addr = Address::generate(&env);
    let arbiter_addr = Address::generate(&env);
    let admin_addr = Address::generate(&env);

    let token_contract_id = env
        .register_stellar_asset_contract_v2(admin_addr.clone())
        .address();
    let token = TokenClient::new(&env, &token_contract_id);
    let token_admin = StellarAssetClient::new(&env, &token_contract_id);

    let mut milestone_amounts = no_amounts(&env);
    let mut total = 0_i128;
    for _ in 0..100u32 {
        milestone_amounts.push_back(1_i128);
        total += 1;
    }
    token_admin.mint(&client_addr, &total);

    let contract_id = env.register(MilestoneEscrow, ());
    let client = MilestoneEscrowClient::new(&env, &contract_id);

    client.initialize(
        &admin_addr,
        &client_addr,
        &freelancer_addr,
        &arbiter_addr,
        &token_contract_id,
        &604800,
        &milestone_amounts,
    );

    client.fund(&client_addr);

    assert_eq!(token.balance(&client_addr), 0);
    assert_eq!(token.balance(&contract_id), total);
    let job = client.get_job();
    assert!(job.funded);
    assert_eq!(job.milestones.len(), 100);
}

#[test]
fn test_fund_rejects_missing_milestone_index() {
    let env = Env::default();
    env.mock_all_auths();

    let client_addr = Address::generate(&env);
    let freelancer_addr = Address::generate(&env);
    let arbiter_addr = Address::generate(&env);
    let admin_addr = Address::generate(&env);

    let token_contract_id = env
        .register_stellar_asset_contract_v2(admin_addr.clone())
        .address();
    let token = TokenClient::new(&env, &token_contract_id);
    let token_admin = StellarAssetClient::new(&env, &token_contract_id);
    token_admin.mint(&client_addr, &3_000);

    let contract_id = env.register(MilestoneEscrow, ());
    let client = MilestoneEscrowClient::new(&env, &contract_id);

    let amounts = list(&env, [1_000_i128, 2_000_i128]);
    client.initialize(
        &admin_addr,
        &client_addr,
        &freelancer_addr,
        &arbiter_addr,
        &token_contract_id,
        &604800,
        &amounts,
    );

    env.as_contract(&contract_id, || {
        env.storage().persistent().remove(&DataKey::Milestone(1u32));
    });

    let result = client.try_fund(&client_addr);
    assert_eq!(result, Err(Ok(Error::InvalidMilestone)));
    assert_eq!(token.balance(&client_addr), 3_000);
    assert_eq!(token.balance(&contract_id), 0);
}

#[test]
fn test_fund_rejects_zero_milestone_amount() {
    let env = Env::default();
    env.mock_all_auths();

    let client_addr = Address::generate(&env);
    let freelancer_addr = Address::generate(&env);
    let arbiter_addr = Address::generate(&env);
    let admin_addr = Address::generate(&env);

    let token_contract_id = env
        .register_stellar_asset_contract_v2(admin_addr.clone())
        .address();
    let token = TokenClient::new(&env, &token_contract_id);
    let token_admin = StellarAssetClient::new(&env, &token_contract_id);
    token_admin.mint(&client_addr, &1_000);

    let contract_id = env.register(MilestoneEscrow, ());
    let client = MilestoneEscrowClient::new(&env, &contract_id);

    let amounts = list(&env, [1_000_i128]);
    client.initialize(
        &admin_addr,
        &client_addr,
        &freelancer_addr,
        &arbiter_addr,
        &token_contract_id,
        &604800,
        &amounts,
    );

    env.as_contract(&contract_id, || {
        let mut milestone: Milestone = env
            .storage()
            .persistent()
            .get(&DataKey::Milestone(0u32))
            .unwrap();
        milestone.amount = 0;
        env.storage()
            .persistent()
            .set(&DataKey::Milestone(0u32), &milestone);
    });

    let result = client.try_fund(&client_addr);
    assert_eq!(result, Err(Ok(Error::InvalidAmount)));
    assert_eq!(token.balance(&client_addr), 1_000);
    assert_eq!(token.balance(&contract_id), 0);
}

#[test]
fn test_fund_rejects_negative_milestone_amount() {
    let env = Env::default();
    env.mock_all_auths();

    let client_addr = Address::generate(&env);
    let freelancer_addr = Address::generate(&env);
    let arbiter_addr = Address::generate(&env);
    let admin_addr = Address::generate(&env);

    let token_contract_id = env
        .register_stellar_asset_contract_v2(admin_addr.clone())
        .address();
    let token = TokenClient::new(&env, &token_contract_id);
    let token_admin = StellarAssetClient::new(&env, &token_contract_id);
    token_admin.mint(&client_addr, &1_000);

    let contract_id = env.register(MilestoneEscrow, ());
    let client = MilestoneEscrowClient::new(&env, &contract_id);

    let amounts = list(&env, [1_000_i128]);
    client.initialize(
        &admin_addr,
        &client_addr,
        &freelancer_addr,
        &arbiter_addr,
        &token_contract_id,
        &604800,
        &amounts,
    );

    env.as_contract(&contract_id, || {
        let mut milestone: Milestone = env
            .storage()
            .persistent()
            .get(&DataKey::Milestone(0u32))
            .unwrap();
        milestone.amount = -1;
        env.storage()
            .persistent()
            .set(&DataKey::Milestone(0u32), &milestone);
    });

    let result = client.try_fund(&client_addr);
    assert_eq!(result, Err(Ok(Error::InvalidAmount)));
    assert_eq!(token.balance(&client_addr), 1_000);
    assert_eq!(token.balance(&contract_id), 0);
}

#[test]
fn test_fund_rejects_empty_milestone_set() {
    let env = Env::default();
    env.mock_all_auths();

    let client_addr = Address::generate(&env);
    let freelancer_addr = Address::generate(&env);
    let arbiter_addr = Address::generate(&env);
    let admin_addr = Address::generate(&env);

    let token_contract_id = env
        .register_stellar_asset_contract_v2(admin_addr.clone())
        .address();

    let contract_id = env.register(MilestoneEscrow, ());
    let client = MilestoneEscrowClient::new(&env, &contract_id);

    let amounts = no_amounts(&env);
    let result = client.try_initialize(
        &admin_addr,
        &client_addr,
        &freelancer_addr,
        &arbiter_addr,
        &token_contract_id,
        &604800,
        &amounts,
    );
    assert_eq!(result, Err(Ok(Error::InvalidAmount)));
}

#[test]
fn test_mark_delivered_before_funded_fails() {
    let env = Env::default();
    env.mock_all_auths();

    let client_addr = Address::generate(&env);
    let freelancer_addr = Address::generate(&env);
    let arbiter_addr = Address::generate(&env);
    let admin_addr = Address::generate(&env);
    let token_contract_id = env
        .register_stellar_asset_contract_v2(admin_addr.clone())
        .address();

    let contract_id = env.register(MilestoneEscrow, ());
    let client = MilestoneEscrowClient::new(&env, &contract_id);

    let amounts = list(&env, [1_000_i128]);
    client.initialize(
        &admin_addr,
        &client_addr,
        &freelancer_addr,
        &arbiter_addr,
        &token_contract_id,
        &604800,
        &amounts,
    );

    let result = client.try_mark_delivered(&freelancer_addr, &0u32);
    assert!(result.is_err());
}

#[test]
fn test_admin_add_token() {
    let env = Env::default();
    env.mock_all_auths();

    let client_addr = Address::generate(&env);
    let freelancer_addr = Address::generate(&env);
    let arbiter_addr = Address::generate(&env);
    let admin_addr = Address::generate(&env);

    let token1 = env
        .register_stellar_asset_contract_v2(admin_addr.clone())
        .address();
    let token2 = env
        .register_stellar_asset_contract_v2(admin_addr.clone())
        .address();

    let contract_id = env.register(MilestoneEscrow, ());
    let client = MilestoneEscrowClient::new(&env, &contract_id);

    let amounts = list(&env, [1_000_i128]);
    client.initialize(
        &admin_addr,
        &client_addr,
        &freelancer_addr,
        &arbiter_addr,
        &token1,
        &604800,
        &amounts,
    );

    assert!(client.is_token_whitelisted(&token1));
    assert!(!client.is_token_whitelisted(&token2));

    client.add_whitelisted_token(&admin_addr, &token2);
    assert!(client.is_token_whitelisted(&token2));

    let whitelist = client.get_whitelisted_tokens();
    assert_eq!(whitelist.len(), 2);
}

#[test]
fn test_non_admin_add_token_fails() {
    let env = Env::default();
    env.mock_all_auths();

    let client_addr = Address::generate(&env);
    let freelancer_addr = Address::generate(&env);
    let arbiter_addr = Address::generate(&env);
    let admin_addr = Address::generate(&env);
    let bad_actor = Address::generate(&env);

    let token1 = env
        .register_stellar_asset_contract_v2(admin_addr.clone())
        .address();
    let token2 = env
        .register_stellar_asset_contract_v2(admin_addr.clone())
        .address();

    let contract_id = env.register(MilestoneEscrow, ());
    let client = MilestoneEscrowClient::new(&env, &contract_id);

    let amounts = list(&env, [1_000_i128]);
    client.initialize(
        &admin_addr,
        &client_addr,
        &freelancer_addr,
        &arbiter_addr,
        &token1,
        &604800,
        &amounts,
    );

    let result = client.try_add_whitelisted_token(&bad_actor, &token2);
    assert_eq!(result, Err(Ok(Error::Unauthorized)));
}

#[test]
fn test_admin_remove_token() {
    let env = Env::default();
    env.mock_all_auths();

    let client_addr = Address::generate(&env);
    let freelancer_addr = Address::generate(&env);
    let arbiter_addr = Address::generate(&env);
    let admin_addr = Address::generate(&env);

    let token1 = env
        .register_stellar_asset_contract_v2(admin_addr.clone())
        .address();
    let token2 = env
        .register_stellar_asset_contract_v2(admin_addr.clone())
        .address();

    let contract_id = env.register(MilestoneEscrow, ());
    let client = MilestoneEscrowClient::new(&env, &contract_id);

    let amounts = list(&env, [1_000_i128]);
    client.initialize(
        &admin_addr,
        &client_addr,
        &freelancer_addr,
        &arbiter_addr,
        &token1,
        &604800,
        &amounts,
    );
    client.add_whitelisted_token(&admin_addr, &token2);

    assert!(client.is_token_whitelisted(&token2));

    client.remove_whitelisted_token(&admin_addr, &token2);
    assert!(!client.is_token_whitelisted(&token2));
}

#[test]
fn test_non_admin_remove_token_fails() {
    let env = Env::default();
    env.mock_all_auths();

    let client_addr = Address::generate(&env);
    let freelancer_addr = Address::generate(&env);
    let arbiter_addr = Address::generate(&env);
    let admin_addr = Address::generate(&env);
    let bad_actor = Address::generate(&env);

    let token1 = env
        .register_stellar_asset_contract_v2(admin_addr.clone())
        .address();
    let token2 = env
        .register_stellar_asset_contract_v2(admin_addr.clone())
        .address();

    let contract_id = env.register(MilestoneEscrow, ());
    let client = MilestoneEscrowClient::new(&env, &contract_id);

    let amounts = list(&env, [1_000_i128]);
    client.initialize(
        &admin_addr,
        &client_addr,
        &freelancer_addr,
        &arbiter_addr,
        &token1,
        &604800,
        &amounts,
    );
    client.add_whitelisted_token(&admin_addr, &token2);

    let result = client.try_remove_whitelisted_token(&bad_actor, &token2);
    assert_eq!(result, Err(Ok(Error::Unauthorized)));
}

#[test]
fn test_add_existing_token_fails() {
    let env = Env::default();
    env.mock_all_auths();

    let client_addr = Address::generate(&env);
    let freelancer_addr = Address::generate(&env);
    let arbiter_addr = Address::generate(&env);
    let admin_addr = Address::generate(&env);

    let token1 = env
        .register_stellar_asset_contract_v2(admin_addr.clone())
        .address();

    let contract_id = env.register(MilestoneEscrow, ());
    let client = MilestoneEscrowClient::new(&env, &contract_id);

    let amounts = list(&env, [1_000_i128]);
    client.initialize(
        &admin_addr,
        &client_addr,
        &freelancer_addr,
        &arbiter_addr,
        &token1,
        &604800,
        &amounts,
    );

    let result = client.try_add_whitelisted_token(&admin_addr, &token1);
    assert!(result.is_err());
}

#[test]
fn test_remove_nonexistent_token_fails() {
    let env = Env::default();
    env.mock_all_auths();

    let client_addr = Address::generate(&env);
    let freelancer_addr = Address::generate(&env);
    let arbiter_addr = Address::generate(&env);
    let admin_addr = Address::generate(&env);

    let token1 = env
        .register_stellar_asset_contract_v2(admin_addr.clone())
        .address();
    let token2 = env
        .register_stellar_asset_contract_v2(admin_addr.clone())
        .address();

    let contract_id = env.register(MilestoneEscrow, ());
    let client = MilestoneEscrowClient::new(&env, &contract_id);

    let amounts = list(&env, [1_000_i128]);
    client.initialize(
        &admin_addr,
        &client_addr,
        &freelancer_addr,
        &arbiter_addr,
        &token1,
        &604800,
        &amounts,
    );

    let result = client.try_remove_whitelisted_token(&admin_addr, &token2);
    assert!(result.is_err());
}

#[test]
fn test_partial_release_remaining_balance() {
    let env = Env::default();
    env.mock_all_auths();

    let client_addr = Address::generate(&env);
    let freelancer_addr = Address::generate(&env);
    let arbiter_addr = Address::generate(&env);
    let admin_addr = Address::generate(&env);

    let token_contract_id = env
        .register_stellar_asset_contract_v2(admin_addr.clone())
        .address();
    let token = TokenClient::new(&env, &token_contract_id);
    let token_admin = StellarAssetClient::new(&env, &token_contract_id);
    token_admin.mint(&client_addr, &10_000);

    let contract_id = env.register(MilestoneEscrow, ());
    let client = MilestoneEscrowClient::new(&env, &contract_id);

    let amounts = list(&env, [10_000_i128]);
    client.initialize(
        &admin_addr,
        &client_addr,
        &freelancer_addr,
        &arbiter_addr,
        &token_contract_id,
        &604800,
        &amounts,
    );

    client.fund(&client_addr);
    client.mark_delivered(&freelancer_addr, &0u32);
    client.approve_partial(&client_addr, &0u32, &4_000_i128);

    assert_eq!(token.balance(&freelancer_addr), 4_000);
    assert_eq!(token.balance(&contract_id), 6_000);

    let job = client.get_job();
    let milestone = job.milestones.get(0).unwrap();
    assert_eq!(milestone.released_amount, 4_000);
    assert_eq!(milestone.status, MilestoneStatus::PartiallyReleased);
}

#[test]
fn test_multiple_partial_releases_sum_full() {
    let env = Env::default();
    env.mock_all_auths();

    let client_addr = Address::generate(&env);
    let freelancer_addr = Address::generate(&env);
    let arbiter_addr = Address::generate(&env);
    let admin_addr = Address::generate(&env);

    let token_contract_id = env
        .register_stellar_asset_contract_v2(admin_addr.clone())
        .address();
    let token = TokenClient::new(&env, &token_contract_id);
    let token_admin = StellarAssetClient::new(&env, &token_contract_id);
    token_admin.mint(&client_addr, &10_000);

    let contract_id = env.register(MilestoneEscrow, ());
    let client = MilestoneEscrowClient::new(&env, &contract_id);

    let amounts = list(&env, [10_000_i128]);
    client.initialize(
        &admin_addr,
        &client_addr,
        &freelancer_addr,
        &arbiter_addr,
        &token_contract_id,
        &604800,
        &amounts,
    );

    client.fund(&client_addr);
    client.mark_delivered(&freelancer_addr, &0u32);
    client.approve_partial(&client_addr, &0u32, &3_000_i128);
    client.approve_partial(&client_addr, &0u32, &3_000_i128);
    client.approve_partial(&client_addr, &0u32, &4_000_i128);

    assert_eq!(token.balance(&freelancer_addr), 10_000);
    assert_eq!(token.balance(&contract_id), 0);

    let job = client.get_job();
    let milestone = job.milestones.get(0).unwrap();
    assert_eq!(milestone.released_amount, 10_000);
    assert_eq!(milestone.status, MilestoneStatus::Released);
}

#[test]
fn test_over_release_fails() {
    let env = Env::default();
    env.mock_all_auths();

    let client_addr = Address::generate(&env);
    let freelancer_addr = Address::generate(&env);
    let arbiter_addr = Address::generate(&env);
    let admin_addr = Address::generate(&env);

    let token_contract_id = env
        .register_stellar_asset_contract_v2(admin_addr.clone())
        .address();
    let token_admin = StellarAssetClient::new(&env, &token_contract_id);
    token_admin.mint(&client_addr, &10_000);

    let contract_id = env.register(MilestoneEscrow, ());
    let client = MilestoneEscrowClient::new(&env, &contract_id);

    let amounts = list(&env, [10_000_i128]);
    client.initialize(
        &admin_addr,
        &client_addr,
        &freelancer_addr,
        &arbiter_addr,
        &token_contract_id,
        &604800,
        &amounts,
    );

    client.fund(&client_addr);
    client.mark_delivered(&freelancer_addr, &0u32);

    let result = client.try_approve_partial(&client_addr, &0u32, &11_000_i128);
    assert!(result.is_err());
}

#[test]
fn test_negative_or_zero_release_fails() {
    let env = Env::default();
    env.mock_all_auths();

    let client_addr = Address::generate(&env);
    let freelancer_addr = Address::generate(&env);
    let arbiter_addr = Address::generate(&env);
    let admin_addr = Address::generate(&env);

    let token_contract_id = env
        .register_stellar_asset_contract_v2(admin_addr.clone())
        .address();
    let token_admin = StellarAssetClient::new(&env, &token_contract_id);
    token_admin.mint(&client_addr, &10_000);

    let contract_id = env.register(MilestoneEscrow, ());
    let client = MilestoneEscrowClient::new(&env, &contract_id);

    let amounts = list(&env, [10_000_i128]);
    client.initialize(
        &admin_addr,
        &client_addr,
        &freelancer_addr,
        &arbiter_addr,
        &token_contract_id,
        &604800,
        &amounts,
    );

    client.fund(&client_addr);
    client.mark_delivered(&freelancer_addr, &0u32);

    let result1 = client.try_approve_partial(&client_addr, &0u32, &0_i128);
    assert!(result1.is_err());

    let result2 = client.try_approve_partial(&client_addr, &0u32, &-1000_i128);
    assert!(result2.is_err());
}

#[test]
fn test_approve_partial_large_amounts_fails() {
    let env = Env::default();
    env.mock_all_auths();

    let client_addr = Address::generate(&env);
    let freelancer_addr = Address::generate(&env);
    let arbiter_addr = Address::generate(&env);
    let admin_addr = Address::generate(&env);

    let token_contract_id = env
        .register_stellar_asset_contract_v2(admin_addr.clone())
        .address();
    let token_admin = StellarAssetClient::new(&env, &token_contract_id);
    token_admin.mint(&client_addr, &i128::MAX);

    let contract_id = env.register(MilestoneEscrow, ());
    let client = MilestoneEscrowClient::new(&env, &contract_id);

    let amounts = list(&env, [i128::MAX]);
    client.initialize(
        &admin_addr,
        &client_addr,
        &freelancer_addr,
        &arbiter_addr,
        &token_contract_id,
        &604800,
        &amounts,
    );

    client.fund(&client_addr);
    client.mark_delivered(&freelancer_addr, &0u32);
    client.approve_partial(&client_addr, &0u32, &1_i128);

    // Try to approve an amount that would overflow released_amount
    let result = client.try_approve_partial(&client_addr, &0u32, &i128::MAX);
    assert_eq!(result, Err(Ok(Error::InvalidAmount)));
}

#[test]
fn test_release_on_wrong_status_fails() {
    let env = Env::default();
    env.mock_all_auths();

    let client_addr = Address::generate(&env);
    let freelancer_addr = Address::generate(&env);
    let arbiter_addr = Address::generate(&env);
    let admin_addr = Address::generate(&env);

    let token_contract_id = env
        .register_stellar_asset_contract_v2(admin_addr.clone())
        .address();
    let token_admin = StellarAssetClient::new(&env, &token_contract_id);
    token_admin.mint(&client_addr, &10_000);

    let contract_id = env.register(MilestoneEscrow, ());
    let client = MilestoneEscrowClient::new(&env, &contract_id);

    let amounts = list(&env, [10_000_i128]);
    client.initialize(
        &admin_addr,
        &client_addr,
        &freelancer_addr,
        &arbiter_addr,
        &token_contract_id,
        &604800,
        &amounts,
    );

    client.fund(&client_addr);

    let result = client.try_approve_partial(&client_addr, &0u32, &4000_i128);
    assert!(result.is_err());
}

#[test]
fn test_approve_partial_wrong_status_fails() {
    let env = Env::default();
    env.mock_all_auths();

    let client_addr = Address::generate(&env);
    let freelancer_addr = Address::generate(&env);
    let arbiter_addr = Address::generate(&env);
    let admin_addr = Address::generate(&env);

    let token_contract_id = env
        .register_stellar_asset_contract_v2(admin_addr.clone())
        .address();
    let token_admin = StellarAssetClient::new(&env, &token_contract_id);
    token_admin.mint(&client_addr, &10_000);

    let contract_id = env.register(MilestoneEscrow, ());
    let client = MilestoneEscrowClient::new(&env, &contract_id);

    let amounts = list(&env, [10_000_i128]);
    client.initialize(
        &admin_addr,
        &client_addr,
        &freelancer_addr,
        &arbiter_addr,
        &token_contract_id,
        &604800,
        &amounts,
    );
    client.fund(&client_addr);

    // Try to approve partial on Pending status
    let result = client.try_approve_partial(&client_addr, &0u32, &4000_i128);
    assert_eq!(result, Err(Ok(Error::InvalidStatus)));

    // Mark delivered and approve fully
    client.mark_delivered(&freelancer_addr, &0u32);
    client.approve_milestone(&client_addr, &0u32);

    // Try to approve partial on Released status
    let result = client.try_approve_partial(&client_addr, &0u32, &1000_i128);
    assert_eq!(result, Err(Ok(Error::InvalidStatus)));
}

#[test]
fn test_approve_partial_invalid_milestone_fails() {
    let env = Env::default();
    env.mock_all_auths();

    let client_addr = Address::generate(&env);
    let freelancer_addr = Address::generate(&env);
    let arbiter_addr = Address::generate(&env);
    let admin_addr = Address::generate(&env);

    let token_contract_id = env
        .register_stellar_asset_contract_v2(admin_addr.clone())
        .address();
    let token_admin = StellarAssetClient::new(&env, &token_contract_id);
    token_admin.mint(&client_addr, &10_000);

    let contract_id = env.register(MilestoneEscrow, ());
    let client = MilestoneEscrowClient::new(&env, &contract_id);

    let amounts = list(&env, [10_000_i128]);
    client.initialize(
        &admin_addr,
        &client_addr,
        &freelancer_addr,
        &arbiter_addr,
        &token_contract_id,
        &604800,
        &amounts,
    );
    client.fund(&client_addr);
    client.mark_delivered(&freelancer_addr, &0u32);

    // Try to approve partial on non-existent milestone
    let result = client.try_approve_partial(&client_addr, &1u32, &4000_i128);
    assert_eq!(result, Err(Ok(Error::InvalidMilestone)));
}

#[test]
fn test_approve_partial_before_funded_fails() {
    let env = Env::default();
    env.mock_all_auths();

    let client_addr = Address::generate(&env);
    let freelancer_addr = Address::generate(&env);
    let arbiter_addr = Address::generate(&env);
    let admin_addr = Address::generate(&env);

    let token_contract_id = env
        .register_stellar_asset_contract_v2(admin_addr.clone())
        .address();

    let contract_id = env.register(MilestoneEscrow, ());
    let client = MilestoneEscrowClient::new(&env, &contract_id);

    let amounts = list(&env, [10_000_i128]);
    client.initialize(
        &admin_addr,
        &client_addr,
        &freelancer_addr,
        &arbiter_addr,
        &token_contract_id,
        &604800,
        &amounts,
    );

    let result = client.try_approve_partial(&client_addr, &0u32, &4000_i128);
    assert_eq!(result, Err(Ok(Error::NotFunded)));
}

#[test]
fn test_approve_partial_unauthorized_partial_release_fails() {
    let env = Env::default();
    env.mock_all_auths();

    let client_addr = Address::generate(&env);
    let freelancer_addr = Address::generate(&env);
    let arbiter_addr = Address::generate(&env);
    let admin_addr = Address::generate(&env);

    let token_contract_id = env
        .register_stellar_asset_contract_v2(admin_addr.clone())
        .address();
    let token_admin = StellarAssetClient::new(&env, &token_contract_id);
    token_admin.mint(&client_addr, &10_000);

    let contract_id = env.register(MilestoneEscrow, ());
    let client = MilestoneEscrowClient::new(&env, &contract_id);

    let amounts = list(&env, [10_000_i128]);
    client.initialize(
        &admin_addr,
        &client_addr,
        &freelancer_addr,
        &arbiter_addr,
        &token_contract_id,
        &604800,
        &amounts,
    );
    client.fund(&client_addr);
    client.mark_delivered(&freelancer_addr, &0u32);

    let result = client.try_approve_partial(&freelancer_addr, &0u32, &4000_i128);
    assert_eq!(result, Err(Ok(Error::Unauthorized)));
}

#[test]
fn test_approve_partial_arbiter_is_unauthorized() {
    let env = Env::default();
    env.mock_all_auths();

    let client_addr = Address::generate(&env);
    let freelancer_addr = Address::generate(&env);
    let arbiter_addr = Address::generate(&env);
    let admin_addr = Address::generate(&env);

    let token_contract_id = env
        .register_stellar_asset_contract_v2(admin_addr.clone())
        .address();
    let token_admin = StellarAssetClient::new(&env, &token_contract_id);
    token_admin.mint(&client_addr, &10_000);

    let contract_id = env.register(MilestoneEscrow, ());
    let client = MilestoneEscrowClient::new(&env, &contract_id);

    let amounts = list(&env, [10_000_i128]);
    client.initialize(
        &admin_addr,
        &client_addr,
        &freelancer_addr,
        &arbiter_addr,
        &token_contract_id,
        &604800,
        &amounts,
    );
    client.fund(&client_addr);
    client.mark_delivered(&freelancer_addr, &0u32);

    let result = client.try_approve_partial(&arbiter_addr, &0u32, &4000_i128);
    assert_eq!(result, Err(Ok(Error::Unauthorized)));
}

#[test]
fn test_approve_partial_zero_amount_fails() {
    let env = Env::default();
    env.mock_all_auths();

    let client_addr = Address::generate(&env);
    let freelancer_addr = Address::generate(&env);
    let arbiter_addr = Address::generate(&env);
    let admin_addr = Address::generate(&env);

    let token_contract_id = env
        .register_stellar_asset_contract_v2(admin_addr.clone())
        .address();
    let token_admin = StellarAssetClient::new(&env, &token_contract_id);
    token_admin.mint(&client_addr, &10_000);

    let contract_id = env.register(MilestoneEscrow, ());
    let client = MilestoneEscrowClient::new(&env, &contract_id);

    let amounts = list(&env, [10_000_i128]);
    client.initialize(
        &admin_addr,
        &client_addr,
        &freelancer_addr,
        &arbiter_addr,
        &token_contract_id,
        &604800,
        &amounts,
    );
    client.fund(&client_addr);
    client.mark_delivered(&freelancer_addr, &0u32);

    let result = client.try_approve_partial(&client_addr, &0u32, &0_i128);
    assert_eq!(result, Err(Ok(Error::InvalidAmount)));
}

#[test]
fn test_approve_partial_negative_amount_fails() {
    let env = Env::default();
    env.mock_all_auths();

    let client_addr = Address::generate(&env);
    let freelancer_addr = Address::generate(&env);
    let arbiter_addr = Address::generate(&env);
    let admin_addr = Address::generate(&env);

    let token_contract_id = env
        .register_stellar_asset_contract_v2(admin_addr.clone())
        .address();
    let token_admin = StellarAssetClient::new(&env, &token_contract_id);
    token_admin.mint(&client_addr, &10_000);

    let contract_id = env.register(MilestoneEscrow, ());
    let client = MilestoneEscrowClient::new(&env, &contract_id);

    let amounts = list(&env, [10_000_i128]);
    client.initialize(
        &admin_addr,
        &client_addr,
        &freelancer_addr,
        &arbiter_addr,
        &token_contract_id,
        &604800,
        &amounts,
    );
    client.fund(&client_addr);
    client.mark_delivered(&freelancer_addr, &0u32);

    let result = client.try_approve_partial(&client_addr, &0u32, &-1_i128);
    assert_eq!(result, Err(Ok(Error::InvalidAmount)));
}

#[test]
fn test_whitelist_state_transitions() {
    let env = Env::default();
    env.mock_all_auths();

    let client_addr = Address::generate(&env);
    let freelancer_addr = Address::generate(&env);
    let arbiter_addr = Address::generate(&env);
    let admin_addr = Address::generate(&env);

    let token1 = env
        .register_stellar_asset_contract_v2(admin_addr.clone())
        .address();
    let token2 = env
        .register_stellar_asset_contract_v2(admin_addr.clone())
        .address();
    let token3 = env
        .register_stellar_asset_contract_v2(admin_addr.clone())
        .address();

    let contract_id = env.register(MilestoneEscrow, ());
    let client = MilestoneEscrowClient::new(&env, &contract_id);

    let amounts = list(&env, [1_000_i128]);
    client.initialize(
        &admin_addr,
        &client_addr,
        &freelancer_addr,
        &arbiter_addr,
        &token1,
        &604800,
        &amounts,
    );

    assert!(client.is_token_whitelisted(&token1));
    assert!(!client.is_token_whitelisted(&token2));

    client.add_whitelisted_token(&admin_addr, &token2);
    assert!(client.is_token_whitelisted(&token2));

    let whitelist = client.get_whitelisted_tokens();
    assert_eq!(whitelist.len(), 2);

    client.remove_whitelisted_token(&admin_addr, &token2);
    assert!(!client.is_token_whitelisted(&token2));

    client.add_whitelisted_token(&admin_addr, &token3);
    assert!(client.is_token_whitelisted(&token3));
}

#[test]
fn test_extend_milestone_deadline_succeeds() {
    let env = Env::default();
    env.mock_all_auths();
    let amounts = list(&env, [5_000_i128]);
    let (client_addr, freelancer_addr, _, _, _, _, escrow) = setup_funded_escrow(&env, amounts);

    escrow.mark_delivered(&freelancer_addr, &0u32);

    let initial_time = escrow.time_until_auto_release(&0u32);

    // Extend by 1000 seconds
    escrow.extend_milestone_deadline(&client_addr, &0u32, &1000u64);

    let new_time = escrow.time_until_auto_release(&0u32);
    assert_eq!(new_time, initial_time + 1000);
}

#[test]
fn test_extend_milestone_deadline_not_client_fails() {
    let env = Env::default();
    env.mock_all_auths();
    let amounts = list(&env, [5_000_i128]);
    let (_, freelancer_addr, _, _, _, _, escrow) = setup_funded_escrow(&env, amounts);

    escrow.mark_delivered(&freelancer_addr, &0u32);

    // freelancer tries to extend
    let result = escrow.try_extend_milestone_deadline(&freelancer_addr, &0u32, &1000u64);
    assert_eq!(result.unwrap_err().unwrap(), Error::Unauthorized);
}

#[test]
fn test_extend_milestone_deadline_invalid_status_fails() {
    let env = Env::default();
    env.mock_all_auths();
    let amounts = list(&env, [5_000_i128]);
    let (client_addr, _, _, _, _, _, escrow) = setup_funded_escrow(&env, amounts);

    // milestone is Pending, not Delivered
    let result = escrow.try_extend_milestone_deadline(&client_addr, &0u32, &1000u64);
    assert_eq!(result.unwrap_err().unwrap(), Error::InvalidStatus);
}

#[test]
fn test_extend_milestone_deadline_zero_seconds_fails() {
    let env = Env::default();
    env.mock_all_auths();
    let amounts = list(&env, [5_000_i128]);
    let (client_addr, freelancer_addr, _, _, _, _, escrow) = setup_funded_escrow(&env, amounts);

    escrow.mark_delivered(&freelancer_addr, &0u32);

    let result = escrow.try_extend_milestone_deadline(&client_addr, &0u32, &0u64);
    assert_eq!(result.unwrap_err().unwrap(), Error::InvalidExtension);
}

#[test]
fn test_approve_partial_on_disputed_milestone_fails() {
    let env = Env::default();
    env.mock_all_auths();

    let client_addr = Address::generate(&env);
    let freelancer_addr = Address::generate(&env);
    let arbiter_addr = Address::generate(&env);
    let admin_addr = Address::generate(&env);

    let token_contract_id = env
        .register_stellar_asset_contract_v2(admin_addr.clone())
        .address();
    let token_admin = StellarAssetClient::new(&env, &token_contract_id);
    token_admin.mint(&client_addr, &10_000);

    let contract_id = env.register(MilestoneEscrow, ());
    let client = MilestoneEscrowClient::new(&env, &contract_id);

    let amounts = list(&env, [10_000_i128]);
    client.initialize(
        &admin_addr,
        &client_addr,
        &freelancer_addr,
        &arbiter_addr,
        &token_contract_id,
        &604800,
        &amounts,
    );
    client.fund(&client_addr);
    client.mark_delivered(&freelancer_addr, &0u32);
    client.raise_dispute(&client_addr, &0u32);

    let result = client.try_approve_partial(&client_addr, &0u32, &4000_i128);
    assert_eq!(result, Err(Ok(Error::InvalidStatus)));
}

#[test]
fn test_approve_partial_on_refunded_milestone_fails() {
    let env = Env::default();
    env.mock_all_auths();

    let client_addr = Address::generate(&env);
    let freelancer_addr = Address::generate(&env);
    let arbiter_addr = Address::generate(&env);
    let admin_addr = Address::generate(&env);

    let token_contract_id = env
        .register_stellar_asset_contract_v2(admin_addr.clone())
        .address();
    let token_admin = StellarAssetClient::new(&env, &token_contract_id);
    token_admin.mint(&client_addr, &10_000);

    let contract_id = env.register(MilestoneEscrow, ());
    let client = MilestoneEscrowClient::new(&env, &contract_id);

    let amounts = list(&env, [10_000_i128]);
    client.initialize(
        &admin_addr,
        &client_addr,
        &freelancer_addr,
        &arbiter_addr,
        &token_contract_id,
        &604800,
        &amounts,
    );
    client.fund(&client_addr);
    client.mark_delivered(&freelancer_addr, &0u32);
    client.raise_dispute(&client_addr, &0u32);
    client.resolve_dispute(&arbiter_addr, &0u32, &false);

    let result = client.try_approve_partial(&client_addr, &0u32, &4000_i128);
    assert_eq!(result, Err(Ok(Error::InvalidStatus)));
}

#[test]
fn test_multisig_lock_requires_admin() {
    let env = Env::default();
    env.mock_all_auths();

    let (_, _, _, admin_addr, _, _, client) = setup_funded_escrow(&env, list(&env, [1_000_i128]));

    let attacker = Address::generate(&env);
    let result = client.try_multisig_lock(&attacker);
    assert_eq!(result, Err(Ok(Error::Unauthorized)));

    // Admin should succeed
    client.multisig_lock(&admin_addr);
    assert!(client.is_multisig_locked());
}

#[test]
fn test_multisig_lock_state_transitions() {
    let env = Env::default();
    env.mock_all_auths();

    let (_, _, _, admin_addr, _, _, client) = setup_funded_escrow(&env, list(&env, [1_000_i128]));

    assert!(!client.is_multisig_locked());
    client.multisig_lock(&admin_addr);
    assert!(client.is_multisig_locked());
}

#[test]
fn test_multisig_admin_override_release_requires_admin() {
    let env = Env::default();
    env.mock_all_auths();

    let (_, freelancer_addr, _, admin_addr, token_id, _, client) =
        setup_funded_escrow(&env, list(&env, [1_000_i128]));

    let attacker = Address::generate(&env);
    let result = client.try_multisig_admin_override_release(&attacker, &0u32);
    assert_eq!(result, Err(Ok(Error::Unauthorized)));

    // Admin override should succeed and release funds to freelancer
    let token = TokenClient::new(&env, &token_id);
    let freelancer_before = token.balance(&freelancer_addr);
    client.multisig_admin_override_release(&admin_addr, &0u32);
    assert_eq!(token.balance(&freelancer_addr), freelancer_before + 1_000);
    // Multisig lock should be cleared
    assert!(!client.is_multisig_locked());
}

#[test]
fn test_multisig_admin_override_refund_requires_admin() {
    let env = Env::default();
    env.mock_all_auths();

    let (client_addr, _, _, admin_addr, token_id, _, client) =
        setup_funded_escrow(&env, list(&env, [1_000_i128]));

    let attacker = Address::generate(&env);
    let result = client.try_multisig_admin_override_refund(&attacker, &0u32);
    assert_eq!(result, Err(Ok(Error::Unauthorized)));

    // Admin override should succeed and refund to client. The source
    // state must be multisig-locked; otherwise the precondition guard
    // rejects the call before any refund is applied.
    client.multisig_lock(&admin_addr);
    let token = TokenClient::new(&env, &token_id);
    let client_before = token.balance(&client_addr);
    client.multisig_admin_override_refund(&admin_addr, &0u32);
    assert_eq!(token.balance(&client_addr), client_before + 1_000);
    // Multisig lock should be cleared
    assert!(!client.is_multisig_locked());
}

#[test]
fn test_multisig_admin_override_release_emits_event() {
    let env = Env::default();
    env.mock_all_auths();

    let (_, freelancer_addr, _, admin_addr, token_id, contract_id, client) =
        setup_funded_escrow(&env, list(&env, [1_000_i128]));

    client.multisig_admin_override_release(&admin_addr, &0u32);

    let topic_val: Val = Symbol("msadmrel").into_val(&env);
    let mut found = false;
    for event in env.events().all().iter() {
        if let Some(topic) = event.1.get(0) {
            if topic.get_payload() == topic_val.get_payload() {
                found = true;
                assert_eq!(event.1.len(), 1);
                let ev = MultisigAdminOverrideReleaseEvent::from_val(&env, &event.2);
                assert_eq!(ev.admin, admin_addr);
                assert_eq!(ev.contract_id, contract_id);
                assert_eq!(ev.milestone_index, 0);
                assert_eq!(ev.freelancer, freelancer_addr);
                assert_eq!(ev.token, token_id);
                assert_eq!(ev.amount, 1_000);
            }
        }
    }
    assert!(found, "msadmrel event not emitted");
}

#[test]
fn test_multisig_admin_override_refund_emits_event() {
    let env = Env::default();
    env.mock_all_auths();

    let (client_addr, _, _, admin_addr, token_id, contract_id, client) =
        setup_funded_escrow(&env, list(&env, [1_000_i128]));

    client.multisig_lock(&admin_addr);
    client.multisig_admin_override_refund(&admin_addr, &0u32);

    let topic_val: Val = Symbol("msadmref").into_val(&env);
    let mut found = false;
    for event in env.events().all().iter() {
        if let Some(topic) = event.1.get(0) {
            if topic.get_payload() == topic_val.get_payload() {
                found = true;
                assert_eq!(event.1.len(), 1);
                let ev = MultisigAdminOverrideRefundEvent::from_val(&env, &event.2);
                assert_eq!(ev.admin, admin_addr);
                assert_eq!(ev.contract_id, contract_id);
                assert_eq!(ev.milestone_index, 0);
                assert_eq!(ev.client, client_addr);
                assert_eq!(ev.token, token_id);
                assert_eq!(ev.amount, 1_000);
            }
        }
    }
    assert!(found, "msadmref event not emitted");
}

#[test]
fn test_multisig_override_release_clears_locked_flag() {
    let env = Env::default();
    env.mock_all_auths();

    let (_, _, _, admin_addr, _, _, client) = setup_funded_escrow(&env, list(&env, [1_000_i128]));

    client.multisig_lock(&admin_addr);
    assert!(client.is_multisig_locked());

    client.multisig_admin_override_release(&admin_addr, &0u32);
    assert!(!client.is_multisig_locked());
}

#[test]
fn test_multisig_override_refund_clears_locked_flag() {
    let env = Env::default();
    env.mock_all_auths();

    let (_, _, _, admin_addr, _, _, client) = setup_funded_escrow(&env, list(&env, [1_000_i128]));

    client.multisig_lock(&admin_addr);
    assert!(client.is_multisig_locked());

    client.multisig_admin_override_refund(&admin_addr, &0u32);
    assert!(!client.is_multisig_locked());
}

#[test]
fn test_multisig_admin_override_release_on_released_fails() {
    let env = Env::default();
    env.mock_all_auths();

    let (client_addr, freelancer_addr, _, admin_addr, _, _, client) =
        setup_funded_escrow(&env, list(&env, [1_000_i128]));

    // Fully release the milestone first (client must approve)
    client.mark_delivered(&freelancer_addr, &0u32);
    client.approve_milestone(&client_addr, &0u32);

    let result = client.try_multisig_admin_override_release(&admin_addr, &0u32);
    assert_eq!(result, Err(Ok(Error::InvalidStatus)));
}

#[test]
fn test_multisig_admin_override_release_not_funded_fails() {
    let env = Env::default();
    env.mock_all_auths();

    let admin_addr = Address::generate(&env);
    let client_addr = Address::generate(&env);
    let freelancer_addr = Address::generate(&env);
    let arbiter_addr = Address::generate(&env);

    let token_contract_id = env
        .register_stellar_asset_contract_v2(admin_addr.clone())
        .address();

    let contract_id = env.register(MilestoneEscrow, ());
    let client = MilestoneEscrowClient::new(&env, &contract_id);

    let amounts = list(&env, [1_000_i128]);
    client.initialize(
        &admin_addr,
        &client_addr,
        &freelancer_addr,
        &arbiter_addr,
        &token_contract_id,
        &604800,
        &amounts,
    );

    let result = client.try_multisig_admin_override_release(&admin_addr, &0u32);
    assert_eq!(result, Err(Ok(Error::NotFunded)));
}

#[test]
fn test_claim_auto_release_disputed_status_fails() {
    let env = Env::default();
    env.mock_all_auths();

    let client_addr = Address::generate(&env);
    let freelancer_addr = Address::generate(&env);
    let arbiter_addr = Address::generate(&env);
    let admin_addr = Address::generate(&env);

    let token_contract_id = env
        .register_stellar_asset_contract_v2(admin_addr.clone())
        .address();
    let token_admin = StellarAssetClient::new(&env, &token_contract_id);
    token_admin.mint(&client_addr, &10_000);

    let contract_id = env.register(MilestoneEscrow, ());
    let client = MilestoneEscrowClient::new(&env, &contract_id);

    let amounts = list(&env, [10_000_i128]);
    client.initialize(
        &admin_addr,
        &client_addr,
        &freelancer_addr,
        &arbiter_addr,
        &token_contract_id,
        &100,
        &amounts,
    );

    client.fund(&client_addr);
    client.mark_delivered(&freelancer_addr, &0u32);
    client.raise_dispute(&client_addr, &0u32);

    env.ledger().with_mut(|li| {
        li.timestamp += 200;
    });

    let result = client.try_claim_auto_release(&freelancer_addr, &0u32);
    assert_eq!(result, Err(Ok(Error::InvalidStatus)));
}

#[test]
fn test_time_until_auto_release() {
    let env = Env::default();
    env.mock_all_auths();

    let client_addr = Address::generate(&env);
    let freelancer_addr = Address::generate(&env);
    let arbiter_addr = Address::generate(&env);
    let admin_addr = Address::generate(&env);

    let token_contract_id = env
        .register_stellar_asset_contract_v2(admin_addr.clone())
        .address();
    let token_admin = StellarAssetClient::new(&env, &token_contract_id);
    token_admin.mint(&client_addr, &10_000);

    let contract_id = env.register(MilestoneEscrow, ());
    let client = MilestoneEscrowClient::new(&env, &contract_id);

    let amounts = list(&env, [10_000_i128]);
    client.initialize(
        &admin_addr,
        &client_addr,
        &freelancer_addr,
        &arbiter_addr,
        &token_contract_id,
        &100,
        &amounts,
    );

    client.fund(&client_addr);
    client.mark_delivered(&freelancer_addr, &0u32);

    let time_remaining = client.time_until_auto_release(&0u32);
    assert!(time_remaining > 0);
    assert_eq!(time_remaining, 100);

    env.ledger().with_mut(|li| {
        li.timestamp += 50;
    });
    let time_remaining2 = client.time_until_auto_release(&0u32);
    assert_eq!(time_remaining2, 50);

    env.ledger().with_mut(|li| {
        li.timestamp += 100;
    });
    let time_remaining3 = client.time_until_auto_release(&0u32);
    assert!(time_remaining3 < 0);
}

#[test]
fn test_approve_milestone_state_transitions() {
    let env = Env::default();
    env.mock_all_auths();

    let client_addr = Address::generate(&env);
    let freelancer_addr = Address::generate(&env);
    let arbiter_addr = Address::generate(&env);
    let admin_addr = Address::generate(&env);
    let token_contract_id = env
        .register_stellar_asset_contract_v2(admin_addr.clone())
        .address();
    let token = TokenClient::new(&env, &token_contract_id);
    let token_admin = StellarAssetClient::new(&env, &token_contract_id);
    token_admin.mint(&client_addr, &5_000);

    let contract_id = env.register(MilestoneEscrow, ());
    let client = MilestoneEscrowClient::new(&env, &contract_id);

    // Setup 5 milestones: one for each invalid status path, plus one for the valid path
    let amounts = list(&env, [1_000_i128, 1_000_i128, 1_000_i128, 1_000_i128, 1_000_i128]);
    client.initialize(
        &admin_addr,
        &client_addr,
        &freelancer_addr,
        &arbiter_addr,
        &token_contract_id,
        &604800,
        &amounts,
    );
    client.fund(&client_addr);

    let result = client.try_approve_milestone(&client_addr, &0u32);
    assert_eq!(result, Err(Ok(Error::InvalidStatus)));

    client.mark_delivered(&freelancer_addr, &0u32);
    client.approve_milestone(&client_addr, &0u32);
    let job = client.get_job();
    assert_eq!(
        job.milestones.get(0).unwrap().status,
        MilestoneStatus::Released
    );

    client.mark_delivered(&freelancer_addr, &1u32);
    client.approve_partial(&client_addr, &1u32, &500_i128);
    let result = client.try_approve_milestone(&client_addr, &1u32);
    assert_eq!(result, Err(Ok(Error::InvalidStatus)));

    client.mark_delivered(&freelancer_addr, &2u32);
    client.approve_milestone(&client_addr, &2u32);
    let result = client.try_approve_milestone(&client_addr, &2u32);
    assert_eq!(result, Err(Ok(Error::InvalidStatus)));

    client.mark_delivered(&freelancer_addr, &3u32);
    client.raise_dispute(&client_addr, &3u32);
    let result = client.try_approve_milestone(&client_addr, &3u32);
    assert_eq!(result, Err(Ok(Error::InvalidStatus)));

    client.mark_delivered(&freelancer_addr, &4u32);
    client.raise_dispute(&client_addr, &4u32);
    client.resolve_dispute(&arbiter_addr, &4u32, &false);
    let result = client.try_approve_milestone(&client_addr, &4u32);
    assert_eq!(result, Err(Ok(Error::InvalidStatus)));

    // Verify token balances
    assert_eq!(token.balance(&freelancer_addr), 2_500);
    assert_eq!(token.balance(&contract_id), 1_500);
}

#[test]
fn test_mark_delivered_unauthorized_arbiter_fails() {
    let env = Env::default();
    env.mock_all_auths();

    let client_addr = Address::generate(&env);
    let freelancer_addr = Address::generate(&env);
    let arbiter_addr = Address::generate(&env);
    let admin_addr = Address::generate(&env);
    let token_contract_id = env
        .register_stellar_asset_contract_v2(admin_addr.clone())
        .address();
    let token_admin = StellarAssetClient::new(&env, &token_contract_id);
    token_admin.mint(&client_addr, &1_000);

    let contract_id = env.register(MilestoneEscrow, ());
    let client = MilestoneEscrowClient::new(&env, &contract_id);
    let amounts = list(&env, [1_000_i128]);
    client.initialize(
        &admin_addr,
        &client_addr,
        &freelancer_addr,
        &arbiter_addr,
        &token_contract_id,
        &604800,
        &amounts,
    );
    client.fund(&client_addr);

    let result = client.try_mark_delivered(&arbiter_addr, &0u32);
    assert_eq!(result, Err(Ok(Error::Unauthorized)));
}

#[test]
fn test_mark_delivered_unauthorized_freelancer_fails() {
    let env = Env::default();
    env.mock_all_auths();

    let client_addr = Address::generate(&env);
    let freelancer_addr = Address::generate(&env);
    let arbiter_addr = Address::generate(&env);
    let admin_addr = Address::generate(&env);
    let impostor = Address::generate(&env);
    let token_contract_id = env
        .register_stellar_asset_contract_v2(admin_addr.clone())
        .address();
    let token_admin = StellarAssetClient::new(&env, &token_contract_id);
    token_admin.mint(&client_addr, &1_000);

    let contract_id = env.register(MilestoneEscrow, ());
    let client = MilestoneEscrowClient::new(&env, &contract_id);
    let amounts = list(&env, [1_000_i128]);
    client.initialize(
        &admin_addr,
        &client_addr,
        &freelancer_addr,
        &arbiter_addr,
        &token_contract_id,
        &604800,
        &amounts,
    );
    client.fund(&client_addr);

    let result = client.try_mark_delivered(&impostor, &0u32);
    assert_eq!(result, Err(Ok(Error::Unauthorized)));
}

#[test]
fn test_approve_partial_exceeds_remaining_amount_fails() {
    let env = Env::default();
    env.mock_all_auths();

    let client_addr = Address::generate(&env);
    let freelancer_addr = Address::generate(&env);
    let arbiter_addr = Address::generate(&env);
    let admin_addr = Address::generate(&env);

    let token_contract_id = env
        .register_stellar_asset_contract_v2(admin_addr.clone())
        .address();
    let token_admin = StellarAssetClient::new(&env, &token_contract_id);
    token_admin.mint(&client_addr, &10_000);

    let contract_id = env.register(MilestoneEscrow, ());
    let client = MilestoneEscrowClient::new(&env, &contract_id);

    let amounts = list(&env, [10_000_i128]);
    client.initialize(
        &admin_addr,
        &client_addr,
        &freelancer_addr,
        &arbiter_addr,
        &token_contract_id,
        &604800,
        &amounts,
    );
    client.fund(&client_addr);
    client.mark_delivered(&freelancer_addr, &0u32);
    client.approve_partial(&client_addr, &0u32, &6_000_i128);

    let result = client.try_approve_partial(&client_addr, &0u32, &5_000_i128);
    assert_eq!(result, Err(Ok(Error::InvalidAmount)));
}

#[test]
fn test_approve_partial_index_out_of_range_fails() {
    let env = Env::default();
    env.mock_all_auths();

    let client_addr = Address::generate(&env);
    let freelancer_addr = Address::generate(&env);
    let arbiter_addr = Address::generate(&env);
    let admin_addr = Address::generate(&env);

    let token_contract_id = env
        .register_stellar_asset_contract_v2(admin_addr.clone())
        .address();
    let token_admin = StellarAssetClient::new(&env, &token_contract_id);
    token_admin.mint(&client_addr, &10_000);

    let contract_id = env.register(MilestoneEscrow, ());
    let client = MilestoneEscrowClient::new(&env, &contract_id);

    let amounts = list(&env, [5_000_i128, 5_000_i128]);
    client.initialize(
        &admin_addr,
        &client_addr,
        &freelancer_addr,
        &arbiter_addr,
        &token_contract_id,
        &604800,
        &amounts,
    );
    client.fund(&client_addr);

    let result = client.try_approve_partial(&client_addr, &2u32, &1_000_i128);
    assert_eq!(result, Err(Ok(Error::InvalidMilestone)));

    let result = client.try_approve_partial(&client_addr, &999u32, &1_000_i128);
    assert_eq!(result, Err(Ok(Error::InvalidMilestone)));
}

#[test]
fn test_mark_delivered_state_transitions() {
    let env = Env::default();
    env.mock_all_auths();

    let client_addr = Address::generate(&env);
    let freelancer_addr = Address::generate(&env);
    let arbiter_addr = Address::generate(&env);
    let admin_addr = Address::generate(&env);
    let token_contract_id = env
        .register_stellar_asset_contract_v2(admin_addr.clone())
        .address();
    let token_admin = StellarAssetClient::new(&env, &token_contract_id);
    token_admin.mint(&client_addr, &2_000);

    let contract_id = env.register(MilestoneEscrow, ());
    let client = MilestoneEscrowClient::new(&env, &contract_id);
    let amounts = list(&env, [1_000_i128, 1_000_i128]);
    client.initialize(
        &admin_addr,
        &client_addr,
        &freelancer_addr,
        &arbiter_addr,
        &token_contract_id,
        &604800,
        &amounts,
    );
    client.fund(&client_addr);

    client.mark_delivered(&freelancer_addr, &0u32);
    let job = client.get_job();
    assert_eq!(
        job.milestones.get(0).unwrap().status,
        MilestoneStatus::Delivered
    );

    let result = client.try_mark_delivered(&freelancer_addr, &0u32);
    assert_eq!(result, Err(Ok(Error::InvalidStatus)));

    // Setup milestone 1 for PartiallyReleased
    client.mark_delivered(&freelancer_addr, &1u32);
    client.approve_partial(&client_addr, &1u32, &500_i128);
    let result = client.try_mark_delivered(&freelancer_addr, &1u32);
    assert_eq!(result, Err(Ok(Error::InvalidStatus)));

    // Reset with new environment for remaining states
    let env2 = Env::default();
    env2.mock_all_auths();
    let client_addr2 = Address::generate(&env2);
    let freelancer_addr2 = Address::generate(&env2);
    let arbiter_addr2 = Address::generate(&env2);
    let admin_addr2 = Address::generate(&env2);
    let token_contract_id2 = env2
        .register_stellar_asset_contract_v2(admin_addr2.clone())
        .address();
    let token_admin2 = StellarAssetClient::new(&env2, &token_contract_id2);
    token_admin2.mint(&client_addr2, &4_000);
    let contract_id2 = env2.register(MilestoneEscrow, ());
    let client2 = MilestoneEscrowClient::new(&env2, &contract_id2);
    let amounts2 = list(&env2, [1_000_i128, 1_000_i128, 1_000_i128, 1_000_i128]);
    client2.initialize(
        &admin_addr2,
        &client_addr2,
        &freelancer_addr2,
        &arbiter_addr2,
        &token_contract_id2,
        &604800,
        &amounts2,
    );
    client2.fund(&client_addr2);

    // Released
    client2.mark_delivered(&freelancer_addr2, &0u32);
    client2.approve_milestone(&client_addr2, &0u32);
    let result = client2.try_mark_delivered(&freelancer_addr2, &0u32);
    assert_eq!(result, Err(Ok(Error::InvalidStatus)));

    // Disputed
    client2.mark_delivered(&freelancer_addr2, &1u32);
    client2.raise_dispute(&client_addr2, &1u32);
    let result = client2.try_mark_delivered(&freelancer_addr2, &1u32);
    assert_eq!(result, Err(Ok(Error::InvalidStatus)));

    // Refunded
    client2.mark_delivered(&freelancer_addr2, &2u32);
    client2.raise_dispute(&client_addr2, &2u32);
    client2.resolve_dispute(&arbiter_addr2, &2u32, &false);
    let result = client2.try_mark_delivered(&freelancer_addr2, &2u32);
    assert_eq!(result, Err(Ok(Error::InvalidStatus)));
}

#[test]
fn test_claim_auto_release_out_of_bounds_index_fails() {
    let env = Env::default();
    env.mock_all_auths();

    let amounts = list(&env, [5_000_i128]);
    let (_, freelancer_addr, _, _, _, _, client) = setup_funded_escrow(&env, amounts);

    client.mark_delivered(&freelancer_addr, &0u32);

    env.ledger().with_mut(|li| {
        li.timestamp += 700_000;
    });

    // milestone_index 99 is out of bounds (only index 0 exists)
    let result = client.try_claim_auto_release(&freelancer_addr, &99u32);
    assert_eq!(result, Err(Ok(Error::InvalidMilestone)));
}

#[test]
fn test_claim_auto_release_zero_auto_release_seconds_fails() {
    let env = Env::default();
    env.mock_all_auths();

    let client_addr = Address::generate(&env);
    let freelancer_addr = Address::generate(&env);
    let arbiter_addr = Address::generate(&env);
    let admin_addr = Address::generate(&env);

    let token_contract_id = env
        .register_stellar_asset_contract_v2(admin_addr.clone())
        .address();

    let contract_id = env.register(MilestoneEscrow, ());
    let client = MilestoneEscrowClient::new(&env, &contract_id);

    let amounts = list(&env, [5_000_i128]);
    let result = client.try_initialize(
        &admin_addr,
        &client_addr,
        &freelancer_addr,
        &arbiter_addr,
        &token_contract_id,
        &0u64,
        &amounts,
    );
    assert_eq!(result, Err(Ok(Error::InvalidAmount)));
}

#[test]
fn test_claim_auto_release_zero_remaining_amount_fails() {
    let env = Env::default();
    env.mock_all_auths();

    let client_addr = Address::generate(&env);
    let freelancer_addr = Address::generate(&env);
    let arbiter_addr = Address::generate(&env);
    let admin_addr = Address::generate(&env);

    let token_contract_id = env
        .register_stellar_asset_contract_v2(admin_addr.clone())
        .address();
    let token_admin = StellarAssetClient::new(&env, &token_contract_id);
    token_admin.mint(&client_addr, &5_000);

    let contract_id = env.register(MilestoneEscrow, ());
    let client = MilestoneEscrowClient::new(&env, &contract_id);

    let amounts = list(&env, [5_000_i128]);
    client.initialize(
        &admin_addr,
        &client_addr,
        &freelancer_addr,
        &arbiter_addr,
        &token_contract_id,
        &100u64,
        &amounts,
    );
    client.fund(&client_addr);
    client.mark_delivered(&freelancer_addr, &0u32);

    // Client fully approves the milestone first - nothing left to release
    client.approve_milestone(&client_addr, &0u32);

    let result = client.try_claim_auto_release(&freelancer_addr, &0u32);
    assert_eq!(
        result,
        Err(Ok(Error::InvalidStatus)) // Released status caught before amount check
    );
}

fn setup_delivered_single(
    env: &Env,
    amount: i128,
) -> (
    Address, // client
    Address, // freelancer
    Address, // arbiter
    Address, // token contract
    Address, // escrow contract
    MilestoneEscrowClient<'_>,
) {
    let client_addr = Address::generate(env);
    let freelancer_addr = Address::generate(env);
    let arbiter_addr = Address::generate(env);
    let admin_addr = Address::generate(env);

    let token_id = env
        .register_stellar_asset_contract_v2(admin_addr.clone())
        .address();
    let token_admin = StellarAssetClient::new(env, &token_id);
    token_admin.mint(&client_addr, &amount);

    let contract_id = env.register(MilestoneEscrow, ());
    let escrow = MilestoneEscrowClient::new(env, &contract_id);

    let amounts = list(env, [amount]);
    escrow.initialize(
        &admin_addr,
        &client_addr,
        &freelancer_addr,
        &arbiter_addr,
        &token_id,
        &604800,
        &amounts,
    );
    escrow.fund(&client_addr);
    escrow.mark_delivered(&freelancer_addr, &0u32);

    (
        client_addr,
        freelancer_addr,
        arbiter_addr,
        token_id,
        contract_id,
        escrow,
    )
}

#[test]
fn test_approve_partial_freelancer_is_unauthorized() {
    let env = Env::default();
    env.mock_all_auths();

    let (_, freelancer_addr, _, _, _, escrow) = setup_delivered_single(&env, 10_000);

    let result = escrow.try_approve_partial(&freelancer_addr, &0u32, &1_000_i128);
    assert_eq!(result, Err(Ok(Error::Unauthorized)));
}

#[test]
fn test_approve_partial_nonexistent_milestone_index_fails() {
    let env = Env::default();
    env.mock_all_auths();

    let (client_addr, _, _, _, _, escrow) = setup_delivered_single(&env, 10_000);

    // The contract was initialised with exactly 1 milestone (index 0).
    // Index 1 does not exist.
    let result = escrow.try_approve_partial(&client_addr, &1u32, &1_000_i128);
    assert_eq!(result, Err(Ok(Error::InvalidMilestone)));
}

#[test]
fn test_approve_partial_exact_remaining_balance_transitions_to_released() {
    let env = Env::default();
    env.mock_all_auths();

    let (client_addr, freelancer_addr, _, token_id, contract_id, escrow) =
        setup_delivered_single(&env, 12_000);

    let token = TokenClient::new(&env, &token_id);

    // First installment - leaves 7 000 remaining.
    escrow.approve_partial(&client_addr, &0u32, &5_000_i128);
    assert_eq!(token.balance(&freelancer_addr), 5_000);

    let job = escrow.get_job();
    let ms = job.milestones.get(0).unwrap();
    assert_eq!(ms.status, MilestoneStatus::PartiallyReleased);
    assert_eq!(ms.released_amount, 5_000);

    // Second installment - exactly the remainder.
    escrow.approve_partial(&client_addr, &0u32, &7_000_i128);

    let job2 = escrow.get_job();
    let ms2 = job2.milestones.get(0).unwrap();
    assert_eq!(ms2.status, MilestoneStatus::Released);
    assert_eq!(ms2.released_amount, 12_000);
    assert_eq!(token.balance(&freelancer_addr), 12_000);
    assert_eq!(token.balance(&contract_id), 0);
}

#[test]
fn test_approve_partial_over_release_after_prior_partial_fails() {
    let env = Env::default();
    env.mock_all_auths();

    let (client_addr, _, _, _, _, escrow) = setup_delivered_single(&env, 10_000);

    // Release 6 000; only 4 000 remains.
    escrow.approve_partial(&client_addr, &0u32, &6_000_i128);

    let result = escrow.try_approve_partial(&client_addr, &0u32, &5_000_i128);
    assert_eq!(result, Err(Ok(Error::InvalidAmount)));
}

#[test]
fn test_approve_partial_does_not_mutate_sibling_milestone() {
    let env = Env::default();
    env.mock_all_auths();

    let client_addr = Address::generate(&env);
    let freelancer_addr = Address::generate(&env);
    let arbiter_addr = Address::generate(&env);
    let admin_addr = Address::generate(&env);

    let token_id = env
        .register_stellar_asset_contract_v2(admin_addr.clone())
        .address();
    let token_admin = StellarAssetClient::new(&env, &token_id);
    token_admin.mint(&client_addr, &20_000);

    let contract_id = env.register(MilestoneEscrow, ());
    let escrow = MilestoneEscrowClient::new(&env, &contract_id);

    // Two milestones of equal size.
    let amounts = list(&env, [10_000_i128, 10_000_i128]);
    escrow.initialize(
        &admin_addr,
        &client_addr,
        &freelancer_addr,
        &arbiter_addr,
        &token_id,
        &604800,
        &amounts,
    );
    escrow.fund(&client_addr);
    escrow.mark_delivered(&freelancer_addr, &0u32);

    // Partially release milestone 0.
    escrow.approve_partial(&client_addr, &0u32, &3_000_i128);

    // Milestone 1 must remain completely untouched.
    let job = escrow.get_job();
    let ms1 = job.milestones.get(1).unwrap();
    assert_eq!(ms1.status, MilestoneStatus::Pending);
    assert_eq!(ms1.released_amount, 0);
    assert_eq!(ms1.amount, 10_000);
}

#[test]
fn test_approve_partial_before_initialize_fails() {
    let env = Env::default();
    env.mock_all_auths();

    let caller = Address::generate(&env);
    let contract_id = env.register(MilestoneEscrow, ());
    let escrow = MilestoneEscrowClient::new(&env, &contract_id);

    let result = escrow.try_approve_partial(&caller, &0u32, &1_000_i128);
    assert_eq!(result, Err(Ok(Error::NotInitialized)));
}

#[test]
fn test_approve_milestone_emits_event() {
    let env = Env::default();
    env.mock_all_auths();

    let client_addr = Address::generate(&env);
    let freelancer_addr = Address::generate(&env);
    let arbiter_addr = Address::generate(&env);
    let admin_addr = Address::generate(&env);
    let token_contract_id = env
        .register_stellar_asset_contract_v2(admin_addr.clone())
        .address();
    let token_admin = StellarAssetClient::new(&env, &token_contract_id);
    token_admin.mint(&client_addr, &10_000);

    let contract_id = env.register(MilestoneEscrow, ());
    let client = MilestoneEscrowClient::new(&env, &contract_id);

    let amounts = list(&env, [10_000_i128]);
    client.initialize(
        &admin_addr,
        &client_addr,
        &freelancer_addr,
        &arbiter_addr,
        &token_contract_id,
        &604800,
        &amounts,
    );
    client.fund(&client_addr);
    client.mark_delivered(&freelancer_addr, &0u32);
    client.approve_milestone(&client_addr, &0u32);

    let approve_topic: Symbol = Symbol("approve");
    let approve_topic_val: Val = approve_topic.into_val(&env);
    let approve_count = env.events().all().iter().fold(0u32, |acc, e| {
        if let Some(topic) = e.1.get(0) {
            if topic.get_payload() == approve_topic_val.get_payload() {
                return acc + 1;
            }
        }
        acc
    });

    assert_eq!(approve_count, 1);
}

#[test]
fn test_approve_milestone_on_disputed_milestone_fails() {
    let env = Env::default();
    env.mock_all_auths();

    let client_addr = Address::generate(&env);
    let freelancer_addr = Address::generate(&env);
    let arbiter_addr = Address::generate(&env);
    let admin_addr = Address::generate(&env);
    let token_contract_id = env
        .register_stellar_asset_contract_v2(admin_addr.clone())
        .address();
    let token_admin = StellarAssetClient::new(&env, &token_contract_id);
    token_admin.mint(&client_addr, &10_000);

    let contract_id = env.register(MilestoneEscrow, ());
    let client = MilestoneEscrowClient::new(&env, &contract_id);

    let amounts = list(&env, [10_000_i128]);
    client.initialize(
        &admin_addr,
        &client_addr,
        &freelancer_addr,
        &arbiter_addr,
        &token_contract_id,
        &604800,
        &amounts,
    );
    client.fund(&client_addr);
    client.mark_delivered(&freelancer_addr, &0u32);
    client.raise_dispute(&client_addr, &0u32);

    let result = client.try_approve_milestone(&client_addr, &0u32);
    assert_eq!(result, Err(Ok(Error::InvalidStatus)));
}

#[test]
fn test_approve_milestone_on_refunded_milestone_fails() {
    let env = Env::default();
    env.mock_all_auths();

    let client_addr = Address::generate(&env);
    let freelancer_addr = Address::generate(&env);
    let arbiter_addr = Address::generate(&env);
    let admin_addr = Address::generate(&env);
    let token_contract_id = env
        .register_stellar_asset_contract_v2(admin_addr.clone())
        .address();
    let token_admin = StellarAssetClient::new(&env, &token_contract_id);
    token_admin.mint(&client_addr, &10_000);

    let contract_id = env.register(MilestoneEscrow, ());
    let client = MilestoneEscrowClient::new(&env, &contract_id);

    let amounts = list(&env, [10_000_i128]);
    client.initialize(
        &admin_addr,
        &client_addr,
        &freelancer_addr,
        &arbiter_addr,
        &token_contract_id,
        &604800,
        &amounts,
    );
    client.fund(&client_addr);
    client.mark_delivered(&freelancer_addr, &0u32);
    client.raise_dispute(&client_addr, &0u32);
    client.resolve_dispute(&arbiter_addr, &0u32, &false);

    let result = client.try_approve_milestone(&client_addr, &0u32);
    assert_eq!(result, Err(Ok(Error::InvalidStatus)));
}

#[test]
fn test_approve_milestone_max_i128_checked_math_no_overflow() {
    let env = Env::default();
    env.mock_all_auths();

    let client_addr = Address::generate(&env);
    let freelancer_addr = Address::generate(&env);
    let arbiter_addr = Address::generate(&env);
    let admin_addr = Address::generate(&env);

    let token_contract_id = env
        .register_stellar_asset_contract_v2(admin_addr.clone())
        .address();
    let token = TokenClient::new(&env, &token_contract_id);
    let token_admin = StellarAssetClient::new(&env, &token_contract_id);
    // Mint i128::MAX tokens to the client so the transfer can succeed.
    token_admin.mint(&client_addr, &i128::MAX);

    let contract_id = env.register(MilestoneEscrow, ());
    let client = MilestoneEscrowClient::new(&env, &contract_id);

    // Single milestone worth i128::MAX.
    let amounts = list(&env, [i128::MAX]);
    client.initialize(
        &admin_addr,
        &client_addr,
        &freelancer_addr,
        &arbiter_addr,
        &token_contract_id,
        &604800,
        &amounts,
    );
    client.fund(&client_addr);
    client.mark_delivered(&freelancer_addr, &0u32);

    // approve_milestone must not panic; checked_sub on (MAX - MAX) == 0.
    client.approve_milestone(&client_addr, &0u32);

    let job = client.get_job();
    let ms = job.milestones.get(0).unwrap();
    assert_eq!(ms.status, MilestoneStatus::Released);
    assert_eq!(ms.released_amount, i128::MAX);
    assert_eq!(token.balance(&freelancer_addr), i128::MAX);
    assert_eq!(token.balance(&contract_id), 0);
}

#[test]
fn test_approve_milestone_overflow_checked_math_returns_error() {
    let env = Env::default();
    env.mock_all_auths();

    let client_addr = Address::generate(&env);
    let freelancer_addr = Address::generate(&env);
    let arbiter_addr = Address::generate(&env);
    let admin_addr = Address::generate(&env);

    let token_contract_id = env
        .register_stellar_asset_contract_v2(admin_addr.clone())
        .address();
    let token_admin = StellarAssetClient::new(&env, &token_contract_id);
    // Mint i128::MAX so the escrow can be funded.
    token_admin.mint(&client_addr, &i128::MAX);

    let contract_id = env.register(MilestoneEscrow, ());
    let client = MilestoneEscrowClient::new(&env, &contract_id);

    let amounts = list(&env, [i128::MAX]);
    client.initialize(
        &admin_addr,
        &client_addr,
        &freelancer_addr,
        &arbiter_addr,
        &token_contract_id,
        &604800,
        &amounts,
    );
    client.fund(&client_addr);
    client.mark_delivered(&freelancer_addr, &0u32);

    // Release 1 token so released_amount == 1; remaining == i128::MAX - 1.
    client.approve_partial(&client_addr, &0u32, &1_i128);

    // Now attempt to release i128::MAX - this would overflow released_amount.
    // The checked_add inside approve_partial must catch it and return InvalidAmount.
    let result = client.try_approve_partial(&client_addr, &0u32, &i128::MAX);
    assert_eq!(result, Err(Ok(Error::InvalidAmount)));
}

#[test]
fn test_claim_auto_release_uses_temporary_storage_for_deadline() {
    let env = Env::default();
    env.mock_all_auths();

    let client_addr = Address::generate(&env);
    let freelancer_addr = Address::generate(&env);
    let arbiter_addr = Address::generate(&env);
    let admin_addr = Address::generate(&env);

    let token_contract_id = env
        .register_stellar_asset_contract_v2(admin_addr.clone())
        .address();
    let token = TokenClient::new(&env, &token_contract_id);
    let token_admin = StellarAssetClient::new(&env, &token_contract_id);
    token_admin.mint(&client_addr, &5_000);

    let contract_id = env.register(MilestoneEscrow, ());
    let client = MilestoneEscrowClient::new(&env, &contract_id);

    let amounts = list(&env, [5_000_i128]);
    // auto_release_seconds = 200
    client.initialize(
        &admin_addr,
        &client_addr,
        &freelancer_addr,
        &arbiter_addr,
        &token_contract_id,
        &200,
        &amounts,
    );
    client.fund(&client_addr);

    // mark_delivered writes delivered_at to both persistent Milestone and
    // temporary DeliveredAt(0).  The ledger timestamp starts at 0.
    client.mark_delivered(&freelancer_addr, &0u32);

    // Attempting to claim before the 200-second deadline must fail.
    let before = client.try_claim_auto_release(&freelancer_addr, &0u32);
    assert_eq!(before, Err(Ok(Error::DeadlineNotPassed)));

    // Advance the ledger past the auto-release window.
    env.ledger().with_mut(|li| {
        li.timestamp += 201;
    });

    // claim_auto_release reads DeliveredAt(0) from temporary storage.
    // Deadline = 0 + 200 = 200; current = 201 >= 200 -> should succeed.
    client.claim_auto_release(&freelancer_addr, &0u32);

    assert_eq!(token.balance(&freelancer_addr), 5_000);
    assert_eq!(token.balance(&contract_id), 0);

    let job = client.get_job();
    let ms = job.milestones.get(0).unwrap();
    assert_eq!(ms.status, MilestoneStatus::Released);
    assert_eq!(ms.released_amount, 5_000);
}

#[test]
fn test_time_until_auto_release_reads_temporary_storage() {
    let env = Env::default();
    env.mock_all_auths();

    let client_addr = Address::generate(&env);
    let freelancer_addr = Address::generate(&env);
    let arbiter_addr = Address::generate(&env);
    let admin_addr = Address::generate(&env);

    let token_contract_id = env
        .register_stellar_asset_contract_v2(admin_addr.clone())
        .address();
    let token_admin = StellarAssetClient::new(&env, &token_contract_id);
    token_admin.mint(&client_addr, &1_000);

    let contract_id = env.register(MilestoneEscrow, ());
    let client = MilestoneEscrowClient::new(&env, &contract_id);

    let amounts = list(&env, [1_000_i128]);
    client.initialize(
        &admin_addr,
        &client_addr,
        &freelancer_addr,
        &arbiter_addr,
        &token_contract_id,
        &300,
        &amounts,
    );
    client.fund(&client_addr);

    // Ledger starts at 0; delivered_at written to temporary storage = 0.
    client.mark_delivered(&freelancer_addr, &0u32);

    // Immediately after delivery: deadline = 0 + 300 = 300; current = 0.
    let remaining = client.time_until_auto_release(&0u32);
    assert_eq!(remaining, 300);

    // Advance by 150 seconds.
    env.ledger().with_mut(|li| {
        li.timestamp += 150;
    });
    let remaining2 = client.time_until_auto_release(&0u32);
    assert_eq!(remaining2, 150);

    // Advance past the deadline.
    env.ledger().with_mut(|li| {
        li.timestamp += 200;
    });
    let remaining3 = client.time_until_auto_release(&0u32);
    assert!(remaining3 < 0);
}

#[test]
fn test_approve_milestone_writes_temporary_released_flag() {
    let env = Env::default();
    env.mock_all_auths();

    let client_addr = Address::generate(&env);
    let freelancer_addr = Address::generate(&env);
    let arbiter_addr = Address::generate(&env);
    let admin_addr = Address::generate(&env);

    let token_contract_id = env
        .register_stellar_asset_contract_v2(admin_addr.clone())
        .address();
    let token = TokenClient::new(&env, &token_contract_id);
    let token_admin = StellarAssetClient::new(&env, &token_contract_id);
    token_admin.mint(&client_addr, &8_000);

    let contract_id = env.register(MilestoneEscrow, ());
    let client = MilestoneEscrowClient::new(&env, &contract_id);

    let amounts = list(&env, [8_000_i128]);
    client.initialize(
        &admin_addr,
        &client_addr,
        &freelancer_addr,
        &arbiter_addr,
        &token_contract_id,
        &604800,
        &amounts,
    );
    client.fund(&client_addr);
    client.mark_delivered(&freelancer_addr, &0u32);

    // Before approval the temporary released flag must not be set.
    let flag_before: Option<bool> = env.as_contract(&contract_id, || {
        env.storage()
            .temporary()
            .get(&DataKey::MilestoneReleased(0u32))
    });
    assert_eq!(flag_before, None);

    // Execute the full approval.
    client.approve_milestone(&client_addr, &0u32);

    // After approval the temporary released flag must be true.
    let flag_after: Option<bool> = env.as_contract(&contract_id, || {
        env.storage()
            .temporary()
            .get(&DataKey::MilestoneReleased(0u32))
    });
    assert_eq!(flag_after, Some(true));

    // Persistent Milestone state must be Released with full released_amount.
    let job = client.get_job();
    let ms = job.milestones.get(0).unwrap();
    assert_eq!(ms.status, MilestoneStatus::Released);
    assert_eq!(ms.released_amount, 8_000);

    // Token balances must reflect full transfer.
    assert_eq!(token.balance(&freelancer_addr), 8_000);
    assert_eq!(token.balance(&contract_id), 0);

    // A second approval must be rejected - the persistent status is Released.
    let result = client.try_approve_milestone(&client_addr, &0u32);
    assert_eq!(result, Err(Ok(Error::InvalidStatus)));
}

#[test]
fn test_mark_delivered_wrong_caller_is_unauthorized() {
    let env = Env::default();
    env.mock_all_auths();

    let client_addr = Address::generate(&env);
    let freelancer_addr = Address::generate(&env);
    let arbiter_addr = Address::generate(&env);
    let admin_addr = Address::generate(&env);
    let impostor = Address::generate(&env);

    let token_contract_id = env
        .register_stellar_asset_contract_v2(admin_addr.clone())
        .address();
    let token_admin = StellarAssetClient::new(&env, &token_contract_id);
    token_admin.mint(&client_addr, &5_000);

    let contract_id = env.register(MilestoneEscrow, ());
    let client = MilestoneEscrowClient::new(&env, &contract_id);

    let amounts = list(&env, [5_000_i128]);
    client.initialize(
        &admin_addr,
        &client_addr,
        &freelancer_addr,
        &arbiter_addr,
        &token_contract_id,
        &604800,
        &amounts,
    );
    client.fund(&client_addr);

    // `impostor` is not the registered freelancer.
    let result = client.try_mark_delivered(&impostor, &0u32);
    assert_eq!(result, Err(Ok(Error::Unauthorized)));

    // Confirm the milestone is still Pending - no state mutation occurred.
    let job = client.get_job();
    assert_eq!(
        job.milestones.get(0).unwrap().status,
        MilestoneStatus::Pending
    );
}

#[test]
fn test_mark_delivered_u32_max_index_fails() {
    let env = Env::default();
    env.mock_all_auths();

    let client_addr = Address::generate(&env);
    let freelancer_addr = Address::generate(&env);
    let arbiter_addr = Address::generate(&env);
    let admin_addr = Address::generate(&env);

    let token_contract_id = env
        .register_stellar_asset_contract_v2(admin_addr.clone())
        .address();
    let token_admin = StellarAssetClient::new(&env, &token_contract_id);
    token_admin.mint(&client_addr, &5_000);

    let contract_id = env.register(MilestoneEscrow, ());
    let client = MilestoneEscrowClient::new(&env, &contract_id);

    let amounts = list(&env, [5_000_i128]);
    client.initialize(
        &admin_addr,
        &client_addr,
        &freelancer_addr,
        &arbiter_addr,
        &token_contract_id,
        &604800,
        &amounts,
    );
    client.fund(&client_addr);

    // u32::MAX far exceeds milestone_count (1).
    let result = client.try_mark_delivered(&freelancer_addr, &u32::MAX);
    assert_eq!(result, Err(Ok(Error::InvalidMilestone)));
}

#[test]
fn test_mark_delivered_before_initialize_fails() {
    let env = Env::default();
    env.mock_all_auths();

    let freelancer_addr = Address::generate(&env);

    let contract_id = env.register(MilestoneEscrow, ());
    let client = MilestoneEscrowClient::new(&env, &contract_id);

    let result = client.try_mark_delivered(&freelancer_addr, &0u32);
    assert_eq!(result, Err(Ok(Error::NotInitialized)));
}

#[test]
fn test_mark_delivered_on_released_milestone_fails() {
    let env = Env::default();
    env.mock_all_auths();

    let client_addr = Address::generate(&env);
    let freelancer_addr = Address::generate(&env);
    let arbiter_addr = Address::generate(&env);
    let admin_addr = Address::generate(&env);

    let token_contract_id = env
        .register_stellar_asset_contract_v2(admin_addr.clone())
        .address();
    let token_admin = StellarAssetClient::new(&env, &token_contract_id);
    token_admin.mint(&client_addr, &5_000);

    let contract_id = env.register(MilestoneEscrow, ());
    let client = MilestoneEscrowClient::new(&env, &contract_id);

    let amounts = list(&env, [5_000_i128]);
    client.initialize(
        &admin_addr,
        &client_addr,
        &freelancer_addr,
        &arbiter_addr,
        &token_contract_id,
        &604800,
        &amounts,
    );
    client.fund(&client_addr);

    // Drive the milestone to `Released` via the normal happy path.
    client.mark_delivered(&freelancer_addr, &0u32);
    client.approve_milestone(&client_addr, &0u32);

    let job = client.get_job();
    assert_eq!(
        job.milestones.get(0).unwrap().status,
        MilestoneStatus::Released
    );

    // Attempting to mark it delivered again must fail.
    let result = client.try_mark_delivered(&freelancer_addr, &0u32);
    assert_eq!(result, Err(Ok(Error::InvalidStatus)));
}

#[test]
fn test_mark_delivered_on_refunded_milestone_fails() {
    let env = Env::default();
    env.mock_all_auths();

    let client_addr = Address::generate(&env);
    let freelancer_addr = Address::generate(&env);
    let arbiter_addr = Address::generate(&env);
    let admin_addr = Address::generate(&env);

    let token_contract_id = env
        .register_stellar_asset_contract_v2(admin_addr.clone())
        .address();
    let token_admin = StellarAssetClient::new(&env, &token_contract_id);
    token_admin.mint(&client_addr, &5_000);

    let contract_id = env.register(MilestoneEscrow, ());
    let client = MilestoneEscrowClient::new(&env, &contract_id);

    let amounts = list(&env, [5_000_i128]);
    client.initialize(
        &admin_addr,
        &client_addr,
        &freelancer_addr,
        &arbiter_addr,
        &token_contract_id,
        &604800,
        &amounts,
    );
    client.fund(&client_addr);

    // Drive the milestone to `Refunded`: deliver -> dispute -> resolve for client.
    client.mark_delivered(&freelancer_addr, &0u32);
    client.raise_dispute(&client_addr, &0u32);
    client.resolve_dispute(&arbiter_addr, &0u32, &false);

    let job = client.get_job();
    assert_eq!(
        job.milestones.get(0).unwrap().status,
        MilestoneStatus::Refunded
    );

    // The freelancer must not be able to re-open a refunded milestone.
    let result = client.try_mark_delivered(&freelancer_addr, &0u32);
    assert_eq!(result, Err(Ok(Error::InvalidStatus)));
}

#[test]
fn test_claim_auto_release_max_i128_checked_math_no_overflow() {
    let env = Env::default();
    env.mock_all_auths();

    let client_addr = Address::generate(&env);
    let freelancer_addr = Address::generate(&env);
    let arbiter_addr = Address::generate(&env);
    let admin_addr = Address::generate(&env);

    let token_contract_id = env
        .register_stellar_asset_contract_v2(admin_addr.clone())
        .address();
    let token_admin = StellarAssetClient::new(&env, &token_contract_id);
    // Use a large but representable i128 amount to exercise the checked_sub path.
    let amount: i128 = i128::MAX / 2;
    token_admin.mint(&client_addr, &amount);

    let contract_id = env.register(MilestoneEscrow, ());
    let client = MilestoneEscrowClient::new(&env, &contract_id);

    let amounts = list(&env, [amount]);
    // Use a small auto_release_seconds so the deadline check passes after the
    // ledger advance below.
    client.initialize(
        &admin_addr,
        &client_addr,
        &freelancer_addr,
        &arbiter_addr,
        &token_contract_id,
        &1u64,
        &amounts,
    );
    client.fund(&client_addr);
    client.mark_delivered(&freelancer_addr, &0u32);

    // Advance past the auto-release deadline.
    env.ledger().with_mut(|li| {
        li.timestamp += 10;
    });

    // claim_auto_release must compute `remaining = amount - released_amount`
    // via checked_sub.  released_amount is 0 here so the subtraction is safe
    // and the call must succeed, releasing i128::MAX / 2 tokens.
    client.claim_auto_release(&freelancer_addr, &0u32);

    let token = TokenClient::new(&env, &token_contract_id);
    assert_eq!(token.balance(&freelancer_addr), amount);
    assert_eq!(token.balance(&contract_id), 0);

    let job = client.get_job();
    assert_eq!(
        job.milestones.get(0).unwrap().status,
        MilestoneStatus::Released
    );
}

#[test]
fn test_claim_auto_release_overflow_checked_math_returns_error() {
    let env = Env::default();
    env.mock_all_auths();

    let client_addr = Address::generate(&env);
    let freelancer_addr = Address::generate(&env);
    let arbiter_addr = Address::generate(&env);
    let admin_addr = Address::generate(&env);

    let token_contract_id = env
        .register_stellar_asset_contract_v2(admin_addr.clone())
        .address();
    let token_admin = StellarAssetClient::new(&env, &token_contract_id);
    token_admin.mint(&client_addr, &5_000);

    let contract_id = env.register(MilestoneEscrow, ());
    let client = MilestoneEscrowClient::new(&env, &contract_id);

    let amounts = list(&env, [5_000_i128]);
    // u64::MAX as auto_release_seconds guarantees delivered_at + u64::MAX
    // wraps when delivered_at > 0.
    client.initialize(
        &admin_addr,
        &client_addr,
        &freelancer_addr,
        &arbiter_addr,
        &token_contract_id,
        &u64::MAX,
        &amounts,
    );
    client.fund(&client_addr);

    // Advance the ledger so delivered_at is non-zero, making the overflow
    // deterministic: any positive delivered_at + u64::MAX overflows u64.
    env.ledger().with_mut(|li| {
        li.timestamp = 1;
    });
    client.mark_delivered(&freelancer_addr, &0u32);

    // The checked_add inside claim_auto_release must catch the overflow and
    // return Error::InvalidAmount rather than panicking.
    let result = client.try_claim_auto_release(&freelancer_addr, &0u32);
    assert_eq!(result, Err(Ok(Error::InvalidAmount)));
}

#[test]
fn test_claim_auto_release_double_execution_reverts() {
    let env = Env::default();
    env.mock_all_auths();

    let client_addr = Address::generate(&env);
    let freelancer_addr = Address::generate(&env);
    let arbiter_addr = Address::generate(&env);
    let admin_addr = Address::generate(&env);

    let token_contract_id = env
        .register_stellar_asset_contract_v2(admin_addr.clone())
        .address();
    let token = TokenClient::new(&env, &token_contract_id);
    let token_admin = StellarAssetClient::new(&env, &token_contract_id);
    token_admin.mint(&client_addr, &10_000);

    let contract_id = env.register(MilestoneEscrow, ());
    let client = MilestoneEscrowClient::new(&env, &contract_id);

    let amounts = list(&env, [10_000_i128]);
    client.initialize(
        &admin_addr,
        &client_addr,
        &freelancer_addr,
        &arbiter_addr,
        &token_contract_id,
        &100u64,
        &amounts,
    );
    client.fund(&client_addr);
    client.mark_delivered(&freelancer_addr, &0u32);

    // Advance past the auto-release deadline.
    env.ledger().with_mut(|li| {
        li.timestamp += 200;
    });

    // First call must succeed and release all tokens.
    client.claim_auto_release(&freelancer_addr, &0u32);
    assert_eq!(token.balance(&freelancer_addr), 10_000);
    assert_eq!(token.balance(&contract_id), 0);

    // Milestone status is now Released - a second call must be rejected.
    let result = client.try_claim_auto_release(&freelancer_addr, &0u32);
    assert_eq!(result, Err(Ok(Error::InvalidStatus)));

    // Token balances must be unchanged after the rejected second attempt.
    assert_eq!(token.balance(&freelancer_addr), 10_000);
    assert_eq!(token.balance(&contract_id), 0);
}

#[test]
fn test_claim_auto_release_no_auth_provided_fails() {
    let env = Env::default();
    // Deliberately omit env.mock_all_auths() so the host enforces real auth.

    let client_addr = Address::generate(&env);
    let freelancer_addr = Address::generate(&env);
    let arbiter_addr = Address::generate(&env);
    let admin_addr = Address::generate(&env);

    let token_contract_id = env
        .register_stellar_asset_contract_v2(admin_addr.clone())
        .address();

    // Use mock_all_auths only for the setup calls so the contract reaches a
    // funded+delivered state without touching the auth path under test.
    env.mock_all_auths();
    let token_admin = StellarAssetClient::new(&env, &token_contract_id);
    token_admin.mint(&client_addr, &5_000);

    let contract_id = env.register(MilestoneEscrow, ());
    let escrow = MilestoneEscrowClient::new(&env, &contract_id);

    let amounts = list(&env, [5_000_i128]);
    escrow.initialize(
        &admin_addr,
        &client_addr,
        &freelancer_addr,
        &arbiter_addr,
        &token_contract_id,
        &100u64,
        &amounts,
    );
    escrow.fund(&client_addr);
    escrow.mark_delivered(&freelancer_addr, &0u32);

    env.ledger().with_mut(|li| {
        li.timestamp += 200;
    });

    // Disable mocking so the next call goes through real auth enforcement.
    // set_auths([]) clears all mocks without installing any new entries.
    env.set_auths(&[]);

    // No auth entry exists for freelancer_addr -> require_auth() in
    // claim_auto_release panics at the host level.  try_ captures that as
    // Err(Err(_)).
    let result = escrow.try_claim_auto_release(&freelancer_addr, &0u32);
    assert!(result.is_err());
    // Confirm the outer Result is the host-error arm, not a contract error.
    assert!(matches!(result, Err(Err(_))));
}

#[test]
fn test_claim_auto_release_wrong_identity_unauthorized() {
    let env = Env::default();
    env.mock_all_auths();

    let client_addr = Address::generate(&env);
    let freelancer_addr = Address::generate(&env);
    let arbiter_addr = Address::generate(&env);
    let admin_addr = Address::generate(&env);
    let impostor = Address::generate(&env);

    let token_contract_id = env
        .register_stellar_asset_contract_v2(admin_addr.clone())
        .address();
    let token_admin = StellarAssetClient::new(&env, &token_contract_id);
    token_admin.mint(&client_addr, &5_000);

    let contract_id = env.register(MilestoneEscrow, ());
    let escrow = MilestoneEscrowClient::new(&env, &contract_id);

    let amounts = list(&env, [5_000_i128]);
    escrow.initialize(
        &admin_addr,
        &client_addr,
        &freelancer_addr,
        &arbiter_addr,
        &token_contract_id,
        &100u64,
        &amounts,
    );
    escrow.fund(&client_addr);
    escrow.mark_delivered(&freelancer_addr, &0u32);

    env.ledger().with_mut(|li| {
        li.timestamp += 200;
    });

    // Grant a selective auth entry for `impostor` calling `claim_auto_release`
    // with `impostor` as the freelancer argument.  This means require_auth()
    // passes (impostor signed), but the identity check
    // (meta.freelancer != impostor) returns Error::Unauthorized.
    let result = escrow
        .signed_by(&impostor)
        .try_claim_auto_release(&impostor, &0u32);

    assert_eq!(result, Err(Ok(Error::Unauthorized)));

    // Milestone must still be in Delivered state - no state mutation occurred.
    let job = escrow.get_job();
    assert_eq!(
        job.milestones.get(0).unwrap().status,
        MilestoneStatus::Delivered
    );
}

#[test]
fn test_initialize_empty_milestones_fails() {
    let env = Env::default();
    env.mock_all_auths();

    let client_addr = Address::generate(&env);
    let freelancer_addr = Address::generate(&env);
    let arbiter_addr = Address::generate(&env);
    let admin_addr = Address::generate(&env);

    let token_contract_id = env
        .register_stellar_asset_contract_v2(admin_addr.clone())
        .address();

    let contract_id = env.register(MilestoneEscrow, ());
    let client = MilestoneEscrowClient::new(&env, &contract_id);

    let empty_amounts: soroban_sdk::Vec<i128> = no_amounts(&env);
    let result = client.try_initialize(
        &admin_addr,
        &client_addr,
        &freelancer_addr,
        &arbiter_addr,
        &token_contract_id,
        &604800,
        &empty_amounts,
    );
    assert_eq!(result, Err(Ok(Error::InvalidAmount)));
}

#[test]
fn test_initialize_zero_address_fails() {
    let env = Env::default();
    env.mock_all_auths();

    let freelancer_addr = Address::generate(&env);
    let arbiter_addr = Address::generate(&env);
    let admin_addr = Address::generate(&env);
    let zero_address = Address::from_str(
        &env,
        "GAAAAAAAAAAAAAAAAAAAAAAAAAAAAAAAAAAAAAAAAAAAAAAAAAAAAWHF",
    );
    let token_contract_id = env
        .register_stellar_asset_contract_v2(admin_addr.clone())
        .address();

    let contract_id = env.register(MilestoneEscrow, ());
    let client = MilestoneEscrowClient::new(&env, &contract_id);

    let amounts = list(&env, [1_000_i128]);
    let result = client.try_initialize(
        &admin_addr,
        &zero_address,
        &freelancer_addr,
        &arbiter_addr,
        &token_contract_id,
        &604800,
        &amounts,
    );
    assert_eq!(result, Err(Ok(Error::InvalidAddress)));
}

#[test]
fn test_initialize_negative_milestone_amount_fails() {
    let env = Env::default();
    env.mock_all_auths();

    let client_addr = Address::generate(&env);
    let freelancer_addr = Address::generate(&env);
    let arbiter_addr = Address::generate(&env);
    let admin_addr = Address::generate(&env);

    let token_contract_id = env
        .register_stellar_asset_contract_v2(admin_addr.clone())
        .address();

    let contract_id = env.register(MilestoneEscrow, ());
    let client = MilestoneEscrowClient::new(&env, &contract_id);

    let amounts = list(&env, [-500_i128]);
    let result = client.try_initialize(
        &admin_addr,
        &client_addr,
        &freelancer_addr,
        &arbiter_addr,
        &token_contract_id,
        &604800,
        &amounts,
    );
    assert_eq!(result, Err(Ok(Error::InvalidAmount)));
}

#[test]
fn test_initialize_milestone_sum_overflow_fails() {
    let env = Env::default();
    env.mock_all_auths();

    let client_addr = Address::generate(&env);
    let freelancer_addr = Address::generate(&env);
    let arbiter_addr = Address::generate(&env);
    let admin_addr = Address::generate(&env);

    let token_contract_id = env
        .register_stellar_asset_contract_v2(admin_addr.clone())
        .address();

    let contract_id = env.register(MilestoneEscrow, ());
    let client = MilestoneEscrowClient::new(&env, &contract_id);

    // i128::MAX + i128::MAX overflows - checked_add must catch this.
    let amounts = list(&env, [i128::MAX, i128::MAX]);
    let result = client.try_initialize(
        &admin_addr,
        &client_addr,
        &freelancer_addr,
        &arbiter_addr,
        &token_contract_id,
        &604800,
        &amounts,
    );
    assert_eq!(result, Err(Ok(Error::InvalidAmount)));
}

#[test]
fn test_initialize_single_milestone_state_is_correct() {
    let env = Env::default();
    env.mock_all_auths();

    let client_addr = Address::generate(&env);
    let freelancer_addr = Address::generate(&env);
    let arbiter_addr = Address::generate(&env);
    let admin_addr = Address::generate(&env);

    let token_contract_id = env
        .register_stellar_asset_contract_v2(admin_addr.clone())
        .address();

    let contract_id = env.register(MilestoneEscrow, ());
    let escrow = MilestoneEscrowClient::new(&env, &contract_id);

    let amounts = list(&env, [1_000_i128]);
    escrow.initialize(
        &admin_addr,
        &client_addr,
        &freelancer_addr,
        &arbiter_addr,
        &token_contract_id,
        &604800,
        &amounts,
    );

    let job = escrow.get_job();

    // Party addresses must be stored verbatim.
    assert_eq!(job.client, client_addr);
    assert_eq!(job.freelancer, freelancer_addr);
    assert_eq!(job.arbiter, arbiter_addr);
    assert_eq!(job.token, token_contract_id);

    // Contract must start unfunded.
    assert!(!job.funded);

    // auto_release_seconds must be persisted exactly.
    assert_eq!(job.auto_release_seconds, 604800);

    // Exactly one milestone with the supplied amount, zero released, Pending.
    assert_eq!(job.milestones.len(), 1);
    let ms = job.milestones.get(0).unwrap();
    assert_eq!(ms.amount, 1_000);
    assert_eq!(ms.released_amount, 0);
    assert_eq!(ms.status, MilestoneStatus::Pending);

    // The token must have been added to the whitelist.
    assert!(escrow.is_token_whitelisted(&token_contract_id));
}

#[test]
fn test_initialize_multiple_milestones_all_pending_correct_amounts() {
    let env = Env::default();
    env.mock_all_auths();

    let client_addr = Address::generate(&env);
    let freelancer_addr = Address::generate(&env);
    let arbiter_addr = Address::generate(&env);
    let admin_addr = Address::generate(&env);

    let token_contract_id = env
        .register_stellar_asset_contract_v2(admin_addr.clone())
        .address();

    let contract_id = env.register(MilestoneEscrow, ());
    let escrow = MilestoneEscrowClient::new(&env, &contract_id);

    let amounts = list(&env, [100_i128, 200_i128, 300_i128, 400_i128]);
    escrow.initialize(
        &admin_addr,
        &client_addr,
        &freelancer_addr,
        &arbiter_addr,
        &token_contract_id,
        &86400,
        &amounts,
    );

    let job = escrow.get_job();
    assert_eq!(job.milestones.len(), 4);

    let expected: [i128; 4] = [100, 200, 300, 400];
    let mut total: i128 = 0;
    for (i, &expected_amount) in expected.iter().enumerate() {
        let ms = job.milestones.get(i).unwrap();
        assert_eq!(
            ms.amount, expected_amount,
            "milestone {} amount mismatch",
            i
        );
        assert_eq!(
            ms.released_amount, 0,
            "milestone {} released_amount should be 0",
            i
        );
        assert_eq!(
            ms.status,
            MilestoneStatus::Pending,
            "milestone {} should be Pending",
            i
        );
        total += expected_amount;
    }

    // Sanity-check aggregate: fund should request exactly this total.
    let token_admin = StellarAssetClient::new(&env, &token_contract_id);
    token_admin.mint(&client_addr, &total);
    let token = TokenClient::new(&env, &token_contract_id);

    escrow.fund(&client_addr);
    assert_eq!(token.balance(&contract_id), total);
    assert_eq!(token.balance(&client_addr), 0);
}

#[test]
fn test_initialize_invalid_amount_rolls_back_single_pass_writes() {
    let env = Env::default();
    env.mock_all_auths();

    let client_addr = Address::generate(&env);
    let freelancer_addr = Address::generate(&env);
    let arbiter_addr = Address::generate(&env);
    let admin_addr = Address::generate(&env);

    let token_contract_id = env
        .register_stellar_asset_contract_v2(admin_addr.clone())
        .address();

    let contract_id = env.register(MilestoneEscrow, ());
    let escrow = MilestoneEscrowClient::new(&env, &contract_id);

    let invalid_amounts = list(&env, [100_i128, -1_i128]);
    let result = escrow.try_initialize(
        &admin_addr,
        &client_addr,
        &freelancer_addr,
        &arbiter_addr,
        &token_contract_id,
        &604800,
        &invalid_amounts,
    );
    assert_eq!(result, Err(Ok(Error::InvalidAmount)));
    env.as_contract(&contract_id, || {
        assert!(!env.storage().persistent().has(&DataKey::Milestone(0u32)));
    });

    let valid_amounts = list(&env, [200_i128]);
    escrow.initialize(
        &admin_addr,
        &client_addr,
        &freelancer_addr,
        &arbiter_addr,
        &token_contract_id,
        &604800,
        &valid_amounts,
    );

    let job = escrow.get_job();
    assert_eq!(job.milestones.len(), 1);
    assert_eq!(job.milestones.get(0).unwrap().amount, 200);
}

#[test]
fn test_initialize_already_initialized_returns_correct_error() {
    let env = Env::default();
    env.mock_all_auths();

    let client_addr = Address::generate(&env);
    let freelancer_addr = Address::generate(&env);
    let arbiter_addr = Address::generate(&env);
    let admin_addr = Address::generate(&env);
    let new_client = Address::generate(&env);

    let token_contract_id = env
        .register_stellar_asset_contract_v2(admin_addr.clone())
        .address();

    let contract_id = env.register(MilestoneEscrow, ());
    let escrow = MilestoneEscrowClient::new(&env, &contract_id);

    let amounts = list(&env, [1_000_i128]);
    escrow.initialize(
        &admin_addr,
        &client_addr,
        &freelancer_addr,
        &arbiter_addr,
        &token_contract_id,
        &604800,
        &amounts,
    );

    // Second call with different parameters - must fail with AlreadyInitialized.
    let new_amounts = list(&env, [9_999_i128]);
    let result = escrow.try_initialize(
        &admin_addr,
        &new_client,
        &freelancer_addr,
        &arbiter_addr,
        &token_contract_id,
        &1,
        &new_amounts,
    );
    assert_eq!(result, Err(Ok(Error::AlreadyInitialized)));

    let job = escrow.get_job();
    assert_eq!(job.client, client_addr);
    assert_eq!(job.milestones.len(), 1);
    assert_eq!(job.milestones.get(0).unwrap().amount, 1_000);
}

#[test]
fn test_initialize_state_transition_matrix() {
    let env = Env::default();
    env.mock_all_auths();

    let client_addr = Address::generate(&env);
    let freelancer_addr = Address::generate(&env);
    let arbiter_addr = Address::generate(&env);
    let admin_addr = Address::generate(&env);

    let token_contract_id = env
        .register_stellar_asset_contract_v2(admin_addr.clone())
        .address();
    let token_admin = StellarAssetClient::new(&env, &token_contract_id);

    token_admin.mint(&client_addr, &100_000);

    let contract_id = env.register(MilestoneEscrow, ());
    let escrow = MilestoneEscrowClient::new(&env, &contract_id);

    let amounts = list(&env, [1_000_i128]);

    let init_res = escrow.try_initialize(
        &admin_addr,
        &client_addr,
        &freelancer_addr,
        &arbiter_addr,
        &token_contract_id,
        &604800,
        &amounts,
    );
    assert!(
        init_res.is_ok(),
        "Initial transition from Uninitialized to Initialized should succeed"
    );

    let attempt_init = |escrow: &MilestoneEscrowClient| {
        escrow.try_initialize(
            &admin_addr,
            &client_addr,
            &freelancer_addr,
            &arbiter_addr,
            &token_contract_id,
            &604800,
            &amounts,
        )
    };

    assert_eq!(
        attempt_init(&escrow),
        Err(Ok(Error::AlreadyInitialized)),
        "Transition from Initialized must revert"
    );

    escrow.fund(&client_addr);
    assert_eq!(
        attempt_init(&escrow),
        Err(Ok(Error::AlreadyInitialized)),
        "Transition from Funded must revert"
    );

    escrow.mark_delivered(&freelancer_addr, &0);
    assert_eq!(
        attempt_init(&escrow),
        Err(Ok(Error::AlreadyInitialized)),
        "Transition from Delivered must revert"
    );

    escrow.approve_partial(&client_addr, &0, &500);
    assert_eq!(
        attempt_init(&escrow),
        Err(Ok(Error::AlreadyInitialized)),
        "Transition from PartiallyReleased must revert"
    );

    let contract_id3 = env.register(MilestoneEscrow, ());
    let escrow3 = MilestoneEscrowClient::new(&env, &contract_id3);

    escrow3.initialize(
        &admin_addr,
        &client_addr,
        &freelancer_addr,
        &arbiter_addr,
        &token_contract_id,
        &604800,
        &amounts,
    );
    escrow3.fund(&client_addr);
    escrow3.mark_delivered(&freelancer_addr, &0);
    escrow3.approve_milestone(&client_addr, &0);
    assert_eq!(
        attempt_init(&escrow3),
        Err(Ok(Error::AlreadyInitialized)),
        "Transition from Released must revert"
    );

    let contract_id2 = env.register(MilestoneEscrow, ());
    let escrow2 = MilestoneEscrowClient::new(&env, &contract_id2);

    escrow2.initialize(
        &admin_addr,
        &client_addr,
        &freelancer_addr,
        &arbiter_addr,
        &token_contract_id,
        &604800,
        &amounts,
    );
    escrow2.fund(&client_addr);

    escrow2.raise_dispute(&client_addr, &0);
    assert_eq!(
        attempt_init(&escrow2),
        Err(Ok(Error::AlreadyInitialized)),
        "Transition from Disputed must revert"
    );

    escrow2.resolve_dispute(&arbiter_addr, &0, &false);
    assert_eq!(
        attempt_init(&escrow2),
        Err(Ok(Error::AlreadyInitialized)),
        "Transition from Refunded must revert"
    );
}

#[test]
fn test_initialize_auto_release_seconds_zero_fails() {
    let env = Env::default();
    env.mock_all_auths();

    let client_addr = Address::generate(&env);
    let freelancer_addr = Address::generate(&env);
    let arbiter_addr = Address::generate(&env);
    let admin_addr = Address::generate(&env);

    let token_contract_id = env
        .register_stellar_asset_contract_v2(admin_addr.clone())
        .address();

    let contract_id = env.register(MilestoneEscrow, ());
    let escrow = MilestoneEscrowClient::new(&env, &contract_id);

    let amounts = list(&env, [1_000_i128]);
    let init_result = escrow.try_initialize(
        &admin_addr,
        &client_addr,
        &freelancer_addr,
        &arbiter_addr,
        &token_contract_id,
        &0u64,
        &amounts,
    );
    assert_eq!(init_result, Err(Ok(Error::InvalidAmount)));
}

#[test]
fn test_add_whitelisted_token_at_capacity_fails() {
    let env = Env::default();
    env.mock_all_auths();

    let client_addr = Address::generate(&env);
    let freelancer_addr = Address::generate(&env);
    let arbiter_addr = Address::generate(&env);
    let admin_addr = Address::generate(&env);

    let token1 = env
        .register_stellar_asset_contract_v2(admin_addr.clone())
        .address();

    let contract_id = env.register(MilestoneEscrow, ());
    let client = MilestoneEscrowClient::new(&env, &contract_id);

    let amounts = list(&env, [1_000_i128]);
    client.initialize(
        &admin_addr,
        &client_addr,
        &freelancer_addr,
        &arbiter_addr,
        &token1,
        &604800,
        &amounts,
    );

    // The whitelist already contains token1 (added during initialize).
    // Add 49 more unique tokens to reach the cap of 50.
    for _ in 0..49u32 {
        let extra_token = env
            .register_stellar_asset_contract_v2(admin_addr.clone())
            .address();
        client.add_whitelisted_token(&admin_addr, &extra_token);
    }

    // Whitelist is now full (50 entries).
    let whitelist = client.get_whitelisted_tokens();
    assert_eq!(whitelist.len(), 50);

    // One more addition must be rejected with InvalidAmount (overflow guard).
    let overflow_token = env
        .register_stellar_asset_contract_v2(admin_addr.clone())
        .address();
    let result = client.try_add_whitelisted_token(&admin_addr, &overflow_token);
    assert_eq!(result, Err(Ok(Error::InvalidAmount)));

    // Whitelist length must be unchanged - no mutation on rejected call.
    assert_eq!(client.get_whitelisted_tokens().len(), 50);
}

#[test]
fn test_add_whitelisted_token_one_below_cap_succeeds() {
    let env = Env::default();
    env.mock_all_auths();

    let client_addr = Address::generate(&env);
    let freelancer_addr = Address::generate(&env);
    let arbiter_addr = Address::generate(&env);
    let admin_addr = Address::generate(&env);

    let token1 = env
        .register_stellar_asset_contract_v2(admin_addr.clone())
        .address();

    let contract_id = env.register(MilestoneEscrow, ());
    let client = MilestoneEscrowClient::new(&env, &contract_id);

    let amounts = list(&env, [1_000_i128]);
    client.initialize(
        &admin_addr,
        &client_addr,
        &freelancer_addr,
        &arbiter_addr,
        &token1,
        &604800,
        &amounts,
    );

    // Add 48 more to reach 49 total (one slot still available).
    for _ in 0..48u32 {
        let extra_token = env
            .register_stellar_asset_contract_v2(admin_addr.clone())
            .address();
        client.add_whitelisted_token(&admin_addr, &extra_token);
    }

    assert_eq!(client.get_whitelisted_tokens().len(), 49);

    // The 50th addition (filling the last slot) must succeed.
    let last_token = env
        .register_stellar_asset_contract_v2(admin_addr.clone())
        .address();
    let result = client.try_add_whitelisted_token(&admin_addr, &last_token);
    assert!(result.is_ok(), "adding the 50th token should succeed");
    assert_eq!(client.get_whitelisted_tokens().len(), 50);
}

#[test]
fn test_add_whitelisted_token_cap_resets_after_remove() {
    let env = Env::default();
    env.mock_all_auths();

    let client_addr = Address::generate(&env);
    let freelancer_addr = Address::generate(&env);
    let arbiter_addr = Address::generate(&env);
    let admin_addr = Address::generate(&env);

    let token1 = env
        .register_stellar_asset_contract_v2(admin_addr.clone())
        .address();

    let contract_id = env.register(MilestoneEscrow, ());
    let client = MilestoneEscrowClient::new(&env, &contract_id);

    let amounts = list(&env, [1_000_i128]);
    client.initialize(
        &admin_addr,
        &client_addr,
        &freelancer_addr,
        &arbiter_addr,
        &token1,
        &604800,
        &amounts,
    );

    // Fill whitelist to cap (50 entries).
    for _ in 0..49u32 {
        let extra_token = env
            .register_stellar_asset_contract_v2(admin_addr.clone())
            .address();
        client.add_whitelisted_token(&admin_addr, &extra_token);
    }
    assert_eq!(client.get_whitelisted_tokens().len(), 50);

    // Confirm cap is enforced.
    let overflow_token = env
        .register_stellar_asset_contract_v2(admin_addr.clone())
        .address();
    let cap_result = client.try_add_whitelisted_token(&admin_addr, &overflow_token);
    assert_eq!(cap_result, Err(Ok(Error::InvalidAmount)));

    // Remove one token to free a slot.
    client.remove_whitelisted_token(&admin_addr, &token1);
    assert_eq!(client.get_whitelisted_tokens().len(), 49);

    // Now the addition must succeed (one slot available).
    let new_token = env
        .register_stellar_asset_contract_v2(admin_addr.clone())
        .address();
    let result = client.try_add_whitelisted_token(&admin_addr, &new_token);
    assert!(result.is_ok(), "adding after remove should succeed");
    assert_eq!(client.get_whitelisted_tokens().len(), 50);

    // Cap is enforced again after filling the freed slot.
    let yet_another = env
        .register_stellar_asset_contract_v2(admin_addr.clone())
        .address();
    let result2 = client.try_add_whitelisted_token(&admin_addr, &yet_another);
    assert_eq!(result2, Err(Ok(Error::InvalidAmount)));
}

#[test]
fn test_add_whitelisted_token_duplicate_checked_before_cap() {
    let env = Env::default();
    env.mock_all_auths();

    let client_addr = Address::generate(&env);
    let freelancer_addr = Address::generate(&env);
    let arbiter_addr = Address::generate(&env);
    let admin_addr = Address::generate(&env);

    let token1 = env
        .register_stellar_asset_contract_v2(admin_addr.clone())
        .address();

    let contract_id = env.register(MilestoneEscrow, ());
    let client = MilestoneEscrowClient::new(&env, &contract_id);

    let amounts = list(&env, [1_000_i128]);
    client.initialize(
        &admin_addr,
        &client_addr,
        &freelancer_addr,
        &arbiter_addr,
        &token1,
        &604800,
        &amounts,
    );

    // Fill whitelist to cap (50 entries).
    for _ in 0..49u32 {
        let extra_token = env
            .register_stellar_asset_contract_v2(admin_addr.clone())
            .address();
        client.add_whitelisted_token(&admin_addr, &extra_token);
    }
    assert_eq!(client.get_whitelisted_tokens().len(), 50);

    // Submitting an already-whitelisted token while also at cap must return
    // TokenAlreadyWhitelisted, not InvalidAmount.
    let result = client.try_add_whitelisted_token(&admin_addr, &token1);
    assert_eq!(result, Err(Ok(Error::TokenAlreadyWhitelisted)));
}

#[test]
fn test_add_whitelisted_token_unauthorized_before_cap_check() {
    let env = Env::default();
    env.mock_all_auths();

    let client_addr = Address::generate(&env);
    let freelancer_addr = Address::generate(&env);
    let arbiter_addr = Address::generate(&env);
    let admin_addr = Address::generate(&env);
    let bad_actor = Address::generate(&env);

    let token1 = env
        .register_stellar_asset_contract_v2(admin_addr.clone())
        .address();

    let contract_id = env.register(MilestoneEscrow, ());
    let client = MilestoneEscrowClient::new(&env, &contract_id);

    let amounts = list(&env, [1_000_i128]);
    client.initialize(
        &admin_addr,
        &client_addr,
        &freelancer_addr,
        &arbiter_addr,
        &token1,
        &604800,
        &amounts,
    );

    // Fill whitelist to cap.
    for _ in 0..49u32 {
        let extra_token = env
            .register_stellar_asset_contract_v2(admin_addr.clone())
            .address();
        client.add_whitelisted_token(&admin_addr, &extra_token);
    }
    assert_eq!(client.get_whitelisted_tokens().len(), 50);

    // bad_actor tries to add a token while the list is at capacity.
    // The Unauthorized error must fire, not InvalidAmount.
    let new_token = env
        .register_stellar_asset_contract_v2(admin_addr.clone())
        .address();
    let result = client.try_add_whitelisted_token(&bad_actor, &new_token);
    assert_eq!(result, Err(Ok(Error::Unauthorized)));
}

#[test]
fn test_remove_whitelisted_token_rejects_zero_account_address() {
    let env = Env::default();
    env.mock_all_auths();

    let admin_addr = Address::generate(&env);
    let client_addr = Address::generate(&env);
    let freelancer_addr = Address::generate(&env);
    let arbiter_addr = Address::generate(&env);

    let token1 = env
        .register_stellar_asset_contract_v2(admin_addr.clone())
        .address();

    let contract_id = env.register(MilestoneEscrow, ());
    let client = MilestoneEscrowClient::new(&env, &contract_id);

    let amounts = list(&env, [1_000_i128]);
    client.initialize(
        &admin_addr,
        &client_addr,
        &freelancer_addr,
        &arbiter_addr,
        &token1,
        &604800,
        &amounts,
    );

    let zero_account = Address::from_str(
        &env,
        "GAAAAAAAAAAAAAAAAAAAAAAAAAAAAAAAAAAAAAAAAAAAAAAAAAAAAWHF",
    );
    let result = client.try_remove_whitelisted_token(&admin_addr, &zero_account);
    assert_eq!(result, Err(Ok(Error::InvalidAddress)));
}

#[test]
fn test_remove_whitelisted_token_rejects_zero_contract_address() {
    let env = Env::default();
    env.mock_all_auths();

    let admin_addr = Address::generate(&env);
    let client_addr = Address::generate(&env);
    let freelancer_addr = Address::generate(&env);
    let arbiter_addr = Address::generate(&env);

    let token1 = env
        .register_stellar_asset_contract_v2(admin_addr.clone())
        .address();

    let contract_id = env.register(MilestoneEscrow, ());
    let client = MilestoneEscrowClient::new(&env, &contract_id);

    let amounts = list(&env, [1_000_i128]);
    client.initialize(
        &admin_addr,
        &client_addr,
        &freelancer_addr,
        &arbiter_addr,
        &token1,
        &604800,
        &amounts,
    );

    let zero_contract = Address::from_str(
        &env,
        "CAAAAAAAAAAAAAAAAAAAAAAAAAAAAAAAAAAAAAAAAAAAAAAAAAAABSC4",
    );
    let result = client.try_remove_whitelisted_token(&admin_addr, &zero_contract);
    assert_eq!(result, Err(Ok(Error::InvalidAddress)));
}

#[test]
fn test_version_returns_one_after_initialize() {
    let env = Env::default();
    env.mock_all_auths();

    let (_, _, _, _, _, _, client) = setup_funded_escrow(&env, list(&env, [1_000_i128]));

    assert_eq!(client.version(), 1u32);
}

#[test]
fn test_upgrade_not_initialized_fails() {
    let env = Env::default();
    env.mock_all_auths();

    let contract_id = env.register(MilestoneEscrow, ());
    let client = MilestoneEscrowClient::new(&env, &contract_id);

    let admin = Address::generate(&env);
    let fake_hash = [0u8; 32];
    let result = client.try_upgrade(&admin, &fake_hash);
    assert_eq!(result, Err(Ok(Error::NotInitialized)));
}

#[test]
fn test_upgrade_unauthorized_fails() {
    let env = Env::default();
    env.mock_all_auths();

    let (_, _, _, _, _, _, client) = setup_funded_escrow(&env, list(&env, [1_000_i128]));

    let bad_actor = Address::generate(&env);
    let fake_hash = [0u8; 32];
    let result = client.try_upgrade(&bad_actor, &fake_hash);
    assert_eq!(result, Err(Ok(Error::Unauthorized)));
}

#[test]
fn test_upgrade_admin_auth_check_passes() {
    let env = Env::default();
    env.mock_all_auths();

    let (_, _, _, admin_addr, _, _, client) = setup_funded_escrow(&env, list(&env, [1_000_i128]));

    // Admin auth passes; the call will fail because [0; 32] isn't a valid
    // uploaded wasm hash, but it must NOT return Unauthorized.
    let fake_hash = [0u8; 32];
    let result = client.try_upgrade(&admin_addr, &fake_hash);
    assert_ne!(result, Err(Ok(Error::Unauthorized)));
}

#[test]
fn test_add_whitelisted_token_before_initialize_fails() {
    let env = Env::default();
    env.mock_all_auths();

    let admin_addr = Address::generate(&env);
    let token_addr = env
        .register_stellar_asset_contract_v2(admin_addr.clone())
        .address();

    let contract_id = env.register(MilestoneEscrow, ());
    let client = MilestoneEscrowClient::new(&env, &contract_id);

    // No initialize call - storage is empty.
    let result = client.try_add_whitelisted_token(&admin_addr, &token_addr);
    assert_eq!(result, Err(Ok(Error::NotInitialized)));
}

#[test]
fn test_add_whitelisted_token_after_funded_fails() {
    let env = Env::default();
    env.mock_all_auths();

    let client_addr = Address::generate(&env);
    let freelancer_addr = Address::generate(&env);
    let arbiter_addr = Address::generate(&env);
    let admin_addr = Address::generate(&env);

    let token1 = env
        .register_stellar_asset_contract_v2(admin_addr.clone())
        .address();
    let token_admin = StellarAssetClient::new(&env, &token1);
    token_admin.mint(&client_addr, &1_000);

    let contract_id = env.register(MilestoneEscrow, ());
    let client = MilestoneEscrowClient::new(&env, &contract_id);

    client.initialize(
        &admin_addr,
        &client_addr,
        &freelancer_addr,
        &arbiter_addr,
        &token1,
        &604800,
        &list(&env, [1_000_i128]),
    );
    client.fund(&client_addr);

    // Contract is now funded; adding a new token must be rejected.
    let extra_token = env
        .register_stellar_asset_contract_v2(admin_addr.clone())
        .address();
    let result = client.try_add_whitelisted_token(&admin_addr, &extra_token);
    assert_eq!(result, Err(Ok(Error::AlreadyFunded)));
}

#[test]
fn test_add_whitelisted_token_freelancer_is_unauthorized() {
    let env = Env::default();
    env.mock_all_auths();

    let client_addr = Address::generate(&env);
    let freelancer_addr = Address::generate(&env);
    let arbiter_addr = Address::generate(&env);
    let admin_addr = Address::generate(&env);

    let token1 = env
        .register_stellar_asset_contract_v2(admin_addr.clone())
        .address();
    let token2 = env
        .register_stellar_asset_contract_v2(admin_addr.clone())
        .address();

    let contract_id = env.register(MilestoneEscrow, ());
    let client = MilestoneEscrowClient::new(&env, &contract_id);

    client.initialize(
        &admin_addr,
        &client_addr,
        &freelancer_addr,
        &arbiter_addr,
        &token1,
        &604800,
        &list(&env, [1_000_i128]),
    );

    // freelancer is a known participant but not the admin.
    let result = client.try_add_whitelisted_token(&freelancer_addr, &token2);
    assert_eq!(result, Err(Ok(Error::Unauthorized)));
}

#[test]
fn test_add_whitelisted_token_client_is_unauthorized() {
    let env = Env::default();
    env.mock_all_auths();

    let client_addr = Address::generate(&env);
    let freelancer_addr = Address::generate(&env);
    let arbiter_addr = Address::generate(&env);
    let admin_addr = Address::generate(&env);

    let token1 = env
        .register_stellar_asset_contract_v2(admin_addr.clone())
        .address();
    let token2 = env
        .register_stellar_asset_contract_v2(admin_addr.clone())
        .address();

    let contract_id = env.register(MilestoneEscrow, ());
    let client = MilestoneEscrowClient::new(&env, &contract_id);

    client.initialize(
        &admin_addr,
        &client_addr,
        &freelancer_addr,
        &arbiter_addr,
        &token1,
        &604800,
        &list(&env, [1_000_i128]),
    );

    // client is a known participant but not the admin.
    let result = client.try_add_whitelisted_token(&client_addr, &token2);
    assert_eq!(result, Err(Ok(Error::Unauthorized)));
}

#[test]
fn test_add_whitelisted_token_emits_event() {
    let env = Env::default();
    env.mock_all_auths();

    let client_addr = Address::generate(&env);
    let freelancer_addr = Address::generate(&env);
    let arbiter_addr = Address::generate(&env);
    let admin_addr = Address::generate(&env);

    let token1 = env
        .register_stellar_asset_contract_v2(admin_addr.clone())
        .address();
    let token2 = env
        .register_stellar_asset_contract_v2(admin_addr.clone())
        .address();

    let contract_id = env.register(MilestoneEscrow, ());
    let client = MilestoneEscrowClient::new(&env, &contract_id);

    client.initialize(
        &admin_addr,
        &client_addr,
        &freelancer_addr,
        &arbiter_addr,
        &token1,
        &604800,
        &list(&env, [1_000_i128]),
    );

    client.add_whitelisted_token(&admin_addr, &token2);

    let wtok_topic: Val = Symbol("wtok").into_val(&env);
    let mut wtok_events = 0u32;
    for event in env.events().all().iter() {
        if let Some(topic) = event.1.get(0) {
            if topic.get_payload() == wtok_topic.get_payload() {
                wtok_events += 1;
                assert_eq!(
                    TokenWhitelistedEvent::from_val(&env, &event.2),
                    TokenWhitelistedEvent {
                        admin: admin_addr.clone(),
                        token: token2.clone(),
                    }
                );
            }
        }
    }
    assert_eq!(wtok_events, 1, "expected exactly one wtok event");
}

#[test]
fn test_add_whitelisted_token_failed_does_not_emit_event() {
    let env = Env::default();
    env.mock_all_auths();

    let client_addr = Address::generate(&env);
    let freelancer_addr = Address::generate(&env);
    let arbiter_addr = Address::generate(&env);
    let admin_addr = Address::generate(&env);

    let token1 = env
        .register_stellar_asset_contract_v2(admin_addr.clone())
        .address();

    let contract_id = env.register(MilestoneEscrow, ());
    let client = MilestoneEscrowClient::new(&env, &contract_id);

    client.initialize(
        &admin_addr,
        &client_addr,
        &freelancer_addr,
        &arbiter_addr,
        &token1,
        &604800,
        &list(&env, [1_000_i128]),
    );

    // Attempt to add the already-whitelisted token - must fail.
    let _ = client.try_add_whitelisted_token(&admin_addr, &token1);

    let wtok_topic: Val = Symbol("wtok").into_val(&env);
    let wtok_count = env.events().all().iter().fold(0u32, |acc, event| {
        if let Some(topic) = event.1.get(0) {
            if topic.get_payload() == wtok_topic.get_payload() {
                return acc + 1;
            }
        }
        acc
    });
    assert_eq!(wtok_count, 0, "failed call must not emit wtok event");
}

#[test]
fn test_add_whitelisted_token_old_admin_rejected_after_transfer() {
    let env = Env::default();
    env.mock_all_auths();

    let client_addr = Address::generate(&env);
    let freelancer_addr = Address::generate(&env);
    let arbiter_addr = Address::generate(&env);
    let admin_addr = Address::generate(&env);
    let new_admin_addr = Address::generate(&env);

    let token1 = env
        .register_stellar_asset_contract_v2(admin_addr.clone())
        .address();
    let token2 = env
        .register_stellar_asset_contract_v2(admin_addr.clone())
        .address();
    let token3 = env
        .register_stellar_asset_contract_v2(admin_addr.clone())
        .address();

    let contract_id = env.register(MilestoneEscrow, ());
    let client = MilestoneEscrowClient::new(&env, &contract_id);

    client.initialize(
        &admin_addr,
        &client_addr,
        &freelancer_addr,
        &arbiter_addr,
        &token1,
        &604800,
        &list(&env, [1_000_i128]),
    );

    client.transfer_admin(&admin_addr, &new_admin_addr);

    // Old admin must now be rejected.
    let old_result = client.try_add_whitelisted_token(&admin_addr, &token2);
    assert_eq!(old_result, Err(Ok(Error::Unauthorized)));

    // New admin must succeed.
    let new_result = client.try_add_whitelisted_token(&new_admin_addr, &token3);
    assert!(
        new_result.is_ok(),
        "new admin should be able to add a token"
    );
    assert!(client.is_token_whitelisted(&token3));
}

#[test]
fn test_raise_dispute_bad_actor_returns_unauthorized() {
    let env = Env::default();
    env.mock_all_auths();

    let (client_addr, freelancer_addr, _, _, _, _, client) =
        setup_funded_escrow(&env, list(&env, [1_000_i128]));

    client.mark_delivered(&freelancer_addr, &0u32);

    let bad_actor = Address::generate(&env);
    let result = client.try_raise_dispute(&bad_actor, &0u32);
    assert_eq!(result, Err(Ok(Error::Unauthorized)));
}

#[test]
fn test_raise_dispute_by_freelancer_succeeds() {
    let env = Env::default();
    env.mock_all_auths();

    let (client_addr, freelancer_addr, _, _, _, _, client) =
        setup_funded_escrow(&env, list(&env, [1_000_i128]));

    client.mark_delivered(&freelancer_addr, &0u32);
    client.raise_dispute(&freelancer_addr, &0u32);

    let job = client.get_job();
    assert_eq!(
        job.milestones.get(0).unwrap().status,
        MilestoneStatus::Disputed
    );
}

#[test]
fn test_add_whitelisted_token_does_not_whitelist_other_tokens() {
    let env = Env::default();
    env.mock_all_auths();

    let client_addr = Address::generate(&env);
    let freelancer_addr = Address::generate(&env);
    let arbiter_addr = Address::generate(&env);
    let admin_addr = Address::generate(&env);

    let token1 = env
        .register_stellar_asset_contract_v2(admin_addr.clone())
        .address();
    let token2 = env
        .register_stellar_asset_contract_v2(admin_addr.clone())
        .address();
    let token3 = env
        .register_stellar_asset_contract_v2(admin_addr.clone())
        .address();

    let contract_id = env.register(MilestoneEscrow, ());
    let client = MilestoneEscrowClient::new(&env, &contract_id);

    client.initialize(
        &admin_addr,
        &client_addr,
        &freelancer_addr,
        &arbiter_addr,
        &token1,
        &604800,
        &list(&env, [1_000_i128]),
    );

    // Only token2 is added.
    client.add_whitelisted_token(&admin_addr, &token2);

    assert!(
        client.is_token_whitelisted(&token1),
        "token1 (init token) must still be whitelisted"
    );
    assert!(
        client.is_token_whitelisted(&token2),
        "token2 must be whitelisted after add"
    );
    assert!(
        !client.is_token_whitelisted(&token3),
        "token3 was never added — must not be whitelisted"
    );

    // Whitelist length must be exactly 2.
    assert_eq!(client.get_whitelisted_tokens().len(), 2);
}

#[test]
fn test_raise_dispute_by_client_succeeds() {
    let env = Env::default();
    env.mock_all_auths();

    let (client_addr, _, _, _, _, _, client) = setup_funded_escrow(&env, list(&env, [1_000_i128]));

    client.raise_dispute(&client_addr, &0u32);

    let job = client.get_job();
    assert_eq!(
        job.milestones.get(0).unwrap().status,
        MilestoneStatus::Disputed
    );
}

#[test]
fn test_raise_dispute_writes_dispute_flag() {
    let env = Env::default();
    env.mock_all_auths();

    let (client_addr, _, _, _, _, contract_id, client) =
        setup_funded_escrow(&env, list(&env, [1_000_i128]));

    client.raise_dispute(&client_addr, &0u32);

    // Read the temporary storage flag from within the contract context
    let flag_set = env.as_contract(&contract_id, || {
        env.storage()
            .temporary()
            .get::<_, bool>(&DataKey::DisputeFlag(0u32))
            .unwrap_or(false)
    });
    assert!(flag_set, "DisputeFlag should be set in temporary storage");
}

#[test]
fn test_dispute_flag_not_set_before_raise_dispute() {
    let env = Env::default();
    env.mock_all_auths();

    let (_, _, _, _, _, contract_id, _client) = setup_funded_escrow(&env, list(&env, [1_000_i128]));

    let flag_set = env.as_contract(&contract_id, || {
        env.storage()
            .temporary()
            .get::<_, bool>(&DataKey::DisputeFlag(0u32))
            .unwrap_or(false)
    });
    assert!(
        !flag_set,
        "DisputeFlag should NOT be set before raise_dispute"
    );
}

#[test]
fn test_dispute_flag_only_sets_targeted_milestone() {
    let env = Env::default();
    env.mock_all_auths();

    let (client_addr, _, _, _, _, contract_id, client) =
        setup_funded_escrow(&env, list(&env, [1_000_i128, 1_000_i128]));

    client.raise_dispute(&client_addr, &0u32);

    let flag_0 = env.as_contract(&contract_id, || {
        env.storage()
            .temporary()
            .get::<_, bool>(&DataKey::DisputeFlag(0u32))
            .unwrap_or(false)
    });
    let flag_1 = env.as_contract(&contract_id, || {
        env.storage()
            .temporary()
            .get::<_, bool>(&DataKey::DisputeFlag(1u32))
            .unwrap_or(false)
    });

    assert!(flag_0, "DisputeFlag(0) should be set");
    assert!(!flag_1, "DisputeFlag(1) should NOT be set");
}

#[test]
fn test_emergency_pause_split_refund_even_split() {
    let env = Env::default();
    env.mock_all_auths();

    let contract_id = env.register(MilestoneEscrow, ());
    let client = MilestoneEscrowClient::new(&env, &contract_id);

    let allocation = client.emergency_pause_split_refund(&1_000_i128, &5_000_u32, &5_000_u32);
    assert_eq!(allocation.client_refund, 500);
    assert_eq!(allocation.freelancer_payout, 500);
    assert_eq!(allocation.client_refund_bps, 5_000);
    assert_eq!(allocation.freelancer_payout_bps, 5_000);
    assert_eq!(
        allocation.client_refund + allocation.freelancer_payout,
        1_000
    );
}

#[test]
fn test_emergency_pause_split_refund_odd_amount_rounding() {
    let env = Env::default();
    env.mock_all_auths();

    let contract_id = env.register(MilestoneEscrow, ());
    let client = MilestoneEscrowClient::new(&env, &contract_id);

    // 101 split 50/50: client gets 51, freelancer gets 50
    let allocation = client.emergency_pause_split_refund(&101_i128, &5_000_u32, &5_000_u32);
    assert_eq!(allocation.client_refund, 51);
    assert_eq!(allocation.freelancer_payout, 50);
    assert_eq!(allocation.client_refund + allocation.freelancer_payout, 101);
}

#[test]
fn test_emergency_pause_split_refund_invalid_ratio_fails() {
    let env = Env::default();
    env.mock_all_auths();

    let contract_id = env.register(MilestoneEscrow, ());
    let client = MilestoneEscrowClient::new(&env, &contract_id);

    // 5000 + 3000 = 8000 != 10000
    let result = client.try_emergency_pause_split_refund(&1_000_i128, &5_000_u32, &3_000_u32);
    assert_eq!(result, Err(Ok(Error::InvalidRatio)));
}

#[test]
fn test_multisig_split_refund_even_split() {
    let env = Env::default();
    env.mock_all_auths();

    let (_, _, _, admin_addr, _, _, client) = setup_funded_escrow(&env, list(&env, [1_000_i128]));
    client.multisig_lock(&admin_addr);

    let allocation = client.multisig_split_refund(&admin_addr, &1_000_i128, &5_000_u32, &5_000_u32);
    assert_eq!(allocation.client_refund, 500);
    assert_eq!(allocation.freelancer_payout, 500);
    assert_eq!(allocation.client_refund_bps, 5_000);
    assert_eq!(allocation.freelancer_payout_bps, 5_000);
    assert_eq!(
        allocation.client_refund + allocation.freelancer_payout,
        1_000
    );
}

#[test]
fn test_platform_fee_allocation_admin_override_requires_verified_admin() {
    let env = Env::default();
    env.mock_all_auths();

    let client_addr = Address::generate(&env);
    let freelancer_addr = Address::generate(&env);
    let arbiter_addr = Address::generate(&env);
    let admin_addr = Address::generate(&env);
    let attacker = Address::generate(&env);

    let token_contract_id = env
        .register_stellar_asset_contract_v2(admin_addr.clone())
        .address();

    let contract_id = env.register(MilestoneEscrow, ());
    let client = MilestoneEscrowClient::new(&env, &contract_id);

    let amounts = list(&env, [1_000_i128]);
    client.initialize(
        &admin_addr,
        &client_addr,
        &freelancer_addr,
        &arbiter_addr,
        &token_contract_id,
        &604800,
        &amounts,
    );

    client.set_platform_fee_allocation(&admin_addr, &2000_u32, &7000_u32, &1000_u32);
    client.lock_platform_fee_allocation(&admin_addr);

    let result = client.try_pf_alloc_admin_override(&attacker, &1000_u32, &8000_u32, &1000_u32);
    assert_eq!(result, Err(Ok(Error::Unauthorized)));

    let allocation = client.get_platform_fee_allocation();
    assert_eq!(allocation.client_bps, 2000);
    assert_eq!(allocation.freelancer_bps, 7000);
    assert!(allocation.locked);
}

#[test]
fn test_admin_override_tax_refund_requires_admin() {
    let env = Env::default();
    env.mock_all_auths();

    let client_addr = Address::generate(&env);
    let freelancer_addr = Address::generate(&env);
    let arbiter_addr = Address::generate(&env);
    let admin_addr = Address::generate(&env);
    let attacker = Address::generate(&env);

    let token_contract_id = env
        .register_stellar_asset_contract_v2(admin_addr.clone())
        .address();

    let contract_id = env.register(MilestoneEscrow, ());
    let client = MilestoneEscrowClient::new(&env, &contract_id);

    let amounts = list(&env, [1_000_i128]);
    client.initialize(
        &admin_addr,
        &client_addr,
        &freelancer_addr,
        &arbiter_addr,
        &token_contract_id,
        &604800,
        &amounts,
    );

    let result = client.try_admin_override_tax_refund(&attacker, &0u32);
    assert_eq!(result, Err(Ok(Error::Unauthorized)));
}

#[test]
fn test_admin_override_tax_refund_invalid_state() {
    let env = Env::default();
    env.mock_all_auths();

    let client_addr = Address::generate(&env);
    let freelancer_addr = Address::generate(&env);
    let arbiter_addr = Address::generate(&env);
    let admin_addr = Address::generate(&env);

    let token_contract_id = env
        .register_stellar_asset_contract_v2(admin_addr.clone())
        .address();

    let contract_id = env.register(MilestoneEscrow, ());
    let client = MilestoneEscrowClient::new(&env, &contract_id);

    let amounts = list(&env, [1_000_i128]);
    client.initialize(
        &admin_addr,
        &client_addr,
        &freelancer_addr,
        &arbiter_addr,
        &token_contract_id,
        &604800,
        &amounts,
    );

    // No tax withholding lock exists for milestone 0.
    // Should fail with InvalidStatus without mutating state.
    let result = client.try_admin_override_tax_refund(&admin_addr, &0u32);
    assert_eq!(result, Err(Ok(Error::InvalidStatus)));
}

#[test]
fn test_platform_fee_allocation_admin_override_invalid_state() {
    let env = Env::default();
    env.mock_all_auths();

    let client_addr = Address::generate(&env);
    let freelancer_addr = Address::generate(&env);
    let arbiter_addr = Address::generate(&env);
    let admin_addr = Address::generate(&env);

    let token_contract_id = env
        .register_stellar_asset_contract_v2(admin_addr.clone())
        .address();

    let contract_id = env.register(MilestoneEscrow, ());
    let client = MilestoneEscrowClient::new(&env, &contract_id);

    let amounts = list(&env, [1_000_i128]);
    client.initialize(
        &admin_addr,
        &client_addr,
        &freelancer_addr,
        &arbiter_addr,
        &token_contract_id,
        &604800,
        &amounts,
    );

    let result = client.try_pf_alloc_admin_override(&admin_addr, &1000_u32, &8000_u32, &1000_u32);
    assert_eq!(result, Err(Ok(Error::InvalidStatus)));

    client.set_platform_fee_allocation(&admin_addr, &2000_u32, &7000_u32, &1000_u32);

    // Now it's set but NOT locked. An override is unnecessary and should fail with InvalidStatus.
    let result2 = client.try_pf_alloc_admin_override(&admin_addr, &1500_u32, &7500_u32, &1000_u32);
    assert_eq!(result2, Err(Ok(Error::InvalidStatus)));

    // Storage remains unchanged
    let allocation = client.get_platform_fee_allocation();
    assert_eq!(allocation.client_bps, 2000);
    assert_eq!(allocation.freelancer_bps, 7000);
    assert_eq!(allocation.treasury_bps, 1000);
    assert!(!allocation.locked);
}

#[test]
fn test_platform_fee_allocation_admin_override_unlocks_locked_allocation() {
    let env = Env::default();
    env.mock_all_auths();

    let client_addr = Address::generate(&env);
    let freelancer_addr = Address::generate(&env);
    let arbiter_addr = Address::generate(&env);
    let admin_addr = Address::generate(&env);

    let token_contract_id = env
        .register_stellar_asset_contract_v2(admin_addr.clone())
        .address();

    let contract_id = env.register(MilestoneEscrow, ());
    let client = MilestoneEscrowClient::new(&env, &contract_id);

    let amounts = list(&env, [1_000_i128]);
    client.initialize(
        &admin_addr,
        &client_addr,
        &freelancer_addr,
        &arbiter_addr,
        &token_contract_id,
        &604800,
        &amounts,
    );

    client.set_platform_fee_allocation(&admin_addr, &2000_u32, &7000_u32, &1000_u32);
    client.lock_platform_fee_allocation(&admin_addr);

    let locked_update =
        client.try_set_platform_fee_allocation(&admin_addr, &1500_u32, &7500_u32, &1000_u32);
    assert_eq!(locked_update, Err(Ok(Error::InvalidStatus)));

    client.pf_alloc_admin_override(&admin_addr, &1500_u32, &7500_u32, &1000_u32);
    let allocation = client.get_platform_fee_allocation();
    assert_eq!(allocation.client_bps, 1500);
    assert_eq!(allocation.freelancer_bps, 7500);
    assert_eq!(allocation.treasury_bps, 1000);
}

#[test]
fn test_multisig_split_refund_uneven_split() {
    let env = Env::default();
    env.mock_all_auths();

    let (_, _, _, admin_addr, _, _, client) = setup_funded_escrow(&env, list(&env, [1_000_i128]));
    client.multisig_lock(&admin_addr);

    let allocation = client.multisig_split_refund(&admin_addr, &1_000_i128, &7_000_u32, &3_000_u32);
    assert_eq!(allocation.client_refund, 700);
    assert_eq!(allocation.freelancer_payout, 300);
    assert_eq!(allocation.client_refund_bps, 7_000);
    assert_eq!(allocation.freelancer_payout_bps, 3_000);
    assert_eq!(
        allocation.client_refund + allocation.freelancer_payout,
        1_000
    );
}

#[test]
fn test_multisig_split_refund_full_client_refund() {
    let env = Env::default();
    env.mock_all_auths();

    let (_, _, _, admin_addr, _, _, client) = setup_funded_escrow(&env, list(&env, [1_000_i128]));
    client.multisig_lock(&admin_addr);

    let allocation = client.multisig_split_refund(&admin_addr, &1_000_i128, &10_000_u32, &0_u32);
    assert_eq!(allocation.client_refund, 1_000);
    assert_eq!(allocation.freelancer_payout, 0);
}

#[test]
fn test_multisig_split_refund_full_freelancer_payout() {
    let env = Env::default();
    env.mock_all_auths();

    let (_, _, _, admin_addr, _, _, client) = setup_funded_escrow(&env, list(&env, [1_000_i128]));
    client.multisig_lock(&admin_addr);

    let allocation = client.multisig_split_refund(&admin_addr, &1_000_i128, &0_u32, &10_000_u32);
    assert_eq!(allocation.client_refund, 0);
    assert_eq!(allocation.freelancer_payout, 1_000);
}

#[test]
fn test_multisig_split_refund_invalid_ratio_fails() {
    let env = Env::default();
    env.mock_all_auths();

    let (_, _, _, admin_addr, _, _, client) = setup_funded_escrow(&env, list(&env, [1_000_i128]));
    client.multisig_lock(&admin_addr);

    // Total is 8000, not 10000
    let result = client.try_multisig_split_refund(&admin_addr, &1_000_i128, &5_000_u32, &3_000_u32);
    assert_eq!(result, Err(Ok(Error::InvalidRatio)));
}

#[test]
fn test_multisig_split_refund_zero_total_fails() {
    let env = Env::default();
    env.mock_all_auths();

    let (_, _, _, admin_addr, _, _, client) = setup_funded_escrow(&env, list(&env, [1_000_i128]));
    client.multisig_lock(&admin_addr);

    let result = client.try_multisig_split_refund(&admin_addr, &0_i128, &5_000_u32, &5_000_u32);
    assert_eq!(result, Err(Ok(Error::InvalidAmount)));
}

#[test]
fn test_multisig_split_refund_odd_amount_rounding() {
    let env = Env::default();
    env.mock_all_auths();

    let (_, _, _, admin_addr, _, _, client) = setup_funded_escrow(&env, list(&env, [1_000_i128]));
    client.multisig_lock(&admin_addr);

    // 101 split 50/50 should produce 51/50 (rounding up for client)
    let allocation = client.multisig_split_refund(&admin_addr, &101_i128, &5_000_u32, &5_000_u32);
    assert_eq!(allocation.client_refund + allocation.freelancer_payout, 101);
}

#[test]
fn test_multisig_split_refund_extreme_split_preserves_total() {
    let env = Env::default();
    env.mock_all_auths();

    let (_, _, _, admin_addr, _, _, client) = setup_funded_escrow(&env, list(&env, [10_000_i128]));
    client.multisig_lock(&admin_addr);

    let allocation = client.multisig_split_refund(&admin_addr, &10_000_i128, &1_u32, &9_999_u32);
    assert_eq!(
        allocation.client_refund + allocation.freelancer_payout,
        10_000
    );
    assert_eq!(allocation.client_refund_bps, 1);
    assert_eq!(allocation.freelancer_payout_bps, 9_999);
}

#[test]
fn test_multisig_split_refund_emits_event() {
    let env = Env::default();
    env.mock_all_auths();

    let client_addr = Address::generate(&env);
    let freelancer_addr = Address::generate(&env);
    let arbiter_addr = Address::generate(&env);
    let admin_addr = Address::generate(&env);

    let token_contract_id = env
        .register_stellar_asset_contract_v2(admin_addr.clone())
        .address();
    let token_admin = StellarAssetClient::new(&env, &token_contract_id);
    token_admin.mint(&client_addr, &5_000);

    let contract_id = env.register(MilestoneEscrow, ());
    let client = MilestoneEscrowClient::new(&env, &contract_id);

    // Negative numerator
    assert_eq!(
        client.try_payment_streaming_milestones(&100_i128, &-1_i128, &3_i128),
        Err(Ok(Error::InvalidRatio))
    );
    // Numerator > denominator
    assert_eq!(
        client.try_payment_streaming_milestones(&100_i128, &4_i128, &3_i128),
        Err(Ok(Error::InvalidRatio))
    );
}

#[test]
fn test_payment_streaming_milestones_negative_amount_fails() {
    let env = Env::default();
    env.mock_all_auths();

    let contract_id = env.register(MilestoneEscrow, ());
    let client = MilestoneEscrowClient::new(&env, &contract_id);

    assert_eq!(
        client.try_payment_streaming_milestones(&-1_i128, &1_i128, &2_i128),
        Err(Ok(Error::InvalidAmount))
    );
}

#[test]
fn test_payment_streaming_milestones_zero_denominator_fails() {
    let env = Env::default();
    env.mock_all_auths();

    let contract_id = env.register(MilestoneEscrow, ());
    let client = MilestoneEscrowClient::new(&env, &contract_id);

    assert_eq!(
        client.try_payment_streaming_milestones(&100_i128, &1_i128, &0_i128),
        Err(Ok(Error::InvalidRatio))
    );
    assert_eq!(
        client.try_payment_streaming_milestones(&100_i128, &1_i128, &-1_i128),
        Err(Ok(Error::InvalidRatio))
    );
}

#[test]
fn test_payment_streaming_milestones_zero_amount_fails() {
    let env = Env::default();
    env.mock_all_auths();

    let contract_id = env.register(MilestoneEscrow, ());
    let client = MilestoneEscrowClient::new(&env, &contract_id);

    assert_eq!(
        client.try_payment_streaming_milestones(&0_i128, &1_i128, &2_i128),
        Err(Ok(Error::InvalidAmount))
    );
}

#[test]
fn test_payment_streaming_milestones_full_amount() {
    let env = Env::default();
    env.mock_all_auths();

    let contract_id = env.register(MilestoneEscrow, ());
    let client = MilestoneEscrowClient::new(&env, &contract_id);

    let split = client.payment_streaming_milestones(&1000_i128, &100_i128, &100_i128);
    assert_eq!(split.first, 1000);
    assert_eq!(split.second, 0);
}

#[test]
fn test_payment_streaming_milestones_zero_numerator() {
    let env = Env::default();
    env.mock_all_auths();

    let contract_id = env.register(MilestoneEscrow, ());
    let client = MilestoneEscrowClient::new(&env, &contract_id);

    let split = client.payment_streaming_milestones(&1000_i128, &0_i128, &100_i128);
    assert_eq!(split.first, 0);
    assert_eq!(split.second, 1000);
}

#[test]
fn test_payment_streaming_milestones_overflow_fails() {
    let env = Env::default();
    env.mock_all_auths();

    let contract_id = env.register(MilestoneEscrow, ());
    let client = MilestoneEscrowClient::new(&env, &contract_id);

    assert_eq!(
        client.try_payment_streaming_milestones(&i128::MAX, &i128::MAX, &i128::MAX),
        Err(Ok(Error::InvalidAmount))
    );
}

#[test]
fn test_payment_streaming_milestones_emits_event() {
    let env = Env::default();
    env.mock_all_auths();

    let contract_id = env.register(MilestoneEscrow, ());
    let client = MilestoneEscrowClient::new(&env, &contract_id);

    let amount = 1_000_i128;
    let num = 300_i128;
    let den = 600_i128;

    let split = client.payment_streaming_milestones(&amount, &num, &den);
    assert_eq!(split.first, 500);
    assert_eq!(split.second, 500);

    let events = env.events().all();
    let p_stream_topic: Symbol = Symbol("p_stream");
    let p_stream_topic_val: Val = p_stream_topic.into_val(&env);

    let mut found_event = false;
    for e in events.iter() {
        if let Some(topic) = e.1.get(0) {
            if topic.get_payload() == p_stream_topic_val.get_payload() {
                found_event = true;
                let event_data = PaymentStreamingEvent::from_val(&env, &e.2);
                assert_eq!(event_data.total_amount, amount);
                assert_eq!(event_data.numerator, num);
                assert_eq!(event_data.denominator, den);
                assert_eq!(event_data.streamed_payout, 500);
                assert_eq!(event_data.client_refund, 500);
            }
        }
    }
    assert!(found_event, "Expected p_stream event to be published");
}

fn setup_multisig_env(
    env: &Env,
) -> (
    Address,
    Address,
    Address,
    Address,
    Address,
    Address,
    MilestoneEscrowClient<'_>,
) {
    let admin_addr = Address::generate(env);
    let client_addr = Address::generate(env);
    let freelancer_addr = Address::generate(env);
    let arbiter_addr = Address::generate(env);

    let token_contract_id = env
        .register_stellar_asset_contract_v2(admin_addr.clone())
        .address();
    let token_admin = StellarAssetClient::new(env, &token_contract_id);
    token_admin.mint(&client_addr, &1_000);

    let contract_id = env.register(MilestoneEscrow, ());
    let client = MilestoneEscrowClient::new(env, &contract_id);

    let amounts = list(env, [1_000_i128]);
    client.initialize(
        &admin_addr,
        &client_addr,
        &freelancer_addr,
        &arbiter_addr,
        &token_contract_id,
        &604800,
        &amounts,
    );

    (
        admin_addr,
        client_addr,
        freelancer_addr,
        arbiter_addr,
        token_contract_id,
        contract_id,
        client,
    )
}

#[test]
fn test_tax_withholding_deductions_emits_event() {
    let env = Env::default();
    env.mock_all_auths();

    let (_, _, _, _, _, _, client) = setup_funded_escrow(&env, list(&env, [1_000_i128]));

    let record = client.tax_withholding_deductions(&0_u32, &2_500_u32);
    assert_eq!(record.gross_amount, 1_000);
    assert_eq!(record.tax_amount, 250);
    assert_eq!(record.net_amount, 750);
    assert_eq!(record.gross_amount, record.tax_amount + record.net_amount);

    let tax_topic: Val = Symbol("taxwith").into_val(&env);
    assert!(env.events().all().iter().any(|event| {
        event
            .1
            .get(0)
            .map(|topic| topic.get_payload() == tax_topic.get_payload())
            .unwrap_or(false)
    }));
}

#[test]
fn test_tax_withholding_deductions_rounds_nearest_and_preserves_gross() {
    let env = Env::default();
    env.mock_all_auths();

    let (_, _, _, _, _, _, client) = setup_funded_escrow(&env, list(&env, [101_i128]));

    let record = client.tax_withholding_deductions(&0_u32, &5_000_u32);
    assert_eq!(record.tax_amount, 51);
    assert_eq!(record.net_amount, 50);
    assert_eq!(record.gross_amount, record.tax_amount + record.net_amount);
}

#[test]
fn test_tax_withholding_deductions_accepts_zero_and_full_tax_rates() {
    let env = Env::default();
    env.mock_all_auths();

    let (_, _, _, _, _, _, client) = setup_funded_escrow(&env, list(&env, [1_000_i128]));

    let no_tax = client.tax_withholding_deductions(&0_u32, &0_u32);
    assert_eq!(no_tax.tax_amount, 0);
    assert_eq!(no_tax.net_amount, 1_000);

    let full_tax = client.tax_withholding_deductions(&0_u32, &10_000_u32);
    assert_eq!(full_tax.tax_amount, 1_000);
    assert_eq!(full_tax.net_amount, 0);
}

#[test]
fn test_tax_withholding_record_can_be_resolved_as_net_release() {
    let env = Env::default();
    env.mock_all_auths();

    let (_, freelancer_addr, _, admin_addr, token_contract_id, _, client) =
        setup_funded_escrow(&env, list(&env, [1_000_i128]));
    let token = TokenClient::new(&env, &token_contract_id);

    client.tax_withholding_deductions(&0_u32, &2_500_u32);
    client.admin_override_tax_release(&admin_addr, &0_u32);

    assert_eq!(token.balance(&freelancer_addr), 750);
    assert_eq!(
        client.get_job().milestones.get(0).unwrap().status,
        MilestoneStatus::Released
    );
    assert_eq!(
        client.try_admin_override_tax_release(&admin_addr, &0_u32),
        Err(Ok(Error::InvalidStatus))
    );
}

#[test]
fn test_tax_withholding_record_can_be_resolved_as_gross_refund() {
    let env = Env::default();
    env.mock_all_auths();

    let (_, _, _, admin_addr, _, _, client) = setup_funded_escrow(&env, list(&env, [1_000_i128]));

    client.tax_withholding_deductions(&0_u32, &7_500_u32);
    client.admin_override_tax_refund(&admin_addr, &0_u32);

    assert_eq!(
        client.get_job().milestones.get(0).unwrap().status,
        MilestoneStatus::Refunded
    );
    assert_eq!(
        client.try_admin_override_tax_refund(&admin_addr, &0_u32),
        Err(Ok(Error::InvalidStatus))
    );
}

#[test]
fn test_tax_withholding_deductions_rejects_invalid_state_and_inputs() {
    let env = Env::default();
    env.mock_all_auths();

    let admin_addr = Address::generate(&env);
    let client_addr = Address::generate(&env);
    let freelancer_addr = Address::generate(&env);
    let arbiter_addr = Address::generate(&env);
    let token_contract_id = env
        .register_stellar_asset_contract_v2(admin_addr.clone())
        .address();
    let contract_id = env.register(MilestoneEscrow, ());
    let client = MilestoneEscrowClient::new(&env, &contract_id);

    assert_eq!(
        client.try_tax_withholding_deductions(&0_u32, &1_u32),
        Err(Ok(Error::NotInitialized))
    );

    client.initialize(
        &admin_addr,
        &client_addr,
        &freelancer_addr,
        &arbiter_addr,
        &token_contract_id,
        &604800,
        &list(&env, [1_000_i128]),
    );
    assert_eq!(
        client.try_tax_withholding_deductions(&0_u32, &1_u32),
        Err(Ok(Error::NotFunded))
    );

    let (_, _, _, _, _, _, funded_client) = setup_funded_escrow(&env, list(&env, [1_000_i128]));
    assert_eq!(
        funded_client.try_tax_withholding_deductions(&1_u32, &1_u32),
        Err(Ok(Error::InvalidMilestone))
    );
    assert_eq!(
        funded_client.try_tax_withholding_deductions(&0_u32, &10_001_u32),
        Err(Ok(Error::InvalidRatio))
    );
}

#[test]
fn test_tax_withholding_deductions_terminal_milestone_fails_without_event() {
    let env = Env::default();
    env.mock_all_auths();

    let (client_addr, freelancer_addr, _, _, _, _, client) =
        setup_funded_escrow(&env, list(&env, [1_000_i128]));
    client.mark_delivered(&freelancer_addr, &0_u32);
    client.approve_milestone(&client_addr, &0_u32);

    let result = client.try_tax_withholding_deductions(&0_u32, &2_500_u32);
    assert_eq!(result, Err(Ok(Error::InvalidStatus)));
    let tax_topic: Val = Symbol("taxwith").into_val(&env);
    assert!(!env.events().all().iter().any(|event| {
        event
            .1
            .get(0)
            .map(|topic| topic.get_payload() == tax_topic.get_payload())
            .unwrap_or(false)
    }));
}

#[test]
fn test_multisig_transfer_admin_before_initialize_fails() {
    let env = Env::default();
    env.mock_all_auths();

    let admin_addr = Address::generate(&env);
    let contract_id = env.register(MilestoneEscrow, ());
    let client = MilestoneEscrowClient::new(&env, &contract_id);

    let ratios = list(&env, [1_i128, 1_i128]);
    let result = client.try_multisig_transfer_admin(&admin_addr, &100_i128, &ratios);
    assert_eq!(result, Err(Ok(Error::NotInitialized)));
}

#[test]
fn test_multisig_transfer_admin_unauthorized_fails() {
    let env = Env::default();
    env.mock_all_auths();

    let (admin_addr, _, _, _, _, _, client) = setup_multisig_env(&env);
    let bad_actor = Address::generate(&env);

    let ratios = list(&env, [1_i128, 1_i128]);
    let result = client.try_multisig_transfer_admin(&bad_actor, &100_i128, &ratios);
    assert_eq!(result, Err(Ok(Error::Unauthorized)));

    let client_addr = Address::generate(&env);
    let result = client.try_multisig_transfer_admin(&client_addr, &100_i128, &ratios);
    assert_eq!(result, Err(Ok(Error::Unauthorized)));

    let _ = admin_addr;
}

#[test]
fn test_multisig_transfer_admin_zero_total_amount_fails() {
    let env = Env::default();
    env.mock_all_auths();

    let (admin_addr, _, _, _, _, _, client) = setup_multisig_env(&env);

    let ratios = list(&env, [1_i128, 1_i128]);
    let result = client.try_multisig_transfer_admin(&admin_addr, &0_i128, &ratios);
    assert_eq!(result, Err(Ok(Error::InvalidAmount)));
}

#[test]
fn test_multisig_transfer_admin_negative_total_amount_fails() {
    let env = Env::default();
    env.mock_all_auths();

    let (admin_addr, _, _, _, _, _, client) = setup_multisig_env(&env);

    let ratios = list(&env, [1_i128, 1_i128]);
    let result = client.try_multisig_transfer_admin(&admin_addr, &(-1_i128), &ratios);
    assert_eq!(result, Err(Ok(Error::InvalidAmount)));
}

#[test]
fn test_multisig_transfer_admin_empty_ratios_fails() {
    let env = Env::default();
    env.mock_all_auths();

    let (admin_addr, _, _, _, _, _, client) = setup_multisig_env(&env);

    let ratios = no_amounts(&env);
    let result = client.try_multisig_transfer_admin(&admin_addr, &100_i128, &ratios);
    assert_eq!(result, Err(Ok(Error::InvalidRatio)));
}

#[test]
fn test_multisig_transfer_admin_too_many_ratios_fails() {
    let env = Env::default();
    env.mock_all_auths();

    let (admin_addr, _, _, _, _, _, client) = setup_multisig_env(&env);

    let mut ratios = no_amounts(&env);
    for _ in 0..256u32 {
        ratios.push_back(1_i128);
    }
    let result = client.try_multisig_transfer_admin(&admin_addr, &100_i128, &ratios);
    assert_eq!(result, Err(Ok(Error::InvalidAmount)));

    let mut ratios_ok = no_amounts(&env);
    for _ in 0..255u32 {
        ratios_ok.push_back(1_i128);
    }
    let allocs = client.multisig_transfer_admin(&admin_addr, &255_i128, &ratios_ok);
    let mut total = 0_i128;
    for i in 0..allocs.len() {
        total += allocs.get(i).unwrap();
    }
    assert_eq!(total, 255);
}

#[test]
fn test_multisig_transfer_admin_negative_single_ratio_fails() {
    let env = Env::default();
    env.mock_all_auths();

    let (admin_addr, _, _, _, _, _, client) = setup_multisig_env(&env);

    let ratios = list(&env, [1_i128, -1_i128, 1_i128]);
    let result = client.try_multisig_transfer_admin(&admin_addr, &100_i128, &ratios);
    assert_eq!(result, Err(Ok(Error::InvalidRatio)));

    let ratios_first = list(&env, [-5_i128, 1_i128]);
    let result_first = client.try_multisig_transfer_admin(&admin_addr, &100_i128, &ratios_first);
    assert_eq!(result_first, Err(Ok(Error::InvalidRatio)));
}

#[test]
fn test_multisig_transfer_admin_ratio_sum_overflow_fails() {
    let env = Env::default();
    env.mock_all_auths();

    let (admin_addr, _, _, _, _, _, client) = setup_multisig_env(&env);

    let ratios = list(&env, [i128::MAX, 1_i128]);
    let result = client.try_multisig_transfer_admin(&admin_addr, &100_i128, &ratios);
    assert_eq!(result, Err(Ok(Error::InvalidRatio)));
}

#[test]
fn test_multisig_transfer_admin_all_zero_ratios_fails() {
    let env = Env::default();
    env.mock_all_auths();

    let (admin_addr, _, _, _, _, _, client) = setup_multisig_env(&env);

    let ratios = list(&env, [0_i128, 0_i128, 0_i128]);
    let result = client.try_multisig_transfer_admin(&admin_addr, &100_i128, &ratios);
    assert_eq!(result, Err(Ok(Error::InvalidRatio)));
}

#[test]
fn test_multisig_transfer_admin_single_ratio_succeeds() {
    let env = Env::default();
    env.mock_all_auths();

    let (admin_addr, _, _, _, _, _, client) = setup_multisig_env(&env);

    let ratios = list(&env, [1_i128]);
    let allocations = client.multisig_transfer_admin(&admin_addr, &42_i128, &ratios);
    assert_eq!(allocations.len(), 1);
    assert_eq!(allocations.get(0).unwrap(), 42);
}

#[test]
fn test_multisig_transfer_admin_some_zero_ratios_succeeds() {
    let env = Env::default();
    env.mock_all_auths();

    let (admin_addr, _, _, _, _, _, client) = setup_multisig_env(&env);

    let ratios = list(&env, [0_i128, 1_i128, 0_i128, 3_i128]);
    let allocations = client.multisig_transfer_admin(&admin_addr, &100_i128, &ratios);
    assert_eq!(allocations.len(), 4);
    assert_eq!(allocations.get(0).unwrap(), 0);
    assert_eq!(allocations.get(2).unwrap(), 0);
    let mut total = 0_i128;
    for i in 0..allocations.len() {
        total += allocations.get(i).unwrap();
    }
    assert_eq!(total, 100);
}

#[test]
fn test_multisig_transfer_admin_large_weighted_mul_overflow_fails() {
    let env = Env::default();
    env.mock_all_auths();

    let (admin_addr, _, _, _, _, _, client) = setup_multisig_env(&env);

    let ratios = list(&env, [i128::MAX]);
    let result = client.try_multisig_transfer_admin(&admin_addr, &i128::MAX, &ratios);
    assert_eq!(result, Err(Ok(Error::InvalidAmount)));
}

#[test]
fn test_multisig_transfer_admin_equal_ratios_two_party() {
    let env = Env::default();
    env.mock_all_auths();

    let (admin_addr, _, _, _, _, _, client) = setup_multisig_env(&env);

    let ratios = list(&env, [1_i128, 1_i128]);
    let allocations = client.multisig_transfer_admin(&admin_addr, &101_i128, &ratios);
    assert_eq!(allocations.len(), 2);
    let mut total = 0_i128;
    for i in 0..allocations.len() {
        total += allocations.get(i).unwrap();
    }
    assert_eq!(total, 101);
    let a = allocations.get(0).unwrap();
    let b = allocations.get(1).unwrap();
    assert!((a - b).abs() <= 1);
}

#[test]
fn test_multisig_transfer_admin_disparate_ratios() {
    let env = Env::default();
    env.mock_all_auths();

    let (admin_addr, _, _, _, _, _, client) = setup_multisig_env(&env);

    let ratios = list(&env, [7_i128, 1_i128, 2_i128]);
    let allocations = client.multisig_transfer_admin(&admin_addr, &100_i128, &ratios);
    let mut total = 0_i128;
    for i in 0..allocations.len() {
        total += allocations.get(i).unwrap();
    }
    assert_eq!(total, 100);
    assert_eq!(
        allocations.get(0).unwrap() + allocations.get(1).unwrap() + allocations.get(2).unwrap(),
        100
    );
}

#[test]
fn test_multisig_transfer_admin_one_amount_one_ratio() {
    let env = Env::default();
    env.mock_all_auths();

    let (admin_addr, _, _, _, _, _, client) = setup_multisig_env(&env);

    let ratios = list(&env, [5_i128, 5_i128]);
    let allocations = client.multisig_transfer_admin(&admin_addr, &1_i128, &ratios);
    assert_eq!(allocations.len(), 2);
    let mut total = 0_i128;
    for i in 0..allocations.len() {
        total += allocations.get(i).unwrap();
    }
    assert_eq!(total, 1);
}

#[test]
fn test_multisig_transfer_admin_freelancer_is_unauthorized() {
    let env = Env::default();
    env.mock_all_auths();

    let (_, _, freelancer_addr, _, _, _, client) = setup_multisig_env(&env);

    let ratios = list(&env, [1_i128, 1_i128]);
    let result = client.try_multisig_transfer_admin(&freelancer_addr, &100_i128, &ratios);
    assert_eq!(result, Err(Ok(Error::Unauthorized)));
}

#[test]
fn test_multisig_transfer_admin_client_is_unauthorized() {
    let env = Env::default();
    env.mock_all_auths();

    let (_, client_addr, _, _, _, _, client) = setup_multisig_env(&env);

    let ratios = list(&env, [1_i128, 1_i128]);
    let result = client.try_multisig_transfer_admin(&client_addr, &100_i128, &ratios);
    assert_eq!(result, Err(Ok(Error::Unauthorized)));
}

#[test]
fn test_multisig_transfer_admin_arbiter_is_unauthorized() {
    let env = Env::default();
    env.mock_all_auths();

    let (_, _, _, arbiter_addr, _, _, client) = setup_multisig_env(&env);

    let ratios = list(&env, [1_i128, 1_i128]);
    let result = client.try_multisig_transfer_admin(&arbiter_addr, &100_i128, &ratios);
    assert_eq!(result, Err(Ok(Error::Unauthorized)));
}

#[test]
fn test_multisig_transfer_admin_ratio_at_capacity_succeeds() {
    let env = Env::default();
    env.mock_all_auths();

    let (admin_addr, _, _, _, _, _, client) = setup_multisig_env(&env);

    let mut ratios = no_amounts(&env);
    for _ in 0..255u32 {
        ratios.push_back(1_i128);
    }
    let result = client.multisig_transfer_admin(&admin_addr, &255_i128, &ratios);
    assert_eq!(result.len(), 255);
    let mut total = 0_i128;
    for i in 0..result.len() {
        total += result.get(i).unwrap();
    }
    assert_eq!(total, 255);
}

#[test]
fn test_raise_dispute_zero_amount_milestone_fails() {
    let env = Env::default();
    env.mock_all_auths();

    let (client_addr, _, _, _, _, contract_id, client) =
        setup_funded_escrow(&env, list(&env, [1_000_i128]));

    // Corrupt the milestone amount to 0.
    env.as_contract(&contract_id, || {
        let mut milestone: Milestone = env
            .storage()
            .persistent()
            .get(&DataKey::Milestone(0u32))
            .unwrap();
        milestone.amount = 0;
        env.storage()
            .persistent()
            .set(&DataKey::Milestone(0u32), &milestone);
    });

    let result = client.try_raise_dispute(&client_addr, &0u32);
    assert_eq!(result, Err(Ok(Error::InvalidAmount)));
}

#[test]
fn test_raise_dispute_on_released_fails() {
    let env = Env::default();
    env.mock_all_auths();

    let (client_addr, freelancer_addr, _, _, _, _, escrow) =
        setup_funded_escrow(&env, list(&env, [1_000_i128]));

    escrow.mark_delivered(&freelancer_addr, &0u32);
    escrow.approve_milestone(&client_addr, &0u32);

    let result = escrow.try_raise_dispute(&client_addr, &0u32);
    assert_eq!(result, Err(Ok(Error::InvalidStatus)));
}

#[test]
fn test_raise_dispute_on_disputed_fails() {
    let env = Env::default();
    env.mock_all_auths();

    let (client_addr, freelancer_addr, _, _, _, _, escrow) =
        setup_funded_escrow(&env, list(&env, [1_000_i128]));

    escrow.mark_delivered(&freelancer_addr, &0u32);
    escrow.raise_dispute(&client_addr, &0u32);

    let result = escrow.try_raise_dispute(&freelancer_addr, &0u32);
    assert_eq!(result, Err(Ok(Error::InvalidStatus)));
}

#[test]
fn test_raise_dispute_on_refunded_fails() {
    let env = Env::default();
    env.mock_all_auths();

    let (client_addr, freelancer_addr, arbiter_addr, _, _, _, escrow) =
        setup_funded_escrow(&env, list(&env, [1_000_i128]));

    escrow.mark_delivered(&freelancer_addr, &0u32);
    escrow.raise_dispute(&client_addr, &0u32);
    escrow.resolve_dispute(&arbiter_addr, &0u32, &false);

    let result = escrow.try_raise_dispute(&client_addr, &0u32);
    assert_eq!(result, Err(Ok(Error::InvalidStatus)));
}

#[test]
fn test_raise_dispute_arbiter_is_unauthorized() {
    let env = Env::default();
    env.mock_all_auths();

    let (_client_addr, _freelancer_addr, arbiter_addr, _, _, _, escrow) =
        setup_funded_escrow(&env, list(&env, [1_000_i128]));

    let result = escrow.try_raise_dispute(&arbiter_addr, &0u32);
    assert_eq!(result, Err(Ok(Error::Unauthorized)));
}

#[test]
fn test_raise_dispute_zero_contract_address_fails() {
    let env = Env::default();
    env.mock_all_auths();

    let (_, _freelancer_addr, _, _, _, _, escrow) =
        setup_funded_escrow(&env, list(&env, [1_000_i128]));

    let zero_contract = Address::from_str(
        &env,
        "CAAAAAAAAAAAAAAAAAAAAAAAAAAAAAAAAAAAAAAAAAAAAAAAAAAABSC4",
    );

    let result = escrow.try_raise_dispute(&zero_contract, &0u32);
    assert_eq!(result, Err(Ok(Error::InvalidAddress)));
}

#[test]
fn test_raise_dispute_before_funded_fails() {
    let env = Env::default();
    env.mock_all_auths();

    let client_addr = Address::generate(&env);
    let freelancer_addr = Address::generate(&env);
    let arbiter_addr = Address::generate(&env);
    let admin_addr = Address::generate(&env);

    let token_contract_id = env
        .register_stellar_asset_contract_v2(admin_addr.clone())
        .address();

    let contract_id = env.register(MilestoneEscrow, ());
    let escrow = MilestoneEscrowClient::new(&env, &contract_id);

    let amounts = list(&env, [1_000_i128]);
    escrow.initialize(
        &admin_addr,
        &client_addr,
        &freelancer_addr,
        &arbiter_addr,
        &token_contract_id,
        &604800,
        &amounts,
    );

    let result = escrow.try_raise_dispute(&client_addr, &0u32);
    assert_eq!(result, Err(Ok(Error::NotFunded)));
}

#[test]
fn test_raise_dispute_from_partially_released_succeeds() {
    let env = Env::default();
    env.mock_all_auths();

    let (client_addr, freelancer_addr, _, _, _, _, escrow) =
        setup_funded_escrow(&env, list(&env, [5_000_i128]));

    escrow.mark_delivered(&freelancer_addr, &0u32);
    escrow.approve_partial(&client_addr, &0u32, &2_000_i128);

    escrow.raise_dispute(&client_addr, &0u32);

    let job = escrow.get_job();
    assert_eq!(
        job.milestones.get(0).unwrap().status,
        MilestoneStatus::Disputed
    );
}

#[test]
fn test_raise_dispute_no_auth_fails() {
    let env = Env::default();
    env.mock_all_auths();

    let (client_addr, _, _, _, _, _, escrow) = setup_funded_escrow(&env, list(&env, [1_000_i128]));

    env.set_auths(&[]);

    let result = escrow.try_raise_dispute(&client_addr, &0u32);
    assert!(result.is_err());
    assert!(matches!(result, Err(Err(_))));
}

fn setup_escrow_for_multisig(env: &Env) -> (MilestoneEscrowClient<'_>, Address) {
    let admin = Address::generate(env);
    let contract_id = env.register(MilestoneEscrow, ());
    let client = MilestoneEscrowClient::new(env, &contract_id);

    let token_id = env
        .register_stellar_asset_contract_v2(admin.clone())
        .address();
    let dummy_client = Address::generate(env);
    let dummy_freelancer = Address::generate(env);
    let dummy_arbiter = Address::generate(env);
    let amounts = list(env, [1_000_i128]);

    client.initialize(
        &admin,
        &dummy_client,
        &dummy_freelancer,
        &dummy_arbiter,
        &token_id,
        &604800,
        &amounts,
    );

    (client, admin)
}

fn setup_multisig(env: &Env, threshold: u32) -> (MilestoneEscrowClient<'_>, Address, Vec<Address>) {
    let admin = Address::generate(env);
    let contract_id = env.register(MilestoneEscrow, ());
    let client = MilestoneEscrowClient::new(env, &contract_id);

    let token_id = env
        .register_stellar_asset_contract_v2(admin.clone())
        .address();
    let token_admin = StellarAssetClient::new(env, &token_id);
    let dummy_client = Address::generate(env);
    let dummy_freelancer = Address::generate(env);
    let dummy_arbiter = Address::generate(env);
    let amounts = list(env, [1_000_i128]);

    client.initialize(
        &admin,
        &dummy_client,
        &dummy_freelancer,
        &dummy_arbiter,
        &token_id,
        &604800,
        &amounts,
    );

    token_admin.mint(&dummy_client, &1_000_i128);
    client.fund(&dummy_client);

    let signer1 = Address::generate(env);
    let signer2 = Address::generate(env);
    let signer3 = Address::generate(env);
    let signers = list(env, [signer1.clone(), signer2.clone(), signer3.clone()]);

    client.multisig_approval_init(&admin, &signers, &threshold);

    (client, admin, signers)
}

#[test]
fn test_multisig_approval_init_succeeds() {
    let env = Env::default();
    env.mock_all_auths();

    let (client, _admin, _signers) = setup_multisig(&env, 2);

    let state = client.try_is_multisig_approved(&0u32).unwrap().unwrap();
    assert!(!state.approved);
    assert_eq!(state.approvals, 0);
    assert_eq!(state.threshold, 2);
}

#[test]
fn test_multisig_approval_init_duplicate_fails() {
    let env = Env::default();
    env.mock_all_auths();

    let (client, admin, _signers) = setup_multisig(&env, 2);

    let extra = Address::generate(&env);
    let new_signers = list(&env, [extra]);
    let result = client.try_multisig_approval_init(&admin, &new_signers, &1u32);
    assert_eq!(result, Err(Ok(Error::AlreadyInitialized)));
}

#[test]
fn test_multisig_approval_init_zero_signers_fails() {
    let env = Env::default();
    env.mock_all_auths();

    let (client, admin) = setup_escrow_for_multisig(&env);
    let empty: Vec<Address> = Vec::new();

    let result = client.try_multisig_approval_init(&admin, &empty, &1u32);
    assert_eq!(result, Err(Ok(Error::MultiSigNoSigners)));
}

#[test]
fn test_multisig_approval_init_zero_threshold_fails() {
    let env = Env::default();
    env.mock_all_auths();

    let (client, admin) = setup_escrow_for_multisig(&env);
    let signer = Address::generate(&env);
    let signers = list(&env, [signer]);

    let result = client.try_multisig_approval_init(&admin, &signers, &0u32);
    assert_eq!(result, Err(Ok(Error::MultiSigInvalidThreshold)));
}

#[test]
fn test_multisig_approval_init_threshold_exceeds_signers_fails() {
    let env = Env::default();
    env.mock_all_auths();

    let (client, admin) = setup_escrow_for_multisig(&env);
    let signer1 = Address::generate(&env);
    let signer2 = Address::generate(&env);
    let signers = list(&env, [signer1, signer2]);

    let result = client.try_multisig_approval_init(&admin, &signers, &3u32);
    assert_eq!(result, Err(Ok(Error::MultiSigInvalidThreshold)));
}

#[test]
fn test_multisig_approval_init_too_many_signers_fails() {
    let env = Env::default();
    env.mock_all_auths();

    let (client, admin) = setup_escrow_for_multisig(&env);
    let mut signers = Vec::new();
    for _ in 0..33 {
        signers.push(Address::generate(&env));
    }

    let result = client.try_multisig_approval_init(&admin, &signers, &1u32);
    assert_eq!(result, Err(Ok(Error::MultiSigTooManySigners)));
}

#[test]
fn test_multisig_approval_init_duplicate_signer_fails() {
    let env = Env::default();
    env.mock_all_auths();

    let (client, admin) = setup_escrow_for_multisig(&env);
    let signer = Address::generate(&env);
    let signers = list(&env, [signer.clone(), signer]);

    let result = client.try_multisig_approval_init(&admin, &signers, &2u32);
    assert_eq!(result, Err(Ok(Error::MultiSigDuplicateSigner)));
}

#[test]
fn test_multisig_approval_partial_approval() {
    let env = Env::default();
    env.mock_all_auths();

    let (client, _admin, signers) = setup_multisig(&env, 2);

    let signer1 = signers.get(0).unwrap();
    let state = client
        .try_multisig_approve(&signer1, &1u32)
        .unwrap()
        .unwrap();

    assert!(!state.approved);
    assert_eq!(state.approvals, 1);
    assert_eq!(state.threshold, 2);
}

#[test]
fn test_multisig_approval_reaches_threshold() {
    let env = Env::default();
    env.mock_all_auths();

    let (client, _admin, signers) = setup_multisig(&env, 2);

    let signer1 = signers.get(0).unwrap();
    let signer2 = signers.get(1).unwrap();

    let _ = client.multisig_approve(&signer1, &2u32);
    let state = client
        .try_multisig_approve(&signer2, &2u32)
        .unwrap()
        .unwrap();

    assert!(state.approved);
    assert_eq!(state.approvals, 2);
    assert_eq!(state.threshold, 2);
}

#[test]
fn test_multisig_approval_exceeds_threshold() {
    let env = Env::default();
    env.mock_all_auths();

    let (client, _admin, signers) = setup_multisig(&env, 2);

    let signer1 = signers.get(0).unwrap();
    let signer2 = signers.get(1).unwrap();
    let signer3 = signers.get(2).unwrap();

    let _ = client.multisig_approve(&signer1, &3u32);
    let _ = client.multisig_approve(&signer2, &3u32);
    let state = client
        .try_multisig_approve(&signer3, &3u32)
        .unwrap()
        .unwrap();

    assert!(state.approved);
    assert_eq!(state.approvals, 3);
    assert_eq!(state.bitmap.count_ones(), 3);
}

#[test]
fn test_multisig_approval_idempotent() {
    let env = Env::default();
    env.mock_all_auths();

    let (client, _admin, signers) = setup_multisig(&env, 2);

    let signer1 = signers.get(0).unwrap();
    let _ = client.multisig_approve(&signer1, &4u32);
    let state = client
        .try_multisig_approve(&signer1, &4u32)
        .unwrap()
        .unwrap();

    assert!(!state.approved);
    assert_eq!(state.approvals, 1);
}

#[test]
fn test_multisig_approval_unauthorized_signer_fails() {
    let env = Env::default();
    env.mock_all_auths();

    let (client, _admin, _signers) = setup_multisig(&env, 2);

    let impostor = Address::generate(&env);
    let result = client.try_multisig_approve(&impostor, &5u32);
    assert_eq!(result, Err(Ok(Error::Unauthorized)));
}

#[test]
fn test_multisig_approval_no_auth_fails() {
    let env = Env::default();
    env.mock_all_auths();

    let (client, _admin, signers) = setup_multisig(&env, 2);

    let signer1 = signers.get(0).unwrap();
    env.set_auths(&[]);
    let result = client.try_multisig_approve(&signer1, &6u32);
    assert!(result.is_err());
    assert!(matches!(result, Err(Err(_))));
}

#[test]
fn test_is_multisig_approved_query() {
    let env = Env::default();
    env.mock_all_auths();

    let (client, _admin, signers) = setup_multisig(&env, 3);

    let signer1 = signers.get(0).unwrap();
    let signer2 = signers.get(1).unwrap();
    let signer3 = signers.get(2).unwrap();

    let state0 = client.try_is_multisig_approved(&7u32).unwrap().unwrap();
    assert!(!state0.approved);
    assert_eq!(state0.approvals, 0);

    let _ = client.multisig_approve(&signer1, &7u32);
    let state1 = client.try_is_multisig_approved(&7u32).unwrap().unwrap();
    assert!(!state1.approved);
    assert_eq!(state1.approvals, 1);

    let _ = client.multisig_approve(&signer2, &7u32);
    let _ = client.multisig_approve(&signer3, &7u32);
    let state2 = client.try_is_multisig_approved(&7u32).unwrap().unwrap();
    assert!(state2.approved);
    assert_eq!(state2.approvals, 3);
}

#[test]
fn test_multisig_approval_proposal_isolation() {
    let env = Env::default();
    env.mock_all_auths();

    let (client, _admin, signers) = setup_multisig(&env, 2);

    let signer1 = signers.get(0).unwrap();
    let _ = client.multisig_approve(&signer1, &10u32);

    let state = client.try_is_multisig_approved(&20u32).unwrap().unwrap();
    assert!(!state.approved);
    assert_eq!(state.approvals, 0);
}

#[test]
fn test_multisig_approve_blocked_when_contract_balance_is_zero() {
    let env = Env::default();
    env.mock_all_auths();

    // Deliberately unfunded: `setup_escrow_for_multisig` initialises the job
    // but never calls `fund`.
    let (client, admin) = setup_escrow_for_multisig(&env);
    let signer1 = Address::generate(&env);
    let signer2 = Address::generate(&env);
    let signers = list(&env, [signer1.clone(), signer2.clone()]);
    client.multisig_approval_init(&admin, &signers, &2u32);

    let result = client.try_multisig_approve(&signer1, &1u32);
    assert_eq!(result, Err(Ok(Error::MultiSigEmptyBalance)));
}

#[test]
fn test_multisig_approve_emits_structured_event() {
    let env = Env::default();
    env.mock_all_auths();

    let (client, _admin, signers) = setup_multisig(&env, 2);
    let signer1 = signers.get(0).unwrap();

    client.multisig_approve(&signer1, &42u32);

    let topic: Symbol = Symbol("msigappr");
    let topic_val: Val = topic.into_val(&env);
    let mut matched = 0u32;
    for event in env.events().all().iter() {
        if let Some(t) = event.1.get(0) {
            if t.get_payload() == topic_val.get_payload() {
                matched += 1;
                assert_eq!(event.1.len(), 1);
                assert_eq!(
                    MultiSigApprovedEvent::from_val(&env, &event.2),
                    MultiSigApprovedEvent {
                        proposal_id: 42,
                        signer: signer1.clone(),
                        approvals: 1,
                        threshold: 2,
                        approved: false,
                        bitmap: 1,
                    }
                );
            }
        }
    }
    assert_eq!(matched, 1);
}

#[test]
fn test_multisig_approval_init_unauthorized_fails() {
    let env = Env::default();
    env.mock_all_auths();

    let (client, _admin, _signers) = setup_multisig(&env, 2);

    let impostor = Address::generate(&env);
    let new_signers = list(&env, [impostor.clone()]);
    let result = client.try_multisig_approval_init(&impostor, &new_signers, &1u32);
    assert_eq!(result, Err(Ok(Error::Unauthorized)));
}

#[test]
fn test_milestone_time_extensions_half_rounds_nearest() {
    let env = Env::default();
    env.mock_all_auths();

    let contract_id = env.register(MilestoneEscrow, ());
    let client = MilestoneEscrowClient::new(&env, &contract_id);

    let split = client.milestone_time_extensions(&101_i128, &1_i128, &2_i128);
    assert_eq!(split.first, 51);
    assert_eq!(split.second, 50);
    assert_eq!(split.first + split.second, 101);
}

#[test]
fn test_milestone_time_extensions_full_elapsed_gives_full_amount() {
    let env = Env::default();
    env.mock_all_auths();

    let contract_id = env.register(MilestoneEscrow, ());
    let client = MilestoneEscrowClient::new(&env, &contract_id);

    let split = client.milestone_time_extensions(&10_000_i128, &500_i128, &500_i128);
    assert_eq!(split.first, 10_000);
    assert_eq!(split.second, 0);
    assert_eq!(split.first + split.second, 10_000);
}

#[test]
fn test_milestone_time_extensions_zero_elapsed_gives_nothing_to_freelancer() {
    let env = Env::default();
    env.mock_all_auths();

    let contract_id = env.register(MilestoneEscrow, ());
    let client = MilestoneEscrowClient::new(&env, &contract_id);

    let split = client.milestone_time_extensions(&10_000_i128, &0_i128, &500_i128);
    assert_eq!(split.first, 0);
    assert_eq!(split.second, 10_000);
    assert_eq!(split.first + split.second, 10_000);
}

#[test]
fn test_milestone_time_extensions_zero_amount_fails() {
    let env = Env::default();
    env.mock_all_auths();

    let contract_id = env.register(MilestoneEscrow, ());
    let client = MilestoneEscrowClient::new(&env, &contract_id);

    let result = client.try_milestone_time_extensions(&0_i128, &1_i128, &3_i128);
    assert_eq!(result, Err(Ok(Error::InvalidAmount)));
}

#[test]
fn test_milestone_time_extensions_large_prime_total_preserved() {
    let env = Env::default();
    env.mock_all_auths();

    let contract_id = env.register(MilestoneEscrow, ());
    let client = MilestoneEscrowClient::new(&env, &contract_id);

    let amount = 999_983_i128;
    let split = client.milestone_time_extensions(&amount, &3_i128, &7_i128);
    assert_eq!(
        split.first + split.second,
        amount,
        "total must be preserved"
    );
    // round_nearest(999983 * 3 / 7) = (2999949 + 3) / 7 = 2999952 / 7 = 428564
    assert_eq!(split.first, 428_564);
    assert_eq!(split.second, 571_419);
}

#[test]
fn test_milestone_time_extensions_one_stroop_rounds_down() {
    let env = Env::default();
    env.mock_all_auths();

    let contract_id = env.register(MilestoneEscrow, ());
    let client = MilestoneEscrowClient::new(&env, &contract_id);

    let split = client.milestone_time_extensions(&1_i128, &1_i128, &3_i128);
    assert_eq!(split.first + split.second, 1);
    // round_nearest(1 * 1 / 3) = (1 + 1) / 3 = 0  (integer floor of 0.666)
    assert_eq!(split.first, 0);
    assert_eq!(split.second, 1);
}

#[test]
fn test_milestone_time_extensions_sequential_splits_cover_total() {
    let env = Env::default();
    env.mock_all_auths();

    let contract_id = env.register(MilestoneEscrow, ());
    let client = MilestoneEscrowClient::new(&env, &contract_id);

    let amount = 1_000_000_i128;
    let parts: u32 = 7;
    let mut prev_first = 0_i128;

    for n in 1..=parts {
        let split = client.milestone_time_extensions(&amount, &(n as i128), &(parts as i128));
        assert_eq!(split.first + split.second, amount, "n={} total mismatch", n);
        // first is monotonically non-decreasing as n increases.
        assert!(
            split.first >= prev_first,
            "n={} first={} not >= prev={}",
            n,
            split.first,
            prev_first
        );
        prev_first = split.first;
    }

    // At n == parts the freelancer receives the full amount.
    assert_eq!(prev_first, amount);
}

#[test]
fn test_milestone_time_extensions_negative_amount_fails() {
    let env = Env::default();
    env.mock_all_auths();

    let contract_id = env.register(MilestoneEscrow, ());
    let client = MilestoneEscrowClient::new(&env, &contract_id);

    let result = client.try_milestone_time_extensions(&-1_i128, &1_i128, &10_i128);
    assert_eq!(result, Err(Ok(Error::InvalidAmount)));
}

#[test]
fn test_milestone_time_extensions_zero_total_seconds_fails() {
    let env = Env::default();
    env.mock_all_auths();

    let contract_id = env.register(MilestoneEscrow, ());
    let client = MilestoneEscrowClient::new(&env, &contract_id);

    let result = client.try_milestone_time_extensions(&1_000_i128, &0_i128, &0_i128);
    assert_eq!(result, Err(Ok(Error::InvalidRatio)));
}

#[test]
fn test_milestone_time_extensions_elapsed_exceeds_total_fails() {
    let env = Env::default();
    env.mock_all_auths();

    let contract_id = env.register(MilestoneEscrow, ());
    let client = MilestoneEscrowClient::new(&env, &contract_id);

    let result = client.try_milestone_time_extensions(&1_000_i128, &11_i128, &10_i128);
    assert_eq!(result, Err(Ok(Error::InvalidRatio)));
}

#[test]
fn test_milestone_time_extensions_negative_elapsed_fails() {
    let env = Env::default();
    env.mock_all_auths();

    let contract_id = env.register(MilestoneEscrow, ());
    let client = MilestoneEscrowClient::new(&env, &contract_id);

    let result = client.try_milestone_time_extensions(&1_000_i128, &-1_i128, &10_i128);
    assert_eq!(result, Err(Ok(Error::InvalidRatio)));
}

#[test]
fn test_milestone_time_extensions_negative_total_seconds_fails() {
    let env = Env::default();
    env.mock_all_auths();

    let contract_id = env.register(MilestoneEscrow, ());
    let client = MilestoneEscrowClient::new(&env, &contract_id);

    let result = client.try_milestone_time_extensions(&1_000_i128, &5_i128, &-10_i128);
    assert_eq!(result, Err(Ok(Error::InvalidRatio)));
}

#[test]
fn test_milestone_time_extensions_overflow_fails() {
    let env = Env::default();
    env.mock_all_auths();

    let contract_id = env.register(MilestoneEscrow, ());
    let client = MilestoneEscrowClient::new(&env, &contract_id);

    let result = client.try_milestone_time_extensions(&i128::MAX, &i128::MAX, &i128::MAX);
    assert_eq!(result, Err(Ok(Error::InvalidAmount)));
}

#[test]
fn test_dispute_arbitration_split_50_50() {
    let env = Env::default();
    env.mock_all_auths();
    let contract_id = env.register(MilestoneEscrow, ());
    let client = MilestoneEscrowClient::new(&env, &contract_id);

    let result = client.dispute_arbitration_split(&10_000_i128, &5_000u32);
    assert_eq!(result.freelancer_payout, 5_000);
    assert_eq!(result.client_refund, 5_000);
    assert_eq!(result.freelancer_payout_bps, 5_000);
    assert_eq!(result.client_refund_bps, 5_000);
    assert_eq!(result.freelancer_payout + result.client_refund, 10_000);
}

#[test]
fn test_dispute_arbitration_split_full_freelancer() {
    let env = Env::default();
    env.mock_all_auths();
    let contract_id = env.register(MilestoneEscrow, ());
    let client = MilestoneEscrowClient::new(&env, &contract_id);

    let result = client.dispute_arbitration_split(&50_000_i128, &10_000u32);
    assert_eq!(result.freelancer_payout, 50_000);
    assert_eq!(result.client_refund, 0);
    assert_eq!(result.freelancer_payout_bps, 10_000);
    assert_eq!(result.client_refund_bps, 0);
}

#[test]
fn test_dispute_arbitration_split_full_client_refund() {
    let env = Env::default();
    env.mock_all_auths();
    let contract_id = env.register(MilestoneEscrow, ());
    let client = MilestoneEscrowClient::new(&env, &contract_id);

    let result = client.dispute_arbitration_split(&50_000_i128, &0u32);
    assert_eq!(result.freelancer_payout, 0);
    assert_eq!(result.client_refund, 50_000);
    assert_eq!(result.freelancer_payout_bps, 0);
    assert_eq!(result.client_refund_bps, 10_000);
}

#[test]
fn test_dispute_arbitration_split_rounding_nearest() {
    let env = Env::default();
    env.mock_all_auths();
    let contract_id = env.register(MilestoneEscrow, ());
    let client = MilestoneEscrowClient::new(&env, &contract_id);

    let result = client.dispute_arbitration_split(&101_i128, &5_000u32);
    assert_eq!(
        result.freelancer_payout + result.client_refund,
        101,
        "total preserved"
    );
    assert_eq!(result.freelancer_payout, 51);
    assert_eq!(result.client_refund, 50);
}

#[test]
fn test_dispute_arbitration_split_zero_amount() {
    let env = Env::default();
    env.mock_all_auths();
    let contract_id = env.register(MilestoneEscrow, ());
    let client = MilestoneEscrowClient::new(&env, &contract_id);

    let result = client.dispute_arbitration_split(&0_i128, &3_000u32);
    assert_eq!(result.freelancer_payout, 0);
    assert_eq!(result.client_refund, 0);
}

#[test]
fn test_dispute_arbitration_split_bps_exceeds_max_fails() {
    let env = Env::default();
    env.mock_all_auths();
    let contract_id = env.register(MilestoneEscrow, ());
    let client = MilestoneEscrowClient::new(&env, &contract_id);

    let result = client.try_dispute_arbitration_split(&10_000_i128, &10_001u32);
    assert_eq!(result, Err(Ok(Error::InvalidRatio)));
}

#[test]
fn test_dispute_arbitration_split_negative_amount_fails() {
    let env = Env::default();
    env.mock_all_auths();
    let contract_id = env.register(MilestoneEscrow, ());
    let client = MilestoneEscrowClient::new(&env, &contract_id);

    let result = client.try_dispute_arbitration_split(&-1_i128, &5_000u32);
    assert_eq!(result, Err(Ok(Error::InvalidAmount)));
}

#[test]
fn test_dispute_arbitration_split_overflow_fails() {
    let env = Env::default();
    env.mock_all_auths();
    let contract_id = env.register(MilestoneEscrow, ());
    let client = MilestoneEscrowClient::new(&env, &contract_id);

    let result = client.try_dispute_arbitration_split(&i128::MAX, &5_001u32);
    assert_eq!(result, Err(Ok(Error::InvalidAmount)));
}

#[test]
fn test_dispute_arbitration_split_total_always_preserved() {
    let env = Env::default();
    env.mock_all_auths();
    let contract_id = env.register(MilestoneEscrow, ());
    let client = MilestoneEscrowClient::new(&env, &contract_id);

    let amount = 999_983_i128; // prime
    for bps in [0u32, 1, 999, 3_333, 5_000, 7_777, 9_999, 10_000] {
        let result = client.dispute_arbitration_split(&amount, &bps);
        assert_eq!(
            result.freelancer_payout + result.client_refund,
            amount,
            "total not preserved at bps={}",
            bps
        );
        assert_eq!(
            result.freelancer_payout_bps + result.client_refund_bps,
            10_000,
            "bps echo sum != 10_000 at bps={}",
            bps
        );
    }
}

#[test]
fn test_dispute_arbitration_split_one_bps() {
    let env = Env::default();
    env.mock_all_auths();
    let contract_id = env.register(MilestoneEscrow, ());
    let client = MilestoneEscrowClient::new(&env, &contract_id);

    let result = client.dispute_arbitration_split(&10_000_i128, &1u32);
    assert_eq!(result.freelancer_payout, 1);
    assert_eq!(result.client_refund, 9_999);
}

#[test]
fn test_resolve_dispute_minimum_amount_releases_ok() {
    let env = Env::default();
    env.mock_all_auths();
    let (client_addr, _, arbiter_addr, _, _, _, escrow) =
        setup_funded_escrow(&env, list(&env, [1_i128]));
    escrow.raise_dispute(&client_addr, &0u32);
    // Arbiter resolves to freelancer — 1 stroop, no overflow
    let result = escrow.try_resolve_dispute(&arbiter_addr, &0u32, &true);
    assert!(result.is_ok(), "1-stroop resolve should succeed");
}

#[test]
fn test_resolve_dispute_minimum_amount_refunds_ok() {
    let env = Env::default();
    env.mock_all_auths();
    let (client_addr, _, arbiter_addr, _, _, _, escrow) =
        setup_funded_escrow(&env, list(&env, [1_i128]));
    escrow.raise_dispute(&client_addr, &0u32);
    let result = escrow.try_resolve_dispute(&arbiter_addr, &0u32, &false);
    assert!(result.is_ok(), "1-stroop refund should succeed");
}

#[test]
fn test_resolve_dispute_large_amount_no_overflow() {
    let env = Env::default();
    env.mock_all_auths();
    let large: i128 = 1_000_000_000_000_i128;
    let (client_addr, _, arbiter_addr, _, _, _, escrow) =
        setup_funded_escrow(&env, list(&env, [large]));
    escrow.raise_dispute(&client_addr, &0u32);
    let result = escrow.try_resolve_dispute(&arbiter_addr, &0u32, &true);
    assert!(result.is_ok(), "large-amount resolve must not panic");
}

#[test]
fn test_resolve_dispute_zero_remaining_fails_gracefully() {
    let env = Env::default();
    env.mock_all_auths();
    let (client_addr, freelancer_addr, _, _, _, _, escrow) =
        setup_funded_escrow(&env, list(&env, [1_000_i128]));
    escrow.mark_delivered(&freelancer_addr, &0u32);
    escrow.approve_milestone(&client_addr, &0u32);
    // Milestone is Released — raise_dispute must return InvalidStatus
    let result = escrow.try_raise_dispute(&client_addr, &0u32);
    assert_eq!(result, Err(Ok(Error::InvalidStatus)));
}

#[test]
fn test_resolve_dispute_already_resolved_fails_gracefully() {
    let env = Env::default();
    env.mock_all_auths();
    let (client_addr, _, arbiter_addr, _, _, _, escrow) =
        setup_funded_escrow(&env, list(&env, [1_000_i128]));
    escrow.raise_dispute(&client_addr, &0u32);
    escrow.resolve_dispute(&arbiter_addr, &0u32, &true);
    // Second resolve on same milestone must fail gracefully
    let result = escrow.try_resolve_dispute(&arbiter_addr, &0u32, &true);
    assert_eq!(result, Err(Ok(Error::InvalidStatus)));
}

#[test]
fn test_resolve_dispute_multiple_milestones_sequential_ok() {
    let env = Env::default();
    env.mock_all_auths();
    let amounts = list(&env, [100_i128, 200_i128, 300_i128]);
    let (client_addr, _, arbiter_addr, _, _, _, escrow) = setup_funded_escrow(&env, amounts);
    for i in 0u32..3 {
        escrow.raise_dispute(&client_addr, &i);
        let ok = escrow.try_resolve_dispute(&arbiter_addr, &i, &(i % 2 == 0));
        assert!(ok.is_ok(), "milestone {} resolve failed", i);
    }
}

#[test]
fn test_resolve_dispute_released_amount_equals_amount_fails() {
    let env = Env::default();
    env.mock_all_auths();
    let (_, _, arbiter_addr, _, _, _, escrow) = setup_funded_escrow(&env, list(&env, [500_i128]));
    // Do not raise dispute — resolve_dispute on Pending must fail gracefully
    let result = escrow.try_resolve_dispute(&arbiter_addr, &0u32, &true);
    assert_eq!(result, Err(Ok(Error::InvalidStatus)));
}

#[test]
fn test_multisig_single_sig_does_not_reach_2_of_2() {
    let env = Env::default();
    env.mock_all_auths();
    let (client, _admin, signers) = setup_multisig(&env, 2);
    // Only signer 0 approves
    let state = client.multisig_approve(&signers.get(0).unwrap(), &1u32);
    assert!(!state.approved, "single sig must not satisfy 2-of-2");
    assert_eq!(state.approvals, 1);
    assert_eq!(state.threshold, 2);
}

#[test]
fn test_multisig_single_sig_does_not_reach_3_of_3() {
    let env = Env::default();
    env.mock_all_auths();
    let (client, _admin, signers) = setup_multisig(&env, 3);
    let state = client.multisig_approve(&signers.get(0).unwrap(), &2u32);
    assert!(!state.approved, "single sig must not satisfy 3-of-3");
    assert_eq!(state.approvals, 1);
    assert_eq!(state.threshold, 3);
}

#[test]
fn test_multisig_both_sigs_satisfy_2_of_2() {
    let env = Env::default();
    env.mock_all_auths();
    let (client, _admin, signers) = setup_multisig(&env, 2);
    client.multisig_approve(&signers.get(0).unwrap(), &3u32);
    let state = client.multisig_approve(&signers.get(1).unwrap(), &3u32);
    assert!(state.approved, "both sigs must satisfy 2-of-2");
    assert_eq!(state.approvals, 2);
}

#[test]
fn test_multisig_unregistered_signer_rejected() {
    let env = Env::default();
    env.mock_all_auths();
    let (client, _admin, _signers) = setup_multisig(&env, 2);
    let impostor = Address::generate(&env);
    let result = client.try_multisig_approve(&impostor, &4u32);
    assert_eq!(result, Err(Ok(Error::Unauthorized)));
}

#[test]
fn test_multisig_duplicate_approval_is_idempotent() {
    let env = Env::default();
    env.mock_all_auths();
    let (client, _admin, signers) = setup_multisig(&env, 2);
    let signer = signers.get(0).unwrap();
    client.multisig_approve(&signer, &5u32);
    let state = client.multisig_approve(&signer, &5u32); // second call same signer
    assert!(
        !state.approved,
        "duplicate from single signer must not satisfy 2-of-2"
    );
    assert_eq!(
        state.approvals, 1,
        "bitmap must not double-count same signer"
    );
}

#[test]
fn test_multisig_2_of_3_satisfied_by_two_signers() {
    let env = Env::default();
    env.mock_all_auths();

    let contract_id = env.register(MilestoneEscrow, ());
    let client = MilestoneEscrowClient::new(&env, &contract_id);

    let admin = Address::generate(&env);
    let dummy_client = Address::generate(&env);
    let s1 = Address::generate(&env);
    let s2 = Address::generate(&env);
    let s3 = Address::generate(&env);
    let signers = list(&env, [s1.clone(), s2.clone(), s3.clone()]);

    // initialize escrow then multisig
    let token_id = env
        .register_stellar_asset_contract_v2(admin.clone())
        .address();
    let token_admin = StellarAssetClient::new(&env, &token_id);
    client.initialize(
        &admin,
        &dummy_client,
        &Address::generate(&env),
        &Address::generate(&env),
        &token_id,
        &86400u64,
        &list(&env, [1_000_i128]),
    );
    // multisig_approve guards against a zero contract balance.
    token_admin.mint(&dummy_client, &1_000_i128);
    client.fund(&dummy_client);
    client.multisig_approval_init(&admin, &signers, &2u32); // 2-of-3

    client.multisig_approve(&s1, &6u32);
    let state = client.multisig_approve(&s2, &6u32);
    assert!(
        state.approved,
        "2-of-3 must be satisfied after 2 distinct approvals"
    );
    assert_eq!(state.approvals, 2);
    assert_eq!(state.threshold, 2);
}

#[test]
fn test_multisig_approval_isolated_per_proposal() {
    let env = Env::default();
    env.mock_all_auths();
    let (client, _admin, signers) = setup_multisig(&env, 2);
    // Approve proposal 10 with both signers
    client.multisig_approve(&signers.get(0).unwrap(), &10u32);
    client.multisig_approve(&signers.get(1).unwrap(), &10u32);
    // Proposal 20 must still be unapproved
    let state = client.is_multisig_approved(&20u32);
    assert!(
        !state.approved,
        "proposal 20 must be unaffected by proposal 10 approvals"
    );
    assert_eq!(state.approvals, 0);
}

#[test]
fn test_multisig_query_no_side_effects() {
    let env = Env::default();
    env.mock_all_auths();
    let (client, _admin, signers) = setup_multisig(&env, 2);
    // Query before any approval
    let state_before = client.is_multisig_approved(&99u32);
    assert!(!state_before.approved);
    assert_eq!(state_before.approvals, 0);
    // Approve once
    client.multisig_approve(&signers.get(0).unwrap(), &99u32);
    let state_after = client.is_multisig_approved(&99u32);
    assert!(!state_after.approved);
    assert_eq!(state_after.approvals, 1);
}

#[test]
fn test_multisig_threshold_one_satisfied_by_single_signer() {
    let env = Env::default();
    env.mock_all_auths();

    let contract_id = env.register(MilestoneEscrow, ());
    let client = MilestoneEscrowClient::new(&env, &contract_id);

    let admin = Address::generate(&env);
    let dummy_client = Address::generate(&env);
    let s1 = Address::generate(&env);
    let s2 = Address::generate(&env);
    let signers = list(&env, [s1.clone(), s2.clone()]);

    let token_id = env
        .register_stellar_asset_contract_v2(admin.clone())
        .address();
    let token_admin = StellarAssetClient::new(&env, &token_id);
    client.initialize(
        &admin,
        &dummy_client,
        &Address::generate(&env),
        &Address::generate(&env),
        &token_id,
        &86400u64,
        &list(&env, [1_000_i128]),
    );
    // multisig_approve guards against a zero contract balance.
    token_admin.mint(&dummy_client, &1_000_i128);
    client.fund(&dummy_client);
    client.multisig_approval_init(&admin, &signers, &1u32); // 1-of-2

    let state = client.multisig_approve(&s1, &50u32);
    assert!(state.approved, "1-of-2 must be satisfied by single signer");
    assert_eq!(state.approvals, 1);
    assert_eq!(state.threshold, 1);
}

#[test]
fn test_raise_dispute_zero_account_address_fails() {
    let env = Env::default();
    env.mock_all_auths();
    let (_, _, _, _, _, _, escrow) = setup_funded_escrow(&env, list(&env, [1_000_i128]));
    let zero_account = Address::from_str(
        &env,
        "GAAAAAAAAAAAAAAAAAAAAAAAAAAAAAAAAAAAAAAAAAAAAAAAAAAAAWHF",
    );
    let result = escrow.try_raise_dispute(&zero_account, &0u32);
    assert_eq!(result, Err(Ok(Error::InvalidAddress)));
}

#[test]
fn test_raise_dispute_zero_contract_address_fails_comprehensive() {
    let env = Env::default();
    env.mock_all_auths();
    let (_, _, _, _, _, _, escrow) = setup_funded_escrow(&env, list(&env, [1_000_i128]));
    let zero_contract = Address::from_str(
        &env,
        "CAAAAAAAAAAAAAAAAAAAAAAAAAAAAAAAAAAAAAAAAAAAAAAAAAAABSC4",
    );
    let result = escrow.try_raise_dispute(&zero_contract, &0u32);
    assert_eq!(result, Err(Ok(Error::InvalidAddress)));
}

#[test]
fn test_raise_dispute_valid_client_address_succeeds() {
    let env = Env::default();
    env.mock_all_auths();
    let (client_addr, _, _, _, _, _, escrow) = setup_funded_escrow(&env, list(&env, [1_000_i128]));
    let result = escrow.try_raise_dispute(&client_addr, &0u32);
    assert!(result.is_ok(), "valid client address must succeed");
}

#[test]
fn test_raise_dispute_valid_freelancer_address_succeeds() {
    let env = Env::default();
    env.mock_all_auths();
    let (_, freelancer_addr, _, _, _, _, escrow) =
        setup_funded_escrow(&env, list(&env, [1_000_i128]));
    let result = escrow.try_raise_dispute(&freelancer_addr, &0u32);
    assert!(result.is_ok(), "valid freelancer address must succeed");
}

#[test]
fn test_raise_dispute_arbiter_address_unauthorized_not_invalid() {
    let env = Env::default();
    env.mock_all_auths();
    let (_, _, arbiter_addr, _, _, _, escrow) = setup_funded_escrow(&env, list(&env, [1_000_i128]));
    let result = escrow.try_raise_dispute(&arbiter_addr, &0u32);
    // Arbiter is a valid address, but not client or freelancer → Unauthorized
    assert_eq!(result, Err(Ok(Error::Unauthorized)));
}

#[test]
fn test_raise_dispute_random_valid_address_unauthorized() {
    let env = Env::default();
    env.mock_all_auths();
    let (_, _, _, _, _, _, escrow) = setup_funded_escrow(&env, list(&env, [1_000_i128]));
    let stranger = Address::generate(&env);
    let result = escrow.try_raise_dispute(&stranger, &0u32);
    assert_eq!(result, Err(Ok(Error::Unauthorized)));
}

#[test]
fn test_raise_dispute_zero_address_before_not_funded_check() {
    let env = Env::default();
    env.mock_all_auths();

    let admin = Address::generate(&env);
    let client_addr = Address::generate(&env);
    let freelancer_addr = Address::generate(&env);
    let arbiter_addr = Address::generate(&env);
    let token_contract_id = env
        .register_stellar_asset_contract_v2(admin.clone())
        .address();

    let contract_id = env.register(MilestoneEscrow, ());
    let escrow = MilestoneEscrowClient::new(&env, &contract_id);
    escrow.initialize(
        &admin,
        &client_addr,
        &freelancer_addr,
        &arbiter_addr,
        &token_contract_id,
        &86400u64,
        &list(&env, [1_000_i128]),
    );
    // Escrow NOT funded

    let zero_account = Address::from_str(
        &env,
        "GAAAAAAAAAAAAAAAAAAAAAAAAAAAAAAAAAAAAAAAAAAAAAAAAAAAAWHF",
    );
    let result = escrow.try_raise_dispute(&zero_account, &0u32);
    // InvalidAddress must be returned even though escrow is not funded
    assert_eq!(result, Err(Ok(Error::InvalidAddress)));
}

#[test]
fn test_raise_dispute_zero_addresses_rejected_on_any_milestone() {
    let env = Env::default();
    env.mock_all_auths();
    let (_, _, _, _, _, _, escrow) =
        setup_funded_escrow(&env, list(&env, [100_i128, 200_i128, 300_i128]));

    let zero_account = Address::from_str(
        &env,
        "GAAAAAAAAAAAAAAAAAAAAAAAAAAAAAAAAAAAAAAAAAAAAAAAAAAAAWHF",
    );
    let zero_contract = Address::from_str(
        &env,
        "CAAAAAAAAAAAAAAAAAAAAAAAAAAAAAAAAAAAAAAAAAAAAAAAAAAABSC4",
    );

    for idx in 0u32..3 {
        let r1 = escrow.try_raise_dispute(&zero_account, &idx);
        assert_eq!(
            r1,
            Err(Ok(Error::InvalidAddress)),
            "zero account on milestone {}",
            idx
        );
        let r2 = escrow.try_raise_dispute(&zero_contract, &idx);
        assert_eq!(
            r2,
            Err(Ok(Error::InvalidAddress)),
            "zero contract on milestone {}",
            idx
        );
    }
}

#[test]
fn test_resolve_dispute_state_transition_matrix() {
    let env = Env::default();
    env.mock_all_auths();

    let client_addr = Address::generate(&env);
    let freelancer_addr = Address::generate(&env);
    let arbiter_addr = Address::generate(&env);
    let admin_addr = Address::generate(&env);
    let token_contract_id = env
        .register_stellar_asset_contract_v2(admin_addr.clone())
        .address();
    let token = TokenClient::new(&env, &token_contract_id);
    let token_admin = StellarAssetClient::new(&env, &token_contract_id);
    // Seven milestones: five invalid sources + two valid Disputed paths.
    token_admin.mint(&client_addr, &7_000);

    let contract_id = env.register(MilestoneEscrow, ());
    let client = MilestoneEscrowClient::new(&env, &contract_id);

    let amounts = list(
        &env,
        [1_000_i128, 1_000_i128, 1_000_i128, 1_000_i128, 1_000_i128, 1_000_i128, 1_000_i128],
    );
    client.initialize(
        &admin_addr,
        &client_addr,
        &freelancer_addr,
        &arbiter_addr,
        &token_contract_id,
        &604800,
        &amounts,
    );
    client.fund(&client_addr);

    // 0: Pending → reject
    let result = client.try_resolve_dispute(&arbiter_addr, &0u32, &true);
    assert_eq!(result, Err(Ok(Error::InvalidStatus)));
    assert_eq!(
        client.get_job().milestones.get(0).unwrap().status,
        MilestoneStatus::Pending
    );

    // 1: Delivered → reject
    client.mark_delivered(&freelancer_addr, &1u32);
    let result = client.try_resolve_dispute(&arbiter_addr, &1u32, &true);
    assert_eq!(result, Err(Ok(Error::InvalidStatus)));
    assert_eq!(
        client.get_job().milestones.get(1).unwrap().status,
        MilestoneStatus::Delivered
    );

    // 2: PartiallyReleased → reject
    client.mark_delivered(&freelancer_addr, &2u32);
    client.approve_partial(&client_addr, &2u32, &400_i128);
    let result = client.try_resolve_dispute(&arbiter_addr, &2u32, &false);
    assert_eq!(result, Err(Ok(Error::InvalidStatus)));
    assert_eq!(
        client.get_job().milestones.get(2).unwrap().status,
        MilestoneStatus::PartiallyReleased
    );

    // 3: Released → reject
    client.mark_delivered(&freelancer_addr, &3u32);
    client.approve_milestone(&client_addr, &3u32);
    let result = client.try_resolve_dispute(&arbiter_addr, &3u32, &true);
    assert_eq!(result, Err(Ok(Error::InvalidStatus)));
    assert_eq!(
        client.get_job().milestones.get(3).unwrap().status,
        MilestoneStatus::Released
    );

    // 4: Refunded → reject (settled via prior dispute resolution)
    client.mark_delivered(&freelancer_addr, &4u32);
    client.raise_dispute(&client_addr, &4u32);
    client.resolve_dispute(&arbiter_addr, &4u32, &false);
    assert_eq!(
        client.get_job().milestones.get(4).unwrap().status,
        MilestoneStatus::Refunded
    );
    let result = client.try_resolve_dispute(&arbiter_addr, &4u32, &true);
    assert_eq!(result, Err(Ok(Error::InvalidStatus)));
    assert_eq!(
        client.get_job().milestones.get(4).unwrap().status,
        MilestoneStatus::Refunded
    );

    // 5: Disputed → Released
    client.mark_delivered(&freelancer_addr, &5u32);
    client.raise_dispute(&client_addr, &5u32);
    client.resolve_dispute(&arbiter_addr, &5u32, &true);
    assert_eq!(
        client.get_job().milestones.get(5).unwrap().status,
        MilestoneStatus::Released
    );

    // Re-resolve after Released must also fail (terminal status).
    let result = client.try_resolve_dispute(&arbiter_addr, &5u32, &false);
    assert_eq!(result, Err(Ok(Error::InvalidStatus)));
    assert_eq!(
        client.get_job().milestones.get(5).unwrap().status,
        MilestoneStatus::Released
    );

    // 6: Disputed → Refunded
    client.mark_delivered(&freelancer_addr, &6u32);
    client.raise_dispute(&freelancer_addr, &6u32);
    client.resolve_dispute(&arbiter_addr, &6u32, &false);
    assert_eq!(
        client.get_job().milestones.get(6).unwrap().status,
        MilestoneStatus::Refunded
    );

    // Invalid transitions must not have paid out milestones 0–1.
    // Milestone 2 paid 400 partial; 3 released 1000; 4 refunded 1000;
    // 5 released 1000; 6 refunded 1000.
    assert_eq!(token.balance(&freelancer_addr), 400 + 1_000 + 1_000);
    assert_eq!(
        client.get_job().milestones.get(0).unwrap().status,
        MilestoneStatus::Pending
    );
    assert_eq!(
        client.get_job().milestones.get(1).unwrap().status,
        MilestoneStatus::Delivered
    );
}

#[test]
fn test_resolve_dispute_from_pending_fails_without_side_effects() {
    let env = Env::default();
    env.mock_all_auths();

    let (client_addr, _, arbiter_addr, _, token_contract_id, contract_id, escrow) =
        setup_funded_escrow(&env, list(&env, [1_000_i128]));
    let token = TokenClient::new(&env, &token_contract_id);

    let client_before = token.balance(&client_addr);
    let contract_before = token.balance(&contract_id);

    let result = escrow.try_resolve_dispute(&arbiter_addr, &0u32, &true);
    assert_eq!(result, Err(Ok(Error::InvalidStatus)));
    assert_eq!(
        escrow.get_job().milestones.get(0).unwrap().status,
        MilestoneStatus::Pending
    );
    assert_eq!(token.balance(&client_addr), client_before);
    assert_eq!(token.balance(&contract_id), contract_before);
}

#[test]
fn test_resolve_dispute_from_delivered_fails() {
    let env = Env::default();
    env.mock_all_auths();

    let (_, freelancer_addr, arbiter_addr, _, _, _, escrow) =
        setup_funded_escrow(&env, list(&env, [1_000_i128]));

    escrow.mark_delivered(&freelancer_addr, &0u32);
    let result = escrow.try_resolve_dispute(&arbiter_addr, &0u32, &false);
    assert_eq!(result, Err(Ok(Error::InvalidStatus)));
    assert_eq!(
        escrow.get_job().milestones.get(0).unwrap().status,
        MilestoneStatus::Delivered
    );
}

#[test]
fn test_resolve_dispute_from_partially_released_fails() {
    let env = Env::default();
    env.mock_all_auths();

    let (client_addr, freelancer_addr, arbiter_addr, _, _, _, escrow) =
        setup_funded_escrow(&env, list(&env, [2_000_i128]));

    escrow.mark_delivered(&freelancer_addr, &0u32);
    escrow.approve_partial(&client_addr, &0u32, &500_i128);

    let result = escrow.try_resolve_dispute(&arbiter_addr, &0u32, &true);
    assert_eq!(result, Err(Ok(Error::InvalidStatus)));
    assert_eq!(
        escrow.get_job().milestones.get(0).unwrap().status,
        MilestoneStatus::PartiallyReleased
    );
}

#[test]
fn test_resolve_dispute_from_released_fails() {
    let env = Env::default();
    env.mock_all_auths();

    let (client_addr, freelancer_addr, arbiter_addr, _, _, _, escrow) =
        setup_funded_escrow(&env, list(&env, [1_000_i128]));

    escrow.mark_delivered(&freelancer_addr, &0u32);
    escrow.approve_milestone(&client_addr, &0u32);

    let result = escrow.try_resolve_dispute(&arbiter_addr, &0u32, &true);
    assert_eq!(result, Err(Ok(Error::InvalidStatus)));
    assert_eq!(
        escrow.get_job().milestones.get(0).unwrap().status,
        MilestoneStatus::Released
    );
}

#[test]
fn test_resolve_dispute_from_refunded_fails() {
    let env = Env::default();
    env.mock_all_auths();

    let (client_addr, freelancer_addr, arbiter_addr, _, _, _, escrow) =
        setup_funded_escrow(&env, list(&env, [1_000_i128]));

    escrow.mark_delivered(&freelancer_addr, &0u32);
    escrow.raise_dispute(&client_addr, &0u32);
    escrow.resolve_dispute(&arbiter_addr, &0u32, &false);

    let result = escrow.try_resolve_dispute(&arbiter_addr, &0u32, &true);
    assert_eq!(result, Err(Ok(Error::InvalidStatus)));
    assert_eq!(
        escrow.get_job().milestones.get(0).unwrap().status,
        MilestoneStatus::Refunded
    );
}

#[test]
fn test_resolve_dispute_from_disputed_to_released_succeeds() {
    let env = Env::default();
    env.mock_all_auths();

    let (client_addr, freelancer_addr, arbiter_addr, _, token_contract_id, _, escrow) =
        setup_funded_escrow(&env, list(&env, [1_000_i128]));
    let token = TokenClient::new(&env, &token_contract_id);

    escrow.mark_delivered(&freelancer_addr, &0u32);
    escrow.raise_dispute(&client_addr, &0u32);
    escrow.resolve_dispute(&arbiter_addr, &0u32, &true);

    let job = escrow.get_job();
    assert_eq!(
        job.milestones.get(0).unwrap().status,
        MilestoneStatus::Released
    );
    assert_eq!(job.milestones.get(0).unwrap().released_amount, 1_000);
    assert_eq!(token.balance(&freelancer_addr), 1_000);
}

#[test]
fn test_resolve_dispute_from_disputed_to_refunded_succeeds() {
    let env = Env::default();
    env.mock_all_auths();

    let (client_addr, freelancer_addr, arbiter_addr, _, token_contract_id, contract_id, escrow) =
        setup_funded_escrow(&env, list(&env, [1_000_i128]));
    let token = TokenClient::new(&env, &token_contract_id);

    escrow.mark_delivered(&freelancer_addr, &0u32);
    escrow.raise_dispute(&client_addr, &0u32);
    escrow.resolve_dispute(&arbiter_addr, &0u32, &false);

    let job = escrow.get_job();
    assert_eq!(
        job.milestones.get(0).unwrap().status,
        MilestoneStatus::Refunded
    );
    assert_eq!(token.balance(&client_addr), 1_000);
    assert_eq!(token.balance(&contract_id), 0);
    assert_eq!(token.balance(&freelancer_addr), 0);
}

#[test]
fn test_resolve_dispute_unauthorized_still_fails_after_state_machine() {
    let env = Env::default();
    env.mock_all_auths();

    let (client_addr, freelancer_addr, _, _, _, _, escrow) =
        setup_funded_escrow(&env, list(&env, [1_000_i128]));

    escrow.mark_delivered(&freelancer_addr, &0u32);
    escrow.raise_dispute(&client_addr, &0u32);

    let result = escrow.try_resolve_dispute(&client_addr, &0u32, &true);
    assert_eq!(result, Err(Ok(Error::Unauthorized)));
    assert_eq!(
        escrow.get_job().milestones.get(0).unwrap().status,
        MilestoneStatus::Disputed
    );
}

#[test]
fn test_milestone_time_extensions_emits_event() {
    let env = Env::default();
    env.mock_all_auths();

    let contract_id = env.register(MilestoneEscrow, ());
    let client = MilestoneEscrowClient::new(&env, &contract_id);

    let amount = 1_000_i128;
    let elapsed = 300_i128;
    let total = 600_i128;

    let split = client.milestone_time_extensions(&amount, &elapsed, &total);
    assert_eq!(split.first, 500);
    assert_eq!(split.second, 500);

    let events = env.events().all();
    let m_ext_topic: Symbol = Symbol("m_ext");
    let m_ext_topic_val: Val = m_ext_topic.into_val(&env);

    let mut found_event = false;
    for e in events.iter() {
        if let Some(topic) = e.1.get(0) {
            if topic.get_payload() == m_ext_topic_val.get_payload() {
                found_event = true;
                let event_data = MilestoneTimeExtensionEvent::from_val(&env, &e.2);
                assert_eq!(event_data.amount, amount);
                assert_eq!(event_data.elapsed_seconds, elapsed);
                assert_eq!(event_data.total_seconds, total);
                assert_eq!(event_data.freelancer_share, 500);
                assert_eq!(event_data.client_refund, 500);
            }
        }
    }
    assert!(found_event, "Expected m_ext event to be published");
}

#[test]
fn test_milestone_time_extensions_zero_elapsed_emits_event() {
    let env = Env::default();
    env.mock_all_auths();

    let contract_id = env.register(MilestoneEscrow, ());
    let client = MilestoneEscrowClient::new(&env, &contract_id);

    let amount = 1_000_i128;
    let elapsed = 0_i128;
    let total = 600_i128;

    let split = client.milestone_time_extensions(&amount, &elapsed, &total);
    assert_eq!(split.first, 0);
    assert_eq!(split.second, 1_000);

    let events = env.events().all();
    let m_ext_topic: Symbol = Symbol("m_ext");
    let m_ext_topic_val: Val = m_ext_topic.into_val(&env);

    let mut found_event = false;
    for e in events.iter() {
        if let Some(topic) = e.1.get(0) {
            if topic.get_payload() == m_ext_topic_val.get_payload() {
                found_event = true;
                let event_data = MilestoneTimeExtensionEvent::from_val(&env, &e.2);
                assert_eq!(event_data.amount, amount);
                assert_eq!(event_data.elapsed_seconds, elapsed);
                assert_eq!(event_data.total_seconds, total);
                assert_eq!(event_data.freelancer_share, 0);
                assert_eq!(event_data.client_refund, 1_000);
            }
        }
    }
    assert!(found_event, "Expected m_ext event to be published");
}

#[test]
fn test_milestone_time_extensions_full_elapsed_emits_event() {
    let env = Env::default();
    env.mock_all_auths();

    let contract_id = env.register(MilestoneEscrow, ());
    let client = MilestoneEscrowClient::new(&env, &contract_id);

    let amount = 1_000_i128;
    let elapsed = 600_i128;
    let total = 600_i128;

    let split = client.milestone_time_extensions(&amount, &elapsed, &total);
    assert_eq!(split.first, 1_000);
    assert_eq!(split.second, 0);

    let events = env.events().all();
    let m_ext_topic: Symbol = Symbol("m_ext");
    let m_ext_topic_val: Val = m_ext_topic.into_val(&env);

    let mut found_event = false;
    for e in events.iter() {
        if let Some(topic) = e.1.get(0) {
            if topic.get_payload() == m_ext_topic_val.get_payload() {
                found_event = true;
                let event_data = MilestoneTimeExtensionEvent::from_val(&env, &e.2);
                assert_eq!(event_data.amount, amount);
                assert_eq!(event_data.elapsed_seconds, elapsed);
                assert_eq!(event_data.total_seconds, total);
                assert_eq!(event_data.freelancer_share, 1_000);
                assert_eq!(event_data.client_refund, 0);
            }
        }
    }
    assert!(found_event, "Expected m_ext event to be published");
}

fn setup_test_env(env: &Env) -> (Address, Address, Address, Address, u64) {
    let admin = Address::generate(env);
    let client_addr = Address::generate(env);
    let freelancer_addr = Address::generate(env);
    let token = env
        .register_stellar_asset_contract_v2(admin.clone())
        .address();
    let auto_release = 604800_u64;
    (admin, client_addr, freelancer_addr, token, auto_release)
}

#[test]
fn test_escrow_interest_yield_calculation_basic() {
    let env = Env::default();
    let contract_id = env.register(MilestoneEscrow, ());
    let client = MilestoneEscrowClient::new(&env, &contract_id);

    // 10,000 principal, 500 bps (5%), 1 full year (31,536,000s)
    let yield_amt = client.escrow_interest_yield(&10_000_i128, &500_i128, &31_536_000_i128);
    assert_eq!(yield_amt, 500);
}

#[test]
fn test_escrow_interest_yield_calculation_half_year() {
    let env = Env::default();
    let contract_id = env.register(MilestoneEscrow, ());
    let client = MilestoneEscrowClient::new(&env, &contract_id);

    // 10,000 principal, 1,000 bps (10%), 6 months (15,768,000s)
    let yield_amt = client.escrow_interest_yield(&10_000_i128, &1_000_i128, &15_768_000_i128);
    assert_eq!(yield_amt, 500);
}

#[test]
fn test_escrow_interest_yield_zero_principal_fails() {
    let env = Env::default();
    let contract_id = env.register(MilestoneEscrow, ());
    let client = MilestoneEscrowClient::new(&env, &contract_id);

    let res = client.try_escrow_interest_yield(&0_i128, &500_i128, &31_536_000_i128);
    assert_eq!(res, Err(Ok(Error::InvalidAmount)));
}

#[test]
fn test_escrow_interest_yield_negative_principal_fails() {
    let env = Env::default();
    let contract_id = env.register(MilestoneEscrow, ());
    let client = MilestoneEscrowClient::new(&env, &contract_id);

    let res = client.try_escrow_interest_yield(&-100_i128, &500_i128, &31_536_000_i128);
    assert_eq!(res, Err(Ok(Error::InvalidAmount)));
}

#[test]
fn test_escrow_interest_yield_zero_rate_fails() {
    let env = Env::default();
    let contract_id = env.register(MilestoneEscrow, ());
    let client = MilestoneEscrowClient::new(&env, &contract_id);

    let res = client.try_escrow_interest_yield(&10_000_i128, &0_i128, &31_536_000_i128);
    assert_eq!(res, Err(Ok(Error::InvalidAmount)));
}

#[test]
fn test_escrow_interest_yield_negative_rate_fails() {
    let env = Env::default();
    let contract_id = env.register(MilestoneEscrow, ());
    let client = MilestoneEscrowClient::new(&env, &contract_id);

    let res = client.try_escrow_interest_yield(&10_000_i128, &-10_i128, &31_536_000_i128);
    assert_eq!(res, Err(Ok(Error::InvalidAmount)));
}

#[test]
fn test_escrow_interest_yield_excessive_rate_fails() {
    let env = Env::default();
    let contract_id = env.register(MilestoneEscrow, ());
    let client = MilestoneEscrowClient::new(&env, &contract_id);

    let res = client.try_escrow_interest_yield(&10_000_i128, &10_001_i128, &31_536_000_i128);
    assert_eq!(res, Err(Ok(Error::InvalidRatio)));
}

#[test]
fn test_escrow_interest_yield_max_rate_succeeds() {
    let env = Env::default();
    let contract_id = env.register(MilestoneEscrow, ());
    let client = MilestoneEscrowClient::new(&env, &contract_id);

    // 100% rate = 10,000 bps
    let yield_amt = client.escrow_interest_yield(&10_000_i128, &10_000_i128, &31_536_000_i128);
    assert_eq!(yield_amt, 10_000);
}

#[test]
fn test_escrow_interest_yield_zero_duration_fails() {
    let env = Env::default();
    let contract_id = env.register(MilestoneEscrow, ());
    let client = MilestoneEscrowClient::new(&env, &contract_id);

    let res = client.try_escrow_interest_yield(&10_000_i128, &500_i128, &0_i128);
    assert_eq!(res, Err(Ok(Error::InvalidAmount)));
}

#[test]
fn test_escrow_interest_yield_negative_duration_fails() {
    let env = Env::default();
    let contract_id = env.register(MilestoneEscrow, ());
    let client = MilestoneEscrowClient::new(&env, &contract_id);

    let res = client.try_escrow_interest_yield(&10_000_i128, &500_i128, &-100_i128);
    assert_eq!(res, Err(Ok(Error::InvalidAmount)));
}

#[test]
fn test_escrow_interest_yield_overflow_fails() {
    let env = Env::default();
    let contract_id = env.register(MilestoneEscrow, ());
    let client = MilestoneEscrowClient::new(&env, &contract_id);

    let res = client.try_escrow_interest_yield(&i128::MAX, &10_000_i128, &31_536_000_i128);
    assert_eq!(res, Err(Ok(Error::InvalidAmount)));
}

#[test]
fn test_escrow_interest_yield_share_config_not_initialized_initially() {
    let env = Env::default();
    let contract_id = env.register(MilestoneEscrow, ());
    let client = MilestoneEscrowClient::new(&env, &contract_id);

    let res = client.try_get_escrow_interest_yield();
    assert_eq!(res, Err(Ok(Error::NotInitialized)));
}

#[test]
fn test_escrow_interest_yield_set_valid_config_and_get() {
    let env = Env::default();
    env.mock_all_auths();

    let (admin, client_addr, freelancer_addr, token, auto_release) = setup_test_env(&env);
    let contract_id = env.register(MilestoneEscrow, ());
    let client = MilestoneEscrowClient::new(&env, &contract_id);
    let arbiter = Address::generate(&env);
    client.initialize(
        &admin,
        &client_addr,
        &freelancer_addr,
        &arbiter,
        &token,
        &auto_release,
        &list(&env, [1_000_i128]),
    );

    client.set_escrow_interest_yield(&admin, &5_000u32, &5_000u32);

    let config = client.get_escrow_interest_yield();
    assert_eq!(config.client_share_bps, 5_000);
    assert_eq!(config.freelancer_share_bps, 5_000);
    assert_eq!(config.locked, false);
}

#[test]
fn test_escrow_interest_yield_set_invalid_share_total_fails() {
    let env = Env::default();
    env.mock_all_auths();

    let (admin, client_addr, freelancer_addr, token, auto_release) = setup_test_env(&env);
    let contract_id = env.register(MilestoneEscrow, ());
    let client = MilestoneEscrowClient::new(&env, &contract_id);
    let arbiter = Address::generate(&env);
    client.initialize(
        &admin,
        &client_addr,
        &freelancer_addr,
        &arbiter,
        &token,
        &auto_release,
        &list(&env, [1_000_i128]),
    );

    let res1 = client.try_set_escrow_interest_yield(&admin, &6_000u32, &5_000u32);
    assert_eq!(res1, Err(Ok(Error::InvalidRatio)));

    let res2 = client.try_set_escrow_interest_yield(&admin, &3_000u32, &3_000u32);
    assert_eq!(res2, Err(Ok(Error::InvalidRatio)));
}

#[test]
fn test_escrow_interest_yield_lock_unlock_workflow() {
    let env = Env::default();
    env.mock_all_auths();

    let (admin, client_addr, freelancer_addr, token, auto_release) = setup_test_env(&env);
    let contract_id = env.register(MilestoneEscrow, ());
    let client = MilestoneEscrowClient::new(&env, &contract_id);
    let arbiter = Address::generate(&env);
    client.initialize(
        &admin,
        &client_addr,
        &freelancer_addr,
        &arbiter,
        &token,
        &auto_release,
        &list(&env, [1_000_i128]),
    );

    client.set_escrow_interest_yield(&admin, &5_000u32, &5_000u32);
    assert_eq!(client.is_escrow_interest_yield_locked(), false);

    client.lock_escrow_interest_yield(&admin);
    assert_eq!(client.is_escrow_interest_yield_locked(), true);

    let res = client.try_set_escrow_interest_yield(&admin, &6_000u32, &4_000u32);
    assert_eq!(res, Err(Ok(Error::EscrowLocked)));

    client.unlock_escrow_interest_yield(&admin);
    assert_eq!(client.is_escrow_interest_yield_locked(), false);

    client.set_escrow_interest_yield(&admin, &6_000u32, &4_000u32);
    let updated = client.get_escrow_interest_yield();
    assert_eq!(updated.client_share_bps, 6_000);
    assert_eq!(updated.freelancer_share_bps, 4_000);
}

#[test]
fn test_escrow_interest_yield_unauthorized_admin_fails() {
    let env = Env::default();
    env.mock_all_auths();

    let (admin, client_addr, freelancer_addr, token, auto_release) = setup_test_env(&env);
    let contract_id = env.register(MilestoneEscrow, ());
    let client = MilestoneEscrowClient::new(&env, &contract_id);
    let arbiter = Address::generate(&env);
    client.initialize(
        &admin,
        &client_addr,
        &freelancer_addr,
        &arbiter,
        &token,
        &auto_release,
        &list(&env, [1_000_i128]),
    );

    let impostor = Address::generate(&env);
    let res = client.try_set_escrow_interest_yield(&impostor, &5_000u32, &5_000u32);
    assert_eq!(res, Err(Ok(Error::Unauthorized)));
}

#[test]
fn test_payment_streaming_milestones_zero_total_fails() {
    let env = Env::default();
    env.mock_all_auths();

    let contract_id = env.register(MilestoneEscrow, ());
    let client = MilestoneEscrowClient::new(&env, &contract_id);

    let result = client.try_payment_streaming_milestones(&0_i128, &1_i128, &2_i128);
    assert_eq!(result, Err(Ok(Error::InvalidAmount)));
}

#[test]
fn test_payment_streaming_milestones_negative_total_fails() {
    let env = Env::default();
    env.mock_all_auths();

    let contract_id = env.register(MilestoneEscrow, ());
    let client = MilestoneEscrowClient::new(&env, &contract_id);

    let result = client.try_payment_streaming_milestones(&-500_i128, &1_i128, &2_i128);
    assert_eq!(result, Err(Ok(Error::InvalidAmount)));
}

#[test]
fn test_payment_streaming_milestones_positive_total_succeeds() {
    let env = Env::default();
    env.mock_all_auths();

    let contract_id = env.register(MilestoneEscrow, ());
    let client = MilestoneEscrowClient::new(&env, &contract_id);

    // 1000 streamed at 1/4 elapsed: first=250, second=750, sum=1000
    let split = client.payment_streaming_milestones(&1_000_i128, &1_i128, &4_i128);
    assert_eq!(split.first, 250);
    assert_eq!(split.second, 750);
    assert_eq!(split.first + split.second, 1_000);
}

#[test]
fn test_milestone_time_extensions_zero_balance_is_blocked() {
    let env = Env::default();
    env.mock_all_auths();

    let contract_id = env.register(MilestoneEscrow, ());
    let client = MilestoneEscrowClient::new(&env, &contract_id);

    let result = client.try_milestone_time_extensions(&0_i128, &3_i128, &10_i128);
    assert_eq!(result, Err(Ok(Error::InvalidAmount)));
}

#[test]
fn test_milestone_time_extensions_negative_balance_is_blocked() {
    let env = Env::default();
    env.mock_all_auths();

    let contract_id = env.register(MilestoneEscrow, ());
    let client = MilestoneEscrowClient::new(&env, &contract_id);

    let result = client.try_milestone_time_extensions(&-1_000_i128, &3_i128, &10_i128);
    assert_eq!(result, Err(Ok(Error::InvalidAmount)));
}

#[test]
fn test_milestone_time_extensions_positive_balance_succeeds_and_emits_event() {
    let env = Env::default();
    env.mock_all_auths();

    let contract_id = env.register(MilestoneEscrow, ());
    let client = MilestoneEscrowClient::new(&env, &contract_id);

    // 600 split at 1/3 elapsed: round_nearest(600 * 1 / 3) = 200
    let split = client.milestone_time_extensions(&600_i128, &1_i128, &3_i128);
    assert_eq!(split.first, 200);
    assert_eq!(split.second, 400);
    assert_eq!(split.first + split.second, 600);

    // Verify the event was published
    let events = env.events().all();
    assert!(!events.is_empty(), "expected at least one event");
    let last = events.last().unwrap();
    let topic: Symbol = last.1.get(0).unwrap().try_into_val(&env).unwrap();
    assert_eq!(topic, Symbol::new(&env, "m_ext"));
}

#[test]
fn test_multisig_transfer_admin_emits_event() {
    let env = Env::default();
    env.mock_all_auths();

    let (admin_addr, _, _, _, _, _, client) = setup_multisig_env(&env);

    let ratios = list(&env, [1_i128, 1_i128, 1_i128]);
    let allocations = client.multisig_transfer_admin(&admin_addr, &300_i128, &ratios);

    // Verify allocation correctness
    assert_eq!(allocations.len(), 3);
    let total: i128 = allocations.iter().sum();
    assert_eq!(total, 300);

    // Verify the event was published
    let events = env.events().all();
    assert!(!events.is_empty(), "expected at least one event");
    let last = events.last().unwrap();
    let topic: Symbol = last.1.get(0).unwrap().try_into_val(&env).unwrap();
    assert_eq!(topic, Symbol::new(&env, "msigtrx"));
}

#[test]
fn test_multisig_transfer_admin_event_fields_are_correct() {
    let env = Env::default();
    env.mock_all_auths();

    let (admin_addr, _, _, _, _, _, client) = setup_multisig_env(&env);

    let ratios = list(&env, [3_i128, 1_i128]);
    let allocations = client.multisig_transfer_admin(&admin_addr, &1_000_i128, &ratios);

    // Verify numeric allocations: 750 and 250 (3/4 and 1/4 of 1000)
    assert_eq!(allocations.get(0).unwrap(), 750);
    assert_eq!(allocations.get(1).unwrap(), 250);

    // Verify event topic
    let events = env.events().all();
    let last = events.last().unwrap();
    let topic: Symbol = last.1.get(0).unwrap().try_into_val(&env).unwrap();
    assert_eq!(topic, Symbol::new(&env, "msigtrx"));
}

#[test]
fn test_multisig_transfer_admin_single_party_emits_event() {
    let env = Env::default();
    env.mock_all_auths();

    let (admin_addr, _, _, _, _, _, client) = setup_multisig_env(&env);

    let ratios = list(&env, [1_i128]);
    let allocations = client.multisig_transfer_admin(&admin_addr, &500_i128, &ratios);

    assert_eq!(allocations.len(), 1);
    assert_eq!(allocations.get(0).unwrap(), 500);

    let events = env.events().all();
    assert!(!events.is_empty());
    let last = events.last().unwrap();
    let topic: Symbol = last.1.get(0).unwrap().try_into_val(&env).unwrap();
    assert_eq!(topic, Symbol::new(&env, "msigtrx"));
}

#[test]
fn test_multisig_transfer_admin_zero_total_emits_no_event() {
    let env = Env::default();
    env.mock_all_auths();

    let (admin_addr, _, _, _, _, _, client) = setup_multisig_env(&env);

    let ratios = list(&env, [1_i128, 1_i128]);
    let result = client.try_multisig_transfer_admin(&admin_addr, &0_i128, &ratios);
    assert_eq!(result, Err(Ok(Error::InvalidAmount)));

    // No events should have been emitted for a rejected call.
    let events = env.events().all();
    assert!(events.is_empty(), "no events expected on failed call");
}

#[test]
fn test_cancel_escrow_succeeds_with_positive_balance() {
    let env = Env::default();
    env.mock_all_auths();

    let amounts = list(&env, [5_000_i128]);
    let (client_addr, _, _, _, _, _, client) = setup_funded_escrow(&env, amounts);

    // Balance is positive — cancel should succeed.
    client.cancel_escrow(&client_addr);

    // Verify the cancel event was emitted exactly once.
    let cancel_topic_val: Val = Symbol("cancel").into_val(&env);
    let mut cancel_events = 0u32;
    for event in env.events().all().iter() {
        if let Some(topic) = event.1.get(0) {
            if topic.get_payload() == cancel_topic_val.get_payload() {
                cancel_events += 1;
            }
        }
    }
    assert_eq!(cancel_events, 1);
}

#[test]
fn test_cancel_escrow_rejected_when_balance_zero_after_full_release() {
    let env = Env::default();
    env.mock_all_auths();

    let amounts = list(&env, [3_000_i128, 7_000_i128]);
    let (client_addr, freelancer_addr, _, _, _token_contract_id, contract_id, client) =
        setup_funded_escrow(&env, amounts);

    // Release all milestones so the contract balance drops to zero.
    client.mark_delivered(&freelancer_addr, &0u32);
    client.approve_milestone(&client_addr, &0u32);
    client.mark_delivered(&freelancer_addr, &1u32);
    client.approve_milestone(&client_addr, &1u32);

    // Contract balance is now zero.
    let token_client = TokenClient::new(&env, &_token_contract_id);
    assert_eq!(token_client.balance(&contract_id), 0);

    let result = client.try_cancel_escrow(&client_addr);
    assert_eq!(result, Err(Ok(Error::InvalidAmount)));
}

#[test]
fn test_cancel_escrow_rejected_when_balance_drained_externally() {
    let env = Env::default();
    env.mock_all_auths();

    let client_addr = Address::generate(&env);
    let freelancer_addr = Address::generate(&env);
    let arbiter_addr = Address::generate(&env);
    let admin_addr = Address::generate(&env);

    let token_contract_id = env.register(MockToken, ());
    let token = MockTokenClient::new(&env, &token_contract_id);
    token.mint(&client_addr, &10_000_i128);

    let contract_id = env.register(MilestoneEscrow, ());
    let escrow_client = MilestoneEscrowClient::new(&env, &contract_id);

    let amounts = list(&env, [10_000_i128]);
    escrow_client.initialize(
        &admin_addr,
        &client_addr,
        &freelancer_addr,
        &arbiter_addr,
        &token_contract_id,
        &604800,
        &amounts,
    );
    escrow_client.fund(&client_addr);

    // Externally drain the contract's entire balance.
    token.transfer(&contract_id, &client_addr, &10_000_i128);
    assert_eq!(token.balance(&contract_id), 0);

    let result = escrow_client.try_cancel_escrow(&client_addr);
    assert_eq!(result, Err(Ok(Error::InvalidAmount)));
}

#[test]
fn test_cancel_escrow_rejected_when_balance_drained_to_exact_zero() {
    let env = Env::default();
    env.mock_all_auths();

    let client_addr = Address::generate(&env);
    let freelancer_addr = Address::generate(&env);
    let arbiter_addr = Address::generate(&env);
    let admin_addr = Address::generate(&env);

    let token_contract_id = env.register(MockToken, ());
    let token = MockTokenClient::new(&env, &token_contract_id);
    token.mint(&client_addr, &5_000_i128);

    let contract_id = env.register(MilestoneEscrow, ());
    let escrow_client = MilestoneEscrowClient::new(&env, &contract_id);

    let amounts = list(&env, [5_000_i128]);
    escrow_client.initialize(
        &admin_addr,
        &client_addr,
        &freelancer_addr,
        &arbiter_addr,
        &token_contract_id,
        &604800,
        &amounts,
    );
    escrow_client.fund(&client_addr);
    assert_eq!(token.balance(&contract_id), 5_000);

    // Drain exactly the funded amount.
    token.transfer(&contract_id, &admin_addr, &5_000_i128);
    assert_eq!(token.balance(&contract_id), 0);

    let result = escrow_client.try_cancel_escrow(&client_addr);
    assert_eq!(result, Err(Ok(Error::InvalidAmount)));
}

#[test]
fn test_cancel_escrow_before_initialize_fails() {
    let env = Env::default();
    env.mock_all_auths();

    let client_addr = Address::generate(&env);
    let contract_id = env.register(MilestoneEscrow, ());
    let client = MilestoneEscrowClient::new(&env, &contract_id);

    let result = client.try_cancel_escrow(&client_addr);
    assert_eq!(result, Err(Ok(Error::NotInitialized)));
}

#[test]
fn test_cancel_escrow_before_fund_fails() {
    let env = Env::default();
    env.mock_all_auths();

    let client_addr = Address::generate(&env);
    let freelancer_addr = Address::generate(&env);
    let arbiter_addr = Address::generate(&env);
    let admin_addr = Address::generate(&env);
    let token_contract_id = env
        .register_stellar_asset_contract_v2(admin_addr.clone())
        .address();

    let contract_id = env.register(MilestoneEscrow, ());
    let client = MilestoneEscrowClient::new(&env, &contract_id);

    let amounts = list(&env, [1_000_i128]);
    client.initialize(
        &admin_addr,
        &client_addr,
        &freelancer_addr,
        &arbiter_addr,
        &token_contract_id,
        &604800,
        &amounts,
    );

    let result = client.try_cancel_escrow(&client_addr);
    assert_eq!(result, Err(Ok(Error::NotFunded)));
}

#[test]
fn test_cancel_escrow_unauthorized_caller_fails() {
    let env = Env::default();
    env.mock_all_auths();

    let amounts = list(&env, [1_000_i128]);
    let (_, _, _, _, _, _, client) = setup_funded_escrow(&env, amounts);

    let bad_actor = Address::generate(&env);
    let result = client.try_cancel_escrow(&bad_actor);
    assert!(result.is_err());
}

#[test]
fn test_cancel_escrow_zero_address_fails() {
    let env = Env::default();
    env.mock_all_auths();

    let amounts = list(&env, [1_000_i128]);
    let (_, _, _, _, _, _, client) = setup_funded_escrow(&env, amounts);

    let zero_account = Address::from_str(
        &env,
        "GAAAAAAAAAAAAAAAAAAAAAAAAAAAAAAAAAAAAAAAAAAAAAAAAAAAAWHF",
    );
    let result = client.try_cancel_escrow(&zero_account);
    assert_eq!(result, Err(Ok(Error::InvalidAddress)));
}

#[test]
fn test_cancel_escrow_zero_contract_address_fails() {
    let env = Env::default();
    env.mock_all_auths();

    let amounts = list(&env, [1_000_i128]);
    let (_, _, _, _, _, _, client) = setup_funded_escrow(&env, amounts);

    let zero_contract = Address::from_str(
        &env,
        "CAAAAAAAAAAAAAAAAAAAAAAAAAAAAAAAAAAAAAAAAAAAAAAAAAAABSC4",
    );
    let result = client.try_cancel_escrow(&zero_contract);
    assert_eq!(result, Err(Ok(Error::InvalidAddress)));
}

#[test]
fn test_cancel_escrow_emits_structured_event() {
    let env = Env::default();
    env.mock_all_auths();

    let amounts = list(&env, [2_000_i128]);
    let (client_addr, _, _, _, token_contract_id, contract_id, client) =
        setup_funded_escrow(&env, amounts);

    client.cancel_escrow(&client_addr);

    let cancel_topic: Symbol = Symbol("cancel");
    let cancel_topic_val: Val = cancel_topic.into_val(&env);
    let mut cancel_events = 0u32;
    for event in env.events().all().iter() {
        if let Some(topic) = event.1.get(0) {
            if topic.get_payload() == cancel_topic_val.get_payload() {
                cancel_events += 1;
                assert_eq!(event.1.len(), 1);
                assert_eq!(
                    CancelEscrowInitiatedEvent::from_val(&env, &event.2),
                    CancelEscrowInitiatedEvent {
                        contract_id: contract_id.clone(),
                        caller: client_addr.clone(),
                    }
                );
            }
        }
    }
    assert_eq!(cancel_events, 1);
}

#[test]
fn test_cancel_escrow_freelancer_can_cancel() {
    let env = Env::default();
    env.mock_all_auths();

    let amounts = list(&env, [4_000_i128]);
    let (_, freelancer_addr, _, _, _, _, client) = setup_funded_escrow(&env, amounts);

    client.cancel_escrow(&freelancer_addr);

    // Verify the cancel event was emitted.
    let cancel_topic_val: Val = Symbol("cancel").into_val(&env);
    let mut cancel_events = 0u32;
    for event in env.events().all().iter() {
        if let Some(topic) = event.1.get(0) {
            if topic.get_payload() == cancel_topic_val.get_payload() {
                cancel_events += 1;
            }
        }
    }
    assert_eq!(cancel_events, 1);
}

#[test]
fn test_cancel_escrow_succeeds_with_partial_balance() {
    let env = Env::default();
    env.mock_all_auths();

    let client_addr = Address::generate(&env);
    let freelancer_addr = Address::generate(&env);
    let arbiter_addr = Address::generate(&env);
    let admin_addr = Address::generate(&env);

    let token_contract_id = env.register(MockToken, ());
    let token = MockTokenClient::new(&env, &token_contract_id);
    token.mint(&client_addr, &10_000_i128);

    let contract_id = env.register(MilestoneEscrow, ());
    let escrow_client = MilestoneEscrowClient::new(&env, &contract_id);

    let amounts = list(&env, [10_000_i128]);
    escrow_client.initialize(
        &admin_addr,
        &client_addr,
        &freelancer_addr,
        &arbiter_addr,
        &token_contract_id,
        &604800,
        &amounts,
    );
    escrow_client.fund(&client_addr);

    // Drain some but not all funds — balance remains positive.
    token.transfer(&contract_id, &admin_addr, &7_000_i128);
    assert_eq!(token.balance(&contract_id), 3_000);

    // Cancel should still succeed because balance > 0.
    escrow_client.cancel_escrow(&client_addr);
}

#[test]
fn test_cancel_escrow_empty_balance_emits_no_event() {
    let env = Env::default();
    env.mock_all_auths();

    let client_addr = Address::generate(&env);
    let freelancer_addr = Address::generate(&env);
    let arbiter_addr = Address::generate(&env);
    let admin_addr = Address::generate(&env);

    let token_contract_id = env.register(MockToken, ());
    let token = MockTokenClient::new(&env, &token_contract_id);
    token.mint(&client_addr, &10_000_i128);

    let contract_id = env.register(MilestoneEscrow, ());
    let escrow_client = MilestoneEscrowClient::new(&env, &contract_id);

    let amounts = list(&env, [10_000_i128]);
    escrow_client.initialize(
        &admin_addr,
        &client_addr,
        &freelancer_addr,
        &arbiter_addr,
        &token_contract_id,
        &604800,
        &amounts,
    );
    escrow_client.fund(&client_addr);

    // Drain all funds.
    token.transfer(&contract_id, &client_addr, &10_000_i128);

    let result = escrow_client.try_cancel_escrow(&client_addr);
    assert_eq!(result, Err(Ok(Error::InvalidAmount)));

    // No cancel events should have been emitted.
    let cancel_topic_val: Val = Symbol("cancel").into_val(&env);
    let cancel_events = env.events().all().iter().fold(0u32, |acc, event| {
        if let Some(topic) = event.1.get(0) {
            if topic.get_payload() == cancel_topic_val.get_payload() {
                return acc + 1;
            }
        }
        acc
    });
    assert_eq!(cancel_events, 0);
}

#[test]
fn test_platform_fee_allocation_preserves_value_with_largest_remainders() {
    let env = Env::default();
    env.mock_all_auths();

    let (admin, client_addr, freelancer_addr, token, auto_release) = setup_test_env(&env);
    let arbiter = Address::generate(&env);
    let contract_id = env.register(MilestoneEscrow, ());
    let client = MilestoneEscrowClient::new(&env, &contract_id);
    client.initialize(
        &admin,
        &client_addr,
        &freelancer_addr,
        &arbiter,
        &token,
        &auto_release,
        &list(&env, [1_000_i128]),
    );

    client.set_platform_fee_allocation(&admin, &3333, &3333, &3334);
    let distribution = client.calculate_platform_fee_split(&2_i128);
    assert_eq!(distribution.client_amount, 1);
    assert_eq!(distribution.freelancer_amount, 0);
    assert_eq!(distribution.treasury_amount, 1);
    assert_eq!(
        distribution.client_amount + distribution.freelancer_amount + distribution.treasury_amount,
        2
    );

    let zero = client.calculate_platform_fee_split(&0_i128);
    assert_eq!(
        zero.client_amount + zero.freelancer_amount + zero.treasury_amount,
        0
    );
    let negative = client.try_calculate_platform_fee_split(&-1_i128);
    assert_eq!(negative, Err(Ok(Error::InvalidAmount)));
}

#[test]
fn test_admin_tax_withholding_deductions_zero_balance_fails() {
    let env = Env::default();
    env.mock_all_auths();

    let milestone_amounts = list(&env, [1000_i128]);
    let (_, _, _, admin_addr, token_contract_id, contract_id, client) =
        setup_funded_escrow(&env, milestone_amounts);

    // Empty the contract balance by transferring all tokens out
    let token_client = TokenClient::new(&env, &token_contract_id);
    token_client.transfer(&contract_id, &Address::generate(&env), &1000_i128);

    // Call admin_tax_withholding_deductions (should fail with InvalidAmount)
    let res = client.try_admin_tax_withholding_deductions(&admin_addr, &0u32, &1000u32);
    assert_eq!(res, Err(Ok(Error::InvalidAmount)));
}

#[test]
fn test_tax_withholding_deductions_conserves_value_across_rates() {
    let env = Env::default();
    env.mock_all_auths();

    let milestone_amounts = list(&env, [1_000_000_i128]);
    let (_, _, _, _, _, _, client) = setup_funded_escrow(&env, milestone_amounts);

    // tax_amount + net_amount must equal gross_amount exactly for every rate,
    // including rates that do not divide the gross amount evenly (37 bps,
    // 3_333 bps, 6_667 bps) — no value may be created or destroyed by the
    // split, regardless of rounding.
    for tax_rate_bps in [0u32, 1, 37, 2_500, 3_333, 5_000, 6_667, 9_999, 10_000] {
        let record = client.tax_withholding_deductions(&0u32, &tax_rate_bps);
        assert_eq!(
            record.tax_amount + record.net_amount,
            record.gross_amount,
            "value lost/gained at tax_rate_bps={tax_rate_bps}"
        );
        assert_eq!(record.gross_amount, 1_000_000);
        assert_eq!(record.tax_rate_bps, tax_rate_bps);
        assert!(record.tax_amount >= 0 && record.net_amount >= 0);
    }
}

#[test]
fn test_tax_withholding_deductions_rounds_to_nearest_not_down() {
    let env = Env::default();
    env.mock_all_auths();

    let milestone_amounts = list(&env, [3_i128]);
    let (_, _, _, _, _, _, client) = setup_funded_escrow(&env, milestone_amounts);

    // gross=3, rate=50% (5_000 bps): exact tax is 1.5, which must round to
    // the nearest integer (2) rather than truncate down to 1 the way plain
    // floor division (gross * rate / BPS_SCALE) would.
    let record = client.tax_withholding_deductions(&0u32, &5_000u32);
    assert_eq!(record.tax_amount, 2);
    assert_eq!(record.net_amount, 1);
    assert_eq!(record.tax_amount + record.net_amount, 3);
}

#[test]
fn test_tax_withholding_deductions_rounds_down_when_fraction_is_below_half() {
    let env = Env::default();
    env.mock_all_auths();

    let milestone_amounts = list(&env, [100_i128]);
    let (_, _, _, _, _, _, client) = setup_funded_escrow(&env, milestone_amounts);

    // gross=100, rate=12.49% (1_249 bps): exact tax is 12.49, which rounds
    // down to 12 — proving the split rounds to the nearest integer rather
    // than always rounding up (a ceiling would incorrectly give 13).
    let record = client.tax_withholding_deductions(&0u32, &1_249u32);
    assert_eq!(record.tax_amount, 12);
    assert_eq!(record.net_amount, 88);
}

#[test]
fn test_tax_withholding_deductions_zero_rate_withholds_nothing() {
    let env = Env::default();
    env.mock_all_auths();

    let milestone_amounts = list(&env, [1_000_i128]);
    let (_, _, _, _, _, _, client) = setup_funded_escrow(&env, milestone_amounts);

    let record = client.tax_withholding_deductions(&0u32, &0u32);
    assert_eq!(record.tax_amount, 0);
    assert_eq!(record.net_amount, 1_000);
}

#[test]
fn test_tax_withholding_deductions_full_rate_withholds_everything() {
    let env = Env::default();
    env.mock_all_auths();

    let milestone_amounts = list(&env, [1_000_i128]);
    let (_, _, _, _, _, _, client) = setup_funded_escrow(&env, milestone_amounts);

    let record = client.tax_withholding_deductions(&0u32, &10_000u32);
    assert_eq!(record.tax_amount, 1_000);
    assert_eq!(record.net_amount, 0);
}

#[test]
fn test_tax_withholding_deductions_rejects_rate_above_100_percent() {
    let env = Env::default();
    env.mock_all_auths();

    let milestone_amounts = list(&env, [1_000_i128]);
    let (_, _, _, _, _, _, client) = setup_funded_escrow(&env, milestone_amounts);

    let result = client.try_tax_withholding_deductions(&0u32, &10_001u32);
    assert_eq!(result, Err(Ok(Error::InvalidRatio)));
}

#[test]
fn test_tax_withholding_deductions_conserves_value_at_smallest_unit() {
    let env = Env::default();
    env.mock_all_auths();

    let milestone_amounts = list(&env, [1_i128]);
    let (_, _, _, _, _, _, client) = setup_funded_escrow(&env, milestone_amounts);

    // Even at the smallest indivisible unit, every rate must still conserve
    // the total exactly and never produce a negative or out-of-range part.
    for tax_rate_bps in [0u32, 1, 4_999, 5_000, 5_001, 9_999, 10_000] {
        let record = client.tax_withholding_deductions(&0u32, &tax_rate_bps);
        assert_eq!(record.tax_amount + record.net_amount, 1);
        assert!(record.tax_amount == 0 || record.tax_amount == 1);
        assert!(record.net_amount == 0 || record.net_amount == 1);
    }
}

#[test]
fn test_tax_withholding_deductions_independent_across_milestones() {
    let env = Env::default();
    env.mock_all_auths();

    let milestone_amounts = list(&env, [400_i128, 600_i128]);
    let (_, _, _, _, _, _, client) = setup_funded_escrow(&env, milestone_amounts);

    let record_a = client.tax_withholding_deductions(&0u32, &2_500u32);
    let record_b = client.tax_withholding_deductions(&1u32, &7_500u32);

    assert_eq!(record_a.gross_amount, 400);
    assert_eq!(record_a.tax_amount, 100);
    assert_eq!(record_a.net_amount, 300);

    assert_eq!(record_b.gross_amount, 600);
    assert_eq!(record_b.tax_amount, 450);
    assert_eq!(record_b.net_amount, 150);
}

#[test]
fn test_admin_override_cancel_release_unauthorized_fails() {
    let env = Env::default();
    env.mock_all_auths();

    let (_, _, _, _, _, _, client) = setup_funded_escrow(&env, list(&env, [1_000_i128]));

    let attacker = Address::generate(&env);
    let result = client.try_admin_override_cancel_release(&attacker);
    assert_eq!(result, Err(Ok(Error::Unauthorized)));
}

#[test]
fn test_admin_override_cancel_release_illegal_source_state_fails() {
    let env = Env::default();
    env.mock_all_auths();

    let (_, _, _, admin_addr, _, _, client) = setup_funded_escrow(&env, list(&env, [1_000_i128]));

    // Escrow is funded but NOT cancel locked (illegal source state)
    let result = client.try_admin_override_cancel_release(&admin_addr);
    assert_eq!(result, Err(Ok(Error::InvalidStatus)));
}

#[test]
fn test_multisig_split_refund_unauthorized_fails() {
    let env = Env::default();
    env.mock_all_auths();

    let (_, _, _, admin_addr, _, _, client) = setup_funded_escrow(&env, list(&env, [1_000_i128]));
    client.multisig_lock(&admin_addr);

    let attacker = Address::generate(&env);
    let result = client.try_multisig_split_refund(&attacker, &1_000_i128, &5_000_u32, &5_000_u32);
    assert_eq!(result, Err(Ok(Error::Unauthorized)));
}

#[test]
fn test_multisig_split_refund_illegal_source_state_fails() {
    let env = Env::default();
    env.mock_all_auths();

    let (_, _, _, admin_addr, _, _, client) = setup_funded_escrow(&env, list(&env, [1_000_i128]));

    // Escrow is funded but NOT multisig locked (illegal source state)
    let result = client.try_multisig_split_refund(&admin_addr, &1_000_i128, &5_000_u32, &5_000_u32);
    assert_eq!(result, Err(Ok(Error::InvalidStatus)));
}

#[test]
fn test_cancel_escrow_all_milestones_released_still_succeeds() {
    let env = Env::default();
    env.mock_all_auths();

    let amounts = list(&env, [5_000_i128]);
    let (client_addr, freelancer_addr, _, _, token_id, contract_id, escrow) =
        setup_funded_escrow(&env, amounts);

    escrow.mark_delivered(&freelancer_addr, &0u32);
    escrow.approve_milestone(&client_addr, &0u32);

    let token = TokenClient::new(&env, &token_id);
    assert_eq!(token.balance(&contract_id), 0);

    // All milestones released — contract balance is zero, so cancel must
    // return InvalidAmount rather than succeed.
    let result = escrow.try_cancel_escrow(&client_addr);
    assert_eq!(result, Err(Ok(Error::InvalidAmount)));
}

#[test]
fn test_cancel_release_happy_path_no_temporary_released_flag() {
    let env = Env::default();
    env.mock_all_auths();

    let (_, freelancer_addr, _, admin_addr, token_id, contract_id, client) =
        setup_funded_escrow(&env, list(&env, [3_000_i128, 7_000_i128]));

    client.cancel_escrow(&freelancer_addr);

    let token = TokenClient::new(&env, &token_id);
    let freelancer_before = token.balance(&freelancer_addr);
    let contract_before = token.balance(&client.address);

    client.admin_override_cancel_release(&admin_addr);

    // token balances
    assert_eq!(token.balance(&freelancer_addr), freelancer_before + 10_000);
    assert_eq!(token.balance(&client.address), contract_before - 10_000);

    // milestone persistent state
    let job = client.get_job();
    for idx in 0..2u32 {
        let ms = job.milestones.get(idx as usize).unwrap();
        assert_eq!(ms.status, MilestoneStatus::Released);
        assert_eq!(ms.released_amount, ms.amount);
    }

    // CancelLock cleared
    let still_locked: bool = env.as_contract(&contract_id, || {
        env.storage()
            .instance()
            .get(&DataKey::CancelLock)
            .unwrap_or(false)
    });
    assert!(!still_locked);

    for idx in 0..2u32 {
        let flag: Option<bool> = env.as_contract(&contract_id, || {
            env.storage()
                .temporary()
                .get(&DataKey::MilestoneReleased(idx))
        });
        assert_eq!(flag, None);
    }
}

#[test]
fn test_cancel_release_skips_terminal_milestones_no_flag() {
    let env = Env::default();
    env.mock_all_auths();

    let amounts = list(&env, [2_000_i128, 3_000_i128, 5_000_i128]);
    let (client_addr, freelancer_addr, _, admin_addr, token_id, contract_id, client) =
        setup_funded_escrow(&env, amounts);

    // Approve milestone 0 via normal path so it becomes Released.
    client.mark_delivered(&freelancer_addr, &0u32);
    client.approve_milestone(&client_addr, &0u32);

    client.cancel_escrow(&client_addr);

    let token = TokenClient::new(&env, &token_id);
    let freelancer_before = token.balance(&freelancer_addr);

    client.admin_override_cancel_release(&admin_addr);

    // Only milestones 1 and 2 (8_000 total) transferred.
    assert_eq!(token.balance(&freelancer_addr), freelancer_before + 8_000);

    // Milestones 1 and 2 must not have the temporary released flag.
    for idx in 1..3u32 {
        let flag: Option<bool> = env.as_contract(&contract_id, || {
            env.storage()
                .temporary()
                .get(&DataKey::MilestoneReleased(idx))
        });
        assert_eq!(flag, None);
    }
}

#[test]
fn test_cancel_release_requires_cancel_lock() {
    let env = Env::default();
    env.mock_all_auths();

    let (_, _, _, admin_addr, _, _, client) =
        setup_funded_escrow(&env, list(&env, [1_000_i128]));

    let result = client.try_admin_override_cancel_release(&admin_addr);
    assert_eq!(result, Err(Ok(Error::InvalidStatus)));
}

#[test]
fn test_cancel_release_unauthorized_caller_rejected() {
    let env = Env::default();
    env.mock_all_auths();

    let (client_addr, _, _, _, _, _, client) =
        setup_funded_escrow(&env, list(&env, [1_000_i128]));
    client.cancel_escrow(&client_addr);

    let attacker = Address::generate(&env);
    let result = client.try_admin_override_cancel_release(&attacker);
    assert_eq!(result, Err(Ok(Error::Unauthorized)));
}

#[test]
fn test_cancel_release_resets_yield_accrued() {
    let env = Env::default();
    env.mock_all_auths();

    let (client_addr, _, _, admin_addr, _, contract_id, client) =
        setup_funded_escrow(&env, list(&env, [5_000_i128]));
    client.cancel_escrow(&client_addr);
    client.admin_override_cancel_release(&admin_addr);

    let yield_after: i128 = env.as_contract(&contract_id, || {
        env.storage()
            .persistent()
            .get(&DataKey::YieldAccrued)
            .unwrap_or(0_i128)
    });
    assert_eq!(yield_after, 0);
}
