//! Setting a job up and funding it, and what can be read of it.

use crate::address::{is_zero, Address};
use crate::allocation::{ints, sum, sum_to};
use crate::amounts::Amounts;
use crate::events::{Event, EventView, FundedEvent, InitializedEvent};
use crate::guards::{after, everyday_refusal, outcome};
use crate::ledger::{or_default, EffectView, Env, Instance, Ledger, Persistent};
use crate::tables::lookup;
use crate::types::{
    Error, Job, JobMeta, Milestone, MilestoneEscrow, MilestoneStatus, PlatformFeeAllocation,
    BPS_SCALE,
};
use vstd::prelude::*;

verus! {

/// An address that can take part in a job.
pub open spec fn can_take_part(l: Ledger, address: Address) -> bool {
    !is_zero(address) && address != l.contract
}

/// The prices of the milestones: at least one, all positive, and their sum in
/// range.
pub open spec fn prices_valid(amounts: Seq<i128>) -> bool {
    &&& amounts.len() > 0
    &&& forall|i: int| 0 <= i < amounts.len() ==> (#[trigger] amounts[i]) > 0
    &&& sum(ints(amounts)) <= i128::MAX
}

/// A milestone on which nothing has happened yet.
pub open spec fn fresh_milestone(amount: i128) -> Milestone {
    Milestone { amount, released_amount: 0, status: MilestoneStatus::Pending, delivered_at: 0 }
}

/// The first `n` milestones of a new job.
pub open spec fn fresh_milestones(amounts: Seq<i128>, n: nat) -> Map<u32, Milestone> {
    Map::new(|i: u32| i < n, |i: u32| fresh_milestone(amounts[i as int]))
}

/// The shares of the fee of a new job: all of it is the freelancer's.
pub open spec fn default_fee() -> PlatformFeeAllocation {
    PlatformFeeAllocation {
        client_bps: 0,
        freelancer_bps: BPS_SCALE,
        treasury_bps: 0,
        locked: false,
    }
}

/// Why `initialize` is refused, if it is.
pub open spec fn initialize_refusal(
    l: Ledger,
    admin: Address,
    client: Address,
    freelancer: Address,
    arbiter: Address,
    token: Address,
    auto_release_seconds: u64,
    milestone_amounts: Seq<i128>,
) -> Option<Error> {
    if l.instance.job is Some {
        Some(Error::AlreadyInitialized)
    } else if !(can_take_part(l, admin) && can_take_part(l, client) && can_take_part(l, freelancer)
        && can_take_part(l, arbiter) && can_take_part(l, token)) {
        Some(Error::InvalidAddress)
    } else if !prices_valid(milestone_amounts) || auto_release_seconds == 0 {
        Some(Error::InvalidAmount)
    } else {
        None
    }
}

/// What `initialize` makes of the ledger.
pub open spec fn initialize_step(
    l: Ledger,
    admin: Address,
    client: Address,
    freelancer: Address,
    arbiter: Address,
    token: Address,
    auto_release_seconds: u64,
    milestone_amounts: Seq<i128>,
) -> Ledger {
    let count = milestone_amounts.len();
    let total = sum(ints(milestone_amounts)) as i128;
    after(
        initialize_refusal(
            l,
            admin,
            client,
            freelancer,
            arbiter,
            token,
            auto_release_seconds,
            milestone_amounts,
        ),
        l.asked(admin),
        l.asked(admin).with_instance(
            Instance {
                job: Some(
                    JobMeta {
                        client,
                        freelancer,
                        arbiter,
                        token,
                        funded: false,
                        auto_release_seconds,
                        milestone_count: count as u32,
                        total_amount: total,
                    },
                ),
                instance_admin: Some(admin),
                version: Some(1),
                whitelist: Some(seq![token]),
                emergency_paused: Some(false),
                platform_fee: Some(default_fee()),
                ..l.instance
            },
        ).with_persistent(
            Persistent {
                admin: Some(admin),
                milestones: l.persistent.milestones.union_prefer_right(
                    fresh_milestones(milestone_amounts, count),
                ),
                ..l.persistent
            },
        ).with(
            EffectView::Publish(
                EventView::Initialized {
                    client,
                    freelancer,
                    arbiter,
                    token,
                    auto_release_seconds,
                    milestone_amounts,
                    total_amount: total,
                    milestone_count: count as u32,
                },
            ),
        ),
    )
}

/// The prices of the first `n` milestones, added up; or what is wrong with the
/// first of them that cannot be added.
pub open spec fn tally(milestones: Map<u32, Milestone>, n: u32) -> Result<int, Error>
    decreases n,
{
    if n == 0 {
        Ok(0)
    } else {
        match tally(milestones, (n - 1) as u32) {
            Err(error) => Err(error),
            Ok(total) => match lookup(milestones, (n - 1) as u32) {
                None => Err(Error::InvalidMilestone),
                Some(milestone) => if milestone.amount > 0 && total + milestone.amount
                    <= i128::MAX {
                    Ok(total + milestone.amount)
                } else {
                    Err(Error::InvalidAmount)
                },
            },
        }
    }
}

/// What is wrong with the milestones of a job that is to be funded: they must
/// all be there and sum to the job's total.
pub open spec fn funding_refusal(l: Ledger, job: JobMeta) -> Option<Error> {
    match tally(l.persistent.milestones, job.milestone_count) {
        Err(error) => Some(error),
        Ok(total) => if total != job.total_amount || total <= 0 {
            Some(Error::InvalidAmount)
        } else {
            None
        },
    }
}

/// What refuses `fund` before the client's signature is demanded.
pub open spec fn fund_gate(l: Ledger, client: Address) -> Option<Error> {
    if everyday_refusal(l) is Some {
        everyday_refusal(l)
    } else if is_zero(client) || client == l.contract {
        Some(Error::InvalidAddress)
    } else {
        None
    }
}

/// Why `fund` is refused, if it is.
pub open spec fn fund_refusal(l: Ledger, client: Address) -> Option<Error> {
    if fund_gate(l, client) is Some {
        fund_gate(l, client)
    } else if l.instance.job is None {
        Some(Error::NotInitialized)
    } else if l.instance.job->0.funded {
        Some(Error::AlreadyFunded)
    } else if l.instance.job->0.client != client {
        Some(Error::Unauthorized)
    } else {
        funding_refusal(l, l.instance.job->0)
    }
}

/// What `fund` makes of the ledger.
pub open spec fn fund_step(l: Ledger, client: Address) -> Ledger {
    let job = l.instance.job->0;
    let funded = JobMeta { funded: true, ..job };
    after(
        fund_refusal(l, client),
        if fund_gate(l, client) is Some {
            l
        } else {
            l.asked(client)
        },
        l.asked(client).with_instance(Instance { job: Some(funded), ..l.instance }).with(
            EffectView::Transfer {
                token: job.token,
                from: client,
                to: l.contract,
                amount: job.total_amount,
            },
        ).announced(
            Event::Funded(
                FundedEvent {
                    contract_id: l.contract,
                    client,
                    freelancer: job.freelancer,
                    arbiter: job.arbiter,
                    token: job.token,
                    total_amount: job.total_amount,
                    milestone_count: job.milestone_count,
                    auto_release_seconds: job.auto_release_seconds,
                    funded: true,
                },
            ),
        ),
    )
}

/// The first `n` milestones, in order.
pub open spec fn milestones_upto(milestones: Map<u32, Milestone>, n: u32) -> Seq<Milestone> {
    Seq::new(n as nat, |i: int| milestones[i as u32])
}

/// Every one of the first `n` milestones is there.
pub open spec fn all_present(milestones: Map<u32, Milestone>, n: u32) -> bool {
    forall|i: u32| i < n ==> #[trigger] milestones.contains_key(i)
}

/// Among positive amounts the first few sum to no more than the first many.
pub proof fn lemma_prefix_of_positive(amounts: Seq<i128>, n: nat, m: nat)
    requires
        n <= m <= amounts.len(),
        forall|i: int| 0 <= i < amounts.len() ==> (#[trigger] amounts[i]) > 0,
    ensures
        0 <= sum_to(ints(amounts), n) <= sum_to(ints(amounts), m),
        n > 0 ==> sum_to(ints(amounts), n) > 0,
    decreases m,
{
    if n < m {
        lemma_prefix_of_positive(amounts, n, (m - 1) as nat);
    } else if n > 0 {
        lemma_prefix_of_positive(amounts, (n - 1) as nat, (n - 1) as nat);
    }
}

impl MilestoneEscrow {
    /// The sum of the prices, or an error where they are not valid.
    pub(crate) fn checked_initialize_total(milestone_amounts: &Amounts) -> (r: Result<i128, Error>)
        ensures
            r == if prices_valid(milestone_amounts@) {
                Ok(sum(ints(milestone_amounts@)) as i128)
            } else {
                Err(Error::InvalidAmount)
            },
    {
        let count: u32 = milestone_amounts.len();
        if count == 0 {
            return Err(Error::InvalidAmount);
        }
        let mut total_amount: i128 = 0;
        let mut index: u32 = 0;
        while index < count
            invariant
                index <= count == milestone_amounts@.len(),
                0 <= total_amount == sum_to(ints(milestone_amounts@), index as nat),
                forall|i: int| 0 <= i < index ==> (#[trigger] milestone_amounts@[i]) > 0,
            decreases count - index,
        {
            proof {
                if prices_valid(milestone_amounts@) {
                    lemma_prefix_of_positive(
                        milestone_amounts@,
                        (index + 1) as nat,
                        milestone_amounts@.len(),
                    );
                }
            }
            total_amount = Self::checked_add_amount(total_amount, milestone_amounts.at(index))?;
            index = index + 1;
        }
        Ok(total_amount)
    }

    /// Sets the job up. This can be done once.
    ///
    /// The admin must sign. None of the five addresses may be zero or the
    /// contract itself, the prices must be positive, and so must the time after
    /// which a delivered milestone can be claimed. The job's token is accepted
    /// from the start, and all of the fee is the freelancer's.
    pub fn initialize(
        env: &mut Env,
        admin: Address,
        client: Address,
        freelancer: Address,
        arbiter: Address,
        token: Address,
        auto_release_seconds: u64,
        milestone_amounts: Amounts,
    ) -> (r: Result<(), Error>)
        ensures
            r == outcome(
                initialize_refusal(
                    old(env)@,
                    admin,
                    client,
                    freelancer,
                    arbiter,
                    token,
                    auto_release_seconds,
                    milestone_amounts@,
                ),
                (),
            ),
            final(env)@ == initialize_step(
                old(env)@,
                admin,
                client,
                freelancer,
                arbiter,
                token,
                auto_release_seconds,
                milestone_amounts@,
            ),
    {
        env.require_auth(admin);
        if env.job.is_some() {
            return Err(Error::AlreadyInitialized);
        }
        Self::validate_address(env, admin)?;
        Self::validate_address(env, client)?;
        Self::validate_address(env, freelancer)?;
        Self::validate_address(env, arbiter)?;
        Self::validate_address(env, token)?;
        let milestone_count: u32 = milestone_amounts.len();
        let total_amount: i128 = Self::checked_initialize_total(&milestone_amounts)?;
        if auto_release_seconds == 0 {
            return Err(Error::InvalidAmount);
        }
        let ghost start = env@;
        let ghost prices = milestone_amounts@;
        let mut index: u32 = 0;
        assert(start.persistent.milestones =~= start.persistent.milestones.union_prefer_right(
            fresh_milestones(prices, 0),
        ));
        while index < milestone_count
            invariant
                index <= milestone_count == milestone_amounts@.len(),
                prices == milestone_amounts@,
                env@ == start.with_persistent(
                    (Persistent {
                        milestones: start.persistent.milestones.union_prefer_right(
                            fresh_milestones(prices, index as nat),
                        ),
                        ..start.persistent
                    }),
                ),
            decreases milestone_count - index,
        {
            let amount: i128 = milestone_amounts.at(index);
            Self::store_milestone(
                env,
                index,
                Milestone {
                    amount,
                    released_amount: 0,
                    status: MilestoneStatus::Pending,
                    delivered_at: 0,
                },
            );
            assert(env@.persistent.milestones =~= start.persistent.milestones.union_prefer_right(
                fresh_milestones(prices, (index + 1) as nat),
            ));
            index = index + 1;
        }
        let mut whitelist: Vec<Address> = Vec::new();
        whitelist.push(token);
        assert(whitelist@ =~= seq![token]);
        env.instance_admin = Some(admin);
        env.emergency_paused = Some(false);
        env.platform_fee = Some(
            PlatformFeeAllocation {
                client_bps: 0,
                freelancer_bps: BPS_SCALE,
                treasury_bps: 0,
                locked: false,
            },
        );
        env.whitelist = Some(whitelist);
        env.admin = Some(admin);
        env.version = Some(1);
        env.job = Some(
            JobMeta {
                client,
                freelancer,
                arbiter,
                token,
                funded: false,
                auto_release_seconds,
                milestone_count,
                total_amount,
            },
        );
        env.publish(
            Event::Initialized(
                InitializedEvent {
                    client,
                    freelancer,
                    arbiter,
                    token,
                    auto_release_seconds,
                    milestone_amounts,
                    total_amount,
                    milestone_count,
                },
            ),
        );
        Ok(())
    }

    /// The prices of all milestones, which must be the job's total.
    pub(crate) fn checked_job_total(env: &Env, meta: &JobMeta) -> (r: Result<i128, Error>)
        ensures
            r == match tally(env@.persistent.milestones, meta.milestone_count) {
                Err(error) => Err(error),
                Ok(total) => if total == meta.total_amount {
                    Ok(total as i128)
                } else {
                    Err(Error::InvalidAmount)
                },
            },
    {
        let mut total_amount: i128 = 0;
        let mut index: u32 = 0;
        while index < meta.milestone_count
            invariant
                index <= meta.milestone_count,
                tally(env@.persistent.milestones, index) == Ok::<int, Error>(total_amount as int),
            decreases meta.milestone_count - index,
        {
            proof {
                if tally(env@.persistent.milestones, (index + 1) as u32) is Err {
                    lemma_tally_stays_wrong(
                        env@.persistent.milestones,
                        (index + 1) as u32,
                        meta.milestone_count,
                    );
                }
            }
            let milestone = Self::load_milestone(env, index)?;
            total_amount = Self::checked_add_amount(total_amount, milestone.amount)?;
            index = index + 1;
        }
        if total_amount != meta.total_amount {
            return Err(Error::InvalidAmount);
        }
        Ok(total_amount)
    }

    /// The job's total, which must be positive.
    pub(crate) fn validate_fund_amount(env: &Env, meta: &JobMeta) -> (r: Result<i128, Error>)
        ensures
            r == outcome(funding_refusal(env@, *meta), meta.total_amount),
    {
        let total_amount: i128 = Self::checked_job_total(env, meta)?;
        if total_amount <= 0 {
            return Err(Error::InvalidAmount);
        }
        Ok(total_amount)
    }

    /// The client deposits the price of all milestones, in one transfer.
    pub fn fund(env: &mut Env, client: Address) -> (r: Result<(), Error>)
        ensures
            r == outcome(fund_refusal(old(env)@, client), ()),
            final(env)@ == fund_step(old(env)@, client),
    {
        Self::assert_open_for_business(env)?;
        Self::validate_address(env, client)?;
        env.require_auth(client);
        let mut meta = Self::load_job_meta(env)?;
        if meta.funded {
            return Err(Error::AlreadyFunded);
        }
        if meta.client != client {
            return Err(Error::Unauthorized);
        }
        let total_amount: i128 = Self::validate_fund_amount(env, &meta)?;
        meta.funded = true;
        env.job = Some(meta);
        env.deposit(meta.token, client, total_amount);
        let contract_id = env.contract;
        env.publish(
            Event::Funded(
                FundedEvent {
                    contract_id,
                    client,
                    freelancer: meta.freelancer,
                    arbiter: meta.arbiter,
                    token: meta.token,
                    total_amount,
                    milestone_count: meta.milestone_count,
                    auto_release_seconds: meta.auto_release_seconds,
                    funded: meta.funded,
                },
            ),
        );
        Ok(())
    }

    /// The job with all its milestones.
    pub fn get_job(env: &Env) -> (r: Result<Job, Error>)
        ensures
            match r {
                Ok(job) => {
                    &&& env@.instance.job matches Some(meta)
                    &&& all_present(env@.persistent.milestones, meta.milestone_count)
                    &&& job.client == meta.client
                    &&& job.freelancer == meta.freelancer
                    &&& job.arbiter == meta.arbiter
                    &&& job.token == meta.token
                    &&& job.funded == meta.funded
                    &&& job.auto_release_seconds == meta.auto_release_seconds
                    &&& job.milestones@ == milestones_upto(
                        env@.persistent.milestones,
                        meta.milestone_count,
                    )
                },
                Err(error) => if env@.instance.job is None {
                    error == Error::NotInitialized
                } else {
                    &&& error == Error::InvalidMilestone
                    &&& !all_present(
                        env@.persistent.milestones,
                        env@.instance.job->0.milestone_count,
                    )
                },
            },
    {
        let meta = Self::load_job_meta(env)?;
        Self::assemble_job(env, &meta)
    }

    fn assemble_job(env: &Env, meta: &JobMeta) -> (r: Result<Job, Error>)
        ensures
            match r {
                Ok(job) => {
                    &&& all_present(env@.persistent.milestones, meta.milestone_count)
                    &&& job.client == meta.client
                    &&& job.freelancer == meta.freelancer
                    &&& job.arbiter == meta.arbiter
                    &&& job.token == meta.token
                    &&& job.funded == meta.funded
                    &&& job.auto_release_seconds == meta.auto_release_seconds
                    &&& job.milestones@ == milestones_upto(
                        env@.persistent.milestones,
                        meta.milestone_count,
                    )
                },
                Err(error) => {
                    &&& error == Error::InvalidMilestone
                    &&& !all_present(env@.persistent.milestones, meta.milestone_count)
                },
            },
    {
        let mut milestones: Vec<Milestone> = Vec::new();
        let mut index: u32 = 0;
        while index < meta.milestone_count
            invariant
                index <= meta.milestone_count,
                all_present(env@.persistent.milestones, index),
                milestones@ == milestones_upto(env@.persistent.milestones, index),
            decreases meta.milestone_count - index,
        {
            let milestone = Self::load_milestone(env, index)?;
            milestones.push(milestone);
            index = index + 1;
            assert(milestones@ =~= milestones_upto(env@.persistent.milestones, index));
        }
        Ok(
            Job {
                client: meta.client,
                freelancer: meta.freelancer,
                arbiter: meta.arbiter,
                token: meta.token,
                milestones,
                funded: meta.funded,
                auto_release_seconds: meta.auto_release_seconds,
            },
        )
    }

    /// The reputation of `address`.
    pub fn get_reputation(env: &Env, address: Address) -> (r: u32)
        ensures
            r == env@.reputation_of(address),
    {
        match env.reputation.get(address) {
            Some(points) => points,
            None => 0,
        }
    }

    /// How often the contract's code was replaced, counted from 1.
    pub fn version(env: &Env) -> (r: u32)
        ensures
            r == or_default(env@.instance.version, 1),
    {
        match env.version {
            Some(version) => version,
            None => 1,
        }
    }
}

/// What cannot be added up stays so when more milestones are added.
proof fn lemma_tally_stays_wrong(milestones: Map<u32, Milestone>, n: u32, m: u32)
    requires
        n <= m,
        tally(milestones, n) is Err,
    ensures
        tally(milestones, m) == tally(milestones, n),
    decreases m,
{
    if n < m {
        lemma_tally_stays_wrong(milestones, n, (m - 1) as u32);
    }
}

} // verus!
