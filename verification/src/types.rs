//! The values that the escrow stores and returns.

use crate::address::Address;
use vstd::prelude::*;

verus! {

/// The escrow contract. Its requests are the associated functions.
pub struct MilestoneEscrow;

/// How many basis points make the whole.
pub const BPS_SCALE: u32 = 10_000;

/// The same number, for the interest formula.
pub const BPS_DENOMINATOR: i128 = 10_000;

/// The seconds of a year of 365 days.
pub const SECONDS_PER_YEAR: i128 = 31_536_000;

/// How many tokens can be accepted at a time.
pub const MAX_WHITELIST_SIZE: u32 = 50;

/// How many parties a multisig transfer can name.
pub const MAX_MULTISIG_RATIO_COUNT: u32 = 255;

/// How many parties can share a frozen amount.
pub const MAX_EMERGENCY_ALLOCATION_PARTIES: u32 = 255;

/// How many signers can be registered: one for each bit of the approval map.
pub const MAX_MULTISIG_SIGNERS: u32 = 32;

/// Why a request is refused.
#[derive(Clone, Copy, Debug, PartialEq, Eq, Structural)]
pub enum Error {
    AlreadyInitialized,
    NotInitialized,
    AlreadyFunded,
    NotFunded,
    Unauthorized,
    InvalidMilestone,
    InvalidStatus,
    TokenNotWhitelisted,
    TokenAlreadyWhitelisted,
    InvalidAmount,
    DeadlineNotPassed,
    InvalidAddress,
    Paused,
    InvalidRatio,
    InvalidExtension,
    EscrowLocked,
    MultiSigNoSigners,
    MultiSigTooManySigners,
    MultiSigInvalidThreshold,
    MultiSigDuplicateSigner,
    /// A transfer of the admin role was proposed while another one is pending.
    AdminTransferPending,
    /// There is no pending transfer of the admin role to execute or cancel.
    NoPendingAdminTransfer,
    /// The pending transfer has not collected enough approvals.
    MultiSigThresholdNotMet,
    /// Another request holds the dispute lock of this milestone.
    DisputeAlreadyRaised,
    /// The contract holds no tokens for the signers to decide on.
    MultiSigEmptyBalance,
    /// A tax calculation is running.
    TaxWithholdingInProgress,
    /// A change of the platform fee is running.
    PlatformFeeAllocationInProgress,
    /// A change of the emergency pause is running.
    EmergencyPauseInProgress,
    /// The escrow is already paused.
    AlreadyPaused,
    /// The escrow is not paused.
    NotPaused,
    /// The weights are none, too many, negative, or sum to zero.
    InvalidAllocationWeights,
}

/// The number under which `error` is reported to callers of the contract.
pub open spec fn error_code(error: Error) -> u32 {
    match error {
        Error::AlreadyInitialized => 1,
        Error::NotInitialized => 2,
        Error::AlreadyFunded => 3,
        Error::NotFunded => 4,
        Error::Unauthorized => 5,
        Error::InvalidMilestone => 6,
        Error::InvalidStatus => 7,
        Error::TokenNotWhitelisted => 8,
        Error::TokenAlreadyWhitelisted => 9,
        Error::InvalidAmount => 10,
        Error::DeadlineNotPassed => 11,
        Error::InvalidAddress => 12,
        Error::Paused => 13,
        Error::InvalidRatio => 14,
        Error::InvalidExtension => 15,
        Error::EscrowLocked => 16,
        Error::MultiSigNoSigners => 17,
        Error::MultiSigTooManySigners => 18,
        Error::MultiSigInvalidThreshold => 19,
        Error::MultiSigDuplicateSigner => 20,
        Error::AdminTransferPending => 21,
        Error::NoPendingAdminTransfer => 22,
        Error::MultiSigThresholdNotMet => 23,
        Error::DisputeAlreadyRaised => 24,
        Error::MultiSigEmptyBalance => 25,
        Error::TaxWithholdingInProgress => 26,
        Error::PlatformFeeAllocationInProgress => 27,
        Error::EmergencyPauseInProgress => 28,
        Error::AlreadyPaused => 29,
        Error::NotPaused => 30,
        Error::InvalidAllocationWeights => 31,
    }
}

impl Error {
    /// The number under which this error is reported.
    pub fn code(self) -> (r: u32)
        ensures
            r == error_code(self),
            1 <= r <= 31,
    {
        match self {
            Error::AlreadyInitialized => 1,
            Error::NotInitialized => 2,
            Error::AlreadyFunded => 3,
            Error::NotFunded => 4,
            Error::Unauthorized => 5,
            Error::InvalidMilestone => 6,
            Error::InvalidStatus => 7,
            Error::TokenNotWhitelisted => 8,
            Error::TokenAlreadyWhitelisted => 9,
            Error::InvalidAmount => 10,
            Error::DeadlineNotPassed => 11,
            Error::InvalidAddress => 12,
            Error::Paused => 13,
            Error::InvalidRatio => 14,
            Error::InvalidExtension => 15,
            Error::EscrowLocked => 16,
            Error::MultiSigNoSigners => 17,
            Error::MultiSigTooManySigners => 18,
            Error::MultiSigInvalidThreshold => 19,
            Error::MultiSigDuplicateSigner => 20,
            Error::AdminTransferPending => 21,
            Error::NoPendingAdminTransfer => 22,
            Error::MultiSigThresholdNotMet => 23,
            Error::DisputeAlreadyRaised => 24,
            Error::MultiSigEmptyBalance => 25,
            Error::TaxWithholdingInProgress => 26,
            Error::PlatformFeeAllocationInProgress => 27,
            Error::EmergencyPauseInProgress => 28,
            Error::AlreadyPaused => 29,
            Error::NotPaused => 30,
            Error::InvalidAllocationWeights => 31,
        }
    }
}

/// Different errors are reported under different numbers.
pub proof fn lemma_error_codes_are_distinct(a: Error, b: Error)
    ensures
        error_code(a) == error_code(b) <==> a == b,
{
}

/// Where a milestone stands.
#[derive(Clone, Copy, Debug, PartialEq, Eq, Structural)]
pub enum MilestoneStatus {
    Pending,
    Delivered,
    PartiallyReleased,
    Released,
    Disputed,
    Refunded,
}

/// One piece of work, its price, and how much of the price has been settled.
#[derive(Clone, Copy, Debug, PartialEq, Eq, Structural)]
pub struct Milestone {
    pub amount: i128,
    pub released_amount: i128,
    pub status: MilestoneStatus,
    pub delivered_at: u64,
}

/// A full snapshot of the job.
#[derive(Clone, Debug, PartialEq, Eq)]
pub struct Job {
    pub client: Address,
    pub freelancer: Address,
    pub arbiter: Address,
    pub token: Address,
    pub milestones: Vec<Milestone>,
    pub funded: bool,
    pub auto_release_seconds: u64,
}

/// What is stored of the job besides its milestones.
#[derive(Clone, Copy, Debug, PartialEq, Eq, Structural)]
pub struct JobMeta {
    pub client: Address,
    pub freelancer: Address,
    pub arbiter: Address,
    pub token: Address,
    pub funded: bool,
    pub auto_release_seconds: u64,
    pub milestone_count: u32,
    pub total_amount: i128,
}

/// How an amount is divided between the client and the freelancer.
#[derive(Clone, Copy, Debug, PartialEq, Eq, Structural)]
pub struct RefundAllocation {
    pub client_refund: i128,
    pub freelancer_payout: i128,
    pub client_refund_bps: u32,
    pub freelancer_payout_bps: u32,
}

/// The shares of the platform fee, in basis points.
#[derive(Clone, Copy, Debug, PartialEq, Eq, Structural)]
pub struct PlatformFeeAllocation {
    pub client_bps: u32,
    pub freelancer_bps: u32,
    pub treasury_bps: u32,
    pub locked: bool,
}

/// An amount divided by the shares of a [`PlatformFeeAllocation`].
#[derive(Clone, Copy, Debug, PartialEq, Eq, Structural)]
pub struct PlatformFeeDistribution {
    pub client_amount: i128,
    pub freelancer_amount: i128,
    pub treasury_amount: i128,
}

/// An amount divided in two.
#[derive(Clone, Copy, Debug, PartialEq, Eq, Structural)]
pub struct RatioSplit {
    pub first: i128,
    pub second: i128,
}

/// Who receives which share of the yield, in basis points that sum to 10 000.
/// While `locked`, the shares cannot be changed.
#[derive(Clone, Copy, Debug, PartialEq, Eq, Structural)]
pub struct EscrowInterestYieldState {
    pub client_share_bps: u32,
    pub freelancer_share_bps: u32,
    pub locked: bool,
}

/// The tax computed for a milestone, kept until an admin override settles it.
#[derive(Clone, Copy, Debug, PartialEq, Eq, Structural)]
pub struct TaxWithholdingRecord {
    pub gross_amount: i128,
    pub tax_amount: i128,
    pub net_amount: i128,
    pub tax_rate_bps: u32,
}

/// The approvals that a proposal has collected.
#[derive(Clone, Copy, Debug, PartialEq, Eq, Structural)]
pub struct MultiSigApprovalState {
    pub approved: bool,
    pub approvals: u32,
    pub threshold: u32,
    pub bitmap: u32,
}

/// A proposed transfer of the admin role.
#[derive(Clone, Copy, Debug, PartialEq, Eq, Structural)]
pub struct PendingAdminTransfer {
    pub new_admin: Address,
    pub proposal_id: u32,
}

/// The name of a stored entry.
#[derive(Clone, Copy, Debug, PartialEq, Eq, Structural)]
pub enum DataKey {
    Job,
    Milestone(u32),
    Admin,
    Version,
    WhitelistedTokens,
    EmergencyPaused,
    PlatformFeeAllocation,
    /// Temporary: when a milestone was marked delivered.
    DeliveredAt(u32),
    /// Temporary: set when an approval settles a milestone in full.
    MilestoneReleased(u32),
    /// Temporary: held while a dispute over a milestone is being raised or settled
    /// by an award.
    DisputeLock(u32),
    Reputation(Address),
    InterestYieldState,
    /// The annual yield rate in basis points.
    YieldRateBps,
    /// The yield booked so far; an override payout resets it to zero.
    YieldAccrued,
    /// Set by `admin_pause_escrow`, cleared by `admin_resume_escrow`.
    Paused,
    /// Temporary: set when a dispute is raised on a milestone.
    DisputeFlag(u32),
    /// Set while the multisig workflow waits for an admin override.
    MultisigLocked,
    MilestoneTimeExtension(u32),
    CancelLock,
    /// A contract-wide tax rate. No request writes it.
    TaxRate,
    /// The tax computed for a milestone.
    TaxWithholdingLock(u32),
    MultiSigSigners,
    MultiSigThreshold,
    /// Temporary: bit `i` is set when signer `i` has approved the proposal.
    MultiSigApproval(u32),
    /// Temporary: the client's share of an applied arbitration split. The
    /// freelancer's share is the rest of 10 000.
    ArbitrationSplitBps(u32),
    PendingAdminTransfer,
    TaxWithholdingExecutionLock,
    PlatformFeeAllocationLock,
    EmergencyPauseLock,
}

} // verus!
