//! An escrow for a job that is paid milestone by milestone.
//!
//! A client deposits the price of all milestones up front. The contract pays a
//! milestone out to the freelancer when the client approves it or the waiting
//! time after its delivery is over, divides it when an arbiter settles a dispute,
//! and lets an admin intervene: pause, freeze, override, settle a cancellation.
//!
//! Every request is a function on [`Env`], the contract's view of the ledger. It
//! changes the stored entries and lists what the host has to do: check signatures,
//! move tokens, publish events, replace the code. A request that is refused
//! returns an [`Error`] and leaves the entries as they were.
//!
//! For each request `x` there is a spec function `x_refusal`, which says whether
//! and why it is refused, and a spec function `x_step`, which says what it makes of
//! the ledger. [`undertaking`], [`settling`], [`taxing`] and [`governing`] state of
//! each request when it is granted, what its refusals mean, what it asks of the host
//! and what it changes; [`precedence`] which of several refusals is given;
//! [`reckoning`] what the parts of a divided amount satisfy; [`readings`] what the
//! stored entries mean. [`steps`] states what a single request can do, [`laws`] what
//! holds of every request and of any number of them, and [`interplay`] how requests
//! bear on one another.

pub mod address;
pub mod admin;
pub mod allocation;
pub mod amounts;
pub mod cancellation;
pub mod disputes;
pub mod events;
pub mod governing;
pub mod guards;
pub mod interest;
pub mod interplay;
pub mod job;
pub mod laws;
pub mod ledger;
pub mod milestones;
pub mod multisig;
pub mod overrides;
pub mod pause;
pub mod platform_fee;
pub mod precedence;
pub mod readings;
pub mod reckoning;
pub mod relations;
pub mod requests;
pub mod settling;
pub mod soundness;
pub mod splits;
pub mod steps;
pub mod streaming;
pub mod tables;
pub mod tax;
pub mod taxing;
pub mod types;
pub mod undertaking;
pub mod whitelist;

pub use address::Address;
pub use amounts::Amounts;
pub use events::{
    AdminCancelOverrideRefundEvent, AdminCancelOverrideReleaseEvent, AdminOverrideRefundEvent,
    AdminOverrideReleaseEvent, AdminOverrideStreamingReleaseEvent, AdminOverrideTaxRefundEvent,
    AdminOverrideTaxReleaseEvent, AdminTransferCancelledEvent, AdminTransferExecutedEvent,
    AdminTransferProposedEvent, ApprovedEvent, AutoReleaseClaimedEvent, AutoReleasedEvent,
    CancelEscrowInitiatedEvent, ClaimedEvent, DeadlineExtendedEvent, DeliveredEvent,
    DisputeRaisedEvent, DisputeResolvedEvent, EmergencyPauseAdminOverrideEvent,
    EmergencyPauseAllocationEvent, EmergencyPausedEvent, EmergencyUnpausedEvent,
    EscrowInterestYieldConsentSetEvent, EscrowPausedEvent, EscrowResumedEvent, Event, FundedEvent,
    InitializedEvent, MilestoneTimeExtensionEvent, MultiSigApprovedEvent,
    MultiSigTransferAdminEvent, MultisigAdminOverrideRefundEvent, MultisigAdminOverrideReleaseEvent,
    PartialReleaseApprovedEvent, PaymentStreamingConsentEvent, PaymentStreamingEvent,
    SplitRefundCalculatedEvent, TaxWithholdingAppliedEvent, TaxWithholdingDeductionsEvent,
    TokenRemovedEvent, TokenWhitelistedEvent, TransferAdminEvent, WhitelistedTokenAddedEvent,
    WhitelistedTokenRemovedEvent, YieldAccruedEvent, YieldRateSetEvent,
};
pub use ledger::{Effect, Env};
pub use types::{
    DataKey, Error, EscrowInterestYieldState, Job, JobMeta, Milestone, MilestoneEscrow,
    MilestoneStatus, MultiSigApprovalState, PendingAdminTransfer, PlatformFeeAllocation,
    PlatformFeeDistribution, RatioSplit, RefundAllocation, TaxWithholdingRecord,
};
