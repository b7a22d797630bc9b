//! The event records the operations return on success. The host hands them
//! to off-system observers; the contracts pin the identifiers and amounts
//! they carry.

use vstd::prelude::*;

use crate::state::AccountId;

verus! {

/// An offer was created and its vault funded with the seller's amount.
#[derive(Clone, Debug)]
pub struct OfferCreated {
    pub offer: AccountId,
    pub seller: AccountId,
    pub amount: u64,
    pub fiat_amount: u64,
    pub fiat_currency: String,
}

/// An offer was accepted and the buyer's security bond locked.
#[derive(Clone, Copy, Debug)]
pub struct OfferAccepted {
    pub offer: AccountId,
    pub buyer: AccountId,
    pub security_bond: u64,
}

/// The buyer marked the fiat payment as sent.
#[derive(Clone, Copy, Debug)]
pub struct FiatSent {
    pub offer: AccountId,
    pub buyer: AccountId,
}

/// The seller confirmed receipt of the fiat payment.
#[derive(Clone, Copy, Debug)]
pub struct FiatReceiptConfirmed {
    pub offer: AccountId,
    pub seller: AccountId,
}

/// The vault paid the full transferable amount to the buyer.
#[derive(Clone, Copy, Debug)]
pub struct SolReleased {
    pub offer: AccountId,
    pub buyer: AccountId,
    pub amount: u64,
}

/// A dispute was opened against an offer.
#[derive(Clone, Debug)]
pub struct DisputeOpened {
    pub dispute: AccountId,
    pub offer: AccountId,
    pub initiator: AccountId,
    pub reason: String,
}

/// Three jurors were assigned to a dispute.
#[derive(Clone, Copy, Debug)]
pub struct JurorsAssigned {
    pub dispute: AccountId,
    pub jurors: [AccountId; 3],
}

/// A party appended an item to its evidence list.
#[derive(Clone, Debug)]
pub struct EvidenceSubmitted {
    pub dispute: AccountId,
    pub submitter: AccountId,
    pub evidence_url: String,
}

/// A juror cast a vote.
#[derive(Clone, Copy, Debug)]
pub struct VoteCast {
    pub dispute: AccountId,
    pub juror: AccountId,
    pub vote_for_buyer: bool,
}

/// The verdict was executed and the vault drained to the winner.
#[derive(Clone, Copy, Debug)]
pub struct VerdictExecuted {
    pub dispute: AccountId,
    pub winner: AccountId,
    pub amount: u64,
}

/// A user's reputation record was recomputed.
#[derive(Clone, Copy, Debug)]
pub struct ReputationUpdated {
    pub user: AccountId,
    pub successful_trades: u32,
    pub rating: u8,
}

/// The reward token system was initialized.
#[derive(Clone, Copy, Debug)]
pub struct RewardTokenCreated {
    pub authority: AccountId,
    pub reward_rate_per_trade: u64,
    pub reward_rate_per_vote: u64,
}

/// A user accrued rewards for a trade or a governance vote.
#[derive(Clone, Debug)]
pub struct RewardsEarned {
    pub user: AccountId,
    pub amount: u64,
    /// What the reward was for: the activity name, such as "trade" or "vote".
    pub reason: String,
    pub timestamp: i64,
}

/// A user claimed their unclaimed reward balance.
#[derive(Clone, Copy, Debug)]
pub struct RewardsClaimed {
    pub user: AccountId,
    pub amount: u64,
    pub timestamp: i64,
}

/// The reward parameters were changed.
#[derive(Clone, Copy, Debug)]
pub struct RewardTokenUpdated {
    pub authority: AccountId,
    pub reward_rate_per_trade: u64,
    pub reward_rate_per_vote: u64,
    pub min_trade_volume: u64,
    pub timestamp: i64,
}

/// Users became eligible for a best-effort reward accrual. The host may
/// drop this notification without affecting the core operation.
#[derive(Clone, Debug)]
pub struct RewardEligible {
    pub users: Vec<AccountId>,
    pub trade_volume: u64,
    /// Which activity qualified: "trade" or "vote".
    pub reward_type: String,
    pub timestamp: i64,
}

/// A best-effort reward accrual failed; recorded for monitoring only.
#[derive(Clone, Debug)]
pub struct RewardSystemFailure {
    pub users: Vec<AccountId>,
    pub trade_volume: u64,
    pub reward_type: String,
    pub error: String,
    pub timestamp: i64,
}

} // verus!
