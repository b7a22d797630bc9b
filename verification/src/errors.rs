//! The error taxonomy shared by every operation of the exchange.

use vstd::prelude::*;

verus! {

/// Why an operation was rejected. Every failure aborts the whole operation:
/// a function that returns one of these leaves all of its `&mut` records
/// exactly as they were.
#[derive(Clone, Copy, Debug, PartialEq, Eq, Structural)]
pub enum P2PExchangeError {
    /// The offer is not in the lifecycle state the operation requires.
    InvalidOfferStatus,
    /// The dispute is not in the lifecycle state the operation requires.
    InvalidDisputeStatus,
    /// The caller is not the identity this operation is reserved to.
    Unauthorized,
    /// The vault does not hold enough to perform the requested payout.
    InsufficientFunds,
    /// A vote record for this (dispute, juror) pair already exists.
    AlreadyVoted,
    /// The caller is not one of the three assigned jurors.
    NotAJuror,
    /// The offer is already linked to a dispute; it can never get a second.
    DisputeAlreadyExists,
    /// An amount was zero, or otherwise outside the allowed range.
    InvalidAmount,
    /// A string input was empty after trimming, or longer than its bound.
    InputTooLong,
    /// The administrative signature threshold was not met.
    AdminRequired,
    /// A party's evidence list already holds the maximum number of items.
    TooManyEvidenceItems,
    /// A string input was not valid UTF-8.
    InvalidUtf8,
    /// The tallies are equal; a verdict cannot be executed on a tie.
    TiedVote,
    /// A checked arithmetic operation overflowed.
    MathOverflow,
    /// There is no unclaimed reward balance to pay out.
    NoRewardsToClaim,
    /// The reward token system has not been initialized.
    RewardTokenNotInitialized,
    /// A rate-limited operation was attempted again too soon.
    TooManyRequests,
    /// The fiat currency code is not exactly three uppercase ASCII letters.
    InvalidCurrencyCode,
    /// The vault balance deviates from the reconciled expected balance.
    InvalidEscrowBalance,
    /// A dispute deadline has passed; the vote can no longer be accepted.
    DisputeExpired,
}

} // verus!
