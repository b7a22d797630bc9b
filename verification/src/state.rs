//! The records the exchange keeps: offers, escrow vaults, disputes, votes,
//! administration, reputation and reward bookkeeping, together with their
//! well-formedness invariants.

use vstd::prelude::*;

use crate::utils::valid_currency_code;

verus! {

/// How many characters the fiat currency code may hold.
pub const MAX_FIAT_CURRENCY_LEN: usize = 10;
/// How many characters the payment method descriptor may hold.
pub const MAX_PAYMENT_METHOD_LEN: usize = 50;
/// How many characters a dispute reason may hold.
pub const MAX_DISPUTE_REASON_LEN: usize = 200;
/// How many characters one evidence URL may hold.
pub const MAX_EVIDENCE_URL_LEN: usize = 300;
/// How many evidence items each party may submit to one dispute.
pub const MAX_EVIDENCE_ITEMS: usize = 5;

/// Seconds granted for evidence submission after a dispute is opened.
pub const EVIDENCE_SUBMISSION_DEADLINE: i64 = 259200;
/// Seconds granted for voting once the evidence window has closed.
pub const VOTING_DEADLINE: i64 = 259200;
/// Seconds after which no vote is accepted on a dispute, whatever its phase.
pub const TOTAL_DISPUTE_DEADLINE: i64 = 604800;

/// Largest deviation (in balance units) tolerated between the vault balance
/// and the reconciled expected balance during verdict execution. It absorbs
/// drift in the externally computed reserve, nothing more.
pub const BALANCE_TOLERANCE: u64 = 1000;

/// The identity of an account on the host ledger. The zero value stands for
/// "not assigned", as in an empty juror slot.
#[derive(Clone, Copy, Debug, PartialEq, Eq, Hash, Structural)]
pub struct AccountId(pub u64);

impl AccountId {
    /// True of the zero identity that marks an empty slot.
    pub open spec fn is_unassigned(self) -> bool {
        self.0 == 0
    }
}

/// The lifecycle states of an offer.
#[derive(Clone, Copy, Debug, PartialEq, Eq, Structural)]
pub enum OfferStatus {
    Created,
    Listed,
    Accepted,
    FiatSent,
    SolReleased,
    DisputeOpened,
    Completed,
    Cancelled,
}

/// True exactly in the states an offer can only reach after a buyer accepted
/// it. The offer invariant ties the presence of a buyer to these states.
pub open spec fn status_requires_buyer(s: OfferStatus) -> bool {
    match s {
        OfferStatus::Created => false,
        OfferStatus::Listed => false,
        OfferStatus::Accepted => true,
        OfferStatus::FiatSent => true,
        OfferStatus::SolReleased => true,
        OfferStatus::DisputeOpened => true,
        OfferStatus::Completed => true,
        OfferStatus::Cancelled => false,
    }
}

/// True of the terminal offer states, which no operation may leave.
pub open spec fn offer_status_terminal(s: OfferStatus) -> bool {
    s is Completed || s is Cancelled
}

/// One proposed trade: the seller's asset amount against a fiat payment,
/// with its own escrow vault and status.
#[derive(Clone, Debug)]
pub struct Offer {
    /// The ledger identity of this offer record.
    pub id: AccountId,
    /// Who created the offer and funded the vault with `amount`.
    pub seller: AccountId,
    /// Who accepted the offer; absent until the offer is accepted.
    pub buyer: Option<AccountId>,
    /// Asset units the seller locked into the vault.
    pub amount: u64,
    /// Additional units the buyer locked when accepting; zero before that.
    pub security_bond: u64,
    /// Where the offer stands in its lifecycle.
    pub status: OfferStatus,
    /// The fiat amount the seller asks for.
    pub fiat_amount: u64,
    /// Three uppercase ASCII letters naming the fiat currency.
    pub fiat_currency: String,
    /// Free-form descriptor of the fiat payment method.
    pub payment_method: String,
    /// When the offer was created (seconds).
    pub created_at: i64,
    /// When the offer was last mutated (seconds).
    pub updated_at: i64,
    /// The dispute linked to this offer, if one was ever opened. At most one
    /// dispute may ever be linked; the link is never cleared.
    pub dispute_id: Option<AccountId>,
}

impl Offer {
    /// The invariant every offer the library produces satisfies: a buyer is
    /// recorded if and only if the status is one reached by acceptance, the
    /// amounts are non-zero, the strings were validated on creation, and a
    /// `DisputeOpened` status always carries the dispute link.
    pub open spec fn wf(self) -> bool {
        &&& (self.buyer is Some) <==> status_requires_buyer(self.status)
        &&& self.amount > 0
        &&& self.fiat_amount > 0
        &&& valid_currency_code(self.fiat_currency@)
        &&& 1 <= self.payment_method@.len() <= MAX_PAYMENT_METHOD_LEN
        &&& self.status is DisputeOpened ==> self.dispute_id is Some
    }
}

/// The lifecycle states of a dispute.
#[derive(Clone, Copy, Debug, PartialEq, Eq, Structural)]
pub enum DisputeStatus {
    Opened,
    JurorsAssigned,
    EvidenceSubmission,
    Voting,
    VerdictReached,
    Resolved,
}

/// One dispute over one offer: the parties, three juror slots, two bounded
/// evidence lists, the vote tallies and the deadlines' reference point.
#[derive(Clone, Debug)]
pub struct Dispute {
    /// The ledger identity of this dispute record.
    pub id: AccountId,
    /// The offer this dispute was opened against.
    pub offer: AccountId,
    /// The party that opened the dispute.
    pub initiator: AccountId,
    /// The offer's other party.
    pub respondent: AccountId,
    /// Why the dispute was opened; trimmed and length-bounded.
    pub reason: String,
    /// Where the dispute stands in its lifecycle.
    pub status: DisputeStatus,
    /// Exactly three juror slots, zero-valued until assigned together.
    pub jurors: [AccountId; 3],
    /// Evidence submitted by the initiator, at most `MAX_EVIDENCE_ITEMS`.
    pub evidence_buyer: Vec<String>,
    /// Evidence submitted by the respondent, at most `MAX_EVIDENCE_ITEMS`.
    pub evidence_seller: Vec<String>,
    /// Votes cast in favour of the buyer.
    pub votes_for_buyer: u8,
    /// Votes cast in favour of the seller.
    pub votes_for_seller: u8,
    /// When the dispute was opened (seconds); deadlines count from here.
    pub created_at: i64,
    /// When the verdict was executed; zero until then.
    pub resolved_at: i64,
}

impl Dispute {
    /// True if `who` occupies one of the three juror slots.
    pub open spec fn spec_is_juror(self, who: AccountId) -> bool {
        self.jurors[0] == who || self.jurors[1] == who || self.jurors[2] == who
    }

    /// The invariant every dispute the library produces satisfies. The vote
    /// tallies never sum past the three jurors; no vote exists before the
    /// voting phase; the `Voting` state holds no majority yet; a verdict
    /// state always holds a strict majority; the evidence lists respect
    /// their cap; the reason was validated on opening.
    pub open spec fn wf(self) -> bool {
        &&& self.votes_for_buyer + self.votes_for_seller <= 3
        &&& (self.status is Opened || self.status is JurorsAssigned
            || self.status is EvidenceSubmission)
            ==> self.votes_for_buyer == 0 && self.votes_for_seller == 0
        &&& self.status is Voting ==> {
            &&& 1 <= self.votes_for_buyer + self.votes_for_seller
            &&& self.votes_for_buyer < 2
            &&& self.votes_for_seller < 2
        }
        &&& (self.status is VerdictReached || self.status is Resolved)
            ==> (self.votes_for_buyer >= 2 || self.votes_for_seller >= 2)
        &&& self.status is Opened ==> {
            &&& self.jurors[0].is_unassigned()
            &&& self.jurors[1].is_unassigned()
            &&& self.jurors[2].is_unassigned()
            &&& self.evidence_buyer@.len() == 0
            &&& self.evidence_seller@.len() == 0
        }
        &&& self.evidence_buyer@.len() <= MAX_EVIDENCE_ITEMS
        &&& self.evidence_seller@.len() <= MAX_EVIDENCE_ITEMS
        &&& 1 <= self.reason@.len() <= MAX_DISPUTE_REASON_LEN
    }
}

/// One vote record per (dispute, juror) pair. Its existence is itself the
/// duplicate-vote guard: creation fails if one already exists for the pair.
/// Never mutated after creation.
#[derive(Clone, Copy, Debug, PartialEq, Eq, Structural)]
pub struct Vote {
    /// The dispute the vote belongs to.
    pub dispute: AccountId,
    /// The juror that cast it.
    pub juror: AccountId,
    /// True for the buyer, false for the seller.
    pub vote_for_buyer: bool,
    /// When the vote was cast (seconds).
    pub timestamp: i64,
}

/// A capability to pay out of one offer's vault. Values of this type can be
/// produced only by the library itself, scoped to a single offer: no caller
/// can forge the authority to drain a vault.
pub struct PayoutAuthority {
    offer: AccountId,
}

impl PayoutAuthority {
    /// The offer whose vault this authority may debit.
    pub closed spec fn scope(self) -> AccountId {
        self.offer
    }

    /// Derives the authority for one offer's vault. Only the library's own
    /// settlement paths call this.
    pub(crate) fn derive(offer: AccountId) -> (r: PayoutAuthority)
        ensures
            r.scope() == offer,
    {
        PayoutAuthority { offer }
    }
}

/// The custody account of one offer. It holds the seller's amount, the
/// buyer's bond and the ledger-mandated minimum reserve. The balance is a
/// plain ledger balance — anyone may deposit into it, which is why every
/// payout first reconciles the balance against the expected amount — but
/// the only outbound path is `pay_out`, which demands the scoped authority.
#[derive(Clone, Copy, Debug)]
pub struct EscrowVault {
    /// The offer this vault belongs to.
    pub offer: AccountId,
    /// The units currently held.
    pub balance: u64,
}

impl EscrowVault {
    /// Creates the vault for `offer`, holding exactly the minimum reserve
    /// that keeps the account alive on the ledger.
    pub fn new(offer: AccountId, reserve: u64) -> (v: EscrowVault)
        ensures
            v.offer == offer,
            v.balance == reserve,
    {
        EscrowVault { offer, balance: reserve }
    }

    /// Direct deposit into the vault; needs no authority. Fails only when
    /// the balance would no longer fit the ledger's unit type, in which case
    /// the vault is unchanged.
    pub fn fund(&mut self, amount: u64) -> (r: Result<(), crate::errors::P2PExchangeError>)
        ensures
            match r {
                Ok(()) => {
                    &&& old(self).balance + amount <= u64::MAX
                    &&& final(self).balance == old(self).balance + amount
                    &&& final(self).offer == old(self).offer
                },
                Err(e) => {
                    &&& e == crate::errors::P2PExchangeError::MathOverflow
                    &&& old(self).balance + amount > u64::MAX
                    &&& *final(self) == *old(self)
                },
            },
    {
        if amount > u64::MAX - self.balance {
            Err(crate::errors::P2PExchangeError::MathOverflow)
        } else {
            self.balance = self.balance + amount;
            Ok(())
        }
    }

    /// Outbound transfer, available only to the holder of this vault's
    /// scoped authority. Succeeds exactly when the vault holds `amount` and
    /// would still hold at least `reserve` afterwards; on failure the vault
    /// is unchanged.
    pub fn pay_out(
        &mut self,
        auth: &PayoutAuthority,
        amount: u64,
        reserve: u64,
    ) -> (r: Result<(), crate::errors::P2PExchangeError>)
        requires
            auth.scope() == old(self).offer,
        ensures
            match r {
                Ok(()) => {
                    &&& amount <= old(self).balance
                    &&& old(self).balance - amount >= reserve
                    &&& final(self).balance == old(self).balance - amount
                    &&& final(self).offer == old(self).offer
                },
                Err(e) => {
                    &&& e == crate::errors::P2PExchangeError::InsufficientFunds
                    &&& (amount > old(self).balance || old(self).balance - amount < reserve)
                    &&& *final(self) == *old(self)
                },
            },
    {
        if amount > self.balance || self.balance - amount < reserve {
            Err(crate::errors::P2PExchangeError::InsufficientFunds)
        } else {
            self.balance = self.balance - amount;
            Ok(())
        }
    }
}

/// The administrative record: a primary authority, two optional secondary
/// authorities and the number of signatures an administrative action needs.
#[derive(Clone, Copy, Debug)]
pub struct Admin {
    /// The primary administrative authority.
    pub authority: AccountId,
    /// Two further authorities; zero-valued slots are unused.
    pub secondary_authorities: [AccountId; 2],
    /// How many of the authorities must have signed, between 1 and 3.
    pub required_signatures: u8,
}

/// A user's trading reputation, updated by an administrative hook after
/// trades and disputes conclude.
#[derive(Clone, Copy, Debug)]
pub struct Reputation {
    /// Whose reputation this is.
    pub user: AccountId,
    /// Trades this user completed without a dispute loss.
    pub successful_trades: u32,
    /// Trades of this user that went through a dispute.
    pub disputed_trades: u32,
    /// Disputes this user won.
    pub disputes_won: u32,
    /// Disputes this user lost.
    pub disputes_lost: u32,
    /// Weighted rating between 0 and 100.
    pub rating: u8,
    /// When the reputation was last updated (seconds).
    pub last_updated: i64,
}

/// The reward-token bookkeeping record.
#[derive(Clone, Copy, Debug)]
pub struct RewardToken {
    /// Who administers the reward parameters.
    pub authority: AccountId,
    /// The ledger identity of the token mint.
    pub mint: AccountId,
    /// Total tokens ever minted.
    pub total_supply: u64,
    /// Tokens accrued per qualifying trade.
    pub reward_rate_per_trade: u64,
    /// Tokens accrued per governance vote.
    pub reward_rate_per_vote: u64,
    /// Smallest trade volume that qualifies for trade rewards.
    pub min_trade_volume: u64,
    /// When the record was created (seconds).
    pub created_at: i64,
    /// When the parameters were last changed (seconds); rate-limits updates.
    pub last_updated: i64,
}

/// One user's accrued and claimed rewards.
#[derive(Clone, Copy, Debug)]
pub struct UserRewards {
    /// Whose rewards these are.
    pub user: AccountId,
    /// Tokens ever accrued.
    pub total_earned: u64,
    /// Tokens ever claimed.
    pub total_claimed: u64,
    /// Tokens accrued but not yet claimed.
    pub unclaimed_balance: u64,
    /// Cumulative qualifying trade volume.
    pub trading_volume: u64,
    /// Governance votes this user cast.
    pub governance_votes: u32,
    /// When the last trade reward accrued (seconds).
    pub last_trade_reward: i64,
    /// When the last vote reward accrued (seconds).
    pub last_vote_reward: i64,
}

} // verus!
