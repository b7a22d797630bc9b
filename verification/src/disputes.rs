//! The dispute lifecycle: opening, jury assignment, evidence submission,
//! deadline-guarded voting with duplicate-vote prevention, and verdict
//! execution that drains the vault to the majority's winner.

use vstd::prelude::*;

use crate::errors::P2PExchangeError;
use crate::events::{DisputeOpened, EvidenceSubmitted, JurorsAssigned, VerdictExecuted, VoteCast};
use crate::state::{
    offer_status_terminal, AccountId, Admin, Dispute, DisputeStatus, EscrowVault, Offer,
    OfferStatus, PayoutAuthority, Vote, BALANCE_TOLERANCE, EVIDENCE_SUBMISSION_DEADLINE,
    MAX_DISPUTE_REASON_LEN, MAX_EVIDENCE_ITEMS, MAX_EVIDENCE_URL_LEN, TOTAL_DISPUTE_DEADLINE,
    VOTING_DEADLINE,
};
use crate::utils::{trim_of, validate_and_process_string};

verus! {

/// True if `v` is the vote record of the pair (`dispute`, `juror`).
pub open spec fn pair_matches(v: Vote, dispute: AccountId, juror: AccountId) -> bool {
    v.dispute == dispute && v.juror == juror
}

/// True if two vote records belong to the same (dispute, juror) pair.
pub open spec fn same_pair(a: Vote, b: Vote) -> bool {
    a.dispute == b.dispute && a.juror == b.juror
}

/// The ledger's store of vote records. On the host ledger each record lives
/// at an address derived from its (dispute, juror) pair, so creating a
/// second record for the same pair fails; this registry models that store,
/// and its invariant is exactly that derived-address uniqueness.
pub struct VoteRegistry {
    /// Every vote record ever created, in creation order.
    pub records: Vec<Vote>,
}

impl VoteRegistry {
    /// True if a record for the pair (`dispute`, `juror`) exists.
    pub open spec fn contains_pair(self, dispute: AccountId, juror: AccountId) -> bool {
        exists|i: int|
            0 <= i < self.records@.len() && #[trigger] pair_matches(
                self.records@[i],
                dispute,
                juror,
            )
    }

    /// No two records share a (dispute, juror) pair: a juror can never hold
    /// two votes on one dispute.
    pub open spec fn wf(self) -> bool {
        forall|i: int, j: int|
            0 <= i < j < self.records@.len() ==> !#[trigger] same_pair(
                self.records@[i],
                self.records@[j],
            )
    }

    /// An empty registry.
    pub fn new() -> (r: VoteRegistry)
        ensures
            r.records@.len() == 0,
            r.wf(),
    {
        VoteRegistry { records: Vec::new() }
    }

    /// Decides whether a record for the pair (`dispute`, `juror`) exists.
    pub fn has_vote(&self, dispute: AccountId, juror: AccountId) -> (b: bool)
        ensures
            b == self.contains_pair(dispute, juror),
    {
        let n = self.records.len();
        let mut i: usize = 0;
        while i < n
            invariant
                0 <= i <= n,
                n == self.records@.len(),
                forall|k: int|
                    0 <= k < i ==> !#[trigger] pair_matches(self.records@[k], dispute, juror),
            decreases n - i,
        {
            let v = self.records[i];
            if v.dispute == dispute && v.juror == juror {
                assert(pair_matches(self.records@[i as int], dispute, juror));
                return true;
            }
            i = i + 1;
        }
        false
    }
}

/// The respondent a dispute must name: the offer's other party.
pub open spec fn other_party(offer: Offer, initiator: AccountId) -> AccountId
    recommends
        offer.seller == initiator ==> offer.buyer is Some,
{
    if offer.seller == initiator {
        offer.buyer.unwrap()
    } else {
        offer.seller
    }
}

/// The error `open_dispute` returns, or `None` where it succeeds: the
/// reason must survive validation, the offer must have no dispute yet and
/// must not be terminal, the initiator must be a party to the offer, and
/// the named respondent must be the other party.
pub open spec fn open_dispute_error(
    offer: Offer,
    initiator: AccountId,
    respondent: AccountId,
    reason: Seq<char>,
) -> Option<P2PExchangeError> {
    let tr = trim_of(reason);
    if tr.len() == 0 || tr.len() > MAX_DISPUTE_REASON_LEN {
        Some(P2PExchangeError::InputTooLong)
    } else if offer.dispute_id is Some {
        Some(P2PExchangeError::DisputeAlreadyExists)
    } else if offer_status_terminal(offer.status) {
        Some(P2PExchangeError::InvalidOfferStatus)
    } else if offer.seller != initiator && offer.buyer != Some(initiator) {
        Some(P2PExchangeError::Unauthorized)
    } else if offer.seller == initiator && offer.buyer is None {
        Some(P2PExchangeError::Unauthorized)
    } else if other_party(offer, initiator) != respondent {
        Some(P2PExchangeError::Unauthorized)
    } else {
        None
    }
}

/// Opens the one dispute an offer may ever have. The new dispute starts in
/// `Opened` with empty juror slots, empty evidence lists and zero tallies;
/// the offer is linked to it and moves to `DisputeOpened`.
pub fn open_dispute(
    dispute_id: AccountId,
    offer: &mut Offer,
    initiator: AccountId,
    respondent: AccountId,
    reason: &str,
    now: i64,
) -> (r: Result<(Dispute, DisputeOpened), P2PExchangeError>)
    ensures
        (r is Ok) <==> open_dispute_error(*old(offer), initiator, respondent, reason@) is None,
        r matches Err(e) ==> {
            &&& Some(e) == open_dispute_error(*old(offer), initiator, respondent, reason@)
            &&& *final(offer) == *old(offer)
        },
        r matches Ok(t) ==> {
            let (dispute, ev) = t;
            &&& dispute.id == dispute_id
            &&& dispute.offer == old(offer).id
            &&& dispute.initiator == initiator
            &&& dispute.respondent == respondent
            &&& dispute.reason@ == trim_of(reason@)
            &&& dispute.status is Opened
            &&& dispute.jurors[0].is_unassigned()
            &&& dispute.jurors[1].is_unassigned()
            &&& dispute.jurors[2].is_unassigned()
            &&& dispute.evidence_buyer@.len() == 0
            &&& dispute.evidence_seller@.len() == 0
            &&& dispute.votes_for_buyer == 0
            &&& dispute.votes_for_seller == 0
            &&& dispute.created_at == now
            &&& dispute.resolved_at == 0
            &&& dispute.wf()
            &&& *final(offer) == (Offer {
                status: OfferStatus::DisputeOpened,
                updated_at: now,
                dispute_id: Some(dispute_id),
                ..*old(offer)
            })
            &&& ev.dispute == dispute_id
            &&& ev.offer == old(offer).id
            &&& ev.initiator == initiator
            &&& ev.reason@ == trim_of(reason@)
        },
        old(offer).wf() && r is Ok ==> final(offer).wf(),
{
    let trimmed_reason = validate_and_process_string(reason, MAX_DISPUTE_REASON_LEN)?;
    if offer.dispute_id.is_some() {
        return Err(P2PExchangeError::DisputeAlreadyExists);
    }
    if offer.status == OfferStatus::Completed || offer.status == OfferStatus::Cancelled {
        return Err(P2PExchangeError::InvalidOfferStatus);
    }
    let initiator_is_seller = offer.seller == initiator;
    let initiator_is_buyer = match offer.buyer {
        Some(b) => b == initiator,
        None => false,
    };
    if !initiator_is_seller && !initiator_is_buyer {
        return Err(P2PExchangeError::Unauthorized);
    }
    let respondent_key = if initiator_is_seller {
        match offer.buyer {
            Some(b) => b,
            None => {
                return Err(P2PExchangeError::Unauthorized);
            },
        }
    } else {
        offer.seller
    };
    if respondent_key != respondent {
        return Err(P2PExchangeError::Unauthorized);
    }
    let dispute = Dispute {
        id: dispute_id,
        offer: offer.id,
        initiator,
        respondent,
        reason: trimmed_reason.clone(),
        status: DisputeStatus::Opened,
        jurors: [AccountId(0), AccountId(0), AccountId(0)],
        evidence_buyer: Vec::new(),
        evidence_seller: Vec::new(),
        votes_for_buyer: 0,
        votes_for_seller: 0,
        created_at: now,
        resolved_at: 0,
    };
    offer.dispute_id = Some(dispute_id);
    offer.status = OfferStatus::DisputeOpened;
    offer.updated_at = now;
    let ev = DisputeOpened {
        dispute: dispute_id,
        offer: offer.id,
        initiator,
        reason: trimmed_reason,
    };
    Ok((dispute, ev))
}

/// The error `assign_jurors` returns, or `None` where it succeeds: an
/// administrative action, possible exactly once, on a dispute still in
/// `Opened`.
pub open spec fn assign_jurors_error(
    dispute: Dispute,
    admin: Admin,
    authority: AccountId,
) -> Option<P2PExchangeError> {
    if admin.authority != authority {
        Some(P2PExchangeError::AdminRequired)
    } else if !(dispute.status is Opened) {
        Some(P2PExchangeError::InvalidDisputeStatus)
    } else {
        None
    }
}

/// Fills the three juror slots together and moves the dispute to
/// `JurorsAssigned`. Not idempotent: a second call finds the status gone
/// and is rejected.
pub fn assign_jurors(
    dispute: &mut Dispute,
    admin: &Admin,
    authority: AccountId,
    juror1: AccountId,
    juror2: AccountId,
    juror3: AccountId,
) -> (r: Result<JurorsAssigned, P2PExchangeError>)
    ensures
        (r is Ok) <==> assign_jurors_error(*old(dispute), *admin, authority) is None,
        r matches Err(e) ==> {
            &&& Some(e) == assign_jurors_error(*old(dispute), *admin, authority)
            &&& *final(dispute) == *old(dispute)
        },
        r matches Ok(ev) ==> {
            &&& *final(dispute) == (Dispute {
                status: DisputeStatus::JurorsAssigned,
                jurors: [juror1, juror2, juror3],
                ..*old(dispute)
            })
            &&& ev.dispute == old(dispute).id
            &&& ev.jurors == [juror1, juror2, juror3]
        },
        old(dispute).wf() && r is Ok ==> final(dispute).wf(),
{
    if admin.authority != authority {
        return Err(P2PExchangeError::AdminRequired);
    }
    if dispute.status != DisputeStatus::Opened {
        return Err(P2PExchangeError::InvalidDisputeStatus);
    }
    dispute.jurors = [juror1, juror2, juror3];
    dispute.status = DisputeStatus::JurorsAssigned;
    Ok(JurorsAssigned { dispute: dispute.id, jurors: [juror1, juror2, juror3] })
}

/// The error `submit_evidence` returns, or `None` where it succeeds: the
/// URL must survive validation, the dispute must be in its evidence window,
/// the submitter must be a party, and that party's list must not be full.
pub open spec fn submit_evidence_error(
    dispute: Dispute,
    submitter: AccountId,
    evidence_url: Seq<char>,
) -> Option<P2PExchangeError> {
    let tu = trim_of(evidence_url);
    if tu.len() == 0 || tu.len() > MAX_EVIDENCE_URL_LEN {
        Some(P2PExchangeError::InputTooLong)
    } else if !(dispute.status is JurorsAssigned || dispute.status is EvidenceSubmission) {
        Some(P2PExchangeError::InvalidDisputeStatus)
    } else if dispute.initiator != submitter && dispute.respondent != submitter {
        Some(P2PExchangeError::Unauthorized)
    } else if dispute.initiator == submitter && dispute.evidence_buyer@.len()
        >= MAX_EVIDENCE_ITEMS {
        Some(P2PExchangeError::TooManyEvidenceItems)
    } else if dispute.initiator != submitter && dispute.evidence_seller@.len()
        >= MAX_EVIDENCE_ITEMS {
        Some(P2PExchangeError::TooManyEvidenceItems)
    } else {
        None
    }
}

/// Appends one evidence URL to the submitter's list, up to the fixed cap.
/// The first submission moves the dispute from `JurorsAssigned` to
/// `EvidenceSubmission`.
pub fn submit_evidence(
    dispute: &mut Dispute,
    submitter: AccountId,
    evidence_url: &str,
) -> (r: Result<EvidenceSubmitted, P2PExchangeError>)
    ensures
        (r is Ok) <==> submit_evidence_error(*old(dispute), submitter, evidence_url@) is None,
        r matches Err(e) ==> {
            &&& Some(e) == submit_evidence_error(*old(dispute), submitter, evidence_url@)
            &&& *final(dispute) == *old(dispute)
        },
        r matches Ok(ev) ==> {
            &&& old(dispute).initiator == submitter ==> {
                &&& final(dispute).evidence_buyer@.len() == old(
                    dispute,
                ).evidence_buyer@.len() + 1
                &&& final(dispute).evidence_buyer@.last()@ == trim_of(evidence_url@)
                &&& final(dispute).evidence_buyer@.drop_last() == old(dispute).evidence_buyer@
                &&& final(dispute).evidence_seller@ == old(dispute).evidence_seller@
            }
            &&& old(dispute).initiator != submitter ==> {
                &&& final(dispute).evidence_seller@.len() == old(
                    dispute,
                ).evidence_seller@.len() + 1
                &&& final(dispute).evidence_seller@.last()@ == trim_of(evidence_url@)
                &&& final(dispute).evidence_seller@.drop_last() == old(dispute).evidence_seller@
                &&& final(dispute).evidence_buyer@ == old(dispute).evidence_buyer@
            }
            &&& final(dispute).status == (if old(dispute).status is JurorsAssigned {
                DisputeStatus::EvidenceSubmission
            } else {
                old(dispute).status
            })
            &&& final(dispute).id == old(dispute).id
            &&& final(dispute).offer == old(dispute).offer
            &&& final(dispute).initiator == old(dispute).initiator
            &&& final(dispute).respondent == old(dispute).respondent
            &&& final(dispute).reason == old(dispute).reason
            &&& final(dispute).jurors == old(dispute).jurors
            &&& final(dispute).votes_for_buyer == old(dispute).votes_for_buyer
            &&& final(dispute).votes_for_seller == old(dispute).votes_for_seller
            &&& final(dispute).created_at == old(dispute).created_at
            &&& final(dispute).resolved_at == old(dispute).resolved_at
            &&& ev.dispute == old(dispute).id
            &&& ev.submitter == submitter
            &&& ev.evidence_url@ == trim_of(evidence_url@)
        },
        old(dispute).wf() && r is Ok ==> final(dispute).wf(),
{
    let trimmed_url = validate_and_process_string(evidence_url, MAX_EVIDENCE_URL_LEN)?;
    if dispute.status != DisputeStatus::JurorsAssigned && dispute.status
        != DisputeStatus::EvidenceSubmission {
        return Err(P2PExchangeError::InvalidDisputeStatus);
    }
    if dispute.initiator != submitter && dispute.respondent != submitter {
        return Err(P2PExchangeError::Unauthorized);
    }
    if dispute.initiator == submitter {
        if dispute.evidence_buyer.len() >= MAX_EVIDENCE_ITEMS {
            return Err(P2PExchangeError::TooManyEvidenceItems);
        }
        dispute.evidence_buyer.push(trimmed_url.clone());
    } else {
        if dispute.evidence_seller.len() >= MAX_EVIDENCE_ITEMS {
            return Err(P2PExchangeError::TooManyEvidenceItems);
        }
        dispute.evidence_seller.push(trimmed_url.clone());
    }
    if dispute.status == DisputeStatus::JurorsAssigned {
        dispute.status = DisputeStatus::EvidenceSubmission;
    }
    Ok(EvidenceSubmitted {
        dispute: dispute.id,
        submitter,
        evidence_url: trimmed_url,
    })
}

/// The error `cast_vote` returns, or `None` where it succeeds. In order: a
/// prior record of the pair rejects the duplicate; the status gate; the
/// total-dispute deadline and, once voting has begun, the voting deadline;
/// juror membership; and as a last sanity layer, a full tally.
pub open spec fn cast_vote_error(
    dispute: Dispute,
    registry: VoteRegistry,
    juror: AccountId,
    now: i64,
) -> Option<P2PExchangeError> {
    if registry.contains_pair(dispute.id, juror) {
        Some(P2PExchangeError::AlreadyVoted)
    } else if !(dispute.status is EvidenceSubmission || dispute.status is Voting) {
        Some(P2PExchangeError::InvalidDisputeStatus)
    } else if now - dispute.created_at > i64::MAX || now - dispute.created_at < i64::MIN {
        Some(P2PExchangeError::MathOverflow)
    } else if now - dispute.created_at > TOTAL_DISPUTE_DEADLINE {
        Some(P2PExchangeError::DisputeExpired)
    } else if dispute.status is Voting && dispute.created_at + EVIDENCE_SUBMISSION_DEADLINE
        + VOTING_DEADLINE > i64::MAX {
        Some(P2PExchangeError::MathOverflow)
    } else if dispute.status is Voting && now > dispute.created_at
        + EVIDENCE_SUBMISSION_DEADLINE + VOTING_DEADLINE {
        Some(P2PExchangeError::DisputeExpired)
    } else if !dispute.spec_is_juror(juror) {
        Some(P2PExchangeError::NotAJuror)
    } else if dispute.votes_for_buyer + dispute.votes_for_seller >= 3 {
        Some(P2PExchangeError::AlreadyVoted)
    } else {
        None
    }
}

/// The status a dispute holds after a successful vote: `VerdictReached` as
/// soon as either tally reaches the majority of 2, `Voting` from the first
/// vote on, the previous status otherwise.
pub open spec fn status_after_vote(before: DisputeStatus, vfb: u8, vfs: u8) -> DisputeStatus {
    if vfb >= 2 || vfs >= 2 {
        DisputeStatus::VerdictReached
    } else if before is EvidenceSubmission && vfb + vfs == 1 {
        DisputeStatus::Voting
    } else {
        before
    }
}

/// Casts one juror's binding vote. The vote record is created for the
/// (dispute, juror) pair — its prior existence is the duplicate-vote guard —
/// the chosen tally is incremented, and the dispute reaches
/// `VerdictReached` the moment either tally holds a strict majority of the
/// three jurors. A vote past the dispute's deadlines is rejected and
/// changes nothing.
pub fn cast_vote(
    dispute: &mut Dispute,
    registry: &mut VoteRegistry,
    juror: AccountId,
    vote_for_buyer: bool,
    now: i64,
) -> (r: Result<VoteCast, P2PExchangeError>)
    ensures
        (r is Ok) <==> cast_vote_error(*old(dispute), *old(registry), juror, now) is None,
        r matches Err(e) ==> {
            &&& Some(e) == cast_vote_error(*old(dispute), *old(registry), juror, now)
            &&& *final(dispute) == *old(dispute)
            &&& *final(registry) == *old(registry)
        },
        r matches Ok(ev) ==> {
            &&& vote_for_buyer ==> final(dispute).votes_for_buyer == old(
                dispute,
            ).votes_for_buyer + 1 && final(dispute).votes_for_seller == old(
                dispute,
            ).votes_for_seller
            &&& !vote_for_buyer ==> final(dispute).votes_for_seller == old(
                dispute,
            ).votes_for_seller + 1 && final(dispute).votes_for_buyer == old(
                dispute,
            ).votes_for_buyer
            &&& final(dispute).status == status_after_vote(
                old(dispute).status,
                final(dispute).votes_for_buyer,
                final(dispute).votes_for_seller,
            )
            &&& (final(dispute).status is VerdictReached <==> (final(dispute).votes_for_buyer
                >= 2 || final(dispute).votes_for_seller >= 2))
            &&& final(dispute).id == old(dispute).id
            &&& final(dispute).offer == old(dispute).offer
            &&& final(dispute).initiator == old(dispute).initiator
            &&& final(dispute).respondent == old(dispute).respondent
            &&& final(dispute).reason == old(dispute).reason
            &&& final(dispute).jurors == old(dispute).jurors
            &&& final(dispute).evidence_buyer == old(dispute).evidence_buyer
            &&& final(dispute).evidence_seller == old(dispute).evidence_seller
            &&& final(dispute).created_at == old(dispute).created_at
            &&& final(dispute).resolved_at == old(dispute).resolved_at
            &&& final(registry).records@ == old(registry).records@.push(
                Vote { dispute: old(dispute).id, juror, vote_for_buyer, timestamp: now },
            )
            &&& ev.dispute == old(dispute).id
            &&& ev.juror == juror
            &&& ev.vote_for_buyer == vote_for_buyer
        },
        old(dispute).wf() && r is Ok ==> final(dispute).wf(),
        old(registry).wf() ==> final(registry).wf(),
{
    if registry.has_vote(dispute.id, juror) {
        return Err(P2PExchangeError::AlreadyVoted);
    }
    if dispute.status != DisputeStatus::EvidenceSubmission && dispute.status
        != DisputeStatus::Voting {
        return Err(P2PExchangeError::InvalidDisputeStatus);
    }
    let time_since_creation = match now.checked_sub(dispute.created_at) {
        Some(t) => t,
        None => {
            return Err(P2PExchangeError::MathOverflow);
        },
    };
    if time_since_creation > TOTAL_DISPUTE_DEADLINE {
        return Err(P2PExchangeError::DisputeExpired);
    }
    if dispute.status == DisputeStatus::Voting {
        let evidence_end = match dispute.created_at.checked_add(EVIDENCE_SUBMISSION_DEADLINE) {
            Some(t) => t,
            None => {
                return Err(P2PExchangeError::MathOverflow);
            },
        };
        let voting_deadline = match evidence_end.checked_add(VOTING_DEADLINE) {
            Some(t) => t,
            None => {
                return Err(P2PExchangeError::MathOverflow);
            },
        };
        if now > voting_deadline {
            return Err(P2PExchangeError::DisputeExpired);
        }
    }
    if !(dispute.jurors[0] == juror || dispute.jurors[1] == juror || dispute.jurors[2]
        == juror) {
        return Err(P2PExchangeError::NotAJuror);
    }
    let vote_count = (dispute.votes_for_buyer as u16) + (dispute.votes_for_seller as u16);
    if vote_count >= 3 {
        return Err(P2PExchangeError::AlreadyVoted);
    }
    let original_status = dispute.status;
    if vote_for_buyer {
        dispute.votes_for_buyer = dispute.votes_for_buyer + 1;
    } else {
        dispute.votes_for_seller = dispute.votes_for_seller + 1;
    }
    let new_total = (dispute.votes_for_buyer as u16) + (dispute.votes_for_seller as u16);
    if original_status == DisputeStatus::EvidenceSubmission && new_total == 1 {
        dispute.status = DisputeStatus::Voting;
    }
    if dispute.votes_for_buyer >= 2 || dispute.votes_for_seller >= 2 {
        dispute.status = DisputeStatus::VerdictReached;
    }
    registry.records.push(Vote { dispute: dispute.id, juror, vote_for_buyer, timestamp: now });
    proof {
        if old(registry).wf() {
            assert forall|i: int, j: int|
                0 <= i < j < registry.records@.len() implies !same_pair(
                #[trigger] registry.records@[i],
                #[trigger] registry.records@[j],
            ) by {
                if j == registry.records@.len() - 1 {
                    assert(!pair_matches(registry.records@[i], old(dispute).id, juror));
                }
            }
        }
    }
    Ok(VoteCast { dispute: dispute.id, juror, vote_for_buyer })
}

/// The error `execute_verdict` returns, or `None` where it succeeds. In
/// order: the administrative gate; the dispute must hold a verdict; the
/// dispute, offer, buyer and seller records must all belong together; the
/// vault must hold more than the reserve, and within a small fixed
/// tolerance of the expected balance; a tied tally is rejected outright;
/// and the payout may never exceed `amount + security_bond`.
pub open spec fn execute_verdict_error(
    dispute: Dispute,
    offer: Offer,
    vault: EscrowVault,
    buyer: AccountId,
    seller: AccountId,
    admin: Admin,
    authority: AccountId,
    reserve: u64,
) -> Option<P2PExchangeError> {
    let expected = offer.amount + offer.security_bond + reserve;
    if admin.authority != authority {
        Some(P2PExchangeError::AdminRequired)
    } else if !(dispute.status is VerdictReached) {
        Some(P2PExchangeError::InvalidDisputeStatus)
    } else if dispute.offer != offer.id {
        Some(P2PExchangeError::Unauthorized)
    } else if offer.seller != seller {
        Some(P2PExchangeError::Unauthorized)
    } else if offer.buyer != Some(buyer) {
        Some(P2PExchangeError::Unauthorized)
    } else if vault.balance <= reserve {
        Some(P2PExchangeError::InsufficientFunds)
    } else if expected > u64::MAX {
        Some(P2PExchangeError::MathOverflow)
    } else if vault.balance < expected - BALANCE_TOLERANCE || vault.balance > expected
        + BALANCE_TOLERANCE {
        Some(P2PExchangeError::InvalidEscrowBalance)
    } else if dispute.votes_for_buyer == dispute.votes_for_seller {
        Some(P2PExchangeError::TiedVote)
    } else if vault.balance - reserve > offer.amount + offer.security_bond {
        Some(P2PExchangeError::InvalidAmount)
    } else {
        None
    }
}

/// The party a verdict pays: the buyer on a buyer majority, the seller on a
/// seller majority.
pub open spec fn verdict_winner(
    dispute: Dispute,
    buyer: AccountId,
    seller: AccountId,
) -> AccountId {
    if dispute.votes_for_buyer > dispute.votes_for_seller {
        buyer
    } else {
        seller
    }
}

/// Executes a reached verdict. It reconciles the vault balance against the
/// expected amount, pays the transferable balance — never more than
/// `amount + security_bond` — to the strict-majority winner, and marks the
/// dispute `Resolved` and the offer `Completed`. A tied tally never
/// succeeds.
pub fn execute_verdict(
    dispute: &mut Dispute,
    offer: &mut Offer,
    vault: &mut EscrowVault,
    buyer: AccountId,
    seller: AccountId,
    admin: &Admin,
    authority: AccountId,
    reserve: u64,
    now: i64,
) -> (r: Result<VerdictExecuted, P2PExchangeError>)
    requires
        old(vault).offer == old(offer).id,
    ensures
        (r is Ok) <==> execute_verdict_error(
            *old(dispute),
            *old(offer),
            *old(vault),
            buyer,
            seller,
            *admin,
            authority,
            reserve,
        ) is None,
        r matches Err(e) ==> {
            &&& Some(e) == execute_verdict_error(
                *old(dispute),
                *old(offer),
                *old(vault),
                buyer,
                seller,
                *admin,
                authority,
                reserve,
            )
            &&& *final(dispute) == *old(dispute)
            &&& *final(offer) == *old(offer)
            &&& *final(vault) == *old(vault)
        },
        r is Ok ==> old(dispute).votes_for_buyer != old(dispute).votes_for_seller,
        r matches Ok(ev) ==> {
            &&& ev.dispute == old(dispute).id
            &&& ev.winner == verdict_winner(*old(dispute), buyer, seller)
            &&& ev.amount == old(vault).balance - reserve
            &&& ev.amount <= old(offer).amount + old(offer).security_bond
            &&& final(vault).balance == reserve
            &&& final(vault).offer == old(vault).offer
            &&& *final(dispute) == (Dispute {
                status: DisputeStatus::Resolved,
                resolved_at: now,
                ..*old(dispute)
            })
            &&& *final(offer) == (Offer {
                status: OfferStatus::Completed,
                updated_at: now,
                ..*old(offer)
            })
        },
        old(dispute).wf() && r is Ok ==> final(dispute).wf(),
        old(offer).wf() && r is Ok ==> final(offer).wf(),
{
    if admin.authority != authority {
        return Err(P2PExchangeError::AdminRequired);
    }
    if dispute.status != DisputeStatus::VerdictReached {
        return Err(P2PExchangeError::InvalidDisputeStatus);
    }
    if dispute.offer != offer.id {
        return Err(P2PExchangeError::Unauthorized);
    }
    if offer.seller != seller {
        return Err(P2PExchangeError::Unauthorized);
    }
    let buyer_matches = match offer.buyer {
        Some(b) => b == buyer,
        None => false,
    };
    if !buyer_matches {
        return Err(P2PExchangeError::Unauthorized);
    }
    if vault.balance <= reserve {
        return Err(P2PExchangeError::InsufficientFunds);
    }
    if offer.amount > u64::MAX - offer.security_bond {
        return Err(P2PExchangeError::MathOverflow);
    }
    let amount_and_bond = offer.amount + offer.security_bond;
    if amount_and_bond > u64::MAX - reserve {
        return Err(P2PExchangeError::MathOverflow);
    }
    let expected_balance = amount_and_bond + reserve;
    if vault.balance < expected_balance.saturating_sub(BALANCE_TOLERANCE) || vault.balance
        > expected_balance.saturating_add(BALANCE_TOLERANCE) {
        return Err(P2PExchangeError::InvalidEscrowBalance);
    }
    let transferable = vault.balance - reserve;
    let winner = if dispute.votes_for_buyer > dispute.votes_for_seller {
        buyer
    } else if dispute.votes_for_seller > dispute.votes_for_buyer {
        seller
    } else {
        return Err(P2PExchangeError::TiedVote);
    };
    if transferable > amount_and_bond {
        return Err(P2PExchangeError::InvalidAmount);
    }
    let auth = PayoutAuthority::derive(offer.id);
    vault.pay_out(&auth, transferable, reserve)?;
    dispute.status = DisputeStatus::Resolved;
    dispute.resolved_at = now;
    offer.status = OfferStatus::Completed;
    offer.updated_at = now;
    Ok(VerdictExecuted { dispute: dispute.id, winner, amount: transferable })
}

} // verus!
