use p2p_exchange::disputes::{
    assign_jurors, cast_vote, execute_verdict, open_dispute, submit_evidence, VoteRegistry,
};
use p2p_exchange::errors::P2PExchangeError;
use p2p_exchange::offers::{accept_offer, create_offer, list_offer};
use p2p_exchange::state::{
    AccountId, Admin, Dispute, DisputeStatus, EscrowVault, Offer, OfferStatus,
    EVIDENCE_SUBMISSION_DEADLINE, TOTAL_DISPUTE_DEADLINE, VOTING_DEADLINE,
};

const RESERVE: u64 = 2_039_280;

fn admin_record() -> Admin {
    Admin {
        authority: AccountId(50),
        secondary_authorities: [AccountId(0), AccountId(0)],
        required_signatures: 1,
    }
}

/// An accepted offer between seller 1 and buyer 2, with its funded vault.
fn accepted_offer() -> (Offer, EscrowVault) {
    let (mut offer, mut vault, _ev) = create_offer(
        AccountId(100),
        AccountId(1),
        1_000_000_000,
        100,
        "USD",
        "Bank Transfer",
        50,
        RESERVE,
    )
    .unwrap();
    list_offer(&mut offer, AccountId(1), 60).unwrap();
    accept_offer(&mut offer, &mut vault, AccountId(2), 100_000_000, 70).unwrap();
    (offer, vault)
}

/// A dispute opened by the buyer at time 1000, jurors 11, 12, 13 assigned,
/// one evidence item submitted so that voting is open.
fn dispute_ready_for_votes(offer: &mut Offer) -> Dispute {
    let (mut dispute, _ev) =
        open_dispute(AccountId(200), offer, AccountId(2), AccountId(1), "not paid", 1000)
            .unwrap();
    let admin = admin_record();
    assign_jurors(
        &mut dispute,
        &admin,
        AccountId(50),
        AccountId(11),
        AccountId(12),
        AccountId(13),
    )
    .unwrap();
    submit_evidence(&mut dispute, AccountId(2), "ipfs://receipt").unwrap();
    dispute
}

#[test]
fn test_dispute_verdict_flow() {
    let (mut offer, mut vault) = accepted_offer();
    let mut dispute = dispute_ready_for_votes(&mut offer);
    assert_eq!(offer.status, OfferStatus::DisputeOpened);
    assert_eq!(offer.dispute_id, Some(AccountId(200)));
    assert_eq!(dispute.status, DisputeStatus::EvidenceSubmission);

    let mut registry = VoteRegistry::new();
    cast_vote(&mut dispute, &mut registry, AccountId(11), true, 2000).unwrap();
    assert_eq!(dispute.status, DisputeStatus::Voting);
    assert_eq!(dispute.votes_for_buyer, 1);

    cast_vote(&mut dispute, &mut registry, AccountId(12), true, 3000).unwrap();
    // Two of three jurors suffice: the verdict is reached without juror 13.
    assert_eq!(dispute.status, DisputeStatus::VerdictReached);
    assert_eq!(dispute.votes_for_buyer, 2);
    assert_eq!(dispute.votes_for_seller, 0);
    assert!(dispute.votes_for_buyer + dispute.votes_for_seller <= 3);

    let admin = admin_record();
    let executed = execute_verdict(
        &mut dispute,
        &mut offer,
        &mut vault,
        AccountId(2),
        AccountId(1),
        &admin,
        AccountId(50),
        RESERVE,
        4000,
    )
    .unwrap();
    assert_eq!(executed.winner, AccountId(2));
    assert_eq!(executed.amount, 1_100_000_000);
    assert_eq!(vault.balance, RESERVE);
    assert_eq!(dispute.status, DisputeStatus::Resolved);
    assert_eq!(dispute.resolved_at, 4000);
    assert_eq!(offer.status, OfferStatus::Completed);
}

#[test]
fn test_seller_majority_pays_seller() {
    let (mut offer, mut vault) = accepted_offer();
    let mut dispute = dispute_ready_for_votes(&mut offer);
    let mut registry = VoteRegistry::new();
    cast_vote(&mut dispute, &mut registry, AccountId(11), false, 2000).unwrap();
    cast_vote(&mut dispute, &mut registry, AccountId(12), false, 3000).unwrap();
    assert_eq!(dispute.status, DisputeStatus::VerdictReached);
    let admin = admin_record();
    let executed = execute_verdict(
        &mut dispute,
        &mut offer,
        &mut vault,
        AccountId(2),
        AccountId(1),
        &admin,
        AccountId(50),
        RESERVE,
        4000,
    )
    .unwrap();
    assert_eq!(executed.winner, AccountId(1));
    assert_eq!(executed.amount, 1_100_000_000);
    assert_eq!(vault.balance, RESERVE);
}

#[test]
fn test_open_dispute_rejects_second_dispute() {
    let (mut offer, _vault) = accepted_offer();
    open_dispute(AccountId(200), &mut offer, AccountId(2), AccountId(1), "late", 1000).unwrap();
    let r = open_dispute(AccountId(201), &mut offer, AccountId(1), AccountId(2), "no", 1100);
    assert_eq!(r.unwrap_err(), P2PExchangeError::DisputeAlreadyExists);
    assert_eq!(offer.dispute_id, Some(AccountId(200)));
}

#[test]
fn test_open_dispute_rejects_non_party() {
    let (mut offer, _vault) = accepted_offer();
    let r = open_dispute(AccountId(200), &mut offer, AccountId(9), AccountId(1), "x", 1000);
    assert_eq!(r.unwrap_err(), P2PExchangeError::Unauthorized);
}

#[test]
fn test_open_dispute_rejects_wrong_respondent() {
    let (mut offer, _vault) = accepted_offer();
    let r = open_dispute(AccountId(200), &mut offer, AccountId(2), AccountId(9), "x", 1000);
    assert_eq!(r.unwrap_err(), P2PExchangeError::Unauthorized);
}

#[test]
fn test_open_dispute_rejects_empty_reason() {
    let (mut offer, _vault) = accepted_offer();
    let r = open_dispute(AccountId(200), &mut offer, AccountId(2), AccountId(1), "  ", 1000);
    assert_eq!(r.unwrap_err(), P2PExchangeError::InputTooLong);
}

#[test]
fn test_open_dispute_rejects_overlong_reason() {
    let (mut offer, _vault) = accepted_offer();
    let reason: String = "r".repeat(201);
    let r = open_dispute(
        AccountId(200),
        &mut offer,
        AccountId(2),
        AccountId(1),
        reason.as_str(),
        1000,
    );
    assert_eq!(r.unwrap_err(), P2PExchangeError::InputTooLong);
}

#[test]
fn test_open_dispute_rejects_completed_offer() {
    let (mut offer, _vault) = accepted_offer();
    offer.status = OfferStatus::Completed;
    let r = open_dispute(AccountId(200), &mut offer, AccountId(2), AccountId(1), "x", 1000);
    assert_eq!(r.unwrap_err(), P2PExchangeError::InvalidOfferStatus);
}

#[test]
fn test_assign_jurors_runs_once() {
    let (mut offer, _vault) = accepted_offer();
    let (mut dispute, _ev) =
        open_dispute(AccountId(200), &mut offer, AccountId(2), AccountId(1), "x", 1000).unwrap();
    let admin = admin_record();
    assign_jurors(&mut dispute, &admin, AccountId(50), AccountId(11), AccountId(12), AccountId(13))
        .unwrap();
    assert_eq!(dispute.status, DisputeStatus::JurorsAssigned);
    assert_eq!(dispute.jurors, [AccountId(11), AccountId(12), AccountId(13)]);
    let r = assign_jurors(
        &mut dispute,
        &admin,
        AccountId(50),
        AccountId(21),
        AccountId(22),
        AccountId(23),
    );
    assert_eq!(r.unwrap_err(), P2PExchangeError::InvalidDisputeStatus);
    assert_eq!(dispute.jurors, [AccountId(11), AccountId(12), AccountId(13)]);
}

#[test]
fn test_assign_jurors_requires_admin() {
    let (mut offer, _vault) = accepted_offer();
    let (mut dispute, _ev) =
        open_dispute(AccountId(200), &mut offer, AccountId(2), AccountId(1), "x", 1000).unwrap();
    let admin = admin_record();
    let r = assign_jurors(
        &mut dispute,
        &admin,
        AccountId(51),
        AccountId(11),
        AccountId(12),
        AccountId(13),
    );
    assert_eq!(r.unwrap_err(), P2PExchangeError::AdminRequired);
}

#[test]
fn test_submit_evidence_caps_items() {
    let (mut offer, _vault) = accepted_offer();
    let (mut dispute, _ev) =
        open_dispute(AccountId(200), &mut offer, AccountId(2), AccountId(1), "x", 1000).unwrap();
    let admin = admin_record();
    assign_jurors(&mut dispute, &admin, AccountId(50), AccountId(11), AccountId(12), AccountId(13))
        .unwrap();
    for _i in 0..5 {
        submit_evidence(&mut dispute, AccountId(2), "ipfs://item").unwrap();
    }
    assert_eq!(dispute.evidence_buyer.len(), 5);
    let r = submit_evidence(&mut dispute, AccountId(2), "ipfs://extra");
    assert_eq!(r.unwrap_err(), P2PExchangeError::TooManyEvidenceItems);
    assert_eq!(dispute.evidence_buyer.len(), 5);
    // The respondent's list is counted separately.
    submit_evidence(&mut dispute, AccountId(1), "ipfs://reply").unwrap();
    assert_eq!(dispute.evidence_seller.len(), 1);
}

#[test]
fn test_submit_evidence_rejects_non_party() {
    let (mut offer, _vault) = accepted_offer();
    let (mut dispute, _ev) =
        open_dispute(AccountId(200), &mut offer, AccountId(2), AccountId(1), "x", 1000).unwrap();
    let admin = admin_record();
    assign_jurors(&mut dispute, &admin, AccountId(50), AccountId(11), AccountId(12), AccountId(13))
        .unwrap();
    let r = submit_evidence(&mut dispute, AccountId(9), "ipfs://item");
    assert_eq!(r.unwrap_err(), P2PExchangeError::Unauthorized);
}

#[test]
fn test_submit_evidence_rejects_overlong_url() {
    let (mut offer, _vault) = accepted_offer();
    let (mut dispute, _ev) =
        open_dispute(AccountId(200), &mut offer, AccountId(2), AccountId(1), "x", 1000).unwrap();
    let admin = admin_record();
    assign_jurors(&mut dispute, &admin, AccountId(50), AccountId(11), AccountId(12), AccountId(13))
        .unwrap();
    let url: String = "u".repeat(301);
    let r = submit_evidence(&mut dispute, AccountId(2), url.as_str());
    assert_eq!(r.unwrap_err(), P2PExchangeError::InputTooLong);
}

#[test]
fn test_vote_rejected_after_total_deadline() {
    let (mut offer, _vault) = accepted_offer();
    let mut dispute = dispute_ready_for_votes(&mut offer);
    let mut registry = VoteRegistry::new();
    // Opened at 1000; the vote arrives one second past the total deadline.
    let late = 1000 + TOTAL_DISPUTE_DEADLINE + 1;
    let r = cast_vote(&mut dispute, &mut registry, AccountId(11), true, late);
    assert_eq!(r.unwrap_err(), P2PExchangeError::DisputeExpired);
    assert_eq!(dispute.votes_for_buyer, 0);
    assert_eq!(dispute.votes_for_seller, 0);
    assert_eq!(registry.records.len(), 0);
}

#[test]
fn test_vote_rejected_after_voting_deadline() {
    let (mut offer, _vault) = accepted_offer();
    let mut dispute = dispute_ready_for_votes(&mut offer);
    let mut registry = VoteRegistry::new();
    cast_vote(&mut dispute, &mut registry, AccountId(11), true, 2000).unwrap();
    assert_eq!(dispute.status, DisputeStatus::Voting);
    // Within the total deadline, but past the evidence plus voting windows.
    let late = 1000 + EVIDENCE_SUBMISSION_DEADLINE + VOTING_DEADLINE + 1;
    assert!(late <= 1000 + TOTAL_DISPUTE_DEADLINE);
    let r = cast_vote(&mut dispute, &mut registry, AccountId(12), true, late);
    assert_eq!(r.unwrap_err(), P2PExchangeError::DisputeExpired);
    assert_eq!(dispute.votes_for_buyer, 1);
}

#[test]
fn test_duplicate_vote_fails_after_first_committed() {
    let (mut offer, _vault) = accepted_offer();
    let mut dispute = dispute_ready_for_votes(&mut offer);
    let mut registry = VoteRegistry::new();
    cast_vote(&mut dispute, &mut registry, AccountId(11), true, 2000).unwrap();
    assert_eq!(dispute.votes_for_buyer, 1);
    let r = cast_vote(&mut dispute, &mut registry, AccountId(11), false, 2100);
    assert_eq!(r.unwrap_err(), P2PExchangeError::AlreadyVoted);
    // The first vote's effects stand; nothing further changed.
    assert_eq!(dispute.votes_for_buyer, 1);
    assert_eq!(dispute.votes_for_seller, 0);
    assert_eq!(registry.records.len(), 1);
    let record = registry.records[0];
    assert_eq!(record.dispute, AccountId(200));
    assert_eq!(record.juror, AccountId(11));
    assert!(record.vote_for_buyer);
    assert_eq!(record.timestamp, 2000);
}

#[test]
fn test_vote_deadline_arithmetic_overflow() {
    let (mut offer, _vault) = accepted_offer();
    let mut dispute = dispute_ready_for_votes(&mut offer);
    let mut registry = VoteRegistry::new();
    // A creation timestamp so far in the past that the elapsed time cannot
    // be represented: the checked subtraction refuses it.
    dispute.created_at = i64::MIN;
    let r = cast_vote(&mut dispute, &mut registry, AccountId(11), true, 1);
    assert_eq!(r.unwrap_err(), P2PExchangeError::MathOverflow);
    assert_eq!(dispute.votes_for_buyer, 0);
}

#[test]
fn test_vote_rejected_on_full_tally() {
    let (mut offer, _vault) = accepted_offer();
    let mut dispute = dispute_ready_for_votes(&mut offer);
    // A record forced to a full tally: the sanity layer refuses a fourth
    // vote even though no vote record exists for this juror.
    dispute.status = DisputeStatus::Voting;
    dispute.votes_for_buyer = 2;
    dispute.votes_for_seller = 1;
    let mut registry = VoteRegistry::new();
    let r = cast_vote(&mut dispute, &mut registry, AccountId(13), true, 2000);
    assert_eq!(r.unwrap_err(), P2PExchangeError::AlreadyVoted);
    assert_eq!(dispute.votes_for_buyer, 2);
    assert_eq!(dispute.votes_for_seller, 1);
}

#[test]
fn test_vote_rejected_for_non_juror() {
    let (mut offer, _vault) = accepted_offer();
    let mut dispute = dispute_ready_for_votes(&mut offer);
    let mut registry = VoteRegistry::new();
    let r = cast_vote(&mut dispute, &mut registry, AccountId(9), true, 2000);
    assert_eq!(r.unwrap_err(), P2PExchangeError::NotAJuror);
}

#[test]
fn test_vote_rejected_before_evidence_phase() {
    let (mut offer, _vault) = accepted_offer();
    let (mut dispute, _ev) =
        open_dispute(AccountId(200), &mut offer, AccountId(2), AccountId(1), "x", 1000).unwrap();
    let mut registry = VoteRegistry::new();
    let r = cast_vote(&mut dispute, &mut registry, AccountId(11), true, 2000);
    assert_eq!(r.unwrap_err(), P2PExchangeError::InvalidDisputeStatus);
}

#[test]
fn test_vote_registry_spans_disputes() {
    let (mut offer_a, _vault_a) = accepted_offer();
    let mut dispute_a = dispute_ready_for_votes(&mut offer_a);
    let (mut offer_b, mut vault_b, _ev) = create_offer(
        AccountId(101),
        AccountId(1),
        500,
        7,
        "EUR",
        "cash",
        50,
        RESERVE,
    )
    .unwrap();
    list_offer(&mut offer_b, AccountId(1), 60).unwrap();
    accept_offer(&mut offer_b, &mut vault_b, AccountId(2), 0, 70).unwrap();
    let (mut dispute_b, _ev) =
        open_dispute(AccountId(201), &mut offer_b, AccountId(2), AccountId(1), "x", 1000)
            .unwrap();
    let admin = admin_record();
    assign_jurors(
        &mut dispute_b,
        &admin,
        AccountId(50),
        AccountId(11),
        AccountId(12),
        AccountId(13),
    )
    .unwrap();
    submit_evidence(&mut dispute_b, AccountId(2), "ipfs://b").unwrap();
    let mut registry = VoteRegistry::new();
    // The same juror may vote on two different disputes, once on each.
    cast_vote(&mut dispute_a, &mut registry, AccountId(11), true, 2000).unwrap();
    cast_vote(&mut dispute_b, &mut registry, AccountId(11), false, 2000).unwrap();
    assert_eq!(registry.records.len(), 2);
    let r = cast_vote(&mut dispute_b, &mut registry, AccountId(11), false, 2100);
    assert_eq!(r.unwrap_err(), P2PExchangeError::AlreadyVoted);
}

/// A dispute record forced into a tied verdict state, as the defensive
/// guard in verdict execution must reject it.
fn tied_dispute(offer: &mut Offer, votes: u8) -> Dispute {
    let mut dispute = dispute_ready_for_votes(offer);
    dispute.status = DisputeStatus::VerdictReached;
    dispute.votes_for_buyer = votes;
    dispute.votes_for_seller = votes;
    dispute
}

#[test]
fn test_execute_verdict_rejects_tie() {
    let (mut offer, mut vault) = accepted_offer();
    let mut dispute = tied_dispute(&mut offer, 1);
    let admin = admin_record();
    let r = execute_verdict(
        &mut dispute,
        &mut offer,
        &mut vault,
        AccountId(2),
        AccountId(1),
        &admin,
        AccountId(50),
        RESERVE,
        4000,
    );
    assert_eq!(r.unwrap_err(), P2PExchangeError::TiedVote);
    assert_eq!(dispute.status, DisputeStatus::VerdictReached);
    assert_eq!(vault.balance, 1_100_000_000 + RESERVE);
}

#[test]
fn test_execute_verdict_rejects_two_two_tie() {
    let (mut offer, mut vault) = accepted_offer();
    let mut dispute = tied_dispute(&mut offer, 2);
    let admin = admin_record();
    let r = execute_verdict(
        &mut dispute,
        &mut offer,
        &mut vault,
        AccountId(2),
        AccountId(1),
        &admin,
        AccountId(50),
        RESERVE,
        4000,
    );
    assert_eq!(r.unwrap_err(), P2PExchangeError::TiedVote);
}

fn verdict_reached() -> (Offer, EscrowVault, Dispute) {
    let (mut offer, vault) = accepted_offer();
    let mut dispute = dispute_ready_for_votes(&mut offer);
    let mut registry = VoteRegistry::new();
    cast_vote(&mut dispute, &mut registry, AccountId(11), true, 2000).unwrap();
    cast_vote(&mut dispute, &mut registry, AccountId(12), true, 3000).unwrap();
    (offer, vault, dispute)
}

#[test]
fn test_execute_verdict_requires_admin() {
    let (mut offer, mut vault, mut dispute) = verdict_reached();
    let admin = admin_record();
    let r = execute_verdict(
        &mut dispute,
        &mut offer,
        &mut vault,
        AccountId(2),
        AccountId(1),
        &admin,
        AccountId(51),
        RESERVE,
        4000,
    );
    assert_eq!(r.unwrap_err(), P2PExchangeError::AdminRequired);
}

#[test]
fn test_execute_verdict_rejects_mismatched_records() {
    let (mut offer, mut vault, mut dispute) = verdict_reached();
    let admin = admin_record();
    dispute.offer = AccountId(999);
    let r = execute_verdict(
        &mut dispute,
        &mut offer,
        &mut vault,
        AccountId(2),
        AccountId(1),
        &admin,
        AccountId(50),
        RESERVE,
        4000,
    );
    assert_eq!(r.unwrap_err(), P2PExchangeError::Unauthorized);
    dispute.offer = AccountId(100);
    // A substituted buyer account must not be able to redirect the payout.
    let r = execute_verdict(
        &mut dispute,
        &mut offer,
        &mut vault,
        AccountId(9),
        AccountId(1),
        &admin,
        AccountId(50),
        RESERVE,
        4000,
    );
    assert_eq!(r.unwrap_err(), P2PExchangeError::Unauthorized);
}

#[test]
fn test_execute_verdict_requires_verdict_reached() {
    let (mut offer, mut vault) = accepted_offer();
    let mut dispute = dispute_ready_for_votes(&mut offer);
    let admin = admin_record();
    let r = execute_verdict(
        &mut dispute,
        &mut offer,
        &mut vault,
        AccountId(2),
        AccountId(1),
        &admin,
        AccountId(50),
        RESERVE,
        4000,
    );
    assert_eq!(r.unwrap_err(), P2PExchangeError::InvalidDisputeStatus);
}

#[test]
fn test_execute_verdict_rejects_drained_vault() {
    let (mut offer, mut vault, mut dispute) = verdict_reached();
    let admin = admin_record();
    vault.balance = RESERVE;
    let r = execute_verdict(
        &mut dispute,
        &mut offer,
        &mut vault,
        AccountId(2),
        AccountId(1),
        &admin,
        AccountId(50),
        RESERVE,
        4000,
    );
    assert_eq!(r.unwrap_err(), P2PExchangeError::InsufficientFunds);
}

#[test]
fn test_execute_verdict_balance_tolerance() {
    let admin = admin_record();
    // One unit past the tolerance: rejected as an escrow-balance mismatch.
    let (mut offer, mut vault, mut dispute) = verdict_reached();
    vault.balance += 1001;
    let r = execute_verdict(
        &mut dispute,
        &mut offer,
        &mut vault,
        AccountId(2),
        AccountId(1),
        &admin,
        AccountId(50),
        RESERVE,
        4000,
    );
    assert_eq!(r.unwrap_err(), P2PExchangeError::InvalidEscrowBalance);

    // Within tolerance but above the expected balance: the payout would
    // exceed amount plus bond, which the last guard rejects.
    let (mut offer, mut vault, mut dispute) = verdict_reached();
    vault.balance += 500;
    let r = execute_verdict(
        &mut dispute,
        &mut offer,
        &mut vault,
        AccountId(2),
        AccountId(1),
        &admin,
        AccountId(50),
        RESERVE,
        4000,
    );
    assert_eq!(r.unwrap_err(), P2PExchangeError::InvalidAmount);

    // Within tolerance below the expected balance: the shortfall is paid
    // out and the vault still keeps its full reserve.
    let (mut offer, mut vault, mut dispute) = verdict_reached();
    vault.balance -= 500;
    let executed = execute_verdict(
        &mut dispute,
        &mut offer,
        &mut vault,
        AccountId(2),
        AccountId(1),
        &admin,
        AccountId(50),
        RESERVE,
        4000,
    )
    .unwrap();
    assert_eq!(executed.amount, 1_100_000_000 - 500);
    assert_eq!(vault.balance, RESERVE);
}
