//! The library-wide laws, stated once as proof functions over the record
//! invariants. Each operation's own contract establishes or preserves the
//! invariants these laws draw on.

use vstd::prelude::*;

use crate::disputes::{same_pair, VoteRegistry};
use crate::state::{status_requires_buyer, Dispute, Offer};

verus! {

/// An offer records a buyer if and only if its status is one reached by
/// acceptance: no buyer before `Accepted`, always a buyer from `Accepted`
/// on.
pub proof fn lemma_buyer_tracks_acceptance(offer: Offer)
    requires
        offer.wf(),
    ensures
        (offer.buyer is Some) <==> status_requires_buyer(offer.status),
{
}

/// A dispute's tallies always sum to at most the three jurors, and a
/// dispute that reached a verdict always holds a strict majority.
pub proof fn lemma_tally_bounded(dispute: Dispute)
    requires
        dispute.wf(),
    ensures
        0 <= dispute.votes_for_buyer + dispute.votes_for_seller <= 3,
        (dispute.status is VerdictReached || dispute.status is Resolved)
            ==> (dispute.votes_for_buyer >= 2 || dispute.votes_for_seller >= 2),
{
}

/// At most one vote record exists per (dispute, juror) pair: two records
/// of the same pair are the same record.
pub proof fn lemma_vote_record_unique(registry: VoteRegistry, i: int, j: int)
    requires
        registry.wf(),
        0 <= i < registry.records@.len(),
        0 <= j < registry.records@.len(),
        same_pair(registry.records@[i], registry.records@[j]),
    ensures
        i == j,
{
    if i < j {
        assert(!same_pair(registry.records@[i], registry.records@[j]));
    }
    if j < i {
        assert(!same_pair(registry.records@[j], registry.records@[i]));
    }
}

} // verus!
