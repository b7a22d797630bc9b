//! The reputation side channel: a weighted-average rating recomputed after
//! trades and disputes conclude. An external collaborator to the core
//! escrow logic; its failure never rolls a trade back.

use vstd::prelude::*;

use crate::errors::P2PExchangeError;
use crate::events::ReputationUpdated;
use crate::state::{AccountId, Admin, Reputation};

verus! {

/// Creates a user's reputation record with a perfect starting rating.
pub fn create_reputation(user: AccountId, now: i64) -> (rep: Reputation)
    ensures
        rep.user == user,
        rep.successful_trades == 0,
        rep.disputed_trades == 0,
        rep.disputes_won == 0,
        rep.disputes_lost == 0,
        rep.rating == 100,
        rep.last_updated == now,
{
    Reputation {
        user,
        successful_trades: 0,
        disputed_trades: 0,
        disputes_won: 0,
        disputes_lost: 0,
        rating: 100,
        last_updated: now,
    }
}

/// The share of this user's trades that completed successfully, in percent
/// (rounded down).
pub open spec fn success_rate(successful: int, total: int) -> int {
    successful * 100 / total
}

/// The share of this user's disputes that they won, in percent; a user with
/// no disputes counts as a full winner.
pub open spec fn dispute_win_rate(won: int, disputed: int) -> int {
    if disputed > 0 {
        won * 100 / disputed
    } else {
        100
    }
}

/// The weighted rating: seventy parts trade success, thirty parts dispute
/// wins, capped at 100.
pub open spec fn combined_rating(rate: int, win_rate: int) -> int {
    let weighted = (rate * 70 + win_rate * 30) / 100;
    if weighted > 100 {
        100
    } else {
        weighted
    }
}

/// The error `update_reputation` returns, or `None` where it succeeds:
/// the administrative gate, then each checked step of the rating formula
/// in evaluation order.
pub open spec fn update_reputation_error(
    rep: Reputation,
    admin: Admin,
    authority: AccountId,
    successful_trade: bool,
    dispute_resolved: bool,
    dispute_won: bool,
) -> Option<P2PExchangeError> {
    let st = rep.successful_trades + (if successful_trade {
        1int
    } else {
        0int
    });
    let dt = rep.disputed_trades + (if dispute_resolved {
        1int
    } else {
        0int
    });
    let dw = rep.disputes_won + (if dispute_resolved && dispute_won {
        1int
    } else {
        0int
    });
    let total = st + dt;
    if admin.authority != authority {
        Some(P2PExchangeError::AdminRequired)
    } else if total > u32::MAX {
        Some(P2PExchangeError::MathOverflow)
    } else if total > 0 && st * 100 > u32::MAX {
        Some(P2PExchangeError::MathOverflow)
    } else if total > 0 && dt > 0 && dw * 100 > u32::MAX {
        Some(P2PExchangeError::MathOverflow)
    } else if total > 0 && success_rate(st, total) * 70 > u32::MAX {
        Some(P2PExchangeError::MathOverflow)
    } else if total > 0 && dispute_win_rate(dw, dt) * 30 > u32::MAX {
        Some(P2PExchangeError::MathOverflow)
    } else if total > 0 && success_rate(st, total) * 70 + dispute_win_rate(dw, dt) * 30
        > u32::MAX {
        Some(P2PExchangeError::MathOverflow)
    } else {
        None
    }
}

/// Records a trade or dispute outcome for a user and recomputes their
/// weighted rating with overflow-checked arithmetic. On any failure the
/// record is unchanged. A user with no recorded activity keeps their
/// current rating.
pub fn update_reputation(
    rep: &mut Reputation,
    admin: &Admin,
    authority: AccountId,
    successful_trade: bool,
    dispute_resolved: bool,
    dispute_won: bool,
    now: i64,
) -> (r: Result<ReputationUpdated, P2PExchangeError>)
    requires
        successful_trade ==> old(rep).successful_trades < u32::MAX,
        dispute_resolved ==> old(rep).disputed_trades < u32::MAX,
        dispute_resolved && dispute_won ==> old(rep).disputes_won < u32::MAX,
        dispute_resolved && !dispute_won ==> old(rep).disputes_lost < u32::MAX,
    ensures
        (r is Ok) <==> update_reputation_error(
            *old(rep),
            *admin,
            authority,
            successful_trade,
            dispute_resolved,
            dispute_won,
        ) is None,
        r matches Err(e) ==> {
            &&& Some(e) == update_reputation_error(
                *old(rep),
                *admin,
                authority,
                successful_trade,
                dispute_resolved,
                dispute_won,
            )
            &&& *final(rep) == *old(rep)
        },
        r matches Ok(ev) ==> {
            let st = old(rep).successful_trades + (if successful_trade {
                1int
            } else {
                0int
            });
            let dt = old(rep).disputed_trades + (if dispute_resolved {
                1int
            } else {
                0int
            });
            let dw = old(rep).disputes_won + (if dispute_resolved && dispute_won {
                1int
            } else {
                0int
            });
            let dl = old(rep).disputes_lost + (if dispute_resolved && !dispute_won {
                1int
            } else {
                0int
            });
            &&& final(rep).user == old(rep).user
            &&& final(rep).successful_trades == st
            &&& final(rep).disputed_trades == dt
            &&& final(rep).disputes_won == dw
            &&& final(rep).disputes_lost == dl
            &&& final(rep).last_updated == now
            &&& st + dt == 0 ==> final(rep).rating == old(rep).rating
            &&& st + dt > 0 ==> final(rep).rating == combined_rating(
                success_rate(st, st + dt),
                dispute_win_rate(dw, dt),
            )
            &&& final(rep).rating <= 100 || final(rep).rating == old(rep).rating
            &&& ev.user == old(rep).user
            &&& ev.successful_trades == final(rep).successful_trades
            &&& ev.rating == final(rep).rating
        },
{
    if admin.authority != authority {
        return Err(P2PExchangeError::AdminRequired);
    }
    let new_successful = if successful_trade {
        rep.successful_trades + 1
    } else {
        rep.successful_trades
    };
    let new_disputed = if dispute_resolved {
        rep.disputed_trades + 1
    } else {
        rep.disputed_trades
    };
    let new_won = if dispute_resolved && dispute_won {
        rep.disputes_won + 1
    } else {
        rep.disputes_won
    };
    let new_lost = if dispute_resolved && !dispute_won {
        rep.disputes_lost + 1
    } else {
        rep.disputes_lost
    };
    let total_trades = match new_successful.checked_add(new_disputed) {
        Some(t) => t,
        None => {
            return Err(P2PExchangeError::MathOverflow);
        },
    };
    let mut new_rating = rep.rating;
    if total_trades > 0 {
        let rate = match new_successful.checked_mul(100) {
            Some(v) => v / total_trades,
            None => {
                return Err(P2PExchangeError::MathOverflow);
            },
        };
        let win_rate = if new_disputed > 0 {
            match new_won.checked_mul(100) {
                Some(v) => v / new_disputed,
                None => {
                    return Err(P2PExchangeError::MathOverflow);
                },
            }
        } else {
            100
        };
        let weighted_success = match rate.checked_mul(70) {
            Some(v) => v,
            None => {
                return Err(P2PExchangeError::MathOverflow);
            },
        };
        let weighted_dispute = match win_rate.checked_mul(30) {
            Some(v) => v,
            None => {
                return Err(P2PExchangeError::MathOverflow);
            },
        };
        let weighted = match weighted_success.checked_add(weighted_dispute) {
            Some(v) => v / 100,
            None => {
                return Err(P2PExchangeError::MathOverflow);
            },
        };
        new_rating = if weighted > 100 {
            100
        } else {
            weighted as u8
        };
    }
    rep.successful_trades = new_successful;
    rep.disputed_trades = new_disputed;
    rep.disputes_won = new_won;
    rep.disputes_lost = new_lost;
    rep.rating = new_rating;
    rep.last_updated = now;
    Ok(ReputationUpdated {
        user: rep.user,
        successful_trades: rep.successful_trades,
        rating: rep.rating,
    })
}

} // verus!
