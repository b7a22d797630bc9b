//! The reward-token side channel: bookkeeping for trade and governance
//! reward accrual, claiming, and the best-effort eligibility notifications
//! the core operations hand to the host. An external collaborator to the
//! escrow core; its failure never rolls a trade or a vote back.

use vstd::prelude::*;

use crate::errors::P2PExchangeError;
use crate::events::{
    RewardEligible, RewardTokenCreated, RewardTokenUpdated, RewardsClaimed, RewardsEarned,
};
use crate::state::{AccountId, Admin, RewardToken, UserRewards};

verus! {

/// Seconds that must pass between two reward-parameter updates.
pub const MIN_UPDATE_INTERVAL: i64 = 3600;
/// Upper bound on the per-trade reward rate.
pub const MAX_REWARD_RATE_PER_TRADE: u64 = 10000;
/// Upper bound on the per-vote reward rate.
pub const MAX_REWARD_RATE_PER_VOTE: u64 = 5000;
/// Lower bound on the qualifying trade volume.
pub const MIN_TRADE_VOLUME_LIMIT: u64 = 1000000;
/// Upper bound on the qualifying trade volume.
pub const MAX_TRADE_VOLUME_LIMIT: u64 = 100000000000;
/// Smallest trade volume for which an eligibility notification goes out.
pub const MIN_VOLUME_FOR_EVENT: u64 = 10000000;

/// The error `create_reward_token` returns, or `None` where it succeeds:
/// an administrative action.
pub open spec fn create_reward_token_error(admin: Admin, authority: AccountId) -> Option<
    P2PExchangeError,
> {
    if admin.authority != authority {
        Some(P2PExchangeError::AdminRequired)
    } else {
        None
    }
}

/// Initializes the reward-token bookkeeping with the given rates.
pub fn create_reward_token(
    admin: &Admin,
    authority: AccountId,
    mint: AccountId,
    reward_rate_per_trade: u64,
    reward_rate_per_vote: u64,
    min_trade_volume: u64,
    now: i64,
) -> (r: Result<(RewardToken, RewardTokenCreated), P2PExchangeError>)
    ensures
        (r is Ok) <==> create_reward_token_error(*admin, authority) is None,
        r matches Err(e) ==> Some(e) == create_reward_token_error(*admin, authority),
        r matches Ok(t) ==> {
            let (token, ev) = t;
            &&& token.authority == authority
            &&& token.mint == mint
            &&& token.total_supply == 0
            &&& token.reward_rate_per_trade == reward_rate_per_trade
            &&& token.reward_rate_per_vote == reward_rate_per_vote
            &&& token.min_trade_volume == min_trade_volume
            &&& token.created_at == now
            &&& token.last_updated == now
            &&& ev.authority == authority
            &&& ev.reward_rate_per_trade == reward_rate_per_trade
            &&& ev.reward_rate_per_vote == reward_rate_per_vote
        },
{
    if admin.authority != authority {
        return Err(P2PExchangeError::AdminRequired);
    }
    let token = RewardToken {
        authority,
        mint,
        total_supply: 0,
        reward_rate_per_trade,
        reward_rate_per_vote,
        min_trade_volume,
        created_at: now,
        last_updated: now,
    };
    let ev = RewardTokenCreated { authority, reward_rate_per_trade, reward_rate_per_vote };
    Ok((token, ev))
}

/// Creates a user's empty reward account.
pub fn create_user_rewards(user: AccountId) -> (ur: UserRewards)
    ensures
        ur.user == user,
        ur.total_earned == 0,
        ur.total_claimed == 0,
        ur.unclaimed_balance == 0,
        ur.trading_volume == 0,
        ur.governance_votes == 0,
        ur.last_trade_reward == 0,
        ur.last_vote_reward == 0,
{
    UserRewards {
        user,
        total_earned: 0,
        total_claimed: 0,
        unclaimed_balance: 0,
        trading_volume: 0,
        governance_votes: 0,
        last_trade_reward: 0,
        last_vote_reward: 0,
    }
}

/// The error `mint_trade_rewards` returns, or `None` where it succeeds or
/// skips a trade below the volume threshold: each checked accumulator in
/// evaluation order.
pub open spec fn mint_trade_rewards_error(
    token: RewardToken,
    ur: UserRewards,
    trade_volume: u64,
) -> Option<P2PExchangeError> {
    let reward = token.reward_rate_per_trade;
    if trade_volume < token.min_trade_volume {
        None
    } else if ur.total_earned + reward > u64::MAX {
        Some(P2PExchangeError::MathOverflow)
    } else if ur.unclaimed_balance + reward > u64::MAX {
        Some(P2PExchangeError::MathOverflow)
    } else if ur.trading_volume + trade_volume > u64::MAX {
        Some(P2PExchangeError::MathOverflow)
    } else {
        None
    }
}

/// Accrues the per-trade reward for one user, if the trade's volume
/// qualifies. A trade below the threshold succeeds without accruing
/// anything, mirroring the best-effort nature of the side channel.
pub fn mint_trade_rewards(
    token: &RewardToken,
    ur: &mut UserRewards,
    trade_volume: u64,
    now: i64,
) -> (r: Result<Option<RewardsEarned>, P2PExchangeError>)
    ensures
        (r is Ok) <==> mint_trade_rewards_error(*token, *old(ur), trade_volume) is None,
        r matches Err(e) ==> {
            &&& Some(e) == mint_trade_rewards_error(*token, *old(ur), trade_volume)
            &&& *final(ur) == *old(ur)
        },
        r matches Ok(opt) ==> {
            &&& (opt is Some <==> trade_volume >= token.min_trade_volume)
            &&& opt is None ==> *final(ur) == *old(ur)
            &&& opt matches Some(ev) ==> {
                &&& *final(ur) == (UserRewards {
                    total_earned: (old(ur).total_earned + token.reward_rate_per_trade) as u64,
                    unclaimed_balance: (old(ur).unclaimed_balance
                        + token.reward_rate_per_trade) as u64,
                    trading_volume: (old(ur).trading_volume + trade_volume) as u64,
                    last_trade_reward: now,
                    ..*old(ur)
                })
                &&& ev.user == old(ur).user
                &&& ev.amount == token.reward_rate_per_trade
                &&& ev.reason@ == "trade"@
                &&& ev.timestamp == now
            }
        },
{
    if trade_volume < token.min_trade_volume {
        return Ok(None);
    }
    let reward_amount = token.reward_rate_per_trade;
    let new_earned = match ur.total_earned.checked_add(reward_amount) {
        Some(v) => v,
        None => {
            return Err(P2PExchangeError::MathOverflow);
        },
    };
    let new_unclaimed = match ur.unclaimed_balance.checked_add(reward_amount) {
        Some(v) => v,
        None => {
            return Err(P2PExchangeError::MathOverflow);
        },
    };
    let new_volume = match ur.trading_volume.checked_add(trade_volume) {
        Some(v) => v,
        None => {
            return Err(P2PExchangeError::MathOverflow);
        },
    };
    ur.total_earned = new_earned;
    ur.unclaimed_balance = new_unclaimed;
    ur.trading_volume = new_volume;
    ur.last_trade_reward = now;
    Ok(
        Some(
            RewardsEarned {
                user: ur.user,
                amount: reward_amount,
                reason: "trade".to_owned(),
                timestamp: now,
            },
        ),
    )
}

/// The error `mint_vote_rewards` returns, or `None` where it succeeds.
pub open spec fn mint_vote_rewards_error(token: RewardToken, ur: UserRewards) -> Option<
    P2PExchangeError,
> {
    let reward = token.reward_rate_per_vote;
    if ur.total_earned + reward > u64::MAX {
        Some(P2PExchangeError::MathOverflow)
    } else if ur.unclaimed_balance + reward > u64::MAX {
        Some(P2PExchangeError::MathOverflow)
    } else if ur.governance_votes + 1 > u32::MAX {
        Some(P2PExchangeError::MathOverflow)
    } else {
        None
    }
}

/// Accrues the per-vote governance reward for one juror.
pub fn mint_vote_rewards(token: &RewardToken, ur: &mut UserRewards, now: i64) -> (r: Result<
    RewardsEarned,
    P2PExchangeError,
>)
    ensures
        (r is Ok) <==> mint_vote_rewards_error(*token, *old(ur)) is None,
        r matches Err(e) ==> {
            &&& Some(e) == mint_vote_rewards_error(*token, *old(ur))
            &&& *final(ur) == *old(ur)
        },
        r matches Ok(ev) ==> {
            &&& *final(ur) == (UserRewards {
                total_earned: (old(ur).total_earned + token.reward_rate_per_vote) as u64,
                unclaimed_balance: (old(ur).unclaimed_balance + token.reward_rate_per_vote)
                    as u64,
                governance_votes: (old(ur).governance_votes + 1) as u32,
                last_vote_reward: now,
                ..*old(ur)
            })
            &&& ev.user == old(ur).user
            &&& ev.amount == token.reward_rate_per_vote
            &&& ev.reason@ == "vote"@
            &&& ev.timestamp == now
        },
{
    let reward_amount = token.reward_rate_per_vote;
    let new_earned = match ur.total_earned.checked_add(reward_amount) {
        Some(v) => v,
        None => {
            return Err(P2PExchangeError::MathOverflow);
        },
    };
    let new_unclaimed = match ur.unclaimed_balance.checked_add(reward_amount) {
        Some(v) => v,
        None => {
            return Err(P2PExchangeError::MathOverflow);
        },
    };
    let new_votes = match ur.governance_votes.checked_add(1) {
        Some(v) => v,
        None => {
            return Err(P2PExchangeError::MathOverflow);
        },
    };
    ur.total_earned = new_earned;
    ur.unclaimed_balance = new_unclaimed;
    ur.governance_votes = new_votes;
    ur.last_vote_reward = now;
    Ok(
        RewardsEarned {
            user: ur.user,
            amount: reward_amount,
            reason: "vote".to_owned(),
            timestamp: now,
        },
    )
}

/// The error `claim_rewards` returns, or `None` where it succeeds: there
/// must be something to claim, and the lifetime-claimed accumulator must
/// not overflow.
pub open spec fn claim_rewards_error(ur: UserRewards) -> Option<P2PExchangeError> {
    if ur.unclaimed_balance == 0 {
        Some(P2PExchangeError::NoRewardsToClaim)
    } else if ur.total_claimed + ur.unclaimed_balance > u64::MAX {
        Some(P2PExchangeError::MathOverflow)
    } else {
        None
    }
}

/// Claims the full unclaimed balance. The returned event instructs the
/// host to mint exactly `amount` tokens to the user; the bookkeeping moves
/// that amount from unclaimed to claimed.
pub fn claim_rewards(ur: &mut UserRewards, now: i64) -> (r: Result<
    RewardsClaimed,
    P2PExchangeError,
>)
    ensures
        (r is Ok) <==> claim_rewards_error(*old(ur)) is None,
        r matches Err(e) ==> {
            &&& Some(e) == claim_rewards_error(*old(ur))
            &&& *final(ur) == *old(ur)
        },
        r matches Ok(ev) ==> {
            &&& ev.user == old(ur).user
            &&& ev.amount == old(ur).unclaimed_balance
            &&& ev.timestamp == now
            &&& *final(ur) == (UserRewards {
                total_claimed: (old(ur).total_claimed + old(ur).unclaimed_balance) as u64,
                unclaimed_balance: 0,
                ..*old(ur)
            })
        },
{
    if ur.unclaimed_balance == 0 {
        return Err(P2PExchangeError::NoRewardsToClaim);
    }
    let claim_amount = ur.unclaimed_balance;
    let new_claimed = match ur.total_claimed.checked_add(claim_amount) {
        Some(v) => v,
        None => {
            return Err(P2PExchangeError::MathOverflow);
        },
    };
    ur.total_claimed = new_claimed;
    ur.unclaimed_balance = 0;
    Ok(RewardsClaimed { user: ur.user, amount: claim_amount, timestamp: now })
}

/// The error `update_reward_token` returns, or `None` where it succeeds:
/// the administrative gate, the once-an-hour rate limit, then the bounds
/// that keep the parameters out of governance-attack territory.
pub open spec fn update_reward_token_error(
    token: RewardToken,
    admin: Admin,
    authority: AccountId,
    reward_rate_per_trade: u64,
    reward_rate_per_vote: u64,
    min_trade_volume: u64,
    now: i64,
) -> Option<P2PExchangeError> {
    if admin.authority != authority {
        Some(P2PExchangeError::AdminRequired)
    } else if token.last_updated > 0 && now - token.last_updated < MIN_UPDATE_INTERVAL {
        Some(P2PExchangeError::TooManyRequests)
    } else if reward_rate_per_trade > MAX_REWARD_RATE_PER_TRADE {
        Some(P2PExchangeError::InvalidAmount)
    } else if reward_rate_per_vote > MAX_REWARD_RATE_PER_VOTE {
        Some(P2PExchangeError::InvalidAmount)
    } else if min_trade_volume < MIN_TRADE_VOLUME_LIMIT || min_trade_volume
        > MAX_TRADE_VOLUME_LIMIT {
        Some(P2PExchangeError::InvalidAmount)
    } else {
        None
    }
}

/// Changes the reward parameters, at most once per hour and only within
/// their fixed bounds.
pub fn update_reward_token(
    token: &mut RewardToken,
    admin: &Admin,
    authority: AccountId,
    reward_rate_per_trade: u64,
    reward_rate_per_vote: u64,
    min_trade_volume: u64,
    now: i64,
) -> (r: Result<RewardTokenUpdated, P2PExchangeError>)
    requires
        old(token).last_updated > 0 ==> i64::MIN <= now - old(token).last_updated <= i64::MAX,
    ensures
        (r is Ok) <==> update_reward_token_error(
            *old(token),
            *admin,
            authority,
            reward_rate_per_trade,
            reward_rate_per_vote,
            min_trade_volume,
            now,
        ) is None,
        r matches Err(e) ==> {
            &&& Some(e) == update_reward_token_error(
                *old(token),
                *admin,
                authority,
                reward_rate_per_trade,
                reward_rate_per_vote,
                min_trade_volume,
                now,
            )
            &&& *final(token) == *old(token)
        },
        r matches Ok(ev) ==> {
            &&& *final(token) == (RewardToken {
                reward_rate_per_trade,
                reward_rate_per_vote,
                min_trade_volume,
                last_updated: now,
                ..*old(token)
            })
            &&& ev.authority == authority
            &&& ev.reward_rate_per_trade == reward_rate_per_trade
            &&& ev.reward_rate_per_vote == reward_rate_per_vote
            &&& ev.min_trade_volume == min_trade_volume
            &&& ev.timestamp == now
        },
{
    if admin.authority != authority {
        return Err(P2PExchangeError::AdminRequired);
    }
    if token.last_updated > 0 && now - token.last_updated < MIN_UPDATE_INTERVAL {
        return Err(P2PExchangeError::TooManyRequests);
    }
    if reward_rate_per_trade > MAX_REWARD_RATE_PER_TRADE {
        return Err(P2PExchangeError::InvalidAmount);
    }
    if reward_rate_per_vote > MAX_REWARD_RATE_PER_VOTE {
        return Err(P2PExchangeError::InvalidAmount);
    }
    if min_trade_volume < MIN_TRADE_VOLUME_LIMIT || min_trade_volume > MAX_TRADE_VOLUME_LIMIT {
        return Err(P2PExchangeError::InvalidAmount);
    }
    token.reward_rate_per_trade = reward_rate_per_trade;
    token.reward_rate_per_vote = reward_rate_per_vote;
    token.min_trade_volume = min_trade_volume;
    token.last_updated = now;
    Ok(
        RewardTokenUpdated {
            authority,
            reward_rate_per_trade,
            reward_rate_per_vote,
            min_trade_volume,
            timestamp: now,
        },
    )
}

/// The eligibility notification a completed trade produces: only trades of
/// at least `MIN_VOLUME_FOR_EVENT` are announced, which rate-limits the
/// side channel against micro-trades. The host may drop it freely.
pub fn trade_reward_eligibility(
    seller: AccountId,
    buyer: AccountId,
    trade_volume: u64,
    now: i64,
) -> (r: Option<RewardEligible>)
    ensures
        (r is Some) <==> trade_volume >= MIN_VOLUME_FOR_EVENT,
        r matches Some(ev) ==> {
            &&& ev.users@.len() == 2
            &&& ev.users@[0] == seller
            &&& ev.users@[1] == buyer
            &&& ev.trade_volume == trade_volume
            &&& ev.reward_type@ == "trade"@
            &&& ev.timestamp == now
        },
{
    if trade_volume < MIN_VOLUME_FOR_EVENT {
        return None;
    }
    let mut users: Vec<AccountId> = Vec::new();
    users.push(seller);
    users.push(buyer);
    Some(
        RewardEligible { users, trade_volume, reward_type: "trade".to_owned(), timestamp: now },
    )
}

/// The eligibility notification one cast vote produces. Votes are already
/// rate-limited by dispute frequency, so every vote is announced.
pub fn vote_reward_eligibility(juror: AccountId, now: i64) -> (ev: RewardEligible)
    ensures
        ev.users@.len() == 1,
        ev.users@[0] == juror,
        ev.trade_volume == 0,
        ev.reward_type@ == "vote"@,
        ev.timestamp == now,
{
    let mut users: Vec<AccountId> = Vec::new();
    users.push(juror);
    RewardEligible { users, trade_volume: 0, reward_type: "vote".to_owned(), timestamp: now }
}

} // verus!
