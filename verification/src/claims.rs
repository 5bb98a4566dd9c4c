//! Paying out: what a position is owed from a settled market, once, and the
//! daily reward, once a day.

use crate::accounts::{ClaimDaily, ClaimPayout, MintOrder, TransferOrder};
use crate::error::CustomError;
use crate::keys::{is_unset, key_is_unset};
use crate::settlement::{payout, settlement};
use crate::state::{Bet, DailyClaimState, Market, MarketModel};
use vstd::prelude::*;

verus! {

/// Seconds that lie between two claims of the daily reward.
pub const CLAIM_COOLDOWN: i64 = 86_400;

/// Tokens minted for one claim of the daily reward.
pub const DAILY_REWARD: u64 = 100_000_000_000;

/// The tokens a claim pays, or why it pays nothing: the accounts are looked
/// at first, then the market and the position.
pub open spec fn claim_outcome(ctx: ClaimPayout, market: MarketModel, bet: Bet) -> Result<
    nat,
    CustomError,
> {
    if ctx.fault(bet) is Some {
        Err(ctx.fault(bet)->Some_0)
    } else {
        settlement(market, bet)
    }
}

/// The position after it has been paid.
pub open spec fn claimed(bet: Bet) -> Bet {
    Bet { claimed: true, ..bet }
}

/// Settles `bet` against `market`: marks the position as claimed and orders
/// the payment of what it is owed out of the market's escrow. The position is
/// marked before the custodian moves anything, so that it is paid once. A
/// claim that is turned down leaves the position as it was and orders
/// nothing.
pub fn claim_payout(ctx: &ClaimPayout, market: &Market, bet: &mut Bet) -> (paid: Result<
    TransferOrder,
    CustomError,
>)
    ensures
        match paid {
            Ok(order) => {
                &&& claim_outcome(*ctx, market@, *old(bet)) == Ok::<nat, CustomError>(
                    order.amount as nat,
                )
                &&& order.accounts.from == ctx.escrow_token.key
                &&& order.accounts.to == ctx.user_token.key
                &&& order.accounts.authority == ctx.market_key
                &&& *final(bet) == claimed(*old(bet))
            },
            Err(fault) => {
                &&& claim_outcome(*ctx, market@, *old(bet)) == Err::<nat, CustomError>(fault)
                &&& *final(bet) == *old(bet)
            },
        },
        paid is Ok && market.outcome is OptionWinner ==> paid->Ok_0.amount == old(bet).shares
            / 10,
{
    match ctx.check(bet) {
        Err(fault) => {
            return Err(fault);
        },
        Ok(_) => {},
    }
    match payout(market, bet) {
        Err(fault) => Err(fault),
        Ok(amount) => {
            bet.claimed = true;
            Ok(TransferOrder { accounts: ctx.payout_transfer(), amount })
        },
    }
}

/// Why the daily reward cannot be claimed at `now`, if it cannot: the token
/// account is looked at first. A state nobody has written yet, which carries
/// the all-zero key as its user, allows the claim at any time; a written one
/// allows it once a full day has passed since the last claim.
pub open spec fn daily_fault(ctx: ClaimDaily, state: DailyClaimState, now: i64) -> Option<
    CustomError,
> {
    if ctx.fault() is Some {
        ctx.fault()
    } else if is_unset(state.user) {
        None
    } else if now - state.last_claim < CLAIM_COOLDOWN {
        Some(CustomError::ClaimTooSoon)
    } else {
        None
    }
}

/// The state after a claim at `now`: a state nobody has written yet becomes
/// the claimant's.
pub open spec fn claimed_daily(ctx: ClaimDaily, state: DailyClaimState, now: i64) -> DailyClaimState {
    if is_unset(state.user) {
        DailyClaimState { user: ctx.user, last_claim: now }
    } else {
        DailyClaimState { user: state.user, last_claim: now }
    }
}

/// Claims the daily reward at the time `now`, in seconds: records the claim
/// and orders the minting of the reward into the claimant's token account.
/// The first claim of a user is allowed whenever it comes; every later one
/// has to wait a day after the one before. A claim that is turned down leaves
/// the state as it was and orders nothing.
pub fn claim_daily_amaf(ctx: &ClaimDaily, state: &mut DailyClaimState, now: i64) -> (minted:
    Result<MintOrder, CustomError>)
    ensures
        match minted {
            Ok(order) => {
                &&& daily_fault(*ctx, *old(state), now) is None
                &&& order.amount == DAILY_REWARD
                &&& order.accounts.mint == ctx.mint
                &&& order.accounts.to == ctx.user_token.key
                &&& order.accounts.authority == ctx.program_authority
                &&& *final(state) == claimed_daily(*ctx, *old(state), now)
            },
            Err(fault) => {
                &&& daily_fault(*ctx, *old(state), now) == Some(fault)
                &&& *final(state) == *old(state)
            },
        },
        ctx.fault() is None && is_unset(old(state).user) ==> minted is Ok,
{
    match ctx.check() {
        Err(fault) => {
            return Err(fault);
        },
        Ok(_) => {},
    }
    if key_is_unset(&state.user) {
        state.user = ctx.user;
    } else {
        let elapsed: i128 = now as i128 - state.last_claim as i128;
        if elapsed < CLAIM_COOLDOWN as i128 {
            return Err(CustomError::ClaimTooSoon);
        }
    }
    state.last_claim = now;
    Ok(MintOrder { accounts: ctx.mint_ctx(), amount: DAILY_REWARD })
}

} // verus!
