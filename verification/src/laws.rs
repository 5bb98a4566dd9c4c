//! What holds of the ledger over more than one request.

use crate::accounts::{
    authority_fault, AddOption, BuyShares, ClaimDaily, ClaimPayout, ResolveMarket, SellShares,
};
use crate::claims::{claim_outcome, claimed, claimed_daily, daily_fault, CLAIM_COOLDOWN};
use crate::error::CustomError;
use crate::keys::is_unset;
use crate::market::{add_option_fault, cancel_fault, closed_with, resolve_fault};
use crate::settlement::{refund, settlement};
use crate::state::{lemma_share_total_update, Bet, DailyClaimState, Market, Outcome};
use crate::trading::{
    bet_after_buy, bet_after_sell, buy_fault, market_after_buy, market_after_sell, sell_fault,
};
use vstd::prelude::*;

verus! {

/// A position is paid once: after a claim that was paid, every further claim
/// of the same position is turned down as already claimed, so that nothing is
/// ordered for it again.
pub proof fn law_claim_pays_once(ctx: ClaimPayout, market: Market, bet: Bet)
    requires
        claim_outcome(ctx, market@, bet) is Ok,
    ensures
        claim_outcome(ctx, market@, claimed(bet)) == Err::<nat, CustomError>(
            CustomError::AlreadyClaimed,
        ),
{
}

/// The first claim of the daily reward is allowed whenever it comes: a state
/// nobody has written yet turns no claim down for its time.
pub proof fn law_first_daily_claim_is_allowed(ctx: ClaimDaily, state: DailyClaimState, now: i64)
    requires
        ctx.fault() is None,
        is_unset(state.user),
    ensures
        daily_fault(ctx, state, now) is None,
{
}

/// The daily reward is paid once a day: after a claim at `now` by a user
/// whose key is not the all-zero one, the next claim is turned down as too
/// soon exactly while less than a full day has passed.
pub proof fn law_daily_claim_waits_a_day(
    ctx: ClaimDaily,
    state: DailyClaimState,
    now: i64,
    later: i64,
)
    requires
        daily_fault(ctx, state, now) is None,
        !is_unset(ctx.user),
    ensures
        later - now < CLAIM_COOLDOWN ==> daily_fault(ctx, claimed_daily(ctx, state, now), later)
            == Some(CustomError::ClaimTooSoon),
        later - now >= CLAIM_COOLDOWN ==> daily_fault(ctx, claimed_daily(ctx, state, now), later)
            is None,
{
}

/// A market leaves the open state once: after it has been decided or called
/// off, its authority is turned down with the market as resolved, whether it
/// asks to decide it or to call it off.
pub proof fn law_market_closes_once(
    ctx: ResolveMarket,
    market: Market,
    outcome: Outcome,
    winner_index: u8,
)
    requires
        outcome != Outcome::Unresolved,
        authority_fault(market.authority, ctx.authority) is None,
    ensures
        resolve_fault(ctx, closed_with(market@, outcome), winner_index) == Some(
            CustomError::MarketResolved,
        ),
        cancel_fault(ctx, closed_with(market@, outcome)) == Some(CustomError::MarketResolved),
{
}

/// A market that has been decided or called off never changes again: every
/// request that could change it is turned down.
pub proof fn law_closed_market_is_final(
    market: Market,
    add: AddOption,
    close: ResolveMarket,
    buy: BuyShares,
    sell: SellShares,
    bet: Bet,
    shares: u64,
    option_index: u8,
    name: Seq<char>,
)
    requires
        market.resolved,
    ensures
        buy_fault(buy, market@, bet, shares, option_index) is Some,
        sell_fault(sell, market@, bet, shares) is Some,
        add_option_fault(add, market@, name) is Some,
        resolve_fault(close, market@, option_index) is Some,
        cancel_fault(close, market@) is Some,
{
}

/// A position that has been paid stays paid: no purchase is taken into it, a
/// sale leaves it marked, and no claim is paid on it again.
pub proof fn law_claimed_stays_claimed(
    buy: BuyShares,
    claim: ClaimPayout,
    market: Market,
    bet: Bet,
    shares: u64,
    option_index: u8,
)
    requires
        bet.claimed,
        !is_unset(bet.market),
    ensures
        buy_fault(buy, market@, bet, shares, option_index) is Some,
        bet_after_sell(bet, shares).claimed,
        claim_outcome(claim, market@, bet) is Err,
{
}

/// A position backs the option of its first purchase for good: a purchase
/// that a written position takes is one of that option, and neither a
/// purchase nor a sale nor a claim moves the position to another.
pub proof fn law_position_keeps_its_option(
    ctx: BuyShares,
    market: Market,
    bet: Bet,
    shares: u64,
    option_index: u8,
)
    requires
        !is_unset(bet.market),
    ensures
        buy_fault(ctx, market@, bet, shares, option_index) is None ==> option_index
            == bet.option_index,
        bet_after_buy(ctx, bet, shares, option_index).option_index == bet.option_index,
        bet_after_sell(bet, shares).option_index == bet.option_index,
        claimed(bet).option_index == bet.option_index,
{
}

/// Shares held over all the given positions.
pub open spec fn position_shares(bets: Seq<Bet>) -> nat
    decreases bets.len(),
{
    if bets.len() == 0 {
        0
    } else {
        position_shares(bets.drop_last()) + bets.last().shares as nat
    }
}

/// Refunds owed over all the given positions by a cancelled market that holds
/// `collateral` against `total` shares.
pub open spec fn refund_sum(bets: Seq<Bet>, collateral: nat, total: nat) -> nat
    decreases bets.len(),
{
    if bets.len() == 0 {
        0
    } else {
        refund_sum(bets.drop_last(), collateral, total) + refund(
            bets.last().shares as nat,
            collateral,
            total,
        )
    }
}

/// Refunds, each rounded down, claim no larger a part of the collateral than
/// the positions hold of the shares.
proof fn lemma_refund_sum_scaled(bets: Seq<Bet>, collateral: nat, total: nat)
    requires
        0 < total,
    ensures
        refund_sum(bets, collateral, total) * total <= position_shares(bets) * collateral,
    decreases bets.len(),
{
    if bets.len() > 0 {
        lemma_refund_sum_scaled(bets.drop_last(), collateral, total);
        let rest = refund_sum(bets.drop_last(), collateral, total);
        let rest_shares = position_shares(bets.drop_last());
        let shares = bets.last().shares as nat;
        let one = refund(shares, collateral, total);
        assert(one * total <= shares * collateral) by (nonlinear_arith)
            requires
                0 < total,
                one == (shares * collateral) / total,
        ;
        assert((rest + one) * total == rest * total + one * total) by (nonlinear_arith);
        assert((rest_shares + shares) * collateral == rest_shares * collateral + shares
            * collateral) by (nonlinear_arith);
        assert(refund_sum(bets, collateral, total) == rest + one);
        assert(position_shares(bets) == rest_shares + shares);
    } else {
        assert(refund_sum(bets, collateral, total) * total == 0) by (nonlinear_arith)
            requires
                refund_sum(bets, collateral, total) == 0,
        ;
        assert(position_shares(bets) * collateral == 0) by (nonlinear_arith)
            requires
                position_shares(bets) == 0,
        ;
    }
}

/// Rounding down costs every refund less than one token: the refunds fall
/// short of the positions' part of the collateral by less than their number.
proof fn lemma_refund_sum_shortfall(bets: Seq<Bet>, collateral: nat, total: nat)
    requires
        0 < total,
    ensures
        refund_sum(bets, collateral, total) * total + bets.len() * (total - 1) >= position_shares(
            bets,
        ) * collateral,
    decreases bets.len(),
{
    if bets.len() > 0 {
        lemma_refund_sum_shortfall(bets.drop_last(), collateral, total);
        let rest = refund_sum(bets.drop_last(), collateral, total);
        let rest_shares = position_shares(bets.drop_last());
        let shares = bets.last().shares as nat;
        let one = refund(shares, collateral, total);
        let count = bets.drop_last().len();
        assert(one * total + (total - 1) >= shares * collateral) by (nonlinear_arith)
            requires
                0 < total,
                one == (shares * collateral) / total,
        ;
        assert((rest + one) * total == rest * total + one * total) by (nonlinear_arith);
        assert((rest_shares + shares) * collateral == rest_shares * collateral + shares
            * collateral) by (nonlinear_arith);
        assert((count + 1) * (total - 1) == count * (total - 1) + (total - 1))
            by (nonlinear_arith);
        assert(refund_sum(bets, collateral, total) == rest + one);
        assert(position_shares(bets) == rest_shares + shares);
        assert(bets.len() == count + 1);
    } else {
        assert(refund_sum(bets, collateral, total) * total == 0) by (nonlinear_arith)
            requires
                refund_sum(bets, collateral, total) == 0,
        ;
        assert(position_shares(bets) * collateral == 0) by (nonlinear_arith)
            requires
                position_shares(bets) == 0,
        ;
        assert(bets.len() * (total - 1) == 0) by (nonlinear_arith)
            requires
                bets.len() == 0,
        ;
    }
}

/// The refunds of a cancelled market never exceed its collateral: over any
/// positions that together hold no more shares than the market, the refunds
/// add up to at most the collateral balance, and each of them is what the
/// position is paid when it claims. Where the positions hold all the shares
/// of the market, what stays unpaid comes from rounding alone: it is less
/// than one token for each position.
pub proof fn law_refunds_within_collateral(market: Market, bets: Seq<Bet>)
    requires
        0 < market@.total(),
        position_shares(bets) <= market@.total(),
    ensures
        refund_sum(bets, market@.collateral_balance, market@.total())
            <= market@.collateral_balance,
        position_shares(bets) == market@.total() ==> refund_sum(
            bets,
            market@.collateral_balance,
            market@.total(),
        ) + bets.len() > market@.collateral_balance,
        forall|i: int|
            0 <= i < bets.len() && market.resolved && market.outcome == Outcome::Cancelled
                && !bets[i].claimed ==> #[trigger] settlement(market@, bets[i]) == Ok::<
                nat,
                CustomError,
            >(refund(bets[i].shares as nat, market@.collateral_balance, market@.total())),
{
    let collateral = market@.collateral_balance;
    let total = market@.total();
    lemma_refund_sum_scaled(bets, collateral, total);
    let sum = refund_sum(bets, collateral, total);
    assert(sum <= collateral) by (nonlinear_arith)
        requires
            0 < total,
            sum * total <= position_shares(bets) * collateral,
            position_shares(bets) <= total,
    ;
    if position_shares(bets) == total {
        lemma_refund_sum_shortfall(bets, collateral, total);
        let count = bets.len();
        assert(count > 0);
        assert(sum + count > collateral) by (nonlinear_arith)
            requires
                0 < total,
                0 < count,
                sum * total + count * (total - 1) >= total * collateral,
        ;
    }
    assert forall|i: int|
        0 <= i < bets.len() && market.resolved && market.outcome == Outcome::Cancelled
            && !bets[i].claimed implies #[trigger] settlement(market@, bets[i]) == Ok::<
        nat,
        CustomError,
    >(refund(bets[i].shares as nat, collateral, total)) by {
        lemma_single_refund_bounded(bets, i, collateral, total);
    }
}

/// One refund among those of positions that together hold no more shares
/// than the market is at most the collateral.
proof fn lemma_single_refund_bounded(bets: Seq<Bet>, i: int, collateral: nat, total: nat)
    requires
        0 < total,
        0 <= i < bets.len(),
        position_shares(bets) <= total,
    ensures
        refund(bets[i].shares as nat, collateral, total) <= collateral,
    decreases bets.len(),
{
    if i < bets.len() - 1 {
        lemma_single_refund_bounded(bets.drop_last(), i, collateral, total);
    } else {
        let shares = bets[i].shares as nat;
        assert((shares * collateral) / total <= collateral) by (nonlinear_arith)
            requires
                0 < total,
                shares <= total,
        ;
    }
}

/// A purchase adds the same shares to the market and to the position: the
/// shares of the market that the position does not hold stay what they were.
/// A position nobody has written yet counts as holding none.
pub proof fn law_buy_keeps_backing(
    ctx: BuyShares,
    market: Market,
    bet: Bet,
    shares: u64,
    option_index: u8,
)
    requires
        buy_fault(ctx, market@, bet, shares, option_index) is None,
    ensures
        market_after_buy(market@, shares, option_index).total() - bet_after_buy(
            ctx,
            bet,
            shares,
            option_index,
        ).shares == market@.total() - (if is_unset(bet.market) {
            0
        } else {
            bet.shares
        }),
{
    let after = market_after_buy(market@, shares, option_index);
    lemma_share_total_update(
        market@.options,
        option_index as int,
        after.options[option_index as int],
    );
}

/// A sale takes the same shares from the market and from the position: the
/// shares of the market that the position does not hold stay what they were.
pub proof fn law_sell_keeps_backing(ctx: SellShares, market: Market, bet: Bet, shares: u64)
    requires
        sell_fault(ctx, market@, bet, shares) is None,
    ensures
        market_after_sell(market@, shares, bet.option_index).total() - bet_after_sell(
            bet,
            shares,
        ).shares == market@.total() - bet.shares,
{
    let after = market_after_sell(market@, shares, bet.option_index);
    lemma_share_total_update(
        market@.options,
        bet.option_index as int,
        after.options[bet.option_index as int],
    );
}

} // verus!
