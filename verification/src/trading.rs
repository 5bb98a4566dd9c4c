//! Trades: buying shares of an option into a position and selling them back.
//! A position backs one option of one market; the price of a share is the
//! same for every option of the market.

use crate::accounts::{BuyShares, SellShares, TransferOrder};
use crate::error::CustomError;
use crate::keys::{is_unset, key_is_unset};
use crate::pricing::{buy_tokens, lemma_sell_collateral_bounded, price_buy, price_sell, sell_tokens};
use crate::state::{
    lemma_share_total_zero, Bet, Market, MarketModel, OptionModel, COLLATERAL_PER_TOKEN,
};
use vstd::prelude::*;

verus! {

/// Tokens that buying `shares` in `market` costs.
pub open spec fn buy_cost(market: MarketModel, shares: u64) -> nat {
    buy_tokens(
        market.total(),
        market.collateral_balance,
        market.virtual_liquidity,
        shares as nat,
    )
}

/// Tokens that selling `shares` in `market` returns.
pub open spec fn sale_return(market: MarketModel, shares: u64) -> nat {
    sell_tokens(market.total(), market.collateral_balance, shares as nat)
}

/// Why `shares` of the option at `option_index` cannot be bought into `bet`,
/// if they cannot. The accounts are looked at first; then the market, which
/// must be open; the option, which must exist and be active; the cost, which
/// must be at least one token; the market's fields, which must be able to
/// hold the new amounts; and last the position, which, unless it is still
/// unwritten, must back the same option, be unclaimed and be able to hold the
/// new shares.
pub open spec fn buy_fault(
    ctx: BuyShares,
    market: MarketModel,
    bet: Bet,
    shares: u64,
    option_index: u8,
) -> Option<CustomError> {
    if ctx.fault(bet) is Some {
        ctx.fault(bet)
    } else if market.resolved {
        Some(CustomError::MarketResolved)
    } else if option_index >= market.num_options || option_index >= market.options.len() {
        Some(CustomError::InvalidOptionIndex)
    } else if !market.options[option_index as int].active {
        Some(CustomError::OptionNotActive)
    } else if buy_cost(market, shares) == 0 {
        Some(CustomError::InsufficientAmount)
    } else if buy_cost(market, shares) > u64::MAX || market.options[option_index as int].shares
        + shares > u64::MAX || market.collateral_balance + buy_cost(market, shares) > u64::MAX {
        Some(CustomError::ArithmeticOverflow)
    } else if is_unset(bet.market) {
        None
    } else if bet.option_index != option_index {
        Some(CustomError::DifferentOptionBet)
    } else if bet.claimed {
        Some(CustomError::AlreadyClaimed)
    } else if bet.shares + shares > u64::MAX {
        Some(CustomError::ArithmeticOverflow)
    } else {
        None
    }
}

/// The market with `delta` more (or, if negative, fewer) shares of one option.
pub open spec fn with_shares(market: MarketModel, option_index: int, delta: int) -> MarketModel {
    MarketModel {
        options: market.options.update(
            option_index,
            OptionModel {
                shares: (market.options[option_index].shares + delta) as nat,
                ..market.options[option_index]
            },
        ),
        ..market
    }
}

/// The market after `shares` of the option at `option_index` were bought: the
/// option holds the new shares, the collateral has grown by the cost.
pub open spec fn market_after_buy(market: MarketModel, shares: u64, option_index: u8) -> MarketModel {
    MarketModel {
        collateral_balance: market.collateral_balance + buy_cost(market, shares),
        ..with_shares(market, option_index as int, shares as int)
    }
}

/// The position after `shares` of the option at `option_index` were bought
/// into it: an unwritten record becomes the buyer's position in the market.
pub open spec fn bet_after_buy(ctx: BuyShares, bet: Bet, shares: u64, option_index: u8) -> Bet {
    if is_unset(bet.market) {
        Bet { market: ctx.market_key, user: ctx.user, shares, option_index, claimed: false }
    } else {
        Bet { shares: (bet.shares + shares) as u64, ..bet }
    }
}

/// Buys `shares` of the option at `option_index` into `bet` and orders the
/// payment of their cost into the market's escrow. The cost is taken from the
/// market as it stands before the purchase. A purchase that is turned down
/// leaves market and position as they were and orders nothing.
pub fn buy_shares(
    ctx: &BuyShares,
    market: &mut Market,
    bet: &mut Bet,
    shares: u64,
    option_index: u8,
) -> (bought: Result<TransferOrder, CustomError>)
    ensures
        match bought {
            Ok(order) => {
                &&& buy_fault(*ctx, old(market)@, *old(bet), shares, option_index) is None
                &&& order.amount == buy_cost(old(market)@, shares)
                &&& order.accounts.from == ctx.user_token.key
                &&& order.accounts.to == ctx.escrow_token.key
                &&& order.accounts.authority == ctx.user
                &&& final(market)@ == market_after_buy(old(market)@, shares, option_index)
                &&& *final(bet) == bet_after_buy(*ctx, *old(bet), shares, option_index)
            },
            Err(fault) => {
                &&& buy_fault(*ctx, old(market)@, *old(bet), shares, option_index) == Some(fault)
                &&& *final(market) == *old(market)
                &&& *final(bet) == *old(bet)
            },
        },
        bought is Ok && old(market)@.total() == 0 ==> {
            &&& bought->Ok_0.amount == (shares * old(market).virtual_liquidity) / 10
            &&& final(market).collateral_balance == old(market).collateral_balance + (shares
                * old(market).virtual_liquidity) / 10
            &&& final(market)@.options[option_index as int].shares == shares
        },
        old(market)@.wf() ==> final(market)@.wf(),
{
    match ctx.check(bet) {
        Err(fault) => {
            return Err(fault);
        },
        Ok(_) => {},
    }
    if market.resolved {
        return Err(CustomError::MarketResolved);
    }
    let option_idx: usize = option_index as usize;
    if option_index >= market.num_options || option_idx >= market.options.len() {
        return Err(CustomError::InvalidOptionIndex);
    }
    if !market.options[option_idx].active {
        return Err(CustomError::OptionNotActive);
    }
    let collateral_needed: u128 = price_buy(market, shares);
    let cost: u128 = collateral_needed / COLLATERAL_PER_TOKEN as u128;
    if cost == 0 {
        return Err(CustomError::InsufficientAmount);
    }
    if cost > u64::MAX as u128 {
        return Err(CustomError::ArithmeticOverflow);
    }
    let tokens_needed: u64 = cost as u64;
    let held: u64 = market.options[option_idx].shares;
    if shares > u64::MAX - held || tokens_needed > u64::MAX - market.collateral_balance {
        return Err(CustomError::ArithmeticOverflow);
    }
    let new_bet: bool = key_is_unset(&bet.market);
    if !new_bet {
        if bet.option_index != option_index {
            return Err(CustomError::DifferentOptionBet);
        }
        if bet.claimed {
            return Err(CustomError::AlreadyClaimed);
        }
        if shares > u64::MAX - bet.shares {
            return Err(CustomError::ArithmeticOverflow);
        }
    }
    let ghost before = market@;
    proof {
        if before.total() == 0 {
            lemma_share_total_zero(before.options, option_index as int);
        }
    }

    market.options[option_idx].shares = held + shares;
    market.collateral_balance = market.collateral_balance + tokens_needed;

    if new_bet {
        bet.market = ctx.market_key;
        bet.user = ctx.user;
        bet.shares = shares;
        bet.option_index = option_index;
        bet.claimed = false;
    } else {
        bet.shares = bet.shares + shares;
    }
    assert(market@.options =~= market_after_buy(before, shares, option_index).options);
    Ok(TransferOrder { accounts: ctx.transfer_to_escrow(), amount: tokens_needed })
}

/// Why `shares` cannot be sold out of `bet`, if they cannot. The accounts are
/// looked at first; then the market, which must be open; then the position,
/// which must hold the shares; and last the option that the position backs,
/// which must exist and hold the shares too.
pub open spec fn sell_fault(ctx: SellShares, market: MarketModel, bet: Bet, shares: u64) -> Option<
    CustomError,
> {
    if ctx.fault(bet) is Some {
        ctx.fault(bet)
    } else if market.resolved {
        Some(CustomError::MarketResolved)
    } else if bet.shares < shares {
        Some(CustomError::InsufficientShares)
    } else if bet.option_index >= market.options.len() {
        Some(CustomError::InvalidOptionIndex)
    } else if market.options[bet.option_index as int].shares < shares {
        Some(CustomError::ArithmeticOverflow)
    } else {
        None
    }
}

/// The market after `shares` of the option at `option_index` were sold: the
/// option has given up the shares, the collateral has shrunk by the return.
pub open spec fn market_after_sell(market: MarketModel, shares: u64, option_index: u8) -> MarketModel {
    MarketModel {
        collateral_balance: (market.collateral_balance - sale_return(market, shares)) as nat,
        ..with_shares(market, option_index as int, -(shares as int))
    }
}

/// The position after `shares` were sold out of it.
pub open spec fn bet_after_sell(bet: Bet, shares: u64) -> Bet {
    Bet { shares: (bet.shares - shares) as u64, ..bet }
}

/// Sells `shares` out of `bet` and orders the payment of their return out of
/// the market's escrow. The return is taken from the market as it stands
/// before the sale. A sale that is turned down leaves market and position as
/// they were and orders nothing.
pub fn sell_shares(ctx: &SellShares, market: &mut Market, bet: &mut Bet, shares: u64) -> (sold:
    Result<TransferOrder, CustomError>)
    ensures
        match sold {
            Ok(order) => {
                &&& sell_fault(*ctx, old(market)@, *old(bet), shares) is None
                &&& order.amount == sale_return(old(market)@, shares)
                &&& order.accounts.from == ctx.escrow_token.key
                &&& order.accounts.to == ctx.user_token.key
                &&& order.accounts.authority == ctx.market_key
                &&& final(market)@ == market_after_sell(
                    old(market)@,
                    shares,
                    old(bet).option_index,
                )
                &&& *final(bet) == bet_after_sell(*old(bet), shares)
            },
            Err(fault) => {
                &&& sell_fault(*ctx, old(market)@, *old(bet), shares) == Some(fault)
                &&& *final(market) == *old(market)
                &&& *final(bet) == *old(bet)
            },
        },
        shares > old(bet).shares ==> sold is Err,
        ctx.fault(*old(bet)) is None && !old(market).resolved && shares > old(bet).shares ==> sold
            == Err::<TransferOrder, CustomError>(CustomError::InsufficientShares),
        old(market)@.wf() ==> final(market)@.wf(),
{
    match ctx.check(bet) {
        Err(fault) => {
            return Err(fault);
        },
        Ok(_) => {},
    }
    if market.resolved {
        return Err(CustomError::MarketResolved);
    }
    if bet.shares < shares {
        return Err(CustomError::InsufficientShares);
    }
    let option_idx: usize = bet.option_index as usize;
    if option_idx >= market.options.len() {
        return Err(CustomError::InvalidOptionIndex);
    }
    let held: u64 = market.options[option_idx].shares;
    if held < shares {
        return Err(CustomError::ArithmeticOverflow);
    }
    let payout: u64 = price_sell(market, shares);
    let tokens_to_return: u64 = payout / COLLATERAL_PER_TOKEN;
    proof {
        lemma_sell_collateral_bounded(
            market@.total(),
            market@.collateral_balance,
            shares as nat,
        );
    }
    let ghost before = market@;

    market.options[option_idx].shares = held - shares;
    market.collateral_balance = market.collateral_balance - tokens_to_return;
    bet.shares = bet.shares - shares;

    assert(market@.options =~= market_after_sell(before, shares, bet.option_index).options);
    Ok(TransferOrder { accounts: ctx.transfer_to_user(), amount: tokens_to_return })
}

} // verus!
