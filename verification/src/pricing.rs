//! What a trade costs and what it returns. Every option of a market is priced
//! on one curve, from the shares held over all options and the collateral
//! held against them, both taken as they stand before the trade.

use crate::state::{Market, COLLATERAL_PER_TOKEN};
use vstd::prelude::*;

verus! {

/// Collateral asked for `new_shares` more shares: a flat price per share
/// while the market holds no shares, else the part of the collateral that the
/// new shares make up of the enlarged total, rounded down.
pub open spec fn buy_collateral(total: nat, collateral: nat, liquidity: nat, new_shares: nat) -> nat {
    if total == 0 {
        new_shares * liquidity
    } else {
        ((collateral * new_shares) / (total + new_shares)) as nat
    }
}

/// Tokens charged for `new_shares` more shares.
pub open spec fn buy_tokens(total: nat, collateral: nat, liquidity: nat, new_shares: nat) -> nat {
    buy_collateral(total, collateral, liquidity, new_shares) / (COLLATERAL_PER_TOKEN as nat)
}

/// Collateral released by giving up `shares`: all of it when the sale takes
/// every share there is, else the part that the shares make up of the total,
/// rounded down.
pub open spec fn sell_collateral(total: nat, collateral: nat, shares: nat) -> nat {
    if total <= shares {
        collateral
    } else {
        ((collateral * shares) / total) as nat
    }
}

/// Tokens returned for giving up `shares`.
pub open spec fn sell_tokens(total: nat, collateral: nat, shares: nat) -> nat {
    sell_collateral(total, collateral, shares) / (COLLATERAL_PER_TOKEN as nat)
}

/// A sale never releases more collateral than the market holds.
pub proof fn lemma_sell_collateral_bounded(total: nat, collateral: nat, shares: nat)
    ensures
        sell_collateral(total, collateral, shares) <= collateral,
        sell_tokens(total, collateral, shares) <= collateral,
{
    if total > shares {
        assert((collateral * shares) / total <= collateral) by (nonlinear_arith)
            requires
                shares < total,
        ;
    }
}

/// Collateral needed to buy `new_shares` of any option of `market`.
pub fn price_buy(market: &Market, new_shares: u64) -> (collateral_needed: u128)
    ensures
        collateral_needed == buy_collateral(
            market@.total(),
            market.collateral_balance as nat,
            market.virtual_liquidity as nat,
            new_shares as nat,
        ),
        market@.total() == 0 ==> collateral_needed == new_shares * market.virtual_liquidity,
{
    let total_before: u128 = market.total_shares();
    if total_before == 0 {
        assert(new_shares * market.virtual_liquidity <= u64::MAX * u64::MAX) by (nonlinear_arith);
        new_shares as u128 * market.virtual_liquidity as u128
    } else {
        assert(market.collateral_balance * new_shares <= u64::MAX * u64::MAX) by (nonlinear_arith);
        let total_after: u128 = total_before + new_shares as u128;
        let ratio: u128 = market.collateral_balance as u128 * new_shares as u128;
        ratio / total_after
    }
}

/// Collateral released by selling `shares_to_sell` of any option of `market`.
pub fn price_sell(market: &Market, shares_to_sell: u64) -> (payout: u64)
    ensures
        payout == sell_collateral(
            market@.total(),
            market.collateral_balance as nat,
            shares_to_sell as nat,
        ),
{
    let total_before: u128 = market.total_shares();
    if total_before <= shares_to_sell as u128 {
        market.collateral_balance
    } else {
        proof {
            lemma_sell_collateral_bounded(
                market@.total(),
                market.collateral_balance as nat,
                shares_to_sell as nat,
            );
        }
        assert(market.collateral_balance * shares_to_sell <= u64::MAX * u64::MAX)
            by (nonlinear_arith);
        let ratio: u128 = market.collateral_balance as u128 * shares_to_sell as u128;
        (ratio / total_before) as u64
    }
}

} // verus!
