//! What a position is owed once its market has been decided or called off.

use crate::error::CustomError;
use crate::state::{Bet, Market, MarketModel, Outcome, COLLATERAL_PER_TOKEN};
use vstd::prelude::*;

verus! {

/// Refund of a position in a cancelled market: its part of the collateral,
/// by shares, rounded down.
pub open spec fn refund(shares: nat, collateral: nat, total: nat) -> nat {
    ((shares * collateral) / total) as nat
}

/// Payment to a position that backed the winning option: one token for every
/// ten shares, whatever the market holds.
pub open spec fn winnings(shares: nat) -> nat {
    shares / (COLLATERAL_PER_TOKEN as nat)
}

/// The tokens `bet` is owed from `market`, or the reason it is owed nothing.
pub open spec fn settlement(market: MarketModel, bet: Bet) -> Result<nat, CustomError> {
    if !market.resolved {
        Err(CustomError::MarketNotResolved)
    } else if bet.claimed {
        Err(CustomError::AlreadyClaimed)
    } else {
        match market.outcome {
            Outcome::Unresolved => Err(CustomError::MarketNotResolved),
            Outcome::Cancelled => {
                if market.total() == 0 {
                    Err(CustomError::NoSharesInMarket)
                } else if refund(
                    bet.shares as nat,
                    market.collateral_balance,
                    market.total(),
                ) > u64::MAX {
                    Err(CustomError::ArithmeticOverflow)
                } else {
                    Ok(refund(bet.shares as nat, market.collateral_balance, market.total()))
                }
            },
            Outcome::OptionWinner(winner) => {
                if bet.option_index != winner {
                    Err(CustomError::NotWinner)
                } else {
                    Ok(winnings(bet.shares as nat))
                }
            },
        }
    }
}

/// The tokens owed to `bet` from `market`. A position is paid only from a
/// market that is no longer open, and only while it is unclaimed: from a
/// cancelled market its part of the collateral, from a decided one a tenth of
/// its shares if it backed the winner.
pub fn payout(market: &Market, bet: &Bet) -> (owed: Result<u64, CustomError>)
    ensures
        match owed {
            Ok(tokens) => settlement(market@, *bet) == Ok::<nat, CustomError>(tokens as nat),
            Err(reason) => settlement(market@, *bet) == Err::<nat, CustomError>(reason),
        },
        owed is Ok && market.outcome is OptionWinner ==> owed->Ok_0 == bet.shares / 10,
{
    if !market.resolved {
        return Err(CustomError::MarketNotResolved);
    }
    if bet.claimed {
        return Err(CustomError::AlreadyClaimed);
    }
    match market.outcome {
        Outcome::Unresolved => Err(CustomError::MarketNotResolved),
        Outcome::Cancelled => {
            let total_shares: u128 = market.total_shares();
            if total_shares == 0 {
                return Err(CustomError::NoSharesInMarket);
            }
            assert(bet.shares * market.collateral_balance <= u64::MAX * u64::MAX)
                by (nonlinear_arith);
            let ratio: u128 = bet.shares as u128 * market.collateral_balance as u128;
            let owed: u128 = ratio / total_shares;
            if owed > u64::MAX as u128 {
                Err(CustomError::ArithmeticOverflow)
            } else {
                Ok(owed as u64)
            }
        },
        Outcome::OptionWinner(winner) => {
            if bet.option_index != winner {
                Err(CustomError::NotWinner)
            } else {
                Ok(bet.shares / COLLATERAL_PER_TOKEN)
            }
        },
    }
}

} // verus!
