//! The records the ledger keeps: markets with their options, positions,
//! per-authority market counters and reward-claim states.

use anchor_lang::prelude::Pubkey;
use vstd::prelude::*;

verus! {

/// Longest question a market stores, in bytes.
pub const MAX_QUESTION_LENGTH: usize = 200;

/// Longest description a market stores, in bytes.
pub const MAX_DESCRIPTION_LENGTH: usize = 500;

/// Fewest options a market can be created with.
pub const MIN_OPTIONS: usize = 2;

/// Most options a market can hold.
pub const MAX_OPTIONS: usize = 16;

/// Longest name of an option, in bytes.
pub const MAX_OPTION_NAME_LENGTH: usize = 50;

/// Shares every option starts with.
pub const INITIAL_SHARES: u64 = 50;

/// Price of one share, in collateral, while a market holds no shares at all.
pub const VIRTUAL_LIQUIDITY: u64 = 50;

/// Units of collateral that one token pays for.
pub const COLLATERAL_PER_TOKEN: u64 = 10;

/// Whether a market was created with exactly two options.
#[derive(Clone, Copy, PartialEq, Eq, Debug, Structural)]
pub enum MarketType {
    Binary,
    MultiOption,
}

/// Where a market stands: open, called off, or decided for one option.
#[derive(Clone, Copy, PartialEq, Eq, Debug, Structural)]
pub enum Outcome {
    Unresolved,
    Cancelled,
    OptionWinner(u8),
}

/// One outcome that a market can be decided for.
#[derive(Clone, Debug)]
pub struct OptionData {
    pub shares: u64,
    pub name: String,
    pub active: bool,
}

/// A question with its options and the collateral held against them.
#[derive(Clone, Debug)]
pub struct Market {
    pub authority: Pubkey,
    pub market_index: u16,
    pub bump: u8,
    pub market_type: MarketType,
    pub question: String,
    pub description: String,
    pub resolved: bool,
    pub outcome: Outcome,
    pub options: Vec<OptionData>,
    pub num_options: u8,
    pub collateral_balance: u64,
    pub virtual_liquidity: u64,
}

/// The shares one trader holds in one option of one market.
#[derive(Clone, Copy, Debug)]
pub struct Bet {
    pub market: Pubkey,
    pub user: Pubkey,
    pub shares: u64,
    pub option_index: u8,
    pub claimed: bool,
}

/// When a trader last claimed the daily reward.
#[derive(Clone, Copy, Debug)]
pub struct DailyClaimState {
    pub user: Pubkey,
    pub last_claim: i64,
}

/// How many markets an authority has created.
#[derive(Clone, Copy, Debug)]
pub struct UserMarketsCounter {
    pub authority: Pubkey,
    pub count: u16,
}

/// Length of a text in bytes, as it is stored.
pub open spec fn text_len(text: Seq<char>) -> nat {
    vstd::utf8::encode_utf8(text).len()
}

/// An option as the contracts see it.
pub struct OptionModel {
    pub shares: nat,
    pub name: Seq<char>,
    pub active: bool,
}

impl View for OptionData {
    type V = OptionModel;

    open spec fn view(&self) -> OptionModel {
        OptionModel { shares: self.shares as nat, name: self.name@, active: self.active }
    }
}

/// A market as the contracts see it.
pub struct MarketModel {
    pub authority: Pubkey,
    pub market_index: u16,
    pub bump: u8,
    pub market_type: MarketType,
    pub question: Seq<char>,
    pub description: Seq<char>,
    pub resolved: bool,
    pub outcome: Outcome,
    pub options: Seq<OptionModel>,
    pub num_options: nat,
    pub collateral_balance: nat,
    pub virtual_liquidity: nat,
}

impl View for Market {
    type V = MarketModel;

    open spec fn view(&self) -> MarketModel {
        MarketModel {
            authority: self.authority,
            market_index: self.market_index,
            bump: self.bump,
            market_type: self.market_type,
            question: self.question@,
            description: self.description@,
            resolved: self.resolved,
            outcome: self.outcome,
            options: self.options@.map_values(|option: OptionData| option@),
            num_options: self.num_options as nat,
            collateral_balance: self.collateral_balance as nat,
            virtual_liquidity: self.virtual_liquidity as nat,
        }
    }
}

/// The option a market starts with under the given name.
pub open spec fn seeded_option(name: Seq<char>) -> OptionModel {
    OptionModel { shares: INITIAL_SHARES as nat, name, active: true }
}

/// Shares held over all the given options.
pub open spec fn share_total(options: Seq<OptionModel>) -> nat
    decreases options.len(),
{
    if options.len() == 0 {
        0
    } else {
        share_total(options.drop_last()) + options.last().shares
    }
}

/// Changing the shares of one option changes the total by the same amount.
pub proof fn lemma_share_total_update(options: Seq<OptionModel>, index: int, changed: OptionModel)
    requires
        0 <= index < options.len(),
    ensures
        share_total(options.update(index, changed)) == share_total(options)
            - options[index].shares + changed.shares,
    decreases options.len(),
{
    let updated = options.update(index, changed);
    if index == options.len() - 1 {
        assert(updated.drop_last() =~= options.drop_last());
    } else {
        lemma_share_total_update(options.drop_last(), index, changed);
        assert(updated.drop_last() =~= options.drop_last().update(index, changed));
    }
}

/// Where no shares are held in total, no option holds any.
pub proof fn lemma_share_total_zero(options: Seq<OptionModel>, index: int)
    requires
        share_total(options) == 0,
        0 <= index < options.len(),
    ensures
        options[index].shares == 0,
    decreases options.len(),
{
    if index < options.len() - 1 {
        lemma_share_total_zero(options.drop_last(), index);
    }
}

impl MarketModel {
    /// What holds of every market the ledger creates and keeps: between 2 and
    /// 16 options, counted by `num_options`; `resolved` set exactly when an
    /// outcome is recorded; and a winner that is one of the options.
    pub open spec fn wf(self) -> bool {
        &&& MIN_OPTIONS <= self.options.len() <= MAX_OPTIONS
        &&& self.num_options == self.options.len()
        &&& self.resolved <==> self.outcome != Outcome::Unresolved
        &&& (self.outcome matches Outcome::OptionWinner(winner) ==> (winner as nat)
            < self.options.len())
    }

    /// Shares held over all options of the market.
    pub open spec fn total(self) -> nat {
        share_total(self.options)
    }
}

impl Market {
    /// Shares held over all options of this market. Up to `usize::MAX`
    /// options of up to `u64::MAX` shares each add up within a `u128`.
    pub fn total_shares(&self) -> (total: u128)
        ensures
            total == self@.total(),
            total <= u64::MAX * u64::MAX,
    {
        let mut total: u128 = 0;
        let mut i: usize = 0;
        while i < self.options.len()
            invariant
                i <= self.options@.len(),
                total == share_total(self@.options.take(i as int)),
                total <= i * u64::MAX,
            decreases self.options@.len() - i,
        {
            assert(self@.options.take(i + 1).drop_last() =~= self@.options.take(i as int));
            total = total + self.options[i].shares as u128;
            i = i + 1;
        }
        assert(self@.options.take(i as int) =~= self@.options);
        total
    }
}

} // verus!
