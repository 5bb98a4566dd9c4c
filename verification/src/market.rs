//! The life of a market: it is created open, may gain options while open, and
//! is then decided for one option or called off, once and for good.

use crate::accounts::{authority_fault, check_authority, AddOption, CreateMarket, ResolveMarket};
use crate::error::CustomError;
use crate::keys::{is_unset, key_is_unset};
use crate::state::{
    seeded_option, text_len, Market, MarketModel, MarketType, OptionData, Outcome,
    UserMarketsCounter, INITIAL_SHARES, MAX_DESCRIPTION_LENGTH, MAX_OPTIONS,
    MAX_OPTION_NAME_LENGTH, MAX_QUESTION_LENGTH, MIN_OPTIONS, VIRTUAL_LIQUIDITY,
};
use anchor_lang::prelude::Pubkey;
use vstd::prelude::*;

verus! {

/// Length of `text` in bytes.
pub fn byte_length(text: &String) -> (length: usize)
    ensures
        length == text_len(text@),
{
    text.as_str().as_bytes().len()
}

/// Why a market cannot be created, if it cannot: the question is looked at
/// first, then the description, then the number of options, then whether the
/// authority's counter has room for one more market.
pub open spec fn create_fault(
    counter: UserMarketsCounter,
    question: Seq<char>,
    description: Seq<char>,
    option_count: nat,
) -> Option<CustomError> {
    if text_len(question) > MAX_QUESTION_LENGTH {
        Some(CustomError::QuestionTooLong)
    } else if text_len(description) > MAX_DESCRIPTION_LENGTH {
        Some(CustomError::DescriptionTooLong)
    } else if !(MIN_OPTIONS <= option_count <= MAX_OPTIONS) {
        Some(CustomError::InvalidOptionCount)
    } else if !is_unset(counter.authority) && counter.count == u16::MAX {
        Some(CustomError::ArithmeticOverflow)
    } else {
        None
    }
}

/// The market that a creation yields: open, without collateral, every option
/// active and seeded with the same shares, in the order of `names`.
pub open spec fn new_market(
    ctx: CreateMarket,
    market_index: u16,
    question: Seq<char>,
    description: Seq<char>,
    names: Seq<Seq<char>>,
) -> MarketModel {
    MarketModel {
        authority: ctx.authority,
        market_index,
        bump: ctx.market_bump,
        market_type: if names.len() == 2 {
            MarketType::Binary
        } else {
            MarketType::MultiOption
        },
        question,
        description,
        resolved: false,
        outcome: Outcome::Unresolved,
        options: names.map_values(|name: Seq<char>| seeded_option(name)),
        num_options: names.len(),
        collateral_balance: 0,
        virtual_liquidity: VIRTUAL_LIQUIDITY as nat,
    }
}

/// The counter after one more market of `authority`: a counter nobody has
/// written yet becomes the authority's and starts at one.
pub open spec fn counted(counter: UserMarketsCounter, authority: Pubkey) -> UserMarketsCounter {
    if is_unset(counter.authority) {
        UserMarketsCounter { authority, count: 1 }
    } else {
        UserMarketsCounter { authority: counter.authority, count: (counter.count + 1) as u16 }
    }
}

/// The names of the options as texts.
pub open spec fn texts(names: Seq<String>) -> Seq<Seq<char>> {
    names.map_values(|name: String| name@)
}

/// Creates a market of `ctx.authority` over `question` with one option per
/// name and counts it on the authority's counter. A request that is turned
/// down leaves the counter as it was.
pub fn create_market(
    ctx: &CreateMarket,
    counter: &mut UserMarketsCounter,
    market_index: u16,
    question: String,
    description: String,
    options: Vec<String>,
) -> (created: Result<Market, CustomError>)
    ensures
        match created {
            Ok(market) => {
                &&& create_fault(*old(counter), question@, description@, options@.len()) is None
                &&& market@ == new_market(
                    *ctx,
                    market_index,
                    question@,
                    description@,
                    texts(options@),
                )
                &&& *final(counter) == counted(*old(counter), ctx.authority)
                &&& market@.wf()
                &&& MIN_OPTIONS <= market@.options.len() <= MAX_OPTIONS
                &&& market.market_type == MarketType::Binary <==> market@.options.len() == 2
            },
            Err(fault) => {
                &&& create_fault(*old(counter), question@, description@, options@.len())
                    == Some(fault)
                &&& *final(counter) == *old(counter)
            },
        },
{
    if byte_length(&question) > MAX_QUESTION_LENGTH {
        return Err(CustomError::QuestionTooLong);
    }
    if byte_length(&description) > MAX_DESCRIPTION_LENGTH {
        return Err(CustomError::DescriptionTooLong);
    }
    let count: usize = options.len();
    if count < MIN_OPTIONS || count > MAX_OPTIONS {
        return Err(CustomError::InvalidOptionCount);
    }
    let first_market: bool = key_is_unset(&counter.authority);
    if !first_market && counter.count == u16::MAX {
        return Err(CustomError::ArithmeticOverflow);
    }
    let market_type = if count == 2 {
        MarketType::Binary
    } else {
        MarketType::MultiOption
    };

    let ghost names = texts(options@);
    let mut seeded: Vec<OptionData> = Vec::new();
    let mut i: usize = 0;
    while i < count
        invariant
            count == options@.len(),
            names == texts(options@),
            i <= count,
            seeded@.len() == i,
            forall|j: int| 0 <= j < i ==> (#[trigger] seeded@[j])@ == seeded_option(names[j]),
        decreases count - i,
    {
        let name = options[i].clone();
        seeded.push(OptionData { shares: INITIAL_SHARES, name, active: true });
        i = i + 1;
    }

    if first_market {
        counter.authority = ctx.authority;
        counter.count = 1;
    } else {
        counter.count = counter.count + 1;
    }

    let market = Market {
        authority: ctx.authority,
        market_index,
        bump: ctx.market_bump,
        market_type,
        question,
        description,
        resolved: false,
        outcome: Outcome::Unresolved,
        options: seeded,
        num_options: count as u8,
        collateral_balance: 0,
        virtual_liquidity: VIRTUAL_LIQUIDITY,
    };
    assert(market@.options =~= names.map_values(|name: Seq<char>| seeded_option(name)));
    Ok(market)
}

/// Why an option named `name` cannot be added to `market`, if it cannot: the
/// request must come from the market's authority, then the market must be
/// open, then have room, then the name must be short enough.
pub open spec fn add_option_fault(ctx: AddOption, market: MarketModel, name: Seq<char>) -> Option<
    CustomError,
> {
    if authority_fault(market.authority, ctx.authority) is Some {
        authority_fault(market.authority, ctx.authority)
    } else if market.resolved {
        Some(CustomError::MarketResolved)
    } else if market.num_options >= MAX_OPTIONS {
        Some(CustomError::MaxOptionsReached)
    } else if text_len(name) > MAX_OPTION_NAME_LENGTH {
        Some(CustomError::OptionNameTooLong)
    } else {
        None
    }
}

/// The market with one more option at the end, seeded like the first ones.
pub open spec fn with_option(market: MarketModel, name: Seq<char>) -> MarketModel {
    MarketModel {
        options: market.options.push(seeded_option(name)),
        num_options: market.num_options + 1,
        ..market
    }
}

/// Adds an option named `option_name` to an open market, behind the options
/// it has. A request that is turned down leaves the market as it was.
pub fn add_option(ctx: &AddOption, market: &mut Market, option_name: String) -> (added: Result<
    (),
    CustomError,
>)
    ensures
        match added {
            Ok(_) => {
                &&& add_option_fault(*ctx, old(market)@, option_name@) is None
                &&& final(market)@ == with_option(old(market)@, option_name@)
            },
            Err(fault) => {
                &&& add_option_fault(*ctx, old(market)@, option_name@) == Some(fault)
                &&& *final(market) == *old(market)
            },
        },
        final(market).collateral_balance == old(market).collateral_balance,
        old(market)@.wf() ==> final(market)@.wf(),
{
    match check_authority(&market.authority, &ctx.authority) {
        Err(fault) => {
            return Err(fault);
        },
        Ok(_) => {},
    }
    if market.resolved {
        return Err(CustomError::MarketResolved);
    }
    if market.num_options as usize >= MAX_OPTIONS {
        return Err(CustomError::MaxOptionsReached);
    }
    if byte_length(&option_name) > MAX_OPTION_NAME_LENGTH {
        return Err(CustomError::OptionNameTooLong);
    }
    let ghost before = market@;
    market.options.push(OptionData { shares: INITIAL_SHARES, name: option_name, active: true });
    market.num_options = market.num_options + 1;
    assert(market@.options =~= with_option(before, option_name@).options);
    Ok(())
}

/// Why `market` cannot be decided for the option at `winner_index`, if it
/// cannot: the request must come from the market's authority, then the market
/// must be open, then the option must exist.
pub open spec fn resolve_fault(ctx: ResolveMarket, market: MarketModel, winner_index: u8) -> Option<
    CustomError,
> {
    if authority_fault(market.authority, ctx.authority) is Some {
        authority_fault(market.authority, ctx.authority)
    } else if market.resolved {
        Some(CustomError::MarketResolved)
    } else if winner_index >= market.num_options {
        Some(CustomError::InvalidOptionIndex)
    } else {
        None
    }
}

/// The market once it has left the open state with `outcome`.
pub open spec fn closed_with(market: MarketModel, outcome: Outcome) -> MarketModel {
    MarketModel { resolved: true, outcome, ..market }
}

/// Decides an open market for the option at `winner_index`. Nothing is paid
/// here; positions are settled one by one when they claim. A market that has
/// been decided or called off stays as it is: a request on it is turned down.
pub fn resolve_market(ctx: &ResolveMarket, market: &mut Market, winner_index: u8) -> (resolved:
    Result<(), CustomError>)
    ensures
        match resolved {
            Ok(_) => {
                &&& resolve_fault(*ctx, old(market)@, winner_index) is None
                &&& final(market)@ == closed_with(
                    old(market)@,
                    Outcome::OptionWinner(winner_index),
                )
            },
            Err(fault) => {
                &&& resolve_fault(*ctx, old(market)@, winner_index) == Some(fault)
                &&& *final(market) == *old(market)
            },
        },
        old(market).resolved ==> resolved is Err,
        old(market).resolved && authority_fault(old(market).authority, ctx.authority) is None
            ==> resolved == Err::<(), CustomError>(CustomError::MarketResolved),
        final(market).collateral_balance == old(market).collateral_balance,
        old(market)@.wf() ==> final(market)@.wf(),
{
    match check_authority(&market.authority, &ctx.authority) {
        Err(fault) => {
            return Err(fault);
        },
        Ok(_) => {},
    }
    if market.resolved {
        return Err(CustomError::MarketResolved);
    }
    if winner_index >= market.num_options {
        return Err(CustomError::InvalidOptionIndex);
    }
    market.resolved = true;
    market.outcome = Outcome::OptionWinner(winner_index);
    Ok(())
}

/// Why `market` cannot be called off, if it cannot: the request must come
/// from the market's authority, then the market must be open.
pub open spec fn cancel_fault(ctx: ResolveMarket, market: MarketModel) -> Option<CustomError> {
    if authority_fault(market.authority, ctx.authority) is Some {
        authority_fault(market.authority, ctx.authority)
    } else if market.resolved {
        Some(CustomError::MarketResolved)
    } else {
        None
    }
}

/// Calls an open market off. Nothing is paid here; positions are refunded one
/// by one when they claim. A market that has been decided or called off stays
/// as it is: a request on it is turned down.
pub fn cancel_market(ctx: &ResolveMarket, market: &mut Market) -> (cancelled: Result<
    (),
    CustomError,
>)
    ensures
        match cancelled {
            Ok(_) => {
                &&& cancel_fault(*ctx, old(market)@) is None
                &&& final(market)@ == closed_with(old(market)@, Outcome::Cancelled)
            },
            Err(fault) => {
                &&& cancel_fault(*ctx, old(market)@) == Some(fault)
                &&& *final(market) == *old(market)
            },
        },
        old(market).resolved ==> cancelled is Err,
        old(market).resolved && authority_fault(old(market).authority, ctx.authority) is None
            ==> cancelled == Err::<(), CustomError>(CustomError::MarketResolved),
        final(market).collateral_balance == old(market).collateral_balance,
        old(market)@.wf() ==> final(market)@.wf(),
{
    match check_authority(&market.authority, &ctx.authority) {
        Err(fault) => {
            return Err(fault);
        },
        Ok(_) => {},
    }
    if market.resolved {
        return Err(CustomError::MarketResolved);
    }
    market.resolved = true;
    market.outcome = Outcome::Cancelled;
    Ok(())
}

} // verus!
