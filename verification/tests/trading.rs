use amafcoin::accounts::{
    BuyShares, CreateMarket, ResolveMarket, SellShares, TokenAccountKeys,
};
use amafcoin::error::CustomError;
use amafcoin::market::{cancel_market, create_market, resolve_market};
use amafcoin::pricing::{price_buy, price_sell};
use amafcoin::state::{Bet, Market, MarketType, OptionData, Outcome, UserMarketsCounter};
use amafcoin::trading::{buy_shares, sell_shares};
use anchor_lang::prelude::Pubkey;

fn pk(n: u8) -> Pubkey {
    Pubkey::new_from_array([n; 32])
}

const AUTHORITY: u8 = 1;
const MARKET: u8 = 2;
const USER: u8 = 3;
const MINT: u8 = 4;
const USER_TOKEN: u8 = 5;
const ESCROW_TOKEN: u8 = 6;

fn market_with(shares: &[u64], collateral: u64) -> Market {
    Market {
        authority: pk(AUTHORITY),
        market_index: 0,
        bump: 255,
        market_type: if shares.len() == 2 { MarketType::Binary } else { MarketType::MultiOption },
        question: "Q".to_string(),
        description: "D".to_string(),
        resolved: false,
        outcome: Outcome::Unresolved,
        options: shares
            .iter()
            .enumerate()
            .map(|(i, s)| OptionData { shares: *s, name: format!("o{}", i), active: true })
            .collect(),
        num_options: shares.len() as u8,
        collateral_balance: collateral,
        virtual_liquidity: 50,
    }
}

fn closer() -> ResolveMarket {
    ResolveMarket { authority: pk(AUTHORITY) }
}

fn unwritten_bet() -> Bet {
    Bet {
        market: Pubkey::default(),
        user: Pubkey::default(),
        shares: 0,
        option_index: 0,
        claimed: false,
    }
}

fn bet_of(shares: u64, option_index: u8) -> Bet {
    Bet { market: pk(MARKET), user: pk(USER), shares, option_index, claimed: false }
}

fn buy_accounts() -> BuyShares {
    BuyShares {
        market_key: pk(MARKET),
        user_token: TokenAccountKeys { key: pk(USER_TOKEN), mint: pk(MINT), owner: pk(USER) },
        escrow_token: TokenAccountKeys {
            key: pk(ESCROW_TOKEN),
            mint: pk(MINT),
            owner: pk(MARKET),
        },
        user: pk(USER),
        mint: pk(MINT),
    }
}

fn sell_accounts() -> SellShares {
    SellShares {
        market_key: pk(MARKET),
        user_token: TokenAccountKeys { key: pk(USER_TOKEN), mint: pk(MINT), owner: pk(USER) },
        escrow_token: TokenAccountKeys {
            key: pk(ESCROW_TOKEN),
            mint: pk(MINT),
            owner: pk(MARKET),
        },
        user: pk(USER),
        mint: pk(MINT),
    }
}

fn show(market: &Market, bet: &Bet) -> String {
    format!("{:?} {:?}", market, bet)
}

#[test]
fn empty_pool_prices_a_share_at_the_virtual_liquidity() {
    let market = market_with(&[0, 0], 0);
    assert_eq!(price_buy(&market, 10), 500);
    assert_eq!(price_buy(&market, 1), 50);
    assert_eq!(price_buy(&market, 0), 0);
    let funded = market_with(&[0, 0, 0], 777);
    assert_eq!(price_buy(&funded, 3), 150);
    let mut cheap = market_with(&[0, 0], 0);
    cheap.virtual_liquidity = 7;
    assert_eq!(price_buy(&cheap, 9), 63);
}

#[test]
fn empty_pool_price_does_not_overflow() {
    let mut market = market_with(&[0, 0], u64::MAX);
    market.virtual_liquidity = u64::MAX;
    assert_eq!(price_buy(&market, u64::MAX), (u64::MAX as u128) * (u64::MAX as u128));
}

#[test]
fn filled_pool_prices_by_share_of_the_enlarged_total() {
    assert_eq!(price_buy(&market_with(&[50, 50], 1000), 100), 500);
    assert_eq!(price_buy(&market_with(&[50, 50], 1000), 10), 90);
    assert_eq!(price_buy(&market_with(&[60, 50], 50), 10), 4);
    assert_eq!(price_buy(&market_with(&[50, 50], 0), 10), 0);
    assert_eq!(price_buy(&market_with(&[1, 0, 0], 999), 2), 666);
}

#[test]
fn filled_pool_price_ignores_which_option_holds_the_shares() {
    let a = market_with(&[90, 10], 1000);
    let b = market_with(&[10, 90], 1000);
    let c = market_with(&[25, 25, 50], 1000);
    assert_eq!(price_buy(&a, 33), price_buy(&b, 33));
    assert_eq!(price_buy(&a, 33), price_buy(&c, 33));
    assert_eq!(price_buy(&a, 33), 248);
}

#[test]
fn filled_pool_price_with_the_largest_amounts() {
    let market = market_with(&[u64::MAX; 16], u64::MAX);
    let expected = (u64::MAX as u128 * u64::MAX as u128) / (17 * u64::MAX as u128);
    assert_eq!(price_buy(&market, u64::MAX), expected);
    assert_eq!(market.total_shares(), 16 * u64::MAX as u128);
}

#[test]
fn sale_pays_by_share_of_the_total() {
    assert_eq!(price_sell(&market_with(&[60, 50], 50), 10), 4);
    assert_eq!(price_sell(&market_with(&[50, 50], 1000), 25), 250);
    assert_eq!(price_sell(&market_with(&[50, 50], 1000), 0), 0);
    assert_eq!(price_sell(&market_with(&[50, 50], 1000), 99), 990);
    assert_eq!(price_sell(&market_with(&[3, 0], 1000), 1), 333);
}

#[test]
fn sale_of_every_share_or_more_drains_the_collateral() {
    assert_eq!(price_sell(&market_with(&[50, 50], 1000), 100), 1000);
    assert_eq!(price_sell(&market_with(&[50, 50], 1000), 101), 1000);
    assert_eq!(price_sell(&market_with(&[0, 0], 1000), 0), 1000);
    assert_eq!(price_sell(&market_with(&[u64::MAX, 0], u64::MAX), u64::MAX), u64::MAX);
}

#[test]
fn first_buy_into_empty_pool() {
    let mut market = market_with(&[0, 0], 0);
    let mut bet = unwritten_bet();
    let order = buy_shares(&buy_accounts(), &mut market, &mut bet, 10, 0).unwrap();
    assert_eq!(order.amount, 50);
    assert_eq!(order.accounts.from, pk(USER_TOKEN));
    assert_eq!(order.accounts.to, pk(ESCROW_TOKEN));
    assert_eq!(order.accounts.authority, pk(USER));
    assert_eq!(market.options[0].shares, 10);
    assert_eq!(market.options[1].shares, 0);
    assert_eq!(market.collateral_balance, 50);
    assert_eq!(bet.market, pk(MARKET));
    assert_eq!(bet.user, pk(USER));
    assert_eq!(bet.shares, 10);
    assert_eq!(bet.option_index, 0);
    assert!(!bet.claimed);
}

#[test]
fn first_buy_overwrites_whatever_the_unwritten_record_held() {
    let mut market = market_with(&[50, 50], 1000);
    let mut bet = Bet {
        market: Pubkey::default(),
        user: Pubkey::default(),
        shares: 99,
        option_index: 7,
        claimed: true,
    };
    let order = buy_shares(&buy_accounts(), &mut market, &mut bet, 100, 1).unwrap();
    assert_eq!(order.amount, 50);
    assert_eq!(bet.shares, 100);
    assert_eq!(bet.option_index, 1);
    assert!(!bet.claimed);
    assert_eq!(bet.market, pk(MARKET));
    assert_eq!(bet.user, pk(USER));
    assert_eq!(market.options[1].shares, 150);
    assert_eq!(market.options[0].shares, 50);
    assert_eq!(market.collateral_balance, 1050);
}

#[test]
fn further_buy_tops_the_position_up() {
    let mut market = market_with(&[50, 50], 1000);
    let mut bet = bet_of(5, 1);
    let order = buy_shares(&buy_accounts(), &mut market, &mut bet, 100, 1).unwrap();
    assert_eq!(order.amount, 50);
    assert_eq!(bet.shares, 105);
    assert_eq!(bet.option_index, 1);
    assert_eq!(market.options[1].shares, 150);
    assert_eq!(market.collateral_balance, 1050);
    let order = buy_shares(&buy_accounts(), &mut market, &mut bet, 200, 1).unwrap();
    assert_eq!(order.amount, 52);
    assert_eq!(bet.shares, 305);
    assert_eq!(market.options[1].shares, 350);
    assert_eq!(market.collateral_balance, 1102);
}

#[test]
fn buy_into_fresh_market_is_dust() {
    let mut counter = UserMarketsCounter { authority: Pubkey::default(), count: 0 };
    let mut market = create_market(
        &CreateMarket { authority: pk(AUTHORITY), market_bump: 255 },
        &mut counter,
        0,
        "Q".to_string(),
        "D".to_string(),
        vec!["Yes".to_string(), "No".to_string()],
    )
    .unwrap();
    let mut bet = unwritten_bet();
    let before = show(&market, &bet);
    assert_eq!(
        buy_shares(&buy_accounts(), &mut market, &mut bet, 10, 0).unwrap_err(),
        CustomError::InsufficientAmount
    );
    assert_eq!(
        buy_shares(&buy_accounts(), &mut market, &mut bet, u64::MAX, 0).unwrap_err(),
        CustomError::InsufficientAmount
    );
    assert_eq!(show(&market, &bet), before);
}

#[test]
fn buy_costing_less_than_one_token_is_refused() {
    let mut market = market_with(&[50, 50], 1000);
    let mut bet = unwritten_bet();
    let before = show(&market, &bet);
    assert_eq!(price_buy(&market, 1), 9);
    assert_eq!(
        buy_shares(&buy_accounts(), &mut market, &mut bet, 1, 0).unwrap_err(),
        CustomError::InsufficientAmount
    );
    assert_eq!(
        buy_shares(&buy_accounts(), &mut market, &mut bet, 0, 0).unwrap_err(),
        CustomError::InsufficientAmount
    );
    assert_eq!(show(&market, &bet), before);
    assert_eq!(price_buy(&market, 2), 19);
    assert_eq!(buy_shares(&buy_accounts(), &mut market, &mut bet, 2, 0).unwrap().amount, 1);
}

#[test]
fn buy_needs_an_open_market() {
    let mut market = market_with(&[0, 0], 0);
    resolve_market(&closer(), &mut market, 0).unwrap();
    let mut bet = unwritten_bet();
    let before = show(&market, &bet);
    assert_eq!(
        buy_shares(&buy_accounts(), &mut market, &mut bet, 10, 0).unwrap_err(),
        CustomError::MarketResolved
    );
    assert_eq!(show(&market, &bet), before);
    let mut market = market_with(&[0, 0], 0);
    cancel_market(&closer(), &mut market).unwrap();
    assert_eq!(
        buy_shares(&buy_accounts(), &mut market, &mut bet, 10, 9).unwrap_err(),
        CustomError::MarketResolved
    );
}

#[test]
fn buy_needs_an_option_of_the_market() {
    let mut market = market_with(&[0, 0], 0);
    let mut bet = unwritten_bet();
    let before = show(&market, &bet);
    assert_eq!(
        buy_shares(&buy_accounts(), &mut market, &mut bet, 10, 2).unwrap_err(),
        CustomError::InvalidOptionIndex
    );
    assert_eq!(
        buy_shares(&buy_accounts(), &mut market, &mut bet, 10, 255).unwrap_err(),
        CustomError::InvalidOptionIndex
    );
    assert_eq!(show(&market, &bet), before);
}

#[test]
fn buy_in_a_market_whose_count_and_options_disagree() {
    let mut market = market_with(&[0, 0], 0);
    market.num_options = 5;
    let mut bet = unwritten_bet();
    assert_eq!(
        buy_shares(&buy_accounts(), &mut market, &mut bet, 10, 3).unwrap_err(),
        CustomError::InvalidOptionIndex
    );
    market.num_options = 1;
    assert_eq!(
        buy_shares(&buy_accounts(), &mut market, &mut bet, 10, 1).unwrap_err(),
        CustomError::InvalidOptionIndex
    );
    assert!(buy_shares(&buy_accounts(), &mut market, &mut bet, 10, 0).is_ok());
}

#[test]
fn buy_needs_an_active_option() {
    let mut market = market_with(&[0, 0], 0);
    market.options[1].active = false;
    let mut bet = unwritten_bet();
    let before = show(&market, &bet);
    assert_eq!(
        buy_shares(&buy_accounts(), &mut market, &mut bet, 10, 1).unwrap_err(),
        CustomError::OptionNotActive
    );
    assert_eq!(show(&market, &bet), before);
    assert!(buy_shares(&buy_accounts(), &mut market, &mut bet, 10, 0).is_ok());
}

#[test]
fn position_cannot_straddle_options() {
    let mut market = market_with(&[50, 50], 1000);
    let mut bet = bet_of(5, 1);
    let before = show(&market, &bet);
    assert_eq!(
        buy_shares(&buy_accounts(), &mut market, &mut bet, 100, 0).unwrap_err(),
        CustomError::DifferentOptionBet
    );
    assert_eq!(show(&market, &bet), before);
}

#[test]
fn claimed_position_takes_no_more_shares() {
    let mut market = market_with(&[50, 50], 1000);
    let mut bet = bet_of(5, 1);
    bet.claimed = true;
    let before = show(&market, &bet);
    assert_eq!(
        buy_shares(&buy_accounts(), &mut market, &mut bet, 100, 1).unwrap_err(),
        CustomError::AlreadyClaimed
    );
    assert_eq!(
        buy_shares(&buy_accounts(), &mut market, &mut bet, 100, 0).unwrap_err(),
        CustomError::DifferentOptionBet
    );
    assert_eq!(show(&market, &bet), before);
}

#[test]
fn buy_refuses_a_record_of_another_market_or_trader() {
    let mut market = market_with(&[50, 50], 1000);
    let before = format!("{:?}", market);
    let mut foreign_market = bet_of(5, 1);
    foreign_market.market = pk(77);
    assert_eq!(
        buy_shares(&buy_accounts(), &mut market, &mut foreign_market, 100, 1).unwrap_err(),
        CustomError::InvalidBet
    );
    let mut foreign_user = bet_of(5, 1);
    foreign_user.user = pk(78);
    assert_eq!(
        buy_shares(&buy_accounts(), &mut market, &mut foreign_user, 100, 1).unwrap_err(),
        CustomError::InvalidBet
    );
    assert_eq!(foreign_user.shares, 5);
    assert_eq!(format!("{:?}", market), before);
    let mut half_written = unwritten_bet();
    half_written.user = pk(USER);
    assert!(buy_shares(&buy_accounts(), &mut market, &mut half_written, 100, 1).is_ok());
    assert_eq!(half_written.shares, 100);
}

#[test]
fn buy_refuses_token_accounts_of_another_mint_or_owner() {
    let mut market = market_with(&[50, 50], 1000);
    let mut bet = unwritten_bet();
    let before = show(&market, &bet);

    let mut accounts = buy_accounts();
    accounts.user_token.mint = pk(90);
    assert_eq!(
        buy_shares(&accounts, &mut market, &mut bet, 100, 1).unwrap_err(),
        CustomError::InvalidMint
    );
    let mut accounts = buy_accounts();
    accounts.user_token.owner = pk(90);
    assert_eq!(
        buy_shares(&accounts, &mut market, &mut bet, 100, 1).unwrap_err(),
        CustomError::InvalidOwner
    );
    let mut accounts = buy_accounts();
    accounts.escrow_token.mint = pk(90);
    assert_eq!(
        buy_shares(&accounts, &mut market, &mut bet, 100, 1).unwrap_err(),
        CustomError::InvalidMint
    );
    let mut accounts = buy_accounts();
    accounts.escrow_token.owner = pk(USER);
    assert_eq!(
        buy_shares(&accounts, &mut market, &mut bet, 100, 1).unwrap_err(),
        CustomError::InvalidOwner
    );
    let mut accounts = buy_accounts();
    accounts.user_token.owner = pk(90);
    accounts.escrow_token.mint = pk(90);
    assert_eq!(
        buy_shares(&accounts, &mut market, &mut bet, 100, 1).unwrap_err(),
        CustomError::InvalidOwner
    );
    assert_eq!(show(&market, &bet), before);
}

#[test]
fn buy_looks_at_the_accounts_before_the_market() {
    let mut market = market_with(&[50, 50], 1000);
    cancel_market(&closer(), &mut market).unwrap();
    let mut bet = bet_of(5, 1);
    bet.user = pk(78);
    let mut accounts = buy_accounts();
    accounts.user_token.mint = pk(90);
    assert_eq!(
        buy_shares(&accounts, &mut market, &mut bet, 100, 9).unwrap_err(),
        CustomError::InvalidBet
    );
    bet.user = pk(USER);
    assert_eq!(
        buy_shares(&accounts, &mut market, &mut bet, 100, 9).unwrap_err(),
        CustomError::InvalidMint
    );
    assert_eq!(
        buy_shares(&buy_accounts(), &mut market, &mut bet, 100, 9).unwrap_err(),
        CustomError::MarketResolved
    );
}

#[test]
fn buy_that_would_overflow_the_cost_is_refused() {
    let mut market = market_with(&[0, 0], 0);
    let mut bet = unwritten_bet();
    let before = show(&market, &bet);
    assert_eq!(
        buy_shares(&buy_accounts(), &mut market, &mut bet, u64::MAX, 0).unwrap_err(),
        CustomError::ArithmeticOverflow
    );
    assert_eq!(show(&market, &bet), before);
    let most = u64::MAX / 5;
    let order = buy_shares(&buy_accounts(), &mut market, &mut bet, most, 0).unwrap();
    assert_eq!(order.amount, most * 5);
}

#[test]
fn buy_that_would_overflow_the_option_is_refused() {
    let mut market = market_with(&[u64::MAX - 99, 50], 4_000_000_000_000_000_000);
    let mut bet = unwritten_bet();
    let before = show(&market, &bet);
    assert_eq!(
        buy_shares(&buy_accounts(), &mut market, &mut bet, 100, 0).unwrap_err(),
        CustomError::ArithmeticOverflow
    );
    assert_eq!(show(&market, &bet), before);
    assert!(buy_shares(&buy_accounts(), &mut market, &mut bet, 99, 0).is_ok());
    assert_eq!(market.options[0].shares, u64::MAX);
}

#[test]
fn buy_that_would_overflow_the_collateral_is_refused() {
    let mut market = market_with(&[1, 0], u64::MAX);
    let mut bet = unwritten_bet();
    let before = show(&market, &bet);
    assert_eq!(
        buy_shares(&buy_accounts(), &mut market, &mut bet, 1000, 0).unwrap_err(),
        CustomError::ArithmeticOverflow
    );
    assert_eq!(show(&market, &bet), before);
}

#[test]
fn buy_that_would_overflow_the_position_is_refused() {
    let mut market = market_with(&[50, 50], 1000);
    let mut bet = bet_of(u64::MAX - 99, 0);
    let before = show(&market, &bet);
    assert_eq!(
        buy_shares(&buy_accounts(), &mut market, &mut bet, 100, 0).unwrap_err(),
        CustomError::ArithmeticOverflow
    );
    assert_eq!(show(&market, &bet), before);
}

#[test]
fn sell_returns_the_share_of_the_collateral() {
    let mut market = market_with(&[50, 150], 1000);
    let mut bet = bet_of(100, 1);
    let order = sell_shares(&sell_accounts(), &mut market, &mut bet, 40).unwrap();
    assert_eq!(order.amount, 20);
    assert_eq!(order.accounts.from, pk(ESCROW_TOKEN));
    assert_eq!(order.accounts.to, pk(USER_TOKEN));
    assert_eq!(order.accounts.authority, pk(MARKET));
    assert_eq!(market.options[1].shares, 110);
    assert_eq!(market.options[0].shares, 50);
    assert_eq!(market.collateral_balance, 980);
    assert_eq!(bet.shares, 60);
    assert_eq!(bet.option_index, 1);
    assert!(!bet.claimed);
}

#[test]
fn sell_of_the_whole_pool_drains_a_tenth_of_the_collateral() {
    let mut market = market_with(&[0, 100], 1000);
    let mut bet = bet_of(100, 1);
    let order = sell_shares(&sell_accounts(), &mut market, &mut bet, 100).unwrap();
    assert_eq!(order.amount, 100);
    assert_eq!(market.options[1].shares, 0);
    assert_eq!(market.collateral_balance, 900);
    assert_eq!(bet.shares, 0);
}

#[test]
fn sell_of_nothing_changes_nothing() {
    let mut market = market_with(&[50, 150], 1000);
    let mut bet = bet_of(100, 1);
    let before = show(&market, &bet);
    let order = sell_shares(&sell_accounts(), &mut market, &mut bet, 0).unwrap();
    assert_eq!(order.amount, 0);
    assert_eq!(show(&market, &bet), before);
}

#[test]
fn sell_uses_the_totals_from_before_the_sale() {
    let mut market = market_with(&[10, 10], 1000);
    let mut bet = bet_of(10, 0);
    let order = sell_shares(&sell_accounts(), &mut market, &mut bet, 5).unwrap();
    assert_eq!(order.amount, 25);
    assert_eq!(market.collateral_balance, 975);
    let order = sell_shares(&sell_accounts(), &mut market, &mut bet, 5).unwrap();
    assert_eq!(order.amount, 32);
    assert_eq!(market.collateral_balance, 943);
    assert_eq!(market.options[0].shares, 0);
    assert_eq!(bet.shares, 0);
}

#[test]
fn sell_more_than_held_is_refused_and_changes_nothing() {
    let mut market = market_with(&[50, 150], 1000);
    let mut bet = bet_of(100, 1);
    let before = show(&market, &bet);
    assert_eq!(
        sell_shares(&sell_accounts(), &mut market, &mut bet, 101).unwrap_err(),
        CustomError::InsufficientShares
    );
    assert_eq!(
        sell_shares(&sell_accounts(), &mut market, &mut bet, u64::MAX).unwrap_err(),
        CustomError::InsufficientShares
    );
    assert_eq!(show(&market, &bet), before);
    assert!(sell_shares(&sell_accounts(), &mut market, &mut bet, 100).is_ok());
}

#[test]
fn sell_needs_an_open_market() {
    let mut market = market_with(&[50, 150], 1000);
    resolve_market(&closer(), &mut market, 1).unwrap();
    let mut bet = bet_of(100, 1);
    let before = show(&market, &bet);
    assert_eq!(
        sell_shares(&sell_accounts(), &mut market, &mut bet, 10).unwrap_err(),
        CustomError::MarketResolved
    );
    assert_eq!(
        sell_shares(&sell_accounts(), &mut market, &mut bet, 101).unwrap_err(),
        CustomError::MarketResolved
    );
    assert_eq!(show(&market, &bet), before);
}

#[test]
fn sell_needs_the_traders_own_position() {
    let mut market = market_with(&[50, 150], 1000);
    let mut unwritten = unwritten_bet();
    assert_eq!(
        sell_shares(&sell_accounts(), &mut market, &mut unwritten, 0).unwrap_err(),
        CustomError::InvalidBet
    );
    let mut other_market = bet_of(100, 1);
    other_market.market = pk(70);
    assert_eq!(
        sell_shares(&sell_accounts(), &mut market, &mut other_market, 10).unwrap_err(),
        CustomError::InvalidBet
    );
    let mut other_user = bet_of(100, 1);
    other_user.user = pk(70);
    assert_eq!(
        sell_shares(&sell_accounts(), &mut market, &mut other_user, 10).unwrap_err(),
        CustomError::InvalidBet
    );
    assert_eq!(market.collateral_balance, 1000);
    assert_eq!(other_user.shares, 100);
}

#[test]
fn sell_refuses_token_accounts_of_another_mint_or_owner() {
    let mut market = market_with(&[50, 150], 1000);
    let mut bet = bet_of(100, 1);
    let before = show(&market, &bet);
    let mut accounts = sell_accounts();
    accounts.user_token.mint = pk(90);
    assert_eq!(
        sell_shares(&accounts, &mut market, &mut bet, 10).unwrap_err(),
        CustomError::InvalidMint
    );
    let mut accounts = sell_accounts();
    accounts.escrow_token.owner = pk(90);
    assert_eq!(
        sell_shares(&accounts, &mut market, &mut bet, 10).unwrap_err(),
        CustomError::InvalidOwner
    );
    assert_eq!(show(&market, &bet), before);
}

#[test]
fn sell_from_a_position_the_market_cannot_back_is_refused() {
    let mut market = market_with(&[50, 150], 1000);
    let mut beyond = bet_of(100, 2);
    let before = show(&market, &beyond);
    assert_eq!(
        sell_shares(&sell_accounts(), &mut market, &mut beyond, 10).unwrap_err(),
        CustomError::InvalidOptionIndex
    );
    assert_eq!(show(&market, &beyond), before);
    let mut unbacked = bet_of(100, 0);
    let before = show(&market, &unbacked);
    assert_eq!(
        sell_shares(&sell_accounts(), &mut market, &mut unbacked, 51).unwrap_err(),
        CustomError::ArithmeticOverflow
    );
    assert_eq!(show(&market, &unbacked), before);
    assert!(sell_shares(&sell_accounts(), &mut market, &mut unbacked, 50).is_ok());
}

#[test]
fn sale_leaves_mark_and_option_of_the_position() {
    let mut market = market_with(&[50, 150, 10], 1000);
    let mut bet = bet_of(100, 1);
    bet.claimed = true;
    sell_shares(&sell_accounts(), &mut market, &mut bet, 40).unwrap();
    assert!(bet.claimed);
    assert_eq!(bet.option_index, 1);
    assert_eq!(bet.market, pk(MARKET));
    assert_eq!(bet.user, pk(USER));
    assert_eq!(market.options[2].shares, 10);
    assert_eq!(market.options[2].name, "o2");
    assert!(!market.resolved);
}

#[test]
fn trades_keep_what_else_the_market_holds() {
    let mut market = market_with(&[50, 50, 7], 5000);
    market.options[2].active = false;
    let mut bet = unwritten_bet();
    buy_shares(&buy_accounts(), &mut market, &mut bet, 100, 1).unwrap();
    sell_shares(&sell_accounts(), &mut market, &mut bet, 30).unwrap();
    assert_eq!(market.authority, pk(AUTHORITY));
    assert_eq!(market.market_index, 0);
    assert_eq!(market.bump, 255);
    assert_eq!(market.market_type, MarketType::MultiOption);
    assert_eq!(market.question, "Q");
    assert_eq!(market.description, "D");
    assert_eq!(market.outcome, Outcome::Unresolved);
    assert_eq!(market.num_options, 3);
    assert_eq!(market.virtual_liquidity, 50);
    assert_eq!(market.options.len(), 3);
    assert_eq!(market.options[0].shares, 50);
    assert_eq!(market.options[1].shares, 120);
    assert_eq!(market.options[1].name, "o1");
    assert!(market.options[1].active);
    assert_eq!(market.options[2].shares, 7);
    assert!(!market.options[2].active);
}

#[test]
fn buy_then_sell_keeps_the_shares_others_hold() {
    let mut market = market_with(&[50, 50], 5000);
    let mut bet = unwritten_bet();
    let bought = buy_shares(&buy_accounts(), &mut market, &mut bet, 100, 0).unwrap();
    assert_eq!(bought.amount, 250);
    assert_eq!(market.total_shares() - bet.shares as u128, 100);
    let sold = sell_shares(&sell_accounts(), &mut market, &mut bet, 100).unwrap();
    assert_eq!(sold.amount, 262);
    assert_eq!(market.total_shares() - bet.shares as u128, 100);
    assert_eq!(market.collateral_balance, 4988);
    assert_eq!(market.options[0].shares, 50);
}

#[test]
fn payment_accounts_of_a_trade() {
    let buy = buy_accounts().transfer_to_escrow();
    assert_eq!(buy.from, pk(USER_TOKEN));
    assert_eq!(buy.to, pk(ESCROW_TOKEN));
    assert_eq!(buy.authority, pk(USER));
    let sell = sell_accounts().transfer_to_user();
    assert_eq!(sell.from, pk(ESCROW_TOKEN));
    assert_eq!(sell.to, pk(USER_TOKEN));
    assert_eq!(sell.authority, pk(MARKET));
}
