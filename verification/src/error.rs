//! The reasons for which the ledger turns a request down.

use vstd::prelude::*;

verus! {

/// Why a request was refused. A refused request changes nothing.
#[derive(Clone, Copy, PartialEq, Eq, Debug, Structural)]
pub enum CustomError {
    /// The market has already been resolved or cancelled.
    MarketResolved,
    /// The market is still open.
    MarketNotResolved,
    /// The position has already been paid out.
    AlreadyClaimed,
    /// The position backs an option that did not win.
    NotWinner,
    /// Less than a day has passed since the last reward claim.
    ClaimTooSoon,
    /// The question is longer than the ledger stores.
    QuestionTooLong,
    /// The description is longer than the ledger stores.
    DescriptionTooLong,
    /// A token account belongs to another mint.
    InvalidMint,
    /// A token account belongs to another owner.
    InvalidOwner,
    /// The trade is too small to cost a single token.
    InsufficientAmount,
    /// A market needs between 2 and 16 options.
    InvalidOptionCount,
    /// No option has this index.
    InvalidOptionIndex,
    /// The option is closed to trading.
    OptionNotActive,
    /// The market already has 16 options.
    MaxOptionsReached,
    /// The option's name is longer than the ledger stores.
    OptionNameTooLong,
    /// A cancelled market holds no shares to refund against.
    NoSharesInMarket,
    /// The position already backs another option of this market.
    DifferentOptionBet,
    /// The position record belongs to another market or another trader.
    InvalidBet,
    /// The position holds fewer shares than the sale asks for.
    InsufficientShares,
    /// A count or an amount would leave the range of its field.
    ArithmeticOverflow,
    /// The request comes from someone else than the owner of the record.
    Unauthorized,
}

impl CustomError {
    /// The text shown to a user for this error.
    pub open spec fn message_text(self) -> Seq<char> {
        match self {
            CustomError::MarketResolved => "Market already resolved"@,
            CustomError::MarketNotResolved => "Market not resolved"@,
            CustomError::AlreadyClaimed => "Bet already claimed"@,
            CustomError::NotWinner => "Not a winning bet"@,
            CustomError::ClaimTooSoon => "You have already claimed AMAF tokens within the last 24 hours. Please wait before claiming again."@,
            CustomError::QuestionTooLong => "Question too long"@,
            CustomError::DescriptionTooLong => "Description too long"@,
            CustomError::InvalidMint => "Invalid mint"@,
            CustomError::InvalidOwner => "Invalid owner"@,
            CustomError::InsufficientAmount => "Insufficient amount for trade"@,
            CustomError::InvalidOptionCount => "Invalid option count (must be 2-16)"@,
            CustomError::InvalidOptionIndex => "Invalid option index"@,
            CustomError::OptionNotActive => "Option is not active"@,
            CustomError::MaxOptionsReached => "Maximum options reached (16)"@,
            CustomError::OptionNameTooLong => "Option name too long"@,
            CustomError::NoSharesInMarket => "No shares in market"@,
            CustomError::DifferentOptionBet => "Cannot buy shares of different options in same market"@,
            CustomError::InvalidBet => "Invalid bet account"@,
            CustomError::InsufficientShares => "Insufficient shares to sell"@,
            CustomError::ArithmeticOverflow => "Arithmetic overflow"@,
            CustomError::Unauthorized => "Not the owner of the record"@,
        }
    }

    /// The text shown to a user for this error.
    pub fn message(&self) -> (text: &'static str)
        ensures
            text@ == self.message_text(),
    {
        match self {
            CustomError::MarketResolved => "Market already resolved",
            CustomError::MarketNotResolved => "Market not resolved",
            CustomError::AlreadyClaimed => "Bet already claimed",
            CustomError::NotWinner => "Not a winning bet",
            CustomError::ClaimTooSoon => "You have already claimed AMAF tokens within the last 24 hours. Please wait before claiming again.",
            CustomError::QuestionTooLong => "Question too long",
            CustomError::DescriptionTooLong => "Description too long",
            CustomError::InvalidMint => "Invalid mint",
            CustomError::InvalidOwner => "Invalid owner",
            CustomError::InsufficientAmount => "Insufficient amount for trade",
            CustomError::InvalidOptionCount => "Invalid option count (must be 2-16)",
            CustomError::InvalidOptionIndex => "Invalid option index",
            CustomError::OptionNotActive => "Option is not active",
            CustomError::MaxOptionsReached => "Maximum options reached (16)",
            CustomError::OptionNameTooLong => "Option name too long",
            CustomError::NoSharesInMarket => "No shares in market",
            CustomError::DifferentOptionBet => "Cannot buy shares of different options in same market",
            CustomError::InvalidBet => "Invalid bet account",
            CustomError::InsufficientShares => "Insufficient shares to sell",
            CustomError::ArithmeticOverflow => "Arithmetic overflow",
            CustomError::Unauthorized => "Not the owner of the record",
        }
    }
}

} // verus!
