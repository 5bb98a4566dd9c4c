//! The accounts that come with a request, as far as the ledger reads them,
//! and the rules that tie them to one another.

use crate::error::CustomError;
use crate::keys::{key_is_unset, keys_equal, is_unset, same_key};
use crate::state::Bet;
use anchor_lang::prelude::Pubkey;
use vstd::prelude::*;

verus! {

/// What the ledger reads of a token account: where it lives, which mint its
/// tokens belong to, and who owns it.
#[derive(Clone, Copy, Debug)]
pub struct TokenAccountKeys {
    pub key: Pubkey,
    pub mint: Pubkey,
    pub owner: Pubkey,
}

/// The accounts of a token transfer: out of `from`, into `to`, signed for by
/// `authority`.
#[derive(Clone, Copy, Debug)]
pub struct TransferAccounts {
    pub from: Pubkey,
    pub to: Pubkey,
    pub authority: Pubkey,
}

/// The accounts of a minting: new tokens of `mint` into `to`, signed for by
/// `authority`.
#[derive(Clone, Copy, Debug)]
pub struct MintToAccounts {
    pub mint: Pubkey,
    pub to: Pubkey,
    pub authority: Pubkey,
}

/// A transfer the custodian is to carry out together with the ledger's update.
#[derive(Clone, Copy, Debug)]
pub struct TransferOrder {
    pub accounts: TransferAccounts,
    pub amount: u64,
}

/// A minting the custodian is to carry out together with the ledger's update.
#[derive(Clone, Copy, Debug)]
pub struct MintOrder {
    pub accounts: MintToAccounts,
    pub amount: u64,
}

/// Who creates a market, and the bump of the address the market is stored at.
#[derive(Clone, Copy, Debug)]
pub struct CreateMarket {
    pub authority: Pubkey,
    pub market_bump: u8,
}

/// Who asks for another option of a market.
#[derive(Clone, Copy, Debug)]
pub struct AddOption {
    pub authority: Pubkey,
}

/// Who asks for a market to be decided or called off.
#[derive(Clone, Copy, Debug)]
pub struct ResolveMarket {
    pub authority: Pubkey,
}

/// The accounts of a purchase.
#[derive(Clone, Copy, Debug)]
pub struct BuyShares {
    pub market_key: Pubkey,
    pub user_token: TokenAccountKeys,
    pub escrow_token: TokenAccountKeys,
    pub user: Pubkey,
    pub mint: Pubkey,
}

/// The accounts of a sale.
#[derive(Clone, Copy, Debug)]
pub struct SellShares {
    pub market_key: Pubkey,
    pub user_token: TokenAccountKeys,
    pub escrow_token: TokenAccountKeys,
    pub user: Pubkey,
    pub mint: Pubkey,
}

/// The accounts of a claim on a settled market.
#[derive(Clone, Copy, Debug)]
pub struct ClaimPayout {
    pub market_key: Pubkey,
    pub user_token: TokenAccountKeys,
    pub escrow_token: TokenAccountKeys,
    pub user: Pubkey,
    pub mint: Pubkey,
}

/// The accounts of a claim on the daily reward.
#[derive(Clone, Copy, Debug)]
pub struct ClaimDaily {
    pub mint: Pubkey,
    pub program_authority: Pubkey,
    pub user_token: TokenAccountKeys,
    pub user: Pubkey,
}

/// What is wrong with a token account that should hold tokens of `mint` for
/// `owner`, if anything: the mint is looked at first.
pub open spec fn token_account_fault(account: TokenAccountKeys, mint: Pubkey, owner: Pubkey) -> Option<
    CustomError,
> {
    if !same_key(account.mint, mint) {
        Some(CustomError::InvalidMint)
    } else if !same_key(account.owner, owner) {
        Some(CustomError::InvalidOwner)
    } else {
        None
    }
}

/// What is wrong with the token accounts of a trade or a claim, if anything:
/// the trader's account holds tokens of `mint` for the trader, the escrow
/// account holds tokens of `mint` for the market. The trader's account is
/// looked at first.
pub open spec fn token_pair_fault(
    user_token: TokenAccountKeys,
    escrow_token: TokenAccountKeys,
    mint: Pubkey,
    user: Pubkey,
    market_key: Pubkey,
) -> Option<CustomError> {
    if token_account_fault(user_token, mint, user) is Some {
        token_account_fault(user_token, mint, user)
    } else {
        token_account_fault(escrow_token, mint, market_key)
    }
}

/// Whether a position record may take a purchase by `user` in the market at
/// `market_key`: it is either unwritten or already theirs.
pub open spec fn bet_accepts_buyer(bet: Bet, market_key: Pubkey, user: Pubkey) -> bool {
    &&& is_unset(bet.market) || same_key(bet.market, market_key)
    &&& is_unset(bet.user) || same_key(bet.user, user)
}

/// Whether a position record is that of `user` in the market at `market_key`.
pub open spec fn bet_belongs_to(bet: Bet, market_key: Pubkey, user: Pubkey) -> bool {
    &&& same_key(bet.market, market_key)
    &&& same_key(bet.user, user)
}

/// Checks that `account` holds tokens of `mint` for `owner`.
pub fn check_token_account(account: &TokenAccountKeys, mint: &Pubkey, owner: &Pubkey) -> (checked:
    Result<(), CustomError>)
    ensures
        match checked {
            Ok(_) => token_account_fault(*account, *mint, *owner) is None,
            Err(fault) => token_account_fault(*account, *mint, *owner) == Some(fault),
        },
{
    if !keys_equal(&account.mint, mint) {
        Err(CustomError::InvalidMint)
    } else if !keys_equal(&account.owner, owner) {
        Err(CustomError::InvalidOwner)
    } else {
        Ok(())
    }
}

/// Checks the token accounts of a trade or a claim.
pub fn check_token_pair(
    user_token: &TokenAccountKeys,
    escrow_token: &TokenAccountKeys,
    mint: &Pubkey,
    user: &Pubkey,
    market_key: &Pubkey,
) -> (checked: Result<(), CustomError>)
    ensures
        match checked {
            Ok(_) => token_pair_fault(*user_token, *escrow_token, *mint, *user, *market_key)
                is None,
            Err(fault) => token_pair_fault(*user_token, *escrow_token, *mint, *user, *market_key)
                == Some(fault),
        },
{
    match check_token_account(user_token, mint, user) {
        Err(fault) => Err(fault),
        Ok(_) => check_token_account(escrow_token, mint, market_key),
    }
}

/// What is wrong with a request of `requester` on a market of `authority`,
/// if anything: only its authority administers a market.
pub open spec fn authority_fault(authority: Pubkey, requester: Pubkey) -> Option<CustomError> {
    if !same_key(authority, requester) {
        Some(CustomError::Unauthorized)
    } else {
        None
    }
}

/// Checks that `requester` is the `authority` of a market.
pub fn check_authority(authority: &Pubkey, requester: &Pubkey) -> (checked: Result<
    (),
    CustomError,
>)
    ensures
        match checked {
            Ok(_) => authority_fault(*authority, *requester) is None,
            Err(fault) => authority_fault(*authority, *requester) == Some(fault),
        },
{
    if !keys_equal(authority, requester) {
        Err(CustomError::Unauthorized)
    } else {
        Ok(())
    }
}

impl BuyShares {
    /// What is wrong with the accounts of a purchase into `bet`, if anything.
    /// The position record is looked at first, then the token accounts.
    pub open spec fn fault(self, bet: Bet) -> Option<CustomError> {
        if !bet_accepts_buyer(bet, self.market_key, self.user) {
            Some(CustomError::InvalidBet)
        } else {
            token_pair_fault(
                self.user_token,
                self.escrow_token,
                self.mint,
                self.user,
                self.market_key,
            )
        }
    }

    /// Checks the accounts of a purchase into `bet`.
    pub fn check(&self, bet: &Bet) -> (checked: Result<(), CustomError>)
        ensures
            match checked {
                Ok(_) => self.fault(*bet) is None,
                Err(fault) => self.fault(*bet) == Some(fault),
            },
    {
        if !(key_is_unset(&bet.market) || keys_equal(&bet.market, &self.market_key)) {
            return Err(CustomError::InvalidBet);
        }
        if !(key_is_unset(&bet.user) || keys_equal(&bet.user, &self.user)) {
            return Err(CustomError::InvalidBet);
        }
        check_token_pair(
            &self.user_token,
            &self.escrow_token,
            &self.mint,
            &self.user,
            &self.market_key,
        )
    }

    /// The accounts of the payment for a purchase: out of the trader's token
    /// account into the market's escrow, signed for by the trader.
    pub fn transfer_to_escrow(&self) -> (accounts: TransferAccounts)
        ensures
            accounts == (TransferAccounts {
                from: self.user_token.key,
                to: self.escrow_token.key,
                authority: self.user,
            }),
    {
        TransferAccounts {
            from: self.user_token.key,
            to: self.escrow_token.key,
            authority: self.user,
        }
    }
}

impl SellShares {
    /// What is wrong with the accounts of a sale out of `bet`, if anything.
    /// The position record is looked at first, then the token accounts.
    pub open spec fn fault(self, bet: Bet) -> Option<CustomError> {
        if !bet_belongs_to(bet, self.market_key, self.user) {
            Some(CustomError::InvalidBet)
        } else {
            token_pair_fault(
                self.user_token,
                self.escrow_token,
                self.mint,
                self.user,
                self.market_key,
            )
        }
    }

    /// Checks the accounts of a sale out of `bet`.
    pub fn check(&self, bet: &Bet) -> (checked: Result<(), CustomError>)
        ensures
            match checked {
                Ok(_) => self.fault(*bet) is None,
                Err(fault) => self.fault(*bet) == Some(fault),
            },
    {
        if !keys_equal(&bet.market, &self.market_key) {
            return Err(CustomError::InvalidBet);
        }
        if !keys_equal(&bet.user, &self.user) {
            return Err(CustomError::InvalidBet);
        }
        check_token_pair(
            &self.user_token,
            &self.escrow_token,
            &self.mint,
            &self.user,
            &self.market_key,
        )
    }

    /// The accounts of the payment for a sale: out of the market's escrow
    /// into the trader's token account, signed for by the market.
    pub fn transfer_to_user(&self) -> (accounts: TransferAccounts)
        ensures
            accounts == (TransferAccounts {
                from: self.escrow_token.key,
                to: self.user_token.key,
                authority: self.market_key,
            }),
    {
        TransferAccounts {
            from: self.escrow_token.key,
            to: self.user_token.key,
            authority: self.market_key,
        }
    }
}

impl ClaimPayout {
    /// What is wrong with the accounts of a claim on `bet`, if anything. The
    /// position is looked at first, which must be the claimant's, then the
    /// token accounts.
    pub open spec fn fault(self, bet: Bet) -> Option<CustomError> {
        if !same_key(bet.user, self.user) {
            Some(CustomError::Unauthorized)
        } else {
            token_pair_fault(
                self.user_token,
                self.escrow_token,
                self.mint,
                self.user,
                self.market_key,
            )
        }
    }

    /// Checks the accounts of a claim on `bet`.
    pub fn check(&self, bet: &Bet) -> (checked: Result<(), CustomError>)
        ensures
            match checked {
                Ok(_) => self.fault(*bet) is None,
                Err(fault) => self.fault(*bet) == Some(fault),
            },
    {
        if !keys_equal(&bet.user, &self.user) {
            return Err(CustomError::Unauthorized);
        }
        check_token_pair(
            &self.user_token,
            &self.escrow_token,
            &self.mint,
            &self.user,
            &self.market_key,
        )
    }

    /// The accounts of a transfer out of the market's escrow into the
    /// trader's token account that the trader signs for.
    pub fn transfer_to_user(&self) -> (accounts: TransferAccounts)
        ensures
            accounts == (TransferAccounts {
                from: self.escrow_token.key,
                to: self.user_token.key,
                authority: self.user,
            }),
    {
        TransferAccounts {
            from: self.escrow_token.key,
            to: self.user_token.key,
            authority: self.user,
        }
    }

    /// The accounts of the payment of a claim: out of the market's escrow
    /// into the trader's token account, signed for by the market.
    pub fn payout_transfer(&self) -> (accounts: TransferAccounts)
        ensures
            accounts == (TransferAccounts {
                from: self.escrow_token.key,
                to: self.user_token.key,
                authority: self.market_key,
            }),
    {
        TransferAccounts {
            from: self.escrow_token.key,
            to: self.user_token.key,
            authority: self.market_key,
        }
    }
}

impl ClaimDaily {
    /// What is wrong with the token account the reward goes to, if anything.
    pub open spec fn fault(self) -> Option<CustomError> {
        token_account_fault(self.user_token, self.mint, self.user)
    }

    /// Checks the token account the reward goes to.
    pub fn check(&self) -> (checked: Result<(), CustomError>)
        ensures
            match checked {
                Ok(_) => self.fault() is None,
                Err(fault) => self.fault() == Some(fault),
            },
    {
        check_token_account(&self.user_token, &self.mint, &self.user)
    }

    /// The accounts of the minting of a reward: new tokens into the
    /// claimant's token account, signed for by the program's authority.
    pub fn mint_ctx(&self) -> (accounts: MintToAccounts)
        ensures
            accounts == (MintToAccounts {
                mint: self.mint,
                to: self.user_token.key,
                authority: self.program_authority,
            }),
    {
        MintToAccounts {
            mint: self.mint,
            to: self.user_token.key,
            authority: self.program_authority,
        }
    }
}

} // verus!
