use crate::pubkey::Pubkey;
use vstd::prelude::*;

verus! {

/// What an operation reads of a token's mint.
#[derive(Clone, Copy, Debug, PartialEq, Eq)]
pub struct Mint {
    /// The mint's address.
    pub key: Pubkey,
    /// The number of decimal places of the token's base unit.
    pub decimals: u8,
}

/// What an operation reads of a token account.
#[derive(Clone, Copy, Debug, PartialEq, Eq)]
pub struct TokenAccount {
    /// The account's address.
    pub key: Pubkey,
    /// The quantity of the token that the account holds.
    pub amount: u64,
}

/// An order to the token program: move `amount` of the token of `mint`,
/// which has `decimals` decimal places, from the account `from` to the
/// account `to`, on the authority of `authority`.
#[derive(Clone, Copy, Debug, PartialEq, Eq)]
pub struct TransferChecked {
    pub from: Pubkey,
    pub mint: Pubkey,
    pub to: Pubkey,
    pub authority: Pubkey,
    pub amount: u64,
    pub decimals: u8,
}

} // verus!
