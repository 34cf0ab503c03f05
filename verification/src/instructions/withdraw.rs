use crate::error::VaultError;
use crate::pubkey::Pubkey;
use crate::seeds::{vault_seeds, vault_signer_seeds};
use crate::state::vault_state::VaultState;
use crate::token::{Mint, TokenAccount, TransferChecked};
use vstd::prelude::*;

verus! {

/// The fee for leaving before the plan is complete, in basis points of what
/// is still in custody.
pub const EARLY_EXIT_FEE_BPS: u64 = 50;

/// One whole, in basis points.
pub const BPS_DENOMINATOR: u64 = 10000;

/// The accounts of a withdrawal, as far as the operation reads them.
#[derive(Clone, Copy, Debug, PartialEq, Eq)]
pub struct Withdraw {
    /// The authenticated caller.
    pub user: Pubkey,
    /// The mint of the deposited token.
    pub mint_usdc: Mint,
    /// The owner's account of the deposited token.
    pub user_ata: TokenAccount,
    /// The vault's record.
    pub vault: VaultState,
    /// The address of the vault's record, which signs for its custody.
    pub vault_key: Pubkey,
    /// The vault's custody of the deposited token.
    pub vault_ata: TokenAccount,
}

/// Announces a withdrawal.
#[derive(Clone, Copy, Debug, PartialEq, Eq)]
pub struct WithdrawEvent {
    pub owner: Pubkey,
    pub amount_withdrawn: u64,
    pub fee_charged: u64,
    pub is_early_exit: bool,
    pub timestamp: i64,
}

/// An order to end a record: close the account `account` and hand what it
/// holds for its upkeep to `destination`. Once it is carried out there is no
/// such vault any more.
#[derive(Clone, Copy, Debug, PartialEq, Eq)]
pub struct CloseAccount {
    pub account: Pubkey,
    pub destination: Pubkey,
}

/// What a successful withdrawal asks of its host: carry out `transfer`,
/// which moves the payout from the vault's custody to the owner's token
/// account, signed for the vault with `signer_seeds`; carry out `close`,
/// which ends the record; and publish the event. The fee stays behind in
/// custody.
#[derive(Clone, Debug, PartialEq, Eq)]
pub struct VaultPayout {
    pub transfer: TransferChecked,
    pub signer_seeds: Vec<Vec<u8>>,
    pub close: CloseAccount,
    pub event: WithdrawEvent,
}

impl Withdraw {
    /// Whether the plan still has slices to execute.
    pub open spec fn is_early_exit(self) -> bool {
        !self.vault.complete()
    }

    /// The fee of this withdrawal: fifty basis points of the custody
    /// balance, rounded down, on an early exit, and nothing otherwise.
    pub open spec fn fee(self) -> int {
        if self.is_early_exit() {
            self.vault_ata.amount * EARLY_EXIT_FEE_BPS / (BPS_DENOMINATOR as int)
        } else {
            0
        }
    }

    /// The order that moves what is in custody, less the fee, to the owner's
    /// token account, on the vault's authority.
    pub open spec fn payout_transfer(self) -> TransferChecked {
        TransferChecked {
            from: self.vault_ata.key,
            mint: self.mint_usdc.key,
            to: self.user_ata.key,
            authority: self.vault_key,
            amount: (self.vault_ata.amount - self.fee()) as u64,
            decimals: self.mint_usdc.decimals,
        }
    }

    /// The first reason, if any, for which this withdrawal is refused.
    pub open spec fn violation(self) -> Option<VaultError> {
        if self.vault.owner != self.user {
            Some(VaultError::Unauthorized)
        } else if self.vault_ata.amount == 0 {
            Some(VaultError::InsufficientBalance)
        } else {
            None
        }
    }

    /// Closes the vault at time `curr_time`: everything in custody goes back
    /// to the owner, less the fee where the plan is not complete, and the
    /// record ends.
    ///
    /// Refused with `Unauthorized` where the caller is not the owner, else
    /// with `InsufficientBalance` where custody is empty. The fee never
    /// exceeds the balance, so no other refusal occurs.
    pub fn withdraw(&self, curr_time: i64) -> (r: Result<VaultPayout, VaultError>)
        ensures
            self.vault.owner != self.user ==> r == Err::<VaultPayout, VaultError>(
                VaultError::Unauthorized,
            ),
            self.vault.owner == self.user && self.vault_ata.amount == 0 ==> r == Err::<
                VaultPayout,
                VaultError,
            >(VaultError::InsufficientBalance),
            self.vault.owner == self.user && self.vault_ata.amount > 0 ==> r is Ok,
            r matches Ok(payout) ==> {
                &&& 0 <= self.fee() <= self.vault_ata.amount
                &&& payout.transfer == self.payout_transfer()
                &&& payout.transfer.amount == self.vault_ata.amount - self.fee()
                &&& !self.is_early_exit() ==> payout.transfer.amount == self.vault_ata.amount
                &&& payout.signer_seeds.deep_view() == vault_seeds(self.user, self.vault.bump)
                &&& payout.close == (CloseAccount {
                    account: self.vault_key,
                    destination: self.user,
                })
                &&& payout.event == (WithdrawEvent {
                    owner: self.user,
                    amount_withdrawn: (self.vault_ata.amount - self.fee()) as u64,
                    fee_charged: self.fee() as u64,
                    is_early_exit: self.is_early_exit(),
                    timestamp: curr_time,
                })
            },
    {
        if self.vault.owner != self.user {
            return Err(VaultError::Unauthorized);
        }
        let remaining_usdc = self.vault_ata.amount;
        if remaining_usdc == 0 {
            return Err(VaultError::InsufficientBalance);
        }
        let is_early_exit = self.vault.periods_completed < self.vault.periods;
        let fee_amount = if is_early_exit {
            early_exit_fee(remaining_usdc)
        } else {
            0
        };
        let transfer_amount = match remaining_usdc.checked_sub(fee_amount) {
            Some(v) => v,
            None => return Err(VaultError::ArithmeticOverflow),
        };
        Ok(
            VaultPayout {
                transfer: TransferChecked {
                    from: self.vault_ata.key,
                    mint: self.mint_usdc.key,
                    to: self.user_ata.key,
                    authority: self.vault_key,
                    amount: transfer_amount,
                    decimals: self.mint_usdc.decimals,
                },
                signer_seeds: vault_signer_seeds(&self.user, self.vault.bump),
                close: CloseAccount { account: self.vault_key, destination: self.user },
                event: WithdrawEvent {
                    owner: self.user,
                    amount_withdrawn: transfer_amount,
                    fee_charged: fee_amount,
                    is_early_exit,
                    timestamp: curr_time,
                },
            },
        )
    }
}

/// Fifty basis points of `balance`, rounded down.
pub fn early_exit_fee(balance: u64) -> (fee: u64)
    ensures
        fee == balance * EARLY_EXIT_FEE_BPS / (BPS_DENOMINATOR as int),
        fee <= balance,
{
    let scaled = balance as u128 * EARLY_EXIT_FEE_BPS as u128;
    (scaled / BPS_DENOMINATOR as u128) as u64
}

} // verus!
