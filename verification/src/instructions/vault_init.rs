use crate::error::VaultError;
use crate::pubkey::Pubkey;
use crate::state::vault_state::VaultState;
use crate::token::{Mint, TokenAccount, TransferChecked};
use vstd::prelude::*;

verus! {

/// The accounts of a vault's creation, as far as the operation reads or
/// writes them.
#[derive(Clone, Copy, Debug, PartialEq, Eq)]
pub struct VaultInit {
    /// The authenticated owner, who pays the deposit.
    pub user: Pubkey,
    /// The mint of the deposited token.
    pub mint_usdc: Mint,
    /// The owner's account of the deposited token.
    pub user_ata: TokenAccount,
    /// The record to fill in.
    pub vault: VaultState,
    /// The vault's custody of the deposited token.
    pub vault_ata: TokenAccount,
}

/// The nonces found for the derived addresses of a creation.
#[derive(Clone, Copy, Debug, PartialEq, Eq)]
pub struct VaultInitBumps {
    pub vault: u8,
}

/// Announces that a vault has been created.
#[derive(Clone, Copy, Debug, PartialEq, Eq)]
pub struct VaultCreated {
    pub owner: Pubkey,
    pub total_amount: u64,
    pub periods: u16,
    pub interval_seconds: u64,
    pub staked_at: i64,
}

/// What a successful creation asks of its host: carry out `transfer`, which
/// moves the deposit from the owner's token account into the vault's
/// custody, then publish the event.
#[derive(Clone, Copy, Debug, PartialEq, Eq)]
pub struct VaultDeposit {
    pub transfer: TransferChecked,
    pub event: VaultCreated,
}

impl VaultInit {
    /// The first reason, if any, for which a creation with these parameters
    /// at time `curr_time` is refused.
    pub open spec fn violation(
        amount: u64,
        periods: u16,
        interval_seconds: u64,
        curr_time: i64,
    ) -> Option<VaultError> {
        if amount == 0 {
            Some(VaultError::InvalidAmount)
        } else if periods == 0 {
            Some(VaultError::InvalidPeriods)
        } else if interval_seconds == 0 {
            Some(VaultError::InvalidInterval)
        } else if curr_time + interval_seconds > i64::MAX {
            Some(VaultError::ArithmeticOverflow)
        } else {
            None
        }
    }

    /// The order that moves a deposit of `amount` from the owner's token
    /// account into the vault's custody, on the owner's authority.
    pub open spec fn deposit_transfer(self, amount: u64) -> TransferChecked {
        TransferChecked {
            from: self.user_ata.key,
            mint: self.mint_usdc.key,
            to: self.vault_ata.key,
            authority: self.user,
            amount,
            decimals: self.mint_usdc.decimals,
        }
    }

    /// Creates the vault's record for a deposit of `amount`, to be released
    /// in `periods` slices, one every `interval_seconds`, starting one
    /// interval after `curr_time`.
    ///
    /// A zero amount, a zero number of periods and a zero interval are
    /// refused, in this order; so is a first deadline that an `i64` cannot
    /// hold. A refusal leaves everything unchanged.
    pub fn deposit_and_init_dca_vault(
        &mut self,
        amount: u64,
        periods: u16,
        interval_seconds: u64,
        bumps: &VaultInitBumps,
        curr_time: i64,
    ) -> (r: Result<VaultDeposit, VaultError>)
        ensures
            amount == 0 ==> r == Err::<VaultDeposit, VaultError>(VaultError::InvalidAmount),
            amount > 0 && periods == 0 ==> r == Err::<VaultDeposit, VaultError>(
                VaultError::InvalidPeriods,
            ),
            amount > 0 && periods > 0 && interval_seconds == 0 ==> r == Err::<
                VaultDeposit,
                VaultError,
            >(VaultError::InvalidInterval),
            amount > 0 && periods > 0 && interval_seconds > 0 && curr_time + interval_seconds
                <= i64::MAX ==> r is Ok,
            match r {
                Ok(deposit) => {
                    &&& Self::violation(amount, periods, interval_seconds, curr_time) is None
                    &&& final(self).user == old(self).user
                    &&& final(self).mint_usdc == old(self).mint_usdc
                    &&& final(self).user_ata == old(self).user_ata
                    &&& final(self).vault_ata == old(self).vault_ata
                    &&& final(self).vault == VaultState::created(
                        old(self).user,
                        amount,
                        periods,
                        interval_seconds,
                        curr_time,
                        bumps.vault,
                    )
                    &&& final(self).vault.curr_balance == amount
                    &&& final(self).vault.periods_completed == 0
                    &&& final(self).vault.next_swap_time == final(self).vault.staked_at
                        + interval_seconds
                    &&& final(self).vault.on_schedule()
                    &&& deposit.transfer == old(self).deposit_transfer(amount)
                    &&& deposit.event == (VaultCreated {
                        owner: old(self).user,
                        total_amount: amount,
                        periods,
                        interval_seconds,
                        staked_at: curr_time,
                    })
                },
                Err(e) => {
                    &&& Self::violation(amount, periods, interval_seconds, curr_time) == Some(e)
                    &&& *final(self) == *old(self)
                },
            },
    {
        if amount == 0 {
            return Err(VaultError::InvalidAmount);
        }
        if periods == 0 {
            return Err(VaultError::InvalidPeriods);
        }
        if interval_seconds == 0 {
            return Err(VaultError::InvalidInterval);
        }
        let next_swap_time = curr_time as i128 + interval_seconds as i128;
        if next_swap_time > i64::MAX as i128 {
            return Err(VaultError::ArithmeticOverflow);
        }
        self.vault = VaultState {
            owner: self.user,
            total_amount: amount,
            periods,
            interval_seconds,
            staked_at: curr_time,
            curr_balance: amount,
            periods_completed: 0,
            next_swap_time: next_swap_time as i64,
            total_sol_received: 0,
            bump: bumps.vault,
        };
        Ok(
            VaultDeposit {
                transfer: TransferChecked {
                    from: self.user_ata.key,
                    mint: self.mint_usdc.key,
                    to: self.vault_ata.key,
                    authority: self.user,
                    amount,
                    decimals: self.mint_usdc.decimals,
                },
                event: VaultCreated {
                    owner: self.user,
                    total_amount: amount,
                    periods,
                    interval_seconds,
                    staked_at: curr_time,
                },
            },
        )
    }
}

} // verus!
