use crate::error::VaultError;
use crate::instructions::swap::{jupiter_address, proceeds, Swap, SwapExecuted};
use crate::instructions::vault_init::{VaultCreated, VaultDeposit, VaultInit, VaultInitBumps};
use crate::instructions::withdraw::{CloseAccount, VaultPayout, Withdraw, WithdrawEvent};
use crate::seeds::vault_seeds;
use crate::state::vault_state::VaultState;
use vstd::prelude::*;

verus! {

/// Creates a vault for `accounts.user` at time `curr_time`: a deposit of
/// `amount`, to be released in `periods` slices, one every
/// `interval_seconds`.
pub fn vault_initialize(
    accounts: &mut VaultInit,
    bumps: &VaultInitBumps,
    amount: u64,
    periods: u16,
    interval_seconds: u64,
    curr_time: i64,
) -> (r: Result<VaultDeposit, VaultError>)
    ensures
        match r {
            Ok(deposit) => {
                &&& VaultInit::violation(amount, periods, interval_seconds, curr_time) is None
                &&& *final(accounts) == (VaultInit {
                    vault: VaultState::created(
                        old(accounts).user,
                        amount,
                        periods,
                        interval_seconds,
                        curr_time,
                        bumps.vault,
                    ),
                    ..*old(accounts)
                })
                &&& deposit == (VaultDeposit {
                    transfer: old(accounts).deposit_transfer(amount),
                    event: VaultCreated {
                        owner: old(accounts).user,
                        total_amount: amount,
                        periods,
                        interval_seconds,
                        staked_at: curr_time,
                    },
                })
            },
            Err(e) => {
                &&& VaultInit::violation(amount, periods, interval_seconds, curr_time) == Some(e)
                &&& *final(accounts) == *old(accounts)
            },
        },
{
    accounts.deposit_and_init_dca_vault(amount, periods, interval_seconds, bumps, curr_time)
}

/// Executes one slice of the vault in `accounts` at time `curr_time`, once
/// the service has run and left the owner with `final_sol_balance` of the
/// bought token.
pub fn swap(accounts: &mut Swap, usdc_amount: u64, curr_time: i64, final_sol_balance: u64) -> (r:
    Result<SwapExecuted, VaultError>)
    ensures
        match r {
            Ok(event) => {
                &&& old(accounts).outcome(
                    usdc_amount,
                    curr_time,
                    final_sol_balance,
                    jupiter_address(),
                ) == Ok::<VaultState, VaultError>(final(accounts).vault)
                &&& *final(accounts) == (Swap { vault: final(accounts).vault, ..*old(accounts) })
                &&& event == (SwapExecuted {
                    owner: old(accounts).user,
                    usdc_amount,
                    sol_amount: proceeds(old(accounts).user_sol_ata.amount, final_sol_balance),
                    periods_completed: final(accounts).vault.periods_completed,
                    next_swap_time: final(accounts).vault.next_swap_time,
                    timestamp: curr_time,
                })
            },
            Err(e) => {
                &&& old(accounts).outcome(
                    usdc_amount,
                    curr_time,
                    final_sol_balance,
                    jupiter_address(),
                ) == Err::<VaultState, VaultError>(e)
                &&& *final(accounts) == *old(accounts)
            },
        },
{
    accounts.execute_swap(usdc_amount, curr_time, final_sol_balance)
}

/// Closes the vault in `accounts` at time `curr_time`.
pub fn withdraw(accounts: &Withdraw, curr_time: i64) -> (r: Result<VaultPayout, VaultError>)
    ensures
        match r {
            Ok(payout) => {
                &&& accounts.violation() is None
                &&& 0 <= accounts.fee() <= accounts.vault_ata.amount
                &&& payout.transfer == accounts.payout_transfer()
                &&& payout.signer_seeds.deep_view() == vault_seeds(
                    accounts.user,
                    accounts.vault.bump,
                )
                &&& payout.close == (CloseAccount {
                    account: accounts.vault_key,
                    destination: accounts.user,
                })
                &&& payout.event == (WithdrawEvent {
                    owner: accounts.user,
                    amount_withdrawn: (accounts.vault_ata.amount - accounts.fee()) as u64,
                    fee_charged: accounts.fee() as u64,
                    is_early_exit: accounts.is_early_exit(),
                    timestamp: curr_time,
                })
            },
            Err(e) => accounts.violation() == Some(e),
        },
{
    accounts.withdraw(curr_time)
}

} // verus!
