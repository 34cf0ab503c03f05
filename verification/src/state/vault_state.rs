use crate::error::VaultError;
use crate::pubkey::Pubkey;
use vstd::prelude::*;

verus! {

/// The record of one owner's plan: a deposit released in equal slices, one
/// per interval.
#[derive(Clone, Copy, Debug, PartialEq, Eq)]
pub struct VaultState {
    /// Who controls the vault.
    pub owner: Pubkey,
    /// The deposit. Fixed at creation.
    pub total_amount: u64,
    /// How many slices the plan has. Fixed at creation.
    pub periods: u16,
    /// Seconds between two slices. Fixed at creation.
    pub interval_seconds: u64,
    /// When the vault was created.
    pub staked_at: i64,
    /// What the plan still has to release.
    pub curr_balance: u64,
    /// How many slices have been executed.
    pub periods_completed: u16,
    /// The earliest time at which the next slice may execute.
    pub next_swap_time: i64,
    /// Everything the executed slices have bought for the owner.
    pub total_sol_received: u64,
    /// The nonce from which the vault's address is derived.
    pub bump: u8,
}

impl VaultState {
    /// The quantity that every slice moves.
    pub open spec fn slice(self) -> int {
        self.total_amount as int / self.periods as int
    }

    /// The record that creation writes.
    pub open spec fn created(
        owner: Pubkey,
        amount: u64,
        periods: u16,
        interval_seconds: u64,
        curr_time: i64,
        bump: u8,
    ) -> VaultState {
        VaultState {
            owner,
            total_amount: amount,
            periods,
            interval_seconds,
            staked_at: curr_time,
            curr_balance: amount,
            periods_completed: 0,
            next_swap_time: (curr_time + interval_seconds) as i64,
            total_sol_received: 0,
            bump,
        }
    }

    /// Whether some field would leave its range if a slice of `usdc_amount`
    /// that bought `sol_received` were recorded.
    pub open spec fn swap_overflows(self, usdc_amount: u64, sol_received: u64) -> bool {
        ||| self.curr_balance < usdc_amount
        ||| self.periods_completed + 1 > u16::MAX
        ||| self.next_swap_time + self.interval_seconds > i64::MAX
        ||| self.total_sol_received + sol_received > u64::MAX
    }

    /// The record after a slice of `usdc_amount` that bought `sol_received`
    /// has been recorded.
    pub open spec fn after_swap(self, usdc_amount: u64, sol_received: u64) -> VaultState {
        VaultState {
            curr_balance: (self.curr_balance - usdc_amount) as u64,
            periods_completed: (self.periods_completed + 1) as u16,
            next_swap_time: (self.next_swap_time + self.interval_seconds) as i64,
            total_sol_received: (self.total_sol_received + sol_received) as u64,
            ..self
        }
    }

    /// The plan's invariant: the parameters are positive, no more slices are
    /// done than the plan has, every executed slice has taken exactly one
    /// slice from the balance and moved the deadline one interval on.
    pub open spec fn on_schedule(self) -> bool {
        &&& self.total_amount > 0
        &&& self.periods > 0
        &&& self.interval_seconds > 0
        &&& self.periods_completed <= self.periods
        &&& self.curr_balance == self.total_amount - self.periods_completed * self.slice()
        &&& self.next_swap_time == self.staked_at + (self.periods_completed + 1)
            * self.interval_seconds
    }

    /// Whether every slice of the plan has been executed.
    pub open spec fn complete(self) -> bool {
        self.periods_completed >= self.periods
    }

    /// Records one executed slice: takes `usdc_amount` from the balance,
    /// counts the period, moves the deadline one interval on and adds
    /// `sol_received` to the proceeds. Where a field would leave its range,
    /// nothing is changed.
    pub fn record_swap(&mut self, usdc_amount: u64, sol_received: u64) -> (r: Result<
        (),
        VaultError,
    >)
        ensures
            old(self).swap_overflows(usdc_amount, sol_received) ==> r == Err::<(), VaultError>(
                VaultError::ArithmeticOverflow,
            ) && *final(self) == *old(self),
            !old(self).swap_overflows(usdc_amount, sol_received) ==> r == Ok::<(), VaultError>(())
                && *final(self) == old(self).after_swap(usdc_amount, sol_received),
    {
        let curr_balance = match self.curr_balance.checked_sub(usdc_amount) {
            Some(v) => v,
            None => return Err(VaultError::ArithmeticOverflow),
        };
        let periods_completed = match self.periods_completed.checked_add(1) {
            Some(v) => v,
            None => return Err(VaultError::ArithmeticOverflow),
        };
        let next_swap_time = self.next_swap_time as i128 + self.interval_seconds as i128;
        if next_swap_time > i64::MAX as i128 {
            return Err(VaultError::ArithmeticOverflow);
        }
        let total_sol_received = match self.total_sol_received.checked_add(sol_received) {
            Some(v) => v,
            None => return Err(VaultError::ArithmeticOverflow),
        };
        self.curr_balance = curr_balance;
        self.periods_completed = periods_completed;
        self.next_swap_time = next_swap_time as i64;
        self.total_sol_received = total_sol_received;
        Ok(())
    }
}

} // verus!
