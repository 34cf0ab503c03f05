use crate::error::VaultError;
use crate::instruction::{AccountInfo, AccountMeta, Instruction};
use crate::pubkey::{base58_address, parse_pubkey, Pubkey};
use crate::seeds::{vault_seeds, vault_signer_seeds};
use crate::state::vault_state::VaultState;
use crate::token::TokenAccount;
use vstd::prelude::*;

verus! {

/// The address of the swap service, in base58.
pub const JUPITER_PROGRAM_ID: &'static str = "JUP6LkbZbjS1jKKwapdHNy74zcZ3tLUZoi5QNyVTaV4";

/// The address of the swap service, where `JUPITER_PROGRAM_ID` denotes one.
pub open spec fn jupiter_address() -> Option<Seq<u8>> {
    base58_address(JUPITER_PROGRAM_ID@)
}

/// The address of the only program that a swap may invoke.
pub fn jupiter_program_id() -> (id: Option<Pubkey>)
    ensures
        match id {
            Some(key) => jupiter_address() == Some(key@),
            None => jupiter_address() is None,
        },
{
    parse_pubkey(JUPITER_PROGRAM_ID)
}

/// The accounts of a swap, as far as the operation reads or writes them.
#[derive(Clone, Copy, Debug, PartialEq, Eq)]
pub struct Swap {
    /// The authenticated caller.
    pub user: Pubkey,
    /// The vault's record.
    pub vault: VaultState,
    /// The address of the vault's record, which signs for its custody.
    pub vault_key: Pubkey,
    /// The vault's custody of the deposited token.
    pub vault_usdc_ata: TokenAccount,
    /// The owner's account of the bought token, as it is before the service
    /// is invoked.
    pub user_sol_ata: TokenAccount,
    /// The program that the caller asks to invoke.
    pub jupiter_program: Pubkey,
}

/// Announces an executed slice.
#[derive(Clone, Copy, Debug, PartialEq, Eq)]
pub struct SwapExecuted {
    pub owner: Pubkey,
    pub usdc_amount: u64,
    pub sol_amount: u64,
    pub periods_completed: u16,
    pub next_swap_time: i64,
    pub timestamp: i64,
}

/// What an admitted swap asks of its host: invoke `instruction`, signed for
/// the vault with `signer_seeds`, and read the owner's balance of the bought
/// token again.
#[derive(Clone, Debug, PartialEq, Eq)]
pub struct JupiterCall {
    pub instruction: Instruction,
    pub signer_seeds: Vec<Vec<u8>>,
}

/// What a swap has bought, judged by the owner's balance before and after:
/// the increase, and nothing where the balance did not increase.
pub open spec fn proceeds(initial_balance: u64, final_balance: u64) -> u64 {
    if final_balance >= initial_balance {
        (final_balance - initial_balance) as u64
    } else {
        0
    }
}

/// Computes `proceeds`.
pub fn sol_received(initial_balance: u64, final_balance: u64) -> (received: u64)
    ensures
        received == proceeds(initial_balance, final_balance),
{
    match final_balance.checked_sub(initial_balance) {
        Some(increase) => increase,
        None => 0,
    }
}

/// The view of an address that may be missing.
pub open spec fn address_view(key: Option<Pubkey>) -> Option<Seq<u8>> {
    match key {
        Some(k) => Some(k@),
        None => None,
    }
}

impl Swap {
    /// The first reason, if any, for which a swap of `usdc_amount` at time
    /// `curr_time` is refused, where `service` is the address of the swap
    /// service.
    pub open spec fn violation(self, usdc_amount: u64, curr_time: i64, service: Option<Seq<u8>>)
        -> Option<VaultError> {
        if self.vault.owner != self.user {
            Some(VaultError::Unauthorized)
        } else if curr_time < self.vault.next_swap_time {
            Some(VaultError::SwapNotDue)
        } else if self.vault.complete() {
            Some(VaultError::DcaPlanComplete)
        } else if usdc_amount == 0 {
            Some(VaultError::InvalidAmount)
        } else if self.vault_usdc_ata.amount < usdc_amount {
            Some(VaultError::InsufficientBalance)
        } else if usdc_amount != self.vault.total_amount / (self.vault.periods as u64) {
            Some(VaultError::InvalidSliceAmount)
        } else if service != Some(self.jupiter_program@) {
            Some(VaultError::InvalidJupiterAccounts)
        } else {
            None
        }
    }

    /// Whether a swap of `usdc_amount` at time `curr_time` passes the checks
    /// that come before the one on the size of the slice: it comes from the
    /// owner, not before the deadline, for a plan that is not complete, with
    /// a positive amount that custody holds.
    pub open spec fn passes_earlier_checks(self, usdc_amount: u64, curr_time: i64) -> bool {
        &&& self.vault.owner == self.user
        &&& curr_time >= self.vault.next_swap_time
        &&& !self.vault.complete()
        &&& usdc_amount > 0
        &&& self.vault_usdc_ata.amount >= usdc_amount
    }

    /// What a swap of `usdc_amount` at time `curr_time` makes of the record,
    /// where the service leaves the owner with `final_sol_balance` of the
    /// bought token.
    pub open spec fn outcome(
        self,
        usdc_amount: u64,
        curr_time: i64,
        final_sol_balance: u64,
        service: Option<Seq<u8>>,
    ) -> Result<VaultState, VaultError> {
        let received = proceeds(self.user_sol_ata.amount, final_sol_balance);
        match self.violation(usdc_amount, curr_time, service) {
            Some(e) => Err(e),
            None => if self.vault.swap_overflows(usdc_amount, received) {
                Err(VaultError::ArithmeticOverflow)
            } else {
                Ok(self.vault.after_swap(usdc_amount, received))
            },
        }
    }

    /// How the service may use `account`: as it is marked writable, and as a
    /// signer exactly where it is the vault itself.
    pub open spec fn account_meta(self, account: AccountInfo) -> AccountMeta {
        AccountMeta {
            pubkey: account.key,
            is_signer: account.key == self.vault_key,
            is_writable: account.is_writable,
        }
    }

    /// Runs the checks of a swap in their order: the caller owns the vault,
    /// the deadline has passed, the plan is not complete, the amount is
    /// positive, custody holds it, it is exactly one slice, and the program
    /// to invoke is `service`.
    pub fn check_swap(&self, usdc_amount: u64, curr_time: i64, service: Option<Pubkey>) -> (r:
        Result<(), VaultError>)
        ensures
            r == match self.violation(usdc_amount, curr_time, address_view(service)) {
                Some(e) => Err::<(), VaultError>(e),
                None => Ok::<(), VaultError>(()),
            },
    {
        if self.vault.owner != self.user {
            return Err(VaultError::Unauthorized);
        }
        if curr_time < self.vault.next_swap_time {
            return Err(VaultError::SwapNotDue);
        }
        if self.vault.periods_completed >= self.vault.periods {
            return Err(VaultError::DcaPlanComplete);
        }
        if usdc_amount == 0 {
            return Err(VaultError::InvalidAmount);
        }
        if self.vault_usdc_ata.amount < usdc_amount {
            return Err(VaultError::InsufficientBalance);
        }
        let slice_amount = self.vault.total_amount / self.vault.periods as u64;
        if usdc_amount != slice_amount {
            return Err(VaultError::InvalidSliceAmount);
        }
        let known = match service {
            Some(key) => {
                proof {
                    Pubkey::lemma_equal_by_view(key, self.jupiter_program);
                }
                key == self.jupiter_program
            },
            None => false,
        };
        if !known {
            return Err(VaultError::InvalidJupiterAccounts);
        }
        Ok(())
    }

    /// Builds the call of the service: the caller's payload, addressed to
    /// the program the caller named, over `remaining_accounts` in their
    /// order.
    pub fn jupiter_instruction(
        &self,
        jupiter_swap_ix: Vec<u8>,
        remaining_accounts: &[AccountInfo],
    ) -> (instruction: Instruction)
        ensures
            instruction.program_id == self.jupiter_program,
            instruction.data@ == jupiter_swap_ix@,
            instruction.accounts@ == remaining_accounts@.map_values(
                |account: AccountInfo| self.account_meta(account),
            ),
    {
        let mut accounts: Vec<AccountMeta> = Vec::new();
        let mut i: usize = 0;
        while i < remaining_accounts.len()
            invariant
                i <= remaining_accounts@.len(),
                accounts@.len() == i,
                forall|j: int|
                    0 <= j < i ==> accounts@[j] == self.account_meta(
                        #[trigger] remaining_accounts@[j],
                    ),
            decreases remaining_accounts@.len() - i,
        {
            let account = &remaining_accounts[i];
            accounts.push(
                AccountMeta {
                    pubkey: account.key,
                    is_signer: account.key == self.vault_key,
                    is_writable: account.is_writable,
                },
            );
            i += 1;
        }
        assert(accounts@ =~= remaining_accounts@.map_values(
            |account: AccountInfo| self.account_meta(account),
        ));
        Instruction { program_id: self.jupiter_program, accounts, data: jupiter_swap_ix }
    }

    /// Admits or refuses a swap of `usdc_amount` at time `curr_time`, and
    /// for an admitted one builds the call of the service. The record is
    /// not touched: it changes only once the service has run.
    pub fn prepare_swap(
        &self,
        usdc_amount: u64,
        jupiter_swap_ix: Vec<u8>,
        remaining_accounts: &[AccountInfo],
        curr_time: i64,
    ) -> (r: Result<JupiterCall, VaultError>)
        ensures
            match r {
                Ok(call) => {
                    &&& self.violation(usdc_amount, curr_time, jupiter_address()) is None
                    &&& call.instruction.program_id == self.jupiter_program
                    &&& call.instruction.data@ == jupiter_swap_ix@
                    &&& call.instruction.accounts@ == remaining_accounts@.map_values(
                        |account: AccountInfo| self.account_meta(account),
                    )
                    &&& call.signer_seeds.deep_view() == vault_seeds(self.user, self.vault.bump)
                },
                Err(e) => self.violation(usdc_amount, curr_time, jupiter_address()) == Some(e),
            },
    {
        let service = jupiter_program_id();
        match self.check_swap(usdc_amount, curr_time, service) {
            Ok(()) => {},
            Err(e) => return Err(e),
        }
        Ok(
            JupiterCall {
                instruction: self.jupiter_instruction(jupiter_swap_ix, remaining_accounts),
                signer_seeds: vault_signer_seeds(&self.user, self.vault.bump),
            },
        )
    }

    /// Records an executed slice of `usdc_amount` after which the owner
    /// holds `final_sol_balance` of the bought token, and says what to
    /// announce. Nothing is checked but the arithmetic: where a field would
    /// leave its range, the record stays as it is.
    pub fn settle_swap(&mut self, usdc_amount: u64, curr_time: i64, final_sol_balance: u64) -> (r:
        Result<SwapExecuted, VaultError>)
        ensures
            final(self).user == old(self).user,
            final(self).vault_key == old(self).vault_key,
            final(self).vault_usdc_ata == old(self).vault_usdc_ata,
            final(self).user_sol_ata == old(self).user_sol_ata,
            final(self).jupiter_program == old(self).jupiter_program,
            match r {
                Ok(event) => {
                    let received = proceeds(old(self).user_sol_ata.amount, final_sol_balance);
                    &&& !old(self).vault.swap_overflows(usdc_amount, received)
                    &&& final(self).vault == old(self).vault.after_swap(usdc_amount, received)
                    &&& event == (SwapExecuted {
                        owner: old(self).user,
                        usdc_amount,
                        sol_amount: received,
                        periods_completed: final(self).vault.periods_completed,
                        next_swap_time: final(self).vault.next_swap_time,
                        timestamp: curr_time,
                    })
                },
                Err(e) => {
                    &&& e == VaultError::ArithmeticOverflow
                    &&& old(self).vault.swap_overflows(
                        usdc_amount,
                        proceeds(old(self).user_sol_ata.amount, final_sol_balance),
                    )
                    &&& final(self).vault == old(self).vault
                },
            },
    {
        let received = sol_received(self.user_sol_ata.amount, final_sol_balance);
        match self.vault.record_swap(usdc_amount, received) {
            Ok(()) => {},
            Err(e) => return Err(e),
        }
        Ok(
            SwapExecuted {
                owner: self.user,
                usdc_amount,
                sol_amount: received,
                periods_completed: self.vault.periods_completed,
                next_swap_time: self.vault.next_swap_time,
                timestamp: curr_time,
            },
        )
    }

    /// Executes one slice at time `curr_time`, once the service has run and
    /// left the owner with `final_sol_balance` of the bought token: runs the
    /// checks of a swap again, then records the slice.
    ///
    /// A refusal, by a check or for a field that would leave its range,
    /// leaves everything unchanged.
    pub fn execute_swap(&mut self, usdc_amount: u64, curr_time: i64, final_sol_balance: u64) -> (r:
        Result<SwapExecuted, VaultError>)
        ensures
            final(self).user == old(self).user,
            final(self).vault_key == old(self).vault_key,
            final(self).vault_usdc_ata == old(self).vault_usdc_ata,
            final(self).user_sol_ata == old(self).user_sol_ata,
            final(self).jupiter_program == old(self).jupiter_program,
            match r {
                Ok(event) => {
                    &&& old(self).outcome(
                        usdc_amount,
                        curr_time,
                        final_sol_balance,
                        jupiter_address(),
                    ) == Ok::<VaultState, VaultError>(final(self).vault)
                    &&& event == (SwapExecuted {
                        owner: old(self).user,
                        usdc_amount,
                        sol_amount: proceeds(old(self).user_sol_ata.amount, final_sol_balance),
                        periods_completed: final(self).vault.periods_completed,
                        next_swap_time: final(self).vault.next_swap_time,
                        timestamp: curr_time,
                    })
                    &&& final(self).vault.curr_balance == old(self).vault.curr_balance
                        - usdc_amount
                    &&& final(self).vault.periods_completed == old(self).vault.periods_completed
                        + 1
                    &&& final(self).vault.next_swap_time == old(self).vault.next_swap_time + old(
                        self,
                    ).vault.interval_seconds
                    &&& final(self).vault.total_sol_received == old(self).vault.total_sol_received
                        + proceeds(old(self).user_sol_ata.amount, final_sol_balance)
                },
                Err(e) => {
                    &&& old(self).outcome(
                        usdc_amount,
                        curr_time,
                        final_sol_balance,
                        jupiter_address(),
                    ) == Err::<VaultState, VaultError>(e)
                    &&& final(self).vault == old(self).vault
                },
            },
            old(self).vault.owner == old(self).user && curr_time < old(self).vault.next_swap_time
                ==> r == Err::<SwapExecuted, VaultError>(VaultError::SwapNotDue),
            old(self).passes_earlier_checks(usdc_amount, curr_time) && usdc_amount != old(
                self,
            ).vault.total_amount / (old(self).vault.periods as u64) ==> r == Err::<
                SwapExecuted,
                VaultError,
            >(VaultError::InvalidSliceAmount),
            old(self).passes_earlier_checks(usdc_amount, curr_time) && usdc_amount == old(
                self,
            ).vault.total_amount / (old(self).vault.periods as u64) && jupiter_address() != Some(
                old(self).jupiter_program@,
            ) ==> r == Err::<SwapExecuted, VaultError>(VaultError::InvalidJupiterAccounts),
    {
        let service = jupiter_program_id();
        match self.check_swap(usdc_amount, curr_time, service) {
            Ok(()) => {},
            Err(e) => return Err(e),
        }
        self.settle_swap(usdc_amount, curr_time, final_sol_balance)
    }
}

} // verus!
