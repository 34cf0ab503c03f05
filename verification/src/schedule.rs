use crate::error::VaultError;
use crate::instructions::swap::{jupiter_address, proceeds, Swap};
use crate::instructions::vault_init::VaultInit;
use crate::instructions::withdraw::{Withdraw, BPS_DENOMINATOR, EARLY_EXIT_FEE_BPS};
use crate::pubkey::Pubkey;
use crate::state::vault_state::VaultState;
use vstd::arithmetic::div_mod::lemma_fundamental_div_mod;
use vstd::prelude::*;

verus! {

/// One submitted swap: the accounts it came with, its amount, its time, and
/// the balance of the bought token that the service left the owner with.
pub struct SwapAttempt {
    pub accounts: Swap,
    pub usdc_amount: u64,
    pub curr_time: i64,
    pub final_sol_balance: u64,
}

impl SwapAttempt {
    /// What this attempt makes of the record `vault`.
    pub open spec fn on(self, vault: VaultState) -> Result<VaultState, VaultError> {
        (Swap { vault, ..self.accounts }).outcome(
            self.usdc_amount,
            self.curr_time,
            self.final_sol_balance,
            jupiter_address(),
        )
    }
}

/// The record that `vault` has become once every attempt of `attempts` has
/// succeeded in turn, and `None` where one of them is refused.
pub open spec fn after_swaps(vault: VaultState, attempts: Seq<SwapAttempt>) -> Option<VaultState>
    decreases attempts.len(),
{
    if attempts.len() == 0 {
        Some(vault)
    } else {
        match after_swaps(vault, attempts.drop_last()) {
            Some(before) => match attempts.last().on(before) {
                Ok(after) => Some(after),
                Err(_) => None,
            },
            None => None,
        }
    }
}

/// Whether `later` is a record of the same plan as `earlier`: what creation
/// fixed has not changed.
pub open spec fn same_plan(earlier: VaultState, later: VaultState) -> bool {
    &&& later.owner == earlier.owner
    &&& later.total_amount == earlier.total_amount
    &&& later.periods == earlier.periods
    &&& later.interval_seconds == earlier.interval_seconds
    &&& later.staked_at == earlier.staked_at
    &&& later.bump == earlier.bump
}

/// A successful swap on a record that is on schedule gives a record of the
/// same plan that is on schedule again, with one more period done, the
/// deadline one interval later, a balance smaller by one slice and proceeds
/// that have not decreased, whatever the swap bought.
pub proof fn lemma_swap_keeps_schedule(attempt: SwapAttempt, before: VaultState, after: VaultState)
    requires
        before.on_schedule(),
        attempt.on(before) == Ok::<VaultState, VaultError>(after),
    ensures
        after.on_schedule(),
        same_plan(before, after),
        after.periods_completed == before.periods_completed + 1,
        after.next_swap_time == before.next_swap_time + before.interval_seconds,
        after.curr_balance == before.curr_balance - before.slice(),
        after.total_sol_received >= before.total_sol_received,
{
    let k = before.periods_completed as int;
    let s = before.slice();
    let d = before.interval_seconds as int;
    assert((k + 1) * s == k * s + s) by (nonlinear_arith);
    assert((k + 2) * d == (k + 1) * d + d) by (nonlinear_arith);
}

/// On a record that is on schedule, an admitted swap finds its slice in the
/// balance and room in the count of periods: it can only be refused for a
/// deadline or for proceeds that would leave their range.
pub proof fn lemma_admitted_swap_finds_its_slice(
    attempt: SwapAttempt,
    vault: VaultState,
    service: Option<Seq<u8>>,
)
    requires
        vault.on_schedule(),
        (Swap { vault, ..attempt.accounts }).violation(
            attempt.usdc_amount,
            attempt.curr_time,
            service,
        ) is None,
    ensures
        attempt.usdc_amount == vault.slice(),
        vault.curr_balance >= attempt.usdc_amount,
        vault.periods_completed < u16::MAX,
        (Swap { vault, ..attempt.accounts }).outcome(
            attempt.usdc_amount,
            attempt.curr_time,
            attempt.final_sol_balance,
            service,
        ) is Err <==> {
            ||| vault.next_swap_time + vault.interval_seconds > i64::MAX
            ||| vault.total_sol_received + proceeds(
                attempt.accounts.user_sol_ata.amount,
                attempt.final_sol_balance,
            ) > u64::MAX
        },
{
    let k = vault.periods_completed as int;
    let p = vault.periods as int;
    let s = vault.slice();
    let total = vault.total_amount as int;
    lemma_fundamental_div_mod(total, p);
    assert(p * s <= total) by (nonlinear_arith)
        requires
            total == p * s + total % p,
            0 <= total % p,
    ;
    assert((k + 1) * s <= p * s) by (nonlinear_arith)
        requires
            k + 1 <= p,
            0 <= s,
    ;
    assert((k + 1) * s == k * s + s) by (nonlinear_arith);
}

/// A run of successful swaps from a record that is on schedule ends in a
/// record of the same plan that is on schedule, with one more period done
/// for each swap of the run.
pub proof fn lemma_swaps_keep_schedule(
    vault: VaultState,
    attempts: Seq<SwapAttempt>,
    last: VaultState,
)
    requires
        vault.on_schedule(),
        after_swaps(vault, attempts) == Some(last),
    ensures
        last.on_schedule(),
        same_plan(vault, last),
        last.periods_completed == vault.periods_completed + attempts.len(),
        last.curr_balance <= vault.curr_balance,
        last.next_swap_time >= vault.next_swap_time,
        last.total_sol_received >= vault.total_sol_received,
    decreases attempts.len(),
{
    if attempts.len() > 0 {
        let before = after_swaps(vault, attempts.drop_last())->Some_0;
        lemma_swaps_keep_schedule(vault, attempts.drop_last(), before);
        lemma_swap_keeps_schedule(attempts.last(), before, last);
        assert(before.slice() >= 0) by (nonlinear_arith)
            requires
                before.slice() == before.total_amount as int / before.periods as int,
                before.periods > 0,
        ;
    }
}

/// A plan created with valid parameters has, after exactly as many
/// successful swaps as it has periods, completed all of them and released
/// all of its deposit but the remainder of the division into slices. Every
/// further swap is refused: with `DcaPlanComplete` where it comes from the
/// owner at or after the deadline, and otherwise by one of the two checks
/// that come first.
pub proof fn lemma_plan_completes(
    owner: Pubkey,
    amount: u64,
    periods: u16,
    interval_seconds: u64,
    curr_time: i64,
    bump: u8,
    attempts: Seq<SwapAttempt>,
    last: VaultState,
    further: SwapAttempt,
)
    requires
        VaultInit::violation(amount, periods, interval_seconds, curr_time) is None,
        after_swaps(
            VaultState::created(owner, amount, periods, interval_seconds, curr_time, bump),
            attempts,
        ) == Some(last),
        attempts.len() == periods,
    ensures
        last.periods_completed == periods,
        last.curr_balance == amount - periods * (amount as int / periods as int),
        last.curr_balance == amount as int % periods as int,
        further.on(last) is Err,
        further.accounts.user == owner && further.curr_time >= last.next_swap_time ==> further.on(
            last,
        ) == Err::<VaultState, VaultError>(VaultError::DcaPlanComplete),
{
    let created = VaultState::created(owner, amount, periods, interval_seconds, curr_time, bump);
    assert(created.on_schedule());
    lemma_swaps_keep_schedule(created, attempts, last);
    lemma_fundamental_div_mod(amount as int, periods as int);
}

/// Closing a vault before its first swap is an early exit: fifty basis
/// points of what is in custody, rounded down, stay behind, and the rest is
/// paid out.
pub proof fn lemma_fee_before_any_swap(
    accounts: Withdraw,
    amount: u64,
    periods: u16,
    interval_seconds: u64,
    curr_time: i64,
    bump: u8,
)
    requires
        VaultInit::violation(amount, periods, interval_seconds, curr_time) is None,
        accounts.vault == VaultState::created(
            accounts.user,
            amount,
            periods,
            interval_seconds,
            curr_time,
            bump,
        ),
    ensures
        accounts.is_early_exit(),
        accounts.fee() == accounts.vault_ata.amount * 50 / 10000,
        accounts.payout_transfer().amount == accounts.vault_ata.amount - accounts.fee(),
        accounts.vault_ata.amount > 0 ==> accounts.violation() is None,
{
    assert(EARLY_EXIT_FEE_BPS == 50 && BPS_DENOMINATOR == 10000);
}

/// Closing a vault whose plan has run through all of its periods costs
/// nothing: everything in custody is paid out.
pub proof fn lemma_no_fee_after_completion(
    accounts: Withdraw,
    amount: u64,
    periods: u16,
    interval_seconds: u64,
    curr_time: i64,
    bump: u8,
    attempts: Seq<SwapAttempt>,
)
    requires
        VaultInit::violation(amount, periods, interval_seconds, curr_time) is None,
        after_swaps(
            VaultState::created(
                accounts.user,
                amount,
                periods,
                interval_seconds,
                curr_time,
                bump,
            ),
            attempts,
        ) == Some(accounts.vault),
        attempts.len() == periods,
    ensures
        !accounts.is_early_exit(),
        accounts.fee() == 0,
        accounts.payout_transfer().amount == accounts.vault_ata.amount,
        accounts.vault_ata.amount > 0 ==> accounts.violation() is None,
{
    let created = VaultState::created(
        accounts.user,
        amount,
        periods,
        interval_seconds,
        curr_time,
        bump,
    );
    assert(created.on_schedule());
    lemma_swaps_keep_schedule(created, attempts, accounts.vault);
}

/// No plan takes more successful swaps than it has periods.
pub proof fn lemma_no_swap_beyond_plan(
    vault: VaultState,
    attempts: Seq<SwapAttempt>,
    last: VaultState,
)
    requires
        vault.on_schedule(),
        after_swaps(vault, attempts) == Some(last),
    ensures
        vault.periods_completed + attempts.len() <= vault.periods,
{
    lemma_swaps_keep_schedule(vault, attempts, last);
}

} // verus!
