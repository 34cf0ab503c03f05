use dca_vault::{
    jupiter_program_id, sol_received, vault_signer_seeds, AccountInfo, AccountMeta, Pubkey, Swap,
    SwapExecuted, TokenAccount, VaultError, VaultState, JUPITER_PROGRAM_ID, VAULT_SEED,
};

const JUPITER: [u8; 32] = [
    4, 121, 213, 91, 242, 49, 192, 110, 238, 116, 197, 110, 206, 104, 21, 7, 253, 177, 178, 222,
    163, 244, 142, 81, 2, 177, 205, 162, 86, 188, 19, 143,
];

fn swap_key(tag: u8) -> Pubkey {
    Pubkey::new_from_array([tag; 32])
}

/// A vault of 1000 in 10 slices of 100, one a day, created at time 0, with
/// its first slice due.
fn due_swap() -> Swap {
    Swap {
        user: swap_key(1),
        vault: VaultState {
            owner: swap_key(1),
            total_amount: 1000,
            periods: 10,
            interval_seconds: 86400,
            staked_at: 0,
            curr_balance: 1000,
            periods_completed: 0,
            next_swap_time: 86400,
            total_sol_received: 0,
            bump: 254,
        },
        vault_key: swap_key(2),
        vault_usdc_ata: TokenAccount { key: swap_key(3), amount: 1000 },
        user_sol_ata: TokenAccount { key: swap_key(4), amount: 50 },
        jupiter_program: Pubkey::new_from_array(JUPITER),
    }
}

#[test]
fn the_service_address_is_the_decoded_constant() {
    assert_eq!(JUPITER_PROGRAM_ID, "JUP6LkbZbjS1jKKwapdHNy74zcZ3tLUZoi5QNyVTaV4");
    assert_eq!(jupiter_program_id(), Some(Pubkey::new_from_array(JUPITER)));
    assert_eq!(jupiter_program_id().unwrap().to_bytes(), JUPITER);
}

#[test]
fn a_due_swap_of_one_slice_is_executed() {
    let mut swap = due_swap();
    let event = swap.execute_swap(100, 86400, 75).unwrap();
    assert_eq!(
        event,
        SwapExecuted {
            owner: swap_key(1),
            usdc_amount: 100,
            sol_amount: 25,
            periods_completed: 1,
            next_swap_time: 172800,
            timestamp: 86400,
        }
    );
    assert_eq!(
        swap,
        Swap {
            vault: VaultState {
                curr_balance: 900,
                periods_completed: 1,
                next_swap_time: 172800,
                total_sol_received: 25,
                ..due_swap().vault
            },
            ..due_swap()
        }
    );
}

#[test]
fn a_swap_moves_the_deadline_and_the_count_whatever_it_bought() {
    for final_balance in [0u64, 49, 50, 51, u64::MAX] {
        let mut swap = due_swap();
        let event = swap.execute_swap(100, 90000, final_balance).unwrap();
        assert_eq!(swap.vault.next_swap_time, 86400 + 86400);
        assert_eq!(swap.vault.periods_completed, 1);
        assert_eq!(swap.vault.curr_balance, 900);
        assert_eq!(event.timestamp, 90000);
        assert_eq!(event.sol_amount, final_balance.saturating_sub(50));
        assert_eq!(swap.vault.total_sol_received, final_balance.saturating_sub(50));
    }
}

#[test]
fn a_lower_balance_after_the_service_counts_as_nothing_bought() {
    assert_eq!(sol_received(50, 75), 25);
    assert_eq!(sol_received(50, 50), 0);
    assert_eq!(sol_received(50, 49), 0);
    assert_eq!(sol_received(u64::MAX, 0), 0);
    assert_eq!(sol_received(0, u64::MAX), u64::MAX);
}

#[test]
fn a_stranger_is_unauthorized() {
    let mut swap = Swap { user: swap_key(9), ..due_swap() };
    let before = swap;
    assert_eq!(swap.execute_swap(100, 86400, 75), Err(VaultError::Unauthorized));
    assert_eq!(swap, before);
    // Authorization comes first, whatever else is wrong.
    assert_eq!(swap.execute_swap(0, 0, 75), Err(VaultError::Unauthorized));
}

#[test]
fn a_swap_before_the_deadline_is_not_due() {
    let mut swap = due_swap();
    let before = swap;
    assert_eq!(swap.execute_swap(100, 86399, 75), Err(VaultError::SwapNotDue));
    assert_eq!(swap.execute_swap(100, 0, 75), Err(VaultError::SwapNotDue));
    assert_eq!(swap.execute_swap(100, i64::MIN, 75), Err(VaultError::SwapNotDue));
    // The deadline is checked before the amount.
    assert_eq!(swap.execute_swap(0, 86399, 75), Err(VaultError::SwapNotDue));
    assert_eq!(swap.execute_swap(7, 86399, 75), Err(VaultError::SwapNotDue));
    assert_eq!(swap, before);
    assert_eq!(
        swap.prepare_swap(100, vec![1, 2, 3], &[], 86399),
        Err(VaultError::SwapNotDue)
    );
}

#[test]
fn a_complete_plan_takes_no_swap() {
    let mut swap = due_swap();
    swap.vault.periods_completed = 10;
    swap.vault.curr_balance = 0;
    let before = swap;
    assert_eq!(swap.execute_swap(100, 86400, 75), Err(VaultError::DcaPlanComplete));
    assert_eq!(swap.execute_swap(0, 86400, 75), Err(VaultError::DcaPlanComplete));
    assert_eq!(swap, before);
}

#[test]
fn a_zero_amount_is_invalid() {
    let mut swap = due_swap();
    let before = swap;
    assert_eq!(swap.execute_swap(0, 86400, 75), Err(VaultError::InvalidAmount));
    assert_eq!(swap, before);
}

#[test]
fn an_amount_beyond_custody_is_insufficient() {
    let mut swap = due_swap();
    swap.vault_usdc_ata.amount = 99;
    let before = swap;
    assert_eq!(swap.execute_swap(100, 86400, 75), Err(VaultError::InsufficientBalance));
    // Custody is checked before the size of the slice.
    assert_eq!(swap.execute_swap(500, 86400, 75), Err(VaultError::InsufficientBalance));
    assert_eq!(swap, before);
}

#[test]
fn an_amount_other_than_one_slice_is_refused() {
    let mut swap = due_swap();
    let before = swap;
    assert_eq!(swap.execute_swap(99, 86400, 75), Err(VaultError::InvalidSliceAmount));
    assert_eq!(swap.execute_swap(101, 86400, 75), Err(VaultError::InvalidSliceAmount));
    assert_eq!(swap.execute_swap(1000, 86400, 75), Err(VaultError::InvalidSliceAmount));
    assert_eq!(swap.execute_swap(1, 86400, 75), Err(VaultError::InvalidSliceAmount));
    assert_eq!(swap, before);
    assert_eq!(swap.prepare_swap(99, vec![], &[], 86400), Err(VaultError::InvalidSliceAmount));
}

#[test]
fn the_slice_is_the_deposit_divided_rounding_down() {
    let mut swap = due_swap();
    swap.vault.total_amount = 1009;
    swap.vault.curr_balance = 1009;
    swap.vault_usdc_ata.amount = 1009;
    assert_eq!(swap.execute_swap(101, 86400, 75), Err(VaultError::InvalidSliceAmount));
    swap.execute_swap(100, 86400, 75).unwrap();
    assert_eq!(swap.vault.curr_balance, 909);
}

#[test]
fn another_program_than_the_service_is_refused() {
    let mut swap = Swap { jupiter_program: swap_key(7), ..due_swap() };
    let before = swap;
    assert_eq!(swap.execute_swap(100, 86400, 75), Err(VaultError::InvalidJupiterAccounts));
    assert_eq!(swap, before);
    assert_eq!(
        swap.prepare_swap(100, vec![1], &[], 86400),
        Err(VaultError::InvalidJupiterAccounts)
    );
    let mut almost = JUPITER;
    almost[31] ^= 1;
    let mut swap = Swap { jupiter_program: Pubkey::new_from_array(almost), ..due_swap() };
    assert_eq!(swap.execute_swap(100, 86400, 75), Err(VaultError::InvalidJupiterAccounts));
    // The program is checked last.
    assert_eq!(swap.execute_swap(99, 86400, 75), Err(VaultError::InvalidSliceAmount));
}

#[test]
fn the_checks_take_the_service_address_as_given() {
    let swap = due_swap();
    assert_eq!(swap.check_swap(100, 86400, Some(Pubkey::new_from_array(JUPITER))), Ok(()));
    assert_eq!(
        swap.check_swap(100, 86400, Some(swap_key(3))),
        Err(VaultError::InvalidJupiterAccounts)
    );
    assert_eq!(swap.check_swap(100, 86400, None), Err(VaultError::InvalidJupiterAccounts));
    assert_eq!(swap.check_swap(100, 86399, None), Err(VaultError::SwapNotDue));
    let other = Swap { jupiter_program: swap_key(3), ..due_swap() };
    assert_eq!(other.check_swap(100, 86400, Some(swap_key(3))), Ok(()));
}

#[test]
fn overflowing_proceeds_are_refused_and_change_nothing() {
    let mut swap = due_swap();
    swap.vault.total_sol_received = u64::MAX - 24;
    let before = swap;
    assert_eq!(swap.execute_swap(100, 86400, 75), Err(VaultError::ArithmeticOverflow));
    assert_eq!(swap, before);
    swap.execute_swap(100, 86400, 74).unwrap();
    assert_eq!(swap.vault.total_sol_received, u64::MAX);
}

#[test]
fn an_overflowing_deadline_is_refused_and_changes_nothing() {
    let mut swap = due_swap();
    swap.vault.next_swap_time = i64::MAX - 86399;
    let before = swap;
    assert_eq!(swap.execute_swap(100, i64::MAX, 75), Err(VaultError::ArithmeticOverflow));
    assert_eq!(swap, before);

    let mut swap = due_swap();
    swap.vault.interval_seconds = u64::MAX;
    let before = swap;
    assert_eq!(swap.execute_swap(100, 86400, 75), Err(VaultError::ArithmeticOverflow));
    assert_eq!(swap, before);
}

#[test]
fn a_record_with_less_than_a_slice_left_is_refused() {
    let mut swap = due_swap();
    swap.vault.curr_balance = 99;
    let before = swap;
    assert_eq!(swap.execute_swap(100, 86400, 75), Err(VaultError::ArithmeticOverflow));
    assert_eq!(swap, before);
}

#[test]
fn recording_checks_nothing_but_the_arithmetic() {
    let mut vault = due_swap().vault;
    assert_eq!(vault.record_swap(250, 4), Ok(()));
    assert_eq!(vault.curr_balance, 750);
    assert_eq!(vault.periods_completed, 1);
    assert_eq!(vault.next_swap_time, 172800);
    assert_eq!(vault.total_sol_received, 4);

    let mut vault = due_swap().vault;
    vault.periods_completed = u16::MAX;
    let before = vault;
    assert_eq!(vault.record_swap(100, 4), Err(VaultError::ArithmeticOverflow));
    assert_eq!(vault, before);

    let mut swap = due_swap();
    let event = swap.settle_swap(1000, -5, 49).unwrap();
    assert_eq!(event.sol_amount, 0);
    assert_eq!(event.timestamp, -5);
    assert_eq!(swap.vault.curr_balance, 0);
}

#[test]
fn the_call_passes_the_payload_and_marks_the_vault_as_signer() {
    let swap = due_swap();
    let remaining = [
        AccountInfo { key: swap_key(5), is_signer: true, is_writable: false },
        AccountInfo { key: swap_key(2), is_signer: false, is_writable: true },
        AccountInfo { key: swap_key(1), is_signer: true, is_writable: true },
        AccountInfo { key: swap_key(2), is_signer: false, is_writable: false },
    ];
    let call = swap.prepare_swap(100, vec![9, 8, 7], &remaining, 86400).unwrap();
    assert_eq!(call.instruction.program_id, Pubkey::new_from_array(JUPITER));
    assert_eq!(call.instruction.data, vec![9, 8, 7]);
    assert_eq!(
        call.instruction.accounts,
        vec![
            AccountMeta { pubkey: swap_key(5), is_signer: false, is_writable: false },
            AccountMeta { pubkey: swap_key(2), is_signer: true, is_writable: true },
            AccountMeta { pubkey: swap_key(1), is_signer: false, is_writable: true },
            AccountMeta { pubkey: swap_key(2), is_signer: true, is_writable: false },
        ]
    );
    assert_eq!(call.signer_seeds, vec![b"dcavault".to_vec(), vec![1u8; 32], vec![254u8]]);
    // Preparing changes nothing.
    assert_eq!(swap, due_swap());
}

#[test]
fn a_call_without_accounts_has_none() {
    let swap = due_swap();
    let instruction = swap.jupiter_instruction(vec![], &[]);
    assert_eq!(instruction.accounts, vec![]);
    assert_eq!(instruction.data, Vec::<u8>::new());
    assert_eq!(instruction.program_id, swap.jupiter_program);
}

#[test]
fn the_seeds_are_the_prefix_the_owner_and_the_nonce() {
    assert_eq!(&VAULT_SEED, b"dcavault");
    let mut bytes = [0u8; 32];
    for (i, b) in bytes.iter_mut().enumerate() {
        *b = i as u8;
    }
    let seeds = vault_signer_seeds(&Pubkey::new_from_array(bytes), 7);
    assert_eq!(seeds, vec![b"dcavault".to_vec(), bytes.to_vec(), vec![7u8]]);
}

#[test]
fn the_entry_point_executes_the_same_swap() {
    let mut direct = due_swap();
    let mut through = due_swap();
    let a = direct.execute_swap(100, 86400, 75);
    let b = dca_vault::program::swap(&mut through, 100, 86400, 75);
    assert!(a.is_ok());
    assert_eq!(a, b);
    assert_eq!(direct, through);
    assert_eq!(
        dca_vault::program::swap(&mut through, 100, 86400, 75),
        Err(VaultError::SwapNotDue)
    );
}

#[test]
fn addresses_are_equal_byte_for_byte() {
    let mut bytes = [3u8; 32];
    assert_eq!(Pubkey::new_from_array(bytes), swap_key(3));
    bytes[31] = 4;
    assert_ne!(Pubkey::new_from_array(bytes), swap_key(3));
    bytes[31] = 3;
    bytes[0] = 4;
    assert_ne!(Pubkey::new_from_array(bytes), swap_key(3));
}
