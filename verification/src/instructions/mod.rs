pub mod swap;
pub mod vault_init;
pub mod withdraw;

pub use swap::{
    jupiter_program_id, sol_received, JupiterCall, Swap, SwapExecuted, JUPITER_PROGRAM_ID,
};
pub use vault_init::{VaultCreated, VaultDeposit, VaultInit, VaultInitBumps};
pub use withdraw::{
    early_exit_fee, CloseAccount, VaultPayout, Withdraw, WithdrawEvent, BPS_DENOMINATOR,
    EARLY_EXIT_FEE_BPS,
};
