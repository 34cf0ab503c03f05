//! A custodial vault for dollar-cost averaging: an owner deposits a fixed
//! quantity of one token and names a number of periods and an interval; at
//! each elapsed interval one equal slice of the deposit is handed to a swap
//! service, and what it buys goes straight to the owner. The vault can be
//! closed at any time, at a fee while the plan is not complete.
//!
//! The library decides; its host acts. Each operation takes what the host
//! has read (the record, balances, the time) and returns the new record
//! with the transfers, calls and events that the host has to carry out.

pub mod error;
pub mod instruction;
pub mod instructions;
pub mod program;
pub mod pubkey;
pub mod schedule;
pub mod seeds;
pub mod state;
pub mod token;

pub use error::VaultError;
pub use instruction::{AccountInfo, AccountMeta, Instruction};
pub use instructions::{
    early_exit_fee, jupiter_program_id, sol_received, CloseAccount, JupiterCall, Swap,
    SwapExecuted, VaultCreated, VaultDeposit, VaultInit, VaultInitBumps, VaultPayout, Withdraw,
    WithdrawEvent, BPS_DENOMINATOR, EARLY_EXIT_FEE_BPS, JUPITER_PROGRAM_ID,
};
pub use pubkey::Pubkey;
pub use seeds::{vault_signer_seeds, VAULT_SEED};
pub use state::VaultState;
pub use token::{Mint, TokenAccount, TransferChecked};
