pub mod vault_state;

pub use vault_state::VaultState;
