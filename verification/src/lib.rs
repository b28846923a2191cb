//! Spending policy for delegated signers of a smart wallet.
//!
//! An administrator grants a delegate the right to deposit into one vault, up
//! to a ceiling per deposit and at most once per cooldown period. The policy
//! decides, for each requested action, whether it may proceed, and records
//! the ledger sequence of every deposit it lets through.

pub mod contract;
pub mod error;
pub mod laws;
pub mod policy;
pub mod signer;
pub mod table;
pub mod types;

pub use contract::{Contract, State};
pub use error::Error;
pub use signer::{delegate_signer, DelegateSigner, SignerLimit, SignerStorage};
pub use table::Table;
pub use types::{
    same_key, Address, AllowanceView, Context, ContractContext, DelegateKey, SignerKey,
    StorageKey, Val, VaultAllowance, MONTH_IN_LEDGERS,
};
