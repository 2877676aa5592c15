//! Verified core of a time-locked upgrade contract with staking, heartbeat
//! freshness tracking, per-address replay nonces and an emergency
//! admin-key revocation vote.
//!
//! The contract's ledger is modelled by [`ledger::ContractEnv`]: the values
//! held in instance and temporary storage, the ledger timestamp of the
//! invocation, the authorizations the invocation demanded, and a requested
//! code update. Every entry point of [`contract::TimeLockedUpgradeContract`]
//! is a verified function on that model whose contract is a step function
//! of [`model`].

pub mod auth;
pub mod calls;
pub mod contract;
pub mod laws;
pub mod ledger;
pub mod model;
pub mod storage;
pub(crate) mod nonce;
pub mod table;
pub mod types;

pub use types::{
    Address, AddressKind, ContractData, ContractError, PendingUpgrade, RevocationProposal, StakeRecord,
    Symbol, WasmHash,
};
