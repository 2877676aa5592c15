//! Sequences of invocations of the contract, for stating properties that
//! span many calls. Calls that only read (the getters) change nothing and
//! are left out.

use vstd::prelude::*;

use crate::auth::require_multisig_step;
use crate::ledger::{next_invocation, EnvModel};
use crate::model::{
    cancel_revocation_step, cancel_upgrade_step, execute_revocation_step, execute_upgrade_step,
    initialize_step, propose_revocation_step, propose_upgrade_step, register_signer_step,
    remove_signer_step, set_heartbeat_interval_step, set_value_step, stake_and_register_step,
    unstake_step, update_heartbeat_step, vote_revocation_step,
};
use crate::storage::extend_consumer_lease_step;
use crate::types::{Address, WasmHash};

verus! {

/// An invocation of a state-changing entry point, with its arguments.
pub enum Call {
    Initialize { admin: Address },
    StakeAndRegister { node: Address, amount: u64 },
    Unstake { node: Address },
    ProposeUpgrade { new_wasm_hash: WasmHash, proposer: Address, nonce: u64, sig_expires_at: u64 },
    ExecuteUpgrade { executor: Address, nonce: u64, sig_expires_at: u64 },
    CancelUpgrade { canceller: Address },
    SetValue { value: u64, setter: Address, nonce: u64, sig_expires_at: u64 },
    UpdateHeartbeat { asset: Seq<u8>, updater: Address },
    SetHeartbeatInterval { interval: u64, setter: Address },
    RegisterSigner { signer: Address, caller: Address },
    RemoveSigner { signer: Address, caller: Address },
    ProposeRevocation {
        target: Address,
        replacement: Address,
        proposer: Address,
        sig_expires_at: u64,
    },
    VoteRevocation { voter: Address, sig_expires_at: u64 },
    ExecuteRevocation { caller: Address },
    CancelRevocation { caller: Address },
    RequireMultisig { candidates: Seq<Address> },
    ExtendConsumerLease { consumer: Address, frequency: u64 },
}

/// The ledger after the call and whether the call succeeded.
pub open spec fn outcome(e: EnvModel, c: Call) -> (EnvModel, bool) {
    match c {
        Call::Initialize { admin } => {
            let s = initialize_step(e, admin);
            (s.0, s.1 is Ok)
        },
        Call::StakeAndRegister { node, amount } => {
            let s = stake_and_register_step(e, node, amount);
            (s.0, s.1 is Ok)
        },
        Call::Unstake { node } => {
            let s = unstake_step(e, node);
            (s.0, s.1 is Ok)
        },
        Call::ProposeUpgrade { new_wasm_hash, proposer, nonce, sig_expires_at } => {
            let s = propose_upgrade_step(e, new_wasm_hash, proposer, nonce, sig_expires_at);
            (s.0, s.1 is Ok)
        },
        Call::ExecuteUpgrade { executor, nonce, sig_expires_at } => {
            let s = execute_upgrade_step(e, executor, nonce, sig_expires_at);
            (s.0, s.1 is Ok)
        },
        Call::CancelUpgrade { canceller } => {
            let s = cancel_upgrade_step(e, canceller);
            (s.0, s.1 is Ok)
        },
        Call::SetValue { value, setter, nonce, sig_expires_at } => {
            let s = set_value_step(e, value, setter, nonce, sig_expires_at);
            (s.0, s.1 is Ok)
        },
        Call::UpdateHeartbeat { asset, updater } => {
            let s = update_heartbeat_step(e, asset, updater);
            (s.0, s.1 is Ok)
        },
        Call::SetHeartbeatInterval { interval, setter } => {
            let s = set_heartbeat_interval_step(e, interval, setter);
            (s.0, s.1 is Ok)
        },
        Call::RegisterSigner { signer, caller } => {
            let s = register_signer_step(e, signer, caller);
            (s.0, s.1 is Ok)
        },
        Call::RemoveSigner { signer, caller } => {
            let s = remove_signer_step(e, signer, caller);
            (s.0, s.1 is Ok)
        },
        Call::ProposeRevocation { target, replacement, proposer, sig_expires_at } => {
            let s = propose_revocation_step(e, target, replacement, proposer, sig_expires_at);
            (s.0, s.1 is Ok)
        },
        Call::VoteRevocation { voter, sig_expires_at } => {
            let s = vote_revocation_step(e, voter, sig_expires_at);
            (s.0, s.1 is Ok)
        },
        Call::ExecuteRevocation { caller } => {
            let s = execute_revocation_step(e, caller);
            (s.0, s.1 is Ok)
        },
        Call::CancelRevocation { caller } => {
            let s = cancel_revocation_step(e, caller);
            (s.0, s.1 is Ok)
        },
        Call::RequireMultisig { candidates } => {
            let s = require_multisig_step(e, candidates);
            (s.0, s.1 is Ok)
        },
        Call::ExtendConsumerLease { consumer, frequency } => (
            extend_consumer_lease_step(e, consumer, frequency),
            true,
        ),
    }
}

/// The ledger after the invocation `inv`: its call made at its timestamp on
/// the ledger `e` left.
pub open spec fn invoke(e: EnvModel, inv: (u64, Call)) -> (EnvModel, bool) {
    outcome(next_invocation(e, inv.0), inv.1)
}

/// The ledger after the invocations `calls`, in order, starting from `e`.
pub open spec fn run(e: EnvModel, calls: Seq<(u64, Call)>) -> EnvModel
    decreases calls.len(),
{
    if calls.len() == 0 {
        e
    } else {
        invoke(run(e, calls.drop_last()), calls.last()).0
    }
}

/// The signer and nonce of a signed call.
pub open spec fn signed_nonce(c: Call) -> Option<(Address, u64)> {
    match c {
        Call::ProposeUpgrade { proposer, nonce, .. } => Some((proposer, nonce)),
        Call::ExecuteUpgrade { executor, nonce, .. } => Some((executor, nonce)),
        Call::SetValue { setter, nonce, .. } => Some((setter, nonce)),
        _ => None,
    }
}

} // verus!
