//! Per-address replay nonces: each signed request carries the nonce its
//! signer must present next; using it moves the signer's nonce on by one.

use vstd::prelude::*;

use crate::ledger::ContractEnv;
use crate::model::{nonce_gate, nonce_of, with_instance};
use crate::types::{Address, ContractError};

verus! {

/// The nonce `who` must present next (0 before its first use).
pub fn get_nonce(env: &ContractEnv, who: &Address) -> (n: u64)
    ensures
        n == nonce_of(env@.instance, *who),
{
    match env.instance.nonces.get(who) {
        Some(n) => n,
        None => 0,
    }
}

/// Whether `nonce` is the one `who` must present next, without using it.
pub fn check_nonce(env: &ContractEnv, who: &Address, nonce: u64) -> (r: Result<(), ContractError>)
    ensures
        r == nonce_gate(env@.instance, *who, nonce),
{
    let current = get_nonce(env, who);
    if nonce != current {
        Err(ContractError::InvalidNonce)
    } else if nonce == u64::MAX {
        Err(ContractError::Overflow)
    } else {
        Ok(())
    }
}

/// Uses `who`'s nonce: fails unless `nonce` is the one `who` must present
/// next, and otherwise moves `who`'s nonce on by one.
pub fn consume_nonce(env: &mut ContractEnv, who: &Address, nonce: u64) -> (r: Result<(), ContractError>)
    ensures
        r == nonce_gate(old(env)@.instance, *who, nonce),
        r is Ok ==> final(env)@ == with_instance(
            old(env)@,
            crate::model::consume_nonce(old(env)@.instance, *who),
        ),
        r is Err ==> final(env)@ == old(env)@,
{
    check_nonce(env, who, nonce)?;
    env.instance.nonces.set(*who, nonce + 1);
    Ok(())
}

} // verus!
