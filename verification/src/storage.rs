//! Consumer lease management: a consumer's ledger lease grows in
//! proportion to how often it interacts.

use vstd::prelude::*;

use crate::ledger::{ContractEnv, EnvModel, InstanceModel};
use crate::model::{amount_or_zero, sat_add, sat_mul, LEASE_EXTENSION_FACTOR};
use crate::types::Address;

verus! {

/// Errors of the storage utilities.
#[derive(Copy, Clone, Debug, PartialEq, Eq, Structural)]
pub enum ContractError {
    /// Generic error placeholder.
    Generic,
}

/// The lease of `consumer` after `frequency` interactions: the current lease
/// (0 if none) plus `frequency * 10`, each step saturating at `u64::MAX`.
pub open spec fn extended_lease(leases: Map<Address, u64>, consumer: Address, frequency: u64) -> u64 {
    sat_add(amount_or_zero(leases, consumer), sat_mul(frequency, LEASE_EXTENSION_FACTOR))
}

/// What `extend_consumer_lease` does to the ledger.
pub open spec fn extend_consumer_lease_step(e: EnvModel, consumer: Address, frequency: u64) -> EnvModel {
    EnvModel {
        instance: InstanceModel {
            leases: e.instance.leases.insert(
                consumer,
                extended_lease(e.instance.leases, consumer, frequency),
            ),
            ..e.instance
        },
        ..e
    }
}

/// Extend the lease of `consumer` in proportion to its interaction
/// `frequency`: the lease grows by `frequency * 10`, saturating at `u64::MAX`.
/// Always succeeds.
pub fn extend_consumer_lease(env: &mut ContractEnv, consumer: &Address, frequency: u64) -> (r: Result<
    (),
    ContractError,
>)
    ensures
        r is Ok,
        final(env)@ == extend_consumer_lease_step(old(env)@, *consumer, frequency),
{
    let mut lease: u64 = match env.instance.leases.get(consumer) {
        Some(l) => l,
        None => 0,
    };
    let addition: u64 = match frequency.checked_mul(LEASE_EXTENSION_FACTOR) {
        Some(a) => a,
        None => u64::MAX,
    };
    lease = lease.saturating_add(addition);
    env.instance.leases.set(*consumer, lease);
    Ok(())
}

} // verus!
