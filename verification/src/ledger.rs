//! The contract's view of the ledger during one invocation.

use vstd::prelude::*;

use crate::table::Table;
use crate::types::{
    Address, ContractData, PendingUpgrade, ProposalModel, RevocationProposal, Symbol, WasmHash,
};

verus! {

/// The entries of the contract's instance storage.
///
/// An absent table or list entry and an empty one read the same, so tables
/// and lists are held without an `Option`.
pub struct InstanceStorage {
    /// Admin and value (`DATA`).
    pub data: Option<ContractData>,
    /// The upgrade awaiting its timelock (`PENDING`).
    pub pending_upgrade: Option<PendingUpgrade>,
    /// Staked amount of each registered node (`STAKES`).
    pub stakes: Table<Address>,
    /// Total staked amount (`TOTAL`).
    pub total_staked: Option<u64>,
    /// Configured heartbeat interval in seconds (`HBINTV`).
    pub heartbeat_interval: Option<u64>,
    /// Registered signers, in registration order (`SIGNERS`).
    pub signers: Vec<Address>,
    /// The active revocation proposal (`REVOKE`).
    pub revocation: Option<RevocationProposal>,
    /// Next expected nonce of each address.
    pub nonces: Table<Address>,
    /// Ledger lease of each consumer.
    pub leases: Table<Address>,
}

/// The entries of the contract's temporary storage.
pub struct TemporaryStorage {
    /// Last heartbeat timestamp of each asset (`HBEAT`).
    pub heartbeats: Table<Symbol>,
}

/// The ledger as one invocation of the contract sees and changes it.
pub struct ContractEnv {
    /// The ledger timestamp of the invocation.
    pub timestamp: u64,
    pub instance: InstanceStorage,
    pub temporary: TemporaryStorage,
    /// The addresses whose authorization the invocation demanded, in order.
    pub auths: Vec<Address>,
    /// The code hash the contract asked to be upgraded to, if any.
    pub wasm_update: Option<WasmHash>,
    /// The extension of the heartbeat entry's time-to-live the contract asked
    /// for, if any.
    pub heartbeat_ttl: Option<TtlExtension>,
}

/// A request to extend the time-to-live of a temporary storage entry: when
/// fewer than `threshold` ledgers remain, extend it to `extend_to` ledgers.
#[derive(Copy, Clone, Debug, PartialEq, Eq)]
pub struct TtlExtension {
    pub threshold: u32,
    pub extend_to: u32,
}

/// The mathematical value of [`InstanceStorage`].
#[verifier::ext_equal]
pub struct InstanceModel {
    pub data: Option<ContractData>,
    pub pending_upgrade: Option<PendingUpgrade>,
    pub stakes: Map<Address, u64>,
    pub total_staked: Option<u64>,
    pub heartbeat_interval: Option<u64>,
    pub signers: Seq<Address>,
    pub revocation: Option<ProposalModel>,
    pub nonces: Map<Address, u64>,
    pub leases: Map<Address, u64>,
}

/// The mathematical value of [`ContractEnv`].
#[verifier::ext_equal]
pub struct EnvModel {
    pub timestamp: u64,
    pub instance: InstanceModel,
    pub heartbeats: Map<Seq<u8>, u64>,
    pub auths: Seq<Address>,
    pub wasm_update: Option<WasmHash>,
    pub heartbeat_ttl: Option<TtlExtension>,
}

/// The ledger as the next invocation, at `timestamp`, finds it after the
/// invocation that left `e`: storage carries over; no authorization has been
/// demanded and no code update or time-to-live extension requested yet.
pub open spec fn next_invocation(e: EnvModel, timestamp: u64) -> EnvModel {
    EnvModel { timestamp, auths: Seq::empty(), wasm_update: None, heartbeat_ttl: None, ..e }
}

/// The ledger of a freshly deployed contract invoked at `timestamp`: every
/// storage entry absent, nothing demanded or requested.
pub open spec fn fresh_ledger(timestamp: u64) -> EnvModel {
    EnvModel {
        timestamp,
        instance: InstanceModel {
            data: None,
            pending_upgrade: None,
            stakes: Map::empty(),
            total_staked: None,
            heartbeat_interval: None,
            signers: Seq::empty(),
            revocation: None,
            nonces: Map::empty(),
            leases: Map::empty(),
        },
        heartbeats: Map::empty(),
        auths: Seq::empty(),
        wasm_update: None,
        heartbeat_ttl: None,
    }
}

/// The model of an optional proposal.
pub open spec fn proposal_view(p: Option<RevocationProposal>) -> Option<ProposalModel> {
    match p {
        Some(p) => Some(p@),
        None => None,
    }
}

impl View for InstanceStorage {
    type V = InstanceModel;

    open spec fn view(&self) -> InstanceModel {
        InstanceModel {
            data: self.data,
            pending_upgrade: self.pending_upgrade,
            stakes: self.stakes@,
            total_staked: self.total_staked,
            heartbeat_interval: self.heartbeat_interval,
            signers: self.signers@,
            revocation: proposal_view(self.revocation),
            nonces: self.nonces@,
            leases: self.leases@,
        }
    }
}

impl View for ContractEnv {
    type V = EnvModel;

    open spec fn view(&self) -> EnvModel {
        EnvModel {
            timestamp: self.timestamp,
            instance: self.instance@,
            heartbeats: self.temporary.heartbeats@,
            auths: self.auths@,
            wasm_update: self.wasm_update,
            heartbeat_ttl: self.heartbeat_ttl,
        }
    }
}

impl InstanceStorage {
    /// Instance storage of a freshly deployed contract: every entry absent.
    pub fn new() -> (s: InstanceStorage)
        ensures
            s@ == (InstanceModel {
                data: None,
                pending_upgrade: None,
                stakes: Map::empty(),
                total_staked: None,
                heartbeat_interval: None,
                signers: Seq::empty(),
                revocation: None,
                nonces: Map::empty(),
                leases: Map::empty(),
            }),
    {
        InstanceStorage {
            data: None,
            pending_upgrade: None,
            stakes: Table::new(),
            total_staked: None,
            heartbeat_interval: None,
            signers: Vec::new(),
            revocation: None,
            nonces: Table::new(),
            leases: Table::new(),
        }
    }
}

impl ContractEnv {
    /// A freshly deployed contract invoked at `timestamp`.
    pub fn new(timestamp: u64) -> (e: ContractEnv)
        ensures
            e@ == fresh_ledger(timestamp),
    {
        ContractEnv {
            timestamp,
            instance: InstanceStorage::new(),
            temporary: TemporaryStorage { heartbeats: Table::new() },
            auths: Vec::new(),
            wasm_update: None,
            heartbeat_ttl: None,
        }
    }

    /// Starts the next invocation at `timestamp` on the ledger this one left:
    /// storage carries over, the demanded authorizations and the requested
    /// code update and time-to-live extension are cleared.
    pub fn advance_to(&mut self, timestamp: u64)
        ensures
            final(self)@ == next_invocation(old(self)@, timestamp),
    {
        self.timestamp = timestamp;
        self.auths = Vec::new();
        self.wasm_update = None;
        self.heartbeat_ttl = None;
    }
}

} // verus!
