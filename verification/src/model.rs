//! What each contract entry point does, as a step on the ledger model:
//! from the model before the invocation (and the arguments) to the model
//! after it and the value returned.
//!
//! An invocation that returns an error leaves storage as it found it (the
//! host rolls back the writes of a failed invocation); its model after the
//! step differs from the one before at most in the authorizations demanded
//! before the error was found.

use vstd::prelude::*;

use crate::ledger::{EnvModel, InstanceModel, TtlExtension};
use crate::types::{
    Address, ContractData, ContractError, PendingUpgrade, ProposalModel, StakeRecord,
};

verus! {

/// Seconds that must pass between proposing and executing an upgrade (48 hours).
pub const UPGRADE_DELAY_SECONDS: u64 = 48 * 60 * 60;

/// Heartbeat interval used while none is configured (5 minutes).
pub const DEFAULT_HEARTBEAT_INTERVAL: u64 = 5 * 60;

/// Ledgers a heartbeat entry lives after a heartbeat (about 24 hours at 5
/// seconds per ledger).
pub const HEARTBEAT_TTL_LEDGERS: u32 = 17_280;

/// Remaining ledgers below which a heartbeat extends the entry's life.
pub const HEARTBEAT_TTL_THRESHOLD: u32 = 5_000;

/// The time-to-live extension a heartbeat asks for.
pub open spec fn heartbeat_ttl() -> TtlExtension {
    TtlExtension { threshold: HEARTBEAT_TTL_THRESHOLD, extend_to: HEARTBEAT_TTL_LEDGERS }
}

/// Lease added per interaction by `extend_consumer_lease`.
pub const LEASE_EXTENSION_FACTOR: u64 = 10;

/// The asset whose heartbeat records value updates: `VALUE`.
pub open spec fn value_asset() -> Seq<u8> {
    seq![86u8, 65u8, 76u8, 85u8, 69u8]
}

/// The asset whose heartbeat records stake registrations: `STAKE`.
pub open spec fn stake_asset() -> Seq<u8> {
    seq![83u8, 84u8, 65u8, 75u8, 69u8]
}

/// `a - b`, or 0 where that is negative.
pub open spec fn sat_sub(a: u64, b: u64) -> u64 {
    if a >= b {
        (a - b) as u64
    } else {
        0
    }
}

/// `a + b`, or `u64::MAX` where that does not fit.
pub open spec fn sat_add(a: u64, b: u64) -> u64 {
    if a + b <= u64::MAX {
        (a + b) as u64
    } else {
        u64::MAX
    }
}

/// `a * b`, or `u64::MAX` where that does not fit.
pub open spec fn sat_mul(a: u64, b: u64) -> u64 {
    if a * b <= u64::MAX {
        (a * b) as u64
    } else {
        u64::MAX
    }
}

/// The amount a table holds for `a`, 0 where it holds none.
pub open spec fn amount_or_zero(m: Map<Address, u64>, a: Address) -> u64 {
    match m.get(a) {
        Some(v) => v,
        None => 0,
    }
}

/// The recorded total stake, 0 where none is recorded.
pub open spec fn total_or_zero(i: InstanceModel) -> u64 {
    match i.total_staked {
        Some(t) => t,
        None => 0,
    }
}

/// The nonce `who` must present next.
pub open spec fn nonce_of(i: InstanceModel, who: Address) -> u64 {
    amount_or_zero(i.nonces, who)
}

/// The heartbeat interval in force.
pub open spec fn interval_of(i: InstanceModel) -> u64 {
    match i.heartbeat_interval {
        Some(v) => v,
        None => DEFAULT_HEARTBEAT_INTERVAL,
    }
}

/// Whether `a` is a registered signer.
pub open spec fn is_signer(i: InstanceModel, a: Address) -> bool {
    i.signers.contains(a)
}

/// Votes needed to pass a revocation: a strict majority of the registered
/// signers, `floor(n / 2) + 1`.
pub open spec fn revocation_threshold(i: InstanceModel) -> nat {
    i.signers.len() / 2 + 1
}

/// May `who` take part in a revocation vote: a registered signer or the admin.
pub open spec fn may_vote(i: InstanceModel, d: ContractData, who: Address) -> bool {
    is_signer(i, who) || d.admin == who
}

/// The stored configuration, if the caller is its admin.
pub open spec fn admin_gate(i: InstanceModel, caller: Address) -> Result<ContractData, ContractError> {
    match i.data {
        None => Err(ContractError::NotInitialized),
        Some(d) => if d.admin == caller {
            Ok(d)
        } else {
            Err(ContractError::NotAdmin)
        },
    }
}

/// Whether `nonce` is the one `who` must present, and can be moved past.
pub open spec fn nonce_gate(i: InstanceModel, who: Address, nonce: u64) -> Result<(), ContractError> {
    if nonce != nonce_of(i, who) {
        Err(ContractError::InvalidNonce)
    } else if nonce == u64::MAX {
        Err(ContractError::Overflow)
    } else {
        Ok(())
    }
}

/// Instance storage after `who` used its current nonce.
pub open spec fn consume_nonce(i: InstanceModel, who: Address) -> InstanceModel {
    InstanceModel { nonces: i.nonces.insert(who, (nonce_of(i, who) + 1) as u64), ..i }
}

/// The model after the invocation demands `a`'s authorization.
pub open spec fn with_auth(e: EnvModel, a: Address) -> EnvModel {
    EnvModel { auths: e.auths.push(a), ..e }
}

/// The model with instance storage replaced by `i`.
pub open spec fn with_instance(e: EnvModel, i: InstanceModel) -> EnvModel {
    EnvModel { instance: i, ..e }
}

/// The model after recording a heartbeat for `asset` at the current
/// timestamp, which also asks to extend the heartbeat entry's time-to-live.
pub open spec fn record_heartbeat(e: EnvModel, asset: Seq<u8>) -> EnvModel {
    EnvModel {
        heartbeats: e.heartbeats.insert(asset, e.timestamp),
        heartbeat_ttl: Some(heartbeat_ttl()),
        ..e
    }
}

/// Seconds since the pending upgrade was proposed.
pub open spec fn upgrade_age(e: EnvModel, p: PendingUpgrade) -> u64 {
    sat_sub(e.timestamp, p.proposed_at)
}

// ── Administration ──────────────────────────────────────────────────────────

pub open spec fn initialize_step(e: EnvModel, admin: Address) -> (EnvModel, Result<(), ContractError>) {
    if e.instance.data is Some {
        (e, Err(ContractError::AlreadyInitialized))
    } else {
        (
            with_instance(
                with_auth(e, admin),
                InstanceModel { data: Some(ContractData { admin, value: 0 }), ..e.instance },
            ),
            Ok(()),
        )
    }
}

pub open spec fn get_data_result(e: EnvModel) -> Result<ContractData, ContractError> {
    match e.instance.data {
        Some(d) => Ok(d),
        None => Err(ContractError::NotInitialized),
    }
}

pub open spec fn set_value_step(
    e: EnvModel,
    value: u64,
    setter: Address,
    nonce: u64,
    sig_expires_at: u64,
) -> (EnvModel, Result<(), ContractError>) {
    if e.timestamp > sig_expires_at {
        (e, Err(ContractError::SignatureExpired))
    } else {
        match admin_gate(e.instance, setter) {
            Err(err) => (e, Err(err)),
            Ok(d) => match nonce_gate(e.instance, setter, nonce) {
                Err(err) => (with_auth(e, setter), Err(err)),
                Ok(_) => (
                    record_heartbeat(
                        with_instance(
                            with_auth(e, setter),
                            InstanceModel {
                                data: Some(ContractData { value, ..d }),
                                ..consume_nonce(e.instance, setter)
                            },
                        ),
                        value_asset(),
                    ),
                    Ok(()),
                ),
            },
        }
    }
}

// ── Time-locked upgrades ────────────────────────────────────────────────────

pub open spec fn propose_upgrade_step(
    e: EnvModel,
    new_wasm_hash: [u8; 32],
    proposer: Address,
    nonce: u64,
    sig_expires_at: u64,
) -> (EnvModel, Result<(), ContractError>) {
    if e.timestamp > sig_expires_at {
        (e, Err(ContractError::SignatureExpired))
    } else {
        match admin_gate(e.instance, proposer) {
            Err(err) => (e, Err(err)),
            Ok(_) => match nonce_gate(e.instance, proposer, nonce) {
                Err(err) => (with_auth(e, proposer), Err(err)),
                Ok(_) => (
                    with_instance(
                        with_auth(e, proposer),
                        InstanceModel {
                            pending_upgrade: Some(
                                PendingUpgrade { new_wasm_hash, proposed_at: e.timestamp, proposer },
                            ),
                            ..consume_nonce(e.instance, proposer)
                        },
                    ),
                    Ok(()),
                ),
            },
        }
    }
}

pub open spec fn execute_upgrade_step(
    e: EnvModel,
    executor: Address,
    nonce: u64,
    sig_expires_at: u64,
) -> (EnvModel, Result<(), ContractError>) {
    if e.timestamp > sig_expires_at {
        (e, Err(ContractError::SignatureExpired))
    } else {
        match admin_gate(e.instance, executor) {
            Err(err) => (e, Err(err)),
            Ok(_) => match nonce_gate(e.instance, executor, nonce) {
                Err(err) => (with_auth(e, executor), Err(err)),
                Ok(_) => match e.instance.pending_upgrade {
                    None => (with_auth(e, executor), Err(ContractError::NoPendingUpgrade)),
                    Some(p) => if upgrade_age(e, p) < UPGRADE_DELAY_SECONDS {
                        (with_auth(e, executor), Err(ContractError::UpgradeTimelockNotSatisfied))
                    } else {
                        (
                            EnvModel {
                                instance: InstanceModel {
                                    pending_upgrade: None,
                                    ..consume_nonce(e.instance, executor)
                                },
                                wasm_update: Some(p.new_wasm_hash),
                                ..with_auth(e, executor)
                            },
                            Ok(()),
                        )
                    },
                },
            },
        }
    }
}

pub open spec fn cancel_upgrade_step(e: EnvModel, canceller: Address) -> (EnvModel, Result<(), ContractError>) {
    match admin_gate(e.instance, canceller) {
        Err(err) => (e, Err(err)),
        Ok(_) => if e.instance.pending_upgrade is None {
            (with_auth(e, canceller), Err(ContractError::NoPendingUpgrade))
        } else {
            (
                with_instance(
                    with_auth(e, canceller),
                    InstanceModel { pending_upgrade: None, ..e.instance },
                ),
                Ok(()),
            )
        },
    }
}

/// Seconds left before the pending upgrade may be executed (0 once it may).
pub open spec fn timelock_remaining(e: EnvModel) -> Option<u64> {
    match e.instance.pending_upgrade {
        Some(p) => if upgrade_age(e, p) < UPGRADE_DELAY_SECONDS {
            Some((UPGRADE_DELAY_SECONDS - upgrade_age(e, p)) as u64)
        } else {
            Some(0)
        },
        None => None,
    }
}

// ── Staking ─────────────────────────────────────────────────────────────────

pub open spec fn stake_and_register_step(e: EnvModel, node: Address, amount: u64) -> (
    EnvModel,
    Result<StakeRecord, ContractError>,
) {
    if amount == 0 {
        (e, Err(ContractError::InvalidStakeAmount))
    } else if e.instance.stakes.contains_key(node) {
        (with_auth(e, node), Err(ContractError::AlreadyRegistered))
    } else if total_or_zero(e.instance) + amount > u64::MAX {
        (with_auth(e, node), Err(ContractError::Overflow))
    } else {
        (
            record_heartbeat(
                with_instance(
                    with_auth(e, node),
                    InstanceModel {
                        stakes: e.instance.stakes.insert(node, amount),
                        total_staked: Some((total_or_zero(e.instance) + amount) as u64),
                        ..e.instance
                    },
                ),
                stake_asset(),
            ),
            Ok(StakeRecord { node, amount, registered_at: e.timestamp }),
        )
    }
}

pub open spec fn unstake_step(e: EnvModel, node: Address) -> (EnvModel, Result<u64, ContractError>) {
    match e.instance.stakes.get(node) {
        None => (with_auth(e, node), Err(ContractError::NotRegistered)),
        Some(amount) => (
            with_instance(
                with_auth(e, node),
                InstanceModel {
                    stakes: e.instance.stakes.remove(node),
                    total_staked: Some(sat_sub(total_or_zero(e.instance), amount)),
                    ..e.instance
                },
            ),
            Ok(amount),
        ),
    }
}

// ── Heartbeats ──────────────────────────────────────────────────────────────

pub open spec fn update_heartbeat_step(e: EnvModel, asset: Seq<u8>, updater: Address) -> (
    EnvModel,
    Result<(), ContractError>,
) {
    match admin_gate(e.instance, updater) {
        Err(err) => (e, Err(err)),
        Ok(_) => (record_heartbeat(with_auth(e, updater), asset), Ok(())),
    }
}

/// Whether the last heartbeat of `asset` lies within the interval in force.
pub open spec fn is_fresh(e: EnvModel, asset: Seq<u8>) -> bool {
    match e.heartbeats.get(asset) {
        Some(last) => sat_sub(e.timestamp, last) <= interval_of(e.instance),
        None => false,
    }
}

pub open spec fn set_heartbeat_interval_step(e: EnvModel, interval: u64, setter: Address) -> (
    EnvModel,
    Result<(), ContractError>,
) {
    match admin_gate(e.instance, setter) {
        Err(err) => (e, Err(err)),
        Ok(_) => if interval == 0 {
            (with_auth(e, setter), Err(ContractError::InvalidHeartbeatInterval))
        } else {
            (
                with_instance(
                    with_auth(e, setter),
                    InstanceModel { heartbeat_interval: Some(interval), ..e.instance },
                ),
                Ok(()),
            )
        },
    }
}

// ── Signers ─────────────────────────────────────────────────────────────────

/// `s` without any occurrence of `a`, the rest in order.
pub open spec fn without(s: Seq<Address>, a: Address) -> Seq<Address> {
    s.filter(|x: Address| x != a)
}

pub open spec fn register_signer_step(e: EnvModel, signer: Address, caller: Address) -> (
    EnvModel,
    Result<(), ContractError>,
) {
    match admin_gate(e.instance, caller) {
        Err(err) => (e, Err(err)),
        Ok(_) => if is_signer(e.instance, signer) {
            (with_auth(e, caller), Ok(()))
        } else {
            (
                with_instance(
                    with_auth(e, caller),
                    InstanceModel { signers: e.instance.signers.push(signer), ..e.instance },
                ),
                Ok(()),
            )
        },
    }
}

pub open spec fn remove_signer_step(e: EnvModel, signer: Address, caller: Address) -> (
    EnvModel,
    Result<(), ContractError>,
) {
    match admin_gate(e.instance, caller) {
        Err(err) => (e, Err(err)),
        Ok(_) => (
            with_instance(
                with_auth(e, caller),
                InstanceModel { signers: without(e.instance.signers, signer), ..e.instance },
            ),
            Ok(()),
        ),
    }
}

// ── Emergency revocation ────────────────────────────────────────────────────

pub open spec fn propose_revocation_step(
    e: EnvModel,
    target: Address,
    replacement: Address,
    proposer: Address,
    sig_expires_at: u64,
) -> (EnvModel, Result<(), ContractError>) {
    if e.timestamp > sig_expires_at {
        (e, Err(ContractError::SignatureExpired))
    } else {
        let e1 = with_auth(e, proposer);
        match e.instance.data {
            None => (e1, Err(ContractError::NotInitialized)),
            Some(d) => if !may_vote(e.instance, d, proposer) {
                (e1, Err(ContractError::Unauthorized))
            } else if d.admin != target {
                (e1, Err(ContractError::TargetNotAdmin))
            } else if e.instance.revocation is Some {
                (e1, Err(ContractError::ProposalAlreadyActive))
            } else {
                (
                    with_instance(
                        e1,
                        InstanceModel {
                            revocation: Some(
                                ProposalModel {
                                    target,
                                    replacement,
                                    proposer,
                                    proposed_at: e.timestamp,
                                    votes: seq![proposer],
                                },
                            ),
                            ..e.instance
                        },
                    ),
                    Ok(()),
                )
            },
        }
    }
}

/// Instance storage once a proposal passed: its replacement is the admin and
/// no proposal is active.
pub open spec fn revoked(i: InstanceModel, d: ContractData, p: ProposalModel) -> InstanceModel {
    InstanceModel {
        data: Some(ContractData { admin: p.replacement, ..d }),
        revocation: None,
        ..i
    }
}

pub open spec fn vote_revocation_step(e: EnvModel, voter: Address, sig_expires_at: u64) -> (
    EnvModel,
    Result<(), ContractError>,
) {
    if e.timestamp > sig_expires_at {
        (e, Err(ContractError::SignatureExpired))
    } else {
        let e1 = with_auth(e, voter);
        match e.instance.data {
            None => (e1, Err(ContractError::NotInitialized)),
            Some(d) => if !may_vote(e.instance, d, voter) {
                (e1, Err(ContractError::Unauthorized))
            } else {
                match e.instance.revocation {
                    None => (e1, Err(ContractError::NoActiveProposal)),
                    Some(p) => if p.votes.contains(voter) {
                        (e1, Err(ContractError::AlreadyVoted))
                    } else if p.votes.len() + 1 >= revocation_threshold(e.instance) {
                        (with_instance(e1, revoked(e.instance, d, p)), Ok(()))
                    } else {
                        (
                            with_instance(
                                e1,
                                InstanceModel {
                                    revocation: Some(
                                        ProposalModel { votes: p.votes.push(voter), ..p },
                                    ),
                                    ..e.instance
                                },
                            ),
                            Ok(()),
                        )
                    },
                }
            },
        }
    }
}

pub open spec fn execute_revocation_step(e: EnvModel, caller: Address) -> (
    EnvModel,
    Result<(), ContractError>,
) {
    let e1 = with_auth(e, caller);
    match e.instance.data {
        None => (e1, Err(ContractError::NotInitialized)),
        Some(d) => if !may_vote(e.instance, d, caller) {
            (e1, Err(ContractError::Unauthorized))
        } else {
            match e.instance.revocation {
                None => (e1, Err(ContractError::NoActiveProposal)),
                Some(p) => if p.votes.len() < revocation_threshold(e.instance) {
                    (e1, Err(ContractError::ThresholdNotReached))
                } else {
                    (with_instance(e1, revoked(e.instance, d, p)), Ok(()))
                },
            }
        },
    }
}

pub open spec fn cancel_revocation_step(e: EnvModel, caller: Address) -> (
    EnvModel,
    Result<(), ContractError>,
) {
    let e1 = with_auth(e, caller);
    match e.instance.data {
        None => (e1, Err(ContractError::NotInitialized)),
        Some(d) => match e.instance.revocation {
            None => (e1, Err(ContractError::NoActiveProposal)),
            Some(p) => if p.proposer != caller && !(d.admin == caller && d.admin != p.target) {
                (e1, Err(ContractError::Unauthorized))
            } else {
                (with_instance(e1, InstanceModel { revocation: None, ..e.instance }), Ok(()))
            },
        },
    }
}

} // verus!
