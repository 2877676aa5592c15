//! The contract's entry points.

use vstd::prelude::*;

use crate::ledger::{proposal_view, ContractEnv, TtlExtension};
use crate::model::{
    admin_gate, amount_or_zero, cancel_revocation_step, cancel_upgrade_step,
    execute_revocation_step, execute_upgrade_step, get_data_result, initialize_step,
    interval_of, is_fresh, is_signer, nonce_of, propose_revocation_step, propose_upgrade_step,
    record_heartbeat, register_signer_step, remove_signer_step, revocation_threshold,
    set_heartbeat_interval_step, set_value_step, stake_and_register_step, stake_asset,
    timelock_remaining, total_or_zero, unstake_step, update_heartbeat_step, value_asset,
    vote_revocation_step, with_auth, without, DEFAULT_HEARTBEAT_INTERVAL, HEARTBEAT_TTL_LEDGERS,
    HEARTBEAT_TTL_THRESHOLD, UPGRADE_DELAY_SECONDS,
};
use crate::nonce::{check_nonce, consume_nonce, get_nonce};
use crate::types::{
    copy_addresses, Address, ContractData, ContractError, PendingUpgrade, RevocationProposal,
    StakeRecord, Symbol, WasmHash,
};

verus! {

/// The time-locked upgrade contract: admin-gated configuration, upgrades
/// that wait out a 48-hour timelock, node staking, heartbeat freshness and an
/// emergency vote that replaces a compromised admin key.
pub struct TimeLockedUpgradeContract;

/// The `VALUE` asset symbol.
fn value_symbol() -> (s: Symbol)
    ensures
        s@ == value_asset(),
{
    let s = Symbol::from_chars(vec![86u8, 65u8, 76u8, 85u8, 69u8]);
    assert(s@ =~= value_asset());
    s
}

/// The `STAKE` asset symbol.
fn stake_symbol() -> (s: Symbol)
    ensures
        s@ == stake_asset(),
{
    let s = Symbol::from_chars(vec![83u8, 84u8, 65u8, 75u8, 69u8]);
    assert(s@ =~= stake_asset());
    s
}

/// Demands `who`'s authorization for this invocation.
fn require_auth(env: &mut ContractEnv, who: Address)
    ensures
        final(env)@ == with_auth(old(env)@, who),
{
    env.auths.push(who);
}

/// The stored configuration, if `caller` is its admin.
fn admin_check(env: &ContractEnv, caller: &Address) -> (r: Result<ContractData, ContractError>)
    ensures
        r == admin_gate(env@.instance, *caller),
{
    match env.instance.data {
        None => Err(ContractError::NotInitialized),
        Some(d) => if d.admin == *caller {
            Ok(d)
        } else {
            Err(ContractError::NotAdmin)
        },
    }
}

impl TimeLockedUpgradeContract {
    /// Initialize the contract with an admin address.
    pub fn initialize(env: &mut ContractEnv, admin: Address) -> (r: Result<(), ContractError>)
        ensures
            final(env)@ == initialize_step(old(env)@, admin).0,
            r == initialize_step(old(env)@, admin).1,
    {
        if env.instance.data.is_some() {
            return Err(ContractError::AlreadyInitialized);
        }
        require_auth(env, admin);
        env.instance.data = Some(ContractData { admin, value: 0 });
        Ok(())
    }

    // ── Atomic staking ──────────────────────────────────────────────────────

    /// Atomically register a node's stake and add it to the total.
    ///
    /// Both writes succeed together or neither takes effect.
    pub fn stake_and_register(env: &mut ContractEnv, node: Address, amount: u64) -> (r: Result<
        StakeRecord,
        ContractError,
    >)
        ensures
            final(env)@ == stake_and_register_step(old(env)@, node, amount).0,
            r == stake_and_register_step(old(env)@, node, amount).1,
    {
        if amount == 0 {
            return Err(ContractError::InvalidStakeAmount);
        }
        require_auth(env, node);
        if env.instance.stakes.contains_key(&node) {
            return Err(ContractError::AlreadyRegistered);
        }
        let total: u64 = match env.instance.total_staked {
            Some(t) => t,
            None => 0,
        };
        let new_total = match total.checked_add(amount) {
            Some(t) => t,
            None => return Err(ContractError::Overflow),
        };
        env.instance.stakes.set(node, amount);
        env.instance.total_staked = Some(new_total);
        Self::_record_heartbeat(env, stake_symbol());
        Ok(StakeRecord { node, amount, registered_at: env.timestamp })
    }

    /// The staked amount of `node`, 0 if it is not registered.
    pub fn get_stake(env: &ContractEnv, node: Address) -> (r: u64)
        ensures
            r == amount_or_zero(env@.instance.stakes, node),
    {
        match env.instance.stakes.get(&node) {
            Some(a) => a,
            None => 0,
        }
    }

    /// The total staked amount across all nodes.
    pub fn get_total_staked(env: &ContractEnv) -> (r: u64)
        ensures
            r == total_or_zero(env@.instance),
    {
        match env.instance.total_staked {
            Some(t) => t,
            None => 0,
        }
    }

    /// Unstake and deregister a node atomically, returning its stake.
    pub fn unstake(env: &mut ContractEnv, node: Address) -> (r: Result<u64, ContractError>)
        ensures
            final(env)@ == unstake_step(old(env)@, node).0,
            r == unstake_step(old(env)@, node).1,
    {
        require_auth(env, node);
        let amount = match env.instance.stakes.get(&node) {
            Some(a) => a,
            None => return Err(ContractError::NotRegistered),
        };
        let total: u64 = match env.instance.total_staked {
            Some(t) => t,
            None => 0,
        };
        let new_total = total.saturating_sub(amount);
        env.instance.stakes.remove(&node);
        env.instance.total_staked = Some(new_total);
        Ok(amount)
    }

    /// The current contract data.
    pub fn get_data(env: &ContractEnv) -> (r: Result<ContractData, ContractError>)
        ensures
            r == get_data_result(env@),
    {
        match env.instance.data {
            Some(d) => Ok(d),
            None => Err(ContractError::NotInitialized),
        }
    }

    // ── Time-locked upgrades ────────────────────────────────────────────────

    /// Propose an upgrade to `new_wasm_hash`; this starts the 48-hour timelock.
    pub fn propose_upgrade(
        env: &mut ContractEnv,
        new_wasm_hash: WasmHash,
        proposer: Address,
        nonce: u64,
        sig_expires_at: u64,
    ) -> (r: Result<(), ContractError>)
        ensures
            final(env)@ == propose_upgrade_step(
                old(env)@,
                new_wasm_hash,
                proposer,
                nonce,
                sig_expires_at,
            ).0,
            r == propose_upgrade_step(old(env)@, new_wasm_hash, proposer, nonce, sig_expires_at).1,
    {
        if env.timestamp > sig_expires_at {
            return Err(ContractError::SignatureExpired);
        }
        admin_check(env, &proposer)?;
        require_auth(env, proposer);
        consume_nonce(env, &proposer, nonce)?;
        let current_time = env.timestamp;
        env.instance.pending_upgrade = Some(
            PendingUpgrade { new_wasm_hash, proposed_at: current_time, proposer },
        );
        Ok(())
    }

    /// Execute the pending upgrade if its timelock has passed.
    pub fn execute_upgrade(
        env: &mut ContractEnv,
        executor: Address,
        nonce: u64,
        sig_expires_at: u64,
    ) -> (r: Result<(), ContractError>)
        ensures
            final(env)@ == execute_upgrade_step(old(env)@, executor, nonce, sig_expires_at).0,
            r == execute_upgrade_step(old(env)@, executor, nonce, sig_expires_at).1,
    {
        if env.timestamp > sig_expires_at {
            return Err(ContractError::SignatureExpired);
        }
        admin_check(env, &executor)?;
        require_auth(env, executor);
        check_nonce(env, &executor, nonce)?;
        let pending = match env.instance.pending_upgrade {
            Some(p) => p,
            None => return Err(ContractError::NoPendingUpgrade),
        };
        let time_elapsed = env.timestamp.saturating_sub(pending.proposed_at);
        if time_elapsed < UPGRADE_DELAY_SECONDS {
            return Err(ContractError::UpgradeTimelockNotSatisfied);
        }
        consume_nonce(env, &executor, nonce)?;
        env.wasm_update = Some(pending.new_wasm_hash);
        env.instance.pending_upgrade = None;
        Ok(())
    }

    /// Cancel the pending upgrade.
    pub fn cancel_upgrade(env: &mut ContractEnv, canceller: Address) -> (r: Result<(), ContractError>)
        ensures
            final(env)@ == cancel_upgrade_step(old(env)@, canceller).0,
            r == cancel_upgrade_step(old(env)@, canceller).1,
    {
        admin_check(env, &canceller)?;
        require_auth(env, canceller);
        if env.instance.pending_upgrade.is_none() {
            return Err(ContractError::NoPendingUpgrade);
        }
        env.instance.pending_upgrade = None;
        Ok(())
    }

    /// The pending upgrade, if any.
    pub fn get_pending_upgrade(env: &ContractEnv) -> (r: Option<PendingUpgrade>)
        ensures
            r == env@.instance.pending_upgrade,
    {
        env.instance.pending_upgrade
    }

    /// Seconds left before the pending upgrade can be executed: `Some(0)` once
    /// the timelock has passed, `None` without a pending upgrade.
    pub fn get_upgrade_timelock_remaining(env: &ContractEnv) -> (r: Option<u64>)
        ensures
            r == timelock_remaining(env@),
    {
        match Self::get_pending_upgrade(env) {
            Some(pending_upgrade) => {
                let time_elapsed = env.timestamp.saturating_sub(pending_upgrade.proposed_at);
                if time_elapsed < UPGRADE_DELAY_SECONDS {
                    Some(UPGRADE_DELAY_SECONDS - time_elapsed)
                } else {
                    Some(0)
                }
            },
            None => None,
        }
    }

    /// Set the stored value; also records a heartbeat for the `VALUE` asset.
    pub fn set_value(
        env: &mut ContractEnv,
        value: u64,
        setter: Address,
        nonce: u64,
        sig_expires_at: u64,
    ) -> (r: Result<(), ContractError>)
        ensures
            final(env)@ == set_value_step(old(env)@, value, setter, nonce, sig_expires_at).0,
            r == set_value_step(old(env)@, value, setter, nonce, sig_expires_at).1,
    {
        if env.timestamp > sig_expires_at {
            return Err(ContractError::SignatureExpired);
        }
        let mut data = admin_check(env, &setter)?;
        require_auth(env, setter);
        consume_nonce(env, &setter, nonce)?;
        data.value = value;
        env.instance.data = Some(data);
        Self::_record_heartbeat(env, value_symbol());
        Ok(())
    }

    // ── Heartbeat verification ──────────────────────────────────────────────

    /// Record a heartbeat for `asset` at the current ledger timestamp. Admin-only.
    pub fn update_heartbeat(env: &mut ContractEnv, asset: Symbol, updater: Address) -> (r: Result<
        (),
        ContractError,
    >)
        ensures
            final(env)@ == update_heartbeat_step(old(env)@, asset@, updater).0,
            r == update_heartbeat_step(old(env)@, asset@, updater).1,
    {
        admin_check(env, &updater)?;
        require_auth(env, updater);
        Self::_record_heartbeat(env, asset);
        Ok(())
    }

    /// Whether the data for `asset` is still fresh: a heartbeat was recorded
    /// and no more than the heartbeat interval has passed since.
    pub fn is_data_fresh(env: &ContractEnv, asset: Symbol) -> (r: bool)
        ensures
            r == is_fresh(env@, asset@),
    {
        match env.temporary.heartbeats.get(&asset) {
            Some(last_update) => {
                let interval = Self::_get_interval(env);
                let elapsed = env.timestamp.saturating_sub(last_update);
                elapsed <= interval
            },
            None => false,
        }
    }

    /// The timestamp of the last heartbeat of `asset`, if any.
    pub fn get_last_update_timestamp(env: &ContractEnv, asset: Symbol) -> (r: Option<u64>)
        ensures
            r == env@.heartbeats.get(asset@),
    {
        env.temporary.heartbeats.get(&asset)
    }

    /// Set the heartbeat interval in seconds. Admin-only; the interval must
    /// not be 0.
    pub fn set_heartbeat_interval(env: &mut ContractEnv, interval: u64, setter: Address) -> (r:
        Result<(), ContractError>)
        ensures
            final(env)@ == set_heartbeat_interval_step(old(env)@, interval, setter).0,
            r == set_heartbeat_interval_step(old(env)@, interval, setter).1,
    {
        admin_check(env, &setter)?;
        require_auth(env, setter);
        if interval == 0 {
            return Err(ContractError::InvalidHeartbeatInterval);
        }
        env.instance.heartbeat_interval = Some(interval);
        Ok(())
    }

    /// The heartbeat interval in seconds: the configured one, or 300.
    pub fn get_heartbeat_interval(env: &ContractEnv) -> (r: u64)
        ensures
            r == interval_of(env@.instance),
    {
        Self::_get_interval(env)
    }

    /// The nonce `coordinator` must present next.
    pub fn get_coordinator_nonce(env: &ContractEnv, coordinator: Address) -> (r: u64)
        ensures
            r == nonce_of(env@.instance, coordinator),
    {
        get_nonce(env, &coordinator)
    }

    // ── Signer management ───────────────────────────────────────────────────

    /// Register a signer eligible to vote on revocations. Admin-only;
    /// registering a registered signer changes nothing.
    pub fn register_signer(env: &mut ContractEnv, signer: Address, caller: Address) -> (r: Result<
        (),
        ContractError,
    >)
        ensures
            final(env)@ == register_signer_step(old(env)@, signer, caller).0,
            r == register_signer_step(old(env)@, signer, caller).1,
    {
        admin_check(env, &caller)?;
        require_auth(env, caller);
        if !Self::_is_signer(env, &signer) {
            env.instance.signers.push(signer);
        }
        Ok(())
    }

    /// Remove every registration of `signer`. Admin-only.
    pub fn remove_signer(env: &mut ContractEnv, signer: Address, caller: Address) -> (r: Result<
        (),
        ContractError,
    >)
        ensures
            final(env)@ == remove_signer_step(old(env)@, signer, caller).0,
            r == remove_signer_step(old(env)@, signer, caller).1,
    {
        admin_check(env, &caller)?;
        require_auth(env, caller);
        let n = env.instance.signers.len();
        let mut filtered: Vec<Address> = Vec::new();
        let mut i: usize = 0;
        while i < n
            invariant
                n == env.instance.signers@.len(),
                i <= n,
                filtered@ == without(env.instance.signers@.take(i as int), signer),
            decreases n - i,
        {
            let s = env.instance.signers[i];
            proof {
                reveal_with_fuel(Seq::<_>::filter, 1);
                assert(env.instance.signers@.take(i + 1).drop_last() =~= env.instance.signers@.take(
                    i as int,
                ));
            }
            if s != signer {
                filtered.push(s);
            }
            i = i + 1;
        }
        proof {
            assert(env.instance.signers@.take(n as int) =~= env.instance.signers@);
        }
        env.instance.signers = filtered;
        Ok(())
    }

    /// The registered signers, in registration order (the admin is not
    /// included).
    pub fn get_signers(env: &ContractEnv) -> (r: Vec<Address>)
        ensures
            r@ == env@.instance.signers,
    {
        Self::_get_signers(env)
    }

    // ── Emergency revocation vote ───────────────────────────────────────────

    /// Propose revoking the admin key `target` in favour of `replacement`.
    /// Any registered signer or the admin may propose; the proposer's vote is
    /// counted.
    pub fn propose_revocation(
        env: &mut ContractEnv,
        target: Address,
        replacement: Address,
        proposer: Address,
        sig_expires_at: u64,
    ) -> (r: Result<(), ContractError>)
        ensures
            final(env)@ == propose_revocation_step(
                old(env)@,
                target,
                replacement,
                proposer,
                sig_expires_at,
            ).0,
            r == propose_revocation_step(old(env)@, target, replacement, proposer, sig_expires_at).1,
    {
        if env.timestamp > sig_expires_at {
            return Err(ContractError::SignatureExpired);
        }
        require_auth(env, proposer);
        let data = match Self::get_data(env) {
            Ok(d) => d,
            Err(e) => return Err(e),
        };
        if !Self::_is_signer(env, &proposer) && data.admin != proposer {
            return Err(ContractError::Unauthorized);
        }
        if data.admin != target {
            return Err(ContractError::TargetNotAdmin);
        }
        if env.instance.revocation.is_some() {
            return Err(ContractError::ProposalAlreadyActive);
        }
        let mut votes: Vec<Address> = Vec::new();
        votes.push(proposer);
        let proposal = RevocationProposal {
            target,
            replacement,
            proposer,
            proposed_at: env.timestamp,
            votes,
        };
        env.instance.revocation = Some(proposal);
        proof {
            assert(votes@ =~= seq![proposer]);
        }
        Ok(())
    }

    /// Vote for the active revocation proposal. The vote that reaches the
    /// majority threshold makes the replacement the admin and closes the
    /// proposal.
    pub fn vote_revocation(env: &mut ContractEnv, voter: Address, sig_expires_at: u64) -> (r:
        Result<(), ContractError>)
        ensures
            final(env)@ == vote_revocation_step(old(env)@, voter, sig_expires_at).0,
            r == vote_revocation_step(old(env)@, voter, sig_expires_at).1,
    {
        if env.timestamp > sig_expires_at {
            return Err(ContractError::SignatureExpired);
        }
        require_auth(env, voter);
        let data = match Self::get_data(env) {
            Ok(d) => d,
            Err(e) => return Err(e),
        };
        if !Self::_is_signer(env, &voter) && data.admin != voter {
            return Err(ContractError::Unauthorized);
        }
        if env.instance.revocation.is_none() {
            return Err(ContractError::NoActiveProposal);
        }
        if Self::_has_voted(env, &voter) {
            return Err(ContractError::AlreadyVoted);
        }
        let threshold = Self::_revocation_threshold(env);
        let mut proposal = env.instance.revocation.take().unwrap();
        proposal.votes.push(voter);
        if proposal.votes.len() >= threshold {
            let mut contract_data = data;
            contract_data.admin = proposal.replacement;
            env.instance.data = Some(contract_data);
        } else {
            env.instance.revocation = Some(proposal);
        }
        Ok(())
    }

    /// Execute a revocation proposal that has reached the threshold.
    pub fn execute_revocation(env: &mut ContractEnv, caller: Address) -> (r: Result<(), ContractError>)
        ensures
            final(env)@ == execute_revocation_step(old(env)@, caller).0,
            r == execute_revocation_step(old(env)@, caller).1,
    {
        require_auth(env, caller);
        let data = match Self::get_data(env) {
            Ok(d) => d,
            Err(e) => return Err(e),
        };
        if !Self::_is_signer(env, &caller) && data.admin != caller {
            return Err(ContractError::Unauthorized);
        }
        let (replacement, votes) = match &env.instance.revocation {
            Some(p) => (p.replacement, p.votes.len()),
            None => return Err(ContractError::NoActiveProposal),
        };
        let threshold = Self::_revocation_threshold(env);
        if votes < threshold {
            return Err(ContractError::ThresholdNotReached);
        }
        let mut contract_data = data;
        contract_data.admin = replacement;
        env.instance.data = Some(contract_data);
        env.instance.revocation = None;
        Ok(())
    }

    /// Cancel the active revocation proposal. Only its proposer, or the admin
    /// when the admin is not its target, may cancel.
    pub fn cancel_revocation(env: &mut ContractEnv, caller: Address) -> (r: Result<(), ContractError>)
        ensures
            final(env)@ == cancel_revocation_step(old(env)@, caller).0,
            r == cancel_revocation_step(old(env)@, caller).1,
    {
        require_auth(env, caller);
        let data = match Self::get_data(env) {
            Ok(d) => d,
            Err(e) => return Err(e),
        };
        let (proposer, target) = match &env.instance.revocation {
            Some(p) => (p.proposer, p.target),
            None => return Err(ContractError::NoActiveProposal),
        };
        let is_proposer = proposer == caller;
        let is_admin_not_target = data.admin == caller && data.admin != target;
        if !is_proposer && !is_admin_not_target {
            return Err(ContractError::Unauthorized);
        }
        env.instance.revocation = None;
        Ok(())
    }

    /// The active revocation proposal, if any.
    pub fn get_revocation_proposal(env: &ContractEnv) -> (r: Option<RevocationProposal>)
        ensures
            proposal_view(r) == env@.instance.revocation,
    {
        match &env.instance.revocation {
            Some(p) => Some(p.copy()),
            None => None,
        }
    }

    // ── Private helpers ─────────────────────────────────────────────────────

    /// Record the current ledger timestamp as `asset`'s last heartbeat.
    fn _record_heartbeat(env: &mut ContractEnv, asset: Symbol)
        ensures
            final(env)@ == record_heartbeat(old(env)@, asset@),
    {
        let now = env.timestamp;
        env.temporary.heartbeats.set(asset, now);
        env.heartbeat_ttl = Some(
            TtlExtension { threshold: HEARTBEAT_TTL_THRESHOLD, extend_to: HEARTBEAT_TTL_LEDGERS },
        );
    }

    /// The heartbeat interval in force.
    fn _get_interval(env: &ContractEnv) -> (r: u64)
        ensures
            r == interval_of(env@.instance),
    {
        match env.instance.heartbeat_interval {
            Some(i) => i,
            None => DEFAULT_HEARTBEAT_INTERVAL,
        }
    }

    /// The registered signers.
    fn _get_signers(env: &ContractEnv) -> (r: Vec<Address>)
        ensures
            r@ == env@.instance.signers,
    {
        copy_addresses(&env.instance.signers)
    }

    /// Whether `addr` is a registered signer.
    fn _is_signer(env: &ContractEnv, addr: &Address) -> (r: bool)
        ensures
            r == is_signer(env@.instance, *addr),
    {
        contains_address(&env.instance.signers, addr)
    }

    /// Whether `voter` has voted for the active proposal.
    fn _has_voted(env: &ContractEnv, voter: &Address) -> (r: bool)
        requires
            env@.instance.revocation is Some,
        ensures
            r == env@.instance.revocation->Some_0.votes.contains(*voter),
    {
        match &env.instance.revocation {
            Some(p) => contains_address(&p.votes, voter),
            None => false,
        }
    }

    /// Majority threshold over the registered signers: `floor(n / 2) + 1`.
    fn _revocation_threshold(env: &ContractEnv) -> (r: usize)
        ensures
            r == revocation_threshold(env@.instance),
    {
        let n = env.instance.signers.len();
        n / 2 + 1
    }
}

/// Whether `a` occurs in `v`.
pub fn contains_address(v: &Vec<Address>, a: &Address) -> (r: bool)
    ensures
        r == v@.contains(*a),
{
    let n = v.len();
    let mut i: usize = 0;
    while i < n
        invariant
            n == v@.len(),
            i <= n,
            forall|j: int| 0 <= j < i ==> v@[j] != *a,
        decreases n - i,
    {
        if v[i] == *a {
            assert(v@[i as int] == *a);
            return true;
        }
        i = i + 1;
    }
    false
}

} // verus!
