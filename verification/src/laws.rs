//! Properties of the contract that span calls, proved over the step
//! functions of [`crate::model`] that the entry points' contracts state.

use vstd::prelude::*;

use crate::ledger::{fresh_ledger, next_invocation, EnvModel, InstanceModel};
use crate::auth::{multisig_approvals, require_multisig_step};
use crate::calls::{invoke, outcome, run, signed_nonce, Call};
use crate::model::{
    admin_gate, amount_or_zero, cancel_revocation_step, cancel_upgrade_step,
    execute_revocation_step, execute_upgrade_step, get_data_result, heartbeat_ttl, initialize_step,
    interval_of,
    is_fresh, is_signer, nonce_gate, nonce_of, propose_revocation_step, propose_upgrade_step,
    may_vote, register_signer_step, remove_signer_step, revocation_threshold, sat_sub,
    set_heartbeat_interval_step, set_value_step, stake_and_register_step, stake_asset,
    timelock_remaining, total_or_zero, unstake_step, upgrade_age, update_heartbeat_step, value_asset,
    vote_revocation_step, without, UPGRADE_DELAY_SECONDS,
};
use crate::storage::extended_lease;
use crate::types::{Address, ContractData, ContractError, PendingUpgrade, ProposalModel, WasmHash};

verus! {

// ── Failed calls ────────────────────────────────────────────────────────────

/// Storage, timestamp, requested code update and time-to-live extension are
/// the same in `a` and `b`: the two may differ only in the authorizations
/// demanded.
pub open spec fn same_ledger(a: EnvModel, b: EnvModel) -> bool {
    &&& a.timestamp == b.timestamp
    &&& a.instance == b.instance
    &&& a.heartbeats == b.heartbeats
    &&& a.wasm_update == b.wasm_update
    &&& a.heartbeat_ttl == b.heartbeat_ttl
}

/// `caller` is the admin of `e`, and `post` demanded `caller`'s
/// authorization after those `e` had demanded.
pub open spec fn admin_authorized(e: EnvModel, post: EnvModel, caller: Address) -> bool {
    &&& e.instance.data matches Some(d) && d.admin == caller
    &&& post.auths == e.auths.push(caller)
}

/// Administration calls: a call that fails changes no storage; a call that
/// succeeds was made by the admin, whose authorization it demanded.
pub proof fn law_admin_calls_guarded(
    e: EnvModel,
    caller: Address,
    value: u64,
    interval: u64,
    asset: Seq<u8>,
    signer: Address,
    nonce: u64,
    sig_expires_at: u64,
)
    ensures
        set_value_step(e, value, caller, nonce, sig_expires_at).1 is Err ==> same_ledger(
            e,
            set_value_step(e, value, caller, nonce, sig_expires_at).0,
        ),
        set_value_step(e, value, caller, nonce, sig_expires_at).1 is Ok ==> admin_authorized(
            e,
            set_value_step(e, value, caller, nonce, sig_expires_at).0,
            caller,
        ),
        update_heartbeat_step(e, asset, caller).1 is Err ==> same_ledger(
            e,
            update_heartbeat_step(e, asset, caller).0,
        ),
        update_heartbeat_step(e, asset, caller).1 is Ok ==> admin_authorized(
            e,
            update_heartbeat_step(e, asset, caller).0,
            caller,
        ),
        set_heartbeat_interval_step(e, interval, caller).1 is Err ==> same_ledger(
            e,
            set_heartbeat_interval_step(e, interval, caller).0,
        ),
        set_heartbeat_interval_step(e, interval, caller).1 is Ok ==> admin_authorized(
            e,
            set_heartbeat_interval_step(e, interval, caller).0,
            caller,
        ),
        register_signer_step(e, signer, caller).1 is Err ==> same_ledger(
            e,
            register_signer_step(e, signer, caller).0,
        ),
        register_signer_step(e, signer, caller).1 is Ok ==> admin_authorized(
            e,
            register_signer_step(e, signer, caller).0,
            caller,
        ),
        remove_signer_step(e, signer, caller).1 is Err ==> same_ledger(
            e,
            remove_signer_step(e, signer, caller).0,
        ),
        remove_signer_step(e, signer, caller).1 is Ok ==> admin_authorized(
            e,
            remove_signer_step(e, signer, caller).0,
            caller,
        ),
{
}

/// Upgrade calls: a call that fails changes no storage and requests no code
/// update; a call that succeeds was made by the admin, whose authorization it
/// demanded.
pub proof fn law_upgrade_calls_guarded(
    e: EnvModel,
    caller: Address,
    new_wasm_hash: WasmHash,
    nonce: u64,
    sig_expires_at: u64,
)
    ensures
        propose_upgrade_step(e, new_wasm_hash, caller, nonce, sig_expires_at).1 is Err
            ==> same_ledger(e, propose_upgrade_step(e, new_wasm_hash, caller, nonce, sig_expires_at).0),
        propose_upgrade_step(e, new_wasm_hash, caller, nonce, sig_expires_at).1 is Ok
            ==> admin_authorized(
            e,
            propose_upgrade_step(e, new_wasm_hash, caller, nonce, sig_expires_at).0,
            caller,
        ),
        execute_upgrade_step(e, caller, nonce, sig_expires_at).1 is Err ==> same_ledger(
            e,
            execute_upgrade_step(e, caller, nonce, sig_expires_at).0,
        ),
        execute_upgrade_step(e, caller, nonce, sig_expires_at).1 is Ok ==> admin_authorized(
            e,
            execute_upgrade_step(e, caller, nonce, sig_expires_at).0,
            caller,
        ),
        cancel_upgrade_step(e, caller).1 is Err ==> same_ledger(e, cancel_upgrade_step(e, caller).0),
        cancel_upgrade_step(e, caller).1 is Ok ==> admin_authorized(
            e,
            cancel_upgrade_step(e, caller).0,
            caller,
        ),
{
}

/// Initialization, staking, revocation and multi-signature calls that fail
/// change no storage.
pub proof fn law_failed_calls_change_no_storage(
    e: EnvModel,
    who: Address,
    other: Address,
    third: Address,
    amount: u64,
    sig_expires_at: u64,
    candidates: Seq<Address>,
)
    ensures
        initialize_step(e, who).1 is Err ==> same_ledger(e, initialize_step(e, who).0),
        stake_and_register_step(e, who, amount).1 is Err ==> same_ledger(
            e,
            stake_and_register_step(e, who, amount).0,
        ),
        unstake_step(e, who).1 is Err ==> same_ledger(e, unstake_step(e, who).0),
        propose_revocation_step(e, other, third, who, sig_expires_at).1 is Err ==> same_ledger(
            e,
            propose_revocation_step(e, other, third, who, sig_expires_at).0,
        ),
        vote_revocation_step(e, who, sig_expires_at).1 is Err ==> same_ledger(
            e,
            vote_revocation_step(e, who, sig_expires_at).0,
        ),
        execute_revocation_step(e, who).1 is Err ==> same_ledger(
            e,
            execute_revocation_step(e, who).0,
        ),
        cancel_revocation_step(e, who).1 is Err ==> same_ledger(
            e,
            cancel_revocation_step(e, who).0,
        ),
        same_ledger(e, require_multisig_step(e, candidates).0),
{
}

// ── Initialization and value ────────────────────────────────────────────────

/// A contract is initialized once: the admin it was initialized with is
/// stored with value 0, and every later initialization fails.
pub proof fn law_initialize_once(e: EnvModel, admin: Address, again: Address, t: u64)
    requires
        initialize_step(e, admin).1 is Ok,
    ensures
        ({
            let e1 = next_invocation(initialize_step(e, admin).0, t);
            &&& get_data_result(e1) == Ok::<ContractData, ContractError>(
                ContractData { admin, value: 0 },
            )
            &&& initialize_step(e1, again).1 == Err::<(), ContractError>(
                ContractError::AlreadyInitialized,
            )
        }),
{
}

/// After the admin sets the value, the stored data reads back that value.
pub proof fn law_set_value_reads_back(
    e: EnvModel,
    value: u64,
    setter: Address,
    nonce: u64,
    sig_expires_at: u64,
    t: u64,
)
    requires
        set_value_step(e, value, setter, nonce, sig_expires_at).1 is Ok,
    ensures
        get_data_result(next_invocation(set_value_step(e, value, setter, nonce, sig_expires_at).0, t))
            == Ok::<ContractData, ContractError>(ContractData { admin: setter, value }),
{
}

// ── Replay protection ───────────────────────────────────────────────────────

/// A signed call that succeeds moves its signer's nonce on by one, so the
/// same nonce is refused afterwards.
pub proof fn law_nonce_used_once(
    e: EnvModel,
    signer: Address,
    value: u64,
    new_wasm_hash: WasmHash,
    nonce: u64,
    sig_expires_at: u64,
    t: u64,
    later_expiry: u64,
)
    requires
        t <= later_expiry,
    ensures
        set_value_step(e, value, signer, nonce, sig_expires_at).1 is Ok ==> ({
            let e1 = next_invocation(set_value_step(e, value, signer, nonce, sig_expires_at).0, t);
            &&& nonce_of(e1.instance, signer) == nonce + 1
            &&& set_value_step(e1, value, signer, nonce, later_expiry).1 == Err::<(), ContractError>(
                ContractError::InvalidNonce,
            )
        }),
        propose_upgrade_step(e, new_wasm_hash, signer, nonce, sig_expires_at).1 is Ok ==> ({
            let e1 = next_invocation(
                propose_upgrade_step(e, new_wasm_hash, signer, nonce, sig_expires_at).0,
                t,
            );
            &&& nonce_of(e1.instance, signer) == nonce + 1
            &&& propose_upgrade_step(e1, new_wasm_hash, signer, nonce, later_expiry).1 == Err::<
                (),
                ContractError,
            >(ContractError::InvalidNonce)
        }),
        execute_upgrade_step(e, signer, nonce, sig_expires_at).1 is Ok ==> ({
            let e1 = next_invocation(execute_upgrade_step(e, signer, nonce, sig_expires_at).0, t);
            &&& nonce_of(e1.instance, signer) == nonce + 1
            &&& execute_upgrade_step(e1, signer, nonce, later_expiry).1 == Err::<(), ContractError>(
                ContractError::InvalidNonce,
            )
        }),
{
}

// ── Time-locked upgrades ────────────────────────────────────────────────────

/// A proposed upgrade waits out the full timelock: right after the proposal
/// at `e.timestamp`, and at any later time `t`, the time remaining is the
/// delay less the time passed since the proposal, and 0 once it has passed.
pub proof fn law_proposal_starts_timelock(
    e: EnvModel,
    new_wasm_hash: WasmHash,
    proposer: Address,
    nonce: u64,
    sig_expires_at: u64,
    t: u64,
)
    requires
        propose_upgrade_step(e, new_wasm_hash, proposer, nonce, sig_expires_at).1 is Ok,
    ensures
        timelock_remaining(
            next_invocation(propose_upgrade_step(e, new_wasm_hash, proposer, nonce, sig_expires_at).0, t),
        ) == Some(
            if sat_sub(t, e.timestamp) < UPGRADE_DELAY_SECONDS {
                (UPGRADE_DELAY_SECONDS - sat_sub(t, e.timestamp)) as u64
            } else {
                0u64
            },
        ),
{
}

/// When the admin executes with a valid nonce and signature, the upgrade
/// succeeds exactly when the reported remaining time is 0; it then requests
/// the proposed code and clears the proposal.
pub proof fn law_execute_upgrade_after_timelock(
    e: EnvModel,
    executor: Address,
    nonce: u64,
    sig_expires_at: u64,
)
    requires
        e.timestamp <= sig_expires_at,
        admin_gate(e.instance, executor) is Ok,
        nonce_gate(e.instance, executor, nonce) is Ok,
        e.instance.pending_upgrade is Some,
    ensures
        (execute_upgrade_step(e, executor, nonce, sig_expires_at).1 is Ok) == (timelock_remaining(e)
            == Some(0u64)),
        execute_upgrade_step(e, executor, nonce, sig_expires_at).1 is Ok ==> {
            let post = execute_upgrade_step(e, executor, nonce, sig_expires_at).0;
            &&& post.wasm_update == Some(e.instance.pending_upgrade->Some_0.new_wasm_hash)
            &&& post.instance.pending_upgrade is None
        },
        execute_upgrade_step(e, executor, nonce, sig_expires_at).1 is Err ==> execute_upgrade_step(
            e,
            executor,
            nonce,
            sig_expires_at,
        ).1 == Err::<(), ContractError>(ContractError::UpgradeTimelockNotSatisfied),
{
}

// ── Heartbeats ──────────────────────────────────────────────────────────────

/// After a heartbeat of `asset` at time `e.timestamp`, the asset's last update
/// reads that time, and the asset is fresh at a later time `t` exactly while
/// no more than the heartbeat interval has passed. The heartbeat asks for the
/// heartbeat entry's time-to-live to be extended.
pub proof fn law_heartbeat_fresh_within_interval(
    e: EnvModel,
    asset: Seq<u8>,
    updater: Address,
    t: u64,
)
    requires
        update_heartbeat_step(e, asset, updater).1 is Ok,
    ensures
        ({
            let e1 = next_invocation(update_heartbeat_step(e, asset, updater).0, t);
            &&& update_heartbeat_step(e, asset, updater).0.heartbeat_ttl == Some(heartbeat_ttl())
            &&& e1.heartbeats.get(asset) == Some(e.timestamp)
            &&& is_fresh(e1, asset) == (sat_sub(t, e.timestamp) <= interval_of(e.instance))
        }),
{
}

/// Setting the value records a heartbeat of `VALUE`; registering a stake
/// records a heartbeat of `STAKE`; both at the invocation's timestamp, which
/// leaves the asset fresh at that timestamp.
pub proof fn law_state_changes_record_heartbeat(
    e: EnvModel,
    value: u64,
    setter: Address,
    nonce: u64,
    sig_expires_at: u64,
    node: Address,
    amount: u64,
)
    ensures
        set_value_step(e, value, setter, nonce, sig_expires_at).1 is Ok ==> ({
            let post = set_value_step(e, value, setter, nonce, sig_expires_at).0;
            post.heartbeats.get(value_asset()) == Some(e.timestamp) && is_fresh(post, value_asset())
        }),
        stake_and_register_step(e, node, amount).1 is Ok ==> ({
            let post = stake_and_register_step(e, node, amount).0;
            post.heartbeats.get(stake_asset()) == Some(e.timestamp) && is_fresh(post, stake_asset())
        }),
{
}

/// A heartbeat interval that was set is the interval in force.
pub proof fn law_interval_reads_back(e: EnvModel, interval: u64, setter: Address, t: u64)
    requires
        set_heartbeat_interval_step(e, interval, setter).1 is Ok,
    ensures
        interval > 0,
        interval_of(next_invocation(set_heartbeat_interval_step(e, interval, setter).0, t).instance)
            == interval,
{
}

// ── Signers ─────────────────────────────────────────────────────────────────

/// Registering a signer twice leaves the same signers as registering once.
pub proof fn law_register_signer_idempotent(e: EnvModel, signer: Address, caller: Address, t: u64)
    requires
        register_signer_step(e, signer, caller).1 is Ok,
    ensures
        ({
            let e1 = next_invocation(register_signer_step(e, signer, caller).0, t);
            &&& register_signer_step(e1, signer, caller).1 is Ok
            &&& register_signer_step(e1, signer, caller).0.instance == e1.instance
            &&& is_signer(e1.instance, signer)
        }),
{
    let s = e.instance.signers;
    if !s.contains(signer) {
        assert(s.push(signer)[s.len() as int] == signer);
    }
}

/// Registration and removal keep every signer registered once, and a
/// removed signer is no longer registered.
pub proof fn law_signers_distinct(e: EnvModel, signer: Address, caller: Address)
    requires
        e.instance.signers.no_duplicates(),
    ensures
        register_signer_step(e, signer, caller).0.instance.signers.no_duplicates(),
        remove_signer_step(e, signer, caller).0.instance.signers.no_duplicates(),
        remove_signer_step(e, signer, caller).1 is Ok ==> !is_signer(
            remove_signer_step(e, signer, caller).0.instance,
            signer,
        ),
{
    lemma_without(e.instance.signers, signer);
}

/// `without(s, a)` holds the elements of `s` other than `a`, each as often as
/// in `s` (so at most once where `s` holds each once).
pub proof fn lemma_without(s: Seq<Address>, a: Address)
    ensures
        !without(s, a).contains(a),
        forall|x: Address| x != a ==> (without(s, a).contains(x) == s.contains(x)),
        s.no_duplicates() ==> without(s, a).no_duplicates(),
    decreases s.len(),
{
    reveal_with_fuel(Seq::<_>::filter, 1);
    if s.len() > 0 {
        let p = s.drop_last();
        lemma_without(p, a);
        assert(s =~= p.push(s.last()));
        let wp = without(p, a);
        if s.last() != a {
            assert(without(s, a) == wp.push(s.last()));
            assert(wp.push(s.last())[wp.len() as int] == s.last());
        } else {
            assert(without(s, a) == wp);
        }
        assert forall|x: Address| x != a implies (without(s, a).contains(x) == s.contains(x)) by {
            if s.contains(x) {
                let i = choose|i: int| 0 <= i < s.len() && s[i] == x;
                if i < p.len() {
                    assert(p[i] == x);
                    assert(p.contains(x));
                    assert(wp.contains(x));
                    let j = choose|j: int| 0 <= j < wp.len() && wp[j] == x;
                    assert(without(s, a)[j] == x);
                } else {
                    assert(x == s.last());
                }
            }
            if without(s, a).contains(x) {
                if x == s.last() {
                    assert(s[s.len() - 1] == x);
                } else {
                    let j = choose|j: int| 0 <= j < without(s, a).len() && without(s, a)[j] == x;
                    assert(wp[j] == x);
                    assert(wp.contains(x));
                    assert(p.contains(x));
                    let i = choose|i: int| 0 <= i < p.len() && p[i] == x;
                    assert(s[i] == x);
                }
            }
        }
        if s.no_duplicates() {
            assert(p.no_duplicates()) by {
                assert forall|i: int, j: int|
                    0 <= i < p.len() && 0 <= j < p.len() && i != j implies p[i] != p[j] by {
                    assert(s[i] == p[i] && s[j] == p[j]);
                }
            }
            if s.last() != a {
                assert(!p.contains(s.last())) by {
                    if p.contains(s.last()) {
                        let i = choose|i: int| 0 <= i < p.len() && p[i] == s.last();
                        assert(s[i] == s[s.len() - 1]);
                    }
                }
                assert(!without(p, a).contains(s.last()));
            }
        }
    } else {
        assert(without(s, a) =~= s);
    }
}

// ── Emergency revocation ────────────────────────────────────────────────────

/// No address votes twice on a proposal.
pub open spec fn votes_distinct(i: InstanceModel) -> bool {
    i.revocation matches Some(p) ==> p.votes.no_duplicates()
}

/// A new proposal targets the admin and counts its proposer's vote alone.
pub proof fn law_proposal_counts_proposer(
    e: EnvModel,
    target: Address,
    replacement: Address,
    proposer: Address,
    sig_expires_at: u64,
)
    requires
        propose_revocation_step(e, target, replacement, proposer, sig_expires_at).1 is Ok,
    ensures
        propose_revocation_step(e, target, replacement, proposer, sig_expires_at).0.instance.revocation
            == Some(
            ProposalModel {
                target,
                replacement,
                proposer,
                proposed_at: e.timestamp,
                votes: seq![proposer],
            },
        ),
        e.instance.data matches Some(d) && d.admin == target,
{
}

/// Only a registered signer or the admin can propose, vote on or execute a
/// revocation, and only the proposer, or the admin when not targeted, can
/// cancel one; each such call demands the caller's authorization.
pub proof fn law_revocation_calls_guarded(
    e: EnvModel,
    who: Address,
    target: Address,
    replacement: Address,
    sig_expires_at: u64,
)
    ensures
        propose_revocation_step(e, target, replacement, who, sig_expires_at).1 is Ok ==> {
            &&& e.instance.data matches Some(d) && may_vote(e.instance, d, who)
            &&& propose_revocation_step(e, target, replacement, who, sig_expires_at).0.auths
                == e.auths.push(who)
        },
        vote_revocation_step(e, who, sig_expires_at).1 is Ok ==> {
            &&& e.instance.data matches Some(d) && may_vote(e.instance, d, who)
            &&& vote_revocation_step(e, who, sig_expires_at).0.auths == e.auths.push(who)
        },
        execute_revocation_step(e, who).1 is Ok ==> {
            &&& e.instance.data matches Some(d) && may_vote(e.instance, d, who)
            &&& execute_revocation_step(e, who).0.auths == e.auths.push(who)
        },
        cancel_revocation_step(e, who).1 is Ok ==> {
            &&& e.instance.data matches Some(d) && (e.instance.revocation->Some_0.proposer == who || (
            d.admin == who && d.admin != e.instance.revocation->Some_0.target))
            &&& cancel_revocation_step(e, who).0.auths == e.auths.push(who)
        },
{
}

/// Every revocation call keeps each vote counted once.
pub proof fn law_votes_counted_once(
    e: EnvModel,
    who: Address,
    target: Address,
    replacement: Address,
    sig_expires_at: u64,
)
    requires
        votes_distinct(e.instance),
    ensures
        votes_distinct(propose_revocation_step(e, target, replacement, who, sig_expires_at).0.instance),
        votes_distinct(vote_revocation_step(e, who, sig_expires_at).0.instance),
        votes_distinct(execute_revocation_step(e, who).0.instance),
        votes_distinct(cancel_revocation_step(e, who).0.instance),
{
    if let Some(p) = e.instance.revocation {
        if !p.votes.contains(who) {
            assert(p.votes.push(who).no_duplicates()) by {
                assert forall|i: int, j: int|
                    0 <= i < p.votes.len() + 1 && 0 <= j < p.votes.len() + 1 && i != j implies p.votes.push(
                    who,
                )[i] != p.votes.push(who)[j] by {
                    if i < p.votes.len() && j == p.votes.len() {
                        assert(p.votes[i] != who);
                    } else if j < p.votes.len() && i == p.votes.len() {
                        assert(p.votes[j] != who);
                    }
                }
            }
        }
    }
}

/// The vote that brings a proposal to a strict majority of the registered
/// signers makes its replacement the admin and closes it; after that the
/// replaced admin (if it is not also the replacement) can no longer act as
/// admin.
pub proof fn law_majority_vote_replaces_admin(
    e: EnvModel,
    voter: Address,
    sig_expires_at: u64,
    old_admin: Address,
)
    requires
        vote_revocation_step(e, voter, sig_expires_at).1 is Ok,
        e.instance.data matches Some(d) && d.admin == old_admin,
    ensures
        ({
            let p = e.instance.revocation->Some_0;
            let post = vote_revocation_step(e, voter, sig_expires_at).0;
            if p.votes.len() + 1 >= revocation_threshold(e.instance) {
                &&& post.instance.data matches Some(d) && d.admin == p.replacement
                &&& post.instance.revocation is None
                &&& p.replacement != old_admin ==> admin_gate(post.instance, old_admin) == Err::<
                    ContractData,
                    ContractError,
                >(ContractError::NotAdmin)
            } else {
                &&& post.instance.data == e.instance.data
                &&& post.instance.revocation == Some(ProposalModel { votes: p.votes.push(voter), ..p })
            }
        }),
{
}

/// Executing a proposal needs a strict majority of votes; it then makes the
/// replacement the admin and closes the proposal.
pub proof fn law_execute_revocation_needs_majority(e: EnvModel, caller: Address)
    requires
        execute_revocation_step(e, caller).1 is Ok,
    ensures
        ({
            let p = e.instance.revocation->Some_0;
            let post = execute_revocation_step(e, caller).0;
            &&& p.votes.len() >= revocation_threshold(e.instance)
            &&& post.instance.data matches Some(d) && d.admin == p.replacement
            &&& post.instance.revocation is None
        }),
{
}

// ── Multi-signature ─────────────────────────────────────────────────────────

/// The approvals of a multi-signature confirmation are exactly the distinct
/// candidates that are registered signers or the admin, each counted once.
pub proof fn law_multisig_counts_distinct_approvers(
    candidates: Seq<Address>,
    i: InstanceModel,
    admin: Address,
)
    ensures
        multisig_approvals(candidates, i, admin).no_duplicates(),
        forall|a: Address|
            multisig_approvals(candidates, i, admin).contains(a) == (candidates.contains(a) && (
            is_signer(i, a) || a == admin)),
    decreases candidates.len(),
{
    if candidates.len() > 0 {
        let p = candidates.drop_last();
        let c = candidates.last();
        law_multisig_counts_distinct_approvers(p, i, admin);
        let prev = multisig_approvals(p, i, admin);
        assert(candidates =~= p.push(c));
        assert forall|a: Address|
            multisig_approvals(candidates, i, admin).contains(a) == (candidates.contains(a) && (
            is_signer(i, a) || a == admin)) by {
            let approvals = multisig_approvals(candidates, i, admin);
            if candidates.contains(a) && a != c {
                let k = choose|k: int| 0 <= k < candidates.len() && candidates[k] == a;
                assert(p[k] == a);
            }
            if p.contains(a) {
                let k = choose|k: int| 0 <= k < p.len() && p[k] == a;
                assert(candidates[k] == a);
            }
            if (is_signer(i, c) || c == admin) && !prev.contains(c) {
                assert(approvals == prev.push(c));
                assert(prev.push(c)[prev.len() as int] == c);
                if prev.contains(a) {
                    let k = choose|k: int| 0 <= k < prev.len() && prev[k] == a;
                    assert(approvals[k] == a);
                }
                if approvals.contains(a) && a != c {
                    let k = choose|k: int| 0 <= k < approvals.len() && approvals[k] == a;
                    assert(prev[k] == a);
                }
            } else {
                assert(approvals == prev);
            }
            if a == c && candidates.contains(a) && (is_signer(i, a) || a == admin) {
                assert(candidates[candidates.len() - 1] == a);
            }
        }
        if (is_signer(i, c) || c == admin) && !prev.contains(c) {
            assert(prev.push(c).no_duplicates()) by {
                assert forall|x: int, y: int|
                    0 <= x < prev.len() + 1 && 0 <= y < prev.len() + 1 && x != y implies prev.push(
                    c,
                )[x] != prev.push(c)[y] by {
                    if x < prev.len() && y == prev.len() {
                        assert(prev[x] != c);
                    } else if y < prev.len() && x == prev.len() {
                        assert(prev[y] != c);
                    }
                }
            }
        }
    }
}

// ── Leases ──────────────────────────────────────────────────────────────────

/// Extending a lease never shortens it.
pub proof fn law_lease_never_shrinks(leases: Map<Address, u64>, consumer: Address, frequency: u64)
    ensures
        extended_lease(leases, consumer, frequency) >= amount_or_zero(leases, consumer),
{
}

// ── Staking ─────────────────────────────────────────────────────────────────

/// The sum of the staked amounts.
pub open spec fn stake_sum(m: Map<Address, u64>) -> int
    decreases m.len(),
    when m.dom().finite()
{
    if m.len() == 0 {
        0
    } else {
        let k = m.dom().choose();
        m[k] + stake_sum(m.remove(k))
    }
}

/// The recorded total equals the sum of the registered stakes.
pub open spec fn stakes_balanced(i: InstanceModel) -> bool {
    &&& i.stakes.dom().finite()
    &&& total_or_zero(i) == stake_sum(i.stakes)
}

/// Taking out any one stake leaves the sum of the others.
pub proof fn lemma_stake_sum_remove(m: Map<Address, u64>, k: Address)
    requires
        m.dom().finite(),
        m.contains_key(k),
    ensures
        stake_sum(m) == m[k] + stake_sum(m.remove(k)),
        stake_sum(m.remove(k)) >= 0,
    decreases m.len(),
{
    let c = m.dom().choose();
    assert(m.dom().contains(c));
    if c == k {
        lemma_stake_sum_nonnegative(m.remove(k));
    } else {
        lemma_stake_sum_remove(m.remove(c), k);
        lemma_stake_sum_remove(m.remove(k), c);
        assert(m.remove(c).remove(k) =~= m.remove(k).remove(c));
    }
}

/// A sum of stakes is never negative.
pub proof fn lemma_stake_sum_nonnegative(m: Map<Address, u64>)
    requires
        m.dom().finite(),
    ensures
        stake_sum(m) >= 0,
    decreases m.len(),
{
    if m.len() != 0 {
        let c = m.dom().choose();
        assert(m.dom().contains(c));
        lemma_stake_sum_nonnegative(m.remove(c));
    }
}

/// Registering a new stake adds it to the sum.
pub proof fn lemma_stake_sum_insert(m: Map<Address, u64>, k: Address, v: u64)
    requires
        m.dom().finite(),
        !m.contains_key(k),
    ensures
        stake_sum(m.insert(k, v)) == stake_sum(m) + v,
{
    lemma_stake_sum_remove(m.insert(k, v), k);
    assert(m.insert(k, v).remove(k) =~= m);
}

/// A contract with no stake registered is balanced.
pub proof fn law_no_stakes_balanced(i: InstanceModel)
    requires
        i.stakes == Map::<Address, u64>::empty(),
        i.total_staked is None,
    ensures
        stakes_balanced(i),
{
    assert(i.stakes.dom() =~= Set::<Address>::empty());
}

/// `stake_and_register`, whatever its outcome, keeps the recorded total equal
/// to the sum of the registered stakes.
pub proof fn law_stake_keeps_total_balanced(e: EnvModel, node: Address, amount: u64)
    requires
        stakes_balanced(e.instance),
    ensures
        stakes_balanced(stake_and_register_step(e, node, amount).0.instance),
{
    if amount != 0 && !e.instance.stakes.contains_key(node) && total_or_zero(e.instance) + amount
        <= u64::MAX {
        lemma_stake_sum_insert(e.instance.stakes, node, amount);
    }
}

/// `unstake`, whatever its outcome, keeps the recorded total equal to the sum
/// of the registered stakes.
pub proof fn law_unstake_keeps_total_balanced(e: EnvModel, node: Address)
    requires
        stakes_balanced(e.instance),
    ensures
        stakes_balanced(unstake_step(e, node).0.instance),
{
    if e.instance.stakes.contains_key(node) {
        lemma_stake_sum_remove(e.instance.stakes, node);
    }
}

/// Unstaking a node right after registering it hands its stake back and
/// restores the stakes and the total as they were.
pub proof fn law_unstake_undoes_stake(e: EnvModel, node: Address, amount: u64, t: u64)
    requires
        stake_and_register_step(e, node, amount).1 is Ok,
    ensures
        ({
            let e1 = next_invocation(stake_and_register_step(e, node, amount).0, t);
            let e2 = unstake_step(e1, node).0;
            &&& unstake_step(e1, node).1 == Ok::<u64, ContractError>(amount)
            &&& e2.instance.stakes == e.instance.stakes
            &&& total_or_zero(e2.instance) == total_or_zero(e.instance)
            &&& amount_or_zero(e2.instance.stakes, node) == 0
        }),
{
    let e1 = next_invocation(stake_and_register_step(e, node, amount).0, t);
    assert(e1.instance.stakes.get(node) == Some(amount));
    assert(e.instance.stakes.insert(node, amount).remove(node) =~= e.instance.stakes);
}


// ── Replay protection over any sequence of calls ───────────────────────────

/// No call lowers any address's nonce.
pub proof fn law_call_never_lowers_nonces(e: EnvModel, c: Call, a: Address)
    ensures
        nonce_of(outcome(e, c).0.instance, a) >= nonce_of(e.instance, a),
{
}

/// No sequence of calls lowers any address's nonce.
pub proof fn law_calls_never_lower_nonces(e: EnvModel, calls: Seq<(u64, Call)>, a: Address)
    ensures
        nonce_of(run(e, calls).instance, a) >= nonce_of(e.instance, a),
    decreases calls.len(),
{
    if calls.len() > 0 {
        law_calls_never_lower_nonces(e, calls.drop_last(), a);
        law_call_never_lowers_nonces(
            next_invocation(run(e, calls.drop_last()), calls.last().0),
            calls.last().1,
            a,
        );
    }
}

/// A signed call (set the value, propose or execute an upgrade) succeeds only
/// with its signer's current nonce, and moves that nonce on by one; with a
/// nonce below the current one it fails and changes no storage.
pub proof fn law_signed_call_uses_nonce(e: EnvModel, c: Call, a: Address, n: u64)
    requires
        signed_nonce(c) == Some((a, n)),
    ensures
        outcome(e, c).1 ==> nonce_of(e.instance, a) == n && nonce_of(outcome(e, c).0.instance, a)
            == n + 1,
        nonce_of(e.instance, a) > n ==> !outcome(e, c).1 && same_ledger(e, outcome(e, c).0),
{
}

/// Once a signed call has succeeded, a call signed by the same signer with
/// the same nonce fails and changes no storage, whatever calls came between.
pub proof fn law_signed_call_never_replayed(
    e: EnvModel,
    first: (u64, Call),
    calls: Seq<(u64, Call)>,
    again: (u64, Call),
)
    requires
        invoke(e, first).1,
        signed_nonce(first.1) is Some,
        signed_nonce(again.1) == signed_nonce(first.1),
    ensures
        ({
            let e2 = run(invoke(e, first).0, calls);
            &&& !invoke(e2, again).1
            &&& same_ledger(next_invocation(e2, again.0), invoke(e2, again).0)
        }),
{
    let (a, n) = signed_nonce(first.1)->Some_0;
    law_signed_call_uses_nonce(next_invocation(e, first.0), first.1, a, n);
    law_calls_never_lower_nonces(invoke(e, first).0, calls, a);
    let e2 = run(invoke(e, first).0, calls);
    law_signed_call_uses_nonce(next_invocation(e2, again.0), again.1, a, n);
}


// ── Time-locked upgrades over any sequence of calls ─────────────────────────

/// The upgrade an invocation proposes, if it is a proposal.
pub open spec fn proposed_upgrade(inv: (u64, Call)) -> Option<PendingUpgrade> {
    match inv.1 {
        Call::ProposeUpgrade { new_wasm_hash, proposer, .. } => Some(
            PendingUpgrade { new_wasm_hash, proposed_at: inv.0, proposer },
        ),
        _ => None,
    }
}

/// Only a successful proposal sets the pending upgrade, to what it proposed
/// at its timestamp; only a successful cancel or execution clears it; only a
/// successful execution of an upgrade pending for the full delay requests
/// new code, the pending one.
pub proof fn law_only_upgrade_calls_change_pending(e: EnvModel, c: Call)
    ensures
        outcome(e, c).0.instance.pending_upgrade != e.instance.pending_upgrade ==> {
            ||| (proposed_upgrade((e.timestamp, c)) is Some && outcome(e, c).1
                && outcome(e, c).0.instance.pending_upgrade == proposed_upgrade((e.timestamp, c)))
            ||| ((c is CancelUpgrade || c is ExecuteUpgrade) && outcome(e, c).1
                && outcome(e, c).0.instance.pending_upgrade is None)
        },
        outcome(e, c).0.wasm_update != e.wasm_update ==> {
            &&& c is ExecuteUpgrade
            &&& outcome(e, c).1
            &&& e.instance.pending_upgrade matches Some(p) && outcome(e, c).0.wasm_update == Some(
                p.new_wasm_hash,
            ) && upgrade_age(e, p) >= UPGRADE_DELAY_SECONDS
            &&& outcome(e, c).0.instance.pending_upgrade is None
        },
{
}

/// Invocation `k` of `calls`, run from `e0`, successfully proposed `p`, and
/// `p` is the pending upgrade after each later invocation.
pub open spec fn proposal_stands(e0: EnvModel, calls: Seq<(u64, Call)>, k: int, p: PendingUpgrade) -> bool {
    &&& 0 <= k < calls.len()
    &&& proposed_upgrade(calls[k]) == Some(p)
    &&& invoke(run(e0, calls.take(k)), calls[k]).1
    &&& forall|j: int|
        k < j <= calls.len() ==> #[trigger] run(e0, calls.take(j)).instance.pending_upgrade == Some(
            p,
        )
}

/// From a ledger without a pending upgrade, any upgrade pending after a
/// sequence of calls was proposed by one of them, and no later call
/// cancelled, executed or replaced it.
pub proof fn law_pending_upgrade_was_proposed(e0: EnvModel, calls: Seq<(u64, Call)>)
    requires
        e0.instance.pending_upgrade is None,
    ensures
        run(e0, calls).instance.pending_upgrade matches Some(p) ==> exists|k: int|
            proposal_stands(e0, calls, k, p),
    decreases calls.len(),
{
    if calls.len() > 0 {
        let pre = calls.drop_last();
        let n = pre.len() as int;
        law_pending_upgrade_was_proposed(e0, pre);
        assert forall|j: int| 0 <= j <= n implies calls.take(j) == pre.take(j) by {
            assert(calls.take(j) =~= pre.take(j));
        }
        assert(calls.take(n) =~= pre);
        assert(calls.take(n + 1) =~= calls);
        assert(calls.last() == calls[n]);
        let ei = next_invocation(run(e0, pre), calls[n].0);
        law_only_upgrade_calls_change_pending(ei, calls[n].1);
        if let Some(p) = run(e0, calls).instance.pending_upgrade {
            if run(e0, pre).instance.pending_upgrade == Some(p) {
                let k = choose|k: int| proposal_stands(e0, pre, k, p);
                assert(calls[k] == pre[k]);
                assert(calls.take(k) == pre.take(k));
                assert forall|j: int| k < j <= calls.len() implies #[trigger] run(
                    e0,
                    calls.take(j),
                ).instance.pending_upgrade == Some(p) by {
                    if j <= n {
                        assert(calls.take(j) == pre.take(j));
                    }
                }
                assert(proposal_stands(e0, calls, k, p));
            } else {
                assert(calls.take(n) == pre);
                assert forall|j: int| n < j <= calls.len() implies #[trigger] run(
                    e0,
                    calls.take(j),
                ).instance.pending_upgrade == Some(p) by {
                    assert(j == n + 1);
                }
                assert(proposal_stands(e0, calls, n, p));
            }
        }
    }
}

/// From a ledger without a pending upgrade, after any sequence of calls, an
/// execution at time `t` succeeds only for an upgrade that one of the calls
/// proposed at least the full delay before `t` and that stood unchanged
/// since; it requests that upgrade's code.
pub proof fn law_upgrade_executes_only_aged_proposal(
    e0: EnvModel,
    calls: Seq<(u64, Call)>,
    t: u64,
    executor: Address,
    nonce: u64,
    sig_expires_at: u64,
)
    requires
        e0.instance.pending_upgrade is None,
        execute_upgrade_step(next_invocation(run(e0, calls), t), executor, nonce, sig_expires_at).1 is Ok,
    ensures
        exists|k: int, p: PendingUpgrade|
            {
                &&& proposal_stands(e0, calls, k, p)
                &&& p.proposed_at + UPGRADE_DELAY_SECONDS <= t
                &&& execute_upgrade_step(
                    next_invocation(run(e0, calls), t),
                    executor,
                    nonce,
                    sig_expires_at,
                ).0.wasm_update == Some(p.new_wasm_hash)
            },
{
    law_pending_upgrade_was_proposed(e0, calls);
    let p = run(e0, calls).instance.pending_upgrade->Some_0;
    let k = choose|k: int| proposal_stands(e0, calls, k, p);
    assert(proposal_stands(e0, calls, k, p));
}


// ── Well-formed ledgers ─────────────────────────────────────────────────────

/// A well-formed ledger: the recorded total stake is the sum of the stakes,
/// every stake is positive, a configured heartbeat interval is positive,
/// every signer is registered once and every vote on a proposal counted once.
pub open spec fn ledger_wf(e: EnvModel) -> bool {
    &&& stakes_balanced(e.instance)
    &&& forall|a: Address| #[trigger] e.instance.stakes.contains_key(a) ==> e.instance.stakes[a] > 0
    &&& e.instance.heartbeat_interval matches Some(v) ==> v > 0
    &&& e.instance.signers.no_duplicates()
    &&& votes_distinct(e.instance)
}

/// A freshly deployed contract's ledger is well-formed.
pub proof fn law_fresh_ledger_wf(t: u64)
    ensures
        ledger_wf(fresh_ledger(t)),
{
    law_no_stakes_balanced(fresh_ledger(t).instance);
}

/// Every call keeps the ledger well-formed, whatever its outcome.
pub proof fn law_call_keeps_ledger_wf(e: EnvModel, c: Call)
    requires
        ledger_wf(e),
    ensures
        ledger_wf(outcome(e, c).0),
{
    match c {
        Call::StakeAndRegister { node, amount } => {
            law_stake_keeps_total_balanced(e, node, amount);
        },
        Call::Unstake { node } => {
            law_unstake_keeps_total_balanced(e, node);
        },
        Call::RegisterSigner { signer, caller } => {
            law_signers_distinct(e, signer, caller);
        },
        Call::RemoveSigner { signer, caller } => {
            law_signers_distinct(e, signer, caller);
        },
        Call::ProposeRevocation { target, replacement, proposer, sig_expires_at } => {
            law_votes_counted_once(e, proposer, target, replacement, sig_expires_at);
        },
        Call::VoteRevocation { voter, sig_expires_at } => {
            law_votes_counted_once(e, voter, voter, voter, sig_expires_at);
        },
        Call::ExecuteRevocation { caller } => {
            law_votes_counted_once(e, caller, caller, caller, 0);
        },
        Call::CancelRevocation { caller } => {
            law_votes_counted_once(e, caller, caller, caller, 0);
        },
        _ => {},
    }
}

/// Every sequence of calls keeps the ledger well-formed.
pub proof fn law_calls_keep_ledger_wf(e: EnvModel, calls: Seq<(u64, Call)>)
    requires
        ledger_wf(e),
    ensures
        ledger_wf(run(e, calls)),
    decreases calls.len(),
{
    if calls.len() > 0 {
        law_calls_keep_ledger_wf(e, calls.drop_last());
        law_call_keeps_ledger_wf(
            next_invocation(run(e, calls.drop_last()), calls.last().0),
            calls.last().1,
        );
    }
}

/// In a well-formed ledger a node's stake reads 0 exactly when it is not
/// registered, and the heartbeat interval in force is at least one second.
pub proof fn law_wf_ledger_reads(e: EnvModel, node: Address)
    requires
        ledger_wf(e),
    ensures
        (amount_or_zero(e.instance.stakes, node) == 0) == !e.instance.stakes.contains_key(node),
        interval_of(e.instance) >= 1,
{
}


// ── Behaviour stated directly over inputs and results ──────────────────────

/// A vote on an open proposal, by a registered signer or the admin who has
/// not voted yet, succeeds; it makes the proposal's replacement the admin and
/// closes the proposal exactly when the votes then are more than half of the
/// registered signers, and otherwise records the vote and leaves the admin.
pub proof fn law_vote_passes_with_strict_majority(
    e: EnvModel,
    voter: Address,
    sig_expires_at: u64,
    d: ContractData,
    p: ProposalModel,
)
    requires
        e.timestamp <= sig_expires_at,
        e.instance.data == Some(d),
        e.instance.signers.contains(voter) || d.admin == voter,
        e.instance.revocation == Some(p),
        !p.votes.contains(voter),
    ensures
        ({
            let (post, r) = vote_revocation_step(e, voter, sig_expires_at);
            &&& r is Ok
            &&& post.auths == e.auths.push(voter)
            &&& if 2 * (p.votes.len() + 1) > e.instance.signers.len() {
                &&& post.instance.data == Some(ContractData { admin: p.replacement, value: d.value })
                &&& post.instance.revocation is None
            } else {
                &&& post.instance.data == Some(d)
                &&& post.instance.revocation == Some(
                    ProposalModel { votes: p.votes.push(voter), ..p },
                )
            }
        }),
{
}

/// Executing an open proposal, by a registered signer or the admin, succeeds
/// exactly when its votes are more than half of the registered signers; it
/// then makes the replacement the admin and closes the proposal, and
/// otherwise fails with `ThresholdNotReached` and changes no storage.
pub proof fn law_execute_revocation_passes_with_strict_majority(
    e: EnvModel,
    caller: Address,
    d: ContractData,
    p: ProposalModel,
)
    requires
        e.instance.data == Some(d),
        e.instance.signers.contains(caller) || d.admin == caller,
        e.instance.revocation == Some(p),
    ensures
        ({
            let (post, r) = execute_revocation_step(e, caller);
            &&& post.auths == e.auths.push(caller)
            &&& if 2 * p.votes.len() > e.instance.signers.len() {
                &&& r is Ok
                &&& post.instance.data == Some(ContractData { admin: p.replacement, value: d.value })
                &&& post.instance.revocation is None
            } else {
                &&& r == Err::<(), ContractError>(ContractError::ThresholdNotReached)
                &&& post.instance == e.instance
            }
        }),
{
}

/// On an initialized contract, a multi-signature confirmation succeeds
/// exactly when two distinct candidates are each a registered signer or the
/// admin; each such candidate's authorization is demanded once, whether or
/// not it succeeds.
pub proof fn law_multisig_passes_with_two_approvers(
    e: EnvModel,
    candidates: Seq<Address>,
    d: ContractData,
)
    requires
        e.instance.data == Some(d),
    ensures
        (require_multisig_step(e, candidates).1 is Ok) == (exists|a: Address, b: Address|
            {
                &&& a != b
                &&& #[trigger] candidates.contains(a) && (e.instance.signers.contains(a) || a == d.admin)
                &&& #[trigger] candidates.contains(b) && (e.instance.signers.contains(b) || b == d.admin)
            }),
        ({
            let demanded = require_multisig_step(e, candidates).0.auths.skip(e.auths.len() as int);
            &&& require_multisig_step(e, candidates).0.auths.take(e.auths.len() as int) == e.auths
            &&& demanded.no_duplicates()
            &&& forall|a: Address|
                demanded.contains(a) == (candidates.contains(a) && (e.instance.signers.contains(a)
                    || a == d.admin))
        }),
{
    let approvals = multisig_approvals(candidates, e.instance, d.admin);
    law_multisig_counts_distinct_approvers(candidates, e.instance, d.admin);
    let post = require_multisig_step(e, candidates).0;
    assert(require_multisig_step(e, candidates).1 is Ok <==> approvals.len() >= 2);
    assert forall|a: Address|
        approvals.contains(a) == (candidates.contains(a) && (e.instance.signers.contains(a)
            || a == d.admin)) by {
        assert(approvals.contains(a) == (candidates.contains(a) && (is_signer(e.instance, a)
            || a == d.admin)));
    }
    assert(post.auths =~= e.auths + approvals);
    assert(post.auths.skip(e.auths.len() as int) =~= approvals);
    assert(post.auths.take(e.auths.len() as int) =~= e.auths);
    if approvals.len() >= 2 {
        let a = approvals[0];
        let b = approvals[1];
        assert(approvals.contains(a));
        assert(approvals.contains(b));
        assert(a != b);
    }
    if exists|a: Address, b: Address|
        {
            &&& a != b
            &&& #[trigger] candidates.contains(a) && (e.instance.signers.contains(a) || a == d.admin)
            &&& #[trigger] candidates.contains(b) && (e.instance.signers.contains(b) || b == d.admin)
        } {
        let (a, b) = choose|a: Address, b: Address|
            {
                &&& a != b
                &&& #[trigger] candidates.contains(a) && (e.instance.signers.contains(a) || a == d.admin)
                &&& #[trigger] candidates.contains(b) && (e.instance.signers.contains(b) || b == d.admin)
            };
        assert(approvals.contains(a) && approvals.contains(b));
        if approvals.len() < 2 {
            let i = choose|i: int| 0 <= i < approvals.len() && approvals[i] == a;
            let j = choose|j: int| 0 <= j < approvals.len() && approvals[j] == b;
            assert(i == 0 && j == 0);
        }
    }
}

/// A successful stake registration returns a record of the staker, the
/// amount it staked and the invocation's timestamp; the node's stake is then
/// that amount, and the total grows by exactly that amount.
pub proof fn law_stake_record_reports_the_stake(e: EnvModel, node: Address, amount: u64)
    requires
        stake_and_register_step(e, node, amount).1 is Ok,
    ensures
        ({
            let (post, r) = stake_and_register_step(e, node, amount);
            &&& r->Ok_0.node == node
            &&& r->Ok_0.amount == amount
            &&& r->Ok_0.registered_at == e.timestamp
            &&& post.instance.stakes.get(node) == Some(amount)
            &&& post.instance.total_staked == Some((total_or_zero(e.instance) + amount) as u64)
            &&& !e.instance.stakes.contains_key(node)
            &&& amount > 0
        }),
{
}

/// The admin can cancel a pending upgrade at any time, before or after its
/// timelock has passed; the upgrade is then no longer pending and no code
/// update is requested.
pub proof fn law_admin_cancels_pending_upgrade_any_time(
    e: EnvModel,
    canceller: Address,
    d: ContractData,
    p: PendingUpgrade,
)
    requires
        e.instance.data == Some(d),
        d.admin == canceller,
        e.instance.pending_upgrade == Some(p),
    ensures
        ({
            let (post, r) = cancel_upgrade_step(e, canceller);
            &&& r is Ok
            &&& post.instance.pending_upgrade is None
            &&& post.wasm_update == e.wasm_update
            &&& post.auths == e.auths.push(canceller)
        }),
{
}

/// For the admin, setting the heartbeat interval succeeds exactly when the
/// interval is not 0, after which that interval is in force; a 0 interval
/// fails with `InvalidHeartbeatInterval` and changes no storage.
pub proof fn law_admin_sets_any_positive_interval(
    e: EnvModel,
    interval: u64,
    setter: Address,
    d: ContractData,
    t: u64,
)
    requires
        e.instance.data == Some(d),
        d.admin == setter,
    ensures
        ({
            let (post, r) = set_heartbeat_interval_step(e, interval, setter);
            &&& (r is Ok) == (interval != 0)
            &&& interval != 0 ==> post.instance.heartbeat_interval == Some(interval) && interval_of(
                next_invocation(post, t).instance,
            ) == interval
            &&& interval == 0 ==> r == Err::<(), ContractError>(
                ContractError::InvalidHeartbeatInterval,
            ) && post.instance == e.instance
        }),
{
}


/// Unstaking a registered node returns its stake, deregisters it and takes
/// the stake off the total (the total stays at 0 rather than going below);
/// unstaking a node that is not registered fails with `NotRegistered`.
pub proof fn law_unstake_returns_the_stake(e: EnvModel, node: Address)
    ensures
        ({
            let (post, r) = unstake_step(e, node);
            let total: u64 = match e.instance.total_staked {
                Some(t) => t,
                None => 0,
            };
            &&& post.auths == e.auths.push(node)
            &&& match e.instance.stakes.get(node) {
                Some(a) => {
                    &&& r == Ok::<u64, ContractError>(a)
                    &&& !post.instance.stakes.contains_key(node)
                    &&& forall|o: Address| o != node ==> #[trigger] post.instance.stakes.get(o)
                        == e.instance.stakes.get(o)
                    &&& post.instance.total_staked == Some(
                        if total >= a {
                            (total - a) as u64
                        } else {
                            0u64
                        },
                    )
                },
                None => r == Err::<u64, ContractError>(ContractError::NotRegistered)
                    && post.instance == e.instance,
            }
        }),
{
}

/// An asset is fresh exactly when a heartbeat was recorded for it and at
/// most the interval in force (the configured one, else 300 seconds) has
/// passed since; a timestamp before the heartbeat counts as no time passed.
pub proof fn law_freshness_is_age_within_interval(e: EnvModel, asset: Seq<u8>)
    ensures
        is_fresh(e, asset) == match e.heartbeats.get(asset) {
            Some(last) => {
                let interval: u64 = match e.instance.heartbeat_interval {
                    Some(v) => v,
                    None => 300,
                };
                e.timestamp <= last || e.timestamp - last <= interval
            },
            None => false,
        },
{
}

/// The time left on a pending upgrade is 48 hours less the time since its
/// proposal, and 0 once 48 hours have passed; a timestamp before the
/// proposal counts as no time passed. Without a pending upgrade there is none.
pub proof fn law_timelock_remaining_counts_down(e: EnvModel)
    ensures
        timelock_remaining(e) == match e.instance.pending_upgrade {
            Some(p) => Some(
                if e.timestamp <= p.proposed_at {
                    172800u64
                } else if e.timestamp - p.proposed_at >= 172800 {
                    0u64
                } else {
                    (172800 - (e.timestamp - p.proposed_at)) as u64
                },
            ),
            None => None,
        },
{
}

/// Initializing a contract that has no configuration succeeds, demands the
/// admin's authorization and stores the admin with value 0; initializing one
/// that has it fails with `AlreadyInitialized` and changes nothing.
pub proof fn law_initialize_stores_admin(e: EnvModel, admin: Address)
    ensures
        ({
            let (post, r) = initialize_step(e, admin);
            if e.instance.data is None {
                &&& r is Ok
                &&& post.instance.data == Some(ContractData { admin, value: 0 })
                &&& post.auths == e.auths.push(admin)
            } else {
                &&& r == Err::<(), ContractError>(ContractError::AlreadyInitialized)
                &&& post == e
            }
        }),
{
}

/// The admin, with a live signature and its current nonce, executes a
/// pending upgrade exactly when at least 48 hours have passed since its
/// proposal; the code requested is the proposed hash.
pub proof fn law_execute_upgrade_after_full_delay(
    e: EnvModel,
    executor: Address,
    sig_expires_at: u64,
    d: ContractData,
    p: PendingUpgrade,
)
    requires
        e.timestamp <= sig_expires_at,
        e.instance.data == Some(d),
        d.admin == executor,
        e.instance.pending_upgrade == Some(p),
        nonce_of(e.instance, executor) < u64::MAX,
    ensures
        ({
            let (post, r) = execute_upgrade_step(
                e,
                executor,
                nonce_of(e.instance, executor),
                sig_expires_at,
            );
            &&& (r is Ok) == (e.timestamp >= p.proposed_at + 172800)
            &&& r is Ok ==> post.wasm_update == Some(p.new_wasm_hash)
                && post.instance.pending_upgrade is None
        }),
{
}

} // verus!
