use timelocked_upgrade::contract::TimeLockedUpgradeContract as C;
use timelocked_upgrade::ledger::{ContractEnv, TtlExtension};
use timelocked_upgrade::{Address, AddressKind, ContractData, ContractError, Symbol};

const DAY: u64 = 24 * 60 * 60;
const DELAY: u64 = 48 * 60 * 60;

fn account(n: u128) -> Address {
    Address { kind: AddressKind::Account, key_hi: 0, key_lo: n }
}

fn contract_address(n: u128) -> Address {
    Address { kind: AddressKind::Contract, key_hi: 7, key_lo: n }
}

fn sym(s: &str) -> Symbol {
    Symbol::from_chars(s.as_bytes().to_vec())
}

/// A contract initialized by `admin` at time 1000, ready for a new invocation.
fn initialized(admin: Address) -> ContractEnv {
    let mut env = ContractEnv::new(1000);
    assert_eq!(C::initialize(&mut env, admin), Ok(()));
    env.advance_to(1000);
    env
}

// ── Initialization ─────────────────────────────────────────────────────────

#[test]
fn test_initialize_stores_admin_and_demands_auth() {
    let admin = account(1);
    let mut env = ContractEnv::new(5);
    assert_eq!(C::get_data(&env), Err(ContractError::NotInitialized));
    assert_eq!(C::initialize(&mut env, admin), Ok(()));
    assert_eq!(env.auths, vec![admin]);
    assert_eq!(C::get_data(&env), Ok(ContractData { admin, value: 0 }));
}

#[test]
fn test_initialize_twice_fails() {
    let admin = account(1);
    let mut env = initialized(admin);
    assert_eq!(C::initialize(&mut env, account(2)), Err(ContractError::AlreadyInitialized));
    assert!(env.auths.is_empty());
    assert_eq!(C::get_data(&env), Ok(ContractData { admin, value: 0 }));
}

// ── Value and nonces ───────────────────────────────────────────────────────

#[test]
fn test_set_value_updates_value_and_nonce() {
    let admin = account(1);
    let mut env = initialized(admin);
    assert_eq!(C::get_coordinator_nonce(&env, admin), 0);
    assert_eq!(C::set_value(&mut env, 42, admin, 0, 2000), Ok(()));
    assert_eq!(env.auths, vec![admin]);
    assert_eq!(C::get_data(&env), Ok(ContractData { admin, value: 42 }));
    assert_eq!(C::get_coordinator_nonce(&env, admin), 1);
}

#[test]
fn test_set_value_replayed_nonce_rejected() {
    let admin = account(1);
    let mut env = initialized(admin);
    assert_eq!(C::set_value(&mut env, 42, admin, 0, 2000), Ok(()));
    env.advance_to(1001);
    assert_eq!(C::set_value(&mut env, 43, admin, 0, 2000), Err(ContractError::InvalidNonce));
    assert_eq!(C::get_data(&env), Ok(ContractData { admin, value: 42 }));
    assert_eq!(C::get_coordinator_nonce(&env, admin), 1);
    assert_eq!(C::set_value(&mut env, 43, admin, 1, 2000), Ok(()));
    assert_eq!(C::get_coordinator_nonce(&env, admin), 2);
}

#[test]
fn test_set_value_errors_in_order() {
    let admin = account(1);
    let other = account(2);
    let mut env = ContractEnv::new(1000);
    // expiry is checked first, even before initialization
    assert_eq!(C::set_value(&mut env, 1, admin, 0, 999), Err(ContractError::SignatureExpired));
    assert_eq!(C::set_value(&mut env, 1, admin, 0, 1000), Err(ContractError::NotInitialized));
    assert!(env.auths.is_empty());
    let mut env = initialized(admin);
    assert_eq!(C::set_value(&mut env, 1, other, 0, 1000), Err(ContractError::NotAdmin));
    assert!(env.auths.is_empty());
    assert_eq!(C::set_value(&mut env, 1, admin, 5, 1000), Err(ContractError::InvalidNonce));
    // the admin's authorization was demanded before the nonce was checked
    assert_eq!(env.auths, vec![admin]);
    assert_eq!(C::get_data(&env), Ok(ContractData { admin, value: 0 }));
}

#[test]
fn test_nonce_at_maximum_overflows() {
    let admin = account(1);
    let mut env = initialized(admin);
    env.instance.nonces.set(admin, u64::MAX);
    assert_eq!(C::set_value(&mut env, 1, admin, u64::MAX, 2000), Err(ContractError::Overflow));
    assert_eq!(C::get_coordinator_nonce(&env, admin), u64::MAX);
}

// ── Time-locked upgrades ───────────────────────────────────────────────────

#[test]
fn test_upgrade_waits_for_timelock() {
    let admin = account(1);
    let mut env = initialized(admin);
    let hash = [9u8; 32];
    assert_eq!(C::get_upgrade_timelock_remaining(&env), None);
    assert_eq!(C::propose_upgrade(&mut env, hash, admin, 0, 1000), Ok(()));
    let pending = C::get_pending_upgrade(&env).unwrap();
    assert_eq!(pending.new_wasm_hash, hash);
    assert_eq!(pending.proposed_at, 1000);
    assert_eq!(pending.proposer, admin);
    assert_eq!(C::get_upgrade_timelock_remaining(&env), Some(DELAY));

    env.advance_to(1000 + DAY);
    assert_eq!(C::get_upgrade_timelock_remaining(&env), Some(DAY));
    assert_eq!(
        C::execute_upgrade(&mut env, admin, 1, u64::MAX),
        Err(ContractError::UpgradeTimelockNotSatisfied)
    );
    assert_eq!(env.wasm_update, None);
    assert_eq!(C::get_coordinator_nonce(&env, admin), 1);

    env.advance_to(1000 + DELAY - 1);
    assert_eq!(C::get_upgrade_timelock_remaining(&env), Some(1));
    env.advance_to(1000 + DELAY);
    assert_eq!(C::get_upgrade_timelock_remaining(&env), Some(0));
    assert_eq!(C::execute_upgrade(&mut env, admin, 1, u64::MAX), Ok(()));
    assert_eq!(env.wasm_update, Some(hash));
    assert!(C::get_pending_upgrade(&env).is_none());
    assert_eq!(C::get_upgrade_timelock_remaining(&env), None);
    assert_eq!(C::get_coordinator_nonce(&env, admin), 2);
}

#[test]
fn test_execute_upgrade_without_proposal() {
    let admin = account(1);
    let mut env = initialized(admin);
    assert_eq!(C::execute_upgrade(&mut env, admin, 0, 1000), Err(ContractError::NoPendingUpgrade));
    // a failed call does not use the nonce
    assert_eq!(C::get_coordinator_nonce(&env, admin), 0);
    assert_eq!(env.wasm_update, None);
}

#[test]
fn test_upgrade_only_by_admin() {
    let admin = account(1);
    let other = account(2);
    let mut env = initialized(admin);
    assert_eq!(C::propose_upgrade(&mut env, [1u8; 32], other, 0, 1000), Err(ContractError::NotAdmin));
    assert_eq!(C::propose_upgrade(&mut env, [1u8; 32], admin, 0, 999), Err(ContractError::SignatureExpired));
    assert!(C::get_pending_upgrade(&env).is_none());
    assert_eq!(C::propose_upgrade(&mut env, [1u8; 32], admin, 0, 1000), Ok(()));
    env.advance_to(1000 + DELAY);
    assert_eq!(C::execute_upgrade(&mut env, other, 0, u64::MAX), Err(ContractError::NotAdmin));
    assert_eq!(C::cancel_upgrade(&mut env, other), Err(ContractError::NotAdmin));
    assert!(C::get_pending_upgrade(&env).is_some());
}

#[test]
fn test_cancel_upgrade() {
    let admin = account(1);
    let mut env = initialized(admin);
    assert_eq!(C::cancel_upgrade(&mut env, admin), Err(ContractError::NoPendingUpgrade));
    assert_eq!(env.auths, vec![admin]);
    assert_eq!(C::propose_upgrade(&mut env, [3u8; 32], admin, 0, 1000), Ok(()));
    env.advance_to(1001);
    assert_eq!(C::cancel_upgrade(&mut env, admin), Ok(()));
    assert!(C::get_pending_upgrade(&env).is_none());
    env.advance_to(1000 + DELAY);
    assert_eq!(C::execute_upgrade(&mut env, admin, 1, u64::MAX), Err(ContractError::NoPendingUpgrade));
}

#[test]
fn test_timelock_remaining_when_clock_is_behind_proposal() {
    let admin = account(1);
    let mut env = initialized(admin);
    assert_eq!(C::propose_upgrade(&mut env, [3u8; 32], admin, 0, 1000), Ok(()));
    // a timestamp before the proposal counts as no time elapsed
    env.advance_to(500);
    assert_eq!(C::get_upgrade_timelock_remaining(&env), Some(DELAY));
}

// ── Staking ────────────────────────────────────────────────────────────────

#[test]
fn test_stake_and_register_records_stake_and_total() {
    let node = account(10);
    let mut env = ContractEnv::new(77);
    let record = C::stake_and_register(&mut env, node, 500).unwrap();
    assert_eq!(record.node, node);
    assert_eq!(record.amount, 500);
    assert_eq!(record.registered_at, 77);
    assert_eq!(env.auths, vec![node]);
    assert_eq!(C::get_stake(&env, node), 500);
    assert_eq!(C::get_total_staked(&env), 500);
    assert_eq!(C::get_last_update_timestamp(&env, sym("STAKE")), Some(77));
    assert!(C::is_data_fresh(&env, sym("STAKE")));
}

#[test]
fn test_stake_errors() {
    let node = account(10);
    let mut env = ContractEnv::new(77);
    assert_eq!(C::stake_and_register(&mut env, node, 0), Err(ContractError::InvalidStakeAmount));
    assert!(env.auths.is_empty());
    assert!(C::stake_and_register(&mut env, node, 5).is_ok());
    env.advance_to(78);
    assert_eq!(C::stake_and_register(&mut env, node, 6), Err(ContractError::AlreadyRegistered));
    assert_eq!(C::get_stake(&env, node), 5);
    assert_eq!(C::get_total_staked(&env), 5);
}

#[test]
fn test_stake_total_overflow_changes_nothing() {
    let a = account(10);
    let b = account(11);
    let mut env = ContractEnv::new(1);
    assert!(C::stake_and_register(&mut env, a, u64::MAX - 1).is_ok());
    env.advance_to(2);
    assert_eq!(C::stake_and_register(&mut env, b, 2), Err(ContractError::Overflow));
    assert_eq!(C::get_stake(&env, b), 0);
    assert_eq!(C::get_total_staked(&env), u64::MAX - 1);
    assert_eq!(C::get_last_update_timestamp(&env, sym("STAKE")), Some(1));
    assert!(C::stake_and_register(&mut env, b, 1).is_ok());
    assert_eq!(C::get_total_staked(&env), u64::MAX);
}

#[test]
fn test_unstake_round_trip() {
    let a = account(10);
    let b = contract_address(10);
    let mut env = ContractEnv::new(1);
    assert!(C::stake_and_register(&mut env, a, 300).is_ok());
    env.advance_to(2);
    assert!(C::stake_and_register(&mut env, b, 200).is_ok());
    assert_eq!(C::get_total_staked(&env), 500);
    env.advance_to(3);
    assert_eq!(C::unstake(&mut env, b), Ok(200));
    assert_eq!(env.auths, vec![b]);
    assert_eq!(C::get_stake(&env, b), 0);
    assert_eq!(C::get_stake(&env, a), 300);
    assert_eq!(C::get_total_staked(&env), 300);
    env.advance_to(4);
    assert_eq!(C::unstake(&mut env, b), Err(ContractError::NotRegistered));
    assert_eq!(env.auths, vec![b]);
    assert_eq!(C::get_total_staked(&env), 300);
}

#[test]
fn test_unstake_total_saturates() {
    let a = account(10);
    let mut env = ContractEnv::new(1);
    assert!(C::stake_and_register(&mut env, a, 300).is_ok());
    env.instance.total_staked = Some(100);
    env.advance_to(2);
    assert_eq!(C::unstake(&mut env, a), Ok(300));
    assert_eq!(C::get_total_staked(&env), 0);
}

// ── Heartbeats ─────────────────────────────────────────────────────────────

#[test]
fn test_heartbeat_fresh_then_stale() {
    let admin = account(1);
    let mut env = initialized(admin);
    let ngn = sym("NGN");
    assert_eq!(C::update_heartbeat(&mut env, ngn.clone(), admin), Ok(()));
    assert_eq!(C::get_last_update_timestamp(&env, ngn.clone()), Some(1000));
    assert!(C::is_data_fresh(&env, ngn.clone()));
    let interval = C::get_heartbeat_interval(&env);
    assert_eq!(interval, 300);
    env.advance_to(1000 + interval);
    assert!(C::is_data_fresh(&env, ngn.clone()));
    env.advance_to(1000 + interval + 1);
    assert!(!C::is_data_fresh(&env, ngn.clone()));
    assert_eq!(C::update_heartbeat(&mut env, ngn.clone(), admin), Ok(()));
    assert!(C::is_data_fresh(&env, ngn));
}

#[test]
fn test_heartbeat_never_updated() {
    let admin = account(1);
    let env = initialized(admin);
    assert!(!C::is_data_fresh(&env, sym("KES")));
    assert_eq!(C::get_last_update_timestamp(&env, sym("KES")), None);
}

#[test]
fn test_heartbeat_custom_interval() {
    let admin = account(1);
    let mut env = initialized(admin);
    assert_eq!(C::set_heartbeat_interval(&mut env, 600, admin), Ok(()));
    assert_eq!(C::get_heartbeat_interval(&env), 600);
    assert_eq!(C::update_heartbeat(&mut env, sym("GHS"), admin), Ok(()));
    env.advance_to(1500);
    assert!(C::is_data_fresh(&env, sym("GHS")));
    env.advance_to(1601);
    assert!(!C::is_data_fresh(&env, sym("GHS")));
}

#[test]
fn test_zero_heartbeat_interval_returns_typed_error() {
    let admin = account(1);
    let mut env = initialized(admin);
    assert_eq!(C::set_heartbeat_interval(&mut env, 0, admin), Err(ContractError::InvalidHeartbeatInterval));
    assert_eq!(env.auths, vec![admin]);
    assert_eq!(C::get_heartbeat_interval(&env), 300);
    assert_eq!(C::set_heartbeat_interval(&mut env, 5, account(2)), Err(ContractError::NotAdmin));
}

#[test]
fn test_heartbeat_update_only_by_admin() {
    let admin = account(1);
    let mut env = initialized(admin);
    assert_eq!(C::update_heartbeat(&mut env, sym("ZAR"), account(2)), Err(ContractError::NotAdmin));
    assert_eq!(C::get_last_update_timestamp(&env, sym("ZAR")), None);
    assert_eq!(env.heartbeat_ttl, None);
    let mut fresh = ContractEnv::new(3);
    assert_eq!(C::update_heartbeat(&mut fresh, sym("ZAR"), admin), Err(ContractError::NotInitialized));
}

#[test]
fn test_set_value_updates_heartbeat() {
    let admin = account(1);
    let mut env = initialized(admin);
    assert!(!C::is_data_fresh(&env, sym("VALUE")));
    assert_eq!(C::set_value(&mut env, 9, admin, 0, 1000), Ok(()));
    assert_eq!(C::get_last_update_timestamp(&env, sym("VALUE")), Some(1000));
    assert_eq!(env.heartbeat_ttl, Some(TtlExtension { threshold: 5_000, extend_to: 17_280 }));
    assert!(C::is_data_fresh(&env, sym("VALUE")));
    // other assets are tracked separately
    assert!(!C::is_data_fresh(&env, sym("VALUEX")));
}

// ── Signers ────────────────────────────────────────────────────────────────

#[test]
fn test_register_and_remove_signers() {
    let admin = account(1);
    let s1 = account(2);
    let s2 = account(3);
    let mut env = initialized(admin);
    assert_eq!(C::register_signer(&mut env, s1, admin), Ok(()));
    assert_eq!(C::register_signer(&mut env, s2, admin), Ok(()));
    assert_eq!(C::register_signer(&mut env, s1, admin), Ok(()));
    assert_eq!(C::get_signers(&env), vec![s1, s2]);
    assert_eq!(env.auths, vec![admin, admin, admin]);
    env.advance_to(1001);
    assert_eq!(C::remove_signer(&mut env, s1, admin), Ok(()));
    assert_eq!(C::get_signers(&env), vec![s2]);
    assert_eq!(C::remove_signer(&mut env, account(9), admin), Ok(()));
    assert_eq!(C::get_signers(&env), vec![s2]);
    assert_eq!(C::register_signer(&mut env, s1, s2), Err(ContractError::NotAdmin));
    assert_eq!(C::remove_signer(&mut env, s2, s2), Err(ContractError::NotAdmin));
    assert_eq!(C::get_signers(&env), vec![s2]);
}

#[test]
fn test_remove_signer_removes_every_copy() {
    let admin = account(1);
    let s1 = account(2);
    let s2 = account(3);
    let mut env = initialized(admin);
    env.instance.signers = vec![s1, s2, s1];
    assert_eq!(C::remove_signer(&mut env, s1, admin), Ok(()));
    assert_eq!(C::get_signers(&env), vec![s2]);
}

// ── Emergency revocation ───────────────────────────────────────────────────

fn with_signers(admin: Address, signers: &[Address]) -> ContractEnv {
    let mut env = initialized(admin);
    for s in signers {
        assert_eq!(C::register_signer(&mut env, *s, admin), Ok(()));
    }
    env.advance_to(1000);
    env
}

#[test]
fn test_revocation_majority_replaces_admin() {
    let admin = account(1);
    let (s1, s2, s3) = (account(2), account(3), account(4));
    let new_admin = account(5);
    let mut env = with_signers(admin, &[s1, s2, s3]);
    assert_eq!(C::propose_revocation(&mut env, admin, new_admin, s1, 1000), Ok(()));
    let p = C::get_revocation_proposal(&env).unwrap();
    assert_eq!(p.target, admin);
    assert_eq!(p.replacement, new_admin);
    assert_eq!(p.proposer, s1);
    assert_eq!(p.proposed_at, 1000);
    assert_eq!(p.votes, vec![s1]);
    // 3 signers: the threshold is 3 / 2 + 1 = 2
    env.advance_to(1001);
    assert_eq!(C::execute_revocation(&mut env, s2), Err(ContractError::ThresholdNotReached));
    assert_eq!(C::vote_revocation(&mut env, s1, 2000), Err(ContractError::AlreadyVoted));
    assert_eq!(C::vote_revocation(&mut env, s2, 2000), Ok(()));
    assert_eq!(C::get_data(&env), Ok(ContractData { admin: new_admin, value: 0 }));
    assert!(C::get_revocation_proposal(&env).is_none());
    assert_eq!(C::set_value(&mut env, 1, admin, 0, 2000), Err(ContractError::NotAdmin));
}

#[test]
fn test_revocation_votes_accumulate_below_threshold() {
    let admin = account(1);
    let signers = [account(2), account(3), account(4), account(5), account(6)];
    let new_admin = account(9);
    let mut env = with_signers(admin, &signers);
    assert_eq!(C::propose_revocation(&mut env, admin, new_admin, signers[0], 1000), Ok(()));
    // 5 signers: the threshold is 5 / 2 + 1 = 3
    assert_eq!(C::vote_revocation(&mut env, admin, 1000), Ok(()));
    assert_eq!(C::get_revocation_proposal(&env).unwrap().votes, vec![signers[0], admin]);
    assert_eq!(C::get_data(&env).unwrap().admin, admin);
    assert_eq!(C::vote_revocation(&mut env, signers[1], 1000), Ok(()));
    assert_eq!(C::get_data(&env).unwrap().admin, new_admin);
}

#[test]
fn test_execute_revocation_at_threshold() {
    let admin = account(1);
    let (s1, s2) = (account(2), account(3));
    let new_admin = account(5);
    let mut env = with_signers(admin, &[s1, s2]);
    assert_eq!(C::propose_revocation(&mut env, admin, new_admin, s1, 1000), Ok(()));
    // two votes would pass; with a third signer registered the threshold rises
    assert_eq!(C::register_signer(&mut env, account(6), admin), Ok(()));
    assert_eq!(C::register_signer(&mut env, account(7), admin), Ok(()));
    assert_eq!(C::vote_revocation(&mut env, s2, 1000), Ok(()));
    assert_eq!(C::get_revocation_proposal(&env).unwrap().votes.len(), 2);
    // lower the threshold again by removing the extra signers
    assert_eq!(C::remove_signer(&mut env, account(6), admin), Ok(()));
    assert_eq!(C::remove_signer(&mut env, account(7), admin), Ok(()));
    assert_eq!(C::execute_revocation(&mut env, account(8)), Err(ContractError::Unauthorized));
    assert_eq!(C::execute_revocation(&mut env, s2), Ok(()));
    assert_eq!(C::get_data(&env).unwrap().admin, new_admin);
    assert!(C::get_revocation_proposal(&env).is_none());
}

#[test]
fn test_propose_revocation_errors() {
    let admin = account(1);
    let s1 = account(2);
    let outsider = account(3);
    let new_admin = account(5);
    let mut env = ContractEnv::new(1000);
    assert_eq!(C::propose_revocation(&mut env, admin, new_admin, s1, 999), Err(ContractError::SignatureExpired));
    assert!(env.auths.is_empty());
    assert_eq!(C::propose_revocation(&mut env, admin, new_admin, s1, 1000), Err(ContractError::NotInitialized));
    assert_eq!(env.auths, vec![s1]);
    let mut env = with_signers(admin, &[s1]);
    assert_eq!(C::propose_revocation(&mut env, admin, new_admin, outsider, 1000), Err(ContractError::Unauthorized));
    assert_eq!(C::propose_revocation(&mut env, s1, new_admin, s1, 1000), Err(ContractError::TargetNotAdmin));
    assert_eq!(C::propose_revocation(&mut env, admin, new_admin, admin, 1000), Ok(()));
    assert_eq!(C::propose_revocation(&mut env, admin, outsider, s1, 1000), Err(ContractError::ProposalAlreadyActive));
    assert_eq!(C::get_revocation_proposal(&env).unwrap().replacement, new_admin);
}

#[test]
fn test_vote_revocation_errors() {
    let admin = account(1);
    let s1 = account(2);
    let mut env = with_signers(admin, &[s1]);
    assert_eq!(C::vote_revocation(&mut env, s1, 999), Err(ContractError::SignatureExpired));
    assert_eq!(C::vote_revocation(&mut env, account(7), 1000), Err(ContractError::Unauthorized));
    assert_eq!(C::vote_revocation(&mut env, s1, 1000), Err(ContractError::NoActiveProposal));
    assert_eq!(C::execute_revocation(&mut env, s1), Err(ContractError::NoActiveProposal));
    assert_eq!(C::cancel_revocation(&mut env, s1), Err(ContractError::NoActiveProposal));
    let mut fresh = ContractEnv::new(1);
    assert_eq!(C::vote_revocation(&mut fresh, s1, 1), Err(ContractError::NotInitialized));
    assert_eq!(C::execute_revocation(&mut fresh, s1), Err(ContractError::NotInitialized));
    assert_eq!(C::cancel_revocation(&mut fresh, s1), Err(ContractError::NotInitialized));
}

#[test]
fn test_cancel_revocation_rules() {
    let admin = account(1);
    let (s1, s2) = (account(2), account(3));
    let new_admin = account(5);
    let mut env = with_signers(admin, &[s1, s2]);
    assert_eq!(C::propose_revocation(&mut env, admin, new_admin, s1, 1000), Ok(()));
    // another signer may not cancel; the targeted admin may not either
    assert_eq!(C::cancel_revocation(&mut env, s2), Err(ContractError::Unauthorized));
    assert_eq!(C::cancel_revocation(&mut env, admin), Err(ContractError::Unauthorized));
    assert!(C::get_revocation_proposal(&env).is_some());
    assert_eq!(C::cancel_revocation(&mut env, s1), Ok(()));
    assert!(C::get_revocation_proposal(&env).is_none());
    assert_eq!(C::get_data(&env).unwrap().admin, admin);
}

#[test]
fn test_cancel_revocation_by_admin_not_target() {
    let admin = account(1);
    let s1 = account(2);
    let mut env = with_signers(admin, &[s1]);
    // a proposal whose target is no longer the admin (it was replaced since)
    env.instance.revocation = Some(timelocked_upgrade::types::RevocationProposal {
        target: account(8),
        replacement: account(9),
        proposer: s1,
        proposed_at: 5,
        votes: vec![s1],
    });
    assert_eq!(C::cancel_revocation(&mut env, admin), Ok(()));
    assert!(C::get_revocation_proposal(&env).is_none());
}

#[test]
fn test_revocation_without_registered_signers() {
    // with no registered signers the threshold is 0 / 2 + 1 = 1, so the
    // admin's own proposal already has enough votes
    let admin = account(1);
    let new_admin = account(2);
    let mut env = initialized(admin);
    assert_eq!(C::propose_revocation(&mut env, admin, new_admin, admin, 1000), Ok(()));
    assert_eq!(C::vote_revocation(&mut env, admin, 1000), Err(ContractError::AlreadyVoted));
    assert_eq!(C::execute_revocation(&mut env, admin), Ok(()));
    assert_eq!(C::get_data(&env).unwrap().admin, new_admin);
}

#[test]
fn test_nonce_refused_after_intervening_calls() {
    let admin = account(1);
    let mut env = initialized(admin);
    assert_eq!(C::set_value(&mut env, 1, admin, 0, u64::MAX), Ok(()));
    env.advance_to(1100);
    assert_eq!(C::propose_upgrade(&mut env, [5u8; 32], admin, 1, u64::MAX), Ok(()));
    env.advance_to(1200);
    assert_eq!(C::update_heartbeat(&mut env, sym("NGN"), admin), Ok(()));
    assert_eq!(C::cancel_upgrade(&mut env, admin), Ok(()));
    env.advance_to(1300);
    assert_eq!(C::set_value(&mut env, 2, admin, 0, u64::MAX), Err(ContractError::InvalidNonce));
    assert_eq!(C::propose_upgrade(&mut env, [6u8; 32], admin, 1, u64::MAX), Err(ContractError::InvalidNonce));
    assert_eq!(C::get_data(&env), Ok(ContractData { admin, value: 1 }));
    assert!(C::get_pending_upgrade(&env).is_none());
    assert_eq!(C::get_coordinator_nonce(&env, admin), 2);
}

#[test]
fn test_new_proposal_restarts_timelock() {
    let admin = account(1);
    let mut env = initialized(admin);
    assert_eq!(C::propose_upgrade(&mut env, [1u8; 32], admin, 0, u64::MAX), Ok(()));
    env.advance_to(1000 + DAY);
    assert_eq!(C::propose_upgrade(&mut env, [2u8; 32], admin, 1, u64::MAX), Ok(()));
    env.advance_to(1000 + DELAY);
    assert_eq!(
        C::execute_upgrade(&mut env, admin, 2, u64::MAX),
        Err(ContractError::UpgradeTimelockNotSatisfied)
    );
    env.advance_to(1000 + DAY + DELAY);
    assert_eq!(C::execute_upgrade(&mut env, admin, 2, u64::MAX), Ok(()));
    assert_eq!(env.wasm_update, Some([2u8; 32]));
}
