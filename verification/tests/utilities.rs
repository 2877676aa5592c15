use timelocked_upgrade::auth::require_multisig;
use timelocked_upgrade::contract::TimeLockedUpgradeContract as C;
use timelocked_upgrade::ledger::ContractEnv;
use timelocked_upgrade::storage::{extend_consumer_lease, ContractError as LeaseError};
use timelocked_upgrade::table::Table;
use timelocked_upgrade::{Address, AddressKind, ContractError, Symbol};

fn account(n: u128) -> Address {
    Address { kind: AddressKind::Account, key_hi: n, key_lo: 0 }
}

fn initialized(admin: Address) -> ContractEnv {
    let mut env = ContractEnv::new(10);
    assert_eq!(C::initialize(&mut env, admin), Ok(()));
    env.advance_to(10);
    env
}

// ── Multi-signature ────────────────────────────────────────────────────────

#[test]
fn test_multisig_requires_initialization() {
    let mut env = ContractEnv::new(1);
    assert_eq!(require_multisig(&mut env, &vec![account(1), account(2)]), Err(ContractError::NotInitialized));
    assert!(env.auths.is_empty());
}

#[test]
fn test_multisig_admin_and_signer_pass() {
    let admin = account(1);
    let s1 = account(2);
    let mut env = initialized(admin);
    assert_eq!(C::register_signer(&mut env, s1, admin), Ok(()));
    env.advance_to(11);
    assert_eq!(require_multisig(&mut env, &vec![account(9), s1, admin]), Ok(()));
    // only the approving candidates' authorizations are demanded, in order
    assert_eq!(env.auths, vec![s1, admin]);
}

#[test]
fn test_multisig_counts_each_signer_once() {
    let admin = account(1);
    let mut env = initialized(admin);
    assert_eq!(require_multisig(&mut env, &vec![admin, admin, admin]), Err(ContractError::ThresholdNotReached));
    assert_eq!(env.auths, vec![admin]);
}

#[test]
fn test_multisig_ignores_outsiders() {
    let admin = account(1);
    let mut env = initialized(admin);
    assert_eq!(require_multisig(&mut env, &vec![account(5), account(6)]), Err(ContractError::ThresholdNotReached));
    assert!(env.auths.is_empty());
    assert_eq!(require_multisig(&mut env, &vec![]), Err(ContractError::ThresholdNotReached));
}

// ── Leases ─────────────────────────────────────────────────────────────────

#[test]
fn test_extend_consumer_lease_adds_ten_per_interaction() {
    let c = account(3);
    let mut env = ContractEnv::new(1);
    assert_eq!(extend_consumer_lease(&mut env, &c, 7), Ok(()));
    assert_eq!(env.instance.leases.get(&c), Some(70));
    assert_eq!(extend_consumer_lease(&mut env, &c, 3), Ok(()));
    assert_eq!(env.instance.leases.get(&c), Some(100));
    assert_eq!(extend_consumer_lease(&mut env, &c, 0), Ok(()));
    assert_eq!(env.instance.leases.get(&c), Some(100));
    assert_eq!(env.instance.leases.get(&account(4)), None);
}

#[test]
fn test_extend_consumer_lease_saturates() {
    let c = account(3);
    let mut env = ContractEnv::new(1);
    assert_eq!(extend_consumer_lease(&mut env, &c, u64::MAX / 10 + 1), Ok(()));
    assert_eq!(env.instance.leases.get(&c), Some(u64::MAX));
    let d = account(4);
    env.instance.leases.set(d, u64::MAX - 5);
    let r: Result<(), LeaseError> = extend_consumer_lease(&mut env, &d, 1);
    assert_eq!(r, Ok(()));
    assert_eq!(env.instance.leases.get(&d), Some(u64::MAX));
}

// ── Tables and symbols ─────────────────────────────────────────────────────

#[test]
fn test_table_set_get_remove() {
    let mut t: Table<Address> = Table::new();
    assert_eq!(t.len(), 0);
    t.set(account(1), 5);
    t.set(account(2), 6);
    t.set(account(1), 7);
    assert_eq!(t.len(), 2);
    assert_eq!(t.get(&account(1)), Some(7));
    assert_eq!(t.get(&account(2)), Some(6));
    assert!(t.contains_key(&account(2)));
    t.remove(&account(1));
    assert_eq!(t.len(), 1);
    assert_eq!(t.get(&account(1)), None);
    assert!(!t.contains_key(&account(1)));
    let (k, v) = t.entry(0);
    assert_eq!((*k, v), (account(2), 6));
    t.remove(&account(9));
    assert_eq!(t.len(), 1);
}

#[test]
fn test_symbol_table_keys_by_spelling() {
    let mut t: Table<Symbol> = Table::new();
    t.set(Symbol::from_chars(b"NGN".to_vec()), 1);
    t.set(Symbol::from_chars(b"NG".to_vec()), 2);
    assert_eq!(t.get(&Symbol::from_chars(b"NGN".to_vec())), Some(1));
    assert_eq!(t.get(&Symbol::from_chars(b"NG".to_vec())), Some(2));
    assert_eq!(t.get(&Symbol::from_chars(b"NGX".to_vec())), None);
    assert!(Symbol::from_chars(b"ABC".to_vec()).same_symbol(&Symbol::from_chars(b"ABC".to_vec())));
    assert!(!Symbol::from_chars(b"ABC".to_vec()).same_symbol(&Symbol::from_chars(b"ABD".to_vec())));
}
