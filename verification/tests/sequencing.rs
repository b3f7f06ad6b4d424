use ledger_runtime::system::System;

fn nonce(system: &System, account: u64) -> u32 {
    system.nonces.get(&account).copied().unwrap_or(0)
}

#[test]
fn new_system_has_counted_nothing() {
    let system = System::new();
    assert_eq!(system.block_number, 0);
    assert!(system.nonces.is_empty());
}

#[test]
fn increment_block_adds_one() {
    let mut system = System::new();
    system.increment_block();
    assert_eq!(system.block_number, 1);
    system.increment_block();
    system.increment_block();
    assert_eq!(system.block_number, 3);
    assert!(system.nonces.is_empty());
}

#[test]
fn increment_block_reaches_the_width_limit() {
    let mut system = System::new();
    system.block_number = u32::MAX - 1;
    system.increment_block();
    assert_eq!(system.block_number, u32::MAX);
}

#[test]
fn increment_nonce_starts_from_zero() {
    let mut system = System::new();
    system.increment_nonce(7);
    assert_eq!(nonce(&system, 7), 1);
    assert_eq!(system.block_number, 0);
}

#[test]
fn increment_nonce_counts_per_account() {
    let mut system = System::new();
    system.increment_nonce(1);
    system.increment_nonce(2);
    system.increment_nonce(1);
    system.increment_nonce(1);
    assert_eq!(nonce(&system, 1), 3);
    assert_eq!(nonce(&system, 2), 1);
    assert_eq!(nonce(&system, 3), 0);
    assert_eq!(system.nonces.len(), 2);
}
