use ledger_state_machine::system::Pallet;

#[test]
fn init_system() {
    let mut system = Pallet::new();

    system.inc_block_number();
    system.inc_nonce(&"alice".to_string());

    assert_eq!(system.block_number(), 1);
    assert_eq!(system.nonce(&"alice".to_string()), 1);
    assert_eq!(system.nonce(&"bob".to_string()), 0);
}

#[test]
fn fresh_chain_is_at_genesis() {
    let system = Pallet::new();

    assert_eq!(system.block_number(), 0);
    assert_eq!(system.nonce(&"alice".to_string()), 0);
    assert_eq!(system.nonce(&String::new()), 0);
}

#[test]
fn block_number_counts_the_increments() {
    let mut system = Pallet::new();

    for expected in 1..=1000u32 {
        system.inc_block_number();
        assert_eq!(system.block_number(), expected);
    }
    assert_eq!(system.nonce(&"alice".to_string()), 0);
}

#[test]
fn nonce_counts_the_increments() {
    let mut system = Pallet::new();
    let alice = "alice".to_string();

    for expected in 1..=1000u32 {
        system.inc_nonce(&alice);
        assert_eq!(system.nonce(&alice), expected);
    }
    assert_eq!(system.block_number(), 0);
}

#[test]
fn nonces_are_kept_per_account() {
    let mut system = Pallet::new();
    let alice = "alice".to_string();
    let bob = "bob".to_string();

    system.inc_nonce(&alice);
    system.inc_nonce(&bob);
    system.inc_nonce(&alice);
    system.inc_nonce(&alice);
    assert_eq!(system.nonce(&alice), 3);
    assert_eq!(system.nonce(&bob), 1);
    assert_eq!(system.nonce(&"charlie".to_string()), 0);
}
