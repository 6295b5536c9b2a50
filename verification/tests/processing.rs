use nyxpay_program::capabilities::{
    FixedDisclosureVerifier, FixedProofVerifier, FixedStealthDeriver,
};
use nyxpay_program::error::NyxPayError;
use nyxpay_program::instruction::NyxPayInstruction;
use nyxpay_program::processor::Processor;
use nyxpay_program::state::{AccountState, UserAccount};

#[test]
fn test_entrypoint() {
    assert!(true);
}

fn active_account(authority_byte: u8, balance: u64, nonce: u64) -> UserAccount {
    UserAccount {
        authority: [authority_byte; 32],
        balance,
        nonce,
        state: AccountState::Active,
        stealth_addresses: Vec::new(),
    }
}

fn uninitialized_account() -> UserAccount {
    UserAccount {
        authority: [0u8; 32],
        balance: 0,
        nonce: 0,
        state: AccountState::Uninitialized,
        stealth_addresses: Vec::new(),
    }
}

fn accepting_verifier(amount: i64, bound_nonce: u64) -> FixedProofVerifier {
    FixedProofVerifier { accept: true, amount, bound_nonce }
}

#[test]
fn user_account_new_is_active_and_empty() {
    let account = UserAccount::new([5u8; 32], 77);
    assert_eq!(account.authority, [5u8; 32]);
    assert_eq!(account.balance, 77);
    assert_eq!(account.nonce, 0);
    assert_eq!(account.state, AccountState::Active);
    assert!(account.stealth_addresses.is_empty());
}

#[test]
fn initialize_sets_every_field() {
    let mut account = uninitialized_account();
    let r = Processor::process_initialize_account(&mut account, [3u8; 32], 500);
    assert_eq!(r, Ok(()));
    assert_eq!(account.authority, [3u8; 32]);
    assert_eq!(account.balance, 500);
    assert_eq!(account.nonce, 0);
    assert_eq!(account.state, AccountState::Active);
    assert!(account.stealth_addresses.is_empty());
}

#[test]
fn initialize_twice_fails_and_changes_nothing() {
    let mut account = uninitialized_account();
    assert_eq!(
        Processor::process_initialize_account(&mut account, [3u8; 32], 500),
        Ok(())
    );
    assert_eq!(account.state, AccountState::Active);
    let r = Processor::process_initialize_account(&mut account, [4u8; 32], 900);
    assert_eq!(r, Err(NyxPayError::AlreadyInitialized));
    assert_eq!(account.authority, [3u8; 32]);
    assert_eq!(account.balance, 500);
    assert_eq!(account.state, AccountState::Active);
}

#[test]
fn transfer_moves_amount_and_conserves_sum() {
    let mut source = active_account(1, 100, 0);
    let mut destination = active_account(2, 5, 7);
    let verifier = accepting_verifier(40, 0);
    let r = Processor::process_transfer(&mut source, &mut destination, &vec![1], &vec![2], &verifier);
    assert_eq!(r, Ok(()));
    assert_eq!(source.balance, 60);
    assert_eq!(destination.balance, 45);
    assert_eq!(source.balance + destination.balance, 105);
    assert_eq!(source.nonce, 1);
    assert_eq!(destination.nonce, 7);
}

#[test]
fn transfer_insufficient_balance() {
    let mut source = active_account(1, 30, 0);
    let mut destination = active_account(2, 0, 0);
    let verifier = accepting_verifier(31, 0);
    let r = Processor::process_transfer(&mut source, &mut destination, &vec![], &vec![], &verifier);
    assert_eq!(r, Err(NyxPayError::InsufficientBalance));
    assert_eq!(source.balance, 30);
    assert_eq!(destination.balance, 0);
}

#[test]
fn transfer_negative_amount() {
    let mut source = active_account(1, 30, 0);
    let mut destination = active_account(2, 0, 0);
    let verifier = accepting_verifier(-1, 0);
    let r = Processor::process_transfer(&mut source, &mut destination, &vec![], &vec![], &verifier);
    assert_eq!(r, Err(NyxPayError::NegativeTransfer));
}

#[test]
fn transfer_rejected_proof() {
    let mut source = active_account(1, 30, 0);
    let mut destination = active_account(2, 0, 0);
    let verifier = FixedProofVerifier { accept: false, amount: 1, bound_nonce: 0 };
    let r = Processor::process_transfer(&mut source, &mut destination, &vec![], &vec![], &verifier);
    assert_eq!(r, Err(NyxPayError::InvalidProof));
}

#[test]
fn transfer_replay_after_nonce_advanced() {
    // The proof was bound to nonce 0; the account has since moved on to 2.
    let mut source = active_account(1, 30, 2);
    let mut destination = active_account(2, 0, 0);
    let verifier = accepting_verifier(5, 0);
    let r = Processor::process_transfer(&mut source, &mut destination, &vec![], &vec![], &verifier);
    assert_eq!(r, Err(NyxPayError::InvalidNonce));
    assert_eq!(source.balance, 30);
    assert_eq!(source.nonce, 2);
    assert_eq!(destination.balance, 0);
}

#[test]
fn transfer_from_frozen_source() {
    let mut source = active_account(1, 30, 0);
    source.state = AccountState::Frozen;
    let mut destination = active_account(2, 0, 0);
    // The proof would verify; gating must fail the transfer first.
    let verifier = accepting_verifier(5, 0);
    let r = Processor::process_transfer(&mut source, &mut destination, &vec![], &vec![], &verifier);
    assert_eq!(r, Err(NyxPayError::AccountFrozen));
    assert_eq!(source.balance, 30);
    assert_eq!(destination.balance, 0);
}

#[test]
fn transfer_from_closed_source() {
    let mut source = active_account(1, 30, 0);
    source.state = AccountState::Closed;
    let mut destination = active_account(2, 0, 0);
    let verifier = accepting_verifier(5, 0);
    let r = Processor::process_transfer(&mut source, &mut destination, &vec![], &vec![], &verifier);
    assert_eq!(r, Err(NyxPayError::AccountClosed));
}

#[test]
fn transfer_from_uninitialized_source() {
    let mut source = uninitialized_account();
    let mut destination = active_account(2, 0, 0);
    let verifier = accepting_verifier(5, 0);
    let r = Processor::process_transfer(&mut source, &mut destination, &vec![], &vec![], &verifier);
    assert_eq!(r, Err(NyxPayError::NotInitialized));
}

#[test]
fn transfer_to_uninitialized_destination() {
    let mut source = active_account(1, 30, 0);
    let mut destination = uninitialized_account();
    let verifier = accepting_verifier(5, 0);
    let r = Processor::process_transfer(&mut source, &mut destination, &vec![], &vec![], &verifier);
    assert_eq!(r, Err(NyxPayError::NotInitialized));
}

#[test]
fn transfer_destination_headroom_exhausted() {
    let mut source = active_account(1, 30, 0);
    let mut destination = active_account(2, u64::MAX, 0);
    let verifier = accepting_verifier(1, 0);
    let r = Processor::process_transfer(&mut source, &mut destination, &vec![], &vec![], &verifier);
    assert_eq!(r, Err(NyxPayError::BalanceViolation));
    assert_eq!(source.balance, 30);
    assert_eq!(destination.balance, u64::MAX);
}

#[test]
fn disclosure_accepts_matching_set() {
    let account = active_account(1, 0, 0);
    let verifier = FixedDisclosureVerifier { valid: true, attested: vec![1, 2] };
    let r = Processor::process_verify_disclosure_proof(&account, &vec![7], &vec![1, 2], &verifier);
    assert_eq!(r, Ok(()));
}

#[test]
fn disclosure_is_order_and_multiplicity_insensitive() {
    let account = active_account(1, 0, 0);
    let verifier = FixedDisclosureVerifier { valid: true, attested: vec![2, 1, 2] };
    let r = Processor::process_verify_disclosure_proof(&account, &vec![7], &vec![1, 2, 1], &verifier);
    assert_eq!(r, Ok(()));
}

#[test]
fn disclosure_property_mismatch() {
    // Valid for {1, 2} but requested against {1, 3}: the set comparison, not
    // the cryptographic check, must fail.
    let account = active_account(1, 0, 0);
    let verifier = FixedDisclosureVerifier { valid: true, attested: vec![1, 2] };
    let r = Processor::process_verify_disclosure_proof(&account, &vec![7], &vec![1, 3], &verifier);
    assert_eq!(r, Err(NyxPayError::PropertyMismatch));
}

#[test]
fn disclosure_invalid_proof() {
    let account = active_account(1, 0, 0);
    let verifier = FixedDisclosureVerifier { valid: false, attested: vec![1, 2] };
    let r = Processor::process_verify_disclosure_proof(&account, &vec![7], &vec![1, 2], &verifier);
    assert_eq!(r, Err(NyxPayError::InvalidDisclosureProof));
}

#[test]
fn disclosure_about_uninitialized_account() {
    let account = uninitialized_account();
    let verifier = FixedDisclosureVerifier { valid: true, attested: vec![] };
    let r = Processor::process_verify_disclosure_proof(&account, &vec![7], &vec![], &verifier);
    assert_eq!(r, Err(NyxPayError::NotInitialized));
}

#[test]
fn create_stealth_address_records_and_appends() {
    let mut owner = active_account(1, 0, 0);
    let deriver = FixedStealthDeriver { valid: true };
    let caller = [1u8; 32];
    let r = Processor::process_create_stealth_address(
        &mut owner,
        &caller,
        [8u8; 32],
        [9u8; 32],
        12345,
        &deriver,
    );
    let created = r.expect("creation should succeed");
    assert_eq!(created.owner, [1u8; 32]);
    assert_eq!(created.stealth_pubkey, [8u8; 32]);
    assert_eq!(created.nonce, [9u8; 32]);
    assert_eq!(created.created_at, 12345);
    assert_eq!(owner.stealth_addresses, vec![[8u8; 32]]);
}

#[test]
fn create_same_stealth_address_twice_fails() {
    let mut owner = active_account(1, 0, 0);
    let deriver = FixedStealthDeriver { valid: true };
    let caller = [1u8; 32];
    let first = Processor::process_create_stealth_address(
        &mut owner,
        &caller,
        [8u8; 32],
        [9u8; 32],
        1,
        &deriver,
    );
    assert!(first.is_ok());
    let second = Processor::process_create_stealth_address(
        &mut owner,
        &caller,
        [8u8; 32],
        [9u8; 32],
        2,
        &deriver,
    );
    assert_eq!(second.err(), Some(NyxPayError::InvalidStealthAddress));
    assert_eq!(owner.stealth_addresses, vec![[8u8; 32]]);
}

#[test]
fn create_stealth_address_wrong_caller() {
    let mut owner = active_account(1, 0, 0);
    let deriver = FixedStealthDeriver { valid: true };
    let caller = [2u8; 32];
    let r = Processor::process_create_stealth_address(
        &mut owner,
        &caller,
        [8u8; 32],
        [9u8; 32],
        1,
        &deriver,
    );
    assert_eq!(r.err(), Some(NyxPayError::InvalidAccount));
}

#[test]
fn create_stealth_address_failed_derivation() {
    let mut owner = active_account(1, 0, 0);
    let deriver = FixedStealthDeriver { valid: false };
    let caller = [1u8; 32];
    let r = Processor::process_create_stealth_address(
        &mut owner,
        &caller,
        [8u8; 32],
        [9u8; 32],
        1,
        &deriver,
    );
    assert_eq!(r.err(), Some(NyxPayError::InvalidStealthAddress));
    assert!(owner.stealth_addresses.is_empty());
}

#[test]
fn create_stealth_address_list_is_bounded() {
    let mut owner = active_account(1, 0, 0);
    let deriver = FixedStealthDeriver { valid: true };
    let caller = [1u8; 32];
    for i in 0..10u8 {
        let r = Processor::process_create_stealth_address(
            &mut owner,
            &caller,
            [i; 32],
            [9u8; 32],
            1,
            &deriver,
        );
        assert!(r.is_ok());
    }
    assert_eq!(owner.stealth_addresses.len(), 10);
    let r = Processor::process_create_stealth_address(
        &mut owner,
        &caller,
        [10u8; 32],
        [9u8; 32],
        1,
        &deriver,
    );
    assert_eq!(r.err(), Some(NyxPayError::InvalidStealthAddress));
    assert_eq!(owner.stealth_addresses.len(), 10);
}

#[test]
fn process_dispatches_initialize() {
    let mut first = uninitialized_account();
    let mut second = active_account(2, 0, 0);
    let bytes = NyxPayInstruction::InitializeAccount { initial_balance: 250 }.pack();
    let r = Processor::process(
        &mut first,
        &mut second,
        [6u8; 32],
        0,
        &bytes,
        &accepting_verifier(0, 0),
        &FixedDisclosureVerifier { valid: true, attested: vec![] },
        &FixedStealthDeriver { valid: true },
    );
    assert!(matches!(r, Ok(None)));
    assert_eq!(first.authority, [6u8; 32]);
    assert_eq!(first.balance, 250);
    assert_eq!(first.state, AccountState::Active);
}

#[test]
fn process_dispatches_transfer() {
    let mut first = active_account(1, 100, 0);
    let mut second = active_account(2, 5, 0);
    let bytes = NyxPayInstruction::Transfer { proof: vec![1], public_inputs: vec![2] }.pack();
    let r = Processor::process(
        &mut first,
        &mut second,
        [1u8; 32],
        0,
        &bytes,
        &accepting_verifier(40, 0),
        &FixedDisclosureVerifier { valid: true, attested: vec![] },
        &FixedStealthDeriver { valid: true },
    );
    assert!(matches!(r, Ok(None)));
    assert_eq!(first.balance, 60);
    assert_eq!(second.balance, 45);
    assert_eq!(first.nonce, 1);
}

#[test]
fn process_dispatches_create_stealth_address() {
    let mut first = active_account(1, 0, 0);
    let mut second = active_account(2, 0, 0);
    let bytes = NyxPayInstruction::CreateStealthAddress {
        stealth_pubkey: [8u8; 32],
        nonce: [9u8; 32],
    }
    .pack();
    let r = Processor::process(
        &mut first,
        &mut second,
        [1u8; 32],
        777,
        &bytes,
        &accepting_verifier(0, 0),
        &FixedDisclosureVerifier { valid: true, attested: vec![] },
        &FixedStealthDeriver { valid: true },
    );
    match r {
        Ok(Some(created)) => {
            assert_eq!(created.stealth_pubkey, [8u8; 32]);
            assert_eq!(created.created_at, 777);
        }
        _ => panic!("expected a created stealth account"),
    }
    assert_eq!(first.stealth_addresses, vec![[8u8; 32]]);
}

#[test]
fn process_dispatches_disclosure() {
    let mut first = active_account(1, 0, 0);
    let mut second = active_account(2, 0, 0);
    let bytes = NyxPayInstruction::VerifyDisclosureProof {
        disclosure_proof: vec![7],
        disclosed_properties: vec![1, 2],
    }
    .pack();
    let r = Processor::process(
        &mut first,
        &mut second,
        [1u8; 32],
        0,
        &bytes,
        &accepting_verifier(0, 0),
        &FixedDisclosureVerifier { valid: true, attested: vec![2, 1] },
        &FixedStealthDeriver { valid: true },
    );
    assert!(matches!(r, Ok(None)));
    assert_eq!(first.balance, 0);
    assert_eq!(first.nonce, 0);
}

#[test]
fn process_rejects_undecodable_bytes() {
    let mut first = active_account(1, 100, 0);
    let mut second = active_account(2, 5, 0);
    let r = Processor::process(
        &mut first,
        &mut second,
        [1u8; 32],
        0,
        &[99u8, 1, 2],
        &accepting_verifier(40, 0),
        &FixedDisclosureVerifier { valid: true, attested: vec![] },
        &FixedStealthDeriver { valid: true },
    );
    assert_eq!(r.err(), Some(NyxPayError::InvalidInstruction));
    assert_eq!(first.balance, 100);
    assert_eq!(second.balance, 5);
}
