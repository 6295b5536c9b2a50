//! The state-transition processor.
//!
//! Each handler takes the accounts an instruction names, checks every
//! precondition, and either applies the whole effect or leaves every account
//! exactly as it was: the checks all come before the first write, so a failed
//! instruction changes nothing. The spec functions in this module state each
//! handler's complete outcome — new account states and result — and the
//! public proof functions at the end establish the protocol laws over them.

use crate::capabilities::{DisclosureVerifier, ProofVerifier, StealthDeriver};
use crate::error::NyxPayError;
use crate::instruction::{spec_decode, InstructionView, NyxPayInstruction};
use crate::state::{
    AccountState, StealthAccount, StealthAccountView, UserAccount, UserAccountView,
    MAX_STEALTH_ADDRESSES,
};
use vstd::prelude::*;

verus! {

/// Outcome of initializing an account: an uninitialized account becomes
/// active under the signing authority with the opening balance, a zero
/// nonce and no stealth addresses; any other account is left unchanged with
/// `AlreadyInitialized`.
pub open spec fn spec_initialize(
    account: UserAccountView,
    authority: Seq<u8>,
    initial_balance: u64,
) -> (UserAccountView, Result<(), NyxPayError>) {
    if account.state == AccountState::Uninitialized {
        (
            UserAccountView {
                authority,
                balance: initial_balance,
                nonce: 0,
                state: AccountState::Active,
                stealth_addresses: Seq::empty(),
            },
            Ok(()),
        )
    } else {
        (account, Err(NyxPayError::AlreadyInitialized))
    }
}

/// Outcome of a transfer attempt: the new source, the new destination, and
/// the result. The checks run in this order, and the first failure decides
/// the error: source lifecycle (`NotInitialized`, `AccountFrozen`,
/// `AccountClosed`), destination initialized, proof verified
/// (`InvalidProof`), nonce binding (`InvalidNonce`, also when the counter
/// cannot advance), amount sign (`NegativeTransfer`), source funds
/// (`InsufficientBalance`), and destination headroom (`BalanceViolation`).
/// On success the amount moves, the source nonce advances by one, and
/// nothing else changes; on failure both accounts are unchanged.
pub open spec fn spec_transfer(
    source: UserAccountView,
    destination: UserAccountView,
    proof_accepted: bool,
    amount: i64,
    bound_nonce: u64,
) -> (UserAccountView, UserAccountView, Result<(), NyxPayError>) {
    if source.state == AccountState::Uninitialized {
        (source, destination, Err(NyxPayError::NotInitialized))
    } else if source.state == AccountState::Frozen {
        (source, destination, Err(NyxPayError::AccountFrozen))
    } else if source.state == AccountState::Closed {
        (source, destination, Err(NyxPayError::AccountClosed))
    } else if destination.state == AccountState::Uninitialized {
        (source, destination, Err(NyxPayError::NotInitialized))
    } else if !proof_accepted {
        (source, destination, Err(NyxPayError::InvalidProof))
    } else if bound_nonce != source.nonce || source.nonce == u64::MAX {
        (source, destination, Err(NyxPayError::InvalidNonce))
    } else if amount < 0 {
        (source, destination, Err(NyxPayError::NegativeTransfer))
    } else if amount > source.balance {
        (source, destination, Err(NyxPayError::InsufficientBalance))
    } else if destination.balance + amount > u64::MAX {
        (source, destination, Err(NyxPayError::BalanceViolation))
    } else {
        (
            UserAccountView {
                balance: (source.balance - amount) as u64,
                nonce: (source.nonce + 1) as u64,
                ..source
            },
            UserAccountView { balance: (destination.balance + amount) as u64, ..destination },
            Ok(()),
        )
    }
}

/// Outcome of registering a stealth address: the new owner account and the
/// created record. The first failure decides the error: owner lifecycle
/// (`NotInitialized`), caller must be the owner's authority
/// (`InvalidAccount`), owner active (`AccountFrozen`, `AccountClosed`), the
/// derivation relation must hold, the address must be new, and the list must
/// have room (each `InvalidStealthAddress`). On failure the owner account is
/// unchanged.
pub open spec fn spec_create_stealth(
    owner: UserAccountView,
    caller: Seq<u8>,
    stealth_pubkey: Seq<u8>,
    nonce: Seq<u8>,
    derivation_valid: bool,
    created_at: i64,
) -> (UserAccountView, Result<StealthAccountView, NyxPayError>) {
    if owner.state == AccountState::Uninitialized {
        (owner, Err(NyxPayError::NotInitialized))
    } else if caller != owner.authority {
        (owner, Err(NyxPayError::InvalidAccount))
    } else if owner.state == AccountState::Frozen {
        (owner, Err(NyxPayError::AccountFrozen))
    } else if owner.state == AccountState::Closed {
        (owner, Err(NyxPayError::AccountClosed))
    } else if !derivation_valid {
        (owner, Err(NyxPayError::InvalidStealthAddress))
    } else if owner.stealth_addresses.contains(stealth_pubkey) {
        (owner, Err(NyxPayError::InvalidStealthAddress))
    } else if owner.stealth_addresses.len() >= MAX_STEALTH_ADDRESSES {
        (owner, Err(NyxPayError::InvalidStealthAddress))
    } else {
        (
            UserAccountView {
                stealth_addresses: owner.stealth_addresses.push(stealth_pubkey),
                ..owner
            },
            Ok(StealthAccountView { owner: owner.authority, stealth_pubkey, nonce, created_at }),
        )
    }
}

/// Outcome of checking a selective-disclosure proof against a requested
/// property set. Read-only: no account changes. The account must be
/// initialized, the proof must verify (`InvalidDisclosureProof`), and the
/// attested property set must equal the requested one exactly, as an
/// unordered set of identifiers (`PropertyMismatch`).
pub open spec fn spec_disclose(
    account: UserAccountView,
    proof_valid: bool,
    attested: Set<u8>,
    requested: Set<u8>,
) -> Result<(), NyxPayError> {
    if account.state == AccountState::Uninitialized {
        Err(NyxPayError::NotInitialized)
    } else if !proof_valid {
        Err(NyxPayError::InvalidDisclosureProof)
    } else if attested != requested {
        Err(NyxPayError::PropertyMismatch)
    } else {
        Ok(())
    }
}

/// Byte-wise equality of two 32-byte identifiers.
fn bytes32_eq(a: &[u8; 32], b: &[u8; 32]) -> (equal: bool)
    ensures
        equal == (a@ == b@),
{
    let mut i: usize = 0;
    while i < 32
        invariant
            i <= 32,
            forall|j: int| 0 <= j < i ==> a@[j] == b@[j],
        decreases 32 - i,
    {
        if a[i] != b[i] {
            return false;
        }
        i = i + 1;
    }
    proof {
        assert(a@ =~= b@);
    }
    true
}

/// Whether `addresses` already holds `target`.
fn contains_address(addresses: &Vec<[u8; 32]>, target: &[u8; 32]) -> (found: bool)
    ensures
        found == addresses.deep_view().contains(target@),
{
    let mut i: usize = 0;
    while i < addresses.len()
        invariant
            i <= addresses@.len(),
            forall|j: int| 0 <= j < i ==> addresses.deep_view()[j] != target@,
        decreases addresses@.len() - i,
    {
        let hit = bytes32_eq(&addresses[i], target);
        proof {
            assert(addresses.deep_view()[i as int] =~= addresses@[i as int]@);
        }
        if hit {
            return true;
        }
        i = i + 1;
    }
    false
}

/// Whether `bytes` holds `target` anywhere.
fn contains_byte(bytes: &Vec<u8>, target: u8) -> (found: bool)
    ensures
        found == bytes@.contains(target),
{
    let mut i: usize = 0;
    while i < bytes.len()
        invariant
            i <= bytes@.len(),
            forall|j: int| 0 <= j < i ==> bytes@[j] != target,
        decreases bytes@.len() - i,
    {
        if bytes[i] == target {
            return true;
        }
        i = i + 1;
    }
    false
}

/// Whether two byte vectors hold the same values, disregarding order and
/// multiplicity.
fn same_byte_set(a: &Vec<u8>, b: &Vec<u8>) -> (equal: bool)
    ensures
        equal == (a@.to_set() == b@.to_set()),
{
    let mut i: usize = 0;
    while i < a.len()
        invariant
            i <= a@.len(),
            forall|j: int| 0 <= j < i ==> b@.contains(#[trigger] a@[j]),
        decreases a@.len() - i,
    {
        if !contains_byte(b, a[i]) {
            proof {
                assert(a@.to_set().contains(a@[i as int]));
                assert(!b@.to_set().contains(a@[i as int]));
            }
            return false;
        }
        i = i + 1;
    }
    let mut k: usize = 0;
    while k < b.len()
        invariant
            k <= b@.len(),
            forall|j: int| 0 <= j < a@.len() ==> b@.contains(#[trigger] a@[j]),
            forall|j: int| 0 <= j < k ==> a@.contains(#[trigger] b@[j]),
        decreases b@.len() - k,
    {
        if !contains_byte(a, b[k]) {
            proof {
                assert(b@.to_set().contains(b@[k as int]));
                assert(!a@.to_set().contains(b@[k as int]));
            }
            return false;
        }
        k = k + 1;
    }
    proof {
        assert forall|x: u8| a@.to_set().contains(x) implies b@.to_set().contains(x) by {
            let j = choose|j: int| 0 <= j < a@.len() && a@[j] == x;
            assert(b@.contains(a@[j]));
        }
        assert forall|x: u8| b@.to_set().contains(x) implies a@.to_set().contains(x) by {
            let j = choose|j: int| 0 <= j < b@.len() && b@[j] == x;
            assert(a@.contains(b@[j]));
        }
        assert(a@.to_set() =~= b@.to_set());
    }
    true
}

/// The model of a processor result: the created stealth record, if any, or
/// the error.
pub open spec fn process_result_view(
    r: Result<Option<StealthAccount>, NyxPayError>,
) -> Result<Option<StealthAccountView>, NyxPayError> {
    match r {
        Ok(created) => match created {
            Some(account) => Ok(Some(account@)),
            None => Ok(None),
        },
        Err(e) => Err(e),
    }
}

/// Complete outcome of one instruction against the two accounts it names:
/// the new first account, the new second account, and the result. Decoding
/// failure rejects the instruction outright; otherwise the decoded variant's
/// transition applies, with the verdicts of the injected capabilities as its
/// inputs.
pub open spec fn spec_process<V: ProofVerifier, D: DisclosureVerifier, S: StealthDeriver>(
    first: UserAccountView,
    second: UserAccountView,
    signer: Seq<u8>,
    now: i64,
    bytes: Seq<u8>,
    proof_verifier: V,
    disclosure_verifier: D,
    stealth_deriver: S,
) -> (UserAccountView, UserAccountView, Result<Option<StealthAccountView>, NyxPayError>) {
    match spec_decode(bytes) {
        None => (first, second, Err(NyxPayError::InvalidInstruction)),
        Some(instruction) => match instruction {
            InstructionView::InitializeAccount { initial_balance } => {
                let (new_first, result) = spec_initialize(first, signer, initial_balance);
                (
                    new_first,
                    second,
                    match result {
                        Ok(u) => Ok(None),
                        Err(e) => Err(e),
                    },
                )
            },
            InstructionView::Transfer { proof, public_inputs } => {
                let (new_first, new_second, result) = spec_transfer(
                    first,
                    second,
                    proof_verifier.spec_verify(proof, public_inputs),
                    proof_verifier.spec_amount(public_inputs),
                    proof_verifier.spec_bound_nonce(public_inputs),
                );
                (
                    new_first,
                    new_second,
                    match result {
                        Ok(u) => Ok(None),
                        Err(e) => Err(e),
                    },
                )
            },
            InstructionView::CreateStealthAddress { stealth_pubkey, nonce } => {
                let (new_first, result) = spec_create_stealth(
                    first,
                    signer,
                    stealth_pubkey,
                    nonce,
                    stealth_deriver.spec_derives(first.authority, stealth_pubkey, nonce),
                    now,
                );
                (
                    new_first,
                    second,
                    match result {
                        Ok(created) => Ok(Some(created)),
                        Err(e) => Err(e),
                    },
                )
            },
            InstructionView::VerifyDisclosureProof { disclosure_proof, disclosed_properties } => {
                let result = spec_disclose(
                    first,
                    disclosure_verifier.spec_valid(disclosure_proof),
                    disclosure_verifier.spec_attested(disclosure_proof),
                    disclosed_properties.to_set(),
                );
                (
                    first,
                    second,
                    match result {
                        Ok(u) => Ok(None),
                        Err(e) => Err(e),
                    },
                )
            },
        },
    }
}

/// The instruction processor. Stateless: every call receives the accounts
/// the instruction names and the verification capabilities to use.
pub struct Processor;

impl Processor {
    /// Initializes `account` under `authority` with an opening balance.
    pub fn process_initialize_account(
        account: &mut UserAccount,
        authority: [u8; 32],
        initial_balance: u64,
    ) -> (r: Result<(), NyxPayError>)
        ensures
            ({
                let (new_account, result) = spec_initialize(
                    old(account)@,
                    authority@,
                    initial_balance,
                );
                final(account)@ == new_account && r == result
            }),
    {
        if account.state == AccountState::Uninitialized {
            account.authority = authority;
            account.balance = initial_balance;
            account.nonce = 0;
            account.state = AccountState::Active;
            account.stealth_addresses = Vec::new();
            proof {
                assert(account@.stealth_addresses =~= Seq::<Seq<u8>>::empty());
                assert(account@ =~= spec_initialize(old(account)@, authority@, initial_balance).0);
            }
            Ok(())
        } else {
            Err(NyxPayError::AlreadyInitialized)
        }
    }

    /// Moves the amount bound in `public_inputs` from `source` to
    /// `destination`, provided the proof verifies and every precondition
    /// holds; applies both balance updates and the source nonce increment
    /// together, or nothing.
    pub fn process_transfer<V: ProofVerifier>(
        source: &mut UserAccount,
        destination: &mut UserAccount,
        proof: &Vec<u8>,
        public_inputs: &Vec<u8>,
        verifier: &V,
    ) -> (r: Result<(), NyxPayError>)
        ensures
            ({
                let (new_source, new_destination, result) = spec_transfer(
                    old(source)@,
                    old(destination)@,
                    verifier.spec_verify(proof@, public_inputs@),
                    verifier.spec_amount(public_inputs@),
                    verifier.spec_bound_nonce(public_inputs@),
                );
                final(source)@ == new_source && final(destination)@ == new_destination && r
                    == result
            }),
    {
        if source.state == AccountState::Uninitialized {
            return Err(NyxPayError::NotInitialized);
        }
        if source.state == AccountState::Frozen {
            return Err(NyxPayError::AccountFrozen);
        }
        if source.state == AccountState::Closed {
            return Err(NyxPayError::AccountClosed);
        }
        if destination.state == AccountState::Uninitialized {
            return Err(NyxPayError::NotInitialized);
        }
        if !verifier.verify(proof, public_inputs) {
            return Err(NyxPayError::InvalidProof);
        }
        let bound_nonce = verifier.bound_nonce(public_inputs);
        if bound_nonce != source.nonce || source.nonce == u64::MAX {
            return Err(NyxPayError::InvalidNonce);
        }
        let amount = verifier.amount(public_inputs);
        if amount < 0 {
            return Err(NyxPayError::NegativeTransfer);
        }
        let moved = amount as u64;
        if moved > source.balance {
            return Err(NyxPayError::InsufficientBalance);
        }
        if moved > u64::MAX - destination.balance {
            return Err(NyxPayError::BalanceViolation);
        }
        let new_source_balance = source.balance - moved;
        let new_destination_balance = destination.balance + moved;
        let new_nonce = source.nonce + 1;
        source.balance = new_source_balance;
        source.nonce = new_nonce;
        destination.balance = new_destination_balance;
        Ok(())
    }

    /// Registers a stealth address for the account whose authority is
    /// `caller`, returning the created record; the owner account gains the
    /// new identifier in its stealth-address list.
    pub fn process_create_stealth_address<S: StealthDeriver>(
        owner_account: &mut UserAccount,
        caller: &[u8; 32],
        stealth_pubkey: [u8; 32],
        nonce: [u8; 32],
        created_at: i64,
        deriver: &S,
    ) -> (r: Result<StealthAccount, NyxPayError>)
        ensures
            ({
                let (new_owner, result) = spec_create_stealth(
                    old(owner_account)@,
                    caller@,
                    stealth_pubkey@,
                    nonce@,
                    deriver.spec_derives(old(owner_account)@.authority, stealth_pubkey@, nonce@),
                    created_at,
                );
                final(owner_account)@ == new_owner && match (r, result) {
                    (Ok(created), Ok(expected)) => created@ == expected,
                    (Err(e), Err(expected)) => e == expected,
                    _ => false,
                }
            }),
    {
        if owner_account.state == AccountState::Uninitialized {
            return Err(NyxPayError::NotInitialized);
        }
        if !bytes32_eq(caller, &owner_account.authority) {
            return Err(NyxPayError::InvalidAccount);
        }
        if owner_account.state == AccountState::Frozen {
            return Err(NyxPayError::AccountFrozen);
        }
        if owner_account.state == AccountState::Closed {
            return Err(NyxPayError::AccountClosed);
        }
        if !deriver.check_derivation(&owner_account.authority, &stealth_pubkey, &nonce) {
            return Err(NyxPayError::InvalidStealthAddress);
        }
        if contains_address(&owner_account.stealth_addresses, &stealth_pubkey) {
            return Err(NyxPayError::InvalidStealthAddress);
        }
        if owner_account.stealth_addresses.len() >= MAX_STEALTH_ADDRESSES {
            return Err(NyxPayError::InvalidStealthAddress);
        }
        let created = StealthAccount {
            owner: owner_account.authority,
            stealth_pubkey,
            nonce,
            created_at,
        };
        owner_account.stealth_addresses.push(stealth_pubkey);
        proof {
            assert(owner_account@.stealth_addresses =~~= old(
                owner_account,
            )@.stealth_addresses.push(stealth_pubkey@));
            assert(owner_account@ =~~= spec_create_stealth(
                old(owner_account)@,
                caller@,
                stealth_pubkey@,
                nonce@,
                true,
                created_at,
            ).0);
        }
        Ok(created)
    }

    /// Checks a selective-disclosure proof against the property identifiers
    /// whose disclosure the caller requested. Read-only.
    pub fn process_verify_disclosure_proof<D: DisclosureVerifier>(
        account: &UserAccount,
        disclosure_proof: &Vec<u8>,
        disclosed_properties: &Vec<u8>,
        verifier: &D,
    ) -> (r: Result<(), NyxPayError>)
        ensures
            r == spec_disclose(
                account@,
                verifier.spec_valid(disclosure_proof@),
                verifier.spec_attested(disclosure_proof@),
                disclosed_properties@.to_set(),
            ),
    {
        if account.state == AccountState::Uninitialized {
            return Err(NyxPayError::NotInitialized);
        }
        if !verifier.verify(disclosure_proof) {
            return Err(NyxPayError::InvalidDisclosureProof);
        }
        let attested = verifier.attested_properties(disclosure_proof);
        if !same_byte_set(&attested, disclosed_properties) {
            return Err(NyxPayError::PropertyMismatch);
        }
        Ok(())
    }

    /// Decodes one instruction and applies it to the accounts it names:
    /// `first` is the account an instruction initializes, transfers from,
    /// owns a stealth address with, or discloses about; `second` is the
    /// transfer destination and is untouched by every other instruction.
    /// Either the whole effect applies, or no account changes and the error
    /// says why.
    pub fn process<V: ProofVerifier, D: DisclosureVerifier, S: StealthDeriver>(
        first: &mut UserAccount,
        second: &mut UserAccount,
        signer: [u8; 32],
        now: i64,
        instruction_data: &[u8],
        proof_verifier: &V,
        disclosure_verifier: &D,
        stealth_deriver: &S,
    ) -> (r: Result<Option<StealthAccount>, NyxPayError>)
        ensures
            ({
                let (new_first, new_second, result) = spec_process(
                    old(first)@,
                    old(second)@,
                    signer@,
                    now,
                    instruction_data@,
                    *proof_verifier,
                    *disclosure_verifier,
                    *stealth_deriver,
                );
                final(first)@ == new_first && final(second)@ == new_second
                    && process_result_view(r) == result
            }),
    {
        let instruction = match NyxPayInstruction::unpack(instruction_data) {
            Ok(instruction) => instruction,
            Err(e) => {
                return Err(e);
            },
        };
        match instruction {
            NyxPayInstruction::InitializeAccount { initial_balance } => {
                match Self::process_initialize_account(first, signer, initial_balance) {
                    Ok(u) => Ok(None),
                    Err(e) => Err(e),
                }
            },
            NyxPayInstruction::Transfer { proof, public_inputs } => {
                match Self::process_transfer(first, second, &proof, &public_inputs, proof_verifier)
                {
                    Ok(u) => Ok(None),
                    Err(e) => Err(e),
                }
            },
            NyxPayInstruction::CreateStealthAddress { stealth_pubkey, nonce } => {
                match Self::process_create_stealth_address(
                    first,
                    &signer,
                    stealth_pubkey,
                    nonce,
                    now,
                    stealth_deriver,
                ) {
                    Ok(created) => Ok(Some(created)),
                    Err(e) => Err(e),
                }
            },
            NyxPayInstruction::VerifyDisclosureProof { disclosure_proof, disclosed_properties } => {
                match Self::process_verify_disclosure_proof(
                    first,
                    &disclosure_proof,
                    &disclosed_properties,
                    disclosure_verifier,
                ) {
                    Ok(u) => Ok(None),
                    Err(e) => Err(e),
                }
            },
        }
    }
}

/// Conservation: an accepted transfer moves the bound amount and nothing
/// else — the two balances change by exactly that amount in opposite
/// directions, so their sum is unchanged.
pub proof fn lemma_transfer_conservation(
    source: UserAccountView,
    destination: UserAccountView,
    proof_accepted: bool,
    amount: i64,
    bound_nonce: u64,
)
    ensures
        ({
            let (new_source, new_destination, result) = spec_transfer(
                source,
                destination,
                proof_accepted,
                amount,
                bound_nonce,
            );
            result is Ok ==> {
                &&& new_source.balance + new_destination.balance == source.balance
                    + destination.balance
                &&& new_source.balance == source.balance - amount
                &&& new_destination.balance == destination.balance + amount
            }
        }),
{
}

/// No negative balances: however a transfer attempt turns out, both
/// resulting balances lie in `0 ..= u64::MAX` — the debit is checked against
/// the funds held and the credit against the headroom left, so neither
/// wraps. Each attempt maps in-range accounts to in-range accounts, so every
/// sequence of transfers keeps every balance non-negative.
pub proof fn lemma_transfer_no_negative_balances(
    source: UserAccountView,
    destination: UserAccountView,
    proof_accepted: bool,
    amount: i64,
    bound_nonce: u64,
)
    ensures
        ({
            let (new_source, new_destination, result) = spec_transfer(
                source,
                destination,
                proof_accepted,
                amount,
                bound_nonce,
            );
            &&& 0 <= new_source.balance <= u64::MAX
            &&& 0 <= new_destination.balance <= u64::MAX
            &&& result is Ok ==> new_source.balance <= source.balance
        }),
{
}

/// One transfer attempt in a ledger history: which accounts it names and
/// what the injected capabilities said about its proof.
pub struct TransferEvent {
    /// Index of the source account in the ledger.
    pub source: int,
    /// Index of the destination account in the ledger.
    pub destination: int,
    /// Whether the proof verified.
    pub proof_accepted: bool,
    /// The amount bound in the public inputs.
    pub amount: i64,
    /// The nonce the proof was bound to.
    pub bound_nonce: u64,
}

/// Applies a sequence of transfer attempts to a ledger of accounts, in
/// order. An event that does not name two distinct existing accounts leaves
/// the ledger unchanged: resolving account references is the host's job and
/// happens before the processor runs.
pub open spec fn spec_apply_transfers(
    ledger: Seq<UserAccountView>,
    events: Seq<TransferEvent>,
) -> Seq<UserAccountView>
    decreases events.len(),
{
    if events.len() == 0 {
        ledger
    } else {
        let event = events[0];
        let next = if 0 <= event.source < ledger.len() && 0 <= event.destination < ledger.len()
            && event.source != event.destination {
            let (new_source, new_destination, result) = spec_transfer(
                ledger[event.source],
                ledger[event.destination],
                event.proof_accepted,
                event.amount,
                event.bound_nonce,
            );
            ledger.update(event.source, new_source).update(event.destination, new_destination)
        } else {
            ledger
        };
        spec_apply_transfers(next, events.drop_first())
    }
}

/// No negative balances over whole histories: after any sequence of
/// transfer attempts — accepted or failed, in any order, between any
/// accounts — every account's balance still lies in `0 ..= u64::MAX`, and no
/// account appears or disappears.
pub proof fn lemma_no_negative_balances_over_history(
    ledger: Seq<UserAccountView>,
    events: Seq<TransferEvent>,
)
    ensures
        spec_apply_transfers(ledger, events).len() == ledger.len(),
        forall|i: int|
            0 <= i < ledger.len() ==> 0 <= #[trigger] spec_apply_transfers(
                ledger,
                events,
            )[i].balance <= u64::MAX,
    decreases events.len(),
{
    if events.len() > 0 {
        let event = events[0];
        let next = if 0 <= event.source < ledger.len() && 0 <= event.destination < ledger.len()
            && event.source != event.destination {
            let (new_source, new_destination, result) = spec_transfer(
                ledger[event.source],
                ledger[event.destination],
                event.proof_accepted,
                event.amount,
                event.bound_nonce,
            );
            ledger.update(event.source, new_source).update(event.destination, new_destination)
        } else {
            ledger
        };
        lemma_no_negative_balances_over_history(next, events.drop_first());
    }
}

/// Total value held across a ledger.
pub open spec fn spec_total_balance(ledger: Seq<UserAccountView>) -> int
    decreases ledger.len(),
{
    if ledger.len() == 0 {
        0
    } else {
        ledger[0].balance + spec_total_balance(ledger.drop_first())
    }
}

/// Replacing one account changes the total held by exactly the difference
/// between the new balance and the old one.
proof fn lemma_total_balance_update(
    ledger: Seq<UserAccountView>,
    i: int,
    account: UserAccountView,
)
    requires
        0 <= i < ledger.len(),
    ensures
        spec_total_balance(ledger.update(i, account)) == spec_total_balance(ledger)
            - ledger[i].balance + account.balance,
    decreases ledger.len(),
{
    let updated = ledger.update(i, account);
    if i == 0 {
        assert(updated.drop_first() =~= ledger.drop_first());
    } else {
        assert(updated.drop_first() =~= ledger.drop_first().update(i - 1, account));
        lemma_total_balance_update(ledger.drop_first(), i - 1, account);
    }
}

/// Conservation over whole histories: no sequence of transfer attempts —
/// accepted or failed, in any order, between any accounts — changes the
/// total value held across the ledger. An accepted transfer moves value; a
/// failed one moves nothing; nothing mints or burns.
pub proof fn lemma_conservation_over_history(
    ledger: Seq<UserAccountView>,
    events: Seq<TransferEvent>,
)
    ensures
        spec_total_balance(spec_apply_transfers(ledger, events)) == spec_total_balance(ledger),
    decreases events.len(),
{
    if events.len() > 0 {
        let event = events[0];
        if 0 <= event.source < ledger.len() && 0 <= event.destination < ledger.len()
            && event.source != event.destination {
            let (new_source, new_destination, result) = spec_transfer(
                ledger[event.source],
                ledger[event.destination],
                event.proof_accepted,
                event.amount,
                event.bound_nonce,
            );
            let mid = ledger.update(event.source, new_source);
            let next = mid.update(event.destination, new_destination);
            lemma_total_balance_update(ledger, event.source, new_source);
            lemma_total_balance_update(mid, event.destination, new_destination);
            assert(mid[event.destination] == ledger[event.destination]);
            lemma_conservation_over_history(next, events.drop_first());
        } else {
            lemma_conservation_over_history(ledger, events.drop_first());
        }
    }
}

/// Single initialization: initializing an uninitialized account succeeds
/// and leaves it active; initializing it again fails with
/// `AlreadyInitialized` and changes nothing, whatever authority or balance
/// the second attempt brings.
pub proof fn lemma_single_initialization(
    account: UserAccountView,
    authority1: Seq<u8>,
    balance1: u64,
    authority2: Seq<u8>,
    balance2: u64,
)
    requires
        account.state == AccountState::Uninitialized,
    ensures
        ({
            let (once, result1) = spec_initialize(account, authority1, balance1);
            let (twice, result2) = spec_initialize(once, authority2, balance2);
            &&& result1 == Ok::<(), NyxPayError>(())
            &&& once.state == AccountState::Active
            &&& result2 == Err::<(), NyxPayError>(NyxPayError::AlreadyInitialized)
            &&& twice == once
        }),
{
}

/// Gating: a transfer from a frozen or closed source fails with the
/// matching lifecycle error and changes nothing, regardless of whether the
/// supplied proof would otherwise verify, and regardless of the amount or
/// nonce it binds.
pub proof fn lemma_transfer_gating(
    source: UserAccountView,
    destination: UserAccountView,
    proof_accepted: bool,
    amount: i64,
    bound_nonce: u64,
)
    requires
        source.state == AccountState::Frozen || source.state == AccountState::Closed,
    ensures
        ({
            let (new_source, new_destination, result) = spec_transfer(
                source,
                destination,
                proof_accepted,
                amount,
                bound_nonce,
            );
            &&& new_source == source
            &&& new_destination == destination
            &&& source.state == AccountState::Frozen ==> result == Err::<(), NyxPayError>(
                NyxPayError::AccountFrozen,
            )
            &&& source.state == AccountState::Closed ==> result == Err::<(), NyxPayError>(
                NyxPayError::AccountClosed,
            )
        }),
{
}

/// Replay rejection: once the source account's nonce has advanced past the
/// nonce a proof was bound to, replaying that proof fails with
/// `InvalidNonce` and changes nothing, even though the proof still
/// verifies.
pub proof fn lemma_replay_rejection(
    source: UserAccountView,
    destination: UserAccountView,
    amount: i64,
    bound_nonce: u64,
)
    requires
        source.state == AccountState::Active,
        destination.state != AccountState::Uninitialized,
        bound_nonce < source.nonce,
    ensures
        ({
            let (new_source, new_destination, result) = spec_transfer(
                source,
                destination,
                true,
                amount,
                bound_nonce,
            );
            &&& new_source == source
            &&& new_destination == destination
            &&& result == Err::<(), NyxPayError>(NyxPayError::InvalidNonce)
        }),
{
}

/// Disclosure correctness: a cryptographically valid disclosure proof whose
/// attested property set differs from the requested one fails with
/// `PropertyMismatch` — not `InvalidDisclosureProof`, which is reserved for
/// proofs that fail verification itself.
pub proof fn lemma_disclosure_mismatch(
    account: UserAccountView,
    attested: Set<u8>,
    requested: Set<u8>,
)
    requires
        account.state != AccountState::Uninitialized,
        attested != requested,
    ensures
        spec_disclose(account, true, attested, requested) == Err::<(), NyxPayError>(
            NyxPayError::PropertyMismatch,
        ),
{
}

/// Stealth uniqueness: after one successful registration of a stealth
/// address, registering the same `(stealth_pubkey, nonce)` pair for the same
/// owner fails with `InvalidStealthAddress` and changes nothing.
pub proof fn lemma_stealth_uniqueness(
    owner: UserAccountView,
    caller: Seq<u8>,
    stealth_pubkey: Seq<u8>,
    nonce: Seq<u8>,
    derivation_valid: bool,
    created_at1: i64,
    created_at2: i64,
)
    ensures
        ({
            let (after_first, result1) = spec_create_stealth(
                owner,
                caller,
                stealth_pubkey,
                nonce,
                derivation_valid,
                created_at1,
            );
            let (after_second, result2) = spec_create_stealth(
                after_first,
                caller,
                stealth_pubkey,
                nonce,
                derivation_valid,
                created_at2,
            );
            result1 is Ok ==> {
                &&& result2 == Err::<StealthAccountView, NyxPayError>(
                    NyxPayError::InvalidStealthAddress,
                )
                &&& after_second == after_first
            }
        }),
{
    let (after_first, result1) = spec_create_stealth(
        owner,
        caller,
        stealth_pubkey,
        nonce,
        derivation_valid,
        created_at1,
    );
    if result1 is Ok {
        assert(after_first.stealth_addresses.last() == stealth_pubkey);
        assert(after_first.stealth_addresses.contains(stealth_pubkey));
    }
}

/// Every transfer attempt keeps the source nonce non-decreasing and leaves
/// the destination nonce alone.
pub proof fn lemma_transfer_nonce_monotonic(
    source: UserAccountView,
    destination: UserAccountView,
    proof_accepted: bool,
    amount: i64,
    bound_nonce: u64,
)
    ensures
        ({
            let (new_source, new_destination, result) = spec_transfer(
                source,
                destination,
                proof_accepted,
                amount,
                bound_nonce,
            );
            &&& new_source.nonce >= source.nonce
            &&& new_destination.nonce == destination.nonce
        }),
{
}

/// Lifecycle discipline: the only state change any handler makes is
/// `Uninitialized` to `Active`, at initialization; transfers and stealth
/// registrations never touch an account's state or authority. Freezing and
/// closing are administrative paths outside the processor.
pub proof fn lemma_lifecycle_paths(
    account: UserAccountView,
    authority: Seq<u8>,
    initial_balance: u64,
    other: UserAccountView,
    proof_accepted: bool,
    amount: i64,
    bound_nonce: u64,
    caller: Seq<u8>,
    stealth_pubkey: Seq<u8>,
    nonce: Seq<u8>,
    derivation_valid: bool,
    created_at: i64,
)
    ensures
        ({
            let (initialized, result) = spec_initialize(account, authority, initial_balance);
            initialized.state == if account.state == AccountState::Uninitialized {
                AccountState::Active
            } else {
                account.state
            }
        }),
        ({
            let (new_source, new_destination, result) = spec_transfer(
                account,
                other,
                proof_accepted,
                amount,
                bound_nonce,
            );
            &&& new_source.state == account.state
            &&& new_destination.state == other.state
            &&& new_source.authority == account.authority
            &&& new_destination.authority == other.authority
        }),
        ({
            let (new_owner, result) = spec_create_stealth(
                account,
                caller,
                stealth_pubkey,
                nonce,
                derivation_valid,
                created_at,
            );
            new_owner.state == account.state && new_owner.authority == account.authority
        }),
{
}

/// Initialization yields a well-formed account whenever the authority is a
/// 32-byte identifier, and a transfer attempt preserves well-formedness of
/// both accounts.
pub proof fn lemma_transitions_preserve_wf(
    account: UserAccountView,
    authority: Seq<u8>,
    initial_balance: u64,
    other: UserAccountView,
    proof_accepted: bool,
    amount: i64,
    bound_nonce: u64,
)
    requires
        account.wf(),
        other.wf(),
        authority.len() == 32,
    ensures
        spec_initialize(account, authority, initial_balance).0.wf(),
        spec_transfer(account, other, proof_accepted, amount, bound_nonce).0.wf(),
        spec_transfer(account, other, proof_accepted, amount, bound_nonce).1.wf(),
{
}

/// Registering a 32-byte stealth address for a well-formed owner keeps the
/// owner well-formed: the new identifier is checked fresh, the list stays
/// within its bound, and every stored identifier keeps its width.
pub proof fn lemma_create_stealth_preserves_wf(
    owner: UserAccountView,
    caller: Seq<u8>,
    stealth_pubkey: Seq<u8>,
    nonce: Seq<u8>,
    derivation_valid: bool,
    created_at: i64,
)
    requires
        owner.wf(),
        stealth_pubkey.len() == 32,
    ensures
        spec_create_stealth(owner, caller, stealth_pubkey, nonce, derivation_valid, created_at)
            .0.wf(),
{
    let (new_owner, result) = spec_create_stealth(
        owner,
        caller,
        stealth_pubkey,
        nonce,
        derivation_valid,
        created_at,
    );
    if result is Ok {
        let addresses = new_owner.stealth_addresses;
        assert forall|i: int, j: int| 0 <= i < j < addresses.len() implies addresses[i]
            != addresses[j] by {
            if j == addresses.len() - 1 {
                assert(!owner.stealth_addresses.contains(stealth_pubkey));
                assert(owner.stealth_addresses[i] != stealth_pubkey);
            }
        }
    }
}

} // verus!
