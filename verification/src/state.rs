//! Account records of the ledger and their mathematical models.

use vstd::prelude::*;

verus! {

/// Upper bound on the number of stealth addresses one user account may hold.
pub const MAX_STEALTH_ADDRESSES: usize = 10;

/// Lifecycle state of a user account.
///
/// The only transitions the protocol admits are
/// `Uninitialized -> Active`, `Active <-> Frozen` and
/// `{Active, Frozen} -> Closed`; `Closed` is terminal. This crate's
/// processor never freezes or closes an account itself, it only checks the
/// state before acting.
#[derive(Clone, Copy, Debug, PartialEq, Eq, Structural)]
pub enum AccountState {
    /// The account record exists but has never been initialized.
    Uninitialized,
    /// The account can send and receive.
    Active,
    /// The account is administratively frozen.
    Frozen,
    /// The account is closed for good.
    Closed,
}

/// Mathematical model of a [`UserAccount`].
#[verifier::ext_equal]
pub struct UserAccountView {
    /// Identifier of the controlling party, 32 bytes.
    pub authority: Seq<u8>,
    /// Value held.
    pub balance: u64,
    /// Replay-protection counter; never decreases.
    pub nonce: u64,
    /// Lifecycle state.
    pub state: AccountState,
    /// Identifiers of the stealth addresses this owner created; set-like.
    pub stealth_addresses: Seq<Seq<u8>>,
}

impl UserAccountView {
    /// Well-formedness of a user account: a 32-byte authority and a bounded
    /// stealth-address list of distinct 32-byte identifiers.
    pub open spec fn wf(self) -> bool {
        &&& self.authority.len() == 32
        &&& self.stealth_addresses.len() <= MAX_STEALTH_ADDRESSES
        &&& forall|i: int, j: int|
            0 <= i < j < self.stealth_addresses.len()
                ==> self.stealth_addresses[i] != self.stealth_addresses[j]
        &&& forall|i: int|
            0 <= i < self.stealth_addresses.len() ==> self.stealth_addresses[i].len() == 32
    }
}

/// One participant's account.
#[derive(Debug, Clone)]
pub struct UserAccount {
    /// Identifier of the controlling party.
    pub authority: [u8; 32],
    /// Value held.
    pub balance: u64,
    /// Replay-protection counter, incremented on each accepted transfer out
    /// of this account.
    pub nonce: u64,
    /// Lifecycle state.
    pub state: AccountState,
    /// Identifiers of the stealth addresses this owner created; kept free of
    /// duplicates.
    pub stealth_addresses: Vec<[u8; 32]>,
}

impl View for UserAccount {
    type V = UserAccountView;

    open spec fn view(&self) -> UserAccountView {
        UserAccountView {
            authority: self.authority@,
            balance: self.balance,
            nonce: self.nonce,
            state: self.state,
            stealth_addresses: self.stealth_addresses.deep_view(),
        }
    }
}

impl UserAccount {
    /// Serialized size of a user account record: authority, balance, nonce,
    /// state tag, and a length-prefixed stealth-address list at its bound.
    pub const LEN: usize = 32 + 8 + 8 + 1 + 4 + 32 * 10;

    /// A freshly initialized account: the given authority and opening
    /// balance, a zero nonce, active, and no stealth addresses yet.
    pub fn new(authority: [u8; 32], initial_balance: u64) -> (account: Self)
        ensures
            account@ == (UserAccountView {
                authority: authority@,
                balance: initial_balance,
                nonce: 0,
                state: AccountState::Active,
                stealth_addresses: Seq::empty(),
            }),
            account@.wf(),
    {
        let account = UserAccount {
            authority,
            balance: initial_balance,
            nonce: 0,
            state: AccountState::Active,
            stealth_addresses: Vec::new(),
        };
        proof {
            assert(account@.stealth_addresses =~= Seq::<Seq<u8>>::empty());
            assert(account@ =~= (UserAccountView {
                authority: authority@,
                balance: initial_balance,
                nonce: 0,
                state: AccountState::Active,
                stealth_addresses: Seq::empty(),
            }));
        }
        account
    }
}

/// Mathematical model of a [`StealthAccount`].
#[verifier::ext_equal]
pub struct StealthAccountView {
    /// Identifier of the user account that created the stealth address.
    pub owner: Seq<u8>,
    /// The derived stealth address, 32 bytes.
    pub stealth_pubkey: Seq<u8>,
    /// Derivation nonce, 32 bytes.
    pub nonce: Seq<u8>,
    /// Creation timestamp.
    pub created_at: i64,
}

/// One generated stealth address. Immutable once created;
/// `stealth_pubkey` is a deterministic function of `(owner, nonce)` under
/// the external derivation scheme.
#[derive(Debug, Clone)]
pub struct StealthAccount {
    /// Identifier of the user account that created the stealth address.
    pub owner: [u8; 32],
    /// The derived stealth address.
    pub stealth_pubkey: [u8; 32],
    /// Derivation nonce used to derive `stealth_pubkey`; distinct in role
    /// from a user account's replay counter.
    pub nonce: [u8; 32],
    /// Creation timestamp.
    pub created_at: i64,
}

impl View for StealthAccount {
    type V = StealthAccountView;

    open spec fn view(&self) -> StealthAccountView {
        StealthAccountView {
            owner: self.owner@,
            stealth_pubkey: self.stealth_pubkey@,
            nonce: self.nonce@,
            created_at: self.created_at,
        }
    }
}

impl StealthAccount {
    /// Serialized size of a stealth account record.
    pub const LEN: usize = 32 + 32 + 32 + 8;
}

/// Which claim a staged proof makes.
#[derive(Clone, Copy, Debug, PartialEq, Eq, Structural)]
pub enum ProofType {
    /// A zero-knowledge transfer proof.
    Transfer,
    /// A selective-disclosure proof.
    Disclosure,
}

/// Mathematical model of a [`ProofAccount`].
#[verifier::ext_equal]
pub struct ProofAccountView {
    /// Serialized proof bytes.
    pub proof_data: Seq<u8>,
    /// Public inputs the proof is checked against.
    pub public_inputs: Seq<u8>,
    /// Which claim the proof makes.
    pub proof_type: ProofType,
    /// Creation timestamp.
    pub created_at: i64,
}

/// Ephemeral staging record for a proof awaiting verification. It is only
/// ever read during verification and must never be reinterpreted under a
/// different `proof_type` than it declares.
#[derive(Debug, Clone)]
pub struct ProofAccount {
    /// Serialized proof bytes.
    pub proof_data: Vec<u8>,
    /// Public inputs the proof is checked against.
    pub public_inputs: Vec<u8>,
    /// Which claim the proof makes.
    pub proof_type: ProofType,
    /// Creation timestamp.
    pub created_at: i64,
}

impl View for ProofAccount {
    type V = ProofAccountView;

    open spec fn view(&self) -> ProofAccountView {
        ProofAccountView {
            proof_data: self.proof_data@,
            public_inputs: self.public_inputs@,
            proof_type: self.proof_type,
            created_at: self.created_at,
        }
    }
}

} // verus!
