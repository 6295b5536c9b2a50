//! Error kinds surfaced by instruction decoding and processing.

use vstd::prelude::*;

verus! {

/// Every way an instruction can fail.
///
/// Each kind carries a stable numeric code, assigned in declaration order
/// starting at 0 (see [`NyxPayError::code`]); the codes are part of the
/// external contract and must not be reordered.
#[derive(Clone, Copy, Debug, PartialEq, Eq, Structural)]
pub enum NyxPayError {
    /// A zero-knowledge transfer proof failed cryptographic verification.
    InvalidProof,
    /// A transfer asked for more than the source balance holds.
    InsufficientBalance,
    /// An account reference does not resolve to the expected entity.
    InvalidAccount,
    /// An internal accounting check failed; signals a logic defect, never a
    /// user error.
    BalanceViolation,
    /// The transfer amount bound in the public inputs is negative.
    NegativeTransfer,
    /// A stealth address failed derivation validation or would duplicate an
    /// existing entry.
    InvalidStealthAddress,
    /// A selective-disclosure proof failed cryptographic verification.
    InvalidDisclosureProof,
    /// A valid disclosure proof attests a different property set than the one
    /// requested.
    PropertyMismatch,
    /// The source account is frozen.
    AccountFrozen,
    /// The source account is closed.
    AccountClosed,
    /// The nonce bound in a transfer proof does not match the source
    /// account's current nonce, or the nonce counter cannot advance.
    InvalidNonce,
    /// The instruction bytes do not parse as any known instruction.
    InvalidInstruction,
    /// An operation other than account initialization targeted an
    /// uninitialized account.
    NotInitialized,
    /// Account initialization targeted an account that is already
    /// initialized.
    AlreadyInitialized,
}

impl NyxPayError {
    /// Numeric code of each error kind, in declaration order from 0.
    pub open spec fn spec_code(self) -> u32 {
        match self {
            NyxPayError::InvalidProof => 0,
            NyxPayError::InsufficientBalance => 1,
            NyxPayError::InvalidAccount => 2,
            NyxPayError::BalanceViolation => 3,
            NyxPayError::NegativeTransfer => 4,
            NyxPayError::InvalidStealthAddress => 5,
            NyxPayError::InvalidDisclosureProof => 6,
            NyxPayError::PropertyMismatch => 7,
            NyxPayError::AccountFrozen => 8,
            NyxPayError::AccountClosed => 9,
            NyxPayError::InvalidNonce => 10,
            NyxPayError::InvalidInstruction => 11,
            NyxPayError::NotInitialized => 12,
            NyxPayError::AlreadyInitialized => 13,
        }
    }

    /// The stable numeric code this error is reported under across the
    /// external interface.
    pub fn code(&self) -> (c: u32)
        ensures
            c == self.spec_code(),
    {
        match self {
            NyxPayError::InvalidProof => 0,
            NyxPayError::InsufficientBalance => 1,
            NyxPayError::InvalidAccount => 2,
            NyxPayError::BalanceViolation => 3,
            NyxPayError::NegativeTransfer => 4,
            NyxPayError::InvalidStealthAddress => 5,
            NyxPayError::InvalidDisclosureProof => 6,
            NyxPayError::PropertyMismatch => 7,
            NyxPayError::AccountFrozen => 8,
            NyxPayError::AccountClosed => 9,
            NyxPayError::InvalidNonce => 10,
            NyxPayError::InvalidInstruction => 11,
            NyxPayError::NotInitialized => 12,
            NyxPayError::AlreadyInitialized => 13,
        }
    }
}

} // verus!
