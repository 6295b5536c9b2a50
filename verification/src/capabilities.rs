//! Injected verification capabilities.
//!
//! The concrete zero-knowledge backend is outside this crate: the processor
//! depends only on the structural contracts below, supplied at each call as
//! trait implementations. Every capability is deterministic — what it
//! accepts, and what it reads out of the bytes it is shown, are functions of
//! those bytes alone — so it carries no replay protection of its own; the
//! processor binds each transfer proof to the source account's current nonce.

use vstd::prelude::*;
use vstd::slice::slice_to_vec;

verus! {

/// Checks a zero-knowledge transfer proof against its public inputs and
/// reads the values the proof system binds inside those inputs: the transfer
/// amount and the source-account nonce the proof commits to.
pub trait ProofVerifier {
    /// Whether the verifier accepts `proof` against `public_inputs`.
    spec fn spec_verify(&self, proof: Seq<u8>, public_inputs: Seq<u8>) -> bool;

    /// The transfer amount bound inside the public inputs.
    spec fn spec_amount(&self, public_inputs: Seq<u8>) -> i64;

    /// The source-account nonce the proof is bound to.
    spec fn spec_bound_nonce(&self, public_inputs: Seq<u8>) -> u64;

    /// Checks the proof against the public inputs.
    fn verify(&self, proof: &Vec<u8>, public_inputs: &Vec<u8>) -> (accepted: bool)
        ensures
            accepted == self.spec_verify(proof@, public_inputs@),
    ;

    /// Reads the transfer amount bound inside the public inputs.
    fn amount(&self, public_inputs: &Vec<u8>) -> (amount: i64)
        ensures
            amount == self.spec_amount(public_inputs@),
    ;

    /// Reads the nonce the proof is bound to.
    fn bound_nonce(&self, public_inputs: &Vec<u8>) -> (nonce: u64)
        ensures
            nonce == self.spec_bound_nonce(public_inputs@),
    ;
}

/// Checks a selective-disclosure proof and reports the set of property
/// identifiers it attests. Comparing that set against the properties a
/// caller requested is the processor's job, not the verifier's.
pub trait DisclosureVerifier {
    /// Whether the disclosure proof is cryptographically valid.
    spec fn spec_valid(&self, disclosure_proof: Seq<u8>) -> bool;

    /// The set of property identifiers a valid proof attests.
    spec fn spec_attested(&self, disclosure_proof: Seq<u8>) -> Set<u8>;

    /// Checks the disclosure proof itself.
    fn verify(&self, disclosure_proof: &Vec<u8>) -> (accepted: bool)
        ensures
            accepted == self.spec_valid(disclosure_proof@),
    ;

    /// Reports the property identifiers the proof attests.
    fn attested_properties(&self, disclosure_proof: &Vec<u8>) -> (properties: Vec<u8>)
        ensures
            properties@.to_set() == self.spec_attested(disclosure_proof@),
    ;
}

/// Decides whether a stealth address satisfies the deterministic derivation
/// relation of the external scheme for a given owner.
pub trait StealthDeriver {
    /// Whether `(stealth_pubkey, nonce)` derives correctly for `owner`.
    spec fn spec_derives(&self, owner: Seq<u8>, stealth_pubkey: Seq<u8>, nonce: Seq<u8>) -> bool;

    /// Checks the derivation relation.
    fn check_derivation(
        &self,
        owner: &[u8; 32],
        stealth_pubkey: &[u8; 32],
        nonce: &[u8; 32],
    ) -> (valid: bool)
        ensures
            valid == self.spec_derives(owner@, stealth_pubkey@, nonce@),
    ;
}

/// A transfer-proof backend whose verdict and bindings are fixed ahead of
/// time, independent of the bytes it is shown. It stands in for a backend
/// whose decisions arrive out of band, and drives the processor in tests.
pub struct FixedProofVerifier {
    /// The verdict returned for every proof.
    pub accept: bool,
    /// The amount reported as bound in every set of public inputs.
    pub amount: i64,
    /// The nonce reported as bound in every set of public inputs.
    pub bound_nonce: u64,
}

impl ProofVerifier for FixedProofVerifier {
    open spec fn spec_verify(&self, proof: Seq<u8>, public_inputs: Seq<u8>) -> bool {
        self.accept
    }

    open spec fn spec_amount(&self, public_inputs: Seq<u8>) -> i64 {
        self.amount
    }

    open spec fn spec_bound_nonce(&self, public_inputs: Seq<u8>) -> u64 {
        self.bound_nonce
    }

    fn verify(&self, proof: &Vec<u8>, public_inputs: &Vec<u8>) -> (accepted: bool) {
        self.accept
    }

    fn amount(&self, public_inputs: &Vec<u8>) -> (amount: i64) {
        self.amount
    }

    fn bound_nonce(&self, public_inputs: &Vec<u8>) -> (nonce: u64) {
        self.bound_nonce
    }
}

/// A disclosure-proof backend with a fixed verdict and a fixed attested
/// property set, independent of the bytes it is shown.
pub struct FixedDisclosureVerifier {
    /// The verdict returned for every disclosure proof.
    pub valid: bool,
    /// The property identifiers reported as attested by every proof.
    pub attested: Vec<u8>,
}

impl DisclosureVerifier for FixedDisclosureVerifier {
    open spec fn spec_valid(&self, disclosure_proof: Seq<u8>) -> bool {
        self.valid
    }

    open spec fn spec_attested(&self, disclosure_proof: Seq<u8>) -> Set<u8> {
        self.attested@.to_set()
    }

    fn verify(&self, disclosure_proof: &Vec<u8>) -> (accepted: bool) {
        self.valid
    }

    fn attested_properties(&self, disclosure_proof: &Vec<u8>) -> (properties: Vec<u8>) {
        slice_to_vec(self.attested.as_slice())
    }
}

/// A derivation checker with a fixed verdict, independent of the bytes it is
/// shown.
pub struct FixedStealthDeriver {
    /// The verdict returned for every derivation query.
    pub valid: bool,
}

impl StealthDeriver for FixedStealthDeriver {
    open spec fn spec_derives(&self, owner: Seq<u8>, stealth_pubkey: Seq<u8>, nonce: Seq<u8>) -> bool {
        self.valid
    }

    fn check_derivation(
        &self,
        owner: &[u8; 32],
        stealth_pubkey: &[u8; 32],
        nonce: &[u8; 32],
    ) -> (valid: bool) {
        self.valid
    }
}

} // verus!
