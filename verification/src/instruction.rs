//! Typed instructions and the byte-level wire format.
//!
//! The wire layout is a one-byte opcode tag followed by an opcode-specific
//! body; all multi-byte integers are little-endian. Decoding is total: every
//! byte sequence either parses to an instruction or is rejected as
//! [`NyxPayError::InvalidInstruction`].

use crate::error::NyxPayError;
use vstd::bytes::*;
use vstd::prelude::*;
use vstd::slice::*;

verus! {

/// Mathematical model of an instruction: the same four variants as
/// [`NyxPayInstruction`], with byte sequences in place of vectors.
#[verifier::ext_equal]
pub enum InstructionView {
    /// Initialize a new account with an opening balance.
    InitializeAccount { initial_balance: u64 },
    /// Execute a private transfer backed by a zero-knowledge proof.
    Transfer { proof: Seq<u8>, public_inputs: Seq<u8> },
    /// Register a derived stealth address.
    CreateStealthAddress { stealth_pubkey: Seq<u8>, nonce: Seq<u8> },
    /// Check a selective-disclosure proof against requested properties.
    VerifyDisclosureProof { disclosure_proof: Seq<u8>, disclosed_properties: Seq<u8> },
}

/// One decoded instruction.
#[derive(Debug, Clone, PartialEq, Eq)]
pub enum NyxPayInstruction {
    /// Initialize a new account.
    InitializeAccount {
        /// Opening balance.
        initial_balance: u64,
    },
    /// Execute a private transfer.
    Transfer {
        /// Serialized zero-knowledge proof.
        proof: Vec<u8>,
        /// Public inputs to the proof.
        public_inputs: Vec<u8>,
    },
    /// Register a stealth address.
    CreateStealthAddress {
        /// The derived stealth address.
        stealth_pubkey: [u8; 32],
        /// Nonce used in the derivation.
        nonce: [u8; 32],
    },
    /// Check a selective-disclosure proof.
    VerifyDisclosureProof {
        /// Serialized disclosure proof.
        disclosure_proof: Vec<u8>,
        /// Identifiers of the properties whose disclosure is requested.
        disclosed_properties: Vec<u8>,
    },
}

impl View for NyxPayInstruction {
    type V = InstructionView;

    open spec fn view(&self) -> InstructionView {
        match self {
            NyxPayInstruction::InitializeAccount { initial_balance } => {
                InstructionView::InitializeAccount { initial_balance: *initial_balance }
            },
            NyxPayInstruction::Transfer { proof, public_inputs } => {
                InstructionView::Transfer { proof: proof@, public_inputs: public_inputs@ }
            },
            NyxPayInstruction::CreateStealthAddress { stealth_pubkey, nonce } => {
                InstructionView::CreateStealthAddress {
                    stealth_pubkey: stealth_pubkey@,
                    nonce: nonce@,
                }
            },
            NyxPayInstruction::VerifyDisclosureProof { disclosure_proof, disclosed_properties } => {
                InstructionView::VerifyDisclosureProof {
                    disclosure_proof: disclosure_proof@,
                    disclosed_properties: disclosed_properties@,
                }
            },
        }
    }
}

/// Meaning of a pair of length-prefixed blobs: a 4-byte little-endian length,
/// that many bytes, then a second length and blob. Trailing bytes after the
/// second blob are ignored; a missing length field or a declared length that
/// exceeds the remaining bytes means failure.
pub open spec fn spec_decode_two_blobs(bytes: Seq<u8>) -> Option<(Seq<u8>, Seq<u8>)> {
    if bytes.len() < 4 {
        None
    } else {
        let len1 = spec_u32_from_le_bytes(bytes.subrange(0, 4)) as int;
        if bytes.len() - 4 < len1 {
            None
        } else {
            let blob1 = bytes.subrange(4, 4 + len1);
            let rest = bytes.subrange(4 + len1, bytes.len() as int);
            if rest.len() < 4 {
                None
            } else {
                let len2 = spec_u32_from_le_bytes(rest.subrange(0, 4)) as int;
                if rest.len() - 4 < len2 {
                    None
                } else {
                    Some((blob1, rest.subrange(4, 4 + len2)))
                }
            }
        }
    }
}

/// Total meaning of any byte sequence under the wire format: `Some` of the
/// instruction it encodes, or `None` where no instruction matches.
pub open spec fn spec_decode(bytes: Seq<u8>) -> Option<InstructionView> {
    if bytes.len() < 1 {
        None
    } else {
        let tag = bytes[0];
        let rest = bytes.subrange(1, bytes.len() as int);
        if tag == 0 {
            if rest.len() == 8 {
                Some(InstructionView::InitializeAccount {
                    initial_balance: spec_u64_from_le_bytes(rest),
                })
            } else {
                None
            }
        } else if tag == 1 {
            match spec_decode_two_blobs(rest) {
                Some(blobs) => Some(InstructionView::Transfer {
                    proof: blobs.0,
                    public_inputs: blobs.1,
                }),
                None => None,
            }
        } else if tag == 2 {
            if rest.len() >= 64 {
                Some(InstructionView::CreateStealthAddress {
                    stealth_pubkey: rest.subrange(0, 32),
                    nonce: rest.subrange(32, 64),
                })
            } else {
                None
            }
        } else if tag == 3 {
            match spec_decode_two_blobs(rest) {
                Some(blobs) => Some(InstructionView::VerifyDisclosureProof {
                    disclosure_proof: blobs.0,
                    disclosed_properties: blobs.1,
                }),
                None => None,
            }
        } else {
            None
        }
    }
}

/// Encoding of a pair of length-prefixed blobs.
pub open spec fn spec_encode_two_blobs(blob1: Seq<u8>, blob2: Seq<u8>) -> Seq<u8> {
    spec_u32_to_le_bytes(blob1.len() as u32) + blob1 + spec_u32_to_le_bytes(blob2.len() as u32)
        + blob2
}

/// Whether an instruction fits the wire format: blob lengths must fit their
/// 4-byte length fields and fixed-size fields must be 32 bytes wide.
pub open spec fn encodable(instruction: InstructionView) -> bool {
    match instruction {
        InstructionView::InitializeAccount { .. } => true,
        InstructionView::Transfer { proof, public_inputs } => {
            proof.len() <= u32::MAX && public_inputs.len() <= u32::MAX
        },
        InstructionView::CreateStealthAddress { stealth_pubkey, nonce } => {
            stealth_pubkey.len() == 32 && nonce.len() == 32
        },
        InstructionView::VerifyDisclosureProof { disclosure_proof, disclosed_properties } => {
            disclosure_proof.len() <= u32::MAX && disclosed_properties.len() <= u32::MAX
        },
    }
}

/// The canonical wire encoding of an instruction.
pub open spec fn spec_encode(instruction: InstructionView) -> Seq<u8> {
    match instruction {
        InstructionView::InitializeAccount { initial_balance } => {
            seq![0u8] + spec_u64_to_le_bytes(initial_balance)
        },
        InstructionView::Transfer { proof, public_inputs } => {
            seq![1u8] + spec_encode_two_blobs(proof, public_inputs)
        },
        InstructionView::CreateStealthAddress { stealth_pubkey, nonce } => {
            seq![2u8] + stealth_pubkey + nonce
        },
        InstructionView::VerifyDisclosureProof { disclosure_proof, disclosed_properties } => {
            seq![3u8] + spec_encode_two_blobs(disclosure_proof, disclosed_properties)
        },
    }
}

/// Copies 32 bytes starting at `start` into a fixed-size array.
fn copy_bytes32(input: &[u8], start: usize) -> (out: [u8; 32])
    requires
        start + 32 <= input@.len(),
    ensures
        out@ == input@.subrange(start as int, start as int + 32),
{
    let n = input.len();
    let mut out = [0u8; 32];
    let mut i: usize = 0;
    while i < 32
        invariant
            start + 32 <= n == input@.len(),
            i <= 32,
            forall|j: int| 0 <= j < i ==> out@[j] == input@[start + j],
        decreases 32 - i,
    {
        out[i] = *slice_index_get(input, start + i);
        i = i + 1;
    }
    proof {
        assert(out@ =~= input@.subrange(start as int, start as int + 32));
    }
    out
}

/// Reads one pair of length-prefixed blobs beginning at `start`.
fn read_blob_pair(input: &[u8], start: usize) -> (r: Result<(Vec<u8>, Vec<u8>), NyxPayError>)
    requires
        start <= input@.len(),
    ensures
        match r {
            Ok(pair) => spec_decode_two_blobs(
                input@.subrange(start as int, input@.len() as int),
            ) == Some((pair.0@, pair.1@)),
            Err(e) => {
                &&& e == NyxPayError::InvalidInstruction
                &&& spec_decode_two_blobs(input@.subrange(start as int, input@.len() as int))
                    is None
            },
        },
{
    let ghost bytes = input@.subrange(start as int, input@.len() as int);
    let n = input.len();
    if n - start < 4 {
        return Err(NyxPayError::InvalidInstruction);
    }
    proof {
        assert(bytes.subrange(0, 4) =~= input@.subrange(start as int, start as int + 4));
    }
    let len1 = u32_from_le_bytes(slice_subrange(input, start, start + 4)) as usize;
    if n - (start + 4) < len1 {
        return Err(NyxPayError::InvalidInstruction);
    }
    let blob1 = slice_to_vec(slice_subrange(input, start + 4, start + 4 + len1));
    proof {
        assert(blob1@ =~= bytes.subrange(4, 4 + len1 as int));
    }
    let off2 = start + 4 + len1;
    let ghost rest = bytes.subrange(4 + len1 as int, bytes.len() as int);
    if n - off2 < 4 {
        return Err(NyxPayError::InvalidInstruction);
    }
    proof {
        assert(rest.subrange(0, 4) =~= input@.subrange(off2 as int, off2 as int + 4));
    }
    let len2 = u32_from_le_bytes(slice_subrange(input, off2, off2 + 4)) as usize;
    if n - (off2 + 4) < len2 {
        return Err(NyxPayError::InvalidInstruction);
    }
    let blob2 = slice_to_vec(slice_subrange(input, off2 + 4, off2 + 4 + len2));
    proof {
        assert(blob2@ =~= rest.subrange(4, 4 + len2 as int));
    }
    Ok((blob1, blob2))
}

/// Appends a 4-byte little-endian length and the blob itself.
fn append_blob(bytes: &mut Vec<u8>, blob: &Vec<u8>)
    requires
        blob@.len() <= u32::MAX,
    ensures
        final(bytes)@ == old(bytes)@ + spec_u32_to_le_bytes(blob@.len() as u32) + blob@,
{
    let mut length_bytes = u32_to_le_bytes(blob.len() as u32);
    bytes.append(&mut length_bytes);
    let mut payload = slice_to_vec(blob.as_slice());
    bytes.append(&mut payload);
}

impl NyxPayInstruction {
    /// Decodes a byte buffer into an instruction.
    ///
    /// Total over all byte sequences: returns the instruction the buffer
    /// encodes, or `InvalidInstruction` exactly where the buffer encodes
    /// none.
    pub fn unpack(input: &[u8]) -> (r: Result<Self, NyxPayError>)
        ensures
            match r {
                Ok(instruction) => spec_decode(input@) == Some(instruction@),
                Err(e) => {
                    &&& e == NyxPayError::InvalidInstruction
                    &&& spec_decode(input@) is None
                },
            },
    {
        let n = input.len();
        if n < 1 {
            return Err(NyxPayError::InvalidInstruction);
        }
        let tag = *slice_index_get(input, 0);
        let ghost rest = input@.subrange(1, input@.len() as int);
        if tag == 0 {
            if n != 9 {
                return Err(NyxPayError::InvalidInstruction);
            }
            proof {
                assert(rest =~= input@.subrange(1, 9));
            }
            let initial_balance = u64_from_le_bytes(slice_subrange(input, 1, 9));
            Ok(NyxPayInstruction::InitializeAccount { initial_balance })
        } else if tag == 1 {
            proof {
                assert(rest =~= input@.subrange(1, input@.len() as int));
            }
            match read_blob_pair(input, 1) {
                Ok(pair) => {
                    let (proof, public_inputs) = pair;
                    Ok(NyxPayInstruction::Transfer { proof, public_inputs })
                },
                Err(e) => Err(e),
            }
        } else if tag == 2 {
            if n < 65 {
                return Err(NyxPayError::InvalidInstruction);
            }
            let stealth_pubkey = copy_bytes32(input, 1);
            let nonce = copy_bytes32(input, 33);
            proof {
                assert(stealth_pubkey@ =~= rest.subrange(0, 32));
                assert(nonce@ =~= rest.subrange(32, 64));
            }
            Ok(NyxPayInstruction::CreateStealthAddress { stealth_pubkey, nonce })
        } else if tag == 3 {
            match read_blob_pair(input, 1) {
                Ok(pair) => {
                    let (disclosure_proof, disclosed_properties) = pair;
                    Ok(NyxPayInstruction::VerifyDisclosureProof {
                        disclosure_proof,
                        disclosed_properties,
                    })
                },
                Err(e) => Err(e),
            }
        } else {
            Err(NyxPayError::InvalidInstruction)
        }
    }

    /// Encodes the instruction in the wire format that [`Self::unpack`]
    /// reads.
    pub fn pack(&self) -> (bytes: Vec<u8>)
        requires
            encodable(self@),
        ensures
            bytes@ == spec_encode(self@),
    {
        match self {
            NyxPayInstruction::InitializeAccount { initial_balance } => {
                let mut bytes: Vec<u8> = Vec::new();
                bytes.push(0u8);
                let mut tail = u64_to_le_bytes(*initial_balance);
                bytes.append(&mut tail);
                proof {
                    assert(bytes@ =~= seq![0u8] + spec_u64_to_le_bytes(*initial_balance));
                }
                bytes
            },
            NyxPayInstruction::Transfer { proof, public_inputs } => {
                let mut bytes: Vec<u8> = Vec::new();
                bytes.push(1u8);
                append_blob(&mut bytes, proof);
                append_blob(&mut bytes, public_inputs);
                proof {
                    assert(bytes@ =~= seq![1u8] + spec_encode_two_blobs(proof@, public_inputs@));
                }
                bytes
            },
            NyxPayInstruction::CreateStealthAddress { stealth_pubkey, nonce } => {
                let mut bytes: Vec<u8> = Vec::new();
                bytes.push(2u8);
                let mut key_bytes = slice_to_vec(stealth_pubkey.as_slice());
                bytes.append(&mut key_bytes);
                let mut nonce_bytes = slice_to_vec(nonce.as_slice());
                bytes.append(&mut nonce_bytes);
                proof {
                    assert(bytes@ =~= seq![2u8] + stealth_pubkey@ + nonce@);
                }
                bytes
            },
            NyxPayInstruction::VerifyDisclosureProof { disclosure_proof, disclosed_properties } => {
                let mut bytes: Vec<u8> = Vec::new();
                bytes.push(3u8);
                append_blob(&mut bytes, disclosure_proof);
                append_blob(&mut bytes, disclosed_properties);
                proof {
                    assert(bytes@ =~= seq![3u8] + spec_encode_two_blobs(
                        disclosure_proof@,
                        disclosed_properties@,
                    ));
                }
                bytes
            },
        }
    }
}

/// Decoding inverts encoding for a pair of length-prefixed blobs.
proof fn lemma_two_blobs_round_trip(blob1: Seq<u8>, blob2: Seq<u8>)
    requires
        blob1.len() <= u32::MAX,
        blob2.len() <= u32::MAX,
    ensures
        spec_decode_two_blobs(spec_encode_two_blobs(blob1, blob2)) == Some((blob1, blob2)),
{
    lemma_auto_spec_u32_to_from_le_bytes();
    let bytes = spec_encode_two_blobs(blob1, blob2);
    let len1_bytes = spec_u32_to_le_bytes(blob1.len() as u32);
    let len2_bytes = spec_u32_to_le_bytes(blob2.len() as u32);
    assert(bytes.subrange(0, 4) =~= len1_bytes);
    assert(blob1.len() as u32 as int == blob1.len() as int);
    assert(bytes.subrange(4, 4 + blob1.len() as int) =~= blob1);
    let rest = bytes.subrange(4 + blob1.len() as int, bytes.len() as int);
    assert(rest =~= len2_bytes + blob2);
    assert(rest.subrange(0, 4) =~= len2_bytes);
    assert(blob2.len() as u32 as int == blob2.len() as int);
    assert(rest.subrange(4, 4 + blob2.len() as int) =~= blob2);
}

/// Whatever decoding accepts fits the wire format again: blob lengths came
/// out of 4-byte length fields and fixed-size fields are 32 bytes wide, so a
/// decoded instruction can always be re-encoded.
pub proof fn lemma_decode_encodable(bytes: Seq<u8>)
    ensures
        spec_decode(bytes) matches Some(instruction) ==> encodable(instruction),
{
}

/// Decoding inverts encoding: any instruction that fits the wire format is
/// reproduced, field for field, by decoding its encoding.
pub proof fn lemma_encode_decode(instruction: InstructionView)
    requires
        encodable(instruction),
    ensures
        spec_decode(spec_encode(instruction)) == Some(instruction),
{
    let bytes = spec_encode(instruction);
    match instruction {
        InstructionView::InitializeAccount { initial_balance } => {
            lemma_auto_spec_u64_to_from_le_bytes();
            assert(bytes[0] == 0);
            assert(bytes.subrange(1, bytes.len() as int) =~= spec_u64_to_le_bytes(
                initial_balance,
            ));
        },
        InstructionView::Transfer { proof, public_inputs } => {
            lemma_two_blobs_round_trip(proof, public_inputs);
            assert(bytes[0] == 1);
            assert(bytes.subrange(1, bytes.len() as int) =~= spec_encode_two_blobs(
                proof,
                public_inputs,
            ));
        },
        InstructionView::CreateStealthAddress { stealth_pubkey, nonce } => {
            assert(bytes[0] == 2);
            let rest = bytes.subrange(1, bytes.len() as int);
            assert(rest =~= stealth_pubkey + nonce);
            assert(rest.subrange(0, 32) =~= stealth_pubkey);
            assert(rest.subrange(32, 64) =~= nonce);
        },
        InstructionView::VerifyDisclosureProof { disclosure_proof, disclosed_properties } => {
            lemma_two_blobs_round_trip(disclosure_proof, disclosed_properties);
            assert(bytes[0] == 3);
            assert(bytes.subrange(1, bytes.len() as int) =~= spec_encode_two_blobs(
                disclosure_proof,
                disclosed_properties,
            ));
        },
    }
}

} // verus!
