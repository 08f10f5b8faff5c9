//! The secp256r1 signature-verification instruction, as the vault reads it.
//!
//! The instruction's data starts with the number of signatures and a padding
//! byte. One 14-byte entry per signature follows: seven little-endian 16-bit
//! fields that say where the signature, the public key and the message lie.
//! The vault accepts only entries that point into the instruction's own data,
//! which the index `0xFFFF` marks.
//!
//! Parsing is done by `pinocchio_secp256r1_instruction`. What is stated of it
//! here is believed, not proved; it holds on little-endian targets, which
//! are the only ones that the runtime has.

use vstd::prelude::*;
use pinocchio_secp256r1_instruction::Secp256r1Instruction;
use crate::bytes::{bytes_eq, le_u16};
use crate::error::{VaultError, INVALID_ARGUMENT, INVALID_INSTRUCTION_DATA};

verus! {

/// The instruction index that stands for the instruction itself.
pub const CURRENT_INSTRUCTION: u16 = 0xFFFF;

/// An instruction of the transaction, as read from the instructions sysvar:
/// the program it is addressed to and its data.
#[derive(Clone, Copy, Debug)]
pub struct AdjacentInstruction<'a> {
    pub program_id: [u8; 32],
    pub data: &'a [u8],
}

/// What a signature instruction with a single signature proves: the bytes of
/// `message` were signed with the key `signer`.
#[derive(Clone, Debug)]
pub struct SignatureProof {
    pub signer: [u8; 33],
    pub message: Vec<u8>,
}

/// The address of the secp256r1 signature-verification program.
pub open spec fn program_id_bytes() -> Seq<u8> {
    seq![
        0x06u8, 0x92, 0x0d, 0xec, 0x2f, 0xea, 0x71, 0xb5, 0xb7, 0x23, 0x81, 0x4d, 0x74, 0x2d, 0xa9, 0x03,
        0x1c, 0x83, 0xe7, 0x5f, 0xdb, 0x79, 0x5d, 0x56, 0x8e, 0x75, 0x47, 0x80, 0x20, 0x00, 0x00, 0x00,
    ]
}

/// `Secp256r1Instruction`: a parsed signature instruction. It is opaque here;
/// what is known of one is `instruction_bytes`.
#[verifier::external_type_specification]
#[verifier::external_body]
pub struct ExSecp256r1Instruction<'a>(Secp256r1Instruction<'a>);

/// The instruction data that a parsed instruction was read from.
pub uninterp spec fn instruction_bytes(ix: Secp256r1Instruction) -> Seq<u8>;

/// Whether the data holds its signature count and one entry per signature.
pub open spec fn framed(data: Seq<u8>) -> bool {
    data.len() >= 2 && data.len() >= 2 + (data[0] as int) * 14
}

/// Where the entry of signature `index` starts.
pub open spec fn entry_start(index: int) -> int {
    2 + 14 * index
}

/// The public key of signature `index`, or the code of the error that asking
/// for it gives.
pub open spec fn signer_at(data: Seq<u8>, index: int) -> Result<Seq<u8>, u64> {
    let entry = entry_start(index);
    let start = le_u16(data, entry + 4);
    if index >= data[0] as int {
        Err(INVALID_ARGUMENT)
    } else if le_u16(data, entry + 6) != CURRENT_INSTRUCTION {
        Err(INVALID_INSTRUCTION_DATA)
    } else if start + 33 > data.len() {
        Err(INVALID_INSTRUCTION_DATA)
    } else {
        Ok(data.subrange(start, start + 33))
    }
}

/// The signed message of signature `index`, or the code of the error that
/// asking for it gives.
pub open spec fn message_at(data: Seq<u8>, index: int) -> Result<Seq<u8>, u64> {
    let entry = entry_start(index);
    let start = le_u16(data, entry + 8);
    let end = start + le_u16(data, entry + 10);
    if index >= data[0] as int {
        Err(INVALID_ARGUMENT)
    } else if le_u16(data, entry + 12) != CURRENT_INSTRUCTION {
        Err(INVALID_INSTRUCTION_DATA)
    } else if end > data.len() {
        Err(INVALID_INSTRUCTION_DATA)
    } else {
        Ok(data.subrange(start, end))
    }
}

/// `Secp256r1Instruction::try_from` on a byte slice. It succeeds exactly on
/// framed data and then keeps that data; otherwise it reports invalid
/// instruction data.
#[verifier::external_body]
fn parse<'a>(data: &'a [u8]) -> (r: Result<Secp256r1Instruction<'a>, u64>)
    ensures
        r is Ok <==> framed(data@),
        r matches Ok(ix) ==> instruction_bytes(ix) == data@,
        r matches Err(code) ==> code == INVALID_INSTRUCTION_DATA,
{
    Secp256r1Instruction::try_from(data).map_err(u64::from)
}

/// `Secp256r1Instruction::num_signatures`: the first byte of the data.
#[verifier::external_body]
fn num_signatures(ix: &Secp256r1Instruction) -> (n: u8)
    ensures
        n == instruction_bytes(*ix)[0],
{
    ix.num_signatures()
}

/// `Secp256r1Instruction::get_signer`: the 33 bytes at the entry's public-key
/// offset, where the entry exists, points into this instruction and the key
/// lies within the data.
#[verifier::external_body]
fn get_signer(ix: &Secp256r1Instruction, index: usize) -> (r: Result<[u8; 33], u64>)
    ensures
        signer_at(instruction_bytes(*ix), index as int) == match r {
            Ok(key) => Ok(key@),
            Err(code) => Err(code),
        },
{
    ix.get_signer(index).copied().map_err(u64::from)
}

/// `Secp256r1Instruction::get_message_data`: a copy of the bytes at the
/// entry's message offset, of the entry's message size, where the entry
/// exists, points into this instruction and the message lies within the data.
#[verifier::external_body]
fn get_message_data(ix: &Secp256r1Instruction, index: usize) -> (r: Result<Vec<u8>, u64>)
    ensures
        message_at(instruction_bytes(*ix), index as int) == match r {
            Ok(message) => Ok(message@),
            Err(code) => Err(code),
        },
{
    ix.get_message_data(index).map(<[u8]>::to_vec).map_err(u64::from)
}

/// `SECP256R1_PROGRAM_ID`: the address of the secp256r1 program.
#[verifier::external_body]
fn program_id() -> (id: [u8; 32])
    ensures
        id@ == program_id_bytes(),
{
    pinocchio_secp256r1_instruction::SECP256R1_PROGRAM_ID
}

/// The signer and the signed message that an instruction with the given
/// program id and data proves, or the error with which reading it fails.
///
/// The instruction has to be addressed to the secp256r1 program, be framed,
/// and hold exactly one signature whose key and message lie in its own data.
pub open spec fn proof_of(program_id: Seq<u8>, data: Seq<u8>) -> Result<
    (Seq<u8>, Seq<u8>),
    VaultError,
> {
    if program_id != program_id_bytes() {
        Err(VaultError::IncorrectProgramId)
    } else if !framed(data) {
        Err(VaultError::InvalidInstructionData)
    } else if data[0] != 1 {
        Err(VaultError::InvalidInstructionData)
    } else {
        match signer_at(data, 0) {
            Err(code) => Err(VaultError::of_code(code)),
            Ok(signer) => match message_at(data, 0) {
                Err(code) => Err(VaultError::of_code(code)),
                Ok(message) => Ok((signer, message)),
            },
        }
    }
}

impl SignatureProof {
    /// Reads the signature proof out of the instruction that follows the
    /// current one.
    ///
    /// Fails with `IncorrectProgramId` when the instruction is not addressed
    /// to the secp256r1 program, and with `InvalidInstructionData` when its
    /// data is not framed, when it holds no or several signatures, or when
    /// the key or the message of its signature does not lie in its own data.
    pub fn verify_adjacent(instruction: &AdjacentInstruction) -> (r: Result<
        SignatureProof,
        VaultError,
    >)
        ensures
            proof_of(instruction.program_id@, instruction.data@) == match r {
                Ok(found) => Ok((found.signer@, found.message@)),
                Err(e) => Err(e),
            },
    {
        let expected: [u8; 32] = program_id();
        if !bytes_eq(instruction.program_id.as_slice(), expected.as_slice()) {
            return Err(VaultError::IncorrectProgramId);
        }
        let ix = match parse(instruction.data) {
            Ok(ix) => ix,
            Err(code) => {
                return Err(VaultError::from_code(code));
            },
        };
        if num_signatures(&ix) != 1 {
            return Err(VaultError::InvalidInstructionData);
        }
        let signer: [u8; 33] = match get_signer(&ix, 0) {
            Ok(signer) => signer,
            Err(code) => {
                return Err(VaultError::from_code(code));
            },
        };
        match get_message_data(&ix, 0) {
            Ok(message) => Ok(SignatureProof { signer, message }),
            Err(code) => Err(VaultError::from_code(code)),
        }
    }
}

} // verus!
