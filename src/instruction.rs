//! The two instructions and their binary encoding: a tag byte, then the
//! fields in order; a byte vector is a little-endian `u32` length and its
//! bytes, a 32-byte field is its bytes.
use vstd::prelude::*;
use crate::codec::{
    copy_range, le_bytes_u32, le_value_at, lemma_le_bytes_of_value, lemma_le_value_of_bytes,
    push_bytes, push_u32_le, read_array32, read_u32_le,
};
use crate::error::FileTransferError;

verus! {

/// Tag byte of an initialization.
pub const INIT_TRANSFER_TAG: u8 = 0;

/// Tag byte of a confirmation.
pub const CONFIRM_RECEIPT_TAG: u8 = 1;

/// A request to the transfer program.
pub enum FileTransferInstruction {
    /// Opens a transfer: the proof, the hash of the file, and the commitment
    /// that the proof is checked against.
    InitTransfer { proof: Vec<u8>, file_hash: [u8; 32], commitment: [u8; 32] },
    /// Closes a transfer, recording the nullifier.
    ConfirmReceipt { nullifier: [u8; 32] },
}

/// What an instruction holds, as sequences of bytes.
pub enum InstructionModel {
    InitTransfer { proof: Seq<u8>, file_hash: Seq<u8>, commitment: Seq<u8> },
    ConfirmReceipt { nullifier: Seq<u8> },
}

impl View for FileTransferInstruction {
    type V = InstructionModel;

    open spec fn view(&self) -> InstructionModel {
        match self {
            FileTransferInstruction::InitTransfer { proof, file_hash, commitment } => {
                InstructionModel::InitTransfer {
                    proof: proof@,
                    file_hash: file_hash@,
                    commitment: commitment@,
                }
            },
            FileTransferInstruction::ConfirmReceipt { nullifier } => {
                InstructionModel::ConfirmReceipt { nullifier: nullifier@ }
            },
        }
    }
}

/// The fields have the widths the encoding gives them.
pub open spec fn wf_instruction(i: InstructionModel) -> bool {
    match i {
        InstructionModel::InitTransfer { proof, file_hash, commitment } => {
            proof.len() <= u32::MAX && file_hash.len() == 32 && commitment.len() == 32
        },
        InstructionModel::ConfirmReceipt { nullifier } => nullifier.len() == 32,
    }
}

/// The bytes that encode `i`.
pub open spec fn encode_instruction(i: InstructionModel) -> Seq<u8> {
    match i {
        InstructionModel::InitTransfer { proof, file_hash, commitment } => {
            seq![INIT_TRANSFER_TAG] + le_bytes_u32(proof.len() as u32) + proof + file_hash
                + commitment
        },
        InstructionModel::ConfirmReceipt { nullifier } => seq![CONFIRM_RECEIPT_TAG] + nullifier,
    }
}

/// The instruction that `b` encodes, with no byte left over; `None` if there
/// is none.
pub open spec fn parse_instruction(b: Seq<u8>) -> Option<InstructionModel> {
    if b.len() == 0 {
        None
    } else if b[0] == INIT_TRANSFER_TAG {
        if b.len() < 5 {
            None
        } else {
            let n = le_value_at(b, 1) as int;
            if b.len() != 69 + n {
                None
            } else {
                Some(
                    InstructionModel::InitTransfer {
                        proof: b.subrange(5, 5 + n),
                        file_hash: b.subrange(5 + n, 37 + n),
                        commitment: b.subrange(37 + n, 69 + n),
                    },
                )
            }
        }
    } else if b[0] == CONFIRM_RECEIPT_TAG {
        if b.len() != 33 {
            None
        } else {
            Some(InstructionModel::ConfirmReceipt { nullifier: b.subrange(1, 33) })
        }
    } else {
        None
    }
}

/// Every well-formed instruction is read back from its encoding.
pub proof fn lemma_parse_encoded_instruction(i: InstructionModel)
    requires
        wf_instruction(i),
    ensures
        parse_instruction(encode_instruction(i)) == Some(i),
{
    let b = encode_instruction(i);
    match i {
        InstructionModel::InitTransfer { proof, file_hash, commitment } => {
            let n = proof.len() as u32;
            lemma_le_value_of_bytes(n);
            assert(b.subrange(1, 5) =~= le_bytes_u32(n));
            assert(le_value_at(b, 1) == le_value_at(le_bytes_u32(n), 0));
            assert(b.subrange(5, 5 + n) =~= proof);
            assert(b.subrange(5 + n, 37 + n) =~= file_hash);
            assert(b.subrange(37 + n, 69 + n) =~= commitment);
        },
        InstructionModel::ConfirmReceipt { nullifier } => {
            assert(b.subrange(1, 33) =~= nullifier);
        },
    }
}

/// Whatever is read from `b` is well formed and encodes to `b` exactly.
pub proof fn lemma_parsed_instruction_encodes(b: Seq<u8>)
    requires
        parse_instruction(b) is Some,
    ensures
        wf_instruction(parse_instruction(b)->Some_0),
        encode_instruction(parse_instruction(b)->Some_0) == b,
{
    if b[0] == INIT_TRANSFER_TAG {
        let n = le_value_at(b, 1);
        lemma_le_bytes_of_value(b[1], b[2], b[3], b[4]);
        assert(b.subrange(1, 5) =~= seq![b[1], b[2], b[3], b[4]]);
        assert(b =~= seq![b[0]] + b.subrange(1, 5) + b.subrange(5, 5 + n) + b.subrange(
            5 + n,
            37 + n,
        ) + b.subrange(37 + n, 69 + n));
    } else {
        assert(b =~= seq![b[0]] + b.subrange(1, 33));
    }
}

/// A payload that encodes no instruction is rejected as malformed.
pub proof fn lemma_unencoded_payload_is_malformed(b: Seq<u8>)
    requires
        forall|i: InstructionModel| wf_instruction(i) ==> encode_instruction(i) != b,
    ensures
        parse_instruction(b) is None,
{
    if parse_instruction(b) is Some {
        lemma_parsed_instruction_encodes(b);
    }
}

impl FileTransferInstruction {
    /// Decodes a payload that holds exactly one instruction.
    pub fn unpack(data: &[u8]) -> (r: Result<FileTransferInstruction, FileTransferError>)
        ensures
            match parse_instruction(data@) {
                Some(m) => r is Ok && r->Ok_0@ == m,
                None => r == Err::<FileTransferInstruction, FileTransferError>(
                    FileTransferError::MalformedInstruction,
                ),
            },
    {
        let len: usize = data.len();
        if len == 0 {
            return Err(FileTransferError::MalformedInstruction);
        }
        if data[0] == INIT_TRANSFER_TAG {
            let n = match read_u32_le(data, 1) {
                Some(n) => n,
                None => return Err(FileTransferError::MalformedInstruction),
            };
            let n = n as usize;
            if len - 5 < 64 || len - 69 != n {
                return Err(FileTransferError::MalformedInstruction);
            }
            let proof = copy_range(data, 5, 5 + n);
            let file_hash = read_array32(data, 5 + n);
            let commitment = read_array32(data, 37 + n);
            Ok(FileTransferInstruction::InitTransfer { proof, file_hash, commitment })
        } else if data[0] == CONFIRM_RECEIPT_TAG {
            if len != 33 {
                return Err(FileTransferError::MalformedInstruction);
            }
            let nullifier = read_array32(data, 1);
            Ok(FileTransferInstruction::ConfirmReceipt { nullifier })
        } else {
            Err(FileTransferError::MalformedInstruction)
        }
    }

    /// Encodes the instruction.
    pub fn pack(&self) -> (r: Vec<u8>)
        requires
            wf_instruction(self@),
        ensures
            r@ == encode_instruction(self@),
    {
        let mut out: Vec<u8> = Vec::new();
        match self {
            FileTransferInstruction::InitTransfer { proof, file_hash, commitment } => {
                out.push(INIT_TRANSFER_TAG);
                push_u32_le(&mut out, proof.len() as u32);
                push_bytes(&mut out, proof.as_slice());
                push_bytes(&mut out, file_hash.as_slice());
                push_bytes(&mut out, commitment.as_slice());
            },
            FileTransferInstruction::ConfirmReceipt { nullifier } => {
                out.push(CONFIRM_RECEIPT_TAG);
                push_bytes(&mut out, nullifier.as_slice());
            },
        }
        assert(out@ =~= encode_instruction(self@));
        out
    }
}

} // verus!
