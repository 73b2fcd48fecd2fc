//! The transfer record and its layout in the state account's buffer: a tag
//! byte, then the fields in order, as in the instruction encoding. A record is
//! read from the front of the buffer; bytes after it are ignored.
use vstd::prelude::*;
use crate::codec::{
    copy_range, le_bytes_u32, le_value_at, lemma_le_value_of_bytes, push_bytes, push_u32_le,
    read_array32, read_u32_le,
};
use crate::error::FileTransferError;

verus! {

/// Tag byte of a location that holds no transfer yet.
pub const UNINITIALIZED_TAG: u8 = 0;

/// Tag byte of a transfer in flight.
pub const PENDING_TAG: u8 = 1;

/// Tag byte of a finished transfer.
pub const COMPLETED_TAG: u8 = 2;

/// Bytes of a pending record before its proof: tag, four 32-byte fields and
/// the proof's length.
pub const PENDING_HEADER_LEN: usize = 133;

/// The lifecycle state of one transfer.
pub enum TransferState {
    /// No transfer exists at this location; a zeroed buffer reads as this.
    Uninitialized,
    /// A transfer in flight, with the parties and the claim fixed at creation.
    Pending {
        sender: [u8; 32],
        recipient: [u8; 32],
        file_hash: [u8; 32],
        commitment: [u8; 32],
        proof: Vec<u8>,
    },
    /// A finished transfer; nothing but the nullifier is kept.
    Completed { nullifier: [u8; 32] },
}

/// What a record holds, as sequences of bytes.
pub enum TransferModel {
    Uninitialized,
    Pending {
        sender: Seq<u8>,
        recipient: Seq<u8>,
        file_hash: Seq<u8>,
        commitment: Seq<u8>,
        proof: Seq<u8>,
    },
    Completed { nullifier: Seq<u8> },
}

impl View for TransferState {
    type V = TransferModel;

    open spec fn view(&self) -> TransferModel {
        match self {
            TransferState::Uninitialized => TransferModel::Uninitialized,
            TransferState::Pending { sender, recipient, file_hash, commitment, proof } => {
                TransferModel::Pending {
                    sender: sender@,
                    recipient: recipient@,
                    file_hash: file_hash@,
                    commitment: commitment@,
                    proof: proof@,
                }
            },
            TransferState::Completed { nullifier } => TransferModel::Completed {
                nullifier: nullifier@,
            },
        }
    }
}

/// The fields have the widths the layout gives them.
pub open spec fn wf_record(s: TransferModel) -> bool {
    match s {
        TransferModel::Uninitialized => true,
        TransferModel::Pending { sender, recipient, file_hash, commitment, proof } => {
            sender.len() == 32 && recipient.len() == 32 && file_hash.len() == 32
                && commitment.len() == 32 && proof.len() <= u32::MAX
        },
        TransferModel::Completed { nullifier } => nullifier.len() == 32,
    }
}

/// The bytes that store `s`.
pub open spec fn encode_record(s: TransferModel) -> Seq<u8> {
    match s {
        TransferModel::Uninitialized => seq![UNINITIALIZED_TAG],
        TransferModel::Pending { sender, recipient, file_hash, commitment, proof } => {
            seq![PENDING_TAG] + sender + recipient + file_hash + commitment + le_bytes_u32(
                proof.len() as u32,
            ) + proof
        },
        TransferModel::Completed { nullifier } => seq![COMPLETED_TAG] + nullifier,
    }
}

/// The record stored at the front of `b`; `None` if its bytes are not one.
pub open spec fn parse_record(b: Seq<u8>) -> Option<TransferModel> {
    if b.len() == 0 {
        None
    } else if b[0] == UNINITIALIZED_TAG {
        Some(TransferModel::Uninitialized)
    } else if b[0] == PENDING_TAG {
        if b.len() < 133 {
            None
        } else {
            let n = le_value_at(b, 129) as int;
            if b.len() < 133 + n {
                None
            } else {
                Some(
                    TransferModel::Pending {
                        sender: b.subrange(1, 33),
                        recipient: b.subrange(33, 65),
                        file_hash: b.subrange(65, 97),
                        commitment: b.subrange(97, 129),
                        proof: b.subrange(133, 133 + n),
                    },
                )
            }
        }
    } else if b[0] == COMPLETED_TAG {
        if b.len() < 33 {
            None
        } else {
            Some(TransferModel::Completed { nullifier: b.subrange(1, 33) })
        }
    } else {
        None
    }
}

/// The buffer `buf` after `s` is written over its front, or `None` where the
/// record does not fit.
pub open spec fn store_record(buf: Seq<u8>, s: TransferModel) -> Option<Seq<u8>> {
    let e = encode_record(s);
    if e.len() <= buf.len() {
        Some(e + buf.subrange(e.len() as int, buf.len() as int))
    } else {
        None
    }
}

/// A stored record is read back whole, whatever bytes follow it.
pub proof fn lemma_record_round_trip(s: TransferModel, rest: Seq<u8>)
    requires
        wf_record(s),
    ensures
        parse_record(encode_record(s) + rest) == Some(s),
{
    let b = encode_record(s) + rest;
    match s {
        TransferModel::Uninitialized => {},
        TransferModel::Pending { sender, recipient, file_hash, commitment, proof } => {
            let n = proof.len() as u32;
            lemma_le_value_of_bytes(n);
            assert(b.subrange(129, 133) =~= le_bytes_u32(n));
            assert(le_value_at(b, 129) == le_value_at(le_bytes_u32(n), 0));
            assert(b.subrange(1, 33) =~= sender);
            assert(b.subrange(33, 65) =~= recipient);
            assert(b.subrange(65, 97) =~= file_hash);
            assert(b.subrange(97, 129) =~= commitment);
            assert(b.subrange(133, 133 + n) =~= proof);
        },
        TransferModel::Completed { nullifier } => {
            assert(b.subrange(1, 33) =~= nullifier);
        },
    }
}

/// Writing a record into a buffer it fits in and reading the buffer back
/// gives the record.
pub proof fn lemma_store_then_load(buf: Seq<u8>, s: TransferModel)
    requires
        wf_record(s),
        store_record(buf, s) is Some,
    ensures
        parse_record(store_record(buf, s)->Some_0) == Some(s),
{
    let e = encode_record(s);
    lemma_record_round_trip(s, buf.subrange(e.len() as int, buf.len() as int));
}

impl TransferState {
    /// Bytes that the state account reserves for a record.
    pub const SIZE: usize = 641;

    /// Reads the record stored at the front of `data`.
    pub fn unpack(data: &[u8]) -> (r: Result<TransferState, FileTransferError>)
        ensures
            match parse_record(data@) {
                Some(m) => r is Ok && r->Ok_0@ == m,
                None => r == Err::<TransferState, FileTransferError>(
                    FileTransferError::StorageFault,
                ),
            },
    {
        let len: usize = data.len();
        if len == 0 {
            return Err(FileTransferError::StorageFault);
        }
        let tag = data[0];
        if tag == UNINITIALIZED_TAG {
            Ok(TransferState::Uninitialized)
        } else if tag == PENDING_TAG {
            let n = match read_u32_le(data, 129) {
                Some(n) => n as usize,
                None => return Err(FileTransferError::StorageFault),
            };
            if len - PENDING_HEADER_LEN < n {
                return Err(FileTransferError::StorageFault);
            }
            let sender = read_array32(data, 1);
            let recipient = read_array32(data, 33);
            let file_hash = read_array32(data, 65);
            let commitment = read_array32(data, 97);
            let proof = copy_range(data, PENDING_HEADER_LEN, PENDING_HEADER_LEN + n);
            Ok(TransferState::Pending { sender, recipient, file_hash, commitment, proof })
        } else if tag == COMPLETED_TAG {
            if len < 33 {
                return Err(FileTransferError::StorageFault);
            }
            let nullifier = read_array32(data, 1);
            Ok(TransferState::Completed { nullifier })
        } else {
            Err(FileTransferError::StorageFault)
        }
    }

    /// The bytes that store the record.
    pub fn pack(&self) -> (r: Vec<u8>)
        requires
            wf_record(self@),
        ensures
            r@ == encode_record(self@),
    {
        let mut out: Vec<u8> = Vec::new();
        match self {
            TransferState::Uninitialized => {
                out.push(UNINITIALIZED_TAG);
            },
            TransferState::Pending { sender, recipient, file_hash, commitment, proof } => {
                out.push(PENDING_TAG);
                push_bytes(&mut out, sender.as_slice());
                push_bytes(&mut out, recipient.as_slice());
                push_bytes(&mut out, file_hash.as_slice());
                push_bytes(&mut out, commitment.as_slice());
                push_u32_le(&mut out, proof.len() as u32);
                push_bytes(&mut out, proof.as_slice());
            },
            TransferState::Completed { nullifier } => {
                out.push(COMPLETED_TAG);
                push_bytes(&mut out, nullifier.as_slice());
            },
        }
        assert(out@ =~= encode_record(self@));
        out
    }

    /// Writes the record over the front of `data`, leaving the rest of the
    /// buffer as it was; a record that does not fit is refused and nothing is
    /// written.
    pub fn store(&self, data: &mut Vec<u8>) -> (r: Result<(), FileTransferError>)
        requires
            wf_record(self@),
        ensures
            match store_record(old(data)@, self@) {
                Some(b) => r is Ok && final(data)@ == b,
                None => r == Err::<(), FileTransferError>(FileTransferError::StorageFault)
                    && final(data)@ == old(data)@,
            },
    {
        let bytes = self.pack();
        if bytes.len() > data.len() {
            return Err(FileTransferError::StorageFault);
        }
        let ghost start = data@;
        let mut i: usize = 0;
        while i < bytes.len()
            invariant
                bytes@ == encode_record(self@),
                bytes@.len() <= start.len(),
                data@.len() == start.len(),
                i <= bytes@.len(),
                forall|j: int| 0 <= j < i ==> data@[j] == bytes@[j],
                forall|j: int| i <= j < start.len() ==> data@[j] == start[j],
            decreases bytes@.len() - i,
        {
            data.set(i, bytes[i]);
            i = i + 1;
        }
        assert(data@ =~= bytes@ + start.subrange(bytes@.len() as int, start.len() as int));
        Ok(())
    }
}

} // verus!
