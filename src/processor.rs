//! The transition engine: decodes an instruction, runs the authorization
//! guard and the proof verifier, and writes the next record into the state
//! account, all or nothing.
use vstd::prelude::*;
use crate::error::FileTransferError;
use crate::instruction::{parse_instruction, FileTransferInstruction, InstructionModel};
use crate::state::{parse_record, store_record, TransferModel, TransferState};
use crate::codec::copy_range;
use crate::zk::{proof_valid, verify_proof};

verus! {

/// One account handed to an invocation: who it is, whether it signed, and
/// its data buffer.
pub struct Account {
    pub key: [u8; 32],
    pub is_signer: bool,
    pub data: Vec<u8>,
}

/// The stateless entry point of the transfer program.
pub struct Processor;

/// Where the state account stands among the accounts of an instruction:
/// after sender and recipient for an initialization, after the recipient for
/// a confirmation.
pub open spec fn state_slot(ins: InstructionModel) -> int {
    match ins {
        InstructionModel::InitTransfer { .. } => 2,
        InstructionModel::ConfirmReceipt { .. } => 1,
    }
}

/// The record an initialization leads to, given whether the sender signed,
/// the record found in storage, and the verifier's verdict.
pub open spec fn init_rule(
    sender: Seq<u8>,
    sender_signed: bool,
    current: TransferModel,
    recipient: Seq<u8>,
    proof: Seq<u8>,
    file_hash: Seq<u8>,
    commitment: Seq<u8>,
    proof_ok: bool,
) -> Result<TransferModel, FileTransferError> {
    if !sender_signed {
        Err(FileTransferError::MissingAuthorization)
    } else if !(current is Uninitialized) {
        Err(FileTransferError::IllegalState)
    } else if !proof_ok {
        Err(FileTransferError::InvalidProof)
    } else {
        Ok(TransferModel::Pending { sender, recipient, file_hash, commitment, proof })
    }
}

/// The record a confirmation leads to, given the record found in storage and
/// the confirming party.
pub open spec fn confirm_rule(
    current: TransferModel,
    signer: Seq<u8>,
    signer_signed: bool,
    nullifier: Seq<u8>,
) -> Result<TransferModel, FileTransferError> {
    match current {
        TransferModel::Pending { recipient, .. } => {
            if !signer_signed {
                Err(FileTransferError::MissingAuthorization)
            } else if signer != recipient {
                Err(FileTransferError::RecipientMismatch)
            } else {
                Ok(TransferModel::Completed { nullifier })
            }
        },
        _ => Err(FileTransferError::IllegalState),
    }
}

/// The record that `ins` leads to from the accounts handed in, which must be
/// enough for it.
pub open spec fn next_record(accounts: Seq<Account>, ins: InstructionModel) -> Result<
    TransferModel,
    FileTransferError,
> {
    match ins {
        InstructionModel::InitTransfer { proof, file_hash, commitment } => {
            if !accounts[0].is_signer {
                Err(FileTransferError::MissingAuthorization)
            } else {
                match parse_record(accounts[2].data@) {
                    None => Err(FileTransferError::StorageFault),
                    Some(current) => init_rule(
                        accounts[0].key@,
                        true,
                        current,
                        accounts[1].key@,
                        proof,
                        file_hash,
                        commitment,
                        proof_valid(proof, file_hash, commitment),
                    ),
                }
            }
        },
        InstructionModel::ConfirmReceipt { nullifier } => {
            match parse_record(accounts[1].data@) {
                None => Err(FileTransferError::StorageFault),
                Some(current) => confirm_rule(
                    current,
                    accounts[0].key@,
                    accounts[0].is_signer,
                    nullifier,
                ),
            }
        },
    }
}

/// The state buffer after `ins` is applied to the accounts, or the error.
pub open spec fn apply_outcome(accounts: Seq<Account>, ins: InstructionModel) -> Result<
    Seq<u8>,
    FileTransferError,
> {
    if accounts.len() <= state_slot(ins) {
        Err(FileTransferError::NotEnoughAccountKeys)
    } else {
        match next_record(accounts, ins) {
            Err(e) => Err(e),
            Ok(rec) => match store_record(accounts[state_slot(ins)].data@, rec) {
                Some(b) => Ok(b),
                None => Err(FileTransferError::StorageFault),
            },
        }
    }
}

/// The state buffer after `payload` is processed against the accounts, or
/// the error.
pub open spec fn process_outcome(accounts: Seq<Account>, payload: Seq<u8>) -> Result<
    Seq<u8>,
    FileTransferError,
> {
    match parse_instruction(payload) {
        None => Err(FileTransferError::MalformedInstruction),
        Some(ins) => apply_outcome(accounts, ins),
    }
}

/// `after` is `before` with only the data of the account at `slot` replaced
/// by `data`.
pub open spec fn only_data_changed(
    before: Seq<Account>,
    after: Seq<Account>,
    slot: int,
    data: Seq<u8>,
) -> bool {
    &&& after.len() == before.len()
    &&& 0 <= slot < before.len()
    &&& forall|j: int| 0 <= j < before.len() && j != slot ==> after[j] == before[j]
    &&& after[slot].key == before[slot].key
    &&& after[slot].is_signer == before[slot].is_signer
    &&& after[slot].data@ == data
}

/// The effect on the accounts that an outcome calls for: on success only
/// the state buffer changes, on failure nothing does.
pub open spec fn outcome_applied(
    before: Seq<Account>,
    after: Seq<Account>,
    slot: int,
    outcome: Result<Seq<u8>, FileTransferError>,
    r: Result<(), FileTransferError>,
) -> bool {
    match outcome {
        Ok(b) => r is Ok && only_data_changed(before, after, slot, b),
        Err(e) => r == Err::<(), FileTransferError>(e) && after == before,
    }
}

impl Processor {
    /// The record an initialization leads to, once the record in storage has
    /// been read and the proof judged (`proof_ok`).
    pub fn init_transition(
        sender: &[u8; 32],
        sender_signed: bool,
        current: &TransferState,
        recipient: &[u8; 32],
        proof: Vec<u8>,
        file_hash: [u8; 32],
        commitment: [u8; 32],
        proof_ok: bool,
    ) -> (r: Result<TransferState, FileTransferError>)
        ensures
            match init_rule(
                sender@,
                sender_signed,
                current@,
                recipient@,
                proof@,
                file_hash@,
                commitment@,
                proof_ok,
            ) {
                Ok(m) => r is Ok && r->Ok_0@ == m,
                Err(e) => r == Err::<TransferState, FileTransferError>(e),
            },
    {
        if !sender_signed {
            return Err(FileTransferError::MissingAuthorization);
        }
        match current {
            TransferState::Uninitialized => {},
            _ => return Err(FileTransferError::IllegalState),
        }
        if !proof_ok {
            return Err(FileTransferError::InvalidProof);
        }
        Ok(TransferState::Pending { sender: *sender, recipient: *recipient, file_hash, commitment, proof })
    }

    /// The record a confirmation leads to from the record in storage.
    pub fn confirm_transition(
        current: &TransferState,
        signer: &[u8; 32],
        signer_signed: bool,
        nullifier: [u8; 32],
    ) -> (r: Result<TransferState, FileTransferError>)
        ensures
            match confirm_rule(current@, signer@, signer_signed, nullifier@) {
                Ok(m) => r is Ok && r->Ok_0@ == m,
                Err(e) => r == Err::<TransferState, FileTransferError>(e),
            },
    {
        match current {
            TransferState::Pending { recipient, .. } => {
                if !signer_signed {
                    return Err(FileTransferError::MissingAuthorization);
                }
                if !crate::zk::digests_equal(signer, recipient) {
                    return Err(FileTransferError::RecipientMismatch);
                }
                Ok(TransferState::Completed { nullifier })
            },
            _ => Err(FileTransferError::IllegalState),
        }
    }

    /// Writes `next` over the front of the data of the account at `slot`.
    fn write_record(accounts: &mut Vec<Account>, slot: usize, next: &TransferState) -> (r: Result<
        (),
        FileTransferError,
    >)
        requires
            slot < old(accounts)@.len(),
            crate::state::wf_record(next@),
        ensures
            outcome_applied(
                old(accounts)@,
                final(accounts)@,
                slot as int,
                match store_record(old(accounts)@[slot as int].data@, next@) {
                    Some(b) => Ok(b),
                    None => Err(FileTransferError::StorageFault),
                },
                r,
            ),
    {
        let len = accounts[slot].data.len();
        let mut data = copy_range(accounts[slot].data.as_slice(), 0, len);
        proof {
            assert(data@ =~= old(accounts)@[slot as int].data@);
        }
        match next.store(&mut data) {
            Ok(()) => {},
            Err(e) => return Err(e),
        }
        let key = accounts[slot].key;
        let is_signer = accounts[slot].is_signer;
        accounts.set(slot, Account { key, is_signer, data });
        Ok(())
    }

    /// Opens a transfer: accounts are the sender, the recipient and the state
    /// account, in that order.
    pub fn process_init_transfer(
        accounts: &mut Vec<Account>,
        proof: Vec<u8>,
        file_hash: [u8; 32],
        commitment: [u8; 32],
    ) -> (r: Result<(), FileTransferError>)
        requires
            proof@.len() <= u32::MAX,
        ensures
            outcome_applied(
                old(accounts)@,
                final(accounts)@,
                2,
                apply_outcome(
                    old(accounts)@,
                    InstructionModel::InitTransfer {
                        proof: proof@,
                        file_hash: file_hash@,
                        commitment: commitment@,
                    },
                ),
                r,
            ),
    {
        if accounts.len() < 3 {
            return Err(FileTransferError::NotEnoughAccountKeys);
        }
        if !accounts[0].is_signer {
            return Err(FileTransferError::MissingAuthorization);
        }
        let current = match TransferState::unpack(accounts[2].data.as_slice()) {
            Ok(s) => s,
            Err(e) => return Err(e),
        };
        let proof_ok = match current {
            TransferState::Uninitialized => verify_proof(proof.as_slice(), &file_hash, &commitment),
            _ => false,
        };
        let sender = accounts[0].key;
        let recipient = accounts[1].key;
        let next = match Self::init_transition(
            &sender,
            true,
            &current,
            &recipient,
            proof,
            file_hash,
            commitment,
            proof_ok,
        ) {
            Ok(s) => s,
            Err(e) => return Err(e),
        };
        Self::write_record(accounts, 2, &next)
    }

    /// Closes a transfer: accounts are the recipient and the state account,
    /// in that order.
    pub fn process_confirm_receipt(accounts: &mut Vec<Account>, nullifier: [u8; 32]) -> (r:
        Result<(), FileTransferError>)
        ensures
            outcome_applied(
                old(accounts)@,
                final(accounts)@,
                1,
                apply_outcome(
                    old(accounts)@,
                    InstructionModel::ConfirmReceipt { nullifier: nullifier@ },
                ),
                r,
            ),
    {
        if accounts.len() < 2 {
            return Err(FileTransferError::NotEnoughAccountKeys);
        }
        let current = match TransferState::unpack(accounts[1].data.as_slice()) {
            Ok(s) => s,
            Err(e) => return Err(e),
        };
        let signer = accounts[0].key;
        let next = match Self::confirm_transition(
            &current,
            &signer,
            accounts[0].is_signer,
            nullifier,
        ) {
            Ok(s) => s,
            Err(e) => return Err(e),
        };
        Self::write_record(accounts, 1, &next)
    }

    /// Decodes `instruction_data` and applies it to the accounts.
    pub fn process(accounts: &mut Vec<Account>, instruction_data: &[u8]) -> (r: Result<
        (),
        FileTransferError,
    >)
        ensures
            outcome_applied(
                old(accounts)@,
                final(accounts)@,
                match parse_instruction(instruction_data@) {
                    Some(ins) => state_slot(ins),
                    None => 0,
                },
                process_outcome(old(accounts)@, instruction_data@),
                r,
            ),
    {
        let instruction = match FileTransferInstruction::unpack(instruction_data) {
            Ok(i) => i,
            Err(e) => return Err(e),
        };
        match instruction {
            FileTransferInstruction::InitTransfer { proof, file_hash, commitment } => {
                Self::process_init_transfer(accounts, proof, file_hash, commitment)
            },
            FileTransferInstruction::ConfirmReceipt { nullifier } => {
                Self::process_confirm_receipt(accounts, nullifier)
            },
        }
    }
}

} // verus!
