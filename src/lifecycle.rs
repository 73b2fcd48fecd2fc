//! Laws of the transfer lifecycle, stated over the outcome that
//! `Processor::process` is bound to.
use vstd::prelude::*;
use crate::error::FileTransferError;
use crate::instruction::{
    encode_instruction, lemma_parse_encoded_instruction, lemma_unencoded_payload_is_malformed,
    wf_instruction, InstructionModel,
};
use crate::processor::{apply_outcome, next_record, process_outcome, state_slot, Account};
use crate::state::{lemma_store_then_load, parse_record, store_record, wf_record, TransferModel};
use crate::zk::{expected_commitment, proof_well_formed};

verus! {

/// A payload that encodes no instruction is rejected as malformed, before any
/// account is looked at.
pub proof fn lemma_malformed_payload_rejected(accounts: Seq<Account>, payload: Seq<u8>)
    requires
        forall|i: InstructionModel| wf_instruction(i) ==> encode_instruction(i) != payload,
    ensures
        process_outcome(accounts, payload) == Err::<Seq<u8>, FileTransferError>(
            FileTransferError::MalformedInstruction,
        ),
{
    lemma_unencoded_payload_is_malformed(payload);
}

/// An initialization that the sender did not sign is refused for missing
/// authorization, whatever the record and the proof.
pub proof fn lemma_unsigned_init_rejected(
    accounts: Seq<Account>,
    proof: Seq<u8>,
    file_hash: Seq<u8>,
    commitment: Seq<u8>,
)
    requires
        wf_instruction(InstructionModel::InitTransfer { proof, file_hash, commitment }),
        accounts.len() >= 3,
        !accounts[0].is_signer,
    ensures
        process_outcome(
            accounts,
            encode_instruction(InstructionModel::InitTransfer { proof, file_hash, commitment }),
        ) == Err::<Seq<u8>, FileTransferError>(FileTransferError::MissingAuthorization),
{
    lemma_parse_encoded_instruction(InstructionModel::InitTransfer { proof, file_hash, commitment });
}

/// A signed initialization on a fresh record whose proof lacks one of its
/// three components is refused as an invalid proof.
pub proof fn lemma_incomplete_proof_rejected(
    accounts: Seq<Account>,
    proof: Seq<u8>,
    file_hash: Seq<u8>,
    commitment: Seq<u8>,
)
    requires
        wf_instruction(InstructionModel::InitTransfer { proof, file_hash, commitment }),
        accounts.len() >= 3,
        accounts[0].is_signer,
        parse_record(accounts[2].data@) == Some(TransferModel::Uninitialized),
        !proof_well_formed(proof),
    ensures
        process_outcome(
            accounts,
            encode_instruction(InstructionModel::InitTransfer { proof, file_hash, commitment }),
        ) == Err::<Seq<u8>, FileTransferError>(FileTransferError::InvalidProof),
{
    lemma_parse_encoded_instruction(InstructionModel::InitTransfer { proof, file_hash, commitment });
}

/// A signed initialization on a fresh record whose commitment is not the one
/// recomputed from the file hash is refused as an invalid proof, even when the
/// proof has all its components.
pub proof fn lemma_commitment_mismatch_rejected(
    accounts: Seq<Account>,
    proof: Seq<u8>,
    file_hash: Seq<u8>,
    commitment: Seq<u8>,
)
    requires
        wf_instruction(InstructionModel::InitTransfer { proof, file_hash, commitment }),
        accounts.len() >= 3,
        accounts[0].is_signer,
        parse_record(accounts[2].data@) == Some(TransferModel::Uninitialized),
        commitment != expected_commitment(file_hash),
    ensures
        process_outcome(
            accounts,
            encode_instruction(InstructionModel::InitTransfer { proof, file_hash, commitment }),
        ) == Err::<Seq<u8>, FileTransferError>(FileTransferError::InvalidProof),
{
    lemma_parse_encoded_instruction(InstructionModel::InitTransfer { proof, file_hash, commitment });
}

/// The recorded recipient, signing, confirms a pending transfer: the record
/// becomes completed with the given nullifier.
pub proof fn lemma_recipient_confirms(accounts: Seq<Account>, nullifier: Seq<u8>)
    requires
        nullifier.len() == 32,
        accounts.len() >= 2,
        accounts[0].is_signer,
        parse_record(accounts[1].data@) matches Some(TransferModel::Pending { recipient, .. })
            && recipient == accounts[0].key@,
    ensures
        apply_outcome(accounts, InstructionModel::ConfirmReceipt { nullifier }) is Ok,
        parse_record(
            apply_outcome(accounts, InstructionModel::ConfirmReceipt { nullifier })->Ok_0,
        ) == Some(TransferModel::Completed { nullifier }),
{
    let done = TransferModel::Completed { nullifier };
    assert(store_record(accounts[1].data@, done) is Some);
    lemma_store_then_load(accounts[1].data@, done);
}

/// Once a confirmation has succeeded, every later confirmation against the
/// buffer it left is refused for the record's state, whoever signs it.
pub proof fn lemma_second_confirm_rejected(
    accounts: Seq<Account>,
    nullifier: Seq<u8>,
    later: Seq<Account>,
    again: Seq<u8>,
)
    requires
        nullifier.len() == 32,
        apply_outcome(accounts, InstructionModel::ConfirmReceipt { nullifier }) is Ok,
        later.len() >= 2,
        later[1].data@ == apply_outcome(
            accounts,
            InstructionModel::ConfirmReceipt { nullifier },
        )->Ok_0,
    ensures
        apply_outcome(later, InstructionModel::ConfirmReceipt { nullifier: again }) == Err::<
            Seq<u8>,
            FileTransferError,
        >(FileTransferError::IllegalState),
{
    lemma_store_then_load(accounts[1].data@, TransferModel::Completed { nullifier });
}

/// A signed initialization on a fresh record, with a proof that has its three
/// components and the commitment recomputed from the file hash, makes the
/// record pending with the signing sender and the named recipient, provided
/// the record fits in the state buffer.
pub proof fn lemma_valid_init_makes_pending(
    accounts: Seq<Account>,
    proof: Seq<u8>,
    file_hash: Seq<u8>,
    commitment: Seq<u8>,
)
    requires
        wf_instruction(InstructionModel::InitTransfer { proof, file_hash, commitment }),
        accounts.len() >= 3,
        accounts[0].is_signer,
        parse_record(accounts[2].data@) == Some(TransferModel::Uninitialized),
        proof_well_formed(proof),
        commitment == expected_commitment(file_hash),
        accounts[2].data@.len() >= 133 + proof.len(),
    ensures
        ({
            let ins = InstructionModel::InitTransfer { proof, file_hash, commitment };
            let out = process_outcome(accounts, encode_instruction(ins));
            &&& out is Ok
            &&& parse_record(out->Ok_0) == Some(
                TransferModel::Pending {
                    sender: accounts[0].key@,
                    recipient: accounts[1].key@,
                    file_hash,
                    commitment,
                    proof,
                },
            )
        }),
{
    let ins = InstructionModel::InitTransfer { proof, file_hash, commitment };
    lemma_parse_encoded_instruction(ins);
    let rec = TransferModel::Pending {
        sender: accounts[0].key@,
        recipient: accounts[1].key@,
        file_hash,
        commitment,
        proof,
    };
    assert(next_record(accounts, ins) == Ok::<TransferModel, FileTransferError>(rec));
    assert(store_record(accounts[2].data@, rec) is Some);
    lemma_store_then_load(accounts[2].data@, rec);
}

/// A confirmation of a pending transfer by anyone but its recorded recipient
/// is refused, for the missing signature if there is none and for the
/// mismatch otherwise; the record stays as it was.
pub proof fn lemma_non_recipient_cannot_confirm(accounts: Seq<Account>, nullifier: Seq<u8>)
    requires
        accounts.len() >= 2,
        parse_record(accounts[1].data@) matches Some(TransferModel::Pending { recipient, .. })
            && recipient != accounts[0].key@,
    ensures
        apply_outcome(accounts, InstructionModel::ConfirmReceipt { nullifier }) == Err::<
            Seq<u8>,
            FileTransferError,
        >(
            if accounts[0].is_signer {
                FileTransferError::RecipientMismatch
            } else {
                FileTransferError::MissingAuthorization
            },
        ),
{
}

/// Every successful instruction is one of the two legal moves: a fresh
/// record becomes pending with the signing sender and the named recipient, or
/// a pending record becomes completed. Nothing else is ever written.
pub proof fn lemma_only_legal_transitions(accounts: Seq<Account>, ins: InstructionModel)
    requires
        wf_instruction(ins),
        apply_outcome(accounts, ins) is Ok,
    ensures
        ({
            let before = parse_record(accounts[state_slot(ins)].data@);
            let after = parse_record(apply_outcome(accounts, ins)->Ok_0);
            match ins {
                InstructionModel::InitTransfer { proof, file_hash, commitment } => {
                    &&& before == Some(TransferModel::Uninitialized)
                    &&& after == Some(
                        TransferModel::Pending {
                            sender: accounts[0].key@,
                            recipient: accounts[1].key@,
                            file_hash,
                            commitment,
                            proof,
                        },
                    )
                    &&& accounts[0].is_signer
                },
                InstructionModel::ConfirmReceipt { nullifier } => {
                    &&& before matches Some(TransferModel::Pending { recipient, .. })
                        && recipient == accounts[0].key@
                    &&& after == Some(TransferModel::Completed { nullifier })
                    &&& accounts[0].is_signer
                },
            }
        }),
{
    let slot = state_slot(ins);
    let next = next_record(accounts, ins)->Ok_0;
    assert(wf_record(next));
    lemma_store_then_load(accounts[slot].data@, next);
}

} // verus!
