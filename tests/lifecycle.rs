use file_transfer::error::FileTransferError;
use file_transfer::instruction::FileTransferInstruction;
use file_transfer::processor::{Account, Processor};
use file_transfer::state::TransferState;
use file_transfer::zk::compute_commitment;

const SENDER: [u8; 32] = [0x11; 32];
const RECIPIENT: [u8; 32] = [0x22; 32];
const STATE: [u8; 32] = [0x33; 32];
const OTHER: [u8; 32] = [0x44; 32];
const FILE_HASH: [u8; 32] = [0x55; 32];
const NULLIFIER: [u8; 32] = [0x66; 32];
const PROOF: &[u8] = b"{\"pi_a\":[\"1\"],\"pi_b\":[[\"2\"]],\"pi_c\":[\"3\"]}";

fn account(key: [u8; 32], is_signer: bool) -> Account {
    Account { key, is_signer, data: Vec::new() }
}

fn state_account() -> Account {
    Account { key: STATE, is_signer: false, data: vec![0u8; TransferState::SIZE] }
}

fn init_payload(proof: &[u8], commitment: [u8; 32]) -> Vec<u8> {
    FileTransferInstruction::InitTransfer { proof: proof.to_vec(), file_hash: FILE_HASH, commitment }
        .pack()
}

fn confirm_payload(nullifier: [u8; 32]) -> Vec<u8> {
    FileTransferInstruction::ConfirmReceipt { nullifier }.pack()
}

fn init_accounts(sender_signed: bool) -> Vec<Account> {
    vec![account(SENDER, sender_signed), account(RECIPIENT, false), state_account()]
}

/// Runs a valid initialization and returns the state buffer it leaves.
fn pending_buffer() -> Vec<u8> {
    let mut accounts = init_accounts(true);
    let payload = init_payload(PROOF, compute_commitment(&FILE_HASH));
    assert_eq!(Processor::process(&mut accounts, &payload), Ok(()));
    accounts.pop().unwrap().data
}

fn confirm_accounts(signer: [u8; 32], signed: bool, data: Vec<u8>) -> Vec<Account> {
    vec![account(signer, signed), Account { key: STATE, is_signer: false, data }]
}

#[test]
fn scenario_init_makes_pending() {
    let data = pending_buffer();
    match TransferState::unpack(&data) {
        Ok(TransferState::Pending { sender, recipient, file_hash, commitment, proof }) => {
            assert_eq!(sender, SENDER);
            assert_eq!(recipient, RECIPIENT);
            assert_eq!(file_hash, FILE_HASH);
            assert_eq!(commitment, compute_commitment(&FILE_HASH));
            assert_eq!(proof, PROOF.to_vec());
        }
        _ => panic!("expected a pending record"),
    }
    assert_eq!(data.len(), TransferState::SIZE);
}

#[test]
fn scenario_recipient_confirms() {
    let mut accounts = confirm_accounts(RECIPIENT, true, pending_buffer());
    assert_eq!(Processor::process(&mut accounts, &confirm_payload(NULLIFIER)), Ok(()));
    match TransferState::unpack(&accounts[1].data) {
        Ok(TransferState::Completed { nullifier }) => assert_eq!(nullifier, NULLIFIER),
        _ => panic!("expected a completed record"),
    }
}

#[test]
fn scenario_second_confirm_is_illegal() {
    let mut accounts = confirm_accounts(RECIPIENT, true, pending_buffer());
    assert_eq!(Processor::process(&mut accounts, &confirm_payload(NULLIFIER)), Ok(()));
    let after_first = accounts[1].data.clone();
    for _ in 0..3 {
        assert_eq!(
            Processor::process(&mut accounts, &confirm_payload(NULLIFIER)),
            Err(FileTransferError::IllegalState)
        );
        assert_eq!(accounts[1].data, after_first);
    }
    accounts[0].is_signer = false;
    assert_eq!(
        Processor::process(&mut accounts, &confirm_payload([0u8; 32])),
        Err(FileTransferError::IllegalState)
    );
}

#[test]
fn scenario_other_party_cannot_confirm() {
    let before = pending_buffer();
    let mut accounts = confirm_accounts(OTHER, true, before.clone());
    assert_eq!(
        Processor::process(&mut accounts, &confirm_payload(NULLIFIER)),
        Err(FileTransferError::RecipientMismatch)
    );
    assert_eq!(accounts[1].data, before);
    let mut unsigned = confirm_accounts(RECIPIENT, false, before.clone());
    assert_eq!(
        Processor::process(&mut unsigned, &confirm_payload(NULLIFIER)),
        Err(FileTransferError::MissingAuthorization)
    );
    assert_eq!(unsigned[1].data, before);
}

#[test]
fn unsigned_init_leaves_state_untouched() {
    let mut accounts = init_accounts(false);
    let payload = init_payload(PROOF, compute_commitment(&FILE_HASH));
    assert_eq!(
        Processor::process(&mut accounts, &payload),
        Err(FileTransferError::MissingAuthorization)
    );
    assert_eq!(accounts[2].data, vec![0u8; TransferState::SIZE]);
}

#[test]
fn incomplete_proof_rejected() {
    let mut accounts = init_accounts(true);
    let payload = init_payload(b"{\"pi_a\":1,\"pi_b\":2}", compute_commitment(&FILE_HASH));
    assert_eq!(Processor::process(&mut accounts, &payload), Err(FileTransferError::InvalidProof));
    assert_eq!(accounts[2].data, vec![0u8; TransferState::SIZE]);
}

#[test]
fn mismatched_commitment_rejected() {
    let mut accounts = init_accounts(true);
    let payload = init_payload(PROOF, FILE_HASH);
    assert_eq!(Processor::process(&mut accounts, &payload), Err(FileTransferError::InvalidProof));
    assert_eq!(accounts[2].data, vec![0u8; TransferState::SIZE]);
}

#[test]
fn malformed_payload_touches_nothing() {
    let mut accounts = init_accounts(true);
    assert_eq!(
        Processor::process(&mut accounts, &[7, 1, 2]),
        Err(FileTransferError::MalformedInstruction)
    );
    assert_eq!(accounts[2].data, vec![0u8; TransferState::SIZE]);
}

#[test]
fn init_over_existing_record_is_illegal() {
    let before = pending_buffer();
    let mut accounts = vec![account(SENDER, true), account(RECIPIENT, false), state_account()];
    accounts[2].data = before.clone();
    let payload = init_payload(PROOF, compute_commitment(&FILE_HASH));
    assert_eq!(Processor::process(&mut accounts, &payload), Err(FileTransferError::IllegalState));
    assert_eq!(accounts[2].data, before);
}

#[test]
fn confirm_on_fresh_record_is_illegal() {
    let mut accounts = confirm_accounts(RECIPIENT, true, vec![0u8; TransferState::SIZE]);
    assert_eq!(
        Processor::process(&mut accounts, &confirm_payload(NULLIFIER)),
        Err(FileTransferError::IllegalState)
    );
}

#[test]
fn too_few_accounts() {
    let mut accounts = vec![account(SENDER, true), account(RECIPIENT, false)];
    let payload = init_payload(PROOF, compute_commitment(&FILE_HASH));
    assert_eq!(
        Processor::process(&mut accounts, &payload),
        Err(FileTransferError::NotEnoughAccountKeys)
    );
    let mut one = vec![account(RECIPIENT, true)];
    assert_eq!(
        Processor::process(&mut one, &confirm_payload(NULLIFIER)),
        Err(FileTransferError::NotEnoughAccountKeys)
    );
}

#[test]
fn oversized_proof_rejected_before_write() {
    let mut big = b"{\"pi_a\":1,\"pi_b\":2,\"pi_c\":3,\"pad\":\"".to_vec();
    big.extend_from_slice(&[b'x'; 600]);
    big.extend_from_slice(b"\"}");
    let mut accounts = init_accounts(true);
    let payload = init_payload(&big, compute_commitment(&FILE_HASH));
    assert_eq!(Processor::process(&mut accounts, &payload), Err(FileTransferError::StorageFault));
    assert_eq!(accounts[2].data, vec![0u8; TransferState::SIZE]);
}

#[test]
fn corrupt_state_is_storage_fault() {
    let mut accounts = init_accounts(true);
    accounts[2].data = vec![9u8; 10];
    let payload = init_payload(PROOF, compute_commitment(&FILE_HASH));
    assert_eq!(Processor::process(&mut accounts, &payload), Err(FileTransferError::StorageFault));
    assert_eq!(accounts[2].data, vec![9u8; 10]);
}

#[test]
fn transitions_called_directly() {
    let next = Processor::init_transition(
        &SENDER,
        true,
        &TransferState::Uninitialized,
        &RECIPIENT,
        vec![1],
        FILE_HASH,
        [0u8; 32],
        true,
    );
    assert!(matches!(next, Ok(TransferState::Pending { .. })));
    let refused = Processor::init_transition(
        &SENDER,
        true,
        &TransferState::Uninitialized,
        &RECIPIENT,
        vec![1],
        FILE_HASH,
        [0u8; 32],
        false,
    );
    assert_eq!(refused.err(), Some(FileTransferError::InvalidProof));
    let pending = next.unwrap();
    let done = Processor::confirm_transition(&pending, &RECIPIENT, true, NULLIFIER);
    assert!(matches!(done, Ok(TransferState::Completed { nullifier }) if nullifier == NULLIFIER));
    let wrong = Processor::confirm_transition(&pending, &OTHER, true, NULLIFIER);
    assert_eq!(wrong.err(), Some(FileTransferError::RecipientMismatch));
}

#[test]
fn direct_init_and_confirm_entry_points() {
    let mut accounts = init_accounts(true);
    let r = Processor::process_init_transfer(
        &mut accounts,
        PROOF.to_vec(),
        FILE_HASH,
        compute_commitment(&FILE_HASH),
    );
    assert_eq!(r, Ok(()));
    let data = accounts.pop().unwrap().data;
    let mut confirm = confirm_accounts(RECIPIENT, true, data);
    assert_eq!(Processor::process_confirm_receipt(&mut confirm, NULLIFIER), Ok(()));
    assert_eq!(confirm[1].data[0], 2);
}
