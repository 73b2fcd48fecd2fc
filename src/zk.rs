//! The proof verifier. A proof is accepted when it is a JSON object holding
//! the three components `pi_a`, `pi_b` and `pi_c`, and the commitment it comes
//! with is the Keccak-256 digest of the file hash. The structural check stands
//! in for a real pairing check and is kept apart from the commitment check so
//! that it can be replaced alone.
use vstd::prelude::*;

verus! {

/// Whether `doc` parses as a JSON object that has a member named `key`.
pub uninterp spec fn json_member_present(doc: Seq<u8>, key: Seq<char>) -> bool;

/// The Keccak-256 digest of `b`.
pub uninterp spec fn keccak256_of(b: Seq<u8>) -> Seq<u8>;

/// Relies on `serde_json::from_slice` into a `serde_json::Value` and on
/// `Value::get` with a string key: true exactly when `doc` parses and the
/// value is an object with a member `key`. Both depend on the bytes alone.
#[verifier::external_body]
fn json_has_member(doc: &[u8], key: &str) -> (r: bool)
    ensures
        r == json_member_present(doc@, key@),
{
    match serde_json::from_slice::<serde_json::Value>(doc) {
        Ok(v) => v.get(key).is_some(),
        Err(_) => false,
    }
}

/// Relies on `solana_program::keccak::hash` and `Hash::to_bytes`: the 32-byte
/// Keccak-256 digest of `b`.
#[allow(deprecated)]
#[verifier::external_body]
fn keccak256(b: &[u8]) -> (r: [u8; 32])
    ensures
        r@ == keccak256_of(b@),
{
    solana_program::keccak::hash(b).to_bytes()
}

/// The proof document holds the three components of a pairing-based proof.
pub open spec fn proof_well_formed(proof: Seq<u8>) -> bool {
    &&& json_member_present(proof, "pi_a"@)
    &&& json_member_present(proof, "pi_b"@)
    &&& json_member_present(proof, "pi_c"@)
}

/// The commitment that binds a claim on the file with hash `file_hash`.
pub open spec fn expected_commitment(file_hash: Seq<u8>) -> Seq<u8> {
    keccak256_of(file_hash)
}

/// The proof is accepted for this file hash and commitment.
pub open spec fn proof_valid(proof: Seq<u8>, file_hash: Seq<u8>, commitment: Seq<u8>) -> bool {
    proof_well_formed(proof) && commitment == expected_commitment(file_hash)
}

/// Whether the two digests are equal byte for byte.
pub fn digests_equal(a: &[u8; 32], b: &[u8; 32]) -> (r: bool)
    ensures
        r == (a@ == b@),
{
    let mut i: usize = 0;
    while i < 32
        invariant
            i <= 32,
            a@.len() == 32,
            b@.len() == 32,
            forall|j: int| 0 <= j < i ==> a@[j] == b@[j],
        decreases 32 - i,
    {
        if a[i] != b[i] {
            return false;
        }
        i = i + 1;
    }
    assert(a@ =~= b@);
    true
}

/// The commitment for a claim on `file_hash`.
pub fn compute_commitment(file_hash: &[u8; 32]) -> (r: [u8; 32])
    ensures
        r@ == expected_commitment(file_hash@),
{
    keccak256(file_hash.as_slice())
}

/// Whether the proof document holds `pi_a`, `pi_b` and `pi_c`.
pub fn has_proof_components(proof: &[u8]) -> (r: bool)
    ensures
        r == proof_well_formed(proof@),
{
    json_has_member(proof, "pi_a") && json_has_member(proof, "pi_b") && json_has_member(
        proof,
        "pi_c",
    )
}

/// The verdict once both checks have been made: the structure must be present
/// and the supplied commitment must equal the recomputed one. Which of the two
/// failed is not told apart.
pub fn proof_accepted(well_formed: bool, recomputed: &[u8; 32], commitment: &[u8; 32]) -> (r:
    bool)
    ensures
        r == (well_formed && recomputed@ == commitment@),
{
    well_formed && digests_equal(recomputed, commitment)
}

/// Checks a proof against the claim on `file_hash` and the supplied
/// commitment. The commitment is only recomputed for a well-formed proof.
pub fn verify_proof(proof: &[u8], file_hash: &[u8; 32], commitment: &[u8; 32]) -> (r: bool)
    ensures
        r == proof_valid(proof@, file_hash@, commitment@),
{
    if !has_proof_components(proof) {
        return false;
    }
    let recomputed = compute_commitment(file_hash);
    proof_accepted(true, &recomputed, commitment)
}

} // verus!
