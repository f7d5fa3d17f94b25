//! The decode/shape gate: ballots that are malformed on the wire are
//! rejected before the Eligibility Oracle or the Tally Store is touched.

use fhe_tally::admission::{screen_ballot, AdmissionResult, ValidationPolicy};
use fhe_tally::VoteData;

fn blob(len: usize) -> Vec<u8> {
    let mut v = Vec::new();
    let mut i: usize = 0;
    while i < len {
        v.push((i % 251) as u8);
        i += 1;
    }
    v
}

#[test]
fn mismatched_count_is_rejected_malformed() {
    // Two ciphertext blobs when three options are configured.
    let data = VoteData { votes: vec![blob(16), blob(16)], pcd: String::from("credential") };
    let r = screen_ballot(ValidationPolicy::CostBound(10), 3, &data);
    assert!(matches!(r, Err(AdmissionResult::RejectedMalformed)));
}

#[test]
fn too_many_ciphertexts_rejected_malformed() {
    let data = VoteData {
        votes: vec![blob(16), blob(16), blob(16), blob(16)],
        pcd: String::from("credential"),
    };
    let r = screen_ballot(ValidationPolicy::CostBound(10), 3, &data);
    assert!(matches!(r, Err(AdmissionResult::RejectedMalformed)));
}

#[test]
fn empty_ballot_rejected_malformed() {
    let data = VoteData { votes: vec![], pcd: String::from("credential") };
    let r = screen_ballot(ValidationPolicy::TrustingExpansion, 1, &data);
    assert!(matches!(r, Err(AdmissionResult::RejectedMalformed)));
}

#[test]
fn undecodable_bytes_rejected_malformed() {
    // The count is right but the bytes encode no ciphertext.
    let data = VoteData { votes: vec![vec![], vec![], vec![]], pcd: String::from("credential") };
    let r = screen_ballot(ValidationPolicy::CostBound(10), 3, &data);
    assert!(matches!(r, Err(AdmissionResult::RejectedMalformed)));
}

#[test]
fn undecodable_bytes_rejected_under_trusting_expansion() {
    let data = VoteData { votes: vec![blob(4)], pcd: String::from("credential") };
    let r = screen_ballot(ValidationPolicy::TrustingExpansion, 1, &data);
    assert!(matches!(r, Err(AdmissionResult::RejectedMalformed)));
}

#[test]
fn proof_policy_wire_ballots_are_a_capability_fault() {
    // This capability version cannot screen a proven wire ballot before
    // verifying it, so the proof-based policy is not served over the wire.
    let data = VoteData { votes: vec![blob(4)], pcd: String::from("credential") };
    let r = screen_ballot(ValidationPolicy::ZkProof, 1, &data);
    assert!(matches!(r, Err(AdmissionResult::Error)));
}

#[test]
fn proof_policy_count_mismatch_still_malformed() {
    // The shape gate precedes the policy fault.
    let data = VoteData { votes: vec![blob(4)], pcd: String::from("credential") };
    let r = screen_ballot(ValidationPolicy::ZkProof, 3, &data);
    assert!(matches!(r, Err(AdmissionResult::RejectedMalformed)));
}
