use vstd::prelude::*;

pub mod admission;
pub mod capability;
pub mod decrypt;
pub mod encrypt;
pub mod service;
pub mod setup;
pub mod tally;
pub mod verify;

verus! {

/// Wire form of one submitted ballot: one serialized compact ciphertext per
/// option, plus the voter's eligibility proof blob.
pub struct VoteData {
    pub votes: Vec<Vec<u8>>,
    pub pcd: String,
}

} // verus!
