//! Turning wire-form ballots into arithmetic-ready ciphertexts: plain
//! expansion, and expansion gated on a zero-knowledge proof of valid
//! encryption.

use vstd::prelude::*;

use crate::capability::{
    expand_compact, verify_and_expand_proven, Ciphertext, CompactCiphertext, ProvenCiphertext,
};
use crate::setup::ServerSetupConfig;

verus! {

/// Why a proven ciphertext was not expanded.
#[derive(Debug)]
pub enum VerifyError {
    /// The proof-based policy is configured but the service has no proof
    /// system parameters: a setup fault, not a property of the ballot.
    MissingZkParams,
    /// The proof did not check out against the ciphertext.
    Proof(tfhe::Error),
}

/// Expansion of compact ciphertexts, with or without proof checking.
pub trait Verifier {
    /// Whether this configuration holds the proof system's public
    /// parameters.
    spec fn has_zk_params(&self) -> bool;

    /// The identity of the held parameter set (meaningful only when
    /// `has_zk_params()`).
    spec fn zk_params_id(&self) -> int;

    /// Expands a compact ciphertext with no semantic check; the plaintext is
    /// unchanged.
    fn expand(&self, compact: &CompactCiphertext) -> (r: Ciphertext)
        ensures
            r@ == compact@,
    ;

    /// Checks the proof bound to the ciphertext and, if it holds, expands
    /// it; the plaintext is unchanged.  Fails with `MissingZkParams` exactly
    /// when the service holds no proof system parameters; against the
    /// parameter set the proof was generated under, it succeeds exactly
    /// when the proof is valid.  Only a conformant ciphertext — one from
    /// `encrypt_and_prove` — may be handed in (see the capability module).
    fn verify_and_expand(&self, compact: ProvenCiphertext) -> (r: Result<Ciphertext, VerifyError>)
        requires
            compact.conformant(),
        ensures
            r matches Ok(c) ==> c@ == compact@,
            !self.has_zk_params() ==> r is Err,
            r matches Err(e) ==> (e is MissingZkParams <==> !self.has_zk_params()),
            self.has_zk_params() && compact.proven_under() == self.zk_params_id() ==> (r is Ok
                <==> compact.proof_valid()),
    ;
}

impl Verifier for ServerSetupConfig {
    open spec fn has_zk_params(&self) -> bool {
        self.public_zk_params is Some
    }

    open spec fn zk_params_id(&self) -> int {
        self.public_zk_params->Some_0.id()
    }

    fn expand(&self, compact: &CompactCiphertext) -> (r: Ciphertext) {
        expand_compact(compact)
    }

    fn verify_and_expand(&self, compact: ProvenCiphertext) -> (r: Result<Ciphertext, VerifyError>) {
        match &self.public_zk_params {
            None => Err(VerifyError::MissingZkParams),
            Some(zk_params) => {
                match verify_and_expand_proven(compact, zk_params, &self.public_key) {
                    Ok(expanded) => Ok(expanded),
                    Err(e) => Err(VerifyError::Proof(e)),
                }
            },
        }
    }
}

} // verus!
