//! Client-side encryption of ballot values, with or without a
//! zero-knowledge proof of valid encryption.

use vstd::prelude::*;

use crate::capability::{compact_encrypt, proven_encrypt, CompactCiphertext, ProvenCiphertext};
use crate::setup::ClientSetupConfig;

verus! {

/// Why a value was not encrypted.
#[derive(Debug)]
pub enum EncryptError {
    /// Proving encryption needs the proof system's public parameters, and
    /// this configuration holds none.
    MissingZkParams,
    /// The scheme refused the encryption.
    Scheme(tfhe::Error),
}

/// Encryption under the service's public key.
pub trait Encrypter {
    /// Whether this configuration holds the proof system's public
    /// parameters.
    spec fn has_zk_params(&self) -> bool;

    /// The identity of the held parameter set (meaningful only when
    /// `has_zk_params()`).
    spec fn zk_params_id(&self) -> int;

    /// Encrypts a value into the compact transport form; this always
    /// succeeds, and the ciphertext stands for exactly that value.
    fn encrypt(&self, clear: u64) -> (r: Result<CompactCiphertext, EncryptError>)
        ensures
            r is Ok,
            r matches Ok(c) ==> c@ == clear,
    ;

    /// Encrypts a value and binds a zero-knowledge proof of valid
    /// encryption to it; on success the ciphertext stands for exactly that
    /// value, is conformant, and its proof verifies under this
    /// configuration's parameter set — a server holding the same parameter
    /// set accepts it.  Fails with `MissingZkParams` exactly when this
    /// configuration holds no proof system parameters.
    fn encrypt_and_prove(&self, clear: u64) -> (r: Result<ProvenCiphertext, EncryptError>)
        ensures
            r matches Ok(c) ==> c@ == clear && c.proof_valid() && c.proven_under()
                == self.zk_params_id() && c.conformant(),
            !self.has_zk_params() ==> r is Err,
            r matches Err(e) ==> (e is MissingZkParams <==> !self.has_zk_params()),
    ;
}

impl Encrypter for ClientSetupConfig {
    open spec fn has_zk_params(&self) -> bool {
        self.public_zk_params is Some
    }

    open spec fn zk_params_id(&self) -> int {
        self.public_zk_params->Some_0.id()
    }

    fn encrypt(&self, clear: u64) -> (r: Result<CompactCiphertext, EncryptError>) {
        match compact_encrypt(clear, &self.public_key) {
            Ok(cipher) => Ok(cipher),
            Err(e) => Err(EncryptError::Scheme(e)),
        }
    }

    fn encrypt_and_prove(&self, clear: u64) -> (r: Result<ProvenCiphertext, EncryptError>) {
        match &self.public_zk_params {
            None => Err(EncryptError::MissingZkParams),
            Some(zk_params) => {
                match proven_encrypt(clear, zk_params, &self.public_key) {
                    Ok(cipher) => Ok(cipher),
                    Err(e) => Err(EncryptError::Scheme(e)),
                }
            },
        }
    }
}

} // verus!
