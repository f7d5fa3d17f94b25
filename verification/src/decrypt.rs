//! The decryption capability: the only way a plaintext ever leaves the
//! scheme.  It is exercised in exactly two places — the finalizer, and the
//! constraint-check validation policy's self-decryption of an encrypted
//! admit/reject flag.

use vstd::prelude::*;

use crate::capability::{decrypt_flag, decrypt_u64, Ciphertext, EncryptedBool};
use crate::setup::ServerSetupConfig;

verus! {

/// Decryption under the service's secret key.
pub trait Decrypter {
    /// Returns the plaintext of an encrypted integer.
    fn decrypt(&self, cipher: &Ciphertext) -> (r: u64)
        ensures
            r == cipher@,
    ;

    /// Returns the plaintext of an encrypted boolean.
    fn decrypt_bool(&self, cipher: &EncryptedBool) -> (r: bool)
        ensures
            r == cipher@,
    ;
}

impl Decrypter for ServerSetupConfig {
    fn decrypt(&self, cipher: &Ciphertext) -> (r: u64) {
        decrypt_u64(&self.client_key, cipher)
    }

    fn decrypt_bool(&self, cipher: &EncryptedBool) -> (r: bool) {
        decrypt_flag(&self.client_key, cipher)
    }
}

} // verus!
