//! One-time service setup: key material and, optionally, the proof system's
//! public parameters.
//!
//! The secret key, evaluation key and public key are generated once at
//! service start; the public parameters of the zero-knowledge proof system
//! are produced in an offline phase and handed in separately (the service
//! runs without them under the policies that need no proof).

use vstd::prelude::*;

use crate::capability::{
    clone_public_key, clone_zk_params, decompress_public_key, gen_client_key,
    gen_compressed_public_key, gen_server_key, ZkPublicParams,
};

verus! {

/// The seed the service generates its key material from.
const SEED: u128 = 0;

/// Everything the service process holds: the secret (client) key used for
/// decryption, the evaluation (server) key used for ciphertext arithmetic,
/// the public key distributed to voters, and the proof system's public
/// parameters where the proof-based validation policy is configured.
///
/// The fields are public for the embedding application to read, as a crate
/// invariant every configuration comes from one `setup`: all contracts over
/// ciphertexts assume the process's single key family, and assembling a
/// configuration from foreign key material voids them.
pub struct ServerSetupConfig {
    pub client_key: tfhe::ClientKey,
    pub server_key: tfhe::ServerKey,
    pub public_key: tfhe::CompactPublicKey,
    pub public_zk_params: Option<ZkPublicParams>,
}

/// What a voter needs in order to encrypt a ballot: the public key and,
/// where proofs are in use, the proof system's public parameters.
pub struct ClientSetupConfig {
    pub public_key: tfhe::CompactPublicKey,
    pub public_zk_params: Option<ZkPublicParams>,
}

/// Failures of the setup phase.
#[derive(Debug)]
pub enum SetupError {
    /// The public key could not be serialized for distribution.
    PublicKeyEncoding(Box<bincode::ErrorKind>),
}

/// Generates the service's key material and returns the server-side and
/// client-side configurations, sharing one public key.  The proof system's
/// public parameters are not generated here (`max_num_message` sizes them
/// when they are); both configurations start without them.
pub fn setup(
    max_num_message: usize,
) -> (r: Result<(ServerSetupConfig, ClientSetupConfig), SetupError>)
    ensures
        r is Ok,
        r matches Ok(cfgs) ==> cfgs.0.public_key == cfgs.1.public_key,
        r matches Ok(cfgs) ==> cfgs.0.public_zk_params is None && cfgs.1.public_zk_params is None,
{
    let _ = max_num_message;
    let client_key = gen_client_key(SEED);
    let server_key = gen_server_key(&client_key);
    let compressed = gen_compressed_public_key(&client_key);
    let public_key = decompress_public_key(&compressed);

    let client_config = ClientSetupConfig {
        public_key: clone_public_key(&public_key),
        public_zk_params: None,
    };

    let server_config = ServerSetupConfig {
        client_key,
        server_key,
        public_key,
        public_zk_params: None,
    };

    Ok((server_config, client_config))
}

/// Installs one proof parameter set on both sides of a deployment.  The
/// prover and the verifier must hold the same parameters for proofs to
/// check out, so the server receives a clone of what the client holds;
/// the key material is untouched.
pub fn install_zk_params(
    server: &mut ServerSetupConfig,
    client: &mut ClientSetupConfig,
    zk_params: ZkPublicParams,
)
    ensures
        final(server).public_zk_params is Some && final(client).public_zk_params is Some,
        final(server).public_zk_params->Some_0.id() == zk_params.id(),
        final(client).public_zk_params->Some_0.id() == zk_params.id(),
        final(server).client_key == old(server).client_key,
        final(server).server_key == old(server).server_key,
        final(server).public_key == old(server).public_key,
        final(client).public_key == old(client).public_key,
{
    server.public_zk_params = Some(clone_zk_params(&zk_params));
    client.public_zk_params = Some(zk_params);
}

} // verus!
