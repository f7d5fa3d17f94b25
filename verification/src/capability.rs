//! The homomorphic capability: the narrow, trusted boundary around tfhe.
//!
//! Every ciphertext handled by this crate is paired with a ghost plaintext:
//! the value that tfhe's decryption under the service's key pair yields for
//! it.  The contracts of the wrappers below state tfhe's documented
//! correctness for ciphertexts produced under that one key pair — encryption
//! of `v` decrypts to `v`, homomorphic addition and multiplication act as
//! wrapping arithmetic on the plaintexts, and comparison against a clear
//! bound encrypts the boolean outcome.  Nothing else in the crate touches
//! tfhe directly; all proofs about the tally rest on these contracts.
//!
//! Two standing assumptions back those contracts.  First, one key family
//! per process: the client, server and public keys (and the proof system's
//! parameters, where present) all come from one `setup`, so "the plaintext"
//! and "the proof verifies" are well-defined without naming a key in every
//! clause.  Second, conformance by construction: every ciphertext value in
//! the crate conforms to the service's parameter set, because the only
//! constructors are encryption and trivial encryption under the service
//! keys, expansion and verification of conformant inputs, arithmetic on
//! conformant inputs, and `decode_compact`, which checks conformance and
//! refuses anything else.  tfhe's arithmetic asserts exactly that
//! conformance (dimensions, block counts, moduli), so on this domain the
//! operations do not fail.  Proof-carrying ciphertexts are the one type
//! this tfhe version cannot check after the fact — it offers no
//! conformance test for proven lists, and its verifier trusts their stored
//! sizes — so no wire decoding is offered for them: a `ProvenCiphertext`
//! exists only as `proven_encrypt` made it, and verification demands that
//! provenance.

use tfhe::conformance::ParameterSetConformant;
use tfhe::prelude::{FheDecrypt, FheOrd, FheTryEncrypt, FheTryTrivialEncrypt};
use vstd::prelude::*;

verus! {

// ---------------------------------------------------------------------------
// Declarations of tfhe's opaque types.
// ---------------------------------------------------------------------------

#[verifier::external_type_specification]
#[verifier::external_body]
pub struct ExClientKey(tfhe::ClientKey);

#[verifier::external_type_specification]
#[verifier::external_body]
pub struct ExServerKey(tfhe::ServerKey);

#[verifier::external_type_specification]
#[verifier::external_body]
pub struct ExCompactPublicKey(tfhe::CompactPublicKey);

#[verifier::external_type_specification]
#[verifier::external_body]
pub struct ExCompressedCompactPublicKey(tfhe::CompressedCompactPublicKey);

#[verifier::external_type_specification]
#[verifier::external_body]
pub struct ExFheBool(tfhe::FheBool);

#[verifier::external_type_specification]
#[verifier::external_body]
pub struct ExTfheError(tfhe::Error);

#[verifier::external_type_specification]
#[verifier::external_body]
pub struct ExBincodeErrorKind(bincode::ErrorKind);

// tfhe's integer ciphertext types (`FheUint64`, `CompactFheUint64`,
// `ProvenCompactFheUint64`) are generic over an id type whose trait bound is
// private to tfhe, so they cannot be declared to the verifier; each is held
// opaquely in one of the payload structs below.  `CompactPkePublicParams` is
// an alias into a transitive crate and is held the same way.

/// Opaque payload: an expanded, operable tfhe ciphertext.
#[verifier::external_body]
pub struct RawCiphertext {
    inner: tfhe::FheUint64,
}

/// Opaque payload: a compact (transport-form) tfhe ciphertext.
#[verifier::external_body]
pub struct RawCompact {
    inner: tfhe::CompactFheUint64,
}

/// Opaque payload: a compact tfhe ciphertext bound to a zero-knowledge proof.
#[verifier::external_body]
pub struct RawProven {
    inner: tfhe::ProvenCompactFheUint64,
}

/// Opaque payload: the public parameters of the zero-knowledge proof
/// system (the common reference string's public part).
#[verifier::external_body]
pub struct RawZkParams {
    inner: tfhe::zk::CompactPkePublicParams,
}

/// Public parameters of the zero-knowledge proof system, tagged with a
/// ghost identity: proof validity is relative to a parameter set, and the
/// process may hold several (each generation or decoding yields a fresh
/// identity; only `clone_zk_params` preserves one).
pub struct ZkPublicParams {
    raw: RawZkParams,
    tag: Ghost<int>,
}

impl ZkPublicParams {
    /// The identity of this parameter set.
    pub closed spec fn id(&self) -> int {
        self.tag@
    }
}

// ---------------------------------------------------------------------------
// Modelled ciphertexts: the opaque payload plus the plaintext it stands for.
// ---------------------------------------------------------------------------

/// An expanded, arithmetic-ready encrypted integer.  Its view is the
/// plaintext it decrypts to under the service key.
pub struct Ciphertext {
    raw: RawCiphertext,
    plain: Ghost<u64>,
}

impl View for Ciphertext {
    type V = u64;

    closed spec fn view(&self) -> u64 {
        self.plain@
    }
}

/// A compact encrypted integer, as received on the wire; must be expanded
/// before arithmetic.  Its view is the plaintext it stands for.
pub struct CompactCiphertext {
    raw: RawCompact,
    plain: Ghost<u64>,
}

impl View for CompactCiphertext {
    type V = u64;

    closed spec fn view(&self) -> u64 {
        self.plain@
    }
}

/// A compact encrypted integer bound to a zero-knowledge proof of valid
/// encryption.  Its view is the plaintext it stands for; the ghost state
/// further records which parameter set the proof was generated under,
/// whether that proof verifies there, and whether the ciphertext's shape
/// (arity, dimensions) conforms to the service's parameter set.
pub struct ProvenCiphertext {
    raw: RawProven,
    plain: Ghost<u64>,
    valid: Ghost<bool>,
    under: Ghost<int>,
    fits: Ghost<bool>,
}

impl View for ProvenCiphertext {
    type V = u64;

    closed spec fn view(&self) -> u64 {
        self.plain@
    }
}

impl ProvenCiphertext {
    /// Whether the proof bound to this ciphertext verifies under the
    /// parameter set it was generated under (`proven_under`) and the
    /// service's public key.
    pub closed spec fn proof_valid(&self) -> bool {
        self.valid@
    }

    /// The identity of the parameter set the proof was generated under.
    pub closed spec fn proven_under(&self) -> int {
        self.under@
    }

    /// Whether this ciphertext's arity and dimensions conform to the
    /// service's parameter set — the domain on which verification and the
    /// later arithmetic are free of failure.  Only encryption under the
    /// service keys establishes it: this tfhe version cannot check
    /// conformance of a proven list after the fact.
    pub closed spec fn conformant(&self) -> bool {
        self.fits@
    }
}

/// An encrypted boolean, as produced by a homomorphic comparison.  Its view
/// is the boolean it decrypts to.
pub struct EncryptedBool {
    raw: RawFlag,
    plain: Ghost<bool>,
}

/// Opaque payload: a tfhe encrypted boolean.
#[verifier::external_body]
pub struct RawFlag {
    inner: tfhe::FheBool,
}

impl View for EncryptedBool {
    type V = bool;

    closed spec fn view(&self) -> bool {
        self.plain@
    }
}

// ---------------------------------------------------------------------------
// The arithmetic the scheme implements: wrapping in 64 bits.
// ---------------------------------------------------------------------------

/// Addition as the capability performs it on 64-bit encrypted integers:
/// wrapping on overflow.
pub open spec fn wrap_add(a: u64, b: u64) -> u64 {
    ((a + b) % 0x1_0000_0000_0000_0000) as u64
}

/// Multiplication as the capability performs it on 64-bit encrypted
/// integers: wrapping on overflow.
pub open spec fn wrap_mul(a: u64, b: u64) -> u64 {
    ((a * b) % 0x1_0000_0000_0000_0000) as u64
}

// ---------------------------------------------------------------------------
// Key generation and distribution.
// ---------------------------------------------------------------------------

/// Relies on tfhe's `ClientKey::generate_with_seed` with the compact-pk
/// 2-message-2-carry parameter set: produces the process's secret key.
#[verifier::external_body]
pub(crate) fn gen_client_key(seed: u128) -> tfhe::ClientKey {
    let params = tfhe::shortint::parameters::PARAM_MESSAGE_2_CARRY_2_COMPACT_PK_KS_PBS_TUNIFORM_2M40;
    tfhe::ClientKey::generate_with_seed(
        tfhe::ConfigBuilder::with_custom_parameters(params, None),
        tfhe::Seed(seed),
    )
}

/// Relies on tfhe's `ServerKey::new`: derives the evaluation key that all
/// ciphertext arithmetic uses.
#[verifier::external_body]
pub(crate) fn gen_server_key(client_key: &tfhe::ClientKey) -> tfhe::ServerKey {
    tfhe::ServerKey::new(client_key)
}

/// Relies on tfhe's `CompressedCompactPublicKey::new`; the parameter set
/// used by `gen_client_key` supports compact public keys, so this does not
/// panic.
#[verifier::external_body]
pub(crate) fn gen_compressed_public_key(
    client_key: &tfhe::ClientKey,
) -> tfhe::CompressedCompactPublicKey {
    tfhe::CompressedCompactPublicKey::new(client_key)
}

/// Relies on tfhe's `CompressedCompactPublicKey::decompress`.
#[verifier::external_body]
pub(crate) fn decompress_public_key(
    compressed: &tfhe::CompressedCompactPublicKey,
) -> tfhe::CompactPublicKey {
    compressed.decompress()
}

/// Relies on tfhe's `Clone` for `CompactPublicKey` (a derived,
/// field-by-field copy): the clone equals the original, so the server's and
/// the clients' setup configurations share one public key.
#[verifier::external_body]
pub(crate) fn clone_public_key(public_key: &tfhe::CompactPublicKey) -> (r: tfhe::CompactPublicKey)
    ensures
        r == *public_key,
{
    public_key.clone()
}

/// Relies on tfhe's `CompactPkeCrs::from_shortint_params` with the same
/// parameter set as `gen_client_key`: generates the proof system's common
/// reference string (an offline, one-time step).
#[verifier::external_body]
pub fn gen_zk_params(max_num_message: usize) -> Result<ZkPublicParams, tfhe::Error> {
    let params = tfhe::shortint::parameters::PARAM_MESSAGE_2_CARRY_2_COMPACT_PK_KS_PBS_TUNIFORM_2M40;
    let crs = tfhe::zk::CompactPkeCrs::from_shortint_params(params, max_num_message)?;
    Ok(ZkPublicParams {
        raw: RawZkParams { inner: crs.public_params().clone() },
        tag: Ghost(arbitrary()),
    })
}

/// Relies on bincode's `serialize`: encodes the proof system's public
/// parameters for storage or distribution.
#[verifier::external_body]
pub fn encode_zk_params(zk_params: &ZkPublicParams) -> Result<Vec<u8>, Box<bincode::ErrorKind>> {
    bincode::serialize(&zk_params.raw.inner)
}

/// Relies on bincode's `deserialize`: decodes the proof system's public
/// parameters, as stored by `encode_zk_params`.
#[verifier::external_body]
pub fn decode_zk_params(bytes: &Vec<u8>) -> Result<ZkPublicParams, Box<bincode::ErrorKind>> {
    let inner: tfhe::zk::CompactPkePublicParams = bincode::deserialize(bytes)?;
    Ok(ZkPublicParams { raw: RawZkParams { inner }, tag: Ghost(arbitrary()) })
}

/// Relies on tfhe's `Clone` for the proof system's public parameters (a
/// field-by-field copy): the clone is the same parameter set, so a prover
/// and a verifier can be configured with one identity.
#[verifier::external_body]
pub fn clone_zk_params(zk_params: &ZkPublicParams) -> (r: ZkPublicParams)
    ensures
        r.id() == zk_params.id(),
{
    ZkPublicParams { raw: RawZkParams { inner: zk_params.raw.inner.clone() }, tag: zk_params.tag }
}

/// Relies on bincode's `serialize_into` to a `Vec` writer: encodes the
/// public key for distribution to clients.  Writing to a `Vec` cannot fail,
/// and the key's derived serde implementation raises no error of its own,
/// so this always succeeds.
#[verifier::external_body]
pub(crate) fn serialize_public_key(
    public_key: &tfhe::CompactPublicKey,
) -> (r: Result<Vec<u8>, Box<bincode::ErrorKind>>)
    ensures
        r is Ok,
{
    let mut buffer = Vec::new();
    bincode::serialize_into(&mut buffer, public_key)?;
    Ok(buffer)
}

// ---------------------------------------------------------------------------
// Wire codec for ballots.
// ---------------------------------------------------------------------------

/// Whether these bytes decode to a compact ciphertext conformant to the
/// service's parameter set: the decode gate's success condition.  Both
/// bincode's decoding and tfhe's conformance check are deterministic in the
/// bytes, so the outcome is a function of them; `decode_compact` is the one
/// place that decides it.
pub uninterp spec fn compact_decodes(bytes: Seq<u8>) -> bool;


/// Relies on bincode's `deserialize` and tfhe's `is_conformant`: decodes
/// one compact ciphertext from wire bytes, and accepts it only if it
/// conforms to the service's parameter set — undecodable bytes, or a
/// ciphertext with the wrong sizes, list length or moduli, are refused
/// here, before any arithmetic can reach them.  The plaintext of the result
/// is whatever the bytes encode — nothing is assumed of it.
#[verifier::external_body]
pub(crate) fn decode_compact(bytes: &Vec<u8>) -> (r: Option<CompactCiphertext>)
    ensures
        r is Some <==> compact_decodes(bytes@),
{
    let params = tfhe::shortint::parameters::PARAM_MESSAGE_2_CARRY_2_COMPACT_PK_KS_PBS_TUNIFORM_2M40;
    let inner: tfhe::CompactFheUint64 = bincode::deserialize(bytes).ok()?;
    if !inner.is_conformant(&tfhe::FheUint64ConformanceParams::from(params)) {
        return None;
    }
    Some(CompactCiphertext { raw: RawCompact { inner }, plain: Ghost(arbitrary()) })
}

// ---------------------------------------------------------------------------
// Client-side encryption.
// ---------------------------------------------------------------------------

/// Relies on tfhe's `CompactFheUint64::try_encrypt` under a compact public
/// key: it returns `Ok` unconditionally for 64-bit values, and the compact
/// ciphertext decrypts to the given value.
#[verifier::external_body]
pub(crate) fn compact_encrypt(
    value: u64,
    public_key: &tfhe::CompactPublicKey,
) -> (r: Result<CompactCiphertext, tfhe::Error>)
    ensures
        r is Ok,
        r matches Ok(c) ==> c@ == value,
{
    let inner = tfhe::CompactFheUint64::try_encrypt(value, public_key)?;
    Ok(CompactCiphertext { raw: RawCompact { inner }, plain: Ghost(arbitrary()) })
}

/// Relies on tfhe's `ProvenCompactFheUint64::try_encrypt`: on success the
/// proven compact ciphertext decrypts to the given value; the proof it
/// carries was generated under the given parameter set and verifies there
/// (the proof system's completeness for an honest prover); and encryption
/// under the service key makes its shape conformant.
#[verifier::external_body]
pub(crate) fn proven_encrypt(
    value: u64,
    zk_params: &ZkPublicParams,
    public_key: &tfhe::CompactPublicKey,
) -> (r: Result<ProvenCiphertext, tfhe::Error>)
    ensures
        r matches Ok(c) ==> c@ == value && c.proof_valid() && c.proven_under() == zk_params.id()
            && c.conformant(),
{
    let inner = tfhe::ProvenCompactFheUint64::try_encrypt(
        value,
        &zk_params.raw.inner,
        public_key,
        tfhe::zk::ZkComputeLoad::Proof,
    )?;
    Ok(ProvenCiphertext {
        raw: RawProven { inner },
        plain: Ghost(arbitrary()),
        valid: Ghost(arbitrary()),
        under: Ghost(arbitrary()),
        fits: Ghost(arbitrary()),
    })
}

// ---------------------------------------------------------------------------
// Expansion and proof verification.
// ---------------------------------------------------------------------------

/// Relies on tfhe's `CompactFheUint64::expand`: expansion yields an operable
/// ciphertext with the same plaintext.
#[verifier::external_body]
pub(crate) fn expand_compact(cipher: &CompactCiphertext) -> (r: Ciphertext)
    ensures
        r@ == cipher@,
{
    let inner = cipher.raw.inner.expand();
    Ciphertext { raw: RawCiphertext { inner }, plain: Ghost(arbitrary()) }
}

/// Relies on tfhe's `ProvenCompactFheUint64::verify_and_expand`:
/// verification is deterministic in the ciphertext, the parameters and the
/// key, so on the parameter set the proof was generated under it succeeds
/// exactly when the proof is valid, and the expanded ciphertext has the
/// same plaintext.  tfhe asserts the ciphertext's arity and indexes it by
/// the parameters' dimensions during verification, so only a conformant
/// ciphertext may be handed in — which in this tfhe version only
/// `proven_encrypt` can vouch for.
#[verifier::external_body]
pub(crate) fn verify_and_expand_proven(
    cipher: ProvenCiphertext,
    zk_params: &ZkPublicParams,
    public_key: &tfhe::CompactPublicKey,
) -> (r: Result<Ciphertext, tfhe::Error>)
    requires
        cipher.conformant(),
    ensures
        cipher.proven_under() == zk_params.id() ==> (r is Ok <==> cipher.proof_valid()),
        r matches Ok(c) ==> c@ == cipher@,
{
    let plain = cipher.plain;
    let inner = cipher.raw.inner.verify_and_expand(&zk_params.raw.inner, public_key)?;
    Ok(Ciphertext { raw: RawCiphertext { inner }, plain })
}

// ---------------------------------------------------------------------------
// Homomorphic arithmetic.  tfhe's high-level operations read the evaluation
// key from thread-local state, so each wrapper installs the given key first.
// tfhe's keyswitch and bootstrap assert that their operands' dimensions and
// block counts match the key's parameter set; every ciphertext in this
// crate conforms to it by construction (see the module header, and the
// conformance check in `decode_compact`), so on that domain the operations
// do not fail.
// ---------------------------------------------------------------------------

/// Relies on tfhe's `FheUint64::try_encrypt_trivial`: a trivial encryption
/// of `value` decrypts to `value` (and never fails on the CPU path).
#[verifier::external_body]
pub(crate) fn trivial_encrypt(server_key: &tfhe::ServerKey, value: u64) -> (r: Ciphertext)
    ensures
        r@ == value,
{
    tfhe::set_server_key(server_key.clone());
    let inner = tfhe::FheUint64::try_encrypt_trivial(value).unwrap();
    Ciphertext { raw: RawCiphertext { inner }, plain: Ghost(arbitrary()) }
}

/// Relies on tfhe's homomorphic `+` on `FheUint64`: the sum decrypts to the
/// wrapping sum of the operands' plaintexts.
#[verifier::external_body]
pub(crate) fn he_add(server_key: &tfhe::ServerKey, a: &Ciphertext, b: &Ciphertext) -> (r: Ciphertext)
    ensures
        r@ == wrap_add(a@, b@),
{
    tfhe::set_server_key(server_key.clone());
    let inner = &a.raw.inner + &b.raw.inner;
    Ciphertext { raw: RawCiphertext { inner }, plain: Ghost(arbitrary()) }
}

/// Relies on tfhe's homomorphic `*` on `FheUint64`: the product decrypts to
/// the wrapping product of the operands' plaintexts.
#[verifier::external_body]
pub(crate) fn he_mul(server_key: &tfhe::ServerKey, a: &Ciphertext, b: &Ciphertext) -> (r: Ciphertext)
    ensures
        r@ == wrap_mul(a@, b@),
{
    tfhe::set_server_key(server_key.clone());
    let inner = &a.raw.inner * &b.raw.inner;
    Ciphertext { raw: RawCiphertext { inner }, plain: Ghost(arbitrary()) }
}

/// Relies on tfhe's `FheOrd::le` against a clear bound: the encrypted flag
/// decrypts to whether the plaintext is at most the bound.
#[verifier::external_body]
pub(crate) fn he_le(server_key: &tfhe::ServerKey, a: &Ciphertext, bound: u64) -> (r: EncryptedBool)
    ensures
        r@ == (a@ <= bound),
{
    tfhe::set_server_key(server_key.clone());
    let inner = a.raw.inner.le(bound);
    EncryptedBool { raw: RawFlag { inner }, plain: Ghost(arbitrary()) }
}

// ---------------------------------------------------------------------------
// Decryption.
// ---------------------------------------------------------------------------

/// Relies on tfhe's `FheDecrypt::decrypt` on `FheUint64` with the matching
/// client key: returns the ciphertext's plaintext.
#[verifier::external_body]
pub(crate) fn decrypt_u64(client_key: &tfhe::ClientKey, cipher: &Ciphertext) -> (r: u64)
    ensures
        r == cipher@,
{
    cipher.raw.inner.decrypt(client_key)
}

/// Relies on tfhe's `FheDecrypt::decrypt` on `FheBool` with the matching
/// client key: returns the encrypted flag's boolean.
#[verifier::external_body]
pub(crate) fn decrypt_flag(client_key: &tfhe::ClientKey, flag: &EncryptedBool) -> (r: bool)
    ensures
        r == flag@,
{
    flag.raw.inner.decrypt(client_key)
}

} // verus!
