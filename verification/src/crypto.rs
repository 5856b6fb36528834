//! Process-wide cryptographic initialization.
//!
//! At startup a node installs the process-wide TLS cryptographic provider
//! (once; a repeat install is a no-op) and derives its long-term static
//! secret key from an operator-supplied passphrase through HKDF-SHA-256
//! with a fixed salt and context label, so that a restart with the same
//! passphrase reproduces the same key.

use vstd::prelude::*;

use hkdf::Hkdf;
use sha2::Sha256;

verus! {

/// Byte length of the derived long-term secret key.
pub const KEY_SIZE: usize = 32;

/// The output keying material that HKDF-SHA-256 produces, at `KEY_SIZE`
/// bytes, from a salt, input keying material and a context label.  It is a
/// function of those inputs alone.
pub uninterp spec fn kdf_okm(salt: Seq<char>, ikm: Seq<char>, info: Seq<char>) -> Seq<u8>;

/// Relies on hkdf's `Hkdf::<Sha256>::new` and `expand`: HKDF-SHA-256
/// output keying material is a deterministic function of the salt, the
/// input keying material and the context info alone, and `expand` fills
/// the whole output buffer.  `expand` fails only for outputs longer than
/// 255 hash lengths, which `KEY_SIZE` bytes is not.
#[verifier::external_body]
fn hkdf_sha256_expand32(salt: &str, ikm: &str, info: &str) -> (r: Vec<u8>)
    ensures
        r@ == kdf_okm(salt@, ikm@, info@),
        r@.len() == KEY_SIZE,
{
    let kdf = Hkdf::<Sha256>::new(Some(salt.as_bytes()), ikm.as_bytes());
    let mut okm = [0u8; 32];
    kdf.expand(info.as_bytes(), &mut okm)
        .expect("an output of KEY_SIZE bytes is within HKDF bounds");
    okm.to_vec()
}

/// The long-term secret key type of the outside `crypto_box` crate, opaque
/// to the verifier.
#[verifier::external_type_specification]
#[verifier::external_body]
pub struct ExSecretKey(crypto_box::SecretKey);

/// Relies on `crypto_box::SecretKey::from_bytes`, which builds the key
/// from exactly `KEY_SIZE` bytes.  The key is opaque here; nothing further
/// is claimed of it.
#[verifier::external_body]
fn secret_key_from_bytes(bytes: &Vec<u8>) -> (r: crypto_box::SecretKey)
    requires
        bytes@.len() == KEY_SIZE,
{
    let mut arr = [0u8; crypto_box::KEY_SIZE];
    arr.copy_from_slice(bytes.as_slice());
    crypto_box::SecretKey::from_bytes(arr)
}

/// Relies on `rustls::crypto::ring::default_provider().install_default()`:
/// installs the process-wide TLS cryptographic provider.  The result says
/// whether this call installed it; a repeat call changes nothing and
/// reports `false`.  Install failure is non-fatal by design.
#[verifier::external_body]
fn install_crypto_provider() -> (installed: bool) {
    rustls::crypto::ring::default_provider().install_default().is_ok()
}

/// The fixed salt of the key derivation.
pub open spec fn spec_kdf_salt() -> Seq<char> {
    "csn_kdf_salt_v1"@
}

/// The fixed context label under which the encryption key is derived.
pub open spec fn spec_kdf_context() -> Seq<char> {
    "csn_crypto_box_encryption_key"@
}

/// Derives the long-term key material from the operator-supplied
/// passphrase, under the fixed salt and context label.  The result is a
/// function of the passphrase alone, so a restart with the same passphrase
/// reproduces the same key material byte for byte.
pub fn derive_key_material(seed: &str) -> (r: Vec<u8>)
    ensures
        r@ == kdf_okm(spec_kdf_salt(), seed@, spec_kdf_context()),
        r@.len() == KEY_SIZE,
{
    hkdf_sha256_expand32("csn_kdf_salt_v1", seed, "csn_crypto_box_encryption_key")
}

/// Derives the node's long-term static secret key from the passphrase: the
/// key built from exactly the key material of `derive_key_material`.
pub fn derive_secret_keys_from_seed(seed: &str) -> (r: crypto_box::SecretKey) {
    let key_material = derive_key_material(seed);
    secret_key_from_bytes(&key_material)
}

/// A node's process-wide cryptographic state: its long-term static secret
/// key.
pub struct CryptoDevice {
    pub sk: crypto_box::SecretKey,
}

impl CryptoDevice {
    /// One-time process initialization: installs the TLS provider — not
    /// fatal if one is already installed — and derives the long-term key
    /// from the passphrase.
    pub fn init(key_phrase: &str) -> (r: CryptoDevice) {
        let _ = install_crypto_provider();
        CryptoDevice { sk: derive_secret_keys_from_seed(key_phrase) }
    }
}

/// Determinism law: the derived key material is a function of the
/// passphrase and the fixed salt and context alone, so two derivations
/// from equal passphrases yield byte-identical key material.
pub proof fn lemma_key_derivation_deterministic(seed1: Seq<char>, seed2: Seq<char>)
    requires
        seed1 == seed2,
    ensures
        kdf_okm(spec_kdf_salt(), seed1, spec_kdf_context()) == kdf_okm(
            spec_kdf_salt(),
            seed2,
            spec_kdf_context(),
        ),
{
}

} // verus!
