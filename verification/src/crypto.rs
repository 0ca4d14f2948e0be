//! Ed25519 through `ed25519-dalek`, behind trusted wrappers.

use vstd::prelude::*;
use ed25519_dalek::Signer;

verus! {

/// The 32-byte Ed25519 public key that `ed25519-dalek` derives from a 32-byte
/// secret key.
pub uninterp spec fn ed25519_public_key(secret: Seq<u8>) -> Seq<u8>;

/// The 64-byte Ed25519 signature that `ed25519-dalek` makes of `message` with
/// the 32-byte secret key `secret` (Ed25519 signing is deterministic).
pub uninterp spec fn ed25519_signature(secret: Seq<u8>, message: Seq<u8>) -> Seq<u8>;

/// `SigningKey::generate(&mut OsRng).to_bytes()`: 32 bytes from the operating
/// system's random source. Nothing is claimed of their value.
#[verifier::external_body]
pub(crate) fn random_secret_key() -> (r: Vec<u8>)
    ensures
        r@.len() == 32,
{
    ed25519_dalek::SigningKey::generate(&mut rand::rngs::OsRng).to_bytes().to_vec()
}

/// `SigningKey::from_bytes(secret).verifying_key().to_bytes()`.
#[verifier::external_body]
pub(crate) fn public_key_of(secret: &[u8]) -> (r: Vec<u8>)
    requires
        secret@.len() == 32,
    ensures
        r@ == ed25519_public_key(secret@),
        r@.len() == 32,
{
    let key: [u8; 32] = secret.try_into().unwrap();
    ed25519_dalek::SigningKey::from_bytes(&key).verifying_key().to_bytes().to_vec()
}

/// `SigningKey::from_bytes(secret).sign(message).to_bytes()`.
#[verifier::external_body]
pub(crate) fn sign_with(secret: &[u8], message: &[u8]) -> (r: Vec<u8>)
    requires
        secret@.len() == 32,
    ensures
        r@ == ed25519_signature(secret@, message@),
        r@.len() == 64,
{
    let key: [u8; 32] = secret.try_into().unwrap();
    ed25519_dalek::SigningKey::from_bytes(&key).sign(message).to_bytes().to_vec()
}

} // verus!
