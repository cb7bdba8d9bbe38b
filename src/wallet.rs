//! Identities: an ed25519 key made from a 32-byte seed, its hex address, and
//! hex signatures over byte payloads.
use crate::encoding::{hex_chars, hex_decodable, hex_decode, hex_decoded, hex_encode, lemma_hex_round_trip};
use ed25519_dalek::{Signer, Verifier};
use vstd::prelude::*;
use vstd::string::StringSliceAdditionalSpecFns;
use vstd::utf8::encode_utf8;

verus! {

/// The public key that the ed25519 signing key made from a seed has.
pub uninterp spec fn public_key_of(seed: Seq<u8>) -> [u8; 32];

/// The ed25519 signature that the key made from a seed gives a message.
pub uninterp spec fn signature_of(seed: Seq<u8>, msg: Seq<u8>) -> [u8; 64];

/// The verdict of ed25519 verification on a key, a message and a signature.
pub uninterp spec fn ed25519_verdict(pk: Seq<u8>, msg: Seq<u8>, sig: Seq<u8>) -> bool;

/// The signature was made over the message by the key whose public half is `pk`.
pub open spec fn honest_signature(pk: Seq<u8>, msg: Seq<u8>, sig: Seq<u8>) -> bool {
    exists|seed: Seq<u8>|
        seed.len() == 32 && pk == (#[trigger] public_key_of(seed))@ && sig == signature_of(seed, msg)@
}

/// Verification accepts every honest signature; on other input it gives its verdict.
pub open spec fn signature_accepted(pk: Seq<u8>, msg: Seq<u8>, sig: Seq<u8>) -> bool {
    honest_signature(pk, msg, sig) || ed25519_verdict(pk, msg, sig)
}

/// Relies on SigningKey::generate with the operating system's random source:
/// a fresh seed, of which nothing is known.
#[verifier::external_body]
fn random_seed() -> (r: [u8; 32]) {
    ed25519_dalek::SigningKey::generate(&mut rand::rngs::OsRng).to_bytes()
}

/// Relies on SigningKey::from_bytes and SigningKey::verifying_key: the public
/// key of the signing key made from the seed.
#[verifier::external_body]
fn derive_public_key(seed: &[u8; 32]) -> (r: [u8; 32])
    ensures
        r == public_key_of(seed@),
{
    ed25519_dalek::SigningKey::from_bytes(seed).verifying_key().to_bytes()
}

/// Relies on Signer::sign of SigningKey: the (deterministic) ed25519 signature
/// of the message under the key made from the seed.
#[verifier::external_body]
fn ed25519_sign(seed: &[u8; 32], msg: &[u8]) -> (r: [u8; 64])
    ensures
        r == signature_of(seed@, msg@),
{
    ed25519_dalek::SigningKey::from_bytes(seed).sign(msg).to_bytes()
}

/// Relies on VerifyingKey::from_bytes and Verifier::verify of VerifyingKey:
/// a key that does not decode is refused, and a signature that the matching
/// signing key made over the message is accepted.
#[verifier::external_body]
fn ed25519_verify(pk: &[u8; 32], msg: &[u8], sig: &[u8; 64]) -> (r: bool)
    ensures
        r == (honest_signature(pk@, msg@, sig@) || ed25519_verdict(pk@, msg@, sig@)),
{
    match ed25519_dalek::VerifyingKey::from_bytes(pk) {
        Ok(key) => key.verify(msg, &ed25519_dalek::Signature::from_bytes(sig)).is_ok(),
        Err(_) => false,
    }
}

fn to_array32(v: &Vec<u8>) -> (r: [u8; 32])
    requires
        v@.len() == 32,
    ensures
        r@ == v@,
{
    let mut a: [u8; 32] = [0u8; 32];
    let mut i: usize = 0;
    while i < 32
        invariant
            i <= 32,
            v@.len() == 32,
            forall|j: int| 0 <= j < i ==> a@[j] == v@[j],
        decreases 32 - i,
    {
        a[i] = v[i];
        i = i + 1;
    }
    assert(a@ =~= v@);
    a
}

fn to_array64(v: &Vec<u8>) -> (r: [u8; 64])
    requires
        v@.len() == 64,
    ensures
        r@ == v@,
{
    let mut a: [u8; 64] = [0u8; 64];
    let mut i: usize = 0;
    while i < 64
        invariant
            i <= 64,
            v@.len() == 64,
            forall|j: int| 0 <= j < i ==> a@[j] == v@[j],
        decreases 64 - i,
    {
        a[i] = v[i];
        i = i + 1;
    }
    assert(a@ =~= v@);
    a
}

/// The address of the identity with a given seed: hex of its public key.
pub open spec fn address_of(seed: Seq<u8>) -> Seq<char> {
    hex_chars(public_key_of(seed)@)
}

/// The hex signature that the identity with a given seed gives a message.
pub open spec fn hex_signature_of(seed: Seq<u8>, msg: Seq<u8>) -> Seq<char> {
    hex_chars(signature_of(seed, msg)@)
}

/// Whether hex text `sig_hex` is an accepted signature of `msg` under the
/// public key in hex text `pk_hex` (both given as their UTF-8 bytes).
pub open spec fn verify_spec(pk_hex: Seq<u8>, msg: Seq<u8>, sig_hex: Seq<u8>) -> bool {
    hex_decodable(pk_hex) && hex_decodable(sig_hex) && hex_decoded(pk_hex).len() == 32
        && hex_decoded(sig_hex).len() == 64 && signature_accepted(hex_decoded(pk_hex), msg, hex_decoded(sig_hex))
}

/// An identity, kept as the seed of its signing key.
#[derive(Debug, Clone, Copy)]
pub struct Wallet {
    pub key_pair_bytes: [u8; 32],
}

impl Wallet {
    /// A new identity with a random seed.
    pub fn new() -> (r: Self) {
        Wallet { key_pair_bytes: random_seed() }
    }

    /// The identity with a given seed.
    pub fn from_bytes(bytes: [u8; 32]) -> (r: Self)
        ensures
            r.key_pair_bytes == bytes,
    {
        Wallet { key_pair_bytes: bytes }
    }

    /// The address: lowercase hex of the public key.
    pub fn get_address(&self) -> (r: String)
        ensures
            r@ == address_of(self.key_pair_bytes@),
    {
        let pk = derive_public_key(&self.key_pair_bytes);
        hex_encode(pk.as_slice())
    }

    /// The hex signature of a message.
    pub fn sign(&self, message: &[u8]) -> (r: String)
        ensures
            r@ == hex_signature_of(self.key_pair_bytes@, message@),
    {
        let sig = ed25519_sign(&self.key_pair_bytes, message);
        hex_encode(sig.as_slice())
    }

    /// Checks a hex signature of a message against a hex public key; malformed
    /// hex and keys or signatures of the wrong length give false.
    pub fn verify(public_key_hex: &str, message: &[u8], signature_hex: &str) -> (r: bool)
        ensures
            r == verify_spec(public_key_hex.spec_bytes(), message@, signature_hex.spec_bytes()),
    {
        let public_bytes = match hex_decode(public_key_hex) {
            Some(b) => b,
            None => return false,
        };
        let signature_bytes = match hex_decode(signature_hex) {
            Some(b) => b,
            None => return false,
        };
        if public_bytes.len() != 32 || signature_bytes.len() != 64 {
            return false;
        }
        let pk = to_array32(&public_bytes);
        let sig = to_array64(&signature_bytes);
        ed25519_verify(&pk, message, &sig)
    }
}

/// A signature that the key made from a seed gives a payload verifies
/// against the address of that seed.
pub proof fn lemma_seed_signature_verifies(seed: Seq<u8>, payload: Seq<u8>)
    requires
        seed.len() == 32,
    ensures
        verify_spec(encode_utf8(address_of(seed)), payload, encode_utf8(hex_signature_of(seed, payload))),
{
    let pk = public_key_of(seed)@;
    let sig = signature_of(seed, payload)@;
    lemma_hex_round_trip(pk);
    lemma_hex_round_trip(sig);
    assert(honest_signature(pk, payload, sig));
}

/// A signature that an identity makes over a payload verifies against that
/// identity's address.
pub proof fn lemma_signature_verifies(w: Wallet, payload: Seq<u8>)
    ensures
        verify_spec(
            encode_utf8(address_of(w.key_pair_bytes@)),
            payload,
            encode_utf8(hex_signature_of(w.key_pair_bytes@, payload)),
        ),
{
    lemma_seed_signature_verifies(w.key_pair_bytes@, payload);
}

} // verus!
