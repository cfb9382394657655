//! Key material: Ed25519 signing and verification keys, signatures, and the
//! SHA-256 digest used for audit hashing.
//!
//! Keys and signatures are held as their fixed-width byte encodings (32 bytes
//! for a key, 64 for a signature); the curve arithmetic itself is done by the
//! `ed25519_dalek` crate behind trusted wrappers.

use vstd::prelude::*;

use crate::codec::hex_decode;
use crate::codec::hex_encode;
use crate::codec::lemma_hex_encoding_is_hex;
use crate::codec::lemma_hex_roundtrip;
use crate::codec::spec_hex_decoding;
use crate::codec::spec_hex_encoding;
use crate::codec::spec_is_hex_digit;
use crate::errors::Error;
use ed25519_dalek::Signer;
use ed25519_dalek::Verifier;
use rand::RngCore;
use sha2::Digest;

verus! {

/// The 32-byte public key that Ed25519 derives from a 32-byte secret seed.
pub uninterp spec fn ed25519_public_key_of(seed: Seq<u8>) -> Seq<u8>;

/// The 64-byte signature that Ed25519 produces over a message from a 32-byte
/// secret seed.  Ed25519 signing is deterministic, so this is a function of
/// the seed and the message alone.
pub uninterp spec fn ed25519_signature_of(seed: Seq<u8>, message: Seq<u8>) -> Seq<u8>;

/// Whether the Ed25519 verification equation accepts `signature` over
/// `message` under the public key encoded by `public_key`.  False whenever
/// `public_key` does not decode as a curve point.
pub uninterp spec fn ed25519_accepts(public_key: Seq<u8>, message: Seq<u8>, signature: Seq<u8>) -> bool;

/// Whether 32 bytes decode as an Ed25519 public key (a compressed curve
/// point).
pub uninterp spec fn ed25519_public_key_bytes_ok(bytes: Seq<u8>) -> bool;

/// The 32-byte SHA-256 digest of a byte sequence.
pub uninterp spec fn sha256_of(data: Seq<u8>) -> Seq<u8>;

/// Copies a slice of exactly `N` bytes into an array.
fn copy_bytes<const N: usize>(s: &[u8]) -> (r: [u8; N])
    requires
        s@.len() == N,
    ensures
        r@ == s@,
{
    let mut r: [u8; N] = [0u8; N];
    let mut i: usize = 0;
    while i < N
        invariant
            i <= N,
            s@.len() == N,
            r@.len() == N,
            forall|j: int| 0 <= j < i ==> r@[j] == s@[j],
        decreases N - i,
    {
        r[i] = s[i];
        i = i + 1;
    }
    proof {
        assert(r@ =~= s@);
    }
    r
}

/// An Ed25519 signing key, held as its 32-byte secret seed.
#[derive(Debug, Clone)]
pub struct SigningKey {
    bytes: [u8; 32],
}

impl View for SigningKey {
    type V = Seq<u8>;

    closed spec fn view(&self) -> Seq<u8> {
        self.bytes@
    }
}

/// Relies on `rand::rngs::OsRng::fill_bytes`: 32 bytes (256 bits) from the
/// operating system's cryptographically secure entropy source.  Nothing is
/// promised of the value.
#[verifier::external_body]
fn random_seed() -> (seed: [u8; 32]) {
    let mut seed = [0u8; 32];
    rand::rngs::OsRng.fill_bytes(&mut seed);
    seed
}

impl SigningKey {
    /// Generates a fresh key pair from the operating system's entropy source.
    pub fn generate() -> (key: SigningKey) {
        SigningKey { bytes: random_seed() }
    }

    /// Deterministically reconstructs a signing key from its 32-byte seed;
    /// any other length is rejected.
    pub fn from_bytes(bytes: &[u8]) -> (r: Result<SigningKey, Error>)
        ensures
            bytes@.len() == 32 ==> (r matches Ok(k) && k@ == bytes@),
            bytes@.len() != 32 ==> (r matches Err(e) && e matches Error::Crypto(m) && m@
                == "Invalid key length"@),
    {
        if bytes.len() != 32 {
            return Err(Error::Crypto("Invalid key length".to_owned()));
        }
        Ok(SigningKey { bytes: copy_bytes::<32>(bytes) })
    }

    /// Derives the verification key of this key pair; a pure derivation with
    /// no side effects.
    ///
    /// Relies on `ed25519_dalek::SigningKey::verifying_key`: the public key
    /// is a function of the secret seed, and its 32-byte encoding decodes
    /// back into a verifying key.
    #[verifier::external_body]
    pub fn verification_key(&self) -> (vk: VerificationKey)
        ensures
            vk@ == ed25519_public_key_of(self@),
            ed25519_public_key_bytes_ok(vk@),
    {
        let key = ed25519_dalek::SigningKey::from_bytes(&self.bytes);
        VerificationKey { bytes: key.verifying_key().to_bytes() }
    }

    /// Signs a message; total, and deterministic per (key, message) pair.
    ///
    /// Relies on `ed25519_dalek::SigningKey::sign`: Ed25519 signing is
    /// deterministic, and the produced signature is accepted over the same
    /// message under the derived public key.
    #[verifier::external_body]
    pub fn sign(&self, data: &[u8]) -> (sig: Signature)
        ensures
            sig@ == ed25519_signature_of(self@, data@),
            ed25519_accepts(ed25519_public_key_of(self@), data@, sig@),
    {
        let key = ed25519_dalek::SigningKey::from_bytes(&self.bytes);
        Signature { bytes: key.sign(data).to_bytes() }
    }

    /// Exports the 32-byte secret seed.
    pub fn to_bytes(&self) -> (r: [u8; 32])
        ensures
            r@ == self@,
    {
        self.bytes
    }
}

/// An Ed25519 verification key, held as its 32-byte encoding.  May be shared
/// freely; it is the only key material persisted or transmitted for audit.
#[derive(Debug, Clone)]
pub struct VerificationKey {
    bytes: [u8; 32],
}

impl View for VerificationKey {
    type V = Seq<u8>;

    closed spec fn view(&self) -> Seq<u8> {
        self.bytes@
    }
}

/// Relies on `ed25519_dalek::VerifyingKey::from_bytes`: the 32 bytes decode
/// as a compressed curve point exactly when `ed25519_public_key_bytes_ok`
/// holds of them, and the decoded key re-encodes to the same bytes.
#[verifier::external_body]
fn parse_public_key_bytes(bytes: &[u8]) -> (r: Option<VerificationKey>)
    requires
        bytes@.len() == 32,
    ensures
        r is Some <==> ed25519_public_key_bytes_ok(bytes@),
        r matches Some(k) ==> k@ == bytes@,
{
    let arr: [u8; 32] = bytes.try_into().unwrap();
    match ed25519_dalek::VerifyingKey::from_bytes(&arr) {
        Ok(key) => Some(VerificationKey { bytes: key.to_bytes() }),
        Err(_) => None,
    }
}

impl VerificationKey {
    /// Checks a signature over a message, through the signature scheme's own
    /// constant-structure verification path.
    ///
    /// Relies on `ed25519_dalek::VerifyingKey::verify`: deterministic in the
    /// public key bytes, the message and the signature, and returns `Ok`
    /// exactly when the verification equation accepts.
    #[verifier::external_body]
    pub fn verify(&self, data: &[u8], signature: &Signature) -> (r: Result<(), Error>)
        ensures
            r is Ok <==> ed25519_accepts(self@, data@, signature@),
            r matches Err(e) ==> e is Crypto,
    {
        let key = match ed25519_dalek::VerifyingKey::from_bytes(&self.bytes) {
            Ok(key) => key,
            Err(e) => return Err(Error::Crypto(format!("Signature verification failed: {}", e))),
        };
        let sig = ed25519_dalek::Signature::from_bytes(&signature.bytes);
        match key.verify(data, &sig) {
            Ok(()) => Ok(()),
            Err(e) => Err(Error::Crypto(format!("Signature verification failed: {}", e))),
        }
    }

    /// Exports the 32-byte public key.
    pub fn to_bytes(&self) -> (r: [u8; 32])
        ensures
            r@ == self@,
    {
        self.bytes
    }

    /// Imports a verification key from its 32-byte encoding; a malformed
    /// length or a byte string that is no curve point is rejected.
    pub fn from_bytes(bytes: &[u8]) -> (r: Result<VerificationKey, Error>)
        ensures
            r is Ok <==> bytes@.len() == 32 && ed25519_public_key_bytes_ok(bytes@),
            r matches Ok(k) ==> k@ == bytes@,
            r matches Err(e) ==> e is Crypto,
            bytes@.len() != 32 ==> (r matches Err(e) && e matches Error::Crypto(m) && m@
                == "Invalid key length"@),
    {
        if bytes.len() != 32 {
            return Err(Error::Crypto("Invalid key length".to_owned()));
        }
        match parse_public_key_bytes(bytes) {
            Some(key) => Ok(key),
            None => Err(Error::Crypto("Invalid verification key".to_owned())),
        }
    }

    /// Encodes the key for text transport: lowercase hex, no prefix.
    pub fn to_hex(&self) -> (r: String)
        ensures
            r@ == spec_hex_encoding(self@),
    {
        hex_encode(self.bytes.as_slice())
    }

    /// Decodes a key from its hex text form: 64 hex digits that denote a
    /// curve point; anything else is rejected.
    pub fn from_hex(s: &str) -> (r: Result<VerificationKey, Error>)
        ensures
            r is Ok <==> (s@.len() == 64 && (forall|i: int|
                0 <= i < s@.len() ==> spec_is_hex_digit(s@[i])) && ed25519_public_key_bytes_ok(
                spec_hex_decoding(s@),
            )),
            r matches Ok(k) ==> k@ == spec_hex_decoding(s@),
            r matches Err(e) ==> e is Crypto,
    {
        match hex_decode(s) {
            Some(bytes) => VerificationKey::from_bytes(bytes.as_slice()),
            None => Err(Error::Crypto("Invalid hex encoding".to_owned())),
        }
    }
}

/// An Ed25519 signature: a 64-byte value bound to a specific message.
#[derive(Debug, Clone)]
pub struct Signature {
    bytes: [u8; 64],
}

impl View for Signature {
    type V = Seq<u8>;

    closed spec fn view(&self) -> Seq<u8> {
        self.bytes@
    }
}

impl Signature {
    /// Exports the 64 signature bytes.
    pub fn to_bytes(&self) -> (r: [u8; 64])
        ensures
            r@ == self@,
    {
        self.bytes
    }

    /// Imports a signature from its 64-byte encoding; any other length is
    /// rejected.
    pub fn from_bytes(bytes: &[u8]) -> (r: Result<Signature, Error>)
        ensures
            bytes@.len() == 64 ==> (r matches Ok(s) && s@ == bytes@),
            bytes@.len() != 64 ==> (r matches Err(e) && e matches Error::Crypto(m) && m@
                == "Invalid signature length"@),
    {
        if bytes.len() != 64 {
            return Err(Error::Crypto("Invalid signature length".to_owned()));
        }
        Ok(Signature { bytes: copy_bytes::<64>(bytes) })
    }

    /// Encodes the signature for text transport: lowercase hex, no prefix.
    pub fn to_hex(&self) -> (r: String)
        ensures
            r@ == spec_hex_encoding(self@),
    {
        hex_encode(self.bytes.as_slice())
    }

    /// Decodes a signature from its hex text form: 128 hex digits; anything
    /// else is rejected.
    pub fn from_hex(s: &str) -> (r: Result<Signature, Error>)
        ensures
            r is Ok <==> (s@.len() == 128 && forall|i: int|
                0 <= i < s@.len() ==> spec_is_hex_digit(s@[i])),
            r matches Ok(sig) ==> sig@ == spec_hex_decoding(s@),
            r matches Err(e) ==> e is Crypto,
    {
        match hex_decode(s) {
            Some(bytes) => Signature::from_bytes(bytes.as_slice()),
            None => Err(Error::Crypto("Invalid hex encoding".to_owned())),
        }
    }
}

/// Hashes data with SHA-256.
///
/// Relies on `sha2::Sha256`: the 32-byte digest is a function of the input
/// bytes alone, so hashing the same buffer twice yields the same digest.
#[verifier::external_body]
pub fn hash_data(data: &[u8]) -> (r: [u8; 32])
    ensures
        r@ == sha256_of(data@),
{
    let mut hasher = sha2::Sha256::new();
    hasher.update(data);
    hasher.finalize().into()
}

/// Law: a signature produced over a message by a signing key is accepted by
/// that key pair's verification key over the same message.
pub fn signing_then_verifying_succeeds(key: &SigningKey, message: &[u8]) -> (r: Result<(), Error>)
    ensures
        r is Ok,
{
    let signature = key.sign(message);
    let vk = key.verification_key();
    vk.verify(message, &signature)
}

/// Law: exporting a signing key to bytes and importing them back yields a key
/// with the same seed.
pub fn signing_key_bytes_roundtrip(key: &SigningKey) -> (r: Result<SigningKey, Error>)
    ensures
        r matches Ok(k) && k@ == key@,
{
    let bytes = key.to_bytes();
    SigningKey::from_bytes(bytes.as_slice())
}

/// Law: exporting a verification key to bytes and importing them back yields
/// a key with the same encoding.
pub fn verification_key_bytes_roundtrip(key: &SigningKey) -> (r: Result<VerificationKey, Error>)
    ensures
        r matches Ok(vk) && vk@ == ed25519_public_key_of(key@),
{
    let vk = key.verification_key();
    let bytes = vk.to_bytes();
    VerificationKey::from_bytes(bytes.as_slice())
}

/// Law: exporting a signature to bytes and importing them back yields the
/// same signature value.
pub fn signature_bytes_roundtrip(sig: &Signature) -> (r: Result<Signature, Error>)
    ensures
        r matches Ok(s) && s@ == sig@,
{
    let bytes = sig.to_bytes();
    Signature::from_bytes(bytes.as_slice())
}

/// Law: hex-encoding the verification key derived from a signing key and
/// decoding the text yields the same verification key.
pub fn derived_key_hex_roundtrip(key: &SigningKey) -> (r: Result<VerificationKey, Error>)
    ensures
        r matches Ok(vk) && vk@ == ed25519_public_key_of(key@),
{
    let vk = key.verification_key();
    let text = vk.to_hex();
    proof {
        lemma_hex_encoding_is_hex(vk@);
        lemma_hex_roundtrip(vk@);
    }
    VerificationKey::from_hex(text.as_str())
}

/// Law: hex-encoding a signature and decoding the text yields the same
/// signature value.
pub fn signature_hex_roundtrip(sig: &Signature) -> (r: Result<Signature, Error>)
    ensures
        r matches Ok(s) && s@ == sig@,
{
    let text = sig.to_hex();
    proof {
        lemma_hex_encoding_is_hex(sig@);
        lemma_hex_roundtrip(sig@);
    }
    Signature::from_hex(text.as_str())
}

} // verus!
