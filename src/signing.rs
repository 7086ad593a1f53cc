use ring::signature::KeyPair;
use vstd::prelude::*;

verus! {

#[verifier::external_type_specification]
#[verifier::external_body]
pub struct ExEd25519KeyPair(ring::signature::Ed25519KeyPair);

/// A signature: 64 bytes for Ed25519.
pub type Signature = Vec<u8>;

/// The length of an Ed25519 signature.
pub const SIGNATURE_LEN: usize = 64;

/// The length of an Ed25519 public key.
pub const PUBLIC_KEY_LEN: usize = 32;

/// An Ed25519 public key, held as its encoded bytes.
#[derive(Debug, Clone)]
pub struct PublicKey {
    pub bytes: Vec<u8>,
}

/// Whether `key` is an unencrypted PKCS#8 v2 Ed25519 private key that
/// ring accepts.
pub uninterp spec fn pkcs8_accepted(key: Seq<u8>) -> bool;

/// Whether `signature` is a valid Ed25519 signature of `message` under the
/// encoded public key `key`.
pub uninterp spec fn ed25519_accepts(key: Seq<u8>, message: Seq<u8>, signature: Seq<u8>) -> bool;

/// Relies on `ring::signature::Ed25519KeyPair::generate_pkcs8` with a
/// `SystemRandom`: a fresh random key pair as a PKCS#8 document, or nothing
/// when the system's random source fails.
#[verifier::external_body]
fn ed25519_generate_pkcs8() -> (r: Option<Vec<u8>>) {
    let rng = ring::rand::SystemRandom::new();
    match ring::signature::Ed25519KeyPair::generate_pkcs8(&rng) {
        Ok(document) => Some(document.as_ref().to_vec()),
        Err(_) => None,
    }
}

/// Relies on `ring::signature::Ed25519KeyPair::from_pkcs8`: it parses the
/// key or rejects it, depending on the bytes alone.
#[verifier::external_body]
fn ed25519_from_pkcs8(pkcs8: &[u8]) -> (r: Option<ring::signature::Ed25519KeyPair>)
    ensures
        r.is_some() == pkcs8_accepted(pkcs8@),
{
    ring::signature::Ed25519KeyPair::from_pkcs8(pkcs8).ok()
}

/// Relies on `ring::signature::Ed25519KeyPair::sign`: an Ed25519 signature,
/// which is 64 bytes long.
#[verifier::external_body]
fn ed25519_sign(key_pair: &ring::signature::Ed25519KeyPair, message: &[u8]) -> (r: Vec<u8>)
    ensures
        r@.len() == SIGNATURE_LEN,
{
    key_pair.sign(message).as_ref().to_vec()
}

/// Relies on `KeyPair::public_key` of `ring::signature::Ed25519KeyPair`: the
/// 32-byte encoded public key.
#[verifier::external_body]
fn ed25519_public_key(key_pair: &ring::signature::Ed25519KeyPair) -> (r: Vec<u8>)
    ensures
        r@.len() == PUBLIC_KEY_LEN,
{
    key_pair.public_key().as_ref().to_vec()
}

/// Relies on `ring::signature::UnparsedPublicKey::verify` with `ED25519`:
/// whether the signature is valid depends on the three byte strings alone,
/// and a key that is not 32 bytes or a signature that is not 64 bytes is
/// rejected.
#[verifier::external_body]
fn ed25519_verify(key: &[u8], message: &[u8], signature: &[u8]) -> (r: bool)
    ensures
        r == ed25519_accepts(key@, message@, signature@),
        r ==> key@.len() == PUBLIC_KEY_LEN && signature@.len() == SIGNATURE_LEN,
{
    ring::signature::UnparsedPublicKey::new(&ring::signature::ED25519, key)
        .verify(message, signature)
        .is_ok()
}

/// An Ed25519 key pair.
pub struct KeyPairWrapper {
    key_pair: std::sync::Arc<ring::signature::Ed25519KeyPair>,
}

impl KeyPairWrapper {
    /// Generate a new random key pair.
    pub fn generate() -> (r: Result<Self, String>) {
        let pkcs8 = match ed25519_generate_pkcs8() {
            Some(bytes) => bytes,
            None => {
                return Err("Failed to generate key pair".to_owned());
            },
        };
        match ed25519_from_pkcs8(pkcs8.as_slice()) {
            Some(key_pair) => Ok(KeyPairWrapper { key_pair: std::sync::Arc::new(key_pair) }),
            None => Err("Failed to parse key pair".to_owned()),
        }
    }

    /// Parse a key pair from PKCS#8 bytes.
    pub fn from_private_key_bytes(bytes: &[u8]) -> (r: Result<Self, String>)
        ensures
            r is Ok <==> pkcs8_accepted(bytes@),
    {
        match ed25519_from_pkcs8(bytes) {
            Some(key_pair) => Ok(KeyPairWrapper { key_pair: std::sync::Arc::new(key_pair) }),
            None => Err("Failed to parse key pair".to_owned()),
        }
    }

    /// The public half of the key pair.
    pub fn public_key(&self) -> (r: PublicKey)
        ensures
            r.bytes@.len() == PUBLIC_KEY_LEN,
    {
        PublicKey { bytes: ed25519_public_key(&*self.key_pair) }
    }

    /// The private key bytes: a parsed key pair does not expose them, so
    /// this is always empty.
    pub fn private_key_bytes(&self) -> (r: Vec<u8>)
        ensures
            r@.len() == 0,
    {
        Vec::new()
    }

    /// Sign a message.
    pub fn sign(&self, message: &[u8]) -> (r: Signature)
        ensures
            r@.len() == SIGNATURE_LEN,
    {
        ed25519_sign(&*self.key_pair, message)
    }
}

/// Sign a message with a PKCS#8 private key.
pub fn sign_message(message: &[u8], private_key: &[u8]) -> (r: Result<Signature, String>)
    ensures
        r is Ok <==> pkcs8_accepted(private_key@),
        r matches Ok(s) ==> s@.len() == SIGNATURE_LEN,
{
    match ed25519_from_pkcs8(private_key) {
        Some(key_pair) => Ok(ed25519_sign(&key_pair, message)),
        None => Err("Failed to parse private key".to_owned()),
    }
}

/// Verify a signature: `Ok(true)` when it is valid, an error otherwise.
pub fn verify_signature(message: &[u8], signature: &Signature, public_key: &PublicKey) -> (r:
    Result<bool, String>)
    ensures
        r is Ok <==> ed25519_accepts(public_key.bytes@, message@, signature@),
        r matches Ok(b) ==> b,
{
    if ed25519_verify(public_key.bytes.as_slice(), message, signature.as_slice()) {
        Ok(true)
    } else {
        Err("Signature verification failed".to_owned())
    }
}

/// Generate a key pair, returning its public key and its private key bytes
/// (empty: a generated key pair does not expose them).
pub fn generate_key_pair() -> (r: Result<(PublicKey, Vec<u8>), String>)
    ensures
        r matches Ok(pair) ==> pair.0.bytes@.len() == PUBLIC_KEY_LEN && pair.1@.len() == 0,
{
    let key_pair = KeyPairWrapper::generate()?;
    let public_key = key_pair.public_key();
    Ok((public_key, Vec::new()))
}

} // verus!
