use ed25519_dalek::Signature as DalekSignature;
use ed25519_dalek::Signer;
use ed25519_dalek::SigningKey as DalekSigningKey;
use ed25519_dalek::Verifier;
use ed25519_dalek::VerifyingKey as DalekVerifyingKey;
use rand::rngs::OsRng;
use vstd::prelude::*;

use crate::error::{Error, ErrorKind};
use crate::text::{copy_to_array, decimal, join_count};

verus! {

#[verifier::external_type_specification]
#[verifier::external_body]
pub struct ExDalekSigningKey(DalekSigningKey);

#[verifier::external_type_specification]
#[verifier::external_body]
pub struct ExDalekVerifyingKey(DalekVerifyingKey);

#[verifier::external_type_specification]
#[verifier::external_body]
pub struct ExDalekSignature(DalekSignature);

/// The 32 secret bytes that an `DalekSigningKey` holds (what `to_bytes` gives).
pub uninterp spec fn dalek_secret(k: DalekSigningKey) -> Seq<u8>;

/// The 32 bytes of the compressed point that an `DalekVerifyingKey` holds.
pub uninterp spec fn dalek_public(k: DalekVerifyingKey) -> Seq<u8>;

/// The 64 bytes that an `DalekSignature` holds (`R` then `s`).
pub uninterp spec fn dalek_signature(s: DalekSignature) -> Seq<u8>;

/// The public key bytes that belong to the secret key bytes `secret`.
pub uninterp spec fn ed25519_public_of(secret: Seq<u8>) -> Seq<u8>;

/// The (deterministic) Ed25519 signature of `msg` under the secret key bytes `secret`.
pub uninterp spec fn ed25519_signature_of(secret: Seq<u8>, msg: Seq<u8>) -> Seq<u8>;

/// Whether the 32 bytes `public` decode to a public key: `None` if they do,
/// else the text of the error.
pub uninterp spec fn ed25519_key_check(public: Seq<u8>) -> Option<Seq<char>>;

/// Whether `sig` is a valid signature of `msg` under the public key `public`:
/// `None` if it is, else the text of the error.
pub uninterp spec fn ed25519_verify_check(public: Seq<u8>, msg: Seq<u8>, sig: Seq<u8>) -> Option<Seq<char>>;

/// Generate a fresh signing key.
///
/// Trusted: calls `DalekSigningKey::generate` with the OS random
/// number generator; only the length of the secret is claimed.
#[verifier::external_body]
fn dalek_generate() -> (r: DalekSigningKey)
    ensures
        dalek_secret(r).len() == 32,
{
    DalekSigningKey::generate(&mut OsRng)
}

/// The verifying key of a signing key.
///
/// Trusted: calls `DalekSigningKey::verifying_key`, which gives the
/// key computed from the secret; that key is a valid point, so its 32
/// compressed bytes decode.
#[verifier::external_body]
fn dalek_verifying_key(k: &DalekSigningKey) -> (r: DalekVerifyingKey)
    ensures
        dalek_public(r) == ed25519_public_of(dalek_secret(*k)),
        dalek_public(r).len() == 32,
        ed25519_key_check(dalek_public(r)) is None,
{
    k.verifying_key()
}

/// Sign `msg`.
///
/// Trusted: calls `ed25519_dalek::Signer::try_sign` and renders a
/// `SignatureError` with its `Display` impl. For a `SigningKey` the crate's
/// source always returns `Ok` (it signs with the expanded secret), so success
/// is claimed. Ed25519 signing is deterministic; by the correctness of Ed25519
/// the signature verifies under the public key of the same secret.
#[verifier::external_body]
fn dalek_sign(k: &DalekSigningKey, msg: &[u8]) -> (r: Result<DalekSignature, String>)
    ensures
        match r {
            Ok(s) => dalek_signature(s) == ed25519_signature_of(dalek_secret(*k), msg@)
                && ed25519_verify_check(ed25519_public_of(dalek_secret(*k)), msg@, dalek_signature(s)) is None,
            Err(_) => false,
        },
{
    k.try_sign(msg).map_err(|e| e.to_string())
}

/// Decode a public key from its 32 bytes.
///
/// Trusted: calls `DalekVerifyingKey::from_bytes`, and renders a
/// `SignatureError` with its `Display` impl.
#[verifier::external_body]
fn dalek_public_from_bytes(bytes: &[u8; 32]) -> (r: Result<DalekVerifyingKey, String>)
    ensures
        match r {
            Ok(k) => ed25519_key_check(bytes@) is None && dalek_public(k) == bytes@,
            Err(m) => ed25519_key_check(bytes@) == Some(m@),
        },
{
    DalekVerifyingKey::from_bytes(bytes).map_err(|e| e.to_string())
}

/// The 32 bytes of a public key.
///
/// Trusted: calls `DalekVerifyingKey::to_bytes`.
#[verifier::external_body]
fn dalek_public_to_bytes(k: &DalekVerifyingKey) -> (r: [u8; 32])
    ensures
        r@ == dalek_public(*k),
{
    k.to_bytes()
}

/// Verify `sig` on `msg`.
///
/// Trusted: calls `ed25519_dalek::Verifier::verify`, and renders a
/// `SignatureError` with its `Display` impl.
#[verifier::external_body]
fn dalek_verify(k: &DalekVerifyingKey, msg: &[u8], sig: &DalekSignature) -> (r: Result<(), String>)
    ensures
        match r {
            Ok(_) => ed25519_verify_check(dalek_public(*k), msg@, dalek_signature(*sig)) is None,
            Err(m) => ed25519_verify_check(dalek_public(*k), msg@, dalek_signature(*sig)) == Some(m@),
        },
{
    k.verify(msg, sig).map_err(|e| e.to_string())
}

/// A signature from its 64 bytes.
///
/// Trusted: calls `DalekSignature::from_bytes`, which takes any 64 bytes.
#[verifier::external_body]
fn dalek_signature_from_bytes(bytes: &[u8; 64]) -> (r: DalekSignature)
    ensures
        dalek_signature(r) == bytes@,
{
    DalekSignature::from_bytes(bytes)
}

/// The 64 bytes of a signature.
///
/// Trusted: calls `DalekSignature::to_bytes`.
#[verifier::external_body]
fn dalek_signature_to_bytes(s: &DalekSignature) -> (r: [u8; 64])
    ensures
        r@ == dalek_signature(*s),
{
    s.to_bytes()
}

/// An Ed25519 signing key.
pub struct Ed25519SigningKey(DalekSigningKey);

/// An Ed25519 verifying (public) key.
pub struct Ed25519VerifyingKey(DalekVerifyingKey);

/// An Ed25519 signature.
pub struct Ed25519Signature(DalekSignature);

impl View for Ed25519SigningKey {
    type V = Seq<u8>;

    closed spec fn view(&self) -> Seq<u8> {
        dalek_secret(self.0)
    }
}

impl View for Ed25519VerifyingKey {
    type V = Seq<u8>;

    closed spec fn view(&self) -> Seq<u8> {
        dalek_public(self.0)
    }
}

impl View for Ed25519Signature {
    type V = Seq<u8>;

    closed spec fn view(&self) -> Seq<u8> {
        dalek_signature(self.0)
    }
}

impl Ed25519SigningKey {
    /// Generate a new random signing key.
    pub fn generate() -> (r: Self)
        ensures
            r@.len() == 32,
    {
        Self(dalek_generate())
    }

    /// The verifying key of this signing key.
    pub fn verifying_key(&self) -> (r: Ed25519VerifyingKey)
        ensures
            r@ == ed25519_public_of(self@),
            r@.len() == 32,
            ed25519_key_check(r@) is None,
    {
        Ed25519VerifyingKey(dalek_verifying_key(&self.0))
    }

    /// Sign `msg`; this never fails.
    pub fn sign(&self, msg: &[u8]) -> (r: Result<Ed25519Signature, Error>)
        ensures
            r matches Ok(s) && s@ == ed25519_signature_of(self@, msg@),
            ed25519_verify_check(ed25519_public_of(self@), msg@, ed25519_signature_of(self@, msg@)) is None,
    {
        match dalek_sign(&self.0, msg) {
            Ok(s) => Ok(Ed25519Signature(s)),
            Err(m) => Err(Error::Auth(m)),
        }
    }
}

impl Ed25519VerifyingKey {
    /// Decode a verifying key from its 32 bytes.
    pub fn from_bytes(bytes: &[u8]) -> (r: Result<Self, Error>)
        ensures
            bytes@.len() != 32 ==> (r matches Err(e) && e@ == (ErrorKind::Format,
                "Ed25519 verifying key must be 32 bytes, got "@ + decimal(bytes@.len()))),
            bytes@.len() == 32 ==> match r {
                Ok(k) => ed25519_key_check(bytes@) is None && k@ == bytes@,
                Err(e) => ed25519_key_check(bytes@) == Some(e@.1) && e@.0 == ErrorKind::Auth,
            },
    {
        if bytes.len() != 32 {
            return Err(Error::Format(join_count("Ed25519 verifying key must be 32 bytes, got ", bytes.len())));
        }
        let arr: [u8; 32] = copy_to_array(bytes);
        match dalek_public_from_bytes(&arr) {
            Ok(k) => Ok(Self(k)),
            Err(m) => Err(Error::Auth(m)),
        }
    }

    /// The 32 bytes of this key.
    pub fn to_bytes(&self) -> (r: [u8; 32])
        ensures
            r@ == self@,
            r@.len() == 32,
    {
        dalek_public_to_bytes(&self.0)
    }

    /// Verify the signature `sig` on `msg`.
    pub fn verify(&self, msg: &[u8], sig: &Ed25519Signature) -> (r: Result<(), Error>)
        ensures
            match r {
                Ok(_) => ed25519_verify_check(self@, msg@, sig@) is None,
                Err(e) => ed25519_verify_check(self@, msg@, sig@) == Some(e@.1) && e@.0 == ErrorKind::Auth,
            },
    {
        match dalek_verify(&self.0, msg, &sig.0) {
            Ok(()) => Ok(()),
            Err(m) => Err(Error::Auth(m)),
        }
    }
}

impl Clone for Ed25519VerifyingKey {
    fn clone(&self) -> (r: Self)
        ensures
            r@ == self@,
    {
        Self(self.0)
    }
}

impl Ed25519Signature {
    /// A signature from its 64 bytes.
    pub fn from_bytes(bytes: &[u8]) -> (r: Result<Self, Error>)
        ensures
            bytes@.len() != 64 ==> (r matches Err(e) && e@ == (ErrorKind::Format,
                "Ed25519 signature must be 64 bytes, got "@ + decimal(bytes@.len()))),
            bytes@.len() == 64 ==> (r matches Ok(s) && s@ == bytes@),
    {
        if bytes.len() != 64 {
            return Err(Error::Format(join_count("Ed25519 signature must be 64 bytes, got ", bytes.len())));
        }
        let arr: [u8; 64] = copy_to_array(bytes);
        Ok(Self(dalek_signature_from_bytes(&arr)))
    }

    /// The 64 bytes of this signature.
    pub fn to_bytes(&self) -> (r: [u8; 64])
        ensures
            r@ == self@,
    {
        dalek_signature_to_bytes(&self.0)
    }
}

} // verus!
