use std::sync::Arc;

use falcon::falcon::{
    falcon_make_public, falcon_sign_dyn, falcon_tmpsize_makepub, falcon_tmpsize_signdyn,
    falcon_tmpsize_verify, falcon_verify,
    shake256_init_prng_from_system, FALCON_SIG_PADDED,
};
use falcon::prelude::FnDsaKeyPair;
use falcon::shake::InnerShake256Context;
use vstd::arithmetic::power2::pow2;
use vstd::prelude::*;
use zeroize::Zeroizing;

use crate::error::{Error, ErrorKind};
use crate::text::{copy_to_array, decimal, i32_to_text, join, join_count, signed_decimal};

verus! {

pub const PUBLIC_KEY_LEN: usize = 897;

pub const PRIVATE_KEY_LEN: usize = 1281;

/// The length of a FALCON_SIG_PADDED signature for FN-DSA-512 (logn = 9).
pub const SIGNATURE_LEN: usize = 666;

/// The domain-separation context of rjwt Falcon-512 signatures; part of the wire format.
pub const RJWT_FALCON_CONTEXT: [u8; 7] = [0x72, 0x6a, 0x77, 0x74, 0x2d, 0x76, 0x31];

/// The FIPS 206 context domain prefix followed by the message:
/// `0x00 || len(ctx) || ctx || msg`, with `ctx` the rjwt context.
pub open spec fn rjwt_domain_message(msg: Seq<u8>) -> Seq<u8> {
    seq![0u8, 7u8] + RJWT_FALCON_CONTEXT@ + msg
}

/// The bytes of a private key, held in a `zeroize::Zeroizing` array so that
/// they are wiped when dropped. `Zeroizing` bounds its parameter by a trait
/// of the `zeroize` crate, which a declaration of an outside type here cannot
/// name, so the array stands in an opaque field.
#[verifier::external_body]
pub struct SecretBytes(Zeroizing<[u8; 1281]>);

/// A scratch buffer held in a `zeroize::Zeroizing` vector, wiped when dropped.
#[verifier::external_body]
pub struct Scratch(Zeroizing<Vec<u8>>);

#[verifier::external_type_specification]
#[verifier::external_body]
pub struct ExInnerShake256Context(InnerShake256Context);

/// The key bytes that a [`SecretBytes`] holds.
pub uninterp spec fn secret_contents(z: SecretBytes) -> Seq<u8>;

/// The return code of `falcon::falcon::falcon_verify` on these arguments (0 when the signature is valid).
pub uninterp spec fn falcon_verify_code(sig: Seq<u8>, sig_type: i32, pubkey: Seq<u8>, data: Seq<u8>) -> i32;

/// The public key that `falcon::falcon::falcon_make_public` computes from the
/// private key bytes `privkey`, or none where it refuses them.
pub uninterp spec fn falcon_public_of(privkey: Seq<u8>) -> Option<Seq<u8>>;

/// The private key bytes `privkey` are of a key with which
/// `falcon::falcon::falcon_sign_dyn` returns: it neither loops for ever nor
/// panics on them. Every key that `FnDsaKeyPair::generate` makes is such a key.
pub uninterp spec fn falcon_key_signs(privkey: Seq<u8>) -> bool;

/// `sig` is one of the signatures in the format `sig_type` that
/// `falcon::falcon::falcon_sign_dyn` may write when it signs `data` with the
/// private key bytes `privkey` and returns 0 (signing is randomized, so there
/// are many).
pub uninterp spec fn falcon_signature_of(sig: Seq<u8>, sig_type: i32, privkey: Seq<u8>, data: Seq<u8>) -> bool;

/// Wrap a private key array so that it is zeroized when dropped.
///
/// Trusted: calls `zeroize::Zeroizing::new`, which holds the value unchanged.
#[verifier::external_body]
fn zeroizing_key(key: [u8; 1281]) -> (r: SecretBytes)
    ensures
        secret_contents(r) == key@,
{
    SecretBytes(Zeroizing::new(key))
}

/// Borrow the bytes that a `Zeroizing` private-key array holds.
///
/// Trusted: dereferences the `Zeroizing` (its `Deref` impl gives the held
/// value, an array of 1281 bytes).
#[verifier::external_body]
fn zeroizing_key_bytes(z: &SecretBytes) -> (r: &[u8])
    ensures
        r@ == secret_contents(*z),
        r@.len() == PRIVATE_KEY_LEN,
{
    &z.0[..]
}

/// Wrap a scratch buffer so that it is zeroized when dropped.
///
/// Trusted: calls `zeroize::Zeroizing::new`.
#[verifier::external_body]
fn zeroizing_scratch(buf: Vec<u8>) -> (r: Scratch) {
    Scratch(Zeroizing::new(buf))
}

/// The degree of FN-DSA-512 as a power of two: `2^9 = 512`.
pub const LOGN: u32 = 9;

/// The code of the PADDED signature format.
///
/// Trusted: reads `falcon::falcon::FALCON_SIG_PADDED`, which the crate defines as 2.
#[verifier::external_body]
fn sig_padded() -> (r: i32)
    ensures
        r == 2,
{
    FALCON_SIG_PADDED
}

/// Generate an FN-DSA key pair of degree `2^logn` and copy out its public and
/// private key bytes.
///
/// Trusted: calls `falcon::prelude::FnDsaKeyPair::generate` (seeded from the
/// operating system), reads the keys with its `public_key` and `private_key`
/// accessors, and renders a `FalconError` with `{:?}`. The key pair is random;
/// what is claimed is what the crate's source gives of every generated pair:
/// the key lengths for degree 512 (897 and 1281 bytes), that the public key
/// is the one `falcon_make_public` computes from the private key (the crate
/// recomputes it so in `FnDsaKeyPair::from_private_key`), and that signing
/// with the private key returns.
#[verifier::external_body]
fn falcon_keygen(logn: u32) -> (r: Result<(Vec<u8>, Vec<u8>), String>)
    ensures
        r matches Ok((pk, sk)) ==> (logn == 9 ==> pk@.len() == PUBLIC_KEY_LEN && sk@.len() == PRIVATE_KEY_LEN)
            && falcon_public_of(sk@) == Some(pk@) && falcon_key_signs(sk@),
{
    FnDsaKeyPair::generate(logn)
        .map(|kp| (kp.public_key().to_vec(), kp.private_key().to_vec()))
        .map_err(|e| format!("{e:?}"))
}

/// The scratch size that `falcon_sign_dyn` needs for degree `2^logn`.
///
/// Trusted: calls `falcon::falcon::falcon_tmpsize_signdyn`, which computes `(78 << logn) + 7`.
#[verifier::external_body]
fn tmpsize_signdyn(logn: u32) -> (r: usize)
    requires
        1 <= logn <= 10,
    ensures
        r == 78 * pow2(logn as nat) + 7,
{
    falcon_tmpsize_signdyn(logn)
}

/// The scratch size that `falcon_verify` needs for degree `2^logn`.
///
/// Trusted: calls `falcon::falcon::falcon_tmpsize_verify`, which computes `(8 << logn) + 1`.
#[verifier::external_body]
fn tmpsize_verify(logn: u32) -> (r: usize)
    requires
        1 <= logn <= 10,
    ensures
        r == 8 * pow2(logn as nat) + 1,
{
    falcon_tmpsize_verify(logn)
}

/// The scratch size that `falcon_make_public` needs for degree `2^logn`.
///
/// Trusted: calls `falcon::falcon::falcon_tmpsize_makepub`, which computes `(6 << logn) + 1`.
#[verifier::external_body]
fn tmpsize_makepub(logn: u32) -> (r: usize)
    requires
        1 <= logn <= 10,
    ensures
        r == 6 * pow2(logn as nat) + 1,
{
    falcon_tmpsize_makepub(logn)
}

/// Compute into `pubkey` the public key of the private key bytes `privkey`; 0 on success.
///
/// Trusted: calls `falcon::falcon::falcon_make_public`. For a private key of
/// degree 512 (1281 bytes), a 897-byte key buffer and a scratch buffer of at
/// least `falcon_tmpsize_makepub(9)` bytes, the source shows an outcome that
/// depends on the private key alone, which `falcon_public_of` names.
#[verifier::external_body]
fn falcon_public_key(pubkey: &mut [u8; 897], privkey: &[u8], tmp: &mut [u8]) -> (r: i32)
    requires
        privkey@.len() == PRIVATE_KEY_LEN,
        old(tmp)@.len() >= 6 * pow2(LOGN as nat) + 1,
    ensures
        (r == 0) == (falcon_public_of(privkey@) is Some),
        r == 0 ==> falcon_public_of(privkey@) == Some(final(pubkey)@),
{
    falcon_make_public(pubkey, privkey, tmp)
}

/// A fresh SHAKE256 context.
///
/// Trusted: calls `falcon::shake::InnerShake256Context::new`.
#[verifier::external_body]
fn shake_context() -> (r: InnerShake256Context) {
    InnerShake256Context::new()
}

/// Seed a SHAKE256 PRNG from the operating system; 0 on success.
///
/// Trusted: calls `falcon::falcon::shake256_init_prng_from_system`; nothing is
/// claimed of the outcome, which depends on the machine.
#[verifier::external_body]
fn shake_seed_from_system(rng: &mut InnerShake256Context) -> (r: i32) {
    shake256_init_prng_from_system(rng)
}

/// Sign `data` with the FN-DSA private key `privkey` in the format
/// `sig_type` into `sig`, with all of `sig` as room; 0 on success.
///
/// Trusted: calls `falcon::falcon::falcon_sign_dyn`, which loops until it
/// finds a short enough signature: it returns only for a key of which
/// `falcon_key_signs` holds, so such a key is required. The signature is
/// randomized and the call does not check it; what is claimed of a success is
/// only that it wrote a signature of `data` with `privkey` in the format
/// `sig_type`, one of those that `falcon_signature_of` admits.
#[verifier::external_body]
fn falcon_sign(
    rng: &mut InnerShake256Context,
    sig: &mut [u8; 666],
    sig_type: i32,
    privkey: &[u8],
    data: &[u8],
    tmp: &mut Scratch,
) -> (r: i32)
    requires
        falcon_key_signs(privkey@),
    ensures
        r == 0 ==> falcon_signature_of(final(sig)@, sig_type, privkey@, data@),
{
    let mut sig_len = sig.len();
    falcon_sign_dyn(rng, sig, &mut sig_len, sig_type, privkey, data, &mut tmp.0)
}

/// Verify the signature `sig` in the format `sig_type` of `data` under
/// `pubkey`; 0 when valid.
///
/// Trusted: calls `falcon::falcon::falcon_verify`. For a public key of
/// degree 512 (897 bytes) and a scratch buffer of at least
/// `falcon_tmpsize_verify(9)` bytes, the source shows a return code that
/// depends on the signature, format, key and data alone, which
/// `falcon_verify_code` names.
#[verifier::external_body]
fn falcon_verify_call(sig: &[u8], sig_type: i32, pubkey: &[u8], data: &[u8], tmp: &mut [u8]) -> (r: i32)
    requires
        pubkey@.len() == PUBLIC_KEY_LEN,
        old(tmp)@.len() >= 8 * pow2(LOGN as nat) + 1,
    ensures
        r == falcon_verify_code(sig@, sig_type, pubkey@, data@),
{
    falcon_verify(sig, sig_type, pubkey, data, tmp)
}

/// A Falcon-512 public key: exactly 897 bytes.
pub struct Falcon512PublicKey(Box<[u8; PUBLIC_KEY_LEN]>);

/// A Falcon-512 private key: exactly 1281 bytes, zeroized on drop.
pub struct Falcon512PrivateKey(Box<SecretBytes>);

/// A Falcon-512 signature in the PADDED format: exactly 666 bytes.
pub struct Falcon512Signature(Box<[u8; SIGNATURE_LEN]>);

/// A Falcon-512 key pair.
pub struct Falcon512KeyPair {
    pub public: Falcon512PublicKey,
    pub private: Falcon512PrivateKey,
}

impl View for Falcon512PublicKey {
    type V = Seq<u8>;

    closed spec fn view(&self) -> Seq<u8> {
        self.0@
    }
}

impl View for Falcon512PrivateKey {
    type V = Seq<u8>;

    closed spec fn view(&self) -> Seq<u8> {
        secret_contents(*self.0)
    }
}

impl View for Falcon512Signature {
    type V = Seq<u8>;

    closed spec fn view(&self) -> Seq<u8> {
        self.0@
    }
}

/// Backend trait: an implementation of FN-DSA-512, swappable without touching
/// the rest of the library.
pub trait Falcon512Backend: Send + Sync {
    /// Whether this backend accepts `sig` as a signature of `msg` under the
    /// public key `pk`: by default, FN-DSA-512 verification of the PADDED
    /// signature over the message with the rjwt context, as `falcon-rs` does it.
    open spec fn accepts(&self, pk: Seq<u8>, msg: Seq<u8>, sig: Seq<u8>) -> bool {
        falcon_verify_code(sig, 2, pk, rjwt_domain_message(msg)) == 0
    }

    /// Whether `pk` is the public key of the private key `sk`: by default, the
    /// one that `falcon-rs` computes from it.
    open spec fn key_pair(&self, pk: Seq<u8>, sk: Seq<u8>) -> bool {
        falcon_public_of(sk) == Some(pk)
    }

    /// Whether this backend can sign with the private key `sk` (signing
    /// returns): by default, where `falcon-rs` signing returns.
    open spec fn can_sign(&self, sk: Seq<u8>) -> bool {
        falcon_key_signs(sk)
    }

    /// A new key pair, whose keys belong together and can sign.
    fn generate(&self) -> (r: Result<Falcon512KeyPair, Error>)
        ensures
            r matches Ok(kp) ==> self.key_pair(kp.public@, kp.private@) && self.can_sign(kp.private@);

    /// A signature of `msg` with `sk`, which this backend accepts under the
    /// public key of `sk`.
    fn sign(&self, sk: &Falcon512PrivateKey, msg: &[u8]) -> (r: Result<Falcon512Signature, Error>)
        requires
            self.can_sign(sk@),
        ensures
            r matches Ok(s) ==> forall|pk: Seq<u8>| #[trigger] self.key_pair(pk, sk@) ==> self.accepts(pk, msg@, s@);

    fn verify(&self, pk: &Falcon512PublicKey, msg: &[u8], sig: &Falcon512Signature) -> (r: Result<(), Error>)
        ensures
            r is Ok <==> self.accepts(pk@, msg@, sig@);
}

impl Falcon512PublicKey {
    /// A public key from exactly 897 bytes.
    pub fn from_bytes(bytes: &[u8]) -> (r: Result<Self, Error>)
        ensures
            bytes@.len() != PUBLIC_KEY_LEN ==> (r matches Err(e) && e@ == (ErrorKind::Format,
                "Falcon-512 public key must be 897 bytes, got "@ + decimal(bytes@.len()))),
            bytes@.len() == PUBLIC_KEY_LEN ==> (r matches Ok(k) && k@ == bytes@),
    {
        if bytes.len() != PUBLIC_KEY_LEN {
            return Err(Error::Format(join_count("Falcon-512 public key must be 897 bytes, got ", bytes.len())));
        }
        let arr: [u8; PUBLIC_KEY_LEN] = copy_to_array(bytes);
        Ok(Self(Box::new(arr)))
    }

    /// Borrow the 897 bytes of this key.
    pub fn as_bytes(&self) -> (r: &[u8])
        ensures
            r@ == self@,
            r@.len() == PUBLIC_KEY_LEN,
    {
        self.0.as_slice()
    }
}

impl Clone for Falcon512PublicKey {
    fn clone(&self) -> (r: Self)
        ensures
            r@ == self@,
    {
        Self(Box::new(*self.0))
    }
}

impl Falcon512PrivateKey {
    /// A private key from exactly 1281 bytes.
    pub fn from_bytes(bytes: &[u8]) -> (r: Result<Self, Error>)
        ensures
            bytes@.len() != PRIVATE_KEY_LEN ==> (r matches Err(e) && e@ == (ErrorKind::Format,
                "Falcon-512 private key must be 1281 bytes, got "@ + decimal(bytes@.len()))),
            bytes@.len() == PRIVATE_KEY_LEN ==> (r matches Ok(k) && k@ == bytes@),
    {
        if bytes.len() != PRIVATE_KEY_LEN {
            return Err(Error::Format(join_count("Falcon-512 private key must be 1281 bytes, got ", bytes.len())));
        }
        let arr: [u8; PRIVATE_KEY_LEN] = copy_to_array(bytes);
        Ok(Self(Box::new(zeroizing_key(arr))))
    }

    /// Borrow the 1281 bytes of this key.
    pub fn as_bytes(&self) -> (r: &[u8])
        ensures
            r@ == self@,
            r@.len() == PRIVATE_KEY_LEN,
    {
        zeroizing_key_bytes(&self.0)
    }
}

impl Falcon512Signature {
    /// A signature from exactly 666 bytes (the PADDED format); any other length is refused.
    pub fn from_bytes(bytes: &[u8]) -> (r: Result<Self, Error>)
        ensures
            bytes@.len() != SIGNATURE_LEN ==> (r matches Err(e) && e@ == (ErrorKind::Format,
                "Falcon-512 signature must be exactly 666 bytes (PADDED format), got "@ + decimal(bytes@.len()))),
            bytes@.len() == SIGNATURE_LEN ==> (r matches Ok(s) && s@ == bytes@),
    {
        if bytes.len() != SIGNATURE_LEN {
            return Err(Error::Format(join_count(
                "Falcon-512 signature must be exactly 666 bytes (PADDED format), got ",
                bytes.len(),
            )));
        }
        let arr: [u8; SIGNATURE_LEN] = copy_to_array(bytes);
        Ok(Self(Box::new(arr)))
    }

    /// Borrow the 666 bytes of this signature.
    pub fn as_bytes(&self) -> (r: &[u8])
        ensures
            r@ == self@,
            r@.len() == SIGNATURE_LEN,
    {
        self.0.as_slice()
    }

    /// Copy out the 666 bytes of this signature.
    pub fn to_bytes(&self) -> (r: [u8; SIGNATURE_LEN])
        ensures
            r@ == self@,
    {
        *self.0
    }
}

impl Clone for Falcon512Signature {
    fn clone(&self) -> (r: Self)
        ensures
            r@ == self@,
    {
        Self(Box::new(*self.0))
    }
}

/// The error for a nonzero return code of the falcon-rs low-level API.
fn code_error(rc: i32) -> (r: Error)
    ensures
        r@ == (ErrorKind::Auth, "falcon-rs low-level error: "@ + signed_decimal(rc as int)),
{
    let code = i32_to_text(rc);
    Error::Auth(join("falcon-rs low-level error: ", code.as_str()))
}

/// The key pair of what a key generation gave: the public and private key
/// bytes, or the text of its error.
pub fn keypair_from_keygen(keys: Result<(Vec<u8>, Vec<u8>), String>) -> (r: Result<Falcon512KeyPair, Error>)
    ensures
        match keys {
            Ok((pk, sk)) => if pk@.len() != PUBLIC_KEY_LEN {
                r matches Err(e) && e@ == (ErrorKind::Format, "Falcon-512 public key must be 897 bytes, got "@
                    + decimal(pk@.len()))
            } else if sk@.len() != PRIVATE_KEY_LEN {
                r matches Err(e) && e@ == (ErrorKind::Format, "Falcon-512 private key must be 1281 bytes, got "@
                    + decimal(sk@.len()))
            } else {
                r matches Ok(kp) && kp.public@ == pk@ && kp.private@ == sk@
            },
            Err(m) => r matches Err(e) && e@ == (ErrorKind::Auth, "falcon-rs: "@ + m@),
        },
{
    let (pk, sk) = match keys {
        Ok(keys) => keys,
        Err(m) => return Err(Error::Auth(join("falcon-rs: ", m.as_str()))),
    };
    let public = Falcon512PublicKey::from_bytes(pk.as_slice())?;
    let private = Falcon512PrivateKey::from_bytes(sk.as_slice())?;
    Ok(Falcon512KeyPair { public, private })
}

/// The signature of what a signing call gave: its return code and the
/// signature it wrote.
pub fn signature_from_code(rc: i32, sig: &[u8; SIGNATURE_LEN]) -> (r: Result<Falcon512Signature, Error>)
    ensures
        rc == 0 ==> (r matches Ok(s) && s@ == sig@),
        rc != 0 ==> (r matches Err(e) && e@ == (ErrorKind::Auth, "falcon-rs low-level error: "@ + signed_decimal(
            rc as int,
        ))),
{
    if rc != 0 {
        return Err(code_error(rc));
    }
    Falcon512Signature::from_bytes(sig)
}

/// A SHAKE256 PRNG seeded from the operating system.
fn init_rng() -> (r: Result<InnerShake256Context, Error>)
    ensures
        r matches Err(e) ==> e@ == (ErrorKind::Auth, "falcon-rs: OS RNG unavailable"@),
{
    let mut rng = shake_context();
    let rc = shake_seed_from_system(&mut rng);
    if rc != 0 {
        return Err(Error::auth("falcon-rs: OS RNG unavailable"));
    }
    Ok(rng)
}

/// The bytes that rjwt signs with Falcon-512 for the message `msg`:
/// the FIPS 206 pure-FN-DSA context prefix, then `msg`.
pub fn domain_message(msg: &[u8]) -> (r: Vec<u8>)
    ensures
        r@ == rjwt_domain_message(msg@),
{
    let mut r: Vec<u8> = Vec::new();
    r.push(0u8);
    r.push(RJWT_FALCON_CONTEXT.len() as u8);
    let mut i: usize = 0;
    while i < RJWT_FALCON_CONTEXT.len()
        invariant
            i <= RJWT_FALCON_CONTEXT@.len(),
            r@ == seq![0u8, 7u8] + RJWT_FALCON_CONTEXT@.subrange(0, i as int),
        decreases RJWT_FALCON_CONTEXT@.len() - i,
    {
        r.push(RJWT_FALCON_CONTEXT[i]);
        i += 1;
    }
    let mut j: usize = 0;
    while j < msg.len()
        invariant
            j <= msg@.len(),
            r@ == seq![0u8, 7u8] + RJWT_FALCON_CONTEXT@ + msg@.subrange(0, j as int),
        decreases msg@.len() - j,
    {
        r.push(msg[j]);
        j += 1;
    }
    r
}

/// The default backend, built on the `falcon-rs` crate.
#[derive(Clone, Copy, Debug, Default)]
pub struct FalconRsBackend;

impl Falcon512Backend for FalconRsBackend {
    fn generate(&self) -> (r: Result<Falcon512KeyPair, Error>)
        ensures
            r matches Err(e) ==> exists|m: Seq<char>| e@ == (ErrorKind::Auth, #[trigger] ("falcon-rs: "@ + m)),
            r matches Ok(kp) ==> falcon_public_of(kp.private@) == Some(kp.public@) && falcon_key_signs(
                kp.private@,
            ),
    {
        keypair_from_keygen(falcon_keygen(LOGN))
    }

    fn sign(&self, sk: &Falcon512PrivateKey, msg: &[u8]) -> (r: Result<Falcon512Signature, Error>)
        ensures
            r matches Err(e) ==> e@ == (ErrorKind::Auth, "falcon-rs: OS RNG unavailable"@) || exists|rc: i32|
                rc != 0 && e@ == (ErrorKind::Auth, "falcon-rs low-level error: "@ + #[trigger] signed_decimal(
                    rc as int,
                )),
            r matches Ok(s) ==> falcon_signature_of(s@, 2, sk@, rjwt_domain_message(msg@)),
            r matches Ok(s) ==> (falcon_public_of(sk@) matches Some(pk) && falcon_verify_code(
                s@,
                2,
                pk,
                rjwt_domain_message(msg@),
            ) == 0),
    {
        let mut rng = init_rng()?;
        let tmp_len = tmpsize_signdyn(LOGN);
        let mut tmp = zeroizing_scratch(vec![0u8; tmp_len]);
        let mut sig = [0u8; SIGNATURE_LEN];
        let data = domain_message(msg);
        let rc = falcon_sign(&mut rng, &mut sig, sig_padded(), sk.as_bytes(), data.as_slice(), &mut tmp);
        if rc != 0 {
            return Err(code_error(rc));
        }
        let mut pk = [0u8; PUBLIC_KEY_LEN];
        let pk_tmp_len = tmpsize_makepub(LOGN);
        let mut pk_tmp = vec![0u8; pk_tmp_len];
        let rc = falcon_public_key(&mut pk, sk.as_bytes(), pk_tmp.as_mut_slice());
        if rc != 0 {
            return Err(code_error(rc));
        }
        let verify_tmp_len = tmpsize_verify(LOGN);
        let mut verify_tmp = vec![0u8; verify_tmp_len];
        let rc = falcon_verify_call(&sig, sig_padded(), &pk, data.as_slice(), verify_tmp.as_mut_slice());
        signature_from_code(rc, &sig)
    }

    fn verify(&self, pk: &Falcon512PublicKey, msg: &[u8], sig: &Falcon512Signature) -> (r: Result<(), Error>)
        ensures
            r matches Err(e) ==> e@ == (ErrorKind::Auth, "falcon-rs low-level error: "@ + signed_decimal(
                falcon_verify_code(sig@, 2, pk@, rjwt_domain_message(msg@)) as int,
            )),
    {
        let tmp_len = tmpsize_verify(LOGN);
        let mut tmp = vec![0u8; tmp_len];
        let data = domain_message(msg);
        let rc = falcon_verify_call(sig.as_bytes(), sig_padded(), pk.as_bytes(), data.as_slice(), tmp.as_mut_slice());
        if rc != 0 {
            return Err(code_error(rc));
        }
        Ok(())
    }
}

/// A handle on a Falcon-512 backend that keys share: the default backend,
/// built on `falcon-rs`, or a shared handle on a backend of the user's.
pub enum SharedBackend {
    FalconRs(FalconRsBackend),
    Custom(Arc<Box<dyn Falcon512Backend>>),
}

/// A new handle on the same shared backend.
///
/// Trusted: calls `Arc::clone`, which points to the same allocation.
#[verifier::external_body]
fn clone_handle(b: &Arc<Box<dyn Falcon512Backend>>) -> (r: Arc<Box<dyn Falcon512Backend>>)
    ensures
        r == *b,
{
    Arc::clone(b)
}

/// Share a backend: a new handle on the same backend.
pub(crate) fn share_backend(b: &SharedBackend) -> (r: SharedBackend)
    ensures
        r == *b,
{
    match b {
        SharedBackend::FalconRs(x) => SharedBackend::FalconRs(*x),
        SharedBackend::Custom(a) => SharedBackend::Custom(clone_handle(a)),
    }
}

impl Falcon512Backend for SharedBackend {
    open spec fn accepts(&self, pk: Seq<u8>, msg: Seq<u8>, sig: Seq<u8>) -> bool {
        match self {
            SharedBackend::FalconRs(b) => b.accepts(pk, msg, sig),
            SharedBackend::Custom(b) => b.accepts(pk, msg, sig),
        }
    }

    open spec fn key_pair(&self, pk: Seq<u8>, sk: Seq<u8>) -> bool {
        match self {
            SharedBackend::FalconRs(b) => b.key_pair(pk, sk),
            SharedBackend::Custom(b) => b.key_pair(pk, sk),
        }
    }

    open spec fn can_sign(&self, sk: Seq<u8>) -> bool {
        match self {
            SharedBackend::FalconRs(b) => b.can_sign(sk),
            SharedBackend::Custom(b) => b.can_sign(sk),
        }
    }

    fn generate(&self) -> (r: Result<Falcon512KeyPair, Error>)
        ensures
            self is FalconRs ==> (r matches Err(e) ==> exists|m: Seq<char>| e@ == (
                ErrorKind::Auth,
                #[trigger] ("falcon-rs: "@ + m),
            )),
    {
        match self {
            SharedBackend::FalconRs(b) => b.generate(),
            SharedBackend::Custom(b) => b.generate(),
        }
    }

    fn sign(&self, sk: &Falcon512PrivateKey, msg: &[u8]) -> (r: Result<Falcon512Signature, Error>) {
        match self {
            SharedBackend::FalconRs(b) => b.sign(sk, msg),
            SharedBackend::Custom(b) => b.sign(sk, msg),
        }
    }

    fn verify(&self, pk: &Falcon512PublicKey, msg: &[u8], sig: &Falcon512Signature) -> (r: Result<(), Error>) {
        match self {
            SharedBackend::FalconRs(b) => b.verify(pk, msg, sig),
            SharedBackend::Custom(b) => b.verify(pk, msg, sig),
        }
    }
}

} // verus!
