use vstd::prelude::*;
use vstd::utf8::{
    char_is_scalar, encode_scalar, encode_utf8, encode_utf8_decode_utf8, encode_utf8_valid_utf8,
    has_width_1_encoding, last_continuation_byte, leading_byte_width_1, leading_byte_width_2,
    leading_byte_width_3, leading_byte_width_4, second_last_continuation_byte,
    third_last_continuation_byte, valid_utf8,
};

use crate::ed25519::{
    ed25519_key_check, ed25519_public_of, ed25519_signature_of, ed25519_verify_check,
    Ed25519Signature, Ed25519SigningKey, Ed25519VerifyingKey,
};
use crate::error::{Error, ErrorKind};
use crate::falcon512::{
    share_backend, Falcon512Backend, Falcon512KeyPair, Falcon512PublicKey, Falcon512Signature, SharedBackend,
};
use crate::frame::string_from_utf8;
use crate::text::{decimal, join, str_eq};

verus! {

/// A signature algorithm.
#[derive(Clone, Copy, Debug, PartialEq, Eq, Structural, Hash)]
pub enum AlgKind {
    Ed25519,
    Falcon512,
}

impl AlgKind {
    /// The name of this algorithm in the `alg` field of a JWT header.
    pub open spec fn spec_jwt_name(self) -> Seq<char> {
        match self {
            AlgKind::Ed25519 => "EdDSA"@,
            AlgKind::Falcon512 => "FN-DSA-512"@,
        }
    }

    /// The algorithm with the JWT header name `s`, if any.
    pub open spec fn spec_from_jwt_name(s: Seq<char>) -> Option<AlgKind> {
        if s == "EdDSA"@ {
            Some(AlgKind::Ed25519)
        } else if s == "FN-DSA-512"@ {
            Some(AlgKind::Falcon512)
        } else {
            None
        }
    }

    /// The name of this algorithm in the `alg` field of a JWT header.
    pub fn jwt_name(self) -> (r: &'static str)
        ensures
            r@ == self.spec_jwt_name(),
    {
        match self {
            AlgKind::Ed25519 => "EdDSA",
            AlgKind::Falcon512 => "FN-DSA-512",
        }
    }

    /// The algorithm with the JWT header name `s`; any other name is refused.
    pub fn from_jwt_name(s: &str) -> (r: Result<Self, Error>)
        ensures
            match Self::spec_from_jwt_name(s@) {
                Some(alg) => r == Ok::<AlgKind, Error>(alg),
                None => r matches Err(e) && e@ == (ErrorKind::Format, "unsupported alg: "@ + s@),
            },
    {
        if str_eq(s, "EdDSA") {
            Ok(AlgKind::Ed25519)
        } else if str_eq(s, "FN-DSA-512") {
            Ok(AlgKind::Falcon512)
        } else {
            Err(Error::Format(join("unsupported alg: ", s)))
        }
    }
}

/// Decoding the JWT name of an algorithm gives the algorithm back.
pub proof fn law_jwt_name_roundtrip(alg: AlgKind)
    ensures
        AlgKind::spec_from_jwt_name(alg.spec_jwt_name()) == Some(alg),
{
    reveal_strlit("EdDSA");
    reveal_strlit("FN-DSA-512");
    assert("FN-DSA-512"@[0] != "EdDSA"@[0]);
}

/// `c` with an ASCII upper-case letter mapped to lower case.
pub open spec fn ascii_lower(c: char) -> char {
    if 'A' <= c && c <= 'Z' {
        ((c as u32) + 32) as char
    } else {
        c
    }
}

/// `s` with each ASCII upper-case letter mapped to lower case.
pub open spec fn ascii_lowercase(s: Seq<char>) -> Seq<char> {
    s.map_values(|c: char| ascii_lower(c))
}

/// `b` with an ASCII upper-case letter mapped to lower case.
pub open spec fn ascii_lower_byte(b: u8) -> u8 {
    if 65 <= b && b <= 90 {
        (b + 32) as u8
    } else {
        b
    }
}

/// Lowering the ASCII letters of a character lowers the bytes of its UTF-8
/// encoding: an ASCII character is its one byte, and every byte of the
/// encoding of another character is at least 128.
proof fn lemma_lower_scalar(c: char)
    ensures
        encode_scalar(ascii_lower(c) as u32) == encode_scalar(c as u32).map_values(|b: u8| ascii_lower_byte(b)),
{
    let v = c as u32;
    char_is_scalar(c);
    if has_width_1_encoding(v) {
        assert(leading_byte_width_1(v) == v as u8) by (bit_vector)
            requires
                v <= 0x7f,
        ;
        if 'A' <= c && c <= 'Z' {
            let w = (v + 32) as u32;
            assert(ascii_lower(c) as u32 == w);
            assert(leading_byte_width_1(w) == w as u8) by (bit_vector)
                requires
                    w <= 0x7f,
            ;
        }
        assert(encode_scalar(ascii_lower(c) as u32) =~= encode_scalar(v).map_values(|b: u8| ascii_lower_byte(b)));
    } else {
        assert(leading_byte_width_2(v) >= 128) by (bit_vector);
        assert(leading_byte_width_3(v) >= 128) by (bit_vector);
        assert(leading_byte_width_4(v) >= 128) by (bit_vector);
        assert(last_continuation_byte(v) >= 128) by (bit_vector);
        assert(second_last_continuation_byte(v) >= 128) by (bit_vector);
        assert(third_last_continuation_byte(v) >= 128) by (bit_vector);
        assert(encode_scalar(v) =~= encode_scalar(v).map_values(|b: u8| ascii_lower_byte(b)));
    }
}

/// The UTF-8 encoding of the ASCII lower case of `s` is the encoding of `s`
/// with its ASCII upper-case letter bytes lowered.
proof fn lemma_lower_utf8(s: Seq<char>)
    ensures
        encode_utf8(ascii_lowercase(s)) == encode_utf8(s).map_values(|b: u8| ascii_lower_byte(b)),
    decreases s.len(),
{
    if s.len() > 0 {
        lemma_lower_utf8(s.drop_first());
        lemma_lower_scalar(s[0]);
        assert(ascii_lowercase(s).drop_first() =~= ascii_lowercase(s.drop_first()));
        let head = encode_scalar(s[0] as u32);
        let tail = encode_utf8(s.drop_first());
        assert((head + tail).map_values(|b: u8| ascii_lower_byte(b)) =~= head.map_values(|b: u8| ascii_lower_byte(b))
            + tail.map_values(|b: u8| ascii_lower_byte(b)));
    } else {
        assert(ascii_lowercase(s) =~= s);
        assert(encode_utf8(s).map_values(|b: u8| ascii_lower_byte(b)) =~= encode_utf8(s));
    }
}

/// A copy of `s` in ASCII lower case.
fn to_ascii_lowercase(s: &str) -> (r: String)
    ensures
        r@ == ascii_lowercase(s@),
{
    let bytes = s.as_bytes();
    let mut out: Vec<u8> = Vec::new();
    let mut i: usize = 0;
    while i < bytes.len()
        invariant
            i <= bytes@.len(),
            out@ == bytes@.subrange(0, i as int).map_values(|b: u8| ascii_lower_byte(b)),
        decreases bytes@.len() - i,
    {
        let b = bytes[i];
        let l: u8 = if 65u8 <= b && b <= 90u8 {
            b + 32u8
        } else {
            b
        };
        out.push(l);
        i += 1;
        assert(out@ =~= bytes@.subrange(0, i as int).map_values(|b: u8| ascii_lower_byte(b)));
    }
    proof {
        assert(bytes@.subrange(0, i as int) =~= bytes@);
        lemma_lower_utf8(s@);
        encode_utf8_valid_utf8(ascii_lowercase(s@));
        encode_utf8_decode_utf8(ascii_lowercase(s@));
    }
    let ghost lowered = out@;
    match string_from_utf8(out) {
        Ok(r) => r,
        Err(_) => {
            assert(valid_utf8(lowered));
            String::new()
        },
    }
}

/// The algorithm that a user names, in any ASCII case: `falcon512`,
/// `falcon-512` or `fn-dsa-512` for Falcon-512, `ed25519` or `eddsa` for
/// Ed25519; any other name is refused with its lower-case form.
pub open spec fn spec_parse_alg(name: Seq<char>) -> Result<AlgKind, Seq<char>> {
    let l = ascii_lowercase(name);
    if l == "falcon512"@ || l == "falcon-512"@ || l == "fn-dsa-512"@ {
        Ok(AlgKind::Falcon512)
    } else if l == "ed25519"@ || l == "eddsa"@ {
        Ok(AlgKind::Ed25519)
    } else {
        Err("unsupported signature algorithm: "@ + l)
    }
}

/// Lowering the ASCII case of a name that is already lower case changes nothing.
proof fn lemma_ascii_lowercase_idempotent(s: Seq<char>)
    ensures
        ascii_lowercase(ascii_lowercase(s)) == ascii_lowercase(s),
{
    assert forall|i: int| 0 <= i < s.len() implies ascii_lower(#[trigger] ascii_lower(s[i])) == ascii_lower(s[i]) by {
        let c = s[i];
        if 'A' <= c && c <= 'Z' {
            assert(ascii_lower(c) as u32 == c as u32 + 32);
        }
    }
    assert(ascii_lowercase(ascii_lowercase(s)) =~= ascii_lowercase(s));
}

/// Algorithm names are matched in any ASCII case: two names with the same
/// ASCII lower case choose the same algorithm (or are refused with the same
/// message), a name chooses what its lower case chooses, every ASCII-case
/// variant of `falcon512`, `falcon-512` and `fn-dsa-512` chooses Falcon-512,
/// and every variant of `ed25519` and `eddsa` chooses Ed25519.
pub proof fn law_alg_names_ignore_ascii_case(s: Seq<char>, t: Seq<char>)
    ensures
        ascii_lowercase(s) == ascii_lowercase(t) ==> spec_parse_alg(s) == spec_parse_alg(t),
        spec_parse_alg(s) == spec_parse_alg(ascii_lowercase(s)),
        (ascii_lowercase(s) == "falcon512"@ || ascii_lowercase(s) == "falcon-512"@ || ascii_lowercase(s)
            == "fn-dsa-512"@) ==> spec_parse_alg(s) == Ok::<AlgKind, Seq<char>>(AlgKind::Falcon512),
        (ascii_lowercase(s) == "ed25519"@ || ascii_lowercase(s) == "eddsa"@) ==> spec_parse_alg(s) == Ok::<
            AlgKind,
            Seq<char>,
        >(AlgKind::Ed25519),
        spec_parse_alg(s) matches Err(m) ==> m == "unsupported signature algorithm: "@ + ascii_lowercase(s),
{
    lemma_ascii_lowercase_idempotent(s);
    reveal_strlit("falcon512");
    reveal_strlit("falcon-512");
    reveal_strlit("fn-dsa-512");
    reveal_strlit("ed25519");
    reveal_strlit("eddsa");
    let l = ascii_lowercase(s);
    if l == "ed25519"@ || l == "eddsa"@ {
        assert(l[0] == 'e');
        assert("falcon512"@[0] == 'f' && "falcon-512"@[0] == 'f' && "fn-dsa-512"@[0] == 'f');
    }
}

/// The algorithm that a user names (Falcon-512 when none is named), or the
/// message that refuses the name.
pub fn parse_alg(alg: Option<&str>) -> (r: Result<AlgKind, String>)
    ensures
        match alg {
            None => r matches Ok(k) && k == AlgKind::Falcon512,
            Some(s) => match spec_parse_alg(s@) {
                Ok(k) => r matches Ok(x) && x == k,
                Err(m) => r matches Err(x) && x@ == m,
            },
        },
{
    let name = match alg {
        Some(s) => to_ascii_lowercase(s),
        None => String::from_str("falcon512"),
    };
    let n = name.as_str();
    if str_eq(n, "falcon512") || str_eq(n, "falcon-512") || str_eq(n, "fn-dsa-512") {
        Ok(AlgKind::Falcon512)
    } else if str_eq(n, "ed25519") || str_eq(n, "eddsa") {
        Ok(AlgKind::Ed25519)
    } else {
        Err(join("unsupported signature algorithm: ", n))
    }
}

/// A key that signs tokens.
pub enum SigningKey {
    Ed25519(Ed25519SigningKey),
    Falcon512 { keypair: Falcon512KeyPair, backend: SharedBackend },
}

/// A key that verifies token signatures.
pub enum VerifyingKey {
    Ed25519(Ed25519VerifyingKey),
    Falcon512 { public_key: Falcon512PublicKey, backend: SharedBackend },
}

/// A signature.
pub enum Signature {
    Ed25519(Ed25519Signature),
    Falcon512(Falcon512Signature),
}

impl SigningKey {
    pub open spec fn spec_alg(&self) -> AlgKind {
        match self {
            SigningKey::Ed25519(_) => AlgKind::Ed25519,
            SigningKey::Falcon512 { .. } => AlgKind::Falcon512,
        }
    }

    /// `vk` is the verifying key of this signing key: the public key that
    /// belongs to it, with the same backend.
    pub open spec fn verified_by(&self, vk: &VerifyingKey) -> bool {
        match (self, vk) {
            (SigningKey::Ed25519(k), VerifyingKey::Ed25519(v)) => v@ == ed25519_public_of(k@),
            (
                SigningKey::Falcon512 { keypair, backend },
                VerifyingKey::Falcon512 { public_key, backend: b },
            ) => public_key@ == keypair.public@ && *b == *backend,
            _ => false,
        }
    }

    /// This key can sign: an Ed25519 key always, a Falcon-512 key where its
    /// backend can sign with its private key.
    pub open spec fn can_sign(&self) -> bool {
        match self {
            SigningKey::Ed25519(_) => true,
            SigningKey::Falcon512 { keypair, backend } => backend.can_sign(keypair.private@),
        }
    }

    /// The public key of this key belongs to its private key: always for an
    /// Ed25519 key (the public key is computed from the secret), and for a
    /// Falcon-512 key pair where its backend says so.
    pub open spec fn pair_matches(&self) -> bool {
        match self {
            SigningKey::Ed25519(_) => true,
            SigningKey::Falcon512 { keypair, backend } => backend.key_pair(keypair.public@, keypair.private@),
        }
    }

    /// Whether the public key that belongs to this key accepts the bytes `sig`
    /// as a signature of `msg` of its algorithm.
    pub open spec fn accepts_bytes(&self, msg: Seq<u8>, sig: Seq<u8>) -> bool {
        match self {
            SigningKey::Ed25519(k) => ed25519_verify_check(ed25519_public_of(k@), msg, sig) is None,
            SigningKey::Falcon512 { keypair, backend } => backend.accepts(keypair.public@, msg, sig),
        }
    }

    /// Whether the public key that belongs to this key accepts `sig` as a signature of `msg`.
    pub open spec fn accepts(&self, msg: Seq<u8>, sig: &Signature) -> bool {
        self.spec_alg() == sig.spec_alg() && self.accepts_bytes(msg, sig.spec_bytes())
    }

    /// A verifying key of this key accepts exactly what this key's public key accepts.
    pub proof fn lemma_verified_by_accepts(&self, vk: &VerifyingKey, msg: Seq<u8>, sig: &Signature)
        requires
            self.verified_by(vk),
        ensures
            vk.accepts(msg, sig) == self.accepts(msg, sig),
    {
    }

    pub fn alg(&self) -> (r: AlgKind)
        ensures
            r == self.spec_alg(),
    {
        match self {
            SigningKey::Ed25519(_) => AlgKind::Ed25519,
            SigningKey::Falcon512 { .. } => AlgKind::Falcon512,
        }
    }

    /// A new random Ed25519 signing key.
    pub fn generate_ed25519() -> (r: Self)
        ensures
            r is Ed25519,
    {
        SigningKey::Ed25519(Ed25519SigningKey::generate())
    }

    /// A Falcon-512 signing key that signs with `backend`.
    pub fn falcon512_with(keypair: Falcon512KeyPair, backend: SharedBackend) -> (r: Self)
        ensures
            r == (SigningKey::Falcon512 { keypair, backend }),
    {
        SigningKey::Falcon512 { keypair, backend }
    }

    /// The verifying key of this signing key.
    pub fn verifying_key(&self) -> (r: VerifyingKey)
        ensures
            self.verified_by(&r),
            r.spec_alg() == self.spec_alg(),
            r is Ed25519 ==> r.spec_bytes().len() == 32,
            r is Ed25519 ==> r.spec_key_ok(),
    {
        match self {
            SigningKey::Ed25519(k) => VerifyingKey::Ed25519(k.verifying_key()),
            SigningKey::Falcon512 { keypair, backend } => VerifyingKey::Falcon512 {
                public_key: keypair.public.clone(),
                backend: share_backend(backend),
            },
        }
    }

    /// Sign `msg`. An Ed25519 key always succeeds, and its signature is
    /// accepted by the verifying key of this key; a Falcon-512 key signs
    /// with its backend.
    pub fn sign(&self, msg: &[u8]) -> (r: Result<Signature, Error>)
        requires
            self.can_sign(),
        ensures
            r matches Ok(s) ==> s.spec_alg() == self.spec_alg(),
            r matches Ok(s) ==> (self.pair_matches() ==> self.accepts(msg@, &s)),
            self is Ed25519 ==> (r matches Ok(s) && (s matches Signature::Ed25519(e)
                && e@ == ed25519_signature_of(self->Ed25519_0@, msg@))),
            self is Ed25519 ==> (r matches Ok(s) && self.accepts(msg@, &s)),
    {
        match self {
            SigningKey::Ed25519(k) => {
                let s = k.sign(msg)?;
                Ok(Signature::Ed25519(s))
            },
            SigningKey::Falcon512 { keypair, backend } => {
                let s = backend.sign(&keypair.private, msg)?;
                Ok(Signature::Falcon512(s))
            },
        }
    }
}

impl VerifyingKey {
    pub open spec fn spec_alg(&self) -> AlgKind {
        match self {
            VerifyingKey::Ed25519(_) => AlgKind::Ed25519,
            VerifyingKey::Falcon512 { .. } => AlgKind::Falcon512,
        }
    }

    /// The bytes of the public key.
    pub open spec fn spec_bytes(&self) -> Seq<u8> {
        match self {
            VerifyingKey::Ed25519(k) => k@,
            VerifyingKey::Falcon512 { public_key, .. } => public_key@,
        }
    }

    /// An Ed25519 key holds bytes that decode to a public key.
    pub open spec fn spec_key_ok(&self) -> bool {
        match self {
            VerifyingKey::Ed25519(k) => ed25519_key_check(k@) is None,
            VerifyingKey::Falcon512 { .. } => true,
        }
    }

    /// Whether this key accepts the bytes `sig` as a signature of `msg` of its algorithm.
    pub open spec fn accepts_bytes(&self, msg: Seq<u8>, sig: Seq<u8>) -> bool {
        match self {
            VerifyingKey::Ed25519(k) => ed25519_verify_check(k@, msg, sig) is None,
            VerifyingKey::Falcon512 { public_key, backend } => backend.accepts(public_key@, msg, sig),
        }
    }

    /// Whether this key accepts `sig` as a signature of `msg`.
    pub open spec fn accepts(&self, msg: Seq<u8>, sig: &Signature) -> bool {
        self.spec_alg() == sig.spec_alg() && self.accepts_bytes(msg, sig.spec_bytes())
    }

    /// Two keys are the same key: same algorithm, same public key bytes, same backend.
    pub open spec fn same_key(&self, other: &VerifyingKey) -> bool {
        match (self, other) {
            (VerifyingKey::Ed25519(a), VerifyingKey::Ed25519(b)) => a@ == b@,
            (
                VerifyingKey::Falcon512 { public_key: p, backend: b },
                VerifyingKey::Falcon512 { public_key: q, backend: c },
            ) => p@ == q@ && *b == *c,
            _ => false,
        }
    }

    /// Two keys that are the same key accept the same signatures.
    pub proof fn lemma_same_key_accepts(&self, other: &VerifyingKey, msg: Seq<u8>, sig: &Signature)
        requires
            self.same_key(other),
        ensures
            self.accepts(msg, sig) == other.accepts(msg, sig),
    {
    }

    pub fn alg(&self) -> (r: AlgKind)
        ensures
            r == self.spec_alg(),
    {
        match self {
            VerifyingKey::Ed25519(_) => AlgKind::Ed25519,
            VerifyingKey::Falcon512 { .. } => AlgKind::Falcon512,
        }
    }

    /// A Falcon-512 verifying key that verifies with `backend`.
    pub fn falcon512_with(public_key: Falcon512PublicKey, backend: SharedBackend) -> (r: Self)
        ensures
            r == (VerifyingKey::Falcon512 { public_key, backend }),
    {
        VerifyingKey::Falcon512 { public_key, backend }
    }

    /// Decode a verifying key of the algorithm `alg` from its bytes. A
    /// Falcon-512 key needs a backend, so it is refused here.
    pub fn from_bytes(alg: AlgKind, bytes: &[u8]) -> (r: Result<Self, Error>)
        ensures
            alg == AlgKind::Ed25519 ==> match r {
                Ok(k) => k is Ed25519 && k.spec_bytes() == bytes@ && bytes@.len() == 32 && k.spec_key_ok(),
                Err(e) => if bytes@.len() != 32 {
                    e@.0 == ErrorKind::Format
                } else {
                    e@.0 == ErrorKind::Auth && ed25519_key_check(bytes@) == Some(e@.1)
                },
            },
            alg == AlgKind::Ed25519 && bytes@.len() == 32 ==> (r is Ok <==> ed25519_key_check(bytes@) is None),
            alg == AlgKind::Falcon512 ==> (r matches Err(e) && e@ == (ErrorKind::Auth,
                "Falcon-512 verifying keys require a backend; use VerifyingKey::falcon512_with"@)),
    {
        match alg {
            AlgKind::Ed25519 => Ok(VerifyingKey::Ed25519(Ed25519VerifyingKey::from_bytes(bytes)?)),
            AlgKind::Falcon512 => Err(Error::auth(
                "Falcon-512 verifying keys require a backend; use VerifyingKey::falcon512_with",
            )),
        }
    }

    /// The bytes of the public key.
    pub fn to_bytes(&self) -> (r: Vec<u8>)
        ensures
            r@ == self.spec_bytes(),
            self is Ed25519 ==> r@.len() == 32,
            self is Falcon512 ==> r@.len() == 897,
    {
        match self {
            VerifyingKey::Ed25519(k) => {
                let a = k.to_bytes();
                vstd::slice::slice_to_vec(a.as_slice())
            },
            VerifyingKey::Falcon512 { public_key, .. } => vstd::slice::slice_to_vec(public_key.as_bytes()),
        }
    }

    /// Verify the signature `sig` of `msg`. A key and a signature of different
    /// algorithms never match.
    pub fn verify(&self, msg: &[u8], sig: &Signature) -> (r: Result<(), Error>)
        ensures
            r is Ok <==> self.accepts(msg@, sig),
            self.spec_alg() != sig.spec_alg() ==> (r matches Err(e) && e@ == (ErrorKind::Auth,
                "verifying key and signature algorithm mismatch"@)),
            (self is Ed25519 && sig is Ed25519) ==> (r matches Err(e) ==> e@.0 == ErrorKind::Auth
                && ed25519_verify_check(self.spec_bytes(), msg@, sig.spec_bytes()) == Some(e@.1)),
    {
        match (self, sig) {
            (VerifyingKey::Ed25519(k), Signature::Ed25519(s)) => k.verify(msg, s),
            (VerifyingKey::Falcon512 { public_key, backend }, Signature::Falcon512(s)) =>
                backend.verify(public_key, msg, s),
            _ => Err(Error::auth("verifying key and signature algorithm mismatch")),
        }
    }
}

impl Clone for VerifyingKey {
    fn clone(&self) -> (r: Self)
        ensures
            r.same_key(self),
            r.spec_bytes() == self.spec_bytes(),
            r.spec_alg() == self.spec_alg(),
            r.spec_key_ok() == self.spec_key_ok(),
            forall|msg: Seq<u8>, sig: Signature| r.accepts(msg, &sig) == self.accepts(msg, &sig),
    {
        match self {
            VerifyingKey::Ed25519(k) => VerifyingKey::Ed25519(k.clone()),
            VerifyingKey::Falcon512 { public_key, backend } => VerifyingKey::Falcon512 {
                public_key: public_key.clone(),
                backend: share_backend(backend),
            },
        }
    }
}

impl Signature {
    pub open spec fn spec_alg(&self) -> AlgKind {
        match self {
            Signature::Ed25519(_) => AlgKind::Ed25519,
            Signature::Falcon512(_) => AlgKind::Falcon512,
        }
    }

    /// The bytes of the signature.
    pub open spec fn spec_bytes(&self) -> Seq<u8> {
        match self {
            Signature::Ed25519(s) => s@,
            Signature::Falcon512(s) => s@,
        }
    }

    pub fn alg(&self) -> (r: AlgKind)
        ensures
            r == self.spec_alg(),
    {
        match self {
            Signature::Ed25519(_) => AlgKind::Ed25519,
            Signature::Falcon512(_) => AlgKind::Falcon512,
        }
    }

    /// The length that a signature of `alg` has.
    pub open spec fn spec_len(alg: AlgKind) -> nat {
        match alg {
            AlgKind::Ed25519 => 64,
            AlgKind::Falcon512 => 666,
        }
    }

    /// The message that refuses `n` bytes as a signature of `alg`.
    pub open spec fn spec_length_message(alg: AlgKind, n: nat) -> Seq<char> {
        match alg {
            AlgKind::Ed25519 => "Ed25519 signature must be 64 bytes, got "@ + decimal(n),
            AlgKind::Falcon512 => "Falcon-512 signature must be exactly 666 bytes (PADDED format), got "@ + decimal(n),
        }
    }

    /// A signature of the algorithm `alg` from its bytes; only the exact length of that algorithm is accepted.
    pub fn from_bytes(alg: AlgKind, bytes: &[u8]) -> (r: Result<Self, Error>)
        ensures
            bytes@.len() == Self::spec_len(alg) ==> (r matches Ok(s) && s.spec_alg() == alg && s.spec_bytes() == bytes@),
            bytes@.len() != Self::spec_len(alg) ==> (r matches Err(e) && e@ == (ErrorKind::Format,
                Self::spec_length_message(alg, bytes@.len()))),
    {
        match alg {
            AlgKind::Ed25519 => Ok(Signature::Ed25519(Ed25519Signature::from_bytes(bytes)?)),
            AlgKind::Falcon512 => Ok(Signature::Falcon512(Falcon512Signature::from_bytes(bytes)?)),
        }
    }

    /// The bytes of the signature.
    pub fn to_bytes(&self) -> (r: Vec<u8>)
        ensures
            r@ == self.spec_bytes(),
            r@.len() == Self::spec_len(self.spec_alg()),
    {
        match self {
            Signature::Ed25519(s) => {
                let a = s.to_bytes();
                vstd::slice::slice_to_vec(a.as_slice())
            },
            Signature::Falcon512(s) => vstd::slice::slice_to_vec(s.as_bytes()),
        }
    }
}

} // verus!
