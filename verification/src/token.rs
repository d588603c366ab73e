use vstd::prelude::*;
use vstd::utf8::encode_utf8;

use crate::b64::b64_decoding;
use crate::claims::{triple_cloned, Claims};
use crate::error::{Error, ErrorKind};
use crate::frame::{decode_part, find_dot, first_dot, find_dot_from, last_dot, rfind_dot};
use crate::sig::{AlgKind, Signature};
use crate::text::{join, str_eq};
use crate::time::TimeSpan;

verus! {

/// The text of each string that `o` may hold.
pub open spec fn opt_text(o: Option<String>) -> Option<Seq<char>> {
    match o {
        Some(s) => Some(s@),
        None => None,
    }
}

/// What `serde_json` reads of the JSON text `body` as a value: the string
/// held in its field `key` (none when the field is absent or not a string),
/// or the text of the parse error.
pub uninterp spec fn json_string_field(body: Seq<u8>, key: Seq<char>) -> Result<Option<Seq<char>>, Seq<char>>;

/// Read the string field `key` of the JSON text `body`.
///
/// Trusted: calls `serde_json::from_slice` into a `serde_json::Value`, reads
/// the field with `Value::get` and `Value::as_str`, and renders a
/// `serde_json::Error` with its `Display` impl; the outcome is claimed to be
/// `json_string_field` of the bytes and the key, a function of them alone.
#[verifier::external_body]
pub(crate) fn string_field(body: &[u8], key: &str) -> (r: Result<Option<String>, String>)
    ensures
        match r {
            Ok(o) => json_string_field(body@, key@) == Ok::<Option<Seq<char>>, Seq<char>>(opt_text(o)),
            Err(m) => json_string_field(body@, key@) == Err::<Option<Seq<char>>, Seq<char>>(m@),
        },
{
    match serde_json::from_slice::<serde_json::Value>(body) {
        Ok(v) => Ok(v.get(key).and_then(serde_json::Value::as_str).map(str::to_owned)),
        Err(e) => Err(e.to_string()),
    }
}

/// The header of a JWT.
#[derive(Clone, Debug, PartialEq, Eq)]
pub struct TokenHeader {
    pub alg: Option<String>,
    pub typ: String,
}

impl TokenHeader {
    /// The `alg` field as text.
    pub open spec fn spec_alg(&self) -> Option<Seq<char>> {
        match &self.alg {
            Some(a) => Some(a@),
            None => None,
        }
    }

    /// This is the header of a token signed with `alg`: it names the
    /// algorithm and the type `JWT`.
    pub open spec fn is_for(&self, alg: AlgKind) -> bool {
        self.spec_alg() == Some(alg.spec_jwt_name()) && self.typ@ == "JWT"@
    }

    /// The header of a token signed with `alg`.
    pub fn for_alg(alg: AlgKind) -> (r: Self)
        ensures
            r.is_for(alg),
    {
        TokenHeader { alg: Some(String::from_str(alg.jwt_name())), typ: String::from_str("JWT") }
    }
}

/// The JSON Web Token wire format.
#[derive(Clone, Debug, PartialEq, Eq)]
pub struct Token<H, A, C> {
    iss: H,
    iat: u64,
    exp: u64,
    actor_id: A,
    custom: C,
    inherit: Option<String>,
}

impl<H, A, C> Token<H, A, C> {
    pub closed spec fn spec_iss(self) -> H {
        self.iss
    }

    pub closed spec fn spec_iat(self) -> u64 {
        self.iat
    }

    pub closed spec fn spec_exp(self) -> u64 {
        self.exp
    }

    pub closed spec fn spec_actor_id(self) -> A {
        self.actor_id
    }

    pub closed spec fn spec_custom(self) -> C {
        self.custom
    }

    pub closed spec fn spec_inherit(self) -> Option<String> {
        self.inherit
    }

    /// Create a new (unsigned) token issued at `iat` that lives for `ttl`. It
    /// expires at the whole seconds of `iat + ttl`.
    pub fn new(iss: H, iat: TimeSpan, ttl: TimeSpan, actor_id: A, claims: C) -> (r: Self)
        requires
            iat.spec_sum_secs(ttl) <= u64::MAX,
        ensures
            r.spec_iss() == iss,
            r.spec_iat() == iat.spec_secs(),
            r.spec_exp() == iat.spec_sum_secs(ttl),
            r.spec_actor_id() == actor_id,
            r.spec_custom() == claims,
            r.spec_inherit() is None,
    {
        let iat_nanos = iat.subsec_nanos();
        let ttl_nanos = ttl.subsec_nanos();
        let carry: u64 = if iat_nanos as u64 + ttl_nanos as u64 >= 1_000_000_000 { 1 } else { 0 };
        let exp = iat.as_secs() + ttl.as_secs() + carry;
        Self { iss, iat: iat.as_secs(), exp, actor_id, custom: claims, inherit: None }
    }

    /// A token made of its parts: issuer, issue time and expiration time (in
    /// seconds since the Unix epoch), actor, custom claims and the inherited token.
    pub fn from_parts(iss: H, iat: u64, exp: u64, actor_id: A, custom: C, inherit: Option<String>) -> (r: Self)
        ensures
            r.spec_iss() == iss,
            r.spec_iat() == iat,
            r.spec_exp() == exp,
            r.spec_actor_id() == actor_id,
            r.spec_custom() == custom,
            r.spec_inherit() == inherit,
    {
        Self { iss, iat, exp, actor_id, custom, inherit }
    }

    /// The parts of this token, in the order of [`Token::from_parts`].
    pub fn into_parts(self) -> (r: (H, u64, u64, A, C, Option<String>))
        ensures
            r == (self.spec_iss(), self.spec_iat(), self.spec_exp(), self.spec_actor_id(), self.spec_custom(),
                self.spec_inherit()),
    {
        (self.iss, self.iat, self.exp, self.actor_id, self.custom, self.inherit)
    }

    /// Borrow the claimed issuer of this token.
    pub fn issuer(&self) -> (r: &H)
        ensures
            *r == self.spec_iss(),
    {
        &self.iss
    }

    /// Borrow the actor to whom this token claims to belong.
    pub fn actor_id(&self) -> (r: &A)
        ensures
            *r == self.spec_actor_id(),
    {
        &self.actor_id
    }

    /// The expiration time of this token, in seconds since the Unix epoch.
    pub fn exp(&self) -> (r: u64)
        ensures
            r == self.spec_exp(),
    {
        self.exp
    }

    /// The issue time of this token, in seconds since the Unix epoch.
    pub fn iat(&self) -> (r: u64)
        ensures
            r == self.spec_iat(),
    {
        self.iat
    }

    /// Borrow the custom claims of this token.
    pub fn custom(&self) -> (r: &C)
        ensures
            *r == self.spec_custom(),
    {
        &self.custom
    }

    /// Borrow the token that this one inherits, if any.
    pub fn inherit(&self) -> (r: &Option<String>)
        ensures
            *r == self.spec_inherit(),
    {
        &self.inherit
    }

    /// Whether this token is expired at `now`: before its issue time, or at or after its expiration time.
    pub open spec fn spec_is_expired(self, now: TimeSpan) -> bool {
        now.spec_secs() < self.spec_iat() || now.spec_secs() >= self.spec_exp()
    }

    /// Return `true` if this token is expired (or not yet issued) at the given moment.
    pub fn is_expired(&self, now: TimeSpan) -> (r: bool)
        ensures
            r == self.spec_is_expired(now),
    {
        now.as_secs() < self.iat || now.as_secs() >= self.exp
    }
}

impl<H: Clone, A: Clone, C: Clone> Token<H, A, C> {
    /// The token that `host_id` issues at `iat` to `actor_id` with `claims`,
    /// inheriting `parent` and its expiration time, with the chain of claims
    /// that it carries.
    pub fn consume(parent: SignedToken<H, A, C>, iat: TimeSpan, host_id: H, actor_id: A, claims: C) -> (r: Result<(Self, Claims<H, A, C>), Error>)
        ensures
            r matches Ok((t, c)) && {
                &&& cloned(host_id, t.spec_iss())
                &&& t.spec_iat() == iat.spec_secs()
                &&& t.spec_exp() == parent.spec_claims().spec_exp()
                &&& cloned(actor_id, t.spec_actor_id())
                &&& cloned(claims, t.spec_custom())
                &&& t.spec_inherit() matches Some(j) && j@ == parent.spec_jwt()
                &&& c.spec_exp() == parent.spec_claims().spec_exp()
                &&& c.chain() == seq![(host_id, actor_id, claims)] + parent.spec_claims().chain()
            },
    {
        let iat = iat.as_secs();
        let exp = parent.expires().as_secs();
        let SignedToken { claims: parent_claims, jwt } = parent;
        let token = Self {
            iss: host_id.clone(),
            iat,
            exp,
            actor_id: actor_id.clone(),
            custom: claims.clone(),
            inherit: Some(jwt),
        };
        let claims = parent_claims.consume(host_id, actor_id, claims)?;
        Ok((token, claims))
    }
}

/// The data of a JWT including its (inherited) claims and encoded, signed representation.
#[derive(Debug, PartialEq, Eq)]
pub struct SignedToken<H, A, C> {
    claims: Claims<H, A, C>,
    jwt: String,
}

impl<H, A, C> SignedToken<H, A, C> {
    pub closed spec fn spec_claims(self) -> Claims<H, A, C> {
        self.claims
    }

    pub closed spec fn spec_jwt(self) -> Seq<char> {
        self.jwt@
    }

    pub(crate) fn new(data: Claims<H, A, C>, jwt: String) -> (r: Self)
        ensures
            r.spec_claims() == data,
            r.spec_jwt() == jwt@,
    {
        Self { claims: data, jwt }
    }

    /// Borrow the [`Claims`] of this [`SignedToken`].
    pub fn claims(&self) -> (r: &Claims<H, A, C>)
        ensures
            *r == self.spec_claims(),
    {
        &self.claims
    }

    /// The expiration time of this [`SignedToken`].
    pub fn expires(&self) -> (r: TimeSpan)
        ensures
            r.spec_secs() == self.spec_claims().spec_exp(),
            r.spec_nanos() == 0,
    {
        self.claims.expires()
    }

    /// Borrow the signed, encoded representation of this token.
    pub fn jwt(&self) -> (r: &str)
        ensures
            r@ == self.spec_jwt(),
    {
        self.jwt.as_str()
    }

    /// Destructure this [`SignedToken`] into its encoded representation.
    pub fn into_jwt(self) -> (r: String)
        ensures
            r@ == self.spec_jwt(),
    {
        self.jwt
    }
}

impl<H: Clone, A: Clone, C: Clone> Clone for SignedToken<H, A, C> {
    fn clone(&self) -> (r: Self)
        ensures
            r.spec_jwt() == self.spec_jwt(),
            r.spec_claims().spec_exp() == self.spec_claims().spec_exp(),
            r.spec_claims().chain().len() == self.spec_claims().chain().len(),
            forall|i: int| 0 <= i < r.spec_claims().chain().len() ==> triple_cloned(
                self.spec_claims().chain()[i],
                #[trigger] r.spec_claims().chain()[i],
            ),
    {
        SignedToken { claims: self.claims.clone(), jwt: self.jwt.clone() }
    }
}

/// What decoding the first part of the token `encoded` gives: the index of
/// the first `.` and the bytes that the base64 before it decodes to.
pub open spec fn spec_header_part(encoded: Seq<char>) -> Result<(int, Seq<u8>), (ErrorKind, Seq<char>)> {
    let bytes = encode_utf8(encoded);
    match first_dot(bytes) {
        None => Err((ErrorKind::Format, "invalid token: "@ + encoded)),
        Some(i) => match b64_decoding(bytes.subrange(0, i)) {
            Ok(h) => Ok((i, h)),
            Err(t) => Err((ErrorKind::Base64, t)),
        },
    }
}

/// What checking the header of the token `encoded` (whose first `.` is at
/// `dot`) and decoding its second part gives: the algorithm of the header
/// and the bytes that the base64 between the first two `.` decodes to.
pub open spec fn spec_body_part(encoded: Seq<char>, dot: int, alg: Option<Seq<char>>, typ: Seq<char>) -> Result<(AlgKind, Seq<u8>), (ErrorKind, Seq<char>)> {
    let bytes = encode_utf8(encoded);
    if typ != "JWT"@ {
        Err((ErrorKind::Format, "unsupported token type: "@ + typ))
    } else {
        match alg {
            None => Err((ErrorKind::Format, "missing alg field in token header"@)),
            Some(name) => match AlgKind::spec_from_jwt_name(name) {
                None => Err((ErrorKind::Format, "unsupported alg: "@ + name)),
                Some(k) => match find_dot_from(bytes, dot + 1) {
                    None => Err((ErrorKind::Format, "invalid token: "@ + encoded)),
                    Some(j) => match b64_decoding(bytes.subrange(dot + 1, j)) {
                        Ok(b) => Ok((k, b)),
                        Err(t) => Err((ErrorKind::Base64, t)),
                    },
                },
            },
        }
    }
}

/// What splitting the token `encoded` at its last `.` gives for the
/// algorithm `alg`: the signed message and the bytes of the signature.
pub open spec fn spec_token_signature(encoded: Seq<char>, alg: AlgKind) -> Result<(Seq<u8>, Seq<u8>), (ErrorKind, Seq<char>)> {
    let bytes = encode_utf8(encoded);
    if bytes.len() > 0 && bytes.last() == crate::frame::dot() {
        Err((ErrorKind::Format, "encoded token cannot end with ."@))
    } else {
        match last_dot(bytes) {
            None => Err((ErrorKind::Format, "invalid token: "@ + encoded)),
            Some(i) => match b64_decoding(bytes.subrange(i + 1, bytes.len() as int)) {
                Err(t) => Err((ErrorKind::Base64, t)),
                Ok(sig) => if sig.len() == Signature::spec_len(alg) {
                    Ok((bytes.subrange(0, i), sig))
                } else {
                    Err((ErrorKind::Format, Signature::spec_length_message(alg, sig.len())))
                },
            },
        }
    }
}

/// Decode the first part of the token `encoded`: the index of the first `.`
/// and the bytes of the header JSON.
pub fn decode_header_part(encoded: &str) -> (r: Result<(usize, Vec<u8>), Error>)
    ensures
        match r {
            Ok((i, h)) => spec_header_part(encoded@) == Ok::<(int, Seq<u8>), (ErrorKind, Seq<char>)>((i as int, h@)),
            Err(e) => spec_header_part(encoded@) == Err::<(int, Seq<u8>), (ErrorKind, Seq<char>)>(e@),
        },
{
    let bytes = encoded.as_bytes();
    let i = match find_dot(bytes, 0) {
        Some(i) => i,
        None => return Err(Error::Format(join("invalid token: ", encoded))),
    };
    match decode_part(&bytes[0..i]) {
        Ok(h) => Ok((i, h)),
        Err(t) => Err(Error::Base64(t)),
    }
}

/// Check the header `header` of the token `encoded`, whose first `.` is at
/// `dot`, and decode the second part: the algorithm and the bytes of the body JSON.
pub fn decode_body_part(encoded: &str, dot: usize, header: &TokenHeader) -> (r: Result<(AlgKind, Vec<u8>), Error>)
    requires
        first_dot(encode_utf8(encoded@)) == Some(dot as int),
    ensures
        match r {
            Ok((k, b)) => spec_body_part(encoded@, dot as int, header.spec_alg(), header.typ@)
                == Ok::<(AlgKind, Seq<u8>), (ErrorKind, Seq<char>)>((k, b@)),
            Err(e) => spec_body_part(encoded@, dot as int, header.spec_alg(), header.typ@)
                == Err::<(AlgKind, Seq<u8>), (ErrorKind, Seq<char>)>(e@),
        },
{
    if !str_eq(header.typ.as_str(), "JWT") {
        return Err(Error::Format(join("unsupported token type: ", header.typ.as_str())));
    }
    let alg_name = match &header.alg {
        Some(a) => a,
        None => return Err(Error::format("missing alg field in token header")),
    };
    let alg = AlgKind::from_jwt_name(alg_name.as_str())?;
    let bytes = encoded.as_bytes();
    let n = bytes.len();
    proof {
        crate::frame::lemma_find_dot_range(bytes@, 0);
    }
    assert(dot < n);
    let j = match find_dot(bytes, dot + 1) {
        Some(j) => j,
        None => return Err(Error::Format(join("invalid token: ", encoded))),
    };
    match decode_part(&bytes[dot + 1..j]) {
        Ok(b) => Ok((alg, b)),
        Err(t) => Err(Error::Base64(t)),
    }
}

/// Split the token `encoded` at its last `.`: the signed message and the
/// signature of the algorithm `alg`.
pub fn token_signature(encoded: &str, alg: AlgKind) -> (r: Result<(Vec<u8>, Signature), Error>)
    ensures
        match r {
            Ok((m, s)) => s.spec_alg() == alg && spec_token_signature(encoded@, alg)
                == Ok::<(Seq<u8>, Seq<u8>), (ErrorKind, Seq<char>)>((m@, s.spec_bytes())),
            Err(e) => spec_token_signature(encoded@, alg) == Err::<(Seq<u8>, Seq<u8>), (ErrorKind, Seq<char>)>(e@),
        },
{
    let bytes = encoded.as_bytes();
    if bytes.len() > 0 && bytes[bytes.len() - 1] == 46u8 {
        return Err(Error::format("encoded token cannot end with ."));
    }
    let i = match rfind_dot(bytes) {
        Some(i) => i,
        None => return Err(Error::Format(join("invalid token: ", encoded))),
    };
    let message = vstd::slice::slice_to_vec(&bytes[0..i]);
    let signature_bytes = match decode_part(&bytes[i + 1..bytes.len()]) {
        Ok(s) => s,
        Err(t) => return Err(Error::Base64(t)),
    };
    let signature = Signature::from_bytes(alg, signature_bytes.as_slice())?;
    Ok((message, signature))
}

} // verus!
