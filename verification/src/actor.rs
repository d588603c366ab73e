use vstd::prelude::*;
use vstd::utf8::encode_utf8;

use crate::b64::b64_encoding;
use crate::claims::Claims;
use crate::ed25519::ed25519_signature_of;
use crate::error::{Error, ErrorKind};
use crate::falcon512::{
    falcon_key_signs, falcon_public_of, falcon_verify_code, rjwt_domain_message, Falcon512Backend,
    FalconRsBackend, SharedBackend,
};
use crate::frame::{
    dot, encode_message, encode_token, lemma_find_dot_extend, spec_jwt_bytes, spec_message,
};
use crate::sig::{law_jwt_name_roundtrip, AlgKind, Signature, SigningKey, VerifyingKey};
use crate::time::TimeSpan;
use crate::token::{
    spec_body_part, spec_header_part, spec_token_signature, SignedToken, Token, TokenHeader,
};

verus! {

enum Key {
    Public(VerifyingKey),
    Private(SigningKey),
}

impl Key {
    fn has_private_key(&self) -> (r: bool)
        ensures
            r == (self is Private),
    {
        match self {
            Key::Public(_) => false,
            Key::Private(_) => true,
        }
    }
}

/// The token text `jwt` is the base64 of the header JSON `header`, of the
/// body JSON `body` and of the signature bytes `sig`, joined by `.`.
pub open spec fn is_jwt_of(jwt: Seq<char>, header: Seq<u8>, body: Seq<u8>, sig: Seq<u8>) -> bool {
    encode_utf8(jwt) == spec_jwt_bytes(header, body, sig)
}

/// Decoding the token text `jwt` gives back what it was made of: the header
/// JSON `header`, then, with a header of `alg`, the algorithm and the body
/// JSON `body`, and the signed message with the signature bytes `sig`.
pub open spec fn reads_back(jwt: Seq<char>, alg: AlgKind, header: Seq<u8>, body: Seq<u8>, sig: Seq<u8>) -> bool {
    let hl = b64_encoding(header).len() as int;
    &&& spec_header_part(jwt) == Ok::<(int, Seq<u8>), (ErrorKind, Seq<char>)>((hl, header))
    &&& spec_body_part(jwt, hl, Some(alg.spec_jwt_name()), "JWT"@) == Ok::<
        (AlgKind, Seq<u8>),
        (ErrorKind, Seq<char>),
    >((alg, body))
    &&& spec_token_signature(jwt, alg) == Ok::<(Seq<u8>, Seq<u8>), (ErrorKind, Seq<char>)>(
        (spec_message(header, body), sig),
    )
}

/// `jwt` is a token text that `sk` signed for the header JSON `header` and
/// the body JSON `body` with the signature bytes `sig`: made of them, which
/// decode back; the public key of `sk` accepts the signature of the message
/// (for a Falcon-512 key pair whose keys belong together), and an Ed25519
/// signature is the one of its secret.
pub open spec fn signed_by(sk: SigningKey, jwt: Seq<char>, header: Seq<u8>, body: Seq<u8>, sig: Seq<u8>) -> bool {
    let msg = spec_message(header, body);
    &&& is_jwt_of(jwt, header, body, sig)
    &&& reads_back(jwt, sk.spec_alg(), header, body, sig)
    &&& sig.len() == Signature::spec_len(sk.spec_alg())
    &&& (sk.pair_matches() ==> sk.accepts_bytes(msg, sig))
    &&& (sk matches SigningKey::Ed25519(k) ==> sig == ed25519_signature_of(k@, msg))
}

/// `f` may turn `x` into the JSON `json`.
pub open spec fn json_gives<T, F: Fn(&T) -> Result<Vec<u8>, String>>(f: F, x: T, json: Vec<u8>) -> bool {
    f.ensures((&x,), Ok::<Vec<u8>, String>(json))
}

/// `e` is the JSON error of a message that `f` may give for `x`.
pub open spec fn json_refused<T, F: Fn(&T) -> Result<Vec<u8>, String>>(f: F, x: T, e: Error) -> bool {
    exists|m: String| #[trigger] f.ensures((&x,), Err::<Vec<u8>, String>(m)) && e@ == (ErrorKind::Json, m@)
}

/// `header_json` may turn a header of a token signed with `alg` into the JSON `json`.
pub open spec fn header_json_gives<G: Fn(&TokenHeader) -> Result<Vec<u8>, String>>(
    header_json: G,
    alg: AlgKind,
    json: Vec<u8>,
) -> bool {
    exists|h: TokenHeader| #[trigger] h.is_for(alg) && json_gives(header_json, h, json)
}

/// `e` is the JSON error that `header_json` may give for a header of a token signed with `alg`.
pub open spec fn header_json_refused<G: Fn(&TokenHeader) -> Result<Vec<u8>, String>>(
    header_json: G,
    alg: AlgKind,
    e: Error,
) -> bool {
    exists|h: TokenHeader| #[trigger] h.is_for(alg) && json_refused(header_json, h, e)
}

/// `jwt` is what `sk` signed for JSON that `header_json` may give for the
/// header of its algorithm and that `to_json` may give for `token`.
pub open spec fn signs_json<
    H,
    A,
    C,
    G: Fn(&TokenHeader) -> Result<Vec<u8>, String>,
    F: Fn(&Token<H, A, C>) -> Result<Vec<u8>, String>,
>(sk: SigningKey, jwt: Seq<char>, header_json: G, to_json: F, token: Token<H, A, C>) -> bool {
    exists|header: Vec<u8>, body: Vec<u8>, sig: Seq<u8>|
        #![trigger signed_by(sk, jwt, header@, body@, sig)]
        header_json_gives(header_json, sk.spec_alg(), header) && json_gives(to_json, token, body) && signed_by(
            sk,
            jwt,
            header@,
            body@,
            sig,
        )
}

/// `header_json` may give the JSON of a header of a token signed with `alg`,
/// and `to_json` the JSON of `token`: both conversions succeed.
pub open spec fn json_given<
    H,
    A,
    C,
    G: Fn(&TokenHeader) -> Result<Vec<u8>, String>,
    F: Fn(&Token<H, A, C>) -> Result<Vec<u8>, String>,
>(alg: AlgKind, header_json: G, to_json: F, token: Token<H, A, C>) -> bool {
    exists|header: Vec<u8>, body: Vec<u8>|
        #![trigger header_json_gives(header_json, alg, header), json_gives(to_json, token, body)]
        header_json_gives(header_json, alg, header) && json_gives(to_json, token, body)
}

/// `e` is a JSON error that `header_json` may give for the header of a token
/// signed with `alg`, or that `to_json` may give for `token`.
pub open spec fn signing_json_refused<
    H,
    A,
    C,
    G: Fn(&TokenHeader) -> Result<Vec<u8>, String>,
    F: Fn(&Token<H, A, C>) -> Result<Vec<u8>, String>,
>(alg: AlgKind, header_json: G, to_json: F, token: Token<H, A, C>, e: Error) -> bool {
    header_json_refused(header_json, alg, e) || json_refused(to_json, token, e)
}

/// `t` inherits `parent`: issued at `iat`, expiring with `parent`, with the
/// text of `parent` as the token it inherits.
pub open spec fn inherits<H, A, C>(t: Token<H, A, C>, parent: SignedToken<H, A, C>, iat: TimeSpan) -> bool {
    &&& t.spec_iat() == iat.spec_secs()
    &&& t.spec_exp() == parent.spec_claims().spec_exp()
    &&& t.spec_inherit() matches Some(j) && j@ == parent.spec_jwt()
}

/// `t` is the token that consumes `parent` at `iat` for the claim `x`: it
/// inherits `parent` and holds clones of the host, actor and claims of `x`.
pub open spec fn consumes<H: Clone, A: Clone, C: Clone>(
    t: Token<H, A, C>,
    parent: SignedToken<H, A, C>,
    iat: TimeSpan,
    x: (H, A, C),
) -> bool {
    &&& inherits(t, parent, iat)
    &&& cloned(x.0, t.spec_iss())
    &&& cloned(x.1, t.spec_actor_id())
    &&& cloned(x.2, t.spec_custom())
}

/// A token that an actor signed passes the signature check of its
/// verification: its text splits into the message it signed and its
/// signature, which the signer accepts (for a Falcon-512 key, one whose keys
/// belong together), and so does any actor that accepts what the signer
/// accepts (such as a clone of the signer).
pub proof fn law_signed_token_accepted<A>(
    signer: Actor<A>,
    resolved: Actor<A>,
    jwt: Seq<char>,
    header: Seq<u8>,
    body: Seq<u8>,
    sig: Seq<u8>,
    s: Signature,
)
    requires
        signer.spec_signing_key() matches Some(sk) && sk.pair_matches() && signed_by(sk, jwt, header, body, sig),
        forall|m: Seq<u8>, x: Signature| #[trigger] resolved.accepts(m, &x) == signer.accepts(m, &x),
        s.spec_alg() == signer.spec_alg(),
        s.spec_bytes() == sig,
    ensures
        spec_token_signature(jwt, signer.spec_alg()) == Ok::<(Seq<u8>, Seq<u8>), (ErrorKind, Seq<char>)>(
            (spec_message(header, body), sig),
        ),
        resolved.accepts(spec_message(header, body), &s),
{
    assert(signer.accepts(spec_message(header, body), &s));
}

/// An actor with an identifier of type `A` and a key used to sign tokens.
///
/// A clone of an actor holds only its verifying key: the signing key is never cloned.
pub struct Actor<A> {
    id: A,
    key: Key,
}

/// A handle on the default Falcon-512 backend, built on `falcon-rs`: it
/// accepts what `falcon-rs` verification of PADDED signatures over the
/// message with the rjwt context accepts, its key pairs are those whose
/// public key `falcon-rs` computes from the private key, and it signs where
/// `falcon-rs` signing returns.
pub fn default_falcon_backend() -> (r: SharedBackend)
    ensures
        r == SharedBackend::FalconRs(FalconRsBackend),
        forall|pk: Seq<u8>, msg: Seq<u8>, sig: Seq<u8>| #[trigger] r.accepts(pk, msg, sig) == (falcon_verify_code(
            sig,
            2,
            pk,
            rjwt_domain_message(msg),
        ) == 0),
        forall|pk: Seq<u8>, sk: Seq<u8>| #[trigger] r.key_pair(pk, sk) == (falcon_public_of(sk) == Some(pk)),
        forall|sk: Seq<u8>| #[trigger] r.can_sign(sk) == falcon_key_signs(sk),
{
    SharedBackend::FalconRs(FalconRsBackend)
}

impl<A> Actor<A> {
    /// The identifier of this actor.
    pub closed spec fn spec_id(self) -> A {
        self.id
    }

    /// The signing key of this actor, if it has one.
    pub closed spec fn spec_signing_key(self) -> Option<SigningKey> {
        match self.key {
            Key::Private(sk) => Some(sk),
            Key::Public(_) => None,
        }
    }

    /// The verifying key that this actor was given, if it has no signing key.
    pub closed spec fn spec_public_key(self) -> Option<VerifyingKey> {
        match self.key {
            Key::Public(vk) => Some(vk),
            Key::Private(_) => None,
        }
    }

    /// The algorithm of the key of this actor.
    pub closed spec fn spec_alg(self) -> AlgKind {
        match self.key {
            Key::Public(vk) => vk.spec_alg(),
            Key::Private(sk) => sk.spec_alg(),
        }
    }

    /// This actor can sign: it has no signing key (and refuses to sign), or
    /// its signing key can sign.
    pub open spec fn can_sign(self) -> bool {
        match self.spec_signing_key() {
            Some(sk) => sk.can_sign(),
            None => true,
        }
    }

    /// `vk` is the verifying key of this actor: the key of its signing key,
    /// or the same key as the verifying key it was given; it has the algorithm
    /// of this actor and accepts what this actor accepts.
    pub open spec fn gives_verifying_key(self, vk: VerifyingKey) -> bool {
        &&& vk.spec_alg() == self.spec_alg()
        &&& forall|msg: Seq<u8>, sig: Signature| #[trigger] vk.accepts(msg, &sig) == self.accepts(msg, &sig)
        &&& match self.spec_signing_key() {
            Some(sk) => sk.verified_by(&vk),
            None => self.spec_public_key() matches Some(v) && vk.same_key(&v),
        }
    }

    /// Whether the key of this actor accepts `sig` as a signature of `msg`.
    pub closed spec fn accepts(self, msg: Seq<u8>, sig: &Signature) -> bool {
        match self.key {
            Key::Public(vk) => vk.accepts(msg, sig),
            Key::Private(sk) => sk.accepts(msg, sig),
        }
    }

    /// Return an `Actor` with a newly-generated Ed25519 key.
    pub fn new(id: A) -> (r: Self)
        ensures
            r.spec_id() == id,
            r.spec_signing_key() matches Some(sk) && sk is Ed25519,
            r.can_sign(),
    {
        Self { id, key: Key::Private(SigningKey::generate_ed25519()) }
    }

    /// Return an `Actor` with a newly-generated Falcon-512 key pair made and used by `backend`.
    pub fn new_falcon512_with(id: A, backend: SharedBackend) -> (r: Result<Self, Error>)
        ensures
            r matches Ok(a) ==> a.spec_id() == id && (a.spec_signing_key() matches Some(
                SigningKey::Falcon512 { backend: b, .. },
            ) && b == backend) && a.can_sign() && a.spec_signing_key()->0.pair_matches(),
            backend is FalconRs ==> (r matches Err(e) ==> exists|m: Seq<char>| e@ == (
                ErrorKind::Auth,
                #[trigger] ("falcon-rs: "@ + m),
            )),
    {
        let keypair = backend.generate()?;
        Ok(Self { id, key: Key::Private(SigningKey::falcon512_with(keypair, backend)) })
    }

    /// Return an `Actor` with a newly-generated Falcon-512 key pair, using the
    /// default `falcon-rs` backend.
    pub fn new_falcon512(id: A) -> (r: Result<Self, Error>)
        ensures
            r matches Ok(a) ==> a.spec_id() == id && (a.spec_signing_key() matches Some(
                SigningKey::Falcon512 { backend: b, .. },
            ) && b == SharedBackend::FalconRs(FalconRsBackend)) && a.can_sign()
                && a.spec_signing_key()->0.pair_matches(),
            r matches Ok(a) ==> (a.spec_signing_key() matches Some(SigningKey::Falcon512 { keypair, .. })
                && falcon_public_of(keypair.private@) == Some(keypair.public@) && falcon_key_signs(
                keypair.private@,
            ) && forall|msg: Seq<u8>, sig: Seq<u8>| #[trigger]
                a.spec_signing_key()->0.accepts_bytes(msg, sig) == (falcon_verify_code(
                    sig,
                    2,
                    keypair.public@,
                    rjwt_domain_message(msg),
                ) == 0)),
            r matches Err(e) ==> exists|m: Seq<char>| e@ == (ErrorKind::Auth, #[trigger] ("falcon-rs: "@ + m)),
    {
        Self::new_falcon512_with(id, default_falcon_backend())
    }

    /// Return an `Actor` with the given signing key.
    pub fn with_signing_key(id: A, sk: SigningKey) -> (r: Self)
        ensures
            r.spec_id() == id,
            r.spec_signing_key() == Some(sk),
    {
        Self { id, key: Key::Private(sk) }
    }

    /// Return an `Actor` with the given verifying key (public only, cannot sign).
    pub fn with_verifying_key(id: A, vk: VerifyingKey) -> (r: Self)
        ensures
            r.spec_id() == id,
            r.spec_signing_key() is None,
            r.spec_public_key() == Some(vk),
    {
        Self { id, key: Key::Public(vk) }
    }

    /// Borrow the identifier of this actor.
    pub fn id(&self) -> (r: &A)
        ensures
            *r == self.spec_id(),
    {
        &self.id
    }

    /// Return `true` if this [`Actor`] has a private key which can be used to sign [`Token`]s.
    pub fn has_private_key(&self) -> (r: bool)
        ensures
            r == self.spec_signing_key() is Some,
    {
        self.key.has_private_key()
    }

    /// Return the verifying key of this actor, which a client can use to verify a signature.
    pub fn verifying_key(&self) -> (r: VerifyingKey)
        ensures
            self.gives_verifying_key(r),
    {
        match &self.key {
            Key::Public(vk) => vk.clone(),
            Key::Private(sk) => {
                let r = sk.verifying_key();
                proof {
                    assert forall|msg: Seq<u8>, sig: Signature| r.accepts(msg, &sig) == self.accepts(
                        msg,
                        &sig,
                    ) by {
                        sk.lemma_verified_by_accepts(&r, msg, &sig);
                    }
                }
                r
            },
        }
    }

    /// Sign the JSON that `header_json` gives for the header of the key's
    /// algorithm and that `to_json` gives for `token`: the token text and,
    /// for the proof, the header JSON, the body JSON and the signature bytes.
    fn sign_token_inner<
        H,
        C,
        G: Fn(&TokenHeader) -> Result<Vec<u8>, String>,
        F: Fn(&Token<H, A, C>) -> Result<Vec<u8>, String>,
    >(&self, token: &Token<H, A, C>, header_json: G, to_json: F) -> (r: Result<
        (String, Ghost<Vec<u8>>, Ghost<Vec<u8>>, Ghost<Seq<u8>>),
        Error,
    >)
        requires
            self.can_sign(),
            forall|h: TokenHeader| #[trigger] header_json.requires((&h,)),
            to_json.requires((token,)),
        ensures
            match self.spec_signing_key() {
                None => r matches Err(e) && e@ == (ErrorKind::Auth,
                    "cannot sign a token without a private key"@),
                Some(sk) => match r {
                    Ok((jwt, header, body, sig)) => header_json_gives(header_json, sk.spec_alg(), header@)
                        && json_gives(to_json, *token, body@) && signed_by(sk, jwt@, header@@, body@@, sig@),
                    Err(e) => signing_json_refused(sk.spec_alg(), header_json, to_json, *token, e) || (
                    sk is Falcon512 && json_given(sk.spec_alg(), header_json, to_json, *token)),
                },
            },
    {
        let sk = match &self.key {
            Key::Private(sk) => sk,
            Key::Public(_) => return Err(Error::auth("cannot sign a token without a private key")),
        };
        let alg = sk.alg();
        let header = TokenHeader::for_alg(alg);
        let header_bytes = match header_json(&header) {
            Ok(b) => b,
            Err(m) => {
                assert(json_refused(header_json, header, Error::Json(m)));
                return Err(Error::Json(m));
            },
        };
        let body = match to_json(token) {
            Ok(b) => b,
            Err(m) => {
                assert(to_json.ensures((token,), Err::<Vec<u8>, String>(m)));
                return Err(Error::Json(m));
            },
        };
        let message = encode_message(header_bytes.as_slice(), body.as_slice());
        proof {
            assert(header.is_for(alg));
            assert(json_gives(header_json, header, header_bytes));
            assert(header_json_gives(header_json, alg, header_bytes));
            assert(json_gives(to_json, *token, body));
        }
        let signature = match sk.sign(message.as_slice()) {
            Ok(s) => s,
            Err(e) => return Err(e),
        };
        let sig = signature.to_bytes();
        let jwt = encode_token(message.as_slice(), sig.as_slice());
        proof {
            assert(header.is_for(alg));
            assert(json_gives(header_json, header, header_bytes));
            lemma_token_reads_back(jwt@, alg, header_bytes@, body@, message@, sig@);
        }
        Ok((jwt, Ghost(header_bytes), Ghost(body), Ghost(sig@)))
    }

    /// Encode and sign the given `token` data, with the JSON that
    /// `header_json` gives for its header and that `to_json` gives for the token.
    ///
    /// An actor without a signing key cannot sign. An Ed25519 key signs
    /// whatever JSON it is given; a Falcon-512 key signs with its backend,
    /// which may refuse.
    pub fn sign_token<
        H,
        C,
        G: Fn(&TokenHeader) -> Result<Vec<u8>, String>,
        F: Fn(&Token<H, A, C>) -> Result<Vec<u8>, String>,
    >(&self, token: Token<H, A, C>, header_json: G, to_json: F) -> (r: Result<SignedToken<H, A, C>, Error>)
        requires
            self.can_sign(),
            forall|h: TokenHeader| #[trigger] header_json.requires((&h,)),
            to_json.requires((&token,)),
        ensures
            match self.spec_signing_key() {
                None => r matches Err(e) && e@ == (ErrorKind::Auth,
                    "cannot sign a token without a private key"@),
                Some(sk) => match r {
                    Ok(st) => {
                        &&& st.spec_claims().chain() == seq![(token.spec_iss(), token.spec_actor_id(), token.spec_custom())]
                        &&& st.spec_claims().spec_exp() == token.spec_exp()
                        &&& signs_json(sk, st.spec_jwt(), header_json, to_json, token)
                    },
                    Err(e) => signing_json_refused(sk.spec_alg(), header_json, to_json, token, e) || (
                    sk is Falcon512 && json_given(sk.spec_alg(), header_json, to_json, token)),
                },
            },
    {
        let (jwt, Ghost(header), Ghost(body), Ghost(sig)) = self.sign_token_inner(&token, header_json, to_json)?;
        let (iss, _iat, exp, actor_id, custom, _inherit) = token.into_parts();
        let claims = Claims::new(exp, iss, actor_id, custom);
        let r = SignedToken::new(claims, jwt);
        proof {
            let sk = self.spec_signing_key()->0;
            assert(signed_by(sk, r.spec_jwt(), header@, body@, sig));
        }
        Ok(r)
    }
}

impl<A: Clone> Actor<A> {
    /// Encode and sign a new token which inherits the claims of the given
    /// `token` and includes the new `claims` made by this actor on `host_id`
    /// at `now`; `header_json` and `to_json` give the JSON of its header and of
    /// the new token.
    pub fn consume_and_sign<
        H: Clone,
        C: Clone,
        G: Fn(&TokenHeader) -> Result<Vec<u8>, String>,
        F: Fn(&Token<H, A, C>) -> Result<Vec<u8>, String>,
    >(
        &self,
        token: SignedToken<H, A, C>,
        host_id: H,
        claims: C,
        now: TimeSpan,
        header_json: G,
        to_json: F,
    ) -> (r: Result<SignedToken<H, A, C>, Error>)
        requires
            self.can_sign(),
            forall|h: TokenHeader| #[trigger] header_json.requires((&h,)),
            forall|t: Token<H, A, C>| #[trigger] to_json.requires((&t,)),
        ensures
            match self.spec_signing_key() {
                None => r matches Err(e) && e@ == (ErrorKind::Auth,
                    "cannot sign a token without a private key"@),
                Some(sk) => match r {
                    Ok(st) => {
                        let x = st.spec_claims().chain()[0];
                        &&& st.spec_claims().spec_exp() == token.spec_claims().spec_exp()
                        &&& st.spec_claims().chain() == seq![x] + token.spec_claims().chain()
                        &&& cloned(host_id, x.0)
                        &&& cloned(self.spec_id(), x.1)
                        &&& x.2 == claims
                        &&& exists|t: Token<H, A, C>| #[trigger]
                            consumes(t, token, now, x) && signs_json(sk, st.spec_jwt(), header_json, to_json, t)
                    },
                    Err(e) => exists|t: Token<H, A, C>| #[trigger] inherits(t, token, now) && (
                    signing_json_refused(sk.spec_alg(), header_json, to_json, t, e) || (sk is Falcon512
                        && json_given(sk.spec_alg(), header_json, to_json, t))),
                },
            },
    {
        let ghost parent = token;
        let (t, chain) = match Token::consume(token, now, host_id.clone(), self.id.clone(), claims) {
            Ok(x) => x,
            Err(e) => return Err(e),
        };
        proof {
            assert(inherits(t, parent, now));
        }
        let (jwt, Ghost(header), Ghost(body), Ghost(sig)) = self.sign_token_inner(&t, header_json, to_json)?;
        let r = SignedToken::new(chain, jwt);
        proof {
            let sk = self.spec_signing_key()->0;
            assert(signed_by(sk, r.spec_jwt(), header@, body@, sig));
            assert(r.spec_claims().chain()[0] == chain.chain()[0]);
            assert(consumes(t, parent, now, chain.chain()[0]));
        }
        Ok(r)
    }
}

impl<A: Clone> Actor<A> {
    /// `c` is a clone of this actor: its identifier is a clone of this one's,
    /// and it holds no signing key, only the verifying key of this actor.
    pub open spec fn cloned_to(self, c: Self) -> bool {
        &&& cloned(self.spec_id(), c.spec_id())
        &&& c.spec_signing_key() is None
        &&& c.spec_public_key() matches Some(vk) && self.gives_verifying_key(vk)
    }
}

impl<A: Clone> Clone for Actor<A> {
    /// A clone holds a clone of the identifier and the verifying key only.
    fn clone(&self) -> (r: Self)
        ensures
            self.cloned_to(r),
            forall|msg: Seq<u8>, sig: Signature| r.accepts(msg, &sig) == self.accepts(msg, &sig),
    {
        Actor { id: self.id.clone(), key: Key::Public(self.verifying_key()) }
    }
}

/// A clone of an actor keeps only the verifying key: the clone has no signing
/// key (so it refuses to sign), and its verifying key is the same key as the
/// original's, with the same algorithm and bytes, accepting the same
/// signatures; the original keeps its signing key.
pub proof fn law_clone_keeps_only_verifying_key<A: Clone>(a: Actor<A>, c: Actor<A>, vk_a: VerifyingKey, vk_c: VerifyingKey)
    requires
        a.cloned_to(c),
        a.gives_verifying_key(vk_a),
        c.gives_verifying_key(vk_c),
    ensures
        c.spec_signing_key() is None,
        c.can_sign(),
        vk_c.same_key(&vk_a),
        vk_c.spec_alg() == vk_a.spec_alg(),
        vk_c.spec_bytes() == vk_a.spec_bytes(),
        forall|msg: Seq<u8>, sig: Signature| #[trigger] vk_c.accepts(msg, &sig) == vk_a.accepts(msg, &sig),
{
    let vk = c.spec_public_key()->0;
    assert forall|msg: Seq<u8>, sig: Signature| #[trigger] vk_c.accepts(msg, &sig) == vk_a.accepts(msg, &sig) by {
        assert(vk_c.accepts(msg, &sig) == c.accepts(msg, &sig));
        assert(vk_a.accepts(msg, &sig) == a.accepts(msg, &sig));
        assert(vk.accepts(msg, &sig) == a.accepts(msg, &sig));
    }
}

/// The token text made of the header JSON `h`, the body JSON `b` and the
/// signature bytes `s` decodes back to them.
proof fn lemma_token_reads_back(jwt: Seq<char>, alg: AlgKind, h: Seq<u8>, b: Seq<u8>, m: Seq<u8>, s: Seq<u8>)
    requires
        m == spec_message(h, b),
        crate::frame::first_dot(m) == Some(b64_encoding(h).len() as int),
        crate::b64::decodes_to(m.subrange(0, b64_encoding(h).len() as int), h),
        crate::frame::find_dot_from(m, b64_encoding(h).len() as int + 1) is None,
        crate::b64::decodes_to(m.subrange(b64_encoding(h).len() as int + 1, m.len() as int), b),
        encode_utf8(jwt) == m + seq![dot()] + b64_encoding(s),
        crate::frame::last_dot(encode_utf8(jwt)) == Some(m.len() as int),
        crate::b64::decodes_to(encode_utf8(jwt).subrange(m.len() as int + 1, encode_utf8(jwt).len() as int), s),
        encode_utf8(jwt).subrange(0, m.len() as int) == m,
        b64_encoding(s).len() == 4 * ((s.len() + 2) / 3),
        crate::frame::no_dot(b64_encoding(s)),
        s.len() == Signature::spec_len(alg),
    ensures
        is_jwt_of(jwt, h, b, s),
        reads_back(jwt, alg, h, b, s),
{
    let bytes = encode_utf8(jwt);
    let hl = b64_encoding(h).len() as int;
    let tail = seq![dot()] + b64_encoding(s);
    assert(bytes =~= m + tail);
    lemma_find_dot_extend(m, tail, 0);
    assert(bytes.subrange(0, hl) =~= m.subrange(0, hl));
    law_jwt_name_roundtrip(alg);
    reveal_strlit("JWT");
    lemma_find_dot_extend(m, tail, hl + 1);
    assert(tail[0] == dot());
    assert(bytes.subrange(hl + 1, m.len() as int) =~= m.subrange(hl + 1, m.len() as int));
    assert(b64_encoding(s).len() > 0);
    assert(bytes.last() == b64_encoding(s)[b64_encoding(s).len() - 1]);
}

} // verus!
