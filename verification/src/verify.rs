use vstd::prelude::*;
use vstd::std_specs::cmp::PartialEqSpec;
use vstd::utf8::encode_utf8;

use crate::actor::Actor;
use crate::claims::Claims;
use crate::error::{Error, ErrorKind};
use crate::frame::first_dot;
use crate::sig::{AlgKind, Signature};
use crate::text::join;
use crate::time::TimeSpan;
use crate::token::{
    decode_body_part, decode_header_part, json_string_field, opt_text, string_field, spec_body_part,
    spec_header_part, spec_token_signature, token_signature, SignedToken, Token, TokenHeader,
};

verus! {

/// What reading one token of a chain gives, once its header JSON is parsed
/// into `alg` and `typ`: its algorithm and the text of the token it
/// inherits, if any.
pub open spec fn spec_scan_token(encoded: Seq<char>, dot: int, alg: Option<Seq<char>>, typ: Seq<char>) -> Result<
    (AlgKind, Option<Seq<char>>),
    (ErrorKind, Seq<char>),
> {
    match spec_body_part(encoded, dot, alg, typ) {
        Err(e) => Err(as_structure_error(e)),
        Ok((k, body)) => match json_string_field(body, "inherit"@) {
            Err(m) => Err((ErrorKind::Format, m)),
            Ok(inherit) => Ok((k, inherit)),
        },
    }
}

/// How the header pass reports a fault in the structure of a token: a part
/// that is not base64, or a body that is not JSON, is a malformed token (a
/// `Format` error with the same text); other errors stay as they are.
pub open spec fn as_structure_error(e: (ErrorKind, Seq<char>)) -> (ErrorKind, Seq<char>) {
    match e.0 {
        ErrorKind::Base64 => (ErrorKind::Format, e.1),
        ErrorKind::Json => (ErrorKind::Format, e.1),
        _ => e,
    }
}

/// Report `e` as the header pass reports it.
fn structure_error(e: Error) -> (r: Error)
    ensures
        r@ == as_structure_error(e@),
{
    match e {
        Error::Base64(m) => Error::Format(m),
        Error::Json(m) => Error::Format(m),
        other => other,
    }
}

/// The header pass and the check of a token agree: given the same parsed
/// header, the pass reads the algorithm that the check reads, and the
/// `inherit` field of the body JSON that the check decodes; where the check
/// refuses the token, the pass refuses it with the same text, and reports a
/// part that is not base64 or a body that is not JSON as a `Format` error.
pub proof fn law_scan_agrees_with_check(encoded: Seq<char>, dot: int, alg: Option<Seq<char>>, typ: Seq<char>)
    ensures
        match spec_body_part(encoded, dot, alg, typ) {
            Ok((k, body)) => match json_string_field(body, "inherit"@) {
                Ok(inherit) => spec_scan_token(encoded, dot, alg, typ) == Ok::<
                    (AlgKind, Option<Seq<char>>),
                    (ErrorKind, Seq<char>),
                >((k, inherit)),
                Err(m) => spec_scan_token(encoded, dot, alg, typ) == Err::<
                    (AlgKind, Option<Seq<char>>),
                    (ErrorKind, Seq<char>),
                >((ErrorKind::Format, m)),
            },
            Err(e) => spec_scan_token(encoded, dot, alg, typ) == Err::<
                (AlgKind, Option<Seq<char>>),
                (ErrorKind, Seq<char>),
            >(as_structure_error(e)),
        },
        spec_scan_token(encoded, dot, alg, typ) matches Err(e) ==> e.0 != ErrorKind::Base64 && e.0
            != ErrorKind::Json,
{
}

/// The header pass over a chain of tokens, which reads the algorithm of each
/// token, outermost first, without verifying any signature.
pub struct AlgScan {
    encoded: String,
    current: String,
    dot: usize,
    first: Option<AlgKind>,
    algs: Ghost<Seq<AlgKind>>,
}

/// A chain of tokens whose headers all name the same algorithm.
pub struct UniformChain {
    encoded: String,
    alg: AlgKind,
    algs: Ghost<Seq<AlgKind>>,
}

/// What one step of the header pass gives.
pub enum ScanStep {
    /// The pass goes on with the next token, whose header JSON is given.
    Next(AlgScan, Vec<u8>),
    /// Every token of the chain names the same algorithm.
    Done(UniformChain),
}

impl AlgScan {
    #[verifier::type_invariant]
    spec fn wf(self) -> bool {
        &&& first_dot(encode_utf8(self.current@)) == Some(self.dot as int)
        &&& (self.first is None <==> self.algs@.len() == 0)
        &&& forall|i: int| 0 <= i < self.algs@.len() ==> self.first == Some(#[trigger] self.algs@[i])
    }

    /// The whole token.
    pub closed spec fn spec_encoded(self) -> Seq<char> {
        self.encoded@
    }

    /// The token of the chain whose header is read next.
    pub closed spec fn spec_current(self) -> Seq<char> {
        self.current@
    }

    /// The index of the first `.` in the current token.
    pub closed spec fn spec_dot(self) -> int {
        self.dot as int
    }

    /// The algorithms of the tokens read so far, outermost first.
    pub closed spec fn spec_algs(self) -> Seq<AlgKind> {
        self.algs@
    }

    /// Start the pass over the chain of the token `encoded`: the pass and the
    /// header JSON of `encoded`.
    pub fn begin(encoded: String) -> (r: Result<(AlgScan, Vec<u8>), Error>)
        ensures
            match spec_header_part(encoded@) {
                Ok((i, h)) => r matches Ok((s, hb)) && hb@ == h && s.spec_encoded() == encoded@
                    && s.spec_current() == encoded@ && s.spec_dot() == i && s.spec_algs().len() == 0,
                Err(e) => r matches Err(x) && x@ == as_structure_error(e),
            },
            r matches Err(e) ==> e@.0 != ErrorKind::Base64 && e@.0 != ErrorKind::Json,
    {
        match decode_header_part(encoded.as_str()) {
            Ok((dot, header)) => {
                let current = encoded.clone();
                Ok((AlgScan { encoded, current, dot, first: None, algs: Ghost(Seq::empty()) }, header))
            },
            Err(e) => Err(structure_error(e)),
        }
    }

    /// Read the current token with its header as parsed (or the text of the
    /// parse error). A token whose algorithm differs from that of the
    /// outermost token ends the pass with an `Auth` error; a malformed header
    /// or token structure ends it with a `Format` error.
    pub fn step(self, header: Result<TokenHeader, String>) -> (r: Result<ScanStep, Error>)
        ensures
            match header {
                Err(m) => r matches Err(e) && e@ == (ErrorKind::Format, m@),
                Ok(h) => match spec_scan_token(self.spec_current(), self.spec_dot(), h.spec_alg(), h.typ@) {
                    Err(e) => r matches Err(x) && x@ == e,
                    Ok((alg, inherit)) => if self.spec_algs().len() > 0 && self.spec_algs()[0] != alg {
                        r matches Err(e) && e@ == (ErrorKind::Auth, "mixed-algorithm chains are not supported"@)
                    } else {
                        match inherit {
                            None => r matches Ok(ScanStep::Done(u)) && u.spec_encoded() == self.spec_encoded()
                                && u.spec_alg() == alg && u.spec_algs() == self.spec_algs().push(alg)
                                && forall|i: int| 0 <= i < u.spec_algs().len() ==> #[trigger] u.spec_algs()[i] == alg,
                            Some(inner) => match spec_header_part(inner) {
                                Err(e) => r matches Err(x) && x@ == as_structure_error(e),
                                Ok((i, hb)) => r matches Ok(ScanStep::Next(s, b)) && b@ == hb
                                    && s.spec_encoded() == self.spec_encoded() && s.spec_current() == inner
                                    && s.spec_dot() == i && s.spec_algs() == self.spec_algs().push(alg),
                            },
                        }
                    },
                },
            },
            r matches Err(e) ==> e@.0 != ErrorKind::Base64 && e@.0 != ErrorKind::Json,
    {
        proof {
            use_type_invariant(&self);
        }
        let h = match header {
            Ok(h) => h,
            Err(m) => return Err(Error::Format(m)),
        };
        let (alg, body) = match decode_body_part(self.current.as_str(), self.dot, &h) {
            Ok(p) => p,
            Err(e) => return Err(structure_error(e)),
        };
        let inherit = match string_field(body.as_slice(), "inherit") {
            Ok(i) => i,
            Err(m) => return Err(Error::Format(m)),
        };
        let first = match self.first {
            Some(f) => {
                if f != alg {
                    return Err(Error::auth("mixed-algorithm chains are not supported"));
                }
                f
            },
            None => alg,
        };
        let ghost algs = self.algs@.push(alg);
        proof {
            assert forall|i: int| 0 <= i < algs.len() implies Some(first) == Some(#[trigger] algs[i]) by {
                if i < self.algs@.len() {
                    assert(self.first == Some(self.algs@[i]));
                }
            }
        }
        match inherit {
            None => Ok(ScanStep::Done(UniformChain { encoded: self.encoded, alg: first, algs: Ghost(algs) })),
            Some(inner) => match decode_header_part(inner.as_str()) {
                Ok((dot, header)) => Ok(
                    ScanStep::Next(
                        AlgScan { encoded: self.encoded, current: inner, dot, first: Some(first), algs: Ghost(algs) },
                        header,
                    ),
                ),
                Err(e) => Err(structure_error(e)),
            },
        }
    }
}

impl UniformChain {
    #[verifier::type_invariant]
    spec fn wf(self) -> bool {
        &&& self.algs@.len() > 0
        &&& forall|i: int| 0 <= i < self.algs@.len() ==> #[trigger] self.algs@[i] == self.alg
    }

    /// The whole token.
    pub closed spec fn spec_encoded(self) -> Seq<char> {
        self.encoded@
    }

    /// The algorithm of every token of the chain.
    pub closed spec fn spec_alg(self) -> AlgKind {
        self.alg
    }

    /// The algorithm of each token of the chain, outermost first.
    pub closed spec fn spec_algs(self) -> Seq<AlgKind> {
        self.algs@
    }

    /// The algorithm of every token of the chain.
    pub fn alg(&self) -> (r: AlgKind)
        ensures
            r == self.spec_alg(),
    {
        self.alg
    }

    /// Borrow the whole token.
    pub fn encoded(&self) -> (r: &str)
        ensures
            r@ == self.spec_encoded(),
    {
        self.encoded.as_str()
    }
}

/// What the verification of a chain records of one of its tokens: its text,
/// issue and expiration times, actor id and inherited token (from its body),
/// the message and signature of its text, and the actor that was resolved
/// for it.
pub type TokenRecord<A> = (Seq<char>, u64, u64, A, Option<Seq<char>>, Seq<u8>, Signature, Actor<A>);

/// The token recorded in `rec` passed every check at `now`: its text splits
/// into its message and signature, it was issued and not yet expired at
/// `now`, the actor resolved for it has its actor id (where the equality of
/// `A` is the one its specification gives), and that actor's key accepts the
/// signature.
pub open spec fn token_verified<A: PartialEq>(rec: TokenRecord<A>, now: TimeSpan) -> bool {
    &&& spec_token_signature(rec.0, rec.6.spec_alg()) == Ok::<(Seq<u8>, Seq<u8>), (ErrorKind, Seq<char>)>(
        (rec.5, rec.6.spec_bytes()),
    )
    &&& rec.1 <= now.spec_secs() < rec.2
    &&& (A::obeys_eq_spec() ==> rec.7.spec_id().eq_spec(&rec.3))
    &&& rec.7.accepts(rec.5, &rec.6)
}

/// The records of the tokens of the chain of `encoded` so far: each passed,
/// the first is `encoded`, and each inherits the next.
pub open spec fn records_linked<A: PartialEq>(encoded: Seq<char>, records: Seq<TokenRecord<A>>, now: TimeSpan) -> bool {
    &&& records.len() > 0 ==> records[0].0 == encoded
    &&& forall|i: int| 0 <= i < records.len() ==> #[trigger] token_verified(records[i], now)
    &&& forall|i: int| 0 <= i < records.len() - 1 ==> #[trigger] records[i].4 == Some(records[i + 1].0)
}

/// Every token of the chain of `encoded` passed: the records are linked, and
/// the last token inherits none.
pub open spec fn chain_verified<A: PartialEq>(encoded: Seq<char>, records: Seq<TokenRecord<A>>, now: TimeSpan) -> bool {
    &&& records.len() > 0
    &&& records_linked(encoded, records, now)
    &&& records.last().4 is None
}

/// The claims of the entries `(exp, host, actor, claims)` of a chain, in order.
pub open spec fn claim_chain<H, A, C>(entries: Seq<(u64, H, A, C)>) -> Seq<(H, A, C)> {
    Seq::new(entries.len(), |i: int| (entries[i].1, entries[i].2, entries[i].3))
}

/// Some token of the chain expires after the last (root) one.
pub open spec fn extends_expiry<H, A, C>(entries: Seq<(u64, H, A, C)>) -> bool {
    exists|i: int| 0 <= i < entries.len() && #[trigger] entries[i].0 > entries.last().0
}

/// Build the claims of a chain from its entries, outermost first: the root
/// token (the last) gives the expiration time, and no token may expire after it.
fn assemble<H, A, C>(entries: Vec<(u64, H, A, C)>) -> (r: Result<Claims<H, A, C>, Error>)
    requires
        entries@.len() > 0,
    ensures
        extends_expiry(entries@) ==> (r matches Err(e) && e@ == (ErrorKind::Time,
            "cannot extend the expiration time of a recursive token"@)),
        !extends_expiry(entries@) ==> (r matches Ok(c) && c.chain() == claim_chain(entries@) && c.spec_exp()
            == entries@.last().0),
{
    let ghost all = entries@;
    let ghost n = all.len() as int;
    let mut rest = entries;
    let (exp, host, actor_id, claims) = rest.pop().unwrap();
    let mut chain = Claims::new(exp, host, actor_id, claims);
    proof {
        assert(chain.chain() =~= claim_chain(all.subrange(n - 1, n)));
    }
    while rest.len() > 0
        invariant
            0 <= rest@.len() < n,
            n == all.len(),
            all == entries@,
            exp == all.last().0,
            rest@ == all.subrange(0, rest@.len() as int),
            chain.spec_exp() == exp,
            chain.chain() == claim_chain(all.subrange(rest@.len() as int, n)),
            forall|j: int| rest@.len() <= j < n ==> #[trigger] all[j].0 <= exp,
        decreases rest@.len(),
    {
        let ghost k = rest@.len() as int;
        let (e, host, actor_id, claims) = rest.pop().unwrap();
        assert(all[k - 1] == (e, host, actor_id, claims));
        if e > exp {
            proof {
                assert(all[k - 1].0 > all.last().0);
                assert(extends_expiry(all));
            }
            return Err(Error::Time(String::from_str("cannot extend the expiration time of a recursive token")));
        }
        chain = match chain.consume(host, actor_id, claims) {
            Ok(c) => c,
            Err(_) => {
                assert(false);
                return Err(Error::Time(String::new()));
            },
        };
        proof {
            assert(chain.chain() =~= claim_chain(all.subrange(k - 1, n)));
        }
    }
    proof {
        assert(all.subrange(0, n) =~= all);
        assert(!extends_expiry(all));
    }
    Ok(chain)
}

/// The state of the verification of a chain: the whole token, the moment of
/// verification, the token checked next, and what was recorded of the tokens
/// checked so far (outermost first).
pub struct ChainProgress<H, A: PartialEq, C> {
    encoded: String,
    now: TimeSpan,
    current: String,
    entries: Vec<(u64, H, A, C)>,
    records: Ghost<Seq<TokenRecord<A>>>,
}

impl<H, A: PartialEq, C> ChainProgress<H, A, C> {
    /// The whole token.
    pub closed spec fn spec_encoded(self) -> Seq<char> {
        self.encoded@
    }

    /// The moment of verification.
    pub closed spec fn spec_now(self) -> TimeSpan {
        self.now
    }

    /// The token checked next.
    pub closed spec fn spec_current(self) -> Seq<char> {
        self.current@
    }

    /// The expiration time and claim of each token checked so far.
    pub closed spec fn spec_entries(self) -> Seq<(u64, H, A, C)> {
        self.entries@
    }

    /// What was recorded of each token checked so far.
    pub closed spec fn spec_records(self) -> Seq<TokenRecord<A>> {
        self.records@
    }

    /// Every token checked so far passed; each inherits the next, and the last
    /// inherits the token checked next; the entries hold the expiration times
    /// and actor ids of the records.
    pub open spec fn valid(self) -> bool {
        let records = self.spec_records();
        let n = records.len() as int;
        &&& self.spec_entries().len() == n
        &&& records_linked(self.spec_encoded(), records, self.spec_now())
        &&& (n == 0 ==> self.spec_current() == self.spec_encoded())
        &&& (n > 0 ==> records[n - 1].4 == Some(self.spec_current()))
        &&& forall|i: int| 0 <= i < n ==> #[trigger] records[i].2 == self.spec_entries()[i].0 && records[i].3
            == self.spec_entries()[i].2
    }
}

/// The verification of a chain, waiting for the parsed header of the token checked next.
pub struct ChainCheck<H, A: PartialEq, C> {
    progress: ChainProgress<H, A, C>,
    dot: usize,
}

/// The verification of a chain, waiting for the parsed body of the token checked next.
pub struct AwaitBody<H, A: PartialEq, C> {
    progress: ChainProgress<H, A, C>,
    alg: AlgKind,
}

/// The verification of a chain, waiting for the actor that the resolver
/// gives for the issuer and actor id of the token checked next.
pub struct AwaitActor<H, A: PartialEq, C> {
    progress: ChainProgress<H, A, C>,
    token: Token<H, A, C>,
    message: Vec<u8>,
    signature: Signature,
}

/// What checking one token of a chain gives.
pub enum ChainStep<H, A: PartialEq, C> {
    /// The token passed; the verification goes on with the token it
    /// inherits, whose header JSON is given.
    Next(ChainCheck<H, A, C>, Vec<u8>),
    /// Every token of the chain passed: the whole token with its claims.
    Verified(SignedToken<H, A, C>),
}

impl<H, A: PartialEq, C> ChainCheck<H, A, C> {
    #[verifier::type_invariant]
    spec fn wf(self) -> bool {
        &&& self.progress.valid()
        &&& first_dot(encode_utf8(self.progress.current@)) == Some(self.dot as int)
    }

    /// Where the verification stands.
    pub closed spec fn progress(self) -> ChainProgress<H, A, C> {
        self.progress
    }

    /// The index of the first `.` of the token checked next.
    pub closed spec fn spec_dot(self) -> int {
        self.dot as int
    }

    /// Start the verification at `now` of a chain whose tokens all name the
    /// same algorithm: the state and the header JSON of the whole token.
    pub fn begin(chain: UniformChain, now: TimeSpan) -> (r: Result<(Self, Vec<u8>), Error>)
        ensures
            match spec_header_part(chain.spec_encoded()) {
                Ok((i, h)) => r matches Ok((c, hb)) && hb@ == h && c.spec_dot() == i
                    && c.progress().spec_encoded() == chain.spec_encoded() && c.progress().spec_current()
                    == chain.spec_encoded() && c.progress().spec_now() == now
                    && c.progress().spec_records().len() == 0,
                Err(e) => r matches Err(x) && x@ == e,
            },
    {
        let encoded = chain.encoded;
        match decode_header_part(encoded.as_str()) {
            Ok((dot, header)) => {
                let current = encoded.clone();
                let progress = ChainProgress {
                    encoded,
                    now,
                    current,
                    entries: Vec::new(),
                    records: Ghost(Seq::empty()),
                };
                Ok((ChainCheck { progress, dot }, header))
            },
            Err(e) => Err(e),
        }
    }

    /// Check the header of the token checked next, as parsed (or the text of
    /// the parse error): the state and the body JSON of that token.
    pub fn with_header(self, header: Result<TokenHeader, String>) -> (r: Result<(AwaitBody<H, A, C>, Vec<u8>), Error>)
        ensures
            match header {
                Err(m) => r matches Err(e) && e@ == (ErrorKind::Format, m@),
                Ok(h) => match spec_body_part(self.progress().spec_current(), self.spec_dot(), h.spec_alg(), h.typ@) {
                    Err(e) => r matches Err(x) && x@ == e,
                    Ok((alg, body)) => r matches Ok((w, b)) && b@ == body && w.spec_alg() == alg && w.progress()
                        == self.progress(),
                },
            },
    {
        proof {
            use_type_invariant(&self);
        }
        let h = match header {
            Ok(h) => h,
            Err(m) => return Err(Error::Format(m)),
        };
        let (alg, body) = decode_body_part(self.progress.current.as_str(), self.dot, &h)?;
        Ok((AwaitBody { progress: self.progress, alg }, body))
    }
}

impl<H, A: PartialEq, C> AwaitBody<H, A, C> {
    #[verifier::type_invariant]
    spec fn wf(self) -> bool {
        self.progress.valid()
    }

    /// Where the verification stands.
    pub closed spec fn progress(self) -> ChainProgress<H, A, C> {
        self.progress
    }

    /// The algorithm that the header of the token checked next names.
    pub closed spec fn spec_alg(self) -> AlgKind {
        self.alg
    }

    /// Check the token checked next with its body as parsed (or the text of
    /// the parse error): its signature must have the length of its algorithm,
    /// and it must be issued and not yet expired.
    pub fn with_body(self, token: Result<Token<H, A, C>, String>) -> (r: Result<AwaitActor<H, A, C>, Error>)
        ensures
            match token {
                Err(m) => r matches Err(e) && e@ == (ErrorKind::Json, m@),
                Ok(t) => match spec_token_signature(self.progress().spec_current(), self.spec_alg()) {
                    Err(e) => r matches Err(x) && x@ == e,
                    Ok((m, s)) => if t.spec_is_expired(self.progress().spec_now()) {
                        r matches Err(e) && e@ == (ErrorKind::Time, "token is expired"@)
                    } else {
                        r matches Ok(w) && w.spec_token() == t && w.spec_message() == m && w.spec_signature().spec_alg()
                            == self.spec_alg() && w.spec_signature().spec_bytes() == s && w.progress()
                            == self.progress()
                    },
                },
            },
    {
        proof {
            use_type_invariant(&self);
        }
        let token = match token {
            Ok(t) => t,
            Err(m) => return Err(Error::Json(m)),
        };
        let (message, signature) = token_signature(self.progress.current.as_str(), self.alg)?;
        if token.is_expired(self.progress.now) {
            return Err(Error::Time(String::from_str("token is expired")));
        }
        Ok(AwaitActor { progress: self.progress, token, message, signature })
    }
}

/// The expiration time and claim of the token `t`.
pub open spec fn token_entry<H, A, C>(t: Token<H, A, C>) -> (u64, H, A, C) {
    (t.spec_exp(), t.spec_iss(), t.spec_actor_id(), t.spec_custom())
}

/// `e` refuses a token whose signature the resolved key did not accept,
/// with the text of the cause.
pub open spec fn bearer_refused(e: (ErrorKind, Seq<char>)) -> bool {
    exists|cause: Error| e == (ErrorKind::Auth, "invalid bearer token: "@ + #[trigger] cause.spec_text())
}

impl<H, A: PartialEq, C> AwaitActor<H, A, C> {
    #[verifier::type_invariant]
    spec fn wf(self) -> bool {
        &&& self.progress.valid()
        &&& spec_token_signature(self.progress.current@, self.signature.spec_alg()) == Ok::<
            (Seq<u8>, Seq<u8>),
            (ErrorKind, Seq<char>),
        >((self.message@, self.signature.spec_bytes()))
        &&& !self.token.spec_is_expired(self.progress.now)
    }

    /// Where the verification stands.
    pub closed spec fn progress(self) -> ChainProgress<H, A, C> {
        self.progress
    }

    /// The token checked next, as parsed from its body.
    pub closed spec fn spec_token(self) -> Token<H, A, C> {
        self.token
    }

    /// The message that the token checked next signs.
    pub closed spec fn spec_message(self) -> Seq<u8> {
        self.message@
    }

    /// The signature of the token checked next.
    pub closed spec fn spec_signature(self) -> Signature {
        self.signature
    }

    /// What is recorded of the token checked next when `a` was resolved for it.
    pub open spec fn record(self, a: Actor<A>) -> TokenRecord<A> {
        let t = self.spec_token();
        (
            self.progress().spec_current(),
            t.spec_iat(),
            t.spec_exp(),
            t.spec_actor_id(),
            opt_text(t.spec_inherit()),
            self.spec_message(),
            self.spec_signature(),
            a,
        )
    }

    /// What follows once the token checked next passed with the actor `a`:
    /// the verification goes on with the token it inherits, or, at the root
    /// of the chain, gives the claims of the whole chain, unless a token
    /// expires after the root.
    pub open spec fn continues(self, a: Actor<A>, r: Result<ChainStep<H, A, C>, Error>) -> bool {
        let t = self.spec_token();
        let p = self.progress();
        let records = p.spec_records().push(self.record(a));
        let entries = p.spec_entries().push(token_entry(t));
        match t.spec_inherit() {
            Some(parent) => match spec_header_part(parent@) {
                Err(e) => r matches Err(x) && x@ == e,
                Ok((i, hb)) => r matches Ok(ChainStep::Next(c, b)) && b@ == hb && c.spec_dot() == i
                    && c.progress().spec_encoded() == p.spec_encoded() && c.progress().spec_now() == p.spec_now()
                    && c.progress().spec_current() == parent@ && c.progress().spec_entries() == entries
                    && c.progress().spec_records() == records,
            },
            None => if extends_expiry(entries) {
                r matches Err(e) && e@ == (ErrorKind::Time, "cannot extend the expiration time of a recursive token"@)
            } else {
                r matches Ok(ChainStep::Verified(st)) && st.spec_jwt() == p.spec_encoded()
                    && st.spec_claims().chain() == claim_chain(entries) && st.spec_claims().spec_exp()
                    == entries.last().0 && chain_verified(p.spec_encoded(), records, p.spec_now())
            },
        }
    }

    /// Borrow the issuer of the token checked next, for the resolver.
    pub fn issuer(&self) -> (r: &H)
        ensures
            *r == self.spec_token().spec_iss(),
    {
        self.token.issuer()
    }

    /// Borrow the actor id of the token checked next, for the resolver.
    pub fn actor_id(&self) -> (r: &A)
        ensures
            *r == self.spec_token().spec_actor_id(),
    {
        self.token.actor_id()
    }

    /// Check the token checked next with the actor that the resolver gave for
    /// it (or the resolver's error): the actor must have the token's actor id,
    /// and its key must accept the token's signature.
    pub fn with_actor(self, actor: Result<Actor<A>, Error>) -> (r: Result<ChainStep<H, A, C>, Error>)
        ensures
            actor matches Err(e) ==> (r matches Err(x) && x@ == e@),
            actor matches Ok(a) ==> {
                let id_ok = a.spec_id().eq_spec(&self.spec_token().spec_actor_id());
                let different = (ErrorKind::Auth, "attempted to use a bearer token for a different actor"@);
                let accepted = a.accepts(self.spec_message(), &self.spec_signature());
                &&& (A::obeys_eq_spec() && !id_ok) ==> (r matches Err(e) && e@ == different)
                &&& ((A::obeys_eq_spec() ==> id_ok) && !accepted) ==> (r matches Err(e) && (bearer_refused(e@)
                    || (!A::obeys_eq_spec() && e@ == different)))
                &&& ((A::obeys_eq_spec() ==> id_ok) && a.spec_alg() != self.spec_signature().spec_alg()) ==> (
                r matches Err(e) && (e@ == (ErrorKind::Auth,
                    "invalid bearer token: Auth: verifying key and signature algorithm mismatch"@) || (
                !A::obeys_eq_spec() && e@ == different)))
                &&& ((A::obeys_eq_spec() ==> id_ok) && accepted) ==> (self.continues(a, r) || (
                !A::obeys_eq_spec() && (r matches Err(e) && e@ == different)))
            },
    {
        proof {
            use_type_invariant(&self);
        }
        let actor = match actor {
            Ok(a) => a,
            Err(e) => return Err(e),
        };
        if !actor.id().eq(self.token.actor_id()) {
            return Err(Error::auth("attempted to use a bearer token for a different actor"));
        }
        let vk = actor.verifying_key();
        match vk.verify(self.message.as_slice(), &self.signature) {
            Ok(()) => {},
            Err(cause) => {
                let text = cause.to_text();
                proof {
                    if vk.spec_alg() != self.signature.spec_alg() {
                        reveal_strlit("invalid bearer token: ");
                        reveal_strlit("Auth");
                        reveal_strlit(": ");
                        reveal_strlit("verifying key and signature algorithm mismatch");
                        reveal_strlit("invalid bearer token: Auth: verifying key and signature algorithm mismatch");
                        assert("invalid bearer token: "@ + text@
                            =~= "invalid bearer token: Auth: verifying key and signature algorithm mismatch"@);
                    }
                }
                return Err(Error::Auth(join("invalid bearer token: ", text.as_str())));
            },
        }
        let ghost rec = self.record(actor);
        let ghost old_progress = self.progress;
        let AwaitActor { progress, token, message: _, signature: _ } = self;
        let ChainProgress { encoded, now, current: _, entries, records } = progress;
        let mut entries = entries;
        let (iss, _iat, exp, actor_id, custom, inherit) = token.into_parts();
        entries.push((exp, iss, actor_id, custom));
        let records: Ghost<Seq<TokenRecord<A>>> = Ghost(records@.push(rec));
        proof {
            assert(token_verified(rec, now));
            let rs = records@;
            assert forall|i: int| 0 <= i < rs.len() implies #[trigger] token_verified(rs[i], now) by {
                if i < rs.len() - 1 {
                    assert(rs[i] == old_progress.records@[i]);
                }
            }
            assert forall|i: int| 0 <= i < rs.len() - 1 implies #[trigger] rs[i].4 == Some(rs[i + 1].0) by {
                if i < rs.len() - 2 {
                    assert(rs[i] == old_progress.records@[i]);
                    assert(rs[i + 1] == old_progress.records@[i + 1]);
                }
            }
        }
        match inherit {
            Some(parent) => match decode_header_part(parent.as_str()) {
                Ok((dot, header)) => {
                    let progress = ChainProgress { encoded, now, current: parent, entries, records };
                    Ok(ChainStep::Next(ChainCheck { progress, dot }, header))
                },
                Err(e) => Err(e),
            },
            None => match assemble(entries) {
                Ok(claims) => Ok(ChainStep::Verified(SignedToken::new(claims, encoded))),
                Err(e) => Err(e),
            },
        }
    }
}

} // verus!
