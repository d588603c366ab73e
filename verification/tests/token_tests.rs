use std::collections::HashMap;
use std::sync::Arc;
use std::time::{Duration, SystemTime, UNIX_EPOCH};

use base64::prelude::BASE64_STANDARD;
use base64::Engine;
use rjwt::{
    decode_body_part, decode_header_part, token_signature, Actor, AlgKind, AlgScan, ChainCheck,
    ChainStep, Error, Falcon512Backend, Falcon512KeyPair, Falcon512PrivateKey,
    Falcon512PublicKey, Falcon512Signature, FalconRsBackend, ScanStep, SharedBackend, SignedToken,
    TimeSpan, Token, TokenHeader, VerifyingKey,
};
use falcon::falcon::{
    falcon_sign_dyn_finish, falcon_sign_start, falcon_tmpsize_signdyn, falcon_tmpsize_verify,
    falcon_verify_finish, falcon_verify_start, shake256_init_prng_from_system, shake256_inject,
    FALCON_SIG_PADDED,
};
use falcon::shake::InnerShake256Context;
use serde_json::Value;
use zeroize::Zeroizing;

const SIZE_LIMIT: usize = 8000; // max HTTP header size

// ── JSON of tokens, as the serde wire format writes it ──────────────────────

trait CustomJson: Sized {
    fn to_json(&self) -> String;
    fn from_json(v: &Value) -> Result<Self, String>;
}

impl CustomJson for () {
    fn to_json(&self) -> String {
        "null".to_string()
    }

    fn from_json(v: &Value) -> Result<Self, String> {
        match v {
            Value::Null => Ok(()),
            _ => Err("invalid type: expected unit".to_string()),
        }
    }
}

impl CustomJson for String {
    fn to_json(&self) -> String {
        serde_json::to_string(self).unwrap()
    }

    fn from_json(v: &Value) -> Result<Self, String> {
        match v {
            Value::String(s) => Ok(s.clone()),
            _ => Err("invalid type: expected a string".to_string()),
        }
    }
}

fn token_json<C: CustomJson>(t: &Token<String, String, C>) -> Result<Vec<u8>, String> {
    let inherit = match t.inherit() {
        Some(j) => serde_json::to_string(j).unwrap(),
        None => "null".to_string(),
    };
    let text = format!(
        "{{\"iss\":{},\"iat\":{},\"exp\":{},\"actor_id\":{},\"custom\":{},\"inherit\":{}}}",
        serde_json::to_string(t.issuer()).unwrap(),
        t.iat(),
        t.exp(),
        serde_json::to_string(t.actor_id()).unwrap(),
        t.custom().to_json(),
        inherit
    );
    Ok(text.into_bytes())
}

fn header_json(h: &TokenHeader) -> Result<Vec<u8>, String> {
    let alg = match &h.alg {
        Some(a) => serde_json::to_string(a).unwrap(),
        None => "null".to_string(),
    };
    let text = format!("{{\"alg\":{},\"typ\":{}}}", alg, serde_json::to_string(&h.typ).unwrap());
    Ok(text.into_bytes())
}

fn string_field(obj: &serde_json::Map<String, Value>, name: &str) -> Result<String, String> {
    match obj.get(name) {
        Some(Value::String(s)) => Ok(s.clone()),
        Some(_) => Err(format!("invalid type for `{name}`")),
        None => Err(format!("missing field `{name}`")),
    }
}

fn u64_field(obj: &serde_json::Map<String, Value>, name: &str) -> Result<u64, String> {
    match obj.get(name).and_then(Value::as_u64) {
        Some(n) => Ok(n),
        None => Err(format!("missing or invalid field `{name}`")),
    }
}

fn parse_header(bytes: &[u8]) -> Result<TokenHeader, String> {
    let v: Value = serde_json::from_slice(bytes).map_err(|e| e.to_string())?;
    let obj = match v.as_object() {
        Some(o) => o,
        None => return Err("invalid type: expected struct TokenHeader".to_string()),
    };
    let alg = match obj.get("alg") {
        None | Some(Value::Null) => None,
        Some(Value::String(s)) => Some(s.clone()),
        Some(_) => return Err("invalid type for `alg`".to_string()),
    };
    let typ = string_field(obj, "typ")?;
    Ok(TokenHeader { alg, typ })
}

fn parse_body<C: CustomJson>(bytes: &[u8]) -> Result<Token<String, String, C>, String> {
    let v: Value = serde_json::from_slice(bytes).map_err(|e| e.to_string())?;
    let obj = match v.as_object() {
        Some(o) => o,
        None => return Err("invalid type: expected struct Token".to_string()),
    };
    let iss = string_field(obj, "iss")?;
    let iat = u64_field(obj, "iat")?;
    let exp = u64_field(obj, "exp")?;
    let actor_id = string_field(obj, "actor_id")?;
    let custom = C::from_json(obj.get("custom").unwrap_or(&Value::Null))?;
    let inherit = match obj.get("inherit") {
        None | Some(Value::Null) => None,
        Some(Value::String(s)) => Some(s.clone()),
        Some(_) => return Err("invalid type for `inherit`".to_string()),
    };
    Ok(Token::from_parts(iss, iat, exp, actor_id, custom, inherit))
}

/// Decode the header and body of `encoded`, as a verifier reads them.
fn decode_token<C: CustomJson>(encoded: &str) -> Result<(AlgKind, Token<String, String, C>), Error> {
    let (dot, header) = decode_header_part(encoded)?;
    let header = parse_header(&header).map_err(Error::Format)?;
    let (alg, body) = decode_body_part(encoded, dot, &header)?;
    let token = parse_body(&body).map_err(Error::Json)?;
    Ok((alg, token))
}

// ── time ────────────────────────────────────────────────────────────────────

fn span(t: SystemTime) -> TimeSpan {
    let d = t.duration_since(UNIX_EPOCH).unwrap();
    TimeSpan::new(d.as_secs(), d.subsec_nanos())
}

fn secs(n: u64) -> TimeSpan {
    TimeSpan::from_secs(n)
}

fn new_token<C>(iss: &str, now: TimeSpan, ttl: u64, actor_id: &str, claims: C) -> Token<String, String, C> {
    Token::new(iss.to_string(), now, secs(ttl), actor_id.to_string(), claims)
}

// ── resolving and verifying ─────────────────────────────────────────────────

struct TestResolver {
    hostname: String,
    actors: HashMap<(String, String), Actor<String>>,
}

impl TestResolver {
    fn new(hostname: &str) -> Self {
        Self { hostname: hostname.to_string(), actors: HashMap::new() }
    }

    fn add(&mut self, actor: Actor<String>) {
        self.actors.insert((self.hostname.clone(), actor.id().clone()), actor);
    }

    fn resolve(&self, host: &String, actor_id: &String) -> Result<Actor<String>, Error> {
        self.actors
            .get(&(host.clone(), actor_id.clone()))
            .cloned()
            .ok_or_else(|| Error::fetch(&format!("{}:{}", host, actor_id)))
    }

    fn verify<C: CustomJson>(&self, encoded: String, now: TimeSpan) -> Result<SignedToken<String, String, C>, Error> {
        verify_with(&|h: &String, a: &String| self.resolve(h, a), encoded, now)
    }
}

/// Verify `encoded` at `now`, resolving actors with `resolve`: the header
/// pass over the whole chain first, then each token in turn.
fn verify_with<C: CustomJson>(
    resolve: &dyn Fn(&String, &String) -> Result<Actor<String>, Error>,
    encoded: String,
    now: TimeSpan,
) -> Result<SignedToken<String, String, C>, Error> {
    let (mut scan, mut header) = AlgScan::begin(encoded)?;
    let chain = loop {
        match scan.step(parse_header(&header))? {
            ScanStep::Next(next, h) => {
                scan = next;
                header = h;
            }
            ScanStep::Done(chain) => break chain,
        }
    };
    let (mut check, mut header) = ChainCheck::<String, String, C>::begin(chain, now)?;
    loop {
        let (await_body, body) = check.with_header(parse_header(&header))?;
        let await_actor = await_body.with_body(parse_body(&body))?;
        let actor = resolve(await_actor.issuer(), await_actor.actor_id());
        match await_actor.with_actor(actor)? {
            ChainStep::Next(next, h) => {
                check = next;
                header = h;
            }
            ChainStep::Verified(token) => return Ok(token),
        }
    }
}

fn falcon_actor(id: &str) -> Actor<String> {
    Actor::<String>::new_falcon512(id.to_string()).expect("falcon actor")
}

fn custom(backend: impl Falcon512Backend + 'static) -> SharedBackend {
    let b: Box<dyn Falcon512Backend> = Box::new(backend);
    SharedBackend::Custom(Arc::new(b))
}

// ── signing, decoding and verifying ─────────────────────────────────────────

#[test]
fn test_format() {
    let actor = Actor::new("actor".to_string());
    let token = new_token("example.com", span(SystemTime::now()), 30, actor.id(), ());

    let signed = actor.sign_token(token, header_json, token_json).unwrap();
    let (message, _) = token_signature(signed.jwt(), AlgKind::Ed25519).unwrap();

    assert!(signed.jwt().as_bytes().starts_with(&message));
    assert!(signed.jwt().len() < SIZE_LIMIT);
}

#[test]
fn test_decode_alg_eddsa() {
    let actor = Actor::new("actor".to_string());
    let token = new_token("example.com", span(SystemTime::now()), 30, actor.id(), ());
    let signed = actor.sign_token(token, header_json, token_json).unwrap();
    let result = decode_token::<()>(signed.jwt());
    match result {
        Ok((AlgKind::Ed25519, _)) => {}
        other => panic!("expected Ok((AlgKind::Ed25519, _)), got {:?}", other),
    }
}

#[test]
fn test_decode_unknown_alg() {
    let header = BASE64_STANDARD.encode(b"{\"alg\":\"RS256\",\"typ\":\"JWT\"}");
    let jwt = format!("{}.dummy_body.dummy_sig", header);
    let result = decode_token::<()>(&jwt);
    assert!(matches!(result, Err(Error::Format(_))), "expected Err(Error::Format), got {:?}", result);
}

#[test]
fn test_decode_missing_alg() {
    let header = BASE64_STANDARD.encode(b"{\"typ\":\"JWT\"}");
    let jwt = format!("{}.dummy_body.dummy_sig", header);
    let result = decode_token::<()>(&jwt);
    assert!(
        matches!(result, Err(Error::Format(_)) | Err(Error::Json(_))),
        "expected Err(Error::Format) or Err(Error::Json), got {:?}",
        result
    );
}

#[test]
fn test_decode_malformed_header_json() {
    let header = BASE64_STANDARD.encode(b"not json");
    let jwt = format!("{}.dummy_body.dummy_sig", header);
    let result = decode_token::<()>(&jwt);
    assert!(
        matches!(result, Err(Error::Format(_)) | Err(Error::Json(_))),
        "expected Err(Error::Format) or Err(Error::Json), got {:?}",
        result
    );
}

#[test]
fn test_falcon_new_falcon512_default_constructor() {
    let id = "test-actor".to_string();
    let actor = Actor::<String>::new_falcon512(id);
    assert!(actor.is_ok());
    let actor = actor.unwrap();
    let token = new_token("example.com", span(SystemTime::now()), 30, actor.id(), ());
    let signed = actor.sign_token(token, header_json, token_json).unwrap();
    let (alg, _) = decode_token::<()>(signed.jwt()).unwrap();
    assert_eq!(alg, AlgKind::Falcon512);
}

#[test]
fn test_falcon_sign_verify_roundtrip() {
    let actor = falcon_actor("alice");
    let token = new_token("example.com", span(SystemTime::now()), 30, actor.id(), ());
    let signed = actor.sign_token(token, header_json, token_json).unwrap();
    let (alg, _) = decode_token::<()>(signed.jwt()).unwrap();
    assert_eq!(alg, AlgKind::Falcon512);
    let (message, signature) = token_signature(signed.jwt(), AlgKind::Falcon512).unwrap();
    assert!(actor.verifying_key().verify(&message, &signature).is_ok());
}

#[test]
fn test_falcon_depth1_under_8kb() {
    let actor = falcon_actor("alice");
    let token = new_token("example.com", span(SystemTime::now()), 30, actor.id(), ());
    let signed = actor.sign_token(token, header_json, token_json).unwrap();
    assert!(signed.jwt().len() < 8000, "JWT too large: {} bytes", signed.jwt().len());
}

#[test]
fn test_falcon_depth2_chain_under_8kb() {
    let root = falcon_actor("root");
    let delegate = falcon_actor("delegate");
    let now = span(SystemTime::now());
    let token = new_token("example.com", now, 30, root.id(), "root claim".to_string());
    let signed_root = root.sign_token(token, header_json, token_json).unwrap();
    let signed_child = delegate
        .consume_and_sign(signed_root, "relay.com".to_string(), "delegate claim".to_string(), now, header_json, token_json)
        .unwrap();
    assert!(signed_child.jwt().len() < 8000, "chained JWT too large: {} bytes", signed_child.jwt().len());
}

#[test]
fn test_falcon_signing_is_randomized() {
    let actor = falcon_actor("alice");
    let now = span(SystemTime::now());
    let token1 = new_token("example.com", now, 30, actor.id(), ());
    let token2 = new_token("example.com", now, 30, actor.id(), ());
    let signed1 = actor.sign_token(token1, header_json, token_json).unwrap();
    let signed2 = actor.sign_token(token2, header_json, token_json).unwrap();
    let sig1 = signed1.jwt().rsplit('.').next().unwrap();
    let sig2 = signed2.jwt().rsplit('.').next().unwrap();
    assert_ne!(sig1, sig2, "Falcon signatures must be randomized");
    let (msg1, s1) = token_signature(signed1.jwt(), AlgKind::Falcon512).unwrap();
    let (msg2, s2) = token_signature(signed2.jwt(), AlgKind::Falcon512).unwrap();
    assert!(actor.verifying_key().verify(&msg1, &s1).is_ok());
    assert!(actor.verifying_key().verify(&msg2, &s2).is_ok());
}

#[test]
fn test_falcon_actor_clone_drops_private_key() {
    let actor = falcon_actor("alice");
    assert!(actor.has_private_key());
    let cloned = actor.clone();
    assert!(!cloned.has_private_key());
    let token = new_token("example.com", span(SystemTime::now()), 30, actor.id(), ());
    let signed = actor.sign_token(token, header_json, token_json).unwrap();
    let (message, signature) = token_signature(signed.jwt(), AlgKind::Falcon512).unwrap();
    assert!(cloned.verifying_key().verify(&message, &signature).is_ok());
}

#[test]
fn test_falcon_two_backend_instances_interop() {
    let backend1 = SharedBackend::FalconRs(FalconRsBackend);
    let actor = Actor::<String>::new_falcon512_with("alice".to_string(), backend1).unwrap();
    let token = new_token("example.com", span(SystemTime::now()), 30, actor.id(), ());
    let signed = actor.sign_token(token, header_json, token_json).unwrap();
    let (message, signature) = token_signature(signed.jwt(), AlgKind::Falcon512).unwrap();
    let pk = actor.verifying_key();
    let public_key = match pk {
        VerifyingKey::Falcon512 { public_key, .. } => public_key,
        _ => panic!("expected Falcon512 verifying key"),
    };
    let backend2 = SharedBackend::FalconRs(FalconRsBackend);
    let verify_actor =
        Actor::<String>::with_verifying_key("alice".to_string(), VerifyingKey::falcon512_with(public_key, backend2));
    assert!(verify_actor.verifying_key().verify(&message, &signature).is_ok());
}

#[test]
fn custom_backend_handle_verifies_like_falcon_rs() {
    let actor = Actor::<String>::new_falcon512_with("alice".to_string(), custom(FalconRsBackend)).unwrap();
    let token = new_token("example.com", span(SystemTime::now()), 30, actor.id(), ());
    let signed = actor.sign_token(token, header_json, token_json).unwrap();
    let (message, signature) = token_signature(signed.jwt(), AlgKind::Falcon512).unwrap();
    let public_key = match actor.verifying_key() {
        VerifyingKey::Falcon512 { public_key, .. } => public_key,
        _ => panic!("expected Falcon512 verifying key"),
    };
    let default_key = VerifyingKey::falcon512_with(public_key, rjwt::default_falcon_backend());
    assert!(default_key.verify(&message, &signature).is_ok());
    let mut tampered = message.clone();
    tampered.push(b'x');
    assert!(matches!(default_key.verify(&tampered, &signature), Err(Error::Auth(_))));
}

#[test]
fn test_falcon_signature_is_exactly_666_bytes() {
    let actor = Actor::<String>::new_falcon512("a".to_string()).unwrap();
    let token = new_token("h", span(SystemTime::now()), 30, actor.id(), ());
    let signed = actor.sign_token(token, header_json, token_json).unwrap();
    let (_, signature) = token_signature(signed.jwt(), AlgKind::Falcon512).unwrap();
    assert_eq!(signature.to_bytes().len(), 666);
}

#[test]
fn test_decode_alg_fndsa512_dispatches_to_falcon() {
    let host = "example.com".to_string();
    let actor = falcon_actor("alice");
    let now = span(SystemTime::now());

    let token = new_token(&host, now, 30, actor.id(), ());
    let signed = actor.sign_token(token, header_json, token_json).unwrap();

    let (alg, _) = decode_token::<()>(signed.jwt()).unwrap();
    assert_eq!(alg, AlgKind::Falcon512);

    let mut resolver = TestResolver::new(&host);
    resolver.add(actor.clone());

    let result = resolver.verify::<()>(signed.jwt().to_string(), now);
    let verified = result.expect("Resolve::verify should succeed for a valid Falcon-512 token");
    assert_eq!(verified.claims().get(&host, &"alice".to_string()), Some(&()));
}

fn mixed_chain(inner_actor: Actor<String>, outer_actor: &Actor<String>, now: TimeSpan) -> SignedToken<String, String, ()> {
    let inner_token = new_token("inner.com", now, 30, inner_actor.id(), ());
    let signed_inner = inner_actor.sign_token(inner_token, header_json, token_json).unwrap();

    let mut inner_resolver = TestResolver::new("inner.com");
    inner_resolver.add(inner_actor.clone());
    let verified_inner = inner_resolver.verify::<()>(signed_inner.jwt().to_string(), now).unwrap();

    outer_actor.consume_and_sign(verified_inner, "outer.com".to_string(), (), now, header_json, token_json).unwrap()
}

fn assert_mixed(result: Result<SignedToken<String, String, ()>, Error>) {
    match &result {
        Err(Error::Auth(msg)) => {
            assert!(
                msg.contains("mixed") || msg.contains("algorithm"),
                "expected message mentioning 'mixed' or 'algorithm', got: {msg}"
            );
        }
        other => panic!("expected Err(Error::Auth(_)), got {:?}", other),
    }
}

#[test]
fn test_chain_alg_mismatch_outer_eddsa_inner_falcon_rejected() {
    let now = span(SystemTime::now());
    let outer_actor = Actor::<String>::new("outer".to_string());
    let signed_outer = mixed_chain(falcon_actor("inner"), &outer_actor, now);

    let mut resolver = TestResolver::new("outer.com");
    resolver.add(outer_actor.clone());

    assert_mixed(resolver.verify::<()>(signed_outer.jwt().to_string(), now));
}

#[test]
fn test_chain_alg_mismatch_outer_falcon_inner_eddsa_rejected() {
    let now = span(SystemTime::now());
    let outer_actor = falcon_actor("outer");
    let signed_outer = mixed_chain(Actor::<String>::new("inner".to_string()), &outer_actor, now);

    let mut resolver = TestResolver::new("outer.com");
    resolver.add(outer_actor.clone());

    assert_mixed(resolver.verify::<()>(signed_outer.jwt().to_string(), now));
}

#[test]
fn test_pre_pass_fails_before_resolver_invoked() {
    let now = span(SystemTime::now());
    let outer_actor = Actor::<String>::new("outer".to_string());
    let signed_outer = mixed_chain(falcon_actor("inner"), &outer_actor, now);

    let panic_on_resolve = |_host: &String, _actor_id: &String| -> Result<Actor<String>, Error> {
        panic!("resolver must not be called for mixed-alg chains")
    };
    assert_mixed(verify_with::<()>(&panic_on_resolve, signed_outer.jwt().to_string(), now));
}

#[test]
fn test_falcon_tampered_signature_rejected() {
    let host = "h".to_string();
    let actor = falcon_actor("alice");
    let now = span(SystemTime::now());

    let token = new_token(&host, now, 30, actor.id(), ());
    let signed = actor.sign_token(token, header_json, token_json).unwrap();
    let jwt = signed.jwt();

    let i = jwt.rfind('.').unwrap();
    let mut sig_bytes = BASE64_STANDARD.decode(&jwt[(i + 1)..]).unwrap();
    let last = sig_bytes.len() - 1;
    sig_bytes[last] ^= 0x01;
    let tampered_sig = BASE64_STANDARD.encode(&sig_bytes);
    let tampered = format!("{}.{}", &jwt[..i], tampered_sig);

    let mut resolver = TestResolver::new(&host);
    resolver.add(actor.clone());

    let result = resolver.verify::<()>(tampered, now);
    assert!(matches!(result, Err(Error::Auth(_))), "expected Err(Error::Auth(_)), got {:?}", result);
}

#[test]
fn test_falcon_tampered_message_rejected() {
    let host = "h".to_string();
    let actor = falcon_actor("alice");
    let now = span(SystemTime::now());

    let token = new_token(&host, now, 30, actor.id(), ());
    let signed = actor.sign_token(token, header_json, token_json).unwrap();
    let jwt = signed.jwt();

    let parts: Vec<&str> = jwt.splitn(3, '.').collect();
    let header = parts[0];
    let body_and_sig = parts[2];
    let mut body_bytes = BASE64_STANDARD.decode(parts[1]).unwrap();
    let mid = body_bytes.len() / 2;
    body_bytes[mid] ^= 0x01;
    let tampered_body = BASE64_STANDARD.encode(&body_bytes);
    let tampered = format!("{}.{}.{}", header, tampered_body, body_and_sig);

    let mut resolver = TestResolver::new(&host);
    resolver.add(actor.clone());

    let result = resolver.verify::<()>(tampered, now);
    assert!(
        matches!(result, Err(Error::Auth(_)) | Err(Error::Base64(_)) | Err(Error::Format(_)) | Err(Error::Json(_))),
        "expected token rejection error, got {:?}",
        result
    );
}

#[test]
fn test_falcon_expired_token_rejected() {
    let host = "h".to_string();
    let actor = falcon_actor("alice");
    let now_time = SystemTime::now();
    let now = span(now_time);

    let token = new_token(&host, now, 30, actor.id(), ());
    let signed = actor.sign_token(token, header_json, token_json).unwrap();

    let mut resolver = TestResolver::new(&host);
    resolver.add(actor.clone());

    let later = span(now_time + Duration::from_secs(60));
    let result = resolver.verify::<()>(signed.jwt().to_string(), later);
    assert!(matches!(result, Err(Error::Time(_))), "expected Err(Error::Time(_)), got {:?}", result);
}

#[test]
fn test_falcon_actor_id_mismatch_rejected() {
    let host = "h".to_string();
    let alice = falcon_actor("alice");
    let now = span(SystemTime::now());

    let token = new_token(&host, now, 30, alice.id(), ());
    let signed = alice.sign_token(token, header_json, token_json).unwrap();

    let different_actor = Actor::<String>::with_verifying_key("different".to_string(), alice.verifying_key());
    let mismatched = |_host: &String, _actor_id: &String| -> Result<Actor<String>, Error> { Ok(different_actor.clone()) };

    let result = verify_with::<()>(&mismatched, signed.jwt().to_string(), now);
    assert!(matches!(result, Err(Error::Auth(_))), "expected Err(Error::Auth(_)), got {:?}", result);
    if let Err(Error::Auth(msg)) = result {
        assert!(msg.contains("different actor"), "expected message containing 'different actor', got: {msg}");
    }
}

#[derive(Clone, Debug)]
struct CustomContextBackend {
    context: Vec<u8>,
}

impl CustomContextBackend {
    fn new(context: &[u8]) -> Self {
        Self { context: context.to_vec() }
    }
}

impl Falcon512Backend for CustomContextBackend {
    fn generate(&self) -> Result<Falcon512KeyPair, Error> {
        FalconRsBackend.generate()
    }

    fn sign(&self, sk: &Falcon512PrivateKey, msg: &[u8]) -> Result<Falcon512Signature, Error> {
        const LOGN: u32 = 9;
        const SIG_LEN: usize = rjwt::SIGNATURE_LEN;

        let mut rng = {
            let mut rng = InnerShake256Context::new();
            let rc = shake256_init_prng_from_system(&mut rng);
            if rc != 0 {
                return Err(Error::auth("falcon-rs: OS RNG unavailable"));
            }
            rng
        };

        let tmp_len = falcon_tmpsize_signdyn(LOGN);
        let mut tmp = Zeroizing::new(vec![0u8; tmp_len]);
        let mut sig = [0u8; SIG_LEN];
        let mut sig_len = SIG_LEN;

        let mut nonce = [0u8; 40];
        let mut hd = InnerShake256Context::new();
        let rc = falcon_sign_start(&mut rng, &mut nonce, &mut hd);
        if rc != 0 {
            return Err(Error::auth(&format!("falcon-rs low-level error: {rc}")));
        }

        shake256_inject(&mut hd, &[0x00u8, self.context.len() as u8]);
        if !self.context.is_empty() {
            shake256_inject(&mut hd, &self.context);
        }
        shake256_inject(&mut hd, msg);

        let rc = falcon_sign_dyn_finish(
            &mut rng,
            &mut sig,
            &mut sig_len,
            FALCON_SIG_PADDED,
            sk.as_bytes(),
            &mut hd,
            &nonce,
            &mut tmp,
        );
        if rc != 0 {
            return Err(Error::auth(&format!("falcon-rs low-level error: {rc}")));
        }
        Falcon512Signature::from_bytes(&sig)
    }

    fn verify(&self, pk: &Falcon512PublicKey, msg: &[u8], sig: &Falcon512Signature) -> Result<(), Error> {
        const LOGN: u32 = 9;

        let tmp_len = falcon_tmpsize_verify(LOGN);
        let mut tmp = vec![0u8; tmp_len];
        let sig_bytes = sig.as_bytes();

        let mut hd = InnerShake256Context::new();
        let rc = falcon_verify_start(&mut hd, sig_bytes);
        if rc != 0 {
            return Err(Error::auth(&format!("falcon-rs low-level error: {rc}")));
        }

        shake256_inject(&mut hd, &[0x00u8, self.context.len() as u8]);
        if !self.context.is_empty() {
            shake256_inject(&mut hd, &self.context);
        }
        shake256_inject(&mut hd, msg);

        let rc = falcon_verify_finish(sig_bytes, FALCON_SIG_PADDED, pk.as_bytes(), &mut hd, &mut tmp);
        if rc != 0 {
            return Err(Error::auth(&format!("falcon-rs low-level error: {rc}")));
        }
        Ok(())
    }
}

fn make_forged_jwt_with_context(context: &[u8]) -> (String, Actor<String>) {
    let backend = SharedBackend::FalconRs(FalconRsBackend);
    let keypair = FalconRsBackend.generate().unwrap();

    let verifier_actor = Actor::<String>::with_verifying_key(
        "alice".to_string(),
        VerifyingKey::falcon512_with(keypair.public.clone(), backend),
    );

    let now = span(SystemTime::now());
    let token = new_token("example.com", now, 30, "alice", ());

    let header_json = "{\"alg\":\"FN-DSA-512\",\"typ\":\"JWT\"}";
    let header_b64 = BASE64_STANDARD.encode(header_json.as_bytes());
    let body_b64 = BASE64_STANDARD.encode(token_json(&token).unwrap());
    let message = format!("{header_b64}.{body_b64}");

    let custom_backend = CustomContextBackend::new(context);
    let sig = custom_backend.sign(&keypair.private, message.as_bytes()).unwrap();
    let sig_b64 = BASE64_STANDARD.encode(sig.to_bytes());
    let jwt = format!("{message}.{sig_b64}");

    (jwt, verifier_actor)
}

fn assert_forged_rejected(context: &[u8]) {
    let (jwt, verifier_actor) = make_forged_jwt_with_context(context);
    let now = span(SystemTime::now());

    let mut resolver = TestResolver::new("example.com");
    resolver.add(verifier_actor);

    let result = resolver.verify::<()>(jwt, now);
    assert!(matches!(result, Err(Error::Auth(_))), "expected Err(Error::Auth(_)), got {:?}", result);
}

#[test]
fn test_falcon_context_none_does_not_verify_as_rjwt() {
    assert_forged_rejected(b"");
}

#[test]
fn test_falcon_context_other_does_not_verify_as_rjwt() {
    assert_forged_rejected(b"other-protocol");
}

#[test]
fn test_falcon_context_rjwt_v2_does_not_verify_under_v1() {
    assert_forged_rejected(b"rjwt-v2");
}

#[test]
fn test_alg_header_matches_actor_key_mismatch() {
    let host = "example.com".to_string();
    let falcon = falcon_actor("alice");
    let now = span(SystemTime::now());

    let token = new_token(&host, now, 30, falcon.id(), ());
    let signed = falcon.sign_token(token, header_json, token_json).unwrap();

    let ed25519_actor =
        Actor::with_verifying_key("alice".to_string(), Actor::<String>::new("alice".to_string()).verifying_key());

    let mut resolver = TestResolver::new(&host);
    resolver.add(ed25519_actor);

    let result = resolver.verify::<()>(signed.jwt().to_string(), now);
    assert!(matches!(result, Err(Error::Auth(_))), "expected Err(Error::Auth), got {:?}", result);
}

// ── further scenarios ───────────────────────────────────────────────────────

fn ed_actor(id: &str) -> Actor<String> {
    Actor::new(id.to_string())
}

#[test]
fn signed_token_reads_back() {
    let actor = ed_actor("bob");
    let now = secs(1_000);
    let token = new_token("example.com", now, 30, "bob", "read".to_string());
    let body = token_json(&token).unwrap();
    let signed = actor.sign_token(token, header_json, token_json::<String>).unwrap();
    let jwt = signed.jwt();

    let (dot, header) = decode_header_part(jwt).unwrap();
    assert_eq!(header, b"{\"alg\":\"EdDSA\",\"typ\":\"JWT\"}".to_vec());
    assert_eq!(&jwt[..dot], BASE64_STANDARD.encode(&header));
    let header = parse_header(&header).unwrap();
    assert_eq!(header, TokenHeader { alg: Some("EdDSA".to_string()), typ: "JWT".to_string() });
    let (alg, decoded_body) = decode_body_part(jwt, dot, &header).unwrap();
    assert_eq!(alg, AlgKind::Ed25519);
    assert_eq!(decoded_body, body);
    assert_eq!(
        String::from_utf8(body).unwrap(),
        "{\"iss\":\"example.com\",\"iat\":1000,\"exp\":1030,\"actor_id\":\"bob\",\"custom\":\"read\",\"inherit\":null}"
    );

    let (message, signature) = token_signature(jwt, AlgKind::Ed25519).unwrap();
    let i = jwt.rfind('.').unwrap();
    assert_eq!(message, jwt[..i].as_bytes().to_vec());
    assert_eq!(BASE64_STANDARD.encode(signature.to_bytes()), &jwt[i + 1..]);
    assert!(actor.verifying_key().verify(&message, &signature).is_ok());

    assert_eq!(signed.expires().as_secs(), 1030);
    assert_eq!(signed.clone().into_jwt(), jwt.to_string());
    assert_eq!(signed.claims().get(&"example.com".to_string(), &"bob".to_string()), Some(&"read".to_string()));
}

#[test]
fn header_json_names_the_algorithm() {
    let actor = falcon_actor("f");
    let token = new_token("h", secs(5), 30, "f", ());
    let signed = actor.sign_token(token, header_json, token_json).unwrap();
    let (_, header) = decode_header_part(signed.jwt()).unwrap();
    assert_eq!(header, b"{\"alg\":\"FN-DSA-512\",\"typ\":\"JWT\"}".to_vec());
    let (_, signature) = token_signature(signed.jwt(), AlgKind::Falcon512).unwrap();
    assert_eq!(signature.alg(), AlgKind::Falcon512);
}

#[test]
fn verify_roundtrip_and_chain_claims() {
    let now = span(SystemTime::now());
    let bob = ed_actor("bob");
    let app = ed_actor("app");

    let token = new_token("example.com", now, 30, "bob", "bob claim".to_string());
    let signed = bob.sign_token(token, header_json, token_json::<String>).unwrap();
    let root_exp = signed.expires().as_secs();

    let mut example = TestResolver::new("example.com");
    example.add(bob.clone());
    let verified = example.verify::<String>(signed.jwt().to_string(), now).unwrap();
    assert_eq!(verified.jwt(), signed.jwt());
    assert_eq!(verified.expires().as_secs(), root_exp);

    let later = TimeSpan::new(now.as_secs() + 1, now.subsec_nanos());
    let child = app
        .consume_and_sign(verified, "retailer.com".to_string(), "app claim".to_string(), later, header_json, token_json::<String>)
        .unwrap();
    assert_eq!(child.expires().as_secs(), root_exp);

    let (_, child_token) = decode_token::<String>(child.jwt()).unwrap();
    assert_eq!(child_token.inherit().as_deref(), Some(signed.jwt()));
    assert_eq!(child_token.iat(), later.as_secs());
    assert_eq!(child_token.exp(), root_exp);

    let mut resolver = TestResolver::new("example.com");
    resolver.add(bob.clone());
    resolver.hostname = "retailer.com".to_string();
    resolver.add(app.clone());
    let verified = resolver.verify::<String>(child.jwt().to_string(), later).unwrap();
    let claims = verified.claims();
    assert_eq!(claims.get(&"example.com".to_string(), &"bob".to_string()), Some(&"bob claim".to_string()));
    assert_eq!(claims.get(&"retailer.com".to_string(), &"app".to_string()), Some(&"app claim".to_string()));
    assert_eq!(claims.get(&"retailer.com".to_string(), &"bob".to_string()), None);

    let mut iter = claims.iter();
    let (h, a, c) = iter.next().unwrap();
    assert_eq!((h.as_str(), a.as_str(), c.as_str()), ("retailer.com", "app", "app claim"));
    let (h, a, c) = iter.next().unwrap();
    assert_eq!((h.as_str(), a.as_str(), c.as_str()), ("example.com", "bob", "bob claim"));
    assert!(iter.next().is_none());
    assert!(iter.next().is_none());
}

#[test]
fn newest_claim_of_a_pair_wins() {
    let now = span(SystemTime::now());
    let bob = ed_actor("bob");
    let token = new_token("example.com", now, 30, "bob", "first".to_string());
    let signed = bob.sign_token(token, header_json, token_json::<String>).unwrap();
    let again = bob
        .consume_and_sign(signed, "example.com".to_string(), "second".to_string(), now, header_json, token_json::<String>)
        .unwrap();
    let mut resolver = TestResolver::new("example.com");
    resolver.add(bob.clone());
    let verified = resolver.verify::<String>(again.jwt().to_string(), now).unwrap();
    assert_eq!(verified.claims().get(&"example.com".to_string(), &"bob".to_string()), Some(&"second".to_string()));
}

#[test]
fn a_recursive_token_cannot_extend_the_expiration() {
    let now = secs(span(SystemTime::now()).as_secs());
    let root = ed_actor("root");
    let outer = ed_actor("outer");
    let token = new_token("h", now, 30, "root", ());
    let signed_root = root.sign_token(token, header_json, token_json).unwrap();
    let exp = signed_root.expires().as_secs();
    let longer = Token::from_parts(
        "h".to_string(),
        now.as_secs(),
        exp + 10,
        "outer".to_string(),
        (),
        Some(signed_root.jwt().to_string()),
    );
    let signed_outer = outer.sign_token(longer, header_json, token_json).unwrap();
    let mut resolver = TestResolver::new("h");
    resolver.add(root.clone());
    resolver.add(outer.clone());
    match resolver.verify::<()>(signed_outer.jwt().to_string(), now) {
        Err(Error::Time(m)) => assert_eq!(m, "cannot extend the expiration time of a recursive token"),
        other => panic!("expected a time error, got {:?}", other),
    }

    let same = Token::from_parts("h".to_string(), now.as_secs(), exp, "outer".to_string(), (), Some(signed_root.jwt().to_string()));
    let signed_same = outer.sign_token(same, header_json, token_json).unwrap();
    let verified = resolver.verify::<()>(signed_same.jwt().to_string(), now).unwrap();
    assert_eq!(verified.expires().as_secs(), exp);
}

#[test]
fn expiry_and_issue_bounds() {
    let token = new_token("h", secs(100), 30, "a", ());
    assert!(token.is_expired(secs(99)));
    assert!(!token.is_expired(secs(100)));
    assert!(!token.is_expired(secs(129)));
    assert!(token.is_expired(secs(130)));

    let actor = ed_actor("a");
    let signed = actor.sign_token(new_token("h", secs(100), 30, "a", ()), header_json, token_json).unwrap();
    let mut resolver = TestResolver::new("h");
    resolver.add(actor.clone());
    match resolver.verify::<()>(signed.jwt().to_string(), secs(130)) {
        Err(Error::Time(m)) => assert_eq!(m, "token is expired"),
        other => panic!("expected a time error, got {:?}", other),
    }
    assert!(matches!(resolver.verify::<()>(signed.jwt().to_string(), secs(99)), Err(Error::Time(_))));
    assert!(resolver.verify::<()>(signed.jwt().to_string(), secs(129)).is_ok());
}

#[test]
fn expiration_carries_nanoseconds() {
    let iat = TimeSpan::new(10, 600_000_000);
    let token = Token::new("h".to_string(), iat, TimeSpan::new(0, 500_000_000), "a".to_string(), ());
    assert_eq!(token.iat(), 10);
    assert_eq!(token.exp(), 11);
    let token = Token::new("h".to_string(), iat, TimeSpan::new(0, 300_000_000), "a".to_string(), ());
    assert_eq!(token.exp(), 10);
    let span = TimeSpan::new(1, 2_500_000_000);
    assert_eq!(span.as_secs(), 3);
    assert_eq!(span.subsec_nanos(), 500_000_000);
    assert_eq!(*token.issuer(), "h".to_string());
    assert_eq!(*token.actor_id(), "a".to_string());
    assert!(token.inherit().is_none());
    let (iss, iat, exp, actor_id, custom, inherit) = token.into_parts();
    assert_eq!((iss.as_str(), iat, exp, actor_id.as_str(), custom, inherit), ("h", 10, 10, "a", (), None));
}

#[test]
fn each_error_kind_of_verification() {
    let now = secs(1_000);
    let actor = ed_actor("a");
    let signed = actor.sign_token(new_token("h", now, 30, "a", ()), header_json, token_json).unwrap();
    let mut resolver = TestResolver::new("h");
    resolver.add(actor.clone());

    match resolver.verify::<()>("no dots here".to_string(), now) {
        Err(Error::Format(m)) => assert_eq!(m, "invalid token: no dots here"),
        other => panic!("expected a format error, got {:?}", other),
    }
    // The header pass reports a malformed structure as a format error; the
    // token check itself keeps the base64 and JSON kinds.
    assert!(matches!(resolver.verify::<()>("!!!.a.b".to_string(), now), Err(Error::Format(_))));
    assert!(matches!(decode_header_part("!!!.a.b"), Err(Error::Base64(_))));

    let header = BASE64_STANDARD.encode(b"{\"alg\":\"EdDSA\",\"typ\":\"JWT\"}");
    let body = BASE64_STANDARD.encode(b"not json");
    assert!(matches!(resolver.verify::<()>(format!("{header}.{body}.sig"), now), Err(Error::Format(_))));
    let not_base64 = format!("{header}.!!!.sig");
    assert!(matches!(resolver.verify::<()>(not_base64, now), Err(Error::Format(_))));

    let bad_typ = BASE64_STANDARD.encode(b"{\"alg\":\"EdDSA\",\"typ\":\"JWS\"}");
    match resolver.verify::<()>(format!("{bad_typ}.{body}.sig"), now) {
        Err(Error::Format(m)) => assert_eq!(m, "unsupported token type: JWS"),
        other => panic!("expected a format error, got {:?}", other),
    }

    match token_signature(&format!("{}.", signed.jwt()), AlgKind::Ed25519) {
        Err(Error::Format(m)) => assert_eq!(m, "encoded token cannot end with ."),
        other => panic!("expected a format error, got {:?}", other.map(|(m, _)| m)),
    }

    let stranger = TestResolver::new("h");
    match stranger.verify::<()>(signed.jwt().to_string(), now) {
        Err(Error::Fetch(m)) => assert_eq!(m, "\"h:a\""),
        other => panic!("expected a fetch error, got {:?}", other),
    }

    let other_key = Actor::with_verifying_key("a".to_string(), ed_actor("a").verifying_key());
    let mut wrong = TestResolver::new("h");
    wrong.add(other_key);
    match wrong.verify::<()>(signed.jwt().to_string(), now) {
        Err(Error::Auth(m)) => assert!(m.starts_with("invalid bearer token: Auth: "), "got {m}"),
        other => panic!("expected an auth error, got {:?}", other),
    }

    let impostor = Actor::with_verifying_key("b".to_string(), actor.verifying_key());
    let result = verify_with::<()>(&|_h: &String, _a: &String| Ok(impostor.clone()), signed.jwt().to_string(), now);
    match result {
        Err(Error::Auth(m)) => assert_eq!(m, "attempted to use a bearer token for a different actor"),
        other => panic!("expected an auth error, got {:?}", other),
    }
}

#[test]
fn falcon_signature_error_names_the_code() {
    let now = secs(1_000);
    let actor = falcon_actor("alice");
    let signed = actor.sign_token(new_token("h", now, 30, "alice", ()), header_json, token_json).unwrap();
    let jwt = signed.jwt();
    let i = jwt.rfind('.').unwrap();
    let tampered = format!("{}.{}", &jwt[..i], BASE64_STANDARD.encode([0u8; 666]));
    let mut resolver = TestResolver::new("h");
    resolver.add(actor.clone());
    match resolver.verify::<()>(tampered, now) {
        Err(Error::Auth(m)) => {
            assert!(m.starts_with("invalid bearer token: Auth: falcon-rs low-level error: -"), "got {m}")
        }
        other => panic!("expected an auth error, got {:?}", other),
    }
}

#[test]
fn mixed_chain_message_is_exact() {
    let now = span(SystemTime::now());
    let signed = mixed_chain(ed_actor("inner"), &falcon_actor("outer"), now);
    let resolver = TestResolver::new("outer.com");
    match resolver.verify::<()>(signed.jwt().to_string(), now) {
        Err(Error::Auth(m)) => assert_eq!(m, "mixed-algorithm chains are not supported"),
        other => panic!("expected an auth error, got {:?}", other),
    }
}

#[test]
fn uniform_scan_reports_the_algorithm() {
    let now = span(SystemTime::now());
    let root = falcon_actor("root");
    let relay = falcon_actor("relay");
    let signed = root.sign_token(new_token("a.com", now, 30, "root", ()), header_json, token_json).unwrap();
    let mut first = TestResolver::new("a.com");
    first.add(root.clone());
    let verified = first.verify::<()>(signed.jwt().to_string(), now).unwrap();
    let child = relay.consume_and_sign(verified, "b.com".to_string(), (), now, header_json, token_json).unwrap();

    let (mut scan, mut header) = AlgScan::begin(child.jwt().to_string()).unwrap();
    let mut steps = 0;
    let chain = loop {
        steps += 1;
        match scan.step(parse_header(&header)).unwrap() {
            ScanStep::Next(next, h) => {
                scan = next;
                header = h;
            }
            ScanStep::Done(chain) => break chain,
        }
    };
    assert_eq!(steps, 2);
    assert_eq!(chain.alg(), AlgKind::Falcon512);
    assert_eq!(chain.encoded(), child.jwt());
}

#[test]
fn signing_needs_a_private_key() {
    let actor = ed_actor("a");
    let public = actor.clone();
    assert!(actor.has_private_key());
    assert!(!public.has_private_key());
    assert_eq!(public.id(), "a");
    match public.sign_token(new_token("h", secs(1), 30, "a", ()), header_json, token_json) {
        Err(Error::Auth(m)) => assert_eq!(m, "cannot sign a token without a private key"),
        other => panic!("expected an auth error, got {:?}", other),
    }
    let signed = actor.sign_token(new_token("h", secs(1), 30, "a", ()), header_json, token_json).unwrap();
    match public.consume_and_sign(signed, "h".to_string(), (), secs(2), header_json, token_json) {
        Err(Error::Auth(m)) => assert_eq!(m, "cannot sign a token without a private key"),
        other => panic!("expected an auth error, got {:?}", other),
    }
}

#[test]
fn json_refusal_is_a_json_error() {
    let actor = ed_actor("a");
    let refuse = |_t: &Token<String, String, ()>| -> Result<Vec<u8>, String> { Err("no json".to_string()) };
    match actor.sign_token(new_token("h", secs(1), 30, "a", ()), header_json, refuse) {
        Err(Error::Json(m)) => assert_eq!(m, "no json"),
        other => panic!("expected a json error, got {:?}", other),
    }
    let refuse_header = |_h: &TokenHeader| -> Result<Vec<u8>, String> { Err("no header".to_string()) };
    match actor.sign_token(new_token("h", secs(1), 30, "a", ()), refuse_header, token_json) {
        Err(Error::Json(m)) => assert_eq!(m, "no header"),
        other => panic!("expected a json error, got {:?}", other),
    }
}

#[test]
fn clone_of_an_ed25519_actor_verifies() {
    let actor = ed_actor("a");
    let cloned = actor.clone();
    let signed = actor.sign_token(new_token("h", secs(1), 30, "a", ()), header_json, token_json).unwrap();
    let (message, signature) = token_signature(signed.jwt(), AlgKind::Ed25519).unwrap();
    assert!(cloned.verifying_key().verify(&message, &signature).is_ok());
    assert_eq!(cloned.id(), actor.id());
    assert!(!cloned.has_private_key());
    assert!(actor.has_private_key());
    assert_eq!(cloned.verifying_key().to_bytes(), actor.verifying_key().to_bytes());
    assert_eq!(cloned.verifying_key().to_bytes().len(), 32);
    match cloned.sign_token(new_token("h", secs(1), 30, "a", ()), header_json, token_json) {
        Err(Error::Auth(m)) => assert_eq!(m, "cannot sign a token without a private key"),
        other => panic!("expected an auth error, got {:?}", other.map(|t| t.jwt().to_string())),
    }
    let with_key = Actor::with_signing_key("b".to_string(), rjwt::SigningKey::generate_ed25519());
    assert!(with_key.has_private_key());
}

#[test]
fn key_of_another_algorithm_is_refused() {
    let now = secs(1_000);
    let falcon = falcon_actor("alice");
    let signed = falcon.sign_token(new_token("h", now, 30, "alice", ()), header_json, token_json).unwrap();
    let ed = Actor::with_verifying_key("alice".to_string(), ed_actor("alice").verifying_key());
    let mut resolver = TestResolver::new("h");
    resolver.add(ed);
    match resolver.verify::<()>(signed.jwt().to_string(), now) {
        Err(Error::Auth(m)) => {
            assert_eq!(m, "invalid bearer token: Auth: verifying key and signature algorithm mismatch")
        }
        other => panic!("expected an auth error, got {:?}", other),
    }
}

#[test]
fn header_part_is_standard_base64() {
    let actor = ed_actor("a");
    let signed = actor.sign_token(new_token("h", secs(1), 30, "a", ()), header_json, token_json).unwrap();
    assert!(signed.jwt().starts_with("eyJhbGciOiJFZERTQSIsInR5cCI6IkpXVCJ9."));
}
