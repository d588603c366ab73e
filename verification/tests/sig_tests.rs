use rjwt::{
    domain_message, parse_alg, AlgKind, Error, ErrorKind, Falcon512PrivateKey, Falcon512PublicKey,
    Falcon512Signature, Signature, SigningKey, VerifyingKey, RJWT_FALCON_CONTEXT,
};

#[test]
fn test_sig_signing_key_generate_ed25519() {
    let sk = SigningKey::generate_ed25519();
    let sig = sk.sign(b"hello").unwrap();
    let vk = sk.verifying_key();
    assert!(vk.verify(b"hello", &sig).is_ok());
}

#[test]
fn test_sig_verifying_key_ed25519_roundtrip() {
    let sk = SigningKey::generate_ed25519();
    let vk = sk.verifying_key();
    let bytes = vk.to_bytes();
    let vk2 = VerifyingKey::from_bytes(AlgKind::Ed25519, &bytes).unwrap();
    let sig = sk.sign(b"roundtrip").unwrap();
    assert!(vk2.verify(b"roundtrip", &sig).is_ok());
}

#[test]
fn test_sig_signature_from_bytes_ed25519() {
    let sk = SigningKey::generate_ed25519();
    let sig = sk.sign(b"test message").unwrap();
    let bytes = sig.to_bytes();
    let sig2 = Signature::from_bytes(AlgKind::Ed25519, &bytes).unwrap();
    let vk = sk.verifying_key();
    assert!(vk.verify(b"test message", &sig2).is_ok());
}

#[test]
fn test_falcon_public_key_from_bytes_wrong_length() {
    let result = Falcon512PublicKey::from_bytes(&[0u8; 100]);
    assert!(matches!(result, Err(Error::Format(_))));
    let result = Falcon512PublicKey::from_bytes(&[0u8; 897]);
    assert!(result.is_ok());
}

#[test]
fn test_falcon_signature_from_bytes_wrong_length() {
    let result = Falcon512Signature::from_bytes(&[0u8; 100]);
    assert!(matches!(result, Err(Error::Format(_))));
    let result = Falcon512Signature::from_bytes(&[0u8; 666]);
    assert!(result.is_ok());
    let result = Falcon512Signature::from_bytes(&[0u8; 665]);
    assert!(matches!(result, Err(Error::Format(_))));
    let result = Falcon512Signature::from_bytes(&[0u8; 667]);
    assert!(matches!(result, Err(Error::Format(_))));
}

#[test]
fn test_falcon_public_key_byte_roundtrip() {
    let some_897_bytes = [42u8; 897];
    let pk = Falcon512PublicKey::from_bytes(&some_897_bytes).unwrap();
    assert_eq!(pk.as_bytes(), &some_897_bytes[..]);
}

#[test]
fn test_sig_signature_from_bytes_falcon() {
    let result = Signature::from_bytes(AlgKind::Falcon512, &[0u8; 666]);
    let sig = result.unwrap();
    assert_eq!(sig.alg(), AlgKind::Falcon512);
    let result = Signature::from_bytes(AlgKind::Falcon512, &[0u8; 100]);
    assert!(matches!(result, Err(Error::Format(_))));
}

#[test]
fn test_alg_kind_jwt_name_roundtrip() {
    for alg in [AlgKind::Ed25519, AlgKind::Falcon512] {
        assert_eq!(AlgKind::from_jwt_name(alg.jwt_name()).unwrap(), alg);
    }
}

#[test]
fn jwt_names_are_exact() {
    assert_eq!(AlgKind::Ed25519.jwt_name(), "EdDSA");
    assert_eq!(AlgKind::Falcon512.jwt_name(), "FN-DSA-512");
    match AlgKind::from_jwt_name("RS256") {
        Err(Error::Format(m)) => assert_eq!(m, "unsupported alg: RS256"),
        other => panic!("expected a format error, got {:?}", other),
    }
    assert!(AlgKind::from_jwt_name("eddsa").is_err());
}

#[test]
fn length_errors_name_the_length() {
    match Falcon512PublicKey::from_bytes(&[0u8; 100]) {
        Err(Error::Format(m)) => assert_eq!(m, "Falcon-512 public key must be 897 bytes, got 100"),
        _ => panic!("expected a format error"),
    }
    match Falcon512PublicKey::from_bytes(&[]) {
        Err(Error::Format(m)) => assert_eq!(m, "Falcon-512 public key must be 897 bytes, got 0"),
        _ => panic!("expected a format error"),
    }
    match Falcon512PublicKey::from_bytes(&[0u8; 1000]) {
        Err(Error::Format(m)) => assert_eq!(m, "Falcon-512 public key must be 897 bytes, got 1000"),
        _ => panic!("expected a format error"),
    }
    match Falcon512PrivateKey::from_bytes(&[0u8; 12]) {
        Err(Error::Format(m)) => assert_eq!(m, "Falcon-512 private key must be 1281 bytes, got 12"),
        _ => panic!("expected a format error"),
    }
    match Falcon512Signature::from_bytes(&[0u8; 665]) {
        Err(Error::Format(m)) => {
            assert_eq!(m, "Falcon-512 signature must be exactly 666 bytes (PADDED format), got 665")
        }
        _ => panic!("expected a format error"),
    }
    match Signature::from_bytes(AlgKind::Ed25519, &[1u8; 63]) {
        Err(Error::Format(m)) => assert_eq!(m, "Ed25519 signature must be 64 bytes, got 63"),
        _ => panic!("expected a format error"),
    }
    match VerifyingKey::from_bytes(AlgKind::Ed25519, &[1u8; 31]) {
        Err(Error::Format(m)) => assert_eq!(m, "Ed25519 verifying key must be 32 bytes, got 31"),
        _ => panic!("expected a format error"),
    }
}

#[test]
fn falcon_verifying_key_needs_a_backend() {
    match VerifyingKey::from_bytes(AlgKind::Falcon512, &[0u8; 897]) {
        Err(e) => {
            assert_eq!(e.kind(), ErrorKind::Auth);
            assert_eq!(
                e.message(),
                "Falcon-512 verifying keys require a backend; use VerifyingKey::falcon512_with"
            );
        }
        Ok(_) => panic!("a Falcon-512 key needs a backend"),
    }
}

#[test]
fn private_key_byte_roundtrip() {
    let bytes = [7u8; 1281];
    let sk = Falcon512PrivateKey::from_bytes(&bytes).unwrap();
    assert_eq!(sk.as_bytes(), &bytes[..]);
}

#[test]
fn signature_bytes_roundtrip() {
    let bytes = [9u8; 666];
    let sig = Falcon512Signature::from_bytes(&bytes).unwrap();
    assert_eq!(sig.as_bytes(), &bytes[..]);
    assert_eq!(sig.to_bytes(), bytes);
    let sig = Signature::from_bytes(AlgKind::Falcon512, &bytes).unwrap();
    assert_eq!(sig.to_bytes(), bytes.to_vec());
}

#[test]
fn ed25519_signature_is_deterministic_and_bound_to_the_message() {
    let sk = SigningKey::generate_ed25519();
    let a = sk.sign(b"one").unwrap();
    let b = sk.sign(b"one").unwrap();
    assert_eq!(a.to_bytes(), b.to_bytes());
    assert_eq!(a.to_bytes().len(), 64);
    let vk = sk.verifying_key();
    assert_eq!(vk.to_bytes().len(), 32);
    match vk.verify(b"two", &a) {
        Err(e) => assert_eq!(e.kind(), ErrorKind::Auth),
        Ok(()) => panic!("a signature of another message must not verify"),
    }
}

#[test]
fn ed25519_key_of_other_actor_rejects() {
    let sk = SigningKey::generate_ed25519();
    let other = SigningKey::generate_ed25519();
    let sig = sk.sign(b"msg").unwrap();
    assert!(other.verifying_key().verify(b"msg", &sig).is_err());
}

#[test]
fn algorithm_mismatch_is_refused() {
    let sk = SigningKey::generate_ed25519();
    let vk = sk.verifying_key();
    let falcon_sig = Signature::from_bytes(AlgKind::Falcon512, &[0u8; 666]).unwrap();
    match vk.verify(b"msg", &falcon_sig) {
        Err(Error::Auth(m)) => assert_eq!(m, "verifying key and signature algorithm mismatch"),
        other => panic!("expected an auth error, got {:?}", other),
    }
    assert_eq!(sk.alg(), AlgKind::Ed25519);
    assert_eq!(vk.alg(), AlgKind::Ed25519);
}

#[test]
fn falcon_domain_message_prefix() {
    let m = domain_message(b"abc");
    assert_eq!(&RJWT_FALCON_CONTEXT, b"rjwt-v1");
    let mut expected = vec![0u8, 7u8];
    expected.extend_from_slice(b"rjwt-v1");
    expected.extend_from_slice(b"abc");
    assert_eq!(m, expected);
}

#[test]
fn parse_alg_names() {
    assert_eq!(parse_alg(None).unwrap(), AlgKind::Falcon512);
    assert_eq!(parse_alg(Some("Falcon-512")).unwrap(), AlgKind::Falcon512);
    assert_eq!(parse_alg(Some("FN-DSA-512")).unwrap(), AlgKind::Falcon512);
    assert_eq!(parse_alg(Some("falcon512")).unwrap(), AlgKind::Falcon512);
    assert_eq!(parse_alg(Some("EdDSA")).unwrap(), AlgKind::Ed25519);
    assert_eq!(parse_alg(Some("ED25519")).unwrap(), AlgKind::Ed25519);
    assert_eq!(
        parse_alg(Some("RS256")).unwrap_err(),
        "unsupported signature algorithm: rs256"
    );
    assert_eq!(
        parse_alg(Some("ÉD-Ω25519 ZED")).unwrap_err(),
        "unsupported signature algorithm: Éd-Ω25519 zed"
    );
    assert_eq!(parse_alg(Some("")).unwrap_err(), "unsupported signature algorithm: ");
}

#[test]
fn error_accessors() {
    let e = Error::new(ErrorKind::Time, "late".to_string());
    assert_eq!(e.kind(), ErrorKind::Time);
    assert_eq!(e.message(), "late");
    assert_eq!(e.to_text(), "Time: late");
    let (kind, message) = e.into_inner();
    assert_eq!(kind, ErrorKind::Time);
    assert_eq!(message, "late");
    assert!(matches!(Error::auth("no"), Error::Auth(m) if m == "no"));
    assert!(matches!(Error::format("bad"), Error::Format(m) if m == "bad"));
    assert!(matches!(Error::fetch("host:id"), Error::Fetch(m) if m == "\"host:id\""));
    assert_eq!(Error::fetch("a\"b").to_text(), "Fetch: \"a\\\"b\"");
    for (kind, name) in [
        (ErrorKind::Auth, "Auth"),
        (ErrorKind::Base64, "Base64"),
        (ErrorKind::Fetch, "Fetch"),
        (ErrorKind::Format, "Format"),
        (ErrorKind::Json, "Json"),
        (ErrorKind::Time, "Time"),
    ] {
        assert_eq!(kind.name(), name);
        assert_eq!(Error::new(kind, "m".to_string()).to_text(), format!("{name}: m"));
    }
}

#[test]
fn header_for_an_algorithm() {
    let h = rjwt::TokenHeader::for_alg(AlgKind::Falcon512);
    assert_eq!(h.alg.as_deref(), Some("FN-DSA-512"));
    assert_eq!(h.typ, "JWT");
    let h = rjwt::TokenHeader::for_alg(AlgKind::Ed25519);
    assert_eq!(h.alg.as_deref(), Some("EdDSA"));
}

#[test]
fn outcomes_of_falcon_calls() {
    let sig = rjwt::signature_from_code(0, &[3u8; 666]).unwrap();
    assert_eq!(sig.as_bytes(), &[3u8; 666][..]);
    match rjwt::signature_from_code(-4, &[3u8; 666]) {
        Err(Error::Auth(m)) => assert_eq!(m, "falcon-rs low-level error: -4"),
        _ => panic!("expected an auth error"),
    }
    match rjwt::keypair_from_keygen(Err("RandomError".to_string())) {
        Err(Error::Auth(m)) => assert_eq!(m, "falcon-rs: RandomError"),
        _ => panic!("expected an auth error"),
    }
    let kp = rjwt::keypair_from_keygen(Ok((vec![1u8; 897], vec![2u8; 1281]))).unwrap();
    assert_eq!(kp.public.as_bytes(), &[1u8; 897][..]);
    assert_eq!(kp.private.as_bytes(), &[2u8; 1281][..]);
    match rjwt::keypair_from_keygen(Ok((vec![1u8; 10], vec![2u8; 1281]))) {
        Err(Error::Format(m)) => assert_eq!(m, "Falcon-512 public key must be 897 bytes, got 10"),
        _ => panic!("expected a format error"),
    }
    match rjwt::keypair_from_keygen(Ok((vec![1u8; 897], vec![2u8; 5]))) {
        Err(Error::Format(m)) => assert_eq!(m, "Falcon-512 private key must be 1281 bytes, got 5"),
        _ => panic!("expected a format error"),
    }
}
