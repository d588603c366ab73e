//! Recursive JSON Web Tokens signed with Ed25519 or Falcon-512.
//!
//! An [`Actor`] signs a [`Token`] into a [`SignedToken`]; another actor may
//! consume a signed token and sign a new one that inherits it, so that a token
//! carries a chain of [`Claims`], newest first. Verifying a token walks its
//! chain twice: [`AlgScan`] reads every header and refuses a chain whose tokens
//! name different algorithms, then [`ChainCheck`] checks each token against
//! the actor that a resolver gives for it and assembles the claims.
//!
//! JSON (de)serialization and the resolver are the caller's: the signing
//! functions take a function that gives a token's JSON, and the verification
//! steps take the parsed header, body and resolved actor as their inputs.

mod actor;
mod b64;
mod claims;
mod ed25519;
mod error;
mod falcon512;
mod frame;
mod sig;
mod text;
mod time;
mod token;
mod verify;

pub use actor::{default_falcon_backend, Actor};
pub use claims::{Claims, Iter};
pub use ed25519::{Ed25519Signature, Ed25519SigningKey, Ed25519VerifyingKey};
pub use error::{Error, ErrorKind};
pub use falcon512::{
    domain_message, keypair_from_keygen, signature_from_code, Falcon512Backend, Falcon512KeyPair, Falcon512PrivateKey, Falcon512PublicKey,
    Falcon512Signature, FalconRsBackend, SharedBackend, PRIVATE_KEY_LEN, PUBLIC_KEY_LEN,
    RJWT_FALCON_CONTEXT, SIGNATURE_LEN,
};
pub use rand::rngs::OsRng;
pub use sig::{parse_alg, AlgKind, Signature, SigningKey, VerifyingKey};
pub use time::TimeSpan;
pub use token::{
    decode_body_part, decode_header_part, token_signature, SignedToken, Token, TokenHeader,
};
pub use verify::{
    AlgScan, AwaitActor, AwaitBody, ChainCheck, ChainProgress, ChainStep, ScanStep, UniformChain,
};
