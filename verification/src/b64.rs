use base64::prelude::BASE64_STANDARD;
use base64::Engine;
use vstd::prelude::*;

verus! {

/// A byte of the standard base64 alphabet (RFC 4648), or the padding byte `=`.
pub open spec fn is_b64_byte(b: u8) -> bool {
    ||| 65 <= b <= 90
    ||| 97 <= b <= 122
    ||| 48 <= b <= 57
    ||| b == 43
    ||| b == 47
    ||| b == 61
}

/// Every byte of `s` is of the base64 alphabet or `=`.
pub open spec fn all_b64_bytes(s: Seq<u8>) -> bool {
    forall|i: int| 0 <= i < s.len() ==> is_b64_byte(#[trigger] s[i])
}

/// `text` decodes to `data` with the standard engine.
pub open spec fn decodes_to(text: Seq<u8>, data: Seq<u8>) -> bool {
    b64_decoding(text) == Ok::<Seq<u8>, Seq<char>>(data)
}

/// The byte of the standard base64 alphabet for the six-bit value `v`.
pub open spec fn b64_symbol(v: int) -> u8 {
    if v < 26 {
        (65 + v) as u8
    } else if v < 52 {
        (97 + v - 26) as u8
    } else if v < 62 {
        (48 + v - 52) as u8
    } else if v == 62 {
        43u8
    } else {
        47u8
    }
}

/// The standard base64 encoding of `data` (as ASCII bytes): each group of
/// three bytes becomes four symbols of six bits each, and a last group of one
/// or two bytes is padded with `=` to four.
pub open spec fn b64_encoding(data: Seq<u8>) -> Seq<u8>
    decreases data.len(),
{
    if data.len() == 0 {
        Seq::empty()
    } else if data.len() == 1 {
        let a = data[0] as int;
        seq![b64_symbol(a / 4), b64_symbol((a % 4) * 16), 61u8, 61u8]
    } else if data.len() == 2 {
        let a = data[0] as int;
        let b = data[1] as int;
        seq![b64_symbol(a / 4), b64_symbol((a % 4) * 16 + b / 16), b64_symbol((b % 16) * 4), 61u8]
    } else {
        let a = data[0] as int;
        let b = data[1] as int;
        let c = data[2] as int;
        seq![b64_symbol(a / 4), b64_symbol((a % 4) * 16 + b / 16), b64_symbol((b % 16) * 4 + c / 64), b64_symbol(c % 64)]
            + b64_encoding(data.subrange(3, data.len() as int))
    }
}

/// What the standard base64 engine decodes `text` to: the bytes, or the text of its error.
pub uninterp spec fn b64_decoding(text: Seq<u8>) -> Result<Seq<u8>, Seq<char>>;

/// Encode `data` with the standard base64 alphabet and padding.
///
/// Trusted: calls `base64::Engine::encode` of `BASE64_STANDARD`. The contract
/// claims what the crate documents of that engine: the output is the
/// standard padded encoding, it uses the standard alphabet and `=` only, it
/// is four characters for every started group of three bytes
/// (`base64::encoded_len` with padding), and decoding it with the same engine
/// gives `data` back.
#[verifier::external_body]
pub(crate) fn encode(data: &[u8]) -> (r: Vec<u8>)
    ensures
        r@ == b64_encoding(data@),
        r@.len() == 4 * ((data@.len() + 2) / 3),
        all_b64_bytes(r@),
        decodes_to(r@, data@),
{
    BASE64_STANDARD.encode(data).into_bytes()
}

/// Decode `text` with the standard base64 alphabet and padding.
///
/// Trusted: calls `base64::Engine::decode` of `BASE64_STANDARD` and renders a
/// `DecodeError` with its `Display` impl; the outcome is claimed to be
/// `b64_decoding` of the input, a function of the input alone.
#[verifier::external_body]
pub(crate) fn decode(text: &[u8]) -> (r: Result<Vec<u8>, String>)
    ensures
        match r {
            Ok(v) => b64_decoding(text@) == Ok::<Seq<u8>, Seq<char>>(v@),
            Err(m) => b64_decoding(text@) == Err::<Seq<u8>, Seq<char>>(m@),
        },
{
    BASE64_STANDARD.decode(text).map_err(|e| e.to_string())
}

} // verus!
