use vstd::prelude::*;
use vstd::utf8::{decode_utf8, encode_utf8, valid_utf8};

use crate::b64::{all_b64_bytes, b64_decoding, b64_encoding, decode, decodes_to, encode};

verus! {

/// The byte of `.`, which separates the parts of a JWT.
pub open spec fn dot() -> u8 {
    46u8
}

/// The index of the first `.` in `s` at or after `i`.
pub open spec fn find_dot_from(s: Seq<u8>, i: int) -> Option<int>
    decreases s.len() - i,
{
    if i < 0 || i >= s.len() {
        None
    } else if s[i] == dot() {
        Some(i)
    } else {
        find_dot_from(s, i + 1)
    }
}

/// The index of the first `.` in `s`.
pub open spec fn first_dot(s: Seq<u8>) -> Option<int> {
    find_dot_from(s, 0)
}

/// The index of the last `.` in `s` before `n`.
pub open spec fn last_dot_before(s: Seq<u8>, n: int) -> Option<int>
    decreases n,
{
    if n <= 0 || n > s.len() {
        None
    } else if s[n - 1] == dot() {
        Some(n - 1)
    } else {
        last_dot_before(s, n - 1)
    }
}

/// The index of the last `.` in `s`.
pub open spec fn last_dot(s: Seq<u8>) -> Option<int> {
    last_dot_before(s, s.len() as int)
}

/// `s` holds no `.`.
pub open spec fn no_dot(s: Seq<u8>) -> bool {
    forall|i: int| 0 <= i < s.len() ==> #[trigger] s[i] != dot()
}

/// Every byte of `s` is ASCII.
pub open spec fn all_ascii(s: Seq<u8>) -> bool {
    forall|i: int| 0 <= i < s.len() ==> #[trigger] s[i] < 128
}

/// The first `.` at or after `i` is at `k` when none stands between.
pub proof fn lemma_find_dot_at(s: Seq<u8>, i: int, k: int)
    requires
        0 <= i <= k < s.len(),
        s[k] == dot(),
        forall|j: int| i <= j < k ==> #[trigger] s[j] != dot(),
    ensures
        find_dot_from(s, i) == Some(k),
    decreases k - i,
{
    if i < k {
        lemma_find_dot_at(s, i + 1, k);
    }
}

/// No `.` at or after `i`.
pub proof fn lemma_find_dot_none(s: Seq<u8>, i: int)
    requires
        0 <= i <= s.len(),
        forall|j: int| i <= j < s.len() ==> #[trigger] s[j] != dot(),
    ensures
        find_dot_from(s, i) is None,
    decreases s.len() - i,
{
    if i < s.len() {
        lemma_find_dot_none(s, i + 1);
    }
}

/// The last `.` before `n` is at `k` when none stands after it.
pub proof fn lemma_last_dot_at(s: Seq<u8>, n: int, k: int)
    requires
        0 <= k < n <= s.len(),
        s[k] == dot(),
        forall|j: int| k < j < n ==> #[trigger] s[j] != dot(),
    ensures
        last_dot_before(s, n) == Some(k),
    decreases n - k,
{
    if k < n - 1 {
        lemma_last_dot_at(s, n - 1, k);
    }
}

/// A `.` found at or after `i` stands within `s`.
pub proof fn lemma_find_dot_range(s: Seq<u8>, i: int)
    ensures
        find_dot_from(s, i) matches Some(k) ==> i <= k < s.len() && s[k] == dot(),
    decreases s.len() - i,
{
    if 0 <= i < s.len() && s[i] != dot() {
        lemma_find_dot_range(s, i + 1);
    }
}

/// The first `.` at or after `i` is the first in `s + t` too; with none, the
/// first `.` of `s + t` at or after `i` is where `t` starts with one.
pub proof fn lemma_find_dot_extend(s: Seq<u8>, t: Seq<u8>, i: int)
    requires
        0 <= i <= s.len(),
    ensures
        find_dot_from(s, i) is Some ==> find_dot_from(s + t, i) == find_dot_from(s, i),
        (find_dot_from(s, i) is None && t.len() > 0 && t[0] == dot()) ==> find_dot_from(s + t, i) == Some(
            s.len() as int,
        ),
    decreases s.len() - i,
{
    if i < s.len() {
        assert((s + t)[i] == s[i]);
        if s[i] != dot() {
            lemma_find_dot_extend(s, t, i + 1);
        }
    } else if t.len() > 0 {
        assert((s + t)[i] == t[0]);
    }
}

/// A `.` found before `n` stands within `s`.
pub proof fn lemma_last_dot_range(s: Seq<u8>, n: int)
    ensures
        last_dot_before(s, n) matches Some(k) ==> 0 <= k < n && n <= s.len() && s[k] == dot(),
    decreases n,
{
    if 0 < n <= s.len() && s[n - 1] != dot() {
        lemma_last_dot_range(s, n - 1);
    }
}

/// The index of the first `.` in `s` at or after `from`.
pub fn find_dot(s: &[u8], from: usize) -> (r: Option<usize>)
    requires
        from <= s@.len(),
    ensures
        match r {
            Some(i) => find_dot_from(s@, from as int) == Some(i as int) && from <= i < s@.len() && s@[i as int]
                == dot(),
            None => find_dot_from(s@, from as int) is None,
        },
{
    proof {
        lemma_find_dot_range(s@, from as int);
    }
    let mut i = from;
    while i < s.len()
        invariant
            from <= i <= s@.len(),
            find_dot_from(s@, from as int) == find_dot_from(s@, i as int),
        decreases s@.len() - i,
    {
        if s[i] == 46u8 {
            return Some(i);
        }
        i += 1;
    }
    None
}

/// The index of the last `.` in `s`.
pub fn rfind_dot(s: &[u8]) -> (r: Option<usize>)
    ensures
        match r {
            Some(i) => last_dot(s@) == Some(i as int) && i < s@.len() && s@[i as int] == dot(),
            None => last_dot(s@) is None,
        },
{
    proof {
        lemma_last_dot_range(s@, s@.len() as int);
    }
    let mut n = s.len();
    while n > 0
        invariant
            n <= s@.len(),
            last_dot(s@) == last_dot_before(s@, n as int),
        decreases n,
    {
        if s[n - 1] == 46u8 {
            return Some(n - 1);
        }
        n -= 1;
    }
    None
}

/// ASCII bytes are valid UTF-8, and encoding what they decode to gives them back.
pub proof fn lemma_ascii_utf8(bytes: Seq<u8>)
    requires
        all_ascii(bytes),
    ensures
        valid_utf8(bytes),
        encode_utf8(decode_utf8(bytes)) == bytes,
{
    let chars = Seq::new(bytes.len(), |i: int| bytes[i] as char);
    assert forall|i: int| 0 <= i < chars.len() implies '\0' <= #[trigger] chars[i] <= '\u{7f}' by {
        assert(bytes[i] < 128);
    }
    vstd::utf8::is_ascii_chars_encode_utf8(chars);
    assert forall|i: int| 0 <= i < bytes.len() implies encode_utf8(chars)[i] == bytes[i] by {
        assert(chars[i] as u8 == encode_utf8(chars)[i]);
    }
    assert(encode_utf8(chars) =~= bytes);
    vstd::utf8::encode_utf8_valid_utf8(chars);
    vstd::utf8::decode_utf8_encode_utf8(bytes);
}

/// Make a string of UTF-8 bytes.
///
/// Trusted: calls `String::from_utf8`, which accepts exactly the valid UTF-8
/// byte sequences, and renders a `FromUtf8Error` with its `Display` impl.
#[verifier::external_body]
pub(crate) fn string_from_utf8(bytes: Vec<u8>) -> (r: Result<String, String>)
    ensures
        match r {
            Ok(s) => valid_utf8(bytes@) && s@ == decode_utf8(bytes@),
            Err(_) => !valid_utf8(bytes@),
        },
{
    String::from_utf8(bytes).map_err(|e| e.to_string())
}

/// The string of the ASCII bytes `bytes`.
pub fn ascii_string(bytes: Vec<u8>) -> (r: String)
    requires
        all_ascii(bytes@),
    ensures
        encode_utf8(r@) == bytes@,
{
    proof {
        lemma_ascii_utf8(bytes@);
    }
    let ghost b = bytes@;
    match string_from_utf8(bytes) {
        Ok(s) => s,
        Err(_) => {
            assert(false);
            String::new()
        },
    }
}

/// Base64 bytes are ASCII and hold no `.`.
pub proof fn lemma_b64_ascii_no_dot(s: Seq<u8>)
    requires
        all_b64_bytes(s),
    ensures
        all_ascii(s),
        no_dot(s),
{
    assert forall|i: int| 0 <= i < s.len() implies #[trigger] s[i] < 128 && s[i] != dot() by {
        assert(crate::b64::is_b64_byte(s[i]));
    }
}

/// The text of the message that is signed: the base64 of the header JSON, `.`,
/// then the base64 of the body JSON.
pub open spec fn spec_message(header: Seq<u8>, body: Seq<u8>) -> Seq<u8> {
    b64_encoding(header) + seq![dot()] + b64_encoding(body)
}

/// The bytes of a signed token: the message, `.`, then the base64 of the signature.
pub open spec fn spec_jwt_bytes(header: Seq<u8>, body: Seq<u8>, sig: Seq<u8>) -> Seq<u8> {
    spec_message(header, body) + seq![dot()] + b64_encoding(sig)
}

/// The message to sign for the header JSON `header` and the body JSON `body`.
pub fn encode_message(header: &[u8], body: &[u8]) -> (r: Vec<u8>)
    ensures
        r@ == spec_message(header@, body@),
        all_ascii(r@),
        first_dot(r@) == Some(b64_encoding(header@).len() as int),
        decodes_to(r@.subrange(0, b64_encoding(header@).len() as int), header@),
        find_dot_from(r@, b64_encoding(header@).len() as int + 1) is None,
        decodes_to(r@.subrange(b64_encoding(header@).len() as int + 1, r@.len() as int), body@),
{
    let mut r = encode(header);
    let mut b = encode(body);
    proof {
        lemma_b64_ascii_no_dot(r@);
        lemma_b64_ascii_no_dot(b@);
    }
    let ghost h64 = r@;
    let ghost b64 = b@;
    r.push(46u8);
    r.append(&mut b);
    proof {
        assert(r@ == h64 + seq![dot()] + b64);
        lemma_find_dot_at(r@, 0, h64.len() as int);
        lemma_find_dot_none(r@, h64.len() as int + 1);
        assert(r@.subrange(0, h64.len() as int) =~= h64);
        assert(r@.subrange(h64.len() as int + 1, r@.len() as int) =~= b64);
    }
    r
}

/// The token text: `message`, `.`, then the base64 of `sig`.
pub fn encode_token(message: &[u8], sig: &[u8]) -> (r: String)
    requires
        all_ascii(message@),
    ensures
        encode_utf8(r@) == message@ + seq![dot()] + b64_encoding(sig@),
        last_dot(encode_utf8(r@)) == Some(message@.len() as int),
        b64_encoding(sig@).len() == 4 * ((sig@.len() + 2) / 3),
        no_dot(b64_encoding(sig@)),
        decodes_to(encode_utf8(r@).subrange(message@.len() as int + 1, encode_utf8(r@).len() as int), sig@),
        encode_utf8(r@).subrange(0, message@.len() as int) == message@,
{
    let mut bytes = vstd::slice::slice_to_vec(message);
    let mut s = encode(sig);
    proof {
        lemma_b64_ascii_no_dot(s@);
    }
    let ghost s64 = s@;
    bytes.push(46u8);
    bytes.append(&mut s);
    let ghost all = bytes@;
    proof {
        assert(all == message@ + seq![dot()] + s64);
        assert(all_ascii(all));
        lemma_last_dot_at(all, all.len() as int, message@.len() as int);
        assert(all.subrange(message@.len() as int + 1, all.len() as int) =~= s64);
        assert(all.subrange(0, message@.len() as int) =~= message@);
    }
    ascii_string(bytes)
}

/// Decode the base64 text `text`.
pub fn decode_part(text: &[u8]) -> (r: Result<Vec<u8>, String>)
    ensures
        match r {
            Ok(v) => b64_decoding(text@) == Ok::<Seq<u8>, Seq<char>>(v@),
            Err(m) => b64_decoding(text@) == Err::<Seq<u8>, Seq<char>>(m@),
        },
{
    decode(text)
}

} // verus!
