use vstd::prelude::*;
use vstd::utf8::{encode_utf8, encode_utf8_decode_utf8, is_ascii_chars, is_ascii_chars_encode_utf8};

use crate::frame::ascii_string;

verus! {

/// The decimal digit character for `d < 10`.
pub open spec fn digit_char(d: nat) -> char {
    (48 + d) as char
}

/// The decimal representation of `n`, most significant digit first, without leading zeros.
pub open spec fn decimal(n: nat) -> Seq<char>
    decreases n,
{
    if n < 10 {
        seq![digit_char(n)]
    } else {
        decimal(n / 10).push(digit_char(n % 10))
    }
}

/// The decimal representation of `n`, with a leading `-` when it is negative.
pub open spec fn signed_decimal(n: int) -> Seq<char> {
    if n < 0 {
        seq!['-'] + decimal((-n) as nat)
    } else {
        decimal(n as nat)
    }
}

/// The bytes of the ASCII characters `s`, one each.
pub open spec fn ascii_bytes(s: Seq<char>) -> Seq<u8> {
    s.map_values(|c: char| c as u8)
}

/// The decimal representation of a number is made of ASCII digits.
proof fn lemma_decimal_ascii(n: nat)
    ensures
        is_ascii_chars(decimal(n)),
        forall|i: int| 0 <= i < decimal(n).len() ==> '0' <= #[trigger] decimal(n)[i] <= '9',
    decreases n,
{
    if n >= 10 {
        lemma_decimal_ascii(n / 10);
    }
}

/// Append the ASCII digits of `n` to `out`.
fn push_decimal(n: u64, out: &mut Vec<u8>)
    ensures
        final(out)@ == old(out)@ + ascii_bytes(decimal(n as nat)),
    decreases n,
{
    let ghost before = out@;
    if n >= 10 {
        push_decimal(n / 10, out);
    }
    let d: u8 = (n % 10) as u8;
    out.push(48u8 + d);
    proof {
        let c = digit_char(d as nat);
        assert(c as u8 == 48u8 + d);
        if n >= 10 {
            assert(decimal(n as nat) == decimal((n / 10) as nat).push(c));
            assert(ascii_bytes(decimal(n as nat)) =~= ascii_bytes(decimal((n / 10) as nat)).push(c as u8));
        } else {
            assert(ascii_bytes(decimal(n as nat)) =~= seq![c as u8]);
        }
        assert(out@ =~= before + ascii_bytes(decimal(n as nat)));
    }
}

/// The text of the ASCII characters `chars`, from their bytes.
fn ascii_text(bytes: Vec<u8>, Ghost(chars): Ghost<Seq<char>>) -> (r: String)
    requires
        is_ascii_chars(chars),
        bytes@ == ascii_bytes(chars),
    ensures
        r@ == chars,
{
    proof {
        is_ascii_chars_encode_utf8(chars);
        assert(encode_utf8(chars) =~= bytes@);
        assert forall|i: int| 0 <= i < bytes@.len() implies #[trigger] bytes@[i] < 128 by {
            assert(chars[i] <= '\u{7f}');
        }
    }
    let r = ascii_string(bytes);
    proof {
        encode_utf8_decode_utf8(r@);
        encode_utf8_decode_utf8(chars);
    }
    r
}

/// Render a `usize` in decimal.
pub(crate) fn usize_to_text(n: usize) -> (r: String)
    ensures
        r@ == decimal(n as nat),
{
    let mut v: Vec<u8> = Vec::new();
    push_decimal(n as u64, &mut v);
    proof {
        lemma_decimal_ascii(n as nat);
        assert(v@ =~= ascii_bytes(decimal(n as nat)));
    }
    ascii_text(v, Ghost(decimal(n as nat)))
}

/// Render an `i32` in decimal.
pub(crate) fn i32_to_text(n: i32) -> (r: String)
    ensures
        r@ == signed_decimal(n as int),
{
    let mut v: Vec<u8> = Vec::new();
    let magnitude: u64 = if n < 0 {
        v.push(45u8);
        (0i64 - n as i64) as u64
    } else {
        n as u64
    };
    push_decimal(magnitude, &mut v);
    proof {
        lemma_decimal_ascii(magnitude as nat);
        let s = signed_decimal(n as int);
        assert(s == (if n < 0 { seq!['-'] } else { Seq::<char>::empty() }) + decimal(magnitude as nat));
        assert(v@ =~= ascii_bytes(s));
        assert forall|i: int| 0 <= i < s.len() implies '\0' <= #[trigger] s[i] <= '\u{7f}' by {
            if n < 0 && i > 0 {
                assert(s[i] == decimal(magnitude as nat)[i - 1]);
            } else if n >= 0 {
                assert(s[i] == decimal(magnitude as nat)[i]);
            }
        }
    }
    ascii_text(v, Ghost(signed_decimal(n as int)))
}

/// `prefix` followed by `suffix`.
pub(crate) fn join(prefix: &str, suffix: &str) -> (r: String)
    ensures
        r@ == prefix@ + suffix@,
{
    let mut r = String::from_str(prefix);
    r.append(suffix);
    r
}

/// A message made of `prefix` and the count `n` in decimal.
pub(crate) fn join_count(prefix: &str, n: usize) -> (r: String)
    ensures
        r@ == prefix@ + decimal(n as nat),
{
    let n_text = usize_to_text(n);
    join(prefix, n_text.as_str())
}

/// Copy a slice of exactly `N` bytes into an array.
pub(crate) fn copy_to_array<const N: usize>(bytes: &[u8]) -> (r: [u8; N])
    requires
        bytes@.len() == N,
    ensures
        r@ == bytes@,
{
    let mut r: [u8; N] = vstd::array::array_fill_for_copy_types(0u8);
    let mut i: usize = 0;
    while i < N
        invariant
            0 <= i <= N,
            bytes@.len() == N,
            r@.len() == N,
            forall|j: int| 0 <= j < i ==> r@[j] == bytes@[j],
        decreases N - i,
    {
        r[i] = bytes[i];
        i += 1;
    }
    assert(r@ =~= bytes@);
    r
}

} // verus!

verus! {

/// Whether two byte slices hold the same bytes.
pub fn bytes_eq(a: &[u8], b: &[u8]) -> (r: bool)
    ensures
        r == (a@ == b@),
{
    if a.len() != b.len() {
        return false;
    }
    let mut i: usize = 0;
    while i < a.len()
        invariant
            i <= a@.len(),
            a@.len() == b@.len(),
            forall|j: int| 0 <= j < i ==> a@[j] == b@[j],
        decreases a@.len() - i,
    {
        if a[i] != b[i] {
            return false;
        }
        i += 1;
    }
    assert(a@ =~= b@);
    true
}

/// Whether two strings are equal.
pub fn str_eq(a: &str, b: &str) -> (r: bool)
    ensures
        r == (a@ == b@),
{
    proof {
        vstd::utf8::encode_utf8_decode_utf8(a@);
        vstd::utf8::encode_utf8_decode_utf8(b@);
    }
    bytes_eq(a.as_bytes(), b.as_bytes())
}

} // verus!
