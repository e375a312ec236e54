//! Verified text encodings used when composing URLs: lowercase hex for
//! signature tokens, decimal rendering and parsing of `u64` identifiers,
//! and the `application/x-www-form-urlencoded` byte encoding used for
//! query-string values.
//!
//! Everything here works over ASCII byte sequences; a single trusted
//! wrapper turns a finished ASCII byte vector into a `String`.

use vstd::prelude::*;
use vstd::string::*;

verus! {

/// The characters of an ASCII byte sequence, one char per byte.
pub open spec fn ascii_chars_of(bs: Seq<u8>) -> Seq<char> {
    bs.map(|i: int, b: u8| b as char)
}

/// Relies on `String::from_utf8`: decoding bytes that are all ASCII
/// yields the string with exactly those characters.
#[verifier::external_body]
fn string_from_ascii(v: Vec<u8>) -> (r: String)
    requires
        forall|i: int| 0 <= i < v@.len() ==> v@[i] < 128,
    ensures
        r@ == ascii_chars_of(v@),
{
    match String::from_utf8(v) {
        Ok(s) => s,
        Err(_) => String::new(),
    }
}

/// The ASCII byte of the lowercase hex digit for `n < 16`.
pub open spec fn hex_digit(n: u8) -> u8 {
    if n < 10 {
        (48 + n) as u8
    } else {
        (87 + n) as u8
    }
}

/// Lowercase hex encoding of a byte sequence: two digits per byte.
pub open spec fn hex_bytes_of(bs: Seq<u8>) -> Seq<u8>
    decreases bs.len(),
{
    if bs.len() == 0 {
        Seq::empty()
    } else {
        hex_bytes_of(bs.drop_last()) + seq![hex_digit(bs.last() / 16), hex_digit(bs.last() % 16)]
    }
}

/// Lowercase hex encoding of a byte sequence, as characters.
pub open spec fn hex_chars_of(bs: Seq<u8>) -> Seq<char> {
    ascii_chars_of(hex_bytes_of(bs))
}

/// A lowercase hexadecimal digit.
pub open spec fn is_lower_hex_char(c: char) -> bool {
    ('0' <= c && c <= '9') || ('a' <= c && c <= 'f')
}

/// Mapping bytes to characters distributes over concatenation.
proof fn lemma_ascii_chars_of_concat(a: Seq<u8>, b: Seq<u8>)
    ensures
        ascii_chars_of(a + b) =~= ascii_chars_of(a) + ascii_chars_of(b),
{
}

/// Hex encoding yields two lowercase hex digits per input byte.
pub proof fn lemma_hex_chars_shape(bs: Seq<u8>)
    ensures
        hex_chars_of(bs).len() == 2 * bs.len(),
        forall|i: int| 0 <= i < hex_chars_of(bs).len() ==> is_lower_hex_char(#[trigger] hex_chars_of(bs)[i]),
    decreases bs.len(),
{
    if bs.len() > 0 {
        lemma_hex_chars_shape(bs.drop_last());
        let tail = seq![hex_digit(bs.last() / 16), hex_digit(bs.last() % 16)];
        lemma_ascii_chars_of_concat(hex_bytes_of(bs.drop_last()), tail);
        assert(is_lower_hex_char(hex_digit(bs.last() / 16) as char));
        assert(is_lower_hex_char(hex_digit(bs.last() % 16) as char));
        assert forall|i: int| 0 <= i < hex_chars_of(bs).len() implies is_lower_hex_char(
            #[trigger] hex_chars_of(bs)[i],
        ) by {
            if i < hex_chars_of(bs.drop_last()).len() {
                assert(hex_chars_of(bs)[i] == hex_chars_of(bs.drop_last())[i]);
            }
        }
    }
}

/// Every byte of a hex encoding is ASCII.
proof fn lemma_hex_bytes_ascii(bs: Seq<u8>)
    ensures
        hex_bytes_of(bs).len() == 2 * bs.len(),
        forall|i: int| 0 <= i < hex_bytes_of(bs).len() ==> #[trigger] hex_bytes_of(bs)[i] < 128,
    decreases bs.len(),
{
    if bs.len() > 0 {
        lemma_hex_bytes_ascii(bs.drop_last());
    }
}

/// Lowercase hex rendering of `bytes`, two digits per byte.
pub fn hex_encode(bytes: &Vec<u8>) -> (r: String)
    ensures
        r@ == hex_chars_of(bytes@),
{
    let mut out: Vec<u8> = Vec::new();
    let mut i: usize = 0;
    while i < bytes.len()
        invariant
            i <= bytes@.len(),
            out@ == hex_bytes_of(bytes@.subrange(0, i as int)),
        decreases bytes@.len() - i,
    {
        let b = bytes[i];
        out.push(if b / 16 < 10 { 48 + b / 16 } else { 87 + b / 16 });
        out.push(if b % 16 < 10 { 48 + b % 16 } else { 87 + b % 16 });
        i = i + 1;
        proof {
            let pre = bytes@.subrange(0, i as int);
            assert(pre.drop_last() =~= bytes@.subrange(0, i - 1 as int));
            assert(out@ =~= hex_bytes_of(pre));
        }
    }
    proof {
        assert(bytes@.subrange(0, bytes@.len() as int) =~= bytes@);
        lemma_hex_bytes_ascii(bytes@);
    }
    string_from_ascii(out)
}

/// Decimal rendering of a natural number, most significant digit first.
pub open spec fn dec_bytes_of(n: nat) -> Seq<u8>
    decreases n,
{
    if n < 10 {
        seq![(48 + n) as u8]
    } else {
        dec_bytes_of(n / 10) + seq![(48 + n % 10) as u8]
    }
}

/// Decimal rendering of a natural number, as characters.
pub open spec fn dec_chars_of(n: nat) -> Seq<char> {
    ascii_chars_of(dec_bytes_of(n))
}

/// Every byte of a decimal rendering is an ASCII digit.
proof fn lemma_dec_bytes_ascii(n: nat)
    ensures
        dec_bytes_of(n).len() >= 1,
        forall|i: int| 0 <= i < dec_bytes_of(n).len() ==> #[trigger] dec_bytes_of(n)[i] < 128,
    decreases n,
{
    if n >= 10 {
        lemma_dec_bytes_ascii(n / 10);
    }
}

/// Appends the decimal digits of `n` to `out`.
fn push_dec_bytes(n: u64, out: &mut Vec<u8>)
    ensures
        final(out)@ == old(out)@ + dec_bytes_of(n as nat),
    decreases n,
{
    if n < 10 {
        out.push(48 + n as u8);
        assert(out@ =~= old(out)@ + dec_bytes_of(n as nat));
    } else {
        push_dec_bytes(n / 10, out);
        out.push(48 + (n % 10) as u8);
        assert(out@ =~= old(out)@ + dec_bytes_of(n as nat));
    }
}

/// Decimal rendering of a `u64`, as produced for ids in URLs.
pub fn u64_to_dec(n: u64) -> (r: String)
    ensures
        r@ == dec_chars_of(n as nat),
{
    let mut out: Vec<u8> = Vec::new();
    push_dec_bytes(n, &mut out);
    proof {
        lemma_dec_bytes_ascii(n as nat);
        assert(out@ =~= dec_bytes_of(n as nat));
    }
    string_from_ascii(out)
}

/// An ASCII decimal digit.
pub open spec fn is_dec_digit(c: char) -> bool {
    '0' <= c && c <= '9'
}

/// The numeric value of a decimal digit character.
pub open spec fn digit_val(c: char) -> nat {
    (c as int - 48) as nat
}

/// All characters of `s` are decimal digits.
pub open spec fn all_dec_digits(s: Seq<char>) -> bool {
    forall|i: int| 0 <= i < s.len() ==> is_dec_digit(#[trigger] s[i])
}

/// The value of a digit string, most significant digit first.
pub open spec fn digits_value(s: Seq<char>) -> nat
    decreases s.len(),
{
    if s.len() == 0 {
        0
    } else {
        digits_value(s.drop_last()) * 10 + digit_val(s.last())
    }
}

/// What parsing an unsigned 64-bit integer from text yields: an optional
/// leading `+`, then one or more decimal digits whose value fits in a
/// `u64`; anything else is rejected.
pub open spec fn parse_u64_of(s: Seq<char>) -> Option<u64> {
    let t = if s.len() > 0 && s[0] == '+' {
        s.drop_first()
    } else {
        s
    };
    if t.len() > 0 && all_dec_digits(t) && digits_value(t) <= u64::MAX {
        Some(digits_value(t) as u64)
    } else {
        None
    }
}

/// The value of a digit string is at least the value of any prefix.
proof fn lemma_digits_value_prefix_le(t: Seq<char>, k: int)
    requires
        0 <= k <= t.len(),
    ensures
        digits_value(t.subrange(0, k)) <= digits_value(t),
    decreases t.len() - k,
{
    if k < t.len() {
        assert(t.subrange(0, k + 1).drop_last() =~= t.subrange(0, k));
        assert(digits_value(t.subrange(0, k + 1)) == digits_value(t.subrange(0, k)) * 10
            + digit_val(t.subrange(0, k + 1).last()));
        lemma_digits_value_prefix_le(t, k + 1);
    } else {
        assert(t.subrange(0, k) =~= t);
    }
}

/// Parses `s` as an unsigned 64-bit integer, accepting exactly what
/// [`parse_u64_of`] describes.
pub fn parse_u64(s: &str) -> (r: Option<u64>)
    ensures
        r == parse_u64_of(s@),
{
    let len = s.unicode_len();
    let start: usize = if len > 0 && s.get_char(0) == '+' {
        1
    } else {
        0
    };
    let ghost t = if start == 1 {
        s@.drop_first()
    } else {
        s@
    };
    if start == len {
        return None;
    }
    let mut acc: u64 = 0;
    let mut i: usize = start;
    while i < len
        invariant
            start <= i <= len,
            len == s@.len(),
            start == 0 || start == 1,
            start == 1 ==> s@[0] == '+',
            start == 0 ==> !(s@.len() > 0 && s@[0] == '+'),
            t == (if start == 1 { s@.drop_first() } else { s@ }),
            forall|j: int| 0 <= j < i - start ==> is_dec_digit(#[trigger] t[j]),
            acc == digits_value(t.subrange(0, i - start)),
        decreases len - i,
    {
        let c = s.get_char(i);
        assert(t[i - start] == s@[i as int]);
        if !('0' <= c && c <= '9') {
            assert(!all_dec_digits(t));
            return None;
        }
        let d: u64 = (c as u32 - 48) as u64;
        assert(d == digit_val(c));
        if acc > (u64::MAX - d) / 10 {
            proof {
                let pre = t.subrange(0, i + 1 - start);
                assert(pre.drop_last() =~= t.subrange(0, i - start));
                assert(digits_value(pre) == acc * 10 + d);
                assert(acc * 10 + d > u64::MAX) by (nonlinear_arith)
                    requires
                        acc > (u64::MAX - d) / 10,
                        d <= 9,
                ;
                if all_dec_digits(t) {
                    lemma_digits_value_prefix_le(t, i + 1 - start);
                }
            }
            return None;
        }
        proof {
            assert(acc * 10 + d <= u64::MAX) by (nonlinear_arith)
                requires
                    acc <= (u64::MAX - d) / 10,
                    d <= 9,
            ;
        }
        acc = acc * 10 + d;
        i = i + 1;
        proof {
            let pre = t.subrange(0, i - start);
            assert(pre.drop_last() =~= t.subrange(0, i - 1 - start));
            assert(pre.last() == t[i - 1 - start]);
        }
    }
    proof {
        assert(t.subrange(0, len - start) =~= t);
    }
    Some(acc)
}

/// A byte the form-urlencoded encoding leaves unchanged:
/// `*`, `-`, `.`, `_`, ASCII digits and letters.
pub open spec fn form_unchanged(b: u8) -> bool {
    b == 42 || b == 45 || b == 46 || (48 <= b && b <= 57) || (65 <= b && b <= 90) || b == 95 || (
    97 <= b && b <= 122)
}

/// The ASCII byte of the uppercase hex digit for `n < 16`.
pub open spec fn upper_hex_digit(n: u8) -> u8 {
    if n < 10 {
        (48 + n) as u8
    } else {
        (55 + n) as u8
    }
}

/// What one input byte becomes under the form-urlencoded encoding:
/// kept, `+` for a space, or a percent escape with uppercase hex digits.
pub open spec fn form_byte_expansion(b: u8) -> Seq<u8> {
    if form_unchanged(b) {
        seq![b]
    } else if b == 32 {
        seq![43u8]
    } else {
        seq![37u8, upper_hex_digit(b / 16), upper_hex_digit(b % 16)]
    }
}

/// The form-urlencoded encoding of a byte sequence.
pub open spec fn form_bytes_of(bs: Seq<u8>) -> Seq<u8>
    decreases bs.len(),
{
    if bs.len() == 0 {
        Seq::empty()
    } else {
        form_bytes_of(bs.drop_last()) + form_byte_expansion(bs.last())
    }
}

/// The form-urlencoded encoding of a string: its UTF-8 bytes, each byte
/// encoded as [`form_byte_expansion`] says.
pub open spec fn form_encoded_of(s: Seq<char>) -> Seq<char> {
    ascii_chars_of(form_bytes_of(vstd::utf8::encode_utf8(s)))
}

/// Every byte of a form-urlencoded encoding is ASCII.
proof fn lemma_form_bytes_ascii(bs: Seq<u8>)
    ensures
        forall|i: int| 0 <= i < form_bytes_of(bs).len() ==> #[trigger] form_bytes_of(bs)[i] < 128,
    decreases bs.len(),
{
    if bs.len() > 0 {
        lemma_form_bytes_ascii(bs.drop_last());
        let pre = form_bytes_of(bs.drop_last());
        let tail = form_byte_expansion(bs.last());
        assert forall|i: int| 0 <= i < form_bytes_of(bs).len() implies #[trigger] form_bytes_of(
            bs,
        )[i] < 128 by {
            if i < pre.len() {
                assert(form_bytes_of(bs)[i] == pre[i]);
            } else {
                assert(form_bytes_of(bs)[i] == tail[i - pre.len()]);
            }
        }
    }
}

/// Form-urlencodes `s`, as query-string keys and values require.
pub fn form_encode(s: &str) -> (r: String)
    ensures
        r@ == form_encoded_of(s@),
{
    let bytes = s.as_bytes_vec();
    let mut out: Vec<u8> = Vec::new();
    let mut i: usize = 0;
    while i < bytes.len()
        invariant
            i <= bytes@.len(),
            out@ == form_bytes_of(bytes@.subrange(0, i as int)),
        decreases bytes@.len() - i,
    {
        let b = bytes[i];
        if b == 42 || b == 45 || b == 46 || (48 <= b && b <= 57) || (65 <= b && b <= 90) || b == 95
            || (97 <= b && b <= 122) {
            out.push(b);
        } else if b == 32 {
            out.push(43);
        } else {
            out.push(37);
            out.push(if b / 16 < 10 { 48 + b / 16 } else { 55 + b / 16 });
            out.push(if b % 16 < 10 { 48 + b % 16 } else { 55 + b % 16 });
        }
        i = i + 1;
        proof {
            let pre = bytes@.subrange(0, i as int);
            assert(pre.drop_last() =~= bytes@.subrange(0, i - 1 as int));
            assert(out@ =~= form_bytes_of(pre));
        }
    }
    proof {
        assert(bytes@.subrange(0, bytes@.len() as int) =~= bytes@);
        lemma_form_bytes_ascii(bytes@);
    }
    string_from_ascii(out)
}

} // verus!
