//! Between wire bytes and text.
//!
//! Strings travel on the wire as UTF-8 bytes followed by one null byte, so a
//! string can be framed exactly when its encoding contains no zero byte.
//! This module provides the one decoding step the parsers need, and the
//! facts about `encode_utf8` that the round-trip proof rests on.

use vstd::prelude::*;
use vstd::string::StrSliceExecFns;
use vstd::utf8::decode_utf8;
use vstd::utf8::encode_scalar;
use vstd::utf8::encode_utf8;
use vstd::utf8::valid_utf8;

verus! {

/// Relies on `String::from_utf8`: it succeeds exactly on valid UTF-8 and
/// returns the string those bytes encode.
#[verifier::external_body]
pub(crate) fn utf8_to_string(bytes: Vec<u8>) -> (r: Option<String>)
    ensures
        r is Some <==> valid_utf8(bytes@),
        r is Some ==> r.unwrap()@ == decode_utf8(bytes@),
{
    String::from_utf8(bytes).ok()
}

/// The UTF-8 bytes of `s`, as a fresh vector.
pub fn string_to_utf8(s: &String) -> (r: Vec<u8>)
    ensures
        r@ == encode_utf8(s@),
{
    s.as_str().as_bytes_vec()
}

/// `s` contains no null character, so its encoding can be null-terminated.
pub open spec fn no_nul(s: Seq<char>) -> bool {
    forall|i: int| 0 <= i < s.len() ==> s[i] != '\u{0}'
}

/// A scalar value other than zero encodes to bytes that are all nonzero.
proof fn lemma_encode_scalar_no_zero_byte(c: u32)
    requires
        vstd::utf8::is_scalar(c),
        c != 0,
    ensures
        forall|i: int| 0 <= i < encode_scalar(c).len() ==> encode_scalar(c)[i] != 0,
        encode_scalar(c).len() >= 1,
{
    if vstd::utf8::has_width_1_encoding(c) {
        assert((c & 0x7F) as u8 != 0) by (bit_vector)
            requires
                c != 0 && c <= 0x7F,
        ;
    } else {
        assert(0xC0u8 | (((c >> 6) & 0x1F) as u8) != 0) by (bit_vector);
        assert(0xE0u8 | (((c >> 12) & 0x0F) as u8) != 0) by (bit_vector);
        assert(0xF0u8 | (((c >> 18) & 0x7) as u8) != 0) by (bit_vector);
        assert(0x80u8 | ((c & 0x3F) as u8) != 0) by (bit_vector);
        assert(0x80u8 | (((c >> 6) & 0x3F) as u8) != 0) by (bit_vector);
        assert(0x80u8 | (((c >> 12) & 0x3F) as u8) != 0) by (bit_vector);
    }
}

/// A string without null characters encodes to bytes without zero bytes,
/// and a nonempty string encodes to at least one byte.
pub proof fn lemma_encode_utf8_no_zero_byte(s: Seq<char>)
    requires
        no_nul(s),
    ensures
        forall|i: int| 0 <= i < encode_utf8(s).len() ==> encode_utf8(s)[i] != 0,
        encode_utf8(s).len() >= s.len(),
    decreases s.len(),
{
    if s.len() > 0 {
        let c = s[0] as u32;
        vstd::utf8::char_is_scalar(s[0]);
        assert(s[0] != '\u{0}');
        assert(c != 0) by {
            if c == 0 {
                vstd::utf8::char_u32_cast(s[0], c);
                assert((0u32 as char) == '\u{0}');
            }
        }
        lemma_encode_scalar_no_zero_byte(c);
        assert(no_nul(s.drop_first()));
        lemma_encode_utf8_no_zero_byte(s.drop_first());
        assert(encode_utf8(s) == encode_scalar(c) + encode_utf8(s.drop_first()));
    }
}

/// A string with a null character encodes to bytes with a zero byte.
pub proof fn lemma_encode_utf8_has_zero_byte(s: Seq<char>)
    requires
        !no_nul(s),
    ensures
        exists|j: int| 0 <= j < encode_utf8(s).len() && encode_utf8(s)[j] == 0,
    decreases s.len(),
{
    let e = encode_utf8(s);
    let head = encode_scalar(s[0] as u32);
    assert(e == head + encode_utf8(s.drop_first()));
    if s[0] == '\u{0}' {
        assert(s[0] as u32 == 0);
        assert((0u32 & 0x7F) as u8 == 0) by (bit_vector);
        assert(e[0] == 0);
    } else {
        assert(!no_nul(s.drop_first())) by {
            let i = choose|i: int| 0 <= i < s.len() && s[i] == '\u{0}';
            assert(s.drop_first()[i - 1] == '\u{0}');
        }
        lemma_encode_utf8_has_zero_byte(s.drop_first());
        let j = choose|j: int|
            0 <= j < encode_utf8(s.drop_first()).len() && encode_utf8(s.drop_first())[j] == 0;
        assert(e[head.len() + j] == 0);
    }
}

/// Whether two string slices hold the same characters.
pub fn str_eq(a: &str, b: &str) -> (r: bool)
    ensures
        r == (a@ == b@),
{
    a.to_owned() == b.to_owned()
}

/// Whether `s` is free of null characters, decided from its encoding.
pub fn check_no_nul(s: &String) -> (b: bool)
    ensures
        b == no_nul(s@),
{
    let bytes = string_to_utf8(s);
    let mut i: usize = 0;
    while i < bytes.len()
        invariant
            i <= bytes@.len(),
            bytes@ == encode_utf8(s@),
            forall|j: int| 0 <= j < i ==> bytes@[j] != 0,
        decreases bytes@.len() - i,
    {
        if bytes[i] == 0 {
            proof {
                if no_nul(s@) {
                    lemma_encode_utf8_no_zero_byte(s@);
                }
            }
            return false;
        }
        i = i + 1;
    }
    proof {
        if !no_nul(s@) {
            lemma_encode_utf8_has_zero_byte(s@);
        }
    }
    true
}

} // verus!
