//! Base-10 numbers as they appear in the protocol's text fields.
//!
//! The challenge token and the numeric entries of the key/value section
//! arrive as decimal strings. Parsing and formatting are both specified
//! over `Seq<char>` and proved inverse to one another, so the stat
//! round-trip can move player counts through their textual form without
//! losing them.

use vstd::prelude::*;
use vstd::string::StrSliceExecFns;
use vstd::string::StringExecFns;

verus! {

/// `c` is an ASCII decimal digit.
pub open spec fn is_dec_digit(c: char) -> bool {
    '0' <= c <= '9'
}

/// The numeric value of a digit character.
pub open spec fn digit_val(c: char) -> int {
    c as int - '0' as int
}

/// Every character of `s` is a decimal digit.
pub open spec fn all_dec_digits(s: Seq<char>) -> bool {
    forall|i: int| 0 <= i < s.len() ==> is_dec_digit(s[i])
}

/// The value of a digit string, most significant digit first.
pub open spec fn dec_val(s: Seq<char>) -> int
    decreases s.len(),
{
    if s.len() == 0 {
        0
    } else {
        dec_val(s.drop_last()) * 10 + digit_val(s.last())
    }
}

/// The digits of an unsigned decimal string: everything after an optional
/// leading `+`.
pub open spec fn unsigned_digits(s: Seq<char>) -> Seq<char> {
    if s.len() > 0 && s[0] == '+' {
        s.skip(1)
    } else {
        s
    }
}

/// `s` is a well-formed unsigned decimal string: an optional `+`, then one
/// or more digits and nothing else.
pub open spec fn is_valid_unsigned(s: Seq<char>) -> bool {
    unsigned_digits(s).len() > 0 && all_dec_digits(unsigned_digits(s))
}

/// The value of a well-formed unsigned decimal string.
pub open spec fn unsigned_val(s: Seq<char>) -> int {
    dec_val(unsigned_digits(s))
}

/// `s` names a negative number: it starts with `-`.
pub open spec fn signed_negative(s: Seq<char>) -> bool {
    s.len() > 0 && s[0] == '-'
}

/// The digits of a signed decimal string: everything after an optional
/// leading `+` or `-`.
pub open spec fn signed_digits(s: Seq<char>) -> Seq<char> {
    if s.len() > 0 && (s[0] == '-' || s[0] == '+') {
        s.skip(1)
    } else {
        s
    }
}

/// `s` is a well-formed signed decimal string: an optional sign, then one
/// or more digits and nothing else.
pub open spec fn is_valid_signed(s: Seq<char>) -> bool {
    signed_digits(s).len() > 0 && all_dec_digits(signed_digits(s))
}

/// The value of a well-formed signed decimal string.
pub open spec fn signed_val(s: Seq<char>) -> int {
    if signed_negative(s) {
        -dec_val(signed_digits(s))
    } else {
        dec_val(signed_digits(s))
    }
}

/// The value of a digit string is never negative.
pub proof fn lemma_dec_val_nonneg(s: Seq<char>)
    requires
        all_dec_digits(s),
    ensures
        dec_val(s) >= 0,
    decreases s.len(),
{
    if s.len() > 0 {
        lemma_dec_val_nonneg(s.drop_last());
    }
}

/// Extending a digit string can only grow its value.
pub proof fn lemma_dec_val_prefix_le(s: Seq<char>, k: int)
    requires
        all_dec_digits(s),
        0 <= k <= s.len(),
    ensures
        dec_val(s.take(k)) <= dec_val(s),
    decreases s.len() - k,
{
    if k == s.len() {
        assert(s.take(k) =~= s);
    } else {
        assert(s.take(s.len() - 1) =~= s.drop_last());
        assert(s.drop_last().take(k) =~= s.take(k));
        lemma_dec_val_prefix_le(s.drop_last(), k);
        lemma_dec_val_nonneg(s.drop_last());
    }
}

/// Parse an unsigned decimal string, accepting an optional leading `+`,
/// into a `usize`. Returns the value exactly when the string is well formed
/// and the value fits.
pub fn parse_usize(s: &str) -> (r: Option<usize>)
    ensures
        match r {
            Some(v) => is_valid_unsigned(s@) && v as int == unsigned_val(s@),
            None => !(is_valid_unsigned(s@) && unsigned_val(s@) <= usize::MAX),
        },
{
    let n = s.unicode_len();
    let start: usize = if n > 0 && s.get_char(0) == '+' {
        1
    } else {
        0
    };
    proof {
        assert(unsigned_digits(s@) == s@.skip(start as int));
    }
    if n == start {
        return None;
    }
    let mut acc: usize = 0;
    let mut i: usize = start;
    while i < n
        invariant
            start <= i <= n,
            n == s@.len(),
            unsigned_digits(s@) == s@.skip(start as int),
            forall|j: int| start <= j < i ==> is_dec_digit(s@[j]),
            all_dec_digits(s@.subrange(start as int, i as int)),
            acc as int == dec_val(s@.subrange(start as int, i as int)),
        decreases n - i,
    {
        let c = s.get_char(i);
        let cv = c as u32;
        if cv < 48 || cv > 57 {
            proof {
                assert(s@.skip(start as int)[i - start] == s@[i as int]);
            }
            return None;
        }
        let d: usize = (cv - 48) as usize;
        proof {
            let pre = s@.subrange(start as int, i as int);
            let ext = s@.subrange(start as int, i + 1);
            assert(ext.drop_last() =~= pre);
            assert(ext.last() == s@[i as int]);
        }
        let next = match acc.checked_mul(10) {
            Some(a) => a.checked_add(d),
            None => None,
        };
        match next {
            Some(a) => {
                acc = a;
            },
            None => {
                proof {
                    let pre = s@.subrange(start as int, i + 1);
                    assert(dec_val(pre) > usize::MAX);
                    if all_dec_digits(unsigned_digits(s@)) {
                        let whole = s@.skip(start as int);
                        assert(whole.take(i + 1 - start) =~= pre);
                        lemma_dec_val_prefix_le(whole, i + 1 - start);
                    }
                }
                return None;
            },
        }
        i = i + 1;
    }
    proof {
        assert(s@.subrange(start as int, n as int) =~= s@.skip(start as int));
    }
    Some(acc)
}

/// Parse an unsigned decimal string into a `u16`, as the `hostport` field
/// requires.
pub fn parse_u16(s: &str) -> (r: Option<u16>)
    ensures
        match r {
            Some(v) => is_valid_unsigned(s@) && v as int == unsigned_val(s@),
            None => !(is_valid_unsigned(s@) && unsigned_val(s@) <= u16::MAX),
        },
{
    match parse_usize(s) {
        Some(v) => {
            if v <= 0xffff {
                Some(v as u16)
            } else {
                None
            }
        },
        None => None,
    }
}

/// Parse a signed decimal string, accepting an optional leading `+` or `-`,
/// into an `i32`, as the challenge token requires. Returns the value exactly
/// when the string is well formed and the value fits.
pub fn parse_i32(s: &str) -> (r: Option<i32>)
    ensures
        match r {
            Some(v) => is_valid_signed(s@) && v as int == signed_val(s@),
            None => !(is_valid_signed(s@) && i32::MIN <= signed_val(s@) <= i32::MAX),
        },
{
    let n = s.unicode_len();
    let mut negative = false;
    let mut start: usize = 0;
    if n > 0 {
        let c0 = s.get_char(0);
        if c0 == '-' {
            negative = true;
            start = 1;
        } else if c0 == '+' {
            start = 1;
        }
    }
    proof {
        assert(signed_digits(s@) == s@.skip(start as int));
        assert(negative == signed_negative(s@));
    }
    if n == start {
        return None;
    }
    let mut acc: u64 = 0;
    let mut i: usize = start;
    while i < n
        invariant
            start <= i <= n,
            n == s@.len(),
            signed_digits(s@) == s@.skip(start as int),
            start <= 1,
            forall|j: int| start <= j < i ==> is_dec_digit(s@[j]),
            all_dec_digits(s@.subrange(start as int, i as int)),
            acc as int == dec_val(s@.subrange(start as int, i as int)),
            acc <= 0x8000_0000u64,
        decreases n - i,
    {
        let c = s.get_char(i);
        let cv = c as u32;
        if cv < 48 || cv > 57 {
            proof {
                assert(s@.skip(start as int)[i - start] == s@[i as int]);
            }
            return None;
        }
        let d: u64 = (cv - 48) as u64;
        proof {
            let pre = s@.subrange(start as int, i as int);
            let ext = s@.subrange(start as int, i + 1);
            assert(ext.drop_last() =~= pre);
            assert(ext.last() == s@[i as int]);
        }
        let next = acc * 10 + d;
        if next > 0x8000_0000u64 {
            proof {
                let pre = s@.subrange(start as int, i + 1);
                assert(dec_val(pre) > 0x8000_0000);
                if all_dec_digits(signed_digits(s@)) {
                    let whole = s@.skip(start as int);
                    assert(whole.take(i + 1 - start) =~= pre);
                    lemma_dec_val_prefix_le(whole, i + 1 - start);
                }
            }
            return None;
        }
        acc = next;
        i = i + 1;
    }
    proof {
        assert(s@.subrange(start as int, n as int) =~= s@.skip(start as int));
    }
    if negative {
        if acc == 0x8000_0000u64 {
            Some(i32::MIN)
        } else {
            Some(-((acc as u32) as i32))
        }
    } else {
        if acc <= 0x7fff_ffffu64 {
            Some(acc as i32)
        } else {
            None
        }
    }
}

// ---------------------------------------------------------------------------
// Formatting
// ---------------------------------------------------------------------------

/// The digit character for a value below ten.
pub open spec fn digit_char(d: int) -> char {
    (d + 48) as char
}

/// The canonical decimal digits of `n`: no sign, no leading zero except for
/// zero itself.
pub open spec fn spec_dec_digits(n: int) -> Seq<char>
    decreases n,
{
    if n < 10 {
        seq![digit_char(n)]
    } else {
        spec_dec_digits(n / 10).push(digit_char(n % 10))
    }
}

/// The canonical decimal digits carry exactly the value they were formed
/// from.
pub proof fn lemma_dec_digits_val(n: int)
    requires
        n >= 0,
    ensures
        all_dec_digits(spec_dec_digits(n)),
        dec_val(spec_dec_digits(n)) == n,
        spec_dec_digits(n).len() >= 1,
        spec_dec_digits(n)[0] != '+',
        spec_dec_digits(n)[0] != '-',
    decreases n,
{
    if n < 10 {
        let s = spec_dec_digits(n);
        assert(s.drop_last() =~= Seq::<char>::empty());
        assert(dec_val(Seq::<char>::empty()) == 0);
        assert(s.last() == digit_char(n));
    } else {
        lemma_dec_digits_val(n / 10);
        let s = spec_dec_digits(n);
        assert(s.drop_last() =~= spec_dec_digits(n / 10));
        assert(dec_val(s) == (n / 10) * 10 + n % 10);
    }
}

/// A formatted number parses back to itself.
pub proof fn lemma_dec_digits_unsigned_round_trip(n: int)
    requires
        n >= 0,
    ensures
        is_valid_unsigned(spec_dec_digits(n)),
        unsigned_val(spec_dec_digits(n)) == n,
{
    lemma_dec_digits_val(n);
    assert(unsigned_digits(spec_dec_digits(n)) == spec_dec_digits(n));
}

/// The digit character for `d`, as a one-character string slice.
fn digit_str(d: u8) -> (r: &'static str)
    requires
        d < 10,
    ensures
        r@ == seq![digit_char(d as int)],
{
    proof {
        reveal_strlit("0");
        reveal_strlit("1");
        reveal_strlit("2");
        reveal_strlit("3");
        reveal_strlit("4");
        reveal_strlit("5");
        reveal_strlit("6");
        reveal_strlit("7");
        reveal_strlit("8");
        reveal_strlit("9");
    }
    let r = match d {
        0 => "0",
        1 => "1",
        2 => "2",
        3 => "3",
        4 => "4",
        5 => "5",
        6 => "6",
        7 => "7",
        8 => "8",
        _ => "9",
    };
    proof {
        assert(r@ =~= seq![digit_char(d as int)]);
    }
    r
}

/// Append the canonical decimal digits of `n`.
pub fn push_dec_digits(out: &mut String, n: u64)
    ensures
        final(out)@ == old(out)@ + spec_dec_digits(n as int),
    decreases n,
{
    if n < 10 {
        out.append(digit_str(n as u8));
    } else {
        push_dec_digits(out, n / 10);
        out.append(digit_str((n % 10) as u8));
        proof {
            assert(old(out)@ + spec_dec_digits((n / 10) as int) + seq![
                digit_char((n % 10) as int),
            ] =~= old(out)@ + spec_dec_digits(n as int));
        }
    }
}

/// The canonical decimal rendering of `n`.
pub fn format_u64(n: u64) -> (r: String)
    ensures
        r@ == spec_dec_digits(n as int),
{
    let mut out = String::new();
    push_dec_digits(&mut out, n);
    proof {
        assert(Seq::<char>::empty() + spec_dec_digits(n as int) =~= spec_dec_digits(
            n as int,
        ));
    }
    out
}

} // verus!
