//! Rendering play time.
//!
//! Minecraft counts time in ticks, twenty to the second. `fmt_time` turns
//! a tick count into the familiar `HH:MM:SS` form, each part zero-padded
//! to two digits; hours beyond ninety-nine keep all their digits.

use vstd::prelude::*;
use vstd::string::StringExecFns;

use crate::num::push_dec_digits;
use crate::num::spec_dec_digits;

verus! {

/// The decimal digits of `n`, zero-padded on the left to at least two.
pub open spec fn spec_pad2(n: int) -> Seq<char> {
    if n < 10 {
        seq!['0'] + spec_dec_digits(n)
    } else {
        spec_dec_digits(n)
    }
}

/// A tick count as `HH:MM:SS`.
pub open spec fn spec_fmt_time(time: u64) -> Seq<char> {
    let seconds = time as int / 20;
    let hours = seconds / 3600;
    let minutes = (seconds % 3600) / 60;
    let secs = seconds % 60;
    spec_pad2(hours) + seq![':'] + spec_pad2(minutes) + seq![':'] + spec_pad2(secs)
}

/// Append the decimal digits of `n`, zero-padded to at least two.
fn push_pad2(out: &mut String, n: u64)
    ensures
        final(out)@ == old(out)@ + spec_pad2(n as int),
{
    if n < 10 {
        proof {
            reveal_strlit("0");
            assert("0"@ =~= seq!['0']);
        }
        out.append("0");
    }
    push_dec_digits(out, n);
    proof {
        if n < 10 {
            assert(old(out)@ + seq!['0'] + spec_dec_digits(n as int) =~= old(out)@ + spec_pad2(
                n as int,
            ));
        }
    }
}

/// Render a tick count as `HH:MM:SS`.
pub fn fmt_time(time: u64) -> (r: String)
    ensures
        r@ == spec_fmt_time(time),
{
    let seconds = time / 20;
    let hours = seconds / 3600;
    let minutes = (seconds % 3600) / 60;
    let secs = seconds % 60;
    let mut out = String::new();
    push_pad2(&mut out, hours);
    proof {
        reveal_strlit(":");
        assert(":"@ =~= seq![':']);
    }
    out.append(":");
    push_pad2(&mut out, minutes);
    out.append(":");
    push_pad2(&mut out, secs);
    proof {
        assert(out@ =~= spec_fmt_time(time));
    }
    out
}

} // verus!
