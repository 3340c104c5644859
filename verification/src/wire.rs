//! Wire codec: building outbound requests and reading primitive fields
//! from inbound byte buffers.
//!
//! Every reader has a total specification over `Seq<u8>` and an executable
//! counterpart proved to agree with it. Readers never panic: a read past the
//! available bytes, or a string with no terminator, is a typed failure.

use vstd::prelude::*;

use crate::err::ParseError;
use crate::err::ProtocolError;
use crate::err::QueryError;

verus! {

/// The two magic bytes every request begins with.
pub const QUERY_MAGIC: u16 = 0xfe_fd;

/// Packet type of the handshake exchange.
pub const TYPE_HANDSHAKE: u8 = 9;

/// Packet type of the stat exchange.
pub const TYPE_STAT: u8 = 0;

// ---------------------------------------------------------------------------
// Big-endian integers
// ---------------------------------------------------------------------------

/// The two bytes of `x`, most significant first.
pub open spec fn spec_u16_be(x: u16) -> Seq<u8> {
    seq![(x >> 8) as u8, x as u8]
}

/// The four bytes of `x`, most significant first.
pub open spec fn spec_u32_be(x: u32) -> Seq<u8> {
    seq![(x >> 24) as u8, (x >> 16) as u8, (x >> 8) as u8, x as u8]
}

/// The four bytes of `x`'s two's-complement image, most significant first.
pub open spec fn spec_i32_be(x: i32) -> Seq<u8> {
    spec_u32_be(x as u32)
}

/// The `u32` whose big-endian bytes are `b0 b1 b2 b3`.
pub open spec fn spec_u32_of_be(b0: u8, b1: u8, b2: u8, b3: u8) -> u32 {
    ((b0 as u32) << 24) | ((b1 as u32) << 16) | ((b2 as u32) << 8) | (b3 as u32)
}

/// Reassembling the four big-endian bytes of `x` yields `x` again.
pub proof fn lemma_u32_be_round_trip(x: u32)
    ensures
        spec_u32_of_be(
            (x >> 24) as u8,
            (x >> 16) as u8,
            (x >> 8) as u8,
            x as u8,
        ) == x,
{
    assert((((x >> 24) as u8 as u32) << 24) | (((x >> 16) as u8 as u32) << 16) | (((x >> 8)
        as u8 as u32) << 8) | (x as u8 as u32) == x) by (bit_vector);
}

/// Casting through the unsigned image and back preserves an `i32`.
pub proof fn lemma_i32_u32_round_trip(x: i32)
    ensures
        (x as u32) as i32 == x,
{
    assert((x as u32) as i32 == x) by (bit_vector);
}

// ---------------------------------------------------------------------------
// Readers over an immutable byte sequence
// ---------------------------------------------------------------------------

/// Read one byte at `pos`; `None` when no byte remains.
pub open spec fn spec_read_u8(b: Seq<u8>, pos: int) -> Option<(u8, int)> {
    if 0 <= pos < b.len() {
        Some((b[pos], pos + 1))
    } else {
        None
    }
}

/// Read a big-endian `i32` at `pos`; `None` when fewer than four bytes remain.
pub open spec fn spec_read_i32_be(b: Seq<u8>, pos: int) -> Option<(i32, int)> {
    if 0 <= pos && pos + 4 <= b.len() {
        Some(
            (spec_u32_of_be(b[pos], b[pos + 1], b[pos + 2], b[pos + 3]) as i32, pos + 4),
        )
    } else {
        None
    }
}

/// Read bytes up to and excluding the next null terminator, starting at
/// `pos`; the returned position is just past the terminator. `None` when the
/// buffer ends before a terminator is found.
pub open spec fn spec_read_cstr(b: Seq<u8>, pos: int) -> Option<(Seq<u8>, int)>
    decreases b.len() - pos,
{
    if pos < 0 || pos >= b.len() {
        None
    } else if b[pos] == 0 {
        Some((Seq::empty(), pos + 1))
    } else {
        match spec_read_cstr(b, pos + 1) {
            Some((s, end)) => Some((seq![b[pos]] + s, end)),
            None => None,
        }
    }
}

/// What a successful `spec_read_cstr` yields: the bytes strictly between
/// `pos` and the terminator, none of them zero.
pub proof fn lemma_read_cstr_shape(b: Seq<u8>, pos: int)
    requires
        spec_read_cstr(b, pos) is Some,
    ensures
        ({
            let (s, end) = spec_read_cstr(b, pos).unwrap();
            &&& pos < end <= b.len()
            &&& s.len() == end - pos - 1
            &&& s == b.subrange(pos, end - 1)
            &&& forall|i: int| 0 <= i < s.len() ==> s[i] != 0
            &&& b[end - 1] == 0
        }),
    decreases b.len() - pos,
{
    let (s, end) = spec_read_cstr(b, pos).unwrap();
    if b[pos] == 0 {
        assert(s =~= b.subrange(pos, end - 1));
    } else {
        lemma_read_cstr_shape(b, pos + 1);
        let (s2, _) = spec_read_cstr(b, pos + 1).unwrap();
        assert(s =~= b.subrange(pos, end - 1));
    }
}

/// Reading at the start of a terminated, zero-free run of bytes yields
/// exactly that run.
pub proof fn lemma_read_cstr_of_terminated(b: Seq<u8>, pos: int, s: Seq<u8>)
    requires
        0 <= pos,
        pos + s.len() < b.len(),
        b.subrange(pos, pos + s.len()) == s,
        forall|i: int| 0 <= i < s.len() ==> s[i] != 0,
        b[pos + s.len()] == 0,
    ensures
        spec_read_cstr(b, pos) == Some((s, pos + s.len() + 1)),
    decreases s.len(),
{
    if s.len() == 0 {
        assert(b[pos] == 0);
    } else {
        assert(b[pos] == s[0]);
        let tail = s.subrange(1, s.len() as int);
        assert(b.subrange(pos + 1, pos + 1 + tail.len()) =~= tail);
        lemma_read_cstr_of_terminated(b, pos + 1, tail);
        assert(seq![b[pos]] + tail =~= s);
    }
}

// ---------------------------------------------------------------------------
// Executable readers
// ---------------------------------------------------------------------------

/// Read one byte, or fail when none remains.
pub fn read_u8(bytes: &Vec<u8>, pos: usize) -> (r: Result<(u8, usize), ParseError>)
    ensures
        match r {
            Ok((v, p2)) => spec_read_u8(bytes@, pos as int) == Some((v, p2 as int)),
            Err(e) => spec_read_u8(bytes@, pos as int) is None && e
                == ParseError::UnexpectedEnd,
        },
{
    if pos < bytes.len() {
        Ok((bytes[pos], pos + 1))
    } else {
        Err(ParseError::UnexpectedEnd)
    }
}

/// Read a big-endian `i32`, or fail when fewer than four bytes remain.
pub fn read_i32_be(bytes: &Vec<u8>, pos: usize) -> (r: Result<(i32, usize), ParseError>)
    ensures
        match r {
            Ok((v, p2)) => spec_read_i32_be(bytes@, pos as int) == Some((v, p2 as int)),
            Err(e) => spec_read_i32_be(bytes@, pos as int) is None && e
                == ParseError::UnexpectedEnd,
        },
{
    if pos < bytes.len() && bytes.len() - pos >= 4 {
        let v: u32 = ((bytes[pos] as u32) << 24) | ((bytes[pos + 1] as u32) << 16) | ((bytes[pos
            + 2] as u32) << 8) | (bytes[pos + 3] as u32);
        Ok((v as i32, pos + 4))
    } else {
        Err(ParseError::UnexpectedEnd)
    }
}

/// Read a null-terminated string's bytes, or fail when the buffer ends
/// before a terminator.
pub fn read_cstring(bytes: &Vec<u8>, pos: usize) -> (r: Result<(Vec<u8>, usize), ParseError>)
    ensures
        match r {
            Ok((s, p2)) => spec_read_cstr(bytes@, pos as int) == Some((s@, p2 as int)),
            Err(e) => spec_read_cstr(bytes@, pos as int) is None && e
                == ParseError::UnterminatedString,
        },
{
    let mut out: Vec<u8> = Vec::new();
    let mut i: usize = pos;
    loop
        invariant
            pos <= i,
            out@.len() == i - pos,
            forall|j: int| 0 <= j < out@.len() ==> out@[j] == bytes@[pos + j] && out@[j] != 0,
            ({
                let whole = spec_read_cstr(bytes@, pos as int);
                let rest = spec_read_cstr(bytes@, i as int);
                match rest {
                    Some((s, end)) => whole == Some((out@ + s, end)),
                    None => whole is None,
                }
            }),
        decreases bytes@.len() - i,
    {
        if i >= bytes.len() {
            return Err(ParseError::UnterminatedString);
        }
        let byte = bytes[i];
        if byte == 0 {
            proof {
                assert(out@ + Seq::<u8>::empty() =~= out@);
            }
            return Ok((out, i + 1));
        }
        proof {
            let rest = spec_read_cstr(bytes@, i + 1);
            if rest is Some {
                let (s, _) = rest.unwrap();
                assert(out@ + (seq![bytes@[i as int]] + s) =~= (out@ + seq![
                    bytes@[i as int],
                ]) + s);
                assert(out@.push(bytes@[i as int]) =~= out@ + seq![bytes@[i as int]]);
            }
        }
        out.push(byte);
        i = i + 1;
    }
}

// ---------------------------------------------------------------------------
// Request builders
// ---------------------------------------------------------------------------

/// The handshake request: magic, type 9, session id.
pub open spec fn spec_handshake_request(session: i32) -> Seq<u8> {
    spec_u16_be(QUERY_MAGIC) + seq![TYPE_HANDSHAKE] + spec_i32_be(session)
}

/// The full-stat request: magic, type 0, session id, challenge token, and
/// four zero bytes selecting the full (not basic) variant.
pub open spec fn spec_stat_request(session: i32, token: i32) -> Seq<u8> {
    spec_u16_be(QUERY_MAGIC) + seq![TYPE_STAT] + spec_i32_be(session) + spec_i32_be(token)
        + seq![0u8, 0u8, 0u8, 0u8]
}

/// Append the two big-endian bytes of `x`.
pub fn push_u16_be(out: &mut Vec<u8>, x: u16)
    ensures
        final(out)@ == old(out)@ + spec_u16_be(x),
{
    out.push((x >> 8) as u8);
    out.push(x as u8);
    proof {
        assert(out@ =~= old(out)@ + spec_u16_be(x));
    }
}

/// Append the four big-endian bytes of `x`'s two's-complement image.
pub fn push_i32_be(out: &mut Vec<u8>, x: i32)
    ensures
        final(out)@ == old(out)@ + spec_i32_be(x),
{
    let u: u32 = x as u32;
    out.push((u >> 24) as u8);
    out.push((u >> 16) as u8);
    out.push((u >> 8) as u8);
    out.push(u as u8);
    proof {
        assert(out@ =~= old(out)@ + spec_i32_be(x));
    }
}

/// Build the handshake request for `session`.
pub fn build_handshake_request(session: i32) -> (r: Vec<u8>)
    ensures
        r@ == spec_handshake_request(session),
{
    let mut out: Vec<u8> = Vec::new();
    push_u16_be(&mut out, QUERY_MAGIC);
    out.push(TYPE_HANDSHAKE);
    push_i32_be(&mut out, session);
    proof {
        assert(out@ =~= spec_handshake_request(session));
    }
    out
}

/// Build the full-stat request for `session` with challenge `token`.
pub fn build_stat_request(session: i32, token: i32) -> (r: Vec<u8>)
    ensures
        r@ == spec_stat_request(session, token),
{
    let mut out: Vec<u8> = Vec::new();
    push_u16_be(&mut out, QUERY_MAGIC);
    out.push(TYPE_STAT);
    push_i32_be(&mut out, session);
    push_i32_be(&mut out, token);
    out.push(0);
    out.push(0);
    out.push(0);
    out.push(0);
    proof {
        assert(out@ =~= spec_stat_request(session, token));
    }
    out
}

// ---------------------------------------------------------------------------
// Header validation
// ---------------------------------------------------------------------------

/// Validate a reply's header: its type byte must match the stage's expected
/// type and its session id must match the one sent. On success the result is
/// the position just past the header.
pub open spec fn spec_validate_packet(b: Seq<u8>, expected_type: u8, expected_session: i32) -> Result<
    int,
    QueryError,
> {
    match spec_read_u8(b, 0) {
        None => Err(QueryError::Parse(ParseError::UnexpectedEnd)),
        Some((t, p1)) => {
            if t != expected_type {
                Err(QueryError::Protocol(ProtocolError::UnexpectedType))
            } else {
                match spec_read_i32_be(b, p1) {
                    None => Err(QueryError::Parse(ParseError::UnexpectedEnd)),
                    Some((s, p2)) => {
                        if s != expected_session {
                            Err(QueryError::Protocol(ProtocolError::SessionMismatch))
                        } else {
                            Ok(p2)
                        }
                    },
                }
            }
        },
    }
}

/// Check a reply's type byte and echoed session id.
pub fn validate_packet(bytes: &Vec<u8>, expected_type: u8, expected_session: i32) -> (r: Result<
    usize,
    QueryError,
>)
    ensures
        match r {
            Ok(p) => spec_validate_packet(bytes@, expected_type, expected_session) == Ok::<
                int,
                QueryError,
            >(p as int),
            Err(e) => spec_validate_packet(bytes@, expected_type, expected_session) == Err::<
                int,
                QueryError,
            >(e),
        },
{
    let (t, p1) = match read_u8(bytes, 0) {
        Ok(v) => v,
        Err(e) => {
            return Err(QueryError::Parse(e));
        },
    };
    if t != expected_type {
        return Err(QueryError::Protocol(ProtocolError::UnexpectedType));
    }
    let (s, p2) = match read_i32_be(bytes, p1) {
        Ok(v) => v,
        Err(e) => {
            return Err(QueryError::Parse(e));
        },
    };
    if s != expected_session {
        return Err(QueryError::Protocol(ProtocolError::SessionMismatch));
    }
    Ok(p2)
}

} // verus!
