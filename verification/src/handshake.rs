//! The handshake: a session id goes out, a challenge token comes back.
//!
//! The session id is drawn fresh for every call and masked so that every
//! byte's high nibble is zero, a protocol constraint that keeps it from
//! colliding with string terminators in legacy implementations. The
//! handshake reply carries the challenge token as a null-terminated
//! decimal string; the token authorizes the stat request that follows.

use vstd::prelude::*;
use vstd::utf8::decode_utf8;
use vstd::utf8::valid_utf8;

use crate::err::ParseError;
use crate::err::QueryError;
use crate::num::is_valid_signed;
use crate::num::parse_i32;
use crate::num::signed_val;
use crate::text::utf8_to_string;
use crate::wire::read_cstring;
use crate::wire::spec_read_cstr;
use crate::wire::spec_validate_packet;
use crate::wire::validate_packet;
use crate::wire::TYPE_HANDSHAKE;

verus! {

/// The mask a session id is narrowed with.
pub const SESSION_ID_MASK: u32 = 0x0f0f_0f0f;

/// A session id the protocol accepts: nonnegative, with every byte's high
/// nibble zero.
pub open spec fn session_id_ok(s: i32) -> bool {
    &&& 0 <= s
    &&& (s as u32) & 0xf0f0_f0f0u32 == 0
}

/// Relies on `rand::random`: a fresh random value; nothing is assumed
/// about which one.
#[verifier::external_body]
fn random_u32() -> u32 {
    rand::random()
}

/// Draw a fresh session id: random 32 bits, masked so every byte's high
/// nibble is zero. Whatever the random source returns, the result is a
/// session id the protocol accepts.
pub fn fresh_session_id() -> (r: i32)
    ensures
        session_id_ok(r),
{
    let raw = random_u32();
    let masked: u32 = raw & SESSION_ID_MASK;
    proof {
        assert(masked < 0x8000_0000u32 && masked & 0xf0f0_f0f0u32 == 0) by (bit_vector)
            requires
                masked == raw & 0x0f0f_0f0fu32,
        ;
        assert((masked as i32) as u32 == masked);
    }
    masked as i32
}

/// Parse a handshake reply received for `session`: validate the header
/// (type 9, session echoed), then read the rest as one null-terminated
/// decimal string naming the challenge token.
pub open spec fn spec_parse_handshake(b: Seq<u8>, session: i32) -> Result<i32, QueryError> {
    match spec_validate_packet(b, TYPE_HANDSHAKE, session) {
        Err(e) => Err(e),
        Ok(p) => match spec_read_cstr(b, p) {
            None => Err(QueryError::Parse(ParseError::UnterminatedString)),
            Some((tbytes, _)) => {
                if !valid_utf8(tbytes) {
                    Err(QueryError::Parse(ParseError::InvalidEncoding))
                } else {
                    let t = decode_utf8(tbytes);
                    if is_valid_signed(t) && i32::MIN <= signed_val(t) <= i32::MAX {
                        Ok(signed_val(t) as i32)
                    } else {
                        Err(QueryError::Parse(ParseError::InvalidToken))
                    }
                }
            },
        },
    }
}

/// A reply whose type byte is not the handshake type never yields a
/// token: whatever follows the header, parsing fails with a protocol
/// error.
pub proof fn lemma_handshake_wrong_type_rejected(b: Seq<u8>, session: i32)
    requires
        b.len() > 0,
        b[0] != TYPE_HANDSHAKE,
    ensures
        spec_parse_handshake(b, session) == Err::<i32, QueryError>(
            QueryError::Protocol(crate::err::ProtocolError::UnexpectedType),
        ),
{
}

/// A reply whose echoed session id differs from the one the request
/// carried never yields a token: whatever follows the header, parsing
/// fails with a protocol error.
pub proof fn lemma_handshake_session_mismatch_rejected(b: Seq<u8>, session: i32)
    requires
        b.len() >= 5,
        b[0] == TYPE_HANDSHAKE,
        crate::wire::spec_u32_of_be(b[1], b[2], b[3], b[4]) as i32 != session,
    ensures
        spec_parse_handshake(b, session) == Err::<i32, QueryError>(
            QueryError::Protocol(crate::err::ProtocolError::SessionMismatch),
        ),
{
}

/// Parse a handshake reply, yielding the challenge token.
pub fn parse_handshake_response(bytes: &Vec<u8>, session: i32) -> (r: Result<i32, QueryError>)
    ensures
        match r {
            Ok(t) => spec_parse_handshake(bytes@, session) == Ok::<i32, QueryError>(t),
            Err(e) => spec_parse_handshake(bytes@, session) == Err::<i32, QueryError>(e),
        },
{
    let p = match validate_packet(bytes, TYPE_HANDSHAKE, session) {
        Ok(p) => p,
        Err(e) => {
            return Err(e);
        },
    };
    let (tbytes, _end) = match read_cstring(bytes, p) {
        Ok(v) => v,
        Err(e) => {
            return Err(QueryError::Parse(e));
        },
    };
    let tstr = match utf8_to_string(tbytes) {
        Some(s) => s,
        None => {
            return Err(QueryError::Parse(ParseError::InvalidEncoding));
        },
    };
    match parse_i32(tstr.as_str()) {
        Some(t) => Ok(t),
        None => Err(QueryError::Parse(ParseError::InvalidToken)),
    }
}

} // verus!
