//! The two sentinel-terminated sections of a full-stat payload.
//!
//! The key/value section is a run of null-terminated string pairs ended by
//! an empty key; the player list is a run of null-terminated strings ended
//! by an empty string. Neither carries a length: parsing is driven purely
//! by the sentinels. Each section has a total specification, an executable
//! parser proved against it, a specification of its encoded form, and a
//! proof that parsing an encoded section yields the entries it was built
//! from.

use vstd::prelude::*;
use vstd::utf8::decode_utf8;
use vstd::utf8::encode_utf8;
use vstd::utf8::valid_utf8;

use crate::err::ParseError;
use crate::text::lemma_encode_utf8_no_zero_byte;
use crate::text::no_nul;
use crate::text::utf8_to_string;
use crate::wire::lemma_read_cstr_of_terminated;
use crate::wire::lemma_read_cstr_shape;
use crate::wire::read_cstring;
use crate::wire::spec_read_cstr;

verus! {

// ---------------------------------------------------------------------------
// Key/value section: parsing
// ---------------------------------------------------------------------------

/// Parse the key/value section at `pos`: pairs of null-terminated strings,
/// ended by an empty key. On success, the decoded pairs in wire order and
/// the position just past the sentinel.
pub open spec fn spec_parse_kv(b: Seq<u8>, pos: int) -> Result<
    (Seq<(Seq<char>, Seq<char>)>, int),
    ParseError,
>
    decreases b.len() - pos,
    via spec_parse_kv_dec
{
    match spec_read_cstr(b, pos) {
        None => Err(ParseError::UnterminatedString),
        Some((kbytes, p1)) => {
            if kbytes.len() == 0 {
                Ok((Seq::empty(), p1))
            } else if !valid_utf8(kbytes) {
                Err(ParseError::InvalidEncoding)
            } else {
                match spec_read_cstr(b, p1) {
                    None => Err(ParseError::UnterminatedString),
                    Some((vbytes, p2)) => {
                        if !valid_utf8(vbytes) {
                            Err(ParseError::InvalidEncoding)
                        } else {
                            match spec_parse_kv(b, p2) {
                                Ok((rest, end)) => Ok(
                                    (seq![(decode_utf8(kbytes), decode_utf8(vbytes))] + rest, end),
                                ),
                                Err(e) => Err(e),
                            }
                        }
                    },
                }
            }
        },
    }
}

#[via_fn]
proof fn spec_parse_kv_dec(b: Seq<u8>, pos: int) {
    match spec_read_cstr(b, pos) {
        None => {},
        Some((kbytes, p1)) => {
            lemma_read_cstr_shape(b, pos);
            match spec_read_cstr(b, p1) {
                None => {},
                Some(_) => {
                    lemma_read_cstr_shape(b, p1);
                },
            }
        },
    }
}

/// Parse the key/value section, collecting decoded pairs in wire order.
pub fn parse_kv_section(bytes: &Vec<u8>, pos: usize) -> (r: Result<
    (Vec<(String, String)>, usize),
    ParseError,
>)
    ensures
        match r {
            Ok((kv, p2)) => spec_parse_kv(bytes@, pos as int) == Ok::<
                (Seq<(Seq<char>, Seq<char>)>, int),
                ParseError,
            >((kv.deep_view(), p2 as int)),
            Err(e) => spec_parse_kv(bytes@, pos as int) == Err::<
                (Seq<(Seq<char>, Seq<char>)>, int),
                ParseError,
            >(e),
        },
{
    let mut acc: Vec<(String, String)> = Vec::new();
    let mut p: usize = pos;
    loop
        invariant
            pos <= p,
            ({
                let whole = spec_parse_kv(bytes@, pos as int);
                let rest = spec_parse_kv(bytes@, p as int);
                match rest {
                    Ok((pairs, end)) => whole == Ok::<
                        (Seq<(Seq<char>, Seq<char>)>, int),
                        ParseError,
                    >((acc.deep_view() + pairs, end)),
                    Err(e) => whole == Err::<(Seq<(Seq<char>, Seq<char>)>, int), ParseError>(e),
                }
            }),
        decreases bytes@.len() - p,
    {
        let (kbytes, p1) = match read_cstring(bytes, p) {
            Ok(v) => v,
            Err(e) => {
                return Err(e);
            },
        };
        proof {
            lemma_read_cstr_shape(bytes@, p as int);
        }
        if kbytes.len() == 0 {
            proof {
                assert(acc.deep_view() + Seq::<(Seq<char>, Seq<char>)>::empty()
                    =~= acc.deep_view());
            }
            return Ok((acc, p1));
        }
        let key = match utf8_to_string(kbytes) {
            Some(s) => s,
            None => {
                return Err(ParseError::InvalidEncoding);
            },
        };
        let (vbytes, p2) = match read_cstring(bytes, p1) {
            Ok(v) => v,
            Err(e) => {
                return Err(e);
            },
        };
        proof {
            lemma_read_cstr_shape(bytes@, p1 as int);
        }
        let val = match utf8_to_string(vbytes) {
            Some(s) => s,
            None => {
                return Err(ParseError::InvalidEncoding);
            },
        };
        proof {
            let rest_new = spec_parse_kv(bytes@, p2 as int);
            match rest_new {
                Ok((pairs2, end)) => {
                    assert(acc.deep_view() + (seq![(key@, val@)] + pairs2) =~= (acc.deep_view()
                        + seq![(key@, val@)]) + pairs2);
                },
                Err(_) => {},
            }
        }
        let ghost old_acc_view = acc.deep_view();
        acc.push((key, val));
        proof {
            assert(acc.deep_view() =~= old_acc_view + seq![(acc@.last().0@, acc@.last().1@)]);
        }
        p = p2;
    }
}

/// A parsed key/value section ends strictly after it began and within the
/// buffer.
pub proof fn lemma_parse_kv_bounds(b: Seq<u8>, pos: int)
    requires
        spec_parse_kv(b, pos) is Ok,
    ensures
        pos < spec_parse_kv(b, pos).unwrap().1 <= b.len(),
    decreases b.len() - pos,
{
    match spec_read_cstr(b, pos) {
        None => {},
        Some((kbytes, p1)) => {
            lemma_read_cstr_shape(b, pos);
            if kbytes.len() != 0 && valid_utf8(kbytes) {
                match spec_read_cstr(b, p1) {
                    None => {},
                    Some((vbytes, p2)) => {
                        lemma_read_cstr_shape(b, p1);
                        if valid_utf8(vbytes) {
                            lemma_parse_kv_bounds(b, p2);
                        }
                    },
                }
            }
        },
    }
}

// ---------------------------------------------------------------------------
// Key/value section: lookup
// ---------------------------------------------------------------------------

/// The value recorded for `key`: the last pair wins, as repeated inserts
/// into a mapping would leave it.
pub open spec fn kv_lookup(kv: Seq<(Seq<char>, Seq<char>)>, key: Seq<char>) -> Option<Seq<char>>
    decreases kv.len(),
{
    if kv.len() == 0 {
        None
    } else if kv.last().0 == key {
        Some(kv.last().1)
    } else {
        kv_lookup(kv.drop_last(), key)
    }
}

/// When all keys differ, looking one of them up finds its own value.
pub proof fn lemma_kv_lookup_distinct(kv: Seq<(Seq<char>, Seq<char>)>, i: int)
    requires
        0 <= i < kv.len(),
        forall|a: int, b: int| 0 <= a < b < kv.len() ==> kv[a].0 != kv[b].0,
    ensures
        kv_lookup(kv, kv[i].0) == Some(kv[i].1),
    decreases kv.len(),
{
    if i < kv.len() - 1 {
        assert(kv.last().0 != kv[i].0);
        assert(kv.drop_last()[i] == kv[i]);
        assert forall|a: int, b: int|
            0 <= a < b < kv.drop_last().len() implies kv.drop_last()[a].0
            != kv.drop_last()[b].0 by {
            assert(kv.drop_last()[a] == kv[a]);
            assert(kv.drop_last()[b] == kv[b]);
        }
        lemma_kv_lookup_distinct(kv.drop_last(), i);
    }
}

/// Look `key` up among the parsed pairs, latest entry first.
pub fn kv_get(kv: &Vec<(String, String)>, key: &str) -> (r: Option<String>)
    ensures
        match r {
            Some(v) => kv_lookup(kv.deep_view(), key@) == Some(v@),
            None => kv_lookup(kv.deep_view(), key@) is None,
        },
{
    let mut i: usize = kv.len();
    proof {
        assert(kv.deep_view().take(kv@.len() as int) =~= kv.deep_view());
    }
    while i > 0
        invariant
            i <= kv.len(),
            kv_lookup(kv.deep_view(), key@) == kv_lookup(kv.deep_view().take(i as int), key@),
        decreases i,
    {
        i = i - 1;
        let entry_key: &String = &kv[i].0;
        let hit = *entry_key == key.to_owned();
        proof {
            let prefix = kv.deep_view().take(i + 1);
            assert(prefix.last() == (kv@[i as int].0@, kv@[i as int].1@));
            assert(prefix.drop_last() =~= kv.deep_view().take(i as int));
        }
        if hit {
            return Some(kv[i].1.clone());
        }
    }
    proof {
        assert(kv.deep_view().take(0) =~= Seq::<(Seq<char>, Seq<char>)>::empty());
    }
    None
}

// ---------------------------------------------------------------------------
// Player list: parsing
// ---------------------------------------------------------------------------

/// Parse the player list at `pos`: null-terminated strings, ended by an
/// empty string. On success, the decoded names in wire order and the
/// position just past the sentinel.
pub open spec fn spec_parse_players(b: Seq<u8>, pos: int) -> Result<(Seq<Seq<char>>, int), ParseError>
    decreases b.len() - pos,
    via spec_parse_players_dec
{
    match spec_read_cstr(b, pos) {
        None => Err(ParseError::UnterminatedString),
        Some((nbytes, p1)) => {
            if nbytes.len() == 0 {
                Ok((Seq::empty(), p1))
            } else if !valid_utf8(nbytes) {
                Err(ParseError::InvalidEncoding)
            } else {
                match spec_parse_players(b, p1) {
                    Ok((rest, end)) => Ok((seq![decode_utf8(nbytes)] + rest, end)),
                    Err(e) => Err(e),
                }
            }
        },
    }
}

#[via_fn]
proof fn spec_parse_players_dec(b: Seq<u8>, pos: int) {
    match spec_read_cstr(b, pos) {
        None => {},
        Some(_) => {
            lemma_read_cstr_shape(b, pos);
        },
    }
}

/// Parse the player list, collecting decoded names in wire order.
pub fn parse_player_section(bytes: &Vec<u8>, pos: usize) -> (r: Result<
    (Vec<String>, usize),
    ParseError,
>)
    ensures
        match r {
            Ok((names, p2)) => spec_parse_players(bytes@, pos as int) == Ok::<
                (Seq<Seq<char>>, int),
                ParseError,
            >((names.deep_view(), p2 as int)),
            Err(e) => spec_parse_players(bytes@, pos as int) == Err::<
                (Seq<Seq<char>>, int),
                ParseError,
            >(e),
        },
{
    let mut acc: Vec<String> = Vec::new();
    let mut p: usize = pos;
    loop
        invariant
            pos <= p,
            ({
                let whole = spec_parse_players(bytes@, pos as int);
                let rest = spec_parse_players(bytes@, p as int);
                match rest {
                    Ok((names, end)) => whole == Ok::<(Seq<Seq<char>>, int), ParseError>(
                        (acc.deep_view() + names, end),
                    ),
                    Err(e) => whole == Err::<(Seq<Seq<char>>, int), ParseError>(e),
                }
            }),
        decreases bytes@.len() - p,
    {
        let (nbytes, p1) = match read_cstring(bytes, p) {
            Ok(v) => v,
            Err(e) => {
                return Err(e);
            },
        };
        proof {
            lemma_read_cstr_shape(bytes@, p as int);
        }
        if nbytes.len() == 0 {
            proof {
                assert(acc.deep_view() + Seq::<Seq<char>>::empty() =~= acc.deep_view());
            }
            return Ok((acc, p1));
        }
        let name = match utf8_to_string(nbytes) {
            Some(s) => s,
            None => {
                return Err(ParseError::InvalidEncoding);
            },
        };
        proof {
            let rest_new = spec_parse_players(bytes@, p1 as int);
            match rest_new {
                Ok((names2, end)) => {
                    assert(acc.deep_view() + (seq![name@] + names2) =~= (acc.deep_view() + seq![
                        name@,
                    ]) + names2);
                },
                Err(_) => {},
            }
        }
        let ghost old_acc_view = acc.deep_view();
        acc.push(name);
        proof {
            assert(acc.deep_view() =~= old_acc_view + seq![acc@.last()@]);
        }
        p = p1;
    }
}

// ---------------------------------------------------------------------------
// Encoded sections
// ---------------------------------------------------------------------------

/// A string as it stands on the wire: its UTF-8 bytes and one null byte.
pub open spec fn spec_cstring(s: Seq<char>) -> Seq<u8> {
    encode_utf8(s) + seq![0u8]
}

/// The encoded key/value section, terminating sentinel included.
pub open spec fn spec_kv_bytes(pairs: Seq<(Seq<char>, Seq<char>)>) -> Seq<u8>
    decreases pairs.len(),
{
    if pairs.len() == 0 {
        seq![0u8]
    } else {
        spec_cstring(pairs[0].0) + spec_cstring(pairs[0].1) + spec_kv_bytes(pairs.drop_first())
    }
}

/// The encoded player list, terminating sentinel included.
pub open spec fn spec_player_bytes(names: Seq<Seq<char>>) -> Seq<u8>
    decreases names.len(),
{
    if names.len() == 0 {
        seq![0u8]
    } else {
        spec_cstring(names[0]) + spec_player_bytes(names.drop_first())
    }
}

/// Every key is nonempty, and no key or value contains a null character:
/// what it takes for a pair list to survive the wire.
pub open spec fn kv_wf(pairs: Seq<(Seq<char>, Seq<char>)>) -> bool {
    forall|i: int|
        0 <= i < pairs.len() ==> pairs[i].0.len() > 0 && no_nul(#[trigger] pairs[i].0) && no_nul(
            pairs[i].1,
        )
}

/// Every name is nonempty and contains no null character.
pub open spec fn players_wf(names: Seq<Seq<char>>) -> bool {
    forall|i: int| 0 <= i < names.len() ==> (#[trigger] names[i]).len() > 0 && no_nul(names[i])
}

/// Reading at the start of an encoded string yields that string's bytes.
proof fn lemma_read_cstr_of_encoded(b: Seq<u8>, pos: int, s: Seq<char>)
    requires
        0 <= pos,
        pos + spec_cstring(s).len() <= b.len(),
        b.subrange(pos, pos + spec_cstring(s).len()) == spec_cstring(s),
        no_nul(s),
    ensures
        spec_read_cstr(b, pos) == Some((encode_utf8(s), pos + spec_cstring(s).len())),
        valid_utf8(encode_utf8(s)),
        decode_utf8(encode_utf8(s)) == s,
        encode_utf8(s).len() >= s.len(),
{
    let e = encode_utf8(s);
    lemma_encode_utf8_no_zero_byte(s);
    assert(b.subrange(pos, pos + e.len()) =~= e) by {
        assert forall|i: int| 0 <= i < e.len() implies b[pos + i] == e[i] by {
            assert(b.subrange(pos, pos + spec_cstring(s).len())[i] == b[pos + i]);
            assert(spec_cstring(s)[i] == e[i]);
        }
    }
    assert(b[pos + e.len()] == 0) by {
        assert(b.subrange(pos, pos + spec_cstring(s).len())[e.len() as int] == b[pos + e.len()]);
        assert(spec_cstring(s)[e.len() as int] == 0);
    }
    lemma_read_cstr_of_terminated(b, pos, e);
    vstd::utf8::encode_utf8_valid_utf8(s);
    vstd::utf8::encode_utf8_decode_utf8(s);
}

/// Parsing an encoded key/value section yields exactly the pairs it was
/// built from.
pub proof fn lemma_parse_kv_of_encoded(b: Seq<u8>, pos: int, pairs: Seq<(Seq<char>, Seq<char>)>)
    requires
        0 <= pos,
        pos + spec_kv_bytes(pairs).len() <= b.len(),
        b.subrange(pos, pos + spec_kv_bytes(pairs).len()) == spec_kv_bytes(pairs),
        kv_wf(pairs),
    ensures
        spec_parse_kv(b, pos) == Ok::<(Seq<(Seq<char>, Seq<char>)>, int), ParseError>(
            (pairs, pos + spec_kv_bytes(pairs).len()),
        ),
    decreases pairs.len(),
{
    let whole = spec_kv_bytes(pairs);
    if pairs.len() == 0 {
        assert(b.subrange(pos, pos + 1)[0] == b[pos]);
        assert(b[pos] == 0);
        assert(pairs =~= Seq::<(Seq<char>, Seq<char>)>::empty());
    } else {
        let k = pairs[0].0;
        let v = pairs[0].1;
        let ck = spec_cstring(k);
        let cv = spec_cstring(v);
        let rest = spec_kv_bytes(pairs.drop_first());
        assert(whole == ck + cv + rest);
        assert(b.subrange(pos, pos + ck.len()) =~= ck) by {
            assert forall|i: int| 0 <= i < ck.len() implies b[pos + i] == ck[i] by {
                assert(b.subrange(pos, pos + whole.len())[i] == b[pos + i]);
                assert(whole[i] == ck[i]);
            }
        }
        lemma_read_cstr_of_encoded(b, pos, k);
        let p1 = pos + ck.len();
        assert(b.subrange(p1, p1 + cv.len()) =~= cv) by {
            assert forall|i: int| 0 <= i < cv.len() implies b[p1 + i] == cv[i] by {
                assert(b.subrange(pos, pos + whole.len())[ck.len() + i] == b[p1 + i]);
                assert(whole[ck.len() + i] == cv[i]);
            }
        }
        lemma_read_cstr_of_encoded(b, p1, v);
        let p2 = p1 + cv.len();
        assert(b.subrange(p2, p2 + rest.len()) =~= rest) by {
            assert forall|i: int| 0 <= i < rest.len() implies b[p2 + i] == rest[i] by {
                assert(b.subrange(pos, pos + whole.len())[ck.len() + cv.len() + i] == b[p2 + i]);
                assert(whole[ck.len() + cv.len() + i] == rest[i]);
            }
        }
        assert(kv_wf(pairs.drop_first())) by {
            assert forall|i: int|
                0 <= i < pairs.drop_first().len() implies pairs.drop_first()[i].0.len() > 0
                && no_nul(#[trigger] pairs.drop_first()[i].0) && no_nul(
                pairs.drop_first()[i].1,
            ) by {
                assert(pairs.drop_first()[i] == pairs[i + 1]);
            }
        }
        lemma_parse_kv_of_encoded(b, p2, pairs.drop_first());
        assert(encode_utf8(k).len() > 0);
        assert(seq![(decode_utf8(encode_utf8(k)), decode_utf8(encode_utf8(v)))]
            + pairs.drop_first() =~= pairs);
    }
}

/// Parsing an encoded player list yields exactly the names it was built
/// from.
pub proof fn lemma_parse_players_of_encoded(b: Seq<u8>, pos: int, names: Seq<Seq<char>>)
    requires
        0 <= pos,
        pos + spec_player_bytes(names).len() <= b.len(),
        b.subrange(pos, pos + spec_player_bytes(names).len()) == spec_player_bytes(names),
        players_wf(names),
    ensures
        spec_parse_players(b, pos) == Ok::<(Seq<Seq<char>>, int), ParseError>(
            (names, pos + spec_player_bytes(names).len()),
        ),
    decreases names.len(),
{
    let whole = spec_player_bytes(names);
    if names.len() == 0 {
        assert(b.subrange(pos, pos + 1)[0] == b[pos]);
        assert(b[pos] == 0);
        assert(names =~= Seq::<Seq<char>>::empty());
    } else {
        let nm = names[0];
        let cn = spec_cstring(nm);
        let rest = spec_player_bytes(names.drop_first());
        assert(whole == cn + rest);
        assert(b.subrange(pos, pos + cn.len()) =~= cn) by {
            assert forall|i: int| 0 <= i < cn.len() implies b[pos + i] == cn[i] by {
                assert(b.subrange(pos, pos + whole.len())[i] == b[pos + i]);
                assert(whole[i] == cn[i]);
            }
        }
        lemma_read_cstr_of_encoded(b, pos, nm);
        let p1 = pos + cn.len();
        assert(b.subrange(p1, p1 + rest.len()) =~= rest) by {
            assert forall|i: int| 0 <= i < rest.len() implies b[p1 + i] == rest[i] by {
                assert(b.subrange(pos, pos + whole.len())[cn.len() + i] == b[p1 + i]);
                assert(whole[cn.len() + i] == rest[i]);
            }
        }
        assert(players_wf(names.drop_first())) by {
            assert forall|i: int|
                0 <= i < names.drop_first().len() implies (#[trigger] names.drop_first()[i]).len()
                > 0 && no_nul(names.drop_first()[i]) by {
                assert(names.drop_first()[i] == names[i + 1]);
            }
        }
        lemma_parse_players_of_encoded(b, p1, names.drop_first());
        assert(encode_utf8(nm).len() > 0);
        assert(seq![decode_utf8(encode_utf8(nm))] + names.drop_first() =~= names);
    }
}

} // verus!
