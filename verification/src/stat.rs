//! The full-stat response: its parsed form, its parser, a synthetic
//! encoder, and the proof that the two are inverse.
//!
//! A full-stat payload is a header, eleven padding bytes, the key/value
//! section, ten padding bytes, and the player list. Ten keys are required;
//! three of them must parse as decimal numbers. Parsing follows the wire
//! order exactly, and every failure is one [`QueryError`].

use vstd::prelude::*;

use crate::err::ParseError;
use crate::err::QueryError;
use crate::err::StatKey;
use crate::num::format_u64;
use crate::num::is_valid_unsigned;
use crate::num::lemma_dec_digits_unsigned_round_trip;
use crate::num::lemma_dec_digits_val;
use crate::num::parse_u16;
use crate::num::parse_usize;
use crate::num::spec_dec_digits;
use crate::num::unsigned_val;
use crate::sections::kv_get;
use crate::sections::kv_lookup;
use crate::sections::kv_wf;
use crate::sections::lemma_kv_lookup_distinct;
use crate::sections::lemma_parse_kv_bounds;
use crate::sections::lemma_parse_kv_of_encoded;
use crate::sections::lemma_parse_players_of_encoded;
use crate::sections::parse_kv_section;
use crate::sections::parse_player_section;
use crate::sections::players_wf;
use crate::sections::spec_cstring;
use crate::sections::spec_kv_bytes;
use crate::sections::spec_parse_kv;
use crate::sections::spec_parse_players;
use crate::sections::spec_player_bytes;
use crate::text::check_no_nul;
use crate::text::no_nul;
use crate::text::string_to_utf8;
use crate::wire::lemma_i32_u32_round_trip;
use crate::wire::lemma_u32_be_round_trip;
use crate::wire::push_i32_be;
use crate::wire::spec_i32_be;
use crate::wire::spec_read_i32_be;
use crate::wire::spec_read_u8;
use crate::wire::spec_u32_of_be;
use crate::wire::spec_validate_packet;
use crate::wire::validate_packet;
use crate::wire::TYPE_STAT;

verus! {

/// Everything a full-stat response reports about the server.
#[derive(Debug, Clone, PartialEq)]
pub struct FullStatResponse {
    /// The message of the day, shown in the client's server list.
    pub motd: String,
    /// The game type; vanilla servers hardcode "SMP".
    pub game_type: String,
    /// The game id; vanilla servers hardcode "MINECRAFT".
    pub game_id: String,
    /// The server's game version.
    pub version: String,
    /// The installed plugins; empty on vanilla servers.
    pub plugins: String,
    /// The world name.
    pub map: String,
    /// How many players are online now.
    pub num_players: usize,
    /// How many players the server allows.
    pub max_players: usize,
    /// The port the server listens on.
    pub host_port: u16,
    /// The server's address.
    pub host_ip: String,
    /// The online players, in the order the server listed them.
    pub players: Vec<String>,
}

/// The ten required fields, as mathematical values.
#[verifier::ext_equal]
pub struct StatFieldsView {
    pub motd: Seq<char>,
    pub game_type: Seq<char>,
    pub game_id: Seq<char>,
    pub version: Seq<char>,
    pub plugins: Seq<char>,
    pub map: Seq<char>,
    pub num_players: int,
    pub max_players: int,
    pub host_port: u16,
    pub host_ip: Seq<char>,
}

/// A full-stat response, as mathematical values.
#[verifier::ext_equal]
pub struct FullStatView {
    pub motd: Seq<char>,
    pub game_type: Seq<char>,
    pub game_id: Seq<char>,
    pub version: Seq<char>,
    pub plugins: Seq<char>,
    pub map: Seq<char>,
    pub num_players: int,
    pub max_players: int,
    pub host_port: u16,
    pub host_ip: Seq<char>,
    pub players: Seq<Seq<char>>,
}

impl View for FullStatResponse {
    type V = FullStatView;

    open spec fn view(&self) -> FullStatView {
        FullStatView {
            motd: self.motd@,
            game_type: self.game_type@,
            game_id: self.game_id@,
            version: self.version@,
            plugins: self.plugins@,
            map: self.map@,
            num_players: self.num_players as int,
            max_players: self.max_players as int,
            host_port: self.host_port,
            host_ip: self.host_ip@,
            players: self.players.deep_view(),
        }
    }
}

/// The response assembled from its required fields and player list.
pub open spec fn full_stat_view(f: StatFieldsView, players: Seq<Seq<char>>) -> FullStatView {
    FullStatView {
        motd: f.motd,
        game_type: f.game_type,
        game_id: f.game_id,
        version: f.version,
        plugins: f.plugins,
        map: f.map,
        num_players: f.num_players,
        max_players: f.max_players,
        host_port: f.host_port,
        host_ip: f.host_ip,
        players,
    }
}

/// The required fields of a response.
pub open spec fn fields_of(v: FullStatView) -> StatFieldsView {
    StatFieldsView {
        motd: v.motd,
        game_type: v.game_type,
        game_id: v.game_id,
        version: v.version,
        plugins: v.plugins,
        map: v.map,
        num_players: v.num_players,
        max_players: v.max_players,
        host_port: v.host_port,
        host_ip: v.host_ip,
    }
}

/// Extract and convert the ten required fields from the parsed key/value
/// pairs, in the order the protocol fixes: the first absent key is the
/// error, and a key present but not numeric where a number is required is
/// an error naming that key.
pub open spec fn spec_extract_fields(kv: Seq<(Seq<char>, Seq<char>)>) -> Result<
    StatFieldsView,
    QueryError,
> {
    match kv_lookup(kv, "hostname"@) {
        None => Err(QueryError::MissingField(StatKey::Hostname)),
        Some(motd) => match kv_lookup(kv, "gametype"@) {
            None => Err(QueryError::MissingField(StatKey::GameType)),
            Some(game_type) => match kv_lookup(kv, "game_id"@) {
                None => Err(QueryError::MissingField(StatKey::GameId)),
                Some(game_id) => match kv_lookup(kv, "version"@) {
                    None => Err(QueryError::MissingField(StatKey::Version)),
                    Some(version) => match kv_lookup(kv, "plugins"@) {
                        None => Err(QueryError::MissingField(StatKey::Plugins)),
                        Some(plugins) => match kv_lookup(kv, "map"@) {
                            None => Err(QueryError::MissingField(StatKey::MapName)),
                            Some(map_name) => match kv_lookup(kv, "numplayers"@) {
                                None => Err(QueryError::MissingField(StatKey::NumPlayers)),
                                Some(np) => if !(is_valid_unsigned(np) && unsigned_val(np)
                                    <= usize::MAX) {
                                    Err(
                                        QueryError::Parse(
                                            ParseError::InvalidNumber(StatKey::NumPlayers),
                                        ),
                                    )
                                } else {
                                    match kv_lookup(kv, "maxplayers"@) {
                                        None => Err(QueryError::MissingField(StatKey::MaxPlayers)),
                                        Some(mp) => if !(is_valid_unsigned(mp) && unsigned_val(mp)
                                            <= usize::MAX) {
                                            Err(
                                                QueryError::Parse(
                                                    ParseError::InvalidNumber(StatKey::MaxPlayers),
                                                ),
                                            )
                                        } else {
                                            match kv_lookup(kv, "hostport"@) {
                                                None => Err(
                                                    QueryError::MissingField(StatKey::HostPort),
                                                ),
                                                Some(hp) => if !(is_valid_unsigned(hp)
                                                    && unsigned_val(hp) <= u16::MAX) {
                                                    Err(
                                                        QueryError::Parse(
                                                            ParseError::InvalidNumber(
                                                                StatKey::HostPort,
                                                            ),
                                                        ),
                                                    )
                                                } else {
                                                    match kv_lookup(kv, "hostip"@) {
                                                        None => Err(
                                                            QueryError::MissingField(
                                                                StatKey::HostIp,
                                                            ),
                                                        ),
                                                        Some(host_ip) => Ok(
                                                            StatFieldsView {
                                                                motd,
                                                                game_type,
                                                                game_id,
                                                                version,
                                                                plugins,
                                                                map: map_name,
                                                                num_players: unsigned_val(np),
                                                                max_players: unsigned_val(mp),
                                                                host_port: unsigned_val(hp) as u16,
                                                                host_ip,
                                                            },
                                                        ),
                                                    }
                                                },
                                            }
                                        },
                                    }
                                },
                            },
                        },
                    },
                },
            },
        },
    }
}

/// Parse a full-stat response: validate the header against `session`, skip
/// the eleven padding bytes, parse the key/value section, extract the
/// required fields, skip the ten padding bytes, and parse the player list.
pub open spec fn spec_parse_full_stat(b: Seq<u8>, session: i32) -> Result<FullStatView, QueryError> {
    match spec_validate_packet(b, TYPE_STAT, session) {
        Err(e) => Err(e),
        Ok(p) => {
            if p + 11 > b.len() {
                Err(QueryError::Parse(ParseError::UnexpectedEnd))
            } else {
                match spec_parse_kv(b, p + 11) {
                    Err(e) => Err(QueryError::Parse(e)),
                    Ok((kv, p2)) => match spec_extract_fields(kv) {
                        Err(e) => Err(e),
                        Ok(f) => {
                            if p2 + 10 > b.len() {
                                Err(QueryError::Parse(ParseError::UnexpectedEnd))
                            } else {
                                match spec_parse_players(b, p2 + 10) {
                                    Err(e) => Err(QueryError::Parse(e)),
                                    Ok((players, _)) => Ok(full_stat_view(f, players)),
                                }
                            }
                        },
                    },
                }
            }
        },
    }
}

/// Parse a full-stat response received for `session`.
pub fn parse_full_stat_response(bytes: &Vec<u8>, session: i32) -> (r: Result<
    FullStatResponse,
    QueryError,
>)
    ensures
        match r {
            Ok(v) => spec_parse_full_stat(bytes@, session) == Ok::<FullStatView, QueryError>(v@),
            Err(e) => spec_parse_full_stat(bytes@, session) == Err::<FullStatView, QueryError>(e),
        },
{
    let p = match validate_packet(bytes, TYPE_STAT, session) {
        Ok(p) => p,
        Err(e) => {
            return Err(e);
        },
    };
    proof {
        assert(p == 5);
    }
    if bytes.len() < p + 11 {
        return Err(QueryError::Parse(ParseError::UnexpectedEnd));
    }
    let (kv, p2) = match parse_kv_section(bytes, p + 11) {
        Ok(v) => v,
        Err(e) => {
            return Err(QueryError::Parse(e));
        },
    };
    proof {
        lemma_parse_kv_bounds(bytes@, p + 11);
    }
    let motd = match kv_get(&kv, "hostname") {
        Some(v) => v,
        None => {
            return Err(QueryError::MissingField(StatKey::Hostname));
        },
    };
    let game_type = match kv_get(&kv, "gametype") {
        Some(v) => v,
        None => {
            return Err(QueryError::MissingField(StatKey::GameType));
        },
    };
    let game_id = match kv_get(&kv, "game_id") {
        Some(v) => v,
        None => {
            return Err(QueryError::MissingField(StatKey::GameId));
        },
    };
    let version = match kv_get(&kv, "version") {
        Some(v) => v,
        None => {
            return Err(QueryError::MissingField(StatKey::Version));
        },
    };
    let plugins = match kv_get(&kv, "plugins") {
        Some(v) => v,
        None => {
            return Err(QueryError::MissingField(StatKey::Plugins));
        },
    };
    let map_name = match kv_get(&kv, "map") {
        Some(v) => v,
        None => {
            return Err(QueryError::MissingField(StatKey::MapName));
        },
    };
    let num_players = match kv_get(&kv, "numplayers") {
        Some(s) => match parse_usize(s.as_str()) {
            Some(v) => v,
            None => {
                return Err(QueryError::Parse(ParseError::InvalidNumber(StatKey::NumPlayers)));
            },
        },
        None => {
            return Err(QueryError::MissingField(StatKey::NumPlayers));
        },
    };
    let max_players = match kv_get(&kv, "maxplayers") {
        Some(s) => match parse_usize(s.as_str()) {
            Some(v) => v,
            None => {
                return Err(QueryError::Parse(ParseError::InvalidNumber(StatKey::MaxPlayers)));
            },
        },
        None => {
            return Err(QueryError::MissingField(StatKey::MaxPlayers));
        },
    };
    let host_port = match kv_get(&kv, "hostport") {
        Some(s) => match parse_u16(s.as_str()) {
            Some(v) => v,
            None => {
                return Err(QueryError::Parse(ParseError::InvalidNumber(StatKey::HostPort)));
            },
        },
        None => {
            return Err(QueryError::MissingField(StatKey::HostPort));
        },
    };
    let host_ip = match kv_get(&kv, "hostip") {
        Some(v) => v,
        None => {
            return Err(QueryError::MissingField(StatKey::HostIp));
        },
    };
    if bytes.len() < 10 || p2 > bytes.len() - 10 {
        return Err(QueryError::Parse(ParseError::UnexpectedEnd));
    }
    let (players, _end) = match parse_player_section(bytes, p2 + 10) {
        Ok(v) => v,
        Err(e) => {
            return Err(QueryError::Parse(e));
        },
    };
    Ok(
        FullStatResponse {
            motd,
            game_type,
            game_id,
            version,
            plugins,
            map: map_name,
            num_players,
            max_players,
            host_port,
            host_ip,
            players,
        },
    )
}

// ---------------------------------------------------------------------------
// Synthetic encoder
// ---------------------------------------------------------------------------

/// `n` zero bytes.
pub open spec fn spec_pad(n: int) -> Seq<u8> {
    Seq::new(n as nat, |i: int| 0u8)
}

/// The required keys with the response's values, in the order the encoder
/// writes them; the numeric fields in their canonical decimal form.
pub open spec fn spec_stat_fields_pairs(f: StatFieldsView) -> Seq<(Seq<char>, Seq<char>)> {
    seq![
        ("hostname"@, f.motd),
        ("gametype"@, f.game_type),
        ("game_id"@, f.game_id),
        ("version"@, f.version),
        ("plugins"@, f.plugins),
        ("map"@, f.map),
        ("numplayers"@, spec_dec_digits(f.num_players)),
        ("maxplayers"@, spec_dec_digits(f.max_players)),
        ("hostport"@, spec_dec_digits(f.host_port as int)),
        ("hostip"@, f.host_ip),
    ]
}

/// A well-formed full-stat response as §6 lays it out: header, eleven
/// padding bytes, key/value section, ten padding bytes, player list.
pub open spec fn spec_encode_full_stat(v: FullStatView, session: i32) -> Seq<u8> {
    seq![TYPE_STAT] + spec_i32_be(session) + spec_pad(11) + spec_kv_bytes(
        spec_stat_fields_pairs(fields_of(v)),
    ) + spec_pad(10) + spec_player_bytes(v.players)
}

/// A response that can survive the wire: no string field holds a null
/// character, every player name is nonempty and null-free, and the player
/// counts are representable.
pub open spec fn full_stat_wf(v: FullStatView) -> bool {
    &&& no_nul(v.motd)
    &&& no_nul(v.game_type)
    &&& no_nul(v.game_id)
    &&& no_nul(v.version)
    &&& no_nul(v.plugins)
    &&& no_nul(v.map)
    &&& no_nul(v.host_ip)
    &&& 0 <= v.num_players <= usize::MAX
    &&& 0 <= v.max_players <= usize::MAX
    &&& players_wf(v.players)
}

/// Append `n` zero bytes.
fn push_zeros(out: &mut Vec<u8>, n: usize)
    ensures
        final(out)@ == old(out)@ + spec_pad(n as int),
{
    let mut k: usize = 0;
    while k < n
        invariant
            k <= n,
            out@ == old(out)@ + spec_pad(k as int),
        decreases n - k,
    {
        out.push(0);
        proof {
            assert(old(out)@ + spec_pad(k as int) + seq![0u8] =~= old(out)@ + spec_pad(
                k + 1,
            ));
        }
        k = k + 1;
    }
}

/// Append a string as it stands on the wire: its UTF-8 bytes and one null.
fn push_cstring(out: &mut Vec<u8>, s: &String)
    ensures
        final(out)@ == old(out)@ + spec_cstring(s@),
{
    let mut bytes = string_to_utf8(s);
    out.append(&mut bytes);
    out.push(0);
    proof {
        assert(out@ =~= old(out)@ + spec_cstring(s@));
    }
}

/// Append the encoded key/value section from `idx` on, sentinel included.
fn push_kv_bytes(out: &mut Vec<u8>, pairs: &Vec<(String, String)>, idx: usize)
    requires
        idx <= pairs.len(),
    ensures
        final(out)@ == old(out)@ + spec_kv_bytes(pairs.deep_view().skip(idx as int)),
    decreases pairs.len() - idx,
{
    if idx == pairs.len() {
        out.push(0);
        proof {
            assert(pairs.deep_view().skip(idx as int) =~= Seq::<(Seq<char>, Seq<char>)>::empty());
            assert(old(out)@.push(0u8) =~= old(out)@ + seq![0u8]);
        }
    } else {
        push_cstring(out, &pairs[idx].0);
        push_cstring(out, &pairs[idx].1);
        push_kv_bytes(out, pairs, idx + 1);
        proof {
            let rest = pairs.deep_view().skip(idx as int);
            assert(rest[0] == (pairs@[idx as int].0@, pairs@[idx as int].1@));
            assert(rest.drop_first() =~= pairs.deep_view().skip(idx + 1));
            assert(old(out)@ + spec_cstring(rest[0].0) + spec_cstring(rest[0].1) + spec_kv_bytes(
                rest.drop_first(),
            ) =~= old(out)@ + spec_kv_bytes(rest));
        }
    }
}

/// Append the encoded player list from `idx` on, sentinel included.
fn push_player_bytes(out: &mut Vec<u8>, names: &Vec<String>, idx: usize)
    requires
        idx <= names.len(),
    ensures
        final(out)@ == old(out)@ + spec_player_bytes(names.deep_view().skip(idx as int)),
    decreases names.len() - idx,
{
    if idx == names.len() {
        out.push(0);
        proof {
            assert(names.deep_view().skip(idx as int) =~= Seq::<Seq<char>>::empty());
            assert(old(out)@.push(0u8) =~= old(out)@ + seq![0u8]);
        }
    } else {
        push_cstring(out, &names[idx]);
        push_player_bytes(out, names, idx + 1);
        proof {
            let rest = names.deep_view().skip(idx as int);
            assert(rest[0] == names@[idx as int]@);
            assert(rest.drop_first() =~= names.deep_view().skip(idx + 1));
            assert(old(out)@ + spec_cstring(rest[0]) + spec_player_bytes(rest.drop_first())
                =~= old(out)@ + spec_player_bytes(rest));
        }
    }
}

/// Encode `resp` as the full-stat response a server would send for
/// `session`, or `None` when the response cannot survive the wire: a
/// string field holds a null character, or a player name is empty or
/// holds one.
pub fn encode_full_stat(resp: &FullStatResponse, session: i32) -> (r: Option<Vec<u8>>)
    ensures
        r is Some <==> full_stat_wf(resp@),
        r is Some ==> r.unwrap()@ == spec_encode_full_stat(resp@, session),
{
    if !check_no_nul(&resp.motd) {
        return None;
    }
    if !check_no_nul(&resp.game_type) {
        return None;
    }
    if !check_no_nul(&resp.game_id) {
        return None;
    }
    if !check_no_nul(&resp.version) {
        return None;
    }
    if !check_no_nul(&resp.plugins) {
        return None;
    }
    if !check_no_nul(&resp.map) {
        return None;
    }
    if !check_no_nul(&resp.host_ip) {
        return None;
    }
    let mut pi: usize = 0;
    while pi < resp.players.len()
        invariant
            pi <= resp.players@.len(),
            forall|j: int|
                0 <= j < pi ==> (#[trigger] resp.players.deep_view()[j]).len() > 0 && no_nul(
                    resp.players.deep_view()[j],
                ),
        decreases resp.players@.len() - pi,
    {
        let name = &resp.players[pi];
        proof {
            assert(resp.players.deep_view()[pi as int] == resp.players@[pi as int]@);
        }
        if name.as_str().unicode_len() == 0 {
            return None;
        }
        if !check_no_nul(name) {
            return None;
        }
        pi = pi + 1;
    }
    let mut kv_list: Vec<(String, String)> = Vec::new();
    kv_list.push(("hostname".to_owned(), resp.motd.clone()));
    kv_list.push(("gametype".to_owned(), resp.game_type.clone()));
    kv_list.push(("game_id".to_owned(), resp.game_id.clone()));
    kv_list.push(("version".to_owned(), resp.version.clone()));
    kv_list.push(("plugins".to_owned(), resp.plugins.clone()));
    kv_list.push(("map".to_owned(), resp.map.clone()));
    kv_list.push(("numplayers".to_owned(), format_u64(resp.num_players as u64)));
    kv_list.push(("maxplayers".to_owned(), format_u64(resp.max_players as u64)));
    kv_list.push(("hostport".to_owned(), format_u64(resp.host_port as u64)));
    kv_list.push(("hostip".to_owned(), resp.host_ip.clone()));
    proof {
        assert(kv_list.deep_view() =~= spec_stat_fields_pairs(fields_of(resp@)));
    }
    let mut out: Vec<u8> = Vec::new();
    out.push(TYPE_STAT);
    push_i32_be(&mut out, session);
    push_zeros(&mut out, 11);
    push_kv_bytes(&mut out, &kv_list, 0);
    push_zeros(&mut out, 10);
    push_player_bytes(&mut out, &resp.players, 0);
    proof {
        assert(kv_list.deep_view().skip(0) =~= kv_list.deep_view());
        assert(resp.players.deep_view().skip(0) =~= resp.players.deep_view());
        assert(out@ =~= spec_encode_full_stat(resp@, session));
    }
    Some(out)
}

// ---------------------------------------------------------------------------
// Round trip
// ---------------------------------------------------------------------------

/// The canonical digits of a number contain no null character.
proof fn lemma_dec_digits_no_nul(n: int)
    requires
        n >= 0,
    ensures
        no_nul(spec_dec_digits(n)),
        is_valid_unsigned(spec_dec_digits(n)),
        unsigned_val(spec_dec_digits(n)) == n,
{
    lemma_dec_digits_val(n);
    lemma_dec_digits_unsigned_round_trip(n);
    let s = spec_dec_digits(n);
    assert forall|i: int| 0 <= i < s.len() implies s[i] != '\u{0}' by {
        assert(crate::num::is_dec_digit(s[i]));
    }
}

/// The key is recorded, its value is a well-formed unsigned decimal, and
/// the value fits below `max`: what a numeric field must satisfy.
pub open spec fn numeric_field_ok(kv: Seq<(Seq<char>, Seq<char>)>, key: Seq<char>, max: int) -> bool {
    &&& kv_lookup(kv, key) is Some
    &&& is_valid_unsigned(kv_lookup(kv, key).unwrap())
    &&& unsigned_val(kv_lookup(kv, key).unwrap()) <= max
}

/// Omitting any one required key from the key/value section, with the
/// other nine present and the numeric ones among them valid, fails with
/// `MissingField` naming exactly the omitted key — never a parsed result.
pub proof fn lemma_missing_field_named(kv: Seq<(Seq<char>, Seq<char>)>, k: StatKey)
    requires
        kv_lookup(kv, k.spec_name()) is None,
        k != StatKey::Hostname ==> kv_lookup(kv, "hostname"@) is Some,
        k != StatKey::GameType ==> kv_lookup(kv, "gametype"@) is Some,
        k != StatKey::GameId ==> kv_lookup(kv, "game_id"@) is Some,
        k != StatKey::Version ==> kv_lookup(kv, "version"@) is Some,
        k != StatKey::Plugins ==> kv_lookup(kv, "plugins"@) is Some,
        k != StatKey::MapName ==> kv_lookup(kv, "map"@) is Some,
        k != StatKey::NumPlayers ==> numeric_field_ok(kv, "numplayers"@, usize::MAX as int),
        k != StatKey::MaxPlayers ==> numeric_field_ok(kv, "maxplayers"@, usize::MAX as int),
        k != StatKey::HostPort ==> numeric_field_ok(kv, "hostport"@, u16::MAX as int),
        k != StatKey::HostIp ==> kv_lookup(kv, "hostip"@) is Some,
    ensures
        spec_extract_fields(kv) == Err::<StatFieldsView, QueryError>(QueryError::MissingField(k)),
{
}

/// A value that is present but not a well-formed number, under
/// `numplayers`, `maxplayers` or `hostport`, fails with a parse error
/// naming exactly that field — never a parsed result. The premise has
/// every required key present and the numeric fields read before the
/// offending one valid.
pub proof fn lemma_invalid_number_named(kv: Seq<(Seq<char>, Seq<char>)>, k: StatKey)
    requires
        k == StatKey::NumPlayers || k == StatKey::MaxPlayers || k == StatKey::HostPort,
        kv_lookup(kv, "hostname"@) is Some,
        kv_lookup(kv, "gametype"@) is Some,
        kv_lookup(kv, "game_id"@) is Some,
        kv_lookup(kv, "version"@) is Some,
        kv_lookup(kv, "plugins"@) is Some,
        kv_lookup(kv, "map"@) is Some,
        kv_lookup(kv, "numplayers"@) is Some,
        kv_lookup(kv, "maxplayers"@) is Some,
        kv_lookup(kv, "hostport"@) is Some,
        kv_lookup(kv, "hostip"@) is Some,
        k == StatKey::NumPlayers ==> !numeric_field_ok(kv, "numplayers"@, usize::MAX as int),
        k == StatKey::MaxPlayers ==> numeric_field_ok(kv, "numplayers"@, usize::MAX as int)
            && !numeric_field_ok(kv, "maxplayers"@, usize::MAX as int),
        k == StatKey::HostPort ==> numeric_field_ok(kv, "numplayers"@, usize::MAX as int)
            && numeric_field_ok(kv, "maxplayers"@, usize::MAX as int) && !numeric_field_ok(
            kv,
            "hostport"@,
            u16::MAX as int,
        ),
    ensures
        spec_extract_fields(kv) == Err::<StatFieldsView, QueryError>(
            QueryError::Parse(ParseError::InvalidNumber(k)),
        ),
{
}

/// A reply whose type byte is not the stat type never yields a parsed
/// result: whatever follows the header, parsing fails with a protocol
/// error.
pub proof fn lemma_stat_wrong_type_rejected(b: Seq<u8>, session: i32)
    requires
        b.len() > 0,
        b[0] != TYPE_STAT,
    ensures
        spec_parse_full_stat(b, session) == Err::<FullStatView, QueryError>(
            QueryError::Protocol(crate::err::ProtocolError::UnexpectedType),
        ),
{
}

/// A reply whose echoed session id differs from the one the request
/// carried never yields a parsed result: whatever follows the header,
/// parsing fails with a protocol error.
pub proof fn lemma_stat_session_mismatch_rejected(b: Seq<u8>, session: i32)
    requires
        b.len() >= 5,
        b[0] == TYPE_STAT,
        spec_u32_of_be(b[1], b[2], b[3], b[4]) as i32 != session,
    ensures
        spec_parse_full_stat(b, session) == Err::<FullStatView, QueryError>(
            QueryError::Protocol(crate::err::ProtocolError::SessionMismatch),
        ),
{
}

/// Parsing a well-formed encoded response reproduces exactly the fields it
/// was built from: the synthetic encoder and the parser are inverse.
pub proof fn lemma_full_stat_round_trip(v: FullStatView, session: i32)
    requires
        full_stat_wf(v),
    ensures
        spec_parse_full_stat(spec_encode_full_stat(v, session), session) == Ok::<
            FullStatView,
            QueryError,
        >(v),
{
    let fields = fields_of(v);
    let pairs = spec_stat_fields_pairs(fields);
    let kvb = spec_kv_bytes(pairs);
    let pb = spec_player_bytes(v.players);
    let b = spec_encode_full_stat(v, session);
    assert(b.len() == 16 + kvb.len() + 10 + pb.len());
    // Header: type byte, then the session id echoed back.
    assert(b[0] == TYPE_STAT);
    assert(spec_read_u8(b, 0) == Some((TYPE_STAT, 1int)));
    let u = session as u32;
    lemma_u32_be_round_trip(u);
    lemma_i32_u32_round_trip(session);
    assert(b[1] == (u >> 24) as u8);
    assert(b[2] == (u >> 16) as u8);
    assert(b[3] == (u >> 8) as u8);
    assert(b[4] == u as u8);
    assert(spec_read_i32_be(b, 1) == Some((session, 5int)));
    assert(spec_validate_packet(b, TYPE_STAT, session) == Ok::<int, QueryError>(5));
    // The key/value section sits after the eleven padding bytes.
    assert(b.subrange(16, 16 + kvb.len() as int) =~= kvb) by {
        assert forall|i: int| 0 <= i < kvb.len() implies b[16 + i] == kvb[i] by {}
    }
    reveal_strlit("hostname");
    reveal_strlit("gametype");
    reveal_strlit("game_id");
    reveal_strlit("version");
    reveal_strlit("plugins");
    reveal_strlit("map");
    reveal_strlit("numplayers");
    reveal_strlit("maxplayers");
    reveal_strlit("hostport");
    reveal_strlit("hostip");
    lemma_dec_digits_no_nul(v.num_players);
    lemma_dec_digits_no_nul(v.max_players);
    lemma_dec_digits_no_nul(v.host_port as int);
    assert(kv_wf(pairs)) by {
        assert forall|i: int|
            0 <= i < pairs.len() implies pairs[i].0.len() > 0 && no_nul(#[trigger] pairs[i].0)
            && no_nul(pairs[i].1) by {}
    }
    lemma_parse_kv_of_encoded(b, 16, pairs);
    let p2: int = 16 + kvb.len() as int;
    assert(spec_parse_kv(b, 16) == Ok::<(Seq<(Seq<char>, Seq<char>)>, int), ParseError>(
        (pairs, p2),
    ));
    // Each required key finds its own value: the ten keys all differ.
    assert forall|a: int, c: int| 0 <= a < c < pairs.len() implies pairs[a].0 != pairs[c].0 by {
        assert("hostname"@[0] != "gametype"@[0]);
        assert("hostname"@ != "gametype"@);
        assert("hostname"@.len() != "game_id"@.len());
        assert("hostname"@ != "game_id"@);
        assert("hostname"@.len() != "version"@.len());
        assert("hostname"@ != "version"@);
        assert("hostname"@.len() != "plugins"@.len());
        assert("hostname"@ != "plugins"@);
        assert("hostname"@.len() != "map"@.len());
        assert("hostname"@ != "map"@);
        assert("hostname"@.len() != "numplayers"@.len());
        assert("hostname"@ != "numplayers"@);
        assert("hostname"@.len() != "maxplayers"@.len());
        assert("hostname"@ != "maxplayers"@);
        assert("hostname"@[4] != "hostport"@[4]);
        assert("hostname"@ != "hostport"@);
        assert("hostname"@.len() != "hostip"@.len());
        assert("hostname"@ != "hostip"@);
        assert("gametype"@.len() != "game_id"@.len());
        assert("gametype"@ != "game_id"@);
        assert("gametype"@.len() != "version"@.len());
        assert("gametype"@ != "version"@);
        assert("gametype"@.len() != "plugins"@.len());
        assert("gametype"@ != "plugins"@);
        assert("gametype"@.len() != "map"@.len());
        assert("gametype"@ != "map"@);
        assert("gametype"@.len() != "numplayers"@.len());
        assert("gametype"@ != "numplayers"@);
        assert("gametype"@.len() != "maxplayers"@.len());
        assert("gametype"@ != "maxplayers"@);
        assert("gametype"@[0] != "hostport"@[0]);
        assert("gametype"@ != "hostport"@);
        assert("gametype"@.len() != "hostip"@.len());
        assert("gametype"@ != "hostip"@);
        assert("game_id"@[0] != "version"@[0]);
        assert("game_id"@ != "version"@);
        assert("game_id"@[0] != "plugins"@[0]);
        assert("game_id"@ != "plugins"@);
        assert("game_id"@.len() != "map"@.len());
        assert("game_id"@ != "map"@);
        assert("game_id"@.len() != "numplayers"@.len());
        assert("game_id"@ != "numplayers"@);
        assert("game_id"@.len() != "maxplayers"@.len());
        assert("game_id"@ != "maxplayers"@);
        assert("game_id"@.len() != "hostport"@.len());
        assert("game_id"@ != "hostport"@);
        assert("game_id"@.len() != "hostip"@.len());
        assert("game_id"@ != "hostip"@);
        assert("version"@[0] != "plugins"@[0]);
        assert("version"@ != "plugins"@);
        assert("version"@.len() != "map"@.len());
        assert("version"@ != "map"@);
        assert("version"@.len() != "numplayers"@.len());
        assert("version"@ != "numplayers"@);
        assert("version"@.len() != "maxplayers"@.len());
        assert("version"@ != "maxplayers"@);
        assert("version"@.len() != "hostport"@.len());
        assert("version"@ != "hostport"@);
        assert("version"@.len() != "hostip"@.len());
        assert("version"@ != "hostip"@);
        assert("plugins"@.len() != "map"@.len());
        assert("plugins"@ != "map"@);
        assert("plugins"@.len() != "numplayers"@.len());
        assert("plugins"@ != "numplayers"@);
        assert("plugins"@.len() != "maxplayers"@.len());
        assert("plugins"@ != "maxplayers"@);
        assert("plugins"@.len() != "hostport"@.len());
        assert("plugins"@ != "hostport"@);
        assert("plugins"@.len() != "hostip"@.len());
        assert("plugins"@ != "hostip"@);
        assert("map"@.len() != "numplayers"@.len());
        assert("map"@ != "numplayers"@);
        assert("map"@.len() != "maxplayers"@.len());
        assert("map"@ != "maxplayers"@);
        assert("map"@.len() != "hostport"@.len());
        assert("map"@ != "hostport"@);
        assert("map"@.len() != "hostip"@.len());
        assert("map"@ != "hostip"@);
        assert("numplayers"@[0] != "maxplayers"@[0]);
        assert("numplayers"@ != "maxplayers"@);
        assert("numplayers"@.len() != "hostport"@.len());
        assert("numplayers"@ != "hostport"@);
        assert("numplayers"@.len() != "hostip"@.len());
        assert("numplayers"@ != "hostip"@);
        assert("maxplayers"@.len() != "hostport"@.len());
        assert("maxplayers"@ != "hostport"@);
        assert("maxplayers"@.len() != "hostip"@.len());
        assert("maxplayers"@ != "hostip"@);
        assert("hostport"@.len() != "hostip"@.len());
        assert("hostport"@ != "hostip"@);
    }
    lemma_kv_lookup_distinct(pairs, 0);
    lemma_kv_lookup_distinct(pairs, 1);
    lemma_kv_lookup_distinct(pairs, 2);
    lemma_kv_lookup_distinct(pairs, 3);
    lemma_kv_lookup_distinct(pairs, 4);
    lemma_kv_lookup_distinct(pairs, 5);
    lemma_kv_lookup_distinct(pairs, 6);
    lemma_kv_lookup_distinct(pairs, 7);
    lemma_kv_lookup_distinct(pairs, 8);
    lemma_kv_lookup_distinct(pairs, 9);
    assert(kv_lookup(pairs, "hostname"@) == Some(v.motd));
    assert(kv_lookup(pairs, "gametype"@) == Some(v.game_type));
    assert(kv_lookup(pairs, "game_id"@) == Some(v.game_id));
    assert(kv_lookup(pairs, "version"@) == Some(v.version));
    assert(kv_lookup(pairs, "plugins"@) == Some(v.plugins));
    assert(kv_lookup(pairs, "map"@) == Some(v.map));
    assert(kv_lookup(pairs, "numplayers"@) == Some(spec_dec_digits(v.num_players)));
    assert(kv_lookup(pairs, "maxplayers"@) == Some(spec_dec_digits(v.max_players)));
    assert(kv_lookup(pairs, "hostport"@) == Some(spec_dec_digits(v.host_port as int)));
    assert(kv_lookup(pairs, "hostip"@) == Some(v.host_ip));
    assert(spec_extract_fields(pairs) == Ok::<StatFieldsView, QueryError>(fields)) by {
        assert(spec_extract_fields(pairs) is Ok);
        assert(spec_extract_fields(pairs).unwrap() =~= fields);
    }
    // The player list sits after the ten padding bytes.
    assert(p2 + 10 <= b.len());
    assert(b.subrange(p2 + 10, p2 + 10 + pb.len() as int) =~= pb) by {
        assert forall|i: int| 0 <= i < pb.len() implies b[p2 + 10 + i] == pb[i] by {}
    }
    lemma_parse_players_of_encoded(b, p2 + 10, v.players);
    assert(full_stat_view(fields, v.players) =~= v);
}

} // verus!
