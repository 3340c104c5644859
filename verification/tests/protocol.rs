use stats_parser::err::{ParseError, ProtocolError, QueryError, StatKey};
use stats_parser::handshake::parse_handshake_response;
use stats_parser::stat::{encode_full_stat, parse_full_stat_response, FullStatResponse};
use stats_parser::wire::{build_handshake_request, build_stat_request, validate_packet};

fn push_i32(out: &mut Vec<u8>, x: i32) {
    out.extend_from_slice(&x.to_be_bytes());
}

fn push_cstr(out: &mut Vec<u8>, s: &str) {
    out.extend_from_slice(s.as_bytes());
    out.push(0);
}

fn header(packet_type: u8, session: i32) -> Vec<u8> {
    let mut b = vec![packet_type];
    push_i32(&mut b, session);
    b
}

/// A full-stat response built key by key, per the wire layout.
fn stat_response(session: i32, kv: &[(&str, &str)], players: &[&str]) -> Vec<u8> {
    let mut b = header(0, session);
    b.extend_from_slice(&[0u8; 11]);
    for (k, v) in kv {
        push_cstr(&mut b, k);
        push_cstr(&mut b, v);
    }
    b.push(0);
    b.extend_from_slice(&[0u8; 10]);
    for p in players {
        push_cstr(&mut b, p);
    }
    b.push(0);
    b
}

fn full_kv() -> Vec<(&'static str, &'static str)> {
    vec![
        ("hostname", "My Server"),
        ("gametype", "SMP"),
        ("game_id", "MINECRAFT"),
        ("version", "1.20.1"),
        ("plugins", ""),
        ("map", "world"),
        ("numplayers", "3"),
        ("maxplayers", "20"),
        ("hostport", "25565"),
        ("hostip", "1.2.3.4"),
    ]
}

#[test]
fn handshake_request_layout() {
    assert_eq!(build_handshake_request(1), vec![0xfe, 0xfd, 9, 0, 0, 0, 1]);
    assert_eq!(
        build_handshake_request(-1),
        vec![0xfe, 0xfd, 9, 0xff, 0xff, 0xff, 0xff]
    );
}

#[test]
fn stat_request_layout() {
    assert_eq!(
        build_stat_request(0x0102_0304, 0x0a0b_0c0d),
        vec![0xfe, 0xfd, 0, 1, 2, 3, 4, 0x0a, 0x0b, 0x0c, 0x0d, 0, 0, 0, 0]
    );
}

#[test]
fn validate_packet_accepts_matching_header() {
    let b = header(9, 0x0102_0304);
    assert_eq!(validate_packet(&b, 9, 0x0102_0304), Ok(5));
}

#[test]
fn validate_packet_rejects_short_buffer() {
    assert_eq!(
        validate_packet(&vec![9, 0, 0], 9, 0),
        Err(QueryError::Parse(ParseError::UnexpectedEnd))
    );
}

#[test]
fn handshake_parses_token() {
    let mut b = header(9, 7);
    push_cstr(&mut b, "9513307");
    assert_eq!(parse_handshake_response(&b, 7), Ok(9513307));
}

#[test]
fn handshake_parses_negative_token() {
    let mut b = header(9, 7);
    push_cstr(&mut b, "-42");
    assert_eq!(parse_handshake_response(&b, 7), Ok(-42));
}

#[test]
fn handshake_ignores_trailing_bytes() {
    // the receive buffer is much larger than the datagram; parsing stops
    // at the token's terminator
    let mut b = header(9, 7);
    push_cstr(&mut b, "123");
    b.extend_from_slice(&[0u8; 64]);
    assert_eq!(parse_handshake_response(&b, 7), Ok(123));
}

#[test]
fn handshake_rejects_wrong_type() {
    let mut b = header(0, 7);
    push_cstr(&mut b, "123");
    assert_eq!(
        parse_handshake_response(&b, 7),
        Err(QueryError::Protocol(ProtocolError::UnexpectedType))
    );
}

#[test]
fn handshake_rejects_wrong_session() {
    let mut b = header(9, 8);
    push_cstr(&mut b, "123");
    assert_eq!(
        parse_handshake_response(&b, 7),
        Err(QueryError::Protocol(ProtocolError::SessionMismatch))
    );
}

#[test]
fn handshake_rejects_bad_token() {
    let mut b = header(9, 7);
    push_cstr(&mut b, "12x4");
    assert_eq!(
        parse_handshake_response(&b, 7),
        Err(QueryError::Parse(ParseError::InvalidToken))
    );
}

#[test]
fn handshake_rejects_unterminated_token() {
    let mut b = header(9, 7);
    b.extend_from_slice(b"123");
    assert_eq!(
        parse_handshake_response(&b, 7),
        Err(QueryError::Parse(ParseError::UnterminatedString))
    );
}

#[test]
fn handshake_rejects_bad_encoding() {
    let mut b = header(9, 7);
    b.extend_from_slice(&[0xff, 0xfe, 0]);
    assert_eq!(
        parse_handshake_response(&b, 7),
        Err(QueryError::Parse(ParseError::InvalidEncoding))
    );
}

#[test]
fn full_stat_concrete_scenario() {
    let b = stat_response(99, &full_kv(), &["Alice", "Bob", "Carol"]);
    let r = parse_full_stat_response(&b, 99).unwrap();
    assert_eq!(r.motd, "My Server");
    assert_eq!(r.game_type, "SMP");
    assert_eq!(r.game_id, "MINECRAFT");
    assert_eq!(r.version, "1.20.1");
    assert_eq!(r.plugins, "");
    assert_eq!(r.map, "world");
    assert_eq!(r.num_players, 3);
    assert_eq!(r.max_players, 20);
    assert_eq!(r.host_port, 25565);
    assert_eq!(r.host_ip, "1.2.3.4");
    assert_eq!(r.players, vec!["Alice", "Bob", "Carol"]);
}

#[test]
fn full_stat_rejects_wrong_session() {
    let b = stat_response(100, &full_kv(), &["Alice"]);
    assert_eq!(
        parse_full_stat_response(&b, 99),
        Err(QueryError::Protocol(ProtocolError::SessionMismatch))
    );
}

#[test]
fn full_stat_rejects_wrong_type() {
    let mut b = stat_response(99, &full_kv(), &["Alice"]);
    b[0] = 9;
    assert_eq!(
        parse_full_stat_response(&b, 99),
        Err(QueryError::Protocol(ProtocolError::UnexpectedType))
    );
}

#[test]
fn full_stat_missing_key_named() {
    let expected = [
        ("hostname", StatKey::Hostname),
        ("gametype", StatKey::GameType),
        ("game_id", StatKey::GameId),
        ("version", StatKey::Version),
        ("plugins", StatKey::Plugins),
        ("map", StatKey::MapName),
        ("numplayers", StatKey::NumPlayers),
        ("maxplayers", StatKey::MaxPlayers),
        ("hostport", StatKey::HostPort),
        ("hostip", StatKey::HostIp),
    ];
    for (omitted, key) in expected {
        let kv: Vec<(&str, &str)> = full_kv()
            .into_iter()
            .filter(|(k, _)| *k != omitted)
            .collect();
        let b = stat_response(99, &kv, &["Alice"]);
        assert_eq!(
            parse_full_stat_response(&b, 99),
            Err(QueryError::MissingField(key)),
            "omitting {omitted}"
        );
    }
}

#[test]
fn full_stat_non_numeric_field_named() {
    let cases = [
        ("numplayers", StatKey::NumPlayers),
        ("maxplayers", StatKey::MaxPlayers),
        ("hostport", StatKey::HostPort),
    ];
    for (field, key) in cases {
        let kv: Vec<(&str, &str)> = full_kv()
            .into_iter()
            .map(|(k, v)| if k == field { (k, "many") } else { (k, v) })
            .collect();
        let b = stat_response(99, &kv, &["Alice"]);
        assert_eq!(
            parse_full_stat_response(&b, 99),
            Err(QueryError::Parse(ParseError::InvalidNumber(key))),
            "garbling {field}"
        );
    }
}

#[test]
fn full_stat_hostport_over_range_is_invalid() {
    let kv: Vec<(&str, &str)> = full_kv()
        .into_iter()
        .map(|(k, v)| if k == "hostport" { (k, "70000") } else { (k, v) })
        .collect();
    let b = stat_response(99, &kv, &[]);
    assert_eq!(
        parse_full_stat_response(&b, 99),
        Err(QueryError::Parse(ParseError::InvalidNumber(StatKey::HostPort)))
    );
}

#[test]
fn full_stat_duplicate_key_last_wins() {
    let mut kv = full_kv();
    kv.push(("hostname", "Renamed"));
    let b = stat_response(99, &kv, &[]);
    let r = parse_full_stat_response(&b, 99).unwrap();
    assert_eq!(r.motd, "Renamed");
}

#[test]
fn full_stat_empty_player_list() {
    let b = stat_response(99, &full_kv(), &[]);
    let r = parse_full_stat_response(&b, 99).unwrap();
    assert!(r.players.is_empty());
}

#[test]
fn full_stat_truncated_padding() {
    let mut b = header(0, 99);
    b.extend_from_slice(&[0u8; 5]);
    assert_eq!(
        parse_full_stat_response(&b, 99),
        Err(QueryError::Parse(ParseError::UnexpectedEnd))
    );
}

#[test]
fn full_stat_unterminated_key() {
    let mut b = header(0, 99);
    b.extend_from_slice(&[0u8; 11]);
    b.extend_from_slice(b"hostname");
    assert_eq!(
        parse_full_stat_response(&b, 99),
        Err(QueryError::Parse(ParseError::UnterminatedString))
    );
}

#[test]
fn full_stat_bad_encoding_in_value() {
    let mut b = header(0, 99);
    b.extend_from_slice(&[0u8; 11]);
    push_cstr(&mut b, "hostname");
    b.extend_from_slice(&[0xff, 0xfe, 0]);
    assert_eq!(
        parse_full_stat_response(&b, 99),
        Err(QueryError::Parse(ParseError::InvalidEncoding))
    );
}

#[test]
fn encode_then_parse_round_trip() {
    let resp = FullStatResponse {
        motd: "Héllo wörld".to_string(),
        game_type: "SMP".to_string(),
        game_id: "MINECRAFT".to_string(),
        version: "1.20.1".to_string(),
        plugins: "".to_string(),
        map: "world".to_string(),
        num_players: 2,
        max_players: 20,
        host_port: 25565,
        host_ip: "10.0.0.1".to_string(),
        players: vec!["Ä".to_string(), "Bob".to_string()],
    };
    let session = 0x0a0b0c0d;
    let bytes = encode_full_stat(&resp, session).unwrap();
    assert_eq!(parse_full_stat_response(&bytes, session), Ok(resp));
}

#[test]
fn encode_refuses_embedded_nul() {
    let mut resp = FullStatResponse {
        motd: "ok".to_string(),
        game_type: "SMP".to_string(),
        game_id: "MINECRAFT".to_string(),
        version: "1".to_string(),
        plugins: "".to_string(),
        map: "world".to_string(),
        num_players: 0,
        max_players: 1,
        host_port: 1,
        host_ip: "h".to_string(),
        players: vec![],
    };
    assert!(encode_full_stat(&resp, 1).is_some());
    resp.motd = "bad\0motd".to_string();
    assert!(encode_full_stat(&resp, 1).is_none());
    resp.motd = "ok".to_string();
    resp.players = vec!["".to_string()];
    assert!(encode_full_stat(&resp, 1).is_none());
}
