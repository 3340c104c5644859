use stats_parser::err::{ParseError, ProtocolError, QueryError, TransportError};
use stats_parser::query::{QueryAction, QueryState};
use stats_parser::transport::{RecvOutcome, SendAwait, SendStep};

fn handshake_reply(session: i32, token: &str) -> Vec<u8> {
    let mut b = vec![9];
    b.extend_from_slice(&session.to_be_bytes());
    b.extend_from_slice(token.as_bytes());
    b.push(0);
    b
}

fn stat_reply(session: i32) -> Vec<u8> {
    let mut b = vec![0];
    b.extend_from_slice(&session.to_be_bytes());
    b.extend_from_slice(&[0u8; 11]);
    for (k, v) in [
        ("hostname", "A"),
        ("gametype", "SMP"),
        ("game_id", "MINECRAFT"),
        ("version", "1.20.1"),
        ("plugins", ""),
        ("map", "w"),
        ("numplayers", "1"),
        ("maxplayers", "8"),
        ("hostport", "25565"),
        ("hostip", "1.1.1.1"),
    ] {
        b.extend_from_slice(k.as_bytes());
        b.push(0);
        b.extend_from_slice(v.as_bytes());
        b.push(0);
    }
    b.push(0);
    b.extend_from_slice(&[0u8; 10]);
    b.extend_from_slice(b"Zed\0");
    b.push(0);
    b
}

#[test]
fn reply_in_first_window_finishes() {
    let mut x = SendAwait::begin();
    let step = x.on_outcome(RecvOutcome::Reply(vec![1, 2, 3]));
    assert_eq!(step, SendStep::Finish(Ok(vec![1, 2, 3])));
}

#[test]
fn timeout_then_reply_succeeds_transparently() {
    let mut x = SendAwait::begin();
    assert_eq!(x.on_outcome(RecvOutcome::TimedOut), SendStep::Resend);
    let step = x.on_outcome(RecvOutcome::Reply(vec![7]));
    assert_eq!(step, SendStep::Finish(Ok(vec![7])));
}

#[test]
fn double_timeout_fails_with_timeout() {
    let mut x = SendAwait::begin();
    assert_eq!(x.on_outcome(RecvOutcome::TimedOut), SendStep::Resend);
    assert_eq!(
        x.on_outcome(RecvOutcome::TimedOut),
        SendStep::Finish(Err(TransportError::Timeout))
    );
}

#[test]
fn receive_failure_is_io_error() {
    let mut x = SendAwait::begin();
    assert_eq!(
        x.on_outcome(RecvOutcome::Failed),
        SendStep::Finish(Err(TransportError::Io))
    );
}

#[test]
fn query_happy_path() {
    let session = 0x01020304;
    let (st, act) = QueryState::begin(session);
    assert_eq!(st, QueryState::AwaitingHandshake { session });
    assert_eq!(
        act,
        QueryAction::Send(vec![0xfe, 0xfd, 9, 1, 2, 3, 4])
    );
    let (st, act) = st.on_reply(Ok(handshake_reply(session, "777")));
    assert_eq!(st, QueryState::AwaitingStat { session, token: 777 });
    match &act {
        QueryAction::Send(req) => {
            assert_eq!(&req[..7], &[0xfe, 0xfd, 0, 1, 2, 3, 4]);
            assert_eq!(&req[7..11], &777i32.to_be_bytes());
            assert_eq!(&req[11..], &[0, 0, 0, 0]);
        }
        QueryAction::Stop => panic!("expected a stat request"),
    }
    let (st, act) = st.on_reply(Ok(stat_reply(session)));
    assert_eq!(act, QueryAction::Stop);
    match st {
        QueryState::Done(resp) => {
            assert_eq!(resp.motd, "A");
            assert_eq!(resp.players, vec!["Zed"]);
        }
        other => panic!("expected success, got {other:?}"),
    }
}

#[test]
fn query_handshake_timeout_fails() {
    let (st, _act) = QueryState::begin(5);
    let (st, act) = st.on_reply(Err(TransportError::Timeout));
    assert_eq!(
        st,
        QueryState::Failed(QueryError::Transport(TransportError::Timeout))
    );
    assert_eq!(act, QueryAction::Stop);
}

#[test]
fn query_foreign_handshake_reply_fails() {
    let (st, _act) = QueryState::begin(5);
    let (st, _act) = st.on_reply(Ok(handshake_reply(6, "777")));
    assert_eq!(
        st,
        QueryState::Failed(QueryError::Protocol(ProtocolError::SessionMismatch))
    );
}

#[test]
fn query_bad_token_fails() {
    let (st, _act) = QueryState::begin(5);
    let (st, _act) = st.on_reply(Ok(handshake_reply(5, "token")));
    assert_eq!(
        st,
        QueryState::Failed(QueryError::Parse(ParseError::InvalidToken))
    );
}

#[test]
fn query_terminal_states_stay_terminal() {
    let (st, _act) = QueryState::begin(5);
    let (st, _act) = st.on_reply(Err(TransportError::Io));
    let failed = QueryState::Failed(QueryError::Transport(TransportError::Io));
    assert_eq!(st, failed);
    let (st, act) = st.on_reply(Ok(handshake_reply(5, "1")));
    assert_eq!(st, failed);
    assert_eq!(act, QueryAction::Stop);
}
