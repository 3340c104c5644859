//! The orchestrator: one full query as a linear state machine.
//!
//! A call runs handshake, then stat request, then parse, and any stage
//! failure ends it at once. The decisions live here as a verified step
//! function from state and reply to next state and action; the driver
//! around the library binds the socket, performs each [`QueryAction`], and
//! feeds back what the transport produced. Terminal states stay terminal.

use vstd::prelude::*;

use crate::err::QueryError;
use crate::err::TransportError;
use crate::handshake::spec_parse_handshake;
use crate::handshake::parse_handshake_response;
use crate::stat::parse_full_stat_response;
use crate::stat::spec_parse_full_stat;
use crate::stat::FullStatResponse;
use crate::wire::build_handshake_request;
use crate::wire::build_stat_request;
use crate::wire::spec_handshake_request;
use crate::wire::spec_stat_request;

verus! {

/// Where a query stands.
#[derive(Debug, PartialEq)]
pub enum QueryState {
    /// The handshake request is out; its reply is awaited.
    AwaitingHandshake { session: i32 },
    /// The challenge token arrived and the stat request is out; its reply
    /// is awaited.
    AwaitingStat { session: i32, token: i32 },
    /// The response parsed; the call succeeded.
    Done(FullStatResponse),
    /// Some stage failed; the call is over.
    Failed(QueryError),
}

/// What the driver must do next.
#[derive(Debug, PartialEq)]
pub enum QueryAction {
    /// Send these bytes and await the reply, with the transport's
    /// one-retry rule.
    Send(Vec<u8>),
    /// Nothing further: the state is terminal.
    Stop,
}

impl QueryState {
    /// Begin a query under `session`: the first action sends the
    /// handshake request.
    pub fn begin(session: i32) -> (r: (QueryState, QueryAction))
        ensures
            r.0 == (QueryState::AwaitingHandshake { session }),
            (r.1 matches QueryAction::Send(req) && req@ == spec_handshake_request(session)),
    {
        (QueryState::AwaitingHandshake { session }, QueryAction::Send(build_handshake_request(session)))
    }

    /// Advance on the transport's result for the outstanding request.
    ///
    /// Awaiting the handshake: a reply is validated and its token parsed;
    /// success sends the stat request, failure ends the call with that
    /// error. Awaiting the stat reply: a reply is parsed into the result.
    /// A transport failure at either stage ends the call with it. The
    /// terminal states ignore replies and stay what they are.
    pub fn on_reply(self, reply: Result<Vec<u8>, TransportError>) -> (r: (QueryState, QueryAction))
        ensures
            match self {
                QueryState::AwaitingHandshake { session } => match reply {
                    Ok(b) => match spec_parse_handshake(b@, session) {
                        Ok(t) => r.0 == QueryState::AwaitingStat { session, token: t } && (
                        r.1 matches QueryAction::Send(req) && req@ == spec_stat_request(
                            session,
                            t,
                        )),
                        Err(e) => r.0 == QueryState::Failed(e) && r.1 == QueryAction::Stop,
                    },
                    Err(te) => r.0 == QueryState::Failed(QueryError::Transport(te)) && r.1
                        == QueryAction::Stop,
                },
                QueryState::AwaitingStat { session, token: _ } => match reply {
                    Ok(b) => match spec_parse_full_stat(b@, session) {
                        Ok(v) => (r.0 matches QueryState::Done(resp) && resp@ == v) && r.1
                            == QueryAction::Stop,
                        Err(e) => r.0 == QueryState::Failed(e) && r.1 == QueryAction::Stop,
                    },
                    Err(te) => r.0 == QueryState::Failed(QueryError::Transport(te)) && r.1
                        == QueryAction::Stop,
                },
                QueryState::Done(resp) => (r.0 matches QueryState::Done(resp2) && resp2 == resp)
                    && r.1 == QueryAction::Stop,
                QueryState::Failed(e) => r.0 == QueryState::Failed(e) && r.1 == QueryAction::Stop,
            },
    {
        match self {
            QueryState::AwaitingHandshake { session } => match reply {
                Ok(b) => match parse_handshake_response(&b, session) {
                    Ok(token) => (
                        QueryState::AwaitingStat { session, token },
                        QueryAction::Send(build_stat_request(session, token)),
                    ),
                    Err(e) => (QueryState::Failed(e), QueryAction::Stop),
                },
                Err(te) => (QueryState::Failed(QueryError::Transport(te)), QueryAction::Stop),
            },
            QueryState::AwaitingStat { session, token: _ } => match reply {
                Ok(b) => match parse_full_stat_response(&b, session) {
                    Ok(resp) => (QueryState::Done(resp), QueryAction::Stop),
                    Err(e) => (QueryState::Failed(e), QueryAction::Stop),
                },
                Err(te) => (QueryState::Failed(QueryError::Transport(te)), QueryAction::Stop),
            },
            QueryState::Done(resp) => (QueryState::Done(resp), QueryAction::Stop),
            QueryState::Failed(e) => (QueryState::Failed(e), QueryAction::Stop),
        }
    }
}

} // verus!
