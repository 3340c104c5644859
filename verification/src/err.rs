//! The closed taxonomy of failures a query can end in.
//!
//! Every stage failure surfaces as exactly one [`QueryError`]; there is no
//! partial result. The variants mirror the four kinds of trouble the
//! protocol can run into: the transport gave up, the packet belongs to
//! another exchange, the payload could not be decoded, or a required
//! key/value entry was absent.

use vstd::prelude::*;

verus! {

/// A required entry of the full-stat key/value section, or a numeric field
/// derived from one. Errors carry one of these to name the offending field.
#[derive(Debug, Clone, Copy, PartialEq, Eq, Structural)]
pub enum StatKey {
    Hostname,
    GameType,
    GameId,
    Version,
    Plugins,
    MapName,
    NumPlayers,
    MaxPlayers,
    HostPort,
    HostIp,
}

impl StatKey {
    /// The key exactly as it appears on the wire.
    pub open spec fn spec_name(self) -> Seq<char> {
        match self {
            StatKey::Hostname => "hostname"@,
            StatKey::GameType => "gametype"@,
            StatKey::GameId => "game_id"@,
            StatKey::Version => "version"@,
            StatKey::Plugins => "plugins"@,
            StatKey::MapName => "map"@,
            StatKey::NumPlayers => "numplayers"@,
            StatKey::MaxPlayers => "maxplayers"@,
            StatKey::HostPort => "hostport"@,
            StatKey::HostIp => "hostip"@,
        }
    }

    /// The key's wire spelling, for presenting an error to a caller.
    pub fn name(&self) -> (r: &'static str)
        ensures
            r@ == self.spec_name(),
    {
        match self {
            StatKey::Hostname => "hostname",
            StatKey::GameType => "gametype",
            StatKey::GameId => "game_id",
            StatKey::Version => "version",
            StatKey::Plugins => "plugins",
            StatKey::MapName => "map",
            StatKey::NumPlayers => "numplayers",
            StatKey::MaxPlayers => "maxplayers",
            StatKey::HostPort => "hostport",
            StatKey::HostIp => "hostip",
        }
    }
}

/// Failure of the datagram transport itself.
#[derive(Debug, Clone, Copy, PartialEq, Eq, Structural)]
pub enum TransportError {
    /// Binding, connecting, sending or receiving failed outright.
    Io,
    /// Both receive windows elapsed without a reply.
    Timeout,
}

/// The reply's header does not belong to the exchange in progress.
#[derive(Debug, Clone, Copy, PartialEq, Eq, Structural)]
pub enum ProtocolError {
    /// The packet type differs from what the current stage expects.
    UnexpectedType,
    /// The echoed session id differs from the one sent.
    SessionMismatch,
}

/// The payload could not be decoded.
#[derive(Debug, Clone, Copy, PartialEq, Eq, Structural)]
pub enum ParseError {
    /// A fixed-width read ran past the available bytes.
    UnexpectedEnd,
    /// A string ran to the end of the buffer without its null terminator.
    UnterminatedString,
    /// A string's bytes are not valid text.
    InvalidEncoding,
    /// A field that must be numeric failed its decimal parse.
    InvalidNumber(StatKey),
    /// The handshake's challenge token was not a decimal integer.
    InvalidToken,
}

/// Any way a query can fail, as one tagged union for callers to branch on.
#[derive(Debug, Clone, Copy, PartialEq, Eq, Structural)]
pub enum QueryError {
    Transport(TransportError),
    Protocol(ProtocolError),
    Parse(ParseError),
    /// A required key was absent from the key/value section; carries the key.
    MissingField(StatKey),
}

} // verus!
