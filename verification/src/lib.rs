//! Client for the UDP "query" status protocol spoken by Minecraft servers,
//! together with helpers for rendering per-player statistics.
//!
//! The protocol core performs a two-phase exchange: a handshake trades a
//! session id for a challenge token, and a full-stat request then retrieves
//! the server's key/value metadata and online player list. Requests are
//! built, and responses parsed, by verified code over plain byte vectors;
//! the socket work itself is driven by the (unverified) binary around the
//! library, which follows the verified retry rule ([`transport`]) and
//! query state machine ([`query`]).
//!
//! Around the protocol sit the statistics helpers: per-player counters as
//! the server's JSON reports them ([`stats`]), display-name tables for the
//! raw identifiers ([`names`]), tick-count formatting ([`fmt`]), and the
//! username cache ([`cache`]).

pub mod cache;
pub mod err;
pub mod fmt;
pub mod handshake;
pub mod names;
pub mod num;
pub mod query;
pub mod sections;
pub mod stat;
pub mod stats;
pub mod text;
pub mod transport;
pub mod wire;
