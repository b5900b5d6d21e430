//! Discovery and state aggregation for live game servers.
//!
//! The library queries a well-known master directory for server addresses,
//! page by page, enriches each address with the outcome of a per-server
//! detail query, and keeps the accumulated result set in a store that
//! supports incremental (since-last-read) snapshots.
//!
//! The verified core is pure logic: the six-byte address codec, the
//! directory request framing, the response record parser, the assembly of a
//! server record from a detail query's outcome, the server store with its
//! read cursor, and the paging state machine of one discovery pass. All
//! network traffic — sending the framed requests, receiving datagrams, and
//! running the detail queries — is performed by the surrounding application,
//! which feeds the plain bytes and outcomes back into these types.

pub mod address;
pub mod discovery;
pub mod game_server;
pub mod player;
pub mod request;
pub mod regions;
pub mod response;
pub mod settings;
pub mod store;
