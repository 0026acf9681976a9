//! Connection-request codec for a lobby-based multiplayer game.
//!
//! A client that wants to join a lobby sends two short UTF-8 strings, a
//! username and a lobby name.  The pair is packed into a fixed-size opaque
//! user-data block that rides inside an authenticated connect token; the
//! receiving server unpacks the block and recovers the original strings.
//! This crate holds the packing and unpacking logic together with the data
//! types that the matchmaking service exchanges with its clients.

use vstd::prelude::*;

pub mod client_api;
pub mod codec;
pub mod connection;

pub use codec::HEADER_BYTES;
pub use codec::HEADER_PART_BYTES;
pub use codec::MAX_DATA_PART_BYTES;
pub use codec::NETCODE_USER_DATA_BYTES;
pub use connection::ConnectionData;
pub use connection::CorruptionError;

verus! {

/// Protocol identifier shared by every peer of this game's networking layer.
pub const PROTOCOL_ID: u64 = 7;

/// One open lobby as the matchmaking service advertises it.
#[derive(Debug, Clone, PartialEq, Eq, Hash)]
pub struct Lobby {
    pub name: String,
    pub playing: bool,
    pub player_count: u8,
}

} // verus!
