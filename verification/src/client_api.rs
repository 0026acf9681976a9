//! Request and response shapes of the matchmaking service's HTTP API.
//!
//! The service itself — routing, storage, serialization — lives outside this
//! crate; these are the plain values it exchanges with clients.

use vstd::prelude::*;

verus! {

/// A client's request to open a new lobby.
#[derive(Debug, Clone, PartialEq, Eq, Hash)]
pub struct LobbyCreation {
    pub name: String,
    pub host: String,
}

/// A game server's report of how many players a lobby currently has.
#[derive(Debug, Clone, PartialEq, Eq, Hash)]
pub struct PlayerCountSettings {
    pub count: u8,
    pub secret: String,
}

/// What a client receives after creating or joining a lobby: a serialized
/// connect token and the client identifier the token was issued for.
#[derive(Debug, Clone, PartialEq, Eq, Hash)]
pub struct LobbyResponse {
    pub token: Vec<u8>,
    pub client_id: u64,
}

/// One open lobby as the matchmaking service advertises it.
#[derive(Debug, Clone, PartialEq, Eq, Hash)]
pub struct Lobby {
    pub name: String,
    pub playing: bool,
    pub player_count: u8,
}

} // verus!
