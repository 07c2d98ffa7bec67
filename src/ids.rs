//! Message-type identifiers of the play state (protocol 770, game version
//! 1.21.5).

use vstd::prelude::*;

verus! {

/// Clientbound: entity animation.
pub const ENTITY_ANIMATION: u8 = 0x02;

/// Clientbound: entity status.
pub const ENTITY_EVENT: u8 = 0x1E;

/// Clientbound: unload chunk.
pub const UNLOAD_CHUNK: u8 = 0x21;

/// Clientbound: game event.
pub const GAME_EVENT: u8 = 0x22;

/// Clientbound: keep-alive challenge.
pub const KEEP_ALIVE: u8 = 0x26;

/// Clientbound: synchronise player position.
pub const SYNCHRONIZE_PLAYER_POSITION: u8 = 0x41;

/// Clientbound: set view-center chunk.
pub const SET_CENTER_CHUNK: u8 = 0x57;

/// Clientbound: sound effect emitted by an entity.
pub const ENTITY_SOUND_EFFECT: u8 = 0x6D;

/// Clientbound: system chat message.
pub const SYSTEM_CHAT_MESSAGE: u8 = 0x72;

/// Serverbound: keep-alive echo.
pub const KEEP_ALIVE_ECHO: u8 = 0x1A;

} // verus!
