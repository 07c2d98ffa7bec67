//! Encoders of clientbound play-state messages. Each one builds the payload
//! field by field, in the protocol's order, and writes one packet through
//! the client handle. Floating-point fields are passed as their IEEE-754 bit
//! patterns.

use crate::client::{queued, unchanged, ClientHandle, PlayError};
use crate::ids;
use crate::tokens::{correlation_token, sound_seed, wrap32, wrap64};
use crate::wire::{
    be32, be64, bits32, bits64, bool_byte, put_bits32, put_bits64, put_boolean, put_byte,
    put_bytes, put_int, put_long, put_string, put_varint, string_bytes, varint,
};
use vstd::prelude::*;
use vstd::string::StringSliceAdditionalSpecFns;

verus! {

/// Payload of a position synchronisation.
pub open spec fn sync_player_pos_payload(
    token: i32,
    x: u64,
    y: u64,
    z: u64,
    vel_x: u64,
    vel_y: u64,
    vel_z: u64,
    yaw: u32,
    pitch: u32,
    flags: i32,
) -> Seq<u8> {
    varint(token) + be64(x) + be64(y) + be64(z) + be64(vel_x) + be64(vel_y) + be64(vel_z) + be32(
        yaw,
    ) + be32(pitch) + be32(bits32(flags))
}

/// Sends the player's position, velocity and rotation. The correlation token
/// is derived from `millis`, the wall-clock time in milliseconds.
pub fn sync_player_pos(
    client: &mut ClientHandle,
    x: u64,
    y: u64,
    z: u64,
    vel_x: u64,
    vel_y: u64,
    vel_z: u64,
    yaw: u32,
    pitch: u32,
    flags: i32,
    millis: u128,
)
    ensures
        queued(
            *old(client),
            *final(client),
            ids::SYNCHRONIZE_PLAYER_POSITION,
            sync_player_pos_payload(
                wrap32(millis as int) as i32,
                x,
                y,
                z,
                vel_x,
                vel_y,
                vel_z,
                yaw,
                pitch,
                flags,
            ),
        ),
{
    let token = correlation_token(millis);
    let mut buf: Vec<u8> = Vec::new();
    put_varint(&mut buf, token);
    put_bits64(&mut buf, x);
    put_bits64(&mut buf, y);
    put_bits64(&mut buf, z);
    put_bits64(&mut buf, vel_x);
    put_bits64(&mut buf, vel_y);
    put_bits64(&mut buf, vel_z);
    put_bits32(&mut buf, yaw);
    put_bits32(&mut buf, pitch);
    put_int(&mut buf, flags);
    assert(buf@ =~= sync_player_pos_payload(
        token, x, y, z, vel_x, vel_y, vel_z, yaw, pitch, flags,
    ));
    client.write_message(ids::SYNCHRONIZE_PLAYER_POSITION, &buf);
}

/// Payload of a sound played at the listener's own entity: sound given by
/// name (varint 0, then the name), no fixed range, the emitting entity, the
/// category, volume and pitch, and the seed.
pub open spec fn global_sound_payload(
    sound: Seq<u8>,
    entity_id: i32,
    category: i32,
    volume: u32,
    pitch: u32,
    seed: i64,
) -> Seq<u8> {
    varint(0) + string_bytes(sound) + bool_byte(false) + varint(entity_id) + varint(category)
        + be32(volume) + be32(pitch) + be64(bits64(seed))
}

/// Plays a sound for the player, emitted by the player's own entity. The
/// seed is derived from `micros`, the wall-clock time in microseconds.
/// Fails without writing when the connection has no entity id yet, or when
/// the name is longer than the protocol's string length allows.
pub fn play_global_sound(
    receiver: &mut ClientHandle,
    sound: &str,
    volume: u32,
    pitch: u32,
    category: i32,
    micros: u128,
) -> (r: Result<(), PlayError>)
    ensures
        old(receiver).entity_id is None ==> r matches Err(PlayError::NoEntityId),
        old(receiver).entity_id is Some && sound.spec_bytes().len() > i32::MAX ==> r matches Err(
            PlayError::Transport(_),
        ),
        r is Err ==> unchanged(*old(receiver), *final(receiver)),
        r is Ok <==> old(receiver).entity_id is Some && sound.spec_bytes().len() <= i32::MAX,
        r is Ok ==> queued(
            *old(receiver),
            *final(receiver),
            ids::ENTITY_SOUND_EFFECT,
            global_sound_payload(
                sound.spec_bytes(),
                old(receiver).entity_id->Some_0,
                category,
                volume,
                pitch,
                wrap64(micros as int) as i64,
            ),
        ),
{
    let entity_id = match receiver.entity_id() {
        Some(id) => id,
        None => {
            return Err(PlayError::NoEntityId);
        },
    };
    let seed = sound_seed(micros);
    let mut buf: Vec<u8> = Vec::new();
    put_varint(&mut buf, 0);
    match put_string(&mut buf, sound) {
        Ok(()) => {},
        Err(e) => {
            return Err(PlayError::Transport(e));
        },
    }
    put_boolean(&mut buf, false);
    put_varint(&mut buf, entity_id);
    put_varint(&mut buf, category);
    put_bits32(&mut buf, volume);
    put_bits32(&mut buf, pitch);
    put_long(&mut buf, seed);
    assert(buf@ =~= global_sound_payload(sound.spec_bytes(), entity_id, category, volume, pitch, seed));
    receiver.write_message(ids::ENTITY_SOUND_EFFECT, &buf);
    Ok(())
}

/// Payload of a game event.
pub open spec fn game_event_payload(event: u8, value: u32) -> Seq<u8> {
    seq![event] + be32(value)
}

/// Notifies the player of a game event of kind `event` with a
/// single-precision value.
pub fn send_game_event(client: &mut ClientHandle, event: u8, value: u32)
    ensures
        queued(*old(client), *final(client), ids::GAME_EVENT, game_event_payload(event, value)),
{
    let mut buf: Vec<u8> = Vec::new();
    put_byte(&mut buf, event);
    put_bits32(&mut buf, value);
    assert(buf@ =~= game_event_payload(event, value));
    client.write_message(ids::GAME_EVENT, &buf);
}

/// Payload of an entity status.
pub open spec fn entity_event_payload(entity_id: i32, status: u8) -> Seq<u8> {
    be32(bits32(entity_id)) + seq![status]
}

/// Tells the player that an entity entered status `status`.
pub fn send_entity_event(client: &mut ClientHandle, entity_id: i32, status: u8)
    ensures
        queued(
            *old(client),
            *final(client),
            ids::ENTITY_EVENT,
            entity_event_payload(entity_id, status),
        ),
{
    let mut buf: Vec<u8> = Vec::new();
    put_int(&mut buf, entity_id);
    put_byte(&mut buf, status);
    assert(buf@ =~= entity_event_payload(entity_id, status));
    client.write_message(ids::ENTITY_EVENT, &buf);
}

/// Payload of an entity animation.
pub open spec fn entity_animation_payload(entity_id: i32, animation: u8) -> Seq<u8> {
    varint(entity_id) + seq![animation]
}

/// Shows the player an entity playing animation `animation`.
pub fn send_entity_animation(receiver: &mut ClientHandle, entity_id: i32, animation: u8)
    ensures
        queued(
            *old(receiver),
            *final(receiver),
            ids::ENTITY_ANIMATION,
            entity_animation_payload(entity_id, animation),
        ),
{
    let mut buf: Vec<u8> = Vec::new();
    put_varint(&mut buf, entity_id);
    put_byte(&mut buf, animation);
    assert(buf@ =~= entity_animation_payload(entity_id, animation));
    receiver.write_message(ids::ENTITY_ANIMATION, &buf);
}

/// Payload of a view-center change.
pub open spec fn center_chunk_payload(x: i32, z: i32) -> Seq<u8> {
    varint(x) + varint(z)
}

/// Moves the player's view center to chunk (`x`, `z`).
pub fn set_center_chunk(client: &mut ClientHandle, x: i32, z: i32)
    ensures
        queued(*old(client), *final(client), ids::SET_CENTER_CHUNK, center_chunk_payload(x, z)),
{
    let mut buf: Vec<u8> = Vec::new();
    put_varint(&mut buf, x);
    put_varint(&mut buf, z);
    assert(buf@ =~= center_chunk_payload(x, z));
    client.write_message(ids::SET_CENTER_CHUNK, &buf);
}

/// Payload of a chunk unload: the z coordinate comes before x.
pub open spec fn unload_chunk_payload(x: i32, z: i32) -> Seq<u8> {
    be32(bits32(z)) + be32(bits32(x))
}

/// Tells the player to forget chunk (`x`, `z`).
pub fn unload_chunk(client: &mut ClientHandle, x: i32, z: i32)
    ensures
        queued(*old(client), *final(client), ids::UNLOAD_CHUNK, unload_chunk_payload(x, z)),
{
    let mut buf: Vec<u8> = Vec::new();
    put_int(&mut buf, z);
    put_int(&mut buf, x);
    assert(buf@ =~= unload_chunk_payload(x, z));
    client.write_message(ids::UNLOAD_CHUNK, &buf);
}

/// Payload of a system chat message: the encoded text component, then the
/// action-bar flag.
pub open spec fn system_message_payload(message: Seq<u8>, is_action_bar: bool) -> Seq<u8> {
    message + bool_byte(is_action_bar)
}

/// Shows the player a system message, in the chat or above the hotbar.
/// `message` is the text component already encoded in the network format.
pub fn send_system_message(client: &mut ClientHandle, message: &[u8], is_action_bar: bool)
    ensures
        queued(
            *old(client),
            *final(client),
            ids::SYSTEM_CHAT_MESSAGE,
            system_message_payload(message@, is_action_bar),
        ),
{
    let mut buf: Vec<u8> = Vec::new();
    put_bytes(&mut buf, message);
    put_boolean(&mut buf, is_action_bar);
    assert(buf@ =~= system_message_payload(message@, is_action_bar));
    client.write_message(ids::SYSTEM_CHAT_MESSAGE, &buf);
}

} // verus!
