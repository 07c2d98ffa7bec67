use mc_play::client::{ClientHandle, PlayError};
use mc_play::ids;
use mc_play::keep_alive::{receive_keep_alive, send_keep_alive};
use mc_play::play::{
    play_global_sound, send_entity_animation, send_entity_event, send_game_event,
    send_system_message, set_center_chunk, sync_player_pos, unload_chunk,
};
use mc_play::tokens::{correlation_token, keep_alive_nonce, sound_seed};
use rust_mc_proto::{DataReader, DataWriter, Packet};

fn only_packet(client: &mut ClientHandle) -> Packet {
    let mut out = client.take_outgoing();
    assert_eq!(out.len(), 1);
    out.remove(0)
}

#[test]
fn game_event_bytes() {
    let mut client = ClientHandle::new(None);
    send_game_event(&mut client, 3, 1.0f32.to_bits());
    let p = only_packet(&mut client);
    assert_eq!(p.id(), ids::GAME_EVENT);
    assert_eq!(p.get_bytes(), &[3, 0x3F, 0x80, 0x00, 0x00]);
}

#[test]
fn entity_event_bytes() {
    let mut client = ClientHandle::new(None);
    send_entity_event(&mut client, 0x0102_0304, 9);
    let p = only_packet(&mut client);
    assert_eq!(p.id(), ids::ENTITY_EVENT);
    assert_eq!(p.get_bytes(), &[1, 2, 3, 4, 9]);
}

#[test]
fn entity_event_negative_id_bytes() {
    let mut client = ClientHandle::new(None);
    send_entity_event(&mut client, -2, 0);
    let p = only_packet(&mut client);
    assert_eq!(p.get_bytes(), &[0xFF, 0xFF, 0xFF, 0xFE, 0]);
}

#[test]
fn entity_animation_bytes() {
    let mut client = ClientHandle::new(None);
    send_entity_animation(&mut client, 300, 4);
    let p = only_packet(&mut client);
    assert_eq!(p.id(), ids::ENTITY_ANIMATION);
    assert_eq!(p.get_bytes(), &[0xAC, 0x02, 4]);
}

#[test]
fn center_chunk_bytes() {
    let mut client = ClientHandle::new(None);
    set_center_chunk(&mut client, -1, 127);
    let p = only_packet(&mut client);
    assert_eq!(p.id(), ids::SET_CENTER_CHUNK);
    assert_eq!(p.get_bytes(), &[0xFF, 0xFF, 0xFF, 0xFF, 0x0F, 0x7F]);
}

#[test]
fn unload_chunk_puts_z_before_x() {
    let mut client = ClientHandle::new(None);
    unload_chunk(&mut client, 1, 2);
    let p = only_packet(&mut client);
    assert_eq!(p.id(), ids::UNLOAD_CHUNK);
    assert_eq!(p.get_bytes(), &[0, 0, 0, 2, 0, 0, 0, 1]);
}

#[test]
fn system_message_bytes() {
    let mut client = ClientHandle::new(None);
    send_system_message(&mut client, &[0x08, 0x00, 0x02, b'h', b'i'], true);
    let p = only_packet(&mut client);
    assert_eq!(p.id(), ids::SYSTEM_CHAT_MESSAGE);
    assert_eq!(p.get_bytes(), &[0x08, 0x00, 0x02, b'h', b'i', 1]);
    send_system_message(&mut client, &[], false);
    let p = only_packet(&mut client);
    assert_eq!(p.get_bytes(), &[0]);
}

#[test]
fn sync_player_pos_bytes() {
    let mut client = ClientHandle::new(None);
    sync_player_pos(
        &mut client,
        1.0f64.to_bits(),
        (-2.5f64).to_bits(),
        0.0f64.to_bits(),
        0.5f64.to_bits(),
        0.0f64.to_bits(),
        0.0f64.to_bits(),
        90.0f32.to_bits(),
        (-45.0f32).to_bits(),
        0x10,
        1000,
    );
    let mut p = only_packet(&mut client);
    assert_eq!(p.id(), ids::SYNCHRONIZE_PLAYER_POSITION);
    assert_eq!(p.get_bytes().len(), 2 + 6 * 8 + 4 + 4 + 4);
    assert_eq!(&p.get_bytes()[..2], &[0xE8, 0x07]);
    assert_eq!(&p.get_bytes()[2..10], &[0x3F, 0xF0, 0, 0, 0, 0, 0, 0]);
    assert_eq!(p.read_varint().unwrap(), 1000);
    assert_eq!(p.read_double().unwrap(), 1.0);
    assert_eq!(p.read_double().unwrap(), -2.5);
    assert_eq!(p.read_double().unwrap(), 0.0);
    assert_eq!(p.read_double().unwrap(), 0.5);
    assert_eq!(p.read_double().unwrap(), 0.0);
    assert_eq!(p.read_double().unwrap(), 0.0);
    assert_eq!(p.read_float().unwrap(), 90.0);
    assert_eq!(p.read_float().unwrap(), -45.0);
    assert_eq!(p.read_int().unwrap(), 0x10);
}

#[test]
fn sync_player_pos_token_at_sign_boundary() {
    let mut client = ClientHandle::new(None);
    sync_player_pos(&mut client, 0, 0, 0, 0, 0, 0, 0, 0, 0, 0x8000_0000);
    let p = only_packet(&mut client);
    assert_eq!(&p.get_bytes()[..5], &[0x80, 0x80, 0x80, 0x80, 0x08]);
    assert_eq!(p.get_bytes()[5], 0);
}

#[test]
fn correlation_token_wraps_to_signed() {
    assert_eq!(correlation_token(0x8000_0000), i32::MIN);
    assert_eq!(correlation_token(0x7FFF_FFFF), i32::MAX);
    assert_eq!(correlation_token(0x1_0000_0005), 5);
    assert_eq!(correlation_token(0xFFFF_FFFF), -1);
    assert_eq!(correlation_token(1_700_000_000_123), (1_700_000_000_123u64 & 0xFFFF_FFFF) as u32 as i32);
}

#[test]
fn sound_seed_and_nonce_values() {
    assert_eq!(sound_seed(1_700_000_000_000_000), 1_700_000_000_000_000);
    assert_eq!(sound_seed(0x1_0000_0000_0000_0007), 7);
    assert_eq!(sound_seed(0xFFFF_FFFF_FFFF_FFFF), -1);
    assert_eq!(keep_alive_nonce(1_700_000_000), 1_700_000_000);
    assert_eq!(keep_alive_nonce(u64::MAX), -1);
}

#[test]
fn global_sound_needs_entity_id() {
    let mut client = ClientHandle::new(None);
    let r = play_global_sound(&mut client, "block.note.bell", 1.0f32.to_bits(), 1.0f32.to_bits(), 0, 5);
    assert!(matches!(r, Err(PlayError::NoEntityId)));
    assert!(client.take_outgoing().is_empty());
}

#[test]
fn global_sound_decodes_back() {
    let mut client = ClientHandle::new(Some(42));
    let r = play_global_sound(
        &mut client,
        "block.note.bell",
        1.0f32.to_bits(),
        1.0f32.to_bits(),
        0,
        1_700_000_000_000_000,
    );
    assert!(r.is_ok());
    let mut p = only_packet(&mut client);
    assert_eq!(p.id(), ids::ENTITY_SOUND_EFFECT);
    assert_eq!(p.read_varint().unwrap(), 0);
    assert_eq!(p.read_string().unwrap(), "block.note.bell");
    assert_eq!(p.read_boolean().unwrap(), false);
    assert_eq!(p.read_varint().unwrap(), 42);
    assert_eq!(p.read_varint().unwrap(), 0);
    assert_eq!(p.read_float().unwrap(), 1.0);
    assert_eq!(p.read_float().unwrap(), 1.0);
    assert_eq!(p.read_long().unwrap(), 1_700_000_000_000_000);
    assert_eq!(p.len(), 0);
}

#[test]
fn global_sound_exact_bytes() {
    let mut client = ClientHandle::new(Some(300));
    let r = play_global_sound(&mut client, "ab", 0x3F80_0000, 0x4000_0000, -1, 0x0102);
    assert!(r.is_ok());
    let p = only_packet(&mut client);
    let expected: Vec<u8> = vec![
        0x00, 0x02, b'a', b'b', 0x00, 0xAC, 0x02, 0xFF, 0xFF, 0xFF, 0xFF, 0x0F, 0x3F, 0x80, 0x00,
        0x00, 0x40, 0x00, 0x00, 0x00, 0, 0, 0, 0, 0, 0, 0x01, 0x02,
    ];
    assert_eq!(p.get_bytes(), expected.as_slice());
}

fn echo_of(value: i64) -> Packet {
    let mut p = Packet::empty(ids::KEEP_ALIVE_ECHO);
    p.write_long(value).unwrap();
    Packet::from_bytes(ids::KEEP_ALIVE_ECHO, p.get_bytes())
}

#[test]
fn keep_alive_exact_echo_succeeds() {
    let mut client = ClientHandle::new(None);
    let nonce = send_keep_alive(&mut client, 1_700_000_000);
    assert_eq!(nonce, 1_700_000_000);
    assert_eq!(client.awaiting_echo, Some(nonce));
    let p = only_packet(&mut client);
    assert_eq!(p.id(), ids::KEEP_ALIVE);
    assert_eq!(p.get_bytes(), &1_700_000_000i64.to_be_bytes());
    assert!(receive_keep_alive(&mut client, &echo_of(nonce)).is_ok());
    assert_eq!(client.awaiting_echo, None);
}

#[test]
fn keep_alive_wrong_echo_is_protocol_violation() {
    let mut client = ClientHandle::new(None);
    let nonce = send_keep_alive(&mut client, 77);
    let r = receive_keep_alive(&mut client, &echo_of(nonce + 1));
    assert!(matches!(r, Err(PlayError::WrongPacket)));
    let nonce = send_keep_alive(&mut client, 77);
    let r = receive_keep_alive(&mut client, &echo_of(-nonce));
    assert!(matches!(r, Err(PlayError::WrongPacket)));
}

#[test]
fn keep_alive_other_message_type_is_refused() {
    let mut client = ClientHandle::new(None);
    let nonce = send_keep_alive(&mut client, 77);
    let other = Packet::from_bytes(ids::KEEP_ALIVE_ECHO + 1, &nonce.to_be_bytes());
    let r = receive_keep_alive(&mut client, &other);
    assert!(matches!(r, Err(PlayError::WrongPacket)));
}

#[test]
fn keep_alive_short_echo_is_transport_failure() {
    let mut client = ClientHandle::new(None);
    send_keep_alive(&mut client, 77);
    let short = Packet::from_bytes(ids::KEEP_ALIVE_ECHO, &[0, 0, 0]);
    let r = receive_keep_alive(&mut client, &short);
    assert!(matches!(r, Err(PlayError::Transport(_))));
}

#[test]
fn keep_alive_echo_without_challenge_is_refused() {
    let mut client = ClientHandle::new(None);
    let r = receive_keep_alive(&mut client, &echo_of(0));
    assert!(matches!(r, Err(PlayError::WrongPacket)));
}

#[test]
fn varint_round_trips_through_reader() {
    for v in [0, 1, 127, 128, 16383, 16384, 2097151, 2097152, 268435455, 268435456, i32::MAX, -1, i32::MIN] {
        let mut client = ClientHandle::new(None);
        set_center_chunk(&mut client, v, 0);
        let mut p = only_packet(&mut client);
        let u = v as u32;
        let expected_len = if u < 0x80 { 1 } else if u < 0x4000 { 2 } else if u < 0x20_0000 { 3 } else if u < 0x1000_0000 { 4 } else { 5 };
        assert_eq!(p.get_bytes().len(), expected_len + 1);
        assert_eq!(p.read_varint().unwrap(), v);
        assert_eq!(p.read_varint().unwrap(), 0);
    }
}

#[test]
fn messages_queue_in_order() {
    let mut client = ClientHandle::new(Some(7));
    assert_eq!(client.entity_id(), Some(7));
    unload_chunk(&mut client, 0, 0);
    set_center_chunk(&mut client, 0, 0);
    let out = client.take_outgoing();
    assert_eq!(out.len(), 2);
    assert_eq!(out[0].id(), ids::UNLOAD_CHUNK);
    assert_eq!(out[1].id(), ids::SET_CENTER_CHUNK);
    assert!(client.take_outgoing().is_empty());
}
