//! The keep-alive round trip: a challenge carrying a time-derived nonce,
//! then the check of the echo the remote party sends back.

use crate::client::{pushed, ClientHandle, PlayError};
use crate::ids;
use crate::tokens::{keep_alive_nonce, wrap64};
use crate::wire::{
    be64, be_value, bits64, lemma_be64_round_trip, packet_data, packet_id, put_long, read_long,
};
use rust_mc_proto::Packet;
use vstd::prelude::*;

verus! {

/// Payload of a keep-alive challenge, and of its echo.
pub open spec fn keep_alive_payload(nonce: i64) -> Seq<u8> {
    be64(bits64(nonce))
}

/// Sends a keep-alive challenge whose nonce is `secs`, the wall-clock time
/// in whole seconds, and arms the handle to await its echo. Returns the
/// nonce.
pub fn send_keep_alive(client: &mut ClientHandle, secs: u64) -> (nonce: i64)
    ensures
        nonce == wrap64(secs as int),
        final(client).entity_id == old(client).entity_id,
        final(client).awaiting_echo == Some(nonce),
        pushed(old(client).outgoing@, final(client).outgoing@, ids::KEEP_ALIVE, keep_alive_payload(nonce)),
{
    let nonce = keep_alive_nonce(secs);
    let mut buf: Vec<u8> = Vec::new();
    put_long(&mut buf, nonce);
    client.write_message(ids::KEEP_ALIVE, &buf);
    client.awaiting_echo = Some(nonce);
    nonce
}

/// Checks the message read back after a challenge. It is accepted when a
/// challenge is outstanding, the message is a keep-alive echo, and its first
/// eight bytes read back as the nonce sent. A message of another type is
/// refused before its payload is read; a short payload is a transport
/// failure; any other value is a wrong echo. Either way the handle no longer
/// awaits an echo.
pub fn receive_keep_alive(client: &mut ClientHandle, echo: &Packet) -> (r: Result<(), PlayError>)
    ensures
        final(client).entity_id == old(client).entity_id,
        final(client).outgoing@ == old(client).outgoing@,
        final(client).awaiting_echo is None,
        old(client).awaiting_echo is None ==> r matches Err(PlayError::WrongPacket),
        packet_id(*echo) != ids::KEEP_ALIVE_ECHO ==> r matches Err(PlayError::WrongPacket),
        old(client).awaiting_echo is Some && packet_id(*echo) == ids::KEEP_ALIVE_ECHO
            && packet_data(*echo).len() < 8 ==> r matches Err(PlayError::Transport(_)),
        r is Ok <==> {
            &&& old(client).awaiting_echo is Some
            &&& packet_id(*echo) == ids::KEEP_ALIVE_ECHO
            &&& packet_data(*echo).len() >= 8
            &&& be_value(packet_data(*echo).subrange(0, 8)) == bits64(
                old(client).awaiting_echo->Some_0,
            )
        },
        r is Err && packet_data(*echo).len() >= 8 ==> r matches Err(PlayError::WrongPacket),
{
    let expected = client.awaiting_echo;
    client.awaiting_echo = None;
    let nonce = match expected {
        Some(n) => n,
        None => {
            return Err(PlayError::WrongPacket);
        },
    };
    if echo.id() != ids::KEEP_ALIVE_ECHO {
        return Err(PlayError::WrongPacket);
    }
    let echoed = match read_long(echo.get_bytes()) {
        Ok(v) => v,
        Err(e) => {
            return Err(PlayError::Transport(e));
        },
    };
    if echoed == nonce {
        Ok(())
    } else {
        Err(PlayError::WrongPacket)
    }
}

/// An echo whose payload starts with the keep-alive bytes of `echoed` is
/// accepted for nonce `nonce` exactly when `echoed == nonce`: the exact
/// nonce passes, and any other value (the nonce plus one among them) is
/// refused.
pub proof fn lemma_echo_accepted_iff_equal(nonce: i64, echoed: i64, data: Seq<u8>)
    requires
        data.len() >= 8,
        data.subrange(0, 8) == keep_alive_payload(echoed),
    ensures
        be_value(data.subrange(0, 8)) == bits64(nonce) <==> echoed == nonce,
{
    lemma_be64_round_trip(bits64(echoed));
}

} // verus!
