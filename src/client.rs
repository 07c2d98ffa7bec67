//! The per-connection handle that encoders write through, and the errors of
//! play-state operations.

use crate::wire::{packet_data, packet_from, packet_id};
use rust_mc_proto::{Packet, ProtocolError};
use vstd::prelude::*;

verus! {

/// Failure of a play-state operation.
#[derive(Debug)]
pub enum PlayError {
    /// An encoding or transport failure reported by the protocol layer.
    Transport(ProtocolError),
    /// The remote party sent an unexpected message or a wrong echo.
    WrongPacket,
    /// The operation needs the connection's entity id, which is not known yet.
    NoEntityId,
}

/// One connection's view for the encoders: the entity id negotiated for the
/// player (if any), the messages written and not yet handed to the
/// transport (oldest first), and the keep-alive nonce whose echo is awaited.
pub struct ClientHandle {
    pub entity_id: Option<i32>,
    pub outgoing: Vec<Packet>,
    pub awaiting_echo: Option<i64>,
}

/// Queue `after` is queue `before` with one more packet at its end:
/// identifier `id`, payload `payload`.
pub open spec fn pushed(before: Seq<Packet>, after: Seq<Packet>, id: u8, payload: Seq<u8>) -> bool {
    &&& after.len() == before.len() + 1
    &&& after.subrange(0, before.len() as int) == before
    &&& packet_id(after.last()) == id
    &&& packet_data(after.last()) == payload
}

/// `after` is `before` with one more message written: identifier `id`,
/// payload `payload`; nothing else changed.
pub open spec fn queued(before: ClientHandle, after: ClientHandle, id: u8, payload: Seq<u8>) -> bool {
    &&& after.entity_id == before.entity_id
    &&& after.awaiting_echo == before.awaiting_echo
    &&& pushed(before.outgoing@, after.outgoing@, id, payload)
}

/// Nothing observable of the handle changed.
pub open spec fn unchanged(before: ClientHandle, after: ClientHandle) -> bool {
    &&& after.entity_id == before.entity_id
    &&& after.awaiting_echo == before.awaiting_echo
    &&& after.outgoing@ == before.outgoing@
}

impl ClientHandle {
    /// A handle with nothing written and no echo awaited.
    pub fn new(entity_id: Option<i32>) -> (r: ClientHandle)
        ensures
            r.entity_id == entity_id,
            r.outgoing@ == Seq::<Packet>::empty(),
            r.awaiting_echo is None,
    {
        ClientHandle { entity_id, outgoing: Vec::new(), awaiting_echo: None }
    }

    /// The cached entity id of the connection.
    pub fn entity_id(&self) -> (r: Option<i32>)
        ensures
            r == self.entity_id,
    {
        self.entity_id
    }

    /// Writes one framed message: it joins the end of the outgoing queue.
    pub fn write_packet(&mut self, packet: Packet)
        ensures
            final(self).entity_id == old(self).entity_id,
            final(self).awaiting_echo == old(self).awaiting_echo,
            final(self).outgoing@ == old(self).outgoing@.push(packet),
    {
        self.outgoing.push(packet);
    }

    /// Frames `payload` under identifier `id` and writes it.
    pub fn write_message(&mut self, id: u8, payload: &Vec<u8>)
        ensures
            queued(*old(self), *final(self), id, payload@),
    {
        let packet = packet_from(id, payload);
        self.write_packet(packet);
        assert(self.outgoing@.subrange(0, old(self).outgoing@.len() as int) =~= old(self).outgoing@);
    }

    /// Hands every written message over, oldest first, and empties the queue.
    pub fn take_outgoing(&mut self) -> (r: Vec<Packet>)
        ensures
            r@ == old(self).outgoing@,
            final(self).outgoing@ == Seq::<Packet>::empty(),
            final(self).entity_id == old(self).entity_id,
            final(self).awaiting_echo == old(self).awaiting_echo,
    {
        let mut taken: Vec<Packet> = Vec::new();
        std::mem::swap(&mut taken, &mut self.outgoing);
        taken
    }
}

} // verus!
