pub mod packet;

use vstd::prelude::*;

use crate::plugin::networking::packet::{
    DecodeError, FRAME_LEN, Packet, frame_of, in_wire_range, message_of,
    pad_message, packet_from,
};

verus! {

/// The plugin channel that block hits travel on.
pub const CHANNEL: u8 = 71;

/// The block-hit side of the plugin channel. It is active only when playing on a
/// server.
pub struct Networking {
    active: bool,
}

/// What an incoming message on `channel` holding `data` yields while the channel
/// is in use: nothing for another channel, else the decoded frame or its error.
pub open spec fn received(channel: u8, data: Seq<u8>) -> Option<Result<Packet, DecodeError>> {
    if channel != CHANNEL {
        None
    } else if data.len() < FRAME_LEN {
        Some(Err(DecodeError::TruncatedInput))
    } else {
        Some(Ok(packet_from(data)))
    }
}

impl Networking {
    pub closed spec fn is_active(&self) -> bool {
        self.active
    }

    /// Whether the channel is in use.
    pub fn active(&self) -> (r: bool)
        ensures
            r == self.is_active(),
    {
        self.active
    }

    /// A message arrived on `channel`. Messages on other channels, and all
    /// messages while the channel is not in use, are not ours; a message too short
    /// for a frame gives `TruncatedInput`, and the caller drops it.
    pub fn receive(&self, channel: u8, data: &[u8]) -> (r: Option<Result<Packet, DecodeError>>)
        ensures
            !self.is_active() ==> r is None,
            self.is_active() ==> r == received(channel, data@),
    {
        if !self.active || channel != CHANNEL {
            return None;
        }
        Some(Packet::decode(data))
    }

    /// The message announcing this peer on the channel once a map has loaded: a
    /// full message of zero bytes, sent only while the channel is in use.
    pub fn on_new_map_loaded(&self) -> (r: Option<Vec<u8>>)
        ensures
            !self.is_active() ==> r is None,
            self.is_active() ==> r is Some && r.unwrap()@ == message_of(Seq::<u8>::empty()),
    {
        if !self.active {
            return None;
        }
        let empty: Vec<u8> = Vec::new();
        Some(pad_message(&empty))
    }

    /// The message that shares the block hit `hit` with the other peers. A hit
    /// whose coordinates do not fit the frame is not sent, nor is anything while the
    /// channel is not in use.
    pub fn broadcast(&self, hit: &Packet) -> (r: Option<Vec<u8>>)
        ensures
            !(self.is_active() && in_wire_range(*hit)) ==> r is None,
            self.is_active() && in_wire_range(*hit) ==> r is Some && r.unwrap()@ == message_of(
                frame_of(*hit),
            ),
    {
        if !self.active || !hit.fits_wire() {
            return None;
        }
        Some(hit.to_message())
    }
}

/// Sets up the channel: in use unless the game is single player.
pub fn initialize(single_player: bool) -> (r: Networking)
    ensures
        r.is_active() == !single_player,
{
    Networking { active: !single_player }
}

/// Stops listening on the channel.
pub fn free(networking: &mut Networking)
    ensures
        !final(networking).is_active(),
{
    networking.active = false;
}

} // verus!
