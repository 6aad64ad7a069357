//! Dispatch of received game packets. The world updates and replies are
//! carried out by the caller on the returned action.

use vstd::prelude::*;
use crate::protocol::packets::{ClientInput, Packet, WorldStateDelta, packet_from, PacketView};

verus! {

/// Game protocol UDP port.
pub const GAME_PORT: u16 = 5000;

/// Server tick rate (Hz).
pub const SERVER_TICK_RATE: u32 = 20;

/// What to do with a received packet.
pub enum PacketAction {
    /// Apply a client's input to its player.
    ApplyInput { player_id: u8, input: ClientInput },
    /// Admit a joining player; the caller answers with `join_response` when a slot is free.
    AdmitPlayer { name: String },
    /// The server assigned us this player id.
    SetLocalPlayer { player_id: u8 },
    /// A client applies the server's world update.
    ApplyDelta(WorldStateDelta),
    /// Nothing to do.
    Ignore,
}

/// Decide what a packet means for a server (`is_server`) or a client.
pub fn handle_packet(packet: Packet, is_server: bool) -> (r: PacketAction)
    ensures
        match packet@ {
            PacketView::ClientInput(input) => r == PacketAction::ApplyInput { player_id: input.player_id, input },
            PacketView::JoinRequest { name } => r matches PacketAction::AdmitPlayer { name: n } && n@ == name,
            PacketView::JoinResponse { player_id } => r == PacketAction::SetLocalPlayer { player_id },
            PacketView::WorldStateDelta(d) => if is_server {
                r is Ignore
            } else {
                r matches PacketAction::ApplyDelta(x) && x@ == d
            },
            _ => r is Ignore,
        },
{
    match packet {
        Packet::ClientInput(input) => PacketAction::ApplyInput { player_id: input.player_id, input },
        Packet::JoinRequest { name } => PacketAction::AdmitPlayer { name },
        Packet::JoinResponse { player_id } => PacketAction::SetLocalPlayer { player_id },
        Packet::WorldStateDelta(delta) => {
            if is_server {
                PacketAction::Ignore
            } else {
                PacketAction::ApplyDelta(delta)
            }
        },
        _ => PacketAction::Ignore,
    }
}

/// Handle one received datagram: decode it and decide; undecodable data is ignored.
pub fn process_incoming(data: &[u8], is_server: bool) -> (r: PacketAction)
    ensures
        packet_from(data@) is None ==> r is Ignore,
        packet_from(data@) matches Some(p) ==> match p {
            PacketView::ClientInput(input) => r == PacketAction::ApplyInput { player_id: input.player_id, input },
            PacketView::JoinRequest { name } => r matches PacketAction::AdmitPlayer { name: n } && n@ == name,
            PacketView::JoinResponse { player_id } => r == PacketAction::SetLocalPlayer { player_id },
            PacketView::WorldStateDelta(d) => if is_server {
                r is Ignore
            } else {
                r matches PacketAction::ApplyDelta(x) && x@ == d
            },
            _ => r is Ignore,
        },
{
    match Packet::decode(data) {
        Some(packet) => handle_packet(packet, is_server),
        None => PacketAction::Ignore,
    }
}

/// The reply admitting a player under `player_id`.
pub fn join_response(player_id: u8) -> (r: Vec<u8>)
    ensures
        packet_from(r@) == Some(PacketView::JoinResponse { player_id }),
        r@ == seq![2u8, player_id],
{
    let p = Packet::JoinResponse { player_id };
    let r = p.encode();
    assert(r@ =~= seq![2u8, player_id]);
    r
}

} // verus!
