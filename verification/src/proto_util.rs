//! Builders of the packets that the server sends.

use crate::command;
use crate::player::Player;
use crate::proto;
use crate::proto::{Data, Packet};
use crate::spore::Spore;
use vstd::prelude::*;

verus! {

/// The state of a player as clients are told it.
pub open spec fn spec_update_player(player: Player) -> proto::UpdatePlayer {
    proto::UpdatePlayer {
        connection_id: player.connection_id,
        nickname: player.nickname,
        x: player.x,
        y: player.y,
        radius: player.radius,
        direction_angle: player.direction_angle,
        speed: player.speed,
        color: player.color,
        is_rushing: player.rush_instant is Some,
    }
}

/// A spore as clients are told it.
pub open spec fn spec_update_spore(spore: Spore) -> proto::UpdateSpore {
    proto::UpdateSpore { id: spore.id, x: spore.x, y: spore.y, radius: spore.radius }
}

/// A leaderboard line as clients are told it.
pub open spec fn spec_leaderboard_entry(
    entry: command::LeaderboardEntry,
) -> proto::LeaderboardEntry {
    proto::LeaderboardEntry {
        rank: entry.rank,
        player_nickname: entry.player_nickname,
        score: entry.score,
    }
}

/// Whether `packet` is a batch of exactly these player states, in this order.
pub open spec fn is_update_player_batch(packet: Packet, batch: Seq<proto::UpdatePlayer>) -> bool {
    packet.data matches Some(Data::UpdatePlayerBatch(b)) && b.update_player_batch@ == batch
}

/// Whether `packet` is a batch of exactly these spores, in this order.
pub open spec fn is_update_spore_batch(packet: Packet, batch: Seq<proto::UpdateSpore>) -> bool {
    packet.data matches Some(Data::UpdateSporeBatch(b)) && b.update_spore_batch@ == batch
}

/// Whether `packet` is a leaderboard of exactly these lines, in this order.
pub open spec fn is_leaderboard_response(
    packet: Packet,
    lines: Seq<proto::LeaderboardEntry>,
) -> bool {
    packet.data matches Some(Data::LeaderboardResponse(r)) && r.leaderboard_entry_list@ == lines
}

pub fn hello_packet(connection_id: String) -> (packet: Packet)
    ensures
        packet == (Packet { data: Some(Data::Hello(proto::Hello { connection_id })) }),
{
    Packet { data: Some(Data::Hello(proto::Hello { connection_id })) }
}

pub fn login_ok_packet() -> (packet: Packet)
    ensures
        packet == (Packet { data: Some(Data::LoginOk(proto::LoginOk {  })) }),
{
    Packet { data: Some(Data::LoginOk(proto::LoginOk {  })) }
}

pub fn login_err_packet(reason: String) -> (packet: Packet)
    ensures
        packet == (Packet { data: Some(Data::LoginErr(proto::LoginErr { reason })) }),
{
    Packet { data: Some(Data::LoginErr(proto::LoginErr { reason })) }
}

pub fn register_ok_packet() -> (packet: Packet)
    ensures
        packet == (Packet { data: Some(Data::RegisterOk(proto::RegisterOk {  })) }),
{
    Packet { data: Some(Data::RegisterOk(proto::RegisterOk {  })) }
}

pub fn register_err_packet(reason: String) -> (packet: Packet)
    ensures
        packet == (Packet { data: Some(Data::RegisterErr(proto::RegisterErr { reason })) }),
{
    Packet { data: Some(Data::RegisterErr(proto::RegisterErr { reason })) }
}

pub fn chat_packet(connection_id: String, msg: String) -> (packet: Packet)
    ensures
        packet == (Packet { data: Some(Data::Chat(proto::Chat { connection_id, msg })) }),
{
    Packet { data: Some(Data::Chat(proto::Chat { connection_id, msg })) }
}

pub fn update_player(player: &Player) -> (update: proto::UpdatePlayer)
    ensures
        update == spec_update_player(*player),
{
    proto::UpdatePlayer {
        connection_id: player.connection_id.clone(),
        nickname: player.nickname.clone(),
        x: player.x,
        y: player.y,
        radius: player.radius,
        direction_angle: player.direction_angle,
        speed: player.speed,
        color: player.color,
        is_rushing: player.rush_instant.is_some(),
    }
}

pub fn update_player_packet(player: &Player) -> (packet: Packet)
    ensures
        packet == (Packet { data: Some(Data::UpdatePlayer(spec_update_player(*player))) }),
{
    Packet { data: Some(Data::UpdatePlayer(update_player(player))) }
}

pub fn update_player_batch_packet(player_list: &[&Player]) -> (packet: Packet)
    ensures
        is_update_player_batch(
            packet,
            Seq::new(player_list@.len(), |i: int| spec_update_player(*player_list@[i])),
        ),
{
    let mut update_player_batch: Vec<proto::UpdatePlayer> = Vec::new();
    let mut i: usize = 0;
    while i < player_list.len()
        invariant
            i <= player_list@.len(),
            update_player_batch@ == Seq::new(i as nat, |k: int| spec_update_player(*player_list@[k])),
        decreases player_list@.len() - i,
    {
        update_player_batch.push(update_player(player_list[i]));
        i = i + 1;
    }
    Packet { data: Some(Data::UpdatePlayerBatch(proto::UpdatePlayerBatch { update_player_batch })) }
}

pub fn update_spore(spore: &Spore) -> (update: proto::UpdateSpore)
    ensures
        update == spec_update_spore(*spore),
{
    proto::UpdateSpore { id: spore.id.clone(), x: spore.x, y: spore.y, radius: spore.radius }
}

pub fn update_spore_pack(spore: &Spore) -> (packet: Packet)
    ensures
        packet == (Packet { data: Some(Data::UpdateSpore(spec_update_spore(*spore))) }),
{
    Packet { data: Some(Data::UpdateSpore(update_spore(spore))) }
}

pub fn update_spore_batch_packet(spore_list: &[Spore]) -> (packet: Packet)
    ensures
        is_update_spore_batch(
            packet,
            Seq::new(spore_list@.len(), |i: int| spec_update_spore(spore_list@[i])),
        ),
{
    let mut update_spore_batch: Vec<proto::UpdateSpore> = Vec::new();
    let mut i: usize = 0;
    while i < spore_list.len()
        invariant
            i <= spore_list@.len(),
            update_spore_batch@ == Seq::new(i as nat, |k: int| spec_update_spore(spore_list@[k])),
        decreases spore_list@.len() - i,
    {
        update_spore_batch.push(update_spore(&spore_list[i]));
        i = i + 1;
    }
    Packet { data: Some(Data::UpdateSporeBatch(proto::UpdateSporeBatch { update_spore_batch })) }
}

pub fn consume_spore_packet(connection_id: String, spore_id: String) -> (packet: Packet)
    ensures
        packet == (Packet {
            data: Some(Data::ConsumeSpore(proto::ConsumeSpore { connection_id, spore_id })),
        }),
{
    Packet { data: Some(Data::ConsumeSpore(proto::ConsumeSpore { connection_id, spore_id })) }
}

pub fn disconnect_packet(connection_id: String, reason: String) -> (packet: Packet)
    ensures
        packet == (Packet {
            data: Some(Data::Disconnect(proto::Disconnect { connection_id, reason })),
        }),
{
    Packet { data: Some(Data::Disconnect(proto::Disconnect { connection_id, reason })) }
}

pub fn leaderboard_response(
    leaderboard_entry_list: &[command::LeaderboardEntry],
) -> (packet: Packet)
    ensures
        is_leaderboard_response(
            packet,
            Seq::new(
                leaderboard_entry_list@.len(),
                |i: int| spec_leaderboard_entry(leaderboard_entry_list@[i]),
            ),
        ),
{
    let mut lines: Vec<proto::LeaderboardEntry> = Vec::new();
    let mut i: usize = 0;
    while i < leaderboard_entry_list.len()
        invariant
            i <= leaderboard_entry_list@.len(),
            lines@ == Seq::new(i as nat, |k: int| spec_leaderboard_entry(leaderboard_entry_list@[k])),
        decreases leaderboard_entry_list@.len() - i,
    {
        let entry = &leaderboard_entry_list[i];
        lines.push(
            proto::LeaderboardEntry {
                rank: entry.rank,
                player_nickname: entry.player_nickname.clone(),
                score: entry.score,
            },
        );
        i = i + 1;
    }
    Packet {
        data: Some(
            Data::LeaderboardResponse(proto::LeaderboardResponse { leaderboard_entry_list: lines }),
        ),
    }
}

} // verus!
