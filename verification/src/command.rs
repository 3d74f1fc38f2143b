//! The messages that agents and the hub put on each other's queues.

use crate::proto::Packet;
use crate::scalar::Scalar;
use crate::spore::Spore;
use vstd::prelude::*;

verus! {

/// One line of the leaderboard: ranks count from one.
#[derive(Debug, PartialEq, Eq)]
pub struct LeaderboardEntry {
    pub rank: u64,
    pub player_nickname: String,
    pub score: u64,
}

/// A message on an in-process queue.
///
/// Agents send the hub `RegisterClientAgent`, `UnregisterClientAgent`, `Join`,
/// `Chat`, `UpdatePlayerDirectionAngle`, `ConsumeSpore`, `ConsumePlayer` and
/// `Rush`. The hub sends agents `SendPacket`, `SendBytes`, `UpdateSporeBatch`,
/// `SyncPlayerBestScore` and `DisconnectClient`. The others are handled by
/// neither.
#[derive(Debug, PartialEq, Eq)]
pub enum Command {
    RegisterClientAgent { socket_addr: String },
    UnregisterClientAgent { connection_id: String },
    Login { username: String, password: String },
    Register { username: String, password: String, color: i64 },
    Join { connection_id: String, player_db_id: i64, nickname: String, color: i64 },
    DisconnectClient,
    SendPacket { packet: Packet },
    SendBytes { bytes: Vec<u8> },
    SyncPlayerBestScore { current_score: i64 },
    Chat { connection_id: String, msg: String },
    UpdatePlayerDirectionAngle { connection_id: String, direction_angle: Scalar },
    UpdateSporeBatch { spore_batch: Vec<Spore> },
    ConsumeSpore { connection_id: String, spore_id: String },
    ConsumePlayer { connection_id: String, victim_connection_id: String },
    Rush { connection_id: String },
    LeaderboardRequest,
    LeaderboardResponse { entry_list: Vec<LeaderboardEntry> },
}

} // verus!
