//! The packets exchanged with clients: one message per frame, its payload
//! one of the variants of [`Data`].

use crate::scalar::Scalar;
use vstd::prelude::*;

verus! {

#[derive(Debug, PartialEq, Eq)]
pub struct Hello {
    pub connection_id: String,
}

#[derive(Debug, PartialEq, Eq)]
pub struct Ping {
}

#[derive(Debug, PartialEq, Eq)]
pub struct Login {
    pub username: String,
    pub password: String,
}

#[derive(Debug, PartialEq, Eq)]
pub struct LoginOk {
}

#[derive(Debug, PartialEq, Eq)]
pub struct LoginErr {
    pub reason: String,
}

#[derive(Debug, PartialEq, Eq)]
pub struct Register {
    pub username: String,
    pub password: String,
    pub color: i64,
}

#[derive(Debug, PartialEq, Eq)]
pub struct RegisterOk {
}

#[derive(Debug, PartialEq, Eq)]
pub struct RegisterErr {
    pub reason: String,
}

#[derive(Debug, PartialEq, Eq)]
pub struct Join {
}

#[derive(Debug, PartialEq, Eq)]
pub struct Chat {
    pub connection_id: String,
    pub msg: String,
}

#[derive(Debug, PartialEq, Eq)]
pub struct UpdatePlayer {
    pub connection_id: String,
    pub nickname: String,
    pub x: Scalar,
    pub y: Scalar,
    pub radius: Scalar,
    pub direction_angle: Scalar,
    pub speed: Scalar,
    pub color: i64,
    pub is_rushing: bool,
}

#[derive(Debug, PartialEq, Eq)]
pub struct UpdatePlayerBatch {
    pub update_player_batch: Vec<UpdatePlayer>,
}

#[derive(Debug, PartialEq, Eq)]
pub struct UpdatePlayerDirectionAngle {
    pub direction_angle: Scalar,
}

#[derive(Debug, PartialEq, Eq)]
pub struct UpdateSpore {
    pub id: String,
    pub x: Scalar,
    pub y: Scalar,
    pub radius: Scalar,
}

#[derive(Debug, PartialEq, Eq)]
pub struct UpdateSporeBatch {
    pub update_spore_batch: Vec<UpdateSpore>,
}

#[derive(Debug, PartialEq, Eq)]
pub struct ConsumeSpore {
    pub connection_id: String,
    pub spore_id: String,
}

#[derive(Debug, PartialEq, Eq)]
pub struct ConsumePlayer {
    pub connection_id: String,
    pub victim_connection_id: String,
}

#[derive(Debug, PartialEq, Eq)]
pub struct Rush {
}

#[derive(Debug, PartialEq, Eq)]
pub struct Disconnect {
    pub connection_id: String,
    pub reason: String,
}

#[derive(Debug, PartialEq, Eq)]
pub struct LeaderboardRequest {
}

#[derive(Debug, PartialEq, Eq)]
pub struct LeaderboardEntry {
    pub rank: u64,
    pub player_nickname: String,
    pub score: u64,
}

#[derive(Debug, PartialEq, Eq)]
pub struct LeaderboardResponse {
    pub leaderboard_entry_list: Vec<LeaderboardEntry>,
}

/// The payload of a packet.
#[derive(Debug, PartialEq, Eq)]
pub enum Data {
    Hello(Hello),
    Ping(Ping),
    Login(Login),
    LoginOk(LoginOk),
    LoginErr(LoginErr),
    Register(Register),
    RegisterOk(RegisterOk),
    RegisterErr(RegisterErr),
    Join(Join),
    Chat(Chat),
    UpdatePlayer(UpdatePlayer),
    UpdatePlayerBatch(UpdatePlayerBatch),
    UpdatePlayerDirectionAngle(UpdatePlayerDirectionAngle),
    UpdateSpore(UpdateSpore),
    UpdateSporeBatch(UpdateSporeBatch),
    ConsumeSpore(ConsumeSpore),
    ConsumePlayer(ConsumePlayer),
    Rush(Rush),
    Disconnect(Disconnect),
    LeaderboardRequest(LeaderboardRequest),
    LeaderboardResponse(LeaderboardResponse),
}

/// One frame's message. A packet without data carries nothing.
#[derive(Debug, PartialEq, Eq)]
pub struct Packet {
    pub data: Option<Data>,
}

} // verus!
