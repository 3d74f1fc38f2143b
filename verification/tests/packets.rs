use agarust_server::command;
use agarust_server::player::Player;
use agarust_server::proto;
use agarust_server::proto::{Data, Packet};
use agarust_server::proto_util::{
    chat_packet, consume_spore_packet, disconnect_packet, hello_packet, leaderboard_response,
    login_err_packet, login_ok_packet, register_err_packet, register_ok_packet, update_player,
    update_player_batch_packet, update_player_packet, update_spore, update_spore_batch_packet,
    update_spore_pack,
};
use agarust_server::scalar::Scalar;
use agarust_server::spore::Spore;

fn bits(value: f64) -> Scalar {
    Scalar::from_bits(value.to_bits())
}

fn avatar(name: &str, rushing: bool) -> Player {
    Player {
        db_id: 4,
        connection_id: format!("conn-{}", name),
        nickname: name.to_string(),
        x: bits(1.5),
        y: bits(-2.5),
        radius: bits(20.0),
        direction_angle: bits(0.75),
        speed: bits(150.0),
        color: 0x112233FF,
        rush_instant: if rushing { Some(12) } else { None },
    }
}

fn told(name: &str, rushing: bool) -> proto::UpdatePlayer {
    proto::UpdatePlayer {
        connection_id: format!("conn-{}", name),
        nickname: name.to_string(),
        x: bits(1.5),
        y: bits(-2.5),
        radius: bits(20.0),
        direction_angle: bits(0.75),
        speed: bits(150.0),
        color: 0x112233FF,
        is_rushing: rushing,
    }
}

fn pellet(id: &str, x: f64) -> Spore {
    Spore { id: id.to_string(), x: bits(x), y: bits(2.0), radius: bits(11.0) }
}

fn told_pellet(id: &str, x: f64) -> proto::UpdateSpore {
    proto::UpdateSpore { id: id.to_string(), x: bits(x), y: bits(2.0), radius: bits(11.0) }
}

#[test]
fn hello_carries_the_connection_id() {
    assert_eq!(
        hello_packet("abc".to_string()),
        Packet { data: Some(Data::Hello(proto::Hello { connection_id: "abc".to_string() })) }
    );
}

#[test]
fn login_ok_is_empty() {
    assert_eq!(login_ok_packet(), Packet { data: Some(Data::LoginOk(proto::LoginOk {})) });
}

#[test]
fn login_err_carries_the_reason() {
    assert_eq!(
        login_err_packet("why".to_string()),
        Packet { data: Some(Data::LoginErr(proto::LoginErr { reason: "why".to_string() })) }
    );
}

#[test]
fn register_ok_is_empty() {
    assert_eq!(register_ok_packet(), Packet { data: Some(Data::RegisterOk(proto::RegisterOk {})) });
}

#[test]
fn register_err_carries_the_reason() {
    assert_eq!(
        register_err_packet("why".to_string()),
        Packet { data: Some(Data::RegisterErr(proto::RegisterErr { reason: "why".to_string() })) }
    );
}

#[test]
fn chat_carries_sender_and_line() {
    assert_eq!(
        chat_packet("abc".to_string(), "hi".to_string()),
        Packet {
            data: Some(Data::Chat(proto::Chat { connection_id: "abc".to_string(), msg: "hi".to_string() }))
        }
    );
}

#[test]
fn update_player_copies_the_player() {
    assert_eq!(update_player(&avatar("ann", false)), told("ann", false));
    assert_eq!(update_player(&avatar("bob", true)), told("bob", true));
}

#[test]
fn update_player_packet_wraps_the_update() {
    assert_eq!(
        update_player_packet(&avatar("ann", true)),
        Packet { data: Some(Data::UpdatePlayer(told("ann", true))) }
    );
}

#[test]
fn update_player_batch_keeps_the_order() {
    let ann = avatar("ann", false);
    let bob = avatar("bob", true);
    assert_eq!(
        update_player_batch_packet(&[&bob, &ann]),
        Packet {
            data: Some(Data::UpdatePlayerBatch(proto::UpdatePlayerBatch {
                update_player_batch: vec![told("bob", true), told("ann", false)],
            }))
        }
    );
    assert_eq!(
        update_player_batch_packet(&[]),
        Packet { data: Some(Data::UpdatePlayerBatch(proto::UpdatePlayerBatch { update_player_batch: vec![] })) }
    );
}

#[test]
fn update_spore_copies_the_spore() {
    assert_eq!(update_spore(&pellet("s", 1.0)), told_pellet("s", 1.0));
}

#[test]
fn update_spore_pack_wraps_the_update() {
    assert_eq!(
        update_spore_pack(&pellet("s", 1.0)),
        Packet { data: Some(Data::UpdateSpore(told_pellet("s", 1.0))) }
    );
}

#[test]
fn update_spore_batch_keeps_the_order() {
    assert_eq!(
        update_spore_batch_packet(&[pellet("b", 2.0), pellet("a", 1.0), pellet("c", 3.0)]),
        Packet {
            data: Some(Data::UpdateSporeBatch(proto::UpdateSporeBatch {
                update_spore_batch: vec![told_pellet("b", 2.0), told_pellet("a", 1.0), told_pellet("c", 3.0)],
            }))
        }
    );
}

#[test]
fn consume_spore_names_eater_and_spore() {
    assert_eq!(
        consume_spore_packet("abc".to_string(), "s".to_string()),
        Packet {
            data: Some(Data::ConsumeSpore(proto::ConsumeSpore {
                connection_id: "abc".to_string(),
                spore_id: "s".to_string(),
            }))
        }
    );
}

#[test]
fn disconnect_names_client_and_reason() {
    assert_eq!(
        disconnect_packet("abc".to_string(), "unregister".to_string()),
        Packet {
            data: Some(Data::Disconnect(proto::Disconnect {
                connection_id: "abc".to_string(),
                reason: "unregister".to_string(),
            }))
        }
    );
}

#[test]
fn leaderboard_response_keeps_the_lines() {
    let lines = vec![
        command::LeaderboardEntry { rank: 1, player_nickname: "top".to_string(), score: 10 },
        command::LeaderboardEntry { rank: 2, player_nickname: "low".to_string(), score: 3 },
    ];
    assert_eq!(
        leaderboard_response(&lines),
        Packet {
            data: Some(Data::LeaderboardResponse(proto::LeaderboardResponse {
                leaderboard_entry_list: vec![
                    proto::LeaderboardEntry { rank: 1, player_nickname: "top".to_string(), score: 10 },
                    proto::LeaderboardEntry { rank: 2, player_nickname: "low".to_string(), score: 3 },
                ],
            }))
        }
    );
}
