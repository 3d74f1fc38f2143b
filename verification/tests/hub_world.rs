use agarust_server::command::Command;
use agarust_server::hub::events::HubEvent;
use agarust_server::hub::{Hub, Outbound, MAX_SPORE_COUNT};
use agarust_server::player::Player;
use agarust_server::proto::{Data, Packet};
use agarust_server::proto_util;
use agarust_server::scalar::Scalar;
use agarust_server::spore::Spore;
use agarust_server::hub::spawner::check_draws;
use agarust_server::util::{
    MassDrop, PlayerTick, Position, Proximity, Readings, SporeDistance, SporeDraw,
};
use std::f64::consts::PI;

fn sc(value: f64) -> Scalar {
    Scalar::from_bits(value.to_bits())
}

fn num(value: Scalar) -> f64 {
    f64::from_bits(value.to_bits())
}

fn radius_to_mass(radius: f64) -> f64 {
    PI * radius * radius
}

fn mass_to_radius(mass: f64) -> f64 {
    (mass / PI).sqrt()
}

fn at(x: f64, y: f64) -> Position {
    Position { x: sc(x), y: sc(y) }
}

fn no_drop() -> MassDrop {
    MassDrop { mass: sc(0.0), remaining_mass: sc(0.0), shrunk_radius: sc(0.0), spore_radius: sc(0.0) }
}

fn drop_of(radius: f64, mass: f64) -> MassDrop {
    let remaining = radius_to_mass(radius) - mass;
    MassDrop {
        mass: sc(mass),
        remaining_mass: sc(remaining),
        shrunk_radius: sc(mass_to_radius(remaining)),
        spore_radius: sc(mass_to_radius(mass)),
    }
}

fn idle() -> Readings {
    Readings {
        now: 0,
        position: at(0.0, 0.0),
        proximity: Proximity { distance_sq: sc(0.0), threshold_sq: sc(0.0) },
        grown_radius: sc(0.0),
        current_score: 0,
        drop: no_drop(),
        spore_distances: vec![],
    }
}

fn spread(hub: &Hub, x: f64, y: f64) -> Vec<SporeDistance> {
    hub.spore_snapshot()
        .into_iter()
        .map(|spore| SporeDistance {
            distance_sq: sc((x - num(spore.x)).powi(2) + (y - num(spore.y)).powi(2)),
            spore_id: spore.id,
        })
        .collect()
}

fn batch_of(outbound: &Outbound, to: &str) -> Vec<Spore> {
    match outbound {
        Outbound::Deliver { connection_id, command: Command::UpdateSporeBatch { spore_batch } } => {
            assert_eq!(connection_id, to);
            spore_batch.clone()
        }
        other => panic!("unexpected {:?}", other),
    }
}

fn full_draws() -> Vec<SporeDraw> {
    (0..MAX_SPORE_COUNT)
        .map(|i| SporeDraw { x: sc(i as f64), y: sc(-(i as f64)), radius: sc(3.0 + (i % 11) as f64) })
        .collect()
}

fn meal(eater: &Player, x: f64, y: f64, radius: f64) -> Readings {
    let dx = num(eater.x) - x;
    let dy = num(eater.y) - y;
    let threshold = num(eater.radius) + radius + 10.0;
    let grown = mass_to_radius(radius_to_mass(num(eater.radius)) + radius_to_mass(radius));
    Readings {
        proximity: Proximity { distance_sq: sc(dx * dx + dy * dy), threshold_sq: sc(threshold * threshold) },
        grown_radius: sc(grown),
        current_score: radius_to_mass(grown) as i64,
        ..idle()
    }
}

fn register(hub: &mut Hub, addr: &str) -> String {
    let out = hub.register_client_agent(addr.to_string());
    assert_eq!(out.len(), 1);
    match &out[0] {
        Outbound::Registered { connection_id } => connection_id.clone(),
        other => panic!("unexpected {:?}", other),
    }
}

fn enter(hub: &mut Hub, addr: &str, db_id: i64, name: &str, x: f64, y: f64) -> String {
    let id = register(hub, addr);
    let distances = spread(hub, x, y);
    hub.join(id.clone(), db_id, name.to_string(), 0x112233FF, at(x, y), &distances);
    id
}

fn plant(hub: &mut Hub, id: &str, x: f64, y: f64, radius: f64) {
    hub.spawn_spore_as(SporeDraw { x: sc(x), y: sc(y), radius: sc(radius) }, id.to_string());
}

fn resize(hub: &mut Hub, id: &str, radius: f64) {
    plant(hub, "resizing-pellet", 0.0, 0.0, 10.0);
    let readings = Readings {
        proximity: Proximity { distance_sq: sc(0.0), threshold_sq: sc(1.0) },
        grown_radius: sc(radius),
        ..idle()
    };
    let out = hub.consume_spore(id.to_string(), "resizing-pellet".to_string(), &readings);
    assert_eq!(out.len(), 2);
}

fn sorted(mut ids: Vec<String>) -> Vec<String> {
    ids.sort();
    ids
}

fn recipients_of(outbound: &Outbound) -> Vec<String> {
    match outbound {
        Outbound::Broadcast { recipients, .. } => sorted(recipients.clone()),
        other => panic!("not a broadcast: {:?}", other),
    }
}

fn packet_of(outbound: &Outbound) -> &Packet {
    match outbound {
        Outbound::Broadcast { packet, .. } => packet,
        other => panic!("not a broadcast: {:?}", other),
    }
}

#[test]
fn new_world_is_empty() {
    let hub = Hub::new();
    assert_eq!(hub.spore_count(), 0);
    assert!(hub.joined_ids().is_empty());
    assert!(hub.client_of("nobody").is_none());
    assert!(hub.spore_snapshot().is_empty());
}

#[test]
fn registration_assigns_a_generated_id() {
    let mut hub = Hub::new();
    let id = register(&mut hub, "127.0.0.1:4000");
    assert_eq!(id.len(), 21);
    assert!(id.chars().all(|c| c.is_ascii_alphanumeric() || c == '_' || c == '-'));
    let client = hub.client_of(&id).expect("registered");
    assert_eq!(client.connection_id, id);
    assert_eq!(client.socket_addr, "127.0.0.1:4000");
    assert!(client.player.is_none());
    assert!(hub.joined_ids().is_empty());
}

#[test]
fn registrations_get_different_ids() {
    let mut hub = Hub::new();
    let a = register(&mut hub, "a");
    let b = register(&mut hub, "b");
    assert_ne!(a, b);
    assert!(hub.client_of(&a).is_some());
    assert!(hub.client_of(&b).is_some());
}

#[test]
fn registration_under_a_used_id_replaces_the_client() {
    let mut hub = Hub::new();
    hub.register_client_agent_as("first".to_string(), "same".to_string());
    hub.join("same".to_string(), 1, "one".to_string(), 0xFF, at(1.0, 2.0), &spread(&hub, 1.0, 2.0));
    assert!(hub.player_of("same").is_some());
    let out = hub.register_client_agent_as("second".to_string(), "same".to_string());
    assert_eq!(out, vec![Outbound::Registered { connection_id: "same".to_string() }]);
    assert_eq!(hub.client_of("same").unwrap().socket_addr, "second");
    assert!(hub.player_of("same").is_none());
}

#[test]
fn unregister_tells_those_still_joined() {
    let mut hub = Hub::new();
    let a = enter(&mut hub, "a", 1, "ann", 0.0, 0.0);
    let b = enter(&mut hub, "b", 2, "bob", 5.0, 5.0);
    let c = register(&mut hub, "c");
    let out = hub.unregister_client_agent(a.clone());
    assert_eq!(out.len(), 1);
    assert_eq!(packet_of(&out[0]), &proto_util::disconnect_packet(a.clone(), "unregister".to_string()));
    assert_eq!(recipients_of(&out[0]), vec![b.clone()]);
    assert!(hub.client_of(&a).is_none());
    assert!(hub.client_of(&b).is_some());
    assert!(hub.client_of(&c).is_some());
}

#[test]
fn unregister_of_an_unknown_client_still_broadcasts() {
    let mut hub = Hub::new();
    let a = enter(&mut hub, "a", 1, "ann", 0.0, 0.0);
    let out = hub.unregister_client_agent("ghost".to_string());
    assert_eq!(out.len(), 1);
    assert_eq!(recipients_of(&out[0]), vec![a]);
}

#[test]
fn chat_goes_to_every_joined_client() {
    let mut hub = Hub::new();
    let a = enter(&mut hub, "a", 1, "alice", 0.0, 0.0);
    let b = enter(&mut hub, "b", 2, "bob", 5.0, 5.0);
    let _idle = register(&mut hub, "c");
    let out = hub.chat(a.clone(), "hi".to_string());
    assert_eq!(out.len(), 1);
    assert_eq!(packet_of(&out[0]), &proto_util::chat_packet(a.clone(), "hi".to_string()));
    assert_eq!(recipients_of(&out[0]), sorted(vec![a, b]));
}

#[test]
fn join_creates_a_player_at_rest() {
    let mut hub = Hub::new();
    let id = register(&mut hub, "a");
    plant(&mut hub, "s1", 1.0, 1.0, 10.0);
    plant(&mut hub, "s2", 2.0, 2.0, 11.0);
    let out = hub.join(id.clone(), 42, "alice".to_string(), 0x112233FF, at(-7.5, 2999.0), &spread(&hub, -7.5, 2999.0));
    assert_eq!(out.len(), 1);
    let batch = batch_of(&out[0], &id);
    let ids: Vec<&str> = batch.iter().map(|s| s.id.as_str()).collect();
    assert_eq!(ids, vec!["s2", "s1"]);
    let player = hub.player_of(&id).expect("joined");
    assert_eq!(
        player,
        &Player {
            db_id: 42,
            connection_id: id.clone(),
            nickname: "alice".to_string(),
            x: sc(-7.5),
            y: sc(2999.0),
            radius: sc(20.0),
            direction_angle: sc(0.0),
            speed: sc(150.0),
            color: 0x112233FF,
            rush_instant: None,
        }
    );
    assert_eq!(hub.joined_ids(), vec![id]);
}

#[test]
fn join_of_an_unknown_client_changes_nothing() {
    let mut hub = Hub::new();
    let a = enter(&mut hub, "a", 1, "ann", 0.0, 0.0);
    let out = hub.join("ghost".to_string(), 9, "ghost".to_string(), 0xFF, at(0.0, 0.0), &spread(&hub, 0.0, 0.0));
    assert!(out.is_empty());
    assert!(hub.client_of("ghost").is_none());
    assert_eq!(hub.joined_ids(), vec![a]);
}

#[test]
fn duplicate_login_displaces_the_first_session() {
    let mut hub = Hub::new();
    let a = enter(&mut hub, "a", 7, "alice", 0.0, 0.0);
    let other = enter(&mut hub, "o", 8, "olaf", 1.0, 1.0);
    let b = register(&mut hub, "b");
    let out = hub.join(b.clone(), 7, "alice".to_string(), 0x112233FF, at(3.0, 4.0), &spread(&hub, 3.0, 4.0));
    assert_eq!(out.len(), 2);
    assert_eq!(out[0], Outbound::Deliver { connection_id: a.clone(), command: Command::DisconnectClient });
    assert!(batch_of(&out[1], &b).is_empty());
    assert_eq!(hub.player_of(&b).unwrap().db_id, 7);
    assert!(hub.player_of(&other).is_some());
    let out = hub.unregister_client_agent(a.clone());
    assert_eq!(recipients_of(&out[0]), sorted(vec![b, other]));
}

#[test]
fn join_again_asks_the_same_session_to_disconnect() {
    let mut hub = Hub::new();
    let a = enter(&mut hub, "a", 7, "alice", 0.0, 0.0);
    let out = hub.join(a.clone(), 7, "alice".to_string(), 0xFF, at(9.0, 9.0), &spread(&hub, 9.0, 9.0));
    assert_eq!(out.len(), 2);
    assert_eq!(out[0], Outbound::Deliver { connection_id: a.clone(), command: Command::DisconnectClient });
    assert_eq!(hub.player_of(&a).unwrap().x, sc(9.0));
}

#[test]
fn join_evicts_every_stale_session_of_the_account() {
    let mut hub = Hub::new();
    let a = enter(&mut hub, "a", 7, "alice", 0.0, 0.0);
    let b = enter(&mut hub, "b", 7, "alice", 0.0, 0.0);
    let c = register(&mut hub, "c");
    let out = hub.join(c.clone(), 7, "alice".to_string(), 0xFF, at(0.0, 0.0), &spread(&hub, 0.0, 0.0));
    assert_eq!(out.len(), 3);
    let mut evicted = vec![];
    for outbound in &out[..2] {
        match outbound {
            Outbound::Deliver { connection_id, command } => {
                assert_eq!(command, &Command::DisconnectClient);
                evicted.push(connection_id.clone());
            }
            other => panic!("unexpected {:?}", other),
        }
    }
    assert_eq!(sorted(evicted), sorted(vec![a, b]));
}

#[test]
fn direction_is_set_for_a_joined_client_only() {
    let mut hub = Hub::new();
    let a = enter(&mut hub, "a", 1, "ann", 0.0, 0.0);
    let b = register(&mut hub, "b");
    assert!(hub.update_player_direction_angle(a.clone(), sc(1.25)).is_empty());
    assert!(hub.update_player_direction_angle(b.clone(), sc(1.25)).is_empty());
    assert!(hub.update_player_direction_angle("ghost".to_string(), sc(1.25)).is_empty());
    assert_eq!(hub.player_of(&a).unwrap().direction_angle, sc(1.25));
    assert!(hub.player_of(&b).is_none());
}

#[test]
fn consume_spore_in_reach() {
    let mut hub = Hub::new();
    let a = enter(&mut hub, "a", 1, "ann", 0.0, 0.0);
    let b = enter(&mut hub, "b", 2, "bob", 1000.0, 1000.0);
    plant(&mut hub, "S", 25.0, 0.0, 10.0);
    let readings = meal(hub.player_of(&a).unwrap(), 25.0, 0.0, 10.0);
    assert_eq!(num(readings.proximity.distance_sq), 625.0);
    assert_eq!(num(readings.proximity.threshold_sq), 1600.0);
    assert_eq!(readings.current_score, 1570);
    let out = hub.consume_spore(a.clone(), "S".to_string(), &readings);
    assert_eq!(out.len(), 2);
    assert_eq!(packet_of(&out[0]), &proto_util::consume_spore_packet(a.clone(), "S".to_string()));
    assert_eq!(recipients_of(&out[0]), sorted(vec![a.clone(), b]));
    assert_eq!(
        out[1],
        Outbound::Deliver {
            connection_id: a.clone(),
            command: Command::SyncPlayerBestScore { current_score: 1570 },
        }
    );
    assert!(hub.spore_of("S").is_none());
    assert_eq!(hub.spore_count(), 0);
    let radius = num(hub.player_of(&a).unwrap().radius);
    assert!((radius - 500.0f64.sqrt()).abs() < 1e-9);
}

#[test]
fn consume_spore_too_far() {
    let mut hub = Hub::new();
    let a = enter(&mut hub, "a", 1, "ann", 0.0, 0.0);
    plant(&mut hub, "S", 200.0, 0.0, 10.0);
    let readings = meal(hub.player_of(&a).unwrap(), 200.0, 0.0, 10.0);
    let out = hub.consume_spore(a.clone(), "S".to_string(), &readings);
    assert!(out.is_empty());
    assert_eq!(hub.spore_count(), 1);
    assert_eq!(hub.spore_of("S"), Some(&Spore { id: "S".to_string(), x: sc(200.0), y: sc(0.0), radius: sc(10.0) }));
    assert_eq!(hub.player_of(&a).unwrap().radius, sc(20.0));
}

#[test]
fn consume_spore_needs_a_player_and_a_spore() {
    let mut hub = Hub::new();
    let a = enter(&mut hub, "a", 1, "ann", 0.0, 0.0);
    let b = register(&mut hub, "b");
    plant(&mut hub, "S", 1.0, 0.0, 10.0);
    let near = Readings {
        proximity: Proximity { distance_sq: sc(1.0), threshold_sq: sc(1600.0) },
        grown_radius: sc(22.0),
        current_score: 1,
        ..idle()
    };
    assert!(hub.consume_spore(a.clone(), "missing".to_string(), &near).is_empty());
    assert!(hub.consume_spore(b, "S".to_string(), &near).is_empty());
    assert!(hub.consume_spore("ghost".to_string(), "S".to_string(), &near).is_empty());
    assert_eq!(hub.spore_count(), 1);
    assert_eq!(hub.player_of(&a).unwrap().radius, sc(20.0));
}

#[test]
fn closeness_is_strict_and_false_for_nan() {
    let mut hub = Hub::new();
    let a = enter(&mut hub, "a", 1, "ann", 0.0, 0.0);
    plant(&mut hub, "S", 40.0, 0.0, 10.0);
    let edge = Readings {
        proximity: Proximity { distance_sq: sc(1600.0), threshold_sq: sc(1600.0) },
        grown_radius: sc(22.0),
        ..idle()
    };
    assert!(hub.consume_spore(a.clone(), "S".to_string(), &edge).is_empty());
    let undefined = Readings {
        proximity: Proximity { distance_sq: sc(f64::NAN), threshold_sq: sc(1600.0) },
        grown_radius: sc(22.0),
        ..idle()
    };
    assert!(hub.consume_spore(a, "S".to_string(), &undefined).is_empty());
    assert_eq!(hub.spore_count(), 1);
}

#[test]
fn consume_player_grows_the_eater_and_respawns_the_victim() {
    let mut hub = Hub::new();
    let a = enter(&mut hub, "a", 1, "ann", 0.0, 0.0);
    let v = enter(&mut hub, "v", 2, "vic", 10.0, 0.0);
    hub.update_player_direction_angle(v.clone(), sc(2.0));
    resize(&mut hub, &a, 40.0);
    let mut readings = meal(hub.player_of(&a).unwrap(), 10.0, 0.0, 20.0);
    readings.position = at(-1234.0, 77.0);
    let out = hub.consume_player(a.clone(), v.clone(), &readings);
    assert!(out.is_empty());
    let eater = hub.player_of(&a).unwrap();
    assert!((num(eater.radius) - 2000.0f64.sqrt()).abs() < 1e-9);
    let victim = hub.player_of(&v).unwrap();
    assert_eq!(
        victim,
        &Player {
            db_id: 2,
            connection_id: v.clone(),
            nickname: "vic".to_string(),
            x: sc(-1234.0),
            y: sc(77.0),
            radius: sc(20.0),
            direction_angle: sc(2.0),
            speed: sc(150.0),
            color: 0x112233FF,
            rush_instant: None,
        }
    );
}

#[test]
fn consume_player_is_dropped_without_two_close_players() {
    let mut hub = Hub::new();
    let a = enter(&mut hub, "a", 1, "ann", 0.0, 0.0);
    let v = enter(&mut hub, "v", 2, "vic", 500.0, 0.0);
    let idle_client = register(&mut hub, "i");
    let far = meal(hub.player_of(&a).unwrap(), 500.0, 0.0, 20.0);
    assert!(hub.consume_player(a.clone(), v.clone(), &far).is_empty());
    let near = Readings {
        proximity: Proximity { distance_sq: sc(1.0), threshold_sq: sc(2500.0) },
        grown_radius: sc(28.0),
        position: at(5.0, 5.0),
        ..idle()
    };
    assert!(hub.consume_player(a.clone(), a.clone(), &near).is_empty());
    assert!(hub.consume_player(a.clone(), idle_client.clone(), &near).is_empty());
    assert!(hub.consume_player(idle_client, a.clone(), &near).is_empty());
    assert!(hub.consume_player(a.clone(), "ghost".to_string(), &near).is_empty());
    assert_eq!(hub.player_of(&a).unwrap().radius, sc(20.0));
    assert_eq!(hub.player_of(&a).unwrap().x, sc(0.0));
    assert_eq!(hub.player_of(&v).unwrap().x, sc(500.0));
}

#[test]
fn rush_below_threshold_changes_nothing() {
    let mut hub = Hub::new();
    let a = enter(&mut hub, "a", 1, "ann", 0.0, 0.0);
    resize(&mut hub, &a, 19.0);
    let before = hub.player_of(&a).unwrap().clone();
    let readings = Readings { now: 5, drop: drop_of(19.0, 0.2 * radius_to_mass(19.0)), ..idle() };
    let out = hub.rush(a.clone(), &readings);
    assert!(out.is_empty());
    assert_eq!(hub.player_of(&a).unwrap(), &before);
    assert_eq!(hub.spore_count(), 0);
}

#[test]
fn rush_sheds_a_fifth_of_the_mass() {
    let mut hub = Hub::new();
    let a = enter(&mut hub, "a", 1, "ann", 12.0, -3.0);
    let b = enter(&mut hub, "b", 2, "bob", 0.0, 0.0);
    resize(&mut hub, &a, 30.0);
    let drop = drop_of(30.0, 0.2 * radius_to_mass(30.0));
    let readings = Readings { now: 1_000, drop, ..idle() };
    let out = hub.rush(a.clone(), &readings);
    assert_eq!(out.len(), 1);
    assert_eq!(recipients_of(&out[0]), sorted(vec![a.clone(), b]));
    let player = hub.player_of(&a).unwrap();
    assert_eq!(player.speed, sc(300.0));
    assert_eq!(player.rush_instant, Some(1_000));
    assert!((num(player.radius) - 720.0f64.sqrt()).abs() < 1e-9);
    assert_eq!(hub.spore_count(), 1);
    let spores = hub.spore_snapshot();
    assert_eq!(spores[0].id.len(), 21);
    assert_eq!(spores[0].x, sc(12.0));
    assert_eq!(spores[0].y, sc(-3.0));
    assert!((num(spores[0].radius) - 180.0f64.sqrt()).abs() < 1e-9);
    assert_eq!(packet_of(&out[0]), &proto_util::update_spore_pack(&spores[0]));
}

#[test]
fn rush_at_the_threshold_is_allowed() {
    let mut hub = Hub::new();
    let a = enter(&mut hub, "a", 1, "ann", 0.0, 0.0);
    let readings = Readings { now: 9, drop: drop_of(20.0, 0.2 * radius_to_mass(20.0)), ..idle() };
    let out = hub.rush_as(a.clone(), &readings, "left-behind".to_string());
    assert_eq!(out.len(), 1);
    assert_eq!(
        hub.spore_of("left-behind"),
        Some(&Spore { id: "left-behind".to_string(), x: sc(0.0), y: sc(0.0), radius: readings.drop.spore_radius })
    );
    assert_eq!(hub.player_of(&a).unwrap().rush_instant, Some(9));
}

#[test]
fn rush_is_refused_during_a_rush_and_without_mass_left() {
    let mut hub = Hub::new();
    let a = enter(&mut hub, "a", 1, "ann", 0.0, 0.0);
    let b = enter(&mut hub, "b", 2, "bob", 0.0, 0.0);
    let idle_client = register(&mut hub, "i");
    let readings = Readings { now: 9, drop: drop_of(20.0, 0.2 * radius_to_mass(20.0)), ..idle() };
    assert_eq!(hub.rush(a.clone(), &readings).len(), 1);
    assert!(hub.rush(a.clone(), &readings).is_empty());
    let nothing_left = Readings {
        now: 9,
        drop: MassDrop { mass: sc(1.0), remaining_mass: sc(0.0), shrunk_radius: sc(0.0), spore_radius: sc(1.0) },
        ..idle()
    };
    assert!(hub.rush(b.clone(), &nothing_left).is_empty());
    assert!(hub.rush(idle_client, &readings).is_empty());
    assert!(hub.rush("ghost".to_string(), &readings).is_empty());
    assert_eq!(hub.player_of(&b).unwrap().radius, sc(20.0));
    assert_eq!(hub.player_of(&b).unwrap().rush_instant, None);
    assert_eq!(hub.spore_count(), 1);
}

#[test]
fn rush_expires_after_two_seconds() {
    let mut hub = Hub::new();
    let a = enter(&mut hub, "a", 1, "ann", 0.0, 0.0);
    resize(&mut hub, &a, 30.0);
    let t0: u64 = 10_000_000_000;
    let readings = Readings { now: t0, drop: drop_of(30.0, 0.2 * radius_to_mass(30.0)), ..idle() };
    assert_eq!(hub.rush(a.clone(), &readings).len(), 1);
    let step = |x: f64| PlayerTick {
        connection_id: a.clone(),
        position: at(x, 0.0),
        chance: sc(0.9),
        probability: sc(0.001),
        drop: no_drop(),
    };
    hub.tick_player(&vec![step(1.0)], t0 + 1_900_000_000);
    assert_eq!(hub.player_of(&a).unwrap().speed, sc(300.0));
    assert_eq!(hub.player_of(&a).unwrap().rush_instant, Some(t0));
    hub.tick_player(&vec![step(2.0)], t0 + 2_000_000_000);
    assert_eq!(hub.player_of(&a).unwrap().speed, sc(300.0));
    hub.tick_player(&vec![step(3.0)], t0 + 2_100_000_000);
    assert_eq!(hub.player_of(&a).unwrap().speed, sc(150.0));
    assert_eq!(hub.player_of(&a).unwrap().rush_instant, None);
    assert_eq!(hub.player_of(&a).unwrap().x, sc(3.0));
}

#[test]
fn tick_moves_players_and_reports_them() {
    let mut hub = Hub::new();
    let a = enter(&mut hub, "a", 1, "alice", 0.0, 0.0);
    let b = enter(&mut hub, "b", 2, "bob", 10.0, 10.0);
    let _idle = register(&mut hub, "i");
    let ticks = vec![
        PlayerTick { connection_id: a.clone(), position: at(7.5, 0.0), chance: sc(0.5), probability: sc(0.005), drop: no_drop() },
        PlayerTick { connection_id: b.clone(), position: at(10.0, 10.0), chance: sc(0.5), probability: sc(0.005), drop: no_drop() },
    ];
    let out = hub.tick_player(&ticks, 50_000_000);
    assert_eq!(out.len(), 1);
    assert_eq!(recipients_of(&out[0]), sorted(vec![a.clone(), b.clone()]));
    match &packet_of(&out[0]).data {
        Some(Data::UpdatePlayerBatch(batch)) => {
            let mut reported: Vec<_> = batch.update_player_batch.iter().collect();
            reported.sort_by(|l, r| l.nickname.cmp(&r.nickname));
            assert_eq!(reported.len(), 2);
            assert_eq!(reported[0], &proto_util::update_player(hub.player_of(&a).unwrap()));
            assert_eq!(reported[1], &proto_util::update_player(hub.player_of(&b).unwrap()));
            assert_eq!(reported[0].x, sc(7.5));
            assert_eq!(reported[1].x, sc(10.0));
        }
        other => panic!("unexpected {:?}", other),
    }
    assert_eq!(hub.spore_count(), 0);
}

#[test]
fn tick_sheds_a_spore_when_the_chance_is_below_the_probability() {
    let mut hub = Hub::new();
    let a = enter(&mut hub, "a", 1, "alice", 0.0, 0.0);
    let b = enter(&mut hub, "b", 2, "bob", 10.0, 10.0);
    let shed_mass = radius_to_mass((5.0f64 + 20.0 / 50.0).min(15.0));
    let ticks = vec![
        PlayerTick { connection_id: a.clone(), position: at(1.0, 2.0), chance: sc(0.001), probability: sc(20.0 / 4000.0), drop: drop_of(20.0, shed_mass) },
        PlayerTick { connection_id: b.clone(), position: at(11.0, 10.0), chance: sc(0.005), probability: sc(0.005), drop: drop_of(20.0, shed_mass) },
    ];
    let out = hub.tick_player(&ticks, 1);
    assert_eq!(out.len(), 2);
    assert!(matches!(packet_of(&out[0]).data, Some(Data::UpdatePlayerBatch(_))));
    let spores = hub.spore_snapshot();
    assert_eq!(spores.len(), 1);
    assert_eq!(spores[0].x, sc(1.0));
    assert_eq!(spores[0].y, sc(2.0));
    assert!((num(spores[0].radius) - 5.4).abs() < 1e-9);
    assert_eq!(packet_of(&out[1]), &proto_util::update_spore_pack(&spores[0]));
    assert_eq!(recipients_of(&out[1]), sorted(vec![a.clone(), b.clone()]));
    let shrunk = num(hub.player_of(&a).unwrap().radius);
    assert!((shrunk - (400.0f64 - 5.4 * 5.4).sqrt()).abs() < 1e-9);
    assert_eq!(hub.player_of(&b).unwrap().radius, sc(20.0));
}

#[test]
fn tick_sheds_nothing_at_the_minimum_radius() {
    let mut hub = Hub::new();
    let a = enter(&mut hub, "a", 1, "alice", 0.0, 0.0);
    resize(&mut hub, &a, 10.0);
    let ticks = vec![PlayerTick {
        connection_id: a.clone(),
        position: at(1.0, 2.0),
        chance: sc(0.0),
        probability: sc(1.0),
        drop: drop_of(10.0, 1.0),
    }];
    let out = hub.tick_player(&ticks, 1);
    assert_eq!(out.len(), 1);
    assert_eq!(hub.spore_count(), 0);
    assert_eq!(hub.player_of(&a).unwrap().radius, sc(10.0));
    assert_eq!(hub.player_of(&a).unwrap().x, sc(1.0));
}

#[test]
fn a_player_just_above_the_minimum_can_shrink_below_it() {
    let mut hub = Hub::new();
    let a = enter(&mut hub, "a", 1, "alice", 0.0, 0.0);
    resize(&mut hub, &a, 10.5);
    let shed_mass = radius_to_mass((5.0f64 + 10.5 / 50.0).min(15.0));
    let ticks = vec![PlayerTick {
        connection_id: a.clone(),
        position: at(0.0, 0.0),
        chance: sc(0.0),
        probability: sc(1.0),
        drop: drop_of(10.5, shed_mass),
    }];
    hub.tick_player(&ticks, 1);
    assert!(num(hub.player_of(&a).unwrap().radius) < 10.0);
}

#[test]
fn spawner_stops_at_the_maximum() {
    let mut hub = Hub::new();
    let draws = full_draws();
    assert!(check_draws(&draws));
    let out = hub.prefill(&draws);
    assert_eq!(out.len(), MAX_SPORE_COUNT);
    assert_eq!(hub.spore_count(), MAX_SPORE_COUNT);
    let draw = SporeDraw { x: sc(1.0), y: sc(1.0), radius: sc(12.0) };
    assert!(hub.take_spawn_turn(draw).is_empty());
    assert_eq!(hub.spore_count(), MAX_SPORE_COUNT);
    let eaten = hub.spore_snapshot()[0].id.clone();
    let a = enter(&mut hub, "a", 1, "ann", 0.0, 0.0);
    let near = Readings {
        proximity: Proximity { distance_sq: sc(1.0), threshold_sq: sc(1600.0) },
        grown_radius: sc(22.0),
        ..idle()
    };
    assert_eq!(hub.consume_spore(a.clone(), eaten, &near).len(), 2);
    assert_eq!(hub.spore_count(), MAX_SPORE_COUNT - 1);
    let out = hub.take_spawn_turn(draw);
    assert_eq!(out.len(), 1);
    assert_eq!(recipients_of(&out[0]), vec![a]);
    assert_eq!(hub.spore_count(), MAX_SPORE_COUNT);
    assert!(hub.take_spawn_turn(draw).is_empty());
}

#[test]
fn a_rush_can_take_the_world_over_the_maximum() {
    let mut hub = Hub::new();
    let draws = full_draws();
    hub.prefill(&draws);
    let a = enter(&mut hub, "a", 1, "ann", 0.0, 0.0);
    let readings = Readings { now: 9, drop: drop_of(20.0, 0.2 * radius_to_mass(20.0)), ..idle() };
    assert_eq!(hub.rush(a, &readings).len(), 1);
    assert_eq!(hub.spore_count(), MAX_SPORE_COUNT + 1);
}

#[test]
fn prefill_spawns_one_spore_for_each_draw() {
    let mut hub = Hub::new();
    let draws = full_draws();
    let out = hub.prefill(&draws);
    assert_eq!(out.len(), MAX_SPORE_COUNT);
    assert_eq!(hub.spore_count(), MAX_SPORE_COUNT);
    for (outbound, draw) in out.iter().zip(&draws) {
        assert!(recipients_of(outbound).is_empty());
        match &packet_of(outbound).data {
            Some(Data::UpdateSpore(update)) => {
                assert_eq!(update.id.len(), 21);
                assert_eq!(update.x, draw.x);
                assert_eq!(update.y, draw.y);
                assert_eq!(num(update.radius), num(draw.radius).max(5.0));
                let spore = hub.spore_of(&update.id).expect("in the world");
                assert_eq!(&proto_util::update_spore(spore), update);
            }
            other => panic!("unexpected {:?}", other),
        }
    }
}

#[test]
fn draws_for_a_prefill_are_tested() {
    let mut draws = full_draws();
    assert!(check_draws(&draws));
    draws[17].x = sc(3000.5);
    assert!(!check_draws(&draws));
    draws[17].x = sc(-3000.0);
    assert!(check_draws(&draws));
    draws[17].y = sc(f64::NAN);
    assert!(!check_draws(&draws));
    draws[17].y = sc(3000.0);
    draws.pop();
    assert!(!check_draws(&draws));
    assert!(!check_draws(&vec![]));
}

#[test]
fn spawn_under_a_used_id_replaces_the_spore() {
    let mut hub = Hub::new();
    plant(&mut hub, "S", 1.0, 1.0, 10.0);
    plant(&mut hub, "S", 2.0, 2.0, 11.0);
    assert_eq!(hub.spore_count(), 1);
    assert_eq!(hub.spore_of("S").unwrap().x, sc(2.0));
}

#[test]
fn spawn_gives_each_spore_an_id_of_its_own() {
    let mut hub = Hub::new();
    let draw = SporeDraw { x: sc(1.0), y: sc(1.0), radius: sc(11.0) };
    hub.spawn_spore(draw);
    hub.spawn_spore(draw);
    hub.spawn_spore(draw);
    assert_eq!(hub.spore_count(), 3);
}

#[test]
fn commands_are_dispatched_by_their_tag() {
    let mut hub = Hub::new();
    let out = hub.handle_command(Command::RegisterClientAgent { socket_addr: "a".to_string() }, &idle());
    let a = match &out[0] {
        Outbound::Registered { connection_id } => connection_id.clone(),
        other => panic!("unexpected {:?}", other),
    };
    assert_eq!(a.len(), 21);
    let join = Command::Join { connection_id: a.clone(), player_db_id: 3, nickname: "ann".to_string(), color: 0xFF };
    let out = hub.handle_command(join, &Readings { position: at(4.0, 5.0), ..idle() });
    assert!(batch_of(&out[0], &a).is_empty());
    assert_eq!(hub.player_of(&a).unwrap().y, sc(5.0));
    let out = hub.handle_command(Command::Chat { connection_id: a.clone(), msg: "hi".to_string() }, &idle());
    assert_eq!(packet_of(&out[0]), &proto_util::chat_packet(a.clone(), "hi".to_string()));
    let turn = Command::UpdatePlayerDirectionAngle { connection_id: a.clone(), direction_angle: sc(0.5) };
    assert!(hub.handle_command(turn, &idle()).is_empty());
    assert_eq!(hub.player_of(&a).unwrap().direction_angle, sc(0.5));
    plant(&mut hub, "S", 4.0, 5.0, 10.0);
    let readings = meal(hub.player_of(&a).unwrap(), 4.0, 5.0, 10.0);
    let out = hub.handle_command(Command::ConsumeSpore { connection_id: a.clone(), spore_id: "S".to_string() }, &readings);
    assert_eq!(out.len(), 2);
    let rush = Readings { now: 77, drop: drop_of(500.0f64.sqrt(), 0.2 * radius_to_mass(500.0f64.sqrt())), ..idle() };
    let out = hub.handle_command(Command::Rush { connection_id: a.clone() }, &rush);
    assert_eq!(out.len(), 1);
    assert_eq!(hub.player_of(&a).unwrap().rush_instant, Some(77));
    let out = hub.handle_command_as(
        Command::ConsumePlayer { connection_id: a.clone(), victim_connection_id: a.clone() },
        &idle(),
        String::new(),
    );
    assert!(out.is_empty());
    let out = hub.handle_command(Command::UnregisterClientAgent { connection_id: a.clone() }, &idle());
    assert_eq!(out.len(), 1);
    assert!(hub.client_of(&a).is_none());
}

#[test]
fn commands_for_agents_are_ignored_by_the_hub() {
    let mut hub = Hub::new();
    let a = enter(&mut hub, "a", 1, "ann", 0.0, 0.0);
    let before = hub.player_of(&a).unwrap().clone();
    let strangers = vec![
        Command::DisconnectClient,
        Command::SendBytes { bytes: vec![1, 2, 3] },
        Command::SendPacket { packet: proto_util::login_ok_packet() },
        Command::SyncPlayerBestScore { current_score: 4 },
        Command::UpdateSporeBatch { spore_batch: vec![] },
        Command::Login { username: "u".to_string(), password: "p".to_string() },
        Command::Register { username: "u".to_string(), password: "p".to_string(), color: 1 },
        Command::LeaderboardRequest,
        Command::LeaderboardResponse { entry_list: vec![] },
    ];
    for command in strangers {
        assert!(hub.handle_command(command, &idle()).is_empty());
    }
    assert_eq!(hub.player_of(&a).unwrap(), &before);
    assert_eq!(hub.spore_count(), 0);
}

#[test]
fn connection_ids_stay_unique() {
    let mut hub = Hub::new();
    let mut ids = vec![];
    for i in 0..50 {
        ids.push(enter(&mut hub, "addr", i, "p", 0.0, 0.0));
    }
    let joined = hub.joined_ids();
    assert_eq!(sorted(joined.clone()), sorted(ids));
    let mut unique = joined.clone();
    unique.sort();
    unique.dedup();
    assert_eq!(unique.len(), 50);
    for id in &joined {
        assert_eq!(&hub.client_of(id).unwrap().connection_id, id);
        assert_eq!(&hub.player_of(id).unwrap().connection_id, id);
    }
}

#[test]
fn events_of_a_running_hub() {
    let mut hub = Hub::new();
    let register = HubEvent::Command {
        command: Command::RegisterClientAgent { socket_addr: "a".to_string() },
        readings: idle(),
    };
    let a = match &hub.handle_event(register)[0] {
        Outbound::Registered { connection_id } => connection_id.clone(),
        other => panic!("unexpected {:?}", other),
    };
    let join = HubEvent::Command {
        command: Command::Join { connection_id: a.clone(), player_db_id: 1, nickname: "ann".to_string(), color: 0xFF },
        readings: Readings { position: at(1.0, 1.0), ..idle() },
    };
    assert_eq!(hub.handle_event(join).len(), 1);
    let out = hub.handle_event(HubEvent::Spawn { draw: SporeDraw { x: sc(3.0), y: sc(4.0), radius: sc(10.5) } });
    assert_eq!(out.len(), 1);
    assert_eq!(recipients_of(&out[0]), vec![a.clone()]);
    assert_eq!(hub.spore_count(), 1);
    let ticks = vec![PlayerTick {
        connection_id: a.clone(),
        position: at(2.0, 1.0),
        chance: sc(0.9),
        probability: sc(0.005),
        drop: no_drop(),
    }];
    let out = hub.handle_event(HubEvent::Tick { ticks, now: 50_000_000 });
    assert_eq!(out.len(), 1);
    assert_eq!(hub.player_of(&a).unwrap().x, sc(2.0));
}

#[test]
fn ticks_must_name_every_joined_client_once() {
    let mut hub = Hub::new();
    let a = enter(&mut hub, "a", 1, "ann", 0.0, 0.0);
    let b = enter(&mut hub, "b", 2, "bob", 0.0, 0.0);
    let idle_client = register(&mut hub, "i");
    let step = |id: &str| PlayerTick {
        connection_id: id.to_string(),
        position: at(1.0, 0.0),
        chance: sc(0.9),
        probability: sc(0.005),
        drop: no_drop(),
    };
    assert!(hub.lists_joined(&vec![step(&a), step(&b)]));
    assert!(hub.lists_joined(&vec![step(&b), step(&a)]));
    assert!(!hub.lists_joined(&vec![]));
    assert!(!hub.lists_joined(&vec![step(&a)]));
    assert!(!hub.lists_joined(&vec![step(&a), step(&a)]));
    assert!(!hub.lists_joined(&vec![step(&a), step(&b), step(&a)]));
    assert!(!hub.lists_joined(&vec![step(&a), step(&b), step(&idle_client)]));
    assert!(!hub.lists_joined(&vec![step(&a), step(&b), step("ghost")]));
    assert!(hub.admits(&HubEvent::Tick { ticks: vec![step(&b), step(&a)], now: 1 }));
    assert!(!hub.admits(&HubEvent::Tick { ticks: vec![step(&a)], now: 1 }));
    assert!(Hub::new().lists_joined(&vec![]));
}

#[test]
fn distances_must_name_every_spore_once() {
    let mut hub = Hub::new();
    plant(&mut hub, "s1", 1.0, 1.0, 10.0);
    plant(&mut hub, "s2", 2.0, 2.0, 10.0);
    let far = |id: &str| SporeDistance { spore_id: id.to_string(), distance_sq: sc(4.0) };
    assert!(hub.lists_spores(&vec![far("s1"), far("s2")]));
    assert!(hub.lists_spores(&vec![far("s2"), far("s1")]));
    assert!(hub.lists_spores(&spread(&hub, 0.0, 0.0)));
    assert!(!hub.lists_spores(&vec![]));
    assert!(!hub.lists_spores(&vec![far("s1")]));
    assert!(!hub.lists_spores(&vec![far("s1"), far("s1")]));
    assert!(!hub.lists_spores(&vec![far("s1"), far("s2"), far("s2")]));
    assert!(!hub.lists_spores(&vec![far("s1"), far("s2"), far("s3")]));
    assert!(Hub::new().lists_spores(&vec![]));
}

#[test]
fn events_out_of_order_are_not_admitted() {
    let mut hub = Hub::new();
    let a = register(&mut hub, "a");
    plant(&mut hub, "s1", 1.0, 1.0, 10.0);
    let join = |readings: Readings| HubEvent::Command {
        command: Command::Join { connection_id: a.clone(), player_db_id: 1, nickname: "ann".to_string(), color: 0xFF },
        readings,
    };
    let good = Readings { position: at(3000.0, -3000.0), spore_distances: spread(&hub, 3000.0, -3000.0), ..idle() };
    assert!(hub.admits(&join(good)));
    assert!(!hub.admits(&join(Readings { position: at(3000.0, -3000.0), ..idle() })));
    let outside = Readings { position: at(3000.1, 0.0), spore_distances: spread(&hub, 0.0, 0.0), ..idle() };
    assert!(!hub.admits(&join(outside)));
    let nowhere = Readings { position: at(0.0, f64::NAN), spore_distances: spread(&hub, 0.0, 0.0), ..idle() };
    assert!(!hub.admits(&join(nowhere)));
    let eat = |readings: Readings| HubEvent::Command {
        command: Command::ConsumePlayer { connection_id: a.clone(), victim_connection_id: "v".to_string() },
        readings,
    };
    assert!(hub.admits(&eat(idle())));
    assert!(!hub.admits(&eat(Readings { position: at(-4000.0, 0.0), ..idle() })));
    assert!(hub.admits(&HubEvent::Spawn { draw: SporeDraw { x: sc(-3000.0), y: sc(3000.0), radius: sc(1.0) } }));
    assert!(!hub.admits(&HubEvent::Spawn { draw: SporeDraw { x: sc(f64::INFINITY), y: sc(0.0), radius: sc(1.0) } }));
    let chat = HubEvent::Command { command: Command::Chat { connection_id: a.clone(), msg: "m".to_string() }, readings: idle() };
    assert!(hub.admits(&chat));
}

#[test]
fn a_joining_client_is_handed_the_spores_nearest_first() {
    let mut hub = Hub::new();
    plant(&mut hub, "far", 100.0, 0.0, 10.0);
    plant(&mut hub, "near", 3.0, 4.0, 10.0);
    plant(&mut hub, "mid", -30.0, 40.0, 10.0);
    plant(&mut hub, "nearer", 0.5, 0.5, 10.0);
    plant(&mut hub, "near-too", 0.5, 0.75, 10.0);
    plant(&mut hub, "here", 0.0, 0.0, 10.0);
    let id = register(&mut hub, "a");
    let out = hub.join(id.clone(), 1, "ann".to_string(), 0xFF, at(0.0, 0.0), &spread(&hub, 0.0, 0.0));
    let batch = batch_of(&out[0], &id);
    let ids: Vec<&str> = batch.iter().map(|s| s.id.as_str()).collect();
    assert_eq!(ids, vec!["here", "nearer", "near-too", "near", "mid", "far"]);
    assert_eq!(hub.spore_count(), 6);
    for spore in &batch {
        assert_eq!(hub.spore_of(&spore.id), Some(spore));
    }
}
