//! What the hub does with each command.

use crate::command::Command;
use crate::hub::{
    addressee, is_broadcast, is_delivery, is_distance_listing, is_joined, is_joined_listing,
    is_selected, is_spore_listing, keyed_spores, with_player, Client, Hub, Outbound,
};
use crate::ids::{fresh_id, is_id_text};
use crate::player::{
    Player, INIT_DIRECTION_ANGLE, INIT_RADIUS, INIT_SPEED, PLAYER_BOUND, RUSH_MIN_RADIUS,
    RUSH_SPEED,
};
use crate::ranking::{ranked, unkeyed};
use crate::proto::{Chat, ConsumeSpore, Data, Packet};
use crate::proto_util;
use crate::scalar::Scalar;
use crate::spore::Spore;
use crate::table::{client_table_get, client_table_insert, client_table_remove, spore_table_remove};
use crate::util::{check_distance_is_close, spec_is_close, Position, Readings, SporeDistance};
use vstd::prelude::*;

verus! {

/// The reason given when a client has left.
pub open spec fn unregister_reason() -> Seq<char> {
    "unregister"@
}

/// Whether `packet` announces that `connection_id` has left for `reason`.
pub open spec fn is_disconnect(packet: Packet, connection_id: String, reason: Seq<char>) -> bool {
    packet.data matches Some(Data::Disconnect(d)) && d.connection_id == connection_id && d.reason@
        == reason
}

/// A registration under `connection_id`: a new client without a player, and
/// the id as the answer. A client that had the id before is replaced.
pub open spec fn registered(
    pre: Hub,
    socket_addr: String,
    connection_id: String,
    post: Hub,
    out: Seq<Outbound>,
) -> bool {
    &&& post.clients() == pre.clients().insert(
        connection_id@,
        Client { socket_addr, connection_id, player: None },
    )
    &&& post.spores() == pre.spores()
    &&& out == seq![Outbound::Registered { connection_id }]
}

/// A client has left: it is gone from the table, and those still joined are
/// told so.
pub open spec fn unregistered(
    pre: Hub,
    connection_id: String,
    post: Hub,
    out: Seq<Outbound>,
) -> bool {
    &&& post.clients() == pre.clients().remove(connection_id@)
    &&& post.spores() == pre.spores()
    &&& out.len() == 1
    &&& out[0] matches Outbound::Broadcast { packet, recipients }
    &&& is_disconnect(packet, connection_id, unregister_reason())
    &&& is_joined_listing(recipients@, post.clients())
}

/// A chat line goes to every joined client, whoever sent it.
pub open spec fn chatted(
    pre: Hub,
    connection_id: String,
    msg: String,
    post: Hub,
    out: Seq<Outbound>,
) -> bool {
    &&& post.clients() == pre.clients()
    &&& post.spores() == pre.spores()
    &&& out.len() == 1
    &&& is_broadcast(
        out[0],
        Packet { data: Some(Data::Chat(Chat { connection_id, msg })) },
        pre.clients(),
    )
}

/// The clients after a joined client has turned to `direction_angle`. A
/// client that is unknown or has no player turns nothing.
pub open spec fn turned_clients(
    clients: Map<Seq<char>, Client>,
    connection_id: Seq<char>,
    direction_angle: Scalar,
) -> Map<Seq<char>, Client> {
    if is_joined(clients, connection_id) {
        clients.insert(
            connection_id,
            with_player(
                clients[connection_id],
                Player { direction_angle, ..clients[connection_id].player->0 },
            ),
        )
    } else {
        clients
    }
}

/// A change of heading is silent.
pub open spec fn turned(
    pre: Hub,
    connection_id: String,
    direction_angle: Scalar,
    post: Hub,
    out: Seq<Outbound>,
) -> bool {
    &&& post.clients() == turned_clients(pre.clients(), connection_id@, direction_angle)
    &&& post.spores() == pre.spores()
    &&& out.len() == 0
}

/// Whether one of the first `upto` of `out` is for `id`.
pub open spec fn addressed(out: Seq<Outbound>, upto: int, id: Seq<char>) -> bool {
    exists|i: int| 0 <= i < upto && #[trigger] addressee(out[i]) == id
}

/// Whether the first `count` of `out` ask the joined clients of the account
/// `db_id` to disconnect, each once, and no one else.
pub open spec fn is_eviction_list(
    out: Seq<Outbound>,
    count: int,
    clients: Map<Seq<char>, Client>,
    db_id: i64,
) -> bool {
    &&& 0 <= count <= out.len()
    &&& forall|i: int|
        0 <= i < count ==> is_delivery(#[trigger] out[i], addressee(out[i]), Command::DisconnectClient)
            && is_selected(clients, Some(db_id), addressee(out[i]))
    &&& forall|i: int, j: int|
        0 <= i < j < count ==> addressee(#[trigger] out[i]) != addressee(#[trigger] out[j])
    &&& forall|k: Seq<char>| #[trigger]
        is_selected(clients, Some(db_id), k) ==> addressed(out, count, k)
}

/// The player that a join creates.
pub open spec fn spawned_player(
    connection_id: String,
    player_db_id: i64,
    nickname: String,
    color: i64,
    position: Position,
) -> Player {
    Player {
        db_id: player_db_id,
        connection_id,
        nickname,
        x: position.x,
        y: position.y,
        radius: Scalar { bits: INIT_RADIUS },
        direction_angle: Scalar { bits: INIT_DIRECTION_ANGLE },
        speed: Scalar { bits: INIT_SPEED },
        color,
        rush_instant: None,
    }
}

/// Whether `outbound` hands the client `connection_id` every spore of the
/// world as one batch, nearest first by the distances given.
pub open spec fn is_snapshot(
    outbound: Outbound,
    connection_id: String,
    spores: Map<Seq<char>, Spore>,
    distances: Seq<SporeDistance>,
) -> bool {
    &&& outbound matches Outbound::Deliver { connection_id: to, command }
    &&& to == connection_id
    &&& command matches Command::UpdateSporeBatch { spore_batch }
    &&& spore_batch@ == unkeyed(ranked(keyed_spores(spores, distances)))
    &&& is_spore_listing(spore_batch@, spores)
}

/// A join: every joined client of the same account is asked to disconnect,
/// the joining one included where it had a player. Then a known client gets
/// a new player at `position` and is handed every spore of the world,
/// nearest first; for an unknown one nothing more happens.
pub open spec fn joined(
    pre: Hub,
    connection_id: String,
    player_db_id: i64,
    nickname: String,
    color: i64,
    position: Position,
    distances: Seq<SporeDistance>,
    post: Hub,
    out: Seq<Outbound>,
) -> bool {
    let known = pre.clients().contains_key(connection_id@);
    let evictions = if known {
        out.len() - 1
    } else {
        out.len() as int
    };
    &&& post.spores() == pre.spores()
    &&& is_eviction_list(out, evictions, pre.clients(), player_db_id)
    &&& known ==> {
        &&& post.clients() == pre.clients().insert(
            connection_id@,
            with_player(
                pre.clients()[connection_id@],
                spawned_player(connection_id, player_db_id, nickname, color, position),
            ),
        )
        &&& is_snapshot(out.last(), connection_id, pre.spores(), distances)
    }
    &&& !known ==> post.clients() == pre.clients()
}

/// Whether a bid to eat a spore is accepted: the eater is joined, the spore
/// exists, and the two are close.
pub open spec fn eats_spore(
    pre: Hub,
    connection_id: Seq<char>,
    spore_id: Seq<char>,
    readings: Readings,
) -> bool {
    &&& is_joined(pre.clients(), connection_id)
    &&& pre.spores().contains_key(spore_id)
    &&& spec_is_close(readings.proximity.distance_sq, readings.proximity.threshold_sq)
}

/// The client after its player has come to the radius `radius`.
pub open spec fn resized(client: Client, radius: Scalar) -> Client {
    with_player(client, Player { radius, ..client.player->0 })
}

/// An accepted bid grows the eater, removes the spore, tells every joined
/// client, and reports the eater's score to its agent. A refused one changes
/// and sends nothing.
pub open spec fn spore_consumed(
    pre: Hub,
    connection_id: String,
    spore_id: String,
    readings: Readings,
    post: Hub,
    out: Seq<Outbound>,
) -> bool {
    if eats_spore(pre, connection_id@, spore_id@, readings) {
        &&& post.clients() == pre.clients().insert(
            connection_id@,
            resized(pre.clients()[connection_id@], readings.grown_radius),
        )
        &&& post.spores() == pre.spores().remove(spore_id@)
        &&& out.len() == 2
        &&& is_broadcast(
            out[0],
            Packet { data: Some(Data::ConsumeSpore(ConsumeSpore { connection_id, spore_id })) },
            post.clients(),
        )
        &&& is_delivery(
            out[1],
            connection_id@,
            Command::SyncPlayerBestScore { current_score: readings.current_score },
        )
    } else {
        &&& post.clients() == pre.clients()
        &&& post.spores() == pre.spores()
        &&& out.len() == 0
    }
}

/// Whether a bid to eat a player is accepted: eater and victim are two
/// joined clients, and they are close.
pub open spec fn eats_player(
    pre: Hub,
    connection_id: Seq<char>,
    victim_connection_id: Seq<char>,
    readings: Readings,
) -> bool {
    &&& connection_id != victim_connection_id
    &&& is_joined(pre.clients(), connection_id)
    &&& is_joined(pre.clients(), victim_connection_id)
    &&& spec_is_close(readings.proximity.distance_sq, readings.proximity.threshold_sq)
}

/// The client after its player has been put at `position` with the initial
/// radius and speed.
pub open spec fn respawned(client: Client, position: Position) -> Client {
    with_player(
        client,
        Player {
            x: position.x,
            y: position.y,
            radius: Scalar { bits: INIT_RADIUS },
            speed: Scalar { bits: INIT_SPEED },
            ..client.player->0
        },
    )
}

/// An accepted bid grows the eater and respawns the victim. Nothing is
/// sent: clients see it in the next tick's batch.
pub open spec fn player_consumed(
    pre: Hub,
    connection_id: String,
    victim_connection_id: String,
    readings: Readings,
    post: Hub,
    out: Seq<Outbound>,
) -> bool {
    &&& post.spores() == pre.spores()
    &&& out.len() == 0
    &&& post.clients() == if eats_player(pre, connection_id@, victim_connection_id@, readings) {
        pre.clients().insert(
            connection_id@,
            resized(pre.clients()[connection_id@], readings.grown_radius),
        ).insert(
            victim_connection_id@,
            respawned(pre.clients()[victim_connection_id@], readings.position),
        )
    } else {
        pre.clients()
    }
}

/// Whether a rush begins: the client is joined, its radius is not below the
/// rush minimum, no rush is on, and the loss of mass is not refused.
pub open spec fn rushes(pre: Hub, connection_id: Seq<char>, readings: Readings) -> bool {
    &&& is_joined(pre.clients(), connection_id)
    &&& !pre.clients()[connection_id].player->0.radius.spec_lt(Scalar { bits: RUSH_MIN_RADIUS })
    &&& pre.clients()[connection_id].player->0.rush_instant is None
    &&& !pre.clients()[connection_id].player->0.refuses_decrease(readings.drop.remaining_mass)
}

/// The spore that a player leaves behind where it stands.
pub open spec fn shed_spore(id: String, player: Player, radius: Scalar) -> Spore {
    Spore { id, x: player.x, y: player.y, radius }
}

/// A rush shrinks the player, speeds it up from `now` on, and leaves the
/// lost mass behind as a spore that every joined client is told of.
/// Otherwise nothing changes and nothing is sent.
pub open spec fn rushed(
    pre: Hub,
    connection_id: String,
    readings: Readings,
    spore_id: String,
    post: Hub,
    out: Seq<Outbound>,
) -> bool {
    if rushes(pre, connection_id@, readings) {
        let player = pre.clients()[connection_id@].player->0;
        let spore = shed_spore(spore_id, player, readings.drop.spore_radius);
        &&& post.clients() == pre.clients().insert(
            connection_id@,
            with_player(
                pre.clients()[connection_id@],
                Player {
                    radius: readings.drop.shrunk_radius,
                    speed: Scalar { bits: RUSH_SPEED },
                    rush_instant: Some(readings.now),
                    ..player
                },
            ),
        )
        &&& post.spores() == pre.spores().insert(spore_id@, spore)
        &&& out.len() == 1
        &&& is_broadcast(
            out[0],
            Packet { data: Some(Data::UpdateSpore(proto_util::spec_update_spore(spore))) },
            post.clients(),
        )
    } else {
        &&& post.clients() == pre.clients()
        &&& post.spores() == pre.spores()
        &&& out.len() == 0
    }
}

/// Whether the readings are in order for the command: for a join the place
/// drawn lies in the arena and the distances name each spore of the world
/// once, and for a bid to eat a player the place drawn lies in the arena.
pub open spec fn readings_admitted(pre: Hub, command: Command, readings: Readings) -> bool {
    match command {
        Command::Join { .. } => readings.position.spec_within(PLAYER_BOUND) && is_distance_listing(
            readings.spore_distances@,
            pre.spores(),
        ),
        Command::ConsumePlayer { .. } => readings.position.spec_within(PLAYER_BOUND),
        _ => true,
    }
}

/// Whether handling `command` needs the generated id.
pub open spec fn needs_id(command: Command) -> bool {
    command is RegisterClientAgent || command is Rush
}

/// What the hub does with a command, given the caller's readings and a
/// generated id. Commands that are not for the hub change and send nothing.
pub open spec fn handled(
    pre: Hub,
    command: Command,
    readings: Readings,
    fresh: String,
    post: Hub,
    out: Seq<Outbound>,
) -> bool {
    match command {
        Command::RegisterClientAgent { socket_addr } => registered(pre, socket_addr, fresh, post, out),
        Command::UnregisterClientAgent { connection_id } => unregistered(pre, connection_id, post, out),
        Command::Join { connection_id, player_db_id, nickname, color } => joined(
            pre,
            connection_id,
            player_db_id,
            nickname,
            color,
            readings.position,
            readings.spore_distances@,
            post,
            out,
        ),
        Command::Chat { connection_id, msg } => chatted(pre, connection_id, msg, post, out),
        Command::UpdatePlayerDirectionAngle { connection_id, direction_angle } => turned(
            pre,
            connection_id,
            direction_angle,
            post,
            out,
        ),
        Command::ConsumeSpore { connection_id, spore_id } => spore_consumed(
            pre,
            connection_id,
            spore_id,
            readings,
            post,
            out,
        ),
        Command::ConsumePlayer { connection_id, victim_connection_id } => player_consumed(
            pre,
            connection_id,
            victim_connection_id,
            readings,
            post,
            out,
        ),
        Command::Rush { connection_id } => rushed(pre, connection_id, readings, fresh, post, out),
        _ => {
            &&& post.clients() == pre.clients()
            &&& post.spores() == pre.spores()
            &&& out.len() == 0
        },
    }
}

impl Hub {
    /// Registers a connection under the id given.
    pub fn register_client_agent_as(
        &mut self,
        socket_addr: String,
        connection_id: String,
    ) -> (out: Vec<Outbound>)
        requires
            old(self).wf(),
        ensures
            registered(*old(self), socket_addr, connection_id, *final(self), out@),
            final(self).wf(),
    {
        let client = Client { socket_addr, connection_id: connection_id.clone(), player: None };
        let _ = client_table_insert(&mut self.client_map, connection_id.clone(), client);
        let mut out: Vec<Outbound> = Vec::new();
        out.push(Outbound::Registered { connection_id });
        assert(out@ =~= seq![Outbound::Registered { connection_id }]);
        out
    }

    /// Registers a connection under a new random id, and answers with it.
    pub fn register_client_agent(&mut self, socket_addr: String) -> (out: Vec<Outbound>)
        requires
            old(self).wf(),
        ensures
            exists|connection_id: String|
                is_id_text(connection_id@) && #[trigger] registered(
                    *old(self),
                    socket_addr,
                    connection_id,
                    *final(self),
                    out@,
                ),
            final(self).wf(),
    {
        let connection_id = fresh_id();
        self.register_client_agent_as(socket_addr, connection_id)
    }

    /// Forgets a connection and tells the joined clients that it left.
    pub fn unregister_client_agent(&mut self, connection_id: String) -> (out: Vec<Outbound>)
        requires
            old(self).wf(),
        ensures
            unregistered(*old(self), connection_id, *final(self), out@),
            final(self).wf(),
    {
        let _ = client_table_remove(&mut self.client_map, connection_id.as_str());
        let packet = proto_util::disconnect_packet(connection_id, "unregister".to_owned());
        let mut out: Vec<Outbound> = Vec::new();
        out.push(Outbound::Broadcast { packet, recipients: self.joined_ids() });
        out
    }

    /// Passes a chat line on to every joined client.
    pub fn chat(&mut self, connection_id: String, msg: String) -> (out: Vec<Outbound>)
        requires
            old(self).wf(),
        ensures
            chatted(*old(self), connection_id, msg, *final(self), out@),
            final(self).wf(),
    {
        let packet = proto_util::chat_packet(connection_id, msg);
        let mut out: Vec<Outbound> = Vec::new();
        out.push(self.broadcast_packet(packet));
        out
    }

    /// Turns the player of `connection_id` to `direction_angle`.
    pub fn update_player_direction_angle(
        &mut self,
        connection_id: String,
        direction_angle: Scalar,
    ) -> (out: Vec<Outbound>)
        requires
            old(self).wf(),
        ensures
            turned(*old(self), connection_id, direction_angle, *final(self), out@),
            final(self).wf(),
    {
        let turned = match self.player_of(connection_id.as_str()) {
            Some(player) => {
                let mut turned = player.clone();
                turned.direction_angle = direction_angle;
                Some(turned)
            },
            None => None,
        };
        if let Some(player) = turned {
            self.set_player(connection_id.as_str(), player);
        }
        Vec::new()
    }

    /// Handles a join with the drawn `position` for the new player, which
    /// lies in the arena, and the distance of each spore from it.
    pub fn join(
        &mut self,
        connection_id: String,
        player_db_id: i64,
        nickname: String,
        color: i64,
        position: Position,
        distances: &Vec<SporeDistance>,
    ) -> (out: Vec<Outbound>)
        requires
            old(self).wf(),
            position.spec_within(PLAYER_BOUND),
            is_distance_listing(distances@, old(self).spores()),
        ensures
            joined(
                *old(self),
                connection_id,
                player_db_id,
                nickname,
                color,
                position,
                distances@,
                *final(self),
                out@,
            ),
            final(self).wf(),
    {
        let evicted = self.select_ids(Some(player_db_id));
        let mut out: Vec<Outbound> = Vec::new();
        let mut i: usize = 0;
        while i < evicted.len()
            invariant
                i <= evicted.len(),
                out.len() == i,
                forall|a: int|
                    0 <= a < i ==> is_delivery(#[trigger] out[a], evicted[a]@, Command::DisconnectClient),
            decreases evicted.len() - i,
        {
            out.push(
                Outbound::Deliver { connection_id: evicted[i].clone(), command: Command::DisconnectClient },
            );
            i = i + 1;
        }
        proof {
            assert forall|a: int| 0 <= a < out.len() implies is_selected(
                self.clients(),
                Some(player_db_id),
                addressee(#[trigger] out[a]),
            ) by {
                assert(is_selected(self.clients(), Some(player_db_id), evicted[a]@));
            }
            assert forall|a: int, b: int| 0 <= a < b < out.len() implies addressee(#[trigger] out[a])
                != addressee(#[trigger] out[b]) by {
                assert(evicted[a]@ != evicted[b]@);
            }
            assert forall|k: Seq<char>| #[trigger]
                is_selected(self.clients(), Some(player_db_id), k) implies addressed(
                out@,
                out.len() as int,
                k,
            ) by {
                let j = choose|j: int|
                    0 <= j < evicted.len() && #[trigger] evicted[j]@ == k;
                assert(addressee(out[j]) == k);
            }
            assert(is_eviction_list(out@, out.len() as int, self.clients(), player_db_id));
        }
        let ghost evictions = out@;
        if client_table_get(&self.client_map, connection_id.as_str()).is_none() {
            return out;
        }
        let player = Player::random(
            player_db_id,
            connection_id.clone(),
            nickname,
            color,
            position.x,
            position.y,
        );
        self.set_player(connection_id.as_str(), player);
        let spore_batch = self.ranked_spores(distances);
        out.push(Outbound::Deliver { connection_id, command: Command::UpdateSporeBatch { spore_batch } });
        proof {
            assert forall|a: int| 0 <= a < evictions.len() implies out[a] == evictions[a] by {}
            assert forall|k: Seq<char>| #[trigger]
                is_selected(old(self).clients(), Some(player_db_id), k) implies addressed(
                out@,
                out.len() - 1,
                k,
            ) by {
                assert(addressed(evictions, evictions.len() as int, k));
                let j = choose|j: int|
                    0 <= j < evictions.len() && #[trigger] addressee(
                        evictions[j],
                    ) == k;
                assert(addressee(out[j]) == k);
            }
        }
        out
    }

    /// Handles a bid of `connection_id` to eat the spore `spore_id`.
    pub fn consume_spore(
        &mut self,
        connection_id: String,
        spore_id: String,
        readings: &Readings,
    ) -> (out: Vec<Outbound>)
        requires
            old(self).wf(),
        ensures
            spore_consumed(*old(self), connection_id, spore_id, *readings, *final(self), out@),
            final(self).wf(),
    {
        let mut out: Vec<Outbound> = Vec::new();
        let grown = match self.player_of(connection_id.as_str()) {
            Some(player) => {
                if self.spore_of(spore_id.as_str()).is_none() {
                    return out;
                }
                if !check_distance_is_close(
                    readings.proximity.distance_sq,
                    readings.proximity.threshold_sq,
                ) {
                    return out;
                }
                let mut grown = player.clone();
                grown.increase_mass(readings.grown_radius);
                grown
            },
            None => {
                return out;
            },
        };
        self.set_player(connection_id.as_str(), grown);
        let _ = spore_table_remove(&mut self.spore_map, spore_id.as_str());
        let to = connection_id.clone();
        let packet = proto_util::consume_spore_packet(connection_id, spore_id);
        out.push(self.broadcast_packet(packet));
        out.push(
            Outbound::Deliver {
                connection_id: to,
                command: Command::SyncPlayerBestScore { current_score: readings.current_score },
            },
        );
        out
    }

    /// Handles a bid of `connection_id` to eat the player of
    /// `victim_connection_id`. The place drawn for the victim lies in the
    /// arena.
    pub fn consume_player(
        &mut self,
        connection_id: String,
        victim_connection_id: String,
        readings: &Readings,
    ) -> (out: Vec<Outbound>)
        requires
            old(self).wf(),
            readings.position.spec_within(PLAYER_BOUND),
        ensures
            player_consumed(
                *old(self),
                connection_id,
                victim_connection_id,
                *readings,
                *final(self),
                out@,
            ),
            final(self).wf(),
    {
        let out: Vec<Outbound> = Vec::new();
        if connection_id == victim_connection_id {
            return out;
        }
        let grown = match self.player_of(connection_id.as_str()) {
            Some(player) => player.clone(),
            None => {
                return out;
            },
        };
        let victim = match self.player_of(victim_connection_id.as_str()) {
            Some(player) => player.clone(),
            None => {
                return out;
            },
        };
        if !check_distance_is_close(readings.proximity.distance_sq, readings.proximity.threshold_sq) {
            return out;
        }
        let mut grown = grown;
        let mut victim = victim;
        grown.increase_mass(readings.grown_radius);
        victim.respawn(readings.position.x, readings.position.y);
        self.set_player(connection_id.as_str(), grown);
        self.set_player(victim_connection_id.as_str(), victim);
        out
    }

    /// Handles a rush of `connection_id`, the spore it leaves behind getting
    /// the id given.
    pub fn rush_as(
        &mut self,
        connection_id: String,
        readings: &Readings,
        spore_id: String,
    ) -> (out: Vec<Outbound>)
        requires
            old(self).wf(),
        ensures
            rushed(*old(self), connection_id, *readings, spore_id, *final(self), out@),
            final(self).wf(),
    {
        let mut out: Vec<Outbound> = Vec::new();
        let mut player = match self.player_of(connection_id.as_str()) {
            Some(player) => player.clone(),
            None => {
                return out;
            },
        };
        if player.radius.lt(Scalar { bits: RUSH_MIN_RADIUS }) {
            return out;
        }
        if player.rush_instant.is_some() {
            return out;
        }
        if player.try_drop_mass(readings.drop).is_none() {
            return out;
        }
        player.rush(readings.now);
        let spore = Spore { id: spore_id, x: player.x, y: player.y, radius: readings.drop.spore_radius };
        self.set_player(connection_id.as_str(), player);
        let packet = self.place_spore(spore);
        out.push(self.broadcast_packet(packet));
        out
    }

    /// Handles a rush of `connection_id`. The spore it leaves behind gets a
    /// new random id.
    pub fn rush(&mut self, connection_id: String, readings: &Readings) -> (out: Vec<Outbound>)
        requires
            old(self).wf(),
        ensures
            exists|spore_id: String|
                is_id_text(spore_id@) && #[trigger] rushed(
                    *old(self),
                    connection_id,
                    *readings,
                    spore_id,
                    *final(self),
                    out@,
                ),
            final(self).wf(),
    {
        let spore_id = fresh_id();
        self.rush_as(connection_id, readings, spore_id)
    }

    /// Handles one command, with the id given for what it may create.
    pub fn handle_command_as(
        &mut self,
        command: Command,
        readings: &Readings,
        fresh: String,
    ) -> (out: Vec<Outbound>)
        requires
            old(self).wf(),
            readings_admitted(*old(self), command, *readings),
        ensures
            handled(*old(self), command, *readings, fresh, *final(self), out@),
            final(self).wf(),
    {
        match command {
            Command::RegisterClientAgent { socket_addr } => self.register_client_agent_as(
                socket_addr,
                fresh,
            ),
            Command::UnregisterClientAgent { connection_id } => self.unregister_client_agent(
                connection_id,
            ),
            Command::Join { connection_id, player_db_id, nickname, color } => self.join(
                connection_id,
                player_db_id,
                nickname,
                color,
                readings.position,
                &readings.spore_distances,
            ),
            Command::Chat { connection_id, msg } => self.chat(connection_id, msg),
            Command::UpdatePlayerDirectionAngle {
                connection_id,
                direction_angle,
            } => self.update_player_direction_angle(connection_id, direction_angle),
            Command::ConsumeSpore { connection_id, spore_id } => self.consume_spore(
                connection_id,
                spore_id,
                readings,
            ),
            Command::ConsumePlayer { connection_id, victim_connection_id } => self.consume_player(
                connection_id,
                victim_connection_id,
                readings,
            ),
            Command::Rush { connection_id } => self.rush_as(connection_id, readings, fresh),
            _ => Vec::new(),
        }
    }

    /// Handles one command. A registration and a rush get a new random id
    /// for what they create.
    pub fn handle_command(&mut self, command: Command, readings: &Readings) -> (out: Vec<Outbound>)
        requires
            old(self).wf(),
            readings_admitted(*old(self), command, *readings),
        ensures
            exists|fresh: String|
                (needs_id(command) ==> is_id_text(fresh@)) && #[trigger] handled(
                    *old(self),
                    command,
                    *readings,
                    fresh,
                    *final(self),
                    out@,
                ),
            final(self).wf(),
    {
        let fresh = match &command {
            Command::RegisterClientAgent { .. } => fresh_id(),
            Command::Rush { .. } => fresh_id(),
            _ => String::new(),
        };
        self.handle_command_as(command, readings, fresh)
    }
}

} // verus!
