//! The hub: the one owner of the world.
//!
//! This file holds the world itself and how it is read. What the hub does
//! with a command is in [`commands`], the tests of what a caller hands in in
//! [`admission`], the spawner in [`spawner`], the tick in
//! [`tick`], the three together as one step in [`events`], and what holds of
//! all of them in [`laws`].

pub mod admission;
pub mod commands;
pub mod events;
pub mod laws;
pub mod spawner;
pub mod tick;

use crate::command::Command;
use crate::player::Player;
use crate::proto::{Data, Packet, UpdatePlayer};
use crate::proto_util;
use crate::ranking::{
    holds, lemma_ranked_is_sorted_permutation, lemma_ranked_keeps_members, rank_spore_batch, ranked,
    unkeyed, KeyedSpore,
};
use crate::spore::Spore;
use crate::table::{
    client_entries, client_table_get, client_table_insert, client_table_keys, client_table_new,
    client_table_remove, distinct_texts, is_key_listing, occurs, spore_entries, spore_table_get,
    spore_table_insert, spore_table_keys, spore_table_len, spore_table_new, ClientTable,
    SporeTable,
};
use crate::util::{distance_names, tick_names, PlayerTick, SporeDistance};
use vstd::prelude::*;

verus! {

/// The period of the simulation tick, in milliseconds.
pub const TICK_DURATION: u64 = 50;

/// The period of the spore spawner, in milliseconds.
pub const SPAWN_SPORE_DURATION: u64 = 2000;

/// The spawner adds no spore to a world that holds this many.
pub const MAX_SPORE_COUNT: usize = 1000;

/// What the hub knows of one connection. The player is absent until the
/// client has joined.
#[derive(Debug, PartialEq, Eq)]
pub struct Client {
    pub socket_addr: String,
    pub connection_id: String,
    pub player: Option<Player>,
}

/// Something for the hub's caller to carry out, in the order given.
#[derive(Debug, PartialEq, Eq)]
pub enum Outbound {
    /// Answer a registration with the connection id that was assigned.
    Registered { connection_id: String },
    /// Put `command` on the queue of the agent of `connection_id`.
    Deliver { connection_id: String, command: Command },
    /// Encode `packet` once and put the bytes on the queue of the agent of
    /// each recipient.
    Broadcast { packet: Packet, recipients: Vec<String> },
}

/// The world: the clients by connection id and the spores by id.
pub struct Hub {
    pub client_map: ClientTable,
    pub spore_map: SporeTable,
}

/// Whether a client carries the connection id `id`, and its player too.
pub open spec fn filed_under(client: Client, id: Seq<char>) -> bool {
    &&& client.connection_id@ == id
    &&& client.player matches Some(player) ==> player.connection_id@ == id
}

/// Whether `id` is a client with a player.
pub open spec fn is_joined(clients: Map<Seq<char>, Client>, id: Seq<char>) -> bool {
    clients.contains_key(id) && clients[id].player is Some
}

/// Whether `id` is a joined client that `filter` lets through: every one
/// without a filter, those whose player has the account `db_id` with one.
pub open spec fn is_selected(
    clients: Map<Seq<char>, Client>,
    filter: Option<i64>,
    id: Seq<char>,
) -> bool {
    is_joined(clients, id) && (filter matches Some(db_id) ==> clients[id].player->0.db_id == db_id)
}

/// Whether `ids` lists the clients that `filter` selects, each once, in some
/// order.
pub open spec fn is_selection(
    ids: Seq<String>,
    clients: Map<Seq<char>, Client>,
    filter: Option<i64>,
) -> bool {
    &&& forall|i: int| 0 <= i < ids.len() ==> is_selected(clients, filter, #[trigger] ids[i]@)
    &&& distinct_texts(ids)
    &&& forall|k: Seq<char>| #[trigger]
        is_selected(clients, filter, k) ==> occurs(ids, ids.len() as int, k)
}

/// Whether `ids` lists the joined clients, each once, in some order.
pub open spec fn is_joined_listing(ids: Seq<String>, clients: Map<Seq<char>, Client>) -> bool {
    is_selection(ids, clients, None)
}

/// Whether the ticks name the joined clients, each once, in some order.
pub open spec fn is_tick_listing(ticks: Seq<PlayerTick>, clients: Map<Seq<char>, Client>) -> bool {
    is_joined_listing(tick_names(ticks), clients)
}

/// Whether the distances name the spores of the world, each once, in some
/// order.
pub open spec fn is_distance_listing(
    distances: Seq<SporeDistance>,
    spores: Map<Seq<char>, Spore>,
) -> bool {
    is_key_listing(distance_names(distances), spores.dom())
}

/// The spores that the distances name, each with its distance, in the
/// order of the distances.
pub open spec fn keyed_spores(
    spores: Map<Seq<char>, Spore>,
    distances: Seq<SporeDistance>,
) -> Seq<KeyedSpore> {
    Seq::new(
        distances.len(),
        |i: int| KeyedSpore { distance_sq: distances[i].distance_sq, spore: spores[distances[i].spore_id@] },
    )
}

/// Whether `outbound` sends `packet` to the joined clients, each once.
pub open spec fn is_broadcast(
    outbound: Outbound,
    packet: Packet,
    clients: Map<Seq<char>, Client>,
) -> bool {
    outbound matches Outbound::Broadcast { packet: sent, recipients } && sent == packet
        && is_joined_listing(recipients@, clients)
}

/// The client that `client` is once `player` is its player.
pub open spec fn with_player(client: Client, player: Player) -> Client {
    Client { player: Some(player), ..client }
}

/// Whom `outbound` is for: the one agent it names, and nobody where it is a
/// broadcast.
pub open spec fn addressee(outbound: Outbound) -> Seq<char> {
    match outbound {
        Outbound::Registered { connection_id } => connection_id@,
        Outbound::Deliver { connection_id, .. } => connection_id@,
        Outbound::Broadcast { .. } => Seq::empty(),
    }
}

/// Whether `outbound` puts `command` on the queue of `connection_id`.
pub open spec fn is_delivery(
    outbound: Outbound,
    connection_id: Seq<char>,
    command: Command,
) -> bool {
    outbound matches Outbound::Deliver { connection_id: to, command: sent } && to@ == connection_id
        && sent == command
}

/// Whether one of the first `upto` of `batch` has the id `id`.
pub open spec fn holds_spore(batch: Seq<Spore>, upto: int, id: Seq<char>) -> bool {
    exists|i: int| 0 <= i < upto && #[trigger] batch[i].id@ == id
}

/// Whether `batch` lists the spores of the world, each once, in some order.
pub open spec fn is_spore_listing(batch: Seq<Spore>, spores: Map<Seq<char>, Spore>) -> bool {
    &&& forall|i: int|
        0 <= i < batch.len() ==> spores.contains_key(#[trigger] batch[i].id@) && spores[batch[i].id@]
            == batch[i]
    &&& forall|i: int, j: int|
        0 <= i < j < batch.len() ==> #[trigger] batch[i].id@ != #[trigger] batch[j].id@
    &&& forall|k: Seq<char>| #[trigger]
        spores.contains_key(k) ==> holds_spore(batch, batch.len() as int, k)
}

/// Whether one of `batch` reports the player of `id`.
pub open spec fn reports(batch: Seq<UpdatePlayer>, id: Seq<char>) -> bool {
    exists|i: int| 0 <= i < batch.len() && #[trigger] batch[i].connection_id@ == id
}

/// Whether `batch` reports the joined players, each once and as it is, in
/// some order.
pub open spec fn is_player_listing(
    batch: Seq<UpdatePlayer>,
    clients: Map<Seq<char>, Client>,
) -> bool {
    &&& forall|i: int|
        0 <= i < batch.len() ==> is_joined(clients, #[trigger] batch[i].connection_id@) && batch[i]
            == proto_util::spec_update_player(clients[batch[i].connection_id@].player->0)
    &&& forall|i: int, j: int|
        0 <= i < j < batch.len() ==> #[trigger] batch[i].connection_id@
            != #[trigger] batch[j].connection_id@
    &&& forall|k: Seq<char>| #[trigger] is_joined(clients, k) ==> reports(batch, k)
}

/// Whether `outbound` sends every joined client the state of every joined
/// player.
pub open spec fn is_player_sync(outbound: Outbound, clients: Map<Seq<char>, Client>) -> bool {
    &&& outbound matches Outbound::Broadcast { packet, recipients }
    &&& packet.data matches Some(Data::UpdatePlayerBatch(batch))
    &&& is_player_listing(batch.update_player_batch@, clients)
    &&& is_joined_listing(recipients@, clients)
}

/// The spore that `packet` announces, where it announces one.
pub open spec fn announced_spore(packet: Packet) -> Spore {
    let update = packet.data->0->UpdateSpore_0;
    Spore { id: update.id, x: update.x, y: update.y, radius: update.radius }
}

/// The spores after those that `packets` announce were put in, in order.
pub open spec fn with_announced(
    spores: Map<Seq<char>, Spore>,
    packets: Seq<Packet>,
) -> Map<Seq<char>, Spore>
    decreases packets.len(),
{
    if packets.len() == 0 {
        spores
    } else {
        with_announced(spores, packets.drop_last()).insert(
            announced_spore(packets.last()).id@,
            announced_spore(packets.last()),
        )
    }
}

impl Hub {
    /// The clients, by the text of their connection id.
    pub open spec fn clients(&self) -> Map<Seq<char>, Client> {
        client_entries(self.client_map)
    }

    /// The spores, by the text of their id.
    pub open spec fn spores(&self) -> Map<Seq<char>, Spore> {
        spore_entries(self.spore_map)
    }

    /// Every record sits under its own identifier: a client under its
    /// connection id, its player under the same, a spore under its id.
    pub open spec fn wf(&self) -> bool {
        &&& self.clients().dom().finite()
        &&& self.spores().dom().finite()
        &&& forall|k: Seq<char>| #[trigger]
            self.clients().contains_key(k) ==> filed_under(self.clients()[k], k)
        &&& forall|k: Seq<char>| #[trigger] self.spores().contains_key(k) ==> self.spores()[k].id@ == k
    }

    /// A world without clients or spores.
    pub fn new() -> (hub: Hub)
        ensures
            hub.clients() == Map::<Seq<char>, Client>::empty(),
            hub.spores() == Map::<Seq<char>, Spore>::empty(),
            hub.wf(),
    {
        Hub { client_map: client_table_new(), spore_map: spore_table_new() }
    }

    /// The connection ids of the joined clients that `filter` selects.
    pub fn select_ids(&self, filter: Option<i64>) -> (ids: Vec<String>)
        ensures
            is_selection(ids@, self.clients(), filter),
    {
        let keys = client_table_keys(&self.client_map);
        let mut ids: Vec<String> = Vec::new();
        let mut i: usize = 0;
        while i < keys.len()
            invariant
                i <= keys.len(),
                is_key_listing(keys@, self.clients().dom()),
                forall|a: int| 0 <= a < ids.len() ==> is_selected(self.clients(), filter, #[trigger] ids[a]@),
                forall|a: int| 0 <= a < ids.len() ==> occurs(keys@, i as int, #[trigger] ids[a]@),
                distinct_texts(ids@),
                forall|j: int|
                    0 <= j < i && is_selected(self.clients(), filter, #[trigger] keys[j]@) ==> occurs(
                        ids@,
                        ids.len() as int,
                        keys[j]@,
                    ),
            decreases keys.len() - i,
        {
            let selected = match client_table_get(&self.client_map, keys[i].as_str()) {
                Some(client) => match &client.player {
                    Some(player) => match filter {
                        Some(db_id) => player.db_id == db_id,
                        None => true,
                    },
                    None => false,
                },
                None => false,
            };
            if selected {
                let ghost before = ids@;
                ids.push(keys[i].clone());
                proof {
                    assert forall|j: int|
                        0 <= j < i + 1 && is_selected(self.clients(), filter, #[trigger] keys[j]@) implies occurs(
                        ids@,
                        ids.len() as int,
                        keys[j]@,
                    ) by {
                        if j < i {
                            let a = choose|a: int|
                                0 <= a < before.len() && #[trigger] before[a]@
                                    == keys[j]@;
                            assert(ids[a]@ == keys[j]@);
                        } else {
                            assert(ids[ids.len() - 1]@ == keys[j]@);
                        }
                    }
                    assert forall|a: int| 0 <= a < ids.len() implies occurs(
                        keys@,
                        i + 1,
                        #[trigger] ids[a]@,
                    ) by {
                        if a < before.len() {
                            assert(occurs(keys@, i as int, before[a]@));
                            let j = choose|j: int|
                                0 <= j < i && #[trigger] keys[j]@ == before[a]@;
                            assert(keys[j]@ == ids[a]@);
                        } else {
                            assert(keys[i as int]@ == ids[a]@);
                        }
                    }
                    assert forall|a: int, b: int| 0 <= a < b < ids.len() implies #[trigger] ids[a]@
                        != #[trigger] ids[b]@ by {
                        if b == before.len() {
                            assert(occurs(keys@, i as int, before[a]@));
                            let j = choose|j: int|
                                0 <= j < i && #[trigger] keys[j]@ == before[a]@;
                            assert(keys[j]@ != keys[i as int]@);
                        } else {
                            assert(before[a]@ != before[b]@);
                        }
                    }
                }
            } else {
                proof {
                    assert forall|a: int| 0 <= a < ids.len() implies occurs(
                        keys@,
                        i + 1,
                        #[trigger] ids[a]@,
                    ) by {
                        assert(occurs(keys@, i as int, ids[a]@));
                        let j = choose|j: int|
                            0 <= j < i && #[trigger] keys[j]@ == ids[a]@;
                        assert(keys[j]@ == ids[a]@);
                    }
                }
            }
            i = i + 1;
        }
        proof {
            assert forall|k: Seq<char>| #[trigger] is_selected(self.clients(), filter, k) implies occurs(
                ids@,
                ids.len() as int,
                k,
            ) by {
                assert(self.clients().dom().contains(k));
                let j = choose|j: int| 0 <= j < keys.len() && #[trigger] keys[j]@ == k;
                assert(is_selected(self.clients(), filter, keys[j]@));
            }
        }
        ids
    }

    /// The connection ids of the joined clients.
    pub fn joined_ids(&self) -> (ids: Vec<String>)
        ensures
            is_joined_listing(ids@, self.clients()),
    {
        self.select_ids(None)
    }

    /// Sends `packet` to every joined client.
    pub fn broadcast_packet(&self, packet: Packet) -> (outbound: Outbound)
        ensures
            is_broadcast(outbound, packet, self.clients()),
    {
        Outbound::Broadcast { packet, recipients: self.joined_ids() }
    }

    /// The player of a joined client.
    pub fn player_of(&self, connection_id: &str) -> (player: Option<&Player>)
        ensures
            player == if is_joined(self.clients(), connection_id@) {
                Some(&self.clients()[connection_id@].player->0)
            } else {
                None
            },
    {
        match client_table_get(&self.client_map, connection_id) {
            Some(client) => client.player.as_ref(),
            None => None,
        }
    }

    /// The record of a connection.
    pub fn client_of(&self, connection_id: &str) -> (client: Option<&Client>)
        ensures
            client == if self.clients().contains_key(connection_id@) {
                Some(&self.clients()[connection_id@])
            } else {
                None
            },
    {
        client_table_get(&self.client_map, connection_id)
    }

    /// How many spores the world holds.
    pub fn spore_count(&self) -> (count: usize)
        ensures
            count == self.spores().dom().len(),
    {
        spore_table_len(&self.spore_map)
    }

    /// The spore with the given id.
    pub fn spore_of(&self, spore_id: &str) -> (spore: Option<&Spore>)
        ensures
            spore == if self.spores().contains_key(spore_id@) {
                Some(&self.spores()[spore_id@])
            } else {
                None
            },
    {
        spore_table_get(&self.spore_map, spore_id)
    }

    /// Gives the client `connection_id` the player `player`.
    pub(crate) fn set_player(&mut self, connection_id: &str, player: Player)
        requires
            old(self).wf(),
            old(self).clients().contains_key(connection_id@),
            player.connection_id@ == connection_id@,
        ensures
            final(self).clients() == old(self).clients().insert(
                connection_id@,
                with_player(old(self).clients()[connection_id@], player),
            ),
            final(self).spores() == old(self).spores(),
            final(self).wf(),
    {
        match client_table_remove(&mut self.client_map, connection_id) {
            Some(client) => {
                let changed = Client {
                    socket_addr: client.socket_addr,
                    connection_id: client.connection_id,
                    player: Some(player),
                };
                let _ = client_table_insert(&mut self.client_map, connection_id.to_owned(), changed);
                assert(self.clients() =~= old(self).clients().insert(
                    connection_id@,
                    with_player(old(self).clients()[connection_id@], player),
                ));
            },
            None => {},
        }
    }

    /// Every spore of the world, in the order of the table.
    pub fn spore_snapshot(&self) -> (batch: Vec<Spore>)
        requires
            self.wf(),
        ensures
            is_spore_listing(batch@, self.spores()),
    {
        let keys = spore_table_keys(&self.spore_map);
        let mut batch: Vec<Spore> = Vec::new();
        let mut i: usize = 0;
        while i < keys.len()
            invariant
                i <= keys.len(),
                self.wf(),
                is_key_listing(keys@, self.spores().dom()),
                batch.len() == i,
                forall|a: int| 0 <= a < i ==> #[trigger] batch[a] == self.spores()[keys[a]@],
            decreases keys.len() - i,
        {
            assert(self.spores().dom().contains(keys[i as int]@));
            if let Some(spore) = spore_table_get(&self.spore_map, keys[i].as_str()) {
                batch.push(spore.clone());
            }
            i = i + 1;
        }
        proof {
            assert forall|a: int| 0 <= a < batch.len() implies self.spores().contains_key(
                #[trigger] batch[a].id@,
            ) && self.spores()[batch[a].id@] == batch[a] by {
                assert(self.spores().dom().contains(keys[a]@));
            }
            assert forall|a: int, b: int| 0 <= a < b < batch.len() implies #[trigger] batch[a].id@
                != #[trigger] batch[b].id@ by {
                assert(self.spores().dom().contains(keys[a]@));
                assert(self.spores().dom().contains(keys[b]@));
                assert(keys[a]@ != keys[b]@);
            }
            assert forall|k: Seq<char>| #[trigger] self.spores().contains_key(k) implies holds_spore(
                batch@,
                batch.len() as int,
                k,
            ) by {
                assert(self.spores().dom().contains(k));
                let j = choose|j: int| 0 <= j < keys.len() && #[trigger] keys[j]@ == k;
                assert(batch[j].id@ == k);
            }
        }
        batch
    }

    /// Tells every joined client the state of every joined player.
    pub fn sync_player(&self) -> (outbound: Outbound)
        requires
            self.wf(),
        ensures
            is_player_sync(outbound, self.clients()),
    {
        let ids = self.joined_ids();
        let mut player_list: Vec<&Player> = Vec::new();
        let mut i: usize = 0;
        while i < ids.len()
            invariant
                i <= ids.len(),
                is_joined_listing(ids@, self.clients()),
                player_list.len() == i,
                forall|a: int|
                    0 <= a < i ==> *#[trigger] player_list[a] == self.clients()[ids[a]@].player->0,
            decreases ids.len() - i,
        {
            assert(is_selected(self.clients(), None, ids[i as int]@));
            if let Some(player) = self.player_of(ids[i].as_str()) {
                player_list.push(player);
            }
            i = i + 1;
        }
        let packet = proto_util::update_player_batch_packet(player_list.as_slice());
        proof {
            let batch = packet.data->0->UpdatePlayerBatch_0.update_player_batch@;
            assert forall|a: int| 0 <= a < batch.len() implies #[trigger] batch[a].connection_id@
                == ids[a]@ && is_joined(self.clients(), ids[a]@) by {
                assert(is_selected(self.clients(), None, ids[a]@));
                assert(self.clients().contains_key(ids[a]@));
            }
            assert forall|k: Seq<char>| #[trigger] is_joined(self.clients(), k) implies reports(
                batch,
                k,
            ) by {
                assert(is_selected(self.clients(), None, k));
                let j = choose|j: int| 0 <= j < ids.len() && #[trigger] ids[j]@ == k;
                assert(batch[j].connection_id@ == k);
            }
        }
        Outbound::Broadcast { packet, recipients: ids }
    }

    /// Puts `spore` into the world under its id and returns the packet that
    /// announces it.
    pub(crate) fn place_spore(&mut self, spore: Spore) -> (packet: Packet)
        requires
            old(self).wf(),
        ensures
            final(self).clients() == old(self).clients(),
            final(self).spores() == old(self).spores().insert(spore.id@, spore),
            packet == (Packet { data: Some(Data::UpdateSpore(proto_util::spec_update_spore(spore))) }),
            final(self).wf(),
    {
        let packet = proto_util::update_spore_pack(&spore);
        let _ = spore_table_insert(&mut self.spore_map, spore.id.clone(), spore);
        packet
    }
}

impl Hub {
    /// Every spore of the world, nearest first by the distances given,
    /// which name each spore once.
    pub fn ranked_spores(&self, distances: &Vec<SporeDistance>) -> (batch: Vec<Spore>)
        requires
            self.wf(),
            is_distance_listing(distances@, self.spores()),
        ensures
            batch@ == unkeyed(ranked(keyed_spores(self.spores(), distances@))),
            is_spore_listing(batch@, self.spores()),
    {
        let ghost names = distance_names(distances@);
        let ghost wanted = keyed_spores(self.spores(), distances@);
        let mut keyed: Vec<KeyedSpore> = Vec::new();
        let mut i: usize = 0;
        while i < distances.len()
            invariant
                i <= distances.len(),
                self.wf(),
                names == distance_names(distances@),
                wanted == keyed_spores(self.spores(), distances@),
                is_key_listing(names, self.spores().dom()),
                keyed.len() == i,
                forall|a: int| 0 <= a < i ==> #[trigger] keyed[a] == wanted[a],
            decreases distances.len() - i,
        {
            assert(self.spores().dom().contains(names[i as int]@));
            if let Some(spore) = self.spore_of(distances[i].spore_id.as_str()) {
                keyed.push(KeyedSpore { distance_sq: distances[i].distance_sq, spore: spore.clone() });
            }
            i = i + 1;
        }
        assert(keyed@ =~= wanted);
        let batch = rank_spore_batch(keyed);
        proof {
            let in_order = ranked(wanted);
            lemma_ranked_is_sorted_permutation(wanted);
            lemma_ranked_keeps_members(wanted);
            assert forall|a: int, b: int| 0 <= a < b < wanted.len() implies (
            #[trigger] wanted[a]).spore.id@ != (#[trigger] wanted[b]).spore.id@ by {
                assert(self.spores().dom().contains(names[a]@));
                assert(self.spores().dom().contains(names[b]@));
                assert(names[a]@ != names[b]@);
            }
            assert forall|a: int| 0 <= a < batch.len() implies self.spores().contains_key(
                #[trigger] batch[a].id@,
            ) && self.spores()[batch[a].id@] == batch[a] by {
                assert(holds(in_order, in_order[a]));
                let j = choose|j: int| 0 <= j < wanted.len() && #[trigger] wanted[j] == in_order[a];
                assert(self.spores().dom().contains(names[j]@));
            }
            assert forall|a: int, b: int| 0 <= a < b < batch.len() implies #[trigger] batch[a].id@
                != #[trigger] batch[b].id@ by {
                assert(in_order[a].spore.id@ != in_order[b].spore.id@);
            }
            assert forall|k: Seq<char>| #[trigger] self.spores().contains_key(k) implies holds_spore(
                batch@,
                batch.len() as int,
                k,
            ) by {
                assert(self.spores().dom().contains(k));
                let j = choose|j: int| 0 <= j < names.len() && #[trigger] names[j]@ == k;
                assert(holds(wanted, wanted[j]));
                assert(holds(in_order, wanted[j]));
                let a = choose|a: int| 0 <= a < in_order.len() && #[trigger] in_order[a] == wanted[j];
                assert(batch[a].id@ == k);
            }
        }
        batch
    }
}

} // verus!
