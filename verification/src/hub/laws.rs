//! What holds of the world whatever the hub is asked to do.

use crate::command::Command;
use crate::hub::commands::{
    eats_spore, handled, is_snapshot, joined, registered, spore_consumed,
};
use crate::hub::spawner::{draws_admitted, prefilled, spawn_announcements, spawn_turn_taken};
use crate::hub::tick::{
    all_ticked, announcements, last_sheds, names, names_distinct, shedding, sheds, ticked,
    ticked_player,
};
use crate::hub::{
    addressee, is_delivery, is_joined, is_selected, is_tick_listing, keyed_spores, with_announced,
    with_player, Client, Hub, Outbound, MAX_SPORE_COUNT,
};
use crate::ranking::{lemma_ranked_is_sorted_permutation, ranked};
use crate::proto::{Data, Packet};
use crate::spore::Spore;
use crate::util::{tick_names, PlayerTick, Position, Readings, SporeDistance, SporeDraw};
use vstd::prelude::*;

verus! {

/// Whether no two joined clients play the same account.
pub open spec fn accounts_distinct(clients: Map<Seq<char>, Client>) -> bool {
    forall|a: Seq<char>, b: Seq<char>|
        #![trigger is_joined(clients, a), is_joined(clients, b)]
        is_joined(clients, a) && is_joined(clients, b) && a != b ==> clients[a].player->0.db_id
            != clients[b].player->0.db_id
}

/// Whether `outbound` tells anyone of a spore with the id `spore_id`.
pub open spec fn announces_spore(outbound: Outbound, spore_id: Seq<char>) -> bool {
    outbound matches Outbound::Broadcast { packet, .. } && (packet.data matches Some(
        Data::UpdateSpore(update),
    ) && update.id@ == spore_id)
}

/// Putting announced spores into the world removes none, and adds one at
/// most for each announcement.
pub proof fn lemma_with_announced_bound(spores: Map<Seq<char>, Spore>, packets: Seq<Packet>)
    requires
        spores.dom().finite(),
    ensures
        with_announced(spores, packets).dom().finite(),
        with_announced(spores, packets).dom().len() <= spores.dom().len() + packets.len(),
        forall|k: Seq<char>| spores.contains_key(k) ==> with_announced(spores, packets).contains_key(k),
    decreases packets.len(),
{
    if packets.len() > 0 {
        lemma_with_announced_bound(spores, packets.drop_last());
    }
}

/// The spawner never takes a world over the maximum: where the world holds
/// no more spores than the maximum before its turn, it holds no more after.
pub proof fn lemma_spawn_turn_keeps_bound(
    pre: Hub,
    draw: SporeDraw,
    spore_id: String,
    post: Hub,
    out: Seq<Outbound>,
)
    requires
        pre.wf(),
        spawn_turn_taken(pre, draw, spore_id, post, out),
        pre.spores().dom().len() <= MAX_SPORE_COUNT,
    ensures
        post.spores().dom().len() <= MAX_SPORE_COUNT,
{
}

/// A prefill of an empty world leaves no more spores than the maximum.
pub proof fn lemma_prefill_keeps_bound(pre: Hub, draws: Seq<SporeDraw>, post: Hub, out: Seq<Outbound>)
    requires
        pre.wf(),
        draws_admitted(draws),
        prefilled(pre, draws, post, out),
    ensures
        post.spores().dom().len() <= pre.spores().dom().len() + MAX_SPORE_COUNT,
        pre.spores().dom().len() == 0 ==> post.spores().dom().len() <= MAX_SPORE_COUNT,
{
    lemma_with_announced_bound(pre.spores(), spawn_announcements(out, out.len()));
}

/// No command but a rush adds a spore to the world, and a rush adds one at
/// most.
pub proof fn lemma_command_spore_count(
    pre: Hub,
    command: Command,
    readings: Readings,
    fresh: String,
    post: Hub,
    out: Seq<Outbound>,
)
    requires
        pre.wf(),
        handled(pre, command, readings, fresh, post, out),
    ensures
        command !is Rush ==> post.spores().dom().len() <= pre.spores().dom().len(),
        post.spores().dom().len() <= pre.spores().dom().len() + 1,
{
}

/// A tick adds one spore at most for each player that sheds one, and
/// removes none.
pub proof fn lemma_tick_spore_count(
    pre: Hub,
    ticks: Seq<PlayerTick>,
    now: u64,
    post: Hub,
    out: Seq<Outbound>,
)
    requires
        pre.wf(),
        ticked(pre, ticks, now, post, out),
    ensures
        post.spores().dom().len() <= pre.spores().dom().len() + shedding(
            pre.clients(),
            ticks,
            now,
        ).len(),
        forall|k: Seq<char>| pre.spores().contains_key(k) ==> post.spores().contains_key(k),
{
    lemma_with_announced_bound(pre.spores(), announcements(out));
}

/// Connection ids are unique: two clients of the table never carry the
/// same id, nor do the players of two joined clients.
pub proof fn lemma_connection_ids_unique(hub: Hub, a: Seq<char>, b: Seq<char>)
    requires
        hub.wf(),
        hub.clients().contains_key(a),
        hub.clients().contains_key(b),
        a != b,
    ensures
        hub.clients()[a].connection_id@ != hub.clients()[b].connection_id@,
        is_joined(hub.clients(), a) && is_joined(hub.clients(), b) ==> hub.clients()[a].player->0.connection_id@
            != hub.clients()[b].player->0.connection_id@,
{
}

/// Once a bid to eat a spore is accepted the spore is gone from the world,
/// and nothing that the hub sends for the bid tells anyone of that spore.
pub proof fn lemma_consumed_spore_is_gone(
    pre: Hub,
    connection_id: String,
    spore_id: String,
    readings: Readings,
    post: Hub,
    out: Seq<Outbound>,
)
    requires
        spore_consumed(pre, connection_id, spore_id, readings, post, out),
        eats_spore(pre, connection_id@, spore_id@, readings),
    ensures
        !post.spores().contains_key(spore_id@),
        forall|i: int| 0 <= i < out.len() ==> !announces_spore(#[trigger] out[i], spore_id@),
{
}

/// A join asks one client at most to disconnect, where no two joined
/// clients play the same account.
pub proof fn lemma_join_evicts_at_most_one(
    pre: Hub,
    connection_id: String,
    player_db_id: i64,
    nickname: String,
    color: i64,
    position: Position,
    distances: Seq<SporeDistance>,
    post: Hub,
    out: Seq<Outbound>,
)
    requires
        joined(pre, connection_id, player_db_id, nickname, color, position, distances, post, out),
        accounts_distinct(pre.clients()),
    ensures
        forall|i: int, j: int|
            0 <= i < out.len() && 0 <= j < out.len() && is_delivery(
                #[trigger] out[i],
                addressee(out[i]),
                Command::DisconnectClient,
            ) && is_delivery(#[trigger] out[j], addressee(out[j]), Command::DisconnectClient) ==> i
                == j,
{
    let known = pre.clients().contains_key(connection_id@);
    let evictions = if known {
        out.len() - 1
    } else {
        out.len() as int
    };
    assert forall|i: int, j: int|
        0 <= i < out.len() && 0 <= j < out.len() && is_delivery(
            #[trigger] out[i],
            addressee(out[i]),
            Command::DisconnectClient,
        ) && is_delivery(#[trigger] out[j], addressee(out[j]), Command::DisconnectClient) implies i
        == j by {
        if i != j {
            assert(i < evictions && j < evictions);
            assert(is_selected(pre.clients(), Some(player_db_id), addressee(out[i])));
            assert(is_selected(pre.clients(), Some(player_db_id), addressee(out[j])));
            assert(is_joined(pre.clients(), addressee(out[i])));
            assert(is_joined(pre.clients(), addressee(out[j])));
            if i < j {
                assert(addressee(out[i]) != addressee(out[j]));
            } else {
                assert(addressee(out[j]) != addressee(out[i]));
            }
        }
    }
}

/// Where no two ticks name the same client, each tick sees its player as it
/// was before the first: a joined client that is named has its player
/// ticked once, every other client is as it was, and a tick sheds a spore
/// as the player before the ticks decides.
pub proof fn lemma_ticks_apply_once(
    clients: Map<Seq<char>, Client>,
    ticks: Seq<PlayerTick>,
    now: u64,
)
    requires
        names_distinct(ticks),
    ensures
        all_ticked(clients, ticks, now).dom() == clients.dom(),
        forall|k: Seq<char>|
            !names(ticks, k) || !is_joined(clients, k) ==> #[trigger] all_ticked(clients, ticks, now)[k]
                == clients[k],
        forall|i: int|
            0 <= i < ticks.len() && is_joined(clients, (#[trigger] ticks[i]).connection_id@)
                ==> all_ticked(clients, ticks, now)[ticks[i].connection_id@] == with_player(
                clients[ticks[i].connection_id@],
                ticked_player(clients[ticks[i].connection_id@].player->0, ticks[i], now),
            ),
        ticks.len() > 0 ==> last_sheds(clients, ticks, now) == (is_joined(
            clients,
            ticks.last().connection_id@,
        ) && sheds(clients[ticks.last().connection_id@].player->0, ticks.last())),
    decreases ticks.len(),
{
    if ticks.len() > 0 {
        let before = ticks.drop_last();
        let last = ticks.last();
        let id = last.connection_id@;
        assert forall|i: int, j: int| 0 <= i < j < before.len() implies (
        #[trigger] before[i]).connection_id@ != (#[trigger] before[j]).connection_id@ by {
            assert(ticks[i].connection_id@ != ticks[j].connection_id@);
        }
        lemma_ticks_apply_once(clients, before, now);
        let at = all_ticked(clients, before, now);
        assert(!names(before, id)) by {
            if names(before, id) {
                let i = choose|i: int| 0 <= i < before.len() && (#[trigger] before[i]).connection_id@ == id;
                assert(ticks[i].connection_id@ != ticks[ticks.len() - 1].connection_id@);
            }
        }
        assert(at[id] == clients[id]);
        assert(at.dom().contains(id) == clients.dom().contains(id));
        assert(is_joined(at, id) == is_joined(clients, id));
        let after = all_ticked(clients, ticks, now);
        assert(after.dom() =~= clients.dom());
        assert forall|k: Seq<char>| !names(ticks, k) || !is_joined(clients, k) implies #[trigger] after[k]
            == clients[k] by {
            if k == id {
                assert(!is_joined(clients, k)) by {
                    if !names(ticks, k) {
                        assert(ticks[ticks.len() - 1].connection_id@ == k);
                    }
                }
            } else {
                if names(before, k) {
                    let i = choose|i: int| 0 <= i < before.len() && (#[trigger] before[i]).connection_id@ == k;
                    assert(ticks[i].connection_id@ == k);
                }
                assert(at[k] == clients[k]);
            }
        }
        assert forall|i: int|
            0 <= i < ticks.len() && is_joined(clients, (#[trigger] ticks[i]).connection_id@) implies after[ticks[i].connection_id@]
            == with_player(
            clients[ticks[i].connection_id@],
            ticked_player(clients[ticks[i].connection_id@].player->0, ticks[i], now),
        ) by {
            if i < before.len() {
                assert(ticks[i].connection_id@ != ticks[ticks.len() - 1].connection_id@);
                assert(before[i] == ticks[i]);
                assert(is_joined(clients, before[i].connection_id@));
            }
        }
    }
}

/// A spore is never changed in place: after a command every spore that
/// was in the world before is as it was, is gone, or was replaced by the
/// spore that a rush left behind under the same id.
pub proof fn lemma_spores_are_never_changed(
    pre: Hub,
    command: Command,
    readings: Readings,
    fresh: String,
    post: Hub,
    out: Seq<Outbound>,
    id: Seq<char>,
)
    requires
        handled(pre, command, readings, fresh, post, out),
        pre.spores().contains_key(id),
        post.spores().contains_key(id),
    ensures
        post.spores()[id] == pre.spores()[id] || (command is Rush && id == fresh@),
{
}

/// Where the ticks name every joined client once, every player is ticked
/// once, by the tick that names its client and from what it was before the
/// ticks; and a client without a player is as it was.
pub proof fn lemma_every_player_is_ticked_once(
    clients: Map<Seq<char>, Client>,
    ticks: Seq<PlayerTick>,
    now: u64,
    id: Seq<char>,
)
    requires
        is_tick_listing(ticks, clients),
        clients.contains_key(id),
    ensures
        all_ticked(clients, ticks, now).dom() == clients.dom(),
        !is_joined(clients, id) ==> all_ticked(clients, ticks, now)[id] == clients[id],
        is_joined(clients, id) ==> exists|i: int|
            0 <= i < ticks.len() && (#[trigger] ticks[i]).connection_id@ == id && all_ticked(
                clients,
                ticks,
                now,
            )[id] == with_player(clients[id], ticked_player(clients[id].player->0, ticks[i], now)),
{
    let listed = tick_names(ticks);
    assert forall|i: int, j: int| 0 <= i < j < ticks.len() implies (
    #[trigger] ticks[i]).connection_id@ != (#[trigger] ticks[j]).connection_id@ by {
        assert(listed[i]@ != listed[j]@);
    }
    lemma_ticks_apply_once(clients, ticks, now);
    if is_joined(clients, id) {
        assert(is_selected(clients, None, id));
        let i = choose|i: int| 0 <= i < listed.len() && #[trigger] listed[i]@ == id;
        assert(ticks[i].connection_id@ == id);
    }
}

/// What a joining client is handed is nearest first: no spore of its batch
/// is nearer than one that stands before it, by the distances given. A
/// distance that is no number sorts behind all that are.
pub proof fn lemma_snapshot_is_nearest_first(
    outbound: Outbound,
    connection_id: String,
    spores: Map<Seq<char>, Spore>,
    distances: Seq<SporeDistance>,
    i: int,
    j: int,
)
    requires
        is_snapshot(outbound, connection_id, spores, distances),
        0 <= i <= j < distances.len(),
    ensures
        outbound->command->spore_batch@.len() == distances.len(),
        outbound->command->spore_batch@[i] == ranked(keyed_spores(spores, distances))[i].spore,
        outbound->command->spore_batch@[j] == ranked(keyed_spores(spores, distances))[j].spore,
        ranked(keyed_spores(spores, distances))[i].distance_sq.spec_sorts_le(
            ranked(keyed_spores(spores, distances))[j].distance_sq,
        ),
        !ranked(keyed_spores(spores, distances))[i].distance_sq.is_nan() && !ranked(
            keyed_spores(spores, distances),
        )[j].distance_sq.is_nan() ==> ranked(keyed_spores(spores, distances))[i].distance_sq.spec_le(
            ranked(keyed_spores(spores, distances))[j].distance_sq,
        ),
{
    let keyed = keyed_spores(spores, distances);
    lemma_ranked_is_sorted_permutation(keyed);
    if i < j {
        assert(ranked(keyed)[i].distance_sq.spec_sorts_le(ranked(keyed)[j].distance_sq));
    }
}

/// A registration under an id that no client has adds one client and
/// leaves every other as it was.
pub proof fn lemma_registration_adds_one_client(
    pre: Hub,
    socket_addr: String,
    connection_id: String,
    post: Hub,
    out: Seq<Outbound>,
)
    requires
        pre.wf(),
        registered(pre, socket_addr, connection_id, post, out),
        !pre.clients().contains_key(connection_id@),
    ensures
        post.clients().dom() == pre.clients().dom().insert(connection_id@),
        post.clients().dom().len() == pre.clients().dom().len() + 1,
        post.clients()[connection_id@].player is None,
        forall|k: Seq<char>| pre.clients().contains_key(k) ==> post.clients()[k] == pre.clients()[k],
        post.spores() == pre.spores(),
        forall|i: int| 0 <= i < out.len() ==> !(#[trigger] out[i] is Broadcast),
{
}

/// A spawner's turn under an id that no spore has adds exactly one spore
/// to a world with room, and none to a full one.
pub proof fn lemma_spawn_turn_adds_one_spore(
    pre: Hub,
    draw: SporeDraw,
    spore_id: String,
    post: Hub,
    out: Seq<Outbound>,
)
    requires
        pre.wf(),
        spawn_turn_taken(pre, draw, spore_id, post, out),
        !pre.spores().contains_key(spore_id@),
    ensures
        pre.spores().dom().len() < MAX_SPORE_COUNT ==> post.spores().dom().len()
            == pre.spores().dom().len() + 1 && out.len() == 1,
        pre.spores().dom().len() >= MAX_SPORE_COUNT ==> post.spores() == pre.spores() && out.len()
            == 0,
        post.clients() == pre.clients(),
{
}

} // verus!
