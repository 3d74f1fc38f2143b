//! The tick: players move, rushes end, spores are shed, and every joined
//! client is told.

use crate::hub::{
    announced_spore, is_broadcast, is_joined, is_player_sync, is_tick_listing, with_announced,
    with_player, Client, Hub, Outbound,
};
use crate::ids::{fresh_id, is_id_text};
use crate::player::Player;
use crate::proto::{Data, Packet};
use crate::spore::Spore;
use crate::util::PlayerTick;
use vstd::prelude::*;

verus! {

/// Whether a player sheds a spore in a tick: its chance is below the
/// probability, and the loss of mass is not refused.
pub open spec fn sheds(player: Player, tick: PlayerTick) -> bool {
    tick.chance.spec_lt(tick.probability) && !player.refuses_decrease(tick.drop.remaining_mass)
}

/// The player after a tick: moved, a rush that is over ended, and shrunk
/// where it sheds a spore.
pub open spec fn ticked_player(player: Player, tick: PlayerTick, now: u64) -> Player {
    let moved = player.spec_tick(tick.position.x, tick.position.y, now);
    if sheds(player, tick) {
        Player { radius: tick.drop.shrunk_radius, ..moved }
    } else {
        moved
    }
}

/// The clients after one player's tick. A tick for a client that is unknown
/// or has no player changes nothing.
pub open spec fn ticked_clients(
    clients: Map<Seq<char>, Client>,
    tick: PlayerTick,
    now: u64,
) -> Map<Seq<char>, Client> {
    if is_joined(clients, tick.connection_id@) {
        clients.insert(
            tick.connection_id@,
            with_player(
                clients[tick.connection_id@],
                ticked_player(clients[tick.connection_id@].player->0, tick, now),
            ),
        )
    } else {
        clients
    }
}

/// The clients after the ticks of `ticks`, applied in order.
pub open spec fn all_ticked(
    clients: Map<Seq<char>, Client>,
    ticks: Seq<PlayerTick>,
    now: u64,
) -> Map<Seq<char>, Client>
    decreases ticks.len(),
{
    if ticks.len() == 0 {
        clients
    } else {
        ticked_clients(all_ticked(clients, ticks.drop_last(), now), ticks.last(), now)
    }
}

/// Whether the last of `ticks` sheds a spore, the ticks before it applied.
pub open spec fn last_sheds(
    clients: Map<Seq<char>, Client>,
    ticks: Seq<PlayerTick>,
    now: u64,
) -> bool {
    let at = all_ticked(clients, ticks.drop_last(), now);
    is_joined(at, ticks.last().connection_id@) && sheds(
        at[ticks.last().connection_id@].player->0,
        ticks.last(),
    )
}

/// Those of `ticks` that shed a spore, in order.
pub open spec fn shedding(
    clients: Map<Seq<char>, Client>,
    ticks: Seq<PlayerTick>,
    now: u64,
) -> Seq<PlayerTick>
    decreases ticks.len(),
{
    if ticks.len() == 0 {
        Seq::empty()
    } else if last_sheds(clients, ticks, now) {
        shedding(clients, ticks.drop_last(), now).push(ticks.last())
    } else {
        shedding(clients, ticks.drop_last(), now)
    }
}

/// Whether `packet` announces a spore with a generated id where the player
/// of `tick` stands after the tick, of the radius that its drop gives.
pub open spec fn announces_shed(packet: Packet, tick: PlayerTick) -> bool {
    &&& packet.data matches Some(Data::UpdateSpore(update))
    &&& is_id_text(update.id@)
    &&& update.x == tick.position.x
    &&& update.y == tick.position.y
    &&& update.radius == tick.drop.spore_radius
}

/// The packets of the broadcasts that follow the first of `out`.
pub open spec fn announcements(out: Seq<Outbound>) -> Seq<Packet> {
    Seq::new((out.len() - 1) as nat, |i: int| out[i + 1]->packet)
}

/// A tick: the listed players are ticked in order, each shed spore goes
/// into the world under a generated id, then every joined client is sent
/// the state of every joined player, and after that each new spore.
pub open spec fn ticked(
    pre: Hub,
    ticks: Seq<PlayerTick>,
    now: u64,
    post: Hub,
    out: Seq<Outbound>,
) -> bool {
    let shed = shedding(pre.clients(), ticks, now);
    &&& post.clients() == all_ticked(pre.clients(), ticks, now)
    &&& out.len() == 1 + shed.len()
    &&& is_player_sync(out[0], post.clients())
    &&& forall|i: int|
        0 <= i < shed.len() ==> is_broadcast(#[trigger] out[i + 1], out[i + 1]->packet, post.clients())
            && announces_shed(out[i + 1]->packet, shed[i])
    &&& post.spores() == with_announced(pre.spores(), announcements(out))
}

/// Whether no two of `ticks` name the same client.
pub open spec fn names_distinct(ticks: Seq<PlayerTick>) -> bool {
    forall|i: int, j: int|
        0 <= i < j < ticks.len() ==> (#[trigger] ticks[i]).connection_id@
            != (#[trigger] ticks[j]).connection_id@
}

/// Whether one of `ticks` names the client `id`.
pub open spec fn names(ticks: Seq<PlayerTick>, id: Seq<char>) -> bool {
    exists|i: int| 0 <= i < ticks.len() && (#[trigger] ticks[i]).connection_id@ == id
}

impl Hub {
    /// Ticks the player that `tick` names and says whether it sheds a spore.
    fn advance_player(&mut self, tick: &PlayerTick, now: u64) -> (shed: bool)
        requires
            old(self).wf(),
        ensures
            final(self).clients() == ticked_clients(old(self).clients(), *tick, now),
            final(self).spores() == old(self).spores(),
            shed == (is_joined(old(self).clients(), tick.connection_id@) && sheds(
                old(self).clients()[tick.connection_id@].player->0,
                *tick,
            )),
            final(self).wf(),
    {
        let mut player = match self.player_of(tick.connection_id.as_str()) {
            Some(player) => player.clone(),
            None => {
                return false;
            },
        };
        player.tick(tick.position.x, tick.position.y, now);
        let mut shed = false;
        if tick.chance.lt(tick.probability) {
            if player.try_drop_mass(tick.drop).is_some() {
                shed = true;
            }
        }
        self.set_player(tick.connection_id.as_str(), player);
        shed
    }

    /// Advances the world by one tick at time `now`. The ticks name every
    /// joined client once, so every player is moved once.
    pub fn tick_player(&mut self, ticks: &Vec<PlayerTick>, now: u64) -> (out: Vec<Outbound>)
        requires
            old(self).wf(),
            is_tick_listing(ticks@, old(self).clients()),
        ensures
            ticked(*old(self), ticks@, now, *final(self), out@),
            final(self).wf(),
    {
        let mut spore_packet_list: Vec<Packet> = Vec::new();
        let mut i: usize = 0;
        while i < ticks.len()
            invariant
                i <= ticks.len(),
                self.wf(),
                self.clients() == all_ticked(old(self).clients(), ticks@.take(i as int), now),
                spore_packet_list.len() == shedding(old(self).clients(), ticks@.take(i as int), now).len(),
                forall|a: int|
                    0 <= a < spore_packet_list.len() ==> announces_shed(
                        #[trigger] spore_packet_list[a],
                        shedding(old(self).clients(), ticks@.take(i as int), now)[a],
                    ),
                self.spores() == with_announced(old(self).spores(), spore_packet_list@),
            decreases ticks.len() - i,
        {
            proof {
                assert(ticks@.take(i + 1).drop_last() =~= ticks@.take(i as int));
                assert(ticks@.take(i + 1).last() == ticks@[i as int]);
            }
            let ghost before = spore_packet_list@;
            let tick = &ticks[i];
            if self.advance_player(tick, now) {
                let spore = Spore {
                    id: fresh_id(),
                    x: tick.position.x,
                    y: tick.position.y,
                    radius: tick.drop.spore_radius,
                };
                let packet = self.place_spore(spore);
                spore_packet_list.push(packet);
                proof {
                    assert(spore_packet_list@.drop_last() =~= before);
                    assert(announced_spore(packet) == spore);
                }
            }
            i = i + 1;
        }
        proof {
            assert(ticks@.take(ticks.len() as int) =~= ticks@);
        }
        let mut out: Vec<Outbound> = Vec::new();
        out.push(self.sync_player());
        let ghost packets = spore_packet_list@;
        for packet in iter: spore_packet_list
            invariant
                iter.seq() == packets,
                out.len() == 1 + iter.index(),
                is_player_sync(out[0], self.clients()),
                forall|a: int|
                    0 <= a < iter.index() ==> is_broadcast(#[trigger] out[a + 1], packets[a], self.clients()),
        {
            out.push(self.broadcast_packet(packet));
        }
        proof {
            assert(announcements(out@) =~= packets);
        }
        out
    }
}

} // verus!
