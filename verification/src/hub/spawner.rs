//! The spawner: new spores for a world that has room, and the first fill.

use crate::hub::{announced_spore, is_broadcast, with_announced, Hub, Outbound, MAX_SPORE_COUNT};
use crate::ids::{fresh_id, is_id_text};
use crate::proto::{Data, Packet};
use crate::proto_util;
use crate::scalar::Scalar;
use crate::spore::{Spore, MIN_SPORE_RADIUS, SPORE_BOUND};
use crate::table::spore_table_len;
use crate::util::SporeDraw;
use vstd::prelude::*;

verus! {

/// A new spore under `spore_id`, made from `draw`, that every joined client
/// is told of. A spore that had the id before is replaced.
pub open spec fn spore_spawned(
    pre: Hub,
    draw: SporeDraw,
    spore_id: String,
    post: Hub,
    out: Seq<Outbound>,
) -> bool {
    let spore = Spore {
        id: spore_id,
        x: draw.x,
        y: draw.y,
        radius: draw.radius.spec_floor_at(Scalar { bits: MIN_SPORE_RADIUS }),
    };
    &&& post.clients() == pre.clients()
    &&& post.spores() == pre.spores().insert(spore_id@, spore)
    &&& out.len() == 1
    &&& is_broadcast(
        out[0],
        Packet { data: Some(Data::UpdateSpore(proto_util::spec_update_spore(spore))) },
        pre.clients(),
    )
}

/// The spawner's turn: a spore is spawned where the world holds fewer than
/// the maximum, and nothing happens where it does not.
pub open spec fn spawn_turn_taken(
    pre: Hub,
    draw: SporeDraw,
    spore_id: String,
    post: Hub,
    out: Seq<Outbound>,
) -> bool {
    if pre.spores().dom().len() < MAX_SPORE_COUNT {
        spore_spawned(pre, draw, spore_id, post, out)
    } else {
        &&& post.clients() == pre.clients()
        &&& post.spores() == pre.spores()
        &&& out.len() == 0
    }
}

/// Whether `packet` announces a spore with a generated id, made from
/// `draw`.
pub open spec fn announces_spawn(packet: Packet, draw: SporeDraw) -> bool {
    &&& packet.data matches Some(Data::UpdateSpore(update))
    &&& is_id_text(update.id@)
    &&& update.x == draw.x
    &&& update.y == draw.y
    &&& update.radius == draw.radius.spec_floor_at(Scalar { bits: MIN_SPORE_RADIUS })
}

/// Whether the draws are in order for a prefill: as many as the world may
/// hold, each at a place in the arena.
pub open spec fn draws_admitted(draws: Seq<SporeDraw>) -> bool {
    &&& draws.len() == MAX_SPORE_COUNT
    &&& forall|i: int| 0 <= i < draws.len() ==> (#[trigger] draws[i]).spec_within(SPORE_BOUND)
}

/// The packets of the first `count` broadcasts of `out`.
pub open spec fn spawn_announcements(out: Seq<Outbound>, count: nat) -> Seq<Packet> {
    Seq::new(count, |i: int| out[i]->packet)
}

/// A prefill: one spore is spawned for each draw, each under a generated
/// id, and announced to the joined clients.
pub open spec fn prefilled(pre: Hub, draws: Seq<SporeDraw>, post: Hub, out: Seq<Outbound>) -> bool {
    &&& post.clients() == pre.clients()
    &&& out.len() == draws.len()
    &&& forall|i: int|
        0 <= i < out.len() ==> is_broadcast(#[trigger] out[i], out[i]->packet, pre.clients())
            && announces_spawn(out[i]->packet, draws[i])
    &&& post.spores() == with_announced(pre.spores(), spawn_announcements(out, out.len()))
}

/// Says whether the draws are in order for a prefill.
pub fn check_draws(draws: &Vec<SporeDraw>) -> (ok: bool)
    ensures
        ok == draws_admitted(draws@),
{
    if draws.len() != MAX_SPORE_COUNT {
        return false;
    }
    let mut i: usize = 0;
    while i < draws.len()
        invariant
            i <= draws.len(),
            forall|a: int| 0 <= a < i ==> (#[trigger] draws[a]).spec_within(SPORE_BOUND),
        decreases draws.len() - i,
    {
        if !draws[i].within(SPORE_BOUND) {
            return false;
        }
        i = i + 1;
    }
    true
}

impl Hub {
    /// Spawns a spore from `draw`, whose place lies in the arena, under the
    /// id given.
    pub fn spawn_spore_as(&mut self, draw: SporeDraw, spore_id: String) -> (out: Vec<Outbound>)
        requires
            old(self).wf(),
            draw.spec_within(SPORE_BOUND),
        ensures
            spore_spawned(*old(self), draw, spore_id, *final(self), out@),
            final(self).wf(),
    {
        let spore = Spore::random(spore_id, draw.x, draw.y, draw.radius);
        let packet = self.place_spore(spore);
        let mut out: Vec<Outbound> = Vec::new();
        out.push(self.broadcast_packet(packet));
        out
    }

    /// Spawns a spore from `draw` under a new random id.
    pub fn spawn_spore(&mut self, draw: SporeDraw) -> (out: Vec<Outbound>)
        requires
            old(self).wf(),
            draw.spec_within(SPORE_BOUND),
        ensures
            exists|spore_id: String|
                is_id_text(spore_id@) && #[trigger] spore_spawned(
                    *old(self),
                    draw,
                    spore_id,
                    *final(self),
                    out@,
                ),
            final(self).wf(),
    {
        let spore_id = fresh_id();
        self.spawn_spore_as(draw, spore_id)
    }

    /// The spawner's turn, with the id for a spore that may be spawned.
    pub fn take_spawn_turn_as(&mut self, draw: SporeDraw, spore_id: String) -> (out: Vec<Outbound>)
        requires
            old(self).wf(),
            draw.spec_within(SPORE_BOUND),
        ensures
            spawn_turn_taken(*old(self), draw, spore_id, *final(self), out@),
            final(self).wf(),
            old(self).spores().dom().len() <= MAX_SPORE_COUNT ==> final(self).spores().dom().len()
                <= MAX_SPORE_COUNT,
    {
        if spore_table_len(&self.spore_map) < MAX_SPORE_COUNT {
            self.spawn_spore_as(draw, spore_id)
        } else {
            Vec::new()
        }
    }

    /// The spawner's turn: spawns a spore from `draw` under a new random id
    /// unless the world is full.
    pub fn take_spawn_turn(&mut self, draw: SporeDraw) -> (out: Vec<Outbound>)
        requires
            old(self).wf(),
            draw.spec_within(SPORE_BOUND),
        ensures
            exists|spore_id: String|
                is_id_text(spore_id@) && #[trigger] spawn_turn_taken(
                    *old(self),
                    draw,
                    spore_id,
                    *final(self),
                    out@,
                ),
            final(self).wf(),
            old(self).spores().dom().len() <= MAX_SPORE_COUNT ==> final(self).spores().dom().len()
                <= MAX_SPORE_COUNT,
    {
        let spore_id = fresh_id();
        self.take_spawn_turn_as(draw, spore_id)
    }

    /// Fills a world with spores: one for each draw, each under a new
    /// random id. There are as many draws as the world may hold.
    pub fn prefill(&mut self, draws: &Vec<SporeDraw>) -> (out: Vec<Outbound>)
        requires
            old(self).wf(),
            draws_admitted(draws@),
        ensures
            prefilled(*old(self), draws@, *final(self), out@),
            out@.len() == MAX_SPORE_COUNT,
            final(self).wf(),
    {
        let mut out: Vec<Outbound> = Vec::new();
        let mut i: usize = 0;
        while i < draws.len()
            invariant
                i <= draws.len(),
                draws_admitted(draws@),
                self.wf(),
                self.clients() == old(self).clients(),
                out.len() == i,
                forall|a: int|
                    0 <= a < i ==> is_broadcast(#[trigger] out[a], out[a]->packet, self.clients())
                        && announces_spawn(out[a]->packet, draws[a]),
                self.spores() == with_announced(old(self).spores(), spawn_announcements(out@, i as nat)),
            decreases draws.len() - i,
        {
            let ghost before = out@;
            let draw = draws[i];
            let spore = Spore::random(fresh_id(), draw.x, draw.y, draw.radius);
            let packet = self.place_spore(spore);
            out.push(self.broadcast_packet(packet));
            proof {
                assert(spawn_announcements(out@, (i + 1) as nat).drop_last() =~= spawn_announcements(
                    before,
                    i as nat,
                ));
                assert(announced_spore(packet) == spore);
            }
            i = i + 1;
        }
        out
    }
}

} // verus!
