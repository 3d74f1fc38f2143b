//! The hub's loop as one step: a timer has fired or a command has arrived.

use crate::command::Command;
use crate::hub::commands::{handled, needs_id, readings_admitted};
use crate::hub::spawner::spawn_turn_taken;
use crate::hub::tick::ticked;
use crate::hub::{is_tick_listing, Hub, Outbound};
use crate::player::PLAYER_BOUND;
use crate::spore::SPORE_BOUND;
use crate::ids::is_id_text;
use crate::util::{PlayerTick, Readings, SporeDraw};
use vstd::prelude::*;

verus! {

/// Something that happens to the hub while it runs.
#[derive(Debug, PartialEq, Eq)]
pub enum HubEvent {
    /// The tick timer has fired at `now`: one entry of `ticks` for each
    /// player to move.
    Tick { ticks: Vec<PlayerTick>, now: u64 },
    /// The spawn timer has fired, and this was drawn for a new spore.
    Spawn { draw: SporeDraw },
    /// A command has arrived, and this was read off the world for it.
    Command { command: Command, readings: Readings },
}

/// Whether an event is in order: the ticks name every joined client once,
/// the place drawn for a spore lies in the arena, and the readings of a
/// command are in order for it.
pub open spec fn event_admitted(pre: Hub, event: HubEvent) -> bool {
    match event {
        HubEvent::Tick { ticks, .. } => is_tick_listing(ticks@, pre.clients()),
        HubEvent::Spawn { draw } => draw.spec_within(SPORE_BOUND),
        HubEvent::Command { command, readings } => readings_admitted(pre, command, readings),
    }
}

/// Whether the hub generates an id for the event.
pub open spec fn event_needs_id(event: HubEvent) -> bool {
    match event {
        HubEvent::Tick { .. } => false,
        HubEvent::Spawn { .. } => true,
        HubEvent::Command { command, .. } => needs_id(command),
    }
}

/// What the hub does about an event, given a generated id for what a spawn
/// turn or a command may create.
pub open spec fn event_handled(
    pre: Hub,
    event: HubEvent,
    fresh: String,
    post: Hub,
    out: Seq<Outbound>,
) -> bool {
    match event {
        HubEvent::Tick { ticks, now } => ticked(pre, ticks@, now, post, out),
        HubEvent::Spawn { draw } => spawn_turn_taken(pre, draw, fresh, post, out),
        HubEvent::Command { command, readings } => handled(pre, command, readings, fresh, post, out),
    }
}

impl Hub {
    /// Says whether an event is in order, so that it can be handled.
    pub fn admits(&self, event: &HubEvent) -> (ok: bool)
        ensures
            ok == event_admitted(*self, *event),
    {
        match event {
            HubEvent::Tick { ticks, .. } => self.lists_joined(ticks),
            HubEvent::Spawn { draw } => draw.within(SPORE_BOUND),
            HubEvent::Command { command, readings } => match command {
                Command::Join { .. } => readings.position.within(PLAYER_BOUND) && self.lists_spores(
                    &readings.spore_distances,
                ),
                Command::ConsumePlayer { .. } => readings.position.within(PLAYER_BOUND),
                _ => true,
            },
        }
    }

    /// Handles one event of the hub's loop, which is in order.
    pub fn handle_event(&mut self, event: HubEvent) -> (out: Vec<Outbound>)
        requires
            old(self).wf(),
            event_admitted(*old(self), event),
        ensures
            exists|fresh: String|
                (event_needs_id(event) ==> is_id_text(fresh@)) && #[trigger] event_handled(
                    *old(self),
                    event,
                    fresh,
                    *final(self),
                    out@,
                ),
            final(self).wf(),
    {
        match event {
            HubEvent::Tick { ticks, now } => {
                let out = self.tick_player(&ticks, now);
                proof {
                    let fresh = arbitrary::<String>();
                    assert(event_handled(*old(self), event, fresh, *self, out@));
                }
                out
            },
            HubEvent::Spawn { draw } => {
                let out = self.take_spawn_turn(draw);
                proof {
                    let fresh = choose|fresh: String|
                        is_id_text(fresh@) && #[trigger] spawn_turn_taken(
                            *old(self),
                            draw,
                            fresh,
                            *self,
                            out@,
                        );
                    assert(event_handled(*old(self), event, fresh, *self, out@));
                }
                out
            },
            HubEvent::Command { command, readings } => {
                let out = self.handle_command(command, &readings);
                proof {
                    let fresh = choose|fresh: String|
                        (needs_id(command) ==> is_id_text(fresh@)) && #[trigger] handled(
                            *old(self),
                            command,
                            readings,
                            fresh,
                            *self,
                            out@,
                        );
                    assert(event_handled(*old(self), event, fresh, *self, out@));
                }
                out
            },
        }
    }
}

} // verus!
