//! The avatar of a joined client.

use crate::scalar::Scalar;
use crate::util::MassDrop;
use vstd::prelude::*;

verus! {

/// Half the side of the square in which players appear.
pub const PLAYER_BOUND: u64 = 0x40A7_7000_0000_0000;

/// The radius of a new or respawned player: twenty.
pub const INIT_RADIUS: u64 = 0x4034_0000_0000_0000;

/// The heading of a new player: zero radians.
pub const INIT_DIRECTION_ANGLE: u64 = 0;

/// The cruising speed, in world units per second: one hundred and fifty.
pub const INIT_SPEED: u64 = 0x4062_C000_0000_0000;

/// The speed during a rush: three hundred.
pub const RUSH_SPEED: u64 = 0x4072_C000_0000_0000;

/// How long a rush lasts, in nanoseconds: two seconds.
pub const RUSH_DURATION: u64 = 2_000_000_000;

/// Below this radius a player cannot rush: twenty.
pub const RUSH_MIN_RADIUS: u64 = 0x4034_0000_0000_0000;

/// At this radius or below a player loses no mass: ten.
pub const MIN_RADIUS: u64 = 0x4024_0000_0000_0000;

/// Zero, the bound that the remaining mass must exceed.
pub const NO_MASS: u64 = 0;

/// An avatar in the world. Times are readings of one monotonic clock, in
/// nanoseconds.
#[derive(Debug, PartialEq, Eq)]
pub struct Player {
    pub db_id: i64,
    pub connection_id: String,
    pub nickname: String,
    pub x: Scalar,
    pub y: Scalar,
    pub radius: Scalar,
    pub direction_angle: Scalar,
    pub speed: Scalar,
    pub color: i64,
    pub rush_instant: Option<u64>,
}

impl Clone for Player {
    fn clone(&self) -> (p: Self)
        ensures
            p == *self,
    {
        Player {
            db_id: self.db_id,
            connection_id: self.connection_id.clone(),
            nickname: self.nickname.clone(),
            x: self.x,
            y: self.y,
            radius: self.radius,
            direction_angle: self.direction_angle,
            speed: self.speed,
            color: self.color,
            rush_instant: self.rush_instant,
        }
    }
}

impl Player {
    /// The time since `start` on a clock that reads `now`, zero where the
    /// clock reads less.
    pub open spec fn elapsed(start: u64, now: u64) -> int {
        if now >= start {
            now - start
        } else {
            0
        }
    }

    /// Whether the player stands in the arena: neither coordinate is
    /// further from zero than the bound.
    pub open spec fn in_arena(self) -> bool {
        self.x.spec_within(PLAYER_BOUND) && self.y.spec_within(PLAYER_BOUND)
    }

    /// Whether a rush is over at `now`: it began more than the rush
    /// duration ago.
    pub open spec fn rush_expired(self, now: u64) -> bool {
        self.rush_instant matches Some(start) && Self::elapsed(start, now) > RUSH_DURATION
    }

    /// The player after a tick that moved it to `(x, y)` at time `now`.
    pub open spec fn spec_tick(self, x: Scalar, y: Scalar, now: u64) -> Player {
        if self.rush_expired(now) {
            Player { x, y, speed: Scalar { bits: INIT_SPEED }, rush_instant: None, ..self }
        } else {
            Player { x, y, ..self }
        }
    }

    /// Whether a loss of mass is refused: the radius is at the minimum or
    /// below, or no mass would remain.
    pub open spec fn refuses_decrease(self, remaining_mass: Scalar) -> bool {
        self.radius.spec_le(Scalar { bits: MIN_RADIUS }) || remaining_mass.spec_le(Scalar { bits: NO_MASS })
    }

    /// The player after an attempt to lose mass.
    pub open spec fn spec_try_decrease_mass(
        self,
        remaining_mass: Scalar,
        shrunk_radius: Scalar,
    ) -> Player {
        if self.refuses_decrease(remaining_mass) {
            self
        } else {
            Player { radius: shrunk_radius, ..self }
        }
    }

    /// A new player at the drawn place `(x, y)`, which lies in the arena,
    /// at rest values otherwise.
    pub fn random(
        db_id: i64,
        connection_id: String,
        nickname: String,
        color: i64,
        x: Scalar,
        y: Scalar,
    ) -> (player: Player)
        requires
            x.spec_within(PLAYER_BOUND),
            y.spec_within(PLAYER_BOUND),
        ensures
            player.in_arena(),
            player == (Player {
                db_id,
                connection_id,
                nickname,
                x,
                y,
                radius: Scalar { bits: INIT_RADIUS },
                direction_angle: Scalar { bits: INIT_DIRECTION_ANGLE },
                speed: Scalar { bits: INIT_SPEED },
                color,
                rush_instant: None,
            }),
    {
        Player {
            db_id,
            connection_id,
            nickname,
            x,
            y,
            radius: Scalar { bits: INIT_RADIUS },
            direction_angle: Scalar { bits: INIT_DIRECTION_ANGLE },
            speed: Scalar { bits: INIT_SPEED },
            color,
            rush_instant: None,
        }
    }

    /// Moves the player to `(x, y)`, the place that its speed and heading
    /// carry it to, and ends a rush that has lasted longer than the rush
    /// duration at `now`.
    pub fn tick(&mut self, x: Scalar, y: Scalar, now: u64)
        ensures
            *final(self) == old(self).spec_tick(x, y, now),
    {
        self.x = x;
        self.y = y;
        if let Some(start) = self.rush_instant {
            if now >= start && now - start > RUSH_DURATION {
                self.speed = Scalar { bits: INIT_SPEED };
                self.rush_instant = None;
            }
        }
    }

    /// Starts a rush at `now`.
    pub fn rush(&mut self, now: u64)
        ensures
            *final(self) == (Player { speed: Scalar { bits: RUSH_SPEED }, rush_instant: Some(now), ..*old(self) }),
    {
        self.speed = Scalar { bits: RUSH_SPEED };
        self.rush_instant = Some(now);
    }

    /// Puts the player at the drawn place `(x, y)`, which lies in the arena,
    /// with the initial radius and speed. Identity, name, colour, heading
    /// and rush are kept.
    pub fn respawn(&mut self, x: Scalar, y: Scalar)
        requires
            x.spec_within(PLAYER_BOUND),
            y.spec_within(PLAYER_BOUND),
        ensures
            final(self).in_arena(),
            *final(self) == (Player { x, y, radius: Scalar { bits: INIT_RADIUS }, speed: Scalar { bits: INIT_SPEED }, ..*old(self) }),
    {
        self.x = x;
        self.y = y;
        self.radius = Scalar { bits: INIT_RADIUS };
        self.speed = Scalar { bits: INIT_SPEED };
    }

    /// Grows the player to `grown_radius`, the radius of a disc of its mass
    /// and the mass gained.
    pub fn increase_mass(&mut self, grown_radius: Scalar)
        ensures
            *final(self) == (Player { radius: grown_radius, ..*old(self) }),
    {
        self.radius = grown_radius;
    }

    /// Shrinks the player to `shrunk_radius`, the radius of a disc of
    /// `remaining_mass`, unless the loss is refused. Returns whether the
    /// player shrank.
    pub fn try_decrease_mass(
        &mut self,
        remaining_mass: Scalar,
        shrunk_radius: Scalar,
    ) -> (done: bool)
        ensures
            done == !old(self).refuses_decrease(remaining_mass),
            *final(self) == old(self).spec_try_decrease_mass(remaining_mass, shrunk_radius),
    {
        if self.radius.le(Scalar { bits: MIN_RADIUS }) {
            return false;
        }
        if remaining_mass.le(Scalar { bits: NO_MASS }) {
            return false;
        }
        self.radius = shrunk_radius;
        true
    }

    /// Tries to lose the mass of `drop`, and returns that mass where the
    /// player shrank.
    pub fn try_drop_mass(&mut self, drop: MassDrop) -> (dropped: Option<Scalar>)
        ensures
            dropped == if old(self).refuses_decrease(drop.remaining_mass) {
                None
            } else {
                Some(drop.mass)
            },
            *final(self) == old(self).spec_try_decrease_mass(drop.remaining_mass, drop.shrunk_radius),
    {
        if self.try_decrease_mass(drop.remaining_mass, drop.shrunk_radius) {
            return Some(drop.mass);
        }
        None
    }
}

/// A rush that began at `start` is still on after 1.9 seconds and over after
/// 2.1 seconds, for a clock that cannot overflow in between.
pub proof fn lemma_rush_window(p: Player, start: u64)
    requires
        p.rush_instant == Some(start),
        start + 2_100_000_000 <= u64::MAX,
    ensures
        !p.rush_expired((start + 1_900_000_000) as u64),
        p.rush_expired((start + 2_100_000_000) as u64),
{
}

/// A player at the minimum radius or below loses no mass, and neither does
/// one that would keep none: the attempt leaves it as it was. A player that
/// does shrink had a radius above the minimum.
pub proof fn lemma_minimum_radius_guards_decrease(
    player: Player,
    remaining_mass: Scalar,
    shrunk_radius: Scalar,
)
    ensures
        player.radius.spec_le(Scalar { bits: MIN_RADIUS }) ==> player.spec_try_decrease_mass(
            remaining_mass,
            shrunk_radius,
        ) == player,
        remaining_mass.spec_le(Scalar { bits: NO_MASS }) ==> player.spec_try_decrease_mass(
            remaining_mass,
            shrunk_radius,
        ) == player,
        !player.refuses_decrease(remaining_mass) && !player.radius.is_nan() ==> (Scalar {
            bits: MIN_RADIUS,
        }).spec_lt(player.radius),
{
}

} // verus!
