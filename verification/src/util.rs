//! Values that a caller has evaluated from the world's numbers, and the
//! decisions taken on them.

use crate::scalar::Scalar;
use vstd::prelude::*;

verus! {

/// A point of the arena.
#[derive(Clone, Copy, Debug, PartialEq, Eq, Structural)]
pub struct Position {
    pub x: Scalar,
    pub y: Scalar,
}

/// What a loss of mass comes to for one player: the mass that leaves, the
/// mass that stays, the radius of a disc of the mass that stays, and the
/// radius of a disc of the mass that leaves.
#[derive(Clone, Copy, Debug, PartialEq, Eq, Structural)]
pub struct MassDrop {
    pub mass: Scalar,
    pub remaining_mass: Scalar,
    pub shrunk_radius: Scalar,
    pub spore_radius: Scalar,
}

/// The squared distance between two centres, and the squared threshold below
/// which they are close: the two radii and a slack of ten, summed and squared.
#[derive(Clone, Copy, Debug, PartialEq, Eq, Structural)]
pub struct Proximity {
    pub distance_sq: Scalar,
    pub threshold_sq: Scalar,
}

/// The place and the radius drawn for a new spore.
#[derive(Clone, Copy, Debug, PartialEq, Eq, Structural)]
pub struct SporeDraw {
    pub x: Scalar,
    pub y: Scalar,
    pub radius: Scalar,
}

/// How far a spore is from a place: the square of the distance.
#[derive(Debug, PartialEq, Eq)]
pub struct SporeDistance {
    pub spore_id: String,
    pub distance_sq: Scalar,
}

/// What the caller has evaluated for one command, from the state of the
/// world as it was before the command. A command reads the fields that its
/// rule names and no others.
#[derive(Debug, PartialEq, Eq)]
pub struct Readings {
    /// The monotonic clock, in nanoseconds.
    pub now: u64,
    /// A place drawn in the arena: where a joining player appears, or where
    /// an eaten player reappears.
    pub position: Position,
    /// How far the eater is from what it wants to eat.
    pub proximity: Proximity,
    /// The radius of a disc of the eater's mass and the mass eaten.
    pub grown_radius: Scalar,
    /// The eater's mass after the meal, as a whole number.
    pub current_score: i64,
    /// What a rush costs the player: a fifth of its mass.
    pub drop: MassDrop,
    /// For a join: how far each spore of the world is from `position`.
    pub spore_distances: Vec<SporeDistance>,
}

/// What the caller has evaluated for one player and one tick.
#[derive(Debug, PartialEq, Eq)]
pub struct PlayerTick {
    pub connection_id: String,
    /// Where the player's speed and heading carry it in this tick.
    pub position: Position,
    /// A number drawn in the unit interval.
    pub chance: Scalar,
    /// The probability that the player sheds a spore in this tick.
    pub probability: Scalar,
    /// What shedding a spore costs the player.
    pub drop: MassDrop,
}

impl SporeDraw {
    /// Whether the place drawn is no further from zero than `bound` in
    /// either coordinate.
    pub open spec fn spec_within(self, bound: u64) -> bool {
        self.x.spec_within(bound) && self.y.spec_within(bound)
    }

    pub fn within(self, bound: u64) -> (r: bool)
        ensures
            r == self.spec_within(bound),
    {
        self.x.within(bound) && self.y.within(bound)
    }
}

impl Position {
    /// Whether neither coordinate is further from zero than `bound`.
    pub open spec fn spec_within(self, bound: u64) -> bool {
        self.x.spec_within(bound) && self.y.spec_within(bound)
    }

    pub fn within(self, bound: u64) -> (r: bool)
        ensures
            r == self.spec_within(bound),
    {
        self.x.within(bound) && self.y.within(bound)
    }
}

/// The ids that the distances name, in order.
pub open spec fn distance_names(distances: Seq<SporeDistance>) -> Seq<String> {
    Seq::new(distances.len(), |i: int| distances[i].spore_id)
}

/// The clients that the ticks name, in order.
pub open spec fn tick_names(ticks: Seq<PlayerTick>) -> Seq<String> {
    Seq::new(ticks.len(), |i: int| ticks[i].connection_id)
}

/// Two discs are close when the square of the distance between their centres
/// is below the square of the sum of their radii and the slack.
pub open spec fn spec_is_close(distance_sq: Scalar, threshold_sq: Scalar) -> bool {
    distance_sq.spec_lt(threshold_sq)
}

/// Decides closeness from the squared distance between two centres and the
/// squared threshold (the two radii and a slack of ten, summed and squared).
pub fn check_distance_is_close(distance_sq: Scalar, threshold_sq: Scalar) -> (close: bool)
    ensures
        close == spec_is_close(distance_sq, threshold_sq),
{
    distance_sq.lt(threshold_sq)
}

} // verus!
