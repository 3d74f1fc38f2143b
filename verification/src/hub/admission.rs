//! Tests for what a caller hands the hub: whether a list names what it has
//! to name, each once.

use crate::hub::{is_distance_listing, is_selected, is_tick_listing, Hub};
use crate::table::{distinct_texts, is_key_listing, occurs, spore_table_keys};
use crate::util::{distance_names, tick_names, PlayerTick, SporeDistance};
use vstd::prelude::*;

verus! {

/// Whether every one of `keys` is among `names`.
pub open spec fn covers(names: Seq<String>, keys: Seq<String>) -> bool {
    forall|j: int| 0 <= j < keys.len() ==> occurs(names, names.len() as int, #[trigger] keys[j]@)
}

/// Says whether `text` is among `names`.
pub fn contains_text(names: &Vec<String>, text: &String) -> (found: bool)
    ensures
        found == occurs(names@, names.len() as int, text@),
{
    let mut i: usize = 0;
    while i < names.len()
        invariant
            i <= names.len(),
            !occurs(names@, i as int, text@),
        decreases names.len() - i,
    {
        if names[i] == *text {
            return true;
        }
        proof {
            if occurs(names@, i + 1, text@) {
                let a = choose|a: int| 0 <= a < i + 1 && #[trigger] names[a]@ == text@;
                assert(occurs(names@, i as int, text@));
            }
        }
        i = i + 1;
    }
    false
}

/// Says whether no two of `names` are the same text.
pub fn all_distinct(names: &Vec<String>) -> (ok: bool)
    ensures
        ok == distinct_texts(names@),
{
    let mut j: usize = 0;
    while j < names.len()
        invariant
            j <= names.len(),
            forall|a: int, b: int| 0 <= a < b < j ==> #[trigger] names[a]@ != #[trigger] names[b]@,
        decreases names.len() - j,
    {
        let mut i: usize = 0;
        while i < j
            invariant
                i <= j < names.len(),
                forall|a: int| 0 <= a < i ==> #[trigger] names[a]@ != names[j as int]@,
            decreases j - i,
        {
            if names[i] == names[j] {
                return false;
            }
            i = i + 1;
        }
        j = j + 1;
    }
    true
}

/// Says whether every one of `keys` is among `names`.
pub fn covers_all(names: &Vec<String>, keys: &Vec<String>) -> (ok: bool)
    ensures
        ok == covers(names@, keys@),
{
    let mut j: usize = 0;
    while j < keys.len()
        invariant
            j <= keys.len(),
            forall|a: int| 0 <= a < j ==> occurs(names@, names.len() as int, #[trigger] keys[a]@),
        decreases keys.len() - j,
    {
        if !contains_text(names, &keys[j]) {
            return false;
        }
        j = j + 1;
    }
    true
}

impl Hub {
    /// Says whether the ticks name the joined clients, each once.
    pub fn lists_joined(&self, ticks: &Vec<PlayerTick>) -> (ok: bool)
        ensures
            ok == is_tick_listing(ticks@, self.clients()),
    {
        let mut names: Vec<String> = Vec::new();
        let mut i: usize = 0;
        while i < ticks.len()
            invariant
                i <= ticks.len(),
                names.len() == i,
                forall|a: int| 0 <= a < i ==> #[trigger] names[a] == ticks[a].connection_id,
                forall|a: int| 0 <= a < i ==> is_selected(self.clients(), None, #[trigger] names[a]@),
            decreases ticks.len() - i,
        {
            if self.player_of(ticks[i].connection_id.as_str()).is_none() {
                proof {
                    assert(!is_selected(self.clients(), None, tick_names(ticks@)[i as int]@));
                }
                return false;
            }
            names.push(ticks[i].connection_id.clone());
            i = i + 1;
        }
        assert(names@ =~= tick_names(ticks@));
        if !all_distinct(&names) {
            return false;
        }
        let joined = self.joined_ids();
        let covered = covers_all(&names, &joined);
        proof {
            if covered {
                assert forall|k: Seq<char>| #[trigger]
                    is_selected(self.clients(), None, k) implies occurs(names@, names.len() as int, k) by {
                    let j = choose|j: int| 0 <= j < joined.len() && #[trigger] joined[j]@ == k;
                    assert(occurs(names@, names.len() as int, joined[j]@));
                }
            } else {
                let j = choose|j: int|
                    0 <= j < joined.len() && !occurs(names@, names.len() as int, #[trigger] joined[j]@);
                assert(is_selected(self.clients(), None, joined[j]@));
            }
        }
        covered
    }

    /// Says whether the distances name the spores of the world, each once.
    pub fn lists_spores(&self, distances: &Vec<SporeDistance>) -> (ok: bool)
        ensures
            ok == is_distance_listing(distances@, self.spores()),
    {
        let mut names: Vec<String> = Vec::new();
        let mut i: usize = 0;
        while i < distances.len()
            invariant
                i <= distances.len(),
                names.len() == i,
                forall|a: int| 0 <= a < i ==> #[trigger] names[a] == distances[a].spore_id,
                forall|a: int| 0 <= a < i ==> self.spores().dom().contains(#[trigger] names[a]@),
            decreases distances.len() - i,
        {
            if self.spore_of(distances[i].spore_id.as_str()).is_none() {
                proof {
                    assert(!self.spores().dom().contains(distance_names(distances@)[i as int]@));
                }
                return false;
            }
            names.push(distances[i].spore_id.clone());
            i = i + 1;
        }
        assert(names@ =~= distance_names(distances@));
        if !all_distinct(&names) {
            return false;
        }
        let keys = spore_table_keys(&self.spore_map);
        let covered = covers_all(&names, &keys);
        proof {
            if covered {
                assert forall|k: Seq<char>| #[trigger]
                    self.spores().dom().contains(k) implies occurs(names@, names.len() as int, k) by {
                    let j = choose|j: int| 0 <= j < keys.len() && #[trigger] keys[j]@ == k;
                    assert(occurs(names@, names.len() as int, keys[j]@));
                }
            } else {
                let j = choose|j: int|
                    0 <= j < keys.len() && !occurs(names@, names.len() as int, #[trigger] keys[j]@);
                assert(self.spores().dom().contains(keys[j]@));
            }
        }
        covered
    }
}

} // verus!
