//! The order of a snapshot: spores by their distance from the player,
//! nearest first.

use crate::scalar::Scalar;
use crate::spore::Spore;
use vstd::prelude::*;

verus! {

/// A spore with the square of its distance from the player.
#[derive(Debug, PartialEq, Eq)]
pub struct KeyedSpore {
    pub distance_sq: Scalar,
    pub spore: Spore,
}

/// Where a spore at the distance `key` goes into a ranked sequence: behind
/// the last one that sorts no later.
pub open spec fn slot(ranked: Seq<KeyedSpore>, key: Scalar) -> int
    decreases ranked.len(),
{
    if ranked.len() == 0 {
        0
    } else if ranked.last().distance_sq.spec_sorts_le(key) {
        ranked.len() as int
    } else {
        slot(ranked.drop_last(), key)
    }
}

/// The spores ranked by distance, nearest first, spores that sort alike in
/// the order in which they came. A distance that is no number sorts last.
pub open spec fn ranked(spores: Seq<KeyedSpore>) -> Seq<KeyedSpore>
    decreases spores.len(),
{
    if spores.len() == 0 {
        Seq::empty()
    } else {
        let before = ranked(spores.drop_last());
        before.insert(slot(before, spores.last().distance_sq), spores.last())
    }
}

/// Whether no spore of the sequence sorts before one that stands earlier.
pub open spec fn is_ascending(spores: Seq<KeyedSpore>) -> bool {
    forall|i: int, j: int|
        0 <= i < j < spores.len() ==> (#[trigger] spores[i]).distance_sq.spec_sorts_le(
            (#[trigger] spores[j]).distance_sq,
        )
}

/// The spores without their keys.
pub open spec fn unkeyed(spores: Seq<KeyedSpore>) -> Seq<Spore> {
    Seq::new(spores.len(), |i: int| spores[i].spore)
}

/// In an ascending sequence the slot of a distance parts the spores that
/// sort no later from those that sort later.
pub proof fn lemma_slot_parts(spores: Seq<KeyedSpore>, key: Scalar)
    requires
        is_ascending(spores),
    ensures
        0 <= slot(spores, key) <= spores.len(),
        forall|i: int| 0 <= i < slot(spores, key) ==> (#[trigger] spores[i]).distance_sq.sort_rank() <= key.sort_rank(),
        forall|i: int|
            slot(spores, key) <= i < spores.len() ==> (#[trigger] spores[i]).distance_sq.sort_rank() > key.sort_rank(),
    decreases spores.len(),
{
    if spores.len() > 0 && spores.last().distance_sq.sort_rank() > key.sort_rank() {
        let shorter = spores.drop_last();
        assert forall|i: int, j: int| 0 <= i < j < shorter.len() implies #[trigger] shorter[i].distance_sq.sort_rank()
            <= #[trigger] shorter[j].distance_sq.sort_rank() by {
            assert(spores[i].distance_sq.sort_rank() <= spores[j].distance_sq.sort_rank());
        }
        lemma_slot_parts(shorter, key);
        assert forall|i: int| 0 <= i < slot(spores, key) implies (#[trigger] spores[i]).distance_sq.sort_rank()
            <= key.sort_rank() by {
            assert(shorter[i].distance_sq.sort_rank() <= key.sort_rank());
        }
        assert forall|i: int| slot(spores, key) <= i < spores.len() implies (
        #[trigger] spores[i]).distance_sq.sort_rank() > key.sort_rank() by {
            if i < shorter.len() {
                assert(shorter[i].distance_sq.sort_rank() > key.sort_rank());
            }
        }
    } else if spores.len() > 0 {
        assert forall|i: int| 0 <= i < spores.len() implies (#[trigger] spores[i]).distance_sq.sort_rank()
            <= key.sort_rank() by {
            if i < spores.len() - 1 {
                assert(spores[i].distance_sq.sort_rank() <= spores[spores.len() - 1].distance_sq.sort_rank());
            }
        }
    }
}

/// A ranking is ascending, and holds what was ranked: every spore as often
/// as it came.
pub proof fn lemma_ranked_is_sorted_permutation(spores: Seq<KeyedSpore>)
    ensures
        is_ascending(ranked(spores)),
        ranked(spores).len() == spores.len(),
        ranked(spores).to_multiset() == spores.to_multiset(),
    decreases spores.len(),
{
    broadcast use {vstd::seq_lib::to_multiset_insert, vstd::seq_lib::to_multiset_build};

    if spores.len() == 0 {
        assert(spores =~= Seq::empty());
    } else {
        let shorter = spores.drop_last();
        let last = spores.last();
        lemma_ranked_is_sorted_permutation(shorter);
        let before = ranked(shorter);
        lemma_slot_parts(before, last.distance_sq);
        let at = slot(before, last.distance_sq);
        let after = before.insert(at, last);
        before.insert_ensures(at, last);
        assert forall|i: int, j: int| 0 <= i < j < after.len() implies #[trigger] after[i].distance_sq.sort_rank()
            <= #[trigger] after[j].distance_sq.sort_rank() by {
            if j < at {
                assert(before[i].distance_sq.sort_rank() <= before[j].distance_sq.sort_rank());
            } else if j == at {
                assert(before[i].distance_sq.sort_rank() <= last.distance_sq.sort_rank());
            } else if i < at {
                assert(after[j] == before[j - 1]);
                assert(before[i].distance_sq.sort_rank() <= last.distance_sq.sort_rank());
                assert(before[j - 1].distance_sq.sort_rank() > last.distance_sq.sort_rank());
            } else if i == at {
                assert(after[j] == before[j - 1]);
                assert(before[j - 1].distance_sq.sort_rank() > last.distance_sq.sort_rank());
            } else {
                assert(after[i] == before[i - 1]);
                assert(after[j] == before[j - 1]);
                assert(before[i - 1].distance_sq.sort_rank() <= before[j - 1].distance_sq.sort_rank());
            }
        }
        assert(shorter.push(last) =~= spores);
    }
}

/// A ranking is stable: the spores that sort alike, at the rank `key`,
/// stand in a ranking as they stood in what was ranked.
pub proof fn lemma_ranked_is_stable(spores: Seq<KeyedSpore>, key: int)
    ensures
        ranked(spores).filter(|s: KeyedSpore| s.distance_sq.sort_rank() == key) == spores.filter(
            |s: KeyedSpore| s.distance_sq.sort_rank() == key,
        ),
    decreases spores.len(),
{
    let of_key = |s: KeyedSpore| s.distance_sq.sort_rank() == key;
    if spores.len() == 0 {
        assert(spores =~= Seq::empty());
    } else {
        let shorter = spores.drop_last();
        let last = spores.last();
        lemma_ranked_is_stable(shorter, key);
        lemma_ranked_is_sorted_permutation(shorter);
        let before = ranked(shorter);
        lemma_slot_parts(before, last.distance_sq);
        let at = slot(before, last.distance_sq);
        let head = before.subrange(0, at);
        let tail = before.subrange(at, before.len() as int);
        assert(before =~= head + tail);
        Seq::filter_distributes_over_add(head, tail, of_key);
        Seq::filter_distributes_over_add(head.push(last), tail, of_key);
        head.lemma_filter_push(last, of_key);
        shorter.lemma_filter_push(last, of_key);
        assert(shorter.push(last) =~= spores);
        if last.distance_sq.sort_rank() == key {
            assert forall|i: int| 0 <= i < tail.len() implies !of_key(#[trigger] tail[i]) by {
                assert(before[at + i].distance_sq.sort_rank() > key);
            }
            tail.lemma_all_neg_filter_empty(of_key);
            assert(tail.filter(of_key) =~= Seq::empty());
            assert(head.filter(of_key).push(last) + tail.filter(of_key) =~= (head.filter(of_key)
                + tail.filter(of_key)).push(last));
        }
    }
}

/// Ranks the spores by distance, nearest first, and leaves spores that sort
/// alike in the order in which they came.
pub fn rank_spore_batch(spores: Vec<KeyedSpore>) -> (batch: Vec<Spore>)
    ensures
        batch@ == unkeyed(ranked(spores@)),
{
    let ghost all = spores@;
    let mut sorted: Vec<KeyedSpore> = Vec::new();
    for item in iter: spores
        invariant
            iter.seq() == all,
            sorted@ == ranked(all.take(iter.index() as int)),
    {
        proof {
            assert(all.take(iter.index() + 1).drop_last() =~= all.take(iter.index() as int));
        }
        let mut at: usize = sorted.len();
        proof {
            assert(sorted@.take(sorted.len() as int) =~= sorted@);
        }
        while at > 0 && !sorted[at - 1].distance_sq.sorts_le(item.distance_sq)
            invariant
                at <= sorted.len(),
                slot(sorted@, item.distance_sq) == slot(sorted@.take(at as int), item.distance_sq),
            decreases at,
        {
            proof {
                assert(sorted@.take(at as int).drop_last() =~= sorted@.take(at - 1));
            }
            at = at - 1;
        }
        proof {
            if at == 0 {
                assert(sorted@.take(0).len() == 0);
            }
        }
        sorted.insert(at, item);
    }
    proof {
        assert(all.take(all.len() as int) =~= all);
    }
    let ghost in_order = sorted@;
    let mut batch: Vec<Spore> = Vec::new();
    for item in iter: sorted
        invariant
            iter.seq() == in_order,
            batch@ == unkeyed(in_order.take(iter.index() as int)),
    {
        batch.push(item.spore);
        proof {
            assert(batch@ =~= unkeyed(in_order.take(iter.index() + 1)));
        }
    }
    proof {
        assert(in_order.take(in_order.len() as int) =~= in_order);
    }
    batch
}

/// In a ranking no spore is nearer than one that stands before it: of two
/// distances that are numbers, the earlier is no larger.
pub proof fn lemma_ranked_is_nearest_first(spores: Seq<KeyedSpore>, i: int, j: int)
    requires
        0 <= i <= j < spores.len(),
        !ranked(spores)[i].distance_sq.is_nan(),
        !ranked(spores)[j].distance_sq.is_nan(),
    ensures
        ranked(spores)[i].distance_sq.spec_le(ranked(spores)[j].distance_sq),
{
    lemma_ranked_is_sorted_permutation(spores);
    if i < j {
        assert(ranked(spores)[i].distance_sq.spec_sorts_le(ranked(spores)[j].distance_sq));
    }
}

/// Whether one of `spores` is `spore`.
pub open spec fn holds(spores: Seq<KeyedSpore>, spore: KeyedSpore) -> bool {
    exists|i: int| 0 <= i < spores.len() && #[trigger] spores[i] == spore
}

/// Whether no two of `spores` have the same id.
pub open spec fn ids_distinct(spores: Seq<KeyedSpore>) -> bool {
    forall|i: int, j: int|
        0 <= i < j < spores.len() ==> (#[trigger] spores[i]).spore.id@ != (#[trigger] spores[j]).spore.id@
}

/// A ranking holds the spores that were ranked and no others, and no id
/// twice where none came twice.
pub proof fn lemma_ranked_keeps_members(spores: Seq<KeyedSpore>)
    ensures
        forall|spore: KeyedSpore| #[trigger] holds(ranked(spores), spore) <==> holds(spores, spore),
        ids_distinct(spores) ==> ids_distinct(ranked(spores)),
    decreases spores.len(),
{
    if spores.len() == 0 {
    } else {
        let shorter = spores.drop_last();
        let last = spores.last();
        lemma_ranked_keeps_members(shorter);
        lemma_ranked_is_sorted_permutation(shorter);
        let before = ranked(shorter);
        lemma_slot_parts(before, last.distance_sq);
        let at = slot(before, last.distance_sq);
        let after = before.insert(at, last);
        before.insert_ensures(at, last);
        assert forall|spore: KeyedSpore| #[trigger] holds(after, spore) implies holds(spores, spore) by {
            let i = choose|i: int| 0 <= i < after.len() && #[trigger] after[i] == spore;
            if i == at {
                assert(spores[spores.len() - 1] == spore);
            } else {
                if i < at {
                    assert(before[i] == spore);
                } else {
                    assert(after[i] == before[i - 1]);
                    assert(before[i - 1] == spore);
                }
                assert(holds(before, spore));
                assert(holds(shorter, spore));
                let j = choose|j: int| 0 <= j < shorter.len() && #[trigger] shorter[j] == spore;
                assert(spores[j] == spore);
            }
        }
        assert forall|spore: KeyedSpore| #[trigger] holds(spores, spore) implies holds(after, spore) by {
            let j = choose|j: int| 0 <= j < spores.len() && #[trigger] spores[j] == spore;
            if j == spores.len() - 1 {
                assert(after[at] == spore);
            } else {
                assert(shorter[j] == spore);
                assert(holds(shorter, spore));
                assert(holds(before, spore));
                let i = choose|i: int| 0 <= i < before.len() && #[trigger] before[i] == spore;
                if i < at {
                    assert(after[i] == spore);
                } else {
                    assert(after[i + 1] == before[i]);
                    assert(after[i + 1] == spore);
                }
            }
        }
        if ids_distinct(spores) {
            assert forall|i: int, j: int| 0 <= i < j < shorter.len() implies (
            #[trigger] shorter[i]).spore.id@ != (#[trigger] shorter[j]).spore.id@ by {
                assert(spores[i].spore.id@ != spores[j].spore.id@);
            }
            assert forall|i: int| 0 <= i < before.len() implies (#[trigger] before[i]).spore.id@
                != last.spore.id@ by {
                assert(holds(before, before[i]));
                assert(holds(shorter, before[i]));
                let j = choose|j: int| 0 <= j < shorter.len() && #[trigger] shorter[j] == before[i];
                assert(spores[j].spore.id@ != spores[spores.len() - 1].spore.id@);
            }
            assert forall|i: int, j: int| 0 <= i < j < after.len() implies (
            #[trigger] after[i]).spore.id@ != (#[trigger] after[j]).spore.id@ by {
                let bi = if i < at { i } else { i - 1 };
                let bj = if j < at { j } else { j - 1 };
                if i == at {
                    assert(after[j] == before[j - 1]);
                    assert(before[j - 1].spore.id@ != last.spore.id@);
                } else if j == at {
                    assert(after[i] == before[i]);
                    assert(before[i].spore.id@ != last.spore.id@);
                } else {
                    assert(after[i] == before[bi]);
                    assert(after[j] == before[bj]);
                    assert(before[bi].spore.id@ != before[bj].spore.id@);
                }
            }
        }
    }
}

} // verus!
