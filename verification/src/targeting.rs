use vstd::prelude::*;
use crate::components::{Interactable, InteractionTarget};
use crate::entity::same_entity;
use crate::geometry::{Point, MAX_DISTANCE};

verus! {

/// Whether `items[i]` is the object the player at `agent` can act on: it is
/// within reach, no object is closer, and every object before it is farther.
pub open spec fn is_closest_in_reach(agent: Point, items: Seq<Interactable>, i: int) -> bool {
    &&& 0 <= i < items.len()
    &&& agent.within_reach(items[i].position)
    &&& forall|j: int|
        0 <= j < items.len() ==> agent.distance_squared(items[i].position)
            <= agent.distance_squared(#[trigger] items[j].position)
    &&& forall|j: int|
        0 <= j < i ==> agent.distance_squared(items[i].position) < agent.distance_squared(
            #[trigger] items[j].position,
        )
}

/// Whether no object is within reach of `agent`.
pub open spec fn none_in_reach(agent: Point, items: Seq<Interactable>) -> bool {
    forall|j: int| 0 <= j < items.len() ==> !agent.within_reach(#[trigger] items[j].position)
}

/// The index of the closest object within reach, the first of them where
/// several are equally close; `None` where no object is within reach.
pub open spec fn closest_in_reach(agent: Point, items: Seq<Interactable>) -> Option<int> {
    if exists|i: int| is_closest_in_reach(agent, items, i) {
        Some(choose|i: int| is_closest_in_reach(agent, items, i))
    } else {
        None
    }
}

/// At most one index is the closest in reach.
pub proof fn lemma_closest_unique(agent: Point, items: Seq<Interactable>, i: int, k: int)
    requires
        is_closest_in_reach(agent, items, i),
        is_closest_in_reach(agent, items, k),
    ensures
        i == k,
{
    if i < k {
        assert(agent.distance_squared(items[k].position) < agent.distance_squared(
            items[i].position,
        ));
    } else if k < i {
        assert(agent.distance_squared(items[i].position) < agent.distance_squared(
            items[k].position,
        ));
    }
}

/// `closest_in_reach` is `Some(i)` exactly for the index that
/// `is_closest_in_reach` holds of.
pub proof fn lemma_closest_is(agent: Point, items: Seq<Interactable>, i: int)
    requires
        is_closest_in_reach(agent, items, i),
    ensures
        closest_in_reach(agent, items) == Some(i),
{
    let k = choose|k: int| is_closest_in_reach(agent, items, k);
    lemma_closest_unique(agent, items, i, k);
}

/// Where nothing is in reach, `closest_in_reach` is `None`.
pub proof fn lemma_closest_none(agent: Point, items: Seq<Interactable>)
    requires
        none_in_reach(agent, items),
    ensures
        closest_in_reach(agent, items) is None,
{
    if exists|i: int| is_closest_in_reach(agent, items, i) {
        let k = choose|k: int| is_closest_in_reach(agent, items, k);
        assert(!agent.within_reach(items[k].position));
    }
}

/// The target after a tick, given the target before it.
///
/// With an object in reach the target is in range; its id, position and kind
/// are overwritten only where the closest object is not the one already
/// targeted. With none in reach the target is out of range and names no
/// object.
pub open spec fn retarget(prev: InteractionTarget, agent: Point, items: Seq<Interactable>)
    -> InteractionTarget {
    match closest_in_reach(agent, items) {
        Some(i) => if prev.target_id == Some(items[i].id) {
            InteractionTarget { in_range: true, ..prev }
        } else {
            InteractionTarget {
                in_range: true,
                target_id: Some(items[i].id),
                position: items[i].position,
                kind: items[i].interaction_type,
            }
        },
        None => InteractionTarget { in_range: false, target_id: None, ..prev },
    }
}

/// The index of the object that a tick makes the new target; `None` where
/// the tick leaves the targeted object as it is or loses it.
pub open spec fn target_change(prev: InteractionTarget, agent: Point, items: Seq<Interactable>)
    -> Option<int> {
    match closest_in_reach(agent, items) {
        Some(i) => if prev.target_id == Some(items[i].id) {
            None
        } else {
            Some(i)
        },
        None => None,
    }
}

/// An executable index as the index of a sequence.
pub open spec fn index_of(r: Option<usize>) -> Option<int> {
    match r {
        Some(i) => Some(i as int),
        None => None,
    }
}

/// Scans the objects and returns the index of the closest one that is
/// within reach of `agent`.
pub fn find_closest(agent: &Point, interactables: &Vec<Interactable>) -> (r: Option<usize>)
    ensures
        index_of(r) == closest_in_reach(*agent, interactables@),
        match r {
            Some(i) => is_closest_in_reach(*agent, interactables@, i as int),
            None => none_in_reach(*agent, interactables@),
        },
{
    let limit: u128 = (MAX_DISTANCE as u128) * (MAX_DISTANCE as u128);
    let mut closest: Option<usize> = None;
    let mut closest_distance: u128 = limit;
    let mut i: usize = 0;
    while i < interactables.len()
        invariant
            i <= interactables.len(),
            limit == MAX_DISTANCE * MAX_DISTANCE,
            closest_distance <= limit,
            forall|j: int|
                0 <= j < i ==> closest_distance <= agent.distance_squared(
                    #[trigger] interactables@[j].position,
                ),
            match closest {
                Some(c) => {
                    &&& c < i
                    &&& closest_distance == agent.distance_squared(interactables@[c as int].position)
                    &&& closest_distance < limit
                    &&& forall|j: int|
                        0 <= j < c ==> closest_distance < agent.distance_squared(
                            #[trigger] interactables@[j].position,
                        )
                },
                None => closest_distance == limit,
            },
        decreases interactables.len() - i,
    {
        let distance: u128 = agent.squared_distance_to(&interactables[i].position);
        if distance < closest_distance {
            closest_distance = distance;
            closest = Some(i);
        }
        i += 1;
    }
    proof {
        match closest {
            Some(c) => {
                lemma_closest_is(*agent, interactables@, c as int);
            },
            None => {
                lemma_closest_none(*agent, interactables@);
            },
        }
    }
    closest
}

/// Recomputes the target for a player at `agent`.
///
/// Returns the index of the object that became the target, or `None` where
/// the targeted object did not change or no object is in reach.
pub fn recompute_target(
    target: &mut InteractionTarget,
    agent: &Point,
    interactables: &Vec<Interactable>,
) -> (changed: Option<usize>)
    ensures
        *final(target) == retarget(*old(target), *agent, interactables@),
        index_of(changed) == target_change(*old(target), *agent, interactables@),
        final(target).wf(),
        none_in_reach(*agent, interactables@) ==> !final(target).in_range
            && final(target).target_id is None,
{
    proof {
        if none_in_reach(*agent, interactables@) {
            lemma_closest_none(*agent, interactables@);
        }
    }
    match find_closest(agent, interactables) {
        Some(i) => {
            let winner = &interactables[i];
            target.in_range = true;
            let same = match target.target_id {
                Some(id) => same_entity(id, winner.id),
                None => false,
            };
            if same {
                None
            } else {
                target.target_id = Some(winner.id);
                target.position = winner.position;
                target.kind = winner.interaction_type;
                Some(i)
            }
        },
        None => {
            target.in_range = false;
            target.target_id = None;
            None
        },
    }
}

} // verus!
