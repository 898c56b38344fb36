use vstd::prelude::*;
use crate::components::{Interactable, InteractionTarget, Person};
use crate::gui::{hint_updated, ChoiceUI, TextLabel};
use crate::player::{acquired_name, choice_after, person_after};
use crate::geometry::{pointer_hits, Point, Rect, SELECT_SCALE};
use crate::targeting::{
    closest_in_reach, is_closest_in_reach, lemma_closest_is, lemma_closest_none, none_in_reach,
    retarget, target_change,
};

verus! {

/// With no object within reach of the player, the target is out of range and
/// names no object, whatever it was before, and no new target is announced.
pub proof fn law_nothing_in_reach(prev: InteractionTarget, agent: Point, items: Seq<Interactable>)
    requires
        none_in_reach(agent, items),
    ensures
        !retarget(prev, agent, items).in_range,
        retarget(prev, agent, items).target_id is None,
        target_change(prev, agent, items) is None,
{
    lemma_closest_none(agent, items);
}

/// With exactly one object within reach, that object is the target, however
/// many objects lie farther away and wherever they stand in the scan. Its
/// position and kind are recorded unless it was the target already.
pub proof fn law_single_in_reach(
    prev: InteractionTarget,
    agent: Point,
    items: Seq<Interactable>,
    k: int,
)
    requires
        0 <= k < items.len(),
        agent.within_reach(items[k].position),
        forall|j: int|
            0 <= j < items.len() && j != k ==> !agent.within_reach(#[trigger] items[j].position),
    ensures
        closest_in_reach(agent, items) == Some(k),
        retarget(prev, agent, items).in_range,
        retarget(prev, agent, items).target_id == Some(items[k].id),
        prev.target_id != Some(items[k].id) ==> retarget(prev, agent, items).position
            == items[k].position && retarget(prev, agent, items).kind
            == items[k].interaction_type,
{
    assert(is_closest_in_reach(agent, items, k)) by {
        assert forall|j: int| 0 <= j < items.len() implies agent.distance_squared(
            items[k].position,
        ) <= agent.distance_squared(#[trigger] items[j].position) by {
            if j != k {
                assert(!agent.within_reach(items[j].position));
            }
        }
        assert forall|j: int| 0 <= j < k implies agent.distance_squared(items[k].position)
            < agent.distance_squared(#[trigger] items[j].position) by {
            assert(!agent.within_reach(items[j].position));
        }
    }
    lemma_closest_is(agent, items, k);
}

/// Recomputing the target a second time from the same position and the same
/// objects changes nothing and announces no new target.
pub proof fn law_retarget_idempotent(
    prev: InteractionTarget,
    agent: Point,
    items: Seq<Interactable>,
)
    ensures
        retarget(retarget(prev, agent, items), agent, items) == retarget(prev, agent, items),
        target_change(retarget(prev, agent, items), agent, items) is None,
{
}

/// The target that a tick computes names an object exactly when one is in
/// range.
pub proof fn law_retarget_wf(prev: InteractionTarget, agent: Point, items: Seq<Interactable>)
    ensures
        retarget(prev, agent, items).wf(),
{
}

/// The interaction hint follows the target: if it was shown exactly while a
/// target was in range before a tick, it is shown exactly while one is in
/// range after it.
pub proof fn law_hint_tracks_target(
    prev: InteractionTarget,
    agent: Point,
    items: Seq<Interactable>,
    before: TextLabel,
    after: TextLabel,
    template: Seq<char>,
)
    requires
        prev.wf(),
        before.visible == prev.in_range,
        hint_updated(
            before,
            after,
            template,
            retarget(prev, agent, items).in_range,
            acquired_name(items, target_change(prev, agent, items)),
        ),
    ensures
        after.visible == retarget(prev, agent, items).in_range,
{
}

/// A key that is held acts once: in a tick in which the action key did not
/// go down, the player and the choice menu stay as they were.
pub proof fn law_no_press_no_effect(person: Person, choice: ChoiceUI, target: InteractionTarget)
    ensures
        person_after(person, false, target) == person,
        choice_after(choice, false, target) == choice,
{
}

/// A pointer at the centre of a region's magnified rectangle hovers the
/// region, provided the rectangle has an interior.
pub proof fn law_center_is_hit(world: Point, origin: Point, rect: Rect)
    requires
        rect.has_interior(),
        2 * (world.x - origin.x) == (rect.min.x + rect.max.x) * SELECT_SCALE,
        2 * (world.y - origin.y) == (rect.min.y + rect.max.y) * SELECT_SCALE,
    ensures
        pointer_hits(world, origin, rect),
{
}

/// A pointer on an edge of a region's magnified rectangle, or on the line
/// through one, does not hover the region.
pub proof fn law_edge_is_not_hit(world: Point, origin: Point, rect: Rect)
    requires
        world.x - origin.x == rect.min.x * SELECT_SCALE || world.x - origin.x == rect.max.x
            * SELECT_SCALE || world.y - origin.y == rect.min.y * SELECT_SCALE || world.y
            - origin.y == rect.max.y * SELECT_SCALE,
    ensures
        !pointer_hits(world, origin, rect),
{
}

/// A rectangle without an interior is hovered from nowhere.
pub proof fn law_empty_rect_never_hit(world: Point, origin: Point, rect: Rect)
    requires
        !rect.has_interior(),
    ensures
        !pointer_hits(world, origin, rect),
{
}

} // verus!
