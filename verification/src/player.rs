use vstd::prelude::*;
use crate::components::{Interactable, InteractionTarget, InteractionType, Person};
use crate::geometry::Point;
use crate::gui::{hint_updated, update_hint, ChoiceUI, InteractionHintUI, PopUpUI, TextLabel};
use crate::targeting::{index_of, recompute_target, retarget, target_change};

verus! {

/// What one act of work costs in sanity, and one act of damage in health.
pub const VITALITY_COST: i32 = 10;

/// Offset of the choice menu from the object it belongs to, along x.
pub const CHOICE_OFFSET_X: i32 = 50;

/// Offset of the choice menu from the object it belongs to, along y.
pub const CHOICE_OFFSET_Y: i32 = -50;

/// The action key, remembered from tick to tick so that a press is seen
/// once however long the key is held.
#[derive(Clone, Copy, Debug, PartialEq, Eq, Structural)]
pub struct ActionButton {
    pub held: bool,
}

impl ActionButton {
    /// A key that is up.
    pub fn new() -> (b: ActionButton)
        ensures
            !b.held,
    {
        ActionButton { held: false }
    }

    /// Takes the key's level in this tick and tells whether it went down in
    /// this tick.
    pub fn update(&mut self, down: bool) -> (just_pressed: bool)
        ensures
            just_pressed == (down && !old(self).held),
            final(self).held == down,
    {
        let just_pressed = down && !self.held;
        self.held = down;
        just_pressed
    }
}

/// The name of the object that became the target, where one did.
pub open spec fn acquired_name(items: Seq<Interactable>, changed: Option<int>) -> Option<
    Seq<char>,
> {
    match changed {
        Some(i) => Some(items[i].name@),
        None => None,
    }
}

/// Recomputes the target for the player at `agent` and brings the
/// interaction hint in line with it.
///
/// Returns the index of the object that became the target, if one did.
pub fn player_check_collision(
    agent: &Point,
    interactables: &Vec<Interactable>,
    target: &mut InteractionTarget,
    hint: &InteractionHintUI,
    label: &mut TextLabel,
) -> (changed: Option<usize>)
    ensures
        *final(target) == retarget(*old(target), *agent, interactables@),
        index_of(changed) == target_change(*old(target), *agent, interactables@),
        final(target).wf(),
        hint_updated(
            *old(label),
            *final(label),
            hint.text@,
            final(target).in_range,
            acquired_name(interactables@, index_of(changed)),
        ),
        old(target).wf() && old(label).visible == old(target).in_range ==> final(label).visible
            == final(target).in_range,
{
    let changed = recompute_target(target, agent, interactables);
    match changed {
        Some(i) => {
            update_hint(label, hint, target.in_range, Some(interactables[i].name.as_str()));
        },
        None => {
            update_hint(label, hint, target.in_range, None);
        },
    }
    changed
}

/// Whether an action is carried out on a target of the given kind: the
/// action key went down in this tick and such a target is in range.
pub open spec fn acts_on(just_pressed: bool, target: InteractionTarget, kind: InteractionType)
    -> bool {
    just_pressed && target.in_range && target.kind == kind
}

/// The player after the action: work costs sanity, damage costs health,
/// neither is held above any floor, and nothing else touches the player.
pub open spec fn person_after(person: Person, just_pressed: bool, target: InteractionTarget)
    -> Person {
    if acts_on(just_pressed, target, InteractionType::Work) {
        Person { san: (person.san - VITALITY_COST) as i32, ..person }
    } else if acts_on(just_pressed, target, InteractionType::Damage) {
        Person { hp: (person.hp - VITALITY_COST) as i32, ..person }
    } else {
        person
    }
}

/// Where the choice menu opens for a target.
pub open spec fn menu_position(target: InteractionTarget) -> (int, int) {
    (target.position.x + CHOICE_OFFSET_X, target.position.y + CHOICE_OFFSET_Y)
}

/// The choice menu after the action: acting on a colleague opens it beside
/// them; nothing else touches it.
pub open spec fn choice_after(choice: ChoiceUI, just_pressed: bool, target: InteractionTarget)
    -> ChoiceUI {
    if acts_on(just_pressed, target, InteractionType::SalaryMan) {
        ChoiceUI {
            is_visible: true,
            position: Point {
                x: menu_position(target).0 as i32,
                y: menu_position(target).1 as i32,
            },
            ..choice
        }
    } else {
        choice
    }
}

/// Whether the action can be carried out within the limits of `i32`.
pub open spec fn action_fits(person: Person, just_pressed: bool, target: InteractionTarget)
    -> bool {
    &&& acts_on(just_pressed, target, InteractionType::Work) ==> person.san - VITALITY_COST
        >= i32::MIN
    &&& acts_on(just_pressed, target, InteractionType::Damage) ==> person.hp - VITALITY_COST
        >= i32::MIN
    &&& acts_on(just_pressed, target, InteractionType::SalaryMan) ==> menu_position(target).0
        <= i32::MAX && menu_position(target).1 >= i32::MIN
}

/// Decides `action_fits`.
pub fn can_interact(person: &Person, just_pressed: bool, target: &InteractionTarget) -> (ok: bool)
    ensures
        ok == action_fits(*person, just_pressed, *target),
{
    if !just_pressed || !target.in_range {
        return true;
    }
    match target.kind {
        InteractionType::Invalid => true,
        InteractionType::Work => person.san >= i32::MIN + VITALITY_COST,
        InteractionType::Damage => person.hp >= i32::MIN + VITALITY_COST,
        InteractionType::SalaryMan => target.position.x <= i32::MAX - CHOICE_OFFSET_X
            && target.position.y >= i32::MIN - CHOICE_OFFSET_Y,
    }
}

/// Applies the player's action to the target.
///
/// Nothing happens unless the action key went down in this tick and a
/// target is in range. Then the target's kind decides: work costs sanity,
/// damage costs health, and a colleague opens the choice menu beside them.
pub fn interact(
    just_pressed: bool,
    target: &InteractionTarget,
    person: &mut Person,
    choice_ui: &mut ChoiceUI,
)
    requires
        action_fits(*old(person), just_pressed, *target),
    ensures
        *final(person) == person_after(*old(person), just_pressed, *target),
        *final(choice_ui) == choice_after(*old(choice_ui), just_pressed, *target),
{
    if just_pressed && target.in_range {
        match target.kind {
            InteractionType::Invalid => {},
            InteractionType::Work => {
                person.san = person.san - VITALITY_COST;
            },
            InteractionType::Damage => {
                person.hp = person.hp - VITALITY_COST;
            },
            InteractionType::SalaryMan => {
                choice_ui.is_visible = true;
                choice_ui.position = Point {
                    x: target.position.x + CHOICE_OFFSET_X,
                    y: target.position.y + CHOICE_OFFSET_Y,
                };
            },
        }
    }
}

/// One step along an axis for a pair of opposed keys.
pub open spec fn axis(forward: bool, backward: bool) -> int {
    (if forward { 1int } else { 0int }) - (if backward { 1int } else { 0int })
}

/// The direction in which the held movement keys push the player, one step
/// per axis: x grows to the right and y grows upwards.
pub fn movement_direction(up: bool, left: bool, down: bool, right: bool) -> (d: (i32, i32))
    ensures
        d.0 == axis(right, left),
        d.1 == axis(up, down),
{
    let mut x: i32 = 0;
    let mut y: i32 = 0;
    if up {
        y = y + 1;
    }
    if left {
        x = x - 1;
    }
    if down {
        y = y - 1;
    }
    if right {
        x = x + 1;
    }
    (x, y)
}

/// Marks a person as dead once health or sanity is used up. Death is final.
pub fn update_people(person: &mut Person)
    ensures
        *final(person) == (Person {
            is_dead: old(person).is_dead || old(person).hp <= 0 || old(person).san <= 0,
            ..*old(person)
        }),
{
    if person.hp <= 0 || person.san <= 0 {
        person.is_dead = true;
    }
}

/// Raises the death message once the player is dead: a hidden message is
/// shown with the pop-up's text; in every other case it is left alone.
pub fn dead_player(person: &Person, pop_up: &PopUpUI, label: &mut TextLabel)
    ensures
        person.is_dead && !old(label).visible ==> final(label).visible && final(label).value
            == pop_up.text,
        !(person.is_dead && !old(label).visible) ==> *final(label) == *old(label),
{
    if person.is_dead && !label.visible {
        label.visible = true;
        label.value = pop_up.text.clone();
    }
}

} // verus!
