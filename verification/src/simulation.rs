use vstd::prelude::*;
use crate::components::{
    CurrentHovered, Interactable, InteractionTarget, InteractionType, MouseHoverHint, MouseInput,
    Person, SelectableRegion,
};
use crate::geometry::Point;
use crate::gui::{
    hint_updated, layout_fits, layout_fits_at, update_choice_ui, update_hint, ChoiceItem,
    ChoiceUI, InteractionHintUI, TextLabel,
};
use crate::mouse_event::{
    first_hit, highlight_for, listen_mouse_input, pick_region, pointer_after, recompute_hover,
    region_at, selectable_at, set_hovered, update_highlight,
};
use crate::player::{
    acquired_name, action_fits, can_interact, choice_after, interact, person_after,
    CHOICE_OFFSET_X, CHOICE_OFFSET_Y,
};
use crate::targeting::{index_of, recompute_target, retarget, target_change};

verus! {

/// Everything the library keeps from one tick to the next.
#[derive(Debug)]
pub struct World {
    pub player: Person,
    pub target: InteractionTarget,
    pub mouse: MouseInput,
    pub current_hovered: CurrentHovered,
    pub hover_hint: MouseHoverHint,
    pub hint: InteractionHintUI,
    pub hint_label: TextLabel,
    pub choice_ui: ChoiceUI,
    pub choice_items: Vec<ChoiceItem>,
}

/// What the outside world hands to one tick: where the player stands after
/// moving, what the pointing device reported, and whether the action key
/// went down in this tick.
#[derive(Clone, Copy, Debug, PartialEq, Eq)]
pub struct TickInput {
    pub agent: Point,
    pub cursor: Option<Point>,
    pub cursor_world: Option<Point>,
    pub action_just_pressed: bool,
}

/// What one tick found: the index of the object that became the target, if
/// one did, and the index of the hovered region, if one is hovered.
#[derive(Clone, Copy, Debug, PartialEq, Eq)]
pub struct TickReport {
    pub target_changed: Option<usize>,
    pub hovered: Option<usize>,
}

impl World {
    /// A world before its first tick: nothing targeted, nothing hovered, the
    /// hint hidden and the menu closed.
    pub fn new(
        player: Person,
        hint: InteractionHintUI,
        choice_ui: ChoiceUI,
        choice_items: Vec<ChoiceItem>,
    ) -> (w: World)
        ensures
            w.player == player,
            w.hint == hint,
            w.choice_ui == choice_ui,
            w.choice_items == choice_items,
            w.target == InteractionTarget::new_spec(),
            w.mouse == (MouseInput {
                camera_position: Point { x: 0, y: 0 },
                world_position: Point { x: 0, y: 0 },
            }),
            w.current_hovered.selectable is None,
            !w.hover_hint.visible,
            !w.hint_label.visible,
            w.hint_label.value@ == Seq::<char>::empty(),
            w.wf(),
    {
        World {
            player,
            target: InteractionTarget::new(),
            mouse: MouseInput::default(),
            current_hovered: CurrentHovered { selectable: None },
            hover_hint: MouseHoverHint {
                visible: false,
                position: Point { x: 0, y: 0 },
                scale_x_tenths: 0,
                scale_y_tenths: 0,
            },
            hint,
            hint_label: TextLabel::new(),
            choice_ui,
            choice_items,
        }
    }

    /// What holds of the world between ticks: the target names an object
    /// exactly when one is in range, the interaction hint is shown exactly
    /// when one is in range, and the hover highlight is shown exactly when a
    /// region is hovered.
    pub open spec fn wf(self) -> bool {
        &&& self.target.wf()
        &&& self.hint_label.visible == self.target.in_range
        &&& self.hover_hint.visible == (self.current_hovered.selectable is Some)
    }

    /// The target that a tick with `input` computes.
    pub open spec fn next_target(self, input: TickInput, items: Seq<Interactable>)
        -> InteractionTarget {
        retarget(self.target, input.agent, items)
    }

    /// The choice menu as a tick with `input` leaves it.
    pub open spec fn next_choice_ui(self, input: TickInput, items: Seq<Interactable>) -> ChoiceUI {
        choice_after(self.choice_ui, input.action_just_pressed, self.next_target(input, items))
    }

    /// Whether a tick with `input` stays within the limits of `i32`: the
    /// action, if one is carried out, and the places of the menu's lines, if
    /// the menu is open after it.
    pub open spec fn tick_fits(self, input: TickInput, items: Seq<Interactable>) -> bool {
        &&& action_fits(self.player, input.action_just_pressed, self.next_target(input, items))
        &&& self.next_choice_ui(input, items).is_visible ==> layout_fits(
            self.next_choice_ui(input, items).position,
            self.choice_ui.choices.len() as int,
            self.choice_items@,
        )
    }

    /// Decides `tick_fits`.
    pub fn can_tick(&self, input: &TickInput, interactables: &Vec<Interactable>) -> (ok: bool)
        ensures
            ok == self.tick_fits(*input, interactables@),
    {
        let mut target = self.target;
        let _ = recompute_target(&mut target, &input.agent, interactables);
        if !can_interact(&self.player, input.action_just_pressed, &target) {
            return false;
        }
        let opens = input.action_just_pressed && target.in_range && matches!(
            target.kind,
            InteractionType::SalaryMan
        );
        if opens {
            let menu = Point {
                x: target.position.x + CHOICE_OFFSET_X,
                y: target.position.y + CHOICE_OFFSET_Y,
            };
            layout_fits_at(&menu, self.choice_ui.choices.len(), &self.choice_items)
        } else if self.choice_ui.is_visible {
            layout_fits_at(
                &self.choice_ui.position,
                self.choice_ui.choices.len(),
                &self.choice_items,
            )
        } else {
            true
        }
    }

    /// Runs one tick, in this order: the target is recomputed for the
    /// player's new position; the pointer is taken in and the hovered region
    /// found; the player's action is applied to the fresh target; then the
    /// interaction hint, the hover highlight and the lines of the choice menu
    /// are brought in line with what the tick computed.
    pub fn tick(
        &mut self,
        input: &TickInput,
        interactables: &Vec<Interactable>,
        selectables: &Vec<SelectableRegion>,
    ) -> (report: TickReport)
        requires
            old(self).tick_fits(*input, interactables@),
        ensures
            old(self).wf() ==> final(self).wf(),
            final(self).target == old(self).next_target(*input, interactables@),
            index_of(report.target_changed) == target_change(
                old(self).target,
                input.agent,
                interactables@,
            ),
            final(self).mouse == pointer_after(old(self).mouse, input.cursor, input.cursor_world),
            index_of(report.hovered) == first_hit(final(self).mouse.world_position, selectables@),
            final(self).current_hovered.selectable == selectable_at(
                selectables@,
                index_of(report.hovered),
            ),
            final(self).player == person_after(
                old(self).player,
                input.action_just_pressed,
                final(self).target,
            ),
            final(self).choice_ui == old(self).next_choice_ui(*input, interactables@),
            final(self).hint == old(self).hint,
            hint_updated(
                old(self).hint_label,
                final(self).hint_label,
                old(self).hint.text@,
                final(self).target.in_range,
                acquired_name(interactables@, index_of(report.target_changed)),
            ),
            final(self).hover_hint == highlight_for(
                old(self).hover_hint,
                region_at(selectables@, index_of(report.hovered)),
            ),
            final(self).choice_items.len() == old(self).choice_items.len(),
            !final(self).choice_ui.is_visible ==> final(self).choice_items@ == old(
                self,
            ).choice_items@,
            final(self).choice_ui.is_visible ==> forall|k: int|
                0 <= k < old(self).choice_items.len() ==> final(self).choice_ui.places(
                    old(self).choice_items@[k],
                    #[trigger] final(self).choice_items@[k],
                ),
    {
        let target_changed = recompute_target(&mut self.target, &input.agent, interactables);

        listen_mouse_input(&mut self.mouse, input.cursor, input.cursor_world);
        let hovered = recompute_hover(&self.mouse.world_position, selectables);
        let region = pick_region(selectables, hovered);
        set_hovered(&mut self.current_hovered, region);

        interact(input.action_just_pressed, &self.target, &mut self.player, &mut self.choice_ui);

        match target_changed {
            Some(i) => {
                update_hint(
                    &mut self.hint_label,
                    &self.hint,
                    self.target.in_range,
                    Some(interactables[i].name.as_str()),
                );
            },
            None => {
                update_hint(&mut self.hint_label, &self.hint, self.target.in_range, None);
            },
        }
        update_highlight(&mut self.hover_hint, region);
        update_choice_ui(&self.choice_ui, &mut self.choice_items);

        TickReport { target_changed, hovered }
    }
}

} // verus!
