use vstd::prelude::*;
use bevy::ecs::entity::Entity;
use crate::geometry::{Point, Rect};

verus! {

/// The player-controlled character: movement speed in world units per second,
/// health, sanity and the death flag.
#[derive(Clone, Copy, Debug, PartialEq, Eq, Structural)]
pub struct Person {
    pub speed: i32,
    pub hp: i32,
    pub san: i32,
    pub is_dead: bool,
}

impl Default for Person {
    fn default() -> (p: Person)
        ensures
            p == (Person { speed: 200, hp: 100, san: 100, is_dead: false }),
    {
        Person { speed: 200, hp: 100, san: 100, is_dead: false }
    }
}

/// What acting on an object does.
#[derive(Clone, Copy, Debug, PartialEq, Eq, Hash, Structural)]
pub enum InteractionType {
    /// Nothing happens.
    Invalid,
    /// Costs sanity.
    Work,
    /// Costs health.
    Damage,
    /// Opens the choice menu beside the object.
    SalaryMan,
}

/// A static world object that the player can act on.
#[derive(Debug)]
pub struct Interactable {
    pub id: Entity,
    pub position: Point,
    pub interaction_type: InteractionType,
    pub name: String,
}

impl Interactable {
    pub fn new(id: Entity, position: Point, interaction_type: InteractionType, name: &str) -> (r:
        Interactable)
        ensures
            r.id == id,
            r.position == position,
            r.interaction_type == interaction_type,
            r.name@ == name@,
    {
        Interactable { id, position, interaction_type, name: name.to_owned() }
    }
}

/// The object the player can currently act on, if any.
///
/// `position` and `kind` are a snapshot taken when `target_id` was last
/// assigned; they are kept when the target is lost.
#[derive(Clone, Copy, Debug, PartialEq, Eq)]
pub struct InteractionTarget {
    pub in_range: bool,
    pub target_id: Option<Entity>,
    pub position: Point,
    pub kind: InteractionType,
}

impl InteractionTarget {
    /// A target is named exactly when one is in range.
    pub open spec fn wf(self) -> bool {
        self.in_range <==> self.target_id is Some
    }

    /// The state before the first tick: nothing in range.
    pub open spec fn new_spec() -> InteractionTarget {
        InteractionTarget {
            in_range: false,
            target_id: None,
            position: Point { x: 0, y: 0 },
            kind: InteractionType::Invalid,
        }
    }

    /// The state before the first tick: nothing in range.
    pub fn new() -> (t: InteractionTarget)
        ensures
            t == Self::new_spec(),
            t.wf(),
    {
        InteractionTarget {
            in_range: false,
            target_id: None,
            position: Point { x: 0, y: 0 },
            kind: InteractionType::Invalid,
        }
    }
}

/// Something the pointer can hover: a name to show and the rectangle that
/// catches the pointer.
#[derive(Debug)]
pub struct MouseSelectable {
    pub display_name: String,
    pub select_rect: Rect,
}

impl Default for MouseSelectable {
    fn default() -> (s: MouseSelectable)
        ensures
            s.display_name@ == Seq::<char>::empty(),
            s.select_rect == (Rect { min: Point { x: 0, y: 0 }, max: Point { x: 0, y: 0 } }),
    {
        MouseSelectable {
            display_name: String::new(),
            select_rect: Rect { min: Point { x: 0, y: 0 }, max: Point { x: 0, y: 0 } },
        }
    }
}

impl MouseSelectable {
    pub fn new(display_name: &str, select_rect: Rect) -> (s: MouseSelectable)
        ensures
            s.display_name@ == display_name@,
            s.select_rect == select_rect,
    {
        MouseSelectable { display_name: display_name.to_owned(), select_rect }
    }

    /// A copy of this selectable.
    pub fn snapshot(&self) -> (s: MouseSelectable)
        ensures
            s == *self,
    {
        MouseSelectable { display_name: self.display_name.clone(), select_rect: self.select_rect }
    }
}

/// A selectable placed in the world.
#[derive(Debug)]
pub struct SelectableRegion {
    pub id: Entity,
    pub position: Point,
    pub selectable: MouseSelectable,
}

/// The selectable under the pointer, if any.
#[derive(Debug)]
pub struct CurrentHovered {
    pub selectable: Option<MouseSelectable>,
}

/// Where the pointer is: in window coordinates and in world coordinates.
#[derive(Clone, Copy, Debug, PartialEq, Eq, Structural)]
pub struct MouseInput {
    pub camera_position: Point,
    pub world_position: Point,
}

impl Default for MouseInput {
    fn default() -> (m: MouseInput)
        ensures
            m == (MouseInput {
                camera_position: Point { x: 0, y: 0 },
                world_position: Point { x: 0, y: 0 },
            }),
    {
        MouseInput {
            camera_position: Point { x: 0, y: 0 },
            world_position: Point { x: 0, y: 0 },
        }
    }
}

/// The highlight drawn over the hovered selectable. Its scale is held in
/// tenths: the highlight is drawn at one tenth of the rectangle's extents.
#[derive(Clone, Copy, Debug, PartialEq, Eq, Structural)]
pub struct MouseHoverHint {
    pub visible: bool,
    pub position: Point,
    pub scale_x_tenths: i64,
    pub scale_y_tenths: i64,
}

} // verus!
