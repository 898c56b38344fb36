use vstd::prelude::*;
use vstd::string::StringExecFns;
use crate::geometry::Point;

verus! {

/// Horizontal offset of every choice line from the menu.
pub const CHOICE_ITEM_OFFSET_X: i32 = 80;

/// Vertical offset of the first choice line from the menu.
pub const CHOICE_ITEM_OFFSET_Y: i32 = -50;

/// Distance between one choice line and the next.
pub const CHOICE_ITEM_SPACING: i32 = 30;

/// Coordinate, on both axes, at which unused choice lines are parked.
pub const PARKED: i32 = 10000;

/// A piece of text on screen: whether it is shown and what it says.
#[derive(Debug)]
pub struct TextLabel {
    pub visible: bool,
    pub value: String,
}

/// The hint that tells the player an object can be acted on; `text` is the
/// fixed part, to which the object's name is added.
#[derive(Debug)]
pub struct InteractionHintUI {
    pub text: String,
}

/// The message shown when the player has died.
#[derive(Debug)]
pub struct PopUpUI {
    pub text: String,
}

/// The choice menu: its lines, whether it is open and where it stands.
#[derive(Debug)]
pub struct ChoiceUI {
    pub choices: Vec<String>,
    pub is_visible: bool,
    pub position: Point,
}

/// One line of the choice menu; line `index` shows choice `index`.
#[derive(Debug)]
pub struct ChoiceItem {
    pub index: usize,
    pub visible: bool,
    pub text: String,
    pub position: Point,
}

impl TextLabel {
    /// A hidden label without text.
    pub fn new() -> (l: TextLabel)
        ensures
            !l.visible,
            l.value@ == Seq::<char>::empty(),
    {
        TextLabel { visible: false, value: String::new() }
    }
}

impl InteractionHintUI {
    pub fn new(text: &str) -> (h: InteractionHintUI)
        ensures
            h.text@ == text@,
    {
        InteractionHintUI { text: text.to_owned() }
    }
}

impl PopUpUI {
    pub fn new(text: &str) -> (p: PopUpUI)
        ensures
            p.text@ == text@,
    {
        PopUpUI { text: text.to_owned() }
    }
}

/// Where line `index` of a menu at `menu` stands.
pub open spec fn item_position(menu: Point, index: int) -> (int, int) {
    (menu.x + CHOICE_ITEM_OFFSET_X, menu.y + CHOICE_ITEM_OFFSET_Y - index * CHOICE_ITEM_SPACING)
}

/// Whether the place of line `index` of a menu at `menu` can be held in a
/// `Point`.
pub open spec fn item_fits(menu: Point, index: int) -> bool {
    &&& item_position(menu, index).0 <= i32::MAX
    &&& item_position(menu, index).1 >= i32::MIN
}

/// Whether, for a menu at `menu` with `choices` lines to show, every line
/// of `items` that shows a choice has a place that can be held in a `Point`.
pub open spec fn layout_fits(menu: Point, choices: int, items: Seq<ChoiceItem>) -> bool {
    forall|k: int|
        0 <= k < items.len() && (#[trigger] items[k]).index < choices ==> item_fits(
            menu,
            items[k].index as int,
        )
}

/// Decides `item_fits`.
pub fn item_fits_at(menu: &Point, index: usize) -> (ok: bool)
    ensures
        ok == item_fits(*menu, index as int),
{
    let drop: i128 = index as i128 * CHOICE_ITEM_SPACING as i128;
    let x: i128 = menu.x as i128 + CHOICE_ITEM_OFFSET_X as i128;
    let y: i128 = menu.y as i128 + CHOICE_ITEM_OFFSET_Y as i128 - drop;
    x <= i32::MAX as i128 && y >= i32::MIN as i128
}

/// Decides `layout_fits`.
pub fn layout_fits_at(menu: &Point, choices: usize, items: &Vec<ChoiceItem>) -> (ok: bool)
    ensures
        ok == layout_fits(*menu, choices as int, items@),
{
    let mut k: usize = 0;
    while k < items.len()
        invariant
            k <= items.len(),
            forall|j: int|
                0 <= j < k && (#[trigger] items@[j]).index < choices ==> item_fits(
                    *menu,
                    items@[j].index as int,
                ),
        decreases items.len() - k,
    {
        if items[k].index < choices && !item_fits_at(menu, items[k].index) {
            return false;
        }
        k += 1;
    }
    true
}

impl ChoiceUI {
    /// A closed menu at the origin with the given lines.
    pub fn new(choices: Vec<String>) -> (c: ChoiceUI)
        ensures
            c.choices == choices,
            !c.is_visible,
            c.position == (Point { x: 0, y: 0 }),
    {
        ChoiceUI { choices, is_visible: false, position: Point { x: 0, y: 0 } }
    }

    /// What an open menu makes of one line: a line whose index names a
    /// choice shows it at its place; any other is hidden and parked, with its
    /// text left as it was.
    pub open spec fn places(self, before: ChoiceItem, after: ChoiceItem) -> bool {
        &&& after.index == before.index
        &&& if before.index < self.choices.len() {
            &&& after.visible
            &&& after.text@ == self.choices[before.index as int]@
            &&& after.position.x == item_position(self.position, before.index as int).0
            &&& after.position.y == item_position(self.position, before.index as int).1
        } else {
            &&& !after.visible
            &&& after.text == before.text
            &&& after.position == (Point { x: PARKED, y: PARKED })
        }
    }
}

impl ChoiceItem {
    /// A hidden, parked line without text.
    pub fn new(index: usize) -> (item: ChoiceItem)
        ensures
            item.index == index,
            !item.visible,
            item.text@ == Seq::<char>::empty(),
            item.position == (Point { x: PARKED, y: PARKED }),
    {
        ChoiceItem {
            index,
            visible: false,
            text: String::new(),
            position: Point { x: PARKED, y: PARKED },
        }
    }
}

/// The hint for an object called `name`: the fixed part, a space, and the
/// name in round brackets.
pub open spec fn hint_text(template: Seq<char>, name: Seq<char>) -> Seq<char> {
    template + seq![' ', '('] + name + seq![')']
}

/// Builds `hint_text`.
pub fn compose_hint(template: &str, name: &str) -> (s: String)
    ensures
        s@ == hint_text(template@, name@),
{
    let mut s = template.to_owned();
    s.append(" (");
    s.append(name);
    s.append(")");
    proof {
        reveal_strlit(" (");
        reveal_strlit(")");
        assert(" ("@ =~= seq![' ', '(']);
        assert(")"@ =~= seq![')']);
    }
    s
}

/// What a tick makes of the interaction hint.
///
/// While an object is in range the hint changes only when a new target was
/// acquired: it is then shown with the text for that object. With nothing in
/// range it is hidden and keeps its text.
pub open spec fn hint_updated(
    before: TextLabel,
    after: TextLabel,
    template: Seq<char>,
    in_range: bool,
    acquired: Option<Seq<char>>,
) -> bool {
    if in_range {
        match acquired {
            Some(name) => after.visible && after.value@ == hint_text(template, name),
            None => after == before,
        }
    } else {
        !after.visible && after.value == before.value
    }
}

/// The name carried by an optional string slice.
pub open spec fn name_of(name: Option<&str>) -> Option<Seq<char>> {
    match name {
        Some(n) => Some(n@),
        None => None,
    }
}

/// Shows, rewrites or hides the interaction hint after the target was
/// recomputed. `acquired` is the name of the object that became the target
/// in this tick, if one did.
pub fn update_hint(
    label: &mut TextLabel,
    hint: &InteractionHintUI,
    in_range: bool,
    acquired: Option<&str>,
)
    ensures
        hint_updated(*old(label), *final(label), hint.text@, in_range, name_of(acquired)),
{
    if in_range {
        match acquired {
            Some(name) => {
                label.visible = true;
                label.value = compose_hint(hint.text.as_str(), name);
            },
            None => {},
        }
    } else {
        label.visible = false;
    }
}

/// Lays out one line of an open menu.
pub fn place_choice_item(choice: &ChoiceUI, item: &mut ChoiceItem)
    requires
        old(item).index < choice.choices.len() ==> item_fits(choice.position, old(item).index as int),
    ensures
        choice.places(*old(item), *final(item)),
{
    if item.index >= choice.choices.len() {
        item.visible = false;
        item.position = Point { x: PARKED, y: PARKED };
    } else {
        let drop: i128 = item.index as i128 * CHOICE_ITEM_SPACING as i128;
        let x: i128 = choice.position.x as i128 + CHOICE_ITEM_OFFSET_X as i128;
        let y: i128 = choice.position.y as i128 + CHOICE_ITEM_OFFSET_Y as i128 - drop;
        item.text = choice.choices[item.index].clone();
        item.visible = true;
        item.position = Point { x: x as i32, y: y as i32 };
    }
}

/// Lays out the lines of the choice menu. A closed menu leaves them alone.
pub fn update_choice_ui(choice: &ChoiceUI, items: &mut Vec<ChoiceItem>)
    requires
        choice.is_visible ==> layout_fits(choice.position, choice.choices.len() as int, old(items)@),
    ensures
        final(items).len() == old(items).len(),
        !choice.is_visible ==> final(items)@ == old(items)@,
        choice.is_visible ==> forall|k: int|
            0 <= k < old(items).len() ==> choice.places(old(items)@[k], #[trigger] final(items)@[k]),
{
    if !choice.is_visible {
        return ;
    }
    let ghost before = items@;
    let mut i: usize = 0;
    while i < items.len()
        invariant
            i <= items.len(),
            items.len() == before.len(),
            layout_fits(choice.position, choice.choices.len() as int, before),
            forall|k: int| 0 <= k < i ==> choice.places(before[k], #[trigger] items@[k]),
            forall|k: int| i <= k < items.len() ==> items@[k] == before[k],
        decreases items.len() - i,
    {
        assert(items@[i as int] == before[i as int]);
        place_choice_item(choice, &mut items[i]);
        i += 1;
    }
}

} // verus!
