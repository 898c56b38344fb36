use bevy::ecs::entity::Entity;
use salaryman_simulator::components::{Interactable, InteractionTarget, InteractionType, Person};
use salaryman_simulator::geometry::Point;
use salaryman_simulator::gui::{ChoiceUI, InteractionHintUI, TextLabel};
use salaryman_simulator::player::{
    can_interact, interact, player_check_collision, ActionButton,
};
use salaryman_simulator::targeting::{find_closest, recompute_target};

fn desk() -> Interactable {
    Interactable::new(Entity::from_raw(7), Point::new(0, -200), InteractionType::Work, "Desk")
}

fn object(index: u32, x: i32, y: i32, kind: InteractionType, name: &str) -> Interactable {
    Interactable::new(Entity::from_raw(index), Point::new(x, y), kind, name)
}

#[test]
fn far_desk_is_out_of_range_and_hint_stays_hidden() {
    let items = vec![desk()];
    let mut target = InteractionTarget::new();
    let hint = InteractionHintUI::new("[E]");
    let mut label = TextLabel::new();
    let changed =
        player_check_collision(&Point::new(0, 0), &items, &mut target, &hint, &mut label);
    assert_eq!(changed, None);
    assert!(!target.in_range);
    assert_eq!(target.target_id, None);
    assert!(!label.visible);
    assert_eq!(label.value, "");
}

#[test]
fn near_desk_is_targeted_and_one_press_costs_ten_sanity() {
    let items = vec![desk()];
    let mut target = InteractionTarget::new();
    let hint = InteractionHintUI::new("[E]");
    let mut label = TextLabel::new();
    let mut person = Person::default();
    let mut menu = ChoiceUI::new(vec![]);
    let mut button = ActionButton::new();
    let agent = Point::new(0, -150);

    let held = [false, true, true, true, true, false];
    for (tick, down) in held.into_iter().enumerate() {
        let changed = player_check_collision(&agent, &items, &mut target, &hint, &mut label);
        assert_eq!(changed, if tick == 0 { Some(0) } else { None });
        assert!(target.in_range);
        assert_eq!(target.target_id, Some(Entity::from_raw(7)));
        assert_eq!(target.kind, InteractionType::Work);
        assert_eq!(target.position, Point::new(0, -200));
        let just_pressed = button.update(down);
        assert!(can_interact(&person, just_pressed, &target));
        interact(just_pressed, &target, &mut person, &mut menu);
    }
    assert_eq!(person.san, 90);
    assert_eq!(person.hp, 100);
    assert!(!menu.is_visible);
    assert!(label.visible);
    assert_eq!(label.value, "[E] (Desk)");
}

#[test]
fn a_second_press_costs_ten_more() {
    let target = InteractionTarget {
        in_range: true,
        target_id: Some(Entity::from_raw(1)),
        position: Point::new(0, 0),
        kind: InteractionType::Work,
    };
    let mut person = Person::default();
    let mut menu = ChoiceUI::new(vec![]);
    let mut button = ActionButton::new();
    for down in [true, false, true] {
        let just_pressed = button.update(down);
        interact(just_pressed, &target, &mut person, &mut menu);
    }
    assert_eq!(person.san, 80);
}

#[test]
fn closer_of_two_in_range_wins_in_either_order() {
    let near = || object(1, 40, 0, InteractionType::Damage, "near");
    let far = || object(2, 0, 55, InteractionType::Work, "far");
    let agent = Point::new(0, 0);

    let mut target = InteractionTarget::new();
    assert_eq!(recompute_target(&mut target, &agent, &vec![near(), far()]), Some(0));
    assert_eq!(target.target_id, Some(Entity::from_raw(1)));
    assert_eq!(target.kind, InteractionType::Damage);
    assert_eq!(target.position, Point::new(40, 0));

    let mut target = InteractionTarget::new();
    assert_eq!(recompute_target(&mut target, &agent, &vec![far(), near()]), Some(1));
    assert_eq!(target.target_id, Some(Entity::from_raw(1)));
}

#[test]
fn first_of_equally_close_objects_wins() {
    let items = vec![
        object(1, 100, 100, InteractionType::Work, "far"),
        object(2, 30, 0, InteractionType::Work, "east"),
        object(3, 0, 30, InteractionType::Damage, "north"),
        object(4, -30, 0, InteractionType::SalaryMan, "west"),
    ];
    assert_eq!(find_closest(&Point::new(0, 0), &items), Some(1));
}

#[test]
fn distance_of_exactly_sixty_is_out_of_range() {
    let agent = Point::new(0, 0);
    for (x, y) in [(60, 0), (0, -60), (36, 48), (-48, 36)] {
        let items = vec![object(1, x, y, InteractionType::Work, "edge")];
        assert_eq!(find_closest(&agent, &items), None);
    }
    for (x, y) in [(59, 0), (35, 48), (42, 42), (-59, 10)] {
        let items = vec![object(1, x, y, InteractionType::Work, "inside")];
        assert_eq!(find_closest(&agent, &items), Some(0));
    }
    let items = vec![object(1, 43, 42, InteractionType::Work, "outside")];
    assert_eq!(find_closest(&agent, &items), None);
}

#[test]
fn distance_is_exact_at_the_ends_of_the_plane() {
    let agent = Point::new(i32::MIN, i32::MIN);
    assert_eq!(agent.squared_distance_to(&Point::new(i32::MAX, i32::MAX)), 2 * 4294967295u128.pow(2));
    assert_eq!(Point::new(3, -4).squared_distance_to(&Point::new(0, 0)), 25);
    let items = vec![
        object(1, i32::MAX, i32::MAX, InteractionType::Work, "far"),
        object(2, i32::MIN + 10, i32::MIN, InteractionType::Work, "near"),
    ];
    assert_eq!(find_closest(&agent, &items), Some(1));
}

#[test]
fn no_objects_means_no_target() {
    let mut target = InteractionTarget {
        in_range: true,
        target_id: Some(Entity::from_raw(9)),
        position: Point::new(5, 6),
        kind: InteractionType::Damage,
    };
    assert_eq!(recompute_target(&mut target, &Point::new(5, 6), &vec![]), None);
    assert!(!target.in_range);
    assert_eq!(target.target_id, None);
    assert_eq!(target.position, Point::new(5, 6));
    assert_eq!(target.kind, InteractionType::Damage);
}

#[test]
fn only_object_in_range_is_selected_among_farther_ones() {
    let items = vec![
        object(1, 500, 0, InteractionType::Work, "a"),
        object(2, 0, -300, InteractionType::Work, "b"),
        object(3, 10, 10, InteractionType::SalaryMan, "c"),
        object(4, 61, 0, InteractionType::Damage, "d"),
    ];
    let mut target = InteractionTarget::new();
    assert_eq!(recompute_target(&mut target, &Point::new(0, 0), &items), Some(2));
    assert_eq!(
        target,
        InteractionTarget {
            in_range: true,
            target_id: Some(Entity::from_raw(3)),
            position: Point::new(10, 10),
            kind: InteractionType::SalaryMan,
        }
    );
}

#[test]
fn recomputing_with_the_same_inputs_changes_nothing() {
    let items = vec![
        object(1, 20, 0, InteractionType::Work, "a"),
        object(2, 0, 10, InteractionType::Damage, "b"),
    ];
    let agent = Point::new(0, 0);
    let mut target = InteractionTarget::new();
    assert_eq!(recompute_target(&mut target, &agent, &items), Some(1));
    let once = target;
    assert_eq!(recompute_target(&mut target, &agent, &items), None);
    assert_eq!(target, once);

    let mut lost = InteractionTarget::new();
    assert_eq!(recompute_target(&mut lost, &Point::new(1000, 1000), &items), None);
    let once = lost;
    assert_eq!(recompute_target(&mut lost, &Point::new(1000, 1000), &items), None);
    assert_eq!(lost, once);
}

#[test]
fn target_changes_only_when_the_entity_differs() {
    let agent = Point::new(0, 0);
    let mut target = InteractionTarget {
        in_range: true,
        target_id: Some(Entity::from_raw(2)),
        position: Point::new(-1, -1),
        kind: InteractionType::Invalid,
    };
    let same = vec![object(2, 10, 0, InteractionType::Work, "same")];
    assert_eq!(recompute_target(&mut target, &agent, &same), None);
    assert_eq!(target.position, Point::new(-1, -1));
    assert_eq!(target.kind, InteractionType::Invalid);

    let other = vec![object(3, 10, 0, InteractionType::Work, "other")];
    assert_eq!(recompute_target(&mut target, &agent, &other), Some(0));
    assert_eq!(target.target_id, Some(Entity::from_raw(3)));
    assert_eq!(target.position, Point::new(10, 0));
    assert_eq!(target.kind, InteractionType::Work);
}

#[test]
fn hint_follows_the_target() {
    let items = vec![
        object(1, 0, 0, InteractionType::Work, "Desk"),
        object(2, 100, 0, InteractionType::SalaryMan, "Alice"),
    ];
    let hint = InteractionHintUI::new("Press E");
    let mut label = TextLabel::new();
    let mut target = InteractionTarget::new();

    player_check_collision(&Point::new(10, 0), &items, &mut target, &hint, &mut label);
    assert!(label.visible);
    assert_eq!(label.value, "Press E (Desk)");

    label.value = String::from("kept");
    player_check_collision(&Point::new(20, 0), &items, &mut target, &hint, &mut label);
    assert!(label.visible);
    assert_eq!(label.value, "kept");

    player_check_collision(&Point::new(55, 0), &items, &mut target, &hint, &mut label);
    assert!(label.visible);
    assert_eq!(label.value, "Press E (Alice)");

    player_check_collision(&Point::new(50, 500), &items, &mut target, &hint, &mut label);
    assert!(!label.visible);
    assert_eq!(label.value, "Press E (Alice)");
    assert_eq!(target.target_id, None);

    player_check_collision(&Point::new(95, 0), &items, &mut target, &hint, &mut label);
    assert!(label.visible);
    assert_eq!(target.target_id, Some(Entity::from_raw(2)));
}
