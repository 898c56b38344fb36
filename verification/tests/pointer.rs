use bevy::ecs::entity::Entity;
use salaryman_simulator::components::{
    CurrentHovered, MouseHoverHint, MouseInput, MouseSelectable, SelectableRegion,
};
use salaryman_simulator::geometry::{hit_test, Point, Rect};
use salaryman_simulator::mouse_event::{
    listen_mouse_input, mouse_event, recompute_hover, set_hovered, update_highlight,
};

fn region(index: u32, name: &str, x: i32, y: i32, half_w: i32, half_h: i32) -> SelectableRegion {
    SelectableRegion {
        id: Entity::from_raw(index),
        position: Point::new(x, y),
        selectable: MouseSelectable::new(
            name,
            Rect::new(Point::new(-half_w, -half_h), Point::new(half_w, half_h)),
        ),
    }
}

fn hidden_hint() -> MouseHoverHint {
    MouseHoverHint { visible: false, position: Point::new(0, 0), scale_x_tenths: 0, scale_y_tenths: 0 }
}

#[test]
fn pointer_at_the_centre_hits() {
    let rect = Rect::new(Point::new(-5, -5), Point::new(5, 5));
    assert!(hit_test(&Point::new(100, -40), &Point::new(100, -40), &rect));
    let off_centre = Rect::new(Point::new(2, 4), Point::new(6, 5));
    assert!(hit_test(&Point::new(32 + 7, 36 - 3), &Point::new(7, -3), &off_centre));
}

#[test]
fn pointer_on_an_edge_misses() {
    let rect = Rect::new(Point::new(-5, -5), Point::new(5, 5));
    let origin = Point::new(10, 10);
    for (x, y) in [(50, 10), (-30, 10), (10, 50), (10, -30), (50, 50), (-30, -30)] {
        assert!(!hit_test(&Point::new(x, y), &origin, &rect));
    }
    for (x, y) in [(49, 10), (-29, 10), (10, 49), (10, -29), (49, 49), (-29, -29)] {
        assert!(hit_test(&Point::new(x, y), &origin, &rect));
    }
}

#[test]
fn rectangle_is_magnified_eight_times() {
    let rect = Rect::new(Point::new(-18, -3), Point::new(18, 3));
    let origin = Point::new(0, 0);
    assert!(hit_test(&Point::new(143, 23), &origin, &rect));
    assert!(!hit_test(&Point::new(144, 0), &origin, &rect));
    assert!(!hit_test(&Point::new(0, 24), &origin, &rect));
    assert!(hit_test(&Point::new(-143, -23), &origin, &rect));
    assert_eq!(rect.width(), 36);
    assert_eq!(rect.height(), 6);
}

#[test]
fn empty_rectangle_is_never_hit() {
    let rect = MouseSelectable::default().select_rect;
    assert_eq!(rect, Rect::new(Point::new(0, 0), Point::new(0, 0)));
    assert!(!hit_test(&Point::new(0, 0), &Point::new(0, 0), &rect));
    assert_eq!(MouseSelectable::default().display_name, "");
}

#[test]
fn hit_test_is_exact_at_the_ends_of_the_plane() {
    let rect = Rect::new(Point::new(i32::MIN, i32::MIN), Point::new(i32::MAX, i32::MAX));
    assert!(hit_test(&Point::new(i32::MAX, i32::MIN), &Point::new(i32::MIN, i32::MAX), &rect));
    assert_eq!(rect.width(), 4294967295);
}

#[test]
fn first_region_under_the_pointer_wins() {
    let regions = vec![
        region(1, "far", 1000, 0, 5, 5),
        region(2, "big", 0, 0, 10, 10),
        region(3, "small", 0, 0, 5, 5),
    ];
    assert_eq!(recompute_hover(&Point::new(0, 0), &regions), Some(1));
    assert_eq!(recompute_hover(&Point::new(1001, 1), &regions), Some(0));
    assert_eq!(recompute_hover(&Point::new(80, 0), &regions), None);
    assert_eq!(recompute_hover(&Point::new(0, 0), &vec![]), None);
}

#[test]
fn hover_records_a_snapshot_and_places_the_highlight() {
    let regions = vec![region(1, "Alice", 300, -100, 5, 5), region(2, "line", 0, 0, 18, 3)];
    let mut mouse = MouseInput::default();
    let mut current = CurrentHovered { selectable: None };
    let mut hint = hidden_hint();

    mouse.world_position = Point::new(-100, 20);
    assert_eq!(mouse_event(&mouse, &regions, &mut current, &mut hint), Some(1));
    let hovered = current.selectable.as_ref().unwrap();
    assert_eq!(hovered.display_name, "line");
    assert_eq!(hovered.select_rect, Rect::new(Point::new(-18, -3), Point::new(18, 3)));
    assert_eq!(
        hint,
        MouseHoverHint { visible: true, position: Point::new(0, 0), scale_x_tenths: 36, scale_y_tenths: 6 }
    );

    mouse.world_position = Point::new(300, -100);
    assert_eq!(mouse_event(&mouse, &regions, &mut current, &mut hint), Some(0));
    assert_eq!(current.selectable.as_ref().unwrap().display_name, "Alice");
    assert_eq!(
        hint,
        MouseHoverHint { visible: true, position: Point::new(300, -100), scale_x_tenths: 10, scale_y_tenths: 10 }
    );

    mouse.world_position = Point::new(300, -60);
    assert_eq!(mouse_event(&mouse, &regions, &mut current, &mut hint), None);
    assert!(current.selectable.is_none());
    assert_eq!(
        hint,
        MouseHoverHint { visible: false, position: Point::new(300, -100), scale_x_tenths: 10, scale_y_tenths: 10 }
    );
}

#[test]
fn hovered_and_highlight_can_be_set_apart() {
    let regions = vec![region(1, "Bob", 1, 2, 3, 4)];
    let mut current = CurrentHovered { selectable: None };
    set_hovered(&mut current, Some(&regions[0]));
    assert_eq!(current.selectable.as_ref().unwrap().display_name, "Bob");
    set_hovered(&mut current, None);
    assert!(current.selectable.is_none());
    let mut hint = hidden_hint();
    update_highlight(&mut hint, Some(&regions[0]));
    assert_eq!(
        hint,
        MouseHoverHint { visible: true, position: Point::new(1, 2), scale_x_tenths: 6, scale_y_tenths: 8 }
    );
}

#[test]
fn pointer_keeps_its_last_place_when_nothing_is_reported() {
    let mut mouse = MouseInput::default();
    assert_eq!(mouse.camera_position, Point::new(0, 0));
    assert_eq!(mouse.world_position, Point::new(0, 0));

    listen_mouse_input(&mut mouse, Some(Point::new(640, 360)), Some(Point::new(0, 0)));
    listen_mouse_input(&mut mouse, Some(Point::new(700, 300)), Some(Point::new(60, 60)));
    assert_eq!(mouse.camera_position, Point::new(700, 300));
    assert_eq!(mouse.world_position, Point::new(60, 60));

    listen_mouse_input(&mut mouse, None, None);
    assert_eq!(mouse.camera_position, Point::new(700, 300));
    assert_eq!(mouse.world_position, Point::new(60, 60));

    listen_mouse_input(&mut mouse, None, Some(Point::new(1, 1)));
    assert_eq!(mouse.world_position, Point::new(60, 60));

    listen_mouse_input(&mut mouse, Some(Point::new(5, 5)), None);
    assert_eq!(mouse.camera_position, Point::new(5, 5));
    assert_eq!(mouse.world_position, Point::new(60, 60));
}
