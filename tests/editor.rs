use stickman::animation::Joints;
use stickman::point::Point;
use stickman::tester::{
    PointerEvent, Reaction, ScreenTransform, Tester, TesterMsg, KEY_B, KEY_D, KEY_LEFT, KEY_N,
    KEY_RIGHT,
};

/// One pixel is 1000 steps; the origin of the drawing space is at pixel (10, 20).
fn transform() -> ScreenTransform {
    ScreenTransform { a: 1000, b: 0, c: 0, d: 1000, e: -10_000, f: -20_000 }
}

fn at(x: i32, y: i32) -> PointerEvent {
    PointerEvent { client_x: x, client_y: y, transform: Some(transform()) }
}

#[test]
fn transform_maps_pixels() {
    let t = ScreenTransform { a: 2, b: 3, c: 5, d: 7, e: 11, f: 13 };
    assert_eq!(t.apply(1, 10), Some(Point { x: 2 + 50 + 11, y: 3 + 70 + 13 }));
    let huge = ScreenTransform { a: i64::MAX, b: 0, c: 0, d: 0, e: 0, f: 0 };
    assert_eq!(huge.apply(2, 0), None);
    assert_eq!(at(110, 220).logical(), Some(Point { x: 100_000, y: 200_000 }));
    let blind = PointerEvent { client_x: 1, client_y: 1, transform: None };
    assert_eq!(blind.logical(), None);
}

#[test]
fn new_editor() {
    let t = Tester::new();
    assert_eq!(t.image_index, 1);
    assert_eq!(t.editing_index, 0);
    assert!(t.output.positions.is_empty());
    assert!(t.current_joint.is_none());
}

#[test]
fn drag_moves_joint_under_pointer() {
    let mut t = Tester::new();
    let hip = t.human.joints.hip;
    // press 500 steps right of the hip, at pixel (10 + hip.x / 1000, ...)
    let px = (10 + hip.x / 1000) as i32;
    let py = (20 + hip.y / 1000) as i32;
    let r = t.update(TesterMsg::ClickedJoint(Joints::Hip, at(px, py)));
    assert_eq!(r, Reaction { redraw: false, download: false });
    let grabbed = Point { x: (px as i64 - 10) * 1000, y: (py as i64 - 20) * 1000 };
    let offset = Point { x: grabbed.x - hip.x, y: grabbed.y - hip.y };
    assert_eq!(t.current_joint, Some((Joints::Hip, offset)));
    assert_eq!(t.human.joints.hip, hip);
    let r = t.update(TesterMsg::MouseMove(at(px + 5, py - 3)));
    assert_eq!(r, Reaction { redraw: true, download: false });
    assert_eq!(t.human.joints.hip, Point { x: hip.x + 5_000, y: hip.y - 3_000 });
    t.update(TesterMsg::MouseUp);
    assert!(t.current_joint.is_none());
    let after = t.human.joints;
    t.update(TesterMsg::MouseMove(at(0, 0)));
    assert_eq!(t.human.joints, after);
}

#[test]
fn move_without_press_changes_nothing() {
    let mut t = Tester::new();
    let before = t.human.joints;
    let r = t.update(TesterMsg::MouseMove(at(300, 300)));
    assert_eq!(r.redraw, true);
    assert_eq!(t.human.joints, before);
}

#[test]
fn press_without_transform_is_ignored() {
    let mut t = Tester::new();
    let blind = PointerEvent { client_x: 1, client_y: 1, transform: None };
    t.update(TesterMsg::ClickedJoint(Joints::Head, blind));
    assert!(t.current_joint.is_none());
    t.update(TesterMsg::ClickedJoint(Joints::Head, at(100, 100)));
    assert!(t.current_joint.is_some());
    let before = t.human.joints;
    t.update(TesterMsg::MouseMove(blind));
    assert_eq!(t.human.joints, before);
}

#[test]
fn capture_and_undo() {
    let mut t = Tester::new();
    let pose = t.human.joints;
    let r = t.update(TesterMsg::KeyDown(KEY_N));
    assert_eq!(r, Reaction { redraw: true, download: false });
    assert_eq!(t.output.positions, vec![pose]);
    assert_eq!((t.image_index, t.editing_index), (2, 1));
    t.update(TesterMsg::KeyDown(KEY_B));
    assert!(t.output.positions.is_empty());
    assert_eq!((t.image_index, t.editing_index), (1, 0));
    // nothing to take back
    t.update(TesterMsg::KeyDown(KEY_B));
    assert!(t.output.positions.is_empty());
    assert_eq!((t.image_index, t.editing_index), (1, 0));
}

#[test]
fn captures_then_as_many_undos_restore_state() {
    let mut t = Tester::new();
    t.update(TesterMsg::KeyDown(KEY_N));
    t.update(TesterMsg::KeyDown(KEY_RIGHT));
    let saved = t.output.positions.clone();
    let (image, editing) = (t.image_index, t.editing_index);
    for _ in 0..4 {
        t.update(TesterMsg::KeyDown(KEY_N));
    }
    assert_eq!(t.output.positions.len(), 5);
    for _ in 0..4 {
        t.update(TesterMsg::KeyDown(KEY_B));
    }
    assert_eq!(t.output.positions, saved);
    assert_eq!((t.image_index, t.editing_index), (image, editing));
}

#[test]
fn undo_at_first_image_keeps_image_index() {
    let mut t = Tester::new();
    t.update(TesterMsg::KeyDown(KEY_N));
    t.update(TesterMsg::KeyDown(KEY_LEFT));
    assert_eq!(t.image_index, 1);
    t.update(TesterMsg::KeyDown(KEY_B));
    assert_eq!((t.image_index, t.editing_index), (1, 0));
    assert!(t.output.positions.is_empty());
}

#[test]
fn left_never_goes_below_first_image() {
    let mut t = Tester::new();
    for _ in 0..5 {
        let r = t.update(TesterMsg::KeyDown(KEY_LEFT));
        assert!(r.redraw);
        assert_eq!(t.image_index, 1);
    }
    t.update(TesterMsg::KeyDown(KEY_RIGHT));
    t.update(TesterMsg::KeyDown(KEY_RIGHT));
    assert_eq!(t.image_index, 3);
    t.update(TesterMsg::KeyDown(KEY_LEFT));
    assert_eq!(t.image_index, 2);
    assert_eq!(t.editing_index, 0);
}

#[test]
fn download_and_unknown_keys() {
    let mut t = Tester::new();
    let r = t.update(TesterMsg::KeyDown(KEY_D));
    assert_eq!(r, Reaction { redraw: true, download: true });
    let r = t.update(TesterMsg::KeyDown(65));
    assert_eq!(r, Reaction { redraw: false, download: false });
    assert_eq!((t.image_index, t.editing_index), (1, 0));
}

#[test]
fn capture_records_dragged_pose() {
    let mut t = Tester::new();
    t.update(TesterMsg::ClickedJoint(Joints::LeftHand, at(10, 20)));
    t.update(TesterMsg::MouseMove(at(11, 22)));
    let moved = t.human.joints;
    t.update(TesterMsg::KeyDown(KEY_N));
    assert_eq!(t.output.positions, vec![moved]);
    assert_ne!(moved, Tester::new().human.joints);
}
