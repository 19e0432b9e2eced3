use stickman::animation::{Animation, AnimationPosition, Joints, ANIMATION_POSITION_INTERVAL};
use stickman::point::{Point, UNIT};

fn pose_at(x: i64, y: i64) -> AnimationPosition {
    let p = Point { x, y };
    AnimationPosition {
        left_foot: p,
        left_knee: p,
        hip: p,
        right_knee: p,
        right_foot: p,
        neck: p,
        left_elbow: p,
        left_hand: p,
        right_elbow: p,
        right_hand: p,
        head: p,
    }
}

fn varied_pose(base: i64) -> AnimationPosition {
    AnimationPosition {
        left_foot: Point { x: base + 1, y: base + 2 },
        left_knee: Point { x: base + 3, y: base + 4 },
        hip: Point { x: base + 5, y: base + 6 },
        right_knee: Point { x: base + 7, y: base + 8 },
        right_foot: Point { x: base + 9, y: base + 10 },
        neck: Point { x: base + 11, y: base + 12 },
        left_elbow: Point { x: base + 13, y: base + 14 },
        left_hand: Point { x: base + 15, y: base + 16 },
        right_elbow: Point { x: base + 17, y: base + 18 },
        right_hand: Point { x: base + 19, y: base + 20 },
        head: Point { x: base + 21, y: base + 22 },
    }
}

#[test]
fn point_lerp_exact_values() {
    let a = Point { x: 0, y: 100 };
    let b = Point { x: 1000, y: -100 };
    assert_eq!(a.lerp(&b, 1, 4), Point { x: 250, y: 50 });
    assert_eq!(a.lerp(&b, 0, 7), a);
    assert_eq!(a.lerp(&b, 7, 7), b);
}

#[test]
fn point_lerp_extrapolates() {
    let a = Point { x: 10, y: 20 };
    let b = Point { x: 20, y: 40 };
    assert_eq!(a.lerp(&b, 2, 1), Point { x: 30, y: 60 });
    assert_eq!(a.lerp(&b, -1, 1), Point { x: 0, y: 0 });
}

#[test]
fn point_lerp_rounds_down() {
    let a = Point { x: 0, y: 0 };
    let b = Point { x: 1, y: -1 };
    // half of 1 is 0 rounded down, half of -1 is -1 rounded down
    assert_eq!(a.lerp(&b, 1, 2), Point { x: 0, y: -1 });
}

#[test]
fn point_update_keeps_missing_axis() {
    let mut p = Point { x: 5, y: 6 };
    p.update(Some(9), None);
    assert_eq!(p, Point { x: 9, y: 6 });
    p.update(None, Some(-3));
    assert_eq!(p, Point { x: 9, y: -3 });
    p.update(None, None);
    assert_eq!(p, Point { x: 9, y: -3 });
}

#[test]
fn point_offsets() {
    let p = Point { x: 700_000, y: 200_000 };
    assert_eq!(p.apply_offset_by(Point { x: -1, y: 2 }), Point { x: 699_999, y: 200_002 });
    assert_eq!(
        p.checked_offset_from(&Point { x: 300_000, y: 500_000 }),
        Some(Point { x: 400_000, y: -300_000 })
    );
    assert_eq!(Point { x: i64::MIN, y: 0 }.checked_offset_from(&Point { x: 1, y: 0 }), None);
    assert!(p.offset_fits(Point { x: 1, y: 1 }));
    assert!(!Point { x: i64::MAX, y: 0 }.offset_fits(Point { x: 1, y: 0 }));
}

#[test]
fn pose_lerp_boundaries() {
    let a = varied_pose(0);
    let b = varied_pose(1000);
    assert_eq!(a.lerp(&b, 0, 1), a);
    assert_eq!(a.lerp(&b, 1, 1), b);
    assert_eq!(a.lerp(&b, 0, 20_000), a);
    assert_eq!(a.lerp(&b, 20_000, 20_000), b);
}

#[test]
fn pose_lerp_midpoint_is_average() {
    let a = varied_pose(0);
    let b = varied_pose(1001);
    let m = a.lerp(&b, 1, 2);
    let joints = [
        Joints::LeftFoot,
        Joints::LeftKnee,
        Joints::Hip,
        Joints::RightKnee,
        Joints::RightFoot,
        Joints::Neck,
        Joints::LeftElbow,
        Joints::LeftHand,
        Joints::RightElbow,
        Joints::RightHand,
        Joints::Head,
    ];
    for j in joints {
        let (p, q, r) = (a.get_joint(j), b.get_joint(j), m.get_joint(j));
        assert_eq!(r.x, (p.x + q.x).div_euclid(2));
        assert_eq!(r.y, (p.y + q.y).div_euclid(2));
    }
    assert_eq!(m.hip, Point { x: 505, y: 506 });
}

#[test]
fn pose_set_joint_changes_one_axis_of_one_joint() {
    let mut p = varied_pose(0);
    p.set_joint(Joints::Neck, None, Some(-7));
    let mut expected = varied_pose(0);
    expected.neck = Point { x: 11, y: -7 };
    assert_eq!(p, expected);
}

#[test]
fn pose_apply_offset() {
    let p = varied_pose(0);
    let moved = p.apply_offset_by(Point { x: 100, y: -100 }).unwrap();
    assert_eq!(moved.left_foot, Point { x: 101, y: -98 });
    assert_eq!(moved.head, Point { x: 121, y: -78 });
    let edge = pose_at(i64::MAX - 5, 0);
    assert_eq!(edge.apply_offset_by(Point { x: 10, y: 0 }), None);
}

#[test]
fn sample_knots_are_exact() {
    let seq = Animation { positions: vec![varied_pose(0), varied_pose(500), varied_pose(-300)] };
    assert_eq!(seq.step(0), Some(varied_pose(0)));
    assert_eq!(seq.step(ANIMATION_POSITION_INTERVAL), Some(varied_pose(500)));
    // the last sample has no successor
    assert_eq!(seq.step(2 * ANIMATION_POSITION_INTERVAL), None);
}

#[test]
fn sample_outside_is_none() {
    let seq = Animation { positions: vec![varied_pose(0), varied_pose(500)] };
    assert_eq!(seq.step(-1), None);
    assert_eq!(seq.step(ANIMATION_POSITION_INTERVAL), None);
    assert_eq!(seq.step(i64::MAX), None);
    assert_eq!(seq.step(ANIMATION_POSITION_INTERVAL - 1).is_some(), true);
    assert_eq!(seq.step_wide(i128::MAX), None);
    assert_eq!(seq.step_wide(i128::MIN), None);
}

#[test]
fn sample_short_animations_never_play() {
    assert_eq!(Animation::new().step(0), None);
    let one = Animation { positions: vec![varied_pose(0)] };
    assert_eq!(one.step(0), None);
    assert_eq!(one.step(10), None);
}

#[test]
fn sample_scenario_two_poses() {
    let seq = Animation { positions: vec![pose_at(0, 0), pose_at(UNIT, 0)] };
    let half = seq.step(10_000).unwrap();
    assert_eq!(half.hip, Point { x: UNIT / 2, y: 0 });
    assert_eq!(seq.step(20_000), None);
}

#[test]
fn sample_interpolates_inside_interval() {
    let seq = Animation { positions: vec![pose_at(0, 0), pose_at(0, 0), pose_at(2000, -4000)] };
    let p = seq.step(ANIMATION_POSITION_INTERVAL + 5_000).unwrap();
    assert_eq!(p.hip, Point { x: 500, y: -1000 });
}
