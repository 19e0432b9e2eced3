use vstd::prelude::*;

use crate::animation::{lemma_step_at_samples, step_spec, Animation, AnimationPosition, Joints};
use crate::point::{fits_i64, Point};

verus! {

/// The area of the drawing space that is shown, from `(x0, y0)` to
/// `(x1, y1)`, in fixed-point steps.
#[derive(Clone, Copy, Debug, PartialEq, Eq, Structural)]
pub struct Viewport {
    pub x0: i64,
    pub y0: i64,
    pub x1: i64,
    pub y1: i64,
}

impl Viewport {
    /// The drawing space: 1.5 units wide and 1 unit high.
    pub fn standard() -> (r: Viewport)
        ensures
            r == (Viewport { x0: 0, y0: 0, x1: 1_500_000, y1: 1_000_000 }),
    {
        Viewport { x0: 0, y0: 0, x1: 1_500_000, y1: 1_000_000 }
    }
}

/// A segment between two points: one bone of a body.
#[derive(Clone, Copy, Debug, PartialEq, Eq, Structural)]
pub struct Position {
    pub a: Point,
    pub b: Point,
}

/// A change of one joint: the new coordinates, where given.
#[derive(Clone, Copy, Debug, PartialEq, Eq, Structural)]
pub enum UpdateHuman {
    LeftFoot(Option<i64>, Option<i64>),
    LeftKnee(Option<i64>, Option<i64>),
    Hip(Option<i64>, Option<i64>),
    RightKnee(Option<i64>, Option<i64>),
    RightFoot(Option<i64>, Option<i64>),
    Neck(Option<i64>, Option<i64>),
    LeftElbow(Option<i64>, Option<i64>),
    LeftHand(Option<i64>, Option<i64>),
    RightElbow(Option<i64>, Option<i64>),
    RightHand(Option<i64>, Option<i64>),
    Head(Option<i64>, Option<i64>),
}

impl UpdateHuman {
    /// The joint that the change is about.
    pub open spec fn target(self) -> Joints {
        match self {
            UpdateHuman::LeftFoot(..) => Joints::LeftFoot,
            UpdateHuman::LeftKnee(..) => Joints::LeftKnee,
            UpdateHuman::Hip(..) => Joints::Hip,
            UpdateHuman::RightKnee(..) => Joints::RightKnee,
            UpdateHuman::RightFoot(..) => Joints::RightFoot,
            UpdateHuman::Neck(..) => Joints::Neck,
            UpdateHuman::LeftElbow(..) => Joints::LeftElbow,
            UpdateHuman::LeftHand(..) => Joints::LeftHand,
            UpdateHuman::RightElbow(..) => Joints::RightElbow,
            UpdateHuman::RightHand(..) => Joints::RightHand,
            UpdateHuman::Head(..) => Joints::Head,
        }
    }

    /// The new coordinates that the change gives.
    pub open spec fn values(self) -> (Option<i64>, Option<i64>) {
        match self {
            UpdateHuman::LeftFoot(x, y) => (x, y),
            UpdateHuman::LeftKnee(x, y) => (x, y),
            UpdateHuman::Hip(x, y) => (x, y),
            UpdateHuman::RightKnee(x, y) => (x, y),
            UpdateHuman::RightFoot(x, y) => (x, y),
            UpdateHuman::Neck(x, y) => (x, y),
            UpdateHuman::LeftElbow(x, y) => (x, y),
            UpdateHuman::LeftHand(x, y) => (x, y),
            UpdateHuman::RightElbow(x, y) => (x, y),
            UpdateHuman::RightHand(x, y) => (x, y),
            UpdateHuman::Head(x, y) => (x, y),
        }
    }
}

/// The bones of a body, each a segment between two joints: calves, thighs,
/// torso, upper arms, forearms and the neck up to the head.
pub open spec fn bones_of(j: AnimationPosition) -> Seq<Position> {
    seq![
        Position { a: j.left_foot, b: j.left_knee },
        Position { a: j.left_knee, b: j.hip },
        Position { a: j.hip, b: j.right_knee },
        Position { a: j.right_knee, b: j.right_foot },
        Position { a: j.hip, b: j.neck },
        Position { a: j.neck, b: j.left_elbow },
        Position { a: j.left_elbow, b: j.left_hand },
        Position { a: j.neck, b: j.right_elbow },
        Position { a: j.right_elbow, b: j.right_hand },
        Position { a: j.neck, b: j.head },
    ]
}

/// The upright stance that a new body takes.
pub open spec fn standing() -> AnimationPosition {
    AnimationPosition {
        left_foot: Point { x: 615934, y: 827083 },
        left_knee: Point { x: 592497, y: 693958 },
        hip: Point { x: 610629, y: 590323 },
        right_knee: Point { x: 608333, y: 703645 },
        right_foot: Point { x: 627935, y: 846453 },
        neck: Point { x: 567607, y: 369682 },
        left_elbow: Point { x: 538542, y: 490307 },
        left_hand: Point { x: 552500, y: 575938 },
        right_elbow: Point { x: 688539, y: 437814 },
        right_hand: Point { x: 631563, y: 459688 },
        head: Point { x: 542503, y: 250412 },
    }
}

/// A body: where each joint is, and the animation it is playing, if any,
/// given by its start time in microseconds and the offset by which its
/// positions are moved.
#[derive(Clone, Copy, Debug)]
pub struct Human {
    pub joints: AnimationPosition,
    pub current_animation: Option<(i64, Point)>,
}

impl Human {
    /// The state after one tick at `time` while playing `animation`.
    ///
    /// Without an animation running, one starts at `time`, moved so that its
    /// first hip falls on the current hip; the joints stay as they are. With
    /// one running, the joints take its moved position at the elapsed time;
    /// where it has none, or the moved position cannot be stored, the
    /// animation ends and the joints stay as they are.
    pub open spec fn update_spec(self, animation: Seq<AnimationPosition>, time: int) -> Human {
        match self.current_animation {
            None => {
                if animation.len() > 0 && self.joints.hip.minus_fits(animation[0].hip) {
                    Human {
                        joints: self.joints,
                        current_animation: Some(
                            (time as i64, Point::from_ints(self.joints.hip.minus(animation[0].hip))),
                        ),
                    }
                } else {
                    self
                }
            },
            Some((start, offset)) => match step_spec(animation, time - start) {
                Some(p) => {
                    if p.translate_fits(offset) {
                        Human { joints: p.translated(offset), current_animation: self.current_animation }
                    } else {
                        Human { joints: self.joints, current_animation: None }
                    }
                },
                None => Human { joints: self.joints, current_animation: None },
            },
        }
    }

    /// Applies one change of a joint.
    pub fn update_human(&mut self, update: UpdateHuman)
        ensures
            final(self).joints == old(self).joints.with_joint(
                update.target(),
                old(self).joints.joint(update.target()).updated(update.values().0, update.values().1),
            ),
            final(self).current_animation == old(self).current_animation,
    {
        let joints = &mut self.joints;
        match update {
            UpdateHuman::LeftFoot(x, y) => joints.set_joint(Joints::LeftFoot, x, y),
            UpdateHuman::LeftKnee(x, y) => joints.set_joint(Joints::LeftKnee, x, y),
            UpdateHuman::Hip(x, y) => joints.set_joint(Joints::Hip, x, y),
            UpdateHuman::RightKnee(x, y) => joints.set_joint(Joints::RightKnee, x, y),
            UpdateHuman::RightFoot(x, y) => joints.set_joint(Joints::RightFoot, x, y),
            UpdateHuman::Neck(x, y) => joints.set_joint(Joints::Neck, x, y),
            UpdateHuman::LeftElbow(x, y) => joints.set_joint(Joints::LeftElbow, x, y),
            UpdateHuman::LeftHand(x, y) => joints.set_joint(Joints::LeftHand, x, y),
            UpdateHuman::RightElbow(x, y) => joints.set_joint(Joints::RightElbow, x, y),
            UpdateHuman::RightHand(x, y) => joints.set_joint(Joints::RightHand, x, y),
            UpdateHuman::Head(x, y) => joints.set_joint(Joints::Head, x, y),
        }
    }

    /// A body standing upright, with no animation running.
    pub fn new() -> (r: Self)
        ensures
            r.current_animation is None,
            r.joints == standing(),
    {
        Human {
            joints: AnimationPosition {
                left_foot: Point { x: 615934, y: 827083 },
                left_knee: Point { x: 592497, y: 693958 },
                hip: Point { x: 610629, y: 590323 },
                right_knee: Point { x: 608333, y: 703645 },
                right_foot: Point { x: 627935, y: 846453 },
                neck: Point { x: 567607, y: 369682 },
                left_elbow: Point { x: 538542, y: 490307 },
                left_hand: Point { x: 552500, y: 575938 },
                right_elbow: Point { x: 688539, y: 437814 },
                right_hand: Point { x: 631563, y: 459688 },
                head: Point { x: 542503, y: 250412 },
            },
            current_animation: None,
        }
    }

    /// Advances the body to `time`, in microseconds, playing `animation`
    /// in a loop that starts again from wherever the hip has got to.
    pub fn update(&mut self, animation: &Animation, time: i64)
        ensures
            *final(self) == old(self).update_spec(animation.positions@, time as int),
    {
        match self.current_animation {
            Some((start_time, offset)) => {
                let elapsed: i128 = time as i128 - start_time as i128;
                match animation.step_wide(elapsed) {
                    Some(joints) => match joints.apply_offset_by(offset) {
                        Some(moved) => {
                            self.joints = moved;
                        },
                        None => {
                            self.current_animation = None;
                        },
                    },
                    None => {
                        self.current_animation = None;
                    },
                }
            },
            None => {
                if animation.positions.len() > 0 {
                    let first_pos = &animation.positions[0];
                    if let Some(offset) = self.joints.hip.checked_offset_from(&first_pos.hip) {
                        self.current_animation = Some((time, offset));
                    }
                }
            },
        }
    }

    /// The bones to draw for the current joints.
    pub fn bones(&self) -> (r: Vec<Position>)
        ensures
            r@ == bones_of(self.joints),
    {
        let j = &self.joints;
        let r = vec![
            Position { a: j.left_foot, b: j.left_knee },
            Position { a: j.left_knee, b: j.hip },
            Position { a: j.hip, b: j.right_knee },
            Position { a: j.right_knee, b: j.right_foot },
            Position { a: j.hip, b: j.neck },
            Position { a: j.neck, b: j.left_elbow },
            Position { a: j.left_elbow, b: j.left_hand },
            Position { a: j.neck, b: j.right_elbow },
            Position { a: j.right_elbow, b: j.right_hand },
            Position { a: j.neck, b: j.head },
        ];
        assert(r@ =~= bones_of(self.joints));
        r
    }
}

/// A loop starts where the body stands: the tick that starts an animation
/// followed by a tick at the same time puts the hip exactly where it was.
pub proof fn lemma_loop_starts_at_hip(h: Human, animation: Seq<AnimationPosition>, time: int)
    requires
        h.current_animation is None,
        animation.len() >= 2,
        fits_i64(time),
        h.joints.hip.minus_fits(animation[0].hip),
        animation[0].translate_fits(Point::from_ints(h.joints.hip.minus(animation[0].hip))),
    ensures
        h.update_spec(animation, time).update_spec(animation, time).joints.hip == h.joints.hip,
        h.update_spec(animation, time).update_spec(animation, time).current_animation is Some,
{
    lemma_step_at_samples(animation, 0);
}

} // verus!
