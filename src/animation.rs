use vstd::prelude::*;

use crate::human::Human;
use crate::point::{
    lemma_lerp_affine_coord, lemma_lerp_fits_inside, lemma_lerp_midpoint_coord, lerp_coord, Point,
};
use vstd::arithmetic::div_mod::{
    lemma_div_is_ordered, lemma_div_multiples_vanish, lemma_fundamental_div_mod_converse,
};

verus! {

/// Microseconds between two consecutive positions of an animation.
pub const ANIMATION_POSITION_INTERVAL: i64 = 20_000;

/// The joints of a body.
#[derive(Clone, Copy, Debug, PartialEq, Eq, Structural)]
pub enum Joints {
    LeftFoot,
    LeftKnee,
    Hip,
    RightKnee,
    RightFoot,
    Neck,
    LeftElbow,
    LeftHand,
    RightElbow,
    RightHand,
    Head,
}

/// Whether `p` holds of every joint.
pub open spec fn all_joints(p: spec_fn(Joints) -> bool) -> bool {
    &&& p(Joints::LeftFoot)
    &&& p(Joints::LeftKnee)
    &&& p(Joints::Hip)
    &&& p(Joints::RightKnee)
    &&& p(Joints::RightFoot)
    &&& p(Joints::Neck)
    &&& p(Joints::LeftElbow)
    &&& p(Joints::LeftHand)
    &&& p(Joints::RightElbow)
    &&& p(Joints::RightHand)
    &&& p(Joints::Head)
}

/// One complete body configuration: a position for each joint.
#[derive(Clone, Copy, Debug, PartialEq, Eq, Structural)]
pub struct AnimationPosition {
    pub left_foot: Point,
    pub left_knee: Point,
    pub hip: Point,
    pub right_knee: Point,
    pub right_foot: Point,
    pub neck: Point,
    pub left_elbow: Point,
    pub left_hand: Point,
    pub right_elbow: Point,
    pub right_hand: Point,
    pub head: Point,
}

impl AnimationPosition {
    /// The position of one joint.
    pub open spec fn joint(self, j: Joints) -> Point {
        match j {
            Joints::LeftFoot => self.left_foot,
            Joints::LeftKnee => self.left_knee,
            Joints::Hip => self.hip,
            Joints::RightKnee => self.right_knee,
            Joints::RightFoot => self.right_foot,
            Joints::Neck => self.neck,
            Joints::LeftElbow => self.left_elbow,
            Joints::LeftHand => self.left_hand,
            Joints::RightElbow => self.right_elbow,
            Joints::RightHand => self.right_hand,
            Joints::Head => self.head,
        }
    }

    /// The configuration that puts each joint where `f` says.
    pub open spec fn from_joints(f: spec_fn(Joints) -> Point) -> AnimationPosition {
        AnimationPosition {
            left_foot: f(Joints::LeftFoot),
            left_knee: f(Joints::LeftKnee),
            hip: f(Joints::Hip),
            right_knee: f(Joints::RightKnee),
            right_foot: f(Joints::RightFoot),
            neck: f(Joints::Neck),
            left_elbow: f(Joints::LeftElbow),
            left_hand: f(Joints::LeftHand),
            right_elbow: f(Joints::RightElbow),
            right_hand: f(Joints::RightHand),
            head: f(Joints::Head),
        }
    }

    /// `self` with the joint `j` moved to `p` and every other joint kept.
    pub open spec fn with_joint(self, j: Joints, p: Point) -> AnimationPosition {
        AnimationPosition::from_joints(|k: Joints| if k == j { p } else { self.joint(k) })
    }

    /// Each joint interpolated from `self` towards `next` at `num / den`.
    pub open spec fn lerp_spec(self, next: AnimationPosition, num: int, den: int) -> AnimationPosition {
        AnimationPosition::from_joints(
            |j: Joints| Point::from_ints(self.joint(j).lerp_spec(next.joint(j), num, den)),
        )
    }

    /// Whether every joint of `lerp_spec` can be stored.
    pub open spec fn lerp_fits(self, next: AnimationPosition, num: int, den: int) -> bool {
        all_joints(|j: Joints| self.joint(j).lerp_fits(next.joint(j), num, den))
    }

    /// Each joint moved by `offset`.
    pub open spec fn translated(self, offset: Point) -> AnimationPosition {
        AnimationPosition::from_joints(|j: Joints| Point::from_ints(self.joint(j).shifted(offset)))
    }

    /// Whether every joint of `translated` can be stored.
    pub open spec fn translate_fits(self, offset: Point) -> bool {
        all_joints(|j: Joints| self.joint(j).shift_fits(offset))
    }

    /// The position of one joint.
    pub fn get_joint(&self, j: Joints) -> (r: Point)
        ensures
            r == self.joint(j),
    {
        match j {
            Joints::LeftFoot => self.left_foot,
            Joints::LeftKnee => self.left_knee,
            Joints::Hip => self.hip,
            Joints::RightKnee => self.right_knee,
            Joints::RightFoot => self.right_foot,
            Joints::Neck => self.neck,
            Joints::LeftElbow => self.left_elbow,
            Joints::LeftHand => self.left_hand,
            Joints::RightElbow => self.right_elbow,
            Joints::RightHand => self.right_hand,
            Joints::Head => self.head,
        }
    }

    /// Replaces the given coordinates of one joint, keeping its other
    /// coordinate and every other joint.
    pub fn set_joint(&mut self, joint: Joints, x: Option<i64>, y: Option<i64>)
        ensures
            *final(self) == old(self).with_joint(joint, old(self).joint(joint).updated(x, y)),
    {
        match joint {
            Joints::LeftFoot => self.left_foot.update(x, y),
            Joints::LeftKnee => self.left_knee.update(x, y),
            Joints::Hip => self.hip.update(x, y),
            Joints::RightKnee => self.right_knee.update(x, y),
            Joints::RightFoot => self.right_foot.update(x, y),
            Joints::Neck => self.neck.update(x, y),
            Joints::LeftElbow => self.left_elbow.update(x, y),
            Joints::LeftHand => self.left_hand.update(x, y),
            Joints::RightElbow => self.right_elbow.update(x, y),
            Joints::RightHand => self.right_hand.update(x, y),
            Joints::Head => self.head.update(x, y),
        }
    }

    /// A copy of the configuration that `human` is in.
    pub fn from_human(human: &Human) -> (r: Self)
        ensures
            r == human.joints,
    {
        human.joints
    }

    /// Linear interpolation of every joint from `self` towards `next` at the
    /// parameter `num / den`, rounded down.
    pub fn lerp(&self, next: &AnimationPosition, num: i64, den: i64) -> (r: Self)
        requires
            den > 0,
            self.lerp_fits(*next, num as int, den as int),
        ensures
            r == self.lerp_spec(*next, num as int, den as int),
    {
        AnimationPosition {
            left_foot: self.left_foot.lerp(&next.left_foot, num, den),
            left_knee: self.left_knee.lerp(&next.left_knee, num, den),
            hip: self.hip.lerp(&next.hip, num, den),
            right_knee: self.right_knee.lerp(&next.right_knee, num, den),
            right_foot: self.right_foot.lerp(&next.right_foot, num, den),
            neck: self.neck.lerp(&next.neck, num, den),
            left_elbow: self.left_elbow.lerp(&next.left_elbow, num, den),
            left_hand: self.left_hand.lerp(&next.left_hand, num, den),
            right_elbow: self.right_elbow.lerp(&next.right_elbow, num, den),
            right_hand: self.right_hand.lerp(&next.right_hand, num, den),
            head: self.head.lerp(&next.head, num, den),
        }
    }

    /// Every joint moved by `offset`, or `None` where a moved joint would
    /// leave the storable range.
    pub fn apply_offset_by(&self, offset: Point) -> (r: Option<Self>)
        ensures
            self.translate_fits(offset) ==> r == Some(self.translated(offset)),
            !self.translate_fits(offset) ==> r is None,
    {
        if self.left_foot.offset_fits(offset) && self.left_knee.offset_fits(offset)
            && self.hip.offset_fits(offset) && self.right_knee.offset_fits(offset)
            && self.right_foot.offset_fits(offset) && self.neck.offset_fits(offset)
            && self.left_elbow.offset_fits(offset) && self.left_hand.offset_fits(offset)
            && self.right_elbow.offset_fits(offset) && self.right_hand.offset_fits(offset)
            && self.head.offset_fits(offset) {
            Some(
                AnimationPosition {
                    left_foot: self.left_foot.apply_offset_by(offset),
                    left_knee: self.left_knee.apply_offset_by(offset),
                    hip: self.hip.apply_offset_by(offset),
                    right_knee: self.right_knee.apply_offset_by(offset),
                    right_foot: self.right_foot.apply_offset_by(offset),
                    neck: self.neck.apply_offset_by(offset),
                    left_elbow: self.left_elbow.apply_offset_by(offset),
                    left_hand: self.left_hand.apply_offset_by(offset),
                    right_elbow: self.right_elbow.apply_offset_by(offset),
                    right_hand: self.right_hand.apply_offset_by(offset),
                    head: self.head.apply_offset_by(offset),
                },
            )
        } else {
            None
        }
    }
}

/// Interpolation between two configurations at a parameter in `[0, 1]`
/// never leaves the storable range.
pub proof fn lemma_pose_lerp_fits_inside(a: AnimationPosition, b: AnimationPosition, num: int, den: int)
    requires
        den > 0,
        0 <= num <= den,
    ensures
        a.lerp_fits(b, num, den),
{
    lemma_lerp_fits_inside(a.left_foot, b.left_foot, num, den);
    lemma_lerp_fits_inside(a.left_knee, b.left_knee, num, den);
    lemma_lerp_fits_inside(a.hip, b.hip, num, den);
    lemma_lerp_fits_inside(a.right_knee, b.right_knee, num, den);
    lemma_lerp_fits_inside(a.right_foot, b.right_foot, num, den);
    lemma_lerp_fits_inside(a.neck, b.neck, num, den);
    lemma_lerp_fits_inside(a.left_elbow, b.left_elbow, num, den);
    lemma_lerp_fits_inside(a.left_hand, b.left_hand, num, den);
    lemma_lerp_fits_inside(a.right_elbow, b.right_elbow, num, den);
    lemma_lerp_fits_inside(a.right_hand, b.right_hand, num, den);
    lemma_lerp_fits_inside(a.head, b.head, num, den);
}

} // verus!

verus! {

/// What an animation shows `elapsed` microseconds after its start: the
/// position sampled at `elapsed / INTERVAL`, interpolated towards the next one
/// by the remainder of that division. `None` before the start, and from the
/// time of the last sample on, where no following sample exists.
pub open spec fn step_spec(positions: Seq<AnimationPosition>, elapsed: int) -> Option<
    AnimationPosition,
> {
    let interval = ANIMATION_POSITION_INTERVAL as int;
    let index = elapsed / interval;
    if elapsed < 0 || index + 1 >= positions.len() {
        None
    } else {
        Some(positions[index].lerp_spec(positions[index + 1], elapsed % interval, interval))
    }
}

/// An animation: positions sampled at a fixed interval, the one at index `i`
/// belonging to the time `i * ANIMATION_POSITION_INTERVAL`.
#[derive(Clone, Debug)]
pub struct Animation {
    pub positions: Vec<AnimationPosition>,
}

/// The animations that bodies can play, loaded once and shared by all.
#[derive(Clone, Debug)]
pub struct AnimationsData {
    pub walking: Animation,
}

impl Animation {
    /// The empty animation.
    pub fn new() -> (r: Animation)
        ensures
            r.positions@ == Seq::<AnimationPosition>::empty(),
    {
        Animation { positions: Vec::new() }
    }

    /// The position at an elapsed time given as a wide integer, so that the
    /// difference of any two `i64` timestamps can be passed.
    pub fn step_wide(&self, elapsed: i128) -> (r: Option<AnimationPosition>)
        ensures
            r == step_spec(self.positions@, elapsed as int),
    {
        let interval: i128 = ANIMATION_POSITION_INTERVAL as i128;
        if elapsed < 0 {
            return None;
        }
        let index: i128 = elapsed / interval;
        let len: usize = self.positions.len();
        if index + 1 >= len as i128 {
            return None;
        }
        let i: usize = index as usize;
        let frac: i128 = elapsed % interval;
        let start = &self.positions[i];
        let end = &self.positions[i + 1];
        proof {
            lemma_pose_lerp_fits_inside(*start, *end, frac as int, interval as int);
        }
        Some(start.lerp(end, frac as i64, ANIMATION_POSITION_INTERVAL))
    }

    /// The interpolated position `time_step` microseconds after the start of
    /// the animation, or `None` where the time lies outside it.
    pub fn step(&self, time_step: i64) -> (r: Option<AnimationPosition>)
        ensures
            r == step_spec(self.positions@, time_step as int),
    {
        self.step_wide(time_step as i128)
    }
}

} // verus!

verus! {

/// At the parameter 0 interpolation gives the first configuration, and at the
/// parameter 1 (`den / den`) the second one.
pub proof fn lemma_lerp_boundaries(a: AnimationPosition, b: AnimationPosition, den: int)
    requires
        den > 0,
    ensures
        a.lerp_spec(b, 0, den) == a,
        a.lerp_spec(b, den, den) == b,
{
    assert forall|v: int, w: int| lerp_coord(v, w, 0, den) == v && lerp_coord(v, w, den, den) == w by {
        lemma_div_multiples_vanish(w - v, den);
        assert((w - v) * den == den * (w - v)) by (nonlinear_arith);
    }
}

/// Interpolation is affine in the parameter `num / den`: for each joint
/// coordinate, `den * result` is `den * a + (b - a) * num` less the rounding
/// remainder `((b - a) * num) % den`, which lies in `[0, den)`.
pub proof fn lemma_lerp_affine(a: AnimationPosition, b: AnimationPosition, num: int, den: int, j: Joints)
    requires
        den > 0,
        a.lerp_fits(b, num, den),
    ensures
        den * a.lerp_spec(b, num, den).joint(j).x + ((b.joint(j).x - a.joint(j).x) * num) % den
            == den * a.joint(j).x + (b.joint(j).x - a.joint(j).x) * num,
        den * a.lerp_spec(b, num, den).joint(j).y + ((b.joint(j).y - a.joint(j).y) * num) % den
            == den * a.joint(j).y + (b.joint(j).y - a.joint(j).y) * num,
        0 <= ((b.joint(j).x - a.joint(j).x) * num) % den < den,
        0 <= ((b.joint(j).y - a.joint(j).y) * num) % den < den,
{
    let p = a.joint(j);
    let q = b.joint(j);
    lemma_lerp_affine_coord(p.x as int, q.x as int, num, den);
    lemma_lerp_affine_coord(p.y as int, q.y as int, num, den);
    assert(p.lerp_fits(q, num, den));
    assert(a.lerp_spec(b, num, den).joint(j) == Point::from_ints(p.lerp_spec(q, num, den)));
}

/// At the parameter one half, every joint lies at the average of its two
/// positions, rounded down.
pub proof fn lemma_lerp_midpoint(a: AnimationPosition, b: AnimationPosition, j: Joints)
    ensures
        a.lerp_spec(b, 1, 2).joint(j).x == (a.joint(j).x + b.joint(j).x) / 2,
        a.lerp_spec(b, 1, 2).joint(j).y == (a.joint(j).y + b.joint(j).y) / 2,
{
    let p = a.joint(j);
    let q = b.joint(j);
    lemma_pose_lerp_fits_inside(a, b, 1, 2);
    lemma_lerp_midpoint_coord(p.x as int, q.x as int);
    lemma_lerp_midpoint_coord(p.y as int, q.y as int);
    assert(p.lerp_fits(q, 1, 2));
    assert(a.lerp_spec(b, 1, 2).joint(j) == Point::from_ints(p.lerp_spec(q, 1, 2)));
}

/// At the time of each sample that has a successor, an animation shows that
/// sample exactly.
pub proof fn lemma_step_at_samples(positions: Seq<AnimationPosition>, k: int)
    requires
        0 <= k,
        k + 1 < positions.len(),
    ensures
        step_spec(positions, k * ANIMATION_POSITION_INTERVAL) == Some(positions[k]),
{
    let interval = ANIMATION_POSITION_INTERVAL as int;
    let elapsed = k * interval;
    lemma_fundamental_div_mod_converse(elapsed, interval, k, 0);
    lemma_lerp_boundaries(positions[k], positions[k + 1], interval);
}

/// An animation shows nothing before its start, nor from the time of its
/// last sample on.
pub proof fn lemma_step_outside(positions: Seq<AnimationPosition>, elapsed: int)
    requires
        elapsed < 0 || elapsed >= (positions.len() - 1) * ANIMATION_POSITION_INTERVAL,
    ensures
        step_spec(positions, elapsed) is None,
{
    let interval = ANIMATION_POSITION_INTERVAL as int;
    if elapsed >= 0 {
        let last = positions.len() - 1;
        if last >= 0 {
            lemma_div_is_ordered(last * interval, elapsed, interval);
            lemma_fundamental_div_mod_converse(last * interval, interval, last, 0);
        }
    }
}

} // verus!
