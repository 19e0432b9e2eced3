use vstd::prelude::*;

use crate::animation::{Animation, AnimationPosition, Joints};
use crate::human::Human;
use crate::point::{fits_i64, Point};

verus! {

/// Key code that captures the current configuration.
pub const KEY_N: u32 = 78;

/// Key code that takes back the last capture.
pub const KEY_B: u32 = 66;

/// Key code that asks for a download of the captures.
pub const KEY_D: u32 = 68;

/// Key code that shows the next reference image.
pub const KEY_RIGHT: u32 = 39;

/// Key code that shows the previous reference image.
pub const KEY_LEFT: u32 = 37;

/// An affine map from screen pixels to the drawing space:
/// `x = a * px + c * py + e` and `y = b * px + d * py + f`, where `a` to `d`
/// are fixed-point steps per pixel and `e`, `f` fixed-point steps.
#[derive(Clone, Copy, Debug, PartialEq, Eq, Structural)]
pub struct ScreenTransform {
    pub a: i64,
    pub b: i64,
    pub c: i64,
    pub d: i64,
    pub e: i64,
    pub f: i64,
}

impl ScreenTransform {
    /// The point of the drawing space under the pixel `(px, py)`.
    pub open spec fn apply_spec(self, px: int, py: int) -> (int, int) {
        (self.a * px + self.c * py + self.e, self.b * px + self.d * py + self.f)
    }

    /// Whether the point of `apply_spec` can be stored.
    pub open spec fn apply_fits(self, px: int, py: int) -> bool {
        &&& fits_i64(self.apply_spec(px, py).0)
        &&& fits_i64(self.apply_spec(px, py).1)
    }

    /// The point of the drawing space under the pixel `(px, py)`, or `None`
    /// where it cannot be stored.
    pub fn apply(&self, px: i32, py: i32) -> (r: Option<Point>)
        ensures
            self.apply_fits(px as int, py as int) ==> r == Some(
                Point::from_ints(self.apply_spec(px as int, py as int)),
            ),
            !self.apply_fits(px as int, py as int) ==> r is None,
    {
        let x: i128 = affine_row(self.a, self.c, self.e, px, py);
        let y: i128 = affine_row(self.b, self.d, self.f, px, py);
        if i64::MIN as i128 <= x && x <= i64::MAX as i128 && i64::MIN as i128 <= y && y
            <= i64::MAX as i128 {
            Some(Point { x: x as i64, y: y as i64 })
        } else {
            None
        }
    }
}

/// `m * px + n * py + o`, computed without overflow.
fn affine_row(m: i64, n: i64, o: i64, px: i32, py: i32) -> (r: i128)
    ensures
        r == m * px + n * py + o,
{
    let ghost bound: int = 0x4000_0000_0000_0000_0000_0000;
    assert(-bound <= m * px <= bound) by (nonlinear_arith)
        requires
            -0x8000_0000_0000_0000 <= m <= 0x8000_0000_0000_0000,
            -0x8000_0000 <= px <= 0x8000_0000,
            bound == 0x4000_0000_0000_0000_0000_0000,
    ;
    assert(-bound <= n * py <= bound) by (nonlinear_arith)
        requires
            -0x8000_0000_0000_0000 <= n <= 0x8000_0000_0000_0000,
            -0x8000_0000 <= py <= 0x8000_0000,
            bound == 0x4000_0000_0000_0000_0000_0000,
    ;
    let u: i128 = m as i128 * px as i128;
    let v: i128 = n as i128 * py as i128;
    u + v + o as i128
}

/// A pointer event: the pixel under the pointer, and the map from screen to
/// drawing space at that moment, where the screen has one that can be
/// inverted.
#[derive(Clone, Copy, Debug, PartialEq, Eq, Structural)]
pub struct PointerEvent {
    pub client_x: i32,
    pub client_y: i32,
    pub transform: Option<ScreenTransform>,
}

impl PointerEvent {
    /// Where the event points in the drawing space, if that can be told.
    pub open spec fn logical_spec(self) -> Option<Point> {
        match self.transform {
            Some(t) => if t.apply_fits(self.client_x as int, self.client_y as int) {
                Some(Point::from_ints(t.apply_spec(self.client_x as int, self.client_y as int)))
            } else {
                None
            },
            None => None,
        }
    }

    /// Where the event points in the drawing space, or `None` where the
    /// screen gives no usable map or the point cannot be stored.
    pub fn logical(&self) -> (r: Option<Point>)
        ensures
            r == self.logical_spec(),
    {
        match self.transform {
            Some(t) => t.apply(self.client_x, self.client_y),
            None => None,
        }
    }
}

/// The inputs of the editor.
#[derive(Clone, Copy, Debug, PartialEq, Eq, Structural)]
pub enum TesterMsg {
    /// The pointer went down on the handle of a joint.
    ClickedJoint(Joints, PointerEvent),
    /// The pointer was released.
    MouseUp,
    /// The pointer moved.
    MouseMove(PointerEvent),
    /// A key was pressed, with its key code.
    KeyDown(u32),
}

/// What the host does after an input: draw again, and hand the captures
/// to the user as a download.
#[derive(Clone, Copy, Debug, PartialEq, Eq, Structural)]
pub struct Reaction {
    pub redraw: bool,
    pub download: bool,
}

/// The captures and the two indices after a key press, with `pose` the
/// configuration on screen.
///
/// `KEY_N` appends `pose` and advances both indices; `KEY_B` removes the
/// last capture and steps both back, the image index no lower than 1;
/// `KEY_RIGHT` and `KEY_LEFT` move the image index alone, never below 1.
/// The indices are `usize`: an index at its maximum does not advance, and a
/// capture is refused when the editing index is there.
pub open spec fn key_step(
    captured: Seq<AnimationPosition>,
    image_index: int,
    editing_index: int,
    code: u32,
    pose: AnimationPosition,
) -> (Seq<AnimationPosition>, int, int) {
    let image_up = if image_index < usize::MAX { image_index + 1 } else { image_index };
    let image_down = if image_index > 1 { image_index - 1 } else { image_index };
    if code == KEY_N {
        if editing_index < usize::MAX {
            (captured.push(pose), image_up, editing_index + 1)
        } else {
            (captured, image_index, editing_index)
        }
    } else if code == KEY_B {
        if editing_index > 0 && captured.len() > 0 {
            (captured.drop_last(), image_down, editing_index - 1)
        } else {
            (captured, image_index, editing_index)
        }
    } else if code == KEY_RIGHT {
        (captured, image_up, editing_index)
    } else if code == KEY_LEFT {
        (captured, image_down, editing_index)
    } else {
        (captured, image_index, editing_index)
    }
}

/// Whether the editor reacts to a key.
pub open spec fn known_key(code: u32) -> bool {
    code == KEY_N || code == KEY_B || code == KEY_D || code == KEY_RIGHT || code == KEY_LEFT
}

/// The editor: a body whose joints are dragged with the pointer, the joint
/// being dragged with the offset from the pointer to it, the index of the
/// reference image shown (from 1), the number of captures, and the captures.
#[derive(Clone, Debug)]
pub struct Tester {
    pub human: Human,
    pub current_joint: Option<(Joints, Point)>,
    pub image_index: usize,
    pub editing_index: usize,
    pub output: Animation,
}

impl Tester {
    /// The editor's invariant: the editing index counts the captures and the
    /// image index is at least 1.
    pub open spec fn inv(&self) -> bool {
        &&& self.editing_index == self.output.positions@.len()
        &&& self.image_index >= 1
    }

    /// The drag after `msg`: a press on a joint starts one, with the offset
    /// from the joint to the pointer, unless the pointer cannot be placed in
    /// the drawing space; a release ends it.
    pub open spec fn drag_after(&self, msg: TesterMsg) -> Option<(Joints, Point)> {
        match msg {
            TesterMsg::ClickedJoint(j, ev) => match ev.logical_spec() {
                Some(p) => if p.minus_fits(self.human.joints.joint(j)) {
                    Some((j, Point::from_ints(p.minus(self.human.joints.joint(j)))))
                } else {
                    self.current_joint
                },
                None => self.current_joint,
            },
            TesterMsg::MouseUp => None,
            _ => self.current_joint,
        }
    }

    /// The joints after `msg`: a move during a drag puts the dragged joint
    /// under the pointer, less the offset taken when the drag started.
    pub open spec fn joints_after(&self, msg: TesterMsg) -> AnimationPosition {
        match (msg, self.current_joint) {
            (TesterMsg::MouseMove(ev), Some((j, offset))) => match ev.logical_spec() {
                Some(p) => if p.minus_fits(offset) {
                    self.human.joints.with_joint(j, Point::from_ints(p.minus(offset)))
                } else {
                    self.human.joints
                },
                None => self.human.joints,
            },
            _ => self.human.joints,
        }
    }

    /// The captures and the two indices after `msg`.
    pub open spec fn keys_after(&self, msg: TesterMsg) -> (Seq<AnimationPosition>, int, int) {
        match msg {
            TesterMsg::KeyDown(code) => key_step(
                self.output.positions@,
                self.image_index as int,
                self.editing_index as int,
                code,
                self.human.joints,
            ),
            _ => (self.output.positions@, self.image_index as int, self.editing_index as int),
        }
    }

    /// What the host is asked to do after `msg`.
    pub open spec fn reaction_to(msg: TesterMsg) -> Reaction {
        match msg {
            TesterMsg::MouseMove(_) => Reaction { redraw: true, download: false },
            TesterMsg::KeyDown(code) => Reaction { redraw: known_key(code), download: code == KEY_D },
            _ => Reaction { redraw: false, download: false },
        }
    }

    /// A new editor: the upright body, no drag, the first image and no
    /// captures.
    pub fn new() -> (r: Tester)
        ensures
            r.inv(),
            r.human.joints == crate::human::standing(),
            r.human.current_animation is None,
            r.current_joint is None,
            r.image_index == 1,
            r.output.positions@.len() == 0,
    {
        Tester {
            human: Human::new(),
            current_joint: None,
            image_index: 1,
            editing_index: 0,
            output: Animation::new(),
        }
    }

    /// Handles one input.
    pub fn update(&mut self, tester_msg: TesterMsg) -> (r: Reaction)
        ensures
            final(self).current_joint == old(self).drag_after(tester_msg),
            final(self).human.joints == old(self).joints_after(tester_msg),
            final(self).human.current_animation == old(self).human.current_animation,
            (
                final(self).output.positions@,
                final(self).image_index as int,
                final(self).editing_index as int,
            ) == old(self).keys_after(tester_msg),
            r == Tester::reaction_to(tester_msg),
            old(self).inv() ==> final(self).inv(),
    {
        match tester_msg {
            TesterMsg::ClickedJoint(joint, e) => {
                if let Some(pointer) = e.logical() {
                    let target = self.human.joints.get_joint(joint);
                    if let Some(offset) = pointer.checked_offset_from(&target) {
                        self.current_joint = Some((joint, offset));
                    }
                }
                Reaction { redraw: false, download: false }
            },
            TesterMsg::MouseUp => {
                self.current_joint = None;
                Reaction { redraw: false, download: false }
            },
            TesterMsg::MouseMove(e) => {
                if let Some((joint, offset)) = self.current_joint {
                    if let Some(pointer) = e.logical() {
                        if let Some(new_pos) = pointer.checked_offset_from(&offset) {
                            self.human.joints.set_joint(joint, Some(new_pos.x), Some(new_pos.y));
                        }
                    }
                }
                Reaction { redraw: true, download: false }
            },
            TesterMsg::KeyDown(code) => self.key_down(code),
        }
    }

    /// Handles one key press.
    fn key_down(&mut self, code: u32) -> (r: Reaction)
        ensures
            final(self).current_joint == old(self).current_joint,
            final(self).human == old(self).human,
            (
                final(self).output.positions@,
                final(self).image_index as int,
                final(self).editing_index as int,
            ) == key_step(
                old(self).output.positions@,
                old(self).image_index as int,
                old(self).editing_index as int,
                code,
                old(self).human.joints,
            ),
            r == (Reaction { redraw: known_key(code), download: code == KEY_D }),
    {
        if code == KEY_N {
            if self.editing_index < usize::MAX {
                self.output.positions.push(AnimationPosition::from_human(&self.human));
                if self.image_index < usize::MAX {
                    self.image_index += 1;
                }
                self.editing_index += 1;
            }
        } else if code == KEY_B {
            if self.editing_index > 0 && self.output.positions.len() > 0 {
                self.output.positions.pop();
                if self.image_index > 1 {
                    self.image_index -= 1;
                }
                self.editing_index -= 1;
            }
        } else if code == KEY_RIGHT {
            if self.image_index < usize::MAX {
                self.image_index += 1;
            }
        } else if code == KEY_LEFT {
            if self.image_index > 1 {
                self.image_index -= 1;
            }
        }
        let known = code == KEY_N || code == KEY_B || code == KEY_D || code == KEY_RIGHT || code
            == KEY_LEFT;
        Reaction { redraw: known, download: code == KEY_D }
    }
}

/// The captures and indices after pressing the key `code` `n` times in a row
/// with `pose` on screen.
pub open spec fn repeat_key(
    state: (Seq<AnimationPosition>, int, int),
    code: u32,
    pose: AnimationPosition,
    n: nat,
) -> (Seq<AnimationPosition>, int, int)
    decreases n,
{
    if n == 0 {
        state
    } else {
        let prev = repeat_key(state, code, pose, (n - 1) as nat);
        key_step(prev.0, prev.1, prev.2, code, pose)
    }
}

/// `n` copies of `pose`.
pub open spec fn copies(pose: AnimationPosition, n: nat) -> Seq<AnimationPosition> {
    Seq::new(n, |i: int| pose)
}

/// `n` captures append `n` copies of the pose and advance both indices by `n`.
pub proof fn lemma_captures(
    captured: Seq<AnimationPosition>,
    image_index: int,
    editing_index: int,
    pose: AnimationPosition,
    n: nat,
)
    requires
        editing_index + n <= usize::MAX,
        image_index + n <= usize::MAX,
    ensures
        repeat_key((captured, image_index, editing_index), KEY_N, pose, n) == (
            captured + copies(pose, n),
            image_index + n,
            editing_index + n,
        ),
    decreases n,
{
    if n == 0 {
        assert(captured + copies(pose, 0) =~= captured);
    } else {
        lemma_captures(captured, image_index, editing_index, pose, (n - 1) as nat);
        assert((captured + copies(pose, (n - 1) as nat)).push(pose) =~= captured + copies(pose, n));
    }
}

/// `k` undos after `m >= k` captures of `pose` take back the last `k` of them.
pub proof fn lemma_undos(
    captured: Seq<AnimationPosition>,
    image_index: int,
    editing_index: int,
    pose: AnimationPosition,
    m: nat,
    k: nat,
)
    requires
        k <= m,
        image_index >= 1,
        editing_index >= 0,
    ensures
        repeat_key(
            (captured + copies(pose, m), image_index + m, editing_index + m),
            KEY_B,
            pose,
            k,
        ) == (captured + copies(pose, (m - k) as nat), image_index + m - k, editing_index + m - k),
    decreases k,
{
    if k > 0 {
        lemma_undos(captured, image_index, editing_index, pose, m, (k - 1) as nat);
        let rest = (m - k) as nat;
        assert((captured + copies(pose, (rest + 1) as nat)).drop_last() =~= captured + copies(
            pose,
            rest,
        ));
    }
}

/// Capturing `n` times and then undoing `n` times gives back the captures and
/// both indices as they were.
pub proof fn lemma_capture_undo_inverse(
    captured: Seq<AnimationPosition>,
    image_index: int,
    editing_index: int,
    pose: AnimationPosition,
    n: nat,
)
    requires
        editing_index == captured.len(),
        image_index >= 1,
        editing_index + n <= usize::MAX,
        image_index + n <= usize::MAX,
    ensures
        repeat_key(
            repeat_key((captured, image_index, editing_index), KEY_N, pose, n),
            KEY_B,
            pose,
            n,
        ) == (captured, image_index, editing_index),
{
    lemma_captures(captured, image_index, editing_index, pose, n);
    lemma_undos(captured, image_index, editing_index, pose, n, n);
    assert(captured + copies(pose, 0) =~= captured);
}

/// On the first image, pressing `KEY_LEFT` any number of times stays there,
/// and changes nothing else.
pub proof fn lemma_left_stays_at_first(
    captured: Seq<AnimationPosition>,
    editing_index: int,
    pose: AnimationPosition,
    n: nat,
)
    ensures
        repeat_key((captured, 1, editing_index), KEY_LEFT, pose, n) == (captured, 1int, editing_index),
    decreases n,
{
    if n > 0 {
        lemma_left_stays_at_first(captured, editing_index, pose, (n - 1) as nat);
    }
}

/// Without a drag under way, a pointer move leaves every joint in place; and
/// a release always ends the drag.
pub proof fn lemma_move_needs_drag(t: Tester, ev: PointerEvent)
    ensures
        t.current_joint is None ==> t.joints_after(TesterMsg::MouseMove(ev)) == t.human.joints,
        t.drag_after(TesterMsg::MouseUp) is None,
{
}

} // verus!
