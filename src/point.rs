use vstd::arithmetic::div_mod::{lemma_fundamental_div_mod, lemma_fundamental_div_mod_converse};
use vstd::prelude::*;

verus! {

/// Number of fixed-point steps in one unit of the normalized drawing space.
///
/// Coordinates are stored as integers: the drawing space is roughly 1.5 units
/// wide and 1.0 unit high, so a point on it has coordinates between 0 and
/// about `3 * UNIT / 2`.
pub const UNIT: i64 = 1_000_000;

/// Whether a mathematical integer can be stored in an `i64`.
pub open spec fn fits_i64(v: int) -> bool {
    i64::MIN <= v <= i64::MAX
}

/// `a + (b - a) * num / den`, rounded down: the coordinate reached from `a`
/// towards `b` at the parameter `num / den`.
pub open spec fn lerp_coord(a: int, b: int, num: int, den: int) -> int {
    a + (b - a) * num / den
}

/// Division rounded towards negative infinity, for a positive divisor.
fn floor_div(n: i128, d: i128) -> (r: i128)
    requires
        d > 0,
        n > i128::MIN,
    ensures
        r == n / d,
{
    if n >= 0 {
        n / d
    } else {
        let m: i128 = -n - 1;
        let q: i128 = m / d;
        proof {
            let rem = m % d;
            lemma_fundamental_div_mod(m as int, d as int);
            assert(0 <= rem < d) by {
                vstd::arithmetic::div_mod::lemma_mod_pos_bound(m as int, d as int);
            }
            assert(n == (-q - 1) * d + (d - 1 - rem)) by (nonlinear_arith)
                requires
                    m == d * q + rem,
                    m == -n - 1,
            ;
            lemma_fundamental_div_mod_converse(n as int, d as int, -q - 1, d - 1 - rem);
        }
        -q - 1
    }
}

/// The exact value of `(b - a) * num / den`, rounded down, when both
/// coordinates and `num` are `i64` values.
fn scaled_difference(a: i64, b: i64, num: i64, den: i64) -> (r: i128)
    requires
        den > 0,
    ensures
        r == (b - a) * num / (den as int),
{
    let diff: i128 = b as i128 - a as i128;
    assert(-0x1_0000_0000_0000_0000 < diff < 0x1_0000_0000_0000_0000);
    assert(-0x8000_0000_0000_0000 <= num <= 0x8000_0000_0000_0000);
    assert(-0x7fff_ffff_ffff_ffff_8000_0000_0000_0000 <= diff * num
        <= 0x7fff_ffff_ffff_ffff_8000_0000_0000_0000) by (nonlinear_arith)
        requires
            -0x1_0000_0000_0000_0000 < diff < 0x1_0000_0000_0000_0000,
            -0x8000_0000_0000_0000 <= num <= 0x8000_0000_0000_0000,
    ;
    let prod: i128 = diff * (num as i128);
    floor_div(prod, den as i128)
}

/// A point of the drawing space, in fixed-point steps (see [`UNIT`]).
#[derive(Clone, Copy, Debug, PartialEq, Eq, Structural)]
pub struct Point {
    pub x: i64,
    pub y: i64,
}

impl Point {
    /// The point reached from `self` towards `next` at the parameter
    /// `num / den`; the parameter may lie outside `[0, 1]`.
    pub open spec fn lerp_spec(self, next: Point, num: int, den: int) -> (int, int) {
        (lerp_coord(self.x as int, next.x as int, num, den), lerp_coord(
            self.y as int,
            next.y as int,
            num,
            den,
        ))
    }

    /// Whether the point of `lerp_spec` can be stored.
    pub open spec fn lerp_fits(self, next: Point, num: int, den: int) -> bool {
        &&& fits_i64(self.lerp_spec(next, num, den).0)
        &&& fits_i64(self.lerp_spec(next, num, den).1)
    }

    /// `self` moved by `offset`, coordinate by coordinate.
    pub open spec fn shifted(self, offset: Point) -> (int, int) {
        (self.x + offset.x, self.y + offset.y)
    }

    /// Whether the point of `shifted` can be stored.
    pub open spec fn shift_fits(self, offset: Point) -> bool {
        &&& fits_i64(self.shifted(offset).0)
        &&& fits_i64(self.shifted(offset).1)
    }

    /// The vector from `base` to `self`.
    pub open spec fn minus(self, base: Point) -> (int, int) {
        (self.x - base.x, self.y - base.y)
    }

    /// Whether the vector of `minus` can be stored.
    pub open spec fn minus_fits(self, base: Point) -> bool {
        &&& fits_i64(self.minus(base).0)
        &&& fits_i64(self.minus(base).1)
    }

    /// The point with the given coordinates, which must be storable.
    pub open spec fn from_ints(c: (int, int)) -> Point {
        Point { x: c.0 as i64, y: c.1 as i64 }
    }

    /// `self` with each coordinate replaced where a new value is given.
    pub open spec fn updated(self, x: Option<i64>, y: Option<i64>) -> Point {
        Point {
            x: match x {
                Some(v) => v,
                None => self.x,
            },
            y: match y {
                Some(v) => v,
                None => self.y,
            },
        }
    }

    /// Replaces the coordinates that are given and keeps the others.
    pub fn update(&mut self, x: Option<i64>, y: Option<i64>)
        ensures
            *final(self) == old(self).updated(x, y),
    {
        if let Some(v) = x {
            self.x = v;
        }
        if let Some(v) = y {
            self.y = v;
        }
    }

    /// Linear interpolation from `self` towards `next`: each coordinate is
    /// `a + (b - a) * num / den`, rounded down.
    pub fn lerp(&self, next: &Point, num: i64, den: i64) -> (r: Point)
        requires
            den > 0,
            self.lerp_fits(*next, num as int, den as int),
        ensures
            r == Point::from_ints(self.lerp_spec(*next, num as int, den as int)),
    {
        let dx = scaled_difference(self.x, next.x, num, den);
        let dy = scaled_difference(self.y, next.y, num, den);
        Point { x: (self.x as i128 + dx) as i64, y: (self.y as i128 + dy) as i64 }
    }

    /// `self` moved by `offset`.
    pub fn apply_offset_by(&self, offset: Point) -> (r: Point)
        requires
            self.shift_fits(offset),
        ensures
            r == Point::from_ints(self.shifted(offset)),
    {
        Point { x: self.x + offset.x, y: self.y + offset.y }
    }

    /// Whether `self` moved by `offset` can be stored.
    pub fn offset_fits(&self, offset: Point) -> (r: bool)
        ensures
            r == self.shift_fits(offset),
    {
        let x: i128 = self.x as i128 + offset.x as i128;
        let y: i128 = self.y as i128 + offset.y as i128;
        i64::MIN as i128 <= x && x <= i64::MAX as i128 && i64::MIN as i128 <= y && y
            <= i64::MAX as i128
    }

    /// The vector from `base` to `self`, or `None` where a coordinate of it
    /// cannot be stored.
    pub fn checked_offset_from(&self, base: &Point) -> (r: Option<Point>)
        ensures
            self.minus_fits(*base) ==> r == Some(Point::from_ints(self.minus(*base))),
            !self.minus_fits(*base) ==> r is None,
    {
        let dx: i128 = self.x as i128 - base.x as i128;
        let dy: i128 = self.y as i128 - base.y as i128;
        if dx < i64::MIN as i128 || dx > i64::MAX as i128 || dy < i64::MIN as i128 || dy
            > i64::MAX as i128 {
            None
        } else {
            Some(Point { x: dx as i64, y: dy as i64 })
        }
    }
}

/// Interpolation at a parameter in `[0, 1]` stays between the two ends.
pub proof fn lemma_lerp_coord_between(a: int, b: int, num: int, den: int)
    requires
        den > 0,
        0 <= num <= den,
    ensures
        a <= b ==> a <= lerp_coord(a, b, num, den) <= b,
        b <= a ==> b <= lerp_coord(a, b, num, den) <= a,
{
    let p = (b - a) * num;
    lemma_fundamental_div_mod(p, den);
    vstd::arithmetic::div_mod::lemma_mod_bound(p, den);
    let q = p / den;
    let rem = p % den;
    if a <= b {
        assert(0 <= q <= b - a) by (nonlinear_arith)
            requires
                p == (b - a) * num,
                p == den * q + rem,
                0 <= rem < den,
                0 <= num <= den,
                a <= b,
        ;
    } else {
        assert(b - a <= q <= 0) by (nonlinear_arith)
            requires
                p == (b - a) * num,
                p == den * q + rem,
                0 <= rem < den,
                0 <= num <= den,
                b < a,
        ;
    }
}

/// Interpolation at a parameter in `[0, 1]` never leaves the storable range.
pub proof fn lemma_lerp_fits_inside(a: Point, b: Point, num: int, den: int)
    requires
        den > 0,
        0 <= num <= den,
    ensures
        a.lerp_fits(b, num, den),
{
    lemma_lerp_coord_between(a.x as int, b.x as int, num, den);
    lemma_lerp_coord_between(a.y as int, b.y as int, num, den);
}

/// The rounding of an interpolated coordinate: `den * lerp_coord` falls
/// short of `den * a + (b - a) * num` by a remainder in `[0, den)`.
pub proof fn lemma_lerp_affine_coord(a: int, b: int, num: int, den: int)
    requires
        den > 0,
    ensures
        den * lerp_coord(a, b, num, den) + ((b - a) * num) % den == den * a + (b - a) * num,
        0 <= ((b - a) * num) % den < den,
{
    let p = (b - a) * num;
    lemma_fundamental_div_mod(p, den);
    vstd::arithmetic::div_mod::lemma_mod_bound(p, den);
    assert(den * (a + p / den) == den * a + den * (p / den)) by (nonlinear_arith);
}

/// Interpolation at one half gives the average, rounded down.
pub proof fn lemma_lerp_midpoint_coord(a: int, b: int)
    ensures
        lerp_coord(a, b, 1, 2) == (a + b) / 2,
{
    let d = b - a;
    lemma_fundamental_div_mod(d, 2);
    vstd::arithmetic::div_mod::lemma_mod_bound(d, 2);
    lemma_fundamental_div_mod_converse(a + b, 2, a + d / 2, d % 2);
}

} // verus!
