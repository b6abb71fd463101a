//! Directions of travel as integer vectors, and the whole-unit step that a
//! given speed makes along one.
use vstd::prelude::*;

use crate::geometry::{moved, Point};

verus! {

/// The largest magnitude of a heading's coordinates.
pub const MAX_COMPONENT: i64 = 0x1_0000_0000;

/// The largest speed that a step can be taken at.
pub const MAX_STEP_SPEED: u32 = 0xFFFF;

/// Angles are counted in half-degrees: a full turn is this many units, and
/// angle 0 points along the positive x axis.
pub const FULL_TURN: u32 = 720;

/// A usable direction: not the zero vector, and small enough to compute with.
pub open spec fn valid_heading(v: (int, int)) -> bool {
    &&& v != (0int, 0int)
    &&& -MAX_COMPONENT <= v.0 <= MAX_COMPONENT
    &&& -MAX_COMPONENT <= v.1 <= MAX_COMPONENT
}

/// The direction from `from` to `to`; due east (the positive x axis) when the
/// two points coincide.
pub open spec fn bearing(from: Point, to: Point) -> (int, int) {
    if from == to {
        (1, 0)
    } else {
        (to.x - from.x, to.y - from.y)
    }
}

/// A direction of travel, as a vector `(x, y)` in screen space: x grows to the
/// right and y grows downwards. Only its direction matters, not its length.
#[derive(Debug, Clone, Copy, PartialEq, Eq)]
pub struct Heading {
    x: i64,
    y: i64,
}

impl View for Heading {
    type V = (int, int);

    closed spec fn view(&self) -> (int, int) {
        (self.x as int, self.y as int)
    }
}

impl Heading {
    #[verifier::type_invariant]
    spec fn inv(self) -> bool {
        valid_heading((self.x as int, self.y as int))
    }

    /// The direction of the vector `(x, y)`; `None` for the zero vector or
    /// for a coordinate beyond `MAX_COMPONENT`.
    pub fn new(x: i64, y: i64) -> (r: Option<Heading>)
        ensures
            r is Some <==> valid_heading((x as int, y as int)),
            r matches Some(h) ==> h@ == (x as int, y as int),
    {
        if (x != 0 || y != 0) && -MAX_COMPONENT <= x && x <= MAX_COMPONENT && -MAX_COMPONENT <= y
            && y <= MAX_COMPONENT {
            Some(Heading { x, y })
        } else {
            None
        }
    }

    /// Due east, the positive x axis.
    pub fn east() -> (r: Heading)
        ensures
            r@ == (1int, 0int),
    {
        Heading { x: 1, y: 0 }
    }

    /// The direction from `from` towards `to`, east where they coincide.
    pub fn between(from: Point, to: Point) -> (r: Heading)
        ensures
            r@ == bearing(from, to),
    {
        if from == to {
            Heading { x: 1, y: 0 }
        } else {
            Heading { x: to.x as i64 - from.x as i64, y: to.y as i64 - from.y as i64 }
        }
    }

    pub fn x(&self) -> (r: i64)
        ensures
            r == self@.0,
    {
        self.x
    }

    pub fn y(&self) -> (r: i64)
        ensures
            r == self@.1,
    {
        self.y
    }
}

/// One heading for each angle of a full turn: entry `k` points at angle `k`
/// (in half-degrees, growing from the positive x axis towards positive y).
pub struct HeadingTable {
    headings: Vec<Heading>,
}

impl View for HeadingTable {
    type V = Seq<(int, int)>;

    closed spec fn view(&self) -> Seq<(int, int)> {
        self.headings@.map_values(|h: Heading| h@)
    }
}

impl HeadingTable {
    #[verifier::type_invariant]
    spec fn inv(self) -> bool {
        self.headings.len() == FULL_TURN
    }

    /// A table from one heading per angle, in order; `None` unless there are
    /// exactly `FULL_TURN` of them.
    pub fn new(headings: Vec<Heading>) -> (r: Option<HeadingTable>)
        ensures
            r is Some <==> headings.len() == FULL_TURN,
            r matches Some(t) ==> t@ == headings@.map_values(|h: Heading| h@),
    {
        if headings.len() == FULL_TURN as usize {
            Some(HeadingTable { headings })
        } else {
            None
        }
    }

    /// The heading at `angle`.
    pub fn get(&self, angle: u32) -> (h: Heading)
        requires
            angle < FULL_TURN,
        ensures
            h@ == self@[angle as int],
    {
        proof {
            use_type_invariant(self);
        }
        self.headings[angle as usize]
    }
}

/// `r` is the share, in whole units, of a step of `speed` along `(a, b)` that
/// falls on the axis of `a`, in magnitude and truncated:
/// `r <= speed * |a| / |(a, b)| < r + 1`, squared to stay in integers.
pub open spec fn is_truncated_share(r: int, speed: int, a: int, b: int) -> bool {
    &&& 0 <= r
    &&& r * r * (a * a + b * b) <= speed * speed * (a * a)
    &&& speed * speed * (a * a) < (r + 1) * (r + 1) * (a * a + b * b)
}

/// `speed * a / |(a, b)|`, truncated toward zero.
pub open spec fn share(speed: int, a: int, b: int) -> int {
    let r = choose|r: int| is_truncated_share(r, speed, a, b);
    if a < 0 {
        -r
    } else {
        r
    }
}

/// The displacement, truncated to whole units on each axis, of one step of
/// `speed` along the direction `v`.
pub open spec fn stride(speed: int, v: (int, int)) -> (int, int) {
    (share(speed, v.0, v.1), share(speed, v.1, v.0))
}

/// `p` after one step of `speed` along `v`.
pub open spec fn advanced(p: Point, speed: int, v: (int, int)) -> Point {
    moved(p, stride(speed, v).0, stride(speed, v).1)
}

proof fn lemma_share_unique(r1: int, r2: int, speed: int, a: int, b: int)
    requires
        is_truncated_share(r1, speed, a, b),
        is_truncated_share(r2, speed, a, b),
    ensures
        r1 == r2,
{
    let n2 = a * a + b * b;
    assert(n2 >= 0) by (nonlinear_arith)
        requires
            n2 == a * a + b * b,
    ;
    if r1 < r2 {
        assert((r1 + 1) * (r1 + 1) * n2 <= r2 * r2 * n2) by (nonlinear_arith)
            requires
                0 <= r1 + 1 <= r2,
                n2 >= 0,
        ;
    } else if r2 < r1 {
        assert((r2 + 1) * (r2 + 1) * n2 <= r1 * r1 * n2) by (nonlinear_arith)
            requires
                0 <= r2 + 1 <= r1,
                n2 >= 0,
        ;
    }
}

/// `speed * a / |(a, b)|`, truncated toward zero, for a valid heading `(a, b)`.
fn truncated_share(speed: u32, a: i64, b: i64) -> (r: i32)
    requires
        speed <= MAX_STEP_SPEED,
        valid_heading((a as int, b as int)),
    ensures
        r == share(speed as int, a as int, b as int),
        -(speed as int) <= r <= speed,
{
    assert(0 <= a * a <= 0x1_0000_0000_0000_0000 && 0 <= b * b <= 0x1_0000_0000_0000_0000)
        by (nonlinear_arith)
        requires
            -0x1_0000_0000 <= a <= 0x1_0000_0000,
            -0x1_0000_0000 <= b <= 0x1_0000_0000,
    ;
    let a_sq: i128 = a as i128 * a as i128;
    let b_sq: i128 = b as i128 * b as i128;
    assert(0 <= a_sq <= 0x1_0000_0000_0000_0000 && 0 <= b_sq <= 0x1_0000_0000_0000_0000)
        by (nonlinear_arith)
        requires
            a_sq == a * a,
            b_sq == b * b,
            -0x1_0000_0000 <= a <= 0x1_0000_0000,
            -0x1_0000_0000 <= b <= 0x1_0000_0000,
    ;
    let a2: u128 = a_sq as u128;
    let b2: u128 = b_sq as u128;
    let n2: u128 = a2 + b2;
    assert(n2 > 0) by (nonlinear_arith)
        requires
            n2 == a * a + b * b,
            a != 0 || b != 0,
    ;
    let s: u128 = speed as u128;
    assert(s * s <= 0x1_0000_0000 && s * s * a2 <= 0x1_0000_0000 * 0x1_0000_0000_0000_0000)
        by (nonlinear_arith)
        requires
            s <= 0xFFFF,
            a2 <= 0x1_0000_0000_0000_0000,
    ;
    let target: u128 = s * s * a2;
    let mut r: u128 = 0;
    assert(r * r * n2 == 0) by (nonlinear_arith)
        requires
            r == 0,
    ;
    loop
        invariant
            r <= s <= 0xFFFF,
            0 < n2 <= 0x2_0000_0000_0000_0000,
            r * r * n2 <= target,
        ensures
            r <= s,
            r * r * n2 <= target,
            r == s || target < (r + 1) * (r + 1) * n2,
        decreases s - r,
    {
        if r >= s {
            break;
        }
        let next: u128 = r + 1;
        assert(next * next <= 0x1_0000_0000 && next * next * n2 <= 0x1_0000_0000 * 0x2_0000_0000_0000_0000)
            by (nonlinear_arith)
            requires
                next <= 0xFFFF,
                0 < n2 <= 0x2_0000_0000_0000_0000,
        ;
        if next * next * n2 > target {
            break;
        }
        r = next;
    }
    proof {
        assert((r + 1) * (r + 1) * n2 <= 0x1_0001_0000 * 0x1_0000_0000 * 0x2_0000_0000_0000_0000)
            by (nonlinear_arith)
            requires
                r <= 0xFFFF,
                0 < n2 <= 0x2_0000_0000_0000_0000,
        ;
        if r == s {
            assert(target < (r + 1) * (r + 1) * n2) by (nonlinear_arith)
                requires
                    r == s,
                    target == s * s * a2,
                    n2 == a2 + b2,
                    b2 >= 0,
                    n2 > 0,
            ;
        }
        assert(is_truncated_share(r as int, speed as int, a as int, b as int));
        let c = choose|c: int| is_truncated_share(c, speed as int, a as int, b as int);
        lemma_share_unique(r as int, c, speed as int, a as int, b as int);
    }
    if a < 0 {
        -(r as i32)
    } else {
        r as i32
    }
}

/// `p` after one step of `speed` along `h`.
pub fn step_along(p: Point, speed: u32, h: Heading) -> (r: Point)
    requires
        speed <= MAX_STEP_SPEED,
    ensures
        r == advanced(p, speed as int, h@),
{
    proof {
        use_type_invariant(h);
    }
    let dx = truncated_share(speed, h.x, h.y);
    let dy = truncated_share(speed, h.y, h.x);
    p.offset(dx, dy)
}

} // verus!
