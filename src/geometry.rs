//! Points, rectangles and the swept-segment hit test.
use vstd::prelude::*;

verus! {

/// The value of `v` saturated to the range of `i32`.
pub open spec fn clamp_i32(v: int) -> int {
    if v < i32::MIN {
        i32::MIN as int
    } else if v > i32::MAX {
        i32::MAX as int
    } else {
        v
    }
}

/// A position in world or screen space, in whole screen units.
#[derive(Debug, Clone, Copy, PartialEq, Eq, Structural)]
pub struct Point {
    pub x: i32,
    pub y: i32,
}

/// `p` moved by `(dx, dy)`, each coordinate saturating at the bounds of `i32`.
pub open spec fn moved(p: Point, dx: int, dy: int) -> Point {
    Point { x: clamp_i32(p.x + dx) as i32, y: clamp_i32(p.y + dy) as i32 }
}

fn saturating_add(a: i32, b: i32) -> (r: i32)
    ensures
        r == clamp_i32(a + b),
{
    let s: i64 = a as i64 + b as i64;
    if s < i32::MIN as i64 {
        i32::MIN
    } else if s > i32::MAX as i64 {
        i32::MAX
    } else {
        s as i32
    }
}

impl Point {
    pub fn new(x: i32, y: i32) -> (r: Point)
        ensures
            r.x == x,
            r.y == y,
    {
        Point { x, y }
    }

    pub fn x(self) -> (r: i32)
        ensures
            r == self.x,
    {
        self.x
    }

    pub fn y(self) -> (r: i32)
        ensures
            r == self.y,
    {
        self.y
    }

    /// This point shifted by `(dx, dy)`, saturating at the bounds of `i32`.
    pub fn offset(self, dx: i32, dy: i32) -> (r: Point)
        ensures
            r == moved(self, dx as int, dy as int),
    {
        Point { x: saturating_add(self.x, dx), y: saturating_add(self.y, dy) }
    }

    /// The sum of two points, coordinate by coordinate, saturating.
    pub fn add(self, other: Point) -> (r: Point)
        ensures
            r == moved(self, other.x as int, other.y as int),
    {
        self.offset(other.x, other.y)
    }
}


/// An axis-aligned rectangle whose top-left pixel is `(x, y)`. It covers the
/// pixels from `x` to `x + width - 1` across and from `y` to `y + height - 1`
/// down; both bounds are part of it.
#[derive(Debug, Clone, Copy, PartialEq, Eq, Structural)]
pub struct Rect {
    pub x: i32,
    pub y: i32,
    pub width: u32,
    pub height: u32,
}

impl Rect {
    pub open spec fn right(self) -> int {
        self.x + self.width - 1
    }

    pub open spec fn bottom(self) -> int {
        self.y + self.height - 1
    }

    pub fn new(x: i32, y: i32, width: u32, height: u32) -> (r: Rect)
        ensures
            r == (Rect { x, y, width, height }),
    {
        Rect { x, y, width, height }
    }

    /// A `width` by `height` rectangle centred on `center`: its corner lies half
    /// the size (rounded down) up and to the left of it, saturating.
    pub fn from_center(center: Point, width: u32, height: u32) -> (r: Rect)
        ensures
            r.x == clamp_i32(center.x - width / 2),
            r.y == clamp_i32(center.y - height / 2),
            r.width == width,
            r.height == height,
    {
        let x: i64 = center.x as i64 - (width / 2) as i64;
        let y: i64 = center.y as i64 - (height / 2) as i64;
        let x: i32 = if x < i32::MIN as i64 { i32::MIN } else { x as i32 };
        let y: i32 = if y < i32::MIN as i64 { i32::MIN } else { y as i32 };
        Rect { x, y, width, height }
    }
}

/// The point a fraction `n / d` of the way from `a` to `b` lies in `r`.
pub open spec fn fraction_in_rect(a: Point, b: Point, r: Rect, n: int, d: int) -> bool {
    &&& 0 < d
    &&& 0 <= n <= d
    &&& r.x * d <= a.x * d + (b.x - a.x) * n <= r.right() * d
    &&& r.y * d <= a.y * d + (b.y - a.y) * n <= r.bottom() * d
}

/// Some point of the segment from `a` to `b`, ends included, lies in `r`:
/// the segment crosses the rectangle's border or runs inside it.
pub open spec fn segment_meets_rect(a: Point, b: Point, r: Rect) -> bool {
    exists|n: int, d: int| fraction_in_rect(a, b, r, n, d)
}

/// `f.0 / f.1 <= g.0 / g.1`, for positive denominators.
spec fn frac_le(f: (int, int), g: (int, int)) -> bool {
    f.0 * g.1 <= g.0 * f.1
}

spec fn frac_of(f: (i128, i128)) -> (int, int) {
    (f.0 as int, f.1 as int)
}

/// Bounds `lo <= s + (e - s) * t <= hi` on the parameter `t = n / d`, scaled by `d`.
spec fn on_axis(s: int, e: int, lo: int, hi: int, n: int, d: int) -> bool {
    lo * d <= s * d + (e - s) * n <= hi * d
}

/// The window of `t` that keeps one coordinate between `lo` and `hi`, as a
/// lower and an upper fraction.
spec fn window_exact(s: int, e: int, lo: int, hi: int, w: ((int, int), (int, int))) -> bool {
    &&& w.0.1 > 0
    &&& w.1.1 > 0
    &&& forall|n: int, d: int|
        0 <= n <= d && d > 0 ==> (on_axis(s, e, lo, hi, n, d) <==> (frac_le(w.0, (n, d)) && frac_le((n, d), w.1)))
}

proof fn lemma_frac_trans(f: (int, int), g: (int, int), h: (int, int))
    requires
        f.1 > 0,
        g.1 > 0,
        h.1 > 0,
        frac_le(f, g),
        frac_le(g, h),
    ensures
        frac_le(f, h),
{
    assert(f.0 * g.1 * h.1 <= g.0 * f.1 * h.1) by (nonlinear_arith)
        requires
            f.0 * g.1 <= g.0 * f.1,
            h.1 > 0,
    ;
    assert(g.0 * h.1 * f.1 <= h.0 * g.1 * f.1) by (nonlinear_arith)
        requires
            g.0 * h.1 <= h.0 * g.1,
            f.1 > 0,
    ;
    assert(f.0 * h.1 <= h.0 * f.1) by (nonlinear_arith)
        requires
            f.0 * g.1 * h.1 <= g.0 * f.1 * h.1,
            g.0 * h.1 * f.1 <= h.0 * g.1 * f.1,
            g.1 > 0,
    ;
}

proof fn lemma_axis_rising(s: int, e: int, lo: int, hi: int)
    requires
        e - s > 0,
    ensures
        window_exact(s, e, lo, hi, ((lo - s, e - s), (hi - s, e - s))),
{
    assert forall|n: int, d: int| 0 <= n <= d && d > 0 implies (on_axis(s, e, lo, hi, n, d) <==> (frac_le(
        (lo - s, e - s),
        (n, d),
    ) && frac_le((n, d), (hi - s, e - s)))) by {
        assert((lo - s) * d == lo * d - s * d) by (nonlinear_arith);
        assert((hi - s) * d == hi * d - s * d) by (nonlinear_arith);
        assert(n * (e - s) == (e - s) * n) by (nonlinear_arith);
    }
}

proof fn lemma_axis_falling(s: int, e: int, lo: int, hi: int)
    requires
        e - s < 0,
    ensures
        window_exact(s, e, lo, hi, ((s - hi, s - e), (s - lo, s - e))),
{
    assert forall|n: int, d: int| 0 <= n <= d && d > 0 implies (on_axis(s, e, lo, hi, n, d) <==> (frac_le(
        (s - hi, s - e),
        (n, d),
    ) && frac_le((n, d), (s - lo, s - e)))) by {
        assert((s - hi) * d == s * d - hi * d) by (nonlinear_arith);
        assert((s - lo) * d == s * d - lo * d) by (nonlinear_arith);
        assert(n * (s - e) == -((e - s) * n)) by (nonlinear_arith);
    }
}

proof fn lemma_axis_still(s: int, e: int, lo: int, hi: int)
    requires
        e == s,
    ensures
        lo <= s <= hi ==> window_exact(s, e, lo, hi, ((0, 1), (1, 1))),
        !(lo <= s <= hi) ==> forall|n: int, d: int| d > 0 ==> !on_axis(s, e, lo, hi, n, d),
{
    assert forall|n: int, d: int| d > 0 implies (on_axis(s, e, lo, hi, n, d) <==> lo <= s <= hi) by {
        assert((e - s) * n == 0);
        assert(lo * d <= s * d <==> lo <= s) by (nonlinear_arith)
            requires
                d > 0,
        ;
        assert(s * d <= hi * d <==> s <= hi) by (nonlinear_arith)
            requires
                d > 0,
        ;
        assert(0 * d == 0 && n * 1 == n && 1 * d == d);
    }
}

/// The window of the segment parameter that keeps the coordinate running from
/// `s` to `e` between `lo` and `hi`; `None` when no parameter does.
fn axis_window(s: i32, e: i32, lo: i64, hi: i64) -> (w: Option<((i128, i128), (i128, i128))>)
    requires
        -0x4_0000_0000 <= lo <= 0x4_0000_0000,
        -0x4_0000_0000 <= hi <= 0x4_0000_0000,
    ensures
        w is None ==> forall|n: int, d: int| d > 0 ==> !on_axis(s as int, e as int, lo as int, hi as int, n, d),
        w matches Some(f) ==> {
            &&& window_exact(s as int, e as int, lo as int, hi as int, (frac_of(f.0), frac_of(f.1)))
            &&& -0x8_0000_0000 <= f.0.0 <= 0x8_0000_0000
            &&& 0 < f.0.1 <= 0x8_0000_0000
            &&& -0x8_0000_0000 <= f.1.0 <= 0x8_0000_0000
            &&& 0 < f.1.1 <= 0x8_0000_0000
        },
{
    let s: i128 = s as i128;
    let e: i128 = e as i128;
    let lo: i128 = lo as i128;
    let hi: i128 = hi as i128;
    if e > s {
        proof {
            lemma_axis_rising(s as int, e as int, lo as int, hi as int);
        }
        Some(((lo - s, e - s), (hi - s, e - s)))
    } else if e < s {
        proof {
            lemma_axis_falling(s as int, e as int, lo as int, hi as int);
        }
        Some(((s - hi, s - e), (s - lo, s - e)))
    } else {
        proof {
            lemma_axis_still(s as int, e as int, lo as int, hi as int);
        }
        if lo <= s && s <= hi {
            Some(((0, 1), (1, 1)))
        } else {
            None
        }
    }
}

fn le(f: (i128, i128), g: (i128, i128)) -> (r: bool)
    requires
        -0x8_0000_0000 <= f.0 <= 0x8_0000_0000,
        0 < f.1 <= 0x8_0000_0000,
        -0x8_0000_0000 <= g.0 <= 0x8_0000_0000,
        0 < g.1 <= 0x8_0000_0000,
    ensures
        r == frac_le(frac_of(f), frac_of(g)),
{
    assert(-0x40_0000_0000_0000_0000 <= f.0 * g.1 <= 0x40_0000_0000_0000_0000) by (nonlinear_arith)
        requires
            -0x8_0000_0000 <= f.0 <= 0x8_0000_0000,
            0 < g.1 <= 0x8_0000_0000,
    ;
    assert(-0x40_0000_0000_0000_0000 <= g.0 * f.1 <= 0x40_0000_0000_0000_0000) by (nonlinear_arith)
        requires
            -0x8_0000_0000 <= g.0 <= 0x8_0000_0000,
            0 < f.1 <= 0x8_0000_0000,
    ;
    f.0 * g.1 <= g.0 * f.1
}

/// Whether the segment from `a` to `b` meets the rectangle `r`: it crosses
/// the border or runs inside, which a test of `b` alone would miss when the
/// segment tunnels through a thin rectangle.
pub fn segment_hits_rect(a: Point, b: Point, r: Rect) -> (hit: bool)
    ensures
        hit == segment_meets_rect(a, b, r),
{
    let right: i64 = r.x as i64 + r.width as i64 - 1;
    let bottom: i64 = r.y as i64 + r.height as i64 - 1;
    let xw = axis_window(a.x, b.x, r.x as i64, right);
    let yw = axis_window(a.y, b.y, r.y as i64, bottom);
    match (xw, yw) {
        (Some((lx, ux)), Some((ly, uy))) => {
            let zero: (i128, i128) = (0, 1);
            let one: (i128, i128) = (1, 1);
            let hit = le(zero, ux) && le(zero, uy) && le(lx, one) && le(lx, ux) && le(lx, uy)
                && le(ly, one) && le(ly, ux) && le(ly, uy);
            proof {
                lemma_windows_meet(a, b, r, frac_of(lx), frac_of(ux), frac_of(ly), frac_of(uy), hit);
            }
            hit
        },
        _ => {
            proof {
                assert forall|n: int, d: int| !fraction_in_rect(a, b, r, n, d) by {
                    if fraction_in_rect(a, b, r, n, d) {
                        assert(on_axis(a.x as int, b.x as int, r.x as int, right as int, n, d));
                        assert(on_axis(a.y as int, b.y as int, r.y as int, bottom as int, n, d));
                    }
                }
            }
            false
        },
    }
}

proof fn lemma_windows_meet(
    a: Point,
    b: Point,
    r: Rect,
    lx: (int, int),
    ux: (int, int),
    ly: (int, int),
    uy: (int, int),
    hit: bool,
)
    requires
        window_exact(a.x as int, b.x as int, r.x as int, r.right(), (lx, ux)),
        window_exact(a.y as int, b.y as int, r.y as int, r.bottom(), (ly, uy)),
        hit == (frac_le((0, 1), ux) && frac_le((0, 1), uy) && frac_le(lx, (1, 1)) && frac_le(lx, ux)
            && frac_le(lx, uy) && frac_le(ly, (1, 1)) && frac_le(ly, ux) && frac_le(ly, uy)),
    ensures
        hit == segment_meets_rect(a, b, r),
{
    let zero = (0int, 1int);
    let one = (1int, 1int);
    assert forall|n: int, d: int| 0 <= n <= d && d > 0 implies (fraction_in_rect(a, b, r, n, d) <==> (
    frac_le(lx, (n, d)) && frac_le((n, d), ux) && frac_le(ly, (n, d)) && frac_le((n, d), uy))) by {
        assert(on_axis(a.x as int, b.x as int, r.x as int, r.right(), n, d) <==> (frac_le(lx, (n, d))
            && frac_le((n, d), ux)));
        assert(on_axis(a.y as int, b.y as int, r.y as int, r.bottom(), n, d) <==> (frac_le(ly, (n, d))
            && frac_le((n, d), uy)));
    }
    if hit {
        // the largest of the lower bounds is a point of both windows
        let k = if frac_le(lx, ly) { ly } else { lx };
        assert(frac_le(lx, k) && frac_le(ly, k)) by {
            assert(lx.0 * ly.1 == ly.1 * lx.0 && ly.0 * lx.1 == lx.1 * ly.0) by (nonlinear_arith);
        }
        let m = if frac_le(zero, k) { k } else { zero };
        if m == zero {
            assert(frac_le(k, zero)) by {
                assert(k.0 * 1 == k.0 && 0 * k.1 == 0);
            }
            lemma_frac_trans(lx, k, zero);
            lemma_frac_trans(ly, k, zero);
        }
        assert(frac_le(m, ux) && frac_le(m, uy) && frac_le(m, one));
        assert(frac_le(zero, m) && frac_le(lx, m) && frac_le(ly, m));
        assert(0 <= m.0 <= m.1) by {
            assert(0 * m.1 == 0 && m.0 * 1 == m.0 && 1 * m.1 == m.1);
        }
        assert(fraction_in_rect(a, b, r, m.0, m.1));
    } else {
        assert forall|n: int, d: int| !fraction_in_rect(a, b, r, n, d) by {
            if fraction_in_rect(a, b, r, n, d) {
                let t = (n, d);
                assert(frac_le(zero, t) && frac_le(t, one)) by {
                    assert(0 * d == 0 && n * 1 == n && 1 * d == d);
                }
                lemma_frac_trans(zero, t, ux);
                lemma_frac_trans(zero, t, uy);
                lemma_frac_trans(lx, t, one);
                lemma_frac_trans(lx, t, ux);
                lemma_frac_trans(lx, t, uy);
                lemma_frac_trans(ly, t, one);
                lemma_frac_trans(ly, t, ux);
                lemma_frac_trans(ly, t, uy);
            }
        }
    }
}

} // verus!
