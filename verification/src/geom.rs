//! Geometry kernel: points and rectangles in integer image space, with
//! exact (rational-arithmetic) proximity predicates used for hit-testing.
//!
//! All queries are total; degenerate inputs are handled by clamping or by
//! returning `false`, never by failing.

use vstd::prelude::*;

verus! {

/// Largest coordinate magnitude the kernel accepts.
///
/// The bound keeps every intermediate product of the degree-six ellipse
/// ring test inside `i128`, with a wide margin; half a million image-space
/// units is far beyond any real screenshot.
pub const COORD_LIMIT: i64 = 524288;

pub open spec fn coord_in_range(c: int) -> bool {
    -COORD_LIMIT <= c <= COORD_LIMIT
}

/// A 2D coordinate in image space (the untransformed bitmap's coordinate
/// system, independent of zoom). Also used as a displacement vector.
#[derive(Clone, Copy, Debug, PartialEq, Eq, Structural)]
pub struct Point {
    pub x: i64,
    pub y: i64,
}

pub open spec fn point_in_range(p: Point) -> bool {
    coord_in_range(p.x as int) && coord_in_range(p.y as int)
}

impl Point {
    pub fn new(x: i64, y: i64) -> (r: Point)
        ensures
            r == (Point { x, y }),
    {
        Point { x, y }
    }

    /// The displacement that carries `self` onto `other`.
    pub fn delta(self, other: Point) -> (r: Point)
        requires
            point_in_range(self),
            point_in_range(other),
        ensures
            r.x == other.x - self.x,
            r.y == other.y - self.y,
    {
        Point { x: other.x - self.x, y: other.y - self.y }
    }
}

/// `c` forced into the representable coordinate range.
pub open spec fn clamped_coord(c: int) -> int {
    if c < -COORD_LIMIT {
        -COORD_LIMIT as int
    } else if c > COORD_LIMIT {
        COORD_LIMIT as int
    } else {
        c
    }
}

pub fn clamp_coord(c: i64) -> (r: i64)
    ensures
        r == clamped_coord(c as int),
        coord_in_range(r as int),
{
    if c < -COORD_LIMIT {
        -COORD_LIMIT
    } else if c > COORD_LIMIT {
        COORD_LIMIT
    } else {
        c
    }
}

pub open spec fn clamped_point(p: Point) -> Point {
    Point { x: clamped_coord(p.x as int) as i64, y: clamped_coord(p.y as int) as i64 }
}

pub fn clamp_point(p: Point) -> (r: Point)
    ensures
        r == clamped_point(p),
        point_in_range(r),
{
    Point { x: clamp_coord(p.x), y: clamp_coord(p.y) }
}

/// An axis-aligned rectangle held as two corner points. The corners are not
/// required to be ordered while a drag is in progress; committed rectangles
/// are normalized so `min <= max` on both axes.
#[derive(Clone, Copy, Debug, PartialEq, Eq, Structural)]
pub struct RectData {
    pub min: Point,
    pub max: Point,
}

pub open spec fn rect_in_range(r: RectData) -> bool {
    point_in_range(r.min) && point_in_range(r.max)
}

pub open spec fn spec_min(a: int, b: int) -> int {
    if a <= b {
        a
    } else {
        b
    }
}

pub open spec fn spec_max(a: int, b: int) -> int {
    if a >= b {
        a
    } else {
        b
    }
}

pub open spec fn rect_normalized(r: RectData) -> RectData {
    RectData {
        min: Point {
            x: spec_min(r.min.x as int, r.max.x as int) as i64,
            y: spec_min(r.min.y as int, r.max.y as int) as i64,
        },
        max: Point {
            x: spec_max(r.min.x as int, r.max.x as int) as i64,
            y: spec_max(r.min.y as int, r.max.y as int) as i64,
        },
    }
}

pub open spec fn rect_is_normalized(r: RectData) -> bool {
    r.min.x <= r.max.x && r.min.y <= r.max.y
}

impl RectData {
    /// Per-axis min/max swap so that the stored `min` is coordinate-wise
    /// below the stored `max`.
    pub fn normalize(self) -> (r: RectData)
        ensures
            r == rect_normalized(self),
            rect_is_normalized(r),
            rect_in_range(self) ==> rect_in_range(r),
    {
        let min_x = if self.min.x <= self.max.x {
            self.min.x
        } else {
            self.max.x
        };
        let min_y = if self.min.y <= self.max.y {
            self.min.y
        } else {
            self.max.y
        };
        let max_x = if self.min.x >= self.max.x {
            self.min.x
        } else {
            self.max.x
        };
        let max_y = if self.min.y >= self.max.y {
            self.min.y
        } else {
            self.max.y
        };
        RectData {
            min: Point { x: min_x, y: min_y },
            max: Point { x: max_x, y: max_y },
        }
    }
}

/// A displacement small enough that translating an in-range point can
/// never overflow `i64` (any difference of two in-range coordinates fits).
pub open spec fn delta_in_range(d: Point) -> bool {
    &&& -2 * COORD_LIMIT <= d.x <= 2 * COORD_LIMIT
    &&& -2 * COORD_LIMIT <= d.y <= 2 * COORD_LIMIT
}

/// `r` grown by `e` on every side (shrunk, for negative `e`).
pub open spec fn rect_expanded(r: RectData, e: int) -> RectData {
    RectData {
        min: Point { x: (r.min.x - e) as i64, y: (r.min.y - e) as i64 },
        max: Point { x: (r.max.x + e) as i64, y: (r.max.y + e) as i64 },
    }
}

/// The smallest box covering both rectangles (both expected normalized).
pub open spec fn rect_union(a: RectData, b: RectData) -> RectData {
    RectData {
        min: Point {
            x: spec_min(a.min.x as int, b.min.x as int) as i64,
            y: spec_min(a.min.y as int, b.min.y as int) as i64,
        },
        max: Point {
            x: spec_max(a.max.x as int, b.max.x as int) as i64,
            y: spec_max(a.max.y as int, b.max.y as int) as i64,
        },
    }
}

/// Squared Euclidean distance between two points.
pub open spec fn dist_sq(p: Point, q: Point) -> int {
    (p.x - q.x) * (p.x - q.x) + (p.y - q.y) * (p.y - q.y)
}

/// `|a * b| <= aa * bb` whenever `|a| <= aa` and `|b| <= bb`.
pub proof fn lemma_mul_bound(a: int, b: int, aa: int, bb: int)
    by (nonlinear_arith)
    requires
        -aa <= a <= aa,
        -bb <= b <= bb,
        0 <= aa,
        0 <= bb,
    ensures
        -(aa * bb) <= a * b <= aa * bb,
{
}

pub proof fn lemma_sq_mono(x: int, y: int)
    by (nonlinear_arith)
    requires
        0 <= x <= y,
    ensures
        x * x <= y * y,
{
}

/// A squared norm bounds each component.
pub proof fn lemma_abs_from_sq(x: int, y: int, t: int)
    by (nonlinear_arith)
    requires
        x * x + y * y <= t * t,
        t >= 0,
    ensures
        -t <= x <= t,
        -t <= y <= t,
{
}

pub proof fn lemma_mul_mono_right(a: int, b: int, c: int)
    by (nonlinear_arith)
    requires
        a <= b,
        c >= 0,
    ensures
        a * c <= b * c,
{
}

pub proof fn lemma_mul_pos(a: int, b: int)
    by (nonlinear_arith)
    requires
        a > 0,
        b > 0,
    ensures
        a * b > 0,
{
}

pub proof fn lemma_mul_nonneg(a: int, b: int)
    by (nonlinear_arith)
    requires
        a >= 0,
        b >= 0,
    ensures
        a * b >= 0,
{
}

/// True iff twice the distance from `p` to the segment from `a` to `b` is
/// at most `dd` (perpendicular distance clamped to the segment's extent;
/// distance to the single point when `a == b`). Working with the doubled
/// distance keeps a bound with a half — such as half a stroke width — exact
/// in integers, and the predicate stays free of square roots.
pub open spec fn segment_within_twice(p: Point, a: Point, b: Point, dd: int) -> bool {
    let abx = b.x - a.x;
    let aby = b.y - a.y;
    let apx = p.x - a.x;
    let apy = p.y - a.y;
    let len2 = abx * abx + aby * aby;
    let dot = apx * abx + apy * aby;
    if len2 == 0 {
        4 * dist_sq(p, a) <= dd * dd
    } else if dot <= 0 {
        4 * dist_sq(p, a) <= dd * dd
    } else if dot >= len2 {
        4 * dist_sq(p, b) <= dd * dd
    } else {
        4 * (dist_sq(p, a) * len2 - dot * dot) <= dd * dd * len2
    }
}

/// Exact segment-proximity test: twice the distance from `p` to the
/// segment `[a, b]` is at most `dd`.
pub fn segment_within_twice_dist(p: Point, a: Point, b: Point, dd: i64) -> (r: bool)
    requires
        point_in_range(p),
        point_in_range(a),
        point_in_range(b),
        0 <= dd <= 4 * COORD_LIMIT,
    ensures
        r == segment_within_twice(p, a, b, dd as int),
{
    let abx: i128 = b.x as i128 - a.x as i128;
    let aby: i128 = b.y as i128 - a.y as i128;
    let apx: i128 = p.x as i128 - a.x as i128;
    let apy: i128 = p.y as i128 - a.y as i128;
    proof {
        lemma_mul_bound(abx as int, abx as int, 1048576, 1048576);
        lemma_mul_bound(aby as int, aby as int, 1048576, 1048576);
        lemma_mul_bound(apx as int, apx as int, 1048576, 1048576);
        lemma_mul_bound(apy as int, apy as int, 1048576, 1048576);
        lemma_mul_bound(apx as int, abx as int, 1048576, 1048576);
        lemma_mul_bound(apy as int, aby as int, 1048576, 1048576);
        lemma_mul_bound(dd as int, dd as int, 2097152, 2097152);
    }
    let len2: i128 = abx * abx + aby * aby;
    let dot: i128 = apx * abx + apy * aby;
    let dd_sq: i128 = (dd as i128) * (dd as i128);
    let dist2a: i128 = apx * apx + apy * apy;
    if len2 == 0 || dot <= 0 {
        4 * dist2a <= dd_sq
    } else if dot >= len2 {
        let bpx: i128 = p.x as i128 - b.x as i128;
        let bpy: i128 = p.y as i128 - b.y as i128;
        proof {
            lemma_mul_bound(bpx as int, bpx as int, 1048576, 1048576);
            lemma_mul_bound(bpy as int, bpy as int, 1048576, 1048576);
        }
        4 * (bpx * bpx + bpy * bpy) <= dd_sq
    } else {
        proof {
            lemma_mul_bound(dist2a as int, len2 as int, 2199023255552, 2199023255552);
            lemma_mul_bound(dot as int, dot as int, 2199023255552, 2199023255552);
            lemma_mul_bound(dd_sq as int, len2 as int, 4398046511104, 2199023255552);
        }
        4 * (dist2a * len2 - dot * dot) <= dd_sq * len2
    }
}

/// A point within half of `dd` of either endpoint is within half of `dd`
/// of the segment: the segment distance never exceeds the distance to an
/// endpoint.
pub proof fn lemma_segment_twice_endpoint(p: Point, a: Point, b: Point, dd: int)
    requires
        dd >= 0,
        4 * dist_sq(p, a) <= dd * dd || 4 * dist_sq(p, b) <= dd * dd,
    ensures
        segment_within_twice(p, a, b, dd),
{
    let abx = b.x - a.x;
    let aby = b.y - a.y;
    let apx = p.x - a.x;
    let apy = p.y - a.y;
    let len2 = abx * abx + aby * aby;
    let dot = apx * abx + apy * aby;
    let pa2 = dist_sq(p, a);
    let pb2 = dist_sq(p, b);
    // |pb|^2 expands to |pa|^2 - 2 dot + |ab|^2
    assert(pb2 == pa2 - 2 * dot + len2) by (nonlinear_arith)
        requires
            pb2 == (p.x - b.x) * (p.x - b.x) + (p.y - b.y) * (p.y - b.y),
            pa2 == (p.x - a.x) * (p.x - a.x) + (p.y - a.y) * (p.y - a.y),
            len2 == (b.x - a.x) * (b.x - a.x) + (b.y - a.y) * (b.y - a.y),
            dot == (p.x - a.x) * (b.x - a.x) + (p.y - a.y) * (b.y - a.y),
    ;
    assert(pa2 >= 0 && pb2 >= 0 && len2 >= 0) by (nonlinear_arith)
        requires
            pa2 == (p.x - a.x) * (p.x - a.x) + (p.y - a.y) * (p.y - a.y),
            pb2 == (p.x - b.x) * (p.x - b.x) + (p.y - b.y) * (p.y - b.y),
            len2 == (b.x - a.x) * (b.x - a.x) + (b.y - a.y) * (b.y - a.y),
    ;
    if len2 == 0 {
        // degenerate segment: both endpoints coincide
        assert(abx == 0 && aby == 0) by (nonlinear_arith)
            requires
                abx * abx + aby * aby == 0,
        ;
        assert(dot == 0);
        assert(pa2 == pb2);
        assert(4 * pa2 <= dd * dd);
    } else if dot <= 0 {
        // p is on a's side: |pa| <= |pb|
        assert(pa2 <= pb2);
        assert(4 * pa2 <= dd * dd);
    } else if dot >= len2 {
        // p is on b's side: |pb| <= |pa|
        assert(pb2 <= pa2);
        assert(4 * pb2 <= dd * dd);
    } else {
        if 4 * pa2 <= dd * dd {
            assert(4 * (pa2 * len2 - dot * dot) <= dd * dd * len2) by (nonlinear_arith)
                requires
                    4 * pa2 <= dd * dd,
                    len2 > 0,
            ;
        } else {
            // distance to the segment never exceeds the distance to b:
            // pa2 * len2 - dot^2 <= pb2 * len2  <==>  0 <= (dot - len2)^2
            assert(4 * (pa2 * len2 - dot * dot) <= dd * dd * len2) by (nonlinear_arith)
                requires
                    pb2 == pa2 - 2 * dot + len2,
                    4 * pb2 <= dd * dd,
                    len2 > 0,
            ;
        }
    }
}

/// The exact squared distance between two in-range points.
pub fn dist_sq_at(p: Point, q: Point) -> (r: i64)
    requires
        point_in_range(p),
        point_in_range(q),
    ensures
        r == dist_sq(p, q),
{
    let dx: i64 = p.x - q.x;
    let dy: i64 = p.y - q.y;
    proof {
        lemma_mul_bound(dx as int, dx as int, 1048576, 1048576);
        lemma_mul_bound(dy as int, dy as int, 1048576, 1048576);
    }
    dx * dx + dy * dy
}

/// True iff `p` lies within distance `d` of `q`.
pub open spec fn point_within(p: Point, q: Point, d: int) -> bool {
    dist_sq(p, q) <= d * d
}

pub fn point_within_dist(p: Point, q: Point, d: i64) -> (r: bool)
    requires
        point_in_range(p),
        point_in_range(q),
        0 <= d <= 2 * COORD_LIMIT,
    ensures
        r == point_within(p, q, d as int),
{
    let dx: i128 = p.x as i128 - q.x as i128;
    let dy: i128 = p.y as i128 - q.y as i128;
    proof {
        lemma_mul_bound(dx as int, dx as int, 1048576, 1048576);
        lemma_mul_bound(dy as int, dy as int, 1048576, 1048576);
        lemma_mul_bound(d as int, d as int, 1048576, 1048576);
    }
    dx * dx + dy * dy <= (d as i128) * (d as i128)
}

/// A loose coordinate bound for derived boxes (conservative text bounds can
/// stick out past `COORD_LIMIT`); additions under it never overflow `i64`.
pub open spec fn coord_loose(c: int) -> bool {
    -100000000 <= c <= 100000000
}

pub open spec fn rect_loose(r: RectData) -> bool {
    coord_loose(r.min.x as int) && coord_loose(r.min.y as int) && coord_loose(r.max.x as int)
        && coord_loose(r.max.y as int)
}

/// True iff `p` lies inside `r` grown by `expand` on every side
/// (boundary included). `r` is expected normalized.
pub open spec fn rect_box_contains(p: Point, r: RectData, expand: int) -> bool {
    &&& r.min.x - expand <= p.x <= r.max.x + expand
    &&& r.min.y - expand <= p.y <= r.max.y + expand
}

pub fn rect_box_contains_at(p: Point, r: RectData, expand: i64) -> (res: bool)
    requires
        point_in_range(p),
        rect_loose(r),
        -100000000 <= expand <= 100000000,
    ensures
        res == rect_box_contains(p, r, expand as int),
{
    r.min.x - expand <= p.x && p.x <= r.max.x + expand && r.min.y - expand <= p.y && p.y
        <= r.max.y + expand
}

/// True iff `p` lies in the stroke band of the normalized rectangle `r`:
/// inside `r` grown by `band`, but outside `r` shrunk by `max(band, 1)`.
/// Only the outline is hittable, never the filled interior.
pub open spec fn rect_band_contains(p: Point, r: RectData, band: int) -> bool {
    let inner = spec_max(band, 1);
    &&& rect_box_contains(p, r, band)
    &&& !(r.min.x + inner <= p.x <= r.max.x - inner && r.min.y + inner <= p.y <= r.max.y
        - inner)
}

pub fn rect_band_contains_at(p: Point, r: RectData, band: i64) -> (res: bool)
    requires
        point_in_range(p),
        rect_in_range(r),
        0 <= band <= 2 * COORD_LIMIT,
    ensures
        res == rect_band_contains(p, r, band as int),
{
    let inner: i64 = if band >= 1 {
        band
    } else {
        1
    };
    let in_outer = rect_box_contains_at(p, r, band);
    let in_inner = r.min.x + inner <= p.x && p.x <= r.max.x - inner && r.min.y + inner <= p.y
        && p.y <= r.max.y - inner;
    in_outer && !in_inner
}

/// True iff `p` lies within a ring of half-width `band` around the boundary
/// of the ellipse inscribed in the normalized rectangle `r`, measured by
/// normalized elliptical distance (the sum of squared ratios against the
/// semi-axes). An ellipse with a zero axis contains nothing.
pub open spec fn ellipse_ring_contains(p: Point, r: RectData, band: int) -> bool {
    let w = r.max.x - r.min.x;
    let h = r.max.y - r.min.y;
    if w == 0 || h == 0 {
        false
    } else {
        // u / w and v / h are the coordinates of `p` relative to the
        // center, normalized by the semi-axes.
        let u = 2 * p.x - r.min.x - r.max.x;
        let v = 2 * p.y - r.min.y - r.max.y;
        let dnum = u * u * (h * h) + v * v * (w * w);
        let dden = (w * w) * (h * h);
        // ring = band / max(min semi-axis, 1) = 2 * band / m2
        let m2 = if spec_min(w, h) <= 2 {
            2
        } else {
            spec_min(w, h)
        };
        let rnum = 2 * band;
        // (1 - ring)^2 <= d <= (1 + ring)^2, cleared of denominators
        &&& (m2 - rnum) * (m2 - rnum) * dden <= dnum * (m2 * m2)
        &&& dnum * (m2 * m2) <= (m2 + rnum) * (m2 + rnum) * dden
    }
}

pub fn ellipse_ring_contains_at(p: Point, r: RectData, band: i64) -> (res: bool)
    requires
        point_in_range(p),
        rect_in_range(r),
        rect_is_normalized(r),
        0 <= band <= 2 * COORD_LIMIT,
    ensures
        res == ellipse_ring_contains(p, r, band as int),
{
    let w: i128 = r.max.x as i128 - r.min.x as i128;
    let h: i128 = r.max.y as i128 - r.min.y as i128;
    if w == 0 || h == 0 {
        return false;
    }
    let u: i128 = 2 * (p.x as i128) - r.min.x as i128 - r.max.x as i128;
    let v: i128 = 2 * (p.y as i128) - r.min.y as i128 - r.max.y as i128;
    proof {
        lemma_mul_bound(u as int, u as int, 2097152, 2097152);
        lemma_mul_bound(v as int, v as int, 2097152, 2097152);
        lemma_mul_bound(w as int, w as int, 1048576, 1048576);
        lemma_mul_bound(h as int, h as int, 1048576, 1048576);
    }
    let uu: i128 = u * u;
    let vv: i128 = v * v;
    let ww: i128 = w * w;
    let hh: i128 = h * h;
    proof {
        lemma_mul_bound(uu as int, hh as int, 4398046511104, 1099511627776);
        lemma_mul_bound(vv as int, ww as int, 4398046511104, 1099511627776);
        lemma_mul_bound(ww as int, hh as int, 1099511627776, 1099511627776);
    }
    let dnum: i128 = uu * hh + vv * ww;
    let dden: i128 = ww * hh;
    let mw: i128 = if w <= h {
        w
    } else {
        h
    };
    let m2: i128 = if mw <= 2 {
        2
    } else {
        mw
    };
    let rnum: i128 = 2 * (band as i128);
    proof {
        lemma_mul_bound(m2 as int, m2 as int, 1048576, 1048576);
        lemma_mul_bound(
            (m2 - rnum) as int,
            (m2 - rnum) as int,
            5242880,
            5242880,
        );
        lemma_mul_bound(
            (m2 + rnum) as int,
            (m2 + rnum) as int,
            5242880,
            5242880,
        );
    }
    let m2sq: i128 = m2 * m2;
    let lo_sq: i128 = (m2 - rnum) * (m2 - rnum);
    let hi_sq: i128 = (m2 + rnum) * (m2 + rnum);
    proof {
        lemma_mul_bound(lo_sq as int, dden as int, 27487790694400, 1208925819614629174706176);
        lemma_mul_bound(hi_sq as int, dden as int, 27487790694400, 1208925819614629174706176);
        lemma_mul_bound(
            dnum as int,
            m2sq as int,
            9671406556917033397649408,
            1099511627776,
        );
    }
    lo_sq * dden <= dnum * m2sq && dnum * m2sq <= hi_sq * dden
}

/// The shift-constrained endpoint of a drag that started at `start`: equal
/// horizontal and vertical extent (the larger of the two magnitudes), with
/// the signs of the raw delta.
pub open spec fn square_constrained(start: Point, current: Point) -> Point {
    let dx = current.x - start.x;
    let dy = current.y - start.y;
    let side = spec_max(if dx >= 0 {
        dx
    } else {
        -dx
    }, if dy >= 0 {
        dy
    } else {
        -dy
    });
    Point {
        x: (start.x + if dx < 0 {
            -side
        } else {
            side
        }) as i64,
        y: (start.y + if dy < 0 {
            -side
        } else {
            side
        }) as i64,
    }
}

pub fn constrain_square_point(start: Point, current: Point) -> (r: Point)
    requires
        point_in_range(start),
        point_in_range(current),
    ensures
        r == square_constrained(start, current),
{
    let dx: i64 = current.x - start.x;
    let dy: i64 = current.y - start.y;
    let adx: i64 = if dx >= 0 {
        dx
    } else {
        -dx
    };
    let ady: i64 = if dy >= 0 {
        dy
    } else {
        -dy
    };
    let side: i64 = if adx >= ady {
        adx
    } else {
        ady
    };
    let sx: i64 = if dx < 0 {
        -side
    } else {
        side
    };
    let sy: i64 = if dy < 0 {
        -side
    } else {
        side
    };
    Point { x: start.x + sx, y: start.y + sy }
}

} // verus!
