//! Geometries on a bounded integer grid, with exact containment tests.
//!
//! Loaded geometries arrive in consistent world units; the library keeps each
//! vertex as a pair of 64-bit integers strictly inside `COORD_LIMIT`, so that
//! every cross product used by the containment tests fits in an `i128` and is
//! computed exactly.  The geometry kinds form a closed union with exhaustive
//! matching: a point contains only itself, a line string contains the points
//! on its segments, a polygon contains a point when a ray cast crosses its
//! exterior an odd number of times and none of its holes, and the multi
//! variants contain what any member contains.  A nested collection inside a
//! collection is not classified and never contains anything, so picking
//! degrades gracefully instead of failing.

use vstd::prelude::*;

verus! {

/// Exclusive bound on the magnitude of a grid coordinate.
pub const COORD_LIMIT: i64 = 0x1000_0000_0000_0000;

/// A vertex or query point on the integer world grid.
#[derive(Clone, Copy, Debug, PartialEq, Eq, Structural)]
pub struct GeoCoord {
    pub x: i64,
    pub y: i64,
}

/// Both components are strictly inside the grid bound.
pub open spec fn coord_in_range(c: GeoCoord) -> bool {
    &&& -COORD_LIMIT < c.x < COORD_LIMIT
    &&& -COORD_LIMIT < c.y < COORD_LIMIT
}

/// Tests the grid bound on a single coordinate.
pub fn coord_in_range_exec(c: GeoCoord) -> (r: bool)
    ensures
        r == coord_in_range(c),
{
    -COORD_LIMIT < c.x && c.x < COORD_LIMIT && -COORD_LIMIT < c.y && c.y < COORD_LIMIT
}

/// The cross product of `b - a` and `p - a`: positive when `p` lies to the
/// left of the directed segment from `a` to `b`, zero when collinear.
pub open spec fn cross_of(a: GeoCoord, b: GeoCoord, p: GeoCoord) -> int {
    (b.x - a.x) * (p.y - a.y) - (b.y - a.y) * (p.x - a.x)
}

/// Computes `cross_of` exactly in 128-bit arithmetic.
fn cross_val(a: GeoCoord, b: GeoCoord, p: GeoCoord) -> (c: i128)
    requires
        coord_in_range(a),
        coord_in_range(b),
        coord_in_range(p),
    ensures
        c as int == cross_of(a, b, p),
{
    let ux: i128 = b.x as i128 - a.x as i128;
    let uy: i128 = p.y as i128 - a.y as i128;
    let vx: i128 = b.y as i128 - a.y as i128;
    let vy: i128 = p.x as i128 - a.x as i128;
    proof {
        crate::rat::lemma_mul_bounds(ux as int, uy as int, 2 * COORD_LIMIT as int);
        crate::rat::lemma_mul_bounds(vx as int, vy as int, 2 * COORD_LIMIT as int);
    }
    ux * uy - vx * vy
}

/// Whether `p` lies on the closed segment from `a` to `b`: collinear and
/// within the segment's bounding box.
pub open spec fn on_segment(a: GeoCoord, b: GeoCoord, p: GeoCoord) -> bool {
    &&& cross_of(a, b, p) == 0
    &&& ((a.x <= p.x && p.x <= b.x) || (b.x <= p.x && p.x <= a.x))
    &&& ((a.y <= p.y && p.y <= b.y) || (b.y <= p.y && p.y <= a.y))
}

/// Tests `on_segment` exactly.
fn seg_contains(a: GeoCoord, b: GeoCoord, p: GeoCoord) -> (r: bool)
    requires
        coord_in_range(a),
        coord_in_range(b),
        coord_in_range(p),
    ensures
        r == on_segment(a, b, p),
{
    let c = cross_val(a, b, p);
    c == 0 && ((a.x <= p.x && p.x <= b.x) || (b.x <= p.x && p.x <= a.x)) && ((a.y <= p.y && p.y
        <= b.y) || (b.y <= p.y && p.y <= a.y))
}

/// Whether the edge from `a` to `b` crosses a ray cast from `p` towards
/// positive x: the edge spans `p`'s y (half-open, so a shared vertex counts
/// once) and the intersection lies strictly to the right of `p`.
pub open spec fn edge_crosses(a: GeoCoord, b: GeoCoord, p: GeoCoord) -> bool {
    ||| (a.y <= p.y && p.y < b.y && cross_of(a, b, p) > 0)
    ||| (b.y <= p.y && p.y < a.y && cross_of(a, b, p) < 0)
}

/// The second endpoint of ring edge `i`, wrapping to close the ring.
pub open spec fn ring_edge_end(ring: Seq<GeoCoord>, i: int) -> GeoCoord {
    if i + 1 == ring.len() {
        ring[0]
    } else {
        ring[i + 1]
    }
}

/// How many of the first `i` ring edges cross the ray from `p`.
pub open spec fn crossings_up_to(ring: Seq<GeoCoord>, p: GeoCoord, i: int) -> nat
    decreases i,
{
    if i <= 0 {
        0
    } else {
        crossings_up_to(ring, p, i - 1) + (if edge_crosses(
            ring[i - 1],
            ring_edge_end(ring, i - 1),
            p,
        ) {
            1nat
        } else {
            0nat
        })
    }
}

/// Even-odd containment: `p` is inside the ring when the ray crosses an odd
/// number of its edges.
pub open spec fn in_ring(ring: Seq<GeoCoord>, p: GeoCoord) -> bool {
    crossings_up_to(ring, p, ring.len() as int) % 2 == 1
}

/// All vertices of a vertex sequence are on the grid.
pub open spec fn ring_wf(cs: Seq<GeoCoord>) -> bool {
    forall|i: int| 0 <= i < cs.len() ==> coord_in_range(#[trigger] cs[i])
}

/// Tests `in_ring` by counting ray crossings edge by edge.
fn ring_contains(ring: &Vec<GeoCoord>, p: GeoCoord) -> (r: bool)
    requires
        ring_wf(ring@),
        coord_in_range(p),
    ensures
        r == in_ring(ring@, p),
{
    let n = ring.len();
    let mut inside = false;
    let mut i: usize = 0;
    while i < n
        invariant
            n == ring@.len(),
            0 <= i <= n,
            ring_wf(ring@),
            coord_in_range(p),
            inside == (crossings_up_to(ring@, p, i as int) % 2 == 1),
        decreases n - i,
    {
        let a = ring[i];
        let b = if i + 1 == n {
            ring[0]
        } else {
            ring[i + 1]
        };
        let c = cross_val(a, b, p);
        let crossed = (a.y <= p.y && p.y < b.y && c > 0) || (b.y <= p.y && p.y < a.y && c < 0);
        if crossed {
            inside = !inside;
        }
        i = i + 1;
    }
    inside
}

/// A polygon: one exterior ring and zero or more interior rings (holes).
#[derive(Debug)]
pub struct PolygonGeom {
    pub exterior: Vec<GeoCoord>,
    pub interiors: Vec<Vec<GeoCoord>>,
}

/// All rings of the polygon are on the grid.
pub open spec fn polygon_wf(pg: PolygonGeom) -> bool {
    &&& ring_wf(pg.exterior@)
    &&& forall|i: int| 0 <= i < pg.interiors@.len() ==> ring_wf(#[trigger] pg.interiors@[i]@)
}

/// A polygon contains `p` when its exterior does and no hole does.
pub open spec fn polygon_contains(pg: PolygonGeom, p: GeoCoord) -> bool {
    &&& in_ring(pg.exterior@, p)
    &&& forall|i: int| 0 <= i < pg.interiors@.len() ==> !in_ring(#[trigger] pg.interiors@[i]@, p)
}

/// Tests `polygon_contains`.
fn polygon_contains_exec(pg: &PolygonGeom, p: GeoCoord) -> (r: bool)
    requires
        polygon_wf(*pg),
        coord_in_range(p),
    ensures
        r == polygon_contains(*pg, p),
{
    if !ring_contains(&pg.exterior, p) {
        return false;
    }
    let n = pg.interiors.len();
    let mut i: usize = 0;
    while i < n
        invariant
            n == pg.interiors@.len(),
            0 <= i <= n,
            polygon_wf(*pg),
            coord_in_range(p),
            forall|j: int| 0 <= j < i ==> !in_ring(#[trigger] pg.interiors@[j]@, p),
        decreases n - i,
    {
        if ring_contains(&pg.interiors[i], p) {
            return false;
        }
        i = i + 1;
    }
    true
}

/// A point lies on a line string when it lies on one of its segments.
pub open spec fn linestring_contains(cs: Seq<GeoCoord>, p: GeoCoord) -> bool {
    exists|i: int| 0 <= i < cs.len() - 1 && on_segment(cs[i], #[trigger] cs[i + 1], p)
}

/// Tests `linestring_contains`.
fn linestring_contains_exec(cs: &Vec<GeoCoord>, p: GeoCoord) -> (r: bool)
    requires
        ring_wf(cs@),
        coord_in_range(p),
    ensures
        r == linestring_contains(cs@, p),
{
    let n = cs.len();
    if n < 2 {
        return false;
    }
    let mut i: usize = 0;
    while i < n - 1
        invariant
            n == cs@.len(),
            2 <= n,
            0 <= i <= n - 1,
            ring_wf(cs@),
            coord_in_range(p),
            forall|j: int| 0 <= j < i ==> !on_segment(cs@[j], #[trigger] cs@[j + 1], p),
        decreases n - i,
    {
        if seg_contains(cs[i], cs[i + 1], p) {
            assert(on_segment(cs@[i as int], cs@[i as int + 1], p));
            return true;
        }
        i = i + 1;
    }
    false
}

/// The closed union of geometry kinds a layer can hold.
#[derive(Debug)]
pub enum Geometry {
    Point(GeoCoord),
    MultiPoint(Vec<GeoCoord>),
    LineString(Vec<GeoCoord>),
    MultiLineString(Vec<Vec<GeoCoord>>),
    Polygon(PolygonGeom),
    MultiPolygon(Vec<PolygonGeom>),
    GeometryCollection(Vec<Geometry>),
}

/// Grid bounds for a non-collection geometry.  A nested collection is left
/// unclassified (and never contains anything), so it needs no bound.
pub open spec fn simple_geom_wf(g: Geometry) -> bool {
    match g {
        Geometry::Point(c) => coord_in_range(c),
        Geometry::MultiPoint(cs) => ring_wf(cs@),
        Geometry::LineString(cs) => ring_wf(cs@),
        Geometry::MultiLineString(ls) => forall|i: int|
            0 <= i < ls@.len() ==> ring_wf(#[trigger] ls@[i]@),
        Geometry::Polygon(pg) => polygon_wf(pg),
        Geometry::MultiPolygon(pgs) => forall|i: int|
            0 <= i < pgs@.len() ==> polygon_wf(#[trigger] pgs@[i]),
        Geometry::GeometryCollection(_) => true,
    }
}

/// Grid bounds for a geometry, one collection level deep.
pub open spec fn geom_wf(g: Geometry) -> bool {
    match g {
        Geometry::GeometryCollection(gs) => forall|i: int|
            0 <= i < gs@.len() ==> simple_geom_wf(#[trigger] gs@[i]),
        _ => simple_geom_wf(g),
    }
}

/// Containment for a non-collection geometry; a nested collection is treated
/// as never containing.
pub open spec fn simple_contains(g: Geometry, p: GeoCoord) -> bool {
    match g {
        Geometry::Point(c) => c == p,
        Geometry::MultiPoint(cs) => exists|i: int| 0 <= i < cs@.len() && #[trigger] cs@[i] == p,
        Geometry::LineString(cs) => linestring_contains(cs@, p),
        Geometry::MultiLineString(ls) => exists|i: int|
            0 <= i < ls@.len() && linestring_contains(#[trigger] ls@[i]@, p),
        Geometry::Polygon(pg) => polygon_contains(pg, p),
        Geometry::MultiPolygon(pgs) => exists|i: int|
            0 <= i < pgs@.len() && polygon_contains(#[trigger] pgs@[i], p),
        Geometry::GeometryCollection(_) => false,
    }
}

/// Containment for any geometry: a collection contains what any of its
/// members contains.
pub open spec fn geom_contains(g: Geometry, p: GeoCoord) -> bool {
    match g {
        Geometry::GeometryCollection(gs) => exists|i: int|
            0 <= i < gs@.len() && simple_contains(#[trigger] gs@[i], p),
        _ => simple_contains(g, p),
    }
}

/// Tests containment for a non-collection geometry.
#[verifier::loop_isolation(false)]
fn simple_contains_exec(g: &Geometry, p: GeoCoord) -> (r: bool)
    requires
        simple_geom_wf(*g),
        coord_in_range(p),
    ensures
        r == simple_contains(*g, p),
{
    match g {
        Geometry::Point(c) => c.x == p.x && c.y == p.y,
        Geometry::MultiPoint(cs) => {
            let n = cs.len();
            let mut i: usize = 0;
            while i < n
                invariant
                    n == cs@.len(),
                    0 <= i <= n,
                    forall|j: int| 0 <= j < i ==> #[trigger] cs@[j] != p,
                decreases n - i,
            {
                let c = cs[i];
                if c.x == p.x && c.y == p.y {
                    assert(cs@[i as int] == p);
                    return true;
                }
                i = i + 1;
            }
            false
        },
        Geometry::LineString(cs) => linestring_contains_exec(cs, p),
        Geometry::MultiLineString(ls) => {
            let n = ls.len();
            let mut i: usize = 0;
            while i < n
                invariant
                    n == ls@.len(),
                    0 <= i <= n,
                    coord_in_range(p),
                    forall|j: int| 0 <= j < n ==> ring_wf(#[trigger] ls@[j]@),
                    forall|j: int| 0 <= j < i ==> !linestring_contains(#[trigger] ls@[j]@, p),
                decreases n - i,
            {
                if linestring_contains_exec(&ls[i], p) {
                    assert(linestring_contains(ls@[i as int]@, p));
                    return true;
                }
                i = i + 1;
            }
            false
        },
        Geometry::Polygon(pg) => polygon_contains_exec(pg, p),
        Geometry::MultiPolygon(pgs) => {
            let n = pgs.len();
            let mut i: usize = 0;
            while i < n
                invariant
                    n == pgs@.len(),
                    0 <= i <= n,
                    coord_in_range(p),
                    forall|j: int| 0 <= j < n ==> polygon_wf(#[trigger] pgs@[j]),
                    forall|j: int| 0 <= j < i ==> !polygon_contains(#[trigger] pgs@[j], p),
                decreases n - i,
            {
                if polygon_contains_exec(&pgs[i], p) {
                    assert(polygon_contains(pgs@[i as int], p));
                    return true;
                }
                i = i + 1;
            }
            false
        },
        Geometry::GeometryCollection(_) => false,
    }
}

/// Tests containment for any geometry.
#[verifier::loop_isolation(false)]
pub fn geometry_contains(g: &Geometry, p: GeoCoord) -> (r: bool)
    requires
        geom_wf(*g),
        coord_in_range(p),
    ensures
        r == geom_contains(*g, p),
{
    match g {
        Geometry::GeometryCollection(gs) => {
            let n = gs.len();
            let mut i: usize = 0;
            while i < n
                invariant
                    n == gs@.len(),
                    0 <= i <= n,
                    coord_in_range(p),
                    forall|j: int| 0 <= j < n ==> simple_geom_wf(#[trigger] gs@[j]),
                    forall|j: int| 0 <= j < i ==> !simple_contains(#[trigger] gs@[j], p),
                decreases n - i,
            {
                if simple_contains_exec(&gs[i], p) {
                    assert(simple_contains(gs@[i as int], p));
                    return true;
                }
                i = i + 1;
            }
            false
        },
        _ => simple_contains_exec(g, p),
    }
}

/// Tests the grid bounds of a vertex sequence.
fn ring_wf_exec(cs: &Vec<GeoCoord>) -> (r: bool)
    ensures
        r == ring_wf(cs@),
{
    let n = cs.len();
    let mut i: usize = 0;
    while i < n
        invariant
            n == cs@.len(),
            0 <= i <= n,
            forall|j: int| 0 <= j < i ==> coord_in_range(#[trigger] cs@[j]),
        decreases n - i,
    {
        if !coord_in_range_exec(cs[i]) {
            return false;
        }
        i = i + 1;
    }
    true
}

/// Tests the grid bounds of a polygon.
fn polygon_wf_exec(pg: &PolygonGeom) -> (r: bool)
    ensures
        r == polygon_wf(*pg),
{
    if !ring_wf_exec(&pg.exterior) {
        return false;
    }
    let n = pg.interiors.len();
    let mut i: usize = 0;
    while i < n
        invariant
            n == pg.interiors@.len(),
            0 <= i <= n,
            forall|j: int| 0 <= j < i ==> ring_wf(#[trigger] pg.interiors@[j]@),
        decreases n - i,
    {
        if !ring_wf_exec(&pg.interiors[i]) {
            return false;
        }
        i = i + 1;
    }
    true
}

/// Tests the grid bounds of a non-collection geometry.
#[verifier::loop_isolation(false)]
fn simple_geom_wf_exec(g: &Geometry) -> (r: bool)
    ensures
        r == simple_geom_wf(*g),
{
    match g {
        Geometry::Point(c) => coord_in_range_exec(*c),
        Geometry::MultiPoint(cs) => ring_wf_exec(cs),
        Geometry::LineString(cs) => ring_wf_exec(cs),
        Geometry::MultiLineString(ls) => {
            let n = ls.len();
            let mut i: usize = 0;
            while i < n
                invariant
                    n == ls@.len(),
                    0 <= i <= n,
                    forall|j: int| 0 <= j < i ==> ring_wf(#[trigger] ls@[j]@),
                decreases n - i,
            {
                if !ring_wf_exec(&ls[i]) {
                    assert(!ring_wf(ls@[i as int]@));
                    return false;
                }
                i = i + 1;
            }
            true
        },
        Geometry::Polygon(pg) => polygon_wf_exec(pg),
        Geometry::MultiPolygon(pgs) => {
            let n = pgs.len();
            let mut i: usize = 0;
            while i < n
                invariant
                    n == pgs@.len(),
                    0 <= i <= n,
                    forall|j: int| 0 <= j < i ==> polygon_wf(#[trigger] pgs@[j]),
                decreases n - i,
            {
                if !polygon_wf_exec(&pgs[i]) {
                    assert(!polygon_wf(pgs@[i as int]));
                    return false;
                }
                i = i + 1;
            }
            true
        },
        Geometry::GeometryCollection(_) => true,
    }
}

/// Tests the grid bounds of a geometry.
#[verifier::loop_isolation(false)]
pub fn geometry_wf_exec(g: &Geometry) -> (r: bool)
    ensures
        r == geom_wf(*g),
{
    match g {
        Geometry::GeometryCollection(gs) => {
            let n = gs.len();
            let mut i: usize = 0;
            while i < n
                invariant
                    n == gs@.len(),
                    0 <= i <= n,
                    forall|j: int| 0 <= j < i ==> simple_geom_wf(#[trigger] gs@[j]),
                decreases n - i,
            {
                if !simple_geom_wf_exec(&gs[i]) {
                    assert(!simple_geom_wf(gs@[i as int]));
                    return false;
                }
                i = i + 1;
            }
            true
        },
        _ => simple_geom_wf_exec(g),
    }
}

} // verus!
