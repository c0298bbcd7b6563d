//! A verified core for a small GIS viewer.
//!
//! The library models the viewport of a 2D map view — the mapping between
//! screen pixels and world coordinates, with pan and cursor-anchored zoom —
//! and an ordered stack of geometry layers with monotonic identifiers and
//! point-in-geometry picking.  All arithmetic is exact: transform state is
//! kept as bounded rational numbers, geometries live on a bounded integer
//! grid, and an operation whose exact result cannot be represented is
//! discarded while the previous valid state is kept.

use vstd::prelude::*;

pub mod event_router;
pub mod geometry;
pub mod gis_camera;
pub mod gis_events;
pub mod gis_layer_id;
pub mod gis_layers;
pub mod rat;
pub mod viewport;

verus! {

/// The sum of the x components of a coordinate sequence.
pub open spec fn coord_sum_x(s: Seq<crate::geometry::GeoCoord>) -> int
    decreases s.len(),
{
    if s.len() == 0 {
        0
    } else {
        coord_sum_x(s.drop_last()) + s.last().x
    }
}

/// The sum of the y components of a coordinate sequence.
pub open spec fn coord_sum_y(s: Seq<crate::geometry::GeoCoord>) -> int
    decreases s.len(),
{
    if s.len() == 0 {
        0
    } else {
        coord_sum_y(s.drop_last()) + s.last().y
    }
}

/// The average of a nonempty set of centroids, as an exact rational point:
/// each component is the component sum over the count.  `None` exactly when
/// a sum or the count cannot be represented.  Averaging zero points is
/// undefined and excluded by the precondition.
pub fn medium_centroid(centroids: &Vec<crate::geometry::GeoCoord>) -> (r: Option<
    crate::gis_camera::Coord,
>)
    requires
        centroids@.len() >= 1,
        crate::geometry::ring_wf(centroids@),
    ensures
        r is Some <==> {
            &&& -(crate::rat::RAT_BOUND as int) < coord_sum_x(centroids@) < crate::rat::RAT_BOUND
                as int
            &&& -(crate::rat::RAT_BOUND as int) < coord_sum_y(centroids@) < crate::rat::RAT_BOUND
                as int
            &&& centroids@.len() < crate::rat::RAT_BOUND as int
        },
        r is Some ==> r->0.wf() && r->0.x@ == (crate::rat::Frac {
            n: coord_sum_x(centroids@),
            d: centroids@.len() as int,
        }) && r->0.y@ == (crate::rat::Frac {
            n: coord_sum_y(centroids@),
            d: centroids@.len() as int,
        }),
{
    let ghost s = centroids@;
    let n = centroids.len();
    let mut sx: i128 = 0;
    let mut sy: i128 = 0;
    let mut i: usize = 0;
    while i < n
        invariant
            n == s.len(),
            s == centroids@,
            0 <= i <= n,
            crate::geometry::ring_wf(s),
            sx as int == coord_sum_x(s.take(i as int)),
            sy as int == coord_sum_y(s.take(i as int)),
            -(i as int) * (crate::geometry::COORD_LIMIT as int) <= sx <= (i as int) * (
            crate::geometry::COORD_LIMIT as int),
            -(i as int) * (crate::geometry::COORD_LIMIT as int) <= sy <= (i as int) * (
            crate::geometry::COORD_LIMIT as int),
        decreases n - i,
    {
        let ghost t = s.take(i as int + 1);
        proof {
            vstd::assert_seqs_equal!(t.drop_last(), s.take(i as int));
            assert(t.last() == s[i as int]);
        }
        sx = sx + centroids[i].x as i128;
        sy = sy + centroids[i].y as i128;
        i = i + 1;
    }
    proof {
        vstd::assert_seqs_equal!(s.take(n as int), s);
    }
    let bound: i128 = crate::rat::RAT_BOUND as i128;
    if -bound < sx && sx < bound && -bound < sy && sy < bound && (n as u128) < (bound as u128) {
        Some(
            crate::gis_camera::Coord {
                x: crate::rat::Rat::new(sx as i64, n as i64),
                y: crate::rat::Rat::new(sy as i64, n as i64),
            },
        )
    } else {
        None
    }
}

/// The kind of mesh a layer is rendered as; used to derive z-order.
pub enum MeshType {
    Point,
    Polygon,
    LineString,
}

/// Derives the render depth of a layer: three slots per layer, with points
/// below polygons below line strings within one layer's band.
pub fn calculate_z(layer_index: i32, mesh_type: MeshType) -> (z: i32)
    requires
        i32::MIN <= 3 * layer_index,
        3 * layer_index + 3 <= i32::MAX,
    ensures
        z == 3 * layer_index + match mesh_type {
            MeshType::Point => 1int,
            MeshType::Polygon => 2int,
            MeshType::LineString => 3int,
        },
{
    layer_index * 3 + match mesh_type {
        MeshType::Point => 1,
        MeshType::Polygon => 2,
        MeshType::LineString => 3,
    }
}

} // verus!
