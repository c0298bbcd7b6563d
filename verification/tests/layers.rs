//! Layer store: identifiers, ordering and containment queries.

use gis_test::geometry::{GeoCoord, Geometry, PolygonGeom, COORD_LIMIT};
use gis_test::gis_layer_id::{new_id, LayerId};
use gis_test::gis_layers::{AllLayers, LayerError};
use gis_test::{calculate_z, medium_centroid, MeshType};

fn gc(x: i64, y: i64) -> GeoCoord {
    GeoCoord { x, y }
}

fn square(x0: i64, y0: i64, side: i64) -> Vec<GeoCoord> {
    vec![
        gc(x0, y0),
        gc(x0 + side, y0),
        gc(x0 + side, y0 + side),
        gc(x0, y0 + side),
    ]
}

fn square_polygon(x0: i64, y0: i64, side: i64) -> Geometry {
    Geometry::Polygon(PolygonGeom { exterior: square(x0, y0, side), interiors: vec![] })
}

#[test]
fn layer_id_basics() {
    assert_eq!(LayerId::new().get_id(), 0);
    assert_eq!(LayerId::default().get_id(), 0);
    assert_eq!(LayerId::from_id(7).get_id(), 7);
    assert_eq!(new_id(0), 1);
    assert_eq!(new_id(41), 42);
}

#[test]
fn add_yields_distinct_increasing_ids() {
    let mut layers = AllLayers::new();
    assert_eq!(layers.count(), 0);
    assert_eq!(layers.last_layer_id(), 0);
    let mut prev = 0;
    for i in 0..5 {
        let id = layers
            .add(Geometry::Point(gc(i, i)), format!("layer {}", i))
            .unwrap();
        assert!(id.get_id() > prev);
        prev = id.get_id();
    }
    assert_eq!(layers.count(), 5);
    assert_eq!(layers.last_layer_id(), 5);
    let ids: Vec<i32> = layers.iter_bottom_to_top().iter().map(|l| l.get_id()).collect();
    assert_eq!(ids, vec![1, 2, 3, 4, 5]);
    let top_down: Vec<i32> = layers.iter_top_to_bottom().iter().map(|l| l.get_id()).collect();
    assert_eq!(top_down, vec![5, 4, 3, 2, 1]);
}

#[test]
fn containing_coord_yields_top_layer_first() {
    // two overlapping squares: A added first (bottom), B second (top)
    let mut layers = AllLayers::new();
    let a = layers.add(square_polygon(0, 0, 10), "A".to_string()).unwrap();
    let b = layers.add(square_polygon(2, 2, 10), "B".to_string()).unwrap();
    let hits = layers.containing_coord(gc(5, 5));
    assert_eq!(hits.len(), 2);
    assert_eq!(hits[0], b);
    assert_eq!(hits[1], a);
}

#[test]
fn polygon_point_scenario() {
    // a polygon layer and a point layer; the query point is inside the
    // polygon but not on the point
    let mut layers = AllLayers::new();
    let id1 = layers.add(square_polygon(0, 0, 10), "L1".to_string()).unwrap();
    let id2 = layers.add(Geometry::Point(gc(100, 100)), "L2".to_string()).unwrap();
    assert_eq!(id1.get_id(), 1);
    assert_eq!(id2.get_id(), 2);
    assert_eq!(layers.last_layer_id(), 2);
    let hits = layers.containing_coord(gc(5, 5));
    assert_eq!(hits.len(), 1);
    assert_eq!(hits[0], id1);
    assert_eq!(layers.layer_at(0).name, "L1");
}

#[test]
fn polygon_hole_excludes_points() {
    let pg = Geometry::Polygon(PolygonGeom {
        exterior: square(0, 0, 10),
        interiors: vec![square(4, 4, 2)],
    });
    let mut layers = AllLayers::new();
    let id = layers.add(pg, "holed".to_string()).unwrap();
    assert!(layers.containing_coord(gc(2, 2)).contains(&id));
    // (5, 5) falls in the hole
    assert!(layers.containing_coord(gc(5, 5)).is_empty());
    // far outside
    assert!(layers.containing_coord(gc(50, 50)).is_empty());
}

#[test]
fn linestring_contains_points_on_segments() {
    let ls = Geometry::LineString(vec![gc(0, 0), gc(10, 0), gc(10, 10)]);
    let mut layers = AllLayers::new();
    let id = layers.add(ls, "line".to_string()).unwrap();
    assert!(layers.containing_coord(gc(5, 0)).contains(&id));
    assert!(layers.containing_coord(gc(10, 7)).contains(&id));
    assert!(layers.containing_coord(gc(5, 1)).is_empty());
}

#[test]
fn multipoint_contains_exact_points_only() {
    let mp = Geometry::MultiPoint(vec![gc(1, 1), gc(2, 2)]);
    let mut layers = AllLayers::new();
    let id = layers.add(mp, "points".to_string()).unwrap();
    assert!(layers.containing_coord(gc(2, 2)).contains(&id));
    assert!(layers.containing_coord(gc(3, 3)).is_empty());
}

#[test]
fn multipolygon_contains_any_member() {
    let mp = Geometry::MultiPolygon(vec![
        PolygonGeom { exterior: square(0, 0, 4), interiors: vec![] },
        PolygonGeom { exterior: square(10, 10, 4), interiors: vec![] },
    ]);
    let mut layers = AllLayers::new();
    let id = layers.add(mp, "mp".to_string()).unwrap();
    assert!(layers.containing_coord(gc(2, 2)).contains(&id));
    assert!(layers.containing_coord(gc(12, 12)).contains(&id));
    assert!(layers.containing_coord(gc(7, 7)).is_empty());
}

#[test]
fn collection_contains_member_hits_but_nested_collections_never() {
    let coll = Geometry::GeometryCollection(vec![
        Geometry::Point(gc(3, 3)),
        square_polygon(10, 10, 4),
    ]);
    let mut layers = AllLayers::new();
    let id = layers.add(coll, "coll".to_string()).unwrap();
    assert!(layers.containing_coord(gc(3, 3)).contains(&id));
    assert!(layers.containing_coord(gc(12, 12)).contains(&id));
    assert!(layers.containing_coord(gc(0, 0)).is_empty());

    // a collection nested inside a collection is unclassified: it never
    // contains anything, instead of failing
    let nested = Geometry::GeometryCollection(vec![Geometry::GeometryCollection(vec![
        Geometry::Point(gc(3, 3)),
    ])]);
    let mut layers2 = AllLayers::new();
    layers2.add(nested, "nested".to_string()).unwrap();
    assert!(layers2.containing_coord(gc(3, 3)).is_empty());
}

#[test]
fn add_rejects_geometry_off_the_grid() {
    let mut layers = AllLayers::new();
    let err = layers
        .add(Geometry::Point(gc(COORD_LIMIT, 0)), "far".to_string())
        .unwrap_err();
    assert_eq!(err, LayerError::GeometryOutOfRange);
    assert_eq!(layers.count(), 0);
    assert_eq!(layers.last_layer_id(), 0);
}

#[test]
fn medium_centroid_is_exact_average() {
    let pts = vec![gc(0, 0), gc(10, 0), gc(20, 10)];
    let c = medium_centroid(&pts).unwrap();
    assert_eq!((c.x.num, c.x.den), (30, 3));
    assert_eq!((c.y.num, c.y.den), (10, 3));
    assert!(c.x.eq_value(gis_test::rat::Rat::new(10, 1)));
}

#[test]
fn calculate_z_layers_meshes_by_kind() {
    assert_eq!(calculate_z(0, MeshType::Point), 1);
    assert_eq!(calculate_z(0, MeshType::Polygon), 2);
    assert_eq!(calculate_z(0, MeshType::LineString), 3);
    assert_eq!(calculate_z(2, MeshType::LineString), 9);
    assert_eq!(calculate_z(1, MeshType::Polygon), 5);
}

#[test]
fn degenerate_rings_contain_nothing() {
    let mut layers = AllLayers::new();
    layers
        .add(Geometry::LineString(vec![gc(5, 5)]), "one vertex".to_string())
        .unwrap();
    layers
        .add(
            Geometry::Polygon(PolygonGeom { exterior: vec![gc(0, 0), gc(10, 10)], interiors: vec![] }),
            "two vertices".to_string(),
        )
        .unwrap();
    assert!(layers.containing_coord(gc(5, 5)).is_empty());
}

#[test]
fn grid_boundary_coordinates_are_accepted() {
    let mut layers = AllLayers::new();
    let id = layers
        .add(Geometry::Point(gc(COORD_LIMIT - 1, -(COORD_LIMIT - 1))), "edge".to_string())
        .unwrap();
    assert!(layers.containing_coord(gc(COORD_LIMIT - 1, -(COORD_LIMIT - 1))).contains(&id));
}
