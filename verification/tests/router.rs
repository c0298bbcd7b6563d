//! Event folding and routing.

use gis_test::event_router::{compose_pan_events, created_layer_event, fold_zoom_events};
use gis_test::geometry::GeoCoord;
use gis_test::gis_camera::Coord;
use gis_test::gis_events::{
    CenterCameraEvent, CreateLayerEventReader, CreateLayerEventWriter, MeshSpawnedEvent,
    PanCameraEvent, ZoomCameraEvent, ZoomEvent,
};
use gis_test::gis_layers::AllLayers;
use gis_test::rat::Rat;

fn rint(v: i64) -> Rat {
    Rat::from_int(v)
}

fn coord(x: i64, y: i64) -> Coord {
    Coord { x: rint(x), y: rint(y) }
}

#[test]
fn zoom_event_normalizes_amount() {
    // amount 500 -> factor 2; amount -250 -> factor 1/2; amount -1000
    // clamps to factor 0
    let e = ZoomEvent::new(rint(500), coord(1, 2)).unwrap();
    assert!(e.amount.eq_value(rint(2)));
    let e2 = ZoomEvent::new(rint(-250), coord(0, 0)).unwrap();
    assert!(e2.amount.eq_value(Rat::new(1, 2)));
    let e3 = ZoomCameraEvent::new(rint(-1000), coord(0, 0)).unwrap();
    assert!(e3.amount.eq_value(rint(0)));
}

#[test]
fn fold_takes_first_anchor_and_multiplies_factors() {
    let e1 = ZoomEvent::new(rint(500), coord(1, 2)).unwrap();
    let e2 = ZoomEvent::new(rint(-250), coord(9, 9)).unwrap();
    let folded = fold_zoom_events(&vec![e1, e2]).unwrap();
    // the first event's anchor wins; the factors 2 and 1/2 combine to 1
    assert_eq!(folded.coord, coord(1, 2));
    assert!(folded.amount.eq_value(rint(1)));
}

#[test]
fn fold_of_no_events_is_none() {
    assert!(fold_zoom_events(&vec![]).is_none());
}

#[test]
fn fold_of_one_event_is_that_event() {
    let e = ZoomEvent::new(rint(100), coord(4, 5)).unwrap();
    let folded = fold_zoom_events(&vec![e]).unwrap();
    assert_eq!(folded.coord, e.coord);
    assert!(folded.amount.eq_value(Rat::new(6, 5)));
}

#[test]
fn pan_events_compose_diagonally() {
    let up = PanCameraEvent::up(rint(5));
    let right = PanCameraEvent::right(rint(3));
    let d = compose_pan_events(&vec![up, right]).unwrap();
    assert!(d.x.eq_value(rint(3)));
    assert!(d.y.eq_value(rint(5)));

    let down = PanCameraEvent::down(rint(2));
    let left = PanCameraEvent::left(rint(7));
    let d2 = compose_pan_events(&vec![up, right, down, left]).unwrap();
    assert!(d2.x.eq_value(rint(-4)));
    assert!(d2.y.eq_value(rint(3)));
}

#[test]
fn composing_no_pan_events_is_zero_delta() {
    let d = compose_pan_events(&vec![]).unwrap();
    assert!(d.x.eq_value(rint(0)));
    assert!(d.y.eq_value(rint(0)));
}

#[test]
fn created_layer_event_adds_point_layer() {
    let mut layers = AllLayers::new();
    let request = CreateLayerEventReader {
        name: "harbour".to_string(),
        crs: "EPSG:4326".to_string(),
        coord: GeoCoord { x: 5, y: 5 },
    };
    let written = created_layer_event(&mut layers, request).unwrap();
    assert_eq!(written, CreateLayerEventWriter(1));
    assert_eq!(layers.count(), 1);
    assert_eq!(layers.layer_at(0).name, "harbour");
    assert!(!layers.layer_at(0).visible);
    assert!(layers.containing_coord(GeoCoord { x: 5, y: 5 }).len() == 1);
}

#[test]
fn plain_event_payloads_carry_ids() {
    assert_eq!(CenterCameraEvent(3).0, 3);
    assert_eq!(MeshSpawnedEvent(8).0, 8);
}
