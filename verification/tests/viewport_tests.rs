//! Viewport conversions, centring and cursor-anchored zoom.

use gis_test::gis_camera::{Coord, Offset, Scale, Size, Transform2D};
use gis_test::rat::{Rat, RAT_BOUND};
use gis_test::viewport::{determine_scale, CenterState, MyArea, PanDirection, Viewport};

fn rint(v: i64) -> Rat {
    Rat::from_int(v)
}

fn size(w: i64, h: i64) -> Size {
    Size { width: rint(w), height: rint(h) }
}

fn coord(x: Rat, y: Rat) -> Coord {
    Coord { x, y }
}

#[test]
fn screen_to_world_at_window_centre_is_offset() {
    let vp = Viewport::new(size(800, 600), size(800, 600));
    let w = vp.screen_to_world(coord(rint(400), rint(300))).unwrap();
    assert!(w.x.eq_value(rint(0)));
    assert!(w.y.eq_value(rint(0)));
}

#[test]
fn screen_world_roundtrip_restores_point() {
    let mut vp = Viewport::new(size(1000, 800), size(1100, 900));
    vp.center(size(1000, 800));
    let w = coord(Rat::new(37, 2), rint(-5));
    let p = vp.world_to_screen(w).unwrap();
    let w2 = vp.screen_to_world(p).unwrap();
    assert!(w2.x.eq_value(w.x));
    assert!(w2.y.eq_value(w.y));
}

#[test]
fn world_screen_roundtrip_restores_pixel() {
    let vp = Viewport::new(size(640, 480), size(640, 480));
    let p = coord(Rat::new(123, 4), rint(77));
    let w = vp.screen_to_world(p).unwrap();
    let p2 = vp.world_to_screen(w).unwrap();
    assert!(p2.x.eq_value(p.x));
    assert!(p2.y.eq_value(p.y));
}

#[test]
fn determine_scale_takes_larger_ratio() {
    let s = determine_scale(rint(1000), rint(800), size(1100, 900)).unwrap();
    // max(1000/1100, 800/900) = 10/11
    assert!(s.eq_value(Rat::new(10, 11)));
    let s2 = determine_scale(rint(500), rint(900), size(1000, 1000)).unwrap();
    assert!(s2.eq_value(Rat::new(9, 10)));
}

#[test]
fn center_and_factor_two_zoom_scenario() {
    // a 1000x800 window against an 1100x900 reference, then a zoom of
    // amount 500 (factor 2) anchored at the world origin
    let mut vp = Viewport::new(size(1000, 800), size(1100, 900));
    vp.center(size(1000, 800));
    assert!(vp.transform.scale.0.eq_value(Rat::new(10, 11)));
    assert!(vp.transform.offset.x.eq_value(rint(0)));
    assert!(vp.transform.offset.y.eq_value(rint(0)));

    let origin = coord(rint(0), rint(0));
    let on_screen = vp.world_to_screen(origin).unwrap();
    vp.zoom_at(origin, rint(500));
    // the effective zoom doubles: scale halves
    assert!(vp.transform.scale.0.eq_value(Rat::new(5, 11)));
    // and the origin stays fixed under its old pixel
    let back = vp.screen_to_world(on_screen).unwrap();
    assert!(back.x.eq_value(rint(0)));
    assert!(back.y.eq_value(rint(0)));
}

#[test]
fn zoom_at_amount_zero_is_true_noop() {
    let mut vp = Viewport::new(size(1000, 800), size(1100, 900));
    vp.center(size(1000, 800));
    let before = vp;
    vp.zoom_at(coord(rint(42), rint(-7)), rint(0));
    assert_eq!(vp, before);
}

#[test]
fn zoom_at_amount_minus_500_is_rejected() {
    // amount -500 normalizes to factor 0, which must not flip the scale
    let mut vp = Viewport::new(size(1000, 800), size(1100, 900));
    let before = vp;
    vp.zoom_at(coord(rint(1), rint(1)), rint(-500));
    assert_eq!(vp, before);
}

#[test]
fn zoom_at_anchor_at_offset_keeps_anchor_fixed() {
    // the anchor coincides with the offset, where anchor invariance holds
    let mut vp = Viewport::new(size(800, 600), size(800, 600));
    let anchor = coord(rint(0), rint(0));
    let on_screen = vp.world_to_screen(anchor).unwrap();
    vp.zoom_at(anchor, rint(250));
    let back = vp.screen_to_world(on_screen).unwrap();
    assert!(back.x.eq_value(anchor.x));
    assert!(back.y.eq_value(anchor.y));
}

#[test]
fn pan_moves_offset_in_cardinal_directions() {
    let mut vp = Viewport::new(size(800, 600), size(800, 600));
    vp.pan(PanDirection::Right, rint(10));
    vp.pan(PanDirection::Up, rint(4));
    assert!(vp.transform.offset.x.eq_value(rint(10)));
    assert!(vp.transform.offset.y.eq_value(rint(4)));
    vp.pan(PanDirection::Left, rint(10));
    vp.pan(PanDirection::Down, rint(4));
    assert!(vp.transform.offset.x.eq_value(rint(0)));
    assert!(vp.transform.offset.y.eq_value(rint(0)));
}

#[test]
fn on_meshes_spawned_centres_once() {
    let mut vp = Viewport::new(size(800, 600), size(800, 600));
    assert_eq!(vp.center_state, CenterState::AwaitingFirstLoad);
    let points = vec![coord(rint(1), rint(2)), coord(rint(3), rint(4))];
    let evs = vp.on_meshes_spawned(&points);
    assert_eq!(vp.center_state, CenterState::Centered);
    assert_eq!(evs.len(), 2);
    // amount 1/2 normalizes to the factor 1001/1000
    assert!(evs[0].amount.eq_value(Rat::new(1001, 1000)));
    assert_eq!(evs[0].coord, points[0]);
    assert_eq!(evs[1].coord, points[1]);
    // a second notification is ignored
    let evs2 = vp.on_meshes_spawned(&points);
    assert!(evs2.is_empty());
    assert_eq!(vp.center_state, CenterState::Centered);
}

#[test]
fn my_area_size_and_rect() {
    let area = MyArea {
        window: size(800, 600),
        left_offset_px: rint(100),
        top_offset_px: rint(0),
        right_offset_px: rint(0),
        bottom_offset_px: rint(0),
    };
    let s = area.size().unwrap();
    assert!(s.width.eq_value(rint(700)));
    assert!(s.height.eq_value(rint(600)));

    let vp = Viewport::new(size(800, 600), size(800, 600));
    let rect = area.projected_geo_rect(&vp).unwrap();
    // identity transform: world = pixel - half window
    assert!(rect.top_left.x.eq_value(rint(-300)));
    assert!(rect.top_left.y.eq_value(rint(-300)));
    assert!(rect.bottom_right.x.eq_value(rint(400)));
    assert!(rect.bottom_right.y.eq_value(rint(300)));
}

#[test]
fn center_with_degenerate_reference_keeps_transform() {
    // a reference denominator too large to divide by exactly is rejected
    // and the previous transform kept
    let huge = Size {
        width: Rat::new(1, 4_000_000_000_000_000_000),
        height: rint(900),
    };
    let mut vp = Viewport::new(size(800, 600), huge);
    let before = vp.transform;
    vp.center(size(800, 600));
    assert_eq!(vp.transform, before);
}

#[test]
fn screen_to_world_overflow_is_none() {
    let vp = Viewport {
        transform: Transform2D {
            offset: Offset::origin(),
            scale: Scale(Rat::new(RAT_BOUND - 1, 1)),
        },
        window: size(2, 2),
        reference: size(2, 2),
        center_state: CenterState::AwaitingFirstLoad,
    };
    // scaling the re-centred pixel exceeds the representable range
    assert!(vp.screen_to_world(coord(rint(3), rint(3))).is_none());
}
