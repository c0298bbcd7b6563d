//! Folding raw input events into single viewport operations.
//!
//! All zoom events queued within one update tick are drained and folded into
//! one zoom step before the viewport is touched: the anchor is the first
//! event's coordinate (first event wins), while every event's factor is
//! multiplied into one cumulative factor.  Pan events are composed
//! directionally into a single delta, so simultaneous up and right become
//! one diagonal pan.  A fold whose exact cumulative value is unrepresentable
//! yields nothing, and the tick is dropped the same way a degenerate
//! transform update is.

use vstd::prelude::*;
use vstd::assert_seqs_equal;

use crate::geometry::{coord_in_range, Geometry};
use crate::gis_events::{CreateLayerEventReader, CreateLayerEventWriter, PanCameraEvent, ZoomEvent};
use crate::gis_layers::{AllLayers, LayerError};
use crate::rat::{fadd, fits, fmul, fone, fzero, lemma_nonneg_mul, Frac, Rat};

verus! {

/// The product of all factors of a zoom-event sequence.
pub open spec fn combined_factor(s: Seq<ZoomEvent>) -> Frac
    decreases s.len(),
{
    if s.len() == 0 {
        fone()
    } else if s.len() == 1 {
        s.last().amount@
    } else {
        fmul(combined_factor(s.drop_last()), s.last().amount@)
    }
}

/// Whether every running product of the fold is representable.
pub open spec fn combined_factors_fit(s: Seq<ZoomEvent>) -> bool {
    forall|i: int| 2 <= i <= s.len() ==> fits(combined_factor(#[trigger] s.take(i)))
}

/// Folds the zoom events of one tick into a single event: the first event's
/// anchor, the product of all factors.  `None` when there is no event or a
/// running product is unrepresentable.
pub fn fold_zoom_events(events: &Vec<ZoomEvent>) -> (r: Option<ZoomEvent>)
    requires
        forall|i: int| 0 <= i < events@.len() ==> (#[trigger] events@[i]).wf(),
    ensures
        r is Some <==> events@.len() >= 1 && combined_factors_fit(events@),
        r is Some ==> r->0.wf() && r->0.coord == events@[0].coord && r->0.amount@
            == combined_factor(events@),
    {
    let ghost s = events@;
    let n = events.len();
    if n == 0 {
        return None;
    }
    let mut acc = events[0].amount;
    proof {
        assert(s.take(1).last() == s[0]);
        assert(acc@ == combined_factor(s.take(1)));
    }
    let mut i: usize = 1;
    while i < n
        invariant
            n == s.len(),
            s == events@,
            1 <= i <= n,
            forall|k: int| 0 <= k < s.len() ==> (#[trigger] s[k]).wf(),
            acc.wf(),
            acc@.n >= 0,
            acc@ == combined_factor(s.take(i as int)),
            forall|k: int| 2 <= k <= i ==> fits(combined_factor(#[trigger] s.take(k))),
        decreases n - i,
    {
        let ghost t = s.take(i as int + 1);
        proof {
            assert_seqs_equal!(t.drop_last(), s.take(i as int));
            assert(t.last() == s[i as int]);
        }
        let next = match acc.mul(events[i].amount) {
            Some(v) => v,
            None => {
                proof {
                    assert(!fits(combined_factor(s.take(i as int + 1))));
                }
                return None;
            },
        };
        proof {
            lemma_nonneg_mul(acc@.n, s[i as int].amount@.n);
        }
        acc = next;
        i = i + 1;
    }
    proof {
        assert_seqs_equal!(s.take(n as int), s);
    }
    Some(ZoomEvent { amount: acc, coord: events[0].coord })
}

/// The sum of the x deltas of a pan-event sequence.
pub open spec fn summed_delta_x(s: Seq<PanCameraEvent>) -> Frac
    decreases s.len(),
{
    if s.len() == 0 {
        fzero()
    } else if s.len() == 1 {
        s.last().x@
    } else {
        fadd(summed_delta_x(s.drop_last()), s.last().x@)
    }
}

/// The sum of the y deltas of a pan-event sequence.
pub open spec fn summed_delta_y(s: Seq<PanCameraEvent>) -> Frac
    decreases s.len(),
{
    if s.len() == 0 {
        fzero()
    } else if s.len() == 1 {
        s.last().y@
    } else {
        fadd(summed_delta_y(s.drop_last()), s.last().y@)
    }
}

/// Whether every running sum of the composition is representable.
pub open spec fn summed_deltas_fit(s: Seq<PanCameraEvent>) -> bool {
    forall|i: int|
        1 <= i <= s.len() ==> fits(summed_delta_x(#[trigger] s.take(i))) && fits(
            summed_delta_y(s.take(i)),
        )
}

/// Composes the pan events of one tick into a single diagonal delta.
/// `None` when a running sum is unrepresentable; no events compose to the
/// zero delta.
pub fn compose_pan_events(events: &Vec<PanCameraEvent>) -> (r: Option<PanCameraEvent>)
    requires
        forall|i: int| 0 <= i < events@.len() ==> (#[trigger] events@[i]).wf(),
    ensures
        r is Some <==> summed_deltas_fit(events@),
        r is Some ==> r->0.wf() && r->0.x@ == summed_delta_x(events@) && r->0.y@
            == summed_delta_y(events@),
    {
    let ghost s = events@;
    let n = events.len();
    if n == 0 {
        return Some(PanCameraEvent { x: Rat::from_int(0), y: Rat::from_int(0) });
    }
    let mut dx = events[0].x;
    let mut dy = events[0].y;
    proof {
        assert(s.take(1).last() == s[0]);
        assert(dx@ == summed_delta_x(s.take(1)));
        assert(dy@ == summed_delta_y(s.take(1)));
    }
    let mut i: usize = 1;
    while i < n
        invariant
            n == s.len(),
            s == events@,
            1 <= i <= n,
            forall|k: int| 0 <= k < s.len() ==> (#[trigger] s[k]).wf(),
            dx.wf(),
            dy.wf(),
            dx@ == summed_delta_x(s.take(i as int)),
            dy@ == summed_delta_y(s.take(i as int)),
            forall|k: int|
                1 <= k <= i ==> fits(summed_delta_x(#[trigger] s.take(k))) && fits(
                    summed_delta_y(s.take(k)),
                ),
        decreases n - i,
    {
        let ghost t = s.take(i as int + 1);
        proof {
            assert_seqs_equal!(t.drop_last(), s.take(i as int));
            assert(t.last() == s[i as int]);
        }
        let nx = match dx.add(events[i].x) {
            Some(v) => v,
            None => {
                proof {
                    assert(!fits(summed_delta_x(s.take(i as int + 1))));
                }
                return None;
            },
        };
        let ny = match dy.add(events[i].y) {
            Some(v) => v,
            None => {
                proof {
                    assert(!fits(summed_delta_y(s.take(i as int + 1))));
                }
                return None;
            },
        };
        dx = nx;
        dy = ny;
        i = i + 1;
    }
    proof {
        assert_seqs_equal!(s.take(n as int), s);
    }
    Some(PanCameraEvent { x: dx, y: dy })
}

/// Handles one create-layer request: stores the request's point geometry
/// under its name and reports the new layer's identifier.
pub fn created_layer_event(layers: &mut AllLayers, request: CreateLayerEventReader) -> (r: Result<
    CreateLayerEventWriter,
    LayerError,
>)
    requires
        old(layers).wf(),
        old(layers).layers_seq().len() < i32::MAX as int,
    ensures
        final(layers).wf(),
        final(layers).selected_layer_id == old(layers).selected_layer_id,
        coord_in_range(request.coord) ==> {
            &&& r is Ok
            &&& r->Ok_0.0 as int == old(layers).layers_seq().len() + 1
            &&& final(layers).layers_seq().len() == old(layers).layers_seq().len() + 1
            &&& final(layers).layers_seq().last().geom_type == Geometry::Point(request.coord)
            &&& final(layers).layers_seq().last().name@ == request.name@
            &&& final(layers).layers_seq().last().visible == false
            &&& forall|i: int|
                0 <= i < old(layers).layers_seq().len() ==> final(layers).layers_seq()[i] == old(
                    layers,
                ).layers_seq()[i]
        },
        !coord_in_range(request.coord) ==> r == Result::<
            CreateLayerEventWriter,
            LayerError,
        >::Err(LayerError::GeometryOutOfRange) && *final(layers) == *old(layers),
{
    let geometry = Geometry::Point(request.coord);
    match layers.add(geometry, request.name) {
        Ok(id) => Ok(CreateLayerEventWriter(id.get_id())),
        Err(e) => Err(e),
    }
}

} // verus!
