//! Plain event types exchanged between the input loop and the viewport.
//!
//! A zoom event carries the multiplicative factor derived from a raw scroll
//! amount by `factor = max(0, 1 + amount / 500)`, so a small wheel delta
//! becomes a gentle zoom step and a large negative delta can never flip the
//! sign of the scale.  A pan event carries a pixel delta where positive x is
//! right and positive y is up.

use vstd::prelude::*;

use crate::gis_camera::Coord;
use crate::geometry::GeoCoord;
use crate::rat::{fadd, fdiv, fits, fone, fzero, Frac, Rat};

verus! {

/// Identifier of a layer that was just created.
#[derive(Clone, Copy, Debug, PartialEq, Eq, Structural)]
pub struct CreateLayerEventWriter(pub i32);

/// Request to centre the camera on the layer with the carried identifier.
#[derive(Clone, Copy, Debug, PartialEq, Eq, Structural)]
pub struct CenterCameraEvent(pub i32);

/// Notification that the mesh of the carried layer was spawned.
#[derive(Clone, Copy, Debug, PartialEq, Eq, Structural)]
pub struct MeshSpawnedEvent(pub i32);

/// Request to create a layer from a named geometry anchored at one point.
#[derive(Debug)]
pub struct CreateLayerEventReader {
    pub name: String,
    pub crs: String,
    pub coord: GeoCoord,
}

/// A pan request in pixels: positive x is right, positive y is up.
#[derive(Clone, Copy, Debug, PartialEq, Eq, Structural)]
pub struct PanCameraEvent {
    pub x: Rat,
    pub y: Rat,
}

impl PanCameraEvent {
    /// Both components are representable.
    pub open spec fn wf(self) -> bool {
        self.x.wf() && self.y.wf()
    }

    /// Pan upwards by `amount` pixels.
    pub fn up(amount: Rat) -> (r: PanCameraEvent)
        requires
            amount.wf(),
        ensures
            r.wf(),
            r.x@ == fzero(),
            r.y@ == amount@,
    {
        PanCameraEvent { x: Rat::from_int(0), y: amount }
    }

    /// Pan to the right by `amount` pixels.
    pub fn right(amount: Rat) -> (r: PanCameraEvent)
        requires
            amount.wf(),
        ensures
            r.wf(),
            r.x@ == amount@,
            r.y@ == fzero(),
    {
        PanCameraEvent { x: amount, y: Rat::from_int(0) }
    }

    /// Pan downwards by `amount` pixels.
    pub fn down(amount: Rat) -> (r: PanCameraEvent)
        requires
            amount.wf(),
        ensures
            r.wf(),
            r.x@ == fzero(),
            r.y@ == (Frac { n: -amount@.n, d: amount@.d }),
    {
        PanCameraEvent { x: Rat::from_int(0), y: amount.neg() }
    }

    /// Pan to the left by `amount` pixels.
    pub fn left(amount: Rat) -> (r: PanCameraEvent)
        requires
            amount.wf(),
        ensures
            r.wf(),
            r.x@ == (Frac { n: -amount@.n, d: amount@.d }),
            r.y@ == fzero(),
    {
        PanCameraEvent { x: amount.neg(), y: Rat::from_int(0) }
    }
}

/// The exact unclamped factor `1 + amount / 500`.
pub open spec fn raw_factor(amount: Frac) -> Frac {
    fadd(fone(), fdiv(amount, Frac { n: 500, d: 1 }))
}

/// Whether the factor for `amount` can be represented.
pub open spec fn factor_fits(amount: Frac) -> bool {
    fits(fdiv(amount, Frac { n: 500, d: 1 })) && fits(raw_factor(amount))
}

/// The normalized zoom factor: `max(0, 1 + amount / 500)`.
pub open spec fn norm_factor(amount: Frac) -> Frac {
    if raw_factor(amount).n < 0 {
        fzero()
    } else {
        raw_factor(amount)
    }
}

/// Turns a raw scroll amount into the normalized multiplicative zoom factor;
/// `None` when the exact factor cannot be represented.
pub fn zoom_factor(amount: Rat) -> (r: Option<Rat>)
    requires
        amount.wf(),
    ensures
        r is Some <==> factor_fits(amount@),
        r is Some ==> r->0.wf() && r->0@.n >= 0 && r->0@ == norm_factor(amount@),
{
    let five_hundred = Rat::from_int(500);
    let step = match amount.div(five_hundred) {
        Some(v) => v,
        None => {
            return None;
        },
    };
    let raw = match Rat::from_int(1).add(step) {
        Some(v) => v,
        None => {
            return None;
        },
    };
    if raw.num < 0 {
        Some(Rat::from_int(0))
    } else {
        Some(raw)
    }
}

/// A zoom gesture: the normalized factor plus the world point under the
/// cursor, which the zoom should keep visually fixed.
///
/// The factor is stored in `amount`: above one means zoom in, one means no
/// change, below one means zoom out.
#[derive(Clone, Copy, Debug, PartialEq, Eq, Structural)]
pub struct ZoomEvent {
    pub amount: Rat,
    pub coord: Coord,
}

impl ZoomEvent {
    /// The factor is representable and not negative.
    pub open spec fn wf(self) -> bool {
        self.amount.wf() && self.amount@.n >= 0 && self.coord.wf()
    }

    /// Builds a zoom event from a raw scroll amount; `None` when the exact
    /// factor cannot be represented.
    pub fn new(amount: Rat, coord: Coord) -> (r: Option<ZoomEvent>)
        requires
            amount.wf(),
            coord.wf(),
        ensures
            r is Some <==> factor_fits(amount@),
            r is Some ==> r->0.wf() && r->0.coord == coord && r->0.amount@ == norm_factor(amount@),
    {
        match zoom_factor(amount) {
            Some(f) => Some(ZoomEvent { amount: f, coord }),
            None => None,
        }
    }
}

/// A zoom gesture as published on the event bus; same payload as
/// `ZoomEvent`.
#[derive(Clone, Copy, Debug, PartialEq, Eq, Structural)]
pub struct ZoomCameraEvent {
    pub amount: Rat,
    pub coord: Coord,
}

impl ZoomCameraEvent {
    /// The factor is representable and not negative.
    pub open spec fn wf(self) -> bool {
        self.amount.wf() && self.amount@.n >= 0 && self.coord.wf()
    }

    /// Builds a zoom event from a raw scroll amount; `None` when the exact
    /// factor cannot be represented.
    pub fn new(amount: Rat, coord: Coord) -> (r: Option<ZoomCameraEvent>)
        requires
            amount.wf(),
            coord.wf(),
        ensures
            r is Some <==> factor_fits(amount@),
            r is Some ==> r->0.wf() && r->0.coord == coord && r->0.amount@ == norm_factor(amount@),
    {
        match zoom_factor(amount) {
            Some(f) => Some(ZoomCameraEvent { amount: f, coord }),
            None => None,
        }
    }
}

} // verus!
