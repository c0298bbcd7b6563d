//! The viewport: screen/world conversion and navigation gestures.
//!
//! A `Viewport` owns one `Transform2D`, the current window size, and a fixed
//! logical reference size.  Converting a screen pixel to a world coordinate
//! re-centres the pixel around the window middle, scales it into world units
//! and applies the offset; converting back is the exact inverse.  `center`
//! fits the window to the reference size, taking the larger of the two axis
//! ratios so content is never clipped.  `zoom_at` divides the scale by the
//! event's factor and then corrects the offset by
//! `offset - (anchor - offset) * (1 - old_scale / new_scale)`, the update
//! being discarded as a whole whenever any exact result is unrepresentable.
//! A one-shot state records whether the initial centring on first loaded
//! content has already happened.

use vstd::prelude::*;

use crate::gis_camera::{
    pan_fits, pan_step, set_camera_transform, zoom_applies, Coord, Offset, Scale, Size,
    Transform2D,
};
use crate::gis_events::{factor_fits, norm_factor, zoom_factor, ZoomEvent};
use crate::rat::{
    fadd, fdiv, feq, fits, fmul, fneg, fone, fsub, fzero, lemma_add_sub_cancel,
    lemma_feq_add_congr, lemma_feq_mul_congr, lemma_feq_trans,
    lemma_mul_div_cancel, lemma_pos_mul, lemma_sub_add_cancel, Frac, Rat,
};

verus! {

/// Whether the one-shot centring on first loaded content has happened.
#[derive(Clone, Copy, Debug, PartialEq, Eq, Structural)]
pub enum CenterState {
    AwaitingFirstLoad,
    Centered,
}

/// Half of a dimension: the pixel distance from the window edge to its
/// middle.
pub open spec fn half_of(w: Frac) -> Frac {
    fdiv(w, Frac { n: 2, d: 1 })
}

/// One axis of the screen-to-world conversion: re-centre around the window
/// middle, scale into world units, translate by the offset.
pub open spec fn screen_to_world_axis(p: Frac, w: Frac, scale: Frac, offset: Frac) -> Frac {
    fadd(fmul(fsub(p, half_of(w)), scale), offset)
}

/// Whether every step of one screen-to-world axis is representable.
pub open spec fn screen_to_world_axis_fits(p: Frac, w: Frac, scale: Frac, offset: Frac) -> bool {
    &&& fits(half_of(w))
    &&& fits(fsub(p, half_of(w)))
    &&& fits(fmul(fsub(p, half_of(w)), scale))
    &&& fits(screen_to_world_axis(p, w, scale, offset))
}

/// One axis of the world-to-screen conversion: the exact inverse of
/// `screen_to_world_axis`.
pub open spec fn world_to_screen_axis(c: Frac, w: Frac, scale: Frac, offset: Frac) -> Frac {
    fadd(fdiv(fsub(c, offset), scale), half_of(w))
}

/// Whether every step of one world-to-screen axis is representable.
pub open spec fn world_to_screen_axis_fits(c: Frac, w: Frac, scale: Frac, offset: Frac) -> bool {
    &&& fits(half_of(w))
    &&& fits(fsub(c, offset))
    &&& fits(fdiv(fsub(c, offset), scale))
    &&& fits(world_to_screen_axis(c, w, scale, offset))
}

/// The ratio of window width to reference width.
pub open spec fn width_ratio(window: Size, reference: Size) -> Frac {
    fdiv(window.width@, reference.width@)
}

/// The ratio of window height to reference height.
pub open spec fn height_ratio(window: Size, reference: Size) -> Frac {
    fdiv(window.height@, reference.height@)
}

/// The scale that fits the window to the reference size: the larger of the
/// two axis ratios, so the content is never clipped on the narrower axis.
pub open spec fn fit_scale(window: Size, reference: Size) -> Frac {
    if crate::rat::fle(width_ratio(window, reference), height_ratio(window, reference)) {
        height_ratio(window, reference)
    } else {
        width_ratio(window, reference)
    }
}

/// Whether both axis ratios are representable.
pub open spec fn fit_scale_fits(window: Size, reference: Size) -> bool {
    fits(width_ratio(window, reference)) && fits(height_ratio(window, reference))
}

/// The offset correction that keeps the anchor visually fixed during a zoom:
/// `offset - (anchor - offset) * (1 - old_scale / new_scale)`, where the
/// scale ratio equals the zoom factor.
pub open spec fn zoom_corrected(o: Frac, a: Frac, factor: Frac) -> Frac {
    fsub(o, fmul(fsub(a, o), fsub(fone(), factor)))
}

/// Whether the offset correction of one axis is representable.
pub open spec fn zoom_axis_fits(o: Frac, a: Frac, factor: Frac) -> bool {
    &&& fits(fsub(a, o))
    &&& fits(fmul(fsub(a, o), fsub(fone(), factor)))
    &&& fits(zoom_corrected(o, a, factor))
}

/// Whether a zoom by `factor` anchored at `anchor` applies to the transform:
/// the factor is positive and not one, and the new scale and both corrected
/// offset components are representable.
pub open spec fn zoom_at_applies(t: Transform2D, anchor: Coord, factor: Frac) -> bool {
    &&& factor.n >= 1
    &&& !feq(factor, fone())
    &&& fits(fdiv(t.scale.0@, factor))
    &&& fits(fsub(fone(), factor))
    &&& zoom_axis_fits(t.offset.x@, anchor.x@, factor)
    &&& zoom_axis_fits(t.offset.y@, anchor.y@, factor)
}

/// The four cardinal pan directions.
#[derive(Clone, Copy, Debug, PartialEq, Eq, Structural)]
pub enum PanDirection {
    Up,
    Right,
    Down,
    Left,
}

/// The x pixel delta of a cardinal pan.
pub open spec fn pan_delta_x(direction: PanDirection, m: Frac) -> Frac {
    match direction {
        PanDirection::Right => m,
        PanDirection::Left => fneg(m),
        _ => fzero(),
    }
}

/// The y pixel delta of a cardinal pan: positive is up.
pub open spec fn pan_delta_y(direction: PanDirection, m: Frac) -> Frac {
    match direction {
        PanDirection::Up => m,
        PanDirection::Down => fneg(m),
        _ => fzero(),
    }
}

/// The scroll amount sent for each representative point of freshly loaded
/// content, producing a gentle automatic zoom towards it.
pub open spec fn first_load_zoom_amount() -> Frac {
    Frac { n: 1, d: 2 }
}

/// The viewport: current transform, window size, reference size, and the
/// one-shot centring state.
#[derive(Clone, Copy, Debug, PartialEq, Eq, Structural)]
pub struct Viewport {
    pub transform: Transform2D,
    pub window: Size,
    pub reference: Size,
    pub center_state: CenterState,
}

/// Whether both axes of a screen-to-world conversion fit.
pub open spec fn screen_to_world_fits(vp: Viewport, p: Coord) -> bool {
    &&& screen_to_world_axis_fits(
        p.x@,
        vp.window.width@,
        vp.transform.scale.0@,
        vp.transform.offset.x@,
    )
    &&& screen_to_world_axis_fits(
        p.y@,
        vp.window.height@,
        vp.transform.scale.0@,
        vp.transform.offset.y@,
    )
}

/// Whether both axes of a world-to-screen conversion fit.
pub open spec fn world_to_screen_fits(vp: Viewport, c: Coord) -> bool {
    &&& world_to_screen_axis_fits(
        c.x@,
        vp.window.width@,
        vp.transform.scale.0@,
        vp.transform.offset.x@,
    )
    &&& world_to_screen_axis_fits(
        c.y@,
        vp.window.height@,
        vp.transform.scale.0@,
        vp.transform.offset.y@,
    )
}

impl Viewport {
    /// The transform is valid and both sizes are positive.
    pub open spec fn wf(self) -> bool {
        &&& self.transform.wf()
        &&& self.window.wf()
        &&& self.reference.wf()
    }

    /// A fresh viewport: identity transform, centring still pending.
    pub fn new(window: Size, reference: Size) -> (r: Viewport)
        requires
            window.wf(),
            reference.wf(),
        ensures
            r.wf(),
            r.window == window,
            r.reference == reference,
            r.center_state == CenterState::AwaitingFirstLoad,
            r.transform.offset.x@ == fzero(),
            r.transform.offset.y@ == fzero(),
            r.transform.scale.0@ == fone(),
    {
        Viewport {
            transform: Transform2D::identity(),
            window,
            reference,
            center_state: CenterState::AwaitingFirstLoad,
        }
    }

    /// Converts a screen pixel coordinate to the world coordinate under it;
    /// `None` when an exact intermediate value is unrepresentable.
    pub fn screen_to_world(&self, p: Coord) -> (r: Option<Coord>)
        requires
            self.wf(),
            p.wf(),
        ensures
            r is Some <==> screen_to_world_fits(*self, p),
            r is Some ==> r->0.wf() && r->0.x@ == screen_to_world_axis(
                p.x@,
                self.window.width@,
                self.transform.scale.0@,
                self.transform.offset.x@,
            ) && r->0.y@ == screen_to_world_axis(
                p.y@,
                self.window.height@,
                self.transform.scale.0@,
                self.transform.offset.y@,
            ),
    {
        let two = Rat::from_int(2);
        let hw = match self.window.width.div(two) {
            Some(v) => v,
            None => {
                return None;
            },
        };
        let hh = match self.window.height.div(two) {
            Some(v) => v,
            None => {
                return None;
            },
        };
        let cx = match p.x.sub(hw) {
            Some(v) => v,
            None => {
                return None;
            },
        };
        let mx = match cx.mul(self.transform.scale.0) {
            Some(v) => v,
            None => {
                return None;
            },
        };
        let wx = match mx.add(self.transform.offset.x) {
            Some(v) => v,
            None => {
                return None;
            },
        };
        let cy = match p.y.sub(hh) {
            Some(v) => v,
            None => {
                return None;
            },
        };
        let my = match cy.mul(self.transform.scale.0) {
            Some(v) => v,
            None => {
                return None;
            },
        };
        let wy = match my.add(self.transform.offset.y) {
            Some(v) => v,
            None => {
                return None;
            },
        };
        Some(Coord { x: wx, y: wy })
    }

    /// Converts a world coordinate to the screen pixel where it is drawn;
    /// `None` when an exact intermediate value is unrepresentable.
    pub fn world_to_screen(&self, c: Coord) -> (r: Option<Coord>)
        requires
            self.wf(),
            c.wf(),
        ensures
            r is Some <==> world_to_screen_fits(*self, c),
            r is Some ==> r->0.wf() && r->0.x@ == world_to_screen_axis(
                c.x@,
                self.window.width@,
                self.transform.scale.0@,
                self.transform.offset.x@,
            ) && r->0.y@ == world_to_screen_axis(
                c.y@,
                self.window.height@,
                self.transform.scale.0@,
                self.transform.offset.y@,
            ),
    {
        let two = Rat::from_int(2);
        let hw = match self.window.width.div(two) {
            Some(v) => v,
            None => {
                return None;
            },
        };
        let hh = match self.window.height.div(two) {
            Some(v) => v,
            None => {
                return None;
            },
        };
        let dx = match c.x.sub(self.transform.offset.x) {
            Some(v) => v,
            None => {
                return None;
            },
        };
        proof {
            lemma_pos_mul(dx@.d, self.transform.scale.0@.n);
        }
        let qx = match dx.div(self.transform.scale.0) {
            Some(v) => v,
            None => {
                return None;
            },
        };
        let px = match qx.add(hw) {
            Some(v) => v,
            None => {
                return None;
            },
        };
        let dy = match c.y.sub(self.transform.offset.y) {
            Some(v) => v,
            None => {
                return None;
            },
        };
        proof {
            lemma_pos_mul(dy@.d, self.transform.scale.0@.n);
        }
        let qy = match dy.div(self.transform.scale.0) {
            Some(v) => v,
            None => {
                return None;
            },
        };
        let py = match qy.add(hh) {
            Some(v) => v,
            None => {
                return None;
            },
        };
        Some(Coord { x: px, y: py })
    }

    /// Records a window resize and refits the transform to the reference
    /// size: offset back to the origin, scale to the larger axis ratio.  The
    /// transform is kept unchanged when a ratio is unrepresentable.
    pub fn center(&mut self, window: Size)
        requires
            old(self).wf(),
            window.wf(),
        ensures
            final(self).wf(),
            final(self).window == window,
            final(self).reference == old(self).reference,
            final(self).center_state == old(self).center_state,
            fit_scale_fits(window, old(self).reference) ==> {
                &&& final(self).transform.offset.x@ == fzero()
                &&& final(self).transform.offset.y@ == fzero()
                &&& final(self).transform.scale.0@ == fit_scale(window, old(self).reference)
            },
            !fit_scale_fits(window, old(self).reference) ==> final(self).transform == old(
                self,
            ).transform,
    {
        self.window = window;
        if let Some(s) = determine_scale(window.width, window.height, self.reference) {
            set_camera_transform(&mut self.transform, Offset::origin(), Scale(s));
        }
    }

    /// Pans the viewport by `magnitude` pixels in a cardinal direction,
    /// forwarding the composed delta to the transform.
    pub fn pan(&mut self, direction: PanDirection, magnitude: Rat)
        requires
            old(self).wf(),
            magnitude.wf(),
        ensures
            final(self).wf(),
            final(self).window == old(self).window,
            final(self).reference == old(self).reference,
            final(self).center_state == old(self).center_state,
            final(self).transform.scale == old(self).transform.scale,
            pan_fits(
                old(self).transform,
                pan_delta_x(direction, magnitude@),
                pan_delta_y(direction, magnitude@),
            ) ==> {
                &&& final(self).transform.offset.x@ == pan_step(
                    old(self).transform.offset.x@,
                    pan_delta_x(direction, magnitude@),
                    old(self).transform.scale.0@,
                )
                &&& final(self).transform.offset.y@ == pan_step(
                    old(self).transform.offset.y@,
                    pan_delta_y(direction, magnitude@),
                    old(self).transform.scale.0@,
                )
            },
            !pan_fits(
                old(self).transform,
                pan_delta_x(direction, magnitude@),
                pan_delta_y(direction, magnitude@),
            ) ==> final(self).transform == old(self).transform,
    {
        let ev = match direction {
            PanDirection::Up => crate::gis_events::PanCameraEvent::up(magnitude),
            PanDirection::Right => crate::gis_events::PanCameraEvent::right(magnitude),
            PanDirection::Down => crate::gis_events::PanCameraEvent::down(magnitude),
            PanDirection::Left => crate::gis_events::PanCameraEvent::left(magnitude),
        };
        self.transform.pan(ev.x, ev.y);
    }

    /// Applies one zoom step with an already normalized factor: divides the
    /// scale by the factor and corrects the offset so the anchor stays
    /// visually fixed.  A factor of exactly one is a true no-op; a factor
    /// that is zero, or any unrepresentable exact result, discards the whole
    /// update, offset and scale together.
    pub fn apply_zoom(&mut self, anchor: Coord, factor: Rat)
        requires
            old(self).wf(),
            anchor.wf(),
            factor.wf(),
        ensures
            final(self).wf(),
            final(self).window == old(self).window,
            final(self).reference == old(self).reference,
            final(self).center_state == old(self).center_state,
            feq(factor@, fone()) ==> *final(self) == *old(self),
            zoom_at_applies(old(self).transform, anchor, factor@) ==> {
                &&& final(self).transform.scale.0@ == fdiv(old(self).transform.scale.0@, factor@)
                &&& final(self).transform.offset.x@ == zoom_corrected(
                    old(self).transform.offset.x@,
                    anchor.x@,
                    factor@,
                )
                &&& final(self).transform.offset.y@ == zoom_corrected(
                    old(self).transform.offset.y@,
                    anchor.y@,
                    factor@,
                )
            },
            !zoom_at_applies(old(self).transform, anchor, factor@) ==> *final(self) == *old(self),
    {
        if factor.num < 1 {
            return ;
        }
        if factor.num == factor.den {
            return ;
        }
        proof {
            lemma_pos_mul(self.transform.scale.0@.d, factor@.n);
            lemma_pos_mul(self.transform.scale.0@.n, factor@.d);
        }
        let s_new = match self.transform.scale.0.div(factor) {
            Some(v) => v,
            None => {
                return ;
            },
        };
        let k = match Rat::from_int(1).sub(factor) {
            Some(v) => v,
            None => {
                return ;
            },
        };
        let ax = match anchor.x.sub(self.transform.offset.x) {
            Some(v) => v,
            None => {
                return ;
            },
        };
        let cx = match ax.mul(k) {
            Some(v) => v,
            None => {
                return ;
            },
        };
        let nx = match self.transform.offset.x.sub(cx) {
            Some(v) => v,
            None => {
                return ;
            },
        };
        let ay = match anchor.y.sub(self.transform.offset.y) {
            Some(v) => v,
            None => {
                return ;
            },
        };
        let cy = match ay.mul(k) {
            Some(v) => v,
            None => {
                return ;
            },
        };
        let ny = match self.transform.offset.y.sub(cy) {
            Some(v) => v,
            None => {
                return ;
            },
        };
        set_camera_transform(&mut self.transform, Offset { x: nx, y: ny }, Scale(s_new));
    }

    /// Zooms towards `anchor` by a raw scroll amount: normalizes the amount
    /// into a factor and applies one zoom step.  An amount whose factor is
    /// unrepresentable leaves the viewport unchanged.
    pub fn zoom_at(&mut self, anchor: Coord, amount: Rat)
        requires
            old(self).wf(),
            anchor.wf(),
            amount.wf(),
        ensures
            final(self).wf(),
            final(self).window == old(self).window,
            final(self).reference == old(self).reference,
            final(self).center_state == old(self).center_state,
            !factor_fits(amount@) ==> *final(self) == *old(self),
            factor_fits(amount@) && feq(norm_factor(amount@), fone()) ==> *final(self) == *old(
                self,
            ),
            factor_fits(amount@) && zoom_at_applies(
                old(self).transform,
                anchor,
                norm_factor(amount@),
            ) ==> {
                &&& final(self).transform.scale.0@ == fdiv(
                    old(self).transform.scale.0@,
                    norm_factor(amount@),
                )
                &&& final(self).transform.offset.x@ == zoom_corrected(
                    old(self).transform.offset.x@,
                    anchor.x@,
                    norm_factor(amount@),
                )
                &&& final(self).transform.offset.y@ == zoom_corrected(
                    old(self).transform.offset.y@,
                    anchor.y@,
                    norm_factor(amount@),
                )
            },
            factor_fits(amount@) && !zoom_at_applies(
                old(self).transform,
                anchor,
                norm_factor(amount@),
            ) ==> *final(self) == *old(self),
    {
        let f = match zoom_factor(amount) {
            Some(v) => v,
            None => {
                return ;
            },
        };
        self.apply_zoom(anchor, f);
    }

    /// Reacts to freshly spawned content: on the first notification, emits
    /// one gentle zoom event towards every representative point and marks
    /// the centring as done; afterwards the notification is ignored.
    pub fn on_meshes_spawned(&mut self, points: &Vec<Coord>) -> (evs: Vec<ZoomEvent>)
        requires
            old(self).wf(),
            forall|i: int| 0 <= i < points@.len() ==> (#[trigger] points@[i]).wf(),
        ensures
            final(self).wf(),
            old(self).center_state == CenterState::Centered ==> *final(self) == *old(self)
                && evs@.len() == 0,
            old(self).center_state == CenterState::AwaitingFirstLoad ==> {
                &&& final(self).transform == old(self).transform
                &&& final(self).window == old(self).window
                &&& final(self).reference == old(self).reference
                &&& final(self).center_state == CenterState::Centered
                &&& evs@.len() == points@.len()
                &&& forall|i: int|
                    0 <= i < points@.len() ==> (#[trigger] evs@[i]).coord == points@[i]
                        && evs@[i].amount@ == norm_factor(first_load_zoom_amount())
            },
    {
        let mut evs: Vec<ZoomEvent> = Vec::new();
        if self.center_state == CenterState::Centered {
            return evs;
        }
        let n = points.len();
        let mut i: usize = 0;
        while i < n
            invariant
                n == points@.len(),
                0 <= i <= n,
                forall|k: int| 0 <= k < points@.len() ==> (#[trigger] points@[k]).wf(),
                evs@.len() == i,
                forall|k: int|
                    0 <= k < i ==> (#[trigger] evs@[k]).coord == points@[k] && evs@[k].amount@
                        == norm_factor(first_load_zoom_amount()),
            decreases n - i,
        {
            let ev = ZoomEvent::new(Rat::new(1, 2), points[i]).unwrap();
            evs.push(ev);
            i = i + 1;
        }
        self.center_state = CenterState::Centered;
        evs
    }
}

/// An axis-aligned world rectangle, as its two projected corners.
#[derive(Clone, Copy, Debug, PartialEq, Eq, Structural)]
pub struct Rect {
    pub top_left: Coord,
    pub bottom_right: Coord,
}

/// The part of the window not covered by surrounding panels, given as the
/// window size and the pixel offset of each edge.
#[derive(Clone, Copy, Debug, PartialEq, Eq, Structural)]
pub struct MyArea {
    pub window: Size,
    pub left_offset_px: Rat,
    pub top_offset_px: Rat,
    pub right_offset_px: Rat,
    pub bottom_offset_px: Rat,
}

impl MyArea {
    /// The window size and all edge offsets are representable.
    pub open spec fn wf(self) -> bool {
        &&& self.window.wf()
        &&& self.left_offset_px.wf()
        &&& self.top_offset_px.wf()
        &&& self.right_offset_px.wf()
        &&& self.bottom_offset_px.wf()
    }

    /// The area's top-left corner in screen pixels.
    pub fn top_left_screen_coord(&self) -> (r: Coord)
        requires
            self.wf(),
        ensures
            r.wf(),
            r.x == self.left_offset_px,
            r.y == self.top_offset_px,
    {
        Coord { x: self.left_offset_px, y: self.top_offset_px }
    }

    /// The area's bottom-right corner in screen pixels; `None` when the
    /// exact difference is unrepresentable.
    pub fn bottom_right_screen_coord(&self) -> (r: Option<Coord>)
        requires
            self.wf(),
        ensures
            r is Some <==> fits(fsub(self.window.width@, self.right_offset_px@)) && fits(
                fsub(self.window.height@, self.bottom_offset_px@),
            ),
            r is Some ==> r->0.wf() && r->0.x@ == fsub(self.window.width@, self.right_offset_px@)
                && r->0.y@ == fsub(self.window.height@, self.bottom_offset_px@),
    {
        let x = match self.window.width.sub(self.right_offset_px) {
            Some(v) => v,
            None => {
                return None;
            },
        };
        let y = match self.window.height.sub(self.bottom_offset_px) {
            Some(v) => v,
            None => {
                return None;
            },
        };
        Some(Coord { x, y })
    }

    /// The area's top-left corner in world coordinates under the given
    /// viewport.
    pub fn top_left_projected_geo_coord(&self, vp: &Viewport) -> (r: Option<Coord>)
        requires
            self.wf(),
            vp.wf(),
        ensures
            r is Some <==> screen_to_world_fits(
                *vp,
                Coord { x: self.left_offset_px, y: self.top_offset_px },
            ),
            r is Some ==> r->0.wf() && r->0.x@ == screen_to_world_axis(
                self.left_offset_px@,
                vp.window.width@,
                vp.transform.scale.0@,
                vp.transform.offset.x@,
            ) && r->0.y@ == screen_to_world_axis(
                self.top_offset_px@,
                vp.window.height@,
                vp.transform.scale.0@,
                vp.transform.offset.y@,
            ),
    {
        vp.screen_to_world(self.top_left_screen_coord())
    }

    /// The world rectangle currently visible in the area under the given
    /// viewport: both corners converted to world coordinates.
    pub fn projected_geo_rect(&self, vp: &Viewport) -> (r: Option<Rect>)
        requires
            self.wf(),
            vp.wf(),
        ensures
            r is Some <==> {
                &&& screen_to_world_fits(
                    *vp,
                    Coord { x: self.left_offset_px, y: self.top_offset_px },
                )
                &&& fits(fsub(self.window.width@, self.right_offset_px@))
                &&& fits(fsub(self.window.height@, self.bottom_offset_px@))
                &&& screen_to_world_axis_fits(
                    fsub(self.window.width@, self.right_offset_px@),
                    vp.window.width@,
                    vp.transform.scale.0@,
                    vp.transform.offset.x@,
                )
                &&& screen_to_world_axis_fits(
                    fsub(self.window.height@, self.bottom_offset_px@),
                    vp.window.height@,
                    vp.transform.scale.0@,
                    vp.transform.offset.y@,
                )
            },
            r is Some ==> r->0.top_left.wf() && r->0.bottom_right.wf() && r->0.top_left.x@
                == screen_to_world_axis(
                self.left_offset_px@,
                vp.window.width@,
                vp.transform.scale.0@,
                vp.transform.offset.x@,
            ) && r->0.top_left.y@ == screen_to_world_axis(
                self.top_offset_px@,
                vp.window.height@,
                vp.transform.scale.0@,
                vp.transform.offset.y@,
            ) && r->0.bottom_right.x@ == screen_to_world_axis(
                fsub(self.window.width@, self.right_offset_px@),
                vp.window.width@,
                vp.transform.scale.0@,
                vp.transform.offset.x@,
            ) && r->0.bottom_right.y@ == screen_to_world_axis(
                fsub(self.window.height@, self.bottom_offset_px@),
                vp.window.height@,
                vp.transform.scale.0@,
                vp.transform.offset.y@,
            ),
    {
        let tl = match self.top_left_projected_geo_coord(vp) {
            Some(v) => v,
            None => {
                return None;
            },
        };
        let brs = match self.bottom_right_screen_coord() {
            Some(v) => v,
            None => {
                return None;
            },
        };
        let br = match vp.screen_to_world(brs) {
            Some(v) => v,
            None => {
                return None;
            },
        };
        Some(Rect { top_left: tl, bottom_right: br })
    }

    /// The area's width: the window width less both horizontal offsets.
    pub fn width(&self) -> (r: Option<crate::gis_camera::Length>)
        requires
            self.wf(),
        ensures
            r is Some <==> fits(fsub(self.window.width@, self.left_offset_px@)) && fits(
                fsub(fsub(self.window.width@, self.left_offset_px@), self.right_offset_px@),
            ),
            r is Some ==> (r->0).0.wf() && (r->0).0@ == fsub(
                fsub(self.window.width@, self.left_offset_px@),
                self.right_offset_px@,
            ),
    {
        let a = match self.window.width.sub(self.left_offset_px) {
            Some(v) => v,
            None => {
                return None;
            },
        };
        match a.sub(self.right_offset_px) {
            Some(v) => Some(crate::gis_camera::Length(v)),
            None => None,
        }
    }

    /// The area's height: the window height less both vertical offsets.
    pub fn height(&self) -> (r: Option<crate::gis_camera::Length>)
        requires
            self.wf(),
        ensures
            r is Some <==> fits(fsub(self.window.height@, self.top_offset_px@)) && fits(
                fsub(fsub(self.window.height@, self.top_offset_px@), self.bottom_offset_px@),
            ),
            r is Some ==> (r->0).0.wf() && (r->0).0@ == fsub(
                fsub(self.window.height@, self.top_offset_px@),
                self.bottom_offset_px@,
            ),
    {
        let a = match self.window.height.sub(self.top_offset_px) {
            Some(v) => v,
            None => {
                return None;
            },
        };
        match a.sub(self.bottom_offset_px) {
            Some(v) => Some(crate::gis_camera::Length(v)),
            None => None,
        }
    }

    /// The area's size; `None` when a dimension is unrepresentable or not
    /// positive.
    pub fn size(&self) -> (r: Option<Size>)
        requires
            self.wf(),
        ensures
            r is Some <==> {
                &&& fits(fsub(self.window.width@, self.left_offset_px@))
                &&& fits(
                    fsub(fsub(self.window.width@, self.left_offset_px@), self.right_offset_px@),
                )
                &&& fits(fsub(self.window.height@, self.top_offset_px@))
                &&& fits(
                    fsub(fsub(self.window.height@, self.top_offset_px@), self.bottom_offset_px@),
                )
                &&& fsub(
                    fsub(self.window.width@, self.left_offset_px@),
                    self.right_offset_px@,
                ).n >= 1
                &&& fsub(
                    fsub(self.window.height@, self.top_offset_px@),
                    self.bottom_offset_px@,
                ).n >= 1
            },
            r is Some ==> r->0.wf() && r->0.width@ == fsub(
                fsub(self.window.width@, self.left_offset_px@),
                self.right_offset_px@,
            ) && r->0.height@ == fsub(
                fsub(self.window.height@, self.top_offset_px@),
                self.bottom_offset_px@,
            ),
    {
        let w = match self.width() {
            Some(v) => v,
            None => {
                return None;
            },
        };
        let h = match self.height() {
            Some(v) => v,
            None => {
                return None;
            },
        };
        if w.0.num >= 1 && h.0.num >= 1 {
            Some(crate::gis_camera::Size::from_width_height(w, h))
        } else {
            None
        }
    }
}

/// The scale that fits a window of the given dimensions to `size`:
/// `max(width_ratio, height_ratio)`.  `None` when a ratio is
/// unrepresentable.
pub fn determine_scale(win_width: Rat, win_height: Rat, size: Size) -> (r: Option<Rat>)
    requires
        win_width.wf(),
        win_height.wf(),
        win_width@.n >= 1,
        win_height@.n >= 1,
        size.wf(),
    ensures
        r is Some <==> fit_scale_fits(
            Size { width: win_width, height: win_height },
            size,
        ),
        r is Some ==> r->0.wf() && r->0@.n >= 1 && r->0@ == fit_scale(
            Size { width: win_width, height: win_height },
            size,
        ),
{
    proof {
        lemma_pos_mul(win_width@.d, size.width@.n);
        lemma_pos_mul(win_width@.n, size.width@.d);
        lemma_pos_mul(win_height@.d, size.height@.n);
        lemma_pos_mul(win_height@.n, size.height@.d);
    }
    let rw = match win_width.div(size.width) {
        Some(v) => v,
        None => {
            return None;
        },
    };
    let rh = match win_height.div(size.height) {
        Some(v) => v,
        None => {
            return None;
        },
    };
    if rw.le(rh) {
        Some(rh)
    } else {
        Some(rw)
    }
}

/// Law: converting a world point to its screen pixel and back yields the
/// same world point, exactly, on one axis.
pub proof fn lemma_screen_world_roundtrip_axis(w: Frac, win: Frac, scale: Frac, offset: Frac)
    requires
        w.d >= 1,
        win.d >= 1,
        scale.d >= 1,
        scale.n >= 1,
        offset.d >= 1,
    ensures
        feq(
            screen_to_world_axis(
                world_to_screen_axis(w, win, scale, offset),
                win,
                scale,
                offset,
            ),
            w,
        ),
{
    let h = half_of(win);
    let y = fsub(w, offset);
    let x = fdiv(y, scale);
    let p = world_to_screen_axis(w, win, scale, offset);
    lemma_pos_mul(w.d, offset.d);
    lemma_pos_mul(y.d, scale.n);
    lemma_pos_mul(x.d, scale.d);
    lemma_pos_mul(y.d, offset.d);
    lemma_sub_add_cancel(x, h);
    lemma_feq_mul_congr(fsub(p, h), x, scale);
    lemma_mul_div_cancel(y, scale);
    lemma_feq_trans(fmul(fsub(p, h), scale), fmul(x, scale), y);
    lemma_feq_add_congr(fmul(fsub(p, h), scale), y, offset);
    lemma_add_sub_cancel(w, offset);
    lemma_feq_trans(
        fadd(fmul(fsub(p, h), scale), offset),
        fadd(y, offset),
        w,
    );
}

/// Law: when the anchor coincides with the current offset, a zoom anchored
/// there leaves the anchor's world position under its old screen pixel
/// unchanged, on one axis: converting the anchor to its screen pixel with
/// the old transform and converting that pixel back with the zoomed
/// transform (scale divided by the factor, offset corrected as `apply_zoom`
/// does) yields the anchor again.
pub proof fn lemma_zoom_anchor_fixed_axis(a: Frac, o: Frac, win: Frac, s: Frac, f: Frac)
    requires
        a.d >= 1,
        o.d >= 1,
        win.d >= 1,
        s.d >= 1,
        s.n >= 1,
        f.d >= 1,
        f.n >= 1,
        feq(a, o),
    ensures
        feq(
            screen_to_world_axis(
                world_to_screen_axis(a, win, s, o),
                win,
                fdiv(s, f),
                zoom_corrected(o, a, f),
            ),
            a,
        ),
{
    let h = half_of(win);
    let y = fsub(a, o);
    let x = fdiv(y, s);
    let q = world_to_screen_axis(a, win, s, o);
    let s2 = fdiv(s, f);
    let k = fsub(fone(), f);
    let corr = fmul(y, k);
    let o2 = zoom_corrected(o, a, f);
    let m = fmul(fsub(q, h), s2);
    let w2 = screen_to_world_axis(q, win, s2, o2);

    // the anchor sits at the offset, so every displacement term is zero
    assert(y.n == 0);
    assert(x.n == 0 && fsub(q, h).n == 0 && m.n == 0 && corr.n == 0) by (nonlinear_arith)
        requires
            y.n == 0,
            x.n == y.n * s.d,
            q.n == x.n * h.d + h.n * x.d,
            q.d == x.d * h.d,
            fsub(q, h).n == q.n * h.d - h.n * q.d,
            m.n == fsub(q, h).n * s2.n,
            corr.n == y.n * k.n,
    ;

    // the corrected offset keeps the offset's value, and the converted
    // point has the corrected offset's value
    assert(feq(o2, o) && feq(w2, o2)) by (nonlinear_arith)
        requires
            corr.n == 0,
            m.n == 0,
            o2.n == o.n * corr.d - corr.n * o.d,
            o2.d == o.d * corr.d,
            w2.n == m.n * o2.d + o2.n * m.d,
            w2.d == m.d * o2.d,
            feq(o2, o) == (o2.n * o.d == o.n * o2.d),
            feq(w2, o2) == (w2.n * o2.d == o2.n * w2.d),
    ;

    lemma_pos_mul(a.d, o.d);
    lemma_pos_mul(y.d, k.d);
    lemma_pos_mul(o.d, corr.d);
    lemma_feq_trans(w2, o2, o);
    assert(feq(o, a));
    lemma_feq_trans(w2, o, a);
}

/// Law, viewport form: a cursor-anchored zoom whose anchor lies at the
/// viewport's offset keeps that anchor visually stationary.  The quotients
/// and corrected offsets below are exactly the values `apply_zoom` stores
/// and the two conversions return, per their contracts.
pub proof fn lemma_zoom_anchor_fixed(vp: Viewport, anchor: Coord, factor: Rat)
    requires
        vp.wf(),
        anchor.wf(),
        factor.wf(),
        factor@.n >= 1,
        feq(anchor.x@, vp.transform.offset.x@),
        feq(anchor.y@, vp.transform.offset.y@),
    ensures
        feq(
            screen_to_world_axis(
                world_to_screen_axis(
                    anchor.x@,
                    vp.window.width@,
                    vp.transform.scale.0@,
                    vp.transform.offset.x@,
                ),
                vp.window.width@,
                fdiv(vp.transform.scale.0@, factor@),
                zoom_corrected(vp.transform.offset.x@, anchor.x@, factor@),
            ),
            anchor.x@,
        ),
        feq(
            screen_to_world_axis(
                world_to_screen_axis(
                    anchor.y@,
                    vp.window.height@,
                    vp.transform.scale.0@,
                    vp.transform.offset.y@,
                ),
                vp.window.height@,
                fdiv(vp.transform.scale.0@, factor@),
                zoom_corrected(vp.transform.offset.y@, anchor.y@, factor@),
            ),
            anchor.y@,
        ),
{
    lemma_zoom_anchor_fixed_axis(
        anchor.x@,
        vp.transform.offset.x@,
        vp.window.width@,
        vp.transform.scale.0@,
        factor@,
    );
    lemma_zoom_anchor_fixed_axis(
        anchor.y@,
        vp.transform.offset.y@,
        vp.window.height@,
        vp.transform.scale.0@,
        factor@,
    );
}

/// Law: for every valid viewport state and world point, screen_to_world
/// after world_to_screen is the identity on both axes — the values the two
/// conversions return (see their contracts) compose to the original point.
pub proof fn lemma_screen_world_roundtrip(vp: Viewport, w: Coord)
    requires
        vp.wf(),
        w.wf(),
    ensures
        feq(
            screen_to_world_axis(
                world_to_screen_axis(
                    w.x@,
                    vp.window.width@,
                    vp.transform.scale.0@,
                    vp.transform.offset.x@,
                ),
                vp.window.width@,
                vp.transform.scale.0@,
                vp.transform.offset.x@,
            ),
            w.x@,
        ),
        feq(
            screen_to_world_axis(
                world_to_screen_axis(
                    w.y@,
                    vp.window.height@,
                    vp.transform.scale.0@,
                    vp.transform.offset.y@,
                ),
                vp.window.height@,
                vp.transform.scale.0@,
                vp.transform.offset.y@,
            ),
            w.y@,
        ),
{
    lemma_screen_world_roundtrip_axis(
        w.x@,
        vp.window.width@,
        vp.transform.scale.0@,
        vp.transform.offset.x@,
    );
    lemma_screen_world_roundtrip_axis(
        w.y@,
        vp.window.height@,
        vp.transform.scale.0@,
        vp.transform.offset.y@,
    );
}

} // verus!
