//! The camera transform: a world-space offset plus a uniform scale.
//!
//! `Transform2D` pairs an `Offset` (the world coordinate at the viewport's
//! centre) with a `Scale` (world units per screen pixel).  Panning adds a
//! pixel delta times the current scale to the offset; zooming divides the
//! scale by a positive factor.  Any operation whose exact result cannot be
//! represented — the rational analogue of a non-finite float — is discarded
//! as a whole and the previous valid state is kept, so the scale is always a
//! positive representable number.

use vstd::prelude::*;

use crate::rat::{
    fadd, fdiv, feq, fits, fmul, fnorm, lemma_feq_div_arg_congr, lemma_feq_trans,
    lemma_mul_nonzero, lemma_pos_mul, Frac, Rat,
};

verus! {

/// A point, in screen-pixel or world space depending on context.
#[derive(Clone, Copy, Debug, PartialEq, Eq, Structural)]
pub struct Coord {
    pub x: Rat,
    pub y: Rat,
}

impl Coord {
    /// Both components are representable.
    pub open spec fn wf(self) -> bool {
        self.x.wf() && self.y.wf()
    }
}

/// A one-dimensional extent in pixels.
#[derive(Clone, Copy, Debug, PartialEq, Eq, Structural)]
pub struct Length(pub Rat);

/// A width and height in pixels.
#[derive(Clone, Copy, Debug, PartialEq, Eq, Structural)]
pub struct Size {
    pub width: Rat,
    pub height: Rat,
}

impl Size {
    /// Both dimensions are representable and strictly positive.
    pub open spec fn wf(self) -> bool {
        &&& self.width.wf()
        &&& self.height.wf()
        &&& self.width@.n >= 1
        &&& self.height@.n >= 1
    }

    /// Builds a size from a width and a height.
    pub fn from_width_height(width: Length, height: Length) -> (r: Size)
        requires
            width.0.wf(),
            height.0.wf(),
            width.0@.n >= 1,
            height.0@.n >= 1,
        ensures
            r.wf(),
            r == (Size { width: width.0, height: height.0 }),
    {
        Size { width: width.0, height: height.0 }
    }
}

/// The world coordinate that sits at the viewport's centre.
#[derive(Clone, Copy, Debug, PartialEq, Eq, Structural)]
pub struct Offset {
    pub x: Rat,
    pub y: Rat,
}

/// The exact result of one pan step on one axis: the offset moves by the
/// pixel delta scaled into world units.
pub open spec fn pan_step(offset: Frac, amount: Frac, scale: Frac) -> Frac {
    fadd(offset, fmul(amount, scale))
}

/// Whether one pan step can be represented exactly.
pub open spec fn pan_step_fits(offset: Frac, amount: Frac, scale: Frac) -> bool {
    fits(fmul(amount, scale)) && fits(pan_step(offset, amount, scale))
}

impl Offset {
    /// Both components are representable.
    pub open spec fn wf(self) -> bool {
        self.x.wf() && self.y.wf()
    }

    /// The origin offset.
    pub fn origin() -> (r: Offset)
        ensures
            r.wf(),
            r.x@ == (Frac { n: 0, d: 1 }),
            r.y@ == (Frac { n: 0, d: 1 }),
    {
        Offset { x: Rat::from_int(0), y: Rat::from_int(0) }
    }

    /// Takes a point as an offset: the world coordinate the viewport centres
    /// on.
    pub fn from_coord(coord: Coord) -> (r: Offset)
        requires
            coord.wf(),
        ensures
            r.wf(),
            r.x == coord.x,
            r.y == coord.y,
    {
        Offset { x: coord.x, y: coord.y }
    }

    /// Moves the x component by `amount` pixels at the given scale; keeps the
    /// previous value when the exact result is not representable.
    pub fn pan_x(&mut self, amount: Rat, scale: Scale)
        requires
            old(self).wf(),
            amount.wf(),
            scale.0.wf(),
        ensures
            final(self).wf(),
            final(self).y == old(self).y,
            pan_step_fits(old(self).x@, amount@, scale.0@) ==> final(self).x@ == pan_step(
                old(self).x@,
                amount@,
                scale.0@,
            ),
            !pan_step_fits(old(self).x@, amount@, scale.0@) ==> final(self).x == old(self).x,
    {
        if let Some(d) = amount.mul(scale.0) {
            if let Some(x) = self.x.add(d) {
                self.x = x;
            }
        }
    }

    /// Moves the y component by `amount` pixels at the given scale; keeps the
    /// previous value when the exact result is not representable.
    pub fn pan_y(&mut self, amount: Rat, scale: Scale)
        requires
            old(self).wf(),
            amount.wf(),
            scale.0.wf(),
        ensures
            final(self).wf(),
            final(self).x == old(self).x,
            pan_step_fits(old(self).y@, amount@, scale.0@) ==> final(self).y@ == pan_step(
                old(self).y@,
                amount@,
                scale.0@,
            ),
            !pan_step_fits(old(self).y@, amount@, scale.0@) ==> final(self).y == old(self).y,
    {
        if let Some(d) = amount.mul(scale.0) {
            if let Some(y) = self.y.add(d) {
                self.y = y;
            }
        }
    }
}

/// The uniform zoom factor of the camera, in world units per pixel.
#[derive(Clone, Copy, Debug, PartialEq, Eq, Structural)]
pub struct Scale(pub Rat);

/// Whether a zoom by `factor` applies to the scale `s`: the factor must be
/// strictly positive and the exact quotient must be representable.
pub open spec fn zoom_applies(s: Frac, factor: Frac) -> bool {
    factor.n >= 1 && fits(fdiv(s, factor))
}

impl Scale {
    /// The scale is representable and strictly positive.
    pub open spec fn wf(self) -> bool {
        self.0.wf() && self.0@.n >= 1
    }

    /// Divides the scale by `factor`.  A factor that is not strictly
    /// positive, or a quotient that is not representable, leaves the scale
    /// unchanged, so the scale never becomes zero or negative.
    pub fn zoom(&mut self, factor: Rat)
        requires
            old(self).wf(),
            factor.wf(),
        ensures
            final(self).wf(),
            zoom_applies(old(self).0@, factor@) ==> final(self).0@ == fdiv(old(self).0@, factor@),
            !zoom_applies(old(self).0@, factor@) ==> *final(self) == *old(self),
    {
        if factor.num >= 1 {
            proof {
                lemma_pos_mul(self.0@.d, factor@.n);
                lemma_pos_mul(self.0@.n, factor@.d);
            }
            if let Some(s) = self.0.div(factor) {
                self.0 = s;
            }
        }
    }
}

/// The full camera mapping: offset plus uniform scale.
#[derive(Clone, Copy, Debug, PartialEq, Eq, Structural)]
pub struct Transform2D {
    pub offset: Offset,
    pub scale: Scale,
}

/// Whether a whole pan (both axes) can be represented exactly.
pub open spec fn pan_fits(t: Transform2D, dx: Frac, dy: Frac) -> bool {
    &&& pan_step_fits(t.offset.x@, dx, t.scale.0@)
    &&& pan_step_fits(t.offset.y@, dy, t.scale.0@)
}

impl Transform2D {
    /// The offset is representable and the scale positive.
    pub open spec fn wf(self) -> bool {
        self.offset.wf() && self.scale.wf()
    }

    /// The identity mapping: offset at the origin, scale one.
    pub fn identity() -> (r: Transform2D)
        ensures
            r.wf(),
            r.offset.x@ == (Frac { n: 0, d: 1 }),
            r.offset.y@ == (Frac { n: 0, d: 1 }),
            r.scale.0@ == (Frac { n: 1, d: 1 }),
    {
        Transform2D { offset: Offset::origin(), scale: Scale(Rat::from_int(1)) }
    }

    /// Moves the offset by the pixel delta `(dx, dy)` scaled into world
    /// units.  The update is atomic: if either axis cannot be represented
    /// exactly, the whole pan is discarded.
    pub fn pan(&mut self, dx: Rat, dy: Rat)
        requires
            old(self).wf(),
            dx.wf(),
            dy.wf(),
        ensures
            final(self).wf(),
            final(self).scale == old(self).scale,
            pan_fits(*old(self), dx@, dy@) ==> {
                &&& final(self).offset.x@ == pan_step(old(self).offset.x@, dx@, old(self).scale.0@)
                &&& final(self).offset.y@ == pan_step(old(self).offset.y@, dy@, old(self).scale.0@)
            },
            !pan_fits(*old(self), dx@, dy@) ==> *final(self) == *old(self),
    {
        let mx = dx.mul(self.scale.0);
        let my = dy.mul(self.scale.0);
        if let (Some(mx), Some(my)) = (mx, my) {
            let nx = self.offset.x.add(mx);
            let ny = self.offset.y.add(my);
            if let (Some(nx), Some(ny)) = (nx, ny) {
                self.offset.x = nx;
                self.offset.y = ny;
            }
        }
    }

    /// Divides the scale by `factor`, leaving the offset alone; discarded as
    /// a whole when the factor is not positive or the result not
    /// representable.
    pub fn zoom(&mut self, factor: Rat)
        requires
            old(self).wf(),
            factor.wf(),
        ensures
            final(self).wf(),
            final(self).offset == old(self).offset,
            zoom_applies(old(self).scale.0@, factor@) ==> final(self).scale.0@ == fdiv(
                old(self).scale.0@,
                factor@,
            ),
            !zoom_applies(old(self).scale.0@, factor@) ==> *final(self) == *old(self),
    {
        self.scale.zoom(factor);
    }
}

/// Assigns offset and scale together, so no caller ever observes a half
/// applied pair.
pub fn set_camera_transform(transform: &mut Transform2D, offset: Offset, scale: Scale)
    requires
        offset.wf(),
        scale.wf(),
    ensures
        *final(transform) == (Transform2D { offset, scale }),
        final(transform).wf(),
{
    transform.offset = offset;
    transform.scale = scale;
}

/// Law: zooming by a positive factor and then by its reciprocal restores the
/// original scale value exactly.  `g` is any representation of the
/// reciprocal of `f`, and the two quotients are the exact scale values that
/// `Scale::zoom` produces when both steps apply.
pub proof fn lemma_zoom_then_inverse_restores(s: Frac, f: Frac, g: Frac)
    requires
        s.d >= 1,
        f.d >= 1,
        f.n >= 1,
        feq(g, Frac { n: f.d, d: f.n }),
    ensures
        feq(fdiv(fdiv(s, f), g), s),
{
    let s1 = fdiv(s, f);
    let h = Frac { n: f.d, d: f.n };
    lemma_feq_div_arg_congr(s1, g, h);
    assert(((s.n * f.d) * f.n) * s.d == s.n * ((s.d * f.n) * f.d)) by (nonlinear_arith);
    assert(feq(fdiv(s1, h), s));
    assert((s.d * f.n) * f.d >= 1) by (nonlinear_arith)
        requires
            s.d >= 1,
            f.d >= 1,
            f.n >= 1,
    ;
    lemma_feq_trans(fdiv(s1, g), fdiv(s1, h), s);
}

} // verus!
