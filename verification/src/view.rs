//! Pan/zoom view state and the screen/world coordinate mapping.
//!
//! The view owns a pan offset and a strictly positive zoom, all exact
//! rationals. Panning moves by `amount / zoom`, so panning speed is visually
//! constant at every zoom level; zooming multiplies by the fixed factor
//! `6/5`. Every operation is total: one whose exact result does not fit the
//! word-sized representation leaves the state unchanged and reports so.

use vstd::prelude::*;
use crate::rat::{Rat, RatModel, rm_wf, rm_eq, rm_add, rm_sub, rm_mul, rm_div, rm_int, fits_i64,
    lemma_pos_product, lemma_rm_div_mul_cancel, lemma_rm_add_congruence, lemma_rm_add_sub_cancel,
    lemma_rm_eq_trans};

verus! {

/// The fixed zoom-in factor, `6/5`.
pub open spec fn zoom_factor() -> RatModel {
    RatModel { n: 6, d: 5 }
}

/// The zoom-out factor, the inverse `5/6`.
pub open spec fn zoom_factor_inv() -> RatModel {
    RatModel { n: 5, d: 6 }
}

/// World point reached from `p` by a screen offset `d` under zoom `z`:
/// `p + d / z`.
pub open spec fn rm_offset(p: RatModel, d: int, z: RatModel) -> RatModel {
    rm_add(p, rm_div(rm_int(d), z))
}

/// Same as `rm_offset` for a rational offset `s`.
pub open spec fn rm_offset_r(p: RatModel, s: RatModel, z: RatModel) -> RatModel {
    rm_add(p, rm_div(s, z))
}

/// Screen coordinate of world coordinate `w`: `(w - p) * z`.
pub open spec fn screen_of_world(w: RatModel, p: RatModel, z: RatModel) -> RatModel {
    rm_mul(rm_sub(w, p), z)
}

/// Whether the exact offset computation stays within the representation.
pub open spec fn offset_fits(p: RatModel, d: int, z: RatModel) -> bool {
    &&& fits_i64(rm_div(rm_int(d), z).n)
    &&& fits_i64(rm_div(rm_int(d), z).d)
    &&& fits_i64(rm_offset(p, d, z).n)
    &&& fits_i64(rm_offset(p, d, z).d)
}

/// Whether the exact offset computation for a rational offset stays
/// within the representation.
pub open spec fn offset_r_fits(p: RatModel, s: RatModel, z: RatModel) -> bool {
    &&& fits_i64(rm_div(s, z).n)
    &&& fits_i64(rm_div(s, z).d)
    &&& fits_i64(rm_offset_r(p, s, z).n)
    &&& fits_i64(rm_offset_r(p, s, z).d)
}

/// Whether the exact screen-of-world computation stays representable.
pub open spec fn screen_fits(w: RatModel, p: RatModel, z: RatModel) -> bool {
    &&& fits_i64(rm_sub(w, p).n)
    &&& fits_i64(rm_sub(w, p).d)
    &&& fits_i64(screen_of_world(w, p, z).n)
    &&& fits_i64(screen_of_world(w, p, z).d)
}

/// A point with exact rational coordinates, in world or screen space.
#[derive(Clone, Copy, Debug, PartialEq, Eq, Structural)]
pub struct RatPoint {
    pub x: Rat,
    pub y: Rat,
}

/// The visible world-space window: `[x_min, x_max] x [y_min, y_max]`.
#[derive(Clone, Copy, Debug, PartialEq, Eq, Structural)]
pub struct WorldBounds {
    pub x_min: Rat,
    pub x_max: Rat,
    pub y_min: Rat,
    pub y_max: Rat,
}

/// Pan offset and zoom of the interactive view.
#[derive(Clone, Copy, Debug, PartialEq, Eq, Structural)]
pub struct ViewState {
    pub pan_x: Rat,
    pub pan_y: Rat,
    pub zoom: Rat,
}

/// Relation between a view state and its successor under a pan by
/// `(dx, dy)`: the zoom is untouched; if the exact new pan fits, both pan
/// components move by `amount / zoom`, otherwise nothing changes.
pub open spec fn pan_step(pre: ViewState, post: ViewState, dx: int, dy: int) -> bool {
    &&& post.zoom == pre.zoom
    &&& if offset_fits(pre.pan_x@, dx, pre.zoom@) && offset_fits(pre.pan_y@, dy, pre.zoom@) {
            &&& post.pan_x.wf()
            &&& post.pan_y.wf()
            &&& rm_eq(post.pan_x@, rm_offset(pre.pan_x@, dx, pre.zoom@))
            &&& rm_eq(post.pan_y@, rm_offset(pre.pan_y@, dy, pre.zoom@))
        } else {
            post == pre
        }
}

/// Relation between a view state and its successor under a zoom by the
/// exact factor `f` (the pan is untouched; overflow leaves zoom unchanged).
pub open spec fn zoom_step(pre: ViewState, post: ViewState, f: RatModel) -> bool {
    &&& post.pan_x == pre.pan_x
    &&& post.pan_y == pre.pan_y
    &&& if fits_i64(rm_mul(pre.zoom@, f).n) && fits_i64(rm_mul(pre.zoom@, f).d) {
            post.zoom@ == rm_mul(pre.zoom@, f)
        } else {
            post.zoom == pre.zoom
        }
}

impl Default for ViewState {
    /// The startup view: pan at the origin, zoom `1`.
    fn default() -> (v: Self)
        ensures
            v.wf(),
            v.pan_x@ == rm_int(0),
            v.pan_y@ == rm_int(0),
            v.zoom@ == rm_int(1),
    {
        ViewState::new()
    }
}

impl ViewState {
    /// Well formed: components representable and zoom strictly positive.
    pub open spec fn wf(self) -> bool {
        &&& self.pan_x.wf()
        &&& self.pan_y.wf()
        &&& self.zoom.wf()
        &&& self.zoom@.n > 0
    }

    /// The startup view: pan at the origin, zoom `1`.
    pub fn new() -> (v: ViewState)
        ensures
            v.wf(),
            v.pan_x@ == rm_int(0),
            v.pan_y@ == rm_int(0),
            v.zoom@ == rm_int(1),
    {
        ViewState { pan_x: Rat::from_int(0), pan_y: Rat::from_int(0), zoom: Rat::from_int(1) }
    }

    /// Moves the pan offset by `(dx, dy) / zoom`. Reports whether the exact
    /// result was representable; if not, the state is unchanged.
    pub fn pan_by(&mut self, dx: i64, dy: i64) -> (applied: bool)
        requires
            old(self).wf(),
        ensures
            final(self).wf(),
            pan_step(*old(self), *final(self), dx as int, dy as int),
            applied <==> offset_fits(old(self).pan_x@, dx as int, old(self).zoom@)
                && offset_fits(old(self).pan_y@, dy as int, old(self).zoom@),
    {
        let ox = Rat::from_int(dx).try_div(self.zoom);
        let oy = Rat::from_int(dy).try_div(self.zoom);
        let (dxr, dyr) = match (ox, oy) {
            (Some(a), Some(b)) => (a, b),
            _ => {
                return false;
            },
        };
        let nx = match self.pan_x.try_add(dxr) {
            Some(a) => a,
            None => {
                return false;
            },
        };
        let ny = match self.pan_y.try_add(dyr) {
            Some(b) => b,
            None => {
                return false;
            },
        };
        self.pan_x = nx.reduce();
        self.pan_y = ny.reduce();
        true
    }

    /// Multiplies the zoom by `6/5`. The zoom stays strictly positive; on
    /// overflow of the exact result the state is unchanged.
    pub fn zoom_in(&mut self) -> (applied: bool)
        requires
            old(self).wf(),
        ensures
            final(self).wf(),
            final(self).zoom@.n > 0,
            zoom_step(*old(self), *final(self), zoom_factor()),
            applied <==> fits_i64(rm_mul(old(self).zoom@, zoom_factor()).n)
                && fits_i64(rm_mul(old(self).zoom@, zoom_factor()).d),
    {
        proof {
            lemma_pos_product(self.zoom@.n, 6);
        }
        match self.zoom.try_mul(Rat { num: 6, den: 5 }) {
            Some(z) => {
                self.zoom = z;
                true
            },
            None => false,
        }
    }

    /// Multiplies the zoom by `5/6` (divides by the zoom factor). The zoom
    /// stays strictly positive: it can shrink but never reach zero.
    pub fn zoom_out(&mut self) -> (applied: bool)
        requires
            old(self).wf(),
        ensures
            final(self).wf(),
            final(self).zoom@.n > 0,
            zoom_step(*old(self), *final(self), zoom_factor_inv()),
            applied <==> fits_i64(rm_mul(old(self).zoom@, zoom_factor_inv()).n)
                && fits_i64(rm_mul(old(self).zoom@, zoom_factor_inv()).d),
    {
        proof {
            lemma_pos_product(self.zoom@.n, 5);
        }
        match self.zoom.try_mul(Rat { num: 5, den: 6 }) {
            Some(z) => {
                self.zoom = z;
                true
            },
            None => false,
        }
    }

    /// Maps a screen pixel to world coordinates: `pan + screen / zoom`.
    pub fn to_world(&self, sx: i64, sy: i64) -> (r: Option<RatPoint>)
        requires
            self.wf(),
        ensures
            r is Some <==> offset_fits(self.pan_x@, sx as int, self.zoom@)
                && offset_fits(self.pan_y@, sy as int, self.zoom@),
            r is Some ==> {
                &&& (r->0).x.wf()
                &&& (r->0).y.wf()
                &&& (r->0).x@ == rm_offset(self.pan_x@, sx as int, self.zoom@)
                &&& (r->0).y@ == rm_offset(self.pan_y@, sy as int, self.zoom@)
            },
    {
        let ox = match Rat::from_int(sx).try_div(self.zoom) {
            Some(a) => a,
            None => {
                return None;
            },
        };
        let oy = match Rat::from_int(sy).try_div(self.zoom) {
            Some(a) => a,
            None => {
                return None;
            },
        };
        match (self.pan_x.try_add(ox), self.pan_y.try_add(oy)) {
            (Some(wx), Some(wy)) => Some(RatPoint { x: wx, y: wy }),
            _ => None,
        }
    }

    /// Maps a screen point with rational coordinates to world coordinates:
    /// `pan + s / zoom`, the same mapping as `to_world` on the whole
    /// screen plane.
    pub fn to_world_rational(&self, s: &RatPoint) -> (r: Option<RatPoint>)
        requires
            self.wf(),
            s.x.wf(),
            s.y.wf(),
        ensures
            r is Some <==> offset_r_fits(self.pan_x@, s.x@, self.zoom@) && offset_r_fits(
                self.pan_y@,
                s.y@,
                self.zoom@,
            ),
            r is Some ==> {
                &&& (r->0).x.wf()
                &&& (r->0).y.wf()
                &&& (r->0).x@ == rm_offset_r(self.pan_x@, s.x@, self.zoom@)
                &&& (r->0).y@ == rm_offset_r(self.pan_y@, s.y@, self.zoom@)
            },
    {
        let ox = match s.x.try_div(self.zoom) {
            Some(a) => a,
            None => {
                return None;
            },
        };
        let oy = match s.y.try_div(self.zoom) {
            Some(a) => a,
            None => {
                return None;
            },
        };
        match (self.pan_x.try_add(ox), self.pan_y.try_add(oy)) {
            (Some(wx), Some(wy)) => Some(RatPoint { x: wx, y: wy }),
            _ => None,
        }
    }

    /// Maps a world point back to screen coordinates: `(w - pan) * zoom`.
    pub fn screen_from_world(&self, w: &RatPoint) -> (r: Option<RatPoint>)
        requires
            self.wf(),
            w.x.wf(),
            w.y.wf(),
        ensures
            r is Some <==> screen_fits(w.x@, self.pan_x@, self.zoom@)
                && screen_fits(w.y@, self.pan_y@, self.zoom@),
            r is Some ==> {
                &&& (r->0).x.wf()
                &&& (r->0).y.wf()
                &&& (r->0).x@ == screen_of_world(w.x@, self.pan_x@, self.zoom@)
                &&& (r->0).y@ == screen_of_world(w.y@, self.pan_y@, self.zoom@)
            },
    {
        let rx = match w.x.try_sub(self.pan_x) {
            Some(a) => a,
            None => {
                return None;
            },
        };
        let ry = match w.y.try_sub(self.pan_y) {
            Some(a) => a,
            None => {
                return None;
            },
        };
        match (rx.try_mul(self.zoom), ry.try_mul(self.zoom)) {
            (Some(sx), Some(sy)) => Some(RatPoint { x: sx, y: sy }),
            _ => None,
        }
    }

    /// The visible world window for a viewport of `vw` by `vh` cells:
    /// `(pan, pan + viewport / zoom)`.
    pub fn world_bounds(&self, vw: u16, vh: u16) -> (r: Option<WorldBounds>)
        requires
            self.wf(),
        ensures
            r is Some <==> offset_fits(self.pan_x@, vw as int, self.zoom@)
                && offset_fits(self.pan_y@, vh as int, self.zoom@),
            r is Some ==> {
                &&& (r->0).x_min == self.pan_x
                &&& (r->0).y_min == self.pan_y
                &&& (r->0).x_max.wf()
                &&& (r->0).y_max.wf()
                &&& (r->0).x_max@ == rm_offset(self.pan_x@, vw as int, self.zoom@)
                &&& (r->0).y_max@ == rm_offset(self.pan_y@, vh as int, self.zoom@)
            },
    {
        match self.to_world(vw as i64, vh as i64) {
            Some(p) => Some(WorldBounds {
                x_min: self.pan_x,
                y_min: self.pan_y,
                x_max: p.x,
                y_max: p.y,
            }),
            None => None,
        }
    }
}

/// Law: zooming in and then out by the same factor denotes the original
/// zoom value, exactly.
pub proof fn lemma_zoom_round_trip(z: RatModel)
    by (nonlinear_arith)
    requires
        rm_wf(z),
        z.n > 0,
    ensures
        rm_eq(rm_mul(rm_mul(z, zoom_factor()), zoom_factor_inv()), z),
{
}

/// Law, at the level of the state-machine steps: when a zoom-in applies
/// and the zoom-out after it applies too, the zoom denotes its original
/// value again. The premises only rule out the word-size overflows on
/// which either step leaves the state untouched.
pub proof fn lemma_zoom_step_round_trip(v0: ViewState, v1: ViewState, v2: ViewState)
    requires
        v0.wf(),
        zoom_step(v0, v1, zoom_factor()),
        zoom_step(v1, v2, zoom_factor_inv()),
        fits_i64(rm_mul(v0.zoom@, zoom_factor()).n),
        fits_i64(rm_mul(v0.zoom@, zoom_factor()).d),
        fits_i64(rm_mul(rm_mul(v0.zoom@, zoom_factor()), zoom_factor_inv()).n),
        fits_i64(rm_mul(rm_mul(v0.zoom@, zoom_factor()), zoom_factor_inv()).d),
    ensures
        rm_eq(v2.zoom@, v0.zoom@),
        v2.pan_x == v0.pan_x,
        v2.pan_y == v0.pan_y,
{
    lemma_zoom_round_trip(v0.zoom@);
}

/// Law: both zoom steps keep the zoom strictly positive and well formed,
/// so no pan/zoom sequence can drive the zoom to zero or below.
pub proof fn lemma_zoom_stays_positive(z: RatModel)
    by (nonlinear_arith)
    requires
        rm_wf(z),
        z.n > 0,
    ensures
        rm_wf(rm_mul(z, zoom_factor())),
        rm_mul(z, zoom_factor()).n > 0,
        rm_wf(rm_mul(z, zoom_factor_inv())),
        rm_mul(z, zoom_factor_inv()).n > 0,
{
}

/// Law: mapping a screen offset into the world and back to the screen is
/// the identity: `((p + s/z) - p) * z` denotes `s`.
pub proof fn lemma_screen_world_round_trip(p: RatModel, z: RatModel, s: int)
    by (nonlinear_arith)
    requires
        rm_wf(p),
        rm_wf(z),
        z.n > 0,
    ensures
        rm_eq(screen_of_world(rm_offset(p, s, z), p, z), rm_int(s)),
{
}

/// Law: mapping a world point to the screen and back into the world is the
/// identity: `p + ((w - p) * z) / z` denotes `w`.
pub proof fn lemma_world_screen_round_trip(p: RatModel, z: RatModel, w: RatModel)
    requires
        rm_wf(p),
        rm_wf(z),
        rm_wf(w),
        z.n > 0,
    ensures
        rm_eq(rm_offset_r(p, screen_of_world(w, p, z), z), w),
{
    let s = screen_of_world(w, p, z);
    let q = rm_div(s, z);
    let diff = rm_sub(w, p);
    lemma_pos_product(w.d, p.d);
    lemma_pos_product(diff.d, z.d);
    lemma_pos_product(s.d, z.n);
    lemma_rm_div_mul_cancel(diff, z);
    lemma_rm_add_congruence(p, q, diff);
    lemma_rm_add_sub_cancel(p, w);
    lemma_pos_product(p.d, q.d);
    lemma_pos_product(p.d, diff.d);
    lemma_rm_eq_trans(rm_add(p, q), rm_add(p, diff), w);
}

} // verus!
