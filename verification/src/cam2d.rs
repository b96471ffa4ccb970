//! The 2D orthographic camera.
//!
//! The camera owns a projection built from its aspect ratio and zoom, a view
//! matrix that is the inverse of a pure translation to its position, and
//! their product. After every mutation `view_projection` equals
//! `projection * view`, recomputed from the parts; zoom never drops below
//! `ZOOM_MIN`. All angles and scalars are fixed point, as everywhere in this
//! crate.

use vstd::prelude::*;

use crate::fixed::clamp_s;
use crate::fixed::clamp_i64;
use crate::fixed::div_t;
use crate::fixed::fx_mul;
use crate::fixed::fx_mul_s;
use crate::fixed::fx_div_s;
use crate::fixed::lemma_abs_product_bound;
use crate::fixed::lemma_div_t_bound;
use crate::fixed::lemma_div_t_zero;
use crate::fixed::lemma_fx_mul_bound;
use crate::fixed::FX_ONE;
use crate::fixed::FX_OP_MAX;
use crate::mat4::is_identity;
use crate::mat4::is_mul_of;
use crate::mat4::is_ortho;
use crate::mat4::is_translation;
use crate::mat4::lemma_mul_identity_right;
use crate::mat4::Mat4;
use crate::mat4::Vec2;

verus! {

/// The smallest zoom the camera ever holds; zooming clamps here, so the
/// projection box never degenerates or inverts.
pub const ZOOM_MIN: i64 = 50 * FX_ONE;

/// The largest zoom the camera ever holds; the fixed-width analogue of
/// "no non-finite values" for an unbounded zoom-out.
pub const ZOOM_MAX: i64 = 0x8_0000_0000;

/// Wheel-to-zoom gain: one wheel notch for one second changes zoom by 50000.
pub const ZOOM_GAIN: i64 = 50000 * FX_ONE;

/// Largest aspect ratio the camera accepts.
pub const CAM_ASPECT_MAX: i64 = 0x400_0000;

/// Largest pan speed the camera accepts.
pub const CAM_SPEED_MAX: i64 = 0x2_0000_0000;

/// Largest position magnitude the camera holds; panning clamps here.
pub const CAM_POS_MAX: i64 = 0x20_0000_0000;

/// Largest frame delta-time the camera accepts.
pub const CAM_DT_MAX: i64 = 0x100_0000;

/// Largest wheel delta magnitude the camera accepts.
pub const CAM_WHEEL_MAX: i64 = 0x400_0000;

/// Bound on the magnitudes of symmetric projection bounds, so their sums
/// stay within what the divisions accept.
pub const CAM_EDGE_MAX: i64 = 0x2000_0000_0000;

/// A discrete input event the camera reacts to.
#[derive(Clone, Copy, Debug, PartialEq, Eq, Structural)]
pub enum CameraEvent {
    MouseWheel { delta_x: i64, delta_y: i64 },
}

impl CameraEvent {
    /// The vertical wheel movement the event carries.
    pub open spec fn wheel_delta_y(self) -> int {
        match self {
            CameraEvent::MouseWheel { delta_y, .. } => delta_y as int,
        }
    }
}

/// Which of the four directional keys are currently held.
#[derive(Clone, Copy, Debug, PartialEq, Eq, Structural)]
pub struct HeldKeys {
    pub up: bool,
    pub down: bool,
    pub left: bool,
    pub right: bool,
}

impl HeldKeys {
    /// At least one key is held.
    pub open spec fn any(self) -> bool {
        self.up || self.down || self.left || self.right
    }

    /// No key held.
    pub fn none() -> (k: HeldKeys)
        ensures
            !k.any(),
    {
        HeldKeys { up: false, down: false, left: false, right: false }
    }
}

/// The zoom after one wheel event: `zoom - delta_y * ZOOM_GAIN * dt`,
/// clamped into `[ZOOM_MIN, ZOOM_MAX]`. The product takes `delta_y * dt`
/// first, which keeps every intermediate inside the multiplier's operand
/// range; the upper clamp is the fixed-width stand-in for an unbounded
/// zoom-out, as the lower one is for a degenerate zoom-in.
pub open spec fn zoom_after(zoom: int, delta_y: int, dt: int) -> int {
    clamp_s(
        zoom - fx_mul_s(fx_mul_s(delta_y, dt), ZOOM_GAIN as int),
        ZOOM_MIN as int,
        ZOOM_MAX as int,
    )
}

/// One position axis after a pan step: `step` added for the increasing key,
/// subtracted for the decreasing one, then the clamp into the position box.
pub open spec fn axis_after(p: int, dec: bool, inc: bool, step: int) -> int {
    clamp_s(
        p + (if inc {
            step
        } else {
            0
        }) - (if dec {
            step
        } else {
            0
        }),
        -(CAM_POS_MAX as int),
        CAM_POS_MAX as int,
    )
}

/// A movable, zoomable orthographic camera.
pub struct Camera2d {
    pub projection: Mat4,
    pub view: Mat4,
    pub view_projection: Mat4,
    pub position: Vec2,
    pub speed: i64,
    pub zoom: i64,
    pub aspect_ratio: i64,
}

impl Camera2d {
    /// The camera's fixed aspect ratio, widened for specifications.
    pub open spec fn aspect(self) -> int {
        self.aspect_ratio as int
    }

    /// Half the projection box's width: `aspect_ratio * zoom`.
    pub open spec fn half_width(self) -> int {
        fx_mul_s(self.aspect(), self.zoom as int)
    }

    /// Every field within the bounds the matrix arithmetic accepts.
    pub open spec fn fields_bounded(self) -> bool {
        &&& 1 <= self.aspect() <= CAM_ASPECT_MAX
        &&& ZOOM_MIN <= self.zoom <= ZOOM_MAX
        &&& 0 <= self.speed <= CAM_SPEED_MAX
        &&& self.position.bounded(CAM_POS_MAX as int)
        &&& self.projection.bounded(FX_OP_MAX as int)
    }

    /// The camera's standing invariant: every field within its bounds, the
    /// view the inverse of a pure translation to `position`, and
    /// `view_projection` the product of `projection` and `view`.
    pub open spec fn wf(self) -> bool {
        &&& self.fields_bounded()
        &&& is_translation(self.view, -(self.position.x as int), -(self.position.y as int), 0)
        &&& is_mul_of(self.view_projection, self.projection, self.view)
    }

    /// The projection is the symmetric orthographic box of the camera's own
    /// aspect ratio and zoom. Construction and zooming establish it; panning
    /// leaves the projection untouched.
    pub open spec fn projection_matches(self) -> bool {
        is_ortho(
            self.projection,
            -self.half_width(),
            self.half_width(),
            -(self.zoom as int),
            self.zoom as int,
        )
    }

    /// A camera at the origin with the given aspect ratio, pan speed and
    /// zoom; view is the identity and `view_projection` equals the fresh
    /// projection.
    pub fn new(aspect_ratio: i64, speed: i64, zoom: i64) -> (cam: Camera2d)
        requires
            1 <= aspect_ratio <= CAM_ASPECT_MAX,
            0 <= speed <= CAM_SPEED_MAX,
            ZOOM_MIN <= zoom <= ZOOM_MAX,
        ensures
            cam.wf(),
            cam.projection_matches(),
            cam.aspect() == aspect_ratio,
            cam.speed == speed,
            cam.zoom == zoom,
            cam.position.x == 0 && cam.position.y == 0,
            is_identity(cam.view),
            cam.view_projection == cam.projection,
    {
        proof {
            lemma_half_width_range(aspect_ratio as int, zoom as int);
        }
        let hw = fx_mul(aspect_ratio, zoom);
        let ortho = Mat4::orthographic_rh_gl(-hw, hw, -zoom, zoom);
        proof {
            lemma_symmetric_ortho_bounded(ortho, hw as int, zoom as int);
        }
        let view = Mat4::identity();
        let view_projection = ortho.mul_mat4(&view);
        proof {
            lemma_mul_identity_right(view_projection, ortho, view);
        }
        Camera2d {
            projection: ortho,
            view,
            view_projection,
            position: Vec2::zero(),
            speed,
            zoom,
            aspect_ratio,
        }
    }

    /// Reacts to a wheel event: decrements the zoom by the gain-scaled wheel
    /// delta, clamps it (never below `ZOOM_MIN`), and rebuilds the projection
    /// and the product for the new zoom. Position, view, speed and aspect
    /// ratio are unchanged.
    pub fn on_event(&mut self, evt: &CameraEvent, dt: i64)
        requires
            old(self).wf(),
            0 <= dt <= CAM_DT_MAX,
            -CAM_WHEEL_MAX <= evt.wheel_delta_y() <= CAM_WHEEL_MAX,
        ensures
            final(self).wf(),
            final(self).projection_matches(),
            final(self).zoom == zoom_after(old(self).zoom as int, evt.wheel_delta_y(), dt as int),
            final(self).zoom >= ZOOM_MIN,
            final(self).position == old(self).position,
            final(self).view == old(self).view,
            final(self).speed == old(self).speed,
            final(self).aspect() == old(self).aspect(),
            is_mul_of(final(self).view_projection, final(self).projection, final(self).view),
    {
        match evt {
            CameraEvent::MouseWheel { delta_x: _, delta_y } => {
                proof {
                    lemma_fx_mul_bound(
                        *delta_y as int,
                        dt as int,
                        CAM_WHEEL_MAX as int,
                        CAM_DT_MAX as int,
                    );
                    lemma_fx_mul_bound(
                        fx_mul_s(*delta_y as int, dt as int),
                        ZOOM_GAIN as int,
                        div_t((CAM_WHEEL_MAX * CAM_DT_MAX) as int, FX_ONE as int),
                        ZOOM_GAIN as int,
                    );
                }
                let dec = fx_mul(fx_mul(*delta_y, dt), ZOOM_GAIN);
                self.zoom = clamp_i64(self.zoom - dec, ZOOM_MIN, ZOOM_MAX);
                proof {
                    lemma_half_width_range(self.aspect_ratio as int, self.zoom as int);
                }
                let hw = fx_mul(self.aspect_ratio, self.zoom);
                proof {
                    lemma_div_t_zero(2 * (hw as int));
                    lemma_div_t_zero(2 * (self.zoom as int));
                }
                self.set_projection(-hw, hw, -self.zoom, self.zoom);
            },
        }
    }

    /// Advances the camera one frame: pans the position by `speed * dt`
    /// along each held direction (clamped into the position box), then
    /// rebuilds the view and the product. Calling it with no key held and a
    /// zero delta-time leaves the camera exactly as it was.
    pub fn on_update(&mut self, held: &HeldKeys, dt: i64)
        requires
            old(self).wf(),
            0 <= dt <= CAM_DT_MAX,
        ensures
            final(self).wf(),
            final(self).position.x == axis_after(
                old(self).position.x as int,
                held.left,
                held.right,
                fx_mul_s(old(self).speed as int, dt as int),
            ),
            final(self).position.y == axis_after(
                old(self).position.y as int,
                held.down,
                held.up,
                fx_mul_s(old(self).speed as int, dt as int),
            ),
            is_translation(
                final(self).view,
                -(final(self).position.x as int),
                -(final(self).position.y as int),
                0,
            ),
            is_mul_of(final(self).view_projection, final(self).projection, final(self).view),
            final(self).projection == old(self).projection,
            final(self).speed == old(self).speed,
            final(self).zoom == old(self).zoom,
            final(self).aspect() == old(self).aspect(),
            !held.any() && dt == 0 ==> *final(self) == *old(self),
    {
        proof {
            lemma_fx_mul_bound(
                self.speed as int,
                dt as int,
                CAM_SPEED_MAX as int,
                CAM_DT_MAX as int,
            );
            if dt == 0 {
                crate::fixed::lemma_fx_mul_zero(self.speed as int);
            }
        }
        let step = fx_mul(self.speed, dt);
        let mut x = self.position.x;
        let mut y = self.position.y;
        if held.up {
            y = y + step;
        }
        if held.down {
            y = y - step;
        }
        if held.left {
            x = x - step;
        }
        if held.right {
            x = x + step;
        }
        self.position = Vec2::new(clamp_i64(x, -CAM_POS_MAX, CAM_POS_MAX), clamp_i64(y, -CAM_POS_MAX, CAM_POS_MAX));
        self.reload_view_matrix();
        proof {
            if !held.any() && dt == 0 {
                assert(self.position == old(self).position);
                assert(self.view == old(self).view);
                assert(self.view_projection == old(self).view_projection);
            }
        }
    }

    /// Replaces the projection with the orthographic box `[left, right] x
    /// [bottom, top]` and recomputes the product; everything else is
    /// unchanged. The translation-entry bounds in the `requires` keep the
    /// new projection inside what later multiplications accept; symmetric
    /// bounds meet them trivially.
    pub fn set_projection(&mut self, left: i64, right: i64, bottom: i64, top: i64)
        requires
            old(self).wf(),
            1 <= right - left,
            1 <= top - bottom,
            -CAM_EDGE_MAX <= left <= CAM_EDGE_MAX,
            -CAM_EDGE_MAX <= right <= CAM_EDGE_MAX,
            -CAM_EDGE_MAX <= bottom <= CAM_EDGE_MAX,
            -CAM_EDGE_MAX <= top <= CAM_EDGE_MAX,
            -(FX_OP_MAX as int) <= fx_div_s((left + right) as int, (right - left) as int) <= (
            FX_OP_MAX as int),
            -(FX_OP_MAX as int) <= fx_div_s((bottom + top) as int, (top - bottom) as int) <= (
            FX_OP_MAX as int),
        ensures
            final(self).wf(),
            is_ortho(final(self).projection, left as int, right as int, bottom as int, top as int),
            is_mul_of(final(self).view_projection, final(self).projection, final(self).view),
            final(self).view == old(self).view,
            final(self).position == old(self).position,
            final(self).speed == old(self).speed,
            final(self).zoom == old(self).zoom,
            final(self).aspect() == old(self).aspect(),
    {
        self.projection = Mat4::orthographic_rh_gl(left, right, bottom, top);
        proof {
            lemma_div_t_bound(
                2 * (FX_ONE as int) * (FX_ONE as int),
                (right - left) as int,
                2 * (FX_ONE as int) * (FX_ONE as int),
            );
            lemma_div_t_bound(
                2 * (FX_ONE as int) * (FX_ONE as int),
                (top - bottom) as int,
                2 * (FX_ONE as int) * (FX_ONE as int),
            );
        }
        self.view_projection = self.projection.mul_mat4(&self.view);
    }

    /// Rebuilds the view as the inverse of a pure translation to the
    /// camera's position (the camera does not roll) and recomputes the
    /// product; everything else is unchanged.
    pub fn reload_view_matrix(&mut self)
        requires
            old(self).fields_bounded(),
        ensures
            final(self).wf(),
            is_translation(
                final(self).view,
                -(old(self).position.x as int),
                -(old(self).position.y as int),
                0,
            ),
            is_mul_of(final(self).view_projection, final(self).projection, final(self).view),
            final(self).projection == old(self).projection,
            final(self).position == old(self).position,
            final(self).speed == old(self).speed,
            final(self).zoom == old(self).zoom,
            final(self).aspect() == old(self).aspect(),
    {
        self.view = Mat4::from_translation(-self.position.x, -self.position.y, 0);
        self.view_projection = self.projection.mul_mat4(&self.view);
    }
}

/// The zoom floor: a well-formed camera never holds a zoom below
/// `ZOOM_MIN`, so the projection box never degenerates or inverts. The
/// constructor demands it and every mutator re-establishes `wf`, so it holds
/// after any sequence of calls.
pub proof fn lemma_zoom_floor(cam: Camera2d)
    requires
        cam.wf(),
    ensures
        cam.zoom >= ZOOM_MIN,
{
}

/// The product invariant: on a well-formed camera, `view_projection` is
/// entry for entry the product `projection * view`, never an independently
/// patched value. Every mutator re-establishes `wf`, so it holds after any
/// sequence of calls.
pub proof fn lemma_view_projection_is_product(cam: Camera2d)
    requires
        cam.wf(),
    ensures
        is_mul_of(cam.view_projection, cam.projection, cam.view),
{
}

/// With the aspect ratio at least one and the zoom at least `ZOOM_MIN`, the
/// half-width is positive and no larger than their product.
pub proof fn lemma_half_width_range(aspect: int, zoom: int)
    requires
        1 <= aspect <= CAM_ASPECT_MAX,
        ZOOM_MIN <= zoom <= ZOOM_MAX,
    ensures
        1 <= fx_mul_s(aspect, zoom) <= div_t((CAM_ASPECT_MAX * ZOOM_MAX) as int, FX_ONE as int),
{
    assert(aspect * zoom >= zoom) by (nonlinear_arith)
        requires
            1 <= aspect,
            0 <= zoom,
    ;
    lemma_abs_product_bound(aspect, zoom, CAM_ASPECT_MAX as int, ZOOM_MAX as int);
    assert(fx_mul_s(aspect, zoom) >= div_t(ZOOM_MIN as int, FX_ONE as int)) by {
        vstd::arithmetic::div_mod::lemma_div_is_ordered(
            ZOOM_MIN as int,
            aspect * zoom,
            FX_ONE as int,
        );
    }
    lemma_div_t_bound(aspect * zoom, FX_ONE as int, (CAM_ASPECT_MAX * ZOOM_MAX) as int);
    vstd::arithmetic::div_mod::lemma_div_is_ordered(
        aspect * zoom,
        (CAM_ASPECT_MAX * ZOOM_MAX) as int,
        FX_ONE as int,
    );
}

/// A symmetric orthographic projection has all entries within `FX_OP_MAX`.
pub proof fn lemma_symmetric_ortho_bounded(m: Mat4, hw: int, zoom: int)
    requires
        is_ortho(m, -hw, hw, -zoom, zoom),
        1 <= hw,
        1 <= zoom,
    ensures
        m.bounded(FX_OP_MAX as int),
{
    lemma_div_t_zero(2 * hw);
    lemma_div_t_zero(2 * zoom);
    lemma_div_t_bound(2 * (FX_ONE as int) * (FX_ONE as int), 2 * hw, 2 * (FX_ONE as int) * (
    FX_ONE as int));
    lemma_div_t_bound(2 * (FX_ONE as int) * (FX_ONE as int), 2 * zoom, 2 * (FX_ONE as int) * (
    FX_ONE as int));
}

} // verus!
