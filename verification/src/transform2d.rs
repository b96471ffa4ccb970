//! A 2D transform: position, per-axis scale and a rotation in fixed-point
//! radians, composed on demand into a 4x4 affine matrix whose translation is
//! anchored so the unit quad's own center lands at `position + 0.5 * scale`.

use vstd::prelude::*;

use crate::fixed::div_t;
use crate::fixed::fx_half;
use crate::fixed::FX_OP_MAX;
use crate::mat4::is_srt;
use crate::mat4::Mat4;
use crate::mat4::Vec2;

verus! {

/// Largest position magnitude a transform accepts; together with the scale
/// bound it keeps the composed translation within `FX_OP_MAX`.
pub const TR_POS_MAX: i64 = 0x20_0000_0000;

/// Largest rotation magnitude a transform accepts (far beyond any number of
/// full turns; it only keeps the angle arithmetic inside `i64`).
pub const TR_ROT_MAX: i64 = 0x4000_0000_0000_0000;

/// A position, scale and rotation, consumed on demand to produce a matrix.
pub struct Transform2d {
    position: Vec2,
    scale: Vec2,
    rotation: i64,
}

impl Transform2d {
    /// The transform's position.
    pub closed spec fn position(self) -> Vec2 {
        self.position
    }

    /// The transform's per-axis scale.
    pub closed spec fn scale(self) -> Vec2 {
        self.scale
    }

    /// The transform's rotation, in fixed-point radians.
    pub closed spec fn rotation(self) -> int {
        self.rotation as int
    }

    /// The fields stay within the magnitudes the matrix math accepts.
    pub open spec fn wf(self) -> bool {
        &&& self.position().bounded(TR_POS_MAX as int)
        &&& self.scale().bounded(FX_OP_MAX as int)
        &&& -TR_ROT_MAX <= self.rotation() <= TR_ROT_MAX
    }

    /// A transform with the given fields.
    pub fn new(position: Vec2, scale: Vec2, rotation: i64) -> (t: Transform2d)
        requires
            position.bounded(TR_POS_MAX as int),
            scale.bounded(FX_OP_MAX as int),
            -TR_ROT_MAX <= rotation <= TR_ROT_MAX,
        ensures
            t.position() == position,
            t.scale() == scale,
            t.rotation() == rotation as int,
            t.wf(),
    {
        Transform2d { position, scale, rotation }
    }

    /// The composed matrix `T(position + 0.5 * scale) * R_z(rotation) *
    /// S(scale)`: scale and rotation about the origin, then a translation
    /// offset by half the scale so the unit quad is centered on `position +
    /// 0.5 * scale`. Pure in the fields; the transform itself is unchanged.
    pub fn constructed(&mut self) -> (m: Mat4)
        requires
            old(self).wf(),
        ensures
            *final(self) == *old(self),
            is_srt(
                m,
                old(self).scale().x as int,
                old(self).scale().y as int,
                old(self).rotation(),
                div_t(old(self).scale().x as int, 2) + old(self).position().x,
                div_t(old(self).scale().y as int, 2) + old(self).position().y,
            ),
    {
        let tx = fx_half(self.scale.x) + self.position.x;
        let ty = fx_half(self.scale.y) + self.position.y;
        Mat4::from_scale_rotation_translation(self.scale, self.rotation, Vec2::new(tx, ty))
    }
}

} // verus!
