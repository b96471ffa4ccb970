//! The 2D transform and the matrix algebra behind it.

use volka::fixed::FX_HALF;
use volka::fixed::HALF_PI_FX;
use volka::fixed::FX_ONE;
use volka::mat4::Mat4;
use volka::mat4::Vec2;
use volka::mat4::Vec4;
use volka::transform2d::Transform2d;
use volka::utils::transform2d;

#[test]
fn unit_compose_maps_the_quad_center_to_half_half() {
    // Scale one, rotation zero, position zero: the composed matrix is a pure
    // translation by (0.5, 0.5) in the plane, so the quad's own center (the
    // local origin) lands at world (0.5, 0.5).
    let mut t = Transform2d::new(
        Vec2::new(0, 0),
        Vec2::new(FX_ONE, FX_ONE),
        0,
    );
    let m = t.constructed();
    assert_eq!(m.x_axis, Vec4 { x: FX_ONE, y: 0, z: 0, w: 0 });
    assert_eq!(m.y_axis, Vec4 { x: 0, y: FX_ONE, z: 0, w: 0 });
    assert_eq!(m.z_axis, Vec4 { x: 0, y: 0, z: 0, w: 0 });
    assert_eq!(m.w_axis, Vec4 { x: FX_HALF, y: FX_HALF, z: 0, w: FX_ONE });
    let center = m.mul_vec4(&Vec4 { x: 0, y: 0, z: 0, w: FX_ONE });
    assert_eq!(center, Vec4 { x: FX_HALF, y: FX_HALF, z: 0, w: FX_ONE });
}

#[test]
fn compose_equals_the_product_of_its_factors() {
    // T(p + s/2) * R_z(r) * S(s) multiplied out entry for entry equals the
    // composed matrix.
    let pos = Vec2::new(5 * FX_ONE, -7 * FX_ONE);
    let scale = Vec2::new(2 * FX_ONE, 3 * FX_ONE);
    let rot: i64 = 12345;
    let mut tr = Transform2d::new(pos, scale, rot);
    let composed = tr.constructed();

    let tx = scale.x / 2 + pos.x;
    let ty = scale.y / 2 + pos.y;
    let t = Mat4::from_translation(tx, ty, 0);
    let r = Mat4::from_rotation_z(rot);
    let mut s = Mat4::from_scale(scale.x, scale.y, 0);
    // The composed transform flattens Z entirely; align the scale factor.
    s.z_axis = Vec4 { x: 0, y: 0, z: 0, w: 0 };
    let rs = r.mul_mat4(&s);
    let product = t.mul_mat4(&rs);
    assert_eq!(composed, product);
}

#[test]
fn transform2d_with_zero_rotation_scales_and_translates() {
    let m = transform2d(
        Vec2::new(2 * FX_ONE, 3 * FX_ONE),
        0,
        Vec2::new(5 * FX_ONE, 7 * FX_ONE),
    );
    assert_eq!(m.x_axis, Vec4 { x: 2 * FX_ONE, y: 0, z: 0, w: 0 });
    assert_eq!(m.y_axis, Vec4 { x: 0, y: 3 * FX_ONE, z: 0, w: 0 });
    assert_eq!(m.z_axis, Vec4 { x: 0, y: 0, z: 0, w: 0 });
    assert_eq!(m.w_axis, Vec4 { x: 5 * FX_ONE, y: 7 * FX_ONE, z: 0, w: FX_ONE });
}

#[test]
fn transform2d_quarter_turn_swaps_the_axes() {
    let m = transform2d(
        Vec2::new(FX_ONE, FX_ONE),
        HALF_PI_FX,
        Vec2::new(0, 0),
    );
    // cos(pi/2) == 0 and sin(pi/2) == 1 exactly in this fixed-point kernel.
    assert_eq!(m.x_axis, Vec4 { x: 0, y: FX_ONE, z: 0, w: 0 });
    assert_eq!(m.y_axis, Vec4 { x: -FX_ONE, y: 0, z: 0, w: 0 });
}

#[test]
fn constructed_does_not_change_the_transform() {
    let mut t = Transform2d::new(
        Vec2::new(FX_ONE, 2 * FX_ONE),
        Vec2::new(4 * FX_ONE, 4 * FX_ONE),
        999,
    );
    let a = t.constructed();
    let b = t.constructed();
    assert_eq!(a, b);
}
