//! Camera geometry: pure functions from the window's size to the camera
//! parameters that keep the whole pool in view.
//!
//! Window sizes are whole pixels. Lengths in this module are whole world
//! units, and every result is an exact fraction, so that nothing is lost
//! before the render host turns it into its own number format.

use vstd::prelude::*;
use crate::geometry::Vec3;

verus! {

/// Pool dimensions in world units; the walls are built to the same measure.
pub const POOL_W: u32 = 1920;

pub const POOL_H: u32 = 1080;

/// Width of the window that the reference camera position was designed for.
pub const CAM3D_REF_W: u32 = 960;

pub const CAM3D_REF_H: u32 = 540;

/// Height of the point that the perspective camera looks at; it lies on the vertical axis.
pub const CAM3D_LOOK_AT_Y: i64 = -200;

/// Offset from the look-at point to the reference camera position, upwards and towards the viewer.
pub const CAM3D_REF_OFFSET_Y: i64 = 3200;

pub const CAM3D_REF_OFFSET_Z: i64 = 3200;

/// A non-negative fraction `num / den`.
#[derive(Clone, Copy, Debug, PartialEq, Eq, Structural)]
pub struct Ratio {
    pub num: u64,
    pub den: u64,
}

impl Ratio {
    /// The denominator is positive.
    pub open spec fn wf(self) -> bool {
        self.den > 0
    }

    /// Whether this fraction is at least `num / den`.
    pub open spec fn at_least(self, num: int, den: int) -> bool {
        self.num * den >= num * self.den
    }

    /// Whether this fraction equals `num / den`.
    pub open spec fn equals(self, num: int, den: int) -> bool {
        self.num * den == num * self.den
    }
}

/// A point whose coordinates are the fractions `x / den`, `y / den`, `z / den`.
#[derive(Clone, Copy, Debug, PartialEq, Eq, Structural)]
pub struct RationalVec3 {
    pub x: i64,
    pub y: i64,
    pub z: i64,
    pub den: u64,
}

/// What the render host applies to its camera.
#[derive(Clone, Copy, Debug, PartialEq, Eq, Structural)]
pub enum CameraParams {
    /// A planar camera; `scale` is world units per pixel.
    Orthographic { scale: Ratio },
    /// A camera in space at `position`, looking at `look_at`.
    Perspective { position: RationalVec3, look_at: Vec3 },
}

/// The larger of `ref_w / width` and `ref_h / height`, for a window with an area.
pub open spec fn spec_fit_ratio(ref_w: u32, ref_h: u32, width: u32, height: u32) -> Ratio {
    if ref_w * height >= ref_h * width {
        Ratio { num: ref_w as u64, den: width as u64 }
    } else {
        Ratio { num: ref_h as u64, den: height as u64 }
    }
}

/// The point that the perspective camera looks at.
pub open spec fn spec_look_at() -> Vec3 {
    Vec3 { x: 0, y: CAM3D_LOOK_AT_Y, z: 0 }
}

/// The look-at point plus the reference offset scaled by `ratio`.
pub open spec fn spec_camera_position(ratio: Ratio) -> RationalVec3 {
    RationalVec3 {
        x: 0,
        y: (CAM3D_LOOK_AT_Y * ratio.den + CAM3D_REF_OFFSET_Y * ratio.num) as i64,
        z: (CAM3D_REF_OFFSET_Z * ratio.num) as i64,
        den: ratio.den,
    }
}

/// The tightest fit of a `ref_w` by `ref_h` rectangle to a window: the
/// larger of the two per-axis ratios. A window without area has none.
pub fn fit_ratio(ref_w: u32, ref_h: u32, width: u32, height: u32) -> (fit: Option<Ratio>)
    ensures
        fit is None <==> width == 0 || height == 0,
        fit is Some ==> fit->Some_0 == spec_fit_ratio(ref_w, ref_h, width, height),
        fit is Some ==> fit->Some_0.wf(),
{
    if width == 0 || height == 0 {
        return None;
    }
    proof {
        assert(ref_w * height <= u32::MAX * u32::MAX) by (nonlinear_arith)
            requires
                ref_w <= u32::MAX,
                height <= u32::MAX,
        ;
        assert(ref_h * width <= u32::MAX * u32::MAX) by (nonlinear_arith)
            requires
                ref_h <= u32::MAX,
                width <= u32::MAX,
        ;
    }
    let across: u64 = (ref_w as u64) * (height as u64);
    let along: u64 = (ref_h as u64) * (width as u64);
    if across >= along {
        Some(Ratio { num: ref_w as u64, den: width as u64 })
    } else {
        Some(Ratio { num: ref_h as u64, den: height as u64 })
    }
}

/// Smallest orthographic scale that fits the full pool into a window of
/// `width` by `height` pixels: `max(POOL_W / width, POOL_H / height)`.
pub fn ortho_scale_for_window(width: u32, height: u32) -> (scale: Option<Ratio>)
    ensures
        scale is None <==> width == 0 || height == 0,
        scale is Some ==> scale->Some_0 == spec_fit_ratio(POOL_W, POOL_H, width, height),
        scale is Some ==> scale->Some_0.wf(),
{
    fit_ratio(POOL_W, POOL_H, width, height)
}

/// The camera position for a fit ratio: the reference offset from the
/// look-at point, scaled by the ratio, so that the view direction is kept.
pub fn camera_position(ratio: Ratio) -> (position: RationalVec3)
    requires
        ratio.num <= u32::MAX,
        ratio.den <= u32::MAX,
    ensures
        position == spec_camera_position(ratio),
        position.x == 0,
        position.y == CAM3D_LOOK_AT_Y * ratio.den + CAM3D_REF_OFFSET_Y * ratio.num,
        position.z == CAM3D_REF_OFFSET_Z * ratio.num,
        position.den == ratio.den,
{
    let num: i64 = ratio.num as i64;
    let den: i64 = ratio.den as i64;
    RationalVec3 {
        x: 0,
        y: CAM3D_LOOK_AT_Y * den + CAM3D_REF_OFFSET_Y * num,
        z: CAM3D_REF_OFFSET_Z * num,
        den: ratio.den,
    }
}

/// Position of the perspective camera that fits the full pool into a window
/// of `width` by `height` pixels: the look-at point plus the reference offset
/// times `max(CAM3D_REF_W / width, CAM3D_REF_H / height)`.
pub fn cam3d_pos_for_window(width: u32, height: u32) -> (position: Option<RationalVec3>)
    ensures
        position is None <==> width == 0 || height == 0,
        position is Some ==> position->Some_0 == spec_camera_position(
            spec_fit_ratio(CAM3D_REF_W, CAM3D_REF_H, width, height),
        ),
        position is Some ==> position->Some_0.den > 0,
{
    match fit_ratio(CAM3D_REF_W, CAM3D_REF_H, width, height) {
        Some(ratio) => Some(camera_position(ratio)),
        None => None,
    }
}

/// The point that the perspective camera looks at.
pub fn look_at() -> (target: Vec3)
    ensures
        target == spec_look_at(),
{
    Vec3::new(0, CAM3D_LOOK_AT_Y, 0)
}

/// The orthographic scale used while no window is known: two world units per pixel.
pub fn default_ortho_scale() -> (scale: Ratio)
    ensures
        scale == (Ratio { num: 2, den: 1 }),
{
    Ratio { num: 2, den: 1 }
}

/// The camera position used while no window is known: the reference position itself.
pub fn default_cam3d_pos() -> (position: RationalVec3)
    ensures
        position == spec_camera_position(Ratio { num: 1, den: 1 }),
{
    camera_position(Ratio { num: 1, den: 1 })
}

/// The fit ratio is the larger of the two per-axis ratios: at that scale the
/// rectangle fills the window exactly along one axis and is not clipped
/// along the other, and no smaller scale avoids clipping.
pub proof fn lemma_fit_ratio_is_tightest(
    ref_w: u32,
    ref_h: u32,
    width: u32,
    height: u32,
    num: nat,
    den: nat,
)
    requires
        width > 0,
        height > 0,
        den > 0,
    ensures
        ({
            let fit = spec_fit_ratio(ref_w, ref_h, width, height);
            &&& fit.wf()
            &&& fit.at_least(ref_w as int, width as int)
            &&& fit.at_least(ref_h as int, height as int)
            &&& (fit.equals(ref_w as int, width as int) || fit.equals(ref_h as int, height as int))
            &&& fit.num * width >= ref_w * fit.den
            &&& fit.num * height >= ref_h * fit.den
            &&& (num * width >= ref_w * den && num * height >= ref_h * den ==> num * fit.den
                >= fit.num * den)
        }),
{
    let fit = spec_fit_ratio(ref_w, ref_h, width, height);
    assert(fit.num * width == width * fit.num) by (nonlinear_arith);
    assert(fit.num * height == height * fit.num) by (nonlinear_arith);
    assert(ref_w * fit.den == fit.den * ref_w) by (nonlinear_arith);
    assert(ref_h * fit.den == fit.den * ref_h) by (nonlinear_arith);
    assert(ref_w * height == height * ref_w) by (nonlinear_arith);
    assert(ref_h * width == width * ref_h) by (nonlinear_arith);
    assert(num * fit.den == fit.den * num) by (nonlinear_arith);
    assert(fit.num * den == den * fit.num) by (nonlinear_arith);
    assert(num * width == width * num) by (nonlinear_arith);
    assert(num * height == height * num) by (nonlinear_arith);
    assert(ref_w * den == den * ref_w) by (nonlinear_arith);
    assert(ref_h * den == den * ref_h) by (nonlinear_arith);
}

/// The orthographic scale of a window with an area is `max(POOL_W / width,
/// POOL_H / height)`: the pool fits the window exactly on one axis, is not
/// clipped on the other, and every scale that avoids clipping is at least
/// as large.
pub proof fn lemma_ortho_scale_fits_pool(width: u32, height: u32, num: nat, den: nat)
    requires
        width > 0,
        height > 0,
        den > 0,
    ensures
        ({
            let scale = spec_fit_ratio(POOL_W, POOL_H, width, height);
            &&& scale.num * width >= POOL_W * scale.den
            &&& scale.num * height >= POOL_H * scale.den
            &&& (scale.num * width == POOL_W * scale.den || scale.num * height == POOL_H
                * scale.den)
            &&& (num * width >= POOL_W * den && num * height >= POOL_H * den ==> num * scale.den
                >= scale.num * den)
        }),
{
    lemma_fit_ratio_is_tightest(POOL_W, POOL_H, width, height, num, den);
}

/// The camera stays on the line through the look-at point along the
/// reference offset: resizing the window moves it along its view direction
/// only, and by the fit ratio.
pub proof fn lemma_camera_keeps_view_direction(ratio: Ratio)
    requires
        ratio.wf(),
        ratio.num <= u32::MAX,
        ratio.den <= u32::MAX,
    ensures
        ({
            let position = spec_camera_position(ratio);
            let target = spec_look_at();
            &&& position.den == ratio.den
            &&& position.x - target.x * position.den == 0
            &&& position.y - target.y * position.den == CAM3D_REF_OFFSET_Y * ratio.num
            &&& position.z - target.z * position.den == CAM3D_REF_OFFSET_Z * ratio.num
        }),
{
}

} // verus!
