use physics_bench::camera::{
    cam3d_pos_for_window, camera_position, default_cam3d_pos, default_ortho_scale, fit_ratio,
    look_at, ortho_scale_for_window, Ratio, RationalVec3,
};
use physics_bench::geometry::Vec3;

fn as_f64(ratio: Ratio) -> f64 {
    ratio.num as f64 / ratio.den as f64
}

#[test]
fn ortho_scale_of_reference_window_is_two() {
    let scale = ortho_scale_for_window(960, 540).unwrap();
    assert_eq!(scale, Ratio { num: 1920, den: 960 });
    assert_eq!(as_f64(scale), 2.0);
}

#[test]
fn ortho_scale_of_pool_sized_window_is_one() {
    let scale = ortho_scale_for_window(1920, 1080).unwrap();
    assert_eq!(scale.num, scale.den);
}

#[test]
fn ortho_scale_takes_the_larger_axis_ratio() {
    // Tall window: the width is the tighter constraint.
    assert_eq!(ortho_scale_for_window(960, 1080), Some(Ratio { num: 1920, den: 960 }));
    // Wide window: the height is the tighter constraint.
    assert_eq!(ortho_scale_for_window(3840, 540), Some(Ratio { num: 1080, den: 540 }));
    // Odd sizes.
    let scale = ortho_scale_for_window(1000, 700).unwrap();
    assert_eq!(scale, Ratio { num: 1920, den: 1000 });
    let expected = f64::max(1920.0 / 1000.0, 1080.0 / 700.0);
    assert_eq!(as_f64(scale), expected);
}

#[test]
fn ortho_scale_fits_and_is_minimal_on_a_grid_of_windows() {
    for width in [1u32, 7, 320, 959, 960, 961, 1920, 4096] {
        for height in [1u32, 5, 240, 539, 540, 541, 1080, 2160] {
            let scale = ortho_scale_for_window(width, height).unwrap();
            let (num, den) = (scale.num as u128, scale.den as u128);
            let (w, h) = (width as u128, height as u128);
            // Not clipped on either axis.
            assert!(num * w >= 1920 * den);
            assert!(num * h >= 1080 * den);
            // Exact on at least one axis.
            assert!(num * w == 1920 * den || num * h == 1080 * den);
            // Idempotent.
            assert_eq!(ortho_scale_for_window(width, height), Some(scale));
        }
    }
}

#[test]
fn window_without_area_has_no_scale() {
    assert_eq!(ortho_scale_for_window(0, 540), None);
    assert_eq!(ortho_scale_for_window(960, 0), None);
    assert_eq!(ortho_scale_for_window(0, 0), None);
    assert_eq!(cam3d_pos_for_window(0, 540), None);
    assert_eq!(cam3d_pos_for_window(960, 0), None);
    assert_eq!(fit_ratio(10, 10, 0, 1), None);
}

#[test]
fn camera_position_of_reference_window_is_reference_position() {
    let position = cam3d_pos_for_window(960, 540).unwrap();
    assert_eq!(position.den, 960);
    assert_eq!(position.x, 0);
    assert_eq!(position.y, 3000 * 960);
    assert_eq!(position.z, 3200 * 960);
}

#[test]
fn camera_moves_away_when_the_window_shrinks() {
    // Half the reference size: twice the offset from the look-at point.
    let position = cam3d_pos_for_window(480, 270).unwrap();
    assert_eq!(position, RationalVec3 { x: 0, y: -200 * 480 + 3200 * 960, z: 3200 * 960, den: 480 });
    assert_eq!(position.y as f64 / position.den as f64, -200.0 + 3200.0 * 2.0);
    assert_eq!(position.z as f64 / position.den as f64, 3200.0 * 2.0);
}

#[test]
fn camera_position_follows_the_tighter_axis() {
    // Wide and low window: the height decides.
    let position = cam3d_pos_for_window(1920, 270).unwrap();
    assert_eq!(position.den, 270);
    assert_eq!(position.z, 3200 * 540);
    assert_eq!(position.y, -200 * 270 + 3200 * 540);
}

#[test]
fn camera_defaults() {
    assert_eq!(default_ortho_scale(), Ratio { num: 2, den: 1 });
    assert_eq!(default_cam3d_pos(), RationalVec3 { x: 0, y: 3000, z: 3200, den: 1 });
    assert_eq!(look_at(), Vec3 { x: 0, y: -200, z: 0 });
    assert_eq!(
        camera_position(Ratio { num: 3, den: 2 }),
        RationalVec3 { x: 0, y: -400 + 9600, z: 9600, den: 2 }
    );
}

#[test]
fn fit_ratio_of_general_rectangles() {
    assert_eq!(fit_ratio(100, 50, 10, 10), Some(Ratio { num: 100, den: 10 }));
    assert_eq!(fit_ratio(50, 100, 10, 10), Some(Ratio { num: 100, den: 10 }));
    // Equal ratios: the width's ratio is reported.
    assert_eq!(fit_ratio(100, 50, 20, 10), Some(Ratio { num: 100, den: 20 }));
    assert_eq!(
        fit_ratio(u32::MAX, u32::MAX, u32::MAX, 1),
        Some(Ratio { num: u32::MAX as u64, den: 1 })
    );
}
