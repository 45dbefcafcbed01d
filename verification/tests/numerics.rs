use rust_drone_follow::angle::atan_ratio;
use rust_drone_follow::fixed::div_trunc;
use rust_drone_follow::fixed::mul_scale_clamp;
use rust_drone_follow::fixed::SCALE;
use rust_drone_follow::geometric_point::get_center_of_geometric_points;
use rust_drone_follow::geometric_point::get_closest_from_geometric_points_to_point;
use rust_drone_follow::geometric_point::GeometricPoint;
use rust_drone_follow::hat_follower_settings::HatFollowerSettings;
use rust_drone_follow::lab_color::LabColor;

#[test]
fn division_truncates_toward_zero() {
    assert_eq!(div_trunc(7, 2), 3);
    assert_eq!(div_trunc(-7, 2), -3);
    assert_eq!(div_trunc(0, 5), 0);
}

#[test]
fn scaled_multiplication_clamps_into_the_unit_range() {
    assert_eq!(mul_scale_clamp(5 * SCALE, SCALE), SCALE);
    assert_eq!(mul_scale_clamp(-5 * SCALE, SCALE), -SCALE);
    assert_eq!(mul_scale_clamp(500_000, 500_000), 250_000);
    assert_eq!(mul_scale_clamp(333_333, 3 * SCALE), 999_999);
    assert_eq!(mul_scale_clamp(SCALE, 0), 0);
}

#[test]
fn arctangent_of_common_ratios() {
    assert_eq!(atan_ratio(0, 7), 0);
    assert_eq!(atan_ratio(1, 1), 785_398);
    assert_eq!(atan_ratio(-1, 1), -785_398);
    assert_eq!(atan_ratio(1, 2), 460_949);
    assert_eq!(atan_ratio(-30, -25), 878_382);
    assert_eq!(atan_ratio(100, 1), 1_560_241);
}

#[test]
fn arctangent_stays_strictly_inside_the_half_pi_bounds() {
    let values = [-100_000i64, -3_000, -55, -1, 1, 17, 4_999, 100_000];
    for &dx in values.iter() {
        for &dy in values.iter() {
            let a = atan_ratio(dx, dy);
            assert!(-1_570_796 < a && a < 1_570_796);
        }
    }
}

#[test]
fn lab_color_stretches_and_shifts_its_channels() {
    let c = LabColor::new(50, -127, 127);
    assert_eq!(c.l, 127);
    assert_eq!(c.a, 1);
    assert_eq!(c.b, 255);
    let full = LabColor::new(100, 0, 0);
    assert_eq!(full.l, 255);
    assert_eq!(full.a, 128);
    assert_eq!(full.b, 128);
}

#[test]
fn lab_color_clamps_an_out_of_range_lightness() {
    assert_eq!(LabColor::new(120, 0, 0).l, 255);
    assert_eq!(LabColor::new(-5, 0, 0).l, 255);
}

#[test]
fn centroid_is_the_truncated_mean() {
    let points = vec![
        GeometricPoint::new(0, 0),
        GeometricPoint::new(10, 0),
        GeometricPoint::new(5, 30),
    ];
    let c = get_center_of_geometric_points(&points);
    assert_eq!((c.x, c.y), (5, 10));
    // The mean truncates toward zero, also for negative sums.
    let negatives = vec![GeometricPoint::new(-3, -3), GeometricPoint::new(0, 0)];
    let n = get_center_of_geometric_points(&negatives);
    assert_eq!((n.x, n.y), (-1, -1));
}

#[test]
fn closest_point_search_keeps_the_earliest_of_equal_distances() {
    let points = vec![
        GeometricPoint::new(10, 0),
        GeometricPoint::new(0, 10),
        GeometricPoint::new(3, 4),
    ];
    let (p, d) = get_closest_from_geometric_points_to_point(&points, &GeometricPoint::new(0, 0));
    assert_eq!((p.x, p.y), (3, 4));
    assert_eq!(d, 25);
    let tie = vec![GeometricPoint::new(10, 0), GeometricPoint::new(0, 10)];
    let (t, td) = get_closest_from_geometric_points_to_point(&tie, &GeometricPoint::new(0, 0));
    assert_eq!((t.x, t.y), (10, 0));
    assert_eq!(td, 100);
}

#[test]
fn settings_presets_carry_the_documented_values() {
    let s = HatFollowerSettings::new();
    assert_eq!(s.center_threshold, 5 * SCALE);
    assert_eq!(s.min_change, 300_000);
    assert_eq!(s.frames_to_be_centered, 10 * SCALE);
    assert!(s.show_video && !s.draw_detection && !s.draw_filter && !s.draw_center);
    assert!(s.save_to_file.is_none() && s.save_commands.is_none());

    let d = HatFollowerSettings::debug();
    assert_eq!(d.save_to_file.as_deref(), Some("debug_video.mp4"));
    assert_eq!(d.save_commands.as_deref(), Some("debug_commands.txt"));
    assert!(d.show_video && d.draw_detection && d.draw_filter && d.draw_center);

    let q = HatFollowerSettings::silent();
    assert!(!q.show_video && !q.draw_detection && !q.draw_filter && !q.draw_center);
    assert!(q.save_to_file.is_none() && q.save_commands.is_none());
}
