use rust_drone_follow::detectors::naive_detector::contour_area;
use rust_drone_follow::detectors::naive_detector::get_best_fit_contour;
use rust_drone_follow::detectors::naive_detector::NaiveDetector;
use rust_drone_follow::fixed::SCALE;
use rust_drone_follow::geometric_point::GeometricPoint;
use rust_drone_follow::hat::Hat;
use rust_drone_follow::lab_color::LabColor;
use rust_drone_follow::point_converter::PointConverter;
use rust_drone_follow::point_converter::RasterPoint;
use rust_drone_follow::traits::Detector;

fn rectangle(x0: i32, y0: i32, x1: i32, y1: i32) -> Vec<RasterPoint> {
    vec![
        RasterPoint::new(x0, y0),
        RasterPoint::new(x1, y0),
        RasterPoint::new(x1, y1),
        RasterPoint::new(x0, y1),
    ]
}

fn test_hat(size_avg: i64) -> Hat {
    Hat::new(LabColor::new(0, 20, -127), LabColor::new(80, 127, -20), size_avg)
}

#[test]
fn area_of_a_ten_by_ten_square_is_one_hundred() {
    let square = rectangle(0, 0, 10, 10);
    assert_eq!(contour_area(&square), 100 * SCALE);
}

#[test]
fn area_of_a_single_point_is_zero() {
    let dot = vec![RasterPoint::new(5, 5)];
    assert_eq!(contour_area(&dot), 0);
}

#[test]
fn area_ignores_orientation() {
    let clockwise = vec![
        RasterPoint::new(0, 0),
        RasterPoint::new(0, 10),
        RasterPoint::new(10, 10),
        RasterPoint::new(10, 0),
    ];
    assert_eq!(contour_area(&clockwise), 100 * SCALE);
}

#[test]
fn best_fit_takes_an_exact_match_with_full_certainty() {
    let contours = vec![rectangle(0, 0, 10, 10)];
    let r = get_best_fit_contour(&contours, 100 * SCALE);
    assert_eq!(r, Some((0, SCALE)));
}

#[test]
fn best_fit_rejects_double_and_a_tenth_of_the_expected_area() {
    // A lone candidate with 2.1 times the expected area: 50 x 105 pixels
    // against an expectation of 2500 square pixels.  It must not be taken.
    let contours = vec![rectangle(345, 215, 395, 320)];
    assert_eq!(contour_area(&contours[0]), 5250 * SCALE);
    let r = get_best_fit_contour(&contours, 2500 * SCALE);
    assert_eq!(r, None);
}

#[test]
fn best_fit_rejects_less_than_half_of_the_expected_area() {
    let contours = vec![rectangle(0, 0, 10, 10)];
    let r = get_best_fit_contour(&contours, 201 * SCALE);
    assert_eq!(r, None);
}

#[test]
fn best_fit_takes_the_band_edges_inclusively() {
    // Exactly half of the expected area, and exactly one and a half times.
    let contours = vec![rectangle(0, 0, 10, 10)];
    assert!(get_best_fit_contour(&contours, 200 * SCALE).is_some());
    let r = get_best_fit_contour(&contours, 200 * SCALE).unwrap();
    assert_eq!(r.0, 0);
    let contours2 = vec![rectangle(0, 0, 30, 10)];
    assert_eq!(contour_area(&contours2[0]), 300 * SCALE);
    assert!(get_best_fit_contour(&contours2, 200 * SCALE).is_some());
}

#[test]
fn best_fit_prefers_the_closer_area_and_the_earlier_tie() {
    let far = rectangle(0, 0, 12, 10);  // 120 square pixels
    let near = rectangle(20, 0, 30, 10);  // 100 square pixels
    let contours = vec![far.clone(), near, far];
    let r = get_best_fit_contour(&contours, 101 * SCALE).unwrap();
    assert_eq!(r.0, 1);
    let tie = vec![rectangle(0, 0, 10, 10), rectangle(20, 0, 30, 10)];
    let r2 = get_best_fit_contour(&tie, 100 * SCALE).unwrap();
    assert_eq!(r2.0, 0);
}

#[test]
fn best_fit_skips_contours_without_points() {
    let contours = vec![Vec::new(), rectangle(0, 0, 10, 10)];
    let r = get_best_fit_contour(&contours, 100 * SCALE).unwrap();
    assert_eq!(r, (1, SCALE));
}

#[test]
fn certainty_clamps_to_one_below_five_hundred_square_pixels_of_distance() {
    let contours = vec![rectangle(0, 0, 10, 10)];
    let r = get_best_fit_contour(&contours, 200 * SCALE).unwrap();
    assert_eq!(r.1, SCALE);
}

#[test]
fn certainty_is_half_at_a_thousand_square_pixels_of_distance() {
    let contours = vec![rectangle(0, 0, 110, 10)];
    assert_eq!(contour_area(&contours[0]), 1100 * SCALE);
    let r = get_best_fit_contour(&contours, 2100 * SCALE).unwrap();
    assert_eq!(r.1, 500_000);
}

#[test]
fn empty_contour_set_detects_nothing() {
    let p_c = PointConverter::new(640, 480);
    let mut detector = NaiveDetector::new(test_hat(2500 * SCALE));
    detector.detect_new_position(&Vec::new(), None, &p_c);
    assert_eq!(detector.get_detected_position(), None);
    assert_eq!(detector.get_detection_certainty(), 0);
}

#[test]
fn detection_reports_centroid_angle_and_certainty() {
    // A 50 x 50 square whose Cartesian centroid is (50, 0): corners map to
    // (25, 25), (75, 25), (75, -25), (25, -25).
    let p_c = PointConverter::new(640, 480);
    let mut detector = NaiveDetector::new(test_hat(2500 * SCALE));
    let contours = vec![rectangle(345, 215, 395, 265)];
    detector.detect_new_position(&contours, None, &p_c);
    assert_eq!(detector.get_detected_position(), Some(GeometricPoint::new(50, 0)));
    assert_eq!(detector.get_detection_certainty(), SCALE);
    // The first corner is the side point A, its reflection picks the
    // opposite corner as B, and the normal of the joining diagonal has the
    // fixed-point arctangent of minus one.
    assert_eq!(detector.get_detected_angle(), Some(-785_398));
}

#[test]
fn detection_without_a_qualifying_contour_keeps_the_previous_angle() {
    let p_c = PointConverter::new(640, 480);
    let mut detector = NaiveDetector::new(test_hat(2500 * SCALE));
    let contours = vec![rectangle(345, 215, 395, 265)];
    detector.detect_new_position(&contours, None, &p_c);
    assert_eq!(detector.get_detected_angle(), Some(-785_398));
    detector.detect_new_position(&Vec::new(), None, &p_c);
    assert_eq!(detector.get_detected_position(), None);
    assert_eq!(detector.get_detection_certainty(), 0);
    assert_eq!(detector.get_detected_angle(), Some(-785_398));
}

#[test]
fn vertical_marker_axis_reports_the_half_pi_sentinel() {
    // A diamond around Cartesian (50, 0): the closest point to the center
    // and the closest point to its reflection share their y coordinate, so
    // the orientation is the vertical sentinel.
    let p_c = PointConverter::new(640, 480);
    // Diamond corners in Cartesian space: (45,0), (50,30), (55,0), (50,-30);
    // the expected area is the diamond's own, so the match is exact.
    let contour = vec![
        RasterPoint::new(365, 240),
        RasterPoint::new(370, 210),
        RasterPoint::new(375, 240),
        RasterPoint::new(370, 270),
    ];
    let area = contour_area(&contour);
    let mut detector = NaiveDetector::new(test_hat(area));
    let contours = vec![contour];
    detector.detect_new_position(&contours, None, &p_c);
    assert_eq!(detector.get_detected_position(), Some(GeometricPoint::new(50, 0)));
    assert_eq!(detector.get_detected_angle(), Some(1_570_796));
}

#[test]
fn angle_always_lies_in_the_orientation_range() {
    let p_c = PointConverter::new(640, 480);
    let shapes = vec![
        rectangle(345, 215, 395, 265),
        rectangle(0, 0, 50, 50),
        rectangle(100, 200, 150, 250),
        vec![
            RasterPoint::new(365, 240),
            RasterPoint::new(370, 210),
            RasterPoint::new(375, 240),
            RasterPoint::new(370, 270),
        ],
    ];
    for shape in shapes {
        let area = contour_area(&shape);
        let mut detector = NaiveDetector::new(test_hat(area.max(1)));
        let contours = vec![shape];
        detector.detect_new_position(&contours, None, &p_c);
        let angle = detector.get_detected_angle().unwrap();
        assert!(-1_570_796 < angle && angle <= 1_570_796);
    }
}
