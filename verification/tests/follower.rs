use rust_drone_follow::detectors::naive_detector::NaiveDetector;
use rust_drone_follow::filters::memory_filter::MemoryFilter;
use rust_drone_follow::fixed::SCALE;
use rust_drone_follow::hat::Hat;
use rust_drone_follow::hat_follower_settings::HatFollowerSettings;
use rust_drone_follow::lab_color::LabColor;
use rust_drone_follow::point_converter::RasterPoint;
use rust_drone_follow::HatFollower;

fn rectangle(x0: i32, y0: i32, x1: i32, y1: i32) -> Vec<RasterPoint> {
    vec![
        RasterPoint::new(x0, y0),
        RasterPoint::new(x1, y0),
        RasterPoint::new(x1, y1),
        RasterPoint::new(x0, y1),
    ]
}

fn follower_for_square_marker() -> HatFollower<NaiveDetector, MemoryFilter> {
    // The marker is a 50 x 50 square, 2500 square pixels.
    let hat = Hat::new(LabColor::new(0, 20, -127), LabColor::new(80, 127, -20), 2500 * SCALE);
    HatFollower::new(
        NaiveDetector::new(hat),
        MemoryFilter::new(3),
        HatFollowerSettings::new(),
        640,
        480,
    )
}

// A square whose Cartesian centroid is (50, 0), detected with certainty one.
fn square_at_50_0() -> Vec<Vec<RasterPoint>> {
    vec![rectangle(345, 215, 395, 265)]
}

#[test]
fn ten_identical_frames_issue_exactly_one_command() {
    // The detector reports (50, 0) for ten consecutive frames with a
    // center threshold of five pixels, ten frames to be centered and unit
    // calibration: the lateral command is the clamped 50 / 10, issued on
    // the first frame and suppressed by the debounce rule afterwards.
    let mut follower = follower_for_square_marker();
    let contours = square_at_50_0();
    let mut issued = 0;
    for frame in 0..10 {
        let command = follower.process_frame(&contours, SCALE, SCALE);
        if frame == 0 {
            // Lateral speed saturates at 1.0; the turn command is the
            // clamped angle step toward the detected orientation.
            assert_eq!(command, Some((SCALE, 0, 0, -785_398)));
        } else {
            assert_eq!(command, None);
        }
        if command.is_some() {
            issued += 1;
        }
    }
    assert_eq!(issued, 1);
}

#[test]
fn growing_offset_beyond_the_dead_zone_issues_a_new_command() {
    let mut follower = follower_for_square_marker();
    assert!(follower.process_frame(&square_at_50_0(), SCALE, SCALE).is_some());
    assert!(follower.process_frame(&square_at_50_0(), SCALE, SCALE).is_none());

    // The same square shifted forty pixels up: the vertical offset leaves
    // the dead zone, so the command changes by more than the debounce
    // threshold and goes out.
    let shifted = vec![rectangle(345, 175, 395, 225)];
    let command = follower.process_frame(&shifted, SCALE, SCALE);
    assert_eq!(command, Some((SCALE, SCALE, 0, -785_398)));
}

#[test]
fn an_offset_inside_the_dead_zone_commands_no_motion() {
    // A square centered three pixels from the center: inside the
    // five-pixel dead zone both axis speeds stay zero.
    let mut follower = follower_for_square_marker();
    let near_center = vec![rectangle(298, 215, 348, 265)];
    let command = follower.process_frame(&near_center, SCALE, SCALE);
    // The angle step alone exceeds the debounce threshold, so a command
    // is issued, but with no translation.
    assert_eq!(command, Some((0, 0, 0, -785_398)));
}

#[test]
fn losing_the_marker_stops_the_drift_once_memory_runs_out() {
    let hat = Hat::new(LabColor::new(0, 20, -127), LabColor::new(80, 127, -20), 2500 * SCALE);
    let mut follower = HatFollower::new(
        NaiveDetector::new(hat),
        MemoryFilter::new(0),
        HatFollowerSettings::new(),
        640,
        480,
    );
    assert_eq!(
        follower.process_frame(&square_at_50_0(), SCALE, SCALE),
        Some((SCALE, 0, 0, -785_398))
    );
    // No contours at all: the zero-memory filter drops the position at
    // once and the follower commands a stop, keeping the turn component.
    let command = follower.process_frame(&Vec::new(), SCALE, SCALE);
    assert_eq!(command, Some((0, 0, 0, -785_398)));
}

#[test]
fn memory_keeps_the_command_steady_through_short_gaps() {
    let mut follower = follower_for_square_marker();
    assert!(follower.process_frame(&square_at_50_0(), SCALE, SCALE).is_some());
    // Three frames without a detection: the filter still holds (50, 0),
    // the recomputed command equals the last issued one, and nothing new
    // goes out.
    for _ in 0..3 {
        assert_eq!(follower.process_frame(&Vec::new(), SCALE, SCALE), None);
    }
    // The fourth miss clears the position and the follower orders a stop.
    assert_eq!(follower.process_frame(&Vec::new(), SCALE, SCALE), Some((0, 0, 0, -785_398)));
}

#[test]
fn half_calibration_scales_the_command_down() {
    // With kv at one half, the lateral speed 50 / 10 scales to 2.5 and
    // still clamps to 1.0; a smaller offset of eight pixels gives
    // 8 / 10 * 0.5 = 0.4 exactly.
    let mut follower = follower_for_square_marker();
    let eight_off = vec![rectangle(303, 215, 353, 265)];
    let command = follower.process_frame(&eight_off, SCALE / 2, 0);
    assert_eq!(command, Some((400_000, 0, 0, 0)));
}
