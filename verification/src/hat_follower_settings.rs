use vstd::prelude::*;

use crate::fixed::SCALE;

verus! {

/// Settings for `HatFollower`.  The numeric fields are fixed-point values.
pub struct HatFollowerSettings {
    /// Radius of the circle around the frame center within which the
    /// marker counts as centered, in fixed-point pixels: inside it no
    /// correction command is computed.
    pub center_threshold: i64,
    /// Minimum L1 distance between the newly computed command and the last
    /// issued one for a new command to be issued at all.
    pub min_change: i64,
    /// Over how many frames, as a time measure, the marker should be
    /// brought to the center; the inverse of the proportional gain, in
    /// fixed-point frames.
    pub frames_to_be_centered: i64,
    /// The video file the annotated frames go to, if any.
    pub save_to_file: Option<String>,
    /// The text file the issued commands go to, if any, one row per
    /// command with its frame number.
    pub save_commands: Option<String>,
    /// Whether the frames should be shown on screen as they come.
    pub show_video: bool,
    /// Whether the detector's markers should be drawn on the video.
    pub draw_detection: bool,
    /// Whether the filter's markers should be drawn on the video.
    pub draw_filter: bool,
    /// Whether the centering circle should be drawn on the video.
    pub draw_center: bool,
    /// Experimental: subtract the marker's estimated velocity from the
    /// desired one before scaling, to counteract its motion.
    pub counteract_velocity: bool,
    /// Turn only when above the target.
    pub turn_only_when_centered: bool,
}

impl HatFollowerSettings {
    /// The thresholds are nonnegative and the settle time covers at least
    /// something, so the proportional division is defined.
    pub open spec fn wf(&self) -> bool {
        &&& self.center_threshold >= 0
        &&& self.min_change >= 0
        &&& self.frames_to_be_centered >= 1
    }

    /// Settings with the default behavior: show the video, save nothing,
    /// draw nothing.
    pub fn new() -> (r: HatFollowerSettings)
        ensures
            r.center_threshold == 5 * SCALE,
            r.min_change == 3 * SCALE / 10,
            r.frames_to_be_centered == 10 * SCALE,
            r.save_to_file is None,
            r.save_commands is None,
            r.show_video,
            !r.draw_detection,
            !r.draw_filter,
            !r.draw_center,
            !r.counteract_velocity,
            r.turn_only_when_centered,
            r.wf(),
    {
        HatFollowerSettings {
            center_threshold: 5 * SCALE,
            min_change: 3 * SCALE / 10,
            frames_to_be_centered: 10 * SCALE,
            save_to_file: Option::None,
            save_commands: Option::None,
            show_video: true,
            draw_detection: false,
            draw_filter: false,
            draw_center: false,
            counteract_velocity: false,
            turn_only_when_centered: true,
        }
    }

    /// Settings with full debug behavior: show the video, save the video
    /// and the commands, draw everything.
    pub fn debug() -> (r: HatFollowerSettings)
        ensures
            r.center_threshold == 5 * SCALE,
            r.min_change == 3 * SCALE / 10,
            r.frames_to_be_centered == 10 * SCALE,
            r.save_to_file matches Option::Some(f) && f@ == "debug_video.mp4"@,
            r.save_commands matches Option::Some(f) && f@ == "debug_commands.txt"@,
            r.show_video,
            r.draw_detection,
            r.draw_filter,
            r.draw_center,
            !r.counteract_velocity,
            r.turn_only_when_centered,
            r.wf(),
    {
        HatFollowerSettings {
            center_threshold: 5 * SCALE,
            min_change: 3 * SCALE / 10,
            frames_to_be_centered: 10 * SCALE,
            save_to_file: Option::Some("debug_video.mp4".to_string()),
            save_commands: Option::Some("debug_commands.txt".to_string()),
            show_video: true,
            draw_detection: true,
            draw_filter: true,
            draw_center: true,
            counteract_velocity: false,
            turn_only_when_centered: true,
        }
    }

    /// Settings with silent behavior: no video, no saving, no drawing.
    pub fn silent() -> (r: HatFollowerSettings)
        ensures
            r.center_threshold == 5 * SCALE,
            r.min_change == 3 * SCALE / 10,
            r.frames_to_be_centered == 10 * SCALE,
            r.save_to_file is None,
            r.save_commands is None,
            !r.show_video,
            !r.draw_detection,
            !r.draw_filter,
            !r.draw_center,
            !r.counteract_velocity,
            r.turn_only_when_centered,
            r.wf(),
    {
        HatFollowerSettings {
            center_threshold: 5 * SCALE,
            min_change: 3 * SCALE / 10,
            frames_to_be_centered: 10 * SCALE,
            save_to_file: Option::None,
            save_commands: Option::None,
            show_video: false,
            draw_detection: false,
            draw_filter: false,
            draw_center: false,
            counteract_velocity: false,
            turn_only_when_centered: true,
        }
    }
}

} // verus!
