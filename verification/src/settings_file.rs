//! The parts of a danser settings file that hold no fractional values.
//!
//! Field names follow the file's keys in snake case.

use vstd::prelude::*;

verus! {

/// Paths and general switches of danser.
#[derive(Default, Debug, Clone, PartialEq)]
pub struct General {
    pub osu_songs_dir: String,
    pub osu_skins_dir: String,
    pub discord_presence_on: bool,
    pub unpack_osz_files: bool,
}

/// Window and rendering options.
#[derive(Default, Debug, Clone, PartialEq)]
pub struct Graphics {
    pub width: i64,
    pub height: i64,
    pub window_width: i64,
    pub window_height: i64,
    pub fullscreen: bool,
    pub vsync: bool,
    pub fpscap: i64,
    pub msaa: i64,
    pub show_fps: bool,
    pub experimental: Experimental,
}

/// Experimental rendering switches.
#[derive(Default, Debug, Clone, PartialEq)]
pub struct Experimental {
    pub use_persistent_buffers: bool,
}

/// Audio buffer sizes used on Linux and Unix.
#[derive(Default, Debug, Clone, PartialEq)]
pub struct LinuxUnix {
    pub bass_playback_buffer_length: i64,
    pub bass_device_buffer_length: i64,
    pub bass_update_period: i64,
    pub bass_device_update_period: i64,
}

/// Key bindings and mouse options.
#[derive(Default, Debug, Clone, PartialEq)]
pub struct Input {
    pub left_key: String,
    pub right_key: String,
    pub restart_key: String,
    pub smoke_key: String,
    pub mouse_buttons_disabled: bool,
    pub mouse_high_precision: bool,
    pub mouse_sensitivity: i64,
}

/// The aim error meter of the overlay.
#[derive(Default, Debug, Clone, PartialEq)]
pub struct AimErrorMeter {
    pub show: bool,
    pub scale: u64,
    pub opacity: i64,
    pub xposition: i64,
    pub yposition: i64,
    pub dot_scale: i64,
    pub align: String,
    pub show_unstable_rate: bool,
    pub unstable_rate_scale: i64,
    pub unstable_rate_decimals: u64,
    pub cap_positional_misses: bool,
    pub angle_normalized: bool,
}

/// The score display of the overlay.
#[derive(Default, Debug, Clone, PartialEq)]
pub struct Score {
    pub show: bool,
    pub scale: i64,
    pub opacity: i64,
    pub xoffset: i64,
    pub yoffset: i64,
    pub progress_bar: String,
    pub show_grade_always: bool,
}

/// Placement of an overlay element.
#[derive(Default, Debug, Clone, PartialEq)]
pub struct Container {
    pub show: bool,
    pub scale: i64,
    pub opacity: i64,
    pub xoffset: i64,
    pub yoffset: i64,
}

/// The leaderboard of the overlay.
#[derive(Default, Debug, Clone, PartialEq)]
pub struct ScoreBoard {
    pub show: bool,
    pub scale: i64,
    pub opacity: i64,
    pub xoffset: i64,
    pub yoffset: i64,
    pub align_right: bool,
    pub hide_others: bool,
    pub show_avatars: bool,
    pub explosion_scale: i64,
}

/// The mod icons of the overlay.
#[derive(Default, Debug, Clone, PartialEq)]
pub struct Mods {
    pub show: bool,
    pub scale: i64,
    pub opacity: i64,
    pub xoffset: i64,
    pub yoffset: i64,
    pub hide_in_replays: bool,
    pub fold_in_replays: bool,
}

/// How sliders are drawn.
#[derive(Default, Debug, Clone, PartialEq)]
pub struct Sliders {
    pub force_slider_ball_texture: bool,
    pub draw_end_circles: bool,
    pub draw_slider_follow_circle: bool,
    pub draw_score_points: bool,
    pub slider_merge: bool,
    pub slider_distortions: bool,
    pub border_width: i64,
    pub quality: Quality,
    pub snaking: Snaking,
}

/// Level of detail of circles and slider paths.
#[derive(Default, Debug, Clone, PartialEq)]
pub struct Quality {
    pub circle_level_of_detail: i64,
    pub path_level_of_detail: i64,
}

/// Snaking of sliders in and out.
#[derive(Default, Debug, Clone, PartialEq)]
pub struct Snaking {
    pub in_field: bool,
    pub out: bool,
    pub out_fade_instant: bool,
    pub duration_multiplier: i64,
    pub fade_multiplier: i64,
}

/// The seizure warning shown before a map.
#[derive(Default, Debug, Clone, PartialEq)]
pub struct SeizureWarning {
    pub enabled: bool,
    pub duration: i64,
}

/// Background parallax.
#[derive(Default, Debug, Clone, PartialEq)]
pub struct Parallax {
    pub amount: i64,
    pub speed: i64,
}

/// The background triangles.
#[derive(Default, Debug, Clone, PartialEq)]
pub struct Triangles {
    pub enabled: bool,
    pub shadowed: bool,
    pub draw_over_blur: bool,
    pub parallax_multiplier: i64,
    pub density: i64,
    pub scale: i64,
    pub speed: i64,
}

/// One cursor mover of cursor dance.
#[derive(Default, Debug, Clone, PartialEq)]
pub struct Mover {
    pub mover: String,
    pub slider_dance: bool,
    pub random_slider_dance: bool,
}

/// One spinner mover of cursor dance.
#[derive(Default, Debug, Clone, PartialEq)]
pub struct Spinner {
    pub mover: String,
    pub radius: i64,
}

/// Options of the bezier mover.
#[derive(Default, Debug, Clone, PartialEq)]
pub struct Bezier {
    pub aggressiveness: i64,
    pub slider_aggressiveness: i64,
}

/// Options of the half-circle mover.
#[derive(Default, Debug, Clone, PartialEq)]
pub struct HalfCircle {
    pub radius_multiplier: i64,
    pub stream_trigger: i64,
}

/// Options of the exgon mover.
#[derive(Default, Debug, Clone, PartialEq)]
pub struct ExGon {
    pub delay: i64,
}

/// Options of the linear mover.
#[derive(Default, Debug, Clone, PartialEq)]
pub struct Linear {
    pub wait_for_preempt: bool,
    pub reaction_time: i64,
    pub choppy_long_objects: bool,
}

/// Options of knockout mode.
#[derive(Default, Debug, Clone, PartialEq)]
pub struct Knockout {
    pub mode: i64,
    pub exclude_mods: String,
    pub hide_mods: String,
    pub max_players: i64,
    pub bubble_minimum_combo: i64,
    pub revive_players_at_end: bool,
    pub live_sort: bool,
    pub sort_by: String,
    pub hide_overlay_on_breaks: bool,
    pub min_cursor_size: i64,
    pub max_cursor_size: i64,
    pub add_danser: bool,
    pub danser_name: String,
}

} // verus!
