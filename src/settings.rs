//! The user's settings that the pipeline reads, their defaults, the bounds
//! that command-line values must keep, and the snapshots taken from them.

use vstd::prelude::*;
use crate::params::{AudioConfig, ConfigError, DisplayConfig, FRAME_DURATION_SECONDS};

verus! {

/// Input device settings.
pub struct Audio {
    /// Name of the input device.
    pub device: String,
    /// Sample rate in hertz.
    pub rate: u32,
    /// Lowest and highest frequency shown, in hertz.
    pub freq_range: Vec<u32>,
}

impl Default for Audio {
    fn default() -> (r: Audio)
        ensures
            r.device@ == "default"@,
            r.rate == 48000,
            r.freq_range@ == seq![100u32, 2800u32],
    {
        let freq_range: Vec<u32> = vec![100, 2800];
        Audio { device: "default".to_string(), rate: 48000, freq_range }
    }
}

/// Image settings.
pub struct Image {
    pub brightness: u8,
    pub contrast: u8,
    /// Width and height in pixels.
    pub dimensions: Vec<u32>,
    /// Take the dimensions of the display window instead.
    pub use_window_xy: bool,
}

impl Default for Image {
    fn default() -> (r: Image)
        ensures
            r.brightness == 50,
            r.contrast == 50,
            r.dimensions@ == seq![1280u32, 720u32],
            !r.use_window_xy,
    {
        let dimensions: Vec<u32> = vec![1280, 720];
        Image { brightness: 50, contrast: 50, dimensions, use_window_xy: false }
    }
}

/// File name stems of the exported images.
pub struct Names {
    pub single: String,
    pub average: String,
    pub peak: String,
    pub hour: String,
    pub day: String,
}

impl Default for Names {
    fn default() -> (r: Names)
        ensures
            r.single@ == "single"@,
            r.average@ == "avg"@,
            r.peak@ == "pk"@,
            r.hour@ == "hr"@,
            r.day@ == "day"@,
    {
        Names {
            single: "single".to_string(),
            average: "avg".to_string(),
            peak: "pk".to_string(),
            hour: "hr".to_string(),
            day: "day".to_string(),
        }
    }
}

impl Audio {
    /// The capture stage's snapshot of these settings.
    pub fn audio_config(&self) -> (r: AudioConfig)
        ensures
            r.device_name == self.device,
            r.sample_rate == self.rate,
            r.channel_count == 1,
    {
        AudioConfig::new(self.device.clone(), self.rate)
    }
}

/// The display snapshot of these settings: the first two image dimensions
/// and frequency bounds, over the fixed time span of one image.
pub fn display_config(audio: &Audio, image: &Image) -> (r: Result<DisplayConfig, ConfigError>)
    ensures
        r is Err <==> image.dimensions@.len() < 2 || audio.freq_range@.len() < 2,
        r matches Err(e) ==> e == ConfigError::IncompleteSettings,
        r matches Ok(d) ==> d == (DisplayConfig {
            image_width: image.dimensions@[0],
            image_height: image.dimensions@[1],
            frequency_low: audio.freq_range@[0],
            frequency_high: audio.freq_range@[1],
            frame_duration_seconds: FRAME_DURATION_SECONDS,
        }),
{
    if image.dimensions.len() < 2 || audio.freq_range.len() < 2 {
        return Err(ConfigError::IncompleteSettings);
    }
    Ok(
        DisplayConfig::new(
            image.dimensions[0],
            image.dimensions[1],
            audio.freq_range[0],
            audio.freq_range[1],
        ),
    )
}

/// Lowest frequency bound accepted on the command line, in hertz.
pub const MIN_FREQUENCY_ARG: u16 = 50;

/// Highest frequency bound accepted on the command line, in hertz.
pub const MAX_FREQUENCY_ARG: u16 = 3000;

/// Smallest image dimension accepted on the command line.
pub const MIN_DIMENSION_ARG: u32 = 480;

/// Largest image dimension accepted on the command line.
pub const MAX_DIMENSION_ARG: u32 = 3000;

/// Largest brightness or contrast accepted on the command line.
pub const MAX_PERCENT_ARG: u8 = 100;

/// A frequency bound given on the command line is within range.
pub fn frequency_arg_ok(v: u16) -> (r: bool)
    ensures
        r == (MIN_FREQUENCY_ARG <= v <= MAX_FREQUENCY_ARG),
{
    MIN_FREQUENCY_ARG <= v && v <= MAX_FREQUENCY_ARG
}

/// An image dimension given on the command line is within range.
pub fn dimension_arg_ok(v: u32) -> (r: bool)
    ensures
        r == (MIN_DIMENSION_ARG <= v <= MAX_DIMENSION_ARG),
{
    MIN_DIMENSION_ARG <= v && v <= MAX_DIMENSION_ARG
}

/// A brightness or contrast given on the command line is within range.
pub fn percent_arg_ok(v: u8) -> (r: bool)
    ensures
        r == (v <= MAX_PERCENT_ARG),
{
    v <= MAX_PERCENT_ARG
}

/// The verbosity that the number of `-v` flags asks for: at most 2.
pub fn verbosity(occurrences: u64) -> (r: u8)
    ensures
        r as u64 == if occurrences < 2 {
            occurrences
        } else {
            2
        },
{
    if occurrences < 2 {
        occurrences as u8
    } else {
        2
    }
}

/// Two frequency bounds, lower first.
pub fn ordered_range(a: u32, b: u32) -> (r: (u32, u32))
    ensures
        r.0 <= r.1,
        (r.0 == a && r.1 == b) || (r.0 == b && r.1 == a),
{
    if a <= b {
        (a, b)
    } else {
        (b, a)
    }
}

} // verus!
