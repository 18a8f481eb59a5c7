//! Configuration snapshots and the analysis parameters derived from them.

use vstd::prelude::*;

verus! {

/// Length of the time span that one image covers, in seconds.
pub const FRAME_DURATION_SECONDS: u32 = 120;

/// Largest analysis window that a generation accepts; its transform size
/// then stays within 2^31.
pub const MAX_WINDOW_SIZE: u64 = 2147483648;

/// Why a configuration snapshot cannot start a generation.
#[derive(Debug, Clone, Copy, PartialEq, Eq, Structural)]
pub enum ConfigError {
    /// The sample rate is zero.
    ZeroSampleRate,
    /// The low frequency is not below the high one, or the high one lies
    /// above half the sample rate.
    InvalidFrequencyRange,
    /// The image has no columns.
    ZeroImageWidth,
    /// Fewer samples fall on one image column than make a usable window.
    DegenerateWindow,
    /// The analysis window is larger than `MAX_WINDOW_SIZE`.
    WindowTooLarge,
    /// The transform has too few bins to spread the frequency axis over.
    DegenerateTransform,
    /// The settings lack one of the two image dimensions or frequency bounds.
    IncompleteSettings,
}

/// What the capture stage needs of a configuration snapshot.
pub struct AudioConfig {
    pub device_name: String,
    pub sample_rate: u32,
    pub channel_count: u16,
}

/// What the transform stage and the renderer need of a configuration
/// snapshot.
#[derive(Debug, Clone, Copy, PartialEq, Eq, Structural)]
pub struct DisplayConfig {
    pub image_width: u32,
    pub image_height: u32,
    pub frequency_low: u32,
    pub frequency_high: u32,
    pub frame_duration_seconds: u32,
}

impl AudioConfig {
    /// A copy of this snapshot.
    pub fn snapshot(&self) -> (r: AudioConfig)
        ensures
            r == *self,
    {
        AudioConfig {
            device_name: self.device_name.clone(),
            sample_rate: self.sample_rate,
            channel_count: self.channel_count,
        }
    }

    /// A single-channel snapshot of the given device and rate.
    pub fn new(device_name: String, sample_rate: u32) -> (r: AudioConfig)
        ensures
            r.device_name == device_name,
            r.sample_rate == sample_rate,
            r.channel_count == 1,
    {
        AudioConfig { device_name, sample_rate, channel_count: 1 }
    }
}

impl DisplayConfig {
    /// A snapshot of the image geometry and frequency range, over the fixed
    /// time span of one image.
    pub fn new(image_width: u32, image_height: u32, frequency_low: u32, frequency_high: u32) -> (r:
        DisplayConfig)
        ensures
            r == (DisplayConfig {
                image_width,
                image_height,
                frequency_low,
                frequency_high,
                frame_duration_seconds: FRAME_DURATION_SECONDS,
            }),
    {
        DisplayConfig {
            image_width,
            image_height,
            frequency_low,
            frequency_high,
            frame_duration_seconds: FRAME_DURATION_SECONDS,
        }
    }
}

/// `n` is a power of two.
pub open spec fn is_power_of_two(n: nat) -> bool
    decreases n,
{
    if n == 1 {
        true
    } else if n < 2 || n % 2 != 0 {
        false
    } else {
        is_power_of_two(n / 2)
    }
}

/// `f` is the smallest power of two that is at least `w`.
pub open spec fn is_least_power_of_two_at_least(f: nat, w: nat) -> bool {
    &&& is_power_of_two(f)
    &&& w <= f
    &&& (f == 1 || f / 2 < w)
}

/// Samples kept from one window to the next: `spp * 0.33`, rounded to the
/// nearest integer, halves upwards.
pub open spec fn overlap_of(spp: int) -> int {
    (spp * 33 + 50) / 100
}

/// Smallest power of two not below `w`.
pub fn next_power_of_two(w: u64) -> (r: u64)
    requires
        w <= MAX_WINDOW_SIZE,
    ensures
        is_least_power_of_two_at_least(r as nat, w as nat),
{
    let mut f: u64 = 1;
    while f < w
        invariant
            is_power_of_two(f as nat),
            f == 1 || f / 2 < w,
            1 <= f <= MAX_WINDOW_SIZE,
            w <= MAX_WINDOW_SIZE,
        decreases MAX_WINDOW_SIZE - f,
    {
        proof {
            lemma_power_of_two_below_bound(f as nat);
        }
        f = f * 2;
        assert(is_power_of_two(f as nat)) by {
            assert((f as nat) / 2 == (f / 2) as nat);
        }
    }
    f
}

/// A power of two below another power of two is at most half of it.
proof fn lemma_power_of_two_below(f: nat, m: nat)
    requires
        is_power_of_two(f),
        is_power_of_two(m),
        f < m,
    ensures
        2 * f <= m,
    decreases f,
{
    if f > 1 {
        lemma_power_of_two_below(f / 2, m / 2);
    }
}

/// A power of two below `MAX_WINDOW_SIZE` is at most half of it.
proof fn lemma_power_of_two_below_bound(f: nat)
    requires
        is_power_of_two(f),
        f < MAX_WINDOW_SIZE,
    ensures
        2 * f <= MAX_WINDOW_SIZE,
{
    reveal_with_fuel(is_power_of_two, 33);
    assert(is_power_of_two(MAX_WINDOW_SIZE as nat));
    lemma_power_of_two_below(f, MAX_WINDOW_SIZE as nat);
}

/// The sizes of the analysis window of one generation.
#[derive(Debug, Clone, Copy, PartialEq, Eq, Structural)]
pub struct WindowGeometry {
    /// Samples that fall on one image column.
    pub samples_per_pixel_x: u64,
    /// Samples that one window shares with the next.
    pub overlap_samples: u64,
    /// Samples in one window.
    pub window_size: u64,
    /// Samples by which one window advances over the previous one.
    pub shift_size: u64,
    /// Length of the transform, the window padded with zeros.
    pub fft_size: u64,
}

/// Samples in one window for `spp` samples per image column.
pub open spec fn window_size_of(spp: int) -> int {
    spp + 2 * overlap_of(spp)
}

/// The error, if any, that `window_geometry(spp)` reports.
pub open spec fn geometry_error(spp: int) -> Option<ConfigError> {
    if spp == 0 {
        Some(ConfigError::DegenerateWindow)
    } else if window_size_of(spp) > MAX_WINDOW_SIZE {
        Some(ConfigError::WindowTooLarge)
    } else if window_size_of(spp) <= 2 {
        Some(ConfigError::DegenerateTransform)
    } else {
        None
    }
}

/// `g` holds the window sizes that `spp` samples per image column give.
pub open spec fn geometry_of(g: WindowGeometry, spp: int) -> bool {
    &&& g.samples_per_pixel_x == spp
    &&& g.overlap_samples == overlap_of(spp)
    &&& g.window_size == window_size_of(spp)
    &&& g.shift_size == g.window_size - g.overlap_samples
    &&& is_least_power_of_two_at_least(g.fft_size as nat, g.window_size as nat)
}

/// No power of two lies strictly between 2 and 4.
proof fn lemma_three_is_no_power_of_two()
    ensures
        !is_power_of_two(3),
{
    reveal_with_fuel(is_power_of_two, 2);
}

/// The window sizes for `spp` samples per image column: the overlap is a
/// third of a column (`spp * 0.33`, rounded), a window spans a column and an
/// overlap on each side, and the transform length is the next power of two.
pub fn window_geometry(spp: u64) -> (r: Result<WindowGeometry, ConfigError>)
    ensures
        match r {
            Ok(g) => geometry_error(spp as int) is None && geometry_of(g, spp as int) && g.fft_size
                >= 4 && g.window_size >= 3 && g.overlap_samples < g.window_size,
            Err(e) => geometry_error(spp as int) == Some(e),
        },
{
    if spp == 0 {
        return Err(ConfigError::DegenerateWindow);
    }
    if spp > MAX_WINDOW_SIZE {
        return Err(ConfigError::WindowTooLarge);
    }
    let overlap: u64 = (spp * 33 + 50) / 100;
    if overlap > (MAX_WINDOW_SIZE - spp) / 2 {
        return Err(ConfigError::WindowTooLarge);
    }
    let window_size: u64 = spp + 2 * overlap;
    if window_size <= 2 {
        return Err(ConfigError::DegenerateTransform);
    }
    let fft_size = next_power_of_two(window_size);
    proof {
        lemma_three_is_no_power_of_two();
    }
    Ok(
        WindowGeometry {
            samples_per_pixel_x: spp,
            overlap_samples: overlap,
            window_size,
            shift_size: window_size - overlap,
            fft_size,
        },
    )
}

/// Everything one generation derives from its configuration snapshot.
#[derive(Debug, Clone, Copy, PartialEq, Eq, Structural)]
pub struct GenerationParams {
    /// Samples in the time span of one image.
    pub samples_per_frame: u64,
    /// Sizes of the analysis window.
    pub window: WindowGeometry,
    /// Hertz per transform bin, in whole numbers.
    pub freq_per_bin: u64,
    /// First bin of the displayed band, for the renderer.
    pub sample_first_bin: u64,
    /// Last bin of the displayed band, for the renderer.
    pub sample_last_bin: u64,
}

/// The error, if any, that a snapshot of rate `rate` and display `d` gives.
pub open spec fn config_error(rate: u32, d: DisplayConfig) -> Option<ConfigError> {
    if rate == 0 {
        Some(ConfigError::ZeroSampleRate)
    } else if !(d.frequency_low < d.frequency_high && d.frequency_high <= rate / 2) {
        Some(ConfigError::InvalidFrequencyRange)
    } else if d.image_width == 0 {
        Some(ConfigError::ZeroImageWidth)
    } else {
        geometry_error((rate as int * d.frame_duration_seconds as int) / (d.image_width as int))
    }
}

/// `p` holds what a snapshot of rate `rate` and display `d` gives.
pub open spec fn params_of(p: GenerationParams, rate: u32, d: DisplayConfig) -> bool {
    &&& p.samples_per_frame == rate as int * d.frame_duration_seconds as int
    &&& geometry_of(p.window, p.samples_per_frame as int / (d.image_width as int))
    &&& p.freq_per_bin == (rate as int / 2) / (p.window.fft_size / 2 - 1)
    &&& p.sample_first_bin == p.freq_per_bin * d.frequency_low
    &&& p.sample_last_bin == p.freq_per_bin * d.frequency_high
}

/// The parameters of a generation, or the reason why the snapshot cannot
/// start one.
pub fn derive_params(audio: &AudioConfig, display: &DisplayConfig) -> (r: Result<
    GenerationParams,
    ConfigError,
>)
    ensures
        match r {
            Ok(p) => config_error(audio.sample_rate, *display) is None && params_of(
                p,
                audio.sample_rate,
                *display,
            ),
            Err(e) => config_error(audio.sample_rate, *display) == Some(e),
        },
{
    let rate = audio.sample_rate;
    if rate == 0 {
        return Err(ConfigError::ZeroSampleRate);
    }
    if !(display.frequency_low < display.frequency_high && display.frequency_high <= rate / 2) {
        return Err(ConfigError::InvalidFrequencyRange);
    }
    if display.image_width == 0 {
        return Err(ConfigError::ZeroImageWidth);
    }
    let r64 = rate as u64;
    let d64 = display.frame_duration_seconds as u64;
    assert(r64 * d64 <= 0xffff_ffffu64 * 0xffff_ffffu64) by (nonlinear_arith)
        requires
            r64 <= 0xffff_ffffu64,
            d64 <= 0xffff_ffffu64,
    ;
    let samples_per_frame: u64 = r64 * d64;
    let spp: u64 = samples_per_frame / (display.image_width as u64);
    let window = match window_geometry(spp) {
        Ok(g) => g,
        Err(e) => {
            return Err(e);
        },
    };
    let half_rate: u64 = (rate / 2) as u64;
    let bins: u64 = window.fft_size / 2 - 1;
    let freq_per_bin: u64 = half_rate / bins;
    assert(freq_per_bin <= half_rate) by (nonlinear_arith)
        requires
            freq_per_bin == half_rate / bins,
            bins >= 1,
    ;
    let low = display.frequency_low as u64;
    let high = display.frequency_high as u64;
    assert(freq_per_bin * high <= 0x8000_0000u64 * 0xffff_ffffu64) by (nonlinear_arith)
        requires
            freq_per_bin <= 0x8000_0000u64,
            high <= 0xffff_ffffu64,
    ;
    assert(freq_per_bin * low <= freq_per_bin * high) by (nonlinear_arith)
        requires
            low < high,
    ;
    Ok(
        GenerationParams {
            samples_per_frame,
            window,
            freq_per_bin,
            sample_first_bin: freq_per_bin * low,
            sample_last_bin: freq_per_bin * high,
        },
    )
}

} // verus!
