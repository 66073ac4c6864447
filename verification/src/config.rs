//! The configuration: its defaults and the ranges that hand-edited values are brought into.

use vstd::prelude::*;

use crate::audio::{
    is_boost_level, levels_snap_to_themselves, nearest_level, normalize_boost_db,
    snapping_gives_a_level,
};
use crate::text;

verus! {

/// The longest tone, in milliseconds.
pub const MAX_TONE_DURATION_MS: u32 = 5_000;

/// The lowest tone, in hertz.
pub const MIN_TONE_FREQ_HZ: u32 = 20;

/// The highest tone, in hertz.
pub const MAX_TONE_FREQ_HZ: u32 = 20_000;

/// The bits of the volume 0.5.
pub const HALF_VOLUME_BITS: u32 = 0x3f00_0000;

/// The bits of the volume 1.0.
pub const FULL_VOLUME_BITS: u32 = 0x3f80_0000;

/// The bits of minus zero. A number with greater bits is negative or not a number.
pub const MINUS_ZERO_BITS: u32 = 0x8000_0000;

/// The bits of infinity. Without the sign, the bits of every finite number are less.
pub const INFINITY_BITS: u32 = 0x7f80_0000;

/// Sounds. The volume is kept as the bits of an IEEE 754 single-precision number.
#[derive(Debug, Clone, Copy, PartialEq, Eq, Structural)]
pub struct SoundConfig {
    pub enabled: bool,
    pub volume_bits: u32,
    pub freq_high_hz: u32,
    pub freq_low_hz: u32,
    pub duration_ms: u32,
}

#[derive(Debug, Clone, Copy, PartialEq, Eq, Structural)]
pub struct GeneralConfig {
    pub auto_start: bool,
    /// Microphone boost in dB (0, 5, 10).
    pub mic_boost_db: u8,
}

#[derive(Debug, Clone, Copy, PartialEq, Eq, Structural)]
pub struct Config {
    pub sound: SoundConfig,
    pub general: GeneralConfig,
}

/// The number with these bits is neither infinite nor "not a number".
pub open spec fn is_finite(bits: u32) -> bool {
    bits % MINUS_ZERO_BITS < INFINITY_BITS
}

/// The bits of the number nearest to that with these bits among those from 0.0 to 1.0. Minus zero
/// is not less than zero and stays.
pub open spec fn unit_clamped(bits: u32) -> u32 {
    if bits > MINUS_ZERO_BITS {
        0
    } else if bits == MINUS_ZERO_BITS || bits <= FULL_VOLUME_BITS {
        bits
    } else {
        FULL_VOLUME_BITS
    }
}

/// The value nearest to `v` from `low` to `high`.
pub open spec fn clamped(v: u32, low: u32, high: u32) -> u32 {
    if v < low {
        low
    } else if v > high {
        high
    } else {
        v
    }
}

pub open spec fn default_sound() -> SoundConfig {
    SoundConfig {
        enabled: true,
        volume_bits: HALF_VOLUME_BITS,
        freq_high_hz: 1000,
        freq_low_hz: 700,
        duration_ms: 150,
    }
}

pub open spec fn default_config() -> Config {
    Config {
        sound: default_sound(),
        general: GeneralConfig { auto_start: false, mic_boost_db: 0 },
    }
}

impl SoundConfig {
    /// A volume from 0.0 to 1.0, audible tones and a bounded duration.
    pub open spec fn valid(self) -> bool {
        &&& self.volume_bits <= FULL_VOLUME_BITS || self.volume_bits == MINUS_ZERO_BITS
        &&& self.duration_ms <= MAX_TONE_DURATION_MS
        &&& MIN_TONE_FREQ_HZ <= self.freq_high_hz <= MAX_TONE_FREQ_HZ
        &&& MIN_TONE_FREQ_HZ <= self.freq_low_hz <= MAX_TONE_FREQ_HZ
    }

    /// The configuration with every value brought into its range; a volume that is not finite
    /// becomes the default one.
    pub open spec fn sanitized(self) -> SoundConfig {
        SoundConfig {
            enabled: self.enabled,
            volume_bits: if is_finite(self.volume_bits) {
                unit_clamped(self.volume_bits)
            } else {
                default_sound().volume_bits
            },
            freq_high_hz: clamped(self.freq_high_hz, MIN_TONE_FREQ_HZ, MAX_TONE_FREQ_HZ),
            freq_low_hz: clamped(self.freq_low_hz, MIN_TONE_FREQ_HZ, MAX_TONE_FREQ_HZ),
            duration_ms: clamped(self.duration_ms, 0, MAX_TONE_DURATION_MS),
        }
    }

    /// Brings hand-edited values into safe ranges.
    pub fn sanitize(&mut self)
        ensures
            *final(self) == old(self).sanitized(),
            final(self).valid(),
    {
        let finite = self.volume_bits % MINUS_ZERO_BITS < INFINITY_BITS;
        self.volume_bits = if finite {
            if self.volume_bits > MINUS_ZERO_BITS {
                0
            } else if self.volume_bits == MINUS_ZERO_BITS || self.volume_bits <= FULL_VOLUME_BITS {
                self.volume_bits
            } else {
                FULL_VOLUME_BITS
            }
        } else {
            SoundConfig::default().volume_bits
        };
        self.duration_ms = clamp(self.duration_ms, 0, MAX_TONE_DURATION_MS);
        self.freq_high_hz = clamp(self.freq_high_hz, MIN_TONE_FREQ_HZ, MAX_TONE_FREQ_HZ);
        self.freq_low_hz = clamp(self.freq_low_hz, MIN_TONE_FREQ_HZ, MAX_TONE_FREQ_HZ);
    }
}

fn clamp(v: u32, low: u32, high: u32) -> (r: u32)
    ensures
        r == clamped(v, low, high),
{
    if v < low {
        low
    } else if v > high {
        high
    } else {
        v
    }
}

impl Default for SoundConfig {
    fn default() -> (r: Self)
        ensures
            r == default_sound(),
    {
        SoundConfig {
            enabled: true,
            volume_bits: HALF_VOLUME_BITS,
            freq_high_hz: 1000,
            freq_low_hz: 700,
            duration_ms: 150,
        }
    }
}

impl Default for GeneralConfig {
    fn default() -> (r: Self)
        ensures
            r == default_config().general,
    {
        GeneralConfig { auto_start: false, mic_boost_db: 0 }
    }
}

impl Default for Config {
    fn default() -> (r: Self)
        ensures
            r == default_config(),
    {
        Config { sound: SoundConfig::default(), general: GeneralConfig::default() }
    }
}

impl Config {
    /// Valid sounds and a supported boost level.
    pub open spec fn valid(self) -> bool {
        self.sound.valid() && is_boost_level(self.general.mic_boost_db)
    }

    /// The configuration with every value brought into its range.
    pub open spec fn sanitized(self) -> Config {
        Config {
            sound: self.sound.sanitized(),
            general: GeneralConfig {
                auto_start: self.general.auto_start,
                mic_boost_db: nearest_level(self.general.mic_boost_db),
            },
        }
    }

    /// The configuration to run with. `parsed` is what the configuration file holds, `None` if
    /// there is no such file or it cannot be read or parsed.
    pub fn load(parsed: Option<Config>) -> (r: Config)
        ensures
            r == match parsed {
                Some(config) => config.sanitized(),
                None => default_config(),
            },
            r.valid(),
    {
        match parsed {
            Some(config) => {
                let mut config = config;
                config.sanitize();
                config
            },
            None => {
                proof {
                    defaults_are_valid();
                }
                Config::default()
            },
        }
    }

    /// Brings hand-edited values into valid ranges. Defaults are already valid, so this only
    /// needs to run on configurations that were read.
    pub fn sanitize(&mut self)
        ensures
            *final(self) == old(self).sanitized(),
            final(self).valid(),
    {
        self.sound.sanitize();
        self.general.mic_boost_db = normalize_boost_db(self.general.mic_boost_db);
    }
}

/// The path of the configuration file, below the directory for configurations, or below the current
/// directory where that is not known.
pub fn config_path(config_dir: Option<&str>) -> (r: String)
    ensures
        r@ == text::path_below(
            text::path_below(
                match config_dir {
                    Some(dir) => dir@,
                    None => "."@,
                },
                "corsair-void"@,
            ),
            "config.toml"@,
        ),
{
    let dir = match config_dir {
        Some(dir) => dir,
        None => ".",
    };
    text::join_path(text::join_path(dir, "corsair-void").as_str(), "config.toml")
}

/// The defaults are valid.
pub proof fn defaults_are_valid()
    ensures
        default_config().valid(),
{
    levels_snap_to_themselves(0);
}

/// Whatever a configuration holds, it is valid once it is sanitized.
pub proof fn sanitized_is_valid(config: Config)
    ensures
        config.sanitized().valid(),
{
    snapping_gives_a_level(config.general.mic_boost_db);
}

/// A valid configuration stays as it is when it is sanitized, so doing so twice is the same as
/// doing so once.
pub proof fn valid_stays_as_it_is(config: Config)
    ensures
        config.valid() ==> config.sanitized() == config,
        config.sanitized().sanitized() == config.sanitized(),
{
    levels_snap_to_themselves(config.general.mic_boost_db);
    sanitized_is_valid(config);
    levels_snap_to_themselves(config.sanitized().general.mic_boost_db);
}

/// A setting in its range stays as it is, and one outside takes the end of the range that it is
/// nearest to. A volume that is no number, or infinite, becomes one half. The switches stay as they
/// are, and the boost takes the nearest level.
pub proof fn settings_are_moved_into_range(config: Config)
    ensures
        ({
            let s = config.sanitized();
            let volume = config.sound.volume_bits;
            let high = config.sound.freq_high_hz;
            let low = config.sound.freq_low_hz;
            let duration = config.sound.duration_ms;
            let boost = config.general.mic_boost_db;
            &&& s.sound.enabled == config.sound.enabled
            &&& s.general.auto_start == config.general.auto_start
            &&& 20 <= high <= 20_000 ==> s.sound.freq_high_hz == high
            &&& high < 20 ==> s.sound.freq_high_hz == 20
            &&& high > 20_000 ==> s.sound.freq_high_hz == 20_000
            &&& 20 <= low <= 20_000 ==> s.sound.freq_low_hz == low
            &&& low < 20 ==> s.sound.freq_low_hz == 20
            &&& low > 20_000 ==> s.sound.freq_low_hz == 20_000
            &&& duration <= 5_000 ==> s.sound.duration_ms == duration
            &&& duration > 5_000 ==> s.sound.duration_ms == 5_000
            &&& volume <= 0x3f80_0000 ==> s.sound.volume_bits == volume
            &&& 0x3f80_0000 < volume < 0x7f80_0000 ==> s.sound.volume_bits == 0x3f80_0000
            &&& 0x7f80_0000 <= volume < 0x8000_0000 ==> s.sound.volume_bits == 0x3f00_0000
            &&& volume == 0x8000_0000 ==> s.sound.volume_bits == volume
            &&& 0x8000_0000 < volume < 0xff80_0000 ==> s.sound.volume_bits == 0
            &&& 0xff80_0000 <= volume ==> s.sound.volume_bits == 0x3f00_0000
            &&& s.general.mic_boost_db == if boost <= 2 {
                0
            } else if boost <= 7 {
                5
            } else {
                10int
            }
        }),
{
    crate::audio::levels_lie_around_their_numbers(config.general.mic_boost_db);
}

/// A setting does not influence how the others are sanitized.
pub proof fn settings_are_independent(a: Config, b: Config)
    ensures
        a.sound.volume_bits == b.sound.volume_bits ==> a.sanitized().sound.volume_bits
            == b.sanitized().sound.volume_bits,
        a.sound.freq_high_hz == b.sound.freq_high_hz ==> a.sanitized().sound.freq_high_hz
            == b.sanitized().sound.freq_high_hz,
        a.sound.freq_low_hz == b.sound.freq_low_hz ==> a.sanitized().sound.freq_low_hz
            == b.sanitized().sound.freq_low_hz,
        a.sound.duration_ms == b.sound.duration_ms ==> a.sanitized().sound.duration_ms
            == b.sanitized().sound.duration_ms,
        a.general.mic_boost_db == b.general.mic_boost_db ==> a.sanitized().general.mic_boost_db
            == b.sanitized().general.mic_boost_db,
{
}

/// What is loaded is what was saved where that is valid, and always valid.
pub proof fn saved_settings_are_loaded(parsed: Option<Config>, loaded: Config)
    requires
        call_ensures(Config::load, (parsed,), loaded),
    ensures
        loaded.valid(),
        parsed matches Some(config) ==> (config.valid() ==> loaded == config),
        parsed is None ==> loaded.sound.enabled && !loaded.general.auto_start
            && loaded.general.mic_boost_db == 0,
{
    if let Some(config) = parsed {
        valid_stays_as_it_is(config);
    }
}

/// The file lies below the configuration directory, whichever that is, and has the same place in
/// it everywhere.
pub proof fn the_file_lies_below_the_directory(dir: &str, path: String)
    requires
        call_ensures(config_path, (Some(dir),), path),
    ensures
        dir@.is_prefix_of(path@),
        path@.skip(path@.len() - "config.toml"@.len()) == "config.toml"@,
        dir@.len() > 0 && dir@.last() != '/' ==> path@ == dir@ + "/corsair-void/config.toml"@,
{
    reveal_strlit("/");
    reveal_strlit("corsair-void");
    reveal_strlit("config.toml");
    reveal_strlit("/corsair-void/config.toml");
    let below = text::path_below(dir@, "corsair-void"@);
    text::paths_hold_directory_and_name(dir@, "corsair-void"@);
    text::paths_hold_directory_and_name(below, "config.toml"@);
    assert(below.last() == "corsair-void"@.last());
}

} // verus!
