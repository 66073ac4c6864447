use corsair_void::config::{
    config_path, Config, GeneralConfig, SoundConfig, HALF_VOLUME_BITS, MAX_TONE_DURATION_MS, MAX_TONE_FREQ_HZ,
    MIN_TONE_FREQ_HZ,
};
use corsair_void::sound::{generate_tone, SoundPlayer, Tone, SAMPLE_RATE};

#[test]
fn sanitize_clamps_out_of_range_values() {
    let mut config = Config::default();
    config.sound.volume_bits = f32::NAN.to_bits();
    config.sound.duration_ms = 10_000_000;
    config.sound.freq_high_hz = 5_000_000;
    config.sound.freq_low_hz = 0;
    config.general.mic_boost_db = 200;

    config.sanitize();

    assert_eq!(config.sound.volume_bits, SoundConfig::default().volume_bits);
    assert!(config.sound.duration_ms <= MAX_TONE_DURATION_MS);
    assert!(config.sound.freq_high_hz <= MAX_TONE_FREQ_HZ);
    assert!(config.sound.freq_low_hz >= MIN_TONE_FREQ_HZ);
    assert_eq!(config.general.mic_boost_db, 10);
}

#[test]
fn sanitized_values_are_exact() {
    let mut config = Config {
        sound: SoundConfig {
            enabled: false,
            volume_bits: 2.0_f32.to_bits(),
            freq_high_hz: 20_001,
            freq_low_hz: 19,
            duration_ms: 5_001,
        },
        general: GeneralConfig {
            auto_start: true,
            mic_boost_db: 7,
        },
    };
    config.sanitize();
    let expected = Config {
        sound: SoundConfig {
            enabled: false,
            volume_bits: 1.0_f32.to_bits(),
            freq_high_hz: 20_000,
            freq_low_hz: 20,
            duration_ms: 5_000,
        },
        general: GeneralConfig {
            auto_start: true,
            mic_boost_db: 5,
        },
    };
    assert_eq!(config, expected);
    // What is valid stays as it is.
    config.sanitize();
    assert_eq!(config, expected);
}

#[test]
fn volumes_are_clamped_as_floats_are() {
    let mut volumes = vec![
        0.0,
        -0.0,
        0.25,
        0.5,
        1.0,
        1.000_000_1,
        -1.0e-45,
        1.0e-45,
        -7.5,
        1.0e30,
        f32::MAX,
        f32::MIN,
        f32::INFINITY,
        f32::NEG_INFINITY,
        f32::NAN,
        -f32::NAN,
    ];
    // A stretch of bit patterns over the whole range.
    let mut bits: u32 = 0;
    while let Some(next) = bits.checked_add(65_537) {
        volumes.push(f32::from_bits(bits));
        bits = next;
    }
    for volume in volumes {
        let expected = if volume.is_finite() {
            volume.clamp(0.0, 1.0)
        } else {
            0.5
        };
        let mut config = SoundConfig {
            volume_bits: volume.to_bits(),
            ..SoundConfig::default()
        };
        config.sanitize();
        assert_eq!(config.volume_bits, expected.to_bits(), "{:?}", volume);
    }
}

#[test]
fn defaults_stand_in_for_a_missing_file() {
    let config = Config::load(None);
    assert_eq!(config, Config::default());
    assert!(config.sound.enabled);
    assert_eq!(f32::from_bits(config.sound.volume_bits), 0.5);
    assert_eq!(config.sound.volume_bits, HALF_VOLUME_BITS);
    assert_eq!(config.sound.freq_high_hz, 1000);
    assert_eq!(config.sound.freq_low_hz, 700);
    assert_eq!(config.sound.duration_ms, 150);
    assert!(!config.general.auto_start);
    assert_eq!(config.general.mic_boost_db, 0);
    let mut sanitized = config;
    sanitized.sanitize();
    assert_eq!(sanitized, config);
}

#[test]
fn a_file_is_sanitized_when_it_is_loaded() {
    let mut parsed = Config::default();
    parsed.general.mic_boost_db = 8;
    assert_eq!(Config::load(Some(parsed)).general.mic_boost_db, 10);
}

#[test]
fn generate_tone_large_duration_does_not_overflow() {
    let samples = generate_tone(100_000, SAMPLE_RATE, |i: usize| {
        let t = i as f32 / SAMPLE_RATE as f32;
        (2.0 * std::f32::consts::PI * 1000.0 * t).sin() * 0.5
    });
    assert_eq!(samples.len(), SAMPLE_RATE as usize * 100);
}

#[test]
fn samples_are_generated_in_order() {
    assert_eq!(generate_tone(5, 1000, |i: usize| i * i), vec![0, 1, 4, 9, 16]);
    assert_eq!(generate_tone(150, SAMPLE_RATE, |i: usize| i).len(), 6615);
    assert!(generate_tone(0, SAMPLE_RATE, |i: usize| i).is_empty());
    // The longest tone of a valid configuration.
    assert_eq!(
        generate_tone(MAX_TONE_DURATION_MS, SAMPLE_RATE, |i: usize| i).len(),
        220_500
    );
}

fn tone(freq_hz: u32) -> Tone {
    Tone {
        freq_hz,
        duration_ms: 150,
        sample_rate: 44_100,
    }
}

#[test]
fn sounds_are_made_of_tones() {
    let player = SoundPlayer::new(&SoundConfig::default());
    assert_eq!(player.play_low_battery(), vec![tone(700), tone(1000), tone(700)]);
    assert_eq!(player.play_muted(), vec![tone(1000), tone(700)]);
    assert_eq!(player.play_unmuted(), vec![tone(700), tone(1000)]);
    let silent = SoundPlayer::new(&SoundConfig {
        enabled: false,
        ..SoundConfig::default()
    });
    assert!(silent.play_low_battery().is_empty());
    assert!(silent.play_muted().is_empty());
    assert!(silent.play_unmuted().is_empty());
}

#[test]
fn the_configuration_file_has_a_directory_of_its_own() {
    assert_eq!(
        config_path(Some("/home/me/.config")),
        "/home/me/.config/corsair-void/config.toml"
    );
    assert_eq!(config_path(Some("/etc/")), "/etc/corsair-void/config.toml");
    assert_eq!(config_path(Some("")), "corsair-void/config.toml");
    assert_eq!(config_path(None), "./corsair-void/config.toml");
}
