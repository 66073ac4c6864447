//! The sounds: which tones they are made of and how many samples a tone has.

use vstd::prelude::*;

use crate::config::SoundConfig;

verus! {

/// Samples per second.
pub const SAMPLE_RATE: u32 = 44100;

/// A tone to be played.
#[derive(Debug, Clone, Copy, PartialEq, Eq, Structural)]
pub struct Tone {
    pub freq_hz: u32,
    pub duration_ms: u32,
    pub sample_rate: u32,
}

/// A tone of the configured duration.
pub open spec fn tone_of(config: SoundConfig, freq_hz: u32) -> Tone {
    Tone { freq_hz, duration_ms: config.duration_ms, sample_rate: SAMPLE_RATE }
}

/// The tones of the configured duration at `freqs`, or none if sounds are off.
pub open spec fn tones_of(config: SoundConfig, freqs: Seq<u32>) -> Seq<Tone> {
    if config.enabled {
        Seq::new(freqs.len(), |i: int| tone_of(config, freqs[i]))
    } else {
        Seq::empty()
    }
}

/// The number of samples of a tone.
pub open spec fn sample_count(duration_ms: u32, sample_rate: u32) -> nat {
    (sample_rate as nat) * (duration_ms as nat) / 1000
}

#[derive(Debug, Clone, Copy, PartialEq, Eq, Structural)]
pub struct SoundPlayer {
    pub config: SoundConfig,
}

impl SoundPlayer {
    pub fn new(config: &SoundConfig) -> (r: Self)
        ensures
            r.config == *config,
    {
        SoundPlayer { config: *config }
    }

    fn tone(&self, freq_hz: u32) -> (r: Tone)
        ensures
            r == tone_of(self.config, freq_hz),
    {
        Tone { freq_hz, duration_ms: self.config.duration_ms, sample_rate: SAMPLE_RATE }
    }

    /// The low battery warning: low, high, low. Nothing if sounds are off.
    pub fn play_low_battery(&self) -> (r: Vec<Tone>)
        ensures
            r@ == tones_of(
                self.config,
                seq![self.config.freq_low_hz, self.config.freq_high_hz, self.config.freq_low_hz],
            ),
    {
        let mut r: Vec<Tone> = Vec::new();
        if self.config.enabled {
            r.push(self.tone(self.config.freq_low_hz));
            r.push(self.tone(self.config.freq_high_hz));
            r.push(self.tone(self.config.freq_low_hz));
        }
        r
    }

    /// The cue for a muted microphone: high, low. Nothing if sounds are off.
    pub fn play_muted(&self) -> (r: Vec<Tone>)
        ensures
            r@ == tones_of(
                self.config,
                seq![self.config.freq_high_hz, self.config.freq_low_hz],
            ),
    {
        let mut r: Vec<Tone> = Vec::new();
        if self.config.enabled {
            r.push(self.tone(self.config.freq_high_hz));
            r.push(self.tone(self.config.freq_low_hz));
        }
        r
    }

    /// The cue for an active microphone: low, high. Nothing if sounds are off.
    pub fn play_unmuted(&self) -> (r: Vec<Tone>)
        ensures
            r@ == tones_of(
                self.config,
                seq![self.config.freq_low_hz, self.config.freq_high_hz],
            ),
    {
        let mut r: Vec<Tone> = Vec::new();
        if self.config.enabled {
            r.push(self.tone(self.config.freq_low_hz));
            r.push(self.tone(self.config.freq_high_hz));
        }
        r
    }
}

/// Generates a tone of `duration_ms` at `sample_rate` samples per second; `sample` gives the
/// value of the sample at each position.
pub fn generate_tone<T, F: Fn(usize) -> T>(
    duration_ms: u32,
    sample_rate: u32,
    sample: F,
) -> (r: Vec<T>)
    requires
        sample_count(duration_ms, sample_rate) <= usize::MAX,
        forall|i: usize| call_requires(sample, (i,)),
    ensures
        r@.len() == sample_count(duration_ms, sample_rate),
        forall|i: int| 0 <= i < r@.len() ==> call_ensures(sample, (i as usize,), #[trigger] r@[i]),
{
    assert((sample_rate as u64) * (duration_ms as u64) <= 0xffff_ffff * 0xffff_ffff)
        by (nonlinear_arith)
        requires
            sample_rate <= 0xffff_ffff,
            duration_ms <= 0xffff_ffff,
    ;
    let samples: usize = (sample_rate as u64 * duration_ms as u64 / 1000) as usize;
    let mut r: Vec<T> = Vec::new();
    for i in 0..samples
        invariant
            forall|i: usize| call_requires(sample, (i,)),
            r@.len() == i,
            forall|j: int|
                0 <= j < r@.len() ==> call_ensures(sample, (j as usize,), #[trigger] r@[j]),
    {
        r.push(sample(i));
    }
    r
}

/// A tone of a valid configuration lasts at most five seconds, so its samples can be counted on
/// any machine.
pub proof fn valid_tones_are_short(config: SoundConfig)
    requires
        config.valid(),
    ensures
        sample_count(config.duration_ms, SAMPLE_RATE) <= 220_500,
{
}

/// A cue plays one tone for each of its frequencies, in their order, each as long as configured and
/// at the rate of the output, and nothing at all where sounds are switched off.
pub proof fn cues_play_their_tones(config: SoundConfig, freqs: Seq<u32>, i: int)
    requires
        0 <= i < freqs.len(),
    ensures
        !config.enabled ==> tones_of(config, freqs).len() == 0,
        config.enabled ==> {
            let tones = tones_of(config, freqs);
            &&& tones.len() == freqs.len()
            &&& tones[i].freq_hz == freqs[i]
            &&& tones[i].duration_ms == config.duration_ms
            &&& tones[i].sample_rate == 44_100
        },
{
}

/// Muting goes from the high tone to the low one and unmuting the other way round; a low battery is
/// announced low, high, low.
pub proof fn cues_go_down_and_up(
    player: &SoundPlayer,
    muted: Vec<Tone>,
    unmuted: Vec<Tone>,
    battery: Vec<Tone>,
)
    requires
        player.config.enabled,
        call_ensures(SoundPlayer::play_muted, (player,), muted),
        call_ensures(SoundPlayer::play_unmuted, (player,), unmuted),
        call_ensures(SoundPlayer::play_low_battery, (player,), battery),
    ensures
        ({
            let high = player.config.freq_high_hz;
            let low = player.config.freq_low_hz;
            &&& muted@.len() == 2 && muted@[0].freq_hz == high && muted@[1].freq_hz == low
            &&& unmuted@.len() == 2 && unmuted@[0].freq_hz == low && unmuted@[1].freq_hz == high
            &&& battery@.len() == 3 && battery@[0].freq_hz == low && battery@[1].freq_hz == high
                && battery@[2].freq_hz == low
            &&& unmuted@ == seq![muted@[1], muted@[0]]
        }),
{
}

/// A tone has as many samples as its duration takes at its rate: the next sample would lie at its
/// end or beyond.
pub proof fn tones_last_as_long_as_asked(duration_ms: u32, sample_rate: u32)
    ensures
        ({
            let n = sample_count(duration_ms, sample_rate);
            n * 1000 <= sample_rate * duration_ms < (n + 1) * 1000
        }),
{
}

/// A generated tone holds the samples of its points in time, in their order, and as many of them as
/// its duration takes.
pub proof fn tones_hold_their_samples<T, F: Fn(usize) -> T>(
    duration_ms: u32,
    sample_rate: u32,
    sample: F,
    tone: Vec<T>,
    i: usize,
)
    requires
        call_ensures(generate_tone::<T, F>, (duration_ms, sample_rate, sample), tone),
    ensures
        (i + 1) * 1000 <= sample_rate * duration_ms <==> i < tone@.len(),
        i < tone@.len() ==> call_ensures(sample, (i,), tone@[i as int]),
{
    tones_last_as_long_as_asked(duration_ms, sample_rate);
    let n = sample_count(duration_ms, sample_rate);
    assert(tone@.len() == n);
    if i < tone@.len() {
        assert(call_ensures(sample, (i as int as usize,), tone@[i as int]));
    }
}

} // verus!
