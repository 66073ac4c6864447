//! The audio pipeline of the boost worker: amplification, channel conversion and resampling.
//!
//! The pipeline moves samples of any type; what is done to the samples themselves is up to the
//! functions it is given.

use vstd::arithmetic::div_mod::lemma_fundamental_div_mod_converse;
use vstd::prelude::*;

verus! {

/// `out` is `input` with `amplify` applied to every sample.
pub open spec fn amplified<T, A: Fn(T) -> T>(amplify: A, input: Seq<T>, out: Seq<T>) -> bool {
    &&& out.len() == input.len()
    &&& forall|i: int|
        0 <= i < out.len() ==> call_ensures(amplify, (input[i],), #[trigger] out[i])
}

/// The sample of channel `ch` in frame `frame` after a conversion that keeps the channels that
/// exist on both sides and fills up with silence.
pub open spec fn kept_sample<T>(
    input: Seq<T>,
    in_channels: nat,
    silence: T,
    frame: int,
    ch: int,
) -> T {
    if ch < in_channels {
        input[frame * in_channels + ch]
    } else {
        silence
    }
}

/// `out` is `input` with its frames of `in_channels` samples converted to `out_channels`: mono is
/// doubled to stereo, stereo is mixed to mono, and otherwise the channels that exist on both sides
/// are kept.
pub open spec fn converted<T, M: Fn(T, T) -> T>(
    mix: M,
    silence: T,
    in_channels: nat,
    out_channels: nat,
    input: Seq<T>,
    out: Seq<T>,
) -> bool {
    if in_channels == out_channels {
        out == input
    } else if in_channels == 1 && out_channels == 2 {
        &&& out.len() == 2 * input.len()
        &&& forall|k: int| 0 <= k < out.len() ==> #[trigger] out[k] == input[k / 2]
    } else if in_channels == 2 && out_channels == 1 {
        &&& out.len() == (input.len() + 1) / 2
        &&& forall|k: int|
            0 <= k < out.len() ==> if 2 * k + 1 < input.len() {
                call_ensures(mix, (input[2 * k], input[2 * k + 1]), #[trigger] out[k])
            } else {
                out[k] == input[2 * k]
            }
    } else {
        &&& out.len() == (input.len() / in_channels) * out_channels
        &&& forall|k: int|
            0 <= k < out.len() ==> #[trigger] out[k] == kept_sample(
                input,
                in_channels,
                silence,
                k / out_channels as int,
                k % out_channels as int,
            )
    }
}

/// The sample of channel `ch` in frame `frame`, or silence past the end.
pub open spec fn sample_at<T>(input: Seq<T>, channels: nat, silence: T, frame: int, ch: int) -> T {
    if frame < input.len() / channels {
        input[frame * channels + ch]
    } else {
        silence
    }
}

/// The sample after that of frame `frame`, or that of the frame itself where it is the last.
pub open spec fn sample_after<T>(
    input: Seq<T>,
    channels: nat,
    silence: T,
    frame: int,
    ch: int,
) -> T {
    if frame + 1 < input.len() / channels {
        input[(frame + 1) * channels + ch]
    } else {
        sample_at(input, channels, silence, frame, ch)
    }
}

/// `sample` is blended from the samples at and after the frame that `positions` names for the
/// frame of position `k`.
pub open spec fn blended<T, B: Fn(usize, T, T) -> T>(
    blend: B,
    silence: T,
    channels: nat,
    positions: Seq<usize>,
    input: Seq<T>,
    k: int,
    sample: T,
) -> bool {
    let frame = k / channels as int;
    let ch = k % channels as int;
    call_ensures(
        blend,
        (
            frame as usize,
            sample_at(input, channels, silence, positions[frame] as int, ch),
            sample_after(input, channels, silence, positions[frame] as int, ch),
        ),
        sample,
    )
}

/// Every sample of `out` is blended as `positions` says.
pub open spec fn all_blended<T, B: Fn(usize, T, T) -> T>(
    blend: B,
    silence: T,
    channels: nat,
    positions: Seq<usize>,
    input: Seq<T>,
    out: Seq<T>,
) -> bool {
    forall|k: int|
        0 <= k < out.len() ==> blended(
            blend,
            silence,
            channels,
            positions,
            input,
            k,
            #[trigger] out[k],
        )
}

/// `out` has one frame for each entry of `positions`, blended from the samples at and after the
/// frame that the entry names.
pub open spec fn resampled<T, B: Fn(usize, T, T) -> T>(
    blend: B,
    silence: T,
    channels: nat,
    positions: Seq<usize>,
    input: Seq<T>,
    out: Seq<T>,
) -> bool {
    &&& out.len() == positions.len() * channels
    &&& all_blended(blend, silence, channels, positions, input, out)
}

/// Applies `amplify` to every sample.
pub fn amplify_samples<T: Copy, A: Fn(T) -> T>(input: &[T], amplify: &A) -> (r: Vec<T>)
    requires
        forall|s: T| call_requires(*amplify, (s,)),
    ensures
        amplified(*amplify, input@, r@),
{
    let mut r: Vec<T> = Vec::new();
    for i in 0..input.len()
        invariant
            forall|s: T| call_requires(*amplify, (s,)),
            r.len() == i,
            forall|j: int| 0 <= j < i ==> call_ensures(*amplify, (input@[j],), #[trigger] r@[j]),
    {
        r.push(amplify(input[i]));
    }
    r
}

fn mono_to_stereo<T: Copy>(input: &Vec<T>) -> (r: Vec<T>)
    ensures
        r.len() == 2 * input.len(),
        forall|k: int| 0 <= k < r.len() ==> #[trigger] r@[k] == input@[k / 2],
{
    let mut r: Vec<T> = Vec::new();
    for i in 0..input.len()
        invariant
            r@.len() == 2 * i,
            forall|k: int| 0 <= k < 2 * i ==> #[trigger] r@[k] == input@[k / 2],
    {
        r.push(input[i]);
        r.push(input[i]);
    }
    r
}

fn stereo_to_mono<T: Copy, M: Fn(T, T) -> T>(input: &Vec<T>, mix: &M) -> (r: Vec<T>)
    requires
        forall|a: T, b: T| call_requires(*mix, (a, b)),
    ensures
        r@.len() == (input@.len() + 1) / 2,
        forall|k: int|
            0 <= k < r@.len() ==> if 2 * k + 1 < input@.len() {
                call_ensures(*mix, (input@[2 * k], input@[2 * k + 1]), #[trigger] r@[k])
            } else {
                r@[k] == input@[2 * k]
            },
{
    let mut r: Vec<T> = Vec::new();
    let mut i: usize = 0;
    while i < input.len()
        invariant
            forall|a: T, b: T| call_requires(*mix, (a, b)),
            i <= input@.len(),
            i % 2 == 0 || i == input@.len(),
            r@.len() == (i + 1) / 2,
            forall|k: int|
                0 <= k < r@.len() ==> if 2 * k + 1 < input@.len() {
                    call_ensures(*mix, (input@[2 * k], input@[2 * k + 1]), #[trigger] r@[k])
                } else {
                    r@[k] == input@[2 * k]
                },
        decreases input.len() - i,
    {
        if input.len() - i >= 2 {
            r.push(mix(input[i], input[i + 1]));
            i += 2;
        } else {
            r.push(input[i]);
            i += 1;
        }
    }
    r
}

proof fn lemma_position(frame: int, ch: int, channels: int, frames: int)
    requires
        0 <= frame < frames,
        0 <= ch < channels,
    ensures
        0 <= frame * channels + ch < frames * channels,
        (frame * channels + ch) / channels == frame,
        (frame * channels + ch) % channels == ch,
{
    assert(frame * channels + ch < frames * channels) by (nonlinear_arith)
        requires
            0 <= frame < frames,
            0 <= ch < channels,
    ;
    assert(0 <= frame * channels) by (nonlinear_arith)
        requires
            0 <= frame,
            0 <= channels,
    ;
    lemma_fundamental_div_mod_converse(frame * channels + ch, channels, frame, ch);
}

proof fn lemma_frames_fit(len: int, channels: int)
    requires
        0 <= len,
        0 < channels,
    ensures
        (len / channels) * channels <= len,
{
    assert((len / channels) * channels <= len) by (nonlinear_arith)
        requires
            0 <= len,
            0 < channels,
    ;
}

fn keep_channels<T: Copy>(
    input: &Vec<T>,
    in_channels: usize,
    out_channels: usize,
    silence: T,
) -> (r: Vec<T>)
    requires
        in_channels > 0,
    ensures
        r@.len() == (input@.len() / in_channels as nat) * out_channels,
        forall|k: int|
            0 <= k < r@.len() ==> #[trigger] r@[k] == kept_sample(
                input@,
                in_channels as nat,
                silence,
                k / out_channels as int,
                k % out_channels as int,
            ),
{
    let frames: usize = input.len() / in_channels;
    proof {
        lemma_frames_fit(input@.len() as int, in_channels as int);
    }
    let mut r: Vec<T> = Vec::new();
    assert(0 * out_channels == 0) by (nonlinear_arith);
    for frame in 0..frames
        invariant
            in_channels > 0,
            frames == input@.len() / in_channels as nat,
            frames * in_channels <= input.len(),
            r@.len() == frame * out_channels,
            forall|k: int|
                0 <= k < r@.len() ==> #[trigger] r@[k] == kept_sample(
                    input@,
                    in_channels as nat,
                    silence,
                    k / out_channels as int,
                    k % out_channels as int,
                ),
    {
        for ch in 0..out_channels
            invariant
                in_channels > 0,
                frame < frames,
                frames == input@.len() / in_channels as nat,
                frames * in_channels <= input.len(),
                r@.len() == frame * out_channels + ch,
                forall|k: int|
                    0 <= k < r@.len() ==> #[trigger] r@[k] == kept_sample(
                        input@,
                        in_channels as nat,
                        silence,
                        k / out_channels as int,
                        k % out_channels as int,
                    ),
        {
            proof {
                lemma_position(frame as int, ch as int, out_channels as int, frames as int);
            }
            if ch < in_channels {
                proof {
                    lemma_position(frame as int, ch as int, in_channels as int, frames as int);
                    lemma_position(frame as int, 0, in_channels as int, frames as int);
                }
                r.push(input[frame * in_channels + ch]);
            } else {
                r.push(silence);
            }
        }
        assert((frame + 1) * out_channels == frame * out_channels + out_channels)
            by (nonlinear_arith);
    }
    r
}

/// Converts frames of `in_channels` samples to frames of `out_channels` samples.
pub fn convert_channels<T: Copy, M: Fn(T, T) -> T>(
    input: Vec<T>,
    in_channels: usize,
    out_channels: usize,
    silence: T,
    mix: &M,
) -> (r: Vec<T>)
    requires
        in_channels > 0 || out_channels == 0,
        forall|a: T, b: T| call_requires(*mix, (a, b)),
    ensures
        converted(*mix, silence, in_channels as nat, out_channels as nat, input@, r@),
{
    if in_channels == out_channels {
        input
    } else if in_channels == 1 && out_channels == 2 {
        mono_to_stereo(&input)
    } else if in_channels == 2 && out_channels == 1 {
        stereo_to_mono(&input, mix)
    } else {
        keep_channels(&input, in_channels, out_channels, silence)
    }
}

/// Blends one output frame for each entry of `positions`.
pub fn resample<T: Copy, B: Fn(usize, T, T) -> T>(
    input: &Vec<T>,
    channels: usize,
    silence: T,
    positions: &Vec<usize>,
    blend: &B,
) -> (r: Vec<T>)
    requires
        channels > 0,
        forall|i: usize, a: T, b: T| call_requires(*blend, (i, a, b)),
    ensures
        resampled(*blend, silence, channels as nat, positions@, input@, r@),
{
    let in_frames: usize = input.len() / channels;
    proof {
        lemma_frames_fit(input@.len() as int, channels as int);
    }
    let mut r: Vec<T> = Vec::new();
    assert(0 * channels == 0) by (nonlinear_arith);
    for i in 0..positions.len()
        invariant
            channels > 0,
            forall|i: usize, a: T, b: T| call_requires(*blend, (i, a, b)),
            in_frames == input@.len() / channels as nat,
            in_frames * channels <= input.len(),
            r@.len() == i * channels,
            all_blended(*blend, silence, channels as nat, positions@, input@, r@),
    {
        let position: usize = positions[i];
        for ch in 0..channels
            invariant
                channels > 0,
                i < positions@.len(),
                position == positions@[i as int],
                forall|i: usize, a: T, b: T| call_requires(*blend, (i, a, b)),
                in_frames == input@.len() / channels as nat,
                in_frames * channels <= input.len(),
                r@.len() == i * channels + ch,
                all_blended(*blend, silence, channels as nat, positions@, input@, r@),
        {
            proof {
                lemma_position(i as int, ch as int, channels as int, positions@.len() as int);
            }
            let first: T = if position < in_frames {
                proof {
                    lemma_position(position as int, ch as int, channels as int, in_frames as int);
                    lemma_position(position as int, 0, channels as int, in_frames as int);
                }
                input[position * channels + ch]
            } else {
                silence
            };
            let second: T = if position < in_frames && position + 1 < in_frames {
                proof {
                    lemma_position(position + 1, ch as int, channels as int, in_frames as int);
                    lemma_position(position + 1, 0, channels as int, in_frames as int);
                }
                input[(position + 1) * channels + ch]
            } else {
                first
            };
            r.push(blend(i, first, second));
        }
        assert((i + 1) * channels == i * channels + channels) by (nonlinear_arith);
    }
    r
}

/// `out` is what the pipeline makes of `input`: amplified, then converted to `out_channels`, then,
/// if `need_resample` says so, resampled at the positions that `plan` gives for the number of
/// frames there are.
pub open spec fn processed<
    T,
    A: Fn(T) -> T,
    M: Fn(T, T) -> T,
    P: Fn(usize) -> Vec<usize>,
    B: Fn(usize, T, T) -> T,
>(
    input: Seq<T>,
    in_channels: nat,
    out_channels: nat,
    silence: T,
    amplify: A,
    mix: M,
    need_resample: bool,
    plan: P,
    blend: B,
    out: Seq<T>,
) -> bool {
    exists|louder: Seq<T>, fitted: Seq<T>|
        #![trigger amplified(amplify, input, louder), converted(
            mix, silence, in_channels, out_channels, louder, fitted,
        )]
        {
            &&& amplified(amplify, input, louder)
            &&& converted(mix, silence, in_channels, out_channels, louder, fitted)
            &&& if need_resample {
                exists|positions: Vec<usize>| #[trigger]
                    call_ensures(plan, ((fitted.len() / out_channels) as usize,), positions)
                        && resampled(blend, silence, out_channels, positions@, fitted, out)
            } else {
                out == fitted
            }
        }
}

/// Amplifies captured samples, converts them to the channels of the output and, if the sample
/// rates differ, resamples them.
pub fn process_audio<
    T: Copy,
    A: Fn(T) -> T,
    M: Fn(T, T) -> T,
    P: Fn(usize) -> Vec<usize>,
    B: Fn(usize, T, T) -> T,
>(
    input: &[T],
    in_channels: usize,
    out_channels: usize,
    silence: T,
    amplify: A,
    mix: M,
    need_resample: bool,
    plan: P,
    blend: B,
) -> (r: Vec<T>)
    requires
        in_channels > 0 || out_channels == 0,
        need_resample ==> out_channels > 0,
        forall|s: T| call_requires(amplify, (s,)),
        forall|a: T, b: T| call_requires(mix, (a, b)),
        forall|frames: usize| call_requires(plan, (frames,)),
        forall|i: usize, a: T, b: T| call_requires(blend, (i, a, b)),
    ensures
        processed(
            input@,
            in_channels as nat,
            out_channels as nat,
            silence,
            amplify,
            mix,
            need_resample,
            plan,
            blend,
            r@,
        ),
{
    let louder = amplify_samples(input, &amplify);
    let ghost louder_view = louder@;
    let fitted = convert_channels(louder, in_channels, out_channels, silence, &mix);
    let ghost fitted_view = fitted@;
    assert(amplified(amplify, input@, louder_view));
    assert(converted(
        mix,
        silence,
        in_channels as nat,
        out_channels as nat,
        louder_view,
        fitted_view,
    ));
    if !need_resample {
        return fitted;
    }
    let positions = plan(fitted.len() / out_channels);
    let r = resample(&fitted, out_channels, silence, &positions, &blend);
    assert(call_ensures(
        plan,
        ((fitted_view.len() / out_channels as nat) as usize,),
        positions,
    ));
    r
}

/// The samples of a captured packet of `count` samples: those in its buffer, or silent ones where
/// the packet is marked as silent and its buffer does not count.
pub open spec fn captured<T>(buffer: Option<Seq<T>>, count: nat, silence: T) -> Seq<T> {
    match buffer {
        Some(samples) => samples,
        None => Seq::new(count, |i: int| silence),
    }
}

/// Takes the samples out of a captured packet. There is no buffer where the packet is marked as
/// silent.
pub fn captured_samples<T: Copy>(buffer: Option<&[T]>, count: usize, silence: T) -> (r: Vec<T>)
    ensures
        r@ == captured(
            match buffer {
                Some(samples) => Some(samples@),
                None => None,
            },
            count as nat,
            silence,
        ),
{
    match buffer {
        Some(samples) => copied(samples),
        None => silent_samples(count, silence),
    }
}

fn copied<T: Copy>(samples: &[T]) -> (r: Vec<T>)
    ensures
        r@ == samples@,
{
    let mut r: Vec<T> = Vec::new();
    for i in 0..samples.len()
        invariant
            r@ == samples@.take(i as int),
    {
        r.push(samples[i]);
    }
    assert(samples@.take(samples@.len() as int) == samples@);
    r
}

fn silent_samples<T: Copy>(count: usize, silence: T) -> (r: Vec<T>)
    ensures
        r@ == Seq::new(count as nat, |i: int| silence),
{
    let mut r: Vec<T> = Vec::new();
    for i in 0..count
        invariant
            r@ == Seq::new(i as nat, |j: int| silence),
    {
        r.push(silence);
    }
    r
}

/// The frames of `output_len` samples that fit into a buffer of `buffer_size` frames beside the
/// `padding` frames still in it: all of them, or as many as there is room for.
pub open spec fn fitting_frames(
    output_len: int,
    render_channels: int,
    buffer_size: int,
    padding: int,
) -> int {
    let frames = output_len / render_channels;
    let room = buffer_size - padding;
    if frames <= room {
        frames
    } else {
        room
    }
}

/// How many frames of processed samples to hand to the output: as many as there are and as the
/// output buffer of `buffer_size` frames has room for beside the `padding` frames still in it.
pub fn frames_to_write(
    output_len: usize,
    render_channels: usize,
    buffer_size: u32,
    padding: u32,
) -> (r: usize)
    requires
        render_channels > 0,
        padding <= buffer_size,
    ensures
        r == fitting_frames(
            output_len as int,
            render_channels as int,
            buffer_size as int,
            padding as int,
        ),
        r * render_channels <= output_len,
{
    let output_frames: usize = output_len / render_channels;
    let available: usize = (buffer_size - padding) as usize;
    proof {
        lemma_frames_fit(output_len as int, render_channels as int);
    }
    if output_frames <= available {
        output_frames
    } else {
        assert(available * render_channels <= output_frames * render_channels) by (nonlinear_arith)
            requires
                available <= output_frames,
        ;
        available
    }
}

/// The processed samples to hand to the output, whole frames from the first on, as far as they fit.
pub fn samples_to_write<T: Copy>(
    output: &Vec<T>,
    render_channels: usize,
    buffer_size: u32,
    padding: u32,
) -> (r: Vec<T>)
    requires
        render_channels > 0,
        padding <= buffer_size,
    ensures
        r@ == output@.take(
            fitting_frames(
                output@.len() as int,
                render_channels as int,
                buffer_size as int,
                padding as int,
            ) * render_channels,
        ),
{
    let frames: usize = frames_to_write(output.len(), render_channels, buffer_size, padding);
    let count: usize = frames * render_channels;
    let mut r: Vec<T> = Vec::new();
    for i in 0..count
        invariant
            count <= output@.len(),
            r@ == output@.take(i as int),
    {
        r.push(output[i]);
    }
    r
}

/// Without resampling the output has as many frames as the input had whole frames, except that a
/// stereo sample without its partner still gives a mono sample.
pub proof fn conversion_keeps_the_frames<T, M: Fn(T, T) -> T>(
    mix: M,
    silence: T,
    in_channels: nat,
    out_channels: nat,
    input: Seq<T>,
    out: Seq<T>,
)
    requires
        in_channels > 0,
        out_channels > 0,
        input.len() % in_channels == 0,
        converted(mix, silence, in_channels, out_channels, input, out),
    ensures
        out.len() == (input.len() / in_channels) * out_channels,
{
    vstd::arithmetic::div_mod::lemma_fundamental_div_mod(
        input.len() as int,
        in_channels as int,
    );
    assert((input.len() / in_channels) * in_channels == in_channels * (input.len() / in_channels))
        by (nonlinear_arith);
}

/// Every output sample is made of samples that `amplify` has returned for the input, resampled or
/// not: whatever holds of silence and of all those samples, and is kept by mixing and blending,
/// holds of all that comes out.
pub proof fn outputs_are_made_of_amplified_samples<
    T,
    A: Fn(T) -> T,
    M: Fn(T, T) -> T,
    P: Fn(usize) -> Vec<usize>,
    B: Fn(usize, T, T) -> T,
>(
    input: Seq<T>,
    in_channels: nat,
    out_channels: nat,
    silence: T,
    amplify: A,
    mix: M,
    need_resample: bool,
    plan: P,
    blend: B,
    out: Seq<T>,
    holds: spec_fn(T) -> bool,
)
    requires
        in_channels > 0,
        out_channels > 0,
        processed(
            input,
            in_channels,
            out_channels,
            silence,
            amplify,
            mix,
            need_resample,
            plan,
            blend,
            out,
        ),
        holds(silence),
        forall|i: int, r: T|
            0 <= i < input.len() && #[trigger] call_ensures(amplify, (input[i],), r) ==> holds(r),
        forall|a: T, b: T, r: T|
            holds(a) && holds(b) && #[trigger] call_ensures(mix, (a, b), r) ==> holds(r),
        forall|i: usize, a: T, b: T, r: T|
            holds(a) && holds(b) && #[trigger] call_ensures(blend, (i, a, b), r) ==> holds(r),
    ensures
        forall|k: int| 0 <= k < out.len() ==> holds(#[trigger] out[k]),
{
    let (louder, fitted) = choose|louder: Seq<T>, fitted: Seq<T>|
        #![trigger amplified(amplify, input, louder), converted(
            mix, silence, in_channels, out_channels, louder, fitted,
        )]
        {
            &&& amplified(amplify, input, louder)
            &&& converted(mix, silence, in_channels, out_channels, louder, fitted)
            &&& if need_resample {
                exists|positions: Vec<usize>| #[trigger]
                    call_ensures(plan, ((fitted.len() / out_channels) as usize,), positions)
                        && resampled(blend, silence, out_channels, positions@, fitted, out)
            } else {
                out == fitted
            }
        };
    assert forall|i: int| 0 <= i < louder.len() implies holds(#[trigger] louder[i]) by {
        assert(call_ensures(amplify, (input[i],), louder[i]));
    }
    lemma_converted_holds(mix, silence, in_channels, out_channels, louder, fitted, holds);
    if need_resample {
        let positions = choose|positions: Vec<usize>| #[trigger]
            call_ensures(plan, ((fitted.len() / out_channels) as usize,), positions)
                && resampled(blend, silence, out_channels, positions@, fitted, out);
        lemma_resampled_holds(blend, silence, out_channels, positions@, fitted, out, holds);
    }
}

proof fn lemma_converted_holds<T, M: Fn(T, T) -> T>(
    mix: M,
    silence: T,
    in_channels: nat,
    out_channels: nat,
    input: Seq<T>,
    out: Seq<T>,
    holds: spec_fn(T) -> bool,
)
    requires
        in_channels > 0,
        out_channels > 0,
        converted(mix, silence, in_channels, out_channels, input, out),
        holds(silence),
        forall|i: int| 0 <= i < input.len() ==> holds(#[trigger] input[i]),
        forall|a: T, b: T, r: T|
            holds(a) && holds(b) && #[trigger] call_ensures(mix, (a, b), r) ==> holds(r),
    ensures
        forall|k: int| 0 <= k < out.len() ==> holds(#[trigger] out[k]),
{
    assert forall|k: int| 0 <= k < out.len() implies holds(#[trigger] out[k]) by {
        if in_channels == out_channels {
        } else if in_channels == 1 && out_channels == 2 {
            assert(out[k] == input[k / 2]);
        } else if in_channels == 2 && out_channels == 1 {
            assert(holds(input[2 * k]));
            if 2 * k + 1 < input.len() {
                assert(holds(input[2 * k + 1]));
                assert(call_ensures(mix, (input[2 * k], input[2 * k + 1]), out[k]));
            }
        } else {
            let frames = input.len() / in_channels;
            lemma_parts(k, out_channels as int, frames as int);
            let frame = k / out_channels as int;
            let ch = k % out_channels as int;
            if ch < in_channels {
                lemma_position(frame, ch, in_channels as int, frames as int);
                lemma_frames_fit(input.len() as int, in_channels as int);
                assert(holds(input[frame * in_channels + ch]));
            }
        }
    }
}

proof fn lemma_resampled_holds<T, B: Fn(usize, T, T) -> T>(
    blend: B,
    silence: T,
    channels: nat,
    positions: Seq<usize>,
    input: Seq<T>,
    out: Seq<T>,
    holds: spec_fn(T) -> bool,
)
    requires
        channels > 0,
        resampled(blend, silence, channels, positions, input, out),
        holds(silence),
        forall|i: int| 0 <= i < input.len() ==> holds(#[trigger] input[i]),
        forall|i: usize, a: T, b: T, r: T|
            holds(a) && holds(b) && #[trigger] call_ensures(blend, (i, a, b), r) ==> holds(r),
    ensures
        forall|k: int| 0 <= k < out.len() ==> holds(#[trigger] out[k]),
{
    assert forall|k: int| 0 <= k < out.len() implies holds(#[trigger] out[k]) by {
        lemma_parts(k, channels as int, positions.len() as int);
        let frame = k / channels as int;
        let ch = k % channels as int;
        let position = positions[frame] as int;
        lemma_sample_at_is_there(input, channels, silence, position, ch);
        lemma_sample_after_is_there(input, channels, silence, position, ch);
        assert(blended(blend, silence, channels, positions, input, k, out[k]));
    }
}

proof fn lemma_parts(k: int, channels: int, frames: int)
    requires
        0 <= k < frames * channels,
        0 < channels,
    ensures
        0 <= k / channels < frames,
        0 <= k % channels < channels,
        k == (k / channels) * channels + k % channels,
{
    vstd::arithmetic::div_mod::lemma_fundamental_div_mod(k, channels);
    assert(0 <= k % channels < channels) by (nonlinear_arith)
        requires
            0 < channels,
    ;
    assert(0 <= k / channels < frames) by (nonlinear_arith)
        requires
            0 <= k < frames * channels,
            0 < channels,
    ;
    assert(k == (k / channels) * channels + k % channels) by (nonlinear_arith)
        requires
            k == channels * (k / channels) + k % channels,
    ;
}

proof fn lemma_sample_at_is_there<T>(
    input: Seq<T>,
    channels: nat,
    silence: T,
    frame: int,
    ch: int,
)
    requires
        0 <= frame,
        0 <= ch < channels,
    ensures
        sample_at(input, channels, silence, frame, ch) == silence || (0 <= frame * channels + ch
            < input.len() && sample_at(input, channels, silence, frame, ch) == input[frame
            * channels + ch]),
        frame < input.len() / channels ==> 0 <= frame * channels + ch < input.len(),
{
    let frames = (input.len() / channels) as int;
    if frame < frames {
        lemma_position(frame, ch, channels as int, frames);
        lemma_frames_fit(input.len() as int, channels as int);
    }
}

proof fn lemma_sample_after_is_there<T>(
    input: Seq<T>,
    channels: nat,
    silence: T,
    frame: int,
    ch: int,
)
    requires
        0 <= frame,
        0 <= ch < channels,
    ensures
        ({
            let sample = sample_after(input, channels, silence, frame, ch);
            ||| sample == silence
            ||| 0 <= frame * channels + ch < input.len() && sample == input[frame * channels + ch]
            ||| 0 <= (frame + 1) * channels + ch < input.len() && sample == input[(frame + 1)
                * channels + ch]
        }),
{
    lemma_sample_at_is_there(input, channels, silence, frame, ch);
    lemma_sample_at_is_there(input, channels, silence, frame + 1, ch);
}

/// What is done to the amplified samples before they are mixed and blended can as well be done to
/// the output: with an amplifier that also applies `scale`, which mixing and blending respect, all
/// that comes out is scaled, resampled or not. Doubling the samples in the amplifier doubles the
/// output.
pub proof fn amplification_carries_through<
    T,
    A: Fn(T) -> T,
    L: Fn(T) -> T,
    M: Fn(T, T) -> T,
    P: Fn(usize) -> Vec<usize>,
    B: Fn(usize, T, T) -> T,
>(
    input: Seq<T>,
    in_channels: nat,
    out_channels: nat,
    silence: T,
    amplify: A,
    scaling: L,
    mix: M,
    need_resample: bool,
    plan: P,
    blend: B,
    out: Seq<T>,
    scale: spec_fn(T) -> T,
)
    requires
        in_channels > 0,
        out_channels > 0,
        processed(
            input,
            in_channels,
            out_channels,
            silence,
            amplify,
            mix,
            need_resample,
            plan,
            blend,
            out,
        ),
        scale(silence) == silence,
        forall|s: T, r: T| #[trigger]
            call_ensures(amplify, (s,), r) ==> call_ensures(scaling, (s,), scale(r)),
        forall|a: T, b: T, r: T| #[trigger]
            call_ensures(mix, (a, b), r) ==> call_ensures(mix, (scale(a), scale(b)), scale(r)),
        forall|i: usize, a: T, b: T, r: T| #[trigger]
            call_ensures(blend, (i, a, b), r) ==> call_ensures(
                blend,
                (i, scale(a), scale(b)),
                scale(r),
            ),
    ensures
        processed(
            input,
            in_channels,
            out_channels,
            silence,
            scaling,
            mix,
            need_resample,
            plan,
            blend,
            out.map_values(scale),
        ),
{
    let (louder, fitted) = choose|louder: Seq<T>, fitted: Seq<T>|
        #![trigger amplified(amplify, input, louder), converted(
            mix, silence, in_channels, out_channels, louder, fitted,
        )]
        {
            &&& amplified(amplify, input, louder)
            &&& converted(mix, silence, in_channels, out_channels, louder, fitted)
            &&& if need_resample {
                exists|positions: Vec<usize>| #[trigger]
                    call_ensures(plan, ((fitted.len() / out_channels) as usize,), positions)
                        && resampled(blend, silence, out_channels, positions@, fitted, out)
            } else {
                out == fitted
            }
        };
    let scaled = louder.map_values(scale);
    assert(amplified(scaling, input, scaled)) by {
        assert forall|i: int| 0 <= i < scaled.len() implies call_ensures(
            scaling,
            (input[i],),
            #[trigger] scaled[i],
        ) by {
            assert(call_ensures(amplify, (input[i],), louder[i]));
        }
    }
    lemma_converted_scales(mix, silence, in_channels, out_channels, louder, fitted, scale);
    if need_resample {
        let positions = choose|positions: Vec<usize>| #[trigger]
            call_ensures(plan, ((fitted.len() / out_channels) as usize,), positions)
                && resampled(blend, silence, out_channels, positions@, fitted, out);
        lemma_resampled_scales(blend, silence, out_channels, positions@, fitted, out, scale);
        assert(fitted.map_values(scale).len() == fitted.len());
        assert(call_ensures(
            plan,
            ((fitted.map_values(scale).len() / out_channels) as usize,),
            positions,
        ));
    }
}

proof fn lemma_converted_scales<T, M: Fn(T, T) -> T>(
    mix: M,
    silence: T,
    in_channels: nat,
    out_channels: nat,
    input: Seq<T>,
    out: Seq<T>,
    scale: spec_fn(T) -> T,
)
    requires
        in_channels > 0,
        out_channels > 0,
        converted(mix, silence, in_channels, out_channels, input, out),
        scale(silence) == silence,
        forall|a: T, b: T, r: T| #[trigger]
            call_ensures(mix, (a, b), r) ==> call_ensures(mix, (scale(a), scale(b)), scale(r)),
    ensures
        converted(
            mix,
            silence,
            in_channels,
            out_channels,
            input.map_values(scale),
            out.map_values(scale),
        ),
{
    let scaled = input.map_values(scale);
    let r = out.map_values(scale);
    if in_channels == out_channels {
    } else if in_channels == 1 && out_channels == 2 {
        assert forall|k: int| 0 <= k < r.len() implies #[trigger] r[k] == scaled[k / 2] by {
            assert(out[k] == input[k / 2]);
        }
    } else if in_channels == 2 && out_channels == 1 {
        assert forall|k: int| 0 <= k < r.len() implies if 2 * k + 1 < scaled.len() {
            call_ensures(mix, (scaled[2 * k], scaled[2 * k + 1]), #[trigger] r[k])
        } else {
            r[k] == scaled[2 * k]
        } by {
            if 2 * k + 1 < input.len() {
                assert(call_ensures(mix, (input[2 * k], input[2 * k + 1]), out[k]));
            } else {
                assert(out[k] == input[2 * k]);
            }
        }
    } else {
        assert forall|k: int| 0 <= k < r.len() implies #[trigger] r[k] == kept_sample(
            scaled,
            in_channels,
            silence,
            k / out_channels as int,
            k % out_channels as int,
        ) by {
            let frames = input.len() / in_channels;
            lemma_parts(k, out_channels as int, frames as int);
            let frame = k / out_channels as int;
            let ch = k % out_channels as int;
            assert(out[k] == kept_sample(input, in_channels, silence, frame, ch));
            if ch < in_channels {
                lemma_position(frame, ch, in_channels as int, frames as int);
                lemma_frames_fit(input.len() as int, in_channels as int);
            }
        }
    }
}

proof fn lemma_resampled_scales<T, B: Fn(usize, T, T) -> T>(
    blend: B,
    silence: T,
    channels: nat,
    positions: Seq<usize>,
    input: Seq<T>,
    out: Seq<T>,
    scale: spec_fn(T) -> T,
)
    requires
        channels > 0,
        resampled(blend, silence, channels, positions, input, out),
        scale(silence) == silence,
        forall|i: usize, a: T, b: T, r: T| #[trigger]
            call_ensures(blend, (i, a, b), r) ==> call_ensures(
                blend,
                (i, scale(a), scale(b)),
                scale(r),
            ),
    ensures
        resampled(
            blend,
            silence,
            channels,
            positions,
            input.map_values(scale),
            out.map_values(scale),
        ),
{
    let scaled = input.map_values(scale);
    let r = out.map_values(scale);
    assert forall|k: int| 0 <= k < r.len() implies blended(
        blend,
        silence,
        channels,
        positions,
        scaled,
        k,
        #[trigger] r[k],
    ) by {
        lemma_parts(k, channels as int, positions.len() as int);
        let frame = k / channels as int;
        let ch = k % channels as int;
        let position = positions[frame] as int;
        lemma_sample_at_is_there(input, channels, silence, position, ch);
        lemma_sample_at_is_there(input, channels, silence, position + 1, ch);
        assert(blended(blend, silence, channels, positions, input, k, out[k]));
    }
}

/// Where the channels are the same on both sides and nothing is resampled, all that happens to a
/// sample is that it is amplified.
pub proof fn plain_outputs_are_amplified_inputs<
    T,
    A: Fn(T) -> T,
    M: Fn(T, T) -> T,
    P: Fn(usize) -> Vec<usize>,
    B: Fn(usize, T, T) -> T,
>(
    input: Seq<T>,
    channels: nat,
    silence: T,
    amplify: A,
    mix: M,
    plan: P,
    blend: B,
    out: Seq<T>,
    i: int,
)
    requires
        processed(input, channels, channels, silence, amplify, mix, false, plan, blend, out),
        0 <= i < out.len(),
    ensures
        out.len() == input.len(),
        call_ensures(amplify, (input[i],), out[i]),
{
}

/// A converted frame holds the samples of its frame before: a single channel goes to both sides, two
/// channels are mixed into one, and otherwise each channel stays what it is, with silence on those
/// that are new.
pub proof fn converted_frames_hold_their_samples<T, M: Fn(T, T) -> T>(
    mix: M,
    silence: T,
    in_channels: nat,
    out_channels: nat,
    input: Seq<T>,
    out: Seq<T>,
    frame: int,
    ch: int,
)
    requires
        in_channels > 0,
        converted(mix, silence, in_channels, out_channels, input, out),
        0 <= frame < input.len() / in_channels,
        0 <= ch < out_channels,
    ensures
        ({
            let from = frame * in_channels;
            let to = frame * out_channels + ch;
            &&& 0 <= to < out.len()
            &&& 0 <= from && from + in_channels <= input.len()
            &&& if in_channels == 1 && out_channels == 2 {
                out[to] == input[from]
            } else if in_channels == 2 && out_channels == 1 {
                call_ensures(mix, (input[from], input[from + 1]), out[to])
            } else if ch < in_channels {
                out[to] == input[from + ch]
            } else {
                out[to] == silence
            }
        }),
{
    let frames = (input.len() / in_channels) as int;
    lemma_frames_fit(input.len() as int, in_channels as int);
    lemma_position(frame, ch, out_channels as int, frames);
    lemma_position(frame, in_channels - 1, in_channels as int, frames);
    lemma_position(frame, 0, in_channels as int, frames);
    let to = frame * out_channels + ch;
    if in_channels == 1 && out_channels == 2 {
        assert(out[to] == input[to / 2]);
    } else if in_channels == 2 && out_channels == 1 {
        assert(call_ensures(mix, (input[2 * to], input[2 * to + 1]), out[to]));
    } else if in_channels != out_channels {
        assert(out[to] == kept_sample(
            input,
            in_channels,
            silence,
            to / out_channels as int,
            to % out_channels as int,
        ));
    }
}

/// A resampled frame is blended of the frame at its position and the one after that, channel by
/// channel. The last frame stands in for the one after it, and silence for what lies beyond.
pub proof fn resampled_frames_blend_neighbours<T, B: Fn(usize, T, T) -> T>(
    blend: B,
    silence: T,
    channels: nat,
    positions: Seq<usize>,
    input: Seq<T>,
    out: Seq<T>,
    frame: int,
    ch: int,
)
    requires
        resampled(blend, silence, channels, positions, input, out),
        0 <= frame < positions.len(),
        0 <= ch < channels,
    ensures
        ({
            let frames = input.len() / channels;
            let at = positions[frame] as int;
            let first = if at < frames {
                input[at * channels + ch]
            } else {
                silence
            };
            let second = if at + 1 < frames {
                input[(at + 1) * channels + ch]
            } else {
                first
            };
            &&& out.len() == positions.len() * channels
            &&& 0 <= frame * channels + ch < out.len()
            &&& call_ensures(
                blend,
                (frame as usize, first, second),
                out[frame * channels + ch],
            )
        }),
{
    lemma_position(frame, ch, channels as int, positions.len() as int);
    let k = frame * channels + ch;
    assert(blended(blend, silence, channels, positions, input, k, out[k]));
}

/// A packet holds the samples of its buffer; one that is flagged as silent holds as much silence as
/// it has samples.
pub proof fn packets_hold_their_samples<T>(buffer: Seq<T>, count: nat, silence: T, i: int)
    requires
        0 <= i < count,
    ensures
        captured(Some(buffer), count, silence) == buffer,
        captured(None, count, silence).len() == count,
        captured(None, count, silence)[i] == silence,
{
}

/// As many frames are written as there are and as there is room for: never more, and either all of
/// them or as many as fit.
pub proof fn writes_use_the_room(
    output_len: int,
    render_channels: int,
    buffer_size: int,
    padding: int,
)
    requires
        0 <= output_len,
        0 < render_channels,
        0 <= padding <= buffer_size,
    ensures
        ({
            let frames = fitting_frames(output_len, render_channels, buffer_size, padding);
            &&& 0 <= frames
            &&& frames * render_channels <= output_len
            &&& padding + frames <= buffer_size
            &&& padding + frames == buffer_size || output_len < (frames + 1) * render_channels
        }),
{
    let all = output_len / render_channels;
    lemma_frames_fit(output_len, render_channels);
    assert(output_len < (all + 1) * render_channels) by (nonlinear_arith)
        requires
            all == output_len / render_channels,
            0 < render_channels,
    ;
    assert(0 <= all) by (nonlinear_arith)
        requires
            all == output_len / render_channels,
            0 <= output_len,
            0 < render_channels,
    ;
    let frames = fitting_frames(output_len, render_channels, buffer_size, padding);
    assert(frames * render_channels <= all * render_channels) by (nonlinear_arith)
        requires
            frames <= all,
            0 < render_channels,
    ;
}

/// All that comes out of the pipeline is made of samples that `amplify` has returned for the input,
/// with and without resampling.
pub proof fn processed_audio_is_amplified<
    T: Copy,
    A: Fn(T) -> T,
    M: Fn(T, T) -> T,
    P: Fn(usize) -> Vec<usize>,
    B: Fn(usize, T, T) -> T,
>(
    input: &[T],
    in_channels: usize,
    out_channels: usize,
    silence: T,
    amplify: A,
    mix: M,
    need_resample: bool,
    plan: P,
    blend: B,
    out: Vec<T>,
    holds: spec_fn(T) -> bool,
)
    requires
        in_channels > 0,
        out_channels > 0,
        call_ensures(
            process_audio::<T, A, M, P, B>,
            (
                input,
                in_channels,
                out_channels,
                silence,
                amplify,
                mix,
                need_resample,
                plan,
                blend,
            ),
            out,
        ),
        holds(silence),
        forall|i: int, r: T|
            0 <= i < input@.len() && #[trigger] call_ensures(amplify, (input@[i],), r) ==> holds(r),
        forall|a: T, b: T, r: T|
            holds(a) && holds(b) && #[trigger] call_ensures(mix, (a, b), r) ==> holds(r),
        forall|i: usize, a: T, b: T, r: T|
            holds(a) && holds(b) && #[trigger] call_ensures(blend, (i, a, b), r) ==> holds(r),
    ensures
        forall|k: int| 0 <= k < out@.len() ==> holds(#[trigger] out@[k]),
{
    outputs_are_made_of_amplified_samples(
        input@,
        in_channels as nat,
        out_channels as nat,
        silence,
        amplify,
        mix,
        need_resample,
        plan,
        blend,
        out@,
        holds,
    );
}

/// What is written is the beginning of the output, in whole frames.
pub proof fn writes_take_the_beginning<T: Copy>(
    output: &Vec<T>,
    render_channels: usize,
    buffer_size: u32,
    padding: u32,
    written: Vec<T>,
)
    requires
        render_channels > 0,
        padding <= buffer_size,
        call_ensures(
            samples_to_write::<T>,
            (output, render_channels, buffer_size, padding),
            written,
        ),
    ensures
        written@.is_prefix_of(output@),
        written@.len() % render_channels as nat == 0,
        written@.len() <= (buffer_size - padding) * render_channels,
        (buffer_size - padding) * render_channels <= written@.len() || output@.len() < written@.len()
            + render_channels,
{
    let frames = fitting_frames(
        output@.len() as int,
        render_channels as int,
        buffer_size as int,
        padding as int,
    );
    writes_use_the_room(
        output@.len() as int,
        render_channels as int,
        buffer_size as int,
        padding as int,
    );
    assert(0 <= frames * render_channels) by (nonlinear_arith)
        requires
            0 <= frames,
            0 < render_channels,
    ;
    assert(written@.len() == frames * render_channels);
    lemma_fundamental_div_mod_converse(
        frames * render_channels,
        render_channels as int,
        frames,
        0,
    );
    let room = buffer_size - padding;
    assert(frames * render_channels <= room * render_channels) by (nonlinear_arith)
        requires
            frames <= room,
            0 < render_channels,
    ;
    assert((frames + 1) * render_channels == frames * render_channels + render_channels)
        by (nonlinear_arith);
}

/// Resampling follows the plan for as many frames as came in: there is an output frame for each of
/// its positions, and with the same channels on both sides each is blended of the amplified frames
/// there.
pub proof fn resampling_follows_the_plan<
    T,
    A: Fn(T) -> T,
    M: Fn(T, T) -> T,
    P: Fn(usize) -> Vec<usize>,
    B: Fn(usize, T, T) -> T,
>(
    input: Seq<T>,
    in_channels: nat,
    out_channels: nat,
    silence: T,
    amplify: A,
    mix: M,
    plan: P,
    blend: B,
    out: Seq<T>,
) -> (r: (Vec<usize>, Seq<T>))
    requires
        in_channels > 0,
        out_channels > 0,
        input.len() % in_channels == 0,
        processed(
            input,
            in_channels,
            out_channels,
            silence,
            amplify,
            mix,
            true,
            plan,
            blend,
            out,
        ),
    ensures
        ({
            let (positions, louder) = r;
            &&& call_ensures(plan, ((input.len() / in_channels) as usize,), positions)
            &&& out.len() == positions@.len() * out_channels
            &&& louder.len() == input.len()
            &&& forall|i: int|
                0 <= i < input.len() ==> call_ensures(amplify, (input[i],), #[trigger] louder[i])
            &&& in_channels == out_channels ==> forall|frame: int, ch: int|
                0 <= frame < positions@.len() && 0 <= ch < out_channels && (positions@[frame] + 1)
                    * out_channels + ch < louder.len() ==> #[trigger] call_ensures(
                    blend,
                    (
                        frame as usize,
                        louder[positions@[frame] * out_channels + ch],
                        louder[(positions@[frame] + 1) * out_channels + ch],
                    ),
                    out[frame * out_channels + ch],
                )
        }),
{
    let (louder, fitted) = choose|louder: Seq<T>, fitted: Seq<T>|
        #![trigger amplified(amplify, input, louder), converted(
            mix, silence, in_channels, out_channels, louder, fitted,
        )]
        {
            &&& amplified(amplify, input, louder)
            &&& converted(mix, silence, in_channels, out_channels, louder, fitted)
            &&& exists|positions: Vec<usize>| #[trigger]
                call_ensures(plan, ((fitted.len() / out_channels) as usize,), positions)
                    && resampled(blend, silence, out_channels, positions@, fitted, out)
        };
    let positions = choose|positions: Vec<usize>| #[trigger]
        call_ensures(plan, ((fitted.len() / out_channels) as usize,), positions) && resampled(
            blend,
            silence,
            out_channels,
            positions@,
            fitted,
            out,
        );
    conversion_keeps_the_frames(mix, silence, in_channels, out_channels, louder, fitted);
    let frames = (input.len() / in_channels) as int;
    lemma_fundamental_div_mod_converse(
        fitted.len() as int,
        out_channels as int,
        frames,
        0,
    );
    if in_channels == out_channels {
        assert forall|frame: int, ch: int|
            0 <= frame < positions@.len() && 0 <= ch < out_channels && (positions@[frame] + 1)
                * out_channels + ch < louder.len() implies #[trigger] call_ensures(
            blend,
            (
                frame as usize,
                louder[positions@[frame] * out_channels + ch],
                louder[(positions@[frame] + 1) * out_channels + ch],
            ),
            out[frame * out_channels + ch],
        ) by {
            resampled_frames_blend_neighbours(
                blend,
                silence,
                out_channels,
                positions@,
                fitted,
                out,
                frame,
                ch,
            );
            let at = positions@[frame] as int;
            assert(fitted.len() == frames * out_channels);
            assert(at + 1 < frames) by (nonlinear_arith)
                requires
                    (at + 1) * out_channels + ch < frames * out_channels,
                    0 <= ch,
                    0 < out_channels,
            ;
        }
    }
    (positions, louder)
}

} // verus!
