//! What analysing audio comes to, for every analyser and every input.

use vstd::prelude::*;
use crate::analyser::{
    fft_size, fft_size_for_rate, frames_of, latest, mixed_down, mixes, silence, weight, word_at,
    Analyser,
};

verus! {

/// Three rates have windows in proportion to them, of 8192 samples at 96 kHz;
/// every other rate has windows of 4096 samples.
pub proof fn law_windows_grow_with_the_rate(sample_rate: u32, size: usize)
    requires
        call_ensures(fft_size_for_rate, (sample_rate,), size),
    ensures
        ({
            let high = sample_rate == 96_000 || sample_rate == 192_000 || sample_rate == 384_000;
            &&& high ==> size * 96_000 == 8_192 * sample_rate
            &&& !high ==> size == 4_096
        }),
        size == fft_size(sample_rate),
{
}

/// Every smoothing up to 0.99 is the weight of what was smoothed before, and
/// every one above counts as 0.99.
pub proof fn law_the_smoothing_is_the_weight(smoothing: u64)
    ensures
        smoothing <= 99_000_000_000 ==> weight(smoothing) == smoothing,
        smoothing >= 99_000_000_000 ==> weight(smoothing) == 99_000_000_000,
{
}

/// More smoothing never weighs less, and below the limit it weighs more.
pub proof fn law_more_smoothing_weighs_more(less: u64, more: u64)
    requires
        less < more,
    ensures
        weight(less) <= weight(more),
        more <= 99_000_000_000 ==> weight(less) < weight(more),
{
}

/// The latest samples are the end of all samples, in order, as many as are kept
/// or as there are.
pub proof fn law_the_latest_are_the_end(samples: Seq<u32>, n: nat)
    ensures
        latest(samples, n).len() <= n,
        latest(samples, n).len() <= samples.len(),
        latest(samples, n).len() == n || latest(samples, n).len() == samples.len(),
        forall|i: int|
            0 <= i < latest(samples, n).len() ==> #[trigger] latest(samples, n)[i]
                == samples[samples.len() - latest(samples, n).len() + i],
{
}

/// Silence is zeros and nothing else.
pub proof fn law_silence_is_zeros(n: nat)
    ensures
        silence(n).len() == n,
        forall|i: int| 0 <= i < n ==> #[trigger] silence(n)[i] == 0,
{
}

/// The first of four bytes is the lowest of the number that they make.
pub proof fn law_words_have_their_lowest_byte_first(bytes: Seq<u8>, offset: int)
    ensures
        word_at(bytes, offset) % 0x100 == bytes[offset],
        word_at(bytes, offset) / 0x100 % 0x100 == bytes[offset + 1],
        word_at(bytes, offset) / 0x1_0000 % 0x100 == bytes[offset + 2],
        word_at(bytes, offset) / 0x100_0000 == bytes[offset + 3],
{
    let (a, b, c, d) = (
        bytes[offset] as int,
        bytes[offset + 1] as int,
        bytes[offset + 2] as int,
        bytes[offset + 3] as int,
    );
    let word = a + 0x100 * b + 0x1_0000 * c + 0x100_0000 * d;
    assert(word / 0x100 == b + 0x100 * c + 0x1_0000 * d);
    assert(word / 0x1_0000 == c + 0x100 * d);
    assert(word / 0x100_0000 == d);
}

/// The frames follow one another, each with one word of four bytes to the
/// channel, and less than a whole frame is left over.
pub proof fn law_frames_follow_one_another(bytes: Seq<u8>, channels: nat)
    requires
        channels > 0,
    ensures
        frames_of(bytes, channels).len() * (channels * 4) <= bytes.len(),
        bytes.len() < (frames_of(bytes, channels).len() + 1) * (channels * 4),
        forall|frame: int|
            0 <= frame < frames_of(bytes, channels).len() ==> (#[trigger] frames_of(
                bytes,
                channels,
            )[frame]).len() == channels,
        forall|frame: int, channel: int|
            0 <= frame < frames_of(bytes, channels).len() && 0 <= channel < channels ==> #[trigger]
                frames_of(bytes, channels)[frame][channel] == word_at(
                bytes,
                4 * (frame * channels + channel),
            ),
{
    let size = channels * 4;
    vstd::arithmetic::div_mod::lemma_fundamental_div_mod(bytes.len() as int, size as int);
    vstd::arithmetic::div_mod::lemma_mod_bound(bytes.len() as int, size as int);
    let count = frames_of(bytes, channels).len();
    assert(count * size <= bytes.len() < (count + 1) * size) by (nonlinear_arith)
        requires
            bytes.len() == size * count + bytes.len() % size,
            0 <= bytes.len() % size < size,
    ;
    assert forall|frame: int, channel: int|
        0 <= frame < count && 0 <= channel < channels implies #[trigger] frames_of(bytes, channels)[
    frame][channel] == word_at(bytes, 4 * (frame * channels + channel)) by {
        assert(frame * (channels * 4) + channel * 4 == 4 * (frame * channels + channel))
            by (nonlinear_arith);
    }
}

/// An analysis, from the samples to the values. The newest samples, a whole
/// window of them and no others, are transformed. Every magnitude of the lower half
/// is smoothed with its predecessor, with the smoothing that was asked for, up to
/// 0.99. The values are those of the lowest frequencies, as many as are asked for
/// and there are. While there is no whole window, they are negative infinity, and
/// nothing is smoothed.
pub proof fn law_an_analysis_from_samples_to_values<T, B, D>(
    analyser: &mut Analyser,
    bins: usize,
    smoothing: u64,
    magnitudes: T,
    blend: B,
    decibels: D,
    values: Vec<u32>,
) where T: Fn(&Vec<u32>) -> Vec<u32>, B: Fn(u32, u32, u64) -> u32, D: Fn(u32) -> u32
    requires
        call_ensures(
            Analyser::frequency_data::<T, B, D>,
            (analyser, bins, smoothing, magnitudes, blend, decibels),
            values,
        ),
    ensures
        ({
            let rate = old(analyser).rate();
            let size: nat = if rate == 96_000 {
                8_192
            } else if rate == 192_000 {
                16_384
            } else if rate == 384_000 {
                32_768
            } else {
                4_096
            };
            let history = old(analyser).history();
            let (before, after) = (old(analyser).carried(size), final(analyser).carried(size));
            let asked: u64 = if smoothing <= 99_000_000_000 {
                smoothing
            } else {
                99_000_000_000
            };
            &&& values@.len() <= bins
            &&& values@.len() <= size / 2
            &&& values@.len() == bins || values@.len() == size / 2
            &&& final(analyser).history() == history
            &&& final(analyser).rate() == rate
            &&& history.len() < size ==> forall|i: int|
                0 <= i < values@.len() ==> #[trigger] values@[i] == 0xff80_0000
            &&& history.len() < size || bins == 0 ==> forall|other: nat| #[trigger]
                final(analyser).carried(other) == old(analyser).carried(other)
            &&& history.len() >= size && bins > 0 ==> {
                &&& exists|window: Vec<u32>, spectrum: Vec<u32>|
                    {
                        &&& window@.len() == size
                        &&& forall|i: int|
                            0 <= i < size ==> #[trigger] window@[i] == history[history.len() - size
                                + i]
                        &&& #[trigger] call_ensures(magnitudes, (&window,), spectrum)
                        &&& forall|i: int|
                            0 <= i < before.len() ==> call_ensures(
                                blend,
                                (before[i], spectrum@[i], asked),
                                #[trigger] after[i],
                            )
                    }
                &&& after.len() == before.len()
                &&& forall|i: int|
                    0 <= i < values@.len() ==> call_ensures(
                        decibels,
                        (after[i],),
                        #[trigger] values@[i],
                    )
                &&& forall|other: nat, i: int|
                    other != size && 0 <= i < other / 2 ==> (#[trigger] final(analyser).carried(
                        other,
                    )[i]) == 0
            }
        }),
{
    let rate = old(analyser).rate();
    let size = fft_size(rate);
    let history = old(analyser).history();
    if history.len() >= size && bins > 0 {
        assert(old(analyser).analyses(bins));
        let (window, spectrum) = choose|window: Vec<u32>, spectrum: Vec<u32>|
            {
                &&& window@ == old(analyser).window()
                &&& #[trigger] call_ensures(magnitudes, (&window,), spectrum)
                &&& crate::analyser::blended(
                    blend,
                    old(analyser).carried(size),
                    spectrum@,
                    weight(smoothing),
                    final(analyser).carried(size),
                )
            };
        law_the_latest_are_the_end(history, size);
        law_the_smoothing_is_the_weight(smoothing);
        assert forall|i: int| 0 <= i < size implies #[trigger] window@[i] == history[history.len()
            - size + i] by {
            assert(latest(history, size)[i] == history[history.len() - size + i]);
        }
        assert(call_ensures(magnitudes, (&window,), spectrum));
        assert forall|other: nat, i: int| other != size && 0 <= i < other / 2 implies (
        #[trigger] final(analyser).carried(other)[i]) == 0 by {
            assert(final(analyser).carried(other) == silence(other / 2));
        }
    }
}

/// A push, from the bytes to the history. Every whole frame is mixed to one
/// sample, in order; the samples are appended to the history, of which the newest
/// 32768 are kept; the rate is the one given. What was smoothed stays.
pub proof fn law_a_push_from_bytes_to_history<M: Fn(&Vec<u32>) -> u32>(
    analyser: &mut Analyser,
    bytes: &[u8],
    channels: usize,
    sample_rate: u32,
    mix: M,
)
    requires
        channels > 0,
        call_ensures(
            Analyser::push_interleaved_f32le::<M>,
            (analyser, bytes, channels, sample_rate, mix),
            (),
        ),
    ensures
        final(analyser).rate() == sample_rate,
        forall|size: nat| #[trigger]
            final(analyser).carried(size) == old(analyser).carried(size),
        exists|mono: Seq<u32>|
            {
                &&& mono.len() * (channels * 4) <= bytes@.len() < (mono.len() + 1) * (channels * 4)
                &&& forall|frame: int|
                    0 <= frame < mono.len() ==> is_mean_of(
                        mix,
                        bytes@,
                        channels as nat,
                        frame,
                        #[trigger] mono[frame],
                    )
                &&& #[trigger] is_end_of(
                    final(analyser).history(),
                    old(analyser).history() + mono,
                )
            },
{
    let before = old(analyser).history();
    let frames = frames_of(bytes@, channels as nat);
    let mono = choose|mono: Seq<u32>|
        {
            &&& #[trigger] mixed_down(mix, frames, mono)
            &&& final(analyser).history() == latest(
                before + mono,
                crate::analyser::MAX_FFT_SIZE as nat,
            )
        };
    law_frames_follow_one_another(bytes@, channels as nat);
    law_the_latest_are_the_end(before + mono, 32_768);
    assert forall|frame: int| 0 <= frame < mono.len() implies is_mean_of(
        mix,
        bytes@,
        channels as nat,
        frame,
        #[trigger] mono[frame],
    ) by {
        assert(mixes(mix, frames[frame], mono[frame]));
        let words = choose|words: Vec<u32>|
            #![trigger words@]
            words@ == frames[frame] && call_ensures(mix, (&words,), mono[frame]);
        assert forall|channel: int| 0 <= channel < channels implies {
            let place = 4 * (frame * channels + channel);
            &&& (#[trigger] words@[channel]) % 0x100 == bytes@[place]
            &&& words@[channel] / 0x100 % 0x100 == bytes@[place + 1]
            &&& words@[channel] / 0x1_0000 % 0x100 == bytes@[place + 2]
            &&& words@[channel] / 0x100_0000 == bytes@[place + 3]
        } by {
            assert(frames[frame][channel] == word_at(bytes@, 4 * (frame * channels + channel)));
            law_words_have_their_lowest_byte_first(bytes@, 4 * (frame * channels + channel));
        }
        assert(call_ensures(mix, (&words,), mono[frame]));
    }
    assert(mono.len() == frames.len());
    assert(is_end_of(final(analyser).history(), before + mono));
}

/// `sample` is something that `mix` makes of a frame, which lies in the bytes
/// with four bytes to the channel, the lowest first.
pub open spec fn is_mean_of<M: Fn(&Vec<u32>) -> u32>(
    mix: M,
    bytes: Seq<u8>,
    channels: nat,
    frame: int,
    sample: u32,
) -> bool {
    exists|words: Vec<u32>|
        {
            &&& #[trigger] call_ensures(mix, (&words,), sample)
            &&& words@.len() == channels
            &&& forall|channel: int|
                0 <= channel < channels ==> {
                    let place = 4 * (frame * channels + channel);
                    &&& (#[trigger] words@[channel]) % 0x100 == bytes[place]
                    &&& words@[channel] / 0x100 % 0x100 == bytes[place + 1]
                    &&& words@[channel] / 0x1_0000 % 0x100 == bytes[place + 2]
                    &&& words@[channel] / 0x100_0000 == bytes[place + 3]
                }
        }
}

/// `kept` is the end of all samples, up to 32768 of them.
pub open spec fn is_end_of(kept: Seq<u32>, all: Seq<u32>) -> bool {
    &&& kept.len() <= 32_768
    &&& kept.len() == 32_768 || kept.len() == all.len()
    &&& kept.len() <= all.len()
    &&& forall|i: int|
        0 <= i < kept.len() ==> #[trigger] kept[i] == all[all.len() - kept.len() + i]
}

/// Silence moves the history on by zeros and changes nothing else.
pub proof fn law_silence_moves_the_history_on(analyser: &mut Analyser, frames: usize)
    requires
        call_ensures(Analyser::push_silence, (analyser, frames), ()),
    ensures
        final(analyser).rate() == old(analyser).rate(),
        forall|size: nat| #[trigger]
            final(analyser).carried(size) == old(analyser).carried(size),
        is_end_of(
            final(analyser).history(),
            old(analyser).history() + Seq::new(frames as nat, |i: int| 0u32),
        ),
{
    law_the_latest_are_the_end(old(analyser).history() + silence(frames as nat), 32_768);
    assert(silence(frames as nat) =~= Seq::new(frames as nat, |i: int| 0u32));
}

/// A reset leaves no sample and no smoothed magnitude, and keeps the rate.
pub proof fn law_a_reset_leaves_only_the_rate(analyser: &mut Analyser, size: nat, i: int)
    requires
        call_ensures(Analyser::reset, (analyser,), ()),
        0 <= i < size / 2,
    ensures
        final(analyser).history().len() == 0,
        final(analyser).rate() == old(analyser).rate(),
        final(analyser).carried(size)[i] == 0,
{
    assert(final(analyser).carried(size) == silence(size / 2));
}

/// No channels are no audio: nothing changes.
pub proof fn law_no_channels_are_no_audio<M: Fn(&Vec<u32>) -> u32>(
    analyser: &mut Analyser,
    bytes: &[u8],
    sample_rate: u32,
    mix: M,
)
    requires
        call_ensures(
            Analyser::push_interleaved_f32le::<M>,
            (analyser, bytes, 0usize, sample_rate, mix),
            (),
        ),
    ensures
        *final(analyser) == *old(analyser),
{
}

} // verus!
