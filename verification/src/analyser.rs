//! Sample history and frequency analysis.
//!
//! Samples, magnitudes and decibel values are IEEE 754 single precision
//! numbers held as their bit patterns: this module orders, stores and selects
//! them, and the arithmetic on them is handed in by the caller.

use vstd::prelude::*;

verus! {

/// The longest window that is ever analysed, and the length of the history.
pub const MAX_FFT_SIZE: usize = 32_768;

/// The bit pattern of negative infinity.
pub const NEGATIVE_INFINITY: u32 = 0xff80_0000;

/// The most that the previous spectrum may weigh, in the unit of the settings.
pub const MAX_SMOOTHING: u64 = 99_000_000_000;

/// The number of samples in one analysis window at `sample_rate`.
pub open spec fn fft_size(sample_rate: u32) -> nat {
    if sample_rate == 96_000 {
        8_192
    } else if sample_rate == 192_000 {
        16_384
    } else if sample_rate == 384_000 {
        32_768
    } else {
        4_096
    }
}

/// The number of samples in one analysis window.
pub fn fft_size_for_rate(sample_rate: u32) -> (size: usize)
    ensures
        size == fft_size(sample_rate),
        0 < size <= MAX_FFT_SIZE,
        size % 2 == 0,
{
    match sample_rate {
        96_000 => 8_192,
        192_000 => 16_384,
        384_000 => 32_768,
        _ => 4_096,
    }
}

/// The last `n` samples, or all of them where there are fewer.
pub open spec fn latest(samples: Seq<u32>, n: nat) -> Seq<u32> {
    if samples.len() <= n {
        samples
    } else {
        samples.subrange(samples.len() - n, samples.len() as int)
    }
}

/// A run of positive zeros.
pub open spec fn silence(n: nat) -> Seq<u32> {
    Seq::new(n, |i: int| 0u32)
}

/// The four bytes at `offset`, the lowest first, as one number.
pub open spec fn word_at(bytes: Seq<u8>, offset: int) -> u32 {
    (bytes[offset] + 0x100 * bytes[offset + 1] + 0x1_0000 * bytes[offset + 2] + 0x100_0000
        * bytes[offset + 3]) as u32
}

/// One sample of each channel.
pub open spec fn frame_words(bytes: Seq<u8>, channels: nat, frame: int) -> Seq<u32> {
    Seq::new(channels, |channel: int| word_at(bytes, frame * (channels * 4) + channel * 4))
}

/// The frames that `bytes` holds in full.
pub open spec fn frames_of(bytes: Seq<u8>, channels: nat) -> Seq<Seq<u32>> {
    Seq::new(bytes.len() / (channels * 4), |frame: int| frame_words(bytes, channels, frame))
}

/// `sample` is something that `mix` makes of one frame.
pub open spec fn mixes<M: Fn(&Vec<u32>) -> u32>(mix: M, frame: Seq<u32>, sample: u32) -> bool {
    exists|words: Vec<u32>|
        #![trigger words@]
        words@ == frame && call_ensures(mix, (&words,), sample)
}

/// `samples` is something that `mix` makes of the frames, one after another.
pub open spec fn mixed_down<M: Fn(&Vec<u32>) -> u32>(
    mix: M,
    frames: Seq<Seq<u32>>,
    samples: Seq<u32>,
) -> bool {
    &&& samples.len() == frames.len()
    &&& forall|i: int| 0 <= i < frames.len() ==> mixes(mix, frames[i], #[trigger] samples[i])
}

/// `mix` takes every frame of `channels` samples.
pub open spec fn mixes_frames<M: Fn(&Vec<u32>) -> u32>(mix: M, channels: nat) -> bool {
    forall|words: &Vec<u32>| words@.len() == channels ==> #[trigger] call_requires(mix, (words,))
}

/// The arithmetic takes every window of `size` samples and all that comes of
/// it, and a transformed window is at least half as long as the window.
pub open spec fn can_transform<T, B, D>(size: nat, magnitudes: T, blend: B, decibels: D) -> bool where
    T: Fn(&Vec<u32>) -> Vec<u32>,
    B: Fn(u32, u32, u64) -> u32,
    D: Fn(u32) -> u32,
 {
    &&& forall|window: &Vec<u32>|
        window@.len() == size ==> #[trigger] call_requires(magnitudes, (window,))
    &&& forall|window: &Vec<u32>, spectrum: Vec<u32>| #[trigger]
        call_ensures(magnitudes, (window,), spectrum) ==> spectrum@.len() >= window@.len() / 2
    &&& forall|previous: u32, magnitude: u32, weight: u64| #[trigger]
        call_requires(blend, (previous, magnitude, weight))
    &&& forall|magnitude: u32| #[trigger] call_requires(decibels, (magnitude,))
}

/// A native implementation of the frequency-domain algorithm of Web Audio's
/// `AnalyserNode`.
pub struct Analyser {
    samples: Vec<u32>,
    write: usize,
    available: usize,
    sample_rate: u32,
    smoothed: Vec<u32>,
    smoothing_fft_size: usize,
}

fn zeros(n: usize) -> (words: Vec<u32>)
    ensures
        words@ == silence(n as nat),
{
    let words: Vec<u32> = vec![0; n];
    assert(words@ =~= silence(n as nat));
    words
}

impl Default for Analyser {
    fn default() -> (analyser: Self)
        ensures
            analyser.wf(),
            analyser.history() == Seq::<u32>::empty(),
            analyser.rate() == 48_000,
            forall|size: nat| #[trigger] analyser.carried(size) == silence(size / 2),
    {
        let analyser = Analyser {
            samples: zeros(MAX_FFT_SIZE),
            write: 0,
            available: 0,
            sample_rate: 48_000,
            smoothed: Vec::new(),
            smoothing_fft_size: 0,
        };
        assert(analyser.history() =~= Seq::<u32>::empty());
        assert forall|size: nat| #[trigger] analyser.carried(size) == silence(size / 2) by {
            assert(analyser.smoothed@ =~= silence(0));
        }
        analyser
    }
}

impl Analyser {
    pub closed spec fn wf(self) -> bool {
        &&& self.samples@.len() == MAX_FFT_SIZE
        &&& self.write < MAX_FFT_SIZE
        &&& self.available <= MAX_FFT_SIZE
        &&& self.smoothed@.len() == self.smoothing_fft_size as nat / 2
    }

    /// The samples that are kept, the oldest first.
    pub closed spec fn history(self) -> Seq<u32> {
        Seq::new(
            self.available as nat,
            |i: int|
                self.samples@[(self.write + MAX_FFT_SIZE - self.available + i)
                    % MAX_FFT_SIZE as int],
        )
    }

    /// The sample rate of what was pushed last.
    pub closed spec fn rate(self) -> u32 {
        self.sample_rate
    }

    /// The smoothed magnitudes that the next analysis of `size` samples starts
    /// from.
    pub closed spec fn carried(self, size: nat) -> Seq<u32> {
        if self.smoothing_fft_size == size {
            self.smoothed@
        } else {
            silence(size / 2)
        }
    }

    /// The samples that are analysed next.
    pub open spec fn window(self) -> Seq<u32> {
        latest(self.history(), fft_size(self.rate()))
    }

    /// The history never outgrows the longest window, and what is carried over
    /// is half a window long.
    pub proof fn lemma_bounds(self)
        requires
            self.wf(),
        ensures
            self.history().len() <= MAX_FFT_SIZE,
            forall|size: nat| #[trigger] self.carried(size).len() == size / 2,
    {
    }

    /// Nothing tells two analysers apart.
    pub open spec fn same_state(self, other: Analyser) -> bool {
        &&& self.history() == other.history()
        &&& self.rate() == other.rate()
        &&& forall|size: nat| #[trigger] self.carried(size) == other.carried(size)
    }

    /// Pushing the samples in `bytes` can leave `after`.
    pub open spec fn pushed<M: Fn(&Vec<u32>) -> u32>(
        self,
        after: Analyser,
        bytes: Seq<u8>,
        channels: nat,
        sample_rate: u32,
        mix: M,
    ) -> bool {
        &&& after.rate() == sample_rate
        &&& exists|mono: Seq<u32>|
            {
                &&& #[trigger] mixed_down(mix, frames_of(bytes, channels), mono)
                &&& after.history() == latest(self.history() + mono, MAX_FFT_SIZE as nat)
            }
        &&& forall|size: nat| #[trigger] after.carried(size) == self.carried(size)
    }

    /// Pushing so many frames of silence leaves `after`.
    pub open spec fn fell_silent(self, after: Analyser, frames: nat) -> bool {
        &&& after.history() == latest(self.history() + silence(frames), MAX_FFT_SIZE as nat)
        &&& after.rate() == self.rate()
        &&& forall|size: nat| #[trigger] after.carried(size) == self.carried(size)
    }

    /// Forgets all samples and the spectrum that was smoothed so far.
    pub fn reset(&mut self)
        requires
            old(self).wf(),
        ensures
            final(self).wf(),
            old(self).was_reset(*final(self)),
    {
        self.samples = zeros(MAX_FFT_SIZE);
        self.write = 0;
        self.available = 0;
        let kept: usize = self.smoothed.len();
        self.smoothed = zeros(kept);
        assert(self.history() =~= Seq::<u32>::empty());
    }

    /// Mixes interleaved little-endian samples down to one channel with `mix`
    /// and appends them to the history. An incomplete frame at the end is left
    /// out.
    pub fn push_interleaved_f32le<M: Fn(&Vec<u32>) -> u32>(
        &mut self,
        bytes: &[u8],
        channels: usize,
        sample_rate: u32,
        mix: M,
    )
        requires
            old(self).wf(),
            channels * 4 <= usize::MAX,
            mixes_frames(mix, channels as nat),
        ensures
            final(self).wf(),
            channels == 0 ==> *final(self) == *old(self),
            channels > 0 ==> old(self).pushed(
                *final(self),
                bytes@,
                channels as nat,
                sample_rate,
                mix,
            ),
    {
        if channels == 0 {
            return;
        }
        let ghost before = self.history();
        let ghost frames = frames_of(bytes@, channels as nat);
        let ghost mut mono = Seq::<u32>::empty();
        self.sample_rate = sample_rate;
        let frame_bytes: usize = channels * 4;
        let length: usize = bytes.len();
        let mut offset: usize = 0;
        proof {
            self.lemma_bounds();
            assert(before + mono =~= before);
        }
        while length - offset >= frame_bytes
            invariant
                self.wf(),
                length == bytes@.len(),
                channels > 0,
                frame_bytes == channels * 4,
                offset <= bytes@.len(),
                offset == mono.len() * frame_bytes,
                mixes_frames(mix, channels as nat),
                frames == frames_of(bytes@, channels as nat),
                mono.len() <= frames.len(),
                forall|i: int| 0 <= i < mono.len() ==> mixes(mix, frames[i], #[trigger] mono[i]),
                self.history() == latest(before + mono, MAX_FFT_SIZE as nat),
                self.rate() == sample_rate,
                forall|size: nat| #[trigger] self.carried(size) == old(self).carried(size),
            decreases bytes@.len() - offset,
        {
            let ghost frame = mono.len() as int;
            assert(frame < frames.len()) by {
                assert(frame < bytes@.len() / (channels as nat * 4)) by (nonlinear_arith)
                    requires
                        bytes@.len() >= frame * frame_bytes + frame_bytes,
                        frame_bytes == channels as nat * 4,
                        frame >= 0,
                        channels > 0,
                ;
            }
            let mut words: Vec<u32> = Vec::new();
            let mut channel: usize = 0;
            while channel < channels
                invariant
                    channel <= channels,
                    length == bytes@.len(),
                    frame_bytes == channels * 4,
                    offset + frame_bytes <= bytes@.len(),
                    offset == frame * frame_bytes,
                    words@.len() == channel,
                    forall|c: int|
                        0 <= c < channel ==> words@[c] == word_at(bytes@, offset + c * 4),
                decreases channels - channel,
            {
                let at: usize = offset + channel * 4;
                let word: u32 = bytes[at] as u32 + 0x100 * bytes[at + 1] as u32 + 0x1_0000
                    * bytes[at + 2] as u32 + 0x100_0000 * bytes[at + 3] as u32;
                words.push(word);
                channel += 1;
            }
            assert(words@ =~= frames[frame]);
            let sample: u32 = mix(&words);
            assert(mixes(mix, frames[frame], sample));
            self.push(sample);
            proof {
                lemma_latest_push(before + mono, sample, MAX_FFT_SIZE as nat);
                assert((before + mono).push(sample) =~= before + mono.push(sample));
                assert((frame + 1) * frame_bytes == frame * frame_bytes + frame_bytes)
                    by (nonlinear_arith);
                mono = mono.push(sample);
            }
            offset += frame_bytes;
        }
        proof {
            assert(mono.len() == frames.len()) by {
                let n = mono.len();
                assert(bytes@.len() / (channels as nat * 4) == n) by (nonlinear_arith)
                    requires
                        n * frame_bytes <= bytes@.len() < n * frame_bytes + frame_bytes,
                        frame_bytes == channels as nat * 4,
                        channels > 0,
                ;
            }
            assert(mixed_down(mix, frames, mono));
        }
    }

    /// Appends silence to the history.
    pub fn push_silence(&mut self, frames: usize)
        requires
            old(self).wf(),
        ensures
            final(self).wf(),
            old(self).fell_silent(*final(self), frames as nat),
    {
        let ghost before = self.history();
        let mut pushed: usize = 0;
        proof {
            self.lemma_bounds();
            assert(before + silence(0) =~= before);
        }
        while pushed < frames
            invariant
                self.wf(),
                pushed <= frames,
                self.history() == latest(before + silence(pushed as nat), MAX_FFT_SIZE as nat),
                self.rate() == old(self).rate(),
                forall|size: nat| #[trigger] self.carried(size) == old(self).carried(size),
            decreases frames - pushed,
        {
            self.push(0);
            proof {
                lemma_latest_push(before + silence(pushed as nat), 0, MAX_FFT_SIZE as nat);
                assert((before + silence(pushed as nat)).push(0) =~= before + silence(
                    (pushed + 1) as nat,
                ));
            }
            pushed += 1;
        }
    }

    pub fn sample_rate(&self) -> (rate: u32)
        ensures
            rate == self.rate(),
    {
        self.sample_rate
    }

    fn push(&mut self, sample: u32)
        requires
            old(self).wf(),
        ensures
            final(self).wf(),
            final(self).history() == latest(
                old(self).history().push(sample),
                MAX_FFT_SIZE as nat,
            ),
            final(self).rate() == old(self).rate(),
            forall|size: nat| #[trigger] final(self).carried(size) == old(self).carried(size),
    {
        self.samples.set(self.write, sample);
        self.write = (self.write + 1) % MAX_FFT_SIZE;
        if self.available < MAX_FFT_SIZE {
            self.available += 1;
        }
        assert(self.history() =~= latest(old(self).history().push(sample), MAX_FFT_SIZE as nat));
    }

    /// Analysing the history leaves `after` and gives `values`.
    pub open spec fn transformed<T, B, D>(
        self,
        after: Analyser,
        bins: usize,
        smoothing: u64,
        magnitudes: T,
        blend: B,
        decibels: D,
        values: Seq<u32>,
    ) -> bool where
        T: Fn(&Vec<u32>) -> Vec<u32>,
        B: Fn(u32, u32, u64) -> u32,
        D: Fn(u32) -> u32,
     {
        let size = fft_size(self.rate());
        &&& after.wf()
        &&& after.history() == self.history()
        &&& after.rate() == self.rate()
        &&& values.len() == output_bins(bins, self.rate())
        &&& !self.analyses(bins) ==> {
            &&& forall|i: int| 0 <= i < values.len() ==> values[i] == NEGATIVE_INFINITY
            &&& forall|other: nat| #[trigger] after.carried(other) == self.carried(other)
        }
        &&& self.analyses(bins) ==> exists|window: Vec<u32>, spectrum: Vec<u32>|
            {
                &&& window@ == self.window()
                &&& #[trigger] call_ensures(magnitudes, (&window,), spectrum)
                &&& blended(
                    blend,
                    self.carried(size),
                    spectrum@,
                    weight(smoothing),
                    after.carried(size),
                )
            }
        &&& self.analyses(bins) ==> forall|other: nat|
            other != size ==> #[trigger] after.carried(other) == silence(other / 2)
        &&& self.analyses(bins) ==> forall|i: int|
            0 <= i < values.len() ==> call_ensures(
                decibels,
                (after.carried(size)[i],),
                #[trigger] values[i],
            )
    }

    /// The decibel values of the lowest `bins` frequencies, or of as many as
    /// there are.
    ///
    /// `magnitudes` transforms a window of samples, `blend` weighs a magnitude
    /// against the smoothed one before it, and `decibels` converts the result.
    /// Until a whole window of samples is there every value is negative
    /// infinity.
    pub fn frequency_data<T, B, D>(
        &mut self,
        bins: usize,
        smoothing: u64,
        magnitudes: T,
        blend: B,
        decibels: D,
    ) -> (values: Vec<u32>) where
        T: Fn(&Vec<u32>) -> Vec<u32>,
        B: Fn(u32, u32, u64) -> u32,
        D: Fn(u32) -> u32,

        requires
            old(self).wf(),
            can_transform(fft_size(old(self).rate()), magnitudes, blend, decibels),
        ensures
            old(self).transformed(
                *final(self),
                bins,
                smoothing,
                magnitudes,
                blend,
                decibels,
                values@,
            ),
    {
        let fft_size: usize = fft_size_for_rate(self.sample_rate);
        let half: usize = fft_size / 2;
        let output_bins: usize = if bins < half {
            bins
        } else {
            half
        };
        if self.available < fft_size || output_bins == 0 {
            let values: Vec<u32> = vec![NEGATIVE_INFINITY; output_bins];
            return values;
        }
        let ghost carried = self.carried(fft_size as nat);
        if self.smoothing_fft_size != fft_size {
            self.smoothed = zeros(half);
            self.smoothing_fft_size = fft_size;
        }
        assert(self.smoothed@ == carried);
        assert(self.history() =~= old(self).history());

        let oldest: usize = (self.write + MAX_FFT_SIZE - fft_size) % MAX_FFT_SIZE;
        let mut input: Vec<u32> = Vec::with_capacity(fft_size);
        let mut n: usize = 0;
        while n < fft_size
            invariant
                self.wf(),
                n <= fft_size <= self.available,
                oldest == (self.write + MAX_FFT_SIZE - fft_size) % MAX_FFT_SIZE as int,
                input@.len() == n,
                forall|i: int|
                    0 <= i < n ==> #[trigger] input@[i] == self.history()[self.available - fft_size
                        + i],
            decreases fft_size - n,
        {
            input.push(self.samples[(oldest + n) % MAX_FFT_SIZE]);
            n += 1;
        }
        assert(input@ =~= old(self).window());

        let spectrum: Vec<u32> = magnitudes(&input);
        let weight: u64 = if smoothing > MAX_SMOOTHING {
            MAX_SMOOTHING
        } else {
            smoothing
        };
        let mut index: usize = 0;
        while index < half
            invariant
                self.wf(),
                index <= half,
                half == fft_size as nat / 2,
                fft_size <= MAX_FFT_SIZE,
                self.smoothing_fft_size == fft_size,
                self.history() == old(self).history(),
                self.rate() == old(self).rate(),
                spectrum@.len() >= half,
                carried.len() == half,
                forall|previous: u32, magnitude: u32, weight: u64| #[trigger]
                    call_requires(blend, (previous, magnitude, weight)),
                forall|i: int|
                    0 <= i < index ==> call_ensures(
                        blend,
                        (carried[i], spectrum@[i], weight),
                        #[trigger] self.smoothed@[i],
                    ),
                forall|i: int| index <= i < half ==> self.smoothed@[i] == carried[i],
            decreases half - index,
        {
            let value: u32 = blend(self.smoothed[index], spectrum[index], weight);
            let ghost kept = self.history();
            self.smoothed.set(index, value);
            assert(self.history() =~= kept);
            index += 1;
        }

        let mut values: Vec<u32> = Vec::with_capacity(output_bins);
        let mut bin: usize = 0;
        while bin < output_bins
            invariant
                bin <= output_bins <= self.smoothed@.len(),
                values@.len() == bin,
                forall|magnitude: u32| #[trigger] call_requires(decibels, (magnitude,)),
                forall|i: int|
                    0 <= i < bin ==> call_ensures(
                        decibels,
                        (self.smoothed@[i],),
                        #[trigger] values@[i],
                    ),
            decreases output_bins - bin,
        {
            values.push(decibels(self.smoothed[bin]));
            bin += 1;
        }
        values
    }

    /// A whole window of samples is there, and some frequency is asked for.
    pub open spec fn analyses(self, bins: usize) -> bool {
        &&& self.history().len() >= fft_size(self.rate())
        &&& output_bins(bins, self.rate()) > 0
    }
}

/// The number of values that are returned where `bins` are asked for.
pub open spec fn output_bins(bins: usize, sample_rate: u32) -> nat {
    if bins as nat <= fft_size(sample_rate) / 2 {
        bins as nat
    } else {
        fft_size(sample_rate) / 2
    }
}

/// The weight of the previous spectrum, at most 0.99.
pub open spec fn weight(smoothing: u64) -> u64 {
    if smoothing > MAX_SMOOTHING {
        MAX_SMOOTHING
    } else {
        smoothing
    }
}

/// `blend` makes `result` of the previous magnitudes and the new ones.
pub open spec fn blended<B: Fn(u32, u32, u64) -> u32>(
    blend: B,
    previous: Seq<u32>,
    spectrum: Seq<u32>,
    weight: u64,
    result: Seq<u32>,
) -> bool {
    &&& result.len() == previous.len()
    &&& forall|i: int|
        0 <= i < result.len() ==> call_ensures(
            blend,
            (previous[i], spectrum[i], weight),
            #[trigger] result[i],
        )
}

proof fn lemma_latest_push(samples: Seq<u32>, sample: u32, n: nat)
    requires
        n > 0,
    ensures
        latest(latest(samples, n).push(sample), n) == latest(samples.push(sample), n),
{
    assert(latest(latest(samples, n).push(sample), n) =~= latest(samples.push(sample), n));
}

/// Keeping the latest samples after every push keeps the same samples as
/// keeping them once at the end.
pub proof fn law_keeping_the_latest_composes(first: Seq<u32>, second: Seq<u32>, n: nat)
    ensures
        latest(latest(first, n) + second, n) == latest(first + second, n),
{
    assert(latest(latest(first, n) + second, n) =~= latest(first + second, n));
}

/// Silence that is as long as a window replaces the window, whatever was
/// pushed before.
pub proof fn law_silence_replaces_the_window(before: Seq<u32>, frames: nat, size: nat)
    requires
        size <= frames,
        size <= MAX_FFT_SIZE,
    ensures
        latest(latest(before + silence(frames), MAX_FFT_SIZE as nat), size) == silence(size),
{
    assert(latest(latest(before + silence(frames), MAX_FFT_SIZE as nat), size) =~= silence(size));
}

/// A reset discards all samples: until a whole window is there again every value
/// is negative infinity.
pub proof fn law_a_reset_discards_all_samples<T, B, D>(
    reset: Analyser,
    after: Analyser,
    bins: usize,
    smoothing: u64,
    magnitudes: T,
    blend: B,
    decibels: D,
    values: Seq<u32>,
) where T: Fn(&Vec<u32>) -> Vec<u32>, B: Fn(u32, u32, u64) -> u32, D: Fn(u32) -> u32
    requires
        reset.history() == Seq::<u32>::empty(),
        reset.transformed(after, bins, smoothing, magnitudes, blend, decibels, values),
    ensures
        values == Seq::new(output_bins(bins, reset.rate()), |i: int| NEGATIVE_INFINITY),
{
}

/// Every window is a power of two long and fits into the history.
pub proof fn law_windows_are_powers_of_two(sample_rate: u32)
    ensures
        fft_size(sample_rate) <= MAX_FFT_SIZE,
        exists|exponent: nat| #[trigger]
            vstd::arithmetic::power2::pow2(exponent) == fft_size(sample_rate),
{
    vstd::arithmetic::power2::lemma2_to64();
    if sample_rate == 96_000 {
        assert(vstd::arithmetic::power2::pow2(13) == fft_size(sample_rate));
    } else if sample_rate == 192_000 {
        assert(vstd::arithmetic::power2::pow2(14) == fft_size(sample_rate));
    } else if sample_rate == 384_000 {
        assert(vstd::arithmetic::power2::pow2(15) == fft_size(sample_rate));
    } else {
        assert(vstd::arithmetic::power2::pow2(12) == fft_size(sample_rate));
    }
}

/// Silent bytes are silent frames.
pub proof fn law_zero_bytes_are_zero_words(bytes: Seq<u8>, channels: nat)
    requires
        channels > 0,
        forall|i: int| 0 <= i < bytes.len() ==> bytes[i] == 0,
    ensures
        forall|frame: int|
            0 <= frame < frames_of(bytes, channels).len() ==> #[trigger] frames_of(bytes, channels)[frame]
                == silence(channels),
{
    assert forall|frame: int| 0 <= frame < frames_of(bytes, channels).len() implies #[trigger]
        frames_of(bytes, channels)[frame] == silence(channels) by {
        assert forall|c: int| 0 <= c < channels implies #[trigger] frames_of(
            bytes,
            channels,
        )[frame][c] == 0 by {
            assert(0 <= frame * (channels * 4) && frame * (channels * 4) + c * 4 + 4
                <= bytes.len()) by (nonlinear_arith)
                requires
                    0 <= frame < bytes.len() / (channels * 4),
                    0 <= c < channels,
            ;
        }
        assert(frames_of(bytes, channels)[frame] =~= silence(channels));
    }
}

/// Equal frames are mixed to equal samples.
pub open spec fn mixes_alike<M: Fn(&Vec<u32>) -> u32>(mix: M) -> bool {
    forall|first: &Vec<u32>, second: &Vec<u32>, a: u32, b: u32|
        first@ == second@ && #[trigger] call_ensures(mix, (first,), a) && #[trigger] call_ensures(
            mix,
            (second,),
            b,
        ) ==> a == b
}

/// Equal windows have equal magnitudes, and equal magnitudes are smoothed and
/// converted to equal values.
pub open spec fn transforms_alike<T, B, D>(magnitudes: T, blend: B, decibels: D) -> bool where
    T: Fn(&Vec<u32>) -> Vec<u32>,
    B: Fn(u32, u32, u64) -> u32,
    D: Fn(u32) -> u32,
 {
    &&& forall|first: &Vec<u32>, second: &Vec<u32>, a: Vec<u32>, b: Vec<u32>|
        first@ == second@ && #[trigger] call_ensures(magnitudes, (first,), a)
            && #[trigger] call_ensures(magnitudes, (second,), b) ==> a@ == b@
    &&& forall|previous: u32, magnitude: u32, weight: u64, a: u32, b: u32|
        #[trigger] call_ensures(blend, (previous, magnitude, weight), a)
            && #[trigger] call_ensures(blend, (previous, magnitude, weight), b) ==> a == b
    &&& forall|magnitude: u32, a: u32, b: u32|
        #[trigger] call_ensures(decibels, (magnitude,), a) && #[trigger] call_ensures(
            decibels,
            (magnitude,),
            b,
        ) ==> a == b
}

/// Words as bytes, the lowest byte of each first.
pub open spec fn bytes_of(words: Seq<u32>) -> Seq<u8> {
    Seq::new(
        4 * words.len(),
        |i: int|
            (if i % 4 == 0 {
                words[i / 4] % 0x100
            } else if i % 4 == 1 {
                words[i / 4] / 0x100 % 0x100
            } else if i % 4 == 2 {
                words[i / 4] / 0x1_0000 % 0x100
            } else {
                words[i / 4] / 0x100_0000
            }) as u8,
    )
}

/// Two analyses of equal windows that carry equal spectra over go alike.
proof fn lemma_analyses_alike<T, B, D>(
    first: Analyser,
    second: Analyser,
    first_after: Analyser,
    second_after: Analyser,
    fewer: usize,
    more: usize,
    smoothing: u64,
    magnitudes: T,
    blend: B,
    decibels: D,
    first_values: Seq<u32>,
    second_values: Seq<u32>,
) where T: Fn(&Vec<u32>) -> Vec<u32>, B: Fn(u32, u32, u64) -> u32, D: Fn(u32) -> u32
    requires
        transforms_alike(magnitudes, blend, decibels),
        first.rate() == second.rate(),
        first.window() == second.window(),
        first.carried(fft_size(first.rate())) == second.carried(fft_size(first.rate())),
        1 <= fewer <= more,
        first.analyses(fewer),
        second.analyses(more),
        first.transformed(
            first_after,
            fewer,
            smoothing,
            magnitudes,
            blend,
            decibels,
            first_values,
        ),
        second.transformed(
            second_after,
            more,
            smoothing,
            magnitudes,
            blend,
            decibels,
            second_values,
        ),
    ensures
        forall|size: nat| #[trigger] first_after.carried(size) == second_after.carried(size),
        first_values == second_values.take(output_bins(fewer, first.rate()) as int),
{
    let size = fft_size(first.rate());
    let (window, spectrum) = choose|window: Vec<u32>, spectrum: Vec<u32>|
        {
            &&& window@ == first.window()
            &&& #[trigger] call_ensures(magnitudes, (&window,), spectrum)
            &&& blended(
                blend,
                first.carried(size),
                spectrum@,
                weight(smoothing),
                first_after.carried(size),
            )
        };
    let (other_window, other_spectrum) = choose|window: Vec<u32>, spectrum: Vec<u32>|
        {
            &&& window@ == second.window()
            &&& #[trigger] call_ensures(magnitudes, (&window,), spectrum)
            &&& blended(
                blend,
                second.carried(size),
                spectrum@,
                weight(smoothing),
                second_after.carried(size),
            )
        };
    assert(spectrum@ == other_spectrum@);
    assert(first_after.carried(size) =~= second_after.carried(size));
    assert forall|other: nat| #[trigger]
        first_after.carried(other) == second_after.carried(other) by {
        if other != size {
            assert(first_after.carried(other) == silence(other / 2));
            assert(second_after.carried(other) == silence(other / 2));
        }
    }
    let bins = output_bins(fewer, first.rate());
    assert forall|i: int| 0 <= i < bins implies first_values[i] == second_values[i] by {
        assert(call_ensures(decibels, (first_after.carried(size)[i],), first_values[i]));
        assert(call_ensures(decibels, (second_after.carried(size)[i],), second_values[i]));
    }
    assert(first_values =~= second_values.take(bins as int));
}

/// Of two analysers in the same state, the one that is asked for fewer
/// frequencies gives the first of the other's values, and both are in the same
/// state again: all frequencies are smoothed, whatever is asked for. Where the
/// arithmetic leaves several results open, what the other comes to is one that
/// the first can come to.
pub proof fn law_fewer_bins_give_a_prefix<T, B, D>(
    first: Analyser,
    second: Analyser,
    first_after: Analyser,
    second_after: Analyser,
    fewer: usize,
    more: usize,
    smoothing: u64,
    magnitudes: T,
    blend: B,
    decibels: D,
    first_values: Seq<u32>,
    second_values: Seq<u32>,
) where T: Fn(&Vec<u32>) -> Vec<u32>, B: Fn(u32, u32, u64) -> u32, D: Fn(u32) -> u32
    requires
        first.same_state(second),
        1 <= fewer <= more,
        second.transformed(
            second_after,
            more,
            smoothing,
            magnitudes,
            blend,
            decibels,
            second_values,
        ),
    ensures
        first.transformed(
            second_after,
            fewer,
            smoothing,
            magnitudes,
            blend,
            decibels,
            second_values.take(output_bins(fewer, first.rate()) as int),
        ),
        transforms_alike(magnitudes, blend, decibels) && first.transformed(
            first_after,
            fewer,
            smoothing,
            magnitudes,
            blend,
            decibels,
            first_values,
        ) ==> {
            &&& first_values == second_values.take(output_bins(fewer, first.rate()) as int)
            &&& first_after.same_state(second_after)
        },
{
    let size = fft_size(first.rate());
    let prefix = second_values.take(output_bins(fewer, first.rate()) as int);
    assert(first.carried(size) == second.carried(size));
    if first.history().len() >= size {
        assert forall|i: int| 0 <= i < prefix.len() implies call_ensures(
            decibels,
            (second_after.carried(size)[i],),
            #[trigger] prefix[i],
        ) by {
            assert(call_ensures(decibels, (second_after.carried(size)[i],), second_values[i]));
        }
        if transforms_alike(magnitudes, blend, decibels) && first.transformed(
            first_after,
            fewer,
            smoothing,
            magnitudes,
            blend,
            decibels,
            first_values,
        ) {
            lemma_analyses_alike(
                first,
                second,
                first_after,
                second_after,
                fewer,
                more,
                smoothing,
                magnitudes,
                blend,
                decibels,
                first_values,
                second_values,
            );
        }
    } else {
        assert forall|other: nat| #[trigger] second_after.carried(other) == first.carried(other) by {
            assert(second_after.carried(other) == second.carried(other));
            assert(first.carried(other) == second.carried(other));
        }
        if first.transformed(
            first_after,
            fewer,
            smoothing,
            magnitudes,
            blend,
            decibels,
            first_values,
        ) {
            assert forall|other: nat| #[trigger]
                first_after.carried(other) == second_after.carried(other) by {
                assert(first_after.carried(other) == first.carried(other));
            }
            assert(first_values =~= prefix);
        }
    }
}

/// Where no frequency is asked for there is no value, and the state stays.
pub proof fn law_no_bins_change_nothing<T, B, D>(
    analyser: Analyser,
    after: Analyser,
    smoothing: u64,
    magnitudes: T,
    blend: B,
    decibels: D,
    values: Seq<u32>,
) where T: Fn(&Vec<u32>) -> Vec<u32>, B: Fn(u32, u32, u64) -> u32, D: Fn(u32) -> u32
    requires
        analyser.transformed(after, 0, smoothing, magnitudes, blend, decibels, values),
    ensures
        values == Seq::<u32>::empty(),
        after.same_state(analyser),
{
}

/// Only the newest window shows: analysers with the same rate that carry the
/// same spectrum over give the same values and carry the same on, if the samples
/// that they have got end with the same whole window, whatever came before it.
/// Where the arithmetic leaves several results open, what the second comes to is
/// one that the first can come to.
pub proof fn law_only_the_newest_window_shows<T, B, D>(
    first: Analyser,
    second: Analyser,
    first_after: Analyser,
    second_after: Analyser,
    first_samples: Seq<u32>,
    second_samples: Seq<u32>,
    bins: usize,
    smoothing: u64,
    magnitudes: T,
    blend: B,
    decibels: D,
    first_values: Seq<u32>,
    second_values: Seq<u32>,
) where T: Fn(&Vec<u32>) -> Vec<u32>, B: Fn(u32, u32, u64) -> u32, D: Fn(u32) -> u32
    requires
        first.wf(),
        first.rate() == second.rate(),
        forall|size: nat| #[trigger] first.carried(size) == second.carried(size),
        first.history() == latest(first_samples, MAX_FFT_SIZE as nat),
        second.history() == latest(second_samples, MAX_FFT_SIZE as nat),
        first_samples.len() >= fft_size(first.rate()),
        second_samples.len() >= fft_size(first.rate()),
        latest(first_samples, fft_size(first.rate())) == latest(
            second_samples,
            fft_size(first.rate()),
        ),
        second.transformed(
            second_after,
            bins,
            smoothing,
            magnitudes,
            blend,
            decibels,
            second_values,
        ),
    ensures
        exists|reached: Analyser|
            {
                &&& #[trigger] first.transformed(
                    reached,
                    bins,
                    smoothing,
                    magnitudes,
                    blend,
                    decibels,
                    second_values,
                )
                &&& forall|size: nat| #[trigger] reached.carried(size) == second_after.carried(size)
            },
        transforms_alike(magnitudes, blend, decibels) && first.transformed(
            first_after,
            bins,
            smoothing,
            magnitudes,
            blend,
            decibels,
            first_values,
        ) ==> {
            &&& first_values == second_values
            &&& forall|size: nat| #[trigger] first_after.carried(size) == second_after.carried(size)
        },
{
    let size = fft_size(first.rate());
    law_windows_are_powers_of_two(first.rate());
    assert(first.window() =~= latest(first_samples, size));
    assert(second.window() =~= latest(second_samples, size));
    assert(first.carried(size) == second.carried(size));
    let reached = Analyser {
        smoothed: second_after.smoothed,
        smoothing_fft_size: second_after.smoothing_fft_size,
        ..first
    };
    assert(reached.history() =~= first.history());
    assert forall|other: nat| #[trigger] reached.carried(other) == second_after.carried(other) by {}
    if bins == 0 {
        assert forall|other: nat| #[trigger] reached.carried(other) == first.carried(other) by {
            assert(second_after.carried(other) == second.carried(other));
        }
    }
    assert(first.transformed(
        reached,
        bins,
        smoothing,
        magnitudes,
        blend,
        decibels,
        second_values,
    ));
    if transforms_alike(magnitudes, blend, decibels) && first.transformed(
        first_after,
        bins,
        smoothing,
        magnitudes,
        blend,
        decibels,
        first_values,
    ) {
        if bins > 0 {
            lemma_analyses_alike(
                first,
                second,
                first_after,
                second_after,
                bins,
                bins,
                smoothing,
                magnitudes,
                blend,
                decibels,
                first_values,
                second_values,
            );
            assert(first_values =~= second_values);
        } else {
            assert forall|other: nat| #[trigger]
                first_after.carried(other) == second_after.carried(other) by {
                assert(first_after.carried(other) == first.carried(other));
                assert(second_after.carried(other) == second.carried(other));
            }
            assert(first_values =~= second_values);
        }
    }
}

proof fn lemma_frames_append(first: Seq<u8>, rest: Seq<u8>, channels: nat)
    requires
        channels > 0,
        first.len() % (channels * 4) == 0,
    ensures
        frames_of(first + rest, channels) == frames_of(first, channels) + frames_of(rest, channels),
{
    let size = channels * 4;
    let whole = first.len() / size;
    let both = first + rest;
    vstd::arithmetic::div_mod::lemma_fundamental_div_mod(first.len() as int, size as int);
    assert(first.len() == whole * size) by (nonlinear_arith)
        requires
            first.len() == size * whole,
    ;
    assert((whole * size + rest.len()) / size == whole + rest.len() / size)
        by (nonlinear_arith)
        requires
            size > 0,
    ;
    let joined = frames_of(first, channels) + frames_of(rest, channels);
    assert forall|i: int| 0 <= i < joined.len() implies frames_of(both, channels)[i] == joined[i] by {
        let offset = if i < whole {
            0int
        } else {
            first.len() as int
        };
        let frame = if i < whole {
            i
        } else {
            i - whole
        };
        let part = if i < whole {
            first
        } else {
            rest
        };
        assert(i * size == offset + frame * size) by (nonlinear_arith)
            requires
                offset == 0 && frame == i || offset == whole * size && frame == i - whole,
        ;
        assert(0 <= frame * size && frame * size + size <= part.len()) by (nonlinear_arith)
            requires
                size > 0,
                0 <= frame < part.len() / size,
        ;
        assert forall|c: int| 0 <= c < channels implies #[trigger] frame_words(
            both,
            channels,
            i,
        )[c] == frame_words(part, channels, frame)[c] by {
            let place = frame * size + c * 4;
            assert(0 <= place && place + 4 <= part.len());
            assert(both[offset + place] == part[place]);
            assert(both[offset + place + 1] == part[place + 1]);
            assert(both[offset + place + 2] == part[place + 2]);
            assert(both[offset + place + 3] == part[place + 3]);
        }
        assert(frame_words(both, channels, i) =~= frame_words(part, channels, frame));
    }
    assert(frames_of(both, channels) =~= joined);
}

proof fn lemma_mixed_append<M: Fn(&Vec<u32>) -> u32>(
    mix: M,
    first: Seq<Seq<u32>>,
    rest: Seq<Seq<u32>>,
    mono: Seq<u32>,
    more: Seq<u32>,
)
    requires
        mixed_down(mix, first, mono),
        mixed_down(mix, rest, more),
    ensures
        mixed_down(mix, first + rest, mono + more),
{
    assert forall|i: int| 0 <= i < (first + rest).len() implies mixes(
        mix,
        (first + rest)[i],
        #[trigger] (mono + more)[i],
    ) by {
        if i < first.len() {
            assert(mixes(mix, first[i], mono[i]));
        } else {
            assert(mixes(mix, rest[i - first.len()], more[i - first.len()]));
        }
    }
}

proof fn lemma_mixed_alike<M: Fn(&Vec<u32>) -> u32>(
    mix: M,
    frames: Seq<Seq<u32>>,
    mono: Seq<u32>,
    other: Seq<u32>,
)
    requires
        mixes_alike(mix),
        mixed_down(mix, frames, mono),
        mixed_down(mix, frames, other),
    ensures
        mono == other,
{
    assert forall|i: int| 0 <= i < mono.len() implies mono[i] == other[i] by {
        assert(mixes(mix, frames[i], mono[i]));
        assert(mixes(mix, frames[i], other[i]));
    }
    assert(mono =~= other);
}

/// Two pushes of the same samples onto the same state leave the same state.
pub proof fn law_pushing_is_repeatable<M: Fn(&Vec<u32>) -> u32>(
    first: Analyser,
    second: Analyser,
    first_after: Analyser,
    second_after: Analyser,
    bytes: Seq<u8>,
    channels: nat,
    sample_rate: u32,
    mix: M,
)
    requires
        mixes_alike(mix),
        channels > 0,
        first.same_state(second),
        first.pushed(first_after, bytes, channels, sample_rate, mix),
        second.pushed(second_after, bytes, channels, sample_rate, mix),
    ensures
        first_after.same_state(second_after),
{
    let frames = frames_of(bytes, channels);
    let mono = choose|mono: Seq<u32>|
        {
            &&& #[trigger] mixed_down(mix, frames, mono)
            &&& first_after.history() == latest(first.history() + mono, MAX_FFT_SIZE as nat)
        };
    let other = choose|mono: Seq<u32>|
        {
            &&& #[trigger] mixed_down(mix, frames, mono)
            &&& second_after.history() == latest(second.history() + mono, MAX_FFT_SIZE as nat)
        };
    lemma_mixed_alike(mix, frames, mono, other);
    assert forall|size: nat| #[trigger]
        first_after.carried(size) == second_after.carried(size) by {
        assert(first_after.carried(size) == first.carried(size));
        assert(second_after.carried(size) == second.carried(size));
        assert(first.carried(size) == second.carried(size));
    }
}

/// Pushing whole frames and then the rest is pushing both at once. A rest that
/// is no whole frame adds no sample. Where `mix` leaves several results open, what
/// two pushes come to is something that one push can come to.
pub proof fn law_pushing_in_parts_is_pushing_at_once<M: Fn(&Vec<u32>) -> u32>(
    before: Analyser,
    between: Analyser,
    after: Analyser,
    once: Analyser,
    first: Seq<u8>,
    rest: Seq<u8>,
    channels: nat,
    sample_rate: u32,
    mix: M,
)
    requires
        between.wf(),
        channels > 0,
        first.len() % (channels * 4) == 0,
        before.pushed(between, first, channels, sample_rate, mix),
        between.pushed(after, rest, channels, sample_rate, mix),
    ensures
        before.pushed(after, first + rest, channels, sample_rate, mix),
        mixes_alike(mix) && before.pushed(once, first + rest, channels, sample_rate, mix)
            ==> after.same_state(once),
        rest.len() < channels * 4 ==> after.same_state(between),
{
    let mono = choose|mono: Seq<u32>|
        {
            &&& #[trigger] mixed_down(mix, frames_of(first, channels), mono)
            &&& between.history() == latest(before.history() + mono, MAX_FFT_SIZE as nat)
        };
    let more = choose|more: Seq<u32>|
        {
            &&& #[trigger] mixed_down(mix, frames_of(rest, channels), more)
            &&& after.history() == latest(between.history() + more, MAX_FFT_SIZE as nat)
        };
    lemma_frames_append(first, rest, channels);
    lemma_mixed_append(mix, frames_of(first, channels), frames_of(rest, channels), mono, more);
    law_keeping_the_latest_composes(before.history() + mono, more, MAX_FFT_SIZE as nat);
    assert(before.history() + mono + more =~= before.history() + (mono + more));
    assert forall|size: nat| #[trigger] after.carried(size) == before.carried(size) by {
        assert(after.carried(size) == between.carried(size));
        assert(between.carried(size) == before.carried(size));
    }
    assert(before.pushed(after, first + rest, channels, sample_rate, mix));
    if mixes_alike(mix) && before.pushed(once, first + rest, channels, sample_rate, mix) {
        law_pushing_is_repeatable(
            before,
            before,
            after,
            once,
            first + rest,
            channels,
            sample_rate,
            mix,
        );
    }
    if rest.len() < channels * 4 {
        assert(rest.len() / (channels * 4) == 0) by (nonlinear_arith)
            requires
                rest.len() < channels * 4,
        ;
        between.lemma_bounds();
        assert(between.history() + more =~= between.history());
    }
}

proof fn lemma_four_bytes(word: u32)
    ensures
        word % 0x100 + 0x100 * (word / 0x100 % 0x100) + 0x1_0000 * (word / 0x1_0000 % 0x100)
            + 0x100_0000 * (word / 0x100_0000) == word,
        word / 0x100_0000 < 0x100,
{
    assert(word / 0x1_0000 == word / 0x100 / 0x100);
    assert(word / 0x100_0000 == word / 0x1_0000 / 0x100);
}

proof fn lemma_word_of_bytes(words: Seq<u32>, i: int)
    requires
        0 <= i < words.len(),
    ensures
        word_at(bytes_of(words), i * 4) == words[i],
{
    let bytes = bytes_of(words);
    lemma_four_bytes(words[i]);
    assert(bytes[i * 4] == words[i] % 0x100);
    assert(bytes[i * 4 + 1] == words[i] / 0x100 % 0x100);
    assert(bytes[i * 4 + 2] == words[i] / 0x1_0000 % 0x100);
    assert(bytes[i * 4 + 3] == words[i] / 0x100_0000);
}

proof fn lemma_words_of_bytes(words: Seq<u32>)
    ensures
        frames_of(bytes_of(words), 1) == words.map_values(|word: u32| seq![word]),
{
    let bytes = bytes_of(words);
    let frames = frames_of(bytes, 1);
    assert(1nat * 4 == 4);
    assert(frames.len() == words.len());
    assert forall|i: int| 0 <= i < words.len() implies frames[i] == seq![words[i]] by {
        lemma_word_of_bytes(words, i);
        assert(frame_words(bytes, 1, i)[0] == word_at(bytes, i * 4));
        assert(frames[i] =~= seq![words[i]]);
    }
    assert(frames =~= words.map_values(|word: u32| seq![word]));
}

/// Mixing each of the samples with nothing else can keep it.
pub open spec fn keeps_samples<M: Fn(&Vec<u32>) -> u32>(mix: M, mono: Seq<u32>) -> bool {
    forall|i: int| 0 <= i < mono.len() ==> mixes(mix, seq![#[trigger] mono[i]], mono[i])
}

/// Pushing the mixed samples as one channel leaves the same state as pushing
/// what they are mixed from: one sample to the frame, in order. Mixing a sample
/// with nothing else has to keep it. Where `mix` leaves several results open, this
/// holds of those that the samples were mixed to.
pub proof fn law_mixed_samples_are_one_channel<M: Fn(&Vec<u32>) -> u32>(
    before: Analyser,
    after: Analyser,
    single: Analyser,
    bytes: Seq<u8>,
    channels: nat,
    sample_rate: u32,
    mix: M,
)
    requires
        channels > 0,
        before.pushed(after, bytes, channels, sample_rate, mix),
    ensures
        exists|mono: Seq<u32>|
            {
                &&& #[trigger] mixed_down(mix, frames_of(bytes, channels), mono)
                &&& keeps_samples(mix, mono) ==> before.pushed(
                    after,
                    bytes_of(mono),
                    1,
                    sample_rate,
                    mix,
                )
            },
        forall|mono: Seq<u32>|
            {
                &&& mixes_alike(mix)
                &&& #[trigger] mixed_down(mix, frames_of(bytes, channels), mono)
                &&& keeps_samples(mix, mono)
                &&& before.pushed(single, bytes_of(mono), 1, sample_rate, mix)
            } ==> after.same_state(single),
{
    let mixed = choose|mixed: Seq<u32>|
        {
            &&& #[trigger] mixed_down(mix, frames_of(bytes, channels), mixed)
            &&& after.history() == latest(before.history() + mixed, MAX_FFT_SIZE as nat)
        };
    lemma_words_of_bytes(mixed);
    let frames = frames_of(bytes_of(mixed), 1);
    if keeps_samples(mix, mixed) {
        assert forall|i: int| 0 <= i < frames.len() implies mixes(
            mix,
            frames[i],
            #[trigger] mixed[i],
        ) by {
            assert(mixes(mix, seq![mixed[i]], mixed[i]));
        }
        assert(mixed_down(mix, frames, mixed));
        assert(before.pushed(after, bytes_of(mixed), 1, sample_rate, mix));
        if mixes_alike(mix) && before.pushed(single, bytes_of(mixed), 1, sample_rate, mix) {
            law_pushing_is_repeatable(
                before,
                before,
                after,
                single,
                bytes_of(mixed),
                1,
                sample_rate,
                mix,
            );
        }
    }
    if mixes_alike(mix) {
        assert forall|mono: Seq<u32>| #[trigger]
            mixed_down(mix, frames_of(bytes, channels), mono) implies mono == mixed by {
            lemma_mixed_alike(mix, frames_of(bytes, channels), mono, mixed);
        }
    }
}

/// Silence is what zero bytes leave, at the rate so far, where a frame of zeros
/// is mixed to zero.
pub proof fn law_silence_is_zero_bytes<M: Fn(&Vec<u32>) -> u32>(
    before: Analyser,
    quiet: Analyser,
    after: Analyser,
    frames: nat,
    bytes: Seq<u8>,
    channels: nat,
    mix: M,
)
    requires
        channels > 0,
        bytes.len() == frames * (channels * 4),
        forall|i: int| 0 <= i < bytes.len() ==> bytes[i] == 0,
        mixes(mix, silence(channels), 0),
        before.fell_silent(quiet, frames),
    ensures
        before.pushed(quiet, bytes, channels, before.rate(), mix),
        mixes_alike(mix) && before.pushed(after, bytes, channels, before.rate(), mix)
            ==> after.same_state(quiet),
{
    let all = frames_of(bytes, channels);
    law_zero_bytes_are_zero_words(bytes, channels);
    assert(bytes.len() / (channels * 4) == frames) by (nonlinear_arith)
        requires
            bytes.len() == frames * (channels * 4),
            channels > 0,
    ;
    let mono = silence(frames);
    assert forall|i: int| 0 <= i < all.len() implies mixes(mix, all[i], #[trigger] mono[i]) by {
        assert(all[i] == silence(channels));
    }
    assert(mixed_down(mix, all, mono));
    assert(before.pushed(quiet, bytes, channels, before.rate(), mix));
    if mixes_alike(mix) && before.pushed(after, bytes, channels, before.rate(), mix) {
        law_pushing_is_repeatable(
            before,
            before,
            after,
            quiet,
            bytes,
            channels,
            before.rate(),
            mix,
        );
    }
}

/// A call of an analyser.
pub ghost enum Call {
    Push { bytes: Seq<u8>, channels: nat, sample_rate: u32 },
    PushSilence { frames: nat },
    Analyse { bins: usize, smoothing: u64 },
    Reset,
}

impl Analyser {
    /// A reset leaves `after`.
    pub open spec fn was_reset(self, after: Analyser) -> bool {
        &&& after.history() == Seq::<u32>::empty()
        &&& after.rate() == self.rate()
        &&& forall|size: nat| #[trigger] after.carried(size) == silence(size / 2)
    }

    /// A call can leave `after` and answer with `values`.
    pub open spec fn can_step<M, T, B, D>(
        self,
        after: Analyser,
        call: Call,
        values: Seq<u32>,
        mix: M,
        magnitudes: T,
        blend: B,
        decibels: D,
    ) -> bool where
        M: Fn(&Vec<u32>) -> u32,
        T: Fn(&Vec<u32>) -> Vec<u32>,
        B: Fn(u32, u32, u64) -> u32,
        D: Fn(u32) -> u32,
     {
        match call {
            Call::Push { bytes, channels, sample_rate } => {
                &&& values.len() == 0
                &&& if channels == 0 {
                    after.same_state(self)
                } else {
                    self.pushed(after, bytes, channels, sample_rate, mix)
                }
            },
            Call::PushSilence { frames } => values.len() == 0 && self.fell_silent(after, frames),
            Call::Analyse { bins, smoothing } => self.transformed(
                after,
                bins,
                smoothing,
                magnitudes,
                blend,
                decibels,
                values,
            ),
            Call::Reset => values.len() == 0 && self.was_reset(after),
        }
    }

    /// Some calls, one after another, can be answered so.
    pub open spec fn can_answer<M, T, B, D>(
        self,
        calls: Seq<Call>,
        answers: Seq<Seq<u32>>,
        mix: M,
        magnitudes: T,
        blend: B,
        decibels: D,
    ) -> bool where
        M: Fn(&Vec<u32>) -> u32,
        T: Fn(&Vec<u32>) -> Vec<u32>,
        B: Fn(u32, u32, u64) -> u32,
        D: Fn(u32) -> u32,

        decreases calls.len(),
    {
        &&& answers.len() == calls.len()
        &&& calls.len() > 0 ==> exists|after: Analyser|
            {
                &&& #[trigger] self.can_step(
                    after,
                    calls[0],
                    answers[0],
                    mix,
                    magnitudes,
                    blend,
                    decibels,
                )
                &&& after.can_answer(
                    calls.drop_first(),
                    answers.drop_first(),
                    mix,
                    magnitudes,
                    blend,
                    decibels,
                )
            }
    }
}

proof fn lemma_same_states_step_alike<M, T, B, D>(
    first: Analyser,
    second: Analyser,
    after: Analyser,
    call: Call,
    values: Seq<u32>,
    mix: M,
    magnitudes: T,
    blend: B,
    decibels: D,
) where
    M: Fn(&Vec<u32>) -> u32,
    T: Fn(&Vec<u32>) -> Vec<u32>,
    B: Fn(u32, u32, u64) -> u32,
    D: Fn(u32) -> u32

    requires
        first.same_state(second),
        first.can_step(after, call, values, mix, magnitudes, blend, decibels),
    ensures
        second.can_step(after, call, values, mix, magnitudes, blend, decibels),
{
    assert forall|size: nat| #[trigger] second.carried(size) == first.carried(size) by {
        assert(first.carried(size) == second.carried(size));
    }
    assert(second.carried(fft_size(first.rate())) == first.carried(fft_size(first.rate())));
}

proof fn lemma_same_states_answer_alike<M, T, B, D>(
    first: Analyser,
    second: Analyser,
    calls: Seq<Call>,
    answers: Seq<Seq<u32>>,
    mix: M,
    magnitudes: T,
    blend: B,
    decibels: D,
) where
    M: Fn(&Vec<u32>) -> u32,
    T: Fn(&Vec<u32>) -> Vec<u32>,
    B: Fn(u32, u32, u64) -> u32,
    D: Fn(u32) -> u32

    requires
        first.same_state(second),
        first.can_answer(calls, answers, mix, magnitudes, blend, decibels),
    ensures
        second.can_answer(calls, answers, mix, magnitudes, blend, decibels),
{
    if calls.len() > 0 {
        let after = choose|after: Analyser|
            {
                &&& #[trigger] first.can_step(
                    after,
                    calls[0],
                    answers[0],
                    mix,
                    magnitudes,
                    blend,
                    decibels,
                )
                &&& after.can_answer(
                    calls.drop_first(),
                    answers.drop_first(),
                    mix,
                    magnitudes,
                    blend,
                    decibels,
                )
            };
        lemma_same_states_step_alike(
            first,
            second,
            after,
            calls[0],
            answers[0],
            mix,
            magnitudes,
            blend,
            decibels,
        );
    }
}

/// Analysers in the same state answer every sequence of calls alike.
pub proof fn law_same_states_answer_alike<M, T, B, D>(
    first: Analyser,
    second: Analyser,
    calls: Seq<Call>,
    answers: Seq<Seq<u32>>,
    mix: M,
    magnitudes: T,
    blend: B,
    decibels: D,
) where
    M: Fn(&Vec<u32>) -> u32,
    T: Fn(&Vec<u32>) -> Vec<u32>,
    B: Fn(u32, u32, u64) -> u32,
    D: Fn(u32) -> u32

    requires
        first.same_state(second),
    ensures
        first.can_answer(calls, answers, mix, magnitudes, blend, decibels) == second.can_answer(
            calls,
            answers,
            mix,
            magnitudes,
            blend,
            decibels,
        ),
{
    assert(second.same_state(first)) by {
        assert forall|size: nat| #[trigger] second.carried(size) == first.carried(size) by {
            assert(first.carried(size) == second.carried(size));
        }
    }
    if first.can_answer(calls, answers, mix, magnitudes, blend, decibels) {
        lemma_same_states_answer_alike(
            first,
            second,
            calls,
            answers,
            mix,
            magnitudes,
            blend,
            decibels,
        );
    }
    if second.can_answer(calls, answers, mix, magnitudes, blend, decibels) {
        lemma_same_states_answer_alike(
            second,
            first,
            calls,
            answers,
            mix,
            magnitudes,
            blend,
            decibels,
        );
    }
}

/// After a reset every sequence of calls is answered as by a new analyser that
/// was set to the rate, with a push of no bytes: neither samples nor magnitudes
/// from before show.
pub proof fn law_a_reset_analyser_is_like_a_new_one<M, T, B, D>(
    used: Analyser,
    reset: Analyser,
    new: Analyser,
    tuned: Analyser,
    channels: nat,
    calls: Seq<Call>,
    answers: Seq<Seq<u32>>,
    mix: M,
    magnitudes: T,
    blend: B,
    decibels: D,
) where
    M: Fn(&Vec<u32>) -> u32,
    T: Fn(&Vec<u32>) -> Vec<u32>,
    B: Fn(u32, u32, u64) -> u32,
    D: Fn(u32) -> u32

    requires
        used.was_reset(reset),
        new.history() == Seq::<u32>::empty(),
        forall|size: nat| #[trigger] new.carried(size) == silence(size / 2),
        channels > 0,
        new.pushed(tuned, Seq::empty(), channels, used.rate(), mix),
    ensures
        reset.same_state(tuned),
        reset.can_answer(calls, answers, mix, magnitudes, blend, decibels) == tuned.can_answer(
            calls,
            answers,
            mix,
            magnitudes,
            blend,
            decibels,
        ),
{
    let none = frames_of(Seq::<u8>::empty(), channels);
    assert(0nat / (channels * 4) == 0) by (nonlinear_arith)
        requires
            channels > 0,
    ;
    let mono = choose|mono: Seq<u32>|
        {
            &&& #[trigger] mixed_down(mix, none, mono)
            &&& tuned.history() == latest(new.history() + mono, MAX_FFT_SIZE as nat)
        };
    assert(new.history() + mono =~= Seq::<u32>::empty());
    assert forall|size: nat| #[trigger] reset.carried(size) == tuned.carried(size) by {
        assert(tuned.carried(size) == new.carried(size));
    }
    law_same_states_answer_alike(
        reset,
        tuned,
        calls,
        answers,
        mix,
        magnitudes,
        blend,
        decibels,
    );
}

} // verus!
