//! Decoded media, and what playing them asks of the pipeline.
//!
//! Times are nanoseconds; volumes and parts of a stream are billionths.

use std::collections::VecDeque;
use vstd::prelude::*;
use vstd::string::StringExecFns;
use crate::analyser::{
    frames_of, latest, law_keeping_the_latest_composes, mixed_down, mixes, silence, Analyser,
    MAX_FFT_SIZE,
};
use crate::geometry::rounded;
use crate::settings::{clamped_fraction, FRACTION_ONE};

verus! {

/// The number of audio chunks that wait for their time at most.
pub const MAX_PENDING: usize = 256;

/// How far ahead of the playback position audio is analysed.
pub const ANALYSIS_LEAD: u64 = 25_000_000;

/// The longest silence that one update adds while playback is paused.
pub const MAX_SILENCE: u64 = 100_000_000;

/// The latest time that a stream can have.
pub const LATEST_TIME: u64 = 0xffff_ffff_ffff_fffe;

/// A picture with four bytes to the pixel and no gaps between its rows.
pub struct VideoFrame {
    pub width: u32,
    pub height: u32,
    pub rgba: Vec<u8>,
}

/// Why a picture is not taken.
#[derive(Clone, Copy, Debug, PartialEq, Eq, Structural)]
pub enum FrameError {
    /// The rows overlap, or run backwards.
    Stride,
}

/// The rows of a picture lie far enough apart, one behind the other.
pub open spec fn stride_fits(width: u32, stride: i32) -> bool {
    stride >= 0 && stride >= width * 4
}

impl VideoFrame {
    pub open spec fn wf(self) -> bool {
        self.rgba@.len() == self.height * (self.width * 4)
    }

    /// Every row is the start of the row of `data` that starts at a multiple of
    /// `stride`.
    pub open spec fn packs(self, data: Seq<u8>, stride: int) -> bool {
        forall|row: int, column: int|
            #![trigger data[row * stride + column]]
            #![trigger self.rgba@[row * (self.width * 4) + column]]
            0 <= row < self.height && 0 <= column < self.width * 4 ==> self.rgba@[row * (self.width
                * 4) + column] == data[row * stride + column]
    }

    /// Copies a picture whose rows start `stride` bytes apart.
    pub fn from_plane(data: &[u8], width: u32, height: u32, stride: i32) -> (frame: Result<
        VideoFrame,
        FrameError,
    >)
        requires
            stride_fits(width, stride) && height > 0 ==> data@.len() >= (height - 1) * stride + width
                * 4,
        ensures
            frame is Err <==> !stride_fits(width, stride),
            frame matches Ok(frame) ==> {
                &&& frame.width == width
                &&& frame.height == height
                &&& frame.wf()
                &&& frame.packs(data@, stride as int)
            },
    {
        if stride < 0 || (stride as u64) < width as u64 * 4 {
            return Err(FrameError::Stride);
        }
        let length: usize = data.len();
        let stride: usize = stride as usize;
        let row_bytes: usize = width as usize * 4;
        let mut rgba: Vec<u8> = Vec::new();
        let mut start: usize = 0;
        let mut row: u32 = 0;
        while row < height
            invariant
                row <= height,
                length == data@.len(),
                row_bytes == width * 4,
                row_bytes <= stride,
                height > 0 ==> length >= (height - 1) * stride + row_bytes,
                row < height ==> start == row * stride,
                rgba@.len() == row * row_bytes,
                forall|r: int, column: int|
                    #![trigger data@[r * stride + column]]
                    #![trigger rgba@[r * row_bytes + column]]
                    0 <= r < row && 0 <= column < row_bytes ==> rgba@[r * row_bytes + column]
                        == data@[r * stride + column],
            decreases height - row,
        {
            assert(row * stride + row_bytes <= length) by (nonlinear_arith)
                requires
                    0 <= row <= height - 1,
                    length >= (height - 1) * stride + row_bytes,
                    stride >= 0,
            ;
            let ghost before = rgba@;
            let mut column: usize = 0;
            while column < row_bytes
                invariant
                    column <= row_bytes,
                    length == data@.len(),
                    start == row * stride,
                    start + row_bytes <= length,
                    before.len() == row * row_bytes,
                    rgba@.len() == before.len() + column,
                    forall|i: int| 0 <= i < before.len() ==> rgba@[i] == before[i],
                    forall|c: int|
                        0 <= c < column ==> #[trigger] rgba@[before.len() + c] == data@[start + c],
                decreases row_bytes - column,
            {
                rgba.push(data[start + column]);
                column += 1;
            }
            assert forall|r: int, c: int|
                #![trigger data@[r * stride + c]]
                #![trigger rgba@[r * row_bytes + c]]
                0 <= r < row + 1 && 0 <= c < row_bytes implies rgba@[r * row_bytes + c]
                == data@[r * stride + c] by {
                if r < row {
                    assert(0 <= r * row_bytes && r * row_bytes + c < before.len())
                        by (nonlinear_arith)
                        requires
                            0 <= r < row,
                            0 <= c < row_bytes,
                            before.len() == row * row_bytes,
                    ;
                    assert(before[r * row_bytes + c] == data@[r * stride + c]);
                } else {
                    assert(rgba@[before.len() + c] == data@[start + c]);
                }
            }
            assert((row + 1) * row_bytes == row * row_bytes + row_bytes) by (nonlinear_arith);
            if row + 1 < height {
                assert((row + 1) * stride == row * stride + stride) by (nonlinear_arith);
                assert((row + 1) * stride <= (height - 1) * stride) by (nonlinear_arith)
                    requires
                        row + 1 <= height - 1,
                        stride >= 0,
                ;
                start += stride;
            }
            row += 1;
        }
        Ok(VideoFrame { width, height, rgba })
    }
}

/// Audio that waits for its time.
pub struct AudioChunk {
    pub stream_time_ns: u64,
    pub sample_rate: u32,
    pub channels: usize,
    pub frames: usize,
    pub bytes: Vec<u8>,
}

impl AudioChunk {
    pub open spec fn wf(self) -> bool {
        0 < self.channels && self.channels * 4 <= usize::MAX
    }
}

/// A buffer of interleaved audio samples as the pipeline hands it over.
pub struct AudioBuffer {
    pub rate: Option<i32>,
    pub channels: Option<i32>,
    pub presentation_time: Option<u64>,
    pub stream_time: Option<u64>,
    pub discontinuity: bool,
    pub bytes: Vec<u8>,
}

impl AudioBuffer {
    /// The buffer says all that is needed to analyse it.
    pub open spec fn is_complete(self) -> bool {
        &&& self.rate is Some
        &&& self.channels is Some
        &&& self.presentation_time is Some
        &&& self.channels != Some(0i32)
    }

    /// The time at which the buffer is played.
    pub open spec fn time(self) -> u64 {
        match self.stream_time {
            Some(time) => time,
            None => self.presentation_time->0,
        }
    }

    /// The chunk that waits for that time.
    pub open spec fn is_held_by(self, chunk: AudioChunk) -> bool {
        &&& chunk.stream_time_ns == self.time()
        &&& chunk.sample_rate == self.rate->0 as u32
        &&& chunk.channels == self.channels->0
        &&& chunk.frames == self.bytes@.len() / (self.channels->0 as nat * 4)
        &&& chunk.bytes@ == self.bytes@
    }
}

/// The last chunks of a queue, as many as may wait.
pub open spec fn newest(queue: Seq<AudioChunk>) -> Seq<AudioChunk> {
    if queue.len() <= MAX_PENDING {
        queue
    } else {
        queue.skip(queue.len() - MAX_PENDING)
    }
}

/// The number of chunks at the front of a queue whose time is not after
/// `cutoff`.
pub open spec fn ready_count(queue: Seq<AudioChunk>, cutoff: u64) -> nat
    decreases queue.len(),
{
    if queue.len() > 0 && queue[0].stream_time_ns <= cutoff {
        1 + ready_count(queue.drop_first(), cutoff)
    } else {
        0
    }
}

/// The chunks of a queue whose time has come.
pub open spec fn ready(queue: Seq<AudioChunk>, cutoff: u64) -> Seq<AudioChunk> {
    queue.take(ready_count(queue, cutoff) as int)
}

/// All frames of some chunks, in order.
pub open spec fn stream_frames(chunks: Seq<AudioChunk>) -> Seq<Seq<u32>>
    decreases chunks.len(),
{
    if chunks.len() == 0 {
        Seq::empty()
    } else {
        stream_frames(chunks.drop_last()) + frames_of(
            chunks.last().bytes@,
            chunks.last().channels as nat,
        )
    }
}

/// The number of frames that some chunks say they hold.
pub open spec fn frame_total(chunks: Seq<AudioChunk>) -> int
    decreases chunks.len(),
{
    if chunks.len() == 0 {
        0
    } else {
        frame_total(chunks.drop_last()) + chunks.last().frames
    }
}

/// The time up to which audio is analysed when playback is at `position`.
pub open spec fn analysis_cutoff(position: u64) -> u64 {
    if position + ANALYSIS_LEAD <= LATEST_TIME {
        (position + ANALYSIS_LEAD) as u64
    } else {
        LATEST_TIME
    }
}

/// `mix` takes every frame.
pub open spec fn mixes_all<M: Fn(&Vec<u32>) -> u32>(mix: M) -> bool {
    forall|words: &Vec<u32>| #[trigger] call_requires(mix, (words,))
}

/// What the pipeline decodes and the renderer draws.
pub struct SharedMedia {
    pub video: Option<VideoFrame>,
    pub analyser: Analyser,
    pub pending_audio: VecDeque<AudioChunk>,
    pub reset_analyser: bool,
    pub decoded_video_frames: u64,
    pub analysed_audio_frames: u64,
}

impl Default for SharedMedia {
    fn default() -> (shared: Self)
        ensures
            shared.wf(),
            shared.video is None,
            shared.pending() == Seq::<AudioChunk>::empty(),
            !shared.resets(),
            shared.decoded_video_frames == 0,
            shared.analysed_audio_frames == 0,
            shared.analyser.history() == Seq::<u32>::empty(),
            shared.analyser.rate() == 48_000,
            forall|size: nat| #[trigger] shared.analyser.carried(size) == silence(size / 2),
    {
        SharedMedia {
            video: None,
            analyser: Analyser::default(),
            pending_audio: VecDeque::new(),
            reset_analyser: false,
            decoded_video_frames: 0,
            analysed_audio_frames: 0,
        }
    }
}

impl SharedMedia {
    pub open spec fn wf(self) -> bool {
        &&& self.analyser.wf()
        &&& self.pending_audio@.len() <= MAX_PENDING
        &&& forall|i: int|
            0 <= i < self.pending_audio@.len() ==> (#[trigger] self.pending_audio@[i]).wf()
    }

    /// The audio that waits for its time, the oldest first.
    pub open spec fn pending(self) -> Seq<AudioChunk> {
        self.pending_audio@
    }

    /// The next update starts the analysis anew.
    pub open spec fn resets(self) -> bool {
        self.reset_analyser
    }

    /// Keeps a picture until it is drawn, in place of one that was not.
    pub fn store_video(&mut self, frame: VideoFrame)
        requires
            old(self).wf(),
        ensures
            final(self).wf(),
            final(self).video == Some(frame),
            final(self).decoded_video_frames == (old(self).decoded_video_frames + 1)
                % 0x1_0000_0000_0000_0000,
            final(self).analyser == old(self).analyser,
            final(self).pending() == old(self).pending(),
            final(self).resets() == old(self).resets(),
            final(self).analysed_audio_frames == old(self).analysed_audio_frames,
    {
        self.video = Some(frame);
        self.decoded_video_frames = self.decoded_video_frames.wrapping_add(1);
    }

    /// Hands over the picture that is to be drawn.
    pub fn take_video(&mut self) -> (frame: Option<VideoFrame>)
        requires
            old(self).wf(),
        ensures
            frame == old(self).video,
            final(self).wf(),
            *final(self) == (SharedMedia { video: None, ..*old(self) }),
    {
        self.video.take()
    }

    /// The numbers of pictures and audio frames since they were last asked for.
    pub fn take_counts(&mut self) -> (counts: (u64, u64))
        requires
            old(self).wf(),
        ensures
            counts == (old(self).decoded_video_frames, old(self).analysed_audio_frames),
            final(self).wf(),
            *final(self) == (SharedMedia {
                decoded_video_frames: 0,
                analysed_audio_frames: 0,
                ..*old(self)
            }),
    {
        let counts: (u64, u64) = (self.decoded_video_frames, self.analysed_audio_frames);
        self.decoded_video_frames = 0;
        self.analysed_audio_frames = 0;
        counts
    }

    /// Queues a buffer until its time comes. An incomplete one is left out; a
    /// discontinuity makes what waited before it void; of too many the oldest
    /// are dropped.
    pub fn queue_audio(&mut self, buffer: AudioBuffer)
        requires
            old(self).wf(),
            buffer.channels matches Some(channels) ==> 0 <= channels && channels * 4 <= usize::MAX,
        ensures
            final(self).wf(),
            !buffer.is_complete() ==> *final(self) == *old(self),
            buffer.is_complete() ==> exists|chunk: AudioChunk|
                {
                    &&& #[trigger] buffer.is_held_by(chunk)
                    &&& final(self).pending() == newest(
                        if buffer.discontinuity {
                            seq![chunk]
                        } else {
                            old(self).pending().push(chunk)
                        },
                    )
                },
            buffer.is_complete() ==> final(self).resets() == (buffer.discontinuity
                || old(self).resets()),
            final(self).video == old(self).video,
            final(self).analyser == old(self).analyser,
            final(self).decoded_video_frames == old(self).decoded_video_frames,
            final(self).analysed_audio_frames == old(self).analysed_audio_frames,
    {
        match (buffer.rate, buffer.channels, buffer.presentation_time) {
            (Some(rate), Some(channels), Some(presentation_time)) => {
                if channels == 0 {
                    return;
                }
                let ghost whole = buffer;
                let channels: usize = channels as usize;
                let stream_time_ns: u64 = match buffer.stream_time {
                    Some(time) => time,
                    None => presentation_time,
                };
                let frames: usize = buffer.bytes.len() / (channels * 4);
                if buffer.discontinuity {
                    self.pending_audio.clear();
                    self.reset_analyser = true;
                }
                let chunk = AudioChunk {
                    stream_time_ns,
                    sample_rate: rate as u32,
                    channels,
                    frames,
                    bytes: buffer.bytes,
                };
                assert(whole.is_held_by(chunk));
                self.pending_audio.push_back(chunk);
                let ghost queue = self.pending_audio@;
                assert(buffer.discontinuity ==> queue =~= seq![chunk]);
                while self.pending_audio.len() > MAX_PENDING
                    invariant
                        self.analyser.wf(),
                        queue.len() <= MAX_PENDING + 1,
                        self.pending_audio@.len() >= MAX_PENDING || self.pending_audio@ == queue,
                        newest(self.pending_audio@) == newest(queue),
                        forall|i: int|
                            0 <= i < self.pending_audio@.len() ==> (
                            #[trigger] self.pending_audio@[i]).wf(),
                        self.video == old(self).video,
                        self.analyser == old(self).analyser,
                        self.decoded_video_frames == old(self).decoded_video_frames,
                        self.analysed_audio_frames == old(self).analysed_audio_frames,
                        self.reset_analyser == (whole.discontinuity || old(self).reset_analyser),
                    decreases self.pending_audio@.len(),
                {
                    let ghost before = self.pending_audio@;
                    let _oldest = self.pending_audio.pop_front();
                    assert(newest(self.pending_audio@) =~= newest(before));
                }
            },
            _ => {},
        }
    }

    /// Makes the audio that waits void and the next update start anew.
    pub fn reset_analysis(&mut self)
        requires
            old(self).wf(),
        ensures
            final(self).wf(),
            final(self).pending() == Seq::<AudioChunk>::empty(),
            final(self).resets(),
            final(self).video == old(self).video,
            final(self).analyser == old(self).analyser,
            final(self).decoded_video_frames == old(self).decoded_video_frames,
            final(self).analysed_audio_frames == old(self).analysed_audio_frames,
    {
        self.pending_audio.clear();
        self.reset_analyser = true;
    }

    /// The history that an update goes on from.
    pub open spec fn base(self) -> Seq<u32> {
        if self.resets() {
            Seq::empty()
        } else {
            self.analyser.history()
        }
    }

    /// `after` is what analysing the audio up to `cutoff` leaves, with the
    /// frames mixed down by `mix`.
    pub open spec fn advanced<M: Fn(&Vec<u32>) -> u32>(
        self,
        after: SharedMedia,
        cutoff: u64,
        mix: M,
    ) -> bool {
        let taken = ready(self.pending(), cutoff);
        &&& after.wf()
        &&& after.pending() == self.pending().skip(taken.len() as int)
        &&& !after.resets()
        &&& after.video == self.video
        &&& after.decoded_video_frames == self.decoded_video_frames
        &&& after.analysed_audio_frames == (self.analysed_audio_frames + frame_total(taken))
            % 0x1_0000_0000_0000_0000
        &&& after.analyser.rate() == if taken.len() > 0 {
            taken.last().sample_rate
        } else {
            self.analyser.rate()
        }
        &&& exists|mono: Seq<u32>|
            {
                &&& #[trigger] mixed_down(mix, stream_frames(taken), mono)
                &&& after.analyser.history() == latest(self.base() + mono, MAX_FFT_SIZE as nat)
            }
        &&& forall|size: nat| #[trigger]
            after.analyser.carried(size) == if self.resets() {
                silence(size / 2)
            } else {
                self.analyser.carried(size)
            }
    }

    /// Analyses the audio whose time has come when playback is at `position`.
    pub fn advance_analysis<M: Fn(&Vec<u32>) -> u32 + Copy>(&mut self, position: u64, mix: M)
        requires
            old(self).wf(),
            mixes_all(mix),
        ensures
            old(self).advanced(*final(self), analysis_cutoff(position), mix),
    {
        let reset: bool = self.reset_analyser;
        self.reset_analyser = false;
        let cutoff: u64 = if position <= LATEST_TIME - ANALYSIS_LEAD {
            position + ANALYSIS_LEAD
        } else {
            LATEST_TIME
        };
        let ghost start = *self;
        let ghost queue = old(self).pending();
        let ghost taken = ready(queue, cutoff);
        let mut chunks: Vec<AudioChunk> = Vec::new();
        assert(queue.skip(0) =~= queue);
        while self.pending_audio.len() > 0 && self.pending_audio[0].stream_time_ns <= cutoff
            invariant
                queue == old(self).pending(),
                queue.len() <= MAX_PENDING,
                chunks@.len() <= queue.len(),
                chunks@ == queue.take(chunks@.len() as int),
                self.pending_audio@ == queue.skip(chunks@.len() as int),
                ready_count(queue, cutoff) == chunks@.len() + ready_count(
                    self.pending_audio@,
                    cutoff,
                ),
                *self == (SharedMedia { pending_audio: self.pending_audio, ..start }),
            decreases self.pending_audio@.len(),
        {
            let ghost before = self.pending_audio@;
            let ghost count = chunks@.len() as int;
            if let Some(chunk) = self.pending_audio.pop_front() {
                assert(self.pending_audio@ =~= before.drop_first());
                assert(before.drop_first() =~= queue.skip(count + 1));
                assert(queue.take(count + 1) =~= queue.take(count).push(chunk));
                chunks.push(chunk);
            }
        }
        assert(chunks@ == taken);
        assert forall|i: int| 0 <= i < chunks@.len() implies (#[trigger] chunks@[i]).wf() by {
            assert(chunks@[i] == queue[i]);
        }
        assert(self.pending_audio@ == queue.skip(taken.len() as int));

        if reset {
            self.analyser.reset();
        }
        let ghost base = self.analyser.history();
        let ghost carried = self.analyser;
        let ghost mut mono = Seq::<u32>::empty();
        let mut next: usize = 0;
        proof {
            self.analyser.lemma_bounds();
            assert(base + mono =~= base);
            assert(taken.take(0) =~= Seq::<AudioChunk>::empty());
        }
        while next < chunks.len()
            invariant
                chunks@ == taken,
                next <= chunks@.len(),
                mixes_all(mix),
                forall|i: int| 0 <= i < chunks@.len() ==> (#[trigger] chunks@[i]).wf(),
                self.analyser.wf(),
                self.pending_audio@ == queue.skip(taken.len() as int),
                !self.reset_analyser,
                self.video == start.video,
                self.decoded_video_frames == start.decoded_video_frames,
                self.analysed_audio_frames == (start.analysed_audio_frames + frame_total(
                    taken.take(next as int),
                )) % 0x1_0000_0000_0000_0000,
                self.analyser.rate() == if next > 0 {
                    taken[next - 1].sample_rate
                } else {
                    carried.rate()
                },
                mixed_down(mix, stream_frames(taken.take(next as int)), mono),
                self.analyser.history() == latest(base + mono, MAX_FFT_SIZE as nat),
                forall|size: nat| #[trigger] self.analyser.carried(size) == carried.carried(size),
            decreases chunks@.len() - next,
        {
            let chunk = &chunks[next];
            assert(chunk.wf());
            let ghost earlier = self.analyser.history();
            self.analyser.push_interleaved_f32le(
                chunk.bytes.as_slice(),
                chunk.channels,
                chunk.sample_rate,
                mix,
            );
            self.analysed_audio_frames =
            self.analysed_audio_frames.wrapping_add(chunk.frames as u64);
            proof {
                let frames = frames_of(chunk.bytes@, chunk.channels as nat);
                let added = choose|added: Seq<u32>|
                    {
                        &&& #[trigger] mixed_down(mix, frames, added)
                        &&& self.analyser.history() == latest(
                            earlier + added,
                            MAX_FFT_SIZE as nat,
                        )
                    };
                law_keeping_the_latest_composes(base + mono, added, MAX_FFT_SIZE as nat);
                assert((base + mono) + added =~= base + (mono + added));
                assert(taken.take(next + 1).drop_last() =~= taken.take(next as int));
                assert(taken.take(next + 1).last() == *chunk);
                let all = stream_frames(taken.take(next as int));
                assert(mixed_down(mix, all + frames, mono + added)) by {
                    assert forall|i: int| 0 <= i < (all + frames).len() implies mixes(
                        mix,
                        (all + frames)[i],
                        #[trigger] (mono + added)[i],
                    ) by {
                        if i < all.len() {
                            assert(mixes(mix, all[i], mono[i]));
                        } else {
                            assert(mixes(mix, frames[i - all.len()], added[i - all.len()]));
                        }
                    }
                }
                mono = mono + added;
            }
            next += 1;
        }
        assert(taken.take(taken.len() as int) =~= taken);
        assert(mixed_down(mix, stream_frames(taken), mono));
        assert(base == old(self).base());
        assert forall|i: int| 0 <= i < self.pending_audio@.len() implies (
        #[trigger] self.pending_audio@[i]).wf() by {
            assert(self.pending_audio@[i] == queue[taken.len() + i]);
        }
        assert(cutoff == analysis_cutoff(position));
    }
}

/// What the controls show of playback.
#[derive(Clone, Copy, Debug, PartialEq, Eq, Structural)]
pub struct PlaybackUi {
    pub position: u64,
    pub duration: u64,
    pub volume: u64,
    pub playing: bool,
    pub muted: bool,
}

impl Default for PlaybackUi {
    fn default() -> (state: Self)
        ensures
            state == (PlaybackUi {
                position: 0,
                duration: 0,
                volume: 0,
                playing: false,
                muted: false,
            }),
    {
        PlaybackUi { position: 0, duration: 0, volume: 0, playing: false, muted: false }
    }
}

/// What the pipeline says of itself when it is asked.
#[derive(Clone, Copy, Debug, PartialEq, Eq, Structural)]
pub struct PipelineReport {
    pub position: Option<u64>,
    pub duration: Option<u64>,
    pub volume: u64,
    pub muted: bool,
}

/// A time that is known, or the start of the stream.
pub open spec fn known_or_start(time: Option<u64>) -> u64 {
    match time {
        Some(time) => time,
        None => 0,
    }
}

fn time_or_start(time: Option<u64>) -> (known: u64)
    ensures
        known == known_or_start(time),
{
    match time {
        Some(time) => time,
        None => 0,
    }
}

/// Where a stream is after moving by some seconds, no earlier than its start.
pub open spec fn relative_target(position: Option<u64>, seconds: i64) -> int {
    let target = known_or_start(position) + seconds * 1_000_000_000;
    if target < 0 {
        0
    } else if target > u64::MAX {
        u64::MAX as int
    } else {
        target
    }
}

/// The time at a part of a stream, rounded down.
pub open spec fn fraction_target(duration: u64, fraction: u64) -> int {
    duration * clamped_fraction(fraction) / FRACTION_ONE as int
}

/// The frames of silence that stand for a pause of some nanoseconds.
pub open spec fn silence_frames(elapsed: int, sample_rate: u32) -> int {
    rounded(
        (if elapsed > MAX_SILENCE {
            MAX_SILENCE as int
        } else {
            elapsed
        }) * sample_rate,
        1_000_000_000,
    )
}

/// The time that passed between two readings of a clock.
pub open spec fn passed(from: u64, to: u64) -> int {
    if to >= from {
        to - from
    } else {
        0
    }
}

/// Why a seek is not made.
#[derive(Clone, Copy, Debug, PartialEq, Eq, Structural)]
pub enum SeekError {
    /// The media duration is not available yet.
    UnknownDuration,
}

/// Something that the pipeline reports of its own accord.
pub enum BusMessage {
    /// Something failed: where, if that is known, how, and details.
    Error { source: Option<String>, error: String, details: String },
    /// The stream has been played to its end.
    EndOfStream,
    Other,
}

/// The name of what failed, as far as it is known.
pub open spec fn source_name(source: Option<String>) -> Seq<char> {
    match source {
        Some(name) => name@,
        None => Seq::empty(),
    }
}

/// What the viewer is told of a message, if anything.
pub open spec fn report(message: BusMessage) -> Option<Seq<char>> {
    match message {
        BusMessage::Error { source, error, details } => Some(
            "GStreamer error from "@ + source_name(source) + ": "@ + error@ + " ("@ + details@
                + ")"@,
        ),
        BusMessage::EndOfStream => Some("Playback finished"@),
        BusMessage::Other => None,
    }
}

/// The state of playback that the pipeline does not keep.
#[derive(Clone, Copy, Debug, PartialEq, Eq, Structural)]
pub struct MediaPlayer {
    pub playing: bool,
    pub analysis_updated_at: u64,
}

impl MediaPlayer {
    /// Media start to play as they are opened.
    pub fn open(now: u64) -> (player: Self)
        ensures
            player == (MediaPlayer { playing: true, analysis_updated_at: now }),
    {
        MediaPlayer { playing: true, analysis_updated_at: now }
    }

    /// Changes between playing and pausing, and says which of them the pipeline
    /// is to do.
    pub fn toggle_pause(&mut self) -> (playing: bool)
        ensures
            playing == !old(self).playing,
            *final(self) == (MediaPlayer { playing, ..*old(self) }),
    {
        self.playing = !self.playing;
        self.playing
    }

    /// The pipeline did so.
    pub fn pause_toggled(&mut self, now: u64)
        ensures
            *final(self) == (MediaPlayer { analysis_updated_at: now, ..*old(self) }),
    {
        self.analysis_updated_at = now;
    }

    pub fn is_playing(&self) -> (playing: bool)
        ensures
            playing == self.playing,
    {
        self.playing
    }

    /// The time to seek to for a move by some seconds.
    pub fn seek_relative(position: Option<u64>, seconds: i64) -> (target: u64)
        ensures
            target == relative_target(position, seconds),
    {
        let current: i128 = time_or_start(position) as i128;
        let target: i128 = current + seconds as i128 * 1_000_000_000;
        if target < 0 {
            0
        } else if target > u64::MAX as i128 {
            u64::MAX
        } else {
            target as u64
        }
    }

    /// The time to seek to for a part of the stream.
    pub fn seek_fraction(duration: Option<u64>, fraction: u64) -> (target: Result<u64, SeekError>)
        ensures
            match (duration, target) {
                (Some(duration), Ok(target)) => target == fraction_target(duration, fraction),
                (None, Err(error)) => error == SeekError::UnknownDuration,
                _ => false,
            },
    {
        match duration {
            None => Err(SeekError::UnknownDuration),
            Some(duration) => {
                let part: u64 = if fraction > FRACTION_ONE {
                    FRACTION_ONE
                } else {
                    fraction
                };
                Ok(part_of(duration, part))
            },
        }
    }

    /// The volume to set where `volume` is asked for.
    pub fn set_volume(volume: u64) -> (clamped: u64)
        ensures
            clamped == clamped_fraction(volume),
    {
        if volume > FRACTION_ONE {
            FRACTION_ONE
        } else {
            volume
        }
    }

    /// Whether the pipeline is to be silent where it is `muted` so far.
    pub fn toggle_mute(muted: bool) -> (mute: bool)
        ensures
            mute == !muted,
    {
        !muted
    }

    /// Goes on with the analysis and says what the controls show.
    pub fn update<M: Fn(&Vec<u32>) -> u32 + Copy>(
        &mut self,
        shared: &mut SharedMedia,
        report: PipelineReport,
        now: u64,
        mix: M,
    ) -> (shown: PlaybackUi)
        requires
            old(shared).wf(),
            mixes_all(mix),
        ensures
            shown == (PlaybackUi {
                position: known_or_start(report.position),
                duration: known_or_start(report.duration),
                volume: report.volume,
                playing: old(self).playing,
                muted: report.muted,
            }),
            *final(self) == (MediaPlayer { analysis_updated_at: now, ..*old(self) }),
            exists|analysed: SharedMedia|
                {
                    &&& #[trigger] old(shared).advanced(
                        analysed,
                        analysis_cutoff(known_or_start(report.position)),
                        mix,
                    )
                    &&& old(self).silenced(analysed, *final(shared), now)
                },
    {
        let position: u64 = time_or_start(report.position);
        let duration: u64 = time_or_start(report.duration);
        shared.advance_analysis(position, mix);
        let ghost analysed = *shared;
        self.advance_paused_silence(shared, now);
        assert(old(shared).advanced(analysed, analysis_cutoff(position), mix));
        PlaybackUi {
            position,
            duration,
            volume: report.volume,
            playing: self.playing,
            muted: report.muted,
        }
    }

    /// `after` is `before` with silence appended for the time since the last
    /// update, where playback is paused.
    pub open spec fn silenced(self, before: SharedMedia, after: SharedMedia, now: u64) -> bool {
        &&& after.wf()
        &&& self.playing ==> after == before
        &&& after.video == before.video
        &&& after.pending() == before.pending()
        &&& after.resets() == before.resets()
        &&& after.decoded_video_frames == before.decoded_video_frames
        &&& after.analysed_audio_frames == before.analysed_audio_frames
        &&& after.analyser.rate() == before.analyser.rate()
        &&& !self.playing ==> after.analyser.history() == latest(
            before.analyser.history() + silence(
                silence_frames(
                    passed(self.analysis_updated_at, now),
                    before.analyser.rate(),
                ) as nat,
            ),
            MAX_FFT_SIZE as nat,
        )
        &&& forall|size: nat| #[trigger]
            after.analyser.carried(size) == before.analyser.carried(size)
    }

    /// Lets the spectrum fall while playback is paused.
    pub fn advance_paused_silence(&mut self, shared: &mut SharedMedia, now: u64)
        requires
            old(shared).wf(),
        ensures
            *final(self) == (MediaPlayer { analysis_updated_at: now, ..*old(self) }),
            old(self).silenced(*old(shared), *final(shared), now),
    {
        let mut elapsed: u64 = if now >= self.analysis_updated_at {
            now - self.analysis_updated_at
        } else {
            0
        };
        if elapsed > MAX_SILENCE {
            elapsed = MAX_SILENCE;
        }
        self.analysis_updated_at = now;
        if self.playing {
            return;
        }
        let rate: u32 = shared.analyser.sample_rate();
        assert(0 <= elapsed * rate <= 100_000_000 * 0x1_0000_0000) by (nonlinear_arith)
            requires
                elapsed <= 100_000_000,
                rate <= 0x1_0000_0000,
        ;
        let frames: u64 = (2 * (elapsed * rate as u64) + 1_000_000_000) / 2_000_000_000;
        shared.analyser.push_silence(frames as usize);
    }

    /// What the viewer is told of a message. Messages are taken from the
    /// pipeline until one is worth telling.
    pub fn poll_bus(message: BusMessage) -> (told: Option<String>)
        ensures
            match told {
                Some(text) => report(message) == Some(text@),
                None => report(message) is None,
            },
    {
        match message {
            BusMessage::Error { source, error, details } => {
                let mut text = "GStreamer error from ".to_owned();
                let ghost start = text@;
                if let Some(name) = source {
                    text.append(name.as_str());
                }
                assert(text@ =~= start + source_name(source));
                text.append(": ");
                text.append(error.as_str());
                text.append(" (");
                text.append(details.as_str());
                text.append(")");
                Some(text)
            },
            BusMessage::EndOfStream => Some("Playback finished".to_owned()),
            BusMessage::Other => None,
        }
    }
}

/// The part of a time that `fraction` billionths make.
pub fn part_of(time: u64, fraction: u64) -> (part: u64)
    requires
        fraction <= FRACTION_ONE,
    ensures
        part == fraction_target(time, fraction),
        part <= time,
{
    assert(0 <= time * fraction <= time * 1_000_000_000) by (nonlinear_arith)
        requires
            fraction <= 1_000_000_000,
    ;
    let product: u128 = time as u128 * fraction as u128;
    (product / 1_000_000_000) as u64
}

/// The chunks that are analysed are those at the front of the queue whose time
/// has come; the one behind them, if any, is still to wait.
pub proof fn law_ready_is_the_front_that_is_due(queue: Seq<AudioChunk>, cutoff: u64)
    ensures
        ready_count(queue, cutoff) <= queue.len(),
        forall|i: int|
            0 <= i < ready_count(queue, cutoff) ==> (#[trigger] queue[i]).stream_time_ns <= cutoff,
        ready_count(queue, cutoff) < queue.len() ==> queue[ready_count(
            queue,
            cutoff,
        ) as int].stream_time_ns > cutoff,
    decreases queue.len(),
{
    if queue.len() > 0 && queue[0].stream_time_ns <= cutoff {
        let rest = queue.drop_first();
        law_ready_is_the_front_that_is_due(rest, cutoff);
        assert forall|i: int| 0 <= i < ready_count(queue, cutoff) implies (
        #[trigger] queue[i]).stream_time_ns <= cutoff by {
            if i > 0 {
                assert(queue[i] == rest[i - 1]);
            }
        }
    }
}

/// What has been analysed is not analysed again: a second update at the same
/// position finds nothing ready.
pub proof fn law_nothing_is_analysed_twice(queue: Seq<AudioChunk>, cutoff: u64)
    ensures
        ready(queue.skip(ready(queue, cutoff).len() as int), cutoff) == Seq::<AudioChunk>::empty(),
{
    law_ready_is_the_front_that_is_due(queue, cutoff);
    let rest = queue.skip(ready_count(queue, cutoff) as int);
    law_ready_is_the_front_that_is_due(rest, cutoff);
    assert(ready_count(rest, cutoff) == 0) by {
        if rest.len() > 0 {
            assert(rest[0] == queue[ready_count(queue, cutoff) as int]);
        }
    }
    assert(ready(rest, cutoff) =~= Seq::<AudioChunk>::empty());
}

/// However many chunks come, those that wait are the latest, no more than may
/// wait, in the order in which they came.
pub proof fn law_the_queue_keeps_the_newest(queue: Seq<AudioChunk>, chunk: AudioChunk)
    ensures
        newest(queue.push(chunk)).len() <= MAX_PENDING,
        newest(queue.push(chunk)).last() == chunk,
        newest(newest(queue).push(chunk)) == newest(queue.push(chunk)),
{
    assert(newest(newest(queue).push(chunk)) =~= newest(queue.push(chunk)));
}

/// A move forwards and the same move back end where they began, unless the
/// first went beyond the latest time that can be stated.
pub proof fn law_seeking_back_undoes_seeking_forwards(position: u64, seconds: i64)
    requires
        0 <= seconds,
        position + seconds * 1_000_000_000 <= u64::MAX,
    ensures
        relative_target(
            Some(relative_target(Some(position), seconds) as u64),
            (-seconds) as i64,
        ) == position,
{
}

/// A seek to a part of the stream stays within it, reaches both of its ends and
/// keeps the order of the parts.
pub proof fn law_seeks_stay_within_the_stream(duration: u64, near: u64, far: u64)
    requires
        near <= far,
    ensures
        fraction_target(duration, 0) == 0,
        fraction_target(duration, FRACTION_ONE) == duration,
        0 <= fraction_target(duration, near) <= fraction_target(duration, far) <= duration,
{
    let (a, b) = (clamped_fraction(near), clamped_fraction(far));
    let nothing = clamped_fraction(0);
    assert(duration * nothing == 0) by (nonlinear_arith)
        requires
            nothing == 0,
    ;
    assert(0 <= duration * a <= duration * b <= duration * 1_000_000_000) by (nonlinear_arith)
        requires
            0 <= a <= b <= 1_000_000_000,
            duration >= 0,
    ;
}

/// One update of a pause adds at most a tenth of a second of silence, rounded.
pub proof fn law_silence_is_bounded(elapsed: int, sample_rate: u32)
    requires
        elapsed >= 0,
    ensures
        0 <= silence_frames(elapsed, sample_rate),
        10 * silence_frames(elapsed, sample_rate) <= sample_rate + 5,
{
    let step = if elapsed > MAX_SILENCE {
        MAX_SILENCE as int
    } else {
        elapsed
    };
    assert(0 <= step * sample_rate <= 100_000_000 * sample_rate) by (nonlinear_arith)
        requires
            0 <= step <= 100_000_000,
    ;
}

} // verus!
