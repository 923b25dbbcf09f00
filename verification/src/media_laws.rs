//! What becomes of decoded media, for every stream and every time.

use vstd::prelude::*;
use crate::analyser::{frames_of, latest, mixed_down, silence};
use crate::analyser_laws::{is_end_of, law_the_latest_are_the_end};
use crate::media::{
    frame_total, law_ready_is_the_front_that_is_due, part_of, ready, stream_frames, AudioBuffer,
    AudioChunk, BusMessage, FrameError, MediaPlayer, PipelineReport, PlaybackUi, SeekError,
    SharedMedia, VideoFrame,
};

verus! {

/// A picture is taken exactly where its rows do not overlap, and its pixels are
/// then those of the rows, without what lies between them.
pub proof fn law_a_picture_is_packed(
    data: &[u8],
    width: u32,
    height: u32,
    stride: i32,
    frame: Result<VideoFrame, FrameError>,
    row: int,
    column: int,
    channel: int,
)
    requires
        call_ensures(VideoFrame::from_plane, (data, width, height, stride), frame),
        0 <= row < height,
        0 <= column < width,
        0 <= channel < 4,
    ensures
        frame is Ok <==> stride >= 4 * width,
        frame matches Ok(frame) ==> {
            &&& frame.width == width
            &&& frame.height == height
            &&& frame.rgba@.len() == height * (width * 4)
            &&& frame.rgba@[row * (width * 4) + (4 * column + channel)] == data@[row * stride + (4
                * column + channel)]
        },
{
    if let Ok(frame) = frame {
        let place = 4 * column + channel;
        assert(0 <= place < frame.width * 4);
        assert(frame.packs(data@, stride as int));
        assert(frame.rgba@[row * (frame.width * 4) + place] == data@[row * (stride as int) + place]);
    }
}

/// A picture that is stored is the one that is taken next, and it is taken once.
pub proof fn law_a_stored_picture_is_taken_once(
    before: &mut SharedMedia,
    between: &mut SharedMedia,
    after: &mut SharedMedia,
    picture: VideoFrame,
    first: Option<VideoFrame>,
    second: Option<VideoFrame>,
)
    requires
        call_ensures(SharedMedia::store_video, (before, picture), ()),
        *final(before) == *old(between),
        call_ensures(SharedMedia::take_video, (between,), first),
        *final(between) == *old(after),
        call_ensures(SharedMedia::take_video, (after,), second),
    ensures
        first == Some(picture),
        second is None,
        old(before).decoded_video_frames < u64::MAX ==> final(between).decoded_video_frames == old(
            before,
        ).decoded_video_frames + 1,
        final(between).analyser == old(before).analyser,
        final(between).pending_audio@ == old(before).pending_audio@,
        final(between).reset_analyser == old(before).reset_analyser,
        final(between).analysed_audio_frames == old(before).analysed_audio_frames,
{
}

/// What was counted is handed out once, and then counted from nothing.
pub proof fn law_counts_are_handed_out_once(
    before: &mut SharedMedia,
    after: &mut SharedMedia,
    first: (u64, u64),
    second: (u64, u64),
)
    requires
        call_ensures(SharedMedia::take_counts, (before,), first),
        *final(before) == *old(after),
        call_ensures(SharedMedia::take_counts, (after,), second),
    ensures
        first.0 == old(before).decoded_video_frames,
        first.1 == old(before).analysed_audio_frames,
        second.0 == 0,
        second.1 == 0,
        final(before).video == old(before).video,
        final(before).analyser == old(before).analyser,
        final(before).pending_audio == old(before).pending_audio,
{
}

/// A buffer that says all that is needed waits as the last one, for its time in
/// the stream or else for the time at which it is shown. A discontinuity drops what
/// waited before it and has the analysis start anew. At most 256 buffers wait, and of
/// more the oldest are dropped. Any other buffer changes nothing.
pub proof fn law_a_buffer_waits_for_its_time(shared: &mut SharedMedia, buffer: AudioBuffer)
    requires
        old(shared).wf(),
        buffer.channels matches Some(channels) ==> channels >= 0,
        call_ensures(SharedMedia::queue_audio, (shared, buffer), ()),
    ensures
        ({
            let complete = buffer.rate is Some && buffer.channels is Some
                && buffer.presentation_time is Some && buffer.channels->0 > 0;
            let (before, after) = (old(shared).pending_audio@, final(shared).pending_audio@);
            let kept = after.len() - 1;
            &&& !complete ==> *final(shared) == *old(shared)
            &&& complete ==> {
                &&& after.len() >= 1
                &&& after.last().stream_time_ns == match buffer.stream_time {
                    Some(time) => time,
                    None => buffer.presentation_time->0,
                }
                &&& buffer.rate->0 >= 0 ==> after.last().sample_rate == buffer.rate->0
                &&& after.last().channels == buffer.channels->0
                &&& after.last().bytes@ == buffer.bytes@
                &&& after.last().frames * (4 * (buffer.channels->0)) <= buffer.bytes@.len()
                &&& buffer.bytes@.len() < (after.last().frames + 1) * (4 * (buffer.channels->0))
                &&& buffer.discontinuity ==> kept == 0 && final(shared).reset_analyser
                &&& !buffer.discontinuity ==> {
                    &&& kept == before.len() || kept == 255
                    &&& kept <= 255
                    &&& kept <= before.len()
                    &&& final(shared).reset_analyser == old(shared).reset_analyser
                    &&& forall|i: int|
                        0 <= i < kept ==> #[trigger] after[i] == before[before.len() - kept + i]
                }
                &&& final(shared).video == old(shared).video
                &&& final(shared).analyser == old(shared).analyser
                &&& final(shared).decoded_video_frames == old(shared).decoded_video_frames
                &&& final(shared).analysed_audio_frames == old(shared).analysed_audio_frames
            }
        }),
{
    let complete = buffer.rate is Some && buffer.channels is Some && buffer.presentation_time is Some
        && buffer.channels->0 > 0;
    if complete {
        assert(buffer.is_complete());
        let chunk = choose|chunk: AudioChunk|
            {
                &&& #[trigger] buffer.is_held_by(chunk)
                &&& final(shared).pending() == crate::media::newest(
                    if buffer.discontinuity {
                        seq![chunk]
                    } else {
                        old(shared).pending().push(chunk)
                    },
                )
            };
        let size = buffer.channels->0 as nat * 4;
        lemma_whole_frames(buffer.bytes@.len(), size);
        assert(chunk.frames * (4 * (buffer.channels->0)) == chunk.frames * size) by (nonlinear_arith)
            requires
                size == buffer.channels->0 * 4,
        ;
        assert((chunk.frames + 1) * (4 * (buffer.channels->0)) == (chunk.frames + 1) * size)
            by (nonlinear_arith)
            requires
                size == buffer.channels->0 * 4,
        ;
        assert(final(shared).pending().last() == chunk);
    }
}

proof fn lemma_whole_frames(length: nat, size: nat)
    requires
        size > 0,
    ensures
        (length / size) * size <= length < (length / size + 1) * size,
{
    vstd::arithmetic::div_mod::lemma_fundamental_div_mod(length as int, size as int);
    vstd::arithmetic::div_mod::lemma_mod_bound(length as int, size as int);
    let count = length / size;
    assert(count * size <= length < (count + 1) * size) by (nonlinear_arith)
        requires
            length == size * count + length % size,
            0 <= length % size < size,
    ;
}

/// The frames of some chunks are the frames of each, one chunk after another,
/// and so are their numbers.
pub proof fn law_chunks_follow_one_another(chunks: Seq<AudioChunk>, chunk: AudioChunk)
    ensures
        stream_frames(chunks.push(chunk)) == stream_frames(chunks) + frames_of(
            chunk.bytes@,
            chunk.channels as nat,
        ),
        frame_total(chunks.push(chunk)) == frame_total(chunks) + chunk.frames,
        stream_frames(Seq::empty()).len() == 0,
        frame_total(Seq::empty()) == 0,
{
    assert(chunks.push(chunk).drop_last() =~= chunks);
}

/// An update of the analysis takes the chunks at the front of the queue that are
/// due 25 milliseconds from now, or at the latest time there is, and no others: those it takes are due, and the
/// first that it leaves is not. Their samples go to the analyser, which starts anew
/// where that was asked for; the rate is that of the last of them.
pub proof fn law_what_is_due_is_analysed<M: Fn(&Vec<u32>) -> u32 + Copy>(
    shared: &mut SharedMedia,
    position: u64,
    mix: M,
)
    requires
        call_ensures(SharedMedia::advance_analysis::<M>, (shared, position, mix), ()),
    ensures
        ({
            let (before, after) = (old(shared).pending_audio@, final(shared).pending_audio@);
            let count = before.len() - after.len();
            let due: int = if position + 25_000_000 < u64::MAX {
                position + 25_000_000
            } else {
                u64::MAX - 1
            };
            let started = if old(shared).reset_analyser {
                Seq::<u32>::empty()
            } else {
                old(shared).analyser.history()
            };
            &&& 0 <= count <= before.len()
            &&& forall|i: int|
                0 <= i < count ==> (#[trigger] before[i]).stream_time_ns <= due
            &&& after.len() > 0 ==> after[0].stream_time_ns > due
            &&& forall|i: int| 0 <= i < after.len() ==> #[trigger] after[i] == before[count + i]
            &&& count > 0 ==> final(shared).analyser.rate() == before[count - 1].sample_rate
            &&& count == 0 ==> final(shared).analyser.rate() == old(shared).analyser.rate()
            &&& !final(shared).reset_analyser
            &&& final(shared).video == old(shared).video
            &&& final(shared).decoded_video_frames == old(shared).decoded_video_frames
            &&& old(shared).analysed_audio_frames + frame_total(before.take(count)) <= u64::MAX
                && frame_total(before.take(count)) >= 0 ==> final(shared).analysed_audio_frames
                == old(shared).analysed_audio_frames + frame_total(before.take(count))
            &&& exists|mono: Seq<u32>|
                {
                    &&& #[trigger] mixed_down(mix, stream_frames(before.take(count)), mono)
                    &&& is_end_of(final(shared).analyser.history(), started + mono)
                }
            &&& forall|size: nat, i: int|
                old(shared).reset_analyser && 0 <= i < size / 2 ==> (#[trigger] final(shared).analyser.carried(size)[i]) == 0
            &&& forall|size: nat|
                !old(shared).reset_analyser ==> #[trigger] final(shared).analyser.carried(size)
                    == old(shared).analyser.carried(size)
        }),
{
    let before = old(shared).pending_audio@;
    let cutoff = crate::media::analysis_cutoff(position);
    law_ready_is_the_front_that_is_due(before, cutoff);
    let taken = ready(before, cutoff);
    let count = taken.len() as int;
    assert(count == before.len() - final(shared).pending_audio@.len());
    assert(taken =~= before.take(count));
    let mono = choose|mono: Seq<u32>|
        {
            &&& #[trigger] mixed_down(mix, stream_frames(taken), mono)
            &&& final(shared).analyser.history() == latest(
                old(shared).base() + mono,
                crate::analyser::MAX_FFT_SIZE as nat,
            )
        };
    law_the_latest_are_the_end(old(shared).base() + mono, 32_768);
    assert(mixed_down(mix, stream_frames(before.take(count)), mono));
    assert forall|size: nat, i: int|
        old(shared).reset_analyser && 0 <= i < size / 2 implies (#[trigger] final(shared).analyser.carried(size)[i]) == 0 by {
        assert(final(shared).analyser.carried(size) == silence(size / 2));
    }
}

/// A seek makes what waits void and has the analysis start anew; the rest stays.
pub proof fn law_a_seek_makes_what_waits_void(shared: &mut SharedMedia)
    requires
        call_ensures(SharedMedia::reset_analysis, (shared,), ()),
    ensures
        final(shared).pending_audio@.len() == 0,
        final(shared).reset_analyser,
        final(shared).video == old(shared).video,
        final(shared).analyser == old(shared).analyser,
        final(shared).decoded_video_frames == old(shared).decoded_video_frames,
        final(shared).analysed_audio_frames == old(shared).analysed_audio_frames,
{
}

/// A relative seek moves by so many seconds, but not before the start.
pub proof fn law_a_relative_seek_moves_by_seconds(
    position: Option<u64>,
    seconds: i64,
    target: u64,
)
    requires
        call_ensures(MediaPlayer::seek_relative, (position, seconds), target),
    ensures
        ({
            let moved = match position {
                Some(time) => time as int,
                None => 0,
            } + seconds * 1_000_000_000;
            &&& moved < 0 ==> target == 0
            &&& 0 <= moved <= u64::MAX ==> target == moved
            &&& moved > u64::MAX ==> target == u64::MAX
        }),
{
}

/// A seek to a part of the stream goes to that part of its duration, rounded
/// down to a nanosecond, and is refused exactly where that is not known.
pub proof fn law_a_seek_goes_to_its_part_of_the_stream(
    duration: Option<u64>,
    part: u64,
    target: Result<u64, SeekError>,
)
    requires
        call_ensures(MediaPlayer::seek_fraction, (duration, part), target),
    ensures
        target is Ok <==> duration is Some,
        match (duration, target) {
            (Some(duration), Ok(target)) => {
                &&& part >= 1_000_000_000 ==> target == duration
                &&& part <= 1_000_000_000 ==> target * 1_000_000_000 <= duration * part < (target
                    + 1) * 1_000_000_000
            },
            _ => true,
        },
{
    if let Some(duration) = duration {
        crate::media::law_seeks_stay_within_the_stream(duration, part, part);
        crate::media::law_seeks_stay_within_the_stream(duration, 1_000_000_000, 1_000_000_000);
    }
}

/// The part of a time, rounded down to a nanosecond.
pub proof fn law_a_part_of_a_time(time: u64, fraction: u64, part: u64)
    requires
        fraction <= 1_000_000_000,
        call_ensures(part_of, (time, fraction), part),
    ensures
        part * 1_000_000_000 <= time * fraction < (part + 1) * 1_000_000_000,
{
}

/// The volume is the one asked for, up to one, and mute changes every time.
pub proof fn law_volume_and_mute(volume: u64, clamped: u64, muted: bool, mute: bool)
    requires
        call_ensures(MediaPlayer::set_volume, (volume,), clamped),
        call_ensures(MediaPlayer::toggle_mute, (muted,), mute),
    ensures
        volume <= 1_000_000_000 ==> clamped == volume,
        volume >= 1_000_000_000 ==> clamped == 1_000_000_000,
        mute != muted,
{
}

/// A pause, or its end, is known at once, and twice it changes nothing; what the
/// analysis knows of the time changes when the pipeline has followed.
pub proof fn law_pausing_twice_changes_nothing(
    before: &mut MediaPlayer,
    after: &mut MediaPlayer,
    first: bool,
    second: bool,
    shown: bool,
)
    requires
        call_ensures(MediaPlayer::toggle_pause, (before,), first),
        *final(before) == *old(after),
        call_ensures(MediaPlayer::toggle_pause, (after,), second),
        call_ensures(MediaPlayer::is_playing, (&*final(before),), shown),
    ensures
        first == !old(before).playing,
        shown == first,
        second == old(before).playing,
        *final(after) == *old(before),
{
}

/// Media start to play as they are opened, and the analysis counts from then.
pub proof fn law_opened_media_play(now: u64, player: MediaPlayer)
    requires
        call_ensures(MediaPlayer::open, (now,), player),
    ensures
        player.playing,
        player.analysis_updated_at == now,
{
}

/// While playback is paused, silence of the time since the last update is
/// analysed, at most a tenth of a second of it, rounded to whole samples; while it
/// goes on, nothing.
pub proof fn law_pauses_are_silent(player: &mut MediaPlayer, shared: &mut SharedMedia, now: u64)
    requires
        call_ensures(MediaPlayer::advance_paused_silence, (player, shared, now), ()),
    ensures
        final(player).analysis_updated_at == now,
        final(player).playing == old(player).playing,
        old(player).playing ==> *final(shared) == *old(shared),
        !old(player).playing ==> exists|frames: nat|
            {
                let passed = now - old(player).analysis_updated_at;
                let time: int = if passed < 0 {
                    0
                } else if passed > 100_000_000 {
                    100_000_000
                } else {
                    passed
                };
                let exact = time * old(shared).analyser.rate();
                &&& 2 * frames * 1_000_000_000 - 1_000_000_000 <= 2 * exact
                &&& 2 * exact < 2 * frames * 1_000_000_000 + 1_000_000_000
                &&& #[trigger] is_end_of(
                    final(shared).analyser.history(),
                    old(shared).analyser.history() + silence(frames),
                )
            },
        final(shared).analyser.rate() == old(shared).analyser.rate(),
        final(shared).video == old(shared).video,
        final(shared).pending_audio@ == old(shared).pending_audio@,
        final(shared).reset_analyser == old(shared).reset_analyser,
        forall|size: nat| #[trigger]
            final(shared).analyser.carried(size) == old(shared).analyser.carried(size),
{
    if !old(player).playing {
        let passed = crate::media::passed(old(player).analysis_updated_at, now);
        let frames = crate::media::silence_frames(passed, old(shared).analyser.rate());
        crate::media::law_silence_is_bounded(passed, old(shared).analyser.rate());
        let time: int = if passed > 100_000_000 {
            100_000_000
        } else {
            passed
        };
        let exact = time * old(shared).analyser.rate();
        assert(frames == crate::geometry::rounded(exact, 1_000_000_000));
        crate::geometry::law_rounding_is_to_the_nearest(exact, 1_000_000_000);
        let count = frames as nat;
        assert(2 * count * 1_000_000_000 - 1_000_000_000 <= 2 * exact < 2 * count * 1_000_000_000
            + 1_000_000_000);
        let all = old(shared).analyser.history() + silence(count);
        law_the_latest_are_the_end(all, 32_768);
        assert(is_end_of(final(shared).analyser.history(), all));
    }
}

/// An update shows what the pipeline reports, or the start of the stream where it
/// reports no time, and whether playback goes on.
pub proof fn law_an_update_shows_what_is_reported<M: Fn(&Vec<u32>) -> u32 + Copy>(
    player: &mut MediaPlayer,
    shared: &mut SharedMedia,
    report: PipelineReport,
    now: u64,
    mix: M,
    shown: PlaybackUi,
)
    requires
        call_ensures(MediaPlayer::update::<M>, (player, shared, report, now, mix), shown),
    ensures
        report.position matches Some(time) ==> shown.position == time,
        report.position is None ==> shown.position == 0,
        report.duration matches Some(time) ==> shown.duration == time,
        report.duration is None ==> shown.duration == 0,
        shown.volume == report.volume,
        shown.muted == report.muted,
        shown.playing == old(player).playing,
        final(player).playing == old(player).playing,
        final(player).analysis_updated_at == now,
        final(shared).video == old(shared).video,
        !final(shared).reset_analyser,
{
}

/// An update analyses what is due at the reported position, and then the silence
/// of a pause, each as by itself.
pub proof fn law_an_update_goes_on_with_the_analysis<M: Fn(&Vec<u32>) -> u32 + Copy>(
    player: &mut MediaPlayer,
    shared: &mut SharedMedia,
    report: PipelineReport,
    now: u64,
    mix: M,
    shown: PlaybackUi,
    due: u64,
)
    requires
        due < u64::MAX,
        due == 25_000_000 + match report.position {
            Some(time) => time as int,
            None => 0,
        },
        call_ensures(MediaPlayer::update::<M>, (player, shared, report, now, mix), shown),
    ensures
        exists|analysed: SharedMedia|
            {
                &&& #[trigger] old(shared).advanced(analysed, due, mix)
                &&& old(player).silenced(analysed, *final(shared), now)
            },
{
}

/// Errors and the end of the stream are told, and nothing else is; an error with
/// where it came from, what it is and its details.
pub proof fn law_errors_and_the_end_are_told(message: BusMessage, told: Option<String>)
    requires
        call_ensures(MediaPlayer::poll_bus, (message,), told),
    ensures
        message is Other <==> told is None,
        match (message, told) {
            (BusMessage::EndOfStream, Some(text)) => text@ == "Playback finished"@,
            (BusMessage::Error { source, error, details }, Some(text)) => {
                let named = match source {
                    Some(name) => name@,
                    None => Seq::empty(),
                };
                text@ == "GStreamer error from "@ + named + ": "@ + error@ + " ("@ + details@ + ")"@
            },
            _ => true,
        },
{
}

/// When the pipeline has followed a pause the analysis counts from then.
pub proof fn law_the_analysis_counts_from_the_pause(player: &mut MediaPlayer, now: u64)
    requires
        call_ensures(MediaPlayer::pause_toggled, (player, now), ()),
    ensures
        final(player).analysis_updated_at == now,
        final(player).playing == old(player).playing,
{
}

} // verus!
