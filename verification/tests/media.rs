use spectrum_native::media::{
    part_of, AudioBuffer, BusMessage, FrameError, MediaPlayer, PipelineReport, PlaybackUi,
    SeekError, SharedMedia, VideoFrame, MAX_PENDING,
};
use spectrum_native::settings::FRACTION_ONE;

fn mix(frame: &Vec<u32>) -> u32 {
    frame[0]
}

fn buffer(time: u64, frames: usize) -> AudioBuffer {
    AudioBuffer {
        rate: Some(44_100),
        channels: Some(2),
        presentation_time: Some(time),
        stream_time: None,
        discontinuity: false,
        bytes: vec![1; frames * 8],
    }
}

fn report(position: u64) -> PipelineReport {
    PipelineReport {
        position: Some(position),
        duration: Some(90_000_000_000),
        volume: 250_000_000,
        muted: true,
    }
}

#[test]
fn rows_are_packed() {
    let data = [1, 2, 3, 4, 9, 9, 5, 6, 7, 8];
    let frame = VideoFrame::from_plane(&data, 1, 2, 6).unwrap();
    assert_eq!((frame.width, frame.height), (1, 2));
    assert_eq!(frame.rgba, vec![1, 2, 3, 4, 5, 6, 7, 8]);
}

#[test]
fn rows_that_overlap_or_run_backwards_are_refused() {
    assert!(matches!(VideoFrame::from_plane(&[0; 8], 1, 2, 3), Err(FrameError::Stride)));
    assert!(matches!(VideoFrame::from_plane(&[0; 8], 1, 2, -4), Err(FrameError::Stride)));
}

#[test]
fn a_picture_waits_until_it_is_taken() {
    let mut shared = SharedMedia::default();
    shared.store_video(VideoFrame { width: 1, height: 1, rgba: vec![0; 4] });
    shared.store_video(VideoFrame { width: 1, height: 1, rgba: vec![7; 4] });
    assert_eq!(shared.take_video().unwrap().rgba, vec![7; 4]);
    assert!(shared.take_video().is_none());
    assert_eq!(shared.take_counts(), (2, 0));
    assert_eq!(shared.take_counts(), (0, 0));
}

#[test]
fn audio_is_analysed_when_its_time_comes() {
    let mut shared = SharedMedia::default();
    shared.queue_audio(buffer(25_000_000, 3));
    shared.queue_audio(buffer(25_000_001, 4));
    shared.advance_analysis(0, mix);
    assert_eq!(shared.pending_audio.len(), 1);
    assert_eq!(shared.analysed_audio_frames, 3);
    assert_eq!(shared.analyser.sample_rate(), 44_100);
    shared.advance_analysis(1, mix);
    assert_eq!(shared.pending_audio.len(), 0);
    assert_eq!(shared.analysed_audio_frames, 7);
}

#[test]
fn audio_behind_later_audio_waits_with_it() {
    let mut shared = SharedMedia::default();
    shared.queue_audio(buffer(1_000_000_000, 1));
    shared.queue_audio(buffer(0, 1));
    shared.advance_analysis(0, mix);
    assert_eq!(shared.pending_audio.len(), 2);
}

#[test]
fn the_stream_time_counts_where_it_is_known() {
    let mut shared = SharedMedia::default();
    let mut later = buffer(0, 1);
    later.stream_time = Some(5_000_000_000);
    shared.queue_audio(later);
    assert_eq!(shared.pending_audio[0].stream_time_ns, 5_000_000_000);
    shared.queue_audio(buffer(7, 1));
    assert_eq!(shared.pending_audio[1].stream_time_ns, 7);
}

#[test]
fn incomplete_buffers_are_left_out() {
    let mut shared = SharedMedia::default();
    shared.queue_audio(AudioBuffer { rate: None, ..buffer(0, 1) });
    shared.queue_audio(AudioBuffer { channels: None, ..buffer(0, 1) });
    shared.queue_audio(AudioBuffer { channels: Some(0), ..buffer(0, 1) });
    shared.queue_audio(AudioBuffer { presentation_time: None, ..buffer(0, 1) });
    shared.queue_audio(AudioBuffer { rate: None, discontinuity: true, ..buffer(0, 1) });
    assert_eq!(shared.pending_audio.len(), 0);
    assert!(!shared.reset_analyser);
}

#[test]
fn the_queue_drops_its_oldest() {
    let mut shared = SharedMedia::default();
    for time in 0..MAX_PENDING as u64 + 3 {
        shared.queue_audio(buffer(time, 1));
    }
    assert_eq!(shared.pending_audio.len(), 256);
    assert_eq!(shared.pending_audio[0].stream_time_ns, 3);
    assert_eq!(shared.pending_audio[255].stream_time_ns, 258);
}

#[test]
fn a_discontinuity_starts_anew() {
    let mut shared = SharedMedia::default();
    shared.queue_audio(buffer(0, 5000));
    shared.advance_analysis(0, mix);
    shared.queue_audio(buffer(0, 1));
    shared.queue_audio(AudioBuffer { discontinuity: true, ..buffer(9_000_000_000, 1) });
    assert_eq!(shared.pending_audio.len(), 1);
    assert!(shared.reset_analyser);
    shared.advance_analysis(0, mix);
    assert!(!shared.reset_analyser);
    let values = shared.analyser.frequency_data(
        2,
        0,
        |window: &Vec<u32>| window.clone(),
        |_previous, magnitude, _weight| magnitude,
        |magnitude| magnitude,
    );
    assert_eq!(values, vec![0xff80_0000; 2]);
}

#[test]
fn seeking_voids_what_waits() {
    let mut shared = SharedMedia::default();
    shared.queue_audio(buffer(0, 1));
    shared.reset_analysis();
    assert_eq!(shared.pending_audio.len(), 0);
    assert!(shared.reset_analyser);
}

#[test]
fn an_update_shows_what_the_pipeline_says() {
    let mut shared = SharedMedia::default();
    let mut player = MediaPlayer::open(5);
    let shown = player.update(&mut shared, report(30_000_000_000), 8, mix);
    assert_eq!(
        shown,
        PlaybackUi {
            position: 30_000_000_000,
            duration: 90_000_000_000,
            volume: 250_000_000,
            playing: true,
            muted: true,
        }
    );
    assert_eq!(player.analysis_updated_at, 8);
    let unknown = PipelineReport { position: None, duration: None, volume: 0, muted: false };
    let shown = player.update(&mut shared, unknown, 9, mix);
    assert_eq!(shown, PlaybackUi { playing: true, ..PlaybackUi::default() });
}

#[test]
fn pauses_are_silent_for_as_long_as_they_last() {
    let mut shared = SharedMedia::default();
    let mut player = MediaPlayer::open(0);
    assert!(!player.toggle_pause());
    player.pause_toggled(1_000_000_000);
    // 85 ms of silence at 48 kHz are 4080 samples, too few for a window.
    player.advance_paused_silence(&mut shared, 1_085_000_000);
    let analyse = |shared: &mut SharedMedia| {
        shared.analyser.frequency_data(
            1,
            0,
            |window: &Vec<u32>| window.clone(),
            |_previous, magnitude, _weight| magnitude,
            |magnitude| magnitude,
        )
    };
    assert_eq!(analyse(&mut shared), vec![0xff80_0000]);
    // Another third of a millisecond is 16 samples.
    player.advance_paused_silence(&mut shared, 1_085_333_333);
    assert_eq!(analyse(&mut shared), vec![0]);
}

#[test]
fn silence_is_not_made_up_for_longer_than_a_moment() {
    let mut shared = SharedMedia::default();
    let mut player = MediaPlayer { playing: false, analysis_updated_at: 0 };
    shared.queue_audio(AudioBuffer { rate: Some(40_000), ..buffer(0, 0) });
    shared.advance_analysis(0, mix);
    // 100 ms at 40 kHz are 4000 samples, too few for a window.
    player.advance_paused_silence(&mut shared, 60_000_000_000);
    let values = shared.analyser.frequency_data(
        1,
        0,
        |window: &Vec<u32>| window.clone(),
        |_previous, magnitude, _weight| magnitude,
        |magnitude| magnitude,
    );
    assert_eq!(values, vec![0xff80_0000]);
}

#[test]
fn pausing_twice_plays() {
    let mut player = MediaPlayer::open(0);
    assert!(player.is_playing());
    assert!(!player.toggle_pause());
    assert!(!player.is_playing());
    assert!(player.toggle_pause());
    assert!(player.is_playing());
}

#[test]
fn relative_seeks_stay_within_time() {
    assert_eq!(MediaPlayer::seek_relative(Some(30_000_000_000), 5), 35_000_000_000);
    assert_eq!(MediaPlayer::seek_relative(Some(30_000_000_000), -5), 25_000_000_000);
    assert_eq!(MediaPlayer::seek_relative(Some(3_000_000_000), -5), 0);
    assert_eq!(MediaPlayer::seek_relative(None, 5), 5_000_000_000);
    assert_eq!(MediaPlayer::seek_relative(Some(u64::MAX - 1), 5), u64::MAX);
}

#[test]
fn seeks_to_a_part_need_a_duration() {
    assert_eq!(MediaPlayer::seek_fraction(Some(90_000_000_001), 500_000_000), Ok(45_000_000_000));
    assert_eq!(MediaPlayer::seek_fraction(Some(90), 2 * FRACTION_ONE), Ok(90));
    assert_eq!(MediaPlayer::seek_fraction(None, 0), Err(SeekError::UnknownDuration));
    assert_eq!(part_of(u64::MAX, FRACTION_ONE), u64::MAX);
}

#[test]
fn volume_has_a_limit_and_mute_two_states() {
    assert_eq!(MediaPlayer::set_volume(400_000_000), 400_000_000);
    assert_eq!(MediaPlayer::set_volume(3 * FRACTION_ONE), FRACTION_ONE);
    assert!(MediaPlayer::toggle_mute(false));
    assert!(!MediaPlayer::toggle_mute(true));
}

#[test]
fn errors_and_the_end_are_told() {
    let error = |source| BusMessage::Error {
        source,
        error: "not found".to_owned(),
        details: "None".to_owned(),
    };
    assert_eq!(
        MediaPlayer::poll_bus(error(Some("/player/source".to_owned()))),
        Some("GStreamer error from /player/source: not found (None)".to_owned())
    );
    assert_eq!(
        MediaPlayer::poll_bus(error(None)),
        Some("GStreamer error from : not found (None)".to_owned())
    );
    assert_eq!(
        MediaPlayer::poll_bus(BusMessage::EndOfStream),
        Some("Playback finished".to_owned())
    );
    assert_eq!(MediaPlayer::poll_bus(BusMessage::Other), None);
}
