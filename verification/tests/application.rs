use spectrum_native::application::{App, Command, DragControl, Key, WindowEvent};
use spectrum_native::controls::SliderControl;
use spectrum_native::geometry::{PhysicalPosition, PhysicalSize, Viewport, SCALE_ONE, SUBPIXELS};
use spectrum_native::media::{MediaPlayer, PlaybackUi, VideoFrame};
use spectrum_native::renderer::{Renderer, Resize};
use spectrum_native::settings::{SettingKey, SpectrumSettings, FRACTION_ONE};
use spectrum_native::uri::MediaUri;
use spectrum_native::wayland_drop::UserEvent;

const SECOND: u64 = 1_000_000_000;

fn at(x: i64, y: i64) -> PhysicalPosition {
    PhysicalPosition { x: x * SUBPIXELS, y: y * SUBPIXELS }
}

fn viewport() -> Viewport {
    Viewport { size: PhysicalSize { width: 1280, height: 720 }, scale: SCALE_ONE }
}

fn playing() -> App {
    let mut app = App::new(0);
    app.renderer = Some(Renderer::new(viewport(), false, 0));
    app.media = Some(MediaPlayer::open(0));
    app
}

fn move_to(app: &mut App, x: i64, y: i64, now: u64) -> Vec<Command> {
    app.window_event(WindowEvent::CursorMoved(at(x, y)), now)
}

fn press(app: &mut App, now: u64) -> Vec<Command> {
    app.window_event(WindowEvent::MouseInput { left: true, pressed: true }, now)
}

fn release(app: &mut App, now: u64) -> Vec<Command> {
    app.window_event(WindowEvent::MouseInput { left: true, pressed: false }, now)
}

fn click(app: &mut App, x: i64, y: i64) -> Vec<Command> {
    move_to(app, x, y, 0);
    let commands = press(app, 0);
    release(app, 0);
    commands
}

fn key(app: &mut App, key: Key) -> Vec<Command> {
    app.window_event(WindowEvent::KeyboardInput { key, pressed: true, synthetic: false }, 0)
}

#[test]
fn controls_fade_out_while_playing() {
    let mut app = playing();
    app.show_controls(SECOND);
    assert_eq!(app.controls_opacity(true, SECOND), FRACTION_ONE);
    assert_eq!(app.controls_opacity(true, 3_150_000_000), FRACTION_ONE);
    assert_eq!(app.controls_opacity(true, 3_325_000_000), FRACTION_ONE / 2);
    assert_eq!(app.controls_opacity(true, 3_499_999_999), 2);
    assert_eq!(app.controls_opacity(true, 3_500_000_000), 0);
    assert_eq!(app.controls_opacity(false, 9 * SECOND), FRACTION_ONE);
    app.settings_open = true;
    assert_eq!(app.controls_opacity(true, 9 * SECOND), FRACTION_ONE);
    app.settings_open = false;
    app.pointer_down = true;
    assert_eq!(app.controls_opacity(true, 9 * SECOND), FRACTION_ONE);
}

#[test]
fn a_click_on_the_video_plays_or_pauses() {
    let mut app = playing();
    assert_eq!(click(&mut app, 640, 300), vec![Command::SetPlaying(false)]);
    assert_eq!(click(&mut app, 640, 300), vec![Command::SetPlaying(true)]);
    app.media = None;
    assert_eq!(click(&mut app, 640, 300), vec![]);
}

#[test]
fn buttons_do_what_they_show() {
    let mut app = playing();
    assert_eq!(click(&mut app, 36, 682), vec![Command::SetPlaying(false)]);
    assert_eq!(click(&mut app, 1040, 682), vec![Command::ToggleMute]);
    assert_eq!(click(&mut app, 1116, 682), vec![Command::SetVolume(500_000_000)]);
    assert_eq!(click(&mut app, 1250, 682), vec![Command::ToggleFullscreen]);
    assert_eq!(click(&mut app, 66, 650), vec![]);
    assert_eq!(app.media, Some(MediaPlayer { playing: false, analysis_updated_at: 0 }));
}

#[test]
fn hidden_controls_take_no_click() {
    let mut app = playing();
    move_to(&mut app, 1250, 682, 0);
    assert_eq!(press(&mut app, 60 * SECOND), vec![Command::SetPlaying(false)]);
}

#[test]
fn the_timeline_seeks_when_it_is_let_go() {
    let mut app = playing();
    move_to(&mut app, 76, 682, 0);
    assert_eq!(press(&mut app, 0), vec![]);
    assert_eq!(app.dragging_control, Some(DragControl::Seek(0)));
    assert_eq!(move_to(&mut app, 535, 10, 0), vec![Command::SetCursor { pointer: false }]);
    assert_eq!(app.dragging_control, Some(DragControl::Seek(500_000_000)));
    let playback = PlaybackUi { duration: 90, ..PlaybackUi::default() };
    let redraw = app.redraw(Some(playback), 0);
    assert_eq!(redraw.playback, Some(PlaybackUi { position: 45, ..playback }));
    assert_eq!(release(&mut app, 0), vec![Command::SeekFraction(500_000_000)]);
    assert_eq!(app.dragging_control, None);
    assert_eq!(release(&mut app, 0), vec![]);
    assert_eq!(app.redraw(Some(playback), 0).playback, Some(playback));
}

#[test]
fn the_volume_follows_the_drag() {
    let mut app = playing();
    move_to(&mut app, 1060, 682, 0);
    assert_eq!(press(&mut app, 0), vec![Command::SetVolume(0)]);
    assert_eq!(
        move_to(&mut app, 2000, 682, 0),
        vec![Command::SetCursor { pointer: true }, Command::SetVolume(FRACTION_ONE)]
    );
    assert_eq!(release(&mut app, 0), vec![]);
}

#[test]
fn settings_follow_their_sliders_and_reset_restores_the_preset() {
    let mut app = playing();
    click(&mut app, 1200, 682);
    assert!(app.settings_open);
    click(&mut app, 1164, 408);
    assert_eq!(app.settings.sensitivity, 125_000_000_000);
    click(&mut app, 1000, 370);
    assert!(!app.settings.enabled);
    click(&mut app, 1000, 610);
    assert_eq!(app.settings, SpectrumSettings::default());
    click(&mut app, 1200, 682);
    assert!(!app.settings_open);
    assert_eq!(click(&mut app, 1164, 408), vec![Command::SetPlaying(false)]);
}

#[test]
fn the_cursor_shows_what_can_be_pressed() {
    let mut app = playing();
    assert_eq!(move_to(&mut app, 36, 682, 0), vec![Command::SetCursor { pointer: true }]);
    assert_eq!(move_to(&mut app, 36, 100, 0), vec![Command::SetCursor { pointer: false }]);
    app.media = None;
    assert_eq!(move_to(&mut app, 36, 682, 0), vec![Command::SetCursor { pointer: false }]);
    let mut bare = App::new(0);
    assert_eq!(move_to(&mut bare, 36, 682, 0), vec![Command::SetCursor { pointer: false }]);
}

#[test]
fn keys_do_what_is_documented() {
    let mut app = playing();
    assert_eq!(key(&mut app, Key::Escape), vec![Command::Exit]);
    assert_eq!(key(&mut app, Key::Space), vec![Command::SetPlaying(false)]);
    assert_eq!(key(&mut app, Key::Space), vec![Command::SetPlaying(true)]);
    assert_eq!(key(&mut app, Key::ArrowLeft), vec![Command::SeekRelative(-5)]);
    assert_eq!(key(&mut app, Key::ArrowRight), vec![Command::SeekRelative(5)]);
    assert_eq!(key(&mut app, Key::Character("f".to_owned())), vec![Command::ToggleFullscreen]);
    assert_eq!(key(&mut app, Key::Character("F".to_owned())), vec![Command::ToggleFullscreen]);
    assert_eq!(key(&mut app, Key::Character("g".to_owned())), vec![]);
    assert_eq!(key(&mut app, Key::Other), vec![]);
    app.media = None;
    assert_eq!(key(&mut app, Key::ArrowLeft), vec![]);
    assert_eq!(key(&mut app, Key::Space), vec![]);
}

#[test]
fn synthetic_and_released_keys_and_other_buttons_do_nothing() {
    let mut app = playing();
    let events = vec![
        WindowEvent::KeyboardInput { key: Key::Escape, pressed: true, synthetic: true },
        WindowEvent::KeyboardInput { key: Key::Escape, pressed: false, synthetic: false },
        WindowEvent::MouseInput { left: false, pressed: true },
        WindowEvent::Other,
    ];
    for event in events {
        assert_eq!(app.window_event(event, 7 * SECOND), vec![]);
    }
    assert_eq!(app.controls_hide_at, 2_500_000_000);
    assert!(!app.pointer_down);
}

#[test]
fn closing_dropping_and_resizing_are_passed_on() {
    let mut app = playing();
    assert_eq!(app.window_event(WindowEvent::CloseRequested, 0), vec![Command::Exit]);
    let uri = || MediaUri { text: "file:///a".to_owned() };
    assert_eq!(
        app.window_event(WindowEvent::DroppedFile(Ok(uri())), 0),
        vec![Command::Load(uri())]
    );
    assert_eq!(
        app.window_event(WindowEvent::DroppedFile(Err("gone".to_owned())), 0),
        vec![Command::Report("gone".to_owned())]
    );
    assert_eq!(
        app.window_event(WindowEvent::Resized(viewport()), 0),
        vec![Command::Resize(Resize { reconfigure: true, redraw_labels: false })]
    );
    let mut bare = App::new(0);
    assert_eq!(bare.window_event(WindowEvent::Resized(viewport()), 0), vec![]);
}

#[test]
fn drops_are_loaded_or_reported() {
    let uri = || MediaUri { text: "https://a/b.mp4".to_owned() };
    assert_eq!(App::user_event(UserEvent::DroppedMedia(uri())), Command::Load(uri()));
    assert_eq!(
        App::user_event(UserEvent::DropError("broken pipe".to_owned())),
        Command::Report("Could not read dropped media: broken pipe".to_owned())
    );
}

#[test]
fn loaded_media_start_anew() {
    let mut app = playing();
    if let Some(renderer) = &mut app.renderer {
        renderer.upload_video(&VideoFrame { width: 2, height: 2, rgba: vec![0; 16] });
    }
    key(&mut app, Key::Space);
    let uri = MediaUri { text: "https://a/b.mp4".to_owned() };
    assert_eq!(app.load(&uri, Ok(()), 77), Ok("Spectrum — b.mp4".to_owned()));
    assert_eq!(app.media, Some(MediaPlayer { playing: true, analysis_updated_at: 77 }));
    assert!(!app.renderer.as_ref().unwrap().has_video);
}

#[test]
fn media_that_cannot_be_opened_change_nothing() {
    let mut app = playing();
    key(&mut app, Key::Space);
    let uri = MediaUri { text: "https://a/b.mp4".to_owned() };
    assert_eq!(
        app.load(&uri, Err("no plugin".to_owned()), 77),
        Err("Could not load https://a/b.mp4: no plugin".to_owned())
    );
    assert_eq!(app.media, Some(MediaPlayer { playing: false, analysis_updated_at: 0 }));
}

#[test]
fn the_cursor_rests_when_the_controls_are_gone() {
    let app = playing();
    let redraw = app.redraw(None, SECOND);
    assert_eq!((redraw.playback, redraw.controls_opacity), (None, FRACTION_ONE));
    assert!(!redraw.reset_cursor);
    assert!(app.redraw(None, 3 * SECOND).reset_cursor);
}

#[test]
fn drags_know_their_sliders() {
    assert_eq!(DragControl::Seek(3).slider(), SliderControl::Seek);
    assert_eq!(DragControl::Volume.slider(), SliderControl::Volume);
    assert_eq!(
        DragControl::SpectrumSetting(SettingKey::Brightness).slider(),
        SliderControl::SpectrumSetting(SettingKey::Brightness)
    );
}

#[test]
fn many_moves_seek_once() {
    let mut app = playing();
    move_to(&mut app, 76, 682, 0);
    press(&mut app, 0);
    for x in [100, 994, -5, 300, 535] {
        assert_eq!(move_to(&mut app, x, 10, 0), vec![Command::SetCursor { pointer: false }]);
    }
    assert_eq!(release(&mut app, 0), vec![Command::SeekFraction(500_000_000)]);
    assert_eq!(move_to(&mut app, 900, 10, 0), vec![Command::SetCursor { pointer: false }]);
    assert_eq!(release(&mut app, 0), vec![]);
}
