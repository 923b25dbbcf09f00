//! What the viewer's doings come to, for every state of the player.
//!
//! An event is handled by `App::window_event`; what a press or a drag finds is
//! what `Viewport::control_action` and `Viewport::drag_action` find.

use vstd::prelude::*;
use crate::application::{App, Command, DragControl, Key, Redraw, WindowEvent};
use crate::controls::{ControlAction, SliderControl};
use crate::geometry::{PhysicalPosition, Viewport};
use crate::media::PlaybackUi;
use crate::renderer::{Renderer, Resize};
use crate::setting_laws::{held, limits};
use crate::settings::{SettingKey, SpectrumSettings};
use crate::uri::MediaUri;

verus! {

/// Handling an event is one step of the player: what it leaves is `after`, and
/// what it does outside are `commands`. The laws on sequences of events speak of
/// these.
pub proof fn law_an_event_is_a_step(
    app: &mut App,
    event: WindowEvent,
    now: u64,
    commands: Vec<Command>,
)
    requires
        call_ensures(App::window_event, (app, event, now), commands),
    ensures
        *final(app) == old(app).after(event, now),
        commands@ == old(app).commands(event, now),
{
}

/// Everything but the time at which the controls go is the same.
pub open spec fn differs_in_time_alone(app: App, other: App) -> bool {
    &&& app.renderer == other.renderer
    &&& app.media == other.media
    &&& app.cursor_position == other.cursor_position
    &&& app.pointer_down == other.pointer_down
    &&& app.dragging_control == other.dragging_control
    &&& app.settings_open == other.settings_open
    &&& app.settings == other.settings
}

/// Controls are in full for 2.15 seconds after they were shown, then fade evenly
/// for 0.35 seconds, and are then gone; while a button is held, the settings are
/// open or nothing plays they are in full.
pub proof fn law_the_opacity_of_the_controls(app: &App, playing: bool, now: u64, opacity: u64)
    requires
        call_ensures(App::controls_opacity, (app, playing, now), opacity),
    ensures
        ({
            let used = app.pointer_down || app.settings_open || !playing;
            let left = app.controls_hide_at - now;
            &&& used ==> opacity == 1_000_000_000
            &&& !used && left <= 0 ==> opacity == 0
            &&& !used && left >= 350_000_000 ==> opacity == 1_000_000_000
            &&& !used && 0 < left < 350_000_000 ==> opacity * 350_000_000 <= left * 1_000_000_000
                < (opacity + 1) * 350_000_000
        }),
{
}

/// Controls that are shown stay for 2.5 seconds, and nothing else changes.
pub proof fn law_shown_controls_stay_for_a_while(app: &mut App, now: u64)
    requires
        now <= u64::MAX - 2_500_000_000,
        call_ensures(App::show_controls, (app, now), ()),
    ensures
        final(app).controls_hide_at == now + 2_500_000_000,
        differs_in_time_alone(*final(app), *old(app)),
{
}

/// Every move of the pointer, every press and release of the left button and
/// every key that goes down shows the controls; nothing else does.
pub proof fn law_the_viewer_brings_the_controls_back(
    app: &mut App,
    event: WindowEvent,
    now: u64,
    commands: Vec<Command>,
)
    requires
        now <= u64::MAX - 2_500_000_000,
        call_ensures(App::window_event, (app, event, now), commands),
    ensures
        ({
            let shows = match event {
                WindowEvent::CursorMoved(_) => true,
                WindowEvent::MouseInput { left, .. } => left,
                WindowEvent::KeyboardInput { pressed, synthetic, .. } => pressed && !synthetic,
                _ => false,
            };
            &&& shows ==> final(app).controls_hide_at == now + 2_500_000_000
            &&& !shows ==> final(app).controls_hide_at == old(app).controls_hide_at
        }),
{
}

/// What each key does: escape ends the program, the space bar plays or pauses,
/// the arrows seek five seconds back and forth, and F in either case toggles
/// fullscreen. Keys without media but escape and F, all other keys, and keys that
/// are released or made up, do nothing.
pub proof fn law_what_the_keys_do(
    app: &mut App,
    key: Key,
    pressed: bool,
    synthetic: bool,
    now: u64,
    commands: Vec<Command>,
)
    requires
        call_ensures(
            App::window_event,
            (app, WindowEvent::KeyboardInput { key, pressed, synthetic }, now),
            commands,
        ),
    ensures
        ({
            let down = pressed && !synthetic;
            let has_media = old(app).media is Some;
            let plays = (old(app).media->0).playing;
            let is_f = key matches Key::Character(text) && (text@ == seq!['f'] || text@ == seq![
                'F',
            ]);
            &&& down && key is Escape ==> commands@ == seq![Command::Exit]
            &&& down && key is Space && has_media ==> commands@ == seq![
                Command::SetPlaying(!plays),
            ]
            &&& down && key is ArrowLeft && has_media ==> commands@ == seq![
                Command::SeekRelative((-5) as i64),
            ]
            &&& down && key is ArrowRight && has_media ==> commands@ == seq![
                Command::SeekRelative(5),
            ]
            &&& down && is_f ==> commands@ == seq![Command::ToggleFullscreen]
            &&& !down || key is Other || (key is Character && !is_f) || (!has_media && (
            key is Space || key is ArrowLeft || key is ArrowRight)) ==> commands@.len() == 0
            &&& match (old(app).media, final(app).media) {
                (Some(before), Some(after)) => {
                    &&& after.playing == (before.playing != (down && key is Space))
                    &&& after.analysis_updated_at == before.analysis_updated_at
                },
                (None, None) => true,
                _ => false,
            }
        }),
        final(app).renderer == old(app).renderer,
        final(app).settings == old(app).settings,
        final(app).settings_open == old(app).settings_open,
        final(app).cursor_position == old(app).cursor_position,
        final(app).pointer_down == old(app).pointer_down,
        final(app).dragging_control == old(app).dragging_control,
{
    reveal_strlit("f");
    reveal_strlit("F");
    assert("f"@ =~= seq!['f']);
    assert("F"@ =~= seq!['F']);
}

/// Closing ends the program; a dropped file is loaded, or what is wrong with it
/// reported; and the player stays as it is. So it does about anything else that it
/// does not know, and about other buttons.
pub proof fn law_closing_dropping_and_the_rest(
    app: &mut App,
    event: WindowEvent,
    now: u64,
    commands: Vec<Command>,
)
    requires
        !(event is Resized || event is CursorMoved || event is KeyboardInput),
        !(event matches WindowEvent::MouseInput { left, .. } && left),
        call_ensures(App::window_event, (app, event, now), commands),
    ensures
        *final(app) == *old(app),
        match event {
            WindowEvent::CloseRequested => commands@ == seq![Command::Exit],
            WindowEvent::DroppedFile(Ok(uri)) => commands@ == seq![Command::Load(uri)],
            WindowEvent::DroppedFile(Err(message)) => commands@ == seq![Command::Report(message)],
            _ => commands@.len() == 0,
        },
{
}

/// A new size goes to the renderer, and what it asks for is done.
pub proof fn law_a_new_size_goes_to_the_renderer(
    app: &mut App,
    renderer: &mut Renderer,
    viewport: Viewport,
    now: u64,
    commands: Vec<Command>,
    change: Resize,
)
    requires
        call_ensures(App::window_event, (app, WindowEvent::Resized(viewport), now), commands),
        old(app).renderer == Some(*old(renderer)),
        call_ensures(Renderer::resize, (renderer, viewport), change),
    ensures
        final(app).renderer == Some(*final(renderer)),
        commands@ == seq![Command::Resize(change)],
        final(app).media == old(app).media,
        final(app).settings == old(app).settings,
        final(app).settings_open == old(app).settings_open,
        final(app).dragging_control == old(app).dragging_control,
        final(app).pointer_down == old(app).pointer_down,
        final(app).cursor_position == old(app).cursor_position,
{
}

/// The cursor says exactly where something can be pressed while there are media,
/// and the place of the pointer is remembered.
pub proof fn law_the_cursor_says_what_can_be_pressed(
    app: &mut App,
    position: PhysicalPosition,
    now: u64,
    commands: Vec<Command>,
    found: Option<ControlAction>,
)
    requires
        call_ensures(App::window_event, (app, WindowEvent::CursorMoved(position), now), commands),
        old(app).renderer is Some,
        call_ensures(
            Viewport::control_action,
            ((old(app).renderer->0).viewport, position, old(app).settings_open),
            found,
        ),
    ensures
        commands@.len() > 0,
        commands@[0] == (Command::SetCursor { pointer: old(app).media is Some && found is Some }),
        final(app).cursor_position == Some(position),
        final(app).pointer_down == old(app).pointer_down,
        final(app).media == old(app).media,
        final(app).renderer == old(app).renderer,
        final(app).settings_open == old(app).settings_open,
        final(app).settings.enabled == old(app).settings.enabled,
        !(old(app).pointer_down && old(app).dragging_control is Some) ==> {
            &&& commands@.len() == 1
            &&& final(app).settings == old(app).settings
            &&& final(app).dragging_control == old(app).dragging_control
        },
{
}

/// The left button goes down over a control that is shown.
pub open spec fn presses(app: App, now: u64, found: ControlAction) -> bool {
    &&& app.cursor_position is Some
    &&& app.renderer is Some
    &&& (app.pointer_down || app.settings_open || !(app.media is Some && (app.media->0).playing)
        || now < app.controls_hide_at)
    &&& call_ensures(
        Viewport::control_action,
        ((app.renderer->0).viewport, app.cursor_position->0, app.settings_open),
        Some(found),
    )
}

/// What a press of each control does: the switch and the buttons change what they
/// show, the sliders set what they stand for and are held, the timeline only holds,
/// and nothing else changes.
pub proof fn law_what_a_press_of_a_control_does(
    app: &mut App,
    now: u64,
    commands: Vec<Command>,
    found: ControlAction,
)
    requires
        presses(*old(app), now, found),
        call_ensures(
            App::window_event,
            (app, WindowEvent::MouseInput { left: true, pressed: true }, now),
            commands,
        ),
    ensures
        ({
            let has_media = old(app).media is Some;
            let plays = (old(app).media->0).playing;
            &&& found is ToggleFullscreen ==> commands@ == seq![Command::ToggleFullscreen]
            &&& found is TogglePlayback && has_media ==> commands@ == seq![
                Command::SetPlaying(!plays),
            ]
            &&& found is ToggleMute && has_media ==> commands@ == seq![Command::ToggleMute]
            &&& found is Volume && has_media ==> commands@ == seq![
                Command::SetVolume(found->Volume_0),
            ]
            &&& commands@.len() <= 1
            &&& !(found is ToggleFullscreen || (has_media && (found is TogglePlayback
                || found is ToggleMute || found is Volume))) ==> commands@.len() == 0
            &&& match (old(app).media, final(app).media) {
                (Some(before), Some(after)) => {
                    &&& after.playing == (before.playing != (found is TogglePlayback))
                    &&& after.analysis_updated_at == before.analysis_updated_at
                },
                (None, None) => true,
                _ => false,
            }
        }),
        final(app).pointer_down,
        final(app).settings_open == (old(app).settings_open != (found is ToggleSettings)),
        final(app).dragging_control == match found {
            ControlAction::Seek(place) => Some(DragControl::Seek(place)),
            ControlAction::Volume(_) => Some(DragControl::Volume),
            ControlAction::SetSpectrumSetting(key, _) => Some(DragControl::SpectrumSetting(key)),
            _ => None,
        },
        !(found is ToggleSpectrum || found is SetSpectrumSetting || found is ResetSpectrumSettings)
            ==> final(app).settings == old(app).settings,
        found is ToggleSpectrum ==> final(app).settings == (SpectrumSettings {
            enabled: !old(app).settings.enabled,
            ..old(app).settings
        }),
        found is ResetSpectrumSettings ==> final(app).settings == (SpectrumSettings {
            enabled: true,
            sensitivity: 100_000_000_000,
            smoothing: 67_000_000_000,
            point_spacing: 4_000_000_000_000,
            blur_strength: 4_000_000_000_000,
            brightness: 80_000_000_000,
            overlay_opacity: 10_000_000_000,
        }),
        found matches ControlAction::SetSpectrumSetting(key, place) ==> is_set(
            old(app).settings,
            final(app).settings,
            key,
            place,
        ),
        final(app).renderer == old(app).renderer,
        final(app).cursor_position == old(app).cursor_position,
{
    lemma_opacity_is_positive(*old(app), now);
    let viewport = (old(app).renderer->0).viewport;
    let position = old(app).cursor_position->0;
    crate::controls::law_fractions_lie_between_nothing_and_one(
        position.x * 4_800,
        viewport.setting_start(),
        viewport.setting_end(),
    );
    if let ControlAction::SetSpectrumSetting(key, place) = found {
        lemma_is_set(old(app).settings, key, place);
    }
}

proof fn lemma_opacity_is_positive(app: App, now: u64)
    ensures
        app.opacity(app.playing(), now) > 0 <==> app.pointer_down || app.settings_open || !(
        app.media is Some && (app.media->0).playing) || now < app.controls_hide_at,
{
}

/// One setting stands at a part of the way between its limits, and all else is
/// as it was.
pub open spec fn is_set(
    before: SpectrumSettings,
    after: SpectrumSettings,
    key: SettingKey,
    place: u64,
) -> bool {
    &&& (held(after, key) - limits(key).0) * 1_000_000_000 == place * (limits(key).1 - limits(
        key,
    ).0)
    &&& forall|other: SettingKey|
        other != key ==> #[trigger] held(after, other) == held(before, other)
    &&& after.enabled == before.enabled
}

proof fn lemma_is_set(settings: SpectrumSettings, key: SettingKey, place: u64)
    requires
        place <= 1_000_000_000,
    ensures
        is_set(settings, settings.with_normalized(key, place), key, place),
{
    crate::setting_laws::lemma_range(key, place as int);
}

/// A press beside every control, or while the controls are gone, plays or pauses
/// and does nothing else.
pub proof fn law_any_other_press_plays_or_pauses(
    app: &mut App,
    now: u64,
    commands: Vec<Command>,
    found: Option<ControlAction>,
)
    requires
        old(app).cursor_position is Some && old(app).renderer is Some ==> call_ensures(
            Viewport::control_action,
            (
                (old(app).renderer->0).viewport,
                old(app).cursor_position->0,
                old(app).settings_open,
            ),
            found,
        ),
        old(app).cursor_position is None || old(app).renderer is None || found is None || (
        !old(app).pointer_down && !old(app).settings_open && old(app).media is Some && (old(
            app,
        ).media->0).playing && now >= old(app).controls_hide_at),
        call_ensures(
            App::window_event,
            (app, WindowEvent::MouseInput { left: true, pressed: true }, now),
            commands,
        ),
    ensures
        match (old(app).media, final(app).media) {
            (Some(before), Some(after)) => {
                &&& after.playing == !before.playing
                &&& commands@ == seq![Command::SetPlaying(!before.playing)]
            },
            (None, None) => commands@.len() == 0,
            _ => false,
        },
        final(app).pointer_down,
        final(app).dragging_control is None,
        final(app).settings == old(app).settings,
        final(app).settings_open == old(app).settings_open,
        final(app).renderer == old(app).renderer,
{
    lemma_opacity_is_positive(*old(app), now);
}

/// Letting go ends every drag, seeks where the timeline was held, to the place
/// last shown, and does nothing else.
pub proof fn law_letting_go_seeks_where_the_timeline_was_held(
    app: &mut App,
    now: u64,
    commands: Vec<Command>,
)
    requires
        call_ensures(
            App::window_event,
            (app, WindowEvent::MouseInput { left: true, pressed: false }, now),
            commands,
        ),
    ensures
        match old(app).dragging_control {
            Some(DragControl::Seek(place)) if old(app).media is Some => commands@ == seq![
                Command::SeekFraction(place),
            ],
            _ => commands@.len() == 0,
        },
        !final(app).pointer_down,
        final(app).dragging_control is None,
        final(app).media == old(app).media,
        final(app).settings == old(app).settings,
        final(app).settings_open == old(app).settings_open,
        final(app).renderer == old(app).renderer,
        final(app).cursor_position == old(app).cursor_position,
{
}

/// A move while a slider is held sets what the slider stands for to where the
/// pointer drags it: the timeline shows the place and seeks nothing, the volume is
/// set, and a setting is set, and no other.
pub proof fn law_a_held_slider_follows_the_pointer(
    app: &mut App,
    position: PhysicalPosition,
    now: u64,
    commands: Vec<Command>,
    slider: SliderControl,
    dragged: ControlAction,
)
    requires
        old(app).renderer is Some,
        old(app).pointer_down,
        match (old(app).dragging_control, slider) {
            (Some(DragControl::Seek(_)), SliderControl::Seek) => true,
            (Some(DragControl::Volume), SliderControl::Volume) => true,
            (
                Some(DragControl::SpectrumSetting(held)),
                SliderControl::SpectrumSetting(key),
            ) => held == key,
            _ => false,
        },
        call_ensures(App::window_event, (app, WindowEvent::CursorMoved(position), now), commands),
        call_ensures(
            Viewport::drag_action,
            ((old(app).renderer->0).viewport, position, slider),
            dragged,
        ),
    ensures
        match dragged {
            ControlAction::Seek(place) => {
                &&& final(app).dragging_control == Some(DragControl::Seek(place))
                &&& final(app).settings == old(app).settings
                &&& commands@.len() == 1
            },
            ControlAction::Volume(volume) => {
                &&& final(app).dragging_control == Some(DragControl::Volume)
                &&& final(app).settings == old(app).settings
                &&& old(app).media is Some ==> commands@.len() == 2 && commands@[1]
                    == Command::SetVolume(volume)
                &&& old(app).media is None ==> commands@.len() == 1
            },
            ControlAction::SetSpectrumSetting(key, place) => {
                &&& final(app).dragging_control == Some(DragControl::SpectrumSetting(key))
                &&& is_set(old(app).settings, final(app).settings, key, place)
                &&& commands@.len() == 1
            },
            _ => false,
        },
        commands@[0] is SetCursor,
        final(app).media == old(app).media,
        final(app).settings_open == old(app).settings_open,
        final(app).pointer_down,
        final(app).renderer == old(app).renderer,
{
    let viewport = (old(app).renderer->0).viewport;
    crate::controls::law_fractions_lie_between_nothing_and_one(
        position.x * 4_800,
        viewport.setting_start(),
        viewport.setting_end(),
    );
    if let ControlAction::SetSpectrumSetting(key, place) = dragged {
        lemma_is_set(old(app).settings, key, place);
    }
}

/// While a slider of the settings is held, after any moves of the pointer its
/// setting is the one at the place that the window gives for the last of them, the
/// other settings are as they were, and nothing but the cursor was changed outside.
pub proof fn law_a_held_setting_follows_any_moves(
    app: App,
    moves: Seq<(PhysicalPosition, u64)>,
    key: SettingKey,
    last: ControlAction,
)
    requires
        app.pointer_down,
        app.renderer is Some,
        app.dragging_control == Some(DragControl::SpectrumSetting(key)),
        moves.len() > 0,
        call_ensures(
            Viewport::drag_action,
            (
                (app.renderer->0).viewport,
                moves.last().0,
                SliderControl::SpectrumSetting(key),
            ),
            last,
        ),
    ensures
        last is SetSpectrumSetting,
        is_set(app.settings, app.moved(moves).settings, key, last->SetSpectrumSetting_1),
        app.moved(moves).dragging_control == Some(DragControl::SpectrumSetting(key)),
        forall|i: int|
            0 <= i < app.move_commands(moves).len() ==> (#[trigger] app.move_commands(
                moves,
            )[i]) is SetCursor,
{
    lemma_setting_moves(app, moves, key);
}

proof fn lemma_setting_moves(app: App, moves: Seq<(PhysicalPosition, u64)>, key: SettingKey)
    requires
        app.pointer_down,
        app.renderer is Some,
        app.dragging_control == Some(DragControl::SpectrumSetting(key)),
    ensures
        app.moved(moves).pointer_down,
        app.moved(moves).renderer == app.renderer,
        app.moved(moves).dragging_control == app.dragging_control,
        moves.len() > 0 ==> is_set(
            app.settings,
            app.moved(moves).settings,
            key,
            (app.renderer->0).viewport.drag(
                moves.last().0,
                SliderControl::SpectrumSetting(key),
            )->SetSpectrumSetting_1,
        ),
        moves.len() == 0 ==> app.moved(moves).settings == app.settings,
        forall|i: int|
            0 <= i < app.move_commands(moves).len() ==> (#[trigger] app.move_commands(
                moves,
            )[i]) is SetCursor,
    decreases moves.len(),
{
    if moves.len() > 0 {
        let earlier = moves.drop_last();
        lemma_setting_moves(app, earlier, key);
        let before = app.moved(earlier);
        let (position, now) = moves.last();
        let viewport = (app.renderer->0).viewport;
        let place = viewport.drag(
            position,
            SliderControl::SpectrumSetting(key),
        )->SetSpectrumSetting_1;
        crate::controls::law_fractions_lie_between_nothing_and_one(
            position.x * 4_800,
            viewport.setting_start(),
            viewport.setting_end(),
        );
        lemma_is_set(before.settings, key, place);
        assert(app.moved(moves).settings == before.settings.with_normalized(key, place));
        assert forall|other: SettingKey| other != key implies #[trigger] held(
            app.moved(moves).settings,
            other,
        ) == held(app.settings, other) by {
            assert(held(before.settings, other) == held(app.settings, other));
        }
        let command = Command::SetCursor { pointer: before.over_control(position) };
        let added = before.commands(WindowEvent::CursorMoved(position), now);
        assert(added =~= seq![command]);
        assert forall|i: int| 0 <= i < app.move_commands(moves).len() implies (
        #[trigger] app.move_commands(moves)[i]) is SetCursor by {
            if i < app.move_commands(earlier).len() {
                assert(app.move_commands(moves)[i] == app.move_commands(earlier)[i]);
            } else {
                assert(app.move_commands(moves)[i] == command);
            }
        }
    }
}

/// While the volume slider is held, every move sets the volume to where the
/// pointer drags it, and the last command of the moves sets the last of them.
pub proof fn law_a_held_volume_follows_any_moves(
    app: App,
    moves: Seq<(PhysicalPosition, u64)>,
    last: ControlAction,
)
    requires
        app.pointer_down,
        app.media is Some,
        app.renderer is Some,
        app.dragging_control == Some(DragControl::Volume),
        moves.len() > 0,
        call_ensures(
            Viewport::drag_action,
            ((app.renderer->0).viewport, moves.last().0, SliderControl::Volume),
            last,
        ),
    ensures
        last is Volume,
        app.move_commands(moves).len() == 2 * moves.len(),
        app.move_commands(moves).last() == Command::SetVolume(last->Volume_0),
        app.moved(moves).settings == app.settings,
        app.moved(moves).media == app.media,
{
    lemma_volume_moves(app, moves);
}

proof fn lemma_volume_moves(app: App, moves: Seq<(PhysicalPosition, u64)>)
    requires
        app.pointer_down,
        app.media is Some,
        app.renderer is Some,
        app.dragging_control == Some(DragControl::Volume),
    ensures
        app.moved(moves).pointer_down,
        app.moved(moves).renderer == app.renderer,
        app.moved(moves).media == app.media,
        app.moved(moves).dragging_control == app.dragging_control,
        app.moved(moves).settings == app.settings,
        app.move_commands(moves).len() == 2 * moves.len(),
        moves.len() > 0 ==> app.move_commands(moves).last() == Command::SetVolume(
            (app.renderer->0).viewport.drag(moves.last().0, SliderControl::Volume)->Volume_0,
        ),
    decreases moves.len(),
{
    if moves.len() > 0 {
        let earlier = moves.drop_last();
        lemma_volume_moves(app, earlier);
        let before = app.moved(earlier);
        let (position, now) = moves.last();
        lemma_volume_move(before, position, now);
        let added = before.commands(WindowEvent::CursorMoved(position), now);
        assert(app.move_commands(moves) == app.move_commands(earlier) + added);
    }
}

proof fn lemma_volume_move(app: App, position: PhysicalPosition, now: u64)
    requires
        app.pointer_down,
        app.media is Some,
        app.renderer is Some,
        app.dragging_control == Some(DragControl::Volume),
    ensures
        ({
            let after = app.after(WindowEvent::CursorMoved(position), now);
            let commands = app.commands(WindowEvent::CursorMoved(position), now);
            let volume = (app.renderer->0).viewport.drag(position, SliderControl::Volume)->Volume_0;
            &&& after.pointer_down
            &&& after.renderer == app.renderer
            &&& after.media == app.media
            &&& after.dragging_control == app.dragging_control
            &&& after.settings == app.settings
            &&& commands.len() == 2
            &&& commands[1] == Command::SetVolume(volume)
        }),
{
}

/// A frame shows the playback as it is, but for the position while the timeline
/// is held, which is the part of the duration under the pointer, rounded down; its
/// controls are as opaque as they are at the time, and the cursor rests exactly where
/// they are gone.
pub proof fn law_what_a_frame_shows_of_playback(
    app: &App,
    playback: Option<PlaybackUi>,
    now: u64,
    redraw: Redraw,
    opacity: u64,
)
    requires
        app.wf(),
        call_ensures(App::redraw, (app, playback, now), redraw),
        call_ensures(
            App::controls_opacity,
            (app, app.media is Some && (app.media->0).playing, now),
            opacity,
        ),
    ensures
        redraw.controls_opacity == opacity,
        redraw.reset_cursor <==> opacity == 0,
        match (playback, redraw.playback) {
            (Some(state), Some(shown)) => {
                &&& shown.duration == state.duration
                &&& shown.volume == state.volume
                &&& shown.playing == state.playing
                &&& shown.muted == state.muted
                &&& match app.dragging_control {
                    Some(DragControl::Seek(place)) => {
                        &&& shown.position * 1_000_000_000 <= state.duration * place
                        &&& state.duration * place < (shown.position + 1) * 1_000_000_000
                    },
                    _ => shown.position == state.position,
                }
            },
            (None, None) => true,
            _ => false,
        },
{
    if let Some(state) = playback {
        if let Some(DragControl::Seek(place)) = app.dragging_control {
            crate::media::law_seeks_stay_within_the_stream(state.duration, place, place);
        }
    }
}

/// Media that could be opened play from the time at which they were, without the
/// picture of those before; the settings and what the viewer does stay. Media that
/// could not be opened change nothing.
pub proof fn law_loading_starts_media_or_changes_nothing(
    app: &mut App,
    uri: &MediaUri,
    opened: Result<(), String>,
    now: u64,
    shown: Result<String, String>,
)
    requires
        call_ensures(App::load, (app, uri, opened, now), shown),
    ensures
        shown is Ok <==> opened is Ok,
        opened matches Err(error) ==> (shown matches Err(message) && message@ == "Could not load "@
            + uri.text@ + ": "@ + error@),
        opened is Err ==> *final(app) == *old(app),
        opened is Ok ==> {
            &&& final(app).media is Some
            &&& (final(app).media->0).playing
            &&& (final(app).media->0).analysis_updated_at == now
            &&& final(app).settings == old(app).settings
            &&& final(app).settings_open == old(app).settings_open
            &&& final(app).cursor_position == old(app).cursor_position
            &&& final(app).pointer_down == old(app).pointer_down
            &&& final(app).dragging_control == old(app).dragging_control
            &&& final(app).controls_hide_at == old(app).controls_hide_at
            &&& match (old(app).renderer, final(app).renderer) {
                (Some(before), Some(after)) => {
                    &&& !after.has_video
                    &&& after.last_spectrum@.len() == 0
                    &&& after.viewport == before.viewport
                    &&& after.config == before.config
                },
                (None, None) => true,
                _ => false,
            }
        },
{
}

/// A player starts empty, with its controls shown and the preset.
pub proof fn law_a_player_starts_empty(now: u64, app: App)
    requires
        now <= u64::MAX - 2_500_000_000,
        call_ensures(App::new, (now,), app),
    ensures
        app.renderer is None,
        app.media is None,
        app.cursor_position is None,
        !app.pointer_down,
        app.dragging_control is None,
        app.controls_hide_at == now + 2_500_000_000,
        !app.settings_open,
        app.settings == (SpectrumSettings {
            enabled: true,
            sensitivity: 100_000_000_000,
            smoothing: 67_000_000_000,
            point_spacing: 4_000_000_000_000,
            blur_strength: 4_000_000_000_000,
            brightness: 80_000_000_000,
            overlay_opacity: 10_000_000_000,
        }),
{
}

/// A press or a drag by itself is handled exactly where there is something to
/// press or something held.
pub proof fn law_a_press_is_handled_where_something_is(
    app: &mut App,
    position: PhysicalPosition,
    is_press: bool,
    activation: crate::application::Activation,
    found: Option<ControlAction>,
)
    requires
        call_ensures(App::activate_control, (app, position, is_press), activation),
        old(app).renderer is Some,
        call_ensures(
            Viewport::control_action,
            ((old(app).renderer->0).viewport, position, old(app).settings_open),
            found,
        ),
    ensures
        is_press ==> activation.handled == (found is Some),
        !is_press ==> activation.handled == (old(app).dragging_control is Some),
        !activation.handled ==> activation.command is None && *final(app) == *old(app),
{
}

/// Playing and pausing change places, where there are media.
pub proof fn law_playing_and_pausing_change_places(app: &mut App, command: Option<Command>)
    requires
        call_ensures(App::toggle_playback, (app,), command),
    ensures
        match (old(app).media, final(app).media) {
            (Some(before), Some(after)) => {
                &&& after.playing == !before.playing
                &&& after.analysis_updated_at == before.analysis_updated_at
                &&& command == Some(Command::SetPlaying(after.playing))
            },
            (None, None) => command is None,
            _ => false,
        },
        final(app).renderer == old(app).renderer,
        final(app).settings == old(app).settings,
        final(app).settings_open == old(app).settings_open,
{
}

/// The window's title names the media that were loaded.
pub proof fn law_the_window_names_its_media(
    app: &mut App,
    uri: &MediaUri,
    now: u64,
    shown: Result<String, String>,
    title: String,
)
    requires
        call_ensures(App::load, (app, uri, Ok(()), now), shown),
        call_ensures(crate::uri::media_title, (uri,), title),
    ensures
        shown matches Ok(text) && text@ == "Spectrum — "@ + title@,
{
}

/// What is held is dragged.
pub proof fn law_what_is_held_is_dragged(drag: DragControl, slider: SliderControl)
    requires
        call_ensures(DragControl::slider, (drag,), slider),
    ensures
        drag is Seek <==> slider is Seek,
        drag is Volume <==> slider is Volume,
        drag matches DragControl::SpectrumSetting(key) ==> slider
            == SliderControl::SpectrumSetting(key),
{
}

/// What a drag finds by itself is what the held slider is dragged to, and a press
/// finds what stands there: the same as through the events of the window.
pub proof fn law_an_activation_is_what_a_move_or_a_press_does(
    app: &mut App,
    position: PhysicalPosition,
    activation: crate::application::Activation,
    now: u64,
)
    requires
        old(app).pointer_down,
        old(app).dragging_control is Some,
        old(app).cursor_position == Some(position),
        call_ensures(App::activate_control, (app, position, false), activation),
    ensures
        differs_in_time_alone(
            *final(app),
            old(app).after(WindowEvent::CursorMoved(position), now),
        ),
        activation.command is Some ==> old(app).commands(
            WindowEvent::CursorMoved(position),
            now,
        ).last() == activation.command->0,
        activation.command is None ==> old(app).commands(
            WindowEvent::CursorMoved(position),
            now,
        ).len() == 1,
{
}

/// Without a renderer nothing can be pressed or resized: a move only places the
/// pointer, and a new size does nothing.
pub proof fn law_without_a_renderer_nothing_is_pressed(
    app: &mut App,
    event: WindowEvent,
    now: u64,
    commands: Vec<Command>,
)
    requires
        old(app).renderer is None,
        event is CursorMoved || event is Resized,
        call_ensures(App::window_event, (app, event, now), commands),
    ensures
        event is Resized ==> commands@.len() == 0 && *final(app) == *old(app),
        event matches WindowEvent::CursorMoved(position) ==> {
            &&& commands@ == seq![Command::SetCursor { pointer: false }]
            &&& final(app).cursor_position == Some(position)
            &&& final(app).renderer is None
            &&& final(app).media == old(app).media
            &&& final(app).settings == old(app).settings
            &&& final(app).dragging_control == old(app).dragging_control
        },
{
    let command = Command::SetCursor { pointer: false };
    assert(seq![command] + Seq::<Command>::empty() =~= seq![command]);
}

} // verus!
