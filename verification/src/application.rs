//! What the viewer does, and what the player does about it.

use vstd::prelude::*;
use vstd::string::StringExecFns;
use crate::controls::{
    law_fractions_lie_between_nothing_and_one, law_the_panel_leaves_the_bar_alone, ControlAction,
    SliderControl,
};
use crate::geometry::{grains, PhysicalPosition, Viewport};
use crate::media::{fraction_target, part_of, MediaPlayer, PlaybackUi};
use crate::renderer::{Renderer, Resize};
use crate::settings::{SpectrumSettings, FRACTION_ONE};
use crate::uri::{media_title, title, url_path, MediaUri};
use crate::wayland_drop::UserEvent;

verus! {

/// How long the controls stay after the viewer did something, in nanoseconds.
pub const CONTROLS_VISIBLE_FOR: u64 = 2_500_000_000;

/// How long the controls take to fade at the end of that time.
pub const CONTROLS_FADE_TIME: u64 = 350_000_000;

/// The seconds by which an arrow key seeks.
pub const SEEK_STEP: i64 = 5;

/// A slider that is being dragged; the timeline remembers where it is.
#[derive(Clone, Copy, Debug, PartialEq, Eq, Structural)]
pub enum DragControl {
    Seek(u64),
    Volume,
    SpectrumSetting(crate::settings::SettingKey),
}

impl DragControl {
    pub open spec fn control(self) -> SliderControl {
        match self {
            DragControl::Seek(_) => SliderControl::Seek,
            DragControl::Volume => SliderControl::Volume,
            DragControl::SpectrumSetting(key) => SliderControl::SpectrumSetting(key),
        }
    }

    pub fn slider(self) -> (slider: SliderControl)
        ensures
            slider == self.control(),
    {
        match self {
            DragControl::Seek(_) => SliderControl::Seek,
            DragControl::Volume => SliderControl::Volume,
            DragControl::SpectrumSetting(key) => SliderControl::SpectrumSetting(key),
        }
    }
}

/// A key of the keyboard.
#[derive(Debug, PartialEq, Eq)]
pub enum Key {
    Escape,
    Space,
    ArrowLeft,
    ArrowRight,
    Character(String),
    Other,
}

/// Something that happens to the window.
#[derive(Debug, PartialEq, Eq)]
pub enum WindowEvent {
    CloseRequested,
    /// The window has a size and a scale factor of which one is new.
    Resized(Viewport),
    /// A file is dropped onto the window: its address, or what is wrong with it.
    DroppedFile(Result<MediaUri, String>),
    CursorMoved(PhysicalPosition),
    MouseInput { left: bool, pressed: bool },
    KeyboardInput { key: Key, pressed: bool, synthetic: bool },
    Other,
}

/// Something that is to be done outside.
#[derive(Debug, PartialEq, Eq)]
pub enum Command {
    Exit,
    /// Open the media at an address and play them.
    Load(MediaUri),
    /// Tell the viewer something.
    Report(String),
    /// Adapt what is drawn on to a new size.
    Resize(Resize),
    /// Show the cursor that says whether there is something to press.
    SetCursor { pointer: bool },
    ToggleFullscreen,
    SetPlaying(bool),
    ToggleMute,
    SetVolume(u64),
    SeekRelative(i64),
    SeekFraction(u64),
}

/// What a frame shows.
#[derive(Clone, Copy, Debug, PartialEq, Eq)]
pub struct Redraw {
    pub playback: Option<PlaybackUi>,
    pub controls_opacity: u64,
    /// The controls are gone, and the cursor says that nothing can be pressed.
    pub reset_cursor: bool,
}

/// A press of a control or a drag of one.
pub struct Activation {
    pub handled: bool,
    pub command: Option<Command>,
}

/// The slider that a press takes hold of.
pub open spec fn grabbed(action: ControlAction) -> Option<DragControl> {
    match action {
        ControlAction::Seek(fraction) => Some(DragControl::Seek(fraction)),
        ControlAction::Volume(_) => Some(DragControl::Volume),
        ControlAction::SetSpectrumSetting(key, _) => Some(DragControl::SpectrumSetting(key)),
        _ => None,
    }
}

fn grab(action: ControlAction) -> (drag: Option<DragControl>)
    ensures
        drag == grabbed(action),
{
    match action {
        ControlAction::Seek(fraction) => Some(DragControl::Seek(fraction)),
        ControlAction::Volume(_) => Some(DragControl::Volume),
        ControlAction::SetSpectrumSetting(key, _) => Some(DragControl::SpectrumSetting(key)),
        _ => None,
    }
}

/// The state of the player as far as the viewer changes it.
pub struct App {
    pub renderer: Option<Renderer>,
    pub media: Option<MediaPlayer>,
    pub cursor_position: Option<PhysicalPosition>,
    pub pointer_down: bool,
    pub dragging_control: Option<DragControl>,
    pub controls_hide_at: u64,
    pub settings_open: bool,
    pub settings: SpectrumSettings,
}

/// A reading of the clock that leaves room for the time the controls stay.
pub open spec fn is_time(now: u64) -> bool {
    now <= u64::MAX - CONTROLS_VISIBLE_FOR
}

/// The media with playing and pausing exchanged.
pub open spec fn toggled(media: Option<MediaPlayer>) -> Option<MediaPlayer> {
    match media {
        Some(player) => Some(MediaPlayer { playing: !player.playing, ..player }),
        None => None,
    }
}

/// What the pipeline is told when playing and pausing are exchanged.
pub open spec fn toggle_command(media: Option<MediaPlayer>) -> Option<Command> {
    match media {
        Some(player) => Some(Command::SetPlaying(!player.playing)),
        None => None,
    }
}

/// No command or one.
pub open spec fn as_commands(command: Option<Command>) -> Seq<Command> {
    match command {
        Some(command) => seq![command],
        None => seq![],
    }
}

/// A key stands for the letter F.
pub open spec fn is_fullscreen_key(text: Seq<char>) -> bool {
    text == "f"@ || text == "F"@
}

impl App {
    pub open spec fn wf(self) -> bool {
        &&& self.settings.in_range()
        &&& self.renderer matches Some(renderer) ==> renderer.wf()
        &&& self.dragging_control matches Some(DragControl::Seek(fraction)) ==> fraction
            <= FRACTION_ONE
    }

    /// Media are open and play.
    pub open spec fn playing(self) -> bool {
        self.media matches Some(player) && player.playing
    }

    pub fn new(now: u64) -> (app: Self)
        requires
            is_time(now),
        ensures
            app == (App {
                renderer: None,
                media: None,
                cursor_position: None,
                pointer_down: false,
                dragging_control: None,
                controls_hide_at: (now + CONTROLS_VISIBLE_FOR) as u64,
                settings_open: false,
                settings: SpectrumSettings::preset(),
            }),
            app.wf(),
    {
        App {
            renderer: None,
            media: None,
            cursor_position: None,
            pointer_down: false,
            dragging_control: None,
            controls_hide_at: now + CONTROLS_VISIBLE_FOR,
            settings_open: false,
            settings: SpectrumSettings::default(),
        }
    }

    /// What the pointer does at a place: on a press what stands there, and else
    /// what dragging the slider does that is held.
    pub open spec fn pointed(
        self,
        position: PhysicalPosition,
        is_press: bool,
    ) -> Option<ControlAction> {
        match (self.renderer, self.dragging_control) {
            (None, _) => None,
            (Some(renderer), drag) => if is_press {
                renderer.viewport.press(position, self.settings_open)
            } else if drag is Some {
                Some(renderer.viewport.drag(position, (drag->0).control()))
            } else {
                None
            },
        }
    }

    /// The slider that is held after an action.
    pub open spec fn held_after(self, action: ControlAction, is_press: bool) -> Option<DragControl> {
        if is_press {
            grabbed(action)
        } else {
            match (action, self.dragging_control) {
                (ControlAction::Seek(fraction), Some(DragControl::Seek(_))) => Some(
                    DragControl::Seek(fraction),
                ),
                (_, drag) => drag,
            }
        }
    }

    /// The settings after an action.
    pub open spec fn settings_after(self, action: ControlAction, is_press: bool) -> SpectrumSettings {
        match action {
            ControlAction::ToggleSpectrum if is_press => SpectrumSettings {
                enabled: !self.settings.enabled,
                ..self.settings
            },
            ControlAction::SetSpectrumSetting(key, value) => self.settings.with_normalized(
                key,
                value,
            ),
            ControlAction::ResetSpectrumSettings if is_press => SpectrumSettings::preset(),
            _ => self.settings,
        }
    }

    /// What is done outside about an action.
    pub open spec fn command_for(self, action: ControlAction, is_press: bool) -> Option<Command> {
        match action {
            ControlAction::ToggleFullscreen if is_press => Some(Command::ToggleFullscreen),
            ControlAction::TogglePlayback if is_press => toggle_command(self.media),
            ControlAction::ToggleMute if is_press && self.media is Some => Some(
                Command::ToggleMute,
            ),
            ControlAction::Volume(volume) if self.media is Some => Some(Command::SetVolume(volume)),
            _ => None,
        }
    }

    /// The state after an action.
    pub open spec fn acted(self, action: ControlAction, is_press: bool) -> App {
        App {
            dragging_control: self.held_after(action, is_press),
            settings_open: if action == ControlAction::ToggleSettings && is_press {
                !self.settings_open
            } else {
                self.settings_open
            },
            settings: self.settings_after(action, is_press),
            media: if action == ControlAction::TogglePlayback && is_press {
                toggled(self.media)
            } else {
                self.media
            },
            ..self
        }
    }

    /// The state after a press or a drag at a place.
    pub open spec fn activated(self, position: PhysicalPosition, is_press: bool) -> App {
        match self.pointed(position, is_press) {
            Some(action) => self.acted(action, is_press),
            None => self,
        }
    }

    /// What is done outside about a press or a drag at a place.
    pub open spec fn activation_command(
        self,
        position: PhysicalPosition,
        is_press: bool,
    ) -> Option<Command> {
        match self.pointed(position, is_press) {
            Some(action) => self.command_for(action, is_press),
            None => None,
        }
    }

    /// Presses what stands at a place, or drags what is held there.
    pub fn activate_control(&mut self, position: PhysicalPosition, is_press: bool) -> (activation:
        Activation)
        requires
            old(self).wf(),
        ensures
            final(self).wf(),
            *final(self) == old(self).activated(position, is_press),
            activation.handled == (old(self).pointed(position, is_press) is Some),
            activation.command == old(self).activation_command(position, is_press),
    {
        let action: Option<ControlAction> = match &self.renderer {
            None => None,
            Some(renderer) => if is_press {
                renderer.control_action(position, self.settings_open)
            } else {
                match self.dragging_control {
                    Some(drag) => Some(renderer.drag_action(position, drag.slider())),
                    None => None,
                }
            },
        };
        let action: ControlAction = match action {
            Some(action) => action,
            None => {
                return Activation { handled: false, command: None };
            },
        };
        proof {
            if let Some(renderer) = old(self).renderer {
                let (viewport, x) = (renderer.viewport, grains(position.x));
                law_fractions_lie_between_nothing_and_one(
                    x,
                    viewport.seek_start(),
                    viewport.seek_end(),
                );
            }
        }
        if is_press {
            self.dragging_control = grab(action);
        }
        let mut command: Option<Command> = None;
        match action {
            ControlAction::ToggleFullscreen => {
                if is_press {
                    command = Some(Command::ToggleFullscreen);
                }
            },
            ControlAction::ToggleSettings => {
                if is_press {
                    self.settings_open = !self.settings_open;
                }
            },
            ControlAction::ToggleSpectrum => {
                if is_press {
                    self.settings.enabled = !self.settings.enabled;
                }
            },
            ControlAction::SetSpectrumSetting(key, value) => {
                self.settings.set_normalized(key, value);
            },
            ControlAction::ResetSpectrumSettings => {
                if is_press {
                    self.settings = SpectrumSettings::default();
                }
            },
            ControlAction::Seek(fraction) => {
                if let Some(DragControl::Seek(_)) = self.dragging_control {
                    self.dragging_control = Some(DragControl::Seek(fraction));
                }
            },
            ControlAction::TogglePlayback => {
                if is_press {
                    command = self.toggle_playback();
                }
            },
            ControlAction::ToggleMute => {
                if is_press && self.media.is_some() {
                    command = Some(Command::ToggleMute);
                }
            },
            ControlAction::Volume(volume) => {
                if self.media.is_some() {
                    command = Some(Command::SetVolume(volume));
                }
            },
            ControlAction::SettingsPanel => {},
            ControlAction::ControlsBackground => {},
        }
        assert(self.settings.in_range()) by {
            assert forall|key: crate::settings::SettingKey|
                key.lowest() <= #[trigger] self.settings.value(key) <= key.highest() by {
                assert(key.lowest() <= old(self).settings.value(key) <= key.highest());
                assert(key.lowest() <= SpectrumSettings::preset().value(key) <= key.highest());
            }
        }
        Activation { handled: true, command }
    }

    /// Exchanges playing and pausing, where there are media.
    pub fn toggle_playback(&mut self) -> (command: Option<Command>)
        ensures
            *final(self) == (App { media: toggled(old(self).media), ..*old(self) }),
            command == toggle_command(old(self).media),
    {
        match &mut self.media {
            Some(player) => {
                let playing: bool = player.toggle_pause();
                Some(Command::SetPlaying(playing))
            },
            None => None,
        }
    }

    /// Shows the controls for a while.
    pub fn show_controls(&mut self, now: u64)
        requires
            is_time(now),
        ensures
            *final(self) == old(self).shown(now),
    {
        self.controls_hide_at = now + CONTROLS_VISIBLE_FOR;
    }

    /// The state after the controls were shown.
    pub open spec fn shown(self, now: u64) -> App {
        App { controls_hide_at: (now + CONTROLS_VISIBLE_FOR) as u64, ..self }
    }

    /// The opacity of the controls: full while the viewer uses them or playback
    /// is paused, else fading at the end of their time.
    pub open spec fn opacity(self, playing: bool, now: u64) -> int {
        if self.pointer_down || self.settings_open || !playing {
            FRACTION_ONE as int
        } else if now >= self.controls_hide_at {
            0
        } else if self.controls_hide_at - now >= CONTROLS_FADE_TIME {
            FRACTION_ONE as int
        } else {
            (self.controls_hide_at - now) * FRACTION_ONE / CONTROLS_FADE_TIME as int
        }
    }

    /// The opacity of the controls.
    pub fn controls_opacity(&self, playing: bool, now: u64) -> (opacity: u64)
        ensures
            opacity == self.opacity(playing, now),
            opacity <= FRACTION_ONE,
    {
        if self.pointer_down || self.settings_open || !playing {
            return FRACTION_ONE;
        }
        if now >= self.controls_hide_at {
            return 0;
        }
        let remaining: u64 = self.controls_hide_at - now;
        if remaining >= CONTROLS_FADE_TIME {
            FRACTION_ONE
        } else {
            remaining * FRACTION_ONE / CONTROLS_FADE_TIME
        }
    }

    /// The pointer is over something that can be pressed.
    pub open spec fn over_control(self, position: PhysicalPosition) -> bool {
        &&& self.media is Some
        &&& self.renderer matches Some(renderer) && renderer.viewport.press(
            position,
            self.settings_open,
        ) is Some
    }

    /// The place of the pointer, where a press there reaches a control.
    pub open spec fn pressed_at(self, now: u64) -> Option<PhysicalPosition> {
        match self.cursor_position {
            Some(position) if self.opacity(self.playing(), now) > 0 && self.pointed(
                position,
                true,
            ) is Some => Some(position),
            _ => None,
        }
    }

    /// The state after the left button went down: a press of the control under
    /// the pointer, or else a change between playing and pausing.
    pub open spec fn button_pressed(self, now: u64) -> App {
        let down = App { pointer_down: true, dragging_control: None, ..self.shown(now) };
        match self.pressed_at(now) {
            Some(position) => down.activated(position, true),
            None => App { media: toggled(self.media), ..down },
        }
    }

    /// What is done outside about the left button going down.
    pub open spec fn press_command(self, now: u64) -> Option<Command> {
        match self.pressed_at(now) {
            Some(position) => self.activation_command(position, true),
            None => toggle_command(self.media),
        }
    }

    /// What is done outside about the left button going up: the media go to
    /// where the timeline was dragged.
    pub open spec fn release_command(self) -> Option<Command> {
        match self.dragging_control {
            Some(DragControl::Seek(fraction)) if self.media is Some => Some(
                Command::SeekFraction(fraction),
            ),
            _ => None,
        }
    }

    /// The state after a key was pressed.
    pub open spec fn key_pressed(self, key: Key, now: u64) -> App {
        match key {
            Key::Space => App { media: toggled(self.media), ..self.shown(now) },
            _ => self.shown(now),
        }
    }

    /// What is done outside about a key.
    pub open spec fn key_command(self, key: Key) -> Option<Command> {
        match key {
            Key::Escape => Some(Command::Exit),
            Key::Space => toggle_command(self.media),
            Key::ArrowLeft if self.media is Some => Some(Command::SeekRelative((-SEEK_STEP) as i64)),
            Key::ArrowRight if self.media is Some => Some(Command::SeekRelative(SEEK_STEP)),
            Key::Character(text) if is_fullscreen_key(text@) => Some(Command::ToggleFullscreen),
            _ => None,
        }
    }

    /// The pointer drags a slider.
    pub open spec fn drags(self) -> bool {
        self.pointer_down && self.dragging_control is Some
    }

    /// The state after an event.
    pub open spec fn after(self, event: WindowEvent, now: u64) -> App {
        match event {
            WindowEvent::Resized(viewport) => App {
                renderer: match self.renderer {
                    Some(renderer) => Some(renderer.resized(viewport)),
                    None => None,
                },
                ..self
            },
            WindowEvent::CursorMoved(position) => {
                let moved = App { cursor_position: Some(position), ..self.shown(now) };
                if self.drags() {
                    moved.activated(position, false)
                } else {
                    moved
                }
            },
            WindowEvent::MouseInput { left: true, pressed: true } => self.button_pressed(now),
            WindowEvent::MouseInput { left: true, pressed: false } => App {
                pointer_down: false,
                dragging_control: None,
                ..self.shown(now)
            },
            WindowEvent::KeyboardInput { key, pressed: true, synthetic: false } => self.key_pressed(
                key,
                now,
            ),
            _ => self,
        }
    }

    /// What is done outside about an event.
    pub open spec fn commands(self, event: WindowEvent, now: u64) -> Seq<Command> {
        match event {
            WindowEvent::CloseRequested => seq![Command::Exit],
            WindowEvent::Resized(viewport) => match self.renderer {
                Some(renderer) => seq![Command::Resize(renderer.resize_for(viewport))],
                None => seq![],
            },
            WindowEvent::DroppedFile(Ok(uri)) => seq![Command::Load(uri)],
            WindowEvent::DroppedFile(Err(message)) => seq![Command::Report(message)],
            WindowEvent::CursorMoved(position) => seq![
                Command::SetCursor { pointer: self.over_control(position) },
            ] + as_commands(
                if self.drags() {
                    self.activation_command(position, false)
                } else {
                    None
                },
            ),
            WindowEvent::MouseInput { left: true, pressed: true } => as_commands(
                self.press_command(now),
            ),
            WindowEvent::MouseInput { left: true, pressed: false } => as_commands(
                self.release_command(),
            ),
            WindowEvent::KeyboardInput { key, pressed: true, synthetic: false } => as_commands(
                self.key_command(key),
            ),
            _ => seq![],
        }
    }

    /// Handles an event and says what is to be done outside, in order.
    pub fn window_event(&mut self, event: WindowEvent, now: u64) -> (commands: Vec<Command>)
        requires
            old(self).wf(),
            is_time(now),
            event matches WindowEvent::Resized(viewport) ==> viewport.wf(),
        ensures
            final(self).wf(),
            *final(self) == old(self).after(event, now),
            commands@ == old(self).commands(event, now),
    {
        let mut commands: Vec<Command> = Vec::new();
        match event {
            WindowEvent::CloseRequested => {
                commands.push(Command::Exit);
            },
            WindowEvent::Resized(viewport) => {
                if let Some(renderer) = &mut self.renderer {
                    let change: Resize = renderer.resize(viewport);
                    commands.push(Command::Resize(change));
                }
            },
            WindowEvent::DroppedFile(Ok(uri)) => {
                commands.push(Command::Load(uri));
            },
            WindowEvent::DroppedFile(Err(message)) => {
                commands.push(Command::Report(message));
            },
            WindowEvent::CursorMoved(position) => {
                self.show_controls(now);
                self.cursor_position = Some(position);
                let over_control: bool = match &self.renderer {
                    Some(renderer) => self.media.is_some() && renderer.control_action(
                        position,
                        self.settings_open,
                    ).is_some(),
                    None => false,
                };
                commands.push(Command::SetCursor { pointer: over_control });
                if self.pointer_down && self.dragging_control.is_some() {
                    let activation: Activation = self.activate_control(position, false);
                    if let Some(command) = activation.command {
                        commands.push(command);
                    }
                }
            },
            WindowEvent::MouseInput { left, pressed } => {
                if left {
                    if let Some(command) = self.mouse_input(pressed, now) {
                        commands.push(command);
                    }
                }
            },
            WindowEvent::KeyboardInput { key, pressed, synthetic } => {
                if pressed && !synthetic {
                    if let Some(command) = self.key_input(key, now) {
                        commands.push(command);
                    }
                }
            },
            WindowEvent::Other => {},
        }
        commands
    }

    /// Handles the left button.
    fn mouse_input(&mut self, pressed: bool, now: u64) -> (command: Option<Command>)
        requires
            old(self).wf(),
            is_time(now),
        ensures
            final(self).wf(),
            *final(self) == old(self).after(WindowEvent::MouseInput { left: true, pressed }, now),
            command == if pressed {
                old(self).press_command(now)
            } else {
                old(self).release_command()
            },
    {
        let playing: bool = match &self.media {
            Some(player) => player.is_playing(),
            None => false,
        };
        let controls_were_visible: bool = self.controls_opacity(playing, now) > 0;
        self.show_controls(now);
        self.pointer_down = pressed;
        let held: Option<DragControl> = self.dragging_control;
        self.dragging_control = None;
        if pressed {
            if controls_were_visible {
                if let Some(position) = self.cursor_position {
                    let activation: Activation = self.activate_control(position, true);
                    if activation.handled {
                        return activation.command;
                    }
                }
            }
            self.toggle_playback()
        } else {
            match held {
                Some(DragControl::Seek(fraction)) => if self.media.is_some() {
                    Some(Command::SeekFraction(fraction))
                } else {
                    None
                },
                _ => None,
            }
        }
    }

    /// Handles a key.
    fn key_input(&mut self, key: Key, now: u64) -> (command: Option<Command>)
        requires
            old(self).wf(),
            is_time(now),
        ensures
            final(self).wf(),
            *final(self) == old(self).key_pressed(key, now),
            command == old(self).key_command(key),
    {
        self.show_controls(now);
        match key {
            Key::Escape => Some(Command::Exit),
            Key::Space => self.toggle_playback(),
            Key::ArrowLeft => if self.media.is_some() {
                Some(Command::SeekRelative(-SEEK_STEP))
            } else {
                None
            },
            Key::ArrowRight => if self.media.is_some() {
                Some(Command::SeekRelative(SEEK_STEP))
            } else {
                None
            },
            Key::Character(text) => {
                if text == "f".to_owned() || text == "F".to_owned() {
                    Some(Command::ToggleFullscreen)
                } else {
                    None
                }
            },
            Key::Other => None,
        }
    }

    /// What a frame shows of the playback: while the timeline is dragged, its
    /// position is the one under the pointer.
    pub open spec fn shown_playback(self, playback: Option<PlaybackUi>) -> Option<PlaybackUi> {
        match (self.dragging_control, playback) {
            (Some(DragControl::Seek(fraction)), Some(state)) => Some(
                PlaybackUi {
                    position: fraction_target(state.duration, fraction) as u64,
                    ..state
                },
            ),
            _ => playback,
        }
    }

    /// What a frame shows.
    pub fn redraw(&self, playback: Option<PlaybackUi>, now: u64) -> (redraw: Redraw)
        requires
            self.wf(),
        ensures
            redraw.playback == self.shown_playback(playback),
            redraw.controls_opacity == self.opacity(self.playing(), now),
            redraw.reset_cursor == (redraw.controls_opacity == 0),
            self.dragging_control matches Some(DragControl::Seek(_)) ==> (
            redraw.playback matches Some(state) ==> state.position <= state.duration),
    {
        let mut shown: Option<PlaybackUi> = playback;
        if let Some(DragControl::Seek(fraction)) = self.dragging_control {
            if let Some(state) = playback {
                let position: u64 = part_of(state.duration, fraction);
                shown = Some(PlaybackUi { position, ..state });
            }
        }
        let playing: bool = match &self.media {
            Some(player) => player.is_playing(),
            None => false,
        };
        let controls_opacity: u64 = self.controls_opacity(playing, now);
        Redraw { playback: shown, controls_opacity, reset_cursor: controls_opacity == 0 }
    }

    /// What is done about something that was dropped.
    pub fn user_event(event: UserEvent) -> (command: Command)
        ensures
            match event {
                UserEvent::DroppedMedia(uri) => command == Command::Load(uri),
                UserEvent::DropError(error) => command matches Command::Report(message)
                    && message@ == "Could not read dropped media: "@ + error@,
            },
    {
        match event {
            UserEvent::DroppedMedia(uri) => Command::Load(uri),
            UserEvent::DropError(error) => {
                let mut message = "Could not read dropped media: ".to_owned();
                message.append(error.as_str());
                Command::Report(message)
            },
        }
    }

    /// Takes over media that were opened, or leaves everything as it is where
    /// they could not be; the window's title, or what the viewer is told.
    pub fn load(&mut self, uri: &MediaUri, opened: Result<(), String>, now: u64) -> (shown: Result<
        String,
        String,
    >)
        requires
            old(self).wf(),
        ensures
            final(self).wf(),
            match opened {
                Ok(_) => {
                    &&& shown matches Ok(text) && text@ == "Spectrum — "@ + title(
                        uri.text@,
                        url_path(uri.text@),
                    )
                    &&& *final(self) == (App {
                        renderer: final(self).renderer,
                        media: Some(MediaPlayer { playing: true, analysis_updated_at: now }),
                        ..*old(self)
                    })
                    &&& match (old(self).renderer, final(self).renderer) {
                        (None, None) => true,
                        (Some(before), Some(after)) => after.is_reset_of(before),
                        _ => false,
                    }
                },
                Err(error) => {
                    &&& shown matches Err(message) && message@ == "Could not load "@ + uri.text@
                        + ": "@ + error@
                    &&& *final(self) == *old(self)
                },
            },
    {
        match opened {
            Ok(_) => {
                if let Some(renderer) = &mut self.renderer {
                    renderer.reset_media();
                }
                self.media = Some(MediaPlayer::open(now));
                let mut text = "Spectrum — ".to_owned();
                text.append(media_title(uri).as_str());
                Ok(text)
            },
            Err(error) => {
                let mut message = "Could not load ".to_owned();
                message.append(uri.text.as_str());
                message.append(": ");
                message.append(error.as_str());
                Err(message)
            },
        }
    }
}

/// Shown controls stay in full, then fade, and are gone after their time, if
/// playback goes on and the viewer leaves them alone.
pub proof fn law_shown_controls_fade_after_a_while(app: App, shown: u64, now: u64)
    requires
        is_time(shown),
        shown <= now,
        !app.pointer_down,
        !app.settings_open,
    ensures
        app.shown(shown).opacity(true, shown) == FRACTION_ONE,
        now - shown <= CONTROLS_VISIBLE_FOR - CONTROLS_FADE_TIME ==> app.shown(shown).opacity(
            true,
            now,
        ) == FRACTION_ONE,
        now - shown >= CONTROLS_VISIBLE_FOR <==> app.shown(shown).opacity(true, now) == 0,
{
}

/// The controls never grow more opaque by waiting.
pub proof fn law_waiting_never_brings_the_controls_back(
    app: App,
    playing: bool,
    earlier: u64,
    later: u64,
)
    requires
        earlier <= later,
    ensures
        0 <= app.opacity(playing, later) <= app.opacity(playing, earlier) <= FRACTION_ONE,
{
}

/// Controls stay in full while playback is paused, a button is held or the
/// settings are open.
pub proof fn law_controls_in_use_stay(app: App, playing: bool, now: u64)
    requires
        app.pointer_down || app.settings_open || !playing,
    ensures
        app.opacity(playing, now) == FRACTION_ONE,
{
}

/// A press outside of every control plays or pauses.
pub proof fn law_a_press_beside_the_controls_plays_or_pauses(app: App, now: u64)
    requires
        app.cursor_position matches Some(position) ==> app.pointed(position, true) is None,
    ensures
        app.commands(WindowEvent::MouseInput { left: true, pressed: true }, now) == as_commands(
            toggle_command(app.media),
        ),
        app.after(WindowEvent::MouseInput { left: true, pressed: true }, now).playing() == (
        app.media is Some && !app.playing()),
{
}

/// Controls that are gone take no press: it plays or pauses wherever it is.
pub proof fn law_hidden_controls_take_no_press(app: App, now: u64)
    requires
        app.opacity(app.playing(), now) == 0,
    ensures
        app.commands(WindowEvent::MouseInput { left: true, pressed: true }, now) == as_commands(
            toggle_command(app.media),
        ),
        app.after(WindowEvent::MouseInput { left: true, pressed: true }, now).settings
            == app.settings,
{
}

/// The space bar pressed twice leaves everything but the time of the controls
/// as it was.
pub proof fn law_space_twice_changes_nothing(app: App, first: u64, second: u64)
    ensures
        app.key_pressed(Key::Space, first).key_pressed(Key::Space, second) == app.shown(second),
{
}

/// The settings button pressed twice leaves the settings as open as they were.
pub proof fn law_the_gear_twice_changes_nothing(app: App, position: PhysicalPosition)
    requires
        app.wf(),
        app.pointed(position, true) == Some(ControlAction::ToggleSettings),
    ensures
        app.activated(position, true).settings_open == !app.settings_open,
        app.activated(position, true).activated(position, true).settings_open
            == app.settings_open,
{
    if let Some(renderer) = app.renderer {
        law_the_panel_leaves_the_bar_alone(renderer.viewport, position);
    }
}

/// Reset restores the preset, whatever the settings were.
pub proof fn law_reset_restores_the_preset(app: App, position: PhysicalPosition)
    requires
        app.pointed(position, true) == Some(ControlAction::ResetSpectrumSettings),
    ensures
        app.activated(position, true).settings == SpectrumSettings::preset(),
{
}

impl App {
    /// The state after the pointer moved to some places, each at its time.
    pub open spec fn moved(self, moves: Seq<(PhysicalPosition, u64)>) -> App
        decreases moves.len(),
    {
        if moves.len() == 0 {
            self
        } else {
            self.moved(moves.drop_last()).after(
                WindowEvent::CursorMoved(moves.last().0),
                moves.last().1,
            )
        }
    }

    /// What is done outside about these moves, in order.
    pub open spec fn move_commands(self, moves: Seq<(PhysicalPosition, u64)>) -> Seq<Command>
        decreases moves.len(),
    {
        if moves.len() == 0 {
            seq![]
        } else {
            self.move_commands(moves.drop_last()) + self.moved(moves.drop_last()).commands(
                WindowEvent::CursorMoved(moves.last().0),
                moves.last().1,
            )
        }
    }

    /// The place of the timeline that is shown after these moves, while it is
    /// dragged.
    pub open spec fn place_shown(self, moves: Seq<(PhysicalPosition, u64)>) -> u64 {
        if moves.len() == 0 {
            (self.dragging_control->0)->Seek_0
        } else {
            (self.renderer->0).viewport.drag(moves.last().0, SliderControl::Seek)->Seek_0
        }
    }
}

/// While the timeline is dragged nothing is sought, however the pointer moves:
/// each move shows the new place. Letting go seeks once, to the last place shown.
pub proof fn law_the_timeline_seeks_when_it_is_let_go(
    app: App,
    moves: Seq<(PhysicalPosition, u64)>,
    released: u64,
    later: u64,
)
    requires
        app.pointer_down,
        app.media is Some,
        app.renderer is Some,
        app.dragging_control matches Some(DragControl::Seek(_)),
    ensures
        ({
            let place = app.place_shown(moves);
            let dragged = app.moved(moves);
            let release = WindowEvent::MouseInput { left: true, pressed: false };
            &&& forall|i: int|
                0 <= i < app.move_commands(moves).len() ==> (#[trigger] app.move_commands(
                    moves,
                )[i]) is SetCursor
            &&& dragged.dragging_control == Some(DragControl::Seek(place))
            &&& dragged.commands(release, released) == seq![Command::SeekFraction(place)]
            &&& dragged.after(release, released).commands(release, later) == Seq::<Command>::empty()
        }),
{
    lemma_dragging_the_timeline(app, moves);
}

proof fn lemma_dragging_the_timeline(app: App, moves: Seq<(PhysicalPosition, u64)>)
    requires
        app.pointer_down,
        app.renderer is Some,
        app.dragging_control matches Some(DragControl::Seek(_)),
    ensures
        app.moved(moves).pointer_down,
        app.moved(moves).renderer == app.renderer,
        app.moved(moves).media == app.media,
        app.moved(moves).dragging_control == Some(DragControl::Seek(app.place_shown(moves))),
        forall|i: int|
            0 <= i < app.move_commands(moves).len() ==> (#[trigger] app.move_commands(
                moves,
            )[i]) is SetCursor,
    decreases moves.len(),
{
    if moves.len() > 0 {
        let earlier = moves.drop_last();
        lemma_dragging_the_timeline(app, earlier);
        let before = app.moved(earlier);
        let (position, now) = moves.last();
        let command = Command::SetCursor { pointer: before.over_control(position) };
        let added = before.commands(WindowEvent::CursorMoved(position), now);
        assert(added =~= seq![command]);
        assert forall|i: int| 0 <= i < app.move_commands(moves).len() implies (
        #[trigger] app.move_commands(moves)[i]) is SetCursor by {
            if i < app.move_commands(earlier).len() {
                assert(app.move_commands(moves)[i] == app.move_commands(earlier)[i]);
            } else {
                assert(app.move_commands(moves)[i] == command);
            }
        }
    }
}

/// Letting go of the button ends every drag.
pub proof fn law_letting_go_ends_the_drag(app: App, now: u64)
    ensures
        ({
            let after = app.after(WindowEvent::MouseInput { left: true, pressed: false }, now);
            &&& after.dragging_control is None
            &&& !after.drags()
            &&& after.settings == app.settings
            &&& after.media == app.media
        }),
{
}

/// Only a new size changes what is drawn on.
pub proof fn law_only_a_new_size_changes_the_renderer(app: App, event: WindowEvent, now: u64)
    requires
        !(event is Resized),
    ensures
        app.after(event, now).renderer == app.renderer,
{
}

} // verus!
